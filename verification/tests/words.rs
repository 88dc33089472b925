use jogicode::endpoint::{address, health_request, is_http_response, may_become_response, navigation_script};
use jogicode::copy::{CopyFault, CopyNote};
use jogicode::journal::{
    bind_message, exit_report, log_text, migration_end, migration_found, migration_opening, migration_outcome,
    skip_message, stamped_line, watch_message, ExitCheck,
};
use jogicode::migrate::Legacy;
use jogicode::paths::{has_verbatim_prefix, plain_path, strip_unc_prefix, PlainPath};
use jogicode::ports::BindReport;
use jogicode::splash::{error_script, status_script};
use jogicode::text::{joined, split_lines, starts_with, to_decimal};
use jogicode::watch::Probe;

#[test]
fn decimal_notation() {
    assert_eq!(to_decimal(0), "0");
    assert_eq!(to_decimal(7), "7");
    assert_eq!(to_decimal(10), "10");
    assert_eq!(to_decimal(8080), "8080");
    assert_eq!(to_decimal(1234567890), "1234567890");
    assert_eq!(to_decimal(u64::MAX), "18446744073709551615");
}

#[test]
fn decimal_notation_reads_back() {
    for n in [0u64, 9, 10, 99, 100, 65535, u64::MAX] {
        assert_eq!(to_decimal(n).parse::<u64>(), Ok(n));
    }
}

#[test]
fn joining_and_prefixes() {
    assert_eq!(joined("ab", "cd"), "abcd");
    assert_eq!(joined("", ""), "");
    assert!(starts_with("abc", ""));
    assert!(starts_with("abc", "ab"));
    assert!(starts_with("abc", "abc"));
    assert!(!starts_with("abc", "abcd"));
    assert!(!starts_with("xabc", "abc"));
    assert!(starts_with("äöü", "äö"));
}

#[test]
fn verbatim_prefix_is_stripped() {
    assert_eq!(strip_unc_prefix(r"\\?\C:\Program Files\node.exe"), r"C:\Program Files\node.exe");
    assert_eq!(strip_unc_prefix(r"\\?\"), "");
    assert_eq!(strip_unc_prefix(r"\\?\D:\ä\ö"), r"D:\ä\ö");
}

#[test]
fn only_four_characters_are_stripped() {
    assert_eq!(strip_unc_prefix(r"\\?\UNC\server\share"), r"UNC\server\share");
    assert_eq!(strip_unc_prefix(r"\\?\\\?\C:\"), r"\\?\C:\");
}

#[test]
fn other_paths_stay() {
    for path in ["", "C:\\", r"\\server\share", r"\\?", r"/usr/bin", r"C:\\?\x"] {
        assert!(!has_verbatim_prefix(path));
        assert_eq!(strip_unc_prefix(path), path);
    }
}

#[test]
fn stripping_undoes_the_prefix() {
    for path in ["", r"C:\x", r"\\?\", r"UNC\a\b"] {
        assert_eq!(strip_unc_prefix(&joined(r"\\?\", path)), path);
    }
}

#[test]
fn plain_paths() {
    assert!(matches!(plain_path(7u32, r"\\?\C:\x"), PlainPath::Text(t) if t == r"C:\x"));
    assert!(matches!(plain_path(7u32, r"C:\x"), PlainPath::Native(7)));
}

#[test]
fn addresses() {
    assert_eq!(address(8080), "127.0.0.1:8080");
    assert_eq!(address(0), "127.0.0.1:0");
    assert_eq!(address(65535), "127.0.0.1:65535");
    assert_ne!(address(808), address(8080));
}

#[test]
fn health_request_text() {
    assert_eq!(
        health_request(8081),
        "GET / HTTP/1.1\r\nHost: 127.0.0.1:8081\r\nConnection: close\r\n\r\n"
    );
}

#[test]
fn navigation() {
    assert_eq!(navigation_script(8085), "window.location.href = 'http://127.0.0.1:8085';");
}

#[test]
fn http_responses() {
    assert!(is_http_response(b"HTTP/1.1 200 OK\r\n"));
    assert!(is_http_response(b"HTTP/"));
    assert!(is_http_response(b"HTTP/\xff\xfe"));
    assert!(!is_http_response(b""));
    assert!(!is_http_response(b"HTTP"));
    assert!(!is_http_response(b"http/1.1 200 OK"));
    assert!(!is_http_response(b" HTTP/1.1"));
    assert!(!is_http_response(b"\xffHTTP/1.1"));
    assert!(!is_http_response(b"HTTP:1"));
}

#[test]
fn error_scripts() {
    assert_eq!(
        error_script("it's C:\\x\nnow"),
        "var s = document.getElementById('status'); s.textContent = 'it\\'s C:\\\\x now'; s.classList.add('error'); var sp = document.querySelector('.spinner'); if (sp) sp.style.display = 'none';"
    );
    assert_eq!(
        error_script(""),
        "var s = document.getElementById('status'); s.textContent = ''; s.classList.add('error'); var sp = document.querySelector('.spinner'); if (sp) sp.style.display = 'none';"
    );
}

#[test]
fn escapes_agree_with_replacement() {
    for message in ["plain", "'", "\\", "\\'", "'\\'", "a\nb\r\nc", "ä'ö\\ü\n", "\\\\''\n\n"] {
        let escaped = message
            .replace('\\', "\\\\")
            .replace('\'', "\\'")
            .replace('\n', " ")
            .replace('\r', " ");
        assert!(error_script(message).contains(&format!("s.textContent = '{}'; s.classList", escaped)));
        assert!(status_script(message).contains(&format!("{{ s.textContent = '{}'; }}", escaped)));
    }
}

#[test]
fn status_scripts() {
    assert_eq!(
        status_script("Loading IDE…"),
        "var s = document.getElementById('status'); if (!s.classList.contains('error')) { s.textContent = 'Loading IDE…'; }"
    );
    assert_eq!(
        status_script("it's C:\\temp\r\n"),
        "var s = document.getElementById('status'); if (!s.classList.contains('error')) { s.textContent = 'it\\'s C:\\\\temp  '; }"
    );
}

// Reads the inside of a single-quoted literal as JavaScript does.
fn read_literal(body: &str) -> Option<String> {
    let mut text = String::new();
    let mut chars = body.chars();
    while let Some(c) = chars.next() {
        match c {
            '\\' => text.push(chars.next()?),
            '\'' | '\n' | '\r' => return None,
            _ => text.push(c),
        }
    }
    Some(text)
}

#[test]
fn messages_are_shown_whole() {
    for message in ["C:\\temp", "\r", "it's", "\\", "a\nb\r\nc'\\"] {
        let script = status_script(message);
        let start: usize = script.find("textContent = '").unwrap() + 15;
        let body = &script[start..script.len() - 4];
        assert_eq!(read_literal(body), Some(message.replace('\n', " ").replace('\r', " ")));
    }
}

#[test]
fn watch_messages() {
    assert_eq!(watch_message(Probe::Tcp, 8080, true), Some("TCP port 8080 is open".to_string()));
    assert_eq!(watch_message(Probe::Tcp, 8080, false), None);
    assert_eq!(
        watch_message(Probe::Http, 8080, true),
        Some("HTTP health check passed — code-server is responding".to_string())
    );
    assert_eq!(watch_message(Probe::Http, 8080, false), Some("HTTP health check timed out".to_string()));
}

#[test]
fn unfinished_responses() {
    for piece in ["", "H", "HT", "HTT", "HTTP"] {
        assert!(may_become_response(piece.as_bytes()));
    }
    for piece in ["HTTP/", "HTTP/1", "h", "HX", "TTP", "HTTX"] {
        assert!(!may_become_response(piece.as_bytes()));
    }
}

#[test]
fn log_lines() {
    assert_eq!(log_text("hello"), "[jogicode] hello");
    assert_eq!(stamped_line(1700000000, "hello"), "1700000000 [jogicode] hello");
}

#[test]
fn exit_reports() {
    let output = "Error: x\r\n  at y\n".to_string();
    assert_eq!(
        exit_report(&ExitCheck::Exited("ExitStatus(1)".to_string(), output)),
        vec![
            "code-server exited prematurely with status: ExitStatus(1)".to_string(),
            "code-server stderr: Error: x".to_string(),
            "code-server stderr:   at y".to_string(),
        ]
    );
    assert_eq!(
        exit_report(&ExitCheck::Exited("s".to_string(), String::new())),
        vec!["code-server exited prematurely with status: s".to_string()]
    );
    assert_eq!(
        exit_report(&ExitCheck::Running),
        vec!["code-server process is still running after 3s".to_string()]
    );
    assert_eq!(
        exit_report(&ExitCheck::Unknown("gone".to_string())),
        vec!["failed to check code-server status: gone".to_string()]
    );
}

#[test]
fn lines_agree_with_the_standard_library() {
    for text in [
        "", "\n", "\r", "\r\n", "a", "a\n", "a\nb", "a\r\nb\r\n", "a\r", "\r\r\n", "a\n\nb", "\n\n", "a\rb\n", "ä\nö\r",
        "\r\n\r", "x\r\r\ny",
    ] {
        let expected: Vec<String> = text.lines().map(str::to_string).collect();
        assert_eq!(split_lines(text), expected);
    }
    assert_eq!(split_lines("a\r\n\r\nb"), vec!["a", "", "b"]);
}

#[test]
fn bind_messages() {
    let bound = |port: u16| BindReport::Bound(Ok(port));
    let nameless = || BindReport::Bound(Err("e".to_string()));
    let refused = || BindReport::Refused("in use".to_string());
    assert_eq!(bind_message(8080, &bound(8080)), Some("found free preferred port: 8080".to_string()));
    assert_eq!(bind_message(8081, &nameless()), Some("found free preferred port: 8081".to_string()));
    assert_eq!(bind_message(8085, &refused()), Some("preferred port 8085 not available: in use".to_string()));
    assert_eq!(bind_message(0, &bound(50123)), Some("OS assigned random port: 50123".to_string()));
    assert_eq!(bind_message(0, &nameless()), None);
    assert_eq!(bind_message(0, &refused()), None);
}

#[test]
fn skip_messages() {
    let nothing: CopyNote<u8> = CopyNote::Nothing;
    assert_eq!(skip_message(&nothing, "S", "D"), None);
    let file = CopyNote::FileSkipped(1u8, "why".to_string());
    assert_eq!(skip_message(&file, "S", "D"), Some("  skip file S: why".to_string()));
    let dir = CopyNote::DirSkipped(1u8, CopyFault::NotCreated("why".to_string()));
    assert_eq!(
        skip_message(&dir, "S", "D"),
        Some("  skip subdir S: failed to create dst dir D: why".to_string())
    );
    let dir = CopyNote::DirSkipped(1u8, CopyFault::NotReadable("why".to_string()));
    assert_eq!(
        skip_message(&dir, "S", "D"),
        Some("  skip subdir S: failed to read src dir S: why".to_string())
    );
}

#[test]
fn migration_messages() {
    let opening = |legacy: Legacy, vacant: bool| migration_opening(legacy, vacant).unwrap_or_default();
    assert_eq!(opening(Legacy::UserData, true), "checking for old code-server user data to migrate...");
    assert_eq!(opening(Legacy::UserData, false), "new user data dir is not empty, skipping migration");
    assert_eq!(opening(Legacy::Extensions, true), "checking for old code-server extensions to migrate...");
    assert_eq!(opening(Legacy::Extensions, false), "new extensions dir is not empty, skipping migration");
    assert_eq!(opening(Legacy::KiloConfig, false), "kilo config already present in data/home, skipping migration");
    assert_eq!(migration_opening(Legacy::KiloConfig, true), None);

    assert_eq!(migration_found(Legacy::UserData, "S"), "found old user data at S");
    assert_eq!(migration_found(Legacy::Extensions, "S"), "found old extensions at S");
    assert_eq!(
        migration_found(Legacy::KiloConfig, "S"),
        "found kilocode config at S, migrating to data/home"
    );

    assert_eq!(migration_outcome(Legacy::UserData, Ok(12), "S", "D"), "migrated 12 files from S to D");
    assert_eq!(migration_outcome(Legacy::UserData, Err("e"), "S", "D"), "migration of S failed: e");
    assert_eq!(
        migration_outcome(Legacy::Extensions, Ok(0), "S", "D"),
        "migrated 0 extension files from S to D"
    );
    assert_eq!(
        migration_outcome(Legacy::Extensions, Err("e"), "S", "D"),
        "migration of extensions S failed: e"
    );
    assert_eq!(
        migration_outcome(Legacy::KiloConfig, Ok(3), "S", "D"),
        "migrated 3 kilocode config files to D"
    );
    assert_eq!(
        migration_outcome(Legacy::KiloConfig, Err("e"), "S", "D"),
        "kilocode config migration failed: e"
    );

    assert_eq!(
        migration_end(Legacy::KiloConfig, true, false),
        Some("no existing kilocode config found to migrate".to_string())
    );
    assert_eq!(migration_end(Legacy::KiloConfig, true, true), None);
    assert_eq!(migration_end(Legacy::KiloConfig, false, false), None);
    assert_eq!(migration_end(Legacy::UserData, true, false), None);
}
