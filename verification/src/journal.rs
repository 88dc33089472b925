//! What is written to the log.

use vstd::prelude::*;

use crate::copy::{CopyFault, CopyNote};
use crate::migrate::Legacy;
use crate::ports::{BindReport, Binding};
use crate::text;
use crate::watch::Probe;

verus! {

/// How long code-server may run before it is looked at, in seconds.
pub const EXIT_CHECK_DELAY_SECS: u64 = 3;

/// A message, marked as one of the shell.
pub open spec fn marked(message: Seq<char>) -> Seq<char> {
    "[jogicode] "@ + message
}

/// A line of the log.
pub open spec fn stamped(unix_secs: nat, message: Seq<char>) -> Seq<char> {
    text::decimal(unix_secs) + " [jogicode] "@ + message
}

/// Every line of the log ends with its message, whole, whatever that is; the mark of the
/// shell stands before it, and before that a space and the time, which reads as the number
/// of seconds.
pub proof fn law_log_lines_hold_their_message(unix_secs: u64, message: Seq<char>)
    ensures
        marked(message).take(11) == "[jogicode] "@,
        marked(message).skip(11) == message,
        ({
            let line = stamped(unix_secs as nat, message);
            let time = line.len() - 12 - message.len();
            &&& line.skip(time + 1) == marked(message)
            &&& line[time] == ' '
            &&& text::decimal_value(line.take(time)) == unix_secs
            &&& time > 0
        }),
{
    reveal_strlit("[jogicode] ");
    reveal_strlit(" [jogicode] ");
    let time = text::decimal(unix_secs as nat);
    let line = stamped(unix_secs as nat, message);
    text::law_decimal_reads_back(unix_secs as nat);
    text::law_decimal_is_plain(unix_secs as nat);
    assert(marked(message).take(11) =~= "[jogicode] "@);
    assert(marked(message).skip(11) =~= message);
    assert(line.take(time.len() as int) =~= time);
    assert(line.skip(time.len() as int + 1) =~= marked(message));
}

/// Marks a message as one of the shell.
pub fn log_text(message: &str) -> (line: String)
    ensures
        line@ == marked(message@),
        line@ == "[jogicode] "@ + message@,
{
    text::joined("[jogicode] ", message)
}

/// A line of the log: the time in seconds since 1970, then the marked message.
pub fn stamped_line(unix_secs: u64, message: &str) -> (line: String)
    ensures
        line@ == stamped(unix_secs as nat, message@),
        line@ == text::decimal(unix_secs as nat) + " [jogicode] "@ + message@,
{
    let mut line = text::joined(text::to_decimal(unix_secs).as_str(), " ");
    line.append(log_text(message).as_str());
    proof {
        reveal_strlit(" ");
        reveal_strlit("[jogicode] ");
        reveal_strlit(" [jogicode] ");
        assert(" "@ + "[jogicode] "@ =~= " [jogicode] "@);
        assert(line@ =~= text::decimal(unix_secs as nat) + " [jogicode] "@ + message@);
    }
    line
}

/// What was seen of code-server a moment after it was started.
#[derive(Debug)]
pub enum ExitCheck {
    /// It ended, with a status and with some error output.
    Exited(String, String),
    Running,
    /// It could not be looked at, and this is why.
    Unknown(String),
}

/// The messages that tell what was seen.
pub open spec fn exit_messages(check: ExitCheck) -> Seq<Seq<char>> {
    match check {
        ExitCheck::Exited(status, output) => seq![
            "code-server exited prematurely with status: "@ + status@,
        ] + text::lines_of(output@).map_values(|line: Seq<char>| "code-server stderr: "@ + line),
        ExitCheck::Running => seq!["code-server process is still running after 3s"@],
        ExitCheck::Unknown(reason) => seq!["failed to check code-server status: "@ + reason@],
    }
}

/// An exit is told with its status, whatever that is, and then with one message for each
/// line of the error output, in order and whole. A server that runs, or that could not be
/// looked at, is told with one message.
pub proof fn law_exits_are_told_line_by_line(status: String, output: String, reason: String, i: int)
    ensures
        exit_messages(ExitCheck::Exited(status, output)).len() == 1 + text::lines_of(output@).len(),
        exit_messages(ExitCheck::Exited(status, output))[0] == "code-server exited prematurely with status: "@
            + status@,
        0 <= i < text::lines_of(output@).len() ==> exit_messages(ExitCheck::Exited(status, output))[i + 1]
            == "code-server stderr: "@ + text::lines_of(output@)[i],
        exit_messages(ExitCheck::Running) == seq!["code-server process is still running after 3s"@],
        exit_messages(ExitCheck::Unknown(reason)) == seq!["failed to check code-server status: "@ + reason@],
{
}

/// A server that still runs when it is looked at is told to have run for as long as was
/// waited.
pub proof fn law_exit_check_tells_its_delay()
    ensures
        EXIT_CHECK_DELAY_SECS == 3,
        exit_messages(ExitCheck::Running)[0] == "code-server process is still running after "@ + text::decimal(
            EXIT_CHECK_DELAY_SECS as nat,
        ) + "s"@,
{
    text::law_decimal_grows_by_digits(0, 3);
    reveal_strlit("code-server process is still running after ");
    reveal_strlit("s");
    reveal_strlit("code-server process is still running after 3s");
    assert(exit_messages(ExitCheck::Running)[0] =~= "code-server process is still running after "@ + text::decimal(
        EXIT_CHECK_DELAY_SECS as nat,
    ) + "s"@);
}

/// Tells what was seen, one message for each line of error output.
pub fn exit_report(check: &ExitCheck) -> (messages: Vec<String>)
    ensures
        text::texts(messages@) == exit_messages(*check),
{
    let mut messages: Vec<String> = Vec::new();
    match check {
        ExitCheck::Exited(status, output) => {
            messages.push(text::joined("code-server exited prematurely with status: ", status.as_str()));
            let lines = text::split_lines(output.as_str());
            let mut i: usize = 0;
            while i < lines.len()
                invariant
                    *check == ExitCheck::Exited(*status, *output),
                    text::texts(lines@) == text::lines_of(output@),
                    i <= lines.len(),
                    text::texts(messages@) == exit_messages(*check).take(i + 1),
                decreases lines.len() - i,
            {
                let ghost before = messages@;
                messages.push(text::joined("code-server stderr: ", lines[i].as_str()));
                i += 1;
                proof {
                    assert(text::texts(lines@)[i - 1] == lines@[i - 1]@);
                    assert(text::texts(messages@) =~= text::texts(before).push("code-server stderr: "@ + lines@[i - 1]@));
                    assert(exit_messages(*check).take(i + 1) =~= exit_messages(*check).take(i as int).push(
                        exit_messages(*check)[i as int],
                    ));
                }
            }
        },
        ExitCheck::Running => {
            messages.push("code-server process is still running after 3s".to_owned());
        },
        ExitCheck::Unknown(reason) => {
            messages.push(text::joined("failed to check code-server status: ", reason.as_str()));
        },
    }
    proof {
        assert(text::texts(messages@) =~= exit_messages(*check));
    }
    messages
}

/// Whether a message says a text, or neither is there.
pub open spec fn says(message: Option<String>, text: Option<Seq<char>>) -> bool {
    match (message, text) {
        (Some(message), Some(text)) => message@ == text,
        (None, None) => true,
        _ => false,
    }
}

/// The message that tells how a watch over a port ended, where there is one to be told.
pub open spec fn watch_message_text(probe: Probe, port: u16, success: bool) -> Option<Seq<char>> {
    match (probe, success) {
        (Probe::Tcp, true) => Some("TCP port "@ + text::decimal(port as nat) + " is open"@),
        (Probe::Tcp, false) => None,
        (Probe::Http, true) => Some("HTTP health check passed — code-server is responding"@),
        (Probe::Http, false) => Some("HTTP health check timed out"@),
    }
}

/// Tells how a watch over a port ended: that the port is open, only if it is; and whether
/// the health check passed or timed out.
pub fn watch_message(probe: Probe, port: u16, success: bool) -> (message: Option<String>)
    ensures
        says(message, watch_message_text(probe, port, success)),
{
    match probe {
        Probe::Tcp => if success {
            let mut message = text::joined("TCP port ", text::to_decimal(port as u64).as_str());
            message.append(" is open");
            Some(message)
        } else {
            None
        },
        Probe::Http => if success {
            Some("HTTP health check passed — code-server is responding".to_owned())
        } else {
            Some("HTTP health check timed out".to_owned())
        },
    }
}

/// Whether a message says a text is a matter of all its characters.
pub proof fn law_messages_say_their_text(message: String, text: Seq<char>)
    ensures
        says(Some(message), Some(text)) <==> message@ == text,
        !says(None, Some(text)),
        !says(Some(message), None),
        says(None, None),
{
}

/// An open port is told with its number, whatever that is, and a port that did not open is
/// not told of; the health check is told either way, and alike for every port.
pub proof fn law_watches_are_told(port: u16)
    ensures
        watch_message_text(Probe::Tcp, port, true) == Some(
            "TCP port "@ + text::decimal(port as nat) + " is open"@,
        ),
        watch_message_text(Probe::Tcp, port, false) is None,
        watch_message_text(Probe::Http, port, true) == Some(
            "HTTP health check passed — code-server is responding"@,
        ),
        watch_message_text(Probe::Http, port, false) == Some("HTTP health check timed out"@),
{
}

/// The message that tells what came of binding a port, where there is one to be told.
/// Port 0 stands for any free port.
pub open spec fn bind_message_text(candidate: u16, report: Binding) -> Option<Seq<char>> {
    match report {
        Binding::Bound(local) => if candidate != 0 {
            Some("found free preferred port: "@ + text::decimal(candidate as nat))
        } else {
            match local {
                Ok(port) => Some("OS assigned random port: "@ + text::decimal(port as nat)),
                Err(_) => None,
            }
        },
        Binding::Refused(reason) => if candidate != 0 {
            Some("preferred port "@ + text::decimal(candidate as nat) + " not available: "@ + reason)
        } else {
            None
        },
    }
}

/// Tells what came of binding the candidate of a scan. Why a scan failed is told
/// elsewhere.
pub fn bind_message(candidate: u16, report: &BindReport) -> (message: Option<String>)
    ensures
        says(message, bind_message_text(candidate, report@)),
{
    match report {
        BindReport::Bound(local) => if candidate != 0 {
            Some(text::joined("found free preferred port: ", text::to_decimal(candidate as u64).as_str()))
        } else {
            match local {
                Ok(port) => Some(
                    text::joined("OS assigned random port: ", text::to_decimal(*port as u64).as_str()),
                ),
                Err(_) => None,
            }
        },
        BindReport::Refused(reason) => if candidate != 0 {
            let mut message = text::joined("preferred port ", text::to_decimal(candidate as u64).as_str());
            message.append(" not available: ");
            message.append(reason.as_str());
            Some(message)
        } else {
            None
        },
    }
}

/// The message that tells what a copy passed over, for a source and a destination as they
/// are to be shown.
pub open spec fn skip_message_text<P>(
    note: CopyNote<P>,
    source: Seq<char>,
    destination: Seq<char>,
) -> Option<Seq<char>> {
    match note {
        CopyNote::Nothing => None,
        CopyNote::FileSkipped(_, reason) => Some("  skip file "@ + source + ": "@ + reason@),
        CopyNote::DirSkipped(_, fault) => {
            Some("  skip subdir "@ + source + ": "@ + fault.text(source, destination))
        },
    }
}

/// Tells what a copy passed over, if it did, for a source and a destination as they are to
/// be shown.
pub fn skip_message<P>(note: &CopyNote<P>, source: &str, destination: &str) -> (message: Option<String>)
    ensures
        says(message, skip_message_text(*note, source@, destination@)),
{
    match note {
        CopyNote::Nothing => None,
        CopyNote::FileSkipped(_, reason) => {
            let mut message = text::joined("  skip file ", source);
            message.append(": ");
            message.append(reason.as_str());
            Some(message)
        },
        CopyNote::DirSkipped(_, fault) => {
            let mut message = text::joined("  skip subdir ", source);
            message.append(": ");
            message.append(fault.message(source, destination).as_str());
            Some(message)
        },
    }
}

/// The message with which a migration begins, where there is one to be told.
pub open spec fn migration_opening_text(legacy: Legacy, vacant: bool) -> Option<Seq<char>> {
    match (legacy, vacant) {
        (Legacy::UserData, true) => Some("checking for old code-server user data to migrate..."@),
        (Legacy::UserData, false) => Some("new user data dir is not empty, skipping migration"@),
        (Legacy::Extensions, true) => Some("checking for old code-server extensions to migrate..."@),
        (Legacy::Extensions, false) => Some("new extensions dir is not empty, skipping migration"@),
        (Legacy::KiloConfig, true) => None,
        (Legacy::KiloConfig, false) => {
            Some("kilo config already present in data/home, skipping migration"@)
        },
    }
}

/// Tells that a migration begins, or that it does not take place.
pub fn migration_opening(legacy: Legacy, vacant: bool) -> (message: Option<String>)
    ensures
        says(message, migration_opening_text(legacy, vacant)),
{
    match (legacy, vacant) {
        (Legacy::UserData, true) => {
            Some("checking for old code-server user data to migrate...".to_owned())
        },
        (Legacy::UserData, false) => {
            Some("new user data dir is not empty, skipping migration".to_owned())
        },
        (Legacy::Extensions, true) => {
            Some("checking for old code-server extensions to migrate...".to_owned())
        },
        (Legacy::Extensions, false) => {
            Some("new extensions dir is not empty, skipping migration".to_owned())
        },
        (Legacy::KiloConfig, true) => None,
        (Legacy::KiloConfig, false) => {
            Some("kilo config already present in data/home, skipping migration".to_owned())
        },
    }
}

/// The message that tells of a source that is to be copied, as it is to be shown.
pub open spec fn migration_found_text(legacy: Legacy, source: Seq<char>) -> Seq<char> {
    match legacy {
        Legacy::UserData => "found old user data at "@ + source,
        Legacy::Extensions => "found old extensions at "@ + source,
        Legacy::KiloConfig => "found kilocode config at "@ + source + ", migrating to data/home"@,
    }
}

/// Tells of a source that is to be copied, as it is to be shown.
pub fn migration_found(legacy: Legacy, source: &str) -> (message: String)
    ensures
        message@ == migration_found_text(legacy, source@),
{
    match legacy {
        Legacy::UserData => text::joined("found old user data at ", source),
        Legacy::Extensions => text::joined("found old extensions at ", source),
        Legacy::KiloConfig => {
            let mut message = text::joined("found kilocode config at ", source);
            message.append(", migrating to data/home");
            message
        },
    }
}

/// The message that tells what came of copying a source: the number of files, or why it
/// could not be copied.
pub open spec fn migration_outcome_text(
    legacy: Legacy,
    outcome: Result<nat, Seq<char>>,
    source: Seq<char>,
    destination: Seq<char>,
) -> Seq<char> {
    match (legacy, outcome) {
        (Legacy::UserData, Ok(files)) => {
            "migrated "@ + text::decimal(files) + " files from "@ + source + " to "@ + destination
        },
        (Legacy::UserData, Err(reason)) => "migration of "@ + source + " failed: "@ + reason,
        (Legacy::Extensions, Ok(files)) => {
            "migrated "@ + text::decimal(files) + " extension files from "@ + source + " to "@ + destination
        },
        (Legacy::Extensions, Err(reason)) => "migration of extensions "@ + source + " failed: "@ + reason,
        (Legacy::KiloConfig, Ok(files)) => {
            "migrated "@ + text::decimal(files) + " kilocode config files to "@ + destination
        },
        (Legacy::KiloConfig, Err(reason)) => "kilocode config migration failed: "@ + reason,
    }
}

/// Tells what came of copying a source: the number of files, or why it could not be
/// copied. Source and destination are given as they are to be shown.
pub fn migration_outcome(
    legacy: Legacy,
    outcome: Result<u64, &str>,
    source: &str,
    destination: &str,
) -> (message: String)
    ensures
        message@ == migration_outcome_text(
            legacy,
            match outcome {
                Ok(files) => Ok(files as nat),
                Err(reason) => Err(reason@),
            },
            source@,
            destination@,
        ),
{
    match outcome {
        Ok(files) => {
            let mut message = text::joined("migrated ", text::to_decimal(files).as_str());
            match legacy {
                Legacy::UserData => {
                    message.append(" files from ");
                    message.append(source);
                    message.append(" to ");
                },
                Legacy::Extensions => {
                    message.append(" extension files from ");
                    message.append(source);
                    message.append(" to ");
                },
                Legacy::KiloConfig => {
                    message.append(" kilocode config files to ");
                },
            }
            message.append(destination);
            message
        },
        Err(reason) => {
            match legacy {
                Legacy::UserData => {
                    let mut message = text::joined("migration of ", source);
                    message.append(" failed: ");
                    message.append(reason);
                    message
                },
                Legacy::Extensions => {
                    let mut message = text::joined("migration of extensions ", source);
                    message.append(" failed: ");
                    message.append(reason);
                    message
                },
                Legacy::KiloConfig => text::joined("kilocode config migration failed: ", reason),
            }
        },
    }
}

/// The message with which a migration ends, where there is one to be told. `found` tells
/// whether a source was to be copied.
pub open spec fn migration_end_text(legacy: Legacy, vacant: bool, found: bool) -> Option<Seq<char>> {
    if legacy == Legacy::KiloConfig && vacant && !found {
        Some("no existing kilocode config found to migrate"@)
    } else {
        None
    }
}

/// Tells that there was no Kilo Code configuration to take over. `found` tells whether a
/// source was to be copied.
pub fn migration_end(legacy: Legacy, vacant: bool, found: bool) -> (message: Option<String>)
    ensures
        says(message, migration_end_text(legacy, vacant, found)),
{
    match legacy {
        Legacy::KiloConfig => if vacant && !found {
            Some("no existing kilocode config found to migrate".to_owned())
        } else {
            None
        },
        _ => None,
    }
}

/// What came of binding a port is told with the number of the port and, where a preferred
/// port was refused, with the reason, whatever these are.
pub proof fn law_bindings_are_told(candidate: u16, local: Result<u16, String>, port: u16, reason: String)
    ensures
        candidate != 0 ==> bind_message_text(candidate, BindReport::Bound(local)@) == Some(
            "found free preferred port: "@ + text::decimal(candidate as nat),
        ),
        candidate != 0 ==> bind_message_text(candidate, BindReport::Refused(reason)@) == Some(
            "preferred port "@ + text::decimal(candidate as nat) + " not available: "@ + reason@,
        ),
        bind_message_text(0, BindReport::Bound(Ok(port))@) == Some(
            "OS assigned random port: "@ + text::decimal(port as nat),
        ),
        bind_message_text(0, BindReport::Bound(Err(reason))@) is None,
        bind_message_text(0, BindReport::Refused(reason)@) is None,
{
}

/// What a copy passed over is told with its source and with the reason, whatever these are;
/// the reason for a directory names what could not be opened or created.
pub proof fn law_skips_are_told<P>(item: P, reason: String, source: Seq<char>, destination: Seq<char>)
    ensures
        skip_message_text(CopyNote::<P>::Nothing, source, destination) is None,
        skip_message_text(CopyNote::FileSkipped(item, reason), source, destination) == Some(
            "  skip file "@ + source + ": "@ + reason@,
        ),
        skip_message_text(
            CopyNote::DirSkipped(item, CopyFault::NotADirectory),
            source,
            destination,
        ) == Some("  skip subdir "@ + source + ": "@ + ("source is not a directory: "@ + source)),
        skip_message_text(
            CopyNote::DirSkipped(item, CopyFault::NotCreated(reason)),
            source,
            destination,
        ) == Some(
            "  skip subdir "@ + source + ": "@ + ("failed to create dst dir "@ + destination + ": "@ + reason@),
        ),
        skip_message_text(
            CopyNote::DirSkipped(item, CopyFault::NotReadable(reason)),
            source,
            destination,
        ) == Some("  skip subdir "@ + source + ": "@ + ("failed to read src dir "@ + source + ": "@ + reason@)),
{
}

/// A migration is told with its source, its destination, the number of files and the
/// reason of a failure, whatever these are, and in words of its own for each kind of data.
pub proof fn law_migrations_are_told(files: nat, reason: Seq<char>, source: Seq<char>, destination: Seq<char>)
    ensures
        migration_found_text(Legacy::UserData, source) == "found old user data at "@ + source,
        migration_found_text(Legacy::Extensions, source) == "found old extensions at "@ + source,
        migration_found_text(Legacy::KiloConfig, source) == "found kilocode config at "@ + source
            + ", migrating to data/home"@,
        migration_outcome_text(Legacy::UserData, Ok(files), source, destination) == "migrated "@ + text::decimal(
            files,
        ) + " files from "@ + source + " to "@ + destination,
        migration_outcome_text(Legacy::Extensions, Ok(files), source, destination) == "migrated "@
            + text::decimal(files) + " extension files from "@ + source + " to "@ + destination,
        migration_outcome_text(Legacy::KiloConfig, Ok(files), source, destination) == "migrated "@
            + text::decimal(files) + " kilocode config files to "@ + destination,
        migration_outcome_text(Legacy::UserData, Err(reason), source, destination) == "migration of "@ + source
            + " failed: "@ + reason,
        migration_outcome_text(Legacy::Extensions, Err(reason), source, destination)
            == "migration of extensions "@ + source + " failed: "@ + reason,
        migration_outcome_text(Legacy::KiloConfig, Err(reason), source, destination)
            == "kilocode config migration failed: "@ + reason,
{
}

/// A migration begins with a message exactly if it is one of old data or does not take
/// place, and ends with one exactly if no Kilo Code configuration was found.
pub proof fn law_migrations_begin_and_end(legacy: Legacy, vacant: bool, found: bool)
    ensures
        migration_opening_text(legacy, vacant) is Some <==> legacy != Legacy::KiloConfig || !vacant,
        migration_end_text(legacy, vacant, found) == if legacy == Legacy::KiloConfig && vacant && !found {
            Some("no existing kilocode config found to migrate"@)
        } else {
            None
        },
        migration_opening_text(Legacy::UserData, true) == Some(
            "checking for old code-server user data to migrate..."@,
        ),
        migration_opening_text(Legacy::UserData, false) == Some(
            "new user data dir is not empty, skipping migration"@,
        ),
        migration_opening_text(Legacy::Extensions, true) == Some(
            "checking for old code-server extensions to migrate..."@,
        ),
        migration_opening_text(Legacy::Extensions, false) == Some(
            "new extensions dir is not empty, skipping migration"@,
        ),
        migration_opening_text(Legacy::KiloConfig, false) == Some(
            "kilo config already present in data/home, skipping migration"@,
        ),
{
}

} // verus!
