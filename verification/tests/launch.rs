use jogicode::defaults::{DEFAULT_KEYBINDINGS, DEFAULT_SETTINGS};
use jogicode::layout::{no_system_dir, Base, DataDirChoice, DataPath, INSTALLED_FOLDER};
use jogicode::provision::{Provision, ProvisionAnswer, ProvisionTask};
use jogicode::server::{
    server_args, server_command, server_env, server_folders, EnvValue, ServerArg, WorkDir, REDIRECT_APPDATA,
};
use jogicode::startup::{
    process_to_stop, Startup, StartupAnswer, StartupNotice, StartupStage, WEBVIEW_ARGUMENTS,
};

#[test]
fn data_paths() {
    assert_eq!(DataPath::UserData.parts(), vec!["userdata"]);
    assert_eq!(DataPath::User.parts(), vec!["userdata", "User"]);
    assert_eq!(DataPath::Settings.parts(), vec!["userdata", "User", "settings.json"]);
    assert_eq!(DataPath::Keybindings.parts(), vec!["userdata", "User", "keybindings.json"]);
    assert_eq!(DataPath::Extensions.parts(), vec!["extensions"]);
    assert_eq!(DataPath::Webview.parts(), vec!["webview"]);
    assert_eq!(DataPath::Home.parts(), vec!["home"]);
    assert_eq!(DataPath::KiloConfig.parts(), vec!["home", ".config", "kilo"]);
    assert_eq!(DataPath::AppData.parts(), vec!["appdata"]);
    assert_eq!(DataPath::Tmp.parts(), vec!["tmp"]);
    assert_eq!(DataPath::Log.parts(), vec!["jogicode.log"]);
}

#[test]
fn data_paths_stay_inside() {
    let all = [
        DataPath::UserData,
        DataPath::User,
        DataPath::Settings,
        DataPath::Keybindings,
        DataPath::Extensions,
        DataPath::Webview,
        DataPath::Home,
        DataPath::KiloConfig,
        DataPath::AppData,
        DataPath::Tmp,
        DataPath::Log,
    ];
    for path in all {
        for part in path.parts() {
            assert!(!part.is_empty() && part != "." && part != "..");
            assert!(!part.contains(|c: char| c == '/' || c == '\\' || c == ':'));
        }
    }
}

#[test]
fn portable_data_directory() {
    let c = DataDirChoice::begin(true);
    assert_eq!(c, DataDirChoice::CheckPortable);
    assert_eq!(c.next(true), DataDirChoice::CheckWritable);
    assert_eq!(c.next(true).next(true), DataDirChoice::Portable);
    assert_eq!(c.next(false), DataDirChoice::CreatePortable);
    assert_eq!(c.next(false).next(true), DataDirChoice::CheckWritable);
    assert_eq!(c.next(false).next(true).next(true), DataDirChoice::Portable);
}

#[test]
fn portable_folder_that_cannot_be_written() {
    let c = DataDirChoice::begin(true).next(true).next(false);
    assert_eq!(c, DataDirChoice::AskSystem);
    assert_eq!(c.next(true), DataDirChoice::Installed);
    assert_eq!(DataDirChoice::begin(true).next(false).next(true).next(false), DataDirChoice::AskSystem);
}

#[test]
fn installed_data_directory() {
    let c = DataDirChoice::begin(true).next(false).next(false);
    assert_eq!(c, DataDirChoice::AskSystem);
    assert_eq!(DataDirChoice::begin(false), DataDirChoice::AskSystem);
    assert_eq!(c.next(true), DataDirChoice::Installed);
    assert_eq!(c.next(false), DataDirChoice::Fallback);
    assert_eq!(c.next(false).next(true), DataDirChoice::Fallback);
    assert_eq!(no_system_dir("x"), "failed to resolve app_data_dir: x");
}

#[test]
fn data_directory_places() {
    assert_eq!(DataDirChoice::Portable.place(), Some((Base::Executable, "data")));
    assert_eq!(DataDirChoice::Installed.place(), Some((Base::AppData, "JogiCode")));
    assert_eq!(DataDirChoice::Fallback.place(), Some((Base::Temporary, "jogicode")));
    assert_eq!(INSTALLED_FOLDER, "JogiCode");
    for choice in [
        DataDirChoice::CheckPortable,
        DataDirChoice::CreatePortable,
        DataDirChoice::CheckWritable,
        DataDirChoice::AskSystem,
    ] {
        assert_eq!(choice.place(), None);
    }
}

fn course(settings: bool, keybindings: bool) -> Vec<String> {
    let mut provision = Provision::new();
    let mut done: Vec<String> = Vec::new();
    loop {
        let (word, answer) = match provision.task() {
            ProvisionTask::CreateDir(path) => {
                (format!("dir {}", path.parts().join("/")), ProvisionAnswer::Outcome(Ok(())))
            }
            ProvisionTask::MigrateOldData => ("old data".to_string(), ProvisionAnswer::Migrated),
            ProvisionTask::MigrateKiloConfig => ("kilo".to_string(), ProvisionAnswer::Migrated),
            ProvisionTask::CheckFile(path) => {
                let exists = if path == DataPath::Settings { settings } else { keybindings };
                (format!("check {}", path.parts().join("/")), ProvisionAnswer::Exists(exists))
            }
            ProvisionTask::WriteFile(path, text) => {
                if path == DataPath::Settings {
                    assert_eq!(text, DEFAULT_SETTINGS);
                } else {
                    assert_eq!(text, DEFAULT_KEYBINDINGS);
                }
                (format!("write {}", path.parts().join("/")), ProvisionAnswer::Outcome(Ok(())))
            }
            ProvisionTask::Done(success) => {
                assert!(success);
                return done;
            }
        };
        done.push(word);
        assert_eq!(provision.report(answer), None);
    }
}

#[test]
fn first_run() {
    assert_eq!(
        course(false, false),
        vec![
            "dir userdata",
            "dir extensions",
            "old data",
            "kilo",
            "dir userdata/User",
            "check userdata/User/settings.json",
            "write userdata/User/settings.json",
            "check userdata/User/keybindings.json",
            "write userdata/User/keybindings.json",
        ]
    );
}

#[test]
fn later_runs_write_only_what_is_missing() {
    assert!(!course(true, true).iter().any(|w| w.starts_with("write")));
    assert_eq!(course(true, false).last().unwrap(), "write userdata/User/keybindings.json");
    assert_eq!(course(false, true).iter().filter(|w| w.starts_with("write")).count(), 1);
}

#[test]
fn provision_failures() {
    let failed = || ProvisionAnswer::Outcome(Err("why".to_string()));
    let done = || ProvisionAnswer::Outcome(Ok(()));
    let mut p = Provision::new();
    assert_eq!(p.report(ProvisionAnswer::Migrated), None);
    assert_eq!(p.report(failed()), Some("failed to create userdata dir: why".to_string()));
    assert!(matches!(p.task(), ProvisionTask::Done(false)));
    assert_eq!(p.report(failed()), None);

    let mut p = Provision::new();
    p.report(done());
    assert_eq!(p.report(failed()), Some("failed to create extensions dir: why".to_string()));

    let mut p = Provision::new();
    p.report(done());
    p.report(done());
    assert_eq!(p.report(failed()), None);
    p.report(ProvisionAnswer::Migrated);
    p.report(ProvisionAnswer::Migrated);
    assert_eq!(p.report(failed()), Some("failed to create User dir: why".to_string()));

    let mut p = Provision::new();
    p.report(done());
    p.report(done());
    p.report(ProvisionAnswer::Migrated);
    p.report(ProvisionAnswer::Migrated);
    p.report(done());
    p.report(ProvisionAnswer::Exists(false));
    assert_eq!(p.report(failed()), Some("failed to write settings.json: why".to_string()));

    let mut p = Provision::new();
    p.report(done());
    p.report(done());
    p.report(ProvisionAnswer::Migrated);
    p.report(ProvisionAnswer::Migrated);
    p.report(done());
    p.report(ProvisionAnswer::Exists(true));
    p.report(ProvisionAnswer::Exists(false));
    assert_eq!(p.report(failed()), Some("failed to write keybindings.json: why".to_string()));
}

#[test]
fn default_files() {
    assert!(DEFAULT_SETTINGS.starts_with("{\n    // ═"));
    assert!(DEFAULT_SETTINGS.ends_with("\"window.newWindowDimensions\": \"maximized\"\n}"));
    assert!(DEFAULT_SETTINGS.contains("\"NODE_OPTIONS\": \"--max-old-space-size=384\""));
    assert!(DEFAULT_SETTINGS.contains("\"telemetry.telemetryLevel\": \"off\""));
    assert_eq!(DEFAULT_SETTINGS.lines().count(), 165);
    assert_eq!(
        DEFAULT_KEYBINDINGS,
        "[\n    // Right-click paste: map middle-click to paste for accessibility\n    {\n        \"key\": \"ctrl+shift+v\",\n        \"command\": \"editor.action.clipboardPasteAction\"\n    }\n]"
    );
}

fn words(args: Vec<ServerArg<&'static str>>) -> String {
    let words: Vec<String> = args
        .into_iter()
        .map(|arg| match arg {
            ServerArg::Entry(path) => path.to_string(),
            ServerArg::Text(text) => text,
            ServerArg::Dir(path) => format!("<{}>", path.parts().join("/")),
        })
        .collect();
    words.join(" ")
}

#[test]
fn server_is_run_by_node_in_its_folder() {
    let command = server_command("NODE", "DIR/ENTRY", Some("DIR"), 8081, true);
    assert_eq!(command.program, "NODE");
    assert_eq!(words(command.args), words(server_args("DIR/ENTRY", 8081)));
    assert!(matches!(command.dir, WorkDir::Folder("DIR")));
    assert_eq!(command.folders, server_folders(true));
    assert_eq!(command.env.len(), server_env(true).len());
    let command = server_command("NODE", "ENTRY", None, 8081, false);
    assert!(matches!(command.dir, WorkDir::Text(".")));
    assert_eq!(command.folders, server_folders(false));
}

#[test]
fn server_arguments() {
    assert_eq!(
        words(server_args("ENTRY", 8083)),
        "ENTRY --bind-addr 127.0.0.1:8083 --auth none --disable-telemetry --disable-update-check --user-data-dir <userdata> --extensions-dir <extensions>"
    );
}

fn env_words(redirect: bool) -> Vec<String> {
    server_env(redirect)
        .into_iter()
        .map(|(name, value)| match value {
            EnvValue::Text(text) => format!("{}={}", name, text),
            EnvValue::Dir(path) => format!("{}=<{}>", name, path.parts().join("/")),
        })
        .collect()
}

#[test]
fn server_environment() {
    assert!(REDIRECT_APPDATA);
    assert_eq!(
        env_words(true),
        vec![
            "NODE_OPTIONS=--max-old-space-size=384",
            "UV_THREADPOOL_SIZE=8",
            "ELECTRON_DISABLE_SECURITY_WARNINGS=true",
            "USERPROFILE=<home>",
            "HOME=<home>",
            "APPDATA=<appdata>",
            "TEMP=<tmp>",
            "TMP=<tmp>",
            "TMPDIR=<tmp>",
        ]
    );
    assert_eq!(server_folders(true), vec![DataPath::Home, DataPath::AppData, DataPath::Tmp]);
}

#[test]
fn server_environment_without_appdata() {
    let mut expected = env_words(true);
    expected.remove(5);
    assert_eq!(env_words(false), expected);
    assert_eq!(server_folders(false), vec![DataPath::Home, DataPath::Tmp]);
}

#[test]
fn redirected_folders_are_created() {
    for redirect in [true, false] {
        for (_, value) in server_env(redirect) {
            if let EnvValue::Dir(path) = value {
                assert!(server_folders(redirect).contains(&path));
            }
        }
    }
}

#[test]
fn web_view_heap_is_capped() {
    assert_eq!(
        WEBVIEW_ARGUMENTS,
        "--memory-pressure-off --disable-gpu-shader-disk-cache --disable-features=CalculateNativeWinOcclusion --js-flags=--max-old-space-size=256"
    );
}

fn ok() -> StartupAnswer {
    StartupAnswer::Outcome(Ok(()))
}

fn failed() -> StartupAnswer {
    StartupAnswer::Outcome(Err("why".to_string()))
}

fn at_port() -> Startup {
    let mut s = Startup::new();
    s.report(ok());
    s.report(ok());
    s.report(StartupAnswer::Configured(true));
    s.report(ok());
    s
}

#[test]
fn smooth_start() {
    let mut s = Startup::new();
    assert_eq!(s.stage(), StartupStage::CreateDataDir);
    s.report(failed());
    assert_eq!(s.stage(), StartupStage::OpenLog);
    s.report(failed());
    assert_eq!(s.stage(), StartupStage::FindWindowConfig);
    s.report(StartupAnswer::Configured(true));
    assert_eq!(s.stage(), StartupStage::BuildWindow);
    s.report(ok());
    assert_eq!(s.stage(), StartupStage::FindPort);
    s.report(ok());
    assert_eq!(s.stage(), StartupStage::FindPort);
    s.report(StartupAnswer::Port(Ok(8081)));
    assert_eq!(s.stage(), StartupStage::FindSidecar(8081));
    s.report(ok());
    assert_eq!(s.stage(), StartupStage::Provision(8081));
    s.report(ok());
    assert_eq!(s.stage(), StartupStage::OpenServerLog(8081));
    s.report(ok());
    assert_eq!(s.stage(), StartupStage::SpawnServer(8081));
    assert!(matches!(s.report(ok()), StartupNotice::Nothing));
    assert_eq!(s.stage(), StartupStage::Serving(8081));
    s.report(failed());
    assert_eq!(s.stage(), StartupStage::Serving(8081));
}

#[test]
fn start_without_window() {
    let mut s = Startup::new();
    s.report(ok());
    s.report(ok());
    let notice = s.report(StartupAnswer::Configured(false));
    assert!(matches!(notice, StartupNotice::Refuse(m) if m == "no window config in tauri.conf.json"));
    assert_eq!(s.stage(), StartupStage::Refused);

    let mut s = Startup::new();
    s.report(ok());
    s.report(ok());
    s.report(StartupAnswer::Configured(true));
    assert!(matches!(s.report(failed()), StartupNotice::Refuse(m) if m == "failed to create main window: why"));
    assert_eq!(s.stage(), StartupStage::Refused);
}

#[test]
fn start_without_server() {
    let mut s = at_port();
    let notice = s.report(StartupAnswer::Port(Err("none".to_string())));
    assert!(matches!(notice, StartupNotice::ShowError { message, log }
        if message == "Cannot find a free network port: none" && log == "FATAL: cannot find free port: none"));
    assert_eq!(s.stage(), StartupStage::Halted);

    let expected = [
        "why",
        "why",
        "failed to open log file for code-server stdout: why",
        "failed to spawn code-server: why",
    ];
    for (successes, reason) in expected.iter().enumerate() {
        let mut s = at_port();
        s.report(StartupAnswer::Port(Ok(1)));
        for _ in 0..successes {
            s.report(ok());
        }
        assert!(matches!(s.report(failed()), StartupNotice::ShowError { message, log }
            if message == format!("Startup error: {}", reason) && log == format!("FATAL: {}", reason)));
        assert_eq!(s.stage(), StartupStage::Halted);
    }
}

#[test]
fn server_is_stopped_once() {
    let mut running = Some(7u32);
    assert_eq!(process_to_stop(false, &mut running), None);
    assert_eq!(running, Some(7));
    assert_eq!(process_to_stop(true, &mut running), Some(7));
    assert_eq!(process_to_stop(true, &mut running), None);
}
