use jogicode::copy::{CopyAnswer, CopyFault, CopyNote, CopyRun, CopyStage};
use jogicode::layout::DataPath;
use jogicode::migrate::{
    counts_as_empty, extension_sources, kilo_plan, kilo_sources, old_data_plan, userdata_sources, Legacy, Migration, MigrationAnswer,
    MigrationNeed, Source,
};
use jogicode::search::{Search, Sight, Spot};
use jogicode::sidecar::{
    entry_parts, no_resource_dir, node_parts, server_parts, Entry, Sidecar, SidecarAnswer, SidecarNeed,
    ENTRY_PLACES, ENTRY_SCRIPT,
};
use jogicode::paths::PlainPath;

// A listing of directories: each path with the names in it.
fn children<'a>(dirs: &[(&'a str, &'a [&'a str])], path: &str) -> Option<Vec<String>> {
    for (dir, names) in dirs {
        if *dir == path {
            return Some(names.iter().map(|n| n.to_string()).collect());
        }
    }
    None
}

fn find(dirs: &[(&str, &[&str])], root: &str, name: &str) -> Option<String> {
    let mut search = Search::new(root.to_string(), name.to_string());
    while let Some(path) = search.next() {
        let sight = match children(dirs, path) {
            Some(names) => Sight::Directory(
                names
                    .iter()
                    .map(|n| Spot { path: format!("{}/{}", path, n), name: Some(n.clone()) })
                    .collect(),
            ),
            None => Sight::Other,
        };
        if let Some(found) = search.report(sight) {
            assert!(search.next().is_none());
            return Some(found);
        }
    }
    None
}

#[test]
fn search_goes_depth_first() {
    let dirs: [(&str, &[&str]); 4] = [
        ("r", &["a", "b", "entry.js"]),
        ("r/a", &["x.js"]),
        ("r/b", &["c", "entry.js"]),
        ("r/b/c", &["entry.js"]),
    ];
    assert_eq!(find(&dirs, "r", "entry.js"), Some("r/b/c/entry.js".to_string()));
    assert_eq!(find(&dirs, "r", "x.js"), Some("r/a/x.js".to_string()));
    assert_eq!(find(&dirs, "r", "y.js"), None);
}

#[test]
fn search_skips_directories_of_that_name() {
    let dirs: [(&str, &[&str]); 3] = [
        ("r", &["entry.js", "b"]),
        ("r/entry.js", &[]),
        ("r/b", &["entry.js"]),
    ];
    assert_eq!(find(&dirs, "r", "entry.js"), Some("r/b/entry.js".to_string()));
}

#[test]
fn search_in_what_is_no_directory() {
    assert_eq!(find(&[], "entry.js", "entry.js"), None);
}

#[test]
fn search_passes_over_unreadable_names() {
    let mut search = Search::new(0u8, "n".to_string());
    assert_eq!(search.next(), Some(&0));
    let spots = vec![Spot { path: 1u8, name: None }, Spot { path: 2u8, name: Some("n".to_string()) }];
    assert_eq!(search.report(Sight::Directory(spots)), None);
    assert_eq!(search.next(), Some(&1));
    assert_eq!(search.report(Sight::Other), None);
    assert_eq!(search.report(Sight::Other), Some(2));
    assert_eq!(search.next(), None);
    assert_eq!(search.report(Sight::Other), None);
}

// Copies an imagined tree. A file whose name begins with `old` exists already, one that
// begins with `bad` cannot be copied, a directory that begins with `ro` cannot be
// created and one that begins with `un` cannot be read.
fn copy(dirs: &[(&str, &[&str])], root: &str) -> (Result<u64, String>, Vec<String>, Vec<String>) {
    let (result, asked, skipped, _) = copy_all(dirs, root);
    (result, asked, skipped)
}

fn copy_all(
    dirs: &[(&str, &[&str])],
    root: &str,
) -> (Result<u64, String>, Vec<String>, Vec<String>, Vec<String>) {
    let mut created: Vec<String> = Vec::new();
    let mut run = CopyRun::new(root.to_string());
    let mut asked: Vec<String> = Vec::new();
    let mut skipped: Vec<String> = Vec::new();
    loop {
        let (stage, path) = match run.next() {
            Some((stage, path)) => (stage, path.clone()),
            None => break,
        };
        let name = path.rsplit('/').next().unwrap().to_string();
        let answer = match stage {
            CopyStage::Kind => CopyAnswer::IsDir(children(dirs, &path).is_some()),
            CopyStage::CreateDir => {
                created.push(path.clone());
                CopyAnswer::DirCreated(if name.starts_with("ro") {
                    Err("denied".to_string())
                } else {
                    Ok(())
                })
            }
            CopyStage::ReadDir => CopyAnswer::Entries(if name.starts_with("un") {
                Err("hidden".to_string())
            } else {
                Ok(children(dirs, &path).unwrap().iter().map(|n| format!("{}/{}", path, n)).collect())
            }),
            CopyStage::Existence => CopyAnswer::Exists(name.starts_with("old")),
            CopyStage::CopyFile => {
                asked.push(path.clone());
                CopyAnswer::FileCopied(if name.starts_with("bad") {
                    Err("locked".to_string())
                } else {
                    Ok(())
                })
            }
        };
        match run.report(answer) {
            CopyNote::Nothing => {}
            CopyNote::FileSkipped(path, reason) => skipped.push(format!("{}: {}", path, reason)),
            CopyNote::DirSkipped(path, fault) => {
                skipped.push(fault.message(&path, &format!("to {}", path)))
            }
        }
    }
    let result = match run.result() {
        Ok(count) => Ok(count),
        Err(fault) => Err(fault.message("src", "dst")),
    };
    (result, asked, skipped, created)
}

#[test]
fn copy_creates_empty_directories() {
    let dirs: [(&str, &[&str]); 4] = [("r", &["a", "b", "rodir"]), ("r/a", &[]), ("r/b", &["old"]), ("r/rodir", &[])];
    let (result, asked, _, created) = copy_all(&dirs, "r");
    assert_eq!(result, Ok(0));
    assert!(asked.is_empty());
    assert_eq!(created, vec!["r", "r/a", "r/b", "r/rodir"]);
}

#[test]
fn copy_of_a_tree() {
    let dirs: [(&str, &[&str]); 5] = [
        ("r", &["a.txt", "old.txt", "sub", "bad.txt", "rodir", "undir", "z.txt"]),
        ("r/sub", &["b.txt", "deep"]),
        ("r/sub/deep", &["c.txt", "old2"]),
        ("r/rodir", &["never.txt"]),
        ("r/undir", &["never.txt"]),
    ];
    let (result, asked, skipped) = copy(&dirs, "r");
    assert_eq!(result, Ok(4));
    assert_eq!(asked, vec!["r/a.txt", "r/sub/b.txt", "r/sub/deep/c.txt", "r/bad.txt", "r/z.txt"]);
    assert_eq!(
        skipped,
        vec![
            "r/bad.txt: locked",
            "failed to create dst dir to r/rodir: denied",
            "failed to read src dir r/undir: hidden",
        ]
    );
}

#[test]
fn copy_of_nothing() {
    assert_eq!(copy(&[("r", &[])], "r").0, Ok(0));
    assert_eq!(copy(&[("r", &["old"])], "r"), (Ok(0), Vec::new(), Vec::new()));
}

#[test]
fn copy_that_cannot_begin() {
    assert_eq!(copy(&[], "r"), (Err("source is not a directory: src".to_string()), Vec::new(), Vec::new()));
    assert_eq!(copy(&[("ro", &["a"])], "ro").0, Err("failed to create dst dir dst: denied".to_string()));
    assert_eq!(copy(&[("un", &["a"])], "un").0, Err("failed to read src dir src: hidden".to_string()));
}

#[test]
fn copy_ignores_answers_to_other_questions() {
    let mut run = CopyRun::new(1u8);
    assert!(matches!(run.report(CopyAnswer::FileCopied(Ok(()))), CopyNote::Nothing));
    assert!(matches!(run.report(CopyAnswer::Entries(Ok(vec![2u8]))), CopyNote::Nothing));
    assert!(matches!(run.next(), Some((CopyStage::Kind, &1))));
    assert!(matches!(run.result(), Ok(0)));
}

#[test]
fn copy_faults_are_told_apart() {
    let mut run = CopyRun::new(1u8);
    run.report(CopyAnswer::IsDir(false));
    assert!(matches!(run.result(), Err(CopyFault::NotADirectory)));
    assert!(run.next().is_none());
}

fn shown(sources: Vec<Source>) -> Vec<String> {
    sources.iter().map(|s| format!("{}|{}", s.root, s.parts.join("/"))).collect()
}

#[test]
fn sources_of_user_data() {
    assert_eq!(shown(userdata_sources(Some("L"))), vec!["L|code-server/Data", "L|code-server"]);
    assert!(userdata_sources(None).is_empty());
}

#[test]
fn sources_of_extensions() {
    assert_eq!(
        shown(extension_sources(Some("L"), Some("U"))),
        vec!["L|code-server/Data/extensions", "L|code-server/extensions", "U|.vscode/extensions"]
    );
    assert_eq!(shown(extension_sources(None, Some("U"))), vec!["U|.vscode/extensions"]);
    assert!(extension_sources(None, None).is_empty());
}

#[test]
fn sources_of_kilo_config() {
    assert_eq!(shown(kilo_sources(Some("U"), Some("H"))), vec!["U|.config/kilo", "H|.config/kilo"]);
    assert_eq!(shown(kilo_sources(None, Some("H"))), vec!["H|.config/kilo"]);
    assert!(kilo_sources(None, None).is_empty());
}

#[test]
fn no_source_leads_to_ssh_keys() {
    let mut all = userdata_sources(Some("L"));
    all.extend(extension_sources(Some("L"), Some("U")));
    all.extend(kilo_sources(Some("U"), Some("H")));
    for source in all {
        assert!(!source.parts.contains(&".ssh"));
        assert!(!source.parts.is_empty());
    }
}

#[test]
fn emptiness() {
    assert!(counts_as_empty(None));
    assert!(counts_as_empty(Some(false)));
    assert!(!counts_as_empty(Some(true)));
}

// What a source is, and whether it can be copied.
#[derive(Clone, Copy)]
enum Found {
    Missing,
    Empty,
    Unreadable,
    Filled(bool),
}

fn migrate(mut migration: Migration, sources: &[Found]) -> (Option<usize>, Vec<usize>) {
    let mut tried: Vec<usize> = Vec::new();
    loop {
        match migration.need() {
            MigrationNeed::IsDir(i) => {
                migration.report(MigrationAnswer::IsDir(!matches!(sources[i], Found::Missing)))
            }
            MigrationNeed::HasEntry(i) => migration.report(MigrationAnswer::HasEntry(match sources[i] {
                Found::Unreadable => None,
                found => Some(matches!(found, Found::Filled(_))),
            })),
            MigrationNeed::Copy(i) => {
                tried.push(i);
                migration.report(MigrationAnswer::Copied(matches!(
                    sources[i],
                    Found::Empty | Found::Filled(true)
                )))
            }
            MigrationNeed::Done(end) => return (end, tried),
        }
    }
}

#[test]
fn migration_takes_the_first_that_copies() {
    let (full, broken, missing) = (Found::Filled(true), Found::Filled(false), Found::Missing);
    let m = Migration::of_old_data(true, 3);
    assert_eq!(migrate(m, &[missing, full, full]), (Some(1), vec![1]));
    let m = Migration::of_old_data(true, 3);
    assert_eq!(migrate(m, &[broken, broken, full]), (Some(2), vec![0, 1, 2]));
    let m = Migration::of_old_data(true, 2);
    assert_eq!(migrate(m, &[broken, missing]), (None, vec![0]));
}

#[test]
fn migration_passes_over_empty_directories() {
    let (full, empty, missing) = (Found::Filled(true), Found::Empty, Found::Missing);
    let m = Migration::of_old_data(true, 3);
    assert_eq!(migrate(m, &[empty, missing, full]), (Some(2), vec![2]));
    let m = Migration::of_old_data(true, 2);
    assert_eq!(migrate(m, &[empty, empty]), (None, Vec::new()));
}

#[test]
fn migration_tries_unreadable_directories() {
    let m = Migration::of_old_data(true, 2);
    assert_eq!(migrate(m, &[Found::Unreadable, Found::Filled(true)]), (Some(1), vec![0, 1]));
}

#[test]
fn migration_leaves_a_taken_destination() {
    let all = [Found::Filled(true), Found::Filled(true)];
    assert_eq!(migrate(Migration::of_old_data(false, 2), &all), (None, Vec::new()));
    assert_eq!(migrate(Migration::of_kilo_config(false, 2), &all), (None, Vec::new()));
    assert_eq!(migrate(Migration::of_old_data(true, 0), &[]), (None, Vec::new()));
}

#[test]
fn kilo_migration_tries_once() {
    let (full, broken) = (Found::Filled(true), Found::Filled(false));
    let m = Migration::of_kilo_config(true, 2);
    assert_eq!(migrate(m, &[broken, full]), (None, vec![0]));
    let m = Migration::of_kilo_config(true, 2);
    assert_eq!(migrate(m, &[Found::Missing, full]), (Some(1), vec![1]));
    let m = Migration::of_kilo_config(true, 2);
    assert_eq!(migrate(m, &[Found::Empty, full]), (Some(0), vec![0]));
}

#[test]
fn migration_ignores_answers_to_other_questions() {
    let mut m = Migration::of_old_data(true, 2);
    m.report(MigrationAnswer::HasEntry(Some(true)));
    m.report(MigrationAnswer::Copied(true));
    assert_eq!(m.need(), MigrationNeed::IsDir(0));
    m.report(MigrationAnswer::IsDir(true));
    m.report(MigrationAnswer::Copied(true));
    assert_eq!(m.need(), MigrationNeed::HasEntry(0));
    m.report(MigrationAnswer::HasEntry(Some(true)));
    m.report(MigrationAnswer::IsDir(false));
    assert_eq!(m.need(), MigrationNeed::Copy(0));
}

#[test]
fn old_data_goes_where_it_belongs() {
    let mut plan = old_data_plan(Some("L"), Some("U"));
    assert_eq!(plan.len(), 2);
    let (extensions, sources) = plan.pop().unwrap();
    assert_eq!(extensions, Legacy::Extensions);
    assert_eq!(extensions.destination(), DataPath::Extensions);
    assert_eq!(shown(sources), shown(extension_sources(Some("L"), Some("U"))));
    let (users, sources) = plan.pop().unwrap();
    assert_eq!(users, Legacy::UserData);
    assert_eq!(users.destination(), DataPath::UserData);
    assert_eq!(shown(sources), shown(userdata_sources(Some("L"))));
    let (kilo, sources) = kilo_plan(Some("U"), Some("H"));
    assert_eq!(kilo, Legacy::KiloConfig);
    assert_eq!(kilo.destination(), DataPath::KiloConfig);
    assert_eq!(shown(sources), shown(kilo_sources(Some("U"), Some("H"))));
}

type Names = Vec<&'static str>;

// Migrates on an imagined disk, where a folder is given by the paths in it. A path that
// ends in a slash is a folder.
fn migrate_contents(sources: &[Option<Names>], dst: &mut Names) {
    let mut migration = Migration::of_old_data(dst.is_empty(), sources.len());
    loop {
        match migration.need() {
            MigrationNeed::IsDir(i) => migration.report(MigrationAnswer::IsDir(sources[i].is_some())),
            MigrationNeed::HasEntry(i) => {
                let source = sources[i].as_ref().unwrap();
                migration.report(MigrationAnswer::HasEntry(Some(!source.is_empty())))
            }
            MigrationNeed::Copy(i) => {
                for path in sources[i].as_ref().unwrap() {
                    if !dst.contains(path) {
                        dst.push(path);
                    }
                }
                migration.report(MigrationAnswer::Copied(true))
            }
            MigrationNeed::Done(_) => return,
        }
    }
}

#[test]
fn second_migration_changes_nothing() {
    let sources = [Some(vec![]), None, Some(vec!["f", "g"]), Some(vec!["h"])];
    let mut dst: Names = Vec::new();
    migrate_contents(&sources, &mut dst);
    assert_eq!(dst, vec!["f", "g"]);
    migrate_contents(&sources, &mut dst);
    assert_eq!(dst, vec!["f", "g"]);
    let mut taken = vec!["own"];
    migrate_contents(&sources, &mut taken);
    assert_eq!(taken, vec!["own"]);
}

#[test]
fn old_locations_are_not_mixed() {
    let sources = [Some(vec!["d/"]), Some(vec!["f"])];
    let mut dst: Names = Vec::new();
    migrate_contents(&sources, &mut dst);
    assert_eq!(dst, vec!["d/"]);
}

#[test]
fn migration_ends_though_no_file_could_be_copied() {
    let dirs: [(&str, &[&str]); 1] = [("r", &["bad1", "bad2"])];
    let (result, _, _) = copy(&dirs, "r");
    assert_eq!(result, Ok(0));
    let mut m = Migration::of_old_data(true, 2);
    m.report(MigrationAnswer::IsDir(true));
    m.report(MigrationAnswer::HasEntry(Some(true)));
    m.report(MigrationAnswer::Copied(result.is_ok()));
    assert_eq!(m.need(), MigrationNeed::Done(Some(0)));
}

#[test]
fn ways_to_the_sidecar() {
    assert_eq!(node_parts(), vec!["binaries", "node.exe"]);
    assert_eq!(server_parts(), vec!["binaries", "code-server"]);
    assert_eq!(entry_parts(0), vec!["node_modules", "code-server", "out", "node", "entry.js"]);
    assert_eq!(entry_parts(1), vec!["out", "node", "entry.js"]);
    assert_eq!(ENTRY_PLACES, 2);
    assert_eq!(ENTRY_SCRIPT, "entry.js");
    assert_eq!(no_resource_dir("x"), "failed to resolve resource dir: x");
}

fn sidecar() -> Sidecar<&'static str> {
    Sidecar::new("\"N\"".to_string(), "\"F\"".to_string())
}

fn canonical(text: &'static str) -> SidecarAnswer<&'static str> {
    SidecarAnswer::Canonical(Ok((text, text.to_string())))
}

#[test]
fn sidecar_in_a_usual_place() {
    let s = sidecar();
    assert!(matches!(s.need(), SidecarNeed::NodeExists));
    let s = s.report(SidecarAnswer::Exists(true));
    assert!(matches!(s.need(), SidecarNeed::NodeCanonical));
    let s = s.report(canonical(r"\\?\C:\node.exe"));
    assert!(matches!(s.need(), SidecarNeed::EntryExists(0)));
    let s = s.report(SidecarAnswer::Exists(false));
    assert!(matches!(s.need(), SidecarNeed::EntryExists(1)));
    let s = s.report(SidecarAnswer::Exists(true));
    assert!(matches!(s.need(), SidecarNeed::EntryCanonical(Entry::Usual(1))));
    let s = s.report(canonical("/x/entry.js"));
    match s.need() {
        SidecarNeed::Found(PlainPath::Text(node), PlainPath::Native(entry)) => {
            assert_eq!(node, r"C:\node.exe");
            assert_eq!(*entry, "/x/entry.js");
        }
        _ => panic!("not found"),
    }
}

#[test]
fn sidecar_by_search() {
    let s = sidecar()
        .report(SidecarAnswer::Exists(true))
        .report(canonical("n"))
        .report(SidecarAnswer::Exists(false))
        .report(SidecarAnswer::Exists(false));
    assert!(matches!(s.need(), SidecarNeed::SearchEntry));
    let s = s.report(SidecarAnswer::Searched(Some("e")));
    assert!(matches!(s.need(), SidecarNeed::EntryCanonical(Entry::Searched("e"))));
}

fn failure(sidecar: &Sidecar<&'static str>) -> String {
    match sidecar.need() {
        SidecarNeed::Failed(reason) => reason.clone(),
        _ => panic!("no failure"),
    }
}

#[test]
fn sidecar_failures() {
    assert_eq!(failure(&sidecar().report(SidecarAnswer::Exists(false))), "node.exe not found at \"N\"");
    let s = sidecar()
        .report(SidecarAnswer::Exists(true))
        .report(SidecarAnswer::Canonical(Err("why".to_string())));
    assert_eq!(failure(&s), "failed to canonicalize node.exe path: why");
    let s = sidecar()
        .report(SidecarAnswer::Exists(true))
        .report(canonical("n"))
        .report(SidecarAnswer::Exists(false))
        .report(SidecarAnswer::Exists(false))
        .report(SidecarAnswer::Searched(None));
    assert_eq!(
        failure(&s),
        "code-server entry.js not found under \"F\". Check that the code-server npm package was installed correctly."
    );
    let s = sidecar()
        .report(SidecarAnswer::Exists(true))
        .report(canonical("n"))
        .report(SidecarAnswer::Exists(true))
        .report(SidecarAnswer::Canonical(Err("gone".to_string())));
    assert_eq!(failure(&s), "failed to canonicalize entry.js path: gone");
}
