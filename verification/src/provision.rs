//! Preparing the data directory.
//!
//! Its folders are created, older data is taken over, and the default files are
//! written where there are none.

use vstd::prelude::*;

use crate::contents;
use crate::contents::{Contents, Thing};
use crate::defaults;
use crate::layout::DataPath;
use crate::migrate;
use crate::text;

verus! {

/// How far the preparation has come.
///
/// The folder of the user's settings is made after the migration: a user data folder
/// that already holds it would not count as empty.
#[derive(Debug, Clone, Copy, PartialEq, Eq, Structural)]
pub enum ProvisionStage {
    CreateUserData,
    CreateExtensions,
    MigrateOldData,
    MigrateKiloConfig,
    CreateUser,
    CheckSettings,
    WriteSettings,
    CheckKeybindings,
    WriteKeybindings,
    Ready,
    Failed,
}

/// What is to be done.
#[derive(Debug, Clone, Copy)]
pub enum ProvisionTask {
    /// Create a folder and its parents.
    CreateDir(DataPath),
    /// Take over the data of older code-server installations.
    MigrateOldData,
    /// Take over the Kilo Code configuration of the user.
    MigrateKiloConfig,
    /// Tell whether a file exists.
    CheckFile(DataPath),
    /// Write a file.
    WriteFile(DataPath, &'static str),
    /// Nothing: the preparation is over, with success or without.
    Done(bool),
}

/// What a [`ProvisionTask`] says.
pub enum Chore {
    CreateDir(DataPath),
    MigrateOldData,
    MigrateKiloConfig,
    CheckFile(DataPath),
    WriteFile(DataPath, Seq<char>),
    Done(bool),
}

impl View for ProvisionTask {
    type V = Chore;

    open spec fn view(&self) -> Chore {
        match *self {
            ProvisionTask::CreateDir(path) => Chore::CreateDir(path),
            ProvisionTask::MigrateOldData => Chore::MigrateOldData,
            ProvisionTask::MigrateKiloConfig => Chore::MigrateKiloConfig,
            ProvisionTask::CheckFile(path) => Chore::CheckFile(path),
            ProvisionTask::WriteFile(path, text) => Chore::WriteFile(path, text@),
            ProvisionTask::Done(success) => Chore::Done(success),
        }
    }
}

/// What came of a [`ProvisionTask`].
#[derive(Debug)]
pub enum ProvisionAnswer {
    /// A folder was created or a file written, or why not.
    Outcome(Result<(), String>),
    /// Whether the file exists.
    Exists(bool),
    /// The migration is over, whatever came of it.
    Migrated,
}

/// What a [`ProvisionAnswer`] says.
pub enum Upshot {
    Outcome(Result<(), Seq<char>>),
    Exists(bool),
    Migrated,
}

impl View for ProvisionAnswer {
    type V = Upshot;

    open spec fn view(&self) -> Upshot {
        match *self {
            ProvisionAnswer::Outcome(Ok(_)) => Upshot::Outcome(Ok(())),
            ProvisionAnswer::Outcome(Err(reason)) => Upshot::Outcome(Err(reason@)),
            ProvisionAnswer::Exists(yes) => Upshot::Exists(yes),
            ProvisionAnswer::Migrated => Upshot::Migrated,
        }
    }
}

/// What is to be done at a stage.
pub open spec fn chore(stage: ProvisionStage) -> Chore {
    match stage {
        ProvisionStage::CreateUserData => Chore::CreateDir(DataPath::UserData),
        ProvisionStage::CreateExtensions => Chore::CreateDir(DataPath::Extensions),
        ProvisionStage::MigrateOldData => Chore::MigrateOldData,
        ProvisionStage::MigrateKiloConfig => Chore::MigrateKiloConfig,
        ProvisionStage::CreateUser => Chore::CreateDir(DataPath::User),
        ProvisionStage::CheckSettings => Chore::CheckFile(DataPath::Settings),
        ProvisionStage::WriteSettings => Chore::WriteFile(DataPath::Settings, defaults::DEFAULT_SETTINGS@),
        ProvisionStage::CheckKeybindings => Chore::CheckFile(DataPath::Keybindings),
        ProvisionStage::WriteKeybindings => Chore::WriteFile(
            DataPath::Keybindings,
            defaults::DEFAULT_KEYBINDINGS@,
        ),
        ProvisionStage::Ready => Chore::Done(true),
        ProvisionStage::Failed => Chore::Done(false),
    }
}

/// What the failure of a stage is called, for the stages that can fail.
pub open spec fn failure_head(stage: ProvisionStage) -> Option<Seq<char>> {
    match stage {
        ProvisionStage::CreateUserData => Some("failed to create userdata dir: "@),
        ProvisionStage::CreateExtensions => Some("failed to create extensions dir: "@),
        ProvisionStage::CreateUser => Some("failed to create User dir: "@),
        ProvisionStage::WriteSettings => Some("failed to write settings.json: "@),
        ProvisionStage::WriteKeybindings => Some("failed to write keybindings.json: "@),
        _ => None,
    }
}

/// The stage that an answer leads to. An answer to something else than the task
/// changes nothing.
pub open spec fn stage_after(stage: ProvisionStage, upshot: Upshot) -> ProvisionStage {
    match (stage, upshot) {
        (ProvisionStage::MigrateOldData, Upshot::Migrated) => ProvisionStage::MigrateKiloConfig,
        (ProvisionStage::MigrateKiloConfig, Upshot::Migrated) => ProvisionStage::CreateUser,
        (ProvisionStage::CheckSettings, Upshot::Exists(true)) => ProvisionStage::CheckKeybindings,
        (ProvisionStage::CheckSettings, Upshot::Exists(false)) => ProvisionStage::WriteSettings,
        (ProvisionStage::CheckKeybindings, Upshot::Exists(true)) => ProvisionStage::Ready,
        (ProvisionStage::CheckKeybindings, Upshot::Exists(false)) => ProvisionStage::WriteKeybindings,
        (_, Upshot::Outcome(outcome)) => if failure_head(stage) is None {
            stage
        } else if outcome is Err {
            ProvisionStage::Failed
        } else {
            match stage {
                ProvisionStage::CreateUserData => ProvisionStage::CreateExtensions,
                ProvisionStage::CreateExtensions => ProvisionStage::MigrateOldData,
                ProvisionStage::CreateUser => ProvisionStage::CheckSettings,
                ProvisionStage::WriteSettings => ProvisionStage::CheckKeybindings,
                _ => ProvisionStage::Ready,
            }
        },
        _ => stage,
    }
}

/// Why an answer ends the preparation without success, or `None` if it does not.
pub open spec fn failure(stage: ProvisionStage, upshot: Upshot) -> Option<Seq<char>> {
    match (failure_head(stage), upshot) {
        (Some(head), Upshot::Outcome(Err(reason))) => Some(head + reason),
        _ => None,
    }
}

/// The answer to a stage where every action succeeds.
pub open spec fn good_answer(stage: ProvisionStage, settings: bool, keybindings: bool) -> Upshot {
    match chore(stage) {
        Chore::CheckFile(DataPath::Settings) => Upshot::Exists(settings),
        Chore::CheckFile(_) => Upshot::Exists(keybindings),
        Chore::MigrateOldData => Upshot::Migrated,
        Chore::MigrateKiloConfig => Upshot::Migrated,
        _ => Upshot::Outcome(Ok(())),
    }
}

/// The stage that is reached after `n` answers where every action succeeds.
pub open spec fn stage_number(n: nat, settings: bool, keybindings: bool) -> ProvisionStage
    decreases n,
{
    if n == 0 {
        ProvisionStage::CreateUserData
    } else {
        let stage = stage_number((n - 1) as nat, settings, keybindings);
        stage_after(stage, good_answer(stage, settings, keybindings))
    }
}

/// The chores that are done where every action succeeds, in order, up to a number.
pub open spec fn chores_done(n: nat, settings: bool, keybindings: bool) -> Seq<Chore> {
    Seq::new(n, |i: int| chore(stage_number(i as nat, settings, keybindings)))
}

/// The chores of a preparation in which every action succeeds. `settings` and
/// `keybindings` tell which of the default files are there already.
pub open spec fn full_course(settings: bool, keybindings: bool) -> Seq<Chore> {
    seq![
        Chore::CreateDir(DataPath::UserData),
        Chore::CreateDir(DataPath::Extensions),
        Chore::MigrateOldData,
        Chore::MigrateKiloConfig,
        Chore::CreateDir(DataPath::User),
        Chore::CheckFile(DataPath::Settings),
    ] + (if settings {
        Seq::empty()
    } else {
        seq![Chore::WriteFile(DataPath::Settings, defaults::DEFAULT_SETTINGS@)]
    }) + seq![Chore::CheckFile(DataPath::Keybindings)] + (if keybindings {
        Seq::empty()
    } else {
        seq![Chore::WriteFile(DataPath::Keybindings, defaults::DEFAULT_KEYBINDINGS@)]
    }) + seq![Chore::Done(true)]
}

/// Where every action succeeds, older data is taken over before anything is put into
/// the user data folder, and each default file is written exactly if it is missing.
pub proof fn law_provision_order(settings: bool, keybindings: bool)
    ensures
        chores_done(full_course(settings, keybindings).len(), settings, keybindings) == full_course(
            settings,
            keybindings,
        ),
{
    assert(stage_number(0, settings, keybindings) == ProvisionStage::CreateUserData);
    assert(stage_number(1, settings, keybindings) == ProvisionStage::CreateExtensions);
    assert(stage_number(2, settings, keybindings) == ProvisionStage::MigrateOldData);
    assert(stage_number(3, settings, keybindings) == ProvisionStage::MigrateKiloConfig);
    assert(stage_number(4, settings, keybindings) == ProvisionStage::CreateUser);
    assert(stage_number(5, settings, keybindings) == ProvisionStage::CheckSettings);
    let check: nat = if settings {
        6
    } else {
        assert(stage_number(6, settings, keybindings) == ProvisionStage::WriteSettings);
        7
    };
    assert(stage_number(check, settings, keybindings) == ProvisionStage::CheckKeybindings);
    if !keybindings {
        assert(stage_number(check + 1, settings, keybindings) == ProvisionStage::WriteKeybindings);
        assert(stage_number(check + 2, settings, keybindings) == ProvisionStage::Ready);
    } else {
        assert(stage_number(check + 1, settings, keybindings) == ProvisionStage::Ready);
    }
    assert(chores_done(full_course(settings, keybindings).len(), settings, keybindings) =~= full_course(
        settings,
        keybindings,
    ));
}

/// A file is written only after it was found missing.
pub proof fn law_user_files_stay(stage: ProvisionStage, upshot: Upshot)
    requires
        chore(stage) !is WriteFile,
        chore(stage_after(stage, upshot)) is WriteFile,
    ensures
        upshot == Upshot::Exists(false),
        chore(stage) == Chore::CheckFile(chore(stage_after(stage, upshot))->WriteFile_0),
{
}

/// Whatever the reason is, a folder that cannot be created and a file that cannot be written
/// end the preparation without success, and the reason is told after what failed.
pub proof fn law_failures_end_the_preparation(reason: String)
    ensures
        stage_after(ProvisionStage::CreateUserData, ProvisionAnswer::Outcome(Err(reason))@)
            == ProvisionStage::Failed,
        stage_after(ProvisionStage::CreateExtensions, ProvisionAnswer::Outcome(Err(reason))@)
            == ProvisionStage::Failed,
        stage_after(ProvisionStage::CreateUser, ProvisionAnswer::Outcome(Err(reason))@) == ProvisionStage::Failed,
        stage_after(ProvisionStage::WriteSettings, ProvisionAnswer::Outcome(Err(reason))@)
            == ProvisionStage::Failed,
        stage_after(ProvisionStage::WriteKeybindings, ProvisionAnswer::Outcome(Err(reason))@)
            == ProvisionStage::Failed,
        failure(ProvisionStage::CreateUserData, ProvisionAnswer::Outcome(Err(reason))@) == Some(
            "failed to create userdata dir: "@ + reason@,
        ),
        failure(ProvisionStage::CreateExtensions, ProvisionAnswer::Outcome(Err(reason))@) == Some(
            "failed to create extensions dir: "@ + reason@,
        ),
        failure(ProvisionStage::CreateUser, ProvisionAnswer::Outcome(Err(reason))@) == Some(
            "failed to create User dir: "@ + reason@,
        ),
        failure(ProvisionStage::WriteSettings, ProvisionAnswer::Outcome(Err(reason))@) == Some(
            "failed to write settings.json: "@ + reason@,
        ),
        failure(ProvisionStage::WriteKeybindings, ProvisionAnswer::Outcome(Err(reason))@) == Some(
            "failed to write keybindings.json: "@ + reason@,
        ),
{
}

/// A preparation gives a reason exactly when it comes to fail, and it comes to fail by
/// nothing else than an action that does.
pub proof fn law_reasons_come_with_failures(stage: ProvisionStage, answer: ProvisionAnswer)
    requires
        stage != ProvisionStage::Failed,
    ensures
        failure(stage, answer@) is Some <==> stage_after(stage, answer@) == ProvisionStage::Failed,
        stage_after(stage, answer@) == ProvisionStage::Failed ==> answer is Outcome && answer->Outcome_0 is Err,
{
}

/// What leads from each stage to the next: a folder that was created, a migration that is
/// over, a file that is there or was written; and a file that is missing leads to its being
/// written.
pub proof fn law_stages_of_preparation()
    ensures
        stage_after(ProvisionStage::CreateUserData, ProvisionAnswer::Outcome(Ok(()))@)
            == ProvisionStage::CreateExtensions,
        stage_after(ProvisionStage::CreateExtensions, ProvisionAnswer::Outcome(Ok(()))@)
            == ProvisionStage::MigrateOldData,
        stage_after(ProvisionStage::MigrateOldData, ProvisionAnswer::Migrated@)
            == ProvisionStage::MigrateKiloConfig,
        stage_after(ProvisionStage::MigrateKiloConfig, ProvisionAnswer::Migrated@) == ProvisionStage::CreateUser,
        stage_after(ProvisionStage::CreateUser, ProvisionAnswer::Outcome(Ok(()))@) == ProvisionStage::CheckSettings,
        stage_after(ProvisionStage::CheckSettings, ProvisionAnswer::Exists(false)@)
            == ProvisionStage::WriteSettings,
        stage_after(ProvisionStage::CheckSettings, ProvisionAnswer::Exists(true)@)
            == ProvisionStage::CheckKeybindings,
        stage_after(ProvisionStage::WriteSettings, ProvisionAnswer::Outcome(Ok(()))@)
            == ProvisionStage::CheckKeybindings,
        stage_after(ProvisionStage::CheckKeybindings, ProvisionAnswer::Exists(false)@)
            == ProvisionStage::WriteKeybindings,
        stage_after(ProvisionStage::CheckKeybindings, ProvisionAnswer::Exists(true)@) == ProvisionStage::Ready,
        stage_after(ProvisionStage::WriteKeybindings, ProvisionAnswer::Outcome(Ok(()))@) == ProvisionStage::Ready,
{
}

/// What was not asked for changes nothing and is no failure, and a preparation that is over
/// stays so.
pub proof fn law_preparation_ignores_what_it_did_not_ask(stage: ProvisionStage, answer: ProvisionAnswer)
    requires
        answer is Migrated ==> stage !is MigrateOldData && stage !is MigrateKiloConfig,
        answer is Exists ==> stage !is CheckSettings && stage !is CheckKeybindings,
        answer is Outcome ==> stage !is CreateUserData && stage !is CreateExtensions && stage !is CreateUser
            && stage !is WriteSettings && stage !is WriteKeybindings,
    ensures
        stage_after(stage, answer@) == stage,
        failure(stage, answer@) is None,
{
}

/// A task says what it holds.
pub proof fn law_tasks_say_what_they_hold(path: DataPath, text: &'static str, success: bool)
    ensures
        ProvisionTask::CreateDir(path)@ == Chore::CreateDir(path),
        ProvisionTask::MigrateOldData@ == Chore::MigrateOldData,
        ProvisionTask::MigrateKiloConfig@ == Chore::MigrateKiloConfig,
        ProvisionTask::CheckFile(path)@ == Chore::CheckFile(path),
        ProvisionTask::WriteFile(path, text)@ == Chore::WriteFile(path, text@),
        ProvisionTask::Done(success)@ == Chore::Done(success),
{
}

/// What is done at each stage is what its name says.
pub proof fn law_chores_of_preparation()
    ensures
        chore(ProvisionStage::CreateUserData) == Chore::CreateDir(DataPath::UserData),
        chore(ProvisionStage::CreateExtensions) == Chore::CreateDir(DataPath::Extensions),
        chore(ProvisionStage::MigrateOldData) == Chore::MigrateOldData,
        chore(ProvisionStage::MigrateKiloConfig) == Chore::MigrateKiloConfig,
        chore(ProvisionStage::CreateUser) == Chore::CreateDir(DataPath::User),
        chore(ProvisionStage::CheckSettings) == Chore::CheckFile(DataPath::Settings),
        chore(ProvisionStage::WriteSettings) == Chore::WriteFile(DataPath::Settings, defaults::DEFAULT_SETTINGS@),
        chore(ProvisionStage::CheckKeybindings) == Chore::CheckFile(DataPath::Keybindings),
        chore(ProvisionStage::WriteKeybindings) == Chore::WriteFile(
            DataPath::Keybindings,
            defaults::DEFAULT_KEYBINDINGS@,
        ),
        chore(ProvisionStage::Ready) == Chore::Done(true),
        chore(ProvisionStage::Failed) == Chore::Done(false),
{
}

/// What the data directory holds of what a preparation has to do with.
pub struct DataDir {
    pub userdata: Option<Contents>,
    pub extensions: Option<Contents>,
    pub kilo: Option<Contents>,
}

/// What older installations left behind: for each source, what it holds.
pub struct OldData {
    pub userdata: Seq<Option<Contents>>,
    pub extensions: Seq<Option<Contents>>,
    pub kilo: Seq<Option<Contents>>,
}

/// The way from the user data folder to the user's settings folder.
pub open spec fn user_path() -> Seq<Seq<char>> {
    seq!["User"@]
}

/// The way from the user data folder to the settings.
pub open spec fn settings_path() -> Seq<Seq<char>> {
    seq!["User"@, "settings.json"@]
}

/// The way from the user data folder to the key bindings.
pub open spec fn keybindings_path() -> Seq<Seq<char>> {
    seq!["User"@, "keybindings.json"@]
}

/// Whether the user data folder holds something at a path.
pub open spec fn has_user_file(dir: DataDir, path: Seq<Seq<char>>) -> bool {
    contents::held(dir.userdata).dom().contains(path)
}

/// The data directory with something put into the user data folder.
pub open spec fn with_user_file(dir: DataDir, path: Seq<Seq<char>>, thing: Thing) -> DataDir {
    DataDir { userdata: Some(contents::held(dir.userdata).insert(path, thing)), ..dir }
}

/// The data directory after a chore that succeeds.
pub open spec fn after_chore(
    dir: DataDir,
    old: OldData,
    work: Chore,
) -> DataDir {
    match work {
        Chore::CreateDir(DataPath::UserData) => DataDir { userdata: Some(contents::held(dir.userdata)), ..dir },
        Chore::CreateDir(DataPath::Extensions) => DataDir {
            extensions: Some(contents::held(dir.extensions)),
            ..dir
        },
        Chore::CreateDir(DataPath::User) => if has_user_file(dir, user_path()) {
            dir
        } else {
            with_user_file(dir, user_path(), Thing::Folder)
        },
        Chore::MigrateOldData => DataDir {
            userdata: migrate::old_data_migrated(old.userdata, dir.userdata),
            extensions: migrate::old_data_migrated(old.extensions, dir.extensions),
            ..dir
        },
        Chore::MigrateKiloConfig => DataDir { kilo: migrate::kilo_migrated(old.kilo, dir.kilo), ..dir },
        Chore::WriteFile(DataPath::Settings, text) => with_user_file(
            dir,
            settings_path(),
            Thing::File(vstd::utf8::encode_utf8(text)),
        ),
        Chore::WriteFile(DataPath::Keybindings, text) => with_user_file(
            dir,
            keybindings_path(),
            Thing::File(vstd::utf8::encode_utf8(text)),
        ),
        _ => dir,
    }
}

/// A stage of a preparation, and the data directory at that stage.
pub struct Preparation {
    pub stage: ProvisionStage,
    pub dir: DataDir,
}

/// A preparation in which nothing fails, after some chores.
pub open spec fn prepared(
    dir: DataDir,
    old: OldData,
    chores: nat,
) -> Preparation
    decreases chores,
{
    if chores == 0 {
        Preparation { stage: ProvisionStage::CreateUserData, dir }
    } else {
        let before = prepared(dir, old, (chores - 1) as nat);
        Preparation {
            stage: stage_after(
                before.stage,
                good_answer(
                    before.stage,
                    has_user_file(before.dir, settings_path()),
                    has_user_file(before.dir, keybindings_path()),
                ),
            ),
            dir: after_chore(before.dir, old, chore(before.stage)),
        }
    }
}

/// A preparation in which nothing fails succeeds. A second one leaves everything as it
/// is, whatever the user has made of the settings and the key bindings in between.
pub proof fn law_second_preparation_changes_nothing(
    dir: DataDir,
    old: OldData,
    settings: Thing,
    keybindings: Thing,
)
    requires
        old.userdata.len() <= usize::MAX,
        old.extensions.len() <= usize::MAX,
        old.kilo.len() <= usize::MAX,
    ensures
        prepared(dir, old, 9).stage == ProvisionStage::Ready,
        ({
            let first = prepared(dir, old, 9).dir;
            let edited = with_user_file(
                with_user_file(first, settings_path(), settings),
                keybindings_path(),
                keybindings,
            );
            &&& prepared(first, old, 9) == (Preparation { stage: ProvisionStage::Ready, dir: first })
            &&& prepared(edited, old, 9) == (Preparation { stage: ProvisionStage::Ready, dir: edited })
        }),
{
    lemma_first_preparation(dir, old);
    let first = prepared(dir, old, 9).dir;
    let edited = with_user_file(
        with_user_file(first, settings_path(), settings),
        keybindings_path(),
        keybindings,
    );
    lemma_later_preparation(first, old);
    lemma_later_preparation(edited, old);
}

/// What old user data holds reaches an empty user data folder and is still there, as it
/// was, when the preparation is over: no folder and no default file takes its place.
pub proof fn law_old_data_outlives_preparation(dir: DataDir, old: OldData, k: int, path: Seq<Seq<char>>)
    requires
        old.userdata.len() <= usize::MAX,
        contents::is_bare(dir.userdata),
        0 <= k < old.userdata.len(),
        forall|i: int| 0 <= i < k ==> contents::is_bare(#[trigger] old.userdata[i]),
        contents::held(old.userdata[k]).dom().contains(path),
    ensures
        has_user_file(prepared(dir, old, 9).dir, path),
        contents::held(prepared(dir, old, 9).dir.userdata)[path] == contents::held(old.userdata[k])[path],
{
    let p2 = prepared(dir, old, 2);
    let p3 = prepared(dir, old, 3);
    lemma_stages(dir, old);
    assert(contents::held(p2.dir.userdata) =~= contents::held(dir.userdata));
    migrate::law_first_data_is_taken_over(old.userdata, p2.dir.userdata, k);
    assert(p3.dir.userdata == old.userdata[k]);
    assert(has_user_file(p3.dir, path));
    assert(prepared(dir, old, 4).dir.userdata == p3.dir.userdata);
    let p5 = prepared(dir, old, 5);
    let p6 = prepared(dir, old, 6);
    let p7 = prepared(dir, old, 7);
    let p8 = prepared(dir, old, 8);
    let thing = contents::held(old.userdata[k])[path];
    assert(has_user_file(p5.dir, path) && contents::held(p5.dir.userdata)[path] == thing);
    assert(has_user_file(p6.dir, path) && contents::held(p6.dir.userdata)[path] == thing);
    assert(has_user_file(p7.dir, path) && contents::held(p7.dir.userdata)[path] == thing);
    assert(has_user_file(p8.dir, path) && contents::held(p8.dir.userdata)[path] == thing);
}

/// The user data and the extensions are decided on separately: an empty extensions folder
/// receives the first old extensions whatever the user data folder holds, and a preparation
/// does nothing else to it.
pub proof fn law_extensions_have_their_own_migration(dir: DataDir, old: OldData, k: int)
    requires
        old.extensions.len() <= usize::MAX,
        contents::is_bare(dir.extensions),
        0 <= k < old.extensions.len(),
        forall|i: int| 0 <= i < k ==> contents::is_bare(#[trigger] old.extensions[i]),
        !contents::is_bare(old.extensions[k]),
    ensures
        prepared(dir, old, 9).dir.extensions == old.extensions[k],
{
    let p2 = prepared(dir, old, 2);
    lemma_stages(dir, old);
    assert(contents::held(p2.dir.extensions) =~= contents::held(dir.extensions));
    migrate::law_first_data_is_taken_over(old.extensions, p2.dir.extensions, k);
    assert(prepared(dir, old, 3).dir.extensions == old.extensions[k]);
    assert(prepared(dir, old, 4).dir.extensions == old.extensions[k]);
    assert(prepared(dir, old, 5).dir.extensions == old.extensions[k]);
    assert(prepared(dir, old, 6).dir.extensions == old.extensions[k]);
    assert(prepared(dir, old, 7).dir.extensions == old.extensions[k]);
    assert(prepared(dir, old, 8).dir.extensions == old.extensions[k]);
}

/// The stages of a preparation in which nothing fails.
proof fn lemma_stages(dir: DataDir, old: OldData)
    ensures
        prepared(dir, old, 0).stage == ProvisionStage::CreateUserData,
        prepared(dir, old, 1).stage == ProvisionStage::CreateExtensions,
        prepared(dir, old, 2).stage == ProvisionStage::MigrateOldData,
        prepared(dir, old, 3).stage == ProvisionStage::MigrateKiloConfig,
        prepared(dir, old, 4).stage == ProvisionStage::CreateUser,
        prepared(dir, old, 5).stage == ProvisionStage::CheckSettings,
{
    assert(prepared(dir, old, 0).stage == ProvisionStage::CreateUserData);
    assert(prepared(dir, old, 1).stage == ProvisionStage::CreateExtensions);
    assert(prepared(dir, old, 2).stage == ProvisionStage::MigrateOldData);
    assert(prepared(dir, old, 3).stage == ProvisionStage::MigrateKiloConfig);
    assert(prepared(dir, old, 4).stage == ProvisionStage::CreateUser);
    assert(prepared(dir, old, 5).stage == ProvisionStage::CheckSettings);
}

/// Whether a preparation has been here.
pub open spec fn is_prepared(dir: DataDir, old: OldData) -> bool {
    &&& dir.userdata is Some
    &&& dir.extensions is Some
    &&& has_user_file(dir, user_path())
    &&& has_user_file(dir, settings_path())
    &&& has_user_file(dir, keybindings_path())
    &&& migrate::old_data_migrated(old.extensions, dir.extensions) == dir.extensions
    &&& migrate::kilo_migrated(old.kilo, dir.kilo) == dir.kilo
}

proof fn lemma_first_preparation(dir: DataDir, old: OldData)
    requires
        old.userdata.len() <= usize::MAX,
        old.extensions.len() <= usize::MAX,
        old.kilo.len() <= usize::MAX,
    ensures
        prepared(dir, old, 9).stage == ProvisionStage::Ready,
        is_prepared(prepared(dir, old, 9).dir, old),
{
    let p2 = prepared(dir, old, 2);
    let p3 = prepared(dir, old, 3);
    let p5 = prepared(dir, old, 5);
    let p6 = prepared(dir, old, 6);
    let p7 = prepared(dir, old, 7);
    let p8 = prepared(dir, old, 8);
    lemma_stages(dir, old);
    migrate::law_second_migration_changes_nothing(old.extensions, p2.dir.extensions);
    migrate::law_second_kilo_migration_changes_nothing(old.kilo, p3.dir.kilo);
    migrate::lemma_folder_remains(old.extensions, p2.dir.extensions);
    assert(p3.dir.extensions is Some);
    assert(p5.dir.userdata is Some && has_user_file(p5.dir, user_path()));
    assert(user_path() != settings_path() && user_path() != keybindings_path()) by {
        assert(user_path().len() == 1 && settings_path().len() == 2);
    }
}

proof fn lemma_later_preparation(dir: DataDir, old: OldData)
    requires
        is_prepared(dir, old),
    ensures
        prepared(dir, old, 9) == (Preparation { stage: ProvisionStage::Ready, dir }),
{
    assert(prepared(dir, old, 0) == (Preparation { stage: ProvisionStage::CreateUserData, dir }));
    assert(prepared(dir, old, 1) == (Preparation { stage: ProvisionStage::CreateExtensions, dir }));
    assert(prepared(dir, old, 2) == (Preparation { stage: ProvisionStage::MigrateOldData, dir }));
    migrate::lemma_taken_folder_stays(old.userdata, true, dir.userdata, old.userdata.len());
    assert(prepared(dir, old, 3) == (Preparation { stage: ProvisionStage::MigrateKiloConfig, dir }));
    assert(prepared(dir, old, 4) == (Preparation { stage: ProvisionStage::CreateUser, dir }));
    assert(prepared(dir, old, 5) == (Preparation { stage: ProvisionStage::CheckSettings, dir }));
    assert(prepared(dir, old, 6) == (Preparation { stage: ProvisionStage::CheckKeybindings, dir }));
    assert(prepared(dir, old, 7) == (Preparation { stage: ProvisionStage::Ready, dir }));
    assert(prepared(dir, old, 8) == (Preparation { stage: ProvisionStage::Ready, dir }));
}

/// The preparation of the data directory.
#[derive(Debug)]
pub struct Provision {
    stage: ProvisionStage,
}

impl Provision {
    /// How far the preparation has come.
    pub closed spec fn stage(self) -> ProvisionStage {
        self.stage
    }

    /// Begins the preparation.
    pub fn new() -> (provision: Provision)
        ensures
            provision.stage() == ProvisionStage::CreateUserData,
    {
        Provision { stage: ProvisionStage::CreateUserData }
    }

    /// What is to be done.
    pub fn task(&self) -> (task: ProvisionTask)
        ensures
            task@ == chore(self.stage()),
    {
        match self.stage {
            ProvisionStage::CreateUserData => ProvisionTask::CreateDir(DataPath::UserData),
            ProvisionStage::CreateExtensions => ProvisionTask::CreateDir(DataPath::Extensions),
            ProvisionStage::MigrateOldData => ProvisionTask::MigrateOldData,
            ProvisionStage::MigrateKiloConfig => ProvisionTask::MigrateKiloConfig,
            ProvisionStage::CreateUser => ProvisionTask::CreateDir(DataPath::User),
            ProvisionStage::CheckSettings => ProvisionTask::CheckFile(DataPath::Settings),
            ProvisionStage::WriteSettings => ProvisionTask::WriteFile(
                DataPath::Settings,
                defaults::DEFAULT_SETTINGS,
            ),
            ProvisionStage::CheckKeybindings => ProvisionTask::CheckFile(DataPath::Keybindings),
            ProvisionStage::WriteKeybindings => ProvisionTask::WriteFile(
                DataPath::Keybindings,
                defaults::DEFAULT_KEYBINDINGS,
            ),
            ProvisionStage::Ready => ProvisionTask::Done(true),
            ProvisionStage::Failed => ProvisionTask::Done(false),
        }
    }

    /// Takes what came of the task. Returns the reason if that ends the preparation
    /// without success.
    pub fn report(&mut self, answer: ProvisionAnswer) -> (reason: Option<String>)
        ensures
            final(self).stage() == stage_after(old(self).stage(), answer@),
            match (reason, failure(old(self).stage(), answer@)) {
                (Some(reason), Some(text)) => reason@ == text,
                (None, None) => true,
                _ => false,
            },
    {
        match answer {
            ProvisionAnswer::Migrated => {
                match self.stage {
                    ProvisionStage::MigrateOldData => {
                        self.stage = ProvisionStage::MigrateKiloConfig;
                    },
                    ProvisionStage::MigrateKiloConfig => {
                        self.stage = ProvisionStage::CreateUser;
                    },
                    _ => {},
                }
                None
            },
            ProvisionAnswer::Exists(exists) => {
                match self.stage {
                    ProvisionStage::CheckSettings => {
                        self.stage = if exists {
                            ProvisionStage::CheckKeybindings
                        } else {
                            ProvisionStage::WriteSettings
                        };
                    },
                    ProvisionStage::CheckKeybindings => {
                        self.stage = if exists {
                            ProvisionStage::Ready
                        } else {
                            ProvisionStage::WriteKeybindings
                        };
                    },
                    _ => {},
                }
                None
            },
            ProvisionAnswer::Outcome(outcome) => {
                let (head, next) = match self.stage {
                    ProvisionStage::CreateUserData => (
                        "failed to create userdata dir: ",
                        ProvisionStage::CreateExtensions,
                    ),
                    ProvisionStage::CreateExtensions => (
                        "failed to create extensions dir: ",
                        ProvisionStage::MigrateOldData,
                    ),
                    ProvisionStage::CreateUser => (
                        "failed to create User dir: ",
                        ProvisionStage::CheckSettings,
                    ),
                    ProvisionStage::WriteSettings => (
                        "failed to write settings.json: ",
                        ProvisionStage::CheckKeybindings,
                    ),
                    ProvisionStage::WriteKeybindings => (
                        "failed to write keybindings.json: ",
                        ProvisionStage::Ready,
                    ),
                    _ => {
                        return None;
                    },
                };
                match outcome {
                    Ok(_) => {
                        self.stage = next;
                        None
                    },
                    Err(reason) => {
                        self.stage = ProvisionStage::Failed;
                        Some(text::joined(head, reason.as_str()))
                    },
                }
            },
        }
    }
}

} // verus!
