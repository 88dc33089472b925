//! Taking over what earlier installations left behind.
//!
//! On the first run the data of a code-server installation and the Kilo Code
//! configuration of the user are copied into the data directory.

use vstd::prelude::*;

use crate::contents;
use crate::contents::Contents;
use crate::layout;
use crate::layout::DataPath;

verus! {

/// A directory outside the data directory: the value of an environment variable and
/// the names that lead on from there.
#[derive(Debug)]
pub struct Source {
    pub root: String,
    pub parts: Vec<&'static str>,
}

/// What a [`Source`] says.
pub struct Origin {
    pub root: Seq<char>,
    pub names: Seq<Seq<char>>,
}

impl View for Source {
    type V = Origin;

    open spec fn view(&self) -> Origin {
        Origin { root: self.root@, names: layout::names(self.parts@) }
    }
}

/// The origins that some sources name.
pub open spec fn origins(sources: Seq<Source>) -> Seq<Origin> {
    sources.map_values(|source: Source| source@)
}

/// The value of a variable, as text.
pub open spec fn value(variable: Option<&str>) -> Option<Seq<char>> {
    match variable {
        Some(value) => Some(value@),
        None => None,
    }
}

/// Where code-server may have left user data.
pub open spec fn userdata_origins(local_appdata: Option<Seq<char>>) -> Seq<Origin> {
    match local_appdata {
        Some(root) => seq![
            Origin { root, names: seq!["code-server"@, "Data"@] },
            Origin { root, names: seq!["code-server"@] },
        ],
        None => Seq::empty(),
    }
}

/// Where code-server may have left extensions.
pub open spec fn extension_origins(
    local_appdata: Option<Seq<char>>,
    user_profile: Option<Seq<char>>,
) -> Seq<Origin> {
    (match local_appdata {
        Some(root) => seq![
            Origin { root, names: seq!["code-server"@, "Data"@, "extensions"@] },
            Origin { root, names: seq!["code-server"@, "extensions"@] },
        ],
        None => Seq::empty(),
    }) + (match user_profile {
        Some(root) => seq![Origin { root, names: seq![".vscode"@, "extensions"@] }],
        None => Seq::empty(),
    })
}

/// Where the Kilo Code configuration of the user may lie.
pub open spec fn kilo_origins(user_profile: Option<Seq<char>>, home: Option<Seq<char>>) -> Seq<Origin> {
    (match user_profile {
        Some(root) => seq![Origin { root, names: seq![".config"@, "kilo"@] }],
        None => Seq::empty(),
    }) + (match home {
        Some(root) => seq![Origin { root, names: seq![".config"@, "kilo"@] }],
        None => Seq::empty(),
    })
}

/// Whatever the variables hold, every origin is rooted where its variable says, and the
/// names that lead on from there are always the same: two places for user data, three for
/// extensions and two for the Kilo Code configuration, in this order. A variable that is
/// not set names no origin.
pub proof fn law_origins_are_fixed_below_their_roots(local: Seq<char>, profile: Seq<char>, home: Seq<char>)
    ensures
        userdata_origins(Some(local)).len() == 2,
        userdata_origins(Some(local))[0].root == local && userdata_origins(Some(local))[1].root == local,
        userdata_origins(Some(local))[0].names == seq!["code-server"@, "Data"@],
        userdata_origins(Some(local))[1].names == seq!["code-server"@],
        userdata_origins(None).len() == 0,
        extension_origins(Some(local), Some(profile)).len() == 3,
        extension_origins(Some(local), Some(profile))[0].root == local,
        extension_origins(Some(local), Some(profile))[1].root == local,
        extension_origins(Some(local), Some(profile))[2].root == profile,
        extension_origins(Some(local), Some(profile))[0].names == seq!["code-server"@, "Data"@, "extensions"@],
        extension_origins(Some(local), Some(profile))[1].names == seq!["code-server"@, "extensions"@],
        extension_origins(Some(local), Some(profile))[2].names == seq![".vscode"@, "extensions"@],
        extension_origins(Some(local), None) == extension_origins(Some(local), Some(profile)).take(2),
        extension_origins(None, Some(profile)) == extension_origins(Some(local), Some(profile)).skip(2),
        extension_origins(None, None).len() == 0,
        kilo_origins(Some(profile), Some(home)).len() == 2,
        kilo_origins(Some(profile), Some(home))[0].root == profile,
        kilo_origins(Some(profile), Some(home))[1].root == home,
        kilo_origins(Some(profile), Some(home))[0].names == seq![".config"@, "kilo"@],
        kilo_origins(Some(profile), Some(home))[1].names == seq![".config"@, "kilo"@],
        kilo_origins(Some(profile), None) == kilo_origins(Some(profile), Some(home)).take(1),
        kilo_origins(None, Some(home)) == kilo_origins(Some(profile), Some(home)).skip(1),
        kilo_origins(None, None).len() == 0,
{
    let extensions = extension_origins(Some(local), Some(profile));
    assert(extensions.take(2) =~= extension_origins(Some(local), None));
    assert(extensions.skip(2) =~= extension_origins(None, Some(profile)));
    let kilo = kilo_origins(Some(profile), Some(home));
    assert(kilo.take(1) =~= kilo_origins(Some(profile), None));
    assert(kilo.skip(1) =~= kilo_origins(None, Some(home)));
}

/// The extensions of an old installation lie in the folder `extensions` of its user data,
/// wherever that is.
pub proof fn law_old_extensions_lie_in_old_user_data(local: Seq<char>, profile: Option<Seq<char>>, i: int)
    requires
        0 <= i < 2,
    ensures
        extension_origins(Some(local), profile)[i].root == userdata_origins(Some(local))[i].root,
        extension_origins(Some(local), profile)[i].names == userdata_origins(Some(local))[i].names.push(
            "extensions"@,
        ),
{
    assert(extension_origins(Some(local), profile)[i].names =~= userdata_origins(Some(local))[i].names.push(
        "extensions"@,
    ));
}

/// A source says the root and the names that it holds, and a list of sources or a plan
/// says what each of its parts says, in order.
pub proof fn law_sources_say_what_they_hold(
    source: Source,
    sources: Seq<Source>,
    plan: Seq<(Legacy, Vec<Source>)>,
    text: &str,
    i: int,
)
    ensures
        source@.root == source.root@,
        source@.names.len() == source.parts@.len(),
        0 <= i < source.parts@.len() ==> source@.names[i] == source.parts@[i]@,
        origins(sources).len() == sources.len(),
        0 <= i < sources.len() ==> origins(sources)[i] == sources[i]@,
        plan_text(plan).len() == plan.len(),
        0 <= i < plan.len() ==> plan_text(plan)[i] == (plan[i].0, origins(plan[i].1@)),
        value(Some(text)) == Some(text@),
        value(None) == None::<Seq<char>>,
{
}

/// Whether an origin is, lies in or holds the folder `.ssh` of its root, or leads through
/// a folder of that name.
pub open spec fn names_ssh(origin: Origin) -> bool {
    ||| origin.names.is_prefix_of(seq![".ssh"@])
    ||| seq![".ssh"@].is_prefix_of(origin.names)
    ||| origin.names.contains(".ssh"@)
}

/// No origin leads to or through a folder `.ssh`, and none lies above the one in the
/// directory that a variable names, as that directory itself would.
pub proof fn law_ssh_keys_stay(
    local_appdata: Option<Seq<char>>,
    user_profile: Option<Seq<char>>,
    home: Option<Seq<char>>,
    origin: Origin,
)
    requires
        userdata_origins(local_appdata).contains(origin) || extension_origins(
            local_appdata,
            user_profile,
        ).contains(origin) || kilo_origins(user_profile, home).contains(origin),
    ensures
        !origin.names.is_prefix_of(seq![".ssh"@]),
        !seq![".ssh"@].is_prefix_of(origin.names),
        !names_ssh(origin),
{
    reveal_strlit(".ssh");
    reveal_strlit("code-server");
    reveal_strlit("Data");
    reveal_strlit("extensions");
    reveal_strlit(".vscode");
    reveal_strlit(".config");
    reveal_strlit("kilo");
    let ssh = ".ssh"@;
    assert("code-server"@.len() != ssh.len() && "extensions"@.len() != ssh.len());
    assert(".vscode"@.len() != ssh.len() && ".config"@.len() != ssh.len());
    assert("Data"@[0] == 'D' && "kilo"@[0] == 'k' && ssh[0] == '.');
    let users = userdata_origins(local_appdata);
    let extensions = extension_origins(local_appdata, user_profile);
    let kilo = kilo_origins(user_profile, home);
    assert forall|i: int, j: int| 0 <= i < users.len() && 0 <= j < users[i].names.len() implies
        #[trigger] users[i].names[j] != ssh by {}
    assert forall|i: int, j: int| 0 <= i < extensions.len() && 0 <= j < extensions[i].names.len() implies
        #[trigger] extensions[i].names[j] != ssh by {}
    assert forall|i: int, j: int| 0 <= i < kilo.len() && 0 <= j < kilo[i].names.len() implies
        #[trigger] kilo[i].names[j] != ssh by {}
    assert(origin.names.len() > 0 && origin.names[0] != ssh);
    if origin.names.is_prefix_of(seq![ssh]) {
        assert(origin.names[0] == seq![ssh].subrange(0, origin.names.len() as int)[0]);
    }
    if seq![ssh].is_prefix_of(origin.names) {
        assert(seq![ssh][0] == origin.names.subrange(0, 1)[0]);
    }
}

fn source(root: &str, parts: Vec<&'static str>) -> (source: Source)
    ensures
        source@ == (Origin { root: root@, names: layout::names(parts@) }),
{
    Source { root: root.to_owned(), parts }
}

/// Lists where code-server may have left user data, given `LOCALAPPDATA`.
pub fn userdata_sources(local_appdata: Option<&str>) -> (sources: Vec<Source>)
    ensures
        origins(sources@) == userdata_origins(value(local_appdata)),
{
    let mut sources: Vec<Source> = Vec::new();
    if let Some(root) = local_appdata {
        sources.push(source(root, vec!["code-server", "Data"]));
        // Some versions of code-server use this path.
        sources.push(source(root, vec!["code-server"]));
        proof {
            assert(sources@[0]@.names =~= seq!["code-server"@, "Data"@]);
            assert(sources@[1]@.names =~= seq!["code-server"@]);
        }
    }
    proof {
        assert(origins(sources@) =~= userdata_origins(value(local_appdata)));
    }
    sources
}

/// Lists where code-server may have left extensions, given `LOCALAPPDATA` and
/// `USERPROFILE`.
pub fn extension_sources(local_appdata: Option<&str>, user_profile: Option<&str>) -> (sources: Vec<Source>)
    ensures
        origins(sources@) == extension_origins(value(local_appdata), value(user_profile)),
{
    let mut sources: Vec<Source> = Vec::new();
    if let Some(root) = local_appdata {
        sources.push(source(root, vec!["code-server", "Data", "extensions"]));
        sources.push(source(root, vec!["code-server", "extensions"]));
        proof {
            assert(sources@[0]@.names =~= seq!["code-server"@, "Data"@, "extensions"@]);
            assert(sources@[1]@.names =~= seq!["code-server"@, "extensions"@]);
        }
    }
    if let Some(root) = user_profile {
        sources.push(source(root, vec![".vscode", "extensions"]));
        proof {
            assert(sources@.last()@.names =~= seq![".vscode"@, "extensions"@]);
        }
    }
    proof {
        assert(origins(sources@) =~= extension_origins(value(local_appdata), value(user_profile)));
    }
    sources
}

/// Lists where the Kilo Code configuration of the user may lie, given `USERPROFILE`
/// and `HOME`.
pub fn kilo_sources(user_profile: Option<&str>, home: Option<&str>) -> (sources: Vec<Source>)
    ensures
        origins(sources@) == kilo_origins(value(user_profile), value(home)),
{
    let mut sources: Vec<Source> = Vec::new();
    if let Some(root) = user_profile {
        sources.push(source(root, vec![".config", "kilo"]));
        proof {
            assert(sources@.last()@.names =~= seq![".config"@, "kilo"@]);
        }
    }
    if let Some(root) = home {
        sources.push(source(root, vec![".config", "kilo"]));
        proof {
            assert(sources@.last()@.names =~= seq![".config"@, "kilo"@]);
        }
    }
    proof {
        assert(origins(sources@) =~= kilo_origins(value(user_profile), value(home)));
    }
    sources
}

/// What is taken over.
#[derive(Debug, Clone, Copy, PartialEq, Eq, Structural)]
pub enum Legacy {
    UserData,
    Extensions,
    KiloConfig,
}

impl Legacy {
    /// Where in the data directory it goes.
    pub open spec fn place(self) -> DataPath {
        match self {
            Legacy::UserData => DataPath::UserData,
            Legacy::Extensions => DataPath::Extensions,
            Legacy::KiloConfig => DataPath::KiloConfig,
        }
    }

    /// Where in the data directory it goes.
    pub fn destination(self) -> (path: DataPath)
        ensures
            path == self.place(),
    {
        match self {
            Legacy::UserData => DataPath::UserData,
            Legacy::Extensions => DataPath::Extensions,
            Legacy::KiloConfig => DataPath::KiloConfig,
        }
    }
}

/// What a plan takes over, and from which origins.
pub open spec fn plan_text(plan: Seq<(Legacy, Vec<Source>)>) -> Seq<(Legacy, Seq<Origin>)> {
    plan.map_values(|entry: (Legacy, Vec<Source>)| (entry.0, origins(entry.1@)))
}

/// Plans the migration of old code-server data: first the user data, then the extensions.
/// Each has a migration of its own, which takes place only if its destination is empty.
pub fn old_data_plan(local_appdata: Option<&str>, user_profile: Option<&str>) -> (plan: Vec<
    (Legacy, Vec<Source>),
>)
    ensures
        plan_text(plan@) == seq![
            (Legacy::UserData, userdata_origins(value(local_appdata))),
            (Legacy::Extensions, extension_origins(value(local_appdata), value(user_profile))),
        ],
{
    let mut plan: Vec<(Legacy, Vec<Source>)> = Vec::new();
    plan.push((Legacy::UserData, userdata_sources(local_appdata)));
    plan.push((Legacy::Extensions, extension_sources(local_appdata, user_profile)));
    proof {
        assert(plan_text(plan@) =~= seq![
            (Legacy::UserData, userdata_origins(value(local_appdata))),
            (Legacy::Extensions, extension_origins(value(local_appdata), value(user_profile))),
        ]);
    }
    plan
}

/// Plans the migration of the Kilo Code configuration.
pub fn kilo_plan(user_profile: Option<&str>, home: Option<&str>) -> (plan: (Legacy, Vec<Source>))
    ensures
        plan.0 == Legacy::KiloConfig,
        origins(plan.1@) == kilo_origins(value(user_profile), value(home)),
{
    (Legacy::KiloConfig, kilo_sources(user_profile, home))
}

/// Tells whether a directory counts as empty, given whether it has an entry. One that
/// cannot be read counts as empty.
pub fn counts_as_empty(has_entry: Option<bool>) -> (empty: bool)
    ensures
        empty == (has_entry != Some(true)),
{
    match has_entry {
        Some(has_entry) => !has_entry,
        None => true,
    }
}

/// What a migration waits for. The number is that of a source.
#[derive(Debug, Clone, Copy, PartialEq, Eq, Structural)]
pub enum MigrationNeed {
    /// Tell whether the source is a directory.
    IsDir(usize),
    /// Tell whether the source has an entry.
    HasEntry(usize),
    /// Copy the source.
    Copy(usize),
    /// Nothing: the migration is over. Names the source that was copied.
    Done(Option<usize>),
}

/// The source after another.
pub open spec fn next_source(sources: usize, i: usize) -> MigrationNeed {
    if i + 1 < sources {
        MigrationNeed::IsDir((i + 1) as usize)
    } else {
        MigrationNeed::Done(None)
    }
}

/// What a new migration waits for. One whose destination is taken is over at once.
pub open spec fn first_need(vacant: bool, sources: usize) -> MigrationNeed {
    if vacant && sources > 0 {
        MigrationNeed::IsDir(0)
    } else {
        MigrationNeed::Done(None)
    }
}

/// An answer to a [`MigrationNeed`].
#[derive(Debug, Clone, Copy, PartialEq, Eq, Structural)]
pub enum MigrationAnswer {
    IsDir(bool),
    /// Whether the source has an entry, or `None` if it cannot be read.
    HasEntry(Option<bool>),
    /// Whether the source could be copied. One that was opened could, even where some of
    /// what it holds was passed over.
    Copied(bool),
}

/// What an answer leads to. `insists` tells whether a source that has no entry is passed
/// over and one that cannot be copied is followed by the next. An answer to something
/// else than the need changes nothing.
pub open spec fn migration_step(
    sources: usize,
    insists: bool,
    need: MigrationNeed,
    answer: MigrationAnswer,
) -> MigrationNeed {
    match (need, answer) {
        (MigrationNeed::IsDir(i), MigrationAnswer::IsDir(true)) => if insists {
            MigrationNeed::HasEntry(i)
        } else {
            MigrationNeed::Copy(i)
        },
        (MigrationNeed::IsDir(i), MigrationAnswer::IsDir(false)) => next_source(sources, i),
        (MigrationNeed::HasEntry(i), MigrationAnswer::HasEntry(has_entry)) => if has_entry == Some(false) {
            next_source(sources, i)
        } else {
            MigrationNeed::Copy(i)
        },
        (MigrationNeed::Copy(i), MigrationAnswer::Copied(true)) => MigrationNeed::Done(Some(i)),
        (MigrationNeed::Copy(i), MigrationAnswer::Copied(false)) => if insists {
            next_source(sources, i)
        } else {
            MigrationNeed::Done(None)
        },
        _ => need,
    }
}

/// What is found out about a source.
pub struct Finding {
    pub is_dir: bool,
    /// Whether it has an entry, or `None` if it cannot be read.
    pub has_entry: Option<bool>,
    pub copies: bool,
}

/// What a migration waits for after all answers about a source.
pub open spec fn after_finding(
    sources: usize,
    insists: bool,
    need: MigrationNeed,
    finding: Finding,
) -> MigrationNeed {
    let need = migration_step(sources, insists, need, MigrationAnswer::IsDir(finding.is_dir));
    let need = migration_step(sources, insists, need, MigrationAnswer::HasEntry(finding.has_entry));
    migration_step(sources, insists, need, MigrationAnswer::Copied(finding.copies))
}

/// What a migration waits for after the first `n` sources.
pub open spec fn after_sources(
    sources: usize,
    insists: bool,
    vacant: bool,
    findings: spec_fn(int) -> Finding,
    n: nat,
) -> MigrationNeed
    decreases n,
{
    if n == 0 {
        first_need(vacant, sources)
    } else {
        after_finding(
            sources,
            insists,
            after_sources(sources, insists, vacant, findings, (n - 1) as nat),
            findings(n - 1),
        )
    }
}

/// Whether a source has data: it is a directory and is not known to be empty.
pub open spec fn has_data(finding: Finding) -> bool {
    finding.is_dir && finding.has_entry != Some(false)
}

/// A source is asked about in turn, from the first on. One that is no directory is followed
/// by the next. One that is a directory is copied at once by a migration that does not
/// insist; by one that does, exactly if it is not known to be empty. A copy that succeeds
/// ends a migration with that source; one that fails is followed by the next source if the
/// migration insists, and ends it otherwise. After the last source nothing is left to do.
/// None of this depends on which source it is or how many there are.
pub proof fn law_sources_are_tried_in_turn(sources: usize, insists: bool, i: usize, has_entry: Option<bool>)
    requires
        i < sources,
    ensures
        ({
            let next = if i < sources - 1 {
                MigrationNeed::IsDir((i + 1) as usize)
            } else {
                MigrationNeed::Done(None)
            };
            let dir = MigrationNeed::IsDir(i);
            let entry = MigrationNeed::HasEntry(i);
            let copy = MigrationNeed::Copy(i);
            &&& migration_step(sources, insists, dir, MigrationAnswer::IsDir(false)) == next
            &&& migration_step(sources, false, dir, MigrationAnswer::IsDir(true)) == copy
            &&& migration_step(sources, true, dir, MigrationAnswer::IsDir(true)) == entry
            &&& migration_step(sources, insists, entry, MigrationAnswer::HasEntry(Some(false))) == next
            &&& has_entry != Some(false) ==> migration_step(
                sources,
                insists,
                entry,
                MigrationAnswer::HasEntry(has_entry),
            ) == copy
            &&& migration_step(sources, insists, copy, MigrationAnswer::Copied(true)) == MigrationNeed::Done(
                Some(i),
            )
            &&& migration_step(sources, true, copy, MigrationAnswer::Copied(false)) == next
            &&& migration_step(sources, false, copy, MigrationAnswer::Copied(false)) == MigrationNeed::Done(None)
            &&& first_need(true, sources) == MigrationNeed::IsDir(0)
            &&& first_need(false, sources) == MigrationNeed::Done(None)
            &&& first_need(true, 0) == MigrationNeed::Done(None)
        }),
{
}

/// What was not asked for changes nothing, and a migration that is over stays so.
pub proof fn law_migration_ignores_what_it_did_not_ask(
    sources: usize,
    insists: bool,
    need: MigrationNeed,
    answer: MigrationAnswer,
)
    requires
        !(need is IsDir && answer is IsDir),
        !(need is HasEntry && answer is HasEntry),
        !(need is Copy && answer is Copied),
    ensures
        migration_step(sources, insists, need, answer) == need,
{
}

/// A source has data exactly if it is a directory that has an entry or cannot be read.
pub proof fn law_what_data_is(finding: Finding)
    ensures
        has_data(finding) <==> finding.is_dir && (finding.has_entry is None || finding.has_entry->0),
{
}

/// A migration whose destination is taken copies nothing.
pub proof fn law_taken_destination_stays(
    sources: usize,
    insists: bool,
    findings: spec_fn(int) -> Finding,
    n: nat,
)
    ensures
        after_sources(sources, insists, false, findings, n) == MigrationNeed::Done(None),
    decreases n,
{
    if n > 0 {
        law_taken_destination_stays(sources, insists, findings, (n - 1) as nat);
    }
}

/// A migration that insists takes over the first source that has data and can be copied.
/// It is over with that copy, however many files the copy brought: no source after it is
/// asked about.
pub proof fn law_first_source_with_data_wins(
    sources: usize,
    findings: spec_fn(int) -> Finding,
    k: usize,
    n: nat,
)
    requires
        k < sources,
        has_data(findings(k as int)) && findings(k as int).copies,
        forall|i: int| 0 <= i < k ==> !(has_data(#[trigger] findings(i)) && findings(i).copies),
        k < n,
    ensures
        after_sources(sources, true, true, findings, n) == MigrationNeed::Done(Some(k)),
{
    lemma_sources_passed(sources, true, findings, k as nat);
    lemma_end_stays(sources, true, findings, k as nat + 1, n);
}

/// A migration that insists takes over nothing only where no source has data and can be
/// copied.
pub proof fn law_no_data_no_migration(sources: usize, findings: spec_fn(int) -> Finding)
    requires
        forall|i: int| 0 <= i < sources ==> !(has_data(#[trigger] findings(i)) && findings(i).copies),
    ensures
        after_sources(sources, true, true, findings, sources as nat) == MigrationNeed::Done(None),
{
    if sources > 0 {
        lemma_sources_passed(sources, true, findings, (sources - 1) as nat);
    }
}

/// A source that is missing or empty is never copied by a migration that insists.
pub proof fn law_empty_source_is_not_copied(sources: usize, i: usize, finding: Finding)
    requires
        !has_data(finding),
    ensures
        ({
            let first = migration_step(
                sources,
                true,
                MigrationNeed::IsDir(i),
                MigrationAnswer::IsDir(finding.is_dir),
            );
            let second = migration_step(
                sources,
                true,
                first,
                MigrationAnswer::HasEntry(finding.has_entry),
            );
            first !is Copy && second == next_source(sources, i)
        }),
{
}

/// A migration that does not insist settles on the first source that is a directory,
/// whether or not it can be copied.
pub proof fn law_first_directory_is_settled_on(
    sources: usize,
    findings: spec_fn(int) -> Finding,
    k: usize,
    n: nat,
)
    requires
        k < sources,
        findings(k as int).is_dir,
        forall|i: int| 0 <= i < k ==> !(#[trigger] findings(i)).is_dir,
        k < n,
    ensures
        after_sources(sources, false, true, findings, n) == MigrationNeed::Done(
            if findings(k as int).copies {
                Some(k)
            } else {
                None
            },
        ),
{
    lemma_sources_passed(sources, false, findings, k as nat);
    lemma_end_stays(sources, false, findings, k as nat + 1, n);
}

/// Whether a source ends a migration.
spec fn is_decisive(insists: bool, finding: Finding) -> bool {
    if insists {
        has_data(finding) && finding.copies
    } else {
        finding.is_dir
    }
}

/// A migration reaches a source when none before it ended it.
proof fn lemma_sources_passed(
    sources: usize,
    insists: bool,
    findings: spec_fn(int) -> Finding,
    n: nat,
)
    requires
        n < sources,
        forall|i: int| 0 <= i < n ==> !is_decisive(insists, #[trigger] findings(i)),
    ensures
        after_sources(sources, insists, true, findings, n) == MigrationNeed::IsDir(n as usize),
    decreases n,
{
    if n > 0 {
        lemma_sources_passed(sources, insists, findings, (n - 1) as nat);
        assert(!is_decisive(insists, findings(n - 1)));
    }
}

/// A migration that is over stays as it is.
proof fn lemma_end_stays(
    sources: usize,
    insists: bool,
    findings: spec_fn(int) -> Finding,
    m: nat,
    n: nat,
)
    requires
        m <= n,
        after_sources(sources, insists, true, findings, m) is Done,
    ensures
        after_sources(sources, insists, true, findings, n) == after_sources(sources, insists, true, findings, m),
    decreases n,
{
    if m < n {
        lemma_end_stays(sources, insists, findings, m, (n - 1) as nat);
    }
}

/// A migration, and the folder that it fills.
pub struct Scene {
    pub need: MigrationNeed,
    pub destination: Option<Contents>,
}

/// What is found out about a source in a migration in which nothing fails. The source is
/// given by what it holds, or `None` where there is no directory.
pub open spec fn finding_of(source: Option<Contents>) -> Finding {
    Finding { is_dir: source is Some, has_entry: Some(!contents::is_bare(source)), copies: true }
}

/// A scene after all answers about a source. If the migration wanted the source copied,
/// the destination is what [`contents::law_copy_merges`] says that a copy makes of it.
pub open spec fn after_source(
    sources: Seq<Option<Contents>>,
    insists: bool,
    scene: Scene,
    i: int,
) -> Scene {
    let total = sources.len() as usize;
    let finding = finding_of(sources[i]);
    let need = migration_step(total, insists, scene.need, MigrationAnswer::IsDir(finding.is_dir));
    let need = migration_step(total, insists, need, MigrationAnswer::HasEntry(finding.has_entry));
    Scene {
        need: after_finding(total, insists, scene.need, finding),
        destination: if sources[i] is Some && need == MigrationNeed::Copy(i as usize) {
            Some(contents::merged(sources[i]->0, scene.destination))
        } else {
            scene.destination
        },
    }
}

/// The scene after the first `n` sources.
pub open spec fn scene_after(
    sources: Seq<Option<Contents>>,
    insists: bool,
    vacant: bool,
    destination: Option<Contents>,
    n: nat,
) -> Scene
    decreases n,
{
    if n == 0 {
        Scene { need: first_need(vacant, sources.len() as usize), destination }
    } else {
        after_source(sources, insists, scene_after(sources, insists, vacant, destination, (n - 1) as nat), n - 1)
    }
}

/// The destination after a migration of old data in which nothing fails.
pub open spec fn old_data_migrated(
    sources: Seq<Option<Contents>>,
    destination: Option<Contents>,
) -> Option<Contents> {
    scene_after(sources, true, contents::is_bare(destination), destination, sources.len()).destination
}

/// The destination after a migration of the Kilo Code configuration in which nothing
/// fails.
pub open spec fn kilo_migrated(
    sources: Seq<Option<Contents>>,
    destination: Option<Contents>,
) -> Option<Contents> {
    scene_after(sources, false, destination is None, destination, sources.len()).destination
}

/// Where the destination is empty, the first source that holds anything is taken over
/// whole and alone: the destination then holds what that source holds. The sources before
/// it are missing or empty, and those after it do not matter.
pub proof fn law_first_data_is_taken_over(
    sources: Seq<Option<Contents>>,
    destination: Option<Contents>,
    k: int,
)
    requires
        sources.len() <= usize::MAX,
        contents::is_bare(destination),
        0 <= k < sources.len(),
        forall|i: int| 0 <= i < k ==> contents::is_bare(#[trigger] sources[i]),
        !contents::is_bare(sources[k]),
    ensures
        old_data_migrated(sources, destination) == sources[k],
{
    lemma_bare_sources(sources, destination, k as nat);
    let after = scene_after(sources, true, true, destination, (k + 1) as nat);
    assert(sources[k] is Some);
    assert(contents::merged(sources[k]->0, destination) =~= sources[k]->0);
    assert(after.need is Done);
    lemma_scene_is_over(sources, true, destination, (k + 1) as nat, sources.len());
}

/// Where every source is missing or empty, or the destination is not empty, the
/// destination stays as it is.
pub proof fn law_nothing_to_take_over(sources: Seq<Option<Contents>>, destination: Option<Contents>)
    requires
        sources.len() <= usize::MAX,
        !contents::is_bare(destination) || forall|i: int|
            0 <= i < sources.len() ==> contents::is_bare(#[trigger] sources[i]),
    ensures
        old_data_migrated(sources, destination) == destination,
{
    if contents::is_bare(destination) {
        lemma_bare_sources(sources, destination, sources.len());
    } else {
        lemma_taken_folder_stays(sources, true, destination, sources.len());
    }
}

/// Where there is no Kilo Code configuration yet, that of the first directory is taken
/// over, an empty one too; where there is one, it stays.
pub proof fn law_first_kilo_config_is_taken_over(
    sources: Seq<Option<Contents>>,
    destination: Option<Contents>,
    k: int,
)
    requires
        sources.len() <= usize::MAX,
        0 <= k < sources.len(),
        forall|i: int| 0 <= i < k ==> #[trigger] sources[i] is None,
        sources[k] is Some,
    ensures
        kilo_migrated(sources, destination) == if destination is None {
            sources[k]
        } else {
            destination
        },
{
    if destination is None {
        lemma_missing_sources(sources, destination, k as nat);
        let after = scene_after(sources, false, true, destination, (k + 1) as nat);
        assert(contents::merged(sources[k]->0, destination) =~= sources[k]->0);
        assert(after.need is Done);
        lemma_scene_is_over(sources, false, destination, (k + 1) as nat, sources.len());
    } else {
        lemma_taken_folder_stays(sources, false, destination, sources.len());
    }
}

/// After a migration of old data in which nothing fails, a second one changes nothing at
/// the destination.
pub proof fn law_second_migration_changes_nothing(
    sources: Seq<Option<Contents>>,
    destination: Option<Contents>,
)
    requires
        sources.len() <= usize::MAX,
    ensures
        old_data_migrated(sources, old_data_migrated(sources, destination)) == old_data_migrated(
            sources,
            destination,
        ),
{
    if contents::is_bare(destination) && exists|i: int|
        0 <= i < sources.len() && !contents::is_bare(#[trigger] sources[i]) {
        let i = choose|i: int| 0 <= i < sources.len() && !contents::is_bare(#[trigger] sources[i]);
        let k = lemma_first_data(sources, i);
        law_first_data_is_taken_over(sources, destination, k);
        law_nothing_to_take_over(sources, sources[k]);
    } else {
        law_nothing_to_take_over(sources, destination);
    }
}

/// After a migration of the Kilo Code configuration in which nothing fails, a second one
/// changes nothing at the destination.
pub proof fn law_second_kilo_migration_changes_nothing(
    sources: Seq<Option<Contents>>,
    destination: Option<Contents>,
)
    requires
        sources.len() <= usize::MAX,
    ensures
        kilo_migrated(sources, kilo_migrated(sources, destination)) == kilo_migrated(sources, destination),
{
    let first = kilo_migrated(sources, destination);
    if first is Some {
        lemma_taken_folder_stays(sources, false, first, sources.len());
    } else if destination is Some {
        lemma_taken_folder_stays(sources, false, destination, sources.len());
    }
}

/// Of the sources that hold anything there is a first.
proof fn lemma_first_data(sources: Seq<Option<Contents>>, i: int) -> (k: int)
    requires
        0 <= i < sources.len(),
        !contents::is_bare(sources[i]),
    ensures
        0 <= k < sources.len(),
        !contents::is_bare(sources[k]),
        forall|j: int| 0 <= j < k ==> contents::is_bare(#[trigger] sources[j]),
    decreases i,
{
    if exists|j: int| 0 <= j < i && !contents::is_bare(#[trigger] sources[j]) {
        let j = choose|j: int| 0 <= j < i && !contents::is_bare(#[trigger] sources[j]);
        lemma_first_data(sources, j)
    } else {
        i
    }
}

/// A migration whose destination is taken leaves it as it is.
pub proof fn lemma_taken_folder_stays(
    sources: Seq<Option<Contents>>,
    insists: bool,
    destination: Option<Contents>,
    n: nat,
)
    ensures
        scene_after(sources, insists, false, destination, n) == (Scene {
            need: MigrationNeed::Done(None),
            destination,
        }),
    decreases n,
{
    if n > 0 {
        lemma_taken_folder_stays(sources, insists, destination, (n - 1) as nat);
    }
}

/// Bare sources are passed over and leave the destination as it is.
proof fn lemma_bare_sources(sources: Seq<Option<Contents>>, destination: Option<Contents>, n: nat)
    requires
        n <= sources.len() <= usize::MAX,
        forall|i: int| 0 <= i < n ==> contents::is_bare(#[trigger] sources[i]),
    ensures
        scene_after(sources, true, true, destination, n) == (Scene {
            need: if n < sources.len() {
                MigrationNeed::IsDir(n as usize)
            } else {
                MigrationNeed::Done(None)
            },
            destination,
        }),
    decreases n,
{
    if n > 0 {
        lemma_bare_sources(sources, destination, (n - 1) as nat);
        assert(contents::is_bare(sources[n - 1]));
    }
}

/// Missing sources are passed over and leave the destination as it is.
proof fn lemma_missing_sources(sources: Seq<Option<Contents>>, destination: Option<Contents>, n: nat)
    requires
        n < sources.len() <= usize::MAX,
        forall|i: int| 0 <= i < n ==> #[trigger] sources[i] is None,
    ensures
        scene_after(sources, false, true, destination, n) == (Scene {
            need: MigrationNeed::IsDir(n as usize),
            destination,
        }),
    decreases n,
{
    if n > 0 {
        lemma_missing_sources(sources, destination, (n - 1) as nat);
        assert(sources[n - 1] is None);
    }
}

/// A scene whose migration is over stays as it is.
proof fn lemma_scene_is_over(
    sources: Seq<Option<Contents>>,
    insists: bool,
    destination: Option<Contents>,
    m: nat,
    n: nat,
)
    requires
        m <= n,
        scene_after(sources, insists, true, destination, m).need is Done,
    ensures
        scene_after(sources, insists, true, destination, n) == scene_after(sources, insists, true, destination, m),
    decreases n,
{
    if m < n {
        lemma_scene_is_over(sources, insists, destination, m, (n - 1) as nat);
    }
}

/// A folder that exists does not vanish.
pub proof fn lemma_folder_remains(sources: Seq<Option<Contents>>, destination: Option<Contents>)
    ensures
        destination is Some ==> old_data_migrated(sources, destination) is Some,
{
    lemma_destination_remains(sources, contents::is_bare(destination), destination, sources.len());
}

proof fn lemma_destination_remains(
    sources: Seq<Option<Contents>>,
    vacant: bool,
    destination: Option<Contents>,
    n: nat,
)
    ensures
        destination is Some ==> scene_after(sources, true, vacant, destination, n).destination is Some,
    decreases n,
{
    if n > 0 {
        lemma_destination_remains(sources, vacant, destination, (n - 1) as nat);
    }
}

/// A migration from the first of several sources that will do.
#[derive(Debug)]
pub struct Migration {
    sources: usize,
    insists: bool,
    need: MigrationNeed,
}

impl Migration {
    /// The number of sources.
    pub closed spec fn sources(self) -> usize {
        self.sources
    }

    /// Whether a source that has no entry is passed over and one that cannot be copied is
    /// followed by the next.
    pub closed spec fn insists(self) -> bool {
        self.insists
    }

    /// What the migration waits for.
    pub closed spec fn waits_for(self) -> MigrationNeed {
        self.need
    }

    /// Begins a migration of old code-server data. `vacant` tells whether the
    /// destination is empty.
    pub fn of_old_data(vacant: bool, sources: usize) -> (migration: Migration)
        ensures
            migration.sources() == sources,
            migration.insists(),
            migration.waits_for() == first_need(vacant, sources),
    {
        Migration::begin(vacant, sources, true)
    }

    /// Begins a migration of the Kilo Code configuration. `vacant` tells whether the
    /// destination does not exist.
    pub fn of_kilo_config(vacant: bool, sources: usize) -> (migration: Migration)
        ensures
            migration.sources() == sources,
            !migration.insists(),
            migration.waits_for() == first_need(vacant, sources),
    {
        Migration::begin(vacant, sources, false)
    }

    fn begin(vacant: bool, sources: usize, insists: bool) -> (migration: Migration)
        ensures
            migration.sources() == sources,
            migration.insists() == insists,
            migration.waits_for() == first_need(vacant, sources),
    {
        let need = if vacant && sources > 0 {
            MigrationNeed::IsDir(0)
        } else {
            MigrationNeed::Done(None)
        };
        Migration { sources, insists, need }
    }

    /// What the migration waits for.
    pub fn need(&self) -> (need: MigrationNeed)
        ensures
            need == self.waits_for(),
    {
        self.need
    }

    /// Takes an answer.
    pub fn report(&mut self, answer: MigrationAnswer)
        ensures
            final(self).sources() == old(self).sources(),
            final(self).insists() == old(self).insists(),
            final(self).waits_for() == migration_step(
                old(self).sources(),
                old(self).insists(),
                old(self).waits_for(),
                answer,
            ),
    {
        match (self.need, answer) {
            (MigrationNeed::IsDir(i), MigrationAnswer::IsDir(is_dir)) => {
                self.need = if !is_dir {
                    self.after(i)
                } else if self.insists {
                    MigrationNeed::HasEntry(i)
                } else {
                    MigrationNeed::Copy(i)
                };
            },
            (MigrationNeed::HasEntry(i), MigrationAnswer::HasEntry(has_entry)) => {
                self.need = match has_entry {
                    Some(false) => self.after(i),
                    _ => MigrationNeed::Copy(i),
                };
            },
            (MigrationNeed::Copy(i), MigrationAnswer::Copied(copied)) => {
                self.need = if copied {
                    MigrationNeed::Done(Some(i))
                } else if self.insists {
                    self.after(i)
                } else {
                    MigrationNeed::Done(None)
                };
            },
            _ => {},
        }
    }

    fn after(&self, i: usize) -> (need: MigrationNeed)
        ensures
            need == next_source(self.sources(), i),
    {
        if i < self.sources && i + 1 < self.sources {
            MigrationNeed::IsDir(i + 1)
        } else {
            MigrationNeed::Done(None)
        }
    }
}

} // verus!
