//! Finding the bundled Node.js and the entry script of code-server.
//!
//! Both lie below the resource directory. The entry script has two usual places; if
//! it is in neither, the whole code-server folder is searched for it.

use vstd::prelude::*;

use crate::layout;
use crate::paths;
use crate::paths::{PlainForm, PlainPath};
use crate::text;

verus! {

/// The name of the entry script.
pub const ENTRY_SCRIPT: &'static str = "entry.js";

/// How many usual places the entry script has.
pub const ENTRY_PLACES: usize = 2;

/// The way from the resource directory to Node.js.
pub open spec fn node_names() -> Seq<Seq<char>> {
    seq!["binaries"@, "node.exe"@]
}

/// The way from the resource directory to the code-server folder.
pub open spec fn server_names() -> Seq<Seq<char>> {
    seq!["binaries"@, "code-server"@]
}

/// The way from the code-server folder to a usual place of the entry script.
pub open spec fn entry_names(place: usize) -> Seq<Seq<char>> {
    if place == 0 {
        seq!["node_modules"@, "code-server"@, "out"@, "node"@, "entry.js"@]
    } else {
        seq!["out"@, "node"@, "entry.js"@]
    }
}

/// The way from the resource directory to Node.js.
pub fn node_parts() -> (parts: Vec<&'static str>)
    ensures
        layout::names(parts@) == node_names(),
{
    let parts = vec!["binaries", "node.exe"];
    proof {
        assert(layout::names(parts@) =~= node_names());
    }
    parts
}

/// The way from the resource directory to the code-server folder.
pub fn server_parts() -> (parts: Vec<&'static str>)
    ensures
        layout::names(parts@) == server_names(),
{
    let parts = vec!["binaries", "code-server"];
    proof {
        assert(layout::names(parts@) =~= server_names());
    }
    parts
}

/// The way from the code-server folder to a usual place of the entry script.
pub fn entry_parts(place: usize) -> (parts: Vec<&'static str>)
    ensures
        layout::names(parts@) == entry_names(place),
{
    let parts = if place == 0 {
        vec!["node_modules", "code-server", "out", "node", "entry.js"]
    } else {
        vec!["out", "node", "entry.js"]
    };
    proof {
        assert(layout::names(parts@) =~= entry_names(place));
    }
    parts
}

/// What is said where there is no resource directory.
pub open spec fn no_resource_dir_text(reason: Seq<char>) -> Seq<char> {
    "failed to resolve resource dir: "@ + reason
}

/// What is said ends with the reason, whole, whatever that is, and begins alike for every
/// reason.
pub proof fn law_missing_resource_dir_tells_its_reason(reason: Seq<char>)
    ensures
        no_resource_dir_text(reason).take(32) == "failed to resolve resource dir: "@,
        no_resource_dir_text(reason).skip(32) == reason,
{
    reveal_strlit("failed to resolve resource dir: ");
    assert(no_resource_dir_text(reason).take(32) =~= "failed to resolve resource dir: "@);
    assert(no_resource_dir_text(reason).skip(32) =~= reason);
}

/// Says why there is no resource directory.
pub fn no_resource_dir(reason: &str) -> (message: String)
    ensures
        message@ == no_resource_dir_text(reason@),
        message@ == "failed to resolve resource dir: "@ + reason@,
{
    text::joined("failed to resolve resource dir: ", reason)
}

/// An entry script: at one of its usual places, or where the search found it.
#[derive(Debug)]
pub enum Entry<P> {
    Usual(usize),
    Searched(P),
}

/// What is to be found out.
#[derive(Debug)]
pub enum SidecarNeed<'a, P> {
    /// Tell whether Node.js exists.
    NodeExists,
    /// Give the canonical path of Node.js.
    NodeCanonical,
    /// Tell whether a usual place of the entry script exists.
    EntryExists(usize),
    /// Search the code-server folder for the entry script.
    SearchEntry,
    /// Give the canonical path of the entry script.
    EntryCanonical(&'a Entry<P>),
    /// Nothing: both were found.
    Found(&'a PlainPath<P>, &'a PlainPath<P>),
    /// Nothing: one of them is missing, and this is why.
    Failed(&'a String),
}

/// An answer to a [`SidecarNeed`].
#[derive(Debug)]
pub enum SidecarAnswer<P> {
    Exists(bool),
    /// A canonical path and how it reads, or why there is none.
    Canonical(Result<(P, String), String>),
    Searched(Option<P>),
}

/// What a [`SidecarAnswer`] says.
pub enum Finding<P> {
    Exists(bool),
    Canonical(Result<(P, Seq<char>), Seq<char>>),
    Searched(Option<P>),
}

impl<P> View for SidecarAnswer<P> {
    type V = Finding<P>;

    open spec fn view(&self) -> Finding<P> {
        match *self {
            SidecarAnswer::Exists(yes) => Finding::Exists(yes),
            SidecarAnswer::Canonical(Ok((path, text))) => Finding::Canonical(Ok((path, text@))),
            SidecarAnswer::Canonical(Err(reason)) => Finding::Canonical(Err(reason@)),
            SidecarAnswer::Searched(found) => Finding::Searched(found),
        }
    }
}

/// How far the finding has come.
pub enum SidecarState<P> {
    NodeExists,
    NodeCanonical,
    EntryExists(PlainForm<P>, usize),
    SearchEntry(PlainForm<P>),
    EntryCanonical(PlainForm<P>, Entry<P>),
    Found(PlainForm<P>, PlainForm<P>),
    Failed(Seq<char>),
}

/// What the user is told when the entry script is missing in a folder.
pub open spec fn no_entry_text(folder: Seq<char>) -> Seq<char> {
    "code-server entry.js not found under "@ + folder
        + ". Check that the code-server npm package was installed correctly."@
}

/// What an answer leads to, for Node.js and the code-server folder as they are to be
/// shown. An answer to something else than the need changes nothing.
pub open spec fn sidecar_step<P>(
    node: Seq<char>,
    folder: Seq<char>,
    state: SidecarState<P>,
    finding: Finding<P>,
) -> SidecarState<P> {
    match (state, finding) {
        (SidecarState::NodeExists, Finding::Exists(yes)) => if yes {
            SidecarState::NodeCanonical
        } else {
            SidecarState::Failed("node.exe not found at "@ + node)
        },
        (SidecarState::NodeCanonical, Finding::Canonical(Ok((path, text)))) => {
            SidecarState::EntryExists(paths::plain_form(path, text), 0)
        },
        (SidecarState::NodeCanonical, Finding::Canonical(Err(reason))) => {
            SidecarState::Failed("failed to canonicalize node.exe path: "@ + reason)
        },
        (SidecarState::EntryExists(exe, place), Finding::Exists(yes)) => if yes {
            SidecarState::EntryCanonical(exe, Entry::Usual(place))
        } else if place + 1 < ENTRY_PLACES {
            SidecarState::EntryExists(exe, (place + 1) as usize)
        } else {
            SidecarState::SearchEntry(exe)
        },
        (SidecarState::SearchEntry(exe), Finding::Searched(found)) => match found {
            Some(path) => SidecarState::EntryCanonical(exe, Entry::Searched(path)),
            None => SidecarState::Failed(no_entry_text(folder)),
        },
        (SidecarState::EntryCanonical(exe, _), Finding::Canonical(Ok((path, text)))) => {
            SidecarState::Found(exe, paths::plain_form(path, text))
        },
        (SidecarState::EntryCanonical(_, _), Finding::Canonical(Err(reason))) => {
            SidecarState::Failed("failed to canonicalize entry.js path: "@ + reason)
        },
        _ => state,
    }
}

/// What the file system says.
#[verifier::reject_recursive_types(P)]
pub struct Installation<P> {
    pub node_exists: bool,
    pub node_canonical: Result<(P, Seq<char>), Seq<char>>,
    pub entry_exists: spec_fn(usize) -> bool,
    pub searched: Option<P>,
    pub entry_canonical: spec_fn(Entry<P>) -> Result<(P, Seq<char>), Seq<char>>,
}

/// The entry script of an installation: the first usual place where it exists, or else
/// what the search finds.
pub open spec fn entry_of<P>(installation: Installation<P>) -> Option<Entry<P>> {
    if (installation.entry_exists)(0) {
        Some(Entry::Usual(0))
    } else if (installation.entry_exists)(1) {
        Some(Entry::Usual(1))
    } else {
        match installation.searched {
            Some(path) => Some(Entry::Searched(path)),
            None => None,
        }
    }
}

/// How the finding ends when it is told what the file system says.
pub open spec fn resolved<P>(node: Seq<char>, folder: Seq<char>, installation: Installation<P>) -> SidecarState<P> {
    let state = SidecarState::NodeExists;
    let state = sidecar_step(node, folder, state, Finding::Exists(installation.node_exists));
    let state = sidecar_step(node, folder, state, Finding::Canonical(installation.node_canonical));
    let state = sidecar_step(node, folder, state, Finding::Exists((installation.entry_exists)(0)));
    let state = sidecar_step(node, folder, state, Finding::Exists((installation.entry_exists)(1)));
    let state = sidecar_step(node, folder, state, Finding::Searched(installation.searched));
    match state {
        SidecarState::EntryCanonical(_, entry) => sidecar_step(
            node,
            folder,
            state,
            Finding::Canonical((installation.entry_canonical)(entry)),
        ),
        _ => state,
    }
}

/// Both are found, without verbatim prefixes, exactly where Node.js exists, the entry
/// script is in a usual place or the search finds it, and both have canonical paths;
/// the first thing that is missing is the reason of a failure.
pub proof fn law_sidecar_is_resolved<P>(node: Seq<char>, folder: Seq<char>, installation: Installation<P>)
    ensures
        resolved(node, folder, installation) == if !installation.node_exists {
            SidecarState::Failed("node.exe not found at "@ + node)
        } else {
            match installation.node_canonical {
                Err(reason) => SidecarState::Failed("failed to canonicalize node.exe path: "@ + reason),
                Ok((exe, exe_text)) => match entry_of(installation) {
                    None => SidecarState::Failed(no_entry_text(folder)),
                    Some(entry) => match (installation.entry_canonical)(entry) {
                        Err(reason) => {
                            SidecarState::Failed("failed to canonicalize entry.js path: "@ + reason)
                        },
                        Ok((path, text)) => SidecarState::Found(
                            paths::plain_form(exe, exe_text),
                            paths::plain_form(path, text),
                        ),
                    },
                },
            }
        },
{
}

/// Both are found where everything is there, and then as they read without the verbatim
/// prefix: of paths that read with it, the texts after it; of others, the paths themselves.
pub proof fn law_sidecar_is_found_plain<P>(
    node: Seq<char>,
    folder: Seq<char>,
    installation: Installation<P>,
    exe: P,
    exe_rest: Seq<char>,
    script: P,
    script_rest: Seq<char>,
)
    requires
        installation.node_exists,
        (installation.entry_exists)(0) || (installation.entry_exists)(1) || installation.searched is Some,
        installation.node_canonical == Ok::<(P, Seq<char>), Seq<char>>(
            (exe, seq!['\\', '\\', '?', '\\'] + exe_rest),
        ),
        forall|entry: Entry<P>| #[trigger]
            (installation.entry_canonical)(entry) == Ok::<(P, Seq<char>), Seq<char>>(
                (script, seq!['\\', '\\', '?', '\\'] + script_rest),
            ),
    ensures
        resolved(node, folder, installation) == SidecarState::Found(
            PlainForm::<P>::Text(exe_rest),
            PlainForm::<P>::Text(script_rest),
        ),
{
    paths::law_verbatim_paths_lose_their_prefix(exe, exe_rest);
    paths::law_verbatim_paths_lose_their_prefix(script, script_rest);
}

/// The entry script is the one in the first usual place if it is there, else the one in the
/// second, else the one that the search finds.
pub proof fn law_usual_places_come_first<P>(installation: Installation<P>, path: P)
    ensures
        (installation.entry_exists)(0) ==> entry_of(installation) == Some(Entry::<P>::Usual(0)),
        !(installation.entry_exists)(0) && (installation.entry_exists)(1) ==> entry_of(installation) == Some(
            Entry::<P>::Usual(1),
        ),
        !(installation.entry_exists)(0) && !(installation.entry_exists)(1) && installation.searched == Some(path)
            ==> entry_of(installation) == Some(Entry::Searched(path)),
        !(installation.entry_exists)(0) && !(installation.entry_exists)(1) && installation.searched is None
            ==> entry_of(installation) is None,
{
}

/// Each answer leads on by what it says alone. What is missing is told with the path or the
/// reason, whatever that is; a path that was found is kept, and it is stripped when its
/// canonical form is known.
pub proof fn law_sidecar_answers_lead_on<P>(
    node: Seq<char>,
    folder: Seq<char>,
    exe: PlainForm<P>,
    entry: Entry<P>,
    path: P,
    text: String,
    reason: String,
)
    ensures
        sidecar_step(node, folder, SidecarState::<P>::NodeExists, SidecarAnswer::Exists(true)@)
            == SidecarState::<P>::NodeCanonical,
        sidecar_step(node, folder, SidecarState::<P>::NodeExists, SidecarAnswer::Exists(false)@)
            == SidecarState::<P>::Failed("node.exe not found at "@ + node),
        sidecar_step(
            node,
            folder,
            SidecarState::NodeCanonical,
            SidecarAnswer::Canonical(Ok((path, text)))@,
        ) == SidecarState::EntryExists(paths::plain_form(path, text@), 0),
        sidecar_step(
            node,
            folder,
            SidecarState::<P>::NodeCanonical,
            SidecarAnswer::Canonical(Err(reason))@,
        ) == SidecarState::<P>::Failed("failed to canonicalize node.exe path: "@ + reason@),
        sidecar_step(node, folder, SidecarState::EntryExists(exe, 0), SidecarAnswer::Exists(true)@)
            == SidecarState::EntryCanonical(exe, Entry::Usual(0)),
        sidecar_step(node, folder, SidecarState::EntryExists(exe, 0), SidecarAnswer::Exists(false)@)
            == SidecarState::EntryExists(exe, 1),
        sidecar_step(node, folder, SidecarState::EntryExists(exe, 1), SidecarAnswer::Exists(true)@)
            == SidecarState::EntryCanonical(exe, Entry::Usual(1)),
        sidecar_step(node, folder, SidecarState::EntryExists(exe, 1), SidecarAnswer::Exists(false)@)
            == SidecarState::SearchEntry(exe),
        sidecar_step(node, folder, SidecarState::SearchEntry(exe), SidecarAnswer::Searched(Some(path))@)
            == SidecarState::EntryCanonical(exe, Entry::Searched(path)),
        sidecar_step(node, folder, SidecarState::SearchEntry(exe), SidecarAnswer::Searched(None)@)
            == SidecarState::<P>::Failed(
            "code-server entry.js not found under "@ + folder
                + ". Check that the code-server npm package was installed correctly."@,
        ),
        sidecar_step(
            node,
            folder,
            SidecarState::EntryCanonical(exe, entry),
            SidecarAnswer::Canonical(Ok((path, text)))@,
        ) == SidecarState::Found(exe, paths::plain_form(path, text@)),
        sidecar_step(
            node,
            folder,
            SidecarState::EntryCanonical(exe, entry),
            SidecarAnswer::Canonical(Err(reason))@,
        ) == SidecarState::<P>::Failed("failed to canonicalize entry.js path: "@ + reason@),
{
}

/// What was not asked for changes nothing, and a finding that is over stays so.
pub proof fn law_sidecar_ignores_what_it_did_not_ask<P>(
    node: Seq<char>,
    folder: Seq<char>,
    state: SidecarState<P>,
    answer: SidecarAnswer<P>,
)
    requires
        !((state is NodeExists || state is EntryExists) && answer is Exists),
        !((state is NodeCanonical || state is EntryCanonical) && answer is Canonical),
        !(state is SearchEntry && answer is Searched),
    ensures
        sidecar_step(node, folder, state, answer@) == state,
{
}

/// The file that is searched for is the one that lies in the usual places.
pub proof fn law_search_is_for_the_entry_script(place: usize)
    ensures
        entry_names(place).last() == ENTRY_SCRIPT@,
        ENTRY_SCRIPT@ == "entry.js"@,
        ENTRY_PLACES == 2,
{
}

/// Node.js and code-server lie in the folder `binaries`; the entry script lies in `out` and
/// `node` below the package, and the package either is the code-server folder or is
/// installed there.
pub proof fn law_sidecar_places()
    ensures
        node_names() == seq!["binaries"@, "node.exe"@],
        server_names() == seq!["binaries"@, "code-server"@],
        entry_names(1) == seq!["out"@, "node"@, "entry.js"@],
        entry_names(0) == seq!["node_modules"@, "code-server"@] + entry_names(1),
{
    assert(entry_names(0) =~= seq!["node_modules"@, "code-server"@] + entry_names(1));
}

#[derive(Debug)]
enum Stage<P> {
    NodeExists,
    NodeCanonical,
    EntryExists(PlainPath<P>, usize),
    SearchEntry(PlainPath<P>),
    EntryCanonical(PlainPath<P>, Entry<P>),
    Found(PlainPath<P>, PlainPath<P>),
    Failed(String),
}

/// The finding of Node.js and the entry script.
#[derive(Debug)]
pub struct Sidecar<P> {
    node: String,
    folder: String,
    stage: Stage<P>,
}

impl<P> Sidecar<P> {
    /// How Node.js is to be shown.
    pub closed spec fn node(self) -> Seq<char> {
        self.node@
    }

    /// How the code-server folder is to be shown.
    pub closed spec fn folder(self) -> Seq<char> {
        self.folder@
    }

    /// How far the finding has come.
    pub closed spec fn state(self) -> SidecarState<P> {
        match self.stage {
            Stage::NodeExists => SidecarState::NodeExists,
            Stage::NodeCanonical => SidecarState::NodeCanonical,
            Stage::EntryExists(exe, place) => SidecarState::EntryExists(exe@, place),
            Stage::SearchEntry(exe) => SidecarState::SearchEntry(exe@),
            Stage::EntryCanonical(exe, entry) => SidecarState::EntryCanonical(exe@, entry),
            Stage::Found(exe, script) => SidecarState::Found(exe@, script@),
            Stage::Failed(reason) => SidecarState::Failed(reason@),
        }
    }

    /// Begins the finding, for Node.js and the code-server folder as they are to be
    /// shown.
    pub fn new(node: String, folder: String) -> (sidecar: Sidecar<P>)
        ensures
            sidecar.node() == node@,
            sidecar.folder() == folder@,
            sidecar.state() == SidecarState::<P>::NodeExists,
    {
        Sidecar { node, folder, stage: Stage::NodeExists }
    }

    /// What is to be found out.
    pub fn need(&self) -> (need: SidecarNeed<'_, P>)
        ensures
            match (need, self.state()) {
                (SidecarNeed::NodeExists, SidecarState::NodeExists) => true,
                (SidecarNeed::NodeCanonical, SidecarState::NodeCanonical) => true,
                (SidecarNeed::EntryExists(place), SidecarState::EntryExists(_, other)) => place == other,
                (SidecarNeed::SearchEntry, SidecarState::SearchEntry(_)) => true,
                (SidecarNeed::EntryCanonical(entry), SidecarState::EntryCanonical(_, other)) => {
                    *entry == other
                },
                (SidecarNeed::Found(exe, script), SidecarState::Found(exe_form, script_form)) => {
                    exe@ == exe_form && script@ == script_form
                },
                (SidecarNeed::Failed(reason), SidecarState::Failed(text)) => reason@ == text,
                _ => false,
            },
    {
        match &self.stage {
            Stage::NodeExists => SidecarNeed::NodeExists,
            Stage::NodeCanonical => SidecarNeed::NodeCanonical,
            Stage::EntryExists(_, place) => SidecarNeed::EntryExists(*place),
            Stage::SearchEntry(_) => SidecarNeed::SearchEntry,
            Stage::EntryCanonical(_, entry) => SidecarNeed::EntryCanonical(entry),
            Stage::Found(exe, script) => SidecarNeed::Found(exe, script),
            Stage::Failed(reason) => SidecarNeed::Failed(reason),
        }
    }

    /// Takes an answer.
    pub fn report(self, answer: SidecarAnswer<P>) -> (next: Sidecar<P>)
        ensures
            next.node() == self.node(),
            next.folder() == self.folder(),
            next.state() == sidecar_step(self.node(), self.folder(), self.state(), answer@),
    {
        let Sidecar { node, folder, stage } = self;
        let stage = match (stage, answer) {
            (Stage::NodeExists, SidecarAnswer::Exists(yes)) => if yes {
                Stage::NodeCanonical
            } else {
                Stage::Failed(text::joined("node.exe not found at ", node.as_str()))
            },
            (Stage::NodeCanonical, SidecarAnswer::Canonical(Ok((path, text)))) => {
                Stage::EntryExists(paths::plain_path(path, text.as_str()), 0)
            },
            (Stage::NodeCanonical, SidecarAnswer::Canonical(Err(reason))) => {
                Stage::Failed(text::joined("failed to canonicalize node.exe path: ", reason.as_str()))
            },
            (Stage::EntryExists(exe, place), SidecarAnswer::Exists(yes)) => if yes {
                Stage::EntryCanonical(exe, Entry::Usual(place))
            } else if place < ENTRY_PLACES && place + 1 < ENTRY_PLACES {
                Stage::EntryExists(exe, place + 1)
            } else {
                Stage::SearchEntry(exe)
            },
            (Stage::SearchEntry(exe), SidecarAnswer::Searched(Some(path))) => {
                Stage::EntryCanonical(exe, Entry::Searched(path))
            },
            (Stage::SearchEntry(_), SidecarAnswer::Searched(None)) => {
                let mut reason = text::joined("code-server entry.js not found under ", folder.as_str());
                reason.append(". Check that the code-server npm package was installed correctly.");
                Stage::Failed(reason)
            },
            (Stage::EntryCanonical(exe, _), SidecarAnswer::Canonical(Ok((path, text)))) => {
                Stage::Found(exe, paths::plain_path(path, text.as_str()))
            },
            (Stage::EntryCanonical(_, _), SidecarAnswer::Canonical(Err(reason))) => {
                Stage::Failed(text::joined("failed to canonicalize entry.js path: ", reason.as_str()))
            },
            (stage, _) => stage,
        };
        Sidecar { node, folder, stage }
    }
}

} // verus!
