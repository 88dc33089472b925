//! Copying a directory and all below it.
//!
//! A copy says what to do next and takes what came of it. An item is whatever
//! names a source together with its destination. Files that already stand at their
//! destination are left alone, and what cannot be copied is passed over; only a
//! failure to open the directory with which the copy begins ends it.

use vstd::prelude::*;

use crate::queue;
use crate::text;
use crate::tree;
use crate::tree::Tree;

verus! {

/// What is to be done for an item.
#[derive(Debug, Clone, Copy, PartialEq, Eq, Structural)]
pub enum CopyStage {
    /// Tell whether the source is a directory.
    Kind,
    /// Create the destination directory and its parents.
    CreateDir,
    /// List the source directory.
    ReadDir,
    /// Tell whether the destination exists.
    Existence,
    /// Copy the source file to the destination.
    CopyFile,
}

/// What came of a [`CopyStage`].
#[derive(Debug)]
pub enum CopyAnswer<P> {
    IsDir(bool),
    DirCreated(Result<(), String>),
    Entries(Result<Vec<P>, String>),
    Exists(bool),
    FileCopied(Result<(), String>),
}

/// Why a directory cannot be copied.
#[derive(Debug)]
pub enum CopyFault {
    NotADirectory,
    NotCreated(String),
    NotReadable(String),
}

/// What a step passed over.
#[derive(Debug)]
pub enum CopyNote<P> {
    Nothing,
    FileSkipped(P, String),
    DirSkipped(P, CopyFault),
}

/// What a [`CopyAnswer`] says.
pub enum Reply<P> {
    IsDir(bool),
    DirCreated(Result<(), Seq<char>>),
    Entries(Result<Seq<P>, Seq<char>>),
    Exists(bool),
    FileCopied(Result<(), Seq<char>>),
}

/// What a [`CopyFault`] says.
pub enum Fault {
    NotADirectory,
    NotCreated(Seq<char>),
    NotReadable(Seq<char>),
}

/// What a [`CopyNote`] says.
pub enum Remark<P> {
    Nothing,
    FileSkipped(P, Seq<char>),
    DirSkipped(P, Fault),
}

/// The outcome of an action, with its reason as plain text.
pub open spec fn outcome_text(outcome: Result<(), String>) -> Result<(), Seq<char>> {
    match outcome {
        Ok(()) => Ok(()),
        Err(reason) => Err(reason@),
    }
}

impl<P> View for CopyAnswer<P> {
    type V = Reply<P>;

    open spec fn view(&self) -> Reply<P> {
        match *self {
            CopyAnswer::IsDir(yes) => Reply::IsDir(yes),
            CopyAnswer::DirCreated(outcome) => Reply::DirCreated(outcome_text(outcome)),
            CopyAnswer::Entries(Ok(items)) => Reply::Entries(Ok(items@)),
            CopyAnswer::Entries(Err(reason)) => Reply::Entries(Err(reason@)),
            CopyAnswer::Exists(yes) => Reply::Exists(yes),
            CopyAnswer::FileCopied(outcome) => Reply::FileCopied(outcome_text(outcome)),
        }
    }
}

impl View for CopyFault {
    type V = Fault;

    open spec fn view(&self) -> Fault {
        match *self {
            CopyFault::NotADirectory => Fault::NotADirectory,
            CopyFault::NotCreated(reason) => Fault::NotCreated(reason@),
            CopyFault::NotReadable(reason) => Fault::NotReadable(reason@),
        }
    }
}

impl<P> View for CopyNote<P> {
    type V = Remark<P>;

    open spec fn view(&self) -> Remark<P> {
        match *self {
            CopyNote::Nothing => Remark::Nothing,
            CopyNote::FileSkipped(item, reason) => Remark::FileSkipped(item, reason@),
            CopyNote::DirSkipped(item, fault) => Remark::DirSkipped(item, fault@),
        }
    }
}

/// Where a copy stands.
pub struct CopyState<P> {
    /// The items still to be copied. The stage is that of the first.
    pub queue: Seq<P>,
    pub stage: CopyStage,
    /// Whether the directory with which the copy began is open.
    pub inside: bool,
    /// Why it could not be opened.
    pub refused: Option<Fault>,
    /// The number of files that were copied.
    pub copied: nat,
}

/// A copy that begins with `root`.
pub open spec fn begun<P>(root: P) -> CopyState<P> {
    CopyState { queue: seq![root], stage: CopyStage::Kind, inside: false, refused: None, copied: 0 }
}

/// The same copy at another stage of the same item.
pub open spec fn at_stage<P>(state: CopyState<P>, stage: CopyStage) -> CopyState<P> {
    CopyState { stage, ..state }
}

/// The same copy at its next item.
pub open spec fn passed<P>(state: CopyState<P>) -> CopyState<P> {
    CopyState { queue: state.queue.drop_first(), stage: CopyStage::Kind, ..state }
}

/// The same copy, with the entries of its first item in that item's place.
pub open spec fn entered<P>(state: CopyState<P>, items: Seq<P>) -> CopyState<P> {
    CopyState {
        queue: items + state.queue.drop_first(),
        stage: CopyStage::Kind,
        inside: true,
        ..state
    }
}

/// What a directory that cannot be copied leads to: it is passed over, unless the
/// copy began with it.
pub open spec fn faulted<P>(state: CopyState<P>, fault: Fault) -> (CopyState<P>, Remark<P>) {
    if state.inside {
        (passed(state), Remark::DirSkipped(state.queue[0], fault))
    } else {
        (
            CopyState {
                queue: Seq::empty(),
                stage: CopyStage::Kind,
                refused: Some(fault),
                ..state
            },
            Remark::Nothing,
        )
    }
}

/// What a reply leads to. A reply to something else than the stage changes nothing.
pub open spec fn copy_step<P>(state: CopyState<P>, reply: Reply<P>) -> (CopyState<P>, Remark<P>) {
    if state.queue.len() == 0 {
        (state, Remark::Nothing)
    } else {
        match (state.stage, reply) {
            (CopyStage::Kind, Reply::IsDir(true)) => (at_stage(state, CopyStage::CreateDir), Remark::Nothing),
            (CopyStage::Kind, Reply::IsDir(false)) => if state.inside {
                (at_stage(state, CopyStage::Existence), Remark::Nothing)
            } else {
                faulted(state, Fault::NotADirectory)
            },
            (CopyStage::CreateDir, Reply::DirCreated(Ok(_))) => {
                (at_stage(state, CopyStage::ReadDir), Remark::Nothing)
            },
            (CopyStage::CreateDir, Reply::DirCreated(Err(reason))) => {
                faulted(state, Fault::NotCreated(reason))
            },
            (CopyStage::ReadDir, Reply::Entries(Ok(items))) => (entered(state, items), Remark::Nothing),
            (CopyStage::ReadDir, Reply::Entries(Err(reason))) => {
                faulted(state, Fault::NotReadable(reason))
            },
            (CopyStage::Existence, Reply::Exists(true)) => (passed(state), Remark::Nothing),
            (CopyStage::Existence, Reply::Exists(false)) => {
                (at_stage(state, CopyStage::CopyFile), Remark::Nothing)
            },
            (CopyStage::CopyFile, Reply::FileCopied(Ok(_))) => (
                CopyState { copied: state.copied + 1, ..passed(state) },
                Remark::Nothing,
            ),
            (CopyStage::CopyFile, Reply::FileCopied(Err(reason))) => {
                (passed(state), Remark::FileSkipped(state.queue[0], reason))
            },
            _ => (state, Remark::Nothing),
        }
    }
}

/// What an answer about the first item of the queue leads to, whatever that item is, however
/// many items wait behind it and however many files were copied: a directory is created and
/// then listed, and its entries take its place at the front; a file is copied exactly if it
/// is not there yet, and counted exactly if that succeeds.
pub proof fn law_items_are_copied_by_their_kind<P>(item: P, rest: Seq<P>, inside: bool, copied: nat, entries: Vec<P>)
    ensures
        ({
            let at = |stage: CopyStage| CopyState {
                queue: seq![item] + rest,
                stage,
                inside,
                refused: None::<Fault>,
                copied,
            };
            let next = CopyState { queue: rest, stage: CopyStage::Kind, inside, refused: None, copied };
            &&& copy_step(at(CopyStage::Kind), CopyAnswer::IsDir(true)@) == (
                at(CopyStage::CreateDir),
                Remark::<P>::Nothing,
            )
            &&& inside ==> copy_step(at(CopyStage::Kind), CopyAnswer::IsDir(false)@) == (
                at(CopyStage::Existence),
                Remark::<P>::Nothing,
            )
            &&& copy_step(at(CopyStage::CreateDir), CopyAnswer::DirCreated(Ok(()))@) == (
                at(CopyStage::ReadDir),
                Remark::<P>::Nothing,
            )
            &&& copy_step(at(CopyStage::ReadDir), CopyAnswer::Entries(Ok(entries))@) == (
                CopyState {
                    queue: entries@ + rest,
                    stage: CopyStage::Kind,
                    inside: true,
                    refused: None,
                    copied,
                },
                Remark::<P>::Nothing,
            )
            &&& copy_step(at(CopyStage::Existence), CopyAnswer::Exists(true)@) == (next, Remark::<P>::Nothing)
            &&& copy_step(at(CopyStage::Existence), CopyAnswer::Exists(false)@) == (
                at(CopyStage::CopyFile),
                Remark::<P>::Nothing,
            )
            &&& copy_step(at(CopyStage::CopyFile), CopyAnswer::FileCopied(Ok(()))@) == (
                CopyState { copied: copied + 1, ..next },
                Remark::<P>::Nothing,
            )
        }),
{
    assert((seq![item] + rest).drop_first() =~= rest);
}

/// What fails inside a copy is passed over and remarked with its reason, whatever that is,
/// and the rest goes on; what fails at its beginning ends it with that reason.
pub proof fn law_failures_pass_over_or_end_a_copy<P>(item: P, rest: Seq<P>, copied: nat, reason: String)
    ensures
        ({
            let at = |stage: CopyStage, inside: bool| CopyState {
                queue: seq![item] + rest,
                stage,
                inside,
                refused: None::<Fault>,
                copied,
            };
            let next = CopyState { queue: rest, stage: CopyStage::Kind, inside: true, refused: None, copied };
            let ended = |fault: Fault| CopyState {
                queue: Seq::<P>::empty(),
                stage: CopyStage::Kind,
                inside: false,
                refused: Some(fault),
                copied,
            };
            &&& copy_step(at(CopyStage::CopyFile, true), CopyAnswer::FileCopied(Err(reason))@) == (
                next,
                Remark::FileSkipped(item, reason@),
            )
            &&& copy_step(at(CopyStage::CreateDir, true), CopyAnswer::DirCreated(Err(reason))@) == (
                next,
                Remark::DirSkipped(item, Fault::NotCreated(reason@)),
            )
            &&& copy_step(at(CopyStage::ReadDir, true), CopyAnswer::Entries(Err(reason))@) == (
                next,
                Remark::DirSkipped(item, Fault::NotReadable(reason@)),
            )
            &&& copy_step(at(CopyStage::Kind, false), CopyAnswer::IsDir(false)@) == (
                ended(Fault::NotADirectory),
                Remark::<P>::Nothing,
            )
            &&& copy_step(at(CopyStage::CreateDir, false), CopyAnswer::DirCreated(Err(reason))@) == (
                ended(Fault::NotCreated(reason@)),
                Remark::<P>::Nothing,
            )
            &&& copy_step(at(CopyStage::ReadDir, false), CopyAnswer::Entries(Err(reason))@) == (
                ended(Fault::NotReadable(reason@)),
                Remark::<P>::Nothing,
            )
        }),
{
    assert((seq![item] + rest).drop_first() =~= rest);
}

/// What was not asked for changes nothing, and a copy that is over stays so.
pub proof fn law_copy_ignores_what_it_did_not_ask<P>(state: CopyState<P>, answer: CopyAnswer<P>)
    requires
        state.queue.len() == 0 || !(state.stage is Kind && answer is IsDir) && !(state.stage is CreateDir && answer
            is DirCreated) && !(state.stage is ReadDir && answer is Entries) && !(state.stage is Existence && answer
            is Exists) && !(state.stage is CopyFile && answer is FileCopied),
    ensures
        copy_step(state, answer@) == (state, Remark::<P>::Nothing),
{
}

/// A copy begins with its root, outside of it, with nothing copied and nothing refused.
pub proof fn law_copies_begin_with_their_root<P>(root: P)
    ensures
        begun(root).queue == seq![root],
        begun(root).stage == CopyStage::Kind,
        !begun(root).inside,
        begun(root).refused is None,
        begun(root).copied == 0,
{
}

/// A note and a fault say what they hold.
pub proof fn law_notes_say_what_they_hold<P>(item: P, reason: String, fault: CopyFault)
    ensures
        CopyNote::<P>::Nothing@ == Remark::<P>::Nothing,
        CopyNote::FileSkipped(item, reason)@ == Remark::FileSkipped(item, reason@),
        CopyNote::DirSkipped(item, fault)@ == Remark::DirSkipped(item, fault@),
        CopyFault::NotADirectory@ == Fault::NotADirectory,
        CopyFault::NotCreated(reason)@ == Fault::NotCreated(reason@),
        CopyFault::NotReadable(reason)@ == Fault::NotReadable(reason@),
{
}

/// A fault is told with the path that it concerns and with its reason, whatever these are.
pub proof fn law_faults_are_told(reason: String, source: Seq<char>, destination: Seq<char>)
    ensures
        CopyFault::NotADirectory.text(source, destination) == "source is not a directory: "@ + source,
        CopyFault::NotCreated(reason).text(source, destination) == "failed to create dst dir "@ + destination
            + ": "@ + reason@,
        CopyFault::NotReadable(reason).text(source, destination) == "failed to read src dir "@ + source + ": "@
            + reason@,
{
}

/// A file is copied only after its destination was found not to exist.
pub proof fn law_existing_files_stay<P>(state: CopyState<P>, reply: Reply<P>)
    requires
        state.stage != CopyStage::CopyFile,
        copy_step(state, reply).0.stage == CopyStage::CopyFile,
    ensures
        state.stage == CopyStage::Existence,
        reply == Reply::<P>::Exists(false),
        copy_step(state, reply).0.queue == state.queue,
{
}

/// An item, and what the file system says of it. The answers that do not apply to
/// it are never asked for.
pub struct Item<P> {
    pub item: P,
    pub is_dir: bool,
    pub created: Result<(), Seq<char>>,
    pub readable: Result<(), Seq<char>>,
    pub exists: bool,
    pub copies: Result<(), Seq<char>>,
}

/// The items at the roots of a forest.
pub open spec fn items<P>(forest: Seq<Tree<Item<P>>>) -> Seq<P> {
    forest.map_values(|t: Tree<Item<P>>| t.label.item)
}

/// Why a directory cannot be opened, or `None` if it can.
pub open spec fn fault_of<P>(label: Item<P>) -> Option<Fault> {
    if !label.is_dir {
        Some(Fault::NotADirectory)
    } else if label.created is Err {
        Some(Fault::NotCreated(label.created->Err_0))
    } else if label.readable is Err {
        Some(Fault::NotReadable(label.readable->Err_0))
    } else {
        None
    }
}

/// The number of files that a copy of a tree copies: those that do not stand at
/// their destination yet and can be copied, in directories that can be opened.
pub open spec fn copied_in_tree<P>(t: Tree<Item<P>>) -> nat
    decreases t,
{
    if t.label.is_dir {
        if fault_of(t.label) is None {
            copied_in_forest(t.kids)
        } else {
            0
        }
    } else if !t.label.exists && t.label.copies is Ok {
        1
    } else {
        0
    }
}

/// The number of files that a copy of a forest copies.
pub open spec fn copied_in_forest<P>(forest: Seq<Tree<Item<P>>>) -> nat
    decreases forest,
{
    if forest.len() == 0 {
        0
    } else {
        copied_in_tree(forest[0]) + copied_in_forest(forest.drop_first())
    }
}

/// What a copy does and says.
pub struct Account<P> {
    /// The directories that it asks to create, in order.
    pub created: Seq<P>,
    /// The files that it asks to copy, in order.
    pub copied: Seq<P>,
    /// Its remarks, in order.
    pub remarks: Seq<Remark<P>>,
}

/// Nothing done and nothing said.
pub open spec fn no_account<P>() -> Account<P> {
    Account { created: Seq::empty(), copied: Seq::empty(), remarks: Seq::empty() }
}

/// One account after another.
pub open spec fn chained<P>(a: Account<P>, b: Account<P>) -> Account<P> {
    Account { created: a.created + b.created, copied: a.copied + b.copied, remarks: a.remarks + b.remarks }
}

/// What is done and said with one reply: the reply to a request tells that it was made.
pub open spec fn account_of_step<P>(state: CopyState<P>, reply: Reply<P>) -> Account<P> {
    Account {
        created: if state.queue.len() > 0 && state.stage == CopyStage::CreateDir && reply is DirCreated {
            seq![state.queue[0]]
        } else {
            Seq::empty()
        },
        copied: if state.queue.len() > 0 && state.stage == CopyStage::CopyFile && reply is FileCopied {
            seq![state.queue[0]]
        } else {
            Seq::empty()
        },
        remarks: match copy_step(state, reply).1 {
            Remark::Nothing => Seq::empty(),
            remark => seq![remark],
        },
    }
}

/// All that the file system says of an item.
pub open spec fn replies<P>(t: Tree<Item<P>>) -> Seq<Reply<P>> {
    seq![
        Reply::IsDir(t.label.is_dir),
        Reply::DirCreated(t.label.created),
        Reply::Entries(
            match t.label.readable {
                Ok(_) => Ok(items(t.kids)),
                Err(reason) => Err(reason),
            },
        ),
        Reply::Exists(t.label.exists),
        Reply::FileCopied(t.label.copies),
    ]
}

/// A copy after some replies.
pub open spec fn after_replies<P>(state: CopyState<P>, replies: Seq<Reply<P>>) -> CopyState<P>
    decreases replies.len(),
{
    if replies.len() == 0 {
        state
    } else {
        after_replies(copy_step(state, replies[0]).0, replies.drop_first())
    }
}

/// What is done and said with some replies.
pub open spec fn account_of_replies<P>(state: CopyState<P>, replies: Seq<Reply<P>>) -> Account<P>
    decreases replies.len(),
{
    if replies.len() == 0 {
        no_account()
    } else {
        chained(
            account_of_step(state, replies[0]),
            account_of_replies(copy_step(state, replies[0]).0, replies.drop_first()),
        )
    }
}

/// What is left of a forest after its first item.
pub open spec fn remaining<P>(forest: Seq<Tree<Item<P>>>) -> Seq<Tree<Item<P>>> {
    if fault_of(forest[0].label) is None {
        forest[0].kids + forest.drop_first()
    } else {
        forest.drop_first()
    }
}

/// A copy after all that the file system says of a forest.
pub open spec fn after_forest<P>(state: CopyState<P>, forest: Seq<Tree<Item<P>>>) -> CopyState<P>
    decreases tree::forest_size(forest),
{
    if forest.len() == 0 {
        state
    } else {
        proof {
            tree::lemma_size_of_parts(forest);
        }
        after_forest(after_replies(state, replies(forest[0])), remaining(forest))
    }
}

/// What a copy does and says when it is told all that the file system says of a forest.
pub open spec fn account_of_copy<P>(state: CopyState<P>, forest: Seq<Tree<Item<P>>>) -> Account<P>
    decreases tree::forest_size(forest),
{
    if forest.len() == 0 {
        no_account()
    } else {
        proof {
            tree::lemma_size_of_parts(forest);
        }
        chained(
            account_of_replies(state, replies(forest[0])),
            account_of_copy(after_replies(state, replies(forest[0])), remaining(forest)),
        )
    }
}

/// What is due for one item inside a copy: a directory is created whatever it holds, a
/// file is copied if it does not stand at its destination yet, and what fails is
/// remarked.
pub open spec fn due_for_item<P>(label: Item<P>) -> Account<P> {
    if label.is_dir {
        Account {
            created: seq![label.item],
            copied: Seq::empty(),
            remarks: match fault_of(label) {
                Some(fault) => seq![Remark::DirSkipped(label.item, fault)],
                None => Seq::empty(),
            },
        }
    } else if label.exists {
        no_account()
    } else {
        Account {
            created: Seq::empty(),
            copied: seq![label.item],
            remarks: match label.copies {
                Ok(_) => Seq::empty(),
                Err(reason) => seq![Remark::FileSkipped(label.item, reason)],
            },
        }
    }
}

/// What is due for a tree: for its root, and for all below it if it can be opened.
pub open spec fn due_in_tree<P>(t: Tree<Item<P>>) -> Account<P>
    decreases t,
{
    chained(
        due_for_item(t.label),
        if fault_of(t.label) is None {
            due_in_forest(t.kids)
        } else {
            no_account()
        },
    )
}

/// What is due for a forest.
pub open spec fn due_in_forest<P>(forest: Seq<Tree<Item<P>>>) -> Account<P>
    decreases forest,
{
    if forest.len() == 0 {
        no_account()
    } else {
        chained(due_in_tree(forest[0]), due_in_forest(forest.drop_first()))
    }
}

/// A copy that is inside its first directory goes through everything that is queued and
/// all below it, and does and says exactly what is due: it creates every directory, empty
/// ones too, copies the files that are missing, remarks each failure, and counts the
/// files that could be copied.
pub proof fn law_copy_covers_everything<P>(state: CopyState<P>, forest: Seq<Tree<Item<P>>>)
    requires
        state.inside,
        state.stage == CopyStage::Kind,
        state.queue == items(forest),
    ensures
        account_of_copy(state, forest) == due_in_forest(forest),
        after_forest(state, forest) == (CopyState {
            queue: Seq::<P>::empty(),
            copied: state.copied + copied_in_forest(forest),
            ..state
        }),
    decreases tree::forest_size(forest),
{
    if forest.len() == 0 {
        assert(items(forest) =~= Seq::empty());
    } else {
        let t = forest[0];
        let rest = forest.drop_first();
        let left = remaining(forest);
        tree::lemma_size_of_parts(forest);
        lemma_replies(state, forest);
        law_copy_covers_everything(after_replies(state, replies(t)), left);
        lemma_copied_in_sum(t.kids, rest);
        lemma_due_in_sum(t.kids, rest);
        assert(copied_in_tree(t) == if t.label.is_dir {
            if fault_of(t.label) is None {
                copied_in_forest(t.kids)
            } else {
                0
            }
        } else if !t.label.exists && t.label.copies is Ok {
            1nat
        } else {
            0
        });
        let due = due_for_item(t.label);
        let below = if fault_of(t.label) is None {
            due_in_forest(t.kids)
        } else {
            no_account()
        };
        assert(due_in_tree(t) == chained(due, below));
        lemma_no_account(due_in_forest(rest));
        assert(due_in_forest(left) == chained(below, due_in_forest(rest)));
        lemma_chain(due, below, due_in_forest(rest));
    }
}

/// A copy that begins with a directory that can be opened does what is due below it. One
/// that begins with anything else copies nothing and says why. The first directory is
/// created before it is read.
pub proof fn law_copy_of_root<P>(root: Tree<Item<P>>)
    ensures
        account_of_copy(begun(root.label.item), seq![root]) == chained(
            Account {
                created: if root.label.is_dir {
                    seq![root.label.item]
                } else {
                    Seq::empty()
                },
                copied: Seq::empty(),
                remarks: Seq::empty(),
            },
            if fault_of(root.label) is None {
                due_in_forest(root.kids)
            } else {
                no_account()
            },
        ),
        after_forest(begun(root.label.item), seq![root]) == match fault_of(root.label) {
            None => CopyState {
                queue: Seq::<P>::empty(),
                stage: CopyStage::Kind,
                inside: true,
                refused: None,
                copied: copied_in_forest(root.kids),
            },
            Some(fault) => CopyState {
                queue: Seq::<P>::empty(),
                stage: CopyStage::Kind,
                inside: false,
                refused: Some(fault),
                copied: 0,
            },
        },
{
    let forest = seq![root];
    let start = begun(root.label.item);
    let next = after_replies(start, replies(root));
    lemma_five_replies(start, root);
    assert(start.queue.drop_first() =~= Seq::<P>::empty());
    assert(forest.drop_first() =~= Seq::<Tree<Item<P>>>::empty());
    assert(after_forest(start, forest) == after_forest(next, remaining(forest)));
    let first = account_of_replies(start, replies(root));
    assert(first.created =~= if root.label.is_dir {
        seq![root.label.item]
    } else {
        Seq::empty()
    });
    assert(first.copied =~= Seq::empty());
    assert(first.remarks =~= Seq::empty());
    assert(account_of_copy(start, forest) == chained(first, account_of_copy(next, remaining(forest))));
    if fault_of(root.label) is None {
        assert(remaining(forest) =~= root.kids);
        assert(items(root.kids) + Seq::<P>::empty() =~= items(root.kids));
        assert(next == entered(start, items(root.kids)));
        law_copy_covers_everything(next, root.kids);
    } else {
        assert(remaining(forest) =~= Seq::<Tree<Item<P>>>::empty());
        assert(account_of_copy(next, remaining(forest)) == no_account::<P>());
    }
}

/// Whether everything can be opened and copied.
pub open spec fn is_sound<P>(forest: Seq<Tree<Item<P>>>) -> bool
    decreases forest,
{
    forest.len() > 0 ==> is_sound_tree(forest[0]) && is_sound(forest.drop_first())
}

/// Whether everything in a tree can be opened and copied.
pub open spec fn is_sound_tree<P>(t: Tree<Item<P>>) -> bool
    decreases t,
{
    &&& t.label.is_dir ==> fault_of(t.label) is None
    &&& !t.label.is_dir ==> t.label.copies is Ok && t.kids.len() == 0
    &&& is_sound(t.kids)
}

/// All items of a forest whose labels satisfy a property.
pub open spec fn every_item<P>(forest: Seq<Tree<Item<P>>>, good: spec_fn(Item<P>) -> bool) -> bool
    decreases forest,
{
    forest.len() > 0 ==> every_item_in_tree(forest[0], good) && every_item(forest.drop_first(), good)
}

/// All items of a tree whose labels satisfy a property.
pub open spec fn every_item_in_tree<P>(t: Tree<Item<P>>, good: spec_fn(Item<P>) -> bool) -> bool
    decreases t,
{
    good(t.label) && every_item(t.kids, good)
}

/// Whether an item stands at its destination after what an account tells: as a directory
/// that was created, or as a file that stood there or was copied.
pub open spec fn is_settled<P>(label: Item<P>, account: Account<P>) -> bool {
    if label.is_dir {
        account.created.contains(label.item)
    } else {
        label.exists || account.copied.contains(label.item)
    }
}

/// Where nothing fails, a copy leaves nothing out and remarks nothing.
pub proof fn law_sound_copy_leaves_nothing_out<P>(forest: Seq<Tree<Item<P>>>)
    requires
        is_sound(forest),
    ensures
        due_in_forest(forest).remarks.len() == 0,
        every_item(forest, |label: Item<P>| is_settled(label, due_in_forest(forest))),
{
    lemma_sound_copy(forest, due_in_forest(forest));
}

/// A copy of what stands at its destination already copies no file, whatever else holds
/// of it.
pub proof fn law_second_copy_copies_nothing<P>(forest: Seq<Tree<Item<P>>>)
    requires
        every_item(forest, |label: Item<P>| label.is_dir || label.exists),
    ensures
        due_in_forest(forest).copied.len() == 0,
        copied_in_forest(forest) == 0,
    decreases forest,
{
    if forest.len() > 0 {
        let t = forest[0];
        let good = |label: Item<P>| label.is_dir || label.exists;
        assert(every_item_in_tree(t, good));
        assert(good(t.label));
        law_second_copy_copies_nothing(t.kids);
        law_second_copy_copies_nothing(forest.drop_first());
        assert(due_in_tree(t).copied.len() == 0);
        assert(copied_in_tree(t) == 0);
    }
}

proof fn lemma_sound_copy<P>(forest: Seq<Tree<Item<P>>>, account: Account<P>)
    requires
        is_sound(forest),
        forall|item: P| #[trigger] due_in_forest(forest).created.contains(item) ==> account.created.contains(item),
        forall|item: P| #[trigger] due_in_forest(forest).copied.contains(item) ==> account.copied.contains(item),
    ensures
        due_in_forest(forest).remarks.len() == 0,
        every_item(forest, |label: Item<P>| is_settled(label, account)),
    decreases forest,
{
    if forest.len() > 0 {
        let t = forest[0];
        let rest = forest.drop_first();
        let due = due_for_item(t.label);
        let below = if fault_of(t.label) is None {
            due_in_forest(t.kids)
        } else {
            no_account()
        };
        let all = due_in_forest(forest);
        assert(is_sound_tree(t));
        assert(due_in_tree(t) == chained(due, below));
        assert(all == chained(due_in_tree(t), due_in_forest(rest)));
        let after = due_in_forest(rest);
        assert(fault_of(t.label) is Some ==> due_in_forest(t.kids) == no_account::<P>());
        assert forall|item: P|
            due_in_forest(t.kids).created.contains(item) || after.created.contains(item) implies account.created.contains(
            item,
        ) by {
            lemma_three_parts(due.created, below.created, after.created, item);
            assert(due_in_forest(forest).created.contains(item));
        }
        assert forall|item: P|
            due_in_forest(t.kids).copied.contains(item) || after.copied.contains(item) implies account.copied.contains(
            item,
        ) by {
            lemma_three_parts(due.copied, below.copied, after.copied, item);
            assert(due_in_forest(forest).copied.contains(item));
        }
        lemma_sound_copy(t.kids, account);
        lemma_sound_copy(rest, account);
        lemma_three_parts(due.created, below.created, after.created, t.label.item);
        lemma_three_parts(due.copied, below.copied, after.copied, t.label.item);
        let good = |label: Item<P>| is_settled(label, account);
        if t.label.is_dir {
            assert(due.created[0] == t.label.item);
            assert(due_in_forest(forest).created.contains(t.label.item));
        } else if !t.label.exists {
            assert(due.copied[0] == t.label.item);
            assert(due_in_forest(forest).copied.contains(t.label.item));
        }
        assert(good(t.label));
        assert(every_item_in_tree(t, good));
    }
}

proof fn lemma_contains_either<A>(a: Seq<A>, b: Seq<A>, x: A)
    ensures
        (a + b).contains(x) <==> a.contains(x) || b.contains(x),
{
    if a.contains(x) {
        assert((a + b)[a.index_of(x)] == x);
    }
    if b.contains(x) {
        assert((a + b)[a.len() + b.index_of(x)] == x);
    }
}

/// What is in three sequences one after another is in one of them.
pub proof fn lemma_three_parts<A>(a: Seq<A>, b: Seq<A>, c: Seq<A>, x: A)
    ensures
        (a + b + c).contains(x) <==> a.contains(x) || b.contains(x) || c.contains(x),
{
    lemma_contains_either(a, b, x);
    lemma_contains_either(a + b, c, x);
}

proof fn lemma_five_replies<P>(state: CopyState<P>, t: Tree<Item<P>>)
    ensures
        ({
            let r = replies(t);
            let s1 = copy_step(state, r[0]).0;
            let s2 = copy_step(s1, r[1]).0;
            let s3 = copy_step(s2, r[2]).0;
            let s4 = copy_step(s3, r[3]).0;
            let s5 = copy_step(s4, r[4]).0;
            &&& after_replies(state, r) == s5
            &&& account_of_replies(state, r) == chained(
                account_of_step(state, r[0]),
                chained(
                    account_of_step(s1, r[1]),
                    chained(
                        account_of_step(s2, r[2]),
                        chained(account_of_step(s3, r[3]), account_of_step(s4, r[4])),
                    ),
                ),
            )
        }),
{
    let r = replies(t);
    let s1 = copy_step(state, r[0]).0;
    let s2 = copy_step(s1, r[1]).0;
    let s3 = copy_step(s2, r[2]).0;
    let s4 = copy_step(s3, r[3]).0;
    let r1 = r.drop_first();
    let r2 = r1.drop_first();
    let r3 = r2.drop_first();
    let r4 = r3.drop_first();
    let r5 = r4.drop_first();
    assert(r1[0] == r[1] && r2[0] == r[2] && r3[0] == r[3] && r4[0] == r[4] && r5.len() == 0);
    assert(after_replies(state, r) == after_replies(s1, r1));
    assert(after_replies(s1, r1) == after_replies(s2, r2));
    assert(after_replies(s2, r2) == after_replies(s3, r3));
    assert(after_replies(s3, r3) == after_replies(s4, r4));
    let s5 = copy_step(s4, r[4]).0;
    assert(after_replies(s4, r4) == after_replies(s5, r5));
    assert(account_of_replies(s5, r5) == no_account::<P>());
    assert(account_of_replies(s4, r4) == chained(account_of_step(s4, r[4]), no_account()));
    lemma_no_account(account_of_step(s4, r[4]));
    assert(account_of_replies(s3, r3) == chained(account_of_step(s3, r[3]), account_of_replies(s4, r4)));
    assert(account_of_replies(s2, r2) == chained(account_of_step(s2, r[2]), account_of_replies(s3, r3)));
    assert(account_of_replies(s1, r1) == chained(account_of_step(s1, r[1]), account_of_replies(s2, r2)));
}

/// What all replies about its first item do to a copy that is inside its first directory.
proof fn lemma_replies<P>(state: CopyState<P>, forest: Seq<Tree<Item<P>>>)
    requires
        forest.len() > 0,
        state.inside,
        state.stage == CopyStage::Kind,
        state.queue == items(forest),
    ensures
        account_of_replies(state, replies(forest[0])) == due_for_item(forest[0].label),
        after_replies(state, replies(forest[0])) == (CopyState {
            queue: items(remaining(forest)),
            copied: state.copied + if !forest[0].label.is_dir && !forest[0].label.exists
                && forest[0].label.copies is Ok {
                1nat
            } else {
                0nat
            },
            ..state
        }),
{
    let t = forest[0];
    let rest = forest.drop_first();
    assert(items(forest).drop_first() =~= items(rest));
    assert(items(t.kids) + items(rest) =~= items(t.kids + rest));
    assert(state.queue[0] == t.label.item);
    lemma_five_replies(state, t);
    let account = account_of_replies(state, replies(t));
    let due = due_for_item(t.label);
    assert(account.created =~= due.created);
    assert(account.copied =~= due.copied);
    assert(account.remarks =~= due.remarks);
}

proof fn lemma_no_account<P>(a: Account<P>)
    ensures
        chained(no_account(), a) == a,
        chained(a, no_account()) == a,
{
    assert(chained(no_account(), a).created =~= a.created);
    assert(chained(no_account(), a).copied =~= a.copied);
    assert(chained(no_account(), a).remarks =~= a.remarks);
    assert(chained(a, no_account()).created =~= a.created);
    assert(chained(a, no_account()).copied =~= a.copied);
    assert(chained(a, no_account()).remarks =~= a.remarks);
}

proof fn lemma_chain<P>(a: Account<P>, b: Account<P>, c: Account<P>)
    ensures
        chained(chained(a, b), c) == chained(a, chained(b, c)),
{
    assert(chained(chained(a, b), c).created =~= chained(a, chained(b, c)).created);
    assert(chained(chained(a, b), c).copied =~= chained(a, chained(b, c)).copied);
    assert(chained(chained(a, b), c).remarks =~= chained(a, chained(b, c)).remarks);
}

proof fn lemma_due_in_sum<P>(a: Seq<Tree<Item<P>>>, b: Seq<Tree<Item<P>>>)
    ensures
        due_in_forest(a + b) == chained(due_in_forest(a), due_in_forest(b)),
    decreases a.len(),
{
    if a.len() == 0 {
        assert(a + b =~= b);
        lemma_no_account(due_in_forest(b));
    } else {
        assert((a + b).drop_first() =~= a.drop_first() + b);
        lemma_due_in_sum(a.drop_first(), b);
        lemma_chain(due_in_tree(a[0]), due_in_forest(a.drop_first()), due_in_forest(b));
    }
}

proof fn lemma_copied_in_sum<P>(a: Seq<Tree<Item<P>>>, b: Seq<Tree<Item<P>>>)
    ensures
        copied_in_forest(a + b) == copied_in_forest(a) + copied_in_forest(b),
    decreases a.len(),
{
    if a.len() == 0 {
        assert(a + b =~= b);
    } else {
        assert((a + b).drop_first() =~= a.drop_first() + b);
        lemma_copied_in_sum(a.drop_first(), b);
    }
}

impl CopyFault {
    /// The fault in words, for a source and a destination as they are to be shown.
    pub open spec fn text(self, source: Seq<char>, destination: Seq<char>) -> Seq<char> {
        match self {
            CopyFault::NotADirectory => "source is not a directory: "@ + source,
            CopyFault::NotCreated(reason) => {
                "failed to create dst dir "@ + destination + ": "@ + reason@
            },
            CopyFault::NotReadable(reason) => "failed to read src dir "@ + source + ": "@ + reason@,
        }
    }

    /// Puts the fault in words, for a source and a destination as they are to be shown.
    pub fn message(&self, source: &str, destination: &str) -> (s: String)
        ensures
            s@ == self.text(source@, destination@),
    {
        match self {
            CopyFault::NotADirectory => text::joined("source is not a directory: ", source),
            CopyFault::NotCreated(reason) => {
                let mut s = text::joined("failed to create dst dir ", destination);
                s.append(": ");
                s.append(reason.as_str());
                s
            },
            CopyFault::NotReadable(reason) => {
                let mut s = text::joined("failed to read src dir ", source);
                s.append(": ");
                s.append(reason.as_str());
                s
            },
        }
    }
}

/// A copy under way.
#[derive(Debug)]
pub struct CopyRun<P> {
    /// The items still to be copied, the next one last.
    pending: Vec<P>,
    stage: CopyStage,
    inside: bool,
    refused: Option<CopyFault>,
    copied: u64,
}

impl<P> CopyRun<P> {
    /// Where the copy stands.
    pub closed spec fn state(self) -> CopyState<P> {
        CopyState {
            queue: self.pending@.reverse(),
            stage: self.stage,
            inside: self.inside,
            refused: match self.refused {
                Some(fault) => Some(fault@),
                None => None,
            },
            copied: self.copied as nat,
        }
    }

    /// Begins a copy of the directory `root`.
    pub fn new(root: P) -> (run: CopyRun<P>)
        ensures
            run.state() == begun(root),
    {
        let mut pending: Vec<P> = Vec::new();
        pending.push(root);
        let run = CopyRun { pending, stage: CopyStage::Kind, inside: false, refused: None, copied: 0 };
        proof {
            assert(run.pending@.reverse() =~= seq![root]);
        }
        run
    }

    /// What to do next, and for which item. `None` when the copy is over.
    pub fn next(&self) -> (task: Option<(CopyStage, &P)>)
        ensures
            match task {
                Some((stage, item)) => {
                    &&& self.state().queue.len() > 0
                    &&& stage == self.state().stage
                    &&& *item == self.state().queue[0]
                },
                None => self.state().queue.len() == 0,
            },
    {
        let count: usize = self.pending.len();
        if count == 0 {
            None
        } else {
            Some((self.stage, &self.pending[count - 1]))
        }
    }

    /// The number of files copied so far, or why the first directory could not be
    /// opened.
    pub fn result(&self) -> (res: Result<u64, &CopyFault>)
        ensures
            match res {
                Ok(copied) => self.state().refused is None && copied == self.state().copied,
                Err(fault) => self.state().refused == Some(fault@),
            },
    {
        match &self.refused {
            Some(fault) => Err(fault),
            None => Ok(self.copied),
        }
    }

    /// Takes what came of [`CopyRun::next`]. The number of copied files must not
    /// outgrow its type.
    pub fn report(&mut self, answer: CopyAnswer<P>) -> (note: CopyNote<P>)
        requires
            copy_step(old(self).state(), answer@).0.copied <= u64::MAX,
        ensures
            (final(self).state(), note@) == copy_step(old(self).state(), answer@),
    {
        let ghost before = self.state();
        let item = match self.pending.pop() {
            Some(item) => item,
            None => {
                return CopyNote::Nothing;
            },
        };
        let ghost rest = self.pending@.reverse();
        proof {
            assert(before.queue.drop_first() =~= rest);
            assert(seq![item] + rest =~= before.queue);
        }
        match (self.stage, answer) {
            (CopyStage::Kind, CopyAnswer::IsDir(is_dir)) => {
                if is_dir {
                    self.keep(item, CopyStage::CreateDir);
                    CopyNote::Nothing
                } else if self.inside {
                    self.keep(item, CopyStage::Existence);
                    CopyNote::Nothing
                } else {
                    self.fail(item, CopyFault::NotADirectory)
                }
            },
            (CopyStage::CreateDir, CopyAnswer::DirCreated(Ok(_))) => {
                self.keep(item, CopyStage::ReadDir);
                CopyNote::Nothing
            },
            (CopyStage::CreateDir, CopyAnswer::DirCreated(Err(reason))) => {
                self.fail(item, CopyFault::NotCreated(reason))
            },
            (CopyStage::ReadDir, CopyAnswer::Entries(Ok(entries))) => {
                queue::put_in_front(&mut self.pending, entries);
                self.stage = CopyStage::Kind;
                self.inside = true;
                CopyNote::Nothing
            },
            (CopyStage::ReadDir, CopyAnswer::Entries(Err(reason))) => {
                self.fail(item, CopyFault::NotReadable(reason))
            },
            (CopyStage::Existence, CopyAnswer::Exists(exists)) => {
                if exists {
                    self.stage = CopyStage::Kind;
                } else {
                    self.keep(item, CopyStage::CopyFile);
                }
                CopyNote::Nothing
            },
            (CopyStage::CopyFile, CopyAnswer::FileCopied(Ok(_))) => {
                self.stage = CopyStage::Kind;
                self.copied = self.copied + 1;
                CopyNote::Nothing
            },
            (CopyStage::CopyFile, CopyAnswer::FileCopied(Err(reason))) => {
                self.stage = CopyStage::Kind;
                CopyNote::FileSkipped(item, reason)
            },
            _ => {
                let stage = self.stage;
                self.keep(item, stage);
                CopyNote::Nothing
            },
        }
    }

    /// Puts an item back at the front, at a stage.
    fn keep(&mut self, item: P, stage: CopyStage)
        ensures
            final(self).state() == (CopyState {
                queue: seq![item] + old(self).state().queue,
                stage,
                ..old(self).state()
            }),
    {
        let ghost queue = self.pending@.reverse();
        self.pending.push(item);
        self.stage = stage;
        proof {
            assert(self.pending@.reverse() =~= seq![item] + queue);
        }
    }

    /// Passes over a directory that cannot be copied, or gives up if the copy began
    /// with it. The directory is no longer queued.
    fn fail(&mut self, item: P, fault: CopyFault) -> (note: CopyNote<P>)
        ensures
            (final(self).state(), note@) == faulted(
                CopyState { queue: seq![item] + old(self).state().queue, ..old(self).state() },
                fault@,
            ),
    {
        proof {
            assert((seq![item] + self.state().queue).drop_first() =~= self.state().queue);
        }
        self.stage = CopyStage::Kind;
        if self.inside {
            CopyNote::DirSkipped(item, fault)
        } else {
            self.pending.clear();
            self.refused = Some(fault);
            proof {
                assert(self.pending@.reverse() =~= Seq::empty());
            }
            CopyNote::Nothing
        }
    }
}

} // verus!
