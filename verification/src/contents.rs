//! What folders hold, and what a copy makes of it.

use vstd::prelude::*;

use crate::copy;
use crate::copy::{Account, Item};
use crate::tree;
use crate::tree::Tree;

verus! {

/// What stands at a path.
pub enum Thing {
    Folder,
    File(Seq<u8>),
}

/// What a folder holds: each path below it, as the names that lead there, and what stands
/// there.
pub type Contents = Map<Seq<Seq<char>>, Thing>;

/// What a folder holds, where one that does not exist holds nothing.
pub open spec fn held(folder: Option<Contents>) -> Contents {
    match folder {
        Some(contents) => contents,
        None => Map::empty(),
    }
}

/// Whether there is no folder, or one that holds nothing.
pub open spec fn is_bare(folder: Option<Contents>) -> bool {
    held(folder).dom() =~= Set::empty()
}

/// A destination after a copy in which nothing fails: what is missing came from the
/// source, and what was there stays.
pub open spec fn merged(source: Contents, destination: Option<Contents>) -> Contents {
    source.union_prefer_right(held(destination))
}

/// Whether a source has a file that is missing at the destination.
pub open spec fn has_new_file(source: Contents, destination: Option<Contents>) -> bool {
    exists|path: Seq<Seq<char>>| #[trigger]
        source.dom().contains(path) && !held(destination).dom().contains(path) && source[path] is File
}

/// Whether only folders hold something.
pub open spec fn is_nested(contents: Contents) -> bool {
    forall|outer: Seq<Seq<char>>, inner: Seq<Seq<char>>|
        0 < outer.len() < inner.len() && #[trigger] outer.is_prefix_of(inner) && contents.dom().contains(inner)
            ==> contents.dom().contains(outer) && contents[outer] is Folder
}

/// Whether an item of a copy is a path of the source, with what a file system would say
/// of it. The item stands for the path below the source and the same path below the
/// destination. A folder can be created where nothing or a folder stands.
pub open spec fn fits(
    label: Item<Seq<Seq<char>>>,
    source: Contents,
    destination: Option<Contents>,
) -> bool {
    let there = held(destination).dom().contains(label.item);
    &&& label.item.len() > 0
    &&& source.dom().contains(label.item)
    &&& label.is_dir <==> source[label.item] is Folder
    &&& !label.is_dir ==> (label.exists <==> there)
    &&& label.is_dir && there ==> held(destination)[label.item] is Folder
}

/// Whether a tree pictures a source and a destination between which everything can be
/// copied: its root is the source itself, and what lies below the root are the paths of
/// the source.
pub open spec fn pictures(
    root: Tree<Item<Seq<Seq<char>>>>,
    source: Contents,
    destination: Option<Contents>,
) -> bool {
    &&& root.label.item.len() == 0
    &&& copy::fault_of(root.label) is None
    &&& copy::is_sound(root.kids)
    &&& is_nested(source)
    &&& forall|label: Item<Seq<Seq<char>>>| #[trigger]
        tree::occurs(root.kids, label) ==> fits(label, source, destination)
    &&& forall|path: Seq<Seq<char>>| #[trigger]
        source.dom().contains(path) ==> exists|label: Item<Seq<Seq<char>>>|
            tree::occurs(root.kids, label) && label.item == path
}

/// Whether a copy makes a folder at a path: it asks to create one there or further down,
/// and a folder is created with all on the way to it.
pub open spec fn makes_folder(account: Account<Seq<Seq<char>>>, path: Seq<Seq<char>>) -> bool {
    path.len() > 0 && exists|below: Seq<Seq<char>>| #[trigger]
        account.created.contains(below) && path.is_prefix_of(below)
}

/// A destination after all that a copy asks for was done. A folder is made only where
/// nothing stands; a file takes the place of what stands.
pub open spec fn applied(
    account: Account<Seq<Seq<char>>>,
    source: Contents,
    destination: Option<Contents>,
) -> Option<Contents> {
    if destination is None && account.created.len() == 0 && account.copied.len() == 0 {
        None
    } else {
        Some(
            Map::new(
                |path: Seq<Seq<char>>|
                    account.copied.contains(path) || held(destination).dom().contains(path) || makes_folder(
                        account,
                        path,
                    ),
                |path: Seq<Seq<char>>|
                    if account.copied.contains(path) {
                        source[path]
                    } else if held(destination).dom().contains(path) {
                        held(destination)[path]
                    } else {
                        Thing::Folder
                    },
            ),
        )
    }
}

/// A copy in which nothing fails makes of its destination what [`merged`] says: what is
/// missing comes from the source, empty folders too, and what was there stays. It remarks
/// nothing, and it counts a file exactly if the source has one that was missing. The source
/// has an entry exactly if it holds anything.
pub proof fn law_copy_merges(
    root: Tree<Item<Seq<Seq<char>>>>,
    source: Contents,
    destination: Option<Contents>,
)
    requires
        pictures(root, source, destination),
    ensures
        applied(copy::account_of_copy(copy::begun(root.label.item), seq![root]), source, destination) == Some(
            merged(source, destination),
        ),
        copy::account_of_copy(copy::begun(root.label.item), seq![root]).remarks.len() == 0,
        copy::after_forest(copy::begun(root.label.item), seq![root]).refused is None,
        copy::after_forest(copy::begun(root.label.item), seq![root]).copied > 0 <==> has_new_file(
            source,
            destination,
        ),
        root.kids.len() > 0 <==> !is_bare(Some(source)),
{
    let account = copy::account_of_copy(copy::begun(root.label.item), seq![root]);
    let due = copy::due_in_forest(root.kids);
    copy::law_copy_of_root(root);
    copy::law_sound_copy_leaves_nothing_out(root.kids);
    lemma_count(root.kids);
    assert(account.created =~= seq![root.label.item] + due.created);
    assert(account.copied =~= due.copied);
    assert forall|path: Seq<Seq<char>>| #[trigger] account.created.contains(path) <==> path == root.label.item
        || folder_at(root.kids, path) by {
        lemma_due_at(root.kids, path);
        if due.created.contains(path) {
            assert(account.created[1 + due.created.index_of(path)] == path);
        }
        if path == root.label.item {
            assert(account.created[0] == path);
        }
    }
    assert forall|path: Seq<Seq<char>>| #[trigger] account.copied.contains(path) <==> missing_file_at(
        root.kids,
        path,
    ) by {
        lemma_due_at(root.kids, path);
    }
    assert forall|path: Seq<Seq<char>>| makes_folder(account, path) <==> source.dom().contains(path)
        && source[path] is Folder by {
        lemma_made_folders(root, source, destination, account, path);
    }
    assert forall|path: Seq<Seq<char>>| #[trigger] account.copied.contains(path) <==> source.dom().contains(path)
        && source[path] is File && !held(destination).dom().contains(path) by {
        if source.dom().contains(path) {
            let label = choose|label: Item<Seq<Seq<char>>>|
                tree::occurs(root.kids, label) && label.item == path;
            assert(fits(label, source, destination));
        }
    }
    assert(applied(account, source, destination)->0 =~= merged(source, destination));
    if due.copied.len() > 0 {
        assert(account.copied.contains(due.copied[0]));
    }
    if has_new_file(source, destination) {
        let path = choose|path: Seq<Seq<char>>| #[trigger]
            source.dom().contains(path) && !held(destination).dom().contains(path) && source[path] is File;
        assert(account.copied.contains(path));
    }
    if root.kids.len() > 0 {
        let first = root.kids[0];
        assert(tree::occurs_in_tree(first, first.label));
        assert(tree::occurs(root.kids, first.label));
        assert(source.dom().contains(first.label.item));
    } else {
        assert(forall|label: Item<Seq<Seq<char>>>| !tree::occurs(root.kids, label));
        assert(source.dom() =~= Set::empty());
    }
}

/// A copy that is refused, because its first directory is none or cannot be created or
/// read, brings nothing: what its destination holds stays as it is.
pub proof fn law_refused_copy_brings_nothing(
    root: Tree<Item<Seq<Seq<char>>>>,
    source: Contents,
    destination: Option<Contents>,
)
    requires
        root.label.item.len() == 0,
        copy::fault_of(root.label) is Some,
    ensures
        held(
            applied(copy::account_of_copy(copy::begun(root.label.item), seq![root]), source, destination),
        ) == held(destination),
        copy::after_forest(copy::begun(root.label.item), seq![root]).refused == copy::fault_of(root.label),
{
    let account = copy::account_of_copy(copy::begun(root.label.item), seq![root]);
    copy::law_copy_of_root(root);
    assert(account.copied =~= Seq::empty());
    assert forall|path: Seq<Seq<char>>| !makes_folder(account, path) by {
        if makes_folder(account, path) {
            let below = choose|below: Seq<Seq<char>>| #[trigger]
                account.created.contains(below) && path.is_prefix_of(below);
            assert(below.len() == 0);
        }
    }
    assert(held(applied(account, source, destination)) =~= held(destination));
}

/// The folders that a copy makes are those of the source.
proof fn lemma_made_folders(
    root: Tree<Item<Seq<Seq<char>>>>,
    source: Contents,
    destination: Option<Contents>,
    account: Account<Seq<Seq<char>>>,
    path: Seq<Seq<char>>,
)
    requires
        pictures(root, source, destination),
        forall|path: Seq<Seq<char>>| #[trigger]
            account.created.contains(path) <==> path == root.label.item || folder_at(root.kids, path),
    ensures
        makes_folder(account, path) <==> source.dom().contains(path) && source[path] is Folder,
{
    if makes_folder(account, path) {
        let below = choose|below: Seq<Seq<char>>| #[trigger]
            account.created.contains(below) && path.is_prefix_of(below);
        let label = choose|label: Item<Seq<Seq<char>>>|
            tree::occurs(root.kids, label) && label.is_dir && label.item == below;
        assert(fits(label, source, destination));
        if path.len() == below.len() {
            assert(path =~= below);
        }
    }
    if source.dom().contains(path) && source[path] is Folder {
        let label = choose|label: Item<Seq<Seq<char>>>| tree::occurs(root.kids, label) && label.item == path;
        assert(fits(label, source, destination));
        assert(folder_at(root.kids, path));
        assert(account.created.contains(path));
        assert(path.is_prefix_of(path));
    }
}

/// Whether a forest has a folder at a path.
spec fn folder_at<P>(forest: Seq<Tree<Item<P>>>, path: P) -> bool {
    exists|label: Item<P>| tree::occurs(forest, label) && label.is_dir && label.item == path
}

/// Whether a forest has a file at a path that is missing at the destination.
spec fn missing_file_at<P>(forest: Seq<Tree<Item<P>>>, path: P) -> bool {
    exists|label: Item<P>|
        tree::occurs(forest, label) && !label.is_dir && !label.exists && label.item == path
}

/// A sound copy asks for exactly the folders and the missing files.
proof fn lemma_due_at<P>(forest: Seq<Tree<Item<P>>>, path: P)
    requires
        copy::is_sound(forest),
    ensures
        copy::due_in_forest(forest).created.contains(path) <==> folder_at(forest, path),
        copy::due_in_forest(forest).copied.contains(path) <==> missing_file_at(forest, path),
    decreases forest,
{
    if forest.len() > 0 {
        let t = forest[0];
        let rest = forest.drop_first();
        assert(copy::is_sound_tree(t));
        lemma_due_at(t.kids, path);
        lemma_due_at(rest, path);
        let due = copy::due_for_item(t.label);
        let below = copy::due_in_forest(t.kids);
        let after = copy::due_in_forest(rest);
        let all = copy::due_in_forest(forest);
        assert(!t.label.is_dir ==> below == copy::no_account::<P>());
        assert(copy::due_in_tree(t) == copy::chained(due, below));
        assert(all.created =~= due.created + below.created + after.created);
        assert(all.copied =~= due.copied + below.copied + after.copied);
        copy::lemma_three_parts(due.created, below.created, after.created, path);
        copy::lemma_three_parts(due.copied, below.copied, after.copied, path);
        assert(due.created.contains(path) <==> t.label.is_dir && t.label.item == path) by {
            if t.label.is_dir {
                assert(due.created[0] == t.label.item);
            }
        }
        assert(due.copied.contains(path) <==> !t.label.is_dir && !t.label.exists && t.label.item == path) by {
            if !t.label.is_dir && !t.label.exists {
                assert(due.copied[0] == t.label.item);
            }
        }
        assert forall|label: Item<P>| #[trigger] tree::occurs(forest, label) <==> label == t.label || tree::occurs(
            t.kids,
            label,
        ) || tree::occurs(rest, label) by {
            assert(tree::occurs_in_tree(t, label) <==> label == t.label || tree::occurs(t.kids, label));
        }
        assert(tree::occurs(forest, t.label));
        if folder_at(t.kids, path) {
            let label = choose|label: Item<P>|
                tree::occurs(t.kids, label) && label.is_dir && label.item == path;
            assert(tree::occurs(forest, label));
        }
        if folder_at(rest, path) {
            let label = choose|label: Item<P>| tree::occurs(rest, label) && label.is_dir && label.item == path;
            assert(tree::occurs(forest, label));
        }
        if missing_file_at(t.kids, path) {
            let label = choose|label: Item<P>|
                tree::occurs(t.kids, label) && !label.is_dir && !label.exists && label.item == path;
            assert(tree::occurs(forest, label));
        }
        if missing_file_at(rest, path) {
            let label = choose|label: Item<P>|
                tree::occurs(rest, label) && !label.is_dir && !label.exists && label.item == path;
            assert(tree::occurs(forest, label));
        }
    }
}

/// A sound copy counts every file that it asks to copy.
proof fn lemma_count<P>(forest: Seq<Tree<Item<P>>>)
    requires
        copy::is_sound(forest),
    ensures
        copy::copied_in_forest(forest) == copy::due_in_forest(forest).copied.len(),
    decreases forest,
{
    if forest.len() > 0 {
        let t = forest[0];
        assert(copy::is_sound_tree(t));
        lemma_count(t.kids);
        lemma_count(forest.drop_first());
        assert(copy::copied_in_tree(t) == copy::due_in_tree(t).copied.len());
    }
}

} // verus!
