//! Finite trees, the mathematical picture of a directory and all below it.

use vstd::prelude::*;

verus! {

/// A node with its children in order.
pub struct Tree<T> {
    pub label: T,
    pub kids: Seq<Tree<T>>,
}

/// The number of nodes of a tree.
pub open spec fn tree_size<T>(tree: Tree<T>) -> nat
    decreases tree,
{
    1 + forest_size(tree.kids)
}

/// The number of nodes of a forest.
pub open spec fn forest_size<T>(forest: Seq<Tree<T>>) -> nat
    decreases forest,
{
    if forest.len() == 0 {
        0
    } else {
        tree_size(forest[0]) + forest_size(forest.drop_first())
    }
}

/// Whether a label occurs in a tree.
pub open spec fn occurs_in_tree<T>(tree: Tree<T>, label: T) -> bool
    decreases tree,
{
    tree.label == label || occurs(tree.kids, label)
}

/// Whether a label occurs in a forest.
pub open spec fn occurs<T>(forest: Seq<Tree<T>>, label: T) -> bool
    decreases forest,
{
    forest.len() > 0 && (occurs_in_tree(forest[0], label) || occurs(forest.drop_first(), label))
}

/// A forest consists of its first root, what is below that, and the other trees.
pub proof fn lemma_size_of_parts<T>(forest: Seq<Tree<T>>)
    requires
        forest.len() > 0,
    ensures
        forest_size(forest) == 1 + forest_size(forest[0].kids) + forest_size(forest.drop_first()),
        forest_size(forest[0].kids + forest.drop_first()) < forest_size(forest),
        forest_size(forest.drop_first()) < forest_size(forest),
{
    assert(tree_size(forest[0]) == 1 + forest_size(forest[0].kids));
    lemma_size_of_sum(forest[0].kids, forest.drop_first());
}

/// Two forests side by side have the nodes of both.
pub proof fn lemma_size_of_sum<T>(a: Seq<Tree<T>>, b: Seq<Tree<T>>)
    ensures
        forest_size(a + b) == forest_size(a) + forest_size(b),
    decreases a.len(),
{
    if a.len() == 0 {
        assert(a + b =~= b);
    } else {
        assert((a + b).drop_first() =~= a.drop_first() + b);
        lemma_size_of_sum(a.drop_first(), b);
    }
}

} // verus!
