//! The search for a file by its name, in a directory and all below it.
//!
//! The search says which path to look at next and takes what was seen there. It
//! goes through a directory in the order of its listing, and through each
//! subdirectory where it stands in that order.

use vstd::prelude::*;

use crate::queue;
use crate::tree;
use crate::tree::Tree;

verus! {

/// A path and the name under which its directory lists it. A name that is not
/// Unicode is `None`, and so is that of the directory in which a search begins.
#[derive(Debug)]
pub struct Spot<P> {
    pub path: P,
    pub name: Option<String>,
}

/// What a [`Spot`] says.
pub struct Place<P> {
    pub path: P,
    pub name: Option<Seq<char>>,
}

impl<P> View for Spot<P> {
    type V = Place<P>;

    open spec fn view(&self) -> Place<P> {
        Place {
            path: self.path,
            name: match self.name {
                Some(name) => Some(name@),
                None => None,
            },
        }
    }
}

/// What was seen at a path: a directory with its entries (none if it cannot be
/// read), or no directory.
#[derive(Debug)]
pub enum Sight<P> {
    Directory(Vec<Spot<P>>),
    Other,
}

/// The places that a listing names.
pub open spec fn places<P>(spots: Seq<Spot<P>>) -> Seq<Place<P>> {
    spots.map_values(|spot: Spot<P>| spot@)
}

/// The entries that were seen, or `None` where there is no directory.
pub open spec fn entries<P>(sight: Sight<P>) -> Option<Seq<Place<P>>> {
    match sight {
        Sight::Directory(spots) => Some(places(spots@)),
        Sight::Other => None,
    }
}

/// The places still to look at, and the file once it is found.
pub struct Progress<P> {
    pub queue: Seq<Place<P>>,
    pub found: Option<P>,
}

/// What looking at the first place of the queue leads to: the entries of a
/// directory come next, a file is found or passed over.
pub open spec fn search_step<P>(wanted: Seq<char>, queue: Seq<Place<P>>, seen: Option<Seq<Place<P>>>) -> Progress<P> {
    if queue.len() == 0 {
        Progress { queue, found: None }
    } else {
        match seen {
            Some(entries) => Progress { queue: entries + queue.drop_first(), found: None },
            None => if queue[0].name == Some(wanted) {
                Progress { queue: Seq::empty(), found: Some(queue[0].path) }
            } else {
                Progress { queue: queue.drop_first(), found: None }
            },
        }
    }
}

/// What is seen at the first place of the queue leads on by what it is alone, whatever the
/// place and the places behind it are: the entries of a directory take its place at the
/// front, whatever its name; a file is found, and ends the search, exactly if its name is
/// the wanted one, character by character.
pub proof fn law_places_are_judged_by_name<P>(
    wanted: Seq<char>,
    path: P,
    name: Option<Seq<char>>,
    rest: Seq<Place<P>>,
    spots: Vec<Spot<P>>,
)
    ensures
        ({
            let queue = seq![Place { path, name }] + rest;
            let inside = search_step(wanted, queue, entries(Sight::Directory(spots)));
            let other = search_step(wanted, queue, entries(Sight::<P>::Other));
            &&& inside.found is None
            &&& inside.queue == places(spots@) + rest
            &&& other.found == Some(path) <==> name == Some(wanted)
            &&& other.found is Some <==> name == Some(wanted)
            &&& name == Some(wanted) ==> other.queue.len() == 0
            &&& name != Some(wanted) ==> other.queue == rest
        }),
{
    assert((seq![Place { path, name }] + rest).drop_first() =~= rest);
}

/// A listing names the places that its entries stand for, in order, each with its path and
/// its name; and a search that is over finds nothing more.
pub proof fn law_listings_say_what_they_hold<P>(wanted: Seq<char>, spots: Seq<Spot<P>>, sight: Sight<P>, i: int)
    ensures
        places(spots).len() == spots.len(),
        0 <= i < spots.len() ==> places(spots)[i].path == spots[i].path,
        0 <= i < spots.len() ==> match spots[i].name {
            Some(name) => places(spots)[i].name == Some(name@),
            None => places(spots)[i].name is None,
        },
        search_step(wanted, Seq::<Place<P>>::empty(), entries(sight)) == (Progress {
            queue: Seq::<Place<P>>::empty(),
            found: None::<P>,
        }),
{
}

/// A place, and whether a directory stands there.
pub struct Site<P> {
    pub place: Place<P>,
    pub is_dir: bool,
}

/// The places at the roots of a forest.
pub open spec fn roots<P>(forest: Seq<Tree<Site<P>>>) -> Seq<Place<P>> {
    forest.map_values(|t: Tree<Site<P>>| t.label.place)
}

/// What is seen at the root of a tree.
pub open spec fn seen_at<P>(t: Tree<Site<P>>) -> Option<Seq<Place<P>>> {
    if t.label.is_dir {
        Some(roots(t.kids))
    } else {
        None
    }
}

/// The first file of a tree with the wanted name, in the order of the listings.
pub open spec fn first_in_tree<P>(wanted: Seq<char>, t: Tree<Site<P>>) -> Option<P>
    decreases t,
{
    if t.label.is_dir {
        first_in_forest(wanted, t.kids)
    } else if t.label.place.name == Some(wanted) {
        Some(t.label.place.path)
    } else {
        None
    }
}

/// The first file of a forest with the wanted name.
pub open spec fn first_in_forest<P>(wanted: Seq<char>, forest: Seq<Tree<Site<P>>>) -> Option<P>
    decreases forest,
{
    if forest.len() == 0 {
        None
    } else {
        match first_in_tree(wanted, forest[0]) {
            Some(path) => Some(path),
            None => first_in_forest(wanted, forest.drop_first()),
        }
    }
}

/// Whether a tree has a file with the wanted name.
pub open spec fn tree_has<P>(wanted: Seq<char>, t: Tree<Site<P>>) -> bool
    decreases t,
{
    if t.label.is_dir {
        forest_has(wanted, t.kids)
    } else {
        t.label.place.name == Some(wanted)
    }
}

/// Whether a forest has a file with the wanted name.
pub open spec fn forest_has<P>(wanted: Seq<char>, forest: Seq<Tree<Site<P>>>) -> bool
    decreases forest,
{
    forest.len() > 0 && (tree_has(wanted, forest[0]) || forest_has(wanted, forest.drop_first()))
}

/// What is left of a forest when its first root has been looked at.
pub open spec fn remaining<P>(forest: Seq<Tree<Site<P>>>) -> Seq<Tree<Site<P>>> {
    if forest[0].label.is_dir {
        forest[0].kids + forest.drop_first()
    } else {
        forest.drop_first()
    }
}

/// The end of a search that still has the roots of a forest to look at.
pub open spec fn search_forest<P>(wanted: Seq<char>, forest: Seq<Tree<Site<P>>>) -> Option<P>
    decreases tree::forest_size(forest),
{
    if forest.len() == 0 {
        None
    } else {
        proof {
            tree::lemma_size_of_parts(forest);
        }
        match search_step(wanted, roots(forest), seen_at(forest[0])).found {
            Some(path) => Some(path),
            None => search_forest(wanted, remaining(forest)),
        }
    }
}

/// While nothing is found, the queue of a search holds the roots of what is left.
pub proof fn law_queue_holds_what_is_left<P>(wanted: Seq<char>, forest: Seq<Tree<Site<P>>>)
    requires
        forest.len() > 0,
        search_step(wanted, roots(forest), seen_at(forest[0])).found is None,
    ensures
        search_step(wanted, roots(forest), seen_at(forest[0])).queue == roots(remaining(forest)),
{
    assert(roots(forest).drop_first() =~= roots(forest.drop_first()));
    assert(roots(forest[0].kids) + roots(forest.drop_first()) =~= roots(
        forest[0].kids + forest.drop_first(),
    ));
}

/// A search finds the first file with the wanted name, depth first and in the
/// order of the listings, if there is one.
pub proof fn law_search_finds_first_file<P>(wanted: Seq<char>, forest: Seq<Tree<Site<P>>>)
    ensures
        search_forest(wanted, forest) == first_in_forest(wanted, forest),
    decreases tree::forest_size(forest),
{
    if forest.len() > 0 {
        let kids = forest[0].kids;
        let rest = forest.drop_first();
        tree::lemma_size_of_parts(forest);
        law_search_finds_first_file(wanted, remaining(forest));
        lemma_first_in_sum(wanted, kids, rest);
        assert(roots(forest)[0] == forest[0].label.place);
        assert(first_in_tree(wanted, forest[0]) == if forest[0].label.is_dir {
            first_in_forest(wanted, kids)
        } else if forest[0].label.place.name == Some(wanted) {
            Some(forest[0].label.place.path)
        } else {
            None
        });
    }
}

/// A search finds nothing only where no file has the wanted name.
pub proof fn law_search_misses_no_file<P>(wanted: Seq<char>, forest: Seq<Tree<Site<P>>>)
    ensures
        search_forest(wanted, forest) is Some <==> forest_has(wanted, forest),
{
    law_search_finds_first_file(wanted, forest);
    lemma_first_exists(wanted, forest);
}

proof fn lemma_first_exists<P>(wanted: Seq<char>, forest: Seq<Tree<Site<P>>>)
    ensures
        first_in_forest(wanted, forest) is Some <==> forest_has(wanted, forest),
    decreases forest,
{
    if forest.len() > 0 {
        let t = forest[0];
        lemma_first_exists(wanted, t.kids);
        lemma_first_exists(wanted, forest.drop_first());
        assert(tree_has(wanted, t) <==> first_in_tree(wanted, t) is Some);
    }
}

proof fn lemma_first_in_sum<P>(wanted: Seq<char>, a: Seq<Tree<Site<P>>>, b: Seq<Tree<Site<P>>>)
    ensures
        first_in_forest(wanted, a + b) == match first_in_forest(wanted, a) {
            Some(path) => Some(path),
            None => first_in_forest(wanted, b),
        },
    decreases a.len(),
{
    if a.len() == 0 {
        assert(a + b =~= b);
    } else {
        assert((a + b).drop_first() =~= a.drop_first() + b);
        lemma_first_in_sum(wanted, a.drop_first(), b);
    }
}

/// A search under way.
#[derive(Debug)]
pub struct Search<P> {
    wanted: String,
    /// The places still to look at, the next one last.
    pending: Vec<Spot<P>>,
}

impl<P> Search<P> {
    /// The name that is searched for.
    pub closed spec fn wanted(self) -> Seq<char> {
        self.wanted@
    }

    /// The places still to look at, the next one first.
    pub closed spec fn queue(self) -> Seq<Place<P>> {
        places(self.pending@.reverse())
    }

    /// Begins a search for the file `wanted` in the directory `dir`.
    pub fn new(dir: P, wanted: String) -> (search: Search<P>)
        ensures
            search.wanted() == wanted@,
            search.queue() == seq![Place { path: dir, name: None::<Seq<char>> }],
    {
        let mut pending: Vec<Spot<P>> = Vec::new();
        pending.push(Spot { path: dir, name: None });
        let search = Search { wanted, pending };
        proof {
            assert(search.queue() =~= seq![Place { path: dir, name: None::<Seq<char>> }]);
        }
        search
    }

    /// The path to look at next, or `None` when the search is over.
    pub fn next(&self) -> (path: Option<&P>)
        ensures
            match path {
                Some(path) => self.queue().len() > 0 && *path == self.queue()[0].path,
                None => self.queue().len() == 0,
            },
    {
        let count: usize = self.pending.len();
        if count == 0 {
            None
        } else {
            Some(&self.pending[count - 1].path)
        }
    }

    /// Takes what was seen at the path of [`Search::next`]. Returns that path if
    /// it is the file, which ends the search.
    pub fn report(&mut self, sight: Sight<P>) -> (found: Option<P>)
        ensures
            final(self).wanted() == old(self).wanted(),
            (Progress { queue: final(self).queue(), found }) == search_step(
                old(self).wanted(),
                old(self).queue(),
                entries(sight),
            ),
    {
        let ghost before = self.pending@;
        let spot = match self.pending.pop() {
            Some(spot) => spot,
            None => {
                return None;
            },
        };
        proof {
            assert(before.reverse().drop_first() =~= self.pending@.reverse());
            assert(places(before.reverse()).drop_first() =~= self.queue());
        }
        match sight {
            Sight::Directory(spots) => {
                let ghost rest = self.pending@.reverse();
                queue::put_in_front(&mut self.pending, spots);
                proof {
                    assert(places(spots@ + rest) =~= places(spots@) + places(rest));
                }
                None
            },
            Sight::Other => {
                let named = match spot.name {
                    Some(name) => name == self.wanted,
                    None => false,
                };
                if named {
                    self.pending.clear();
                    proof {
                        assert(self.queue() =~= Seq::empty());
                    }
                    Some(spot.path)
                } else {
                    None
                }
            },
        }
    }
}

} // verus!
