//! A whole pass over a tree, as a model.
//!
//! The tree is taken as the set of places that hold a regular file, each
//! place written as the names that lead to it from the root. A pass carries
//! out the decision for every file in it.

use vstd::prelude::*;

use crate::organizer::{
    destination, file_at, is_move, lemma_second_decision_moves_nothing, outcome,
};

verus! {

/// The places that hold a file after a pass over `tree`.
pub open spec fn organized(tree: Set<Seq<Seq<char>>>) -> Set<Seq<Seq<char>>> {
    Set::new(
        |place: Seq<Seq<char>>|
            exists|from: Seq<Seq<char>>| #[trigger]
                tree.contains(from) && destination(file_at(from)) == place,
    )
}

/// After a pass a file that had to move is found where it belongs, and no
/// file is left at the place it moved from.
pub proof fn lemma_moved_file_leaves_its_place(
    tree: Set<Seq<Seq<char>>>,
    location: Seq<Seq<char>>,
)
    requires
        tree.contains(location),
        is_move(outcome(file_at(location))),
    ensures
        organized(tree).contains(destination(file_at(location))),
        !organized(tree).contains(location),
{
    if organized(tree).contains(location) {
        let from = choose|from: Seq<Seq<char>>| #[trigger]
            tree.contains(from) && destination(file_at(from)) == location;
        lemma_second_decision_moves_nothing(file_at(from));
    }
}

/// A pass leaves a file that has no reason to move where it was.
pub proof fn lemma_other_files_keep_their_place(
    tree: Set<Seq<Seq<char>>>,
    location: Seq<Seq<char>>,
)
    requires
        tree.contains(location),
        !is_move(outcome(file_at(location))),
    ensures
        organized(tree).contains(location),
{
}

/// After a pass every file is where it belongs: a second pass moves none.
pub proof fn lemma_second_pass_moves_nothing(tree: Set<Seq<Seq<char>>>, place: Seq<Seq<char>>)
    requires
        organized(tree).contains(place),
    ensures
        !is_move(outcome(file_at(place))),
        destination(file_at(place)) == place,
{
    let from = choose|from: Seq<Seq<char>>| #[trigger]
        tree.contains(from) && destination(file_at(from)) == place;
    lemma_second_decision_moves_nothing(file_at(from));
}

/// A second pass leaves the tree as the first pass left it.
pub proof fn lemma_pass_is_idempotent(tree: Set<Seq<Seq<char>>>)
    ensures
        organized(organized(tree)) == organized(tree),
{
    let once = organized(tree);
    let twice = organized(once);
    assert forall|place: Seq<Seq<char>>| twice.contains(place) implies once.contains(place) by {
        let from = choose|from: Seq<Seq<char>>| #[trigger]
            once.contains(from) && destination(file_at(from)) == place;
        lemma_second_pass_moves_nothing(tree, from);
    }
    assert forall|place: Seq<Seq<char>>| once.contains(place) implies twice.contains(place) by {
        lemma_second_pass_moves_nothing(tree, place);
        assert(once.contains(place) && destination(file_at(place)) == place);
    }
    assert(twice =~= once);
}

} // verus!
