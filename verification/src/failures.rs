//! Which failure ends a piece of work that is done item by item, in order,
//! and stops at the first item that fails.

use vstd::prelude::*;

verus! {

/// Whether `index` is the position of the first item that fails, where
/// `failures` holds for each item its failure, if any.
pub open spec fn is_first_failure(failures: Seq<Option<Seq<char>>>, index: int) -> bool {
    &&& 0 <= index < failures.len()
    &&& failures[index] is Some
    &&& forall|earlier: int| 0 <= earlier < index ==> failures[earlier] is None
}

/// The failure of the first item that fails; `None` where no item fails.
pub open spec fn first_failure(failures: Seq<Option<Seq<char>>>) -> Option<Seq<char>> {
    if exists|index: int| is_first_failure(failures, index) {
        failures[choose|index: int| is_first_failure(failures, index)]
    } else {
        None
    }
}

/// The first item that fails is unique, so its failure is the first one.
pub proof fn lemma_first_failure_at(failures: Seq<Option<Seq<char>>>, index: int)
    requires
        is_first_failure(failures, index),
    ensures
        first_failure(failures) == failures[index],
{
}

/// Without a first failure, no item fails.
pub proof fn lemma_none_fails(failures: Seq<Option<Seq<char>>>)
    requires
        first_failure(failures) is None,
    ensures
        forall|index: int| 0 <= index < failures.len() ==> failures[index] is None,
{
    if exists|index: int| 0 <= index < failures.len() && failures[index] is Some {
        let index = choose|index: int| 0 <= index < failures.len() && failures[index] is Some;
        lemma_least_failure(failures, index);
    }
}

/// At or below any item that fails there is a first one.
proof fn lemma_least_failure(failures: Seq<Option<Seq<char>>>, index: int)
    requires
        0 <= index < failures.len(),
        failures[index] is Some,
    ensures
        exists|first: int| is_first_failure(failures, first),
    decreases index,
{
    if exists|earlier: int| 0 <= earlier < index && failures[earlier] is Some {
        let earlier = choose|earlier: int| 0 <= earlier < index && failures[earlier] is Some;
        lemma_least_failure(failures, earlier);
    } else {
        assert(is_first_failure(failures, index));
    }
}

} // verus!
