//! Facts about sequences that the laws of the bridge rest on.

use vstd::prelude::*;
use vstd::seq_lib::*;

verus! {

/// In the concatenation of groups, the group at `at` stands right behind the
/// groups before it and right before the groups after it.
pub proof fn lemma_flatten_splits_at<A>(groups: Seq<Seq<A>>, at: int)
    requires
        0 <= at < groups.len(),
    ensures
        groups.flatten() == groups.take(at).flatten() + groups[at] + groups.skip(at + 1).flatten(),
        groups.take(at + 1).flatten() == groups.take(at).flatten() + groups[at],
{
    let before = groups.take(at);
    let upto = groups.take(at + 1);
    let after = groups.skip(at + 1);
    assert(upto =~= before.push(groups[at]));
    before.lemma_flatten_push(groups[at]);
    assert(groups =~= upto + after);
    lemma_flatten_concat(upto, after);
}

/// Every position of the concatenation of groups lies in one of the groups.
pub proof fn lemma_flatten_position<A>(groups: Seq<Seq<A>>, position: int) -> (found: (int, int))
    requires
        0 <= position < groups.flatten().len(),
    ensures
        0 <= found.0 < groups.len(),
        0 <= found.1 < groups[found.0].len(),
        position == groups.take(found.0).flatten().len() + found.1,
        groups.flatten()[position] == groups[found.0][found.1],
    decreases groups.len(),
{
    if groups.len() == 0 {
        (0, 0)
    } else {
        let last = groups.len() - 1;
        lemma_flatten_splits_at(groups, last);
        let before = groups.take(last).flatten().len();
        if position >= before {
            (last, position - before)
        } else {
            let found = lemma_flatten_position(groups.take(last), position);
            assert(groups.take(last).take(found.0) =~= groups.take(found.0));
            found
        }
    }
}

/// Two sequences that hold the same items as often hold, after the same
/// function has been applied to each item, the same results as often.
pub proof fn lemma_map_values_keeps_multiset<A, B>(
    first: Seq<A>,
    second: Seq<A>,
    f: spec_fn(A) -> B,
)
    requires
        first.to_multiset() == second.to_multiset(),
    ensures
        first.map_values(f).to_multiset() == second.map_values(f).to_multiset(),
    decreases first.len(),
{
    broadcast use {to_multiset_len, to_multiset_contains};

    assert(first.len() == second.len()) by {
        assert(first.to_multiset().len() == first.len());
        assert(second.to_multiset().len() == second.len());
    }
    if first.len() > 0 {
        let item = first.last();
        let shorter = first.drop_last();
        assert(first =~= shorter.push(item));
        to_multiset_build(shorter, item);
        assert(first.to_multiset().count(item) > 0);
        assert(second.contains(item));
        let at = choose|at: int| 0 <= at < second.len() && second[at] == item;
        let others = second.remove(at);
        to_multiset_remove(second, at);
        assert(shorter.to_multiset() =~= first.to_multiset().remove(item));
        lemma_map_values_keeps_multiset(shorter, others, f);
        assert(first.map_values(f) =~= shorter.map_values(f).push(f(item)));
        to_multiset_build(shorter.map_values(f), f(item));
        assert(second.map_values(f) =~= others.map_values(f).insert(at, f(item)));
        to_multiset_insert(others.map_values(f), at, f(item));
    }
}

} // verus!
