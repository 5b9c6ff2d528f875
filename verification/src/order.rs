//! The order in which the outcomes of earlier blocks are confirmed.

use vstd::prelude::*;

use crate::bytes::views;
use crate::types::{BlockState, BlockStateView};

verus! {

/// The outcomes of one height, in the order in which they stand in `states`.
pub open spec fn at_height(states: Seq<BlockStateView>, height: u64) -> Seq<BlockStateView> {
    states.filter(|s: BlockStateView| s.height == height)
}

/// Heights never fall along `states`.
pub open spec fn rising(states: Seq<BlockStateView>) -> bool {
    forall|i: int, j: int| 0 <= i <= j < states.len() ==> states[i].height <= states[j].height
}

/// `ordered` holds the outcomes of `states` by rising height, those of one height in the order in
/// which they stood.
pub open spec fn is_height_order(states: Seq<BlockStateView>, ordered: Seq<BlockStateView>) -> bool {
    &&& rising(ordered)
    &&& forall|height: u64| #[trigger] at_height(ordered, height) == at_height(states, height)
}

/// `states` by rising height, the outcomes of one height in the order in which they stand.
pub open spec fn in_height_order(states: Seq<BlockStateView>) -> Seq<BlockStateView> {
    choose|ordered: Seq<BlockStateView>| is_height_order(states, ordered)
}

/// An outcome stands in the part of its own height.
proof fn lemma_at_own_height(states: Seq<BlockStateView>, i: int)
    requires
        0 <= i < states.len(),
    ensures
        at_height(states, states[i].height).contains(states[i]),
{
    let height = states[i].height;
    let pred = |s: BlockStateView| s.height == height;
    states.lemma_filter_contains(pred, i);
}

/// The part of one height holds outcomes of the whole, all of that height.
proof fn lemma_at_height_within(states: Seq<BlockStateView>, height: u64, i: int)
    requires
        0 <= i < at_height(states, height).len(),
    ensures
        at_height(states, height)[i].height == height,
        states.contains(at_height(states, height)[i]),
    decreases states.len(),
{
    reveal(Seq::filter);
    let rest = states.drop_last();
    let part = at_height(states, height);
    if states.last().height == height && i == part.len() - 1 {
        assert(states.contains(states.last()));
    } else {
        lemma_at_height_within(rest, height, i);
        assert(part[i] == at_height(rest, height)[i]);
        let k = choose|k: int| 0 <= k < rest.len() && rest[k] == part[i];
        assert(states[k] == part[i]);
    }
}

/// The outcomes of every height, each in its order, determine the whole by rising height.
pub proof fn height_order_is_unique(
    states: Seq<BlockStateView>,
    left: Seq<BlockStateView>,
    right: Seq<BlockStateView>,
)
    requires
        is_height_order(states, left),
        is_height_order(states, right),
    ensures
        left == right,
    decreases left.len() + right.len(),
{
    if left.len() == 0 && right.len() == 0 {
        assert(left =~= right);
    } else if left.len() == 0 {
        lemma_at_own_height(right, 0);
        let h = right[0].height;
        assert(at_height(left, h) == at_height(right, h));
        reveal(Seq::filter);
        assert(false);
    } else if right.len() == 0 {
        lemma_at_own_height(left, 0);
        let h = left[0].height;
        assert(at_height(left, h) == at_height(right, h));
        reveal(Seq::filter);
        assert(false);
    } else {
        let h = left.last().height;
        let g = right.last().height;
        lemma_has_height(left, right);
        lemma_has_height(right, left);
        assert(h == g);
        assert(at_height(left, h) == at_height(right, h));
        reveal(Seq::filter);
        assert(at_height(left, h).last() == left.last());
        assert(at_height(right, h).last() == right.last());
        let l = left.drop_last();
        let r = right.drop_last();
        assert forall|k: u64| #[trigger] at_height(l, k) == at_height(r, k) by {
            assert(at_height(left, k) == at_height(right, k));
            if k == h {
                assert(at_height(l, k) =~= at_height(left, k).drop_last());
                assert(at_height(r, k) =~= at_height(right, k).drop_last());
            }
        }
        assert(is_height_order(l, l));
        assert(is_height_order(l, r));
        height_order_is_unique(l, l, r);
        assert(left =~= l.push(left.last()));
        assert(right =~= r.push(right.last()));
    }
}

/// The greatest height of one sequence is not above that of another with the same parts.
proof fn lemma_has_height(left: Seq<BlockStateView>, right: Seq<BlockStateView>)
    requires
        left.len() > 0,
        right.len() > 0,
        rising(right),
        forall|height: u64| #[trigger] at_height(left, height) == at_height(right, height),
    ensures
        left.last().height <= right.last().height,
{
    lemma_at_own_height(left, left.len() - 1);
    let h = left.last().height;
    assert(at_height(left, h) == at_height(right, h));
    let i = choose|i: int| 0 <= i < at_height(left, h).len() && at_height(left, h)[i] == left.last();
    lemma_at_height_within(right, h, i);
    let k = choose|k: int| 0 <= k < right.len() && right[k] == at_height(right, h)[i];
    assert(right[k].height <= right.last().height);
}

/// Putting an outcome behind those of lower or equal height keeps the order.
pub(crate) proof fn lemma_insert(
    states: Seq<BlockStateView>,
    ordered: Seq<BlockStateView>,
    next: BlockStateView,
    p: int,
)
    requires
        is_height_order(states, ordered),
        0 <= p <= ordered.len(),
        forall|j: int| 0 <= j < p ==> ordered[j].height <= next.height,
        forall|j: int| p <= j < ordered.len() ==> ordered[j].height > next.height,
    ensures
        is_height_order(states.push(next), ordered.insert(p, next)),
{
    let low = ordered.take(p);
    let high = ordered.skip(p);
    let whole = ordered.insert(p, next);
    assert(whole =~= low.push(next) + high);
    assert(ordered =~= low + high);
    assert forall|h: u64| #[trigger] at_height(whole, h) == at_height(states.push(next), h) by {
        let pred = |s: BlockStateView| s.height == h;
        assert(at_height(ordered, h) == at_height(states, h));
        Seq::filter_distributes_over_add(low.push(next), high, pred);
        Seq::filter_distributes_over_add(low, high, pred);
        reveal(Seq::filter);
        assert(low.push(next).drop_last() =~= low);
        assert(states.push(next).drop_last() =~= states);
        if h == next.height {
            high.lemma_all_neg_filter_empty(pred);
            assert(high.filter(pred) =~= Seq::empty());
            assert(at_height(whole, h) =~= low.filter(pred).push(next));
            assert(at_height(ordered, h) =~= low.filter(pred));
        }
    }
    assert(rising(whole));
}

/// Every sequence of outcomes has a height order. It holds every outcome as often as the sequence
/// does.
pub proof fn height_order_exists(states: Seq<BlockStateView>)
    ensures
        is_height_order(states, in_height_order(states)),
        in_height_order(states).to_multiset() == states.to_multiset(),
        in_height_order(states).len() == states.len(),
    decreases states.len(),
{
    broadcast use vstd::seq_lib::group_to_multiset_ensures;

    if states.len() == 0 {
        assert(is_height_order(states, states));
        height_order_is_unique(states, states, in_height_order(states));
    } else {
        let rest = states.drop_last();
        let last = states.last();
        height_order_exists(rest);
        let p = lemma_place(in_height_order(rest), last.height);
        lemma_insert(rest, in_height_order(rest), last, p);
        assert(rest.push(last) =~= states);
        let ordered = in_height_order(rest).insert(p, last);
        assert(is_height_order(states, ordered));
        height_order_is_unique(states, ordered, in_height_order(states));
        assert(ordered.to_multiset() == rest.to_multiset().insert(last));
    }
}

/// Outcomes that stand by rising height already are in height order.
pub proof fn rising_is_height_order(states: Seq<BlockStateView>)
    requires
        rising(states),
    ensures
        in_height_order(states) == states,
{
    height_order_exists(states);
    assert(is_height_order(states, states));
    height_order_is_unique(states, states, in_height_order(states));
}

/// No two outcomes are of the same height.
pub open spec fn one_per_height(states: Seq<BlockStateView>) -> bool {
    forall|i: int, j: int|
        0 <= i < j < states.len() ==> states[i].height != states[j].height
}

/// With one outcome per height, the part of a height is that outcome or nothing.
proof fn lemma_one_at_height(states: Seq<BlockStateView>, height: u64)
    requires
        one_per_height(states),
    ensures
        at_height(states, height).len() <= 1,
        forall|s: BlockStateView|
            states.contains(s) && s.height == height ==> at_height(states, height) == seq![s],
        at_height(states, height).len() == 1 ==> states.contains(at_height(states, height)[0])
            && at_height(states, height)[0].height == height,
    decreases states.len(),
{
    reveal(Seq::filter);
    let part = at_height(states, height);
    if states.len() > 0 {
        let rest = states.drop_last();
        assert(one_per_height(rest));
        lemma_one_at_height(rest, height);
        if states.last().height == height {
            let before = at_height(rest, height);
            if before.len() == 1 {
                let k = choose|k: int| 0 <= k < rest.len() && rest[k] == before[0];
                assert(states[k].height != states.last().height);
            }
            assert(part =~= seq![states.last()]);
            assert forall|s: BlockStateView|
                states.contains(s) && s.height == height implies part == seq![s] by {
                let k = choose|k: int| 0 <= k < states.len() && states[k] == s;
                if k < states.len() - 1 {
                    assert(states[k].height != states.last().height);
                }
            }
            assert(states.contains(states.last()));
        } else {
            assert forall|s: BlockStateView|
                states.contains(s) && s.height == height implies part == seq![s] by {
                let k = choose|k: int| 0 <= k < states.len() && states[k] == s;
                assert(rest[k] == s);
            }
            if part.len() == 1 {
                let k = choose|k: int| 0 <= k < rest.len() && rest[k] == part[0];
                assert(states[k] == part[0]);
            }
        }
    }
}

/// With one outcome per height, the order in which the outcomes arrive does not matter.
pub proof fn arrival_order_is_irrelevant(
    states: Seq<BlockStateView>,
    shuffled: Seq<BlockStateView>,
)
    requires
        one_per_height(states),
        states.to_multiset() == shuffled.to_multiset(),
    ensures
        in_height_order(states) == in_height_order(shuffled),
{
    broadcast use vstd::seq_lib::group_to_multiset_ensures;

    assert forall|s: BlockStateView| states.contains(s) == shuffled.contains(s) by {
        vstd::seq_lib::to_multiset_contains(states, s);
        vstd::seq_lib::to_multiset_contains(shuffled, s);
    }
    lemma_shuffled_one_per_height(states, shuffled);
    height_order_exists(states);
    height_order_exists(shuffled);
    let ordered = in_height_order(states);
    assert forall|h: u64| #[trigger] at_height(ordered, h) == at_height(shuffled, h) by {
        assert(at_height(ordered, h) == at_height(states, h));
        lemma_one_at_height(states, h);
        lemma_one_at_height(shuffled, h);
        let left = at_height(states, h);
        let right = at_height(shuffled, h);
        if left.len() == 1 {
            assert(shuffled.contains(left[0]));
            assert(left =~= seq![left[0]]);
        } else if right.len() == 1 {
            assert(states.contains(right[0]));
        } else {
            assert(left =~= right);
        }
    }
    assert(is_height_order(shuffled, ordered));
    height_order_is_unique(shuffled, ordered, in_height_order(shuffled));
}

/// Shuffling keeps one outcome per height.
proof fn lemma_shuffled_one_per_height(
    states: Seq<BlockStateView>,
    shuffled: Seq<BlockStateView>,
)
    requires
        one_per_height(states),
        states.to_multiset() == shuffled.to_multiset(),
    ensures
        one_per_height(shuffled),
{
    broadcast use vstd::seq_lib::group_to_multiset_ensures;

    assert(states.no_duplicates());
    states.lemma_multiset_has_no_duplicates();
    assert forall|x: BlockStateView|
        shuffled.to_multiset().contains(x) implies shuffled.to_multiset().count(x) == 1 by {
        assert(states.to_multiset().contains(x));
    }
    shuffled.lemma_multiset_has_no_duplicates_conv();
    assert forall|i: int, j: int|
        0 <= i < j < shuffled.len() implies shuffled[i].height != shuffled[j].height by {
        assert(shuffled.contains(shuffled[i]) && shuffled.contains(shuffled[j]));
        assert(shuffled[i] != shuffled[j]);
        assert(states.to_multiset().count(shuffled[i]) > 0);
        assert(states.to_multiset().count(shuffled[j]) > 0);
        assert(states.contains(shuffled[i]) && states.contains(shuffled[j]));
        let k = choose|k: int| 0 <= k < states.len() && states[k] == shuffled[i];
        let l = choose|l: int| 0 <= l < states.len() && states[l] == shuffled[j];
        assert(k != l);
        if k < l {
            assert(states[k].height != states[l].height);
        } else {
            assert(states[l].height != states[k].height);
        }
    }
}

/// The place behind all outcomes of lower or equal height.
pub(crate) proof fn lemma_place(ordered: Seq<BlockStateView>, height: u64) -> (p: int)
    requires
        rising(ordered),
    ensures
        0 <= p <= ordered.len(),
        forall|j: int| 0 <= j < p ==> ordered[j].height <= height,
        forall|j: int| p <= j < ordered.len() ==> ordered[j].height > height,
    decreases ordered.len(),
{
    if ordered.len() == 0 || ordered.last().height <= height {
        ordered.len() as int
    } else {
        let p = lemma_place(ordered.drop_last(), height);
        assert forall|j: int| p <= j < ordered.len() implies ordered[j].height > height by {
            if j < ordered.len() - 1 {
                assert(ordered.drop_last()[j] == ordered[j]);
            }
        }
        assert forall|j: int| 0 <= j < p implies ordered[j].height <= height by {
            assert(ordered.drop_last()[j] == ordered[j]);
        }
        p
    }
}

/// The outcomes that stand at `indices`.
pub open spec fn picked(states: Seq<BlockStateView>, indices: Seq<usize>) -> Seq<BlockStateView> {
    Seq::new(indices.len(), |i: int| states[indices[i] as int])
}

/// The indices of `states` by rising height; equal heights keep their order.
pub fn height_order(states: &[BlockState]) -> (order: Vec<usize>)
    ensures
        order@.len() == states@.len(),
        forall|i: int| 0 <= i < order@.len() ==> (#[trigger] order@[i]) < states@.len(),
        picked(views(states@), order@) == in_height_order(views(states@)),
{
    let mut order: Vec<usize> = Vec::new();
    let mut next: usize = 0;
    let ghost all = views(states@);
    assert(picked(all, order@) =~= all.take(0));
    assert(is_height_order(all.take(0), all.take(0)));
    while next < states.len()
        invariant
            next <= states@.len(),
            all == views(states@),
            order@.len() == next,
            forall|i: int| 0 <= i < order@.len() ==> (#[trigger] order@[i]) < next,
            is_height_order(all.take(next as int), picked(all, order@)),
        decreases states@.len() - next,
    {
        let height = states[next].height;
        let mut p: usize = order.len();
        let ghost ordered = picked(all, order@);
        while p > 0 && states[order[p - 1]].height > height
            invariant
                p <= order@.len(),
                all == views(states@),
                ordered == picked(all, order@),
                next < states@.len(),
                forall|i: int| 0 <= i < order@.len() ==> (#[trigger] order@[i]) < next,
                forall|j: int| p <= j < ordered.len() ==> ordered[j].height > height,
            decreases p,
        {
            assert(ordered[p - 1] == states@[order@[p - 1] as int]@);
            p -= 1;
        }
        proof {
            assert forall|j: int| 0 <= j < p implies ordered[j].height <= height by {
                assert(ordered[p - 1] == states@[order@[p - 1] as int]@);
            }
            lemma_insert(all.take(next as int), ordered, all[next as int], p as int);
            assert(all.take(next as int).push(all[next as int]) =~= all.take(next + 1));
        }
        order.insert(p, next);
        assert(picked(all, order@) =~= ordered.insert(p as int, all[next as int]));
        next += 1;
    }
    proof {
        assert(all.take(next as int) =~= all);
        height_order_exists(all);
        height_order_is_unique(all, picked(all, order@), in_height_order(all));
    }
    order
}

} // verus!
