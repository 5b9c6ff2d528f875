//! What a header says of the executions that it confirms.

use vstd::prelude::*;

use crate::bytes::{same_bytes, views, Bloom, MerkleRoot};
use crate::order::{in_height_order, picked};
use crate::types::{BlockState, BlockStateView, ExecResp, ExecRespView, Validator};

verus! {

/// The log filters of some outcomes.
pub open spec fn logs_blooms(states: Seq<BlockStateView>) -> Seq<Seq<u8>> {
    Seq::new(states.len(), |i: int| states[i].state.logs_bloom)
}

/// The order roots of some outcomes.
pub open spec fn order_roots(states: Seq<BlockStateView>) -> Seq<Seq<u8>> {
    Seq::new(states.len(), |i: int| states[i].state.order_root)
}

/// The receipt roots of some outcomes.
pub open spec fn receipt_roots(states: Seq<BlockStateView>) -> Seq<Seq<u8>> {
    Seq::new(states.len(), |i: int| states[i].state.receipt_root)
}

/// The cycles used in some outcomes.
pub open spec fn cycles(states: Seq<BlockStateView>) -> Seq<u64> {
    Seq::new(states.len(), |i: int| states[i].state.cycles_used)
}

/// The latest outcome: the one of the greatest height, the last of these where there are several,
/// or `last_commit` where there is none.
pub open spec fn latest(states: Seq<BlockStateView>, last_commit: ExecRespView) -> ExecRespView {
    if states.len() == 0 {
        last_commit
    } else {
        in_height_order(states).last().state
    }
}

/// `order` lists every outcome of `states` once, in height order.
pub open spec fn lists_in_order(states: Seq<BlockState>, order: Seq<usize>) -> bool {
    &&& order.len() == states.len()
    &&& forall|i: int| 0 <= i < order.len() ==> (#[trigger] order[i]) < states.len()
    &&& picked(views(states), order) == in_height_order(views(states))
}

/// The outcome at a place of the order.
proof fn lemma_listed(states: Seq<BlockState>, order: Seq<usize>, i: int)
    requires
        lists_in_order(states, order),
        0 <= i < order.len(),
    ensures
        in_height_order(views(states)).len() == order.len(),
        in_height_order(views(states))[i] == states[order[i] as int]@,
{
    assert(picked(views(states), order)[i] == views(states)[order[i] as int]);
}

/// The latest outcome.
pub fn latest_resp<'a>(
    states: &'a [BlockState],
    order: &Vec<usize>,
    last_commit: &'a ExecResp,
) -> (resp: &'a ExecResp)
    requires
        lists_in_order(states@, order@),
    ensures
        resp@ == latest(views(states@), last_commit@),
{
    if order.len() == 0 {
        last_commit
    } else {
        proof {
            lemma_listed(states@, order@, order@.len() - 1);
        }
        &states[order[order.len() - 1]].state
    }
}

/// Tells whether two validator lists are the same.
pub fn same_validators(left: &Vec<Validator>, right: &Vec<Validator>) -> (same: bool)
    ensures
        same == (views(left@) == views(right@)),
{
    if left.len() != right.len() {
        assert(views(left@).len() != views(right@).len());
        return false;
    }
    let mut i: usize = 0;
    while i < left.len()
        invariant
            i <= left@.len(),
            left@.len() == right@.len(),
            forall|j: int| 0 <= j < i ==> (#[trigger] left@[j])@ == right@[j]@,
        decreases left@.len() - i,
    {
        if !same_bytes(&left[i].address.bytes, &right[i].address.bytes)
            || left[i].propose_weight != right[i].propose_weight
            || left[i].vote_weight != right[i].vote_weight {
            assert(views(left@)[i as int] != views(right@)[i as int]);
            return false;
        }
        i += 1;
    }
    assert(views(left@) =~= views(right@));
    true
}

/// Copies a validator list.
pub fn copy_validators(source: &Vec<Validator>) -> (copy: Vec<Validator>)
    ensures
        views(copy@) == views(source@),
{
    let mut copy: Vec<Validator> = Vec::new();
    let mut i: usize = 0;
    while i < source.len()
        invariant
            i <= source@.len(),
            copy@.len() == i,
            forall|j: int| 0 <= j < i ==> (#[trigger] copy@[j])@ == source@[j]@,
        decreases source@.len() - i,
    {
        copy.push(source[i].clone());
        i += 1;
    }
    assert(views(copy@) =~= views(source@));
    copy
}

/// Tells whether two lists of log filters are the same.
pub fn same_blooms(left: &Vec<Bloom>, right: &Vec<Bloom>) -> (same: bool)
    ensures
        same == (views(left@) == views(right@)),
{
    if left.len() != right.len() {
        assert(views(left@).len() != views(right@).len());
        return false;
    }
    let mut i: usize = 0;
    while i < left.len()
        invariant
            i <= left@.len(),
            left@.len() == right@.len(),
            forall|j: int| 0 <= j < i ==> (#[trigger] left@[j])@ == right@[j]@,
        decreases left@.len() - i,
    {
        if !same_bytes(&left[i].bytes, &right[i].bytes) {
            assert(views(left@)[i as int] != views(right@)[i as int]);
            return false;
        }
        i += 1;
    }
    assert(views(left@) =~= views(right@));
    true
}

/// Tells whether two lists of roots are the same.
pub fn same_roots(left: &Vec<MerkleRoot>, right: &Vec<MerkleRoot>) -> (same: bool)
    ensures
        same == (views(left@) == views(right@)),
{
    if left.len() != right.len() {
        assert(views(left@).len() != views(right@).len());
        return false;
    }
    let mut i: usize = 0;
    while i < left.len()
        invariant
            i <= left@.len(),
            left@.len() == right@.len(),
            forall|j: int| 0 <= j < i ==> (#[trigger] left@[j])@ == right@[j]@,
        decreases left@.len() - i,
    {
        if !same_bytes(&left[i].bytes, &right[i].bytes) {
            assert(views(left@)[i as int] != views(right@)[i as int]);
            return false;
        }
        i += 1;
    }
    assert(views(left@) =~= views(right@));
    true
}

/// Tells whether two lists of cycles are the same.
pub fn same_cycles(left: &Vec<u64>, right: &Vec<u64>) -> (same: bool)
    ensures
        same == (left@ == right@),
{
    if left.len() != right.len() {
        return false;
    }
    let mut i: usize = 0;
    while i < left.len()
        invariant
            i <= left@.len(),
            left@.len() == right@.len(),
            forall|j: int| 0 <= j < i ==> left@[j] == right@[j],
        decreases left@.len() - i,
    {
        if left[i] != right[i] {
            return false;
        }
        i += 1;
    }
    assert(left@ =~= right@);
    true
}

/// The items that a header lists of the outcomes that it confirms.
pub struct Confirmed {
    pub logs_bloom: Vec<Bloom>,
    pub confirm_root: Vec<MerkleRoot>,
    pub receipt_root: Vec<MerkleRoot>,
    pub cycles_used: Vec<u64>,
}

/// Lists the outcomes in their order, as a header does.
pub fn confirm(states: &[BlockState], order: &Vec<usize>) -> (listed: Confirmed)
    requires
        lists_in_order(states@, order@),
    ensures
        views(listed.logs_bloom@) == logs_blooms(in_height_order(views(states@))),
        views(listed.confirm_root@) == order_roots(in_height_order(views(states@))),
        views(listed.receipt_root@) == receipt_roots(in_height_order(views(states@))),
        listed.cycles_used@ == cycles(in_height_order(views(states@))),
        listed.logs_bloom@.len() == states@.len(),
        listed.confirm_root@.len() == states@.len(),
        listed.receipt_root@.len() == states@.len(),
        listed.cycles_used@.len() == states@.len(),
        forall|i: int|
            #![trigger order@[i]]
            0 <= i < order@.len() ==> {
                let state = states@[order@[i] as int].state;
                &&& listed.logs_bloom@[i].bytes@ == state.logs_bloom.bytes@
                &&& listed.confirm_root@[i].bytes@ == state.order_root.bytes@
                &&& listed.receipt_root@[i].bytes@ == state.receipt_root.bytes@
                &&& listed.cycles_used@[i] == state.cycles_used
            },
{
    let ghost ordered = in_height_order(views(states@));
    proof {
        assert(picked(views(states@), order@).len() == order@.len());
    }
    let mut logs_bloom: Vec<Bloom> = Vec::new();
    let mut confirm_root: Vec<MerkleRoot> = Vec::new();
    let mut receipt_root: Vec<MerkleRoot> = Vec::new();
    let mut cycles_used: Vec<u64> = Vec::new();
    let mut i: usize = 0;
    while i < order.len()
        invariant
            i <= order@.len(),
            lists_in_order(states@, order@),
            ordered == in_height_order(views(states@)),
            ordered.len() == order@.len(),
            logs_bloom@.len() == i,
            confirm_root@.len() == i,
            receipt_root@.len() == i,
            cycles_used@.len() == i,
            forall|j: int| 0 <= j < i ==> (#[trigger] logs_bloom@[j])@ == ordered[j].state.logs_bloom,
            forall|j: int| 0 <= j < i ==> (#[trigger] confirm_root@[j])@ == ordered[j].state.order_root,
            forall|j: int|
                0 <= j < i ==> (#[trigger] receipt_root@[j])@ == ordered[j].state.receipt_root,
            forall|j: int| 0 <= j < i ==> (#[trigger] cycles_used@[j]) == ordered[j].state.cycles_used,
        decreases order@.len() - i,
    {
        proof {
            lemma_listed(states@, order@, i as int);
        }
        let state = &states[order[i]].state;
        logs_bloom.push(state.logs_bloom.clone());
        confirm_root.push(state.order_root.clone());
        receipt_root.push(state.receipt_root.clone());
        cycles_used.push(state.cycles_used);
        i += 1;
    }
    assert(views(logs_bloom@) =~= logs_blooms(ordered));
    assert(views(confirm_root@) =~= order_roots(ordered));
    assert(views(receipt_root@) =~= receipt_roots(ordered));
    assert(cycles_used@ =~= cycles(ordered));
    proof {
        assert forall|j: int| 0 <= j < order@.len() implies ordered[j]
            == states@[(#[trigger] order@[j]) as int]@ by {
            lemma_listed(states@, order@, j);
        }
    }
    Confirmed { logs_bloom, confirm_root, receipt_root, cycles_used }
}

} // verus!
