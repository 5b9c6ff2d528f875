//! What each operation does, item by item: over the calls that it makes of the chain, the fields that
//! it reads and writes, and every place of every list.

use vstd::prelude::*;

use crate::adapter::{
    gives_verdict, is_check, is_creation, passes_on, refusal, Proposal, Status,
};
use crate::bytes::{views, Bloom, Bytes, ProtoAddress, ProtoHash};
use crate::codec::{
    is_block_hash, is_encoded_root, is_hash_leaf, is_receipt_leaf, is_receipt_root, is_root,
    ChainCodec,
};
use crate::confirm::{cycles, latest, logs_blooms, order_roots, receipt_roots};
use crate::error::{error_text, AdapterError, ConsensusError};
use crate::exec_result::{
    config_of, is_default_resp, is_default_result, outcome_of, ExecResult, Metadata, MetadataView,
    Node, SelectMode,
};
use crate::executor::{is_metadata_call, is_params, ExecutorParams, ExecutorResp, ReadCall};
use crate::fetch::{fetch_next, is_fetch_settled, is_fetch_start, FetchEvent, FetchStep};
use crate::order::{
    height_order_exists, height_order_is_unique, in_height_order, is_height_order, lemma_insert,
    lemma_place, picked,
};
use crate::pill::WrappedPill;
use crate::save::{
    is_save_request, is_save_run, is_save_settled, save_is_true_to_order, save_next, saved_result,
    ExecOrder, Executed, SaveEvent, SaveOrder, SaveRequest, SaveStep,
};
use crate::types::{
    Block, BlockHeader, BlockHeaderView, BlockState, BlockStateView, ExecResp, ExecRespView,
    FullBlock, ProtoProof, ProtoProofView, Validator, ValidatorExtend,
};
use crate::vote::{engine_form, is_stored_form, stored_form, stored_proof, Proof};

verus! {

/// The root of a tree is what the chain computes over exactly its leaves, and the chain's empty hash
/// only where it computes none.
pub proof fn root_is_over_its_leaves<C: ChainCodec>(leaves: Vec<ProtoHash>, root: ProtoHash)
    requires
        is_root::<C>(leaves, root),
    ensures
        exists|found: Option<ProtoHash>|
            {
                &&& #[trigger] call_ensures(C::merkle_root, (&leaves,), found)
                &&& found is Some ==> root.bytes@ == found->0.bytes@
                &&& found is None ==> call_ensures(C::empty_hash, (), root)
            },
{
}

/// The receipt root is over one leaf per receipt, in order: the digest of the encoding of that
/// receipt. It is the chain's empty hash only where the chain computes no root over those leaves.
pub proof fn receipt_root_is_over_every_receipt<C: ChainCodec>(
    receipts: Seq<C::Receipt>,
    root: ProtoHash,
)
    requires
        is_receipt_root::<C>(receipts, root),
    ensures
        exists|data: Seq<Bytes>, leaves: Vec<ProtoHash>, found: Option<ProtoHash>|
            {
                &&& #[trigger] call_ensures(C::merkle_root, (&leaves,), found)
                &&& found is Some ==> root.bytes@ == found->0.bytes@
                &&& found is None ==> call_ensures(C::empty_hash, (), root)
                &&& leaves@.len() == receipts.len()
                &&& #[trigger] data.len() == receipts.len()
                &&& forall|i: int|
                    #![trigger data[i]]
                    0 <= i < receipts.len() ==> {
                        &&& call_ensures(C::encode_receipt, (&receipts[i],), data[i])
                        &&& call_ensures(C::digest, (&data[i],), leaves@[i])
                    }
            },
{
    let leaves = choose|leaves: Vec<ProtoHash>|
        {
            &&& #[trigger] is_root::<C>(leaves, root)
            &&& leaves@.len() == receipts.len()
            &&& forall|i: int|
                0 <= i < receipts.len() ==> is_receipt_leaf::<C>(receipts[i], #[trigger] leaves@[i])
        };
    let found = choose|found: Option<ProtoHash>| #[trigger]
        call_ensures(C::merkle_root, (&leaves,), found) && match found {
            Some(top) => root == top,
            None => call_ensures(C::empty_hash, (), root),
        };
    assert(call_ensures(C::merkle_root, (&leaves,), found));
    let data = Seq::new(
        receipts.len(),
        |i: int|
            choose|data: Bytes| #[trigger]
                call_ensures(C::encode_receipt, (&receipts[i],), data) && call_ensures(
                    C::digest,
                    (&data,),
                    leaves@[i],
                ),
    );
    assert forall|i: int| #![trigger data[i]] 0 <= i < receipts.len() implies call_ensures(
        C::encode_receipt,
        (&receipts[i],),
        data[i],
    ) && call_ensures(C::digest, (&data[i],), leaves@[i]) by {
        assert(is_receipt_leaf::<C>(receipts[i], leaves@[i]));
    }
    assert(data.len() == receipts.len());
}

/// The root that is expected of a block is over one leaf per transaction hash, in order: the digest
/// of the encoding of that hash. It is the chain's empty hash only where the chain computes no root
/// over those leaves.
pub proof fn expected_root_is_over_every_hash<C: ChainCodec>(
    hashes: Seq<ProtoHash>,
    root: ProtoHash,
)
    requires
        is_encoded_root::<C>(hashes, root),
    ensures
        exists|data: Seq<Bytes>, leaves: Vec<ProtoHash>, found: Option<ProtoHash>|
            {
                &&& #[trigger] call_ensures(C::merkle_root, (&leaves,), found)
                &&& found is Some ==> root.bytes@ == found->0.bytes@
                &&& found is None ==> call_ensures(C::empty_hash, (), root)
                &&& leaves@.len() == hashes.len()
                &&& #[trigger] data.len() == hashes.len()
                &&& forall|i: int|
                    #![trigger data[i]]
                    0 <= i < hashes.len() ==> {
                        &&& call_ensures(C::encode_hash, (&hashes[i],), data[i])
                        &&& call_ensures(C::digest, (&data[i],), leaves@[i])
                    }
            },
{
    let leaves = choose|leaves: Vec<ProtoHash>|
        {
            &&& #[trigger] is_root::<C>(leaves, root)
            &&& leaves@.len() == hashes.len()
            &&& forall|i: int|
                0 <= i < hashes.len() ==> is_hash_leaf::<C>(hashes[i], #[trigger] leaves@[i])
        };
    let found = choose|found: Option<ProtoHash>| #[trigger]
        call_ensures(C::merkle_root, (&leaves,), found) && match found {
            Some(top) => root == top,
            None => call_ensures(C::empty_hash, (), root),
        };
    assert(call_ensures(C::merkle_root, (&leaves,), found));
    let data = Seq::new(
        hashes.len(),
        |i: int|
            choose|data: Bytes| #[trigger]
                call_ensures(C::encode_hash, (&hashes[i],), data) && call_ensures(
                    C::digest,
                    (&data,),
                    leaves@[i],
                ),
    );
    assert forall|i: int| #![trigger data[i]] 0 <= i < hashes.len() implies call_ensures(
        C::encode_hash,
        (&hashes[i],),
        data[i],
    ) && call_ensures(C::digest, (&data[i],), leaves@[i]) by {
        assert(is_hash_leaf::<C>(hashes[i], leaves@[i]));
    }
    assert(data.len() == hashes.len());
}

/// The hash of a block is every byte of the digest of its encoding; it has none only where the block
/// has no encoding, and for the same reason.
pub proof fn block_hash_is_the_whole_digest<C: ChainCodec>(
    block: Block,
    hash: Result<Bytes, C::Error>,
)
    requires
        is_block_hash::<C>(block, hash),
    ensures
        match hash {
            Ok(bytes) => exists|data: Bytes, digest: ProtoHash|
                {
                    &&& #[trigger] call_ensures(
                        C::encode_block,
                        (&block,),
                        Ok::<Bytes, C::Error>(data),
                    )
                    &&& #[trigger] call_ensures(C::digest, (&data,), digest)
                    &&& bytes@ == digest.bytes@
                },
            Err(error) => call_ensures(C::encode_block, (&block,), Err::<Bytes, C::Error>(error)),
        },
{
}

/// The model of a hash, an address or a filter is its bytes, all of them.
pub proof fn bytes_are_the_model(hash: ProtoHash, address: ProtoAddress, bloom: Bloom)
    ensures
        hash@ == hash.bytes@,
        address@ == address.bytes@,
        bloom@ == bloom.bytes@,
{
}

/// The model of a list has one item for each of the list, at the same place.
pub proof fn lists_are_modelled_item_by_item<T: View>(items: Seq<T>, i: int)
    ensures
        views(items).len() == items.len(),
        0 <= i < items.len() ==> views(items)[i] == items[i]@,
{
}

/// The model of a validator shows all that it holds.
pub proof fn validators_are_modelled_whole(validator: Validator, verifier: ValidatorExtend)
    ensures
        validator@.address == validator.address.bytes@,
        validator@.propose_weight == validator.propose_weight,
        validator@.vote_weight == validator.vote_weight,
        verifier@.bls_pub_key == verifier.bls_pub_key@,
        verifier@.address == verifier.address.bytes@,
        verifier@.propose_weight == verifier.propose_weight,
        verifier@.vote_weight == verifier.vote_weight,
{
}

/// The model of a proof shows all that it holds.
pub proof fn proofs_are_modelled_whole(stored: ProtoProof, quorum: Proof)
    ensures
        stored@.height == stored.height,
        stored@.round == stored.round,
        stored@.block_hash == stored.block_hash.bytes@,
        stored@.signature == stored.signature@,
        stored@.bitmap == stored.bitmap@,
        quorum@.height == quorum.vote.height,
        quorum@.round == quorum.vote.round,
        quorum@.block_hash == quorum.vote.block_hash@,
        quorum@.address_bitmap == quorum.aggregates.address_bitmap@,
        quorum@.signature == quorum.aggregates.signature@,
{
}

/// The model of a header shows every field, and every item of every list at its place.
pub proof fn headers_are_modelled_whole(header: BlockHeader, i: int)
    ensures
        header@.chain_id == header.chain_id.bytes@,
        header@.height == header.height,
        header@.exec_height == header.exec_height,
        header@.pre_hash == header.pre_hash.bytes@,
        header@.timestamp == header.timestamp,
        header@.order_root == header.order_root.bytes@,
        header@.state_root == header.state_root.bytes@,
        header@.proposer == header.proposer.bytes@,
        header@.pre_proof == header.pre_proof@,
        header@.validator_version == header.validator_version,
        header@.logs_bloom.len() == header.logs_bloom@.len(),
        header@.confirm_root.len() == header.confirm_root@.len(),
        header@.receipt_root.len() == header.receipt_root@.len(),
        header@.cycles_used == header.cycles_used@,
        header@.validators.len() == header.validators@.len(),
        0 <= i < header.logs_bloom@.len() ==> header@.logs_bloom[i] == header.logs_bloom@[i].bytes@,
        0 <= i < header.confirm_root@.len() ==> header@.confirm_root[i]
            == header.confirm_root@[i].bytes@,
        0 <= i < header.receipt_root@.len() ==> header@.receipt_root[i]
            == header.receipt_root@[i].bytes@,
        0 <= i < header.validators@.len() ==> header@.validators[i] == header.validators@[i]@,
{
}

/// The model of a pill, and of a full block, shows the block and every hash at its place.
pub proof fn blocks_are_modelled_whole<T>(pill: WrappedPill, full_block: FullBlock<T>, i: int)
    ensures
        pill@.block == pill.0.block@,
        pill@.block.header == pill.0.block.header@,
        pill@.block.ordered_tx_hashes.len() == pill.0.block.ordered_tx_hashes@.len(),
        0 <= i < pill.0.block.ordered_tx_hashes@.len() ==> pill@.block.ordered_tx_hashes[i]
            == pill.0.block.ordered_tx_hashes@[i].bytes@,
        pill@.propose_hashes.len() == pill.0.propose_hashes@.len(),
        0 <= i < pill.0.propose_hashes@.len() ==> pill@.propose_hashes[i]
            == pill.0.propose_hashes@[i].bytes@,
        full_block@.block == full_block.block@,
        full_block@.ordered_txs == full_block.ordered_txs@,
{
}

/// The model of an outcome shows every field, and every validator at its place.
pub proof fn outcomes_are_modelled_whole(outcome: BlockState, i: int)
    ensures
        outcome@.height == outcome.height,
        outcome@.state == outcome.state@,
        outcome.state@.order_root == outcome.state.order_root.bytes@,
        outcome.state@.state_root == outcome.state.state_root.bytes@,
        outcome.state@.receipt_root == outcome.state.receipt_root.bytes@,
        outcome.state@.cycles_used == outcome.state.cycles_used,
        outcome.state@.logs_bloom == outcome.state.logs_bloom.bytes@,
        outcome.state@.cycles_limit == outcome.state.cycles_limit,
        outcome.state@.tx_num_limit == outcome.state.tx_num_limit,
        outcome.state@.max_tx_size == outcome.state.max_tx_size,
        outcome.state@.validators.len() == outcome.state.validators@.len(),
        0 <= i < outcome.state.validators@.len() ==> outcome.state@.validators[i]
            == outcome.state.validators@[i]@,
{
}

/// The model of the metadata shows every field, and every verifier at its place.
pub proof fn metadata_is_modelled_whole(metadata: Metadata, i: int)
    ensures
        metadata@.common_ref == metadata.common_ref@,
        metadata@.cycles_limit == metadata.cycles_limit,
        metadata@.interval == metadata.interval,
        metadata@.propose_ratio == metadata.propose_ratio,
        metadata@.prevote_ratio == metadata.prevote_ratio,
        metadata@.precommit_ratio == metadata.precommit_ratio,
        metadata@.brake_ratio == metadata.brake_ratio,
        metadata@.tx_num_limit == metadata.tx_num_limit,
        metadata@.max_tx_size == metadata.max_tx_size,
        metadata@.verifier_list.len() == metadata.verifier_list@.len(),
        0 <= i < metadata.verifier_list@.len() ==> metadata@.verifier_list[i]
            == metadata.verifier_list@[i]@,
{
}

/// The model of a result shows every field, and every authority at its place.
pub proof fn results_are_modelled_whole(result: ExecResult, node: Node, i: int)
    ensures
        node@.address == node.address@,
        node@.party_pub_key == node.party_pub_key@,
        node@.propose_weight == node.propose_weight,
        node@.vote_weight == node.vote_weight,
        result@.block_states == result.block_states@,
        ({
            let shown = result@.consensus_config;
            let config = result.consensus_config;
            &&& shown.max_exec_behind == config.max_exec_behind
            &&& shown.common_ref == config.auth_config.common_ref@
            &&& shown.mode == config.auth_config.mode
            &&& shown.time_config == config.time_config
            &&& shown.auth_list.len() == config.auth_config.auth_list@.len()
            &&& 0 <= i < config.auth_config.auth_list@.len() ==> shown.auth_list[i]
                == config.auth_config.auth_list@[i]@
        }),
{
}

/// The height order is a stable sort: it holds every outcome once, at the place that is given of it,
/// by rising height, and outcomes of one height stand as they stood.
pub proof fn height_order_is_a_stable_sort(states: Seq<BlockStateView>) -> (place: Seq<int>)
    ensures
        in_height_order(states).len() == states.len(),
        place.len() == states.len(),
        forall|i: int| 0 <= i < states.len() ==> 0 <= #[trigger] place[i] < states.len(),
        forall|i: int, j: int| 0 <= i < j < states.len() ==> place[i] != place[j],
        forall|i: int|
            0 <= i < states.len() ==> #[trigger] in_height_order(states)[i] == states[place[i]],
        forall|i: int, j: int|
            0 <= i < j < states.len() ==> in_height_order(states)[i].height
                <= in_height_order(states)[j].height,
        forall|i: int, j: int|
            #![trigger place[i], place[j]]
            0 <= i < j < states.len() && states[place[i]].height == states[place[j]].height
                ==> place[i] < place[j],
    decreases states.len(),
{
    height_order_exists(states);
    if states.len() == 0 {
        Seq::empty()
    } else {
        let rest = states.drop_last();
        let last = states.last();
        height_order_exists(rest);
        let before = in_height_order(rest);
        let p = lemma_place(before, last.height);
        lemma_insert(rest, before, last, p);
        assert(rest.push(last) =~= states);
        let ordered = before.insert(p, last);
        assert(is_height_order(states, ordered));
        height_order_is_unique(states, ordered, in_height_order(states));
        let stood = height_order_is_a_stable_sort(rest);
        let place = stood.insert(p, rest.len() as int);
        assert forall|i: int| 0 <= i < states.len() implies 0 <= #[trigger] place[i] < states.len()
            && ordered[i] == states[place[i]] by {
            if i < p {
                assert(place[i] == stood[i] && ordered[i] == before[i]);
            } else if i > p {
                assert(place[i] == stood[i - 1] && ordered[i] == before[i - 1]);
            }
        }
        assert forall|i: int, j: int| 0 <= i < j < states.len() implies place[i] != place[j] by {
            if j < p {
                assert(place[i] == stood[i] && place[j] == stood[j]);
            } else if j == p {
                assert(place[i] == stood[i]);
            } else if i < p {
                assert(place[i] == stood[i] && place[j] == stood[j - 1]);
            } else if i == p {
                assert(place[j] == stood[j - 1]);
            } else {
                assert(place[i] == stood[i - 1] && place[j] == stood[j - 1]);
            }
        }
        assert forall|i: int, j: int|
            #![trigger place[i], place[j]]
            0 <= i < j < states.len() && states[place[i]].height
                == states[place[j]].height implies place[i] < place[j] by {
            if j < p {
                assert(place[i] == stood[i] && place[j] == stood[j]);
            } else if j == p {
                assert(place[i] == stood[i]);
            } else if i < p {
                assert(place[i] == stood[i] && place[j] == stood[j - 1]);
            } else if i == p {
                assert(ordered[j] == before[j - 1]);
                assert(states[place[j]] == ordered[j]);
            } else {
                assert(place[i] == stood[i - 1] && place[j] == stood[j - 1]);
            }
        }
        place
    }
}

/// The latest outcome is that of the last commit where there is no other. Otherwise it is one of
/// them: none is of a greater height, and none of its height stands behind it.
pub proof fn latest_is_of_the_greatest_height(
    states: Seq<BlockStateView>,
    last_commit: ExecRespView,
)
    ensures
        states.len() == 0 ==> latest(states, last_commit) == last_commit,
        states.len() > 0 ==> exists|k: int|
            {
                &&& 0 <= k < states.len()
                &&& latest(states, last_commit) == (#[trigger] states[k]).state
                &&& forall|j: int|
                    0 <= j < states.len() ==> (#[trigger] states[j]).height <= states[k].height
                &&& forall|j: int|
                    k < j < states.len() ==> (#[trigger] states[j]).height < states[k].height
            },
{
    if states.len() > 0 {
        let n = states.len() as int;
        let place = height_order_is_a_stable_sort(states);
        let ordered = in_height_order(states);
        let k = place[n - 1];
        assert(ordered[n - 1] == states[k]);
        assert forall|j: int| 0 <= j < n implies (#[trigger] states[j]).height <= states[k].height && (
        k < j ==> states[j].height < states[k].height) by {
            let i = lemma_has_place(place, n, j);
            assert(ordered[i] == states[place[i]]);
            assert(i < n - 1 ==> place[i] != place[n - 1]);
        }
    }
}

/// Among as many different numbers below `n`, each number below `n` has a place.
proof fn lemma_has_place(place: Seq<int>, n: int, j: int) -> (i: int)
    requires
        place.len() == n,
        0 <= j < n,
        forall|i: int| 0 <= i < n ==> 0 <= #[trigger] place[i] < n,
        forall|i: int, k: int| 0 <= i < k < n ==> place[i] != place[k],
    ensures
        0 <= i < n,
        place[i] == j,
{
    let all = vstd::set_lib::set_int_range(0, n);
    vstd::set_lib::lemma_int_range(0, n);
    let held = place.to_set();
    assert(place.no_duplicates());
    place.unique_seq_to_set();
    assert(held.subset_of(all));
    vstd::set_lib::lemma_subset_equality(held, all);
    assert(all.contains(j));
    assert(place.contains(j));
    choose|i: int| 0 <= i < place.len() && place[i] == j
}

/// The header of a block that a node makes says who made it on which chain, what it was given, and
/// the hashes that the chain has read of the given bytes.
pub proof fn created_header_says_what_was_given<C: ChainCodec>(
    before: Status,
    after: Status,
    proposal: Proposal,
    pill: WrappedPill,
)
    requires
        is_creation::<C>(before, after, proposal, Ok(pill)),
    ensures
        ({
            let header = pill.0.block.header;
            &&& header.chain_id.bytes@ == before.chain_id.bytes@
            &&& header.proposer.bytes@ == before.address.bytes@
            &&& header.height == proposal.height
            &&& header.exec_height == proposal.exec_height
            &&& header.timestamp == proposal.timestamp
            &&& header.validator_version == 0
            &&& pill.0.block.ordered_tx_hashes@ == proposal.ordered_tx_hashes@
            &&& pill.0.propose_hashes@ == proposal.propose_hashes@
            &&& exists|parent: ProtoHash| #[trigger]
                call_ensures(
                    C::hash_from_bytes,
                    (&proposal.pre_hash,),
                    Ok::<ProtoHash, C::Error>(parent),
                ) && header.pre_hash.bytes@ == parent.bytes@
            &&& exists|voted: ProtoHash| #[trigger]
                call_ensures(
                    C::hash_from_bytes,
                    (&proposal.pre_proof.vote.block_hash,),
                    Ok::<ProtoHash, C::Error>(voted),
                ) && header.pre_proof.block_hash.bytes@ == voted.bytes@
            &&& header.pre_proof.height == proposal.pre_proof.vote.height
            &&& header.pre_proof.round == proposal.pre_proof.vote.round
            &&& header.pre_proof.signature@ == proposal.pre_proof.aggregates.signature@
            &&& header.pre_proof.bitmap@ == proposal.pre_proof.aggregates.address_bitmap@
        }),
{
}

/// The order root of a block that a node makes is over its transaction hashes themselves, all of
/// them and in their order, and the chain's empty hash only where the chain computes no root.
pub proof fn created_order_root_is_over_every_hash<C: ChainCodec>(
    before: Status,
    after: Status,
    proposal: Proposal,
    pill: WrappedPill,
)
    requires
        is_creation::<C>(before, after, proposal, Ok(pill)),
    ensures
        exists|found: Option<ProtoHash>, root: ProtoHash|
            #![trigger call_ensures(C::merkle_root, (&proposal.ordered_tx_hashes,), found), root.bytes]
            {
                &&& call_ensures(C::merkle_root, (&proposal.ordered_tx_hashes,), found)
                &&& found is Some ==> root == found->0
                &&& found is None ==> call_ensures(C::empty_hash, (), root)
                &&& pill.0.block.header.order_root.bytes@ == root.bytes@
            },
{
    let root = lemma_created_root::<C>(before, after, proposal, pill);
    root_is_over_its_leaves::<C>(proposal.ordered_tx_hashes, root);
    let found = choose|found: Option<ProtoHash>|
        {
            &&& #[trigger] call_ensures(C::merkle_root, (&proposal.ordered_tx_hashes,), found)
            &&& match found {
                Some(top) => root == top,
                None => call_ensures(C::empty_hash, (), root),
            }
        };
    assert(call_ensures(C::merkle_root, (&proposal.ordered_tx_hashes,), found));
    assert(root.bytes@ == root@);
}

/// The order root that was found for a block.
proof fn lemma_created_root<C: ChainCodec>(
    before: Status,
    after: Status,
    proposal: Proposal,
    pill: WrappedPill,
) -> (root: ProtoHash)
    requires
        is_creation::<C>(before, after, proposal, Ok(pill)),
    ensures
        is_root::<C>(proposal.ordered_tx_hashes, root),
        pill@.block.header.order_root == root@,
{
    choose|root: ProtoHash| #[trigger]
        is_root::<C>(proposal.ordered_tx_hashes, root) && pill@.block.header.order_root == root@
}

/// At every place, the header of a block that a node makes lists what the outcome at this place of
/// the height order has left: its order root, receipt root, log filter and cycles. It lists nothing
/// else.
pub proof fn created_header_lists_every_outcome<C: ChainCodec>(
    before: Status,
    after: Status,
    proposal: Proposal,
    pill: WrappedPill,
)
    requires
        is_creation::<C>(before, after, proposal, Ok(pill)),
    ensures
        ({
            let header = pill.0.block.header;
            let ordered = in_height_order(proposal.states);
            &&& header.confirm_root@.len() == proposal.states.len()
            &&& header.receipt_root@.len() == proposal.states.len()
            &&& header.logs_bloom@.len() == proposal.states.len()
            &&& header.cycles_used@.len() == proposal.states.len()
            &&& forall|i: int|
                #![trigger ordered[i]]
                0 <= i < proposal.states.len() ==> {
                    &&& header.confirm_root@[i].bytes@ == ordered[i].state.order_root
                    &&& header.receipt_root@[i].bytes@ == ordered[i].state.receipt_root
                    &&& header.logs_bloom@[i].bytes@ == ordered[i].state.logs_bloom
                    &&& header.cycles_used@[i] == ordered[i].state.cycles_used
                }
        }),
{
    let header = pill.0.block.header;
    let ordered = in_height_order(proposal.states);
    height_order_exists(proposal.states);
    assert(pill@.block.header.confirm_root.len() == header.confirm_root@.len());
    assert(pill@.block.header.receipt_root.len() == header.receipt_root@.len());
    assert(pill@.block.header.logs_bloom.len() == header.logs_bloom@.len());
    assert forall|i: int| #![trigger ordered[i]] 0 <= i < proposal.states.len() implies {
        &&& header.confirm_root@[i].bytes@ == ordered[i].state.order_root
        &&& header.receipt_root@[i].bytes@ == ordered[i].state.receipt_root
        &&& header.logs_bloom@[i].bytes@ == ordered[i].state.logs_bloom
        &&& header.cycles_used@[i] == ordered[i].state.cycles_used
    } by {
        headers_are_modelled_whole(header, i);
        assert(pill@.block.header.confirm_root[i] == ordered[i].state.order_root);
        assert(pill@.block.header.receipt_root[i] == ordered[i].state.receipt_root);
        assert(pill@.block.header.logs_bloom[i] == ordered[i].state.logs_bloom);
        assert(pill@.block.header.cycles_used[i] == ordered[i].state.cycles_used);
    }
}

/// The outcomes stand in a created header by rising height, each of them once, and those of one
/// height as they were given.
pub proof fn created_header_sorts_the_outcomes<C: ChainCodec>(
    before: Status,
    after: Status,
    proposal: Proposal,
    pill: WrappedPill,
) -> (place: Seq<int>)
    requires
        is_creation::<C>(before, after, proposal, Ok(pill)),
    ensures
        place.len() == proposal.states.len(),
        forall|i: int| 0 <= i < place.len() ==> 0 <= #[trigger] place[i] < place.len(),
        forall|i: int, j: int|
            #![trigger place[i], place[j]]
            0 <= i < j < place.len() ==> {
                let left = proposal.states[place[i]].height;
                let right = proposal.states[place[j]].height;
                left < right || left == right && place[i] < place[j]
            },
        forall|i: int|
            #![trigger place[i]]
            0 <= i < place.len() ==> {
                let header = pill.0.block.header;
                let outcome = proposal.states[place[i]].state;
                &&& header.confirm_root@[i].bytes@ == outcome.order_root
                &&& header.receipt_root@[i].bytes@ == outcome.receipt_root
                &&& header.logs_bloom@[i].bytes@ == outcome.logs_bloom
                &&& header.cycles_used@[i] == outcome.cycles_used
            },
{
    let ordered = in_height_order(proposal.states);
    let place = height_order_is_a_stable_sort(proposal.states);
    created_header_lists_every_outcome::<C>(before, after, proposal, pill);
    assert forall|i: int| #![trigger place[i]] 0 <= i < place.len() implies ordered[i]
        == proposal.states[place[i]] by {
        assert(ordered[i] == proposal.states[place[i]]);
    }
    assert forall|i: int, j: int|
        #![trigger place[i], place[j]]
        0 <= i < j < place.len() implies {
        let left = proposal.states[place[i]].height;
        let right = proposal.states[place[j]].height;
        left < right || left == right && place[i] < place[j]
    } by {
        assert(ordered[i].height <= ordered[j].height);
        assert(ordered[i] == proposal.states[place[i]]);
        assert(ordered[j] == proposal.states[place[j]]);
    }
    place
}

/// A block that a node makes goes on from the state of the latest outcome, or of the last commit where
/// there is no other, and names the validators of the last commit, all of them and in their order.
pub proof fn created_header_goes_on_from_the_latest<C: ChainCodec>(
    before: Status,
    after: Status,
    proposal: Proposal,
    pill: WrappedPill,
)
    requires
        is_creation::<C>(before, after, proposal, Ok(pill)),
    ensures
        ({
            let header = pill.0.block.header;
            let states = proposal.states;
            let validators = proposal.last_commit.validators;
            &&& states.len() == 0 ==> header.state_root.bytes@ == proposal.last_commit.state_root
            &&& states.len() > 0 ==> exists|k: int|
                {
                    &&& 0 <= k < states.len()
                    &&& header.state_root.bytes@ == (#[trigger] states[k]).state.state_root
                    &&& forall|j: int|
                        0 <= j < states.len() ==> (#[trigger] states[j]).height <= states[k].height
                    &&& forall|j: int|
                        k < j < states.len() ==> (#[trigger] states[j]).height < states[k].height
                }
            &&& header.validators@.len() == validators.len()
            &&& forall|i: int|
                #![trigger validators[i]]
                0 <= i < validators.len() ==> {
                    &&& header.validators@[i].address.bytes@ == validators[i].address
                    &&& header.validators@[i].propose_weight == validators[i].propose_weight
                    &&& header.validators@[i].vote_weight == validators[i].vote_weight
                }
        }),
{
    let header = pill.0.block.header;
    let validators = proposal.last_commit.validators;
    latest_is_of_the_greatest_height(proposal.states, proposal.last_commit);
    assert(pill@.block.header.validators.len() == header.validators@.len());
    assert forall|i: int| #![trigger validators[i]] 0 <= i < validators.len() implies {
        &&& header.validators@[i].address.bytes@ == validators[i].address
        &&& header.validators@[i].propose_weight == validators[i].propose_weight
        &&& header.validators@[i].vote_weight == validators[i].vote_weight
    } by {
        headers_are_modelled_whole(header, i);
        assert(pill@.block.header.validators[i] == header.validators@[i]@);
    }
}

/// Making a block changes nothing of a node but that it remembers one more hash: every byte of the
/// digest of the encoding of the very block that it gives out.
pub proof fn created_block_is_remembered_by_its_digest<C: ChainCodec>(
    before: Status,
    after: Status,
    proposal: Proposal,
    pill: WrappedPill,
)
    requires
        is_creation::<C>(before, after, proposal, Ok(pill)),
    ensures
        after.chain_id == before.chain_id,
        after.address == before.address,
        exists|data: Bytes, digest: ProtoHash|
            {
                &&& #[trigger] call_ensures(
                    C::encode_block,
                    (&pill.0.block,),
                    Ok::<Bytes, C::Error>(data),
                )
                &&& #[trigger] call_ensures(C::digest, (&data,), digest)
                &&& after.from_myself@ == before.from_myself@.insert(digest.bytes@)
            },
{
}

/// No block is made only where the parent hash, or else the hash in the proof, is no hash of the
/// chain, or else the block has no encoding. The error is that of the chain, and the node stays as it
/// is.
pub proof fn creation_fails_for_a_reason<C: ChainCodec>(
    before: Status,
    after: Status,
    proposal: Proposal,
    error: C::Error,
)
    requires
        is_creation::<C>(before, after, proposal, Err(error)),
    ensures
        after.chain_id == before.chain_id,
        after.address == before.address,
        after.from_myself@ == before.from_myself@,
        call_ensures(
            C::hash_from_bytes,
            (&proposal.pre_hash,),
            Err::<ProtoHash, C::Error>(error),
        ) || (exists|parent: ProtoHash| #[trigger]
            call_ensures(
                C::hash_from_bytes,
                (&proposal.pre_hash,),
                Ok::<ProtoHash, C::Error>(parent),
            ) && (call_ensures(
                C::hash_from_bytes,
                (&proposal.pre_proof.vote.block_hash,),
                Err::<ProtoHash, C::Error>(error),
            ) || (exists|voted: ProtoHash, block: Block|
                {
                    &&& #[trigger] call_ensures(
                        C::hash_from_bytes,
                        (&proposal.pre_proof.vote.block_hash,),
                        Ok::<ProtoHash, C::Error>(voted),
                    )
                    &&& #[trigger] call_ensures(
                        C::encode_block,
                        (&block,),
                        Err::<Bytes, C::Error>(error),
                    )
                    &&& block.header.chain_id.bytes@ == before.chain_id.bytes@
                    &&& block.header.proposer.bytes@ == before.address.bytes@
                    &&& block.header.height == proposal.height
                    &&& block.header.exec_height == proposal.exec_height
                    &&& block.header.timestamp == proposal.timestamp
                    &&& block.header.pre_hash.bytes@ == parent.bytes@
                    &&& block.header.pre_proof.block_hash.bytes@ == voted.bytes@
                    &&& block.ordered_tx_hashes@ == proposal.ordered_tx_hashes@
                }))),
{
}

/// A node accepts a block only if it remembers every byte of the digest of the block's encoding, or
/// the header is right in all that is compared. The order root is then the one over one leaf per
/// transaction hash, in order: the digest of the encoding of that hash.
pub proof fn accepted_order_root_is_over_every_hash<C: ChainCodec>(
    status: Status,
    pill: WrappedPill,
    states: Seq<BlockStateView>,
    last_commit: ExecRespView,
    verdict: Result<(), AdapterError<C::Error>>,
)
    requires
        is_check::<C>(status, pill, states, last_commit, verdict),
        verdict is Ok,
    ensures
        (exists|data: Bytes, digest: ProtoHash|
            {
                &&& #[trigger] call_ensures(
                    C::encode_block,
                    (&pill.0.block,),
                    Ok::<Bytes, C::Error>(data),
                )
                &&& #[trigger] call_ensures(C::digest, (&data,), digest)
                &&& status.from_myself@.contains(digest.bytes@)
            }) || (exists|
            data: Seq<Bytes>,
            leaves: Vec<ProtoHash>,
            found: Option<ProtoHash>,
            root: ProtoHash,
        |
            #![trigger call_ensures(C::merkle_root, (&leaves,), found), data.len(), root.bytes]
            {
                let hashes = pill.0.block.ordered_tx_hashes@;
                &&& pill.0.block.header.order_root.bytes@ == root.bytes@
                &&& call_ensures(C::merkle_root, (&leaves,), found)
                &&& found is Some ==> root.bytes@ == found->0.bytes@
                &&& found is None ==> call_ensures(C::empty_hash, (), root)
                &&& leaves@.len() == hashes.len()
                &&& data.len() == hashes.len()
                &&& forall|i: int|
                    #![trigger data[i]]
                    0 <= i < hashes.len() ==> {
                        &&& call_ensures(C::encode_hash, (&hashes[i],), data[i])
                        &&& call_ensures(C::digest, (&data[i],), leaves@[i])
                    }
            }),
{
    let hash = choose|hash: Result<Bytes, C::Error>| #[trigger]
        is_block_hash::<C>(pill.0.block, hash) && match hash {
            Err(error) => verdict == Err::<(), AdapterError<C::Error>>(
                AdapterError::Protocol(error),
            ),
            Ok(own) => if status.from_myself@.contains(own@) {
                verdict is Ok
            } else {
                exists|root: ProtoHash| #[trigger]
                    is_encoded_root::<C>(pill.0.block.ordered_tx_hashes@, root) && passes_on(
                        verdict,
                        refusal(status.chain_id@, root@, pill@.block.header, states, last_commit),
                    )
            },
        };
    block_hash_is_the_whole_digest::<C>(pill.0.block, hash);
    if !status.from_myself@.contains(hash->Ok_0@) {
        let hashes = pill.0.block.ordered_tx_hashes@;
        let root = choose|root: ProtoHash| #[trigger]
            is_encoded_root::<C>(hashes, root) && passes_on(
                verdict,
                refusal(status.chain_id@, root@, pill@.block.header, states, last_commit),
            );
        refusal_is_the_first_difference(
            status.chain_id@,
            root@,
            pill@.block.header,
            states,
            last_commit,
        );
        expected_root_is_over_every_hash::<C>(hashes, root);
        let (data, leaves, found) = choose|
            data: Seq<Bytes>,
            leaves: Vec<ProtoHash>,
            found: Option<ProtoHash>,
        |
            {
                &&& #[trigger] call_ensures(C::merkle_root, (&leaves,), found)
                &&& found is Some ==> root.bytes@ == found->0.bytes@
                &&& found is None ==> call_ensures(C::empty_hash, (), root)
                &&& leaves@.len() == hashes.len()
                &&& #[trigger] data.len() == hashes.len()
                &&& forall|i: int|
                    #![trigger data[i]]
                    0 <= i < hashes.len() ==> {
                        &&& call_ensures(C::encode_hash, (&hashes[i],), data[i])
                        &&& call_ensures(C::digest, (&data[i],), leaves@[i])
                    }
            };
        assert(call_ensures(C::merkle_root, (&leaves,), found) && data.len() == hashes.len());
        assert(root.bytes@ == root@);
    }
}

/// What is compared of a header, and in which order: a block is refused for the first that differs,
/// and for nothing else. The lists are compared at every place, with the outcome at this place of the
/// height order.
pub proof fn refusal_is_the_first_difference(
    chain_id: Seq<u8>,
    order_root: Seq<u8>,
    header: BlockHeaderView,
    states: Seq<BlockStateView>,
    last_commit: ExecRespView,
)
    ensures
        ({
            let n = states.len();
            let ordered = in_height_order(states);
            let newest = if n == 0 {
                last_commit
            } else {
                ordered[n - 1].state
            };
            let blooms = header.logs_bloom.len() == n && forall|i: int|
                0 <= i < n ==> #[trigger] header.logs_bloom[i] == ordered[i].state.logs_bloom;
            let receipts = header.receipt_root.len() == n && forall|i: int|
                0 <= i < n ==> #[trigger] header.receipt_root[i] == ordered[i].state.receipt_root;
            let used = header.cycles_used.len() == n && forall|i: int|
                0 <= i < n ==> #[trigger] header.cycles_used[i] == ordered[i].state.cycles_used;
            let orders = header.confirm_root.len() == n && forall|i: int|
                0 <= i < n ==> #[trigger] header.confirm_root[i] == ordered[i].state.order_root;
            refusal(chain_id, order_root, header, states, last_commit) == if header.order_root
                != order_root {
                Some("block.order_root != expect.order_root"@)
            } else if header.chain_id != chain_id {
                Some("block.chain_id != self.chain_id"@)
            } else if header.state_root != newest.state_root {
                Some("block.state_root != expect.state_root"@)
            } else if header.validators != newest.validators {
                Some("block.validators != expect.validators"@)
            } else if !blooms {
                Some("block.log_bloom != expect.log_bloom"@)
            } else if !receipts {
                Some("block.receipt_root != expect.receipt_root"@)
            } else if !used {
                Some("block.cycles_used != expect.cycles_used"@)
            } else if !orders {
                Some("block.confirm_root != expect.confirm_root"@)
            } else {
                None
            }
        }),
{
    height_order_exists(states);
    let n = states.len();
    let ordered = in_height_order(states);
    if header.logs_bloom.len() == n && forall|i: int|
        0 <= i < n ==> #[trigger] header.logs_bloom[i] == ordered[i].state.logs_bloom {
        assert(header.logs_bloom =~= logs_blooms(ordered));
    } else if header.logs_bloom == logs_blooms(ordered) {
        assert(forall|i: int|
            0 <= i < n ==> logs_blooms(ordered)[i] == ordered[i].state.logs_bloom);
    }
    if header.receipt_root.len() == n && forall|i: int|
        0 <= i < n ==> #[trigger] header.receipt_root[i] == ordered[i].state.receipt_root {
        assert(header.receipt_root =~= receipt_roots(ordered));
    } else if header.receipt_root == receipt_roots(ordered) {
        assert(forall|i: int|
            0 <= i < n ==> receipt_roots(ordered)[i] == ordered[i].state.receipt_root);
    }
    if header.cycles_used.len() == n && forall|i: int|
        0 <= i < n ==> #[trigger] header.cycles_used[i] == ordered[i].state.cycles_used {
        assert(header.cycles_used =~= cycles(ordered));
    } else if header.cycles_used == cycles(ordered) {
        assert(forall|i: int| 0 <= i < n ==> cycles(ordered)[i] == ordered[i].state.cycles_used);
    }
    if header.confirm_root.len() == n && forall|i: int|
        0 <= i < n ==> #[trigger] header.confirm_root[i] == ordered[i].state.order_root {
        assert(header.confirm_root =~= order_roots(ordered));
    } else if header.confirm_root == order_roots(ordered) {
        assert(forall|i: int| 0 <= i < n ==> order_roots(ordered)[i] == ordered[i].state.order_root);
    }
}

/// A verdict on a header accepts where there is nothing to say against it, and otherwise gives the
/// reason as it is.
pub proof fn verdicts_give_the_reason<E>(
    verdict: Result<(), ConsensusError>,
    passed: Result<(), AdapterError<E>>,
    why: Option<Seq<char>>,
)
    requires
        gives_verdict(verdict, why),
        passes_on(passed, why),
    ensures
        verdict is Ok <==> why is None,
        passed is Ok <==> why is None,
        verdict matches Err(ConsensusError::CheckBlock(text)) ==> Some(text@) == why,
        passed matches Err(error) ==> {
            &&& error matches AdapterError::Consensus(ConsensusError::CheckBlock(text))
            &&& Some(text@) == why
        },
{
}

/// The text of an error is the reason behind a fixed beginning.
pub proof fn error_text_ends_with_the_reason(error: ConsensusError)
    ensures
        error matches ConsensusError::CheckBlock(reason) && error.reason() == reason@,
        error_text(error.reason()) == "check block failed, "@ + error.reason(),
{
}

/// A node accepts a block of which it remembers every digest that the chain can give, whatever the
/// header says.
pub proof fn remembered_block_passes<C: ChainCodec>(
    status: Status,
    pill: WrappedPill,
    states: Seq<BlockStateView>,
    last_commit: ExecRespView,
    verdict: Result<(), AdapterError<C::Error>>,
)
    requires
        is_check::<C>(status, pill, states, last_commit, verdict),
        forall|encoded: Result<Bytes, C::Error>| #[trigger]
            call_ensures(C::encode_block, (&pill.0.block,), encoded) ==> encoded is Ok,
        forall|data: Bytes, digest: ProtoHash|
            #![trigger call_ensures(C::digest, (&data,), digest)]
            call_ensures(C::encode_block, (&pill.0.block,), Ok::<Bytes, C::Error>(data))
                && call_ensures(C::digest, (&data,), digest) ==> status.from_myself@.contains(
                digest.bytes@,
            ),
    ensures
        verdict is Ok,
{
}

/// A node that does not remember a block accepts it only if its header is on the node's chain, goes
/// on from the latest outcome with the validators of that outcome, and lists at every place what the
/// outcome at this place of the height order has left.
pub proof fn accepted_header_is_right<C: ChainCodec>(
    status: Status,
    pill: WrappedPill,
    states: Seq<BlockStateView>,
    last_commit: ExecRespView,
    verdict: Result<(), AdapterError<C::Error>>,
)
    requires
        is_check::<C>(status, pill, states, last_commit, verdict),
        verdict is Ok,
        forall|data: Bytes, digest: ProtoHash|
            #![trigger call_ensures(C::digest, (&data,), digest)]
            call_ensures(C::encode_block, (&pill.0.block,), Ok::<Bytes, C::Error>(data))
                && call_ensures(C::digest, (&data,), digest) ==> !status.from_myself@.contains(
                digest.bytes@,
            ),
    ensures
        ({
            let header = pill.0.block.header;
            let n = states.len();
            let ordered = in_height_order(states);
            let newest = if n == 0 {
                last_commit
            } else {
                ordered[n - 1].state
            };
            &&& header.chain_id.bytes@ == status.chain_id.bytes@
            &&& header.state_root.bytes@ == newest.state_root
            &&& header.validators@.len() == newest.validators.len()
            &&& forall|i: int|
                #![trigger newest.validators[i]]
                0 <= i < newest.validators.len() ==> {
                    &&& header.validators@[i].address.bytes@ == newest.validators[i].address
                    &&& header.validators@[i].propose_weight
                        == newest.validators[i].propose_weight
                    &&& header.validators@[i].vote_weight == newest.validators[i].vote_weight
                }
            &&& header.logs_bloom@.len() == n
            &&& header.receipt_root@.len() == n
            &&& header.cycles_used@.len() == n
            &&& header.confirm_root@.len() == n
            &&& forall|i: int|
                #![trigger ordered[i]]
                0 <= i < n ==> {
                    &&& header.logs_bloom@[i].bytes@ == ordered[i].state.logs_bloom
                    &&& header.receipt_root@[i].bytes@ == ordered[i].state.receipt_root
                    &&& header.cycles_used@[i] == ordered[i].state.cycles_used
                    &&& header.confirm_root@[i].bytes@ == ordered[i].state.order_root
                }
        }),
{
    let header = pill.0.block.header;
    let shown = pill@.block.header;
    let n = states.len();
    let ordered = in_height_order(states);
    let hash = choose|hash: Result<Bytes, C::Error>| #[trigger]
        is_block_hash::<C>(pill.0.block, hash) && match hash {
            Err(error) => verdict == Err::<(), AdapterError<C::Error>>(
                AdapterError::Protocol(error),
            ),
            Ok(own) => if status.from_myself@.contains(own@) {
                verdict is Ok
            } else {
                exists|root: ProtoHash| #[trigger]
                    is_encoded_root::<C>(pill.0.block.ordered_tx_hashes@, root) && passes_on(
                        verdict,
                        refusal(status.chain_id@, root@, shown, states, last_commit),
                    )
            },
        };
    block_hash_is_the_whole_digest::<C>(pill.0.block, hash);
    let root = choose|root: ProtoHash| #[trigger]
        is_encoded_root::<C>(pill.0.block.ordered_tx_hashes@, root) && passes_on(
            verdict,
            refusal(status.chain_id@, root@, shown, states, last_commit),
        );
    refusal_is_the_first_difference(status.chain_id@, root@, shown, states, last_commit);
    let newest = if n == 0 {
        last_commit
    } else {
        ordered[n - 1].state
    };
    headers_are_modelled_whole(header, 0);
    assert forall|i: int| #![trigger newest.validators[i]] 0 <= i < newest.validators.len() implies {
        &&& header.validators@[i].address.bytes@ == newest.validators[i].address
        &&& header.validators@[i].propose_weight == newest.validators[i].propose_weight
        &&& header.validators@[i].vote_weight == newest.validators[i].vote_weight
    } by {
        headers_are_modelled_whole(header, i);
        assert(shown.validators[i] == header.validators@[i]@);
    }
    assert forall|i: int| #![trigger ordered[i]] 0 <= i < n implies {
        &&& header.logs_bloom@[i].bytes@ == ordered[i].state.logs_bloom
        &&& header.receipt_root@[i].bytes@ == ordered[i].state.receipt_root
        &&& header.cycles_used@[i] == ordered[i].state.cycles_used
        &&& header.confirm_root@[i].bytes@ == ordered[i].state.order_root
    } by {
        headers_are_modelled_whole(header, i);
        assert(shown.logs_bloom[i] == ordered[i].state.logs_bloom);
        assert(shown.receipt_root[i] == ordered[i].state.receipt_root);
        assert(shown.cycles_used[i] == ordered[i].state.cycles_used);
        assert(shown.confirm_root[i] == ordered[i].state.order_root);
    }
}

/// A node refuses a block only for a reason: with the error of the chain where the block has no
/// encoding, and otherwise for the first difference between its header and what the node expects,
/// where the node does not remember the block.
pub proof fn refused_block_has_a_fault<C: ChainCodec>(
    status: Status,
    pill: WrappedPill,
    states: Seq<BlockStateView>,
    last_commit: ExecRespView,
    error: AdapterError<C::Error>,
)
    requires
        is_check::<C>(status, pill, states, last_commit, Err(error)),
    ensures
        match error {
            AdapterError::Protocol(fault) => call_ensures(
                C::encode_block,
                (&pill.0.block,),
                Err::<Bytes, C::Error>(fault),
            ),
            AdapterError::Consensus(ConsensusError::CheckBlock(reason)) => {
                &&& exists|data: Bytes, digest: ProtoHash|
                    {
                        &&& #[trigger] call_ensures(
                            C::encode_block,
                            (&pill.0.block,),
                            Ok::<Bytes, C::Error>(data),
                        )
                        &&& #[trigger] call_ensures(C::digest, (&data,), digest)
                        &&& !status.from_myself@.contains(digest.bytes@)
                    }
                &&& exists|root: ProtoHash| #[trigger]
                    is_encoded_root::<C>(pill.0.block.ordered_tx_hashes@, root) && refusal(
                        status.chain_id.bytes@,
                        root.bytes@,
                        pill.0.block.header@,
                        states,
                        last_commit,
                    ) == Some(reason@)
            },
        },
{
}

/// The configuration that metadata sets: the timing field by field, and for every verifier the
/// authority at the same place, with its voting key, its address and its weights.
pub proof fn configuration_is_that_of_the_metadata(metadata: MetadataView)
    ensures
        ({
            let config = config_of(metadata);
            &&& config.max_exec_behind == 5
            &&& config.common_ref == metadata.common_ref
            &&& config.mode == SelectMode::InTurn
            &&& config.time_config.interval == metadata.interval
            &&& config.time_config.propose_ratio == metadata.propose_ratio
            &&& config.time_config.pre_vote_ratio == metadata.prevote_ratio
            &&& config.time_config.pre_commit_ratio == metadata.precommit_ratio
            &&& config.time_config.brake_ratio == metadata.brake_ratio
            &&& config.auth_list.len() == metadata.verifier_list.len()
            &&& forall|i: int|
                #![trigger config.auth_list[i]]
                #![trigger metadata.verifier_list[i]]
                0 <= i < metadata.verifier_list.len() ==> {
                    &&& config.auth_list[i].party_pub_key == metadata.verifier_list[i].bls_pub_key
                    &&& config.auth_list[i].address == metadata.verifier_list[i].address
                    &&& config.auth_list[i].propose_weight
                        == metadata.verifier_list[i].propose_weight
                    &&& config.auth_list[i].vote_weight == metadata.verifier_list[i].vote_weight
                }
        }),
{
}

/// The outcome of an execution holds the roots, the filter and the cycles that are given, the limits
/// of the metadata, and for every verifier the validator at the same place.
pub proof fn outcome_is_what_was_left(
    metadata: MetadataView,
    state_root: Seq<u8>,
    order_root: Seq<u8>,
    receipt_root: Seq<u8>,
    logs_bloom: Seq<u8>,
    cycles_used: u64,
)
    ensures
        ({
            let outcome = outcome_of(
                metadata,
                state_root,
                order_root,
                receipt_root,
                logs_bloom,
                cycles_used,
            );
            &&& outcome.state_root == state_root
            &&& outcome.order_root == order_root
            &&& outcome.receipt_root == receipt_root
            &&& outcome.logs_bloom == logs_bloom
            &&& outcome.cycles_used == cycles_used
            &&& outcome.cycles_limit == metadata.cycles_limit
            &&& outcome.tx_num_limit == metadata.tx_num_limit
            &&& outcome.max_tx_size == metadata.max_tx_size
            &&& outcome.validators.len() == metadata.verifier_list.len()
            &&& forall|i: int|
                #![trigger outcome.validators[i]]
                #![trigger metadata.verifier_list[i]]
                0 <= i < metadata.verifier_list.len() ==> {
                    &&& outcome.validators[i].address == metadata.verifier_list[i].address
                    &&& outcome.validators[i].propose_weight
                        == metadata.verifier_list[i].propose_weight
                    &&& outcome.validators[i].vote_weight == metadata.verifier_list[i].vote_weight
                }
        }),
{
}

/// What the engine learns of a saved block: the height, the root of its transactions as its header
/// says it, the state from which it was executed, what its execution has left, and the rules that
/// the metadata sets.
pub proof fn saved_result_reports_the_execution<T, R>(done: Executed<T, R>)
    ensures
        ({
            let result = saved_result(done);
            let outcome = result.block_states.state;
            let authorities = result.consensus_config.auth_list;
            let verifiers = done.metadata.verifier_list@;
            &&& result.block_states.height == done.height
            &&& outcome.order_root == done.full_block.block.header.order_root.bytes@
            &&& outcome.state_root == done.state_root.bytes@
            &&& outcome.receipt_root == done.receipt_root.bytes@
            &&& outcome.logs_bloom == done.resp.logs_bloom.bytes@
            &&& outcome.cycles_used == done.resp.all_cycles_used
            &&& outcome.cycles_limit == done.metadata.cycles_limit
            &&& outcome.tx_num_limit == done.metadata.tx_num_limit
            &&& outcome.max_tx_size == done.metadata.max_tx_size
            &&& result.consensus_config == config_of(done.metadata@)
            &&& authorities.len() == verifiers.len()
            &&& outcome.validators.len() == verifiers.len()
            &&& forall|i: int|
                #![trigger verifiers[i]]
                0 <= i < verifiers.len() ==> {
                    &&& authorities[i].party_pub_key == verifiers[i].bls_pub_key@
                    &&& authorities[i].address == verifiers[i].address.bytes@
                    &&& authorities[i].propose_weight == verifiers[i].propose_weight
                    &&& authorities[i].vote_weight == verifiers[i].vote_weight
                    &&& outcome.validators[i].address == verifiers[i].address.bytes@
                    &&& outcome.validators[i].propose_weight == verifiers[i].propose_weight
                    &&& outcome.validators[i].vote_weight == verifiers[i].vote_weight
                }
        }),
{
}

/// Where nothing has been executed, the result is the engine's default around an outcome with the
/// chain's default hashes and filter, zeros, and no validators.
pub proof fn default_result_is_made_of_defaults<C: ChainCodec>(result: ExecResult)
    requires
        is_default_result::<C>(result),
    ensures
        exists|resp: ExecResp|
            {
                &&& #[trigger] call_ensures(C::default_exec_result, (resp,), result)
                &&& call_ensures(C::default_hash, (), resp.order_root)
                &&& call_ensures(C::default_hash, (), resp.state_root)
                &&& call_ensures(C::default_hash, (), resp.receipt_root)
                &&& call_ensures(C::default_bloom, (), resp.logs_bloom)
                &&& resp.cycles_used == 0
                &&& resp.cycles_limit == 0
                &&& resp.tx_num_limit == 0
                &&& resp.max_tx_size == 0
                &&& resp.validators@.len() == 0
            },
{
}

/// The engine's form of a stored proof has the same height, round, hash, signature and map of
/// signers.
pub proof fn engine_form_keeps_every_part(stored: ProtoProofView)
    ensures
        ({
            let quorum = engine_form(stored);
            &&& quorum.height == stored.height
            &&& quorum.round == stored.round
            &&& quorum.block_hash == stored.block_hash
            &&& quorum.address_bitmap == stored.bitmap
            &&& quorum.signature == stored.signature
        }),
{
}

/// The stored form of a proof has the same height, round, signature and map of signers, and the hash
/// that the chain has read of the hash that was voted for. It is missing only where the chain reads
/// no hash, and for the same reason.
pub proof fn stored_form_keeps_every_part<C: ChainCodec>(
    quorum: Proof,
    stored: Result<ProtoProof, C::Error>,
)
    requires
        is_stored_form::<C>(quorum, stored),
    ensures
        match stored {
            Ok(done) => {
                &&& done.height == quorum.vote.height
                &&& done.round == quorum.vote.round
                &&& done.signature@ == quorum.aggregates.signature@
                &&& done.bitmap@ == quorum.aggregates.address_bitmap@
                &&& exists|voted: ProtoHash| #[trigger]
                    call_ensures(
                        C::hash_from_bytes,
                        (&quorum.vote.block_hash,),
                        Ok::<ProtoHash, C::Error>(voted),
                    ) && done.block_hash.bytes@ == voted.bytes@
            },
            Err(error) => call_ensures(
                C::hash_from_bytes,
                (&quorum.vote.block_hash,),
                Err::<ProtoHash, C::Error>(error),
            ),
        },
{
}

/// The parts of a proof with its hash read are put together as they are.
pub proof fn stored_parts_are_those_of_the_proof(quorum: Proof, block_hash: ProtoHash)
    ensures
        ({
            let stored = stored_proof(quorum, block_hash);
            &&& stored.height == quorum.vote.height
            &&& stored.round == quorum.vote.round
            &&& stored.block_hash == block_hash
            &&& stored.signature == quorum.aggregates.signature
            &&& stored.bitmap == quorum.aggregates.address_bitmap
            &&& stored_form(quorum@, block_hash.bytes@) == stored@
        }),
{
}

/// The metadata is read as of the given state, height and time, with as many cycles as there can be,
/// by a caller of twenty zero bytes.
pub proof fn metadata_is_read_as_of_the_state(
    call: ReadCall,
    state_root: Seq<u8>,
    height: u64,
    timestamp: u64,
)
    requires
        is_metadata_call(call, state_root, height, timestamp),
    ensures
        call.params.state_root.bytes@ == state_root,
        call.params.height == height,
        call.params.timestamp == timestamp,
        call.params.cycles_limit == 0xffff_ffff_ffff_ffff,
        call.caller@ == "0x0000000000000000000000000000000000000000"@,
        call.cycles_price == 1,
        call.request.service_name@ == "metadata"@,
        call.request.method@ == "get_metadata"@,
        call.request.payload@ == ""@,
{
}

/// A block is executed on top of the given state, at the given height and time, within the given
/// cycles.
pub proof fn execution_is_as_given(
    params: ExecutorParams,
    state_root: Seq<u8>,
    height: u64,
    timestamp: u64,
    cycles_limit: u64,
)
    requires
        is_params(params, state_root, height, timestamp, cycles_limit),
    ensures
        params.state_root.bytes@ == state_root,
        params.height == height,
        params.timestamp == timestamp,
        params.cycles_limit == cycles_limit,
{
}

/// What a node first asks for a pill: the transactions at once where it remembers every byte of the
/// digest of the block's encoding, and otherwise that they be ensured. Where the block has no
/// encoding, the fetching has failed with the error of the chain.
pub proof fn fetching_starts_by_the_digest<C: ChainCodec>(
    status: Status,
    pill: WrappedPill,
    step: FetchStep<C::Transaction, C::Error>,
)
    requires
        is_fetch_start::<C>(status, pill, step),
    ensures
        match step {
            FetchStep::GetFullTxs(kept) => kept == pill && exists|data: Bytes, digest: ProtoHash|
                {
                    &&& #[trigger] call_ensures(
                        C::encode_block,
                        (&pill.0.block,),
                        Ok::<Bytes, C::Error>(data),
                    )
                    &&& #[trigger] call_ensures(C::digest, (&data,), digest)
                    &&& status.from_myself@.contains(digest.bytes@)
                },
            FetchStep::EnsureOrderTxs(kept) => kept == pill && exists|
                data: Bytes,
                digest: ProtoHash,
            |
                {
                    &&& #[trigger] call_ensures(
                        C::encode_block,
                        (&pill.0.block,),
                        Ok::<Bytes, C::Error>(data),
                    )
                    &&& #[trigger] call_ensures(C::digest, (&data,), digest)
                    &&& !status.from_myself@.contains(digest.bytes@)
                },
            FetchStep::Failed(error) => call_ensures(
                C::encode_block,
                (&pill.0.block,),
                Err::<Bytes, C::Error>(error),
            ),
            _ => false,
        },
{
}

/// The fetching takes every answer to what it has asked: a good one leads on, with the block of the
/// pill and the transactions as they were handed out, and an error ends it with that error.
pub proof fn fetching_takes_every_answer<T, E>(
    pill: WrappedPill,
    txs: Vec<T>,
    full_block: FullBlock<T>,
    data: Bytes,
    error: E,
)
    ensures
        fetch_next(
            FetchStep::<T, E>::EnsureOrderTxs(pill),
            FetchEvent::OrderTxsEnsured(Ok(())),
        ) == FetchStep::<T, E>::GetFullTxs(pill),
        fetch_next(FetchStep::<T, E>::GetFullTxs(pill), FetchEvent::FullTxs(Ok(txs)))
            == FetchStep::<T, E>::Encode((FullBlock { block: pill.0.block, ordered_txs: txs })),
        fetch_next(FetchStep::<T, E>::Encode(full_block), FetchEvent::Encoded(Ok(data)))
            == FetchStep::<T, E>::Finished(data),
        fetch_next(FetchStep::<T, E>::EnsureOrderTxs(pill), FetchEvent::OrderTxsEnsured(Err(error)))
            == FetchStep::<T, E>::Failed(error),
        fetch_next(FetchStep::<T, E>::GetFullTxs(pill), FetchEvent::FullTxs(Err(error))) == FetchStep::<
            T,
            E,
        >::Failed(error),
        fetch_next(FetchStep::<T, E>::Encode(full_block), FetchEvent::Encoded(Err(error))) == FetchStep::<
            T,
            E,
        >::Failed(error),
{
}

/// An answer to what was not asked changes nothing in a fetching.
pub proof fn fetching_heeds_no_other_answer<T, E>(step: FetchStep<T, E>, event: FetchEvent<T, E>)
    ensures
        match (step, event) {
            (FetchStep::EnsureOrderTxs(_), FetchEvent::OrderTxsEnsured(_)) => true,
            (FetchStep::GetFullTxs(_), FetchEvent::FullTxs(_)) => true,
            (FetchStep::Encode(_), FetchEvent::Encoded(_)) => true,
            _ => fetch_next(step, event) == step,
        },
{
}

/// The saving goes on upon a good answer to what it has asked, and carries along what it has been
/// given and told.
pub proof fn saving_goes_on_upon_good_answers<T, R, E>(
    order: SaveOrder,
    latest_height: u64,
    full_block: FullBlock<T>,
    block: ExecOrder<T>,
    resp: ExecutorResp<R>,
    metadata: Metadata,
    root: ProtoHash,
    done: Executed<T, R>,
    quorum: Proof,
    block_hash: ProtoHash,
    stored: ProtoProof,
)
    ensures
        save_next(
            SaveStep::<T, R, E>::GetLatestBlock(order),
            SaveEvent::LatestHeight(Ok(latest_height)),
        ) == if latest_height + 1 == order.height {
            SaveStep::<T, R, E>::Decode(order)
        } else {
            SaveStep::<T, R, E>::WrongHeight { latest_height, height: order.height }
        },
        save_next(SaveStep::<T, R, E>::Decode(order), SaveEvent::Decoded(Ok(full_block)))
            == SaveStep::<T, R, E>::Exec(
            (ExecOrder {
                height: order.height,
                full_block,
                quorum: order.quorum,
                state_root: order.state_root,
                cycles_limit: order.cycles_limit,
            }),
        ),
        save_next(SaveStep::<T, R, E>::Exec(block), SaveEvent::Executed(Ok(resp))) == SaveStep::<
            T,
            R,
            E,
        >::ReadMetadata(block, resp),
        save_next(
            SaveStep::<T, R, E>::ReadMetadata(block, resp),
            SaveEvent::MetadataRead(Ok(metadata)),
        ) == SaveStep::<T, R, E>::FindReceiptRoot(block, resp, metadata),
        save_next(
            SaveStep::<T, R, E>::FindReceiptRoot(block, resp, metadata),
            SaveEvent::ReceiptRootFound(root),
        ) == SaveStep::<T, R, E>::InsertReceipts(
            (Executed {
                height: block.height,
                full_block: block.full_block,
                state_root: block.state_root,
                resp,
                metadata,
                receipt_root: root,
            }),
            block.quorum,
        ),
        save_next(
            SaveStep::<T, R, E>::InsertReceipts(done, quorum),
            SaveEvent::ReceiptsInserted(Ok(())),
        ) == SaveStep::<T, R, E>::ReadProofHash(done, quorum),
        save_next(
            SaveStep::<T, R, E>::ReadProofHash(done, quorum),
            SaveEvent::ProofHashRead(Ok(block_hash)),
        ) == SaveStep::<T, R, E>::UpdateLatestProof(
            done,
            (ProtoProof {
                height: quorum.vote.height,
                round: quorum.vote.round,
                block_hash,
                signature: quorum.aggregates.signature,
                bitmap: quorum.aggregates.address_bitmap,
            }),
        ),
        save_next(
            SaveStep::<T, R, E>::UpdateLatestProof(done, stored),
            SaveEvent::ProofUpdated(Ok(())),
        ) == SaveStep::<T, R, E>::InsertBlock(done),
        save_next(SaveStep::<T, R, E>::InsertBlock(done), SaveEvent::BlockInserted(Ok(())))
            == SaveStep::<T, R, E>::InsertTransactions(done),
        save_next(
            SaveStep::<T, R, E>::InsertTransactions(done),
            SaveEvent::TransactionsInserted(Ok(())),
        ) == SaveStep::<T, R, E>::Flush(done),
        save_next(SaveStep::<T, R, E>::Flush(done), SaveEvent::Flushed(Ok(()))) == SaveStep::<
            T,
            R,
            E,
        >::Finished(done),
{
}

/// An error in answer to what the saving has asked ends it with that error.
pub proof fn saving_ends_upon_every_error<T, R, E>(
    order: SaveOrder,
    block: ExecOrder<T>,
    resp: ExecutorResp<R>,
    done: Executed<T, R>,
    quorum: Proof,
    stored: ProtoProof,
    error: E,
)
    ensures
        ({
            let failed = SaveStep::<T, R, E>::Failed(error);
            &&& save_next(SaveStep::<T, R, E>::GetLatestBlock(order), SaveEvent::LatestHeight(Err(error)))
                == failed
            &&& save_next(SaveStep::<T, R, E>::Decode(order), SaveEvent::Decoded(Err(error))) == failed
            &&& save_next(SaveStep::<T, R, E>::Exec(block), SaveEvent::Executed(Err(error))) == failed
            &&& save_next(SaveStep::<T, R, E>::ReadMetadata(block, resp), SaveEvent::MetadataRead(Err(error)))
                == failed
            &&& save_next(
                SaveStep::<T, R, E>::InsertReceipts(done, quorum),
                SaveEvent::ReceiptsInserted(Err(error)),
            ) == failed
            &&& save_next(
                SaveStep::<T, R, E>::ReadProofHash(done, quorum),
                SaveEvent::ProofHashRead(Err(error)),
            ) == failed
            &&& save_next(
                SaveStep::<T, R, E>::UpdateLatestProof(done, stored),
                SaveEvent::ProofUpdated(Err(error)),
            ) == failed
            &&& save_next(SaveStep::<T, R, E>::InsertBlock(done), SaveEvent::BlockInserted(Err(error)))
                == failed
            &&& save_next(
                SaveStep::<T, R, E>::InsertTransactions(done),
                SaveEvent::TransactionsInserted(Err(error)),
            ) == failed
            &&& save_next(SaveStep::<T, R, E>::Flush(done), SaveEvent::Flushed(Err(error))) == failed
        }),
{
}

/// An answer to what was not asked changes nothing in a saving.
pub proof fn saving_heeds_no_other_answer<T, R, E>(step: SaveStep<T, R, E>, event: SaveEvent<T, R, E>)
    ensures
        match (step, event) {
            (SaveStep::GetLatestBlock(_), SaveEvent::LatestHeight(_)) => true,
            (SaveStep::Decode(_), SaveEvent::Decoded(_)) => true,
            (SaveStep::Exec(_), SaveEvent::Executed(_)) => true,
            (SaveStep::ReadMetadata(_, _), SaveEvent::MetadataRead(_)) => true,
            (SaveStep::FindReceiptRoot(_, _, _), SaveEvent::ReceiptRootFound(_)) => true,
            (SaveStep::InsertReceipts(_, _), SaveEvent::ReceiptsInserted(_)) => true,
            (SaveStep::ReadProofHash(_, _), SaveEvent::ProofHashRead(_)) => true,
            (SaveStep::UpdateLatestProof(_, _), SaveEvent::ProofUpdated(_)) => true,
            (SaveStep::InsertBlock(_), SaveEvent::BlockInserted(_)) => true,
            (SaveStep::InsertTransactions(_), SaveEvent::TransactionsInserted(_)) => true,
            (SaveStep::Flush(_), SaveEvent::Flushed(_)) => true,
            _ => save_next(step, event) == step,
        },
{
}

/// Every step of a saving that waits for a service asks it for something, and no other step does.
pub proof fn waiting_steps_ask<T, R, E>(
    step: SaveStep<T, R, E>,
    request: Option<SaveRequest<'_, T, R>>,
)
    requires
        is_save_request(step, request),
    ensures
        match step {
            SaveStep::GetLatestBlock(_) => request matches Some(SaveRequest::GetLatestBlock),
            SaveStep::Exec(_) => request matches Some(SaveRequest::Exec(_, _)),
            SaveStep::ReadMetadata(_, _) => request matches Some(SaveRequest::ReadMetadata(_)),
            SaveStep::InsertReceipts(_, _) => request matches Some(SaveRequest::InsertReceipts(_)),
            SaveStep::UpdateLatestProof(_, _) => request matches Some(
                SaveRequest::UpdateLatestProof(_),
            ),
            SaveStep::InsertBlock(_) => request matches Some(SaveRequest::InsertBlock(_)),
            SaveStep::InsertTransactions(_) => request matches Some(
                SaveRequest::InsertTransactions(_),
            ),
            SaveStep::Flush(_) => request matches Some(SaveRequest::Flush(_)),
            _ => request is None,
        },
{
}

/// What a saving asks of the services is what it was ordered and what they have answered: it executes
/// the transactions of the decoded block on top of the given state within the given cycles, reads the
/// metadata as of the state that the execution has left, stores its receipts, the given proof, the
/// block and its transactions, and has the pool drop the transactions of the block.
pub proof fn services_are_asked_for_what_was_ordered<C: ChainCodec>(
    order: SaveOrder,
    steps: Seq<SaveStep<C::Transaction, C::Receipt, C::Error>>,
    events: Seq<SaveEvent<C::Transaction, C::Receipt, C::Error>>,
    n: int,
    request: SaveRequest<'_, C::Transaction, C::Receipt>,
)
    requires
        is_save_run::<C>(order, steps, events),
        0 <= n < steps.len(),
        is_save_request(steps[n], Some(request)),
    ensures
        match request {
            SaveRequest::GetLatestBlock => true,
            SaveRequest::Exec(params, txs) => exists|decoded: FullBlock<C::Transaction>|
                {
                    &&& #[trigger] call_ensures(
                        C::decode_full_block,
                        (&order.full_block,),
                        Ok::<FullBlock<C::Transaction>, C::Error>(decoded),
                    )
                    &&& txs@ == decoded.ordered_txs@
                    &&& params.state_root.bytes@ == order.state_root.bytes@
                    &&& params.height == order.height
                    &&& params.timestamp == decoded.block.header.timestamp
                    &&& params.cycles_limit == order.cycles_limit
                },
            SaveRequest::ReadMetadata(call) => {
                &&& call.params.height == order.height
                &&& exists|decoded: FullBlock<C::Transaction>|
                    {
                        &&& #[trigger] call_ensures(
                            C::decode_full_block,
                            (&order.full_block,),
                            Ok::<FullBlock<C::Transaction>, C::Error>(decoded),
                        )
                        &&& call.params.timestamp == decoded.block.header.timestamp
                    }
                &&& exists|m: int|
                    {
                        &&& 0 <= m < n
                        &&& #[trigger] events[m] matches SaveEvent::Executed(Ok(resp))
                        &&& call.params.state_root.bytes@ == resp.state_root.bytes@
                    }
            },
            SaveRequest::InsertReceipts(receipts) => exists|m: int|
                {
                    &&& 0 <= m < n
                    &&& #[trigger] events[m] matches SaveEvent::Executed(Ok(resp))
                    &&& receipts@ == resp.receipts@
                },
            SaveRequest::UpdateLatestProof(stored) => {
                &&& stored.height == order.quorum.vote.height
                &&& stored.round == order.quorum.vote.round
                &&& stored.signature@ == order.quorum.aggregates.signature@
                &&& stored.bitmap@ == order.quorum.aggregates.address_bitmap@
                &&& exists|voted: ProtoHash| #[trigger]
                    call_ensures(
                        C::hash_from_bytes,
                        (&order.quorum.vote.block_hash,),
                        Ok::<ProtoHash, C::Error>(voted),
                    ) && stored.block_hash.bytes@ == voted.bytes@
            },
            SaveRequest::InsertBlock(block) => exists|decoded: FullBlock<C::Transaction>|
                #[trigger] call_ensures(
                    C::decode_full_block,
                    (&order.full_block,),
                    Ok::<FullBlock<C::Transaction>, C::Error>(decoded),
                ) && *block == decoded.block,
            SaveRequest::InsertTransactions(txs) => exists|decoded: FullBlock<C::Transaction>|
                #[trigger] call_ensures(
                    C::decode_full_block,
                    (&order.full_block,),
                    Ok::<FullBlock<C::Transaction>, C::Error>(decoded),
                ) && txs@ == decoded.ordered_txs@,
            SaveRequest::Flush(hashes) => exists|decoded: FullBlock<C::Transaction>|
                #[trigger] call_ensures(
                    C::decode_full_block,
                    (&order.full_block,),
                    Ok::<FullBlock<C::Transaction>, C::Error>(decoded),
                ) && hashes@ == decoded.block.ordered_tx_hashes@,
        },
{
    save_is_true_to_order::<C>(order, steps, events, n);
    let heard = events.take(n);
    match steps[n] {
        SaveStep::ReadMetadata(_, resp) => {
            let answer: SaveEvent<C::Transaction, C::Receipt, C::Error> = SaveEvent::Executed(
                Ok(resp),
            );
            let m = choose|m: int| 0 <= m < heard.len() && heard[m] == answer;
            assert(events[m] == answer);
        },
        SaveStep::InsertReceipts(done, _) => {
            let answer: SaveEvent<C::Transaction, C::Receipt, C::Error> = SaveEvent::Executed(
                Ok(done.resp),
            );
            let m = choose|m: int| 0 <= m < heard.len() && heard[m] == answer;
            assert(events[m] == answer);
        },
        SaveStep::UpdateLatestProof(_, stored) => {
            stored_form_keeps_every_part::<C>(order.quorum, Ok(stored));
        },
        _ => {},
    }
}

/// A saved block is a decoding of the given bytes, with an outcome that the executor and metadata
/// that the service has answered. Its receipt root is over one leaf per receipt of that outcome, in
/// order: the digest of the encoding of that receipt.
pub proof fn saved_receipt_root_is_over_every_receipt<C: ChainCodec>(
    order: SaveOrder,
    steps: Seq<SaveStep<C::Transaction, C::Receipt, C::Error>>,
    events: Seq<SaveEvent<C::Transaction, C::Receipt, C::Error>>,
    n: int,
    done: Executed<C::Transaction, C::Receipt>,
)
    requires
        is_save_run::<C>(order, steps, events),
        0 <= n < steps.len(),
        steps[n] == SaveStep::<C::Transaction, C::Receipt, C::Error>::Finished(done),
    ensures
        done.height == order.height,
        done.state_root.bytes@ == order.state_root.bytes@,
        call_ensures(
            C::decode_full_block,
            (&order.full_block,),
            Ok::<FullBlock<C::Transaction>, C::Error>(done.full_block),
        ),
        exists|m: int| 0 <= m < n && #[trigger] events[m] == SaveEvent::<
            C::Transaction,
            C::Receipt,
            C::Error,
        >::Executed(Ok(done.resp)),
        exists|m: int| 0 <= m < n && #[trigger] events[m] == SaveEvent::<
            C::Transaction,
            C::Receipt,
            C::Error,
        >::MetadataRead(Ok(done.metadata)),
        exists|data: Seq<Bytes>, leaves: Vec<ProtoHash>, found: Option<ProtoHash>|
            {
                let receipts = done.resp.receipts@;
                &&& #[trigger] call_ensures(C::merkle_root, (&leaves,), found)
                &&& found is Some ==> done.receipt_root.bytes@ == found->0.bytes@
                &&& found is None ==> call_ensures(C::empty_hash, (), done.receipt_root)
                &&& leaves@.len() == receipts.len()
                &&& #[trigger] data.len() == receipts.len()
                &&& forall|i: int|
                    #![trigger data[i]]
                    0 <= i < receipts.len() ==> {
                        &&& call_ensures(C::encode_receipt, (&receipts[i],), data[i])
                        &&& call_ensures(C::digest, (&data[i],), leaves@[i])
                    }
            },
{
    save_is_true_to_order::<C>(order, steps, events, n);
    let heard = events.take(n);
    let ran: SaveEvent<C::Transaction, C::Receipt, C::Error> = SaveEvent::Executed(Ok(done.resp));
    let k = choose|k: int| 0 <= k < heard.len() && heard[k] == ran;
    assert(events[k] == ran);
    let told: SaveEvent<C::Transaction, C::Receipt, C::Error> = SaveEvent::MetadataRead(
        Ok(done.metadata),
    );
    let m = choose|m: int| 0 <= m < heard.len() && heard[m] == told;
    assert(events[m] == told);
    receipt_root_is_over_every_receipt::<C>(done.resp.receipts@, done.receipt_root);
}

/// An outcome with the default of every field has the chain's default hashes and filter, zeros, and no
/// validators.
pub proof fn default_outcome_is_made_of_defaults<C: ChainCodec>(resp: ExecResp)
    requires
        is_default_resp::<C>(resp),
    ensures
        call_ensures(C::default_hash, (), resp.order_root),
        call_ensures(C::default_hash, (), resp.state_root),
        call_ensures(C::default_hash, (), resp.receipt_root),
        call_ensures(C::default_bloom, (), resp.logs_bloom),
        resp.cycles_used == 0,
        resp.cycles_limit == 0,
        resp.tx_num_limit == 0,
        resp.max_tx_size == 0,
        resp.validators@.len() == 0,
{
}

/// Picking takes, for every index, the outcome that stands there.
pub proof fn picking_goes_by_the_indices(states: Seq<BlockStateView>, indices: Seq<usize>, i: int)
    ensures
        picked(states, indices).len() == indices.len(),
        0 <= i < indices.len() ==> picked(states, indices)[i] == states[indices[i] as int],
{
}

/// Computing what a fetching waits for encodes the full block as it stands, and leaves every other
/// step as it is.
pub proof fn settled_fetching_has_encoded<C: ChainCodec>(
    step: FetchStep<C::Transaction, C::Error>,
    settled: FetchStep<C::Transaction, C::Error>,
)
    requires
        is_fetch_settled::<C>(step, settled),
    ensures
        match step {
            FetchStep::Encode(full_block) => match settled {
                FetchStep::Finished(data) => call_ensures(
                    C::encode_full_block,
                    (&full_block,),
                    Ok::<Bytes, C::Error>(data),
                ),
                FetchStep::Failed(error) => call_ensures(
                    C::encode_full_block,
                    (&full_block,),
                    Err::<Bytes, C::Error>(error),
                ),
                _ => false,
            },
            _ => settled == step,
        },
{
}

/// Computing what a saving waits for decodes the given bytes, finds the root over the receipts or
/// reads the hash of the given proof, and leaves every other step as it is.
pub proof fn settled_saving_has_computed<C: ChainCodec>(
    step: SaveStep<C::Transaction, C::Receipt, C::Error>,
    settled: SaveStep<C::Transaction, C::Receipt, C::Error>,
)
    requires
        is_save_settled::<C>(step, settled),
    ensures
        match step {
            SaveStep::Decode(order) => match settled {
                SaveStep::Exec(block) => {
                    &&& call_ensures(
                        C::decode_full_block,
                        (&order.full_block,),
                        Ok::<FullBlock<C::Transaction>, C::Error>(block.full_block),
                    )
                    &&& block.height == order.height
                    &&& block.quorum == order.quorum
                    &&& block.state_root == order.state_root
                    &&& block.cycles_limit == order.cycles_limit
                },
                SaveStep::Failed(error) => call_ensures(
                    C::decode_full_block,
                    (&order.full_block,),
                    Err::<FullBlock<C::Transaction>, C::Error>(error),
                ),
                _ => false,
            },
            SaveStep::FindReceiptRoot(block, resp, metadata) => match settled {
                SaveStep::InsertReceipts(done, quorum) => {
                    &&& done.height == block.height
                    &&& done.full_block == block.full_block
                    &&& done.state_root == block.state_root
                    &&& done.resp == resp
                    &&& done.metadata == metadata
                    &&& quorum == block.quorum
                    &&& is_receipt_root::<C>(resp.receipts@, done.receipt_root)
                },
                _ => false,
            },
            SaveStep::ReadProofHash(done, quorum) => match settled {
                SaveStep::UpdateLatestProof(kept, stored) => {
                    &&& kept == done
                    &&& call_ensures(
                        C::hash_from_bytes,
                        (&quorum.vote.block_hash,),
                        Ok::<ProtoHash, C::Error>(stored.block_hash),
                    )
                    &&& stored.height == quorum.vote.height
                    &&& stored.round == quorum.vote.round
                    &&& stored.signature == quorum.aggregates.signature
                    &&& stored.bitmap == quorum.aggregates.address_bitmap
                },
                SaveStep::Failed(error) => call_ensures(
                    C::hash_from_bytes,
                    (&quorum.vote.block_hash,),
                    Err::<ProtoHash, C::Error>(error),
                ),
                _ => false,
            },
            _ => settled == step,
        },
{
}

} // verus!
