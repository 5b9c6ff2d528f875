//! What holds between the operations of the adapter.

use vstd::prelude::*;

use crate::adapter::{
    is_check, is_creation, new_header, passes_on, refusal, Proposal, Status,
};
use crate::bytes::{Bytes, ProtoHash};
use crate::codec::{is_block_hash, is_encoded_root, is_root, ChainCodec};
use crate::confirm::{cycles, latest, logs_blooms, order_roots, receipt_roots};
use crate::error::AdapterError;
use crate::fetch::{
    at_same_point, fetch_run, fetch_start, is_fetch_start, own_transactions_are_at_hand,
    same_answers_keep_the_point, FetchEvent, FetchStep,
};
use crate::order::{
    arrival_order_is_irrelevant, height_order_exists, in_height_order, one_per_height,
    rising_is_height_order,
};
use crate::pill::WrappedPill;
use crate::save::{saved_result, Executed};
use crate::types::{
    Block, BlockHeaderView, BlockStateView, BlockView, ExecRespView, ProtoProof, ProtoProofView,
};
use crate::vote::{engine_form, is_stored_form, Proof, ProofView};

verus! {

/// The chain hashes blocks with this content alike: every time to the same bytes, or every time it
/// fails with the same error.
pub open spec fn hashes_alike<C: ChainCodec>(content: BlockView) -> bool {
    forall|a: Block, b: Block, x: Result<Bytes, C::Error>, y: Result<Bytes, C::Error>|
        a@ == content && b@ == content && #[trigger] is_block_hash::<C>(a, x) && #[trigger]
        is_block_hash::<C>(b, y) ==> match (x, y) {
            (Ok(left), Ok(right)) => left@ == right@,
            (Err(left), Err(right)) => left == right,
            _ => false,
        }
}

/// The chain reads `data` as a hash with the same bytes, where it reads it as a hash.
pub open spec fn reads_as_it_is<C: ChainCodec>(data: Bytes) -> bool {
    forall|hash: ProtoHash| #[trigger]
        call_ensures(C::hash_from_bytes, (&data,), Ok::<ProtoHash, C::Error>(hash)) ==> hash@
            == data@
}

/// A node has gone through `statuses`, making `results` of `proposals`, without a commit.
pub open spec fn is_history<C: ChainCodec>(
    statuses: Seq<Status>,
    proposals: Seq<Proposal>,
    results: Seq<Result<WrappedPill, C::Error>>,
) -> bool {
    &&& statuses.len() == proposals.len() + 1
    &&& results.len() == proposals.len()
    &&& forall|i: int|
        0 <= i < proposals.len() ==> is_creation::<C>(
            statuses[i],
            statuses[i + 1],
            #[trigger] proposals[i],
            results[i],
        )
}

/// Proposing a block takes no earlier proposal from a node's memory.
pub proof fn own_blocks_are_kept<C: ChainCodec>(
    before: Status,
    after: Status,
    proposal: Proposal,
    created: Result<WrappedPill, C::Error>,
)
    requires
        is_creation::<C>(before, after, proposal, created),
    ensures
        before.from_myself@.subset_of(after.from_myself@),
{
}

/// Until the next commit, what a node remembers only grows.
pub proof fn memory_grows_until_commit<C: ChainCodec>(
    statuses: Seq<Status>,
    proposals: Seq<Proposal>,
    results: Seq<Result<WrappedPill, C::Error>>,
    from: int,
    to: int,
)
    requires
        is_history::<C>(statuses, proposals, results),
        0 <= from <= to < statuses.len(),
    ensures
        statuses[from].from_myself@.subset_of(statuses[to].from_myself@),
    decreases to - from,
{
    if from < to {
        memory_grows_until_commit::<C>(statuses, proposals, results, from, to - 1);
        own_blocks_are_kept::<C>(
            statuses[to - 1],
            statuses[to],
            proposals[to - 1],
            results[to - 1],
        );
    }
}

/// A block that a node has made is in its memory until the next commit, under the hash that the
/// chain gives it.
pub proof fn own_block_is_remembered<C: ChainCodec>(
    statuses: Seq<Status>,
    proposals: Seq<Proposal>,
    results: Seq<Result<WrappedPill, C::Error>>,
    made: int,
    pill: WrappedPill,
    shown: WrappedPill,
    hash: Result<Bytes, C::Error>,
)
    requires
        is_history::<C>(statuses, proposals, results),
        0 <= made < results.len(),
        results[made] == Ok::<WrappedPill, C::Error>(pill),
        shown@.block == pill@.block,
        hashes_alike::<C>(pill@.block),
        is_block_hash::<C>(shown.0.block, hash),
    ensures
        hash is Ok,
        statuses.last().from_myself@.contains(hash->Ok_0@),
{
    let at = proposals[made];
    memory_grows_until_commit::<C>(
        statuses,
        proposals,
        results,
        made + 1,
        statuses.len() - 1,
    );
    lemma_made_under_its_hash::<C>(statuses[made], statuses[made + 1], at, pill, shown, hash);
}

/// Right after a block was made, it is remembered under its hash.
proof fn lemma_made_under_its_hash<C: ChainCodec>(
    before: Status,
    after: Status,
    proposal: Proposal,
    pill: WrappedPill,
    shown: WrappedPill,
    hash: Result<Bytes, C::Error>,
)
    requires
        is_creation::<C>(before, after, proposal, Ok(pill)),
        shown@.block == pill@.block,
        hashes_alike::<C>(pill@.block),
        is_block_hash::<C>(shown.0.block, hash),
    ensures
        hash is Ok,
        after.from_myself@.contains(hash->Ok_0@),
{
}

/// A node accepts a block that it has made, and every copy of it, until the next commit, whatever
/// the outcomes are that it knows by then.
pub proof fn own_block_passes<C: ChainCodec>(
    statuses: Seq<Status>,
    proposals: Seq<Proposal>,
    results: Seq<Result<WrappedPill, C::Error>>,
    made: int,
    pill: WrappedPill,
    shown: WrappedPill,
    states: Seq<BlockStateView>,
    last_commit: ExecRespView,
    verdict: Result<(), AdapterError<C::Error>>,
)
    requires
        is_history::<C>(statuses, proposals, results),
        0 <= made < results.len(),
        results[made] == Ok::<WrappedPill, C::Error>(pill),
        shown@.block == pill@.block,
        hashes_alike::<C>(pill@.block),
        is_check::<C>(statuses.last(), shown, states, last_commit, verdict),
    ensures
        verdict is Ok,
{
    assert forall|hash: Result<Bytes, C::Error>| #[trigger]
        is_block_hash::<C>(shown.0.block, hash) implies hash is Ok
        && statuses.last().from_myself@.contains(hash->Ok_0@) by {
        own_block_is_remembered::<C>(statuses, proposals, results, made, pill, shown, hash);
    }
}

/// Until the next commit, a node fetches a block that it has made, and every copy of it, without
/// asking the pool to ensure its transactions: it asks for the transactions at once, and never
/// asks to ensure them later.
pub proof fn own_block_is_fetched_at_once<C: ChainCodec>(
    statuses: Seq<Status>,
    proposals: Seq<Proposal>,
    results: Seq<Result<WrappedPill, C::Error>>,
    made: int,
    pill: WrappedPill,
    shown: WrappedPill,
    step: FetchStep<C::Transaction, C::Error>,
    events: Seq<FetchEvent<C::Transaction, C::Error>>,
)
    requires
        is_history::<C>(statuses, proposals, results),
        0 <= made < results.len(),
        results[made] == Ok::<WrappedPill, C::Error>(pill),
        shown@.block == pill@.block,
        hashes_alike::<C>(pill@.block),
        is_fetch_start::<C>(statuses.last(), shown, step),
    ensures
        step == FetchStep::<C::Transaction, C::Error>::GetFullTxs(shown),
        !(fetch_run(step, events) is EnsureOrderTxs),
{
    let hash = choose|hash: Result<Bytes, C::Error>| #[trigger]
        is_block_hash::<C>(shown.0.block, hash) && step == fetch_start::<
            C::Transaction,
            C::Error,
        >(statuses.last().from_myself@, shown, hash);
    own_block_is_remembered::<C>(statuses, proposals, results, made, pill, shown, hash);
    own_transactions_are_at_hand(statuses.last().from_myself@, shown, hash, events);
}

/// Once a node has committed, it fetches a block that it has made as it does those of others: the
/// pool is first asked to ensure its transactions.
pub proof fn own_block_is_ensured_after_commit<C: ChainCodec>(
    before: Status,
    after: Status,
    proposal: Proposal,
    pill: WrappedPill,
    shown: WrappedPill,
    committed: Status,
    step: FetchStep<C::Transaction, C::Error>,
)
    requires
        is_creation::<C>(before, after, proposal, Ok(pill)),
        shown@.block == pill@.block,
        hashes_alike::<C>(pill@.block),
        committed.from_myself@ == Set::<Seq<u8>>::empty(),
        is_fetch_start::<C>(committed, shown, step),
    ensures
        step == FetchStep::<C::Transaction, C::Error>::EnsureOrderTxs(shown),
{
    let hash = choose|hash: Result<Bytes, C::Error>| #[trigger]
        is_block_hash::<C>(shown.0.block, hash) && step == fetch_start::<
            C::Transaction,
            C::Error,
        >(committed.from_myself@, shown, hash);
    lemma_made_under_its_hash::<C>(before, after, proposal, pill, shown, hash);
}

/// Pills with the same block have the same block hash, or have none for the same reason, whatever
/// they propose for later.
pub proof fn same_block_same_hash<C: ChainCodec>(
    left: WrappedPill,
    right: WrappedPill,
    x: Result<Bytes, C::Error>,
    y: Result<Bytes, C::Error>,
)
    requires
        left@.block == right@.block,
        hashes_alike::<C>(left@.block),
        is_block_hash::<C>(left.0.block, x),
        is_block_hash::<C>(right.0.block, y),
    ensures
        x is Ok <==> y is Ok,
        x is Ok ==> x->Ok_0@ == y->Ok_0@,
        x is Err ==> x->Err_0 == y->Err_0,
{
}

/// Pills with the same block are fetched alike upon the same answers of the pool, whatever they
/// propose for later.
pub proof fn same_block_is_fetched_alike<C: ChainCodec>(
    status: Status,
    left: WrappedPill,
    right: WrappedPill,
    s: FetchStep<C::Transaction, C::Error>,
    t: FetchStep<C::Transaction, C::Error>,
    events: Seq<FetchEvent<C::Transaction, C::Error>>,
)
    requires
        left@.block == right@.block,
        hashes_alike::<C>(left@.block),
        is_fetch_start::<C>(status, left, s),
        is_fetch_start::<C>(status, right, t),
    ensures
        at_same_point(fetch_run(s, events), fetch_run(t, events)),
{
    same_answers_keep_the_point(s, t, events);
}

/// A created pill gives back the heights, the parent hash and the proof that it was made with.
/// The two hashes are those that the chain has read, so they are the given bytes where it reads
/// these as they are.
pub proof fn created_pill_gives_back<C: ChainCodec>(
    before: Status,
    after: Status,
    proposal: Proposal,
    pill: WrappedPill,
)
    requires
        is_creation::<C>(before, after, proposal, Ok(pill)),
    ensures
        pill@.block.header.height == proposal.height,
        pill@.block.header.exec_height == proposal.exec_height,
        reads_as_it_is::<C>(proposal.pre_hash) ==> pill@.block.header.pre_hash
            == proposal.pre_hash@,
        engine_form(pill@.block.header.pre_proof) == (ProofView {
            block_hash: pill@.block.header.pre_proof.block_hash,
            ..proposal.pre_proof@
        }),
        reads_as_it_is::<C>(proposal.pre_proof.vote.block_hash) ==> engine_form(
            pill@.block.header.pre_proof,
        ) == proposal.pre_proof@,
{
}

/// A proof of the engine that is stored and taken back agrees with itself: in all but the block
/// hash as it is, and in the block hash too where the chain reads it as it is.
pub proof fn stored_proof_is_taken_back<C: ChainCodec>(quorum: Proof, stored: ProtoProof)
    requires
        is_stored_form::<C>(quorum, Ok(stored)),
    ensures
        engine_form(stored@) == (ProofView { block_hash: stored@.block_hash, ..quorum@ }),
        reads_as_it_is::<C>(quorum.vote.block_hash) ==> engine_form(stored@) == quorum@,
{
}

/// Once a node has committed, it accepts a block only if its header says what the node expects.
pub proof fn commit_ends_trust<C: ChainCodec>(
    status: Status,
    pill: WrappedPill,
    states: Seq<BlockStateView>,
    last_commit: ExecRespView,
    verdict: Result<(), AdapterError<C::Error>>,
)
    requires
        status.from_myself@ == Set::<Seq<u8>>::empty(),
        is_check::<C>(status, pill, states, last_commit, verdict),
        verdict is Ok,
    ensures
        exists|root: ProtoHash| #[trigger]
            is_encoded_root::<C>(pill.0.block.ordered_tx_hashes@, root) && refusal(
                status.chain_id@,
                root@,
                pill@.block.header,
                states,
                last_commit,
            ) is None,
{
}

/// A block is accepted exactly where its header says what is expected of it, in all that is
/// compared.
pub proof fn accepted_as_expected(
    chain_id: Seq<u8>,
    order_root: Seq<u8>,
    header: BlockHeaderView,
    states: Seq<BlockStateView>,
    last_commit: ExecRespView,
)
    ensures
        refusal(chain_id, order_root, header, states, last_commit) is None <==> {
            &&& header.order_root == order_root
            &&& header.chain_id == chain_id
            &&& header.state_root == latest(states, last_commit).state_root
            &&& header.validators == latest(states, last_commit).validators
            &&& header.logs_bloom == logs_blooms(in_height_order(states))
            &&& header.receipt_root == receipt_roots(in_height_order(states))
            &&& header.cycles_used == cycles(in_height_order(states))
            &&& header.confirm_root == order_roots(in_height_order(states))
        },
{
}

/// Height, executed height, parent, time, proposer, proof and validator version do not decide
/// about a block.
pub proof fn unread_fields_do_not_decide(
    chain_id: Seq<u8>,
    order_root: Seq<u8>,
    header: BlockHeaderView,
    other: BlockHeaderView,
    states: Seq<BlockStateView>,
    last_commit: ExecRespView,
)
    requires
        other == (BlockHeaderView {
            height: other.height,
            exec_height: other.exec_height,
            pre_hash: other.pre_hash,
            timestamp: other.timestamp,
            proposer: other.proposer,
            pre_proof: other.pre_proof,
            validator_version: other.validator_version,
            ..header
        }),
    ensures
        refusal(chain_id, order_root, header, states, last_commit) == refusal(
            chain_id,
            order_root,
            other,
            states,
            last_commit,
        ),
{
}

/// Why a node on chain `there`, with the same outcomes, refuses a block that has been proposed on
/// chain `chain_id` with order root `written`, where it does; it has found the order root `found`.
pub open spec fn disagreement(
    chain_id: Seq<u8>,
    there: Seq<u8>,
    written: Seq<u8>,
    found: Seq<u8>,
    states: Seq<BlockStateView>,
    last_commit: ExecRespView,
) -> Option<Seq<char>> {
    if written != found {
        Some("block.order_root != expect.order_root"@)
    } else if chain_id != there {
        Some("block.chain_id != self.chain_id"@)
    } else if last_commit.validators != latest(states, last_commit).validators {
        Some("block.validators != expect.validators"@)
    } else {
        None
    }
}

/// A node with the same outcomes accepts a block that another has proposed, unless it finds
/// another order root or is on another chain, or the validators have changed since the last
/// commit.
pub proof fn proposed_block_elsewhere<C: ChainCodec>(
    before: Status,
    after: Status,
    proposal: Proposal,
    pill: WrappedPill,
    elsewhere: Status,
    verdict: Result<(), AdapterError<C::Error>>,
)
    requires
        is_creation::<C>(before, after, proposal, Ok(pill)),
        is_check::<C>(elsewhere, pill, proposal.states, proposal.last_commit, verdict),
        forall|hash: Result<Bytes, C::Error>| #[trigger]
            is_block_hash::<C>(pill.0.block, hash) ==> hash is Ok
                && !elsewhere.from_myself@.contains(hash->Ok_0@),
    ensures
        exists|written: ProtoHash, found: ProtoHash|
            {
                &&& #[trigger] is_root::<C>(proposal.ordered_tx_hashes, written)
                &&& #[trigger] is_encoded_root::<C>(proposal.ordered_tx_hashes@, found)
                &&& passes_on(
                    verdict,
                    disagreement(
                        before.chain_id@,
                        elsewhere.chain_id@,
                        written@,
                        found@,
                        proposal.states,
                        proposal.last_commit,
                    ),
                )
            },
{
}

/// An empty tree has the same root each time.
pub open spec fn one_empty_root<C: ChainCodec>() -> bool {
    forall|a: Vec<ProtoHash>, b: Vec<ProtoHash>, x: ProtoHash, y: ProtoHash|
        a@.len() == 0 && b@.len() == 0 && #[trigger] is_root::<C>(a, x) && #[trigger] is_root::<C>(
            b,
            y,
        ) ==> x@ == y@
}

/// A block without transactions is given the order root that others expect of it.
pub proof fn empty_block_has_expected_root<C: ChainCodec>(
    hashes: Vec<ProtoHash>,
    written: ProtoHash,
    expected: ProtoHash,
)
    requires
        one_empty_root::<C>(),
        hashes@.len() == 0,
        is_root::<C>(hashes, written),
        is_encoded_root::<C>(hashes@, expected),
    ensures
        written@ == expected@,
{
}

/// Nodes on one chain with the same outcomes accept each other's blocks without transactions, while
/// the validators are those of the last commit.
pub proof fn empty_block_passes_elsewhere<C: ChainCodec>(
    before: Status,
    after: Status,
    proposal: Proposal,
    pill: WrappedPill,
    elsewhere: Status,
    verdict: Result<(), AdapterError<C::Error>>,
)
    requires
        is_creation::<C>(before, after, proposal, Ok(pill)),
        is_check::<C>(elsewhere, pill, proposal.states, proposal.last_commit, verdict),
        forall|hash: Result<Bytes, C::Error>| #[trigger]
            is_block_hash::<C>(pill.0.block, hash) ==> hash is Ok,
        one_empty_root::<C>(),
        proposal.ordered_tx_hashes@.len() == 0,
        elsewhere.chain_id@ == before.chain_id@,
        latest(proposal.states, proposal.last_commit).validators == proposal.last_commit.validators,
    ensures
        verdict is Ok,
{
}

/// A header that confirms a saved block lists what its execution has left, and goes on from the
/// state that the saved result reports.
pub proof fn saved_block_is_confirmed<T, R>(
    done: Executed<T, R>,
    chain_id: Seq<u8>,
    proposer: Seq<u8>,
    height: u64,
    exec_height: u64,
    timestamp: u64,
    pre_hash: Seq<u8>,
    pre_proof: ProtoProofView,
    order_root: Seq<u8>,
    last_commit: ExecRespView,
)
    ensures
        ({
            let header = new_header(
                chain_id,
                proposer,
                height,
                exec_height,
                timestamp,
                pre_hash,
                pre_proof,
                order_root,
                seq![saved_result(done).block_states],
                last_commit,
            );
            &&& header.confirm_root == seq![done.full_block.block.header.order_root@]
            &&& header.receipt_root == seq![done.receipt_root@]
            &&& header.logs_bloom == seq![done.resp.logs_bloom@]
            &&& header.cycles_used == seq![done.resp.all_cycles_used]
            &&& header.state_root == done.state_root@
        }),
{
    let states = seq![saved_result(done).block_states];
    rising_is_height_order(states);
    assert(order_roots(states) =~= seq![done.full_block.block.header.order_root@]);
    assert(receipt_roots(states) =~= seq![done.receipt_root@]);
    assert(logs_blooms(states) =~= seq![done.resp.logs_bloom@]);
    assert(cycles(states) =~= seq![done.resp.all_cycles_used]);
}

/// With one outcome per height, nodes that have received the outcomes in different order write
/// the same header and give the same verdict.
pub proof fn arrival_order_does_not_decide(
    chain_id: Seq<u8>,
    proposer: Seq<u8>,
    height: u64,
    exec_height: u64,
    timestamp: u64,
    pre_hash: Seq<u8>,
    pre_proof: ProtoProofView,
    order_root: Seq<u8>,
    header: BlockHeaderView,
    states: Seq<BlockStateView>,
    shuffled: Seq<BlockStateView>,
    last_commit: ExecRespView,
)
    requires
        one_per_height(states),
        states.to_multiset() == shuffled.to_multiset(),
    ensures
        refusal(chain_id, order_root, header, states, last_commit) == refusal(
            chain_id,
            order_root,
            header,
            shuffled,
            last_commit,
        ),
        new_header(
            chain_id,
            proposer,
            height,
            exec_height,
            timestamp,
            pre_hash,
            pre_proof,
            order_root,
            states,
            last_commit,
        ) == new_header(
            chain_id,
            proposer,
            height,
            exec_height,
            timestamp,
            pre_hash,
            pre_proof,
            order_root,
            shuffled,
            last_commit,
        ),
{
    arrival_order_is_irrelevant(states, shuffled);
    height_order_exists(states);
    height_order_exists(shuffled);
}

} // verus!
