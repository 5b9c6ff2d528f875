//! The adapter: it makes the blocks of this node and checks those of the others.

use vstd::prelude::*;

use crate::bytes::{same_bytes, views, Bytes, MerkleRoot, ProtoAddress, ProtoHash};
use crate::codec::{
    encoded_root, is_block_hash, is_encoded_root, is_root, merkle_root_or_empty, ChainCodec,
};
use crate::confirm::{
    confirm, copy_validators, cycles, latest, latest_resp, logs_blooms, order_roots, receipt_roots,
    same_blooms, same_cycles, same_roots, same_validators,
};
use crate::error::{AdapterError, ConsensusError};
use crate::exec_result::{default_resp, is_default_resp, is_default_result, ExecResult};
use crate::order::{height_order, in_height_order};
use crate::own_blocks::BlockHashSet;
use crate::pill::WrappedPill;
use crate::types::{
    Block, BlockHeader, BlockHeaderView, BlockState, BlockStateView, ExecResp, ExecRespView, Pill,
    ProtoProof, ProtoProofView,
};
use crate::vote::{into_proto_proof, is_stored_form, Proof};

verus! {

/// Who this node is, and which blocks it has proposed.
pub struct Status {
    pub chain_id: ProtoHash,
    pub address: ProtoAddress,
    pub from_myself: BlockHashSet,
}

/// The adapter between the consensus engine and the chain.
pub struct OverlordAdapter {
    pub status: Status,
}

/// The header that this node writes.
pub open spec fn new_header(
    chain_id: Seq<u8>,
    proposer: Seq<u8>,
    height: u64,
    exec_height: u64,
    timestamp: u64,
    pre_hash: Seq<u8>,
    pre_proof: ProtoProofView,
    order_root: Seq<u8>,
    states: Seq<BlockStateView>,
    last_commit: ExecRespView,
) -> BlockHeaderView {
    BlockHeaderView {
        chain_id,
        height,
        exec_height,
        pre_hash,
        timestamp,
        logs_bloom: logs_blooms(in_height_order(states)),
        order_root,
        confirm_root: order_roots(in_height_order(states)),
        state_root: latest(states, last_commit).state_root,
        receipt_root: receipt_roots(in_height_order(states)),
        cycles_used: cycles(in_height_order(states)),
        proposer,
        pre_proof,
        validator_version: 0,
        validators: last_commit.validators,
    }
}

/// Why a node on chain `chain_id` refuses a block with this header, where it does.
///
/// `order_root` is the root that the node has found for the transactions of the block.
pub open spec fn refusal(
    chain_id: Seq<u8>,
    order_root: Seq<u8>,
    header: BlockHeaderView,
    states: Seq<BlockStateView>,
    last_commit: ExecRespView,
) -> Option<Seq<char>> {
    let ordered = in_height_order(states);
    let expected = latest(states, last_commit);
    if header.order_root != order_root {
        Some("block.order_root != expect.order_root"@)
    } else if header.chain_id != chain_id {
        Some("block.chain_id != self.chain_id"@)
    } else if header.state_root != expected.state_root {
        Some("block.state_root != expect.state_root"@)
    } else if header.validators != expected.validators {
        Some("block.validators != expect.validators"@)
    } else if header.logs_bloom != logs_blooms(ordered) {
        Some("block.log_bloom != expect.log_bloom"@)
    } else if header.receipt_root != receipt_roots(ordered) {
        Some("block.receipt_root != expect.receipt_root"@)
    } else if header.cycles_used != cycles(ordered) {
        Some("block.cycles_used != expect.cycles_used"@)
    } else if header.confirm_root != order_roots(ordered) {
        Some("block.confirm_root != expect.confirm_root"@)
    } else {
        None
    }
}

/// `verdict` accepts where `why` is nothing, and refuses with the reason that it gives otherwise.
pub open spec fn gives_verdict(verdict: Result<(), ConsensusError>, why: Option<Seq<char>>) -> bool {
    match why {
        None => verdict is Ok,
        Some(reason) => verdict matches Err(error) && error.reason() == reason,
    }
}

/// `verdict` accepts where `why` is nothing, and refuses as the adapter otherwise, with the reason
/// that it gives.
pub open spec fn passes_on<E>(verdict: Result<(), AdapterError<E>>, why: Option<Seq<char>>) -> bool {
    match why {
        None => verdict is Ok,
        Some(reason) => verdict matches Err(AdapterError::Consensus(error)) && error.reason()
            == reason,
    }
}

/// `verdict` is what a node of this status says of `pill`.
///
/// The block hash decides whether the node knows the block as its own; only where it does not is
/// the order root found, over the digests of the encodings of the transaction hashes.
pub open spec fn is_check<C: ChainCodec>(
    status: Status,
    pill: WrappedPill,
    states: Seq<BlockStateView>,
    last_commit: ExecRespView,
    verdict: Result<(), AdapterError<C::Error>>,
) -> bool {
    exists|hash: Result<Bytes, C::Error>| #[trigger]
        is_block_hash::<C>(pill.0.block, hash) && match hash {
            Err(error) => verdict == Err::<(), AdapterError<C::Error>>(
                AdapterError::Protocol(error),
            ),
            Ok(own) => if status.from_myself@.contains(own@) {
                verdict is Ok
            } else {
                exists|root: ProtoHash| #[trigger]
                    is_encoded_root::<C>(pill.0.block.ordered_tx_hashes@, root) && passes_on(
                        verdict,
                        refusal(
                            status.chain_id@,
                            root@,
                            pill@.block.header,
                            states,
                            last_commit,
                        ),
                    )
            },
        }
}

/// What a block is made from.
pub struct Proposal {
    pub height: u64,
    pub exec_height: u64,
    pub timestamp: u64,
    pub pre_hash: Bytes,
    pub pre_proof: Proof,
    pub ordered_tx_hashes: Vec<ProtoHash>,
    pub propose_hashes: Vec<ProtoHash>,
    pub states: Seq<BlockStateView>,
    pub last_commit: ExecRespView,
}

/// `pill` is what a node of this status makes of `proposal`, where its parent hash reads `parent`,
/// its proof is stored as `quorum`, and the root over its transaction hashes is `root`.
pub open spec fn is_proposed(
    status: Status,
    proposal: Proposal,
    parent: Seq<u8>,
    quorum: ProtoProofView,
    root: Seq<u8>,
    pill: WrappedPill,
) -> bool {
    &&& pill@.block.header == new_header(
        status.chain_id@,
        status.address@,
        proposal.height,
        proposal.exec_height,
        proposal.timestamp,
        parent,
        quorum,
        root,
        proposal.states,
        proposal.last_commit,
    )
    &&& pill.0.block.ordered_tx_hashes == proposal.ordered_tx_hashes
    &&& pill.0.propose_hashes == proposal.propose_hashes
}

/// `created` is what a node makes of `proposal`, and its status goes from `before` to `after`.
///
/// The parent hash is read first, then the hash in the proof, and the block is hashed last; the
/// first of these that fails is the error. Only a block that was made is remembered.
pub open spec fn is_creation<C: ChainCodec>(
    before: Status,
    after: Status,
    proposal: Proposal,
    created: Result<WrappedPill, C::Error>,
) -> bool {
    &&& after.chain_id == before.chain_id
    &&& after.address == before.address
    &&& created is Err ==> after.from_myself@ == before.from_myself@
    &&& exists|read: Result<ProtoHash, C::Error>| #[trigger]
        call_ensures(C::hash_from_bytes, (&proposal.pre_hash,), read) && match read {
            Err(error) => created == Err::<WrappedPill, C::Error>(error),
            Ok(parent) => exists|stored: Result<ProtoProof, C::Error>| #[trigger]
                is_stored_form::<C>(proposal.pre_proof, stored) && match stored {
                    Err(error) => created == Err::<WrappedPill, C::Error>(error),
                    Ok(quorum) => is_hashed_creation::<C>(
                        before,
                        after,
                        proposal,
                        parent@,
                        quorum@,
                        created,
                    ),
                },
        }
}

/// The part of [`is_creation`] that follows once both hashes are read.
pub open spec fn is_hashed_creation<C: ChainCodec>(
    before: Status,
    after: Status,
    proposal: Proposal,
    parent: Seq<u8>,
    quorum: ProtoProofView,
    created: Result<WrappedPill, C::Error>,
) -> bool {
    exists|root: ProtoHash, pill: WrappedPill, hash: Result<Bytes, C::Error>|
        {
            &&& #[trigger] is_root::<C>(proposal.ordered_tx_hashes, root)
            &&& is_proposed(before, proposal, parent, quorum, root@, pill)
            &&& #[trigger] is_block_hash::<C>(pill.0.block, hash)
            &&& match hash {
                Err(error) => created == Err::<WrappedPill, C::Error>(error),
                Ok(own) => {
                    &&& created == Ok::<WrappedPill, C::Error>(pill)
                    &&& after.from_myself@ == before.from_myself@.insert(own@)
                },
            }
        }
}

/// The refusal of a block for `reason`.
fn refuse(reason: &str) -> (verdict: Result<(), ConsensusError>)
    ensures
        gives_verdict(verdict, Some(reason@)),
{
    Err(ConsensusError::CheckBlock(reason.to_owned()))
}

impl OverlordAdapter {
    /// An adapter that has proposed no block yet.
    pub fn new(chain_id: ProtoHash, address: ProtoAddress) -> (adapter: Self)
        ensures
            adapter.status.chain_id == chain_id,
            adapter.status.address == address,
            adapter.status.from_myself@ == Set::<Seq<u8>>::empty(),
    {
        OverlordAdapter { status: Status { chain_id, address, from_myself: BlockHashSet::new() } }
    }

    /// How many cycles and how many transactions a new block may ask the pool for.
    pub fn package_limits(last_commit_exec_resp: &ExecResp) -> (limits: (u64, u64))
        ensures
            limits.0 == last_commit_exec_resp.cycles_limit,
            limits.1 == last_commit_exec_resp.tx_num_limit,
    {
        (last_commit_exec_resp.cycles_limit, last_commit_exec_resp.tx_num_limit)
    }

    /// The pill that this node proposes, its hashes and roots being known.
    pub fn make_pill(
        &self,
        height: u64,
        exec_height: u64,
        timestamp: u64,
        pre_hash: ProtoHash,
        pre_proof: ProtoProof,
        order_root: MerkleRoot,
        ordered_tx_hashes: Vec<ProtoHash>,
        propose_hashes: Vec<ProtoHash>,
        block_states: &[BlockState],
        last_commit_exec_resp: &ExecResp,
    ) -> (pill: WrappedPill)
        ensures
            pill@.block.header == new_header(
                self.status.chain_id@,
                self.status.address@,
                height,
                exec_height,
                timestamp,
                pre_hash@,
                pre_proof@,
                order_root@,
                views(block_states@),
                last_commit_exec_resp@,
            ),
            pill.0.block.ordered_tx_hashes == ordered_tx_hashes,
            pill.0.propose_hashes == propose_hashes,
    {
        let order = height_order(block_states);
        let exec_resp = latest_resp(block_states, &order, last_commit_exec_resp);
        let confirmed = confirm(block_states, &order);
        let header = BlockHeader {
            chain_id: self.status.chain_id.clone(),
            height,
            exec_height,
            pre_hash,
            timestamp,
            logs_bloom: confirmed.logs_bloom,
            order_root,
            confirm_root: confirmed.confirm_root,
            state_root: exec_resp.state_root.clone(),
            receipt_root: confirmed.receipt_root,
            cycles_used: confirmed.cycles_used,
            proposer: self.status.address.clone(),
            pre_proof,
            validator_version: 0u64,
            validators: copy_validators(&last_commit_exec_resp.validators),
        };
        WrappedPill(Pill { block: Block { header, ordered_tx_hashes }, propose_hashes })
    }

    /// Proposes a block, and remembers it as this node's own.
    ///
    /// The pool has handed out `ordered_tx_hashes` for this block and `propose_hashes` for later
    /// ones. The order root is found over the transaction hashes themselves. Where `pre_hash`, or
    /// the hash in `pre_proof`, is no hash, or the block has no encoding, that is the error, and
    /// nothing is remembered.
    pub fn create_block<C: ChainCodec>(
        &mut self,
        height: u64,
        exec_height: u64,
        timestamp: u64,
        pre_hash: Bytes,
        pre_proof: Proof,
        ordered_tx_hashes: Vec<ProtoHash>,
        propose_hashes: Vec<ProtoHash>,
        block_states: Vec<BlockState>,
        last_commit_exec_resp: ExecResp,
    ) -> (created: Result<WrappedPill, C::Error>)
        ensures
            is_creation::<C>(
                old(self).status,
                final(self).status,
                (Proposal {
                    height,
                    exec_height,
                    timestamp,
                    pre_hash,
                    pre_proof,
                    ordered_tx_hashes,
                    propose_hashes,
                    states: views(block_states@),
                    last_commit: last_commit_exec_resp@,
                }),
                created,
            ),
    {
        let ghost proposal = Proposal {
            height,
            exec_height,
            timestamp,
            pre_hash,
            pre_proof,
            ordered_tx_hashes,
            propose_hashes,
            states: views(block_states@),
            last_commit: last_commit_exec_resp@,
        };
        let root = merkle_root_or_empty::<C>(&ordered_tx_hashes);
        assert(is_root::<C>(proposal.ordered_tx_hashes, root));
        let read = C::hash_from_bytes(&pre_hash);
        assert(call_ensures(C::hash_from_bytes, (&proposal.pre_hash,), read));
        let parent = match read {
            Ok(hash) => hash,
            Err(error) => {
                return Err(error);
            },
        };
        let stored = into_proto_proof::<C>(pre_proof);
        assert(is_stored_form::<C>(proposal.pre_proof, stored));
        let quorum = match stored {
            Ok(stored) => stored,
            Err(error) => {
                return Err(error);
            },
        };
        let pill = self.make_pill(
            height,
            exec_height,
            timestamp,
            parent,
            quorum,
            root,
            ordered_tx_hashes,
            propose_hashes,
            block_states.as_slice(),
            &last_commit_exec_resp,
        );
        let hashed = pill.get_block_hash::<C>();
        assert(is_proposed(self.status, proposal, parent@, quorum@, root@, pill));
        assert(is_block_hash::<C>(pill.0.block, hashed));
        match hashed {
            Ok(hash) => {
                self.status.from_myself.insert(hash);
                Ok(pill)
            },
            Err(error) => Err(error),
        }
    }

    /// Checks what a header says against what this node has found, whoever proposed the block.
    ///
    /// `order_root` is the root found for the transactions of the block.
    pub fn check_header(
        &self,
        header: &BlockHeader,
        order_root: &MerkleRoot,
        block_states: &[BlockState],
        last_commit_exec_resp: &ExecResp,
    ) -> (verdict: Result<(), ConsensusError>)
        ensures
            gives_verdict(
                verdict,
                refusal(
                    self.status.chain_id@,
                    order_root@,
                    header@,
                    views(block_states@),
                    last_commit_exec_resp@,
                ),
            ),
    {
        if !same_bytes(&order_root.bytes, &header.order_root.bytes) {
            return refuse("block.order_root != expect.order_root");
        }
        let order = height_order(block_states);
        let exec_resp = latest_resp(block_states, &order, last_commit_exec_resp);
        if !same_bytes(&header.chain_id.bytes, &self.status.chain_id.bytes) {
            return refuse("block.chain_id != self.chain_id");
        }
        if !same_bytes(&header.state_root.bytes, &exec_resp.state_root.bytes) {
            return refuse("block.state_root != expect.state_root");
        }
        if !same_validators(&header.validators, &exec_resp.validators) {
            return refuse("block.validators != expect.validators");
        }
        let expected = confirm(block_states, &order);
        if !same_blooms(&header.logs_bloom, &expected.logs_bloom) {
            return refuse("block.log_bloom != expect.log_bloom");
        }
        if !same_roots(&header.receipt_root, &expected.receipt_root) {
            return refuse("block.receipt_root != expect.receipt_root");
        }
        if !same_cycles(&header.cycles_used, &expected.cycles_used) {
            return refuse("block.cycles_used != expect.cycles_used");
        }
        if !same_roots(&header.confirm_root, &expected.confirm_root) {
            return refuse("block.confirm_root != expect.confirm_root");
        }
        Ok(())
    }

    /// Checks the block of a pill before this node votes for it.
    ///
    /// A block that this node has proposed itself passes unseen. The order root that is expected
    /// of another is found over the digests of the encodings of its transaction hashes.
    pub fn check_block<C: ChainCodec>(
        &self,
        pill: &WrappedPill,
        block_states: &[BlockState],
        last_commit_exec_resp: &ExecResp,
    ) -> (verdict: Result<(), AdapterError<C::Error>>)
        ensures
            is_check::<C>(
                self.status,
                *pill,
                views(block_states@),
                last_commit_exec_resp@,
                verdict,
            ),
    {
        let block_hash = match pill.get_block_hash::<C>() {
            Ok(hash) => hash,
            Err(error) => {
                return Err(AdapterError::Protocol(error));
            },
        };
        if self.status.from_myself.contains(&block_hash) {
            return Ok(());
        }
        let root = encoded_root::<C>(&pill.0.block.ordered_tx_hashes);
        let why = self.check_header(
            &pill.0.block.header,
            &root,
            block_states,
            last_commit_exec_resp,
        );
        match why {
            Ok(_) => Ok(()),
            Err(error) => Err(AdapterError::Consensus(error)),
        }
    }

    /// The result of executing the block of a height; the adapter keeps none, and gives the default
    /// whatever the height.
    pub fn get_block_exec_result<C: ChainCodec>(&self, _height: u64) -> (result: Result<
        ExecResult,
        C::Error,
    >)
        ensures
            result matches Ok(given) && is_default_result::<C>(given),
    {
        let resp = default_resp::<C>();
        assert(is_default_resp::<C>(resp));
        Ok(C::default_exec_result(resp))
    }

    /// The stored blocks with their proofs; the adapter has none to give.
    pub fn get_block_with_proofs<E>(&self) -> (blocks: Result<Vec<(WrappedPill, Proof)>, E>)
        ensures
            blocks matches Ok(none) && none@.len() == 0,
    {
        Ok(Vec::new())
    }

    /// The latest height that the adapter reports.
    pub fn get_latest_height<E>(&self) -> (height: Result<u64, E>)
        ensures
            height == Ok::<u64, E>(0),
    {
        Ok(0)
    }

    /// Forgets which blocks this node has proposed, once the engine has committed.
    pub fn commit(&mut self)
        ensures
            final(self).status.chain_id == old(self).status.chain_id,
            final(self).status.address == old(self).status.address,
            final(self).status.from_myself@ == Set::<Seq<u8>>::empty(),
    {
        self.status.from_myself.clear();
    }
}

} // verus!
