//! The data that the chain and the consensus engine exchange, and their models.

use vstd::prelude::*;

use crate::bytes::{copy_bytes, views, Bloom, Bytes, MerkleRoot, ProtoAddress, ProtoHash};

verus! {

/// A member of the validator set, as a block header lists it.
#[derive(Debug, PartialEq, Eq)]
pub struct Validator {
    pub address: ProtoAddress,
    pub propose_weight: u32,
    pub vote_weight: u32,
}

pub struct ValidatorView {
    pub address: Seq<u8>,
    pub propose_weight: u32,
    pub vote_weight: u32,
}

impl View for Validator {
    type V = ValidatorView;

    open spec fn view(&self) -> ValidatorView {
        ValidatorView {
            address: self.address@,
            propose_weight: self.propose_weight,
            vote_weight: self.vote_weight,
        }
    }
}

impl Clone for Validator {
    fn clone(&self) -> (copy: Self)
        ensures
            copy@ == self@,
    {
        Validator {
            address: self.address.clone(),
            propose_weight: self.propose_weight,
            vote_weight: self.vote_weight,
        }
    }
}

/// A member of the validator set together with its voting key, as the metadata lists it.
#[derive(Clone, Debug, PartialEq, Eq)]
pub struct ValidatorExtend {
    /// The voting key, as text.
    pub bls_pub_key: String,
    pub address: ProtoAddress,
    pub propose_weight: u32,
    pub vote_weight: u32,
}

pub struct ValidatorExtendView {
    pub bls_pub_key: Seq<char>,
    pub address: Seq<u8>,
    pub propose_weight: u32,
    pub vote_weight: u32,
}

impl View for ValidatorExtend {
    type V = ValidatorExtendView;

    open spec fn view(&self) -> ValidatorExtendView {
        ValidatorExtendView {
            bls_pub_key: self.bls_pub_key@,
            address: self.address@,
            propose_weight: self.propose_weight,
            vote_weight: self.vote_weight,
        }
    }
}

/// A proof of agreement on a block, as the chain stores it.
#[derive(Debug, PartialEq, Eq)]
pub struct ProtoProof {
    pub height: u64,
    pub round: u64,
    pub block_hash: ProtoHash,
    pub signature: Bytes,
    pub bitmap: Bytes,
}

pub struct ProtoProofView {
    pub height: u64,
    pub round: u64,
    pub block_hash: Seq<u8>,
    pub signature: Seq<u8>,
    pub bitmap: Seq<u8>,
}

impl View for ProtoProof {
    type V = ProtoProofView;

    open spec fn view(&self) -> ProtoProofView {
        ProtoProofView {
            height: self.height,
            round: self.round,
            block_hash: self.block_hash@,
            signature: self.signature@,
            bitmap: self.bitmap@,
        }
    }
}

impl Clone for ProtoProof {
    fn clone(&self) -> (copy: Self)
        ensures
            copy@ == self@,
    {
        ProtoProof {
            height: self.height,
            round: self.round,
            block_hash: self.block_hash.clone(),
            signature: copy_bytes(&self.signature),
            bitmap: copy_bytes(&self.bitmap),
        }
    }
}

/// The header of a block.
///
/// `logs_bloom`, `confirm_root`, `receipt_root` and `cycles_used` hold one item for each earlier
/// block whose execution the block confirms.
#[derive(Clone, Debug, PartialEq, Eq)]
pub struct BlockHeader {
    pub chain_id: ProtoHash,
    pub height: u64,
    pub exec_height: u64,
    pub pre_hash: ProtoHash,
    pub timestamp: u64,
    pub logs_bloom: Vec<Bloom>,
    pub order_root: MerkleRoot,
    pub confirm_root: Vec<MerkleRoot>,
    pub state_root: MerkleRoot,
    pub receipt_root: Vec<MerkleRoot>,
    pub cycles_used: Vec<u64>,
    pub proposer: ProtoAddress,
    pub pre_proof: ProtoProof,
    pub validator_version: u64,
    pub validators: Vec<Validator>,
}

pub struct BlockHeaderView {
    pub chain_id: Seq<u8>,
    pub height: u64,
    pub exec_height: u64,
    pub pre_hash: Seq<u8>,
    pub timestamp: u64,
    pub logs_bloom: Seq<Seq<u8>>,
    pub order_root: Seq<u8>,
    pub confirm_root: Seq<Seq<u8>>,
    pub state_root: Seq<u8>,
    pub receipt_root: Seq<Seq<u8>>,
    pub cycles_used: Seq<u64>,
    pub proposer: Seq<u8>,
    pub pre_proof: ProtoProofView,
    pub validator_version: u64,
    pub validators: Seq<ValidatorView>,
}

impl View for BlockHeader {
    type V = BlockHeaderView;

    open spec fn view(&self) -> BlockHeaderView {
        BlockHeaderView {
            chain_id: self.chain_id@,
            height: self.height,
            exec_height: self.exec_height,
            pre_hash: self.pre_hash@,
            timestamp: self.timestamp,
            logs_bloom: views(self.logs_bloom@),
            order_root: self.order_root@,
            confirm_root: views(self.confirm_root@),
            state_root: self.state_root@,
            receipt_root: views(self.receipt_root@),
            cycles_used: self.cycles_used@,
            proposer: self.proposer@,
            pre_proof: self.pre_proof@,
            validator_version: self.validator_version,
            validators: views(self.validators@),
        }
    }
}

/// A block: its header and the hashes of its transactions, in order.
#[derive(Clone, Debug, PartialEq, Eq)]
pub struct Block {
    pub header: BlockHeader,
    pub ordered_tx_hashes: Vec<ProtoHash>,
}

pub struct BlockView {
    pub header: BlockHeaderView,
    pub ordered_tx_hashes: Seq<Seq<u8>>,
}

impl View for Block {
    type V = BlockView;

    open spec fn view(&self) -> BlockView {
        BlockView { header: self.header@, ordered_tx_hashes: views(self.ordered_tx_hashes@) }
    }
}

/// A block under proposal, with the hashes of the transactions proposed for later blocks.
#[derive(Clone, Debug, PartialEq, Eq)]
pub struct Pill {
    pub block: Block,
    pub propose_hashes: Vec<ProtoHash>,
}

pub struct PillView {
    pub block: BlockView,
    pub propose_hashes: Seq<Seq<u8>>,
}

impl View for Pill {
    type V = PillView;

    open spec fn view(&self) -> PillView {
        PillView { block: self.block@, propose_hashes: views(self.propose_hashes@) }
    }
}

/// A block with its transactions.
#[derive(Clone, Debug, PartialEq, Eq)]
pub struct FullBlock<T> {
    pub block: Block,
    pub ordered_txs: Vec<T>,
}

pub struct FullBlockView<T> {
    pub block: BlockView,
    pub ordered_txs: Seq<T>,
}

impl<T> View for FullBlock<T> {
    type V = FullBlockView<T>;

    open spec fn view(&self) -> FullBlockView<T> {
        FullBlockView { block: self.block@, ordered_txs: self.ordered_txs@ }
    }
}

/// What the execution of a block has left, and the limits that hold after it.
#[derive(Clone, Debug, PartialEq, Eq)]
pub struct ExecResp {
    pub order_root: MerkleRoot,
    pub state_root: MerkleRoot,
    pub receipt_root: MerkleRoot,
    pub cycles_used: u64,
    pub logs_bloom: Bloom,
    pub cycles_limit: u64,
    pub tx_num_limit: u64,
    pub max_tx_size: u64,
    pub validators: Vec<Validator>,
}

pub struct ExecRespView {
    pub order_root: Seq<u8>,
    pub state_root: Seq<u8>,
    pub receipt_root: Seq<u8>,
    pub cycles_used: u64,
    pub logs_bloom: Seq<u8>,
    pub cycles_limit: u64,
    pub tx_num_limit: u64,
    pub max_tx_size: u64,
    pub validators: Seq<ValidatorView>,
}

impl View for ExecResp {
    type V = ExecRespView;

    open spec fn view(&self) -> ExecRespView {
        ExecRespView {
            order_root: self.order_root@,
            state_root: self.state_root@,
            receipt_root: self.receipt_root@,
            cycles_used: self.cycles_used,
            logs_bloom: self.logs_bloom@,
            cycles_limit: self.cycles_limit,
            tx_num_limit: self.tx_num_limit,
            max_tx_size: self.max_tx_size,
            validators: views(self.validators@),
        }
    }
}

/// The outcome of executing the block of a height.
#[derive(Clone, Debug, PartialEq, Eq)]
pub struct BlockState {
    pub height: u64,
    pub state: ExecResp,
}

pub struct BlockStateView {
    pub height: u64,
    pub state: ExecRespView,
}

impl View for BlockState {
    type V = BlockStateView;

    open spec fn view(&self) -> BlockStateView {
        BlockStateView { height: self.height, state: self.state@ }
    }
}

} // verus!
