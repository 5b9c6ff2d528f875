//! What the consensus engine learns of an executed block.

use vstd::prelude::*;

use crate::bytes::{views, Bloom, Bytes, MerkleRoot};
use crate::codec::ChainCodec;
use crate::types::{
    BlockState, BlockStateView, ExecResp, ExecRespView, Validator, ValidatorExtend,
    ValidatorExtendView, ValidatorView,
};

verus! {

/// How many blocks the execution may stay behind the agreement.
pub const MAX_EXEC_BEHIND: u64 = 5;

/// The rules of the chain after a block, as its metadata service tells them.
#[derive(Clone, Debug, PartialEq, Eq)]
pub struct Metadata {
    pub common_ref: String,
    pub cycles_limit: u64,
    pub interval: u64,
    pub verifier_list: Vec<ValidatorExtend>,
    pub propose_ratio: u64,
    pub prevote_ratio: u64,
    pub precommit_ratio: u64,
    pub brake_ratio: u64,
    pub tx_num_limit: u64,
    pub max_tx_size: u64,
}

pub struct MetadataView {
    pub common_ref: Seq<char>,
    pub cycles_limit: u64,
    pub interval: u64,
    pub verifier_list: Seq<ValidatorExtendView>,
    pub propose_ratio: u64,
    pub prevote_ratio: u64,
    pub precommit_ratio: u64,
    pub brake_ratio: u64,
    pub tx_num_limit: u64,
    pub max_tx_size: u64,
}

impl View for Metadata {
    type V = MetadataView;

    open spec fn view(&self) -> MetadataView {
        MetadataView {
            common_ref: self.common_ref@,
            cycles_limit: self.cycles_limit,
            interval: self.interval,
            verifier_list: views(self.verifier_list@),
            propose_ratio: self.propose_ratio,
            prevote_ratio: self.prevote_ratio,
            precommit_ratio: self.precommit_ratio,
            brake_ratio: self.brake_ratio,
            tx_num_limit: self.tx_num_limit,
            max_tx_size: self.max_tx_size,
        }
    }
}

/// A member of the authority list of the engine.
#[derive(Clone, Debug, PartialEq, Eq)]
pub struct Node {
    pub address: Bytes,
    pub party_pub_key: String,
    pub propose_weight: u32,
    pub vote_weight: u32,
}

pub struct NodeView {
    pub address: Seq<u8>,
    pub party_pub_key: Seq<char>,
    pub propose_weight: u32,
    pub vote_weight: u32,
}

impl View for Node {
    type V = NodeView;

    open spec fn view(&self) -> NodeView {
        NodeView {
            address: self.address@,
            party_pub_key: self.party_pub_key@,
            propose_weight: self.propose_weight,
            vote_weight: self.vote_weight,
        }
    }
}

/// How the engine selects the proposer of a round.
#[derive(Clone, Copy, Debug, PartialEq, Eq)]
pub enum SelectMode {
    InTurn,
}

/// The timing of the engine.
#[derive(Clone, Copy, Debug, PartialEq, Eq)]
pub struct TimeConfig {
    pub interval: u64,
    pub propose_ratio: u64,
    pub pre_vote_ratio: u64,
    pub pre_commit_ratio: u64,
    pub brake_ratio: u64,
}

/// Who may propose and vote.
#[derive(Clone, Debug, PartialEq, Eq)]
pub struct AuthConfig {
    pub common_ref: String,
    pub mode: SelectMode,
    pub auth_list: Vec<Node>,
}

/// The configuration of the engine.
#[derive(Clone, Debug, PartialEq, Eq)]
pub struct OverlordConfig {
    pub max_exec_behind: u64,
    pub auth_config: AuthConfig,
    pub time_config: TimeConfig,
}

pub struct OverlordConfigView {
    pub max_exec_behind: u64,
    pub common_ref: Seq<char>,
    pub mode: SelectMode,
    pub auth_list: Seq<NodeView>,
    pub time_config: TimeConfig,
}

impl View for OverlordConfig {
    type V = OverlordConfigView;

    open spec fn view(&self) -> OverlordConfigView {
        OverlordConfigView {
            max_exec_behind: self.max_exec_behind,
            common_ref: self.auth_config.common_ref@,
            mode: self.auth_config.mode,
            auth_list: views(self.auth_config.auth_list@),
            time_config: self.time_config,
        }
    }
}

/// What the engine learns of an executed block: the configuration that now holds, and the outcome.
#[derive(Clone, Debug, PartialEq, Eq)]
pub struct ExecResult {
    pub consensus_config: OverlordConfig,
    pub block_states: BlockState,
}

pub struct ExecResultView {
    pub consensus_config: OverlordConfigView,
    pub block_states: BlockStateView,
}

impl View for ExecResult {
    type V = ExecResultView;

    open spec fn view(&self) -> ExecResultView {
        ExecResultView {
            consensus_config: self.consensus_config@,
            block_states: self.block_states@,
        }
    }
}

/// `resp` has the default of every field: the hashes and the filter are those of the chain, no cycles
/// are used or allowed, and there are no validators.
pub open spec fn is_default_resp<C: ChainCodec>(resp: ExecResp) -> bool {
    &&& call_ensures(C::default_hash, (), resp.order_root)
    &&& call_ensures(C::default_hash, (), resp.state_root)
    &&& call_ensures(C::default_hash, (), resp.receipt_root)
    &&& call_ensures(C::default_bloom, (), resp.logs_bloom)
    &&& resp.cycles_used == 0
    &&& resp.cycles_limit == 0
    &&& resp.tx_num_limit == 0
    &&& resp.max_tx_size == 0
    &&& resp.validators@.len() == 0
}

/// `result` is the default of the engine around a default outcome.
pub open spec fn is_default_result<C: ChainCodec>(result: ExecResult) -> bool {
    exists|resp: ExecResp| #[trigger]
        is_default_resp::<C>(resp) && call_ensures(C::default_exec_result, (resp,), result)
}

/// The outcome with the default of every field.
pub fn default_resp<C: ChainCodec>() -> (resp: ExecResp)
    ensures
        is_default_resp::<C>(resp),
{
    ExecResp {
        order_root: C::default_hash(),
        state_root: C::default_hash(),
        receipt_root: C::default_hash(),
        cycles_used: 0,
        logs_bloom: C::default_bloom(),
        cycles_limit: 0,
        tx_num_limit: 0,
        max_tx_size: 0,
        validators: Vec::new(),
    }
}

/// A verifier as a member of the authority list.
pub open spec fn as_node(verifier: ValidatorExtendView) -> NodeView {
    NodeView {
        address: verifier.address,
        party_pub_key: verifier.bls_pub_key,
        propose_weight: verifier.propose_weight,
        vote_weight: verifier.vote_weight,
    }
}

/// A verifier as a header lists it.
pub open spec fn as_validator(verifier: ValidatorExtendView) -> ValidatorView {
    ValidatorView {
        address: verifier.address,
        propose_weight: verifier.propose_weight,
        vote_weight: verifier.vote_weight,
    }
}

/// The authority list of some verifiers.
pub open spec fn auth_list_of(verifiers: Seq<ValidatorExtendView>) -> Seq<NodeView> {
    Seq::new(verifiers.len(), |i: int| as_node(verifiers[i]))
}

/// The validator list of some verifiers.
pub open spec fn validators_of(verifiers: Seq<ValidatorExtendView>) -> Seq<ValidatorView> {
    Seq::new(verifiers.len(), |i: int| as_validator(verifiers[i]))
}

/// The authority list of the engine for the verifiers of the chain.
pub fn to_overlord_auth_list(validators: &[ValidatorExtend]) -> (nodes: Vec<Node>)
    ensures
        views(nodes@) == auth_list_of(views(validators@)),
        nodes@.len() == validators@.len(),
        forall|i: int|
            #![trigger nodes@[i]]
            0 <= i < nodes@.len() ==> {
                &&& nodes@[i].address@ == validators@[i].address.bytes@
                &&& nodes@[i].party_pub_key@ == validators@[i].bls_pub_key@
                &&& nodes@[i].propose_weight == validators@[i].propose_weight
                &&& nodes@[i].vote_weight == validators@[i].vote_weight
            },
{
    let mut nodes: Vec<Node> = Vec::new();
    let mut i: usize = 0;
    while i < validators.len()
        invariant
            i <= validators@.len(),
            nodes@.len() == i,
            forall|j: int| 0 <= j < i ==> (#[trigger] nodes@[j])@ == as_node(validators@[j]@),
        decreases validators@.len() - i,
    {
        let v = &validators[i];
        nodes.push(Node {
            address: v.address.as_bytes(),
            party_pub_key: v.bls_pub_key.clone(),
            propose_weight: v.propose_weight,
            vote_weight: v.vote_weight,
        });
        i += 1;
    }
    assert(views(nodes@) =~= auth_list_of(views(validators@)));
    nodes
}

/// The validator list of a header for the verifiers of the chain.
pub fn to_validator_list(validators: &[ValidatorExtend]) -> (list: Vec<Validator>)
    ensures
        views(list@) == validators_of(views(validators@)),
        list@.len() == validators@.len(),
        forall|i: int|
            #![trigger list@[i]]
            0 <= i < list@.len() ==> {
                &&& list@[i].address.bytes@ == validators@[i].address.bytes@
                &&& list@[i].propose_weight == validators@[i].propose_weight
                &&& list@[i].vote_weight == validators@[i].vote_weight
            },
{
    let mut list: Vec<Validator> = Vec::new();
    let mut i: usize = 0;
    while i < validators.len()
        invariant
            i <= validators@.len(),
            list@.len() == i,
            forall|j: int| 0 <= j < i ==> (#[trigger] list@[j])@ == as_validator(validators@[j]@),
        decreases validators@.len() - i,
    {
        let v = &validators[i];
        list.push(Validator {
            address: v.address.clone(),
            propose_weight: v.propose_weight,
            vote_weight: v.vote_weight,
        });
        i += 1;
    }
    assert(views(list@) =~= validators_of(views(validators@)));
    list
}

/// The configuration that `metadata` sets.
pub open spec fn config_of(metadata: MetadataView) -> OverlordConfigView {
    OverlordConfigView {
        max_exec_behind: MAX_EXEC_BEHIND,
        common_ref: metadata.common_ref,
        mode: SelectMode::InTurn,
        auth_list: auth_list_of(metadata.verifier_list),
        time_config: TimeConfig {
            interval: metadata.interval,
            propose_ratio: metadata.propose_ratio,
            pre_vote_ratio: metadata.prevote_ratio,
            pre_commit_ratio: metadata.precommit_ratio,
            brake_ratio: metadata.brake_ratio,
        },
    }
}

/// The outcome of an execution under the limits that `metadata` sets.
pub open spec fn outcome_of(
    metadata: MetadataView,
    state_root: Seq<u8>,
    order_root: Seq<u8>,
    receipt_root: Seq<u8>,
    logs_bloom: Seq<u8>,
    cycles_used: u64,
) -> ExecRespView {
    ExecRespView {
        order_root,
        state_root,
        receipt_root,
        cycles_used,
        logs_bloom,
        cycles_limit: metadata.cycles_limit,
        tx_num_limit: metadata.tx_num_limit,
        max_tx_size: metadata.max_tx_size,
        validators: validators_of(metadata.verifier_list),
    }
}

/// Puts together what the engine learns of the executed block of `height`.
pub fn create_exec_result(
    height: u64,
    metadata: Metadata,
    state_root: MerkleRoot,
    order_root: MerkleRoot,
    receipt_root: MerkleRoot,
    logs_bloom: Bloom,
    cycles_used: u64,
) -> (result: ExecResult)
    ensures
        result@.consensus_config == config_of(metadata@),
        result@.block_states.height == height,
        result@.block_states.state == outcome_of(
            metadata@,
            state_root@,
            order_root@,
            receipt_root@,
            logs_bloom@,
            cycles_used,
        ),
{
    let time_config = TimeConfig {
        interval: metadata.interval,
        propose_ratio: metadata.propose_ratio,
        pre_vote_ratio: metadata.prevote_ratio,
        pre_commit_ratio: metadata.precommit_ratio,
        brake_ratio: metadata.brake_ratio,
    };

    let auth_config = AuthConfig {
        common_ref: metadata.common_ref.clone(),
        mode: SelectMode::InTurn,
        auth_list: to_overlord_auth_list(metadata.verifier_list.as_slice()),
    };

    let consensus_config = OverlordConfig {
        max_exec_behind: MAX_EXEC_BEHIND,
        auth_config,
        time_config,
    };

    let exec_resp = ExecResp {
        order_root,
        state_root,
        receipt_root,
        cycles_used,
        logs_bloom,
        cycles_limit: metadata.cycles_limit,
        tx_num_limit: metadata.tx_num_limit,
        max_tx_size: metadata.max_tx_size,
        validators: to_validator_list(metadata.verifier_list.as_slice()),
    };

    ExecResult { consensus_config, block_states: BlockState { height, state: exec_resp } }
}

/// The authority list that the engine gets and the validator list that headers get name the same
/// members with the same weights, in the same order.
pub proof fn authorities_are_validators(
    metadata: MetadataView,
    state_root: Seq<u8>,
    order_root: Seq<u8>,
    receipt_root: Seq<u8>,
    logs_bloom: Seq<u8>,
    cycles_used: u64,
)
    ensures
        ({
            let authorities = config_of(metadata).auth_list;
            let validators = outcome_of(
                metadata,
                state_root,
                order_root,
                receipt_root,
                logs_bloom,
                cycles_used,
            ).validators;
            validators == Seq::new(
                authorities.len(),
                |i: int|
                    ValidatorView {
                        address: authorities[i].address,
                        propose_weight: authorities[i].propose_weight,
                        vote_weight: authorities[i].vote_weight,
                    },
            )
        }),
{
    assert(validators_of(metadata.verifier_list) =~= Seq::new(
        auth_list_of(metadata.verifier_list).len(),
        |i: int|
            ValidatorView {
                address: auth_list_of(metadata.verifier_list)[i].address,
                propose_weight: auth_list_of(metadata.verifier_list)[i].propose_weight,
                vote_weight: auth_list_of(metadata.verifier_list)[i].vote_weight,
            },
    ));
}

} // verus!
