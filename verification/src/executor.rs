//! What the adapter asks of the executor.

use vstd::prelude::*;

use crate::bytes::{Bloom, MerkleRoot};

verus! {

/// The address in whose name the metadata is read.
pub const METADATA_CALLER: &'static str = "0x0000000000000000000000000000000000000000";

/// Where in the chain an execution takes place, and how much it may use.
#[derive(Clone, Debug, PartialEq, Eq)]
pub struct ExecutorParams {
    pub state_root: MerkleRoot,
    pub height: u64,
    pub timestamp: u64,
    pub cycles_limit: u64,
}

/// A call of a method of a service.
#[derive(Clone, Debug, PartialEq, Eq)]
pub struct TransactionRequest {
    pub service_name: String,
    pub method: String,
    pub payload: String,
}

/// A read call to a service.
#[derive(Clone, Debug, PartialEq, Eq)]
pub struct ReadCall {
    pub params: ExecutorParams,
    pub caller: String,
    pub cycles_price: u64,
    pub request: TransactionRequest,
}

/// What the execution of the transactions of a block has left.
#[derive(Clone, Debug, PartialEq, Eq)]
pub struct ExecutorResp<R> {
    pub receipts: Vec<R>,
    pub all_cycles_used: u64,
    pub logs_bloom: Bloom,
    pub state_root: MerkleRoot,
}

/// `params` are those of an execution of the block of `height` on top of `state_root`.
pub open spec fn is_params(
    params: ExecutorParams,
    state_root: Seq<u8>,
    height: u64,
    timestamp: u64,
    cycles_limit: u64,
) -> bool {
    &&& params.state_root@ == state_root
    &&& params.height == height
    &&& params.timestamp == timestamp
    &&& params.cycles_limit == cycles_limit
}

/// `call` reads the metadata as of `state_root`, in the name of no one, without a limit on cycles.
pub open spec fn is_metadata_call(
    call: ReadCall,
    state_root: Seq<u8>,
    height: u64,
    timestamp: u64,
) -> bool {
    &&& is_params(call.params, state_root, height, timestamp, u64::MAX)
    &&& call.caller@ == METADATA_CALLER@
    &&& call.cycles_price == 1
    &&& call.request.service_name@ == "metadata"@
    &&& call.request.method@ == "get_metadata"@
    &&& call.request.payload@ == ""@
}

/// The parameters of the execution of the block of `height` on top of `state_root`.
///
/// The executor starts from the same state root.
pub fn exec_params(
    state_root: &MerkleRoot,
    height: u64,
    timestamp: u64,
    cycles_limit: u64,
) -> (params: ExecutorParams)
    ensures
        is_params(params, state_root@, height, timestamp, cycles_limit),
{
    ExecutorParams { state_root: state_root.clone(), height, timestamp, cycles_limit }
}

/// The call that reads the metadata as of `state_root`, without a limit on cycles.
pub fn metadata_call(state_root: &MerkleRoot, height: u64, timestamp: u64) -> (call: ReadCall)
    ensures
        is_metadata_call(call, state_root@, height, timestamp),
{
    ReadCall {
        params: exec_params(state_root, height, timestamp, u64::MAX),
        caller: METADATA_CALLER.to_owned(),
        cycles_price: 1,
        request: TransactionRequest {
            service_name: "metadata".to_owned(),
            method: "get_metadata".to_owned(),
            payload: "".to_owned(),
        },
    }
}

} // verus!
