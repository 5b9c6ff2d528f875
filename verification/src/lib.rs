//! The deciding part of the adapter between a consensus engine and a chain.
//!
//! [`OverlordAdapter`] makes the blocks that a node proposes and checks those that others propose.
//! [`fetch`] and [`save`] decide, step by step, what is asked of the pool, the executor and the
//! storage once a block has been agreed on; whoever runs them performs the requests and hands the
//! answers back. The encodings, the hash functions and the default values of the chain and of the
//! engine enter through [`ChainCodec`].
//!
//! [`laws`] states what holds between the operations, and [`particulars`] what each of them does, down
//! to the calls that it makes and the fields that it writes.

pub mod adapter;
pub mod bytes;
pub mod codec;
pub mod confirm;
pub mod error;
pub mod exec_result;
pub mod executor;
pub mod fetch;
pub mod laws;
pub mod order;
pub mod own_blocks;
pub mod particulars;
pub mod pill;
pub mod save;
pub mod types;
pub mod vote;

pub use adapter::{OverlordAdapter, Status};
pub use bytes::{Bloom, Bytes, MerkleRoot, ProtoAddress, ProtoHash};
pub use codec::ChainCodec;
pub use error::{AdapterError, ConsensusError};
pub use exec_result::{
    create_exec_result, default_resp, to_overlord_auth_list, to_validator_list, AuthConfig,
    ExecResult, Metadata, Node, OverlordConfig, SelectMode, TimeConfig,
};
pub use executor::{ExecutorParams, ExecutorResp, ReadCall, TransactionRequest};
pub use fetch::{FetchEvent, FetchRequest, FetchStep};
pub use own_blocks::BlockHashSet;
pub use pill::WrappedPill;
pub use save::{save_and_exec_block_with_proof, SaveEvent, SaveRequest, SaveStep};
pub use types::{
    Block, BlockHeader, BlockState, ExecResp, FullBlock, Pill, ProtoProof, Validator,
    ValidatorExtend,
};
pub use vote::{into_proof, into_proto_proof, Aggregates, Proof, Vote};
