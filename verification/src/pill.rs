//! Pills, as the consensus engine handles them.

use vstd::prelude::*;

use crate::bytes::{Bytes, ProtoHash};
use crate::codec::{is_block_hash, ChainCodec};
use crate::types::{Pill, PillView};
use crate::vote::{engine_form, into_proof, Proof};

verus! {

/// A pill, in the form in which the consensus engine agrees on it.
#[derive(Clone, Debug, PartialEq, Eq)]
pub struct WrappedPill(pub Pill);

impl View for WrappedPill {
    type V = PillView;

    open spec fn view(&self) -> PillView {
        self.0@
    }
}

impl WrappedPill {
    /// The encoding of the pill.
    pub fn fixed_encode<C: ChainCodec>(&self) -> (data: Result<Bytes, C::Error>)
        ensures
            call_ensures(C::encode_pill, (&self.0,), data),
    {
        C::encode_pill(&self.0)
    }

    /// The pill with encoding `data`.
    pub fn fixed_decode<C: ChainCodec>(data: &Bytes) -> (pill: Result<Self, C::Error>)
        ensures
            match pill {
                Ok(wrapped) => call_ensures(C::decode_pill, (data,), Ok::<Pill, C::Error>(wrapped.0)),
                Err(error) => call_ensures(C::decode_pill, (data,), Err::<Pill, C::Error>(error)),
            },
    {
        match C::decode_pill(data) {
            Ok(pill) => Ok(WrappedPill(pill)),
            Err(error) => Err(error),
        }
    }

    /// The hash of the block of the pill; the transactions proposed for later do not enter it.
    pub fn get_block_hash<C: ChainCodec>(&self) -> (hash: Result<Bytes, C::Error>)
        ensures
            is_block_hash::<C>(self.0.block, hash),
            match hash {
                Ok(bytes) => exists|data: Bytes, digest: ProtoHash|
                    {
                        &&& #[trigger] call_ensures(
                            C::encode_block,
                            (&self.0.block,),
                            Ok::<Bytes, C::Error>(data),
                        )
                        &&& #[trigger] call_ensures(C::digest, (&data,), digest)
                        &&& bytes@ == digest.bytes@
                    },
                Err(error) => call_ensures(
                    C::encode_block,
                    (&self.0.block,),
                    Err::<Bytes, C::Error>(error),
                ),
            },
    {
        match C::encode_block(&self.0.block) {
            Ok(data) => Ok(C::digest(&data).as_bytes()),
            Err(error) => Err(error),
        }
    }

    /// The hash of the block before.
    pub fn get_pre_hash(&self) -> (hash: Bytes)
        ensures
            hash@ == self@.block.header.pre_hash,
    {
        self.0.block.header.pre_hash.as_bytes()
    }

    /// The height of the block.
    pub fn get_height(&self) -> (height: u64)
        ensures
            height == self@.block.header.height,
    {
        self.0.block.header.height
    }

    /// The height up to which the block confirms executions.
    pub fn get_exec_height(&self) -> (height: u64)
        ensures
            height == self@.block.header.exec_height,
    {
        self.0.block.header.exec_height
    }

    /// The proof of agreement on the block before.
    pub fn get_proof(&self) -> (quorum: Proof)
        ensures
            quorum@ == engine_form(self@.block.header.pre_proof),
    {
        into_proof(self.0.block.header.pre_proof.clone())
    }
}

} // verus!
