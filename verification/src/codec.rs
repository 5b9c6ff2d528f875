//! What the chain encodes and hashes, its default values, and the roots that the adapter has it
//! compute.

use vstd::prelude::*;

use crate::bytes::{Bloom, Bytes, ProtoHash};
use crate::exec_result::ExecResult;
use crate::types::{Block, ExecResp, FullBlock, Pill};

verus! {

/// The encodings, the hash functions and the default values of a chain and its consensus engine.
///
/// A node has them from its `protocol` and `common_merkle` crates and from the engine that it is
/// built with. These are parts of the node itself that are not to be had as dependencies, so the node
/// hands them in.
///
/// Nothing is known here of what the functions return: a contract that depends on one says what
/// was handed to it, and what follows from whatever it returned.
pub trait ChainCodec: Sized {
    /// What a failed encoding, decoding or conversion reports.
    type Error;

    /// A signed transaction.
    type Transaction;

    /// The receipt of a transaction.
    type Receipt;

    /// The encoding of a pill.
    fn encode_pill(pill: &Pill) -> Result<Bytes, Self::Error>;

    /// The pill with a given encoding.
    fn decode_pill(data: &Bytes) -> Result<Pill, Self::Error>;

    /// The encoding of a block.
    fn encode_block(block: &Block) -> Result<Bytes, Self::Error>;

    /// The encoding of a block with its transactions.
    fn encode_full_block(full_block: &FullBlock<Self::Transaction>) -> Result<Bytes, Self::Error>;

    /// The block and transactions with a given encoding.
    fn decode_full_block(data: &Bytes) -> Result<FullBlock<Self::Transaction>, Self::Error>;

    /// The encoding of a hash.
    fn encode_hash(hash: &ProtoHash) -> Bytes;

    /// The encoding of a receipt.
    fn encode_receipt(receipt: &Self::Receipt) -> Bytes;

    /// The digest of some bytes.
    fn digest(data: &Bytes) -> ProtoHash;

    /// The hash that stands for the root of an empty tree.
    fn empty_hash() -> ProtoHash;

    /// The hash with given bytes, where they are as many as a hash has.
    fn hash_from_bytes(data: &Bytes) -> Result<ProtoHash, Self::Error>;

    /// The root of the Merkle tree over `leaves`, where there are any.
    fn merkle_root(leaves: &Vec<ProtoHash>) -> Option<ProtoHash>;

    /// The hash that stands where none has been set.
    fn default_hash() -> ProtoHash;

    /// The filter that stands where none has been set.
    fn default_bloom() -> Bloom;

    /// What the engine holds of a block where nothing has been set, given the outcome that stands
    /// where none has been set.
    fn default_exec_result(state: ExecResp) -> ExecResult;
}

/// `root` is the Merkle root of `leaves`, or the empty hash where they have none.
pub open spec fn is_root<C: ChainCodec>(leaves: Vec<ProtoHash>, root: ProtoHash) -> bool {
    exists|found: Option<ProtoHash>| #[trigger]
        call_ensures(C::merkle_root, (&leaves,), found) && match found {
            Some(top) => root == top,
            None => call_ensures(C::empty_hash, (), root),
        }
}

/// `leaf` is the digest of the encoding of `hash`.
pub open spec fn is_hash_leaf<C: ChainCodec>(hash: ProtoHash, leaf: ProtoHash) -> bool {
    exists|data: Bytes| #[trigger]
        call_ensures(C::encode_hash, (&hash,), data) && call_ensures(C::digest, (&data,), leaf)
}

/// `leaf` is the digest of the encoding of `receipt`.
pub open spec fn is_receipt_leaf<C: ChainCodec>(receipt: C::Receipt, leaf: ProtoHash) -> bool {
    exists|data: Bytes| #[trigger]
        call_ensures(C::encode_receipt, (&receipt,), data) && call_ensures(C::digest, (&data,), leaf)
}

/// `root` is the Merkle root over the digests of the encodings of `hashes`.
pub open spec fn is_encoded_root<C: ChainCodec>(hashes: Seq<ProtoHash>, root: ProtoHash) -> bool {
    exists|leaves: Vec<ProtoHash>| #[trigger]
        is_root::<C>(leaves, root) && leaves@.len() == hashes.len() && forall|i: int|
            0 <= i < hashes.len() ==> is_hash_leaf::<C>(hashes[i], #[trigger] leaves@[i])
}

/// `root` is the Merkle root over the digests of the encodings of `receipts`.
pub open spec fn is_receipt_root<C: ChainCodec>(receipts: Seq<C::Receipt>, root: ProtoHash) -> bool {
    exists|leaves: Vec<ProtoHash>| #[trigger]
        is_root::<C>(leaves, root) && leaves@.len() == receipts.len() && forall|i: int|
            0 <= i < receipts.len() ==> is_receipt_leaf::<C>(receipts[i], #[trigger] leaves@[i])
}

/// `hash` holds the bytes of the digest of the encoding of `block`, or why it has no encoding.
pub open spec fn is_block_hash<C: ChainCodec>(block: Block, hash: Result<Bytes, C::Error>) -> bool {
    exists|encoded: Result<Bytes, C::Error>| #[trigger]
        call_ensures(C::encode_block, (&block,), encoded) && match encoded {
            Ok(data) => exists|digest: ProtoHash| #[trigger]
                call_ensures(C::digest, (&data,), digest) && (hash matches Ok(bytes) && bytes@
                    == digest@),
            Err(error) => hash == Err::<Bytes, C::Error>(error),
        }
}

/// The Merkle root of `leaves`, or the empty hash where they have none.
pub fn merkle_root_or_empty<C: ChainCodec>(leaves: &Vec<ProtoHash>) -> (root: ProtoHash)
    ensures
        is_root::<C>(*leaves, root),
{
    match C::merkle_root(leaves) {
        Some(top) => top,
        None => C::empty_hash(),
    }
}

/// The Merkle root over the digests of the encodings of `hashes`.
pub fn encoded_root<C: ChainCodec>(hashes: &Vec<ProtoHash>) -> (root: ProtoHash)
    ensures
        is_encoded_root::<C>(hashes@, root),
{
    let mut leaves: Vec<ProtoHash> = Vec::new();
    let mut i: usize = 0;
    while i < hashes.len()
        invariant
            i <= hashes@.len(),
            leaves@.len() == i,
            forall|j: int| 0 <= j < i ==> is_hash_leaf::<C>(hashes@[j], #[trigger] leaves@[j]),
        decreases hashes@.len() - i,
    {
        let data = C::encode_hash(&hashes[i]);
        let leaf = C::digest(&data);
        assert(is_hash_leaf::<C>(hashes@[i as int], leaf));
        leaves.push(leaf);
        i += 1;
    }
    merkle_root_or_empty::<C>(&leaves)
}

/// The Merkle root over the digests of the encodings of `receipts`.
pub fn receipt_root<C: ChainCodec>(receipts: &Vec<C::Receipt>) -> (root: ProtoHash)
    ensures
        is_receipt_root::<C>(receipts@, root),
{
    let mut leaves: Vec<ProtoHash> = Vec::new();
    let mut i: usize = 0;
    while i < receipts.len()
        invariant
            i <= receipts@.len(),
            leaves@.len() == i,
            forall|j: int| 0 <= j < i ==> is_receipt_leaf::<C>(receipts@[j], #[trigger] leaves@[j]),
        decreases receipts@.len() - i,
    {
        let data = C::encode_receipt(&receipts[i]);
        let leaf = C::digest(&data);
        assert(is_receipt_leaf::<C>(receipts@[i as int], leaf));
        leaves.push(leaf);
        i += 1;
    }
    merkle_root_or_empty::<C>(&leaves)
}

} // verus!
