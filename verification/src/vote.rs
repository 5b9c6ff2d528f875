//! Proofs of agreement, as the consensus engine and as the chain hold them.

use vstd::prelude::*;

use crate::bytes::{Bytes, ProtoHash};
use crate::codec::ChainCodec;
use crate::types::{ProtoProof, ProtoProofView};

verus! {

/// What a quorum has voted for.
#[derive(Clone, Debug, PartialEq, Eq)]
pub struct Vote {
    pub height: u64,
    pub round: u64,
    pub block_hash: Bytes,
}

/// The aggregated signature of a quorum, and the map of who signed.
#[derive(Clone, Debug, PartialEq, Eq)]
pub struct Aggregates {
    pub address_bitmap: Bytes,
    pub signature: Bytes,
}

/// A proof of agreement on a block, as the consensus engine holds it.
#[derive(Clone, Debug, PartialEq, Eq)]
pub struct Proof {
    pub vote: Vote,
    pub aggregates: Aggregates,
}

pub struct ProofView {
    pub height: u64,
    pub round: u64,
    pub block_hash: Seq<u8>,
    pub address_bitmap: Seq<u8>,
    pub signature: Seq<u8>,
}

impl View for Proof {
    type V = ProofView;

    open spec fn view(&self) -> ProofView {
        ProofView {
            height: self.vote.height,
            round: self.vote.round,
            block_hash: self.vote.block_hash@,
            address_bitmap: self.aggregates.address_bitmap@,
            signature: self.aggregates.signature@,
        }
    }
}

impl Vote {
    /// A vote for the block with hash `block_hash`.
    pub fn new(height: u64, round: u64, block_hash: Bytes) -> (vote: Self)
        ensures
            vote.height == height,
            vote.round == round,
            vote.block_hash == block_hash,
    {
        Vote { height, round, block_hash }
    }
}

impl Aggregates {
    /// A signature together with the map of who signed.
    pub fn new(address_bitmap: Bytes, signature: Bytes) -> (aggregates: Self)
        ensures
            aggregates.address_bitmap == address_bitmap,
            aggregates.signature == signature,
    {
        Aggregates { address_bitmap, signature }
    }
}

impl Proof {
    /// The proof that a quorum has cast `vote`.
    pub fn new(vote: Vote, aggregates: Aggregates) -> (quorum: Self)
        ensures
            quorum.vote == vote,
            quorum.aggregates == aggregates,
    {
        Proof { vote, aggregates }
    }
}

/// The engine's form of a stored proof.
pub open spec fn engine_form(stored: ProtoProofView) -> ProofView {
    ProofView {
        height: stored.height,
        round: stored.round,
        block_hash: stored.block_hash,
        address_bitmap: stored.bitmap,
        signature: stored.signature,
    }
}

/// The stored form of a proof of the engine, with `block_hash` as the hash it votes for.
pub open spec fn stored_form(quorum: ProofView, block_hash: Seq<u8>) -> ProtoProofView {
    ProtoProofView {
        height: quorum.height,
        round: quorum.round,
        block_hash,
        signature: quorum.signature,
        bitmap: quorum.address_bitmap,
    }
}

/// The parts of `quorum`, with `block_hash` as the hash it votes for, put together as a stored
/// proof.
pub open spec fn stored_proof(quorum: Proof, block_hash: ProtoHash) -> ProtoProof {
    ProtoProof {
        height: quorum.vote.height,
        round: quorum.vote.round,
        block_hash,
        signature: quorum.aggregates.signature,
        bitmap: quorum.aggregates.address_bitmap,
    }
}

/// Turns a stored proof into one of the engine.
pub fn into_proof(stored: ProtoProof) -> (quorum: Proof)
    ensures
        quorum@ == engine_form(stored@),
{
    let vote = Vote::new(stored.height, stored.round, stored.block_hash.as_bytes());
    let aggregates = Aggregates::new(stored.bitmap, stored.signature);
    Proof::new(vote, aggregates)
}

/// The stored form of a proof whose block hash reads `block_hash`.
pub fn proto_proof(quorum: Proof, block_hash: ProtoHash) -> (stored: ProtoProof)
    ensures
        stored@ == stored_form(quorum@, block_hash@),
        stored == stored_proof(quorum, block_hash),
{
    ProtoProof {
        height: quorum.vote.height,
        round: quorum.vote.round,
        block_hash,
        signature: quorum.aggregates.signature,
        bitmap: quorum.aggregates.address_bitmap,
    }
}

/// `stored` is what becomes of `quorum`: the block hash of the vote has been read, and where it
/// is no hash, that is the error.
pub open spec fn is_stored_form<C: ChainCodec>(
    quorum: Proof,
    stored: Result<ProtoProof, C::Error>,
) -> bool {
    exists|read: Result<ProtoHash, C::Error>| #[trigger]
        call_ensures(C::hash_from_bytes, (&quorum.vote.block_hash,), read) && match read {
            Ok(block_hash) => stored matches Ok(done) && done@ == stored_form(quorum@, block_hash@),
            Err(error) => stored == Err::<ProtoProof, C::Error>(error),
        }
}

/// Turns a proof of the engine into one that the chain stores.
pub fn into_proto_proof<C: ChainCodec>(quorum: Proof) -> (stored: Result<ProtoProof, C::Error>)
    ensures
        is_stored_form::<C>(quorum, stored),
{
    match C::hash_from_bytes(&quorum.vote.block_hash) {
        Ok(block_hash) => Ok(proto_proof(quorum, block_hash)),
        Err(error) => Err(error),
    }
}

/// A stored proof that goes to the engine and back is unchanged, where its hash is read back as
/// the same bytes.
pub proof fn stored_proof_round_trip(stored: ProtoProofView)
    ensures
        stored_form(engine_form(stored), engine_form(stored).block_hash) == stored,
{
}

/// A proof of the engine that is stored and taken back is unchanged, where its hash is read as
/// the same bytes.
pub proof fn engine_proof_round_trip(quorum: ProofView)
    ensures
        engine_form(stored_form(quorum, quorum.block_hash)) == quorum,
{
}

} // verus!
