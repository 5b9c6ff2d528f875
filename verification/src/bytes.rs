//! Byte strings and the identifiers built from them.

use vstd::prelude::*;

verus! {

/// A byte string.
pub type Bytes = Vec<u8>;

/// The views of the items of a sequence.
pub open spec fn views<T: View>(items: Seq<T>) -> Seq<T::V> {
    Seq::new(items.len(), |i: int| items[i]@)
}

/// Copies a byte string.
pub fn copy_bytes(source: &Vec<u8>) -> (copy: Vec<u8>)
    ensures
        copy@ == source@,
{
    let copy = source.clone();
    assert(copy@ =~= source@);
    copy
}

/// Tells whether two byte strings are the same.
pub fn same_bytes(left: &Vec<u8>, right: &Vec<u8>) -> (same: bool)
    ensures
        same == (left@ == right@),
{
    if left.len() != right.len() {
        return false;
    }
    let mut i: usize = 0;
    while i < left.len()
        invariant
            i <= left.len(),
            left.len() == right.len(),
            forall|j: int| 0 <= j < i ==> left@[j] == right@[j],
        decreases left.len() - i,
    {
        if left[i] != right[i] {
            return false;
        }
        i += 1;
    }
    assert(left@ =~= right@);
    true
}

/// A digest, as the chain computes it.
#[derive(Debug, PartialEq, Eq)]
pub struct ProtoHash {
    pub bytes: Bytes,
}

/// The root of a Merkle tree.
pub type MerkleRoot = ProtoHash;

/// The address of an account or of a node.
#[derive(Debug, PartialEq, Eq)]
pub struct ProtoAddress {
    pub bytes: Bytes,
}

/// The filter over the logs that a block has left.
#[derive(Debug, PartialEq, Eq)]
pub struct Bloom {
    pub bytes: Bytes,
}

impl View for ProtoHash {
    type V = Seq<u8>;

    open spec fn view(&self) -> Seq<u8> {
        self.bytes@
    }
}

impl View for ProtoAddress {
    type V = Seq<u8>;

    open spec fn view(&self) -> Seq<u8> {
        self.bytes@
    }
}

impl View for Bloom {
    type V = Seq<u8>;

    open spec fn view(&self) -> Seq<u8> {
        self.bytes@
    }
}

impl Clone for ProtoHash {
    fn clone(&self) -> (copy: Self)
        ensures
            copy@ == self@,
    {
        ProtoHash { bytes: copy_bytes(&self.bytes) }
    }
}

impl Clone for ProtoAddress {
    fn clone(&self) -> (copy: Self)
        ensures
            copy@ == self@,
    {
        ProtoAddress { bytes: copy_bytes(&self.bytes) }
    }
}

impl Clone for Bloom {
    fn clone(&self) -> (copy: Self)
        ensures
            copy@ == self@,
    {
        Bloom { bytes: copy_bytes(&self.bytes) }
    }
}

impl ProtoHash {
    /// The bytes of the hash.
    pub fn as_bytes(&self) -> (bytes: Bytes)
        ensures
            bytes@ == self@,
    {
        copy_bytes(&self.bytes)
    }
}

impl ProtoAddress {
    /// The bytes of the address.
    pub fn as_bytes(&self) -> (bytes: Bytes)
        ensures
            bytes@ == self@,
    {
        copy_bytes(&self.bytes)
    }
}

} // verus!
