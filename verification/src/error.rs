//! The errors of the adapter.

use vstd::prelude::*;

verus! {

/// Why the adapter refuses a block.
#[derive(Clone, Debug, PartialEq, Eq)]
pub enum ConsensusError {
    /// The block does not say what this node expects it to say.
    CheckBlock(String),
}

/// The text of a [`ConsensusError`].
pub open spec fn error_text(reason: Seq<char>) -> Seq<char> {
    "check block failed, "@ + reason
}

impl ConsensusError {
    /// The reason that the error gives.
    pub open spec fn reason(self) -> Seq<char> {
        match self {
            ConsensusError::CheckBlock(reason) => reason@,
        }
    }

    /// The error as text.
    pub fn display(&self) -> (text: String)
        ensures
            text@ == error_text(self.reason()),
    {
        match self {
            ConsensusError::CheckBlock(reason) => {
                let mut text = "check block failed, ".to_owned();
                text.append(reason.as_str());
                text
            },
        }
    }
}

/// An error of an operation of the adapter: one of the chain's encodings and services, or the
/// adapter's own.
#[derive(Clone, Debug, PartialEq, Eq)]
pub enum AdapterError<E> {
    Protocol(E),
    Consensus(ConsensusError),
}

} // verus!
