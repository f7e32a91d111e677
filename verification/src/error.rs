//! The failures that proving and verifying a bet can end in.

use vstd::prelude::*;

verus! {

/// Why an operation on a bet was refused.
///
/// None of the range-proof primitive's own error types leave this crate:
/// each is folded into one of these kinds where the primitive is called.
#[derive(Clone, Copy, Debug, PartialEq, Eq, Structural)]
pub enum BetError {
    /// The amount is not an unsigned decimal number, or does not fit the
    /// bit width of the range proof.
    InvalidAmount,
    /// The range-proof primitive could not build a proof.
    ProofGenerationError,
    /// The commitment is not the 32-byte encoding of a curve point.
    MalformedCommitment,
    /// The proof bytes do not have the layout of a range proof.
    MalformedProof,
    /// Commitment and proof are well formed, but the proof does not hold
    /// for the commitment.
    ProofRejected,
}

impl BetError {
    /// The text shown to a user for each kind of failure.
    pub open spec fn description_text(self) -> Seq<char> {
        match self {
            BetError::InvalidAmount => "Invalid bet amount"@,
            BetError::ProofGenerationError => "Proof generation failed"@,
            BetError::MalformedCommitment => "Invalid commitment bytes"@,
            BetError::MalformedProof => "Invalid proof bytes"@,
            BetError::ProofRejected => "Proof verification failed"@,
        }
    }

    /// Whether the failure says that the input was not even well formed,
    /// as opposed to well formed and wrong.
    pub open spec fn is_malformed_input(self) -> bool {
        self == BetError::MalformedCommitment || self == BetError::MalformedProof
    }

    /// A short message for this failure.
    pub fn description(&self) -> (text: &'static str)
        ensures
            text@ == self.description_text(),
    {
        match self {
            BetError::InvalidAmount => "Invalid bet amount",
            BetError::ProofGenerationError => "Proof generation failed",
            BetError::MalformedCommitment => "Invalid commitment bytes",
            BetError::MalformedProof => "Invalid proof bytes",
            BetError::ProofRejected => "Proof verification failed",
        }
    }
}

} // verus!
