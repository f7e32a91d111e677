//! Nullifiers: the identifier by which a commitment is recognised when it
//! is used a second time.

use vstd::prelude::*;
use vstd::string::StringSliceAdditionalSpecFns;
use crate::domains::{
    lemma_domain_lengths, BLINDING_LABEL, COMMITMENT_LABEL, NULLIFIER_DOMAIN, NULLIFIER_LABEL,
};
use crate::transcript::{
    challenge_output, transcript_append, transcript_challenge, transcript_log, transcript_new,
    TranscriptEntry,
};

verus! {

/// Number of bytes in a nullifier.
pub const NULLIFIER_LEN: usize = 32;

/// The log of the transcript from which the nullifier of a commitment and
/// its blinding factor is drawn.
pub open spec fn nullifier_log(commitment: Seq<u8>, blinding: Seq<u8>) -> Seq<TranscriptEntry> {
    seq![
        (TranscriptEntry::Domain { label: NULLIFIER_DOMAIN.spec_bytes() }),
        (TranscriptEntry::Message { label: COMMITMENT_LABEL.spec_bytes(), message: commitment }),
        (TranscriptEntry::Message { label: BLINDING_LABEL.spec_bytes(), message: blinding }),
    ]
}

/// The nullifier of a commitment and its blinding factor.
pub open spec fn nullifier_of(commitment: Seq<u8>, blinding: Seq<u8>) -> Seq<u8> {
    challenge_output(nullifier_log(commitment, blinding), NULLIFIER_LABEL.spec_bytes(), NULLIFIER_LEN as nat)
}

/// Derives the nullifier of a commitment from the commitment and the
/// blinding factor that went into it.
///
/// The transcript frames each message with its length in 32 bits, which
/// bounds the two inputs.
pub fn generate_nullifier(commitment: &[u8], blinding: &[u8]) -> (nullifier: Vec<u8>)
    requires
        commitment@.len() <= u32::MAX,
        blinding@.len() <= u32::MAX,
    ensures
        nullifier@ == nullifier_of(commitment@, blinding@),
        nullifier@.len() == NULLIFIER_LEN,
{
    proof {
        lemma_domain_lengths();
    }
    let mut transcript = transcript_new(NULLIFIER_DOMAIN.as_bytes());
    transcript_append(&mut transcript, COMMITMENT_LABEL.as_bytes(), commitment);
    transcript_append(&mut transcript, BLINDING_LABEL.as_bytes(), blinding);
    assert(transcript_log(transcript) =~= nullifier_log(commitment@, blinding@));
    transcript_challenge(&mut transcript, NULLIFIER_LABEL.as_bytes(), NULLIFIER_LEN)
}

/// The same commitment and the same blinding factor give the same
/// nullifier, whenever and wherever it is derived.
pub proof fn lemma_nullifier_deterministic(
    commitment_a: Seq<u8>,
    blinding_a: Seq<u8>,
    commitment_b: Seq<u8>,
    blinding_b: Seq<u8>,
)
    requires
        commitment_a == commitment_b,
        blinding_a == blinding_b,
    ensures
        nullifier_of(commitment_a, blinding_a) == nullifier_of(commitment_b, blinding_b),
{
}

/// The transcript of a nullifier binds the commitment and the blinding
/// factor, each under its own label: two such transcripts have absorbed the
/// same only if both the commitments and the blinding factors agree.
pub proof fn lemma_nullifier_log_binds_inputs(
    commitment_a: Seq<u8>,
    blinding_a: Seq<u8>,
    commitment_b: Seq<u8>,
    blinding_b: Seq<u8>,
)
    requires
        nullifier_log(commitment_a, blinding_a) == nullifier_log(commitment_b, blinding_b),
    ensures
        commitment_a == commitment_b,
        blinding_a == blinding_b,
{
    let log_a = nullifier_log(commitment_a, blinding_a);
    let log_b = nullifier_log(commitment_b, blinding_b);
    assert(log_a[1] == log_b[1]);
    assert(log_a[2] == log_b[2]);
}

} // verus!
