//! The labels under which this crate opens and feeds its transcripts.
//!
//! Each protocol opens its transcript under a label of its own. A proof
//! made under one label is bound to that label through every challenge, so
//! it cannot be replayed where another label is expected.

use vstd::prelude::*;
use vstd::string::{is_ascii_spec_bytes, StringSliceAdditionalSpecFns};

verus! {

/// Domain label of the transcript of a bet's range proof.
pub const BET_PROOF_DOMAIN: &'static str = "bet-range-proof";

/// Domain label of the transcript from which a nullifier is drawn.
pub const NULLIFIER_DOMAIN: &'static str = "bet-nullifier";

/// Domain label of the transcript of a stand-alone range proof.
pub const RANGE_PROOF_DOMAIN: &'static str = "range_proof";

/// Label under which a commitment is appended to the nullifier transcript.
pub const COMMITMENT_LABEL: &'static str = "commitment";

/// Label under which a blinding factor is appended to the nullifier
/// transcript.
pub const BLINDING_LABEL: &'static str = "blinding";

/// Label under which the nullifier is drawn from its transcript.
pub const NULLIFIER_LABEL: &'static str = "nullifier";

/// Each domain label is as many bytes as it has letters.
pub proof fn lemma_domain_lengths()
    ensures
        BET_PROOF_DOMAIN.spec_bytes().len() == 15,
        NULLIFIER_DOMAIN.spec_bytes().len() == 13,
        RANGE_PROOF_DOMAIN.spec_bytes().len() == 11,
{
    reveal_strlit("bet-range-proof");
    reveal_strlit("bet-nullifier");
    reveal_strlit("range_proof");
    is_ascii_spec_bytes(BET_PROOF_DOMAIN);
    is_ascii_spec_bytes(NULLIFIER_DOMAIN);
    is_ascii_spec_bytes(RANGE_PROOF_DOMAIN);
}

/// No two of the three domain labels are the same bytes.
pub proof fn lemma_domains_are_distinct()
    ensures
        BET_PROOF_DOMAIN.spec_bytes() != NULLIFIER_DOMAIN.spec_bytes(),
        BET_PROOF_DOMAIN.spec_bytes() != RANGE_PROOF_DOMAIN.spec_bytes(),
        NULLIFIER_DOMAIN.spec_bytes() != RANGE_PROOF_DOMAIN.spec_bytes(),
{
    lemma_domain_lengths();
}

} // verus!
