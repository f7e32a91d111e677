//! Proving and checking that a committed amount lies in a range.
//!
//! This is the part that both kinds of prover share: the checks made
//! before the proof system is called, the transcript it is handed, and
//! what each of its answers becomes.

use vstd::prelude::*;
use vstd::slice::slice_to_vec;
use vstd::string::StringSliceAdditionalSpecFns;
use bulletproofs::{BulletproofGens, PedersenGens, ProofError};
use merlin::Transcript;
use crate::amount::{amount_fits, fits_bit_width};
use crate::error::BetError;
use crate::primitives::{
    has_range_proof_size, is_point_encoding, is_range_proof_encoding, is_supported_bit_width,
    pedersen_bases, pedersen_commitment, point_decompresses, range_proof_accepted,
    range_proof_from_bytes, range_proof_len, range_proof_made, range_prove, range_verify,
    MIN_RANGE_PROOF_LEN, POINT_LEN,
};
use crate::transcript::{transcript_log, transcript_new, TranscriptEntry};

verus! {

/// A commitment together with the proof that what it commits to lies in
/// the range.
#[derive(Debug, PartialEq, Eq)]
pub struct RangeStatement {
    /// The compressed commitment.
    pub commitment: Vec<u8>,
    /// The serialized range proof.
    pub proof: Vec<u8>,
}

/// What a statement says, as two byte strings.
pub struct StatementView {
    /// The compressed commitment.
    pub commitment: Seq<u8>,
    /// The serialized range proof.
    pub proof: Seq<u8>,
}

impl View for RangeStatement {
    type V = StatementView;

    open spec fn view(&self) -> StatementView {
        StatementView { commitment: self.commitment@, proof: self.proof@ }
    }
}

impl Clone for RangeStatement {
    /// A copy that says the same.
    fn clone(&self) -> (copy: Self)
        ensures
            copy@ == self@,
    {
        RangeStatement {
            commitment: slice_to_vec(self.commitment.as_slice()),
            proof: slice_to_vec(self.proof.as_slice()),
        }
    }
}

impl StatementView {
    /// The statement commits to `amount` under `blinding` over `bases`, and
    /// both of its parts have the form that the proof system gives them for
    /// this bit width.
    pub open spec fn commits_to(self, bases: Seq<Seq<u8>>, amount: u64, blinding: Seq<u8>, bit_width: usize) -> bool {
        &&& self.commitment == pedersen_commitment(bases, amount, blinding)
        &&& self.commitment.len() == POINT_LEN
        &&& is_point_encoding(self.commitment)
        &&& self.proof.len() == range_proof_len(bit_width)
        &&& is_range_proof_encoding(self.proof)
    }

    /// The statement was proved for `amount` under `blinding`: it commits
    /// to the amount, and its proof is one that the proof system makes for
    /// the amount when it is handed a transcript with this log.
    pub open spec fn is_proved(
        self,
        log: Seq<TranscriptEntry>,
        bases: Seq<Seq<u8>>,
        amount: u64,
        blinding: Seq<u8>,
        bit_width: usize,
    ) -> bool {
        &&& self.commits_to(bases, amount, blinding, bit_width)
        &&& range_proof_made(log, bases, amount, blinding, bit_width, self.proof)
    }
}

/// What proving `amount` on a transcript with the given log may end in.
///
/// An amount that does not fit the bit width is refused before the proof
/// system is asked; a bit width that the proof system does not support
/// makes it fail; otherwise the proof system decides, and a statement that
/// comes back was proved for the amount on that transcript.
pub open spec fn is_proving_result(
    log: Seq<TranscriptEntry>,
    bases: Seq<Seq<u8>>,
    amount: u64,
    blinding: Seq<u8>,
    bit_width: usize,
    result: Result<RangeStatement, BetError>,
) -> bool {
    if !amount_fits(amount, bit_width) {
        result == Err::<RangeStatement, BetError>(BetError::InvalidAmount)
    } else if !is_supported_bit_width(bit_width) {
        result == Err::<RangeStatement, BetError>(BetError::ProofGenerationError)
    } else {
        match result {
            Ok(statement) => statement@.is_proved(log, bases, amount, blinding, bit_width),
            Err(e) => e == BetError::ProofGenerationError,
        }
    }
}

/// What checking a proof against a commitment on a transcript with the
/// given log may end in.
///
/// The commitment is looked at first, the proof second; a proof of the
/// wrong size is malformed whatever it holds. Only when both are well
/// formed is the proof system asked, and then it decides between acceptance
/// and rejection: `true` is its acceptance of this commitment and this
/// proof on that transcript. A bit width that it does not support is always
/// rejected.
pub open spec fn is_checking_result(
    log: Seq<TranscriptEntry>,
    bases: Seq<Seq<u8>>,
    statement: StatementView,
    bit_width: usize,
    result: Result<bool, BetError>,
) -> bool {
    if statement.commitment.len() != POINT_LEN || !is_point_encoding(statement.commitment) {
        result == Err::<bool, BetError>(BetError::MalformedCommitment)
    } else if !has_range_proof_size(statement.proof) || !is_range_proof_encoding(statement.proof) {
        result == Err::<bool, BetError>(BetError::MalformedProof)
    } else if !is_supported_bit_width(bit_width) {
        result == Err::<bool, BetError>(BetError::ProofRejected)
    } else {
        ||| result == Err::<bool, BetError>(BetError::ProofRejected)
        ||| result == Ok::<bool, BetError>(true) && range_proof_accepted(
            log,
            bases,
            statement.commitment,
            statement.proof,
            bit_width,
        )
    }
}

/// The log of a transcript that was opened under `domain` and has absorbed
/// nothing since.
pub open spec fn opening_log(domain: &str) -> Seq<TranscriptEntry> {
    seq![(TranscriptEntry::Domain { label: domain.spec_bytes() })]
}

/// Opens the transcript of a range proof under its domain label. Prover
/// and verifier must open theirs under the same label. The transcript
/// frames the label with its length in 32 bits, which bounds the label.
pub(crate) fn open_transcript(domain: &'static str) -> (transcript: Transcript)
    requires
        domain.spec_bytes().len() <= u32::MAX,
    ensures
        transcript_log(transcript) == opening_log(domain),
{
    transcript_new(domain.as_bytes())
}

/// Copies a byte string into the fixed size of a point or scalar.
pub fn to_point_bytes(bytes: &[u8]) -> (array: Option<[u8; 32]>)
    ensures
        match array {
            Some(a) => bytes@.len() == POINT_LEN && a@ == bytes@,
            None => bytes@.len() != POINT_LEN,
        },
{
    if bytes.len() != POINT_LEN {
        return None;
    }
    let mut array = [0u8; 32];
    let mut i: usize = 0;
    while i < POINT_LEN
        invariant
            i <= POINT_LEN,
            bytes@.len() == POINT_LEN,
            forall|j: int| 0 <= j < i ==> array@[j] == bytes@[j],
        decreases POINT_LEN - i,
    {
        array[i] = bytes[i];
        i = i + 1;
    }
    assert(array@ =~= bytes@);
    Some(array)
}

/// What the answer of the proof system to a request for a proof becomes:
/// its statement is passed on, any failure of its own becomes this crate's
/// failure to generate a proof.
pub fn proving_result(outcome: Result<(Vec<u8>, Vec<u8>), ProofError>) -> (result: Result<RangeStatement, BetError>)
    ensures
        match outcome {
            Ok((proof, commitment)) => result matches Ok(statement) && statement@ == (StatementView {
                commitment: commitment@,
                proof: proof@,
            }),
            Err(_) => result == Err::<RangeStatement, BetError>(BetError::ProofGenerationError),
        },
{
    match outcome {
        Ok((proof, commitment)) => Ok(RangeStatement { commitment, proof }),
        Err(_) => Err(BetError::ProofGenerationError),
    }
}

/// What the answer of the proof system to a request for verification
/// becomes: acceptance is `true`, any refusal is a rejected proof.
pub fn verdict(outcome: Result<(), ProofError>) -> (result: Result<bool, BetError>)
    ensures
        outcome is Ok ==> result == Ok::<bool, BetError>(true),
        outcome is Err ==> result == Err::<bool, BetError>(BetError::ProofRejected),
{
    match outcome {
        Ok(_) => Ok(true),
        Err(_) => Err(BetError::ProofRejected),
    }
}

/// Commits to `amount` under `blinding` and proves that it fits
/// `bit_width` bits, on a transcript opened under `domain`.
pub(crate) fn prove_in_range(
    bp_gens: &BulletproofGens,
    pc_gens: &PedersenGens,
    domain: &'static str,
    amount: u64,
    blinding: &[u8; 32],
    bit_width: usize,
) -> (result: Result<RangeStatement, BetError>)
    requires
        domain.spec_bytes().len() <= u32::MAX,
    ensures
        is_proving_result(opening_log(domain), pedersen_bases(*pc_gens), amount, blinding@, bit_width, result),
{
    if !fits_bit_width(amount, bit_width) {
        return Err(BetError::InvalidAmount);
    }
    let mut transcript = open_transcript(domain);
    let outcome = range_prove(bp_gens, pc_gens, &mut transcript, amount, blinding, bit_width);
    proving_result(outcome)
}

/// Checks `proof` against `commitment` for `bit_width` bits, on a
/// transcript opened under `domain`.
pub(crate) fn check_in_range(
    bp_gens: &BulletproofGens,
    pc_gens: &PedersenGens,
    domain: &'static str,
    commitment: &[u8],
    proof: &[u8],
    bit_width: usize,
) -> (result: Result<bool, BetError>)
    requires
        domain.spec_bytes().len() <= u32::MAX,
    ensures
        is_checking_result(
            opening_log(domain),
            pedersen_bases(*pc_gens),
            (StatementView { commitment: commitment@, proof: proof@ }),
            bit_width,
            result,
        ),
{
    let point = match to_point_bytes(commitment) {
        Some(point) => point,
        None => {
            return Err(BetError::MalformedCommitment);
        },
    };
    if !point_decompresses(&point) {
        return Err(BetError::MalformedCommitment);
    }
    let parsed = match range_proof_from_bytes(proof) {
        Ok(parsed) => parsed,
        Err(_) => {
            return Err(BetError::MalformedProof);
        },
    };
    let mut transcript = open_transcript(domain);
    let outcome = range_verify(&parsed, bp_gens, pc_gens, &mut transcript, &point, bit_width);
    verdict(outcome)
}

/// A transcript is bound to the label it was opened under: two opening
/// logs are the same only if the labels are the same bytes.
pub proof fn lemma_opening_log_binds_domain(first: &str, second: &str)
    requires
        opening_log(first) == opening_log(second),
    ensures
        first.spec_bytes() == second.spec_bytes(),
{
    let opened_first = opening_log(first)[0];
    let opened_second = opening_log(second)[0];
    assert(opened_first->Domain_label == first.spec_bytes());
    assert(opened_second->Domain_label == second.spec_bytes());
}

/// Checking never answers `false`, and never with a failure that belongs
/// to proving: a proof is accepted, or the check fails with its reason.
pub proof fn lemma_checking_never_answers_false(
    log: Seq<TranscriptEntry>,
    bases: Seq<Seq<u8>>,
    statement: StatementView,
    bit_width: usize,
    result: Result<bool, BetError>,
)
    requires
        is_checking_result(log, bases, statement, bit_width, result),
    ensures
        result != Ok::<bool, BetError>(false),
        result matches Err(e) ==> e != BetError::InvalidAmount && e != BetError::ProofGenerationError,
{
}

/// A proof that is not whole elements of 32 bytes, or has fewer than the
/// fewest that parse, is malformed: it is never handed to the proof system.
pub proof fn lemma_proof_of_wrong_size_is_malformed(
    log: Seq<TranscriptEntry>,
    bases: Seq<Seq<u8>>,
    statement: StatementView,
    bit_width: usize,
    result: Result<bool, BetError>,
)
    requires
        is_checking_result(log, bases, statement, bit_width, result),
        statement.commitment.len() == POINT_LEN,
        is_point_encoding(statement.commitment),
        statement.proof.len() % 32 != 0 || statement.proof.len() < MIN_RANGE_PROOF_LEN,
    ensures
        result == Err::<bool, BetError>(BetError::MalformedProof),
{
}

} // verus!
