//! The range-proof system and the curve it works on.
//!
//! Everything in this file is a declaration about `bulletproofs`,
//! `curve25519-dalek` or `rand`: none of it is proved here. The rest of the
//! crate reasons from these declarations alone.

use vstd::prelude::*;
use vstd::arithmetic::power2::{lemma2_to64, lemma2_to64_rest, lemma_pow2_adds, pow2};
use bulletproofs::{BulletproofGens, PedersenGens, ProofError, RangeProof};
use curve25519_dalek::ristretto::CompressedRistretto;
use curve25519_dalek::scalar::Scalar;
use merlin::Transcript;
use rand::rngs::OsRng;
use crate::transcript::{transcript_log, TranscriptEntry};

verus! {

/// `bulletproofs::BulletproofGens`: the generators of the range proofs.
#[verifier::external_type_specification]
#[verifier::external_body]
pub struct ExBulletproofGens(bulletproofs::BulletproofGens);

/// `bulletproofs::PedersenGens`: the pair of base points of the
/// commitments.
#[verifier::external_type_specification]
#[verifier::external_body]
pub struct ExPedersenGens(bulletproofs::PedersenGens);

/// `bulletproofs::RangeProof`: a range proof in parsed form.
#[verifier::external_type_specification]
#[verifier::external_body]
pub struct ExRangeProof(bulletproofs::RangeProof);

/// `bulletproofs::ProofError`: why the range-proof system refused.
#[verifier::external_type_specification]
#[verifier::external_body]
pub struct ExProofError(bulletproofs::ProofError);

/// Number of bytes in a compressed curve point and in a scalar.
pub const POINT_LEN: usize = 32;

/// The most generators that this crate asks the proof system to prepare.
pub const MAX_GENERATORS: usize = 64;

/// The fewest bytes that parse as a range proof: seven elements of 32
/// bytes, then the two closing scalars of the inner-product argument.
pub const MIN_RANGE_PROOF_LEN: usize = 288;

/// How many generators a set of range-proof generators holds for each
/// party: the `gens_capacity` that it was made with.
pub uninterp spec fn generators_per_party(gens: BulletproofGens) -> nat;

/// For how many parties a set of range-proof generators holds generators:
/// the `party_capacity` that it was made with.
pub uninterp spec fn generator_parties(gens: BulletproofGens) -> nat;

/// The base points that a set of Pedersen generators holds, each as the
/// 32 bytes of its compressed encoding: the base of the value first, the
/// base of the blinding factor second.
pub uninterp spec fn pedersen_bases(gens: PedersenGens) -> Seq<Seq<u8>>;

/// The compressed encoding of the Pedersen commitment to `value` over the
/// given base points, blinded by the scalar that the 32 bytes of
/// `blinding` stand for when read as a little-endian integer and reduced
/// modulo the order of the group.
pub uninterp spec fn pedersen_commitment(bases: Seq<Seq<u8>>, value: u64, blinding: Seq<u8>) -> Seq<u8>;

/// Whether 32 bytes are the canonical encoding of a point of the
/// Ristretto group.
pub uninterp spec fn is_point_encoding(bytes: Seq<u8>) -> bool;

/// Whether `RangeProof::from_bytes` parses the bytes as a range proof.
pub uninterp spec fn is_range_proof_encoding(bytes: Seq<u8>) -> bool;

/// The bytes that a parsed range proof serializes to.
pub uninterp spec fn range_proof_bytes(proof: RangeProof) -> Seq<u8>;

/// Whether `RangeProof::prove_single` can return the serialized `proof`
/// when it is handed a transcript with this log, these base points, this
/// value, this blinding factor and this bit width: whether it does so for
/// some value of the random numbers that it draws.
pub uninterp spec fn range_proof_made(
    log: Seq<TranscriptEntry>,
    bases: Seq<Seq<u8>>,
    value: u64,
    blinding: Seq<u8>,
    bit_width: usize,
    proof: Seq<u8>,
) -> bool;

/// Whether `RangeProof::verify_single` can accept the serialized `proof`
/// for `commitment` when it is handed a transcript with this log, these
/// base points and this bit width: whether it does so for some value of the
/// random number that it draws.
pub uninterp spec fn range_proof_accepted(
    log: Seq<TranscriptEntry>,
    bases: Seq<Seq<u8>>,
    commitment: Seq<u8>,
    proof: Seq<u8>,
    bit_width: usize,
) -> bool;

/// The number that bytes write as a little-endian integer.
pub open spec fn little_endian_value(bytes: Seq<u8>) -> nat
    decreases bytes.len(),
{
    if bytes.len() == 0 {
        0
    } else {
        bytes[0] as nat + 256 * little_endian_value(bytes.skip(1))
    }
}

/// The order of the Ristretto group: two to the power of 252, plus
/// 27742317777372353535851937790883648493.
pub open spec fn group_order() -> nat {
    0x1000000000000000000000000000000014def9dea2f79cd65812631a5cf5d3ednat
}

/// The order of the group is what its definition says.
pub proof fn lemma_group_order()
    ensures
        group_order() == pow2(252) + 27742317777372353535851937790883648493nat,
{
    lemma2_to64();
    lemma2_to64_rest();
    lemma_pow2_adds(64, 64);
    lemma_pow2_adds(128, 64);
    lemma_pow2_adds(192, 60);
    assert(pow2(64) * pow2(64) * pow2(64) * pow2(60)
        == 0x1000000000000000000000000000000000000000000000000000000000000000nat) by (nonlinear_arith)
        requires
            pow2(64) == 0x10000000000000000,
            pow2(60) == 0x1000000000000000,
    ;
}

/// Whether 32 bytes are the canonical encoding of a scalar: whether the
/// number they write is below the order of the group.
pub open spec fn is_canonical_scalar(bytes: Seq<u8>) -> bool {
    bytes.len() == POINT_LEN && little_endian_value(bytes) < group_order()
}

/// Whether bytes have the size of a serialized range proof: whole elements
/// of 32 bytes, and no fewer than the fewest that parse.
pub open spec fn has_range_proof_size(bytes: Seq<u8>) -> bool {
    bytes.len() % 32 == 0 && bytes.len() >= MIN_RANGE_PROOF_LEN
}

/// The bit widths for which the proof system makes and checks proofs.
pub open spec fn is_supported_bit_width(bit_width: usize) -> bool {
    bit_width == 8 || bit_width == 16 || bit_width == 32 || bit_width == 64
}

/// The binary logarithm of a supported bit width.
pub open spec fn lg_bit_width(bit_width: usize) -> nat {
    if bit_width == 8 {
        3
    } else if bit_width == 16 {
        4
    } else if bit_width == 32 {
        5
    } else {
        6
    }
}

/// Number of bytes in the serialized proof of one value of a supported bit
/// width `n`: 32 bytes for each of `2 lg n + 9` points and scalars.
pub open spec fn range_proof_len(bit_width: usize) -> nat {
    32 * (2 * lg_bit_width(bit_width) + 9)
}

/// Calls `bulletproofs::BulletproofGens::new`.
///
/// Assumed: the generators have the two capacities asked for. Both are
/// bounded because the outside function computes every generator before it
/// returns.
#[verifier::external_body]
pub(crate) fn bulletproof_gens_new(gens_capacity: usize, party_capacity: usize) -> (gens: BulletproofGens)
    requires
        gens_capacity <= MAX_GENERATORS,
        party_capacity <= MAX_GENERATORS,
    ensures
        generators_per_party(gens) == gens_capacity,
        generator_parties(gens) == party_capacity,
{
    BulletproofGens::new(gens_capacity, party_capacity)
}

/// Calls `bulletproofs::PedersenGens::default`. Nothing is assumed of the
/// base points.
#[verifier::external_body]
pub(crate) fn pedersen_gens_default() -> (gens: PedersenGens) {
    PedersenGens::default()
}

/// Calls `curve25519_dalek::scalar::Scalar::random` on the operating
/// system's random source, `rand::rngs::OsRng`, and hands out the scalar's
/// 32 bytes as `Scalar::to_bytes` gives them.
///
/// Assumed: the bytes are the canonical encoding of a scalar, because the
/// outside function reduces what it draws modulo the order of the group.
/// Nothing else is assumed of them: two calls may differ. Where the
/// operating system cannot give random bytes the outside function stops
/// the program.
#[verifier::external_body]
pub(crate) fn random_blinding() -> (blinding: [u8; 32])
    ensures
        is_canonical_scalar(blinding@),
{
    Scalar::random(&mut OsRng).to_bytes()
}

/// Calls `bulletproofs::RangeProof::prove_single` and serializes what it
/// returns: the proof first, the commitment second. The blinding factor
/// goes in through `Scalar::from_bytes_mod_order`; proof and commitment
/// come out through `RangeProof::to_bytes` and
/// `CompressedRistretto::to_bytes`.
///
/// Assumed, as the outside source shows it:
/// - a bit width other than 8, 16, 32 or 64 is refused;
/// - the commitment is the Pedersen commitment to `value` over `pc_gens`,
///   blinded by `blinding` reduced modulo the group order, and as the
///   compression of a point it is 32 bytes that decompress again;
/// - the proof is serialized to `2 lg n + 9` elements of 32 bytes, which
///   parse as a range proof again;
/// - the proof is one that the outside function can return on what it was
///   handed, the log of the transcript included.
///
/// The proof itself depends on random numbers that the outside function
/// draws from `rand::thread_rng`, so it is not said which proof comes
/// back; nor is success promised. Where the operating system cannot seed
/// that generator, it stops the program.
#[verifier::external_body]
pub(crate) fn range_prove(
    bp_gens: &BulletproofGens,
    pc_gens: &PedersenGens,
    transcript: &mut Transcript,
    value: u64,
    blinding: &[u8; 32],
    bit_width: usize,
) -> (outcome: Result<(Vec<u8>, Vec<u8>), ProofError>)
    ensures
        !is_supported_bit_width(bit_width) ==> outcome is Err,
        outcome matches Ok((proof, commitment)) ==> {
            &&& commitment@ == pedersen_commitment(pedersen_bases(*pc_gens), value, blinding@)
            &&& commitment@.len() == POINT_LEN
            &&& is_point_encoding(commitment@)
            &&& proof@.len() == range_proof_len(bit_width)
            &&& is_range_proof_encoding(proof@)
            &&& range_proof_made(
                transcript_log(*old(transcript)),
                pedersen_bases(*pc_gens),
                value,
                blinding@,
                bit_width,
                proof@,
            )
        },
{
    let scalar = Scalar::from_bytes_mod_order(*blinding);
    match RangeProof::prove_single(bp_gens, pc_gens, transcript, value, &scalar, bit_width) {
        Ok((proof, commitment)) => Ok((proof.to_bytes(), commitment.to_bytes().to_vec())),
        Err(error) => Err(error),
    }
}

/// Calls `curve25519_dalek::ristretto::CompressedRistretto::decompress`
/// and says whether it found a point.
///
/// Assumed: the answer depends on the 32 bytes alone.
#[verifier::external_body]
pub(crate) fn point_decompresses(bytes: &[u8; 32]) -> (valid: bool)
    ensures
        valid == is_point_encoding(bytes@),
{
    CompressedRistretto(*bytes).decompress().is_some()
}

/// Calls `bulletproofs::RangeProof::from_bytes`.
///
/// Assumed: whether the bytes parse depends on the bytes alone; bytes that
/// parse are whole elements of 32 bytes, at least nine of them; and the
/// proof that comes back serializes to the very bytes it was parsed from.
#[verifier::external_body]
pub(crate) fn range_proof_from_bytes(bytes: &[u8]) -> (parsed: Result<RangeProof, ProofError>)
    ensures
        parsed is Ok <==> is_range_proof_encoding(bytes@),
        parsed is Ok ==> has_range_proof_size(bytes@),
        parsed matches Ok(proof) ==> range_proof_bytes(proof) == bytes@,
{
    RangeProof::from_bytes(bytes)
}

/// Calls `bulletproofs::RangeProof::verify_single`.
///
/// Assumed: a bit width other than 8, 16, 32 or 64 is refused; and where
/// the outside function accepts, acceptance is a possible answer to what it
/// was handed: the log of the transcript, the base points, the commitment,
/// the bytes of the proof and the bit width. The outside function draws a
/// random number from `rand::thread_rng` to fold its checks into one, so it
/// is not said when it accepts.
///
/// Two ways in which the outside function stops the program cannot be left
/// out by a `requires`: where the operating system cannot seed the random
/// generator; and, built with debug assertions, where one of the challenges
/// that it draws from the transcript is zero, which to bring about is to
/// invert the hash of the transcript.
#[verifier::external_body]
pub(crate) fn range_verify(
    proof: &RangeProof,
    bp_gens: &BulletproofGens,
    pc_gens: &PedersenGens,
    transcript: &mut Transcript,
    commitment: &[u8; 32],
    bit_width: usize,
) -> (outcome: Result<(), ProofError>)
    ensures
        !is_supported_bit_width(bit_width) ==> outcome is Err,
        outcome is Ok ==> range_proof_accepted(
            transcript_log(*old(transcript)),
            pedersen_bases(*pc_gens),
            commitment@,
            range_proof_bytes(*proof),
            bit_width,
        ),
{
    proof.verify_single(bp_gens, pc_gens, transcript, &CompressedRistretto(*commitment), bit_width)
}

} // verus!
