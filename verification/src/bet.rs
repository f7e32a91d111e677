//! The bet commitment protocol: from an amount to a commitment, a range
//! proof and a nullifier, and from a commitment and a proof to a verdict.

use vstd::prelude::*;
use vstd::arithmetic::power2::pow2;
use vstd::slice::slice_to_vec;
use bulletproofs::{BulletproofGens, PedersenGens};
use crate::amount::{amount_fits, MAX_BIT_WIDTH, RANGE_BIT_SIZE};
use crate::domains::{
    lemma_domain_lengths, lemma_domains_are_distinct, BET_PROOF_DOMAIN, NULLIFIER_DOMAIN,
    RANGE_PROOF_DOMAIN,
};
use crate::error::BetError;
use crate::nullifier::{generate_nullifier, nullifier_log, nullifier_of, NULLIFIER_LEN};
use crate::primitives::{
    bulletproof_gens_new, generator_parties, generators_per_party, is_canonical_scalar,
    is_supported_bit_width, pedersen_bases, pedersen_gens_default, random_blinding, POINT_LEN,
};
use crate::range::{
    check_in_range, is_checking_result, lemma_opening_log_binds_domain, opening_log, prove_in_range,
    RangeStatement, StatementView,
};

verus! {

/// What the prover of a bet holds once the bet is proved.
///
/// Commitment and proof go to the verifier. The blinding factor stays with
/// the prover: whoever knows it can open the commitment.
#[derive(Debug, PartialEq, Eq)]
pub struct BetProofData {
    /// The hiding commitment to the amount: a compressed curve point.
    pub commitment: Vec<u8>,
    /// The range proof, in the proof system's own serialization.
    pub proof: Vec<u8>,
    /// The identifier by which a second use of the commitment is noticed.
    pub nullifier: Vec<u8>,
    /// The scalar that blinds the commitment.
    pub blinding_factor: Vec<u8>,
}

/// What the verifier of a bet is shown: the commitment and the proof, and
/// nothing that would open the commitment.
#[derive(Debug, PartialEq, Eq)]
pub struct BetVerificationData {
    /// The hiding commitment to the amount.
    pub commitment: Vec<u8>,
    /// The range proof.
    pub proof: Vec<u8>,
}

/// What a bet holds, as four byte strings.
pub struct BetProofView {
    /// The compressed commitment.
    pub commitment: Seq<u8>,
    /// The serialized range proof.
    pub proof: Seq<u8>,
    /// The nullifier.
    pub nullifier: Seq<u8>,
    /// The blinding factor.
    pub blinding_factor: Seq<u8>,
}

impl View for BetProofData {
    type V = BetProofView;

    open spec fn view(&self) -> BetProofView {
        BetProofView {
            commitment: self.commitment@,
            proof: self.proof@,
            nullifier: self.nullifier@,
            blinding_factor: self.blinding_factor@,
        }
    }
}

impl View for BetVerificationData {
    type V = StatementView;

    open spec fn view(&self) -> StatementView {
        StatementView { commitment: self.commitment@, proof: self.proof@ }
    }
}

impl BetProofView {
    /// The part of a bet that the verifier is shown.
    pub open spec fn shown(self) -> StatementView {
        StatementView { commitment: self.commitment, proof: self.proof }
    }

    /// The bet is a bet on `amount`: its commitment commits to the amount
    /// under its own blinding factor over `bases`, its proof is one that the
    /// proof system makes for the amount and `bit_width` bits on a
    /// transcript opened under the label of bets, and its nullifier is the
    /// one derived from its commitment and its blinding factor.
    pub open spec fn is_bet_on(self, bases: Seq<Seq<u8>>, amount: u64, bit_width: usize) -> bool {
        &&& self.blinding_factor.len() == POINT_LEN
        &&& self.shown().is_proved(
            opening_log(BET_PROOF_DOMAIN),
            bases,
            amount,
            self.blinding_factor,
            bit_width,
        )
        &&& self.nullifier == nullifier_of(self.commitment, self.blinding_factor)
        &&& self.nullifier.len() == NULLIFIER_LEN
    }
}

impl Clone for BetProofData {
    /// A copy that holds the same.
    fn clone(&self) -> (copy: Self)
        ensures
            copy@ == self@,
    {
        BetProofData {
            commitment: slice_to_vec(self.commitment.as_slice()),
            proof: slice_to_vec(self.proof.as_slice()),
            nullifier: slice_to_vec(self.nullifier.as_slice()),
            blinding_factor: slice_to_vec(self.blinding_factor.as_slice()),
        }
    }
}

impl Clone for BetVerificationData {
    /// A copy that shows the same.
    fn clone(&self) -> (copy: Self)
        ensures
            copy@ == self@,
    {
        BetVerificationData {
            commitment: slice_to_vec(self.commitment.as_slice()),
            proof: slice_to_vec(self.proof.as_slice()),
        }
    }
}

impl BetProofData {
    /// Puts a bundle together from a proved statement and the blinding
    /// factor of its commitment: the nullifier is derived from the two.
    ///
    /// The transcript of the nullifier frames the commitment with its
    /// length in 32 bits, which bounds the commitment.
    pub fn assemble(statement: RangeStatement, blinding: &[u8; 32]) -> (bundle: BetProofData)
        requires
            statement@.commitment.len() <= u32::MAX,
        ensures
            bundle@ == (BetProofView {
                commitment: statement@.commitment,
                proof: statement@.proof,
                nullifier: nullifier_of(statement@.commitment, blinding@),
                blinding_factor: blinding@,
            }),
            bundle@.nullifier.len() == NULLIFIER_LEN,
    {
        let nullifier = generate_nullifier(statement.commitment.as_slice(), blinding.as_slice());
        BetProofData {
            commitment: statement.commitment,
            proof: statement.proof,
            nullifier,
            blinding_factor: slice_to_vec(blinding.as_slice()),
        }
    }

    /// The part of the bundle that the verifier is shown.
    pub fn verification_data(&self) -> (data: BetVerificationData)
        ensures
            data@ == self@.shown(),
    {
        BetVerificationData {
            commitment: slice_to_vec(self.commitment.as_slice()),
            proof: slice_to_vec(self.proof.as_slice()),
        }
    }
}

/// What verifying a bet may end in: what checking its proof against its
/// commitment may end in, on a transcript opened under the label of bets.
pub open spec fn is_bet_verification_result(
    bases: Seq<Seq<u8>>,
    statement: StatementView,
    bit_width: usize,
    result: Result<bool, BetError>,
) -> bool {
    is_checking_result(opening_log(BET_PROOF_DOMAIN), bases, statement, bit_width, result)
}

/// What asking for a bet on `amount` may end in.
///
/// An amount that does not fit the bit width is refused as invalid; a bit
/// width that the proof system does not support makes proving fail;
/// otherwise the proof system decides, and a bundle that comes back is a
/// bet on the amount.
pub open spec fn is_bet_proof_result(
    bases: Seq<Seq<u8>>,
    amount: u64,
    bit_width: usize,
    result: Result<BetProofData, BetError>,
) -> bool {
    if !amount_fits(amount, bit_width) {
        result == Err::<BetProofData, BetError>(BetError::InvalidAmount)
    } else if !is_supported_bit_width(bit_width) {
        result == Err::<BetProofData, BetError>(BetError::ProofGenerationError)
    } else {
        match result {
            Ok(bundle) => bundle@.is_bet_on(bases, amount, bit_width),
            Err(e) => e == BetError::ProofGenerationError,
        }
    }
}

/// The parameters of the protocol: the bit width of the range, the
/// generators of the range proofs and the base points of the commitments.
///
/// Setting them up is the expensive part. Once made they never change, and
/// one generator serves any number of proofs and verifications.
pub struct BulletproofGenerator {
    bit_width: usize,
    bp_gens: BulletproofGens,
    pc_gens: PedersenGens,
}

impl BulletproofGenerator {
    /// The generators are made for one value of exactly `bit_width` bits.
    #[verifier::type_invariant]
    spec fn sized_for_its_width(&self) -> bool {
        &&& self.bit_width <= MAX_BIT_WIDTH
        &&& generators_per_party(self.bp_gens) == self.bit_width
        &&& generator_parties(self.bp_gens) == 1
    }

    /// The bit width of the range: amounts lie below two to this power.
    pub closed spec fn width(&self) -> usize {
        self.bit_width
    }

    /// How many generators are held for each value that is proved.
    pub closed spec fn generators(&self) -> nat {
        generators_per_party(self.bp_gens)
    }

    /// How many values one proof can speak of.
    pub closed spec fn values_per_proof(&self) -> nat {
        generator_parties(self.bp_gens)
    }

    /// The base points of the commitments, in compressed form.
    pub closed spec fn commitment_bases(&self) -> Seq<Seq<u8>> {
        pedersen_bases(self.pc_gens)
    }

    /// Sets up the parameters for bets of the usual bit width.
    pub fn new() -> (generator: Self)
        ensures
            generator.width() == RANGE_BIT_SIZE,
            generator.generators() == RANGE_BIT_SIZE,
            generator.values_per_proof() == 1,
    {
        Self::with_bit_width(RANGE_BIT_SIZE)
    }

    /// Sets up the parameters for amounts of `bit_width` bits.
    pub fn with_bit_width(bit_width: usize) -> (generator: Self)
        requires
            bit_width <= MAX_BIT_WIDTH,
        ensures
            generator.width() == bit_width,
            generator.generators() == bit_width,
            generator.values_per_proof() == 1,
    {
        BulletproofGenerator {
            bit_width,
            bp_gens: bulletproof_gens_new(bit_width, 1),
            pc_gens: pedersen_gens_default(),
        }
    }

    /// The bit width of the range. It never exceeds that of an amount, and
    /// the generators are always made for exactly this width.
    pub fn bit_width(&self) -> (bit_width: usize)
        ensures
            bit_width == self.width(),
            bit_width <= MAX_BIT_WIDTH,
            self.generators() == bit_width,
            self.values_per_proof() == 1,
    {
        proof {
            use_type_invariant(self);
        }
        self.bit_width
    }

    /// Commits to `amount` under a fresh random blinding factor, proves
    /// that the amount lies in the range, and derives the nullifier. The
    /// blinding factor comes back as the canonical encoding of a scalar.
    pub fn generate_bet_proof(&self, amount: u64) -> (result: Result<BetProofData, BetError>)
        ensures
            is_bet_proof_result(self.commitment_bases(), amount, self.width(), result),
            result matches Ok(bundle) ==> is_canonical_scalar(bundle@.blinding_factor),
    {
        let blinding = random_blinding();
        self.generate_bet_proof_with_blinding(amount, &blinding)
    }

    /// Commits to `amount` under the given blinding factor, proves that
    /// the amount lies in the range, and derives the nullifier.
    ///
    /// The 32 bytes of `blinding` are read as a little-endian integer and
    /// reduced modulo the order of the group. They must come from a secure
    /// random source and never from the amount: a blinding factor that can
    /// be guessed gives the amount away.
    pub fn generate_bet_proof_with_blinding(&self, amount: u64, blinding: &[u8; 32]) -> (result: Result<BetProofData, BetError>)
        ensures
            is_bet_proof_result(self.commitment_bases(), amount, self.width(), result),
            result matches Ok(bundle) ==> bundle@.blinding_factor == blinding@,
    {
        proof {
            lemma_domain_lengths();
        }
        match prove_in_range(&self.bp_gens, &self.pc_gens, BET_PROOF_DOMAIN, amount, blinding, self.bit_width) {
            Ok(statement) => Ok(BetProofData::assemble(statement, blinding)),
            Err(e) => Err(e),
        }
    }

    /// Checks the proof of a bet against its commitment.
    ///
    /// Returns `Ok(true)` when the proof system accepts the proof, and the
    /// reason as an error in every other case; malformed input is never
    /// more than an error.
    pub fn verify_bet_proof(&self, verification_data: &BetVerificationData) -> (result: Result<bool, BetError>)
        ensures
            is_bet_verification_result(self.commitment_bases(), verification_data@, self.width(), result),
    {
        proof {
            lemma_domain_lengths();
        }
        check_in_range(
            &self.bp_gens,
            &self.pc_gens,
            BET_PROOF_DOMAIN,
            verification_data.commitment.as_slice(),
            verification_data.proof.as_slice(),
            self.bit_width,
        )
    }
}

/// Two bets on the same amount under the same blinding factor, over the
/// same base points, have the same commitment and the same nullifier: a
/// second use of a commitment shows in its nullifier.
pub proof fn lemma_same_opening_same_nullifier(
    first: BetProofView,
    second: BetProofView,
    bases: Seq<Seq<u8>>,
    amount: u64,
    first_width: usize,
    second_width: usize,
)
    requires
        first.is_bet_on(bases, amount, first_width),
        second.is_bet_on(bases, amount, second_width),
        first.blinding_factor == second.blinding_factor,
    ensures
        first.commitment == second.commitment,
        first.nullifier == second.nullifier,
{
}

/// A bet that was proved is never refused as malformed when it is
/// verified, whatever the bit width of the verifier: the answer is
/// acceptance or the rejection of the proof, as the proof system decides.
pub proof fn lemma_proved_bet_is_well_formed(
    bundle: BetProofView,
    bases: Seq<Seq<u8>>,
    amount: u64,
    proved_width: usize,
    verified_width: usize,
    result: Result<bool, BetError>,
)
    requires
        bundle.is_bet_on(bases, amount, proved_width),
        is_bet_verification_result(bases, bundle.shown(), verified_width, result),
    ensures
        result == Ok::<bool, BetError>(true) || result == Err::<bool, BetError>(BetError::ProofRejected),
        result matches Err(e) ==> !e.is_malformed_input(),
{
}

/// The transcript of a bet's range proof starts from a log of its own: it
/// is neither the log from which a stand-alone range proof starts nor the
/// beginning of the log from which a nullifier is drawn.
pub proof fn lemma_bet_transcript_is_separate(commitment: Seq<u8>, blinding: Seq<u8>)
    ensures
        opening_log(BET_PROOF_DOMAIN) != opening_log(RANGE_PROOF_DOMAIN),
        opening_log(BET_PROOF_DOMAIN) != nullifier_log(commitment, blinding).take(1),
        opening_log(RANGE_PROOF_DOMAIN) != nullifier_log(commitment, blinding).take(1),
{
    lemma_domains_are_distinct();
    if opening_log(BET_PROOF_DOMAIN) == opening_log(RANGE_PROOF_DOMAIN) {
        lemma_opening_log_binds_domain(BET_PROOF_DOMAIN, RANGE_PROOF_DOMAIN);
    }
    assert(nullifier_log(commitment, blinding).take(1) =~= opening_log(NULLIFIER_DOMAIN));
    if opening_log(BET_PROOF_DOMAIN) == opening_log(NULLIFIER_DOMAIN) {
        lemma_opening_log_binds_domain(BET_PROOF_DOMAIN, NULLIFIER_DOMAIN);
    }
    if opening_log(RANGE_PROOF_DOMAIN) == opening_log(NULLIFIER_DOMAIN) {
        lemma_opening_log_binds_domain(RANGE_PROOF_DOMAIN, NULLIFIER_DOMAIN);
    }
}

/// An amount that does not fit the bit width never becomes a bet.
pub proof fn lemma_amount_out_of_range_is_refused(
    bases: Seq<Seq<u8>>,
    amount: u64,
    bit_width: usize,
    result: Result<BetProofData, BetError>,
)
    requires
        bit_width < MAX_BIT_WIDTH,
        amount >= pow2(bit_width as nat),
        is_bet_proof_result(bases, amount, bit_width, result),
    ensures
        result == Err::<BetProofData, BetError>(BetError::InvalidAmount),
{
}

} // verus!
