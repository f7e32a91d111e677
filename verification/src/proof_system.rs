//! Range proofs on their own: a commitment to a value and the proof that
//! the value lies in the range, without the nullifier of a bet.

use vstd::prelude::*;
use bulletproofs::{BulletproofGens, PedersenGens};
use crate::amount::amount_fits;
use crate::domains::{lemma_domain_lengths, RANGE_PROOF_DOMAIN};
use crate::error::BetError;
use crate::primitives::{
    bulletproof_gens_new, generator_parties, generators_per_party, is_canonical_scalar,
    pedersen_bases, pedersen_gens_default, random_blinding,
};
use crate::range::{
    check_in_range, is_checking_result, opening_log, prove_in_range, RangeStatement, StatementView,
};

verus! {

/// Bit width of the range of a stand-alone range proof.
pub const PROOF_BIT_SIZE: usize = 32;

/// What asking for a range proof of `value` may end in.
///
/// A value that does not fit the bit width is refused as invalid;
/// otherwise the proof system decides, and a statement that comes back was
/// proved for the value, on a transcript opened under the label of range
/// proofs, under some blinding factor that is the canonical encoding of a
/// scalar.
pub open spec fn is_range_proof_result(bases: Seq<Seq<u8>>, value: u64, result: Result<RangeStatement, BetError>) -> bool {
    if !amount_fits(value, PROOF_BIT_SIZE) {
        result == Err::<RangeStatement, BetError>(BetError::InvalidAmount)
    } else {
        match result {
            Ok(statement) => exists|blinding: Seq<u8>|
                is_canonical_scalar(blinding) && #[trigger] statement@.is_proved(
                    opening_log(RANGE_PROOF_DOMAIN),
                    bases,
                    value,
                    blinding,
                    PROOF_BIT_SIZE,
                ),
            Err(e) => e == BetError::ProofGenerationError,
        }
    }
}

/// What verifying a range proof may end in: what checking it against its
/// commitment may end in, on a transcript opened under the label of range
/// proofs.
pub open spec fn is_range_verification_result(
    bases: Seq<Seq<u8>>,
    statement: StatementView,
    result: Result<bool, BetError>,
) -> bool {
    is_checking_result(opening_log(RANGE_PROOF_DOMAIN), bases, statement, PROOF_BIT_SIZE, result)
}

/// The generators and base points for range proofs of one value of
/// `PROOF_BIT_SIZE` bits.
pub struct ProofSystem {
    bp_gens: BulletproofGens,
    pc_gens: PedersenGens,
}

impl ProofSystem {
    /// The generators are made for one value of exactly the bit width in
    /// use.
    #[verifier::type_invariant]
    spec fn sized_for_its_width(&self) -> bool {
        &&& generators_per_party(self.bp_gens) == PROOF_BIT_SIZE
        &&& generator_parties(self.bp_gens) == 1
    }

    /// How many generators are held for each value that is proved.
    pub closed spec fn generators(&self) -> nat {
        generators_per_party(self.bp_gens)
    }

    /// How many values one proof can speak of.
    pub closed spec fn values_per_proof(&self) -> nat {
        generator_parties(self.bp_gens)
    }

    /// The base points of the commitments, in compressed form.
    pub closed spec fn commitment_bases(&self) -> Seq<Seq<u8>> {
        pedersen_bases(self.pc_gens)
    }

    /// Sets up the generators: for one value, and for the bit width at
    /// which proofs are made and checked.
    pub fn new() -> (system: Self)
        ensures
            system.generators() == PROOF_BIT_SIZE,
            system.values_per_proof() == 1,
    {
        ProofSystem { bp_gens: bulletproof_gens_new(PROOF_BIT_SIZE, 1), pc_gens: pedersen_gens_default() }
    }

    /// Commits to `value` under a fresh random blinding factor and proves
    /// that the value lies in the range. The blinding factor is not kept:
    /// nobody can open the commitment afterwards.
    pub fn create_range_proof(&self, value: u64) -> (result: Result<RangeStatement, BetError>)
        ensures
            is_range_proof_result(self.commitment_bases(), value, result),
    {
        proof {
            lemma_domain_lengths();
        }
        let blinding = random_blinding();
        prove_in_range(&self.bp_gens, &self.pc_gens, RANGE_PROOF_DOMAIN, value, &blinding, PROOF_BIT_SIZE)
    }

    /// Checks a range proof against its commitment.
    pub fn verify_range_proof(&self, proof_data: &RangeStatement) -> (result: Result<bool, BetError>)
        ensures
            is_range_verification_result(self.commitment_bases(), proof_data@, result),
    {
        proof {
            lemma_domain_lengths();
        }
        check_in_range(
            &self.bp_gens,
            &self.pc_gens,
            RANGE_PROOF_DOMAIN,
            proof_data.commitment.as_slice(),
            proof_data.proof.as_slice(),
            PROOF_BIT_SIZE,
        )
    }
}

} // verus!
