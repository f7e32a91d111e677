use bet_commitment::bet::BetProofData;
use bet_commitment::error::BetError;
use bet_commitment::nullifier::generate_nullifier;
use bet_commitment::range::{proving_result, to_point_bytes, verdict, RangeStatement};
use bulletproofs::ProofError;

#[test]
fn acceptance_becomes_true() {
    assert_eq!(verdict(Ok(())), Ok(true));
}

#[test]
fn every_refusal_becomes_a_rejected_proof() {
    for refusal in [
        ProofError::VerificationError,
        ProofError::FormatError,
        ProofError::InvalidBitsize,
        ProofError::InvalidGeneratorsLength,
        ProofError::InvalidAggregation,
    ] {
        assert_eq!(verdict(Err(refusal)), Err(BetError::ProofRejected));
    }
}

#[test]
fn proved_statement_is_passed_on() {
    let proof = vec![1u8, 2, 3];
    let commitment = vec![4u8; 32];
    let statement = proving_result(Ok((proof.clone(), commitment.clone()))).unwrap();
    assert_eq!(statement, RangeStatement { commitment, proof });
}

#[test]
fn every_proving_failure_becomes_a_generation_error() {
    for failure in [ProofError::InvalidBitsize, ProofError::InvalidGeneratorsLength, ProofError::WrongNumBlindingFactors] {
        assert_eq!(proving_result(Err(failure)), Err(BetError::ProofGenerationError));
    }
}

#[test]
fn bundle_is_put_together_from_statement_and_blinding() {
    let statement = RangeStatement { commitment: vec![9u8; 32], proof: vec![8u8; 608] };
    let blinding = [7u8; 32];
    let bundle = BetProofData::assemble(statement.clone(), &blinding);
    assert_eq!(bundle.commitment, statement.commitment);
    assert_eq!(bundle.proof, statement.proof);
    assert_eq!(bundle.blinding_factor, blinding.to_vec());
    assert_eq!(bundle.nullifier, generate_nullifier(&statement.commitment, &blinding));
    let shown = bundle.verification_data();
    assert_eq!(shown.commitment, statement.commitment);
    assert_eq!(shown.proof, statement.proof);
}

#[test]
fn copies_carry_the_same_bytes() {
    let statement = RangeStatement { commitment: vec![1u8; 32], proof: vec![2u8; 64] };
    assert_eq!(statement.clone(), statement);
    let bundle = BetProofData::assemble(statement, &[3u8; 32]);
    assert_eq!(bundle.clone(), bundle);
    assert_eq!(bundle.verification_data().clone(), bundle.verification_data());
}

#[test]
fn only_thirty_two_bytes_make_a_point() {
    let bytes: Vec<u8> = (0u8..32).collect();
    let mut expected = [0u8; 32];
    expected.copy_from_slice(&bytes);
    assert_eq!(to_point_bytes(&bytes), Some(expected));
    assert_eq!(to_point_bytes(&bytes[..31]), None);
    assert_eq!(to_point_bytes(&[]), None);
    assert_eq!(to_point_bytes(&[0u8; 33]), None);
}

#[test]
fn each_failure_has_its_message() {
    assert_eq!(BetError::InvalidAmount.description(), "Invalid bet amount");
    assert_eq!(BetError::ProofGenerationError.description(), "Proof generation failed");
    assert_eq!(BetError::MalformedCommitment.description(), "Invalid commitment bytes");
    assert_eq!(BetError::MalformedProof.description(), "Invalid proof bytes");
    assert_eq!(BetError::ProofRejected.description(), "Proof verification failed");
}
