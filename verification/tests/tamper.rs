use bet_commitment::bet::{BetProofData, BetVerificationData, BulletproofGenerator};

fn sample() -> (BulletproofGenerator, BetProofData) {
    let generator = BulletproofGenerator::new();
    let bundle = generator.generate_bet_proof_with_blinding(1000, &[21u8; 32]).unwrap();
    (generator, bundle)
}

fn flipped_proof_element_is_rejected(element: usize) {
    let (generator, bundle) = sample();
    assert_eq!(bundle.proof.len(), 19 * 32);
    for position in element * 32..(element + 1) * 32 {
        let mut proof = bundle.proof.clone();
        proof[position] ^= 0x01;
        let data = BetVerificationData { commitment: bundle.commitment.clone(), proof };
        assert!(generator.verify_bet_proof(&data).is_err(), "proof byte {} flipped", position);
    }
}

fn flipped_commitment_is_rejected(mask: u8) {
    let (generator, bundle) = sample();
    for position in 0..bundle.commitment.len() {
        let mut commitment = bundle.commitment.clone();
        commitment[position] ^= mask;
        let data = BetVerificationData { commitment, proof: bundle.proof.clone() };
        assert!(generator.verify_bet_proof(&data).is_err(), "commitment byte {} flipped", position);
    }
}

#[test]
fn untouched_sample_is_accepted() {
    let (generator, bundle) = sample();
    assert_eq!(generator.verify_bet_proof(&bundle.verification_data()), Ok(true));
    assert_eq!(bundle.proof.len(), 608);
}

#[test]
fn flipping_the_low_bit_of_any_commitment_byte_is_rejected() {
    flipped_commitment_is_rejected(0x01);
}

#[test]
fn flipping_the_high_bit_of_any_commitment_byte_is_rejected() {
    flipped_commitment_is_rejected(0x80);
}

#[test]
fn flipping_every_bit_of_any_commitment_byte_is_rejected() {
    flipped_commitment_is_rejected(0xff);
}

#[test]
fn flipping_any_byte_of_proof_element_0_is_rejected() {
    flipped_proof_element_is_rejected(0);
}

#[test]
fn flipping_any_byte_of_proof_element_1_is_rejected() {
    flipped_proof_element_is_rejected(1);
}

#[test]
fn flipping_any_byte_of_proof_element_2_is_rejected() {
    flipped_proof_element_is_rejected(2);
}

#[test]
fn flipping_any_byte_of_proof_element_3_is_rejected() {
    flipped_proof_element_is_rejected(3);
}

#[test]
fn flipping_any_byte_of_proof_element_4_is_rejected() {
    flipped_proof_element_is_rejected(4);
}

#[test]
fn flipping_any_byte_of_proof_element_5_is_rejected() {
    flipped_proof_element_is_rejected(5);
}

#[test]
fn flipping_any_byte_of_proof_element_6_is_rejected() {
    flipped_proof_element_is_rejected(6);
}

#[test]
fn flipping_any_byte_of_proof_element_7_is_rejected() {
    flipped_proof_element_is_rejected(7);
}

#[test]
fn flipping_any_byte_of_proof_element_8_is_rejected() {
    flipped_proof_element_is_rejected(8);
}

#[test]
fn flipping_any_byte_of_proof_element_9_is_rejected() {
    flipped_proof_element_is_rejected(9);
}

#[test]
fn flipping_any_byte_of_proof_element_10_is_rejected() {
    flipped_proof_element_is_rejected(10);
}

#[test]
fn flipping_any_byte_of_proof_element_11_is_rejected() {
    flipped_proof_element_is_rejected(11);
}

#[test]
fn flipping_any_byte_of_proof_element_12_is_rejected() {
    flipped_proof_element_is_rejected(12);
}

#[test]
fn flipping_any_byte_of_proof_element_13_is_rejected() {
    flipped_proof_element_is_rejected(13);
}

#[test]
fn flipping_any_byte_of_proof_element_14_is_rejected() {
    flipped_proof_element_is_rejected(14);
}

#[test]
fn flipping_any_byte_of_proof_element_15_is_rejected() {
    flipped_proof_element_is_rejected(15);
}

#[test]
fn flipping_any_byte_of_proof_element_16_is_rejected() {
    flipped_proof_element_is_rejected(16);
}

#[test]
fn flipping_any_byte_of_proof_element_17_is_rejected() {
    flipped_proof_element_is_rejected(17);
}

#[test]
fn flipping_any_byte_of_proof_element_18_is_rejected() {
    flipped_proof_element_is_rejected(18);
}
