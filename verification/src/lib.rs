//! Bet commitments: a wager amount is hidden inside a Pedersen commitment,
//! proved to lie in a bounded range without being revealed, and tied to a
//! nullifier that lets a verifier detect reuse of the same commitment.
//!
//! The curve arithmetic, the range-proof system and the Fiat-Shamir
//! transcript are taken from `curve25519-dalek`, `bulletproofs` and `merlin`.
//! Every call into them goes through a small trusted declaration whose doc
//! comment says what is assumed of it; everything around those calls is
//! verified.
//!
//! - [`amount`]: reading an amount from text and testing it against a bit
//!   width;
//! - [`bet`]: the protocol itself, prover and verifier;
//! - [`nullifier`]: deriving the nullifier of a commitment;
//! - [`proof_system`]: range proofs without a nullifier;
//! - [`range`]: what prover and verifier of either kind share;
//! - [`domains`]: the transcript labels that keep the protocols apart;
//! - [`error`]: the kinds of failure;
//! - [`transcript`] and [`primitives`]: the trusted declarations.

pub mod amount;
pub mod bet;
pub mod domains;
pub mod error;
pub mod nullifier;
pub mod primitives;
pub mod proof_system;
pub mod range;
pub mod transcript;

pub use amount::parse_bet_amount;
pub use bet::{BetProofData, BetVerificationData, BulletproofGenerator};
pub use error::BetError;
pub use nullifier::generate_nullifier;
pub use proof_system::ProofSystem;
pub use range::RangeStatement;
