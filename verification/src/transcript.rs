//! The Fiat-Shamir transcript, as far as this crate drives it.
//!
//! A `merlin::Transcript` is a running hash. What it has absorbed decides
//! every challenge it gives out, so its state is described here by the log
//! of what was put into it.

use vstd::prelude::*;
use merlin::Transcript;

verus! {

/// `merlin::Transcript`, carried through verified code as an opaque value.
#[verifier::external_type_specification]
#[verifier::external_body]
pub struct ExTranscript(merlin::Transcript);

/// One step in the life of a transcript.
pub enum TranscriptEntry {
    /// The transcript was opened under a domain-separation label.
    Domain { label: Seq<u8> },
    /// A message was appended under a label.
    Message { label: Seq<u8>, message: Seq<u8> },
    /// A challenge of `len` bytes was drawn under a label.
    Challenge { label: Seq<u8>, len: nat },
}

/// What a transcript has absorbed so far, oldest entry first.
pub uninterp spec fn transcript_log(transcript: Transcript) -> Seq<TranscriptEntry>;

/// The bytes that `Transcript::challenge_bytes` writes when a transcript
/// with the given log is asked for `len` bytes under `label`.
pub uninterp spec fn challenge_output(log: Seq<TranscriptEntry>, label: Seq<u8>, len: nat) -> Seq<u8>;

/// Calls `merlin::Transcript::new`.
///
/// Assumed: the new transcript has absorbed the domain label and nothing
/// else. The outside function refuses labels whose length does not fit in
/// 32 bits, so those are left out.
#[verifier::external_body]
pub(crate) fn transcript_new(label: &'static [u8]) -> (transcript: Transcript)
    requires
        label@.len() <= u32::MAX,
    ensures
        transcript_log(transcript) == seq![(TranscriptEntry::Domain { label: label@ })],
{
    Transcript::new(label)
}

/// Calls `merlin::Transcript::append_message`.
///
/// Assumed: the message is added to the end of the log under its label.
/// The outside function refuses messages whose length does not fit in 32
/// bits, so those are left out.
#[verifier::external_body]
pub(crate) fn transcript_append(transcript: &mut Transcript, label: &'static [u8], message: &[u8])
    requires
        message@.len() <= u32::MAX,
    ensures
        transcript_log(*final(transcript)) == transcript_log(*old(transcript)).push(
            (TranscriptEntry::Message { label: label@, message: message@ }),
        ),
{
    transcript.append_message(label, message);
}

/// Calls `merlin::Transcript::challenge_bytes` on a fresh buffer of `len`
/// bytes.
///
/// Assumed: the buffer comes back filled with bytes that depend only on
/// what the transcript had absorbed, on the label and on the length asked
/// for; the request itself is added to the log. The outside function
/// refuses lengths that do not fit in 32 bits, so those are left out.
#[verifier::external_body]
pub(crate) fn transcript_challenge(transcript: &mut Transcript, label: &'static [u8], len: usize) -> (bytes: Vec<u8>)
    requires
        len <= u32::MAX,
    ensures
        bytes@.len() == len,
        bytes@ == challenge_output(transcript_log(*old(transcript)), label@, len as nat),
        transcript_log(*final(transcript)) == transcript_log(*old(transcript)).push(
            (TranscriptEntry::Challenge { label: label@, len: len as nat }),
        ),
{
    let mut bytes = vec![0u8; len];
    transcript.challenge_bytes(label, &mut bytes);
    bytes
}

} // verus!
