//! Authentication of signed webhook requests.
//!
//! The remote party signs `timestamp ∥ payload` with Ed25519 and sends the
//! signature as hexadecimal text. The verifier holds the fixed public key.

use crate::encoding::{decode, hex_decoded, is_hex};
use vstd::prelude::*;

verus! {

/// The header that carries the signature as hexadecimal text.
pub const SIGNATURE_HEADER: &'static str = "X-Signature-Ed25519";

/// The header that carries the timestamp.
pub const TIMESTAMP_HEADER: &'static str = "X-Signature-Timestamp";

/// Whether Ed25519 verification under the public key `key` accepts
/// `signature` for `message`.
pub uninterp spec fn ed25519_accepts(key: Seq<u8>, message: Seq<u8>, signature: Seq<u8>) -> bool;

/// `ring::signature::UnparsedPublicKey::verify` with the `ED25519`
/// algorithm. The verdict depends on the three byte strings alone. The
/// algorithm reads the key as 32 bytes and the signature as two 32-byte
/// halves and rejects any other length.
#[verifier::external_body]
fn ed25519_verify(key: &[u8], message: &[u8], signature: &[u8]) -> (ok: bool)
    ensures
        ok == ed25519_accepts(key@, message@, signature@),
        ok ==> key@.len() == 32 && signature@.len() == 64,
{
    ring::signature::UnparsedPublicKey::new(&ring::signature::ED25519, key)
        .verify(message, signature)
        .is_ok()
}

/// Why a signed request was turned away.
#[derive(Clone, Copy, Debug, PartialEq, Eq, Structural)]
pub enum SignatureError {
    /// A header is missing or the signature is not hexadecimal text.
    /// Verification was not attempted.
    Malformed,
    /// The signature does not verify for the timestamp and payload.
    Invalid,
}

/// The byte string that the remote party signs.
pub open spec fn signed_message(timestamp: Seq<u8>, payload: Seq<u8>) -> Seq<u8> {
    timestamp + payload
}

/// Whether the request `(payload, timestamp, signature)` is authentic
/// under `key`; `signature` is the decoded signature.
pub open spec fn authentic(
    key: Seq<u8>,
    payload: Seq<u8>,
    timestamp: Seq<u8>,
    signature: Seq<u8>,
) -> bool {
    ed25519_accepts(key, signed_message(timestamp, payload), signature)
}

/// What checking a request comes to, given the outcome of the signature
/// check: malformed text wins over an invalid signature.
pub open spec fn verdict(well_formed: bool, accepted: bool) -> Result<(), SignatureError> {
    if !well_formed {
        Err(SignatureError::Malformed)
    } else if !accepted {
        Err(SignatureError::Invalid)
    } else {
        Ok(())
    }
}

/// Turns the two findings about a request into its verdict.
pub fn conclude(well_formed: bool, accepted: bool) -> (out: Result<(), SignatureError>)
    ensures
        out == verdict(well_formed, accepted),
{
    if !well_formed {
        Err(SignatureError::Malformed)
    } else if !accepted {
        Err(SignatureError::Invalid)
    } else {
        Ok(())
    }
}

/// Holds the fixed public key against which every request is checked.
pub struct Verifier {
    key: Vec<u8>,
}

impl Verifier {
    /// The public key bytes.
    pub closed spec fn key(&self) -> Seq<u8> {
        self.key@
    }

    /// A verifier for `key`. The key is not examined until a request is
    /// checked; a key that is not a valid Ed25519 public key accepts
    /// nothing.
    pub fn new(key: Vec<u8>) -> (out: Verifier)
        ensures
            out.key() == key@,
    {
        Verifier { key }
    }

    /// Checks a decoded signature over `timestamp ∥ payload`.
    pub fn accepts(&self, payload: &[u8], timestamp: &[u8], signature: &[u8]) -> (ok: bool)
        ensures
            ok == authentic(self.key(), payload@, timestamp@, signature@),
            ok ==> self.key().len() == 32 && signature@.len() == 64,
    {
        let mut message: Vec<u8> = Vec::new();
        message.extend_from_slice(timestamp);
        message.extend_from_slice(payload);
        assert(message@ == signed_message(timestamp@, payload@));
        ed25519_verify(self.key.as_slice(), message.as_slice(), signature)
    }

    /// Checks a request whose signature is still hexadecimal text.
    ///
    /// Text that is not hexadecimal is `Malformed` and is never handed to
    /// the signature check; otherwise the request is accepted exactly
    /// when the decoded signature verifies for `timestamp ∥ payload`.
    pub fn verify(&self, payload: &[u8], timestamp: &[u8], signature: &[u8]) -> (out: Result<
        (),
        SignatureError,
    >)
        ensures
            out == verdict(
                is_hex(signature@),
                authentic(self.key(), payload@, timestamp@, hex_decoded(signature@)),
            ),
            out is Ok ==> self.key().len() == 32 && signature@.len() == 128,
    {
        match decode(signature) {
            None => conclude(false, false),
            Some(raw) => {
                let accepted = self.accepts(payload, timestamp, raw.as_slice());
                conclude(true, accepted)
            },
        }
    }

    /// Checks a request as it arrives, with either header possibly absent.
    /// A missing header is `Malformed`, whatever the other one holds.
    pub fn verify_headers(
        &self,
        payload: &[u8],
        timestamp: Option<&[u8]>,
        signature: Option<&[u8]>,
    ) -> (out: Result<(), SignatureError>)
        ensures
            (timestamp is None || signature is None) ==> out == Err::<(), SignatureError>(
                SignatureError::Malformed,
            ),
            timestamp matches Some(t) ==> (signature matches Some(s) ==> out == verdict(
                is_hex(s@),
                authentic(self.key(), payload@, t@, hex_decoded(s@)),
            )),
    {
        match (timestamp, signature) {
            (Some(t), Some(s)) => self.verify(payload, t, s),
            _ => conclude(false, false),
        }
    }
}

/// Changing the payload changes the signed message, whatever the
/// timestamp.
pub proof fn lemma_message_binds_payload(timestamp: Seq<u8>, sent: Seq<u8>, received: Seq<u8>)
    requires
        sent != received,
    ensures
        signed_message(timestamp, sent) != signed_message(timestamp, received),
{
    let signed = signed_message(timestamp, sent);
    let checked = signed_message(timestamp, received);
    if signed == checked {
        assert(sent =~= signed.subrange(timestamp.len() as int, signed.len() as int));
        assert(received =~= checked.subrange(timestamp.len() as int, checked.len() as int));
    }
}

/// Changing the timestamp without changing its length (flipping a bit,
/// replacing a digit) changes the signed message, whatever the payload.
pub proof fn lemma_message_binds_timestamp(sent: Seq<u8>, received: Seq<u8>, payload: Seq<u8>)
    requires
        sent != received,
        sent.len() == received.len(),
    ensures
        signed_message(sent, payload) != signed_message(received, payload),
{
    let signed = signed_message(sent, payload);
    let checked = signed_message(received, payload);
    if signed == checked {
        assert(sent =~= signed.subrange(0, sent.len() as int));
        assert(received =~= checked.subrange(0, received.len() as int));
    }
}

} // verus!
