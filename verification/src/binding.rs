//! The OAuth `state` parameter: a digest that ties a login attempt to one
//! session without any extra state on the server.
//!
//! The binding value is SHA-256 of the session identifier followed by the
//! session's nonce. It is computed at login, sent out as hexadecimal
//! text, and computed again at the callback, where the text that comes
//! back has to stand for exactly the same 32 bytes.

use crate::encoding::{decode, encode, hex_decoded, hex_encoded, is_hex, lemma_decode_encode};
use crate::session::{salt_session_with_nonce, salted, ObjectId};
use vstd::prelude::*;

verus! {

/// The SHA-256 digest of `data`.
pub uninterp spec fn sha256(data: Seq<u8>) -> Seq<u8>;

/// `ring::digest::digest` with the `SHA256` algorithm: the digest depends
/// on the data alone and is 32 bytes long.
#[verifier::external_body]
fn sha256_digest(data: &[u8]) -> (out: Vec<u8>)
    ensures
        out@ == sha256(data@),
        out@.len() == 32,
{
    ring::digest::digest(&ring::digest::SHA256, data).as_ref().to_vec()
}

/// The binding value of the session `id` with `nonce`.
pub open spec fn binding(id: Seq<u8>, nonce: u64) -> Seq<u8> {
    sha256(salted(id, nonce))
}

/// The text that stands for a binding value in the `state` parameter.
pub open spec fn state_text(value: Seq<u8>) -> Seq<u8> {
    hex_encoded(value)
}

/// Whether `text` is hexadecimal and stands for exactly the bytes
/// `value`.
pub open spec fn state_matches(value: Seq<u8>, text: Seq<u8>) -> bool {
    is_hex(text) && hex_decoded(text) == value
}

/// Computes the binding value of a session.
pub fn binding_value(id: ObjectId, nonce: u64) -> (out: Vec<u8>)
    ensures
        out@ == binding(id@, nonce),
        out@.len() == 32,
{
    let salt = salt_session_with_nonce(id, nonce);
    sha256_digest(salt.as_slice())
}

/// Writes a binding value as the text of the `state` parameter.
pub fn encode_state(value: &[u8]) -> (text: Vec<u8>)
    ensures
        text@ == state_text(value@),
{
    encode(value)
}

/// Compares the `state` text that came back with the binding value that
/// is expected. Every byte is compared, wherever the first difference
/// lies.
pub fn check_state(value: &[u8], text: &[u8]) -> (ok: bool)
    ensures
        ok == state_matches(value@, text@),
{
    match decode(text) {
        None => false,
        Some(raw) => {
            if raw.len() != value.len() {
                return false;
            }
            let mut same = true;
            let mut i: usize = 0;
            while i < raw.len()
                invariant
                    i <= raw@.len(),
                    raw@.len() == value@.len(),
                    same <==> forall|j: int| 0 <= j < i ==> raw@[j] == value@[j],
                decreases raw@.len() - i,
            {
                if raw[i] != value[i] {
                    same = false;
                }
                i += 1;
            }
            proof {
                if same {
                    assert(raw@ =~= value@);
                }
            }
            same
        },
    }
}

/// The `state` parameter for a login over session `id` with `nonce`.
pub fn login_state(id: ObjectId, nonce: u64) -> (text: Vec<u8>)
    ensures
        text@ == state_text(binding(id@, nonce)),
{
    let value = binding_value(id, nonce);
    encode_state(value.as_slice())
}

/// Whether the `state` text returned to the callback belongs to the
/// session `id` with `nonce`.
pub fn callback_state_matches(id: ObjectId, nonce: u64, text: &[u8]) -> (ok: bool)
    ensures
        ok == state_matches(binding(id@, nonce), text@),
{
    let value = binding_value(id, nonce);
    check_state(value.as_slice(), text)
}

/// The text embedded at login is accepted at the callback for the same
/// binding value, and for no other value.
pub proof fn lemma_state_round_trip(value: Seq<u8>, other: Seq<u8>)
    ensures
        state_matches(value, state_text(value)),
        state_matches(other, state_text(value)) <==> other == value,
{
    lemma_decode_encode(value);
}

/// With session identifier and nonce unchanged, the value recomputed at
/// the callback is the one embedded at login, so the login's own `state`
/// is accepted.
pub proof fn lemma_unchanged_session_accepted(id: ObjectId, nonce: u64)
    ensures
        state_matches(binding(id@, nonce), state_text(binding(id@, nonce))),
{
    lemma_state_round_trip(binding(id@, nonce), binding(id@, nonce));
}

/// The `state` of one login is accepted for another session or nonce only
/// if both digests coincide; and the digests are taken over different
/// bytes whenever the identifier or the nonce differs.
pub proof fn lemma_substitution_changes_preimage(id1: ObjectId, n1: u64, id2: ObjectId, n2: u64)
    ensures
        state_matches(binding(id2@, n2), state_text(binding(id1@, n1))) <==> sha256(
            salted(id1@, n1),
        ) == sha256(salted(id2@, n2)),
        (id1 != id2 || n1 != n2) ==> salted(id1@, n1) != salted(id2@, n2),
{
    lemma_state_round_trip(binding(id1@, n1), binding(id2@, n2));
    crate::session::lemma_salted_injective(id1, n1, id2, n2);
}

} // verus!
