//! The session cookie: how a session identifier travels to the browser
//! and back.

use crate::encoding::{hex_decoded, hex_encoded, is_hex};
use crate::encoding::{is_hex_digit, lemma_decode_encode};
use crate::fields::{field, find_field, lemma_last_piece, piece_at};
use crate::router::Status;
use crate::session::ObjectId;
use vstd::prelude::*;
use vstd::string::StringSliceAdditionalSpecFns;

verus! {

/// The name of the session cookie.
pub const SESSION_COOKIE: &'static str = "sid";

/// What precedes the identifier in the cookie that a login sets.
pub const COOKIE_HEAD: &'static str = "sid=";

/// The attributes of the cookie that a login sets: sent over secure
/// transport only, out of reach of scripts, and gone after a quarter of
/// an hour.
pub const COOKIE_ATTRIBUTES: &'static str = "; Secure; HttpOnly; SameSite=Lax; Max-Age=900";

/// The byte that separates the pieces of a `Cookie` header.
pub const COOKIE_SEPARATOR: u8 = 0x3b;

/// The value of the `Set-Cookie` header for the session `id`.
pub open spec fn cookie_text(id: Seq<u8>) -> Seq<u8> {
    COOKIE_HEAD.spec_bytes() + hex_encoded(id) + COOKIE_ATTRIBUTES.spec_bytes()
}

/// The text that a `Cookie` header gives for the session, if any.
pub open spec fn cookie_session(header: Seq<u8>) -> Option<Seq<u8>> {
    field(header, COOKIE_SEPARATOR, true, SESSION_COOKIE.spec_bytes())
}

/// The session that a request names: without a `Cookie` header, or with
/// one that holds no session cookie, the request is `Unauthorized`; a
/// session cookie that is not 24 hexadecimal digits is a `BadRequest`.
pub open spec fn named_session(header: Option<Seq<u8>>) -> Result<Seq<u8>, Status> {
    match header {
        None => Err(Status::Unauthorized),
        Some(header) => match cookie_session(header) {
            None => Err(Status::Unauthorized),
            Some(text) => if is_hex(text) && text.len() == 24 {
                Ok(hex_decoded(text))
            } else {
                Err(Status::BadRequest)
            },
        },
    }
}

/// Writes the value of the `Set-Cookie` header for the session `id`.
pub fn session_cookie(id: ObjectId) -> (out: Vec<u8>)
    ensures
        out@ == cookie_text(id@),
{
    let text = id.to_hex();
    let mut out: Vec<u8> = Vec::new();
    out.extend_from_slice(COOKIE_HEAD.as_bytes());
    out.extend_from_slice(text.as_slice());
    out.extend_from_slice(COOKIE_ATTRIBUTES.as_bytes());
    assert(out@ =~= cookie_text(id@));
    out
}

/// Reads the session identifier from the `Cookie` header of a request.
pub fn extract_session(header: Option<&[u8]>) -> (out: Result<ObjectId, Status>)
    ensures
        out matches Ok(id) ==> named_session(
            match header {
                Some(h) => Some(h@),
                None => None,
            },
        ) == Ok::<Seq<u8>, Status>(id@),
        out matches Err(status) ==> named_session(
            match header {
                Some(h) => Some(h@),
                None => None,
            },
        ) == Err::<Seq<u8>, Status>(status),
{
    let header = match header {
        Some(header) => header,
        None => {
            return Err(Status::Unauthorized);
        },
    };
    let text = match find_field(header, COOKIE_SEPARATOR, true, SESSION_COOKIE.as_bytes()) {
        Some(text) => text,
        None => {
            return Err(Status::Unauthorized);
        },
    };
    match ObjectId::parse_str(text) {
        Some(id) => Ok(id),
        None => Err(Status::BadRequest),
    }
}

/// The browser sends back the name and value of the cookie that a login
/// set; from that header the same session identifier is read.
pub proof fn lemma_cookie_read_back(id: ObjectId)
    ensures
        named_session(Some(COOKIE_HEAD.spec_bytes() + hex_encoded(id@))) == Ok::<
            Seq<u8>,
            Status,
        >(id@),
{
    broadcast use vstd::string::is_ascii_spec_bytes;

    reveal_strlit("sid=");
    reveal_strlit("sid");
    let name = SESSION_COOKIE.spec_bytes();
    let digits = hex_encoded(id@);
    let header = COOKIE_HEAD.spec_bytes() + digits;
    lemma_decode_encode(id@);
    assert(vstd::string::is_ascii(COOKIE_HEAD) && vstd::string::is_ascii(SESSION_COOKIE));
    assert forall|i: int| 0 <= i < header.len() implies header[i] != COOKIE_SEPARATOR by {
        if i >= 4 {
            assert(is_hex_digit(digits[i - 4]));
        }
    }
    lemma_last_piece(header, COOKIE_SEPARATOR, 0);
    let piece = piece_at(header, COOKIE_SEPARATOR, true, 0);
    assert(piece =~= header);
    assert(piece.subrange(0, 3) =~= name);
    assert(piece.subrange(4, piece.len() as int) =~= digits);
}

} // verus!
