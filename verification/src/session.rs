//! Sessions and the store that owns them.
//!
//! A session starts out `Pending`, holding the nonce drawn at login, and
//! becomes `Authenticated` exactly once, through `upgrade`.

use crate::encoding::{decode, encode, hex_decoded, hex_encoded, is_hex};
use vstd::prelude::*;

verus! {

/// An opaque 12-byte identifier, written as 24 hexadecimal digits on the
/// wire.
#[derive(Clone, Copy, Debug, PartialEq, Eq)]
pub struct ObjectId {
    pub bytes: [u8; 12],
}

impl View for ObjectId {
    type V = Seq<u8>;

    open spec fn view(&self) -> Seq<u8> {
        self.bytes@
    }
}

impl ObjectId {
    /// The identifier made of `bytes`.
    pub fn from_bytes(bytes: [u8; 12]) -> (out: ObjectId)
        ensures
            out.bytes == bytes,
    {
        ObjectId { bytes }
    }

    /// The identifier's bytes.
    pub fn bytes(&self) -> (out: [u8; 12])
        ensures
            out == self.bytes,
    {
        self.bytes
    }

    /// Whether two identifiers are the same.
    pub fn same(&self, other: &ObjectId) -> (out: bool)
        ensures
            out == (*self == *other),
            out == (self@ == other@),
    {
        let mut i: usize = 0;
        while i < 12
            invariant
                i <= 12,
                forall|j: int| 0 <= j < i ==> self.bytes[j] == other.bytes[j],
            decreases 12 - i,
        {
            if self.bytes[i] != other.bytes[i] {
                return false;
            }
            i += 1;
        }
        assert(self.bytes@ =~= other.bytes@);
        assert(self.bytes == other.bytes);
        true
    }

    /// Reads an identifier from its 24 hexadecimal digits. `None` on any
    /// other text.
    pub fn parse_str(text: &[u8]) -> (out: Option<ObjectId>)
        ensures
            out is Some <==> is_hex(text@) && text@.len() == 24,
            out matches Some(id) ==> id@ == hex_decoded(text@),
    {
        match decode(text) {
            None => None,
            Some(raw) => {
                if raw.len() != 12 {
                    return None;
                }
                let mut bytes: [u8; 12] = [0u8; 12];
                let mut i: usize = 0;
                while i < 12
                    invariant
                        i <= 12,
                        raw@.len() == 12,
                        forall|j: int| 0 <= j < i ==> bytes[j] == raw@[j],
                    decreases 12 - i,
                {
                    bytes[i] = raw[i];
                    i += 1;
                }
                assert(bytes@ =~= raw@);
                Some(ObjectId { bytes })
            },
        }
    }

    /// The identifier as 24 lower-case hexadecimal digits.
    pub fn to_hex(&self) -> (text: Vec<u8>)
        ensures
            text@ == hex_encoded(self@),
    {
        encode(self.bytes.as_slice())
    }
}

/// A session record.
#[derive(Debug, PartialEq, Eq)]
pub enum Session {
    /// Created at login; not yet bound to an external identity.
    Pending { nonce: u64 },
    /// Bound to an external identity by a completed OAuth exchange.
    Authenticated { external_id: u64, access_token: String, refresh_token: String, expires_at: u64 },
}

impl Clone for Session {
    fn clone(&self) -> (out: Session)
        ensures
            out == *self,
    {
        match self {
            Session::Pending { nonce } => Session::Pending { nonce: *nonce },
            Session::Authenticated { external_id, access_token, refresh_token, expires_at } => {
                Session::Authenticated {
                    external_id: *external_id,
                    access_token: access_token.clone(),
                    refresh_token: refresh_token.clone(),
                    expires_at: *expires_at,
                }
            },
        }
    }
}

impl Session {
    /// A fresh session holding `nonce`.
    pub fn pending(nonce: u64) -> (out: Session)
        ensures
            out == (Session::Pending { nonce }),
    {
        Session::Pending { nonce }
    }

    /// The nonce of a pending session.
    pub fn nonce(&self) -> (out: Option<u64>)
        ensures
            out == match *self {
                Session::Pending { nonce } => Some(nonce),
                Session::Authenticated { .. } => None::<u64>,
            },
    {
        match self {
            Session::Pending { nonce } => Some(*nonce),
            Session::Authenticated { .. } => None,
        }
    }

    /// The external identity of an authenticated session.
    pub fn as_user(&self) -> (out: Option<u64>)
        ensures
            out == match *self {
                Session::Pending { .. } => None::<u64>,
                Session::Authenticated { external_id, .. } => Some(external_id),
            },
    {
        match self {
            Session::Pending { .. } => None,
            Session::Authenticated { external_id, .. } => Some(*external_id),
        }
    }

    /// The only way from `Pending` to `Authenticated`. Succeeds exactly on
    /// a pending session; an authenticated one is left as it is.
    pub fn upgrade(
        &mut self,
        external_id: u64,
        access_token: String,
        refresh_token: String,
        expires_at: u64,
    ) -> (ok: bool)
        ensures
            ok == (*old(self) is Pending),
            ok ==> *final(self) == (Session::Authenticated {
                external_id,
                access_token,
                refresh_token,
                expires_at,
            }),
            !ok ==> *final(self) == *old(self),
    {
        match self {
            Session::Pending { .. } => {
                *self = Session::Authenticated {
                    external_id,
                    access_token,
                    refresh_token,
                    expires_at,
                };
                true
            },
            Session::Authenticated { .. } => false,
        }
    }
}

/// The big-endian bytes of `n`.
pub open spec fn be_bytes(n: u64) -> Seq<u8> {
    seq![
        ((n >> 56) & 0xff) as u8,
        ((n >> 48) & 0xff) as u8,
        ((n >> 40) & 0xff) as u8,
        ((n >> 32) & 0xff) as u8,
        ((n >> 24) & 0xff) as u8,
        ((n >> 16) & 0xff) as u8,
        ((n >> 8) & 0xff) as u8,
        (n & 0xff) as u8,
    ]
}

/// The session identifier followed by the nonce in big-endian order: the
/// preimage of the OAuth binding value.
pub open spec fn salted(id: Seq<u8>, nonce: u64) -> Seq<u8> {
    id + be_bytes(nonce)
}

/// Lays out the 20 bytes `id ∥ nonce`.
pub fn salt_session_with_nonce(id: ObjectId, nonce: u64) -> (out: [u8; 20])
    ensures
        out@ == salted(id@, nonce),
{
    let mut out: [u8; 20] = [0u8; 20];
    let mut i: usize = 0;
    while i < 12
        invariant
            i <= 12,
            forall|j: int| 0 <= j < i ==> out[j] == id.bytes[j],
        decreases 12 - i,
    {
        out[i] = id.bytes[i];
        i += 1;
    }
    out[12] = ((nonce >> 56) & 0xff) as u8;
    out[13] = ((nonce >> 48) & 0xff) as u8;
    out[14] = ((nonce >> 40) & 0xff) as u8;
    out[15] = ((nonce >> 32) & 0xff) as u8;
    out[16] = ((nonce >> 24) & 0xff) as u8;
    out[17] = ((nonce >> 16) & 0xff) as u8;
    out[18] = ((nonce >> 8) & 0xff) as u8;
    out[19] = (nonce & 0xff) as u8;
    assert(out@ =~= salted(id@, nonce));
    out
}

/// Two numbers with the same big-endian bytes are the same number.
pub proof fn lemma_be_bytes_injective(a: u64, b: u64)
    requires
        be_bytes(a) == be_bytes(b),
    ensures
        a == b,
{
    let x = be_bytes(a);
    let y = be_bytes(b);
    assert(x[0] == y[0] && x[1] == y[1] && x[2] == y[2] && x[3] == y[3]);
    assert(x[4] == y[4] && x[5] == y[5] && x[6] == y[6] && x[7] == y[7]);
    assert(a == b) by (bit_vector)
        requires
            ((a >> 56) & 0xff) as u8 == ((b >> 56) & 0xff) as u8,
            ((a >> 48) & 0xff) as u8 == ((b >> 48) & 0xff) as u8,
            ((a >> 40) & 0xff) as u8 == ((b >> 40) & 0xff) as u8,
            ((a >> 32) & 0xff) as u8 == ((b >> 32) & 0xff) as u8,
            ((a >> 24) & 0xff) as u8 == ((b >> 24) & 0xff) as u8,
            ((a >> 16) & 0xff) as u8 == ((b >> 16) & 0xff) as u8,
            ((a >> 8) & 0xff) as u8 == ((b >> 8) & 0xff) as u8,
            (a & 0xff) as u8 == (b & 0xff) as u8,
    ;
}

/// The preimage of the binding value determines the session identifier
/// and the nonce: replacing either one changes it.
pub proof fn lemma_salted_injective(id1: ObjectId, n1: u64, id2: ObjectId, n2: u64)
    ensures
        salted(id1@, n1) == salted(id2@, n2) <==> id1 == id2 && n1 == n2,
{
    let s1 = salted(id1@, n1);
    let s2 = salted(id2@, n2);
    if s1 == s2 {
        assert(id1@ =~= s1.subrange(0, 12));
        assert(id2@ =~= s2.subrange(0, 12));
        assert(be_bytes(n1) =~= s1.subrange(12, 20));
        assert(be_bytes(n2) =~= s2.subrange(12, 20));
        lemma_be_bytes_injective(n1, n2);
        assert(id1.bytes == id2.bytes);
    }
}

} // verus!
