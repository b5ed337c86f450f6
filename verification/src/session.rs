//! The per-peer ratchet session and its wire record.
//!
//! A decoded session borrows the local identity keypair for its working
//! lifetime instead of copying the private material. Its record carries a
//! tag naming the identity it was encoded under, so a record written under
//! one identity refuses to decode under another.

use crate::api::DecodeError;
use crate::api::EncodeError;
use crate::codec::{
    bytes_eq, copy_range, u16_be, u16_from_be, u16_of_be, u16_to_be, FORMAT_VERSION,
};
use crate::keys::IdentityKeyPair;
use vstd::prelude::*;

verus! {

/// The ratchet state for exactly one remote peer, borrowing the local
/// identity it was derived under.
#[derive(Debug, PartialEq, Eq)]
pub struct Session<'r> {
    /// The local identity the session's secrets are derived from.
    pub local_identity: &'r IdentityKeyPair,
    /// The opaque ratchet state the engine advances message by message.
    pub state: Vec<u8>,
}

/// A session record can announce both of its fields' lengths in 16 bits.
pub open spec fn session_encodable(ident: Seq<u8>, state: Seq<u8>) -> bool {
    ident.len() <= 0xFFFF && state.len() <= 0xFFFF
}

/// The session record: version byte, identity tag length, identity tag,
/// state length, state.
pub open spec fn encode_session_spec(ident: Seq<u8>, state: Seq<u8>) -> Seq<u8> {
    seq![FORMAT_VERSION] + u16_be(ident.len() as u16) + ident + u16_be(state.len() as u16)
        + state
}

/// What decoding a session record under the identity `ident` yields: the
/// ratchet state, or the exact reason the bytes are not a record of that
/// identity.
pub open spec fn decode_session_spec(ident: Seq<u8>, b: Seq<u8>) -> Result<Seq<u8>, DecodeError> {
    if b.len() < 3 {
        Err(DecodeError::Truncated)
    } else if b[0] != FORMAT_VERSION {
        Err(DecodeError::BadVersion)
    } else {
        let tn = u16_of_be(b[1], b[2]) as int;
        if b.len() < 5 + tn {
            Err(DecodeError::Truncated)
        } else {
            let tag = b.subrange(3, 3 + tn);
            let sn = u16_of_be(b[3 + tn], b[4 + tn]) as int;
            if b.len() < 5 + tn + sn {
                Err(DecodeError::Truncated)
            } else if b.len() > 5 + tn + sn {
                Err(DecodeError::TrailingBytes)
            } else if tag != ident {
                Err(DecodeError::WrongIdentity)
            } else {
                Ok(b.subrange(5 + tn, 5 + tn + sn))
            }
        }
    }
}

/// Law: an encodable session's record decodes back to its state under the
/// identity it was encoded under.
pub proof fn lemma_session_round_trip(ident: Seq<u8>, state: Seq<u8>)
    requires
        session_encodable(ident, state),
    ensures
        decode_session_spec(ident, encode_session_spec(ident, state)) == Ok::<
            Seq<u8>,
            DecodeError,
        >(state),
{
    let e = encode_session_spec(ident, state);
    let tn = ident.len() as int;
    let sn = state.len() as int;
    crate::codec::lemma_u16_be_round_trip(ident.len() as u16);
    crate::codec::lemma_u16_be_round_trip(state.len() as u16);
    assert(e[1] == u16_be(ident.len() as u16)[0]);
    assert(e[2] == u16_be(ident.len() as u16)[1]);
    assert(u16_of_be(e[1], e[2]) as int == tn);
    assert(e.subrange(3, 3 + tn) =~= ident);
    assert(e[3 + tn] == u16_be(state.len() as u16)[0]);
    assert(e[4 + tn] == u16_be(state.len() as u16)[1]);
    assert(u16_of_be(e[3 + tn], e[4 + tn]) as int == sn);
    assert(e.subrange(5 + tn, 5 + tn + sn) =~= state);
}

/// Law: a session record never decodes under an identity other than the
/// one it was encoded under; it is refused as `WrongIdentity`.
pub proof fn lemma_session_wrong_identity(ident: Seq<u8>, other: Seq<u8>, state: Seq<u8>)
    requires
        session_encodable(ident, state),
        other != ident,
    ensures
        decode_session_spec(other, encode_session_spec(ident, state)) == Err::<
            Seq<u8>,
            DecodeError,
        >(DecodeError::WrongIdentity),
{
    let e = encode_session_spec(ident, state);
    let tn = ident.len() as int;
    let sn = state.len() as int;
    crate::codec::lemma_u16_be_round_trip(ident.len() as u16);
    crate::codec::lemma_u16_be_round_trip(state.len() as u16);
    assert(e[1] == u16_be(ident.len() as u16)[0]);
    assert(e[2] == u16_be(ident.len() as u16)[1]);
    assert(u16_of_be(e[1], e[2]) as int == tn);
    assert(e.subrange(3, 3 + tn) =~= ident);
    assert(e[3 + tn] == u16_be(state.len() as u16)[0]);
    assert(e[4 + tn] == u16_be(state.len() as u16)[1]);
    assert(u16_of_be(e[3 + tn], e[4 + tn]) as int == sn);
}

impl<'r> Session<'r> {
    /// The record of this session fits the wire format.
    pub open spec fn encodable(&self) -> bool {
        session_encodable(self.local_identity.material@, self.state@)
    }

    /// Serialises the session into its record; fails exactly when a field
    /// exceeds its wire width.
    pub fn serialise(&self) -> (r: Result<Vec<u8>, EncodeError>)
        ensures
            match r {
                Ok(out) => self.encodable() && out@ == encode_session_spec(
                    self.local_identity.material@,
                    self.state@,
                ),
                Err(e) => !self.encodable() && e == EncodeError::FieldTooLarge,
            },
    {
        if self.local_identity.material.len() > 0xFFFF {
            return Err(EncodeError::FieldTooLarge);
        }
        if self.state.len() > 0xFFFF {
            return Err(EncodeError::FieldTooLarge);
        }
        let mut out: Vec<u8> = Vec::new();
        out.push(FORMAT_VERSION);
        let mut tag_len = u16_to_be(self.local_identity.material.len() as u16);
        out.append(&mut tag_len);
        crate::codec::append_bytes(&mut out, &self.local_identity.material);
        let mut state_len = u16_to_be(self.state.len() as u16);
        out.append(&mut state_len);
        crate::codec::append_bytes(&mut out, &self.state);
        proof {
            assert(out@ =~= encode_session_spec(self.local_identity.material@, self.state@));
        }
        Ok(out)
    }

    /// Decodes a session from its record under the local identity `li`;
    /// the result is exactly what the record spells, error and value
    /// alike, and the session borrows `li`.
    pub fn deserialise(li: &'r IdentityKeyPair, b: &Vec<u8>) -> (r: Result<
        Session<'r>,
        DecodeError,
    >)
        ensures
            match r {
                Ok(s) => s.local_identity == li && decode_session_spec(li.material@, b@) == Ok::<
                    Seq<u8>,
                    DecodeError,
                >(s.state@),
                Err(e) => decode_session_spec(li.material@, b@) == Err::<Seq<u8>, DecodeError>(e),
            },
    {
        if b.len() < 3 {
            return Err(DecodeError::Truncated);
        }
        if b[0] != FORMAT_VERSION {
            return Err(DecodeError::BadVersion);
        }
        let tn = u16_from_be(b[1], b[2]) as usize;
        if b.len() < 5 + tn {
            return Err(DecodeError::Truncated);
        }
        let tag = copy_range(b, 3, tn);
        let sn = u16_from_be(b[3 + tn], b[4 + tn]) as usize;
        if b.len() < 5 + tn + sn {
            return Err(DecodeError::Truncated);
        }
        if b.len() > 5 + tn + sn {
            return Err(DecodeError::TrailingBytes);
        }
        if !bytes_eq(&tag, &li.material) {
            return Err(DecodeError::WrongIdentity);
        }
        let state = copy_range(b, 5 + tn, sn);
        Ok(Session { local_identity: li, state })
    }
}

} // verus!
