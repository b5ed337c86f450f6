//! The local identity keypair and the one-time prekeys, with their wire
//! records.
//!
//! Both entities are opaque to this layer beyond their wire framing: the
//! key material itself is a byte blob produced and consumed by the ratchet
//! engine. A record is the version byte, the fields the entity announces,
//! and nothing after them.

use crate::api::{DecodeError, EncodeError};
use crate::codec::{
    copy_range, u16_be, u16_from_be, u16_of_be, u16_to_be, FORMAT_VERSION,
};
use vstd::prelude::*;

verus! {

/// The small numeric identifier of a one-time prekey. Assigned and
/// recycled by the caller, never by the store.
pub type PreKeyId = u16;

/// The local long-term identity keypair, as the opaque material the
/// ratchet engine hands over.
#[derive(Clone, Debug, PartialEq, Eq)]
pub struct IdentityKeyPair {
    pub material: Vec<u8>,
}

/// A one-time prekey: its identifier and its opaque key material.
#[derive(Clone, Debug, PartialEq, Eq)]
pub struct PreKey {
    pub key_id: PreKeyId,
    pub material: Vec<u8>,
}

/// An identity record can announce its material's length in 16 bits.
pub open spec fn identity_encodable(material: Seq<u8>) -> bool {
    material.len() <= 0xFFFF
}

/// The identity record: version byte, material length, material.
pub open spec fn encode_identity_spec(material: Seq<u8>) -> Seq<u8> {
    seq![FORMAT_VERSION] + u16_be(material.len() as u16) + material
}

/// What decoding an identity record yields: the material, or the exact
/// reason the bytes are not a record.
pub open spec fn decode_identity_spec(b: Seq<u8>) -> Result<Seq<u8>, DecodeError> {
    if b.len() < 3 {
        Err(DecodeError::Truncated)
    } else if b[0] != FORMAT_VERSION {
        Err(DecodeError::BadVersion)
    } else {
        let n = u16_of_be(b[1], b[2]) as int;
        if b.len() < 3 + n {
            Err(DecodeError::Truncated)
        } else if b.len() > 3 + n {
            Err(DecodeError::TrailingBytes)
        } else {
            Ok(b.subrange(3, 3 + n))
        }
    }
}

/// A prekey record can announce its material's length in 16 bits.
pub open spec fn prekey_encodable(material: Seq<u8>) -> bool {
    material.len() <= 0xFFFF
}

/// The prekey record: version byte, key id, material length, material.
pub open spec fn encode_prekey_spec(id: PreKeyId, material: Seq<u8>) -> Seq<u8> {
    seq![FORMAT_VERSION] + u16_be(id) + u16_be(material.len() as u16) + material
}

/// What decoding a prekey record yields: the id and material, or the
/// exact reason the bytes are not a record.
pub open spec fn decode_prekey_spec(b: Seq<u8>) -> Result<(PreKeyId, Seq<u8>), DecodeError> {
    if b.len() < 5 {
        Err(DecodeError::Truncated)
    } else if b[0] != FORMAT_VERSION {
        Err(DecodeError::BadVersion)
    } else {
        let id = u16_of_be(b[1], b[2]);
        let n = u16_of_be(b[3], b[4]) as int;
        if b.len() < 5 + n {
            Err(DecodeError::Truncated)
        } else if b.len() > 5 + n {
            Err(DecodeError::TrailingBytes)
        } else {
            Ok((id, b.subrange(5, 5 + n)))
        }
    }
}

/// Law: an encodable identity's record decodes back to its material.
pub proof fn lemma_identity_round_trip(material: Seq<u8>)
    requires
        identity_encodable(material),
    ensures
        decode_identity_spec(encode_identity_spec(material)) == Ok::<Seq<u8>, DecodeError>(
            material,
        ),
{
    let e = encode_identity_spec(material);
    crate::codec::lemma_u16_be_round_trip(material.len() as u16);
    assert(e[1] == u16_be(material.len() as u16)[0]);
    assert(e[2] == u16_be(material.len() as u16)[1]);
    assert(e.subrange(3, 3 + material.len() as int) =~= material);
}

/// Law: an encodable prekey's record decodes back to its id and material.
pub proof fn lemma_prekey_round_trip(id: PreKeyId, material: Seq<u8>)
    requires
        prekey_encodable(material),
    ensures
        decode_prekey_spec(encode_prekey_spec(id, material)) == Ok::<
            (PreKeyId, Seq<u8>),
            DecodeError,
        >((id, material)),
{
    let e = encode_prekey_spec(id, material);
    crate::codec::lemma_u16_be_round_trip(id);
    crate::codec::lemma_u16_be_round_trip(material.len() as u16);
    assert(e[1] == u16_be(id)[0]);
    assert(e[2] == u16_be(id)[1]);
    assert(e[3] == u16_be(material.len() as u16)[0]);
    assert(e[4] == u16_be(material.len() as u16)[1]);
    assert(e.subrange(5, 5 + material.len() as int) =~= material);
}

impl IdentityKeyPair {
    /// The record of this keypair fits the wire format.
    pub open spec fn encodable(&self) -> bool {
        identity_encodable(self.material@)
    }

    /// Serialises the keypair into its record; fails exactly when the
    /// material exceeds its wire width.
    pub fn serialise(&self) -> (r: Result<Vec<u8>, EncodeError>)
        ensures
            match r {
                Ok(out) => self.encodable() && out@ == encode_identity_spec(self.material@),
                Err(e) => !self.encodable() && e == EncodeError::FieldTooLarge,
            },
    {
        if self.material.len() > 0xFFFF {
            return Err(EncodeError::FieldTooLarge);
        }
        let mut out: Vec<u8> = Vec::new();
        out.push(FORMAT_VERSION);
        let mut len_bytes = u16_to_be(self.material.len() as u16);
        out.append(&mut len_bytes);
        crate::codec::append_bytes(&mut out, &self.material);
        proof {
            assert(out@ =~= encode_identity_spec(self.material@));
        }
        Ok(out)
    }

    /// Decodes a keypair from its record; the result is exactly what the
    /// record spells, error and value alike.
    pub fn deserialise(b: &Vec<u8>) -> (r: Result<IdentityKeyPair, DecodeError>)
        ensures
            match r {
                Ok(k) => decode_identity_spec(b@) == Ok::<Seq<u8>, DecodeError>(k.material@),
                Err(e) => decode_identity_spec(b@) == Err::<Seq<u8>, DecodeError>(e),
            },
    {
        if b.len() < 3 {
            return Err(DecodeError::Truncated);
        }
        if b[0] != FORMAT_VERSION {
            return Err(DecodeError::BadVersion);
        }
        let n = u16_from_be(b[1], b[2]) as usize;
        if b.len() < 3 + n {
            return Err(DecodeError::Truncated);
        }
        if b.len() > 3 + n {
            return Err(DecodeError::TrailingBytes);
        }
        let material = copy_range(b, 3, n);
        Ok(IdentityKeyPair { material })
    }
}

impl PreKey {
    /// The record of this prekey fits the wire format.
    pub open spec fn encodable(&self) -> bool {
        prekey_encodable(self.material@)
    }

    /// Serialises the prekey into its record; fails exactly when the
    /// material exceeds its wire width.
    pub fn serialise(&self) -> (r: Result<Vec<u8>, EncodeError>)
        ensures
            match r {
                Ok(out) => self.encodable() && out@ == encode_prekey_spec(
                    self.key_id,
                    self.material@,
                ),
                Err(e) => !self.encodable() && e == EncodeError::FieldTooLarge,
            },
    {
        if self.material.len() > 0xFFFF {
            return Err(EncodeError::FieldTooLarge);
        }
        let mut out: Vec<u8> = Vec::new();
        out.push(FORMAT_VERSION);
        let mut id_bytes = u16_to_be(self.key_id);
        out.append(&mut id_bytes);
        let mut len_bytes = u16_to_be(self.material.len() as u16);
        out.append(&mut len_bytes);
        crate::codec::append_bytes(&mut out, &self.material);
        proof {
            assert(out@ =~= encode_prekey_spec(self.key_id, self.material@));
        }
        Ok(out)
    }

    /// Decodes a prekey from its record; the result is exactly what the
    /// record spells, error and value alike.
    pub fn deserialise(b: &Vec<u8>) -> (r: Result<PreKey, DecodeError>)
        ensures
            match r {
                Ok(k) => decode_prekey_spec(b@) == Ok::<(PreKeyId, Seq<u8>), DecodeError>(
                    (k.key_id, k.material@),
                ),
                Err(e) => decode_prekey_spec(b@) == Err::<(PreKeyId, Seq<u8>), DecodeError>(e),
            },
    {
        if b.len() < 5 {
            return Err(DecodeError::Truncated);
        }
        if b[0] != FORMAT_VERSION {
            return Err(DecodeError::BadVersion);
        }
        let id = u16_from_be(b[1], b[2]);
        let n = u16_from_be(b[3], b[4]) as usize;
        if b.len() < 5 + n {
            return Err(DecodeError::Truncated);
        }
        if b.len() > 5 + n {
            return Err(DecodeError::TrailingBytes);
        }
        let material = copy_range(b, 5, n);
        Ok(PreKey { key_id: id, material })
    }
}

} // verus!
