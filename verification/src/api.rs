//! The store contract: its result and error types, and the `Store` trait.

use crate::keys::{
    decode_identity_spec, decode_prekey_spec, encode_identity_spec, encode_prekey_spec,
    IdentityKeyPair, PreKey, PreKeyId,
};
use crate::session::{decode_session_spec, encode_session_spec, Session};
use vstd::prelude::*;

verus! {

/// Why a stored record could not be decoded back into an entity.
#[derive(Clone, Copy, Debug, PartialEq, Eq, Structural)]
pub enum DecodeError {
    /// The record ends before an announced field does.
    Truncated,
    /// The leading version byte is not one this layer writes.
    BadVersion,
    /// Bytes remain after the last field of the record.
    TrailingBytes,
    /// The session record was encoded under a different local identity.
    WrongIdentity,
}

/// Why an entity could not be serialised into a record.
#[derive(Clone, Copy, Debug, PartialEq, Eq, Structural)]
pub enum EncodeError {
    /// A variable-length field exceeds its 16-bit wire width.
    FieldTooLarge,
}

/// The cause of a store failure, kept whole so callers can log the root
/// cause instead of a generic message.
#[derive(Debug)]
pub enum StorageCause {
    /// The storage medium failed; the message describes how.
    Io(String),
    /// Stored bytes are present but are not a valid record.
    Decode(DecodeError),
    /// An entity cannot be turned into a record.
    Encode(EncodeError),
    /// A fixed-width integer could not be read or written at the binary
    /// layer; the message describes where.
    Codec(String),
}

/// The single error type every store operation returns.
#[derive(Debug)]
pub struct StorageError {
    pub cause: StorageCause,
}

impl StorageError {
    /// A short human-readable description of the failure class, in place
    /// of a `Display` implementation.
    pub fn message(&self) -> (r: String)
        ensures
            r@ == match self.cause {
                StorageCause::Io(_) => "storage i/o failure"@,
                StorageCause::Decode(_) => "stored record cannot be decoded"@,
                StorageCause::Encode(_) => "entity cannot be encoded"@,
                StorageCause::Codec(_) => "binary codec failure"@,
            },
    {
        match &self.cause {
            StorageCause::Io(_) => String::from_str("storage i/o failure"),
            StorageCause::Decode(_) => String::from_str("stored record cannot be decoded"),
            StorageCause::Encode(_) => String::from_str("entity cannot be encoded"),
            StorageCause::Codec(_) => String::from_str("binary codec failure"),
        }
    }
}

impl From<DecodeError> for StorageError {
    fn from(e: DecodeError) -> (r: StorageError) {
        StorageError { cause: StorageCause::Decode(e) }
    }
}

impl vstd::std_specs::convert::FromSpecImpl<DecodeError> for StorageError {
    open spec fn obeys_from_spec() -> bool {
        true
    }

    open spec fn from_spec(e: DecodeError) -> StorageError {
        StorageError { cause: StorageCause::Decode(e) }
    }
}

impl From<EncodeError> for StorageError {
    fn from(e: EncodeError) -> (r: StorageError) {
        StorageError { cause: StorageCause::Encode(e) }
    }
}

impl vstd::std_specs::convert::FromSpecImpl<EncodeError> for StorageError {
    open spec fn obeys_from_spec() -> bool {
        true
    }

    open spec fn from_spec(e: EncodeError) -> StorageError {
        StorageError { cause: StorageCause::Encode(e) }
    }
}

/// What every store operation returns.
pub type StorageResult<T> = Result<T, StorageError>;

/// The contract every backend must meet. A store holds the durable
/// records of three kinds of protocol state: one session record per peer,
/// at most one identity record, and one prekey record per prekey id.
///
/// Every operation takes the whole store exclusively, so conflicting
/// operations on the same key are serialized and a load never observes a
/// partially written record. Every write is atomic: it replaces the
/// record whole or, on failure, leaves the store exactly as it was.
///
/// A backend whose medium can fail — a disk, a database — may return an
/// I/O failure from any operation; what each contract pins down is
/// everything the operation may do besides. The in-memory reference
/// backend strengthens the contract: its medium never fails.
pub trait Store: Sized {
    /// The session records the store holds, keyed by peer id.
    spec fn sessions(&self) -> Map<Seq<char>, Seq<u8>>;

    /// The identity record the store holds, if one was ever provisioned.
    spec fn identity(&self) -> Option<Seq<u8>>;

    /// The prekey records the store holds, keyed by prekey id.
    spec fn prekeys(&self) -> Map<PreKeyId, Seq<u8>>;

    /// Loads the session of peer `id` and decodes it under the local
    /// identity `li`: `None` if the peer has none, the decoded session if
    /// its record decodes, and — apart from a medium failure — a decode
    /// failure exactly when the record is corrupt or was encoded under a
    /// different identity.
    fn load_session<'r>(&self, li: &'r IdentityKeyPair, id: &str) -> (r: StorageResult<
        Option<Session<'r>>,
    >)
        requires
            id@.len() > 0,
        ensures
            match r {
                Ok(None) => !self.sessions().contains_key(id@),
                Ok(Some(s)) => self.sessions().contains_key(id@) && s.local_identity == li
                    && decode_session_spec(li.material@, self.sessions()[id@]) == Ok::<
                    Seq<u8>,
                    DecodeError,
                >(s.state@),
                Err(e) => match e.cause {
                    StorageCause::Decode(d) => self.sessions().contains_key(id@)
                        && decode_session_spec(li.material@, self.sessions()[id@]) == Err::<
                        Seq<u8>,
                        DecodeError,
                    >(d),
                    StorageCause::Io(_) => true,
                    _ => false,
                },
            },
    ;

    /// Persists `s` as the session record of peer `id`, replacing any
    /// prior record whole. A failed save changes nothing; apart from a
    /// medium failure, it fails exactly when the session cannot be
    /// encoded.
    fn save_session<'r>(&mut self, id: &str, s: &Session<'r>) -> (r: StorageResult<()>)
        ensures
            match r {
                Ok(_) => s.encodable() && final(self).sessions() == old(self).sessions().insert(
                    id@,
                    encode_session_spec(s.local_identity.material@, s.state@),
                ),
                Err(e) => final(self).sessions() == old(self).sessions() && match e.cause {
                    StorageCause::Encode(EncodeError::FieldTooLarge) => !s.encodable(),
                    StorageCause::Io(_) => true,
                    _ => false,
                },
            },
            final(self).identity() == old(self).identity(),
            final(self).prekeys() == old(self).prekeys(),
    ;

    /// Deletes the session record of peer `id`. Idempotent: whether or
    /// not a record exists, it succeeds unless the medium fails, and a
    /// failed delete changes nothing.
    fn delete_session(&mut self, id: &str) -> (r: StorageResult<()>)
        ensures
            match r {
                Ok(_) => final(self).sessions() == old(self).sessions().remove(id@),
                Err(e) => (e.cause matches StorageCause::Io(_)) && final(self).sessions() == old(
                    self,
                ).sessions(),
            },
            final(self).identity() == old(self).identity(),
            final(self).prekeys() == old(self).prekeys(),
    ;

    /// Loads the local identity keypair: `None` if never provisioned, the
    /// decoded keypair if its record decodes, and — apart from a medium
    /// failure — a decode failure exactly when the record is corrupt.
    fn load_identity(&self) -> (r: StorageResult<Option<IdentityKeyPair>>)
        ensures
            match r {
                Ok(None) => self.identity() is None,
                Ok(Some(k)) => self.identity() matches Some(b) && decode_identity_spec(b) == Ok::<
                    Seq<u8>,
                    DecodeError,
                >(k.material@),
                Err(e) => match e.cause {
                    StorageCause::Decode(d) => self.identity() matches Some(b)
                        && decode_identity_spec(b) == Err::<Seq<u8>, DecodeError>(d),
                    StorageCause::Io(_) => true,
                    _ => false,
                },
            },
    ;

    /// Persists `id` as the local identity, replacing any existing record
    /// whole — a deliberate re-provisioning operation. A failed save
    /// changes nothing; apart from a medium failure, it fails exactly when
    /// the keypair cannot be encoded.
    fn save_identity(&mut self, id: &IdentityKeyPair) -> (r: StorageResult<()>)
        ensures
            match r {
                Ok(_) => id.encodable() && final(self).identity() == Some(
                    encode_identity_spec(id.material@),
                ),
                Err(e) => final(self).identity() == old(self).identity() && match e.cause {
                    StorageCause::Encode(EncodeError::FieldTooLarge) => !id.encodable(),
                    StorageCause::Io(_) => true,
                    _ => false,
                },
            },
            final(self).sessions() == old(self).sessions(),
            final(self).prekeys() == old(self).prekeys(),
    ;

    /// Loads the prekey stored under `id`: `None` if the id was never
    /// added or was consumed and deleted, the decoded prekey if its record
    /// decodes, and — apart from a medium failure — a decode failure
    /// exactly when the record is corrupt.
    fn load_prekey(&self, id: PreKeyId) -> (r: StorageResult<Option<PreKey>>)
        ensures
            match r {
                Ok(None) => !self.prekeys().contains_key(id),
                Ok(Some(k)) => self.prekeys().contains_key(id) && decode_prekey_spec(
                    self.prekeys()[id],
                ) == Ok::<(PreKeyId, Seq<u8>), DecodeError>((k.key_id, k.material@)),
                Err(e) => match e.cause {
                    StorageCause::Decode(d) => self.prekeys().contains_key(id)
                        && decode_prekey_spec(self.prekeys()[id]) == Err::<
                        (PreKeyId, Seq<u8>),
                        DecodeError,
                    >(d),
                    StorageCause::Io(_) => true,
                    _ => false,
                },
            },
    ;

    /// Persists `key` under its own id. A colliding, still-unconsumed id
    /// is silently overwritten: the caller owns id assignment and
    /// recycling. A failed add changes nothing; apart from a medium
    /// failure, it fails exactly when the prekey cannot be encoded.
    fn add_prekey(&mut self, key: &PreKey) -> (r: StorageResult<()>)
        ensures
            match r {
                Ok(_) => key.encodable() && final(self).prekeys() == old(self).prekeys().insert(
                    key.key_id,
                    encode_prekey_spec(key.key_id, key.material@),
                ),
                Err(e) => final(self).prekeys() == old(self).prekeys() && match e.cause {
                    StorageCause::Encode(EncodeError::FieldTooLarge) => !key.encodable(),
                    StorageCause::Io(_) => true,
                    _ => false,
                },
            },
            final(self).sessions() == old(self).sessions(),
            final(self).identity() == old(self).identity(),
    ;

    /// Deletes the prekey record under `id`. Idempotent: whether or not a
    /// record exists, it succeeds unless the medium fails; after a
    /// successful delete no load returns the id again.
    fn delete_prekey(&mut self, id: PreKeyId) -> (r: StorageResult<()>)
        ensures
            match r {
                Ok(_) => final(self).prekeys() == old(self).prekeys().remove(id),
                Err(e) => (e.cause matches StorageCause::Io(_)) && final(self).prekeys() == old(
                    self,
                ).prekeys(),
            },
            final(self).sessions() == old(self).sessions(),
            final(self).identity() == old(self).identity(),
    ;
}

} // verus!
