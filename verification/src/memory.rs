//! The reference in-memory backend of the store contract.
//!
//! Every operation takes the store by exclusive reference, so conflicting
//! operations on the same key are serialized by construction and each
//! record is replaced whole: a concurrent load can never observe a
//! byte-level mixture of two writes.

use crate::api::{DecodeError, EncodeError, Store, StorageCause, StorageError, StorageResult};
use crate::keys::{
    decode_identity_spec, decode_prekey_spec, encode_identity_spec, encode_prekey_spec,
    IdentityKeyPair, PreKey, PreKeyId,
};
use crate::session::{decode_session_spec, encode_session_spec, Session};
use vstd::hash_map::{HashMapWithView, StringHashMap};
use vstd::prelude::*;

verus! {

broadcast use vstd::std_specs::hash::group_hash_axioms;

/// The records a key-to-record table holds, each as its byte sequence.
pub open spec fn records_view<K>(m: Map<K, Vec<u8>>) -> Map<K, Seq<u8>> {
    m.map_values(|v: Vec<u8>| v@)
}

proof fn lemma_records_insert<K>(m: Map<K, Vec<u8>>, k: K, v: Vec<u8>)
    ensures
        records_view(m.insert(k, v)) == records_view(m).insert(k, v@),
{
    assert(records_view(m.insert(k, v)) =~= records_view(m).insert(k, v@));
}

proof fn lemma_records_remove<K>(m: Map<K, Vec<u8>>, k: K)
    ensures
        records_view(m.remove(k)) == records_view(m).remove(k),
{
    assert(records_view(m.remove(k)) =~= records_view(m).remove(k));
}

/// The reference backend: plain in-process tables, one record per key,
/// replaced whole on every write.
pub struct MemStore {
    sessions: StringHashMap<Vec<u8>>,
    identity: Option<Vec<u8>>,
    prekeys: HashMapWithView<PreKeyId, Vec<u8>>,
}

impl MemStore {
    /// A fresh store holding no session, no identity and no prekey.
    pub fn new() -> (r: MemStore)
        ensures
            r.sessions() == Map::<Seq<char>, Seq<u8>>::empty(),
            r.identity() is None,
            r.prekeys() == Map::<PreKeyId, Seq<u8>>::empty(),
    {
        let sessions = StringHashMap::<Vec<u8>>::new();
        let prekeys = HashMapWithView::<PreKeyId, Vec<u8>>::new();
        let r = MemStore { sessions, identity: None, prekeys };
        proof {
            assert(r.sessions() =~= Map::<Seq<char>, Seq<u8>>::empty());
            assert(r.prekeys() =~= Map::<PreKeyId, Seq<u8>>::empty());
        }
        r
    }

    /// Stores `record` verbatim as the session record of peer `id`,
    /// replacing any prior record whole. This is the atomic unit every
    /// session write goes through; conformance tests also use it to plant
    /// corrupt records.
    pub fn put_session_bytes(&mut self, id: &str, record: Vec<u8>)
        ensures
            final(self).sessions() == old(self).sessions().insert(id@, record@),
            final(self).identity() == old(self).identity(),
            final(self).prekeys() == old(self).prekeys(),
    {
        let key = String::from_str(id);
        let ghost m = self.sessions@;
        let ghost rec = record;
        self.sessions.insert(key, record);
        proof {
            lemma_records_insert(m, id@, rec);
        }
    }

    /// Stores `record` verbatim as the prekey record under `id`, replacing
    /// any prior record whole; the raw counterpart of `add_prekey`.
    pub fn put_prekey_bytes(&mut self, id: PreKeyId, record: Vec<u8>)
        ensures
            final(self).prekeys() == old(self).prekeys().insert(id, record@),
            final(self).sessions() == old(self).sessions(),
            final(self).identity() == old(self).identity(),
    {
        let ghost m = self.prekeys@;
        let ghost rec = record;
        self.prekeys.insert(id, record);
        proof {
            lemma_records_insert(m, id, rec);
        }
    }

    /// Stores `record` verbatim as the identity record, replacing any
    /// prior record whole; the raw counterpart of `save_identity`.
    pub fn put_identity_bytes(&mut self, record: Vec<u8>)
        ensures
            final(self).identity() == Some(record@),
            final(self).sessions() == old(self).sessions(),
            final(self).prekeys() == old(self).prekeys(),
    {
        self.identity = Some(record);
    }
}

impl Store for MemStore {
    closed spec fn sessions(&self) -> Map<Seq<char>, Seq<u8>> {
        records_view(self.sessions@)
    }

    closed spec fn identity(&self) -> Option<Seq<u8>> {
        match self.identity {
            Some(v) => Some(v@),
            None => None,
        }
    }

    closed spec fn prekeys(&self) -> Map<PreKeyId, Seq<u8>> {
        records_view(self.prekeys@)
    }

    fn load_session<'r>(&self, li: &'r IdentityKeyPair, id: &str) -> (r: StorageResult<
        Option<Session<'r>>,
    >)
        ensures
            match r {
                Ok(None) => !self.sessions().contains_key(id@),
                Ok(Some(s)) => self.sessions().contains_key(id@) && s.local_identity == li
                    && decode_session_spec(li.material@, self.sessions()[id@]) == Ok::<
                    Seq<u8>,
                    DecodeError,
                >(s.state@),
                Err(e) => self.sessions().contains_key(id@) && (e.cause matches
                StorageCause::Decode(d) && decode_session_spec(li.material@, self.sessions()[id@])
                    == Err::<Seq<u8>, DecodeError>(d)),
            },
    {
        match self.sessions.get(id) {
            None => Ok(None),
            Some(record) => {
                proof {
                    assert(self.sessions()[id@] == record@);
                }
                match Session::deserialise(li, record) {
                    Ok(s) => Ok(Some(s)),
                    Err(e) => Err(StorageError { cause: StorageCause::Decode(e) }),
                }
            },
        }
    }

    fn save_session<'r>(&mut self, id: &str, s: &Session<'r>) -> (r: StorageResult<()>)
        ensures
            match r {
                Ok(_) => s.encodable() && final(self).sessions() == old(self).sessions().insert(
                    id@,
                    encode_session_spec(s.local_identity.material@, s.state@),
                ),
                Err(e) => !s.encodable() && (e.cause matches StorageCause::Encode(
                    EncodeError::FieldTooLarge,
                )) && final(self).sessions() == old(self).sessions(),
            },
    {
        match s.serialise() {
            Ok(record) => {
                self.put_session_bytes(id, record);
                Ok(())
            },
            Err(e) => Err(StorageError { cause: StorageCause::Encode(e) }),
        }
    }

    fn delete_session(&mut self, id: &str) -> (r: StorageResult<()>)
        ensures
            r matches Ok(_),
    {
        let ghost m = self.sessions@;
        self.sessions.remove(id);
        proof {
            lemma_records_remove(m, id@);
        }
        Ok(())
    }

    fn load_identity(&self) -> (r: StorageResult<Option<IdentityKeyPair>>)
        ensures
            match r {
                Ok(None) => self.identity() is None,
                Ok(Some(k)) => self.identity() matches Some(b) && decode_identity_spec(b) == Ok::<
                    Seq<u8>,
                    DecodeError,
                >(k.material@),
                Err(e) => self.identity() matches Some(b) && (e.cause matches StorageCause::Decode(
                    d,
                ) && decode_identity_spec(b) == Err::<Seq<u8>, DecodeError>(d)),
            },
    {
        match &self.identity {
            None => Ok(None),
            Some(record) => match IdentityKeyPair::deserialise(record) {
                Ok(k) => Ok(Some(k)),
                Err(e) => Err(StorageError { cause: StorageCause::Decode(e) }),
            },
        }
    }

    fn save_identity(&mut self, id: &IdentityKeyPair) -> (r: StorageResult<()>)
        ensures
            match r {
                Ok(_) => id.encodable() && final(self).identity() == Some(
                    encode_identity_spec(id.material@),
                ),
                Err(e) => !id.encodable() && (e.cause matches StorageCause::Encode(
                    EncodeError::FieldTooLarge,
                )) && final(self).identity() == old(self).identity(),
            },
    {
        match id.serialise() {
            Ok(record) => {
                self.put_identity_bytes(record);
                Ok(())
            },
            Err(e) => Err(StorageError { cause: StorageCause::Encode(e) }),
        }
    }

    fn load_prekey(&self, id: PreKeyId) -> (r: StorageResult<Option<PreKey>>)
        ensures
            match r {
                Ok(None) => !self.prekeys().contains_key(id),
                Ok(Some(k)) => self.prekeys().contains_key(id) && decode_prekey_spec(
                    self.prekeys()[id],
                ) == Ok::<(PreKeyId, Seq<u8>), DecodeError>((k.key_id, k.material@)),
                Err(e) => self.prekeys().contains_key(id) && (e.cause matches StorageCause::Decode(
                    d,
                ) && decode_prekey_spec(self.prekeys()[id]) == Err::<
                    (PreKeyId, Seq<u8>),
                    DecodeError,
                >(d)),
            },
    {
        match self.prekeys.get(&id) {
            None => Ok(None),
            Some(record) => {
                proof {
                    assert(self.prekeys()[id] == record@);
                }
                match PreKey::deserialise(record) {
                    Ok(k) => Ok(Some(k)),
                    Err(e) => Err(StorageError { cause: StorageCause::Decode(e) }),
                }
            },
        }
    }

    fn add_prekey(&mut self, key: &PreKey) -> (r: StorageResult<()>)
        ensures
            match r {
                Ok(_) => key.encodable() && final(self).prekeys() == old(self).prekeys().insert(
                    key.key_id,
                    encode_prekey_spec(key.key_id, key.material@),
                ),
                Err(e) => !key.encodable() && (e.cause matches StorageCause::Encode(
                    EncodeError::FieldTooLarge,
                )) && final(self).prekeys() == old(self).prekeys(),
            },
    {
        match key.serialise() {
            Ok(record) => {
                self.put_prekey_bytes(key.key_id, record);
                Ok(())
            },
            Err(e) => Err(StorageError { cause: StorageCause::Encode(e) }),
        }
    }

    fn delete_prekey(&mut self, id: PreKeyId) -> (r: StorageResult<()>)
        ensures
            r matches Ok(_),
    {
        let ghost m = self.prekeys@;
        let _ = self.prekeys.remove(&id);
        proof {
            lemma_records_remove(m, id);
        }
        Ok(())
    }
}

} // verus!
