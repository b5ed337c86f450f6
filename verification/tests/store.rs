use cryptobox_store::api::{DecodeError, EncodeError, Store, StorageCause, StorageError};
use cryptobox_store::keys::{IdentityKeyPair, PreKey};
use cryptobox_store::memory::MemStore;
use cryptobox_store::session::Session;

fn identity(material: &[u8]) -> IdentityKeyPair {
    IdentityKeyPair { material: material.to_vec() }
}

#[test]
fn session_round_trip() {
    let li = identity(&[10, 20, 30]);
    let mut st = MemStore::new();
    let s = Session { local_identity: &li, state: vec![1, 2, 3, 4] };
    st.save_session("alice", &s).unwrap();
    let got = st.load_session(&li, "alice").unwrap().unwrap();
    assert_eq!(got.state, vec![1, 2, 3, 4]);
    assert_eq!(got.local_identity.material, li.material);
}

#[test]
fn session_round_trip_empty_state() {
    let li = identity(&[]);
    let mut st = MemStore::new();
    let s = Session { local_identity: &li, state: Vec::new() };
    st.save_session("bob", &s).unwrap();
    let got = st.load_session(&li, "bob").unwrap().unwrap();
    assert_eq!(got.state, Vec::<u8>::new());
}

#[test]
fn missing_keys_return_none_not_error() {
    let li = identity(&[1]);
    let st = MemStore::new();
    assert!(st.load_session(&li, "unknown-peer").unwrap().is_none());
    assert!(st.load_prekey(9999).unwrap().is_none());
    assert!(st.load_identity().unwrap().is_none());
}

#[test]
fn delete_session_idempotent() {
    let li = identity(&[5]);
    let mut st = MemStore::new();
    assert!(st.delete_session("never-saved").is_ok());
    assert!(st.delete_session("never-saved").is_ok());
    let s = Session { local_identity: &li, state: vec![7] };
    st.save_session("carol", &s).unwrap();
    assert!(st.delete_session("carol").is_ok());
    assert!(st.delete_session("carol").is_ok());
    assert!(st.load_session(&li, "carol").unwrap().is_none());
}

#[test]
fn prekey_consumed_once() {
    let mut st = MemStore::new();
    let k = PreKey { key_id: 7, material: vec![0xAB, 0xCD] };
    st.add_prekey(&k).unwrap();
    let loaded = st.load_prekey(7).unwrap().unwrap();
    assert_eq!(loaded, k);
    st.delete_prekey(7).unwrap();
    assert!(st.load_prekey(7).unwrap().is_none());
    // not resurrected by further loads or deletes
    assert!(st.load_prekey(7).unwrap().is_none());
    st.delete_prekey(7).unwrap();
    assert!(st.load_prekey(7).unwrap().is_none());
}

#[test]
fn save_session_last_write_wins() {
    let li = identity(&[9, 9]);
    let mut st = MemStore::new();
    let s1 = Session { local_identity: &li, state: vec![1; 40] };
    let s2 = Session { local_identity: &li, state: vec![2; 7] };
    st.save_session("dave", &s1).unwrap();
    st.save_session("dave", &s2).unwrap();
    let got = st.load_session(&li, "dave").unwrap().unwrap();
    // the second record in full, never a mixture of the two
    assert_eq!(got.state, vec![2; 7]);
}

#[test]
fn identity_overwrite() {
    let id1 = identity(&[1, 1, 1]);
    let id2 = identity(&[2, 2]);
    let mut st = MemStore::new();
    st.save_identity(&id1).unwrap();
    let s = Session { local_identity: &id1, state: vec![42] };
    st.save_session("erin", &s).unwrap();
    let in_memory = st.load_session(&id1, "erin").unwrap().unwrap();
    st.save_identity(&id2).unwrap();
    let got = st.load_identity().unwrap().unwrap();
    assert_eq!(got.material, id2.material);
    // the session already decoded into memory is untouched by the overwrite
    assert_eq!(in_memory.state, vec![42]);
}

#[test]
fn prekey_record_layout_is_big_endian() {
    let k = PreKey { key_id: 0x0102, material: vec![0xAA, 0xBB, 0xCC] };
    let rec = k.serialise().unwrap();
    assert_eq!(rec, vec![1, 0x01, 0x02, 0x00, 0x03, 0xAA, 0xBB, 0xCC]);
    let back = PreKey::deserialise(&rec).unwrap();
    assert_eq!(back, k);
}

#[test]
fn identity_record_layout() {
    let k = identity(&[0xDE, 0xAD]);
    let rec = k.serialise().unwrap();
    assert_eq!(rec, vec![1, 0x00, 0x02, 0xDE, 0xAD]);
    let back = IdentityKeyPair::deserialise(&rec).unwrap();
    assert_eq!(back.material, vec![0xDE, 0xAD]);
}

#[test]
fn session_record_layout() {
    let li = identity(&[0x0F]);
    let s = Session { local_identity: &li, state: vec![0x10, 0x11] };
    let rec = s.serialise().unwrap();
    assert_eq!(rec, vec![1, 0x00, 0x01, 0x0F, 0x00, 0x02, 0x10, 0x11]);
    let back = Session::deserialise(&li, &rec).unwrap();
    assert_eq!(back.state, vec![0x10, 0x11]);
}

#[test]
fn decode_truncated() {
    assert_eq!(PreKey::deserialise(&vec![1, 0, 5]), Err(DecodeError::Truncated));
    // announces four bytes of material, holds two
    assert_eq!(
        PreKey::deserialise(&vec![1, 0, 7, 0, 4, 0xAA, 0xBB]),
        Err(DecodeError::Truncated)
    );
    assert_eq!(IdentityKeyPair::deserialise(&vec![1, 0, 1]).unwrap_err(), DecodeError::Truncated);
}

#[test]
fn decode_bad_version() {
    assert_eq!(PreKey::deserialise(&vec![2, 0, 7, 0, 0]), Err(DecodeError::BadVersion));
    assert_eq!(
        IdentityKeyPair::deserialise(&vec![0, 0, 0]).unwrap_err(),
        DecodeError::BadVersion
    );
}

#[test]
fn decode_trailing_bytes() {
    assert_eq!(
        PreKey::deserialise(&vec![1, 0, 7, 0, 1, 0xFF, 0x00]),
        Err(DecodeError::TrailingBytes)
    );
    assert_eq!(
        IdentityKeyPair::deserialise(&vec![1, 0, 0, 9]).unwrap_err(),
        DecodeError::TrailingBytes
    );
}

#[test]
fn decode_wrong_identity() {
    let li1 = identity(&[1, 2, 3]);
    let li2 = identity(&[4, 5, 6]);
    let mut st = MemStore::new();
    let s = Session { local_identity: &li1, state: vec![8, 8] };
    st.save_session("frank", &s).unwrap();
    let err = st.load_session(&li2, "frank").unwrap_err();
    assert!(matches!(err.cause, StorageCause::Decode(DecodeError::WrongIdentity)));
}

#[test]
fn corrupt_record_surfaces_decode_error() {
    let li = identity(&[1]);
    let mut st = MemStore::new();
    st.put_session_bytes("grace", vec![2, 0, 0]);
    let err = st.load_session(&li, "grace").unwrap_err();
    assert!(matches!(err.cause, StorageCause::Decode(DecodeError::BadVersion)));
    st.put_session_bytes("grace", vec![1]);
    let err = st.load_session(&li, "grace").unwrap_err();
    assert!(matches!(err.cause, StorageCause::Decode(DecodeError::Truncated)));
}

#[test]
fn session_decode_rejects_malformed_records() {
    let li = identity(&[0x0F]);
    // announces a one-byte tag, ends before the state length
    assert_eq!(
        Session::deserialise(&li, &vec![1, 0x00, 0x01, 0x0F]).unwrap_err(),
        DecodeError::Truncated
    );
    // announces two state bytes, holds one
    assert_eq!(
        Session::deserialise(&li, &vec![1, 0x00, 0x01, 0x0F, 0x00, 0x02, 0x10]).unwrap_err(),
        DecodeError::Truncated
    );
    // one byte too many after the state
    assert_eq!(
        Session::deserialise(&li, &vec![1, 0x00, 0x01, 0x0F, 0x00, 0x01, 0x10, 0x99]).unwrap_err(),
        DecodeError::TrailingBytes
    );
    // a well-formed record of another identity
    let other = identity(&[0xEE]);
    assert_eq!(
        Session::deserialise(&other, &vec![1, 0x00, 0x01, 0x0F, 0x00, 0x01, 0x10]).unwrap_err(),
        DecodeError::WrongIdentity
    );
}

#[test]
fn oversized_material_is_an_encode_error() {
    let mut st = MemStore::new();
    let k = PreKey { key_id: 1, material: vec![0; 0x10000] };
    assert_eq!(k.serialise(), Err(EncodeError::FieldTooLarge));
    let err = st.add_prekey(&k).unwrap_err();
    assert!(matches!(err.cause, StorageCause::Encode(EncodeError::FieldTooLarge)));
    // a failed save changes nothing
    assert!(st.load_prekey(1).unwrap().is_none());
    let big_id = IdentityKeyPair { material: vec![0; 0x10000] };
    let err = st.save_identity(&big_id).unwrap_err();
    assert!(matches!(err.cause, StorageCause::Encode(EncodeError::FieldTooLarge)));
    assert!(st.load_identity().unwrap().is_none());
}

#[test]
fn largest_material_round_trips() {
    let mut st = MemStore::new();
    let k = PreKey { key_id: 3, material: vec![7; 0xFFFF] };
    st.add_prekey(&k).unwrap();
    let got = st.load_prekey(3).unwrap().unwrap();
    assert_eq!(got, k);
}

#[test]
fn add_prekey_overwrites_colliding_id() {
    let mut st = MemStore::new();
    let k1 = PreKey { key_id: 4, material: vec![1] };
    let k2 = PreKey { key_id: 4, material: vec![2, 2] };
    st.add_prekey(&k1).unwrap();
    st.add_prekey(&k2).unwrap();
    assert_eq!(st.load_prekey(4).unwrap().unwrap(), k2);
}

#[test]
fn error_messages_name_the_failure_class() {
    let io = StorageError { cause: StorageCause::Io(String::from("medium unavailable")) };
    assert_eq!(io.message(), "storage i/o failure");
    let codec = StorageError { cause: StorageCause::Codec(String::from("short write")) };
    assert_eq!(codec.message(), "binary codec failure");
    let dec = StorageError::from(DecodeError::Truncated);
    assert_eq!(dec.message(), "stored record cannot be decoded");
    assert!(matches!(dec.cause, StorageCause::Decode(DecodeError::Truncated)));
    let enc = StorageError::from(EncodeError::FieldTooLarge);
    assert_eq!(enc.message(), "entity cannot be encoded");
    assert!(matches!(enc.cause, StorageCause::Encode(EncodeError::FieldTooLarge)));
}

#[test]
fn raw_record_writes_replace_whole_values() {
    let li = identity(&[3, 3]);
    let mut st = MemStore::new();
    let s = Session { local_identity: &li, state: vec![1, 2, 3] };
    let rec = s.serialise().unwrap();
    st.put_session_bytes("heidi", rec);
    let got = st.load_session(&li, "heidi").unwrap().unwrap();
    assert_eq!(got.state, vec![1, 2, 3]);
    let id_rec = li.serialise().unwrap();
    st.put_identity_bytes(id_rec);
    assert_eq!(st.load_identity().unwrap().unwrap().material, li.material);
    let k = PreKey { key_id: 11, material: vec![9] };
    let k_rec = k.serialise().unwrap();
    st.put_prekey_bytes(11, k_rec);
    assert_eq!(st.load_prekey(11).unwrap().unwrap(), k);
}
