//! The store's lifecycle laws, each proved over the record tables the
//! `Store` contract is stated over.

use crate::api::DecodeError;
use crate::keys::{
    decode_identity_spec, decode_prekey_spec, encode_identity_spec, encode_prekey_spec,
    identity_encodable, lemma_identity_round_trip, lemma_prekey_round_trip, prekey_encodable,
    PreKeyId,
};
use crate::session::{
    decode_session_spec, encode_session_spec, lemma_session_round_trip, session_encodable,
};
use vstd::prelude::*;

verus! {

/// Law: a session saved for a peer loads back as the session that was
/// saved — the record written under `id` decodes, under the identity it
/// was encoded with, to the very state that was serialised.
pub proof fn lemma_session_save_load(
    sessions: Map<Seq<char>, Seq<u8>>,
    id: Seq<char>,
    ident: Seq<u8>,
    state: Seq<u8>,
)
    requires
        session_encodable(ident, state),
    ensures
        ({
            let saved = sessions.insert(id, encode_session_spec(ident, state));
            saved.contains_key(id) && decode_session_spec(ident, saved[id]) == Ok::<
                Seq<u8>,
                DecodeError,
            >(state)
        }),
{
    lemma_session_round_trip(ident, state);
}

/// Law: a prekey added under its id loads back as the prekey that was
/// added, for as long as it is not deleted.
pub proof fn lemma_prekey_add_load(prekeys: Map<PreKeyId, Seq<u8>>, id: PreKeyId, material: Seq<u8>)
    requires
        prekey_encodable(material),
    ensures
        ({
            let added = prekeys.insert(id, encode_prekey_spec(id, material));
            added.contains_key(id) && decode_prekey_spec(added[id]) == Ok::<
                (PreKeyId, Seq<u8>),
                DecodeError,
            >((id, material))
        }),
{
    lemma_prekey_round_trip(id, material);
}

/// Law: deleting a peer's session is idempotent — a second delete leaves
/// exactly the table the first left, and deleting a peer never saved
/// leaves the table as it was.
pub proof fn lemma_delete_session_idempotent(sessions: Map<Seq<char>, Seq<u8>>, id: Seq<char>)
    ensures
        sessions.remove(id).remove(id) == sessions.remove(id),
        !sessions.contains_key(id) ==> sessions.remove(id) == sessions,
{
    assert(sessions.remove(id).remove(id) =~= sessions.remove(id));
    if !sessions.contains_key(id) {
        assert(sessions.remove(id) =~= sessions);
    }
}

/// Law: a consumed prekey id stays consumed — after the delete the table
/// holds nothing under the id, and deleting again changes nothing, so no
/// later load can return the id until it is deliberately added anew.
pub proof fn lemma_prekey_consumed(prekeys: Map<PreKeyId, Seq<u8>>, id: PreKeyId)
    ensures
        !prekeys.remove(id).contains_key(id),
        prekeys.remove(id).remove(id) == prekeys.remove(id),
{
    assert(prekeys.remove(id).remove(id) =~= prekeys.remove(id));
}

/// Law: two whole-record saves for the same peer end in the second record
/// exactly — the last write wins, and what is held under the peer's key is
/// one record in full, never a mixture of the two.
pub proof fn lemma_save_session_last_write_wins(
    sessions: Map<Seq<char>, Seq<u8>>,
    id: Seq<char>,
    first: Seq<u8>,
    second: Seq<u8>,
)
    ensures
        sessions.insert(id, first).insert(id, second) == sessions.insert(id, second),
        sessions.insert(id, first).insert(id, second)[id] == second,
{
    assert(sessions.insert(id, first).insert(id, second) =~= sessions.insert(id, second));
}

/// Law: re-provisioning overwrites — the identity slot holds only the
/// record of the last save, so once a second keypair replaces a first, a
/// load decodes to the second's material and can no longer return the
/// first's.
pub proof fn lemma_identity_overwrite(first: Seq<u8>, second: Seq<u8>)
    requires
        identity_encodable(first),
        identity_encodable(second),
        first != second,
    ensures
        decode_identity_spec(encode_identity_spec(second)) == Ok::<Seq<u8>, DecodeError>(second),
        decode_identity_spec(encode_identity_spec(second)) != Ok::<Seq<u8>, DecodeError>(first),
{
    lemma_identity_round_trip(second);
}

} // verus!
