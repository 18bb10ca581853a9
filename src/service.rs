//! The key service: creates, summarises, opens and deletes key records.
//! Key material and nonces live only for the length of one call.

use vstd::prelude::*;
use vstd::utf8::encode_utf8;
use crate::encryption::{
    decrypt_data, open_data_outcome, payload_fits, seal_data, seal_data_spec, string_result,
};
use crate::error::KeyError;
use crate::model::{summary_matches, CreateKeyRequest, Key, KeyRecord, KeyResponse};
use crate::nonce::{next_nonce, NONCE_LEN};
use crate::store::{new_record, MemoryKeyStore};

verus! {

/// The answer to a lookup of `id`: the summary of the record found, or
/// `NotFound`. A record found under another id is no answer.
pub fn lookup_summary(id: u64, found: Option<Key>) -> (r: Result<KeyResponse, KeyError>)
    ensures
        match found {
            Some(k) => if k.id == id {
                r matches Ok(resp) && resp.id == id && summary_matches(resp, k@)
            } else {
                r == Err::<KeyResponse, KeyError>(KeyError::NotFound)
            },
            None => r == Err::<KeyResponse, KeyError>(KeyError::NotFound),
        },
{
    match found {
        Some(k) => {
            if k.id == id {
                Ok(KeyResponse::from_key(&k))
            } else {
                Err(KeyError::NotFound)
            }
        },
        None => Err(KeyError::NotFound),
    }
}

/// The key service over a store of key records.
pub struct KeyService {
    store: MemoryKeyStore,
}

impl View for KeyService {
    type V = Map<u64, KeyRecord>;

    closed spec fn view(&self) -> Map<u64, KeyRecord> {
        self.store@
    }
}

impl KeyService {
    /// The service's internal invariant.
    pub closed spec fn wf(&self) -> bool {
        self.store.wf()
    }

    /// No record id is left to assign.
    pub closed spec fn is_full(&self) -> bool {
        self.store.is_full()
    }

    /// A service over an empty store.
    pub fn new() -> (r: KeyService)
        ensures
            r.wf(),
            r@ == Map::<u64, KeyRecord>::empty(),
            !r.is_full(),
    {
        KeyService { store: MemoryKeyStore::new() }
    }

    /// Creates a record for `request`, sealing its data under the key
    /// derived from `encryption_key` with the given nonce, stamped `now`.
    /// Returns the record's summary; nothing is stored on failure.
    pub fn create_key_with(
        &mut self,
        request: CreateKeyRequest,
        encryption_key: &str,
        nonce: &[u8],
        now: i64,
    ) -> (r: Result<KeyResponse, KeyError>)
        requires
            old(self).wf(),
            payload_fits(encode_utf8(request.data@).len() as int),
        ensures
            final(self).wf(),
            match seal_data_spec(request.data@, encryption_key@, nonce@) {
                Err(e) => r == Err::<KeyResponse, KeyError>(e) && final(self)@ == old(self)@
                    && final(self).is_full() == old(self).is_full(),
                Ok(text) => if old(self).is_full() {
                    r == Err::<KeyResponse, KeyError>(KeyError::PersistenceError) && final(self)@
                        == old(self)@ && final(self).is_full()
                } else {
                    match r {
                        Ok(resp) => !old(self)@.contains_key(resp.id) && resp.name@
                            == request.name@ && resp.created_at == now && final(self)@ == old(
                            self,
                        )@.insert(resp.id, new_record(resp.id, request.name@, text, now)),
                        Err(_) => false,
                    }
                },
            },
    {
        let encrypted = match seal_data(request.data.as_str(), encryption_key, nonce) {
            Ok(t) => t,
            Err(e) => return Err(e),
        };
        let name = request.name;
        let id = match self.store.create_key(name.clone(), encrypted, now) {
            Ok(id) => id,
            Err(e) => return Err(e),
        };
        Ok(KeyResponse { id, name, created_at: now })
    }

    /// Creates a record for `request`, sealing its data under the key
    /// derived from `encryption_key` with a fresh random nonce, stamped
    /// `now` by the caller. An empty secret fails with `InvalidKeyMaterial`.
    pub fn create_key(&mut self, request: CreateKeyRequest, encryption_key: &str, now: i64) -> (r:
        Result<KeyResponse, KeyError>)
        requires
            old(self).wf(),
            payload_fits(encode_utf8(request.data@).len() as int),
        ensures
            final(self).wf(),
            encryption_key@.len() == 0 ==> r == Err::<KeyResponse, KeyError>(
                KeyError::InvalidKeyMaterial,
            ),
            match r {
                Ok(resp) => !old(self)@.contains_key(resp.id) && resp.name@ == request.name@
                    && resp.created_at == now && exists|n: Seq<u8>|
                    n.len() == NONCE_LEN && #[trigger] seal_data_spec(
                        request.data@,
                        encryption_key@,
                        n,
                    ) is Ok && final(self)@ == old(self)@.insert(
                        resp.id,
                        new_record(
                            resp.id,
                            request.name@,
                            seal_data_spec(request.data@, encryption_key@, n)->Ok_0,
                            resp.created_at,
                        ),
                    ),
                Err(e) => final(self)@ == old(self)@ && (e == KeyError::RandomnessUnavailable
                    || (e == KeyError::PersistenceError && old(self).is_full()) || (e
                    == KeyError::InvalidKeyMaterial && encryption_key@.len() == 0)),
            },
    {
        if encryption_key.is_empty() {
            return Err(KeyError::InvalidKeyMaterial);
        }
        let nonce = match next_nonce() {
            Ok(n) => n,
            Err(e) => return Err(e),
        };
        let ghost data = request.data@;
        let r = self.create_key_with(request, encryption_key, nonce.as_slice(), now);
        proof {
            if r is Ok {
                assert(seal_data_spec(data, encryption_key@, nonce@) is Ok);
            }
        }
        r
    }

    /// The summary of the record with id `id`, or `NotFound`.
    pub fn get_key(&self, id: u64) -> (r: Result<KeyResponse, KeyError>)
        requires
            self.wf(),
        ensures
            match r {
                Ok(resp) => self@.contains_key(id) && resp.id == id && summary_matches(
                    resp,
                    self@[id],
                ),
                Err(e) => !self@.contains_key(id) && e == KeyError::NotFound,
            },
    {
        lookup_summary(id, self.store.get_key_by_id(id))
    }

    /// Opens the data of the record with id `id` with the key derived from
    /// `encryption_key`; `NotFound` when there is no such record.
    pub fn decrypt_key(&self, id: u64, encryption_key: &str) -> (r: Result<String, KeyError>)
        requires
            self.wf(),
        ensures
            !self@.contains_key(id) ==> r == Err::<String, KeyError>(KeyError::NotFound),
            self@.contains_key(id) ==> open_data_outcome(
                self@[id].encrypted_data,
                encryption_key@,
                string_result(r),
            ),
    {
        match self.store.get_key_by_id(id) {
            Some(k) => decrypt_data(k.encrypted_data.as_str(), encryption_key),
            None => Err(KeyError::NotFound),
        }
    }

    /// Deletes the record with id `id`; `NotFound`, with nothing changed,
    /// when there is no such record.
    pub fn delete_key(&mut self, id: u64) -> (r: Result<(), KeyError>)
        requires
            old(self).wf(),
        ensures
            final(self).wf(),
            final(self)@ == old(self)@.remove(id),
            final(self).is_full() == old(self).is_full(),
            r is Ok <==> old(self)@.contains_key(id),
            r matches Err(e) ==> e == KeyError::NotFound,
    {
        if self.store.get_key_by_id(id).is_none() {
            return Err(KeyError::NotFound);
        }
        self.store.delete_key(id);
        Ok(())
    }
}

} // verus!
