//! The key record and the request and response shapes of the service.

use vstd::prelude::*;

verus! {

/// A stored key record. Timestamps are whole seconds since the Unix epoch.
pub struct Key {
    pub id: u64,
    pub name: String,
    /// The base64 envelope of the encrypted payload.
    pub encrypted_data: String,
    pub created_at: i64,
    pub updated_at: i64,
}

/// The abstract content of a key record.
pub struct KeyRecord {
    pub id: u64,
    pub name: Seq<char>,
    pub encrypted_data: Seq<char>,
    pub created_at: i64,
    pub updated_at: i64,
}

impl View for Key {
    type V = KeyRecord;

    open spec fn view(&self) -> KeyRecord {
        KeyRecord {
            id: self.id,
            name: self.name@,
            encrypted_data: self.encrypted_data@,
            created_at: self.created_at,
            updated_at: self.updated_at,
        }
    }
}

impl Key {
    /// A field-by-field copy of the record.
    pub fn duplicate(&self) -> (r: Key)
        ensures
            r@ == self@,
    {
        Key {
            id: self.id,
            name: self.name.clone(),
            encrypted_data: self.encrypted_data.clone(),
            created_at: self.created_at,
            updated_at: self.updated_at,
        }
    }
}

/// A request to create a key record: its name and the data to protect.
pub struct CreateKeyRequest {
    pub name: String,
    pub data: String,
}

/// The non-sensitive summary of a key record.
pub struct KeyResponse {
    pub id: u64,
    pub name: String,
    pub created_at: i64,
}

/// A request that names a key record by its id, as text.
pub struct KeyRequest {
    pub key_id: String,
}

/// The summary of a record: its id, name and creation time.
pub open spec fn summary_matches(resp: KeyResponse, rec: KeyRecord) -> bool {
    resp.id == rec.id && resp.name@ == rec.name && resp.created_at == rec.created_at
}

impl KeyResponse {
    /// The summary of a stored record.
    pub fn from_key(key: &Key) -> (r: KeyResponse)
        ensures
            summary_matches(r, key@),
    {
        KeyResponse { id: key.id, name: key.name.clone(), created_at: key.created_at }
    }
}

} // verus!
