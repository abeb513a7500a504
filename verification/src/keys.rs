//! The credential store: symmetric key material under caller-chosen
//! identifiers, with key creation from operating-system randomness. Deletion
//! is a deliberate capability gap and always fails.
use vstd::prelude::*;

verus! {

use rand::RngCore;
use crate::fsmap::FileMap;
use crate::text::{bytes_to_hex, copy_bytes};

pub const KEY_DIR: &'static str = "/opt/verdictd/keys";

/// Relies on rand::rngs::OsRng: fills a fresh buffer from the operating
/// system's randomness source. Nothing is promised of the bytes beyond
/// their count; failure reports the source being unavailable.
#[verifier::external_body]
fn os_random_bytes(n: usize) -> (r: Option<Vec<u8>>)
    ensures
        match r {
            Some(v) => v@.len() == n,
            None => true,
        },
{
    let mut buf = vec![0u8; n];
    match rand::rngs::OsRng.try_fill_bytes(&mut buf) {
        Ok(()) => Some(buf),
        Err(_) => None,
    }
}

/// Durable storage of symmetric keys, one entry per identifier, rooted at
/// `key_dir`. All material lives in the identifier-to-bytes map this models.
pub struct KeyManager {
    pub key_dir: String,
    pub tree: FileMap,
}

impl View for KeyManager {
    type V = Map<Seq<char>, Seq<u8>>;

    closed spec fn view(&self) -> Map<Seq<char>, Seq<u8>> {
        self.tree@
    }
}

impl KeyManager {
    pub closed spec fn wf(self) -> bool {
        self.tree.wf()
    }

    pub fn default() -> (r: Result<KeyManager, String>)
        ensures
            match r {
                Ok(km) => km.wf() && km@ == Map::<Seq<char>, Seq<u8>>::empty() && km.key_dir@
                    == KEY_DIR@,
                Err(_) => false,
            },
    {
        Self::new(KEY_DIR)
    }

    pub fn new(key_dir: &str) -> (r: Result<KeyManager, String>)
        ensures
            match r {
                Ok(km) => km.wf() && km@ == Map::<Seq<char>, Seq<u8>>::empty() && km.key_dir@
                    == key_dir@,
                Err(_) => false,
            },
    {
        Ok(KeyManager { key_dir: key_dir.to_owned(), tree: FileMap::new() })
    }

    /// The key material stored under the identifier.
    pub fn get_key(&self, key_id: &str) -> (r: Result<Vec<u8>, String>)
        requires
            self.wf(),
        ensures
            match r {
                Ok(v) => self@.contains_key(key_id@) && v@ == self@[key_id@],
                Err(_) => !self@.contains_key(key_id@),
            },
    {
        match self.tree.get(key_id) {
            Some(v) => Ok(v),
            None => Err(String::from_str("read key failed")),
        }
    }

    /// Stores key material under the identifier, overwriting any previous
    /// material: last writer wins.
    pub fn set_key(&mut self, key_id: &str, key: &[u8]) -> (r: Result<(), String>)
        requires
            old(self).wf(),
        ensures
            final(self).wf(),
            r is Ok,
            final(self)@ == old(self)@.insert(key_id@, key@),
            final(self).key_dir == old(self).key_dir,
    {
        self.tree.upsert(key_id.to_owned(), copy_bytes(key));
        Ok(())
    }

    /// Creates a fresh identifier and 32 bytes of random key material,
    /// stores them, and returns both. Fails only when the randomness source
    /// is unavailable, leaving the store unchanged.
    pub fn create_key(&mut self) -> (r: Result<(String, Vec<u8>), String>)
        requires
            old(self).wf(),
        ensures
            final(self).wf(),
            final(self).key_dir == old(self).key_dir,
            match r {
                Ok((id, key)) => id@.len() == 32 && key@.len() == 32 && final(self)@ == old(
                    self,
                )@.insert(id@, key@),
                Err(_) => final(self)@ == old(self)@,
            },
    {
        let id_bytes = match os_random_bytes(16) {
            Some(v) => v,
            None => {
                return Err(String::from_str("randomness source unavailable"));
            },
        };
        let key = match os_random_bytes(32) {
            Some(v) => v,
            None => {
                return Err(String::from_str("randomness source unavailable"));
            },
        };
        let id = bytes_to_hex(id_bytes.as_slice());
        let key_copy = copy_bytes(key.as_slice());
        let _ = self.set_key(id.as_str(), key.as_slice());
        Ok((id, key_copy))
    }

    /// Key deletion is not offered: every request fails and the store is
    /// untouched.
    pub fn delete_key(&self, _key_id: &str) -> (r: Result<(), String>)
        ensures
            r is Err,
    {
        Err(String::from_str("Not Implemented"))
    }
}

} // verus!
