//! The resource store: opaque provisioning documents under caller-chosen
//! relative identifiers, rooted at a base directory, bootstrapped with a
//! default policy and sigstore document.
use vstd::prelude::*;

verus! {

use vstd::string::*;
use crate::encoding::{b64_encode, b64_of};
use crate::file::seeded;
use crate::fsmap::FileMap;
use crate::text::copy_bytes;

pub const RESOURCE_DIR: &'static str = "/opt/verdictd/resources";

pub const DEFAULT_POLICY_ID: &'static str = "default/security-policy/test";

pub const DEFAULT_SIGSTORE_ID: &'static str = "default/sigstore-config/test";

/// The policy document the store seeds on first start; deployments rely on
/// these exact bytes.
pub const SEED_POLICY_DOC: &'static str =
    "{\n                \"default\": [\n                    {\n                        \"type\": \"insecureAcceptAnything\"\n                    }\n                ],\n            }";

/// The sigstore document the store seeds on first start.
pub const SEED_SIGSTORE_DOC: &'static str =
    "default:\n    sigstore: file:///var/lib/containers/sigstore\n";

/// Durable storage of opaque resources, one entry per relative identifier,
/// rooted at `resource_dir`.
pub struct Resources {
    pub resource_dir: String,
    pub tree: FileMap,
}

/// The identifier-to-content map a freshly bootstrapped store holds.
pub open spec fn bootstrapped() -> Map<Seq<char>, Seq<u8>> {
    seeded(
        seeded(Map::empty(), DEFAULT_POLICY_ID@, SEED_POLICY_DOC@),
        DEFAULT_SIGSTORE_ID@,
        SEED_SIGSTORE_DOC@,
    )
}

impl View for Resources {
    type V = Map<Seq<char>, Seq<u8>>;

    closed spec fn view(&self) -> Map<Seq<char>, Seq<u8>> {
        self.tree@
    }
}

impl Resources {
    pub closed spec fn wf(self) -> bool {
        self.tree.wf()
    }

    pub fn default() -> (r: Result<Resources, String>)
        ensures
            match r {
                Ok(rs) => rs.wf() && rs@ == bootstrapped() && rs.resource_dir@ == RESOURCE_DIR@,
                Err(_) => false,
            },
    {
        Self::new(RESOURCE_DIR)
    }

    pub fn new(resource_dir: &str) -> (r: Result<Resources, String>)
        ensures
            match r {
                Ok(rs) => rs.wf() && rs@ == bootstrapped() && rs.resource_dir@ == resource_dir@,
                Err(_) => false,
            },
    {
        let mut rs = Resources { resource_dir: resource_dir.to_owned(), tree: FileMap::new() };
        rs.prepare_default_resources();
        Ok(rs)
    }

    /// Seeds the default documents where absent; never overwrites an
    /// existing document.
    fn prepare_default_resources(&mut self)
        requires
            old(self).wf(),
        ensures
            final(self).wf(),
            final(self).resource_dir == old(self).resource_dir,
            final(self)@ == seeded(
                seeded(old(self)@, DEFAULT_POLICY_ID@, SEED_POLICY_DOC@),
                DEFAULT_SIGSTORE_ID@,
                SEED_SIGSTORE_DOC@,
            ),
    {
        if !self.tree.contains(DEFAULT_POLICY_ID) {
            self.tree.upsert(DEFAULT_POLICY_ID.to_owned(), SEED_POLICY_DOC.as_bytes_vec());
        }
        if !self.tree.contains(DEFAULT_SIGSTORE_ID) {
            self.tree.upsert(DEFAULT_SIGSTORE_ID.to_owned(), SEED_SIGSTORE_DOC.as_bytes_vec());
        }
    }

    /// The content stored under the identifier.
    pub fn get_resource(&self, resource_id: &str) -> (r: Result<Vec<u8>, String>)
        requires
            self.wf(),
        ensures
            match r {
                Ok(v) => self@.contains_key(resource_id@) && v@ == self@[resource_id@],
                Err(_) => !self@.contains_key(resource_id@),
            },
    {
        match self.tree.get(resource_id) {
            Some(v) => Ok(v),
            None => Err(String::from_str("read resource failed")),
        }
    }

    /// Stores content under the identifier, overwriting any previous
    /// content: last writer wins.
    pub fn set_resource(&mut self, resource_id: &str, resource: &[u8]) -> (r: Result<(), String>)
        requires
            old(self).wf(),
        ensures
            final(self).wf(),
            r is Ok,
            final(self)@ == old(self)@.insert(resource_id@, resource@),
            final(self).resource_dir == old(self).resource_dir,
    {
        self.tree.upsert(resource_id.to_owned(), copy_bytes(resource));
        Ok(())
    }

    /// The size, in bytes, that the base64 rendering of the stored content
    /// would occupy: four bytes for every three content bytes begun.
    pub fn get_resource_info(&self, resource_id: &str) -> (r: Result<usize, String>)
        requires
            self.wf(),
        ensures
            match r {
                Ok(n) => self@.contains_key(resource_id@) && n == b64_of(
                    self@[resource_id@],
                ).len() && n == 4 * ((self@[resource_id@].len() + 2) / 3),
                Err(_) => !self@.contains_key(resource_id@),
            },
    {
        let data = self.get_resource(resource_id)?;
        let encoded = b64_encode(data.as_slice());
        Ok(encoded.as_str().unicode_len())
    }
}

/// The administrative adapter around the resource store; it forwards
/// reads and writes unchanged.
pub struct ResourceManager {
    resource: Resources,
}

impl View for ResourceManager {
    type V = Map<Seq<char>, Seq<u8>>;

    closed spec fn view(&self) -> Map<Seq<char>, Seq<u8>> {
        self.resource@
    }
}

impl ResourceManager {
    pub closed spec fn wf(self) -> bool {
        self.resource.wf()
    }

    pub fn new(inner: Resources) -> (r: ResourceManager)
        ensures
            r.wf() == inner.wf(),
            r@ == inner@,
    {
        ResourceManager { resource: inner }
    }

    pub fn get_resource(&self, resource_id: &str) -> (r: Result<Vec<u8>, String>)
        requires
            self.wf(),
        ensures
            match r {
                Ok(v) => self@.contains_key(resource_id@) && v@ == self@[resource_id@],
                Err(_) => !self@.contains_key(resource_id@),
            },
    {
        self.resource.get_resource(resource_id)
    }

    pub fn set_resource(&mut self, resource_id: &str, resource: &[u8]) -> (r: Result<(), String>)
        requires
            old(self).wf(),
        ensures
            final(self).wf(),
            r is Ok,
            final(self)@ == old(self)@.insert(resource_id@, resource@),
    {
        self.resource.set_resource(resource_id, resource)
    }
}

} // verus!
