//! The fixed image-verification documents (policy, sigstore configuration,
//! cosign key, registry credential), kept at well-known paths of the file
//! tree, with their seeded defaults.
use vstd::prelude::*;

verus! {

use vstd::string::*;
use vstd::utf8::{encode_utf8, valid_utf8};
use crate::encoding::b64_of;
use crate::file;
use crate::file::{bak_name, not_found_text, seeded, write_failed_text};
use crate::fsmap::FileMap;

pub const IMAGE_PATH: &'static str = "/opt/verdictd/image/";

pub const POLICY: &'static str = "/opt/verdictd/image/policy.json";

pub const SIGSTORE: &'static str = "/opt/verdictd/image/sigstore.yaml";

pub const COSIGN: &'static str = "/opt/verdictd/image/cosign.key";

pub const CREDENTIAL: &'static str = "/opt/verdictd/image/auth.json";

/// The image policy document seeded on first start; deployments rely on
/// these exact bytes.
pub const DEFAULT_POLICY_DOC: &'static str =
    "{\n    \"default\": [\n        {\n            \"type\": \"insecureAcceptAnything\"\n        }\n    ],\n}";

/// The sigstore configuration document seeded on first start.
pub const DEFAULT_SIGSTORE_DOC: &'static str =
    "default:\n    sigstore: file:///var/lib/containers/sigstore\n";

pub fn export(files: &FileMap, name: &str) -> (r: Result<String, String>)
    requires
        files.wf(),
    ensures
        match r {
            Ok(s) => files@.contains_key(name@) && valid_utf8(files@[name@]) && encode_utf8(s@)
                == files@[name@],
            Err(_) => !files@.contains_key(name@) || !valid_utf8(files@[name@]),
        },
{
    file::export_string(files, name)
}

pub fn export_base64(files: &FileMap, name: &str) -> (r: Result<String, String>)
    requires
        files.wf(),
    ensures
        match r {
            Ok(s) => files@.contains_key(name@) && s@ == b64_of(files@[name@]),
            Err(e) => !files@.contains_key(name@) && e@ == not_found_text(),
        },
{
    file::export_base64(files, name)
}

pub fn set(files: &mut FileMap, name: &str, content: &str, write_fails: bool) -> (r: Result<
    (),
    String,
>)
    requires
        old(files).wf(),
    ensures
        final(files).wf(),
        !write_fails ==> r is Ok && final(files)@ == old(files)@.insert(
            name@,
            content.spec_bytes(),
        ).remove(bak_name(name@)),
        write_fails ==> (match r {
            Ok(_) => false,
            Err(e) => e@ == write_failed_text(),
        }) && final(files)@ == old(files)@.remove(bak_name(name@)),
{
    file::set(files, name, content, write_fails)
}

/// The error text `size_base64` reports for an absent file.
pub open spec fn size_failed_text(name: Seq<char>) -> Seq<char> {
    "Fetch "@ + name + " size failed:"@ + not_found_text()
}

/// The size that the base64 rendering of the file's content would occupy.
pub fn size_base64(files: &FileMap, name: &str) -> (r: Result<usize, String>)
    requires
        files.wf(),
    ensures
        match r {
            Ok(n) => files@.contains_key(name@) && n == b64_of(files@[name@]).len() && n == 4 * (
            (files@[name@].len() + 2) / 3),
            Err(e) => !files@.contains_key(name@) && e@ == size_failed_text(name@),
        },
{
    match file::export_base64(files, name) {
        Ok(content) => Ok(content.as_str().unicode_len()),
        Err(_) => {
            let mut msg = String::from_str("Fetch ");
            msg.append(name);
            msg.append(" size failed:");
            msg.append("not found");
            Err(msg)
        },
    }
}


/// Seeds the default policy and sigstore documents where absent; never
/// overwrites an existing document.
pub fn default(files: &mut FileMap) -> (r: Result<(), String>)
    requires
        old(files).wf(),
    ensures
        final(files).wf(),
        r is Ok,
        final(files)@ == seeded(
            seeded(old(files)@, POLICY@, DEFAULT_POLICY_DOC@),
            SIGSTORE@,
            DEFAULT_SIGSTORE_DOC@,
        ),
{
    if !files.contains(POLICY) {
        let res = file::write(files, POLICY, DEFAULT_POLICY_DOC);
        if res.is_err() {
            return res;
        }
    }
    if !files.contains(SIGSTORE) {
        let res = file::write(files, SIGSTORE, DEFAULT_SIGSTORE_DOC);
        if res.is_err() {
            return res;
        }
    }
    Ok(())
}

} // verus!
