//! Policy and reference documents for the decision engine, kept under their
//! own directory of the file tree. Storing a policy runs it through an
//! external syntax checker; the caller that runs the checker reports its
//! verdict through a `PolicyCheck` value, and the store's rollback follows
//! that verdict.
use vstd::prelude::*;

verus! {

use vstd::string::*;
use vstd::utf8::{encode_utf8, valid_utf8};
use crate::file;
use crate::file::{bak_name, not_found_text, seeded, write_failed_text};
use crate::fsmap::FileMap;

pub const OPA_PATH: &'static str = "/opt/verdictd/opa/";

pub const OPA_POLICY_SGX: &'static str = "sgxPolicy.rego";

pub const OPA_DATA_SGX: &'static str = "sgxData";

pub const OPA_POLICY_CSV: &'static str = "csvPolicy.rego";

pub const OPA_DATA_CSV: &'static str = "csvData";

/// The default policy document seeded on first start; deployments rely on
/// these exact bytes.
pub const DEFAULT_SGX_POLICY_DOC: &'static str =
    "\npackage policy\n\n# By default, deny requests.\ndefault allow = false\n\nallow {\n    mrEnclave_is_grant\n    mrSigner_is_grant\n    input.productId >= data.productId\n    input.svn >= data.svn\n}\n\nmrEnclave_is_grant {\n    count(data.mrEnclave) == 0\n}\nmrEnclave_is_grant {\n    count(data.mrEnclave) > 0\n    input.mrEnclave == data.mrEnclave[_]\n}\n\nmrSigner_is_grant {\n    count(data.mrSigner) == 0\n}\nmrSigner_is_grant {\n    count(data.mrSigner) > 0\n    input.mrSigner == data.mrSigner[_]\n}\n";

/// The default reference-data document seeded on first start.
pub const DEFAULT_SGX_DATA_DOC: &'static str =
    "{\n    \"mrEnclave\": [],\n    \"mrSigner\": [],\n    \"productId\": 0,\n    \"svn\": 0\n}";

/// What the external policy syntax checker reported: it accepted the policy,
/// it rejected it, or it could not be run at all.
pub enum PolicyCheck {
    Passed,
    Rejected,
    Unavailable,
}

/// The full path of a named policy or reference document.
pub open spec fn opa_path(name: Seq<char>) -> Seq<char> {
    "/opt/verdictd/opa/"@ + name
}

/// Stores a reference document through the crash-safe overwrite.
pub fn set_reference(files: &mut FileMap, name: &str, reference: &str, write_fails: bool) -> (r:
    Result<(), String>)
    requires
        old(files).wf(),
    ensures
        final(files).wf(),
        !write_fails ==> r is Ok && final(files)@ == old(files)@.insert(
            opa_path(name@),
            reference.spec_bytes(),
        ).remove(bak_name(opa_path(name@))),
        write_fails ==> (match r {
            Ok(_) => false,
            Err(e) => e@ == write_failed_text(),
        }) && final(files)@ == old(files)@.remove(bak_name(opa_path(name@))),
{
    let mut path = String::from_str(OPA_PATH);
    path.append(name);
    file::set(files, path.as_str(), reference, write_fails)
}

/// The tree after the file at `src`, if any, has been copied to `bak`.
pub open spec fn backed_up(m: Map<Seq<char>, Seq<u8>>, src: Seq<char>, bak: Seq<char>) -> Map<
    Seq<char>,
    Seq<u8>,
> {
    if m.contains_key(src) {
        m.insert(bak, m[src])
    } else {
        m
    }
}

/// The tree after the backup at `bak`, if any, has been copied back to `src`.
pub open spec fn restored(m: Map<Seq<char>, Seq<u8>>, src: Seq<char>, bak: Seq<char>) -> Map<
    Seq<char>,
    Seq<u8>,
> {
    if m.contains_key(bak) {
        m.insert(src, m[bak])
    } else {
        m
    }
}

pub open spec fn store_policy_failed_text() -> Seq<char> {
    "Store policy failed: "@ + write_failed_text()
}

pub open spec fn check_exec_failed_text() -> Seq<char> {
    "Policy syntax check execution failed"@
}

pub open spec fn check_rejected_text() -> Seq<char> {
    "Policy syntax check failed"@
}

/// Stores a named policy document: backs the present document up, writes the
/// new one, and keeps it only when the external syntax checker accepts it;
/// on a failed write or a failed check the backup is copied back.
pub fn set_policy(
    files: &mut FileMap,
    name: &str,
    policy: &str,
    write_fails: bool,
    check: PolicyCheck,
) -> (r: Result<(), String>)
    requires
        old(files).wf(),
    ensures
        final(files).wf(),
        ({
            let src = opa_path(name@);
            let bak = bak_name(src);
            let m1 = backed_up(old(files)@, src, bak);
            let m2 = m1.insert(src, policy.spec_bytes());
            if write_fails {
                (match r {
                    Ok(_) => false,
                    Err(e) => e@ == store_policy_failed_text(),
                }) && final(files)@ == restored(m1, src, bak)
            } else {
                match check {
                    PolicyCheck::Passed => r is Ok && final(files)@ == m2.remove(bak),
                    PolicyCheck::Rejected => (match r {
                        Ok(_) => false,
                        Err(e) => e@ == check_rejected_text(),
                    }) && final(files)@ == restored(m2, src, bak),
                    PolicyCheck::Unavailable => (match r {
                        Ok(_) => false,
                        Err(e) => e@ == check_exec_failed_text(),
                    }) && final(files)@ == restored(m2, src, bak),
                }
            }
        }),
{
    let mut src = String::from_str(OPA_PATH);
    src.append(name);
    let mut bak = src.clone();
    bak.append(".bak");
    proof {
        reveal_strlit(".bak");
        assert(bak@ == bak_name(opa_path(name@)));
    }
    if files.contains(src.as_str()) {
        let prior = match files.get(src.as_str()) {
            Some(v) => v,
            None => Vec::new(),
        };
        files.upsert(bak.clone(), prior);
    }
    if write_fails {
        restore(files, &src, &bak);
        let mut msg = String::from_str("Store policy failed: ");
        msg.append("write failed");
        return Err(msg);
    }
    files.upsert(src.clone(), policy.as_bytes_vec());
    match check {
        PolicyCheck::Passed => {
            files.remove(bak.as_str());
            Ok(())
        },
        PolicyCheck::Rejected => {
            restore(files, &src, &bak);
            Err(String::from_str("Policy syntax check failed"))
        },
        PolicyCheck::Unavailable => {
            restore(files, &src, &bak);
            Err(String::from_str("Policy syntax check execution failed"))
        },
    }
}

/// Copies the backup at `bak`, if any, back over `src`.
fn restore(files: &mut FileMap, src: &String, bak: &String)
    requires
        old(files).wf(),
    ensures
        final(files).wf(),
        final(files)@ == restored(old(files)@, src@, bak@),
{
    match files.get(bak.as_str()) {
        Some(v) => {
            files.upsert(src.clone(), v);
        },
        None => (),
    }
}

/// Reads a named policy or reference document back as text.
pub fn export(files: &FileMap, name: &str) -> (r: Result<String, String>)
    requires
        files.wf(),
    ensures
        match r {
            Ok(s) => files@.contains_key(opa_path(name@)) && valid_utf8(files@[opa_path(name@)])
                && encode_utf8(s@) == files@[opa_path(name@)],
            Err(_) => !files@.contains_key(opa_path(name@)) || !valid_utf8(
                files@[opa_path(name@)],
            ),
        },
{
    let mut path = String::from_str(OPA_PATH);
    path.append(name);
    file::export_string(files, path.as_str())
}

/// Seeds the default policy and reference documents where absent; never
/// overwrites an existing document.
pub fn default(files: &mut FileMap) -> (r: Result<(), String>)
    requires
        old(files).wf(),
    ensures
        final(files).wf(),
        r is Ok,
        final(files)@ == seeded(
            seeded(old(files)@, opa_path(OPA_POLICY_SGX@), DEFAULT_SGX_POLICY_DOC@),
            opa_path(OPA_DATA_SGX@),
            DEFAULT_SGX_DATA_DOC@,
        ),
{
    let mut policy_path = String::from_str(OPA_PATH);
    policy_path.append(OPA_POLICY_SGX);
    if !files.contains(policy_path.as_str()) {
        let res = file::write(files, policy_path.as_str(), DEFAULT_SGX_POLICY_DOC);
        if res.is_err() {
            return res;
        }
    }
    let mut data_path = String::from_str(OPA_PATH);
    data_path.append(OPA_DATA_SGX);
    if !files.contains(data_path.as_str()) {
        let res = file::write(files, data_path.as_str(), DEFAULT_SGX_DATA_DOC);
        if res.is_err() {
            return res;
        }
    }
    Ok(())
}

} // verus!
