//! Input resolution for the policy decision gate. The decision engine
//! itself is an external collaborator reached by the surrounding program;
//! what is verified here is which policy and reference texts are handed to
//! it: inline content where the caller marked a part remote, the stored
//! document otherwise.
use vstd::prelude::*;

verus! {

use vstd::utf8::{encode_utf8, valid_utf8};
use crate::fsmap::FileMap;
use crate::opa;
use crate::opa::opa_path;

/// Whether the stored document under this name can serve as decision input:
/// it exists and is text.
pub open spec fn stored_text_ok(files: Map<Seq<char>, Seq<u8>>, name: Seq<char>) -> bool {
    files.contains_key(opa_path(name)) && valid_utf8(files[opa_path(name)])
}

/// Resolves the policy and the reference text for one decision. A part
/// marked remote is taken verbatim from the caller's inline content; the
/// other parts are read from the document store, and an absent or non-text
/// document fails the resolution.
pub fn resolve_decision_inputs(
    files: &FileMap,
    policy_name: &str,
    policy_content: &str,
    policy_remote: bool,
    reference_name: &str,
    reference_content: &str,
    reference_remote: bool,
) -> (r: Result<(String, String), String>)
    requires
        files.wf(),
    ensures
        match r {
            Ok((p, rf)) => {
                &&& policy_remote ==> p@ == policy_content@
                &&& !policy_remote ==> stored_text_ok(files@, policy_name@) && encode_utf8(p@)
                    == files@[opa_path(policy_name@)]
                &&& reference_remote ==> rf@ == reference_content@
                &&& !reference_remote ==> stored_text_ok(files@, reference_name@) && encode_utf8(
                    rf@,
                ) == files@[opa_path(reference_name@)]
            },
            Err(_) => (!policy_remote && !stored_text_ok(files@, policy_name@)) || (
            !reference_remote && !stored_text_ok(files@, reference_name@)),
        },
{
    let policy = if policy_remote {
        policy_content.to_owned()
    } else {
        match opa::export(files, policy_name) {
            Ok(p) => p,
            Err(e) => {
                return Err(e);
            },
        }
    };
    let reference = if reference_remote {
        reference_content.to_owned()
    } else {
        match opa::export(files, reference_name) {
            Ok(rf) => rf,
            Err(e) => {
                return Err(e);
            },
        }
    };
    Ok((policy, reference))
}

} // verus!
