//! The GPG keyring document, kept at its well-known path of the file tree.
use vstd::prelude::*;

verus! {

use vstd::string::*;
use crate::encoding::b64_of;
use crate::file;
use crate::file::not_found_text;
use crate::fsmap::FileMap;

pub const GPG_PATH: &'static str = "/opt/verdictd/gpg/";

pub const GPG_KEYRING: &'static str = "/opt/verdictd/gpg/keyring.gpg";

/// The error text `export_base64` reports for an absent keyring.
pub open spec fn export_failed_text() -> Seq<char> {
    "export GPG keyring failed:"@ + not_found_text()
}

/// The error text `size_base64` reports for an absent keyring.
pub open spec fn size_failed_text() -> Seq<char> {
    "Fetch GPG keyring size failed:"@ + not_found_text()
}

/// The keyring's content as base64 text.
pub fn export_base64(files: &FileMap) -> (r: Result<String, String>)
    requires
        files.wf(),
    ensures
        match r {
            Ok(s) => files@.contains_key(GPG_KEYRING@) && s@ == b64_of(files@[GPG_KEYRING@]),
            Err(e) => !files@.contains_key(GPG_KEYRING@) && e@ == export_failed_text(),
        },
{
    match file::export_base64(files, GPG_KEYRING) {
        Ok(s) => Ok(s),
        Err(_) => {
            let mut msg = String::from_str("export GPG keyring failed:");
            msg.append("not found");
            Err(msg)
        },
    }
}

/// The size that the base64 rendering of the keyring would occupy.
pub fn size_base64(files: &FileMap) -> (r: Result<usize, String>)
    requires
        files.wf(),
    ensures
        match r {
            Ok(n) => files@.contains_key(GPG_KEYRING@) && n == b64_of(files@[GPG_KEYRING@]).len()
                && n == 4 * ((files@[GPG_KEYRING@].len() + 2) / 3),
            Err(e) => !files@.contains_key(GPG_KEYRING@) && e@ == size_failed_text(),
        },
{
    match file::export_base64(files, GPG_KEYRING) {
        Ok(content) => Ok(content.as_str().unicode_len()),
        Err(_) => {
            let mut msg = String::from_str("Fetch GPG keyring size failed:");
            msg.append("not found");
            Err(msg)
        },
    }
}

} // verus!
