//! The atomic file store: plain reads and writes over the file-tree model,
//! and the crash-safe overwrite `set`, which backs the file up, writes, and
//! rolls back when the underlying platform write fails. The caller that
//! performs the real write reports its outcome through `write_fails`.
use vstd::prelude::*;

verus! {

use vstd::string::*;
use vstd::utf8::{encode_utf8, valid_utf8};
use crate::encoding::{b64_encode, b64_of, utf8_to_string};
use crate::fsmap::FileMap;

/// The backup path that `set` uses for a file.
pub open spec fn bak_name(name: Seq<char>) -> Seq<char> {
    name + ".bak"@
}

pub open spec fn not_found_text() -> Seq<char> {
    "not found"@
}

pub open spec fn write_failed_text() -> Seq<char> {
    "write failed"@
}

/// Reads the whole file as a string.
pub fn export_string(files: &FileMap, name: &str) -> (r: Result<String, String>)
    requires
        files.wf(),
    ensures
        match r {
            Ok(s) => files@.contains_key(name@) && valid_utf8(files@[name@]) && encode_utf8(s@)
                == files@[name@],
            Err(_) => !files@.contains_key(name@) || !valid_utf8(files@[name@]),
        },
{
    match files.get(name) {
        Some(content) => match utf8_to_string(content) {
            Some(s) => Ok(s),
            None => Err(String::from_str("invalid utf-8")),
        },
        None => Err(String::from_str("not found")),
    }
}

/// Reads the whole file as bytes.
pub fn export_raw(files: &FileMap, name: &str) -> (r: Result<Vec<u8>, String>)
    requires
        files.wf(),
    ensures
        match r {
            Ok(v) => files@.contains_key(name@) && v@ == files@[name@],
            Err(e) => !files@.contains_key(name@) && e@ == not_found_text(),
        },
{
    match files.get(name) {
        Some(content) => Ok(content),
        None => Err(String::from_str("not found")),
    }
}

/// Reads the whole file and renders it as base64 text.
pub fn export_base64(files: &FileMap, name: &str) -> (r: Result<String, String>)
    requires
        files.wf(),
    ensures
        match r {
            Ok(s) => files@.contains_key(name@) && s@ == b64_of(files@[name@]) && s@.len() == 4 * (
            (files@[name@].len() + 2) / 3),
            Err(e) => !files@.contains_key(name@) && e@ == not_found_text(),
        },
{
    match files.get(name) {
        Some(content) => Ok(b64_encode(content.as_slice())),
        None => Err(String::from_str("not found")),
    }
}

/// Creates or truncates the file and writes the content; overwriting through
/// this function alone has no rollback.
pub fn write(files: &mut FileMap, src: &str, content: &str) -> (r: Result<(), String>)
    requires
        old(files).wf(),
    ensures
        final(files).wf(),
        r is Ok,
        final(files)@ == old(files)@.insert(src@, content.spec_bytes()),
{
    files.upsert(src.to_owned(), content.as_bytes_vec());
    Ok(())
}

/// Crash-safe overwrite. If the file exists it is first copied to its backup
/// path. The content is then written; `write_fails` reports whether the
/// underlying platform write failed. On failure the prior content is
/// restored from the backup and the error surfaces. Either way no backup
/// file remains afterwards.
pub fn set(files: &mut FileMap, name: &str, content: &str, write_fails: bool) -> (r: Result<
    (),
    String,
>)
    requires
        old(files).wf(),
    ensures
        final(files).wf(),
        !write_fails ==> r is Ok && final(files)@ == old(files)@.insert(
            name@,
            content.spec_bytes(),
        ).remove(bak_name(name@)),
        write_fails ==> (match r {
            Ok(_) => false,
            Err(e) => e@ == write_failed_text(),
        }) && final(files)@ == old(files)@.remove(bak_name(name@)),
{
    let mut bak = name.to_owned();
    bak.append(".bak");
    proof {
        reveal_strlit(".bak");
        assert(bak@ == bak_name(name@));
        assert(bak@.len() == name@.len() + 4);
        assert(bak@ != name@);
    }
    let had = files.contains(name);
    if had {
        let prior = match files.get(name) {
            Some(v) => v,
            None => Vec::new(),
        };
        files.upsert(bak.clone(), prior);
    }
    if write_fails {
        if had {
            let backed = match files.get(bak.as_str()) {
                Some(v) => v,
                None => Vec::new(),
            };
            files.upsert(name.to_owned(), backed);
        }
        files.remove(bak.as_str());
        proof {
            assert(files@ =~= old(files)@.remove(bak_name(name@)));
        }
        Err(String::from_str("write failed"))
    } else {
        files.upsert(name.to_owned(), content.as_bytes_vec());
        files.remove(bak.as_str());
        proof {
            assert(files@ =~= old(files)@.insert(name@, content.spec_bytes()).remove(
                bak_name(name@),
            ));
        }
        Ok(())
    }
}

/// What the file tree holds after a document has been seeded: the default
/// content under its path if the path was absent, and the tree unchanged
/// otherwise.
pub open spec fn seeded(m: Map<Seq<char>, Seq<u8>>, path: Seq<char>, doc: Seq<char>) -> Map<
    Seq<char>,
    Seq<u8>,
> {
    if m.contains_key(path) {
        m
    } else {
        m.insert(path, encode_utf8(doc))
    }
}

/// The size in bytes of the file's content.
pub fn size(files: &FileMap, name: &str) -> (r: Result<usize, String>)
    requires
        files.wf(),
    ensures
        match r {
            Ok(n) => files@.contains_key(name@) && n == files@[name@].len(),
            Err(e) => !files@.contains_key(name@) && e@ == not_found_text(),
        },
{
    match files.get(name) {
        Some(content) => Ok(content.len()),
        None => Err(String::from_str("not found")),
    }
}

} // verus!
