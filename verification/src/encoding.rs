//! Trusted bridges to the base64 codec and to UTF-8 string decoding.
use vstd::prelude::*;

verus! {

use vstd::utf8::{encode_utf8, valid_utf8};

/// The base64 text (standard alphabet, padded) of a byte string.
pub uninterp spec fn b64_of(bytes: Seq<u8>) -> Seq<char>;

/// What base64 decoding makes of a character sequence: the bytes it spells,
/// or nothing when it is not well-formed base64 text.
pub uninterp spec fn b64_decode_of(text: Seq<char>) -> Option<Seq<u8>>;

/// Relies on base64::encode (standard alphabet, with padding): the result is
/// a function of the input bytes alone; a padded encoding takes four
/// characters for every three bytes begun; decoding it yields the input back.
#[verifier::external_body]
pub(crate) fn b64_encode(data: &[u8]) -> (r: String)
    ensures
        r@ == b64_of(data@),
        r@.len() == 4 * ((data@.len() + 2) / 3),
        b64_decode_of(r@) == Some(data@),
{
    base64::encode(data)
}

/// Relies on base64::decode (standard alphabet, with padding): success and
/// the decoded bytes depend on the input text alone.
#[verifier::external_body]
pub(crate) fn b64_decode(text: &str) -> (r: Option<Vec<u8>>)
    ensures
        match r {
            Some(v) => b64_decode_of(text@) == Some(v@),
            None => b64_decode_of(text@) is None,
        },
{
    match base64::decode(text) {
        Ok(v) => Some(v),
        Err(_) => None,
    }
}

/// Relies on String::from_utf8: it succeeds exactly on valid UTF-8 input and
/// returns the string those bytes encode.
#[verifier::external_body]
pub(crate) fn utf8_to_string(bytes: Vec<u8>) -> (r: Option<String>)
    ensures
        match r {
            Some(s) => valid_utf8(bytes@) && encode_utf8(s@) == bytes@,
            None => !valid_utf8(bytes@),
        },
{
    match String::from_utf8(bytes) {
        Ok(s) => Some(s),
        Err(_) => None,
    }
}

} // verus!
