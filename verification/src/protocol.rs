//! The command dispatcher: interprets one request from the attested channel
//! and produces the response text plus the post-response transport action.
//! The surrounding program parses the raw JSON bytes into a `Request`; every
//! decision after that point is made and verified here.
use vstd::prelude::*;

verus! {

use vstd::pervasive::unreached;
use vstd::string::*;
use vstd::utf8::encode_utf8;
use crate::crypto;
use crate::encoding::{b64_decode, b64_decode_of, b64_encode, b64_of};
use crate::file::not_found_text;
use crate::fsmap::FileMap;
use crate::gpg;
use crate::gpg::GPG_KEYRING;
use crate::image;
use crate::image::{COSIGN, CREDENTIAL, POLICY, SIGSTORE};
use crate::keys::KeyManager;
use crate::text::{append_json_string, dec_str, jstr, str_eq, u64_dec};

/// Keep the session open after the response is sent.
pub const ACTION_NONE: u8 = 0;

/// Close the session after the response is sent.
pub const ACTION_DISCONNECT: u8 = 1;

/// One encrypted blob of a decrypt request, as the wire carries it: any
/// field may be absent or of the wrong kind, which validation rejects.
pub struct EncryptedBlob {
    pub algorithm: Option<String>,
    pub key_length: Option<i64>,
    pub encrypted_data: Option<String>,
    pub iv: Option<String>,
    pub kid: Option<String>,
}

/// One parsed request: the command and whichever input fields the request
/// carried with the right kind.
pub struct Request {
    pub command: Option<String>,
    pub blobs: Option<Vec<EncryptedBlob>>,
    pub kids: Option<Vec<Option<String>>>,
    pub data: Option<String>,
    pub name: Option<String>,
}

pub open spec fn version_text() -> Seq<char> {
    "{\"status\":\"OK\",\"version\":\"v1\"}"@
}

pub open spec fn pair_text(p: (Seq<char>, Seq<char>)) -> Seq<char> {
    jstr(p.0) + ":"@ + jstr(p.1)
}

/// The object body rendering the first `n` pairs, comma-separated.
pub open spec fn pairs_body(ps: Seq<(Seq<char>, Seq<char>)>, n: int) -> Seq<char>
    decreases n,
{
    if n <= 0 {
        Seq::empty()
    } else if n == 1 {
        pair_text(ps[0])
    } else {
        pairs_body(ps, n - 1) + ","@ + pair_text(ps[n - 1])
    }
}

/// The success envelope carrying an identifier-to-result object.
pub open spec fn ok_data_response(ps: Seq<(Seq<char>, Seq<char>)>) -> Seq<char> {
    "{\"status\":\"OK\",\"data\":{"@ + pairs_body(ps, ps.len() as int) + "}}"@
}

/// The failure envelope with an empty data object.
pub open spec fn fail_response(msg: Seq<char>) -> Seq<char> {
    "{\"status\":\"Fail\",\"data\":{},\"error\":"@ + jstr(msg) + "}"@
}

/// The short failure envelope.
pub open spec fn fail_response2(msg: Seq<char>) -> Seq<char> {
    "{\"status\":\"Fail\",\"error\":"@ + jstr(msg) + "}"@
}

pub open spec fn pairs_view(ps: Seq<(String, String)>) -> Seq<(Seq<char>, Seq<char>)> {
    Seq::new(ps.len(), |i: int| (ps[i].0@, ps[i].1@))
}

/// The key-not-found text of the decrypt path, which quotes the identifier
/// as JSON does.
pub open spec fn decrypt_kid_missing_text(kid: Seq<char>) -> Seq<char> {
    "kid: "@ + jstr(kid) + "'s key not found"@
}

/// The key-not-found text of the get-KEK path, with the identifier plain.
pub open spec fn kek_kid_missing_text(kid: Seq<char>) -> Seq<char> {
    "kid: "@ + kid + "'s key not found"@
}

/// Opening one blob once its key has been fetched: base64-decode the nonce
/// and the ciphertext, open the ciphertext, and report each result under
/// the original base64 ciphertext. Every cryptographic failure reads the
/// same, so a caller probing ciphertexts learns nothing of its cause.
pub open spec fn open_blob(key: Seq<u8>, iv_text: Seq<char>, data_text: Seq<char>) -> Result<
    (Seq<char>, Seq<char>),
    Seq<char>,
> {
    if key.len() != 32 {
        Err("decryption failed"@)
    } else {
        match b64_decode_of(iv_text) {
            None => Err("decryption failed"@),
            Some(iv) => {
                if iv.len() != 12 {
                    Err("decryption failed"@)
                } else {
                    match b64_decode_of(data_text) {
                        None => Err("decryption failed"@),
                        Some(ct) => match crypto::gcm_open(key, iv, ct) {
                            None => Err("decryption failed"@),
                            Some(pt) => Ok((data_text, b64_of(pt))),
                        },
                    }
                }
            },
        }
    }
}

/// Whether a blob carries the accepted cipher configuration and every
/// field the decrypt path reads; this touches no store.
pub open spec fn blob_params_ok(b: EncryptedBlob) -> bool {
    match (b.algorithm, b.key_length, b.encrypted_data, b.iv, b.kid) {
        (Some(alg), Some(kl), Some(_), Some(_), Some(_)) => alg@ == "AES"@ && kl == 256,
        _ => false,
    }
}

/// What decrypting one blob yields: validation of the cipher configuration
/// comes first and touches no store.
pub open spec fn decrypt_one(b: EncryptedBlob, keys: Map<Seq<char>, Seq<u8>>) -> Result<
    (Seq<char>, Seq<char>),
    Seq<char>,
> {
    match (b.algorithm, b.key_length, b.encrypted_data, b.iv, b.kid) {
        (Some(alg), Some(kl), Some(data_text), Some(iv_text), Some(kid)) => {
            if alg@ != "AES"@ || kl != 256 {
                Err("parameters error"@)
            } else if !keys.contains_key(kid@) {
                Err(decrypt_kid_missing_text(kid@))
            } else {
                open_blob(keys[kid@], iv_text@, data_text@)
            }
        },
        _ => Err("parameters error"@),
    }
}

/// The first `n` blobs decrypted in order; the first failure fails the
/// whole batch.
pub open spec fn decrypt_upto(
    blobs: Seq<EncryptedBlob>,
    keys: Map<Seq<char>, Seq<u8>>,
    n: int,
) -> Result<Seq<(Seq<char>, Seq<char>)>, Seq<char>>
    decreases n,
{
    if n <= 0 {
        Ok(Seq::empty())
    } else {
        match decrypt_upto(blobs, keys, n - 1) {
            Err(e) => Err(e),
            Ok(ps) => match decrypt_one(blobs[n - 1], keys) {
                Err(e) => Err(e),
                Ok(p) => Ok(ps.push(p)),
            },
        }
    }
}

/// What the decrypt handler yields for a whole request.
pub open spec fn decrypt_handler_spec(req: Request, keys: Map<Seq<char>, Seq<u8>>) -> Result<
    Seq<char>,
    Seq<char>,
> {
    match req.blobs {
        None => Err("decrypt parameters error"@),
        Some(bs) => match decrypt_upto(bs@, keys, bs@.len() as int) {
            Ok(ps) => Ok(ok_data_response(ps)),
            Err(e) => Err(e),
        },
    }
}

/// What looking up one key-encryption key yields.
pub open spec fn kek_one(kid_opt: Option<String>, keys: Map<Seq<char>, Seq<u8>>) -> Result<
    (Seq<char>, Seq<char>),
    Seq<char>,
> {
    match kid_opt {
        None => Err("get KEK parameters error"@),
        Some(kid) => {
            if !keys.contains_key(kid@) {
                Err(kek_kid_missing_text(kid@))
            } else {
                Ok((kid@, b64_of(keys[kid@])))
            }
        },
    }
}

/// The first `n` key identifiers looked up in order; the first failure
/// fails the whole batch.
pub open spec fn kek_upto(
    kids: Seq<Option<String>>,
    keys: Map<Seq<char>, Seq<u8>>,
    n: int,
) -> Result<Seq<(Seq<char>, Seq<char>)>, Seq<char>>
    decreases n,
{
    if n <= 0 {
        Ok(Seq::empty())
    } else {
        match kek_upto(kids, keys, n - 1) {
            Err(e) => Err(e),
            Ok(ps) => match kek_one(kids[n - 1], keys) {
                Err(e) => Err(e),
                Ok(p) => Ok(ps.push(p)),
            },
        }
    }
}

/// What the get-KEK handler yields for a whole request.
pub open spec fn kek_handler_spec(req: Request, keys: Map<Seq<char>, Seq<u8>>) -> Result<
    Seq<char>,
    Seq<char>,
> {
    match req.kids {
        None => Err("get KEK parameters error"@),
        Some(ks) => match kek_upto(ks@, keys, ks@.len() as int) {
            Ok(ps) => Ok(ok_data_response(ps)),
            Err(e) => Err(e),
        },
    }
}

/// The wire text answering a fixed-document fetch: the document as base64,
/// or the short failure envelope, itself base64, so that success and
/// failure share one wire shape.
pub open spec fn resource_response(
    files: Map<Seq<char>, Seq<u8>>,
    path: Seq<char>,
    err: Seq<char>,
) -> Seq<char> {
    if files.contains_key(path) {
        b64_of(files[path])
    } else {
        b64_of(encode_utf8(fail_response2(err)))
    }
}

pub open spec fn b64_size(v: Seq<u8>) -> int {
    4 * ((v.len() as int + 2) / 3)
}

/// The size that the resource-info request reports for each recognized
/// document name, or the error text when the document is absent or the
/// name unrecognized.
pub open spec fn info_size_result(name_opt: Option<String>, files: Map<Seq<char>, Seq<u8>>) -> Result<
    int,
    Seq<char>,
> {
    match name_opt {
        None => Err("file name error"@),
        Some(n) => {
            if n@ == "GPG Keyring"@ {
                if files.contains_key(GPG_KEYRING@) {
                    Ok(b64_size(files[GPG_KEYRING@]))
                } else {
                    Err(gpg::size_failed_text())
                }
            } else if n@ == "Policy"@ {
                if files.contains_key(POLICY@) {
                    Ok(b64_size(files[POLICY@]))
                } else {
                    Err(image::size_failed_text(POLICY@))
                }
            } else if n@ == "Sigstore Config"@ {
                if files.contains_key(SIGSTORE@) {
                    Ok(b64_size(files[SIGSTORE@]))
                } else {
                    Err(image::size_failed_text(SIGSTORE@))
                }
            } else if n@ == "Cosign Key"@ {
                if files.contains_key(COSIGN@) {
                    Ok(b64_size(files[COSIGN@]))
                } else {
                    Err(image::size_failed_text(COSIGN@))
                }
            } else if n@ == "Credential"@ {
                if files.contains_key(CREDENTIAL@) {
                    Ok(b64_size(files[CREDENTIAL@]))
                } else {
                    Err(image::size_failed_text(CREDENTIAL@))
                }
            } else {
                Err("file name error"@)
            }
        },
    }
}

/// The success envelope of the resource-info request; the size is carried
/// as a decimal string.
pub open spec fn info_response(n: int) -> Seq<char> {
    "{\"status\":\"OK\",\"data\":{\"base64size\":"@ + jstr(dec_str(n)) + "}}"@
}

/// The whole routing table: what `handle` answers, and with which
/// post-response action, for every request. An absent or unrecognized
/// command is a request-level failure with no response body.
pub open spec fn dispatch_spec(
    req: Request,
    keys: Map<Seq<char>, Seq<u8>>,
    files: Map<Seq<char>, Seq<u8>>,
) -> Result<(Seq<char>, u8), Seq<char>> {
    match req.command {
        None => Err("Command error"@),
        Some(cmd) => {
            if cmd@ == "version"@ {
                Ok((version_text(), ACTION_NONE))
            } else if cmd@ == "Decrypt"@ {
                Ok(
                    (
                        match decrypt_handler_spec(req, keys) {
                            Ok(t) => t,
                            Err(e) => fail_response(e),
                        },
                        ACTION_NONE,
                    ),
                )
            } else if cmd@ == "Get KEK"@ {
                Ok(
                    (
                        match kek_handler_spec(req, keys) {
                            Ok(t) => t,
                            Err(e) => fail_response(e),
                        },
                        ACTION_NONE,
                    ),
                )
            } else if cmd@ == "echo"@ {
                Ok(
                    (
                        match req.data {
                            Some(d) => d@,
                            None => "Echo parameters error"@,
                        },
                        ACTION_DISCONNECT,
                    ),
                )
            } else if cmd@ == "Get Policy"@ {
                Ok(
                    (
                        resource_response(
                            files,
                            POLICY@,
                            "Can't fetch policy.json file, error:"@ + not_found_text(),
                        ),
                        ACTION_NONE,
                    ),
                )
            } else if cmd@ == "Get Sigstore Config"@ {
                Ok(
                    (
                        resource_response(
                            files,
                            SIGSTORE@,
                            "Can't fetch sigstore.yaml file, error:"@ + not_found_text(),
                        ),
                        ACTION_NONE,
                    ),
                )
            } else if cmd@ == "Get GPG Keyring"@ {
                Ok(
                    (
                        resource_response(
                            files,
                            GPG_KEYRING@,
                            "Can't fetch gpg keyring file, error:"@ + gpg::export_failed_text(),
                        ),
                        ACTION_NONE,
                    ),
                )
            } else if cmd@ == "Get Resource Info"@ {
                Ok(
                    (
                        match info_size_result(req.name, files) {
                            Ok(n) => info_response(n),
                            Err(e) => fail_response2(e),
                        },
                        ACTION_NONE,
                    ),
                )
            } else if cmd@ == "Get Cosign Key"@ {
                Ok(
                    (
                        resource_response(
                            files,
                            COSIGN@,
                            "Can't fetch cosign key file, error:"@ + not_found_text(),
                        ),
                        ACTION_NONE,
                    ),
                )
            } else if cmd@ == "Get Credential"@ {
                Ok(
                    (
                        resource_response(
                            files,
                            CREDENTIAL@,
                            "Can't fetch cosign key file, error:"@ + not_found_text(),
                        ),
                        ACTION_NONE,
                    ),
                )
            } else {
                Err("Command error"@)
            }
        },
    }
}

/// The version command is answered with the same fixed text whatever the
/// stores hold.
pub proof fn lemma_version_ignores_stores(
    req: Request,
    keys: Map<Seq<char>, Seq<u8>>,
    files: Map<Seq<char>, Seq<u8>>,
)
    requires
        req.command matches Some(c) && c@ == "version"@,
    ensures
        dispatch_spec(req, keys, files) == Ok::<(Seq<char>, u8), Seq<char>>(
            (version_text(), ACTION_NONE),
        ),
{
}

/// A decrypt request whose first blob fails validation is answered with the
/// parameters-error envelope whatever the credential store holds: the
/// rejection is decided before any key could be consulted.
pub proof fn lemma_invalid_blob_rejected_before_lookup(
    req: Request,
    keys: Map<Seq<char>, Seq<u8>>,
    files: Map<Seq<char>, Seq<u8>>,
)
    requires
        req.command matches Some(c) && c@ == "Decrypt"@,
        req.blobs matches Some(bs) && bs@.len() > 0 && !blob_params_ok(bs@[0]),
    ensures
        dispatch_spec(req, keys, files) == Ok::<(Seq<char>, u8), Seq<char>>(
            (fail_response("parameters error"@), ACTION_NONE),
        ),
{
    reveal_strlit("version");
    reveal_strlit("Decrypt");
    assert("Decrypt"@[0] == 'D' && "version"@[0] == 'v');
    assert("Decrypt"@ != "version"@);
    match req.blobs {
        Some(bs) => {
            assert(decrypt_one(bs@[0], keys) == Err::<(Seq<char>, Seq<char>), Seq<char>>(
                "parameters error"@,
            ));
            assert(decrypt_upto(bs@, keys, 0) == Ok::<Seq<(Seq<char>, Seq<char>)>, Seq<char>>(
                Seq::empty(),
            ));
            assert(decrypt_upto(bs@, keys, 1) == Err::<Seq<(Seq<char>, Seq<char>)>, Seq<char>>(
                "parameters error"@,
            ));
            lemma_decrypt_err_sticks(bs@, keys, 1, bs@.len() as int);
            assert(decrypt_handler_spec(req, keys) == Err::<Seq<char>, Seq<char>>(
                "parameters error"@,
            ));
        },
        None => {},
    }
}

proof fn lemma_decrypt_err_sticks(
    blobs: Seq<EncryptedBlob>,
    keys: Map<Seq<char>, Seq<u8>>,
    j: int,
    m: int,
)
    requires
        0 <= j <= m,
        decrypt_upto(blobs, keys, j) is Err,
    ensures
        decrypt_upto(blobs, keys, m) == decrypt_upto(blobs, keys, j),
    decreases m - j,
{
    if m > j {
        lemma_decrypt_err_sticks(blobs, keys, j, m - 1);
    }
}

proof fn lemma_kek_err_sticks(
    kids: Seq<Option<String>>,
    keys: Map<Seq<char>, Seq<u8>>,
    j: int,
    m: int,
)
    requires
        0 <= j <= m,
        kek_upto(kids, keys, j) is Err,
    ensures
        kek_upto(kids, keys, m) == kek_upto(kids, keys, j),
    decreases m - j,
{
    if m > j {
        lemma_kek_err_sticks(kids, keys, j, m - 1);
    }
}

pub fn handle_version() -> (r: Result<String, String>)
    ensures
        match r {
            Ok(s) => s@ == version_text(),
            Err(_) => false,
        },
{
    Ok(String::from_str("{\"status\":\"OK\",\"version\":\"v1\"}"))
}

pub fn handle_echo(request: &Request) -> (r: Result<String, String>)
    ensures
        match (r, request.data) {
            (Ok(s), Some(d)) => s@ == d@,
            (Err(e), None) => e@ == "Echo parameters error"@,
            _ => false,
        },
{
    match &request.data {
        Some(d) => Ok(d.clone()),
        None => Err(String::from_str("Echo parameters error")),
    }
}

/// Renders the failure envelope with an empty data object.
pub fn error_message(e: &str) -> (r: String)
    ensures
        r@ == fail_response(e@),
{
    let mut s = String::from_str("{\"status\":\"Fail\",\"data\":{},\"error\":");
    append_json_string(&mut s, e);
    s.append("}");
    proof {
        assert(s@ =~= fail_response(e@));
    }
    s
}

/// Renders the short failure envelope.
pub fn error_message2(e: &str) -> (r: String)
    ensures
        r@ == fail_response2(e@),
{
    let mut s = String::from_str("{\"status\":\"Fail\",\"error\":");
    append_json_string(&mut s, e);
    s.append("}");
    proof {
        assert(s@ =~= fail_response2(e@));
    }
    s
}

/// Renders the success envelope around the given identifier-to-result
/// pairs, in their order.
fn render_ok_data(pairs: &Vec<(String, String)>) -> (r: String)
    ensures
        r@ == ok_data_response(pairs_view(pairs@)),
{
    let mut s = String::from_str("{\"status\":\"OK\",\"data\":{");
    let n = pairs.len();
    for i in 0..n
        invariant
            n == pairs@.len(),
            s@ == "{\"status\":\"OK\",\"data\":{"@ + pairs_body(pairs_view(pairs@), i as int),
    {
        if i > 0 {
            s.append(",");
        }
        append_json_string(&mut s, pairs[i].0.as_str());
        s.append(":");
        append_json_string(&mut s, pairs[i].1.as_str());
        proof {
            let ps = pairs_view(pairs@);
            if i == 0 {
                assert(s@ =~= "{\"status\":\"OK\",\"data\":{"@ + pairs_body(ps, 1));
            } else {
                assert(s@ =~= "{\"status\":\"OK\",\"data\":{"@ + pairs_body(ps, i + 1));
            }
        }
    }
    s.append("}}");
    proof {
        assert(s@ =~= ok_data_response(pairs_view(pairs@)));
    }
    s
}

/// Decrypts each blob of the request in order, against the credential
/// store; the first invalid, unknown or unauthentic blob fails the whole
/// request, and validation rejects a wrong cipher configuration before any
/// store access.
pub fn handle_decrypt(request: &Request, keys: &KeyManager) -> (r: Result<String, String>)
    requires
        keys.wf(),
    ensures
        match (r, decrypt_handler_spec(*request, keys@)) {
            (Ok(s), Ok(t)) => s@ == t,
            (Err(e), Err(t)) => e@ == t,
            _ => false,
        },
{
    let blobs = match &request.blobs {
        Some(bs) => bs,
        None => {
            return Err(String::from_str("decrypt parameters error"));
        },
    };
    let mut pairs: Vec<(String, String)> = Vec::new();
    let n = blobs.len();
    proof {
        assert(pairs_view(pairs@) =~= Seq::<(Seq<char>, Seq<char>)>::empty());
    }
    for i in 0..n
        invariant
            keys.wf(),
            n == blobs@.len(),
            request.blobs matches Some(bs) && bs@ == blobs@,
            decrypt_upto(blobs@, keys@, i as int) == Ok::<_, Seq<char>>(pairs_view(pairs@)),
    {
        let b = &blobs[i];
        let ghost bi = blobs@[i as int];
        let alg_ok = match &b.algorithm {
            Some(a) => str_eq(a.as_str(), "AES"),
            None => false,
        };
        let kl_ok = match b.key_length {
            Some(k) => k == 256,
            None => false,
        };
        if !(alg_ok && kl_ok && b.encrypted_data.is_some() && b.iv.is_some() && b.kid.is_some()) {
            proof {
                assert(decrypt_one(bi, keys@) == Err::<(Seq<char>, Seq<char>), Seq<char>>(
                    "parameters error"@,
                ));
                assert(decrypt_upto(blobs@, keys@, i + 1) is Err);
                lemma_decrypt_err_sticks(blobs@, keys@, i + 1, n as int);
            }
            return Err(String::from_str("parameters error"));
        }
        let kid = match &b.kid {
            Some(k) => k,
            None => unreached(),
        };
        let data_text = match &b.encrypted_data {
            Some(t) => t,
            None => unreached(),
        };
        let iv_text = match &b.iv {
            Some(t) => t,
            None => unreached(),
        };
        let key = match keys.get_key(kid.as_str()) {
            Ok(k) => k,
            Err(_) => {
                proof {
                    assert(decrypt_one(bi, keys@) == Err::<(Seq<char>, Seq<char>), Seq<char>>(
                        decrypt_kid_missing_text(kid@),
                    ));
                    assert(decrypt_upto(blobs@, keys@, i + 1) is Err);
                    lemma_decrypt_err_sticks(blobs@, keys@, i + 1, n as int);
                }
                let mut msg = String::from_str("kid: ");
                append_json_string(&mut msg, kid.as_str());
                msg.append("'s key not found");
                proof {
                    assert(msg@ =~= decrypt_kid_missing_text(kid@));
                }
                return Err(msg);
            },
        };
        if key.len() != 32 {
            proof {
                assert(decrypt_one(bi, keys@) == Err::<(Seq<char>, Seq<char>), Seq<char>>(
                    "decryption failed"@,
                ));
                assert(decrypt_upto(blobs@, keys@, i + 1) is Err);
                lemma_decrypt_err_sticks(blobs@, keys@, i + 1, n as int);
            }
            return Err(String::from_str("decryption failed"));
        }
        let iv = match b64_decode(iv_text.as_str()) {
            Some(v) => v,
            None => {
                proof {
                    assert(decrypt_one(bi, keys@) == Err::<(Seq<char>, Seq<char>), Seq<char>>(
                        "decryption failed"@,
                    ));
                    assert(decrypt_upto(blobs@, keys@, i + 1) is Err);
                    lemma_decrypt_err_sticks(blobs@, keys@, i + 1, n as int);
                }
                return Err(String::from_str("decryption failed"));
            },
        };
        if iv.len() != 12 {
            proof {
                assert(decrypt_one(bi, keys@) == Err::<(Seq<char>, Seq<char>), Seq<char>>(
                    "decryption failed"@,
                ));
                assert(decrypt_upto(blobs@, keys@, i + 1) is Err);
                lemma_decrypt_err_sticks(blobs@, keys@, i + 1, n as int);
            }
            return Err(String::from_str("decryption failed"));
        }
        let ct = match b64_decode(data_text.as_str()) {
            Some(v) => v,
            None => {
                proof {
                    assert(decrypt_one(bi, keys@) == Err::<(Seq<char>, Seq<char>), Seq<char>>(
                        "decryption failed"@,
                    ));
                    assert(decrypt_upto(blobs@, keys@, i + 1) is Err);
                    lemma_decrypt_err_sticks(blobs@, keys@, i + 1, n as int);
                }
                return Err(String::from_str("decryption failed"));
            },
        };
        match crypto::decrypt(ct.as_slice(), key.as_slice(), iv.as_slice()) {
            Ok(pt) => {
                let pt_b64 = b64_encode(pt.as_slice());
                let ghost prev = pairs@;
                pairs.push((data_text.clone(), pt_b64));
                proof {
                    assert(pairs@.drop_last() =~= prev);
                    assert(pairs_view(pairs@) =~= pairs_view(prev).push(
                        (data_text@, b64_of(pt@)),
                    ));
                    assert(decrypt_one(bi, keys@) == Ok::<(Seq<char>, Seq<char>), Seq<char>>(
                        (data_text@, b64_of(pt@)),
                    ));
                }
            },
            Err(_) => {
                proof {
                    assert(decrypt_one(bi, keys@) == Err::<(Seq<char>, Seq<char>), Seq<char>>(
                        "decryption failed"@,
                    ));
                    assert(decrypt_upto(blobs@, keys@, i + 1) is Err);
                    lemma_decrypt_err_sticks(blobs@, keys@, i + 1, n as int);
                }
                return Err(String::from_str("decryption failed"));
            },
        }
    }
    Ok(render_ok_data(&pairs))
}

/// Fetches each requested key-encryption key in order; the first unknown
/// identifier fails the whole request.
pub fn handle_get_kek(request: &Request, keys: &KeyManager) -> (r: Result<String, String>)
    requires
        keys.wf(),
    ensures
        match (r, kek_handler_spec(*request, keys@)) {
            (Ok(s), Ok(t)) => s@ == t,
            (Err(e), Err(t)) => e@ == t,
            _ => false,
        },
{
    let kids = match &request.kids {
        Some(ks) => ks,
        None => {
            return Err(String::from_str("get KEK parameters error"));
        },
    };
    let mut pairs: Vec<(String, String)> = Vec::new();
    let n = kids.len();
    proof {
        assert(pairs_view(pairs@) =~= Seq::<(Seq<char>, Seq<char>)>::empty());
    }
    for i in 0..n
        invariant
            keys.wf(),
            n == kids@.len(),
            request.kids matches Some(ks) && ks@ == kids@,
            kek_upto(kids@, keys@, i as int) == Ok::<_, Seq<char>>(pairs_view(pairs@)),
    {
        let ghost ki = kids@[i as int];
        let kid = match &kids[i] {
            Some(k) => k,
            None => {
                proof {
                    assert(kek_one(ki, keys@) == Err::<(Seq<char>, Seq<char>), Seq<char>>(
                        "get KEK parameters error"@,
                    ));
                    assert(kek_upto(kids@, keys@, i + 1) is Err);
                    lemma_kek_err_sticks(kids@, keys@, i + 1, n as int);
                }
                return Err(String::from_str("get KEK parameters error"));
            },
        };
        let key = match keys.get_key(kid.as_str()) {
            Ok(k) => k,
            Err(_) => {
                proof {
                    assert(kek_one(ki, keys@) == Err::<(Seq<char>, Seq<char>), Seq<char>>(
                        kek_kid_missing_text(kid@),
                    ));
                    assert(kek_upto(kids@, keys@, i + 1) is Err);
                    lemma_kek_err_sticks(kids@, keys@, i + 1, n as int);
                }
                let mut msg = String::from_str("kid: ");
                msg.append(kid.as_str());
                msg.append("'s key not found");
                proof {
                    assert(msg@ =~= kek_kid_missing_text(kid@));
                }
                return Err(msg);
            },
        };
        let key_b64 = b64_encode(key.as_slice());
        let ghost prev = pairs@;
        pairs.push((kid.clone(), key_b64));
        proof {
            assert(pairs@.drop_last() =~= prev);
            assert(pairs_view(pairs@) =~= pairs_view(prev).push((kid@, b64_of(keys@[kid@]))));
            assert(kek_one(ki, keys@) == Ok::<(Seq<char>, Seq<char>), Seq<char>>(
                (kid@, b64_of(keys@[kid@])),
            ));
        }
    }
    Ok(render_ok_data(&pairs))
}

pub fn handle_get_policy(files: &FileMap) -> (r: Result<String, String>)
    requires
        files.wf(),
    ensures
        match r {
            Ok(s) => files@.contains_key(POLICY@) && s@ == b64_of(files@[POLICY@]),
            Err(e) => !files@.contains_key(POLICY@) && e@ == "Can't fetch policy.json file, error:"@
                + not_found_text(),
        },
{
    match image::export_base64(files, POLICY) {
        Ok(s) => Ok(s),
        Err(e) => {
            let mut msg = String::from_str("Can't fetch policy.json file, error:");
            msg.append(e.as_str());
            Err(msg)
        },
    }
}

pub fn handle_get_sigstore_config(files: &FileMap) -> (r: Result<String, String>)
    requires
        files.wf(),
    ensures
        match r {
            Ok(s) => files@.contains_key(SIGSTORE@) && s@ == b64_of(files@[SIGSTORE@]),
            Err(e) => !files@.contains_key(SIGSTORE@) && e@
                == "Can't fetch sigstore.yaml file, error:"@ + not_found_text(),
        },
{
    match image::export_base64(files, SIGSTORE) {
        Ok(s) => Ok(s),
        Err(e) => {
            let mut msg = String::from_str("Can't fetch sigstore.yaml file, error:");
            msg.append(e.as_str());
            Err(msg)
        },
    }
}

pub fn handle_get_cosign_key(files: &FileMap) -> (r: Result<String, String>)
    requires
        files.wf(),
    ensures
        match r {
            Ok(s) => files@.contains_key(COSIGN@) && s@ == b64_of(files@[COSIGN@]),
            Err(e) => !files@.contains_key(COSIGN@) && e@ == "Can't fetch cosign key file, error:"@
                + not_found_text(),
        },
{
    match image::export_base64(files, COSIGN) {
        Ok(s) => Ok(s),
        Err(e) => {
            let mut msg = String::from_str("Can't fetch cosign key file, error:");
            msg.append(e.as_str());
            Err(msg)
        },
    }
}

pub fn handle_get_credential(files: &FileMap) -> (r: Result<String, String>)
    requires
        files.wf(),
    ensures
        match r {
            Ok(s) => files@.contains_key(CREDENTIAL@) && s@ == b64_of(files@[CREDENTIAL@]),
            Err(e) => !files@.contains_key(CREDENTIAL@) && e@
                == "Can't fetch cosign key file, error:"@ + not_found_text(),
        },
{
    match image::export_base64(files, CREDENTIAL) {
        Ok(s) => Ok(s),
        Err(e) => {
            let mut msg = String::from_str("Can't fetch cosign key file, error:");
            msg.append(e.as_str());
            Err(msg)
        },
    }
}

pub fn handle_get_gpg_keyring(files: &FileMap) -> (r: Result<String, String>)
    requires
        files.wf(),
    ensures
        match r {
            Ok(s) => files@.contains_key(GPG_KEYRING@) && s@ == b64_of(files@[GPG_KEYRING@]),
            Err(e) => !files@.contains_key(GPG_KEYRING@) && e@
                == "Can't fetch gpg keyring file, error:"@ + gpg::export_failed_text(),
        },
{
    match gpg::export_base64(files) {
        Ok(s) => Ok(s),
        Err(e) => {
            let mut msg = String::from_str("Can't fetch gpg keyring file, error:");
            msg.append(e.as_str());
            Err(msg)
        },
    }
}

/// Reports the base64 size of the named document.
pub fn handle_get_resource_info(request: &Request, files: &FileMap) -> (r: Result<String, String>)
    requires
        files.wf(),
    ensures
        match (r, info_size_result(request.name, files@)) {
            (Ok(s), Ok(n)) => s@ == info_response(n),
            (Err(e), Err(t)) => e@ == t,
            _ => false,
        },
{
    let name = match &request.name {
        Some(n) => n,
        None => {
            return Err(String::from_str("file name error"));
        },
    };
    let sized: Result<usize, String> = if str_eq(name.as_str(), "GPG Keyring") {
        gpg::size_base64(files)
    } else if str_eq(name.as_str(), "Policy") {
        image::size_base64(files, POLICY)
    } else if str_eq(name.as_str(), "Sigstore Config") {
        image::size_base64(files, SIGSTORE)
    } else if str_eq(name.as_str(), "Cosign Key") {
        image::size_base64(files, COSIGN)
    } else if str_eq(name.as_str(), "Credential") {
        image::size_base64(files, CREDENTIAL)
    } else {
        return Err(String::from_str("file name error"));
    };
    match sized {
        Ok(size) => {
            let mut s = String::from_str("{\"status\":\"OK\",\"data\":{\"base64size\":");
            let num = u64_dec(size as u64);
            append_json_string(&mut s, num.as_str());
            s.append("}}");
            proof {
                assert(s@ =~= info_response(size as int));
            }
            Ok(s)
        },
        Err(e) => Err(e),
    }
}

/// Interprets one request and produces the response text and the
/// post-response action, exactly as `dispatch_spec` lays out. Handler-level
/// failures are folded into the command's envelope; only an absent or
/// unrecognized command fails the request itself.
pub fn handle(request: &Request, keys: &KeyManager, files: &FileMap) -> (r: Result<
    (String, u8),
    String,
>)
    requires
        keys.wf(),
        files.wf(),
    ensures
        match (r, dispatch_spec(*request, keys@, files@)) {
            (Ok((s, a)), Ok((t, ta))) => s@ == t && a == ta,
            (Err(e), Err(t)) => e@ == t,
            _ => false,
        },
{
    let cmd = match &request.command {
        Some(c) => c,
        None => {
            return Err(String::from_str("Command error"));
        },
    };
    if str_eq(cmd.as_str(), "version") {
        let response = match handle_version() {
            Ok(s) => s,
            Err(e) => e,
        };
        Ok((response, ACTION_NONE))
    } else if str_eq(cmd.as_str(), "Decrypt") {
        let response = match handle_decrypt(request, keys) {
            Ok(s) => s,
            Err(e) => error_message(e.as_str()),
        };
        Ok((response, ACTION_NONE))
    } else if str_eq(cmd.as_str(), "Get KEK") {
        let response = match handle_get_kek(request, keys) {
            Ok(s) => s,
            Err(e) => error_message(e.as_str()),
        };
        Ok((response, ACTION_NONE))
    } else if str_eq(cmd.as_str(), "echo") {
        let response = match handle_echo(request) {
            Ok(s) => s,
            Err(e) => e,
        };
        Ok((response, ACTION_DISCONNECT))
    } else if str_eq(cmd.as_str(), "Get Policy") {
        let response = match handle_get_policy(files) {
            Ok(s) => s,
            Err(e) => b64_encode(error_message2(e.as_str()).as_str().as_bytes()),
        };
        Ok((response, ACTION_NONE))
    } else if str_eq(cmd.as_str(), "Get Sigstore Config") {
        let response = match handle_get_sigstore_config(files) {
            Ok(s) => s,
            Err(e) => b64_encode(error_message2(e.as_str()).as_str().as_bytes()),
        };
        Ok((response, ACTION_NONE))
    } else if str_eq(cmd.as_str(), "Get GPG Keyring") {
        let response = match handle_get_gpg_keyring(files) {
            Ok(s) => s,
            Err(e) => b64_encode(error_message2(e.as_str()).as_str().as_bytes()),
        };
        Ok((response, ACTION_NONE))
    } else if str_eq(cmd.as_str(), "Get Resource Info") {
        let response = match handle_get_resource_info(request, files) {
            Ok(s) => s,
            Err(e) => error_message2(e.as_str()),
        };
        Ok((response, ACTION_NONE))
    } else if str_eq(cmd.as_str(), "Get Cosign Key") {
        let response = match handle_get_cosign_key(files) {
            Ok(s) => s,
            Err(e) => b64_encode(error_message2(e.as_str()).as_str().as_bytes()),
        };
        Ok((response, ACTION_NONE))
    } else if str_eq(cmd.as_str(), "Get Credential") {
        let response = match handle_get_credential(files) {
            Ok(s) => s,
            Err(e) => b64_encode(error_message2(e.as_str()).as_str().as_bytes()),
        };
        Ok((response, ACTION_NONE))
    } else {
        Err(String::from_str("Command error"))
    }
}

} // verus!
