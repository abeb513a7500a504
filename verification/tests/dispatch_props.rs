use aes_gcm::aead::{Aead, NewAead};
use verdictd::fsmap::FileMap;
use verdictd::image;
use verdictd::keys::KeyManager;
use verdictd::protocol::{
    error_message, error_message2, handle, EncryptedBlob, Request, ACTION_DISCONNECT, ACTION_NONE,
};

fn empty_request(command: &str) -> Request {
    Request {
        command: Some(command.to_string()),
        blobs: None,
        kids: None,
        data: None,
        name: None,
    }
}

#[test]
fn version_always_answers_ok_v1() {
    let km = KeyManager::new("/tmp/k").unwrap();
    let files = FileMap::new();
    let (resp, action) = handle(&empty_request("version"), &km, &files).unwrap();
    assert_eq!(resp, "{\"status\":\"OK\",\"version\":\"v1\"}");
    assert_eq!(action, ACTION_NONE);

    // extra fields change nothing
    let mut req = empty_request("version");
    req.data = Some("ignored".to_string());
    req.name = Some("ignored".to_string());
    let (resp, _) = handle(&req, &km, &files).unwrap();
    assert_eq!(resp, "{\"status\":\"OK\",\"version\":\"v1\"}");
}

#[test]
fn echo_returns_data_verbatim_and_disconnects() {
    let km = KeyManager::new("/tmp/k").unwrap();
    let files = FileMap::new();
    let mut req = empty_request("echo");
    req.data = Some("hi".to_string());
    let (resp, action) = handle(&req, &km, &files).unwrap();
    assert_eq!(resp, "hi");
    assert_eq!(action, ACTION_DISCONNECT);

    let (resp, action) = handle(&empty_request("echo"), &km, &files).unwrap();
    assert_eq!(resp, "Echo parameters error");
    assert_eq!(action, ACTION_DISCONNECT);
}

#[test]
fn unrecognized_or_missing_command_fails_the_request() {
    let km = KeyManager::new("/tmp/k").unwrap();
    let files = FileMap::new();
    assert_eq!(handle(&empty_request("reboot"), &km, &files).unwrap_err(), "Command error");
    let req = Request { command: None, blobs: None, kids: None, data: None, name: None };
    assert_eq!(handle(&req, &km, &files).unwrap_err(), "Command error");
}

fn decrypt_blob(algorithm: &str, key_length: i64, data_b64: &str, iv_b64: &str, kid: &str) -> EncryptedBlob {
    EncryptedBlob {
        algorithm: Some(algorithm.to_string()),
        key_length: Some(key_length),
        encrypted_data: Some(data_b64.to_string()),
        iv: Some(iv_b64.to_string()),
        kid: Some(kid.to_string()),
    }
}

#[test]
fn decrypt_rejects_wrong_cipher_configuration_before_any_lookup() {
    // the store is empty: a key lookup would answer "key not found", so the
    // "parameters error" answer shows validation decided first
    let km = KeyManager::new("/tmp/k").unwrap();
    let files = FileMap::new();

    let mut req = empty_request("Decrypt");
    req.blobs = Some(vec![decrypt_blob("DES", 256, "AAAA", "AAAA", "kid-1")]);
    let (resp, action) = handle(&req, &km, &files).unwrap();
    assert_eq!(resp, "{\"status\":\"Fail\",\"data\":{},\"error\":\"parameters error\"}");
    assert_eq!(action, ACTION_NONE);

    let mut req = empty_request("Decrypt");
    req.blobs = Some(vec![decrypt_blob("AES", 128, "AAAA", "AAAA", "kid-1")]);
    let (resp, _) = handle(&req, &km, &files).unwrap();
    assert_eq!(resp, "{\"status\":\"Fail\",\"data\":{},\"error\":\"parameters error\"}");

    // a missing field is a parameters error as well
    let mut req = empty_request("Decrypt");
    let mut blob = decrypt_blob("AES", 256, "AAAA", "AAAA", "kid-1");
    blob.iv = None;
    req.blobs = Some(vec![blob]);
    let (resp, _) = handle(&req, &km, &files).unwrap();
    assert_eq!(resp, "{\"status\":\"Fail\",\"data\":{},\"error\":\"parameters error\"}");

    // no blobs array at all
    let (resp, _) = handle(&empty_request("Decrypt"), &km, &files).unwrap();
    assert_eq!(resp, "{\"status\":\"Fail\",\"data\":{},\"error\":\"decrypt parameters error\"}");
}

#[test]
fn decrypt_reports_unknown_key_with_quoted_identifier() {
    let km = KeyManager::new("/tmp/k").unwrap();
    let files = FileMap::new();
    let mut req = empty_request("Decrypt");
    req.blobs = Some(vec![decrypt_blob("AES", 256, "AAAA", "AAAA", "no-such-kid")]);
    let (resp, _) = handle(&req, &km, &files).unwrap();
    assert_eq!(
        resp,
        "{\"status\":\"Fail\",\"data\":{},\"error\":\"kid: \\\"no-such-kid\\\"'s key not found\"}"
    );
}

#[test]
fn decrypt_reports_tampered_ciphertext_as_decryption_failed() {
    let mut km = KeyManager::new("/tmp/k").unwrap();
    let files = FileMap::new();
    let key = b"01234567890123456789012345678901";
    km.set_key("kid-1", key).unwrap();

    let cipher = aes_gcm::Aes256Gcm::new(aes_gcm::Key::from_slice(key));
    let iv = b"012345678901";
    let mut ct = cipher
        .encrypt(aes_gcm::Nonce::from_slice(iv), b"payload".as_ref())
        .unwrap();
    ct[0] ^= 1;

    let mut req = empty_request("Decrypt");
    req.blobs = Some(vec![decrypt_blob(
        "AES",
        256,
        &base64::encode(&ct),
        &base64::encode(iv),
        "kid-1",
    )]);
    let (resp, _) = handle(&req, &km, &files).unwrap();
    assert_eq!(resp, "{\"status\":\"Fail\",\"data\":{},\"error\":\"decryption failed\"}");
}

#[test]
fn end_to_end_create_encrypt_submit_decrypt() {
    let mut km = KeyManager::new("/tmp/k").unwrap();
    let files = FileMap::new();
    let (kid, key) = km.create_key().unwrap();

    let plaintext = b"a known plaintext";
    let iv = b"012345678901";
    let cipher = aes_gcm::Aes256Gcm::new(aes_gcm::Key::from_slice(&key));
    let ct = cipher
        .encrypt(aes_gcm::Nonce::from_slice(iv), plaintext.as_ref())
        .unwrap();
    let ct_b64 = base64::encode(&ct);
    let pt_b64 = base64::encode(plaintext);

    let mut req = empty_request("Decrypt");
    req.blobs = Some(vec![decrypt_blob("AES", 256, &ct_b64, &base64::encode(iv), &kid)]);
    let (resp, action) = handle(&req, &km, &files).unwrap();
    assert_eq!(resp, format!("{{\"status\":\"OK\",\"data\":{{\"{}\":\"{}\"}}}}", ct_b64, pt_b64));
    assert_eq!(action, ACTION_NONE);
}

#[test]
fn get_kek_returns_keys_in_order_and_fails_whole_batch() {
    let mut km = KeyManager::new("/tmp/k").unwrap();
    let files = FileMap::new();
    km.set_key("a", b"AAAA").unwrap();
    km.set_key("b", b"BBBB").unwrap();

    let mut req = empty_request("Get KEK");
    req.kids = Some(vec![Some("a".to_string()), Some("b".to_string())]);
    let (resp, _) = handle(&req, &km, &files).unwrap();
    assert_eq!(
        resp,
        format!(
            "{{\"status\":\"OK\",\"data\":{{\"a\":\"{}\",\"b\":\"{}\"}}}}",
            base64::encode(b"AAAA"),
            base64::encode(b"BBBB")
        )
    );

    let mut req = empty_request("Get KEK");
    req.kids = Some(vec![Some("a".to_string()), Some("missing".to_string())]);
    let (resp, _) = handle(&req, &km, &files).unwrap();
    assert_eq!(
        resp,
        "{\"status\":\"Fail\",\"data\":{},\"error\":\"kid: missing's key not found\"}"
    );

    let (resp, _) = handle(&empty_request("Get KEK"), &km, &files).unwrap();
    assert_eq!(resp, "{\"status\":\"Fail\",\"data\":{},\"error\":\"get KEK parameters error\"}");
}

#[test]
fn get_policy_returns_base64_document_or_base64_envelope() {
    let km = KeyManager::new("/tmp/k").unwrap();
    let mut files = FileMap::new();
    image::default(&mut files).unwrap();

    let (resp, _) = handle(&empty_request("Get Policy"), &km, &files).unwrap();
    let expected_doc =
        "{\n    \"default\": [\n        {\n            \"type\": \"insecureAcceptAnything\"\n        }\n    ],\n}";
    assert_eq!(resp, base64::encode(expected_doc));

    let empty = FileMap::new();
    let (resp, _) = handle(&empty_request("Get Policy"), &km, &empty).unwrap();
    let expected_err =
        "{\"status\":\"Fail\",\"error\":\"Can't fetch policy.json file, error:not found\"}";
    assert_eq!(resp, base64::encode(expected_err));
}

#[test]
fn get_gpg_keyring_uses_its_own_error_text() {
    let km = KeyManager::new("/tmp/k").unwrap();
    let files = FileMap::new();
    let (resp, _) = handle(&empty_request("Get GPG Keyring"), &km, &files).unwrap();
    let expected_err =
        "{\"status\":\"Fail\",\"error\":\"Can't fetch gpg keyring file, error:export GPG keyring failed:not found\"}";
    assert_eq!(resp, base64::encode(expected_err));
}

#[test]
fn get_resource_info_reports_base64_size_as_string() {
    let km = KeyManager::new("/tmp/k").unwrap();
    let mut files = FileMap::new();
    verdictd::file::write(&mut files, image::POLICY, "0123456789").unwrap();

    let mut req = empty_request("Get Resource Info");
    req.name = Some("Policy".to_string());
    let (resp, _) = handle(&req, &km, &files).unwrap();
    let expected_size = base64::encode("0123456789").len();
    assert_eq!(
        resp,
        format!("{{\"status\":\"OK\",\"data\":{{\"base64size\":\"{}\"}}}}", expected_size)
    );

    let mut req = empty_request("Get Resource Info");
    req.name = Some("Nonsense".to_string());
    let (resp, _) = handle(&req, &km, &files).unwrap();
    assert_eq!(resp, "{\"status\":\"Fail\",\"error\":\"file name error\"}");

    let req = empty_request("Get Resource Info");
    let (resp, _) = handle(&req, &km, &files).unwrap();
    assert_eq!(resp, "{\"status\":\"Fail\",\"error\":\"file name error\"}");
}

#[test]
fn error_envelopes_escape_embedded_text_as_json() {
    assert_eq!(
        error_message("say \"hi\" \\ twice"),
        "{\"status\":\"Fail\",\"data\":{},\"error\":\"say \\\"hi\\\" \\\\ twice\"}"
    );
    assert_eq!(
        error_message2("line\nbreak\tand\u{1}ctl"),
        "{\"status\":\"Fail\",\"error\":\"line\\nbreak\\tand\\u0001ctl\"}"
    );
}

#[test]
fn base64_wrappers_really_encode() {
    // a value whose encoding differs from the raw bytes
    assert_eq!(base64::encode([0xffu8, 0x00, 0x10]), "/wAQ");
    let mut files = FileMap::new();
    verdictd::file::write(&mut files, "/x", "A").unwrap();
    assert_eq!(verdictd::file::export_base64(&files, "/x").unwrap(), "QQ==");
}

#[test]
fn remaining_fixed_document_commands_are_routed() {
    let km = KeyManager::new("/tmp/k").unwrap();
    let mut files = FileMap::new();
    verdictd::file::write(&mut files, image::SIGSTORE, "sigstore doc").unwrap();
    verdictd::file::write(&mut files, image::COSIGN, "cosign key").unwrap();
    verdictd::file::write(&mut files, image::CREDENTIAL, "auth doc").unwrap();
    verdictd::file::write(&mut files, verdictd::gpg::GPG_KEYRING, "ring").unwrap();

    let (resp, _) = handle(&empty_request("Get Sigstore Config"), &km, &files).unwrap();
    assert_eq!(resp, base64::encode("sigstore doc"));
    let (resp, _) = handle(&empty_request("Get Cosign Key"), &km, &files).unwrap();
    assert_eq!(resp, base64::encode("cosign key"));
    let (resp, _) = handle(&empty_request("Get Credential"), &km, &files).unwrap();
    assert_eq!(resp, base64::encode("auth doc"));
    let (resp, _) = handle(&empty_request("Get GPG Keyring"), &km, &files).unwrap();
    assert_eq!(resp, base64::encode("ring"));

    let empty = FileMap::new();
    let (resp, _) = handle(&empty_request("Get Sigstore Config"), &km, &empty).unwrap();
    assert_eq!(
        resp,
        base64::encode(
            "{\"status\":\"Fail\",\"error\":\"Can't fetch sigstore.yaml file, error:not found\"}"
        )
    );
    let (resp, _) = handle(&empty_request("Get Credential"), &km, &empty).unwrap();
    assert_eq!(
        resp,
        base64::encode(
            "{\"status\":\"Fail\",\"error\":\"Can't fetch cosign key file, error:not found\"}"
        )
    );
}

#[test]
fn resource_info_covers_every_recognized_name() {
    let km = KeyManager::new("/tmp/k").unwrap();
    let mut files = FileMap::new();
    verdictd::file::write(&mut files, verdictd::gpg::GPG_KEYRING, "ring").unwrap();
    verdictd::file::write(&mut files, image::SIGSTORE, "ab").unwrap();

    let mut req = empty_request("Get Resource Info");
    req.name = Some("GPG Keyring".to_string());
    let (resp, _) = handle(&req, &km, &files).unwrap();
    let expected = base64::encode("ring").len();
    assert_eq!(
        resp,
        format!("{{\"status\":\"OK\",\"data\":{{\"base64size\":\"{}\"}}}}", expected)
    );

    let mut req = empty_request("Get Resource Info");
    req.name = Some("Sigstore Config".to_string());
    let (resp, _) = handle(&req, &km, &files).unwrap();
    assert_eq!(resp, "{\"status\":\"OK\",\"data\":{\"base64size\":\"4\"}}");

    let mut req = empty_request("Get Resource Info");
    req.name = Some("Cosign Key".to_string());
    let (resp, _) = handle(&req, &km, &files).unwrap();
    assert_eq!(
        resp,
        "{\"status\":\"Fail\",\"error\":\"Fetch /opt/verdictd/image/cosign.key size failed:not found\"}"
    );
}
