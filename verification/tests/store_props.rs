use verdictd::fsmap::FileMap;
use verdictd::gpg;
use verdictd::image;
use verdictd::keys::KeyManager;
use verdictd::opa;
use verdictd::opa::PolicyCheck;
use verdictd::resource::{ResourceManager, Resources};

#[test]
fn credential_store_set_then_get_returns_value() {
    let mut km = KeyManager::default().unwrap();
    assert_eq!(km.key_dir, "/opt/verdictd/keys");

    km.set_key("kid-1", b"0123456789abcdef0123456789abcdef").unwrap();
    assert_eq!(km.get_key("kid-1").unwrap(), b"0123456789abcdef0123456789abcdef".to_vec());

    km.set_key("kid-1", b"second value").unwrap();
    assert_eq!(km.get_key("kid-1").unwrap(), b"second value".to_vec());

    km.set_key("nested/dir/kid-2", b"deep").unwrap();
    assert_eq!(km.get_key("nested/dir/kid-2").unwrap(), b"deep".to_vec());

    assert!(km.get_key("absent").is_err());
}

#[test]
fn resource_store_set_then_get_returns_value() {
    let mut rs = Resources::new("/tmp/test-resources").unwrap();
    assert_eq!(rs.resource_dir, "/tmp/test-resources");

    rs.set_resource("cosign-public-key/default/key", b"KEY BYTES").unwrap();
    assert_eq!(rs.get_resource("cosign-public-key/default/key").unwrap(), b"KEY BYTES".to_vec());

    rs.set_resource("cosign-public-key/default/key", b"NEWER").unwrap();
    assert_eq!(rs.get_resource("cosign-public-key/default/key").unwrap(), b"NEWER".to_vec());

    assert!(rs.get_resource("no/such/resource").is_err());
}

#[test]
fn resource_store_seeds_defaults_once() {
    let rs = Resources::default().unwrap();
    let policy = rs.get_resource("default/security-policy/test").unwrap();
    assert_eq!(
        String::from_utf8(policy).unwrap(),
        "{\n                \"default\": [\n                    {\n                        \"type\": \"insecureAcceptAnything\"\n                    }\n                ],\n            }"
    );
    let sigstore = rs.get_resource("default/sigstore-config/test").unwrap();
    assert_eq!(
        String::from_utf8(sigstore).unwrap(),
        "default:\n    sigstore: file:///var/lib/containers/sigstore\n"
    );
}

#[test]
fn resource_info_equals_base64_length() {
    let mut rs = Resources::new("/tmp/test-resources").unwrap();

    rs.set_resource("empty", b"").unwrap();
    let got = rs.get_resource("empty").unwrap();
    assert_eq!(rs.get_resource_info("empty").unwrap(), base64::encode(&got).len());
    assert_eq!(rs.get_resource_info("empty").unwrap(), 0);

    rs.set_resource("one", b"x").unwrap();
    let got = rs.get_resource("one").unwrap();
    assert_eq!(rs.get_resource_info("one").unwrap(), base64::encode(&got).len());
    assert_eq!(rs.get_resource_info("one").unwrap(), 4);

    rs.set_resource("three", b"abc").unwrap();
    assert_eq!(rs.get_resource_info("three").unwrap(), 4);

    rs.set_resource("four", b"abcd").unwrap();
    assert_eq!(rs.get_resource_info("four").unwrap(), 8);

    assert!(rs.get_resource_info("absent").is_err());
}

#[test]
fn resource_manager_forwards_to_store() {
    let rs = Resources::new("/tmp/test-resources").unwrap();
    let mut rm = ResourceManager::new(rs);
    rm.set_resource("credential/auth", b"secret").unwrap();
    assert_eq!(rm.get_resource("credential/auth").unwrap(), b"secret".to_vec());
    assert!(rm.get_resource("absent").is_err());
}

#[test]
fn safe_set_failure_rolls_back_and_leaves_no_backup() {
    let mut files = FileMap::new();
    verdictd::file::write(&mut files, "/data/doc", "before").unwrap();

    let res = verdictd::file::set(&mut files, "/data/doc", "after", true);
    assert!(res.is_err());
    assert_eq!(verdictd::file::export_raw(&files, "/data/doc").unwrap(), b"before".to_vec());
    assert!(!files.contains("/data/doc.bak"));
}

#[test]
fn safe_set_failure_on_absent_path_leaves_it_absent() {
    let mut files = FileMap::new();
    let res = verdictd::file::set(&mut files, "/data/new", "content", true);
    assert!(res.is_err());
    assert!(verdictd::file::export_raw(&files, "/data/new").is_err());
    assert!(!files.contains("/data/new.bak"));
}

#[test]
fn safe_set_success_stores_content_and_leaves_no_backup() {
    let mut files = FileMap::new();
    verdictd::file::write(&mut files, "/data/doc", "before").unwrap();
    verdictd::file::set(&mut files, "/data/doc", "after", false).unwrap();
    assert_eq!(verdictd::file::export_raw(&files, "/data/doc").unwrap(), b"after".to_vec());
    assert!(!files.contains("/data/doc.bak"));

    verdictd::file::set(&mut files, "/data/fresh", "first", false).unwrap();
    assert_eq!(verdictd::file::export_raw(&files, "/data/fresh").unwrap(), b"first".to_vec());
}

#[test]
fn file_helpers_report_size_and_encodings() {
    let mut files = FileMap::new();
    verdictd::file::write(&mut files, "/f", "Hello, world!").unwrap();
    assert_eq!(verdictd::file::size(&files, "/f").unwrap(), 13);
    assert_eq!(verdictd::file::export_string(&files, "/f").unwrap(), "Hello, world!");
    assert_eq!(verdictd::file::export_base64(&files, "/f").unwrap(), base64::encode("Hello, world!"));
    assert!(verdictd::file::size(&files, "/absent").is_err());
}

#[test]
fn image_defaults_seed_exact_documents() {
    let mut files = FileMap::new();
    image::default(&mut files).unwrap();
    assert_eq!(
        verdictd::file::export_string(&files, image::POLICY).unwrap(),
        "{\n    \"default\": [\n        {\n            \"type\": \"insecureAcceptAnything\"\n        }\n    ],\n}"
    );
    assert_eq!(
        verdictd::file::export_string(&files, image::SIGSTORE).unwrap(),
        "default:\n    sigstore: file:///var/lib/containers/sigstore\n"
    );
    // seeding again must not overwrite
    verdictd::file::write(&mut files, image::POLICY, "custom").unwrap();
    image::default(&mut files).unwrap();
    assert_eq!(verdictd::file::export_string(&files, image::POLICY).unwrap(), "custom");
}

#[test]
fn image_size_base64_matches_encoding() {
    let mut files = FileMap::new();
    verdictd::file::write(&mut files, image::COSIGN, "0123456789").unwrap();
    assert_eq!(image::size_base64(&files, image::COSIGN).unwrap(), base64::encode("0123456789").len());
    let err = image::size_base64(&files, image::CREDENTIAL).unwrap_err();
    assert_eq!(err, "Fetch /opt/verdictd/image/auth.json size failed:not found");
}

#[test]
fn gpg_exports_keyring_as_base64() {
    let mut files = FileMap::new();
    assert_eq!(gpg::export_base64(&files).unwrap_err(), "export GPG keyring failed:not found");
    assert_eq!(gpg::size_base64(&files).unwrap_err(), "Fetch GPG keyring size failed:not found");
    verdictd::file::write(&mut files, gpg::GPG_KEYRING, "RING").unwrap();
    assert_eq!(gpg::export_base64(&files).unwrap(), base64::encode("RING"));
    assert_eq!(gpg::size_base64(&files).unwrap(), base64::encode("RING").len());
}

#[test]
fn opa_reference_and_export_round_trip() {
    let mut files = FileMap::new();
    opa::set_reference(&mut files, "sgxData", "{\"svn\": 3}", false).unwrap();
    assert_eq!(opa::export(&files, "sgxData").unwrap(), "{\"svn\": 3}");
    assert!(opa::export(&files, "absent").is_err());
}

#[test]
fn opa_set_policy_keeps_accepted_policy() {
    let mut files = FileMap::new();
    opa::set_policy(&mut files, "p.rego", "package policy", false, PolicyCheck::Passed).unwrap();
    assert_eq!(opa::export(&files, "p.rego").unwrap(), "package policy");
    assert!(!files.contains("/opt/verdictd/opa/p.rego.bak"));
}

#[test]
fn opa_set_policy_restores_on_rejection() {
    let mut files = FileMap::new();
    opa::set_policy(&mut files, "p.rego", "good one", false, PolicyCheck::Passed).unwrap();
    let err = opa::set_policy(&mut files, "p.rego", "broken(", false, PolicyCheck::Rejected)
        .unwrap_err();
    assert_eq!(err, "Policy syntax check failed");
    assert_eq!(opa::export(&files, "p.rego").unwrap(), "good one");
}

#[test]
fn opa_set_policy_restores_when_checker_unavailable() {
    let mut files = FileMap::new();
    opa::set_policy(&mut files, "p.rego", "good one", false, PolicyCheck::Passed).unwrap();
    let err = opa::set_policy(&mut files, "p.rego", "anything", false, PolicyCheck::Unavailable)
        .unwrap_err();
    assert_eq!(err, "Policy syntax check execution failed");
    assert_eq!(opa::export(&files, "p.rego").unwrap(), "good one");
}

#[test]
fn opa_set_policy_restores_on_write_failure() {
    let mut files = FileMap::new();
    opa::set_policy(&mut files, "p.rego", "good one", false, PolicyCheck::Passed).unwrap();
    let err =
        opa::set_policy(&mut files, "p.rego", "newer", true, PolicyCheck::Passed).unwrap_err();
    assert_eq!(err, "Store policy failed: write failed");
    assert_eq!(opa::export(&files, "p.rego").unwrap(), "good one");
}

#[test]
fn opa_defaults_seed_exact_documents() {
    let mut files = FileMap::new();
    opa::default(&mut files).unwrap();
    let policy = opa::export(&files, "sgxPolicy.rego").unwrap();
    assert!(policy.starts_with("\npackage policy\n"));
    assert!(policy.contains("default allow = false"));
    assert_eq!(
        opa::export(&files, "sgxData").unwrap(),
        "{\n    \"mrEnclave\": [],\n    \"mrSigner\": [],\n    \"productId\": 0,\n    \"svn\": 0\n}"
    );
}

#[test]
fn decision_inputs_resolve_from_store_or_inline() {
    let mut files = FileMap::new();
    opa::set_reference(&mut files, "data", "stored data", false).unwrap();
    opa::set_policy(&mut files, "pol", "stored policy", false, PolicyCheck::Passed).unwrap();

    let (p, r) = verdictd::decision::resolve_decision_inputs(
        &files, "pol", "", false, "data", "", false,
    )
    .unwrap();
    assert_eq!(p, "stored policy");
    assert_eq!(r, "stored data");

    let (p, r) = verdictd::decision::resolve_decision_inputs(
        &files, "", "inline policy", true, "data", "", false,
    )
    .unwrap();
    assert_eq!(p, "inline policy");
    assert_eq!(r, "stored data");

    assert!(verdictd::decision::resolve_decision_inputs(
        &files, "absent", "", false, "data", "", false,
    )
    .is_err());
}

#[test]
fn test_set_get_key() {
    let kid = String::from("test_key");
    let key_content = b"test_key_content".to_vec();
    let mut km = KeyManager::default().unwrap();

    let set_res = km.set_key(&kid, &key_content);
    assert!(set_res.is_ok());

    let key = km.get_key(&kid);
    assert_eq!(key.unwrap(), key_content);
}

#[test]
fn test_file() {
    let mut files = FileMap::new();
    let content = "Hello, world!";
    let test_file_name = "temp_file.txt";

    let result = verdictd::file::write(&mut files, test_file_name, content);
    assert!(result.is_ok());

    let result = verdictd::file::size(&files, test_file_name);
    assert!(result.is_ok());
    assert_eq!(result.unwrap(), content.len());

    let result = verdictd::file::export_base64(&files, test_file_name);
    assert!(result.is_ok());
    assert_eq!(result.unwrap(), base64::encode(content));

    let result = verdictd::file::export_raw(&files, test_file_name);
    assert!(result.is_ok());
    assert_eq!(result.unwrap(), content.as_bytes().to_vec());

    let result = verdictd::file::export_string(&files, test_file_name);
    assert!(result.is_ok());
    assert_eq!(result.unwrap(), content);
}
