use verdictd::crypto;
use verdictd::keys::KeyManager;
use verdictd::text;

#[test]
fn aes256_gcm_test_encrypt_and_decrypt() {
    let key = b"01234567890123456789012345678901";
    let iv = b"012345678901";
    let data = b"test_data";

    let encrypted_data = crypto::encrypt(data, key, iv);
    assert!(encrypted_data.is_ok(), "encrypt() failed");

    let decrypted_data = crypto::decrypt(&encrypted_data.unwrap(), key, iv);
    assert!(decrypted_data.is_ok(), "decrypt() failed");
}

#[test]
fn round_trip_returns_plaintext() {
    let key = b"an example very very secret key.";
    let iv = b"unique nonce";
    let data = b"some plaintext worth protecting";

    let sealed = crypto::encrypt(data, key, iv).unwrap();
    assert_eq!(sealed.len(), data.len() + 16);
    let opened = crypto::decrypt(&sealed, key, iv).unwrap();
    assert_eq!(opened, data.to_vec());

    let through = crypto::encrypt_then_decrypt(data, key, iv);
    assert_eq!(through, data.to_vec());
}

#[test]
fn round_trip_empty_plaintext() {
    let key = b"01234567890123456789012345678901";
    let iv = b"012345678901";
    let through = crypto::encrypt_then_decrypt(b"", key, iv);
    assert_eq!(through, Vec::<u8>::new());
}

#[test]
fn tampering_any_bit_is_detected() {
    let key = b"01234567890123456789012345678901";
    let iv = b"012345678901";
    let data = b"integrity matters";

    let sealed = crypto::encrypt(data, key, iv).unwrap();
    for byte_index in 0..sealed.len() {
        for bit in 0..8 {
            let mut tampered = sealed.clone();
            tampered[byte_index] ^= 1u8 << bit;
            assert!(crypto::decrypt(&tampered, key, iv).is_err());
        }
    }
}

#[test]
fn decrypt_with_wrong_key_fails() {
    let key = b"01234567890123456789012345678901";
    let other = b"10234567890123456789012345678901";
    let iv = b"012345678901";
    let sealed = crypto::encrypt(b"data", key, iv).unwrap();
    assert!(crypto::decrypt(&sealed, other, iv).is_err());
}

#[test]
fn decrypt_garbage_fails() {
    let key = b"01234567890123456789012345678901";
    let iv = b"012345678901";
    assert!(crypto::decrypt(b"", key, iv).is_err());
    assert!(crypto::decrypt(b"short", key, iv).is_err());
    assert!(crypto::decrypt(&[0u8; 48], key, iv).is_err());
}

#[test]
fn create_key_yields_fresh_32_byte_material() {
    let mut km = KeyManager::new("/tmp/test-keys").unwrap();
    let (id, key) = km.create_key().unwrap();
    assert_eq!(id.len(), 32);
    assert!(id.chars().all(|c| c.is_ascii_hexdigit()));
    assert_eq!(key.len(), 32);
    assert_eq!(km.get_key(&id).unwrap(), key);
}

#[test]
fn delete_key_always_fails() {
    let km = KeyManager::new("/tmp/test-keys").unwrap();
    assert!(km.delete_key("anything").is_err());
}

#[test]
fn hex_rendering_is_exact() {
    assert_eq!(text::bytes_to_hex(&[]), "");
    assert_eq!(text::bytes_to_hex(&[0x00, 0x0f, 0xa5, 0xff]), "000fa5ff");
}

#[test]
fn decimal_rendering_is_exact() {
    assert_eq!(text::u64_dec(0), "0");
    assert_eq!(text::u64_dec(7), "7");
    assert_eq!(text::u64_dec(10), "10");
    assert_eq!(text::u64_dec(65536), "65536");
    assert_eq!(text::u64_dec(u64::MAX), "18446744073709551615");
}

#[test]
fn decrypt_if_altered_never_returns_the_original() {
    let key = b"01234567890123456789012345678901";
    let iv = b"012345678901";
    let data = b"original payload";

    let sealed = crypto::encrypt(data, key, iv).unwrap();
    assert!(crypto::decrypt_if_altered(data, &sealed, key, iv).is_none());

    let mut tampered = sealed.clone();
    tampered[3] ^= 0x10;
    match crypto::decrypt_if_altered(data, &tampered, key, iv) {
        Some(res) => assert!(res.is_err()),
        None => panic!("tampered ciphertext compared equal"),
    }
}
