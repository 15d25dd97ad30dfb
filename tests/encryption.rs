use base64::Engine;
use vault_core::{decrypt, decrypt_blob, encrypt, parse_blob, EncryptionError};

fn blob_with(version: u8, salt: &[u8], nonce: &[u8], rest: &[u8]) -> Vec<u8> {
    let mut b = vec![version];
    b.extend_from_slice(salt);
    b.extend_from_slice(nonce);
    b.extend_from_slice(rest);
    b
}

const SALT: &[u8] = b"AAAAAAAAAAAAAAAAAAAAAA";

#[test]
fn test_encrypt_decrypt() {
    let data = "Hello, world!";
    let password = "secret_password";

    let encrypted = encrypt(data, password).unwrap();
    let decrypted = decrypt(&encrypted, password).unwrap();

    assert_eq!(data, decrypted);
}

#[test]
fn test_decrypt_wrong_password() {
    let data = "Hello, world!";
    let password = "secret_password";
    let wrong_password = "wrong_password";

    let encrypted = encrypt(data, password).unwrap();
    let result = decrypt(&encrypted, wrong_password);

    assert!(result.is_err());
    assert_eq!(result.unwrap_err(), EncryptionError::DecryptionFailed);
}

#[test]
fn test_decrypt_corrupted_data() {
    let data = "Hello, world!";
    let password = "secret_password";

    let mut encrypted = encrypt(data, password).unwrap();
    encrypted.push('A');

    let result = decrypt(&encrypted, password);

    assert!(result.is_err());
    assert_eq!(result.unwrap_err(), EncryptionError::DecryptionFailed);
}

#[test]
fn round_trip_of_empty_and_non_ascii_text() {
    let empty = encrypt("", "pw").unwrap();
    assert_eq!(decrypt(&empty, "pw").unwrap(), "");
    let accents = encrypt("crème brûlée ✓", "mot de passe").unwrap();
    assert_eq!(decrypt(&accents, "mot de passe").unwrap(), "crème brûlée ✓");
}

#[test]
fn two_encryptions_differ() {
    let a = encrypt("same", "pw").unwrap();
    let b = encrypt("same", "pw").unwrap();
    assert_ne!(a, b);
}

#[test]
fn encoded_secret_is_not_the_plaintext() {
    let e = encrypt("plain words", "pw").unwrap();
    assert!(!e.contains("plain words"));
    assert!(e.len() > 4 * (1 + 22 + 12) / 3);
}

#[test]
fn flipped_ciphertext_byte_fails_decryption() {
    let e = encrypt("Hello, world!", "pw").unwrap();
    let mut raw = base64::engine::general_purpose::STANDARD.decode(&e).unwrap();
    let last = raw.len() - 1;
    raw[last] ^= 0x01;
    assert_eq!(decrypt_blob(&raw, "pw").unwrap_err(), EncryptionError::DecryptionFailed);
}

#[test]
fn unsupported_version_is_reported() {
    let e = encrypt("Hello, world!", "pw").unwrap();
    let mut raw = base64::engine::general_purpose::STANDARD.decode(&e).unwrap();
    raw[0] = 2;
    let reencoded = base64::engine::general_purpose::STANDARD.encode(&raw);
    assert_eq!(decrypt(&reencoded, "pw").unwrap_err(), EncryptionError::UnsupportedVersion);
}

#[test]
fn malformed_base64_fails_decryption() {
    assert_eq!(decrypt("not base64 !!", "pw").unwrap_err(), EncryptionError::DecryptionFailed);
}

#[test]
fn short_blob_fails_decryption() {
    let short = vec![1u8; 34];
    assert_eq!(parse_blob(&short).err(), Some(EncryptionError::DecryptionFailed));
    assert_eq!(decrypt_blob(&short, "pw").unwrap_err(), EncryptionError::DecryptionFailed);
}

#[test]
fn header_only_blob_parses_with_empty_ciphertext() {
    let nonce = [7u8; 12];
    let parts = parse_blob(&blob_with(1, SALT, &nonce, &[])).unwrap();
    assert_eq!(parts.salt, "AAAAAAAAAAAAAAAAAAAAAA");
    assert_eq!(parts.nonce, nonce.to_vec());
    assert!(parts.ciphertext.is_empty());
}

#[test]
fn parse_blob_splits_at_fixed_offsets() {
    let nonce = [9u8; 12];
    let parts = parse_blob(&blob_with(1, SALT, &nonce, &[1, 2, 3])).unwrap();
    assert_eq!(parts.ciphertext, vec![1, 2, 3]);
}

#[test]
fn version_is_checked_before_salt() {
    let nonce = [0u8; 12];
    let bad_salt = [b'!'; 22];
    assert_eq!(
        parse_blob(&blob_with(0, &bad_salt, &nonce, &[5])).err(),
        Some(EncryptionError::UnsupportedVersion)
    );
    assert_eq!(
        parse_blob(&blob_with(1, &bad_salt, &nonce, &[5])).err(),
        Some(EncryptionError::DecryptionFailed)
    );
}

#[test]
fn error_messages() {
    assert_eq!(EncryptionError::UnsupportedVersion.message(), "Unsupported version");
    assert_eq!(EncryptionError::DecryptionFailed.message(), "Decryption failed");
}
