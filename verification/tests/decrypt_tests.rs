use age::secrecy::ExposeSecret;
use duck_rage::errors::RageError;
use duck_rage::payload::extract;
use duck_rage::secrets::decrypt_secret;

fn encrypt_to(recipient: &age::x25519::Recipient, plaintext: &[u8]) -> Vec<u8> {
    age::encrypt(recipient, plaintext).expect("encryption failed")
}

#[test]
fn round_trip_decrypt_and_extract() {
    let identity = age::x25519::Identity::generate();
    let identity_text = identity.to_string().expose_secret().to_string();
    let ciphertext = encrypt_to(&identity.to_public(), b"{\"db_password\": \"hunter2\"}");

    let plain = decrypt_secret(&ciphertext, "secrets.age", &identity_text, "identity.txt")
        .expect("decryption failed");
    assert_eq!(extract(&plain, "db_password").unwrap(), "hunter2");
}

#[test]
fn wrong_identity_fails_with_decryption_error() {
    let right = age::x25519::Identity::generate();
    let wrong = age::x25519::Identity::generate();
    let wrong_text = wrong.to_string().expose_secret().to_string();
    let ciphertext = encrypt_to(&right.to_public(), b"{\"db_password\": \"hunter2\"}");

    let err = decrypt_secret(&ciphertext, "secrets.age", &wrong_text, "identity.txt")
        .unwrap_err();
    assert!(matches!(err, RageError::Decryption { .. }));
    let msg = err.message();
    assert!(msg.starts_with("Failed to decrypt 'secrets.age' with identity 'identity.txt':"));
    assert!(!msg.contains("hunter2"));
}

#[test]
fn malformed_container_fails_with_decryption_error() {
    let identity = age::x25519::Identity::generate();
    let identity_text = identity.to_string().expose_secret().to_string();
    let err = decrypt_secret(&b"not an age file".to_vec(), "s", &identity_text, "i")
        .unwrap_err();
    assert!(matches!(err, RageError::Decryption { .. }));
}

#[test]
fn garbage_identity_text_fails_with_identity_parse_error() {
    let identity = age::x25519::Identity::generate();
    let ciphertext = encrypt_to(&identity.to_public(), b"{}");
    let err = decrypt_secret(&ciphertext, "s", "not an identity", "id.txt").unwrap_err();
    assert!(matches!(err, RageError::IdentityParse { .. }));
    assert!(err.message().starts_with("Failed to parse identity file 'id.txt':"));
}
