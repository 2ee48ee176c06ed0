use egui_files::codec::{decrypt, decrypt_contents, encrypt, encrypt_contents, CryptoError};
use egui_files::file::{File, FileError};

#[test]
fn round_trip_bytes() {
    let plain = b"my secret data".to_vec();
    let key = b"my secret password".to_vec();
    let container = encrypt(&plain, &key).expect("encrypt");
    let back = decrypt(&container, &key).expect("decrypt");
    assert_eq!(back, plain);
}

#[test]
fn round_trip_contents() {
    let contents = "Hello, \u{e9}dit\u{f6}r \u{1f512}!";
    let key = "pass phrase";
    let container = encrypt_contents(contents, key).expect("encrypt");
    let back = decrypt_contents(&container, key).expect("decrypt");
    assert_eq!(back, contents);
}

#[test]
fn ciphertext_is_not_the_plaintext() {
    let plain = b"my secret data".to_vec();
    let key = b"k".to_vec();
    let container = encrypt(&plain, &key).expect("encrypt");
    // The container carries a 60-byte format prefix ahead of the payload.
    assert_eq!(container.len(), plain.len() + 60);
    assert_ne!(&container[60..], plain.as_slice());
}

#[test]
fn wrong_key_fails_with_cryptographic_error() {
    let plain = b"my secret data".to_vec();
    let container = encrypt(&plain, b"key1").expect("encrypt");
    let result = decrypt(&container, b"key2");
    assert_eq!(result, Err(CryptoError::Cryptography));
}

#[test]
fn garbage_container_is_unrecognized() {
    let result = decrypt(b"not a container at all, much too plain", b"key");
    assert_eq!(result, Err(CryptoError::UnrecognizedFormat));
}

#[test]
fn truncated_container_is_too_short() {
    let plain = b"some longer secret data".to_vec();
    let key = b"key".to_vec();
    let container = encrypt(&plain, &key).expect("encrypt");
    // Keep the header intact but drop the last payload byte.
    let truncated = &container[..container.len() - 1];
    let result = decrypt(truncated, &key);
    assert_eq!(result, Err(CryptoError::TooShort));
}

/// A 60-byte container with a well-formed header: magic, version 1, default
/// options, zero salt and nonce, the given payload-length field, zero tag.
fn header_only_container(length_field: [u8; 8]) -> Vec<u8> {
    let mut container = Vec::new();
    container.extend_from_slice(&[0x7f, 0xc0, b'\n', 0x01]);
    container.extend_from_slice(&[0x01, 0x01, 0x01, 0x00]);
    container.extend_from_slice(&[0u8; 16]); // salt
    container.extend_from_slice(&[0u8; 12]); // nonce
    container.extend_from_slice(&length_field);
    container.extend_from_slice(&[0u8; 16]); // tag
    assert_eq!(container.len(), 60);
    container
}

#[test]
fn oversized_announced_length_is_classified_not_a_crash() {
    // The announced payload length cannot even be added to the prefix size:
    // the codec must classify the container, never crash on it.
    let container = header_only_container([0xff; 8]);
    let result = decrypt(&container, b"key");
    assert_eq!(result, Err(CryptoError::TooLarge));
    let result = decrypt_contents(&container, "key");
    assert_eq!(result, Err(FileError::Cryption(CryptoError::TooLarge)));
}

#[test]
fn huge_but_addable_announced_length_is_too_short() {
    // The largest announced length that still fits next to the 60-byte
    // prefix: the container itself is far shorter than it claims.
    let container = header_only_container((u64::MAX - 60).to_be_bytes());
    let result = decrypt(&container, b"key");
    assert_eq!(result, Err(CryptoError::TooShort));
}

#[test]
fn non_text_payload_is_reported_apart() {
    // 0xff never occurs in UTF-8.
    let payload = vec![0xffu8, 0xfe, 0x00, 0x41];
    let key = "key";
    let container = encrypt(&payload, key.as_bytes()).expect("encrypt");
    let result = decrypt_contents(&container, key);
    assert_eq!(result, Err(FileError::FromUtf8));
}

#[test]
fn open_from_bytes_installs_a_saved_file() {
    let contents = "file body";
    let key = "pw";
    let container = encrypt_contents(contents, key).expect("encrypt");
    let file = File::open_from_bytes(String::from("/tmp/f.enc"), &container, key).expect("open");
    assert_eq!(file.contents().as_str(), contents);
    assert_eq!(file.path(), Some(&String::from("/tmp/f.enc")));
    assert_eq!(file.is_registered_and_saved(), true);
    assert_eq!(file.is_changed(), false);
}

#[test]
fn open_from_bytes_reports_wrong_password() {
    let container = encrypt_contents("body", "right").expect("encrypt");
    let result = File::open_from_bytes(String::from("/tmp/f.enc"), &container, "wrong");
    assert_eq!(result.err(), Some(FileError::Cryption(CryptoError::Cryptography)));
}

#[test]
fn error_messages() {
    assert_eq!(
        FileError::Cryption(CryptoError::Cryptography).message(),
        "Invalid password"
    );
    assert_eq!(
        FileError::Cryption(CryptoError::UnrecognizedFormat).message(),
        "Invalid file: Unrecognized format"
    );
    assert_eq!(
        FileError::Cryption(CryptoError::TooLarge).message(),
        "Invalid file: Too large"
    );
    assert_eq!(
        FileError::Cryption(CryptoError::TooShort).message(),
        "Invalid file: Too short"
    );
    assert_eq!(
        FileError::FromUtf8.message(),
        "Invalid file: Not formatted as string"
    );
    assert_eq!(FileError::Io.message(), "Input/output error");
}
