//! The cipher and the key that the host derives.

use secure_file::error::{ErrorKind, SecureFileError};
use secure_file::software::{
    assemble_payload, derive_software_key, machine_secret_material, protect_software,
    protect_software_with, split_payload, unprotect_software, HostIdentity,
};

const SALT: [u8; 16] = [0, 1, 2, 3, 4, 5, 6, 7, 8, 9, 10, 11, 12, 13, 14, 15];
const NONCE: [u8; 12] = [16, 17, 18, 19, 20, 21, 22, 23, 24, 25, 26, 27];
const CIPHERTEXT: [u8; 34] = [
    146, 112, 32, 34, 153, 107, 155, 200, 71, 153, 69, 130, 217, 159, 162, 34, 60, 249, 203, 35,
    243, 33, 110, 101, 93, 8, 52, 84, 155, 167, 86, 124, 17, 27,
];

fn host() -> HostIdentity {
    HostIdentity {
        machine_id: Some(b"0123456789abcdef\n".to_vec()),
        hostname: Some("box".to_string()),
        username: Some("ann".to_string()),
    }
}

fn payload() -> Vec<u8> {
    let mut payload = SALT.to_vec();
    payload.extend_from_slice(&NONCE);
    payload.extend_from_slice(&CIPHERTEXT);
    payload
}

#[test]
fn secret_is_all_the_host_tells() {
    assert_eq!(machine_secret_material(&host()).unwrap(), b"0123456789abcdef\nboxann");
    let named = HostIdentity {
        machine_id: Some(Vec::new()),
        hostname: Some("caf\u{e9}".to_string()),
        username: None,
    };
    assert_eq!(machine_secret_material(&named).unwrap(), [99, 97, 102, 195, 169]);
}

#[test]
fn a_host_that_tells_nothing_has_no_secret() {
    let silent = HostIdentity { machine_id: None, hostname: None, username: None };
    assert_eq!(machine_secret_material(&silent), Err(SecureFileError::NoHostIdentity));
    let empty = HostIdentity {
        machine_id: Some(Vec::new()),
        hostname: Some(String::new()),
        username: Some(String::new()),
    };
    assert_eq!(machine_secret_material(&empty), Err(SecureFileError::NoHostIdentity));
    assert_eq!(derive_software_key(&empty, &SALT), Err(SecureFileError::NoHostIdentity));
    assert_eq!(protect_software(&empty, b"text"), Err(SecureFileError::NoHostIdentity));
    assert_eq!(unprotect_software(&empty, &payload()), Err(SecureFileError::NoHostIdentity));
    assert_eq!(unprotect_software(&empty, &[0; 27]), Err(SecureFileError::PayloadTooShort));
}

#[test]
fn key_is_pbkdf2() {
    assert_eq!(
        derive_software_key(&host(), &SALT).unwrap(),
        [
            94, 251, 126, 137, 87, 163, 248, 212, 68, 188, 64, 91, 73, 78, 233, 60, 75, 41, 68,
            194, 231, 180, 195, 103, 233, 20, 93, 41, 82, 10, 58, 248,
        ]
    );
}

#[test]
fn payload_is_salt_nonce_and_ciphertext() {
    let sealed = protect_software_with(&host(), &SALT, &NONCE, br#"{"secret":"value"}"#).unwrap();
    assert_eq!(sealed, payload());
}

#[test]
fn payload_comes_apart_into_its_parts() {
    let whole = assemble_payload(&SALT, &NONCE, &CIPHERTEXT);
    assert_eq!(whole, payload());
    assert_eq!(split_payload(&whole).unwrap(), (&SALT[..], &NONCE[..], &CIPHERTEXT[..]));
    let bare = assemble_payload(&SALT, &NONCE, &[]);
    assert_eq!(split_payload(&bare).unwrap(), (&SALT[..], &NONCE[..], &[][..]));
    assert_eq!(split_payload(&bare[..27]), Err(SecureFileError::PayloadTooShort));
}

#[test]
fn payload_opens_on_the_same_host() {
    assert_eq!(unprotect_software(&host(), &payload()).unwrap(), br#"{"secret":"value"}"#);
}

#[test]
fn the_secret_counts_and_not_its_parts() {
    let same = HostIdentity {
        machine_id: Some(b"0123456789abcdef\nboxa".to_vec()),
        hostname: None,
        username: Some("nn".to_string()),
    };
    assert_eq!(unprotect_software(&same, &payload()).unwrap(), br#"{"secret":"value"}"#);
}

#[test]
fn another_host_cannot_open() {
    let other = HostIdentity {
        machine_id: Some(b"0123456789abcdef\n".to_vec()),
        hostname: Some("box".to_string()),
        username: Some("bob".to_string()),
    };
    let error = unprotect_software(&other, &payload()).unwrap_err();
    assert_eq!(error, SecureFileError::DecryptFailed("aead::Error".to_string()));
    assert_eq!(error.kind(), ErrorKind::InvalidData);
    assert_eq!(error.message(), "decrypt failed: aead::Error");
}

#[test]
fn tampering_is_noticed() {
    let mut changed = payload();
    changed[40] ^= 1;
    assert_eq!(
        unprotect_software(&host(), &changed),
        Err(SecureFileError::DecryptFailed("aead::Error".to_string()))
    );
}

#[test]
fn a_payload_without_a_whole_tag_does_not_open() {
    assert_eq!(
        unprotect_software(&host(), &payload()[..28]),
        Err(SecureFileError::DecryptFailed("aead::Error".to_string()))
    );
}

#[test]
fn short_payloads_have_an_error_of_their_own() {
    let error = unprotect_software(&host(), &payload()[..27]).unwrap_err();
    assert_eq!(error, SecureFileError::PayloadTooShort);
    assert_eq!(error.kind(), ErrorKind::InvalidData);
    assert_eq!(error.message(), "software encrypted payload is too short");
}

#[test]
fn salt_and_nonce_are_drawn_anew() {
    let first = protect_software(&host(), b"").unwrap();
    let second = protect_software(&host(), b"").unwrap();
    assert_eq!(first.len(), 44);
    assert_eq!(second.len(), 44);
    assert_ne!(first[..16], second[..16]);
    assert_ne!(first[16..28], second[16..28]);
}

#[test]
fn failures_of_the_cipher_have_their_text() {
    let error = SecureFileError::EncryptFailed("aead::Error".to_string());
    assert_eq!(error.kind(), ErrorKind::Other);
    assert_eq!(error.message(), "encrypt failed: aead::Error");
}
