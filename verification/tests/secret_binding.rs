//! The machine binding of the sealed secret: round trips, authentication
//! failures, and the decoding of the embedded record.

use openvpn_auth_hook::encryption::{decrypt, encrypt, Error};
use openvpn_auth_hook::hooks::{recover_and_substitute, ReadOutcome};
use openvpn_auth_hook::params::{password_line, provision};

const APP_ID: &[u8] = &[0x4f, 0x56, 0x50, 0x4e];
const APP_ID_HEX: &str = "4f56504e";
const MACHINE_ID: &[u8] = b"d3b07384d113edec49eaa6238ad5ff00\n";
const OTHER_MACHINE_ID: &[u8] = b"ffffffffffffffffffffffffffffffff\n";

/// Sealing and opening with the same identifiers returns the secret, for
/// arbitrary byte sequences including the empty one and bytes that are not
/// text.
#[test]
fn test_encrypt_decrypt_round_trip() {
    let secrets: &[&[u8]] = &[b"", b"p", b"secretpass", &[0u8, 255u8, 10u8, 128u8]];
    for secret in secrets {
        let (nonce, ciphertext) =
            encrypt(secret, APP_ID, MACHINE_ID).expect("sealing the secret failed");
        let opened = decrypt(&nonce, &ciphertext, APP_ID, MACHINE_ID);
        assert_eq!(opened, Ok(secret.to_vec()));
    }
}

/// Opening with a key derived from a different machine identity fails with
/// the opaque cipher error and never returns any plaintext.
#[test]
fn test_decrypt_wrong_machine_identity_fails() {
    let (nonce, ciphertext) =
        encrypt(b"secretpass", APP_ID, MACHINE_ID).expect("sealing the secret failed");
    let opened = decrypt(&nonce, &ciphertext, APP_ID, OTHER_MACHINE_ID);
    assert_eq!(opened, Err(Error::Cipher));
}

/// Opening with a different application identifier fails the same way.
#[test]
fn test_decrypt_wrong_app_id_fails() {
    let (nonce, ciphertext) =
        encrypt(b"secretpass", APP_ID, MACHINE_ID).expect("sealing the secret failed");
    let opened = decrypt(&nonce, &ciphertext, &[0x00], MACHINE_ID);
    assert_eq!(opened, Err(Error::Cipher));
}

/// A tampered ciphertext does not authenticate.
#[test]
fn test_decrypt_tampered_ciphertext_fails() {
    let (nonce, mut ciphertext) =
        encrypt(b"secretpass", APP_ID, MACHINE_ID).expect("sealing the secret failed");
    ciphertext[0] ^= 1;
    let opened = decrypt(&nonce, &ciphertext, APP_ID, MACHINE_ID);
    assert_eq!(opened, Err(Error::Cipher));
}

/// The record provision emits decodes back to the secret line: the password,
/// a line feed and the nul terminator.
#[test]
fn test_provision_password_line_round_trip() {
    let record = provision(b"secretpass", APP_ID, MACHINE_ID).expect("sealing the secret failed");
    let line = password_line(&record.nonce_hex, &record.ciphertext_hex, APP_ID_HEX, MACHINE_ID);
    assert_eq!(line, Ok(b"secretpass\n\0".to_vec()));
}

/// The hex strings in a provisioned record really are hex: 24 lower-case
/// digits for the 12-byte nonce, two digits per ciphertext byte.
#[test]
fn test_provision_emits_hex() {
    let record = provision(b"secretpass", APP_ID, MACHINE_ID).expect("sealing the secret failed");
    assert_eq!(record.nonce_hex.len(), 24);
    // AES-GCM ciphertext: the plaintext length plus the 16-byte tag.
    assert_eq!(record.ciphertext_hex.len(), 2 * (10 + 16));
    let is_lower_hex =
        |s: &str| s.chars().all(|c| c.is_ascii_digit() || ('a'..='f').contains(&c));
    assert!(is_lower_hex(&record.nonce_hex));
    assert!(is_lower_hex(&record.ciphertext_hex));
}

/// Malformed hex in the record is the opaque cipher error: a non-digit, an
/// odd length, and upper-case digits are accepted while a stray character is
/// not.
#[test]
fn test_password_line_bad_hex() {
    let record = provision(b"secretpass", APP_ID, MACHINE_ID).expect("sealing the secret failed");
    assert_eq!(
        password_line("zz", &record.ciphertext_hex, APP_ID_HEX, MACHINE_ID),
        Err(Error::Cipher)
    );
    assert_eq!(
        password_line(&record.nonce_hex, "abc", APP_ID_HEX, MACHINE_ID),
        Err(Error::Cipher)
    );
    assert_eq!(
        password_line(&record.nonce_hex, &record.ciphertext_hex, "4g", MACHINE_ID),
        Err(Error::Cipher)
    );
    let upper = record.nonce_hex.to_uppercase();
    assert_eq!(
        password_line(&upper, &record.ciphertext_hex, APP_ID_HEX, MACHINE_ID),
        Ok(b"secretpass\n\0".to_vec())
    );
}

/// A nonce that does not decode to exactly 12 bytes is rejected.
#[test]
fn test_password_line_wrong_nonce_length() {
    let record = provision(b"secretpass", APP_ID, MACHINE_ID).expect("sealing the secret failed");
    assert_eq!(
        password_line("abcd", &record.ciphertext_hex, APP_ID_HEX, MACHINE_ID),
        Err(Error::Cipher)
    );
}

/// A recovered password with an interior nul byte cannot stand in a C string
/// and is rejected as the opaque cipher error.
#[test]
fn test_password_line_interior_nul() {
    let record = provision(b"se\0cret", APP_ID, MACHINE_ID).expect("sealing the secret failed");
    assert_eq!(
        password_line(&record.nonce_hex, &record.ciphertext_hex, APP_ID_HEX, MACHINE_ID),
        Err(Error::Cipher)
    );
}

/// Recovery on the wrong machine leaves the just-read buffer untouched.
#[test]
fn test_substitute_wrong_machine_preserves_buffer() {
    let record = provision(b"secretpass", APP_ID, MACHINE_ID).expect("sealing the secret failed");
    let mut buf = b"password\n\0??".to_vec();
    let original = buf.clone();
    let capacity = buf.len();
    let other: Vec<u8> = OTHER_MACHINE_ID.to_vec();
    let outcome = recover_and_substitute(
        &mut buf,
        capacity,
        &record.nonce_hex,
        &record.ciphertext_hex,
        APP_ID_HEX,
        Some(&other),
    );
    assert!(matches!(outcome, ReadOutcome::RecoveryFailed));
    assert_eq!(buf, original);
}

/// With no machine identity file at all, recovery fails and the buffer is
/// preserved.
#[test]
fn test_substitute_missing_machine_identity() {
    let record = provision(b"secretpass", APP_ID, MACHINE_ID).expect("sealing the secret failed");
    let mut buf = b"password\n\0".to_vec();
    let original = buf.clone();
    let capacity = buf.len();
    let outcome = recover_and_substitute(
        &mut buf,
        capacity,
        &record.nonce_hex,
        &record.ciphertext_hex,
        APP_ID_HEX,
        None,
    );
    assert!(matches!(outcome, ReadOutcome::RecoveryFailed));
    assert_eq!(buf, original);
}

/// The exact boundary of the capacity check: the secret line fits a buffer of
/// its own length, and misses one byte less.
#[test]
fn test_substitute_capacity_boundary() {
    let record = provision(b"secretpass", APP_ID, MACHINE_ID).expect("sealing the secret failed");
    let machine_id: Vec<u8> = MACHINE_ID.to_vec();
    // secret line: ten password bytes, the line feed, the nul terminator
    let mut buf = vec![b'x'; 12];
    let outcome = recover_and_substitute(
        &mut buf,
        12,
        &record.nonce_hex,
        &record.ciphertext_hex,
        APP_ID_HEX,
        Some(&machine_id),
    );
    assert!(matches!(outcome, ReadOutcome::Replaced));
    assert_eq!(buf, b"secretpass\n\0".to_vec());

    let mut short = vec![b'x'; 12];
    let outcome = recover_and_substitute(
        &mut short,
        11,
        &record.nonce_hex,
        &record.ciphertext_hex,
        APP_ID_HEX,
        Some(&machine_id),
    );
    match outcome {
        ReadOutcome::TooLong { needed, available } => {
            assert_eq!(needed, 12);
            assert_eq!(available, 11);
        }
        _ => panic!("the line must not fit"),
    }
    assert_eq!(short, vec![b'x'; 12]);
}
