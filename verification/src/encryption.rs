//! Machine-bound encryption and decryption of the secret.
//!
//! The key is derived with HKDF over SHA-256 from the application identifier
//! (as input key material) and the machine identity (as info label), then fed
//! into AES-256-GCM.  Identical inputs always derive the identical key, so a
//! record sealed on one machine opens again only with that machine's identity.
//!
//! The cryptographic calls live behind trusted wrappers; their results are
//! named by uninterpreted spec functions, and every caller's contract is
//! proved from those names.

use vstd::prelude::*;

use aes_gcm::aead::{Aead, OsRng};
use aes_gcm::{AeadCore, Aes256Gcm, KeyInit};
use hkdf::Hkdf;
use sha2::Sha256;

verus! {

/// What can go wrong while sealing or opening the secret.  Every decode,
/// length or authentication failure collapses into the one opaque `Cipher`
/// error, so no caller learns which of them occurred; `Io` stands for a
/// missing machine identity, which only the surrounding process can observe.
#[derive(Clone, Copy, Debug, PartialEq, Eq, Structural)]
pub enum Error {
    Io,
    Cipher,
}

/// The longest plaintext AES-256-GCM encrypts: two to the power of thirty-six
/// bytes.  Sealing is owed to succeed up to this bound and refused above it.
pub const MAX_PLAINTEXT_LEN: u64 = 68719476736;

/// The length of the authentication tag AES-256-GCM appends to the
/// ciphertext.
pub const TAG_LEN: usize = 16;

/// The 32-byte output key material of HKDF-SHA256 with no salt, for the given
/// input key material and info label.  A deterministic function of the two
/// arguments alone.
pub uninterp spec fn hkdf_sha256_okm(ikm: Seq<u8>, info: Seq<u8>) -> Seq<u8>;

/// What AES-256-GCM authenticated decryption returns for a key, nonce and
/// ciphertext: the plaintext when the ciphertext authenticates under that key
/// and nonce, and `None` otherwise.  A deterministic function of the three
/// arguments alone.
pub uninterp spec fn aead_open(key: Seq<u8>, nonce: Seq<u8>, ciphertext: Seq<u8>) -> Option<
    Seq<u8>,
>;

/// What decrypting a record comes to once the key derivation is folded in:
/// open the ciphertext under the key derived from the application identifier
/// and the machine identity.
pub open spec fn recover_spec(
    app_id: Seq<u8>,
    machine_id: Seq<u8>,
    nonce: Seq<u8>,
    ciphertext: Seq<u8>,
) -> Option<Seq<u8>> {
    aead_open(hkdf_sha256_okm(app_id, machine_id), nonce, ciphertext)
}

/// Relies on `hkdf::Hkdf::<Sha256>::new` and `Hkdf::expand`: the
/// extract-and-expand output is a deterministic function of the input key
/// material and the info label.  A 32-byte output is always within HKDF's
/// output-length bound of 255 hash lengths, so the expansion cannot fail.
#[verifier::external_body]
fn generate_key(app_id: &[u8], machine_id: &[u8]) -> (key: [u8; 32])
    ensures
        key@ == hkdf_sha256_okm(app_id@, machine_id@),
{
    let hk = Hkdf::<Sha256>::new(None, app_id);
    let mut okm = [0u8; 32];
    hk.expand(machine_id, &mut okm)
        .expect("a 32-byte key is within HKDF-SHA256's output bound");
    okm
}

/// Relies on `aes_gcm::Aes256Gcm`: `encrypt` seals the plaintext under the
/// key and a freshly generated 12-byte nonce, and `decrypt` under the same
/// key and nonce restores exactly that plaintext.  It fails exactly when the
/// plaintext exceeds the AES-GCM length bound, and the ciphertext is the
/// plaintext's length plus the appended tag.  The nonce is random, so nothing
/// is stated of its value, only what opening the result yields.
#[verifier::external_body]
fn aead_encrypt(key: &[u8; 32], plaintext: &[u8]) -> (r: Result<([u8; 12], Vec<u8>), Error>)
    ensures
        match r {
            Ok(p) => plaintext@.len() <= MAX_PLAINTEXT_LEN && aead_open(key@, p.0@, p.1@) == Some(
                plaintext@,
            ) && p.1@.len() == plaintext@.len() + TAG_LEN,
            Err(e) => plaintext@.len() > MAX_PLAINTEXT_LEN && e == Error::Cipher,
        },
{
    let cipher = Aes256Gcm::new(key.into());
    let nonce = Aes256Gcm::generate_nonce(&mut OsRng);
    match cipher.encrypt(&nonce, plaintext) {
        Ok(ciphertext) => Ok((nonce.into(), ciphertext)),
        Err(_) => Err(Error::Cipher),
    }
}

/// Relies on `aes_gcm::Aes256Gcm::decrypt`: it returns the plaintext exactly
/// when the ciphertext authenticates under the key and nonce, and an error
/// otherwise, as a deterministic function of the three inputs.
#[verifier::external_body]
fn aead_decrypt(key: &[u8; 32], nonce: &[u8; 12], ciphertext: &[u8]) -> (r: Result<Vec<u8>, Error>)
    ensures
        match r {
            Ok(p) => aead_open(key@, nonce@, ciphertext@) == Some(p@),
            Err(e) => aead_open(key@, nonce@, ciphertext@) is None && e == Error::Cipher,
        },
{
    let cipher = Aes256Gcm::new(key.into());
    cipher.decrypt(nonce.into(), ciphertext).map_err(|_| Error::Cipher)
}

/// Seal a secret under the key derived from the application identifier and
/// the machine identity, with a fresh random nonce.
///
/// Returns the nonce together with the ciphertext: both are needed to open
/// the record again, and the contract says that opening it with the same
/// identifiers yields the secret back.  Sealing succeeds for every plaintext
/// within the AES-GCM length bound and fails only above it, with a
/// ciphertext exactly one tag longer than the plaintext.
pub fn encrypt(plaintext: &[u8], app_id: &[u8], machine_id: &[u8]) -> (r: Result<
    ([u8; 12], Vec<u8>),
    Error,
>)
    ensures
        match r {
            Ok(p) => plaintext@.len() <= MAX_PLAINTEXT_LEN && recover_spec(
                app_id@,
                machine_id@,
                p.0@,
                p.1@,
            ) == Some(plaintext@) && p.1@.len() == plaintext@.len() + TAG_LEN,
            Err(e) => plaintext@.len() > MAX_PLAINTEXT_LEN && e == Error::Cipher,
        },
{
    let key = generate_key(app_id, machine_id);
    aead_encrypt(&key, plaintext)
}

/// Open a sealed record under the key derived from the application identifier
/// and the machine identity.
///
/// Returns the secret exactly when the ciphertext authenticates under the
/// derived key and the nonce; every failure is the one opaque cipher error.
pub fn decrypt(nonce: &[u8; 12], ciphertext: &[u8], app_id: &[u8], machine_id: &[u8]) -> (r: Result<
    Vec<u8>,
    Error,
>)
    ensures
        match r {
            Ok(p) => recover_spec(app_id@, machine_id@, nonce@, ciphertext@) == Some(p@),
            Err(e) => recover_spec(app_id@, machine_id@, nonce@, ciphertext@) is None && e
                == Error::Cipher,
        },
{
    let key = generate_key(app_id, machine_id);
    aead_decrypt(&key, nonce, ciphertext)
}

/// Law: the round trip closes.  Whatever nonce and ciphertext `encrypt`
/// produced for a secret — its contract says they open, under the key
/// derived from the same application identifier and machine identity, to
/// that secret — recovering them yields the secret, which is the verdict
/// `decrypt`'s contract returns `Ok` by.
pub proof fn lemma_encrypt_decrypt_round_trip(
    app_id: Seq<u8>,
    machine_id: Seq<u8>,
    nonce: Seq<u8>,
    ciphertext: Seq<u8>,
    secret: Seq<u8>,
)
    requires
        aead_open(hkdf_sha256_okm(app_id, machine_id), nonce, ciphertext) == Some(secret),
    ensures
        recover_spec(app_id, machine_id, nonce, ciphertext) == Some(secret),
{
}

} // verus!
