//! The embedded secret record and its recovery.
//!
//! At build time the credential is sealed into a [`SecretRecord`]: a hex
//! nonce and a hex ciphertext, baked as immutable strings into the artifact
//! (the hex application identifier is baked in separately, in obfuscated
//! form).  At run time [`password_line`] decodes the record, opens it with
//! the key derived from the running machine's identity, and yields the
//! replacement line: the secret, a line feed, and a terminating nul byte.

use vstd::prelude::*;

use crate::encryption::{encrypt, recover_spec, Error};
use crate::hexcodec::{hex_decode, hex_decode_seq, hex_encode, is_hex_seq, lemma_hex_round_trip};

verus! {

/// The line feed byte that ends the replacement line.
pub const LINE_FEED: u8 = 10;

/// The sealed secret as it is embedded in the artifact: both parts hex
/// encoded.  Produced once at build time, only ever read at run time.
pub struct SecretRecord {
    /// Hex encoding of the 12-byte nonce the secret was sealed with.
    pub nonce_hex: String,
    /// Hex encoding of the authenticated ciphertext.
    pub ciphertext_hex: String,
}

/// The password that a record recovers to on a machine, or `None` when a hex
/// string is malformed, the nonce is not 12 bytes, or the ciphertext does not
/// authenticate under the derived key.
pub open spec fn recovered_password(
    nonce_hex: Seq<char>,
    ciphertext_hex: Seq<char>,
    app_id_hex: Seq<char>,
    machine_id: Seq<u8>,
) -> Option<Seq<u8>> {
    if is_hex_seq(app_id_hex) && is_hex_seq(nonce_hex) && hex_decode_seq(nonce_hex).len() == 12
        && is_hex_seq(ciphertext_hex) {
        recover_spec(
            hex_decode_seq(app_id_hex),
            machine_id,
            hex_decode_seq(nonce_hex),
            hex_decode_seq(ciphertext_hex),
        )
    } else {
        None
    }
}

/// The replacement line built from a recovered password: the password, a line
/// feed, and the nul terminator.
pub open spec fn secret_line(password: Seq<u8>) -> Seq<u8> {
    password + seq![LINE_FEED, 0u8]
}

/// The replacement line that a record yields on a machine: the recovered
/// password as a nul-terminated line, or `None` when recovery fails or the
/// password holds a nul byte and so cannot stand in a C string.
pub open spec fn recovered_secret_line(
    nonce_hex: Seq<char>,
    ciphertext_hex: Seq<char>,
    app_id_hex: Seq<char>,
    machine_id: Seq<u8>,
) -> Option<Seq<u8>> {
    match recovered_password(nonce_hex, ciphertext_hex, app_id_hex, machine_id) {
        Some(p) => if p.contains(0u8) {
            None
        } else {
            Some(secret_line(p))
        },
        None => None,
    }
}

/// Seal a credential into the record that gets baked into the artifact.
///
/// The contract states the binding: the record it returns recovers, under the
/// same application identifier and machine identity, to exactly the sealed
/// plaintext.  Sealing succeeds for every credential within the AES-GCM
/// length bound and fails only above it; the hex ciphertext is two digits for
/// each plaintext byte and each tag byte.  The nonce is fresh and random, so
/// nothing else is promised of the record's content.
pub fn provision(plaintext: &[u8], app_id: &[u8], machine_id: &[u8]) -> (r: Result<
    SecretRecord,
    Error,
>)
    ensures
        match r {
            Ok(rec) => {
                &&& plaintext@.len() <= crate::encryption::MAX_PLAINTEXT_LEN
                &&& is_hex_seq(rec.nonce_hex@)
                &&& rec.nonce_hex@.len() == 24
                &&& hex_decode_seq(rec.nonce_hex@).len() == 12
                &&& is_hex_seq(rec.ciphertext_hex@)
                &&& rec.ciphertext_hex@.len() == 2 * (plaintext@.len()
                    + crate::encryption::TAG_LEN)
                &&& recover_spec(
                    app_id@,
                    machine_id@,
                    hex_decode_seq(rec.nonce_hex@),
                    hex_decode_seq(rec.ciphertext_hex@),
                ) == Some(plaintext@)
            },
            Err(e) => plaintext@.len() > crate::encryption::MAX_PLAINTEXT_LEN && e
                == Error::Cipher,
        },
{
    let (nonce, ciphertext) = match encrypt(plaintext, app_id, machine_id) {
        Ok(p) => p,
        Err(e) => {
            return Err(e);
        },
    };
    proof {
        lemma_hex_round_trip(nonce@);
        lemma_hex_round_trip(ciphertext@);
    }
    Ok(
        SecretRecord {
            nonce_hex: hex_encode(nonce.as_slice()),
            ciphertext_hex: hex_encode(ciphertext.as_slice()),
        },
    )
}

/// Law: the round trip closes at the record level.  A record with the shape
/// `provision` guarantees — well-formed hex, a 12-byte nonce, a ciphertext
/// that recovers to the sealed secret — yields, with the same application
/// identifier and machine identity, exactly that secret's replacement line,
/// provided the secret holds no nul byte and so can stand in a C string.
pub proof fn lemma_record_round_trip(
    nonce_hex: Seq<char>,
    ciphertext_hex: Seq<char>,
    app_id_hex: Seq<char>,
    machine_id: Seq<u8>,
    secret: Seq<u8>,
)
    requires
        is_hex_seq(app_id_hex),
        is_hex_seq(nonce_hex),
        hex_decode_seq(nonce_hex).len() == 12,
        is_hex_seq(ciphertext_hex),
        recover_spec(
            hex_decode_seq(app_id_hex),
            machine_id,
            hex_decode_seq(nonce_hex),
            hex_decode_seq(ciphertext_hex),
        ) == Some(secret),
        !secret.contains(0u8),
    ensures
        recovered_secret_line(nonce_hex, ciphertext_hex, app_id_hex, machine_id) == Some(
            secret_line(secret),
        ),
{
}

/// Recover the replacement line from the embedded record.
///
/// Decodes the hex nonce, ciphertext and application identifier, opens the
/// ciphertext with the key derived from the given machine identity, and
/// appends the line feed and the nul terminator.  Every failure — malformed
/// hex, a nonce that is not 12 bytes, an unauthentic ciphertext, a password
/// with an interior nul — is the one opaque cipher error.
#[verifier::loop_isolation(false)]
pub fn password_line(
    nonce_hex: &str,
    ciphertext_hex: &str,
    app_id_hex: &str,
    machine_id: &[u8],
) -> (r: Result<Vec<u8>, Error>)
    ensures
        match r {
            Ok(line) => recovered_secret_line(nonce_hex@, ciphertext_hex@, app_id_hex@, machine_id@)
                == Some(line@),
            Err(e) => recovered_secret_line(nonce_hex@, ciphertext_hex@, app_id_hex@, machine_id@)
                is None && e == Error::Cipher,
        },
{
    let app_id = match hex_decode(app_id_hex) {
        Ok(v) => v,
        Err(e) => {
            return Err(e);
        },
    };
    let nonce_bytes = match hex_decode(nonce_hex) {
        Ok(v) => v,
        Err(e) => {
            return Err(e);
        },
    };
    if nonce_bytes.len() != 12 {
        return Err(Error::Cipher);
    }
    let ciphertext = match hex_decode(ciphertext_hex) {
        Ok(v) => v,
        Err(e) => {
            return Err(e);
        },
    };
    let mut nonce = [0u8; 12];
    let mut i: usize = 0;
    while i < 12
        invariant
            i <= 12,
            nonce_bytes@.len() == 12,
            forall|j: int| 0 <= j < i ==> nonce@[j] == nonce_bytes@[j],
        decreases 12 - i,
    {
        nonce[i] = nonce_bytes[i];
        i = i + 1;
    }
    assert(nonce@ =~= nonce_bytes@);
    let mut password = match crate::encryption::decrypt(
        &nonce,
        ciphertext.as_slice(),
        app_id.as_slice(),
        machine_id,
    ) {
        Ok(p) => p,
        Err(e) => {
            return Err(e);
        },
    };
    let mut k: usize = 0;
    while k < password.len()
        invariant
            k <= password@.len(),
            forall|j: int| 0 <= j < k ==> password@[j] != 0u8,
        decreases password@.len() - k,
    {
        if password[k] == 0 {
            proof {
                assert(password@.contains(0u8)) by {
                    assert(password@[k as int] == 0u8);
                }
            }
            return Err(Error::Cipher);
        }
        k = k + 1;
    }
    assert(!password@.contains(0u8));
    let ghost p = password@;
    password.push(LINE_FEED);
    password.push(0u8);
    assert(password@ =~= secret_line(p));
    Ok(password)
}

} // verus!
