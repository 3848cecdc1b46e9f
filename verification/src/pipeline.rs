//! The pipeline: an ordered password list and a byte payload in, a container
//! out, and the inverse. Salt and IV are drawn fresh from the operating
//! system for every encryption; the derived key lives in a `SecureBuffer`
//! and is wiped as soon as the cipher has consumed it. Reading the payload
//! from a directory and writing the container to disk are the caller's
//! business: this module works on bytes alone.

use vstd::prelude::*;
use crate::secure::SecureBuffer;
use crate::kdf::{derive_key, derive_spec, views_of};
use crate::cipher::{cbc_encrypt_of, cbc_decrypt_of, padded_len};
use crate::cipher;
use crate::codec::{
    HEADER_LEN,
    salt_of,
    iv_of,
    ciphertext_of,
    serialize,
    deserialize,
    lemma_codec_round_trip,
};
use crate::CubeError;
use rand::RngCore;

verus! {

/// Relies on `rand::rngs::OsRng` through `rand::RngCore::fill_bytes`: fills
/// the buffer from the operating system's entropy source. Nothing is
/// promised of the values beyond their count.
#[verifier::external_body]
fn fill_random_16() -> (r: Vec<u8>)
    ensures
        r@.len() == 16,
{
    let mut buf = vec![0u8; 16];
    rand::rngs::OsRng.fill_bytes(&mut buf);
    buf
}

/// Encrypts `payload` under `passwords` with a fresh random salt and IV and
/// returns the serialized container `salt || iv || ciphertext`.
///
/// Fails exactly when the password list is empty. The salt and IV are not
/// pinned down (they are random), but the container is promised coherent:
/// deriving the key again from the same passwords and the stored salt and
/// decrypting the stored ciphertext under the stored IV gives back the
/// payload exactly — which is precisely what `decrypt_container` does.
pub fn encrypt_container(passwords: &Vec<String>, payload: &Vec<u8>) -> (r: Result<
    Vec<u8>,
    CubeError,
>)
    ensures
        r is Err <==> passwords@.len() == 0,
        r is Err ==> r == Err::<Vec<u8>, CubeError>(CubeError::EmptyPasswordList),
        r is Ok ==> r->Ok_0@.len() == HEADER_LEN + padded_len(payload@.len()),
        r is Ok ==> ciphertext_of(r->Ok_0@) == cbc_encrypt_of(
            derive_spec(views_of(passwords@), salt_of(r->Ok_0@)),
            iv_of(r->Ok_0@),
            payload@,
        ),
        r is Ok ==> cbc_decrypt_of(
            derive_spec(views_of(passwords@), salt_of(r->Ok_0@)),
            iv_of(r->Ok_0@),
            ciphertext_of(r->Ok_0@),
        ) == payload@,
{
    let salt = fill_random_16();
    let iv = fill_random_16();
    let mut key: SecureBuffer = match derive_key(passwords, &salt) {
        Ok(k) => k,
        Err(e) => {
            return Err(e);
        },
    };
    let ciphertext = cipher::encrypt_payload(&key, &iv, payload);
    key.wipe();
    let container = serialize(&salt, &iv, &ciphertext);
    proof {
        lemma_codec_round_trip(salt@, iv@, ciphertext@);
    }
    Ok(container)
}

/// Parses `container`, derives the key from `passwords` and the stored
/// salt, and decrypts the stored ciphertext under the stored IV.
///
/// Fails exactly on a container shorter than the 32-byte prefix
/// (`TruncatedContainer`) or an empty password list (`EmptyPasswordList`),
/// in that order. A wrong password list is not an error: the call succeeds
/// and the result is garbled bytes.
pub fn decrypt_container(passwords: &Vec<String>, container: &Vec<u8>) -> (r: Result<
    Vec<u8>,
    CubeError,
>)
    ensures
        container@.len() < HEADER_LEN ==> r == Err::<Vec<u8>, CubeError>(
            CubeError::TruncatedContainer,
        ),
        container@.len() >= HEADER_LEN && passwords@.len() == 0 ==> r == Err::<Vec<u8>, CubeError>(
            CubeError::EmptyPasswordList,
        ),
        r is Ok <==> container@.len() >= HEADER_LEN && passwords@.len() > 0,
        r is Ok ==> r->Ok_0@ == cbc_decrypt_of(
            derive_spec(views_of(passwords@), salt_of(container@)),
            iv_of(container@),
            ciphertext_of(container@),
        ),
{
    let (salt, iv, ciphertext) = match deserialize(container) {
        Ok(parts) => parts,
        Err(e) => {
            return Err(e);
        },
    };
    let mut key: SecureBuffer = match derive_key(passwords, &salt) {
        Ok(k) => k,
        Err(e) => {
            return Err(e);
        },
    };
    let plaintext = cipher::decrypt_payload(&key, &iv, &ciphertext);
    key.wipe();
    Ok(plaintext)
}

/// Round trip: what `encrypt_container` promises of a container it returns
/// for a password list and a payload, together with what
/// `decrypt_container` promises of its result for the same password list
/// and that container, forces the recovered bytes to be the payload,
/// byte for byte.
pub proof fn lemma_round_trip(
    passwords: Seq<Seq<char>>,
    payload: Seq<u8>,
    container: Seq<u8>,
    recovered: Seq<u8>,
)
    requires
        cbc_decrypt_of(
            derive_spec(passwords, salt_of(container)),
            iv_of(container),
            ciphertext_of(container),
        ) == payload,
        recovered == cbc_decrypt_of(
            derive_spec(passwords, salt_of(container)),
            iv_of(container),
            ciphertext_of(container),
        ),
    ensures
        recovered == payload,
{
}

} // verus!
