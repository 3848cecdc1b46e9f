//! The cipher engine: AES-256 in CBC mode with PKCS#7 padding, over a
//! 32-byte key, a 16-byte IV and a byte payload. There is no authentication
//! tag: decrypting with a wrong key is not an error, it merely yields
//! garbled bytes (or an empty buffer when the padding comes out absurd).

use vstd::prelude::*;
use crate::secure::SecureBuffer;
use crate::kdf::KEY_LEN;
use libaes::Cipher;

verus! {

/// Length of the initialization vector and of a cipher block, in bytes.
pub const IV_LEN: usize = 16;

/// The ciphertext that AES-256-CBC with PKCS#7 padding produces for a key,
/// an IV and a plaintext. A function of its three arguments alone.
pub uninterp spec fn cbc_encrypt_of(key: Seq<u8>, iv: Seq<u8>, plaintext: Seq<u8>) -> Seq<u8>;

/// The bytes that AES-256-CBC decryption (with PKCS#7 padding removal)
/// yields for a key, an IV and a ciphertext. A function of its three
/// arguments alone; for a wrong key it is simply garbled, never an error.
pub uninterp spec fn cbc_decrypt_of(key: Seq<u8>, iv: Seq<u8>, ciphertext: Seq<u8>) -> Seq<u8>;

/// The ciphertext length for a plaintext of length `n`: `n` rounded up to
/// the next multiple of the block size, a full padding block included.
pub open spec fn padded_len(n: nat) -> nat {
    (n + (16 - n % 16)) as nat
}

/// Relies on `libaes::Cipher::new_256` and `Cipher::cbc_encrypt`: encrypts
/// with AES-256-CBC, appending PKCS#7 padding, so the result is one padding
/// step longer than the plaintext, and `Cipher::cbc_decrypt` with the same
/// key and IV recovers the plaintext exactly.
#[verifier::external_body]
fn aes_cbc_encrypt(key: &Vec<u8>, iv: &Vec<u8>, plaintext: &Vec<u8>) -> (r: Vec<u8>)
    requires
        key@.len() == KEY_LEN,
        iv@.len() == IV_LEN,
    ensures
        r@ == cbc_encrypt_of(key@, iv@, plaintext@),
        r@.len() == padded_len(plaintext@.len()),
        cbc_decrypt_of(key@, iv@, r@) == plaintext@,
{
    let key_arr: &[u8; 32] = key.as_slice().try_into().unwrap();
    let cipher = Cipher::new_256(key_arr);
    cipher.cbc_encrypt(iv.as_slice(), plaintext.as_slice())
}

/// Relies on `libaes::Cipher::new_256` and `Cipher::cbc_decrypt`: decrypts
/// with AES-256-CBC and strips what looks like PKCS#7 padding. It never
/// fails: a ciphertext whose length is not a multiple of the block size, or
/// whose padding byte comes out larger than the buffer, yields an empty
/// result, and any other input yields at most its own length.
#[verifier::external_body]
fn aes_cbc_decrypt(key: &Vec<u8>, iv: &Vec<u8>, ciphertext: &Vec<u8>) -> (r: Vec<u8>)
    requires
        key@.len() == KEY_LEN,
        iv@.len() == IV_LEN,
    ensures
        r@ == cbc_decrypt_of(key@, iv@, ciphertext@),
        r@.len() <= ciphertext@.len(),
{
    let key_arr: &[u8; 32] = key.as_slice().try_into().unwrap();
    let cipher = Cipher::new_256(key_arr);
    cipher.cbc_decrypt(iv.as_slice(), ciphertext.as_slice())
}

/// Encrypts `plaintext` under the derived key and the IV.
pub fn encrypt_payload(key: &SecureBuffer, iv: &Vec<u8>, plaintext: &Vec<u8>) -> (r: Vec<u8>)
    requires
        key@.len() == KEY_LEN,
        iv@.len() == IV_LEN,
    ensures
        r@ == cbc_encrypt_of(key@, iv@, plaintext@),
        r@.len() == padded_len(plaintext@.len()),
        cbc_decrypt_of(key@, iv@, r@) == plaintext@,
{
    aes_cbc_encrypt(key.bytes(), iv, plaintext)
}

/// Decrypts `ciphertext` under the derived key and the IV. Whatever the key,
/// this succeeds; a wrong key yields garbled bytes, not an error.
pub fn decrypt_payload(key: &SecureBuffer, iv: &Vec<u8>, ciphertext: &Vec<u8>) -> (r: Vec<u8>)
    requires
        key@.len() == KEY_LEN,
        iv@.len() == IV_LEN,
    ensures
        r@ == cbc_decrypt_of(key@, iv@, ciphertext@),
        r@.len() <= ciphertext@.len(),
{
    aes_cbc_decrypt(key.bytes(), iv, ciphertext)
}

} // verus!
