//! The container codec: the on-disk layout is the plain concatenation
//! `salt(16) || iv(16) || ciphertext(N)`, with no header, magic bytes or
//! version tag. Anything shorter than the fixed 32-byte prefix is refused.

use vstd::prelude::*;
use crate::kdf::SALT_LEN;
use crate::cipher::IV_LEN;
use crate::CubeError;

verus! {

/// Length of the fixed salt-and-IV prefix of every container, in bytes.
pub const HEADER_LEN: usize = 32;

/// The serialized container for a salt, an IV and a ciphertext.
pub open spec fn serialize_spec(salt: Seq<u8>, iv: Seq<u8>, ciphertext: Seq<u8>) -> Seq<u8> {
    salt + iv + ciphertext
}

/// The salt stored in a container: its first 16 bytes.
pub open spec fn salt_of(container: Seq<u8>) -> Seq<u8> {
    container.subrange(0, SALT_LEN as int)
}

/// The IV stored in a container: its second 16 bytes.
pub open spec fn iv_of(container: Seq<u8>) -> Seq<u8> {
    container.subrange(SALT_LEN as int, HEADER_LEN as int)
}

/// The ciphertext stored in a container: everything past the fixed prefix.
pub open spec fn ciphertext_of(container: Seq<u8>) -> Seq<u8> {
    container.skip(HEADER_LEN as int)
}

/// Appends all of `src` to `dst`.
fn push_all(dst: &mut Vec<u8>, src: &Vec<u8>)
    ensures
        final(dst)@ == old(dst)@ + src@,
{
    let mut i: usize = 0;
    while i < src.len()
        invariant
            i <= src@.len(),
            dst@ == old(dst)@ + src@.take(i as int),
        decreases src@.len() - i,
    {
        dst.push(src[i]);
        proof {
            assert(src@.take(i + 1) =~= src@.take(i as int).push(src@[i as int]));
        }
        i += 1;
    }
    assert(src@.take(src@.len() as int) =~= src@);
}

/// Serializes a container: salt, then IV, then ciphertext, nothing else.
pub fn serialize(salt: &Vec<u8>, iv: &Vec<u8>, ciphertext: &Vec<u8>) -> (r: Vec<u8>)
    requires
        salt@.len() == SALT_LEN,
        iv@.len() == IV_LEN,
    ensures
        r@ == serialize_spec(salt@, iv@, ciphertext@),
        r@.len() == HEADER_LEN + ciphertext@.len(),
{
    let mut out: Vec<u8> = Vec::new();
    push_all(&mut out, salt);
    push_all(&mut out, iv);
    push_all(&mut out, ciphertext);
    out
}

/// Copies `container[start..start + n]` into a fresh vector.
fn copy_range(container: &Vec<u8>, start: usize, n: usize) -> (r: Vec<u8>)
    requires
        start + n <= container@.len(),
    ensures
        r@ == container@.subrange(start as int, start + n),
{
    let total: usize = container.len();
    let mut out: Vec<u8> = Vec::new();
    let mut i: usize = 0;
    while i < n
        invariant
            i <= n,
            start + n <= total == container@.len(),
            out@ == container@.subrange(start as int, start + i),
        decreases n - i,
    {
        out.push(container[start + i]);
        proof {
            assert(container@.subrange(start as int, start + i + 1) =~= container@.subrange(
                start as int,
                start + i,
            ).push(container@[start + i]));
        }
        i += 1;
    }
    out
}

/// Parses a container into its salt, IV and ciphertext. Fails exactly when
/// fewer than the fixed 32 prefix bytes are available; the ciphertext may
/// have any length, zero included.
pub fn deserialize(container: &Vec<u8>) -> (r: Result<(Vec<u8>, Vec<u8>, Vec<u8>), CubeError>)
    ensures
        r is Err <==> container@.len() < HEADER_LEN,
        r is Err ==> r == Err::<(Vec<u8>, Vec<u8>, Vec<u8>), CubeError>(
            CubeError::TruncatedContainer,
        ),
        r is Ok ==> r->Ok_0.0@ == salt_of(container@) && r->Ok_0.1@ == iv_of(container@)
            && r->Ok_0.2@ == ciphertext_of(container@),
{
    if container.len() < HEADER_LEN {
        return Err(CubeError::TruncatedContainer);
    }
    let salt = copy_range(container, 0, SALT_LEN);
    let iv = copy_range(container, SALT_LEN, IV_LEN);
    let n = container.len();
    let ciphertext = copy_range(container, HEADER_LEN, n - HEADER_LEN);
    proof {
        assert(container@.subrange(HEADER_LEN as int, container@.len() as int) =~= ciphertext_of(
            container@,
        ));
    }
    Ok((salt, iv, ciphertext))
}

/// Round trip of the codec: parsing a serialized container gives back the
/// salt, the IV and the ciphertext it was built from, exactly.
pub proof fn lemma_codec_round_trip(salt: Seq<u8>, iv: Seq<u8>, ciphertext: Seq<u8>)
    requires
        salt.len() == SALT_LEN,
        iv.len() == IV_LEN,
    ensures
        serialize_spec(salt, iv, ciphertext).len() >= HEADER_LEN,
        salt_of(serialize_spec(salt, iv, ciphertext)) == salt,
        iv_of(serialize_spec(salt, iv, ciphertext)) == iv,
        ciphertext_of(serialize_spec(salt, iv, ciphertext)) == ciphertext,
{
    let c = serialize_spec(salt, iv, ciphertext);
    assert(salt_of(c) =~= salt);
    assert(iv_of(c) =~= iv);
    assert(ciphertext_of(c) =~= ciphertext);
}

} // verus!
