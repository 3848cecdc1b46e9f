//! Key derivation: an ordered list of passphrases and a 16-byte salt become
//! one 32-byte key. Each passphrase yields a 32-byte sub-key through PBKDF2
//! (HMAC-SHA-256, a fixed high iteration count); the first sub-key starts an
//! accumulator and every later one is folded in by a byte-wise exclusive-or.
//! The byte-wise fold is commutative, so the key does not in fact depend on
//! the order of the passphrases; this algorithm is kept exactly as it is for
//! container compatibility, and the order-independence is stated and proved
//! below rather than silently changed.

use vstd::prelude::*;
use vstd::assert_seqs_equal;
use crate::secure::{SecureBuffer, zero_bytes};
use crate::CubeError;
use pbkdf2::pbkdf2_hmac;
use sha2::Sha256;

verus! {

/// Length of the derived key and of every sub-key, in bytes.
pub const KEY_LEN: usize = 32;

/// Length of the salt, in bytes.
pub const SALT_LEN: usize = 16;

/// PBKDF2 iteration count, fixed for every derivation.
pub const PBKDF2_ITERATIONS: u32 = 100_000;

/// The 32-byte sub-key that PBKDF2-HMAC-SHA-256 (at `PBKDF2_ITERATIONS`
/// rounds) yields for one passphrase and one salt. A function of its two
/// arguments alone.
pub uninterp spec fn kdf_of(password: Seq<char>, salt: Seq<u8>) -> Seq<u8>;

/// Relies on `pbkdf2::pbkdf2_hmac::<sha2::Sha256>`: fills the 32-byte output
/// buffer with key material that is a deterministic function of the password
/// bytes, the salt and the fixed iteration count alone.
#[verifier::external_body]
fn kdf_subkey(password: &str, salt: &Vec<u8>) -> (r: Vec<u8>)
    ensures
        r@ == kdf_of(password@, salt@),
        r@.len() == KEY_LEN,
{
    let mut out = vec![0u8; 32];
    pbkdf2_hmac::<Sha256>(
        password.as_bytes(),
        salt.as_slice(),
        PBKDF2_ITERATIONS,
        &mut out,
    );
    out
}

/// One fold step: the sub-key is combined into the 32-byte accumulator by a
/// byte-wise exclusive-or over the fixed key width.
pub open spec fn mix(acc: Seq<u8>, sub: Seq<u8>) -> Seq<u8> {
    Seq::new(KEY_LEN as nat, |i: int| acc[i] ^ sub[i])
}

/// The character sequences of a list of passphrases.
pub open spec fn views_of(passwords: Seq<String>) -> Seq<Seq<char>> {
    passwords.map_values(|p: String| p@)
}

/// The derived key for a non-empty ordered list of passphrases and a salt:
/// the sub-key of the first passphrase, with the sub-key of every later one
/// folded in by `mix`.
pub open spec fn derive_spec(passwords: Seq<Seq<char>>, salt: Seq<u8>) -> Seq<u8>
    recommends
        passwords.len() > 0,
    decreases passwords.len(),
{
    if passwords.len() <= 1 {
        kdf_of(passwords[0], salt)
    } else {
        mix(derive_spec(passwords.drop_last(), salt), kdf_of(passwords.last(), salt))
    }
}

/// Derives the 32-byte key for `passwords` and `salt`.
///
/// An empty password list is rejected before any derivation is attempted;
/// for every non-empty list the call succeeds and the returned buffer holds
/// exactly `derive_spec` of the inputs. Every sub-key buffer is wiped once
/// it has been folded in; the accumulator is handed back as the key inside
/// a `SecureBuffer`, which the caller wipes after use.
pub fn derive_key(passwords: &Vec<String>, salt: &Vec<u8>) -> (r: Result<SecureBuffer, CubeError>)
    requires
        salt@.len() == SALT_LEN,
    ensures
        r is Err <==> passwords@.len() == 0,
        r is Err ==> r == Err::<SecureBuffer, CubeError>(CubeError::EmptyPasswordList),
        r is Ok ==> r->Ok_0@ == derive_spec(views_of(passwords@), salt@),
        r is Ok ==> r->Ok_0@.len() == KEY_LEN,
{
    if passwords.len() == 0 {
        return Err(CubeError::EmptyPasswordList);
    }
    let ghost pws = views_of(passwords@);
    let mut acc = kdf_subkey(passwords[0].as_str(), salt);
    assert(pws.take(1) =~= seq![pws[0]]);
    let mut i: usize = 1;
    while i < passwords.len()
        invariant
            1 <= i <= passwords@.len(),
            salt@.len() == SALT_LEN,
            pws == views_of(passwords@),
            acc@.len() == KEY_LEN,
            acc@ == derive_spec(pws.take(i as int), salt@),
        decreases passwords@.len() - i,
    {
        let mut sub = kdf_subkey(passwords[i].as_str(), salt);
        let ghost acc0 = acc@;
        let mut j: usize = 0;
        while j < KEY_LEN
            invariant
                j <= KEY_LEN,
                acc@.len() == KEY_LEN,
                sub@.len() == KEY_LEN,
                sub@ == kdf_of(pws[i as int], salt@),
                forall|k: int| 0 <= k < j ==> acc@[k] == (acc0[k] ^ sub@[k]),
                forall|k: int| j <= k < KEY_LEN ==> acc@[k] == acc0[k],
            decreases KEY_LEN - j,
        {
            let t: u8 = acc[j] ^ sub[j];
            acc[j] = t;
            j += 1;
        }
        assert(acc@ =~= mix(acc0, sub@));
        zero_bytes(&mut sub);
        proof {
            let next = pws.take(i + 1);
            assert(next.drop_last() =~= pws.take(i as int));
            assert(next.last() == pws[i as int]);
        }
        i += 1;
    }
    assert(pws.take(passwords@.len() as int) =~= pws);
    Ok(SecureBuffer::from_vec(acc))
}

/// Determinism: the derived key is a function of the passphrase list and the
/// salt alone, so any two results that key derivation can return for the
/// same inputs are byte-for-byte identical.
pub proof fn lemma_derive_deterministic(
    k1: Seq<u8>,
    k2: Seq<u8>,
    passwords: Seq<Seq<char>>,
    salt: Seq<u8>,
)
    requires
        passwords.len() > 0,
        k1 == derive_spec(passwords, salt),
        k2 == derive_spec(passwords, salt),
    ensures
        k1 == k2,
{
}

/// The byte-wise exclusive-or fold is commutative.
pub proof fn lemma_mix_commutes(a: Seq<u8>, b: Seq<u8>)
    ensures
        mix(a, b) == mix(b, a),
{
    assert(forall|x: u8, y: u8| (x ^ y) == (y ^ x)) by (bit_vector);
    assert_seqs_equal!(mix(a, b) == mix(b, a));
}

/// Order-independence of the current scheme: for two passphrases the derived
/// key is the same whichever of them comes first. This documents the fold's
/// commutativity rather than the stated design intent of order-dependence.
pub proof fn lemma_derive_two_commutes(a: Seq<char>, b: Seq<char>, salt: Seq<u8>)
    ensures
        derive_spec(seq![a, b], salt) == derive_spec(seq![b, a], salt),
{
    let ab = seq![a, b];
    let ba = seq![b, a];
    assert(ab.drop_last() =~= seq![a]);
    assert(ba.drop_last() =~= seq![b]);
    assert(seq![a][0] == a && seq![b][0] == b);
    assert(derive_spec(seq![a], salt) == kdf_of(a, salt));
    assert(derive_spec(seq![b], salt) == kdf_of(b, salt));
    assert(ab.last() == b && ba.last() == a);
    assert(derive_spec(ab, salt) == mix(kdf_of(a, salt), kdf_of(b, salt)));
    assert(derive_spec(ba, salt) == mix(kdf_of(b, salt), kdf_of(a, salt)));
    lemma_mix_commutes(kdf_of(a, salt), kdf_of(b, salt));
}

} // verus!
