//! Multi-password symmetric encryption of a byte payload.
//!
//! An ordered list of passphrases and a random salt are folded into one
//! 256-bit key (`kdf`), which drives AES-256-CBC encryption of the payload
//! (`cipher`). The on-disk container is the plain concatenation
//! `salt || iv || ciphertext` (`codec`). The `pipeline` module ties the steps
//! together; `secure` provides buffers that are wiped after use, and
//! `entropy` holds the character-class part of the password-strength
//! estimator.

use vstd::prelude::*;

pub mod cipher;
pub mod codec;
pub mod entropy;
pub mod kdf;
pub mod pipeline;
pub mod secure;

verus! {

/// The errors the library itself can raise. I/O failures belong to the
/// caller; a wrong key is not detectable and therefore not an error.
#[derive(Clone, Copy, Debug, PartialEq, Eq, Structural)]
pub enum CubeError {
    /// No passphrases were supplied: key derivation is refused outright.
    EmptyPasswordList,
    /// A container shorter than the fixed 32-byte salt-and-IV prefix.
    TruncatedContainer,
}

} // verus!
