//! What can go wrong with one file.

use vstd::prelude::*;

verus! {

/// Why a file was not sealed or opened. No output comes with an error.
#[derive(Clone, Copy, Debug, PartialEq, Eq, Structural)]
pub enum CryptError {
    /// The key is not the hex text of 32 bytes.
    KeyFormat,
    /// The system gave no random bytes for a new key.
    NoRandomness,
    /// The cipher refused to seal.
    SealRefused,
    /// The file's contents or its name are not hex text.
    NotHex,
    /// The cipher refused to open: the tag does not match the key and the
    /// sealed bytes, or there are too few bytes to hold a tag.
    Authentication,
    /// The opened name is not text.
    NameNotText,
}

} // verus!
