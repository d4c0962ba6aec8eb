//! Byte-level encodings the deployment transaction carries: the base64
//! form of the compiled module and the hex form of its SHA-256 hash. Both
//! are computed by outside crates behind trusted wrappers; their results
//! are named, and everything built on top is stated over those names.

use vstd::prelude::*;

verus! {

/// The lowercase hex form of the SHA-256 hash of a byte sequence.
pub uninterp spec fn sha256_hex(data: Seq<u8>) -> Seq<char>;

/// The standard-alphabet, padded base64 form of a byte sequence.
pub uninterp spec fn base64_standard(data: Seq<u8>) -> Seq<char>;

/// The largest input length the base64 encoder accepts without its output
/// length overflowing a `usize`.
pub open spec fn base64_max_len() -> nat {
    ((usize::MAX / 4 - 1) * 3) as nat
}

/// Relies on `sha256::digest` on a byte vector: the lowercase hex digest
/// of the SHA-256 hash, 64 characters, a function of the bytes alone.
#[verifier::external_body]
pub(crate) fn sha256_hex_of(data: &Vec<u8>) -> (r: String)
    ensures
        r@ == sha256_hex(data@),
        r@.len() == 64,
{
    sha256::digest(data)
}

/// Relies on `base64::engine::general_purpose::STANDARD` (standard
/// alphabet, padded) through `Engine::encode`: a function of the bytes
/// alone, four output characters for every started group of three input
/// bytes. The encoder aborts when that length overflows a `usize`, so
/// inputs that long are excluded.
#[verifier::external_body]
pub(crate) fn base64_standard_of(data: &Vec<u8>) -> (r: String)
    requires
        data@.len() <= base64_max_len(),
    ensures
        r@ == base64_standard(data@),
        r@.len() == 4 * ((data@.len() + 2) / 3),
{
    base64::Engine::encode(&base64::engine::general_purpose::STANDARD, data)
}

} // verus!
