//! The two hash functions behind the key scheme, MD5 and Keccak-384.
//!
//! Both are computed by outside crates. Their results are named here, not
//! defined: nothing in this library depends on what a digest is, only on the
//! fact that it is a function of the hashed bytes, and on its length.

use md5::Digest;
use vstd::prelude::*;

verus! {

/// Length in bytes of an MD5 digest.
pub const MD5_LEN: usize = 16;

/// Length in bytes of a Keccak-384 digest.
pub const KECCAK384_LEN: usize = 48;

/// The MD5 digest of `data`.
pub uninterp spec fn md5_digest(data: Seq<u8>) -> Seq<u8>;

/// The Keccak-384 digest of `data` (Keccak as first submitted, before
/// the padding change that made SHA3-384).
pub uninterp spec fn keccak384_digest(data: Seq<u8>) -> Seq<u8>;

/// Calls `md5::Md5::digest`, which hashes `data` in one step through a
/// fresh hasher. Trusted: the result is the MD5 digest of `data`, and it
/// is 16 bytes long, the output size that the hasher's type fixes.
#[verifier::external_body]
pub(crate) fn md5_of(data: &[u8]) -> (out: Vec<u8>)
    ensures
        out@ == md5_digest(data@),
        out@.len() == MD5_LEN,
{
    md5::Md5::digest(data).to_vec()
}

/// Calls `sha3::Keccak384::digest`, which hashes `data` in one step
/// through a fresh hasher. Trusted: the result is the Keccak-384 digest of
/// `data`, and it is 48 bytes long, the output size that the hasher's type
/// fixes.
#[verifier::external_body]
pub(crate) fn keccak384_of(data: &[u8]) -> (out: Vec<u8>)
    ensures
        out@ == keccak384_digest(data@),
        out@.len() == KECCAK384_LEN,
{
    sha3::Keccak384::digest(data).to_vec()
}

} // verus!
