//! The two standard digests that name-based UUIDs are derived from.
//!
//! Both are computed by outside crates. Their results are named, not
//! described: all that is claimed is that the digest is a function of the
//! input bytes alone.

use vstd::prelude::*;

verus! {

/// The MD5 digest (RFC 1321) of `data`: sixteen bytes.
pub uninterp spec fn md5_of(data: Seq<u8>) -> Seq<u8>;

/// The SHA-1 digest (FIPS 180-4) of `data`: twenty bytes.
pub uninterp spec fn sha1_of(data: Seq<u8>) -> Seq<u8>;

/// Calls `md5::compute` on the bytes and hands out the sixteen bytes of the
/// `Digest` it returns. Trusted: the result is the MD5 digest of exactly
/// these bytes.
#[verifier::external_body]
pub(crate) fn md5_digest(data: &[u8]) -> (r: [u8; 16])
    ensures
        r@ == md5_of(data@),
{
    md5::compute(data).0
}

/// Calls `sha1_smol::Sha1::from` on the bytes, then `digest` and `bytes` on
/// what it returns. Trusted: the result is the SHA-1 digest of exactly these
/// bytes.
#[verifier::external_body]
pub(crate) fn sha1_digest(data: &[u8]) -> (r: [u8; 20])
    ensures
        r@ == sha1_of(data@),
{
    sha1_smol::Sha1::from(data).digest().bytes()
}

} // verus!
