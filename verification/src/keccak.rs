//! The hash function under every commitment: Keccak-256.
//!
//! The permutation itself is not modelled. Its output is given a name,
//! [`keccak256_digest`], and everything the library states about a commitment
//! is stated over that name applied to an exactly specified byte string.

use sha3::Digest;
use vstd::prelude::*;

verus! {

/// The Keccak-256 digest of `input`, as a sequence of bytes. This is Keccak
/// with the padding byte `0x01`, not SHA3-256, which pads with `0x06`.
pub uninterp spec fn keccak256_digest(input: Seq<u8>) -> Seq<u8>;

/// Hashes `input` with `sha3::Keccak256` through `Digest::digest`.
///
/// Trusted: the result is the 32-byte Keccak-256 digest of exactly the bytes
/// of `input`. The call neither fails nor panics on any input.
#[verifier::external_body]
pub(crate) fn keccak256(input: &[u8]) -> (out: [u8; 32])
    ensures
        out@ == keccak256_digest(input@),
{
    sha3::Keccak256::digest(input).into()
}

} // verus!
