//! The boundary to the host's hash primitives.
//!
//! The digests are named, not axiomatised: `sha256_of` and
//! `keccak256_of` stand for whatever the outside implementations
//! compute, and every contract above speaks of those names.

use vstd::prelude::*;

verus! {

/// The SHA-256 digest of a byte sequence.
pub uninterp spec fn sha256_of(data: Seq<u8>) -> Seq<u8>;

/// The Keccak-256 digest of a byte sequence.
pub uninterp spec fn keccak256_of(data: Seq<u8>) -> Seq<u8>;

/// Relies on solana_sha256_hasher::hash: the 32-byte SHA-256 digest
/// of the input, a function of the input bytes alone.
#[verifier::external_body]
pub(crate) fn sha256(data: &Vec<u8>) -> (r: [u8; 32])
    ensures
        r@ == sha256_of(data@),
{
    solana_sha256_hasher::hash(data.as_slice()).to_bytes()
}

/// Relies on solana_keccak_hasher::hash: the 32-byte Keccak-256
/// digest of the input, a function of the input bytes alone.
#[verifier::external_body]
pub(crate) fn keccak256(data: &Vec<u8>) -> (r: [u8; 32])
    ensures
        r@ == keccak256_of(data@),
{
    solana_keccak_hasher::hash(data.as_slice()).to_bytes()
}

} // verus!
