//! The hash functions that address derivation uses.
//!
//! Nothing in this file is proved: each digest is named, and the wrapper says
//! that the outside routine returns that digest, of the size the algorithm
//! fixes.

use vstd::prelude::*;
use ripemd160::Ripemd160;
use sha2::Sha256;
use sha3::{Digest, Keccak256};

verus! {

/// The Keccak-256 digest of a byte string.
pub uninterp spec fn keccak256_of(data: Seq<u8>) -> Seq<u8>;

/// The SHA-256 digest of a byte string.
pub uninterp spec fn sha256_of(data: Seq<u8>) -> Seq<u8>;

/// The RIPEMD-160 digest of a byte string.
pub uninterp spec fn ripemd160_of(data: Seq<u8>) -> Seq<u8>;

/// Calls `Keccak256::digest`. The digest depends on the data alone and is 32
/// bytes long.
#[verifier::external_body]
pub(crate) fn keccak256(data: &Vec<u8>) -> (digest: Vec<u8>)
    ensures
        digest@ == keccak256_of(data@),
        digest@.len() == 32,
{
    Keccak256::digest(data.as_slice()).to_vec()
}

/// Calls `Sha256::digest`. The digest depends on the data alone and is 32
/// bytes long.
#[verifier::external_body]
pub(crate) fn sha256(data: &Vec<u8>) -> (digest: Vec<u8>)
    ensures
        digest@ == sha256_of(data@),
        digest@.len() == 32,
{
    Sha256::digest(data.as_slice()).to_vec()
}

/// Calls `Ripemd160::digest`. The digest depends on the data alone and is 20
/// bytes long.
#[verifier::external_body]
pub(crate) fn ripemd160(data: &Vec<u8>) -> (digest: Vec<u8>)
    ensures
        digest@ == ripemd160_of(data@),
        digest@.len() == 20,
{
    Ripemd160::digest(data.as_slice()).to_vec()
}

} // verus!
