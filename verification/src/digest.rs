//! The digest from which a default application identifier is derived.

use vstd::prelude::*;
use sha3::{Digest, Sha3_256};
use crate::checksum::word_at;

verus! {

/// The SHA3-256 digest of `data`, as computed by the `sha3` crate.
pub uninterp spec fn sha3_256(data: Seq<u8>) -> Seq<u8>;

/// The identifier derived from a package name: the first four bytes of the
/// SHA3-256 digest of the name, read as a little-endian word.
pub open spec fn derived_app_id(name: Seq<u8>) -> u32 {
    word_at(sha3_256(name), 0)
}

/// Calls `sha3::Sha3_256::digest` (the `Digest::digest` method of the `sha3`
/// crate), which hashes `data` in one step with a fresh hasher.
///
/// Trusted, not proved: the result is the SHA3-256 digest of `data`, a
/// function of `data` alone.
#[verifier::external_body]
fn sha3_256_digest(data: &[u8]) -> (digest: Vec<u8>)
    ensures
        digest@ == sha3_256(data@),
{
    Sha3_256::digest(data).to_vec()
}

/// Reads an application identifier from the front of a digest: its first four
/// bytes as a little-endian word. Bytes that a shorter digest lacks count as
/// zero.
pub fn app_id_from_digest(digest: &[u8]) -> (app_id: u32)
    ensures
        app_id == word_at(digest@, 0),
{
    let len: usize = digest.len();
    let b0: u8 = if len > 0 {
        digest[0]
    } else {
        0
    };
    let b1: u8 = if len > 1 {
        digest[1]
    } else {
        0
    };
    let b2: u8 = if len > 2 {
        digest[2]
    } else {
        0
    };
    let b3: u8 = if len > 3 {
        digest[3]
    } else {
        0
    };
    (b0 as u32) | ((b1 as u32) << 8) | ((b2 as u32) << 16) | ((b3 as u32) << 24)
}

/// The default application identifier of a package: derived from the
/// SHA3-256 digest of its name, the empty name included.
pub fn default_app_id(name: &[u8]) -> (app_id: u32)
    ensures
        app_id == derived_app_id(name@),
{
    let digest: Vec<u8> = sha3_256_digest(name);
    app_id_from_digest(digest.as_slice())
}

} // verus!
