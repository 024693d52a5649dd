//! The payload fingerprint: a 64-bit, non-cryptographic hash of the payload's
//! bytes. Two payloads may share a fingerprint; it correlates trace lines and
//! proves nothing about integrity.

use vstd::endian::{endianness, Endian};
use vstd::prelude::*;

verus! {

/// What `fxhash::FxHasher64` holds after one `write` of `data` into a fresh
/// hasher, on hardware of byte order `order`. The hasher folds the bytes in
/// words read in the machine's byte order, so the order is an argument.
pub uninterp spec fn fx_hash64(order: Endian, data: Seq<u8>) -> u64;

/// The fingerprint of a payload on this machine.
pub open spec fn payload_hash(data: Seq<u8>) -> u64 {
    fx_hash64(endianness(), data)
}

/// Runs `fxhash::FxHasher64` over `data`: a hasher from `Default::default`,
/// one `Hasher::write` of the whole slice, then `Hasher::finish`.
///
/// Trusted: the result is a function of the bytes and of the machine's byte
/// order alone. The hasher starts from a fixed state, `write` reads nothing
/// but the slice, and `finish` returns the state.
#[verifier::external_body]
fn fx_hash64_of(data: &[u8]) -> (hash: u64)
    ensures
        hash == fx_hash64(endianness(), data@),
{
    let mut hasher = fxhash::FxHasher64::default();
    std::hash::Hasher::write(&mut hasher, data);
    std::hash::Hasher::finish(&hasher)
}

/// Hashes a payload. The same bytes always give the same fingerprint, and
/// the payload is only borrowed.
pub fn do_hash(data: &[u8]) -> (hash: u64)
    ensures
        hash == payload_hash(data@),
{
    fx_hash64_of(data)
}

} // verus!
