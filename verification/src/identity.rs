//! Content-derived identity: the 64-bit hash by which documents, statements
//! and urls are known.

use vstd::prelude::*;

verus! {

/// The XXH3 64-bit digest (seed 0, default secret) of a byte sequence.
pub uninterp spec fn xxh3_64_digest(bytes: Seq<u8>) -> u64;

/// `xxhash_rust::xxh3::xxh3_64` returns the XXH3 64-bit digest of its input.
/// The digest depends on the bytes alone; the function does not panic.
pub assume_specification[ xxhash_rust::xxh3::xxh3_64 ](input: &[u8]) -> (digest: u64)
    ensures
        digest == xxh3_64_digest(input@),
;

/// The value of a 64-bit pattern read as a two's complement signed integer.
pub open spec fn as_signed(bits: u64) -> i64 {
    if bits <= 0x7fff_ffff_ffff_ffff {
        bits as i64
    } else {
        (bits - 0x1_0000_0000_0000_0000) as i64
    }
}

/// The identity of a byte sequence: its digest, read as a signed integer.
pub open spec fn hash64_of(bytes: Seq<u8>) -> i64 {
    as_signed(xxh3_64_digest(bytes))
}

/// Reads a 64-bit pattern as a two's complement signed integer.
pub fn to_signed(bits: u64) -> (value: i64)
    ensures
        value == as_signed(bits),
{
    if bits <= 0x7fff_ffff_ffff_ffff {
        bits as i64
    } else {
        let low: u64 = bits - 0x8000_0000_0000_0000;
        (low as i64) + i64::MIN
    }
}

/// The 64-bit identity of `bytes`.
pub fn hash64(bytes: &[u8]) -> (id: i64)
    ensures
        id == hash64_of(bytes@),
{
    to_signed(xxhash_rust::xxh3::xxh3_64(bytes))
}

} // verus!
