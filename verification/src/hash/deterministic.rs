//! Hashes of the binary encoding of a value, which stay the same across
//! platforms and runs for the types marked [`Deterministic`].
use vstd::prelude::*;
use crate::io::{Deterministic, Writeable};
use super::{
    blake3_digest, fold_256_to_64, sha256_digest, xxhash32_digest, xxhash64_digest, Blake3Hasher,
    Sha256Hasher,
};

verus! {

/// Types that are hashed through their deterministic binary encoding.
pub trait DeterministicHash: Deterministic + Writeable {

}

impl<T: Deterministic + Writeable> DeterministicHash for T {

}

/// The encoding of `source`, which must be writeable.
fn encode<T: Writeable>(source: &T) -> (r: Vec<u8>)
    requires
        source.spec_write() is Ok,
    ensures
        r@ == source.spec_write()->Ok_0,
{
    let mut out: Vec<u8> = Vec::new();
    let _ = source.write_to(&mut out);
    proof {
        assert(Seq::<u8>::empty() + source.spec_write()->Ok_0 =~= source.spec_write()->Ok_0);
    }
    out
}

/// The 32-bit xxHash (seed 0) of the encoding of `source`.
pub fn xxhash32<T: DeterministicHash>(source: T) -> (r: u32)
    requires
        source.spec_write() is Ok,
    ensures
        r == xxhash32_digest(0, source.spec_write()->Ok_0),
{
    let bytes = encode(&source);
    super::xxhash32_oneshot(0, bytes.as_slice())
}

/// The 32-bit xxHash (seed 0) of the encoding of `source`, widened to 64 bits.
pub fn xxhash32_64<T: DeterministicHash>(source: T) -> (r: u64)
    requires
        source.spec_write() is Ok,
    ensures
        r == xxhash32_digest(0, source.spec_write()->Ok_0) as u64,
{
    let bytes = encode(&source);
    super::xxhash32_oneshot(0, bytes.as_slice()) as u64
}

/// The 64-bit xxHash (seed 0) of the encoding of `source`.
pub fn xxhash64<T: DeterministicHash>(source: T) -> (r: u64)
    requires
        source.spec_write() is Ok,
    ensures
        r == xxhash64_digest(0, source.spec_write()->Ok_0),
{
    let bytes = encode(&source);
    super::xxhash64_oneshot(0, bytes.as_slice())
}

/// The BLAKE3 hash of the encoding of `source`, folded to 64 bits.
pub fn blake3_64<T: DeterministicHash>(source: T) -> (r: u64)
    requires
        source.spec_write() is Ok,
    ensures
        r == fold_256_to_64(blake3_digest(source.spec_write()->Ok_0)),
{
    let mut hasher = Blake3Hasher::default();
    let _ = hasher.write_value(&source);
    proof {
        assert(Seq::<u8>::empty() + source.spec_write()->Ok_0 =~= source.spec_write()->Ok_0);
    }
    hasher.finish()
}

/// The BLAKE3 hash of the encoding of `source`.
pub fn blake3<T: DeterministicHash>(source: T) -> (r: [u8; 32])
    requires
        source.spec_write() is Ok,
    ensures
        r@ == blake3_digest(source.spec_write()->Ok_0),
{
    let mut hasher = Blake3Hasher::default();
    let _ = hasher.write_value(&source);
    proof {
        assert(Seq::<u8>::empty() + source.spec_write()->Ok_0 =~= source.spec_write()->Ok_0);
    }
    hasher.finalize()
}

/// The SHA-256 digest of the encoding of `source`, folded to 64 bits.
pub fn sha256_64<T: DeterministicHash>(source: T) -> (r: u64)
    requires
        source.spec_write() is Ok,
    ensures
        r == fold_256_to_64(sha256_digest(source.spec_write()->Ok_0)),
{
    let mut hasher = Sha256Hasher::default();
    let _ = hasher.write_value(&source);
    proof {
        assert(Seq::<u8>::empty() + source.spec_write()->Ok_0 =~= source.spec_write()->Ok_0);
    }
    hasher.finish()
}

/// The SHA-256 digest of the encoding of `source`.
pub fn sha256<T: DeterministicHash>(source: T) -> (r: [u8; 32])
    requires
        source.spec_write() is Ok,
    ensures
        r@ == sha256_digest(source.spec_write()->Ok_0),
{
    let mut hasher = Sha256Hasher::default();
    let _ = hasher.write_value(&source);
    proof {
        assert(Seq::<u8>::empty() + source.spec_write()->Ok_0 =~= source.spec_write()->Ok_0);
    }
    hasher.finalize()
}

} // verus!
