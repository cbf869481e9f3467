//! Hashing helpers: folding digests down to 64 bits, and byte-buffering hashers
//! over SHA-256 and BLAKE3.
use vstd::prelude::*;
use crate::io::{be_value, Writeable};
use sha2::Digest;

pub mod deterministic;

verus! {

/// The SHA-256 digest of `data` (32 bytes).
pub uninterp spec fn sha256_digest(data: Seq<u8>) -> Seq<u8>;

/// The BLAKE3 hash of `data` (32 bytes).
pub uninterp spec fn blake3_digest(data: Seq<u8>) -> Seq<u8>;

/// The 32-bit xxHash of `data` with the given seed.
pub uninterp spec fn xxhash32_digest(seed: u32, data: Seq<u8>) -> u32;

/// The 64-bit xxHash of `data` with the given seed.
pub uninterp spec fn xxhash64_digest(seed: u64, data: Seq<u8>) -> u64;

/// `sha2::Sha256::digest`: the SHA-256 digest of `data`.
#[verifier::external_body]
pub(crate) fn sha256_bytes(data: &[u8]) -> (r: [u8; 32])
    ensures
        r@ == sha256_digest(data@),
{
    sha2::Sha256::digest(data).into()
}

/// `blake3::hash`: the BLAKE3 hash of `data`, as its 32 bytes.
#[verifier::external_body]
pub(crate) fn blake3_bytes(data: &[u8]) -> (r: [u8; 32])
    ensures
        r@ == blake3_digest(data@),
{
    blake3::hash(data).into()
}

/// `twox_hash::XxHash32::oneshot`: the 32-bit xxHash of `data`.
#[verifier::external_body]
pub(crate) fn xxhash32_oneshot(seed: u32, data: &[u8]) -> (r: u32)
    ensures
        r == xxhash32_digest(seed, data@),
{
    twox_hash::XxHash32::oneshot(seed, data)
}

/// `twox_hash::XxHash64::oneshot`: the 64-bit xxHash of `data`.
#[verifier::external_body]
pub(crate) fn xxhash64_oneshot(seed: u64, data: &[u8]) -> (r: u64)
    ensures
        r == xxhash64_digest(seed, data@),
{
    twox_hash::XxHash64::oneshot(seed, data)
}

/// The `i`-th big-endian 64-bit word of `bytes`.
pub open spec fn word64(bytes: Seq<u8>, i: int) -> u64 {
    be_value(bytes.subrange(8 * i, 8 * i + 8)) as u64
}

/// The four 64-bit words of a 256-bit value XORed together.
pub open spec fn fold_256_to_64(bytes: Seq<u8>) -> u64 {
    word64(bytes, 0) ^ word64(bytes, 1) ^ word64(bytes, 2) ^ word64(bytes, 3)
}

/// The big-endian `u64` of eight bytes.
fn u64_from_bytes(bytes: &[u8]) -> (r: u64)
    requires
        bytes@.len() == 8,
    ensures
        r == be_value(bytes@),
{
    let mut acc: u64 = 0;
    let mut i: usize = 0;
    while i < 8
        invariant
            i <= 8,
            bytes@.len() == 8,
            acc == be_value(bytes@.take(i as int)),
        decreases 8 - i,
    {
        proof {
            assert(bytes@.take(i as int + 1).drop_last() =~= bytes@.take(i as int));
            crate::io::lemma_be_value_bound(bytes@.take(i as int));
            crate::io::lemma_pow256_values();
            lemma_pow256_le8(i as nat);
        }
        acc = acc * 256 + bytes[i] as u64;
        i = i + 1;
    }
    proof {
        assert(bytes@.take(8) =~= bytes@);
    }
    acc
}

proof fn lemma_pow256_le8(i: nat)
    requires
        i < 8,
    ensures
        crate::io::pow256(i) * 256 <= 0x1_0000_0000_0000_0000,
{
    reveal_with_fuel(crate::io::pow256, 9);
}

/// Folds a 256-bit value (the first 32 bytes) to 64 bits by XORing its four words.
pub fn xor_256_to_64(bytes: &[u8]) -> (r: u64)
    requires
        bytes@.len() >= 32,
    ensures
        r == fold_256_to_64(bytes@),
{
    let mut words: [u64; 4] = [0u64; 4];
    let mut i: usize = 0;
    while i < 4
        invariant
            i <= 4,
            bytes@.len() >= 32,
            forall|j: int| 0 <= j < i ==> words@[j] == #[trigger] word64(bytes@, j),
        decreases 4 - i,
    {
        let mut chunk: Vec<u8> = Vec::with_capacity(8);
        let mut k: usize = 0;
        while k < 8
            invariant
                k <= 8,
                i < 4,
                bytes@.len() >= 32,
                chunk@ == bytes@.subrange(8 * i as int, 8 * i as int + k as int),
            decreases 8 - k,
        {
            chunk.push(bytes[8 * i + k]);
            k = k + 1;
            proof {
                assert(chunk@ =~= bytes@.subrange(8 * i as int, 8 * i as int + k as int));
            }
        }
        let w = u64_from_bytes(chunk.as_slice());
        proof {
            crate::io::lemma_be_value_bound(chunk@);
            crate::io::lemma_pow256_values();
        }
        words[i] = w;
        i = i + 1;
    }
    let r = words[0] ^ words[1] ^ words[2] ^ words[3];
    assert(words@[0] == word64(bytes@, 0));
    assert(words@[1] == word64(bytes@, 1));
    assert(words@[2] == word64(bytes@, 2));
    assert(words@[3] == word64(bytes@, 3));
    r
}

/// The number of set bits of `value`.
pub open spec fn popcount(value: nat) -> nat
    decreases value,
{
    if value == 0 {
        0
    } else {
        value % 2 + popcount(value / 2)
    }
}

/// True when `value` has an odd number of set bits.
pub fn xor_bits(value: u64) -> (r: bool)
    ensures
        r == (popcount(value as nat) % 2 == 1),
{
    let mut v: u64 = value;
    let mut parity: bool = false;
    while v != 0
        invariant
            (parity == ((popcount(value as nat) - popcount(v as nat)) % 2 == 1)),
            popcount(v as nat) <= popcount(value as nat),
        decreases v,
    {
        let bit = v % 2;
        proof {
            assert(popcount(v as nat) == v % 2 + popcount((v / 2) as nat));
        }
        if bit == 1 {
            parity = !parity;
        }
        v = v / 2;
    }
    parity
}

/// The lower and upper halves of `bytes` XORed together.
pub open spec fn xor_halves(bytes: Seq<u8>) -> Seq<u8> {
    Seq::new(bytes.len() / 2, |i: int| bytes[i] ^ bytes[i + bytes.len() / 2])
}

/// XORs the two halves of an array into an array half its size.
fn xor_reduce_array<const HI: usize, const LO: usize>(input: &[u8; HI]) -> (r: [u8; LO])
    requires
        HI == 2 * LO,
    ensures
        r@ == xor_halves(input@),
{
    let mut buffer: [u8; LO] = [0u8; LO];
    let mut i: usize = 0;
    while i < LO
        invariant
            i <= LO,
            HI == 2 * LO,
            buffer@.len() == LO,
            forall|j: int| 0 <= j < i ==> buffer@[j] == #[trigger] xor_halves(input@)[j],
        decreases LO - i,
    {
        buffer[i] = input[i] ^ input[i + LO];
        i = i + 1;
    }
    assert(buffer@ =~= xor_halves(input@));
    buffer
}

/// Arrays whose length is a power of two, which fold in half by XOR.
pub trait Pow2Array<T> {
    /// The array of half the length.
    type HALF;

    /// `half` is `input` with its two halves XORed together.
    spec fn spec_reduced(input: T, half: Self::HALF) -> bool;

    /// XORs the lower and upper halves of `input` together.
    fn xor_reduce(input: T) -> (r: Self::HALF)
        ensures
            Self::spec_reduced(input, r),
    ;
}

/// The implementor of [`Pow2Array`] for the arrays of each power of two.
pub struct Pow2ArrayImpls;

impl Pow2Array<[u8; 0x8000]> for Pow2ArrayImpls {
    type HALF = [u8; 0x4000];

    open spec fn spec_reduced(input: [u8; 0x8000], half: [u8; 0x4000]) -> bool {
        half@ == xor_halves(input@)
    }

    fn xor_reduce(input: [u8; 0x8000]) -> (r: [u8; 0x4000]) {
        xor_reduce_array(&input)
    }
}

impl Pow2Array<Box<[u8; 0x8000]>> for Pow2ArrayImpls {
    type HALF = Box<[u8; 0x4000]>;

    open spec fn spec_reduced(input: Box<[u8; 0x8000]>, half: Box<[u8; 0x4000]>) -> bool {
        half@ == xor_halves(input@)
    }

    fn xor_reduce(input: Box<[u8; 0x8000]>) -> (r: Box<[u8; 0x4000]>) {
        Box::new(xor_reduce_array(&*input))
    }
}

impl Pow2Array<[u8; 0x4000]> for Pow2ArrayImpls {
    type HALF = [u8; 0x2000];

    open spec fn spec_reduced(input: [u8; 0x4000], half: [u8; 0x2000]) -> bool {
        half@ == xor_halves(input@)
    }

    fn xor_reduce(input: [u8; 0x4000]) -> (r: [u8; 0x2000]) {
        xor_reduce_array(&input)
    }
}

impl Pow2Array<Box<[u8; 0x4000]>> for Pow2ArrayImpls {
    type HALF = Box<[u8; 0x2000]>;

    open spec fn spec_reduced(input: Box<[u8; 0x4000]>, half: Box<[u8; 0x2000]>) -> bool {
        half@ == xor_halves(input@)
    }

    fn xor_reduce(input: Box<[u8; 0x4000]>) -> (r: Box<[u8; 0x2000]>) {
        Box::new(xor_reduce_array(&*input))
    }
}

impl Pow2Array<[u8; 0x2000]> for Pow2ArrayImpls {
    type HALF = [u8; 0x1000];

    open spec fn spec_reduced(input: [u8; 0x2000], half: [u8; 0x1000]) -> bool {
        half@ == xor_halves(input@)
    }

    fn xor_reduce(input: [u8; 0x2000]) -> (r: [u8; 0x1000]) {
        xor_reduce_array(&input)
    }
}

impl Pow2Array<Box<[u8; 0x2000]>> for Pow2ArrayImpls {
    type HALF = Box<[u8; 0x1000]>;

    open spec fn spec_reduced(input: Box<[u8; 0x2000]>, half: Box<[u8; 0x1000]>) -> bool {
        half@ == xor_halves(input@)
    }

    fn xor_reduce(input: Box<[u8; 0x2000]>) -> (r: Box<[u8; 0x1000]>) {
        Box::new(xor_reduce_array(&*input))
    }
}

impl Pow2Array<[u8; 0x1000]> for Pow2ArrayImpls {
    type HALF = [u8; 0x800];

    open spec fn spec_reduced(input: [u8; 0x1000], half: [u8; 0x800]) -> bool {
        half@ == xor_halves(input@)
    }

    fn xor_reduce(input: [u8; 0x1000]) -> (r: [u8; 0x800]) {
        xor_reduce_array(&input)
    }
}

impl Pow2Array<Box<[u8; 0x1000]>> for Pow2ArrayImpls {
    type HALF = Box<[u8; 0x800]>;

    open spec fn spec_reduced(input: Box<[u8; 0x1000]>, half: Box<[u8; 0x800]>) -> bool {
        half@ == xor_halves(input@)
    }

    fn xor_reduce(input: Box<[u8; 0x1000]>) -> (r: Box<[u8; 0x800]>) {
        Box::new(xor_reduce_array(&*input))
    }
}

impl Pow2Array<[u8; 0x800]> for Pow2ArrayImpls {
    type HALF = [u8; 0x400];

    open spec fn spec_reduced(input: [u8; 0x800], half: [u8; 0x400]) -> bool {
        half@ == xor_halves(input@)
    }

    fn xor_reduce(input: [u8; 0x800]) -> (r: [u8; 0x400]) {
        xor_reduce_array(&input)
    }
}

impl Pow2Array<Box<[u8; 0x800]>> for Pow2ArrayImpls {
    type HALF = Box<[u8; 0x400]>;

    open spec fn spec_reduced(input: Box<[u8; 0x800]>, half: Box<[u8; 0x400]>) -> bool {
        half@ == xor_halves(input@)
    }

    fn xor_reduce(input: Box<[u8; 0x800]>) -> (r: Box<[u8; 0x400]>) {
        Box::new(xor_reduce_array(&*input))
    }
}

impl Pow2Array<[u8; 0x400]> for Pow2ArrayImpls {
    type HALF = [u8; 0x200];

    open spec fn spec_reduced(input: [u8; 0x400], half: [u8; 0x200]) -> bool {
        half@ == xor_halves(input@)
    }

    fn xor_reduce(input: [u8; 0x400]) -> (r: [u8; 0x200]) {
        xor_reduce_array(&input)
    }
}

impl Pow2Array<Box<[u8; 0x400]>> for Pow2ArrayImpls {
    type HALF = Box<[u8; 0x200]>;

    open spec fn spec_reduced(input: Box<[u8; 0x400]>, half: Box<[u8; 0x200]>) -> bool {
        half@ == xor_halves(input@)
    }

    fn xor_reduce(input: Box<[u8; 0x400]>) -> (r: Box<[u8; 0x200]>) {
        Box::new(xor_reduce_array(&*input))
    }
}

impl Pow2Array<[u8; 0x200]> for Pow2ArrayImpls {
    type HALF = [u8; 0x100];

    open spec fn spec_reduced(input: [u8; 0x200], half: [u8; 0x100]) -> bool {
        half@ == xor_halves(input@)
    }

    fn xor_reduce(input: [u8; 0x200]) -> (r: [u8; 0x100]) {
        xor_reduce_array(&input)
    }
}

impl Pow2Array<Box<[u8; 0x200]>> for Pow2ArrayImpls {
    type HALF = Box<[u8; 0x100]>;

    open spec fn spec_reduced(input: Box<[u8; 0x200]>, half: Box<[u8; 0x100]>) -> bool {
        half@ == xor_halves(input@)
    }

    fn xor_reduce(input: Box<[u8; 0x200]>) -> (r: Box<[u8; 0x100]>) {
        Box::new(xor_reduce_array(&*input))
    }
}

impl Pow2Array<[u8; 0x100]> for Pow2ArrayImpls {
    type HALF = [u8; 0x80];

    open spec fn spec_reduced(input: [u8; 0x100], half: [u8; 0x80]) -> bool {
        half@ == xor_halves(input@)
    }

    fn xor_reduce(input: [u8; 0x100]) -> (r: [u8; 0x80]) {
        xor_reduce_array(&input)
    }
}

impl Pow2Array<Box<[u8; 0x100]>> for Pow2ArrayImpls {
    type HALF = Box<[u8; 0x80]>;

    open spec fn spec_reduced(input: Box<[u8; 0x100]>, half: Box<[u8; 0x80]>) -> bool {
        half@ == xor_halves(input@)
    }

    fn xor_reduce(input: Box<[u8; 0x100]>) -> (r: Box<[u8; 0x80]>) {
        Box::new(xor_reduce_array(&*input))
    }
}

impl Pow2Array<[u8; 0x80]> for Pow2ArrayImpls {
    type HALF = [u8; 0x40];

    open spec fn spec_reduced(input: [u8; 0x80], half: [u8; 0x40]) -> bool {
        half@ == xor_halves(input@)
    }

    fn xor_reduce(input: [u8; 0x80]) -> (r: [u8; 0x40]) {
        xor_reduce_array(&input)
    }
}

impl Pow2Array<Box<[u8; 0x80]>> for Pow2ArrayImpls {
    type HALF = Box<[u8; 0x40]>;

    open spec fn spec_reduced(input: Box<[u8; 0x80]>, half: Box<[u8; 0x40]>) -> bool {
        half@ == xor_halves(input@)
    }

    fn xor_reduce(input: Box<[u8; 0x80]>) -> (r: Box<[u8; 0x40]>) {
        Box::new(xor_reduce_array(&*input))
    }
}

impl Pow2Array<[u8; 0x40]> for Pow2ArrayImpls {
    type HALF = [u8; 0x20];

    open spec fn spec_reduced(input: [u8; 0x40], half: [u8; 0x20]) -> bool {
        half@ == xor_halves(input@)
    }

    fn xor_reduce(input: [u8; 0x40]) -> (r: [u8; 0x20]) {
        xor_reduce_array(&input)
    }
}

impl Pow2Array<Box<[u8; 0x40]>> for Pow2ArrayImpls {
    type HALF = Box<[u8; 0x20]>;

    open spec fn spec_reduced(input: Box<[u8; 0x40]>, half: Box<[u8; 0x20]>) -> bool {
        half@ == xor_halves(input@)
    }

    fn xor_reduce(input: Box<[u8; 0x40]>) -> (r: Box<[u8; 0x20]>) {
        Box::new(xor_reduce_array(&*input))
    }
}

impl Pow2Array<[u8; 0x20]> for Pow2ArrayImpls {
    type HALF = [u8; 0x10];

    open spec fn spec_reduced(input: [u8; 0x20], half: [u8; 0x10]) -> bool {
        half@ == xor_halves(input@)
    }

    fn xor_reduce(input: [u8; 0x20]) -> (r: [u8; 0x10]) {
        xor_reduce_array(&input)
    }
}

impl Pow2Array<Box<[u8; 0x20]>> for Pow2ArrayImpls {
    type HALF = Box<[u8; 0x10]>;

    open spec fn spec_reduced(input: Box<[u8; 0x20]>, half: Box<[u8; 0x10]>) -> bool {
        half@ == xor_halves(input@)
    }

    fn xor_reduce(input: Box<[u8; 0x20]>) -> (r: Box<[u8; 0x10]>) {
        Box::new(xor_reduce_array(&*input))
    }
}

impl Pow2Array<[u8; 0x10]> for Pow2ArrayImpls {
    type HALF = [u8; 0x8];

    open spec fn spec_reduced(input: [u8; 0x10], half: [u8; 0x8]) -> bool {
        half@ == xor_halves(input@)
    }

    fn xor_reduce(input: [u8; 0x10]) -> (r: [u8; 0x8]) {
        xor_reduce_array(&input)
    }
}

impl Pow2Array<Box<[u8; 0x10]>> for Pow2ArrayImpls {
    type HALF = Box<[u8; 0x8]>;

    open spec fn spec_reduced(input: Box<[u8; 0x10]>, half: Box<[u8; 0x8]>) -> bool {
        half@ == xor_halves(input@)
    }

    fn xor_reduce(input: Box<[u8; 0x10]>) -> (r: Box<[u8; 0x8]>) {
        Box::new(xor_reduce_array(&*input))
    }
}

impl Pow2Array<[u8; 0x8]> for Pow2ArrayImpls {
    type HALF = [u8; 0x4];

    open spec fn spec_reduced(input: [u8; 0x8], half: [u8; 0x4]) -> bool {
        half@ == xor_halves(input@)
    }

    fn xor_reduce(input: [u8; 0x8]) -> (r: [u8; 0x4]) {
        xor_reduce_array(&input)
    }
}

impl Pow2Array<Box<[u8; 0x8]>> for Pow2ArrayImpls {
    type HALF = Box<[u8; 0x4]>;

    open spec fn spec_reduced(input: Box<[u8; 0x8]>, half: Box<[u8; 0x4]>) -> bool {
        half@ == xor_halves(input@)
    }

    fn xor_reduce(input: Box<[u8; 0x8]>) -> (r: Box<[u8; 0x4]>) {
        Box::new(xor_reduce_array(&*input))
    }
}

impl Pow2Array<[u8; 0x4]> for Pow2ArrayImpls {
    type HALF = [u8; 0x2];

    open spec fn spec_reduced(input: [u8; 0x4], half: [u8; 0x2]) -> bool {
        half@ == xor_halves(input@)
    }

    fn xor_reduce(input: [u8; 0x4]) -> (r: [u8; 0x2]) {
        xor_reduce_array(&input)
    }
}

impl Pow2Array<Box<[u8; 0x4]>> for Pow2ArrayImpls {
    type HALF = Box<[u8; 0x2]>;

    open spec fn spec_reduced(input: Box<[u8; 0x4]>, half: Box<[u8; 0x2]>) -> bool {
        half@ == xor_halves(input@)
    }

    fn xor_reduce(input: Box<[u8; 0x4]>) -> (r: Box<[u8; 0x2]>) {
        Box::new(xor_reduce_array(&*input))
    }
}

impl Pow2Array<[u8; 0x2]> for Pow2ArrayImpls {
    type HALF = [u8; 0x1];

    open spec fn spec_reduced(input: [u8; 0x2], half: [u8; 0x1]) -> bool {
        half@ == xor_halves(input@)
    }

    fn xor_reduce(input: [u8; 0x2]) -> (r: [u8; 0x1]) {
        xor_reduce_array(&input)
    }
}

impl Pow2Array<Box<[u8; 0x2]>> for Pow2ArrayImpls {
    type HALF = Box<[u8; 0x1]>;

    open spec fn spec_reduced(input: Box<[u8; 0x2]>, half: Box<[u8; 0x1]>) -> bool {
        half@ == xor_halves(input@)
    }

    fn xor_reduce(input: Box<[u8; 0x2]>) -> (r: Box<[u8; 0x1]>) {
        Box::new(xor_reduce_array(&*input))
    }
}

/// Takes an array whose length is a power of two and returns the array of half
/// its length in which the lower and upper halves are XORed together.
pub fn xor_reduce<T>(array: T) -> (r: <Pow2ArrayImpls as Pow2Array<T>>::HALF) where
    Pow2ArrayImpls: Pow2Array<T>,

    ensures
        <Pow2ArrayImpls as Pow2Array<T>>::spec_reduced(array, r),
{
    Pow2ArrayImpls::xor_reduce(array)
}

/// A hasher that collects the bytes written to it and digests them with SHA-256.
pub struct Sha256Hasher {
    bytes: Vec<u8>,
}

impl View for Sha256Hasher {
    /// The bytes written so far.
    type V = Seq<u8>;

    closed spec fn view(&self) -> Seq<u8> {
        self.bytes@
    }
}

impl Default for Sha256Hasher {
    fn default() -> (r: Self)
        ensures
            r@ == Seq::<u8>::empty(),
    {
        Sha256Hasher { bytes: Vec::new() }
    }
}

impl Sha256Hasher {
    /// The SHA-256 digest of everything written.
    pub fn finalize(self) -> (r: [u8; 32])
        ensures
            r@ == sha256_digest(self@),
    {
        sha256_bytes(self.bytes.as_slice())
    }

    /// The digest of everything written, folded to 64 bits.
    pub fn finish(&self) -> (r: u64)
        ensures
            r == fold_256_to_64(sha256_digest(self@)),
    {
        let digest = sha256_bytes(self.bytes.as_slice());
        xor_256_to_64(digest.as_slice())
    }

    /// Adds bytes to the input.
    pub fn write(&mut self, bytes: &[u8])
        ensures
            final(self)@ == old(self)@ + bytes@,
    {
        let _ = crate::io::write_bytes(&mut self.bytes, bytes);
    }

    /// Adds the encoding of a value (big-endian for integers) to the input.
    pub fn write_value<T: Writeable>(&mut self, value: &T) -> (r: Result<u64, crate::io::Error>)
        ensures
            match value.spec_write() {
                Ok(bytes) => r == Ok::<u64, crate::io::Error>(bytes.len() as u64) && final(self)@
                    == old(self)@ + bytes,
                Err(e) => r == Err::<u64, crate::io::Error>(e) && old(self)@.is_prefix_of(
                    final(self)@,
                ),
            },
    {
        value.write_to(&mut self.bytes)
    }
}

/// A hasher that collects the bytes written to it and hashes them with BLAKE3.
pub struct Blake3Hasher {
    bytes: Vec<u8>,
}

impl View for Blake3Hasher {
    /// The bytes written so far.
    type V = Seq<u8>;

    closed spec fn view(&self) -> Seq<u8> {
        self.bytes@
    }
}

impl Default for Blake3Hasher {
    fn default() -> (r: Self)
        ensures
            r@ == Seq::<u8>::empty(),
    {
        Blake3Hasher { bytes: Vec::new() }
    }
}

impl Blake3Hasher {
    /// The BLAKE3 hash of everything written.
    pub fn finalize(&self) -> (r: [u8; 32])
        ensures
            r@ == blake3_digest(self@),
    {
        blake3_bytes(self.bytes.as_slice())
    }

    /// The hash of everything written, folded to 64 bits.
    pub fn finish(&self) -> (r: u64)
        ensures
            r == fold_256_to_64(blake3_digest(self@)),
    {
        let digest = blake3_bytes(self.bytes.as_slice());
        xor_256_to_64(digest.as_slice())
    }

    /// Adds bytes to the input.
    pub fn write(&mut self, bytes: &[u8])
        ensures
            final(self)@ == old(self)@ + bytes@,
    {
        let _ = crate::io::write_bytes(&mut self.bytes, bytes);
    }

    /// Adds the encoding of a value (big-endian for integers) to the input.
    pub fn write_value<T: Writeable>(&mut self, value: &T) -> (r: Result<u64, crate::io::Error>)
        ensures
            match value.spec_write() {
                Ok(bytes) => r == Ok::<u64, crate::io::Error>(bytes.len() as u64) && final(self)@
                    == old(self)@ + bytes,
                Err(e) => r == Err::<u64, crate::io::Error>(e) && old(self)@.is_prefix_of(
                    final(self)@,
                ),
            },
    {
        value.write_to(&mut self.bytes)
    }
}

} // verus!
