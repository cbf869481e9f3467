//! A compact big-endian binary encoding.
//!
//! Integers are written big-endian in their full width, `bool` as one byte,
//! `char` as its code point in four bytes, and strings and lists as a
//! three-byte (`u24`) length followed by their contents. Values are written
//! into a `Vec<u8>` and read back through a [`Reader`] over a byte slice.
use vstd::prelude::*;

verus! {

/// The largest number of elements (or string bytes) that a `u24` length prefix can describe.
pub const MAX_ARRAY_LENGTH: usize = 0xffffff;

/// The ways in which encoding or decoding can fail.
#[derive(Debug, Clone, Copy, PartialEq, Eq, Structural)]
pub enum Error {
    /// The input ended before the value was complete.
    UnexpectedEof,
    /// A value written as a `u24` was larger than `0xffffff`.
    U24OutOfRange,
    /// A decoded `u32` was not a Unicode scalar value.
    InvalidCodepoint,
    /// A string was longer than [`MAX_ARRAY_LENGTH`] bytes.
    StringTooLong,
    /// A list was longer than [`MAX_ARRAY_LENGTH`] elements.
    ArrayTooLong,
    /// The bytes of a string were not valid UTF-8.
    InvalidUtf8,
}

/// `256` raised to the power `n`.
pub open spec fn pow256(n: nat) -> nat
    decreases n,
{
    if n == 0 {
        1
    } else {
        256 * pow256((n - 1) as nat)
    }
}

/// The lowest `width` bytes of `value`, most significant first.
pub open spec fn be_bytes(value: nat, width: nat) -> Seq<u8>
    decreases width,
{
    if width == 0 {
        Seq::empty()
    } else {
        be_bytes(value / 256, (width - 1) as nat).push((value % 256) as u8)
    }
}

/// The number whose big-endian bytes are `bytes`.
pub open spec fn be_value(bytes: Seq<u8>) -> nat
    decreases bytes.len(),
{
    if bytes.len() == 0 {
        0
    } else {
        be_value(bytes.drop_last()) * 256 + bytes.last() as nat
    }
}

/// Reading a big-endian number of `width` bytes: the number and the bytes taken.
pub open spec fn be_read(bytes: Seq<u8>, width: nat) -> Result<(nat, nat), Error> {
    if bytes.len() < width {
        Err(Error::UnexpectedEof)
    } else {
        Ok((be_value(bytes.take(width as int)), width))
    }
}

/// The two's-complement bit pattern of `value` in an integer type with `modulus` values.
pub open spec fn twos(value: int, modulus: nat) -> nat {
    if value < 0 {
        (value + modulus) as nat
    } else {
        value as nat
    }
}

/// The signed value of the two's-complement bit pattern `bits` in a type with `modulus` values.
pub open spec fn from_twos(bits: nat, modulus: nat) -> int {
    if bits >= modulus / 2 {
        bits - modulus
    } else {
        bits as int
    }
}

pub proof fn lemma_pow256_positive(n: nat)
    ensures
        pow256(n) >= 1,
    decreases n,
{
    if n > 0 {
        lemma_pow256_positive((n - 1) as nat);
    }
}

pub proof fn lemma_pow256_values()
    ensures
        pow256(1) == 0x100,
        pow256(2) == 0x1_0000,
        pow256(3) == 0x100_0000,
        pow256(4) == 0x1_0000_0000,
        pow256(8) == 0x1_0000_0000_0000_0000,
        pow256(16) == 0x1_0000_0000_0000_0000_0000_0000_0000_0000,
{
    reveal_with_fuel(pow256, 17);
}

/// `be_bytes` always yields `width` bytes.
pub proof fn lemma_be_bytes_len(value: nat, width: nat)
    ensures
        be_bytes(value, width).len() == width,
    decreases width,
{
    if width > 0 {
        lemma_be_bytes_len(value / 256, (width - 1) as nat);
    }
}

/// A number of `n` bytes is below `256^n`.
pub proof fn lemma_be_value_bound(bytes: Seq<u8>)
    ensures
        be_value(bytes) < pow256(bytes.len()),
    decreases bytes.len(),
{
    if bytes.len() > 0 {
        let init = bytes.drop_last();
        lemma_be_value_bound(init);
        let v = be_value(init);
        let p = pow256(init.len());
        assert(v * 256 + bytes.last() < p * 256) by (nonlinear_arith)
            requires
                v < p,
                bytes.last() < 256,
        ;
    }
}

/// Reading back the bytes of a number that fits gives the number.
pub proof fn lemma_be_round_trip(value: nat, width: nat)
    requires
        value < pow256(width),
    ensures
        be_value(be_bytes(value, width)) == value,
        be_bytes(value, width).len() == width,
    decreases width,
{
    lemma_be_bytes_len(value, width);
    if width > 0 {
        let p = pow256((width - 1) as nat);
        assert(value / 256 < p) by (nonlinear_arith)
            requires
                value < 256 * p,
        ;
        lemma_be_round_trip(value / 256, (width - 1) as nat);
        let bytes = be_bytes(value, width);
        assert(bytes.drop_last() == be_bytes(value / 256, (width - 1) as nat));
        assert(value == (value / 256) * 256 + value % 256);
    }
}

/// Writing the number of some bytes gives the same bytes back.
pub proof fn lemma_be_bytes_of_value(bytes: Seq<u8>)
    ensures
        be_bytes(be_value(bytes), bytes.len()) == bytes,
    decreases bytes.len(),
{
    if bytes.len() > 0 {
        let init = bytes.drop_last();
        lemma_be_bytes_of_value(init);
        let v = be_value(bytes);
        let w = be_value(init);
        assert(v / 256 == w && v % 256 == bytes.last()) by (nonlinear_arith)
            requires
                v == w * 256 + bytes.last(),
                bytes.last() < 256,
                w >= 0,
        ;
        assert(be_bytes(v, bytes.len()) =~= bytes);
    }
}

/// Reading a number back from bytes that start with its encoding.
pub proof fn lemma_be_read_bytes(value: nat, width: nat, rest: Seq<u8>)
    requires
        value < pow256(width),
    ensures
        be_read(be_bytes(value, width) + rest, width) == Ok::<(nat, nat), Error>((value, width)),
{
    lemma_be_round_trip(value, width);
    let bytes = be_bytes(value, width);
    assert((bytes + rest).take(width as int) =~= bytes);
}

/// Signed values survive the trip through their two's-complement pattern.
pub proof fn lemma_twos_round_trip(value: int, modulus: nat)
    requires
        modulus >= 2,
        modulus % 2 == 0,
        -(modulus / 2) <= value < modulus / 2,
    ensures
        twos(value, modulus) < modulus,
        from_twos(twos(value, modulus), modulus) == value,
{
}

/// A cursor over a byte slice, from which values are decoded front to back.
pub struct Reader<'a> {
    bytes: &'a [u8],
    pos: usize,
}

impl<'a> View for Reader<'a> {
    /// The bytes that have not been read yet.
    type V = Seq<u8>;

    closed spec fn view(&self) -> Seq<u8> {
        self.bytes@.subrange(self.pos as int, self.bytes@.len() as int)
    }
}

impl<'a> Reader<'a> {
    /// The position of the next byte within the whole input.
    pub closed spec fn spec_position(&self) -> nat {
        self.pos as nat
    }

    /// The whole input, read or not.
    pub closed spec fn source(&self) -> Seq<u8> {
        self.bytes@
    }

    #[verifier::type_invariant]
    spec fn position_in_bounds(&self) -> bool {
        self.pos <= self.bytes@.len()
    }

    /// A reader at the start of `bytes`.
    pub fn new(bytes: &'a [u8]) -> (r: Reader<'a>)
        ensures
            r@ == bytes@,
            r.source() == bytes@,
            r.spec_position() == 0,
    {
        let r = Reader { bytes, pos: 0 };
        assert(r@ =~= bytes@);
        r
    }

    /// The number of bytes read so far.
    pub fn position(&self) -> (p: usize)
        ensures
            p == self.spec_position(),
    {
        self.pos
    }

    /// The number of bytes that are left.
    pub fn remaining(&self) -> (n: usize)
        ensures
            n == self@.len(),
    {
        proof {
            use_type_invariant(self);
        }
        self.bytes.len() - self.pos
    }

    /// Reads one byte.
    pub fn read_byte(&mut self) -> (r: Result<u8, Error>)
        ensures
            old(self)@.len() == 0 ==> r == Err::<u8, Error>(Error::UnexpectedEof) && final(self)@
                == old(self)@,
            old(self)@.len() > 0 ==> r == Ok::<u8, Error>(old(self)@[0]) && final(self)@ == old(self)@.drop_first(),
            final(self).source() == old(self).source(),
    {
        proof {
            use_type_invariant(&*self);
        }
        if self.pos < self.bytes.len() {
            let b = self.bytes[self.pos];
            self.pos = self.pos + 1;
            proof {
                assert(self@ =~= old(self)@.drop_first());
            }
            Ok(b)
        } else {
            Err(Error::UnexpectedEof)
        }
    }
}

/// Writes the lowest `width` bytes of `value`, most significant first.
fn write_be(writer: &mut Vec<u8>, value: u128, width: usize)
    ensures
        final(writer)@ == old(writer)@ + be_bytes(value as nat, width as nat),
    decreases width,
{
    if width == 0 {
        assert(old(writer)@ + be_bytes(value as nat, 0) =~= old(writer)@);
    } else {
        write_be(writer, value / 256, width - 1);
        writer.push((value % 256) as u8);
        proof {
            let pre = old(writer)@;
            let head = be_bytes((value / 256) as nat, (width - 1) as nat);
            assert(pre + head.push((value % 256) as u8) =~= (pre + head).push((value % 256) as u8));
        }
    }
}

/// Reads a big-endian number of `width` bytes.
fn read_be(reader: &mut Reader, width: usize) -> (r: Result<u128, Error>)
    requires
        width <= 16,
    ensures
        match be_read(old(reader)@, width as nat) {
            Ok((v, n)) => r == Ok::<u128, Error>(v as u128) && final(reader)@ == old(reader)@.skip(
                n as int,
            ),
            Err(e) => r == Err::<u128, Error>(e),
        },
        final(reader).source() == old(reader).source(),
{
    if reader.remaining() < width {
        return Err(Error::UnexpectedEof);
    }
    let ghost start = reader@;
    let mut acc: u128 = 0;
    let mut i: usize = 0;
    while i < width
        invariant
            i <= width <= 16,
            start.len() >= width,
            reader@ == start.skip(i as int),
            acc == be_value(start.take(i as int)),
            reader.source() == old(reader).source(),
            start == old(reader)@,
        decreases width - i,
    {
        let b = match reader.read_byte() {
            Ok(b) => b,
            Err(_) => {
                proof {
                    assert(start.skip(i as int).len() > 0);
                }
                vstd::pervasive::unreached()
            },
        };
        proof {
            assert(start.skip(i as int)[0] == start[i as int]);
            assert(start.take(i as int + 1).drop_last() =~= start.take(i as int));
            lemma_be_value_bound(start.take(i as int));
            lemma_pow256_values();
            lemma_pow_mono(i as nat, 15);
            assert(start.skip(i as int).drop_first() =~= start.skip(i as int + 1));
        }
        acc = acc * 256 + b as u128;
        i = i + 1;
    }
    Ok(acc)
}

/// `256^i` grows with `i`.
proof fn lemma_pow_mono(i: nat, j: nat)
    requires
        i <= j,
    ensures
        pow256(i) <= pow256(j),
    decreases j,
{
    if i < j {
        lemma_pow_mono(i, (j - 1) as nat);
        lemma_pow256_positive((j - 1) as nat);
    }
}

/// Reads a three-byte big-endian number.
pub fn read_u24(reader: &mut Reader) -> (r: Result<u32, Error>)
    ensures
        match be_read(old(reader)@, 3) {
            Ok((v, n)) => r == Ok::<u32, Error>(v as u32) && v < 0x100_0000 && final(reader)@ == old(reader)@.skip(n as int),
            Err(e) => r == Err::<u32, Error>(e),
        },
        final(reader).source() == old(reader).source(),
{
    proof {
        if old(reader)@.len() >= 3 {
            lemma_be_value_bound(old(reader)@.take(3));
            lemma_pow256_values();
        }
    }
    match read_be(reader, 3) {
        Ok(v) => Ok(v as u32),
        Err(e) => Err(e),
    }
}

/// The encoding of a `u24`: an error for values above `0xffffff`, else three bytes.
pub open spec fn u24_encoding(value: u32) -> Result<Seq<u8>, Error> {
    if value > 0xffffff {
        Err(Error::U24OutOfRange)
    } else {
        Ok(be_bytes(value as nat, 3))
    }
}

/// What [`write_u24`] writes of a number below `2^24`, [`read_u24`] reads back,
/// consuming exactly those three bytes.
pub proof fn lemma_u24_round_trip(value: u32, rest: Seq<u8>)
    requires
        value <= 0xffffff,
    ensures
        u24_encoding(value) is Ok,
        be_read(u24_encoding(value)->Ok_0 + rest, 3) == Ok::<(nat, nat), Error>((value as nat, 3)),
{
    lemma_pow256_values();
    lemma_be_read_bytes(value as nat, 3, rest);
}

/// Writes a number below `2^24` as three big-endian bytes, returning 3.
pub fn write_u24(writer: &mut Vec<u8>, value: u32) -> (r: Result<u64, Error>)
    ensures
        match u24_encoding(value) {
            Ok(bytes) => r == Ok::<u64, Error>(3) && final(writer)@ == old(writer)@ + bytes,
            Err(e) => r == Err::<u64, Error>(e) && final(writer)@ == old(writer)@,
        },
{
    if value > 0xffffff {
        return Err(Error::U24OutOfRange);
    }
    write_be(writer, value as u128, 3);
    Ok(3)
}

/// Reads exactly `length` bytes.
pub fn read_bytes(reader: &mut Reader, length: usize) -> (r: Result<Vec<u8>, Error>)
    ensures
        old(reader)@.len() < length ==> r == Err::<Vec<u8>, Error>(Error::UnexpectedEof),
        old(reader)@.len() >= length ==> r is Ok && r->Ok_0@ == old(reader)@.take(length as int)
            && final(reader)@ == old(reader)@.skip(length as int),
        final(reader).source() == old(reader).source(),
{
    if reader.remaining() < length {
        return Err(Error::UnexpectedEof);
    }
    let ghost start = reader@;
    let mut out: Vec<u8> = Vec::with_capacity(length);
    let mut i: usize = 0;
    while i < length
        invariant
            i <= length <= start.len(),
            reader@ == start.skip(i as int),
            out@ == start.take(i as int),
            reader.source() == old(reader).source(),
            start == old(reader)@,
        decreases length - i,
    {
        let b = match reader.read_byte() {
            Ok(b) => b,
            Err(_) => {
                proof {
                    assert(start.skip(i as int).len() > 0);
                }
                vstd::pervasive::unreached()
            },
        };
        proof {
            assert(start.skip(i as int)[0] == start[i as int]);
            assert(start.skip(i as int).drop_first() =~= start.skip(i as int + 1));
            assert(out@.push(b) =~= start.take(i as int + 1));
        }
        out.push(b);
        i = i + 1;
    }
    Ok(out)
}

/// Appends `data` to the writer, returning its length.
pub fn write_bytes(writer: &mut Vec<u8>, data: &[u8]) -> (r: Result<u64, Error>)
    ensures
        r == Ok::<u64, Error>(data@.len() as u64),
        final(writer)@ == old(writer)@ + data@,
{
    let mut i: usize = 0;
    while i < data.len()
        invariant
            i <= data@.len(),
            writer@ == old(writer)@ + data@.take(i as int),
        decreases data@.len() - i,
    {
        proof {
            assert(old(writer)@ + data@.take(i as int + 1) =~= (old(writer)@ + data@.take(
                i as int,
            )).push(data@[i as int]));
        }
        writer.push(data[i]);
        i = i + 1;
    }
    proof {
        assert(data@.take(data@.len() as int) =~= data@);
    }
    Ok(data.len() as u64)
}

/// The size of the last block that [`write_zeros`] writes: what is left of `count`
/// after whole blocks of 4096 have been taken off while more than 4096 remain.
pub open spec fn last_zero_block(count: nat) -> nat {
    if count == 0 {
        0
    } else {
        ((count - 1) as nat % 4096 + 1) as nat
    }
}

/// Appends `count` zero bytes; returns the size of the last block of at most 4096.
pub fn write_zeros(writer: &mut Vec<u8>, count: u64) -> (r: Result<u64, Error>)
    ensures
        r == Ok::<u64, Error>(last_zero_block(count as nat) as u64),
        final(writer)@ == old(writer)@ + Seq::new(count as nat, |i: int| 0u8),
{
    let mut left: u64 = count;
    while left > 4096
        invariant
            left <= count,
            last_zero_block(left as nat) == last_zero_block(count as nat),
            writer@ == old(writer)@ + Seq::new((count - left) as nat, |i: int| 0u8),
        decreases left,
    {
        let mut k: u64 = 0;
        while k < 4096
            invariant
                k <= 4096 < left <= count,
                writer@ == old(writer)@ + Seq::new((count - left + k) as nat, |i: int| 0u8),
            decreases 4096 - k,
        {
            proof {
                assert(old(writer)@ + Seq::new((count - left + k + 1) as nat, |i: int| 0u8) =~= (
                old(writer)@ + Seq::new((count - left + k) as nat, |i: int| 0u8)).push(0u8));
            }
            writer.push(0u8);
            k = k + 1;
        }
        proof {
            assert(((left - 1) as nat) % 4096 == ((left - 4096 - 1) as nat) % 4096) by (
            nonlinear_arith)
                requires
                    left > 4096,
            ;
        }
        left = left - 4096;
    }
    let mut k: u64 = 0;
    while k < left
        invariant
            k <= left <= 4096,
            left <= count,
            writer@ == old(writer)@ + Seq::new((count - left + k) as nat, |i: int| 0u8),
        decreases left - k,
    {
        proof {
            assert(old(writer)@ + Seq::new((count - left + k + 1) as nat, |i: int| 0u8) =~= (
            old(writer)@ + Seq::new((count - left + k) as nat, |i: int| 0u8)).push(0u8));
        }
        writer.push(0u8);
        k = k + 1;
    }
    proof {
        assert(last_zero_block(left as nat) == left) by (nonlinear_arith)
            requires
                left <= 4096,
        ;
    }
    Ok(left)
}


/// Marks types whose equal values always have the same encoding.
pub trait Deterministic {

}

/// Marks the types that are not a single byte; lists of them are written element by element.
pub trait NonByte {

}

/// Marks the single-byte types, whose lists are written as raw bytes.
pub trait Byte {

}

/// A type that can be decoded from the binary format.
pub trait Readable: Sized {
    /// What a decoded value is, as far as the encoding is concerned.
    type Model;

    /// The model of a value.
    spec fn model(&self) -> Self::Model;

    /// Decoding from the front of `bytes`: the model of the value and the number of bytes taken.
    spec fn spec_read(bytes: Seq<u8>) -> Result<(Self::Model, nat), Error>;

    /// Decodes a value from the front of the reader.
    fn read_from(reader: &mut Reader) -> (r: Result<Self, Error>)
        ensures
            match Self::spec_read(old(reader)@) {
                Ok((v, n)) => r is Ok && r->Ok_0.model() == v && n <= old(reader)@.len() && final(reader)@ == old(reader)@.skip(n as int),
                Err(e) => r == Err::<Self, Error>(e),
            },
            final(reader).source() == old(reader).source(),
    ;
}

/// A type that can be encoded in the binary format.
pub trait Writeable {
    /// The encoding of a value, or the error that writing it meets.
    spec fn spec_write(&self) -> Result<Seq<u8>, Error>;

    /// Appends the encoding of the value to the writer and returns its length. On an
    /// error the writer keeps what it had and may have more after it.
    fn write_to(&self, writer: &mut Vec<u8>) -> (r: Result<u64, Error>)
        ensures
            match self.spec_write() {
                Ok(bytes) => r == Ok::<u64, Error>(bytes.len() as u64) && final(writer)@ == old(writer)@ + bytes,
                Err(e) => r == Err::<u64, Error>(e) && old(writer)@.is_prefix_of(final(writer)@),
            },
    ;
}

/// Reading back what was written gives the value back, whatever follows it.
pub trait RoundTrip: Readable + Writeable {
    /// The values that the format can describe completely (lists and strings that fit
    /// a `u24` length, and so on).
    spec fn spec_encodable(&self) -> bool;

    /// An encodable value is written without error, and reading its encoding, followed
    /// by any bytes, decodes the same value and takes exactly the encoding.
    proof fn lemma_round_trip(value: Self, rest: Seq<u8>)
        requires
            value.spec_encodable(),
        ensures
            value.spec_write() is Ok,
            Self::spec_read(value.spec_write()->Ok_0 + rest) == Ok::<(Self::Model, nat), Error>(
                (value.model(), value.spec_write()->Ok_0.len()),
            ),
    ;
}

/// Decoding values from a [`Reader`].
pub trait ReadExt {
    /// Decodes one value of type `T`.
    fn read_value<T: Readable>(&mut self) -> Result<T, Error>;
}

/// Encoding values into a byte vector.
pub trait WriteExt {
    /// Appends the encoding of `value`, returning its length.
    fn write_value<T: Writeable>(&mut self, value: &T) -> Result<u64, Error>;
}

impl<'a> ReadExt for Reader<'a> {
    fn read_value<T: Readable>(&mut self) -> (r: Result<T, Error>)
        ensures
            match T::spec_read(old(self)@) {
                Ok((v, n)) => r is Ok && r->Ok_0.model() == v && final(self)@ == old(self)@.skip(
                    n as int,
                ),
                Err(e) => r == Err::<T, Error>(e),
            },
    {
        T::read_from(self)
    }
}

impl WriteExt for Vec<u8> {
    fn write_value<T: Writeable>(&mut self, value: &T) -> (r: Result<u64, Error>)
        ensures
            match value.spec_write() {
                Ok(bytes) => r == Ok::<u64, Error>(bytes.len() as u64) && final(self)@ == old(self)@ + bytes,
                Err(e) => r == Err::<u64, Error>(e) && old(self)@.is_prefix_of(final(self)@),
            },
    {
        value.write_to(self)
    }
}

impl<'b, T: Writeable> Writeable for &'b T {
    open spec fn spec_write(&self) -> Result<Seq<u8>, Error> {
        (**self).spec_write()
    }

    fn write_to(&self, writer: &mut Vec<u8>) -> (r: Result<u64, Error>) {
        (**self).write_to(writer)
    }
}

/// Decoding `count` values of type `T` one after another.
pub open spec fn read_items<T: Readable>(bytes: Seq<u8>, count: nat) -> Result<
    (Seq<T::Model>, nat),
    Error,
>
    decreases count,
{
    if count == 0 {
        Ok((Seq::empty(), 0))
    } else {
        match T::spec_read(bytes) {
            Err(e) => Err(e),
            Ok((v, n)) => match read_items::<T>(bytes.skip(n as int), (count - 1) as nat) {
                Err(e) => Err(e),
                Ok((vs, m)) => Ok((seq![v] + vs, n + m)),
            },
        }
    }
}

/// Decoding a list: a `u24` count, then that many values.
pub open spec fn read_list<T: Readable>(bytes: Seq<u8>) -> Result<(Seq<T::Model>, nat), Error> {
    match be_read(bytes, 3) {
        Err(e) => Err(e),
        Ok((count, h)) => match read_items::<T>(bytes.skip(h as int), count) {
            Err(e) => Err(e),
            Ok((vs, m)) => Ok((vs, h + m)),
        },
    }
}

/// Encoding values one after another; the first error met, if any.
pub open spec fn write_items<T: Writeable>(items: Seq<T>) -> Result<Seq<u8>, Error>
    decreases items.len(),
{
    if items.len() == 0 {
        Ok(Seq::empty())
    } else {
        match items[0].spec_write() {
            Err(e) => Err(e),
            Ok(b) => match write_items(items.drop_first()) {
                Err(e) => Err(e),
                Ok(r) => Ok(b + r),
            },
        }
    }
}

/// Encoding a list: its length, cut to 32 bits, as a `u24`, then its elements.
pub open spec fn write_list<T: Writeable>(items: Seq<T>) -> Result<Seq<u8>, Error> {
    match u24_encoding(items.len() as u32) {
        Err(e) => Err(e),
        Ok(h) => match write_items(items) {
            Err(e) => Err(e),
            Ok(b) => Ok(h + b),
        },
    }
}

/// The models of a sequence of values.
pub open spec fn models<T: Readable>(items: Seq<T>) -> Seq<T::Model> {
    Seq::new(items.len(), |i: int| items[i].model())
}

/// Reads a `u24` count and then that many values.
pub fn read_vec<T: Readable>(reader: &mut Reader) -> (r: Result<Vec<T>, Error>)
    ensures
        match read_list::<T>(old(reader)@) {
            Ok((vs, n)) => r is Ok && models(r->Ok_0@) == vs && n <= old(reader)@.len() && final(reader)@ == old(reader)@.skip(n as int),
            Err(e) => r == Err::<Vec<T>, Error>(e),
        },
        final(reader).source() == old(reader).source(),
{
    let ghost start = reader@;
    let length = match read_u24(reader) {
        Ok(n) => n,
        Err(e) => return Err(e),
    };
    let mut result: Vec<T> = Vec::new();
    proof {
        assert(models(result@) =~= Seq::<T::Model>::empty());
        match read_items::<T>(reader@, length as nat) {
            Ok((vs, m)) => {
                assert(Seq::<T::Model>::empty() + vs =~= vs);
            },
            Err(_) => {},
        }
    }
    let mut i: u32 = 0;
    let ghost mut taken: nat = 3;
    while i < length
        invariant
            i <= length,
            be_read(start, 3) == Ok::<(nat, nat), Error>((length as nat, 3)),
            taken <= start.len(),
            reader@ == start.skip(taken as int),
            reader.source() == old(reader).source(),
            result@.len() == i,
            start == old(reader)@,
            match read_items::<T>(reader@, (length - i) as nat) {
                Ok((vs, m)) => read_list::<T>(start) == Ok::<(Seq<T::Model>, nat), Error>(
                    (models(result@) + vs, taken + m),
                ),
                Err(e) => read_list::<T>(start) == Err::<(Seq<T::Model>, nat), Error>(e),
            },
        decreases length - i,
    {
        let ghost before = reader@;
        let item = match T::read_from(reader) {
            Ok(v) => v,
            Err(e) => return Err(e),
        };
        proof {
            let (v, n) = T::spec_read(before)->Ok_0;
            assert(start.skip(taken as int).skip(n as int) =~= start.skip((taken + n) as int));
            assert(models(result@.push(item)) =~= models(result@) + seq![v]);
            match read_items::<T>(reader@, (length - i - 1) as nat) {
                Ok((vs, m)) => {
                    assert(models(result@) + (seq![v] + vs) =~= models(result@) + seq![v] + vs);
                },
                Err(e) => {},
            }
            taken = taken + n;
        }
        result.push(item);
        i = i + 1;
    }
    proof {
        assert(models(result@) + Seq::<T::Model>::empty() =~= models(result@));
    }
    Ok(result)
}

/// Writes the length of `slice` as a `u24` (cut to 32 bits first) and then its elements.
pub fn write_slice<T: Writeable>(writer: &mut Vec<u8>, slice: &[T]) -> (r: Result<u64, Error>)
    ensures
        match write_list(slice@) {
            Ok(bytes) => r == Ok::<u64, Error>(bytes.len() as u64) && final(writer)@ == old(writer)@ + bytes,
            Err(e) => r == Err::<u64, Error>(e) && old(writer)@.is_prefix_of(final(writer)@),
        },
{
    #[verifier::truncate]
    let header = slice.len() as u32;
    let mut length = match write_u24(writer, header) {
        Ok(n) => n,
        Err(e) => {
            proof {
                assert(old(writer)@ =~= writer@.subrange(0, old(writer)@.len() as int));
            }
            return Err(e);
        },
    };
    let ghost h = be_bytes(header as nat, 3);
    proof {
        lemma_be_bytes_len(header as nat, 3);
        assert(slice@.skip(0) =~= slice@);
    }
    let mut i: usize = 0;
    let ghost mut written: Seq<u8> = h;
    while i < slice.len()
        invariant
            i <= slice@.len(),
            u24_encoding(header) == Ok::<Seq<u8>, Error>(h),
            header == slice@.len() as u32,
            writer@ == old(writer)@ + written,
            length == written.len(),
            match write_items(slice@.skip(i as int)) {
                Ok(b) => write_list(slice@) == Ok::<Seq<u8>, Error>(written + b),
                Err(e) => write_list(slice@) == Err::<Seq<u8>, Error>(e),
            },
        decreases slice@.len() - i,
    {
        let ghost before = writer@;
        let n = match slice[i].write_to(writer) {
            Ok(n) => n,
            Err(e) => {
                proof {
                    assert(slice@.skip(i as int)[0] == slice@[i as int]);
                    assert(old(writer)@ =~= before.subrange(0, old(writer)@.len() as int));
                    assert(before =~= writer@.subrange(0, before.len() as int));
                    assert(old(writer)@ =~= writer@.subrange(0, old(writer)@.len() as int));
                }
                return Err(e);
            },
        };
        let total = writer.len();
        proof {
            let b = slice@[i as int].spec_write()->Ok_0;
            assert(slice@.skip(i as int)[0] == slice@[i as int]);
            assert(slice@.skip(i as int).drop_first() =~= slice@.skip(i as int + 1));
            assert(old(writer)@ + written + b =~= old(writer)@ + (written + b));
            match write_items(slice@.skip(i as int + 1)) {
                Ok(rb) => {
                    assert(written + (b + rb) =~= written + b + rb);
                },
                Err(e) => {},
            }
            written = written + b;
        }
        length = length + n;
        i = i + 1;
    }
    proof {
        assert(slice@.skip(slice@.len() as int) =~= Seq::<T>::empty());
        assert(written + Seq::<u8>::empty() =~= written);
    }
    Ok(length)
}

/// Reading back a written list of encodable values.
pub proof fn lemma_items_round_trip<T: RoundTrip>(items: Seq<T>, rest: Seq<u8>)
    requires
        forall|i: int| 0 <= i < items.len() ==> #[trigger] items[i].spec_encodable(),
    ensures
        write_items(items) is Ok,
        read_items::<T>(write_items(items)->Ok_0 + rest, items.len()) == Ok::<
            (Seq<T::Model>, nat),
            Error,
        >((models(items), write_items(items)->Ok_0.len())),
    decreases items.len(),
{
    if items.len() == 0 {
        assert(models(items) =~= Seq::<T::Model>::empty());
    } else {
        let tail = items.drop_first();
        assert forall|i: int| 0 <= i < tail.len() implies #[trigger] tail[i].spec_encodable() by {
            assert(tail[i] == items[i + 1]);
        }
        assert(items[0].spec_encodable());
        lemma_items_round_trip(tail, rest);
        let rb = write_items(tail)->Ok_0;
        T::lemma_round_trip(items[0], rb + rest);
        let b = items[0].spec_write()->Ok_0;
        assert(b + rb + rest =~= b + (rb + rest));
        assert((b + (rb + rest)).skip(b.len() as int) =~= rb + rest);
        assert(models(items) =~= seq![items[0].model()] + models(tail));
    }
}

/// Reading back a written list of at most [`MAX_ARRAY_LENGTH`] encodable values.
pub proof fn lemma_list_round_trip<T: RoundTrip>(items: Seq<T>, rest: Seq<u8>)
    requires
        items.len() <= MAX_ARRAY_LENGTH,
        forall|i: int| 0 <= i < items.len() ==> #[trigger] items[i].spec_encodable(),
    ensures
        write_list(items) is Ok,
        read_list::<T>(write_list(items)->Ok_0 + rest) == Ok::<(Seq<T::Model>, nat), Error>(
            (models(items), write_list(items)->Ok_0.len()),
        ),
{
    lemma_items_round_trip(items, rest);
    let b = write_items(items)->Ok_0;
    let h = be_bytes(items.len(), 3);
    assert((items.len() as u32) as nat == items.len());
    lemma_pow256_values();
    lemma_be_read_bytes(items.len(), 3, b + rest);
    lemma_be_bytes_len(items.len(), 3);
    assert(h + b + rest =~= h + (b + rest));
    assert((h + (b + rest)).skip(3) =~= b + rest);
}

impl<T: NonByte> NonByte for Vec<T> {

}

impl<T: Readable + NonByte> Readable for Vec<T> {
    type Model = Seq<T::Model>;

    open spec fn model(&self) -> Seq<T::Model> {
        models(self@)
    }

    open spec fn spec_read(bytes: Seq<u8>) -> Result<(Seq<T::Model>, nat), Error> {
        read_list::<T>(bytes)
    }

    fn read_from(reader: &mut Reader) -> (r: Result<Vec<T>, Error>) {
        read_vec(reader)
    }
}

impl<T: Writeable + NonByte> Writeable for Vec<T> {
    open spec fn spec_write(&self) -> Result<Seq<u8>, Error> {
        write_list(self@)
    }

    fn write_to(&self, writer: &mut Vec<u8>) -> (r: Result<u64, Error>) {
        write_slice(writer, self.as_slice())
    }
}

impl<T: RoundTrip + NonByte> RoundTrip for Vec<T> {
    open spec fn spec_encodable(&self) -> bool {
        &&& self@.len() <= MAX_ARRAY_LENGTH
        &&& forall|i: int| 0 <= i < self@.len() ==> #[trigger] self@[i].spec_encodable()
    }

    proof fn lemma_round_trip(value: Vec<T>, rest: Seq<u8>) {
        lemma_list_round_trip(value@, rest);
    }
}

impl<T: Readable + Writeable> NonByte for Box<T> {

}

impl<T: Readable> Readable for Box<T> {
    type Model = T::Model;

    open spec fn model(&self) -> T::Model {
        (**self).model()
    }

    open spec fn spec_read(bytes: Seq<u8>) -> Result<(T::Model, nat), Error> {
        T::spec_read(bytes)
    }

    fn read_from(reader: &mut Reader) -> (r: Result<Box<T>, Error>) {
        match T::read_from(reader) {
            Ok(v) => Ok(Box::new(v)),
            Err(e) => Err(e),
        }
    }
}

impl<T: Writeable> Writeable for Box<T> {
    open spec fn spec_write(&self) -> Result<Seq<u8>, Error> {
        (**self).spec_write()
    }

    fn write_to(&self, writer: &mut Vec<u8>) -> (r: Result<u64, Error>) {
        (**self).write_to(writer)
    }
}

impl<T: RoundTrip> RoundTrip for Box<T> {
    open spec fn spec_encodable(&self) -> bool {
        (**self).spec_encodable()
    }

    proof fn lemma_round_trip(value: Box<T>, rest: Seq<u8>) {
        T::lemma_round_trip(*value, rest);
    }
}


impl Readable for u8 {
    type Model = u8;

    open spec fn model(&self) -> u8 {
        *self
    }

    open spec fn spec_read(bytes: Seq<u8>) -> Result<(u8, nat), Error> {
        match be_read(bytes, 1) {
            Ok((v, n)) => Ok((v as u8, n)),
            Err(e) => Err(e),
        }
    }

    fn read_from(reader: &mut Reader) -> (r: Result<u8, Error>) {
        proof {
            if old(reader)@.len() >= 1 {
                lemma_be_value_bound(old(reader)@.take(1));
                lemma_pow256_values();
            }
        }
        match read_be(reader, 1) {
            Ok(v) => Ok(v as u8),
            Err(e) => Err(e),
        }
    }
}

impl Writeable for u8 {
    open spec fn spec_write(&self) -> Result<Seq<u8>, Error> {
        Ok(be_bytes(*self as nat, 1))
    }

    fn write_to(&self, writer: &mut Vec<u8>) -> (r: Result<u64, Error>) {
        write_be(writer, *self as u128, 1);
        proof {
            lemma_be_bytes_len(*self as nat, 1);
        }
        Ok(1)
    }
}

impl RoundTrip for u8 {
    open spec fn spec_encodable(&self) -> bool {
        true
    }

    proof fn lemma_round_trip(value: u8, rest: Seq<u8>) {
        lemma_pow256_values();
        lemma_be_read_bytes(value as nat, 1, rest);
        lemma_be_bytes_len(value as nat, 1);
    }
}

impl Byte for u8 {

}

impl Deterministic for u8 {

}

impl Readable for u16 {
    type Model = u16;

    open spec fn model(&self) -> u16 {
        *self
    }

    open spec fn spec_read(bytes: Seq<u8>) -> Result<(u16, nat), Error> {
        match be_read(bytes, 2) {
            Ok((v, n)) => Ok((v as u16, n)),
            Err(e) => Err(e),
        }
    }

    fn read_from(reader: &mut Reader) -> (r: Result<u16, Error>) {
        proof {
            if old(reader)@.len() >= 2 {
                lemma_be_value_bound(old(reader)@.take(2));
                lemma_pow256_values();
            }
        }
        match read_be(reader, 2) {
            Ok(v) => Ok(v as u16),
            Err(e) => Err(e),
        }
    }
}

impl Writeable for u16 {
    open spec fn spec_write(&self) -> Result<Seq<u8>, Error> {
        Ok(be_bytes(*self as nat, 2))
    }

    fn write_to(&self, writer: &mut Vec<u8>) -> (r: Result<u64, Error>) {
        write_be(writer, *self as u128, 2);
        proof {
            lemma_be_bytes_len(*self as nat, 2);
        }
        Ok(2)
    }
}

impl RoundTrip for u16 {
    open spec fn spec_encodable(&self) -> bool {
        true
    }

    proof fn lemma_round_trip(value: u16, rest: Seq<u8>) {
        lemma_pow256_values();
        lemma_be_read_bytes(value as nat, 2, rest);
        lemma_be_bytes_len(value as nat, 2);
    }
}

impl NonByte for u16 {

}

impl Deterministic for u16 {

}

impl Readable for u32 {
    type Model = u32;

    open spec fn model(&self) -> u32 {
        *self
    }

    open spec fn spec_read(bytes: Seq<u8>) -> Result<(u32, nat), Error> {
        match be_read(bytes, 4) {
            Ok((v, n)) => Ok((v as u32, n)),
            Err(e) => Err(e),
        }
    }

    fn read_from(reader: &mut Reader) -> (r: Result<u32, Error>) {
        proof {
            if old(reader)@.len() >= 4 {
                lemma_be_value_bound(old(reader)@.take(4));
                lemma_pow256_values();
            }
        }
        match read_be(reader, 4) {
            Ok(v) => Ok(v as u32),
            Err(e) => Err(e),
        }
    }
}

impl Writeable for u32 {
    open spec fn spec_write(&self) -> Result<Seq<u8>, Error> {
        Ok(be_bytes(*self as nat, 4))
    }

    fn write_to(&self, writer: &mut Vec<u8>) -> (r: Result<u64, Error>) {
        write_be(writer, *self as u128, 4);
        proof {
            lemma_be_bytes_len(*self as nat, 4);
        }
        Ok(4)
    }
}

impl RoundTrip for u32 {
    open spec fn spec_encodable(&self) -> bool {
        true
    }

    proof fn lemma_round_trip(value: u32, rest: Seq<u8>) {
        lemma_pow256_values();
        lemma_be_read_bytes(value as nat, 4, rest);
        lemma_be_bytes_len(value as nat, 4);
    }
}

impl NonByte for u32 {

}

impl Deterministic for u32 {

}

impl Readable for u64 {
    type Model = u64;

    open spec fn model(&self) -> u64 {
        *self
    }

    open spec fn spec_read(bytes: Seq<u8>) -> Result<(u64, nat), Error> {
        match be_read(bytes, 8) {
            Ok((v, n)) => Ok((v as u64, n)),
            Err(e) => Err(e),
        }
    }

    fn read_from(reader: &mut Reader) -> (r: Result<u64, Error>) {
        proof {
            if old(reader)@.len() >= 8 {
                lemma_be_value_bound(old(reader)@.take(8));
                lemma_pow256_values();
            }
        }
        match read_be(reader, 8) {
            Ok(v) => Ok(v as u64),
            Err(e) => Err(e),
        }
    }
}

impl Writeable for u64 {
    open spec fn spec_write(&self) -> Result<Seq<u8>, Error> {
        Ok(be_bytes(*self as nat, 8))
    }

    fn write_to(&self, writer: &mut Vec<u8>) -> (r: Result<u64, Error>) {
        write_be(writer, *self as u128, 8);
        proof {
            lemma_be_bytes_len(*self as nat, 8);
        }
        Ok(8)
    }
}

impl RoundTrip for u64 {
    open spec fn spec_encodable(&self) -> bool {
        true
    }

    proof fn lemma_round_trip(value: u64, rest: Seq<u8>) {
        lemma_pow256_values();
        lemma_be_read_bytes(value as nat, 8, rest);
        lemma_be_bytes_len(value as nat, 8);
    }
}

impl NonByte for u64 {

}

impl Deterministic for u64 {

}

impl Readable for u128 {
    type Model = u128;

    open spec fn model(&self) -> u128 {
        *self
    }

    open spec fn spec_read(bytes: Seq<u8>) -> Result<(u128, nat), Error> {
        match be_read(bytes, 16) {
            Ok((v, n)) => Ok((v as u128, n)),
            Err(e) => Err(e),
        }
    }

    fn read_from(reader: &mut Reader) -> (r: Result<u128, Error>) {
        proof {
            if old(reader)@.len() >= 16 {
                lemma_be_value_bound(old(reader)@.take(16));
                lemma_pow256_values();
            }
        }
        match read_be(reader, 16) {
            Ok(v) => Ok(v as u128),
            Err(e) => Err(e),
        }
    }
}

impl Writeable for u128 {
    open spec fn spec_write(&self) -> Result<Seq<u8>, Error> {
        Ok(be_bytes(*self as nat, 16))
    }

    fn write_to(&self, writer: &mut Vec<u8>) -> (r: Result<u64, Error>) {
        write_be(writer, *self as u128, 16);
        proof {
            lemma_be_bytes_len(*self as nat, 16);
        }
        Ok(16)
    }
}

impl RoundTrip for u128 {
    open spec fn spec_encodable(&self) -> bool {
        true
    }

    proof fn lemma_round_trip(value: u128, rest: Seq<u8>) {
        lemma_pow256_values();
        lemma_be_read_bytes(value as nat, 16, rest);
        lemma_be_bytes_len(value as nat, 16);
    }
}

impl NonByte for u128 {

}

impl Deterministic for u128 {

}

impl Readable for i8 {
    type Model = i8;

    open spec fn model(&self) -> i8 {
        *self
    }

    open spec fn spec_read(bytes: Seq<u8>) -> Result<(i8, nat), Error> {
        match be_read(bytes, 1) {
            Ok((v, n)) => Ok((from_twos(v, pow256(1)) as i8, n)),
            Err(e) => Err(e),
        }
    }

    fn read_from(reader: &mut Reader) -> (r: Result<i8, Error>) {
        proof {
            if old(reader)@.len() >= 1 {
                lemma_be_value_bound(old(reader)@.take(1));
                lemma_pow256_values();
            }
        }
        match read_be(reader, 1) {
            Ok(v) => {
                let bits = v as u8;
                if bits >= 0x80 {
                    Ok(((bits - 0x80) as i8) + i8::MIN)
                } else {
                    Ok(bits as i8)
                }
            },
            Err(e) => Err(e),
        }
    }
}

impl Writeable for i8 {
    open spec fn spec_write(&self) -> Result<Seq<u8>, Error> {
        Ok(be_bytes(twos(*self as int, pow256(1)), 1))
    }

    fn write_to(&self, writer: &mut Vec<u8>) -> (r: Result<u64, Error>) {
        let bits: u128 = if *self < 0 {
            ((*self - i8::MIN) as u8 + 0x80) as u128
        } else {
            *self as u128
        };
        write_be(writer, bits, 1);
        proof {
            lemma_pow256_values();
            lemma_be_bytes_len(bits as nat, 1);
        }
        Ok(1)
    }
}

impl RoundTrip for i8 {
    open spec fn spec_encodable(&self) -> bool {
        true
    }

    proof fn lemma_round_trip(value: i8, rest: Seq<u8>) {
        lemma_pow256_values();
        lemma_twos_round_trip(value as int, pow256(1));
        lemma_be_read_bytes(twos(value as int, pow256(1)), 1, rest);
        lemma_be_bytes_len(twos(value as int, pow256(1)), 1);
    }
}

impl Byte for i8 {

}

impl Deterministic for i8 {

}

impl Readable for i16 {
    type Model = i16;

    open spec fn model(&self) -> i16 {
        *self
    }

    open spec fn spec_read(bytes: Seq<u8>) -> Result<(i16, nat), Error> {
        match be_read(bytes, 2) {
            Ok((v, n)) => Ok((from_twos(v, pow256(2)) as i16, n)),
            Err(e) => Err(e),
        }
    }

    fn read_from(reader: &mut Reader) -> (r: Result<i16, Error>) {
        proof {
            if old(reader)@.len() >= 2 {
                lemma_be_value_bound(old(reader)@.take(2));
                lemma_pow256_values();
            }
        }
        match read_be(reader, 2) {
            Ok(v) => {
                let bits = v as u16;
                if bits >= 0x8000 {
                    Ok(((bits - 0x8000) as i16) + i16::MIN)
                } else {
                    Ok(bits as i16)
                }
            },
            Err(e) => Err(e),
        }
    }
}

impl Writeable for i16 {
    open spec fn spec_write(&self) -> Result<Seq<u8>, Error> {
        Ok(be_bytes(twos(*self as int, pow256(2)), 2))
    }

    fn write_to(&self, writer: &mut Vec<u8>) -> (r: Result<u64, Error>) {
        let bits: u128 = if *self < 0 {
            ((*self - i16::MIN) as u16 + 0x8000) as u128
        } else {
            *self as u128
        };
        write_be(writer, bits, 2);
        proof {
            lemma_pow256_values();
            lemma_be_bytes_len(bits as nat, 2);
        }
        Ok(2)
    }
}

impl RoundTrip for i16 {
    open spec fn spec_encodable(&self) -> bool {
        true
    }

    proof fn lemma_round_trip(value: i16, rest: Seq<u8>) {
        lemma_pow256_values();
        lemma_twos_round_trip(value as int, pow256(2));
        lemma_be_read_bytes(twos(value as int, pow256(2)), 2, rest);
        lemma_be_bytes_len(twos(value as int, pow256(2)), 2);
    }
}

impl NonByte for i16 {

}

impl Deterministic for i16 {

}

impl Readable for i32 {
    type Model = i32;

    open spec fn model(&self) -> i32 {
        *self
    }

    open spec fn spec_read(bytes: Seq<u8>) -> Result<(i32, nat), Error> {
        match be_read(bytes, 4) {
            Ok((v, n)) => Ok((from_twos(v, pow256(4)) as i32, n)),
            Err(e) => Err(e),
        }
    }

    fn read_from(reader: &mut Reader) -> (r: Result<i32, Error>) {
        proof {
            if old(reader)@.len() >= 4 {
                lemma_be_value_bound(old(reader)@.take(4));
                lemma_pow256_values();
            }
        }
        match read_be(reader, 4) {
            Ok(v) => {
                let bits = v as u32;
                if bits >= 0x8000_0000 {
                    Ok(((bits - 0x8000_0000) as i32) + i32::MIN)
                } else {
                    Ok(bits as i32)
                }
            },
            Err(e) => Err(e),
        }
    }
}

impl Writeable for i32 {
    open spec fn spec_write(&self) -> Result<Seq<u8>, Error> {
        Ok(be_bytes(twos(*self as int, pow256(4)), 4))
    }

    fn write_to(&self, writer: &mut Vec<u8>) -> (r: Result<u64, Error>) {
        let bits: u128 = if *self < 0 {
            ((*self - i32::MIN) as u32 + 0x8000_0000) as u128
        } else {
            *self as u128
        };
        write_be(writer, bits, 4);
        proof {
            lemma_pow256_values();
            lemma_be_bytes_len(bits as nat, 4);
        }
        Ok(4)
    }
}

impl RoundTrip for i32 {
    open spec fn spec_encodable(&self) -> bool {
        true
    }

    proof fn lemma_round_trip(value: i32, rest: Seq<u8>) {
        lemma_pow256_values();
        lemma_twos_round_trip(value as int, pow256(4));
        lemma_be_read_bytes(twos(value as int, pow256(4)), 4, rest);
        lemma_be_bytes_len(twos(value as int, pow256(4)), 4);
    }
}

impl NonByte for i32 {

}

impl Deterministic for i32 {

}

impl Readable for i64 {
    type Model = i64;

    open spec fn model(&self) -> i64 {
        *self
    }

    open spec fn spec_read(bytes: Seq<u8>) -> Result<(i64, nat), Error> {
        match be_read(bytes, 8) {
            Ok((v, n)) => Ok((from_twos(v, pow256(8)) as i64, n)),
            Err(e) => Err(e),
        }
    }

    fn read_from(reader: &mut Reader) -> (r: Result<i64, Error>) {
        proof {
            if old(reader)@.len() >= 8 {
                lemma_be_value_bound(old(reader)@.take(8));
                lemma_pow256_values();
            }
        }
        match read_be(reader, 8) {
            Ok(v) => {
                let bits = v as u64;
                if bits >= 0x8000_0000_0000_0000 {
                    Ok(((bits - 0x8000_0000_0000_0000) as i64) + i64::MIN)
                } else {
                    Ok(bits as i64)
                }
            },
            Err(e) => Err(e),
        }
    }
}

impl Writeable for i64 {
    open spec fn spec_write(&self) -> Result<Seq<u8>, Error> {
        Ok(be_bytes(twos(*self as int, pow256(8)), 8))
    }

    fn write_to(&self, writer: &mut Vec<u8>) -> (r: Result<u64, Error>) {
        let bits: u128 = if *self < 0 {
            ((*self - i64::MIN) as u64 + 0x8000_0000_0000_0000) as u128
        } else {
            *self as u128
        };
        write_be(writer, bits, 8);
        proof {
            lemma_pow256_values();
            lemma_be_bytes_len(bits as nat, 8);
        }
        Ok(8)
    }
}

impl RoundTrip for i64 {
    open spec fn spec_encodable(&self) -> bool {
        true
    }

    proof fn lemma_round_trip(value: i64, rest: Seq<u8>) {
        lemma_pow256_values();
        lemma_twos_round_trip(value as int, pow256(8));
        lemma_be_read_bytes(twos(value as int, pow256(8)), 8, rest);
        lemma_be_bytes_len(twos(value as int, pow256(8)), 8);
    }
}

impl NonByte for i64 {

}

impl Deterministic for i64 {

}

impl Readable for i128 {
    type Model = i128;

    open spec fn model(&self) -> i128 {
        *self
    }

    open spec fn spec_read(bytes: Seq<u8>) -> Result<(i128, nat), Error> {
        match be_read(bytes, 16) {
            Ok((v, n)) => Ok((from_twos(v, pow256(16)) as i128, n)),
            Err(e) => Err(e),
        }
    }

    fn read_from(reader: &mut Reader) -> (r: Result<i128, Error>) {
        proof {
            if old(reader)@.len() >= 16 {
                lemma_be_value_bound(old(reader)@.take(16));
                lemma_pow256_values();
            }
        }
        match read_be(reader, 16) {
            Ok(v) => {
                let bits = v as u128;
                if bits >= 0x8000_0000_0000_0000_0000_0000_0000_0000 {
                    Ok(((bits - 0x8000_0000_0000_0000_0000_0000_0000_0000) as i128) + i128::MIN)
                } else {
                    Ok(bits as i128)
                }
            },
            Err(e) => Err(e),
        }
    }
}

impl Writeable for i128 {
    open spec fn spec_write(&self) -> Result<Seq<u8>, Error> {
        Ok(be_bytes(twos(*self as int, pow256(16)), 16))
    }

    fn write_to(&self, writer: &mut Vec<u8>) -> (r: Result<u64, Error>) {
        let bits: u128 = if *self < 0 {
            ((*self - i128::MIN) as u128 + 0x8000_0000_0000_0000_0000_0000_0000_0000) as u128
        } else {
            *self as u128
        };
        write_be(writer, bits, 16);
        proof {
            lemma_pow256_values();
            lemma_be_bytes_len(bits as nat, 16);
        }
        Ok(16)
    }
}

impl RoundTrip for i128 {
    open spec fn spec_encodable(&self) -> bool {
        true
    }

    proof fn lemma_round_trip(value: i128, rest: Seq<u8>) {
        lemma_pow256_values();
        lemma_twos_round_trip(value as int, pow256(16));
        lemma_be_read_bytes(twos(value as int, pow256(16)), 16, rest);
        lemma_be_bytes_len(twos(value as int, pow256(16)), 16);
    }
}

impl NonByte for i128 {

}

impl Deterministic for i128 {

}

impl<T0> NonByte for (T0,) {

}

impl<T0: Deterministic> Deterministic for (T0,) {

}

impl<T0: Readable> Readable for (T0,) {
    type Model = (T0::Model,);

    open spec fn model(&self) -> (T0::Model,) {
        (self.0.model(),)
    }

    open spec fn spec_read(bytes: Seq<u8>) -> Result<((T0::Model,), nat), Error> {
        match T0::spec_read(bytes) { Err(e) => Err(e), Ok((v0, n0)) => Ok(((v0,), n0)) }
    }

    fn read_from(reader: &mut Reader) -> (r: Result<(T0,), Error>) {
        let ghost start = reader@;
        let ghost mut taken: nat = 0;
        let ghost before0 = reader@;
        let x0 = match T0::read_from(reader) {
            Ok(v) => v,
            Err(e) => return Err(e),
        };
        proof {
            let n = T0::spec_read(before0)->Ok_0.1;
            assert(start.skip(taken as int).skip(n as int) =~= start.skip((taken + n) as int));
            taken = taken + n;
        }
        Ok((x0,))
    }
}

impl<T0: Writeable> Writeable for (T0,) {
    open spec fn spec_write(&self) -> Result<Seq<u8>, Error> {
        match self.0.spec_write() { Err(e) => Err(e), Ok(b0) => Ok(b0) }
    }

    fn write_to(&self, writer: &mut Vec<u8>) -> (r: Result<u64, Error>) {
        let ghost mut written: Seq<u8> = Seq::empty();
        let mut length: u64 = 0;
        let ghost before0 = writer@;
        let n0 = match self.0.write_to(writer) {
            Ok(n) => n,
            Err(e) => {
                proof {
                    assert(old(writer)@ =~= before0.subrange(0, old(writer)@.len() as int));
                    assert(before0 =~= writer@.subrange(0, before0.len() as int));
                    assert(old(writer)@ =~= writer@.subrange(0, old(writer)@.len() as int));
                }
                return Err(e);
            },
        };
        let total0 = writer.len();
        proof {
            let b = self.0.spec_write()->Ok_0;
            assert(old(writer)@ + written + b =~= old(writer)@ + (written + b));
            written = written + b;
        }
        length = length + n0;
        Ok(length)
    }
}

impl<T0: RoundTrip> RoundTrip for (T0,) {
    open spec fn spec_encodable(&self) -> bool {
        self.0.spec_encodable()
    }

    proof fn lemma_round_trip(value: (T0,), rest: Seq<u8>) {
        let b0 = value.0.spec_write()->Ok_0;
        T0::lemma_round_trip(value.0, rest);
        assert(b0 + rest =~= b0 + (rest));
    }
}

impl<T0, T1> NonByte for (T0, T1) {

}

impl<T0: Deterministic, T1: Deterministic> Deterministic for (T0, T1) {

}

impl<T0: Readable, T1: Readable> Readable for (T0, T1) {
    type Model = (T0::Model, T1::Model);

    open spec fn model(&self) -> (T0::Model, T1::Model) {
        (self.0.model(), self.1.model())
    }

    open spec fn spec_read(bytes: Seq<u8>) -> Result<((T0::Model, T1::Model), nat), Error> {
        match T0::spec_read(bytes) { Err(e) => Err(e), Ok((v0, n0)) => match T1::spec_read(bytes.skip((n0) as int)) { Err(e) => Err(e), Ok((v1, n1)) => Ok(((v0, v1), n0 + n1)) } }
    }

    fn read_from(reader: &mut Reader) -> (r: Result<(T0, T1), Error>) {
        let ghost start = reader@;
        let ghost mut taken: nat = 0;
        let ghost before0 = reader@;
        let x0 = match T0::read_from(reader) {
            Ok(v) => v,
            Err(e) => return Err(e),
        };
        proof {
            let n = T0::spec_read(before0)->Ok_0.1;
            assert(start.skip(taken as int).skip(n as int) =~= start.skip((taken + n) as int));
            taken = taken + n;
        }
        let ghost before1 = reader@;
        let x1 = match T1::read_from(reader) {
            Ok(v) => v,
            Err(e) => return Err(e),
        };
        proof {
            let n = T1::spec_read(before1)->Ok_0.1;
            assert(start.skip(taken as int).skip(n as int) =~= start.skip((taken + n) as int));
            taken = taken + n;
        }
        Ok((x0, x1))
    }
}

impl<T0: Writeable, T1: Writeable> Writeable for (T0, T1) {
    open spec fn spec_write(&self) -> Result<Seq<u8>, Error> {
        match self.0.spec_write() { Err(e) => Err(e), Ok(b0) => match self.1.spec_write() { Err(e) => Err(e), Ok(b1) => Ok(b0 + b1) } }
    }

    fn write_to(&self, writer: &mut Vec<u8>) -> (r: Result<u64, Error>) {
        let ghost mut written: Seq<u8> = Seq::empty();
        let mut length: u64 = 0;
        let ghost before0 = writer@;
        let n0 = match self.0.write_to(writer) {
            Ok(n) => n,
            Err(e) => {
                proof {
                    assert(old(writer)@ =~= before0.subrange(0, old(writer)@.len() as int));
                    assert(before0 =~= writer@.subrange(0, before0.len() as int));
                    assert(old(writer)@ =~= writer@.subrange(0, old(writer)@.len() as int));
                }
                return Err(e);
            },
        };
        let total0 = writer.len();
        proof {
            let b = self.0.spec_write()->Ok_0;
            assert(old(writer)@ + written + b =~= old(writer)@ + (written + b));
            written = written + b;
        }
        length = length + n0;
        let ghost before1 = writer@;
        let n1 = match self.1.write_to(writer) {
            Ok(n) => n,
            Err(e) => {
                proof {
                    assert(old(writer)@ =~= before1.subrange(0, old(writer)@.len() as int));
                    assert(before1 =~= writer@.subrange(0, before1.len() as int));
                    assert(old(writer)@ =~= writer@.subrange(0, old(writer)@.len() as int));
                }
                return Err(e);
            },
        };
        let total1 = writer.len();
        proof {
            let b = self.1.spec_write()->Ok_0;
            assert(old(writer)@ + written + b =~= old(writer)@ + (written + b));
            written = written + b;
        }
        length = length + n1;
        Ok(length)
    }
}

impl<T0: RoundTrip, T1: RoundTrip> RoundTrip for (T0, T1) {
    open spec fn spec_encodable(&self) -> bool {
        self.0.spec_encodable() && self.1.spec_encodable()
    }

    proof fn lemma_round_trip(value: (T0, T1), rest: Seq<u8>) {
        let b0 = value.0.spec_write()->Ok_0;
        let b1 = value.1.spec_write()->Ok_0;
        T0::lemma_round_trip(value.0, b1 + rest);
        T1::lemma_round_trip(value.1, rest);
        assert(b0 + b1 + rest =~= b0 + (b1 + rest));
        assert((b0 + b1 + rest).skip((b0.len()) as int) =~= b1 + (rest));
        assert(T1::spec_read((b0 + b1 + rest).skip((b0.len()) as int)) == Ok::<(T1::Model, nat), Error>((value.1.model(), b1.len())));
    }
}

impl<T0, T1, T2> NonByte for (T0, T1, T2) {

}

impl<T0: Deterministic, T1: Deterministic, T2: Deterministic> Deterministic for (T0, T1, T2) {

}

impl<T0: Readable, T1: Readable, T2: Readable> Readable for (T0, T1, T2) {
    type Model = (T0::Model, T1::Model, T2::Model);

    open spec fn model(&self) -> (T0::Model, T1::Model, T2::Model) {
        (self.0.model(), self.1.model(), self.2.model())
    }

    open spec fn spec_read(bytes: Seq<u8>) -> Result<((T0::Model, T1::Model, T2::Model), nat), Error> {
        match T0::spec_read(bytes) { Err(e) => Err(e), Ok((v0, n0)) => match T1::spec_read(bytes.skip((n0) as int)) { Err(e) => Err(e), Ok((v1, n1)) => match T2::spec_read(bytes.skip((n0 + n1) as int)) { Err(e) => Err(e), Ok((v2, n2)) => Ok(((v0, v1, v2), n0 + n1 + n2)) } } }
    }

    fn read_from(reader: &mut Reader) -> (r: Result<(T0, T1, T2), Error>) {
        let ghost start = reader@;
        let ghost mut taken: nat = 0;
        let ghost before0 = reader@;
        let x0 = match T0::read_from(reader) {
            Ok(v) => v,
            Err(e) => return Err(e),
        };
        proof {
            let n = T0::spec_read(before0)->Ok_0.1;
            assert(start.skip(taken as int).skip(n as int) =~= start.skip((taken + n) as int));
            taken = taken + n;
        }
        let ghost before1 = reader@;
        let x1 = match T1::read_from(reader) {
            Ok(v) => v,
            Err(e) => return Err(e),
        };
        proof {
            let n = T1::spec_read(before1)->Ok_0.1;
            assert(start.skip(taken as int).skip(n as int) =~= start.skip((taken + n) as int));
            taken = taken + n;
        }
        let ghost before2 = reader@;
        let x2 = match T2::read_from(reader) {
            Ok(v) => v,
            Err(e) => return Err(e),
        };
        proof {
            let n = T2::spec_read(before2)->Ok_0.1;
            assert(start.skip(taken as int).skip(n as int) =~= start.skip((taken + n) as int));
            taken = taken + n;
        }
        Ok((x0, x1, x2))
    }
}

impl<T0: Writeable, T1: Writeable, T2: Writeable> Writeable for (T0, T1, T2) {
    open spec fn spec_write(&self) -> Result<Seq<u8>, Error> {
        match self.0.spec_write() { Err(e) => Err(e), Ok(b0) => match self.1.spec_write() { Err(e) => Err(e), Ok(b1) => match self.2.spec_write() { Err(e) => Err(e), Ok(b2) => Ok(b0 + b1 + b2) } } }
    }

    fn write_to(&self, writer: &mut Vec<u8>) -> (r: Result<u64, Error>) {
        let ghost mut written: Seq<u8> = Seq::empty();
        let mut length: u64 = 0;
        let ghost before0 = writer@;
        let n0 = match self.0.write_to(writer) {
            Ok(n) => n,
            Err(e) => {
                proof {
                    assert(old(writer)@ =~= before0.subrange(0, old(writer)@.len() as int));
                    assert(before0 =~= writer@.subrange(0, before0.len() as int));
                    assert(old(writer)@ =~= writer@.subrange(0, old(writer)@.len() as int));
                }
                return Err(e);
            },
        };
        let total0 = writer.len();
        proof {
            let b = self.0.spec_write()->Ok_0;
            assert(old(writer)@ + written + b =~= old(writer)@ + (written + b));
            written = written + b;
        }
        length = length + n0;
        let ghost before1 = writer@;
        let n1 = match self.1.write_to(writer) {
            Ok(n) => n,
            Err(e) => {
                proof {
                    assert(old(writer)@ =~= before1.subrange(0, old(writer)@.len() as int));
                    assert(before1 =~= writer@.subrange(0, before1.len() as int));
                    assert(old(writer)@ =~= writer@.subrange(0, old(writer)@.len() as int));
                }
                return Err(e);
            },
        };
        let total1 = writer.len();
        proof {
            let b = self.1.spec_write()->Ok_0;
            assert(old(writer)@ + written + b =~= old(writer)@ + (written + b));
            written = written + b;
        }
        length = length + n1;
        let ghost before2 = writer@;
        let n2 = match self.2.write_to(writer) {
            Ok(n) => n,
            Err(e) => {
                proof {
                    assert(old(writer)@ =~= before2.subrange(0, old(writer)@.len() as int));
                    assert(before2 =~= writer@.subrange(0, before2.len() as int));
                    assert(old(writer)@ =~= writer@.subrange(0, old(writer)@.len() as int));
                }
                return Err(e);
            },
        };
        let total2 = writer.len();
        proof {
            let b = self.2.spec_write()->Ok_0;
            assert(old(writer)@ + written + b =~= old(writer)@ + (written + b));
            written = written + b;
        }
        length = length + n2;
        Ok(length)
    }
}

impl<T0: RoundTrip, T1: RoundTrip, T2: RoundTrip> RoundTrip for (T0, T1, T2) {
    open spec fn spec_encodable(&self) -> bool {
        self.0.spec_encodable() && self.1.spec_encodable() && self.2.spec_encodable()
    }

    proof fn lemma_round_trip(value: (T0, T1, T2), rest: Seq<u8>) {
        let b0 = value.0.spec_write()->Ok_0;
        let b1 = value.1.spec_write()->Ok_0;
        let b2 = value.2.spec_write()->Ok_0;
        T0::lemma_round_trip(value.0, b1 + b2 + rest);
        T1::lemma_round_trip(value.1, b2 + rest);
        T2::lemma_round_trip(value.2, rest);
        assert(b0 + b1 + b2 + rest =~= b0 + (b1 + b2 + rest));
        assert((b0 + b1 + b2 + rest).skip((b0.len()) as int) =~= b1 + (b2 + rest));
        assert(T1::spec_read((b0 + b1 + b2 + rest).skip((b0.len()) as int)) == Ok::<(T1::Model, nat), Error>((value.1.model(), b1.len())));
        assert((b0 + b1 + b2 + rest).skip((b0.len() + b1.len()) as int) =~= b2 + (rest));
        assert(T2::spec_read((b0 + b1 + b2 + rest).skip((b0.len() + b1.len()) as int)) == Ok::<(T2::Model, nat), Error>((value.2.model(), b2.len())));
    }
}

impl<T0, T1, T2, T3> NonByte for (T0, T1, T2, T3) {

}

impl<T0: Deterministic, T1: Deterministic, T2: Deterministic, T3: Deterministic> Deterministic for (T0, T1, T2, T3) {

}

impl<T0: Readable, T1: Readable, T2: Readable, T3: Readable> Readable for (T0, T1, T2, T3) {
    type Model = (T0::Model, T1::Model, T2::Model, T3::Model);

    open spec fn model(&self) -> (T0::Model, T1::Model, T2::Model, T3::Model) {
        (self.0.model(), self.1.model(), self.2.model(), self.3.model())
    }

    open spec fn spec_read(bytes: Seq<u8>) -> Result<((T0::Model, T1::Model, T2::Model, T3::Model), nat), Error> {
        match T0::spec_read(bytes) { Err(e) => Err(e), Ok((v0, n0)) => match T1::spec_read(bytes.skip((n0) as int)) { Err(e) => Err(e), Ok((v1, n1)) => match T2::spec_read(bytes.skip((n0 + n1) as int)) { Err(e) => Err(e), Ok((v2, n2)) => match T3::spec_read(bytes.skip((n0 + n1 + n2) as int)) { Err(e) => Err(e), Ok((v3, n3)) => Ok(((v0, v1, v2, v3), n0 + n1 + n2 + n3)) } } } }
    }

    fn read_from(reader: &mut Reader) -> (r: Result<(T0, T1, T2, T3), Error>) {
        let ghost start = reader@;
        let ghost mut taken: nat = 0;
        let ghost before0 = reader@;
        let x0 = match T0::read_from(reader) {
            Ok(v) => v,
            Err(e) => return Err(e),
        };
        proof {
            let n = T0::spec_read(before0)->Ok_0.1;
            assert(start.skip(taken as int).skip(n as int) =~= start.skip((taken + n) as int));
            taken = taken + n;
        }
        let ghost before1 = reader@;
        let x1 = match T1::read_from(reader) {
            Ok(v) => v,
            Err(e) => return Err(e),
        };
        proof {
            let n = T1::spec_read(before1)->Ok_0.1;
            assert(start.skip(taken as int).skip(n as int) =~= start.skip((taken + n) as int));
            taken = taken + n;
        }
        let ghost before2 = reader@;
        let x2 = match T2::read_from(reader) {
            Ok(v) => v,
            Err(e) => return Err(e),
        };
        proof {
            let n = T2::spec_read(before2)->Ok_0.1;
            assert(start.skip(taken as int).skip(n as int) =~= start.skip((taken + n) as int));
            taken = taken + n;
        }
        let ghost before3 = reader@;
        let x3 = match T3::read_from(reader) {
            Ok(v) => v,
            Err(e) => return Err(e),
        };
        proof {
            let n = T3::spec_read(before3)->Ok_0.1;
            assert(start.skip(taken as int).skip(n as int) =~= start.skip((taken + n) as int));
            taken = taken + n;
        }
        Ok((x0, x1, x2, x3))
    }
}

impl<T0: Writeable, T1: Writeable, T2: Writeable, T3: Writeable> Writeable for (T0, T1, T2, T3) {
    open spec fn spec_write(&self) -> Result<Seq<u8>, Error> {
        match self.0.spec_write() { Err(e) => Err(e), Ok(b0) => match self.1.spec_write() { Err(e) => Err(e), Ok(b1) => match self.2.spec_write() { Err(e) => Err(e), Ok(b2) => match self.3.spec_write() { Err(e) => Err(e), Ok(b3) => Ok(b0 + b1 + b2 + b3) } } } }
    }

    fn write_to(&self, writer: &mut Vec<u8>) -> (r: Result<u64, Error>) {
        let ghost mut written: Seq<u8> = Seq::empty();
        let mut length: u64 = 0;
        let ghost before0 = writer@;
        let n0 = match self.0.write_to(writer) {
            Ok(n) => n,
            Err(e) => {
                proof {
                    assert(old(writer)@ =~= before0.subrange(0, old(writer)@.len() as int));
                    assert(before0 =~= writer@.subrange(0, before0.len() as int));
                    assert(old(writer)@ =~= writer@.subrange(0, old(writer)@.len() as int));
                }
                return Err(e);
            },
        };
        let total0 = writer.len();
        proof {
            let b = self.0.spec_write()->Ok_0;
            assert(old(writer)@ + written + b =~= old(writer)@ + (written + b));
            written = written + b;
        }
        length = length + n0;
        let ghost before1 = writer@;
        let n1 = match self.1.write_to(writer) {
            Ok(n) => n,
            Err(e) => {
                proof {
                    assert(old(writer)@ =~= before1.subrange(0, old(writer)@.len() as int));
                    assert(before1 =~= writer@.subrange(0, before1.len() as int));
                    assert(old(writer)@ =~= writer@.subrange(0, old(writer)@.len() as int));
                }
                return Err(e);
            },
        };
        let total1 = writer.len();
        proof {
            let b = self.1.spec_write()->Ok_0;
            assert(old(writer)@ + written + b =~= old(writer)@ + (written + b));
            written = written + b;
        }
        length = length + n1;
        let ghost before2 = writer@;
        let n2 = match self.2.write_to(writer) {
            Ok(n) => n,
            Err(e) => {
                proof {
                    assert(old(writer)@ =~= before2.subrange(0, old(writer)@.len() as int));
                    assert(before2 =~= writer@.subrange(0, before2.len() as int));
                    assert(old(writer)@ =~= writer@.subrange(0, old(writer)@.len() as int));
                }
                return Err(e);
            },
        };
        let total2 = writer.len();
        proof {
            let b = self.2.spec_write()->Ok_0;
            assert(old(writer)@ + written + b =~= old(writer)@ + (written + b));
            written = written + b;
        }
        length = length + n2;
        let ghost before3 = writer@;
        let n3 = match self.3.write_to(writer) {
            Ok(n) => n,
            Err(e) => {
                proof {
                    assert(old(writer)@ =~= before3.subrange(0, old(writer)@.len() as int));
                    assert(before3 =~= writer@.subrange(0, before3.len() as int));
                    assert(old(writer)@ =~= writer@.subrange(0, old(writer)@.len() as int));
                }
                return Err(e);
            },
        };
        let total3 = writer.len();
        proof {
            let b = self.3.spec_write()->Ok_0;
            assert(old(writer)@ + written + b =~= old(writer)@ + (written + b));
            written = written + b;
        }
        length = length + n3;
        Ok(length)
    }
}

impl<T0: RoundTrip, T1: RoundTrip, T2: RoundTrip, T3: RoundTrip> RoundTrip for (T0, T1, T2, T3) {
    open spec fn spec_encodable(&self) -> bool {
        self.0.spec_encodable() && self.1.spec_encodable() && self.2.spec_encodable() && self.3.spec_encodable()
    }

    proof fn lemma_round_trip(value: (T0, T1, T2, T3), rest: Seq<u8>) {
        let b0 = value.0.spec_write()->Ok_0;
        let b1 = value.1.spec_write()->Ok_0;
        let b2 = value.2.spec_write()->Ok_0;
        let b3 = value.3.spec_write()->Ok_0;
        T0::lemma_round_trip(value.0, b1 + b2 + b3 + rest);
        T1::lemma_round_trip(value.1, b2 + b3 + rest);
        T2::lemma_round_trip(value.2, b3 + rest);
        T3::lemma_round_trip(value.3, rest);
        assert(b0 + b1 + b2 + b3 + rest =~= b0 + (b1 + b2 + b3 + rest));
        assert((b0 + b1 + b2 + b3 + rest).skip((b0.len()) as int) =~= b1 + (b2 + b3 + rest));
        assert(T1::spec_read((b0 + b1 + b2 + b3 + rest).skip((b0.len()) as int)) == Ok::<(T1::Model, nat), Error>((value.1.model(), b1.len())));
        assert((b0 + b1 + b2 + b3 + rest).skip((b0.len() + b1.len()) as int) =~= b2 + (b3 + rest));
        assert(T2::spec_read((b0 + b1 + b2 + b3 + rest).skip((b0.len() + b1.len()) as int)) == Ok::<(T2::Model, nat), Error>((value.2.model(), b2.len())));
        assert((b0 + b1 + b2 + b3 + rest).skip((b0.len() + b1.len() + b2.len()) as int) =~= b3 + (rest));
        assert(T3::spec_read((b0 + b1 + b2 + b3 + rest).skip((b0.len() + b1.len() + b2.len()) as int)) == Ok::<(T3::Model, nat), Error>((value.3.model(), b3.len())));
    }
}

impl<T0, T1, T2, T3, T4> NonByte for (T0, T1, T2, T3, T4) {

}

impl<T0: Deterministic, T1: Deterministic, T2: Deterministic, T3: Deterministic, T4: Deterministic> Deterministic for (T0, T1, T2, T3, T4) {

}

impl<T0: Readable, T1: Readable, T2: Readable, T3: Readable, T4: Readable> Readable for (T0, T1, T2, T3, T4) {
    type Model = (T0::Model, T1::Model, T2::Model, T3::Model, T4::Model);

    open spec fn model(&self) -> (T0::Model, T1::Model, T2::Model, T3::Model, T4::Model) {
        (self.0.model(), self.1.model(), self.2.model(), self.3.model(), self.4.model())
    }

    open spec fn spec_read(bytes: Seq<u8>) -> Result<((T0::Model, T1::Model, T2::Model, T3::Model, T4::Model), nat), Error> {
        match T0::spec_read(bytes) { Err(e) => Err(e), Ok((v0, n0)) => match T1::spec_read(bytes.skip((n0) as int)) { Err(e) => Err(e), Ok((v1, n1)) => match T2::spec_read(bytes.skip((n0 + n1) as int)) { Err(e) => Err(e), Ok((v2, n2)) => match T3::spec_read(bytes.skip((n0 + n1 + n2) as int)) { Err(e) => Err(e), Ok((v3, n3)) => match T4::spec_read(bytes.skip((n0 + n1 + n2 + n3) as int)) { Err(e) => Err(e), Ok((v4, n4)) => Ok(((v0, v1, v2, v3, v4), n0 + n1 + n2 + n3 + n4)) } } } } }
    }

    fn read_from(reader: &mut Reader) -> (r: Result<(T0, T1, T2, T3, T4), Error>) {
        let ghost start = reader@;
        let ghost mut taken: nat = 0;
        let ghost before0 = reader@;
        let x0 = match T0::read_from(reader) {
            Ok(v) => v,
            Err(e) => return Err(e),
        };
        proof {
            let n = T0::spec_read(before0)->Ok_0.1;
            assert(start.skip(taken as int).skip(n as int) =~= start.skip((taken + n) as int));
            taken = taken + n;
        }
        let ghost before1 = reader@;
        let x1 = match T1::read_from(reader) {
            Ok(v) => v,
            Err(e) => return Err(e),
        };
        proof {
            let n = T1::spec_read(before1)->Ok_0.1;
            assert(start.skip(taken as int).skip(n as int) =~= start.skip((taken + n) as int));
            taken = taken + n;
        }
        let ghost before2 = reader@;
        let x2 = match T2::read_from(reader) {
            Ok(v) => v,
            Err(e) => return Err(e),
        };
        proof {
            let n = T2::spec_read(before2)->Ok_0.1;
            assert(start.skip(taken as int).skip(n as int) =~= start.skip((taken + n) as int));
            taken = taken + n;
        }
        let ghost before3 = reader@;
        let x3 = match T3::read_from(reader) {
            Ok(v) => v,
            Err(e) => return Err(e),
        };
        proof {
            let n = T3::spec_read(before3)->Ok_0.1;
            assert(start.skip(taken as int).skip(n as int) =~= start.skip((taken + n) as int));
            taken = taken + n;
        }
        let ghost before4 = reader@;
        let x4 = match T4::read_from(reader) {
            Ok(v) => v,
            Err(e) => return Err(e),
        };
        proof {
            let n = T4::spec_read(before4)->Ok_0.1;
            assert(start.skip(taken as int).skip(n as int) =~= start.skip((taken + n) as int));
            taken = taken + n;
        }
        Ok((x0, x1, x2, x3, x4))
    }
}

impl<T0: Writeable, T1: Writeable, T2: Writeable, T3: Writeable, T4: Writeable> Writeable for (T0, T1, T2, T3, T4) {
    open spec fn spec_write(&self) -> Result<Seq<u8>, Error> {
        match self.0.spec_write() { Err(e) => Err(e), Ok(b0) => match self.1.spec_write() { Err(e) => Err(e), Ok(b1) => match self.2.spec_write() { Err(e) => Err(e), Ok(b2) => match self.3.spec_write() { Err(e) => Err(e), Ok(b3) => match self.4.spec_write() { Err(e) => Err(e), Ok(b4) => Ok(b0 + b1 + b2 + b3 + b4) } } } } }
    }

    fn write_to(&self, writer: &mut Vec<u8>) -> (r: Result<u64, Error>) {
        let ghost mut written: Seq<u8> = Seq::empty();
        let mut length: u64 = 0;
        let ghost before0 = writer@;
        let n0 = match self.0.write_to(writer) {
            Ok(n) => n,
            Err(e) => {
                proof {
                    assert(old(writer)@ =~= before0.subrange(0, old(writer)@.len() as int));
                    assert(before0 =~= writer@.subrange(0, before0.len() as int));
                    assert(old(writer)@ =~= writer@.subrange(0, old(writer)@.len() as int));
                }
                return Err(e);
            },
        };
        let total0 = writer.len();
        proof {
            let b = self.0.spec_write()->Ok_0;
            assert(old(writer)@ + written + b =~= old(writer)@ + (written + b));
            written = written + b;
        }
        length = length + n0;
        let ghost before1 = writer@;
        let n1 = match self.1.write_to(writer) {
            Ok(n) => n,
            Err(e) => {
                proof {
                    assert(old(writer)@ =~= before1.subrange(0, old(writer)@.len() as int));
                    assert(before1 =~= writer@.subrange(0, before1.len() as int));
                    assert(old(writer)@ =~= writer@.subrange(0, old(writer)@.len() as int));
                }
                return Err(e);
            },
        };
        let total1 = writer.len();
        proof {
            let b = self.1.spec_write()->Ok_0;
            assert(old(writer)@ + written + b =~= old(writer)@ + (written + b));
            written = written + b;
        }
        length = length + n1;
        let ghost before2 = writer@;
        let n2 = match self.2.write_to(writer) {
            Ok(n) => n,
            Err(e) => {
                proof {
                    assert(old(writer)@ =~= before2.subrange(0, old(writer)@.len() as int));
                    assert(before2 =~= writer@.subrange(0, before2.len() as int));
                    assert(old(writer)@ =~= writer@.subrange(0, old(writer)@.len() as int));
                }
                return Err(e);
            },
        };
        let total2 = writer.len();
        proof {
            let b = self.2.spec_write()->Ok_0;
            assert(old(writer)@ + written + b =~= old(writer)@ + (written + b));
            written = written + b;
        }
        length = length + n2;
        let ghost before3 = writer@;
        let n3 = match self.3.write_to(writer) {
            Ok(n) => n,
            Err(e) => {
                proof {
                    assert(old(writer)@ =~= before3.subrange(0, old(writer)@.len() as int));
                    assert(before3 =~= writer@.subrange(0, before3.len() as int));
                    assert(old(writer)@ =~= writer@.subrange(0, old(writer)@.len() as int));
                }
                return Err(e);
            },
        };
        let total3 = writer.len();
        proof {
            let b = self.3.spec_write()->Ok_0;
            assert(old(writer)@ + written + b =~= old(writer)@ + (written + b));
            written = written + b;
        }
        length = length + n3;
        let ghost before4 = writer@;
        let n4 = match self.4.write_to(writer) {
            Ok(n) => n,
            Err(e) => {
                proof {
                    assert(old(writer)@ =~= before4.subrange(0, old(writer)@.len() as int));
                    assert(before4 =~= writer@.subrange(0, before4.len() as int));
                    assert(old(writer)@ =~= writer@.subrange(0, old(writer)@.len() as int));
                }
                return Err(e);
            },
        };
        let total4 = writer.len();
        proof {
            let b = self.4.spec_write()->Ok_0;
            assert(old(writer)@ + written + b =~= old(writer)@ + (written + b));
            written = written + b;
        }
        length = length + n4;
        Ok(length)
    }
}

impl<T0: RoundTrip, T1: RoundTrip, T2: RoundTrip, T3: RoundTrip, T4: RoundTrip> RoundTrip for (T0, T1, T2, T3, T4) {
    open spec fn spec_encodable(&self) -> bool {
        self.0.spec_encodable() && self.1.spec_encodable() && self.2.spec_encodable() && self.3.spec_encodable() && self.4.spec_encodable()
    }

    proof fn lemma_round_trip(value: (T0, T1, T2, T3, T4), rest: Seq<u8>) {
        let b0 = value.0.spec_write()->Ok_0;
        let b1 = value.1.spec_write()->Ok_0;
        let b2 = value.2.spec_write()->Ok_0;
        let b3 = value.3.spec_write()->Ok_0;
        let b4 = value.4.spec_write()->Ok_0;
        T0::lemma_round_trip(value.0, b1 + b2 + b3 + b4 + rest);
        T1::lemma_round_trip(value.1, b2 + b3 + b4 + rest);
        T2::lemma_round_trip(value.2, b3 + b4 + rest);
        T3::lemma_round_trip(value.3, b4 + rest);
        T4::lemma_round_trip(value.4, rest);
        assert(b0 + b1 + b2 + b3 + b4 + rest =~= b0 + (b1 + b2 + b3 + b4 + rest));
        assert((b0 + b1 + b2 + b3 + b4 + rest).skip((b0.len()) as int) =~= b1 + (b2 + b3 + b4 + rest));
        assert(T1::spec_read((b0 + b1 + b2 + b3 + b4 + rest).skip((b0.len()) as int)) == Ok::<(T1::Model, nat), Error>((value.1.model(), b1.len())));
        assert((b0 + b1 + b2 + b3 + b4 + rest).skip((b0.len() + b1.len()) as int) =~= b2 + (b3 + b4 + rest));
        assert(T2::spec_read((b0 + b1 + b2 + b3 + b4 + rest).skip((b0.len() + b1.len()) as int)) == Ok::<(T2::Model, nat), Error>((value.2.model(), b2.len())));
        assert((b0 + b1 + b2 + b3 + b4 + rest).skip((b0.len() + b1.len() + b2.len()) as int) =~= b3 + (b4 + rest));
        assert(T3::spec_read((b0 + b1 + b2 + b3 + b4 + rest).skip((b0.len() + b1.len() + b2.len()) as int)) == Ok::<(T3::Model, nat), Error>((value.3.model(), b3.len())));
        assert((b0 + b1 + b2 + b3 + b4 + rest).skip((b0.len() + b1.len() + b2.len() + b3.len()) as int) =~= b4 + (rest));
        assert(T4::spec_read((b0 + b1 + b2 + b3 + b4 + rest).skip((b0.len() + b1.len() + b2.len() + b3.len()) as int)) == Ok::<(T4::Model, nat), Error>((value.4.model(), b4.len())));
    }
}

impl<T0, T1, T2, T3, T4, T5> NonByte for (T0, T1, T2, T3, T4, T5) {

}

impl<T0: Deterministic, T1: Deterministic, T2: Deterministic, T3: Deterministic, T4: Deterministic, T5: Deterministic> Deterministic for (T0, T1, T2, T3, T4, T5) {

}

impl<T0: Readable, T1: Readable, T2: Readable, T3: Readable, T4: Readable, T5: Readable> Readable for (T0, T1, T2, T3, T4, T5) {
    type Model = (T0::Model, T1::Model, T2::Model, T3::Model, T4::Model, T5::Model);

    open spec fn model(&self) -> (T0::Model, T1::Model, T2::Model, T3::Model, T4::Model, T5::Model) {
        (self.0.model(), self.1.model(), self.2.model(), self.3.model(), self.4.model(), self.5.model())
    }

    open spec fn spec_read(bytes: Seq<u8>) -> Result<((T0::Model, T1::Model, T2::Model, T3::Model, T4::Model, T5::Model), nat), Error> {
        match T0::spec_read(bytes) { Err(e) => Err(e), Ok((v0, n0)) => match T1::spec_read(bytes.skip((n0) as int)) { Err(e) => Err(e), Ok((v1, n1)) => match T2::spec_read(bytes.skip((n0 + n1) as int)) { Err(e) => Err(e), Ok((v2, n2)) => match T3::spec_read(bytes.skip((n0 + n1 + n2) as int)) { Err(e) => Err(e), Ok((v3, n3)) => match T4::spec_read(bytes.skip((n0 + n1 + n2 + n3) as int)) { Err(e) => Err(e), Ok((v4, n4)) => match T5::spec_read(bytes.skip((n0 + n1 + n2 + n3 + n4) as int)) { Err(e) => Err(e), Ok((v5, n5)) => Ok(((v0, v1, v2, v3, v4, v5), n0 + n1 + n2 + n3 + n4 + n5)) } } } } } }
    }

    fn read_from(reader: &mut Reader) -> (r: Result<(T0, T1, T2, T3, T4, T5), Error>) {
        let ghost start = reader@;
        let ghost mut taken: nat = 0;
        let ghost before0 = reader@;
        let x0 = match T0::read_from(reader) {
            Ok(v) => v,
            Err(e) => return Err(e),
        };
        proof {
            let n = T0::spec_read(before0)->Ok_0.1;
            assert(start.skip(taken as int).skip(n as int) =~= start.skip((taken + n) as int));
            taken = taken + n;
        }
        let ghost before1 = reader@;
        let x1 = match T1::read_from(reader) {
            Ok(v) => v,
            Err(e) => return Err(e),
        };
        proof {
            let n = T1::spec_read(before1)->Ok_0.1;
            assert(start.skip(taken as int).skip(n as int) =~= start.skip((taken + n) as int));
            taken = taken + n;
        }
        let ghost before2 = reader@;
        let x2 = match T2::read_from(reader) {
            Ok(v) => v,
            Err(e) => return Err(e),
        };
        proof {
            let n = T2::spec_read(before2)->Ok_0.1;
            assert(start.skip(taken as int).skip(n as int) =~= start.skip((taken + n) as int));
            taken = taken + n;
        }
        let ghost before3 = reader@;
        let x3 = match T3::read_from(reader) {
            Ok(v) => v,
            Err(e) => return Err(e),
        };
        proof {
            let n = T3::spec_read(before3)->Ok_0.1;
            assert(start.skip(taken as int).skip(n as int) =~= start.skip((taken + n) as int));
            taken = taken + n;
        }
        let ghost before4 = reader@;
        let x4 = match T4::read_from(reader) {
            Ok(v) => v,
            Err(e) => return Err(e),
        };
        proof {
            let n = T4::spec_read(before4)->Ok_0.1;
            assert(start.skip(taken as int).skip(n as int) =~= start.skip((taken + n) as int));
            taken = taken + n;
        }
        let ghost before5 = reader@;
        let x5 = match T5::read_from(reader) {
            Ok(v) => v,
            Err(e) => return Err(e),
        };
        proof {
            let n = T5::spec_read(before5)->Ok_0.1;
            assert(start.skip(taken as int).skip(n as int) =~= start.skip((taken + n) as int));
            taken = taken + n;
        }
        Ok((x0, x1, x2, x3, x4, x5))
    }
}

impl<T0: Writeable, T1: Writeable, T2: Writeable, T3: Writeable, T4: Writeable, T5: Writeable> Writeable for (T0, T1, T2, T3, T4, T5) {
    open spec fn spec_write(&self) -> Result<Seq<u8>, Error> {
        match self.0.spec_write() { Err(e) => Err(e), Ok(b0) => match self.1.spec_write() { Err(e) => Err(e), Ok(b1) => match self.2.spec_write() { Err(e) => Err(e), Ok(b2) => match self.3.spec_write() { Err(e) => Err(e), Ok(b3) => match self.4.spec_write() { Err(e) => Err(e), Ok(b4) => match self.5.spec_write() { Err(e) => Err(e), Ok(b5) => Ok(b0 + b1 + b2 + b3 + b4 + b5) } } } } } }
    }

    fn write_to(&self, writer: &mut Vec<u8>) -> (r: Result<u64, Error>) {
        let ghost mut written: Seq<u8> = Seq::empty();
        let mut length: u64 = 0;
        let ghost before0 = writer@;
        let n0 = match self.0.write_to(writer) {
            Ok(n) => n,
            Err(e) => {
                proof {
                    assert(old(writer)@ =~= before0.subrange(0, old(writer)@.len() as int));
                    assert(before0 =~= writer@.subrange(0, before0.len() as int));
                    assert(old(writer)@ =~= writer@.subrange(0, old(writer)@.len() as int));
                }
                return Err(e);
            },
        };
        let total0 = writer.len();
        proof {
            let b = self.0.spec_write()->Ok_0;
            assert(old(writer)@ + written + b =~= old(writer)@ + (written + b));
            written = written + b;
        }
        length = length + n0;
        let ghost before1 = writer@;
        let n1 = match self.1.write_to(writer) {
            Ok(n) => n,
            Err(e) => {
                proof {
                    assert(old(writer)@ =~= before1.subrange(0, old(writer)@.len() as int));
                    assert(before1 =~= writer@.subrange(0, before1.len() as int));
                    assert(old(writer)@ =~= writer@.subrange(0, old(writer)@.len() as int));
                }
                return Err(e);
            },
        };
        let total1 = writer.len();
        proof {
            let b = self.1.spec_write()->Ok_0;
            assert(old(writer)@ + written + b =~= old(writer)@ + (written + b));
            written = written + b;
        }
        length = length + n1;
        let ghost before2 = writer@;
        let n2 = match self.2.write_to(writer) {
            Ok(n) => n,
            Err(e) => {
                proof {
                    assert(old(writer)@ =~= before2.subrange(0, old(writer)@.len() as int));
                    assert(before2 =~= writer@.subrange(0, before2.len() as int));
                    assert(old(writer)@ =~= writer@.subrange(0, old(writer)@.len() as int));
                }
                return Err(e);
            },
        };
        let total2 = writer.len();
        proof {
            let b = self.2.spec_write()->Ok_0;
            assert(old(writer)@ + written + b =~= old(writer)@ + (written + b));
            written = written + b;
        }
        length = length + n2;
        let ghost before3 = writer@;
        let n3 = match self.3.write_to(writer) {
            Ok(n) => n,
            Err(e) => {
                proof {
                    assert(old(writer)@ =~= before3.subrange(0, old(writer)@.len() as int));
                    assert(before3 =~= writer@.subrange(0, before3.len() as int));
                    assert(old(writer)@ =~= writer@.subrange(0, old(writer)@.len() as int));
                }
                return Err(e);
            },
        };
        let total3 = writer.len();
        proof {
            let b = self.3.spec_write()->Ok_0;
            assert(old(writer)@ + written + b =~= old(writer)@ + (written + b));
            written = written + b;
        }
        length = length + n3;
        let ghost before4 = writer@;
        let n4 = match self.4.write_to(writer) {
            Ok(n) => n,
            Err(e) => {
                proof {
                    assert(old(writer)@ =~= before4.subrange(0, old(writer)@.len() as int));
                    assert(before4 =~= writer@.subrange(0, before4.len() as int));
                    assert(old(writer)@ =~= writer@.subrange(0, old(writer)@.len() as int));
                }
                return Err(e);
            },
        };
        let total4 = writer.len();
        proof {
            let b = self.4.spec_write()->Ok_0;
            assert(old(writer)@ + written + b =~= old(writer)@ + (written + b));
            written = written + b;
        }
        length = length + n4;
        let ghost before5 = writer@;
        let n5 = match self.5.write_to(writer) {
            Ok(n) => n,
            Err(e) => {
                proof {
                    assert(old(writer)@ =~= before5.subrange(0, old(writer)@.len() as int));
                    assert(before5 =~= writer@.subrange(0, before5.len() as int));
                    assert(old(writer)@ =~= writer@.subrange(0, old(writer)@.len() as int));
                }
                return Err(e);
            },
        };
        let total5 = writer.len();
        proof {
            let b = self.5.spec_write()->Ok_0;
            assert(old(writer)@ + written + b =~= old(writer)@ + (written + b));
            written = written + b;
        }
        length = length + n5;
        Ok(length)
    }
}

impl<T0: RoundTrip, T1: RoundTrip, T2: RoundTrip, T3: RoundTrip, T4: RoundTrip, T5: RoundTrip> RoundTrip for (T0, T1, T2, T3, T4, T5) {
    open spec fn spec_encodable(&self) -> bool {
        self.0.spec_encodable() && self.1.spec_encodable() && self.2.spec_encodable() && self.3.spec_encodable() && self.4.spec_encodable() && self.5.spec_encodable()
    }

    proof fn lemma_round_trip(value: (T0, T1, T2, T3, T4, T5), rest: Seq<u8>) {
        let b0 = value.0.spec_write()->Ok_0;
        let b1 = value.1.spec_write()->Ok_0;
        let b2 = value.2.spec_write()->Ok_0;
        let b3 = value.3.spec_write()->Ok_0;
        let b4 = value.4.spec_write()->Ok_0;
        let b5 = value.5.spec_write()->Ok_0;
        T0::lemma_round_trip(value.0, b1 + b2 + b3 + b4 + b5 + rest);
        T1::lemma_round_trip(value.1, b2 + b3 + b4 + b5 + rest);
        T2::lemma_round_trip(value.2, b3 + b4 + b5 + rest);
        T3::lemma_round_trip(value.3, b4 + b5 + rest);
        T4::lemma_round_trip(value.4, b5 + rest);
        T5::lemma_round_trip(value.5, rest);
        assert(b0 + b1 + b2 + b3 + b4 + b5 + rest =~= b0 + (b1 + b2 + b3 + b4 + b5 + rest));
        assert((b0 + b1 + b2 + b3 + b4 + b5 + rest).skip((b0.len()) as int) =~= b1 + (b2 + b3 + b4 + b5 + rest));
        assert(T1::spec_read((b0 + b1 + b2 + b3 + b4 + b5 + rest).skip((b0.len()) as int)) == Ok::<(T1::Model, nat), Error>((value.1.model(), b1.len())));
        assert((b0 + b1 + b2 + b3 + b4 + b5 + rest).skip((b0.len() + b1.len()) as int) =~= b2 + (b3 + b4 + b5 + rest));
        assert(T2::spec_read((b0 + b1 + b2 + b3 + b4 + b5 + rest).skip((b0.len() + b1.len()) as int)) == Ok::<(T2::Model, nat), Error>((value.2.model(), b2.len())));
        assert((b0 + b1 + b2 + b3 + b4 + b5 + rest).skip((b0.len() + b1.len() + b2.len()) as int) =~= b3 + (b4 + b5 + rest));
        assert(T3::spec_read((b0 + b1 + b2 + b3 + b4 + b5 + rest).skip((b0.len() + b1.len() + b2.len()) as int)) == Ok::<(T3::Model, nat), Error>((value.3.model(), b3.len())));
        assert((b0 + b1 + b2 + b3 + b4 + b5 + rest).skip((b0.len() + b1.len() + b2.len() + b3.len()) as int) =~= b4 + (b5 + rest));
        assert(T4::spec_read((b0 + b1 + b2 + b3 + b4 + b5 + rest).skip((b0.len() + b1.len() + b2.len() + b3.len()) as int)) == Ok::<(T4::Model, nat), Error>((value.4.model(), b4.len())));
        assert((b0 + b1 + b2 + b3 + b4 + b5 + rest).skip((b0.len() + b1.len() + b2.len() + b3.len() + b4.len()) as int) =~= b5 + (rest));
        assert(T5::spec_read((b0 + b1 + b2 + b3 + b4 + b5 + rest).skip((b0.len() + b1.len() + b2.len() + b3.len() + b4.len()) as int)) == Ok::<(T5::Model, nat), Error>((value.5.model(), b5.len())));
    }
}

impl<T0, T1, T2, T3, T4, T5, T6> NonByte for (T0, T1, T2, T3, T4, T5, T6) {

}

impl<T0: Deterministic, T1: Deterministic, T2: Deterministic, T3: Deterministic, T4: Deterministic, T5: Deterministic, T6: Deterministic> Deterministic for (T0, T1, T2, T3, T4, T5, T6) {

}

impl<T0: Readable, T1: Readable, T2: Readable, T3: Readable, T4: Readable, T5: Readable, T6: Readable> Readable for (T0, T1, T2, T3, T4, T5, T6) {
    type Model = (T0::Model, T1::Model, T2::Model, T3::Model, T4::Model, T5::Model, T6::Model);

    open spec fn model(&self) -> (T0::Model, T1::Model, T2::Model, T3::Model, T4::Model, T5::Model, T6::Model) {
        (self.0.model(), self.1.model(), self.2.model(), self.3.model(), self.4.model(), self.5.model(), self.6.model())
    }

    open spec fn spec_read(bytes: Seq<u8>) -> Result<((T0::Model, T1::Model, T2::Model, T3::Model, T4::Model, T5::Model, T6::Model), nat), Error> {
        match T0::spec_read(bytes) { Err(e) => Err(e), Ok((v0, n0)) => match T1::spec_read(bytes.skip((n0) as int)) { Err(e) => Err(e), Ok((v1, n1)) => match T2::spec_read(bytes.skip((n0 + n1) as int)) { Err(e) => Err(e), Ok((v2, n2)) => match T3::spec_read(bytes.skip((n0 + n1 + n2) as int)) { Err(e) => Err(e), Ok((v3, n3)) => match T4::spec_read(bytes.skip((n0 + n1 + n2 + n3) as int)) { Err(e) => Err(e), Ok((v4, n4)) => match T5::spec_read(bytes.skip((n0 + n1 + n2 + n3 + n4) as int)) { Err(e) => Err(e), Ok((v5, n5)) => match T6::spec_read(bytes.skip((n0 + n1 + n2 + n3 + n4 + n5) as int)) { Err(e) => Err(e), Ok((v6, n6)) => Ok(((v0, v1, v2, v3, v4, v5, v6), n0 + n1 + n2 + n3 + n4 + n5 + n6)) } } } } } } }
    }

    fn read_from(reader: &mut Reader) -> (r: Result<(T0, T1, T2, T3, T4, T5, T6), Error>) {
        let ghost start = reader@;
        let ghost mut taken: nat = 0;
        let ghost before0 = reader@;
        let x0 = match T0::read_from(reader) {
            Ok(v) => v,
            Err(e) => return Err(e),
        };
        proof {
            let n = T0::spec_read(before0)->Ok_0.1;
            assert(start.skip(taken as int).skip(n as int) =~= start.skip((taken + n) as int));
            taken = taken + n;
        }
        let ghost before1 = reader@;
        let x1 = match T1::read_from(reader) {
            Ok(v) => v,
            Err(e) => return Err(e),
        };
        proof {
            let n = T1::spec_read(before1)->Ok_0.1;
            assert(start.skip(taken as int).skip(n as int) =~= start.skip((taken + n) as int));
            taken = taken + n;
        }
        let ghost before2 = reader@;
        let x2 = match T2::read_from(reader) {
            Ok(v) => v,
            Err(e) => return Err(e),
        };
        proof {
            let n = T2::spec_read(before2)->Ok_0.1;
            assert(start.skip(taken as int).skip(n as int) =~= start.skip((taken + n) as int));
            taken = taken + n;
        }
        let ghost before3 = reader@;
        let x3 = match T3::read_from(reader) {
            Ok(v) => v,
            Err(e) => return Err(e),
        };
        proof {
            let n = T3::spec_read(before3)->Ok_0.1;
            assert(start.skip(taken as int).skip(n as int) =~= start.skip((taken + n) as int));
            taken = taken + n;
        }
        let ghost before4 = reader@;
        let x4 = match T4::read_from(reader) {
            Ok(v) => v,
            Err(e) => return Err(e),
        };
        proof {
            let n = T4::spec_read(before4)->Ok_0.1;
            assert(start.skip(taken as int).skip(n as int) =~= start.skip((taken + n) as int));
            taken = taken + n;
        }
        let ghost before5 = reader@;
        let x5 = match T5::read_from(reader) {
            Ok(v) => v,
            Err(e) => return Err(e),
        };
        proof {
            let n = T5::spec_read(before5)->Ok_0.1;
            assert(start.skip(taken as int).skip(n as int) =~= start.skip((taken + n) as int));
            taken = taken + n;
        }
        let ghost before6 = reader@;
        let x6 = match T6::read_from(reader) {
            Ok(v) => v,
            Err(e) => return Err(e),
        };
        proof {
            let n = T6::spec_read(before6)->Ok_0.1;
            assert(start.skip(taken as int).skip(n as int) =~= start.skip((taken + n) as int));
            taken = taken + n;
        }
        Ok((x0, x1, x2, x3, x4, x5, x6))
    }
}

impl<T0: Writeable, T1: Writeable, T2: Writeable, T3: Writeable, T4: Writeable, T5: Writeable, T6: Writeable> Writeable for (T0, T1, T2, T3, T4, T5, T6) {
    open spec fn spec_write(&self) -> Result<Seq<u8>, Error> {
        match self.0.spec_write() { Err(e) => Err(e), Ok(b0) => match self.1.spec_write() { Err(e) => Err(e), Ok(b1) => match self.2.spec_write() { Err(e) => Err(e), Ok(b2) => match self.3.spec_write() { Err(e) => Err(e), Ok(b3) => match self.4.spec_write() { Err(e) => Err(e), Ok(b4) => match self.5.spec_write() { Err(e) => Err(e), Ok(b5) => match self.6.spec_write() { Err(e) => Err(e), Ok(b6) => Ok(b0 + b1 + b2 + b3 + b4 + b5 + b6) } } } } } } }
    }

    #[verifier::spinoff_prover]
    #[verifier::rlimit(100)]
    fn write_to(&self, writer: &mut Vec<u8>) -> (r: Result<u64, Error>) {
        let ghost mut written: Seq<u8> = Seq::empty();
        let mut length: u64 = 0;
        let ghost before0 = writer@;
        let n0 = match self.0.write_to(writer) {
            Ok(n) => n,
            Err(e) => {
                proof {
                    assert(old(writer)@ =~= before0.subrange(0, old(writer)@.len() as int));
                    assert(before0 =~= writer@.subrange(0, before0.len() as int));
                    assert(old(writer)@ =~= writer@.subrange(0, old(writer)@.len() as int));
                }
                return Err(e);
            },
        };
        let total0 = writer.len();
        proof {
            let b = self.0.spec_write()->Ok_0;
            assert(old(writer)@ + written + b =~= old(writer)@ + (written + b));
            written = written + b;
        }
        length = length + n0;
        let ghost before1 = writer@;
        let n1 = match self.1.write_to(writer) {
            Ok(n) => n,
            Err(e) => {
                proof {
                    assert(old(writer)@ =~= before1.subrange(0, old(writer)@.len() as int));
                    assert(before1 =~= writer@.subrange(0, before1.len() as int));
                    assert(old(writer)@ =~= writer@.subrange(0, old(writer)@.len() as int));
                }
                return Err(e);
            },
        };
        let total1 = writer.len();
        proof {
            let b = self.1.spec_write()->Ok_0;
            assert(old(writer)@ + written + b =~= old(writer)@ + (written + b));
            written = written + b;
        }
        length = length + n1;
        let ghost before2 = writer@;
        let n2 = match self.2.write_to(writer) {
            Ok(n) => n,
            Err(e) => {
                proof {
                    assert(old(writer)@ =~= before2.subrange(0, old(writer)@.len() as int));
                    assert(before2 =~= writer@.subrange(0, before2.len() as int));
                    assert(old(writer)@ =~= writer@.subrange(0, old(writer)@.len() as int));
                }
                return Err(e);
            },
        };
        let total2 = writer.len();
        proof {
            let b = self.2.spec_write()->Ok_0;
            assert(old(writer)@ + written + b =~= old(writer)@ + (written + b));
            written = written + b;
        }
        length = length + n2;
        let ghost before3 = writer@;
        let n3 = match self.3.write_to(writer) {
            Ok(n) => n,
            Err(e) => {
                proof {
                    assert(old(writer)@ =~= before3.subrange(0, old(writer)@.len() as int));
                    assert(before3 =~= writer@.subrange(0, before3.len() as int));
                    assert(old(writer)@ =~= writer@.subrange(0, old(writer)@.len() as int));
                }
                return Err(e);
            },
        };
        let total3 = writer.len();
        proof {
            let b = self.3.spec_write()->Ok_0;
            assert(old(writer)@ + written + b =~= old(writer)@ + (written + b));
            written = written + b;
        }
        length = length + n3;
        let ghost before4 = writer@;
        let n4 = match self.4.write_to(writer) {
            Ok(n) => n,
            Err(e) => {
                proof {
                    assert(old(writer)@ =~= before4.subrange(0, old(writer)@.len() as int));
                    assert(before4 =~= writer@.subrange(0, before4.len() as int));
                    assert(old(writer)@ =~= writer@.subrange(0, old(writer)@.len() as int));
                }
                return Err(e);
            },
        };
        let total4 = writer.len();
        proof {
            let b = self.4.spec_write()->Ok_0;
            assert(old(writer)@ + written + b =~= old(writer)@ + (written + b));
            written = written + b;
        }
        length = length + n4;
        let ghost before5 = writer@;
        let n5 = match self.5.write_to(writer) {
            Ok(n) => n,
            Err(e) => {
                proof {
                    assert(old(writer)@ =~= before5.subrange(0, old(writer)@.len() as int));
                    assert(before5 =~= writer@.subrange(0, before5.len() as int));
                    assert(old(writer)@ =~= writer@.subrange(0, old(writer)@.len() as int));
                }
                return Err(e);
            },
        };
        let total5 = writer.len();
        proof {
            let b = self.5.spec_write()->Ok_0;
            assert(old(writer)@ + written + b =~= old(writer)@ + (written + b));
            written = written + b;
        }
        length = length + n5;
        let ghost before6 = writer@;
        let n6 = match self.6.write_to(writer) {
            Ok(n) => n,
            Err(e) => {
                proof {
                    assert(old(writer)@ =~= before6.subrange(0, old(writer)@.len() as int));
                    assert(before6 =~= writer@.subrange(0, before6.len() as int));
                    assert(old(writer)@ =~= writer@.subrange(0, old(writer)@.len() as int));
                }
                return Err(e);
            },
        };
        let total6 = writer.len();
        proof {
            let b = self.6.spec_write()->Ok_0;
            assert(old(writer)@ + written + b =~= old(writer)@ + (written + b));
            written = written + b;
        }
        length = length + n6;
        Ok(length)
    }
}

impl<T0: RoundTrip, T1: RoundTrip, T2: RoundTrip, T3: RoundTrip, T4: RoundTrip, T5: RoundTrip, T6: RoundTrip> RoundTrip for (T0, T1, T2, T3, T4, T5, T6) {
    open spec fn spec_encodable(&self) -> bool {
        self.0.spec_encodable() && self.1.spec_encodable() && self.2.spec_encodable() && self.3.spec_encodable() && self.4.spec_encodable() && self.5.spec_encodable() && self.6.spec_encodable()
    }

    #[verifier::spinoff_prover]
    #[verifier::rlimit(100)]
    proof fn lemma_round_trip(value: (T0, T1, T2, T3, T4, T5, T6), rest: Seq<u8>) {
        let b0 = value.0.spec_write()->Ok_0;
        let b1 = value.1.spec_write()->Ok_0;
        let b2 = value.2.spec_write()->Ok_0;
        let b3 = value.3.spec_write()->Ok_0;
        let b4 = value.4.spec_write()->Ok_0;
        let b5 = value.5.spec_write()->Ok_0;
        let b6 = value.6.spec_write()->Ok_0;
        T0::lemma_round_trip(value.0, b1 + b2 + b3 + b4 + b5 + b6 + rest);
        T1::lemma_round_trip(value.1, b2 + b3 + b4 + b5 + b6 + rest);
        T2::lemma_round_trip(value.2, b3 + b4 + b5 + b6 + rest);
        T3::lemma_round_trip(value.3, b4 + b5 + b6 + rest);
        T4::lemma_round_trip(value.4, b5 + b6 + rest);
        T5::lemma_round_trip(value.5, b6 + rest);
        T6::lemma_round_trip(value.6, rest);
        assert(b0 + b1 + b2 + b3 + b4 + b5 + b6 + rest =~= b0 + (b1 + b2 + b3 + b4 + b5 + b6 + rest));
        assert((b0 + b1 + b2 + b3 + b4 + b5 + b6 + rest).skip((b0.len()) as int) =~= b1 + (b2 + b3 + b4 + b5 + b6 + rest));
        assert(T1::spec_read((b0 + b1 + b2 + b3 + b4 + b5 + b6 + rest).skip((b0.len()) as int)) == Ok::<(T1::Model, nat), Error>((value.1.model(), b1.len())));
        assert((b0 + b1 + b2 + b3 + b4 + b5 + b6 + rest).skip((b0.len() + b1.len()) as int) =~= b2 + (b3 + b4 + b5 + b6 + rest));
        assert(T2::spec_read((b0 + b1 + b2 + b3 + b4 + b5 + b6 + rest).skip((b0.len() + b1.len()) as int)) == Ok::<(T2::Model, nat), Error>((value.2.model(), b2.len())));
        assert((b0 + b1 + b2 + b3 + b4 + b5 + b6 + rest).skip((b0.len() + b1.len() + b2.len()) as int) =~= b3 + (b4 + b5 + b6 + rest));
        assert(T3::spec_read((b0 + b1 + b2 + b3 + b4 + b5 + b6 + rest).skip((b0.len() + b1.len() + b2.len()) as int)) == Ok::<(T3::Model, nat), Error>((value.3.model(), b3.len())));
        assert((b0 + b1 + b2 + b3 + b4 + b5 + b6 + rest).skip((b0.len() + b1.len() + b2.len() + b3.len()) as int) =~= b4 + (b5 + b6 + rest));
        assert(T4::spec_read((b0 + b1 + b2 + b3 + b4 + b5 + b6 + rest).skip((b0.len() + b1.len() + b2.len() + b3.len()) as int)) == Ok::<(T4::Model, nat), Error>((value.4.model(), b4.len())));
        assert((b0 + b1 + b2 + b3 + b4 + b5 + b6 + rest).skip((b0.len() + b1.len() + b2.len() + b3.len() + b4.len()) as int) =~= b5 + (b6 + rest));
        assert(T5::spec_read((b0 + b1 + b2 + b3 + b4 + b5 + b6 + rest).skip((b0.len() + b1.len() + b2.len() + b3.len() + b4.len()) as int)) == Ok::<(T5::Model, nat), Error>((value.5.model(), b5.len())));
        assert((b0 + b1 + b2 + b3 + b4 + b5 + b6 + rest).skip((b0.len() + b1.len() + b2.len() + b3.len() + b4.len() + b5.len()) as int) =~= b6 + (rest));
        assert(T6::spec_read((b0 + b1 + b2 + b3 + b4 + b5 + b6 + rest).skip((b0.len() + b1.len() + b2.len() + b3.len() + b4.len() + b5.len()) as int)) == Ok::<(T6::Model, nat), Error>((value.6.model(), b6.len())));
    }
}

impl<T0, T1, T2, T3, T4, T5, T6, T7> NonByte for (T0, T1, T2, T3, T4, T5, T6, T7) {

}

impl<T0: Deterministic, T1: Deterministic, T2: Deterministic, T3: Deterministic, T4: Deterministic, T5: Deterministic, T6: Deterministic, T7: Deterministic> Deterministic for (T0, T1, T2, T3, T4, T5, T6, T7) {

}

impl<T0: Readable, T1: Readable, T2: Readable, T3: Readable, T4: Readable, T5: Readable, T6: Readable, T7: Readable> Readable for (T0, T1, T2, T3, T4, T5, T6, T7) {
    type Model = (T0::Model, T1::Model, T2::Model, T3::Model, T4::Model, T5::Model, T6::Model, T7::Model);

    open spec fn model(&self) -> (T0::Model, T1::Model, T2::Model, T3::Model, T4::Model, T5::Model, T6::Model, T7::Model) {
        (self.0.model(), self.1.model(), self.2.model(), self.3.model(), self.4.model(), self.5.model(), self.6.model(), self.7.model())
    }

    open spec fn spec_read(bytes: Seq<u8>) -> Result<((T0::Model, T1::Model, T2::Model, T3::Model, T4::Model, T5::Model, T6::Model, T7::Model), nat), Error> {
        match T0::spec_read(bytes) { Err(e) => Err(e), Ok((v0, n0)) => match T1::spec_read(bytes.skip((n0) as int)) { Err(e) => Err(e), Ok((v1, n1)) => match T2::spec_read(bytes.skip((n0 + n1) as int)) { Err(e) => Err(e), Ok((v2, n2)) => match T3::spec_read(bytes.skip((n0 + n1 + n2) as int)) { Err(e) => Err(e), Ok((v3, n3)) => match T4::spec_read(bytes.skip((n0 + n1 + n2 + n3) as int)) { Err(e) => Err(e), Ok((v4, n4)) => match T5::spec_read(bytes.skip((n0 + n1 + n2 + n3 + n4) as int)) { Err(e) => Err(e), Ok((v5, n5)) => match T6::spec_read(bytes.skip((n0 + n1 + n2 + n3 + n4 + n5) as int)) { Err(e) => Err(e), Ok((v6, n6)) => match T7::spec_read(bytes.skip((n0 + n1 + n2 + n3 + n4 + n5 + n6) as int)) { Err(e) => Err(e), Ok((v7, n7)) => Ok(((v0, v1, v2, v3, v4, v5, v6, v7), n0 + n1 + n2 + n3 + n4 + n5 + n6 + n7)) } } } } } } } }
    }

    fn read_from(reader: &mut Reader) -> (r: Result<(T0, T1, T2, T3, T4, T5, T6, T7), Error>) {
        let ghost start = reader@;
        let ghost mut taken: nat = 0;
        let ghost before0 = reader@;
        let x0 = match T0::read_from(reader) {
            Ok(v) => v,
            Err(e) => return Err(e),
        };
        proof {
            let n = T0::spec_read(before0)->Ok_0.1;
            assert(start.skip(taken as int).skip(n as int) =~= start.skip((taken + n) as int));
            taken = taken + n;
        }
        let ghost before1 = reader@;
        let x1 = match T1::read_from(reader) {
            Ok(v) => v,
            Err(e) => return Err(e),
        };
        proof {
            let n = T1::spec_read(before1)->Ok_0.1;
            assert(start.skip(taken as int).skip(n as int) =~= start.skip((taken + n) as int));
            taken = taken + n;
        }
        let ghost before2 = reader@;
        let x2 = match T2::read_from(reader) {
            Ok(v) => v,
            Err(e) => return Err(e),
        };
        proof {
            let n = T2::spec_read(before2)->Ok_0.1;
            assert(start.skip(taken as int).skip(n as int) =~= start.skip((taken + n) as int));
            taken = taken + n;
        }
        let ghost before3 = reader@;
        let x3 = match T3::read_from(reader) {
            Ok(v) => v,
            Err(e) => return Err(e),
        };
        proof {
            let n = T3::spec_read(before3)->Ok_0.1;
            assert(start.skip(taken as int).skip(n as int) =~= start.skip((taken + n) as int));
            taken = taken + n;
        }
        let ghost before4 = reader@;
        let x4 = match T4::read_from(reader) {
            Ok(v) => v,
            Err(e) => return Err(e),
        };
        proof {
            let n = T4::spec_read(before4)->Ok_0.1;
            assert(start.skip(taken as int).skip(n as int) =~= start.skip((taken + n) as int));
            taken = taken + n;
        }
        let ghost before5 = reader@;
        let x5 = match T5::read_from(reader) {
            Ok(v) => v,
            Err(e) => return Err(e),
        };
        proof {
            let n = T5::spec_read(before5)->Ok_0.1;
            assert(start.skip(taken as int).skip(n as int) =~= start.skip((taken + n) as int));
            taken = taken + n;
        }
        let ghost before6 = reader@;
        let x6 = match T6::read_from(reader) {
            Ok(v) => v,
            Err(e) => return Err(e),
        };
        proof {
            let n = T6::spec_read(before6)->Ok_0.1;
            assert(start.skip(taken as int).skip(n as int) =~= start.skip((taken + n) as int));
            taken = taken + n;
        }
        let ghost before7 = reader@;
        let x7 = match T7::read_from(reader) {
            Ok(v) => v,
            Err(e) => return Err(e),
        };
        proof {
            let n = T7::spec_read(before7)->Ok_0.1;
            assert(start.skip(taken as int).skip(n as int) =~= start.skip((taken + n) as int));
            taken = taken + n;
        }
        Ok((x0, x1, x2, x3, x4, x5, x6, x7))
    }
}

impl<T0: Writeable, T1: Writeable, T2: Writeable, T3: Writeable, T4: Writeable, T5: Writeable, T6: Writeable, T7: Writeable> Writeable for (T0, T1, T2, T3, T4, T5, T6, T7) {
    open spec fn spec_write(&self) -> Result<Seq<u8>, Error> {
        match self.0.spec_write() { Err(e) => Err(e), Ok(b0) => match self.1.spec_write() { Err(e) => Err(e), Ok(b1) => match self.2.spec_write() { Err(e) => Err(e), Ok(b2) => match self.3.spec_write() { Err(e) => Err(e), Ok(b3) => match self.4.spec_write() { Err(e) => Err(e), Ok(b4) => match self.5.spec_write() { Err(e) => Err(e), Ok(b5) => match self.6.spec_write() { Err(e) => Err(e), Ok(b6) => match self.7.spec_write() { Err(e) => Err(e), Ok(b7) => Ok(b0 + b1 + b2 + b3 + b4 + b5 + b6 + b7) } } } } } } } }
    }

    #[verifier::spinoff_prover]
    #[verifier::rlimit(100)]
    fn write_to(&self, writer: &mut Vec<u8>) -> (r: Result<u64, Error>) {
        let ghost mut written: Seq<u8> = Seq::empty();
        let mut length: u64 = 0;
        let ghost before0 = writer@;
        let n0 = match self.0.write_to(writer) {
            Ok(n) => n,
            Err(e) => {
                proof {
                    assert(old(writer)@ =~= before0.subrange(0, old(writer)@.len() as int));
                    assert(before0 =~= writer@.subrange(0, before0.len() as int));
                    assert(old(writer)@ =~= writer@.subrange(0, old(writer)@.len() as int));
                }
                return Err(e);
            },
        };
        let total0 = writer.len();
        proof {
            let b = self.0.spec_write()->Ok_0;
            assert(old(writer)@ + written + b =~= old(writer)@ + (written + b));
            written = written + b;
        }
        length = length + n0;
        let ghost before1 = writer@;
        let n1 = match self.1.write_to(writer) {
            Ok(n) => n,
            Err(e) => {
                proof {
                    assert(old(writer)@ =~= before1.subrange(0, old(writer)@.len() as int));
                    assert(before1 =~= writer@.subrange(0, before1.len() as int));
                    assert(old(writer)@ =~= writer@.subrange(0, old(writer)@.len() as int));
                }
                return Err(e);
            },
        };
        let total1 = writer.len();
        proof {
            let b = self.1.spec_write()->Ok_0;
            assert(old(writer)@ + written + b =~= old(writer)@ + (written + b));
            written = written + b;
        }
        length = length + n1;
        let ghost before2 = writer@;
        let n2 = match self.2.write_to(writer) {
            Ok(n) => n,
            Err(e) => {
                proof {
                    assert(old(writer)@ =~= before2.subrange(0, old(writer)@.len() as int));
                    assert(before2 =~= writer@.subrange(0, before2.len() as int));
                    assert(old(writer)@ =~= writer@.subrange(0, old(writer)@.len() as int));
                }
                return Err(e);
            },
        };
        let total2 = writer.len();
        proof {
            let b = self.2.spec_write()->Ok_0;
            assert(old(writer)@ + written + b =~= old(writer)@ + (written + b));
            written = written + b;
        }
        length = length + n2;
        let ghost before3 = writer@;
        let n3 = match self.3.write_to(writer) {
            Ok(n) => n,
            Err(e) => {
                proof {
                    assert(old(writer)@ =~= before3.subrange(0, old(writer)@.len() as int));
                    assert(before3 =~= writer@.subrange(0, before3.len() as int));
                    assert(old(writer)@ =~= writer@.subrange(0, old(writer)@.len() as int));
                }
                return Err(e);
            },
        };
        let total3 = writer.len();
        proof {
            let b = self.3.spec_write()->Ok_0;
            assert(old(writer)@ + written + b =~= old(writer)@ + (written + b));
            written = written + b;
        }
        length = length + n3;
        let ghost before4 = writer@;
        let n4 = match self.4.write_to(writer) {
            Ok(n) => n,
            Err(e) => {
                proof {
                    assert(old(writer)@ =~= before4.subrange(0, old(writer)@.len() as int));
                    assert(before4 =~= writer@.subrange(0, before4.len() as int));
                    assert(old(writer)@ =~= writer@.subrange(0, old(writer)@.len() as int));
                }
                return Err(e);
            },
        };
        let total4 = writer.len();
        proof {
            let b = self.4.spec_write()->Ok_0;
            assert(old(writer)@ + written + b =~= old(writer)@ + (written + b));
            written = written + b;
        }
        length = length + n4;
        let ghost before5 = writer@;
        let n5 = match self.5.write_to(writer) {
            Ok(n) => n,
            Err(e) => {
                proof {
                    assert(old(writer)@ =~= before5.subrange(0, old(writer)@.len() as int));
                    assert(before5 =~= writer@.subrange(0, before5.len() as int));
                    assert(old(writer)@ =~= writer@.subrange(0, old(writer)@.len() as int));
                }
                return Err(e);
            },
        };
        let total5 = writer.len();
        proof {
            let b = self.5.spec_write()->Ok_0;
            assert(old(writer)@ + written + b =~= old(writer)@ + (written + b));
            written = written + b;
        }
        length = length + n5;
        let ghost before6 = writer@;
        let n6 = match self.6.write_to(writer) {
            Ok(n) => n,
            Err(e) => {
                proof {
                    assert(old(writer)@ =~= before6.subrange(0, old(writer)@.len() as int));
                    assert(before6 =~= writer@.subrange(0, before6.len() as int));
                    assert(old(writer)@ =~= writer@.subrange(0, old(writer)@.len() as int));
                }
                return Err(e);
            },
        };
        let total6 = writer.len();
        proof {
            let b = self.6.spec_write()->Ok_0;
            assert(old(writer)@ + written + b =~= old(writer)@ + (written + b));
            written = written + b;
        }
        length = length + n6;
        let ghost before7 = writer@;
        let n7 = match self.7.write_to(writer) {
            Ok(n) => n,
            Err(e) => {
                proof {
                    assert(old(writer)@ =~= before7.subrange(0, old(writer)@.len() as int));
                    assert(before7 =~= writer@.subrange(0, before7.len() as int));
                    assert(old(writer)@ =~= writer@.subrange(0, old(writer)@.len() as int));
                }
                return Err(e);
            },
        };
        let total7 = writer.len();
        proof {
            let b = self.7.spec_write()->Ok_0;
            assert(old(writer)@ + written + b =~= old(writer)@ + (written + b));
            written = written + b;
        }
        length = length + n7;
        Ok(length)
    }
}

impl<T0: RoundTrip, T1: RoundTrip, T2: RoundTrip, T3: RoundTrip, T4: RoundTrip, T5: RoundTrip, T6: RoundTrip, T7: RoundTrip> RoundTrip for (T0, T1, T2, T3, T4, T5, T6, T7) {
    open spec fn spec_encodable(&self) -> bool {
        self.0.spec_encodable() && self.1.spec_encodable() && self.2.spec_encodable() && self.3.spec_encodable() && self.4.spec_encodable() && self.5.spec_encodable() && self.6.spec_encodable() && self.7.spec_encodable()
    }

    #[verifier::spinoff_prover]
    #[verifier::rlimit(100)]
    proof fn lemma_round_trip(value: (T0, T1, T2, T3, T4, T5, T6, T7), rest: Seq<u8>) {
        let b0 = value.0.spec_write()->Ok_0;
        let b1 = value.1.spec_write()->Ok_0;
        let b2 = value.2.spec_write()->Ok_0;
        let b3 = value.3.spec_write()->Ok_0;
        let b4 = value.4.spec_write()->Ok_0;
        let b5 = value.5.spec_write()->Ok_0;
        let b6 = value.6.spec_write()->Ok_0;
        let b7 = value.7.spec_write()->Ok_0;
        T0::lemma_round_trip(value.0, b1 + b2 + b3 + b4 + b5 + b6 + b7 + rest);
        T1::lemma_round_trip(value.1, b2 + b3 + b4 + b5 + b6 + b7 + rest);
        T2::lemma_round_trip(value.2, b3 + b4 + b5 + b6 + b7 + rest);
        T3::lemma_round_trip(value.3, b4 + b5 + b6 + b7 + rest);
        T4::lemma_round_trip(value.4, b5 + b6 + b7 + rest);
        T5::lemma_round_trip(value.5, b6 + b7 + rest);
        T6::lemma_round_trip(value.6, b7 + rest);
        T7::lemma_round_trip(value.7, rest);
        assert(b0 + b1 + b2 + b3 + b4 + b5 + b6 + b7 + rest =~= b0 + (b1 + b2 + b3 + b4 + b5 + b6 + b7 + rest));
        assert((b0 + b1 + b2 + b3 + b4 + b5 + b6 + b7 + rest).skip((b0.len()) as int) =~= b1 + (b2 + b3 + b4 + b5 + b6 + b7 + rest));
        assert(T1::spec_read((b0 + b1 + b2 + b3 + b4 + b5 + b6 + b7 + rest).skip((b0.len()) as int)) == Ok::<(T1::Model, nat), Error>((value.1.model(), b1.len())));
        assert((b0 + b1 + b2 + b3 + b4 + b5 + b6 + b7 + rest).skip((b0.len() + b1.len()) as int) =~= b2 + (b3 + b4 + b5 + b6 + b7 + rest));
        assert(T2::spec_read((b0 + b1 + b2 + b3 + b4 + b5 + b6 + b7 + rest).skip((b0.len() + b1.len()) as int)) == Ok::<(T2::Model, nat), Error>((value.2.model(), b2.len())));
        assert((b0 + b1 + b2 + b3 + b4 + b5 + b6 + b7 + rest).skip((b0.len() + b1.len() + b2.len()) as int) =~= b3 + (b4 + b5 + b6 + b7 + rest));
        assert(T3::spec_read((b0 + b1 + b2 + b3 + b4 + b5 + b6 + b7 + rest).skip((b0.len() + b1.len() + b2.len()) as int)) == Ok::<(T3::Model, nat), Error>((value.3.model(), b3.len())));
        assert((b0 + b1 + b2 + b3 + b4 + b5 + b6 + b7 + rest).skip((b0.len() + b1.len() + b2.len() + b3.len()) as int) =~= b4 + (b5 + b6 + b7 + rest));
        assert(T4::spec_read((b0 + b1 + b2 + b3 + b4 + b5 + b6 + b7 + rest).skip((b0.len() + b1.len() + b2.len() + b3.len()) as int)) == Ok::<(T4::Model, nat), Error>((value.4.model(), b4.len())));
        assert((b0 + b1 + b2 + b3 + b4 + b5 + b6 + b7 + rest).skip((b0.len() + b1.len() + b2.len() + b3.len() + b4.len()) as int) =~= b5 + (b6 + b7 + rest));
        assert(T5::spec_read((b0 + b1 + b2 + b3 + b4 + b5 + b6 + b7 + rest).skip((b0.len() + b1.len() + b2.len() + b3.len() + b4.len()) as int)) == Ok::<(T5::Model, nat), Error>((value.5.model(), b5.len())));
        assert((b0 + b1 + b2 + b3 + b4 + b5 + b6 + b7 + rest).skip((b0.len() + b1.len() + b2.len() + b3.len() + b4.len() + b5.len()) as int) =~= b6 + (b7 + rest));
        assert(T6::spec_read((b0 + b1 + b2 + b3 + b4 + b5 + b6 + b7 + rest).skip((b0.len() + b1.len() + b2.len() + b3.len() + b4.len() + b5.len()) as int)) == Ok::<(T6::Model, nat), Error>((value.6.model(), b6.len())));
        assert((b0 + b1 + b2 + b3 + b4 + b5 + b6 + b7 + rest).skip((b0.len() + b1.len() + b2.len() + b3.len() + b4.len() + b5.len() + b6.len()) as int) =~= b7 + (rest));
        assert(T7::spec_read((b0 + b1 + b2 + b3 + b4 + b5 + b6 + b7 + rest).skip((b0.len() + b1.len() + b2.len() + b3.len() + b4.len() + b5.len() + b6.len()) as int)) == Ok::<(T7::Model, nat), Error>((value.7.model(), b7.len())));
    }
}

impl<T0, T1, T2, T3, T4, T5, T6, T7, T8> NonByte for (T0, T1, T2, T3, T4, T5, T6, T7, T8) {

}

impl<T0: Deterministic, T1: Deterministic, T2: Deterministic, T3: Deterministic, T4: Deterministic, T5: Deterministic, T6: Deterministic, T7: Deterministic, T8: Deterministic> Deterministic for (T0, T1, T2, T3, T4, T5, T6, T7, T8) {

}

impl<T0: Readable, T1: Readable, T2: Readable, T3: Readable, T4: Readable, T5: Readable, T6: Readable, T7: Readable, T8: Readable> Readable for (T0, T1, T2, T3, T4, T5, T6, T7, T8) {
    type Model = (T0::Model, T1::Model, T2::Model, T3::Model, T4::Model, T5::Model, T6::Model, T7::Model, T8::Model);

    open spec fn model(&self) -> (T0::Model, T1::Model, T2::Model, T3::Model, T4::Model, T5::Model, T6::Model, T7::Model, T8::Model) {
        (self.0.model(), self.1.model(), self.2.model(), self.3.model(), self.4.model(), self.5.model(), self.6.model(), self.7.model(), self.8.model())
    }

    open spec fn spec_read(bytes: Seq<u8>) -> Result<((T0::Model, T1::Model, T2::Model, T3::Model, T4::Model, T5::Model, T6::Model, T7::Model, T8::Model), nat), Error> {
        match T0::spec_read(bytes) { Err(e) => Err(e), Ok((v0, n0)) => match T1::spec_read(bytes.skip((n0) as int)) { Err(e) => Err(e), Ok((v1, n1)) => match T2::spec_read(bytes.skip((n0 + n1) as int)) { Err(e) => Err(e), Ok((v2, n2)) => match T3::spec_read(bytes.skip((n0 + n1 + n2) as int)) { Err(e) => Err(e), Ok((v3, n3)) => match T4::spec_read(bytes.skip((n0 + n1 + n2 + n3) as int)) { Err(e) => Err(e), Ok((v4, n4)) => match T5::spec_read(bytes.skip((n0 + n1 + n2 + n3 + n4) as int)) { Err(e) => Err(e), Ok((v5, n5)) => match T6::spec_read(bytes.skip((n0 + n1 + n2 + n3 + n4 + n5) as int)) { Err(e) => Err(e), Ok((v6, n6)) => match T7::spec_read(bytes.skip((n0 + n1 + n2 + n3 + n4 + n5 + n6) as int)) { Err(e) => Err(e), Ok((v7, n7)) => match T8::spec_read(bytes.skip((n0 + n1 + n2 + n3 + n4 + n5 + n6 + n7) as int)) { Err(e) => Err(e), Ok((v8, n8)) => Ok(((v0, v1, v2, v3, v4, v5, v6, v7, v8), n0 + n1 + n2 + n3 + n4 + n5 + n6 + n7 + n8)) } } } } } } } } }
    }

    fn read_from(reader: &mut Reader) -> (r: Result<(T0, T1, T2, T3, T4, T5, T6, T7, T8), Error>) {
        let ghost start = reader@;
        let ghost mut taken: nat = 0;
        let ghost before0 = reader@;
        let x0 = match T0::read_from(reader) {
            Ok(v) => v,
            Err(e) => return Err(e),
        };
        proof {
            let n = T0::spec_read(before0)->Ok_0.1;
            assert(start.skip(taken as int).skip(n as int) =~= start.skip((taken + n) as int));
            taken = taken + n;
        }
        let ghost before1 = reader@;
        let x1 = match T1::read_from(reader) {
            Ok(v) => v,
            Err(e) => return Err(e),
        };
        proof {
            let n = T1::spec_read(before1)->Ok_0.1;
            assert(start.skip(taken as int).skip(n as int) =~= start.skip((taken + n) as int));
            taken = taken + n;
        }
        let ghost before2 = reader@;
        let x2 = match T2::read_from(reader) {
            Ok(v) => v,
            Err(e) => return Err(e),
        };
        proof {
            let n = T2::spec_read(before2)->Ok_0.1;
            assert(start.skip(taken as int).skip(n as int) =~= start.skip((taken + n) as int));
            taken = taken + n;
        }
        let ghost before3 = reader@;
        let x3 = match T3::read_from(reader) {
            Ok(v) => v,
            Err(e) => return Err(e),
        };
        proof {
            let n = T3::spec_read(before3)->Ok_0.1;
            assert(start.skip(taken as int).skip(n as int) =~= start.skip((taken + n) as int));
            taken = taken + n;
        }
        let ghost before4 = reader@;
        let x4 = match T4::read_from(reader) {
            Ok(v) => v,
            Err(e) => return Err(e),
        };
        proof {
            let n = T4::spec_read(before4)->Ok_0.1;
            assert(start.skip(taken as int).skip(n as int) =~= start.skip((taken + n) as int));
            taken = taken + n;
        }
        let ghost before5 = reader@;
        let x5 = match T5::read_from(reader) {
            Ok(v) => v,
            Err(e) => return Err(e),
        };
        proof {
            let n = T5::spec_read(before5)->Ok_0.1;
            assert(start.skip(taken as int).skip(n as int) =~= start.skip((taken + n) as int));
            taken = taken + n;
        }
        let ghost before6 = reader@;
        let x6 = match T6::read_from(reader) {
            Ok(v) => v,
            Err(e) => return Err(e),
        };
        proof {
            let n = T6::spec_read(before6)->Ok_0.1;
            assert(start.skip(taken as int).skip(n as int) =~= start.skip((taken + n) as int));
            taken = taken + n;
        }
        let ghost before7 = reader@;
        let x7 = match T7::read_from(reader) {
            Ok(v) => v,
            Err(e) => return Err(e),
        };
        proof {
            let n = T7::spec_read(before7)->Ok_0.1;
            assert(start.skip(taken as int).skip(n as int) =~= start.skip((taken + n) as int));
            taken = taken + n;
        }
        let ghost before8 = reader@;
        let x8 = match T8::read_from(reader) {
            Ok(v) => v,
            Err(e) => return Err(e),
        };
        proof {
            let n = T8::spec_read(before8)->Ok_0.1;
            assert(start.skip(taken as int).skip(n as int) =~= start.skip((taken + n) as int));
            taken = taken + n;
        }
        Ok((x0, x1, x2, x3, x4, x5, x6, x7, x8))
    }
}

impl<T0: Writeable, T1: Writeable, T2: Writeable, T3: Writeable, T4: Writeable, T5: Writeable, T6: Writeable, T7: Writeable, T8: Writeable> Writeable for (T0, T1, T2, T3, T4, T5, T6, T7, T8) {
    open spec fn spec_write(&self) -> Result<Seq<u8>, Error> {
        match self.0.spec_write() { Err(e) => Err(e), Ok(b0) => match self.1.spec_write() { Err(e) => Err(e), Ok(b1) => match self.2.spec_write() { Err(e) => Err(e), Ok(b2) => match self.3.spec_write() { Err(e) => Err(e), Ok(b3) => match self.4.spec_write() { Err(e) => Err(e), Ok(b4) => match self.5.spec_write() { Err(e) => Err(e), Ok(b5) => match self.6.spec_write() { Err(e) => Err(e), Ok(b6) => match self.7.spec_write() { Err(e) => Err(e), Ok(b7) => match self.8.spec_write() { Err(e) => Err(e), Ok(b8) => Ok(b0 + b1 + b2 + b3 + b4 + b5 + b6 + b7 + b8) } } } } } } } } }
    }

    #[verifier::spinoff_prover]
    #[verifier::rlimit(100)]
    fn write_to(&self, writer: &mut Vec<u8>) -> (r: Result<u64, Error>) {
        let ghost mut written: Seq<u8> = Seq::empty();
        let mut length: u64 = 0;
        let ghost before0 = writer@;
        let n0 = match self.0.write_to(writer) {
            Ok(n) => n,
            Err(e) => {
                proof {
                    assert(old(writer)@ =~= before0.subrange(0, old(writer)@.len() as int));
                    assert(before0 =~= writer@.subrange(0, before0.len() as int));
                    assert(old(writer)@ =~= writer@.subrange(0, old(writer)@.len() as int));
                }
                return Err(e);
            },
        };
        let total0 = writer.len();
        proof {
            let b = self.0.spec_write()->Ok_0;
            assert(old(writer)@ + written + b =~= old(writer)@ + (written + b));
            written = written + b;
        }
        length = length + n0;
        let ghost before1 = writer@;
        let n1 = match self.1.write_to(writer) {
            Ok(n) => n,
            Err(e) => {
                proof {
                    assert(old(writer)@ =~= before1.subrange(0, old(writer)@.len() as int));
                    assert(before1 =~= writer@.subrange(0, before1.len() as int));
                    assert(old(writer)@ =~= writer@.subrange(0, old(writer)@.len() as int));
                }
                return Err(e);
            },
        };
        let total1 = writer.len();
        proof {
            let b = self.1.spec_write()->Ok_0;
            assert(old(writer)@ + written + b =~= old(writer)@ + (written + b));
            written = written + b;
        }
        length = length + n1;
        let ghost before2 = writer@;
        let n2 = match self.2.write_to(writer) {
            Ok(n) => n,
            Err(e) => {
                proof {
                    assert(old(writer)@ =~= before2.subrange(0, old(writer)@.len() as int));
                    assert(before2 =~= writer@.subrange(0, before2.len() as int));
                    assert(old(writer)@ =~= writer@.subrange(0, old(writer)@.len() as int));
                }
                return Err(e);
            },
        };
        let total2 = writer.len();
        proof {
            let b = self.2.spec_write()->Ok_0;
            assert(old(writer)@ + written + b =~= old(writer)@ + (written + b));
            written = written + b;
        }
        length = length + n2;
        let ghost before3 = writer@;
        let n3 = match self.3.write_to(writer) {
            Ok(n) => n,
            Err(e) => {
                proof {
                    assert(old(writer)@ =~= before3.subrange(0, old(writer)@.len() as int));
                    assert(before3 =~= writer@.subrange(0, before3.len() as int));
                    assert(old(writer)@ =~= writer@.subrange(0, old(writer)@.len() as int));
                }
                return Err(e);
            },
        };
        let total3 = writer.len();
        proof {
            let b = self.3.spec_write()->Ok_0;
            assert(old(writer)@ + written + b =~= old(writer)@ + (written + b));
            written = written + b;
        }
        length = length + n3;
        let ghost before4 = writer@;
        let n4 = match self.4.write_to(writer) {
            Ok(n) => n,
            Err(e) => {
                proof {
                    assert(old(writer)@ =~= before4.subrange(0, old(writer)@.len() as int));
                    assert(before4 =~= writer@.subrange(0, before4.len() as int));
                    assert(old(writer)@ =~= writer@.subrange(0, old(writer)@.len() as int));
                }
                return Err(e);
            },
        };
        let total4 = writer.len();
        proof {
            let b = self.4.spec_write()->Ok_0;
            assert(old(writer)@ + written + b =~= old(writer)@ + (written + b));
            written = written + b;
        }
        length = length + n4;
        let ghost before5 = writer@;
        let n5 = match self.5.write_to(writer) {
            Ok(n) => n,
            Err(e) => {
                proof {
                    assert(old(writer)@ =~= before5.subrange(0, old(writer)@.len() as int));
                    assert(before5 =~= writer@.subrange(0, before5.len() as int));
                    assert(old(writer)@ =~= writer@.subrange(0, old(writer)@.len() as int));
                }
                return Err(e);
            },
        };
        let total5 = writer.len();
        proof {
            let b = self.5.spec_write()->Ok_0;
            assert(old(writer)@ + written + b =~= old(writer)@ + (written + b));
            written = written + b;
        }
        length = length + n5;
        let ghost before6 = writer@;
        let n6 = match self.6.write_to(writer) {
            Ok(n) => n,
            Err(e) => {
                proof {
                    assert(old(writer)@ =~= before6.subrange(0, old(writer)@.len() as int));
                    assert(before6 =~= writer@.subrange(0, before6.len() as int));
                    assert(old(writer)@ =~= writer@.subrange(0, old(writer)@.len() as int));
                }
                return Err(e);
            },
        };
        let total6 = writer.len();
        proof {
            let b = self.6.spec_write()->Ok_0;
            assert(old(writer)@ + written + b =~= old(writer)@ + (written + b));
            written = written + b;
        }
        length = length + n6;
        let ghost before7 = writer@;
        let n7 = match self.7.write_to(writer) {
            Ok(n) => n,
            Err(e) => {
                proof {
                    assert(old(writer)@ =~= before7.subrange(0, old(writer)@.len() as int));
                    assert(before7 =~= writer@.subrange(0, before7.len() as int));
                    assert(old(writer)@ =~= writer@.subrange(0, old(writer)@.len() as int));
                }
                return Err(e);
            },
        };
        let total7 = writer.len();
        proof {
            let b = self.7.spec_write()->Ok_0;
            assert(old(writer)@ + written + b =~= old(writer)@ + (written + b));
            written = written + b;
        }
        length = length + n7;
        let ghost before8 = writer@;
        let n8 = match self.8.write_to(writer) {
            Ok(n) => n,
            Err(e) => {
                proof {
                    assert(old(writer)@ =~= before8.subrange(0, old(writer)@.len() as int));
                    assert(before8 =~= writer@.subrange(0, before8.len() as int));
                    assert(old(writer)@ =~= writer@.subrange(0, old(writer)@.len() as int));
                }
                return Err(e);
            },
        };
        let total8 = writer.len();
        proof {
            let b = self.8.spec_write()->Ok_0;
            assert(old(writer)@ + written + b =~= old(writer)@ + (written + b));
            written = written + b;
        }
        length = length + n8;
        Ok(length)
    }
}

impl<T0: RoundTrip, T1: RoundTrip, T2: RoundTrip, T3: RoundTrip, T4: RoundTrip, T5: RoundTrip, T6: RoundTrip, T7: RoundTrip, T8: RoundTrip> RoundTrip for (T0, T1, T2, T3, T4, T5, T6, T7, T8) {
    open spec fn spec_encodable(&self) -> bool {
        self.0.spec_encodable() && self.1.spec_encodable() && self.2.spec_encodable() && self.3.spec_encodable() && self.4.spec_encodable() && self.5.spec_encodable() && self.6.spec_encodable() && self.7.spec_encodable() && self.8.spec_encodable()
    }

    #[verifier::spinoff_prover]
    #[verifier::rlimit(100)]
    proof fn lemma_round_trip(value: (T0, T1, T2, T3, T4, T5, T6, T7, T8), rest: Seq<u8>) {
        let b0 = value.0.spec_write()->Ok_0;
        let b1 = value.1.spec_write()->Ok_0;
        let b2 = value.2.spec_write()->Ok_0;
        let b3 = value.3.spec_write()->Ok_0;
        let b4 = value.4.spec_write()->Ok_0;
        let b5 = value.5.spec_write()->Ok_0;
        let b6 = value.6.spec_write()->Ok_0;
        let b7 = value.7.spec_write()->Ok_0;
        let b8 = value.8.spec_write()->Ok_0;
        T0::lemma_round_trip(value.0, b1 + b2 + b3 + b4 + b5 + b6 + b7 + b8 + rest);
        T1::lemma_round_trip(value.1, b2 + b3 + b4 + b5 + b6 + b7 + b8 + rest);
        T2::lemma_round_trip(value.2, b3 + b4 + b5 + b6 + b7 + b8 + rest);
        T3::lemma_round_trip(value.3, b4 + b5 + b6 + b7 + b8 + rest);
        T4::lemma_round_trip(value.4, b5 + b6 + b7 + b8 + rest);
        T5::lemma_round_trip(value.5, b6 + b7 + b8 + rest);
        T6::lemma_round_trip(value.6, b7 + b8 + rest);
        T7::lemma_round_trip(value.7, b8 + rest);
        T8::lemma_round_trip(value.8, rest);
        assert(b0 + b1 + b2 + b3 + b4 + b5 + b6 + b7 + b8 + rest =~= b0 + (b1 + b2 + b3 + b4 + b5 + b6 + b7 + b8 + rest));
        assert((b0 + b1 + b2 + b3 + b4 + b5 + b6 + b7 + b8 + rest).skip((b0.len()) as int) =~= b1 + (b2 + b3 + b4 + b5 + b6 + b7 + b8 + rest));
        assert(T1::spec_read((b0 + b1 + b2 + b3 + b4 + b5 + b6 + b7 + b8 + rest).skip((b0.len()) as int)) == Ok::<(T1::Model, nat), Error>((value.1.model(), b1.len())));
        assert((b0 + b1 + b2 + b3 + b4 + b5 + b6 + b7 + b8 + rest).skip((b0.len() + b1.len()) as int) =~= b2 + (b3 + b4 + b5 + b6 + b7 + b8 + rest));
        assert(T2::spec_read((b0 + b1 + b2 + b3 + b4 + b5 + b6 + b7 + b8 + rest).skip((b0.len() + b1.len()) as int)) == Ok::<(T2::Model, nat), Error>((value.2.model(), b2.len())));
        assert((b0 + b1 + b2 + b3 + b4 + b5 + b6 + b7 + b8 + rest).skip((b0.len() + b1.len() + b2.len()) as int) =~= b3 + (b4 + b5 + b6 + b7 + b8 + rest));
        assert(T3::spec_read((b0 + b1 + b2 + b3 + b4 + b5 + b6 + b7 + b8 + rest).skip((b0.len() + b1.len() + b2.len()) as int)) == Ok::<(T3::Model, nat), Error>((value.3.model(), b3.len())));
        assert((b0 + b1 + b2 + b3 + b4 + b5 + b6 + b7 + b8 + rest).skip((b0.len() + b1.len() + b2.len() + b3.len()) as int) =~= b4 + (b5 + b6 + b7 + b8 + rest));
        assert(T4::spec_read((b0 + b1 + b2 + b3 + b4 + b5 + b6 + b7 + b8 + rest).skip((b0.len() + b1.len() + b2.len() + b3.len()) as int)) == Ok::<(T4::Model, nat), Error>((value.4.model(), b4.len())));
        assert((b0 + b1 + b2 + b3 + b4 + b5 + b6 + b7 + b8 + rest).skip((b0.len() + b1.len() + b2.len() + b3.len() + b4.len()) as int) =~= b5 + (b6 + b7 + b8 + rest));
        assert(T5::spec_read((b0 + b1 + b2 + b3 + b4 + b5 + b6 + b7 + b8 + rest).skip((b0.len() + b1.len() + b2.len() + b3.len() + b4.len()) as int)) == Ok::<(T5::Model, nat), Error>((value.5.model(), b5.len())));
        assert((b0 + b1 + b2 + b3 + b4 + b5 + b6 + b7 + b8 + rest).skip((b0.len() + b1.len() + b2.len() + b3.len() + b4.len() + b5.len()) as int) =~= b6 + (b7 + b8 + rest));
        assert(T6::spec_read((b0 + b1 + b2 + b3 + b4 + b5 + b6 + b7 + b8 + rest).skip((b0.len() + b1.len() + b2.len() + b3.len() + b4.len() + b5.len()) as int)) == Ok::<(T6::Model, nat), Error>((value.6.model(), b6.len())));
        assert((b0 + b1 + b2 + b3 + b4 + b5 + b6 + b7 + b8 + rest).skip((b0.len() + b1.len() + b2.len() + b3.len() + b4.len() + b5.len() + b6.len()) as int) =~= b7 + (b8 + rest));
        assert(T7::spec_read((b0 + b1 + b2 + b3 + b4 + b5 + b6 + b7 + b8 + rest).skip((b0.len() + b1.len() + b2.len() + b3.len() + b4.len() + b5.len() + b6.len()) as int)) == Ok::<(T7::Model, nat), Error>((value.7.model(), b7.len())));
        assert((b0 + b1 + b2 + b3 + b4 + b5 + b6 + b7 + b8 + rest).skip((b0.len() + b1.len() + b2.len() + b3.len() + b4.len() + b5.len() + b6.len() + b7.len()) as int) =~= b8 + (rest));
        assert(T8::spec_read((b0 + b1 + b2 + b3 + b4 + b5 + b6 + b7 + b8 + rest).skip((b0.len() + b1.len() + b2.len() + b3.len() + b4.len() + b5.len() + b6.len() + b7.len()) as int)) == Ok::<(T8::Model, nat), Error>((value.8.model(), b8.len())));
    }
}

impl<T0, T1, T2, T3, T4, T5, T6, T7, T8, T9> NonByte for (T0, T1, T2, T3, T4, T5, T6, T7, T8, T9) {

}

impl<T0: Deterministic, T1: Deterministic, T2: Deterministic, T3: Deterministic, T4: Deterministic, T5: Deterministic, T6: Deterministic, T7: Deterministic, T8: Deterministic, T9: Deterministic> Deterministic for (T0, T1, T2, T3, T4, T5, T6, T7, T8, T9) {

}

impl<T0: Readable, T1: Readable, T2: Readable, T3: Readable, T4: Readable, T5: Readable, T6: Readable, T7: Readable, T8: Readable, T9: Readable> Readable for (T0, T1, T2, T3, T4, T5, T6, T7, T8, T9) {
    type Model = (T0::Model, T1::Model, T2::Model, T3::Model, T4::Model, T5::Model, T6::Model, T7::Model, T8::Model, T9::Model);

    open spec fn model(&self) -> (T0::Model, T1::Model, T2::Model, T3::Model, T4::Model, T5::Model, T6::Model, T7::Model, T8::Model, T9::Model) {
        (self.0.model(), self.1.model(), self.2.model(), self.3.model(), self.4.model(), self.5.model(), self.6.model(), self.7.model(), self.8.model(), self.9.model())
    }

    open spec fn spec_read(bytes: Seq<u8>) -> Result<((T0::Model, T1::Model, T2::Model, T3::Model, T4::Model, T5::Model, T6::Model, T7::Model, T8::Model, T9::Model), nat), Error> {
        match T0::spec_read(bytes) { Err(e) => Err(e), Ok((v0, n0)) => match T1::spec_read(bytes.skip((n0) as int)) { Err(e) => Err(e), Ok((v1, n1)) => match T2::spec_read(bytes.skip((n0 + n1) as int)) { Err(e) => Err(e), Ok((v2, n2)) => match T3::spec_read(bytes.skip((n0 + n1 + n2) as int)) { Err(e) => Err(e), Ok((v3, n3)) => match T4::spec_read(bytes.skip((n0 + n1 + n2 + n3) as int)) { Err(e) => Err(e), Ok((v4, n4)) => match T5::spec_read(bytes.skip((n0 + n1 + n2 + n3 + n4) as int)) { Err(e) => Err(e), Ok((v5, n5)) => match T6::spec_read(bytes.skip((n0 + n1 + n2 + n3 + n4 + n5) as int)) { Err(e) => Err(e), Ok((v6, n6)) => match T7::spec_read(bytes.skip((n0 + n1 + n2 + n3 + n4 + n5 + n6) as int)) { Err(e) => Err(e), Ok((v7, n7)) => match T8::spec_read(bytes.skip((n0 + n1 + n2 + n3 + n4 + n5 + n6 + n7) as int)) { Err(e) => Err(e), Ok((v8, n8)) => match T9::spec_read(bytes.skip((n0 + n1 + n2 + n3 + n4 + n5 + n6 + n7 + n8) as int)) { Err(e) => Err(e), Ok((v9, n9)) => Ok(((v0, v1, v2, v3, v4, v5, v6, v7, v8, v9), n0 + n1 + n2 + n3 + n4 + n5 + n6 + n7 + n8 + n9)) } } } } } } } } } }
    }

    fn read_from(reader: &mut Reader) -> (r: Result<(T0, T1, T2, T3, T4, T5, T6, T7, T8, T9), Error>) {
        let ghost start = reader@;
        let ghost mut taken: nat = 0;
        let ghost before0 = reader@;
        let x0 = match T0::read_from(reader) {
            Ok(v) => v,
            Err(e) => return Err(e),
        };
        proof {
            let n = T0::spec_read(before0)->Ok_0.1;
            assert(start.skip(taken as int).skip(n as int) =~= start.skip((taken + n) as int));
            taken = taken + n;
        }
        let ghost before1 = reader@;
        let x1 = match T1::read_from(reader) {
            Ok(v) => v,
            Err(e) => return Err(e),
        };
        proof {
            let n = T1::spec_read(before1)->Ok_0.1;
            assert(start.skip(taken as int).skip(n as int) =~= start.skip((taken + n) as int));
            taken = taken + n;
        }
        let ghost before2 = reader@;
        let x2 = match T2::read_from(reader) {
            Ok(v) => v,
            Err(e) => return Err(e),
        };
        proof {
            let n = T2::spec_read(before2)->Ok_0.1;
            assert(start.skip(taken as int).skip(n as int) =~= start.skip((taken + n) as int));
            taken = taken + n;
        }
        let ghost before3 = reader@;
        let x3 = match T3::read_from(reader) {
            Ok(v) => v,
            Err(e) => return Err(e),
        };
        proof {
            let n = T3::spec_read(before3)->Ok_0.1;
            assert(start.skip(taken as int).skip(n as int) =~= start.skip((taken + n) as int));
            taken = taken + n;
        }
        let ghost before4 = reader@;
        let x4 = match T4::read_from(reader) {
            Ok(v) => v,
            Err(e) => return Err(e),
        };
        proof {
            let n = T4::spec_read(before4)->Ok_0.1;
            assert(start.skip(taken as int).skip(n as int) =~= start.skip((taken + n) as int));
            taken = taken + n;
        }
        let ghost before5 = reader@;
        let x5 = match T5::read_from(reader) {
            Ok(v) => v,
            Err(e) => return Err(e),
        };
        proof {
            let n = T5::spec_read(before5)->Ok_0.1;
            assert(start.skip(taken as int).skip(n as int) =~= start.skip((taken + n) as int));
            taken = taken + n;
        }
        let ghost before6 = reader@;
        let x6 = match T6::read_from(reader) {
            Ok(v) => v,
            Err(e) => return Err(e),
        };
        proof {
            let n = T6::spec_read(before6)->Ok_0.1;
            assert(start.skip(taken as int).skip(n as int) =~= start.skip((taken + n) as int));
            taken = taken + n;
        }
        let ghost before7 = reader@;
        let x7 = match T7::read_from(reader) {
            Ok(v) => v,
            Err(e) => return Err(e),
        };
        proof {
            let n = T7::spec_read(before7)->Ok_0.1;
            assert(start.skip(taken as int).skip(n as int) =~= start.skip((taken + n) as int));
            taken = taken + n;
        }
        let ghost before8 = reader@;
        let x8 = match T8::read_from(reader) {
            Ok(v) => v,
            Err(e) => return Err(e),
        };
        proof {
            let n = T8::spec_read(before8)->Ok_0.1;
            assert(start.skip(taken as int).skip(n as int) =~= start.skip((taken + n) as int));
            taken = taken + n;
        }
        let ghost before9 = reader@;
        let x9 = match T9::read_from(reader) {
            Ok(v) => v,
            Err(e) => return Err(e),
        };
        proof {
            let n = T9::spec_read(before9)->Ok_0.1;
            assert(start.skip(taken as int).skip(n as int) =~= start.skip((taken + n) as int));
            taken = taken + n;
        }
        Ok((x0, x1, x2, x3, x4, x5, x6, x7, x8, x9))
    }
}

impl<T0: Writeable, T1: Writeable, T2: Writeable, T3: Writeable, T4: Writeable, T5: Writeable, T6: Writeable, T7: Writeable, T8: Writeable, T9: Writeable> Writeable for (T0, T1, T2, T3, T4, T5, T6, T7, T8, T9) {
    open spec fn spec_write(&self) -> Result<Seq<u8>, Error> {
        match self.0.spec_write() { Err(e) => Err(e), Ok(b0) => match self.1.spec_write() { Err(e) => Err(e), Ok(b1) => match self.2.spec_write() { Err(e) => Err(e), Ok(b2) => match self.3.spec_write() { Err(e) => Err(e), Ok(b3) => match self.4.spec_write() { Err(e) => Err(e), Ok(b4) => match self.5.spec_write() { Err(e) => Err(e), Ok(b5) => match self.6.spec_write() { Err(e) => Err(e), Ok(b6) => match self.7.spec_write() { Err(e) => Err(e), Ok(b7) => match self.8.spec_write() { Err(e) => Err(e), Ok(b8) => match self.9.spec_write() { Err(e) => Err(e), Ok(b9) => Ok(b0 + b1 + b2 + b3 + b4 + b5 + b6 + b7 + b8 + b9) } } } } } } } } } }
    }

    #[verifier::spinoff_prover]
    #[verifier::rlimit(100)]
    fn write_to(&self, writer: &mut Vec<u8>) -> (r: Result<u64, Error>) {
        let ghost mut written: Seq<u8> = Seq::empty();
        let mut length: u64 = 0;
        let ghost before0 = writer@;
        let n0 = match self.0.write_to(writer) {
            Ok(n) => n,
            Err(e) => {
                proof {
                    assert(old(writer)@ =~= before0.subrange(0, old(writer)@.len() as int));
                    assert(before0 =~= writer@.subrange(0, before0.len() as int));
                    assert(old(writer)@ =~= writer@.subrange(0, old(writer)@.len() as int));
                }
                return Err(e);
            },
        };
        let total0 = writer.len();
        proof {
            let b = self.0.spec_write()->Ok_0;
            assert(old(writer)@ + written + b =~= old(writer)@ + (written + b));
            written = written + b;
        }
        length = length + n0;
        let ghost before1 = writer@;
        let n1 = match self.1.write_to(writer) {
            Ok(n) => n,
            Err(e) => {
                proof {
                    assert(old(writer)@ =~= before1.subrange(0, old(writer)@.len() as int));
                    assert(before1 =~= writer@.subrange(0, before1.len() as int));
                    assert(old(writer)@ =~= writer@.subrange(0, old(writer)@.len() as int));
                }
                return Err(e);
            },
        };
        let total1 = writer.len();
        proof {
            let b = self.1.spec_write()->Ok_0;
            assert(old(writer)@ + written + b =~= old(writer)@ + (written + b));
            written = written + b;
        }
        length = length + n1;
        let ghost before2 = writer@;
        let n2 = match self.2.write_to(writer) {
            Ok(n) => n,
            Err(e) => {
                proof {
                    assert(old(writer)@ =~= before2.subrange(0, old(writer)@.len() as int));
                    assert(before2 =~= writer@.subrange(0, before2.len() as int));
                    assert(old(writer)@ =~= writer@.subrange(0, old(writer)@.len() as int));
                }
                return Err(e);
            },
        };
        let total2 = writer.len();
        proof {
            let b = self.2.spec_write()->Ok_0;
            assert(old(writer)@ + written + b =~= old(writer)@ + (written + b));
            written = written + b;
        }
        length = length + n2;
        let ghost before3 = writer@;
        let n3 = match self.3.write_to(writer) {
            Ok(n) => n,
            Err(e) => {
                proof {
                    assert(old(writer)@ =~= before3.subrange(0, old(writer)@.len() as int));
                    assert(before3 =~= writer@.subrange(0, before3.len() as int));
                    assert(old(writer)@ =~= writer@.subrange(0, old(writer)@.len() as int));
                }
                return Err(e);
            },
        };
        let total3 = writer.len();
        proof {
            let b = self.3.spec_write()->Ok_0;
            assert(old(writer)@ + written + b =~= old(writer)@ + (written + b));
            written = written + b;
        }
        length = length + n3;
        let ghost before4 = writer@;
        let n4 = match self.4.write_to(writer) {
            Ok(n) => n,
            Err(e) => {
                proof {
                    assert(old(writer)@ =~= before4.subrange(0, old(writer)@.len() as int));
                    assert(before4 =~= writer@.subrange(0, before4.len() as int));
                    assert(old(writer)@ =~= writer@.subrange(0, old(writer)@.len() as int));
                }
                return Err(e);
            },
        };
        let total4 = writer.len();
        proof {
            let b = self.4.spec_write()->Ok_0;
            assert(old(writer)@ + written + b =~= old(writer)@ + (written + b));
            written = written + b;
        }
        length = length + n4;
        let ghost before5 = writer@;
        let n5 = match self.5.write_to(writer) {
            Ok(n) => n,
            Err(e) => {
                proof {
                    assert(old(writer)@ =~= before5.subrange(0, old(writer)@.len() as int));
                    assert(before5 =~= writer@.subrange(0, before5.len() as int));
                    assert(old(writer)@ =~= writer@.subrange(0, old(writer)@.len() as int));
                }
                return Err(e);
            },
        };
        let total5 = writer.len();
        proof {
            let b = self.5.spec_write()->Ok_0;
            assert(old(writer)@ + written + b =~= old(writer)@ + (written + b));
            written = written + b;
        }
        length = length + n5;
        let ghost before6 = writer@;
        let n6 = match self.6.write_to(writer) {
            Ok(n) => n,
            Err(e) => {
                proof {
                    assert(old(writer)@ =~= before6.subrange(0, old(writer)@.len() as int));
                    assert(before6 =~= writer@.subrange(0, before6.len() as int));
                    assert(old(writer)@ =~= writer@.subrange(0, old(writer)@.len() as int));
                }
                return Err(e);
            },
        };
        let total6 = writer.len();
        proof {
            let b = self.6.spec_write()->Ok_0;
            assert(old(writer)@ + written + b =~= old(writer)@ + (written + b));
            written = written + b;
        }
        length = length + n6;
        let ghost before7 = writer@;
        let n7 = match self.7.write_to(writer) {
            Ok(n) => n,
            Err(e) => {
                proof {
                    assert(old(writer)@ =~= before7.subrange(0, old(writer)@.len() as int));
                    assert(before7 =~= writer@.subrange(0, before7.len() as int));
                    assert(old(writer)@ =~= writer@.subrange(0, old(writer)@.len() as int));
                }
                return Err(e);
            },
        };
        let total7 = writer.len();
        proof {
            let b = self.7.spec_write()->Ok_0;
            assert(old(writer)@ + written + b =~= old(writer)@ + (written + b));
            written = written + b;
        }
        length = length + n7;
        let ghost before8 = writer@;
        let n8 = match self.8.write_to(writer) {
            Ok(n) => n,
            Err(e) => {
                proof {
                    assert(old(writer)@ =~= before8.subrange(0, old(writer)@.len() as int));
                    assert(before8 =~= writer@.subrange(0, before8.len() as int));
                    assert(old(writer)@ =~= writer@.subrange(0, old(writer)@.len() as int));
                }
                return Err(e);
            },
        };
        let total8 = writer.len();
        proof {
            let b = self.8.spec_write()->Ok_0;
            assert(old(writer)@ + written + b =~= old(writer)@ + (written + b));
            written = written + b;
        }
        length = length + n8;
        let ghost before9 = writer@;
        let n9 = match self.9.write_to(writer) {
            Ok(n) => n,
            Err(e) => {
                proof {
                    assert(old(writer)@ =~= before9.subrange(0, old(writer)@.len() as int));
                    assert(before9 =~= writer@.subrange(0, before9.len() as int));
                    assert(old(writer)@ =~= writer@.subrange(0, old(writer)@.len() as int));
                }
                return Err(e);
            },
        };
        let total9 = writer.len();
        proof {
            let b = self.9.spec_write()->Ok_0;
            assert(old(writer)@ + written + b =~= old(writer)@ + (written + b));
            written = written + b;
        }
        length = length + n9;
        Ok(length)
    }
}

impl<T0: RoundTrip, T1: RoundTrip, T2: RoundTrip, T3: RoundTrip, T4: RoundTrip, T5: RoundTrip, T6: RoundTrip, T7: RoundTrip, T8: RoundTrip, T9: RoundTrip> RoundTrip for (T0, T1, T2, T3, T4, T5, T6, T7, T8, T9) {
    open spec fn spec_encodable(&self) -> bool {
        self.0.spec_encodable() && self.1.spec_encodable() && self.2.spec_encodable() && self.3.spec_encodable() && self.4.spec_encodable() && self.5.spec_encodable() && self.6.spec_encodable() && self.7.spec_encodable() && self.8.spec_encodable() && self.9.spec_encodable()
    }

    #[verifier::spinoff_prover]
    #[verifier::rlimit(100)]
    proof fn lemma_round_trip(value: (T0, T1, T2, T3, T4, T5, T6, T7, T8, T9), rest: Seq<u8>) {
        let b0 = value.0.spec_write()->Ok_0;
        let b1 = value.1.spec_write()->Ok_0;
        let b2 = value.2.spec_write()->Ok_0;
        let b3 = value.3.spec_write()->Ok_0;
        let b4 = value.4.spec_write()->Ok_0;
        let b5 = value.5.spec_write()->Ok_0;
        let b6 = value.6.spec_write()->Ok_0;
        let b7 = value.7.spec_write()->Ok_0;
        let b8 = value.8.spec_write()->Ok_0;
        let b9 = value.9.spec_write()->Ok_0;
        T0::lemma_round_trip(value.0, b1 + b2 + b3 + b4 + b5 + b6 + b7 + b8 + b9 + rest);
        T1::lemma_round_trip(value.1, b2 + b3 + b4 + b5 + b6 + b7 + b8 + b9 + rest);
        T2::lemma_round_trip(value.2, b3 + b4 + b5 + b6 + b7 + b8 + b9 + rest);
        T3::lemma_round_trip(value.3, b4 + b5 + b6 + b7 + b8 + b9 + rest);
        T4::lemma_round_trip(value.4, b5 + b6 + b7 + b8 + b9 + rest);
        T5::lemma_round_trip(value.5, b6 + b7 + b8 + b9 + rest);
        T6::lemma_round_trip(value.6, b7 + b8 + b9 + rest);
        T7::lemma_round_trip(value.7, b8 + b9 + rest);
        T8::lemma_round_trip(value.8, b9 + rest);
        T9::lemma_round_trip(value.9, rest);
        assert(b0 + b1 + b2 + b3 + b4 + b5 + b6 + b7 + b8 + b9 + rest =~= b0 + (b1 + b2 + b3 + b4 + b5 + b6 + b7 + b8 + b9 + rest));
        assert((b0 + b1 + b2 + b3 + b4 + b5 + b6 + b7 + b8 + b9 + rest).skip((b0.len()) as int) =~= b1 + (b2 + b3 + b4 + b5 + b6 + b7 + b8 + b9 + rest));
        assert(T1::spec_read((b0 + b1 + b2 + b3 + b4 + b5 + b6 + b7 + b8 + b9 + rest).skip((b0.len()) as int)) == Ok::<(T1::Model, nat), Error>((value.1.model(), b1.len())));
        assert((b0 + b1 + b2 + b3 + b4 + b5 + b6 + b7 + b8 + b9 + rest).skip((b0.len() + b1.len()) as int) =~= b2 + (b3 + b4 + b5 + b6 + b7 + b8 + b9 + rest));
        assert(T2::spec_read((b0 + b1 + b2 + b3 + b4 + b5 + b6 + b7 + b8 + b9 + rest).skip((b0.len() + b1.len()) as int)) == Ok::<(T2::Model, nat), Error>((value.2.model(), b2.len())));
        assert((b0 + b1 + b2 + b3 + b4 + b5 + b6 + b7 + b8 + b9 + rest).skip((b0.len() + b1.len() + b2.len()) as int) =~= b3 + (b4 + b5 + b6 + b7 + b8 + b9 + rest));
        assert(T3::spec_read((b0 + b1 + b2 + b3 + b4 + b5 + b6 + b7 + b8 + b9 + rest).skip((b0.len() + b1.len() + b2.len()) as int)) == Ok::<(T3::Model, nat), Error>((value.3.model(), b3.len())));
        assert((b0 + b1 + b2 + b3 + b4 + b5 + b6 + b7 + b8 + b9 + rest).skip((b0.len() + b1.len() + b2.len() + b3.len()) as int) =~= b4 + (b5 + b6 + b7 + b8 + b9 + rest));
        assert(T4::spec_read((b0 + b1 + b2 + b3 + b4 + b5 + b6 + b7 + b8 + b9 + rest).skip((b0.len() + b1.len() + b2.len() + b3.len()) as int)) == Ok::<(T4::Model, nat), Error>((value.4.model(), b4.len())));
        assert((b0 + b1 + b2 + b3 + b4 + b5 + b6 + b7 + b8 + b9 + rest).skip((b0.len() + b1.len() + b2.len() + b3.len() + b4.len()) as int) =~= b5 + (b6 + b7 + b8 + b9 + rest));
        assert(T5::spec_read((b0 + b1 + b2 + b3 + b4 + b5 + b6 + b7 + b8 + b9 + rest).skip((b0.len() + b1.len() + b2.len() + b3.len() + b4.len()) as int)) == Ok::<(T5::Model, nat), Error>((value.5.model(), b5.len())));
        assert((b0 + b1 + b2 + b3 + b4 + b5 + b6 + b7 + b8 + b9 + rest).skip((b0.len() + b1.len() + b2.len() + b3.len() + b4.len() + b5.len()) as int) =~= b6 + (b7 + b8 + b9 + rest));
        assert(T6::spec_read((b0 + b1 + b2 + b3 + b4 + b5 + b6 + b7 + b8 + b9 + rest).skip((b0.len() + b1.len() + b2.len() + b3.len() + b4.len() + b5.len()) as int)) == Ok::<(T6::Model, nat), Error>((value.6.model(), b6.len())));
        assert((b0 + b1 + b2 + b3 + b4 + b5 + b6 + b7 + b8 + b9 + rest).skip((b0.len() + b1.len() + b2.len() + b3.len() + b4.len() + b5.len() + b6.len()) as int) =~= b7 + (b8 + b9 + rest));
        assert(T7::spec_read((b0 + b1 + b2 + b3 + b4 + b5 + b6 + b7 + b8 + b9 + rest).skip((b0.len() + b1.len() + b2.len() + b3.len() + b4.len() + b5.len() + b6.len()) as int)) == Ok::<(T7::Model, nat), Error>((value.7.model(), b7.len())));
        assert((b0 + b1 + b2 + b3 + b4 + b5 + b6 + b7 + b8 + b9 + rest).skip((b0.len() + b1.len() + b2.len() + b3.len() + b4.len() + b5.len() + b6.len() + b7.len()) as int) =~= b8 + (b9 + rest));
        assert(T8::spec_read((b0 + b1 + b2 + b3 + b4 + b5 + b6 + b7 + b8 + b9 + rest).skip((b0.len() + b1.len() + b2.len() + b3.len() + b4.len() + b5.len() + b6.len() + b7.len()) as int)) == Ok::<(T8::Model, nat), Error>((value.8.model(), b8.len())));
        assert((b0 + b1 + b2 + b3 + b4 + b5 + b6 + b7 + b8 + b9 + rest).skip((b0.len() + b1.len() + b2.len() + b3.len() + b4.len() + b5.len() + b6.len() + b7.len() + b8.len()) as int) =~= b9 + (rest));
        assert(T9::spec_read((b0 + b1 + b2 + b3 + b4 + b5 + b6 + b7 + b8 + b9 + rest).skip((b0.len() + b1.len() + b2.len() + b3.len() + b4.len() + b5.len() + b6.len() + b7.len() + b8.len()) as int)) == Ok::<(T9::Model, nat), Error>((value.9.model(), b9.len())));
    }
}


/// `char::from_u32`: the character with code point `code`, or `None` when `code` is
/// not a Unicode scalar value.
#[verifier::external_body]
fn char_from_u32(code: u32) -> (r: Option<char>)
    ensures
        r is Some <==> vstd::utf8::is_scalar(code),
        r is Some ==> r->0 as u32 == code,
{
    char::from_u32(code)
}

/// `String::from_utf8`: the string whose UTF-8 bytes are `bytes`, or `None` when they
/// are not valid UTF-8.
#[verifier::external_body]
fn string_from_utf8(bytes: Vec<u8>) -> (r: Option<String>)
    ensures
        r is Some <==> vstd::utf8::valid_utf8(bytes@),
        r is Some ==> vstd::utf8::encode_utf8(r->0@) == bytes@,
{
    String::from_utf8(bytes).ok()
}

/// `RangeInclusive::start`.
#[verifier::external_body]
fn range_inclusive_start(r: &std::ops::RangeInclusive<i64>) -> (v: i64)
    ensures
        v == r@.start,
{
    *r.start()
}

/// `RangeInclusive::end`.
#[verifier::external_body]
fn range_inclusive_end(r: &std::ops::RangeInclusive<i64>) -> (v: i64)
    ensures
        v == r@.end,
{
    *r.end()
}

impl Byte for bool {

}

impl Deterministic for bool {

}

impl Readable for bool {
    type Model = bool;

    open spec fn model(&self) -> bool {
        *self
    }

    open spec fn spec_read(bytes: Seq<u8>) -> Result<(bool, nat), Error> {
        match be_read(bytes, 1) {
            Ok((v, n)) => Ok((v != 0, n)),
            Err(e) => Err(e),
        }
    }

    fn read_from(reader: &mut Reader) -> (r: Result<bool, Error>) {
        proof {
            if old(reader)@.len() >= 1 {
                lemma_be_value_bound(old(reader)@.take(1));
                lemma_pow256_values();
            }
        }
        match read_be(reader, 1) {
            Ok(v) => Ok(v != 0),
            Err(e) => Err(e),
        }
    }
}

impl Writeable for bool {
    open spec fn spec_write(&self) -> Result<Seq<u8>, Error> {
        Ok(be_bytes(if *self { 1 } else { 0 }, 1))
    }

    fn write_to(&self, writer: &mut Vec<u8>) -> (r: Result<u64, Error>) {
        write_be(writer, if *self { 1 } else { 0 }, 1);
        proof {
            lemma_be_bytes_len(if *self { 1 } else { 0 }, 1);
        }
        Ok(1)
    }
}

impl RoundTrip for bool {
    open spec fn spec_encodable(&self) -> bool {
        true
    }

    proof fn lemma_round_trip(value: bool, rest: Seq<u8>) {
        lemma_pow256_values();
        lemma_be_read_bytes(if value { 1 } else { 0 }, 1, rest);
        lemma_be_bytes_len(if value { 1 } else { 0 }, 1);
    }
}

impl NonByte for char {

}

impl Deterministic for char {

}

impl Readable for char {
    type Model = char;

    open spec fn model(&self) -> char {
        *self
    }

    open spec fn spec_read(bytes: Seq<u8>) -> Result<(char, nat), Error> {
        match be_read(bytes, 4) {
            Ok((v, n)) => if vstd::utf8::is_scalar(v as u32) {
                Ok(((v as u32) as char, n))
            } else {
                Err(Error::InvalidCodepoint)
            },
            Err(e) => Err(e),
        }
    }

    fn read_from(reader: &mut Reader) -> (r: Result<char, Error>) {
        proof {
            if old(reader)@.len() >= 4 {
                lemma_be_value_bound(old(reader)@.take(4));
                lemma_pow256_values();
            }
        }
        match read_be(reader, 4) {
            Ok(v) => {
                let code = v as u32;
                match char_from_u32(code) {
                    Some(c) => {
                        proof {
                            vstd::utf8::char_u32_cast(c, code);
                        }
                        Ok(c)
                    },
                    None => Err(Error::InvalidCodepoint),
                }
            },
            Err(e) => Err(e),
        }
    }
}

impl Writeable for char {
    open spec fn spec_write(&self) -> Result<Seq<u8>, Error> {
        Ok(be_bytes((*self as u32) as nat, 4))
    }

    fn write_to(&self, writer: &mut Vec<u8>) -> (r: Result<u64, Error>) {
        let code = *self as u32;
        write_be(writer, code as u128, 4);
        proof {
            lemma_be_bytes_len(code as nat, 4);
        }
        Ok(4)
    }
}

impl RoundTrip for char {
    open spec fn spec_encodable(&self) -> bool {
        true
    }

    proof fn lemma_round_trip(value: char, rest: Seq<u8>) {
        let code = value as u32;
        lemma_pow256_values();
        lemma_be_read_bytes(code as nat, 4, rest);
        lemma_be_bytes_len(code as nat, 4);
        vstd::utf8::char_is_scalar(value);
        vstd::utf8::char_u32_cast(value, code);
    }
}

/// Decoding a byte string: a `u24` length, then that many bytes.
pub open spec fn read_byte_string(bytes: Seq<u8>) -> Result<(Seq<u8>, nat), Error> {
    match be_read(bytes, 3) {
        Err(e) => Err(e),
        Ok((len, h)) => if bytes.len() < h + len {
            Err(Error::UnexpectedEof)
        } else {
            Ok((bytes.subrange(h as int, (h + len) as int), h + len))
        },
    }
}

/// Reads a `u24` length and then that many bytes.
fn read_length_prefixed(reader: &mut Reader) -> (r: Result<Vec<u8>, Error>)
    ensures
        match read_byte_string(old(reader)@) {
            Ok((b, n)) => r is Ok && r->Ok_0@ == b && n <= old(reader)@.len() && final(reader)@
                == old(reader)@.skip(n as int),
            Err(e) => r == Err::<Vec<u8>, Error>(e),
        },
        final(reader).source() == old(reader).source(),
{
    let ghost start = reader@;
    let length = match read_u24(reader) {
        Ok(n) => n,
        Err(e) => return Err(e),
    };
    let ghost mid = reader@;
    let r = read_bytes(reader, length as usize);
    proof {
        assert(mid == start.skip(3));
        if mid.len() >= length {
            assert(mid.take(length as int) =~= start.subrange(3, 3 + length as int));
            assert(mid.skip(length as int) =~= start.skip(3 + length as int));
        }
    }
    r
}

/// The encoding of a byte string: `too_long` when it has more than
/// [`MAX_ARRAY_LENGTH`] bytes, else a `u24` length and the bytes.
pub open spec fn write_byte_string(bytes: Seq<u8>, too_long: Error) -> Result<Seq<u8>, Error> {
    if bytes.len() > MAX_ARRAY_LENGTH {
        Err(too_long)
    } else {
        Ok(be_bytes(bytes.len(), 3) + bytes)
    }
}

/// Writes a `u24` length and the bytes, or fails with `too_long` before writing anything.
fn write_length_prefixed(writer: &mut Vec<u8>, data: &[u8], too_long: Error) -> (r: Result<
    u64,
    Error,
>)
    ensures
        match write_byte_string(data@, too_long) {
            Ok(bytes) => r == Ok::<u64, Error>(bytes.len() as u64) && final(writer)@ == old(writer)@
                + bytes,
            Err(e) => r == Err::<u64, Error>(e) && final(writer)@ == old(writer)@,
        },
{
    let len = data.len();
    if len > MAX_ARRAY_LENGTH {
        return Err(too_long);
    }
    write_be(writer, len as u128, 3);
    let ghost mid = writer@;
    let _ = write_bytes(writer, data);
    proof {
        lemma_be_bytes_len(len as nat, 3);
        assert(old(writer)@ + be_bytes(len as nat, 3) + data@ =~= old(writer)@ + (be_bytes(
            len as nat,
            3,
        ) + data@));
    }
    Ok(len as u64 + 3)
}

/// Reading back a written byte string of at most [`MAX_ARRAY_LENGTH`] bytes.
pub proof fn lemma_byte_string_round_trip(bytes: Seq<u8>, too_long: Error, rest: Seq<u8>)
    requires
        bytes.len() <= MAX_ARRAY_LENGTH,
    ensures
        write_byte_string(bytes, too_long) is Ok,
        write_byte_string(bytes, too_long)->Ok_0.len() == bytes.len() + 3,
        read_byte_string(write_byte_string(bytes, too_long)->Ok_0 + rest) == Ok::<
            (Seq<u8>, nat),
            Error,
        >((bytes, bytes.len() + 3)),
{
    lemma_pow256_values();
    lemma_be_read_bytes(bytes.len(), 3, bytes + rest);
    lemma_be_bytes_len(bytes.len(), 3);
    let h = be_bytes(bytes.len(), 3);
    assert(h + bytes + rest =~= h + (bytes + rest));
    assert((h + bytes + rest).subrange(3, 3 + bytes.len() as int) =~= bytes);
}

impl NonByte for String {

}

impl Deterministic for String {

}

impl Readable for String {
    type Model = Seq<char>;

    open spec fn model(&self) -> Seq<char> {
        self@
    }

    open spec fn spec_read(bytes: Seq<u8>) -> Result<(Seq<char>, nat), Error> {
        match read_byte_string(bytes) {
            Err(e) => Err(e),
            Ok((b, n)) => if vstd::utf8::valid_utf8(b) {
                Ok((vstd::utf8::decode_utf8(b), n))
            } else {
                Err(Error::InvalidUtf8)
            },
        }
    }

    fn read_from(reader: &mut Reader) -> (r: Result<String, Error>) {
        let bytes = match read_length_prefixed(reader) {
            Ok(b) => b,
            Err(e) => return Err(e),
        };
        let ghost b = bytes@;
        match string_from_utf8(bytes) {
            Some(s) => {
                proof {
                    vstd::utf8::encode_utf8_decode_utf8(s@);
                }
                Ok(s)
            },
            None => Err(Error::InvalidUtf8),
        }
    }
}

impl Writeable for String {
    open spec fn spec_write(&self) -> Result<Seq<u8>, Error> {
        write_byte_string(vstd::utf8::encode_utf8(self@), Error::StringTooLong)
    }

    fn write_to(&self, writer: &mut Vec<u8>) -> (r: Result<u64, Error>) {
        write_length_prefixed(writer, self.as_str().as_bytes(), Error::StringTooLong)
    }
}

impl RoundTrip for String {
    open spec fn spec_encodable(&self) -> bool {
        vstd::utf8::encode_utf8(self@).len() <= MAX_ARRAY_LENGTH
    }

    proof fn lemma_round_trip(value: String, rest: Seq<u8>) {
        let b = vstd::utf8::encode_utf8(value@);
        lemma_byte_string_round_trip(b, Error::StringTooLong, rest);
        vstd::utf8::encode_utf8_valid_utf8(value@);
        vstd::utf8::encode_utf8_decode_utf8(value@);
    }
}

impl<'a> NonByte for &'a str {

}

impl<'a> Deterministic for &'a str {

}

impl<'a> Writeable for &'a str {
    open spec fn spec_write(&self) -> Result<Seq<u8>, Error> {
        write_byte_string(vstd::utf8::encode_utf8(self@), Error::StringTooLong)
    }

    fn write_to(&self, writer: &mut Vec<u8>) -> (r: Result<u64, Error>) {
        write_length_prefixed(writer, self.as_bytes(), Error::StringTooLong)
    }
}

impl Readable for Vec<u8> {
    type Model = Seq<u8>;

    open spec fn model(&self) -> Seq<u8> {
        self@
    }

    open spec fn spec_read(bytes: Seq<u8>) -> Result<(Seq<u8>, nat), Error> {
        read_byte_string(bytes)
    }

    fn read_from(reader: &mut Reader) -> (r: Result<Vec<u8>, Error>) {
        read_length_prefixed(reader)
    }
}

impl Writeable for Vec<u8> {
    open spec fn spec_write(&self) -> Result<Seq<u8>, Error> {
        write_byte_string(self@, Error::ArrayTooLong)
    }

    fn write_to(&self, writer: &mut Vec<u8>) -> (r: Result<u64, Error>) {
        write_length_prefixed(writer, self.as_slice(), Error::ArrayTooLong)
    }
}

impl RoundTrip for Vec<u8> {
    open spec fn spec_encodable(&self) -> bool {
        self@.len() <= MAX_ARRAY_LENGTH
    }

    proof fn lemma_round_trip(value: Vec<u8>, rest: Seq<u8>) {
        lemma_byte_string_round_trip(value@, Error::ArrayTooLong, rest);
    }
}

/// The byte of each `bool`: 1 for `true`, 0 for `false`.
pub open spec fn bool_bytes(values: Seq<bool>) -> Seq<u8> {
    Seq::new(values.len(), |i: int| if values[i] { 1u8 } else { 0u8 })
}

/// Each byte read as a `bool`: anything but 0 is `true`.
pub open spec fn bytes_bools(bytes: Seq<u8>) -> Seq<bool> {
    Seq::new(bytes.len(), |i: int| bytes[i] != 0)
}

impl Readable for Vec<bool> {
    type Model = Seq<bool>;

    open spec fn model(&self) -> Seq<bool> {
        self@
    }

    open spec fn spec_read(bytes: Seq<u8>) -> Result<(Seq<bool>, nat), Error> {
        match read_byte_string(bytes) {
            Err(e) => Err(e),
            Ok((b, n)) => Ok((bytes_bools(b), n)),
        }
    }

    fn read_from(reader: &mut Reader) -> (r: Result<Vec<bool>, Error>) {
        let bytes = match read_length_prefixed(reader) {
            Ok(b) => b,
            Err(e) => return Err(e),
        };
        let mut out: Vec<bool> = Vec::with_capacity(bytes.len());
        let mut i: usize = 0;
        while i < bytes.len()
            invariant
                i <= bytes@.len(),
                out@ == bytes_bools(bytes@.take(i as int)),
            decreases bytes@.len() - i,
        {
            out.push(bytes[i] != 0);
            i = i + 1;
            proof {
                assert(out@ =~= bytes_bools(bytes@.take(i as int)));
            }
        }
        proof {
            assert(bytes@.take(bytes@.len() as int) =~= bytes@);
        }
        Ok(out)
    }
}

impl Writeable for Vec<bool> {
    open spec fn spec_write(&self) -> Result<Seq<u8>, Error> {
        write_byte_string(bool_bytes(self@), Error::ArrayTooLong)
    }

    fn write_to(&self, writer: &mut Vec<u8>) -> (r: Result<u64, Error>) {
        let mut bytes: Vec<u8> = Vec::with_capacity(self.len());
        let mut i: usize = 0;
        while i < self.len()
            invariant
                i <= self@.len(),
                bytes@ == bool_bytes(self@.take(i as int)),
            decreases self@.len() - i,
        {
            bytes.push(if self[i] { 1u8 } else { 0u8 });
            i = i + 1;
            proof {
                assert(bytes@ =~= bool_bytes(self@.take(i as int)));
            }
        }
        proof {
            assert(self@.take(self@.len() as int) =~= self@);
        }
        write_length_prefixed(writer, bytes.as_slice(), Error::ArrayTooLong)
    }
}

impl RoundTrip for Vec<bool> {
    open spec fn spec_encodable(&self) -> bool {
        self@.len() <= MAX_ARRAY_LENGTH
    }

    proof fn lemma_round_trip(value: Vec<bool>, rest: Seq<u8>) {
        lemma_byte_string_round_trip(bool_bytes(value@), Error::ArrayTooLong, rest);
        assert(bytes_bools(bool_bytes(value@)) =~= value@);
    }
}

/// The two's-complement byte of each `i8`.
pub open spec fn i8_bytes(values: Seq<i8>) -> Seq<u8> {
    Seq::new(values.len(), |i: int| twos(values[i] as int, 0x100) as u8)
}

/// Each byte read as an `i8`.
pub open spec fn bytes_i8s(bytes: Seq<u8>) -> Seq<i8> {
    Seq::new(bytes.len(), |i: int| from_twos(bytes[i] as nat, 0x100) as i8)
}

/// The `i8` whose two's-complement byte is `b`.
fn i8_of_byte(b: u8) -> (r: i8)
    ensures
        r == from_twos(b as nat, 0x100) as i8,
{
    if b >= 0x80 {
        ((b - 0x80) as i8) + i8::MIN
    } else {
        b as i8
    }
}

/// The two's-complement byte of `v`.
fn byte_of_i8(v: i8) -> (r: u8)
    ensures
        r == twos(v as int, 0x100) as u8,
{
    if v < 0 {
        (v - i8::MIN) as u8 + 0x80
    } else {
        v as u8
    }
}

impl Readable for Vec<i8> {
    type Model = Seq<i8>;

    open spec fn model(&self) -> Seq<i8> {
        self@
    }

    open spec fn spec_read(bytes: Seq<u8>) -> Result<(Seq<i8>, nat), Error> {
        match read_byte_string(bytes) {
            Err(e) => Err(e),
            Ok((b, n)) => Ok((bytes_i8s(b), n)),
        }
    }

    fn read_from(reader: &mut Reader) -> (r: Result<Vec<i8>, Error>) {
        let bytes = match read_length_prefixed(reader) {
            Ok(b) => b,
            Err(e) => return Err(e),
        };
        let mut out: Vec<i8> = Vec::with_capacity(bytes.len());
        let mut i: usize = 0;
        while i < bytes.len()
            invariant
                i <= bytes@.len(),
                out@ == bytes_i8s(bytes@.take(i as int)),
            decreases bytes@.len() - i,
        {
            out.push(i8_of_byte(bytes[i]));
            i = i + 1;
            proof {
                assert(out@ =~= bytes_i8s(bytes@.take(i as int)));
            }
        }
        proof {
            assert(bytes@.take(bytes@.len() as int) =~= bytes@);
        }
        Ok(out)
    }
}

impl Writeable for Vec<i8> {
    open spec fn spec_write(&self) -> Result<Seq<u8>, Error> {
        write_byte_string(i8_bytes(self@), Error::ArrayTooLong)
    }

    fn write_to(&self, writer: &mut Vec<u8>) -> (r: Result<u64, Error>) {
        let mut bytes: Vec<u8> = Vec::with_capacity(self.len());
        let mut i: usize = 0;
        while i < self.len()
            invariant
                i <= self@.len(),
                bytes@ == i8_bytes(self@.take(i as int)),
            decreases self@.len() - i,
        {
            bytes.push(byte_of_i8(self[i]));
            i = i + 1;
            proof {
                assert(bytes@ =~= i8_bytes(self@.take(i as int)));
            }
        }
        proof {
            assert(self@.take(self@.len() as int) =~= self@);
        }
        write_length_prefixed(writer, bytes.as_slice(), Error::ArrayTooLong)
    }
}

impl RoundTrip for Vec<i8> {
    open spec fn spec_encodable(&self) -> bool {
        self@.len() <= MAX_ARRAY_LENGTH
    }

    proof fn lemma_round_trip(value: Vec<i8>, rest: Seq<u8>) {
        lemma_byte_string_round_trip(i8_bytes(value@), Error::ArrayTooLong, rest);
        assert forall|i: int| 0 <= i < value@.len() implies #[trigger] bytes_i8s(
            i8_bytes(value@),
        )[i] == value@[i] by {
            lemma_twos_round_trip(value@[i] as int, 0x100);
        }
        assert(bytes_i8s(i8_bytes(value@)) =~= value@);
    }
}

impl<T> NonByte for std::ops::Range<T> {

}

impl<T: Deterministic> Deterministic for std::ops::Range<T> {

}

impl Readable for std::ops::Range<i64> {
    type Model = (i64, i64);

    open spec fn model(&self) -> (i64, i64) {
        (self.start, self.end)
    }

    open spec fn spec_read(bytes: Seq<u8>) -> Result<((i64, i64), nat), Error> {
        <(i64, i64) as Readable>::spec_read(bytes)
    }

    fn read_from(reader: &mut Reader) -> (r: Result<std::ops::Range<i64>, Error>) {
        match <(i64, i64) as Readable>::read_from(reader) {
            Ok((start, end)) => Ok(start..end),
            Err(e) => Err(e),
        }
    }
}

impl Writeable for std::ops::Range<i64> {
    open spec fn spec_write(&self) -> Result<Seq<u8>, Error> {
        (self.start, self.end).spec_write()
    }

    fn write_to(&self, writer: &mut Vec<u8>) -> (r: Result<u64, Error>) {
        (self.start, self.end).write_to(writer)
    }
}

impl RoundTrip for std::ops::Range<i64> {
    open spec fn spec_encodable(&self) -> bool {
        true
    }

    proof fn lemma_round_trip(value: std::ops::Range<i64>, rest: Seq<u8>) {
        <(i64, i64) as RoundTrip>::lemma_round_trip((value.start, value.end), rest);
    }
}

impl<T> NonByte for std::ops::RangeInclusive<T> {

}

impl<T: Deterministic> Deterministic for std::ops::RangeInclusive<T> {

}

impl Readable for std::ops::RangeInclusive<i64> {
    type Model = (i64, i64);

    open spec fn model(&self) -> (i64, i64) {
        (self@.start, self@.end)
    }

    open spec fn spec_read(bytes: Seq<u8>) -> Result<((i64, i64), nat), Error> {
        <(i64, i64) as Readable>::spec_read(bytes)
    }

    fn read_from(reader: &mut Reader) -> (r: Result<std::ops::RangeInclusive<i64>, Error>) {
        match <(i64, i64) as Readable>::read_from(reader) {
            Ok((start, end)) => Ok(std::ops::RangeInclusive::new(start, end)),
            Err(e) => Err(e),
        }
    }
}

impl Writeable for std::ops::RangeInclusive<i64> {
    open spec fn spec_write(&self) -> Result<Seq<u8>, Error> {
        (self@.start, self@.end).spec_write()
    }

    fn write_to(&self, writer: &mut Vec<u8>) -> (r: Result<u64, Error>) {
        let start = range_inclusive_start(self);
        let end = range_inclusive_end(self);
        (start, end).write_to(writer)
    }
}

impl RoundTrip for std::ops::RangeInclusive<i64> {
    open spec fn spec_encodable(&self) -> bool {
        true
    }

    proof fn lemma_round_trip(value: std::ops::RangeInclusive<i64>, rest: Seq<u8>) {
        <(i64, i64) as RoundTrip>::lemma_round_trip((value@.start, value@.end), rest);
    }
}

impl<'a, T: Deterministic> Deterministic for &'a T {

}

impl<T: Deterministic> Deterministic for Box<T> {

}

impl<T: Deterministic> Deterministic for Vec<T> {

}

impl<'a, T: Deterministic> Deterministic for &'a [T] {

}

impl<T: Deterministic, const N: usize> Deterministic for [T; N] {

}


/// The encoding of a `u8` is 1 big-endian byte(s) whose number is the value
/// itself; reading takes the first 1 byte(s) to the value whose encoding they are,
/// and is an error when fewer are left.
pub proof fn lemma_u8_encoding(v: u8, bytes: Seq<u8>)
    ensures
        v.spec_write() is Ok,
        v.spec_write()->Ok_0.len() == 1,
        be_value(v.spec_write()->Ok_0) == v,
        bytes.len() < 1 ==> <u8 as Readable>::spec_read(bytes) == Err::<(u8, nat), Error>(
            Error::UnexpectedEof,
        ),
        bytes.len() >= 1 ==> <u8 as Readable>::spec_read(bytes) is Ok && <u8 as Readable>::spec_read(
            bytes,
        )->Ok_0.1 == 1 && <u8 as Readable>::spec_read(bytes)->Ok_0.0.spec_write() == Ok::<
            Seq<u8>,
            Error,
        >(bytes.take(1)),
{
    lemma_pow256_values();
    reveal_with_fuel(pow256, 2);
    lemma_be_round_trip(v as nat, 1);
    if bytes.len() >= 1 {
        let b = bytes.take(1);
        lemma_be_value_bound(b);
        lemma_be_bytes_of_value(b);
    }
}

/// The encoding of a `u16` is 2 big-endian byte(s) whose number is the value
/// itself; reading takes the first 2 byte(s) to the value whose encoding they are,
/// and is an error when fewer are left.
pub proof fn lemma_u16_encoding(v: u16, bytes: Seq<u8>)
    ensures
        v.spec_write() is Ok,
        v.spec_write()->Ok_0.len() == 2,
        be_value(v.spec_write()->Ok_0) == v,
        bytes.len() < 2 ==> <u16 as Readable>::spec_read(bytes) == Err::<(u16, nat), Error>(
            Error::UnexpectedEof,
        ),
        bytes.len() >= 2 ==> <u16 as Readable>::spec_read(bytes) is Ok && <u16 as Readable>::spec_read(
            bytes,
        )->Ok_0.1 == 2 && <u16 as Readable>::spec_read(bytes)->Ok_0.0.spec_write() == Ok::<
            Seq<u8>,
            Error,
        >(bytes.take(2)),
{
    lemma_pow256_values();
    reveal_with_fuel(pow256, 2);
    lemma_be_round_trip(v as nat, 2);
    if bytes.len() >= 2 {
        let b = bytes.take(2);
        lemma_be_value_bound(b);
        lemma_be_bytes_of_value(b);
    }
}

/// The encoding of a `u32` is 4 big-endian byte(s) whose number is the value
/// itself; reading takes the first 4 byte(s) to the value whose encoding they are,
/// and is an error when fewer are left.
pub proof fn lemma_u32_encoding(v: u32, bytes: Seq<u8>)
    ensures
        v.spec_write() is Ok,
        v.spec_write()->Ok_0.len() == 4,
        be_value(v.spec_write()->Ok_0) == v,
        bytes.len() < 4 ==> <u32 as Readable>::spec_read(bytes) == Err::<(u32, nat), Error>(
            Error::UnexpectedEof,
        ),
        bytes.len() >= 4 ==> <u32 as Readable>::spec_read(bytes) is Ok && <u32 as Readable>::spec_read(
            bytes,
        )->Ok_0.1 == 4 && <u32 as Readable>::spec_read(bytes)->Ok_0.0.spec_write() == Ok::<
            Seq<u8>,
            Error,
        >(bytes.take(4)),
{
    lemma_pow256_values();
    reveal_with_fuel(pow256, 2);
    lemma_be_round_trip(v as nat, 4);
    if bytes.len() >= 4 {
        let b = bytes.take(4);
        lemma_be_value_bound(b);
        lemma_be_bytes_of_value(b);
    }
}

/// The encoding of a `u64` is 8 big-endian byte(s) whose number is the value
/// itself; reading takes the first 8 byte(s) to the value whose encoding they are,
/// and is an error when fewer are left.
pub proof fn lemma_u64_encoding(v: u64, bytes: Seq<u8>)
    ensures
        v.spec_write() is Ok,
        v.spec_write()->Ok_0.len() == 8,
        be_value(v.spec_write()->Ok_0) == v,
        bytes.len() < 8 ==> <u64 as Readable>::spec_read(bytes) == Err::<(u64, nat), Error>(
            Error::UnexpectedEof,
        ),
        bytes.len() >= 8 ==> <u64 as Readable>::spec_read(bytes) is Ok && <u64 as Readable>::spec_read(
            bytes,
        )->Ok_0.1 == 8 && <u64 as Readable>::spec_read(bytes)->Ok_0.0.spec_write() == Ok::<
            Seq<u8>,
            Error,
        >(bytes.take(8)),
{
    lemma_pow256_values();
    reveal_with_fuel(pow256, 2);
    lemma_be_round_trip(v as nat, 8);
    if bytes.len() >= 8 {
        let b = bytes.take(8);
        lemma_be_value_bound(b);
        lemma_be_bytes_of_value(b);
    }
}

/// The encoding of a `u128` is 16 big-endian byte(s) whose number is the value
/// itself; reading takes the first 16 byte(s) to the value whose encoding they are,
/// and is an error when fewer are left.
pub proof fn lemma_u128_encoding(v: u128, bytes: Seq<u8>)
    ensures
        v.spec_write() is Ok,
        v.spec_write()->Ok_0.len() == 16,
        be_value(v.spec_write()->Ok_0) == v,
        bytes.len() < 16 ==> <u128 as Readable>::spec_read(bytes) == Err::<(u128, nat), Error>(
            Error::UnexpectedEof,
        ),
        bytes.len() >= 16 ==> <u128 as Readable>::spec_read(bytes) is Ok && <u128 as Readable>::spec_read(
            bytes,
        )->Ok_0.1 == 16 && <u128 as Readable>::spec_read(bytes)->Ok_0.0.spec_write() == Ok::<
            Seq<u8>,
            Error,
        >(bytes.take(16)),
{
    lemma_pow256_values();
    reveal_with_fuel(pow256, 2);
    lemma_be_round_trip(v as nat, 16);
    if bytes.len() >= 16 {
        let b = bytes.take(16);
        lemma_be_value_bound(b);
        lemma_be_bytes_of_value(b);
    }
}

/// The encoding of an `i8` is 1 big-endian byte(s) whose number, read as a
/// two's-complement pattern, is the value itself; reading takes the first 1
/// byte(s) to the value whose encoding they are, and is an error when fewer are
/// left.
pub proof fn lemma_i8_encoding(v: i8, bytes: Seq<u8>)
    ensures
        v.spec_write() is Ok,
        v.spec_write()->Ok_0.len() == 1,
        from_twos(be_value(v.spec_write()->Ok_0), pow256(1)) == v,
        bytes.len() < 1 ==> <i8 as Readable>::spec_read(bytes) == Err::<(i8, nat), Error>(
            Error::UnexpectedEof,
        ),
        bytes.len() >= 1 ==> <i8 as Readable>::spec_read(bytes) is Ok && <i8 as Readable>::spec_read(
            bytes,
        )->Ok_0.1 == 1 && <i8 as Readable>::spec_read(bytes)->Ok_0.0.spec_write() == Ok::<
            Seq<u8>,
            Error,
        >(bytes.take(1)),
{
    lemma_pow256_values();
    reveal_with_fuel(pow256, 2);
    lemma_twos_round_trip(v as int, pow256(1));
    lemma_be_round_trip(twos(v as int, pow256(1)), 1);
    if bytes.len() >= 1 {
        let b = bytes.take(1);
        lemma_be_value_bound(b);
        lemma_be_bytes_of_value(b);
        let x = from_twos(be_value(b), pow256(1));
        assert(twos(x, pow256(1)) == be_value(b));
    }
}

/// The encoding of an `i16` is 2 big-endian byte(s) whose number, read as a
/// two's-complement pattern, is the value itself; reading takes the first 2
/// byte(s) to the value whose encoding they are, and is an error when fewer are
/// left.
pub proof fn lemma_i16_encoding(v: i16, bytes: Seq<u8>)
    ensures
        v.spec_write() is Ok,
        v.spec_write()->Ok_0.len() == 2,
        from_twos(be_value(v.spec_write()->Ok_0), pow256(2)) == v,
        bytes.len() < 2 ==> <i16 as Readable>::spec_read(bytes) == Err::<(i16, nat), Error>(
            Error::UnexpectedEof,
        ),
        bytes.len() >= 2 ==> <i16 as Readable>::spec_read(bytes) is Ok && <i16 as Readable>::spec_read(
            bytes,
        )->Ok_0.1 == 2 && <i16 as Readable>::spec_read(bytes)->Ok_0.0.spec_write() == Ok::<
            Seq<u8>,
            Error,
        >(bytes.take(2)),
{
    lemma_pow256_values();
    reveal_with_fuel(pow256, 2);
    lemma_twos_round_trip(v as int, pow256(2));
    lemma_be_round_trip(twos(v as int, pow256(2)), 2);
    if bytes.len() >= 2 {
        let b = bytes.take(2);
        lemma_be_value_bound(b);
        lemma_be_bytes_of_value(b);
        let x = from_twos(be_value(b), pow256(2));
        assert(twos(x, pow256(2)) == be_value(b));
    }
}

/// The encoding of an `i32` is 4 big-endian byte(s) whose number, read as a
/// two's-complement pattern, is the value itself; reading takes the first 4
/// byte(s) to the value whose encoding they are, and is an error when fewer are
/// left.
pub proof fn lemma_i32_encoding(v: i32, bytes: Seq<u8>)
    ensures
        v.spec_write() is Ok,
        v.spec_write()->Ok_0.len() == 4,
        from_twos(be_value(v.spec_write()->Ok_0), pow256(4)) == v,
        bytes.len() < 4 ==> <i32 as Readable>::spec_read(bytes) == Err::<(i32, nat), Error>(
            Error::UnexpectedEof,
        ),
        bytes.len() >= 4 ==> <i32 as Readable>::spec_read(bytes) is Ok && <i32 as Readable>::spec_read(
            bytes,
        )->Ok_0.1 == 4 && <i32 as Readable>::spec_read(bytes)->Ok_0.0.spec_write() == Ok::<
            Seq<u8>,
            Error,
        >(bytes.take(4)),
{
    lemma_pow256_values();
    reveal_with_fuel(pow256, 2);
    lemma_twos_round_trip(v as int, pow256(4));
    lemma_be_round_trip(twos(v as int, pow256(4)), 4);
    if bytes.len() >= 4 {
        let b = bytes.take(4);
        lemma_be_value_bound(b);
        lemma_be_bytes_of_value(b);
        let x = from_twos(be_value(b), pow256(4));
        assert(twos(x, pow256(4)) == be_value(b));
    }
}

/// The encoding of an `i64` is 8 big-endian byte(s) whose number, read as a
/// two's-complement pattern, is the value itself; reading takes the first 8
/// byte(s) to the value whose encoding they are, and is an error when fewer are
/// left.
pub proof fn lemma_i64_encoding(v: i64, bytes: Seq<u8>)
    ensures
        v.spec_write() is Ok,
        v.spec_write()->Ok_0.len() == 8,
        from_twos(be_value(v.spec_write()->Ok_0), pow256(8)) == v,
        bytes.len() < 8 ==> <i64 as Readable>::spec_read(bytes) == Err::<(i64, nat), Error>(
            Error::UnexpectedEof,
        ),
        bytes.len() >= 8 ==> <i64 as Readable>::spec_read(bytes) is Ok && <i64 as Readable>::spec_read(
            bytes,
        )->Ok_0.1 == 8 && <i64 as Readable>::spec_read(bytes)->Ok_0.0.spec_write() == Ok::<
            Seq<u8>,
            Error,
        >(bytes.take(8)),
{
    lemma_pow256_values();
    reveal_with_fuel(pow256, 2);
    lemma_twos_round_trip(v as int, pow256(8));
    lemma_be_round_trip(twos(v as int, pow256(8)), 8);
    if bytes.len() >= 8 {
        let b = bytes.take(8);
        lemma_be_value_bound(b);
        lemma_be_bytes_of_value(b);
        let x = from_twos(be_value(b), pow256(8));
        assert(twos(x, pow256(8)) == be_value(b));
    }
}

/// The encoding of an `i128` is 16 big-endian byte(s) whose number, read as a
/// two's-complement pattern, is the value itself; reading takes the first 16
/// byte(s) to the value whose encoding they are, and is an error when fewer are
/// left.
pub proof fn lemma_i128_encoding(v: i128, bytes: Seq<u8>)
    ensures
        v.spec_write() is Ok,
        v.spec_write()->Ok_0.len() == 16,
        from_twos(be_value(v.spec_write()->Ok_0), pow256(16)) == v,
        bytes.len() < 16 ==> <i128 as Readable>::spec_read(bytes) == Err::<(i128, nat), Error>(
            Error::UnexpectedEof,
        ),
        bytes.len() >= 16 ==> <i128 as Readable>::spec_read(bytes) is Ok && <i128 as Readable>::spec_read(
            bytes,
        )->Ok_0.1 == 16 && <i128 as Readable>::spec_read(bytes)->Ok_0.0.spec_write() == Ok::<
            Seq<u8>,
            Error,
        >(bytes.take(16)),
{
    lemma_pow256_values();
    reveal_with_fuel(pow256, 2);
    lemma_twos_round_trip(v as int, pow256(16));
    lemma_be_round_trip(twos(v as int, pow256(16)), 16);
    if bytes.len() >= 16 {
        let b = bytes.take(16);
        lemma_be_value_bound(b);
        lemma_be_bytes_of_value(b);
        let x = from_twos(be_value(b), pow256(16));
        assert(twos(x, pow256(16)) == be_value(b));
    }
}


/// A `bool` is written as one byte, 1 for `true` and 0 for `false`, and a byte
/// reads as `true` exactly when it is not 0.
pub proof fn lemma_bool_encoding(v: bool, bytes: Seq<u8>)
    ensures
        v.spec_write() == Ok::<Seq<u8>, Error>(seq![if v { 1u8 } else { 0u8 }]),
        bytes.len() >= 1 ==> <bool as Readable>::spec_read(bytes) == Ok::<(bool, nat), Error>(
            (bytes[0] != 0, 1),
        ),
        bytes.len() < 1 ==> <bool as Readable>::spec_read(bytes) == Err::<(bool, nat), Error>(
            Error::UnexpectedEof,
        ),
{
    lemma_pow256_values();
    lemma_be_round_trip(if v { 1 } else { 0 }, 1);
    lemma_be_bytes_of_value(seq![if v { 1u8 } else { 0u8 }]);
    let one = seq![if v { 1u8 } else { 0u8 }];
    assert(one.drop_last() =~= Seq::<u8>::empty());
    assert(be_value(Seq::<u8>::empty()) == 0);
    assert(be_value(one) == if v { 1nat } else { 0nat });
    if bytes.len() >= 1 {
        let b = bytes.take(1);
        assert(b.drop_last() =~= Seq::<u8>::empty());
        assert(be_value(Seq::<u8>::empty()) == 0);
        assert(be_value(b) == b[0] as nat);
    }
}

/// A `char` is written as the four big-endian bytes of its code point; four bytes
/// read back as the character whose encoding they are, or as an invalid code point
/// when their number is not a Unicode scalar value.
pub proof fn lemma_char_encoding(v: char, bytes: Seq<u8>)
    ensures
        v.spec_write() is Ok,
        v.spec_write()->Ok_0.len() == 4,
        be_value(v.spec_write()->Ok_0) == v as u32,
        bytes.len() < 4 ==> <char as Readable>::spec_read(bytes) == Err::<(char, nat), Error>(
            Error::UnexpectedEof,
        ),
        bytes.len() >= 4 ==> match <char as Readable>::spec_read(bytes) {
            Ok((c, n)) => n == 4 && c.spec_write() == Ok::<Seq<u8>, Error>(bytes.take(4)),
            Err(e) => e == Error::InvalidCodepoint && !vstd::utf8::is_scalar(be_value(bytes.take(4)) as u32),
        },
{
    lemma_pow256_values();
    lemma_be_round_trip((v as u32) as nat, 4);
    if bytes.len() >= 4 {
        let b = bytes.take(4);
        lemma_be_value_bound(b);
        lemma_be_bytes_of_value(b);
    }
}

} // verus!
