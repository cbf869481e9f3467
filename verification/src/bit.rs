use vstd::prelude::*;
use std::ops::Range;
use vstd::std_specs::bits::{
    group_bits_axioms, u8_leading_zeros, u16_leading_zeros, u32_leading_zeros, u64_leading_zeros,
};

verus! {

broadcast use group_bits_axioms;

/// The number of bits of an integer type.
pub trait BitSize {
    /// The number of bits.
    spec fn spec_bit_size() -> u32;

    /// The number of bits.
    fn bit_size() -> (r: u32)
        ensures
            r == Self::spec_bit_size(),
    ;
}

/// The number of bits needed to write a value: its highest set bit's position plus one.
pub trait BitLength: BitSize + Sized {
    /// The number of bits needed to write `self`.
    spec fn spec_bit_length(self) -> u32;

    /// The number of bits needed to write `self`: the bit size minus the
    /// leading zeros.
    fn bit_length(self) -> (r: u32)
        ensures
            r == self.spec_bit_length(),
    ;
}

/// A value that names a bit position; it converts to `u32` as `as` does.
pub trait ShiftIndex: Copy {
    /// The bit position.
    spec fn spec_shift_index(self) -> u32;

    /// The bit position, converted to `u32`.
    fn shift_index(self) -> (r: u32)
        ensures
            r == self.spec_shift_index(),
    ;
}

/// The number of bits covered by a range of bit positions (zero when it is empty).
pub open spec fn range_len(start: u32, end: u32) -> u32 {
    if end > start {
        (end - start) as u32
    } else {
        0
    }
}

fn mask_len(mask: &Range<u32>) -> (r: u32)
    ensures
        r == range_len(mask.start, mask.end),
{
    if mask.end > mask.start {
        mask.end - mask.start
    } else {
        0
    }
}

/// Setting and clearing bits and ranges of bits.
pub trait SetBit: BitSize + Sized {
    /// `self` with bit `index` set to `on`; unchanged when `index` is not below the bit size.
    spec fn spec_set_bit(self, index: u32, on: bool) -> Self;

    /// `self` with the bits of the range `start..end` replaced by the low bits of `value`.
    spec fn spec_set_bitmask(self, start: u32, end: u32, value: Self) -> Self;

    /// `self` with the bits of the range `start..end` cleared.
    spec fn spec_delete_bitmask(self, start: u32, end: u32) -> Self;

    /// Sets bit `index` to `on`.
    fn set_bit<I: ShiftIndex>(self, index: I, on: bool) -> (r: Self)
        ensures
            r == self.spec_set_bit(index.spec_shift_index(), on),
    ;

    /// Sets bit `index`.
    fn add_bit<I: ShiftIndex>(self, index: I) -> (r: Self)
        ensures
            r == self.spec_set_bit(index.spec_shift_index(), true),
    ;

    /// Clears bit `index`.
    fn remove_bit<I: ShiftIndex>(self, index: I) -> (r: Self)
        ensures
            r == self.spec_set_bit(index.spec_shift_index(), false),
    ;

    /// Replaces the bits of `mask` by the low bits of `value`.
    fn set_bitmask(self, mask: Range<u32>, value: Self) -> (r: Self)
        requires
            mask.start < Self::spec_bit_size(),
        ensures
            r == self.spec_set_bitmask(mask.start, mask.end, value),
    ;

    /// Clears the bits of `mask`.
    fn delete_bitmask(self, mask: Range<u32>) -> (r: Self)
        ensures
            r == self.spec_delete_bitmask(mask.start, mask.end),
    ;
}

/// Reading bits and ranges of bits.
pub trait GetBit: BitSize + Sized {
    /// Whether bit `index` is set; false when `index` is not below the bit size.
    spec fn spec_get_bit(self, index: u32) -> bool;

    /// The bits of the range `start..end`, shifted down to bit 0.
    spec fn spec_get_bitmask(self, start: u32, end: u32) -> Self;

    /// The value whose set bits are the range `start..end`.
    spec fn spec_bitmask_range(start: u32, end: u32) -> Self;

    /// Whether bit `index` is set.
    fn get_bit<I: ShiftIndex>(self, index: I) -> (r: bool)
        ensures
            r == self.spec_get_bit(index.spec_shift_index()),
    ;

    /// The bits of `mask`, shifted down to bit 0.
    fn get_bitmask(self, mask: Range<u32>) -> (r: Self)
        ensures
            r == self.spec_get_bitmask(mask.start, mask.end),
    ;

    /// The value whose set bits are those of `mask`.
    fn bitmask_range(mask: Range<u32>) -> (r: Self)
        ensures
            r == Self::spec_bitmask_range(mask.start, mask.end),
    ;
}

/// Flipping single bits.
pub trait InvertBit: BitSize + Sized {
    /// `self` with bit `index` (taken modulo the bit size) flipped.
    spec fn spec_invert_bit(self, index: u32) -> Self;

    /// Flips bit `index`, taken modulo the bit size.
    fn invert_bit<I: ShiftIndex>(self, index: I) -> (r: Self)
        ensures
            r == self.spec_invert_bit(index.spec_shift_index()),
    ;
}

/// An item of a list of bit positions.
pub trait MoveBitsIteratorItem: Copy {
    /// The position as `usize`.
    spec fn spec_translate(self) -> usize;

    /// The position as `usize`.
    fn translate(self) -> (r: usize)
        ensures
            r == self.spec_translate(),
    ;
}

/// The value after moving bits: each position `k` below `count`, in turn, takes the
/// bit found at `indices[k]` in the value as it stands after the earlier positions.
pub open spec fn moved_bits<T: GetBit + SetBit>(value: T, indices: Seq<usize>, count: nat) -> T
    decreases count,
{
    if count == 0 {
        value
    } else {
        let prev = moved_bits(value, indices, (count - 1) as nat);
        prev.spec_set_bit((count - 1) as u32, prev.spec_get_bit(indices[count - 1] as u32))
    }
}

/// The positions named by a list of bit-position items.
pub open spec fn item_positions<I: MoveBitsIteratorItem>(items: Seq<I>) -> Seq<usize> {
    Seq::new(items.len(), |i: int| items[i].spec_translate())
}

/// Rearranging the bits of a value by a list of source positions.
pub trait MoveBits: Sized {
    /// The value after bit `k` takes the bit at `indices[k]`, for each `k` in turn below
    /// both the number of indices and the bit size.
    spec fn spec_move_bits(self, indices: Seq<usize>) -> Self;

    /// Bit `k` takes the bit at position `new_indices[k]`, for each `k` in turn.
    fn move_bits<I: MoveBitsIteratorItem>(self, new_indices: &[I]) -> (r: Self)
        ensures
            r == self.spec_move_bits(item_positions(new_indices@)),
    ;

    /// Like [`MoveBits::move_bits`], with the positions listed from the last bit to the first.
    fn move_bits_rev<I: MoveBitsIteratorItem>(self, new_indices: &[I]) -> (r: Self)
        ensures
            r == self.spec_move_bits(item_positions(new_indices@).reverse()),
    ;
}

impl<T: BitSize + GetBit + SetBit + Copy> MoveBits for T {
    open spec fn spec_move_bits(self, indices: Seq<usize>) -> T {
        moved_bits(
            self,
            indices,
            if indices.len() < T::spec_bit_size() {
                indices.len()
            } else {
                T::spec_bit_size() as nat
            },
        )
    }

    fn move_bits<I: MoveBitsIteratorItem>(self, new_indices: &[I]) -> (r: T) {
        let mut positions: Vec<usize> = Vec::with_capacity(new_indices.len());
        let mut i: usize = 0;
        while i < new_indices.len()
            invariant
                i <= new_indices@.len(),
                positions@ == item_positions(new_indices@).take(i as int),
            decreases new_indices@.len() - i,
        {
            positions.push(new_indices[i].translate());
            i = i + 1;
            proof {
                assert(positions@ =~= item_positions(new_indices@).take(i as int));
            }
        }
        proof {
            assert(positions@ =~= item_positions(new_indices@));
        }
        move_positions(self, &positions)
    }

    fn move_bits_rev<I: MoveBitsIteratorItem>(self, new_indices: &[I]) -> (r: T) {
        let n = new_indices.len();
        let mut positions: Vec<usize> = Vec::with_capacity(n);
        let mut i: usize = 0;
        while i < n
            invariant
                i <= n == new_indices@.len(),
                positions@ == item_positions(new_indices@).reverse().take(i as int),
            decreases n - i,
        {
            positions.push(new_indices[n - 1 - i].translate());
            i = i + 1;
            proof {
                assert(positions@ =~= item_positions(new_indices@).reverse().take(i as int));
            }
        }
        proof {
            assert(positions@ =~= item_positions(new_indices@).reverse());
        }
        move_positions(self, &positions)
    }
}

/// Bit `k` takes the bit at `positions[k]`, for each `k` in turn below the bit size.
fn move_positions<T: BitSize + GetBit + SetBit + Copy>(value: T, positions: &Vec<usize>) -> (r: T)
    ensures
        r == value.spec_move_bits(positions@),
{
    let size = T::bit_size();
    let count: usize = if positions.len() < size as usize {
        positions.len()
    } else {
        size as usize
    };
    let mut acc = value;
    let mut k: usize = 0;
    while k < count
        invariant
            k <= count,
            count == (if positions@.len() < T::spec_bit_size() {
                positions@.len()
            } else {
                T::spec_bit_size() as nat
            }),
            count <= T::spec_bit_size(),
            acc == moved_bits(value, positions@, k as nat),
        decreases count - k,
    {
        let on = acc.get_bit(positions[k]);
        acc = acc.set_bit(k, on);
        k = k + 1;
    }
    acc
}

impl ShiftIndex for u8 {
    open spec fn spec_shift_index(self) -> u32 {
        self as u32
    }

    fn shift_index(self) -> (r: u32) {
        self as u32
    }
}

impl MoveBitsIteratorItem for u8 {
    open spec fn spec_translate(self) -> usize {
        self as usize
    }

    fn translate(self) -> (r: usize) {
        self as usize
    }
}

impl ShiftIndex for u16 {
    open spec fn spec_shift_index(self) -> u32 {
        self as u32
    }

    fn shift_index(self) -> (r: u32) {
        self as u32
    }
}

impl MoveBitsIteratorItem for u16 {
    open spec fn spec_translate(self) -> usize {
        self as usize
    }

    fn translate(self) -> (r: usize) {
        self as usize
    }
}

impl ShiftIndex for u32 {
    open spec fn spec_shift_index(self) -> u32 {
        self as u32
    }

    fn shift_index(self) -> (r: u32) {
        self as u32
    }
}

impl MoveBitsIteratorItem for u32 {
    open spec fn spec_translate(self) -> usize {
        self as usize
    }

    fn translate(self) -> (r: usize) {
        self as usize
    }
}

impl ShiftIndex for u64 {
    open spec fn spec_shift_index(self) -> u32 {
        self as u32
    }

    fn shift_index(self) -> (r: u32) {
        self as u32
    }
}

impl MoveBitsIteratorItem for u64 {
    open spec fn spec_translate(self) -> usize {
        self as usize
    }

    fn translate(self) -> (r: usize) {
        self as usize
    }
}

impl ShiftIndex for usize {
    open spec fn spec_shift_index(self) -> u32 {
        self as u32
    }

    fn shift_index(self) -> (r: u32) {
        self as u32
    }
}

impl MoveBitsIteratorItem for usize {
    open spec fn spec_translate(self) -> usize {
        self
    }

    fn translate(self) -> (r: usize) {
        self
    }
}

impl ShiftIndex for i32 {
    open spec fn spec_shift_index(self) -> u32 {
        self as u32
    }

    fn shift_index(self) -> (r: u32) {
        self as u32
    }
}

impl BitSize for u8 {
    open spec fn spec_bit_size() -> u32 {
        8
    }

    fn bit_size() -> (r: u32) {
        8
    }
}

proof fn lemma_u8_one_shifted(k: u8)
    by (bit_vector)
    requires
        k < 8,
    ensures
        1u8 << k >= 1,
{
}

impl BitLength for u8 {
    open spec fn spec_bit_length(self) -> u32 {
        (8 - u8_leading_zeros(self)) as u32
    }

    fn bit_length(self) -> (r: u32) {
        8 - self.leading_zeros()
    }
}

/// The `u8` whose set bits are `len` bits starting at bit `start` (both
/// taken modulo the bit size, as a wrapping shift takes them), or from
/// `start` up when `len` reaches the bit size.
pub open spec fn u8_range_mask(start: u32, len: u32) -> u8 {
    if len >= 8 {
        u8::MAX << ((start % 8) as u8)
    } else {
        ((((1u8 << (len as u8)) - 1) as u8) << ((start % 8) as u8)) as u8
    }
}

fn u8_range_mask_exec(start: u32, len: u32) -> (r: u8)
    ensures
        r == u8_range_mask(start, len),
{
    if len >= 8 {
        u8::MAX << ((start % 8) as u8)
    } else {
        let one_shifted: u8 = 1u8 << (len as u8);
        proof {
            lemma_u8_one_shifted(len as u8);
        }
        (one_shifted - 1) << ((start % 8) as u8)
    }
}

impl SetBit for u8 {
    open spec fn spec_set_bit(self, index: u32, on: bool) -> u8 {
        if index < 8 {
            if on {
                self | (1u8 << (index as u8))
            } else {
                self & !(1u8 << (index as u8))
            }
        } else {
            self
        }
    }

    open spec fn spec_set_bitmask(self, start: u32, end: u32, value: u8) -> u8 {
        let len = range_len(start, end);
        let size_mask: u8 = if len >= 8 {
            u8::MAX
        } else {
            ((1u8 << (len as u8)) - 1) as u8
        };
        (self & !u8_range_mask(start, len)) | ((value & size_mask) << (start as u8))
    }

    open spec fn spec_delete_bitmask(self, start: u32, end: u32) -> u8 {
        self & !u8_range_mask(start, range_len(start, end))
    }

    fn set_bit<I: ShiftIndex>(self, index: I, on: bool) -> (r: u8) {
        let index = index.shift_index();
        if index < 8 {
            let mask: u8 = 1u8 << (index as u8);
            if on {
                self | mask
            } else {
                self & !mask
            }
        } else {
            self
        }
    }

    fn add_bit<I: ShiftIndex>(self, index: I) -> (r: u8) {
        let index = index.shift_index();
        if index < 8 {
            self | (1u8 << (index as u8))
        } else {
            self
        }
    }

    fn remove_bit<I: ShiftIndex>(self, index: I) -> (r: u8) {
        let index = index.shift_index();
        if index < 8 {
            self & !(1u8 << (index as u8))
        } else {
            self
        }
    }

    fn set_bitmask(self, mask: Range<u32>, value: u8) -> (r: u8) {
        let len = mask_len(&mask);
        let bitmask = u8_range_mask_exec(mask.start, len);
        let size_mask: u8 = if len >= 8 {
            u8::MAX
        } else {
            let one_shifted: u8 = 1u8 << (len as u8);
            proof {
                lemma_u8_one_shifted(len as u8);
            }
            one_shifted - 1
        };
        let delete = self & !bitmask;
        let value = value & size_mask;
        delete | value << (mask.start as u8)
    }

    fn delete_bitmask(self, mask: Range<u32>) -> (r: u8) {
        let len = mask_len(&mask);
        let bitmask = u8_range_mask_exec(mask.start, len);
        self & !bitmask
    }
}

impl GetBit for u8 {
    open spec fn spec_get_bit(self, index: u32) -> bool {
        index < 8 && (self & (1u8 << (index as u8))) != 0
    }

    open spec fn spec_get_bitmask(self, start: u32, end: u32) -> u8 {
        (self & u8_range_mask(start, range_len(start, end))) >> ((start % 8) as u8)
    }

    open spec fn spec_bitmask_range(start: u32, end: u32) -> u8 {
        let len = range_len(start, end);
        if len == 8 {
            u8::MAX << ((start % 8) as u8)
        } else {
            ((((1u8 << ((len % 8) as u8)) - 1) as u8) << ((start % 8) as u8)) as u8
        }
    }

    fn get_bit<I: ShiftIndex>(self, index: I) -> (r: bool) {
        let index = index.shift_index();
        if index < 8 {
            (self & (1u8 << (index as u8))) != 0
        } else {
            false
        }
    }

    fn get_bitmask(self, mask: Range<u32>) -> (r: u8) {
        let len = mask_len(&mask);
        let bitmask = u8_range_mask_exec(mask.start, len);
        (self & bitmask) >> ((mask.start % 8) as u8)
    }

    fn bitmask_range(mask: Range<u32>) -> (r: u8) {
        let len = mask_len(&mask);
        if len == 8 {
            u8::MAX << ((mask.start % 8) as u8)
        } else {
            let one_shifted: u8 = 1u8 << ((len % 8) as u8);
            proof {
                lemma_u8_one_shifted((len % 8) as u8);
            }
            (one_shifted - 1) << ((mask.start % 8) as u8)
        }
    }
}

impl InvertBit for u8 {
    open spec fn spec_invert_bit(self, index: u32) -> u8 {
        self ^ (1u8 << ((index % 8) as u8))
    }

    fn invert_bit<I: ShiftIndex>(self, index: I) -> (r: u8) {
        let index = index.shift_index();
        self ^ (1u8 << ((index % 8) as u8))
    }
}

impl BitSize for u16 {
    open spec fn spec_bit_size() -> u32 {
        16
    }

    fn bit_size() -> (r: u32) {
        16
    }
}

proof fn lemma_u16_one_shifted(k: u16)
    by (bit_vector)
    requires
        k < 16,
    ensures
        1u16 << k >= 1,
{
}

impl BitLength for u16 {
    open spec fn spec_bit_length(self) -> u32 {
        (16 - u16_leading_zeros(self)) as u32
    }

    fn bit_length(self) -> (r: u32) {
        16 - self.leading_zeros()
    }
}

/// The `u16` whose set bits are `len` bits starting at bit `start` (both
/// taken modulo the bit size, as a wrapping shift takes them), or from
/// `start` up when `len` reaches the bit size.
pub open spec fn u16_range_mask(start: u32, len: u32) -> u16 {
    if len >= 16 {
        u16::MAX << ((start % 16) as u16)
    } else {
        ((((1u16 << (len as u16)) - 1) as u16) << ((start % 16) as u16)) as u16
    }
}

fn u16_range_mask_exec(start: u32, len: u32) -> (r: u16)
    ensures
        r == u16_range_mask(start, len),
{
    if len >= 16 {
        u16::MAX << ((start % 16) as u16)
    } else {
        let one_shifted: u16 = 1u16 << (len as u16);
        proof {
            lemma_u16_one_shifted(len as u16);
        }
        (one_shifted - 1) << ((start % 16) as u16)
    }
}

impl SetBit for u16 {
    open spec fn spec_set_bit(self, index: u32, on: bool) -> u16 {
        if index < 16 {
            if on {
                self | (1u16 << (index as u16))
            } else {
                self & !(1u16 << (index as u16))
            }
        } else {
            self
        }
    }

    open spec fn spec_set_bitmask(self, start: u32, end: u32, value: u16) -> u16 {
        let len = range_len(start, end);
        let size_mask: u16 = if len >= 16 {
            u16::MAX
        } else {
            ((1u16 << (len as u16)) - 1) as u16
        };
        (self & !u16_range_mask(start, len)) | ((value & size_mask) << (start as u16))
    }

    open spec fn spec_delete_bitmask(self, start: u32, end: u32) -> u16 {
        self & !u16_range_mask(start, range_len(start, end))
    }

    fn set_bit<I: ShiftIndex>(self, index: I, on: bool) -> (r: u16) {
        let index = index.shift_index();
        if index < 16 {
            let mask: u16 = 1u16 << (index as u16);
            if on {
                self | mask
            } else {
                self & !mask
            }
        } else {
            self
        }
    }

    fn add_bit<I: ShiftIndex>(self, index: I) -> (r: u16) {
        let index = index.shift_index();
        if index < 16 {
            self | (1u16 << (index as u16))
        } else {
            self
        }
    }

    fn remove_bit<I: ShiftIndex>(self, index: I) -> (r: u16) {
        let index = index.shift_index();
        if index < 16 {
            self & !(1u16 << (index as u16))
        } else {
            self
        }
    }

    fn set_bitmask(self, mask: Range<u32>, value: u16) -> (r: u16) {
        let len = mask_len(&mask);
        let bitmask = u16_range_mask_exec(mask.start, len);
        let size_mask: u16 = if len >= 16 {
            u16::MAX
        } else {
            let one_shifted: u16 = 1u16 << (len as u16);
            proof {
                lemma_u16_one_shifted(len as u16);
            }
            one_shifted - 1
        };
        let delete = self & !bitmask;
        let value = value & size_mask;
        delete | value << (mask.start as u16)
    }

    fn delete_bitmask(self, mask: Range<u32>) -> (r: u16) {
        let len = mask_len(&mask);
        let bitmask = u16_range_mask_exec(mask.start, len);
        self & !bitmask
    }
}

impl GetBit for u16 {
    open spec fn spec_get_bit(self, index: u32) -> bool {
        index < 16 && (self & (1u16 << (index as u16))) != 0
    }

    open spec fn spec_get_bitmask(self, start: u32, end: u32) -> u16 {
        (self & u16_range_mask(start, range_len(start, end))) >> ((start % 16) as u16)
    }

    open spec fn spec_bitmask_range(start: u32, end: u32) -> u16 {
        let len = range_len(start, end);
        if len == 16 {
            u16::MAX << ((start % 16) as u16)
        } else {
            ((((1u16 << ((len % 16) as u16)) - 1) as u16) << ((start % 16) as u16)) as u16
        }
    }

    fn get_bit<I: ShiftIndex>(self, index: I) -> (r: bool) {
        let index = index.shift_index();
        if index < 16 {
            (self & (1u16 << (index as u16))) != 0
        } else {
            false
        }
    }

    fn get_bitmask(self, mask: Range<u32>) -> (r: u16) {
        let len = mask_len(&mask);
        let bitmask = u16_range_mask_exec(mask.start, len);
        (self & bitmask) >> ((mask.start % 16) as u16)
    }

    fn bitmask_range(mask: Range<u32>) -> (r: u16) {
        let len = mask_len(&mask);
        if len == 16 {
            u16::MAX << ((mask.start % 16) as u16)
        } else {
            let one_shifted: u16 = 1u16 << ((len % 16) as u16);
            proof {
                lemma_u16_one_shifted((len % 16) as u16);
            }
            (one_shifted - 1) << ((mask.start % 16) as u16)
        }
    }
}

impl InvertBit for u16 {
    open spec fn spec_invert_bit(self, index: u32) -> u16 {
        self ^ (1u16 << ((index % 16) as u16))
    }

    fn invert_bit<I: ShiftIndex>(self, index: I) -> (r: u16) {
        let index = index.shift_index();
        self ^ (1u16 << ((index % 16) as u16))
    }
}

impl BitSize for u32 {
    open spec fn spec_bit_size() -> u32 {
        32
    }

    fn bit_size() -> (r: u32) {
        32
    }
}

proof fn lemma_u32_one_shifted(k: u32)
    by (bit_vector)
    requires
        k < 32,
    ensures
        1u32 << k >= 1,
{
}

impl BitLength for u32 {
    open spec fn spec_bit_length(self) -> u32 {
        (32 - u32_leading_zeros(self)) as u32
    }

    fn bit_length(self) -> (r: u32) {
        32 - self.leading_zeros()
    }
}

/// The `u32` whose set bits are `len` bits starting at bit `start` (both
/// taken modulo the bit size, as a wrapping shift takes them), or from
/// `start` up when `len` reaches the bit size.
pub open spec fn u32_range_mask(start: u32, len: u32) -> u32 {
    if len >= 32 {
        u32::MAX << ((start % 32) as u32)
    } else {
        ((((1u32 << (len as u32)) - 1) as u32) << ((start % 32) as u32)) as u32
    }
}

fn u32_range_mask_exec(start: u32, len: u32) -> (r: u32)
    ensures
        r == u32_range_mask(start, len),
{
    if len >= 32 {
        u32::MAX << ((start % 32) as u32)
    } else {
        let one_shifted: u32 = 1u32 << (len as u32);
        proof {
            lemma_u32_one_shifted(len as u32);
        }
        (one_shifted - 1) << ((start % 32) as u32)
    }
}

impl SetBit for u32 {
    open spec fn spec_set_bit(self, index: u32, on: bool) -> u32 {
        if index < 32 {
            if on {
                self | (1u32 << (index as u32))
            } else {
                self & !(1u32 << (index as u32))
            }
        } else {
            self
        }
    }

    open spec fn spec_set_bitmask(self, start: u32, end: u32, value: u32) -> u32 {
        let len = range_len(start, end);
        let size_mask: u32 = if len >= 32 {
            u32::MAX
        } else {
            ((1u32 << (len as u32)) - 1) as u32
        };
        (self & !u32_range_mask(start, len)) | ((value & size_mask) << (start as u32))
    }

    open spec fn spec_delete_bitmask(self, start: u32, end: u32) -> u32 {
        self & !u32_range_mask(start, range_len(start, end))
    }

    fn set_bit<I: ShiftIndex>(self, index: I, on: bool) -> (r: u32) {
        let index = index.shift_index();
        if index < 32 {
            let mask: u32 = 1u32 << (index as u32);
            if on {
                self | mask
            } else {
                self & !mask
            }
        } else {
            self
        }
    }

    fn add_bit<I: ShiftIndex>(self, index: I) -> (r: u32) {
        let index = index.shift_index();
        if index < 32 {
            self | (1u32 << (index as u32))
        } else {
            self
        }
    }

    fn remove_bit<I: ShiftIndex>(self, index: I) -> (r: u32) {
        let index = index.shift_index();
        if index < 32 {
            self & !(1u32 << (index as u32))
        } else {
            self
        }
    }

    fn set_bitmask(self, mask: Range<u32>, value: u32) -> (r: u32) {
        let len = mask_len(&mask);
        let bitmask = u32_range_mask_exec(mask.start, len);
        let size_mask: u32 = if len >= 32 {
            u32::MAX
        } else {
            let one_shifted: u32 = 1u32 << (len as u32);
            proof {
                lemma_u32_one_shifted(len as u32);
            }
            one_shifted - 1
        };
        let delete = self & !bitmask;
        let value = value & size_mask;
        delete | value << (mask.start as u32)
    }

    fn delete_bitmask(self, mask: Range<u32>) -> (r: u32) {
        let len = mask_len(&mask);
        let bitmask = u32_range_mask_exec(mask.start, len);
        self & !bitmask
    }
}

impl GetBit for u32 {
    open spec fn spec_get_bit(self, index: u32) -> bool {
        index < 32 && (self & (1u32 << (index as u32))) != 0
    }

    open spec fn spec_get_bitmask(self, start: u32, end: u32) -> u32 {
        (self & u32_range_mask(start, range_len(start, end))) >> ((start % 32) as u32)
    }

    open spec fn spec_bitmask_range(start: u32, end: u32) -> u32 {
        let len = range_len(start, end);
        if len == 32 {
            u32::MAX << ((start % 32) as u32)
        } else {
            ((((1u32 << ((len % 32) as u32)) - 1) as u32) << ((start % 32) as u32)) as u32
        }
    }

    fn get_bit<I: ShiftIndex>(self, index: I) -> (r: bool) {
        let index = index.shift_index();
        if index < 32 {
            (self & (1u32 << (index as u32))) != 0
        } else {
            false
        }
    }

    fn get_bitmask(self, mask: Range<u32>) -> (r: u32) {
        let len = mask_len(&mask);
        let bitmask = u32_range_mask_exec(mask.start, len);
        (self & bitmask) >> ((mask.start % 32) as u32)
    }

    fn bitmask_range(mask: Range<u32>) -> (r: u32) {
        let len = mask_len(&mask);
        if len == 32 {
            u32::MAX << ((mask.start % 32) as u32)
        } else {
            let one_shifted: u32 = 1u32 << ((len % 32) as u32);
            proof {
                lemma_u32_one_shifted((len % 32) as u32);
            }
            (one_shifted - 1) << ((mask.start % 32) as u32)
        }
    }
}

impl InvertBit for u32 {
    open spec fn spec_invert_bit(self, index: u32) -> u32 {
        self ^ (1u32 << ((index % 32) as u32))
    }

    fn invert_bit<I: ShiftIndex>(self, index: I) -> (r: u32) {
        let index = index.shift_index();
        self ^ (1u32 << ((index % 32) as u32))
    }
}

impl BitSize for u64 {
    open spec fn spec_bit_size() -> u32 {
        64
    }

    fn bit_size() -> (r: u32) {
        64
    }
}

proof fn lemma_u64_one_shifted(k: u64)
    by (bit_vector)
    requires
        k < 64,
    ensures
        1u64 << k >= 1,
{
}

impl BitLength for u64 {
    open spec fn spec_bit_length(self) -> u32 {
        (64 - u64_leading_zeros(self)) as u32
    }

    fn bit_length(self) -> (r: u32) {
        64 - self.leading_zeros()
    }
}

/// The `u64` whose set bits are `len` bits starting at bit `start` (both
/// taken modulo the bit size, as a wrapping shift takes them), or from
/// `start` up when `len` reaches the bit size.
pub open spec fn u64_range_mask(start: u32, len: u32) -> u64 {
    if len >= 64 {
        u64::MAX << ((start % 64) as u64)
    } else {
        ((((1u64 << (len as u64)) - 1) as u64) << ((start % 64) as u64)) as u64
    }
}

fn u64_range_mask_exec(start: u32, len: u32) -> (r: u64)
    ensures
        r == u64_range_mask(start, len),
{
    if len >= 64 {
        u64::MAX << ((start % 64) as u64)
    } else {
        let one_shifted: u64 = 1u64 << (len as u64);
        proof {
            lemma_u64_one_shifted(len as u64);
        }
        (one_shifted - 1) << ((start % 64) as u64)
    }
}

impl SetBit for u64 {
    open spec fn spec_set_bit(self, index: u32, on: bool) -> u64 {
        if index < 64 {
            if on {
                self | (1u64 << (index as u64))
            } else {
                self & !(1u64 << (index as u64))
            }
        } else {
            self
        }
    }

    open spec fn spec_set_bitmask(self, start: u32, end: u32, value: u64) -> u64 {
        let len = range_len(start, end);
        let size_mask: u64 = if len >= 64 {
            u64::MAX
        } else {
            ((1u64 << (len as u64)) - 1) as u64
        };
        (self & !u64_range_mask(start, len)) | ((value & size_mask) << (start as u64))
    }

    open spec fn spec_delete_bitmask(self, start: u32, end: u32) -> u64 {
        self & !u64_range_mask(start, range_len(start, end))
    }

    fn set_bit<I: ShiftIndex>(self, index: I, on: bool) -> (r: u64) {
        let index = index.shift_index();
        if index < 64 {
            let mask: u64 = 1u64 << (index as u64);
            if on {
                self | mask
            } else {
                self & !mask
            }
        } else {
            self
        }
    }

    fn add_bit<I: ShiftIndex>(self, index: I) -> (r: u64) {
        let index = index.shift_index();
        if index < 64 {
            self | (1u64 << (index as u64))
        } else {
            self
        }
    }

    fn remove_bit<I: ShiftIndex>(self, index: I) -> (r: u64) {
        let index = index.shift_index();
        if index < 64 {
            self & !(1u64 << (index as u64))
        } else {
            self
        }
    }

    fn set_bitmask(self, mask: Range<u32>, value: u64) -> (r: u64) {
        let len = mask_len(&mask);
        let bitmask = u64_range_mask_exec(mask.start, len);
        let size_mask: u64 = if len >= 64 {
            u64::MAX
        } else {
            let one_shifted: u64 = 1u64 << (len as u64);
            proof {
                lemma_u64_one_shifted(len as u64);
            }
            one_shifted - 1
        };
        let delete = self & !bitmask;
        let value = value & size_mask;
        delete | value << (mask.start as u64)
    }

    fn delete_bitmask(self, mask: Range<u32>) -> (r: u64) {
        let len = mask_len(&mask);
        let bitmask = u64_range_mask_exec(mask.start, len);
        self & !bitmask
    }
}

impl GetBit for u64 {
    open spec fn spec_get_bit(self, index: u32) -> bool {
        index < 64 && (self & (1u64 << (index as u64))) != 0
    }

    open spec fn spec_get_bitmask(self, start: u32, end: u32) -> u64 {
        (self & u64_range_mask(start, range_len(start, end))) >> ((start % 64) as u64)
    }

    open spec fn spec_bitmask_range(start: u32, end: u32) -> u64 {
        let len = range_len(start, end);
        if len == 64 {
            u64::MAX << ((start % 64) as u64)
        } else {
            ((((1u64 << ((len % 64) as u64)) - 1) as u64) << ((start % 64) as u64)) as u64
        }
    }

    fn get_bit<I: ShiftIndex>(self, index: I) -> (r: bool) {
        let index = index.shift_index();
        if index < 64 {
            (self & (1u64 << (index as u64))) != 0
        } else {
            false
        }
    }

    fn get_bitmask(self, mask: Range<u32>) -> (r: u64) {
        let len = mask_len(&mask);
        let bitmask = u64_range_mask_exec(mask.start, len);
        (self & bitmask) >> ((mask.start % 64) as u64)
    }

    fn bitmask_range(mask: Range<u32>) -> (r: u64) {
        let len = mask_len(&mask);
        if len == 64 {
            u64::MAX << ((mask.start % 64) as u64)
        } else {
            let one_shifted: u64 = 1u64 << ((len % 64) as u64);
            proof {
                lemma_u64_one_shifted((len % 64) as u64);
            }
            (one_shifted - 1) << ((mask.start % 64) as u64)
        }
    }
}

impl InvertBit for u64 {
    open spec fn spec_invert_bit(self, index: u32) -> u64 {
        self ^ (1u64 << ((index % 64) as u64))
    }

    fn invert_bit<I: ShiftIndex>(self, index: I) -> (r: u64) {
        let index = index.shift_index();
        self ^ (1u64 << ((index % 64) as u64))
    }
}

/// Reading bit `j` after setting bit `i` to `on` gives `on` when `j == i`
/// and the old bit otherwise.
pub proof fn lemma_u8_get_after_set(x: u8, i: u32, j: u32, on: bool)
    requires
        i < 8,
        j < 8,
    ensures
        x.spec_set_bit(i, on).spec_get_bit(j) == if j == i {
            on
        } else {
            x.spec_get_bit(j)
        },
{
    let ib = i as u8;
    let jb = j as u8;
    assert((if on { x | (1u8 << ib) } else { x & !(1u8 << ib) }) & (1u8 << jb) != 0 <==> if jb == ib {
        on
    } else {
        x & (1u8 << jb) != 0
    }) by (bit_vector)
        requires
            ib < 8,
            jb < 8,
    ;
}

/// Clearing the bits of `start..end` (inside the value) clears exactly those
/// bits and keeps every other bit.
pub proof fn lemma_u8_delete_bitmask_bits(x: u8, start: u32, end: u32, j: u32)
    requires
        start < 8,
        start <= end <= 8,
        j < 8,
    ensures
        x.spec_delete_bitmask(start, end).spec_get_bit(j) == (x.spec_get_bit(j) && !(start <= j
            && j < end)),
{
    let s = start as u8;
    let e = end as u8;
    let jb = j as u8;
    assert(s == start && e == end && jb == j && start % 8 == start);
    if end - start >= 8 {
        assert(start == 0 && end == 8);
        assert(((x & !(u8::MAX << s)) & (1u8 << jb) != 0) == (x & (1u8 << jb) != 0 && !(s <= jb && jb
            < e))) by (bit_vector)
            requires
                s == 0,
                e == 8,
                jb < 8,
        ;
    } else {
        let len: u8 = (e - s) as u8;
        assert(len == range_len(start, end));
        assert(((x & !(((((1u8 << len) - 1) as u8) << s) as u8)) & (1u8 << jb) != 0) == (x & (1u8
            << jb) != 0 && !(s <= jb && jb < e))) by (bit_vector)
            requires
                s <= e,
                e <= 8,
                len == e - s,
                len < 8,
                jb < 8,
        ;
    }
}

/// Reading bit `j` after setting bit `i` to `on` gives `on` when `j == i`
/// and the old bit otherwise.
pub proof fn lemma_u16_get_after_set(x: u16, i: u32, j: u32, on: bool)
    requires
        i < 16,
        j < 16,
    ensures
        x.spec_set_bit(i, on).spec_get_bit(j) == if j == i {
            on
        } else {
            x.spec_get_bit(j)
        },
{
    let ib = i as u16;
    let jb = j as u16;
    assert((if on { x | (1u16 << ib) } else { x & !(1u16 << ib) }) & (1u16 << jb) != 0 <==> if jb == ib {
        on
    } else {
        x & (1u16 << jb) != 0
    }) by (bit_vector)
        requires
            ib < 16,
            jb < 16,
    ;
}

/// Clearing the bits of `start..end` (inside the value) clears exactly those
/// bits and keeps every other bit.
pub proof fn lemma_u16_delete_bitmask_bits(x: u16, start: u32, end: u32, j: u32)
    requires
        start < 16,
        start <= end <= 16,
        j < 16,
    ensures
        x.spec_delete_bitmask(start, end).spec_get_bit(j) == (x.spec_get_bit(j) && !(start <= j
            && j < end)),
{
    let s = start as u16;
    let e = end as u16;
    let jb = j as u16;
    assert(s == start && e == end && jb == j && start % 16 == start);
    if end - start >= 16 {
        assert(start == 0 && end == 16);
        assert(((x & !(u16::MAX << s)) & (1u16 << jb) != 0) == (x & (1u16 << jb) != 0 && !(s <= jb && jb
            < e))) by (bit_vector)
            requires
                s == 0,
                e == 16,
                jb < 16,
        ;
    } else {
        let len: u16 = (e - s) as u16;
        assert(len == range_len(start, end));
        assert(((x & !(((((1u16 << len) - 1) as u16) << s) as u16)) & (1u16 << jb) != 0) == (x & (1u16
            << jb) != 0 && !(s <= jb && jb < e))) by (bit_vector)
            requires
                s <= e,
                e <= 16,
                len == e - s,
                len < 16,
                jb < 16,
        ;
    }
}

/// Reading bit `j` after setting bit `i` to `on` gives `on` when `j == i`
/// and the old bit otherwise.
pub proof fn lemma_u32_get_after_set(x: u32, i: u32, j: u32, on: bool)
    requires
        i < 32,
        j < 32,
    ensures
        x.spec_set_bit(i, on).spec_get_bit(j) == if j == i {
            on
        } else {
            x.spec_get_bit(j)
        },
{
    let ib = i as u32;
    let jb = j as u32;
    assert((if on { x | (1u32 << ib) } else { x & !(1u32 << ib) }) & (1u32 << jb) != 0 <==> if jb == ib {
        on
    } else {
        x & (1u32 << jb) != 0
    }) by (bit_vector)
        requires
            ib < 32,
            jb < 32,
    ;
}

/// Clearing the bits of `start..end` (inside the value) clears exactly those
/// bits and keeps every other bit.
pub proof fn lemma_u32_delete_bitmask_bits(x: u32, start: u32, end: u32, j: u32)
    requires
        start < 32,
        start <= end <= 32,
        j < 32,
    ensures
        x.spec_delete_bitmask(start, end).spec_get_bit(j) == (x.spec_get_bit(j) && !(start <= j
            && j < end)),
{
    let s = start as u32;
    let e = end as u32;
    let jb = j as u32;
    assert(s == start && e == end && jb == j && start % 32 == start);
    if end - start >= 32 {
        assert(start == 0 && end == 32);
        assert(((x & !(u32::MAX << s)) & (1u32 << jb) != 0) == (x & (1u32 << jb) != 0 && !(s <= jb && jb
            < e))) by (bit_vector)
            requires
                s == 0,
                e == 32,
                jb < 32,
        ;
    } else {
        let len: u32 = (e - s) as u32;
        assert(len == range_len(start, end));
        assert(((x & !(((((1u32 << len) - 1) as u32) << s) as u32)) & (1u32 << jb) != 0) == (x & (1u32
            << jb) != 0 && !(s <= jb && jb < e))) by (bit_vector)
            requires
                s <= e,
                e <= 32,
                len == e - s,
                len < 32,
                jb < 32,
        ;
    }
}

/// Reading bit `j` after setting bit `i` to `on` gives `on` when `j == i`
/// and the old bit otherwise.
pub proof fn lemma_u64_get_after_set(x: u64, i: u32, j: u32, on: bool)
    requires
        i < 64,
        j < 64,
    ensures
        x.spec_set_bit(i, on).spec_get_bit(j) == if j == i {
            on
        } else {
            x.spec_get_bit(j)
        },
{
    let ib = i as u64;
    let jb = j as u64;
    assert((if on { x | (1u64 << ib) } else { x & !(1u64 << ib) }) & (1u64 << jb) != 0 <==> if jb == ib {
        on
    } else {
        x & (1u64 << jb) != 0
    }) by (bit_vector)
        requires
            ib < 64,
            jb < 64,
    ;
}

/// Clearing the bits of `start..end` (inside the value) clears exactly those
/// bits and keeps every other bit.
pub proof fn lemma_u64_delete_bitmask_bits(x: u64, start: u32, end: u32, j: u32)
    requires
        start < 64,
        start <= end <= 64,
        j < 64,
    ensures
        x.spec_delete_bitmask(start, end).spec_get_bit(j) == (x.spec_get_bit(j) && !(start <= j
            && j < end)),
{
    let s = start as u64;
    let e = end as u64;
    let jb = j as u64;
    assert(s == start && e == end && jb == j && start % 64 == start);
    if end - start >= 64 {
        assert(start == 0 && end == 64);
        assert(((x & !(u64::MAX << s)) & (1u64 << jb) != 0) == (x & (1u64 << jb) != 0 && !(s <= jb && jb
            < e))) by (bit_vector)
            requires
                s == 0,
                e == 64,
                jb < 64,
        ;
    } else {
        let len: u64 = (e - s) as u64;
        assert(len == range_len(start, end));
        assert(((x & !(((((1u64 << len) - 1) as u64) << s) as u64)) & (1u64 << jb) != 0) == (x & (1u64
            << jb) != 0 && !(s <= jb && jb < e))) by (bit_vector)
            requires
                s <= e,
                e <= 64,
                len == e - s,
                len < 64,
                jb < 64,
        ;
    }
}


/// The bits that `get_bitmask` gives for `start..end` (inside the value) are the
/// bits of the range moved down to bit 0: bit `j` of the result is bit
/// `start + j` of `x` while `j < end - start`, and 0 above; so the result is
/// below `2^(end - start)`.
pub proof fn lemma_u8_get_bitmask_bits(x: u8, start: u32, end: u32, j: u32)
    requires
        start <= end <= 8,
        j < 8,
    ensures
        ((x.spec_get_bitmask(start, end) >> (j as u8)) & 1 == 1) == (j < end - start && ((x >> ((start + j) as u8))
            & 1) == 1),
{
    let s = start as u8;
    let e = end as u8;
    let jb = j as u8;
    let len = range_len(start, end);
    let lb = len as u8;
    assert(s == start && e == end && jb == j && lb == len && len == end - start);
    assert(((start + j) as u8) == ((s + jb) as u8));
    assert(((start % 8) as u8) == s % 8);
    assert(((((x & (if lb >= 8 {
        u8::MAX << (s % 8)
    } else {
        ((((1u8 << lb) - 1) as u8) << (s % 8)) as u8
    })) >> (s % 8)) >> jb) & 1 == 1) == (jb < lb && ((x >> ((s + jb) as u8)) & 1) == 1)) by (bit_vector)
        requires
            s <= e,
            e <= 8,
            lb == e - s,
            jb < 8,
    ;
}

/// The bits that `get_bitmask` gives for `start..end` (inside the value) are the
/// bits of the range moved down to bit 0: bit `j` of the result is bit
/// `start + j` of `x` while `j < end - start`, and 0 above; so the result is
/// below `2^(end - start)`.
pub proof fn lemma_u16_get_bitmask_bits(x: u16, start: u32, end: u32, j: u32)
    requires
        start <= end <= 16,
        j < 16,
    ensures
        ((x.spec_get_bitmask(start, end) >> (j as u16)) & 1 == 1) == (j < end - start && ((x >> ((start + j) as u16))
            & 1) == 1),
{
    let s = start as u16;
    let e = end as u16;
    let jb = j as u16;
    let len = range_len(start, end);
    let lb = len as u16;
    assert(s == start && e == end && jb == j && lb == len && len == end - start);
    assert(((start + j) as u16) == ((s + jb) as u16));
    assert(((start % 16) as u16) == s % 16);
    assert(((((x & (if lb >= 16 {
        u16::MAX << (s % 16)
    } else {
        ((((1u16 << lb) - 1) as u16) << (s % 16)) as u16
    })) >> (s % 16)) >> jb) & 1 == 1) == (jb < lb && ((x >> ((s + jb) as u16)) & 1) == 1)) by (bit_vector)
        requires
            s <= e,
            e <= 16,
            lb == e - s,
            jb < 16,
    ;
}

/// The bits that `get_bitmask` gives for `start..end` (inside the value) are the
/// bits of the range moved down to bit 0: bit `j` of the result is bit
/// `start + j` of `x` while `j < end - start`, and 0 above; so the result is
/// below `2^(end - start)`.
pub proof fn lemma_u32_get_bitmask_bits(x: u32, start: u32, end: u32, j: u32)
    requires
        start <= end <= 32,
        j < 32,
    ensures
        ((x.spec_get_bitmask(start, end) >> (j as u32)) & 1 == 1) == (j < end - start && ((x >> ((start + j) as u32))
            & 1) == 1),
{
    let s = start as u32;
    let e = end as u32;
    let jb = j as u32;
    let len = range_len(start, end);
    let lb = len as u32;
    assert(s == start && e == end && jb == j && lb == len && len == end - start);
    assert(((start + j) as u32) == ((s + jb) as u32));
    assert(((start % 32) as u32) == s % 32);
    assert(((((x & (if lb >= 32 {
        u32::MAX << (s % 32)
    } else {
        ((((1u32 << lb) - 1) as u32) << (s % 32)) as u32
    })) >> (s % 32)) >> jb) & 1 == 1) == (jb < lb && ((x >> ((s + jb) as u32)) & 1) == 1)) by (bit_vector)
        requires
            s <= e,
            e <= 32,
            lb == e - s,
            jb < 32,
    ;
}

/// The bits that `get_bitmask` gives for `start..end` (inside the value) are the
/// bits of the range moved down to bit 0: bit `j` of the result is bit
/// `start + j` of `x` while `j < end - start`, and 0 above; so the result is
/// below `2^(end - start)`.
pub proof fn lemma_u64_get_bitmask_bits(x: u64, start: u32, end: u32, j: u32)
    requires
        start <= end <= 64,
        j < 64,
    ensures
        ((x.spec_get_bitmask(start, end) >> (j as u64)) & 1 == 1) == (j < end - start && ((x >> ((start + j) as u64))
            & 1) == 1),
{
    let s = start as u64;
    let e = end as u64;
    let jb = j as u64;
    let len = range_len(start, end);
    let lb = len as u64;
    assert(s == start && e == end && jb == j && lb == len && len == end - start);
    assert(((start + j) as u64) == ((s + jb) as u64));
    assert(((start % 64) as u64) == s % 64);
    assert(((((x & (if lb >= 64 {
        u64::MAX << (s % 64)
    } else {
        ((((1u64 << lb) - 1) as u64) << (s % 64)) as u64
    })) >> (s % 64)) >> jb) & 1 == 1) == (jb < lb && ((x >> ((s + jb) as u64)) & 1) == 1)) by (bit_vector)
        requires
            s <= e,
            e <= 64,
            lb == e - s,
            jb < 64,
    ;
}


/// Setting the bits of `start..end` (inside the value) to `value` puts bit
/// `j - start` of `value` at each bit `j` of the range and keeps every other bit
/// of `x`; and the mask of the range has exactly the bits of the range set.
pub proof fn lemma_u8_set_bitmask_bits(x: u8, value: u8, start: u32, end: u32, j: u32)
    requires
        start < 8,
        start <= end <= 8,
        j < 8,
    ensures
        ((x.spec_set_bitmask(start, end, value) >> (j as u8)) & 1 == 1) == if start <= j < end {
            ((value >> ((j - start) as u8)) & 1) == 1
        } else {
            ((x >> (j as u8)) & 1) == 1
        },
        ((<u8 as GetBit>::spec_bitmask_range(start, end) >> (j as u8)) & 1 == 1) == (start <= j < end),
{
    let s = start as u8;
    let e = end as u8;
    let jb = j as u8;
    let len = range_len(start, end);
    let lb = len as u8;
    assert(s == start && e == end && jb == j && lb == len && len == end - start);
    assert(((start % 8) as u8) == s % 8 && (start as u8) == s && (len as u8) == lb);
    assert(((len % 8) as u8) == lb % 8);
    assert(start <= j < end ==> ((j - start) as u8) == ((jb - s) as u8));
    assert(((((x & !(if lb >= 8 {
        u8::MAX << (s % 8)
    } else {
        ((((1u8 << lb) - 1) as u8) << (s % 8)) as u8
    })) | ((value & (if lb >= 8 {
        u8::MAX
    } else {
        ((1u8 << lb) - 1) as u8
    })) << s)) >> jb) & 1 == 1) == if s <= jb && jb < e {
        ((value >> ((jb - s) as u8)) & 1) == 1
    } else {
        ((x >> jb) & 1) == 1
    } && ((((if lb == 8 {
        u8::MAX << (s % 8)
    } else {
        ((((1u8 << (lb % 8)) - 1) as u8) << (s % 8)) as u8
    }) >> jb) & 1 == 1) == (s <= jb && jb < e))) by (bit_vector)
        requires
            s < 8,
            s <= e,
            e <= 8,
            lb == e - s,
            jb < 8,
    ;
}

/// Setting the bits of `start..end` (inside the value) to `value` puts bit
/// `j - start` of `value` at each bit `j` of the range and keeps every other bit
/// of `x`; and the mask of the range has exactly the bits of the range set.
pub proof fn lemma_u16_set_bitmask_bits(x: u16, value: u16, start: u32, end: u32, j: u32)
    requires
        start < 16,
        start <= end <= 16,
        j < 16,
    ensures
        ((x.spec_set_bitmask(start, end, value) >> (j as u16)) & 1 == 1) == if start <= j < end {
            ((value >> ((j - start) as u16)) & 1) == 1
        } else {
            ((x >> (j as u16)) & 1) == 1
        },
        ((<u16 as GetBit>::spec_bitmask_range(start, end) >> (j as u16)) & 1 == 1) == (start <= j < end),
{
    let s = start as u16;
    let e = end as u16;
    let jb = j as u16;
    let len = range_len(start, end);
    let lb = len as u16;
    assert(s == start && e == end && jb == j && lb == len && len == end - start);
    assert(((start % 16) as u16) == s % 16 && (start as u16) == s && (len as u16) == lb);
    assert(((len % 16) as u16) == lb % 16);
    assert(start <= j < end ==> ((j - start) as u16) == ((jb - s) as u16));
    assert(((((x & !(if lb >= 16 {
        u16::MAX << (s % 16)
    } else {
        ((((1u16 << lb) - 1) as u16) << (s % 16)) as u16
    })) | ((value & (if lb >= 16 {
        u16::MAX
    } else {
        ((1u16 << lb) - 1) as u16
    })) << s)) >> jb) & 1 == 1) == if s <= jb && jb < e {
        ((value >> ((jb - s) as u16)) & 1) == 1
    } else {
        ((x >> jb) & 1) == 1
    } && ((((if lb == 16 {
        u16::MAX << (s % 16)
    } else {
        ((((1u16 << (lb % 16)) - 1) as u16) << (s % 16)) as u16
    }) >> jb) & 1 == 1) == (s <= jb && jb < e))) by (bit_vector)
        requires
            s < 16,
            s <= e,
            e <= 16,
            lb == e - s,
            jb < 16,
    ;
}

/// Setting the bits of `start..end` (inside the value) to `value` puts bit
/// `j - start` of `value` at each bit `j` of the range and keeps every other bit
/// of `x`; and the mask of the range has exactly the bits of the range set.
pub proof fn lemma_u32_set_bitmask_bits(x: u32, value: u32, start: u32, end: u32, j: u32)
    requires
        start < 32,
        start <= end <= 32,
        j < 32,
    ensures
        ((x.spec_set_bitmask(start, end, value) >> (j as u32)) & 1 == 1) == if start <= j < end {
            ((value >> ((j - start) as u32)) & 1) == 1
        } else {
            ((x >> (j as u32)) & 1) == 1
        },
        ((<u32 as GetBit>::spec_bitmask_range(start, end) >> (j as u32)) & 1 == 1) == (start <= j < end),
{
    let s = start as u32;
    let e = end as u32;
    let jb = j as u32;
    let len = range_len(start, end);
    let lb = len as u32;
    assert(s == start && e == end && jb == j && lb == len && len == end - start);
    assert(((start % 32) as u32) == s % 32 && (start as u32) == s && (len as u32) == lb);
    assert(((len % 32) as u32) == lb % 32);
    assert(start <= j < end ==> ((j - start) as u32) == ((jb - s) as u32));
    assert(((((x & !(if lb >= 32 {
        u32::MAX << (s % 32)
    } else {
        ((((1u32 << lb) - 1) as u32) << (s % 32)) as u32
    })) | ((value & (if lb >= 32 {
        u32::MAX
    } else {
        ((1u32 << lb) - 1) as u32
    })) << s)) >> jb) & 1 == 1) == if s <= jb && jb < e {
        ((value >> ((jb - s) as u32)) & 1) == 1
    } else {
        ((x >> jb) & 1) == 1
    } && ((((if lb == 32 {
        u32::MAX << (s % 32)
    } else {
        ((((1u32 << (lb % 32)) - 1) as u32) << (s % 32)) as u32
    }) >> jb) & 1 == 1) == (s <= jb && jb < e))) by (bit_vector)
        requires
            s < 32,
            s <= e,
            e <= 32,
            lb == e - s,
            jb < 32,
    ;
}

/// Setting the bits of `start..end` (inside the value) to `value` puts bit
/// `j - start` of `value` at each bit `j` of the range and keeps every other bit
/// of `x`; and the mask of the range has exactly the bits of the range set.
pub proof fn lemma_u64_set_bitmask_bits(x: u64, value: u64, start: u32, end: u32, j: u32)
    requires
        start < 64,
        start <= end <= 64,
        j < 64,
    ensures
        ((x.spec_set_bitmask(start, end, value) >> (j as u64)) & 1 == 1) == if start <= j < end {
            ((value >> ((j - start) as u64)) & 1) == 1
        } else {
            ((x >> (j as u64)) & 1) == 1
        },
        ((<u64 as GetBit>::spec_bitmask_range(start, end) >> (j as u64)) & 1 == 1) == (start <= j < end),
{
    let s = start as u64;
    let e = end as u64;
    let jb = j as u64;
    let len = range_len(start, end);
    let lb = len as u64;
    assert(s == start && e == end && jb == j && lb == len && len == end - start);
    assert(((start % 64) as u64) == s % 64 && (start as u64) == s && (len as u64) == lb);
    assert(((len % 64) as u64) == lb % 64);
    assert(start <= j < end ==> ((j - start) as u64) == ((jb - s) as u64));
    assert(((((x & !(if lb >= 64 {
        u64::MAX << (s % 64)
    } else {
        ((((1u64 << lb) - 1) as u64) << (s % 64)) as u64
    })) | ((value & (if lb >= 64 {
        u64::MAX
    } else {
        ((1u64 << lb) - 1) as u64
    })) << s)) >> jb) & 1 == 1) == if s <= jb && jb < e {
        ((value >> ((jb - s) as u64)) & 1) == 1
    } else {
        ((x >> jb) & 1) == 1
    } && ((((if lb == 64 {
        u64::MAX << (s % 64)
    } else {
        ((((1u64 << (lb % 64)) - 1) as u64) << (s % 64)) as u64
    }) >> jb) & 1 == 1) == (s <= jb && jb < e))) by (bit_vector)
        requires
            s < 64,
            s <= e,
            e <= 64,
            lb == e - s,
            jb < 64,
    ;
}


/// Bit `j` of a value, as `get_bit` reads it, is the lowest bit of the value
/// shifted down by `j`; flipping bit `i` turns over exactly that bit, and setting
/// bit `i` to `on` makes it `on` and keeps every other bit.
pub proof fn lemma_u8_single_bit_ops(x: u8, i: u32, j: u32, on: bool)
    requires
        i < 8,
        j < 8,
    ensures
        x.spec_get_bit(j) == ((x >> (j as u8)) & 1 == 1),
        ((x.spec_invert_bit(i) >> (j as u8)) & 1 == 1) == if j == i {
            !((x >> (j as u8)) & 1 == 1)
        } else {
            (x >> (j as u8)) & 1 == 1
        },
        ((x.spec_set_bit(i, on) >> (j as u8)) & 1 == 1) == if j == i {
            on
        } else {
            (x >> (j as u8)) & 1 == 1
        },
{
    let ib = i as u8;
    let jb = j as u8;
    assert(ib == i && jb == j && ((i % 8) as u8) == ib && ((j as u8) == jb) && ((i as u8) == ib));
    assert(((x & (1u8 << jb)) != 0) == ((x >> jb) & 1 == 1) && (((x ^ (1u8 << ib)) >> jb) & 1 == 1) == (if jb == ib {
        !((x >> jb) & 1 == 1)
    } else {
        (x >> jb) & 1 == 1
    }) && ((((x | (1u8 << ib)) >> jb) & 1 == 1) == (jb == ib || (x >> jb) & 1 == 1)) && ((((x & !(1u8
        << ib)) >> jb) & 1 == 1) == (jb != ib && (x >> jb) & 1 == 1))) by (bit_vector)
        requires
            ib < 8,
            jb < 8,
    ;
}

/// Bit `j` of a value, as `get_bit` reads it, is the lowest bit of the value
/// shifted down by `j`; flipping bit `i` turns over exactly that bit, and setting
/// bit `i` to `on` makes it `on` and keeps every other bit.
pub proof fn lemma_u16_single_bit_ops(x: u16, i: u32, j: u32, on: bool)
    requires
        i < 16,
        j < 16,
    ensures
        x.spec_get_bit(j) == ((x >> (j as u16)) & 1 == 1),
        ((x.spec_invert_bit(i) >> (j as u16)) & 1 == 1) == if j == i {
            !((x >> (j as u16)) & 1 == 1)
        } else {
            (x >> (j as u16)) & 1 == 1
        },
        ((x.spec_set_bit(i, on) >> (j as u16)) & 1 == 1) == if j == i {
            on
        } else {
            (x >> (j as u16)) & 1 == 1
        },
{
    let ib = i as u16;
    let jb = j as u16;
    assert(ib == i && jb == j && ((i % 16) as u16) == ib && ((j as u16) == jb) && ((i as u16) == ib));
    assert(((x & (1u16 << jb)) != 0) == ((x >> jb) & 1 == 1) && (((x ^ (1u16 << ib)) >> jb) & 1 == 1) == (if jb == ib {
        !((x >> jb) & 1 == 1)
    } else {
        (x >> jb) & 1 == 1
    }) && ((((x | (1u16 << ib)) >> jb) & 1 == 1) == (jb == ib || (x >> jb) & 1 == 1)) && ((((x & !(1u16
        << ib)) >> jb) & 1 == 1) == (jb != ib && (x >> jb) & 1 == 1))) by (bit_vector)
        requires
            ib < 16,
            jb < 16,
    ;
}

/// Bit `j` of a value, as `get_bit` reads it, is the lowest bit of the value
/// shifted down by `j`; flipping bit `i` turns over exactly that bit, and setting
/// bit `i` to `on` makes it `on` and keeps every other bit.
pub proof fn lemma_u32_single_bit_ops(x: u32, i: u32, j: u32, on: bool)
    requires
        i < 32,
        j < 32,
    ensures
        x.spec_get_bit(j) == ((x >> (j as u32)) & 1 == 1),
        ((x.spec_invert_bit(i) >> (j as u32)) & 1 == 1) == if j == i {
            !((x >> (j as u32)) & 1 == 1)
        } else {
            (x >> (j as u32)) & 1 == 1
        },
        ((x.spec_set_bit(i, on) >> (j as u32)) & 1 == 1) == if j == i {
            on
        } else {
            (x >> (j as u32)) & 1 == 1
        },
{
    let ib = i as u32;
    let jb = j as u32;
    assert(ib == i && jb == j && ((i % 32) as u32) == ib && ((j as u32) == jb) && ((i as u32) == ib));
    assert(((x & (1u32 << jb)) != 0) == ((x >> jb) & 1 == 1) && (((x ^ (1u32 << ib)) >> jb) & 1 == 1) == (if jb == ib {
        !((x >> jb) & 1 == 1)
    } else {
        (x >> jb) & 1 == 1
    }) && ((((x | (1u32 << ib)) >> jb) & 1 == 1) == (jb == ib || (x >> jb) & 1 == 1)) && ((((x & !(1u32
        << ib)) >> jb) & 1 == 1) == (jb != ib && (x >> jb) & 1 == 1))) by (bit_vector)
        requires
            ib < 32,
            jb < 32,
    ;
}

/// Bit `j` of a value, as `get_bit` reads it, is the lowest bit of the value
/// shifted down by `j`; flipping bit `i` turns over exactly that bit, and setting
/// bit `i` to `on` makes it `on` and keeps every other bit.
pub proof fn lemma_u64_single_bit_ops(x: u64, i: u32, j: u32, on: bool)
    requires
        i < 64,
        j < 64,
    ensures
        x.spec_get_bit(j) == ((x >> (j as u64)) & 1 == 1),
        ((x.spec_invert_bit(i) >> (j as u64)) & 1 == 1) == if j == i {
            !((x >> (j as u64)) & 1 == 1)
        } else {
            (x >> (j as u64)) & 1 == 1
        },
        ((x.spec_set_bit(i, on) >> (j as u64)) & 1 == 1) == if j == i {
            on
        } else {
            (x >> (j as u64)) & 1 == 1
        },
{
    let ib = i as u64;
    let jb = j as u64;
    assert(ib == i && jb == j && ((i % 64) as u64) == ib && ((j as u64) == jb) && ((i as u64) == ib));
    assert(((x & (1u64 << jb)) != 0) == ((x >> jb) & 1 == 1) && (((x ^ (1u64 << ib)) >> jb) & 1 == 1) == (if jb == ib {
        !((x >> jb) & 1 == 1)
    } else {
        (x >> jb) & 1 == 1
    }) && ((((x | (1u64 << ib)) >> jb) & 1 == 1) == (jb == ib || (x >> jb) & 1 == 1)) && ((((x & !(1u64
        << ib)) >> jb) & 1 == 1) == (jb != ib && (x >> jb) & 1 == 1))) by (bit_vector)
        requires
            ib < 64,
            jb < 64,
    ;
}

} // verus!
