//! Fixed-size sets of bit flags.
use vstd::prelude::*;
use crate::bit::{GetBit, SetBit};
use crate::text::{string_push, string_with_capacity};
use std::ops::{BitAnd, BitOr, BitXor, Not, Sub};
use vstd::std_specs::ops::{BitAndSpecImpl, BitOrSpecImpl, BitXorSpecImpl, NotSpecImpl, SubSpecImpl};
use vstd::std_specs::ops::{BitAndSpec, BitOrSpec, BitXorSpec, NotSpec, SubSpec};

verus! {

/// Implemented by the bit-flag types of this module only.
pub trait BitFlagsSealed {

}

/// A fixed number of boolean flags packed into an integer.
pub trait BitFlags: BitFlagsSealed + Sized + Copy {
    /// The number of flags.
    spec fn spec_bit_size() -> u32;

    /// Flag `index`.
    spec fn spec_get(self, index: u32) -> bool;

    /// The number of flags.
    fn bit_size() -> (r: u32)
        ensures
            r == Self::spec_bit_size(),
            r % 8 == 0,
            8 <= r <= 128,
    ;

    /// The name of the flag type.
    spec fn spec_flags_name() -> Seq<char>;

    /// The name of the flag type.
    fn flags_name() -> (r: &'static str)
        ensures
            r@ == Self::spec_flags_name(),
    ;

    /// Flag `index`.
    fn get(self, index: u32) -> (r: bool)
        requires
            index < Self::spec_bit_size(),
        ensures
            r == self.spec_get(index),
    ;

    /// Sets flag `index` to `value` and returns its previous value; the other flags keep theirs.
    fn set(&mut self, index: u32, value: bool) -> (r: bool)
        requires
            index < Self::spec_bit_size(),
        ensures
            r == old(self).spec_get(index),
            final(self).spec_get(index) == value,
            forall|j: u32| j < Self::spec_bit_size() && j != index ==> #[trigger] final(self).spec_get(j)
                == old(self).spec_get(j),
    ;

    /// The flags, from flag 0 up.
    fn iter(self) -> (r: Vec<bool>)
        ensures
            r@.len() == Self::spec_bit_size(),
            forall|i: int| 0 <= i < r@.len() ==> r@[i] == self.spec_get(i as u32),
    ;
}

/// The flags as text: the type's name, then in brackets the bytes from the highest
/// down, each as eight binary digits (highest flag first), separated by spaces.
pub fn flags_to_string<F: BitFlags>(flags: F) -> (r: String)
    ensures
        r@ == F::spec_flags_name() + seq!['('] + flag_bytes_from(
            flags,
            F::spec_bit_size() as int / 8,
            0,
        ) + seq![')'],
{
    let name = F::flags_name();
    let mut s = string_with_capacity(0);
    let n = name.unicode_len();
    let mut j: usize = 0;
    while j < n
        invariant
            j <= n,
            n == name@.len(),
            name@ == F::spec_flags_name(),
            s@ == name@.take(j as int),
        decreases n - j,
    {
        string_push(&mut s, name.get_char(j));
        j = j + 1;
        proof {
            assert(s@ =~= name@.take(j as int));
        }
    }
    string_push(&mut s, '(');
    let ghost prefix = s@;
    proof {
        assert(name@.take(n as int) =~= name@);
    }
    let total = F::bit_size() / 8;
    let mut k = total;
    proof {
        assert(flag_bytes_from(flags, total as int, total as int) =~= Seq::<char>::empty());
    }
    while k > 0
        invariant
            k <= total,
            1 <= total <= 16,
            total == F::spec_bit_size() / 8,
            s@ == prefix + flag_bytes_from(flags, total as int, k as int),
        decreases k,
    {
        if k < total {
            string_push(&mut s, ' ');
        }
        k = k - 1;
        let ghost before = s@;
        let mut i: u32 = 0;
        while i < 8
            invariant
                i <= 8,
                k < total <= 16,
                total == F::spec_bit_size() / 8,
                s@ == before + byte_digits(flags, k as int).take(i as int),
            decreases 8 - i,
        {
            let on = flags.get(8 * (k as u32) + 7 - i);
            string_push(&mut s, if on { '1' } else { '0' });
            i = i + 1;
            proof {
                assert(s@ =~= before + byte_digits(flags, k as int).take(i as int));
            }
        }
        proof {
            assert(byte_digits(flags, k as int).take(8) =~= byte_digits(flags, k as int));
            if k + 1 < total {
                assert(s@ =~= prefix + flag_bytes_from(flags, total as int, k as int));
            } else {
                assert(s@ =~= prefix + flag_bytes_from(flags, total as int, k as int));
            }
        }
    }
    string_push(&mut s, ')');
    s
}

/// Byte `k` of the flags (flags `8k + 7` down to `8k`) as binary digits.
pub open spec fn byte_digits<F: BitFlags>(flags: F, k: int) -> Seq<char> {
    Seq::new(8, |i: int| if flags.spec_get((8 * k + 7 - i) as u32) { '1' } else { '0' })
}

/// Bytes `total - 1` down to `k` of the flags as binary digits, separated by spaces.
pub open spec fn flag_bytes_from<F: BitFlags>(flags: F, total: int, k: int) -> Seq<char>
    decreases total - k,
{
    if k >= total {
        Seq::empty()
    } else if k == total - 1 {
        byte_digits(flags, k)
    } else {
        flag_bytes_from(flags, total, k + 1) + seq![' '] + byte_digits(flags, k)
    }
}

/// 8 flags in a `u8`; flag `i` is bit `i`.
#[derive(Debug, Default, Clone, Copy, PartialEq, Eq, Structural, PartialOrd, Ord, Hash)]
pub struct BitFlags8(pub u8);

impl BitFlags8 {
    /// The flags as text, as [`flags_to_string`] writes them.
    pub fn to_string(self) -> (r: String)
        ensures
            r@ == "BitFlags8"@ + seq!['('] + flag_bytes_from(self, 1, 0) + seq![')'],
    {
        flags_to_string(self)
    }
}

impl BitFlagsSealed for BitFlags8 {

}

impl BitFlags for BitFlags8 {
    open spec fn spec_bit_size() -> u32 {
        8
    }

    open spec fn spec_get(self, index: u32) -> bool {
        self.0.spec_get_bit(index)
    }

    fn bit_size() -> (r: u32) {
        8
    }

    open spec fn spec_flags_name() -> Seq<char> {
        "BitFlags8"@
    }

    fn flags_name() -> (r: &'static str) {
        "BitFlags8"
    }

    fn get(self, index: u32) -> (r: bool) {
        self.0.get_bit(index)
    }

    fn set(&mut self, index: u32, value: bool) -> (r: bool) {
        let previous = self.0.get_bit(index);
        self.0 = self.0.set_bit(index, value);
        proof {
            assert forall|j: u32| j < 8 implies #[trigger] self.0.spec_get_bit(j) == if j == index {
                value
            } else {
                old(self).0.spec_get_bit(j)
            } by {
                crate::bit::lemma_u8_get_after_set(old(self).0, index, j, value);
            }
        }
        previous
    }

    fn iter(self) -> (r: Vec<bool>) {
        let mut out: Vec<bool> = Vec::with_capacity(8);
        let mut i: u32 = 0;
        while i < 8
            invariant
                i <= 8,
                out@.len() == i,
                forall|k: int| 0 <= k < i ==> out@[k] == self.spec_get(k as u32),
            decreases 8 - i,
        {
            out.push(self.0.get_bit(i));
            i = i + 1;
        }
        out
    }
}

/// 16 flags in a `u16`; flag `i` is bit `i`.
#[derive(Debug, Default, Clone, Copy, PartialEq, Eq, Structural, PartialOrd, Ord, Hash)]
pub struct BitFlags16(pub u16);

impl BitFlags16 {
    /// The flags as text, as [`flags_to_string`] writes them.
    pub fn to_string(self) -> (r: String)
        ensures
            r@ == "BitFlags16"@ + seq!['('] + flag_bytes_from(self, 2, 0) + seq![')'],
    {
        flags_to_string(self)
    }
}

impl BitFlagsSealed for BitFlags16 {

}

impl BitFlags for BitFlags16 {
    open spec fn spec_bit_size() -> u32 {
        16
    }

    open spec fn spec_get(self, index: u32) -> bool {
        self.0.spec_get_bit(index)
    }

    fn bit_size() -> (r: u32) {
        16
    }

    open spec fn spec_flags_name() -> Seq<char> {
        "BitFlags16"@
    }

    fn flags_name() -> (r: &'static str) {
        "BitFlags16"
    }

    fn get(self, index: u32) -> (r: bool) {
        self.0.get_bit(index)
    }

    fn set(&mut self, index: u32, value: bool) -> (r: bool) {
        let previous = self.0.get_bit(index);
        self.0 = self.0.set_bit(index, value);
        proof {
            assert forall|j: u32| j < 16 implies #[trigger] self.0.spec_get_bit(j) == if j == index {
                value
            } else {
                old(self).0.spec_get_bit(j)
            } by {
                crate::bit::lemma_u16_get_after_set(old(self).0, index, j, value);
            }
        }
        previous
    }

    fn iter(self) -> (r: Vec<bool>) {
        let mut out: Vec<bool> = Vec::with_capacity(16);
        let mut i: u32 = 0;
        while i < 16
            invariant
                i <= 16,
                out@.len() == i,
                forall|k: int| 0 <= k < i ==> out@[k] == self.spec_get(k as u32),
            decreases 16 - i,
        {
            out.push(self.0.get_bit(i));
            i = i + 1;
        }
        out
    }
}

/// 32 flags in a `u32`; flag `i` is bit `i`.
#[derive(Debug, Default, Clone, Copy, PartialEq, Eq, Structural, PartialOrd, Ord, Hash)]
pub struct BitFlags32(pub u32);

impl BitFlags32 {
    /// The flags as text, as [`flags_to_string`] writes them.
    pub fn to_string(self) -> (r: String)
        ensures
            r@ == "BitFlags32"@ + seq!['('] + flag_bytes_from(self, 4, 0) + seq![')'],
    {
        flags_to_string(self)
    }
}

impl BitFlagsSealed for BitFlags32 {

}

impl BitFlags for BitFlags32 {
    open spec fn spec_bit_size() -> u32 {
        32
    }

    open spec fn spec_get(self, index: u32) -> bool {
        self.0.spec_get_bit(index)
    }

    fn bit_size() -> (r: u32) {
        32
    }

    open spec fn spec_flags_name() -> Seq<char> {
        "BitFlags32"@
    }

    fn flags_name() -> (r: &'static str) {
        "BitFlags32"
    }

    fn get(self, index: u32) -> (r: bool) {
        self.0.get_bit(index)
    }

    fn set(&mut self, index: u32, value: bool) -> (r: bool) {
        let previous = self.0.get_bit(index);
        self.0 = self.0.set_bit(index, value);
        proof {
            assert forall|j: u32| j < 32 implies #[trigger] self.0.spec_get_bit(j) == if j == index {
                value
            } else {
                old(self).0.spec_get_bit(j)
            } by {
                crate::bit::lemma_u32_get_after_set(old(self).0, index, j, value);
            }
        }
        previous
    }

    fn iter(self) -> (r: Vec<bool>) {
        let mut out: Vec<bool> = Vec::with_capacity(32);
        let mut i: u32 = 0;
        while i < 32
            invariant
                i <= 32,
                out@.len() == i,
                forall|k: int| 0 <= k < i ==> out@[k] == self.spec_get(k as u32),
            decreases 32 - i,
        {
            out.push(self.0.get_bit(i));
            i = i + 1;
        }
        out
    }
}

/// 64 flags in a `u64`; flag `i` is bit `i`.
#[derive(Debug, Default, Clone, Copy, PartialEq, Eq, Structural, PartialOrd, Ord, Hash)]
pub struct BitFlags64(pub u64);

impl BitFlags64 {
    /// The flags as text, as [`flags_to_string`] writes them.
    pub fn to_string(self) -> (r: String)
        ensures
            r@ == "BitFlags64"@ + seq!['('] + flag_bytes_from(self, 8, 0) + seq![')'],
    {
        flags_to_string(self)
    }
}

impl BitFlagsSealed for BitFlags64 {

}

impl BitFlags for BitFlags64 {
    open spec fn spec_bit_size() -> u32 {
        64
    }

    open spec fn spec_get(self, index: u32) -> bool {
        self.0.spec_get_bit(index)
    }

    fn bit_size() -> (r: u32) {
        64
    }

    open spec fn spec_flags_name() -> Seq<char> {
        "BitFlags64"@
    }

    fn flags_name() -> (r: &'static str) {
        "BitFlags64"
    }

    fn get(self, index: u32) -> (r: bool) {
        self.0.get_bit(index)
    }

    fn set(&mut self, index: u32, value: bool) -> (r: bool) {
        let previous = self.0.get_bit(index);
        self.0 = self.0.set_bit(index, value);
        proof {
            assert forall|j: u32| j < 64 implies #[trigger] self.0.spec_get_bit(j) == if j == index {
                value
            } else {
                old(self).0.spec_get_bit(j)
            } by {
                crate::bit::lemma_u64_get_after_set(old(self).0, index, j, value);
            }
        }
        previous
    }

    fn iter(self) -> (r: Vec<bool>) {
        let mut out: Vec<bool> = Vec::with_capacity(64);
        let mut i: u32 = 0;
        while i < 64
            invariant
                i <= 64,
                out@.len() == i,
                forall|k: int| 0 <= k < i ==> out@[k] == self.spec_get(k as u32),
            decreases 64 - i,
        {
            out.push(self.0.get_bit(i));
            i = i + 1;
        }
        out
    }
}

/// 128 flags in a `u128`; flag `i` is bit `i`.
#[derive(Debug, Default, Clone, Copy, PartialEq, Eq, Structural, PartialOrd, Ord, Hash)]
pub struct BitFlags128(pub u128);

impl BitFlags128 {
    /// The flags as text, as [`flags_to_string`] writes them.
    pub fn to_string(self) -> (r: String)
        ensures
            r@ == "BitFlags128"@ + seq!['('] + flag_bytes_from(self, 16, 0) + seq![')'],
    {
        flags_to_string(self)
    }
}

impl BitFlagsSealed for BitFlags128 {

}

/// Bit `index` of `x`.
pub open spec fn u128_bit(x: u128, index: u32) -> bool {
    index < 128 && (x & (1u128 << index)) != 0
}

proof fn lemma_u128_set_bit(x: u128, i: u32, j: u32, value: bool)
    requires
        i < 128,
        j < 128,
    ensures
        u128_bit(if value { x | (1u128 << i) } else { x & !(1u128 << i) }, j) == if j == i {
            value
        } else {
            u128_bit(x, j)
        },
{
    assert((if value { x | (1u128 << i) } else { x & !(1u128 << i) }) & (1u128 << j) != 0 <==> if j == i {
        value
    } else {
        x & (1u128 << j) != 0
    }) by (bit_vector)
        requires
            i < 128,
            j < 128,
    ;
}

impl BitFlags for BitFlags128 {
    open spec fn spec_bit_size() -> u32 {
        128
    }

    open spec fn spec_get(self, index: u32) -> bool {
        u128_bit(self.0, index)
    }

    fn bit_size() -> (r: u32) {
        128
    }

    open spec fn spec_flags_name() -> Seq<char> {
        "BitFlags128"@
    }

    fn flags_name() -> (r: &'static str) {
        "BitFlags128"
    }

    fn get(self, index: u32) -> (r: bool) {
        (self.0 & (1u128 << index)) != 0
    }

    fn set(&mut self, index: u32, value: bool) -> (r: bool) {
        let previous = (self.0 & (1u128 << index)) != 0;
        if value {
            self.0 = self.0 | (1u128 << index);
        } else {
            self.0 = self.0 & !(1u128 << index);
        }
        proof {
            assert forall|j: u32| j < 128 implies #[trigger] u128_bit(self.0, j) == if j == index {
                value
            } else {
                u128_bit(old(self).0, j)
            } by {
                lemma_u128_set_bit(old(self).0, index, j, value);
            }
        }
        previous
    }

    fn iter(self) -> (r: Vec<bool>) {
        let mut out: Vec<bool> = Vec::with_capacity(128);
        let mut i: u32 = 0;
        while i < 128
            invariant
                i <= 128,
                out@.len() == i,
                forall|k: int| 0 <= k < i ==> out@[k] == self.spec_get(k as u32),
            decreases 128 - i,
        {
            out.push((self.0 & (1u128 << i)) != 0);
            i = i + 1;
        }
        out
    }
}

impl BitOr<BitFlags8> for BitFlags8 {
    type Output = BitFlags8;

    fn bitor(self, rhs: BitFlags8) -> (r: BitFlags8) {
        BitFlags8(self.0 | rhs.0)
    }
}

impl BitOrSpecImpl<BitFlags8> for BitFlags8 {
    open spec fn obeys_bitor_spec() -> bool {
        true
    }

    open spec fn bitor_req(self, rhs: BitFlags8) -> bool {
        true
    }

    open spec fn bitor_spec(self, rhs: BitFlags8) -> BitFlags8 {
        BitFlags8(self.0 | rhs.0)
    }
}

impl BitOr<u8> for BitFlags8 {
    type Output = BitFlags8;

    fn bitor(self, rhs: u8) -> (r: BitFlags8) {
        BitFlags8(self.0 | rhs)
    }
}

impl BitOrSpecImpl<u8> for BitFlags8 {
    open spec fn obeys_bitor_spec() -> bool {
        true
    }

    open spec fn bitor_req(self, rhs: u8) -> bool {
        true
    }

    open spec fn bitor_spec(self, rhs: u8) -> BitFlags8 {
        BitFlags8(self.0 | rhs)
    }
}

impl BitAnd<BitFlags8> for BitFlags8 {
    type Output = BitFlags8;

    fn bitand(self, rhs: BitFlags8) -> (r: BitFlags8) {
        BitFlags8(self.0 & rhs.0)
    }
}

impl BitAndSpecImpl<BitFlags8> for BitFlags8 {
    open spec fn obeys_bitand_spec() -> bool {
        true
    }

    open spec fn bitand_req(self, rhs: BitFlags8) -> bool {
        true
    }

    open spec fn bitand_spec(self, rhs: BitFlags8) -> BitFlags8 {
        BitFlags8(self.0 & rhs.0)
    }
}

impl BitAnd<u8> for BitFlags8 {
    type Output = BitFlags8;

    fn bitand(self, rhs: u8) -> (r: BitFlags8) {
        BitFlags8(self.0 & rhs)
    }
}

impl BitAndSpecImpl<u8> for BitFlags8 {
    open spec fn obeys_bitand_spec() -> bool {
        true
    }

    open spec fn bitand_req(self, rhs: u8) -> bool {
        true
    }

    open spec fn bitand_spec(self, rhs: u8) -> BitFlags8 {
        BitFlags8(self.0 & rhs)
    }
}

impl BitXor<BitFlags8> for BitFlags8 {
    type Output = BitFlags8;

    fn bitxor(self, rhs: BitFlags8) -> (r: BitFlags8) {
        BitFlags8(self.0 ^ rhs.0)
    }
}

impl BitXorSpecImpl<BitFlags8> for BitFlags8 {
    open spec fn obeys_bitxor_spec() -> bool {
        true
    }

    open spec fn bitxor_req(self, rhs: BitFlags8) -> bool {
        true
    }

    open spec fn bitxor_spec(self, rhs: BitFlags8) -> BitFlags8 {
        BitFlags8(self.0 ^ rhs.0)
    }
}

impl BitXor<u8> for BitFlags8 {
    type Output = BitFlags8;

    fn bitxor(self, rhs: u8) -> (r: BitFlags8) {
        BitFlags8(self.0 ^ rhs)
    }
}

impl BitXorSpecImpl<u8> for BitFlags8 {
    open spec fn obeys_bitxor_spec() -> bool {
        true
    }

    open spec fn bitxor_req(self, rhs: u8) -> bool {
        true
    }

    open spec fn bitxor_spec(self, rhs: u8) -> BitFlags8 {
        BitFlags8(self.0 ^ rhs)
    }
}

impl Sub<BitFlags8> for BitFlags8 {
    type Output = BitFlags8;

    fn sub(self, rhs: BitFlags8) -> (r: BitFlags8) {
        BitFlags8(self.0 & !rhs.0)
    }
}

impl SubSpecImpl<BitFlags8> for BitFlags8 {
    open spec fn obeys_sub_spec() -> bool {
        true
    }

    open spec fn sub_req(self, rhs: BitFlags8) -> bool {
        true
    }

    open spec fn sub_spec(self, rhs: BitFlags8) -> BitFlags8 {
        BitFlags8(self.0 & !rhs.0)
    }
}

impl Sub<u8> for BitFlags8 {
    type Output = BitFlags8;

    fn sub(self, rhs: u8) -> (r: BitFlags8) {
        BitFlags8(self.0 & !rhs)
    }
}

impl SubSpecImpl<u8> for BitFlags8 {
    open spec fn obeys_sub_spec() -> bool {
        true
    }

    open spec fn sub_req(self, rhs: u8) -> bool {
        true
    }

    open spec fn sub_spec(self, rhs: u8) -> BitFlags8 {
        BitFlags8(self.0 & !rhs)
    }
}

impl Not for BitFlags8 {
    type Output = BitFlags8;

    fn not(self) -> (r: BitFlags8) {
        BitFlags8(!self.0)
    }
}

impl NotSpecImpl for BitFlags8 {
    open spec fn obeys_not_spec() -> bool {
        true
    }

    open spec fn not_req(self) -> bool {
        true
    }

    open spec fn not_spec(self) -> BitFlags8 {
        BitFlags8(!self.0)
    }
}


impl BitOr<BitFlags16> for BitFlags16 {
    type Output = BitFlags16;

    fn bitor(self, rhs: BitFlags16) -> (r: BitFlags16) {
        BitFlags16(self.0 | rhs.0)
    }
}

impl BitOrSpecImpl<BitFlags16> for BitFlags16 {
    open spec fn obeys_bitor_spec() -> bool {
        true
    }

    open spec fn bitor_req(self, rhs: BitFlags16) -> bool {
        true
    }

    open spec fn bitor_spec(self, rhs: BitFlags16) -> BitFlags16 {
        BitFlags16(self.0 | rhs.0)
    }
}

impl BitOr<u16> for BitFlags16 {
    type Output = BitFlags16;

    fn bitor(self, rhs: u16) -> (r: BitFlags16) {
        BitFlags16(self.0 | rhs)
    }
}

impl BitOrSpecImpl<u16> for BitFlags16 {
    open spec fn obeys_bitor_spec() -> bool {
        true
    }

    open spec fn bitor_req(self, rhs: u16) -> bool {
        true
    }

    open spec fn bitor_spec(self, rhs: u16) -> BitFlags16 {
        BitFlags16(self.0 | rhs)
    }
}

impl BitAnd<BitFlags16> for BitFlags16 {
    type Output = BitFlags16;

    fn bitand(self, rhs: BitFlags16) -> (r: BitFlags16) {
        BitFlags16(self.0 & rhs.0)
    }
}

impl BitAndSpecImpl<BitFlags16> for BitFlags16 {
    open spec fn obeys_bitand_spec() -> bool {
        true
    }

    open spec fn bitand_req(self, rhs: BitFlags16) -> bool {
        true
    }

    open spec fn bitand_spec(self, rhs: BitFlags16) -> BitFlags16 {
        BitFlags16(self.0 & rhs.0)
    }
}

impl BitAnd<u16> for BitFlags16 {
    type Output = BitFlags16;

    fn bitand(self, rhs: u16) -> (r: BitFlags16) {
        BitFlags16(self.0 & rhs)
    }
}

impl BitAndSpecImpl<u16> for BitFlags16 {
    open spec fn obeys_bitand_spec() -> bool {
        true
    }

    open spec fn bitand_req(self, rhs: u16) -> bool {
        true
    }

    open spec fn bitand_spec(self, rhs: u16) -> BitFlags16 {
        BitFlags16(self.0 & rhs)
    }
}

impl BitXor<BitFlags16> for BitFlags16 {
    type Output = BitFlags16;

    fn bitxor(self, rhs: BitFlags16) -> (r: BitFlags16) {
        BitFlags16(self.0 ^ rhs.0)
    }
}

impl BitXorSpecImpl<BitFlags16> for BitFlags16 {
    open spec fn obeys_bitxor_spec() -> bool {
        true
    }

    open spec fn bitxor_req(self, rhs: BitFlags16) -> bool {
        true
    }

    open spec fn bitxor_spec(self, rhs: BitFlags16) -> BitFlags16 {
        BitFlags16(self.0 ^ rhs.0)
    }
}

impl BitXor<u16> for BitFlags16 {
    type Output = BitFlags16;

    fn bitxor(self, rhs: u16) -> (r: BitFlags16) {
        BitFlags16(self.0 ^ rhs)
    }
}

impl BitXorSpecImpl<u16> for BitFlags16 {
    open spec fn obeys_bitxor_spec() -> bool {
        true
    }

    open spec fn bitxor_req(self, rhs: u16) -> bool {
        true
    }

    open spec fn bitxor_spec(self, rhs: u16) -> BitFlags16 {
        BitFlags16(self.0 ^ rhs)
    }
}

impl Sub<BitFlags16> for BitFlags16 {
    type Output = BitFlags16;

    fn sub(self, rhs: BitFlags16) -> (r: BitFlags16) {
        BitFlags16(self.0 & !rhs.0)
    }
}

impl SubSpecImpl<BitFlags16> for BitFlags16 {
    open spec fn obeys_sub_spec() -> bool {
        true
    }

    open spec fn sub_req(self, rhs: BitFlags16) -> bool {
        true
    }

    open spec fn sub_spec(self, rhs: BitFlags16) -> BitFlags16 {
        BitFlags16(self.0 & !rhs.0)
    }
}

impl Sub<u16> for BitFlags16 {
    type Output = BitFlags16;

    fn sub(self, rhs: u16) -> (r: BitFlags16) {
        BitFlags16(self.0 & !rhs)
    }
}

impl SubSpecImpl<u16> for BitFlags16 {
    open spec fn obeys_sub_spec() -> bool {
        true
    }

    open spec fn sub_req(self, rhs: u16) -> bool {
        true
    }

    open spec fn sub_spec(self, rhs: u16) -> BitFlags16 {
        BitFlags16(self.0 & !rhs)
    }
}

impl Not for BitFlags16 {
    type Output = BitFlags16;

    fn not(self) -> (r: BitFlags16) {
        BitFlags16(!self.0)
    }
}

impl NotSpecImpl for BitFlags16 {
    open spec fn obeys_not_spec() -> bool {
        true
    }

    open spec fn not_req(self) -> bool {
        true
    }

    open spec fn not_spec(self) -> BitFlags16 {
        BitFlags16(!self.0)
    }
}

impl BitOr<BitFlags32> for BitFlags32 {
    type Output = BitFlags32;

    fn bitor(self, rhs: BitFlags32) -> (r: BitFlags32) {
        BitFlags32(self.0 | rhs.0)
    }
}

impl BitOrSpecImpl<BitFlags32> for BitFlags32 {
    open spec fn obeys_bitor_spec() -> bool {
        true
    }

    open spec fn bitor_req(self, rhs: BitFlags32) -> bool {
        true
    }

    open spec fn bitor_spec(self, rhs: BitFlags32) -> BitFlags32 {
        BitFlags32(self.0 | rhs.0)
    }
}

impl BitOr<u32> for BitFlags32 {
    type Output = BitFlags32;

    fn bitor(self, rhs: u32) -> (r: BitFlags32) {
        BitFlags32(self.0 | rhs)
    }
}

impl BitOrSpecImpl<u32> for BitFlags32 {
    open spec fn obeys_bitor_spec() -> bool {
        true
    }

    open spec fn bitor_req(self, rhs: u32) -> bool {
        true
    }

    open spec fn bitor_spec(self, rhs: u32) -> BitFlags32 {
        BitFlags32(self.0 | rhs)
    }
}

impl BitAnd<BitFlags32> for BitFlags32 {
    type Output = BitFlags32;

    fn bitand(self, rhs: BitFlags32) -> (r: BitFlags32) {
        BitFlags32(self.0 & rhs.0)
    }
}

impl BitAndSpecImpl<BitFlags32> for BitFlags32 {
    open spec fn obeys_bitand_spec() -> bool {
        true
    }

    open spec fn bitand_req(self, rhs: BitFlags32) -> bool {
        true
    }

    open spec fn bitand_spec(self, rhs: BitFlags32) -> BitFlags32 {
        BitFlags32(self.0 & rhs.0)
    }
}

impl BitAnd<u32> for BitFlags32 {
    type Output = BitFlags32;

    fn bitand(self, rhs: u32) -> (r: BitFlags32) {
        BitFlags32(self.0 & rhs)
    }
}

impl BitAndSpecImpl<u32> for BitFlags32 {
    open spec fn obeys_bitand_spec() -> bool {
        true
    }

    open spec fn bitand_req(self, rhs: u32) -> bool {
        true
    }

    open spec fn bitand_spec(self, rhs: u32) -> BitFlags32 {
        BitFlags32(self.0 & rhs)
    }
}

impl BitXor<BitFlags32> for BitFlags32 {
    type Output = BitFlags32;

    fn bitxor(self, rhs: BitFlags32) -> (r: BitFlags32) {
        BitFlags32(self.0 ^ rhs.0)
    }
}

impl BitXorSpecImpl<BitFlags32> for BitFlags32 {
    open spec fn obeys_bitxor_spec() -> bool {
        true
    }

    open spec fn bitxor_req(self, rhs: BitFlags32) -> bool {
        true
    }

    open spec fn bitxor_spec(self, rhs: BitFlags32) -> BitFlags32 {
        BitFlags32(self.0 ^ rhs.0)
    }
}

impl BitXor<u32> for BitFlags32 {
    type Output = BitFlags32;

    fn bitxor(self, rhs: u32) -> (r: BitFlags32) {
        BitFlags32(self.0 ^ rhs)
    }
}

impl BitXorSpecImpl<u32> for BitFlags32 {
    open spec fn obeys_bitxor_spec() -> bool {
        true
    }

    open spec fn bitxor_req(self, rhs: u32) -> bool {
        true
    }

    open spec fn bitxor_spec(self, rhs: u32) -> BitFlags32 {
        BitFlags32(self.0 ^ rhs)
    }
}

impl Sub<BitFlags32> for BitFlags32 {
    type Output = BitFlags32;

    fn sub(self, rhs: BitFlags32) -> (r: BitFlags32) {
        BitFlags32(self.0 & !rhs.0)
    }
}

impl SubSpecImpl<BitFlags32> for BitFlags32 {
    open spec fn obeys_sub_spec() -> bool {
        true
    }

    open spec fn sub_req(self, rhs: BitFlags32) -> bool {
        true
    }

    open spec fn sub_spec(self, rhs: BitFlags32) -> BitFlags32 {
        BitFlags32(self.0 & !rhs.0)
    }
}

impl Sub<u32> for BitFlags32 {
    type Output = BitFlags32;

    fn sub(self, rhs: u32) -> (r: BitFlags32) {
        BitFlags32(self.0 & !rhs)
    }
}

impl SubSpecImpl<u32> for BitFlags32 {
    open spec fn obeys_sub_spec() -> bool {
        true
    }

    open spec fn sub_req(self, rhs: u32) -> bool {
        true
    }

    open spec fn sub_spec(self, rhs: u32) -> BitFlags32 {
        BitFlags32(self.0 & !rhs)
    }
}

impl Not for BitFlags32 {
    type Output = BitFlags32;

    fn not(self) -> (r: BitFlags32) {
        BitFlags32(!self.0)
    }
}

impl NotSpecImpl for BitFlags32 {
    open spec fn obeys_not_spec() -> bool {
        true
    }

    open spec fn not_req(self) -> bool {
        true
    }

    open spec fn not_spec(self) -> BitFlags32 {
        BitFlags32(!self.0)
    }
}

impl BitOr<BitFlags64> for BitFlags64 {
    type Output = BitFlags64;

    fn bitor(self, rhs: BitFlags64) -> (r: BitFlags64) {
        BitFlags64(self.0 | rhs.0)
    }
}

impl BitOrSpecImpl<BitFlags64> for BitFlags64 {
    open spec fn obeys_bitor_spec() -> bool {
        true
    }

    open spec fn bitor_req(self, rhs: BitFlags64) -> bool {
        true
    }

    open spec fn bitor_spec(self, rhs: BitFlags64) -> BitFlags64 {
        BitFlags64(self.0 | rhs.0)
    }
}

impl BitOr<u64> for BitFlags64 {
    type Output = BitFlags64;

    fn bitor(self, rhs: u64) -> (r: BitFlags64) {
        BitFlags64(self.0 | rhs)
    }
}

impl BitOrSpecImpl<u64> for BitFlags64 {
    open spec fn obeys_bitor_spec() -> bool {
        true
    }

    open spec fn bitor_req(self, rhs: u64) -> bool {
        true
    }

    open spec fn bitor_spec(self, rhs: u64) -> BitFlags64 {
        BitFlags64(self.0 | rhs)
    }
}

impl BitAnd<BitFlags64> for BitFlags64 {
    type Output = BitFlags64;

    fn bitand(self, rhs: BitFlags64) -> (r: BitFlags64) {
        BitFlags64(self.0 & rhs.0)
    }
}

impl BitAndSpecImpl<BitFlags64> for BitFlags64 {
    open spec fn obeys_bitand_spec() -> bool {
        true
    }

    open spec fn bitand_req(self, rhs: BitFlags64) -> bool {
        true
    }

    open spec fn bitand_spec(self, rhs: BitFlags64) -> BitFlags64 {
        BitFlags64(self.0 & rhs.0)
    }
}

impl BitAnd<u64> for BitFlags64 {
    type Output = BitFlags64;

    fn bitand(self, rhs: u64) -> (r: BitFlags64) {
        BitFlags64(self.0 & rhs)
    }
}

impl BitAndSpecImpl<u64> for BitFlags64 {
    open spec fn obeys_bitand_spec() -> bool {
        true
    }

    open spec fn bitand_req(self, rhs: u64) -> bool {
        true
    }

    open spec fn bitand_spec(self, rhs: u64) -> BitFlags64 {
        BitFlags64(self.0 & rhs)
    }
}

impl BitXor<BitFlags64> for BitFlags64 {
    type Output = BitFlags64;

    fn bitxor(self, rhs: BitFlags64) -> (r: BitFlags64) {
        BitFlags64(self.0 ^ rhs.0)
    }
}

impl BitXorSpecImpl<BitFlags64> for BitFlags64 {
    open spec fn obeys_bitxor_spec() -> bool {
        true
    }

    open spec fn bitxor_req(self, rhs: BitFlags64) -> bool {
        true
    }

    open spec fn bitxor_spec(self, rhs: BitFlags64) -> BitFlags64 {
        BitFlags64(self.0 ^ rhs.0)
    }
}

impl BitXor<u64> for BitFlags64 {
    type Output = BitFlags64;

    fn bitxor(self, rhs: u64) -> (r: BitFlags64) {
        BitFlags64(self.0 ^ rhs)
    }
}

impl BitXorSpecImpl<u64> for BitFlags64 {
    open spec fn obeys_bitxor_spec() -> bool {
        true
    }

    open spec fn bitxor_req(self, rhs: u64) -> bool {
        true
    }

    open spec fn bitxor_spec(self, rhs: u64) -> BitFlags64 {
        BitFlags64(self.0 ^ rhs)
    }
}

impl Sub<BitFlags64> for BitFlags64 {
    type Output = BitFlags64;

    fn sub(self, rhs: BitFlags64) -> (r: BitFlags64) {
        BitFlags64(self.0 & !rhs.0)
    }
}

impl SubSpecImpl<BitFlags64> for BitFlags64 {
    open spec fn obeys_sub_spec() -> bool {
        true
    }

    open spec fn sub_req(self, rhs: BitFlags64) -> bool {
        true
    }

    open spec fn sub_spec(self, rhs: BitFlags64) -> BitFlags64 {
        BitFlags64(self.0 & !rhs.0)
    }
}

impl Sub<u64> for BitFlags64 {
    type Output = BitFlags64;

    fn sub(self, rhs: u64) -> (r: BitFlags64) {
        BitFlags64(self.0 & !rhs)
    }
}

impl SubSpecImpl<u64> for BitFlags64 {
    open spec fn obeys_sub_spec() -> bool {
        true
    }

    open spec fn sub_req(self, rhs: u64) -> bool {
        true
    }

    open spec fn sub_spec(self, rhs: u64) -> BitFlags64 {
        BitFlags64(self.0 & !rhs)
    }
}

impl Not for BitFlags64 {
    type Output = BitFlags64;

    fn not(self) -> (r: BitFlags64) {
        BitFlags64(!self.0)
    }
}

impl NotSpecImpl for BitFlags64 {
    open spec fn obeys_not_spec() -> bool {
        true
    }

    open spec fn not_req(self) -> bool {
        true
    }

    open spec fn not_spec(self) -> BitFlags64 {
        BitFlags64(!self.0)
    }
}

impl BitOr<BitFlags128> for BitFlags128 {
    type Output = BitFlags128;

    fn bitor(self, rhs: BitFlags128) -> (r: BitFlags128) {
        BitFlags128(self.0 | rhs.0)
    }
}

impl BitOrSpecImpl<BitFlags128> for BitFlags128 {
    open spec fn obeys_bitor_spec() -> bool {
        true
    }

    open spec fn bitor_req(self, rhs: BitFlags128) -> bool {
        true
    }

    open spec fn bitor_spec(self, rhs: BitFlags128) -> BitFlags128 {
        BitFlags128(self.0 | rhs.0)
    }
}

impl BitOr<u128> for BitFlags128 {
    type Output = BitFlags128;

    fn bitor(self, rhs: u128) -> (r: BitFlags128) {
        BitFlags128(self.0 | rhs)
    }
}

impl BitOrSpecImpl<u128> for BitFlags128 {
    open spec fn obeys_bitor_spec() -> bool {
        true
    }

    open spec fn bitor_req(self, rhs: u128) -> bool {
        true
    }

    open spec fn bitor_spec(self, rhs: u128) -> BitFlags128 {
        BitFlags128(self.0 | rhs)
    }
}

impl BitAnd<BitFlags128> for BitFlags128 {
    type Output = BitFlags128;

    fn bitand(self, rhs: BitFlags128) -> (r: BitFlags128) {
        BitFlags128(self.0 & rhs.0)
    }
}

impl BitAndSpecImpl<BitFlags128> for BitFlags128 {
    open spec fn obeys_bitand_spec() -> bool {
        true
    }

    open spec fn bitand_req(self, rhs: BitFlags128) -> bool {
        true
    }

    open spec fn bitand_spec(self, rhs: BitFlags128) -> BitFlags128 {
        BitFlags128(self.0 & rhs.0)
    }
}

impl BitAnd<u128> for BitFlags128 {
    type Output = BitFlags128;

    fn bitand(self, rhs: u128) -> (r: BitFlags128) {
        BitFlags128(self.0 & rhs)
    }
}

impl BitAndSpecImpl<u128> for BitFlags128 {
    open spec fn obeys_bitand_spec() -> bool {
        true
    }

    open spec fn bitand_req(self, rhs: u128) -> bool {
        true
    }

    open spec fn bitand_spec(self, rhs: u128) -> BitFlags128 {
        BitFlags128(self.0 & rhs)
    }
}

impl BitXor<BitFlags128> for BitFlags128 {
    type Output = BitFlags128;

    fn bitxor(self, rhs: BitFlags128) -> (r: BitFlags128) {
        BitFlags128(self.0 ^ rhs.0)
    }
}

impl BitXorSpecImpl<BitFlags128> for BitFlags128 {
    open spec fn obeys_bitxor_spec() -> bool {
        true
    }

    open spec fn bitxor_req(self, rhs: BitFlags128) -> bool {
        true
    }

    open spec fn bitxor_spec(self, rhs: BitFlags128) -> BitFlags128 {
        BitFlags128(self.0 ^ rhs.0)
    }
}

impl BitXor<u128> for BitFlags128 {
    type Output = BitFlags128;

    fn bitxor(self, rhs: u128) -> (r: BitFlags128) {
        BitFlags128(self.0 ^ rhs)
    }
}

impl BitXorSpecImpl<u128> for BitFlags128 {
    open spec fn obeys_bitxor_spec() -> bool {
        true
    }

    open spec fn bitxor_req(self, rhs: u128) -> bool {
        true
    }

    open spec fn bitxor_spec(self, rhs: u128) -> BitFlags128 {
        BitFlags128(self.0 ^ rhs)
    }
}

impl Sub<BitFlags128> for BitFlags128 {
    type Output = BitFlags128;

    fn sub(self, rhs: BitFlags128) -> (r: BitFlags128) {
        BitFlags128(self.0 & !rhs.0)
    }
}

impl SubSpecImpl<BitFlags128> for BitFlags128 {
    open spec fn obeys_sub_spec() -> bool {
        true
    }

    open spec fn sub_req(self, rhs: BitFlags128) -> bool {
        true
    }

    open spec fn sub_spec(self, rhs: BitFlags128) -> BitFlags128 {
        BitFlags128(self.0 & !rhs.0)
    }
}

impl Sub<u128> for BitFlags128 {
    type Output = BitFlags128;

    fn sub(self, rhs: u128) -> (r: BitFlags128) {
        BitFlags128(self.0 & !rhs)
    }
}

impl SubSpecImpl<u128> for BitFlags128 {
    open spec fn obeys_sub_spec() -> bool {
        true
    }

    open spec fn sub_req(self, rhs: u128) -> bool {
        true
    }

    open spec fn sub_spec(self, rhs: u128) -> BitFlags128 {
        BitFlags128(self.0 & !rhs)
    }
}

impl Not for BitFlags128 {
    type Output = BitFlags128;

    fn not(self) -> (r: BitFlags128) {
        BitFlags128(!self.0)
    }
}

impl NotSpecImpl for BitFlags128 {
    open spec fn obeys_not_spec() -> bool {
        true
    }

    open spec fn not_req(self) -> bool {
        true
    }

    open spec fn not_spec(self) -> BitFlags128 {
        BitFlags128(!self.0)
    }
}


impl std::ops::Deref for BitFlags8 {
    type Target = u8;

    fn deref(&self) -> (r: &u8)
        ensures
            *r == self.0,
    {
        &self.0
    }
}

impl std::ops::Index<u32> for BitFlags8 {
    type Output = bool;

    /// Flag `index`; `false` past the last flag.
    fn index(&self, index: u32) -> (r: &bool)
        ensures
            index < 8 ==> *r == self.spec_get(index),
            index >= 8 ==> *r == false,
    {
        if index < 8 && self.get(index) {
            &true
        } else {
            &false
        }
    }
}

impl std::ops::Deref for BitFlags16 {
    type Target = u16;

    fn deref(&self) -> (r: &u16)
        ensures
            *r == self.0,
    {
        &self.0
    }
}

impl std::ops::Index<u32> for BitFlags16 {
    type Output = bool;

    /// Flag `index`; `false` past the last flag.
    fn index(&self, index: u32) -> (r: &bool)
        ensures
            index < 16 ==> *r == self.spec_get(index),
            index >= 16 ==> *r == false,
    {
        if index < 16 && self.get(index) {
            &true
        } else {
            &false
        }
    }
}

impl std::ops::Deref for BitFlags32 {
    type Target = u32;

    fn deref(&self) -> (r: &u32)
        ensures
            *r == self.0,
    {
        &self.0
    }
}

impl std::ops::Index<u32> for BitFlags32 {
    type Output = bool;

    /// Flag `index`; `false` past the last flag.
    fn index(&self, index: u32) -> (r: &bool)
        ensures
            index < 32 ==> *r == self.spec_get(index),
            index >= 32 ==> *r == false,
    {
        if index < 32 && self.get(index) {
            &true
        } else {
            &false
        }
    }
}

impl std::ops::Deref for BitFlags64 {
    type Target = u64;

    fn deref(&self) -> (r: &u64)
        ensures
            *r == self.0,
    {
        &self.0
    }
}

impl std::ops::Index<u32> for BitFlags64 {
    type Output = bool;

    /// Flag `index`; `false` past the last flag.
    fn index(&self, index: u32) -> (r: &bool)
        ensures
            index < 64 ==> *r == self.spec_get(index),
            index >= 64 ==> *r == false,
    {
        if index < 64 && self.get(index) {
            &true
        } else {
            &false
        }
    }
}

impl std::ops::Deref for BitFlags128 {
    type Target = u128;

    fn deref(&self) -> (r: &u128)
        ensures
            *r == self.0,
    {
        &self.0
    }
}

impl std::ops::Index<u32> for BitFlags128 {
    type Output = bool;

    /// Flag `index`; `false` past the last flag.
    fn index(&self, index: u32) -> (r: &bool)
        ensures
            index < 128 ==> *r == self.spec_get(index),
            index >= 128 ==> *r == false,
    {
        if index < 128 && self.get(index) {
            &true
        } else {
            &false
        }
    }
}


proof fn lemma_u8_flag_bit_ops(a: u8, b: u8, i: u32)
    by (bit_vector)
    requires
        i < 8,
    ensures
        (((a | b) & (1u8 << (i as u8))) != 0) == ((a & (1u8 << (i as u8))) != 0 || (b & (1u8 << (i as u8))) != 0),
        (((a & b) & (1u8 << (i as u8))) != 0) == ((a & (1u8 << (i as u8))) != 0 && (b & (1u8 << (i as u8))) != 0),
        (((a ^ b) & (1u8 << (i as u8))) != 0) == (((a & (1u8 << (i as u8))) != 0) != ((b & (1u8 << (i as u8))) != 0)),
        (((a & !b) & (1u8 << (i as u8))) != 0) == ((a & (1u8 << (i as u8))) != 0 && !((b & (1u8 << (i as u8))) != 0)),
        ((!a & (1u8 << (i as u8))) != 0) == !((a & (1u8 << (i as u8))) != 0),
{
}

/// Combining flag sets works flag by flag: `|` keeps the flags of either set, `&`
/// those of both, `^` those of exactly one, `-` removes exactly the flags of the
/// right side (and never adds one), and `!` turns every flag over; a raw
/// `u8` on the right stands for the flags of its bits.
pub proof fn lemma_u8_flag_ops(a: BitFlags8, b: BitFlags8, m: u8, i: u32)
    requires
        i < 8,
    ensures
        <BitFlags8 as BitOrSpec<BitFlags8>>::bitor_spec(a, b).spec_get(i) == (a.spec_get(i) || b.spec_get(i)),
        <BitFlags8 as BitAndSpec<BitFlags8>>::bitand_spec(a, b).spec_get(i) == (a.spec_get(i) && b.spec_get(i)),
        <BitFlags8 as BitXorSpec<BitFlags8>>::bitxor_spec(a, b).spec_get(i) == (a.spec_get(i) != b.spec_get(i)),
        <BitFlags8 as SubSpec<BitFlags8>>::sub_spec(a, b).spec_get(i) == (a.spec_get(i) && !b.spec_get(i)),
        <BitFlags8 as NotSpec>::not_spec(a).spec_get(i) == !a.spec_get(i),
        <BitFlags8 as BitOrSpec<u8>>::bitor_spec(a, m).spec_get(i) == (a.spec_get(i) || BitFlags8(m).spec_get(i)),
        <BitFlags8 as BitAndSpec<u8>>::bitand_spec(a, m).spec_get(i) == (a.spec_get(i) && BitFlags8(m).spec_get(i)),
        <BitFlags8 as BitXorSpec<u8>>::bitxor_spec(a, m).spec_get(i) == (a.spec_get(i) != BitFlags8(m).spec_get(i)),
        <BitFlags8 as SubSpec<u8>>::sub_spec(a, m).spec_get(i) == (a.spec_get(i) && !BitFlags8(m).spec_get(i)),
{
    lemma_u8_flag_bit_ops(a.0, b.0, i);
    lemma_u8_flag_bit_ops(a.0, m, i);
}

proof fn lemma_u16_flag_bit_ops(a: u16, b: u16, i: u32)
    by (bit_vector)
    requires
        i < 16,
    ensures
        (((a | b) & (1u16 << (i as u16))) != 0) == ((a & (1u16 << (i as u16))) != 0 || (b & (1u16 << (i as u16))) != 0),
        (((a & b) & (1u16 << (i as u16))) != 0) == ((a & (1u16 << (i as u16))) != 0 && (b & (1u16 << (i as u16))) != 0),
        (((a ^ b) & (1u16 << (i as u16))) != 0) == (((a & (1u16 << (i as u16))) != 0) != ((b & (1u16 << (i as u16))) != 0)),
        (((a & !b) & (1u16 << (i as u16))) != 0) == ((a & (1u16 << (i as u16))) != 0 && !((b & (1u16 << (i as u16))) != 0)),
        ((!a & (1u16 << (i as u16))) != 0) == !((a & (1u16 << (i as u16))) != 0),
{
}

/// Combining flag sets works flag by flag: `|` keeps the flags of either set, `&`
/// those of both, `^` those of exactly one, `-` removes exactly the flags of the
/// right side (and never adds one), and `!` turns every flag over; a raw
/// `u16` on the right stands for the flags of its bits.
pub proof fn lemma_u16_flag_ops(a: BitFlags16, b: BitFlags16, m: u16, i: u32)
    requires
        i < 16,
    ensures
        <BitFlags16 as BitOrSpec<BitFlags16>>::bitor_spec(a, b).spec_get(i) == (a.spec_get(i) || b.spec_get(i)),
        <BitFlags16 as BitAndSpec<BitFlags16>>::bitand_spec(a, b).spec_get(i) == (a.spec_get(i) && b.spec_get(i)),
        <BitFlags16 as BitXorSpec<BitFlags16>>::bitxor_spec(a, b).spec_get(i) == (a.spec_get(i) != b.spec_get(i)),
        <BitFlags16 as SubSpec<BitFlags16>>::sub_spec(a, b).spec_get(i) == (a.spec_get(i) && !b.spec_get(i)),
        <BitFlags16 as NotSpec>::not_spec(a).spec_get(i) == !a.spec_get(i),
        <BitFlags16 as BitOrSpec<u16>>::bitor_spec(a, m).spec_get(i) == (a.spec_get(i) || BitFlags16(m).spec_get(i)),
        <BitFlags16 as BitAndSpec<u16>>::bitand_spec(a, m).spec_get(i) == (a.spec_get(i) && BitFlags16(m).spec_get(i)),
        <BitFlags16 as BitXorSpec<u16>>::bitxor_spec(a, m).spec_get(i) == (a.spec_get(i) != BitFlags16(m).spec_get(i)),
        <BitFlags16 as SubSpec<u16>>::sub_spec(a, m).spec_get(i) == (a.spec_get(i) && !BitFlags16(m).spec_get(i)),
{
    lemma_u16_flag_bit_ops(a.0, b.0, i);
    lemma_u16_flag_bit_ops(a.0, m, i);
}

proof fn lemma_u32_flag_bit_ops(a: u32, b: u32, i: u32)
    by (bit_vector)
    requires
        i < 32,
    ensures
        (((a | b) & (1u32 << (i as u32))) != 0) == ((a & (1u32 << (i as u32))) != 0 || (b & (1u32 << (i as u32))) != 0),
        (((a & b) & (1u32 << (i as u32))) != 0) == ((a & (1u32 << (i as u32))) != 0 && (b & (1u32 << (i as u32))) != 0),
        (((a ^ b) & (1u32 << (i as u32))) != 0) == (((a & (1u32 << (i as u32))) != 0) != ((b & (1u32 << (i as u32))) != 0)),
        (((a & !b) & (1u32 << (i as u32))) != 0) == ((a & (1u32 << (i as u32))) != 0 && !((b & (1u32 << (i as u32))) != 0)),
        ((!a & (1u32 << (i as u32))) != 0) == !((a & (1u32 << (i as u32))) != 0),
{
}

/// Combining flag sets works flag by flag: `|` keeps the flags of either set, `&`
/// those of both, `^` those of exactly one, `-` removes exactly the flags of the
/// right side (and never adds one), and `!` turns every flag over; a raw
/// `u32` on the right stands for the flags of its bits.
pub proof fn lemma_u32_flag_ops(a: BitFlags32, b: BitFlags32, m: u32, i: u32)
    requires
        i < 32,
    ensures
        <BitFlags32 as BitOrSpec<BitFlags32>>::bitor_spec(a, b).spec_get(i) == (a.spec_get(i) || b.spec_get(i)),
        <BitFlags32 as BitAndSpec<BitFlags32>>::bitand_spec(a, b).spec_get(i) == (a.spec_get(i) && b.spec_get(i)),
        <BitFlags32 as BitXorSpec<BitFlags32>>::bitxor_spec(a, b).spec_get(i) == (a.spec_get(i) != b.spec_get(i)),
        <BitFlags32 as SubSpec<BitFlags32>>::sub_spec(a, b).spec_get(i) == (a.spec_get(i) && !b.spec_get(i)),
        <BitFlags32 as NotSpec>::not_spec(a).spec_get(i) == !a.spec_get(i),
        <BitFlags32 as BitOrSpec<u32>>::bitor_spec(a, m).spec_get(i) == (a.spec_get(i) || BitFlags32(m).spec_get(i)),
        <BitFlags32 as BitAndSpec<u32>>::bitand_spec(a, m).spec_get(i) == (a.spec_get(i) && BitFlags32(m).spec_get(i)),
        <BitFlags32 as BitXorSpec<u32>>::bitxor_spec(a, m).spec_get(i) == (a.spec_get(i) != BitFlags32(m).spec_get(i)),
        <BitFlags32 as SubSpec<u32>>::sub_spec(a, m).spec_get(i) == (a.spec_get(i) && !BitFlags32(m).spec_get(i)),
{
    lemma_u32_flag_bit_ops(a.0, b.0, i);
    lemma_u32_flag_bit_ops(a.0, m, i);
}

proof fn lemma_u64_flag_bit_ops(a: u64, b: u64, i: u32)
    by (bit_vector)
    requires
        i < 64,
    ensures
        (((a | b) & (1u64 << (i as u64))) != 0) == ((a & (1u64 << (i as u64))) != 0 || (b & (1u64 << (i as u64))) != 0),
        (((a & b) & (1u64 << (i as u64))) != 0) == ((a & (1u64 << (i as u64))) != 0 && (b & (1u64 << (i as u64))) != 0),
        (((a ^ b) & (1u64 << (i as u64))) != 0) == (((a & (1u64 << (i as u64))) != 0) != ((b & (1u64 << (i as u64))) != 0)),
        (((a & !b) & (1u64 << (i as u64))) != 0) == ((a & (1u64 << (i as u64))) != 0 && !((b & (1u64 << (i as u64))) != 0)),
        ((!a & (1u64 << (i as u64))) != 0) == !((a & (1u64 << (i as u64))) != 0),
{
}

/// Combining flag sets works flag by flag: `|` keeps the flags of either set, `&`
/// those of both, `^` those of exactly one, `-` removes exactly the flags of the
/// right side (and never adds one), and `!` turns every flag over; a raw
/// `u64` on the right stands for the flags of its bits.
pub proof fn lemma_u64_flag_ops(a: BitFlags64, b: BitFlags64, m: u64, i: u32)
    requires
        i < 64,
    ensures
        <BitFlags64 as BitOrSpec<BitFlags64>>::bitor_spec(a, b).spec_get(i) == (a.spec_get(i) || b.spec_get(i)),
        <BitFlags64 as BitAndSpec<BitFlags64>>::bitand_spec(a, b).spec_get(i) == (a.spec_get(i) && b.spec_get(i)),
        <BitFlags64 as BitXorSpec<BitFlags64>>::bitxor_spec(a, b).spec_get(i) == (a.spec_get(i) != b.spec_get(i)),
        <BitFlags64 as SubSpec<BitFlags64>>::sub_spec(a, b).spec_get(i) == (a.spec_get(i) && !b.spec_get(i)),
        <BitFlags64 as NotSpec>::not_spec(a).spec_get(i) == !a.spec_get(i),
        <BitFlags64 as BitOrSpec<u64>>::bitor_spec(a, m).spec_get(i) == (a.spec_get(i) || BitFlags64(m).spec_get(i)),
        <BitFlags64 as BitAndSpec<u64>>::bitand_spec(a, m).spec_get(i) == (a.spec_get(i) && BitFlags64(m).spec_get(i)),
        <BitFlags64 as BitXorSpec<u64>>::bitxor_spec(a, m).spec_get(i) == (a.spec_get(i) != BitFlags64(m).spec_get(i)),
        <BitFlags64 as SubSpec<u64>>::sub_spec(a, m).spec_get(i) == (a.spec_get(i) && !BitFlags64(m).spec_get(i)),
{
    lemma_u64_flag_bit_ops(a.0, b.0, i);
    lemma_u64_flag_bit_ops(a.0, m, i);
}

proof fn lemma_u128_flag_bit_ops(a: u128, b: u128, i: u32)
    by (bit_vector)
    requires
        i < 128,
    ensures
        (((a | b) & (1u128 << i)) != 0) == ((a & (1u128 << i)) != 0 || (b & (1u128 << i)) != 0),
        (((a & b) & (1u128 << i)) != 0) == ((a & (1u128 << i)) != 0 && (b & (1u128 << i)) != 0),
        (((a ^ b) & (1u128 << i)) != 0) == (((a & (1u128 << i)) != 0) != ((b & (1u128 << i)) != 0)),
        (((a & !b) & (1u128 << i)) != 0) == ((a & (1u128 << i)) != 0 && !((b & (1u128 << i)) != 0)),
        ((!a & (1u128 << i)) != 0) == !((a & (1u128 << i)) != 0),
{
}

/// Combining flag sets works flag by flag: `|` keeps the flags of either set, `&`
/// those of both, `^` those of exactly one, `-` removes exactly the flags of the
/// right side (and never adds one), and `!` turns every flag over; a raw
/// `u128` on the right stands for the flags of its bits.
pub proof fn lemma_u128_flag_ops(a: BitFlags128, b: BitFlags128, m: u128, i: u32)
    requires
        i < 128,
    ensures
        <BitFlags128 as BitOrSpec<BitFlags128>>::bitor_spec(a, b).spec_get(i) == (a.spec_get(i) || b.spec_get(i)),
        <BitFlags128 as BitAndSpec<BitFlags128>>::bitand_spec(a, b).spec_get(i) == (a.spec_get(i) && b.spec_get(i)),
        <BitFlags128 as BitXorSpec<BitFlags128>>::bitxor_spec(a, b).spec_get(i) == (a.spec_get(i) != b.spec_get(i)),
        <BitFlags128 as SubSpec<BitFlags128>>::sub_spec(a, b).spec_get(i) == (a.spec_get(i) && !b.spec_get(i)),
        <BitFlags128 as NotSpec>::not_spec(a).spec_get(i) == !a.spec_get(i),
        <BitFlags128 as BitOrSpec<u128>>::bitor_spec(a, m).spec_get(i) == (a.spec_get(i) || BitFlags128(m).spec_get(i)),
        <BitFlags128 as BitAndSpec<u128>>::bitand_spec(a, m).spec_get(i) == (a.spec_get(i) && BitFlags128(m).spec_get(i)),
        <BitFlags128 as BitXorSpec<u128>>::bitxor_spec(a, m).spec_get(i) == (a.spec_get(i) != BitFlags128(m).spec_get(i)),
        <BitFlags128 as SubSpec<u128>>::sub_spec(a, m).spec_get(i) == (a.spec_get(i) && !BitFlags128(m).spec_get(i)),
{
    lemma_u128_flag_bit_ops(a.0, b.0, i);
    lemma_u128_flag_bit_ops(a.0, m, i);
}

} // verus!
