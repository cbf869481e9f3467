use vstd::prelude::*;
use std::marker::PhantomData;
use crate::text::{decimal, push_decimal_u64, push_str, string_with_capacity};

verus! {

/// Bits 0..32 of a raw id: the slot index plus one.
pub const INDEX_BITS: u64 = 0x0000_0000_FFFF_FFFF;
/// Bits 32..54 of a raw id: the generation of the slot.
pub const GENERATION_BITS: u64 = 0x003F_FFFF_0000_0000;
/// Bits 54..64 of a raw id: the id of the owning pool.
pub const POOL_ID_BITS: u64 = 0xFFC0_0000_0000_0000;
/// Offset of the generation field.
pub const GENERATION_ID_OFFSET: u64 = 32;
/// Offset of the pool id field.
pub const POOL_ID_OFFSET: u64 = 54;
/// Largest generation that fits in its field.
pub const GENERATION_MAX: u64 = 0x3F_FFFF;
/// Largest pool id that fits in its field.
pub const POOL_ID_MAX: u64 = 0x3FF;
/// Largest slot index plus one that fits in its field.
pub const INDEX_MAX: u64 = 0xFFFF_FFFF;

/// The index field (slot index plus one) of a raw id.
pub open spec fn raw_index_field(raw: u64) -> u64 {
    raw & INDEX_BITS
}

/// The generation field of a raw id.
pub open spec fn raw_generation(raw: u64) -> u64 {
    (raw >> 32u64) & GENERATION_MAX
}

/// The pool id field of a raw id.
pub open spec fn raw_pool_id(raw: u64) -> u64 {
    (raw >> 54u64) & POOL_ID_MAX
}

/// The raw id that packs a pool id, a slot index and a generation.
pub open spec fn raw_pack(pool_id: u64, index: u64, generation: u64) -> u64 {
    ((index + 1) as u64) | (pool_id << 54u64) | (generation << 32u64)
}

/// The fields a packed id is made of, as long as each fits in its field.
pub open spec fn pack_fits(pool_id: u64, index: u64, generation: u64) -> bool {
    &&& index < INDEX_MAX
    &&& generation <= GENERATION_MAX
    &&& pool_id <= POOL_ID_MAX
}

/// Packing fields that fit and reading them back gives the same fields, and
/// a packed id is never null.
pub proof fn lemma_pack_unpack(pool_id: u64, index: u64, generation: u64)
    requires
        pack_fits(pool_id, index, generation),
    ensures
        raw_index_field(raw_pack(pool_id, index, generation)) == index + 1,
        raw_generation(raw_pack(pool_id, index, generation)) == generation,
        raw_pool_id(raw_pack(pool_id, index, generation)) == pool_id,
        raw_pack(pool_id, index, generation) != 0,
{
    let i = (index + 1) as u64;
    assert(i <= 0xFFFF_FFFFu64);
    assert((i | (pool_id << 54u64) | (generation << 32u64)) & 0xFFFF_FFFFu64 == i
        && ((i | (pool_id << 54u64) | (generation << 32u64)) >> 32u64) & 0x3F_FFFFu64 == generation
        && ((i | (pool_id << 54u64) | (generation << 32u64)) >> 54u64) & 0x3FFu64 == pool_id
        && (i != 0 ==> (i | (pool_id << 54u64) | (generation << 32u64)) != 0)) by (bit_vector)
        requires i <= 0xFFFF_FFFFu64, generation <= 0x3F_FFFFu64, pool_id <= 0x3FFu64;
}

/// An id with a slot is the packing of its own fields: unpacking and packing
/// again gives the same id.
pub proof fn lemma_unpack_pack(raw: u64)
    requires
        raw_index_field(raw) >= 1,
    ensures
        pack_fits(raw_pool_id(raw), (raw_index_field(raw) - 1) as u64, raw_generation(raw)),
        raw_pack(raw_pool_id(raw), (raw_index_field(raw) - 1) as u64, raw_generation(raw)) == raw,
{
    let i = raw & 0xFFFF_FFFFu64;
    assert(raw & 0xFFFF_FFFFu64 <= 0xFFFF_FFFFu64 && (raw >> 32u64) & 0x3F_FFFFu64 <= 0x3F_FFFFu64
        && (raw >> 54u64) & 0x3FFu64 <= 0x3FFu64 && ((raw & 0xFFFF_FFFFu64) | (((raw >> 54u64)
        & 0x3FFu64) << 54u64) | (((raw >> 32u64) & 0x3F_FFFFu64) << 32u64)) == raw) by (bit_vector);
    assert(((i - 1) as u64 + 1) as u64 == i);
}

/// An identifier of a value in an [`crate::object_pool::ObjectPool`]: the
/// owning pool's id, the slot index and the slot's generation, packed in 64 bits.
/// The raw value 0 is the null id.
#[derive(Debug, Copy)]
pub struct PoolId<M: Copy>(u64, PhantomData<M>);

impl<M: Copy> Clone for PoolId<M> {
    fn clone(&self) -> (r: Self)
        ensures
            r@ == self@,
    {
        *self
    }
}

impl<M: Copy> View for PoolId<M> {
    type V = u64;

    closed spec fn view(&self) -> u64 {
        self.0
    }
}

impl<M: Copy> PartialEq for PoolId<M> {
    fn eq(&self, other: &Self) -> (r: bool) {
        self.0 == other.0
    }
}

impl<M: Copy> vstd::std_specs::cmp::PartialEqSpecImpl for PoolId<M> {
    open spec fn obeys_eq_spec() -> bool {
        true
    }

    open spec fn eq_spec(&self, other: &Self) -> bool {
        self@ == other@
    }
}

impl<M: Copy> Eq for PoolId<M> {
}

impl<M: Copy> PoolId<M> {
    /// Builds an id from its raw 64-bit value.
    pub(crate) fn from_raw(raw: u64) -> (r: Self)
        ensures
            r@ == raw,
    {
        PoolId(raw, PhantomData)
    }

    /// The null id, which belongs to no pool.
    pub fn null() -> (r: Self)
        ensures
            r@ == 0,
    {
        PoolId(0, PhantomData)
    }

    /// Packs a pool id, a slot index and a generation into an id.
    pub(crate) fn new(pool_id: u64, index: usize, generation: u64) -> (r: Self)
        requires
            pack_fits(pool_id, index as u64, generation),
            index < INDEX_MAX,
        ensures
            r@ == raw_pack(pool_id, index as u64, generation),
            raw_index_field(r@) == index + 1,
            raw_generation(r@) == generation,
            raw_pool_id(r@) == pool_id,
            r@ != 0,
    {
        proof {
            lemma_pack_unpack(pool_id, index as u64, generation);
        }
        let index = index as u64 + 1;
        PoolId(index | pool_id << 54u64 | generation << 32u64, PhantomData)
    }

    /// Whether this is the null id.
    pub fn is_null(self) -> (r: bool)
        ensures
            r == (self@ == 0),
    {
        self.0 == 0
    }

    /// Whether this is not the null id.
    pub fn is_non_null(self) -> (r: bool)
        ensures
            r == (self@ != 0),
    {
        self.0 != 0
    }

    /// Swaps this id with the null id and returns the old id.
    pub fn swap_null(&mut self) -> (r: Self)
        ensures
            r@ == old(self)@,
            final(self)@ == 0,
    {
        let old = *self;
        *self = PoolId::null();
        old
    }

    /// The raw 64-bit value of this id.
    pub fn id(self) -> (r: u64)
        ensures
            r == self@,
    {
        self.0
    }

    /// The slot index of this id. Not for the null id, nor for an id whose
    /// index field is zero.
    pub fn index(self) -> (r: usize)
        requires
            raw_index_field(self@) >= 1,
        ensures
            r == raw_index_field(self@) - 1,
    {
        let raw = self.0;
        let field = raw & INDEX_BITS;
        assert(field <= 0xFFFF_FFFFu64) by (bit_vector)
            requires field == raw & 0xFFFF_FFFFu64;
        (field - 1) as usize
    }

    /// The generation of this id.
    pub fn generation(self) -> (r: u64)
        ensures
            r == raw_generation(self@),
            r <= GENERATION_MAX,
    {
        let raw = self.0;
        let r = raw >> 32u64 & GENERATION_MAX;
        assert(r <= 0x3F_FFFFu64) by (bit_vector)
            requires r == (raw >> 32u64) & 0x3F_FFFFu64;
        r
    }

    /// The id of the pool this id belongs to.
    pub fn pool_id(self) -> (r: u64)
        ensures
            r == raw_pool_id(self@),
            r <= POOL_ID_MAX,
    {
        let raw = self.0;
        let r = raw >> 54u64 & POOL_ID_MAX;
        assert(r <= 0x3FFu64) by (bit_vector)
            requires r == (raw >> 54u64) & 0x3FFu64;
        r
    }

    /// The id of the same slot in the next generation; the generation rolls
    /// around to 0 after [`GENERATION_MAX`].
    pub(crate) fn increment_generation(self) -> (r: Self)
        requires
            raw_index_field(self@) >= 1,
        ensures
            r@ == raw_pack(
                raw_pool_id(self@),
                (raw_index_field(self@) - 1) as u64,
                next_generation(raw_generation(self@)),
            ),
            raw_index_field(r@) == raw_index_field(self@),
            raw_pool_id(r@) == raw_pool_id(self@),
            raw_generation(r@) == next_generation(raw_generation(self@)),
            r@ != 0,
    {
        let pool_id = self.pool_id();
        let index = self.index();
        let generation = self.generation();
        let next = if generation == GENERATION_MAX {
            0
        } else {
            generation + 1
        };
        let raw = self.0;
        assert(raw & 0xFFFF_FFFFu64 <= 0xFFFF_FFFFu64) by (bit_vector);
        PoolId::new(pool_id, index, next)
    }
}

/// The generation that follows `generation`, rolling around after [`GENERATION_MAX`].
pub open spec fn next_generation(generation: u64) -> u64 {
    if generation >= GENERATION_MAX {
        0
    } else {
        (generation + 1) as u64
    }
}

impl<M: Copy> PoolId<M> {
    /// The id as text: `PoolId(null)` for the null id, else
    /// `PoolId(pool_id=P,index=I,generation=G)` in decimal.
    pub fn to_string(self) -> (s: String)
        requires
            self@ == 0 || raw_index_field(self@) >= 1,
        ensures
            self@ == 0 ==> s@ == "PoolId(null)"@,
            self@ != 0 ==> s@ == "PoolId(pool_id="@ + decimal(raw_pool_id(self@) as nat) + ",index="@
                + decimal((raw_index_field(self@) - 1) as nat) + ",generation="@ + decimal(
                raw_generation(self@) as nat,
            ) + ")"@,
    {
        let mut s = string_with_capacity(48);
        if self.is_null() {
            push_str(&mut s, "PoolId(null)");
            proof {
                assert(s@ =~= "PoolId(null)"@);
            }
            return s;
        }
        push_str(&mut s, "PoolId(pool_id=");
        push_decimal_u64(&mut s, self.pool_id());
        push_str(&mut s, ",index=");
        push_decimal_u64(&mut s, self.index() as u64);
        push_str(&mut s, ",generation=");
        push_decimal_u64(&mut s, self.generation());
        push_str(&mut s, ")");
        s
    }
}

} // verus!
