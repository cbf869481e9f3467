//! Engine utilities: bit manipulation, change tracking, an object pool with
//! generational ids, colors, a binary encoding, hashing helpers and a task
//! scheduler.
use vstd::prelude::*;

pub mod pool_id;
pub mod object_pool;
pub mod text;
pub mod color;
pub mod color_table;
pub mod color_lookup;
pub mod color_names;
pub mod color_hex;
pub mod color_entry;
pub mod bit;
pub mod bitflags;
pub mod change;
pub mod extensions;
pub mod io;
pub mod hash;
pub mod seed;
pub mod unordered_vec;
pub mod graph;
pub mod layer;
pub mod orient;
pub mod polarity;
pub mod time;
pub mod invoke;
pub mod callback_scheduler;
pub mod shared_state;

verus! {
} // verus!
