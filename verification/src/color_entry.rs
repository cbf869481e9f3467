//! A record of every name and value of one of the named colors.
use vstd::prelude::*;
use vstd::string::StringSliceAdditionalSpecFns;
use crate::color::Rgb;
use crate::color_table::Color;

verus! {

/// The names, hex code and value of a named color.
pub struct ColorEntry {
    pub readable_name: &'static str,
    pub pascal_name: &'static str,
    pub lower_snake: &'static str,
    pub upper_snake: &'static str,
    pub lower_name: &'static str,
    pub upper_name: &'static str,
    pub hex: &'static str,
    pub color: Color,
    pub rgb: Rgb,
}

impl ColorEntry {
    /// An entry with the given names and values.
    pub fn new(
        readable_name: &'static str,
        pascal_name: &'static str,
        upper_snake: &'static str,
        lower_snake: &'static str,
        lower_name: &'static str,
        upper_name: &'static str,
        hex: &'static str,
        color: Color,
        rgb: Rgb,
    ) -> (r: Self)
        ensures
            r.readable_name == readable_name,
            r.pascal_name == pascal_name,
            r.upper_snake == upper_snake,
            r.lower_snake == lower_snake,
            r.lower_name == lower_name,
            r.upper_name == upper_name,
            r.hex == hex,
            r.color == color,
            r.rgb == rgb,
    {
        ColorEntry {
            readable_name,
            pascal_name,
            upper_snake,
            lower_snake,
            lower_name,
            upper_name,
            hex,
            color,
            rgb,
        }
    }

    /// The total number of bytes of the entry's strings.
    pub open spec fn spec_string_memory(&self) -> nat {
        self.readable_name.spec_bytes().len() + self.pascal_name.spec_bytes().len()
            + self.upper_snake.spec_bytes().len() + self.lower_snake.spec_bytes().len()
            + self.lower_name.spec_bytes().len() + self.upper_name.spec_bytes().len()
            + self.hex.spec_bytes().len()
    }

    /// The total number of bytes of the entry's strings.
    pub fn string_memory(&self) -> (r: usize)
        requires
            self.spec_string_memory() <= usize::MAX,
        ensures
            r == self.spec_string_memory(),
    {
        self.readable_name.len() + self.pascal_name.len() + self.upper_snake.len()
            + self.lower_snake.len() + self.lower_name.len() + self.upper_name.len()
            + self.hex.len()
    }

    /// The bytes of the entry's strings plus the size of the entry itself.
    pub fn memory_usage(&self) -> (r: usize)
        requires
            self.spec_string_memory() + vstd::layout::size_of::<ColorEntry>() <= usize::MAX,
        ensures
            r == self.spec_string_memory() + vstd::layout::size_of::<ColorEntry>(),
    {
        self.string_memory() + std::mem::size_of::<ColorEntry>()
    }
}

} // verus!
