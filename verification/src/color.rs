use vstd::prelude::*;
use vstd::string::StringSliceAdditionalSpecFns;
use crate::text::{push_str, string_with_capacity, string_push};
use vstd::std_specs::convert::FromSpecImpl;

verus! {

/// The upper-case hexadecimal digit for a value below 16.
pub open spec fn hex_digit(n: u8) -> u8 {
    if n < 10 {
        (48 + n) as u8
    } else {
        (55 + n) as u8
    }
}

/// The value of a hexadecimal digit (either case), or `None` for any other byte.
pub open spec fn hex_value(c: u8) -> Option<u8> {
    if 48 <= c <= 57 {
        Some((c - 48) as u8)
    } else if 65 <= c <= 70 {
        Some((c - 55) as u8)
    } else if 97 <= c <= 102 {
        Some((c - 87) as u8)
    } else {
        None
    }
}

/// The two upper-case hexadecimal digits of a byte, high digit first.
pub open spec fn byte_hex_spec(byte: u8) -> Seq<u8> {
    seq![hex_digit(byte / 16), hex_digit(byte % 16)]
}

/// The byte that one or two hexadecimal digits spell; `None` for any other input.
pub open spec fn byte_from_hex_spec(hex: Seq<u8>) -> Option<u8> {
    if hex.len() == 1 {
        hex_value(hex[0])
    } else if hex.len() == 2 {
        match (hex_value(hex[0]), hex_value(hex[1])) {
            (Some(hi), Some(lo)) => Some((hi * 16 + lo) as u8),
            _ => None,
        }
    } else {
        None
    }
}

/// The two upper-case hexadecimal digits of `byte`.
pub fn byte_hex(byte: u8) -> (r: [u8; 2])
    ensures
        r@ == byte_hex_spec(byte),
{
    let hi = byte >> 4u8;
    let lo = byte & 0xFu8;
    assert(hi == byte / 16 && lo == byte % 16) by (bit_vector)
        requires hi == byte >> 4u8, lo == byte & 0xFu8;
    let h = if hi < 10 { 48 + hi } else { 55 + hi };
    let l = if lo < 10 { 48 + lo } else { 55 + lo };
    let r = [h, l];
    assert(r@ =~= byte_hex_spec(byte));
    r
}

/// The value of one hexadecimal digit.
pub fn hex_char_value(hex_char: u8) -> (r: Option<u8>)
    ensures
        r == hex_value(hex_char),
{
    if 48 <= hex_char && hex_char <= 57 {
        Some(hex_char - 48)
    } else if 65 <= hex_char && hex_char <= 70 {
        Some(hex_char - 55)
    } else if 97 <= hex_char && hex_char <= 102 {
        Some(hex_char - 87)
    } else {
        None
    }
}

/// The byte spelled by one or two hexadecimal digits.
pub fn byte_from_hex(hex: &[u8]) -> (r: Option<u8>)
    requires
        hex@.len() >= 1,
    ensures
        r == byte_from_hex_spec(hex@),
{
    match hex_char_value(hex[0]) {
        Some(first) => {
            if hex.len() == 1 {
                Some(first)
            } else if hex.len() == 2 {
                match hex_char_value(hex[1]) {
                    Some(second) => {
                        let r = (first << 4u8) | second;
                        assert(r == first * 16 + second) by (bit_vector)
                            requires first < 16, second < 16, r == (first << 4u8) | second;
                        Some(r)
                    },
                    None => None,
                }
            } else {
                None
            }
        },
        None => None,
    }
}

/// Three bytes of hexadecimal text read as a red, green, blue triple.
pub open spec fn parse_hex_rgb(bytes: Seq<u8>) -> Option<Rgb> {
    if bytes.len() != 6 {
        None
    } else {
        match (
            byte_from_hex_spec(bytes.subrange(0, 2)),
            byte_from_hex_spec(bytes.subrange(2, 4)),
            byte_from_hex_spec(bytes.subrange(4, 6)),
        ) {
            (Some(r), Some(g), Some(b)) => Some(Rgb { r, g, b }),
            _ => None,
        }
    }
}

/// Hexadecimal text read as a color with alpha: six digits give red, green
/// and blue at full opacity (alpha 255), eight digits give red, green, blue
/// and alpha.
pub open spec fn parse_hex_rgba(bytes: Seq<u8>) -> Option<Rgba> {
    if bytes.len() == 6 {
        match parse_hex_rgb(bytes) {
            Some(c) => Some(Rgba { r: c.r, g: c.g, b: c.b, a: 255 }),
            None => None,
        }
    } else if bytes.len() != 8 {
        None
    } else {
        match (
            byte_from_hex_spec(bytes.subrange(0, 2)),
            byte_from_hex_spec(bytes.subrange(2, 4)),
            byte_from_hex_spec(bytes.subrange(4, 6)),
            byte_from_hex_spec(bytes.subrange(6, 8)),
        ) {
            (Some(r), Some(g), Some(b), Some(a)) => Some(Rgba { r, g, b, a }),
            _ => None,
        }
    }
}

/// The hexadecimal digits of a sequence of bytes, as characters.
pub open spec fn hex_chars(bytes: Seq<u8>) -> Seq<char> {
    if bytes.len() == 0 {
        Seq::empty()
    } else {
        Seq::new(2 * bytes.len(), |i: int| hex_digit(if i % 2 == 0 { bytes[i / 2] / 16 } else { bytes[i / 2] % 16 }) as char)
    }
}

fn push_byte_hex(s: &mut String, byte: u8)
    ensures
        final(s)@ == old(s)@ + seq![byte_hex_spec(byte)[0] as char, byte_hex_spec(byte)[1] as char],
{
    let h = byte_hex(byte);
    string_push(s, h[0] as char);
    string_push(s, h[1] as char);
    assert(final(s)@ =~= old(s)@ + seq![byte_hex_spec(byte)[0] as char, byte_hex_spec(byte)[1] as char]);
}

/// A color with red, green and blue channels of one byte each.
#[derive(Debug, Clone, Copy, PartialEq, Eq, Structural, PartialOrd, Ord, Hash)]
pub struct Rgb {
    pub r: u8,
    pub g: u8,
    pub b: u8,
}

impl Default for Rgb {
    fn default() -> (r: Self)
        ensures
            r == (Rgb { r: 0, g: 0, b: 0 }),
    {
        Rgb { r: 0, g: 0, b: 0 }
    }
}

/// A color with red, green, blue and alpha channels of one byte each.
#[derive(Debug, Clone, Copy, PartialEq, Eq, Structural, PartialOrd, Ord, Hash)]
pub struct Rgba {
    pub r: u8,
    pub g: u8,
    pub b: u8,
    pub a: u8,
}

impl Default for Rgba {
    fn default() -> (r: Self)
        ensures
            r == (Rgba { r: 0, g: 0, b: 0, a: 0 }),
    {
        Rgba { r: 0, g: 0, b: 0, a: 0 }
    }
}

/// A gray level of one byte.
#[derive(Debug, Clone, Copy, PartialEq, Eq, Structural, PartialOrd, Ord, Hash)]
pub struct Gray {
    level: u8,
}

impl Default for Gray {
    fn default() -> (r: Self)
        ensures
            r.spec_level() == 0,
    {
        Gray { level: 0 }
    }
}

impl Rgb {
    /// The color with the given channels.
    pub fn new(r: u8, g: u8, b: u8) -> (c: Self)
        ensures
            c == (Rgb { r, g, b }),
    {
        Rgb { r, g, b }
    }

    /// The gray with all three channels at `level`.
    pub fn gray(level: u8) -> (c: Self)
        ensures
            c == (Rgb { r: level, g: level, b: level }),
    {
        Self::new(level, level, level)
    }

    /// Pure red of the given intensity.
    pub fn red(red: u8) -> (c: Self)
        ensures
            c == (Rgb { r: red, g: 0, b: 0 }),
    {
        Self::new(red, 0, 0)
    }

    /// Pure green of the given intensity.
    pub fn green(green: u8) -> (c: Self)
        ensures
            c == (Rgb { r: 0, g: green, b: 0 }),
    {
        Self::new(0, green, 0)
    }

    /// Pure blue of the given intensity.
    pub fn blue(blue: u8) -> (c: Self)
        ensures
            c == (Rgb { r: 0, g: 0, b: blue }),
    {
        Self::new(0, 0, blue)
    }

    /// This color, fully opaque.
    pub fn rgba(self) -> (c: Rgba)
        ensures
            c == (Rgba { r: self.r, g: self.g, b: self.b, a: 255 }),
    {
        self.opaque()
    }

    /// This color, fully transparent.
    pub fn transparent(self) -> (c: Rgba)
        ensures
            c == (Rgba { r: self.r, g: self.g, b: self.b, a: 0 }),
    {
        Rgba::new(self.r, self.g, self.b, 0)
    }

    /// This color, fully opaque.
    pub fn opaque(self) -> (c: Rgba)
        ensures
            c == (Rgba { r: self.r, g: self.g, b: self.b, a: 255 }),
    {
        Rgba::new(self.r, self.g, self.b, 255)
    }

    /// This color with the given alpha.
    pub fn with_alpha(self, alpha: u8) -> (c: Rgba)
        ensures
            c == (Rgba { r: self.r, g: self.g, b: self.b, a: alpha }),
    {
        Rgba::new(self.r, self.g, self.b, alpha)
    }

    /// Whether the three channels are equal.
    pub fn is_gray(self) -> (b: bool)
        ensures
            b == (self.r == self.g && self.g == self.b),
    {
        self.r == self.g && self.g == self.b
    }

    /// The color with the channels `[r, g, b]`.
    pub fn from_bytes(bytes: [u8; 3]) -> (c: Self)
        ensures
            c == (Rgb { r: bytes@[0], g: bytes@[1], b: bytes@[2] }),
    {
        Rgb { r: bytes[0], g: bytes[1], b: bytes[2] }
    }

    /// The channels as `[r, g, b]`.
    pub fn to_bytes(self) -> (bytes: [u8; 3])
        ensures
            bytes@ == seq![self.r, self.g, self.b],
    {
        let bytes = [self.r, self.g, self.b];
        assert(bytes@ =~= seq![self.r, self.g, self.b]);
        bytes
    }

    /// The color with the channels `(r, g, b)`.
    pub fn from_tuple(t: (u8, u8, u8)) -> (c: Self)
        ensures
            c == (Rgb { r: t.0, g: t.1, b: t.2 }),
    {
        Rgb { r: t.0, g: t.1, b: t.2 }
    }

    /// The channels as `(r, g, b)`.
    pub fn to_tuple(self) -> (t: (u8, u8, u8))
        ensures
            t == (self.r, self.g, self.b),
    {
        (self.r, self.g, self.b)
    }

    /// The six upper-case hexadecimal digits of the channels, red first.
    pub fn hex(self) -> (s: String)
        ensures
            s@ == hex_chars(seq![self.r, self.g, self.b]),
    {
        let mut hex = string_with_capacity(6);
        push_byte_hex(&mut hex, self.r);
        push_byte_hex(&mut hex, self.g);
        push_byte_hex(&mut hex, self.b);
        assert(hex@ =~= hex_chars(seq![self.r, self.g, self.b]));
        hex
    }

    /// Reads six hexadecimal digits (either case) as red, green and blue;
    /// `None` when `hex` is not exactly six hexadecimal digits.
    pub fn from_hex(hex: &str) -> (c: Option<Self>)
        ensures
            c == parse_hex_rgb(hex.spec_bytes()),
    {
        let hex = hex.as_bytes();
        if hex.len() != 6 {
            return None;
        }
        let r = match byte_from_hex(&[hex[0], hex[1]]) {
            Some(r) => r,
            None => {
                assert(seq![hex@[0], hex@[1]] =~= hex@.subrange(0, 2));
                return None;
            },
        };
        let g = match byte_from_hex(&[hex[2], hex[3]]) {
            Some(g) => g,
            None => {
                assert(seq![hex@[0], hex@[1]] =~= hex@.subrange(0, 2));
                assert(seq![hex@[2], hex@[3]] =~= hex@.subrange(2, 4));
                return None;
            },
        };
        let b = match byte_from_hex(&[hex[4], hex[5]]) {
            Some(b) => b,
            None => {
                assert(seq![hex@[0], hex@[1]] =~= hex@.subrange(0, 2));
                assert(seq![hex@[2], hex@[3]] =~= hex@.subrange(2, 4));
                assert(seq![hex@[4], hex@[5]] =~= hex@.subrange(4, 6));
                return None;
            },
        };
        assert(seq![hex@[0], hex@[1]] =~= hex@.subrange(0, 2));
        assert(seq![hex@[2], hex@[3]] =~= hex@.subrange(2, 4));
        assert(seq![hex@[4], hex@[5]] =~= hex@.subrange(4, 6));
        Some(Self::new(r, g, b))
    }
}

impl Rgba {
    /// The color with the given channels.
    pub fn new(r: u8, g: u8, b: u8, a: u8) -> (c: Self)
        ensures
            c == (Rgba { r, g, b, a }),
    {
        Rgba { r, g, b, a }
    }

    /// The opaque gray with all three color channels at `gray`.
    pub fn gray(gray: u8) -> (c: Self)
        ensures
            c == (Rgba { r: gray, g: gray, b: gray, a: 255 }),
    {
        Self::new(gray, gray, gray, 255)
    }

    /// Opaque pure red of the given intensity.
    pub fn red(red: u8) -> (c: Self)
        ensures
            c == (Rgba { r: red, g: 0, b: 0, a: 255 }),
    {
        Self::new(red, 0, 0, 255)
    }

    /// Opaque pure green of the given intensity.
    pub fn green(green: u8) -> (c: Self)
        ensures
            c == (Rgba { r: 0, g: green, b: 0, a: 255 }),
    {
        Self::new(0, green, 0, 255)
    }

    /// Opaque pure blue of the given intensity.
    pub fn blue(blue: u8) -> (c: Self)
        ensures
            c == (Rgba { r: 0, g: 0, b: blue, a: 255 }),
    {
        Self::new(0, 0, blue, 255)
    }

    /// This color with alpha 0.
    pub fn transparent(self) -> (c: Self)
        ensures
            c == (Rgba { a: 0, ..self }),
    {
        let mut c = self;
        c.a = 0;
        c
    }

    /// This color with alpha 255.
    pub fn opaque(self) -> (c: Self)
        ensures
            c == (Rgba { a: 255, ..self }),
    {
        let mut c = self;
        c.a = 255;
        c
    }

    /// The fully transparent gray at `gray`.
    pub fn transparent_gray(gray: u8) -> (c: Self)
        ensures
            c == (Rgba { r: gray, g: gray, b: gray, a: 0 }),
    {
        Self::alpha_gray(gray, 0)
    }

    /// The gray at `gray` with the given alpha.
    pub fn alpha_gray(gray: u8, alpha: u8) -> (c: Self)
        ensures
            c == (Rgba { r: gray, g: gray, b: gray, a: alpha }),
    {
        Self::new(gray, gray, gray, alpha)
    }

    /// The color channels without alpha.
    pub fn rgb(self) -> (c: Rgb)
        ensures
            c == (Rgb { r: self.r, g: self.g, b: self.b }),
    {
        Rgb::new(self.r, self.g, self.b)
    }

    /// Whether the three color channels are equal.
    pub fn is_gray(self) -> (b: bool)
        ensures
            b == (self.r == self.g && self.g == self.b),
    {
        self.r == self.g && self.g == self.b
    }

    /// Whether alpha is 255.
    pub fn is_opaque(self) -> (b: bool)
        ensures
            b == (self.a == 255),
    {
        self.a == 255
    }

    /// Whether alpha is 0.
    pub fn is_transparent(self) -> (b: bool)
        ensures
            b == (self.a == 0),
    {
        self.a == 0
    }

    /// The color with the channels `[r, g, b, a]`.
    pub fn from_bytes(bytes: [u8; 4]) -> (c: Self)
        ensures
            c == (Rgba { r: bytes@[0], g: bytes@[1], b: bytes@[2], a: bytes@[3] }),
    {
        Rgba { r: bytes[0], g: bytes[1], b: bytes[2], a: bytes[3] }
    }

    /// The channels as `[r, g, b, a]`.
    pub fn to_bytes(self) -> (bytes: [u8; 4])
        ensures
            bytes@ == seq![self.r, self.g, self.b, self.a],
    {
        let bytes = [self.r, self.g, self.b, self.a];
        assert(bytes@ =~= seq![self.r, self.g, self.b, self.a]);
        bytes
    }

    /// The color with the channels `(r, g, b, a)`.
    pub fn from_tuple(t: (u8, u8, u8, u8)) -> (c: Self)
        ensures
            c == (Rgba { r: t.0, g: t.1, b: t.2, a: t.3 }),
    {
        Rgba { r: t.0, g: t.1, b: t.2, a: t.3 }
    }

    /// The channels as `(r, g, b, a)`.
    pub fn to_tuple(self) -> (t: (u8, u8, u8, u8))
        ensures
            t == (self.r, self.g, self.b, self.a),
    {
        (self.r, self.g, self.b, self.a)
    }

    /// The eight upper-case hexadecimal digits of the channels, red first.
    pub fn hex(self) -> (s: String)
        ensures
            s@ == hex_chars(seq![self.r, self.g, self.b, self.a]),
    {
        let mut hex = string_with_capacity(8);
        push_byte_hex(&mut hex, self.r);
        push_byte_hex(&mut hex, self.g);
        push_byte_hex(&mut hex, self.b);
        push_byte_hex(&mut hex, self.a);
        assert(hex@ =~= hex_chars(seq![self.r, self.g, self.b, self.a]));
        hex
    }

    /// Reads six hexadecimal digits (either case) as red, green and blue at
    /// full opacity, or eight as red, green, blue and alpha; `None` when `hex`
    /// is neither six nor eight hexadecimal digits.
    pub fn from_hex(hex: &str) -> (c: Option<Self>)
        ensures
            c == parse_hex_rgba(hex.spec_bytes()),
    {
        let text = hex;
        let hex = hex.as_bytes();
        if hex.len() == 6 {
            return match Rgb::from_hex(text) {
                Some(c) => Some(Self::new(c.r, c.g, c.b, 255)),
                None => None,
            };
        }
        if hex.len() != 8 {
            return None;
        }
        assert(seq![hex@[0], hex@[1]] =~= hex@.subrange(0, 2));
        assert(seq![hex@[2], hex@[3]] =~= hex@.subrange(2, 4));
        assert(seq![hex@[4], hex@[5]] =~= hex@.subrange(4, 6));
        assert(seq![hex@[6], hex@[7]] =~= hex@.subrange(6, 8));
        let r = match byte_from_hex(&[hex[0], hex[1]]) {
            Some(r) => r,
            None => return None,
        };
        let g = match byte_from_hex(&[hex[2], hex[3]]) {
            Some(g) => g,
            None => return None,
        };
        let b = match byte_from_hex(&[hex[4], hex[5]]) {
            Some(b) => b,
            None => return None,
        };
        let a = match byte_from_hex(&[hex[6], hex[7]]) {
            Some(a) => a,
            None => return None,
        };
        Some(Self::new(r, g, b, a))
    }
}

impl Gray {
    /// The gray level.
    pub closed spec fn spec_level(&self) -> u8 {
        self.level
    }

    /// Black, level 0.
    pub fn black() -> (g: Self)
        ensures
            g.spec_level() == 0,
    {
        Gray { level: 0 }
    }

    /// Middle gray, level 128.
    pub fn mid() -> (g: Self)
        ensures
            g.spec_level() == 128,
    {
        Gray { level: 128 }
    }

    /// White, level 255.
    pub fn white() -> (g: Self)
        ensures
            g.spec_level() == 255,
    {
        Gray { level: 255 }
    }

    /// The gray at `level`.
    pub fn new(level: u8) -> (g: Self)
        ensures
            g.spec_level() == level,
    {
        Gray { level }
    }

    /// The gray level.
    pub fn level(self) -> (r: u8)
        ensures
            r == self.spec_level(),
    {
        self.level
    }

    /// This gray as a color.
    pub fn rgb(self) -> (c: Rgb)
        ensures
            c == (Rgb { r: self.spec_level(), g: self.spec_level(), b: self.spec_level() }),
    {
        Rgb::gray(self.level)
    }

    /// This gray as an opaque color.
    pub fn rgba(self) -> (c: Rgba)
        ensures
            c == (Rgba {
                r: self.spec_level(),
                g: self.spec_level(),
                b: self.spec_level(),
                a: 255,
            }),
    {
        Rgba::gray(self.level)
    }
}

/// The color with the given channels.
pub fn rgb(r: u8, g: u8, b: u8) -> (c: Rgb)
    ensures
        c == (Rgb { r, g, b }),
{
    Rgb::new(r, g, b)
}

/// The color with the given channels.
pub fn rgba(r: u8, g: u8, b: u8, a: u8) -> (c: Rgba)
    ensures
        c == (Rgba { r, g, b, a }),
{
    Rgba::new(r, g, b, a)
}

/// The gray at `level`.
pub fn gray(level: u8) -> (c: Gray)
    ensures
        c.spec_level() == level,
{
    Gray::new(level)
}

/// The decimal digit for a value below 10.
pub open spec fn decimal_digit(n: nat) -> char {
    ((48 + n) as u8) as char
}

/// The decimal digits of a byte, without leading zeros.
pub open spec fn decimal_u8(n: u8) -> Seq<char> {
    if n >= 100 {
        seq![decimal_digit(n as nat / 100), decimal_digit(n as nat / 10 % 10), decimal_digit(n as nat % 10)]
    } else if n >= 10 {
        seq![decimal_digit(n as nat / 10), decimal_digit(n as nat % 10)]
    } else {
        seq![decimal_digit(n as nat)]
    }
}

/// Appends the decimal digits of `n`.
fn push_decimal(s: &mut String, n: u8)
    ensures
        final(s)@ == old(s)@ + decimal_u8(n),
{
    if n >= 100 {
        string_push(s, ((48 + n / 100) as u8) as char);
    }
    if n >= 10 {
        string_push(s, ((48 + n / 10 % 10) as u8) as char);
    }
    string_push(s, ((48 + n % 10) as u8) as char);
    assert(s@ =~= old(s)@ + decimal_u8(n));
}

/// The text of a list of bytes: `name(` then the decimal bytes separated by `, `, then `)`.
pub open spec fn channels_text(name: Seq<char>, channels: Seq<u8>) -> Seq<char>
    decreases channels.len(),
{
    if channels.len() == 0 {
        name + seq!['(', ')']
    } else if channels.len() == 1 {
        name + seq!['('] + decimal_u8(channels[0]) + seq![')']
    } else {
        channels_text(name, channels.drop_last()).drop_last() + seq![',', ' '] + decimal_u8(
            channels.last(),
        ) + seq![')']
    }
}

impl Rgb {
    /// The color as text: `Rgb(r, g, b)` in decimal.
    pub fn to_string(self) -> (s: String)
        ensures
            s@ == "Rgb("@ + decimal_u8(self.r) + ", "@ + decimal_u8(self.g) + ", "@ + decimal_u8(self.b) + ")"@,
    {
        let mut s = string_with_capacity(16);
        push_str(&mut s, "Rgb(");
        push_decimal(&mut s, self.r);
        push_str(&mut s, ", ");
        push_decimal(&mut s, self.g);
        push_str(&mut s, ", ");
        push_decimal(&mut s, self.b);
        push_str(&mut s, ")");
        s
    }
}

impl Rgba {
    /// The color as text: `Rgba(r, g, b, a)` in decimal.
    pub fn to_string(self) -> (s: String)
        ensures
            s@ == "Rgba("@ + decimal_u8(self.r) + ", "@ + decimal_u8(self.g) + ", "@ + decimal_u8(self.b) + ", "@
                + decimal_u8(self.a) + ")"@,
    {
        let mut s = string_with_capacity(20);
        push_str(&mut s, "Rgba(");
        push_decimal(&mut s, self.r);
        push_str(&mut s, ", ");
        push_decimal(&mut s, self.g);
        push_str(&mut s, ", ");
        push_decimal(&mut s, self.b);
        push_str(&mut s, ", ");
        push_decimal(&mut s, self.a);
        push_str(&mut s, ")");
        s
    }
}

impl Gray {
    /// The gray as text: `Gray(level)` in decimal.
    pub fn to_string(self) -> (s: String)
        ensures
            s@ == "Gray("@ + decimal_u8(self.spec_level()) + ")"@,
    {
        let mut s = string_with_capacity(9);
        push_str(&mut s, "Gray(");
        push_decimal(&mut s, self.level);
        push_str(&mut s, ")");
        s
    }
}

impl From<[u8; 3]> for Rgb {
    fn from(value: [u8; 3]) -> (c: Rgb) {
        Rgb { r: value[0], g: value[1], b: value[2] }
    }
}

impl FromSpecImpl<[u8; 3]> for Rgb {
    open spec fn obeys_from_spec() -> bool {
        true
    }

    open spec fn from_spec(v: [u8; 3]) -> Rgb {
        Rgb { r: v@[0], g: v@[1], b: v@[2] }
    }
}

impl From<(u8, u8, u8)> for Rgb {
    fn from(value: (u8, u8, u8)) -> (c: Rgb) {
        Rgb { r: value.0, g: value.1, b: value.2 }
    }
}

impl FromSpecImpl<(u8, u8, u8)> for Rgb {
    open spec fn obeys_from_spec() -> bool {
        true
    }

    open spec fn from_spec(v: (u8, u8, u8)) -> Rgb {
        Rgb { r: v.0, g: v.1, b: v.2 }
    }
}

impl From<Rgb> for [u8; 3] {
    fn from(value: Rgb) -> (a: [u8; 3]) {
        [value.r, value.g, value.b]
    }
}

impl FromSpecImpl<Rgb> for [u8; 3] {
    open spec fn obeys_from_spec() -> bool {
        true
    }

    open spec fn from_spec(v: Rgb) -> [u8; 3] {
        [v.r, v.g, v.b]
    }
}

impl From<Rgb> for (u8, u8, u8) {
    fn from(value: Rgb) -> (t: (u8, u8, u8)) {
        (value.r, value.g, value.b)
    }
}

impl FromSpecImpl<Rgb> for (u8, u8, u8) {
    open spec fn obeys_from_spec() -> bool {
        true
    }

    open spec fn from_spec(v: Rgb) -> (u8, u8, u8) {
        (v.r, v.g, v.b)
    }
}

impl From<[u8; 4]> for Rgba {
    fn from(value: [u8; 4]) -> (c: Rgba) {
        Rgba { r: value[0], g: value[1], b: value[2], a: value[3] }
    }
}

impl FromSpecImpl<[u8; 4]> for Rgba {
    open spec fn obeys_from_spec() -> bool {
        true
    }

    open spec fn from_spec(v: [u8; 4]) -> Rgba {
        Rgba { r: v@[0], g: v@[1], b: v@[2], a: v@[3] }
    }
}

impl From<(u8, u8, u8, u8)> for Rgba {
    fn from(value: (u8, u8, u8, u8)) -> (c: Rgba) {
        Rgba { r: value.0, g: value.1, b: value.2, a: value.3 }
    }
}

impl FromSpecImpl<(u8, u8, u8, u8)> for Rgba {
    open spec fn obeys_from_spec() -> bool {
        true
    }

    open spec fn from_spec(v: (u8, u8, u8, u8)) -> Rgba {
        Rgba { r: v.0, g: v.1, b: v.2, a: v.3 }
    }
}

impl From<Rgb> for Rgba {
    fn from(value: Rgb) -> (c: Rgba) {
        value.rgba()
    }
}

impl FromSpecImpl<Rgb> for Rgba {
    open spec fn obeys_from_spec() -> bool {
        true
    }

    open spec fn from_spec(v: Rgb) -> Rgba {
        Rgba { r: v.r, g: v.g, b: v.b, a: 255 }
    }
}

impl From<Rgba> for (u8, u8, u8, u8) {
    fn from(value: Rgba) -> (t: (u8, u8, u8, u8)) {
        (value.r, value.g, value.b, value.a)
    }
}

impl FromSpecImpl<Rgba> for (u8, u8, u8, u8) {
    open spec fn obeys_from_spec() -> bool {
        true
    }

    open spec fn from_spec(v: Rgba) -> (u8, u8, u8, u8) {
        (v.r, v.g, v.b, v.a)
    }
}

impl From<Gray> for Rgb {
    fn from(value: Gray) -> (c: Rgb) {
        value.rgb()
    }
}

impl FromSpecImpl<Gray> for Rgb {
    open spec fn obeys_from_spec() -> bool {
        true
    }

    open spec fn from_spec(v: Gray) -> Rgb {
        Rgb { r: v.spec_level(), g: v.spec_level(), b: v.spec_level() }
    }
}

impl From<u8> for Gray {
    fn from(value: u8) -> (g: Gray)
        ensures
            g.spec_level() == value,
    {
        Gray::new(value)
    }
}

impl FromSpecImpl<u8> for Gray {
    open spec fn obeys_from_spec() -> bool {
        true
    }

    closed spec fn from_spec(v: u8) -> Gray {
        Gray { level: v }
    }
}

impl From<Gray> for u8 {
    fn from(value: Gray) -> (level: u8) {
        value.level
    }
}

impl FromSpecImpl<Gray> for u8 {
    open spec fn obeys_from_spec() -> bool {
        true
    }

    open spec fn from_spec(v: Gray) -> u8 {
        v.spec_level()
    }
}

impl From<Rgba> for [u8; 4] {
    fn from(value: Rgba) -> (a: [u8; 4]) {
        [value.r, value.g, value.b, value.a]
    }
}

impl FromSpecImpl<Rgba> for [u8; 4] {
    open spec fn obeys_from_spec() -> bool {
        true
    }

    open spec fn from_spec(v: Rgba) -> [u8; 4] {
        [v.r, v.g, v.b, v.a]
    }
}

impl From<Gray> for Rgba {
    fn from(value: Gray) -> (c: Rgba) {
        value.rgba()
    }
}

impl FromSpecImpl<Gray> for Rgba {
    open spec fn obeys_from_spec() -> bool {
        true
    }

    open spec fn from_spec(v: Gray) -> Rgba {
        Rgba { r: v.spec_level(), g: v.spec_level(), b: v.spec_level(), a: 255 }
    }
}

/// The hexadecimal digits that [`Rgb::hex`] writes, read back by
/// [`Rgb::from_hex`], give the same color.
pub proof fn lemma_rgb_hex_round_trip(c: Rgb)
    ensures
        parse_hex_rgb(hex_bytes(seq![c.r, c.g, c.b])) == Some(c),
        hex_chars(seq![c.r, c.g, c.b]) == hex_bytes(seq![c.r, c.g, c.b]).map_values(|b: u8| b as char),
{
    lemma_byte_hex_round_trip(c.r);
    lemma_byte_hex_round_trip(c.g);
    lemma_byte_hex_round_trip(c.b);
    let bytes = hex_bytes(seq![c.r, c.g, c.b]);
    assert(bytes.subrange(0, 2) =~= byte_hex_spec(c.r));
    assert(bytes.subrange(2, 4) =~= byte_hex_spec(c.g));
    assert(bytes.subrange(4, 6) =~= byte_hex_spec(c.b));
    assert(hex_chars(seq![c.r, c.g, c.b]) =~= bytes.map_values(|b: u8| b as char));
}

/// The hexadecimal digits that [`Rgba::hex`] writes, read back by
/// [`Rgba::from_hex`], give the same color.
pub proof fn lemma_rgba_hex_round_trip(c: Rgba)
    ensures
        parse_hex_rgba(hex_bytes(seq![c.r, c.g, c.b, c.a])) == Some(c),
        hex_chars(seq![c.r, c.g, c.b, c.a]) == hex_bytes(seq![c.r, c.g, c.b, c.a]).map_values(
            |b: u8| b as char,
        ),
{
    lemma_byte_hex_round_trip(c.r);
    lemma_byte_hex_round_trip(c.g);
    lemma_byte_hex_round_trip(c.b);
    lemma_byte_hex_round_trip(c.a);
    let bytes = hex_bytes(seq![c.r, c.g, c.b, c.a]);
    assert(bytes.subrange(0, 2) =~= byte_hex_spec(c.r));
    assert(bytes.subrange(2, 4) =~= byte_hex_spec(c.g));
    assert(bytes.subrange(4, 6) =~= byte_hex_spec(c.b));
    assert(bytes.subrange(6, 8) =~= byte_hex_spec(c.a));
    assert(hex_chars(seq![c.r, c.g, c.b, c.a]) =~= bytes.map_values(|b: u8| b as char));
}

/// The digits of bytes are ASCII characters, so their UTF-8 text is their bytes.
pub proof fn lemma_hex_chars_text(bytes: Seq<u8>)
    ensures
        vstd::utf8::encode_utf8(hex_chars(bytes)) == hex_bytes(bytes),
        hex_chars(bytes).len() == 2 * bytes.len(),
{
    let chars = hex_chars(bytes);
    let digits = hex_bytes(bytes);
    assert(chars.len() == 2 * bytes.len());
    assert forall|i: int| 0 <= i < chars.len() implies chars[i] == digits[i] as char && digits[i] < 128 by {
        let n = if i % 2 == 0 { bytes[i / 2] / 16 } else { bytes[i / 2] % 16 };
        assert(n < 16);
    }
    assert(vstd::utf8::is_ascii_chars(chars));
    vstd::utf8::is_ascii_chars_encode_utf8(chars);
    assert(vstd::utf8::encode_utf8(chars) =~= digits);
}

/// The text that [`Rgb::hex`] gives, read back by [`Rgb::from_hex`] (which reads
/// the UTF-8 bytes of its argument), is six digits that give the same color.
pub proof fn lemma_rgb_hex_text_round_trip(c: Rgb)
    ensures
        hex_chars(seq![c.r, c.g, c.b]).len() == 6,
        parse_hex_rgb(vstd::utf8::encode_utf8(hex_chars(seq![c.r, c.g, c.b]))) == Some(c),
{
    lemma_rgb_hex_round_trip(c);
    lemma_hex_chars_text(seq![c.r, c.g, c.b]);
}

/// The text that [`Rgba::hex`] gives is the text of the color's red, green and blue
/// followed by the two digits of its alpha, and read back by [`Rgba::from_hex`] it
/// gives the same color.
pub proof fn lemma_rgba_hex_text_round_trip(c: Rgba)
    ensures
        hex_chars(seq![c.r, c.g, c.b, c.a]).len() == 8,
        hex_chars(seq![c.r, c.g, c.b, c.a]) == hex_chars(seq![c.r, c.g, c.b]) + hex_chars(seq![c.a]),
        parse_hex_rgba(vstd::utf8::encode_utf8(hex_chars(seq![c.r, c.g, c.b, c.a]))) == Some(c),
{
    lemma_rgba_hex_round_trip(c);
    lemma_hex_chars_text(seq![c.r, c.g, c.b, c.a]);
    assert(hex_chars(seq![c.r, c.g, c.b, c.a]) =~= hex_chars(seq![c.r, c.g, c.b]) + hex_chars(seq![c.a]));
}

/// The hexadecimal digits of a sequence of bytes, as ASCII bytes.
pub open spec fn hex_bytes(bytes: Seq<u8>) -> Seq<u8> {
    Seq::new(2 * bytes.len(), |i: int| hex_digit(if i % 2 == 0 { bytes[i / 2] / 16 } else { bytes[i / 2] % 16 }))
}

/// Reading back the two digits of a byte gives the byte.
pub proof fn lemma_byte_hex_round_trip(byte: u8)
    ensures
        byte_from_hex_spec(byte_hex_spec(byte)) == Some(byte),
{
}

} // verus!
