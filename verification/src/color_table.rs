use vstd::prelude::*;
use crate::color::{Rgb, Rgba};
use crate::text::{ascii_lower, to_ascii_lower};

verus! {

/// The named HTML colors, in alphabetical order of their lower-case names.
#[derive(Debug, Clone, Copy, PartialEq, Eq, Structural, PartialOrd, Ord, Hash)]
pub enum Color {
    AliceBlue,
    AntiqueWhite,
    Aqua,
    Aquamarine,
    Azure,
    Beige,
    Bisque,
    Black,
    BlanchedAlmond,
    Blue,
    BlueViolet,
    Brown,
    BurlyWood,
    CadetBlue,
    Chartreuse,
    Chocolate,
    Coral,
    CornflowerBlue,
    Cornsilk,
    Crimson,
    Cyan,
    DarkBlue,
    DarkCyan,
    DarkGoldenRod,
    DarkGray,
    DarkGreen,
    DarkKhaki,
    DarkMagenta,
    DarkOliveGreen,
    DarkOrange,
    DarkOrchid,
    DarkRed,
    DarkSalmon,
    DarkSeaGreen,
    DarkSlateBlue,
    DarkSlateGray,
    DarkTurquoise,
    DarkViolet,
    DeepPink,
    DeepSkyBlue,
    DimGray,
    DodgerBlue,
    FireBrick,
    FloralWhite,
    ForestGreen,
    Fuchsia,
    Gainsboro,
    GhostWhite,
    Gold,
    GoldenRod,
    Gray,
    Green,
    GreenYellow,
    HoneyDew,
    HotPink,
    IndianRed,
    Indigo,
    Ivory,
    Khaki,
    Lavender,
    LavenderBlush,
    LawnGreen,
    LemonChiffon,
    LightBlue,
    LightCoral,
    LightCyan,
    LightGoldenRodYellow,
    LightGray,
    LightGreen,
    LightPink,
    LightSalmon,
    LightSeaGreen,
    LightSkyBlue,
    LightSlateGray,
    LightSteelBlue,
    LightYellow,
    Lime,
    LimeGreen,
    Linen,
    Magenta,
    Maroon,
    MediumAquaMarine,
    MediumBlue,
    MediumOrchid,
    MediumPurple,
    MediumSeaGreen,
    MediumSlateBlue,
    MediumSpringGreen,
    MediumTurquoise,
    MediumVioletRed,
    MidnightBlue,
    MintCream,
    MistyRose,
    Moccasin,
    NavajoWhite,
    Navy,
    OldLace,
    Olive,
    OliveDrab,
    Orange,
    OrangeRed,
    Orchid,
    PaleGoldenRod,
    PaleGreen,
    PaleTurquoise,
    PaleVioletRed,
    PapayaWhip,
    PeachPuff,
    Peru,
    Pink,
    Plum,
    PowderBlue,
    Purple,
    Red,
    RosyBrown,
    RoyalBlue,
    SaddleBrown,
    Salmon,
    SandyBrown,
    SeaGreen,
    SeaShell,
    Sienna,
    Silver,
    SkyBlue,
    SlateBlue,
    SlateGray,
    Snow,
    SpringGreen,
    SteelBlue,
    Tan,
    Teal,
    Thistle,
    Tomato,
    Turquoise,
    Violet,
    Wheat,
    White,
    WhiteSmoke,
    Yellow,
    YellowGreen,
}

/// The number of named colors.
pub const COLOR_COUNT: usize = 140;

/// The position of a color in the table.
pub open spec fn color_index(c: Color) -> nat {
    match c {
        Color::AliceBlue => 0,
        Color::AntiqueWhite => 1,
        Color::Aqua => 2,
        Color::Aquamarine => 3,
        Color::Azure => 4,
        Color::Beige => 5,
        Color::Bisque => 6,
        Color::Black => 7,
        Color::BlanchedAlmond => 8,
        Color::Blue => 9,
        Color::BlueViolet => 10,
        Color::Brown => 11,
        Color::BurlyWood => 12,
        Color::CadetBlue => 13,
        Color::Chartreuse => 14,
        Color::Chocolate => 15,
        Color::Coral => 16,
        Color::CornflowerBlue => 17,
        Color::Cornsilk => 18,
        Color::Crimson => 19,
        Color::Cyan => 20,
        Color::DarkBlue => 21,
        Color::DarkCyan => 22,
        Color::DarkGoldenRod => 23,
        Color::DarkGray => 24,
        Color::DarkGreen => 25,
        Color::DarkKhaki => 26,
        Color::DarkMagenta => 27,
        Color::DarkOliveGreen => 28,
        Color::DarkOrange => 29,
        Color::DarkOrchid => 30,
        Color::DarkRed => 31,
        Color::DarkSalmon => 32,
        Color::DarkSeaGreen => 33,
        Color::DarkSlateBlue => 34,
        Color::DarkSlateGray => 35,
        Color::DarkTurquoise => 36,
        Color::DarkViolet => 37,
        Color::DeepPink => 38,
        Color::DeepSkyBlue => 39,
        Color::DimGray => 40,
        Color::DodgerBlue => 41,
        Color::FireBrick => 42,
        Color::FloralWhite => 43,
        Color::ForestGreen => 44,
        Color::Fuchsia => 45,
        Color::Gainsboro => 46,
        Color::GhostWhite => 47,
        Color::Gold => 48,
        Color::GoldenRod => 49,
        Color::Gray => 50,
        Color::Green => 51,
        Color::GreenYellow => 52,
        Color::HoneyDew => 53,
        Color::HotPink => 54,
        Color::IndianRed => 55,
        Color::Indigo => 56,
        Color::Ivory => 57,
        Color::Khaki => 58,
        Color::Lavender => 59,
        Color::LavenderBlush => 60,
        Color::LawnGreen => 61,
        Color::LemonChiffon => 62,
        Color::LightBlue => 63,
        Color::LightCoral => 64,
        Color::LightCyan => 65,
        Color::LightGoldenRodYellow => 66,
        Color::LightGray => 67,
        Color::LightGreen => 68,
        Color::LightPink => 69,
        Color::LightSalmon => 70,
        Color::LightSeaGreen => 71,
        Color::LightSkyBlue => 72,
        Color::LightSlateGray => 73,
        Color::LightSteelBlue => 74,
        Color::LightYellow => 75,
        Color::Lime => 76,
        Color::LimeGreen => 77,
        Color::Linen => 78,
        Color::Magenta => 79,
        Color::Maroon => 80,
        Color::MediumAquaMarine => 81,
        Color::MediumBlue => 82,
        Color::MediumOrchid => 83,
        Color::MediumPurple => 84,
        Color::MediumSeaGreen => 85,
        Color::MediumSlateBlue => 86,
        Color::MediumSpringGreen => 87,
        Color::MediumTurquoise => 88,
        Color::MediumVioletRed => 89,
        Color::MidnightBlue => 90,
        Color::MintCream => 91,
        Color::MistyRose => 92,
        Color::Moccasin => 93,
        Color::NavajoWhite => 94,
        Color::Navy => 95,
        Color::OldLace => 96,
        Color::Olive => 97,
        Color::OliveDrab => 98,
        Color::Orange => 99,
        Color::OrangeRed => 100,
        Color::Orchid => 101,
        Color::PaleGoldenRod => 102,
        Color::PaleGreen => 103,
        Color::PaleTurquoise => 104,
        Color::PaleVioletRed => 105,
        Color::PapayaWhip => 106,
        Color::PeachPuff => 107,
        Color::Peru => 108,
        Color::Pink => 109,
        Color::Plum => 110,
        Color::PowderBlue => 111,
        Color::Purple => 112,
        Color::Red => 113,
        Color::RosyBrown => 114,
        Color::RoyalBlue => 115,
        Color::SaddleBrown => 116,
        Color::Salmon => 117,
        Color::SandyBrown => 118,
        Color::SeaGreen => 119,
        Color::SeaShell => 120,
        Color::Sienna => 121,
        Color::Silver => 122,
        Color::SkyBlue => 123,
        Color::SlateBlue => 124,
        Color::SlateGray => 125,
        Color::Snow => 126,
        Color::SpringGreen => 127,
        Color::SteelBlue => 128,
        Color::Tan => 129,
        Color::Teal => 130,
        Color::Thistle => 131,
        Color::Tomato => 132,
        Color::Turquoise => 133,
        Color::Violet => 134,
        Color::Wheat => 135,
        Color::White => 136,
        Color::WhiteSmoke => 137,
        Color::Yellow => 138,
        Color::YellowGreen => 139,
    }
}

/// The lower-case name of the color at position `i` of the table.
pub open spec fn lower_name_at(i: int) -> Seq<char> {
    if i == 0 {
        seq!['a', 'l', 'i', 'c', 'e', 'b', 'l', 'u', 'e']
    } else if i == 1 {
        seq!['a', 'n', 't', 'i', 'q', 'u', 'e', 'w', 'h', 'i', 't', 'e']
    } else if i == 2 {
        seq!['a', 'q', 'u', 'a']
    } else if i == 3 {
        seq!['a', 'q', 'u', 'a', 'm', 'a', 'r', 'i', 'n', 'e']
    } else if i == 4 {
        seq!['a', 'z', 'u', 'r', 'e']
    } else if i == 5 {
        seq!['b', 'e', 'i', 'g', 'e']
    } else if i == 6 {
        seq!['b', 'i', 's', 'q', 'u', 'e']
    } else if i == 7 {
        seq!['b', 'l', 'a', 'c', 'k']
    } else if i == 8 {
        seq!['b', 'l', 'a', 'n', 'c', 'h', 'e', 'd', 'a', 'l', 'm', 'o', 'n', 'd']
    } else if i == 9 {
        seq!['b', 'l', 'u', 'e']
    } else if i == 10 {
        seq!['b', 'l', 'u', 'e', 'v', 'i', 'o', 'l', 'e', 't']
    } else if i == 11 {
        seq!['b', 'r', 'o', 'w', 'n']
    } else if i == 12 {
        seq!['b', 'u', 'r', 'l', 'y', 'w', 'o', 'o', 'd']
    } else if i == 13 {
        seq!['c', 'a', 'd', 'e', 't', 'b', 'l', 'u', 'e']
    } else if i == 14 {
        seq!['c', 'h', 'a', 'r', 't', 'r', 'e', 'u', 's', 'e']
    } else if i == 15 {
        seq!['c', 'h', 'o', 'c', 'o', 'l', 'a', 't', 'e']
    } else if i == 16 {
        seq!['c', 'o', 'r', 'a', 'l']
    } else if i == 17 {
        seq!['c', 'o', 'r', 'n', 'f', 'l', 'o', 'w', 'e', 'r', 'b', 'l', 'u', 'e']
    } else if i == 18 {
        seq!['c', 'o', 'r', 'n', 's', 'i', 'l', 'k']
    } else if i == 19 {
        seq!['c', 'r', 'i', 'm', 's', 'o', 'n']
    } else if i == 20 {
        seq!['c', 'y', 'a', 'n']
    } else if i == 21 {
        seq!['d', 'a', 'r', 'k', 'b', 'l', 'u', 'e']
    } else if i == 22 {
        seq!['d', 'a', 'r', 'k', 'c', 'y', 'a', 'n']
    } else if i == 23 {
        seq!['d', 'a', 'r', 'k', 'g', 'o', 'l', 'd', 'e', 'n', 'r', 'o', 'd']
    } else if i == 24 {
        seq!['d', 'a', 'r', 'k', 'g', 'r', 'a', 'y']
    } else if i == 25 {
        seq!['d', 'a', 'r', 'k', 'g', 'r', 'e', 'e', 'n']
    } else if i == 26 {
        seq!['d', 'a', 'r', 'k', 'k', 'h', 'a', 'k', 'i']
    } else if i == 27 {
        seq!['d', 'a', 'r', 'k', 'm', 'a', 'g', 'e', 'n', 't', 'a']
    } else if i == 28 {
        seq!['d', 'a', 'r', 'k', 'o', 'l', 'i', 'v', 'e', 'g', 'r', 'e', 'e', 'n']
    } else if i == 29 {
        seq!['d', 'a', 'r', 'k', 'o', 'r', 'a', 'n', 'g', 'e']
    } else if i == 30 {
        seq!['d', 'a', 'r', 'k', 'o', 'r', 'c', 'h', 'i', 'd']
    } else if i == 31 {
        seq!['d', 'a', 'r', 'k', 'r', 'e', 'd']
    } else if i == 32 {
        seq!['d', 'a', 'r', 'k', 's', 'a', 'l', 'm', 'o', 'n']
    } else if i == 33 {
        seq!['d', 'a', 'r', 'k', 's', 'e', 'a', 'g', 'r', 'e', 'e', 'n']
    } else if i == 34 {
        seq!['d', 'a', 'r', 'k', 's', 'l', 'a', 't', 'e', 'b', 'l', 'u', 'e']
    } else if i == 35 {
        seq!['d', 'a', 'r', 'k', 's', 'l', 'a', 't', 'e', 'g', 'r', 'a', 'y']
    } else if i == 36 {
        seq!['d', 'a', 'r', 'k', 't', 'u', 'r', 'q', 'u', 'o', 'i', 's', 'e']
    } else if i == 37 {
        seq!['d', 'a', 'r', 'k', 'v', 'i', 'o', 'l', 'e', 't']
    } else if i == 38 {
        seq!['d', 'e', 'e', 'p', 'p', 'i', 'n', 'k']
    } else if i == 39 {
        seq!['d', 'e', 'e', 'p', 's', 'k', 'y', 'b', 'l', 'u', 'e']
    } else if i == 40 {
        seq!['d', 'i', 'm', 'g', 'r', 'a', 'y']
    } else if i == 41 {
        seq!['d', 'o', 'd', 'g', 'e', 'r', 'b', 'l', 'u', 'e']
    } else if i == 42 {
        seq!['f', 'i', 'r', 'e', 'b', 'r', 'i', 'c', 'k']
    } else if i == 43 {
        seq!['f', 'l', 'o', 'r', 'a', 'l', 'w', 'h', 'i', 't', 'e']
    } else if i == 44 {
        seq!['f', 'o', 'r', 'e', 's', 't', 'g', 'r', 'e', 'e', 'n']
    } else if i == 45 {
        seq!['f', 'u', 'c', 'h', 's', 'i', 'a']
    } else if i == 46 {
        seq!['g', 'a', 'i', 'n', 's', 'b', 'o', 'r', 'o']
    } else if i == 47 {
        seq!['g', 'h', 'o', 's', 't', 'w', 'h', 'i', 't', 'e']
    } else if i == 48 {
        seq!['g', 'o', 'l', 'd']
    } else if i == 49 {
        seq!['g', 'o', 'l', 'd', 'e', 'n', 'r', 'o', 'd']
    } else if i == 50 {
        seq!['g', 'r', 'a', 'y']
    } else if i == 51 {
        seq!['g', 'r', 'e', 'e', 'n']
    } else if i == 52 {
        seq!['g', 'r', 'e', 'e', 'n', 'y', 'e', 'l', 'l', 'o', 'w']
    } else if i == 53 {
        seq!['h', 'o', 'n', 'e', 'y', 'd', 'e', 'w']
    } else if i == 54 {
        seq!['h', 'o', 't', 'p', 'i', 'n', 'k']
    } else if i == 55 {
        seq!['i', 'n', 'd', 'i', 'a', 'n', 'r', 'e', 'd']
    } else if i == 56 {
        seq!['i', 'n', 'd', 'i', 'g', 'o']
    } else if i == 57 {
        seq!['i', 'v', 'o', 'r', 'y']
    } else if i == 58 {
        seq!['k', 'h', 'a', 'k', 'i']
    } else if i == 59 {
        seq!['l', 'a', 'v', 'e', 'n', 'd', 'e', 'r']
    } else if i == 60 {
        seq!['l', 'a', 'v', 'e', 'n', 'd', 'e', 'r', 'b', 'l', 'u', 's', 'h']
    } else if i == 61 {
        seq!['l', 'a', 'w', 'n', 'g', 'r', 'e', 'e', 'n']
    } else if i == 62 {
        seq!['l', 'e', 'm', 'o', 'n', 'c', 'h', 'i', 'f', 'f', 'o', 'n']
    } else if i == 63 {
        seq!['l', 'i', 'g', 'h', 't', 'b', 'l', 'u', 'e']
    } else if i == 64 {
        seq!['l', 'i', 'g', 'h', 't', 'c', 'o', 'r', 'a', 'l']
    } else if i == 65 {
        seq!['l', 'i', 'g', 'h', 't', 'c', 'y', 'a', 'n']
    } else if i == 66 {
        seq!['l', 'i', 'g', 'h', 't', 'g', 'o', 'l', 'd', 'e', 'n', 'r', 'o', 'd', 'y', 'e', 'l', 'l', 'o', 'w']
    } else if i == 67 {
        seq!['l', 'i', 'g', 'h', 't', 'g', 'r', 'a', 'y']
    } else if i == 68 {
        seq!['l', 'i', 'g', 'h', 't', 'g', 'r', 'e', 'e', 'n']
    } else if i == 69 {
        seq!['l', 'i', 'g', 'h', 't', 'p', 'i', 'n', 'k']
    } else if i == 70 {
        seq!['l', 'i', 'g', 'h', 't', 's', 'a', 'l', 'm', 'o', 'n']
    } else if i == 71 {
        seq!['l', 'i', 'g', 'h', 't', 's', 'e', 'a', 'g', 'r', 'e', 'e', 'n']
    } else if i == 72 {
        seq!['l', 'i', 'g', 'h', 't', 's', 'k', 'y', 'b', 'l', 'u', 'e']
    } else if i == 73 {
        seq!['l', 'i', 'g', 'h', 't', 's', 'l', 'a', 't', 'e', 'g', 'r', 'a', 'y']
    } else if i == 74 {
        seq!['l', 'i', 'g', 'h', 't', 's', 't', 'e', 'e', 'l', 'b', 'l', 'u', 'e']
    } else if i == 75 {
        seq!['l', 'i', 'g', 'h', 't', 'y', 'e', 'l', 'l', 'o', 'w']
    } else if i == 76 {
        seq!['l', 'i', 'm', 'e']
    } else if i == 77 {
        seq!['l', 'i', 'm', 'e', 'g', 'r', 'e', 'e', 'n']
    } else if i == 78 {
        seq!['l', 'i', 'n', 'e', 'n']
    } else if i == 79 {
        seq!['m', 'a', 'g', 'e', 'n', 't', 'a']
    } else if i == 80 {
        seq!['m', 'a', 'r', 'o', 'o', 'n']
    } else if i == 81 {
        seq!['m', 'e', 'd', 'i', 'u', 'm', 'a', 'q', 'u', 'a', 'm', 'a', 'r', 'i', 'n', 'e']
    } else if i == 82 {
        seq!['m', 'e', 'd', 'i', 'u', 'm', 'b', 'l', 'u', 'e']
    } else if i == 83 {
        seq!['m', 'e', 'd', 'i', 'u', 'm', 'o', 'r', 'c', 'h', 'i', 'd']
    } else if i == 84 {
        seq!['m', 'e', 'd', 'i', 'u', 'm', 'p', 'u', 'r', 'p', 'l', 'e']
    } else if i == 85 {
        seq!['m', 'e', 'd', 'i', 'u', 'm', 's', 'e', 'a', 'g', 'r', 'e', 'e', 'n']
    } else if i == 86 {
        seq!['m', 'e', 'd', 'i', 'u', 'm', 's', 'l', 'a', 't', 'e', 'b', 'l', 'u', 'e']
    } else if i == 87 {
        seq!['m', 'e', 'd', 'i', 'u', 'm', 's', 'p', 'r', 'i', 'n', 'g', 'g', 'r', 'e', 'e', 'n']
    } else if i == 88 {
        seq!['m', 'e', 'd', 'i', 'u', 'm', 't', 'u', 'r', 'q', 'u', 'o', 'i', 's', 'e']
    } else if i == 89 {
        seq!['m', 'e', 'd', 'i', 'u', 'm', 'v', 'i', 'o', 'l', 'e', 't', 'r', 'e', 'd']
    } else if i == 90 {
        seq!['m', 'i', 'd', 'n', 'i', 'g', 'h', 't', 'b', 'l', 'u', 'e']
    } else if i == 91 {
        seq!['m', 'i', 'n', 't', 'c', 'r', 'e', 'a', 'm']
    } else if i == 92 {
        seq!['m', 'i', 's', 't', 'y', 'r', 'o', 's', 'e']
    } else if i == 93 {
        seq!['m', 'o', 'c', 'c', 'a', 's', 'i', 'n']
    } else if i == 94 {
        seq!['n', 'a', 'v', 'a', 'j', 'o', 'w', 'h', 'i', 't', 'e']
    } else if i == 95 {
        seq!['n', 'a', 'v', 'y']
    } else if i == 96 {
        seq!['o', 'l', 'd', 'l', 'a', 'c', 'e']
    } else if i == 97 {
        seq!['o', 'l', 'i', 'v', 'e']
    } else if i == 98 {
        seq!['o', 'l', 'i', 'v', 'e', 'd', 'r', 'a', 'b']
    } else if i == 99 {
        seq!['o', 'r', 'a', 'n', 'g', 'e']
    } else if i == 100 {
        seq!['o', 'r', 'a', 'n', 'g', 'e', 'r', 'e', 'd']
    } else if i == 101 {
        seq!['o', 'r', 'c', 'h', 'i', 'd']
    } else if i == 102 {
        seq!['p', 'a', 'l', 'e', 'g', 'o', 'l', 'd', 'e', 'n', 'r', 'o', 'd']
    } else if i == 103 {
        seq!['p', 'a', 'l', 'e', 'g', 'r', 'e', 'e', 'n']
    } else if i == 104 {
        seq!['p', 'a', 'l', 'e', 't', 'u', 'r', 'q', 'u', 'o', 'i', 's', 'e']
    } else if i == 105 {
        seq!['p', 'a', 'l', 'e', 'v', 'i', 'o', 'l', 'e', 't', 'r', 'e', 'd']
    } else if i == 106 {
        seq!['p', 'a', 'p', 'a', 'y', 'a', 'w', 'h', 'i', 'p']
    } else if i == 107 {
        seq!['p', 'e', 'a', 'c', 'h', 'p', 'u', 'f', 'f']
    } else if i == 108 {
        seq!['p', 'e', 'r', 'u']
    } else if i == 109 {
        seq!['p', 'i', 'n', 'k']
    } else if i == 110 {
        seq!['p', 'l', 'u', 'm']
    } else if i == 111 {
        seq!['p', 'o', 'w', 'd', 'e', 'r', 'b', 'l', 'u', 'e']
    } else if i == 112 {
        seq!['p', 'u', 'r', 'p', 'l', 'e']
    } else if i == 113 {
        seq!['r', 'e', 'd']
    } else if i == 114 {
        seq!['r', 'o', 's', 'y', 'b', 'r', 'o', 'w', 'n']
    } else if i == 115 {
        seq!['r', 'o', 'y', 'a', 'l', 'b', 'l', 'u', 'e']
    } else if i == 116 {
        seq!['s', 'a', 'd', 'd', 'l', 'e', 'b', 'r', 'o', 'w', 'n']
    } else if i == 117 {
        seq!['s', 'a', 'l', 'm', 'o', 'n']
    } else if i == 118 {
        seq!['s', 'a', 'n', 'd', 'y', 'b', 'r', 'o', 'w', 'n']
    } else if i == 119 {
        seq!['s', 'e', 'a', 'g', 'r', 'e', 'e', 'n']
    } else if i == 120 {
        seq!['s', 'e', 'a', 's', 'h', 'e', 'l', 'l']
    } else if i == 121 {
        seq!['s', 'i', 'e', 'n', 'n', 'a']
    } else if i == 122 {
        seq!['s', 'i', 'l', 'v', 'e', 'r']
    } else if i == 123 {
        seq!['s', 'k', 'y', 'b', 'l', 'u', 'e']
    } else if i == 124 {
        seq!['s', 'l', 'a', 't', 'e', 'b', 'l', 'u', 'e']
    } else if i == 125 {
        seq!['s', 'l', 'a', 't', 'e', 'g', 'r', 'a', 'y']
    } else if i == 126 {
        seq!['s', 'n', 'o', 'w']
    } else if i == 127 {
        seq!['s', 'p', 'r', 'i', 'n', 'g', 'g', 'r', 'e', 'e', 'n']
    } else if i == 128 {
        seq!['s', 't', 'e', 'e', 'l', 'b', 'l', 'u', 'e']
    } else if i == 129 {
        seq!['t', 'a', 'n']
    } else if i == 130 {
        seq!['t', 'e', 'a', 'l']
    } else if i == 131 {
        seq!['t', 'h', 'i', 's', 't', 'l', 'e']
    } else if i == 132 {
        seq!['t', 'o', 'm', 'a', 't', 'o']
    } else if i == 133 {
        seq!['t', 'u', 'r', 'q', 'u', 'o', 'i', 's', 'e']
    } else if i == 134 {
        seq!['v', 'i', 'o', 'l', 'e', 't']
    } else if i == 135 {
        seq!['w', 'h', 'e', 'a', 't']
    } else if i == 136 {
        seq!['w', 'h', 'i', 't', 'e']
    } else if i == 137 {
        seq!['w', 'h', 'i', 't', 'e', 's', 'm', 'o', 'k', 'e']
    } else if i == 138 {
        seq!['y', 'e', 'l', 'l', 'o', 'w']
    } else {
        seq!['y', 'e', 'l', 'l', 'o', 'w', 'g', 'r', 'e', 'e', 'n']
    }
}

/// Two colors at the same position of the table are the same color.
pub proof fn lemma_color_index_injective(a: Color, b: Color)
    requires
        color_index(a) == color_index(b),
    ensures
        a == b,
{
}

/// The lower-case name of a color, such as `aliceblue`.
pub open spec fn lowercase_name_spec(c: Color) -> Seq<char> {
    lower_name_at(color_index(c) as int)
}

/// The human readable name of a color, such as `Alice Blue`.
pub open spec fn readable_name_spec(c: Color) -> Seq<char> {
    match c {
        Color::AliceBlue => "Alice Blue"@,
        Color::AntiqueWhite => "Antique White"@,
        Color::Aqua => "Aqua"@,
        Color::Aquamarine => "Aquamarine"@,
        Color::Azure => "Azure"@,
        Color::Beige => "Beige"@,
        Color::Bisque => "Bisque"@,
        Color::Black => "Black"@,
        Color::BlanchedAlmond => "Blanched Almond"@,
        Color::Blue => "Blue"@,
        Color::BlueViolet => "Blue Violet"@,
        Color::Brown => "Brown"@,
        Color::BurlyWood => "Burly Wood"@,
        Color::CadetBlue => "Cadet Blue"@,
        Color::Chartreuse => "Chartreuse"@,
        Color::Chocolate => "Chocolate"@,
        Color::Coral => "Coral"@,
        Color::CornflowerBlue => "Cornflower Blue"@,
        Color::Cornsilk => "Cornsilk"@,
        Color::Crimson => "Crimson"@,
        Color::Cyan => "Cyan"@,
        Color::DarkBlue => "Dark Blue"@,
        Color::DarkCyan => "Dark Cyan"@,
        Color::DarkGoldenRod => "Dark Golden Rod"@,
        Color::DarkGray => "Dark Gray"@,
        Color::DarkGreen => "Dark Green"@,
        Color::DarkKhaki => "Dark Khaki"@,
        Color::DarkMagenta => "Dark Magenta"@,
        Color::DarkOliveGreen => "Dark Olive Green"@,
        Color::DarkOrange => "Dark Orange"@,
        Color::DarkOrchid => "Dark Orchid"@,
        Color::DarkRed => "Dark Red"@,
        Color::DarkSalmon => "Dark Salmon"@,
        Color::DarkSeaGreen => "Dark Sea Green"@,
        Color::DarkSlateBlue => "Dark Slate Blue"@,
        Color::DarkSlateGray => "Dark Slate Gray"@,
        Color::DarkTurquoise => "Dark Turquoise"@,
        Color::DarkViolet => "Dark Violet"@,
        Color::DeepPink => "Deep Pink"@,
        Color::DeepSkyBlue => "Deep Sky Blue"@,
        Color::DimGray => "Dim Gray"@,
        Color::DodgerBlue => "Dodger Blue"@,
        Color::FireBrick => "Fire Brick"@,
        Color::FloralWhite => "Floral White"@,
        Color::ForestGreen => "Forest Green"@,
        Color::Fuchsia => "Fuchsia"@,
        Color::Gainsboro => "Gainsboro"@,
        Color::GhostWhite => "Ghost White"@,
        Color::Gold => "Gold"@,
        Color::GoldenRod => "Golden Rod"@,
        Color::Gray => "Gray"@,
        Color::Green => "Green"@,
        Color::GreenYellow => "Green Yellow"@,
        Color::HoneyDew => "Honey Dew"@,
        Color::HotPink => "Hot Pink"@,
        Color::IndianRed => "Indian Red"@,
        Color::Indigo => "Indigo"@,
        Color::Ivory => "Ivory"@,
        Color::Khaki => "Khaki"@,
        Color::Lavender => "Lavender"@,
        Color::LavenderBlush => "Lavender Blush"@,
        Color::LawnGreen => "Lawn Green"@,
        Color::LemonChiffon => "Lemon Chiffon"@,
        Color::LightBlue => "Light Blue"@,
        Color::LightCoral => "Light Coral"@,
        Color::LightCyan => "Light Cyan"@,
        Color::LightGoldenRodYellow => "Light Golden Rod Yellow"@,
        Color::LightGray => "Light Gray"@,
        Color::LightGreen => "Light Green"@,
        Color::LightPink => "Light Pink"@,
        Color::LightSalmon => "Light Salmon"@,
        Color::LightSeaGreen => "Light Sea Green"@,
        Color::LightSkyBlue => "Light Sky Blue"@,
        Color::LightSlateGray => "Light Slate Gray"@,
        Color::LightSteelBlue => "Light Steel Blue"@,
        Color::LightYellow => "Light Yellow"@,
        Color::Lime => "Lime"@,
        Color::LimeGreen => "Lime Green"@,
        Color::Linen => "Linen"@,
        Color::Magenta => "Magenta"@,
        Color::Maroon => "Maroon"@,
        Color::MediumAquaMarine => "Medium Aqua Marine"@,
        Color::MediumBlue => "Medium Blue"@,
        Color::MediumOrchid => "Medium Orchid"@,
        Color::MediumPurple => "Medium Purple"@,
        Color::MediumSeaGreen => "Medium Sea Green"@,
        Color::MediumSlateBlue => "Medium Slate Blue"@,
        Color::MediumSpringGreen => "Medium Spring Green"@,
        Color::MediumTurquoise => "Medium Turquoise"@,
        Color::MediumVioletRed => "Medium Violet Red"@,
        Color::MidnightBlue => "Midnight Blue"@,
        Color::MintCream => "Mint Cream"@,
        Color::MistyRose => "Misty Rose"@,
        Color::Moccasin => "Moccasin"@,
        Color::NavajoWhite => "Navajo White"@,
        Color::Navy => "Navy"@,
        Color::OldLace => "Old Lace"@,
        Color::Olive => "Olive"@,
        Color::OliveDrab => "Olive Drab"@,
        Color::Orange => "Orange"@,
        Color::OrangeRed => "Orange Red"@,
        Color::Orchid => "Orchid"@,
        Color::PaleGoldenRod => "Pale Golden Rod"@,
        Color::PaleGreen => "Pale Green"@,
        Color::PaleTurquoise => "Pale Turquoise"@,
        Color::PaleVioletRed => "Pale Violet Red"@,
        Color::PapayaWhip => "Papaya Whip"@,
        Color::PeachPuff => "Peach Puff"@,
        Color::Peru => "Peru"@,
        Color::Pink => "Pink"@,
        Color::Plum => "Plum"@,
        Color::PowderBlue => "Powder Blue"@,
        Color::Purple => "Purple"@,
        Color::Red => "Red"@,
        Color::RosyBrown => "Rosy Brown"@,
        Color::RoyalBlue => "Royal Blue"@,
        Color::SaddleBrown => "Saddle Brown"@,
        Color::Salmon => "Salmon"@,
        Color::SandyBrown => "Sandy Brown"@,
        Color::SeaGreen => "Sea Green"@,
        Color::SeaShell => "Sea Shell"@,
        Color::Sienna => "Sienna"@,
        Color::Silver => "Silver"@,
        Color::SkyBlue => "Sky Blue"@,
        Color::SlateBlue => "Slate Blue"@,
        Color::SlateGray => "Slate Gray"@,
        Color::Snow => "Snow"@,
        Color::SpringGreen => "Spring Green"@,
        Color::SteelBlue => "Steel Blue"@,
        Color::Tan => "Tan"@,
        Color::Teal => "Teal"@,
        Color::Thistle => "Thistle"@,
        Color::Tomato => "Tomato"@,
        Color::Turquoise => "Turquoise"@,
        Color::Violet => "Violet"@,
        Color::Wheat => "Wheat"@,
        Color::White => "White"@,
        Color::WhiteSmoke => "White Smoke"@,
        Color::Yellow => "Yellow"@,
        Color::YellowGreen => "Yellow Green"@,
    }
}

/// The `PascalCase` name of a color.
pub open spec fn pascal_name_spec(c: Color) -> Seq<char> {
    match c {
        Color::AliceBlue => "AliceBlue"@,
        Color::AntiqueWhite => "AntiqueWhite"@,
        Color::Aqua => "Aqua"@,
        Color::Aquamarine => "Aquamarine"@,
        Color::Azure => "Azure"@,
        Color::Beige => "Beige"@,
        Color::Bisque => "Bisque"@,
        Color::Black => "Black"@,
        Color::BlanchedAlmond => "BlanchedAlmond"@,
        Color::Blue => "Blue"@,
        Color::BlueViolet => "BlueViolet"@,
        Color::Brown => "Brown"@,
        Color::BurlyWood => "BurlyWood"@,
        Color::CadetBlue => "CadetBlue"@,
        Color::Chartreuse => "Chartreuse"@,
        Color::Chocolate => "Chocolate"@,
        Color::Coral => "Coral"@,
        Color::CornflowerBlue => "CornflowerBlue"@,
        Color::Cornsilk => "Cornsilk"@,
        Color::Crimson => "Crimson"@,
        Color::Cyan => "Cyan"@,
        Color::DarkBlue => "DarkBlue"@,
        Color::DarkCyan => "DarkCyan"@,
        Color::DarkGoldenRod => "DarkGoldenRod"@,
        Color::DarkGray => "DarkGray"@,
        Color::DarkGreen => "DarkGreen"@,
        Color::DarkKhaki => "DarkKhaki"@,
        Color::DarkMagenta => "DarkMagenta"@,
        Color::DarkOliveGreen => "DarkOliveGreen"@,
        Color::DarkOrange => "DarkOrange"@,
        Color::DarkOrchid => "DarkOrchid"@,
        Color::DarkRed => "DarkRed"@,
        Color::DarkSalmon => "DarkSalmon"@,
        Color::DarkSeaGreen => "DarkSeaGreen"@,
        Color::DarkSlateBlue => "DarkSlateBlue"@,
        Color::DarkSlateGray => "DarkSlateGray"@,
        Color::DarkTurquoise => "DarkTurquoise"@,
        Color::DarkViolet => "DarkViolet"@,
        Color::DeepPink => "DeepPink"@,
        Color::DeepSkyBlue => "DeepSkyBlue"@,
        Color::DimGray => "DimGray"@,
        Color::DodgerBlue => "DodgerBlue"@,
        Color::FireBrick => "FireBrick"@,
        Color::FloralWhite => "FloralWhite"@,
        Color::ForestGreen => "ForestGreen"@,
        Color::Fuchsia => "Fuchsia"@,
        Color::Gainsboro => "Gainsboro"@,
        Color::GhostWhite => "GhostWhite"@,
        Color::Gold => "Gold"@,
        Color::GoldenRod => "GoldenRod"@,
        Color::Gray => "Gray"@,
        Color::Green => "Green"@,
        Color::GreenYellow => "GreenYellow"@,
        Color::HoneyDew => "HoneyDew"@,
        Color::HotPink => "HotPink"@,
        Color::IndianRed => "IndianRed"@,
        Color::Indigo => "Indigo"@,
        Color::Ivory => "Ivory"@,
        Color::Khaki => "Khaki"@,
        Color::Lavender => "Lavender"@,
        Color::LavenderBlush => "LavenderBlush"@,
        Color::LawnGreen => "LawnGreen"@,
        Color::LemonChiffon => "LemonChiffon"@,
        Color::LightBlue => "LightBlue"@,
        Color::LightCoral => "LightCoral"@,
        Color::LightCyan => "LightCyan"@,
        Color::LightGoldenRodYellow => "LightGoldenRodYellow"@,
        Color::LightGray => "LightGray"@,
        Color::LightGreen => "LightGreen"@,
        Color::LightPink => "LightPink"@,
        Color::LightSalmon => "LightSalmon"@,
        Color::LightSeaGreen => "LightSeaGreen"@,
        Color::LightSkyBlue => "LightSkyBlue"@,
        Color::LightSlateGray => "LightSlateGray"@,
        Color::LightSteelBlue => "LightSteelBlue"@,
        Color::LightYellow => "LightYellow"@,
        Color::Lime => "Lime"@,
        Color::LimeGreen => "LimeGreen"@,
        Color::Linen => "Linen"@,
        Color::Magenta => "Magenta"@,
        Color::Maroon => "Maroon"@,
        Color::MediumAquaMarine => "MediumAquaMarine"@,
        Color::MediumBlue => "MediumBlue"@,
        Color::MediumOrchid => "MediumOrchid"@,
        Color::MediumPurple => "MediumPurple"@,
        Color::MediumSeaGreen => "MediumSeaGreen"@,
        Color::MediumSlateBlue => "MediumSlateBlue"@,
        Color::MediumSpringGreen => "MediumSpringGreen"@,
        Color::MediumTurquoise => "MediumTurquoise"@,
        Color::MediumVioletRed => "MediumVioletRed"@,
        Color::MidnightBlue => "MidnightBlue"@,
        Color::MintCream => "MintCream"@,
        Color::MistyRose => "MistyRose"@,
        Color::Moccasin => "Moccasin"@,
        Color::NavajoWhite => "NavajoWhite"@,
        Color::Navy => "Navy"@,
        Color::OldLace => "OldLace"@,
        Color::Olive => "Olive"@,
        Color::OliveDrab => "OliveDrab"@,
        Color::Orange => "Orange"@,
        Color::OrangeRed => "OrangeRed"@,
        Color::Orchid => "Orchid"@,
        Color::PaleGoldenRod => "PaleGoldenRod"@,
        Color::PaleGreen => "PaleGreen"@,
        Color::PaleTurquoise => "PaleTurquoise"@,
        Color::PaleVioletRed => "PaleVioletRed"@,
        Color::PapayaWhip => "PapayaWhip"@,
        Color::PeachPuff => "PeachPuff"@,
        Color::Peru => "Peru"@,
        Color::Pink => "Pink"@,
        Color::Plum => "Plum"@,
        Color::PowderBlue => "PowderBlue"@,
        Color::Purple => "Purple"@,
        Color::Red => "Red"@,
        Color::RosyBrown => "RosyBrown"@,
        Color::RoyalBlue => "RoyalBlue"@,
        Color::SaddleBrown => "SaddleBrown"@,
        Color::Salmon => "Salmon"@,
        Color::SandyBrown => "SandyBrown"@,
        Color::SeaGreen => "SeaGreen"@,
        Color::SeaShell => "SeaShell"@,
        Color::Sienna => "Sienna"@,
        Color::Silver => "Silver"@,
        Color::SkyBlue => "SkyBlue"@,
        Color::SlateBlue => "SlateBlue"@,
        Color::SlateGray => "SlateGray"@,
        Color::Snow => "Snow"@,
        Color::SpringGreen => "SpringGreen"@,
        Color::SteelBlue => "SteelBlue"@,
        Color::Tan => "Tan"@,
        Color::Teal => "Teal"@,
        Color::Thistle => "Thistle"@,
        Color::Tomato => "Tomato"@,
        Color::Turquoise => "Turquoise"@,
        Color::Violet => "Violet"@,
        Color::Wheat => "Wheat"@,
        Color::White => "White"@,
        Color::WhiteSmoke => "WhiteSmoke"@,
        Color::Yellow => "Yellow"@,
        Color::YellowGreen => "YellowGreen"@,
    }
}

/// The `lower_snake_case` name of a color.
pub open spec fn lower_snake_spec(c: Color) -> Seq<char> {
    match c {
        Color::AliceBlue => "alice_blue"@,
        Color::AntiqueWhite => "antique_white"@,
        Color::Aqua => "aqua"@,
        Color::Aquamarine => "aquamarine"@,
        Color::Azure => "azure"@,
        Color::Beige => "beige"@,
        Color::Bisque => "bisque"@,
        Color::Black => "black"@,
        Color::BlanchedAlmond => "blanched_almond"@,
        Color::Blue => "blue"@,
        Color::BlueViolet => "blue_violet"@,
        Color::Brown => "brown"@,
        Color::BurlyWood => "burly_wood"@,
        Color::CadetBlue => "cadet_blue"@,
        Color::Chartreuse => "chartreuse"@,
        Color::Chocolate => "chocolate"@,
        Color::Coral => "coral"@,
        Color::CornflowerBlue => "cornflower_blue"@,
        Color::Cornsilk => "cornsilk"@,
        Color::Crimson => "crimson"@,
        Color::Cyan => "cyan"@,
        Color::DarkBlue => "dark_blue"@,
        Color::DarkCyan => "dark_cyan"@,
        Color::DarkGoldenRod => "dark_golden_rod"@,
        Color::DarkGray => "dark_gray"@,
        Color::DarkGreen => "dark_green"@,
        Color::DarkKhaki => "dark_khaki"@,
        Color::DarkMagenta => "dark_magenta"@,
        Color::DarkOliveGreen => "dark_olive_green"@,
        Color::DarkOrange => "dark_orange"@,
        Color::DarkOrchid => "dark_orchid"@,
        Color::DarkRed => "dark_red"@,
        Color::DarkSalmon => "dark_salmon"@,
        Color::DarkSeaGreen => "dark_sea_green"@,
        Color::DarkSlateBlue => "dark_slate_blue"@,
        Color::DarkSlateGray => "dark_slate_gray"@,
        Color::DarkTurquoise => "dark_turquoise"@,
        Color::DarkViolet => "dark_violet"@,
        Color::DeepPink => "deep_pink"@,
        Color::DeepSkyBlue => "deep_sky_blue"@,
        Color::DimGray => "dim_gray"@,
        Color::DodgerBlue => "dodger_blue"@,
        Color::FireBrick => "fire_brick"@,
        Color::FloralWhite => "floral_white"@,
        Color::ForestGreen => "forest_green"@,
        Color::Fuchsia => "fuchsia"@,
        Color::Gainsboro => "gainsboro"@,
        Color::GhostWhite => "ghost_white"@,
        Color::Gold => "gold"@,
        Color::GoldenRod => "golden_rod"@,
        Color::Gray => "gray"@,
        Color::Green => "green"@,
        Color::GreenYellow => "green_yellow"@,
        Color::HoneyDew => "honey_dew"@,
        Color::HotPink => "hot_pink"@,
        Color::IndianRed => "indian_red"@,
        Color::Indigo => "indigo"@,
        Color::Ivory => "ivory"@,
        Color::Khaki => "khaki"@,
        Color::Lavender => "lavender"@,
        Color::LavenderBlush => "lavender_blush"@,
        Color::LawnGreen => "lawn_green"@,
        Color::LemonChiffon => "lemon_chiffon"@,
        Color::LightBlue => "light_blue"@,
        Color::LightCoral => "light_coral"@,
        Color::LightCyan => "light_cyan"@,
        Color::LightGoldenRodYellow => "light_golden_rod_yellow"@,
        Color::LightGray => "light_gray"@,
        Color::LightGreen => "light_green"@,
        Color::LightPink => "light_pink"@,
        Color::LightSalmon => "light_salmon"@,
        Color::LightSeaGreen => "light_sea_green"@,
        Color::LightSkyBlue => "light_sky_blue"@,
        Color::LightSlateGray => "light_slate_gray"@,
        Color::LightSteelBlue => "light_steel_blue"@,
        Color::LightYellow => "light_yellow"@,
        Color::Lime => "lime"@,
        Color::LimeGreen => "lime_green"@,
        Color::Linen => "linen"@,
        Color::Magenta => "magenta"@,
        Color::Maroon => "maroon"@,
        Color::MediumAquaMarine => "medium_aqua_marine"@,
        Color::MediumBlue => "medium_blue"@,
        Color::MediumOrchid => "medium_orchid"@,
        Color::MediumPurple => "medium_purple"@,
        Color::MediumSeaGreen => "medium_sea_green"@,
        Color::MediumSlateBlue => "medium_slate_blue"@,
        Color::MediumSpringGreen => "medium_spring_green"@,
        Color::MediumTurquoise => "medium_turquoise"@,
        Color::MediumVioletRed => "medium_violet_red"@,
        Color::MidnightBlue => "midnight_blue"@,
        Color::MintCream => "mint_cream"@,
        Color::MistyRose => "misty_rose"@,
        Color::Moccasin => "moccasin"@,
        Color::NavajoWhite => "navajo_white"@,
        Color::Navy => "navy"@,
        Color::OldLace => "old_lace"@,
        Color::Olive => "olive"@,
        Color::OliveDrab => "olive_drab"@,
        Color::Orange => "orange"@,
        Color::OrangeRed => "orange_red"@,
        Color::Orchid => "orchid"@,
        Color::PaleGoldenRod => "pale_golden_rod"@,
        Color::PaleGreen => "pale_green"@,
        Color::PaleTurquoise => "pale_turquoise"@,
        Color::PaleVioletRed => "pale_violet_red"@,
        Color::PapayaWhip => "papaya_whip"@,
        Color::PeachPuff => "peach_puff"@,
        Color::Peru => "peru"@,
        Color::Pink => "pink"@,
        Color::Plum => "plum"@,
        Color::PowderBlue => "powder_blue"@,
        Color::Purple => "purple"@,
        Color::Red => "red"@,
        Color::RosyBrown => "rosy_brown"@,
        Color::RoyalBlue => "royal_blue"@,
        Color::SaddleBrown => "saddle_brown"@,
        Color::Salmon => "salmon"@,
        Color::SandyBrown => "sandy_brown"@,
        Color::SeaGreen => "sea_green"@,
        Color::SeaShell => "sea_shell"@,
        Color::Sienna => "sienna"@,
        Color::Silver => "silver"@,
        Color::SkyBlue => "sky_blue"@,
        Color::SlateBlue => "slate_blue"@,
        Color::SlateGray => "slate_gray"@,
        Color::Snow => "snow"@,
        Color::SpringGreen => "spring_green"@,
        Color::SteelBlue => "steel_blue"@,
        Color::Tan => "tan"@,
        Color::Teal => "teal"@,
        Color::Thistle => "thistle"@,
        Color::Tomato => "tomato"@,
        Color::Turquoise => "turquoise"@,
        Color::Violet => "violet"@,
        Color::Wheat => "wheat"@,
        Color::White => "white"@,
        Color::WhiteSmoke => "white_smoke"@,
        Color::Yellow => "yellow"@,
        Color::YellowGreen => "yellow_green"@,
    }
}

/// The `UPPER_SNAKE_CASE` name of a color.
pub open spec fn upper_snake_spec(c: Color) -> Seq<char> {
    match c {
        Color::AliceBlue => "ALICE_BLUE"@,
        Color::AntiqueWhite => "ANTIQUE_WHITE"@,
        Color::Aqua => "AQUA"@,
        Color::Aquamarine => "AQUAMARINE"@,
        Color::Azure => "AZURE"@,
        Color::Beige => "BEIGE"@,
        Color::Bisque => "BISQUE"@,
        Color::Black => "BLACK"@,
        Color::BlanchedAlmond => "BLANCHED_ALMOND"@,
        Color::Blue => "BLUE"@,
        Color::BlueViolet => "BLUE_VIOLET"@,
        Color::Brown => "BROWN"@,
        Color::BurlyWood => "BURLY_WOOD"@,
        Color::CadetBlue => "CADET_BLUE"@,
        Color::Chartreuse => "CHARTREUSE"@,
        Color::Chocolate => "CHOCOLATE"@,
        Color::Coral => "CORAL"@,
        Color::CornflowerBlue => "CORNFLOWER_BLUE"@,
        Color::Cornsilk => "CORNSILK"@,
        Color::Crimson => "CRIMSON"@,
        Color::Cyan => "CYAN"@,
        Color::DarkBlue => "DARK_BLUE"@,
        Color::DarkCyan => "DARK_CYAN"@,
        Color::DarkGoldenRod => "DARK_GOLDEN_ROD"@,
        Color::DarkGray => "DARK_GRAY"@,
        Color::DarkGreen => "DARK_GREEN"@,
        Color::DarkKhaki => "DARK_KHAKI"@,
        Color::DarkMagenta => "DARK_MAGENTA"@,
        Color::DarkOliveGreen => "DARK_OLIVE_GREEN"@,
        Color::DarkOrange => "DARK_ORANGE"@,
        Color::DarkOrchid => "DARK_ORCHID"@,
        Color::DarkRed => "DARK_RED"@,
        Color::DarkSalmon => "DARK_SALMON"@,
        Color::DarkSeaGreen => "DARK_SEA_GREEN"@,
        Color::DarkSlateBlue => "DARK_SLATE_BLUE"@,
        Color::DarkSlateGray => "DARK_SLATE_GRAY"@,
        Color::DarkTurquoise => "DARK_TURQUOISE"@,
        Color::DarkViolet => "DARK_VIOLET"@,
        Color::DeepPink => "DEEP_PINK"@,
        Color::DeepSkyBlue => "DEEP_SKY_BLUE"@,
        Color::DimGray => "DIM_GRAY"@,
        Color::DodgerBlue => "DODGER_BLUE"@,
        Color::FireBrick => "FIRE_BRICK"@,
        Color::FloralWhite => "FLORAL_WHITE"@,
        Color::ForestGreen => "FOREST_GREEN"@,
        Color::Fuchsia => "FUCHSIA"@,
        Color::Gainsboro => "GAINSBORO"@,
        Color::GhostWhite => "GHOST_WHITE"@,
        Color::Gold => "GOLD"@,
        Color::GoldenRod => "GOLDEN_ROD"@,
        Color::Gray => "GRAY"@,
        Color::Green => "GREEN"@,
        Color::GreenYellow => "GREEN_YELLOW"@,
        Color::HoneyDew => "HONEY_DEW"@,
        Color::HotPink => "HOT_PINK"@,
        Color::IndianRed => "INDIAN_RED"@,
        Color::Indigo => "INDIGO"@,
        Color::Ivory => "IVORY"@,
        Color::Khaki => "KHAKI"@,
        Color::Lavender => "LAVENDER"@,
        Color::LavenderBlush => "LAVENDER_BLUSH"@,
        Color::LawnGreen => "LAWN_GREEN"@,
        Color::LemonChiffon => "LEMON_CHIFFON"@,
        Color::LightBlue => "LIGHT_BLUE"@,
        Color::LightCoral => "LIGHT_CORAL"@,
        Color::LightCyan => "LIGHT_CYAN"@,
        Color::LightGoldenRodYellow => "LIGHT_GOLDEN_ROD_YELLOW"@,
        Color::LightGray => "LIGHT_GRAY"@,
        Color::LightGreen => "LIGHT_GREEN"@,
        Color::LightPink => "LIGHT_PINK"@,
        Color::LightSalmon => "LIGHT_SALMON"@,
        Color::LightSeaGreen => "LIGHT_SEA_GREEN"@,
        Color::LightSkyBlue => "LIGHT_SKY_BLUE"@,
        Color::LightSlateGray => "LIGHT_SLATE_GRAY"@,
        Color::LightSteelBlue => "LIGHT_STEEL_BLUE"@,
        Color::LightYellow => "LIGHT_YELLOW"@,
        Color::Lime => "LIME"@,
        Color::LimeGreen => "LIME_GREEN"@,
        Color::Linen => "LINEN"@,
        Color::Magenta => "MAGENTA"@,
        Color::Maroon => "MAROON"@,
        Color::MediumAquaMarine => "MEDIUM_AQUA_MARINE"@,
        Color::MediumBlue => "MEDIUM_BLUE"@,
        Color::MediumOrchid => "MEDIUM_ORCHID"@,
        Color::MediumPurple => "MEDIUM_PURPLE"@,
        Color::MediumSeaGreen => "MEDIUM_SEA_GREEN"@,
        Color::MediumSlateBlue => "MEDIUM_SLATE_BLUE"@,
        Color::MediumSpringGreen => "MEDIUM_SPRING_GREEN"@,
        Color::MediumTurquoise => "MEDIUM_TURQUOISE"@,
        Color::MediumVioletRed => "MEDIUM_VIOLET_RED"@,
        Color::MidnightBlue => "MIDNIGHT_BLUE"@,
        Color::MintCream => "MINT_CREAM"@,
        Color::MistyRose => "MISTY_ROSE"@,
        Color::Moccasin => "MOCCASIN"@,
        Color::NavajoWhite => "NAVAJO_WHITE"@,
        Color::Navy => "NAVY"@,
        Color::OldLace => "OLD_LACE"@,
        Color::Olive => "OLIVE"@,
        Color::OliveDrab => "OLIVE_DRAB"@,
        Color::Orange => "ORANGE"@,
        Color::OrangeRed => "ORANGE_RED"@,
        Color::Orchid => "ORCHID"@,
        Color::PaleGoldenRod => "PALE_GOLDEN_ROD"@,
        Color::PaleGreen => "PALE_GREEN"@,
        Color::PaleTurquoise => "PALE_TURQUOISE"@,
        Color::PaleVioletRed => "PALE_VIOLET_RED"@,
        Color::PapayaWhip => "PAPAYA_WHIP"@,
        Color::PeachPuff => "PEACH_PUFF"@,
        Color::Peru => "PERU"@,
        Color::Pink => "PINK"@,
        Color::Plum => "PLUM"@,
        Color::PowderBlue => "POWDER_BLUE"@,
        Color::Purple => "PURPLE"@,
        Color::Red => "RED"@,
        Color::RosyBrown => "ROSY_BROWN"@,
        Color::RoyalBlue => "ROYAL_BLUE"@,
        Color::SaddleBrown => "SADDLE_BROWN"@,
        Color::Salmon => "SALMON"@,
        Color::SandyBrown => "SANDY_BROWN"@,
        Color::SeaGreen => "SEA_GREEN"@,
        Color::SeaShell => "SEA_SHELL"@,
        Color::Sienna => "SIENNA"@,
        Color::Silver => "SILVER"@,
        Color::SkyBlue => "SKY_BLUE"@,
        Color::SlateBlue => "SLATE_BLUE"@,
        Color::SlateGray => "SLATE_GRAY"@,
        Color::Snow => "SNOW"@,
        Color::SpringGreen => "SPRING_GREEN"@,
        Color::SteelBlue => "STEEL_BLUE"@,
        Color::Tan => "TAN"@,
        Color::Teal => "TEAL"@,
        Color::Thistle => "THISTLE"@,
        Color::Tomato => "TOMATO"@,
        Color::Turquoise => "TURQUOISE"@,
        Color::Violet => "VIOLET"@,
        Color::Wheat => "WHEAT"@,
        Color::White => "WHITE"@,
        Color::WhiteSmoke => "WHITE_SMOKE"@,
        Color::Yellow => "YELLOW"@,
        Color::YellowGreen => "YELLOW_GREEN"@,
    }
}

/// The `UPPERCASENAME` of a color.
pub open spec fn uppercase_name_spec(c: Color) -> Seq<char> {
    match c {
        Color::AliceBlue => "ALICEBLUE"@,
        Color::AntiqueWhite => "ANTIQUEWHITE"@,
        Color::Aqua => "AQUA"@,
        Color::Aquamarine => "AQUAMARINE"@,
        Color::Azure => "AZURE"@,
        Color::Beige => "BEIGE"@,
        Color::Bisque => "BISQUE"@,
        Color::Black => "BLACK"@,
        Color::BlanchedAlmond => "BLANCHEDALMOND"@,
        Color::Blue => "BLUE"@,
        Color::BlueViolet => "BLUEVIOLET"@,
        Color::Brown => "BROWN"@,
        Color::BurlyWood => "BURLYWOOD"@,
        Color::CadetBlue => "CADETBLUE"@,
        Color::Chartreuse => "CHARTREUSE"@,
        Color::Chocolate => "CHOCOLATE"@,
        Color::Coral => "CORAL"@,
        Color::CornflowerBlue => "CORNFLOWERBLUE"@,
        Color::Cornsilk => "CORNSILK"@,
        Color::Crimson => "CRIMSON"@,
        Color::Cyan => "CYAN"@,
        Color::DarkBlue => "DARKBLUE"@,
        Color::DarkCyan => "DARKCYAN"@,
        Color::DarkGoldenRod => "DARKGOLDENROD"@,
        Color::DarkGray => "DARKGRAY"@,
        Color::DarkGreen => "DARKGREEN"@,
        Color::DarkKhaki => "DARKKHAKI"@,
        Color::DarkMagenta => "DARKMAGENTA"@,
        Color::DarkOliveGreen => "DARKOLIVEGREEN"@,
        Color::DarkOrange => "DARKORANGE"@,
        Color::DarkOrchid => "DARKORCHID"@,
        Color::DarkRed => "DARKRED"@,
        Color::DarkSalmon => "DARKSALMON"@,
        Color::DarkSeaGreen => "DARKSEAGREEN"@,
        Color::DarkSlateBlue => "DARKSLATEBLUE"@,
        Color::DarkSlateGray => "DARKSLATEGRAY"@,
        Color::DarkTurquoise => "DARKTURQUOISE"@,
        Color::DarkViolet => "DARKVIOLET"@,
        Color::DeepPink => "DEEPPINK"@,
        Color::DeepSkyBlue => "DEEPSKYBLUE"@,
        Color::DimGray => "DIMGRAY"@,
        Color::DodgerBlue => "DODGERBLUE"@,
        Color::FireBrick => "FIREBRICK"@,
        Color::FloralWhite => "FLORALWHITE"@,
        Color::ForestGreen => "FORESTGREEN"@,
        Color::Fuchsia => "FUCHSIA"@,
        Color::Gainsboro => "GAINSBORO"@,
        Color::GhostWhite => "GHOSTWHITE"@,
        Color::Gold => "GOLD"@,
        Color::GoldenRod => "GOLDENROD"@,
        Color::Gray => "GRAY"@,
        Color::Green => "GREEN"@,
        Color::GreenYellow => "GREENYELLOW"@,
        Color::HoneyDew => "HONEYDEW"@,
        Color::HotPink => "HOTPINK"@,
        Color::IndianRed => "INDIANRED"@,
        Color::Indigo => "INDIGO"@,
        Color::Ivory => "IVORY"@,
        Color::Khaki => "KHAKI"@,
        Color::Lavender => "LAVENDER"@,
        Color::LavenderBlush => "LAVENDERBLUSH"@,
        Color::LawnGreen => "LAWNGREEN"@,
        Color::LemonChiffon => "LEMONCHIFFON"@,
        Color::LightBlue => "LIGHTBLUE"@,
        Color::LightCoral => "LIGHTCORAL"@,
        Color::LightCyan => "LIGHTCYAN"@,
        Color::LightGoldenRodYellow => "LIGHTGOLDENRODYELLOW"@,
        Color::LightGray => "LIGHTGRAY"@,
        Color::LightGreen => "LIGHTGREEN"@,
        Color::LightPink => "LIGHTPINK"@,
        Color::LightSalmon => "LIGHTSALMON"@,
        Color::LightSeaGreen => "LIGHTSEAGREEN"@,
        Color::LightSkyBlue => "LIGHTSKYBLUE"@,
        Color::LightSlateGray => "LIGHTSLATEGRAY"@,
        Color::LightSteelBlue => "LIGHTSTEELBLUE"@,
        Color::LightYellow => "LIGHTYELLOW"@,
        Color::Lime => "LIME"@,
        Color::LimeGreen => "LIMEGREEN"@,
        Color::Linen => "LINEN"@,
        Color::Magenta => "MAGENTA"@,
        Color::Maroon => "MAROON"@,
        Color::MediumAquaMarine => "MEDIUMAQUAMARINE"@,
        Color::MediumBlue => "MEDIUMBLUE"@,
        Color::MediumOrchid => "MEDIUMORCHID"@,
        Color::MediumPurple => "MEDIUMPURPLE"@,
        Color::MediumSeaGreen => "MEDIUMSEAGREEN"@,
        Color::MediumSlateBlue => "MEDIUMSLATEBLUE"@,
        Color::MediumSpringGreen => "MEDIUMSPRINGGREEN"@,
        Color::MediumTurquoise => "MEDIUMTURQUOISE"@,
        Color::MediumVioletRed => "MEDIUMVIOLETRED"@,
        Color::MidnightBlue => "MIDNIGHTBLUE"@,
        Color::MintCream => "MINTCREAM"@,
        Color::MistyRose => "MISTYROSE"@,
        Color::Moccasin => "MOCCASIN"@,
        Color::NavajoWhite => "NAVAJOWHITE"@,
        Color::Navy => "NAVY"@,
        Color::OldLace => "OLDLACE"@,
        Color::Olive => "OLIVE"@,
        Color::OliveDrab => "OLIVEDRAB"@,
        Color::Orange => "ORANGE"@,
        Color::OrangeRed => "ORANGERED"@,
        Color::Orchid => "ORCHID"@,
        Color::PaleGoldenRod => "PALEGOLDENROD"@,
        Color::PaleGreen => "PALEGREEN"@,
        Color::PaleTurquoise => "PALETURQUOISE"@,
        Color::PaleVioletRed => "PALEVIOLETRED"@,
        Color::PapayaWhip => "PAPAYAWHIP"@,
        Color::PeachPuff => "PEACHPUFF"@,
        Color::Peru => "PERU"@,
        Color::Pink => "PINK"@,
        Color::Plum => "PLUM"@,
        Color::PowderBlue => "POWDERBLUE"@,
        Color::Purple => "PURPLE"@,
        Color::Red => "RED"@,
        Color::RosyBrown => "ROSYBROWN"@,
        Color::RoyalBlue => "ROYALBLUE"@,
        Color::SaddleBrown => "SADDLEBROWN"@,
        Color::Salmon => "SALMON"@,
        Color::SandyBrown => "SANDYBROWN"@,
        Color::SeaGreen => "SEAGREEN"@,
        Color::SeaShell => "SEASHELL"@,
        Color::Sienna => "SIENNA"@,
        Color::Silver => "SILVER"@,
        Color::SkyBlue => "SKYBLUE"@,
        Color::SlateBlue => "SLATEBLUE"@,
        Color::SlateGray => "SLATEGRAY"@,
        Color::Snow => "SNOW"@,
        Color::SpringGreen => "SPRINGGREEN"@,
        Color::SteelBlue => "STEELBLUE"@,
        Color::Tan => "TAN"@,
        Color::Teal => "TEAL"@,
        Color::Thistle => "THISTLE"@,
        Color::Tomato => "TOMATO"@,
        Color::Turquoise => "TURQUOISE"@,
        Color::Violet => "VIOLET"@,
        Color::Wheat => "WHEAT"@,
        Color::White => "WHITE"@,
        Color::WhiteSmoke => "WHITESMOKE"@,
        Color::Yellow => "YELLOW"@,
        Color::YellowGreen => "YELLOWGREEN"@,
    }
}

/// The `#RRGGBB` text of a color.
pub open spec fn hex_spec(c: Color) -> Seq<char> {
    match c {
        Color::AliceBlue => "#F0F8FF"@,
        Color::AntiqueWhite => "#FAEBD7"@,
        Color::Aqua => "#00FFFF"@,
        Color::Aquamarine => "#7FFFD4"@,
        Color::Azure => "#F0FFFF"@,
        Color::Beige => "#F5F5DC"@,
        Color::Bisque => "#FFE4C4"@,
        Color::Black => "#000000"@,
        Color::BlanchedAlmond => "#FFEBCD"@,
        Color::Blue => "#0000FF"@,
        Color::BlueViolet => "#8A2BE2"@,
        Color::Brown => "#A52A2A"@,
        Color::BurlyWood => "#DEB887"@,
        Color::CadetBlue => "#5F9EA0"@,
        Color::Chartreuse => "#7FFF00"@,
        Color::Chocolate => "#D2691E"@,
        Color::Coral => "#FF7F50"@,
        Color::CornflowerBlue => "#6495ED"@,
        Color::Cornsilk => "#FFF8DC"@,
        Color::Crimson => "#DC143C"@,
        Color::Cyan => "#00FFFF"@,
        Color::DarkBlue => "#00008B"@,
        Color::DarkCyan => "#008B8B"@,
        Color::DarkGoldenRod => "#B8860B"@,
        Color::DarkGray => "#A9A9A9"@,
        Color::DarkGreen => "#006400"@,
        Color::DarkKhaki => "#BDB76B"@,
        Color::DarkMagenta => "#8B008B"@,
        Color::DarkOliveGreen => "#556B2F"@,
        Color::DarkOrange => "#FF8C00"@,
        Color::DarkOrchid => "#9932CC"@,
        Color::DarkRed => "#8B0000"@,
        Color::DarkSalmon => "#E9967A"@,
        Color::DarkSeaGreen => "#8FBC8F"@,
        Color::DarkSlateBlue => "#483D8B"@,
        Color::DarkSlateGray => "#2F4F4F"@,
        Color::DarkTurquoise => "#00CED1"@,
        Color::DarkViolet => "#9400D3"@,
        Color::DeepPink => "#FF1493"@,
        Color::DeepSkyBlue => "#00BFFF"@,
        Color::DimGray => "#696969"@,
        Color::DodgerBlue => "#1E90FF"@,
        Color::FireBrick => "#B22222"@,
        Color::FloralWhite => "#FFFAF0"@,
        Color::ForestGreen => "#228B22"@,
        Color::Fuchsia => "#FF00FF"@,
        Color::Gainsboro => "#DCDCDC"@,
        Color::GhostWhite => "#F8F8FF"@,
        Color::Gold => "#FFD700"@,
        Color::GoldenRod => "#DAA520"@,
        Color::Gray => "#808080"@,
        Color::Green => "#008000"@,
        Color::GreenYellow => "#ADFF2F"@,
        Color::HoneyDew => "#F0FFF0"@,
        Color::HotPink => "#FF69B4"@,
        Color::IndianRed => "#CD5C5C"@,
        Color::Indigo => "#4B0082"@,
        Color::Ivory => "#FFFFF0"@,
        Color::Khaki => "#F0E68C"@,
        Color::Lavender => "#E6E6FA"@,
        Color::LavenderBlush => "#FFF0F5"@,
        Color::LawnGreen => "#7CFC00"@,
        Color::LemonChiffon => "#FFFACD"@,
        Color::LightBlue => "#ADD8E6"@,
        Color::LightCoral => "#F08080"@,
        Color::LightCyan => "#E0FFFF"@,
        Color::LightGoldenRodYellow => "#FAFAD2"@,
        Color::LightGray => "#D3D3D3"@,
        Color::LightGreen => "#90EE90"@,
        Color::LightPink => "#FFB6C1"@,
        Color::LightSalmon => "#FFA07A"@,
        Color::LightSeaGreen => "#20B2AA"@,
        Color::LightSkyBlue => "#87CEFA"@,
        Color::LightSlateGray => "#778899"@,
        Color::LightSteelBlue => "#B0C4DE"@,
        Color::LightYellow => "#FFFFE0"@,
        Color::Lime => "#00FF00"@,
        Color::LimeGreen => "#32CD32"@,
        Color::Linen => "#FAF0E6"@,
        Color::Magenta => "#FF00FF"@,
        Color::Maroon => "#800000"@,
        Color::MediumAquaMarine => "#66CDAA"@,
        Color::MediumBlue => "#0000CD"@,
        Color::MediumOrchid => "#BA55D3"@,
        Color::MediumPurple => "#9370DB"@,
        Color::MediumSeaGreen => "#3CB371"@,
        Color::MediumSlateBlue => "#7B68EE"@,
        Color::MediumSpringGreen => "#00FA9A"@,
        Color::MediumTurquoise => "#48D1CC"@,
        Color::MediumVioletRed => "#C71585"@,
        Color::MidnightBlue => "#191970"@,
        Color::MintCream => "#F5FFFA"@,
        Color::MistyRose => "#FFE4E1"@,
        Color::Moccasin => "#FFE4B5"@,
        Color::NavajoWhite => "#FFDEAD"@,
        Color::Navy => "#000080"@,
        Color::OldLace => "#FDF5E6"@,
        Color::Olive => "#808000"@,
        Color::OliveDrab => "#6B8E23"@,
        Color::Orange => "#FFA500"@,
        Color::OrangeRed => "#FF4500"@,
        Color::Orchid => "#DA70D6"@,
        Color::PaleGoldenRod => "#EEE8AA"@,
        Color::PaleGreen => "#98FB98"@,
        Color::PaleTurquoise => "#AFEEEE"@,
        Color::PaleVioletRed => "#DB7093"@,
        Color::PapayaWhip => "#FFEFD5"@,
        Color::PeachPuff => "#FFDAB9"@,
        Color::Peru => "#CD853F"@,
        Color::Pink => "#FFC0CB"@,
        Color::Plum => "#DDA0DD"@,
        Color::PowderBlue => "#B0E0E6"@,
        Color::Purple => "#800080"@,
        Color::Red => "#FF0000"@,
        Color::RosyBrown => "#BC8F8F"@,
        Color::RoyalBlue => "#4169E1"@,
        Color::SaddleBrown => "#8B4513"@,
        Color::Salmon => "#FA8072"@,
        Color::SandyBrown => "#F4A460"@,
        Color::SeaGreen => "#2E8B57"@,
        Color::SeaShell => "#FFF5EE"@,
        Color::Sienna => "#A0522D"@,
        Color::Silver => "#C0C0C0"@,
        Color::SkyBlue => "#87CEEB"@,
        Color::SlateBlue => "#6A5ACD"@,
        Color::SlateGray => "#708090"@,
        Color::Snow => "#FFFAFA"@,
        Color::SpringGreen => "#00FF7F"@,
        Color::SteelBlue => "#4682B4"@,
        Color::Tan => "#D2B48C"@,
        Color::Teal => "#008080"@,
        Color::Thistle => "#D8BFD8"@,
        Color::Tomato => "#FF6347"@,
        Color::Turquoise => "#40E0D0"@,
        Color::Violet => "#EE82EE"@,
        Color::Wheat => "#F5DEB3"@,
        Color::White => "#FFFFFF"@,
        Color::WhiteSmoke => "#F5F5F5"@,
        Color::Yellow => "#FFFF00"@,
        Color::YellowGreen => "#9ACD32"@,
    }
}

/// The channels of a color.
pub open spec fn rgb_spec(c: Color) -> Rgb {
    match c {
        Color::AliceBlue => Rgb { r: 240, g: 248, b: 255 },
        Color::AntiqueWhite => Rgb { r: 250, g: 235, b: 215 },
        Color::Aqua => Rgb { r: 0, g: 255, b: 255 },
        Color::Aquamarine => Rgb { r: 127, g: 255, b: 212 },
        Color::Azure => Rgb { r: 240, g: 255, b: 255 },
        Color::Beige => Rgb { r: 245, g: 245, b: 220 },
        Color::Bisque => Rgb { r: 255, g: 228, b: 196 },
        Color::Black => Rgb { r: 0, g: 0, b: 0 },
        Color::BlanchedAlmond => Rgb { r: 255, g: 235, b: 205 },
        Color::Blue => Rgb { r: 0, g: 0, b: 255 },
        Color::BlueViolet => Rgb { r: 138, g: 43, b: 226 },
        Color::Brown => Rgb { r: 165, g: 42, b: 42 },
        Color::BurlyWood => Rgb { r: 222, g: 184, b: 135 },
        Color::CadetBlue => Rgb { r: 95, g: 158, b: 160 },
        Color::Chartreuse => Rgb { r: 127, g: 255, b: 0 },
        Color::Chocolate => Rgb { r: 210, g: 105, b: 30 },
        Color::Coral => Rgb { r: 255, g: 127, b: 80 },
        Color::CornflowerBlue => Rgb { r: 100, g: 149, b: 237 },
        Color::Cornsilk => Rgb { r: 255, g: 248, b: 220 },
        Color::Crimson => Rgb { r: 220, g: 20, b: 60 },
        Color::Cyan => Rgb { r: 0, g: 255, b: 255 },
        Color::DarkBlue => Rgb { r: 0, g: 0, b: 139 },
        Color::DarkCyan => Rgb { r: 0, g: 139, b: 139 },
        Color::DarkGoldenRod => Rgb { r: 184, g: 134, b: 11 },
        Color::DarkGray => Rgb { r: 169, g: 169, b: 169 },
        Color::DarkGreen => Rgb { r: 0, g: 100, b: 0 },
        Color::DarkKhaki => Rgb { r: 189, g: 183, b: 107 },
        Color::DarkMagenta => Rgb { r: 139, g: 0, b: 139 },
        Color::DarkOliveGreen => Rgb { r: 85, g: 107, b: 47 },
        Color::DarkOrange => Rgb { r: 255, g: 140, b: 0 },
        Color::DarkOrchid => Rgb { r: 153, g: 50, b: 204 },
        Color::DarkRed => Rgb { r: 139, g: 0, b: 0 },
        Color::DarkSalmon => Rgb { r: 233, g: 150, b: 122 },
        Color::DarkSeaGreen => Rgb { r: 143, g: 188, b: 143 },
        Color::DarkSlateBlue => Rgb { r: 72, g: 61, b: 139 },
        Color::DarkSlateGray => Rgb { r: 47, g: 79, b: 79 },
        Color::DarkTurquoise => Rgb { r: 0, g: 206, b: 209 },
        Color::DarkViolet => Rgb { r: 148, g: 0, b: 211 },
        Color::DeepPink => Rgb { r: 255, g: 20, b: 147 },
        Color::DeepSkyBlue => Rgb { r: 0, g: 191, b: 255 },
        Color::DimGray => Rgb { r: 105, g: 105, b: 105 },
        Color::DodgerBlue => Rgb { r: 30, g: 144, b: 255 },
        Color::FireBrick => Rgb { r: 178, g: 34, b: 34 },
        Color::FloralWhite => Rgb { r: 255, g: 250, b: 240 },
        Color::ForestGreen => Rgb { r: 34, g: 139, b: 34 },
        Color::Fuchsia => Rgb { r: 255, g: 0, b: 255 },
        Color::Gainsboro => Rgb { r: 220, g: 220, b: 220 },
        Color::GhostWhite => Rgb { r: 248, g: 248, b: 255 },
        Color::Gold => Rgb { r: 255, g: 215, b: 0 },
        Color::GoldenRod => Rgb { r: 218, g: 165, b: 32 },
        Color::Gray => Rgb { r: 128, g: 128, b: 128 },
        Color::Green => Rgb { r: 0, g: 128, b: 0 },
        Color::GreenYellow => Rgb { r: 173, g: 255, b: 47 },
        Color::HoneyDew => Rgb { r: 240, g: 255, b: 240 },
        Color::HotPink => Rgb { r: 255, g: 105, b: 180 },
        Color::IndianRed => Rgb { r: 205, g: 92, b: 92 },
        Color::Indigo => Rgb { r: 75, g: 0, b: 130 },
        Color::Ivory => Rgb { r: 255, g: 255, b: 240 },
        Color::Khaki => Rgb { r: 240, g: 230, b: 140 },
        Color::Lavender => Rgb { r: 230, g: 230, b: 250 },
        Color::LavenderBlush => Rgb { r: 255, g: 240, b: 245 },
        Color::LawnGreen => Rgb { r: 124, g: 252, b: 0 },
        Color::LemonChiffon => Rgb { r: 255, g: 250, b: 205 },
        Color::LightBlue => Rgb { r: 173, g: 216, b: 230 },
        Color::LightCoral => Rgb { r: 240, g: 128, b: 128 },
        Color::LightCyan => Rgb { r: 224, g: 255, b: 255 },
        Color::LightGoldenRodYellow => Rgb { r: 250, g: 250, b: 210 },
        Color::LightGray => Rgb { r: 211, g: 211, b: 211 },
        Color::LightGreen => Rgb { r: 144, g: 238, b: 144 },
        Color::LightPink => Rgb { r: 255, g: 182, b: 193 },
        Color::LightSalmon => Rgb { r: 255, g: 160, b: 122 },
        Color::LightSeaGreen => Rgb { r: 32, g: 178, b: 170 },
        Color::LightSkyBlue => Rgb { r: 135, g: 206, b: 250 },
        Color::LightSlateGray => Rgb { r: 119, g: 136, b: 153 },
        Color::LightSteelBlue => Rgb { r: 176, g: 196, b: 222 },
        Color::LightYellow => Rgb { r: 255, g: 255, b: 224 },
        Color::Lime => Rgb { r: 0, g: 255, b: 0 },
        Color::LimeGreen => Rgb { r: 50, g: 205, b: 50 },
        Color::Linen => Rgb { r: 250, g: 240, b: 230 },
        Color::Magenta => Rgb { r: 255, g: 0, b: 255 },
        Color::Maroon => Rgb { r: 128, g: 0, b: 0 },
        Color::MediumAquaMarine => Rgb { r: 102, g: 205, b: 170 },
        Color::MediumBlue => Rgb { r: 0, g: 0, b: 205 },
        Color::MediumOrchid => Rgb { r: 186, g: 85, b: 211 },
        Color::MediumPurple => Rgb { r: 147, g: 112, b: 219 },
        Color::MediumSeaGreen => Rgb { r: 60, g: 179, b: 113 },
        Color::MediumSlateBlue => Rgb { r: 123, g: 104, b: 238 },
        Color::MediumSpringGreen => Rgb { r: 0, g: 250, b: 154 },
        Color::MediumTurquoise => Rgb { r: 72, g: 209, b: 204 },
        Color::MediumVioletRed => Rgb { r: 199, g: 21, b: 133 },
        Color::MidnightBlue => Rgb { r: 25, g: 25, b: 112 },
        Color::MintCream => Rgb { r: 245, g: 255, b: 250 },
        Color::MistyRose => Rgb { r: 255, g: 228, b: 225 },
        Color::Moccasin => Rgb { r: 255, g: 228, b: 181 },
        Color::NavajoWhite => Rgb { r: 255, g: 222, b: 173 },
        Color::Navy => Rgb { r: 0, g: 0, b: 128 },
        Color::OldLace => Rgb { r: 253, g: 245, b: 230 },
        Color::Olive => Rgb { r: 128, g: 128, b: 0 },
        Color::OliveDrab => Rgb { r: 107, g: 142, b: 35 },
        Color::Orange => Rgb { r: 255, g: 165, b: 0 },
        Color::OrangeRed => Rgb { r: 255, g: 69, b: 0 },
        Color::Orchid => Rgb { r: 218, g: 112, b: 214 },
        Color::PaleGoldenRod => Rgb { r: 238, g: 232, b: 170 },
        Color::PaleGreen => Rgb { r: 152, g: 251, b: 152 },
        Color::PaleTurquoise => Rgb { r: 175, g: 238, b: 238 },
        Color::PaleVioletRed => Rgb { r: 219, g: 112, b: 147 },
        Color::PapayaWhip => Rgb { r: 255, g: 239, b: 213 },
        Color::PeachPuff => Rgb { r: 255, g: 218, b: 185 },
        Color::Peru => Rgb { r: 205, g: 133, b: 63 },
        Color::Pink => Rgb { r: 255, g: 192, b: 203 },
        Color::Plum => Rgb { r: 221, g: 160, b: 221 },
        Color::PowderBlue => Rgb { r: 176, g: 224, b: 230 },
        Color::Purple => Rgb { r: 128, g: 0, b: 128 },
        Color::Red => Rgb { r: 255, g: 0, b: 0 },
        Color::RosyBrown => Rgb { r: 188, g: 143, b: 143 },
        Color::RoyalBlue => Rgb { r: 65, g: 105, b: 225 },
        Color::SaddleBrown => Rgb { r: 139, g: 69, b: 19 },
        Color::Salmon => Rgb { r: 250, g: 128, b: 114 },
        Color::SandyBrown => Rgb { r: 244, g: 164, b: 96 },
        Color::SeaGreen => Rgb { r: 46, g: 139, b: 87 },
        Color::SeaShell => Rgb { r: 255, g: 245, b: 238 },
        Color::Sienna => Rgb { r: 160, g: 82, b: 45 },
        Color::Silver => Rgb { r: 192, g: 192, b: 192 },
        Color::SkyBlue => Rgb { r: 135, g: 206, b: 235 },
        Color::SlateBlue => Rgb { r: 106, g: 90, b: 205 },
        Color::SlateGray => Rgb { r: 112, g: 128, b: 144 },
        Color::Snow => Rgb { r: 255, g: 250, b: 250 },
        Color::SpringGreen => Rgb { r: 0, g: 255, b: 127 },
        Color::SteelBlue => Rgb { r: 70, g: 130, b: 180 },
        Color::Tan => Rgb { r: 210, g: 180, b: 140 },
        Color::Teal => Rgb { r: 0, g: 128, b: 128 },
        Color::Thistle => Rgb { r: 216, g: 191, b: 216 },
        Color::Tomato => Rgb { r: 255, g: 99, b: 71 },
        Color::Turquoise => Rgb { r: 64, g: 224, b: 208 },
        Color::Violet => Rgb { r: 238, g: 130, b: 238 },
        Color::Wheat => Rgb { r: 245, g: 222, b: 179 },
        Color::White => Rgb { r: 255, g: 255, b: 255 },
        Color::WhiteSmoke => Rgb { r: 245, g: 245, b: 245 },
        Color::Yellow => Rgb { r: 255, g: 255, b: 0 },
        Color::YellowGreen => Rgb { r: 154, g: 205, b: 50 },
    }
}

impl Color {
    /// The position of this color in the table.
    pub fn index(self) -> (r: usize)
        ensures
            r == color_index(self),
    {
        match self {
            Color::AliceBlue => 0,
            Color::AntiqueWhite => 1,
            Color::Aqua => 2,
            Color::Aquamarine => 3,
            Color::Azure => 4,
            Color::Beige => 5,
            Color::Bisque => 6,
            Color::Black => 7,
            Color::BlanchedAlmond => 8,
            Color::Blue => 9,
            Color::BlueViolet => 10,
            Color::Brown => 11,
            Color::BurlyWood => 12,
            Color::CadetBlue => 13,
            Color::Chartreuse => 14,
            Color::Chocolate => 15,
            Color::Coral => 16,
            Color::CornflowerBlue => 17,
            Color::Cornsilk => 18,
            Color::Crimson => 19,
            Color::Cyan => 20,
            Color::DarkBlue => 21,
            Color::DarkCyan => 22,
            Color::DarkGoldenRod => 23,
            Color::DarkGray => 24,
            Color::DarkGreen => 25,
            Color::DarkKhaki => 26,
            Color::DarkMagenta => 27,
            Color::DarkOliveGreen => 28,
            Color::DarkOrange => 29,
            Color::DarkOrchid => 30,
            Color::DarkRed => 31,
            Color::DarkSalmon => 32,
            Color::DarkSeaGreen => 33,
            Color::DarkSlateBlue => 34,
            Color::DarkSlateGray => 35,
            Color::DarkTurquoise => 36,
            Color::DarkViolet => 37,
            Color::DeepPink => 38,
            Color::DeepSkyBlue => 39,
            Color::DimGray => 40,
            Color::DodgerBlue => 41,
            Color::FireBrick => 42,
            Color::FloralWhite => 43,
            Color::ForestGreen => 44,
            Color::Fuchsia => 45,
            Color::Gainsboro => 46,
            Color::GhostWhite => 47,
            Color::Gold => 48,
            Color::GoldenRod => 49,
            Color::Gray => 50,
            Color::Green => 51,
            Color::GreenYellow => 52,
            Color::HoneyDew => 53,
            Color::HotPink => 54,
            Color::IndianRed => 55,
            Color::Indigo => 56,
            Color::Ivory => 57,
            Color::Khaki => 58,
            Color::Lavender => 59,
            Color::LavenderBlush => 60,
            Color::LawnGreen => 61,
            Color::LemonChiffon => 62,
            Color::LightBlue => 63,
            Color::LightCoral => 64,
            Color::LightCyan => 65,
            Color::LightGoldenRodYellow => 66,
            Color::LightGray => 67,
            Color::LightGreen => 68,
            Color::LightPink => 69,
            Color::LightSalmon => 70,
            Color::LightSeaGreen => 71,
            Color::LightSkyBlue => 72,
            Color::LightSlateGray => 73,
            Color::LightSteelBlue => 74,
            Color::LightYellow => 75,
            Color::Lime => 76,
            Color::LimeGreen => 77,
            Color::Linen => 78,
            Color::Magenta => 79,
            Color::Maroon => 80,
            Color::MediumAquaMarine => 81,
            Color::MediumBlue => 82,
            Color::MediumOrchid => 83,
            Color::MediumPurple => 84,
            Color::MediumSeaGreen => 85,
            Color::MediumSlateBlue => 86,
            Color::MediumSpringGreen => 87,
            Color::MediumTurquoise => 88,
            Color::MediumVioletRed => 89,
            Color::MidnightBlue => 90,
            Color::MintCream => 91,
            Color::MistyRose => 92,
            Color::Moccasin => 93,
            Color::NavajoWhite => 94,
            Color::Navy => 95,
            Color::OldLace => 96,
            Color::Olive => 97,
            Color::OliveDrab => 98,
            Color::Orange => 99,
            Color::OrangeRed => 100,
            Color::Orchid => 101,
            Color::PaleGoldenRod => 102,
            Color::PaleGreen => 103,
            Color::PaleTurquoise => 104,
            Color::PaleVioletRed => 105,
            Color::PapayaWhip => 106,
            Color::PeachPuff => 107,
            Color::Peru => 108,
            Color::Pink => 109,
            Color::Plum => 110,
            Color::PowderBlue => 111,
            Color::Purple => 112,
            Color::Red => 113,
            Color::RosyBrown => 114,
            Color::RoyalBlue => 115,
            Color::SaddleBrown => 116,
            Color::Salmon => 117,
            Color::SandyBrown => 118,
            Color::SeaGreen => 119,
            Color::SeaShell => 120,
            Color::Sienna => 121,
            Color::Silver => 122,
            Color::SkyBlue => 123,
            Color::SlateBlue => 124,
            Color::SlateGray => 125,
            Color::Snow => 126,
            Color::SpringGreen => 127,
            Color::SteelBlue => 128,
            Color::Tan => 129,
            Color::Teal => 130,
            Color::Thistle => 131,
            Color::Tomato => 132,
            Color::Turquoise => 133,
            Color::Violet => 134,
            Color::Wheat => 135,
            Color::White => 136,
            Color::WhiteSmoke => 137,
            Color::Yellow => 138,
            Color::YellowGreen => 139,
        }
    }

    /// The name in a `Human Readable Format`.
    pub fn readable_name(self) -> (r: &'static str)
        ensures
            r@ == readable_name_spec(self),
    {
        match self {
            Color::AliceBlue => "Alice Blue",
            Color::AntiqueWhite => "Antique White",
            Color::Aqua => "Aqua",
            Color::Aquamarine => "Aquamarine",
            Color::Azure => "Azure",
            Color::Beige => "Beige",
            Color::Bisque => "Bisque",
            Color::Black => "Black",
            Color::BlanchedAlmond => "Blanched Almond",
            Color::Blue => "Blue",
            Color::BlueViolet => "Blue Violet",
            Color::Brown => "Brown",
            Color::BurlyWood => "Burly Wood",
            Color::CadetBlue => "Cadet Blue",
            Color::Chartreuse => "Chartreuse",
            Color::Chocolate => "Chocolate",
            Color::Coral => "Coral",
            Color::CornflowerBlue => "Cornflower Blue",
            Color::Cornsilk => "Cornsilk",
            Color::Crimson => "Crimson",
            Color::Cyan => "Cyan",
            Color::DarkBlue => "Dark Blue",
            Color::DarkCyan => "Dark Cyan",
            Color::DarkGoldenRod => "Dark Golden Rod",
            Color::DarkGray => "Dark Gray",
            Color::DarkGreen => "Dark Green",
            Color::DarkKhaki => "Dark Khaki",
            Color::DarkMagenta => "Dark Magenta",
            Color::DarkOliveGreen => "Dark Olive Green",
            Color::DarkOrange => "Dark Orange",
            Color::DarkOrchid => "Dark Orchid",
            Color::DarkRed => "Dark Red",
            Color::DarkSalmon => "Dark Salmon",
            Color::DarkSeaGreen => "Dark Sea Green",
            Color::DarkSlateBlue => "Dark Slate Blue",
            Color::DarkSlateGray => "Dark Slate Gray",
            Color::DarkTurquoise => "Dark Turquoise",
            Color::DarkViolet => "Dark Violet",
            Color::DeepPink => "Deep Pink",
            Color::DeepSkyBlue => "Deep Sky Blue",
            Color::DimGray => "Dim Gray",
            Color::DodgerBlue => "Dodger Blue",
            Color::FireBrick => "Fire Brick",
            Color::FloralWhite => "Floral White",
            Color::ForestGreen => "Forest Green",
            Color::Fuchsia => "Fuchsia",
            Color::Gainsboro => "Gainsboro",
            Color::GhostWhite => "Ghost White",
            Color::Gold => "Gold",
            Color::GoldenRod => "Golden Rod",
            Color::Gray => "Gray",
            Color::Green => "Green",
            Color::GreenYellow => "Green Yellow",
            Color::HoneyDew => "Honey Dew",
            Color::HotPink => "Hot Pink",
            Color::IndianRed => "Indian Red",
            Color::Indigo => "Indigo",
            Color::Ivory => "Ivory",
            Color::Khaki => "Khaki",
            Color::Lavender => "Lavender",
            Color::LavenderBlush => "Lavender Blush",
            Color::LawnGreen => "Lawn Green",
            Color::LemonChiffon => "Lemon Chiffon",
            Color::LightBlue => "Light Blue",
            Color::LightCoral => "Light Coral",
            Color::LightCyan => "Light Cyan",
            Color::LightGoldenRodYellow => "Light Golden Rod Yellow",
            Color::LightGray => "Light Gray",
            Color::LightGreen => "Light Green",
            Color::LightPink => "Light Pink",
            Color::LightSalmon => "Light Salmon",
            Color::LightSeaGreen => "Light Sea Green",
            Color::LightSkyBlue => "Light Sky Blue",
            Color::LightSlateGray => "Light Slate Gray",
            Color::LightSteelBlue => "Light Steel Blue",
            Color::LightYellow => "Light Yellow",
            Color::Lime => "Lime",
            Color::LimeGreen => "Lime Green",
            Color::Linen => "Linen",
            Color::Magenta => "Magenta",
            Color::Maroon => "Maroon",
            Color::MediumAquaMarine => "Medium Aqua Marine",
            Color::MediumBlue => "Medium Blue",
            Color::MediumOrchid => "Medium Orchid",
            Color::MediumPurple => "Medium Purple",
            Color::MediumSeaGreen => "Medium Sea Green",
            Color::MediumSlateBlue => "Medium Slate Blue",
            Color::MediumSpringGreen => "Medium Spring Green",
            Color::MediumTurquoise => "Medium Turquoise",
            Color::MediumVioletRed => "Medium Violet Red",
            Color::MidnightBlue => "Midnight Blue",
            Color::MintCream => "Mint Cream",
            Color::MistyRose => "Misty Rose",
            Color::Moccasin => "Moccasin",
            Color::NavajoWhite => "Navajo White",
            Color::Navy => "Navy",
            Color::OldLace => "Old Lace",
            Color::Olive => "Olive",
            Color::OliveDrab => "Olive Drab",
            Color::Orange => "Orange",
            Color::OrangeRed => "Orange Red",
            Color::Orchid => "Orchid",
            Color::PaleGoldenRod => "Pale Golden Rod",
            Color::PaleGreen => "Pale Green",
            Color::PaleTurquoise => "Pale Turquoise",
            Color::PaleVioletRed => "Pale Violet Red",
            Color::PapayaWhip => "Papaya Whip",
            Color::PeachPuff => "Peach Puff",
            Color::Peru => "Peru",
            Color::Pink => "Pink",
            Color::Plum => "Plum",
            Color::PowderBlue => "Powder Blue",
            Color::Purple => "Purple",
            Color::Red => "Red",
            Color::RosyBrown => "Rosy Brown",
            Color::RoyalBlue => "Royal Blue",
            Color::SaddleBrown => "Saddle Brown",
            Color::Salmon => "Salmon",
            Color::SandyBrown => "Sandy Brown",
            Color::SeaGreen => "Sea Green",
            Color::SeaShell => "Sea Shell",
            Color::Sienna => "Sienna",
            Color::Silver => "Silver",
            Color::SkyBlue => "Sky Blue",
            Color::SlateBlue => "Slate Blue",
            Color::SlateGray => "Slate Gray",
            Color::Snow => "Snow",
            Color::SpringGreen => "Spring Green",
            Color::SteelBlue => "Steel Blue",
            Color::Tan => "Tan",
            Color::Teal => "Teal",
            Color::Thistle => "Thistle",
            Color::Tomato => "Tomato",
            Color::Turquoise => "Turquoise",
            Color::Violet => "Violet",
            Color::Wheat => "Wheat",
            Color::White => "White",
            Color::WhiteSmoke => "White Smoke",
            Color::Yellow => "Yellow",
            Color::YellowGreen => "Yellow Green",
        }
    }

    /// The `PascalCase` name.
    pub fn pascal_name(self) -> (r: &'static str)
        ensures
            r@ == pascal_name_spec(self),
    {
        match self {
            Color::AliceBlue => "AliceBlue",
            Color::AntiqueWhite => "AntiqueWhite",
            Color::Aqua => "Aqua",
            Color::Aquamarine => "Aquamarine",
            Color::Azure => "Azure",
            Color::Beige => "Beige",
            Color::Bisque => "Bisque",
            Color::Black => "Black",
            Color::BlanchedAlmond => "BlanchedAlmond",
            Color::Blue => "Blue",
            Color::BlueViolet => "BlueViolet",
            Color::Brown => "Brown",
            Color::BurlyWood => "BurlyWood",
            Color::CadetBlue => "CadetBlue",
            Color::Chartreuse => "Chartreuse",
            Color::Chocolate => "Chocolate",
            Color::Coral => "Coral",
            Color::CornflowerBlue => "CornflowerBlue",
            Color::Cornsilk => "Cornsilk",
            Color::Crimson => "Crimson",
            Color::Cyan => "Cyan",
            Color::DarkBlue => "DarkBlue",
            Color::DarkCyan => "DarkCyan",
            Color::DarkGoldenRod => "DarkGoldenRod",
            Color::DarkGray => "DarkGray",
            Color::DarkGreen => "DarkGreen",
            Color::DarkKhaki => "DarkKhaki",
            Color::DarkMagenta => "DarkMagenta",
            Color::DarkOliveGreen => "DarkOliveGreen",
            Color::DarkOrange => "DarkOrange",
            Color::DarkOrchid => "DarkOrchid",
            Color::DarkRed => "DarkRed",
            Color::DarkSalmon => "DarkSalmon",
            Color::DarkSeaGreen => "DarkSeaGreen",
            Color::DarkSlateBlue => "DarkSlateBlue",
            Color::DarkSlateGray => "DarkSlateGray",
            Color::DarkTurquoise => "DarkTurquoise",
            Color::DarkViolet => "DarkViolet",
            Color::DeepPink => "DeepPink",
            Color::DeepSkyBlue => "DeepSkyBlue",
            Color::DimGray => "DimGray",
            Color::DodgerBlue => "DodgerBlue",
            Color::FireBrick => "FireBrick",
            Color::FloralWhite => "FloralWhite",
            Color::ForestGreen => "ForestGreen",
            Color::Fuchsia => "Fuchsia",
            Color::Gainsboro => "Gainsboro",
            Color::GhostWhite => "GhostWhite",
            Color::Gold => "Gold",
            Color::GoldenRod => "GoldenRod",
            Color::Gray => "Gray",
            Color::Green => "Green",
            Color::GreenYellow => "GreenYellow",
            Color::HoneyDew => "HoneyDew",
            Color::HotPink => "HotPink",
            Color::IndianRed => "IndianRed",
            Color::Indigo => "Indigo",
            Color::Ivory => "Ivory",
            Color::Khaki => "Khaki",
            Color::Lavender => "Lavender",
            Color::LavenderBlush => "LavenderBlush",
            Color::LawnGreen => "LawnGreen",
            Color::LemonChiffon => "LemonChiffon",
            Color::LightBlue => "LightBlue",
            Color::LightCoral => "LightCoral",
            Color::LightCyan => "LightCyan",
            Color::LightGoldenRodYellow => "LightGoldenRodYellow",
            Color::LightGray => "LightGray",
            Color::LightGreen => "LightGreen",
            Color::LightPink => "LightPink",
            Color::LightSalmon => "LightSalmon",
            Color::LightSeaGreen => "LightSeaGreen",
            Color::LightSkyBlue => "LightSkyBlue",
            Color::LightSlateGray => "LightSlateGray",
            Color::LightSteelBlue => "LightSteelBlue",
            Color::LightYellow => "LightYellow",
            Color::Lime => "Lime",
            Color::LimeGreen => "LimeGreen",
            Color::Linen => "Linen",
            Color::Magenta => "Magenta",
            Color::Maroon => "Maroon",
            Color::MediumAquaMarine => "MediumAquaMarine",
            Color::MediumBlue => "MediumBlue",
            Color::MediumOrchid => "MediumOrchid",
            Color::MediumPurple => "MediumPurple",
            Color::MediumSeaGreen => "MediumSeaGreen",
            Color::MediumSlateBlue => "MediumSlateBlue",
            Color::MediumSpringGreen => "MediumSpringGreen",
            Color::MediumTurquoise => "MediumTurquoise",
            Color::MediumVioletRed => "MediumVioletRed",
            Color::MidnightBlue => "MidnightBlue",
            Color::MintCream => "MintCream",
            Color::MistyRose => "MistyRose",
            Color::Moccasin => "Moccasin",
            Color::NavajoWhite => "NavajoWhite",
            Color::Navy => "Navy",
            Color::OldLace => "OldLace",
            Color::Olive => "Olive",
            Color::OliveDrab => "OliveDrab",
            Color::Orange => "Orange",
            Color::OrangeRed => "OrangeRed",
            Color::Orchid => "Orchid",
            Color::PaleGoldenRod => "PaleGoldenRod",
            Color::PaleGreen => "PaleGreen",
            Color::PaleTurquoise => "PaleTurquoise",
            Color::PaleVioletRed => "PaleVioletRed",
            Color::PapayaWhip => "PapayaWhip",
            Color::PeachPuff => "PeachPuff",
            Color::Peru => "Peru",
            Color::Pink => "Pink",
            Color::Plum => "Plum",
            Color::PowderBlue => "PowderBlue",
            Color::Purple => "Purple",
            Color::Red => "Red",
            Color::RosyBrown => "RosyBrown",
            Color::RoyalBlue => "RoyalBlue",
            Color::SaddleBrown => "SaddleBrown",
            Color::Salmon => "Salmon",
            Color::SandyBrown => "SandyBrown",
            Color::SeaGreen => "SeaGreen",
            Color::SeaShell => "SeaShell",
            Color::Sienna => "Sienna",
            Color::Silver => "Silver",
            Color::SkyBlue => "SkyBlue",
            Color::SlateBlue => "SlateBlue",
            Color::SlateGray => "SlateGray",
            Color::Snow => "Snow",
            Color::SpringGreen => "SpringGreen",
            Color::SteelBlue => "SteelBlue",
            Color::Tan => "Tan",
            Color::Teal => "Teal",
            Color::Thistle => "Thistle",
            Color::Tomato => "Tomato",
            Color::Turquoise => "Turquoise",
            Color::Violet => "Violet",
            Color::Wheat => "Wheat",
            Color::White => "White",
            Color::WhiteSmoke => "WhiteSmoke",
            Color::Yellow => "Yellow",
            Color::YellowGreen => "YellowGreen",
        }
    }

    /// The `lower_snake_case` name.
    pub fn lower_snake_name(self) -> (r: &'static str)
        ensures
            r@ == lower_snake_spec(self),
    {
        match self {
            Color::AliceBlue => "alice_blue",
            Color::AntiqueWhite => "antique_white",
            Color::Aqua => "aqua",
            Color::Aquamarine => "aquamarine",
            Color::Azure => "azure",
            Color::Beige => "beige",
            Color::Bisque => "bisque",
            Color::Black => "black",
            Color::BlanchedAlmond => "blanched_almond",
            Color::Blue => "blue",
            Color::BlueViolet => "blue_violet",
            Color::Brown => "brown",
            Color::BurlyWood => "burly_wood",
            Color::CadetBlue => "cadet_blue",
            Color::Chartreuse => "chartreuse",
            Color::Chocolate => "chocolate",
            Color::Coral => "coral",
            Color::CornflowerBlue => "cornflower_blue",
            Color::Cornsilk => "cornsilk",
            Color::Crimson => "crimson",
            Color::Cyan => "cyan",
            Color::DarkBlue => "dark_blue",
            Color::DarkCyan => "dark_cyan",
            Color::DarkGoldenRod => "dark_golden_rod",
            Color::DarkGray => "dark_gray",
            Color::DarkGreen => "dark_green",
            Color::DarkKhaki => "dark_khaki",
            Color::DarkMagenta => "dark_magenta",
            Color::DarkOliveGreen => "dark_olive_green",
            Color::DarkOrange => "dark_orange",
            Color::DarkOrchid => "dark_orchid",
            Color::DarkRed => "dark_red",
            Color::DarkSalmon => "dark_salmon",
            Color::DarkSeaGreen => "dark_sea_green",
            Color::DarkSlateBlue => "dark_slate_blue",
            Color::DarkSlateGray => "dark_slate_gray",
            Color::DarkTurquoise => "dark_turquoise",
            Color::DarkViolet => "dark_violet",
            Color::DeepPink => "deep_pink",
            Color::DeepSkyBlue => "deep_sky_blue",
            Color::DimGray => "dim_gray",
            Color::DodgerBlue => "dodger_blue",
            Color::FireBrick => "fire_brick",
            Color::FloralWhite => "floral_white",
            Color::ForestGreen => "forest_green",
            Color::Fuchsia => "fuchsia",
            Color::Gainsboro => "gainsboro",
            Color::GhostWhite => "ghost_white",
            Color::Gold => "gold",
            Color::GoldenRod => "golden_rod",
            Color::Gray => "gray",
            Color::Green => "green",
            Color::GreenYellow => "green_yellow",
            Color::HoneyDew => "honey_dew",
            Color::HotPink => "hot_pink",
            Color::IndianRed => "indian_red",
            Color::Indigo => "indigo",
            Color::Ivory => "ivory",
            Color::Khaki => "khaki",
            Color::Lavender => "lavender",
            Color::LavenderBlush => "lavender_blush",
            Color::LawnGreen => "lawn_green",
            Color::LemonChiffon => "lemon_chiffon",
            Color::LightBlue => "light_blue",
            Color::LightCoral => "light_coral",
            Color::LightCyan => "light_cyan",
            Color::LightGoldenRodYellow => "light_golden_rod_yellow",
            Color::LightGray => "light_gray",
            Color::LightGreen => "light_green",
            Color::LightPink => "light_pink",
            Color::LightSalmon => "light_salmon",
            Color::LightSeaGreen => "light_sea_green",
            Color::LightSkyBlue => "light_sky_blue",
            Color::LightSlateGray => "light_slate_gray",
            Color::LightSteelBlue => "light_steel_blue",
            Color::LightYellow => "light_yellow",
            Color::Lime => "lime",
            Color::LimeGreen => "lime_green",
            Color::Linen => "linen",
            Color::Magenta => "magenta",
            Color::Maroon => "maroon",
            Color::MediumAquaMarine => "medium_aqua_marine",
            Color::MediumBlue => "medium_blue",
            Color::MediumOrchid => "medium_orchid",
            Color::MediumPurple => "medium_purple",
            Color::MediumSeaGreen => "medium_sea_green",
            Color::MediumSlateBlue => "medium_slate_blue",
            Color::MediumSpringGreen => "medium_spring_green",
            Color::MediumTurquoise => "medium_turquoise",
            Color::MediumVioletRed => "medium_violet_red",
            Color::MidnightBlue => "midnight_blue",
            Color::MintCream => "mint_cream",
            Color::MistyRose => "misty_rose",
            Color::Moccasin => "moccasin",
            Color::NavajoWhite => "navajo_white",
            Color::Navy => "navy",
            Color::OldLace => "old_lace",
            Color::Olive => "olive",
            Color::OliveDrab => "olive_drab",
            Color::Orange => "orange",
            Color::OrangeRed => "orange_red",
            Color::Orchid => "orchid",
            Color::PaleGoldenRod => "pale_golden_rod",
            Color::PaleGreen => "pale_green",
            Color::PaleTurquoise => "pale_turquoise",
            Color::PaleVioletRed => "pale_violet_red",
            Color::PapayaWhip => "papaya_whip",
            Color::PeachPuff => "peach_puff",
            Color::Peru => "peru",
            Color::Pink => "pink",
            Color::Plum => "plum",
            Color::PowderBlue => "powder_blue",
            Color::Purple => "purple",
            Color::Red => "red",
            Color::RosyBrown => "rosy_brown",
            Color::RoyalBlue => "royal_blue",
            Color::SaddleBrown => "saddle_brown",
            Color::Salmon => "salmon",
            Color::SandyBrown => "sandy_brown",
            Color::SeaGreen => "sea_green",
            Color::SeaShell => "sea_shell",
            Color::Sienna => "sienna",
            Color::Silver => "silver",
            Color::SkyBlue => "sky_blue",
            Color::SlateBlue => "slate_blue",
            Color::SlateGray => "slate_gray",
            Color::Snow => "snow",
            Color::SpringGreen => "spring_green",
            Color::SteelBlue => "steel_blue",
            Color::Tan => "tan",
            Color::Teal => "teal",
            Color::Thistle => "thistle",
            Color::Tomato => "tomato",
            Color::Turquoise => "turquoise",
            Color::Violet => "violet",
            Color::Wheat => "wheat",
            Color::White => "white",
            Color::WhiteSmoke => "white_smoke",
            Color::Yellow => "yellow",
            Color::YellowGreen => "yellow_green",
        }
    }

    /// The `UPPER_SNAKE_CASE` name.
    pub fn upper_snake_name(self) -> (r: &'static str)
        ensures
            r@ == upper_snake_spec(self),
    {
        match self {
            Color::AliceBlue => "ALICE_BLUE",
            Color::AntiqueWhite => "ANTIQUE_WHITE",
            Color::Aqua => "AQUA",
            Color::Aquamarine => "AQUAMARINE",
            Color::Azure => "AZURE",
            Color::Beige => "BEIGE",
            Color::Bisque => "BISQUE",
            Color::Black => "BLACK",
            Color::BlanchedAlmond => "BLANCHED_ALMOND",
            Color::Blue => "BLUE",
            Color::BlueViolet => "BLUE_VIOLET",
            Color::Brown => "BROWN",
            Color::BurlyWood => "BURLY_WOOD",
            Color::CadetBlue => "CADET_BLUE",
            Color::Chartreuse => "CHARTREUSE",
            Color::Chocolate => "CHOCOLATE",
            Color::Coral => "CORAL",
            Color::CornflowerBlue => "CORNFLOWER_BLUE",
            Color::Cornsilk => "CORNSILK",
            Color::Crimson => "CRIMSON",
            Color::Cyan => "CYAN",
            Color::DarkBlue => "DARK_BLUE",
            Color::DarkCyan => "DARK_CYAN",
            Color::DarkGoldenRod => "DARK_GOLDEN_ROD",
            Color::DarkGray => "DARK_GRAY",
            Color::DarkGreen => "DARK_GREEN",
            Color::DarkKhaki => "DARK_KHAKI",
            Color::DarkMagenta => "DARK_MAGENTA",
            Color::DarkOliveGreen => "DARK_OLIVE_GREEN",
            Color::DarkOrange => "DARK_ORANGE",
            Color::DarkOrchid => "DARK_ORCHID",
            Color::DarkRed => "DARK_RED",
            Color::DarkSalmon => "DARK_SALMON",
            Color::DarkSeaGreen => "DARK_SEA_GREEN",
            Color::DarkSlateBlue => "DARK_SLATE_BLUE",
            Color::DarkSlateGray => "DARK_SLATE_GRAY",
            Color::DarkTurquoise => "DARK_TURQUOISE",
            Color::DarkViolet => "DARK_VIOLET",
            Color::DeepPink => "DEEP_PINK",
            Color::DeepSkyBlue => "DEEP_SKY_BLUE",
            Color::DimGray => "DIM_GRAY",
            Color::DodgerBlue => "DODGER_BLUE",
            Color::FireBrick => "FIRE_BRICK",
            Color::FloralWhite => "FLORAL_WHITE",
            Color::ForestGreen => "FOREST_GREEN",
            Color::Fuchsia => "FUCHSIA",
            Color::Gainsboro => "GAINSBORO",
            Color::GhostWhite => "GHOST_WHITE",
            Color::Gold => "GOLD",
            Color::GoldenRod => "GOLDEN_ROD",
            Color::Gray => "GRAY",
            Color::Green => "GREEN",
            Color::GreenYellow => "GREEN_YELLOW",
            Color::HoneyDew => "HONEY_DEW",
            Color::HotPink => "HOT_PINK",
            Color::IndianRed => "INDIAN_RED",
            Color::Indigo => "INDIGO",
            Color::Ivory => "IVORY",
            Color::Khaki => "KHAKI",
            Color::Lavender => "LAVENDER",
            Color::LavenderBlush => "LAVENDER_BLUSH",
            Color::LawnGreen => "LAWN_GREEN",
            Color::LemonChiffon => "LEMON_CHIFFON",
            Color::LightBlue => "LIGHT_BLUE",
            Color::LightCoral => "LIGHT_CORAL",
            Color::LightCyan => "LIGHT_CYAN",
            Color::LightGoldenRodYellow => "LIGHT_GOLDEN_ROD_YELLOW",
            Color::LightGray => "LIGHT_GRAY",
            Color::LightGreen => "LIGHT_GREEN",
            Color::LightPink => "LIGHT_PINK",
            Color::LightSalmon => "LIGHT_SALMON",
            Color::LightSeaGreen => "LIGHT_SEA_GREEN",
            Color::LightSkyBlue => "LIGHT_SKY_BLUE",
            Color::LightSlateGray => "LIGHT_SLATE_GRAY",
            Color::LightSteelBlue => "LIGHT_STEEL_BLUE",
            Color::LightYellow => "LIGHT_YELLOW",
            Color::Lime => "LIME",
            Color::LimeGreen => "LIME_GREEN",
            Color::Linen => "LINEN",
            Color::Magenta => "MAGENTA",
            Color::Maroon => "MAROON",
            Color::MediumAquaMarine => "MEDIUM_AQUA_MARINE",
            Color::MediumBlue => "MEDIUM_BLUE",
            Color::MediumOrchid => "MEDIUM_ORCHID",
            Color::MediumPurple => "MEDIUM_PURPLE",
            Color::MediumSeaGreen => "MEDIUM_SEA_GREEN",
            Color::MediumSlateBlue => "MEDIUM_SLATE_BLUE",
            Color::MediumSpringGreen => "MEDIUM_SPRING_GREEN",
            Color::MediumTurquoise => "MEDIUM_TURQUOISE",
            Color::MediumVioletRed => "MEDIUM_VIOLET_RED",
            Color::MidnightBlue => "MIDNIGHT_BLUE",
            Color::MintCream => "MINT_CREAM",
            Color::MistyRose => "MISTY_ROSE",
            Color::Moccasin => "MOCCASIN",
            Color::NavajoWhite => "NAVAJO_WHITE",
            Color::Navy => "NAVY",
            Color::OldLace => "OLD_LACE",
            Color::Olive => "OLIVE",
            Color::OliveDrab => "OLIVE_DRAB",
            Color::Orange => "ORANGE",
            Color::OrangeRed => "ORANGE_RED",
            Color::Orchid => "ORCHID",
            Color::PaleGoldenRod => "PALE_GOLDEN_ROD",
            Color::PaleGreen => "PALE_GREEN",
            Color::PaleTurquoise => "PALE_TURQUOISE",
            Color::PaleVioletRed => "PALE_VIOLET_RED",
            Color::PapayaWhip => "PAPAYA_WHIP",
            Color::PeachPuff => "PEACH_PUFF",
            Color::Peru => "PERU",
            Color::Pink => "PINK",
            Color::Plum => "PLUM",
            Color::PowderBlue => "POWDER_BLUE",
            Color::Purple => "PURPLE",
            Color::Red => "RED",
            Color::RosyBrown => "ROSY_BROWN",
            Color::RoyalBlue => "ROYAL_BLUE",
            Color::SaddleBrown => "SADDLE_BROWN",
            Color::Salmon => "SALMON",
            Color::SandyBrown => "SANDY_BROWN",
            Color::SeaGreen => "SEA_GREEN",
            Color::SeaShell => "SEA_SHELL",
            Color::Sienna => "SIENNA",
            Color::Silver => "SILVER",
            Color::SkyBlue => "SKY_BLUE",
            Color::SlateBlue => "SLATE_BLUE",
            Color::SlateGray => "SLATE_GRAY",
            Color::Snow => "SNOW",
            Color::SpringGreen => "SPRING_GREEN",
            Color::SteelBlue => "STEEL_BLUE",
            Color::Tan => "TAN",
            Color::Teal => "TEAL",
            Color::Thistle => "THISTLE",
            Color::Tomato => "TOMATO",
            Color::Turquoise => "TURQUOISE",
            Color::Violet => "VIOLET",
            Color::Wheat => "WHEAT",
            Color::White => "WHITE",
            Color::WhiteSmoke => "WHITE_SMOKE",
            Color::Yellow => "YELLOW",
            Color::YellowGreen => "YELLOW_GREEN",
        }
    }

    /// The `UPPERCASENAME`.
    pub fn uppercase_name(self) -> (r: &'static str)
        ensures
            r@ == uppercase_name_spec(self),
    {
        match self {
            Color::AliceBlue => "ALICEBLUE",
            Color::AntiqueWhite => "ANTIQUEWHITE",
            Color::Aqua => "AQUA",
            Color::Aquamarine => "AQUAMARINE",
            Color::Azure => "AZURE",
            Color::Beige => "BEIGE",
            Color::Bisque => "BISQUE",
            Color::Black => "BLACK",
            Color::BlanchedAlmond => "BLANCHEDALMOND",
            Color::Blue => "BLUE",
            Color::BlueViolet => "BLUEVIOLET",
            Color::Brown => "BROWN",
            Color::BurlyWood => "BURLYWOOD",
            Color::CadetBlue => "CADETBLUE",
            Color::Chartreuse => "CHARTREUSE",
            Color::Chocolate => "CHOCOLATE",
            Color::Coral => "CORAL",
            Color::CornflowerBlue => "CORNFLOWERBLUE",
            Color::Cornsilk => "CORNSILK",
            Color::Crimson => "CRIMSON",
            Color::Cyan => "CYAN",
            Color::DarkBlue => "DARKBLUE",
            Color::DarkCyan => "DARKCYAN",
            Color::DarkGoldenRod => "DARKGOLDENROD",
            Color::DarkGray => "DARKGRAY",
            Color::DarkGreen => "DARKGREEN",
            Color::DarkKhaki => "DARKKHAKI",
            Color::DarkMagenta => "DARKMAGENTA",
            Color::DarkOliveGreen => "DARKOLIVEGREEN",
            Color::DarkOrange => "DARKORANGE",
            Color::DarkOrchid => "DARKORCHID",
            Color::DarkRed => "DARKRED",
            Color::DarkSalmon => "DARKSALMON",
            Color::DarkSeaGreen => "DARKSEAGREEN",
            Color::DarkSlateBlue => "DARKSLATEBLUE",
            Color::DarkSlateGray => "DARKSLATEGRAY",
            Color::DarkTurquoise => "DARKTURQUOISE",
            Color::DarkViolet => "DARKVIOLET",
            Color::DeepPink => "DEEPPINK",
            Color::DeepSkyBlue => "DEEPSKYBLUE",
            Color::DimGray => "DIMGRAY",
            Color::DodgerBlue => "DODGERBLUE",
            Color::FireBrick => "FIREBRICK",
            Color::FloralWhite => "FLORALWHITE",
            Color::ForestGreen => "FORESTGREEN",
            Color::Fuchsia => "FUCHSIA",
            Color::Gainsboro => "GAINSBORO",
            Color::GhostWhite => "GHOSTWHITE",
            Color::Gold => "GOLD",
            Color::GoldenRod => "GOLDENROD",
            Color::Gray => "GRAY",
            Color::Green => "GREEN",
            Color::GreenYellow => "GREENYELLOW",
            Color::HoneyDew => "HONEYDEW",
            Color::HotPink => "HOTPINK",
            Color::IndianRed => "INDIANRED",
            Color::Indigo => "INDIGO",
            Color::Ivory => "IVORY",
            Color::Khaki => "KHAKI",
            Color::Lavender => "LAVENDER",
            Color::LavenderBlush => "LAVENDERBLUSH",
            Color::LawnGreen => "LAWNGREEN",
            Color::LemonChiffon => "LEMONCHIFFON",
            Color::LightBlue => "LIGHTBLUE",
            Color::LightCoral => "LIGHTCORAL",
            Color::LightCyan => "LIGHTCYAN",
            Color::LightGoldenRodYellow => "LIGHTGOLDENRODYELLOW",
            Color::LightGray => "LIGHTGRAY",
            Color::LightGreen => "LIGHTGREEN",
            Color::LightPink => "LIGHTPINK",
            Color::LightSalmon => "LIGHTSALMON",
            Color::LightSeaGreen => "LIGHTSEAGREEN",
            Color::LightSkyBlue => "LIGHTSKYBLUE",
            Color::LightSlateGray => "LIGHTSLATEGRAY",
            Color::LightSteelBlue => "LIGHTSTEELBLUE",
            Color::LightYellow => "LIGHTYELLOW",
            Color::Lime => "LIME",
            Color::LimeGreen => "LIMEGREEN",
            Color::Linen => "LINEN",
            Color::Magenta => "MAGENTA",
            Color::Maroon => "MAROON",
            Color::MediumAquaMarine => "MEDIUMAQUAMARINE",
            Color::MediumBlue => "MEDIUMBLUE",
            Color::MediumOrchid => "MEDIUMORCHID",
            Color::MediumPurple => "MEDIUMPURPLE",
            Color::MediumSeaGreen => "MEDIUMSEAGREEN",
            Color::MediumSlateBlue => "MEDIUMSLATEBLUE",
            Color::MediumSpringGreen => "MEDIUMSPRINGGREEN",
            Color::MediumTurquoise => "MEDIUMTURQUOISE",
            Color::MediumVioletRed => "MEDIUMVIOLETRED",
            Color::MidnightBlue => "MIDNIGHTBLUE",
            Color::MintCream => "MINTCREAM",
            Color::MistyRose => "MISTYROSE",
            Color::Moccasin => "MOCCASIN",
            Color::NavajoWhite => "NAVAJOWHITE",
            Color::Navy => "NAVY",
            Color::OldLace => "OLDLACE",
            Color::Olive => "OLIVE",
            Color::OliveDrab => "OLIVEDRAB",
            Color::Orange => "ORANGE",
            Color::OrangeRed => "ORANGERED",
            Color::Orchid => "ORCHID",
            Color::PaleGoldenRod => "PALEGOLDENROD",
            Color::PaleGreen => "PALEGREEN",
            Color::PaleTurquoise => "PALETURQUOISE",
            Color::PaleVioletRed => "PALEVIOLETRED",
            Color::PapayaWhip => "PAPAYAWHIP",
            Color::PeachPuff => "PEACHPUFF",
            Color::Peru => "PERU",
            Color::Pink => "PINK",
            Color::Plum => "PLUM",
            Color::PowderBlue => "POWDERBLUE",
            Color::Purple => "PURPLE",
            Color::Red => "RED",
            Color::RosyBrown => "ROSYBROWN",
            Color::RoyalBlue => "ROYALBLUE",
            Color::SaddleBrown => "SADDLEBROWN",
            Color::Salmon => "SALMON",
            Color::SandyBrown => "SANDYBROWN",
            Color::SeaGreen => "SEAGREEN",
            Color::SeaShell => "SEASHELL",
            Color::Sienna => "SIENNA",
            Color::Silver => "SILVER",
            Color::SkyBlue => "SKYBLUE",
            Color::SlateBlue => "SLATEBLUE",
            Color::SlateGray => "SLATEGRAY",
            Color::Snow => "SNOW",
            Color::SpringGreen => "SPRINGGREEN",
            Color::SteelBlue => "STEELBLUE",
            Color::Tan => "TAN",
            Color::Teal => "TEAL",
            Color::Thistle => "THISTLE",
            Color::Tomato => "TOMATO",
            Color::Turquoise => "TURQUOISE",
            Color::Violet => "VIOLET",
            Color::Wheat => "WHEAT",
            Color::White => "WHITE",
            Color::WhiteSmoke => "WHITESMOKE",
            Color::Yellow => "YELLOW",
            Color::YellowGreen => "YELLOWGREEN",
        }
    }

    /// The hex value as `#RRGGBB`.
    pub fn hex(self) -> (r: &'static str)
        ensures
            r@ == hex_spec(self),
    {
        match self {
            Color::AliceBlue => "#F0F8FF",
            Color::AntiqueWhite => "#FAEBD7",
            Color::Aqua => "#00FFFF",
            Color::Aquamarine => "#7FFFD4",
            Color::Azure => "#F0FFFF",
            Color::Beige => "#F5F5DC",
            Color::Bisque => "#FFE4C4",
            Color::Black => "#000000",
            Color::BlanchedAlmond => "#FFEBCD",
            Color::Blue => "#0000FF",
            Color::BlueViolet => "#8A2BE2",
            Color::Brown => "#A52A2A",
            Color::BurlyWood => "#DEB887",
            Color::CadetBlue => "#5F9EA0",
            Color::Chartreuse => "#7FFF00",
            Color::Chocolate => "#D2691E",
            Color::Coral => "#FF7F50",
            Color::CornflowerBlue => "#6495ED",
            Color::Cornsilk => "#FFF8DC",
            Color::Crimson => "#DC143C",
            Color::Cyan => "#00FFFF",
            Color::DarkBlue => "#00008B",
            Color::DarkCyan => "#008B8B",
            Color::DarkGoldenRod => "#B8860B",
            Color::DarkGray => "#A9A9A9",
            Color::DarkGreen => "#006400",
            Color::DarkKhaki => "#BDB76B",
            Color::DarkMagenta => "#8B008B",
            Color::DarkOliveGreen => "#556B2F",
            Color::DarkOrange => "#FF8C00",
            Color::DarkOrchid => "#9932CC",
            Color::DarkRed => "#8B0000",
            Color::DarkSalmon => "#E9967A",
            Color::DarkSeaGreen => "#8FBC8F",
            Color::DarkSlateBlue => "#483D8B",
            Color::DarkSlateGray => "#2F4F4F",
            Color::DarkTurquoise => "#00CED1",
            Color::DarkViolet => "#9400D3",
            Color::DeepPink => "#FF1493",
            Color::DeepSkyBlue => "#00BFFF",
            Color::DimGray => "#696969",
            Color::DodgerBlue => "#1E90FF",
            Color::FireBrick => "#B22222",
            Color::FloralWhite => "#FFFAF0",
            Color::ForestGreen => "#228B22",
            Color::Fuchsia => "#FF00FF",
            Color::Gainsboro => "#DCDCDC",
            Color::GhostWhite => "#F8F8FF",
            Color::Gold => "#FFD700",
            Color::GoldenRod => "#DAA520",
            Color::Gray => "#808080",
            Color::Green => "#008000",
            Color::GreenYellow => "#ADFF2F",
            Color::HoneyDew => "#F0FFF0",
            Color::HotPink => "#FF69B4",
            Color::IndianRed => "#CD5C5C",
            Color::Indigo => "#4B0082",
            Color::Ivory => "#FFFFF0",
            Color::Khaki => "#F0E68C",
            Color::Lavender => "#E6E6FA",
            Color::LavenderBlush => "#FFF0F5",
            Color::LawnGreen => "#7CFC00",
            Color::LemonChiffon => "#FFFACD",
            Color::LightBlue => "#ADD8E6",
            Color::LightCoral => "#F08080",
            Color::LightCyan => "#E0FFFF",
            Color::LightGoldenRodYellow => "#FAFAD2",
            Color::LightGray => "#D3D3D3",
            Color::LightGreen => "#90EE90",
            Color::LightPink => "#FFB6C1",
            Color::LightSalmon => "#FFA07A",
            Color::LightSeaGreen => "#20B2AA",
            Color::LightSkyBlue => "#87CEFA",
            Color::LightSlateGray => "#778899",
            Color::LightSteelBlue => "#B0C4DE",
            Color::LightYellow => "#FFFFE0",
            Color::Lime => "#00FF00",
            Color::LimeGreen => "#32CD32",
            Color::Linen => "#FAF0E6",
            Color::Magenta => "#FF00FF",
            Color::Maroon => "#800000",
            Color::MediumAquaMarine => "#66CDAA",
            Color::MediumBlue => "#0000CD",
            Color::MediumOrchid => "#BA55D3",
            Color::MediumPurple => "#9370DB",
            Color::MediumSeaGreen => "#3CB371",
            Color::MediumSlateBlue => "#7B68EE",
            Color::MediumSpringGreen => "#00FA9A",
            Color::MediumTurquoise => "#48D1CC",
            Color::MediumVioletRed => "#C71585",
            Color::MidnightBlue => "#191970",
            Color::MintCream => "#F5FFFA",
            Color::MistyRose => "#FFE4E1",
            Color::Moccasin => "#FFE4B5",
            Color::NavajoWhite => "#FFDEAD",
            Color::Navy => "#000080",
            Color::OldLace => "#FDF5E6",
            Color::Olive => "#808000",
            Color::OliveDrab => "#6B8E23",
            Color::Orange => "#FFA500",
            Color::OrangeRed => "#FF4500",
            Color::Orchid => "#DA70D6",
            Color::PaleGoldenRod => "#EEE8AA",
            Color::PaleGreen => "#98FB98",
            Color::PaleTurquoise => "#AFEEEE",
            Color::PaleVioletRed => "#DB7093",
            Color::PapayaWhip => "#FFEFD5",
            Color::PeachPuff => "#FFDAB9",
            Color::Peru => "#CD853F",
            Color::Pink => "#FFC0CB",
            Color::Plum => "#DDA0DD",
            Color::PowderBlue => "#B0E0E6",
            Color::Purple => "#800080",
            Color::Red => "#FF0000",
            Color::RosyBrown => "#BC8F8F",
            Color::RoyalBlue => "#4169E1",
            Color::SaddleBrown => "#8B4513",
            Color::Salmon => "#FA8072",
            Color::SandyBrown => "#F4A460",
            Color::SeaGreen => "#2E8B57",
            Color::SeaShell => "#FFF5EE",
            Color::Sienna => "#A0522D",
            Color::Silver => "#C0C0C0",
            Color::SkyBlue => "#87CEEB",
            Color::SlateBlue => "#6A5ACD",
            Color::SlateGray => "#708090",
            Color::Snow => "#FFFAFA",
            Color::SpringGreen => "#00FF7F",
            Color::SteelBlue => "#4682B4",
            Color::Tan => "#D2B48C",
            Color::Teal => "#008080",
            Color::Thistle => "#D8BFD8",
            Color::Tomato => "#FF6347",
            Color::Turquoise => "#40E0D0",
            Color::Violet => "#EE82EE",
            Color::Wheat => "#F5DEB3",
            Color::White => "#FFFFFF",
            Color::WhiteSmoke => "#F5F5F5",
            Color::Yellow => "#FFFF00",
            Color::YellowGreen => "#9ACD32",
        }
    }

    /// The [`Rgb`] value.
    pub fn rgb(self) -> (r: Rgb)
        ensures
            r == rgb_spec(self),
    {
        match self {
            Color::AliceBlue => Rgb { r: 240, g: 248, b: 255 },
            Color::AntiqueWhite => Rgb { r: 250, g: 235, b: 215 },
            Color::Aqua => Rgb { r: 0, g: 255, b: 255 },
            Color::Aquamarine => Rgb { r: 127, g: 255, b: 212 },
            Color::Azure => Rgb { r: 240, g: 255, b: 255 },
            Color::Beige => Rgb { r: 245, g: 245, b: 220 },
            Color::Bisque => Rgb { r: 255, g: 228, b: 196 },
            Color::Black => Rgb { r: 0, g: 0, b: 0 },
            Color::BlanchedAlmond => Rgb { r: 255, g: 235, b: 205 },
            Color::Blue => Rgb { r: 0, g: 0, b: 255 },
            Color::BlueViolet => Rgb { r: 138, g: 43, b: 226 },
            Color::Brown => Rgb { r: 165, g: 42, b: 42 },
            Color::BurlyWood => Rgb { r: 222, g: 184, b: 135 },
            Color::CadetBlue => Rgb { r: 95, g: 158, b: 160 },
            Color::Chartreuse => Rgb { r: 127, g: 255, b: 0 },
            Color::Chocolate => Rgb { r: 210, g: 105, b: 30 },
            Color::Coral => Rgb { r: 255, g: 127, b: 80 },
            Color::CornflowerBlue => Rgb { r: 100, g: 149, b: 237 },
            Color::Cornsilk => Rgb { r: 255, g: 248, b: 220 },
            Color::Crimson => Rgb { r: 220, g: 20, b: 60 },
            Color::Cyan => Rgb { r: 0, g: 255, b: 255 },
            Color::DarkBlue => Rgb { r: 0, g: 0, b: 139 },
            Color::DarkCyan => Rgb { r: 0, g: 139, b: 139 },
            Color::DarkGoldenRod => Rgb { r: 184, g: 134, b: 11 },
            Color::DarkGray => Rgb { r: 169, g: 169, b: 169 },
            Color::DarkGreen => Rgb { r: 0, g: 100, b: 0 },
            Color::DarkKhaki => Rgb { r: 189, g: 183, b: 107 },
            Color::DarkMagenta => Rgb { r: 139, g: 0, b: 139 },
            Color::DarkOliveGreen => Rgb { r: 85, g: 107, b: 47 },
            Color::DarkOrange => Rgb { r: 255, g: 140, b: 0 },
            Color::DarkOrchid => Rgb { r: 153, g: 50, b: 204 },
            Color::DarkRed => Rgb { r: 139, g: 0, b: 0 },
            Color::DarkSalmon => Rgb { r: 233, g: 150, b: 122 },
            Color::DarkSeaGreen => Rgb { r: 143, g: 188, b: 143 },
            Color::DarkSlateBlue => Rgb { r: 72, g: 61, b: 139 },
            Color::DarkSlateGray => Rgb { r: 47, g: 79, b: 79 },
            Color::DarkTurquoise => Rgb { r: 0, g: 206, b: 209 },
            Color::DarkViolet => Rgb { r: 148, g: 0, b: 211 },
            Color::DeepPink => Rgb { r: 255, g: 20, b: 147 },
            Color::DeepSkyBlue => Rgb { r: 0, g: 191, b: 255 },
            Color::DimGray => Rgb { r: 105, g: 105, b: 105 },
            Color::DodgerBlue => Rgb { r: 30, g: 144, b: 255 },
            Color::FireBrick => Rgb { r: 178, g: 34, b: 34 },
            Color::FloralWhite => Rgb { r: 255, g: 250, b: 240 },
            Color::ForestGreen => Rgb { r: 34, g: 139, b: 34 },
            Color::Fuchsia => Rgb { r: 255, g: 0, b: 255 },
            Color::Gainsboro => Rgb { r: 220, g: 220, b: 220 },
            Color::GhostWhite => Rgb { r: 248, g: 248, b: 255 },
            Color::Gold => Rgb { r: 255, g: 215, b: 0 },
            Color::GoldenRod => Rgb { r: 218, g: 165, b: 32 },
            Color::Gray => Rgb { r: 128, g: 128, b: 128 },
            Color::Green => Rgb { r: 0, g: 128, b: 0 },
            Color::GreenYellow => Rgb { r: 173, g: 255, b: 47 },
            Color::HoneyDew => Rgb { r: 240, g: 255, b: 240 },
            Color::HotPink => Rgb { r: 255, g: 105, b: 180 },
            Color::IndianRed => Rgb { r: 205, g: 92, b: 92 },
            Color::Indigo => Rgb { r: 75, g: 0, b: 130 },
            Color::Ivory => Rgb { r: 255, g: 255, b: 240 },
            Color::Khaki => Rgb { r: 240, g: 230, b: 140 },
            Color::Lavender => Rgb { r: 230, g: 230, b: 250 },
            Color::LavenderBlush => Rgb { r: 255, g: 240, b: 245 },
            Color::LawnGreen => Rgb { r: 124, g: 252, b: 0 },
            Color::LemonChiffon => Rgb { r: 255, g: 250, b: 205 },
            Color::LightBlue => Rgb { r: 173, g: 216, b: 230 },
            Color::LightCoral => Rgb { r: 240, g: 128, b: 128 },
            Color::LightCyan => Rgb { r: 224, g: 255, b: 255 },
            Color::LightGoldenRodYellow => Rgb { r: 250, g: 250, b: 210 },
            Color::LightGray => Rgb { r: 211, g: 211, b: 211 },
            Color::LightGreen => Rgb { r: 144, g: 238, b: 144 },
            Color::LightPink => Rgb { r: 255, g: 182, b: 193 },
            Color::LightSalmon => Rgb { r: 255, g: 160, b: 122 },
            Color::LightSeaGreen => Rgb { r: 32, g: 178, b: 170 },
            Color::LightSkyBlue => Rgb { r: 135, g: 206, b: 250 },
            Color::LightSlateGray => Rgb { r: 119, g: 136, b: 153 },
            Color::LightSteelBlue => Rgb { r: 176, g: 196, b: 222 },
            Color::LightYellow => Rgb { r: 255, g: 255, b: 224 },
            Color::Lime => Rgb { r: 0, g: 255, b: 0 },
            Color::LimeGreen => Rgb { r: 50, g: 205, b: 50 },
            Color::Linen => Rgb { r: 250, g: 240, b: 230 },
            Color::Magenta => Rgb { r: 255, g: 0, b: 255 },
            Color::Maroon => Rgb { r: 128, g: 0, b: 0 },
            Color::MediumAquaMarine => Rgb { r: 102, g: 205, b: 170 },
            Color::MediumBlue => Rgb { r: 0, g: 0, b: 205 },
            Color::MediumOrchid => Rgb { r: 186, g: 85, b: 211 },
            Color::MediumPurple => Rgb { r: 147, g: 112, b: 219 },
            Color::MediumSeaGreen => Rgb { r: 60, g: 179, b: 113 },
            Color::MediumSlateBlue => Rgb { r: 123, g: 104, b: 238 },
            Color::MediumSpringGreen => Rgb { r: 0, g: 250, b: 154 },
            Color::MediumTurquoise => Rgb { r: 72, g: 209, b: 204 },
            Color::MediumVioletRed => Rgb { r: 199, g: 21, b: 133 },
            Color::MidnightBlue => Rgb { r: 25, g: 25, b: 112 },
            Color::MintCream => Rgb { r: 245, g: 255, b: 250 },
            Color::MistyRose => Rgb { r: 255, g: 228, b: 225 },
            Color::Moccasin => Rgb { r: 255, g: 228, b: 181 },
            Color::NavajoWhite => Rgb { r: 255, g: 222, b: 173 },
            Color::Navy => Rgb { r: 0, g: 0, b: 128 },
            Color::OldLace => Rgb { r: 253, g: 245, b: 230 },
            Color::Olive => Rgb { r: 128, g: 128, b: 0 },
            Color::OliveDrab => Rgb { r: 107, g: 142, b: 35 },
            Color::Orange => Rgb { r: 255, g: 165, b: 0 },
            Color::OrangeRed => Rgb { r: 255, g: 69, b: 0 },
            Color::Orchid => Rgb { r: 218, g: 112, b: 214 },
            Color::PaleGoldenRod => Rgb { r: 238, g: 232, b: 170 },
            Color::PaleGreen => Rgb { r: 152, g: 251, b: 152 },
            Color::PaleTurquoise => Rgb { r: 175, g: 238, b: 238 },
            Color::PaleVioletRed => Rgb { r: 219, g: 112, b: 147 },
            Color::PapayaWhip => Rgb { r: 255, g: 239, b: 213 },
            Color::PeachPuff => Rgb { r: 255, g: 218, b: 185 },
            Color::Peru => Rgb { r: 205, g: 133, b: 63 },
            Color::Pink => Rgb { r: 255, g: 192, b: 203 },
            Color::Plum => Rgb { r: 221, g: 160, b: 221 },
            Color::PowderBlue => Rgb { r: 176, g: 224, b: 230 },
            Color::Purple => Rgb { r: 128, g: 0, b: 128 },
            Color::Red => Rgb { r: 255, g: 0, b: 0 },
            Color::RosyBrown => Rgb { r: 188, g: 143, b: 143 },
            Color::RoyalBlue => Rgb { r: 65, g: 105, b: 225 },
            Color::SaddleBrown => Rgb { r: 139, g: 69, b: 19 },
            Color::Salmon => Rgb { r: 250, g: 128, b: 114 },
            Color::SandyBrown => Rgb { r: 244, g: 164, b: 96 },
            Color::SeaGreen => Rgb { r: 46, g: 139, b: 87 },
            Color::SeaShell => Rgb { r: 255, g: 245, b: 238 },
            Color::Sienna => Rgb { r: 160, g: 82, b: 45 },
            Color::Silver => Rgb { r: 192, g: 192, b: 192 },
            Color::SkyBlue => Rgb { r: 135, g: 206, b: 235 },
            Color::SlateBlue => Rgb { r: 106, g: 90, b: 205 },
            Color::SlateGray => Rgb { r: 112, g: 128, b: 144 },
            Color::Snow => Rgb { r: 255, g: 250, b: 250 },
            Color::SpringGreen => Rgb { r: 0, g: 255, b: 127 },
            Color::SteelBlue => Rgb { r: 70, g: 130, b: 180 },
            Color::Tan => Rgb { r: 210, g: 180, b: 140 },
            Color::Teal => Rgb { r: 0, g: 128, b: 128 },
            Color::Thistle => Rgb { r: 216, g: 191, b: 216 },
            Color::Tomato => Rgb { r: 255, g: 99, b: 71 },
            Color::Turquoise => Rgb { r: 64, g: 224, b: 208 },
            Color::Violet => Rgb { r: 238, g: 130, b: 238 },
            Color::Wheat => Rgb { r: 245, g: 222, b: 179 },
            Color::White => Rgb { r: 255, g: 255, b: 255 },
            Color::WhiteSmoke => Rgb { r: 245, g: 245, b: 245 },
            Color::Yellow => Rgb { r: 255, g: 255, b: 0 },
            Color::YellowGreen => Rgb { r: 154, g: 205, b: 50 },
        }
    }

    /// The color at position `i` of the table.
    pub(crate) fn from_index(i: usize) -> (r: Color)
        requires
            i < COLOR_COUNT,
        ensures
            color_index(r) == i,
    {
        if i == 0 {
            Color::AliceBlue
        } else if i == 1 {
            Color::AntiqueWhite
        } else if i == 2 {
            Color::Aqua
        } else if i == 3 {
            Color::Aquamarine
        } else if i == 4 {
            Color::Azure
        } else if i == 5 {
            Color::Beige
        } else if i == 6 {
            Color::Bisque
        } else if i == 7 {
            Color::Black
        } else if i == 8 {
            Color::BlanchedAlmond
        } else if i == 9 {
            Color::Blue
        } else if i == 10 {
            Color::BlueViolet
        } else if i == 11 {
            Color::Brown
        } else if i == 12 {
            Color::BurlyWood
        } else if i == 13 {
            Color::CadetBlue
        } else if i == 14 {
            Color::Chartreuse
        } else if i == 15 {
            Color::Chocolate
        } else if i == 16 {
            Color::Coral
        } else if i == 17 {
            Color::CornflowerBlue
        } else if i == 18 {
            Color::Cornsilk
        } else if i == 19 {
            Color::Crimson
        } else if i == 20 {
            Color::Cyan
        } else if i == 21 {
            Color::DarkBlue
        } else if i == 22 {
            Color::DarkCyan
        } else if i == 23 {
            Color::DarkGoldenRod
        } else if i == 24 {
            Color::DarkGray
        } else if i == 25 {
            Color::DarkGreen
        } else if i == 26 {
            Color::DarkKhaki
        } else if i == 27 {
            Color::DarkMagenta
        } else if i == 28 {
            Color::DarkOliveGreen
        } else if i == 29 {
            Color::DarkOrange
        } else if i == 30 {
            Color::DarkOrchid
        } else if i == 31 {
            Color::DarkRed
        } else if i == 32 {
            Color::DarkSalmon
        } else if i == 33 {
            Color::DarkSeaGreen
        } else if i == 34 {
            Color::DarkSlateBlue
        } else if i == 35 {
            Color::DarkSlateGray
        } else if i == 36 {
            Color::DarkTurquoise
        } else if i == 37 {
            Color::DarkViolet
        } else if i == 38 {
            Color::DeepPink
        } else if i == 39 {
            Color::DeepSkyBlue
        } else if i == 40 {
            Color::DimGray
        } else if i == 41 {
            Color::DodgerBlue
        } else if i == 42 {
            Color::FireBrick
        } else if i == 43 {
            Color::FloralWhite
        } else if i == 44 {
            Color::ForestGreen
        } else if i == 45 {
            Color::Fuchsia
        } else if i == 46 {
            Color::Gainsboro
        } else if i == 47 {
            Color::GhostWhite
        } else if i == 48 {
            Color::Gold
        } else if i == 49 {
            Color::GoldenRod
        } else if i == 50 {
            Color::Gray
        } else if i == 51 {
            Color::Green
        } else if i == 52 {
            Color::GreenYellow
        } else if i == 53 {
            Color::HoneyDew
        } else if i == 54 {
            Color::HotPink
        } else if i == 55 {
            Color::IndianRed
        } else if i == 56 {
            Color::Indigo
        } else if i == 57 {
            Color::Ivory
        } else if i == 58 {
            Color::Khaki
        } else if i == 59 {
            Color::Lavender
        } else if i == 60 {
            Color::LavenderBlush
        } else if i == 61 {
            Color::LawnGreen
        } else if i == 62 {
            Color::LemonChiffon
        } else if i == 63 {
            Color::LightBlue
        } else if i == 64 {
            Color::LightCoral
        } else if i == 65 {
            Color::LightCyan
        } else if i == 66 {
            Color::LightGoldenRodYellow
        } else if i == 67 {
            Color::LightGray
        } else if i == 68 {
            Color::LightGreen
        } else if i == 69 {
            Color::LightPink
        } else if i == 70 {
            Color::LightSalmon
        } else if i == 71 {
            Color::LightSeaGreen
        } else if i == 72 {
            Color::LightSkyBlue
        } else if i == 73 {
            Color::LightSlateGray
        } else if i == 74 {
            Color::LightSteelBlue
        } else if i == 75 {
            Color::LightYellow
        } else if i == 76 {
            Color::Lime
        } else if i == 77 {
            Color::LimeGreen
        } else if i == 78 {
            Color::Linen
        } else if i == 79 {
            Color::Magenta
        } else if i == 80 {
            Color::Maroon
        } else if i == 81 {
            Color::MediumAquaMarine
        } else if i == 82 {
            Color::MediumBlue
        } else if i == 83 {
            Color::MediumOrchid
        } else if i == 84 {
            Color::MediumPurple
        } else if i == 85 {
            Color::MediumSeaGreen
        } else if i == 86 {
            Color::MediumSlateBlue
        } else if i == 87 {
            Color::MediumSpringGreen
        } else if i == 88 {
            Color::MediumTurquoise
        } else if i == 89 {
            Color::MediumVioletRed
        } else if i == 90 {
            Color::MidnightBlue
        } else if i == 91 {
            Color::MintCream
        } else if i == 92 {
            Color::MistyRose
        } else if i == 93 {
            Color::Moccasin
        } else if i == 94 {
            Color::NavajoWhite
        } else if i == 95 {
            Color::Navy
        } else if i == 96 {
            Color::OldLace
        } else if i == 97 {
            Color::Olive
        } else if i == 98 {
            Color::OliveDrab
        } else if i == 99 {
            Color::Orange
        } else if i == 100 {
            Color::OrangeRed
        } else if i == 101 {
            Color::Orchid
        } else if i == 102 {
            Color::PaleGoldenRod
        } else if i == 103 {
            Color::PaleGreen
        } else if i == 104 {
            Color::PaleTurquoise
        } else if i == 105 {
            Color::PaleVioletRed
        } else if i == 106 {
            Color::PapayaWhip
        } else if i == 107 {
            Color::PeachPuff
        } else if i == 108 {
            Color::Peru
        } else if i == 109 {
            Color::Pink
        } else if i == 110 {
            Color::Plum
        } else if i == 111 {
            Color::PowderBlue
        } else if i == 112 {
            Color::Purple
        } else if i == 113 {
            Color::Red
        } else if i == 114 {
            Color::RosyBrown
        } else if i == 115 {
            Color::RoyalBlue
        } else if i == 116 {
            Color::SaddleBrown
        } else if i == 117 {
            Color::Salmon
        } else if i == 118 {
            Color::SandyBrown
        } else if i == 119 {
            Color::SeaGreen
        } else if i == 120 {
            Color::SeaShell
        } else if i == 121 {
            Color::Sienna
        } else if i == 122 {
            Color::Silver
        } else if i == 123 {
            Color::SkyBlue
        } else if i == 124 {
            Color::SlateBlue
        } else if i == 125 {
            Color::SlateGray
        } else if i == 126 {
            Color::Snow
        } else if i == 127 {
            Color::SpringGreen
        } else if i == 128 {
            Color::SteelBlue
        } else if i == 129 {
            Color::Tan
        } else if i == 130 {
            Color::Teal
        } else if i == 131 {
            Color::Thistle
        } else if i == 132 {
            Color::Tomato
        } else if i == 133 {
            Color::Turquoise
        } else if i == 134 {
            Color::Violet
        } else if i == 135 {
            Color::Wheat
        } else if i == 136 {
            Color::White
        } else if i == 137 {
            Color::WhiteSmoke
        } else if i == 138 {
            Color::Yellow
        } else {
            Color::YellowGreen
        }
    }

}

/// The lower-case name of the color at position `i` of the table.
pub(crate) fn lower_name_at_index(i: usize) -> (r: &'static str)
    requires
        i < COLOR_COUNT,
    ensures
        r@ == lower_name_at(i as int),
{
    if i == 0 {
        proof {
            reveal_strlit("aliceblue");
        }
        "aliceblue"
    } else if i == 1 {
        proof {
            reveal_strlit("antiquewhite");
        }
        "antiquewhite"
    } else if i == 2 {
        proof {
            reveal_strlit("aqua");
        }
        "aqua"
    } else if i == 3 {
        proof {
            reveal_strlit("aquamarine");
        }
        "aquamarine"
    } else if i == 4 {
        proof {
            reveal_strlit("azure");
        }
        "azure"
    } else if i == 5 {
        proof {
            reveal_strlit("beige");
        }
        "beige"
    } else if i == 6 {
        proof {
            reveal_strlit("bisque");
        }
        "bisque"
    } else if i == 7 {
        proof {
            reveal_strlit("black");
        }
        "black"
    } else if i == 8 {
        proof {
            reveal_strlit("blanchedalmond");
        }
        "blanchedalmond"
    } else if i == 9 {
        proof {
            reveal_strlit("blue");
        }
        "blue"
    } else if i == 10 {
        proof {
            reveal_strlit("blueviolet");
        }
        "blueviolet"
    } else if i == 11 {
        proof {
            reveal_strlit("brown");
        }
        "brown"
    } else if i == 12 {
        proof {
            reveal_strlit("burlywood");
        }
        "burlywood"
    } else if i == 13 {
        proof {
            reveal_strlit("cadetblue");
        }
        "cadetblue"
    } else if i == 14 {
        proof {
            reveal_strlit("chartreuse");
        }
        "chartreuse"
    } else if i == 15 {
        proof {
            reveal_strlit("chocolate");
        }
        "chocolate"
    } else if i == 16 {
        proof {
            reveal_strlit("coral");
        }
        "coral"
    } else if i == 17 {
        proof {
            reveal_strlit("cornflowerblue");
        }
        "cornflowerblue"
    } else if i == 18 {
        proof {
            reveal_strlit("cornsilk");
        }
        "cornsilk"
    } else if i == 19 {
        proof {
            reveal_strlit("crimson");
        }
        "crimson"
    } else if i == 20 {
        proof {
            reveal_strlit("cyan");
        }
        "cyan"
    } else if i == 21 {
        proof {
            reveal_strlit("darkblue");
        }
        "darkblue"
    } else if i == 22 {
        proof {
            reveal_strlit("darkcyan");
        }
        "darkcyan"
    } else if i == 23 {
        proof {
            reveal_strlit("darkgoldenrod");
        }
        "darkgoldenrod"
    } else if i == 24 {
        proof {
            reveal_strlit("darkgray");
        }
        "darkgray"
    } else if i == 25 {
        proof {
            reveal_strlit("darkgreen");
        }
        "darkgreen"
    } else if i == 26 {
        proof {
            reveal_strlit("darkkhaki");
        }
        "darkkhaki"
    } else if i == 27 {
        proof {
            reveal_strlit("darkmagenta");
        }
        "darkmagenta"
    } else if i == 28 {
        proof {
            reveal_strlit("darkolivegreen");
        }
        "darkolivegreen"
    } else if i == 29 {
        proof {
            reveal_strlit("darkorange");
        }
        "darkorange"
    } else if i == 30 {
        proof {
            reveal_strlit("darkorchid");
        }
        "darkorchid"
    } else if i == 31 {
        proof {
            reveal_strlit("darkred");
        }
        "darkred"
    } else if i == 32 {
        proof {
            reveal_strlit("darksalmon");
        }
        "darksalmon"
    } else if i == 33 {
        proof {
            reveal_strlit("darkseagreen");
        }
        "darkseagreen"
    } else if i == 34 {
        proof {
            reveal_strlit("darkslateblue");
        }
        "darkslateblue"
    } else if i == 35 {
        proof {
            reveal_strlit("darkslategray");
        }
        "darkslategray"
    } else if i == 36 {
        proof {
            reveal_strlit("darkturquoise");
        }
        "darkturquoise"
    } else if i == 37 {
        proof {
            reveal_strlit("darkviolet");
        }
        "darkviolet"
    } else if i == 38 {
        proof {
            reveal_strlit("deeppink");
        }
        "deeppink"
    } else if i == 39 {
        proof {
            reveal_strlit("deepskyblue");
        }
        "deepskyblue"
    } else if i == 40 {
        proof {
            reveal_strlit("dimgray");
        }
        "dimgray"
    } else if i == 41 {
        proof {
            reveal_strlit("dodgerblue");
        }
        "dodgerblue"
    } else if i == 42 {
        proof {
            reveal_strlit("firebrick");
        }
        "firebrick"
    } else if i == 43 {
        proof {
            reveal_strlit("floralwhite");
        }
        "floralwhite"
    } else if i == 44 {
        proof {
            reveal_strlit("forestgreen");
        }
        "forestgreen"
    } else if i == 45 {
        proof {
            reveal_strlit("fuchsia");
        }
        "fuchsia"
    } else if i == 46 {
        proof {
            reveal_strlit("gainsboro");
        }
        "gainsboro"
    } else if i == 47 {
        proof {
            reveal_strlit("ghostwhite");
        }
        "ghostwhite"
    } else if i == 48 {
        proof {
            reveal_strlit("gold");
        }
        "gold"
    } else if i == 49 {
        proof {
            reveal_strlit("goldenrod");
        }
        "goldenrod"
    } else if i == 50 {
        proof {
            reveal_strlit("gray");
        }
        "gray"
    } else if i == 51 {
        proof {
            reveal_strlit("green");
        }
        "green"
    } else if i == 52 {
        proof {
            reveal_strlit("greenyellow");
        }
        "greenyellow"
    } else if i == 53 {
        proof {
            reveal_strlit("honeydew");
        }
        "honeydew"
    } else if i == 54 {
        proof {
            reveal_strlit("hotpink");
        }
        "hotpink"
    } else if i == 55 {
        proof {
            reveal_strlit("indianred");
        }
        "indianred"
    } else if i == 56 {
        proof {
            reveal_strlit("indigo");
        }
        "indigo"
    } else if i == 57 {
        proof {
            reveal_strlit("ivory");
        }
        "ivory"
    } else if i == 58 {
        proof {
            reveal_strlit("khaki");
        }
        "khaki"
    } else if i == 59 {
        proof {
            reveal_strlit("lavender");
        }
        "lavender"
    } else if i == 60 {
        proof {
            reveal_strlit("lavenderblush");
        }
        "lavenderblush"
    } else if i == 61 {
        proof {
            reveal_strlit("lawngreen");
        }
        "lawngreen"
    } else if i == 62 {
        proof {
            reveal_strlit("lemonchiffon");
        }
        "lemonchiffon"
    } else if i == 63 {
        proof {
            reveal_strlit("lightblue");
        }
        "lightblue"
    } else if i == 64 {
        proof {
            reveal_strlit("lightcoral");
        }
        "lightcoral"
    } else if i == 65 {
        proof {
            reveal_strlit("lightcyan");
        }
        "lightcyan"
    } else if i == 66 {
        proof {
            reveal_strlit("lightgoldenrodyellow");
        }
        "lightgoldenrodyellow"
    } else if i == 67 {
        proof {
            reveal_strlit("lightgray");
        }
        "lightgray"
    } else if i == 68 {
        proof {
            reveal_strlit("lightgreen");
        }
        "lightgreen"
    } else if i == 69 {
        proof {
            reveal_strlit("lightpink");
        }
        "lightpink"
    } else if i == 70 {
        proof {
            reveal_strlit("lightsalmon");
        }
        "lightsalmon"
    } else if i == 71 {
        proof {
            reveal_strlit("lightseagreen");
        }
        "lightseagreen"
    } else if i == 72 {
        proof {
            reveal_strlit("lightskyblue");
        }
        "lightskyblue"
    } else if i == 73 {
        proof {
            reveal_strlit("lightslategray");
        }
        "lightslategray"
    } else if i == 74 {
        proof {
            reveal_strlit("lightsteelblue");
        }
        "lightsteelblue"
    } else if i == 75 {
        proof {
            reveal_strlit("lightyellow");
        }
        "lightyellow"
    } else if i == 76 {
        proof {
            reveal_strlit("lime");
        }
        "lime"
    } else if i == 77 {
        proof {
            reveal_strlit("limegreen");
        }
        "limegreen"
    } else if i == 78 {
        proof {
            reveal_strlit("linen");
        }
        "linen"
    } else if i == 79 {
        proof {
            reveal_strlit("magenta");
        }
        "magenta"
    } else if i == 80 {
        proof {
            reveal_strlit("maroon");
        }
        "maroon"
    } else if i == 81 {
        proof {
            reveal_strlit("mediumaquamarine");
        }
        "mediumaquamarine"
    } else if i == 82 {
        proof {
            reveal_strlit("mediumblue");
        }
        "mediumblue"
    } else if i == 83 {
        proof {
            reveal_strlit("mediumorchid");
        }
        "mediumorchid"
    } else if i == 84 {
        proof {
            reveal_strlit("mediumpurple");
        }
        "mediumpurple"
    } else if i == 85 {
        proof {
            reveal_strlit("mediumseagreen");
        }
        "mediumseagreen"
    } else if i == 86 {
        proof {
            reveal_strlit("mediumslateblue");
        }
        "mediumslateblue"
    } else if i == 87 {
        proof {
            reveal_strlit("mediumspringgreen");
        }
        "mediumspringgreen"
    } else if i == 88 {
        proof {
            reveal_strlit("mediumturquoise");
        }
        "mediumturquoise"
    } else if i == 89 {
        proof {
            reveal_strlit("mediumvioletred");
        }
        "mediumvioletred"
    } else if i == 90 {
        proof {
            reveal_strlit("midnightblue");
        }
        "midnightblue"
    } else if i == 91 {
        proof {
            reveal_strlit("mintcream");
        }
        "mintcream"
    } else if i == 92 {
        proof {
            reveal_strlit("mistyrose");
        }
        "mistyrose"
    } else if i == 93 {
        proof {
            reveal_strlit("moccasin");
        }
        "moccasin"
    } else if i == 94 {
        proof {
            reveal_strlit("navajowhite");
        }
        "navajowhite"
    } else if i == 95 {
        proof {
            reveal_strlit("navy");
        }
        "navy"
    } else if i == 96 {
        proof {
            reveal_strlit("oldlace");
        }
        "oldlace"
    } else if i == 97 {
        proof {
            reveal_strlit("olive");
        }
        "olive"
    } else if i == 98 {
        proof {
            reveal_strlit("olivedrab");
        }
        "olivedrab"
    } else if i == 99 {
        proof {
            reveal_strlit("orange");
        }
        "orange"
    } else if i == 100 {
        proof {
            reveal_strlit("orangered");
        }
        "orangered"
    } else if i == 101 {
        proof {
            reveal_strlit("orchid");
        }
        "orchid"
    } else if i == 102 {
        proof {
            reveal_strlit("palegoldenrod");
        }
        "palegoldenrod"
    } else if i == 103 {
        proof {
            reveal_strlit("palegreen");
        }
        "palegreen"
    } else if i == 104 {
        proof {
            reveal_strlit("paleturquoise");
        }
        "paleturquoise"
    } else if i == 105 {
        proof {
            reveal_strlit("palevioletred");
        }
        "palevioletred"
    } else if i == 106 {
        proof {
            reveal_strlit("papayawhip");
        }
        "papayawhip"
    } else if i == 107 {
        proof {
            reveal_strlit("peachpuff");
        }
        "peachpuff"
    } else if i == 108 {
        proof {
            reveal_strlit("peru");
        }
        "peru"
    } else if i == 109 {
        proof {
            reveal_strlit("pink");
        }
        "pink"
    } else if i == 110 {
        proof {
            reveal_strlit("plum");
        }
        "plum"
    } else if i == 111 {
        proof {
            reveal_strlit("powderblue");
        }
        "powderblue"
    } else if i == 112 {
        proof {
            reveal_strlit("purple");
        }
        "purple"
    } else if i == 113 {
        proof {
            reveal_strlit("red");
        }
        "red"
    } else if i == 114 {
        proof {
            reveal_strlit("rosybrown");
        }
        "rosybrown"
    } else if i == 115 {
        proof {
            reveal_strlit("royalblue");
        }
        "royalblue"
    } else if i == 116 {
        proof {
            reveal_strlit("saddlebrown");
        }
        "saddlebrown"
    } else if i == 117 {
        proof {
            reveal_strlit("salmon");
        }
        "salmon"
    } else if i == 118 {
        proof {
            reveal_strlit("sandybrown");
        }
        "sandybrown"
    } else if i == 119 {
        proof {
            reveal_strlit("seagreen");
        }
        "seagreen"
    } else if i == 120 {
        proof {
            reveal_strlit("seashell");
        }
        "seashell"
    } else if i == 121 {
        proof {
            reveal_strlit("sienna");
        }
        "sienna"
    } else if i == 122 {
        proof {
            reveal_strlit("silver");
        }
        "silver"
    } else if i == 123 {
        proof {
            reveal_strlit("skyblue");
        }
        "skyblue"
    } else if i == 124 {
        proof {
            reveal_strlit("slateblue");
        }
        "slateblue"
    } else if i == 125 {
        proof {
            reveal_strlit("slategray");
        }
        "slategray"
    } else if i == 126 {
        proof {
            reveal_strlit("snow");
        }
        "snow"
    } else if i == 127 {
        proof {
            reveal_strlit("springgreen");
        }
        "springgreen"
    } else if i == 128 {
        proof {
            reveal_strlit("steelblue");
        }
        "steelblue"
    } else if i == 129 {
        proof {
            reveal_strlit("tan");
        }
        "tan"
    } else if i == 130 {
        proof {
            reveal_strlit("teal");
        }
        "teal"
    } else if i == 131 {
        proof {
            reveal_strlit("thistle");
        }
        "thistle"
    } else if i == 132 {
        proof {
            reveal_strlit("tomato");
        }
        "tomato"
    } else if i == 133 {
        proof {
            reveal_strlit("turquoise");
        }
        "turquoise"
    } else if i == 134 {
        proof {
            reveal_strlit("violet");
        }
        "violet"
    } else if i == 135 {
        proof {
            reveal_strlit("wheat");
        }
        "wheat"
    } else if i == 136 {
        proof {
            reveal_strlit("white");
        }
        "white"
    } else if i == 137 {
        proof {
            reveal_strlit("whitesmoke");
        }
        "whitesmoke"
    } else if i == 138 {
        proof {
            reveal_strlit("yellow");
        }
        "yellow"
    } else {
        proof {
            reveal_strlit("yellowgreen");
        }
        "yellowgreen"
    }
}

} // verus!
