//! Every color is found under each of its six names.
use vstd::prelude::*;
use crate::color_table::{
    Color, readable_name_spec, pascal_name_spec, lower_snake_spec, upper_snake_spec,
    uppercase_name_spec, lowercase_name_spec,
};
use crate::color_lookup::{normalize_name, named_color, lemma_lowercase_names_distinct};

verus! {

/// Each of the six names of `c` (readable, `PascalCase`, `lower_snake_case`,
/// `UPPER_SNAKE_CASE`, `UPPERCASE` and `lowercase`) reads as its lowercase name
/// once spaces and underscores are dropped and letters lowered.
pub open spec fn names_normalize(c: Color) -> bool {
    &&& normalize_name(readable_name_spec(c)) == lowercase_name_spec(c)
    &&& normalize_name(pascal_name_spec(c)) == lowercase_name_spec(c)
    &&& normalize_name(lower_snake_spec(c)) == lowercase_name_spec(c)
    &&& normalize_name(upper_snake_spec(c)) == lowercase_name_spec(c)
    &&& normalize_name(uppercase_name_spec(c)) == lowercase_name_spec(c)
    &&& normalize_name(lowercase_name_spec(c)) == lowercase_name_spec(c)
}

proof fn lemma_names_alice_blue()
    ensures
        normalize_name(readable_name_spec(Color::AliceBlue)) == lowercase_name_spec(Color::AliceBlue),
        normalize_name(pascal_name_spec(Color::AliceBlue)) == lowercase_name_spec(Color::AliceBlue),
        normalize_name(lower_snake_spec(Color::AliceBlue)) == lowercase_name_spec(Color::AliceBlue),
        normalize_name(upper_snake_spec(Color::AliceBlue)) == lowercase_name_spec(Color::AliceBlue),
        normalize_name(uppercase_name_spec(Color::AliceBlue)) == lowercase_name_spec(Color::AliceBlue),
        normalize_name(lowercase_name_spec(Color::AliceBlue)) == lowercase_name_spec(Color::AliceBlue),
{
    reveal_strlit("Alice Blue");
    reveal_strlit("AliceBlue");
    reveal_strlit("alice_blue");
    reveal_strlit("ALICE_BLUE");
    reveal_strlit("ALICEBLUE");
    reveal_with_fuel(normalize_name, 11);
}

proof fn lemma_names_antique_white()
    ensures
        normalize_name(readable_name_spec(Color::AntiqueWhite)) == lowercase_name_spec(Color::AntiqueWhite),
        normalize_name(pascal_name_spec(Color::AntiqueWhite)) == lowercase_name_spec(Color::AntiqueWhite),
        normalize_name(lower_snake_spec(Color::AntiqueWhite)) == lowercase_name_spec(Color::AntiqueWhite),
        normalize_name(upper_snake_spec(Color::AntiqueWhite)) == lowercase_name_spec(Color::AntiqueWhite),
        normalize_name(uppercase_name_spec(Color::AntiqueWhite)) == lowercase_name_spec(Color::AntiqueWhite),
        normalize_name(lowercase_name_spec(Color::AntiqueWhite)) == lowercase_name_spec(Color::AntiqueWhite),
{
    reveal_strlit("Antique White");
    reveal_strlit("AntiqueWhite");
    reveal_strlit("antique_white");
    reveal_strlit("ANTIQUE_WHITE");
    reveal_strlit("ANTIQUEWHITE");
    reveal_with_fuel(normalize_name, 14);
}

proof fn lemma_names_aqua()
    ensures
        normalize_name(readable_name_spec(Color::Aqua)) == lowercase_name_spec(Color::Aqua),
        normalize_name(pascal_name_spec(Color::Aqua)) == lowercase_name_spec(Color::Aqua),
        normalize_name(lower_snake_spec(Color::Aqua)) == lowercase_name_spec(Color::Aqua),
        normalize_name(upper_snake_spec(Color::Aqua)) == lowercase_name_spec(Color::Aqua),
        normalize_name(uppercase_name_spec(Color::Aqua)) == lowercase_name_spec(Color::Aqua),
        normalize_name(lowercase_name_spec(Color::Aqua)) == lowercase_name_spec(Color::Aqua),
{
    reveal_strlit("Aqua");
    reveal_strlit("Aqua");
    reveal_strlit("aqua");
    reveal_strlit("AQUA");
    reveal_strlit("AQUA");
    reveal_with_fuel(normalize_name, 5);
}

proof fn lemma_names_aquamarine()
    ensures
        normalize_name(readable_name_spec(Color::Aquamarine)) == lowercase_name_spec(Color::Aquamarine),
        normalize_name(pascal_name_spec(Color::Aquamarine)) == lowercase_name_spec(Color::Aquamarine),
        normalize_name(lower_snake_spec(Color::Aquamarine)) == lowercase_name_spec(Color::Aquamarine),
        normalize_name(upper_snake_spec(Color::Aquamarine)) == lowercase_name_spec(Color::Aquamarine),
        normalize_name(uppercase_name_spec(Color::Aquamarine)) == lowercase_name_spec(Color::Aquamarine),
        normalize_name(lowercase_name_spec(Color::Aquamarine)) == lowercase_name_spec(Color::Aquamarine),
{
    reveal_strlit("Aquamarine");
    reveal_strlit("Aquamarine");
    reveal_strlit("aquamarine");
    reveal_strlit("AQUAMARINE");
    reveal_strlit("AQUAMARINE");
    reveal_with_fuel(normalize_name, 11);
}

proof fn lemma_names_azure()
    ensures
        normalize_name(readable_name_spec(Color::Azure)) == lowercase_name_spec(Color::Azure),
        normalize_name(pascal_name_spec(Color::Azure)) == lowercase_name_spec(Color::Azure),
        normalize_name(lower_snake_spec(Color::Azure)) == lowercase_name_spec(Color::Azure),
        normalize_name(upper_snake_spec(Color::Azure)) == lowercase_name_spec(Color::Azure),
        normalize_name(uppercase_name_spec(Color::Azure)) == lowercase_name_spec(Color::Azure),
        normalize_name(lowercase_name_spec(Color::Azure)) == lowercase_name_spec(Color::Azure),
{
    reveal_strlit("Azure");
    reveal_strlit("Azure");
    reveal_strlit("azure");
    reveal_strlit("AZURE");
    reveal_strlit("AZURE");
    reveal_with_fuel(normalize_name, 6);
}

proof fn lemma_names_beige()
    ensures
        normalize_name(readable_name_spec(Color::Beige)) == lowercase_name_spec(Color::Beige),
        normalize_name(pascal_name_spec(Color::Beige)) == lowercase_name_spec(Color::Beige),
        normalize_name(lower_snake_spec(Color::Beige)) == lowercase_name_spec(Color::Beige),
        normalize_name(upper_snake_spec(Color::Beige)) == lowercase_name_spec(Color::Beige),
        normalize_name(uppercase_name_spec(Color::Beige)) == lowercase_name_spec(Color::Beige),
        normalize_name(lowercase_name_spec(Color::Beige)) == lowercase_name_spec(Color::Beige),
{
    reveal_strlit("Beige");
    reveal_strlit("Beige");
    reveal_strlit("beige");
    reveal_strlit("BEIGE");
    reveal_strlit("BEIGE");
    reveal_with_fuel(normalize_name, 6);
}

proof fn lemma_names_bisque()
    ensures
        normalize_name(readable_name_spec(Color::Bisque)) == lowercase_name_spec(Color::Bisque),
        normalize_name(pascal_name_spec(Color::Bisque)) == lowercase_name_spec(Color::Bisque),
        normalize_name(lower_snake_spec(Color::Bisque)) == lowercase_name_spec(Color::Bisque),
        normalize_name(upper_snake_spec(Color::Bisque)) == lowercase_name_spec(Color::Bisque),
        normalize_name(uppercase_name_spec(Color::Bisque)) == lowercase_name_spec(Color::Bisque),
        normalize_name(lowercase_name_spec(Color::Bisque)) == lowercase_name_spec(Color::Bisque),
{
    reveal_strlit("Bisque");
    reveal_strlit("Bisque");
    reveal_strlit("bisque");
    reveal_strlit("BISQUE");
    reveal_strlit("BISQUE");
    reveal_with_fuel(normalize_name, 7);
}

proof fn lemma_names_black()
    ensures
        normalize_name(readable_name_spec(Color::Black)) == lowercase_name_spec(Color::Black),
        normalize_name(pascal_name_spec(Color::Black)) == lowercase_name_spec(Color::Black),
        normalize_name(lower_snake_spec(Color::Black)) == lowercase_name_spec(Color::Black),
        normalize_name(upper_snake_spec(Color::Black)) == lowercase_name_spec(Color::Black),
        normalize_name(uppercase_name_spec(Color::Black)) == lowercase_name_spec(Color::Black),
        normalize_name(lowercase_name_spec(Color::Black)) == lowercase_name_spec(Color::Black),
{
    reveal_strlit("Black");
    reveal_strlit("Black");
    reveal_strlit("black");
    reveal_strlit("BLACK");
    reveal_strlit("BLACK");
    reveal_with_fuel(normalize_name, 6);
}

proof fn lemma_names_blanched_almond()
    ensures
        normalize_name(readable_name_spec(Color::BlanchedAlmond)) == lowercase_name_spec(Color::BlanchedAlmond),
        normalize_name(pascal_name_spec(Color::BlanchedAlmond)) == lowercase_name_spec(Color::BlanchedAlmond),
        normalize_name(lower_snake_spec(Color::BlanchedAlmond)) == lowercase_name_spec(Color::BlanchedAlmond),
        normalize_name(upper_snake_spec(Color::BlanchedAlmond)) == lowercase_name_spec(Color::BlanchedAlmond),
        normalize_name(uppercase_name_spec(Color::BlanchedAlmond)) == lowercase_name_spec(Color::BlanchedAlmond),
        normalize_name(lowercase_name_spec(Color::BlanchedAlmond)) == lowercase_name_spec(Color::BlanchedAlmond),
{
    reveal_strlit("Blanched Almond");
    reveal_strlit("BlanchedAlmond");
    reveal_strlit("blanched_almond");
    reveal_strlit("BLANCHED_ALMOND");
    reveal_strlit("BLANCHEDALMOND");
    reveal_with_fuel(normalize_name, 16);
}

proof fn lemma_names_blue()
    ensures
        normalize_name(readable_name_spec(Color::Blue)) == lowercase_name_spec(Color::Blue),
        normalize_name(pascal_name_spec(Color::Blue)) == lowercase_name_spec(Color::Blue),
        normalize_name(lower_snake_spec(Color::Blue)) == lowercase_name_spec(Color::Blue),
        normalize_name(upper_snake_spec(Color::Blue)) == lowercase_name_spec(Color::Blue),
        normalize_name(uppercase_name_spec(Color::Blue)) == lowercase_name_spec(Color::Blue),
        normalize_name(lowercase_name_spec(Color::Blue)) == lowercase_name_spec(Color::Blue),
{
    reveal_strlit("Blue");
    reveal_strlit("Blue");
    reveal_strlit("blue");
    reveal_strlit("BLUE");
    reveal_strlit("BLUE");
    reveal_with_fuel(normalize_name, 5);
}

proof fn lemma_names_blue_violet()
    ensures
        normalize_name(readable_name_spec(Color::BlueViolet)) == lowercase_name_spec(Color::BlueViolet),
        normalize_name(pascal_name_spec(Color::BlueViolet)) == lowercase_name_spec(Color::BlueViolet),
        normalize_name(lower_snake_spec(Color::BlueViolet)) == lowercase_name_spec(Color::BlueViolet),
        normalize_name(upper_snake_spec(Color::BlueViolet)) == lowercase_name_spec(Color::BlueViolet),
        normalize_name(uppercase_name_spec(Color::BlueViolet)) == lowercase_name_spec(Color::BlueViolet),
        normalize_name(lowercase_name_spec(Color::BlueViolet)) == lowercase_name_spec(Color::BlueViolet),
{
    reveal_strlit("Blue Violet");
    reveal_strlit("BlueViolet");
    reveal_strlit("blue_violet");
    reveal_strlit("BLUE_VIOLET");
    reveal_strlit("BLUEVIOLET");
    reveal_with_fuel(normalize_name, 12);
}

proof fn lemma_names_brown()
    ensures
        normalize_name(readable_name_spec(Color::Brown)) == lowercase_name_spec(Color::Brown),
        normalize_name(pascal_name_spec(Color::Brown)) == lowercase_name_spec(Color::Brown),
        normalize_name(lower_snake_spec(Color::Brown)) == lowercase_name_spec(Color::Brown),
        normalize_name(upper_snake_spec(Color::Brown)) == lowercase_name_spec(Color::Brown),
        normalize_name(uppercase_name_spec(Color::Brown)) == lowercase_name_spec(Color::Brown),
        normalize_name(lowercase_name_spec(Color::Brown)) == lowercase_name_spec(Color::Brown),
{
    reveal_strlit("Brown");
    reveal_strlit("Brown");
    reveal_strlit("brown");
    reveal_strlit("BROWN");
    reveal_strlit("BROWN");
    reveal_with_fuel(normalize_name, 6);
}

proof fn lemma_names_burly_wood()
    ensures
        normalize_name(readable_name_spec(Color::BurlyWood)) == lowercase_name_spec(Color::BurlyWood),
        normalize_name(pascal_name_spec(Color::BurlyWood)) == lowercase_name_spec(Color::BurlyWood),
        normalize_name(lower_snake_spec(Color::BurlyWood)) == lowercase_name_spec(Color::BurlyWood),
        normalize_name(upper_snake_spec(Color::BurlyWood)) == lowercase_name_spec(Color::BurlyWood),
        normalize_name(uppercase_name_spec(Color::BurlyWood)) == lowercase_name_spec(Color::BurlyWood),
        normalize_name(lowercase_name_spec(Color::BurlyWood)) == lowercase_name_spec(Color::BurlyWood),
{
    reveal_strlit("Burly Wood");
    reveal_strlit("BurlyWood");
    reveal_strlit("burly_wood");
    reveal_strlit("BURLY_WOOD");
    reveal_strlit("BURLYWOOD");
    reveal_with_fuel(normalize_name, 11);
}

proof fn lemma_names_cadet_blue()
    ensures
        normalize_name(readable_name_spec(Color::CadetBlue)) == lowercase_name_spec(Color::CadetBlue),
        normalize_name(pascal_name_spec(Color::CadetBlue)) == lowercase_name_spec(Color::CadetBlue),
        normalize_name(lower_snake_spec(Color::CadetBlue)) == lowercase_name_spec(Color::CadetBlue),
        normalize_name(upper_snake_spec(Color::CadetBlue)) == lowercase_name_spec(Color::CadetBlue),
        normalize_name(uppercase_name_spec(Color::CadetBlue)) == lowercase_name_spec(Color::CadetBlue),
        normalize_name(lowercase_name_spec(Color::CadetBlue)) == lowercase_name_spec(Color::CadetBlue),
{
    reveal_strlit("Cadet Blue");
    reveal_strlit("CadetBlue");
    reveal_strlit("cadet_blue");
    reveal_strlit("CADET_BLUE");
    reveal_strlit("CADETBLUE");
    reveal_with_fuel(normalize_name, 11);
}

proof fn lemma_names_chartreuse()
    ensures
        normalize_name(readable_name_spec(Color::Chartreuse)) == lowercase_name_spec(Color::Chartreuse),
        normalize_name(pascal_name_spec(Color::Chartreuse)) == lowercase_name_spec(Color::Chartreuse),
        normalize_name(lower_snake_spec(Color::Chartreuse)) == lowercase_name_spec(Color::Chartreuse),
        normalize_name(upper_snake_spec(Color::Chartreuse)) == lowercase_name_spec(Color::Chartreuse),
        normalize_name(uppercase_name_spec(Color::Chartreuse)) == lowercase_name_spec(Color::Chartreuse),
        normalize_name(lowercase_name_spec(Color::Chartreuse)) == lowercase_name_spec(Color::Chartreuse),
{
    reveal_strlit("Chartreuse");
    reveal_strlit("Chartreuse");
    reveal_strlit("chartreuse");
    reveal_strlit("CHARTREUSE");
    reveal_strlit("CHARTREUSE");
    reveal_with_fuel(normalize_name, 11);
}

proof fn lemma_names_chocolate()
    ensures
        normalize_name(readable_name_spec(Color::Chocolate)) == lowercase_name_spec(Color::Chocolate),
        normalize_name(pascal_name_spec(Color::Chocolate)) == lowercase_name_spec(Color::Chocolate),
        normalize_name(lower_snake_spec(Color::Chocolate)) == lowercase_name_spec(Color::Chocolate),
        normalize_name(upper_snake_spec(Color::Chocolate)) == lowercase_name_spec(Color::Chocolate),
        normalize_name(uppercase_name_spec(Color::Chocolate)) == lowercase_name_spec(Color::Chocolate),
        normalize_name(lowercase_name_spec(Color::Chocolate)) == lowercase_name_spec(Color::Chocolate),
{
    reveal_strlit("Chocolate");
    reveal_strlit("Chocolate");
    reveal_strlit("chocolate");
    reveal_strlit("CHOCOLATE");
    reveal_strlit("CHOCOLATE");
    reveal_with_fuel(normalize_name, 10);
}

proof fn lemma_names_coral()
    ensures
        normalize_name(readable_name_spec(Color::Coral)) == lowercase_name_spec(Color::Coral),
        normalize_name(pascal_name_spec(Color::Coral)) == lowercase_name_spec(Color::Coral),
        normalize_name(lower_snake_spec(Color::Coral)) == lowercase_name_spec(Color::Coral),
        normalize_name(upper_snake_spec(Color::Coral)) == lowercase_name_spec(Color::Coral),
        normalize_name(uppercase_name_spec(Color::Coral)) == lowercase_name_spec(Color::Coral),
        normalize_name(lowercase_name_spec(Color::Coral)) == lowercase_name_spec(Color::Coral),
{
    reveal_strlit("Coral");
    reveal_strlit("Coral");
    reveal_strlit("coral");
    reveal_strlit("CORAL");
    reveal_strlit("CORAL");
    reveal_with_fuel(normalize_name, 6);
}

proof fn lemma_names_cornflower_blue()
    ensures
        normalize_name(readable_name_spec(Color::CornflowerBlue)) == lowercase_name_spec(Color::CornflowerBlue),
        normalize_name(pascal_name_spec(Color::CornflowerBlue)) == lowercase_name_spec(Color::CornflowerBlue),
        normalize_name(lower_snake_spec(Color::CornflowerBlue)) == lowercase_name_spec(Color::CornflowerBlue),
        normalize_name(upper_snake_spec(Color::CornflowerBlue)) == lowercase_name_spec(Color::CornflowerBlue),
        normalize_name(uppercase_name_spec(Color::CornflowerBlue)) == lowercase_name_spec(Color::CornflowerBlue),
        normalize_name(lowercase_name_spec(Color::CornflowerBlue)) == lowercase_name_spec(Color::CornflowerBlue),
{
    reveal_strlit("Cornflower Blue");
    reveal_strlit("CornflowerBlue");
    reveal_strlit("cornflower_blue");
    reveal_strlit("CORNFLOWER_BLUE");
    reveal_strlit("CORNFLOWERBLUE");
    reveal_with_fuel(normalize_name, 16);
}

proof fn lemma_names_cornsilk()
    ensures
        normalize_name(readable_name_spec(Color::Cornsilk)) == lowercase_name_spec(Color::Cornsilk),
        normalize_name(pascal_name_spec(Color::Cornsilk)) == lowercase_name_spec(Color::Cornsilk),
        normalize_name(lower_snake_spec(Color::Cornsilk)) == lowercase_name_spec(Color::Cornsilk),
        normalize_name(upper_snake_spec(Color::Cornsilk)) == lowercase_name_spec(Color::Cornsilk),
        normalize_name(uppercase_name_spec(Color::Cornsilk)) == lowercase_name_spec(Color::Cornsilk),
        normalize_name(lowercase_name_spec(Color::Cornsilk)) == lowercase_name_spec(Color::Cornsilk),
{
    reveal_strlit("Cornsilk");
    reveal_strlit("Cornsilk");
    reveal_strlit("cornsilk");
    reveal_strlit("CORNSILK");
    reveal_strlit("CORNSILK");
    reveal_with_fuel(normalize_name, 9);
}

proof fn lemma_names_crimson()
    ensures
        normalize_name(readable_name_spec(Color::Crimson)) == lowercase_name_spec(Color::Crimson),
        normalize_name(pascal_name_spec(Color::Crimson)) == lowercase_name_spec(Color::Crimson),
        normalize_name(lower_snake_spec(Color::Crimson)) == lowercase_name_spec(Color::Crimson),
        normalize_name(upper_snake_spec(Color::Crimson)) == lowercase_name_spec(Color::Crimson),
        normalize_name(uppercase_name_spec(Color::Crimson)) == lowercase_name_spec(Color::Crimson),
        normalize_name(lowercase_name_spec(Color::Crimson)) == lowercase_name_spec(Color::Crimson),
{
    reveal_strlit("Crimson");
    reveal_strlit("Crimson");
    reveal_strlit("crimson");
    reveal_strlit("CRIMSON");
    reveal_strlit("CRIMSON");
    reveal_with_fuel(normalize_name, 8);
}

proof fn lemma_names_cyan()
    ensures
        normalize_name(readable_name_spec(Color::Cyan)) == lowercase_name_spec(Color::Cyan),
        normalize_name(pascal_name_spec(Color::Cyan)) == lowercase_name_spec(Color::Cyan),
        normalize_name(lower_snake_spec(Color::Cyan)) == lowercase_name_spec(Color::Cyan),
        normalize_name(upper_snake_spec(Color::Cyan)) == lowercase_name_spec(Color::Cyan),
        normalize_name(uppercase_name_spec(Color::Cyan)) == lowercase_name_spec(Color::Cyan),
        normalize_name(lowercase_name_spec(Color::Cyan)) == lowercase_name_spec(Color::Cyan),
{
    reveal_strlit("Cyan");
    reveal_strlit("Cyan");
    reveal_strlit("cyan");
    reveal_strlit("CYAN");
    reveal_strlit("CYAN");
    reveal_with_fuel(normalize_name, 5);
}

proof fn lemma_names_dark_blue()
    ensures
        normalize_name(readable_name_spec(Color::DarkBlue)) == lowercase_name_spec(Color::DarkBlue),
        normalize_name(pascal_name_spec(Color::DarkBlue)) == lowercase_name_spec(Color::DarkBlue),
        normalize_name(lower_snake_spec(Color::DarkBlue)) == lowercase_name_spec(Color::DarkBlue),
        normalize_name(upper_snake_spec(Color::DarkBlue)) == lowercase_name_spec(Color::DarkBlue),
        normalize_name(uppercase_name_spec(Color::DarkBlue)) == lowercase_name_spec(Color::DarkBlue),
        normalize_name(lowercase_name_spec(Color::DarkBlue)) == lowercase_name_spec(Color::DarkBlue),
{
    reveal_strlit("Dark Blue");
    reveal_strlit("DarkBlue");
    reveal_strlit("dark_blue");
    reveal_strlit("DARK_BLUE");
    reveal_strlit("DARKBLUE");
    reveal_with_fuel(normalize_name, 10);
}

proof fn lemma_names_dark_cyan()
    ensures
        normalize_name(readable_name_spec(Color::DarkCyan)) == lowercase_name_spec(Color::DarkCyan),
        normalize_name(pascal_name_spec(Color::DarkCyan)) == lowercase_name_spec(Color::DarkCyan),
        normalize_name(lower_snake_spec(Color::DarkCyan)) == lowercase_name_spec(Color::DarkCyan),
        normalize_name(upper_snake_spec(Color::DarkCyan)) == lowercase_name_spec(Color::DarkCyan),
        normalize_name(uppercase_name_spec(Color::DarkCyan)) == lowercase_name_spec(Color::DarkCyan),
        normalize_name(lowercase_name_spec(Color::DarkCyan)) == lowercase_name_spec(Color::DarkCyan),
{
    reveal_strlit("Dark Cyan");
    reveal_strlit("DarkCyan");
    reveal_strlit("dark_cyan");
    reveal_strlit("DARK_CYAN");
    reveal_strlit("DARKCYAN");
    reveal_with_fuel(normalize_name, 10);
}

proof fn lemma_names_dark_golden_rod()
    ensures
        normalize_name(readable_name_spec(Color::DarkGoldenRod)) == lowercase_name_spec(Color::DarkGoldenRod),
        normalize_name(pascal_name_spec(Color::DarkGoldenRod)) == lowercase_name_spec(Color::DarkGoldenRod),
        normalize_name(lower_snake_spec(Color::DarkGoldenRod)) == lowercase_name_spec(Color::DarkGoldenRod),
        normalize_name(upper_snake_spec(Color::DarkGoldenRod)) == lowercase_name_spec(Color::DarkGoldenRod),
        normalize_name(uppercase_name_spec(Color::DarkGoldenRod)) == lowercase_name_spec(Color::DarkGoldenRod),
        normalize_name(lowercase_name_spec(Color::DarkGoldenRod)) == lowercase_name_spec(Color::DarkGoldenRod),
{
    reveal_strlit("Dark Golden Rod");
    reveal_strlit("DarkGoldenRod");
    reveal_strlit("dark_golden_rod");
    reveal_strlit("DARK_GOLDEN_ROD");
    reveal_strlit("DARKGOLDENROD");
    reveal_with_fuel(normalize_name, 16);
}

proof fn lemma_names_dark_gray()
    ensures
        normalize_name(readable_name_spec(Color::DarkGray)) == lowercase_name_spec(Color::DarkGray),
        normalize_name(pascal_name_spec(Color::DarkGray)) == lowercase_name_spec(Color::DarkGray),
        normalize_name(lower_snake_spec(Color::DarkGray)) == lowercase_name_spec(Color::DarkGray),
        normalize_name(upper_snake_spec(Color::DarkGray)) == lowercase_name_spec(Color::DarkGray),
        normalize_name(uppercase_name_spec(Color::DarkGray)) == lowercase_name_spec(Color::DarkGray),
        normalize_name(lowercase_name_spec(Color::DarkGray)) == lowercase_name_spec(Color::DarkGray),
{
    reveal_strlit("Dark Gray");
    reveal_strlit("DarkGray");
    reveal_strlit("dark_gray");
    reveal_strlit("DARK_GRAY");
    reveal_strlit("DARKGRAY");
    reveal_with_fuel(normalize_name, 10);
}

proof fn lemma_names_dark_green()
    ensures
        normalize_name(readable_name_spec(Color::DarkGreen)) == lowercase_name_spec(Color::DarkGreen),
        normalize_name(pascal_name_spec(Color::DarkGreen)) == lowercase_name_spec(Color::DarkGreen),
        normalize_name(lower_snake_spec(Color::DarkGreen)) == lowercase_name_spec(Color::DarkGreen),
        normalize_name(upper_snake_spec(Color::DarkGreen)) == lowercase_name_spec(Color::DarkGreen),
        normalize_name(uppercase_name_spec(Color::DarkGreen)) == lowercase_name_spec(Color::DarkGreen),
        normalize_name(lowercase_name_spec(Color::DarkGreen)) == lowercase_name_spec(Color::DarkGreen),
{
    reveal_strlit("Dark Green");
    reveal_strlit("DarkGreen");
    reveal_strlit("dark_green");
    reveal_strlit("DARK_GREEN");
    reveal_strlit("DARKGREEN");
    reveal_with_fuel(normalize_name, 11);
}

proof fn lemma_names_dark_khaki()
    ensures
        normalize_name(readable_name_spec(Color::DarkKhaki)) == lowercase_name_spec(Color::DarkKhaki),
        normalize_name(pascal_name_spec(Color::DarkKhaki)) == lowercase_name_spec(Color::DarkKhaki),
        normalize_name(lower_snake_spec(Color::DarkKhaki)) == lowercase_name_spec(Color::DarkKhaki),
        normalize_name(upper_snake_spec(Color::DarkKhaki)) == lowercase_name_spec(Color::DarkKhaki),
        normalize_name(uppercase_name_spec(Color::DarkKhaki)) == lowercase_name_spec(Color::DarkKhaki),
        normalize_name(lowercase_name_spec(Color::DarkKhaki)) == lowercase_name_spec(Color::DarkKhaki),
{
    reveal_strlit("Dark Khaki");
    reveal_strlit("DarkKhaki");
    reveal_strlit("dark_khaki");
    reveal_strlit("DARK_KHAKI");
    reveal_strlit("DARKKHAKI");
    reveal_with_fuel(normalize_name, 11);
}

proof fn lemma_names_dark_magenta()
    ensures
        normalize_name(readable_name_spec(Color::DarkMagenta)) == lowercase_name_spec(Color::DarkMagenta),
        normalize_name(pascal_name_spec(Color::DarkMagenta)) == lowercase_name_spec(Color::DarkMagenta),
        normalize_name(lower_snake_spec(Color::DarkMagenta)) == lowercase_name_spec(Color::DarkMagenta),
        normalize_name(upper_snake_spec(Color::DarkMagenta)) == lowercase_name_spec(Color::DarkMagenta),
        normalize_name(uppercase_name_spec(Color::DarkMagenta)) == lowercase_name_spec(Color::DarkMagenta),
        normalize_name(lowercase_name_spec(Color::DarkMagenta)) == lowercase_name_spec(Color::DarkMagenta),
{
    reveal_strlit("Dark Magenta");
    reveal_strlit("DarkMagenta");
    reveal_strlit("dark_magenta");
    reveal_strlit("DARK_MAGENTA");
    reveal_strlit("DARKMAGENTA");
    reveal_with_fuel(normalize_name, 13);
}

proof fn lemma_names_dark_olive_green()
    ensures
        normalize_name(readable_name_spec(Color::DarkOliveGreen)) == lowercase_name_spec(Color::DarkOliveGreen),
        normalize_name(pascal_name_spec(Color::DarkOliveGreen)) == lowercase_name_spec(Color::DarkOliveGreen),
        normalize_name(lower_snake_spec(Color::DarkOliveGreen)) == lowercase_name_spec(Color::DarkOliveGreen),
        normalize_name(upper_snake_spec(Color::DarkOliveGreen)) == lowercase_name_spec(Color::DarkOliveGreen),
        normalize_name(uppercase_name_spec(Color::DarkOliveGreen)) == lowercase_name_spec(Color::DarkOliveGreen),
        normalize_name(lowercase_name_spec(Color::DarkOliveGreen)) == lowercase_name_spec(Color::DarkOliveGreen),
{
    reveal_strlit("Dark Olive Green");
    reveal_strlit("DarkOliveGreen");
    reveal_strlit("dark_olive_green");
    reveal_strlit("DARK_OLIVE_GREEN");
    reveal_strlit("DARKOLIVEGREEN");
    reveal_with_fuel(normalize_name, 17);
}

proof fn lemma_names_dark_orange()
    ensures
        normalize_name(readable_name_spec(Color::DarkOrange)) == lowercase_name_spec(Color::DarkOrange),
        normalize_name(pascal_name_spec(Color::DarkOrange)) == lowercase_name_spec(Color::DarkOrange),
        normalize_name(lower_snake_spec(Color::DarkOrange)) == lowercase_name_spec(Color::DarkOrange),
        normalize_name(upper_snake_spec(Color::DarkOrange)) == lowercase_name_spec(Color::DarkOrange),
        normalize_name(uppercase_name_spec(Color::DarkOrange)) == lowercase_name_spec(Color::DarkOrange),
        normalize_name(lowercase_name_spec(Color::DarkOrange)) == lowercase_name_spec(Color::DarkOrange),
{
    reveal_strlit("Dark Orange");
    reveal_strlit("DarkOrange");
    reveal_strlit("dark_orange");
    reveal_strlit("DARK_ORANGE");
    reveal_strlit("DARKORANGE");
    reveal_with_fuel(normalize_name, 12);
}

proof fn lemma_names_dark_orchid()
    ensures
        normalize_name(readable_name_spec(Color::DarkOrchid)) == lowercase_name_spec(Color::DarkOrchid),
        normalize_name(pascal_name_spec(Color::DarkOrchid)) == lowercase_name_spec(Color::DarkOrchid),
        normalize_name(lower_snake_spec(Color::DarkOrchid)) == lowercase_name_spec(Color::DarkOrchid),
        normalize_name(upper_snake_spec(Color::DarkOrchid)) == lowercase_name_spec(Color::DarkOrchid),
        normalize_name(uppercase_name_spec(Color::DarkOrchid)) == lowercase_name_spec(Color::DarkOrchid),
        normalize_name(lowercase_name_spec(Color::DarkOrchid)) == lowercase_name_spec(Color::DarkOrchid),
{
    reveal_strlit("Dark Orchid");
    reveal_strlit("DarkOrchid");
    reveal_strlit("dark_orchid");
    reveal_strlit("DARK_ORCHID");
    reveal_strlit("DARKORCHID");
    reveal_with_fuel(normalize_name, 12);
}

proof fn lemma_names_dark_red()
    ensures
        normalize_name(readable_name_spec(Color::DarkRed)) == lowercase_name_spec(Color::DarkRed),
        normalize_name(pascal_name_spec(Color::DarkRed)) == lowercase_name_spec(Color::DarkRed),
        normalize_name(lower_snake_spec(Color::DarkRed)) == lowercase_name_spec(Color::DarkRed),
        normalize_name(upper_snake_spec(Color::DarkRed)) == lowercase_name_spec(Color::DarkRed),
        normalize_name(uppercase_name_spec(Color::DarkRed)) == lowercase_name_spec(Color::DarkRed),
        normalize_name(lowercase_name_spec(Color::DarkRed)) == lowercase_name_spec(Color::DarkRed),
{
    reveal_strlit("Dark Red");
    reveal_strlit("DarkRed");
    reveal_strlit("dark_red");
    reveal_strlit("DARK_RED");
    reveal_strlit("DARKRED");
    reveal_with_fuel(normalize_name, 9);
}

proof fn lemma_names_dark_salmon()
    ensures
        normalize_name(readable_name_spec(Color::DarkSalmon)) == lowercase_name_spec(Color::DarkSalmon),
        normalize_name(pascal_name_spec(Color::DarkSalmon)) == lowercase_name_spec(Color::DarkSalmon),
        normalize_name(lower_snake_spec(Color::DarkSalmon)) == lowercase_name_spec(Color::DarkSalmon),
        normalize_name(upper_snake_spec(Color::DarkSalmon)) == lowercase_name_spec(Color::DarkSalmon),
        normalize_name(uppercase_name_spec(Color::DarkSalmon)) == lowercase_name_spec(Color::DarkSalmon),
        normalize_name(lowercase_name_spec(Color::DarkSalmon)) == lowercase_name_spec(Color::DarkSalmon),
{
    reveal_strlit("Dark Salmon");
    reveal_strlit("DarkSalmon");
    reveal_strlit("dark_salmon");
    reveal_strlit("DARK_SALMON");
    reveal_strlit("DARKSALMON");
    reveal_with_fuel(normalize_name, 12);
}

proof fn lemma_names_dark_sea_green()
    ensures
        normalize_name(readable_name_spec(Color::DarkSeaGreen)) == lowercase_name_spec(Color::DarkSeaGreen),
        normalize_name(pascal_name_spec(Color::DarkSeaGreen)) == lowercase_name_spec(Color::DarkSeaGreen),
        normalize_name(lower_snake_spec(Color::DarkSeaGreen)) == lowercase_name_spec(Color::DarkSeaGreen),
        normalize_name(upper_snake_spec(Color::DarkSeaGreen)) == lowercase_name_spec(Color::DarkSeaGreen),
        normalize_name(uppercase_name_spec(Color::DarkSeaGreen)) == lowercase_name_spec(Color::DarkSeaGreen),
        normalize_name(lowercase_name_spec(Color::DarkSeaGreen)) == lowercase_name_spec(Color::DarkSeaGreen),
{
    reveal_strlit("Dark Sea Green");
    reveal_strlit("DarkSeaGreen");
    reveal_strlit("dark_sea_green");
    reveal_strlit("DARK_SEA_GREEN");
    reveal_strlit("DARKSEAGREEN");
    reveal_with_fuel(normalize_name, 15);
}

proof fn lemma_names_dark_slate_blue()
    ensures
        normalize_name(readable_name_spec(Color::DarkSlateBlue)) == lowercase_name_spec(Color::DarkSlateBlue),
        normalize_name(pascal_name_spec(Color::DarkSlateBlue)) == lowercase_name_spec(Color::DarkSlateBlue),
        normalize_name(lower_snake_spec(Color::DarkSlateBlue)) == lowercase_name_spec(Color::DarkSlateBlue),
        normalize_name(upper_snake_spec(Color::DarkSlateBlue)) == lowercase_name_spec(Color::DarkSlateBlue),
        normalize_name(uppercase_name_spec(Color::DarkSlateBlue)) == lowercase_name_spec(Color::DarkSlateBlue),
        normalize_name(lowercase_name_spec(Color::DarkSlateBlue)) == lowercase_name_spec(Color::DarkSlateBlue),
{
    reveal_strlit("Dark Slate Blue");
    reveal_strlit("DarkSlateBlue");
    reveal_strlit("dark_slate_blue");
    reveal_strlit("DARK_SLATE_BLUE");
    reveal_strlit("DARKSLATEBLUE");
    reveal_with_fuel(normalize_name, 16);
}

proof fn lemma_names_dark_slate_gray()
    ensures
        normalize_name(readable_name_spec(Color::DarkSlateGray)) == lowercase_name_spec(Color::DarkSlateGray),
        normalize_name(pascal_name_spec(Color::DarkSlateGray)) == lowercase_name_spec(Color::DarkSlateGray),
        normalize_name(lower_snake_spec(Color::DarkSlateGray)) == lowercase_name_spec(Color::DarkSlateGray),
        normalize_name(upper_snake_spec(Color::DarkSlateGray)) == lowercase_name_spec(Color::DarkSlateGray),
        normalize_name(uppercase_name_spec(Color::DarkSlateGray)) == lowercase_name_spec(Color::DarkSlateGray),
        normalize_name(lowercase_name_spec(Color::DarkSlateGray)) == lowercase_name_spec(Color::DarkSlateGray),
{
    reveal_strlit("Dark Slate Gray");
    reveal_strlit("DarkSlateGray");
    reveal_strlit("dark_slate_gray");
    reveal_strlit("DARK_SLATE_GRAY");
    reveal_strlit("DARKSLATEGRAY");
    reveal_with_fuel(normalize_name, 16);
}

proof fn lemma_names_dark_turquoise()
    ensures
        normalize_name(readable_name_spec(Color::DarkTurquoise)) == lowercase_name_spec(Color::DarkTurquoise),
        normalize_name(pascal_name_spec(Color::DarkTurquoise)) == lowercase_name_spec(Color::DarkTurquoise),
        normalize_name(lower_snake_spec(Color::DarkTurquoise)) == lowercase_name_spec(Color::DarkTurquoise),
        normalize_name(upper_snake_spec(Color::DarkTurquoise)) == lowercase_name_spec(Color::DarkTurquoise),
        normalize_name(uppercase_name_spec(Color::DarkTurquoise)) == lowercase_name_spec(Color::DarkTurquoise),
        normalize_name(lowercase_name_spec(Color::DarkTurquoise)) == lowercase_name_spec(Color::DarkTurquoise),
{
    reveal_strlit("Dark Turquoise");
    reveal_strlit("DarkTurquoise");
    reveal_strlit("dark_turquoise");
    reveal_strlit("DARK_TURQUOISE");
    reveal_strlit("DARKTURQUOISE");
    reveal_with_fuel(normalize_name, 15);
}

proof fn lemma_names_dark_violet()
    ensures
        normalize_name(readable_name_spec(Color::DarkViolet)) == lowercase_name_spec(Color::DarkViolet),
        normalize_name(pascal_name_spec(Color::DarkViolet)) == lowercase_name_spec(Color::DarkViolet),
        normalize_name(lower_snake_spec(Color::DarkViolet)) == lowercase_name_spec(Color::DarkViolet),
        normalize_name(upper_snake_spec(Color::DarkViolet)) == lowercase_name_spec(Color::DarkViolet),
        normalize_name(uppercase_name_spec(Color::DarkViolet)) == lowercase_name_spec(Color::DarkViolet),
        normalize_name(lowercase_name_spec(Color::DarkViolet)) == lowercase_name_spec(Color::DarkViolet),
{
    reveal_strlit("Dark Violet");
    reveal_strlit("DarkViolet");
    reveal_strlit("dark_violet");
    reveal_strlit("DARK_VIOLET");
    reveal_strlit("DARKVIOLET");
    reveal_with_fuel(normalize_name, 12);
}

proof fn lemma_names_deep_pink()
    ensures
        normalize_name(readable_name_spec(Color::DeepPink)) == lowercase_name_spec(Color::DeepPink),
        normalize_name(pascal_name_spec(Color::DeepPink)) == lowercase_name_spec(Color::DeepPink),
        normalize_name(lower_snake_spec(Color::DeepPink)) == lowercase_name_spec(Color::DeepPink),
        normalize_name(upper_snake_spec(Color::DeepPink)) == lowercase_name_spec(Color::DeepPink),
        normalize_name(uppercase_name_spec(Color::DeepPink)) == lowercase_name_spec(Color::DeepPink),
        normalize_name(lowercase_name_spec(Color::DeepPink)) == lowercase_name_spec(Color::DeepPink),
{
    reveal_strlit("Deep Pink");
    reveal_strlit("DeepPink");
    reveal_strlit("deep_pink");
    reveal_strlit("DEEP_PINK");
    reveal_strlit("DEEPPINK");
    reveal_with_fuel(normalize_name, 10);
}

proof fn lemma_names_deep_sky_blue()
    ensures
        normalize_name(readable_name_spec(Color::DeepSkyBlue)) == lowercase_name_spec(Color::DeepSkyBlue),
        normalize_name(pascal_name_spec(Color::DeepSkyBlue)) == lowercase_name_spec(Color::DeepSkyBlue),
        normalize_name(lower_snake_spec(Color::DeepSkyBlue)) == lowercase_name_spec(Color::DeepSkyBlue),
        normalize_name(upper_snake_spec(Color::DeepSkyBlue)) == lowercase_name_spec(Color::DeepSkyBlue),
        normalize_name(uppercase_name_spec(Color::DeepSkyBlue)) == lowercase_name_spec(Color::DeepSkyBlue),
        normalize_name(lowercase_name_spec(Color::DeepSkyBlue)) == lowercase_name_spec(Color::DeepSkyBlue),
{
    reveal_strlit("Deep Sky Blue");
    reveal_strlit("DeepSkyBlue");
    reveal_strlit("deep_sky_blue");
    reveal_strlit("DEEP_SKY_BLUE");
    reveal_strlit("DEEPSKYBLUE");
    reveal_with_fuel(normalize_name, 14);
}

proof fn lemma_names_dim_gray()
    ensures
        normalize_name(readable_name_spec(Color::DimGray)) == lowercase_name_spec(Color::DimGray),
        normalize_name(pascal_name_spec(Color::DimGray)) == lowercase_name_spec(Color::DimGray),
        normalize_name(lower_snake_spec(Color::DimGray)) == lowercase_name_spec(Color::DimGray),
        normalize_name(upper_snake_spec(Color::DimGray)) == lowercase_name_spec(Color::DimGray),
        normalize_name(uppercase_name_spec(Color::DimGray)) == lowercase_name_spec(Color::DimGray),
        normalize_name(lowercase_name_spec(Color::DimGray)) == lowercase_name_spec(Color::DimGray),
{
    reveal_strlit("Dim Gray");
    reveal_strlit("DimGray");
    reveal_strlit("dim_gray");
    reveal_strlit("DIM_GRAY");
    reveal_strlit("DIMGRAY");
    reveal_with_fuel(normalize_name, 9);
}

proof fn lemma_names_dodger_blue()
    ensures
        normalize_name(readable_name_spec(Color::DodgerBlue)) == lowercase_name_spec(Color::DodgerBlue),
        normalize_name(pascal_name_spec(Color::DodgerBlue)) == lowercase_name_spec(Color::DodgerBlue),
        normalize_name(lower_snake_spec(Color::DodgerBlue)) == lowercase_name_spec(Color::DodgerBlue),
        normalize_name(upper_snake_spec(Color::DodgerBlue)) == lowercase_name_spec(Color::DodgerBlue),
        normalize_name(uppercase_name_spec(Color::DodgerBlue)) == lowercase_name_spec(Color::DodgerBlue),
        normalize_name(lowercase_name_spec(Color::DodgerBlue)) == lowercase_name_spec(Color::DodgerBlue),
{
    reveal_strlit("Dodger Blue");
    reveal_strlit("DodgerBlue");
    reveal_strlit("dodger_blue");
    reveal_strlit("DODGER_BLUE");
    reveal_strlit("DODGERBLUE");
    reveal_with_fuel(normalize_name, 12);
}

proof fn lemma_names_fire_brick()
    ensures
        normalize_name(readable_name_spec(Color::FireBrick)) == lowercase_name_spec(Color::FireBrick),
        normalize_name(pascal_name_spec(Color::FireBrick)) == lowercase_name_spec(Color::FireBrick),
        normalize_name(lower_snake_spec(Color::FireBrick)) == lowercase_name_spec(Color::FireBrick),
        normalize_name(upper_snake_spec(Color::FireBrick)) == lowercase_name_spec(Color::FireBrick),
        normalize_name(uppercase_name_spec(Color::FireBrick)) == lowercase_name_spec(Color::FireBrick),
        normalize_name(lowercase_name_spec(Color::FireBrick)) == lowercase_name_spec(Color::FireBrick),
{
    reveal_strlit("Fire Brick");
    reveal_strlit("FireBrick");
    reveal_strlit("fire_brick");
    reveal_strlit("FIRE_BRICK");
    reveal_strlit("FIREBRICK");
    reveal_with_fuel(normalize_name, 11);
}

proof fn lemma_names_floral_white()
    ensures
        normalize_name(readable_name_spec(Color::FloralWhite)) == lowercase_name_spec(Color::FloralWhite),
        normalize_name(pascal_name_spec(Color::FloralWhite)) == lowercase_name_spec(Color::FloralWhite),
        normalize_name(lower_snake_spec(Color::FloralWhite)) == lowercase_name_spec(Color::FloralWhite),
        normalize_name(upper_snake_spec(Color::FloralWhite)) == lowercase_name_spec(Color::FloralWhite),
        normalize_name(uppercase_name_spec(Color::FloralWhite)) == lowercase_name_spec(Color::FloralWhite),
        normalize_name(lowercase_name_spec(Color::FloralWhite)) == lowercase_name_spec(Color::FloralWhite),
{
    reveal_strlit("Floral White");
    reveal_strlit("FloralWhite");
    reveal_strlit("floral_white");
    reveal_strlit("FLORAL_WHITE");
    reveal_strlit("FLORALWHITE");
    reveal_with_fuel(normalize_name, 13);
}

proof fn lemma_names_forest_green()
    ensures
        normalize_name(readable_name_spec(Color::ForestGreen)) == lowercase_name_spec(Color::ForestGreen),
        normalize_name(pascal_name_spec(Color::ForestGreen)) == lowercase_name_spec(Color::ForestGreen),
        normalize_name(lower_snake_spec(Color::ForestGreen)) == lowercase_name_spec(Color::ForestGreen),
        normalize_name(upper_snake_spec(Color::ForestGreen)) == lowercase_name_spec(Color::ForestGreen),
        normalize_name(uppercase_name_spec(Color::ForestGreen)) == lowercase_name_spec(Color::ForestGreen),
        normalize_name(lowercase_name_spec(Color::ForestGreen)) == lowercase_name_spec(Color::ForestGreen),
{
    reveal_strlit("Forest Green");
    reveal_strlit("ForestGreen");
    reveal_strlit("forest_green");
    reveal_strlit("FOREST_GREEN");
    reveal_strlit("FORESTGREEN");
    reveal_with_fuel(normalize_name, 13);
}

proof fn lemma_names_fuchsia()
    ensures
        normalize_name(readable_name_spec(Color::Fuchsia)) == lowercase_name_spec(Color::Fuchsia),
        normalize_name(pascal_name_spec(Color::Fuchsia)) == lowercase_name_spec(Color::Fuchsia),
        normalize_name(lower_snake_spec(Color::Fuchsia)) == lowercase_name_spec(Color::Fuchsia),
        normalize_name(upper_snake_spec(Color::Fuchsia)) == lowercase_name_spec(Color::Fuchsia),
        normalize_name(uppercase_name_spec(Color::Fuchsia)) == lowercase_name_spec(Color::Fuchsia),
        normalize_name(lowercase_name_spec(Color::Fuchsia)) == lowercase_name_spec(Color::Fuchsia),
{
    reveal_strlit("Fuchsia");
    reveal_strlit("Fuchsia");
    reveal_strlit("fuchsia");
    reveal_strlit("FUCHSIA");
    reveal_strlit("FUCHSIA");
    reveal_with_fuel(normalize_name, 8);
}

proof fn lemma_names_gainsboro()
    ensures
        normalize_name(readable_name_spec(Color::Gainsboro)) == lowercase_name_spec(Color::Gainsboro),
        normalize_name(pascal_name_spec(Color::Gainsboro)) == lowercase_name_spec(Color::Gainsboro),
        normalize_name(lower_snake_spec(Color::Gainsboro)) == lowercase_name_spec(Color::Gainsboro),
        normalize_name(upper_snake_spec(Color::Gainsboro)) == lowercase_name_spec(Color::Gainsboro),
        normalize_name(uppercase_name_spec(Color::Gainsboro)) == lowercase_name_spec(Color::Gainsboro),
        normalize_name(lowercase_name_spec(Color::Gainsboro)) == lowercase_name_spec(Color::Gainsboro),
{
    reveal_strlit("Gainsboro");
    reveal_strlit("Gainsboro");
    reveal_strlit("gainsboro");
    reveal_strlit("GAINSBORO");
    reveal_strlit("GAINSBORO");
    reveal_with_fuel(normalize_name, 10);
}

proof fn lemma_names_ghost_white()
    ensures
        normalize_name(readable_name_spec(Color::GhostWhite)) == lowercase_name_spec(Color::GhostWhite),
        normalize_name(pascal_name_spec(Color::GhostWhite)) == lowercase_name_spec(Color::GhostWhite),
        normalize_name(lower_snake_spec(Color::GhostWhite)) == lowercase_name_spec(Color::GhostWhite),
        normalize_name(upper_snake_spec(Color::GhostWhite)) == lowercase_name_spec(Color::GhostWhite),
        normalize_name(uppercase_name_spec(Color::GhostWhite)) == lowercase_name_spec(Color::GhostWhite),
        normalize_name(lowercase_name_spec(Color::GhostWhite)) == lowercase_name_spec(Color::GhostWhite),
{
    reveal_strlit("Ghost White");
    reveal_strlit("GhostWhite");
    reveal_strlit("ghost_white");
    reveal_strlit("GHOST_WHITE");
    reveal_strlit("GHOSTWHITE");
    reveal_with_fuel(normalize_name, 12);
}

proof fn lemma_names_gold()
    ensures
        normalize_name(readable_name_spec(Color::Gold)) == lowercase_name_spec(Color::Gold),
        normalize_name(pascal_name_spec(Color::Gold)) == lowercase_name_spec(Color::Gold),
        normalize_name(lower_snake_spec(Color::Gold)) == lowercase_name_spec(Color::Gold),
        normalize_name(upper_snake_spec(Color::Gold)) == lowercase_name_spec(Color::Gold),
        normalize_name(uppercase_name_spec(Color::Gold)) == lowercase_name_spec(Color::Gold),
        normalize_name(lowercase_name_spec(Color::Gold)) == lowercase_name_spec(Color::Gold),
{
    reveal_strlit("Gold");
    reveal_strlit("Gold");
    reveal_strlit("gold");
    reveal_strlit("GOLD");
    reveal_strlit("GOLD");
    reveal_with_fuel(normalize_name, 5);
}

proof fn lemma_names_golden_rod()
    ensures
        normalize_name(readable_name_spec(Color::GoldenRod)) == lowercase_name_spec(Color::GoldenRod),
        normalize_name(pascal_name_spec(Color::GoldenRod)) == lowercase_name_spec(Color::GoldenRod),
        normalize_name(lower_snake_spec(Color::GoldenRod)) == lowercase_name_spec(Color::GoldenRod),
        normalize_name(upper_snake_spec(Color::GoldenRod)) == lowercase_name_spec(Color::GoldenRod),
        normalize_name(uppercase_name_spec(Color::GoldenRod)) == lowercase_name_spec(Color::GoldenRod),
        normalize_name(lowercase_name_spec(Color::GoldenRod)) == lowercase_name_spec(Color::GoldenRod),
{
    reveal_strlit("Golden Rod");
    reveal_strlit("GoldenRod");
    reveal_strlit("golden_rod");
    reveal_strlit("GOLDEN_ROD");
    reveal_strlit("GOLDENROD");
    reveal_with_fuel(normalize_name, 11);
}

proof fn lemma_names_gray()
    ensures
        normalize_name(readable_name_spec(Color::Gray)) == lowercase_name_spec(Color::Gray),
        normalize_name(pascal_name_spec(Color::Gray)) == lowercase_name_spec(Color::Gray),
        normalize_name(lower_snake_spec(Color::Gray)) == lowercase_name_spec(Color::Gray),
        normalize_name(upper_snake_spec(Color::Gray)) == lowercase_name_spec(Color::Gray),
        normalize_name(uppercase_name_spec(Color::Gray)) == lowercase_name_spec(Color::Gray),
        normalize_name(lowercase_name_spec(Color::Gray)) == lowercase_name_spec(Color::Gray),
{
    reveal_strlit("Gray");
    reveal_strlit("Gray");
    reveal_strlit("gray");
    reveal_strlit("GRAY");
    reveal_strlit("GRAY");
    reveal_with_fuel(normalize_name, 5);
}

proof fn lemma_names_green()
    ensures
        normalize_name(readable_name_spec(Color::Green)) == lowercase_name_spec(Color::Green),
        normalize_name(pascal_name_spec(Color::Green)) == lowercase_name_spec(Color::Green),
        normalize_name(lower_snake_spec(Color::Green)) == lowercase_name_spec(Color::Green),
        normalize_name(upper_snake_spec(Color::Green)) == lowercase_name_spec(Color::Green),
        normalize_name(uppercase_name_spec(Color::Green)) == lowercase_name_spec(Color::Green),
        normalize_name(lowercase_name_spec(Color::Green)) == lowercase_name_spec(Color::Green),
{
    reveal_strlit("Green");
    reveal_strlit("Green");
    reveal_strlit("green");
    reveal_strlit("GREEN");
    reveal_strlit("GREEN");
    reveal_with_fuel(normalize_name, 6);
}

proof fn lemma_names_green_yellow()
    ensures
        normalize_name(readable_name_spec(Color::GreenYellow)) == lowercase_name_spec(Color::GreenYellow),
        normalize_name(pascal_name_spec(Color::GreenYellow)) == lowercase_name_spec(Color::GreenYellow),
        normalize_name(lower_snake_spec(Color::GreenYellow)) == lowercase_name_spec(Color::GreenYellow),
        normalize_name(upper_snake_spec(Color::GreenYellow)) == lowercase_name_spec(Color::GreenYellow),
        normalize_name(uppercase_name_spec(Color::GreenYellow)) == lowercase_name_spec(Color::GreenYellow),
        normalize_name(lowercase_name_spec(Color::GreenYellow)) == lowercase_name_spec(Color::GreenYellow),
{
    reveal_strlit("Green Yellow");
    reveal_strlit("GreenYellow");
    reveal_strlit("green_yellow");
    reveal_strlit("GREEN_YELLOW");
    reveal_strlit("GREENYELLOW");
    reveal_with_fuel(normalize_name, 13);
}

proof fn lemma_names_honey_dew()
    ensures
        normalize_name(readable_name_spec(Color::HoneyDew)) == lowercase_name_spec(Color::HoneyDew),
        normalize_name(pascal_name_spec(Color::HoneyDew)) == lowercase_name_spec(Color::HoneyDew),
        normalize_name(lower_snake_spec(Color::HoneyDew)) == lowercase_name_spec(Color::HoneyDew),
        normalize_name(upper_snake_spec(Color::HoneyDew)) == lowercase_name_spec(Color::HoneyDew),
        normalize_name(uppercase_name_spec(Color::HoneyDew)) == lowercase_name_spec(Color::HoneyDew),
        normalize_name(lowercase_name_spec(Color::HoneyDew)) == lowercase_name_spec(Color::HoneyDew),
{
    reveal_strlit("Honey Dew");
    reveal_strlit("HoneyDew");
    reveal_strlit("honey_dew");
    reveal_strlit("HONEY_DEW");
    reveal_strlit("HONEYDEW");
    reveal_with_fuel(normalize_name, 10);
}

proof fn lemma_names_hot_pink()
    ensures
        normalize_name(readable_name_spec(Color::HotPink)) == lowercase_name_spec(Color::HotPink),
        normalize_name(pascal_name_spec(Color::HotPink)) == lowercase_name_spec(Color::HotPink),
        normalize_name(lower_snake_spec(Color::HotPink)) == lowercase_name_spec(Color::HotPink),
        normalize_name(upper_snake_spec(Color::HotPink)) == lowercase_name_spec(Color::HotPink),
        normalize_name(uppercase_name_spec(Color::HotPink)) == lowercase_name_spec(Color::HotPink),
        normalize_name(lowercase_name_spec(Color::HotPink)) == lowercase_name_spec(Color::HotPink),
{
    reveal_strlit("Hot Pink");
    reveal_strlit("HotPink");
    reveal_strlit("hot_pink");
    reveal_strlit("HOT_PINK");
    reveal_strlit("HOTPINK");
    reveal_with_fuel(normalize_name, 9);
}

proof fn lemma_names_indian_red()
    ensures
        normalize_name(readable_name_spec(Color::IndianRed)) == lowercase_name_spec(Color::IndianRed),
        normalize_name(pascal_name_spec(Color::IndianRed)) == lowercase_name_spec(Color::IndianRed),
        normalize_name(lower_snake_spec(Color::IndianRed)) == lowercase_name_spec(Color::IndianRed),
        normalize_name(upper_snake_spec(Color::IndianRed)) == lowercase_name_spec(Color::IndianRed),
        normalize_name(uppercase_name_spec(Color::IndianRed)) == lowercase_name_spec(Color::IndianRed),
        normalize_name(lowercase_name_spec(Color::IndianRed)) == lowercase_name_spec(Color::IndianRed),
{
    reveal_strlit("Indian Red");
    reveal_strlit("IndianRed");
    reveal_strlit("indian_red");
    reveal_strlit("INDIAN_RED");
    reveal_strlit("INDIANRED");
    reveal_with_fuel(normalize_name, 11);
}

proof fn lemma_names_indigo()
    ensures
        normalize_name(readable_name_spec(Color::Indigo)) == lowercase_name_spec(Color::Indigo),
        normalize_name(pascal_name_spec(Color::Indigo)) == lowercase_name_spec(Color::Indigo),
        normalize_name(lower_snake_spec(Color::Indigo)) == lowercase_name_spec(Color::Indigo),
        normalize_name(upper_snake_spec(Color::Indigo)) == lowercase_name_spec(Color::Indigo),
        normalize_name(uppercase_name_spec(Color::Indigo)) == lowercase_name_spec(Color::Indigo),
        normalize_name(lowercase_name_spec(Color::Indigo)) == lowercase_name_spec(Color::Indigo),
{
    reveal_strlit("Indigo");
    reveal_strlit("Indigo");
    reveal_strlit("indigo");
    reveal_strlit("INDIGO");
    reveal_strlit("INDIGO");
    reveal_with_fuel(normalize_name, 7);
}

proof fn lemma_names_ivory()
    ensures
        normalize_name(readable_name_spec(Color::Ivory)) == lowercase_name_spec(Color::Ivory),
        normalize_name(pascal_name_spec(Color::Ivory)) == lowercase_name_spec(Color::Ivory),
        normalize_name(lower_snake_spec(Color::Ivory)) == lowercase_name_spec(Color::Ivory),
        normalize_name(upper_snake_spec(Color::Ivory)) == lowercase_name_spec(Color::Ivory),
        normalize_name(uppercase_name_spec(Color::Ivory)) == lowercase_name_spec(Color::Ivory),
        normalize_name(lowercase_name_spec(Color::Ivory)) == lowercase_name_spec(Color::Ivory),
{
    reveal_strlit("Ivory");
    reveal_strlit("Ivory");
    reveal_strlit("ivory");
    reveal_strlit("IVORY");
    reveal_strlit("IVORY");
    reveal_with_fuel(normalize_name, 6);
}

proof fn lemma_names_khaki()
    ensures
        normalize_name(readable_name_spec(Color::Khaki)) == lowercase_name_spec(Color::Khaki),
        normalize_name(pascal_name_spec(Color::Khaki)) == lowercase_name_spec(Color::Khaki),
        normalize_name(lower_snake_spec(Color::Khaki)) == lowercase_name_spec(Color::Khaki),
        normalize_name(upper_snake_spec(Color::Khaki)) == lowercase_name_spec(Color::Khaki),
        normalize_name(uppercase_name_spec(Color::Khaki)) == lowercase_name_spec(Color::Khaki),
        normalize_name(lowercase_name_spec(Color::Khaki)) == lowercase_name_spec(Color::Khaki),
{
    reveal_strlit("Khaki");
    reveal_strlit("Khaki");
    reveal_strlit("khaki");
    reveal_strlit("KHAKI");
    reveal_strlit("KHAKI");
    reveal_with_fuel(normalize_name, 6);
}

proof fn lemma_names_lavender()
    ensures
        normalize_name(readable_name_spec(Color::Lavender)) == lowercase_name_spec(Color::Lavender),
        normalize_name(pascal_name_spec(Color::Lavender)) == lowercase_name_spec(Color::Lavender),
        normalize_name(lower_snake_spec(Color::Lavender)) == lowercase_name_spec(Color::Lavender),
        normalize_name(upper_snake_spec(Color::Lavender)) == lowercase_name_spec(Color::Lavender),
        normalize_name(uppercase_name_spec(Color::Lavender)) == lowercase_name_spec(Color::Lavender),
        normalize_name(lowercase_name_spec(Color::Lavender)) == lowercase_name_spec(Color::Lavender),
{
    reveal_strlit("Lavender");
    reveal_strlit("Lavender");
    reveal_strlit("lavender");
    reveal_strlit("LAVENDER");
    reveal_strlit("LAVENDER");
    reveal_with_fuel(normalize_name, 9);
}

proof fn lemma_names_lavender_blush()
    ensures
        normalize_name(readable_name_spec(Color::LavenderBlush)) == lowercase_name_spec(Color::LavenderBlush),
        normalize_name(pascal_name_spec(Color::LavenderBlush)) == lowercase_name_spec(Color::LavenderBlush),
        normalize_name(lower_snake_spec(Color::LavenderBlush)) == lowercase_name_spec(Color::LavenderBlush),
        normalize_name(upper_snake_spec(Color::LavenderBlush)) == lowercase_name_spec(Color::LavenderBlush),
        normalize_name(uppercase_name_spec(Color::LavenderBlush)) == lowercase_name_spec(Color::LavenderBlush),
        normalize_name(lowercase_name_spec(Color::LavenderBlush)) == lowercase_name_spec(Color::LavenderBlush),
{
    reveal_strlit("Lavender Blush");
    reveal_strlit("LavenderBlush");
    reveal_strlit("lavender_blush");
    reveal_strlit("LAVENDER_BLUSH");
    reveal_strlit("LAVENDERBLUSH");
    reveal_with_fuel(normalize_name, 15);
}

proof fn lemma_names_lawn_green()
    ensures
        normalize_name(readable_name_spec(Color::LawnGreen)) == lowercase_name_spec(Color::LawnGreen),
        normalize_name(pascal_name_spec(Color::LawnGreen)) == lowercase_name_spec(Color::LawnGreen),
        normalize_name(lower_snake_spec(Color::LawnGreen)) == lowercase_name_spec(Color::LawnGreen),
        normalize_name(upper_snake_spec(Color::LawnGreen)) == lowercase_name_spec(Color::LawnGreen),
        normalize_name(uppercase_name_spec(Color::LawnGreen)) == lowercase_name_spec(Color::LawnGreen),
        normalize_name(lowercase_name_spec(Color::LawnGreen)) == lowercase_name_spec(Color::LawnGreen),
{
    reveal_strlit("Lawn Green");
    reveal_strlit("LawnGreen");
    reveal_strlit("lawn_green");
    reveal_strlit("LAWN_GREEN");
    reveal_strlit("LAWNGREEN");
    reveal_with_fuel(normalize_name, 11);
}

proof fn lemma_names_lemon_chiffon()
    ensures
        normalize_name(readable_name_spec(Color::LemonChiffon)) == lowercase_name_spec(Color::LemonChiffon),
        normalize_name(pascal_name_spec(Color::LemonChiffon)) == lowercase_name_spec(Color::LemonChiffon),
        normalize_name(lower_snake_spec(Color::LemonChiffon)) == lowercase_name_spec(Color::LemonChiffon),
        normalize_name(upper_snake_spec(Color::LemonChiffon)) == lowercase_name_spec(Color::LemonChiffon),
        normalize_name(uppercase_name_spec(Color::LemonChiffon)) == lowercase_name_spec(Color::LemonChiffon),
        normalize_name(lowercase_name_spec(Color::LemonChiffon)) == lowercase_name_spec(Color::LemonChiffon),
{
    reveal_strlit("Lemon Chiffon");
    reveal_strlit("LemonChiffon");
    reveal_strlit("lemon_chiffon");
    reveal_strlit("LEMON_CHIFFON");
    reveal_strlit("LEMONCHIFFON");
    reveal_with_fuel(normalize_name, 14);
}

proof fn lemma_names_light_blue()
    ensures
        normalize_name(readable_name_spec(Color::LightBlue)) == lowercase_name_spec(Color::LightBlue),
        normalize_name(pascal_name_spec(Color::LightBlue)) == lowercase_name_spec(Color::LightBlue),
        normalize_name(lower_snake_spec(Color::LightBlue)) == lowercase_name_spec(Color::LightBlue),
        normalize_name(upper_snake_spec(Color::LightBlue)) == lowercase_name_spec(Color::LightBlue),
        normalize_name(uppercase_name_spec(Color::LightBlue)) == lowercase_name_spec(Color::LightBlue),
        normalize_name(lowercase_name_spec(Color::LightBlue)) == lowercase_name_spec(Color::LightBlue),
{
    reveal_strlit("Light Blue");
    reveal_strlit("LightBlue");
    reveal_strlit("light_blue");
    reveal_strlit("LIGHT_BLUE");
    reveal_strlit("LIGHTBLUE");
    reveal_with_fuel(normalize_name, 11);
}

proof fn lemma_names_light_coral()
    ensures
        normalize_name(readable_name_spec(Color::LightCoral)) == lowercase_name_spec(Color::LightCoral),
        normalize_name(pascal_name_spec(Color::LightCoral)) == lowercase_name_spec(Color::LightCoral),
        normalize_name(lower_snake_spec(Color::LightCoral)) == lowercase_name_spec(Color::LightCoral),
        normalize_name(upper_snake_spec(Color::LightCoral)) == lowercase_name_spec(Color::LightCoral),
        normalize_name(uppercase_name_spec(Color::LightCoral)) == lowercase_name_spec(Color::LightCoral),
        normalize_name(lowercase_name_spec(Color::LightCoral)) == lowercase_name_spec(Color::LightCoral),
{
    reveal_strlit("Light Coral");
    reveal_strlit("LightCoral");
    reveal_strlit("light_coral");
    reveal_strlit("LIGHT_CORAL");
    reveal_strlit("LIGHTCORAL");
    reveal_with_fuel(normalize_name, 12);
}

proof fn lemma_names_light_cyan()
    ensures
        normalize_name(readable_name_spec(Color::LightCyan)) == lowercase_name_spec(Color::LightCyan),
        normalize_name(pascal_name_spec(Color::LightCyan)) == lowercase_name_spec(Color::LightCyan),
        normalize_name(lower_snake_spec(Color::LightCyan)) == lowercase_name_spec(Color::LightCyan),
        normalize_name(upper_snake_spec(Color::LightCyan)) == lowercase_name_spec(Color::LightCyan),
        normalize_name(uppercase_name_spec(Color::LightCyan)) == lowercase_name_spec(Color::LightCyan),
        normalize_name(lowercase_name_spec(Color::LightCyan)) == lowercase_name_spec(Color::LightCyan),
{
    reveal_strlit("Light Cyan");
    reveal_strlit("LightCyan");
    reveal_strlit("light_cyan");
    reveal_strlit("LIGHT_CYAN");
    reveal_strlit("LIGHTCYAN");
    reveal_with_fuel(normalize_name, 11);
}

proof fn lemma_names_light_golden_rod_yellow()
    ensures
        normalize_name(readable_name_spec(Color::LightGoldenRodYellow)) == lowercase_name_spec(Color::LightGoldenRodYellow),
        normalize_name(pascal_name_spec(Color::LightGoldenRodYellow)) == lowercase_name_spec(Color::LightGoldenRodYellow),
        normalize_name(lower_snake_spec(Color::LightGoldenRodYellow)) == lowercase_name_spec(Color::LightGoldenRodYellow),
        normalize_name(upper_snake_spec(Color::LightGoldenRodYellow)) == lowercase_name_spec(Color::LightGoldenRodYellow),
        normalize_name(uppercase_name_spec(Color::LightGoldenRodYellow)) == lowercase_name_spec(Color::LightGoldenRodYellow),
        normalize_name(lowercase_name_spec(Color::LightGoldenRodYellow)) == lowercase_name_spec(Color::LightGoldenRodYellow),
{
    reveal_strlit("Light Golden Rod Yellow");
    reveal_strlit("LightGoldenRodYellow");
    reveal_strlit("light_golden_rod_yellow");
    reveal_strlit("LIGHT_GOLDEN_ROD_YELLOW");
    reveal_strlit("LIGHTGOLDENRODYELLOW");
    reveal_with_fuel(normalize_name, 24);
}

proof fn lemma_names_light_gray()
    ensures
        normalize_name(readable_name_spec(Color::LightGray)) == lowercase_name_spec(Color::LightGray),
        normalize_name(pascal_name_spec(Color::LightGray)) == lowercase_name_spec(Color::LightGray),
        normalize_name(lower_snake_spec(Color::LightGray)) == lowercase_name_spec(Color::LightGray),
        normalize_name(upper_snake_spec(Color::LightGray)) == lowercase_name_spec(Color::LightGray),
        normalize_name(uppercase_name_spec(Color::LightGray)) == lowercase_name_spec(Color::LightGray),
        normalize_name(lowercase_name_spec(Color::LightGray)) == lowercase_name_spec(Color::LightGray),
{
    reveal_strlit("Light Gray");
    reveal_strlit("LightGray");
    reveal_strlit("light_gray");
    reveal_strlit("LIGHT_GRAY");
    reveal_strlit("LIGHTGRAY");
    reveal_with_fuel(normalize_name, 11);
}

proof fn lemma_names_light_green()
    ensures
        normalize_name(readable_name_spec(Color::LightGreen)) == lowercase_name_spec(Color::LightGreen),
        normalize_name(pascal_name_spec(Color::LightGreen)) == lowercase_name_spec(Color::LightGreen),
        normalize_name(lower_snake_spec(Color::LightGreen)) == lowercase_name_spec(Color::LightGreen),
        normalize_name(upper_snake_spec(Color::LightGreen)) == lowercase_name_spec(Color::LightGreen),
        normalize_name(uppercase_name_spec(Color::LightGreen)) == lowercase_name_spec(Color::LightGreen),
        normalize_name(lowercase_name_spec(Color::LightGreen)) == lowercase_name_spec(Color::LightGreen),
{
    reveal_strlit("Light Green");
    reveal_strlit("LightGreen");
    reveal_strlit("light_green");
    reveal_strlit("LIGHT_GREEN");
    reveal_strlit("LIGHTGREEN");
    reveal_with_fuel(normalize_name, 12);
}

proof fn lemma_names_light_pink()
    ensures
        normalize_name(readable_name_spec(Color::LightPink)) == lowercase_name_spec(Color::LightPink),
        normalize_name(pascal_name_spec(Color::LightPink)) == lowercase_name_spec(Color::LightPink),
        normalize_name(lower_snake_spec(Color::LightPink)) == lowercase_name_spec(Color::LightPink),
        normalize_name(upper_snake_spec(Color::LightPink)) == lowercase_name_spec(Color::LightPink),
        normalize_name(uppercase_name_spec(Color::LightPink)) == lowercase_name_spec(Color::LightPink),
        normalize_name(lowercase_name_spec(Color::LightPink)) == lowercase_name_spec(Color::LightPink),
{
    reveal_strlit("Light Pink");
    reveal_strlit("LightPink");
    reveal_strlit("light_pink");
    reveal_strlit("LIGHT_PINK");
    reveal_strlit("LIGHTPINK");
    reveal_with_fuel(normalize_name, 11);
}

proof fn lemma_names_light_salmon()
    ensures
        normalize_name(readable_name_spec(Color::LightSalmon)) == lowercase_name_spec(Color::LightSalmon),
        normalize_name(pascal_name_spec(Color::LightSalmon)) == lowercase_name_spec(Color::LightSalmon),
        normalize_name(lower_snake_spec(Color::LightSalmon)) == lowercase_name_spec(Color::LightSalmon),
        normalize_name(upper_snake_spec(Color::LightSalmon)) == lowercase_name_spec(Color::LightSalmon),
        normalize_name(uppercase_name_spec(Color::LightSalmon)) == lowercase_name_spec(Color::LightSalmon),
        normalize_name(lowercase_name_spec(Color::LightSalmon)) == lowercase_name_spec(Color::LightSalmon),
{
    reveal_strlit("Light Salmon");
    reveal_strlit("LightSalmon");
    reveal_strlit("light_salmon");
    reveal_strlit("LIGHT_SALMON");
    reveal_strlit("LIGHTSALMON");
    reveal_with_fuel(normalize_name, 13);
}

proof fn lemma_names_light_sea_green()
    ensures
        normalize_name(readable_name_spec(Color::LightSeaGreen)) == lowercase_name_spec(Color::LightSeaGreen),
        normalize_name(pascal_name_spec(Color::LightSeaGreen)) == lowercase_name_spec(Color::LightSeaGreen),
        normalize_name(lower_snake_spec(Color::LightSeaGreen)) == lowercase_name_spec(Color::LightSeaGreen),
        normalize_name(upper_snake_spec(Color::LightSeaGreen)) == lowercase_name_spec(Color::LightSeaGreen),
        normalize_name(uppercase_name_spec(Color::LightSeaGreen)) == lowercase_name_spec(Color::LightSeaGreen),
        normalize_name(lowercase_name_spec(Color::LightSeaGreen)) == lowercase_name_spec(Color::LightSeaGreen),
{
    reveal_strlit("Light Sea Green");
    reveal_strlit("LightSeaGreen");
    reveal_strlit("light_sea_green");
    reveal_strlit("LIGHT_SEA_GREEN");
    reveal_strlit("LIGHTSEAGREEN");
    reveal_with_fuel(normalize_name, 16);
}

proof fn lemma_names_light_sky_blue()
    ensures
        normalize_name(readable_name_spec(Color::LightSkyBlue)) == lowercase_name_spec(Color::LightSkyBlue),
        normalize_name(pascal_name_spec(Color::LightSkyBlue)) == lowercase_name_spec(Color::LightSkyBlue),
        normalize_name(lower_snake_spec(Color::LightSkyBlue)) == lowercase_name_spec(Color::LightSkyBlue),
        normalize_name(upper_snake_spec(Color::LightSkyBlue)) == lowercase_name_spec(Color::LightSkyBlue),
        normalize_name(uppercase_name_spec(Color::LightSkyBlue)) == lowercase_name_spec(Color::LightSkyBlue),
        normalize_name(lowercase_name_spec(Color::LightSkyBlue)) == lowercase_name_spec(Color::LightSkyBlue),
{
    reveal_strlit("Light Sky Blue");
    reveal_strlit("LightSkyBlue");
    reveal_strlit("light_sky_blue");
    reveal_strlit("LIGHT_SKY_BLUE");
    reveal_strlit("LIGHTSKYBLUE");
    reveal_with_fuel(normalize_name, 15);
}

proof fn lemma_names_light_slate_gray()
    ensures
        normalize_name(readable_name_spec(Color::LightSlateGray)) == lowercase_name_spec(Color::LightSlateGray),
        normalize_name(pascal_name_spec(Color::LightSlateGray)) == lowercase_name_spec(Color::LightSlateGray),
        normalize_name(lower_snake_spec(Color::LightSlateGray)) == lowercase_name_spec(Color::LightSlateGray),
        normalize_name(upper_snake_spec(Color::LightSlateGray)) == lowercase_name_spec(Color::LightSlateGray),
        normalize_name(uppercase_name_spec(Color::LightSlateGray)) == lowercase_name_spec(Color::LightSlateGray),
        normalize_name(lowercase_name_spec(Color::LightSlateGray)) == lowercase_name_spec(Color::LightSlateGray),
{
    reveal_strlit("Light Slate Gray");
    reveal_strlit("LightSlateGray");
    reveal_strlit("light_slate_gray");
    reveal_strlit("LIGHT_SLATE_GRAY");
    reveal_strlit("LIGHTSLATEGRAY");
    reveal_with_fuel(normalize_name, 17);
}

proof fn lemma_names_light_steel_blue()
    ensures
        normalize_name(readable_name_spec(Color::LightSteelBlue)) == lowercase_name_spec(Color::LightSteelBlue),
        normalize_name(pascal_name_spec(Color::LightSteelBlue)) == lowercase_name_spec(Color::LightSteelBlue),
        normalize_name(lower_snake_spec(Color::LightSteelBlue)) == lowercase_name_spec(Color::LightSteelBlue),
        normalize_name(upper_snake_spec(Color::LightSteelBlue)) == lowercase_name_spec(Color::LightSteelBlue),
        normalize_name(uppercase_name_spec(Color::LightSteelBlue)) == lowercase_name_spec(Color::LightSteelBlue),
        normalize_name(lowercase_name_spec(Color::LightSteelBlue)) == lowercase_name_spec(Color::LightSteelBlue),
{
    reveal_strlit("Light Steel Blue");
    reveal_strlit("LightSteelBlue");
    reveal_strlit("light_steel_blue");
    reveal_strlit("LIGHT_STEEL_BLUE");
    reveal_strlit("LIGHTSTEELBLUE");
    reveal_with_fuel(normalize_name, 17);
}

proof fn lemma_names_light_yellow()
    ensures
        normalize_name(readable_name_spec(Color::LightYellow)) == lowercase_name_spec(Color::LightYellow),
        normalize_name(pascal_name_spec(Color::LightYellow)) == lowercase_name_spec(Color::LightYellow),
        normalize_name(lower_snake_spec(Color::LightYellow)) == lowercase_name_spec(Color::LightYellow),
        normalize_name(upper_snake_spec(Color::LightYellow)) == lowercase_name_spec(Color::LightYellow),
        normalize_name(uppercase_name_spec(Color::LightYellow)) == lowercase_name_spec(Color::LightYellow),
        normalize_name(lowercase_name_spec(Color::LightYellow)) == lowercase_name_spec(Color::LightYellow),
{
    reveal_strlit("Light Yellow");
    reveal_strlit("LightYellow");
    reveal_strlit("light_yellow");
    reveal_strlit("LIGHT_YELLOW");
    reveal_strlit("LIGHTYELLOW");
    reveal_with_fuel(normalize_name, 13);
}

proof fn lemma_names_lime()
    ensures
        normalize_name(readable_name_spec(Color::Lime)) == lowercase_name_spec(Color::Lime),
        normalize_name(pascal_name_spec(Color::Lime)) == lowercase_name_spec(Color::Lime),
        normalize_name(lower_snake_spec(Color::Lime)) == lowercase_name_spec(Color::Lime),
        normalize_name(upper_snake_spec(Color::Lime)) == lowercase_name_spec(Color::Lime),
        normalize_name(uppercase_name_spec(Color::Lime)) == lowercase_name_spec(Color::Lime),
        normalize_name(lowercase_name_spec(Color::Lime)) == lowercase_name_spec(Color::Lime),
{
    reveal_strlit("Lime");
    reveal_strlit("Lime");
    reveal_strlit("lime");
    reveal_strlit("LIME");
    reveal_strlit("LIME");
    reveal_with_fuel(normalize_name, 5);
}

proof fn lemma_names_lime_green()
    ensures
        normalize_name(readable_name_spec(Color::LimeGreen)) == lowercase_name_spec(Color::LimeGreen),
        normalize_name(pascal_name_spec(Color::LimeGreen)) == lowercase_name_spec(Color::LimeGreen),
        normalize_name(lower_snake_spec(Color::LimeGreen)) == lowercase_name_spec(Color::LimeGreen),
        normalize_name(upper_snake_spec(Color::LimeGreen)) == lowercase_name_spec(Color::LimeGreen),
        normalize_name(uppercase_name_spec(Color::LimeGreen)) == lowercase_name_spec(Color::LimeGreen),
        normalize_name(lowercase_name_spec(Color::LimeGreen)) == lowercase_name_spec(Color::LimeGreen),
{
    reveal_strlit("Lime Green");
    reveal_strlit("LimeGreen");
    reveal_strlit("lime_green");
    reveal_strlit("LIME_GREEN");
    reveal_strlit("LIMEGREEN");
    reveal_with_fuel(normalize_name, 11);
}

proof fn lemma_names_linen()
    ensures
        normalize_name(readable_name_spec(Color::Linen)) == lowercase_name_spec(Color::Linen),
        normalize_name(pascal_name_spec(Color::Linen)) == lowercase_name_spec(Color::Linen),
        normalize_name(lower_snake_spec(Color::Linen)) == lowercase_name_spec(Color::Linen),
        normalize_name(upper_snake_spec(Color::Linen)) == lowercase_name_spec(Color::Linen),
        normalize_name(uppercase_name_spec(Color::Linen)) == lowercase_name_spec(Color::Linen),
        normalize_name(lowercase_name_spec(Color::Linen)) == lowercase_name_spec(Color::Linen),
{
    reveal_strlit("Linen");
    reveal_strlit("Linen");
    reveal_strlit("linen");
    reveal_strlit("LINEN");
    reveal_strlit("LINEN");
    reveal_with_fuel(normalize_name, 6);
}

proof fn lemma_names_magenta()
    ensures
        normalize_name(readable_name_spec(Color::Magenta)) == lowercase_name_spec(Color::Magenta),
        normalize_name(pascal_name_spec(Color::Magenta)) == lowercase_name_spec(Color::Magenta),
        normalize_name(lower_snake_spec(Color::Magenta)) == lowercase_name_spec(Color::Magenta),
        normalize_name(upper_snake_spec(Color::Magenta)) == lowercase_name_spec(Color::Magenta),
        normalize_name(uppercase_name_spec(Color::Magenta)) == lowercase_name_spec(Color::Magenta),
        normalize_name(lowercase_name_spec(Color::Magenta)) == lowercase_name_spec(Color::Magenta),
{
    reveal_strlit("Magenta");
    reveal_strlit("Magenta");
    reveal_strlit("magenta");
    reveal_strlit("MAGENTA");
    reveal_strlit("MAGENTA");
    reveal_with_fuel(normalize_name, 8);
}

proof fn lemma_names_maroon()
    ensures
        normalize_name(readable_name_spec(Color::Maroon)) == lowercase_name_spec(Color::Maroon),
        normalize_name(pascal_name_spec(Color::Maroon)) == lowercase_name_spec(Color::Maroon),
        normalize_name(lower_snake_spec(Color::Maroon)) == lowercase_name_spec(Color::Maroon),
        normalize_name(upper_snake_spec(Color::Maroon)) == lowercase_name_spec(Color::Maroon),
        normalize_name(uppercase_name_spec(Color::Maroon)) == lowercase_name_spec(Color::Maroon),
        normalize_name(lowercase_name_spec(Color::Maroon)) == lowercase_name_spec(Color::Maroon),
{
    reveal_strlit("Maroon");
    reveal_strlit("Maroon");
    reveal_strlit("maroon");
    reveal_strlit("MAROON");
    reveal_strlit("MAROON");
    reveal_with_fuel(normalize_name, 7);
}

proof fn lemma_names_medium_aqua_marine()
    ensures
        normalize_name(readable_name_spec(Color::MediumAquaMarine)) == lowercase_name_spec(Color::MediumAquaMarine),
        normalize_name(pascal_name_spec(Color::MediumAquaMarine)) == lowercase_name_spec(Color::MediumAquaMarine),
        normalize_name(lower_snake_spec(Color::MediumAquaMarine)) == lowercase_name_spec(Color::MediumAquaMarine),
        normalize_name(upper_snake_spec(Color::MediumAquaMarine)) == lowercase_name_spec(Color::MediumAquaMarine),
        normalize_name(uppercase_name_spec(Color::MediumAquaMarine)) == lowercase_name_spec(Color::MediumAquaMarine),
        normalize_name(lowercase_name_spec(Color::MediumAquaMarine)) == lowercase_name_spec(Color::MediumAquaMarine),
{
    reveal_strlit("Medium Aqua Marine");
    reveal_strlit("MediumAquaMarine");
    reveal_strlit("medium_aqua_marine");
    reveal_strlit("MEDIUM_AQUA_MARINE");
    reveal_strlit("MEDIUMAQUAMARINE");
    reveal_with_fuel(normalize_name, 19);
}

proof fn lemma_names_medium_blue()
    ensures
        normalize_name(readable_name_spec(Color::MediumBlue)) == lowercase_name_spec(Color::MediumBlue),
        normalize_name(pascal_name_spec(Color::MediumBlue)) == lowercase_name_spec(Color::MediumBlue),
        normalize_name(lower_snake_spec(Color::MediumBlue)) == lowercase_name_spec(Color::MediumBlue),
        normalize_name(upper_snake_spec(Color::MediumBlue)) == lowercase_name_spec(Color::MediumBlue),
        normalize_name(uppercase_name_spec(Color::MediumBlue)) == lowercase_name_spec(Color::MediumBlue),
        normalize_name(lowercase_name_spec(Color::MediumBlue)) == lowercase_name_spec(Color::MediumBlue),
{
    reveal_strlit("Medium Blue");
    reveal_strlit("MediumBlue");
    reveal_strlit("medium_blue");
    reveal_strlit("MEDIUM_BLUE");
    reveal_strlit("MEDIUMBLUE");
    reveal_with_fuel(normalize_name, 12);
}

proof fn lemma_names_medium_orchid()
    ensures
        normalize_name(readable_name_spec(Color::MediumOrchid)) == lowercase_name_spec(Color::MediumOrchid),
        normalize_name(pascal_name_spec(Color::MediumOrchid)) == lowercase_name_spec(Color::MediumOrchid),
        normalize_name(lower_snake_spec(Color::MediumOrchid)) == lowercase_name_spec(Color::MediumOrchid),
        normalize_name(upper_snake_spec(Color::MediumOrchid)) == lowercase_name_spec(Color::MediumOrchid),
        normalize_name(uppercase_name_spec(Color::MediumOrchid)) == lowercase_name_spec(Color::MediumOrchid),
        normalize_name(lowercase_name_spec(Color::MediumOrchid)) == lowercase_name_spec(Color::MediumOrchid),
{
    reveal_strlit("Medium Orchid");
    reveal_strlit("MediumOrchid");
    reveal_strlit("medium_orchid");
    reveal_strlit("MEDIUM_ORCHID");
    reveal_strlit("MEDIUMORCHID");
    reveal_with_fuel(normalize_name, 14);
}

proof fn lemma_names_medium_purple()
    ensures
        normalize_name(readable_name_spec(Color::MediumPurple)) == lowercase_name_spec(Color::MediumPurple),
        normalize_name(pascal_name_spec(Color::MediumPurple)) == lowercase_name_spec(Color::MediumPurple),
        normalize_name(lower_snake_spec(Color::MediumPurple)) == lowercase_name_spec(Color::MediumPurple),
        normalize_name(upper_snake_spec(Color::MediumPurple)) == lowercase_name_spec(Color::MediumPurple),
        normalize_name(uppercase_name_spec(Color::MediumPurple)) == lowercase_name_spec(Color::MediumPurple),
        normalize_name(lowercase_name_spec(Color::MediumPurple)) == lowercase_name_spec(Color::MediumPurple),
{
    reveal_strlit("Medium Purple");
    reveal_strlit("MediumPurple");
    reveal_strlit("medium_purple");
    reveal_strlit("MEDIUM_PURPLE");
    reveal_strlit("MEDIUMPURPLE");
    reveal_with_fuel(normalize_name, 14);
}

proof fn lemma_names_medium_sea_green()
    ensures
        normalize_name(readable_name_spec(Color::MediumSeaGreen)) == lowercase_name_spec(Color::MediumSeaGreen),
        normalize_name(pascal_name_spec(Color::MediumSeaGreen)) == lowercase_name_spec(Color::MediumSeaGreen),
        normalize_name(lower_snake_spec(Color::MediumSeaGreen)) == lowercase_name_spec(Color::MediumSeaGreen),
        normalize_name(upper_snake_spec(Color::MediumSeaGreen)) == lowercase_name_spec(Color::MediumSeaGreen),
        normalize_name(uppercase_name_spec(Color::MediumSeaGreen)) == lowercase_name_spec(Color::MediumSeaGreen),
        normalize_name(lowercase_name_spec(Color::MediumSeaGreen)) == lowercase_name_spec(Color::MediumSeaGreen),
{
    reveal_strlit("Medium Sea Green");
    reveal_strlit("MediumSeaGreen");
    reveal_strlit("medium_sea_green");
    reveal_strlit("MEDIUM_SEA_GREEN");
    reveal_strlit("MEDIUMSEAGREEN");
    reveal_with_fuel(normalize_name, 17);
}

proof fn lemma_names_medium_slate_blue()
    ensures
        normalize_name(readable_name_spec(Color::MediumSlateBlue)) == lowercase_name_spec(Color::MediumSlateBlue),
        normalize_name(pascal_name_spec(Color::MediumSlateBlue)) == lowercase_name_spec(Color::MediumSlateBlue),
        normalize_name(lower_snake_spec(Color::MediumSlateBlue)) == lowercase_name_spec(Color::MediumSlateBlue),
        normalize_name(upper_snake_spec(Color::MediumSlateBlue)) == lowercase_name_spec(Color::MediumSlateBlue),
        normalize_name(uppercase_name_spec(Color::MediumSlateBlue)) == lowercase_name_spec(Color::MediumSlateBlue),
        normalize_name(lowercase_name_spec(Color::MediumSlateBlue)) == lowercase_name_spec(Color::MediumSlateBlue),
{
    reveal_strlit("Medium Slate Blue");
    reveal_strlit("MediumSlateBlue");
    reveal_strlit("medium_slate_blue");
    reveal_strlit("MEDIUM_SLATE_BLUE");
    reveal_strlit("MEDIUMSLATEBLUE");
    reveal_with_fuel(normalize_name, 18);
}

proof fn lemma_names_medium_spring_green()
    ensures
        normalize_name(readable_name_spec(Color::MediumSpringGreen)) == lowercase_name_spec(Color::MediumSpringGreen),
        normalize_name(pascal_name_spec(Color::MediumSpringGreen)) == lowercase_name_spec(Color::MediumSpringGreen),
        normalize_name(lower_snake_spec(Color::MediumSpringGreen)) == lowercase_name_spec(Color::MediumSpringGreen),
        normalize_name(upper_snake_spec(Color::MediumSpringGreen)) == lowercase_name_spec(Color::MediumSpringGreen),
        normalize_name(uppercase_name_spec(Color::MediumSpringGreen)) == lowercase_name_spec(Color::MediumSpringGreen),
        normalize_name(lowercase_name_spec(Color::MediumSpringGreen)) == lowercase_name_spec(Color::MediumSpringGreen),
{
    reveal_strlit("Medium Spring Green");
    reveal_strlit("MediumSpringGreen");
    reveal_strlit("medium_spring_green");
    reveal_strlit("MEDIUM_SPRING_GREEN");
    reveal_strlit("MEDIUMSPRINGGREEN");
    reveal_with_fuel(normalize_name, 20);
}

proof fn lemma_names_medium_turquoise()
    ensures
        normalize_name(readable_name_spec(Color::MediumTurquoise)) == lowercase_name_spec(Color::MediumTurquoise),
        normalize_name(pascal_name_spec(Color::MediumTurquoise)) == lowercase_name_spec(Color::MediumTurquoise),
        normalize_name(lower_snake_spec(Color::MediumTurquoise)) == lowercase_name_spec(Color::MediumTurquoise),
        normalize_name(upper_snake_spec(Color::MediumTurquoise)) == lowercase_name_spec(Color::MediumTurquoise),
        normalize_name(uppercase_name_spec(Color::MediumTurquoise)) == lowercase_name_spec(Color::MediumTurquoise),
        normalize_name(lowercase_name_spec(Color::MediumTurquoise)) == lowercase_name_spec(Color::MediumTurquoise),
{
    reveal_strlit("Medium Turquoise");
    reveal_strlit("MediumTurquoise");
    reveal_strlit("medium_turquoise");
    reveal_strlit("MEDIUM_TURQUOISE");
    reveal_strlit("MEDIUMTURQUOISE");
    reveal_with_fuel(normalize_name, 17);
}

proof fn lemma_names_medium_violet_red()
    ensures
        normalize_name(readable_name_spec(Color::MediumVioletRed)) == lowercase_name_spec(Color::MediumVioletRed),
        normalize_name(pascal_name_spec(Color::MediumVioletRed)) == lowercase_name_spec(Color::MediumVioletRed),
        normalize_name(lower_snake_spec(Color::MediumVioletRed)) == lowercase_name_spec(Color::MediumVioletRed),
        normalize_name(upper_snake_spec(Color::MediumVioletRed)) == lowercase_name_spec(Color::MediumVioletRed),
        normalize_name(uppercase_name_spec(Color::MediumVioletRed)) == lowercase_name_spec(Color::MediumVioletRed),
        normalize_name(lowercase_name_spec(Color::MediumVioletRed)) == lowercase_name_spec(Color::MediumVioletRed),
{
    reveal_strlit("Medium Violet Red");
    reveal_strlit("MediumVioletRed");
    reveal_strlit("medium_violet_red");
    reveal_strlit("MEDIUM_VIOLET_RED");
    reveal_strlit("MEDIUMVIOLETRED");
    reveal_with_fuel(normalize_name, 18);
}

proof fn lemma_names_midnight_blue()
    ensures
        normalize_name(readable_name_spec(Color::MidnightBlue)) == lowercase_name_spec(Color::MidnightBlue),
        normalize_name(pascal_name_spec(Color::MidnightBlue)) == lowercase_name_spec(Color::MidnightBlue),
        normalize_name(lower_snake_spec(Color::MidnightBlue)) == lowercase_name_spec(Color::MidnightBlue),
        normalize_name(upper_snake_spec(Color::MidnightBlue)) == lowercase_name_spec(Color::MidnightBlue),
        normalize_name(uppercase_name_spec(Color::MidnightBlue)) == lowercase_name_spec(Color::MidnightBlue),
        normalize_name(lowercase_name_spec(Color::MidnightBlue)) == lowercase_name_spec(Color::MidnightBlue),
{
    reveal_strlit("Midnight Blue");
    reveal_strlit("MidnightBlue");
    reveal_strlit("midnight_blue");
    reveal_strlit("MIDNIGHT_BLUE");
    reveal_strlit("MIDNIGHTBLUE");
    reveal_with_fuel(normalize_name, 14);
}

proof fn lemma_names_mint_cream()
    ensures
        normalize_name(readable_name_spec(Color::MintCream)) == lowercase_name_spec(Color::MintCream),
        normalize_name(pascal_name_spec(Color::MintCream)) == lowercase_name_spec(Color::MintCream),
        normalize_name(lower_snake_spec(Color::MintCream)) == lowercase_name_spec(Color::MintCream),
        normalize_name(upper_snake_spec(Color::MintCream)) == lowercase_name_spec(Color::MintCream),
        normalize_name(uppercase_name_spec(Color::MintCream)) == lowercase_name_spec(Color::MintCream),
        normalize_name(lowercase_name_spec(Color::MintCream)) == lowercase_name_spec(Color::MintCream),
{
    reveal_strlit("Mint Cream");
    reveal_strlit("MintCream");
    reveal_strlit("mint_cream");
    reveal_strlit("MINT_CREAM");
    reveal_strlit("MINTCREAM");
    reveal_with_fuel(normalize_name, 11);
}

proof fn lemma_names_misty_rose()
    ensures
        normalize_name(readable_name_spec(Color::MistyRose)) == lowercase_name_spec(Color::MistyRose),
        normalize_name(pascal_name_spec(Color::MistyRose)) == lowercase_name_spec(Color::MistyRose),
        normalize_name(lower_snake_spec(Color::MistyRose)) == lowercase_name_spec(Color::MistyRose),
        normalize_name(upper_snake_spec(Color::MistyRose)) == lowercase_name_spec(Color::MistyRose),
        normalize_name(uppercase_name_spec(Color::MistyRose)) == lowercase_name_spec(Color::MistyRose),
        normalize_name(lowercase_name_spec(Color::MistyRose)) == lowercase_name_spec(Color::MistyRose),
{
    reveal_strlit("Misty Rose");
    reveal_strlit("MistyRose");
    reveal_strlit("misty_rose");
    reveal_strlit("MISTY_ROSE");
    reveal_strlit("MISTYROSE");
    reveal_with_fuel(normalize_name, 11);
}

proof fn lemma_names_moccasin()
    ensures
        normalize_name(readable_name_spec(Color::Moccasin)) == lowercase_name_spec(Color::Moccasin),
        normalize_name(pascal_name_spec(Color::Moccasin)) == lowercase_name_spec(Color::Moccasin),
        normalize_name(lower_snake_spec(Color::Moccasin)) == lowercase_name_spec(Color::Moccasin),
        normalize_name(upper_snake_spec(Color::Moccasin)) == lowercase_name_spec(Color::Moccasin),
        normalize_name(uppercase_name_spec(Color::Moccasin)) == lowercase_name_spec(Color::Moccasin),
        normalize_name(lowercase_name_spec(Color::Moccasin)) == lowercase_name_spec(Color::Moccasin),
{
    reveal_strlit("Moccasin");
    reveal_strlit("Moccasin");
    reveal_strlit("moccasin");
    reveal_strlit("MOCCASIN");
    reveal_strlit("MOCCASIN");
    reveal_with_fuel(normalize_name, 9);
}

proof fn lemma_names_navajo_white()
    ensures
        normalize_name(readable_name_spec(Color::NavajoWhite)) == lowercase_name_spec(Color::NavajoWhite),
        normalize_name(pascal_name_spec(Color::NavajoWhite)) == lowercase_name_spec(Color::NavajoWhite),
        normalize_name(lower_snake_spec(Color::NavajoWhite)) == lowercase_name_spec(Color::NavajoWhite),
        normalize_name(upper_snake_spec(Color::NavajoWhite)) == lowercase_name_spec(Color::NavajoWhite),
        normalize_name(uppercase_name_spec(Color::NavajoWhite)) == lowercase_name_spec(Color::NavajoWhite),
        normalize_name(lowercase_name_spec(Color::NavajoWhite)) == lowercase_name_spec(Color::NavajoWhite),
{
    reveal_strlit("Navajo White");
    reveal_strlit("NavajoWhite");
    reveal_strlit("navajo_white");
    reveal_strlit("NAVAJO_WHITE");
    reveal_strlit("NAVAJOWHITE");
    reveal_with_fuel(normalize_name, 13);
}

proof fn lemma_names_navy()
    ensures
        normalize_name(readable_name_spec(Color::Navy)) == lowercase_name_spec(Color::Navy),
        normalize_name(pascal_name_spec(Color::Navy)) == lowercase_name_spec(Color::Navy),
        normalize_name(lower_snake_spec(Color::Navy)) == lowercase_name_spec(Color::Navy),
        normalize_name(upper_snake_spec(Color::Navy)) == lowercase_name_spec(Color::Navy),
        normalize_name(uppercase_name_spec(Color::Navy)) == lowercase_name_spec(Color::Navy),
        normalize_name(lowercase_name_spec(Color::Navy)) == lowercase_name_spec(Color::Navy),
{
    reveal_strlit("Navy");
    reveal_strlit("Navy");
    reveal_strlit("navy");
    reveal_strlit("NAVY");
    reveal_strlit("NAVY");
    reveal_with_fuel(normalize_name, 5);
}

proof fn lemma_names_old_lace()
    ensures
        normalize_name(readable_name_spec(Color::OldLace)) == lowercase_name_spec(Color::OldLace),
        normalize_name(pascal_name_spec(Color::OldLace)) == lowercase_name_spec(Color::OldLace),
        normalize_name(lower_snake_spec(Color::OldLace)) == lowercase_name_spec(Color::OldLace),
        normalize_name(upper_snake_spec(Color::OldLace)) == lowercase_name_spec(Color::OldLace),
        normalize_name(uppercase_name_spec(Color::OldLace)) == lowercase_name_spec(Color::OldLace),
        normalize_name(lowercase_name_spec(Color::OldLace)) == lowercase_name_spec(Color::OldLace),
{
    reveal_strlit("Old Lace");
    reveal_strlit("OldLace");
    reveal_strlit("old_lace");
    reveal_strlit("OLD_LACE");
    reveal_strlit("OLDLACE");
    reveal_with_fuel(normalize_name, 9);
}

proof fn lemma_names_olive()
    ensures
        normalize_name(readable_name_spec(Color::Olive)) == lowercase_name_spec(Color::Olive),
        normalize_name(pascal_name_spec(Color::Olive)) == lowercase_name_spec(Color::Olive),
        normalize_name(lower_snake_spec(Color::Olive)) == lowercase_name_spec(Color::Olive),
        normalize_name(upper_snake_spec(Color::Olive)) == lowercase_name_spec(Color::Olive),
        normalize_name(uppercase_name_spec(Color::Olive)) == lowercase_name_spec(Color::Olive),
        normalize_name(lowercase_name_spec(Color::Olive)) == lowercase_name_spec(Color::Olive),
{
    reveal_strlit("Olive");
    reveal_strlit("Olive");
    reveal_strlit("olive");
    reveal_strlit("OLIVE");
    reveal_strlit("OLIVE");
    reveal_with_fuel(normalize_name, 6);
}

proof fn lemma_names_olive_drab()
    ensures
        normalize_name(readable_name_spec(Color::OliveDrab)) == lowercase_name_spec(Color::OliveDrab),
        normalize_name(pascal_name_spec(Color::OliveDrab)) == lowercase_name_spec(Color::OliveDrab),
        normalize_name(lower_snake_spec(Color::OliveDrab)) == lowercase_name_spec(Color::OliveDrab),
        normalize_name(upper_snake_spec(Color::OliveDrab)) == lowercase_name_spec(Color::OliveDrab),
        normalize_name(uppercase_name_spec(Color::OliveDrab)) == lowercase_name_spec(Color::OliveDrab),
        normalize_name(lowercase_name_spec(Color::OliveDrab)) == lowercase_name_spec(Color::OliveDrab),
{
    reveal_strlit("Olive Drab");
    reveal_strlit("OliveDrab");
    reveal_strlit("olive_drab");
    reveal_strlit("OLIVE_DRAB");
    reveal_strlit("OLIVEDRAB");
    reveal_with_fuel(normalize_name, 11);
}

proof fn lemma_names_orange()
    ensures
        normalize_name(readable_name_spec(Color::Orange)) == lowercase_name_spec(Color::Orange),
        normalize_name(pascal_name_spec(Color::Orange)) == lowercase_name_spec(Color::Orange),
        normalize_name(lower_snake_spec(Color::Orange)) == lowercase_name_spec(Color::Orange),
        normalize_name(upper_snake_spec(Color::Orange)) == lowercase_name_spec(Color::Orange),
        normalize_name(uppercase_name_spec(Color::Orange)) == lowercase_name_spec(Color::Orange),
        normalize_name(lowercase_name_spec(Color::Orange)) == lowercase_name_spec(Color::Orange),
{
    reveal_strlit("Orange");
    reveal_strlit("Orange");
    reveal_strlit("orange");
    reveal_strlit("ORANGE");
    reveal_strlit("ORANGE");
    reveal_with_fuel(normalize_name, 7);
}

proof fn lemma_names_orange_red()
    ensures
        normalize_name(readable_name_spec(Color::OrangeRed)) == lowercase_name_spec(Color::OrangeRed),
        normalize_name(pascal_name_spec(Color::OrangeRed)) == lowercase_name_spec(Color::OrangeRed),
        normalize_name(lower_snake_spec(Color::OrangeRed)) == lowercase_name_spec(Color::OrangeRed),
        normalize_name(upper_snake_spec(Color::OrangeRed)) == lowercase_name_spec(Color::OrangeRed),
        normalize_name(uppercase_name_spec(Color::OrangeRed)) == lowercase_name_spec(Color::OrangeRed),
        normalize_name(lowercase_name_spec(Color::OrangeRed)) == lowercase_name_spec(Color::OrangeRed),
{
    reveal_strlit("Orange Red");
    reveal_strlit("OrangeRed");
    reveal_strlit("orange_red");
    reveal_strlit("ORANGE_RED");
    reveal_strlit("ORANGERED");
    reveal_with_fuel(normalize_name, 11);
}

proof fn lemma_names_orchid()
    ensures
        normalize_name(readable_name_spec(Color::Orchid)) == lowercase_name_spec(Color::Orchid),
        normalize_name(pascal_name_spec(Color::Orchid)) == lowercase_name_spec(Color::Orchid),
        normalize_name(lower_snake_spec(Color::Orchid)) == lowercase_name_spec(Color::Orchid),
        normalize_name(upper_snake_spec(Color::Orchid)) == lowercase_name_spec(Color::Orchid),
        normalize_name(uppercase_name_spec(Color::Orchid)) == lowercase_name_spec(Color::Orchid),
        normalize_name(lowercase_name_spec(Color::Orchid)) == lowercase_name_spec(Color::Orchid),
{
    reveal_strlit("Orchid");
    reveal_strlit("Orchid");
    reveal_strlit("orchid");
    reveal_strlit("ORCHID");
    reveal_strlit("ORCHID");
    reveal_with_fuel(normalize_name, 7);
}

proof fn lemma_names_pale_golden_rod()
    ensures
        normalize_name(readable_name_spec(Color::PaleGoldenRod)) == lowercase_name_spec(Color::PaleGoldenRod),
        normalize_name(pascal_name_spec(Color::PaleGoldenRod)) == lowercase_name_spec(Color::PaleGoldenRod),
        normalize_name(lower_snake_spec(Color::PaleGoldenRod)) == lowercase_name_spec(Color::PaleGoldenRod),
        normalize_name(upper_snake_spec(Color::PaleGoldenRod)) == lowercase_name_spec(Color::PaleGoldenRod),
        normalize_name(uppercase_name_spec(Color::PaleGoldenRod)) == lowercase_name_spec(Color::PaleGoldenRod),
        normalize_name(lowercase_name_spec(Color::PaleGoldenRod)) == lowercase_name_spec(Color::PaleGoldenRod),
{
    reveal_strlit("Pale Golden Rod");
    reveal_strlit("PaleGoldenRod");
    reveal_strlit("pale_golden_rod");
    reveal_strlit("PALE_GOLDEN_ROD");
    reveal_strlit("PALEGOLDENROD");
    reveal_with_fuel(normalize_name, 16);
}

proof fn lemma_names_pale_green()
    ensures
        normalize_name(readable_name_spec(Color::PaleGreen)) == lowercase_name_spec(Color::PaleGreen),
        normalize_name(pascal_name_spec(Color::PaleGreen)) == lowercase_name_spec(Color::PaleGreen),
        normalize_name(lower_snake_spec(Color::PaleGreen)) == lowercase_name_spec(Color::PaleGreen),
        normalize_name(upper_snake_spec(Color::PaleGreen)) == lowercase_name_spec(Color::PaleGreen),
        normalize_name(uppercase_name_spec(Color::PaleGreen)) == lowercase_name_spec(Color::PaleGreen),
        normalize_name(lowercase_name_spec(Color::PaleGreen)) == lowercase_name_spec(Color::PaleGreen),
{
    reveal_strlit("Pale Green");
    reveal_strlit("PaleGreen");
    reveal_strlit("pale_green");
    reveal_strlit("PALE_GREEN");
    reveal_strlit("PALEGREEN");
    reveal_with_fuel(normalize_name, 11);
}

proof fn lemma_names_pale_turquoise()
    ensures
        normalize_name(readable_name_spec(Color::PaleTurquoise)) == lowercase_name_spec(Color::PaleTurquoise),
        normalize_name(pascal_name_spec(Color::PaleTurquoise)) == lowercase_name_spec(Color::PaleTurquoise),
        normalize_name(lower_snake_spec(Color::PaleTurquoise)) == lowercase_name_spec(Color::PaleTurquoise),
        normalize_name(upper_snake_spec(Color::PaleTurquoise)) == lowercase_name_spec(Color::PaleTurquoise),
        normalize_name(uppercase_name_spec(Color::PaleTurquoise)) == lowercase_name_spec(Color::PaleTurquoise),
        normalize_name(lowercase_name_spec(Color::PaleTurquoise)) == lowercase_name_spec(Color::PaleTurquoise),
{
    reveal_strlit("Pale Turquoise");
    reveal_strlit("PaleTurquoise");
    reveal_strlit("pale_turquoise");
    reveal_strlit("PALE_TURQUOISE");
    reveal_strlit("PALETURQUOISE");
    reveal_with_fuel(normalize_name, 15);
}

proof fn lemma_names_pale_violet_red()
    ensures
        normalize_name(readable_name_spec(Color::PaleVioletRed)) == lowercase_name_spec(Color::PaleVioletRed),
        normalize_name(pascal_name_spec(Color::PaleVioletRed)) == lowercase_name_spec(Color::PaleVioletRed),
        normalize_name(lower_snake_spec(Color::PaleVioletRed)) == lowercase_name_spec(Color::PaleVioletRed),
        normalize_name(upper_snake_spec(Color::PaleVioletRed)) == lowercase_name_spec(Color::PaleVioletRed),
        normalize_name(uppercase_name_spec(Color::PaleVioletRed)) == lowercase_name_spec(Color::PaleVioletRed),
        normalize_name(lowercase_name_spec(Color::PaleVioletRed)) == lowercase_name_spec(Color::PaleVioletRed),
{
    reveal_strlit("Pale Violet Red");
    reveal_strlit("PaleVioletRed");
    reveal_strlit("pale_violet_red");
    reveal_strlit("PALE_VIOLET_RED");
    reveal_strlit("PALEVIOLETRED");
    reveal_with_fuel(normalize_name, 16);
}

proof fn lemma_names_papaya_whip()
    ensures
        normalize_name(readable_name_spec(Color::PapayaWhip)) == lowercase_name_spec(Color::PapayaWhip),
        normalize_name(pascal_name_spec(Color::PapayaWhip)) == lowercase_name_spec(Color::PapayaWhip),
        normalize_name(lower_snake_spec(Color::PapayaWhip)) == lowercase_name_spec(Color::PapayaWhip),
        normalize_name(upper_snake_spec(Color::PapayaWhip)) == lowercase_name_spec(Color::PapayaWhip),
        normalize_name(uppercase_name_spec(Color::PapayaWhip)) == lowercase_name_spec(Color::PapayaWhip),
        normalize_name(lowercase_name_spec(Color::PapayaWhip)) == lowercase_name_spec(Color::PapayaWhip),
{
    reveal_strlit("Papaya Whip");
    reveal_strlit("PapayaWhip");
    reveal_strlit("papaya_whip");
    reveal_strlit("PAPAYA_WHIP");
    reveal_strlit("PAPAYAWHIP");
    reveal_with_fuel(normalize_name, 12);
}

proof fn lemma_names_peach_puff()
    ensures
        normalize_name(readable_name_spec(Color::PeachPuff)) == lowercase_name_spec(Color::PeachPuff),
        normalize_name(pascal_name_spec(Color::PeachPuff)) == lowercase_name_spec(Color::PeachPuff),
        normalize_name(lower_snake_spec(Color::PeachPuff)) == lowercase_name_spec(Color::PeachPuff),
        normalize_name(upper_snake_spec(Color::PeachPuff)) == lowercase_name_spec(Color::PeachPuff),
        normalize_name(uppercase_name_spec(Color::PeachPuff)) == lowercase_name_spec(Color::PeachPuff),
        normalize_name(lowercase_name_spec(Color::PeachPuff)) == lowercase_name_spec(Color::PeachPuff),
{
    reveal_strlit("Peach Puff");
    reveal_strlit("PeachPuff");
    reveal_strlit("peach_puff");
    reveal_strlit("PEACH_PUFF");
    reveal_strlit("PEACHPUFF");
    reveal_with_fuel(normalize_name, 11);
}

proof fn lemma_names_peru()
    ensures
        normalize_name(readable_name_spec(Color::Peru)) == lowercase_name_spec(Color::Peru),
        normalize_name(pascal_name_spec(Color::Peru)) == lowercase_name_spec(Color::Peru),
        normalize_name(lower_snake_spec(Color::Peru)) == lowercase_name_spec(Color::Peru),
        normalize_name(upper_snake_spec(Color::Peru)) == lowercase_name_spec(Color::Peru),
        normalize_name(uppercase_name_spec(Color::Peru)) == lowercase_name_spec(Color::Peru),
        normalize_name(lowercase_name_spec(Color::Peru)) == lowercase_name_spec(Color::Peru),
{
    reveal_strlit("Peru");
    reveal_strlit("Peru");
    reveal_strlit("peru");
    reveal_strlit("PERU");
    reveal_strlit("PERU");
    reveal_with_fuel(normalize_name, 5);
}

proof fn lemma_names_pink()
    ensures
        normalize_name(readable_name_spec(Color::Pink)) == lowercase_name_spec(Color::Pink),
        normalize_name(pascal_name_spec(Color::Pink)) == lowercase_name_spec(Color::Pink),
        normalize_name(lower_snake_spec(Color::Pink)) == lowercase_name_spec(Color::Pink),
        normalize_name(upper_snake_spec(Color::Pink)) == lowercase_name_spec(Color::Pink),
        normalize_name(uppercase_name_spec(Color::Pink)) == lowercase_name_spec(Color::Pink),
        normalize_name(lowercase_name_spec(Color::Pink)) == lowercase_name_spec(Color::Pink),
{
    reveal_strlit("Pink");
    reveal_strlit("Pink");
    reveal_strlit("pink");
    reveal_strlit("PINK");
    reveal_strlit("PINK");
    reveal_with_fuel(normalize_name, 5);
}

proof fn lemma_names_plum()
    ensures
        normalize_name(readable_name_spec(Color::Plum)) == lowercase_name_spec(Color::Plum),
        normalize_name(pascal_name_spec(Color::Plum)) == lowercase_name_spec(Color::Plum),
        normalize_name(lower_snake_spec(Color::Plum)) == lowercase_name_spec(Color::Plum),
        normalize_name(upper_snake_spec(Color::Plum)) == lowercase_name_spec(Color::Plum),
        normalize_name(uppercase_name_spec(Color::Plum)) == lowercase_name_spec(Color::Plum),
        normalize_name(lowercase_name_spec(Color::Plum)) == lowercase_name_spec(Color::Plum),
{
    reveal_strlit("Plum");
    reveal_strlit("Plum");
    reveal_strlit("plum");
    reveal_strlit("PLUM");
    reveal_strlit("PLUM");
    reveal_with_fuel(normalize_name, 5);
}

proof fn lemma_names_powder_blue()
    ensures
        normalize_name(readable_name_spec(Color::PowderBlue)) == lowercase_name_spec(Color::PowderBlue),
        normalize_name(pascal_name_spec(Color::PowderBlue)) == lowercase_name_spec(Color::PowderBlue),
        normalize_name(lower_snake_spec(Color::PowderBlue)) == lowercase_name_spec(Color::PowderBlue),
        normalize_name(upper_snake_spec(Color::PowderBlue)) == lowercase_name_spec(Color::PowderBlue),
        normalize_name(uppercase_name_spec(Color::PowderBlue)) == lowercase_name_spec(Color::PowderBlue),
        normalize_name(lowercase_name_spec(Color::PowderBlue)) == lowercase_name_spec(Color::PowderBlue),
{
    reveal_strlit("Powder Blue");
    reveal_strlit("PowderBlue");
    reveal_strlit("powder_blue");
    reveal_strlit("POWDER_BLUE");
    reveal_strlit("POWDERBLUE");
    reveal_with_fuel(normalize_name, 12);
}

proof fn lemma_names_purple()
    ensures
        normalize_name(readable_name_spec(Color::Purple)) == lowercase_name_spec(Color::Purple),
        normalize_name(pascal_name_spec(Color::Purple)) == lowercase_name_spec(Color::Purple),
        normalize_name(lower_snake_spec(Color::Purple)) == lowercase_name_spec(Color::Purple),
        normalize_name(upper_snake_spec(Color::Purple)) == lowercase_name_spec(Color::Purple),
        normalize_name(uppercase_name_spec(Color::Purple)) == lowercase_name_spec(Color::Purple),
        normalize_name(lowercase_name_spec(Color::Purple)) == lowercase_name_spec(Color::Purple),
{
    reveal_strlit("Purple");
    reveal_strlit("Purple");
    reveal_strlit("purple");
    reveal_strlit("PURPLE");
    reveal_strlit("PURPLE");
    reveal_with_fuel(normalize_name, 7);
}

proof fn lemma_names_red()
    ensures
        normalize_name(readable_name_spec(Color::Red)) == lowercase_name_spec(Color::Red),
        normalize_name(pascal_name_spec(Color::Red)) == lowercase_name_spec(Color::Red),
        normalize_name(lower_snake_spec(Color::Red)) == lowercase_name_spec(Color::Red),
        normalize_name(upper_snake_spec(Color::Red)) == lowercase_name_spec(Color::Red),
        normalize_name(uppercase_name_spec(Color::Red)) == lowercase_name_spec(Color::Red),
        normalize_name(lowercase_name_spec(Color::Red)) == lowercase_name_spec(Color::Red),
{
    reveal_strlit("Red");
    reveal_strlit("Red");
    reveal_strlit("red");
    reveal_strlit("RED");
    reveal_strlit("RED");
    reveal_with_fuel(normalize_name, 4);
}

proof fn lemma_names_rosy_brown()
    ensures
        normalize_name(readable_name_spec(Color::RosyBrown)) == lowercase_name_spec(Color::RosyBrown),
        normalize_name(pascal_name_spec(Color::RosyBrown)) == lowercase_name_spec(Color::RosyBrown),
        normalize_name(lower_snake_spec(Color::RosyBrown)) == lowercase_name_spec(Color::RosyBrown),
        normalize_name(upper_snake_spec(Color::RosyBrown)) == lowercase_name_spec(Color::RosyBrown),
        normalize_name(uppercase_name_spec(Color::RosyBrown)) == lowercase_name_spec(Color::RosyBrown),
        normalize_name(lowercase_name_spec(Color::RosyBrown)) == lowercase_name_spec(Color::RosyBrown),
{
    reveal_strlit("Rosy Brown");
    reveal_strlit("RosyBrown");
    reveal_strlit("rosy_brown");
    reveal_strlit("ROSY_BROWN");
    reveal_strlit("ROSYBROWN");
    reveal_with_fuel(normalize_name, 11);
}

proof fn lemma_names_royal_blue()
    ensures
        normalize_name(readable_name_spec(Color::RoyalBlue)) == lowercase_name_spec(Color::RoyalBlue),
        normalize_name(pascal_name_spec(Color::RoyalBlue)) == lowercase_name_spec(Color::RoyalBlue),
        normalize_name(lower_snake_spec(Color::RoyalBlue)) == lowercase_name_spec(Color::RoyalBlue),
        normalize_name(upper_snake_spec(Color::RoyalBlue)) == lowercase_name_spec(Color::RoyalBlue),
        normalize_name(uppercase_name_spec(Color::RoyalBlue)) == lowercase_name_spec(Color::RoyalBlue),
        normalize_name(lowercase_name_spec(Color::RoyalBlue)) == lowercase_name_spec(Color::RoyalBlue),
{
    reveal_strlit("Royal Blue");
    reveal_strlit("RoyalBlue");
    reveal_strlit("royal_blue");
    reveal_strlit("ROYAL_BLUE");
    reveal_strlit("ROYALBLUE");
    reveal_with_fuel(normalize_name, 11);
}

proof fn lemma_names_saddle_brown()
    ensures
        normalize_name(readable_name_spec(Color::SaddleBrown)) == lowercase_name_spec(Color::SaddleBrown),
        normalize_name(pascal_name_spec(Color::SaddleBrown)) == lowercase_name_spec(Color::SaddleBrown),
        normalize_name(lower_snake_spec(Color::SaddleBrown)) == lowercase_name_spec(Color::SaddleBrown),
        normalize_name(upper_snake_spec(Color::SaddleBrown)) == lowercase_name_spec(Color::SaddleBrown),
        normalize_name(uppercase_name_spec(Color::SaddleBrown)) == lowercase_name_spec(Color::SaddleBrown),
        normalize_name(lowercase_name_spec(Color::SaddleBrown)) == lowercase_name_spec(Color::SaddleBrown),
{
    reveal_strlit("Saddle Brown");
    reveal_strlit("SaddleBrown");
    reveal_strlit("saddle_brown");
    reveal_strlit("SADDLE_BROWN");
    reveal_strlit("SADDLEBROWN");
    reveal_with_fuel(normalize_name, 13);
}

proof fn lemma_names_salmon()
    ensures
        normalize_name(readable_name_spec(Color::Salmon)) == lowercase_name_spec(Color::Salmon),
        normalize_name(pascal_name_spec(Color::Salmon)) == lowercase_name_spec(Color::Salmon),
        normalize_name(lower_snake_spec(Color::Salmon)) == lowercase_name_spec(Color::Salmon),
        normalize_name(upper_snake_spec(Color::Salmon)) == lowercase_name_spec(Color::Salmon),
        normalize_name(uppercase_name_spec(Color::Salmon)) == lowercase_name_spec(Color::Salmon),
        normalize_name(lowercase_name_spec(Color::Salmon)) == lowercase_name_spec(Color::Salmon),
{
    reveal_strlit("Salmon");
    reveal_strlit("Salmon");
    reveal_strlit("salmon");
    reveal_strlit("SALMON");
    reveal_strlit("SALMON");
    reveal_with_fuel(normalize_name, 7);
}

proof fn lemma_names_sandy_brown()
    ensures
        normalize_name(readable_name_spec(Color::SandyBrown)) == lowercase_name_spec(Color::SandyBrown),
        normalize_name(pascal_name_spec(Color::SandyBrown)) == lowercase_name_spec(Color::SandyBrown),
        normalize_name(lower_snake_spec(Color::SandyBrown)) == lowercase_name_spec(Color::SandyBrown),
        normalize_name(upper_snake_spec(Color::SandyBrown)) == lowercase_name_spec(Color::SandyBrown),
        normalize_name(uppercase_name_spec(Color::SandyBrown)) == lowercase_name_spec(Color::SandyBrown),
        normalize_name(lowercase_name_spec(Color::SandyBrown)) == lowercase_name_spec(Color::SandyBrown),
{
    reveal_strlit("Sandy Brown");
    reveal_strlit("SandyBrown");
    reveal_strlit("sandy_brown");
    reveal_strlit("SANDY_BROWN");
    reveal_strlit("SANDYBROWN");
    reveal_with_fuel(normalize_name, 12);
}

proof fn lemma_names_sea_green()
    ensures
        normalize_name(readable_name_spec(Color::SeaGreen)) == lowercase_name_spec(Color::SeaGreen),
        normalize_name(pascal_name_spec(Color::SeaGreen)) == lowercase_name_spec(Color::SeaGreen),
        normalize_name(lower_snake_spec(Color::SeaGreen)) == lowercase_name_spec(Color::SeaGreen),
        normalize_name(upper_snake_spec(Color::SeaGreen)) == lowercase_name_spec(Color::SeaGreen),
        normalize_name(uppercase_name_spec(Color::SeaGreen)) == lowercase_name_spec(Color::SeaGreen),
        normalize_name(lowercase_name_spec(Color::SeaGreen)) == lowercase_name_spec(Color::SeaGreen),
{
    reveal_strlit("Sea Green");
    reveal_strlit("SeaGreen");
    reveal_strlit("sea_green");
    reveal_strlit("SEA_GREEN");
    reveal_strlit("SEAGREEN");
    reveal_with_fuel(normalize_name, 10);
}

proof fn lemma_names_sea_shell()
    ensures
        normalize_name(readable_name_spec(Color::SeaShell)) == lowercase_name_spec(Color::SeaShell),
        normalize_name(pascal_name_spec(Color::SeaShell)) == lowercase_name_spec(Color::SeaShell),
        normalize_name(lower_snake_spec(Color::SeaShell)) == lowercase_name_spec(Color::SeaShell),
        normalize_name(upper_snake_spec(Color::SeaShell)) == lowercase_name_spec(Color::SeaShell),
        normalize_name(uppercase_name_spec(Color::SeaShell)) == lowercase_name_spec(Color::SeaShell),
        normalize_name(lowercase_name_spec(Color::SeaShell)) == lowercase_name_spec(Color::SeaShell),
{
    reveal_strlit("Sea Shell");
    reveal_strlit("SeaShell");
    reveal_strlit("sea_shell");
    reveal_strlit("SEA_SHELL");
    reveal_strlit("SEASHELL");
    reveal_with_fuel(normalize_name, 10);
}

proof fn lemma_names_sienna()
    ensures
        normalize_name(readable_name_spec(Color::Sienna)) == lowercase_name_spec(Color::Sienna),
        normalize_name(pascal_name_spec(Color::Sienna)) == lowercase_name_spec(Color::Sienna),
        normalize_name(lower_snake_spec(Color::Sienna)) == lowercase_name_spec(Color::Sienna),
        normalize_name(upper_snake_spec(Color::Sienna)) == lowercase_name_spec(Color::Sienna),
        normalize_name(uppercase_name_spec(Color::Sienna)) == lowercase_name_spec(Color::Sienna),
        normalize_name(lowercase_name_spec(Color::Sienna)) == lowercase_name_spec(Color::Sienna),
{
    reveal_strlit("Sienna");
    reveal_strlit("Sienna");
    reveal_strlit("sienna");
    reveal_strlit("SIENNA");
    reveal_strlit("SIENNA");
    reveal_with_fuel(normalize_name, 7);
}

proof fn lemma_names_silver()
    ensures
        normalize_name(readable_name_spec(Color::Silver)) == lowercase_name_spec(Color::Silver),
        normalize_name(pascal_name_spec(Color::Silver)) == lowercase_name_spec(Color::Silver),
        normalize_name(lower_snake_spec(Color::Silver)) == lowercase_name_spec(Color::Silver),
        normalize_name(upper_snake_spec(Color::Silver)) == lowercase_name_spec(Color::Silver),
        normalize_name(uppercase_name_spec(Color::Silver)) == lowercase_name_spec(Color::Silver),
        normalize_name(lowercase_name_spec(Color::Silver)) == lowercase_name_spec(Color::Silver),
{
    reveal_strlit("Silver");
    reveal_strlit("Silver");
    reveal_strlit("silver");
    reveal_strlit("SILVER");
    reveal_strlit("SILVER");
    reveal_with_fuel(normalize_name, 7);
}

proof fn lemma_names_sky_blue()
    ensures
        normalize_name(readable_name_spec(Color::SkyBlue)) == lowercase_name_spec(Color::SkyBlue),
        normalize_name(pascal_name_spec(Color::SkyBlue)) == lowercase_name_spec(Color::SkyBlue),
        normalize_name(lower_snake_spec(Color::SkyBlue)) == lowercase_name_spec(Color::SkyBlue),
        normalize_name(upper_snake_spec(Color::SkyBlue)) == lowercase_name_spec(Color::SkyBlue),
        normalize_name(uppercase_name_spec(Color::SkyBlue)) == lowercase_name_spec(Color::SkyBlue),
        normalize_name(lowercase_name_spec(Color::SkyBlue)) == lowercase_name_spec(Color::SkyBlue),
{
    reveal_strlit("Sky Blue");
    reveal_strlit("SkyBlue");
    reveal_strlit("sky_blue");
    reveal_strlit("SKY_BLUE");
    reveal_strlit("SKYBLUE");
    reveal_with_fuel(normalize_name, 9);
}

proof fn lemma_names_slate_blue()
    ensures
        normalize_name(readable_name_spec(Color::SlateBlue)) == lowercase_name_spec(Color::SlateBlue),
        normalize_name(pascal_name_spec(Color::SlateBlue)) == lowercase_name_spec(Color::SlateBlue),
        normalize_name(lower_snake_spec(Color::SlateBlue)) == lowercase_name_spec(Color::SlateBlue),
        normalize_name(upper_snake_spec(Color::SlateBlue)) == lowercase_name_spec(Color::SlateBlue),
        normalize_name(uppercase_name_spec(Color::SlateBlue)) == lowercase_name_spec(Color::SlateBlue),
        normalize_name(lowercase_name_spec(Color::SlateBlue)) == lowercase_name_spec(Color::SlateBlue),
{
    reveal_strlit("Slate Blue");
    reveal_strlit("SlateBlue");
    reveal_strlit("slate_blue");
    reveal_strlit("SLATE_BLUE");
    reveal_strlit("SLATEBLUE");
    reveal_with_fuel(normalize_name, 11);
}

proof fn lemma_names_slate_gray()
    ensures
        normalize_name(readable_name_spec(Color::SlateGray)) == lowercase_name_spec(Color::SlateGray),
        normalize_name(pascal_name_spec(Color::SlateGray)) == lowercase_name_spec(Color::SlateGray),
        normalize_name(lower_snake_spec(Color::SlateGray)) == lowercase_name_spec(Color::SlateGray),
        normalize_name(upper_snake_spec(Color::SlateGray)) == lowercase_name_spec(Color::SlateGray),
        normalize_name(uppercase_name_spec(Color::SlateGray)) == lowercase_name_spec(Color::SlateGray),
        normalize_name(lowercase_name_spec(Color::SlateGray)) == lowercase_name_spec(Color::SlateGray),
{
    reveal_strlit("Slate Gray");
    reveal_strlit("SlateGray");
    reveal_strlit("slate_gray");
    reveal_strlit("SLATE_GRAY");
    reveal_strlit("SLATEGRAY");
    reveal_with_fuel(normalize_name, 11);
}

proof fn lemma_names_snow()
    ensures
        normalize_name(readable_name_spec(Color::Snow)) == lowercase_name_spec(Color::Snow),
        normalize_name(pascal_name_spec(Color::Snow)) == lowercase_name_spec(Color::Snow),
        normalize_name(lower_snake_spec(Color::Snow)) == lowercase_name_spec(Color::Snow),
        normalize_name(upper_snake_spec(Color::Snow)) == lowercase_name_spec(Color::Snow),
        normalize_name(uppercase_name_spec(Color::Snow)) == lowercase_name_spec(Color::Snow),
        normalize_name(lowercase_name_spec(Color::Snow)) == lowercase_name_spec(Color::Snow),
{
    reveal_strlit("Snow");
    reveal_strlit("Snow");
    reveal_strlit("snow");
    reveal_strlit("SNOW");
    reveal_strlit("SNOW");
    reveal_with_fuel(normalize_name, 5);
}

proof fn lemma_names_spring_green()
    ensures
        normalize_name(readable_name_spec(Color::SpringGreen)) == lowercase_name_spec(Color::SpringGreen),
        normalize_name(pascal_name_spec(Color::SpringGreen)) == lowercase_name_spec(Color::SpringGreen),
        normalize_name(lower_snake_spec(Color::SpringGreen)) == lowercase_name_spec(Color::SpringGreen),
        normalize_name(upper_snake_spec(Color::SpringGreen)) == lowercase_name_spec(Color::SpringGreen),
        normalize_name(uppercase_name_spec(Color::SpringGreen)) == lowercase_name_spec(Color::SpringGreen),
        normalize_name(lowercase_name_spec(Color::SpringGreen)) == lowercase_name_spec(Color::SpringGreen),
{
    reveal_strlit("Spring Green");
    reveal_strlit("SpringGreen");
    reveal_strlit("spring_green");
    reveal_strlit("SPRING_GREEN");
    reveal_strlit("SPRINGGREEN");
    reveal_with_fuel(normalize_name, 13);
}

proof fn lemma_names_steel_blue()
    ensures
        normalize_name(readable_name_spec(Color::SteelBlue)) == lowercase_name_spec(Color::SteelBlue),
        normalize_name(pascal_name_spec(Color::SteelBlue)) == lowercase_name_spec(Color::SteelBlue),
        normalize_name(lower_snake_spec(Color::SteelBlue)) == lowercase_name_spec(Color::SteelBlue),
        normalize_name(upper_snake_spec(Color::SteelBlue)) == lowercase_name_spec(Color::SteelBlue),
        normalize_name(uppercase_name_spec(Color::SteelBlue)) == lowercase_name_spec(Color::SteelBlue),
        normalize_name(lowercase_name_spec(Color::SteelBlue)) == lowercase_name_spec(Color::SteelBlue),
{
    reveal_strlit("Steel Blue");
    reveal_strlit("SteelBlue");
    reveal_strlit("steel_blue");
    reveal_strlit("STEEL_BLUE");
    reveal_strlit("STEELBLUE");
    reveal_with_fuel(normalize_name, 11);
}

proof fn lemma_names_tan()
    ensures
        normalize_name(readable_name_spec(Color::Tan)) == lowercase_name_spec(Color::Tan),
        normalize_name(pascal_name_spec(Color::Tan)) == lowercase_name_spec(Color::Tan),
        normalize_name(lower_snake_spec(Color::Tan)) == lowercase_name_spec(Color::Tan),
        normalize_name(upper_snake_spec(Color::Tan)) == lowercase_name_spec(Color::Tan),
        normalize_name(uppercase_name_spec(Color::Tan)) == lowercase_name_spec(Color::Tan),
        normalize_name(lowercase_name_spec(Color::Tan)) == lowercase_name_spec(Color::Tan),
{
    reveal_strlit("Tan");
    reveal_strlit("Tan");
    reveal_strlit("tan");
    reveal_strlit("TAN");
    reveal_strlit("TAN");
    reveal_with_fuel(normalize_name, 4);
}

proof fn lemma_names_teal()
    ensures
        normalize_name(readable_name_spec(Color::Teal)) == lowercase_name_spec(Color::Teal),
        normalize_name(pascal_name_spec(Color::Teal)) == lowercase_name_spec(Color::Teal),
        normalize_name(lower_snake_spec(Color::Teal)) == lowercase_name_spec(Color::Teal),
        normalize_name(upper_snake_spec(Color::Teal)) == lowercase_name_spec(Color::Teal),
        normalize_name(uppercase_name_spec(Color::Teal)) == lowercase_name_spec(Color::Teal),
        normalize_name(lowercase_name_spec(Color::Teal)) == lowercase_name_spec(Color::Teal),
{
    reveal_strlit("Teal");
    reveal_strlit("Teal");
    reveal_strlit("teal");
    reveal_strlit("TEAL");
    reveal_strlit("TEAL");
    reveal_with_fuel(normalize_name, 5);
}

proof fn lemma_names_thistle()
    ensures
        normalize_name(readable_name_spec(Color::Thistle)) == lowercase_name_spec(Color::Thistle),
        normalize_name(pascal_name_spec(Color::Thistle)) == lowercase_name_spec(Color::Thistle),
        normalize_name(lower_snake_spec(Color::Thistle)) == lowercase_name_spec(Color::Thistle),
        normalize_name(upper_snake_spec(Color::Thistle)) == lowercase_name_spec(Color::Thistle),
        normalize_name(uppercase_name_spec(Color::Thistle)) == lowercase_name_spec(Color::Thistle),
        normalize_name(lowercase_name_spec(Color::Thistle)) == lowercase_name_spec(Color::Thistle),
{
    reveal_strlit("Thistle");
    reveal_strlit("Thistle");
    reveal_strlit("thistle");
    reveal_strlit("THISTLE");
    reveal_strlit("THISTLE");
    reveal_with_fuel(normalize_name, 8);
}

proof fn lemma_names_tomato()
    ensures
        normalize_name(readable_name_spec(Color::Tomato)) == lowercase_name_spec(Color::Tomato),
        normalize_name(pascal_name_spec(Color::Tomato)) == lowercase_name_spec(Color::Tomato),
        normalize_name(lower_snake_spec(Color::Tomato)) == lowercase_name_spec(Color::Tomato),
        normalize_name(upper_snake_spec(Color::Tomato)) == lowercase_name_spec(Color::Tomato),
        normalize_name(uppercase_name_spec(Color::Tomato)) == lowercase_name_spec(Color::Tomato),
        normalize_name(lowercase_name_spec(Color::Tomato)) == lowercase_name_spec(Color::Tomato),
{
    reveal_strlit("Tomato");
    reveal_strlit("Tomato");
    reveal_strlit("tomato");
    reveal_strlit("TOMATO");
    reveal_strlit("TOMATO");
    reveal_with_fuel(normalize_name, 7);
}

proof fn lemma_names_turquoise()
    ensures
        normalize_name(readable_name_spec(Color::Turquoise)) == lowercase_name_spec(Color::Turquoise),
        normalize_name(pascal_name_spec(Color::Turquoise)) == lowercase_name_spec(Color::Turquoise),
        normalize_name(lower_snake_spec(Color::Turquoise)) == lowercase_name_spec(Color::Turquoise),
        normalize_name(upper_snake_spec(Color::Turquoise)) == lowercase_name_spec(Color::Turquoise),
        normalize_name(uppercase_name_spec(Color::Turquoise)) == lowercase_name_spec(Color::Turquoise),
        normalize_name(lowercase_name_spec(Color::Turquoise)) == lowercase_name_spec(Color::Turquoise),
{
    reveal_strlit("Turquoise");
    reveal_strlit("Turquoise");
    reveal_strlit("turquoise");
    reveal_strlit("TURQUOISE");
    reveal_strlit("TURQUOISE");
    reveal_with_fuel(normalize_name, 10);
}

proof fn lemma_names_violet()
    ensures
        normalize_name(readable_name_spec(Color::Violet)) == lowercase_name_spec(Color::Violet),
        normalize_name(pascal_name_spec(Color::Violet)) == lowercase_name_spec(Color::Violet),
        normalize_name(lower_snake_spec(Color::Violet)) == lowercase_name_spec(Color::Violet),
        normalize_name(upper_snake_spec(Color::Violet)) == lowercase_name_spec(Color::Violet),
        normalize_name(uppercase_name_spec(Color::Violet)) == lowercase_name_spec(Color::Violet),
        normalize_name(lowercase_name_spec(Color::Violet)) == lowercase_name_spec(Color::Violet),
{
    reveal_strlit("Violet");
    reveal_strlit("Violet");
    reveal_strlit("violet");
    reveal_strlit("VIOLET");
    reveal_strlit("VIOLET");
    reveal_with_fuel(normalize_name, 7);
}

proof fn lemma_names_wheat()
    ensures
        normalize_name(readable_name_spec(Color::Wheat)) == lowercase_name_spec(Color::Wheat),
        normalize_name(pascal_name_spec(Color::Wheat)) == lowercase_name_spec(Color::Wheat),
        normalize_name(lower_snake_spec(Color::Wheat)) == lowercase_name_spec(Color::Wheat),
        normalize_name(upper_snake_spec(Color::Wheat)) == lowercase_name_spec(Color::Wheat),
        normalize_name(uppercase_name_spec(Color::Wheat)) == lowercase_name_spec(Color::Wheat),
        normalize_name(lowercase_name_spec(Color::Wheat)) == lowercase_name_spec(Color::Wheat),
{
    reveal_strlit("Wheat");
    reveal_strlit("Wheat");
    reveal_strlit("wheat");
    reveal_strlit("WHEAT");
    reveal_strlit("WHEAT");
    reveal_with_fuel(normalize_name, 6);
}

proof fn lemma_names_white()
    ensures
        normalize_name(readable_name_spec(Color::White)) == lowercase_name_spec(Color::White),
        normalize_name(pascal_name_spec(Color::White)) == lowercase_name_spec(Color::White),
        normalize_name(lower_snake_spec(Color::White)) == lowercase_name_spec(Color::White),
        normalize_name(upper_snake_spec(Color::White)) == lowercase_name_spec(Color::White),
        normalize_name(uppercase_name_spec(Color::White)) == lowercase_name_spec(Color::White),
        normalize_name(lowercase_name_spec(Color::White)) == lowercase_name_spec(Color::White),
{
    reveal_strlit("White");
    reveal_strlit("White");
    reveal_strlit("white");
    reveal_strlit("WHITE");
    reveal_strlit("WHITE");
    reveal_with_fuel(normalize_name, 6);
}

proof fn lemma_names_white_smoke()
    ensures
        normalize_name(readable_name_spec(Color::WhiteSmoke)) == lowercase_name_spec(Color::WhiteSmoke),
        normalize_name(pascal_name_spec(Color::WhiteSmoke)) == lowercase_name_spec(Color::WhiteSmoke),
        normalize_name(lower_snake_spec(Color::WhiteSmoke)) == lowercase_name_spec(Color::WhiteSmoke),
        normalize_name(upper_snake_spec(Color::WhiteSmoke)) == lowercase_name_spec(Color::WhiteSmoke),
        normalize_name(uppercase_name_spec(Color::WhiteSmoke)) == lowercase_name_spec(Color::WhiteSmoke),
        normalize_name(lowercase_name_spec(Color::WhiteSmoke)) == lowercase_name_spec(Color::WhiteSmoke),
{
    reveal_strlit("White Smoke");
    reveal_strlit("WhiteSmoke");
    reveal_strlit("white_smoke");
    reveal_strlit("WHITE_SMOKE");
    reveal_strlit("WHITESMOKE");
    reveal_with_fuel(normalize_name, 12);
}

proof fn lemma_names_yellow()
    ensures
        normalize_name(readable_name_spec(Color::Yellow)) == lowercase_name_spec(Color::Yellow),
        normalize_name(pascal_name_spec(Color::Yellow)) == lowercase_name_spec(Color::Yellow),
        normalize_name(lower_snake_spec(Color::Yellow)) == lowercase_name_spec(Color::Yellow),
        normalize_name(upper_snake_spec(Color::Yellow)) == lowercase_name_spec(Color::Yellow),
        normalize_name(uppercase_name_spec(Color::Yellow)) == lowercase_name_spec(Color::Yellow),
        normalize_name(lowercase_name_spec(Color::Yellow)) == lowercase_name_spec(Color::Yellow),
{
    reveal_strlit("Yellow");
    reveal_strlit("Yellow");
    reveal_strlit("yellow");
    reveal_strlit("YELLOW");
    reveal_strlit("YELLOW");
    reveal_with_fuel(normalize_name, 7);
}

proof fn lemma_names_yellow_green()
    ensures
        normalize_name(readable_name_spec(Color::YellowGreen)) == lowercase_name_spec(Color::YellowGreen),
        normalize_name(pascal_name_spec(Color::YellowGreen)) == lowercase_name_spec(Color::YellowGreen),
        normalize_name(lower_snake_spec(Color::YellowGreen)) == lowercase_name_spec(Color::YellowGreen),
        normalize_name(upper_snake_spec(Color::YellowGreen)) == lowercase_name_spec(Color::YellowGreen),
        normalize_name(uppercase_name_spec(Color::YellowGreen)) == lowercase_name_spec(Color::YellowGreen),
        normalize_name(lowercase_name_spec(Color::YellowGreen)) == lowercase_name_spec(Color::YellowGreen),
{
    reveal_strlit("Yellow Green");
    reveal_strlit("YellowGreen");
    reveal_strlit("yellow_green");
    reveal_strlit("YELLOW_GREEN");
    reveal_strlit("YELLOWGREEN");
    reveal_with_fuel(normalize_name, 13);
}

/// Every name of every color reads as its lowercase name.
pub proof fn lemma_names_normalize(c: Color)
    ensures
        names_normalize(c),
{
    match c {
        Color::AliceBlue => lemma_names_alice_blue(),
        Color::AntiqueWhite => lemma_names_antique_white(),
        Color::Aqua => lemma_names_aqua(),
        Color::Aquamarine => lemma_names_aquamarine(),
        Color::Azure => lemma_names_azure(),
        Color::Beige => lemma_names_beige(),
        Color::Bisque => lemma_names_bisque(),
        Color::Black => lemma_names_black(),
        Color::BlanchedAlmond => lemma_names_blanched_almond(),
        Color::Blue => lemma_names_blue(),
        Color::BlueViolet => lemma_names_blue_violet(),
        Color::Brown => lemma_names_brown(),
        Color::BurlyWood => lemma_names_burly_wood(),
        Color::CadetBlue => lemma_names_cadet_blue(),
        Color::Chartreuse => lemma_names_chartreuse(),
        Color::Chocolate => lemma_names_chocolate(),
        Color::Coral => lemma_names_coral(),
        Color::CornflowerBlue => lemma_names_cornflower_blue(),
        Color::Cornsilk => lemma_names_cornsilk(),
        Color::Crimson => lemma_names_crimson(),
        Color::Cyan => lemma_names_cyan(),
        Color::DarkBlue => lemma_names_dark_blue(),
        Color::DarkCyan => lemma_names_dark_cyan(),
        Color::DarkGoldenRod => lemma_names_dark_golden_rod(),
        Color::DarkGray => lemma_names_dark_gray(),
        Color::DarkGreen => lemma_names_dark_green(),
        Color::DarkKhaki => lemma_names_dark_khaki(),
        Color::DarkMagenta => lemma_names_dark_magenta(),
        Color::DarkOliveGreen => lemma_names_dark_olive_green(),
        Color::DarkOrange => lemma_names_dark_orange(),
        Color::DarkOrchid => lemma_names_dark_orchid(),
        Color::DarkRed => lemma_names_dark_red(),
        Color::DarkSalmon => lemma_names_dark_salmon(),
        Color::DarkSeaGreen => lemma_names_dark_sea_green(),
        Color::DarkSlateBlue => lemma_names_dark_slate_blue(),
        Color::DarkSlateGray => lemma_names_dark_slate_gray(),
        Color::DarkTurquoise => lemma_names_dark_turquoise(),
        Color::DarkViolet => lemma_names_dark_violet(),
        Color::DeepPink => lemma_names_deep_pink(),
        Color::DeepSkyBlue => lemma_names_deep_sky_blue(),
        Color::DimGray => lemma_names_dim_gray(),
        Color::DodgerBlue => lemma_names_dodger_blue(),
        Color::FireBrick => lemma_names_fire_brick(),
        Color::FloralWhite => lemma_names_floral_white(),
        Color::ForestGreen => lemma_names_forest_green(),
        Color::Fuchsia => lemma_names_fuchsia(),
        Color::Gainsboro => lemma_names_gainsboro(),
        Color::GhostWhite => lemma_names_ghost_white(),
        Color::Gold => lemma_names_gold(),
        Color::GoldenRod => lemma_names_golden_rod(),
        Color::Gray => lemma_names_gray(),
        Color::Green => lemma_names_green(),
        Color::GreenYellow => lemma_names_green_yellow(),
        Color::HoneyDew => lemma_names_honey_dew(),
        Color::HotPink => lemma_names_hot_pink(),
        Color::IndianRed => lemma_names_indian_red(),
        Color::Indigo => lemma_names_indigo(),
        Color::Ivory => lemma_names_ivory(),
        Color::Khaki => lemma_names_khaki(),
        Color::Lavender => lemma_names_lavender(),
        Color::LavenderBlush => lemma_names_lavender_blush(),
        Color::LawnGreen => lemma_names_lawn_green(),
        Color::LemonChiffon => lemma_names_lemon_chiffon(),
        Color::LightBlue => lemma_names_light_blue(),
        Color::LightCoral => lemma_names_light_coral(),
        Color::LightCyan => lemma_names_light_cyan(),
        Color::LightGoldenRodYellow => lemma_names_light_golden_rod_yellow(),
        Color::LightGray => lemma_names_light_gray(),
        Color::LightGreen => lemma_names_light_green(),
        Color::LightPink => lemma_names_light_pink(),
        Color::LightSalmon => lemma_names_light_salmon(),
        Color::LightSeaGreen => lemma_names_light_sea_green(),
        Color::LightSkyBlue => lemma_names_light_sky_blue(),
        Color::LightSlateGray => lemma_names_light_slate_gray(),
        Color::LightSteelBlue => lemma_names_light_steel_blue(),
        Color::LightYellow => lemma_names_light_yellow(),
        Color::Lime => lemma_names_lime(),
        Color::LimeGreen => lemma_names_lime_green(),
        Color::Linen => lemma_names_linen(),
        Color::Magenta => lemma_names_magenta(),
        Color::Maroon => lemma_names_maroon(),
        Color::MediumAquaMarine => lemma_names_medium_aqua_marine(),
        Color::MediumBlue => lemma_names_medium_blue(),
        Color::MediumOrchid => lemma_names_medium_orchid(),
        Color::MediumPurple => lemma_names_medium_purple(),
        Color::MediumSeaGreen => lemma_names_medium_sea_green(),
        Color::MediumSlateBlue => lemma_names_medium_slate_blue(),
        Color::MediumSpringGreen => lemma_names_medium_spring_green(),
        Color::MediumTurquoise => lemma_names_medium_turquoise(),
        Color::MediumVioletRed => lemma_names_medium_violet_red(),
        Color::MidnightBlue => lemma_names_midnight_blue(),
        Color::MintCream => lemma_names_mint_cream(),
        Color::MistyRose => lemma_names_misty_rose(),
        Color::Moccasin => lemma_names_moccasin(),
        Color::NavajoWhite => lemma_names_navajo_white(),
        Color::Navy => lemma_names_navy(),
        Color::OldLace => lemma_names_old_lace(),
        Color::Olive => lemma_names_olive(),
        Color::OliveDrab => lemma_names_olive_drab(),
        Color::Orange => lemma_names_orange(),
        Color::OrangeRed => lemma_names_orange_red(),
        Color::Orchid => lemma_names_orchid(),
        Color::PaleGoldenRod => lemma_names_pale_golden_rod(),
        Color::PaleGreen => lemma_names_pale_green(),
        Color::PaleTurquoise => lemma_names_pale_turquoise(),
        Color::PaleVioletRed => lemma_names_pale_violet_red(),
        Color::PapayaWhip => lemma_names_papaya_whip(),
        Color::PeachPuff => lemma_names_peach_puff(),
        Color::Peru => lemma_names_peru(),
        Color::Pink => lemma_names_pink(),
        Color::Plum => lemma_names_plum(),
        Color::PowderBlue => lemma_names_powder_blue(),
        Color::Purple => lemma_names_purple(),
        Color::Red => lemma_names_red(),
        Color::RosyBrown => lemma_names_rosy_brown(),
        Color::RoyalBlue => lemma_names_royal_blue(),
        Color::SaddleBrown => lemma_names_saddle_brown(),
        Color::Salmon => lemma_names_salmon(),
        Color::SandyBrown => lemma_names_sandy_brown(),
        Color::SeaGreen => lemma_names_sea_green(),
        Color::SeaShell => lemma_names_sea_shell(),
        Color::Sienna => lemma_names_sienna(),
        Color::Silver => lemma_names_silver(),
        Color::SkyBlue => lemma_names_sky_blue(),
        Color::SlateBlue => lemma_names_slate_blue(),
        Color::SlateGray => lemma_names_slate_gray(),
        Color::Snow => lemma_names_snow(),
        Color::SpringGreen => lemma_names_spring_green(),
        Color::SteelBlue => lemma_names_steel_blue(),
        Color::Tan => lemma_names_tan(),
        Color::Teal => lemma_names_teal(),
        Color::Thistle => lemma_names_thistle(),
        Color::Tomato => lemma_names_tomato(),
        Color::Turquoise => lemma_names_turquoise(),
        Color::Violet => lemma_names_violet(),
        Color::Wheat => lemma_names_wheat(),
        Color::White => lemma_names_white(),
        Color::WhiteSmoke => lemma_names_white_smoke(),
        Color::Yellow => lemma_names_yellow(),
        Color::YellowGreen => lemma_names_yellow_green(),
    }
}

/// A name that reads as the lowercase name of `c` names `c`.
pub proof fn lemma_named_color(c: Color, name: Seq<char>)
    requires
        normalize_name(name) == lowercase_name_spec(c),
    ensures
        named_color(name) == Some(c),
{
    assert(lowercase_name_spec(c) == normalize_name(name));
    let k = choose|k: Color| #[trigger] lowercase_name_spec(k) == normalize_name(name);
    if k != c {
        lemma_lowercase_names_distinct(k, c);
    }
}

/// [`crate::color_lookup::find_color`] finds every color under each of its six
/// names.
pub proof fn lemma_found_under_every_name(c: Color)
    ensures
        named_color(readable_name_spec(c)) == Some(c),
        named_color(pascal_name_spec(c)) == Some(c),
        named_color(lower_snake_spec(c)) == Some(c),
        named_color(upper_snake_spec(c)) == Some(c),
        named_color(uppercase_name_spec(c)) == Some(c),
        named_color(lowercase_name_spec(c)) == Some(c),
{
    lemma_names_normalize(c);
    lemma_named_color(c, readable_name_spec(c));
    lemma_named_color(c, pascal_name_spec(c));
    lemma_named_color(c, lower_snake_spec(c));
    lemma_named_color(c, upper_snake_spec(c));
    lemma_named_color(c, uppercase_name_spec(c));
    lemma_named_color(c, lowercase_name_spec(c));
}

} // verus!
