//! The RGB value of every named color agrees with its hex text.
use vstd::prelude::*;
use crate::color::{hex_chars, parse_hex_rgb, lemma_rgb_hex_text_round_trip};
use crate::color_table::{Color, hex_spec, rgb_spec};

verus! {

proof fn lemma_hex_alice_blue()
    ensures
        hex_spec(Color::AliceBlue) == seq!['#'] + hex_chars(seq![rgb_spec(Color::AliceBlue).r, rgb_spec(Color::AliceBlue).g, rgb_spec(Color::AliceBlue).b]),
{
    reveal_strlit("#F0F8FF");
    assert(hex_spec(Color::AliceBlue) =~= seq!['#'] + hex_chars(seq![rgb_spec(Color::AliceBlue).r, rgb_spec(Color::AliceBlue).g, rgb_spec(Color::AliceBlue).b]));
}

proof fn lemma_hex_antique_white()
    ensures
        hex_spec(Color::AntiqueWhite) == seq!['#'] + hex_chars(seq![rgb_spec(Color::AntiqueWhite).r, rgb_spec(Color::AntiqueWhite).g, rgb_spec(Color::AntiqueWhite).b]),
{
    reveal_strlit("#FAEBD7");
    assert(hex_spec(Color::AntiqueWhite) =~= seq!['#'] + hex_chars(seq![rgb_spec(Color::AntiqueWhite).r, rgb_spec(Color::AntiqueWhite).g, rgb_spec(Color::AntiqueWhite).b]));
}

proof fn lemma_hex_aqua()
    ensures
        hex_spec(Color::Aqua) == seq!['#'] + hex_chars(seq![rgb_spec(Color::Aqua).r, rgb_spec(Color::Aqua).g, rgb_spec(Color::Aqua).b]),
{
    reveal_strlit("#00FFFF");
    assert(hex_spec(Color::Aqua) =~= seq!['#'] + hex_chars(seq![rgb_spec(Color::Aqua).r, rgb_spec(Color::Aqua).g, rgb_spec(Color::Aqua).b]));
}

proof fn lemma_hex_aquamarine()
    ensures
        hex_spec(Color::Aquamarine) == seq!['#'] + hex_chars(seq![rgb_spec(Color::Aquamarine).r, rgb_spec(Color::Aquamarine).g, rgb_spec(Color::Aquamarine).b]),
{
    reveal_strlit("#7FFFD4");
    assert(hex_spec(Color::Aquamarine) =~= seq!['#'] + hex_chars(seq![rgb_spec(Color::Aquamarine).r, rgb_spec(Color::Aquamarine).g, rgb_spec(Color::Aquamarine).b]));
}

proof fn lemma_hex_azure()
    ensures
        hex_spec(Color::Azure) == seq!['#'] + hex_chars(seq![rgb_spec(Color::Azure).r, rgb_spec(Color::Azure).g, rgb_spec(Color::Azure).b]),
{
    reveal_strlit("#F0FFFF");
    assert(hex_spec(Color::Azure) =~= seq!['#'] + hex_chars(seq![rgb_spec(Color::Azure).r, rgb_spec(Color::Azure).g, rgb_spec(Color::Azure).b]));
}

proof fn lemma_hex_beige()
    ensures
        hex_spec(Color::Beige) == seq!['#'] + hex_chars(seq![rgb_spec(Color::Beige).r, rgb_spec(Color::Beige).g, rgb_spec(Color::Beige).b]),
{
    reveal_strlit("#F5F5DC");
    assert(hex_spec(Color::Beige) =~= seq!['#'] + hex_chars(seq![rgb_spec(Color::Beige).r, rgb_spec(Color::Beige).g, rgb_spec(Color::Beige).b]));
}

proof fn lemma_hex_bisque()
    ensures
        hex_spec(Color::Bisque) == seq!['#'] + hex_chars(seq![rgb_spec(Color::Bisque).r, rgb_spec(Color::Bisque).g, rgb_spec(Color::Bisque).b]),
{
    reveal_strlit("#FFE4C4");
    assert(hex_spec(Color::Bisque) =~= seq!['#'] + hex_chars(seq![rgb_spec(Color::Bisque).r, rgb_spec(Color::Bisque).g, rgb_spec(Color::Bisque).b]));
}

proof fn lemma_hex_black()
    ensures
        hex_spec(Color::Black) == seq!['#'] + hex_chars(seq![rgb_spec(Color::Black).r, rgb_spec(Color::Black).g, rgb_spec(Color::Black).b]),
{
    reveal_strlit("#000000");
    assert(hex_spec(Color::Black) =~= seq!['#'] + hex_chars(seq![rgb_spec(Color::Black).r, rgb_spec(Color::Black).g, rgb_spec(Color::Black).b]));
}

proof fn lemma_hex_blanched_almond()
    ensures
        hex_spec(Color::BlanchedAlmond) == seq!['#'] + hex_chars(seq![rgb_spec(Color::BlanchedAlmond).r, rgb_spec(Color::BlanchedAlmond).g, rgb_spec(Color::BlanchedAlmond).b]),
{
    reveal_strlit("#FFEBCD");
    assert(hex_spec(Color::BlanchedAlmond) =~= seq!['#'] + hex_chars(seq![rgb_spec(Color::BlanchedAlmond).r, rgb_spec(Color::BlanchedAlmond).g, rgb_spec(Color::BlanchedAlmond).b]));
}

proof fn lemma_hex_blue()
    ensures
        hex_spec(Color::Blue) == seq!['#'] + hex_chars(seq![rgb_spec(Color::Blue).r, rgb_spec(Color::Blue).g, rgb_spec(Color::Blue).b]),
{
    reveal_strlit("#0000FF");
    assert(hex_spec(Color::Blue) =~= seq!['#'] + hex_chars(seq![rgb_spec(Color::Blue).r, rgb_spec(Color::Blue).g, rgb_spec(Color::Blue).b]));
}

proof fn lemma_hex_blue_violet()
    ensures
        hex_spec(Color::BlueViolet) == seq!['#'] + hex_chars(seq![rgb_spec(Color::BlueViolet).r, rgb_spec(Color::BlueViolet).g, rgb_spec(Color::BlueViolet).b]),
{
    reveal_strlit("#8A2BE2");
    assert(hex_spec(Color::BlueViolet) =~= seq!['#'] + hex_chars(seq![rgb_spec(Color::BlueViolet).r, rgb_spec(Color::BlueViolet).g, rgb_spec(Color::BlueViolet).b]));
}

proof fn lemma_hex_brown()
    ensures
        hex_spec(Color::Brown) == seq!['#'] + hex_chars(seq![rgb_spec(Color::Brown).r, rgb_spec(Color::Brown).g, rgb_spec(Color::Brown).b]),
{
    reveal_strlit("#A52A2A");
    assert(hex_spec(Color::Brown) =~= seq!['#'] + hex_chars(seq![rgb_spec(Color::Brown).r, rgb_spec(Color::Brown).g, rgb_spec(Color::Brown).b]));
}

proof fn lemma_hex_burly_wood()
    ensures
        hex_spec(Color::BurlyWood) == seq!['#'] + hex_chars(seq![rgb_spec(Color::BurlyWood).r, rgb_spec(Color::BurlyWood).g, rgb_spec(Color::BurlyWood).b]),
{
    reveal_strlit("#DEB887");
    assert(hex_spec(Color::BurlyWood) =~= seq!['#'] + hex_chars(seq![rgb_spec(Color::BurlyWood).r, rgb_spec(Color::BurlyWood).g, rgb_spec(Color::BurlyWood).b]));
}

proof fn lemma_hex_cadet_blue()
    ensures
        hex_spec(Color::CadetBlue) == seq!['#'] + hex_chars(seq![rgb_spec(Color::CadetBlue).r, rgb_spec(Color::CadetBlue).g, rgb_spec(Color::CadetBlue).b]),
{
    reveal_strlit("#5F9EA0");
    assert(hex_spec(Color::CadetBlue) =~= seq!['#'] + hex_chars(seq![rgb_spec(Color::CadetBlue).r, rgb_spec(Color::CadetBlue).g, rgb_spec(Color::CadetBlue).b]));
}

proof fn lemma_hex_chartreuse()
    ensures
        hex_spec(Color::Chartreuse) == seq!['#'] + hex_chars(seq![rgb_spec(Color::Chartreuse).r, rgb_spec(Color::Chartreuse).g, rgb_spec(Color::Chartreuse).b]),
{
    reveal_strlit("#7FFF00");
    assert(hex_spec(Color::Chartreuse) =~= seq!['#'] + hex_chars(seq![rgb_spec(Color::Chartreuse).r, rgb_spec(Color::Chartreuse).g, rgb_spec(Color::Chartreuse).b]));
}

proof fn lemma_hex_chocolate()
    ensures
        hex_spec(Color::Chocolate) == seq!['#'] + hex_chars(seq![rgb_spec(Color::Chocolate).r, rgb_spec(Color::Chocolate).g, rgb_spec(Color::Chocolate).b]),
{
    reveal_strlit("#D2691E");
    assert(hex_spec(Color::Chocolate) =~= seq!['#'] + hex_chars(seq![rgb_spec(Color::Chocolate).r, rgb_spec(Color::Chocolate).g, rgb_spec(Color::Chocolate).b]));
}

proof fn lemma_hex_coral()
    ensures
        hex_spec(Color::Coral) == seq!['#'] + hex_chars(seq![rgb_spec(Color::Coral).r, rgb_spec(Color::Coral).g, rgb_spec(Color::Coral).b]),
{
    reveal_strlit("#FF7F50");
    assert(hex_spec(Color::Coral) =~= seq!['#'] + hex_chars(seq![rgb_spec(Color::Coral).r, rgb_spec(Color::Coral).g, rgb_spec(Color::Coral).b]));
}

proof fn lemma_hex_cornflower_blue()
    ensures
        hex_spec(Color::CornflowerBlue) == seq!['#'] + hex_chars(seq![rgb_spec(Color::CornflowerBlue).r, rgb_spec(Color::CornflowerBlue).g, rgb_spec(Color::CornflowerBlue).b]),
{
    reveal_strlit("#6495ED");
    assert(hex_spec(Color::CornflowerBlue) =~= seq!['#'] + hex_chars(seq![rgb_spec(Color::CornflowerBlue).r, rgb_spec(Color::CornflowerBlue).g, rgb_spec(Color::CornflowerBlue).b]));
}

proof fn lemma_hex_cornsilk()
    ensures
        hex_spec(Color::Cornsilk) == seq!['#'] + hex_chars(seq![rgb_spec(Color::Cornsilk).r, rgb_spec(Color::Cornsilk).g, rgb_spec(Color::Cornsilk).b]),
{
    reveal_strlit("#FFF8DC");
    assert(hex_spec(Color::Cornsilk) =~= seq!['#'] + hex_chars(seq![rgb_spec(Color::Cornsilk).r, rgb_spec(Color::Cornsilk).g, rgb_spec(Color::Cornsilk).b]));
}

proof fn lemma_hex_crimson()
    ensures
        hex_spec(Color::Crimson) == seq!['#'] + hex_chars(seq![rgb_spec(Color::Crimson).r, rgb_spec(Color::Crimson).g, rgb_spec(Color::Crimson).b]),
{
    reveal_strlit("#DC143C");
    assert(hex_spec(Color::Crimson) =~= seq!['#'] + hex_chars(seq![rgb_spec(Color::Crimson).r, rgb_spec(Color::Crimson).g, rgb_spec(Color::Crimson).b]));
}

proof fn lemma_hex_cyan()
    ensures
        hex_spec(Color::Cyan) == seq!['#'] + hex_chars(seq![rgb_spec(Color::Cyan).r, rgb_spec(Color::Cyan).g, rgb_spec(Color::Cyan).b]),
{
    reveal_strlit("#00FFFF");
    assert(hex_spec(Color::Cyan) =~= seq!['#'] + hex_chars(seq![rgb_spec(Color::Cyan).r, rgb_spec(Color::Cyan).g, rgb_spec(Color::Cyan).b]));
}

proof fn lemma_hex_dark_blue()
    ensures
        hex_spec(Color::DarkBlue) == seq!['#'] + hex_chars(seq![rgb_spec(Color::DarkBlue).r, rgb_spec(Color::DarkBlue).g, rgb_spec(Color::DarkBlue).b]),
{
    reveal_strlit("#00008B");
    assert(hex_spec(Color::DarkBlue) =~= seq!['#'] + hex_chars(seq![rgb_spec(Color::DarkBlue).r, rgb_spec(Color::DarkBlue).g, rgb_spec(Color::DarkBlue).b]));
}

proof fn lemma_hex_dark_cyan()
    ensures
        hex_spec(Color::DarkCyan) == seq!['#'] + hex_chars(seq![rgb_spec(Color::DarkCyan).r, rgb_spec(Color::DarkCyan).g, rgb_spec(Color::DarkCyan).b]),
{
    reveal_strlit("#008B8B");
    assert(hex_spec(Color::DarkCyan) =~= seq!['#'] + hex_chars(seq![rgb_spec(Color::DarkCyan).r, rgb_spec(Color::DarkCyan).g, rgb_spec(Color::DarkCyan).b]));
}

proof fn lemma_hex_dark_golden_rod()
    ensures
        hex_spec(Color::DarkGoldenRod) == seq!['#'] + hex_chars(seq![rgb_spec(Color::DarkGoldenRod).r, rgb_spec(Color::DarkGoldenRod).g, rgb_spec(Color::DarkGoldenRod).b]),
{
    reveal_strlit("#B8860B");
    assert(hex_spec(Color::DarkGoldenRod) =~= seq!['#'] + hex_chars(seq![rgb_spec(Color::DarkGoldenRod).r, rgb_spec(Color::DarkGoldenRod).g, rgb_spec(Color::DarkGoldenRod).b]));
}

proof fn lemma_hex_dark_gray()
    ensures
        hex_spec(Color::DarkGray) == seq!['#'] + hex_chars(seq![rgb_spec(Color::DarkGray).r, rgb_spec(Color::DarkGray).g, rgb_spec(Color::DarkGray).b]),
{
    reveal_strlit("#A9A9A9");
    assert(hex_spec(Color::DarkGray) =~= seq!['#'] + hex_chars(seq![rgb_spec(Color::DarkGray).r, rgb_spec(Color::DarkGray).g, rgb_spec(Color::DarkGray).b]));
}

proof fn lemma_hex_dark_green()
    ensures
        hex_spec(Color::DarkGreen) == seq!['#'] + hex_chars(seq![rgb_spec(Color::DarkGreen).r, rgb_spec(Color::DarkGreen).g, rgb_spec(Color::DarkGreen).b]),
{
    reveal_strlit("#006400");
    assert(hex_spec(Color::DarkGreen) =~= seq!['#'] + hex_chars(seq![rgb_spec(Color::DarkGreen).r, rgb_spec(Color::DarkGreen).g, rgb_spec(Color::DarkGreen).b]));
}

proof fn lemma_hex_dark_khaki()
    ensures
        hex_spec(Color::DarkKhaki) == seq!['#'] + hex_chars(seq![rgb_spec(Color::DarkKhaki).r, rgb_spec(Color::DarkKhaki).g, rgb_spec(Color::DarkKhaki).b]),
{
    reveal_strlit("#BDB76B");
    assert(hex_spec(Color::DarkKhaki) =~= seq!['#'] + hex_chars(seq![rgb_spec(Color::DarkKhaki).r, rgb_spec(Color::DarkKhaki).g, rgb_spec(Color::DarkKhaki).b]));
}

proof fn lemma_hex_dark_magenta()
    ensures
        hex_spec(Color::DarkMagenta) == seq!['#'] + hex_chars(seq![rgb_spec(Color::DarkMagenta).r, rgb_spec(Color::DarkMagenta).g, rgb_spec(Color::DarkMagenta).b]),
{
    reveal_strlit("#8B008B");
    assert(hex_spec(Color::DarkMagenta) =~= seq!['#'] + hex_chars(seq![rgb_spec(Color::DarkMagenta).r, rgb_spec(Color::DarkMagenta).g, rgb_spec(Color::DarkMagenta).b]));
}

proof fn lemma_hex_dark_olive_green()
    ensures
        hex_spec(Color::DarkOliveGreen) == seq!['#'] + hex_chars(seq![rgb_spec(Color::DarkOliveGreen).r, rgb_spec(Color::DarkOliveGreen).g, rgb_spec(Color::DarkOliveGreen).b]),
{
    reveal_strlit("#556B2F");
    assert(hex_spec(Color::DarkOliveGreen) =~= seq!['#'] + hex_chars(seq![rgb_spec(Color::DarkOliveGreen).r, rgb_spec(Color::DarkOliveGreen).g, rgb_spec(Color::DarkOliveGreen).b]));
}

proof fn lemma_hex_dark_orange()
    ensures
        hex_spec(Color::DarkOrange) == seq!['#'] + hex_chars(seq![rgb_spec(Color::DarkOrange).r, rgb_spec(Color::DarkOrange).g, rgb_spec(Color::DarkOrange).b]),
{
    reveal_strlit("#FF8C00");
    assert(hex_spec(Color::DarkOrange) =~= seq!['#'] + hex_chars(seq![rgb_spec(Color::DarkOrange).r, rgb_spec(Color::DarkOrange).g, rgb_spec(Color::DarkOrange).b]));
}

proof fn lemma_hex_dark_orchid()
    ensures
        hex_spec(Color::DarkOrchid) == seq!['#'] + hex_chars(seq![rgb_spec(Color::DarkOrchid).r, rgb_spec(Color::DarkOrchid).g, rgb_spec(Color::DarkOrchid).b]),
{
    reveal_strlit("#9932CC");
    assert(hex_spec(Color::DarkOrchid) =~= seq!['#'] + hex_chars(seq![rgb_spec(Color::DarkOrchid).r, rgb_spec(Color::DarkOrchid).g, rgb_spec(Color::DarkOrchid).b]));
}

proof fn lemma_hex_dark_red()
    ensures
        hex_spec(Color::DarkRed) == seq!['#'] + hex_chars(seq![rgb_spec(Color::DarkRed).r, rgb_spec(Color::DarkRed).g, rgb_spec(Color::DarkRed).b]),
{
    reveal_strlit("#8B0000");
    assert(hex_spec(Color::DarkRed) =~= seq!['#'] + hex_chars(seq![rgb_spec(Color::DarkRed).r, rgb_spec(Color::DarkRed).g, rgb_spec(Color::DarkRed).b]));
}

proof fn lemma_hex_dark_salmon()
    ensures
        hex_spec(Color::DarkSalmon) == seq!['#'] + hex_chars(seq![rgb_spec(Color::DarkSalmon).r, rgb_spec(Color::DarkSalmon).g, rgb_spec(Color::DarkSalmon).b]),
{
    reveal_strlit("#E9967A");
    assert(hex_spec(Color::DarkSalmon) =~= seq!['#'] + hex_chars(seq![rgb_spec(Color::DarkSalmon).r, rgb_spec(Color::DarkSalmon).g, rgb_spec(Color::DarkSalmon).b]));
}

proof fn lemma_hex_dark_sea_green()
    ensures
        hex_spec(Color::DarkSeaGreen) == seq!['#'] + hex_chars(seq![rgb_spec(Color::DarkSeaGreen).r, rgb_spec(Color::DarkSeaGreen).g, rgb_spec(Color::DarkSeaGreen).b]),
{
    reveal_strlit("#8FBC8F");
    assert(hex_spec(Color::DarkSeaGreen) =~= seq!['#'] + hex_chars(seq![rgb_spec(Color::DarkSeaGreen).r, rgb_spec(Color::DarkSeaGreen).g, rgb_spec(Color::DarkSeaGreen).b]));
}

proof fn lemma_hex_dark_slate_blue()
    ensures
        hex_spec(Color::DarkSlateBlue) == seq!['#'] + hex_chars(seq![rgb_spec(Color::DarkSlateBlue).r, rgb_spec(Color::DarkSlateBlue).g, rgb_spec(Color::DarkSlateBlue).b]),
{
    reveal_strlit("#483D8B");
    assert(hex_spec(Color::DarkSlateBlue) =~= seq!['#'] + hex_chars(seq![rgb_spec(Color::DarkSlateBlue).r, rgb_spec(Color::DarkSlateBlue).g, rgb_spec(Color::DarkSlateBlue).b]));
}

proof fn lemma_hex_dark_slate_gray()
    ensures
        hex_spec(Color::DarkSlateGray) == seq!['#'] + hex_chars(seq![rgb_spec(Color::DarkSlateGray).r, rgb_spec(Color::DarkSlateGray).g, rgb_spec(Color::DarkSlateGray).b]),
{
    reveal_strlit("#2F4F4F");
    assert(hex_spec(Color::DarkSlateGray) =~= seq!['#'] + hex_chars(seq![rgb_spec(Color::DarkSlateGray).r, rgb_spec(Color::DarkSlateGray).g, rgb_spec(Color::DarkSlateGray).b]));
}

proof fn lemma_hex_dark_turquoise()
    ensures
        hex_spec(Color::DarkTurquoise) == seq!['#'] + hex_chars(seq![rgb_spec(Color::DarkTurquoise).r, rgb_spec(Color::DarkTurquoise).g, rgb_spec(Color::DarkTurquoise).b]),
{
    reveal_strlit("#00CED1");
    assert(hex_spec(Color::DarkTurquoise) =~= seq!['#'] + hex_chars(seq![rgb_spec(Color::DarkTurquoise).r, rgb_spec(Color::DarkTurquoise).g, rgb_spec(Color::DarkTurquoise).b]));
}

proof fn lemma_hex_dark_violet()
    ensures
        hex_spec(Color::DarkViolet) == seq!['#'] + hex_chars(seq![rgb_spec(Color::DarkViolet).r, rgb_spec(Color::DarkViolet).g, rgb_spec(Color::DarkViolet).b]),
{
    reveal_strlit("#9400D3");
    assert(hex_spec(Color::DarkViolet) =~= seq!['#'] + hex_chars(seq![rgb_spec(Color::DarkViolet).r, rgb_spec(Color::DarkViolet).g, rgb_spec(Color::DarkViolet).b]));
}

proof fn lemma_hex_deep_pink()
    ensures
        hex_spec(Color::DeepPink) == seq!['#'] + hex_chars(seq![rgb_spec(Color::DeepPink).r, rgb_spec(Color::DeepPink).g, rgb_spec(Color::DeepPink).b]),
{
    reveal_strlit("#FF1493");
    assert(hex_spec(Color::DeepPink) =~= seq!['#'] + hex_chars(seq![rgb_spec(Color::DeepPink).r, rgb_spec(Color::DeepPink).g, rgb_spec(Color::DeepPink).b]));
}

proof fn lemma_hex_deep_sky_blue()
    ensures
        hex_spec(Color::DeepSkyBlue) == seq!['#'] + hex_chars(seq![rgb_spec(Color::DeepSkyBlue).r, rgb_spec(Color::DeepSkyBlue).g, rgb_spec(Color::DeepSkyBlue).b]),
{
    reveal_strlit("#00BFFF");
    assert(hex_spec(Color::DeepSkyBlue) =~= seq!['#'] + hex_chars(seq![rgb_spec(Color::DeepSkyBlue).r, rgb_spec(Color::DeepSkyBlue).g, rgb_spec(Color::DeepSkyBlue).b]));
}

proof fn lemma_hex_dim_gray()
    ensures
        hex_spec(Color::DimGray) == seq!['#'] + hex_chars(seq![rgb_spec(Color::DimGray).r, rgb_spec(Color::DimGray).g, rgb_spec(Color::DimGray).b]),
{
    reveal_strlit("#696969");
    assert(hex_spec(Color::DimGray) =~= seq!['#'] + hex_chars(seq![rgb_spec(Color::DimGray).r, rgb_spec(Color::DimGray).g, rgb_spec(Color::DimGray).b]));
}

proof fn lemma_hex_dodger_blue()
    ensures
        hex_spec(Color::DodgerBlue) == seq!['#'] + hex_chars(seq![rgb_spec(Color::DodgerBlue).r, rgb_spec(Color::DodgerBlue).g, rgb_spec(Color::DodgerBlue).b]),
{
    reveal_strlit("#1E90FF");
    assert(hex_spec(Color::DodgerBlue) =~= seq!['#'] + hex_chars(seq![rgb_spec(Color::DodgerBlue).r, rgb_spec(Color::DodgerBlue).g, rgb_spec(Color::DodgerBlue).b]));
}

proof fn lemma_hex_fire_brick()
    ensures
        hex_spec(Color::FireBrick) == seq!['#'] + hex_chars(seq![rgb_spec(Color::FireBrick).r, rgb_spec(Color::FireBrick).g, rgb_spec(Color::FireBrick).b]),
{
    reveal_strlit("#B22222");
    assert(hex_spec(Color::FireBrick) =~= seq!['#'] + hex_chars(seq![rgb_spec(Color::FireBrick).r, rgb_spec(Color::FireBrick).g, rgb_spec(Color::FireBrick).b]));
}

proof fn lemma_hex_floral_white()
    ensures
        hex_spec(Color::FloralWhite) == seq!['#'] + hex_chars(seq![rgb_spec(Color::FloralWhite).r, rgb_spec(Color::FloralWhite).g, rgb_spec(Color::FloralWhite).b]),
{
    reveal_strlit("#FFFAF0");
    assert(hex_spec(Color::FloralWhite) =~= seq!['#'] + hex_chars(seq![rgb_spec(Color::FloralWhite).r, rgb_spec(Color::FloralWhite).g, rgb_spec(Color::FloralWhite).b]));
}

proof fn lemma_hex_forest_green()
    ensures
        hex_spec(Color::ForestGreen) == seq!['#'] + hex_chars(seq![rgb_spec(Color::ForestGreen).r, rgb_spec(Color::ForestGreen).g, rgb_spec(Color::ForestGreen).b]),
{
    reveal_strlit("#228B22");
    assert(hex_spec(Color::ForestGreen) =~= seq!['#'] + hex_chars(seq![rgb_spec(Color::ForestGreen).r, rgb_spec(Color::ForestGreen).g, rgb_spec(Color::ForestGreen).b]));
}

proof fn lemma_hex_fuchsia()
    ensures
        hex_spec(Color::Fuchsia) == seq!['#'] + hex_chars(seq![rgb_spec(Color::Fuchsia).r, rgb_spec(Color::Fuchsia).g, rgb_spec(Color::Fuchsia).b]),
{
    reveal_strlit("#FF00FF");
    assert(hex_spec(Color::Fuchsia) =~= seq!['#'] + hex_chars(seq![rgb_spec(Color::Fuchsia).r, rgb_spec(Color::Fuchsia).g, rgb_spec(Color::Fuchsia).b]));
}

proof fn lemma_hex_gainsboro()
    ensures
        hex_spec(Color::Gainsboro) == seq!['#'] + hex_chars(seq![rgb_spec(Color::Gainsboro).r, rgb_spec(Color::Gainsboro).g, rgb_spec(Color::Gainsboro).b]),
{
    reveal_strlit("#DCDCDC");
    assert(hex_spec(Color::Gainsboro) =~= seq!['#'] + hex_chars(seq![rgb_spec(Color::Gainsboro).r, rgb_spec(Color::Gainsboro).g, rgb_spec(Color::Gainsboro).b]));
}

proof fn lemma_hex_ghost_white()
    ensures
        hex_spec(Color::GhostWhite) == seq!['#'] + hex_chars(seq![rgb_spec(Color::GhostWhite).r, rgb_spec(Color::GhostWhite).g, rgb_spec(Color::GhostWhite).b]),
{
    reveal_strlit("#F8F8FF");
    assert(hex_spec(Color::GhostWhite) =~= seq!['#'] + hex_chars(seq![rgb_spec(Color::GhostWhite).r, rgb_spec(Color::GhostWhite).g, rgb_spec(Color::GhostWhite).b]));
}

proof fn lemma_hex_gold()
    ensures
        hex_spec(Color::Gold) == seq!['#'] + hex_chars(seq![rgb_spec(Color::Gold).r, rgb_spec(Color::Gold).g, rgb_spec(Color::Gold).b]),
{
    reveal_strlit("#FFD700");
    assert(hex_spec(Color::Gold) =~= seq!['#'] + hex_chars(seq![rgb_spec(Color::Gold).r, rgb_spec(Color::Gold).g, rgb_spec(Color::Gold).b]));
}

proof fn lemma_hex_golden_rod()
    ensures
        hex_spec(Color::GoldenRod) == seq!['#'] + hex_chars(seq![rgb_spec(Color::GoldenRod).r, rgb_spec(Color::GoldenRod).g, rgb_spec(Color::GoldenRod).b]),
{
    reveal_strlit("#DAA520");
    assert(hex_spec(Color::GoldenRod) =~= seq!['#'] + hex_chars(seq![rgb_spec(Color::GoldenRod).r, rgb_spec(Color::GoldenRod).g, rgb_spec(Color::GoldenRod).b]));
}

proof fn lemma_hex_gray()
    ensures
        hex_spec(Color::Gray) == seq!['#'] + hex_chars(seq![rgb_spec(Color::Gray).r, rgb_spec(Color::Gray).g, rgb_spec(Color::Gray).b]),
{
    reveal_strlit("#808080");
    assert(hex_spec(Color::Gray) =~= seq!['#'] + hex_chars(seq![rgb_spec(Color::Gray).r, rgb_spec(Color::Gray).g, rgb_spec(Color::Gray).b]));
}

proof fn lemma_hex_green()
    ensures
        hex_spec(Color::Green) == seq!['#'] + hex_chars(seq![rgb_spec(Color::Green).r, rgb_spec(Color::Green).g, rgb_spec(Color::Green).b]),
{
    reveal_strlit("#008000");
    assert(hex_spec(Color::Green) =~= seq!['#'] + hex_chars(seq![rgb_spec(Color::Green).r, rgb_spec(Color::Green).g, rgb_spec(Color::Green).b]));
}

proof fn lemma_hex_green_yellow()
    ensures
        hex_spec(Color::GreenYellow) == seq!['#'] + hex_chars(seq![rgb_spec(Color::GreenYellow).r, rgb_spec(Color::GreenYellow).g, rgb_spec(Color::GreenYellow).b]),
{
    reveal_strlit("#ADFF2F");
    assert(hex_spec(Color::GreenYellow) =~= seq!['#'] + hex_chars(seq![rgb_spec(Color::GreenYellow).r, rgb_spec(Color::GreenYellow).g, rgb_spec(Color::GreenYellow).b]));
}

proof fn lemma_hex_honey_dew()
    ensures
        hex_spec(Color::HoneyDew) == seq!['#'] + hex_chars(seq![rgb_spec(Color::HoneyDew).r, rgb_spec(Color::HoneyDew).g, rgb_spec(Color::HoneyDew).b]),
{
    reveal_strlit("#F0FFF0");
    assert(hex_spec(Color::HoneyDew) =~= seq!['#'] + hex_chars(seq![rgb_spec(Color::HoneyDew).r, rgb_spec(Color::HoneyDew).g, rgb_spec(Color::HoneyDew).b]));
}

proof fn lemma_hex_hot_pink()
    ensures
        hex_spec(Color::HotPink) == seq!['#'] + hex_chars(seq![rgb_spec(Color::HotPink).r, rgb_spec(Color::HotPink).g, rgb_spec(Color::HotPink).b]),
{
    reveal_strlit("#FF69B4");
    assert(hex_spec(Color::HotPink) =~= seq!['#'] + hex_chars(seq![rgb_spec(Color::HotPink).r, rgb_spec(Color::HotPink).g, rgb_spec(Color::HotPink).b]));
}

proof fn lemma_hex_indian_red()
    ensures
        hex_spec(Color::IndianRed) == seq!['#'] + hex_chars(seq![rgb_spec(Color::IndianRed).r, rgb_spec(Color::IndianRed).g, rgb_spec(Color::IndianRed).b]),
{
    reveal_strlit("#CD5C5C");
    assert(hex_spec(Color::IndianRed) =~= seq!['#'] + hex_chars(seq![rgb_spec(Color::IndianRed).r, rgb_spec(Color::IndianRed).g, rgb_spec(Color::IndianRed).b]));
}

proof fn lemma_hex_indigo()
    ensures
        hex_spec(Color::Indigo) == seq!['#'] + hex_chars(seq![rgb_spec(Color::Indigo).r, rgb_spec(Color::Indigo).g, rgb_spec(Color::Indigo).b]),
{
    reveal_strlit("#4B0082");
    assert(hex_spec(Color::Indigo) =~= seq!['#'] + hex_chars(seq![rgb_spec(Color::Indigo).r, rgb_spec(Color::Indigo).g, rgb_spec(Color::Indigo).b]));
}

proof fn lemma_hex_ivory()
    ensures
        hex_spec(Color::Ivory) == seq!['#'] + hex_chars(seq![rgb_spec(Color::Ivory).r, rgb_spec(Color::Ivory).g, rgb_spec(Color::Ivory).b]),
{
    reveal_strlit("#FFFFF0");
    assert(hex_spec(Color::Ivory) =~= seq!['#'] + hex_chars(seq![rgb_spec(Color::Ivory).r, rgb_spec(Color::Ivory).g, rgb_spec(Color::Ivory).b]));
}

proof fn lemma_hex_khaki()
    ensures
        hex_spec(Color::Khaki) == seq!['#'] + hex_chars(seq![rgb_spec(Color::Khaki).r, rgb_spec(Color::Khaki).g, rgb_spec(Color::Khaki).b]),
{
    reveal_strlit("#F0E68C");
    assert(hex_spec(Color::Khaki) =~= seq!['#'] + hex_chars(seq![rgb_spec(Color::Khaki).r, rgb_spec(Color::Khaki).g, rgb_spec(Color::Khaki).b]));
}

proof fn lemma_hex_lavender()
    ensures
        hex_spec(Color::Lavender) == seq!['#'] + hex_chars(seq![rgb_spec(Color::Lavender).r, rgb_spec(Color::Lavender).g, rgb_spec(Color::Lavender).b]),
{
    reveal_strlit("#E6E6FA");
    assert(hex_spec(Color::Lavender) =~= seq!['#'] + hex_chars(seq![rgb_spec(Color::Lavender).r, rgb_spec(Color::Lavender).g, rgb_spec(Color::Lavender).b]));
}

proof fn lemma_hex_lavender_blush()
    ensures
        hex_spec(Color::LavenderBlush) == seq!['#'] + hex_chars(seq![rgb_spec(Color::LavenderBlush).r, rgb_spec(Color::LavenderBlush).g, rgb_spec(Color::LavenderBlush).b]),
{
    reveal_strlit("#FFF0F5");
    assert(hex_spec(Color::LavenderBlush) =~= seq!['#'] + hex_chars(seq![rgb_spec(Color::LavenderBlush).r, rgb_spec(Color::LavenderBlush).g, rgb_spec(Color::LavenderBlush).b]));
}

proof fn lemma_hex_lawn_green()
    ensures
        hex_spec(Color::LawnGreen) == seq!['#'] + hex_chars(seq![rgb_spec(Color::LawnGreen).r, rgb_spec(Color::LawnGreen).g, rgb_spec(Color::LawnGreen).b]),
{
    reveal_strlit("#7CFC00");
    assert(hex_spec(Color::LawnGreen) =~= seq!['#'] + hex_chars(seq![rgb_spec(Color::LawnGreen).r, rgb_spec(Color::LawnGreen).g, rgb_spec(Color::LawnGreen).b]));
}

proof fn lemma_hex_lemon_chiffon()
    ensures
        hex_spec(Color::LemonChiffon) == seq!['#'] + hex_chars(seq![rgb_spec(Color::LemonChiffon).r, rgb_spec(Color::LemonChiffon).g, rgb_spec(Color::LemonChiffon).b]),
{
    reveal_strlit("#FFFACD");
    assert(hex_spec(Color::LemonChiffon) =~= seq!['#'] + hex_chars(seq![rgb_spec(Color::LemonChiffon).r, rgb_spec(Color::LemonChiffon).g, rgb_spec(Color::LemonChiffon).b]));
}

proof fn lemma_hex_light_blue()
    ensures
        hex_spec(Color::LightBlue) == seq!['#'] + hex_chars(seq![rgb_spec(Color::LightBlue).r, rgb_spec(Color::LightBlue).g, rgb_spec(Color::LightBlue).b]),
{
    reveal_strlit("#ADD8E6");
    assert(hex_spec(Color::LightBlue) =~= seq!['#'] + hex_chars(seq![rgb_spec(Color::LightBlue).r, rgb_spec(Color::LightBlue).g, rgb_spec(Color::LightBlue).b]));
}

proof fn lemma_hex_light_coral()
    ensures
        hex_spec(Color::LightCoral) == seq!['#'] + hex_chars(seq![rgb_spec(Color::LightCoral).r, rgb_spec(Color::LightCoral).g, rgb_spec(Color::LightCoral).b]),
{
    reveal_strlit("#F08080");
    assert(hex_spec(Color::LightCoral) =~= seq!['#'] + hex_chars(seq![rgb_spec(Color::LightCoral).r, rgb_spec(Color::LightCoral).g, rgb_spec(Color::LightCoral).b]));
}

proof fn lemma_hex_light_cyan()
    ensures
        hex_spec(Color::LightCyan) == seq!['#'] + hex_chars(seq![rgb_spec(Color::LightCyan).r, rgb_spec(Color::LightCyan).g, rgb_spec(Color::LightCyan).b]),
{
    reveal_strlit("#E0FFFF");
    assert(hex_spec(Color::LightCyan) =~= seq!['#'] + hex_chars(seq![rgb_spec(Color::LightCyan).r, rgb_spec(Color::LightCyan).g, rgb_spec(Color::LightCyan).b]));
}

proof fn lemma_hex_light_golden_rod_yellow()
    ensures
        hex_spec(Color::LightGoldenRodYellow) == seq!['#'] + hex_chars(seq![rgb_spec(Color::LightGoldenRodYellow).r, rgb_spec(Color::LightGoldenRodYellow).g, rgb_spec(Color::LightGoldenRodYellow).b]),
{
    reveal_strlit("#FAFAD2");
    assert(hex_spec(Color::LightGoldenRodYellow) =~= seq!['#'] + hex_chars(seq![rgb_spec(Color::LightGoldenRodYellow).r, rgb_spec(Color::LightGoldenRodYellow).g, rgb_spec(Color::LightGoldenRodYellow).b]));
}

proof fn lemma_hex_light_gray()
    ensures
        hex_spec(Color::LightGray) == seq!['#'] + hex_chars(seq![rgb_spec(Color::LightGray).r, rgb_spec(Color::LightGray).g, rgb_spec(Color::LightGray).b]),
{
    reveal_strlit("#D3D3D3");
    assert(hex_spec(Color::LightGray) =~= seq!['#'] + hex_chars(seq![rgb_spec(Color::LightGray).r, rgb_spec(Color::LightGray).g, rgb_spec(Color::LightGray).b]));
}

proof fn lemma_hex_light_green()
    ensures
        hex_spec(Color::LightGreen) == seq!['#'] + hex_chars(seq![rgb_spec(Color::LightGreen).r, rgb_spec(Color::LightGreen).g, rgb_spec(Color::LightGreen).b]),
{
    reveal_strlit("#90EE90");
    assert(hex_spec(Color::LightGreen) =~= seq!['#'] + hex_chars(seq![rgb_spec(Color::LightGreen).r, rgb_spec(Color::LightGreen).g, rgb_spec(Color::LightGreen).b]));
}

proof fn lemma_hex_light_pink()
    ensures
        hex_spec(Color::LightPink) == seq!['#'] + hex_chars(seq![rgb_spec(Color::LightPink).r, rgb_spec(Color::LightPink).g, rgb_spec(Color::LightPink).b]),
{
    reveal_strlit("#FFB6C1");
    assert(hex_spec(Color::LightPink) =~= seq!['#'] + hex_chars(seq![rgb_spec(Color::LightPink).r, rgb_spec(Color::LightPink).g, rgb_spec(Color::LightPink).b]));
}

proof fn lemma_hex_light_salmon()
    ensures
        hex_spec(Color::LightSalmon) == seq!['#'] + hex_chars(seq![rgb_spec(Color::LightSalmon).r, rgb_spec(Color::LightSalmon).g, rgb_spec(Color::LightSalmon).b]),
{
    reveal_strlit("#FFA07A");
    assert(hex_spec(Color::LightSalmon) =~= seq!['#'] + hex_chars(seq![rgb_spec(Color::LightSalmon).r, rgb_spec(Color::LightSalmon).g, rgb_spec(Color::LightSalmon).b]));
}

proof fn lemma_hex_light_sea_green()
    ensures
        hex_spec(Color::LightSeaGreen) == seq!['#'] + hex_chars(seq![rgb_spec(Color::LightSeaGreen).r, rgb_spec(Color::LightSeaGreen).g, rgb_spec(Color::LightSeaGreen).b]),
{
    reveal_strlit("#20B2AA");
    assert(hex_spec(Color::LightSeaGreen) =~= seq!['#'] + hex_chars(seq![rgb_spec(Color::LightSeaGreen).r, rgb_spec(Color::LightSeaGreen).g, rgb_spec(Color::LightSeaGreen).b]));
}

proof fn lemma_hex_light_sky_blue()
    ensures
        hex_spec(Color::LightSkyBlue) == seq!['#'] + hex_chars(seq![rgb_spec(Color::LightSkyBlue).r, rgb_spec(Color::LightSkyBlue).g, rgb_spec(Color::LightSkyBlue).b]),
{
    reveal_strlit("#87CEFA");
    assert(hex_spec(Color::LightSkyBlue) =~= seq!['#'] + hex_chars(seq![rgb_spec(Color::LightSkyBlue).r, rgb_spec(Color::LightSkyBlue).g, rgb_spec(Color::LightSkyBlue).b]));
}

proof fn lemma_hex_light_slate_gray()
    ensures
        hex_spec(Color::LightSlateGray) == seq!['#'] + hex_chars(seq![rgb_spec(Color::LightSlateGray).r, rgb_spec(Color::LightSlateGray).g, rgb_spec(Color::LightSlateGray).b]),
{
    reveal_strlit("#778899");
    assert(hex_spec(Color::LightSlateGray) =~= seq!['#'] + hex_chars(seq![rgb_spec(Color::LightSlateGray).r, rgb_spec(Color::LightSlateGray).g, rgb_spec(Color::LightSlateGray).b]));
}

proof fn lemma_hex_light_steel_blue()
    ensures
        hex_spec(Color::LightSteelBlue) == seq!['#'] + hex_chars(seq![rgb_spec(Color::LightSteelBlue).r, rgb_spec(Color::LightSteelBlue).g, rgb_spec(Color::LightSteelBlue).b]),
{
    reveal_strlit("#B0C4DE");
    assert(hex_spec(Color::LightSteelBlue) =~= seq!['#'] + hex_chars(seq![rgb_spec(Color::LightSteelBlue).r, rgb_spec(Color::LightSteelBlue).g, rgb_spec(Color::LightSteelBlue).b]));
}

proof fn lemma_hex_light_yellow()
    ensures
        hex_spec(Color::LightYellow) == seq!['#'] + hex_chars(seq![rgb_spec(Color::LightYellow).r, rgb_spec(Color::LightYellow).g, rgb_spec(Color::LightYellow).b]),
{
    reveal_strlit("#FFFFE0");
    assert(hex_spec(Color::LightYellow) =~= seq!['#'] + hex_chars(seq![rgb_spec(Color::LightYellow).r, rgb_spec(Color::LightYellow).g, rgb_spec(Color::LightYellow).b]));
}

proof fn lemma_hex_lime()
    ensures
        hex_spec(Color::Lime) == seq!['#'] + hex_chars(seq![rgb_spec(Color::Lime).r, rgb_spec(Color::Lime).g, rgb_spec(Color::Lime).b]),
{
    reveal_strlit("#00FF00");
    assert(hex_spec(Color::Lime) =~= seq!['#'] + hex_chars(seq![rgb_spec(Color::Lime).r, rgb_spec(Color::Lime).g, rgb_spec(Color::Lime).b]));
}

proof fn lemma_hex_lime_green()
    ensures
        hex_spec(Color::LimeGreen) == seq!['#'] + hex_chars(seq![rgb_spec(Color::LimeGreen).r, rgb_spec(Color::LimeGreen).g, rgb_spec(Color::LimeGreen).b]),
{
    reveal_strlit("#32CD32");
    assert(hex_spec(Color::LimeGreen) =~= seq!['#'] + hex_chars(seq![rgb_spec(Color::LimeGreen).r, rgb_spec(Color::LimeGreen).g, rgb_spec(Color::LimeGreen).b]));
}

proof fn lemma_hex_linen()
    ensures
        hex_spec(Color::Linen) == seq!['#'] + hex_chars(seq![rgb_spec(Color::Linen).r, rgb_spec(Color::Linen).g, rgb_spec(Color::Linen).b]),
{
    reveal_strlit("#FAF0E6");
    assert(hex_spec(Color::Linen) =~= seq!['#'] + hex_chars(seq![rgb_spec(Color::Linen).r, rgb_spec(Color::Linen).g, rgb_spec(Color::Linen).b]));
}

proof fn lemma_hex_magenta()
    ensures
        hex_spec(Color::Magenta) == seq!['#'] + hex_chars(seq![rgb_spec(Color::Magenta).r, rgb_spec(Color::Magenta).g, rgb_spec(Color::Magenta).b]),
{
    reveal_strlit("#FF00FF");
    assert(hex_spec(Color::Magenta) =~= seq!['#'] + hex_chars(seq![rgb_spec(Color::Magenta).r, rgb_spec(Color::Magenta).g, rgb_spec(Color::Magenta).b]));
}

proof fn lemma_hex_maroon()
    ensures
        hex_spec(Color::Maroon) == seq!['#'] + hex_chars(seq![rgb_spec(Color::Maroon).r, rgb_spec(Color::Maroon).g, rgb_spec(Color::Maroon).b]),
{
    reveal_strlit("#800000");
    assert(hex_spec(Color::Maroon) =~= seq!['#'] + hex_chars(seq![rgb_spec(Color::Maroon).r, rgb_spec(Color::Maroon).g, rgb_spec(Color::Maroon).b]));
}

proof fn lemma_hex_medium_aqua_marine()
    ensures
        hex_spec(Color::MediumAquaMarine) == seq!['#'] + hex_chars(seq![rgb_spec(Color::MediumAquaMarine).r, rgb_spec(Color::MediumAquaMarine).g, rgb_spec(Color::MediumAquaMarine).b]),
{
    reveal_strlit("#66CDAA");
    assert(hex_spec(Color::MediumAquaMarine) =~= seq!['#'] + hex_chars(seq![rgb_spec(Color::MediumAquaMarine).r, rgb_spec(Color::MediumAquaMarine).g, rgb_spec(Color::MediumAquaMarine).b]));
}

proof fn lemma_hex_medium_blue()
    ensures
        hex_spec(Color::MediumBlue) == seq!['#'] + hex_chars(seq![rgb_spec(Color::MediumBlue).r, rgb_spec(Color::MediumBlue).g, rgb_spec(Color::MediumBlue).b]),
{
    reveal_strlit("#0000CD");
    assert(hex_spec(Color::MediumBlue) =~= seq!['#'] + hex_chars(seq![rgb_spec(Color::MediumBlue).r, rgb_spec(Color::MediumBlue).g, rgb_spec(Color::MediumBlue).b]));
}

proof fn lemma_hex_medium_orchid()
    ensures
        hex_spec(Color::MediumOrchid) == seq!['#'] + hex_chars(seq![rgb_spec(Color::MediumOrchid).r, rgb_spec(Color::MediumOrchid).g, rgb_spec(Color::MediumOrchid).b]),
{
    reveal_strlit("#BA55D3");
    assert(hex_spec(Color::MediumOrchid) =~= seq!['#'] + hex_chars(seq![rgb_spec(Color::MediumOrchid).r, rgb_spec(Color::MediumOrchid).g, rgb_spec(Color::MediumOrchid).b]));
}

proof fn lemma_hex_medium_purple()
    ensures
        hex_spec(Color::MediumPurple) == seq!['#'] + hex_chars(seq![rgb_spec(Color::MediumPurple).r, rgb_spec(Color::MediumPurple).g, rgb_spec(Color::MediumPurple).b]),
{
    reveal_strlit("#9370DB");
    assert(hex_spec(Color::MediumPurple) =~= seq!['#'] + hex_chars(seq![rgb_spec(Color::MediumPurple).r, rgb_spec(Color::MediumPurple).g, rgb_spec(Color::MediumPurple).b]));
}

proof fn lemma_hex_medium_sea_green()
    ensures
        hex_spec(Color::MediumSeaGreen) == seq!['#'] + hex_chars(seq![rgb_spec(Color::MediumSeaGreen).r, rgb_spec(Color::MediumSeaGreen).g, rgb_spec(Color::MediumSeaGreen).b]),
{
    reveal_strlit("#3CB371");
    assert(hex_spec(Color::MediumSeaGreen) =~= seq!['#'] + hex_chars(seq![rgb_spec(Color::MediumSeaGreen).r, rgb_spec(Color::MediumSeaGreen).g, rgb_spec(Color::MediumSeaGreen).b]));
}

proof fn lemma_hex_medium_slate_blue()
    ensures
        hex_spec(Color::MediumSlateBlue) == seq!['#'] + hex_chars(seq![rgb_spec(Color::MediumSlateBlue).r, rgb_spec(Color::MediumSlateBlue).g, rgb_spec(Color::MediumSlateBlue).b]),
{
    reveal_strlit("#7B68EE");
    assert(hex_spec(Color::MediumSlateBlue) =~= seq!['#'] + hex_chars(seq![rgb_spec(Color::MediumSlateBlue).r, rgb_spec(Color::MediumSlateBlue).g, rgb_spec(Color::MediumSlateBlue).b]));
}

proof fn lemma_hex_medium_spring_green()
    ensures
        hex_spec(Color::MediumSpringGreen) == seq!['#'] + hex_chars(seq![rgb_spec(Color::MediumSpringGreen).r, rgb_spec(Color::MediumSpringGreen).g, rgb_spec(Color::MediumSpringGreen).b]),
{
    reveal_strlit("#00FA9A");
    assert(hex_spec(Color::MediumSpringGreen) =~= seq!['#'] + hex_chars(seq![rgb_spec(Color::MediumSpringGreen).r, rgb_spec(Color::MediumSpringGreen).g, rgb_spec(Color::MediumSpringGreen).b]));
}

proof fn lemma_hex_medium_turquoise()
    ensures
        hex_spec(Color::MediumTurquoise) == seq!['#'] + hex_chars(seq![rgb_spec(Color::MediumTurquoise).r, rgb_spec(Color::MediumTurquoise).g, rgb_spec(Color::MediumTurquoise).b]),
{
    reveal_strlit("#48D1CC");
    assert(hex_spec(Color::MediumTurquoise) =~= seq!['#'] + hex_chars(seq![rgb_spec(Color::MediumTurquoise).r, rgb_spec(Color::MediumTurquoise).g, rgb_spec(Color::MediumTurquoise).b]));
}

proof fn lemma_hex_medium_violet_red()
    ensures
        hex_spec(Color::MediumVioletRed) == seq!['#'] + hex_chars(seq![rgb_spec(Color::MediumVioletRed).r, rgb_spec(Color::MediumVioletRed).g, rgb_spec(Color::MediumVioletRed).b]),
{
    reveal_strlit("#C71585");
    assert(hex_spec(Color::MediumVioletRed) =~= seq!['#'] + hex_chars(seq![rgb_spec(Color::MediumVioletRed).r, rgb_spec(Color::MediumVioletRed).g, rgb_spec(Color::MediumVioletRed).b]));
}

proof fn lemma_hex_midnight_blue()
    ensures
        hex_spec(Color::MidnightBlue) == seq!['#'] + hex_chars(seq![rgb_spec(Color::MidnightBlue).r, rgb_spec(Color::MidnightBlue).g, rgb_spec(Color::MidnightBlue).b]),
{
    reveal_strlit("#191970");
    assert(hex_spec(Color::MidnightBlue) =~= seq!['#'] + hex_chars(seq![rgb_spec(Color::MidnightBlue).r, rgb_spec(Color::MidnightBlue).g, rgb_spec(Color::MidnightBlue).b]));
}

proof fn lemma_hex_mint_cream()
    ensures
        hex_spec(Color::MintCream) == seq!['#'] + hex_chars(seq![rgb_spec(Color::MintCream).r, rgb_spec(Color::MintCream).g, rgb_spec(Color::MintCream).b]),
{
    reveal_strlit("#F5FFFA");
    assert(hex_spec(Color::MintCream) =~= seq!['#'] + hex_chars(seq![rgb_spec(Color::MintCream).r, rgb_spec(Color::MintCream).g, rgb_spec(Color::MintCream).b]));
}

proof fn lemma_hex_misty_rose()
    ensures
        hex_spec(Color::MistyRose) == seq!['#'] + hex_chars(seq![rgb_spec(Color::MistyRose).r, rgb_spec(Color::MistyRose).g, rgb_spec(Color::MistyRose).b]),
{
    reveal_strlit("#FFE4E1");
    assert(hex_spec(Color::MistyRose) =~= seq!['#'] + hex_chars(seq![rgb_spec(Color::MistyRose).r, rgb_spec(Color::MistyRose).g, rgb_spec(Color::MistyRose).b]));
}

proof fn lemma_hex_moccasin()
    ensures
        hex_spec(Color::Moccasin) == seq!['#'] + hex_chars(seq![rgb_spec(Color::Moccasin).r, rgb_spec(Color::Moccasin).g, rgb_spec(Color::Moccasin).b]),
{
    reveal_strlit("#FFE4B5");
    assert(hex_spec(Color::Moccasin) =~= seq!['#'] + hex_chars(seq![rgb_spec(Color::Moccasin).r, rgb_spec(Color::Moccasin).g, rgb_spec(Color::Moccasin).b]));
}

proof fn lemma_hex_navajo_white()
    ensures
        hex_spec(Color::NavajoWhite) == seq!['#'] + hex_chars(seq![rgb_spec(Color::NavajoWhite).r, rgb_spec(Color::NavajoWhite).g, rgb_spec(Color::NavajoWhite).b]),
{
    reveal_strlit("#FFDEAD");
    assert(hex_spec(Color::NavajoWhite) =~= seq!['#'] + hex_chars(seq![rgb_spec(Color::NavajoWhite).r, rgb_spec(Color::NavajoWhite).g, rgb_spec(Color::NavajoWhite).b]));
}

proof fn lemma_hex_navy()
    ensures
        hex_spec(Color::Navy) == seq!['#'] + hex_chars(seq![rgb_spec(Color::Navy).r, rgb_spec(Color::Navy).g, rgb_spec(Color::Navy).b]),
{
    reveal_strlit("#000080");
    assert(hex_spec(Color::Navy) =~= seq!['#'] + hex_chars(seq![rgb_spec(Color::Navy).r, rgb_spec(Color::Navy).g, rgb_spec(Color::Navy).b]));
}

proof fn lemma_hex_old_lace()
    ensures
        hex_spec(Color::OldLace) == seq!['#'] + hex_chars(seq![rgb_spec(Color::OldLace).r, rgb_spec(Color::OldLace).g, rgb_spec(Color::OldLace).b]),
{
    reveal_strlit("#FDF5E6");
    assert(hex_spec(Color::OldLace) =~= seq!['#'] + hex_chars(seq![rgb_spec(Color::OldLace).r, rgb_spec(Color::OldLace).g, rgb_spec(Color::OldLace).b]));
}

proof fn lemma_hex_olive()
    ensures
        hex_spec(Color::Olive) == seq!['#'] + hex_chars(seq![rgb_spec(Color::Olive).r, rgb_spec(Color::Olive).g, rgb_spec(Color::Olive).b]),
{
    reveal_strlit("#808000");
    assert(hex_spec(Color::Olive) =~= seq!['#'] + hex_chars(seq![rgb_spec(Color::Olive).r, rgb_spec(Color::Olive).g, rgb_spec(Color::Olive).b]));
}

proof fn lemma_hex_olive_drab()
    ensures
        hex_spec(Color::OliveDrab) == seq!['#'] + hex_chars(seq![rgb_spec(Color::OliveDrab).r, rgb_spec(Color::OliveDrab).g, rgb_spec(Color::OliveDrab).b]),
{
    reveal_strlit("#6B8E23");
    assert(hex_spec(Color::OliveDrab) =~= seq!['#'] + hex_chars(seq![rgb_spec(Color::OliveDrab).r, rgb_spec(Color::OliveDrab).g, rgb_spec(Color::OliveDrab).b]));
}

proof fn lemma_hex_orange()
    ensures
        hex_spec(Color::Orange) == seq!['#'] + hex_chars(seq![rgb_spec(Color::Orange).r, rgb_spec(Color::Orange).g, rgb_spec(Color::Orange).b]),
{
    reveal_strlit("#FFA500");
    assert(hex_spec(Color::Orange) =~= seq!['#'] + hex_chars(seq![rgb_spec(Color::Orange).r, rgb_spec(Color::Orange).g, rgb_spec(Color::Orange).b]));
}

proof fn lemma_hex_orange_red()
    ensures
        hex_spec(Color::OrangeRed) == seq!['#'] + hex_chars(seq![rgb_spec(Color::OrangeRed).r, rgb_spec(Color::OrangeRed).g, rgb_spec(Color::OrangeRed).b]),
{
    reveal_strlit("#FF4500");
    assert(hex_spec(Color::OrangeRed) =~= seq!['#'] + hex_chars(seq![rgb_spec(Color::OrangeRed).r, rgb_spec(Color::OrangeRed).g, rgb_spec(Color::OrangeRed).b]));
}

proof fn lemma_hex_orchid()
    ensures
        hex_spec(Color::Orchid) == seq!['#'] + hex_chars(seq![rgb_spec(Color::Orchid).r, rgb_spec(Color::Orchid).g, rgb_spec(Color::Orchid).b]),
{
    reveal_strlit("#DA70D6");
    assert(hex_spec(Color::Orchid) =~= seq!['#'] + hex_chars(seq![rgb_spec(Color::Orchid).r, rgb_spec(Color::Orchid).g, rgb_spec(Color::Orchid).b]));
}

proof fn lemma_hex_pale_golden_rod()
    ensures
        hex_spec(Color::PaleGoldenRod) == seq!['#'] + hex_chars(seq![rgb_spec(Color::PaleGoldenRod).r, rgb_spec(Color::PaleGoldenRod).g, rgb_spec(Color::PaleGoldenRod).b]),
{
    reveal_strlit("#EEE8AA");
    assert(hex_spec(Color::PaleGoldenRod) =~= seq!['#'] + hex_chars(seq![rgb_spec(Color::PaleGoldenRod).r, rgb_spec(Color::PaleGoldenRod).g, rgb_spec(Color::PaleGoldenRod).b]));
}

proof fn lemma_hex_pale_green()
    ensures
        hex_spec(Color::PaleGreen) == seq!['#'] + hex_chars(seq![rgb_spec(Color::PaleGreen).r, rgb_spec(Color::PaleGreen).g, rgb_spec(Color::PaleGreen).b]),
{
    reveal_strlit("#98FB98");
    assert(hex_spec(Color::PaleGreen) =~= seq!['#'] + hex_chars(seq![rgb_spec(Color::PaleGreen).r, rgb_spec(Color::PaleGreen).g, rgb_spec(Color::PaleGreen).b]));
}

proof fn lemma_hex_pale_turquoise()
    ensures
        hex_spec(Color::PaleTurquoise) == seq!['#'] + hex_chars(seq![rgb_spec(Color::PaleTurquoise).r, rgb_spec(Color::PaleTurquoise).g, rgb_spec(Color::PaleTurquoise).b]),
{
    reveal_strlit("#AFEEEE");
    assert(hex_spec(Color::PaleTurquoise) =~= seq!['#'] + hex_chars(seq![rgb_spec(Color::PaleTurquoise).r, rgb_spec(Color::PaleTurquoise).g, rgb_spec(Color::PaleTurquoise).b]));
}

proof fn lemma_hex_pale_violet_red()
    ensures
        hex_spec(Color::PaleVioletRed) == seq!['#'] + hex_chars(seq![rgb_spec(Color::PaleVioletRed).r, rgb_spec(Color::PaleVioletRed).g, rgb_spec(Color::PaleVioletRed).b]),
{
    reveal_strlit("#DB7093");
    assert(hex_spec(Color::PaleVioletRed) =~= seq!['#'] + hex_chars(seq![rgb_spec(Color::PaleVioletRed).r, rgb_spec(Color::PaleVioletRed).g, rgb_spec(Color::PaleVioletRed).b]));
}

proof fn lemma_hex_papaya_whip()
    ensures
        hex_spec(Color::PapayaWhip) == seq!['#'] + hex_chars(seq![rgb_spec(Color::PapayaWhip).r, rgb_spec(Color::PapayaWhip).g, rgb_spec(Color::PapayaWhip).b]),
{
    reveal_strlit("#FFEFD5");
    assert(hex_spec(Color::PapayaWhip) =~= seq!['#'] + hex_chars(seq![rgb_spec(Color::PapayaWhip).r, rgb_spec(Color::PapayaWhip).g, rgb_spec(Color::PapayaWhip).b]));
}

proof fn lemma_hex_peach_puff()
    ensures
        hex_spec(Color::PeachPuff) == seq!['#'] + hex_chars(seq![rgb_spec(Color::PeachPuff).r, rgb_spec(Color::PeachPuff).g, rgb_spec(Color::PeachPuff).b]),
{
    reveal_strlit("#FFDAB9");
    assert(hex_spec(Color::PeachPuff) =~= seq!['#'] + hex_chars(seq![rgb_spec(Color::PeachPuff).r, rgb_spec(Color::PeachPuff).g, rgb_spec(Color::PeachPuff).b]));
}

proof fn lemma_hex_peru()
    ensures
        hex_spec(Color::Peru) == seq!['#'] + hex_chars(seq![rgb_spec(Color::Peru).r, rgb_spec(Color::Peru).g, rgb_spec(Color::Peru).b]),
{
    reveal_strlit("#CD853F");
    assert(hex_spec(Color::Peru) =~= seq!['#'] + hex_chars(seq![rgb_spec(Color::Peru).r, rgb_spec(Color::Peru).g, rgb_spec(Color::Peru).b]));
}

proof fn lemma_hex_pink()
    ensures
        hex_spec(Color::Pink) == seq!['#'] + hex_chars(seq![rgb_spec(Color::Pink).r, rgb_spec(Color::Pink).g, rgb_spec(Color::Pink).b]),
{
    reveal_strlit("#FFC0CB");
    assert(hex_spec(Color::Pink) =~= seq!['#'] + hex_chars(seq![rgb_spec(Color::Pink).r, rgb_spec(Color::Pink).g, rgb_spec(Color::Pink).b]));
}

proof fn lemma_hex_plum()
    ensures
        hex_spec(Color::Plum) == seq!['#'] + hex_chars(seq![rgb_spec(Color::Plum).r, rgb_spec(Color::Plum).g, rgb_spec(Color::Plum).b]),
{
    reveal_strlit("#DDA0DD");
    assert(hex_spec(Color::Plum) =~= seq!['#'] + hex_chars(seq![rgb_spec(Color::Plum).r, rgb_spec(Color::Plum).g, rgb_spec(Color::Plum).b]));
}

proof fn lemma_hex_powder_blue()
    ensures
        hex_spec(Color::PowderBlue) == seq!['#'] + hex_chars(seq![rgb_spec(Color::PowderBlue).r, rgb_spec(Color::PowderBlue).g, rgb_spec(Color::PowderBlue).b]),
{
    reveal_strlit("#B0E0E6");
    assert(hex_spec(Color::PowderBlue) =~= seq!['#'] + hex_chars(seq![rgb_spec(Color::PowderBlue).r, rgb_spec(Color::PowderBlue).g, rgb_spec(Color::PowderBlue).b]));
}

proof fn lemma_hex_purple()
    ensures
        hex_spec(Color::Purple) == seq!['#'] + hex_chars(seq![rgb_spec(Color::Purple).r, rgb_spec(Color::Purple).g, rgb_spec(Color::Purple).b]),
{
    reveal_strlit("#800080");
    assert(hex_spec(Color::Purple) =~= seq!['#'] + hex_chars(seq![rgb_spec(Color::Purple).r, rgb_spec(Color::Purple).g, rgb_spec(Color::Purple).b]));
}

proof fn lemma_hex_red()
    ensures
        hex_spec(Color::Red) == seq!['#'] + hex_chars(seq![rgb_spec(Color::Red).r, rgb_spec(Color::Red).g, rgb_spec(Color::Red).b]),
{
    reveal_strlit("#FF0000");
    assert(hex_spec(Color::Red) =~= seq!['#'] + hex_chars(seq![rgb_spec(Color::Red).r, rgb_spec(Color::Red).g, rgb_spec(Color::Red).b]));
}

proof fn lemma_hex_rosy_brown()
    ensures
        hex_spec(Color::RosyBrown) == seq!['#'] + hex_chars(seq![rgb_spec(Color::RosyBrown).r, rgb_spec(Color::RosyBrown).g, rgb_spec(Color::RosyBrown).b]),
{
    reveal_strlit("#BC8F8F");
    assert(hex_spec(Color::RosyBrown) =~= seq!['#'] + hex_chars(seq![rgb_spec(Color::RosyBrown).r, rgb_spec(Color::RosyBrown).g, rgb_spec(Color::RosyBrown).b]));
}

proof fn lemma_hex_royal_blue()
    ensures
        hex_spec(Color::RoyalBlue) == seq!['#'] + hex_chars(seq![rgb_spec(Color::RoyalBlue).r, rgb_spec(Color::RoyalBlue).g, rgb_spec(Color::RoyalBlue).b]),
{
    reveal_strlit("#4169E1");
    assert(hex_spec(Color::RoyalBlue) =~= seq!['#'] + hex_chars(seq![rgb_spec(Color::RoyalBlue).r, rgb_spec(Color::RoyalBlue).g, rgb_spec(Color::RoyalBlue).b]));
}

proof fn lemma_hex_saddle_brown()
    ensures
        hex_spec(Color::SaddleBrown) == seq!['#'] + hex_chars(seq![rgb_spec(Color::SaddleBrown).r, rgb_spec(Color::SaddleBrown).g, rgb_spec(Color::SaddleBrown).b]),
{
    reveal_strlit("#8B4513");
    assert(hex_spec(Color::SaddleBrown) =~= seq!['#'] + hex_chars(seq![rgb_spec(Color::SaddleBrown).r, rgb_spec(Color::SaddleBrown).g, rgb_spec(Color::SaddleBrown).b]));
}

proof fn lemma_hex_salmon()
    ensures
        hex_spec(Color::Salmon) == seq!['#'] + hex_chars(seq![rgb_spec(Color::Salmon).r, rgb_spec(Color::Salmon).g, rgb_spec(Color::Salmon).b]),
{
    reveal_strlit("#FA8072");
    assert(hex_spec(Color::Salmon) =~= seq!['#'] + hex_chars(seq![rgb_spec(Color::Salmon).r, rgb_spec(Color::Salmon).g, rgb_spec(Color::Salmon).b]));
}

proof fn lemma_hex_sandy_brown()
    ensures
        hex_spec(Color::SandyBrown) == seq!['#'] + hex_chars(seq![rgb_spec(Color::SandyBrown).r, rgb_spec(Color::SandyBrown).g, rgb_spec(Color::SandyBrown).b]),
{
    reveal_strlit("#F4A460");
    assert(hex_spec(Color::SandyBrown) =~= seq!['#'] + hex_chars(seq![rgb_spec(Color::SandyBrown).r, rgb_spec(Color::SandyBrown).g, rgb_spec(Color::SandyBrown).b]));
}

proof fn lemma_hex_sea_green()
    ensures
        hex_spec(Color::SeaGreen) == seq!['#'] + hex_chars(seq![rgb_spec(Color::SeaGreen).r, rgb_spec(Color::SeaGreen).g, rgb_spec(Color::SeaGreen).b]),
{
    reveal_strlit("#2E8B57");
    assert(hex_spec(Color::SeaGreen) =~= seq!['#'] + hex_chars(seq![rgb_spec(Color::SeaGreen).r, rgb_spec(Color::SeaGreen).g, rgb_spec(Color::SeaGreen).b]));
}

proof fn lemma_hex_sea_shell()
    ensures
        hex_spec(Color::SeaShell) == seq!['#'] + hex_chars(seq![rgb_spec(Color::SeaShell).r, rgb_spec(Color::SeaShell).g, rgb_spec(Color::SeaShell).b]),
{
    reveal_strlit("#FFF5EE");
    assert(hex_spec(Color::SeaShell) =~= seq!['#'] + hex_chars(seq![rgb_spec(Color::SeaShell).r, rgb_spec(Color::SeaShell).g, rgb_spec(Color::SeaShell).b]));
}

proof fn lemma_hex_sienna()
    ensures
        hex_spec(Color::Sienna) == seq!['#'] + hex_chars(seq![rgb_spec(Color::Sienna).r, rgb_spec(Color::Sienna).g, rgb_spec(Color::Sienna).b]),
{
    reveal_strlit("#A0522D");
    assert(hex_spec(Color::Sienna) =~= seq!['#'] + hex_chars(seq![rgb_spec(Color::Sienna).r, rgb_spec(Color::Sienna).g, rgb_spec(Color::Sienna).b]));
}

proof fn lemma_hex_silver()
    ensures
        hex_spec(Color::Silver) == seq!['#'] + hex_chars(seq![rgb_spec(Color::Silver).r, rgb_spec(Color::Silver).g, rgb_spec(Color::Silver).b]),
{
    reveal_strlit("#C0C0C0");
    assert(hex_spec(Color::Silver) =~= seq!['#'] + hex_chars(seq![rgb_spec(Color::Silver).r, rgb_spec(Color::Silver).g, rgb_spec(Color::Silver).b]));
}

proof fn lemma_hex_sky_blue()
    ensures
        hex_spec(Color::SkyBlue) == seq!['#'] + hex_chars(seq![rgb_spec(Color::SkyBlue).r, rgb_spec(Color::SkyBlue).g, rgb_spec(Color::SkyBlue).b]),
{
    reveal_strlit("#87CEEB");
    assert(hex_spec(Color::SkyBlue) =~= seq!['#'] + hex_chars(seq![rgb_spec(Color::SkyBlue).r, rgb_spec(Color::SkyBlue).g, rgb_spec(Color::SkyBlue).b]));
}

proof fn lemma_hex_slate_blue()
    ensures
        hex_spec(Color::SlateBlue) == seq!['#'] + hex_chars(seq![rgb_spec(Color::SlateBlue).r, rgb_spec(Color::SlateBlue).g, rgb_spec(Color::SlateBlue).b]),
{
    reveal_strlit("#6A5ACD");
    assert(hex_spec(Color::SlateBlue) =~= seq!['#'] + hex_chars(seq![rgb_spec(Color::SlateBlue).r, rgb_spec(Color::SlateBlue).g, rgb_spec(Color::SlateBlue).b]));
}

proof fn lemma_hex_slate_gray()
    ensures
        hex_spec(Color::SlateGray) == seq!['#'] + hex_chars(seq![rgb_spec(Color::SlateGray).r, rgb_spec(Color::SlateGray).g, rgb_spec(Color::SlateGray).b]),
{
    reveal_strlit("#708090");
    assert(hex_spec(Color::SlateGray) =~= seq!['#'] + hex_chars(seq![rgb_spec(Color::SlateGray).r, rgb_spec(Color::SlateGray).g, rgb_spec(Color::SlateGray).b]));
}

proof fn lemma_hex_snow()
    ensures
        hex_spec(Color::Snow) == seq!['#'] + hex_chars(seq![rgb_spec(Color::Snow).r, rgb_spec(Color::Snow).g, rgb_spec(Color::Snow).b]),
{
    reveal_strlit("#FFFAFA");
    assert(hex_spec(Color::Snow) =~= seq!['#'] + hex_chars(seq![rgb_spec(Color::Snow).r, rgb_spec(Color::Snow).g, rgb_spec(Color::Snow).b]));
}

proof fn lemma_hex_spring_green()
    ensures
        hex_spec(Color::SpringGreen) == seq!['#'] + hex_chars(seq![rgb_spec(Color::SpringGreen).r, rgb_spec(Color::SpringGreen).g, rgb_spec(Color::SpringGreen).b]),
{
    reveal_strlit("#00FF7F");
    assert(hex_spec(Color::SpringGreen) =~= seq!['#'] + hex_chars(seq![rgb_spec(Color::SpringGreen).r, rgb_spec(Color::SpringGreen).g, rgb_spec(Color::SpringGreen).b]));
}

proof fn lemma_hex_steel_blue()
    ensures
        hex_spec(Color::SteelBlue) == seq!['#'] + hex_chars(seq![rgb_spec(Color::SteelBlue).r, rgb_spec(Color::SteelBlue).g, rgb_spec(Color::SteelBlue).b]),
{
    reveal_strlit("#4682B4");
    assert(hex_spec(Color::SteelBlue) =~= seq!['#'] + hex_chars(seq![rgb_spec(Color::SteelBlue).r, rgb_spec(Color::SteelBlue).g, rgb_spec(Color::SteelBlue).b]));
}

proof fn lemma_hex_tan()
    ensures
        hex_spec(Color::Tan) == seq!['#'] + hex_chars(seq![rgb_spec(Color::Tan).r, rgb_spec(Color::Tan).g, rgb_spec(Color::Tan).b]),
{
    reveal_strlit("#D2B48C");
    assert(hex_spec(Color::Tan) =~= seq!['#'] + hex_chars(seq![rgb_spec(Color::Tan).r, rgb_spec(Color::Tan).g, rgb_spec(Color::Tan).b]));
}

proof fn lemma_hex_teal()
    ensures
        hex_spec(Color::Teal) == seq!['#'] + hex_chars(seq![rgb_spec(Color::Teal).r, rgb_spec(Color::Teal).g, rgb_spec(Color::Teal).b]),
{
    reveal_strlit("#008080");
    assert(hex_spec(Color::Teal) =~= seq!['#'] + hex_chars(seq![rgb_spec(Color::Teal).r, rgb_spec(Color::Teal).g, rgb_spec(Color::Teal).b]));
}

proof fn lemma_hex_thistle()
    ensures
        hex_spec(Color::Thistle) == seq!['#'] + hex_chars(seq![rgb_spec(Color::Thistle).r, rgb_spec(Color::Thistle).g, rgb_spec(Color::Thistle).b]),
{
    reveal_strlit("#D8BFD8");
    assert(hex_spec(Color::Thistle) =~= seq!['#'] + hex_chars(seq![rgb_spec(Color::Thistle).r, rgb_spec(Color::Thistle).g, rgb_spec(Color::Thistle).b]));
}

proof fn lemma_hex_tomato()
    ensures
        hex_spec(Color::Tomato) == seq!['#'] + hex_chars(seq![rgb_spec(Color::Tomato).r, rgb_spec(Color::Tomato).g, rgb_spec(Color::Tomato).b]),
{
    reveal_strlit("#FF6347");
    assert(hex_spec(Color::Tomato) =~= seq!['#'] + hex_chars(seq![rgb_spec(Color::Tomato).r, rgb_spec(Color::Tomato).g, rgb_spec(Color::Tomato).b]));
}

proof fn lemma_hex_turquoise()
    ensures
        hex_spec(Color::Turquoise) == seq!['#'] + hex_chars(seq![rgb_spec(Color::Turquoise).r, rgb_spec(Color::Turquoise).g, rgb_spec(Color::Turquoise).b]),
{
    reveal_strlit("#40E0D0");
    assert(hex_spec(Color::Turquoise) =~= seq!['#'] + hex_chars(seq![rgb_spec(Color::Turquoise).r, rgb_spec(Color::Turquoise).g, rgb_spec(Color::Turquoise).b]));
}

proof fn lemma_hex_violet()
    ensures
        hex_spec(Color::Violet) == seq!['#'] + hex_chars(seq![rgb_spec(Color::Violet).r, rgb_spec(Color::Violet).g, rgb_spec(Color::Violet).b]),
{
    reveal_strlit("#EE82EE");
    assert(hex_spec(Color::Violet) =~= seq!['#'] + hex_chars(seq![rgb_spec(Color::Violet).r, rgb_spec(Color::Violet).g, rgb_spec(Color::Violet).b]));
}

proof fn lemma_hex_wheat()
    ensures
        hex_spec(Color::Wheat) == seq!['#'] + hex_chars(seq![rgb_spec(Color::Wheat).r, rgb_spec(Color::Wheat).g, rgb_spec(Color::Wheat).b]),
{
    reveal_strlit("#F5DEB3");
    assert(hex_spec(Color::Wheat) =~= seq!['#'] + hex_chars(seq![rgb_spec(Color::Wheat).r, rgb_spec(Color::Wheat).g, rgb_spec(Color::Wheat).b]));
}

proof fn lemma_hex_white()
    ensures
        hex_spec(Color::White) == seq!['#'] + hex_chars(seq![rgb_spec(Color::White).r, rgb_spec(Color::White).g, rgb_spec(Color::White).b]),
{
    reveal_strlit("#FFFFFF");
    assert(hex_spec(Color::White) =~= seq!['#'] + hex_chars(seq![rgb_spec(Color::White).r, rgb_spec(Color::White).g, rgb_spec(Color::White).b]));
}

proof fn lemma_hex_white_smoke()
    ensures
        hex_spec(Color::WhiteSmoke) == seq!['#'] + hex_chars(seq![rgb_spec(Color::WhiteSmoke).r, rgb_spec(Color::WhiteSmoke).g, rgb_spec(Color::WhiteSmoke).b]),
{
    reveal_strlit("#F5F5F5");
    assert(hex_spec(Color::WhiteSmoke) =~= seq!['#'] + hex_chars(seq![rgb_spec(Color::WhiteSmoke).r, rgb_spec(Color::WhiteSmoke).g, rgb_spec(Color::WhiteSmoke).b]));
}

proof fn lemma_hex_yellow()
    ensures
        hex_spec(Color::Yellow) == seq!['#'] + hex_chars(seq![rgb_spec(Color::Yellow).r, rgb_spec(Color::Yellow).g, rgb_spec(Color::Yellow).b]),
{
    reveal_strlit("#FFFF00");
    assert(hex_spec(Color::Yellow) =~= seq!['#'] + hex_chars(seq![rgb_spec(Color::Yellow).r, rgb_spec(Color::Yellow).g, rgb_spec(Color::Yellow).b]));
}

proof fn lemma_hex_yellow_green()
    ensures
        hex_spec(Color::YellowGreen) == seq!['#'] + hex_chars(seq![rgb_spec(Color::YellowGreen).r, rgb_spec(Color::YellowGreen).g, rgb_spec(Color::YellowGreen).b]),
{
    reveal_strlit("#9ACD32");
    assert(hex_spec(Color::YellowGreen) =~= seq!['#'] + hex_chars(seq![rgb_spec(Color::YellowGreen).r, rgb_spec(Color::YellowGreen).g, rgb_spec(Color::YellowGreen).b]));
}

/// For every color, the RGB value agrees with its hex text: the text is `#` and the
/// two upper-case hexadecimal digits of each of red, green and blue, so the text
/// without `#` reads back (as [`crate::color::Rgb::from_hex`] reads its UTF-8 bytes)
/// as the color's RGB value.
pub proof fn lemma_rgb_matches_hex(c: Color)
    ensures
        hex_spec(c) == seq!['#'] + hex_chars(seq![rgb_spec(c).r, rgb_spec(c).g, rgb_spec(c).b]),
        parse_hex_rgb(vstd::utf8::encode_utf8(hex_spec(c).drop_first())) == Some(rgb_spec(c)),
{
    match c {
        Color::AliceBlue => lemma_hex_alice_blue(),
        Color::AntiqueWhite => lemma_hex_antique_white(),
        Color::Aqua => lemma_hex_aqua(),
        Color::Aquamarine => lemma_hex_aquamarine(),
        Color::Azure => lemma_hex_azure(),
        Color::Beige => lemma_hex_beige(),
        Color::Bisque => lemma_hex_bisque(),
        Color::Black => lemma_hex_black(),
        Color::BlanchedAlmond => lemma_hex_blanched_almond(),
        Color::Blue => lemma_hex_blue(),
        Color::BlueViolet => lemma_hex_blue_violet(),
        Color::Brown => lemma_hex_brown(),
        Color::BurlyWood => lemma_hex_burly_wood(),
        Color::CadetBlue => lemma_hex_cadet_blue(),
        Color::Chartreuse => lemma_hex_chartreuse(),
        Color::Chocolate => lemma_hex_chocolate(),
        Color::Coral => lemma_hex_coral(),
        Color::CornflowerBlue => lemma_hex_cornflower_blue(),
        Color::Cornsilk => lemma_hex_cornsilk(),
        Color::Crimson => lemma_hex_crimson(),
        Color::Cyan => lemma_hex_cyan(),
        Color::DarkBlue => lemma_hex_dark_blue(),
        Color::DarkCyan => lemma_hex_dark_cyan(),
        Color::DarkGoldenRod => lemma_hex_dark_golden_rod(),
        Color::DarkGray => lemma_hex_dark_gray(),
        Color::DarkGreen => lemma_hex_dark_green(),
        Color::DarkKhaki => lemma_hex_dark_khaki(),
        Color::DarkMagenta => lemma_hex_dark_magenta(),
        Color::DarkOliveGreen => lemma_hex_dark_olive_green(),
        Color::DarkOrange => lemma_hex_dark_orange(),
        Color::DarkOrchid => lemma_hex_dark_orchid(),
        Color::DarkRed => lemma_hex_dark_red(),
        Color::DarkSalmon => lemma_hex_dark_salmon(),
        Color::DarkSeaGreen => lemma_hex_dark_sea_green(),
        Color::DarkSlateBlue => lemma_hex_dark_slate_blue(),
        Color::DarkSlateGray => lemma_hex_dark_slate_gray(),
        Color::DarkTurquoise => lemma_hex_dark_turquoise(),
        Color::DarkViolet => lemma_hex_dark_violet(),
        Color::DeepPink => lemma_hex_deep_pink(),
        Color::DeepSkyBlue => lemma_hex_deep_sky_blue(),
        Color::DimGray => lemma_hex_dim_gray(),
        Color::DodgerBlue => lemma_hex_dodger_blue(),
        Color::FireBrick => lemma_hex_fire_brick(),
        Color::FloralWhite => lemma_hex_floral_white(),
        Color::ForestGreen => lemma_hex_forest_green(),
        Color::Fuchsia => lemma_hex_fuchsia(),
        Color::Gainsboro => lemma_hex_gainsboro(),
        Color::GhostWhite => lemma_hex_ghost_white(),
        Color::Gold => lemma_hex_gold(),
        Color::GoldenRod => lemma_hex_golden_rod(),
        Color::Gray => lemma_hex_gray(),
        Color::Green => lemma_hex_green(),
        Color::GreenYellow => lemma_hex_green_yellow(),
        Color::HoneyDew => lemma_hex_honey_dew(),
        Color::HotPink => lemma_hex_hot_pink(),
        Color::IndianRed => lemma_hex_indian_red(),
        Color::Indigo => lemma_hex_indigo(),
        Color::Ivory => lemma_hex_ivory(),
        Color::Khaki => lemma_hex_khaki(),
        Color::Lavender => lemma_hex_lavender(),
        Color::LavenderBlush => lemma_hex_lavender_blush(),
        Color::LawnGreen => lemma_hex_lawn_green(),
        Color::LemonChiffon => lemma_hex_lemon_chiffon(),
        Color::LightBlue => lemma_hex_light_blue(),
        Color::LightCoral => lemma_hex_light_coral(),
        Color::LightCyan => lemma_hex_light_cyan(),
        Color::LightGoldenRodYellow => lemma_hex_light_golden_rod_yellow(),
        Color::LightGray => lemma_hex_light_gray(),
        Color::LightGreen => lemma_hex_light_green(),
        Color::LightPink => lemma_hex_light_pink(),
        Color::LightSalmon => lemma_hex_light_salmon(),
        Color::LightSeaGreen => lemma_hex_light_sea_green(),
        Color::LightSkyBlue => lemma_hex_light_sky_blue(),
        Color::LightSlateGray => lemma_hex_light_slate_gray(),
        Color::LightSteelBlue => lemma_hex_light_steel_blue(),
        Color::LightYellow => lemma_hex_light_yellow(),
        Color::Lime => lemma_hex_lime(),
        Color::LimeGreen => lemma_hex_lime_green(),
        Color::Linen => lemma_hex_linen(),
        Color::Magenta => lemma_hex_magenta(),
        Color::Maroon => lemma_hex_maroon(),
        Color::MediumAquaMarine => lemma_hex_medium_aqua_marine(),
        Color::MediumBlue => lemma_hex_medium_blue(),
        Color::MediumOrchid => lemma_hex_medium_orchid(),
        Color::MediumPurple => lemma_hex_medium_purple(),
        Color::MediumSeaGreen => lemma_hex_medium_sea_green(),
        Color::MediumSlateBlue => lemma_hex_medium_slate_blue(),
        Color::MediumSpringGreen => lemma_hex_medium_spring_green(),
        Color::MediumTurquoise => lemma_hex_medium_turquoise(),
        Color::MediumVioletRed => lemma_hex_medium_violet_red(),
        Color::MidnightBlue => lemma_hex_midnight_blue(),
        Color::MintCream => lemma_hex_mint_cream(),
        Color::MistyRose => lemma_hex_misty_rose(),
        Color::Moccasin => lemma_hex_moccasin(),
        Color::NavajoWhite => lemma_hex_navajo_white(),
        Color::Navy => lemma_hex_navy(),
        Color::OldLace => lemma_hex_old_lace(),
        Color::Olive => lemma_hex_olive(),
        Color::OliveDrab => lemma_hex_olive_drab(),
        Color::Orange => lemma_hex_orange(),
        Color::OrangeRed => lemma_hex_orange_red(),
        Color::Orchid => lemma_hex_orchid(),
        Color::PaleGoldenRod => lemma_hex_pale_golden_rod(),
        Color::PaleGreen => lemma_hex_pale_green(),
        Color::PaleTurquoise => lemma_hex_pale_turquoise(),
        Color::PaleVioletRed => lemma_hex_pale_violet_red(),
        Color::PapayaWhip => lemma_hex_papaya_whip(),
        Color::PeachPuff => lemma_hex_peach_puff(),
        Color::Peru => lemma_hex_peru(),
        Color::Pink => lemma_hex_pink(),
        Color::Plum => lemma_hex_plum(),
        Color::PowderBlue => lemma_hex_powder_blue(),
        Color::Purple => lemma_hex_purple(),
        Color::Red => lemma_hex_red(),
        Color::RosyBrown => lemma_hex_rosy_brown(),
        Color::RoyalBlue => lemma_hex_royal_blue(),
        Color::SaddleBrown => lemma_hex_saddle_brown(),
        Color::Salmon => lemma_hex_salmon(),
        Color::SandyBrown => lemma_hex_sandy_brown(),
        Color::SeaGreen => lemma_hex_sea_green(),
        Color::SeaShell => lemma_hex_sea_shell(),
        Color::Sienna => lemma_hex_sienna(),
        Color::Silver => lemma_hex_silver(),
        Color::SkyBlue => lemma_hex_sky_blue(),
        Color::SlateBlue => lemma_hex_slate_blue(),
        Color::SlateGray => lemma_hex_slate_gray(),
        Color::Snow => lemma_hex_snow(),
        Color::SpringGreen => lemma_hex_spring_green(),
        Color::SteelBlue => lemma_hex_steel_blue(),
        Color::Tan => lemma_hex_tan(),
        Color::Teal => lemma_hex_teal(),
        Color::Thistle => lemma_hex_thistle(),
        Color::Tomato => lemma_hex_tomato(),
        Color::Turquoise => lemma_hex_turquoise(),
        Color::Violet => lemma_hex_violet(),
        Color::Wheat => lemma_hex_wheat(),
        Color::White => lemma_hex_white(),
        Color::WhiteSmoke => lemma_hex_white_smoke(),
        Color::Yellow => lemma_hex_yellow(),
        Color::YellowGreen => lemma_hex_yellow_green(),
    }
    lemma_rgb_hex_text_round_trip(rgb_spec(c));
    assert(hex_spec(c).drop_first() =~= hex_chars(seq![rgb_spec(c).r, rgb_spec(c).g, rgb_spec(c).b]));
}

} // verus!
