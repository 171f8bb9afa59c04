use vstd::prelude::*;

verus! {

/// A named color of the CSS palette that particles are painted with.
#[derive(Clone, Copy, Debug, PartialEq, Eq, Structural)]
pub enum CssColor {
    Red,
    Crimson,
    DarkRed,
    FireBrick,
    IndianRed,
    LightCoral,
    Salmon,
    DarkSalmon,
    LightSalmon,
    OrangeRed,
    Tomato,
    DarkOrange,
    Orange,
    Gold,
    DarkGoldenrod,
    Goldenrod,
    PaleGoldenrod,
    Peachpuff,
    NavajoWhite,
    Yellow,
    LightYellow,
    LemonChiffon,
    LightGoldenrodYellow,
    PapayaWhip,
    Moccasin,
    Khaki,
    DarkKhaki,
    YellowGreen,
    Olive,
    Lime,
    Limegreen,
    LawnGreen,
    Chartreuse,
    GreenYellow,
    SpringGreen,
    MediumSpringGreen,
    LightGreen,
    PaleGreen,
    DarkSeaGreen,
    MediumSeaGreen,
    SeaGreen,
    ForestGreen,
    Green,
    DarkGreen,
    MediumAquamarine,
    Aqua,
    DarkCyan,
    LightCyan,
    PaleTurquoise,
    Aquamarine,
    Turquoise,
    MediumTurquoise,
    DarkTurquoise,
    LightSeaGreen,
    DeepSkyBlue,
    LightBlue,
    SkyBlue,
    LightSkyBlue,
    SteelBlue,
    AliceBlue,
    DodgerBlue,
    RoyalBlue,
    Blue,
    MediumBlue,
    DarkBlue,
    Navy,
    MidnightBlue,
    CornflowerBlue,
    SlateBlue,
    MediumSlateBlue,
    DarkSlateBlue,
    Lavender,
    Thistle,
    Plum,
    Violet,
    Orchid,
    Magenta,
    MediumOrchid,
    MediumPurple,
    BlueViolet,
    DarkViolet,
    DarkOrchid,
    DarkMagenta,
    Purple,
    Indigo,
    MediumVioletRed,
    PaleVioletred,
    DeepPink,
    HotPink,
    LightPink,
    Pink,
    AntiqueWhite,
    Beige,
    Bisque,
    SaddleBrown,
    Sienna,
    Chocolate,
    Peru,
    SandyBrown,
    Burlywood,
    Tan,
    RosyBrown,
    Maroon,
    Brown,
    DarkOlivegreen,
    OliveDrab,
    Teal,
    DarkSlateGray,
    SlateGray,
    LightSlateGray,
    DimGray,
}

/// Number of entries in the palette (some colors occur twice).
pub const PALETTE_LEN: usize = 115;

/// The palette, in the order in which colors are handed out to particle kinds.
pub open spec fn palette_spec() -> Seq<CssColor> {
    seq![
            CssColor::Red,
            CssColor::Crimson,
            CssColor::DarkRed,
            CssColor::FireBrick,
            CssColor::IndianRed,
            CssColor::LightCoral,
            CssColor::Salmon,
            CssColor::DarkSalmon,
            CssColor::LightSalmon,
            CssColor::OrangeRed,
            CssColor::OrangeRed,
            CssColor::Tomato,
            CssColor::DarkOrange,
            CssColor::Orange,
            CssColor::Gold,
            CssColor::DarkGoldenrod,
            CssColor::Goldenrod,
            CssColor::PaleGoldenrod,
            CssColor::Peachpuff,
            CssColor::NavajoWhite,
            CssColor::Yellow,
            CssColor::LightYellow,
            CssColor::LemonChiffon,
            CssColor::LightGoldenrodYellow,
            CssColor::PapayaWhip,
            CssColor::Moccasin,
            CssColor::Khaki,
            CssColor::DarkKhaki,
            CssColor::YellowGreen,
            CssColor::Olive,
            CssColor::Lime,
            CssColor::Limegreen,
            CssColor::LawnGreen,
            CssColor::Chartreuse,
            CssColor::GreenYellow,
            CssColor::SpringGreen,
            CssColor::MediumSpringGreen,
            CssColor::LightGreen,
            CssColor::PaleGreen,
            CssColor::DarkSeaGreen,
            CssColor::MediumSeaGreen,
            CssColor::SeaGreen,
            CssColor::ForestGreen,
            CssColor::Green,
            CssColor::DarkGreen,
            CssColor::MediumAquamarine,
            CssColor::Aqua,
            CssColor::DarkCyan,
            CssColor::LightCyan,
            CssColor::PaleTurquoise,
            CssColor::Aquamarine,
            CssColor::Turquoise,
            CssColor::MediumTurquoise,
            CssColor::DarkTurquoise,
            CssColor::LightSeaGreen,
            CssColor::DeepSkyBlue,
            CssColor::LightBlue,
            CssColor::SkyBlue,
            CssColor::LightSkyBlue,
            CssColor::SteelBlue,
            CssColor::AliceBlue,
            CssColor::DodgerBlue,
            CssColor::RoyalBlue,
            CssColor::Blue,
            CssColor::MediumBlue,
            CssColor::DarkBlue,
            CssColor::Navy,
            CssColor::MidnightBlue,
            CssColor::CornflowerBlue,
            CssColor::SlateBlue,
            CssColor::MediumSlateBlue,
            CssColor::DarkSlateBlue,
            CssColor::Lavender,
            CssColor::Thistle,
            CssColor::Plum,
            CssColor::Violet,
            CssColor::Orchid,
            CssColor::Magenta,
            CssColor::MediumOrchid,
            CssColor::MediumPurple,
            CssColor::BlueViolet,
            CssColor::DarkViolet,
            CssColor::DarkOrchid,
            CssColor::DarkMagenta,
            CssColor::Purple,
            CssColor::Indigo,
            CssColor::MediumVioletRed,
            CssColor::PaleVioletred,
            CssColor::DeepPink,
            CssColor::HotPink,
            CssColor::LightPink,
            CssColor::Pink,
            CssColor::AntiqueWhite,
            CssColor::Beige,
            CssColor::Bisque,
            CssColor::SaddleBrown,
            CssColor::Sienna,
            CssColor::Chocolate,
            CssColor::Peru,
            CssColor::SandyBrown,
            CssColor::Burlywood,
            CssColor::Tan,
            CssColor::RosyBrown,
            CssColor::Moccasin,
            CssColor::NavajoWhite,
            CssColor::Maroon,
            CssColor::Brown,
            CssColor::DarkOlivegreen,
            CssColor::OliveDrab,
            CssColor::DarkCyan,
            CssColor::Teal,
            CssColor::DarkSlateGray,
            CssColor::SlateGray,
            CssColor::LightSlateGray,
            CssColor::DimGray,
    ]
}

/// How many colors a request for `count` colors yields: `count`, capped at the palette's length.
pub open spec fn selected_len(count: int) -> int {
    if count < PALETTE_LEN {
        count
    } else {
        PALETTE_LEN as int
    }
}

/// Palette entry `i`, one entry per line, grouped by hue: reds (0-9), oranges (10-19),
/// yellows (20-29), greens (30-44), cyans (45-54), blues (55-69), purples (70-84),
/// pinks (85-94), browns (95-104), and grays and others (105-114).
pub open spec fn palette_entry(i: int) -> CssColor {
    match i as u8 {
        0 => CssColor::Red,
        1 => CssColor::Crimson,
        2 => CssColor::DarkRed,
        3 => CssColor::FireBrick,
        4 => CssColor::IndianRed,
        5 => CssColor::LightCoral,
        6 => CssColor::Salmon,
        7 => CssColor::DarkSalmon,
        8 => CssColor::LightSalmon,
        9 => CssColor::OrangeRed,
        10 => CssColor::OrangeRed,
        11 => CssColor::Tomato,
        12 => CssColor::DarkOrange,
        13 => CssColor::Orange,
        14 => CssColor::Gold,
        15 => CssColor::DarkGoldenrod,
        16 => CssColor::Goldenrod,
        17 => CssColor::PaleGoldenrod,
        18 => CssColor::Peachpuff,
        19 => CssColor::NavajoWhite,
        20 => CssColor::Yellow,
        21 => CssColor::LightYellow,
        22 => CssColor::LemonChiffon,
        23 => CssColor::LightGoldenrodYellow,
        24 => CssColor::PapayaWhip,
        25 => CssColor::Moccasin,
        26 => CssColor::Khaki,
        27 => CssColor::DarkKhaki,
        28 => CssColor::YellowGreen,
        29 => CssColor::Olive,
        30 => CssColor::Lime,
        31 => CssColor::Limegreen,
        32 => CssColor::LawnGreen,
        33 => CssColor::Chartreuse,
        34 => CssColor::GreenYellow,
        35 => CssColor::SpringGreen,
        36 => CssColor::MediumSpringGreen,
        37 => CssColor::LightGreen,
        38 => CssColor::PaleGreen,
        39 => CssColor::DarkSeaGreen,
        40 => CssColor::MediumSeaGreen,
        41 => CssColor::SeaGreen,
        42 => CssColor::ForestGreen,
        43 => CssColor::Green,
        44 => CssColor::DarkGreen,
        45 => CssColor::MediumAquamarine,
        46 => CssColor::Aqua,
        47 => CssColor::DarkCyan,
        48 => CssColor::LightCyan,
        49 => CssColor::PaleTurquoise,
        50 => CssColor::Aquamarine,
        51 => CssColor::Turquoise,
        52 => CssColor::MediumTurquoise,
        53 => CssColor::DarkTurquoise,
        54 => CssColor::LightSeaGreen,
        55 => CssColor::DeepSkyBlue,
        56 => CssColor::LightBlue,
        57 => CssColor::SkyBlue,
        58 => CssColor::LightSkyBlue,
        59 => CssColor::SteelBlue,
        60 => CssColor::AliceBlue,
        61 => CssColor::DodgerBlue,
        62 => CssColor::RoyalBlue,
        63 => CssColor::Blue,
        64 => CssColor::MediumBlue,
        65 => CssColor::DarkBlue,
        66 => CssColor::Navy,
        67 => CssColor::MidnightBlue,
        68 => CssColor::CornflowerBlue,
        69 => CssColor::SlateBlue,
        70 => CssColor::MediumSlateBlue,
        71 => CssColor::DarkSlateBlue,
        72 => CssColor::Lavender,
        73 => CssColor::Thistle,
        74 => CssColor::Plum,
        75 => CssColor::Violet,
        76 => CssColor::Orchid,
        77 => CssColor::Magenta,
        78 => CssColor::MediumOrchid,
        79 => CssColor::MediumPurple,
        80 => CssColor::BlueViolet,
        81 => CssColor::DarkViolet,
        82 => CssColor::DarkOrchid,
        83 => CssColor::DarkMagenta,
        84 => CssColor::Purple,
        85 => CssColor::Indigo,
        86 => CssColor::MediumVioletRed,
        87 => CssColor::PaleVioletred,
        88 => CssColor::DeepPink,
        89 => CssColor::HotPink,
        90 => CssColor::LightPink,
        91 => CssColor::Pink,
        92 => CssColor::AntiqueWhite,
        93 => CssColor::Beige,
        94 => CssColor::Bisque,
        95 => CssColor::SaddleBrown,
        96 => CssColor::Sienna,
        97 => CssColor::Chocolate,
        98 => CssColor::Peru,
        99 => CssColor::SandyBrown,
        100 => CssColor::Burlywood,
        101 => CssColor::Tan,
        102 => CssColor::RosyBrown,
        103 => CssColor::Moccasin,
        104 => CssColor::NavajoWhite,
        105 => CssColor::Maroon,
        106 => CssColor::Brown,
        107 => CssColor::DarkOlivegreen,
        108 => CssColor::OliveDrab,
        109 => CssColor::DarkCyan,
        110 => CssColor::Teal,
        111 => CssColor::DarkSlateGray,
        112 => CssColor::SlateGray,
        113 => CssColor::LightSlateGray,
        _ => CssColor::DimGray,
    }
}

/// The palette holds the entries of the table above, in that order, and nothing else.
pub proof fn lemma_palette_entries()
    ensures
        palette_spec().len() == PALETTE_LEN,
        forall|i: int| 0 <= i < PALETTE_LEN ==> #[trigger] palette_spec()[i] == palette_entry(i),
{
    let p = palette_spec();
    assert(p[0] == palette_entry(0));
    assert(p[1] == palette_entry(1));
    assert(p[2] == palette_entry(2));
    assert(p[3] == palette_entry(3));
    assert(p[4] == palette_entry(4));
    assert(p[5] == palette_entry(5));
    assert(p[6] == palette_entry(6));
    assert(p[7] == palette_entry(7));
    assert(p[8] == palette_entry(8));
    assert(p[9] == palette_entry(9));
    assert(p[10] == palette_entry(10));
    assert(p[11] == palette_entry(11));
    assert(p[12] == palette_entry(12));
    assert(p[13] == palette_entry(13));
    assert(p[14] == palette_entry(14));
    assert(p[15] == palette_entry(15));
    assert(p[16] == palette_entry(16));
    assert(p[17] == palette_entry(17));
    assert(p[18] == palette_entry(18));
    assert(p[19] == palette_entry(19));
    assert(p[20] == palette_entry(20));
    assert(p[21] == palette_entry(21));
    assert(p[22] == palette_entry(22));
    assert(p[23] == palette_entry(23));
    assert(p[24] == palette_entry(24));
    assert(p[25] == palette_entry(25));
    assert(p[26] == palette_entry(26));
    assert(p[27] == palette_entry(27));
    assert(p[28] == palette_entry(28));
    assert(p[29] == palette_entry(29));
    assert(p[30] == palette_entry(30));
    assert(p[31] == palette_entry(31));
    assert(p[32] == palette_entry(32));
    assert(p[33] == palette_entry(33));
    assert(p[34] == palette_entry(34));
    assert(p[35] == palette_entry(35));
    assert(p[36] == palette_entry(36));
    assert(p[37] == palette_entry(37));
    assert(p[38] == palette_entry(38));
    assert(p[39] == palette_entry(39));
    assert(p[40] == palette_entry(40));
    assert(p[41] == palette_entry(41));
    assert(p[42] == palette_entry(42));
    assert(p[43] == palette_entry(43));
    assert(p[44] == palette_entry(44));
    assert(p[45] == palette_entry(45));
    assert(p[46] == palette_entry(46));
    assert(p[47] == palette_entry(47));
    assert(p[48] == palette_entry(48));
    assert(p[49] == palette_entry(49));
    assert(p[50] == palette_entry(50));
    assert(p[51] == palette_entry(51));
    assert(p[52] == palette_entry(52));
    assert(p[53] == palette_entry(53));
    assert(p[54] == palette_entry(54));
    assert(p[55] == palette_entry(55));
    assert(p[56] == palette_entry(56));
    assert(p[57] == palette_entry(57));
    assert(p[58] == palette_entry(58));
    assert(p[59] == palette_entry(59));
    assert(p[60] == palette_entry(60));
    assert(p[61] == palette_entry(61));
    assert(p[62] == palette_entry(62));
    assert(p[63] == palette_entry(63));
    assert(p[64] == palette_entry(64));
    assert(p[65] == palette_entry(65));
    assert(p[66] == palette_entry(66));
    assert(p[67] == palette_entry(67));
    assert(p[68] == palette_entry(68));
    assert(p[69] == palette_entry(69));
    assert(p[70] == palette_entry(70));
    assert(p[71] == palette_entry(71));
    assert(p[72] == palette_entry(72));
    assert(p[73] == palette_entry(73));
    assert(p[74] == palette_entry(74));
    assert(p[75] == palette_entry(75));
    assert(p[76] == palette_entry(76));
    assert(p[77] == palette_entry(77));
    assert(p[78] == palette_entry(78));
    assert(p[79] == palette_entry(79));
    assert(p[80] == palette_entry(80));
    assert(p[81] == palette_entry(81));
    assert(p[82] == palette_entry(82));
    assert(p[83] == palette_entry(83));
    assert(p[84] == palette_entry(84));
    assert(p[85] == palette_entry(85));
    assert(p[86] == palette_entry(86));
    assert(p[87] == palette_entry(87));
    assert(p[88] == palette_entry(88));
    assert(p[89] == palette_entry(89));
    assert(p[90] == palette_entry(90));
    assert(p[91] == palette_entry(91));
    assert(p[92] == palette_entry(92));
    assert(p[93] == palette_entry(93));
    assert(p[94] == palette_entry(94));
    assert(p[95] == palette_entry(95));
    assert(p[96] == palette_entry(96));
    assert(p[97] == palette_entry(97));
    assert(p[98] == palette_entry(98));
    assert(p[99] == palette_entry(99));
    assert(p[100] == palette_entry(100));
    assert(p[101] == palette_entry(101));
    assert(p[102] == palette_entry(102));
    assert(p[103] == palette_entry(103));
    assert(p[104] == palette_entry(104));
    assert(p[105] == palette_entry(105));
    assert(p[106] == palette_entry(106));
    assert(p[107] == palette_entry(107));
    assert(p[108] == palette_entry(108));
    assert(p[109] == palette_entry(109));
    assert(p[110] == palette_entry(110));
    assert(p[111] == palette_entry(111));
    assert(p[112] == palette_entry(112));
    assert(p[113] == palette_entry(113));
    assert(p[114] == palette_entry(114));
}

/// How many colors a request for `count` colors yields: `count` up to the palette's
/// length, and the whole palette beyond it.
pub proof fn lemma_selected_len(count: int)
    requires
        0 <= count,
    ensures
        count <= PALETTE_LEN ==> selected_len(count) == count,
        count >= PALETTE_LEN ==> selected_len(count) == PALETTE_LEN,
        palette_spec().take(selected_len(count)).len() == selected_len(count),
{
    lemma_palette_entries();
}

/// Asking for more colors never changes the colors already handed out: a smaller
/// selection is a prefix of a larger one, and a selection is never longer than the
/// palette.
pub proof fn lemma_selection_prefix(a: int, b: int)
    requires
        0 <= a <= b,
    ensures
        palette_spec().take(selected_len(a)).len() == selected_len(a),
        selected_len(a) <= selected_len(b) <= PALETTE_LEN,
        palette_spec().take(selected_len(a)) == palette_spec().take(selected_len(b)).take(
            selected_len(a),
        ),
{
    assert(palette_spec().len() == PALETTE_LEN);
    assert(palette_spec().take(selected_len(a)) =~= palette_spec().take(selected_len(b)).take(
        selected_len(a),
    ));
}

/// The whole palette, in order.
pub fn full_palette() -> (colors: Vec<CssColor>)
    ensures
        colors@ == palette_spec(),
        colors@.len() == PALETTE_LEN,
        forall|i: int| 0 <= i < PALETTE_LEN ==> #[trigger] colors@[i] == palette_entry(i),
{
    proof {
        lemma_palette_entries();
    }
    vec![
        CssColor::Red,
        CssColor::Crimson,
        CssColor::DarkRed,
        CssColor::FireBrick,
        CssColor::IndianRed,
        CssColor::LightCoral,
        CssColor::Salmon,
        CssColor::DarkSalmon,
        CssColor::LightSalmon,
        CssColor::OrangeRed,
        CssColor::OrangeRed,
        CssColor::Tomato,
        CssColor::DarkOrange,
        CssColor::Orange,
        CssColor::Gold,
        CssColor::DarkGoldenrod,
        CssColor::Goldenrod,
        CssColor::PaleGoldenrod,
        CssColor::Peachpuff,
        CssColor::NavajoWhite,
        CssColor::Yellow,
        CssColor::LightYellow,
        CssColor::LemonChiffon,
        CssColor::LightGoldenrodYellow,
        CssColor::PapayaWhip,
        CssColor::Moccasin,
        CssColor::Khaki,
        CssColor::DarkKhaki,
        CssColor::YellowGreen,
        CssColor::Olive,
        CssColor::Lime,
        CssColor::Limegreen,
        CssColor::LawnGreen,
        CssColor::Chartreuse,
        CssColor::GreenYellow,
        CssColor::SpringGreen,
        CssColor::MediumSpringGreen,
        CssColor::LightGreen,
        CssColor::PaleGreen,
        CssColor::DarkSeaGreen,
        CssColor::MediumSeaGreen,
        CssColor::SeaGreen,
        CssColor::ForestGreen,
        CssColor::Green,
        CssColor::DarkGreen,
        CssColor::MediumAquamarine,
        CssColor::Aqua,
        CssColor::DarkCyan,
        CssColor::LightCyan,
        CssColor::PaleTurquoise,
        CssColor::Aquamarine,
        CssColor::Turquoise,
        CssColor::MediumTurquoise,
        CssColor::DarkTurquoise,
        CssColor::LightSeaGreen,
        CssColor::DeepSkyBlue,
        CssColor::LightBlue,
        CssColor::SkyBlue,
        CssColor::LightSkyBlue,
        CssColor::SteelBlue,
        CssColor::AliceBlue,
        CssColor::DodgerBlue,
        CssColor::RoyalBlue,
        CssColor::Blue,
        CssColor::MediumBlue,
        CssColor::DarkBlue,
        CssColor::Navy,
        CssColor::MidnightBlue,
        CssColor::CornflowerBlue,
        CssColor::SlateBlue,
        CssColor::MediumSlateBlue,
        CssColor::DarkSlateBlue,
        CssColor::Lavender,
        CssColor::Thistle,
        CssColor::Plum,
        CssColor::Violet,
        CssColor::Orchid,
        CssColor::Magenta,
        CssColor::MediumOrchid,
        CssColor::MediumPurple,
        CssColor::BlueViolet,
        CssColor::DarkViolet,
        CssColor::DarkOrchid,
        CssColor::DarkMagenta,
        CssColor::Purple,
        CssColor::Indigo,
        CssColor::MediumVioletRed,
        CssColor::PaleVioletred,
        CssColor::DeepPink,
        CssColor::HotPink,
        CssColor::LightPink,
        CssColor::Pink,
        CssColor::AntiqueWhite,
        CssColor::Beige,
        CssColor::Bisque,
        CssColor::SaddleBrown,
        CssColor::Sienna,
        CssColor::Chocolate,
        CssColor::Peru,
        CssColor::SandyBrown,
        CssColor::Burlywood,
        CssColor::Tan,
        CssColor::RosyBrown,
        CssColor::Moccasin,
        CssColor::NavajoWhite,
        CssColor::Maroon,
        CssColor::Brown,
        CssColor::DarkOlivegreen,
        CssColor::OliveDrab,
        CssColor::DarkCyan,
        CssColor::Teal,
        CssColor::DarkSlateGray,
        CssColor::SlateGray,
        CssColor::LightSlateGray,
        CssColor::DimGray,
    ]
}

/// The first `count` colors of the palette, or all of them where `count` exceeds its length.
pub fn take_colors(count: usize) -> (colors: Vec<CssColor>)
    ensures
        colors@ == palette_spec().take(selected_len(count as int)),
        count <= PALETTE_LEN ==> colors@.len() == count,
        count >= PALETTE_LEN ==> colors@.len() == PALETTE_LEN,
        forall|i: int| 0 <= i < colors@.len() ==> #[trigger] colors@[i] == palette_entry(i),
{
    proof {
        lemma_palette_entries();
        lemma_selected_len(count as int);
    }
    let all = full_palette();
    let n: usize = if count < all.len() { count } else { all.len() };
    let mut colors: Vec<CssColor> = Vec::new();
    let mut i: usize = 0;
    while i < n
        invariant
            all@ == palette_spec(),
            n == selected_len(count as int),
            i <= n,
            colors@ == palette_spec().take(i as int),
        decreases n - i,
    {
        colors.push(all[i]);
        i += 1;
        assert(colors@ =~= palette_spec().take(i as int));
    }
    colors
}

} // verus!
