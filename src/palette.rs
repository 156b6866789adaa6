//! Colours: the 256-entry xterm palette and the map from lexical categories
//! to palette entries.

use vstd::prelude::*;

verus! {

/// An opaque RGB colour.
#[derive(Clone, Copy, Debug, PartialEq, Eq, Structural)]
pub struct Rgb {
    pub r: u8,
    pub g: u8,
    pub b: u8,
}

/// The sixteen system colours that open the xterm palette, as `0xRRGGBB`.
pub open spec fn system_code(id: int) -> int {
    if id == 0 { 0x000000 }
    else if id == 1 { 0x800000 }
    else if id == 2 { 0x008000 }
    else if id == 3 { 0x808000 }
    else if id == 4 { 0x000080 }
    else if id == 5 { 0x800080 }
    else if id == 6 { 0x008080 }
    else if id == 7 { 0xc0c0c0 }
    else if id == 8 { 0x808080 }
    else if id == 9 { 0xff0000 }
    else if id == 10 { 0x00ff00 }
    else if id == 11 { 0xffff00 }
    else if id == 12 { 0x0000ff }
    else if id == 13 { 0xff00ff }
    else if id == 14 { 0x00ffff }
    else { 0xffffff }
}

/// One channel of the 6x6x6 colour cube: 0, then 95 up to 255 in steps of 40.
pub open spec fn cube_level(k: int) -> int {
    if k == 0 { 0 } else { 55 + 40 * k }
}

/// The xterm palette entry `id` (below 256) as `0xRRGGBB`: sixteen system
/// colours, a 6x6x6 colour cube, then a ramp of 24 greys. The table keeps
/// greys 241 and 242 at `0x606060` and `0x666666`, below the ramp's
/// `0x626262` and `0x6c6c6c`.
pub open spec fn xterm_code(id: int) -> int {
    if id == 241 {
        0x606060
    } else if id == 242 {
        0x666666
    } else if id < 16 {
        system_code(id)
    } else if id < 232 {
        let c = id - 16;
        cube_level(c / 36) * 0x10000 + cube_level((c / 6) % 6) * 0x100 + cube_level(c % 6)
    } else {
        let g = 8 + 10 * (id - 232);
        g * 0x10000 + g * 0x100 + g
    }
}

/// The colour written as the hex pairs `RRGGBB` of `code`.
pub open spec fn rgb_of_code(code: int) -> Rgb {
    Rgb { r: (code / 0x10000) as u8, g: ((code / 0x100) % 0x100) as u8, b: (code % 0x100) as u8 }
}

/// The colour of xterm palette entry `id`.
pub open spec fn xterm_rgb(id: int) -> Rgb {
    rgb_of_code(xterm_code(id))
}

/// The palette entry that colours lexical category `category`, if any.
/// Category 5 (embedded code) has none.
pub open spec fn category_palette(category: int) -> Option<int> {
    if category == 0 { Some(124) }
    else if category == 1 { Some(245) }
    else if category == 2 { Some(94) }
    else if category == 3 { Some(94) }
    else if category == 4 { Some(136) }
    else if category == 6 { Some(26) }
    else if category == 7 { Some(26) }
    else if category == 8 { Some(56) }
    else if category == 9 { Some(94) }
    else if category == 10 { Some(136) }
    else if category == 11 { Some(124) }
    else if category == 12 { Some(239) }
    else if category == 13 { Some(239) }
    else if category == 14 { Some(239) }
    else if category == 15 { Some(30) }
    else if category == 16 { Some(28) }
    else if category == 17 { Some(18) }
    else if 18 <= category <= 21 { Some(23) }
    else { None }
}

/// The colour of lexical category `category`, or `None` where it has no entry.
pub open spec fn category_color(category: int) -> Option<Rgb> {
    match category_palette(category) {
        Some(p) => Some(xterm_rgb(p)),
        None => None,
    }
}

/// Palette entries 0 to 15.
fn system_hex(id: usize) -> (code: u32)
    requires
        id < 16,
    ensures
        code as int == xterm_code(id as int),
{
    match id {
        0 => {
            assert(xterm_code(0) == 0x000000);
            0x000000
        },
        1 => {
            assert(xterm_code(1) == 0x800000);
            0x800000
        },
        2 => {
            assert(xterm_code(2) == 0x008000);
            0x008000
        },
        3 => {
            assert(xterm_code(3) == 0x808000);
            0x808000
        },
        4 => {
            assert(xterm_code(4) == 0x000080);
            0x000080
        },
        5 => {
            assert(xterm_code(5) == 0x800080);
            0x800080
        },
        6 => {
            assert(xterm_code(6) == 0x008080);
            0x008080
        },
        7 => {
            assert(xterm_code(7) == 0xc0c0c0);
            0xc0c0c0
        },
        8 => {
            assert(xterm_code(8) == 0x808080);
            0x808080
        },
        9 => {
            assert(xterm_code(9) == 0xff0000);
            0xff0000
        },
        10 => {
            assert(xterm_code(10) == 0x00ff00);
            0x00ff00
        },
        11 => {
            assert(xterm_code(11) == 0xffff00);
            0xffff00
        },
        12 => {
            assert(xterm_code(12) == 0x0000ff);
            0x0000ff
        },
        13 => {
            assert(xterm_code(13) == 0xff00ff);
            0xff00ff
        },
        14 => {
            assert(xterm_code(14) == 0x00ffff);
            0x00ffff
        },
        _ => 0xffffff,
    }
}

/// Palette entries 16 to 231.
#[verifier::rlimit(100)]
fn cube_hex(id: usize) -> (code: u32)
    requires
        16 <= id < 232,
    ensures
        code as int == xterm_code(id as int),
{
    match id {
        16 => {
            assert(xterm_code(16) == 0x000000);
            0x000000
        },
        17 => {
            assert(xterm_code(17) == 0x00005f);
            0x00005f
        },
        18 => {
            assert(xterm_code(18) == 0x000087);
            0x000087
        },
        19 => {
            assert(xterm_code(19) == 0x0000af);
            0x0000af
        },
        20 => {
            assert(xterm_code(20) == 0x0000d7);
            0x0000d7
        },
        21 => {
            assert(xterm_code(21) == 0x0000ff);
            0x0000ff
        },
        22 => {
            assert(xterm_code(22) == 0x005f00);
            0x005f00
        },
        23 => {
            assert(xterm_code(23) == 0x005f5f);
            0x005f5f
        },
        24 => {
            assert(xterm_code(24) == 0x005f87);
            0x005f87
        },
        25 => {
            assert(xterm_code(25) == 0x005faf);
            0x005faf
        },
        26 => {
            assert(xterm_code(26) == 0x005fd7);
            0x005fd7
        },
        27 => {
            assert(xterm_code(27) == 0x005fff);
            0x005fff
        },
        28 => {
            assert(xterm_code(28) == 0x008700);
            0x008700
        },
        29 => {
            assert(xterm_code(29) == 0x00875f);
            0x00875f
        },
        30 => {
            assert(xterm_code(30) == 0x008787);
            0x008787
        },
        31 => {
            assert(xterm_code(31) == 0x0087af);
            0x0087af
        },
        32 => {
            assert(xterm_code(32) == 0x0087d7);
            0x0087d7
        },
        33 => {
            assert(xterm_code(33) == 0x0087ff);
            0x0087ff
        },
        34 => {
            assert(xterm_code(34) == 0x00af00);
            0x00af00
        },
        35 => {
            assert(xterm_code(35) == 0x00af5f);
            0x00af5f
        },
        36 => {
            assert(xterm_code(36) == 0x00af87);
            0x00af87
        },
        37 => {
            assert(xterm_code(37) == 0x00afaf);
            0x00afaf
        },
        38 => {
            assert(xterm_code(38) == 0x00afd7);
            0x00afd7
        },
        39 => {
            assert(xterm_code(39) == 0x00afff);
            0x00afff
        },
        40 => {
            assert(xterm_code(40) == 0x00d700);
            0x00d700
        },
        41 => {
            assert(xterm_code(41) == 0x00d75f);
            0x00d75f
        },
        42 => {
            assert(xterm_code(42) == 0x00d787);
            0x00d787
        },
        43 => {
            assert(xterm_code(43) == 0x00d7af);
            0x00d7af
        },
        44 => {
            assert(xterm_code(44) == 0x00d7d7);
            0x00d7d7
        },
        45 => {
            assert(xterm_code(45) == 0x00d7ff);
            0x00d7ff
        },
        46 => {
            assert(xterm_code(46) == 0x00ff00);
            0x00ff00
        },
        47 => {
            assert(xterm_code(47) == 0x00ff5f);
            0x00ff5f
        },
        48 => {
            assert(xterm_code(48) == 0x00ff87);
            0x00ff87
        },
        49 => {
            assert(xterm_code(49) == 0x00ffaf);
            0x00ffaf
        },
        50 => {
            assert(xterm_code(50) == 0x00ffd7);
            0x00ffd7
        },
        51 => {
            assert(xterm_code(51) == 0x00ffff);
            0x00ffff
        },
        52 => {
            assert(xterm_code(52) == 0x5f0000);
            0x5f0000
        },
        53 => {
            assert(xterm_code(53) == 0x5f005f);
            0x5f005f
        },
        54 => {
            assert(xterm_code(54) == 0x5f0087);
            0x5f0087
        },
        55 => {
            assert(xterm_code(55) == 0x5f00af);
            0x5f00af
        },
        56 => {
            assert(xterm_code(56) == 0x5f00d7);
            0x5f00d7
        },
        57 => {
            assert(xterm_code(57) == 0x5f00ff);
            0x5f00ff
        },
        58 => {
            assert(xterm_code(58) == 0x5f5f00);
            0x5f5f00
        },
        59 => {
            assert(xterm_code(59) == 0x5f5f5f);
            0x5f5f5f
        },
        60 => {
            assert(xterm_code(60) == 0x5f5f87);
            0x5f5f87
        },
        61 => {
            assert(xterm_code(61) == 0x5f5faf);
            0x5f5faf
        },
        62 => {
            assert(xterm_code(62) == 0x5f5fd7);
            0x5f5fd7
        },
        63 => {
            assert(xterm_code(63) == 0x5f5fff);
            0x5f5fff
        },
        64 => {
            assert(xterm_code(64) == 0x5f8700);
            0x5f8700
        },
        65 => {
            assert(xterm_code(65) == 0x5f875f);
            0x5f875f
        },
        66 => {
            assert(xterm_code(66) == 0x5f8787);
            0x5f8787
        },
        67 => {
            assert(xterm_code(67) == 0x5f87af);
            0x5f87af
        },
        68 => {
            assert(xterm_code(68) == 0x5f87d7);
            0x5f87d7
        },
        69 => {
            assert(xterm_code(69) == 0x5f87ff);
            0x5f87ff
        },
        70 => {
            assert(xterm_code(70) == 0x5faf00);
            0x5faf00
        },
        71 => {
            assert(xterm_code(71) == 0x5faf5f);
            0x5faf5f
        },
        72 => {
            assert(xterm_code(72) == 0x5faf87);
            0x5faf87
        },
        73 => {
            assert(xterm_code(73) == 0x5fafaf);
            0x5fafaf
        },
        74 => {
            assert(xterm_code(74) == 0x5fafd7);
            0x5fafd7
        },
        75 => {
            assert(xterm_code(75) == 0x5fafff);
            0x5fafff
        },
        76 => {
            assert(xterm_code(76) == 0x5fd700);
            0x5fd700
        },
        77 => {
            assert(xterm_code(77) == 0x5fd75f);
            0x5fd75f
        },
        78 => {
            assert(xterm_code(78) == 0x5fd787);
            0x5fd787
        },
        79 => {
            assert(xterm_code(79) == 0x5fd7af);
            0x5fd7af
        },
        80 => {
            assert(xterm_code(80) == 0x5fd7d7);
            0x5fd7d7
        },
        81 => {
            assert(xterm_code(81) == 0x5fd7ff);
            0x5fd7ff
        },
        82 => {
            assert(xterm_code(82) == 0x5fff00);
            0x5fff00
        },
        83 => {
            assert(xterm_code(83) == 0x5fff5f);
            0x5fff5f
        },
        84 => {
            assert(xterm_code(84) == 0x5fff87);
            0x5fff87
        },
        85 => {
            assert(xterm_code(85) == 0x5fffaf);
            0x5fffaf
        },
        86 => {
            assert(xterm_code(86) == 0x5fffd7);
            0x5fffd7
        },
        87 => {
            assert(xterm_code(87) == 0x5fffff);
            0x5fffff
        },
        88 => {
            assert(xterm_code(88) == 0x870000);
            0x870000
        },
        89 => {
            assert(xterm_code(89) == 0x87005f);
            0x87005f
        },
        90 => {
            assert(xterm_code(90) == 0x870087);
            0x870087
        },
        91 => {
            assert(xterm_code(91) == 0x8700af);
            0x8700af
        },
        92 => {
            assert(xterm_code(92) == 0x8700d7);
            0x8700d7
        },
        93 => {
            assert(xterm_code(93) == 0x8700ff);
            0x8700ff
        },
        94 => {
            assert(xterm_code(94) == 0x875f00);
            0x875f00
        },
        95 => {
            assert(xterm_code(95) == 0x875f5f);
            0x875f5f
        },
        96 => {
            assert(xterm_code(96) == 0x875f87);
            0x875f87
        },
        97 => {
            assert(xterm_code(97) == 0x875faf);
            0x875faf
        },
        98 => {
            assert(xterm_code(98) == 0x875fd7);
            0x875fd7
        },
        99 => {
            assert(xterm_code(99) == 0x875fff);
            0x875fff
        },
        100 => {
            assert(xterm_code(100) == 0x878700);
            0x878700
        },
        101 => {
            assert(xterm_code(101) == 0x87875f);
            0x87875f
        },
        102 => {
            assert(xterm_code(102) == 0x878787);
            0x878787
        },
        103 => {
            assert(xterm_code(103) == 0x8787af);
            0x8787af
        },
        104 => {
            assert(xterm_code(104) == 0x8787d7);
            0x8787d7
        },
        105 => {
            assert(xterm_code(105) == 0x8787ff);
            0x8787ff
        },
        106 => {
            assert(xterm_code(106) == 0x87af00);
            0x87af00
        },
        107 => {
            assert(xterm_code(107) == 0x87af5f);
            0x87af5f
        },
        108 => {
            assert(xterm_code(108) == 0x87af87);
            0x87af87
        },
        109 => {
            assert(xterm_code(109) == 0x87afaf);
            0x87afaf
        },
        110 => {
            assert(xterm_code(110) == 0x87afd7);
            0x87afd7
        },
        111 => {
            assert(xterm_code(111) == 0x87afff);
            0x87afff
        },
        112 => {
            assert(xterm_code(112) == 0x87d700);
            0x87d700
        },
        113 => {
            assert(xterm_code(113) == 0x87d75f);
            0x87d75f
        },
        114 => {
            assert(xterm_code(114) == 0x87d787);
            0x87d787
        },
        115 => {
            assert(xterm_code(115) == 0x87d7af);
            0x87d7af
        },
        116 => {
            assert(xterm_code(116) == 0x87d7d7);
            0x87d7d7
        },
        117 => {
            assert(xterm_code(117) == 0x87d7ff);
            0x87d7ff
        },
        118 => {
            assert(xterm_code(118) == 0x87ff00);
            0x87ff00
        },
        119 => {
            assert(xterm_code(119) == 0x87ff5f);
            0x87ff5f
        },
        120 => {
            assert(xterm_code(120) == 0x87ff87);
            0x87ff87
        },
        121 => {
            assert(xterm_code(121) == 0x87ffaf);
            0x87ffaf
        },
        122 => {
            assert(xterm_code(122) == 0x87ffd7);
            0x87ffd7
        },
        123 => {
            assert(xterm_code(123) == 0x87ffff);
            0x87ffff
        },
        124 => {
            assert(xterm_code(124) == 0xaf0000);
            0xaf0000
        },
        125 => {
            assert(xterm_code(125) == 0xaf005f);
            0xaf005f
        },
        126 => {
            assert(xterm_code(126) == 0xaf0087);
            0xaf0087
        },
        127 => {
            assert(xterm_code(127) == 0xaf00af);
            0xaf00af
        },
        128 => {
            assert(xterm_code(128) == 0xaf00d7);
            0xaf00d7
        },
        129 => {
            assert(xterm_code(129) == 0xaf00ff);
            0xaf00ff
        },
        130 => {
            assert(xterm_code(130) == 0xaf5f00);
            0xaf5f00
        },
        131 => {
            assert(xterm_code(131) == 0xaf5f5f);
            0xaf5f5f
        },
        132 => {
            assert(xterm_code(132) == 0xaf5f87);
            0xaf5f87
        },
        133 => {
            assert(xterm_code(133) == 0xaf5faf);
            0xaf5faf
        },
        134 => {
            assert(xterm_code(134) == 0xaf5fd7);
            0xaf5fd7
        },
        135 => {
            assert(xterm_code(135) == 0xaf5fff);
            0xaf5fff
        },
        136 => {
            assert(xterm_code(136) == 0xaf8700);
            0xaf8700
        },
        137 => {
            assert(xterm_code(137) == 0xaf875f);
            0xaf875f
        },
        138 => {
            assert(xterm_code(138) == 0xaf8787);
            0xaf8787
        },
        139 => {
            assert(xterm_code(139) == 0xaf87af);
            0xaf87af
        },
        140 => {
            assert(xterm_code(140) == 0xaf87d7);
            0xaf87d7
        },
        141 => {
            assert(xterm_code(141) == 0xaf87ff);
            0xaf87ff
        },
        142 => {
            assert(xterm_code(142) == 0xafaf00);
            0xafaf00
        },
        143 => {
            assert(xterm_code(143) == 0xafaf5f);
            0xafaf5f
        },
        144 => {
            assert(xterm_code(144) == 0xafaf87);
            0xafaf87
        },
        145 => {
            assert(xterm_code(145) == 0xafafaf);
            0xafafaf
        },
        146 => {
            assert(xterm_code(146) == 0xafafd7);
            0xafafd7
        },
        147 => {
            assert(xterm_code(147) == 0xafafff);
            0xafafff
        },
        148 => {
            assert(xterm_code(148) == 0xafd700);
            0xafd700
        },
        149 => {
            assert(xterm_code(149) == 0xafd75f);
            0xafd75f
        },
        150 => {
            assert(xterm_code(150) == 0xafd787);
            0xafd787
        },
        151 => {
            assert(xterm_code(151) == 0xafd7af);
            0xafd7af
        },
        152 => {
            assert(xterm_code(152) == 0xafd7d7);
            0xafd7d7
        },
        153 => {
            assert(xterm_code(153) == 0xafd7ff);
            0xafd7ff
        },
        154 => {
            assert(xterm_code(154) == 0xafff00);
            0xafff00
        },
        155 => {
            assert(xterm_code(155) == 0xafff5f);
            0xafff5f
        },
        156 => {
            assert(xterm_code(156) == 0xafff87);
            0xafff87
        },
        157 => {
            assert(xterm_code(157) == 0xafffaf);
            0xafffaf
        },
        158 => {
            assert(xterm_code(158) == 0xafffd7);
            0xafffd7
        },
        159 => {
            assert(xterm_code(159) == 0xafffff);
            0xafffff
        },
        160 => {
            assert(xterm_code(160) == 0xd70000);
            0xd70000
        },
        161 => {
            assert(xterm_code(161) == 0xd7005f);
            0xd7005f
        },
        162 => {
            assert(xterm_code(162) == 0xd70087);
            0xd70087
        },
        163 => {
            assert(xterm_code(163) == 0xd700af);
            0xd700af
        },
        164 => {
            assert(xterm_code(164) == 0xd700d7);
            0xd700d7
        },
        165 => {
            assert(xterm_code(165) == 0xd700ff);
            0xd700ff
        },
        166 => {
            assert(xterm_code(166) == 0xd75f00);
            0xd75f00
        },
        167 => {
            assert(xterm_code(167) == 0xd75f5f);
            0xd75f5f
        },
        168 => {
            assert(xterm_code(168) == 0xd75f87);
            0xd75f87
        },
        169 => {
            assert(xterm_code(169) == 0xd75faf);
            0xd75faf
        },
        170 => {
            assert(xterm_code(170) == 0xd75fd7);
            0xd75fd7
        },
        171 => {
            assert(xterm_code(171) == 0xd75fff);
            0xd75fff
        },
        172 => {
            assert(xterm_code(172) == 0xd78700);
            0xd78700
        },
        173 => {
            assert(xterm_code(173) == 0xd7875f);
            0xd7875f
        },
        174 => {
            assert(xterm_code(174) == 0xd78787);
            0xd78787
        },
        175 => {
            assert(xterm_code(175) == 0xd787af);
            0xd787af
        },
        176 => {
            assert(xterm_code(176) == 0xd787d7);
            0xd787d7
        },
        177 => {
            assert(xterm_code(177) == 0xd787ff);
            0xd787ff
        },
        178 => {
            assert(xterm_code(178) == 0xd7af00);
            0xd7af00
        },
        179 => {
            assert(xterm_code(179) == 0xd7af5f);
            0xd7af5f
        },
        180 => {
            assert(xterm_code(180) == 0xd7af87);
            0xd7af87
        },
        181 => {
            assert(xterm_code(181) == 0xd7afaf);
            0xd7afaf
        },
        182 => {
            assert(xterm_code(182) == 0xd7afd7);
            0xd7afd7
        },
        183 => {
            assert(xterm_code(183) == 0xd7afff);
            0xd7afff
        },
        184 => {
            assert(xterm_code(184) == 0xd7d700);
            0xd7d700
        },
        185 => {
            assert(xterm_code(185) == 0xd7d75f);
            0xd7d75f
        },
        186 => {
            assert(xterm_code(186) == 0xd7d787);
            0xd7d787
        },
        187 => {
            assert(xterm_code(187) == 0xd7d7af);
            0xd7d7af
        },
        188 => {
            assert(xterm_code(188) == 0xd7d7d7);
            0xd7d7d7
        },
        189 => {
            assert(xterm_code(189) == 0xd7d7ff);
            0xd7d7ff
        },
        190 => {
            assert(xterm_code(190) == 0xd7ff00);
            0xd7ff00
        },
        191 => {
            assert(xterm_code(191) == 0xd7ff5f);
            0xd7ff5f
        },
        192 => {
            assert(xterm_code(192) == 0xd7ff87);
            0xd7ff87
        },
        193 => {
            assert(xterm_code(193) == 0xd7ffaf);
            0xd7ffaf
        },
        194 => {
            assert(xterm_code(194) == 0xd7ffd7);
            0xd7ffd7
        },
        195 => {
            assert(xterm_code(195) == 0xd7ffff);
            0xd7ffff
        },
        196 => {
            assert(xterm_code(196) == 0xff0000);
            0xff0000
        },
        197 => {
            assert(xterm_code(197) == 0xff005f);
            0xff005f
        },
        198 => {
            assert(xterm_code(198) == 0xff0087);
            0xff0087
        },
        199 => {
            assert(xterm_code(199) == 0xff00af);
            0xff00af
        },
        200 => {
            assert(xterm_code(200) == 0xff00d7);
            0xff00d7
        },
        201 => {
            assert(xterm_code(201) == 0xff00ff);
            0xff00ff
        },
        202 => {
            assert(xterm_code(202) == 0xff5f00);
            0xff5f00
        },
        203 => {
            assert(xterm_code(203) == 0xff5f5f);
            0xff5f5f
        },
        204 => {
            assert(xterm_code(204) == 0xff5f87);
            0xff5f87
        },
        205 => {
            assert(xterm_code(205) == 0xff5faf);
            0xff5faf
        },
        206 => {
            assert(xterm_code(206) == 0xff5fd7);
            0xff5fd7
        },
        207 => {
            assert(xterm_code(207) == 0xff5fff);
            0xff5fff
        },
        208 => {
            assert(xterm_code(208) == 0xff8700);
            0xff8700
        },
        209 => {
            assert(xterm_code(209) == 0xff875f);
            0xff875f
        },
        210 => {
            assert(xterm_code(210) == 0xff8787);
            0xff8787
        },
        211 => {
            assert(xterm_code(211) == 0xff87af);
            0xff87af
        },
        212 => {
            assert(xterm_code(212) == 0xff87d7);
            0xff87d7
        },
        213 => {
            assert(xterm_code(213) == 0xff87ff);
            0xff87ff
        },
        214 => {
            assert(xterm_code(214) == 0xffaf00);
            0xffaf00
        },
        215 => {
            assert(xterm_code(215) == 0xffaf5f);
            0xffaf5f
        },
        216 => {
            assert(xterm_code(216) == 0xffaf87);
            0xffaf87
        },
        217 => {
            assert(xterm_code(217) == 0xffafaf);
            0xffafaf
        },
        218 => {
            assert(xterm_code(218) == 0xffafd7);
            0xffafd7
        },
        219 => {
            assert(xterm_code(219) == 0xffafff);
            0xffafff
        },
        220 => {
            assert(xterm_code(220) == 0xffd700);
            0xffd700
        },
        221 => {
            assert(xterm_code(221) == 0xffd75f);
            0xffd75f
        },
        222 => {
            assert(xterm_code(222) == 0xffd787);
            0xffd787
        },
        223 => {
            assert(xterm_code(223) == 0xffd7af);
            0xffd7af
        },
        224 => {
            assert(xterm_code(224) == 0xffd7d7);
            0xffd7d7
        },
        225 => {
            assert(xterm_code(225) == 0xffd7ff);
            0xffd7ff
        },
        226 => {
            assert(xterm_code(226) == 0xffff00);
            0xffff00
        },
        227 => {
            assert(xterm_code(227) == 0xffff5f);
            0xffff5f
        },
        228 => {
            assert(xterm_code(228) == 0xffff87);
            0xffff87
        },
        229 => {
            assert(xterm_code(229) == 0xffffaf);
            0xffffaf
        },
        230 => {
            assert(xterm_code(230) == 0xffffd7);
            0xffffd7
        },
        _ => 0xffffff,
    }
}

/// Palette entries 232 to 255.
fn grey_hex(id: usize) -> (code: u32)
    requires
        232 <= id < 256,
    ensures
        code as int == xterm_code(id as int),
{
    match id {
        232 => {
            assert(xterm_code(232) == 0x080808);
            0x080808
        },
        233 => {
            assert(xterm_code(233) == 0x121212);
            0x121212
        },
        234 => {
            assert(xterm_code(234) == 0x1c1c1c);
            0x1c1c1c
        },
        235 => {
            assert(xterm_code(235) == 0x262626);
            0x262626
        },
        236 => {
            assert(xterm_code(236) == 0x303030);
            0x303030
        },
        237 => {
            assert(xterm_code(237) == 0x3a3a3a);
            0x3a3a3a
        },
        238 => {
            assert(xterm_code(238) == 0x444444);
            0x444444
        },
        239 => {
            assert(xterm_code(239) == 0x4e4e4e);
            0x4e4e4e
        },
        240 => {
            assert(xterm_code(240) == 0x585858);
            0x585858
        },
        241 => {
            assert(xterm_code(241) == 0x606060);
            0x606060
        },
        242 => {
            assert(xterm_code(242) == 0x666666);
            0x666666
        },
        243 => {
            assert(xterm_code(243) == 0x767676);
            0x767676
        },
        244 => {
            assert(xterm_code(244) == 0x808080);
            0x808080
        },
        245 => {
            assert(xterm_code(245) == 0x8a8a8a);
            0x8a8a8a
        },
        246 => {
            assert(xterm_code(246) == 0x949494);
            0x949494
        },
        247 => {
            assert(xterm_code(247) == 0x9e9e9e);
            0x9e9e9e
        },
        248 => {
            assert(xterm_code(248) == 0xa8a8a8);
            0xa8a8a8
        },
        249 => {
            assert(xterm_code(249) == 0xb2b2b2);
            0xb2b2b2
        },
        250 => {
            assert(xterm_code(250) == 0xbcbcbc);
            0xbcbcbc
        },
        251 => {
            assert(xterm_code(251) == 0xc6c6c6);
            0xc6c6c6
        },
        252 => {
            assert(xterm_code(252) == 0xd0d0d0);
            0xd0d0d0
        },
        253 => {
            assert(xterm_code(253) == 0xdadada);
            0xdadada
        },
        254 => {
            assert(xterm_code(254) == 0xe4e4e4);
            0xe4e4e4
        },
        _ => 0xeeeeee,
    }
}

/// The stored palette table: entry `id` as `0xRRGGBB`.
pub fn xterm_hex(id: usize) -> (code: u32)
    requires
        id < 256,
    ensures
        code as int == xterm_code(id as int),
        code < 0x1000000,
{
    if id < 16 {
        system_hex(id)
    } else if id < 232 {
        cube_hex(id)
    } else {
        grey_hex(id)
    }
}

/// Decodes palette entry `xterm_id` into its red, green and blue bytes.
pub fn color_from_xterm(xterm_id: usize) -> (c: Rgb)
    requires
        xterm_id < 256,
    ensures
        c == xterm_rgb(xterm_id as int),
{
    let code = xterm_hex(xterm_id);
    Rgb { r: (code / 0x10000) as u8, g: ((code / 0x100) % 0x100) as u8, b: (code % 0x100) as u8 }
}

/// The palette entry that colours lexical category `category`, if any.
pub fn category_palette_index(category: usize) -> (r: Option<usize>)
    ensures
        match r {
            Some(p) => category_palette(category as int) == Some(p as int) && p < 256,
            None => category_palette(category as int) is None,
        },
{
    match category {
        0 => Some(124),
        1 => Some(245),
        2 => Some(94),
        3 => Some(94),
        4 => Some(136),
        6 => Some(26),
        7 => Some(26),
        8 => Some(56),
        9 => Some(94),
        10 => Some(136),
        11 => Some(124),
        12 => Some(239),
        13 => Some(239),
        14 => Some(239),
        15 => Some(30),
        16 => Some(28),
        17 => Some(18),
        18 => Some(23),
        19 => Some(23),
        20 => Some(23),
        21 => Some(23),
        _ => None,
    }
}

/// The colour of lexical category `category`; `None` reports a category
/// without an entry, and the caller keeps the colour it had.
pub fn resolve(category: usize) -> (c: Option<Rgb>)
    ensures
        c == category_color(category as int),
{
    match category_palette_index(category) {
        Some(p) => Some(color_from_xterm(p)),
        None => None,
    }
}

} // verus!
