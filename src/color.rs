//! Color references and the RGB triples they resolve to.
//!
//! A channel is held in eighths of a level, so that every channel value the
//! palettes produce (whole levels, and the grayscale ramp's steps of 255/24 =
//! 85/8 levels) is exact.

use vstd::prelude::*;

verus! {

/// Eighths in one channel level.
pub const SUB: u32 = 8;

/// Largest channel value, in eighths: level 255.
pub const CHANNEL_MAX: u32 = 2040;

/// An RGB triple; each channel in eighths of a level, 0 to 255 levels.
#[derive(Clone, Copy, Debug, PartialEq, Eq, Structural)]
pub struct Rgb {
    pub r: u32,
    pub g: u32,
    pub b: u32,
}

impl Rgb {
    /// The three channels stay within 0 to 255 levels.
    pub open spec fn wf(self) -> bool {
        self.r <= CHANNEL_MAX && self.g <= CHANNEL_MAX && self.b <= CHANNEL_MAX
    }

    /// The triple of whole levels `r`, `g`, `b`.
    pub fn from_levels(r: u8, g: u8, b: u8) -> (c: Rgb)
        ensures
            c.wf(),
            c == rgb_levels((r as int, g as int, b as int)),
    {
        Rgb { r: r as u32 * SUB, g: g as u32 * SUB, b: b as u32 * SUB }
    }
}

/// The terminal's assumed default foreground, in levels.
pub open spec fn default_fg_levels() -> (int, int, int) {
    (0xca, 0xd3, 0xf5)
}

/// The terminal's assumed default background, in levels.
pub open spec fn default_bg_levels() -> (int, int, int) {
    (0x24, 0x27, 0x3a)
}

/// The sixteen basic (0 to 7) and bright (8 to 15) colors, in levels.
pub open spec fn palette16(i: int) -> (int, int, int) {
    if i == 0 {
        (0x49, 0x4d, 0x64)
    } else if i == 1 || i == 9 {
        (0xed, 0x87, 0x96)
    } else if i == 2 || i == 10 {
        (0xa6, 0xda, 0x95)
    } else if i == 3 || i == 11 {
        (0xee, 0xd4, 0x9f)
    } else if i == 4 || i == 12 {
        (0x8a, 0xad, 0xf4)
    } else if i == 5 || i == 13 {
        (0xf5, 0xbd, 0xe6)
    } else if i == 6 || i == 14 {
        (0x8b, 0xd5, 0xca)
    } else if i == 7 {
        (0xa5, 0xad, 0xcb)
    } else if i == 8 {
        (0x5b, 0x60, 0x78)
    } else {
        (0xb8, 0xc0, 0xe0)
    }
}

/// The triple of whole levels `l`, in eighths.
pub open spec fn rgb_levels(l: (int, int, int)) -> Rgb {
    Rgb { r: (l.0 * 8) as u32, g: (l.1 * 8) as u32, b: (l.2 * 8) as u32 }
}

/// What a 256-color palette index stands for.
pub open spec fn palette256(i: int) -> Rgb {
    if i < 16 {
        rgb_levels(palette16(i))
    } else if i < 232 {
        let k = i - 16;
        Rgb { r: (k / 36 * 408) as u32, g: (k / 6 % 6 * 408) as u32, b: (k % 6 * 408) as u32 }
    } else {
        let gray = ((i - 232) * 85) as u32;
        Rgb { r: gray, g: gray, b: gray }
    }
}

fn levels(r: u8, g: u8, b: u8) -> (c: Rgb)
    ensures
        c.wf(),
        c == rgb_levels((r as int, g as int, b as int)),
{
    Rgb::from_levels(r, g, b)
}

/// The assumed default foreground.
pub fn default_fg() -> (c: Rgb)
    ensures
        c.wf(),
        c == rgb_levels(default_fg_levels()),
{
    levels(0xca, 0xd3, 0xf5)
}

/// The assumed default background.
pub fn default_bg() -> (c: Rgb)
    ensures
        c.wf(),
        c == rgb_levels(default_bg_levels()),
{
    levels(0x24, 0x27, 0x3a)
}

/// Resolves a basic color code (its last decimal digit, 0 to 7, picks the
/// color) in normal or bright intensity.
pub fn get_8c(color: u8, bright: bool) -> (c: Rgb)
    requires
        color % 10 < 8,
    ensures
        c.wf(),
        c == rgb_levels(palette16(color % 10 + if bright { 8int } else { 0int })),
{
    let i: u8 = color % 10 + if bright { 8u8 } else { 0u8 };
    match i {
        0 => levels(0x49, 0x4d, 0x64),
        1 | 9 => levels(0xed, 0x87, 0x96),
        2 | 10 => levels(0xa6, 0xda, 0x95),
        3 | 11 => levels(0xee, 0xd4, 0x9f),
        4 | 12 => levels(0x8a, 0xad, 0xf4),
        5 | 13 => levels(0xf5, 0xbd, 0xe6),
        6 | 14 => levels(0x8b, 0xd5, 0xca),
        7 => levels(0xa5, 0xad, 0xcb),
        8 => levels(0x5b, 0x60, 0x78),
        _ => levels(0xb8, 0xc0, 0xe0),
    }
}

/// Resolves a 256-color palette index: 0 to 15 through the sixteen colors,
/// 16 to 231 on the 6x6x6 cube (a digit d gives d * 255 / 5 levels), 232 to
/// 255 on the 24-step grayscale ramp ((index - 232) * 255 / 24 levels).
pub fn get_256c(color: u8) -> (c: Rgb)
    ensures
        c.wf(),
        c == palette256(color as int),
{
    if color < 8 {
        get_8c(color, false)
    } else if color < 16 {
        assert(color & 7 == color - 8) by (bit_vector)
            requires
                8 <= color < 16,
        ;
        get_8c(color & 7, true)
    } else if color < 232 {
        let k: u32 = (color - 16) as u32;
        Rgb { r: k / 36 * 408, g: k / 6 % 6 * 408, b: k % 6 * 408 }
    } else {
        let gray: u32 = (color - 232) as u32 * 85;
        Rgb { r: gray, g: gray, b: gray }
    }
}

} // verus!
