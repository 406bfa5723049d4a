//! Simulation profiles and the linear color transform.
//!
//! A profile is a 3x3 matrix whose coefficients are held in millionths. An
//! output channel is the dot product of one matrix row with the input triple,
//! computed exactly, truncated towards zero to a whole level, and clamped to
//! 255 when a row sums to more than one.

use vstd::prelude::*;
use crate::color::{Rgb, CHANNEL_MAX};

verus! {

/// Millionths in one unit of a coefficient.
pub const UNIT: u64 = 1_000_000;

/// Largest coefficient a matrix may hold, in millionths: 100.
pub const COEF_MAX: u64 = 100_000_000;

/// One row of a profile: the weights of the red, green and blue inputs.
#[derive(Clone, Copy, Debug, PartialEq, Eq, Structural)]
pub struct Row {
    pub r: u64,
    pub g: u64,
    pub b: u64,
}

/// A profile's matrix; each row gives one output channel.
#[derive(Clone, Copy, Debug, PartialEq, Eq, Structural)]
pub struct Matrix {
    pub red: Row,
    pub green: Row,
    pub blue: Row,
}

impl Row {
    pub open spec fn wf(self) -> bool {
        self.r <= COEF_MAX && self.g <= COEF_MAX && self.b <= COEF_MAX
    }
}

impl Matrix {
    pub open spec fn wf(self) -> bool {
        self.red.wf() && self.green.wf() && self.blue.wf()
    }
}

/// The matrix with the nine coefficients given row by row.
pub open spec fn mat(
    a: u64, b: u64, c: u64, d: u64, e: u64, f: u64, g: u64, h: u64, i: u64,
) -> Matrix {
    Matrix { red: Row { r: a, g: b, b: c }, green: Row { r: d, g: e, b: f }, blue: Row { r: g, g: h, b: i } }
}

fn make(a: u64, b: u64, c: u64, d: u64, e: u64, f: u64, g: u64, h: u64, i: u64) -> (m: Matrix)
    ensures
        m == mat(a, b, c, d, e, f, g, h, i),
{
    Matrix { red: Row { r: a, g: b, b: c }, green: Row { r: d, g: e, b: f }, blue: Row { r: g, g: h, b: i } }
}

/// The simulation profiles.
#[derive(Clone, Copy, Debug, PartialEq, Eq, Structural)]
pub enum Kind {
    /// Trichromatic
    Normal,
    /// Protanopia
    RedBlind,
    /// Protanomaly
    RedWeak,
    /// Deuteranopia
    GreenBlind,
    /// Deuteranomaly
    GreenWeak,
    /// Tritanopia
    BlueBlind,
    /// Tritanomaly
    BlueWeak,
    /// Achromatopsia
    ColorBlind,
    /// Achromatomaly
    ColorWeak,
}

/// The identity matrix.
pub open spec fn identity() -> Matrix {
    mat(1_000_000, 0, 0, 0, 1_000_000, 0, 0, 0, 1_000_000)
}

/// The luma weights of the monochrome profile, in every row.
pub open spec fn luma() -> Row {
    Row { r: 299_000, g: 587_000, b: 114_000 }
}

impl Kind {
    /// The matrix of each profile, after the colormatrix tables of colorjack.com.
    pub open spec fn matrix(self) -> Matrix {
        match self {
            Kind::Normal => identity(),
            Kind::RedBlind => mat(566_670, 433_330, 0, 558_330, 441_670, 0, 0, 241_670, 758_330),
            Kind::RedWeak => mat(816_670, 183_330, 0, 333_330, 666_670, 0, 0, 125_000, 875_000),
            Kind::GreenBlind => mat(625_000, 375_000, 0, 700_000, 300_000, 0, 0, 300_000, 700_000),
            Kind::GreenWeak => mat(800_000, 200_000, 0, 258_330, 471_670, 0, 0, 141_670, 85_833_000),
            Kind::BlueBlind => mat(950_000, 500_000, 0, 0, 433_333, 566_670, 0, 475_000, 525_000),
            Kind::BlueWeak => mat(966_670, 33_330, 0, 0, 733_330, 266_670, 0, 183_330, 816_670),
            Kind::ColorBlind => Matrix { red: luma(), green: luma(), blue: luma() },
            Kind::ColorWeak => mat(618_000, 320_000, 62_000, 163_000, 775_000, 62_000, 163_000, 320_000, 516_000),
        }
    }

    /// The profile's matrix, in millionths.
    pub fn get_matrix(&self) -> (m: Matrix)
        ensures
            m == self.matrix(),
            m.wf(),
    {
        match self {
            Kind::Normal => make(1_000_000, 0, 0, 0, 1_000_000, 0, 0, 0, 1_000_000),
            Kind::RedBlind => make(566_670, 433_330, 0, 558_330, 441_670, 0, 0, 241_670, 758_330),
            Kind::RedWeak => make(816_670, 183_330, 0, 333_330, 666_670, 0, 0, 125_000, 875_000),
            Kind::GreenBlind => make(625_000, 375_000, 0, 700_000, 300_000, 0, 0, 300_000, 700_000),
            Kind::GreenWeak => make(800_000, 200_000, 0, 258_330, 471_670, 0, 0, 141_670, 85_833_000),
            Kind::BlueBlind => make(950_000, 500_000, 0, 0, 433_333, 566_670, 0, 475_000, 525_000),
            Kind::BlueWeak => make(966_670, 33_330, 0, 0, 733_330, 266_670, 0, 183_330, 816_670),
            Kind::ColorBlind => make(299_000, 587_000, 114_000, 299_000, 587_000, 114_000, 299_000, 587_000, 114_000),
            Kind::ColorWeak => make(618_000, 320_000, 62_000, 163_000, 775_000, 62_000, 163_000, 320_000, 516_000),
        }
    }
}

/// The exact dot product of a row with a triple, in millionths of an eighth.
pub open spec fn dot(row: Row, c: Rgb) -> int {
    row.r * c.r + row.g * c.g + row.b * c.b
}

/// One output channel: the dot product truncated to whole levels, at most 255.
pub open spec fn channel(row: Row, c: Rgb) -> int {
    let v = dot(row, c) / (UNIT * 8) as int;
    if v > 255 { 255 } else { v }
}

/// The tokens `38;2;R;G;B` (foreground) or `48;2;R;G;B` (background) for the
/// triple as transformed by the matrix.
pub open spec fn colored(fg: bool, m: Matrix, c: Rgb) -> Seq<u8> {
    seq![
        if fg { 38u8 } else { 48u8 },
        2u8,
        channel(m.red, c) as u8,
        channel(m.green, c) as u8,
        channel(m.blue, c) as u8,
    ]
}

proof fn lemma_term_bound(k: u64, v: u32)
    requires
        k <= COEF_MAX,
        v <= CHANNEL_MAX,
    ensures
        k * v <= 204_000_000_000,
{
    assert(k * v <= 100_000_000 * 2040) by (nonlinear_arith)
        requires
            k <= 100_000_000,
            v <= 2040,
    ;
}

/// Transforms one channel.
pub fn transform_channel(row: &Row, c: &Rgb) -> (v: u8)
    requires
        row.wf(),
        c.wf(),
    ensures
        v == channel(*row, *c),
{
    proof {
        lemma_term_bound(row.r, c.r);
        lemma_term_bound(row.g, c.g);
        lemma_term_bound(row.b, c.b);
    }
    let sum: u64 = row.r * c.r as u64 + row.g * c.g as u64 + row.b * c.b as u64;
    let v: u64 = sum / (UNIT * 8);
    if v > 255 {
        255
    } else {
        v as u8
    }
}

/// Appends to `new` the tokens that select the transformed color, as
/// foreground (`38;2;R;G;B`) or background (`48;2;R;G;B`).
pub fn filter(fg: bool, color: Rgb, recolor: &Matrix, new: &mut Vec<u8>)
    requires
        color.wf(),
        recolor.wf(),
    ensures
        final(new)@ == old(new)@ + colored(fg, *recolor, color),
{
    new.push(if fg { 38 } else { 48 });
    new.push(2);
    new.push(transform_channel(&recolor.red, &color));
    new.push(transform_channel(&recolor.green, &color));
    new.push(transform_channel(&recolor.blue, &color));
    assert(new@ =~= old(new)@ + colored(fg, *recolor, color));
}

} // verus!
