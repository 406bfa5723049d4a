//! What holds of the filter as a whole, proved from the definitions the
//! executable functions are verified against.

use vstd::prelude::*;
use crate::color::{Rgb, rgb_levels, palette16, palette256};
use crate::emit::trailer;
use crate::profile::{Kind, Matrix, identity, luma, channel, colored, dot};
use crate::rewrite::{DefaultReset, rewrite, is_basic_fg, is_basic_bg, basic_color, default_fg_tokens, default_bg_tokens};
use crate::scanner::scan;
use crate::sgr::ESC;
use vstd::arithmetic::div_mod::lemma_fundamental_div_mod_converse;

verus! {

/// Under the identity profile a color comes out as it went in, truncated to
/// whole levels.
pub proof fn lemma_identity_keeps_color(c: Rgb)
    requires
        c.wf(),
    ensures
        channel(identity().red, c) == c.r / 8,
        channel(identity().green, c) == c.g / 8,
        channel(identity().blue, c) == c.b / 8,
{
    lemma_unit_weight(c.r as int);
    lemma_unit_weight(c.g as int);
    lemma_unit_weight(c.b as int);
}

proof fn lemma_unit_weight(x: int)
    requires
        x >= 0,
    ensures
        (1_000_000 * x) / 8_000_000 == x / 8,
{
    let q = x / 8;
    let r = x % 8;
    assert(1_000_000 * x == q * 8_000_000 + 1_000_000 * r) by (nonlinear_arith)
        requires
            x == 8 * q + r,
    ;
    lemma_fundamental_div_mod_converse(1_000_000 * x, 8_000_000, q, 1_000_000 * r);
}

/// Under the identity profile, a color given in whole levels selects exactly
/// those levels.
pub proof fn lemma_identity_colored(fg: bool, r: u8, g: u8, b: u8)
    ensures
        colored(fg, identity(), rgb_levels((r as int, g as int, b as int)))
            == seq![if fg { 38u8 } else { 48u8 }, 2u8, r, g, b],
{
    let c = rgb_levels((r as int, g as int, b as int));
    lemma_identity_keeps_color(c);
    assert(colored(fg, identity(), c) =~= seq![if fg { 38u8 } else { 48u8 }, 2u8, r, g, b]);
}

/// Under the identity profile a basic or bright color code becomes the
/// 24-bit selection of its palette color, unchanged.
pub proof fn lemma_identity_basic_code(reset: DefaultReset, c: u8, rest: Seq<u8>)
    requires
        is_basic_fg(c) || is_basic_bg(c),
    ensures
        ({
            let l = palette16(c % 10 + if c >= 90 { 8int } else { 0int });
            rewrite(identity(), reset, seq![c] + rest)
                == seq![if is_basic_fg(c) { 38u8 } else { 48u8 }, 2u8, l.0 as u8, l.1 as u8, l.2 as u8]
                + rewrite(identity(), reset, rest)
        }),
{
    let t = seq![c] + rest;
    assert(t.subrange(1, t.len() as int) =~= rest);
    let l = palette16(c % 10 + if c >= 90 { 8int } else { 0int });
    assert(0 <= l.0 <= 255 && 0 <= l.1 <= 255 && 0 <= l.2 <= 255);
    lemma_identity_colored(is_basic_fg(c), l.0 as u8, l.1 as u8, l.2 as u8);
    assert(basic_color(c) == rgb_levels((l.0 as u8 as int, l.1 as u8 as int, l.2 as u8 as int)));
}

/// Under the identity profile a direct RGB selection is written back as it
/// came in.
pub proof fn lemma_identity_direct_rgb(reset: DefaultReset, code: u8, r: u8, g: u8, b: u8, rest: Seq<u8>)
    requires
        code == 38 || code == 48,
    ensures
        rewrite(identity(), reset, seq![code, 2u8, r, g, b] + rest)
            == seq![code, 2u8, r, g, b] + rewrite(identity(), reset, rest),
{
    let t = seq![code, 2u8, r, g, b] + rest;
    assert(t.subrange(5, t.len() as int) =~= rest);
    lemma_identity_colored(code == 38, r, g, b);
}

/// Under the monochrome profile all three output channels are equal, each
/// the luma weighting of the input truncated to whole levels.
pub proof fn lemma_monochrome_gray(c: Rgb)
    requires
        c.wf(),
    ensures
        ({
            let m = Kind::ColorBlind.matrix();
            &&& channel(m.red, c) == channel(m.green, c)
            &&& channel(m.green, c) == channel(m.blue, c)
            &&& channel(m.red, c) == (299_000 * c.r + 587_000 * c.g + 114_000 * c.b) / 8_000_000
        }),
{
    assert(dot(luma(), c) <= 255 * 8_000_000) by (nonlinear_arith)
        requires
            c.r <= 2040,
            c.g <= 2040,
            c.b <= 2040,
            dot(luma(), c) == 299_000 * c.r + 587_000 * c.g + 114_000 * c.b,
    ;
}

/// A full reset (token 0) becomes 0 followed by the default foreground and
/// default background selections.
pub proof fn lemma_reset_expands(m: Matrix, reset: DefaultReset, rest: Seq<u8>)
    ensures
        rewrite(m, reset, seq![0u8] + rest)
            == seq![0u8] + default_fg_tokens(m) + default_bg_tokens(m) + rewrite(m, reset, rest),
{
    let t = seq![0u8] + rest;
    assert(t.subrange(1, t.len() as int) =~= rest);
}

/// A direct RGB selection with fewer than three channels left is written as
/// its code and selector alone.
pub proof fn lemma_truncated_rgb(m: Matrix, reset: DefaultReset, code: u8, rest: Seq<u8>)
    requires
        code == 38 || code == 48,
        rest.len() < 3,
    ensures
        rewrite(m, reset, seq![code, 2u8] + rest) == seq![code, 2u8],
{
}

/// From the idle state, bytes that hold no escape introducer go out
/// unchanged and in order.
pub proof fn lemma_literal_bytes_pass(m: Matrix, reset: DefaultReset, prefix: Seq<u8>, o: Seq<u8>, lit: Seq<u8>)
    requires
        scan(m, reset, prefix) == Some((false, Seq::<u8>::empty(), o)),
        forall|i: int| 0 <= i < lit.len() ==> lit[i] != ESC,
    ensures
        scan(m, reset, prefix + lit) == Some((false, Seq::<u8>::empty(), o + lit)),
    decreases lit.len(),
{
    if lit.len() == 0 {
        assert(prefix + lit =~= prefix);
        assert(o + lit =~= o);
    } else {
        let init = lit.drop_last();
        lemma_literal_bytes_pass(m, reset, prefix, o, init);
        assert((prefix + lit).drop_last() =~= prefix + init);
        assert((prefix + lit).last() == lit.last());
        assert(o + init + seq![lit.last()] =~= o + lit);
    }
}

/// The trailer is `ESC [ 0 m ESC [ K`.
pub proof fn lemma_trailer_bytes()
    ensures
        trailer() == seq![0x1bu8, 0x5bu8, 0x30u8, 0x6du8, 0x1bu8, 0x5bu8, 0x4bu8],
{
    assert(trailer() =~= seq![0x1bu8, 0x5bu8, 0x30u8, 0x6du8, 0x1bu8, 0x5bu8, 0x4bu8]);
}

/// The grayscale ramp starts at level 0 and ends at 23 * 255 / 24 levels,
/// (1955 eighths), which the identity profile writes as 244.
pub proof fn lemma_gray_ramp_ends()
    ensures
        palette256(232) == (Rgb { r: 0, g: 0, b: 0 }),
        palette256(255) == (Rgb { r: 1955, g: 1955, b: 1955 }),
        channel(identity().red, palette256(255)) == 244,
{
    lemma_unit_weight(1955);
}

} // verus!
