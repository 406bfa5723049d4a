//! The bytes that carry a graphic-rendition token list, and the fixed
//! sequences the filter writes on its own.

use vstd::prelude::*;
use crate::sgr::{ESC, BRACKET, SEMI, DIGIT_0};

verus! {

/// `m`, the graphic-rendition kind byte.
pub const LETTER_M: u8 = 0x6d;

/// `K`, the clear-to-end-of-line kind byte.
pub const LETTER_K: u8 = 0x4b;

/// A token in decimal, without leading zeros.
pub open spec fn decimal(v: u8) -> Seq<u8> {
    if v >= 100 {
        seq![(DIGIT_0 + v / 100) as u8, (DIGIT_0 + v / 10 % 10) as u8, (DIGIT_0 + v % 10) as u8]
    } else if v >= 10 {
        seq![(DIGIT_0 + v / 10) as u8, (DIGIT_0 + v % 10) as u8]
    } else {
        seq![(DIGIT_0 + v) as u8]
    }
}

/// The tokens in decimal, joined by `;`.
pub open spec fn joined(t: Seq<u8>) -> Seq<u8>
    decreases t.len(),
{
    if t.len() == 0 {
        seq![]
    } else if t.len() == 1 {
        decimal(t[0])
    } else {
        joined(t.drop_last()) + seq![SEMI] + decimal(t.last())
    }
}

/// The graphic-rendition sequence `ESC [ t0;t1;... m`.
pub open spec fn sgr_bytes(t: Seq<u8>) -> Seq<u8> {
    seq![ESC, BRACKET] + joined(t) + seq![LETTER_M]
}

/// `ESC [ K`: clear to the end of the line.
pub open spec fn clear_line() -> Seq<u8> {
    seq![ESC, BRACKET, LETTER_K]
}

/// What ends every output: a full reset, then a clear to the end of the line.
pub open spec fn trailer() -> Seq<u8> {
    sgr_bytes(seq![0u8]) + clear_line()
}

/// Appends a token in decimal.
pub fn push_decimal(v: u8, out: &mut Vec<u8>)
    ensures
        final(out)@ == old(out)@ + decimal(v),
{
    if v >= 100 {
        out.push(DIGIT_0 + v / 100);
        out.push(DIGIT_0 + v / 10 % 10);
    } else if v >= 10 {
        out.push(DIGIT_0 + v / 10);
    }
    out.push(DIGIT_0 + v % 10);
    assert(out@ =~= old(out)@ + decimal(v));
}

/// Appends the graphic-rendition sequence that carries the tokens `t`.
pub fn push_sgr(t: &Vec<u8>, out: &mut Vec<u8>)
    ensures
        final(out)@ == old(out)@ + sgr_bytes(t@),
{
    out.push(ESC);
    out.push(BRACKET);
    let ghost head = out@;
    let mut i: usize = 0;
    while i < t.len()
        invariant
            i <= t.len(),
            head == old(out)@ + seq![ESC, BRACKET],
            out@ == head + joined(t@.subrange(0, i as int)),
        decreases t.len() - i,
    {
        assert(t@.subrange(0, i + 1).drop_last() =~= t@.subrange(0, i as int));
        if i > 0 {
            out.push(SEMI);
        }
        push_decimal(t[i], out);
        i += 1;
        assert(out@ =~= head + joined(t@.subrange(0, i as int)));
    }
    assert(t@.subrange(0, i as int) =~= t@);
    out.push(LETTER_M);
    assert(out@ =~= old(out)@ + sgr_bytes(t@));
}

/// Appends `ESC [ K`.
pub fn push_clear_line(out: &mut Vec<u8>)
    ensures
        final(out)@ == old(out)@ + clear_line(),
{
    out.push(ESC);
    out.push(BRACKET);
    out.push(LETTER_K);
    assert(out@ =~= old(out)@ + clear_line());
}

/// Appends the trailer that leaves the terminal in its default state.
pub fn push_trailer(out: &mut Vec<u8>)
    ensures
        final(out)@ == old(out)@ + trailer(),
{
    let reset: Vec<u8> = vec![0u8];
    assert(reset@ =~= seq![0u8]);
    push_sgr(&reset, out);
    push_clear_line(out);
    assert(out@ =~= old(out)@ + trailer());
}

} // verus!
