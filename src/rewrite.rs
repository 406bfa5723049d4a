//! The token rewrite: each color-setting token group becomes a 24-bit color
//! selection of the transformed color; every other token stays as it is.

use vstd::prelude::*;
use crate::color::{Rgb, rgb_levels, palette16, palette256, default_fg_levels, default_bg_levels, get_8c, get_256c, default_fg, default_bg};
use crate::profile::{Kind, Matrix, colored, filter};

verus! {

/// What codes 39 (default foreground) and 49 (default background) become.
#[derive(Clone, Copy, Debug, PartialEq, Eq, Structural)]
pub enum DefaultReset {
    /// They expand to the transformed default colors, as code 0 does.
    Expand,
    /// They pass through as bare tokens.
    PassThrough,
}

/// The color of a basic (30 to 37, 40 to 47) or bright (90 to 97, 100 to 107)
/// color code.
pub open spec fn basic_color(c: u8) -> Rgb {
    rgb_levels(palette16(c % 10 + if c >= 90 { 8int } else { 0int }))
}

pub open spec fn is_basic_fg(c: u8) -> bool {
    30 <= c <= 37 || 90 <= c <= 97
}

pub open spec fn is_basic_bg(c: u8) -> bool {
    40 <= c <= 47 || 100 <= c <= 107
}

/// The tokens that select the transformed default foreground.
pub open spec fn default_fg_tokens(m: Matrix) -> Seq<u8> {
    colored(true, m, rgb_levels(default_fg_levels()))
}

/// The tokens that select the transformed default background.
pub open spec fn default_bg_tokens(m: Matrix) -> Seq<u8> {
    colored(false, m, rgb_levels(default_bg_levels()))
}

/// The rewritten form of a token list, consumed from the front.
pub open spec fn rewrite(m: Matrix, reset: DefaultReset, t: Seq<u8>) -> Seq<u8>
    decreases t.len(),
{
    if t.len() == 0 {
        seq![]
    } else {
        let c = t[0];
        let n = t.len() as int;
        if is_basic_fg(c) {
            colored(true, m, basic_color(c)) + rewrite(m, reset, t.subrange(1, n))
        } else if is_basic_bg(c) {
            colored(false, m, basic_color(c)) + rewrite(m, reset, t.subrange(1, n))
        } else if c == 0 {
            seq![0u8] + default_fg_tokens(m) + default_bg_tokens(m) + rewrite(m, reset, t.subrange(1, n))
        } else if c == 39 && reset == DefaultReset::Expand {
            default_fg_tokens(m) + rewrite(m, reset, t.subrange(1, n))
        } else if c == 49 && reset == DefaultReset::Expand {
            default_bg_tokens(m) + rewrite(m, reset, t.subrange(1, n))
        } else if c == 38 || c == 48 {
            if n == 1 {
                seq![c]
            } else if t[1] == 2 {
                if n >= 5 {
                    colored(c == 38, m, rgb_levels((t[2] as int, t[3] as int, t[4] as int)))
                        + rewrite(m, reset, t.subrange(5, n))
                } else {
                    seq![c, 2u8]
                }
            } else if t[1] == 5 {
                if n >= 3 {
                    colored(c == 38, m, palette256(t[2] as int)) + rewrite(m, reset, t.subrange(3, n))
                } else {
                    seq![c, 2u8]
                }
            } else {
                seq![c, t[1]] + rewrite(m, reset, t.subrange(2, n))
            }
        } else {
            seq![c] + rewrite(m, reset, t.subrange(1, n))
        }
    }
}

/// Appends all of `src` to `out`.
pub fn push_all(out: &mut Vec<u8>, src: &Vec<u8>)
    ensures
        final(out)@ == old(out)@ + src@,
{
    let mut i: usize = 0;
    while i < src.len()
        invariant
            i <= src.len(),
            out@ == old(out)@ + src@.subrange(0, i as int),
        decreases src.len() - i,
    {
        out.push(src[i]);
        i += 1;
        assert(out@ =~= old(out)@ + src@.subrange(0, i as int));
    }
    assert(src@.subrange(0, i as int) =~= src@);
}

/// A profile's matrix, the choice for codes 39 and 49, and the default-color
/// tokens computed once from the matrix.
pub struct Rewriter {
    pub matrix: Matrix,
    pub reset: DefaultReset,
    pub default_fg: Vec<u8>,
    pub default_bg: Vec<u8>,
}

impl Rewriter {
    pub open spec fn wf(&self) -> bool {
        &&& self.matrix.wf()
        &&& self.default_fg@ == default_fg_tokens(self.matrix)
        &&& self.default_bg@ == default_bg_tokens(self.matrix)
    }

    /// The rewriter for a profile.
    pub fn new(kind: Kind, reset: DefaultReset) -> (r: Rewriter)
        ensures
            r.wf(),
            r.matrix == kind.matrix(),
            r.reset == reset,
    {
        let matrix = kind.get_matrix();
        let mut fg: Vec<u8> = Vec::new();
        let mut bg: Vec<u8> = Vec::new();
        filter(true, default_fg(), &matrix, &mut fg);
        filter(false, default_bg(), &matrix, &mut bg);
        assert(fg@ =~= default_fg_tokens(matrix));
        assert(bg@ =~= default_bg_tokens(matrix));
        Rewriter { matrix, reset, default_fg: fg, default_bg: bg }
    }

    /// Appends the rewritten form of the extended color group (38 or 48,
    /// then a selector and its arguments) that starts at `t[i]`; returns the
    /// index after the tokens consumed.
    fn rewrite_extended(&self, t: &Vec<u8>, i: usize, out: &mut Vec<u8>) -> (j: usize)
        requires
            self.wf(),
            i < t.len(),
            t@[i as int] == 38 || t@[i as int] == 48,
        ensures
            i < j <= t.len(),
            final(out)@ + rewrite(self.matrix, self.reset, t@.subrange(j as int, t.len() as int))
                == old(out)@ + rewrite(self.matrix, self.reset, t@.subrange(i as int, t.len() as int)),
    {
        let n = t.len();
        let ghost s = t@.subrange(i as int, n as int);
        let ghost m = self.matrix;
        let ghost reset = self.reset;
        let c = t[i];
        assert(s[0] == c);
        let j: usize;
        if n - i == 1 {
            out.push(c);
            j = n;
        } else if t[i + 1] == 2 {
            if n - i > 4 {
                assert(s.subrange(5, s.len() as int) =~= t@.subrange(i + 5, n as int));
                filter(c == 38, Rgb::from_levels(t[i + 2], t[i + 3], t[i + 4]), &self.matrix, out);
                j = i + 5;
            } else {
                out.push(c);
                out.push(2);
                j = n;
            }
        } else if t[i + 1] == 5 {
            if n - i > 2 {
                assert(s.subrange(3, s.len() as int) =~= t@.subrange(i + 3, n as int));
                filter(c == 38, get_256c(t[i + 2]), &self.matrix, out);
                j = i + 3;
            } else {
                out.push(c);
                out.push(2);
                j = n;
            }
        } else {
            assert(s.subrange(2, s.len() as int) =~= t@.subrange(i + 2, n as int));
            out.push(c);
            out.push(t[i + 1]);
            j = i + 2;
        }
        assert(out@ + rewrite(m, reset, t@.subrange(j as int, n as int)) =~= old(out)@ + rewrite(m, reset, s));
        j
    }

    /// Appends the rewritten form of the token group that starts at `t[i]`;
    /// returns the index after the tokens consumed.
    fn rewrite_group(&self, t: &Vec<u8>, i: usize, out: &mut Vec<u8>) -> (j: usize)
        requires
            self.wf(),
            i < t.len(),
        ensures
            i < j <= t.len(),
            final(out)@ + rewrite(self.matrix, self.reset, t@.subrange(j as int, t.len() as int))
                == old(out)@ + rewrite(self.matrix, self.reset, t@.subrange(i as int, t.len() as int)),
    {
        let n = t.len();
        let ghost s = t@.subrange(i as int, n as int);
        let ghost m = self.matrix;
        let ghost reset = self.reset;
        let c = t[i];
        if c == 38 || c == 48 {
            return self.rewrite_extended(t, i, out);
        }
        assert(s[0] == c);
        assert(s.subrange(1, s.len() as int) =~= t@.subrange(i + 1, n as int));
        if (30 <= c && c <= 37) || (90 <= c && c <= 97) || (40 <= c && c <= 47) || (100 <= c && c <= 107) {
            let fg = (30 <= c && c <= 37) || (90 <= c && c <= 97);
            filter(fg, get_8c(c, c >= 90), &self.matrix, out);
        } else if c == 0 {
            out.push(0);
            push_all(out, &self.default_fg);
            push_all(out, &self.default_bg);
        } else if c == 39 && self.reset == DefaultReset::Expand {
            push_all(out, &self.default_fg);
        } else if c == 49 && self.reset == DefaultReset::Expand {
            push_all(out, &self.default_bg);
        } else {
            out.push(c);
        }
        assert(out@ + rewrite(m, reset, t@.subrange(i + 1, n as int)) =~= old(out)@ + rewrite(m, reset, s));
        i + 1
    }

    /// Appends the rewritten form of the token list `t` to `out`.
    pub fn rewrite_tokens(&self, t: &Vec<u8>, out: &mut Vec<u8>)
        requires
            self.wf(),
        ensures
            final(out)@ == old(out)@ + rewrite(self.matrix, self.reset, t@),
    {
        let n = t.len();
        let mut i: usize = 0;
        assert(t@.subrange(0, n as int) =~= t@);
        while i < n
            invariant
                n == t.len(),
                i <= n,
                self.wf(),
                old(out)@ + rewrite(self.matrix, self.reset, t@)
                    == out@ + rewrite(self.matrix, self.reset, t@.subrange(i as int, n as int)),
            decreases n - i,
        {
            i = self.rewrite_group(t, i, out);
        }
        assert(out@ + rewrite(self.matrix, self.reset, t@.subrange(i as int, n as int)) =~= out@);
    }
}

} // verus!
