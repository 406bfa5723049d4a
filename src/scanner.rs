//! The stream scanner: literal bytes go straight out; an escape sequence is
//! collected up to its kind letter and then rewritten or passed on.

use vstd::prelude::*;
use crate::emit::{LETTER_M, sgr_bytes, clear_line, trailer, push_sgr, push_clear_line, push_trailer};
use crate::profile::{Kind, Matrix};
use crate::rewrite::{DefaultReset, Rewriter, rewrite, push_all, default_fg_tokens, default_bg_tokens};
use crate::sgr::{ESC, sgr_tokens, without_brackets, parse_tokens};

verus! {

/// Line feed.
pub const LF: u8 = 0x0a;

/// Whether the bytes are valid UTF-8.
pub uninterp spec fn utf8_text(b: Seq<u8>) -> bool;

/// Relies on std::str::from_utf8: it succeeds exactly when the bytes are
/// valid UTF-8, which depends on the bytes alone.
#[verifier::external_body]
fn is_text(b: &[u8]) -> (r: bool)
    ensures
        r == utf8_text(b@),
{
    std::str::from_utf8(b).is_ok()
}

/// Why the filter stopped.
#[derive(Clone, Copy, Debug, PartialEq, Eq, Structural)]
pub enum FilterError {
    /// A sequence's parameter bytes were not valid UTF-8.
    NotText,
}

/// An ASCII letter, which ends an escape sequence.
pub open spec fn is_alpha(b: u8) -> bool {
    (0x41 <= b <= 0x5a) || (0x61 <= b <= 0x7a)
}

/// The default colors, as one graphic-rendition sequence, then a clear to the
/// end of the line.
pub open spec fn neutral_line(m: Matrix) -> Seq<u8> {
    sgr_bytes(default_fg_tokens(m) + default_bg_tokens(m)) + clear_line()
}

/// What a completed sequence becomes: a graphic-rendition sequence is
/// rewritten (and dropped when nothing is left of it); any other goes out as
/// it came in.
pub open spec fn completed(m: Matrix, reset: DefaultReset, params: Seq<u8>, kind: u8) -> Seq<u8> {
    if kind == LETTER_M {
        let r = rewrite(m, reset, sgr_tokens(params));
        if r.len() == 0 {
            seq![]
        } else {
            sgr_bytes(r)
        }
    } else {
        seq![ESC] + params + seq![kind]
    }
}

/// One byte's effect from a scanner state (whether a sequence is being
/// collected, and its parameter bytes so far): the next state and the bytes
/// written, or `None` where a completed sequence's parameters are not text.
pub open spec fn step(m: Matrix, reset: DefaultReset, collecting: bool, params: Seq<u8>, b: u8)
    -> Option<(bool, Seq<u8>, Seq<u8>)>
{
    if !collecting {
        if b == ESC {
            Some((true, seq![], seq![]))
        } else {
            Some((false, seq![], seq![b]))
        }
    } else if is_alpha(b) {
        if utf8_text(params) {
            Some((false, seq![], completed(m, reset, params, b)))
        } else {
            None
        }
    } else if b == LF {
        Some((true, params, neutral_line(m)))
    } else {
        Some((true, params.push(b), seq![]))
    }
}

/// The scanner state and the bytes written after the whole input, from the
/// idle state; `None` once a byte has failed.
pub open spec fn scan(m: Matrix, reset: DefaultReset, input: Seq<u8>) -> Option<(bool, Seq<u8>, Seq<u8>)>
    decreases input.len(),
{
    if input.len() == 0 {
        Some((false, seq![], seq![]))
    } else {
        match scan(m, reset, input.drop_last()) {
            None => None,
            Some((c, p, o)) => match step(m, reset, c, p, input.last()) {
                None => None,
                Some((c2, p2, o2)) => Some((c2, p2, o + o2)),
            },
        }
    }
}

/// The filter: a rewriter and the scanner state.
pub struct Filter {
    pub rewriter: Rewriter,
    pub collecting: bool,
    pub params: Vec<u8>,
}

impl Filter {
    pub open spec fn wf(&self) -> bool {
        &&& self.rewriter.wf()
        &&& !self.collecting ==> self.params@.len() == 0
    }

    pub open spec fn matrix(&self) -> Matrix {
        self.rewriter.matrix
    }

    pub open spec fn reset(&self) -> DefaultReset {
        self.rewriter.reset
    }

    /// An idle filter for a profile.
    pub fn new(kind: Kind, reset: DefaultReset) -> (f: Filter)
        ensures
            f.wf(),
            f.matrix() == kind.matrix(),
            f.reset() == reset,
            !f.collecting,
    {
        Filter { rewriter: Rewriter::new(kind, reset), collecting: false, params: Vec::new() }
    }

    /// Appends the default colors and a clear to the end of the line.
    pub fn neutralize_line(&self, out: &mut Vec<u8>)
        requires
            self.wf(),
        ensures
            final(out)@ == old(out)@ + neutral_line(self.matrix()),
    {
        let mut t: Vec<u8> = Vec::new();
        push_all(&mut t, &self.rewriter.default_fg);
        push_all(&mut t, &self.rewriter.default_bg);
        push_sgr(&t, out);
        push_clear_line(out);
        assert(out@ =~= old(out)@ + neutral_line(self.matrix()));
    }

    /// Appends what the sequence with the collected parameters and the kind
    /// byte becomes.
    fn complete(&self, kind: u8, out: &mut Vec<u8>)
        requires
            self.wf(),
        ensures
            final(out)@ == old(out)@ + completed(self.matrix(), self.reset(), self.params@, kind),
    {
        if kind == LETTER_M {
            let s = without_brackets(&self.params);
            let t = parse_tokens(&s);
            let mut r: Vec<u8> = Vec::new();
            self.rewriter.rewrite_tokens(&t, &mut r);
            assert(r@ =~= rewrite(self.matrix(), self.reset(), sgr_tokens(self.params@)));
            if r.len() > 0 {
                push_sgr(&r, out);
            } else {
                assert(out@ =~= old(out)@ + seq![]);
            }
        } else {
            out.push(ESC);
            push_all(out, &self.params);
            out.push(kind);
            assert(out@ =~= old(out)@ + completed(self.matrix(), self.reset(), self.params@, kind));
        }
    }

    /// Takes one input byte and appends what it makes go out.
    pub fn feed(&mut self, b: u8, out: &mut Vec<u8>) -> (r: Result<(), FilterError>)
        requires
            old(self).wf(),
        ensures
            final(self).wf(),
            final(self).rewriter == old(self).rewriter,
            match step(old(self).matrix(), old(self).reset(), old(self).collecting, old(self).params@, b) {
                None => r == Err::<(), FilterError>(FilterError::NotText) && final(out)@ == old(out)@
                    && !final(self).collecting,
                Some((c, p, o)) => r is Ok && final(self).collecting == c && final(self).params@ == p
                    && final(out)@ == old(out)@ + o,
            },
    {
        if !self.collecting {
            if b == ESC {
                self.collecting = true;
            } else {
                out.push(b);
                assert(out@ =~= old(out)@ + seq![b]);
            }
            Ok(())
        } else if (0x41 <= b && b <= 0x5a) || (0x61 <= b && b <= 0x7a) {
            if !is_text(self.params.as_slice()) {
                self.params.clear();
                self.collecting = false;
                return Err(FilterError::NotText);
            }
            self.complete(b, out);
            self.params.clear();
            self.collecting = false;
            Ok(())
        } else if b == LF {
            self.neutralize_line(out);
            Ok(())
        } else {
            self.params.push(b);
            assert(out@ =~= old(out)@ + seq![]);
            Ok(())
        }
    }

    /// Appends the trailer: a full reset and a clear to the end of the line.
    /// A sequence still being collected is dropped.
    pub fn finish(&self, out: &mut Vec<u8>)
        ensures
            final(out)@ == old(out)@ + trailer(),
    {
        push_trailer(out);
    }
}

/// Filters a whole input: the bytes written for it, then the trailer; or the
/// error that stopped it.
pub fn filter_bytes(kind: Kind, reset: DefaultReset, input: &Vec<u8>) -> (r: Result<Vec<u8>, FilterError>)
    ensures
        match scan(kind.matrix(), reset, input@) {
            None => r == Err::<Vec<u8>, FilterError>(FilterError::NotText),
            Some((_, _, o)) => r is Ok && r.unwrap()@ == o + trailer(),
        },
{
    let mut f = Filter::new(kind, reset);
    let mut out: Vec<u8> = Vec::new();
    let mut i: usize = 0;
    let ghost m = kind.matrix();
    while i < input.len()
        invariant
            i <= input.len(),
            f.wf(),
            f.matrix() == m,
            m == kind.matrix(),
            f.reset() == reset,
            scan(m, reset, input@.subrange(0, i as int)) == Some((f.collecting, f.params@, out@)),
        decreases input.len() - i,
    {
        assert(input@.subrange(0, i + 1).drop_last() =~= input@.subrange(0, i as int));
        match f.feed(input[i], &mut out) {
            Err(_) => {
                assert(scan(m, reset, input@.subrange(0, i + 1)) is None);
                proof {
                    lemma_scan_stays_failed(m, reset, input@, i as int + 1);
                }
                assert(scan(m, reset, input@) is None);
                return Err(FilterError::NotText);
            },
            Ok(()) => {},
        }
        i += 1;
    }
    assert(input@.subrange(0, i as int) =~= input@);
    f.finish(&mut out);
    Ok(out)
}

proof fn lemma_scan_stays_failed(m: Matrix, reset: DefaultReset, input: Seq<u8>, i: int)
    requires
        0 <= i <= input.len(),
        scan(m, reset, input.subrange(0, i)) is None,
    ensures
        scan(m, reset, input) is None,
    decreases input.len() - i,
{
    if i < input.len() {
        assert(input.subrange(0, i + 1).drop_last() =~= input.subrange(0, i));
        lemma_scan_stays_failed(m, reset, input, i + 1);
    } else {
        assert(input.subrange(0, i) =~= input);
    }
}

} // verus!
