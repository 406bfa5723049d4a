//! Graphic-rendition parameters: from raw bytes to tokens, the token rewrite,
//! and the bytes that carry a token list back out.

use vstd::prelude::*;

verus! {

/// Escape introducer.
pub const ESC: u8 = 0x1b;

/// `[`, which opens a control sequence.
pub const BRACKET: u8 = 0x5b;

/// `;`, the token separator.
pub const SEMI: u8 = 0x3b;

/// `+`, allowed before a token's digits.
pub const PLUS: u8 = 0x2b;

/// `0`.
pub const DIGIT_0: u8 = 0x30;

/// `9`.
pub const DIGIT_9: u8 = 0x39;

/// The parameter bytes with every `[` taken out.
pub open spec fn strip_brackets(s: Seq<u8>) -> Seq<u8>
    decreases s.len(),
{
    if s.len() == 0 {
        seq![]
    } else if s.last() == BRACKET {
        strip_brackets(s.drop_last())
    } else {
        strip_brackets(s.drop_last()).push(s.last())
    }
}

/// The end of the field that starts at `i`: the first `;` at or after `i`,
/// or the end of `s`.
pub open spec fn field_end(s: Seq<u8>, i: int) -> int
    decreases s.len() - i,
{
    if i >= s.len() || s[i] == SEMI {
        i
    } else {
        field_end(s, i + 1)
    }
}

pub open spec fn is_digit(b: u8) -> bool {
    DIGIT_0 <= b <= DIGIT_9
}

/// The field without its optional leading `+`.
pub open spec fn unsigned_part(p: Seq<u8>) -> Seq<u8> {
    if p.len() > 0 && p[0] == PLUS {
        p.subrange(1, p.len() as int)
    } else {
        p
    }
}

/// The value of a string of decimal digits.
pub open spec fn digits_value(d: Seq<u8>) -> int
    decreases d.len(),
{
    if d.len() == 0 {
        0
    } else {
        digits_value(d.drop_last()) * 10 + (d.last() - DIGIT_0)
    }
}

/// A field read as a token: an optional `+`, then one or more decimal digits
/// whose value is at most 255.
pub open spec fn parse_field(p: Seq<u8>) -> Option<u8> {
    let d = unsigned_part(p);
    if d.len() > 0 && (forall|i: int| 0 <= i < d.len() ==> is_digit(#[trigger] d[i]))
        && digits_value(d) <= 255 {
        Some(digits_value(d) as u8)
    } else {
        None
    }
}

/// The tokens of the `;`-separated fields from position `i` on, up to the
/// first field that is no token.
pub open spec fn tokens_from(s: Seq<u8>, i: int) -> Seq<u8>
    decreases s.len() - i via tokens_from_decreases
{
    let e = field_end(s, i);
    match parse_field(s.subrange(i, e)) {
        None => seq![],
        Some(v) => if e >= s.len() {
            seq![v]
        } else {
            seq![v] + tokens_from(s, e + 1)
        },
    }
}

#[via_fn]
proof fn tokens_from_decreases(s: Seq<u8>, i: int) {
    lemma_field_end_at_least(s, i);
}

proof fn lemma_field_end_at_least(s: Seq<u8>, i: int)
    ensures
        field_end(s, i) >= i,
    decreases s.len() - i,
{
    if i < s.len() && s[i] != SEMI {
        lemma_field_end_at_least(s, i + 1);
    }
}

/// The tokens of a graphic-rendition sequence's parameter bytes.
pub open spec fn sgr_tokens(params: Seq<u8>) -> Seq<u8> {
    tokens_from(strip_brackets(params), 0)
}

proof fn lemma_field_end(s: Seq<u8>, i: int)
    requires
        0 <= i <= s.len(),
    ensures
        i <= field_end(s, i) <= s.len(),
        field_end(s, i) < s.len() ==> s[field_end(s, i)] == SEMI,
    decreases s.len() - i,
{
    if i < s.len() && s[i] != SEMI {
        lemma_field_end(s, i + 1);
    }
}

/// Removes every `[` from the parameter bytes.
pub fn without_brackets(params: &Vec<u8>) -> (s: Vec<u8>)
    ensures
        s@ == strip_brackets(params@),
{
    let mut s: Vec<u8> = Vec::new();
    let mut i: usize = 0;
    while i < params.len()
        invariant
            i <= params.len(),
            s@ == strip_brackets(params@.subrange(0, i as int)),
        decreases params.len() - i,
    {
        assert(params@.subrange(0, i + 1).drop_last() =~= params@.subrange(0, i as int));
        if params[i] != BRACKET {
            s.push(params[i]);
        }
        i += 1;
    }
    assert(params@.subrange(0, i as int) =~= params@);
    s
}

fn find_field_end(s: &Vec<u8>, start: usize) -> (e: usize)
    requires
        start <= s.len(),
    ensures
        e == field_end(s@, start as int),
{
    let mut i: usize = start;
    while i < s.len() && s[i] != SEMI
        invariant
            start <= i <= s.len(),
            field_end(s@, i as int) == field_end(s@, start as int),
        decreases s.len() - i,
    {
        i += 1;
    }
    i
}

/// Reads the field `s[start..end]` as a token.
fn parse_field_at(s: &Vec<u8>, start: usize, end: usize) -> (r: Option<u8>)
    requires
        start <= end <= s.len(),
    ensures
        r == parse_field(s@.subrange(start as int, end as int)),
{
    let ghost p = s@.subrange(start as int, end as int);
    let mut i: usize = start;
    if start < end && s[start] == PLUS {
        i = start + 1;
    }
    let ghost d = unsigned_part(p);
    assert(d =~= s@.subrange(i as int, end as int));
    let first: usize = i;
    let mut acc: u32 = 0;
    while i < end
        invariant
            first <= i <= end <= s.len(),
            d == s@.subrange(first as int, end as int),
            d == unsigned_part(p),
            p == s@.subrange(start as int, end as int),
            forall|j: int| first <= j < i ==> is_digit(#[trigger] s@[j]),
            acc as int == if digits_value(s@.subrange(first as int, i as int)) > 255 {
                256
            } else {
                digits_value(s@.subrange(first as int, i as int))
            },
        decreases end - i,
    {
        if s[i] < DIGIT_0 || s[i] > DIGIT_9 {
            assert(d[i - first] == s@[i as int]);
            return None;
        }
        assert(s@.subrange(first as int, i + 1).drop_last() =~= s@.subrange(first as int, i as int));
        let next: u32 = acc * 10 + (s[i] - DIGIT_0) as u32;
        acc = if next > 255 { 256 } else { next };
        i += 1;
    }
    assert(s@.subrange(first as int, i as int) =~= d);
    assert forall|j: int| 0 <= j < d.len() implies is_digit(#[trigger] d[j]) by {
        assert(d[j] == s@[first + j]);
    }
    if first == end || acc > 255 {
        None
    } else {
        Some(acc as u8)
    }
}

/// Splits the bracket-free parameter bytes on `;` and reads each field as a
/// token, stopping at the first field that is none.
pub fn parse_tokens(s: &Vec<u8>) -> (t: Vec<u8>)
    ensures
        t@ == tokens_from(s@, 0),
{
    let mut t: Vec<u8> = Vec::new();
    let mut start: usize = 0;
    loop
        invariant
            start <= s.len(),
            t@ + tokens_from(s@, start as int) == tokens_from(s@, 0),
        decreases s.len() - start,
    {
        proof {
            lemma_field_end(s@, start as int);
        }
        let end = find_field_end(s, start);
        match parse_field_at(s, start, end) {
            None => {
                assert(t@ + seq![] =~= t@);
                return t;
            },
            Some(v) => {
                let ghost before = t@;
                t.push(v);
                assert(t@ =~= before + seq![v]);
                if end >= s.len() {
                    assert(t@ =~= before + seq![v]);
                    return t;
                }
                assert(before + (seq![v] + tokens_from(s@, end + 1)) =~= t@ + tokens_from(s@, end + 1));
                start = end + 1;
            },
        }
    }
}

} // verus!
