//! Reading numbers back out of a rendered observation value.

use vstd::prelude::*;
use crate::decimal::{Decimal, all_digits, digits_value, first_index, decimal_of_text, parse_decimal};
use crate::text::{is_digit, split_pieces, words, slice, string_of};

verus! {

/// The integer a text writes as `str::parse::<i32>` reads it: an optional
/// sign and at least one digit, within the range of `i32`.
pub open spec fn int_text(s: Seq<char>) -> Option<int> {
    let signed = s.len() > 0 && (s[0] == '+' || s[0] == '-');
    let digits = if signed { s.drop_first() } else { s };
    let v: int = if signed && s[0] == '-' { -digits_value(digits) } else { digits_value(digits) as int };
    if digits.len() >= 1 && all_digits(digits) && i32::MIN <= v <= i32::MAX {
        Some(v)
    } else {
        None
    }
}

proof fn lemma_prefix_grows(s: Seq<char>, i: int, j: int)
    requires
        all_digits(s),
        0 <= i <= j <= s.len(),
    ensures
        digits_value(s.subrange(0, i)) <= digits_value(s.subrange(0, j)),
    decreases j - i,
{
    if i < j {
        lemma_prefix_grows(s, i, j - 1);
        assert(s.subrange(0, j).drop_last() =~= s.subrange(0, j - 1));
        assert(is_digit(s[j - 1]));
    }
}

/// Reads an `i32` from `cs[from..to]` (see `int_text`).
fn parse_int(cs: &Vec<char>, from: usize, to: usize) -> (r: Option<i32>)
    requires
        from <= to <= cs@.len(),
    ensures
        match r {
            Some(v) => int_text(cs@.subrange(from as int, to as int)) == Some(v as int),
            None => int_text(cs@.subrange(from as int, to as int)) is None,
        },
{
    let ghost s = cs@.subrange(from as int, to as int);
    let mut q = from;
    let negative = q < to && cs[q] == '-';
    if q < to && (cs[q] == '+' || cs[q] == '-') {
        q += 1;
    }
    let ghost signed = s.len() > 0 && (s[0] == '+' || s[0] == '-');
    let ghost digits = if signed { s.drop_first() } else { s };
    assert(digits =~= cs@.subrange(q as int, to as int));
    if q >= to {
        return None;
    }
    let mut acc: i64 = 0;
    let mut i = q;
    while i < to
        invariant
            from <= q <= i <= to <= cs@.len(),
            s == cs@.subrange(from as int, to as int),
            signed == (s.len() > 0 && (s[0] == '+' || s[0] == '-')),
            negative == (signed && s[0] == '-'),
            digits == (if signed { s.drop_first() } else { s }),
            digits == cs@.subrange(q as int, to as int),
            forall|k: int| q <= k < i ==> is_digit(#[trigger] cs@[k]),
            acc == digits_value(cs@.subrange(q as int, i as int)),
            acc <= 0x8000_0000,
        decreases to - i,
    {
        let c = cs[i];
        if !(c >= '0' && c <= '9') {
            assert(!is_digit(digits[i - q]));
            return None;
        }
        assert(cs@.subrange(q as int, i + 1).drop_last() =~= cs@.subrange(q as int, i as int));
        acc = acc * 10 + (c as u32 - '0' as u32) as i64;
        i += 1;
        if acc > 0x8000_0000 {
            proof {
                if all_digits(digits) {
                    lemma_prefix_grows(digits, i - q, digits.len() as int);
                    assert(digits.subrange(0, i - q) =~= cs@.subrange(q as int, i as int));
                    assert(digits.subrange(0, digits.len() as int) =~= digits);
                }
            }
            return None;
        }
    }
    assert(cs@.subrange(q as int, i as int) =~= digits);
    assert(all_digits(digits)) by {
        assert forall|k: int| 0 <= k < digits.len() implies is_digit(#[trigger] digits[k]) by {
            assert(digits[k] == cs@[q + k]);
        }
    }
    let v: i64 = if negative { -acc } else { acc };
    if v < i32::MIN as i64 || v > i32::MAX as i64 {
        return None;
    }
    Some(v as i32)
}

/// The first word holding a '/'.
pub open spec fn first_with_slash(ws: Seq<Seq<char>>) -> Option<Seq<char>>
    decreases ws.len(),
{
    if ws.len() == 0 {
        None
    } else if first_index(ws[0], '/', '/') < ws[0].len() {
        Some(ws[0])
    } else {
        first_with_slash(ws.drop_first())
    }
}

/// Systolic and diastolic pressure written "sys/dia" in the first word of
/// the detail that holds a '/'; nothing if either side is not an integer.
pub open spec fn bp_from_detail(detail: Seq<char>) -> Option<(int, int)> {
    match first_with_slash(words(detail)) {
        Some(w) => {
            let k = first_index(w, '/', '/') as int;
            match (int_text(w.subrange(0, k)), int_text(w.subrange(k + 1, w.len() as int))) {
                (Some(a), Some(b)) => Some((a, b)),
                _ => None,
            }
        },
        None => None,
    }
}

/// Index of the first '/' in `cs`, or its length.
fn slash_index(cs: &Vec<char>) -> (r: usize)
    ensures
        r == first_index(cs@, '/', '/'),
        r <= cs@.len(),
{
    let mut i: usize = 0;
    assert(cs@.subrange(0, cs@.len() as int) =~= cs@);
    while i < cs.len()
        invariant
            i <= cs@.len(),
            first_index(cs@, '/', '/') == i + first_index(cs@.subrange(i as int, cs@.len() as int), '/', '/'),
        decreases cs.len() - i,
    {
        let ghost rest = cs@.subrange(i as int, cs@.len() as int);
        if cs[i] == '/' {
            assert(rest[0] == '/');
            return i;
        }
        assert(rest.drop_first() =~= cs@.subrange(i + 1, cs@.len() as int));
        i += 1;
    }
    i
}

/// Blood pressure read from a rendered value (see `bp_from_detail`).
pub fn parse_blood_pressure_from_detail(detail: &str) -> (r: Option<(i32, i32)>)
    ensures
        match r {
            Some((a, b)) => bp_from_detail(detail@) == Some((a as int, b as int)),
            None => bp_from_detail(detail@) is None,
        },
{
    let ws = split_pieces(detail, true);
    let ghost all = words(detail@);
    let mut i: usize = 0;
    assert(all.subrange(0, all.len() as int) =~= all);
    while i < ws.len()
        invariant
            all == words(detail@),
            ws@.len() == all.len(),
            forall|k: int| 0 <= k < ws@.len() ==> (#[trigger] ws@[k])@ == all[k],
            i <= ws@.len(),
            first_with_slash(all) == first_with_slash(all.subrange(i as int, all.len() as int)),
        decreases ws.len() - i,
    {
        let ghost rest = all.subrange(i as int, all.len() as int);
        assert(rest[0] == ws@[i as int]@);
        let k = slash_index(&ws[i]);
        if k < ws[i].len() {
            let a = parse_int(&ws[i], 0, k);
            let b = parse_int(&ws[i], k + 1, ws[i].len());
            assert(ws@[i as int]@.subrange(0, ws@[i as int]@.len() as int) =~= ws@[i as int]@);
            return match (a, b) {
                (Some(a), Some(b)) => Some((a, b)),
                _ => None,
            };
        }
        assert(rest.drop_first() =~= all.subrange(i + 1, all.len() as int));
        i += 1;
    }
    None
}

/// Length of the run of digits, '.' and '-' that starts `s`.
pub open spec fn numeric_prefix_len(s: Seq<char>) -> nat
    decreases s.len(),
{
    if s.len() > 0 && (is_digit(s[0]) || s[0] == '.' || s[0] == '-') {
        1 + numeric_prefix_len(s.drop_first())
    } else {
        0
    }
}

/// The number that starts the first word of a detail: that word's leading
/// run of digits, '.' and '-', read as a decimal.
pub open spec fn number_from_detail(detail: Seq<char>) -> Option<Decimal> {
    let ws = words(detail);
    if ws.len() == 0 {
        None
    } else {
        decimal_of_text(ws[0].subrange(0, numeric_prefix_len(ws[0]) as int))
    }
}

/// The `n`-th word of a detail, if it has one.
pub open spec fn nth_word(detail: Seq<char>, n: int) -> Option<Seq<char>> {
    if 0 <= n < words(detail).len() {
        Some(words(detail)[n])
    } else {
        None
    }
}

/// The number that starts a detail (see `number_from_detail`).
pub fn numeric_from_detail(detail: &str) -> (r: Option<Decimal>)
    ensures
        r == number_from_detail(detail@),
        r matches Some(d) ==> d.wf(),
{
    let ws = split_pieces(detail, true);
    if ws.len() == 0 {
        return None;
    }
    let w = &ws[0];
    let mut i: usize = 0;
    assert(w@.subrange(0, w@.len() as int) =~= w@);
    while i < w.len() && ((w[i] >= '0' && w[i] <= '9') || w[i] == '.' || w[i] == '-')
        invariant
            i <= w@.len(),
            numeric_prefix_len(w@) == i + numeric_prefix_len(w@.subrange(i as int, w@.len() as int)),
        decreases w.len() - i,
    {
        assert(w@.subrange(i as int, w@.len() as int).drop_first() =~= w@.subrange(i + 1, w@.len() as int));
        i += 1;
    }
    assert(w@.subrange(0, w@.len() as int) =~= w@);
    let cleaned = string_of(&slice(w, 0, i));
    parse_decimal(cleaned.as_str())
}

/// The `n`-th word of a detail (see `nth_word`).
pub fn word_at(detail: &str, n: usize) -> (r: Option<String>)
    ensures
        match r {
            Some(w) => nth_word(detail@, n as int) == Some(w@),
            None => nth_word(detail@, n as int) is None,
        },
{
    let ws = split_pieces(detail, true);
    if n < ws.len() {
        Some(string_of(&ws[n]))
    } else {
        None
    }
}

} // verus!
