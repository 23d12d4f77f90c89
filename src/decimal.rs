//! Exact decimal numbers: reading them from text and writing them back.

use vstd::prelude::*;
use crate::text::{chars_of, digit, digit_char, is_digit, push_char};

verus! {

/// The number `mantissa / 10^scale`, in lowest terms: a nonzero scale leaves
/// no trailing zero in the mantissa.
#[derive(Clone, Copy, Debug, PartialEq, Eq, Structural)]
pub struct Decimal {
    pub mantissa: i64,
    pub scale: u32,
}

impl Decimal {
    /// The mantissa's magnitude fits in an `i64` and the scale is at most `MAX_SCALE`.
    pub open spec fn wf(self) -> bool {
        self.mantissa > i64::MIN && self.scale <= MAX_SCALE
    }

    /// Whether the number is at least `k`.
    pub open spec fn spec_at_least(self, k: int) -> bool {
        self.mantissa >= k * pow10(self.scale as nat)
    }

    /// Whether the number is at most `k`.
    pub open spec fn spec_at_most(self, k: int) -> bool {
        self.mantissa <= k * pow10(self.scale as nat)
    }

    /// The whole number `i`.
    pub fn from_int(i: i32) -> (r: Decimal)
        ensures
            r == (Decimal { mantissa: i as i64, scale: 0 }),
            r.wf(),
    {
        Decimal { mantissa: i as i64, scale: 0 }
    }

    /// Whether the number is at least `k`.
    pub fn at_least(&self, k: i64) -> (r: bool)
        requires
            self.wf(),
            -1000 <= k <= 1000,
        ensures
            r == self.spec_at_least(k as int),
    {
        let p = pow10_of(self.scale);
        proof {
            lemma_pow10_mono(self.scale as nat, 18);
            lemma_pow10_18();
        }
        assert(-1_000_000_000_000_000_000_000 <= k as i128 * p as i128 <= 1_000_000_000_000_000_000_000)
            by (nonlinear_arith)
            requires
                -1000 <= k <= 1000,
                1 <= p <= 1_000_000_000_000_000_000,
        ;
        self.mantissa as i128 >= k as i128 * p as i128
    }

    /// Whether the number is at most `k`.
    pub fn at_most(&self, k: i64) -> (r: bool)
        requires
            self.wf(),
            -1000 <= k <= 1000,
        ensures
            r == self.spec_at_most(k as int),
    {
        let p = pow10_of(self.scale);
        proof {
            lemma_pow10_mono(self.scale as nat, 18);
            lemma_pow10_18();
        }
        assert(-1_000_000_000_000_000_000_000 <= k as i128 * p as i128 <= 1_000_000_000_000_000_000_000)
            by (nonlinear_arith)
            requires
                -1000 <= k <= 1000,
                1 <= p <= 1_000_000_000_000_000_000,
        ;
        self.mantissa as i128 <= k as i128 * p as i128
    }
}

proof fn lemma_pow10_18()
    ensures
        pow10(18) == 1_000_000_000_000_000_000,
{
    reveal_with_fuel(pow10, 19);
}

/// `10^k`.
fn pow10_of(k: u32) -> (r: u64)
    requires
        k <= 18,
    ensures
        r == pow10(k as nat),
        1 <= r <= 1_000_000_000_000_000_000,
{
    let mut r: u64 = 1;
    let mut i: u32 = 0;
    assert(pow10(0) == 1);
    while i < k
        invariant
            i <= k <= 18,
            r == pow10(i as nat),
            1 <= r <= pow10(i as nat),
        decreases k - i,
    {
        proof {
            lemma_pow10_mono((i + 1) as nat, 18);
            lemma_pow10_18();
        }
        r = r * 10;
        i += 1;
    }
    proof {
        lemma_pow10_mono(k as nat, 18);
        lemma_pow10_18();
    }
    r
}

/// The decimal digits of `n`, without leading zeros.
pub open spec fn digits_of(n: nat) -> Seq<char>
    decreases n,
{
    if n < 10 {
        seq![digit_char(n)]
    } else {
        digits_of(n / 10).push(digit_char(n % 10))
    }
}

/// The last `width` decimal digits of `n`, zeros in front.
pub open spec fn padded_digits(n: nat, width: nat) -> Seq<char>
    decreases width,
{
    if width == 0 {
        Seq::empty()
    } else {
        padded_digits(n / 10, (width - 1) as nat).push(digit_char(n % 10))
    }
}

/// A number written out without exponent: a minus sign if negative, the
/// whole part, and when the scale is nonzero a point and exactly `scale`
/// fraction digits. Integers thus show no point, numbers with one decimal
/// show one.
pub open spec fn decimal_text(d: Decimal) -> Seq<char> {
    let magnitude: nat = if d.mantissa < 0 { (-d.mantissa) as nat } else { d.mantissa as nat };
    let sign: Seq<char> = if d.mantissa < 0 { seq!['-'] } else { Seq::empty() };
    if d.scale == 0 {
        sign + digits_of(magnitude)
    } else {
        sign + digits_of(magnitude / pow10(d.scale as nat)) + seq!['.'] + padded_digits(
            magnitude % pow10(d.scale as nat),
            d.scale as nat,
        )
    }
}

fn push_digits(s: &mut String, n: u64)
    ensures
        final(s)@ == old(s)@ + digits_of(n as nat),
    decreases n,
{
    if n >= 10 {
        push_digits(s, n / 10);
    }
    push_char(s, digit((n % 10) as u8));
}

fn push_padded(s: &mut String, n: u64, width: u32)
    ensures
        final(s)@ == old(s)@ + padded_digits(n as nat, width as nat),
    decreases width,
{
    if width > 0 {
        push_padded(s, n / 10, width - 1);
        push_char(s, digit((n % 10) as u8));
    }
}

/// The decimal digits of a natural number.
pub fn format_natural(n: u64) -> (r: String)
    ensures
        r@ == digits_of(n as nat),
{
    let mut out = String::new();
    push_digits(&mut out, n);
    assert(out@ =~= digits_of(n as nat));
    out
}

/// Writes a number out (see `decimal_text`).
pub fn format_decimal(d: &Decimal) -> (r: String)
    requires
        d.wf(),
    ensures
        r@ == decimal_text(*d),
{
    let mut out = String::new();
    let magnitude: u64 = if d.mantissa < 0 { (-d.mantissa) as u64 } else { d.mantissa as u64 };
    if d.mantissa < 0 {
        push_char(&mut out, '-');
    }
    if d.scale == 0 {
        push_digits(&mut out, magnitude);
    } else {
        let p = pow10_of(d.scale);
        push_digits(&mut out, magnitude / p);
        push_char(&mut out, '.');
        push_padded(&mut out, magnitude % p, d.scale);
    }
    assert(out@ =~= decimal_text(*d));
    out
}

/// Most digits read from the mantissa of a number.
pub const MAX_DIGITS: usize = 36;

/// Most digits read from the exponent of a number.
pub const MAX_EXP_DIGITS: usize = 4;

/// Largest scale a `Decimal` carries.
pub const MAX_SCALE: u32 = 18;

pub open spec fn pow10(k: nat) -> nat
    decreases k,
{
    if k == 0 {
        1
    } else {
        10 * pow10((k - 1) as nat)
    }
}

/// The value of a run of decimal digits.
pub open spec fn digits_value(s: Seq<char>) -> nat
    decreases s.len(),
{
    if s.len() == 0 {
        0
    } else {
        digits_value(s.drop_last()) * 10 + (s.last() as int - '0' as int) as nat
    }
}

pub open spec fn all_digits(s: Seq<char>) -> bool {
    forall|i: int| 0 <= i < s.len() ==> is_digit(#[trigger] s[i])
}

/// Index of the first `a` or `b` in `s`; the length of `s` if there is none.
pub open spec fn first_index(s: Seq<char>, a: char, b: char) -> nat
    decreases s.len(),
{
    if s.len() == 0 {
        0
    } else if s[0] == a || s[0] == b {
        0
    } else {
        1 + first_index(s.drop_first(), a, b)
    }
}

/// The power of ten written after the exponent mark: an optional sign and
/// one to `MAX_EXP_DIGITS` digits.
pub open spec fn exponent_value(t: Seq<char>) -> Option<int> {
    let signed = t.len() > 0 && (t[0] == '-' || t[0] == '+');
    let digits = if signed { t.drop_first() } else { t };
    if 1 <= digits.len() <= MAX_EXP_DIGITS && all_digits(digits) {
        Some(if signed && t[0] == '-' { -digits_value(digits) } else { digits_value(digits) as int })
    } else {
        None
    }
}

/// The digits before and after the point of a mantissa.
pub open spec fn mantissa_parts(mant: Seq<char>) -> (Seq<char>, Seq<char>) {
    let p = first_index(mant, '.', '.') as int;
    (
        mant.subrange(0, p),
        if p < mant.len() { mant.subrange(p + 1, mant.len() as int) } else { Seq::empty() },
    )
}

/// The number a text writes, as sign, digits and power of ten:
/// `[-] digits [. digits] [(e|E) [+|-] digits]`, with at least one digit
/// before the exponent, at most `MAX_DIGITS` of them, and at most
/// `MAX_EXP_DIGITS` exponent digits. The result `(negative, n, e)` stands
/// for `n * 10^e`, negated when `negative`.
pub open spec fn number_text(s: Seq<char>) -> Option<(bool, nat, int)> {
    let negative = s.len() > 0 && s[0] == '-';
    let body = if negative { s.drop_first() } else { s };
    let e = first_index(body, 'e', 'E') as int;
    let whole = mantissa_parts(body.subrange(0, e)).0;
    let frac = mantissa_parts(body.subrange(0, e)).1;
    let exp = if e < body.len() { exponent_value(body.subrange(e + 1, body.len() as int)) } else { Some(0) };
    if all_digits(whole) && all_digits(frac) && 1 <= whole.len() + frac.len() <= MAX_DIGITS
        && exp is Some {
        Some((negative, digits_value(whole + frac), exp->0 - frac.len()))
    } else {
        None
    }
}

/// `n * 10^e` with the trailing zeros of `n` moved into the exponent.
pub open spec fn strip_zeros(n: nat, e: int) -> (nat, int)
    decreases n,
{
    if n > 0 && n % 10 == 0 {
        strip_zeros(n / 10, e + 1)
    } else {
        (n, e)
    }
}

/// The `Decimal` equal to `n * 10^e` (negated when `negative`), if its
/// mantissa fits in an `i64` and its scale is at most `MAX_SCALE`.
pub open spec fn decimal_from(negative: bool, n: nat, e: int) -> Option<Decimal> {
    decimal_from_stripped(negative, strip_zeros(n, e).0, strip_zeros(n, e).1)
}

/// `decimal_from` once the trailing zeros are gone from `m`.
pub open spec fn decimal_from_stripped(negative: bool, m: nat, f: int) -> Option<Decimal> {
    if m == 0 {
        Some(Decimal { mantissa: 0, scale: 0 })
    } else {
        let magnitude: int = if f >= 0 { (m * pow10(f as nat)) as int } else { m as int };
        let scale: int = if f >= 0 { 0 } else { -f };
        if magnitude <= i64::MAX && scale <= MAX_SCALE {
            Some(
                Decimal {
                    mantissa: (if negative { -magnitude } else { magnitude }) as i64,
                    scale: scale as u32,
                },
            )
        } else {
            None
        }
    }
}

/// The decimal a text writes (see `number_text`), if it has one.
pub open spec fn decimal_of_text(s: Seq<char>) -> Option<Decimal> {
    match number_text(s) {
        Some((negative, n, e)) => decimal_from(negative, n, e),
        None => None,
    }
}

proof fn lemma_first_index(s: Seq<char>, a: char, b: char, i: int)
    requires
        0 <= i <= s.len(),
        forall|k: int| 0 <= k < i ==> s[k] != a && s[k] != b,
        i == s.len() || s[i] == a || s[i] == b,
    ensures
        first_index(s, a, b) == i,
    decreases i,
{
    if i > 0 {
        lemma_first_index(s.drop_first(), a, b, i - 1);
    }
}

proof fn lemma_digits_bound(s: Seq<char>)
    requires
        all_digits(s),
    ensures
        digits_value(s) < pow10(s.len()),
    decreases s.len(),
{
    if s.len() > 0 {
        assert(all_digits(s.drop_last())) by {
            assert forall|i: int| 0 <= i < s.drop_last().len() implies is_digit(
                #[trigger] s.drop_last()[i],
            ) by {
                assert(s.drop_last()[i] == s[i]);
            }
        }
        lemma_digits_bound(s.drop_last());
        assert(is_digit(s[s.len() - 1]));
    }
}

proof fn lemma_pow10_36()
    ensures
        pow10(36) == 1_000_000_000_000_000_000_000_000_000_000_000_000,
{
    reveal_with_fuel(pow10, 37);
}

proof fn lemma_pow10_mono(a: nat, b: nat)
    requires
        a <= b,
    ensures
        pow10(a) <= pow10(b),
    decreases b,
{
    if a < b {
        lemma_pow10_mono(a, (b - 1) as nat);
    }
}

/// Index of the first `a` or `b` in `cs[from..to]`, counted from `from`; `to` if none.
fn find_char(cs: &Vec<char>, from: usize, to: usize, a: char, b: char) -> (r: usize)
    requires
        from <= to <= cs@.len(),
    ensures
        from <= r <= to,
        r - from == first_index(cs@.subrange(from as int, to as int), a, b),
{
    let mut i = from;
    while i < to
        invariant
            from <= i <= to <= cs@.len(),
            forall|k: int| from <= k < i ==> cs@[k] != a && cs@[k] != b,
        decreases to - i,
    {
        if cs[i] == a || cs[i] == b {
            proof {
                lemma_first_index(cs@.subrange(from as int, to as int), a, b, i - from);
            }
            return i;
        }
        i += 1;
    }
    proof {
        lemma_first_index(cs@.subrange(from as int, to as int), a, b, i - from);
    }
    i
}

/// Whether `cs[from..to]` holds digits only.
fn scan_digits(cs: &Vec<char>, from: usize, to: usize) -> (r: bool)
    requires
        from <= to <= cs@.len(),
    ensures
        r == all_digits(cs@.subrange(from as int, to as int)),
{
    let mut i = from;
    while i < to
        invariant
            from <= i <= to <= cs@.len(),
            forall|k: int| from <= k < i ==> is_digit(#[trigger] cs@[k]),
        decreases to - i,
    {
        if !(cs[i] >= '0' && cs[i] <= '9') {
            assert(!is_digit(cs@.subrange(from as int, to as int)[i - from]));
            return false;
        }
        i += 1;
    }
    assert forall|k: int| 0 <= k < to - from implies is_digit(
        #[trigger] cs@.subrange(from as int, to as int)[k],
    ) by {
        assert(cs@.subrange(from as int, to as int)[k] == cs@[from + k]);
    }
    true
}

/// The value of the digits `ds`.
fn digits_number(ds: &Vec<char>) -> (r: u128)
    requires
        all_digits(ds@),
        ds@.len() <= MAX_DIGITS,
    ensures
        r == digits_value(ds@),
{
    let mut acc: u128 = 0;
    let mut i: usize = 0;
    while i < ds.len()
        invariant
            all_digits(ds@),
            ds@.len() <= MAX_DIGITS,
            i <= ds@.len(),
            acc == digits_value(ds@.subrange(0, i as int)),
        decreases ds.len() - i,
    {
        proof {
            let pre = ds@.subrange(0, i as int + 1);
            assert(pre.drop_last() =~= ds@.subrange(0, i as int));
            assert(all_digits(pre)) by {
                assert forall|k: int| 0 <= k < pre.len() implies is_digit(#[trigger] pre[k]) by {
                    assert(pre[k] == ds@[k]);
                }
            }
            lemma_digits_bound(pre);
            lemma_pow10_mono(pre.len(), 36);
            lemma_pow10_36();
            assert(is_digit(ds@[i as int]));
        }
        let d = (ds[i] as u32 - '0' as u32) as u128;
        acc = acc * 10 + d;
        i += 1;
    }
    assert(ds@.subrange(0, i as int) =~= ds@);
    acc
}

/// The chars `cs[from..to]`.
fn slice_chars(cs: &Vec<char>, from: usize, to: usize) -> (r: Vec<char>)
    requires
        from <= to <= cs@.len(),
    ensures
        r@ == cs@.subrange(from as int, to as int),
{
    let mut out: Vec<char> = Vec::new();
    let mut i = from;
    while i < to
        invariant
            from <= i <= to <= cs@.len(),
            out@ == cs@.subrange(from as int, i as int),
        decreases to - i,
    {
        out.push(cs[i]);
        i += 1;
        assert(out@ =~= cs@.subrange(from as int, i as int));
    }
    out
}

/// `n * 10^e` with the trailing zeros of `n` moved into the exponent.
fn strip(n: u128, e: i64) -> (r: (u128, i64))
    requires
        n < 1_000_000_000_000_000_000_000_000_000_000_000_000,
        -100_000 <= e <= 100_000,
    ensures
        (r.0 as nat, r.1 as int) == strip_zeros(n as nat, e as int),
        e <= r.1 <= e + 36,
{
    proof {
        lemma_pow10_36();
        assert(pow10(0) == 1);
    }
    let mut m = n;
    let mut f = e;
    assert(((f - e) as nat) == 0);
    assert(m as int * pow10(0) == n as int);
    while m > 0 && m % 10 == 0
        invariant
            strip_zeros(m as nat, f as int) == strip_zeros(n as nat, e as int),
            -100_000 <= e <= 100_000,
            e <= f <= e + 36,
            m as int * pow10((f - e) as nat) == n as int,
            n < pow10(36),
        decreases m,
    {
        proof {
            let k = (f - e) as nat;
            assert(pow10(k + 1) == 10 * pow10(k));
            assert((m / 10) * 10 == m);
            assert((m / 10) as int * pow10(k + 1) == m as int * pow10(k)) by (nonlinear_arith)
                requires
                    (m / 10) * 10 == m,
                    pow10(k + 1) == 10 * pow10(k),
            ;
            assert(m / 10 >= 1);
            assert(pow10(k + 1) <= (m / 10) as int * pow10(k + 1)) by (nonlinear_arith)
                requires
                    m / 10 >= 1,
            ;
            if k + 1 > 36 {
                lemma_pow10_mono(36, k + 1);
            }
        }
        m = m / 10;
        f = f + 1;
    }
    (m, f)
}

/// `decimal_from_stripped`, computed.
fn build_decimal(negative: bool, m: u128, f: i64) -> (r: Option<Decimal>)
    ensures
        r == decimal_from_stripped(negative, m as nat, f as int),
        r matches Some(d) ==> d.wf(),
{
    if m == 0 {
        return Some(Decimal { mantissa: 0, scale: 0 });
    }
    if m > i64::MAX as u128 {
        proof {
            if f >= 0 {
                lemma_pow10_mono(0, f as nat);
                assert(m as int * pow10(f as nat) >= m as int) by (nonlinear_arith)
                    requires pow10(f as nat) >= 1, m >= 1;
            }
        }
        return None;
    }
    if f < 0 {
        if f < -(MAX_SCALE as i64) {
            return None;
        }
        let mag = m as i64;
        return Some(Decimal { mantissa: if negative { -mag } else { mag }, scale: (-f) as u32 });
    }
    let mut mag: i64 = m as i64;
    let mut k: i64 = 0;
    assert(pow10(0) == 1);
    assert(mag as int == m as int * pow10(0));
    while k < f
        invariant
            0 <= k <= f,
            1 <= m <= i64::MAX,
            mag as int == m as int * pow10(k as nat),
        decreases f - k,
    {
        assert(pow10((k + 1) as nat) == 10 * pow10(k as nat));
        if mag > i64::MAX / 10 {
            proof {
                lemma_pow10_mono((k + 1) as nat, f as nat);
                assert(m as int * pow10(f as nat) >= m as int * pow10((k + 1) as nat))
                    by (nonlinear_arith)
                    requires pow10(f as nat) >= pow10((k + 1) as nat), m >= 1;
                assert(m as int * pow10((k + 1) as nat) == mag * 10) by (nonlinear_arith)
                    requires mag as int == m as int * pow10(k as nat),
                        pow10((k + 1) as nat) == 10 * pow10(k as nat);
            }
            return None;
        }
        proof {
            assert(m as int * pow10((k + 1) as nat) == mag * 10) by (nonlinear_arith)
                requires mag as int == m as int * pow10(k as nat),
                    pow10((k + 1) as nat) == 10 * pow10(k as nat);
        }
        mag = mag * 10;
        k = k + 1;
    }
    Some(Decimal { mantissa: if negative { -mag } else { mag }, scale: 0 })
}

/// The chars of `a` followed by those of `b`.
fn join_chars(a: Vec<char>, b: &Vec<char>) -> (r: Vec<char>)
    ensures
        r@ == a@ + b@,
{
    let mut out = a;
    let mut i: usize = 0;
    while i < b.len()
        invariant
            i <= b@.len(),
            out@ == a@ + b@.subrange(0, i as int),
        decreases b.len() - i,
    {
        out.push(b[i]);
        i += 1;
        assert(out@ =~= a@ + b@.subrange(0, i as int));
    }
    assert(b@.subrange(0, i as int) =~= b@);
    out
}

/// The exponent written in `cs[from..]` (see `exponent_value`).
fn read_exponent(cs: &Vec<char>, from: usize) -> (r: Option<i64>)
    requires
        from <= cs@.len(),
    ensures
        match r {
            Some(v) => exponent_value(cs@.subrange(from as int, cs@.len() as int)) == Some(v as int),
            None => exponent_value(cs@.subrange(from as int, cs@.len() as int)) is None,
        },
        r matches Some(v) ==> -10_000 < v < 10_000,
{
    let n = cs.len();
    let ghost t = cs@.subrange(from as int, n as int);
    let mut q = from;
    let negative = q < n && cs[q] == '-';
    if q < n && (cs[q] == '-' || cs[q] == '+') {
        q += 1;
    }
    let ghost signed = t.len() > 0 && (t[0] == '-' || t[0] == '+');
    let ghost digits = if signed { t.drop_first() } else { t };
    assert(digits =~= cs@.subrange(q as int, n as int));
    if n - q < 1 || n - q > MAX_EXP_DIGITS || !scan_digits(cs, q, n) {
        return None;
    }
    let ed = slice_chars(cs, q, n);
    proof {
        lemma_digits_bound(ed@);
        lemma_pow10_mono(ed@.len(), 4);
        reveal_with_fuel(pow10, 5);
    }
    let v = digits_number(&ed) as i64;
    Some(if negative { -v } else { v })
}

/// Reads the decimal that a text writes (see `decimal_of_text`).
pub fn parse_decimal(text: &str) -> (r: Option<Decimal>)
    ensures
        r == decimal_of_text(text@),
        r matches Some(d) ==> d.wf(),
{
    let cs = chars_of(text);
    let n = cs.len();
    let negative = n > 0 && cs[0] == '-';
    let start: usize = if negative { 1 } else { 0 };
    let ghost s = text@;
    let ghost body = if negative { s.drop_first() } else { s };
    assert(body =~= cs@.subrange(start as int, n as int));
    let e = find_char(&cs, start, n, 'e', 'E');
    let ghost mant = body.subrange(0, e - start);
    assert(mant =~= cs@.subrange(start as int, e as int));
    let p = find_char(&cs, start, e, '.', '.');
    let ghost whole = mantissa_parts(mant).0;
    let ghost frac = mantissa_parts(mant).1;
    assert(whole =~= cs@.subrange(start as int, p as int));
    let frac_start = if p < e { p + 1 } else { e };
    assert(frac =~= cs@.subrange(frac_start as int, e as int));
    let whole_ok = scan_digits(&cs, start, p);
    let frac_ok = scan_digits(&cs, frac_start, e);
    let count = (p - start) + (e - frac_start);
    if !whole_ok || !frac_ok || count < 1 || count > MAX_DIGITS {
        return None;
    }
    let exp_value: i64 = if e < n {
        assert(body.subrange(e - start + 1, body.len() as int) =~= cs@.subrange(e + 1, n as int));
        match read_exponent(&cs, e + 1) {
            Some(v) => v,
            None => {
                return None;
            },
        }
    } else {
        0
    };
    let ds = join_chars(slice_chars(&cs, start, p), &slice_chars(&cs, frac_start, e));
    proof {
        assert(ds@ =~= whole + frac);
        lemma_digits_bound(ds@);
        lemma_pow10_mono(ds@.len(), 36);
        lemma_pow10_36();
    }
    let value = digits_number(&ds);
    let (m, f) = strip(value, exp_value - (e - frac_start) as i64);
    build_decimal(negative, m, f)
}

} // verus!
