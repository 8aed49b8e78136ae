//! Integer and floating-point literals: reading them from text, and writing
//! natural numbers in decimal.
use vstd::prelude::*;
use vstd::string::*;

verus! {

pub open spec fn is_digit(c: char) -> bool {
    '0' <= c && c <= '9'
}

pub open spec fn digit_value(c: char) -> int {
    (c as u32) as int - ('0' as u32) as int
}

/// One or more decimal digits and nothing else.
pub open spec fn digits_only(s: Seq<char>) -> bool {
    s.len() > 0 && forall|i: int| 0 <= i < s.len() ==> is_digit(#[trigger] s[i])
}

/// The number that a string of decimal digits spells.
pub open spec fn digits_value(s: Seq<char>) -> int
    decreases s.len(),
{
    if s.len() == 0 {
        0
    } else {
        digits_value(s.drop_last()) * 10 + digit_value(s.last())
    }
}

/// The integer that `s` spells in Rust's integer syntax: an optional `+`
/// sign (or `-`, where `signed`), then one or more decimal digits.
pub open spec fn int_value(s: Seq<char>, signed: bool) -> Option<int> {
    if s.len() > 0 && s[0] == '-' && signed && digits_only(s.drop_first()) {
        Some(-digits_value(s.drop_first()))
    } else if s.len() > 0 && s[0] == '+' && digits_only(s.drop_first()) {
        Some(digits_value(s.drop_first()))
    } else if digits_only(s) {
        Some(digits_value(s))
    } else {
        None
    }
}

/// `int_value`, where the value lies in `[lo, hi]`; `None` otherwise, as
/// for a value that overflows the target integer type.
pub open spec fn int_within(s: Seq<char>, signed: bool, lo: int, hi: int) -> Option<int> {
    match int_value(s, signed) {
        Some(v) => if lo <= v && v <= hi {
            Some(v)
        } else {
            None
        },
        None => None,
    }
}

proof fn lemma_digits_value_nonneg(s: Seq<char>)
    requires
        forall|i: int| 0 <= i < s.len() ==> is_digit(#[trigger] s[i]),
    ensures
        digits_value(s) >= 0,
    decreases s.len(),
{
    if s.len() > 0 {
        assert(is_digit(s[s.len() - 1]));
        lemma_digits_value_nonneg(s.drop_last());
    }
}

proof fn lemma_digits_value_prefix(s: Seq<char>, k: int)
    requires
        0 <= k <= s.len(),
        forall|i: int| 0 <= i < s.len() ==> is_digit(#[trigger] s[i]),
    ensures
        digits_value(s.subrange(0, k)) <= digits_value(s),
    decreases s.len(),
{
    if k < s.len() {
        let t = s.drop_last();
        assert(t.subrange(0, k) =~= s.subrange(0, k));
        lemma_digits_value_prefix(t, k);
        lemma_digits_value_nonneg(t);
        assert(is_digit(s[s.len() - 1]));
    } else {
        assert(s.subrange(0, k) =~= s);
    }
}

/// Reads `s` from index `start` on as decimal digits, when they all are
/// digits and their value is at most `limit`.
fn digits_at_most(s: &str, start: usize, limit: u64) -> (r: Option<u64>)
    requires
        start <= s@.len(),
    ensures
        ({
            let t = s@.subrange(start as int, s@.len() as int);
            match r {
                Some(v) => digits_only(t) && digits_value(t) == v as int && v <= limit,
                None => !(digits_only(t) && digits_value(t) <= limit as int),
            }
        }),
{
    let n = s.unicode_len();
    if start >= n {
        return None;
    }
    let ghost t = s@.subrange(start as int, n as int);
    let mut acc: u64 = 0;
    let mut i: usize = start;
    while i < n
        invariant
            n == s@.len(),
            start < n,
            start <= i <= n,
            t == s@.subrange(start as int, n as int),
            forall|j: int| 0 <= j < i - start ==> is_digit(#[trigger] t[j]),
            acc as int == digits_value(t.subrange(0, i - start)),
            acc <= limit,
        decreases n - i,
    {
        let c = s.get_char(i);
        if c < '0' || c > '9' {
            assert(!is_digit(t[i - start]));
            return None;
        }
        let d = (c as u32 - '0' as u32) as u64;
        proof {
            let p = t.subrange(0, i - start + 1);
            assert(p.drop_last() =~= t.subrange(0, i - start));
            assert(p.last() == c);
        }
        if d > limit || acc > (limit - d) / 10 {
            proof {
                assert(acc * 10 + d > limit) by (nonlinear_arith)
                    requires
                        d > limit || acc > (limit - d) / 10,
                ;
                if digits_only(t) {
                    lemma_digits_value_prefix(t, i - start + 1);
                }
            }
            return None;
        }
        proof {
            assert(acc * 10 + d <= limit) by (nonlinear_arith)
                requires
                    acc <= (limit - d) / 10,
                    d <= limit,
            ;
        }
        acc = acc * 10 + d;
        i += 1;
    }
    assert(t.subrange(0, n - start) =~= t);
    Some(acc)
}

/// Reads an unsigned integer in Rust's syntax, at most `max`.
pub fn parse_uint(s: &str, max: u64) -> (r: Option<u64>)
    ensures
        match int_within(s@, false, 0, max as int) {
            Some(v) => r == Some(v as u64),
            None => r is None,
        },
{
    let n = s.unicode_len();
    if n > 0 && s.get_char(0) == '+' {
        let r = digits_at_most(s, 1, max);
        proof {
            assert(s@.subrange(1, n as int) =~= s@.drop_first());
            if digits_only(s@.drop_first()) {
                lemma_digits_value_nonneg(s@.drop_first());
                assert(int_value(s@, false) == Some(digits_value(s@.drop_first())));
            } else {
                assert(int_value(s@, false) is None);
            }
        }
        r
    } else {
        let r = digits_at_most(s, 0, max);
        proof {
            assert(s@.subrange(0, n as int) =~= s@);
            if digits_only(s@) {
                lemma_digits_value_nonneg(s@);
                assert(int_value(s@, false) == Some(digits_value(s@)));
            } else {
                assert(int_value(s@, false) is None);
            }
        }
        r
    }
}

/// Reads a signed integer in Rust's syntax, within `[lo, hi]`.
pub fn parse_int(s: &str, lo: i64, hi: i64) -> (r: Option<i64>)
    requires
        lo <= 0 <= hi,
    ensures
        match int_within(s@, true, lo as int, hi as int) {
            Some(v) => r == Some(v as i64),
            None => r is None,
        },
{
    let n = s.unicode_len();
    if n > 0 && s.get_char(0) == '-' {
        let mag: u64 = if lo == i64::MIN {
            9223372036854775808u64
        } else {
            (-lo) as u64
        };
        let r = digits_at_most(s, 1, mag);
        proof {
            assert(s@.subrange(1, n as int) =~= s@.drop_first());
            if digits_only(s@.drop_first()) {
                lemma_digits_value_nonneg(s@.drop_first());
            }
        }
        match r {
            Some(m) => {
                if m == 9223372036854775808u64 {
                    Some(i64::MIN)
                } else {
                    Some(-(m as i64))
                }
            },
            None => None,
        }
    } else if n > 0 && s.get_char(0) == '+' {
        let r = digits_at_most(s, 1, hi as u64);
        proof {
            assert(s@.subrange(1, n as int) =~= s@.drop_first());
            if digits_only(s@.drop_first()) {
                lemma_digits_value_nonneg(s@.drop_first());
            }
        }
        match r {
            Some(m) => Some(m as i64),
            None => None,
        }
    } else {
        let r = digits_at_most(s, 0, hi as u64);
        proof {
            assert(s@.subrange(0, n as int) =~= s@);
            if digits_only(s@) {
                lemma_digits_value_nonneg(s@);
            }
        }
        match r {
            Some(m) => Some(m as i64),
            None => None,
        }
    }
}

/// Length of the sign that opens a number, if any.
pub open spec fn sign_len(s: Seq<char>) -> int {
    if s.len() > 0 && (s[0] == '+' || s[0] == '-') {
        1
    } else {
        0
    }
}

/// A number without its sign.
pub open spec fn unsigned_part(s: Seq<char>) -> Seq<char> {
    s.subrange(sign_len(s), s.len() as int)
}

/// `c` is the lowercase ASCII letter `w`, in either case.
pub open spec fn ci_eq(c: char, w: char) -> bool {
    c == w || ('A' <= c && c <= 'Z' && (c as u32) + 32 == (w as u32))
}

/// `t` spells the lowercase word `w`, letters in any case.
pub open spec fn word_ci(t: Seq<char>, w: Seq<char>) -> bool {
    t.len() == w.len() && forall|i: int| 0 <= i < t.len() ==> ci_eq(#[trigger] t[i], w[i])
}

/// The words for infinity and not-a-number.
pub open spec fn is_special(b: Seq<char>) -> bool {
    word_ci(b, "inf"@) || word_ci(b, "infinity"@) || word_ci(b, "nan"@)
}

/// Index of the first character of `b` that satisfies `p`, or the length.
pub open spec fn first_where(b: Seq<char>, p: spec_fn(char) -> bool) -> int
    decreases b.len(),
{
    if b.len() == 0 {
        0
    } else if p(b[0]) {
        0
    } else {
        1 + first_where(b.drop_first(), p)
    }
}

pub proof fn lemma_first_where(b: Seq<char>, p: spec_fn(char) -> bool, i: int)
    requires
        0 <= i <= b.len(),
        forall|j: int| 0 <= j < i ==> !p(#[trigger] b[j]),
        i == b.len() || p(b[i]),
    ensures
        first_where(b, p) == i,
    decreases b.len(),
{
    if b.len() > 0 && i > 0 {
        assert(!p(b[0]));
        let t = b.drop_first();
        assert forall|j: int| 0 <= j < i - 1 implies !p(#[trigger] t[j]) by {
            assert(t[j] == b[j + 1]);
        }
        lemma_first_where(t, p, i - 1);
    }
}

/// Index of the first decimal point, or the length.
pub open spec fn point_pos(m: Seq<char>) -> int {
    first_where(m, |c: char| c == '.')
}

/// Index of the exponent mark `e` or `E`, or the length.
pub open spec fn exp_pos(b: Seq<char>) -> int {
    first_where(b, |c: char| c == 'e' || c == 'E')
}

/// Index of the first non-zero digit, or the length.
pub open spec fn first_nonzero(m: Seq<char>) -> int {
    first_where(m, |c: char| '1' <= c && c <= '9')
}

/// The digits of a number before its exponent.
pub open spec fn mantissa(b: Seq<char>) -> Seq<char> {
    b.subrange(0, exp_pos(b))
}

/// Digits with at most one decimal point, at least one digit.
pub open spec fn is_mantissa(m: Seq<char>) -> bool {
    &&& forall|i: int| 0 <= i < m.len() ==> is_digit(#[trigger] m[i]) || m[i] == '.'
    &&& forall|i: int, j: int| 0 <= i < j < m.len() && #[trigger] m[i] == '.' ==> #[trigger] m[j] != '.'
    &&& exists|i: int| 0 <= i < m.len() && is_digit(#[trigger] m[i])
}

/// The exponent of a number: 0 without one; `None` where what follows the
/// mark is not an optionally signed integer.
pub open spec fn exponent(b: Seq<char>) -> Option<int> {
    if exp_pos(b) >= b.len() {
        Some(0)
    } else {
        int_value(b.subrange(exp_pos(b) + 1, b.len() as int), true)
    }
}

/// A floating-point literal in Rust's syntax: an optional sign, then `inf`,
/// `infinity` or `nan` in any case, or digits with at most one decimal point
/// and an optional exponent (`1`, `-0.5`, `.25`, `3.`, `5e-1`, `2E+3`).
pub open spec fn is_float(s: Seq<char>) -> bool {
    let b = unsigned_part(s);
    is_special(b) || (is_mantissa(mantissa(b)) && exponent(b) is Some)
}

/// Every digit of `t` is zero.
pub open spec fn zero_digits(t: Seq<char>) -> bool {
    forall|i: int| 0 <= i < t.len() ==> #[trigger] t[i] == '0' || t[i] == '.'
}

/// The value of a floating-point literal, taken exactly, lies in `[0, 1]`.
/// With `q` its first non-zero digit, the value lies in
/// `[10^(o - 1), 10^o)` for `o` the count of digits from `q` to the point
/// plus the exponent; it is at most 1 where `o <= 0`, or where `o == 1`
/// and the digits are a one followed by zeros. Infinity and not-a-number
/// lie outside.
pub open spec fn in_unit_interval(s: Seq<char>) -> bool {
    let b = unsigned_part(s);
    let m = mantissa(b);
    let p = point_pos(m);
    let q = first_nonzero(m);
    if is_special(b) {
        false
    } else if q >= m.len() {
        true
    } else if s.len() > 0 && s[0] == '-' {
        false
    } else {
        let order = if q < p {
            p - q
        } else {
            p - q + 1
        };
        let o = order + exponent(b)->0;
        o <= 0 || (o == 1 && m[q] == '1' && zero_digits(m.subrange(q + 1, m.len() as int)))
    }
}

/// How a floating-point literal stands to the unit interval.
pub enum UnitReading {
    /// Not a floating-point literal.
    Malformed,
    /// A literal whose value lies outside `[0, 1]`.
    OutOfRange,
    /// A literal whose value lies within `[0, 1]`.
    Within,
}

pub open spec fn unit_reading(s: Seq<char>) -> UnitReading {
    if !is_float(s) {
        UnitReading::Malformed
    } else if in_unit_interval(s) {
        UnitReading::Within
    } else {
        UnitReading::OutOfRange
    }
}

/// Whether every digit of `s[from..to]` is zero.
fn zero_digits_in(s: &str, from: usize, to: usize) -> (r: bool)
    requires
        from <= to <= s@.len(),
    ensures
        r == zero_digits(s@.subrange(from as int, to as int)),
{
    let mut i: usize = from;
    while i < to
        invariant
            from <= i <= to <= s@.len(),
            forall|j: int| from <= j < i ==> s@[j] == '0' || s@[j] == '.',
        decreases to - i,
    {
        let c = s.get_char(i);
        if c != '0' && c != '.' {
            assert(s@.subrange(from as int, to as int)[i - from] == c);
            return false;
        }
        i += 1;
    }
    assert forall|k: int| 0 <= k < to - from implies #[trigger] s@.subrange(
        from as int,
        to as int,
    )[k] == '0' || s@.subrange(from as int, to as int)[k] == '.' by {
        assert(s@.subrange(from as int, to as int)[k] == s@[from + k]);
    }
    true
}

/// Whether `s[from..]` spells the lowercase word `w` in any case.
fn word_ci_at(s: &str, from: usize, w: &str) -> (r: bool)
    requires
        from <= s@.len(),
    ensures
        r == word_ci(s@.subrange(from as int, s@.len() as int), w@),
{
    let n = s.unicode_len();
    let k = w.unicode_len();
    if n - from != k {
        return false;
    }
    let ghost t = s@.subrange(from as int, n as int);
    let mut i: usize = 0;
    while i < k
        invariant
            n == s@.len(),
            k == w@.len(),
            n - from == k,
            t == s@.subrange(from as int, n as int),
            i <= k,
            forall|j: int| 0 <= j < i ==> ci_eq(#[trigger] t[j], w@[j]),
        decreases k - i,
    {
        let c = s.get_char(from + i);
        let d = w.get_char(i);
        assert(t[i as int] == c);
        if !(c == d || ('A' <= c && c <= 'Z' && (c as u32) + 32 == (d as u32))) {
            return false;
        }
        i += 1;
    }
    true
}

/// Whether `s[from..to]` is one or more decimal digits.
fn digits_in(s: &str, from: usize, to: usize) -> (r: bool)
    requires
        from <= to <= s@.len(),
    ensures
        r == digits_only(s@.subrange(from as int, to as int)),
{
    if from == to {
        return false;
    }
    let ghost t = s@.subrange(from as int, to as int);
    let mut i: usize = from;
    while i < to
        invariant
            from <= i <= to <= s@.len(),
            t == s@.subrange(from as int, to as int),
            forall|j: int| 0 <= j < i - from ==> is_digit(#[trigger] t[j]),
        decreases to - i,
    {
        let c = s.get_char(i);
        assert(t[i - from] == c);
        if !('0' <= c && c <= '9') {
            return false;
        }
        i += 1;
    }
    true
}

/// The exponent after the mark at `from - 1`: its sign, and its magnitude
/// where that fits a `u64`; `None` where it is not an integer.
fn read_exponent(s: &str, from: usize) -> (r: Option<(bool, Option<u64>)>)
    requires
        from <= s@.len(),
    ensures
        ({
            let x = s@.subrange(from as int, s@.len() as int);
            match r {
                None => int_value(x, true) is None,
                Some((neg, Some(m))) => int_value(x, true) == Some(if neg {
                    -(m as int)
                } else {
                    m as int
                }),
                Some((neg, None)) => int_value(x, true) is Some && (if neg {
                    int_value(x, true)->0 < -(u64::MAX as int)
                } else {
                    int_value(x, true)->0 > u64::MAX as int
                }),
            }
        }),
{
    let n = s.unicode_len();
    let ghost x = s@.subrange(from as int, n as int);
    let signed = from < n && (s.get_char(from) == '+' || s.get_char(from) == '-');
    let neg = from < n && s.get_char(from) == '-';
    let d: usize = if signed {
        from + 1
    } else {
        from
    };
    proof {
        if signed {
            assert(s@.subrange(d as int, n as int) =~= x.drop_first());
        } else {
            assert(s@.subrange(d as int, n as int) =~= x);
        }
    }
    if !digits_in(s, d, n) {
        return None;
    }
    proof {
        lemma_digits_value_nonneg(s@.subrange(d as int, n as int));
    }
    match digits_at_most(s, d, u64::MAX) {
        Some(m) => Some((neg, Some(m))),
        None => Some((neg, None)),
    }
}

/// The first index in `s[from..to]` holding `e` or `E`, or `to`.
fn exp_mark(s: &str, from: usize, to: usize) -> (r: usize)
    requires
        from <= to <= s@.len(),
    ensures
        from <= r <= to,
        forall|j: int| from <= j < r ==> !(#[trigger] s@[j] == 'e' || s@[j] == 'E'),
        r == to || s@[r as int] == 'e' || s@[r as int] == 'E',
{
    let mut i: usize = from;
    while i < to
        invariant
            from <= i <= to <= s@.len(),
            forall|j: int| from <= j < i ==> !(#[trigger] s@[j] == 'e' || s@[j] == 'E'),
        decreases to - i,
    {
        let c = s.get_char(i);
        if c == 'e' || c == 'E' {
            return i;
        }
        i += 1;
    }
    to
}

/// The first index in `s[from..to]` holding a non-zero digit, or `to`.
fn nonzero_digit(s: &str, from: usize, to: usize) -> (r: usize)
    requires
        from <= to <= s@.len(),
    ensures
        from <= r <= to,
        forall|j: int| from <= j < r ==> !('1' <= #[trigger] s@[j] && s@[j] <= '9'),
        r == to || ('1' <= s@[r as int] && s@[r as int] <= '9'),
{
    let mut i: usize = from;
    while i < to
        invariant
            from <= i <= to <= s@.len(),
            forall|j: int| from <= j < i ==> !('1' <= #[trigger] s@[j] && s@[j] <= '9'),
        decreases to - i,
    {
        let c = s.get_char(i);
        if '1' <= c && c <= '9' {
            return i;
        }
        i += 1;
    }
    to
}

/// The decimal point of the mantissa `s[start..ep]` (`ep` where there is
/// none), where that is digits with at most one point and some digit.
fn mantissa_point(s: &str, start: usize, ep: usize) -> (r: Option<usize>)
    requires
        start <= ep <= s@.len(),
    ensures
        ({
            let m = s@.subrange(start as int, ep as int);
            match r {
                Some(p) => is_mantissa(m) && start <= p <= ep && p - start == point_pos(m) && (p
                    < ep ==> s@[p as int] == '.'),
                None => !is_mantissa(m),
            }
        }),
{
    let ghost m = s@.subrange(start as int, ep as int);
    let mut point: usize = ep;
    let mut seen_digit = false;
    let mut i: usize = start;
    while i < ep
        invariant
            start <= i <= ep <= s@.len(),
            m == s@.subrange(start as int, ep as int),
            forall|j: int| 0 <= j < i - start ==> is_digit(#[trigger] m[j]) || m[j] == '.',
            point == ep ==> forall|j: int| 0 <= j < i - start ==> #[trigger] m[j] != '.',
            point < ep ==> start <= point < i && m[point - start] == '.' && forall|j: int|
                0 <= j < i - start && j != point - start ==> #[trigger] m[j] != '.',
            point <= ep,
            seen_digit ==> exists|j: int| 0 <= j < i - start && is_digit(#[trigger] m[j]),
            !seen_digit ==> forall|j: int| 0 <= j < i - start ==> !is_digit(#[trigger] m[j]),
        decreases ep - i,
    {
        let c = s.get_char(i);
        assert(m[i - start] == c);
        if c == '.' {
            if point < ep {
                assert(m[point - start] == '.' && m[i - start] == '.');
                return None;
            }
            point = i;
        } else if '0' <= c && c <= '9' {
            seen_digit = true;
        } else {
            return None;
        }
        i += 1;
    }
    if !seen_digit {
        return None;
    }
    proof {
        lemma_first_where(m, |c: char| c == '.', point - start);
        if point < ep {
            assert(s@[point as int] == m[point - start]);
        }
    }
    Some(point)
}

/// Classifies `s` as a floating-point literal inside or outside `[0, 1]`.
#[verifier::rlimit(50)]
pub fn read_unit_fraction(s: &str) -> (r: UnitReading)
    ensures
        r == unit_reading(s@),
{
    let n = s.unicode_len();
    assert(n as int <= u64::MAX as int);
    let start: usize = if n > 0 && (s.get_char(0) == '+' || s.get_char(0) == '-') {
        1
    } else {
        0
    };
    let negative = n > 0 && s.get_char(0) == '-';
    let ghost b = unsigned_part(s@);
    assert(start as int == sign_len(s@));
    assert(b =~= s@.subrange(start as int, n as int));
    if word_ci_at(s, start, "inf") || word_ci_at(s, start, "infinity") || word_ci_at(s, start, "nan") {
        return UnitReading::OutOfRange;
    }
    // the exponent mark
    let ep = exp_mark(s, start, n);
    let has_exp = ep < n;
    proof {
        assert forall|j: int| 0 <= j < ep - start implies !((#[trigger] b[j]) == 'e' || b[j] == 'E') by {
            assert(b[j] == s@[start + j]);
        }
        if has_exp {
            assert(b[ep - start] == s@[ep as int]);
        }
        lemma_first_where(b, |c: char| c == 'e' || c == 'E', ep - start);
    }
    let ghost m = mantissa(b);
    assert(m =~= s@.subrange(start as int, ep as int));
    // the mantissa
    let point = match mantissa_point(s, start, ep) {
        Some(p) => p,
        None => {
            return UnitReading::Malformed;
        },
    };
    // the exponent
    let exp: Option<(bool, Option<u64>)> = if has_exp {
        proof {
            assert(b.subrange(ep - start + 1, b.len() as int) =~= s@.subrange(ep + 1, n as int));
        }
        read_exponent(s, ep + 1)
    } else {
        Some((false, Some(0)))
    };
    let (eneg, emag) = match exp {
        None => {
            return UnitReading::Malformed;
        },
        Some(x) => x,
    };
    assert(is_float(s@));
    // the first non-zero digit
    let q = nonzero_digit(s, start, ep);
    let found = q < ep;
    proof {
        assert forall|j: int| 0 <= j < q - start implies !('1' <= #[trigger] m[j] && m[j] <= '9') by {
            assert(m[j] == s@[start + j]);
        }
        if found {
            assert(m[q - start] == s@[q as int]);
        }
        lemma_first_where(m, |c: char| '1' <= c && c <= '9', q - start);
    }
    if !found {
        return UnitReading::Within;
    }
    if negative {
        return UnitReading::OutOfRange;
    }
    proof {
        if point < ep {
            assert(m[point - start] == s@[point as int]);
        }
    }
    let order: i128 = if q < point {
        point as i128 - q as i128
    } else {
        point as i128 - q as i128 + 1
    };
    let e: i128 = match emag {
        Some(v) => if eneg {
            -(v as i128)
        } else {
            v as i128
        },
        None => {
            if eneg {
                return UnitReading::Within;
            } else {
                return UnitReading::OutOfRange;
            }
        },
    };
    let o = order + e;
    proof {
        assert(s@.subrange(q + 1, ep as int) =~= m.subrange(q - start + 1, m.len() as int));
    }
    if o <= 0 {
        UnitReading::Within
    } else if o == 1 && s.get_char(q) == '1' && zero_digits_in(s, q + 1, ep) {
        UnitReading::Within
    } else {
        UnitReading::OutOfRange
    }
}

/// The decimal digit character for `d < 10`.
pub open spec fn digit_char(d: nat) -> char {
    ((d + '0' as u32) as u32) as char
}

/// A natural number written in decimal, without leading zeros.
pub open spec fn decimal_of(n: nat) -> Seq<char>
    decreases n,
{
    if n < 10 {
        seq![digit_char(n)]
    } else {
        decimal_of(n / 10).push(digit_char(n % 10))
    }
}

fn digit_text(d: u64) -> (r: &'static str)
    requires
        d < 10,
    ensures
        r@ == seq![digit_char(d as nat)],
{
    proof {
        reveal_strlit("0");
        reveal_strlit("1");
        reveal_strlit("2");
        reveal_strlit("3");
        reveal_strlit("4");
        reveal_strlit("5");
        reveal_strlit("6");
        reveal_strlit("7");
        reveal_strlit("8");
        reveal_strlit("9");
    }
    if d == 0 {
        "0"
    } else if d == 1 {
        "1"
    } else if d == 2 {
        "2"
    } else if d == 3 {
        "3"
    } else if d == 4 {
        "4"
    } else if d == 5 {
        "5"
    } else if d == 6 {
        "6"
    } else if d == 7 {
        "7"
    } else if d == 8 {
        "8"
    } else {
        "9"
    }
}

/// Appends the decimal form of `n` to `out`.
pub fn push_decimal(out: &mut String, n: u64)
    ensures
        final(out)@ == old(out)@ + decimal_of(n as nat),
    decreases n,
{
    if n < 10 {
        out.append(digit_text(n));
    } else {
        push_decimal(out, n / 10);
        out.append(digit_text(n % 10));
        assert(decimal_of(n as nat) == decimal_of((n / 10) as nat).push(digit_char((n % 10) as nat)));
    }
}

} // verus!
