//! Reading a temperature out of the text that the thermal sensor exposes.
//!
//! The sensor reports a decimal integer in millidegrees Celsius, possibly
//! surrounded by ASCII whitespace (usually a trailing newline).
use vstd::prelude::*;

verus! {

/// Why no temperature could be read from the sensor.
#[derive(Clone, Copy, Debug, PartialEq, Eq, Structural)]
pub enum SensorError {
    /// The sensor source could not be read at all.
    Unavailable,
    /// The text is not an optionally signed run of decimal digits.
    Malformed,
    /// The number does not fit in 64 bits.
    OutOfRange,
}

pub open spec fn is_space(b: u8) -> bool {
    b == 32 || (9 <= b && b <= 13)
}

pub open spec fn is_digit(b: u8) -> bool {
    48 <= b && b <= 57
}

/// Number of whitespace bytes at the front of `s`.
pub open spec fn leading_spaces(s: Seq<u8>) -> nat
    decreases s.len(),
{
    if s.len() > 0 && is_space(s[0]) {
        1 + leading_spaces(s.drop_first())
    } else {
        0
    }
}

/// Number of whitespace bytes at the back of `s`.
pub open spec fn trailing_spaces(s: Seq<u8>) -> nat
    decreases s.len(),
{
    if s.len() > 0 && is_space(s.last()) {
        1 + trailing_spaces(s.drop_last())
    } else {
        0
    }
}

/// `s` without its leading and trailing whitespace.
pub open spec fn trimmed(s: Seq<u8>) -> Seq<u8> {
    let front = s.subrange(leading_spaces(s) as int, s.len() as int);
    front.subrange(0, front.len() - trailing_spaces(front))
}

pub open spec fn all_digits(s: Seq<u8>) -> bool {
    forall|i: int| 0 <= i < s.len() ==> is_digit(#[trigger] s[i])
}

/// The value of a run of decimal digits, most significant first.
pub open spec fn digits_value(s: Seq<u8>) -> int
    decreases s.len(),
{
    if s.len() == 0 {
        0
    } else {
        digits_value(s.drop_last()) * 10 + (s.last() - 48)
    }
}

pub open spec fn has_sign(t: Seq<u8>) -> bool {
    t.len() > 0 && (t[0] == 45 || t[0] == 43)
}

/// The digits of a numeral: what follows its sign, if it has one.
pub open spec fn numeral_digits(t: Seq<u8>) -> Seq<u8> {
    if has_sign(t) {
        t.drop_first()
    } else {
        t
    }
}

/// An optional `+` or `-` followed by at least one decimal digit.
pub open spec fn is_numeral(t: Seq<u8>) -> bool {
    numeral_digits(t).len() > 0 && all_digits(numeral_digits(t))
}

pub open spec fn numeral_value(t: Seq<u8>) -> int {
    if t.len() > 0 && t[0] == 45 {
        -digits_value(numeral_digits(t))
    } else {
        digits_value(numeral_digits(t))
    }
}

pub open spec fn fits_i64(v: int) -> bool {
    i64::MIN <= v && v <= i64::MAX
}

/// What reading the sensor text `s` gives.
pub open spec fn parse_spec(s: Seq<u8>) -> Result<i64, SensorError> {
    let t = trimmed(s);
    if !is_numeral(t) {
        Err(SensorError::Malformed)
    } else if !fits_i64(numeral_value(t)) {
        Err(SensorError::OutOfRange)
    } else {
        Ok(numeral_value(t) as i64)
    }
}

proof fn lemma_leading_spaces(s: Seq<u8>, i: int)
    requires
        0 <= i <= s.len(),
        forall|k: int| 0 <= k < i ==> is_space(#[trigger] s[k]),
        i == s.len() || !is_space(s[i]),
    ensures
        leading_spaces(s) == i,
    decreases i,
{
    if i > 0 {
        lemma_leading_spaces(s.drop_first(), i - 1);
    }
}

proof fn lemma_trailing_spaces(s: Seq<u8>, j: int)
    requires
        0 <= j <= s.len(),
        forall|k: int| j <= k < s.len() ==> is_space(#[trigger] s[k]),
        j == 0 || !is_space(s[j - 1]),
    ensures
        trailing_spaces(s) == s.len() - j,
    decreases s.len() - j,
{
    if j < s.len() {
        lemma_trailing_spaces(s.drop_last(), j);
    }
}

proof fn lemma_digits_value_step(s: Seq<u8>, k: int)
    requires
        0 <= k < s.len(),
    ensures
        digits_value(s.subrange(0, k + 1)) == digits_value(s.subrange(0, k)) * 10 + (s[k] - 48),
{
    assert(s.subrange(0, k + 1).drop_last() =~= s.subrange(0, k));
}

proof fn lemma_digits_value_grows(s: Seq<u8>, k: int, m: int)
    requires
        0 <= k <= m <= s.len(),
        all_digits(s),
    ensures
        0 <= digits_value(s.subrange(0, k)) <= digits_value(s.subrange(0, m)),
    decreases m - k,
{
    if k < m {
        lemma_digits_value_grows(s, k, m - 1);
        lemma_digits_value_step(s, m - 1);
    } else {
        lemma_digits_value_nonneg(s.subrange(0, k));
    }
}

proof fn lemma_digits_value_nonneg(s: Seq<u8>)
    requires
        all_digits(s),
    ensures
        digits_value(s) >= 0,
    decreases s.len(),
{
    if s.len() > 0 {
        lemma_digits_value_nonneg(s.drop_last());
    }
}

/// Largest magnitude of a 64-bit signed integer.
const MAGNITUDE_LIMIT: u64 = 9223372036854775808;

/// Reads a temperature in millidegrees Celsius from the sensor's text.
pub fn parse_millidegrees(text: &[u8]) -> (r: Result<i64, SensorError>)
    ensures
        r == parse_spec(text@),
{
    let ghost s = text@;
    let n = text.len();
    let mut start: usize = 0;
    while start < n && (text[start] == 32 || (9 <= text[start] && text[start] <= 13))
        invariant
            start <= n == s.len(),
            s == text@,
            forall|k: int| 0 <= k < start ==> is_space(#[trigger] s[k]),
        decreases n - start,
    {
        start = start + 1;
    }
    proof {
        lemma_leading_spaces(s, start as int);
    }
    let ghost front = s.subrange(start as int, n as int);
    let mut end: usize = n;
    while end > start && (text[end - 1] == 32 || (9 <= text[end - 1] && text[end - 1] <= 13))
        invariant
            start <= end <= n == s.len(),
            s == text@,
            front == s.subrange(start as int, n as int),
            forall|k: int| end <= k < n ==> is_space(#[trigger] s[k]),
        decreases end,
    {
        end = end - 1;
    }
    proof {
        assert forall|k: int| end - start <= k < front.len() implies is_space(#[trigger] front[k]) by {
            assert(front[k] == s[k + start]);
        }
        lemma_trailing_spaces(front, end - start);
    }
    let ghost t = s.subrange(start as int, end as int);
    assert(t =~= trimmed(s));
    if start == end {
        return Err(SensorError::Malformed);
    }
    let negative = text[start] == 45;
    let first: usize = if text[start] == 45 || text[start] == 43 {
        start + 1
    } else {
        start
    };
    let ghost d = s.subrange(first as int, end as int);
    assert(d =~= numeral_digits(t));
    if first == end {
        return Err(SensorError::Malformed);
    }
    let mut i: usize = first;
    while i < end
        invariant
            first <= i <= end <= n == s.len(),
            s == text@,
            d == s.subrange(first as int, end as int),
            d == numeral_digits(trimmed(s)),
            negative == (trimmed(s)[0] == 45),
            trimmed(s).len() > 0,
            forall|k: int| 0 <= k < i - first ==> is_digit(#[trigger] d[k]),
        decreases end - i,
    {
        if !(48 <= text[i] && text[i] <= 57) {
            assert(!is_digit(d[i - first]));
            return Err(SensorError::Malformed);
        }
        i = i + 1;
    }
    assert(all_digits(d));
    let mut magnitude: u64 = 0;
    let mut i: usize = first;
    while i < end
        invariant
            first <= i <= end <= n == s.len(),
            s == text@,
            d == s.subrange(first as int, end as int),
            d == numeral_digits(trimmed(s)),
            negative == (trimmed(s)[0] == 45),
            trimmed(s).len() > 0,
            all_digits(d),
            magnitude as int == digits_value(d.subrange(0, i - first)),
            magnitude <= MAGNITUDE_LIMIT,
        decreases end - i,
    {
        proof {
            assert(d[i - first] == text[i as int]);
            lemma_digits_value_step(d, i - first);
        }
        let digit = (text[i] - 48) as u64;
        if magnitude > (MAGNITUDE_LIMIT - digit) / 10 {
            proof {
                assert(magnitude * 10 + digit > MAGNITUDE_LIMIT) by (nonlinear_arith)
                    requires
                        magnitude > (MAGNITUDE_LIMIT - digit) / 10,
                        digit <= 9,
                ;
                lemma_digits_value_grows(d, i - first + 1, d.len() as int);
                assert(d.subrange(0, d.len() as int) =~= d);
            }
            return Err(SensorError::OutOfRange);
        }
        proof {
            assert(magnitude * 10 + digit <= MAGNITUDE_LIMIT) by (nonlinear_arith)
                requires
                    magnitude <= (MAGNITUDE_LIMIT - digit) / 10,
                    digit <= 9,
            ;
        }
        magnitude = magnitude * 10 + digit;
        i = i + 1;
    }
    assert(d.subrange(0, d.len() as int) =~= d);
    if negative {
        if magnitude == MAGNITUDE_LIMIT {
            Ok(i64::MIN)
        } else {
            Ok(-(magnitude as i64))
        }
    } else if magnitude == MAGNITUDE_LIMIT {
        Err(SensorError::OutOfRange)
    } else {
        Ok(magnitude as i64)
    }
}

} // verus!
