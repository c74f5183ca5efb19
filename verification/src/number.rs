//! The numbers of the control grammar: whole seconds and decimal literals.

use vstd::prelude::*;
use vstd::slice::slice_subrange;

verus! {

/// Why a word is no number of the kind asked for.
#[derive(Clone, Copy, Debug, PartialEq, Eq, Structural)]
pub enum NumberError {
    /// The word is not written as such a number.
    Malformed,
    /// The number does not fit in 64 bits.
    OutOfRange,
}

/// Whether `c` is one of the digits `0` to `9`.
pub open spec fn is_digit(c: char) -> bool {
    0x30 <= c as u32 <= 0x39
}

/// The number that the digit `c` stands for.
pub open spec fn digit_value(c: char) -> nat {
    (c as u32 - 0x30) as nat
}

/// Whether `c` is `+` or `-`.
pub open spec fn is_sign(c: char) -> bool {
    c == '+' || c == '-'
}

/// Whether `s` holds digits and nothing else.
pub open spec fn all_digits(s: Seq<char>) -> bool {
    forall|i: int| 0 <= i < s.len() ==> is_digit(#[trigger] s[i])
}

/// The number that a run of decimal digits writes.
pub open spec fn decimal_value(s: Seq<char>) -> nat
    decreases s.len(),
{
    if s.len() == 0 {
        0
    } else {
        10 * decimal_value(s.drop_last()) + digit_value(s.last())
    }
}

/// `s` without a leading `+`.
pub open spec fn without_plus(s: Seq<char>) -> Seq<char> {
    if s.len() > 0 && s[0] == '+' {
        s.subrange(1, s.len() as int)
    } else {
        s
    }
}

/// `s` without a leading `+` or `-`.
pub open spec fn without_sign(s: Seq<char>) -> Seq<char> {
    if s.len() > 0 && is_sign(s[0]) {
        s.subrange(1, s.len() as int)
    } else {
        s
    }
}

/// An unsigned whole number: an optional `+`, then one digit or more.
pub open spec fn is_unsigned_literal(s: Seq<char>) -> bool {
    without_plus(s).len() > 0 && all_digits(without_plus(s))
}

/// What an unsigned whole number of 64 bits reads as.
pub open spec fn unsigned_value(s: Seq<char>) -> Result<u64, NumberError> {
    if !is_unsigned_literal(s) {
        Err(NumberError::Malformed)
    } else if decimal_value(without_plus(s)) > u64::MAX {
        Err(NumberError::OutOfRange)
    } else {
        Ok(decimal_value(without_plus(s)) as u64)
    }
}

/// First position at or after `from` that holds no digit, or the length.
pub open spec fn digits_end(s: Seq<char>, from: int) -> int
    decreases s.len() - from,
{
    if 0 <= from < s.len() && is_digit(s[from]) {
        digits_end(s, from + 1)
    } else {
        from
    }
}

/// The lower-case form of an ASCII letter; any other character is itself.
pub open spec fn lower(c: char) -> char {
    if 0x41 <= c as u32 <= 0x5a {
        ((c as u32 + 0x20) as u8) as char
    } else {
        c
    }
}

/// Whether `s` spells the lower-case `word`, whatever the case of its letters.
pub open spec fn spells(s: Seq<char>, word: Seq<char>) -> bool {
    s.len() == word.len() && forall|i: int| 0 <= i < s.len() ==> lower(#[trigger] s[i]) == word[i]
}

/// The names of the values that are no numbers.
pub open spec fn is_special_value(s: Seq<char>) -> bool {
    ||| spells(s, seq!['i', 'n', 'f'])
    ||| spells(s, seq!['i', 'n', 'f', 'i', 'n', 'i', 't', 'y'])
    ||| spells(s, seq!['n', 'a', 'n'])
}

/// An exponent behind its `e`: an optional sign, then one digit or more.
pub open spec fn is_exponent(s: Seq<char>) -> bool {
    without_sign(s).len() > 0 && all_digits(without_sign(s))
}

/// The digits of a decimal number: digits with at most one point among
/// them, and at least one digit before or behind it.
pub open spec fn is_mantissa(s: Seq<char>) -> bool {
    ||| s.len() > 0 && all_digits(s)
    ||| exists|p: int|
        {
            &&& 0 <= p < s.len()
            &&& #[trigger] s[p] == '.'
            &&& s.len() > 1
            &&& all_digits(s.subrange(0, p))
            &&& all_digits(s.subrange(p + 1, s.len() as int))
        }
}

/// An unsigned decimal number: its digits, then an optional exponent behind
/// an `e` in either case.
pub open spec fn is_decimal_number(s: Seq<char>) -> bool {
    ||| is_mantissa(s)
    ||| exists|e: int|
        {
            &&& 0 <= e < s.len()
            &&& (#[trigger] s[e] == 'e' || s[e] == 'E')
            &&& is_mantissa(s.subrange(0, e))
            &&& is_exponent(s.subrange(e + 1, s.len() as int))
        }
}

/// What a reader finds who goes through `s` from its start: the digits
/// before the point, the point, the digits behind it, and the exponent.
pub open spec fn reads_as_number(s: Seq<char>) -> bool {
    let whole_end = digits_end(s, 0);
    let has_point = whole_end < s.len() && s[whole_end] == '.';
    let fraction_start = if has_point { whole_end + 1 } else { whole_end };
    let fraction_end = digits_end(s, fraction_start);
    &&& whole_end + (fraction_end - fraction_start) > 0
    &&& fraction_end <= s.len()
    &&& fraction_end < s.len() ==> {
        &&& s[fraction_end] == 'e' || s[fraction_end] == 'E'
        &&& is_exponent(s.subrange(fraction_end + 1, s.len() as int))
    }
}

/// A decimal literal of a floating-point number: an optional sign, then
/// `inf`, `infinity` or `nan` in any case, or a decimal number.
pub open spec fn is_float_literal(s: Seq<char>) -> bool {
    is_special_value(without_sign(s)) || is_decimal_number(without_sign(s))
}

/// The run of digits from `from` ends within `s`, holds digits only, and no
/// digit stands behind it.
pub proof fn lemma_digits_end_bounds(s: Seq<char>, from: int)
    requires
        0 <= from <= s.len(),
    ensures
        from <= digits_end(s, from) <= s.len(),
        digits_end(s, from) < s.len() ==> !is_digit(s[digits_end(s, from)]),
        forall|k: int| from <= k < digits_end(s, from) ==> is_digit(#[trigger] s[k]),
    decreases s.len() - from,
{
    if from < s.len() && is_digit(s[from]) {
        lemma_digits_end_bounds(s, from + 1);
    }
}

/// The run of digits from `from` ends at `end` if digits lead up to `end`
/// and none stands there.
pub proof fn lemma_digits_end_at(s: Seq<char>, from: int, end: int)
    requires
        0 <= from <= end <= s.len(),
        forall|k: int| from <= k < end ==> is_digit(#[trigger] s[k]),
        end < s.len() ==> !is_digit(s[end]),
    ensures
        digits_end(s, from) == end,
    decreases end - from,
{
    if from < end {
        lemma_digits_end_at(s, from + 1, end);
    }
}

/// Going through a word from its start finds a decimal number exactly
/// where the word is one.
pub proof fn lemma_reading_finds_numbers(s: Seq<char>)
    ensures
        reads_as_number(s) == is_decimal_number(s),
{
    let n = s.len() as int;
    let whole_end = digits_end(s, 0);
    lemma_digits_end_bounds(s, 0);
    let has_point = whole_end < n && s[whole_end] == '.';
    let fraction_start = if has_point { whole_end + 1 } else { whole_end };
    lemma_digits_end_bounds(s, fraction_start);
    let fraction_end = digits_end(s, fraction_start);
    if reads_as_number(s) {
        let m = s.subrange(0, fraction_end);
        assert(is_mantissa(m)) by {
            if has_point {
                assert(m[whole_end] == '.');
                assert(all_digits(m.subrange(0, whole_end)));
                assert(all_digits(m.subrange(whole_end + 1, m.len() as int)));
            } else {
                assert(all_digits(m));
            }
        }
        if fraction_end == n {
            assert(m =~= s);
        } else {
            assert(s[fraction_end] == 'e' || s[fraction_end] == 'E');
        }
    }
    if is_decimal_number(s) {
        if is_mantissa(s) {
            assert(s.subrange(0, n) =~= s);
            lemma_mantissa_is_read(s, n);
        } else {
            let e = choose|e: int|
                {
                    &&& 0 <= e < s.len()
                    &&& (#[trigger] s[e] == 'e' || s[e] == 'E')
                    &&& is_mantissa(s.subrange(0, e))
                    &&& is_exponent(s.subrange(e + 1, s.len() as int))
                };
            lemma_mantissa_is_read(s, e);
        }
    }
}

/// Where the first `end` characters of `s` are the digits of a number and
/// no digit stands behind them, a reader finds them, and finds them to end
/// there.
proof fn lemma_mantissa_is_read(s: Seq<char>, end: int)
    requires
        0 <= end <= s.len(),
        is_mantissa(s.subrange(0, end)),
        end < s.len() ==> !is_digit(s[end]) && s[end] != '.',
    ensures
        ({
            let whole_end = digits_end(s, 0);
            let has_point = whole_end < s.len() && s[whole_end] == '.';
            let fraction_start = if has_point { whole_end + 1 } else { whole_end };
            let fraction_end = digits_end(s, fraction_start);
            fraction_end == end && whole_end + (fraction_end - fraction_start) > 0
        }),
{
    let m = s.subrange(0, end);
    if m.len() > 0 && all_digits(m) {
        assert forall|k: int| 0 <= k < end implies is_digit(#[trigger] s[k]) by {
            assert(s[k] == m[k]);
        }
        lemma_digits_end_at(s, 0, end);
        lemma_digits_end_at(s, end, end);
    } else {
        let p = choose|p: int|
            {
                &&& 0 <= p < m.len()
                &&& #[trigger] m[p] == '.'
                &&& m.len() > 1
                &&& all_digits(m.subrange(0, p))
                &&& all_digits(m.subrange(p + 1, m.len() as int))
            };
        assert(s[p] == '.');
        assert forall|k: int| 0 <= k < p implies is_digit(#[trigger] s[k]) by {
            assert(s[k] == m.subrange(0, p)[k]);
        }
        lemma_digits_end_at(s, 0, p);
        assert forall|k: int| p + 1 <= k < end implies is_digit(#[trigger] s[k]) by {
            assert(s[k] == m.subrange(p + 1, m.len() as int)[k - (p + 1)]);
        }
        lemma_digits_end_at(s, p + 1, end);
    }
}

/// A run of digits is worth at least as much as any run it starts with.
pub proof fn lemma_decimal_value_grows(s: Seq<char>, k: int)
    requires
        0 <= k <= s.len(),
    ensures
        decimal_value(s.subrange(0, k)) <= decimal_value(s),
    decreases s.len() - k,
{
    if k == s.len() {
        assert(s.subrange(0, k) =~= s);
    } else {
        lemma_decimal_value_grows(s, k + 1);
        assert(s.subrange(0, k + 1).drop_last() =~= s.subrange(0, k));
    }
}

/// Whether `c` is one of the digits `0` to `9`.
pub fn digit(c: char) -> (b: bool)
    ensures
        b == is_digit(c),
{
    let u: u32 = c as u32;
    0x30 <= u && u <= 0x39
}

/// Whether every character of `word` from `from` on is a digit.
fn digits_only(word: &[char], from: usize) -> (b: bool)
    requires
        from <= word@.len(),
    ensures
        b == all_digits(word@.subrange(from as int, word@.len() as int)),
{
    let n: usize = word.len();
    let mut i: usize = from;
    while i < n
        invariant
            from <= i <= n,
            n == word@.len(),
            forall|k: int| from <= k < i ==> is_digit(#[trigger] word@[k]),
        decreases n - i,
    {
        if !digit(word[i]) {
            assert(!is_digit(word@.subrange(from as int, n as int)[i - from]));
            return false;
        }
        i += 1;
    }
    true
}

/// Reads an unsigned whole number of 64 bits.
pub fn parse_unsigned(word: &[char]) -> (value: Result<u64, NumberError>)
    ensures
        value == unsigned_value(word@),
{
    let n: usize = word.len();
    let first: usize = if n > 0 && word[0] == '+' { 1 } else { 0 };
    let ghost digits = without_plus(word@);
    assert(digits == word@.subrange(first as int, n as int)) by {
        if first == 0 {
            assert(word@.subrange(0, n as int) =~= word@);
        }
    }
    if first == n || !digits_only(word, first) {
        return Err(NumberError::Malformed);
    }
    let mut value: u64 = 0;
    let mut i: usize = first;
    assert(digits.subrange(0, 0) =~= Seq::<char>::empty());
    while i < n
        invariant
            first <= i <= n,
            n == word@.len(),
            digits == without_plus(word@),
            digits == word@.subrange(first as int, n as int),
            all_digits(digits),
            value == decimal_value(digits.subrange(0, i - first)),
        decreases n - i,
    {
        let c: char = word[i];
        assert(is_digit(digits[i - first]));
        let d: u64 = (c as u32 - 0x30) as u64;
        proof {
            let longer = digits.subrange(0, i - first + 1);
            assert(longer.drop_last() =~= digits.subrange(0, i - first));
            assert(longer.last() == c);
            assert(decimal_value(longer) == 10 * value + d);
            lemma_decimal_value_grows(digits, i - first + 1);
        }
        if value > (u64::MAX - d) / 10 {
            assert(10 * value + d > u64::MAX);
            return Err(NumberError::OutOfRange);
        }
        value = value * 10 + d;
        i += 1;
    }
    assert(digits.subrange(0, n - first) =~= digits);
    Ok(value)
}

/// The end of the run of digits that starts at `from`.
fn scan_digits(word: &[char], from: usize) -> (end: usize)
    requires
        from <= word@.len(),
    ensures
        end == digits_end(word@, from as int),
        from <= end <= word@.len(),
{
    let n: usize = word.len();
    let mut end: usize = from;
    while end < n && digit(word[end])
        invariant
            from <= end <= n,
            n == word@.len(),
            digits_end(word@, from as int) == digits_end(word@, end as int),
        decreases n - end,
    {
        end += 1;
    }
    proof {
        lemma_digits_end_bounds(word@, from as int);
    }
    end
}

/// Whether `word` names a value that is no number.
fn special_value(word: &[char]) -> (b: bool)
    ensures
        b == is_special_value(word@),
{
    let n: usize = word.len();
    if n == 3 {
        let a: char = to_lower(word[0]);
        let b: char = to_lower(word[1]);
        let c: char = to_lower(word[2]);
        (a == 'i' && b == 'n' && c == 'f') || (a == 'n' && b == 'a' && c == 'n')
    } else if n == 8 {
        to_lower(word[0]) == 'i' && to_lower(word[1]) == 'n' && to_lower(word[2]) == 'f'
            && to_lower(word[3]) == 'i' && to_lower(word[4]) == 'n' && to_lower(word[5]) == 'i'
            && to_lower(word[6]) == 't' && to_lower(word[7]) == 'y'
    } else {
        false
    }
}

/// Whether `word` is an exponent behind its `e`.
fn exponent(word: &[char]) -> (b: bool)
    ensures
        b == is_exponent(word@),
{
    let n: usize = word.len();
    let first: usize = if n > 0 && (word[0] == '+' || word[0] == '-') { 1 } else { 0 };
    assert(without_sign(word@) == word@.subrange(first as int, n as int)) by {
        if first == 0 {
            assert(word@.subrange(0, n as int) =~= word@);
        }
    }
    first < n && digits_only(word, first)
}

/// Whether `word` is an unsigned decimal number.
fn decimal_number(word: &[char]) -> (b: bool)
    ensures
        b == is_decimal_number(word@),
{
    proof {
        lemma_reading_finds_numbers(word@);
    }
    let n: usize = word.len();
    let whole_end: usize = scan_digits(word, 0);
    let has_point: bool = whole_end < n && word[whole_end] == '.';
    let fraction_start: usize = if has_point { whole_end + 1 } else { whole_end };
    let fraction_end: usize = scan_digits(word, fraction_start);
    if whole_end + (fraction_end - fraction_start) == 0 {
        return false;
    }
    if fraction_end == n {
        return true;
    }
    if word[fraction_end] != 'e' && word[fraction_end] != 'E' {
        return false;
    }
    exponent(slice_subrange(word, fraction_end + 1, n))
}

/// Whether `word` is a decimal literal of a floating-point number.
pub fn float_literal(word: &[char]) -> (b: bool)
    ensures
        b == is_float_literal(word@),
{
    let n: usize = word.len();
    let first: usize = if n > 0 && (word[0] == '+' || word[0] == '-') { 1 } else { 0 };
    assert(without_sign(word@) == word@.subrange(first as int, n as int)) by {
        if first == 0 {
            assert(word@.subrange(0, n as int) =~= word@);
        }
    }
    let body: &[char] = slice_subrange(word, first, n);
    special_value(body) || decimal_number(body)
}

/// The lower-case form of `c`.
pub fn to_lower(c: char) -> (l: char)
    ensures
        l == lower(c),
{
    let u: u32 = c as u32;
    if 0x41 <= u && u <= 0x5a {
        ((u + 0x20) as u8) as char
    } else {
        c
    }
}

} // verus!
