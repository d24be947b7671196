//! Decimal text: the grammar of a declared size and its value.
//!
//! A size is written as one or more ASCII digits and nothing else: no sign,
//! no whitespace, no separators. Leading zeros are allowed.

use vstd::prelude::*;
use vstd::string::*;

verus! {

/// `c` is one of the ten ASCII digits.
pub open spec fn is_digit(c: char) -> bool {
    '0' <= c && c <= '9'
}

/// The number that the digit `c` stands for.
pub open spec fn digit_value(c: char) -> nat
    recommends
        is_digit(c),
{
    (c as int - '0' as int) as nat
}

/// `s` is a non-empty run of ASCII digits.
pub open spec fn is_decimal(s: Seq<char>) -> bool {
    &&& s.len() > 0
    &&& forall|i: int| 0 <= i < s.len() ==> is_digit(#[trigger] s[i])
}

/// The number that the digits of `s` write in base ten, most significant first.
pub open spec fn decimal_value(s: Seq<char>) -> nat
    decreases s.len(),
{
    if s.len() == 0 {
        0
    } else {
        10 * decimal_value(s.drop_last()) + digit_value(s.last())
    }
}

/// What reading `s` as a size gives: its value when `s` is decimal text and
/// the value fits a `usize`, nothing otherwise.
pub open spec fn parsed_size(s: Seq<char>) -> Option<usize> {
    if is_decimal(s) && decimal_value(s) <= usize::MAX {
        Some(decimal_value(s) as usize)
    } else {
        None
    }
}

/// A prefix of digits never writes a larger number than the whole text.
pub proof fn lemma_prefix_value_le(s: Seq<char>, k: int)
    requires
        0 <= k <= s.len(),
    ensures
        decimal_value(s.take(k)) <= decimal_value(s),
    decreases s.len() - k,
{
    if k == s.len() {
        assert(s.take(k) =~= s);
    } else {
        lemma_prefix_value_le(s, k + 1);
        assert(s.take(k + 1).drop_last() =~= s.take(k));
    }
}

/// Appending one digit multiplies the value by ten and adds the digit.
pub proof fn lemma_value_step(s: Seq<char>, k: int)
    requires
        0 <= k < s.len(),
    ensures
        decimal_value(s.take(k + 1)) == 10 * decimal_value(s.take(k)) + digit_value(s[k]),
{
    assert(s.take(k + 1).drop_last() =~= s.take(k));
}

/// Reads `text` as a size.
///
/// Returns the value exactly when `text` is a non-empty run of ASCII digits
/// whose value fits a `usize`; any other text gives `None`.
pub fn parse_decimal(text: &str) -> (r: Option<usize>)
    ensures
        r == parsed_size(text@),
{
    broadcast use vstd::string::is_ascii_spec_bytes;

    if !text.is_ascii() {
        return None;
    }
    let bytes = text.as_bytes();
    let n = bytes.len();
    if n == 0 {
        return None;
    }
    let mut value: usize = 0;
    let mut i: usize = 0;
    while i < n
        invariant
            i <= n,
            n == bytes@.len(),
            n == text@.len(),
            is_ascii(text),
            bytes@ =~= Seq::new(text@.len(), |j: int| text@.index(j) as u8),
            forall|j: int| 0 <= j < i ==> is_digit(#[trigger] text@[j]),
            value == decimal_value(text@.take(i as int)),
        decreases n - i,
    {
        let b = bytes[i];
        if b < 48 || b > 57 {
            return None;
        }
        let digit: usize = (b - 48) as usize;
        proof {
            lemma_value_step(text@, i as int);
            lemma_prefix_value_le(text@, i + 1);
        }
        if value > (usize::MAX - digit) / 10 {
            return None;
        }
        value = value * 10 + digit;
        i = i + 1;
    }
    assert(text@.take(n as int) =~= text@);
    Some(value)
}

} // verus!
