//! Reading a non-negative integer from text: decimal digits, at least one,
//! with at most one `+` in front of them.

use vstd::prelude::*;

verus! {

/// Whether `c` is one of `0` to `9`.
pub open spec fn is_digit(c: char) -> bool {
    48 <= c as u32 <= 57
}

/// The value of a digit; zero for any other character.
pub open spec fn digit_value(c: char) -> nat {
    if is_digit(c) {
        (c as u32 - 48) as nat
    } else {
        0
    }
}

/// Whether `s` holds digits only.
pub open spec fn all_digits(s: Seq<char>) -> bool {
    forall|i: int| 0 <= i < s.len() ==> is_digit(#[trigger] s[i])
}

/// The number that the digits of `s` write in base ten.
pub open spec fn digits_value(s: Seq<char>) -> nat
    decreases s.len(),
{
    if s.len() == 0 {
        0
    } else {
        digits_value(s.drop_last()) * 10 + digit_value(s.last())
    }
}

/// The number of digits among the characters of `s`.
pub open spec fn digit_count(s: Seq<char>) -> nat
    decreases s.len(),
{
    if s.len() == 0 {
        0
    } else {
        digit_count(s.drop_last()) + if is_digit(s.last()) {
            1nat
        } else {
            0nat
        }
    }
}

/// The text without the sign that may stand in front of it.
pub open spec fn unsigned_part(s: Seq<char>) -> Seq<char> {
    if s.len() > 0 && s[0] == '+' {
        s.subrange(1, s.len() as int)
    } else {
        s
    }
}

/// The non-negative integer that `s` writes, if it writes one.
pub open spec fn decimal(s: Seq<char>) -> Option<nat> {
    let digits = unsigned_part(s);
    if digits.len() > 0 && all_digits(digits) {
        Some(digits_value(digits))
    } else {
        None
    }
}

/// The non-negative integer that `s` writes, if it writes one that a
/// `usize` can hold.
pub open spec fn decimal_usize(s: Seq<char>) -> Option<usize> {
    match decimal(s) {
        Some(value) => if value <= usize::MAX {
            Some(value as usize)
        } else {
            None
        },
        None => None,
    }
}

/// A number is at least as large as the number its leading digits write.
pub proof fn lemma_leading_digits(s: Seq<char>, count: int)
    requires
        0 <= count <= s.len(),
    ensures
        digits_value(s.subrange(0, count)) <= digits_value(s),
    decreases s.len() - count,
{
    if count == s.len() {
        assert(s.subrange(0, count) =~= s);
    } else {
        assert(s.drop_last().subrange(0, count) =~= s.subrange(0, count));
        lemma_leading_digits(s.drop_last(), count);
    }
}

/// Counts the digits among the characters of `text`.
pub fn count_digits(text: &str) -> (count: usize)
    ensures
        count == digit_count(text@),
{
    let total = text.unicode_len();
    let mut count: usize = 0;
    let mut at: usize = 0;
    assert(text@.subrange(0, 0) =~= Seq::<char>::empty());
    while at < total
        invariant
            at <= total,
            total == text@.len(),
            count <= at,
            count == digit_count(text@.subrange(0, at as int)),
        decreases total - at,
    {
        let code = text.get_char(at) as u32;
        assert(text@.subrange(0, at + 1).drop_last() =~= text@.subrange(0, at as int));
        assert(text@.subrange(0, at + 1).last() == text@[at as int]);
        if 48 <= code && code <= 57 {
            count += 1;
        }
        at += 1;
    }
    assert(text@.subrange(0, at as int) =~= text@);
    count
}

/// Reads a non-negative integer from `text`.
pub fn parse_decimal(text: &str) -> (parsed: Option<usize>)
    ensures
        parsed == decimal_usize(text@),
{
    let total = text.unicode_len();
    let start: usize = if total > 0 && text.get_char(0) == '+' {
        1
    } else {
        0
    };
    if start >= total {
        return None;
    }
    let ghost digits = unsigned_part(text@);
    let mut value: usize = 0;
    let mut at: usize = start;
    assert(digits.subrange(0, 0) =~= Seq::<char>::empty());
    while at < total
        invariant
            start <= at <= total,
            total == text@.len(),
            digits == text@.subrange(start as int, total as int),
            digits == unsigned_part(text@),
            all_digits(digits.subrange(0, at - start)),
            value == digits_value(digits.subrange(0, at - start)),
        decreases total - at,
    {
        let c = text.get_char(at);
        let code = c as u32;
        assert(digits[at - start] == c);
        if code < 48 || code > 57 {
            return None;
        }
        let digit = (code - 48) as usize;
        let ghost longer = digits.subrange(0, at - start + 1);
        proof {
            assert(longer.drop_last() =~= digits.subrange(0, at - start));
            assert(longer.last() == c);
            lemma_leading_digits(digits, at - start + 1);
        }
        let tenfold = match value.checked_mul(10) {
            Some(tenfold) => tenfold,
            None => {
                return None;
            },
        };
        value = match tenfold.checked_add(digit) {
            Some(sum) => sum,
            None => {
                return None;
            },
        };
        at += 1;
        proof {
            assert forall|i: int| 0 <= i < longer.len() implies is_digit(#[trigger] longer[i]) by {
                if i < longer.len() - 1 {
                    assert(longer[i] == digits.subrange(0, at - start - 1)[i]);
                }
            }
        }
    }
    assert(digits.subrange(0, at - start) =~= digits);
    Some(value)
}

} // verus!
