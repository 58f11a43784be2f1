//! Decimal numerals: what texts denote numbers, and how numbers are spelled.

use vstd::prelude::*;

verus! {

/// `c` is one of the digits 0 to 9.
pub open spec fn is_digit(c: char) -> bool {
    '0' as int <= c as int <= '9' as int
}

/// The digit that stands for `n`, for `n` below ten.
pub open spec fn digit(n: int) -> char {
    ('0' as int + n) as char
}

/// `s` holds digits only, and at least one.
pub open spec fn all_digits(s: Seq<char>) -> bool {
    &&& s.len() > 0
    &&& forall|i: int| 0 <= i < s.len() ==> is_digit(#[trigger] s[i])
}

/// The number that a sequence of digits denotes.
pub open spec fn digits_value(s: Seq<char>) -> int
    decreases s.len(),
{
    if s.len() == 0 {
        0
    } else {
        10 * digits_value(s.drop_last()) + (s.last() as int - '0' as int)
    }
}

/// The digits of `n`, most significant first and without leading zeros.
pub open spec fn digits(n: nat) -> Seq<char>
    decreases n,
{
    if n < 10 {
        seq![digit(n as int)]
    } else {
        digits(n / 10).push(digit((n % 10) as int))
    }
}

/// How `c` is written: its digits, after a minus sign where it is negative.
pub open spec fn numeral(c: int) -> Seq<char> {
    if c < 0 {
        seq!['-'] + digits((-c) as nat)
    } else {
        digits(c as nat)
    }
}

/// The number that `s` denotes: digits, with a sign before them or none.
pub open spec fn signed_value(s: Seq<char>) -> Option<int> {
    if s.len() > 0 && s[0] == '-' {
        if all_digits(s.skip(1)) {
            Some(-digits_value(s.skip(1)))
        } else {
            None
        }
    } else {
        unsigned_value(s)
    }
}

/// The number that `s` denotes: digits, with a plus sign before them or none.
pub open spec fn unsigned_value(s: Seq<char>) -> Option<int> {
    let body = if s.len() > 0 && s[0] == '+' {
        s.skip(1)
    } else {
        s
    };
    if all_digits(body) {
        Some(digits_value(body))
    } else {
        None
    }
}

/// The 64-bit integer that `s` denotes, if it denotes a number in range.
pub open spec fn i64_value(s: Seq<char>) -> Option<i64> {
    match signed_value(s) {
        Some(n) => if i64::MIN <= n <= i64::MAX {
            Some(n as i64)
        } else {
            None
        },
        None => None,
    }
}

/// The unsigned 32-bit integer that `s` denotes, if it denotes a number in range.
pub open spec fn u32_value(s: Seq<char>) -> Option<u32> {
    match unsigned_value(s) {
        Some(n) => if n <= u32::MAX {
            Some(n as u32)
        } else {
            None
        },
        None => None,
    }
}

/// `str::parse` of the standard library, at `i64`. It reads an optional `+` or
/// `-` sign followed by one or more decimal digits and nothing else, and fails
/// on every other text and on numbers outside the range of `i64`.
#[verifier::external_body]
pub(crate) fn parse_i64(s: &str) -> (r: Option<i64>)
    ensures
        r == i64_value(s@),
{
    s.parse::<i64>().ok()
}

/// Digits are digits, and denote the number they were made from.
pub proof fn lemma_digits(n: nat)
    ensures
        all_digits(digits(n)),
        digits_value(digits(n)) == n,
    decreases n,
{
    if n < 10 {
        let s = seq![digit(n as int)];
        assert(s.drop_last() =~= Seq::<char>::empty());
        assert(digits_value(s.drop_last()) == 0);
        assert(s.last() as int == '0' as int + n);
    } else {
        let s = digits(n);
        lemma_digits(n / 10);
        assert(s.drop_last() =~= digits(n / 10));
        assert(s.last() as int == '0' as int + n % 10);
    }
}

/// A number is read back from the way it is written.
pub proof fn law_numeral_reads_back(c: i64)
    ensures
        i64_value(numeral(c as int)) == Some(c),
{
    let n = if c < 0 {
        (-c) as nat
    } else {
        c as nat
    };
    let s = numeral(c as int);
    lemma_digits(n);
    if c < 0 {
        assert(s.skip(1) =~= digits(n));
    } else {
        assert(is_digit(s[0]));
    }
}

} // verus!
