//! Reading an integer typed into a form field.
use vstd::prelude::*;

verus! {

pub open spec fn is_ascii_digit(c: char) -> bool {
    '0' <= c <= '9'
}

/// The value of a string of decimal digits.
pub open spec fn digits_value(s: Seq<char>) -> int
    decreases s.len(),
{
    if s.len() == 0 {
        0
    } else {
        digits_value(s.drop_last()) * 10 + (s.last() as int - 48)
    }
}

/// Every character is an ASCII digit.
pub open spec fn all_digits(d: Seq<char>) -> bool {
    forall|i: int| 0 <= i < d.len() ==> is_ascii_digit(#[trigger] d[i])
}

/// The text after a leading `+` or `-`, if there is one.
pub open spec fn unsigned_part(s: Seq<char>) -> Seq<char> {
    if s.len() > 0 && (s[0] == '-' || s[0] == '+') {
        s.drop_first()
    } else {
        s
    }
}

/// What `str::parse::<i64>` yields: an optional `+` or `-` followed by one or
/// more ASCII digits, whose value fits in an `i64`; anything else (empty
/// text, a lone sign, spaces, other characters, overflow) is refused.
pub open spec fn parsed_i64(s: Seq<char>) -> Option<i64> {
    let digits = unsigned_part(s);
    let magnitude = digits_value(digits);
    let value = if s.len() > 0 && s[0] == '-' { -magnitude } else { magnitude };
    if digits.len() > 0 && all_digits(digits) && i64::MIN <= value <= i64::MAX {
        Some(value as i64)
    } else {
        None
    }
}

/// `str::parse::<i64>`, as its documentation describes it: an optional sign
/// and decimal digits, within the range of `i64`; the error is dropped.
#[verifier::external_body]
pub(crate) fn parse_i64(s: &str) -> (r: Option<i64>)
    ensures
        r == parsed_i64(s@),
{
    s.parse::<i64>().ok()
}

} // verus!

verus! {

use crate::text::{decimal, hex_char, signed_decimal};

/// `{}` of a natural number writes decimal digits only, with no leading
/// zero, that denote exactly that number.
pub proof fn lemma_decimal_denotes(n: nat)
    ensures
        decimal(n).len() > 0,
        forall|i: int| 0 <= i < decimal(n).len() ==> is_ascii_digit(#[trigger] decimal(n)[i]),
        digits_value(decimal(n)) == n,
        decimal(n).len() > 1 ==> decimal(n)[0] != '0',
        (decimal(n).len() == 1) == (n < 10),
    decreases n,
{
    if n < 10 {
        assert(decimal(n).drop_last() =~= Seq::<char>::empty());
        assert(hex_char(n as int) as int == n + 48);
        assert(digits_value(decimal(n)) == digits_value(Seq::<char>::empty()) * 10 + (decimal(n).last() as int - 48));
    } else {
        lemma_decimal_denotes(n / 10);
        let d = decimal(n);
        assert(d.drop_last() =~= decimal(n / 10));
        assert((n / 10) * 10 + n % 10 == n) by (nonlinear_arith);
        assert(hex_char((n % 10) as int) as int == n % 10 + 48);
        assert(digits_value(d) == digits_value(d.drop_last()) * 10 + (d.last() as int - 48));
        assert(d.last() == hex_char((n % 10) as int));
        assert(decimal(n / 10).len() > 1 ==> d[0] == decimal(n / 10)[0]);
        if decimal(n / 10).len() == 1 {
            assert(n / 10 < 10);
            assert(decimal(n / 10) == seq![hex_char((n / 10) as int)]);
            assert(decimal(n / 10)[0] == hex_char((n / 10) as int));
        }
    }
}

/// Reading back what `{}` wrote gives the number again: parsing the decimal
/// rendering of any `i64` yields that `i64`.
pub proof fn lemma_parse_reads_back_decimal(x: i64)
    ensures
        parsed_i64(signed_decimal(x as int)) == Some(x),
{
    let s = signed_decimal(x as int);
    if x < 0 {
        let mag = (-(x as int)) as nat;
        lemma_decimal_denotes(mag);
        assert(s.drop_first() =~= decimal(mag));
        assert(s[0] == '-');
    } else {
        lemma_decimal_denotes(x as nat);
        assert(is_ascii_digit(s[0]));
    }
}

/// Text with anything but digits after an optional leading sign is refused,
/// and so is text without a digit.
pub proof fn lemma_parse_refuses_non_digits(s: Seq<char>, i: int)
    requires
        0 <= i < s.len(),
        !is_ascii_digit(s[i]),
        i > 0 || (s[0] != '-' && s[0] != '+') || s.len() == 1,
    ensures
        parsed_i64(s) is None,
{
    let digits = unsigned_part(s);
    if s.len() > 0 && (s[0] == '-' || s[0] == '+') {
        if i > 0 {
            assert(digits[i - 1] == s[i]);
        } else {
            assert(digits.len() == 0);
        }
    } else {
        assert(digits[i] == s[i]);
    }
}

/// `{}` of an integer starts with `-` exactly when it is negative, and is
/// otherwise digits only.
pub proof fn lemma_signed_decimal_sign(n: int)
    ensures
        signed_decimal(n).len() > 0,
        (signed_decimal(n)[0] == '-') == (n < 0),
        n >= 0 ==> all_digits(signed_decimal(n)),
{
    if n < 0 {
        lemma_decimal_denotes((-n) as nat);
    } else {
        lemma_decimal_denotes(n as nat);
        assert(is_ascii_digit(signed_decimal(n)[0]));
    }
}

} // verus!
