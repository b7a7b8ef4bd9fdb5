//! Small text helpers: exact equality of string slices and the decimal and
//! hexadecimal renderings that `format!` would produce for integers.
use vstd::prelude::*;

verus! {

/// The ASCII digit for `d` in base 16, lower case (`0`-`9`, `a`-`f`).
pub open spec fn hex_char(d: int) -> char {
    if d < 10 {
        (d + 48) as char
    } else {
        (d + 87) as char
    }
}

/// Decimal digits of `n`, most significant first, without leading zeros
/// (what `{}` prints for a non-negative integer).
pub open spec fn decimal(n: nat) -> Seq<char>
    decreases n,
{
    if n < 10 {
        seq![hex_char(n as int)]
    } else {
        decimal(n / 10).push(hex_char((n % 10) as int))
    }
}

/// What `{}` prints for any integer: a minus sign before negative values.
pub open spec fn signed_decimal(n: int) -> Seq<char> {
    if n < 0 {
        seq!['-'] + decimal((-n) as nat)
    } else {
        decimal(n as nat)
    }
}

/// The lowest `width` hexadecimal digits of `n`, most significant first,
/// zero-padded (what `{:0width$x}` prints when `n < 16^width`).
pub open spec fn hex_digits(n: nat, width: nat) -> Seq<char>
    decreases width,
{
    if width == 0 {
        Seq::empty()
    } else {
        hex_digits(n / 16, (width - 1) as nat).push(hex_char((n % 16) as int))
    }
}

/// `true` exactly when the two slices hold the same characters.
pub fn str_eq(a: &str, b: &str) -> (same: bool)
    ensures
        same == (a@ == b@),
{
    a.to_owned() == b.to_owned()
}

/// A one-character string for the hexadecimal digit `d`.
fn digit_str(d: u64) -> (s: &'static str)
    requires
        d < 16,
    ensures
        s@ == seq![hex_char(d as int)],
{
    proof {
        reveal_strlit("0");
        reveal_strlit("1");
        reveal_strlit("2");
        reveal_strlit("3");
        reveal_strlit("4");
        reveal_strlit("5");
        reveal_strlit("6");
        reveal_strlit("7");
        reveal_strlit("8");
        reveal_strlit("9");
        reveal_strlit("a");
        reveal_strlit("b");
        reveal_strlit("c");
        reveal_strlit("d");
        reveal_strlit("e");
        reveal_strlit("f");
    }
    match d {
        0 => "0",
        1 => "1",
        2 => "2",
        3 => "3",
        4 => "4",
        5 => "5",
        6 => "6",
        7 => "7",
        8 => "8",
        9 => "9",
        10 => "a",
        11 => "b",
        12 => "c",
        13 => "d",
        14 => "e",
        _ => "f",
    }
}

/// Appends the decimal digits of `n` to `s`.
pub fn push_decimal(s: &mut String, n: u64)
    ensures
        final(s)@ == old(s)@ + decimal(n as nat),
    decreases n,
{
    if n >= 10 {
        push_decimal(s, n / 10);
    }
    s.append(digit_str(n % 10));
    proof {
        assert(n < 10 ==> decimal(n as nat) == seq![hex_char(n as int)]);
    }
}

/// Appends the decimal rendering of a signed integer to `s`.
pub fn push_signed_decimal(s: &mut String, n: i64)
    ensures
        final(s)@ == old(s)@ + signed_decimal(n as int),
{
    if n < 0 {
        proof {
            reveal_strlit("-");
        }
        s.append("-");
        let wide: i128 = n as i128;
        let magnitude: u64 = (-wide) as u64;
        push_decimal(s, magnitude);
    } else {
        push_decimal(s, n as u64);
    }
}

/// Appends the lowest `width` hexadecimal digits of `n` to `s`.
pub fn push_hex_digits(s: &mut String, n: u64, width: u64)
    ensures
        final(s)@ == old(s)@ + hex_digits(n as nat, width as nat),
    decreases width,
{
    if width > 0 {
        push_hex_digits(s, n / 16, width - 1);
        s.append(digit_str(n % 16));
    }
}

} // verus!

verus! {

/// `16^w`.
pub open spec fn pow16(w: nat) -> nat
    decreases w,
{
    if w == 0 {
        1
    } else {
        16 * pow16((w - 1) as nat)
    }
}

/// The value of a hexadecimal digit character.
pub open spec fn hex_char_value(c: char) -> int {
    if c as int >= 97 {
        c as int - 87
    } else {
        c as int - 48
    }
}

/// The number that a string of hexadecimal digits denotes.
pub open spec fn hex_value(s: Seq<char>) -> int
    decreases s.len(),
{
    if s.len() == 0 {
        0
    } else {
        hex_value(s.drop_last()) * 16 + hex_char_value(s.last())
    }
}

pub proof fn lemma_pow16_positive(w: nat)
    ensures
        pow16(w) > 0,
    decreases w,
{
    if w > 0 {
        lemma_pow16_positive((w - 1) as nat);
    }
}

/// `{:0w$x}` gives exactly `w` characters, each a lower-case hexadecimal
/// digit, denoting `n` modulo `16^w`: for `n < 16^w` nothing is lost.
pub proof fn lemma_hex_digits_denote(n: nat, w: nat)
    ensures
        hex_digits(n, w).len() == w,
        forall|i: int| 0 <= i < w ==> {
            let c = #[trigger] hex_digits(n, w)[i];
            ('0' <= c <= '9') || ('a' <= c <= 'f')
        },
        hex_value(hex_digits(n, w)) == n % pow16(w),
    decreases w,
{
    if w > 0 {
        let rest = hex_digits(n / 16, (w - 1) as nat);
        lemma_hex_digits_denote(n / 16, (w - 1) as nat);
        lemma_pow16_positive((w - 1) as nat);
        assert(hex_digits(n, w).drop_last() == rest);
        assert(hex_char_value(hex_char((n % 16) as int)) == n % 16);
        vstd::arithmetic::div_mod::lemma_mod_breakdown(n as int, 16, pow16((w - 1) as nat) as int);
        assert(hex_value(hex_digits(n, w)) == (n / 16) % pow16((w - 1) as nat) * 16 + n % 16);
    }
}

} // verus!
