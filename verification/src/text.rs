//! Decimal numbers in text: renderings of integers appended to a
//! `String`, and the reading of unsigned integers from text.

use vstd::prelude::*;
use vstd::string::StringExecFns;
use vstd::utf8::encode_utf8;

verus! {

/// The character of a decimal digit.
pub open spec fn digit_char(d: nat) -> char {
    (48 + d) as char
}

/// The decimal rendering of a natural number, without leading zeros.
pub open spec fn decimal(n: nat) -> Seq<char>
    decreases n,
{
    if n < 10 {
        seq![digit_char(n)]
    } else {
        decimal(n / 10).push(digit_char(n % 10))
    }
}

/// The one-character string of a decimal digit.
fn digit_str(d: u64) -> (s: &'static str)
    requires
        d < 10,
    ensures
        s@ == seq![digit_char(d as nat)],
{
    if d == 0 {
        proof { reveal_strlit("0"); }
        "0"
    } else if d == 1 {
        proof { reveal_strlit("1"); }
        "1"
    } else if d == 2 {
        proof { reveal_strlit("2"); }
        "2"
    } else if d == 3 {
        proof { reveal_strlit("3"); }
        "3"
    } else if d == 4 {
        proof { reveal_strlit("4"); }
        "4"
    } else if d == 5 {
        proof { reveal_strlit("5"); }
        "5"
    } else if d == 6 {
        proof { reveal_strlit("6"); }
        "6"
    } else if d == 7 {
        proof { reveal_strlit("7"); }
        "7"
    } else if d == 8 {
        proof { reveal_strlit("8"); }
        "8"
    } else {
        proof { reveal_strlit("9"); }
        "9"
    }
}

/// Appends the decimal rendering of `n` to `s`.
pub fn append_decimal(s: &mut String, n: u64)
    ensures
        final(s)@ == old(s)@ + decimal(n as nat),
    decreases n,
{
    if n >= 10 {
        append_decimal(s, n / 10);
    }
    s.append(digit_str(n % 10));
}

/// Whether a byte is an ASCII decimal digit.
pub open spec fn is_digit(b: u8) -> bool {
    48 <= b <= 57
}

/// The value of a string of decimal digits.
pub open spec fn digits_value(s: Seq<u8>) -> nat
    decreases s.len(),
{
    if s.len() == 0 {
        0
    } else {
        digits_value(s.drop_last()) * 10 + (s.last() - 48) as nat
    }
}

/// A text without the `+` that may lead it (not a lone one).
pub open spec fn sign_stripped(s: Seq<u8>) -> Seq<u8> {
    if s.len() > 1 && s[0] == 43 {
        s.drop_first()
    } else {
        s
    }
}

/// Whether a text is made of decimal digits only.
pub open spec fn all_digits(d: Seq<u8>) -> bool {
    forall|i: int| 0 <= i < d.len() ==> is_digit(#[trigger] d[i])
}

/// The digits of an unsigned integer in text, as the standard library reads
/// them: a lone sign is refused, a leading `+` is skipped, and what remains
/// must be a non-empty string of decimal digits.
pub open spec fn unsigned_digits(s: Seq<u8>) -> Option<Seq<u8>> {
    let d = sign_stripped(s);
    if d.len() > 0 && all_digits(d) {
        Some(d)
    } else {
        None
    }
}

/// The unsigned integer that a text holds, if it holds one that is at most
/// `max`.
pub open spec fn parse_unsigned(s: Seq<u8>, max: nat) -> Option<nat> {
    match unsigned_digits(s) {
        Some(d) => if digits_value(d) <= max {
            Some(digits_value(d))
        } else {
            None
        },
        None => None,
    }
}

proof fn lemma_digits_value_prefix(d: Seq<u8>, i: int)
    requires
        0 <= i <= d.len(),
        forall|k: int| 0 <= k < d.len() ==> is_digit(#[trigger] d[k]),
    ensures
        digits_value(d.subrange(0, i)) <= digits_value(d),
    decreases d.len() - i,
{
    if i < d.len() {
        lemma_digits_value_prefix(d, i + 1);
        assert(d.subrange(0, i + 1).drop_last() =~= d.subrange(0, i));
    } else {
        assert(d.subrange(0, i) =~= d);
    }
}

/// Reads an unsigned integer of at most `max` from text, as the standard
/// library's `from_str` does for the unsigned integer types.
fn parse_bounded(s: &[u8], max: u64) -> (r: Option<u64>)
    requires
        max >= 9,
    ensures
        r == match parse_unsigned(s@, max as nat) {
            Some(v) => Some(v as u64),
            None => None::<u64>,
        },
{
    let start: usize = if s.len() > 1 && s[0] == 43 { 1 } else { 0 };
    let ghost d = sign_stripped(s@);
    assert(d =~= s@.subrange(start as int, s@.len() as int));
    if start >= s.len() {
        return None;
    }
    let mut value: u64 = 0;
    let mut i: usize = start;
    while i < s.len()
        invariant
            start <= i <= s@.len(),
            d =~= s@.subrange(start as int, s@.len() as int),
            d == sign_stripped(s@),
            forall|k: int| start <= k < i ==> is_digit(#[trigger] s@[k]),
            value == digits_value(s@.subrange(start as int, i as int)),
            value <= max,
            max >= 9,
        decreases s@.len() - i,
    {
        let b = s[i];
        if b < 48 || b > 57 {
            assert(d[i - start] == s@[i as int]);
            assert(!is_digit(d[i - start]));
            assert(!all_digits(d));
            assert(unsigned_digits(s@) is None);
            return None;
        }
        let digit = (b - 48) as u64;
        assert(s@.subrange(start as int, i + 1).drop_last() =~= s@.subrange(start as int, i as int));
        if value > (max - digit) / 10 {
            proof {
                assert(value * 10 + digit > max) by (nonlinear_arith)
                    requires
                        value > (max - digit) / 10,
                        digit <= 9,
                        max >= 9,
                ;
                if all_digits(d) {
                    lemma_digits_value_prefix(d, i + 1 - start);
                    assert(d.subrange(0, i + 1 - start) =~= s@.subrange(start as int, i + 1));
                    assert(unsigned_digits(s@) == Some(d));
                    assert(digits_value(d) > max);
                } else {
                    assert(unsigned_digits(s@) is None);
                }
                assert(parse_unsigned(s@, max as nat) is None);
            }
            return None;
        }
        assert(value * 10 + digit <= max) by (nonlinear_arith)
            requires
                value <= (max - digit) / 10,
                digit <= 9,
                max >= 9,
        ;
        value = value * 10 + digit;
        i = i + 1;
    }
    assert(s@.subrange(start as int, s@.len() as int) =~= d);
    Some(value)
}

/// Reads a `usize` from text, as `str::parse::<usize>` does.
pub fn parse_usize(s: &[u8]) -> (r: Option<usize>)
    ensures
        r == match parse_unsigned(s@, usize::MAX as nat) {
            Some(v) => Some(v as usize),
            None => None::<usize>,
        },
{
    match parse_bounded(s, usize::MAX as u64) {
        Some(v) => Some(v as usize),
        None => None,
    }
}

/// Reads a `u32` from text, as `str::parse::<u32>` does.
pub fn parse_u32(s: &[u8]) -> (r: Option<u32>)
    ensures
        r == match parse_unsigned(s@, u32::MAX as nat) {
            Some(v) => Some(v as u32),
            None => None::<u32>,
        },
{
    match parse_bounded(s, u32::MAX as u64) {
        Some(v) => Some(v as u32),
        None => None,
    }
}

/// The bytes of the decimal rendering of a number.
pub open spec fn decimal_bytes(n: nat) -> Seq<u8> {
    decimal(n).map_values(|c: char| c as u8)
}

/// The decimal rendering of a number is made of ASCII digits, and its bytes
/// have the number's value.
proof fn lemma_decimal_digits(n: nat)
    ensures
        decimal(n).len() > 0,
        vstd::utf8::is_ascii_chars(decimal(n)),
        forall|i: int| 0 <= i < decimal(n).len() ==> is_digit(#[trigger] decimal_bytes(n)[i]),
        digits_value(decimal_bytes(n)) == n,
    decreases n,
{
    let d = n % 10;
    let c = digit_char(d);
    assert(c as u8 == 48 + d);
    if n < 10 {
        assert(decimal(n) == seq![c]);
        assert(decimal_bytes(n) =~= seq![c as u8]);
        assert(decimal_bytes(n).drop_last() =~= Seq::<u8>::empty());
        assert(digits_value(decimal_bytes(n)) == digits_value(Seq::<u8>::empty()) * 10 + (c as u8 - 48) as nat);
        assert(n == d);
    } else {
        lemma_decimal_digits(n / 10);
        assert(decimal(n) == decimal(n / 10).push(c));
        assert(decimal_bytes(n) =~= decimal_bytes(n / 10).push(c as u8));
        assert(decimal_bytes(n).drop_last() =~= decimal_bytes(n / 10));
        assert(decimal(n).drop_last() =~= decimal(n / 10));
        assert(digits_value(decimal_bytes(n)) == digits_value(decimal_bytes(n / 10)) * 10 + (c as u8 - 48) as nat);
        assert(n == (n / 10) * 10 + d);
        assert forall|i: int| 0 <= i < decimal(n).len() implies is_digit(#[trigger] decimal_bytes(n)[i]) by {
            if i < decimal(n).len() - 1 {
                assert(decimal_bytes(n)[i] == decimal_bytes(n / 10)[i]);
            }
        }
    }
}

/// The decimal text of a number reads back as that number, when it is no
/// greater than the largest value the reader allows.
pub proof fn decimal_round_trip(n: nat, max: nat)
    requires
        n <= max,
    ensures
        parse_unsigned(encode_utf8(decimal(n)), max) == Some(n),
{
    lemma_decimal_digits(n);
    vstd::utf8::is_ascii_chars_encode_utf8(decimal(n));
    let b = encode_utf8(decimal(n));
    assert(b =~= decimal_bytes(n));
    assert(sign_stripped(b) == b);
    assert(all_digits(b));
}

} // verus!
