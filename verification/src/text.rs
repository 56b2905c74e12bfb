//! Comparison and decimal parsing of text.

use vstd::prelude::*;
use vstd::string::*;
use vstd::utf8::*;

verus! {

/// Two texts with the same UTF-8 encoding are the same text.
pub proof fn lemma_same_bytes_same_text(a: Seq<char>, b: Seq<char>)
    requires
        encode_utf8(a) == encode_utf8(b),
    ensures
        a == b,
{
    encode_utf8_decode_utf8(a);
    encode_utf8_decode_utf8(b);
}

/// Whether two runs of bytes are equal.
pub fn bytes_eq(x: &[u8], y: &[u8]) -> (same: bool)
    ensures
        same == (x@ == y@),
{
    if x.len() != y.len() {
        return false;
    }
    let mut i: usize = 0;
    while i < x.len()
        invariant
            i <= x.len(),
            x.len() == y.len(),
            forall|k: int| 0 <= k < i ==> x@[k] == y@[k],
        decreases x.len() - i,
    {
        if x[i] != y[i] {
            return false;
        }
        i += 1;
    }
    assert(x@ =~= y@);
    true
}

/// Whether two texts are equal, character by character.
pub fn str_eq(a: &str, b: &str) -> (same: bool)
    ensures
        same == (a@ == b@),
{
    let same = bytes_eq(a.as_bytes(), b.as_bytes());
    proof {
        if same {
            lemma_same_bytes_same_text(a@, b@);
        }
    }
    same
}

/// Whether a character is a decimal digit.
pub open spec fn is_digit(c: char) -> bool {
    '0' <= c <= '9'
}

/// The number that a run of decimal digits stands for.
pub open spec fn digits_value(digits: Seq<char>) -> int
    decreases digits.len(),
{
    if digits.len() == 0 {
        0
    } else {
        digits_value(digits.drop_last()) * 10 + (digits.last() as u32 - '0' as u32)
    }
}

/// The digits of a decimal number: the text without its sign.
pub open spec fn decimal_digits(text: Seq<char>, signed: bool) -> Seq<char> {
    if text.len() > 0 && (text[0] == '+' || (signed && text[0] == '-')) {
        text.drop_first()
    } else {
        text
    }
}

/// The number that a text stands for: an optional `+` (or `-`, where
/// the number may be negative), then one or more decimal digits and
/// nothing else.
pub open spec fn decimal_value(text: Seq<char>, signed: bool) -> Option<int> {
    let digits = decimal_digits(text, signed);
    if digits.len() == 0 || !(forall|i: int| 0 <= i < digits.len() ==> is_digit(#[trigger] digits[i])) {
        None
    } else if signed && text[0] == '-' {
        Some(-digits_value(digits))
    } else {
        Some(digits_value(digits))
    }
}

/// The number that a text stands for, where it lies between two bounds.
pub open spec fn decimal_between(text: Seq<char>, min: int, max: int) -> Option<int> {
    match decimal_value(text, min < 0) {
        Some(value) => if min <= value <= max {
            Some(value)
        } else {
            None
        },
        None => None,
    }
}

proof fn lemma_digits_value_grows(digits: Seq<char>, n: int)
    requires
        0 <= n <= digits.len(),
        forall|i: int| 0 <= i < digits.len() ==> is_digit(#[trigger] digits[i]),
    ensures
        0 <= digits_value(digits.subrange(0, n)) <= digits_value(digits),
    decreases digits.len() - n,
{
    if n == digits.len() {
        assert(digits.subrange(0, n) =~= digits);
        lemma_digits_value_nonnegative(digits);
    } else {
        lemma_digits_value_grows(digits, n + 1);
        let longer = digits.subrange(0, n + 1);
        assert(longer.drop_last() =~= digits.subrange(0, n));
        assert(is_digit(digits[n]));
        assert(longer.last() == digits[n]);
        lemma_digits_value_nonnegative(digits.subrange(0, n));
    }
}

proof fn lemma_digits_value_nonnegative(digits: Seq<char>)
    requires
        forall|i: int| 0 <= i < digits.len() ==> is_digit(#[trigger] digits[i]),
    ensures
        0 <= digits_value(digits),
    decreases digits.len(),
{
    if digits.len() > 0 {
        lemma_digits_value_nonnegative(digits.drop_last());
        assert(is_digit(digits[digits.len() - 1]));
    }
}

/// Reads a decimal number that must lie between two bounds.
pub fn parse_decimal(text: &str, min: i64, max: i64) -> (r: Option<i64>)
    requires
        -0x8000_0000 <= min <= 0 <= max <= 0xFFFF_FFFF,
    ensures
        match r {
            Some(value) => decimal_between(text@, min as int, max as int) == Some(value as int),
            None => decimal_between(text@, min as int, max as int).is_none(),
        },
{
    let signed = min < 0;
    let ghost digits = decimal_digits(text@, signed);
    if !text.is_ascii() {
        proof {
            let i = choose|i: int| 0 <= i < text@.len() && !('\0' <= #[trigger] text@[i] <= '\u{7f}');
            if i == 0 {
                assert(digits =~= text@);
            }
            if digits.len() != text@.len() {
                assert(digits[i - 1] == text@[i]);
            } else {
                assert(digits[i] == text@[i]);
            }
        }
        return None;
    }
    let bytes = text.as_bytes();
    proof {
        is_ascii_spec_bytes(text);
        assert(bytes@.len() == text@.len());
        assert(forall|i: int| 0 <= i < bytes@.len() ==> bytes@[i] == text@[i] as u8);
        assert(forall|i: int| 0 <= i < text@.len() ==> '\0' <= #[trigger] text@[i] <= '\u{7f}');
    }
    let len = bytes.len();
    let mut start: usize = 0;
    let mut negative = false;
    if len > 0 {
        if bytes[0] == 43 {
            assert(text@[0] == '+');
            start = 1;
        } else if signed && bytes[0] == 45 {
            assert(text@[0] == '-');
            start = 1;
            negative = true;
        } else {
            assert(text@[0] != '+');
            assert(text@[0] != '-' || !signed);
        }
    }
    assert(digits =~= text@.subrange(start as int, len as int));
    if start == len {
        return None;
    }
    let mut acc: u64 = 0;
    let mut too_big = false;
    let mut i: usize = start;
    while i < len
        invariant
            start <= i <= len,
            len == bytes@.len(),
            bytes@.len() == text@.len(),
            digits == decimal_digits(text@, min < 0),
            digits =~= text@.subrange(start as int, len as int),
            forall|k: int| 0 <= k < bytes@.len() ==> bytes@[k] == text@[k] as u8,
            forall|k: int| 0 <= k < text@.len() ==> '\0' <= #[trigger] text@[k] <= '\u{7f}',
            forall|k: int| 0 <= k < i - start ==> is_digit(#[trigger] digits[k]),
            acc <= 0xF_FFFF_FFFF,
            !too_big ==> acc == digits_value(digits.subrange(0, i - start)),
            too_big ==> digits_value(digits.subrange(0, i - start)) > 0xFFFF_FFFF,
        decreases len - i,
    {
        let b = bytes[i];
        assert(digits[i - start] == text@[i as int]);
        if b < 48 || b > 57 {
            assert(!is_digit(digits[i - start]));
            return None;
        }
        assert(is_digit(digits[i - start]));
        proof {
            let longer = digits.subrange(0, i - start + 1);
            assert(longer.drop_last() =~= digits.subrange(0, i - start));
            assert(longer.last() == digits[i - start]);
            assert(digits[i - start] as u32 - '0' as u32 == b - 48);
        }
        if !too_big {
            acc = acc * 10 + (b - 48) as u64;
            if acc > 0xFFFF_FFFF {
                too_big = true;
                acc = 0;
            }
        }
        i += 1;
    }
    proof {
        assert(digits.subrange(0, len - start) =~= digits);
        assert(forall|k: int| 0 <= k < digits.len() ==> is_digit(#[trigger] digits[k]));
    }
    if too_big {
        return None;
    }
    let value: i64 = if negative {
        -(acc as i64)
    } else {
        acc as i64
    };
    if min <= value && value <= max {
        Some(value)
    } else {
        None
    }
}

/// The character of a decimal digit.
pub open spec fn digit_char(digit: int) -> char {
    if digit == 0 {
        '0'
    } else if digit == 1 {
        '1'
    } else if digit == 2 {
        '2'
    } else if digit == 3 {
        '3'
    } else if digit == 4 {
        '4'
    } else if digit == 5 {
        '5'
    } else if digit == 6 {
        '6'
    } else if digit == 7 {
        '7'
    } else if digit == 8 {
        '8'
    } else {
        '9'
    }
}

/// A number written in decimal digits, without a sign and without zeros
/// before it.
pub open spec fn decimal_text(n: nat) -> Seq<char>
    decreases n,
{
    if n < 10 {
        seq![digit_char(n as int)]
    } else {
        decimal_text(n / 10).push(digit_char((n % 10) as int))
    }
}

/// A number that is written in decimal digits reads back as itself.
pub proof fn lemma_decimal_round_trip(n: nat)
    ensures
        decimal_value(decimal_text(n), false) == Some(n as int),
        decimal_value(decimal_text(n), true) == Some(n as int),
        decimal_text(n).len() > 0,
        forall|i: int| 0 <= i < decimal_text(n).len() ==> is_digit(#[trigger] decimal_text(n)[i]),
        digits_value(decimal_text(n)) == n,
    decreases n,
{
    let text = decimal_text(n);
    let last = (n % 10) as int;
    assert(is_digit(digit_char(last)) && digit_char(last) as u32 - '0' as u32 == last);
    assert(text.last() == digit_char(last));
    if n >= 10 {
        lemma_decimal_round_trip(n / 10);
        let front = decimal_text(n / 10);
        assert(text.drop_last() =~= front);
        assert(text[0] == front[0]);
        assert forall|i: int| 0 <= i < text.len() implies is_digit(#[trigger] text[i]) by {
            if i < front.len() {
                assert(text[i] == front[i]);
            }
        }
    } else {
        assert(text.drop_last() =~= Seq::<char>::empty());
        assert(digits_value(text.drop_last()) == 0);
    }
    assert(digits_value(text) == digits_value(text.drop_last()) * 10 + last);
    assert(is_digit(text[0]));
    assert(decimal_digits(text, false) == text);
    assert(decimal_digits(text, true) == text);
}

/// The text of one decimal digit.
fn digit_str(digit: u64) -> (text: &'static str)
    requires
        digit < 10,
    ensures
        text@ == seq![digit_char(digit as int)],
{
    let text = if digit == 0 {
        "0"
    } else if digit == 1 {
        "1"
    } else if digit == 2 {
        "2"
    } else if digit == 3 {
        "3"
    } else if digit == 4 {
        "4"
    } else if digit == 5 {
        "5"
    } else if digit == 6 {
        "6"
    } else if digit == 7 {
        "7"
    } else if digit == 8 {
        "8"
    } else {
        "9"
    };
    proof {
        reveal_strlit("0");
        reveal_strlit("1");
        reveal_strlit("2");
        reveal_strlit("3");
        reveal_strlit("4");
        reveal_strlit("5");
        reveal_strlit("6");
        reveal_strlit("7");
        reveal_strlit("8");
        reveal_strlit("9");
        assert(text@ =~= seq![digit_char(digit as int)]);
    }
    text
}

/// Writes a number in decimal digits.
pub fn u64_to_string(n: u64) -> (text: String)
    ensures
        text@ == decimal_text(n as nat),
{
    let mut text = digit_str(n % 10).to_owned();
    let mut rest = n / 10;
    assert(rest > 0 ==> decimal_text(n as nat) =~= decimal_text(rest as nat) + text@);
    while rest > 0
        invariant
            rest > 0 ==> decimal_text(n as nat) == decimal_text(rest as nat) + text@,
            rest == 0 ==> decimal_text(n as nat) == text@,
        decreases rest,
    {
        let ghost before = text@;
        let digit = digit_str(rest % 10);
        text = digit.to_owned().concat(text.as_str());
        proof {
            if rest < 10 {
                assert(decimal_text(rest as nat) + before =~= text@);
            } else {
                assert(decimal_text(rest as nat) + before =~= decimal_text((rest / 10) as nat)
                    + text@);
            }
        }
        rest = rest / 10;
    }
    text
}

} // verus!
