//! Text helpers shared by the rest of the crate.

use vstd::prelude::*;
use vstd::string::{is_ascii_spec_bytes, StringSliceAdditionalSpecFns};
use vstd::utf8::encode_utf8_decode_utf8;

verus! {

/// Whether two string slices hold the same characters.
pub fn same_text(a: &str, b: &str) -> (same: bool)
    ensures
        same == (a@ == b@),
{
    let x = a.as_bytes();
    let y = b.as_bytes();
    if x.len() != y.len() {
        return false;
    }
    let mut i: usize = 0;
    while i < x.len()
        invariant
            x@.len() == y@.len(),
            i <= x@.len(),
            x@ == a.spec_bytes(),
            y@ == b.spec_bytes(),
            forall|k: int| 0 <= k < i ==> x@[k] == y@[k],
        decreases x@.len() - i,
    {
        if x[i] != y[i] {
            return false;
        }
        i += 1;
    }
    proof {
        assert(x@ =~= y@);
        encode_utf8_decode_utf8(a@);
        encode_utf8_decode_utf8(b@);
    }
    true
}

/// An optional text as a mathematical value.
pub open spec fn optional_text_view(text: Option<String>) -> Option<Seq<char>> {
    match text {
        Some(t) => Some(t@),
        None => None,
    }
}

/// The text `first` followed by the text `second`.
pub fn join(first: &str, second: &str) -> (joined: String)
    ensures
        joined@ == first@ + second@,
{
    let mut joined = String::from_str(first);
    joined.append(second);
    joined
}

/// The character that writes the digit `d`.
pub open spec fn digit_char(d: nat) -> char {
    if d == 0 {
        '0'
    } else if d == 1 {
        '1'
    } else if d == 2 {
        '2'
    } else if d == 3 {
        '3'
    } else if d == 4 {
        '4'
    } else if d == 5 {
        '5'
    } else if d == 6 {
        '6'
    } else if d == 7 {
        '7'
    } else if d == 8 {
        '8'
    } else {
        '9'
    }
}

/// The decimal numeral of `n`: no sign, no leading zero but for zero itself.
pub open spec fn decimal_text(n: nat) -> Seq<char>
    decreases n,
{
    if n < 10 {
        seq![digit_char(n)]
    } else {
        decimal_text(n / 10).push(digit_char(n % 10))
    }
}

fn digit_text(d: u64) -> (text: &'static str)
    requires
        d < 10,
    ensures
        text@ == seq![digit_char(d as nat)],
{
    proof {
        reveal_strlit("0");
        reveal_strlit("1");
        reveal_strlit("2");
        reveal_strlit("3");
        reveal_strlit("4");
        reveal_strlit("5");
        reveal_strlit("6");
        reveal_strlit("7");
        reveal_strlit("8");
        reveal_strlit("9");
    }
    let text = if d == 0 {
        "0"
    } else if d == 1 {
        "1"
    } else if d == 2 {
        "2"
    } else if d == 3 {
        "3"
    } else if d == 4 {
        "4"
    } else if d == 5 {
        "5"
    } else if d == 6 {
        "6"
    } else if d == 7 {
        "7"
    } else if d == 8 {
        "8"
    } else {
        "9"
    };
    assert(text@ =~= seq![digit_char(d as nat)]);
    text
}

/// Writes `n` as a decimal numeral.
pub fn decimal(n: u64) -> (text: String)
    ensures
        text@ == decimal_text(n as nat),
    decreases n,
{
    let last = digit_text(n % 10);
    if n < 10 {
        String::from_str(last)
    } else {
        let mut text = decimal(n / 10);
        text.append(last);
        assert(text@ =~= decimal_text(n as nat));
        text
    }
}

/// The digit that a character writes, if it writes one.
pub open spec fn digit_value(c: char) -> Option<nat> {
    if '0' <= c && c <= '9' {
        Some((c as nat - '0' as nat) as nat)
    } else {
        None
    }
}

/// The number that decimal digits write; nothing for no digits at all and
/// for any text that holds another character.
pub open spec fn numeral_value(digits: Seq<char>) -> Option<nat>
    decreases digits.len(),
{
    if digits.len() == 0 {
        None
    } else {
        match digit_value(digits.last()) {
            None => None,
            Some(d) => if digits.len() == 1 {
                Some(d)
            } else {
                match numeral_value(digits.drop_last()) {
                    None => None,
                    Some(high) => Some(high * 10 + d),
                }
            },
        }
    }
}

/// The number that a text writes: decimal digits, a `+` before them or not,
/// and a value that fits `u32`.
pub open spec fn number_of(text: Seq<char>) -> Option<u32> {
    let digits = if text.len() > 0 && text[0] == '+' {
        text.drop_first()
    } else {
        text
    };
    match numeral_value(digits) {
        Some(n) => if n <= u32::MAX {
            Some(n as u32)
        } else {
            None
        },
        None => None,
    }
}

/// A text that holds a character which is no digit writes no number.
pub proof fn lemma_numeral_has_only_digits(digits: Seq<char>, i: int)
    requires
        0 <= i < digits.len(),
        digit_value(digits[i]) is None,
    ensures
        numeral_value(digits) is None,
    decreases digits.len(),
{
    if i < digits.len() - 1 {
        lemma_numeral_has_only_digits(digits.drop_last(), i);
    }
}

/// The digits at the front of a numeral write no more than the numeral.
pub proof fn lemma_numeral_grows(digits: Seq<char>, n: int)
    requires
        1 <= n <= digits.len(),
        numeral_value(digits) is Some,
    ensures
        numeral_value(digits.take(n)) matches Some(front) && front <= numeral_value(digits)->0,
    decreases digits.len(),
{
    if n < digits.len() {
        assert(digits.drop_last().take(n) =~= digits.take(n));
        lemma_numeral_grows(digits.drop_last(), n);
    } else {
        assert(digits.take(n) =~= digits);
    }
}

/// The numeral of a number writes that number, and is read as that number
/// where the number fits `u32`.
pub proof fn lemma_decimal_text_reads_back(n: nat)
    ensures
        numeral_value(decimal_text(n)) == Some(n),
        n <= u32::MAX ==> number_of(decimal_text(n)) == Some(n as u32),
    decreases n,
{
    lemma_decimal_text_starts_with_digit(n);
    if n >= 10 {
        lemma_decimal_text_reads_back(n / 10);
        let numeral = decimal_text(n);
        assert(numeral.drop_last() =~= decimal_text(n / 10));
        assert(numeral.last() == digit_char(n % 10));
    }
}

/// A numeral begins with a digit.
proof fn lemma_decimal_text_starts_with_digit(n: nat)
    ensures
        decimal_text(n).len() > 0,
        digit_value(decimal_text(n)[0]) is Some,
    decreases n,
{
    if n >= 10 {
        lemma_decimal_text_starts_with_digit(n / 10);
        assert(decimal_text(n)[0] == decimal_text(n / 10)[0]);
    }
}

/// The byte of `+`.
const PLUS: u8 = 43;

/// The byte of the digit `0`.
const DIGIT_ZERO: u8 = 48;

/// The byte of the digit `9`.
const DIGIT_NINE: u8 = 57;

/// Reads the number that a text writes.
pub fn parse_number(text: &str) -> (parsed: Option<u32>)
    ensures
        parsed == number_of(text@),
{
    let ghost digits = if text@.len() > 0 && text@[0] == '+' {
        text@.drop_first()
    } else {
        text@
    };
    if !text.is_ascii() {
        proof {
            let i = choose|i: int|
                0 <= i < text@.len() && !('\0' <= #[trigger] text@[i] <= '\u{7f}');
            if digits.len() == text@.len() {
                lemma_numeral_has_only_digits(digits, i);
            } else {
                lemma_numeral_has_only_digits(digits, i - 1);
            }
        }
        return None;
    }
    let bytes = text.as_bytes();
    proof {
        is_ascii_spec_bytes(text);
    }
    let start: usize = if bytes.len() > 0 && bytes[0] == PLUS {
        1
    } else {
        0
    };
    assert(digits =~= text@.subrange(start as int, text@.len() as int));
    if start == bytes.len() {
        return None;
    }
    let mut value: u64 = 0;
    let mut i: usize = start;
    while i < bytes.len()
        invariant
            start <= i <= bytes.len(),
            bytes@.len() == text@.len(),
            text.is_ascii(),
            bytes@ == text.spec_bytes(),
            digits == text@.subrange(start as int, text@.len() as int),
            digits == if text@.len() > 0 && text@[0] == '+' {
                text@.drop_first()
            } else {
                text@
            },
            value <= u32::MAX,
            i == start ==> value == 0,
            i > start ==> numeral_value(digits.take(i - start)) == Some(value as nat),
        decreases bytes.len() - i,
    {
        let b = bytes[i];
        let ghost c = text@[i as int];
        proof {
            is_ascii_spec_bytes(text);
        }
        assert(digits[i - start] == c);
        assert(b == c as u8 && c <= '\u{7f}');
        if b < DIGIT_ZERO || b > DIGIT_NINE {
            proof {
                assert(digit_value(c) is None);
                lemma_numeral_has_only_digits(digits, i - start);
            }
            return None;
        }
        assert(digit_value(c) == Some((b - DIGIT_ZERO) as nat));
        proof {
            assert(digits.take(i + 1 - start).drop_last() =~= digits.take(i - start));
            assert(digits.take(i + 1 - start).last() == c);
        }
        value = value * 10 + (b - DIGIT_ZERO) as u64;
        assert(numeral_value(digits.take(i + 1 - start)) == Some(value as nat));
        if value > 0xffff_ffff {
            proof {
                if numeral_value(digits) is Some {
                    lemma_numeral_grows(digits, i + 1 - start);
                }
            }
            return None;
        }
        i += 1;
    }
    assert(digits.take(i - start) =~= digits);
    Some(value as u32)
}

} // verus!
