//! Decimal text of integers: how a number is written and how text is read back.

use vstd::prelude::*;
use vstd::string::*;

verus! {

const MINUS_SIGN: u8 = 45;

const PLUS_SIGN: u8 = 43;

const DIGIT_ZERO: u8 = 48;

const DIGIT_NINE: u8 = 57;

/// The character that stands for the digit `d`, for `0 <= d <= 9`.
pub open spec fn digit_char(d: int) -> char {
    (d + 48) as char
}

/// Whether `c` is one of the ten ASCII digits.
pub open spec fn is_digit(c: char) -> bool {
    '0' <= c <= '9'
}

/// The value of the digit `c`.
pub open spec fn digit_value(c: char) -> int {
    c as int - 48
}

/// The decimal numeral of `n`: no sign and no leading zero, `"0"` for zero.
pub open spec fn numeral(n: nat) -> Seq<char>
    decreases n,
{
    if n < 10 {
        seq![digit_char(n as int)]
    } else {
        numeral(n / 10) + seq![digit_char((n % 10) as int)]
    }
}

/// The decimal text of `i`: its numeral, after a minus sign when `i` is negative.
pub open spec fn int_text(i: int) -> Seq<char> {
    if i < 0 {
        seq!['-'] + numeral((-i) as nat)
    } else {
        numeral(i as nat)
    }
}

fn digit_text(d: u32) -> (text: &'static str)
    requires
        d < 10,
    ensures
        text@ == seq![digit_char(d as int)],
{
    proof {
        reveal_strlit("0");
        reveal_strlit("1");
        reveal_strlit("2");
        reveal_strlit("3");
        reveal_strlit("4");
        reveal_strlit("5");
        reveal_strlit("6");
        reveal_strlit("7");
        reveal_strlit("8");
        reveal_strlit("9");
    }
    let text = match d {
        0 => "0",
        1 => "1",
        2 => "2",
        3 => "3",
        4 => "4",
        5 => "5",
        6 => "6",
        7 => "7",
        8 => "8",
        _ => "9",
    };
    assert(text@ =~= seq![digit_char(d as int)]);
    text
}

/// Writes `n` in decimal.
pub fn format_u32(n: u32) -> (text: String)
    ensures
        text@ == numeral(n as nat),
    decreases n,
{
    if n < 10 {
        String::from_str(digit_text(n))
    } else {
        let mut text = format_u32(n / 10);
        text.append(digit_text(n % 10));
        text
    }
}

/// Writes `i` in decimal, with a leading minus sign when it is negative.
pub fn format_i32(i: i32) -> (text: String)
    ensures
        text@ == int_text(i as int),
{
    if i < 0 {
        let magnitude: u32 = (-(i as i64)) as u32;
        let mut text = String::from_str("-");
        proof {
            reveal_strlit("-");
        }
        let digits = format_u32(magnitude);
        text.append(digits.as_str());
        assert(text@ =~= seq!['-'] + numeral((-i) as nat));
        text
    } else {
        format_u32(i as u32)
    }
}

/// Whether every character of `s` is a digit.
pub open spec fn all_digits(s: Seq<char>) -> bool {
    forall|i: int| 0 <= i < s.len() ==> is_digit(#[trigger] s[i])
}

/// The number that a run of digits writes, read from the left; 0 for the empty run.
pub open spec fn numeral_value(s: Seq<char>) -> nat
    decreases s.len(),
{
    if s.len() == 0 {
        0
    } else {
        (numeral_value(s.drop_last()) * 10 + digit_value(s.last())) as nat
    }
}

/// Whether `s` starts with a sign, `+` or `-`.
pub open spec fn has_sign(s: Seq<char>) -> bool {
    s.len() > 0 && (s[0] == '-' || s[0] == '+')
}

/// What follows the sign of `s`, or all of `s` where it has none.
pub open spec fn unsigned_part(s: Seq<char>) -> Seq<char> {
    if has_sign(s) {
        s.subrange(1, s.len() as int)
    } else {
        s
    }
}

/// The integer that `s` writes: an optional sign, then one digit or more and
/// nothing else. Any other text writes no integer.
pub open spec fn parse_int(s: Seq<char>) -> Option<int> {
    let digits = unsigned_part(s);
    if digits.len() == 0 || !all_digits(digits) {
        None
    } else if s[0] == '-' {
        Some(-(numeral_value(digits) as int))
    } else {
        Some(numeral_value(digits) as int)
    }
}

/// The `i32` that `s` writes, if it writes an integer and that integer fits.
pub open spec fn parse_i32_spec(s: Seq<char>) -> Option<i32> {
    match parse_int(s) {
        Some(v) => if i32::MIN <= v <= i32::MAX {
            Some(v as i32)
        } else {
            None
        },
        None => None,
    }
}

/// Reading more digits never gives a smaller number.
proof fn lemma_value_grows(s: Seq<char>, k: int)
    requires
        all_digits(s),
        0 <= k <= s.len(),
    ensures
        numeral_value(s.subrange(0, k)) <= numeral_value(s),
    decreases s.len() - k,
{
    if k == s.len() {
        assert(s.subrange(0, k) =~= s);
    } else {
        lemma_value_grows(s, k + 1);
        let longer = s.subrange(0, k + 1);
        assert(longer.drop_last() =~= s.subrange(0, k));
        assert(is_digit(s[k]));
        assert(longer.last() == s[k]);
    }
}

/// Reads a decimal integer: an optional `+` or `-`, then digits only. Text that
/// is empty, holds anything else, or writes a number outside `i32` gives `None`.
pub fn parse_i32(text: &str) -> (value: Option<i32>)
    ensures
        value == parse_i32_spec(text@),
{
    if !text.is_ascii() {
        proof {
            let s = text@;
            let i = choose|i: int| 0 <= i < s.len() && !('\0' <= #[trigger] s[i] <= '\u{7f}');
            let digits = unsigned_part(s);
            if has_sign(s) {
                assert(i >= 1);
                assert(digits[i - 1] == s[i]);
                assert(!is_digit(digits[i - 1]));
            } else {
                assert(!is_digit(digits[i]));
            }
        }
        return None;
    }
    let n = text.as_bytes().len();
    assert(n == text@.len()) by {
        is_ascii_spec_bytes(text);
    }
    if n == 0 {
        return None;
    }
    let first = text.get_ascii(0);
    let negative = first == MINUS_SIGN;
    let start: usize = if first == MINUS_SIGN || first == PLUS_SIGN {
        1
    } else {
        0
    };
    let ghost digits = unsigned_part(text@);
    assert(digits =~= text@.subrange(start as int, n as int));
    if start == n {
        return None;
    }
    let mut value: i64 = 0;
    let mut i = start;
    while i < n
        invariant
            text.is_ascii(),
            n == text@.len(),
            start <= i <= n,
            digits == unsigned_part(text@),
            digits == text@.subrange(start as int, n as int),
            all_digits(digits.subrange(0, i - start)),
            value == numeral_value(digits.subrange(0, i - start)),
            value <= 2147483648,
        decreases n - i,
    {
        let b = text.get_ascii(i);
        if b < DIGIT_ZERO || b > DIGIT_NINE {
            assert(!is_digit(digits[i - start]));
            return None;
        }
        proof {
            let longer = digits.subrange(0, i + 1 - start);
            assert(longer.drop_last() =~= digits.subrange(0, i - start));
            assert(longer.last() == text@[i as int]);
            assert(is_digit(text@[i as int]));
        }
        value = value * 10 + (b - DIGIT_ZERO) as i64;
        if value > 2147483648 {
            proof {
                if all_digits(digits) {
                    lemma_value_grows(digits, i + 1 - start);
                }
            }
            return None;
        }
        i = i + 1;
    }
    assert(digits.subrange(0, n - start) =~= digits);
    if negative {
        Some((-value) as i32)
    } else if value > 2147483647 {
        None
    } else {
        Some(value as i32)
    }
}

/// A numeral is a non-empty run of digits that writes the number it was made from.
pub proof fn lemma_numeral_reads_back(n: nat)
    ensures
        numeral(n).len() > 0,
        all_digits(numeral(n)),
        numeral_value(numeral(n)) == n,
    decreases n,
{
    if n < 10 {
        let one = seq![digit_char(n as int)];
        assert(one.drop_last().len() == 0);
        assert(numeral_value(one) == numeral_value(one.drop_last()) * 10 + digit_value(one.last()));
    } else {
        lemma_numeral_reads_back(n / 10);
        let whole = numeral(n);
        let last = digit_char((n % 10) as int);
        assert(whole.drop_last() =~= numeral(n / 10));
        assert(whole.last() == last);
        assert forall|i: int| 0 <= i < whole.len() implies is_digit(#[trigger] whole[i]) by {
            if i < whole.len() - 1 {
                assert(whole[i] == numeral(n / 10)[i]);
            }
        }
    }
}

/// Reading what was written gives the number back: for every integer `i`, the
/// text of `i` parses to `i`, and to the same `i32` where `i` fits in one.
pub proof fn lemma_parse_inverts_text(i: int)
    ensures
        parse_int(int_text(i)) == Some(i),
        i32::MIN <= i <= i32::MAX ==> parse_i32_spec(int_text(i)) == Some(i as i32),
{
    if i < 0 {
        let digits = numeral((-i) as nat);
        lemma_numeral_reads_back((-i) as nat);
        let text = int_text(i);
        assert(text[0] == '-');
        assert(unsigned_part(text) =~= digits);
    } else {
        lemma_numeral_reads_back(i as nat);
        let text = int_text(i);
        assert(is_digit(text[0]));
    }
}

} // verus!
