//! Decimal text of integers, as it appears in `wmctrl` arguments.

use vstd::prelude::*;

verus! {

/// The character that stands for the digit `d`.
pub open spec fn digit_char(d: nat) -> char
    recommends
        d < 10,
{
    if d == 0 {
        '0'
    } else if d == 1 {
        '1'
    } else if d == 2 {
        '2'
    } else if d == 3 {
        '3'
    } else if d == 4 {
        '4'
    } else if d == 5 {
        '5'
    } else if d == 6 {
        '6'
    } else if d == 7 {
        '7'
    } else if d == 8 {
        '8'
    } else {
        '9'
    }
}

/// The decimal digits of `n`, most significant first, without leading zeros.
pub open spec fn decimal_nat(n: nat) -> Seq<char>
    decreases n,
{
    if n < 10 {
        seq![digit_char(n)]
    } else {
        decimal_nat(n / 10).push(digit_char(n % 10))
    }
}

/// The decimal text of `n`: a minus sign for a negative number, then the
/// digits of its magnitude.
pub open spec fn decimal(n: int) -> Seq<char> {
    if n < 0 {
        seq!['-'] + decimal_nat((-n) as nat)
    } else {
        decimal_nat(n as nat)
    }
}

/// The one-character text of a single digit.
pub fn digit_text(d: u64) -> (text: &'static str)
    requires
        d < 10,
    ensures
        text@ == seq![digit_char(d as nat)],
{
    proof {
        reveal_strlit("0");
        reveal_strlit("1");
        reveal_strlit("2");
        reveal_strlit("3");
        reveal_strlit("4");
        reveal_strlit("5");
        reveal_strlit("6");
        reveal_strlit("7");
        reveal_strlit("8");
        reveal_strlit("9");
    }
    let text = if d == 0 {
        "0"
    } else if d == 1 {
        "1"
    } else if d == 2 {
        "2"
    } else if d == 3 {
        "3"
    } else if d == 4 {
        "4"
    } else if d == 5 {
        "5"
    } else if d == 6 {
        "6"
    } else if d == 7 {
        "7"
    } else if d == 8 {
        "8"
    } else {
        "9"
    };
    assert(text@ =~= seq![digit_char(d as nat)]);
    text
}

/// Appends the decimal digits of `n` to `out`.
pub fn append_decimal_nat(out: &mut String, n: u64)
    ensures
        final(out)@ == old(out)@ + decimal_nat(n as nat),
    decreases n,
{
    if n >= 10 {
        append_decimal_nat(out, n / 10);
    }
    let ghost before = out@;
    out.append(digit_text(n % 10));
    assert(out@ =~= old(out)@ + decimal_nat(n as nat)) by {
        if n >= 10 {
            assert(before == old(out)@ + decimal_nat((n / 10) as nat));
        }
    }
}

/// Appends the decimal text of `n` to `out`.
pub fn append_decimal(out: &mut String, n: i64)
    ensures
        final(out)@ == old(out)@ + decimal(n as int),
{
    if n < 0 {
        proof {
            reveal_strlit("-");
        }
        out.append("-");
        let magnitude: u64 = if n == i64::MIN {
            9223372036854775808u64
        } else {
            (-n) as u64
        };
        append_decimal_nat(out, magnitude);
        assert(out@ =~= old(out)@ + decimal(n as int));
    } else {
        append_decimal_nat(out, n as u64);
    }
}

/// The digit that `c` stands for, if it is a decimal digit.
pub open spec fn digit_value(c: char) -> Option<nat> {
    if c == '0' {
        Some(0)
    } else if c == '1' {
        Some(1)
    } else if c == '2' {
        Some(2)
    } else if c == '3' {
        Some(3)
    } else if c == '4' {
        Some(4)
    } else if c == '5' {
        Some(5)
    } else if c == '6' {
        Some(6)
    } else if c == '7' {
        Some(7)
    } else if c == '8' {
        Some(8)
    } else if c == '9' {
        Some(9)
    } else {
        None
    }
}

/// Whether every character of `text` is a decimal digit.
pub open spec fn all_digits(text: Seq<char>) -> bool {
    forall|i: int| 0 <= i < text.len() ==> digit_value(#[trigger] text[i]) is Some
}

/// The number that a run of decimal digits stands for. A character that is
/// no digit counts as 0.
pub open spec fn digits_value(text: Seq<char>) -> nat
    decreases text.len(),
{
    if text.len() == 0 {
        0
    } else {
        digits_value(text.drop_last()) * 10 + match digit_value(text.last()) {
            Some(d) => d,
            None => 0,
        }
    }
}

/// The number that `text` stands for, where it is one or more decimal
/// digits.
pub open spec fn magnitude(text: Seq<char>) -> Option<nat> {
    if text.len() > 0 && all_digits(text) {
        Some(digits_value(text))
    } else {
        None
    }
}

/// The integer that `text` stands for, where it is one or more decimal
/// digits with or without a minus sign before them.
pub open spec fn number(text: Seq<char>) -> Option<int> {
    if text.len() > 0 && text[0] == '-' {
        match magnitude(text.subrange(1, text.len() as int)) {
            Some(m) => Some(-m),
            None => None,
        }
    } else {
        match magnitude(text) {
            Some(m) => Some(m as int),
            None => None,
        }
    }
}

/// The 32-bit integer that `text` stands for, where it stands for an
/// integer and that integer fits.
pub open spec fn number_i32(text: Seq<char>) -> Option<i32> {
    match number(text) {
        Some(v) => if i32::MIN <= v <= i32::MAX {
            Some(v as i32)
        } else {
            None
        },
        None => None,
    }
}

/// The digit that `c` stands for, if it is a decimal digit.
pub fn digit_of(c: char) -> (digit: Option<u64>)
    ensures
        match digit {
            Some(d) => digit_value(c) == Some(d as nat),
            None => digit_value(c) is None,
        },
{
    if c == '0' {
        Some(0)
    } else if c == '1' {
        Some(1)
    } else if c == '2' {
        Some(2)
    } else if c == '3' {
        Some(3)
    } else if c == '4' {
        Some(4)
    } else if c == '5' {
        Some(5)
    } else if c == '6' {
        Some(6)
    } else if c == '7' {
        Some(7)
    } else if c == '8' {
        Some(8)
    } else if c == '9' {
        Some(9)
    } else {
        None
    }
}

/// Reads the characters of `text` from position `from` on as a run of
/// decimal digits. The result is their number where there is at least one
/// character, all are digits and the number is at most `limit`.
pub fn parse_magnitude(text: &str, from: usize, limit: u64) -> (result: Option<u64>)
    requires
        from <= text@.len(),
    ensures
        result == match magnitude(text@.subrange(from as int, text@.len() as int)) {
            Some(m) => if m <= limit {
                Some(m as u64)
            } else {
                None
            },
            None => None,
        },
{
    let len: usize = text.unicode_len();
    let ghost whole = text@.subrange(from as int, len as int);
    let mut at: usize = from;
    let mut value: u64 = 0;
    let mut over: bool = false;
    while at < len
        invariant
            len == text@.len(),
            from <= at <= len,
            whole == text@.subrange(from as int, len as int),
            all_digits(text@.subrange(from as int, at as int)),
            !over ==> value == digits_value(text@.subrange(from as int, at as int)) && value
                <= limit,
            over ==> digits_value(text@.subrange(from as int, at as int)) > limit,
        decreases len - at,
    {
        let ghost before = text@.subrange(from as int, at as int);
        let ghost after = text@.subrange(from as int, at + 1);
        proof {
            assert(after.drop_last() =~= before);
            assert(after.last() == text@[at as int]);
            assert(whole[at - from] == text@[at as int]);
        }
        match digit_of(text.get_char(at)) {
            None => {
                return None;
            },
            Some(d) => {
                assert(d < 10);
                assert(digits_value(after) == digits_value(before) * 10 + d);
                assert forall|i: int| 0 <= i < after.len() implies digit_value(
                    #[trigger] after[i],
                ) is Some by {
                    if i < before.len() {
                        assert(after[i] == before[i]);
                    }
                }
                if !over {
                    if value > limit / 10 || d > limit - value * 10 {
                        over = true;
                    } else {
                        value = value * 10 + d;
                    }
                }
            },
        }
        at += 1;
    }
    assert(text@.subrange(from as int, at as int) =~= whole);
    if at == from || over {
        None
    } else {
        Some(value)
    }
}

/// Reads `text` as a 32-bit integer in decimal, with or without a minus
/// sign.
pub fn parse_i32(text: &str) -> (result: Option<i32>)
    ensures
        result == number_i32(text@),
{
    let len: usize = text.unicode_len();
    if len > 0 && text.get_char(0) == '-' {
        match parse_magnitude(text, 1, 2147483648) {
            Some(m) => {
                let value: i64 = -(m as i64);
                Some(value as i32)
            },
            None => None,
        }
    } else {
        assert(text@.subrange(0, len as int) =~= text@);
        match parse_magnitude(text, 0, 2147483647) {
            Some(m) => Some(m as i32),
            None => None,
        }
    }
}

/// The digits of a number are digits, there is at least one of them, and
/// they stand for that number.
pub proof fn lemma_magnitude_of_decimal_nat(n: nat)
    ensures
        magnitude(decimal_nat(n)) == Some(n),
        decimal_nat(n)[0] != '-',
    decreases n,
{
    let text = decimal_nat(n);
    if n < 10 {
        assert(text.drop_last() =~= Seq::<char>::empty());
        assert(digits_value(text.drop_last()) == 0);
        assert(digit_value(digit_char(n)) == Some(n));
    } else {
        lemma_magnitude_of_decimal_nat(n / 10);
        let head = decimal_nat(n / 10);
        assert(text.drop_last() =~= head);
        assert(text.last() == digit_char(n % 10));
        assert(digit_value(digit_char(n % 10)) == Some(n % 10));
        assert(text[0] == head[0]);
        assert forall|i: int| 0 <= i < text.len() implies digit_value(
            #[trigger] text[i],
        ) is Some by {
            if i < head.len() {
                assert(text[i] == head[i]);
            }
        }
    }
}

/// Reading the decimal text of an integer gives that integer back.
pub proof fn lemma_number_of_decimal(n: int)
    ensures
        number(decimal(n)) == Some(n),
{
    if n < 0 {
        let digits = decimal_nat((-n) as nat);
        lemma_magnitude_of_decimal_nat((-n) as nat);
        assert(decimal(n).subrange(1, decimal(n).len() as int) =~= digits);
    } else {
        lemma_magnitude_of_decimal_nat(n as nat);
    }
}

} // verus!
