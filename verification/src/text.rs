//! Text building blocks shared by the query encoder and the response decoder:
//! decimal numerals, the words for booleans, and joined lists.

use vstd::prelude::*;

verus! {

/// The character that writes the decimal digit `d`.
pub open spec fn digit_char(d: int) -> char
    recommends
        0 <= d < 10,
{
    if d == 0 {
        '0'
    } else if d == 1 {
        '1'
    } else if d == 2 {
        '2'
    } else if d == 3 {
        '3'
    } else if d == 4 {
        '4'
    } else if d == 5 {
        '5'
    } else if d == 6 {
        '6'
    } else if d == 7 {
        '7'
    } else if d == 8 {
        '8'
    } else {
        '9'
    }
}

/// The decimal numeral of a natural number, without leading zeros.
pub open spec fn nat_digits(n: nat) -> Seq<char>
    decreases n,
{
    if n < 10 {
        seq![digit_char(n as int)]
    } else {
        nat_digits(n / 10).push(digit_char((n % 10) as int))
    }
}

/// The decimal numeral of an integer: a minus sign for negative numbers, then
/// the digits of the magnitude.
pub open spec fn decimal(i: int) -> Seq<char> {
    if i < 0 {
        seq!['-'] + nat_digits((-i) as nat)
    } else {
        nat_digits(i as nat)
    }
}

/// The word that writes a boolean.
pub open spec fn bool_word(b: bool) -> Seq<char> {
    if b {
        "true"@
    } else {
        "false"@
    }
}

/// The decimal digit `d` as a string of one character.
fn digit_str(d: u64) -> (r: &'static str)
    requires
        d < 10,
    ensures
        r@ == seq![digit_char(d as int)],
{
    proof {
        reveal_strlit("0");
        reveal_strlit("1");
        reveal_strlit("2");
        reveal_strlit("3");
        reveal_strlit("4");
        reveal_strlit("5");
        reveal_strlit("6");
        reveal_strlit("7");
        reveal_strlit("8");
        reveal_strlit("9");
    }
    let r = if d == 0 {
        "0"
    } else if d == 1 {
        "1"
    } else if d == 2 {
        "2"
    } else if d == 3 {
        "3"
    } else if d == 4 {
        "4"
    } else if d == 5 {
        "5"
    } else if d == 6 {
        "6"
    } else if d == 7 {
        "7"
    } else if d == 8 {
        "8"
    } else {
        "9"
    };
    assert(r@ =~= seq![digit_char(d as int)]);
    r
}

/// Appends the decimal numeral of `n` to `out`.
pub fn push_nat(out: &mut String, n: u64)
    ensures
        final(out)@ == old(out)@ + nat_digits(n as nat),
    decreases n,
{
    if n >= 10 {
        push_nat(out, n / 10);
    }
    out.append(digit_str(n % 10));
    assert(out@ =~= old(out)@ + nat_digits(n as nat));
}

/// Appends the decimal numeral of `i` to `out`.
pub fn push_decimal(out: &mut String, i: i64)
    ensures
        final(out)@ == old(out)@ + decimal(i as int),
{
    if i < 0 {
        out.append("-");
        let magnitude: u64 = if i == i64::MIN {
            9223372036854775808u64
        } else {
            (-i) as u64
        };
        push_nat(out, magnitude);
        proof {
            reveal_strlit("-");
            assert("-"@ =~= seq!['-']);
            assert(out@ =~= old(out)@ + decimal(i as int));
        }
    } else {
        push_nat(out, i as u64);
    }
}

/// The decimal numeral of `i` as a string.
pub fn decimal_string(i: i64) -> (r: String)
    ensures
        r@ == decimal(i as int),
{
    let mut out = String::new();
    push_decimal(&mut out, i);
    assert(out@ =~= decimal(i as int));
    out
}

/// The word for `b`: `true` or `false`.
pub fn bool_str(b: bool) -> (r: &'static str)
    ensures
        r@ == bool_word(b),
{
    if b {
        "true"
    } else {
        "false"
    }
}

/// Whether a character is one of the ten decimal digits.
pub open spec fn is_digit(c: char) -> bool {
    c == '0' || c == '1' || c == '2' || c == '3' || c == '4' || c == '5' || c == '6' || c == '7'
        || c == '8' || c == '9'
}

/// The number that a decimal digit writes; zero for any other character.
pub open spec fn digit_of(c: char) -> nat {
    if c == '1' {
        1
    } else if c == '2' {
        2
    } else if c == '3' {
        3
    } else if c == '4' {
        4
    } else if c == '5' {
        5
    } else if c == '6' {
        6
    } else if c == '7' {
        7
    } else if c == '8' {
        8
    } else if c == '9' {
        9
    } else {
        0
    }
}

/// Whether a text is made of decimal digits, and of at least one.
pub open spec fn all_digits(s: Seq<char>) -> bool {
    s.len() > 0 && forall|i: int| 0 <= i < s.len() ==> is_digit(#[trigger] s[i])
}

/// The number that a string of digits writes, the last digit counting least.
pub open spec fn digits_to_nat(s: Seq<char>) -> nat
    decreases s.len(),
{
    if s.len() == 0 {
        0
    } else {
        10 * digits_to_nat(s.drop_last()) + digit_of(s.last())
    }
}

/// The integer that a numeral writes: an optional minus sign, then digits.
/// `None` for any other text.
pub open spec fn integer_value(s: Seq<char>) -> Option<int> {
    if s.len() > 0 && s[0] == '-' {
        let digits = s.subrange(1, s.len() as int);
        if all_digits(digits) {
            Some(-(digits_to_nat(digits) as int))
        } else {
            None
        }
    } else if all_digits(s) {
        Some(digits_to_nat(s) as int)
    } else {
        None
    }
}

/// The digits of a number write that number.
pub proof fn lemma_digits_round_trip(n: nat)
    ensures
        all_digits(nat_digits(n)),
        digits_to_nat(nat_digits(n)) == n,
        nat_digits(n)[0] != '-',
    decreases n,
{
    let digits = nat_digits(n);
    assert(digit_of(digit_char((n % 10) as int)) == n % 10);
    if n >= 10 {
        lemma_digits_round_trip(n / 10);
        let shorter = nat_digits(n / 10);
        assert(digits.drop_last() =~= shorter);
        assert(digits.last() == digit_char((n % 10) as int));
        assert forall|i: int| 0 <= i < digits.len() implies is_digit(#[trigger] digits[i]) by {
            if i < shorter.len() {
                assert(digits[i] == shorter[i]);
            }
        }
    } else {
        assert(digits.drop_last() =~= Seq::<char>::empty());
        assert(digits_to_nat(digits.drop_last()) == 0);
        assert(digits.last() == digit_char(n as int));
    }
}

/// Reading the decimal numeral of an integer gives the integer back.
pub proof fn lemma_decimal_round_trip(i: int)
    ensures
        integer_value(decimal(i)) == Some(i),
{
    if i < 0 {
        lemma_digits_round_trip((-i) as nat);
        let s = decimal(i);
        assert(s.subrange(1, s.len() as int) =~= nat_digits((-i) as nat));
    } else {
        lemma_digits_round_trip(i as nat);
    }
}

/// A string of digits writes at least what any front part of it writes.
pub proof fn lemma_digits_grow(s: Seq<char>, k: int)
    requires
        0 <= k <= s.len(),
    ensures
        digits_to_nat(s.take(k)) <= digits_to_nat(s),
    decreases s.len() - k,
{
    if k < s.len() {
        lemma_digits_grow(s, k + 1);
        assert(s.take(k + 1).drop_last() =~= s.take(k));
    } else {
        assert(s.take(k) =~= s);
    }
}

/// The number that a character writes, if it is a decimal digit.
fn digit(c: char) -> (d: Option<i64>)
    ensures
        match d {
            Some(n) => is_digit(c) && n == digit_of(c),
            None => !is_digit(c),
        },
{
    if c == '0' {
        Some(0)
    } else if c == '1' {
        Some(1)
    } else if c == '2' {
        Some(2)
    } else if c == '3' {
        Some(3)
    } else if c == '4' {
        Some(4)
    } else if c == '5' {
        Some(5)
    } else if c == '6' {
        Some(6)
    } else if c == '7' {
        Some(7)
    } else if c == '8' {
        Some(8)
    } else if c == '9' {
        Some(9)
    } else {
        None
    }
}

/// Reads a numeral whose integer lies between `low` and `high`. `None` for
/// any other text, and for a numeral of an integer outside these bounds.
pub fn parse_integer(text: &str, low: i32, high: i32) -> (r: Option<i32>)
    ensures
        r == match integer_value(text@) {
            Some(n) => if low <= n <= high {
                Some(n as i32)
            } else {
                None
            },
            None => None,
        },
{
    let len = text.unicode_len();
    let negative = len > 0 && text.get_char(0) == '-';
    let start: usize = if negative {
        1
    } else {
        0
    };
    let ghost digits = text@.subrange(start as int, len as int);
    proof {
        if !negative {
            assert(digits =~= text@);
        }
    }
    if start == len {
        return None;
    }
    let mut magnitude: i64 = 0;
    let mut i: usize = start;
    while i < len
        invariant
            start <= i <= len,
            len == text@.len(),
            negative == (len > 0 && text@[0] == '-'),
            start == if negative {
                1usize
            } else {
                0usize
            },
            digits == text@.subrange(start as int, len as int),
            !negative ==> digits == text@,
            forall|j: int| 0 <= j < i - start ==> is_digit(#[trigger] digits[j]),
            magnitude == digits_to_nat(digits.take(i - start)),
            0 <= magnitude <= 0x8000_0000,
        decreases len - i,
    {
        let c = text.get_char(i);
        assert(c == digits[i - start]);
        match digit(c) {
            Some(d) => {
                proof {
                    assert(digits.take(i + 1 - start).drop_last() =~= digits.take(i - start));
                }
                magnitude = magnitude * 10 + d;
                if magnitude > 0x8000_0000 {
                    proof {
                        lemma_digits_grow(digits, i + 1 - start);
                    }
                    return None;
                }
            },
            None => {
                return None;
            },
        }
        i = i + 1;
    }
    proof {
        assert(digits.take(len - start) =~= digits);
        assert(all_digits(digits));
    }
    let value: i64 = if negative {
        -magnitude
    } else {
        magnitude
    };
    if low as i64 <= value && value <= high as i64 {
        Some(value as i32)
    } else {
        None
    }
}

} // verus!
