//! Decimal text of integers.

use vstd::prelude::*;

verus! {

/// The character that stands for the digit `d`.
pub open spec fn digit_char(d: nat) -> char {
    if d == 0 {
        '0'
    } else if d == 1 {
        '1'
    } else if d == 2 {
        '2'
    } else if d == 3 {
        '3'
    } else if d == 4 {
        '4'
    } else if d == 5 {
        '5'
    } else if d == 6 {
        '6'
    } else if d == 7 {
        '7'
    } else if d == 8 {
        '8'
    } else {
        '9'
    }
}

/// The decimal digits of `n`, most significant first, without leading zeros;
/// zero is the single digit `0`.
pub open spec fn decimal_nat(n: nat) -> Seq<char>
    decreases n,
{
    if n < 10 {
        seq![digit_char(n)]
    } else {
        decimal_nat(n / 10).push(digit_char(n % 10))
    }
}

/// The decimal text of `n`: a minus sign before the digits of a negative
/// number, the bare digits otherwise.
pub open spec fn decimal_int(n: int) -> Seq<char> {
    if n < 0 {
        seq!['-'] + decimal_nat((-n) as nat)
    } else {
        decimal_nat(n as nat)
    }
}

/// Whether `c` is one of the ten digits.
pub open spec fn is_digit(c: char) -> bool {
    exists|d: nat| d < 10 && c == digit_char(d)
}

/// The digits of a number are at least one, and each of them is a digit.
pub proof fn decimal_nat_is_digits(n: nat)
    ensures
        decimal_nat(n).len() >= 1,
        forall|i: int| 0 <= i < decimal_nat(n).len() ==> is_digit(#[trigger] decimal_nat(n)[i]),
    decreases n,
{
    if n < 10 {
        assert(is_digit(digit_char(n)));
    } else {
        decimal_nat_is_digits(n / 10);
        assert(is_digit(digit_char(n % 10)));
    }
}

/// Two digits with the same character are the same digit.
pub proof fn digit_char_injective(a: nat, b: nat)
    requires
        a < 10,
        b < 10,
        digit_char(a) == digit_char(b),
    ensures
        a == b,
{
}

/// Two numbers with the same digits are the same number.
pub proof fn decimal_nat_injective(a: nat, b: nat)
    requires
        decimal_nat(a) == decimal_nat(b),
    ensures
        a == b,
    decreases a,
{
    decimal_nat_is_digits(a / 10);
    decimal_nat_is_digits(b / 10);
    if a < 10 {
        assert(decimal_nat(a).len() == 1);
        assert(b < 10) by {
            if b >= 10 {
                assert(decimal_nat(b).len() >= 2);
            }
        }
        assert(decimal_nat(a)[0] == digit_char(a));
        assert(decimal_nat(b)[0] == digit_char(b));
        digit_char_injective(a, b);
    } else {
        assert(decimal_nat(a).len() >= 2);
        assert(b >= 10) by {
            if b < 10 {
                assert(decimal_nat(b).len() == 1);
            }
        }
        let high_a = decimal_nat(a / 10);
        let high_b = decimal_nat(b / 10);
        let low_a = digit_char(a % 10);
        let low_b = digit_char(b % 10);
        assert(high_a == high_b) by {
            assert(high_a.push(low_a).drop_last() =~= high_a);
            assert(high_b.push(low_b).drop_last() =~= high_b);
        }
        assert(low_a == low_b) by {
            assert(high_a.push(low_a).last() == low_a);
            assert(high_b.push(low_b).last() == low_b);
        }
        digit_char_injective(a % 10, b % 10);
        decimal_nat_injective(a / 10, b / 10);
    }
}

/// Two integers with the same decimal text are the same integer.
pub proof fn decimal_int_injective(a: int, b: int)
    requires
        decimal_int(a) == decimal_int(b),
    ensures
        a == b,
{
    if a < 0 && b < 0 {
        let digits_a = decimal_nat((-a) as nat);
        let digits_b = decimal_nat((-b) as nat);
        assert(decimal_int(a).subrange(1, 1 + digits_a.len() as int) =~= digits_a);
        assert(decimal_int(b).subrange(1, 1 + digits_b.len() as int) =~= digits_b);
        decimal_nat_injective((-a) as nat, (-b) as nat);
    } else if a >= 0 && b >= 0 {
        decimal_nat_injective(a as nat, b as nat);
    } else {
        let (negative, other) = if a < 0 {
            (a, b)
        } else {
            (b, a)
        };
        decimal_nat_is_digits(other as nat);
        assert(decimal_int(negative)[0] == '-');
        assert(is_digit(decimal_int(other)[0]));
    }
}

/// The one-character string of a single digit.
fn digit_str(d: u64) -> (s: &'static str)
    requires
        d < 10,
    ensures
        s@ == seq![digit_char(d as nat)],
{
    proof {
        reveal_strlit("0");
        reveal_strlit("1");
        reveal_strlit("2");
        reveal_strlit("3");
        reveal_strlit("4");
        reveal_strlit("5");
        reveal_strlit("6");
        reveal_strlit("7");
        reveal_strlit("8");
        reveal_strlit("9");
    }
    let s = if d == 0 {
        "0"
    } else if d == 1 {
        "1"
    } else if d == 2 {
        "2"
    } else if d == 3 {
        "3"
    } else if d == 4 {
        "4"
    } else if d == 5 {
        "5"
    } else if d == 6 {
        "6"
    } else if d == 7 {
        "7"
    } else if d == 8 {
        "8"
    } else {
        "9"
    };
    assert(s@ =~= seq![digit_char(d as nat)]);
    s
}

/// Appends the decimal digits of `n` to `out`.
pub fn append_unsigned(out: &mut String, n: u64)
    ensures
        final(out)@ == old(out)@ + decimal_nat(n as nat),
    decreases n,
{
    if n >= 10 {
        append_unsigned(out, n / 10);
    }
    out.append(digit_str(n % 10));
    assert(out@ =~= old(out)@ + decimal_nat(n as nat));
}

/// Appends the decimal text of `n` to `out`.
pub fn append_signed(out: &mut String, n: i64)
    ensures
        final(out)@ == old(out)@ + decimal_int(n as int),
{
    if n < 0 {
        proof {
            reveal_strlit("-");
        }
        out.append("-");
        let magnitude: u64 = if n == i64::MIN {
            9223372036854775808u64
        } else {
            (-n) as u64
        };
        append_unsigned(out, magnitude);
        assert(out@ =~= old(out)@ + decimal_int(n as int));
    } else {
        append_unsigned(out, n as u64);
    }
}

/// The decimal text of an unsigned integer.
pub fn format_unsigned(n: u64) -> (text: String)
    ensures
        text@ == decimal_nat(n as nat),
{
    let mut text = String::new();
    append_unsigned(&mut text, n);
    assert(text@ =~= decimal_nat(n as nat));
    text
}

/// The decimal text of a signed integer.
pub fn format_signed(n: i64) -> (text: String)
    ensures
        text@ == decimal_int(n as int),
{
    let mut text = String::new();
    append_signed(&mut text, n);
    assert(text@ =~= decimal_int(n as int));
    text
}

} // verus!
