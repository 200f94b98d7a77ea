//! Decimal text for integers: the spec-level digit sequences, executable
//! rendering onto a `String`, and injectivity (two different numbers never
//! render alike), which token allocation relies on for freshness.

use vstd::prelude::*;

verus! {

use vstd::string::StringExecFns;

/// The character for one decimal digit.
pub open spec fn digit_char(d: int) -> char
    recommends
        0 <= d < 10,
{
    if d == 0 {
        '0'
    } else if d == 1 {
        '1'
    } else if d == 2 {
        '2'
    } else if d == 3 {
        '3'
    } else if d == 4 {
        '4'
    } else if d == 5 {
        '5'
    } else if d == 6 {
        '6'
    } else if d == 7 {
        '7'
    } else if d == 8 {
        '8'
    } else {
        '9'
    }
}

/// Decimal text of a nonnegative integer, most significant digit first,
/// without leading zeros (zero itself is `"0"`).
pub open spec fn dec_digits(n: int) -> Seq<char>
    recommends
        n >= 0,
    decreases n,
{
    if n < 10 {
        seq![digit_char(n)]
    } else {
        dec_digits(n / 10) + seq![digit_char(n % 10)]
    }
}

/// Decimal text of an integer, with a leading minus sign when negative.
pub open spec fn dec_int(n: int) -> Seq<char> {
    if n < 0 {
        seq!['-'] + dec_digits(-n)
    } else {
        dec_digits(n)
    }
}

/// The decimal text of a nonnegative integer is one digit exactly for
/// numbers under ten, and longer otherwise.
pub proof fn lemma_dec_digits_len(n: int)
    requires
        n >= 0,
    ensures
        dec_digits(n).len() >= 1,
        (n < 10) <==> (dec_digits(n).len() == 1),
    decreases n,
{
    if n >= 10 {
        lemma_dec_digits_len(n / 10);
    }
}

/// The digit characters are pairwise distinct.
pub proof fn lemma_digit_char_injective(a: int, b: int)
    requires
        0 <= a < 10,
        0 <= b < 10,
        digit_char(a) == digit_char(b),
    ensures
        a == b,
{
}

/// Decimal rendering is injective on nonnegative integers.
pub proof fn lemma_dec_digits_injective(a: int, b: int)
    requires
        a >= 0,
        b >= 0,
        dec_digits(a) == dec_digits(b),
    ensures
        a == b,
    decreases a,
{
    lemma_dec_digits_len(a);
    lemma_dec_digits_len(b);
    if a < 10 && b < 10 {
        assert(dec_digits(a)[0] == digit_char(a));
        assert(dec_digits(b)[0] == digit_char(b));
        lemma_digit_char_injective(a, b);
    } else if a < 10 {
        assert(dec_digits(b).len() >= 2) by {
            lemma_dec_digits_len(b / 10);
        }
    } else if b < 10 {
        assert(dec_digits(a).len() >= 2) by {
            lemma_dec_digits_len(a / 10);
        }
    } else {
        let la = dec_digits(a);
        let lb = dec_digits(b);
        assert(la == dec_digits(a / 10) + seq![digit_char(a % 10)]);
        assert(lb == dec_digits(b / 10) + seq![digit_char(b % 10)]);
        assert(la.last() == digit_char(a % 10));
        assert(lb.last() == digit_char(b % 10));
        lemma_digit_char_injective(a % 10, b % 10);
        assert(la.drop_last() =~= dec_digits(a / 10));
        assert(lb.drop_last() =~= dec_digits(b / 10));
        lemma_dec_digits_injective(a / 10, b / 10);
        assert(a == 10 * (a / 10) + a % 10) by {
            vstd::arithmetic::div_mod::lemma_fundamental_div_mod(a, 10);
        }
        assert(b == 10 * (b / 10) + b % 10) by {
            vstd::arithmetic::div_mod::lemma_fundamental_div_mod(b, 10);
        }
    }
}

/// Appends the character of one decimal digit.
pub fn push_digit(out: &mut String, d: u8)
    requires
        d < 10,
    ensures
        final(out)@ == old(out)@ + seq![digit_char(d as int)],
{
    proof {
        reveal_strlit("0");
        reveal_strlit("1");
        reveal_strlit("2");
        reveal_strlit("3");
        reveal_strlit("4");
        reveal_strlit("5");
        reveal_strlit("6");
        reveal_strlit("7");
        reveal_strlit("8");
        reveal_strlit("9");
    }
    match d {
        0 => out.append("0"),
        1 => out.append("1"),
        2 => out.append("2"),
        3 => out.append("3"),
        4 => out.append("4"),
        5 => out.append("5"),
        6 => out.append("6"),
        7 => out.append("7"),
        8 => out.append("8"),
        _ => out.append("9"),
    }
    proof {
        assert(final(out)@ =~= old(out)@ + seq![digit_char(d as int)]);
    }
}

/// Appends the decimal text of a nonnegative number.
pub fn push_decimal(out: &mut String, n: u64)
    ensures
        final(out)@ == old(out)@ + dec_digits(n as int),
    decreases n,
{
    if n < 10 {
        push_digit(out, n as u8);
    } else {
        push_decimal(out, n / 10);
        push_digit(out, (n % 10) as u8);
        proof {
            assert(final(out)@ =~= old(out)@ + dec_digits(n as int));
        }
    }
}

/// Appends the decimal text of a signed number.
pub fn push_decimal_signed(out: &mut String, n: i64)
    ensures
        final(out)@ == old(out)@ + dec_int(n as int),
{
    if n < 0 {
        proof {
            reveal_strlit("-");
        }
        out.append("-");
        let wide: i128 = n as i128;
        let mag: u64 = (-wide) as u64;
        proof {
            assert(mag as int == -(n as int));
        }
        push_decimal(out, mag);
        proof {
            assert(final(out)@ =~= old(out)@ + dec_int(n as int));
        }
    } else {
        push_decimal(out, n as u64);
    }
}

} // verus!
