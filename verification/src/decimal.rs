//! Decimal rendering of integers, as used in tile paths and tile addresses.

use vstd::prelude::*;
use vstd::string::*;

verus! {

/// The character that stands for the decimal digit `d`.
pub open spec fn digit_char(d: int) -> char {
    if d == 0 {
        '0'
    } else if d == 1 {
        '1'
    } else if d == 2 {
        '2'
    } else if d == 3 {
        '3'
    } else if d == 4 {
        '4'
    } else if d == 5 {
        '5'
    } else if d == 6 {
        '6'
    } else if d == 7 {
        '7'
    } else if d == 8 {
        '8'
    } else {
        '9'
    }
}

/// The decimal digits of a natural number, most significant first, without
/// leading zeros.
pub open spec fn decimal_nat(n: nat) -> Seq<char>
    decreases n,
{
    if n < 10 {
        seq![digit_char(n as int)]
    } else {
        decimal_nat(n / 10).push(digit_char((n % 10) as int))
    }
}

/// The decimal text of an integer: a minus sign for a negative number, then
/// the digits of its magnitude.
pub open spec fn decimal(n: int) -> Seq<char> {
    if n < 0 {
        seq!['-'] + decimal_nat((-n) as nat)
    } else {
        decimal_nat(n as nat)
    }
}

/// The one-character text of a single decimal digit.
fn digit_text(d: u64) -> (s: &'static str)
    requires
        d < 10,
    ensures
        s@ == seq![digit_char(d as int)],
{
    proof {
        reveal_strlit("0");
        reveal_strlit("1");
        reveal_strlit("2");
        reveal_strlit("3");
        reveal_strlit("4");
        reveal_strlit("5");
        reveal_strlit("6");
        reveal_strlit("7");
        reveal_strlit("8");
        reveal_strlit("9");
    }
    let s: &'static str = if d == 0 {
        "0"
    } else if d == 1 {
        "1"
    } else if d == 2 {
        "2"
    } else if d == 3 {
        "3"
    } else if d == 4 {
        "4"
    } else if d == 5 {
        "5"
    } else if d == 6 {
        "6"
    } else if d == 7 {
        "7"
    } else if d == 8 {
        "8"
    } else {
        "9"
    };
    assert(s@ =~= seq![digit_char(d as int)]);
    s
}

/// Appends the decimal digits of `n` to `out`.
pub fn push_decimal_nat(out: &mut String, n: u64)
    ensures
        final(out)@ == old(out)@ + decimal_nat(n as nat),
    decreases n,
{
    if n >= 10 {
        push_decimal_nat(out, n / 10);
    }
    out.append(digit_text(n % 10));
    assert(out@ =~= old(out)@ + decimal_nat(n as nat));
}

/// Appends the decimal text of `n` to `out`.
pub fn push_decimal(out: &mut String, n: i64)
    ensures
        final(out)@ == old(out)@ + decimal(n as int),
{
    if n < 0 {
        proof {
            reveal_strlit("-");
        }
        out.append("-");
        let magnitude: u64 = if n == i64::MIN {
            9223372036854775808u64
        } else {
            (-n) as u64
        };
        push_decimal_nat(out, magnitude);
        assert(out@ =~= old(out)@ + decimal(n as int));
    } else {
        push_decimal_nat(out, n as u64);
    }
}

/// Whether `c` may occur in the decimal text of an integer.
pub open spec fn is_decimal_char(c: char) -> bool {
    c == '-' || ('0' <= c && c <= '9')
}

/// The decimal digits of a number are digits, and at least one.
pub proof fn lemma_decimal_nat_digits(n: nat)
    ensures
        decimal_nat(n).len() >= 1,
        n >= 10 ==> decimal_nat(n).len() >= 2,
        forall|i: int|
            0 <= i < decimal_nat(n).len() ==> '0' <= #[trigger] decimal_nat(n)[i] <= '9',
    decreases n,
{
    if n >= 10 {
        lemma_decimal_nat_digits(n / 10);
    }
}

/// Two numbers with the same decimal digits are the same number.
pub proof fn lemma_decimal_nat_injective(a: nat, b: nat)
    requires
        decimal_nat(a) == decimal_nat(b),
    ensures
        a == b,
    decreases a,
{
    lemma_decimal_nat_digits(a);
    lemma_decimal_nat_digits(b);
    if a < 10 {
        assert(decimal_nat(a)[0] == digit_char(a as int));
        assert(decimal_nat(b)[0] == digit_char(b as int));
    } else {
        let upper_a = decimal_nat(a / 10);
        let upper_b = decimal_nat(b / 10);
        assert(decimal_nat(a).drop_last() =~= upper_a);
        assert(decimal_nat(b).drop_last() =~= upper_b);
        lemma_decimal_nat_injective(a / 10, b / 10);
        assert(decimal_nat(a).last() == digit_char((a % 10) as int));
        assert(decimal_nat(b).last() == digit_char((b % 10) as int));
    }
}

/// The decimal text of an integer is not empty, and holds nothing but
/// digits and the minus sign.
pub proof fn lemma_decimal_chars(n: int)
    ensures
        decimal(n).len() >= 1,
        forall|i: int| 0 <= i < decimal(n).len() ==> is_decimal_char(#[trigger] decimal(n)[i]),
{
    if n < 0 {
        lemma_decimal_nat_digits((-n) as nat);
    } else {
        lemma_decimal_nat_digits(n as nat);
    }
}

/// Two integers with the same decimal text are the same integer.
pub proof fn lemma_decimal_injective(a: int, b: int)
    requires
        decimal(a) == decimal(b),
    ensures
        a == b,
{
    let abs_a = (if a < 0 { -a } else { a }) as nat;
    let abs_b = (if b < 0 { -b } else { b }) as nat;
    lemma_decimal_nat_digits(abs_a);
    lemma_decimal_nat_digits(abs_b);
    if a < 0 {
        assert(decimal(a)[0] == '-');
        if b < 0 {
            assert(decimal(a).subrange(1, decimal(a).len() as int) =~= decimal_nat(abs_a));
            assert(decimal(b).subrange(1, decimal(b).len() as int) =~= decimal_nat(abs_b));
            lemma_decimal_nat_injective(abs_a, abs_b);
        } else {
            assert(decimal(b)[0] == decimal_nat(abs_b)[0]);
        }
    } else {
        if b < 0 {
            assert(decimal(b)[0] == '-');
            assert(decimal(a)[0] == decimal_nat(abs_a)[0]);
        } else {
            lemma_decimal_nat_injective(abs_a, abs_b);
        }
    }
}

} // verus!
