//! Integers written out in base 2, 8, 10 or 16.

use crate::specifier::FormatType;
use vstd::arithmetic::div_mod::{lemma_div_decreases, lemma_fundamental_div_mod};
use vstd::prelude::*;

verus! {

/// The character for the digit `d`: `0` to `9`, then `a` to `f` or `A` to `F`.
pub open spec fn digit_char(d: nat, upper: bool) -> char
    recommends
        d < 16,
{
    if d < 10 {
        ('0' as nat + d) as char
    } else if upper {
        ('A' as nat + d - 10) as char
    } else {
        ('a' as nat + d - 10) as char
    }
}

/// The digits of `n` in base `base`, most significant first, with no
/// leading zero; zero is the single digit `0`.
pub open spec fn radix_digits(n: nat, base: nat, upper: bool) -> Seq<char>
    recommends
        2 <= base <= 16,
    decreases n,
{
    if base < 2 || n < base {
        seq![digit_char(n, upper)]
    } else {
        proof {
            lemma_div_decreases(n as int, base as int);
        }
        radix_digits(n / base, base, upper).push(digit_char(n % base, upper))
    }
}

/// The base in which a type writes an integer: 2, 8 or 16 for the radix
/// types, 10 for the others.
pub open spec fn base_of(t: FormatType) -> nat {
    match t {
        FormatType::Binary => 2,
        FormatType::Octal => 8,
        FormatType::Hex => 16,
        FormatType::HexUpper => 16,
        _ => 10,
    }
}

/// The digits of `n` as the type `t` writes an integer.
pub open spec fn integer_digits(n: nat, t: FormatType) -> Seq<char> {
    radix_digits(n, base_of(t), t is HexUpper)
}

/// The value of the digit character `c`, in either case.
pub open spec fn digit_of(c: char) -> nat {
    if '0' <= c && c <= '9' {
        (c as int - '0' as int) as nat
    } else if 'a' <= c && c <= 'f' {
        (c as int - 'a' as int + 10) as nat
    } else {
        (c as int - 'A' as int + 10) as nat
    }
}

/// The number that `digits` denote in base `base`; 0 for no digits.
pub open spec fn radix_value(digits: Seq<char>, base: nat) -> nat
    decreases digits.len(),
{
    if digits.len() == 0 {
        0
    } else {
        radix_value(digits.drop_last(), base) * base + digit_of(digits.last())
    }
}

/// The digits of a number denote that number.
pub proof fn lemma_radix_digits_value(n: nat, base: nat, upper: bool)
    requires
        2 <= base <= 16,
    ensures
        radix_value(radix_digits(n, base, upper), base) == n,
    decreases n,
{
    let digits = radix_digits(n, base, upper);
    if n < base {
        assert(digits == seq![digit_char(n, upper)]);
        assert(digits.len() == 1);
        assert(digits.drop_last().len() == 0);
        assert(digits.last() == digit_char(n, upper));
        assert(digit_of(digit_char(n, upper)) == n);
        assert(radix_value(digits.drop_last(), base) == 0);
        assert(radix_value(digits, base) == radix_value(digits.drop_last(), base) * base
            + digit_of(digits.last()));
        assert(0 * base == 0) by (nonlinear_arith);
    } else {
        lemma_div_decreases(n as int, base as int);
        lemma_radix_digits_value(n / base, base, upper);
        lemma_fundamental_div_mod(n as int, base as int);
        assert(n % base < base) by (nonlinear_arith)
            requires
                base >= 2,
        ;
        let front = radix_digits(n / base, base, upper);
        assert(digits == front.push(digit_char(n % base, upper)));
        assert(digits.len() == front.len() + 1);
        assert(digits.drop_last() == front);
        assert(digits.last() == digit_char(n % base, upper));
        assert(digit_of(digit_char(n % base, upper)) == n % base);
        assert((n / base) * base == base * (n / base)) by (nonlinear_arith);
        assert(radix_value(digits, base) == radix_value(digits.drop_last(), base) * base
            + digit_of(digits.last()));
    }
}

/// A number other than zero is written without a leading zero.
pub proof fn lemma_radix_digits_lead(n: nat, base: nat, upper: bool)
    requires
        2 <= base <= 16,
        n > 0,
    ensures
        radix_digits(n, base, upper)[0] != '0',
    decreases n,
{
    if n >= base {
        lemma_div_decreases(n as int, base as int);
        assert(n / base > 0) by (nonlinear_arith)
            requires
                n >= base,
                base >= 2,
        ;
        lemma_radix_digits_lead(n / base, base, upper);
        lemma_radix_digits_alphabet(n / base, base, upper);
    }
}

/// Every digit of a number written in base 16 or less is a decimal digit or
/// one of the letters `a` to `f`, in the chosen case.
pub proof fn lemma_radix_digits_alphabet(n: nat, base: nat, upper: bool)
    requires
        2 <= base <= 16,
    ensures
        radix_digits(n, base, upper).len() >= 1,
        forall|i: int|
            0 <= i < radix_digits(n, base, upper).len() ==> {
                let c = #[trigger] radix_digits(n, base, upper)[i];
                ('0' <= c && c <= '9') || (!upper && 'a' <= c && c <= 'f') || (upper && 'A' <= c
                    && c <= 'F')
            },
    decreases n,
{
    if n >= base {
        lemma_div_decreases(n as int, base as int);
        lemma_radix_digits_alphabet(n / base, base, upper);
        assert(n % base < base) by (nonlinear_arith)
            requires
                base >= 2,
        ;
    }
}

fn digit_for(d: u8, upper: bool) -> (c: char)
    requires
        d < 16,
    ensures
        c == digit_char(d as nat, upper),
{
    if d < 10 {
        (48u8 + d) as char
    } else if upper {
        (55u8 + d) as char
    } else {
        (87u8 + d) as char
    }
}

fn radix_text(n: u64, base: u64, upper: bool) -> (digits: Vec<char>)
    requires
        2 <= base <= 16,
    ensures
        digits@ == radix_digits(n as nat, base as nat, upper),
    decreases n,
{
    if n < base {
        let mut digits: Vec<char> = Vec::new();
        digits.push(digit_for(n as u8, upper));
        digits
    } else {
        proof {
            lemma_div_decreases(n as int, base as int);
        }
        let mut digits = radix_text(n / base, base, upper);
        digits.push(digit_for((n % base) as u8, upper));
        digits
    }
}

/// Writes `n` as the type `format_type` writes an integer: in base 2, 8 or
/// 16 for the radix types, in base 10 for the others.
pub fn integer_text(n: u64, format_type: &FormatType) -> (digits: Vec<char>)
    ensures
        digits@ == integer_digits(n as nat, *format_type),
{
    match format_type {
        FormatType::Binary => radix_text(n, 2, false),
        FormatType::Octal => radix_text(n, 8, false),
        FormatType::Hex => radix_text(n, 16, false),
        FormatType::HexUpper => radix_text(n, 16, true),
        _ => radix_text(n, 10, false),
    }
}

} // verus!
