//! The SI prefixes: one for each power of one thousand from 10^-24 to 10^24.

use vstd::arithmetic::power::{lemma_pow_increases, lemma_pow_multiplies, pow};
use vstd::prelude::*;

verus! {

/// The bucket of a number whose decimal exponent is `exponent`: the power
/// of one thousand at or below it, held between -8 and 8.
pub open spec fn si_bucket(exponent: int) -> int {
    let thousands = exponent / 3;
    if thousands < -8 {
        -8
    } else if thousands > 8 {
        8
    } else {
        thousands
    }
}

/// The prefix of a bucket: nothing for bucket 0, one letter for the others.
pub open spec fn si_symbol(bucket: int) -> Seq<char> {
    if bucket == 0 {
        Seq::empty()
    } else {
        seq![si_letter(bucket)]
    }
}

/// The letter of a bucket other than 0.
pub open spec fn si_letter(bucket: int) -> char {
    if bucket <= -8 {
        'y'
    } else if bucket == -7 {
        'z'
    } else if bucket == -6 {
        'a'
    } else if bucket == -5 {
        'f'
    } else if bucket == -4 {
        'p'
    } else if bucket == -3 {
        'n'
    } else if bucket == -2 {
        '\u{b5}'
    } else if bucket == -1 {
        'm'
    } else if bucket == 1 {
        'k'
    } else if bucket == 2 {
        'M'
    } else if bucket == 3 {
        'G'
    } else if bucket == 4 {
        'T'
    } else if bucket == 5 {
        'P'
    } else if bucket == 6 {
        'E'
    } else if bucket == 7 {
        'Z'
    } else {
        'Y'
    }
}

/// Within the table the bucket brackets the exponent: a number with the
/// decimal exponent `e` and the bucket `k` has `3k <= e < 3k + 3`, so it
/// lies from 1000^k up to, and not including, 1000^(k+1). Beyond the table
/// the bucket is the first or the last.
pub proof fn lemma_bucket_brackets_exponent(exponent: int)
    ensures
        -8 <= si_bucket(exponent) <= 8,
        -24 <= exponent < 27 ==> 3 * si_bucket(exponent) <= exponent < 3 * si_bucket(exponent)
            + 3,
        exponent < -24 ==> si_bucket(exponent) == -8,
        exponent >= 27 ==> si_bucket(exponent) == 8,
{
}

/// The buckets change exactly at the powers of one thousand: the exponent
/// `3k` is in bucket `k`, and the exponent just below it in the bucket
/// before, if the table has one.
pub proof fn lemma_bucket_at_power_of_thousand(k: int)
    requires
        -8 <= k <= 8,
    ensures
        si_bucket(3 * k) == k,
        k > -8 ==> si_bucket(3 * k - 1) == k - 1,
{
}

/// A whole number from 1000^k up to, and not including, 1000^(k+1) is in
/// bucket `k`, or in the last bucket if the table ends before `k`.
/// `exponent` is the decimal exponent of the number.
pub proof fn lemma_bucket_of_whole_number(n: nat, exponent: nat, k: nat)
    requires
        pow(10, exponent) <= n < pow(10, exponent + 1),
        pow(1000, k) <= n < pow(1000, k + 1),
    ensures
        si_bucket(exponent as int) == if k > 8 {
            8
        } else {
            k as int
        },
{
    assert(pow(10, 3) == 1000) by {
        reveal_with_fuel(pow, 4);
    }
    lemma_pow_multiplies(10, 3, k);
    lemma_pow_multiplies(10, 3, k + 1);
    assert(pow(1000, k) == pow(10, 3 * k));
    assert(pow(1000, k + 1) == pow(10, 3 * (k + 1)));
    if exponent + 1 <= 3 * k {
        lemma_pow_increases(10, exponent + 1, 3 * k);
        assert(false);
    }
    if 3 * (k + 1) <= exponent {
        lemma_pow_increases(10, 3 * (k + 1), exponent);
        assert(false);
    }
    assert(3 * k <= exponent < 3 * k + 3);
}

/// The bucket for a decimal exponent. A number from 10^(3k) up to, and not
/// including, 10^(3k+3) falls in bucket k; exponents beyond the table fall
/// in its first or last bucket.
pub fn bucket_of(exponent: i32) -> (bucket: i32)
    ensures
        bucket == si_bucket(exponent as int),
        -8 <= bucket <= 8,
{
    if exponent >= 27 {
        8
    } else if exponent >= 0 {
        exponent / 3
    } else if exponent <= -24 {
        -8
    } else {
        -((2 - exponent) / 3)
    }
}

/// The prefix letter of a bucket, `None` for bucket 0.
pub fn letter_of(bucket: i32) -> (letter: Option<char>)
    ensures
        letter is None <==> bucket == 0,
        letter is Some ==> letter->0 == si_letter(bucket as int),
{
    if bucket == 0 {
        None
    } else if bucket <= -8 {
        Some('y')
    } else if bucket == -7 {
        Some('z')
    } else if bucket == -6 {
        Some('a')
    } else if bucket == -5 {
        Some('f')
    } else if bucket == -4 {
        Some('p')
    } else if bucket == -3 {
        Some('n')
    } else if bucket == -2 {
        Some('\u{b5}')
    } else if bucket == -1 {
        Some('m')
    } else if bucket == 1 {
        Some('k')
    } else if bucket == 2 {
        Some('M')
    } else if bucket == 3 {
        Some('G')
    } else if bucket == 4 {
        Some('T')
    } else if bucket == 5 {
        Some('P')
    } else if bucket == 6 {
        Some('E')
    } else if bucket == 7 {
        Some('Z')
    } else {
        Some('Y')
    }
}

} // verus!
