//! Thousands separators.

use crate::text::free_of;
use vstd::prelude::*;

verus! {

/// `digits` with a comma after every digit that has a positive multiple of
/// three digits to its right.
pub open spec fn grouped(digits: Seq<char>) -> Seq<char>
    decreases digits.len(),
{
    if digits.len() == 0 {
        Seq::empty()
    } else {
        let rest = digits.drop_first();
        if rest.len() > 0 && rest.len() % 3 == 0 {
            seq![digits[0], ','] + grouped(rest)
        } else {
            seq![digits[0]] + grouped(rest)
        }
    }
}

/// The length of a run of `n` digits once it is grouped.
pub open spec fn grouped_len(n: nat) -> nat {
    if n == 0 {
        0
    } else {
        (n + (n - 1) / 3) as nat
    }
}

/// Grouping adds one separator for every full three digits that follow the
/// first digit.
pub proof fn lemma_grouped_len(digits: Seq<char>)
    ensures
        grouped(digits).len() == grouped_len(digits.len()),
    decreases digits.len(),
{
    if digits.len() > 0 {
        lemma_grouped_len(digits.drop_first());
    }
}

/// Grouping brings in commas and nothing else: a character other than the
/// comma that occurs nowhere in the digits occurs nowhere in the grouped run.
pub proof fn lemma_grouped_alphabet(digits: Seq<char>, c: char)
    requires
        c != ',',
        free_of(digits, c),
    ensures
        free_of(grouped(digits), c),
    decreases digits.len(),
{
    if digits.len() > 0 {
        let rest = digits.drop_first();
        assert forall|i: int| 0 <= i < rest.len() implies rest[i] != c by {
            assert(rest[i] == digits[i + 1]);
        }
        lemma_grouped_alphabet(rest, c);
    }
}

/// `s` with its commas taken out.
pub open spec fn without_commas(s: Seq<char>) -> Seq<char>
    decreases s.len(),
{
    if s.len() == 0 {
        Seq::empty()
    } else if s[0] == ',' {
        without_commas(s.drop_first())
    } else {
        seq![s[0]] + without_commas(s.drop_first())
    }
}

/// Grouping changes no digit: the grouped run without its commas is the run
/// that was grouped.
pub proof fn lemma_grouped_keeps_digits(digits: Seq<char>)
    requires
        free_of(digits, ','),
    ensures
        without_commas(grouped(digits)) == digits,
    decreases digits.len(),
{
    if digits.len() > 0 {
        let rest = digits.drop_first();
        assert forall|i: int| 0 <= i < rest.len() implies rest[i] != ',' by {
            assert(rest[i] == digits[i + 1]);
        }
        lemma_grouped_keeps_digits(rest);
        let g = grouped(digits);
        assert(g[0] == digits[0]);
        assert(without_commas(g) == seq![g[0]] + without_commas(g.drop_first()));
        if rest.len() > 0 && rest.len() % 3 == 0 {
            let tail = g.drop_first();
            assert(tail == seq![','] + grouped(rest));
            assert(tail[0] == ',');
            assert(tail.drop_first() == grouped(rest));
            assert(without_commas(tail) == without_commas(tail.drop_first()));
        } else {
            assert(g.drop_first() == grouped(rest));
        }
        assert(seq![digits[0]] + rest == digits);
    }
}

/// Inserts the thousands separators into a run of digits.
pub fn group(digits: &Vec<char>) -> (out: Vec<char>)
    ensures
        out@ == grouped(digits@),
{
    let n = digits.len();
    let mut out: Vec<char> = Vec::new();
    let mut i: usize = 0;
    assert(digits@.subrange(0, n as int) == digits@);
    while i < n
        invariant
            i <= n,
            n == digits@.len(),
            grouped(digits@) == out@ + grouped(digits@.subrange(i as int, n as int)),
        decreases n - i,
    {
        proof {
            let here = digits@.subrange(i as int, n as int);
            assert(here.drop_first() == digits@.subrange(i + 1, n as int));
            assert(here[0] == digits@[i as int]);
        }
        let ghost before = out@;
        out.push(digits[i]);
        let left = n - i - 1;
        if left > 0 && left % 3 == 0 {
            out.push(',');
            assert(out@ == before + seq![digits@[i as int], ',']);
        } else {
            assert(out@ == before + seq![digits@[i as int]]);
        }
        i += 1;
    }
    assert(grouped(digits@.subrange(n as int, n as int)) == Seq::<char>::empty());
    out
}

} // verus!
