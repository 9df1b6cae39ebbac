//! The magnitude of a number as the renderer takes it: the digits that a
//! conversion of the absolute value gave, or the integer it was cut down to.
//!
//! The renderer works on text and integers only. A specifier says through
//! [`conversion_for`] which conversion of the absolute value it wants; the
//! caller performs it and hands the outcome over as a [`Magnitude`].

use crate::radix::{integer_digits, integer_text};
use crate::si::{bucket_of, letter_of, si_bucket, si_symbol};
use crate::specifier::{FormatSpec, FormatType};
use crate::text::{
    append_chars, chars_of, decimal_value, digits_end, scan_number, slice_chars,
};
use vstd::prelude::*;

verus! {

/// The conversion of the absolute value that a specifier asks for.
#[derive(Clone, Copy, Debug, PartialEq, Eq, Structural)]
pub enum Conversion {
    /// Decimal notation with `precision` digits after the point, of the
    /// value itself or, if `hundredfold`, of a hundred times the value.
    Fixed { hundredfold: bool, precision: usize },
    /// The value cut down to an integer.
    Truncated,
    /// Scientific notation with `precision` digits after the point.
    Scientific { precision: usize },
    /// Decimal notation with `precision` digits after the point, of the
    /// value divided by one thousand to the power of its bucket, together
    /// with the decimal exponent of the value.
    Scaled { precision: usize },
}

/// The outcome of a conversion.
#[derive(Clone, Debug, PartialEq, Eq)]
pub enum Magnitude {
    /// Decimal notation: an integer part, then possibly a point and a
    /// fractional part.
    Decimal(String),
    /// An integer.
    Integer(u64),
    /// Scientific notation: a mantissa in decimal notation, an exponent
    /// mark, and the exponent.
    Scientific(String),
    /// The decimal notation of the scaled value, and the decimal exponent of
    /// the value before scaling.
    Scaled { text: String, exponent: i32 },
}

/// The conversion that a specifier asks for.
pub open spec fn conversion_of(spec: FormatSpec) -> Conversion {
    match spec.format_type {
        FormatType::Percent => Conversion::Fixed { hundredfold: true, precision: spec.precision },
        FormatType::Binary | FormatType::Octal | FormatType::Hex | FormatType::HexUpper => {
            Conversion::Truncated
        },
        FormatType::Exponent | FormatType::ExponentUpper => Conversion::Scientific {
            precision: spec.precision,
        },
        FormatType::SiPrefixed => Conversion::Scaled { precision: spec.precision },
        FormatType::Fixed | FormatType::FixedAlt | FormatType::General => Conversion::Fixed {
            hundredfold: false,
            precision: spec.precision,
        },
    }
}

pub open spec fn is_exponent_mark(c: char) -> bool {
    c == 'e' || c == 'E'
}

/// The first position at or after `from` that holds an exponent mark.
pub open spec fn mantissa_end(s: Seq<char>, from: int) -> int
    decreases s.len() - from,
{
    if 0 <= from < s.len() && !is_exponent_mark(s[from]) {
        mantissa_end(s, from + 1)
    } else {
        from
    }
}

/// Whether `s` holds, from `from` to its end, an exponent: a mark, possibly
/// a sign, and one digit or more.
pub open spec fn is_exponent_at(s: Seq<char>, from: int) -> bool {
    let digits = exponent_digits_start(s, from);
    &&& 0 <= from < s.len()
    &&& is_exponent_mark(s[from])
    &&& digits < s.len()
    &&& digits_end(s, digits) == s.len()
}

/// Where the digits of an exponent stand whose mark is at `mark`: behind
/// the mark and the sign, if there is one.
pub open spec fn exponent_digits_start(s: Seq<char>, mark: int) -> int {
    if mark + 1 < s.len() && (s[mark + 1] == '+' || s[mark + 1] == '-') {
        mark + 2
    } else {
        mark + 1
    }
}

/// The decimal exponent that a number in scientific notation names: the
/// number behind its exponent mark, with its sign. It is 0 where the text
/// has no exponent, and the largest or the smallest 32-bit integer where
/// the exponent goes beyond them.
pub open spec fn exponent_value(s: Seq<char>) -> int {
    let mark = mantissa_end(s, 0);
    if is_exponent_at(s, mark) {
        let value = decimal_value(s.subrange(exponent_digits_start(s, mark), s.len() as int));
        if s[mark + 1] == '-' {
            if value > 0x8000_0000 {
                i32::MIN as int
            } else {
                -value
            }
        } else {
            if value > i32::MAX {
                i32::MAX as int
            } else {
                value as int
            }
        }
    } else {
        0
    }
}

/// Scientific notation as it is shown: the mantissa of `raw`, a point after
/// it if `point`, and the exponent of `raw` behind a mark in the chosen case.
pub open spec fn scientific_text(raw: Seq<char>, upper: bool, point: bool) -> Seq<char> {
    let end = mantissa_end(raw, 0);
    let mantissa = if point {
        raw.subrange(0, end).push('.')
    } else {
        raw.subrange(0, end)
    };
    if end < raw.len() {
        mantissa.push(
            if upper {
                'E'
            } else {
                'e'
            },
        ) + raw.subrange(end + 1, raw.len() as int)
    } else {
        mantissa
    }
}

/// The numeric text of a magnitude under a specifier, before the sign, the
/// grouping and the padding.
///
/// - Decimal notation is taken as it is; the type `f` in its alternate form
///   with precision 0 puts a point after it.
/// - An integer is written in the base of the type.
/// - Scientific notation gets the exponent mark `E` under the type `E` and
///   `e` under the others, and a point after the mantissa where the
///   alternate form is asked for with precision 0.
/// - The text of a scaled value is taken as it is.
pub open spec fn numeric_text(spec: FormatSpec, magnitude: Magnitude) -> Seq<char> {
    match magnitude {
        Magnitude::Decimal(text) => if spec.format_type is FixedAlt && spec.precision == 0 {
            text@.push('.')
        } else {
            text@
        },
        Magnitude::Integer(n) => integer_digits(n as nat, spec.format_type),
        Magnitude::Scientific(text) => scientific_text(
            text@,
            spec.format_type is ExponentUpper,
            spec.symbol && spec.precision == 0,
        ),
        Magnitude::Scaled { text, exponent } => text@,
    }
}

/// The unit that follows the numeric text: the SI prefix of a scaled value,
/// then a percent sign under the type `%`.
pub open spec fn unit_text(spec: FormatSpec, magnitude: Magnitude) -> Seq<char> {
    let prefix = match magnitude {
        Magnitude::Scaled { text, exponent } => si_symbol(si_bucket(exponent as int)),
        _ => Seq::empty(),
    };
    if spec.format_type is Percent {
        prefix.push('%')
    } else {
        prefix
    }
}

/// Says which conversion of the absolute value `spec` asks for.
pub fn conversion_for(spec: &FormatSpec) -> (conversion: Conversion)
    ensures
        conversion == conversion_of(*spec),
{
    match spec.format_type {
        FormatType::Percent => Conversion::Fixed { hundredfold: true, precision: spec.precision },
        FormatType::Binary | FormatType::Octal | FormatType::Hex | FormatType::HexUpper => {
            Conversion::Truncated
        },
        FormatType::Exponent | FormatType::ExponentUpper => Conversion::Scientific {
            precision: spec.precision,
        },
        FormatType::SiPrefixed => Conversion::Scaled { precision: spec.precision },
        FormatType::Fixed | FormatType::FixedAlt | FormatType::General => Conversion::Fixed {
            hundredfold: false,
            precision: spec.precision,
        },
    }
}

/// Where the mantissa of `s` ends: at its first exponent mark, or at its end.
fn mantissa_stop(s: &Vec<char>) -> (end: usize)
    ensures
        end == mantissa_end(s@, 0),
        end <= s@.len(),
        end < s@.len() ==> is_exponent_mark(s@[end as int]),
{
    let mut i: usize = 0;
    while i < s.len() && s[i] != 'e' && s[i] != 'E'
        invariant
            i <= s@.len(),
            mantissa_end(s@, 0) == mantissa_end(s@, i as int),
        decreases s@.len() - i,
    {
        i += 1;
    }
    i
}

/// Reads the decimal exponent off a number in scientific notation.
pub fn exponent_of(scientific: &str) -> (exponent: i32)
    ensures
        exponent == exponent_value(scientific@),
{
    let s = chars_of(scientific);
    let n = s.len();
    let mark = mantissa_stop(&s);
    if mark >= n {
        return 0;
    }
    let negative = mark + 1 < n && s[mark + 1] == '-';
    let digits = if mark + 1 < n && (s[mark + 1] == '+' || s[mark + 1] == '-') {
        mark + 2
    } else {
        mark + 1
    };
    if digits >= n {
        return 0;
    }
    let (stop, value) = scan_number(&s, digits);
    if stop != n {
        return 0;
    }
    match value {
        Some(v) => {
            if negative {
                if v >= 0x8000_0000 {
                    i32::MIN
                } else {
                    -(v as i32)
                }
            } else {
                if v > 0x7fff_ffff {
                    i32::MAX
                } else {
                    v as i32
                }
            }
        },
        None => {
            if negative {
                i32::MIN
            } else {
                i32::MAX
            }
        },
    }
}

/// Scientific notation as it is shown.
fn scientific_chars(raw: &Vec<char>, upper: bool, point: bool) -> (out: Vec<char>)
    ensures
        out@ == scientific_text(raw@, upper, point),
{
    let end = mantissa_stop(raw);
    let mut out = slice_chars(raw, 0, end);
    if point {
        out.push('.');
    }
    if end < raw.len() {
        out.push(
            if upper {
                'E'
            } else {
                'e'
            },
        );
        let exponent = slice_chars(raw, end + 1, raw.len());
        append_chars(&mut out, &exponent);
    }
    out
}

/// Writes the numeric text of `magnitude` under `spec`.
pub fn numeric_chars(spec: &FormatSpec, magnitude: &Magnitude) -> (out: Vec<char>)
    ensures
        out@ == numeric_text(*spec, *magnitude),
{
    match magnitude {
        Magnitude::Decimal(text) => {
            let mut out = chars_of(text.as_str());
            if matches!(spec.format_type, FormatType::FixedAlt) && spec.precision == 0 {
                out.push('.');
            }
            out
        },
        Magnitude::Integer(n) => integer_text(*n, &spec.format_type),
        Magnitude::Scientific(text) => {
            let raw = chars_of(text.as_str());
            scientific_chars(
                &raw,
                matches!(spec.format_type, FormatType::ExponentUpper),
                spec.symbol && spec.precision == 0,
            )
        },
        Magnitude::Scaled { text, exponent } => chars_of(text.as_str()),
    }
}

/// Writes the unit of `magnitude` under `spec`.
pub fn unit_chars(spec: &FormatSpec, magnitude: &Magnitude) -> (out: Vec<char>)
    ensures
        out@ == unit_text(*spec, *magnitude),
{
    let mut out: Vec<char> = Vec::new();
    match magnitude {
        Magnitude::Scaled { text, exponent } => {
            match letter_of(bucket_of(*exponent)) {
                Some(letter) => { out.push(letter); },
                None => {},
            }
        },
        _ => {},
    }
    if matches!(spec.format_type, FormatType::Percent) {
        out.push('%');
    }
    out
}

} // verus!
