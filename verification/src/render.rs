//! The renderer: from a specifier, the sign of a number and its magnitude
//! to the text that is shown.
//!
//! The numeric text of the magnitude is split into its leading digits and
//! the rest. The sign and the radix prefix go before the digits, the unit
//! after the rest, and the padding where the alignment puts it.

use crate::grouping::{group, grouped, grouped_len, lemma_grouped_alphabet, lemma_grouped_len};
use crate::magnitude::{
    is_exponent_at, is_exponent_mark, mantissa_end, numeric_chars, numeric_text, unit_chars, unit_text, Magnitude,
};
use crate::radix::{base_of, lemma_radix_digits_alphabet};
use crate::specifier::{
    is_radix, parse_text, Align, FormatSpec, FormatType, ParseError, Sign,
};
use crate::text::{
    append_chars, append_repeated, digits_end, digits_stop, free_of, is_digit, repeated,
    slice_chars, string_of,
};
use vstd::prelude::*;

verus! {

/// The first position at or after `from` that holds no `0`.
pub open spec fn zeros_end(s: Seq<char>, from: int) -> int
    decreases s.len() - from,
{
    if 0 <= from < s.len() && s[from] == '0' {
        zeros_end(s, from + 1)
    } else {
        from
    }
}

/// Whether `s` is a number in decimal or scientific notation whose value is
/// zero: zeros, possibly with one point among, before or after them, and
/// possibly an exponent behind.
pub open spec fn reads_as_zero(s: Seq<char>) -> bool {
    let whole = zeros_end(s, 0);
    let pointed = whole < s.len() && s[whole] == '.';
    let end = if pointed {
        zeros_end(s, whole + 1)
    } else {
        whole
    };
    let zeros = if pointed {
        end - 1
    } else {
        end
    };
    &&& zeros >= 1
    &&& (end == s.len() || is_exponent_at(s, end))
}

/// Whether the number is shown as negative. A negative number whose numeric
/// text reads as zero is not, if only negative numbers get a sign and the
/// type is no radix type.
pub open spec fn shown_negative(spec: FormatSpec, negative: bool, value: Seq<char>) -> bool {
    negative && !(spec.sign is NegativeOnly && !is_radix(spec.format_type) && reads_as_zero(value))
}

/// The sign: `-` for a number shown as negative; for the others `+`, a
/// space or nothing, as the policy says.
pub open spec fn sign_text(sign: Sign, negative: bool) -> Seq<char> {
    if negative {
        seq!['-']
    } else {
        match sign {
            Sign::Always => seq!['+'],
            Sign::SpaceForPositive => seq![' '],
            Sign::NegativeOnly => Seq::empty(),
        }
    }
}

/// The radix prefix: `0b`, `0o` or `0x` for a radix type in its alternate
/// form, in lower case for both hexadecimal types; nothing otherwise.
pub open spec fn radix_prefix(spec: FormatSpec) -> Seq<char> {
    if !spec.symbol {
        Seq::empty()
    } else {
        match spec.format_type {
            FormatType::Binary => seq!['0', 'b'],
            FormatType::Octal => seq!['0', 'o'],
            FormatType::Hex => seq!['0', 'x'],
            FormatType::HexUpper => seq!['0', 'x'],
            _ => Seq::empty(),
        }
    }
}

/// What stands before the digits: the sign, then the radix prefix.
pub open spec fn prefix_text(spec: FormatSpec, negative: bool, value: Seq<char>) -> Seq<char> {
    sign_text(spec.sign, shown_negative(spec, negative, value)) + radix_prefix(spec)
}

/// The digits as they are measured for the padding: grouped, unless zero
/// fill puts the grouping off until the padding is in place.
pub open spec fn body_text(spec: FormatSpec, digits: Seq<char>) -> Seq<char> {
    if spec.grouping && !spec.zero {
        grouped(digits)
    } else {
        digits
    }
}

/// The number of characters that are missing to the width.
pub open spec fn shortfall(
    spec: FormatSpec,
    prefix: Seq<char>,
    digits: Seq<char>,
    suffix: Seq<char>,
) -> nat {
    let natural = prefix.len() + body_text(spec, digits).len() + suffix.len();
    if natural < spec.width {
        (spec.width - natural) as nat
    } else {
        0
    }
}

/// The digits as they are shown. With grouping and zero fill the digits are
/// first filled up with zeros and then grouped.
pub open spec fn value_text(
    spec: FormatSpec,
    prefix: Seq<char>,
    digits: Seq<char>,
    suffix: Seq<char>,
) -> Seq<char> {
    if spec.grouping && spec.zero {
        grouped(repeated('0', shortfall(spec, prefix, digits, suffix)) + digits)
    } else {
        body_text(spec, digits)
    }
}

/// The padding: the fill character, once for each missing character; none
/// where the zeros went into the digits.
pub open spec fn padding_text(
    spec: FormatSpec,
    prefix: Seq<char>,
    digits: Seq<char>,
    suffix: Seq<char>,
) -> Seq<char> {
    if spec.grouping && spec.zero {
        Seq::empty()
    } else {
        repeated(spec.fill, shortfall(spec, prefix, digits, suffix))
    }
}

/// The parts put together as the alignment says. Centered text has the
/// smaller half of the padding in front.
pub open spec fn layout(
    spec: FormatSpec,
    prefix: Seq<char>,
    digits: Seq<char>,
    suffix: Seq<char>,
) -> Seq<char> {
    let value = value_text(spec, prefix, digits, suffix);
    let padding = padding_text(spec, prefix, digits, suffix);
    let half = padding.len() / 2;
    match spec.align {
        Align::Left => prefix + value + suffix + padding,
        Align::SignAware => prefix + padding + value + suffix,
        Align::Center => padding.subrange(0, half as int) + prefix + value + suffix
            + padding.subrange(half as int, padding.len() as int),
        Align::Right => padding + prefix + value + suffix,
    }
}

/// The leading digits of the numeric text.
pub open spec fn integer_part(value: Seq<char>) -> Seq<char> {
    value.subrange(0, digits_end(value, 0))
}

/// The numeric text from its first character that is no digit.
pub open spec fn fraction_part(value: Seq<char>) -> Seq<char> {
    value.subrange(digits_end(value, 0), value.len() as int)
}

/// What stands after the digits: the rest of the numeric text, then the unit.
pub open spec fn suffix_text(spec: FormatSpec, magnitude: Magnitude) -> Seq<char> {
    fraction_part(numeric_text(spec, magnitude)) + unit_text(spec, magnitude)
}

/// The text that is shown for a number with the given sign and magnitude.
pub open spec fn render_text(spec: FormatSpec, negative: bool, magnitude: Magnitude) -> Seq<char> {
    let value = numeric_text(spec, magnitude);
    layout(
        spec,
        prefix_text(spec, negative, value),
        integer_part(value),
        suffix_text(spec, magnitude),
    )
}

/// Whether `r` is what formatting under the pattern `pattern` gives: the
/// text of the number under the specifier that the pattern stands for, or
/// the fault in the pattern.
pub open spec fn is_formatted(
    pattern: Seq<char>,
    negative: bool,
    magnitude: Magnitude,
    r: Result<String, ParseError>,
) -> bool {
    match parse_text(pattern) {
        Ok(spec) => r is Ok && r->Ok_0@ == render_text(spec, negative, magnitude),
        Err(e) => r == Err::<String, ParseError>(e),
    }
}

/// The length of the text as it is measured for the padding: the sign and
/// the radix prefix, the digits, grouped unless zero fill puts that off,
/// the rest of the numeric text and the unit.
pub open spec fn measured_len(spec: FormatSpec, negative: bool, magnitude: Magnitude) -> nat {
    let value = numeric_text(spec, magnitude);
    prefix_text(spec, negative, value).len() + body_text(spec, integer_part(value)).len()
        + suffix_text(spec, magnitude).len()
}

/// The specifier with the width taken out: it pads nothing.
pub open spec fn unpadded(spec: FormatSpec) -> FormatSpec {
    FormatSpec { width: 0, ..spec }
}

/// Whether two magnitudes hold the same reading: the same kind of outcome
/// with the same text and the same numbers.
pub open spec fn same_reading(first: Magnitude, second: Magnitude) -> bool {
    match (first, second) {
        (Magnitude::Decimal(a), Magnitude::Decimal(b)) => a@ == b@,
        (Magnitude::Integer(a), Magnitude::Integer(b)) => a == b,
        (Magnitude::Scientific(a), Magnitude::Scientific(b)) => a@ == b@,
        (
            Magnitude::Scaled { text: a, exponent: e },
            Magnitude::Scaled { text: b, exponent: f },
        ) => a@ == b@ && e == f,
        _ => false,
    }
}

/// A number that is not negative gets no sign where only negative numbers
/// get one: what stands before its digits is the radix prefix alone.
pub proof fn lemma_no_sign_unless_negative(spec: FormatSpec, magnitude: Magnitude)
    requires
        spec.sign is NegativeOnly,
    ensures
        prefix_text(spec, false, numeric_text(spec, magnitude)) == radix_prefix(spec),
        free_of(prefix_text(spec, false, numeric_text(spec, magnitude)), '-'),
        render_text(spec, false, magnitude) == layout(
            spec,
            radix_prefix(spec),
            integer_part(numeric_text(spec, magnitude)),
            suffix_text(spec, magnitude),
        ),
{
    let value = numeric_text(spec, magnitude);
    assert(sign_text(spec.sign, false) + radix_prefix(spec) == radix_prefix(spec));
}

/// A negative number whose numeric text reads as zero gets no sign either,
/// where only negative numbers get one and the type is no radix type: it is
/// shown as the number zero is.
pub proof fn lemma_negative_zero_shows_no_sign(
    spec: FormatSpec,
    magnitude: Magnitude,
)
    requires
        spec.sign is NegativeOnly,
        !is_radix(spec.format_type),
        reads_as_zero(numeric_text(spec, magnitude)),
    ensures
        render_text(spec, true, magnitude) == render_text(spec, false, magnitude),
{
}

/// The text shown for a number that is not negative holds no `-` at all,
/// where only negative numbers get a sign, the fill character is no `-` and
/// the magnitude's own text holds none (scientific notation holds one in a
/// negative exponent).
pub proof fn lemma_no_minus_unless_negative(spec: FormatSpec, magnitude: Magnitude)
    requires
        spec.sign is NegativeOnly,
        spec.fill != '-',
        match magnitude {
            Magnitude::Decimal(text) => free_of(text@, '-'),
            Magnitude::Integer(n) => true,
            Magnitude::Scientific(text) => free_of(text@, '-'),
            Magnitude::Scaled { text, exponent } => free_of(text@, '-'),
        },
    ensures
        free_of(render_text(spec, false, magnitude), '-'),
{
    let value = numeric_text(spec, magnitude);
    lemma_numeric_text_alphabet(spec, magnitude);
    lemma_digits_end_bounds(value, 0);
    lemma_no_sign_unless_negative(spec, magnitude);
    let prefix = prefix_text(spec, false, value);
    let digits = integer_part(value);
    let suffix = suffix_text(spec, magnitude);
    assert(free_of(digits, '-'));
    assert(free_of(suffix, '-'));
    lemma_layout_alphabet(spec, prefix, digits, suffix, '-');
}

/// Whether `s` is made of digits and points alone.
pub open spec fn is_decimal_text(s: Seq<char>) -> bool {
    forall|i: int| 0 <= i < s.len() ==> is_digit(#[trigger] s[i]) || s[i] == '.'
}

/// Whether the magnitude is an integer or text in decimal notation, made of
/// digits and points alone: what every conversion but the scientific one
/// gives for the absolute value of a finite number.
pub open spec fn is_decimal_magnitude(magnitude: Magnitude) -> bool {
    match magnitude {
        Magnitude::Decimal(text) => is_decimal_text(text@),
        Magnitude::Integer(n) => true,
        Magnitude::Scientific(text) => false,
        Magnitude::Scaled { text, exponent } => is_decimal_text(text@),
    }
}

/// Formatting a number that is not negative, with a magnitude in decimal
/// notation, under a pattern that names no sign and no `-` as the fill,
/// gives text without any `-`.
pub proof fn lemma_format_shows_no_minus(
    pattern: Seq<char>,
    magnitude: Magnitude,
    r: Result<String, ParseError>,
)
    requires
        parse_text(pattern) is Ok,
        parse_text(pattern)->Ok_0.sign is NegativeOnly,
        parse_text(pattern)->Ok_0.fill != '-',
        is_decimal_magnitude(magnitude),
        is_formatted(pattern, false, magnitude, r),
    ensures
        r is Ok,
        free_of(r->Ok_0@, '-'),
{
    lemma_no_minus_unless_negative(parse_text(pattern)->Ok_0, magnitude);
}

/// The numeric text of a magnitude holds no `-` unless the magnitude's own
/// text holds one.
proof fn lemma_numeric_text_alphabet(spec: FormatSpec, magnitude: Magnitude)
    requires
        match magnitude {
            Magnitude::Decimal(text) => free_of(text@, '-'),
            Magnitude::Integer(n) => true,
            Magnitude::Scientific(text) => free_of(text@, '-'),
            Magnitude::Scaled { text, exponent } => free_of(text@, '-'),
        },
    ensures
        free_of(numeric_text(spec, magnitude), '-'),
        free_of(unit_text(spec, magnitude), '-'),
{
    match magnitude {
        Magnitude::Integer(n) => {
            lemma_radix_digits_alphabet(n as nat, base_of(spec.format_type), spec.format_type is HexUpper);
        },
        Magnitude::Scientific(text) => {
            let raw = text@;
            let end = mantissa_end(raw, 0);
            lemma_mantissa_end_bounds(raw, 0);
        },
        _ => {},
    }
}

proof fn lemma_mantissa_end_bounds(s: Seq<char>, from: int)
    requires
        0 <= from <= s.len(),
    ensures
        from <= mantissa_end(s, from) <= s.len(),
    decreases s.len() - from,
{
    if from < s.len() && !is_exponent_mark(s[from]) {
        lemma_mantissa_end_bounds(s, from + 1);
    }
}

/// The layout brings in commas, zeros and the fill character, and nothing
/// else.
proof fn lemma_layout_alphabet(
    spec: FormatSpec,
    prefix: Seq<char>,
    digits: Seq<char>,
    suffix: Seq<char>,
    c: char,
)
    requires
        c != ',',
        c != '0',
        c != spec.fill,
        free_of(prefix, c),
        free_of(digits, c),
        free_of(suffix, c),
    ensures
        free_of(layout(spec, prefix, digits, suffix), c),
{
    let gap = shortfall(spec, prefix, digits, suffix);
    lemma_grouped_alphabet(digits, c);
    lemma_grouped_alphabet(repeated('0', gap) + digits, c);
    let value = value_text(spec, prefix, digits, suffix);
    let padding = padding_text(spec, prefix, digits, suffix);
    assert(free_of(value, c));
    assert(free_of(padding, c));
}

/// Padding fills the text up to the width exactly: where the text without
/// padding is shorter than the width, the text with padding has the length
/// of the width. With grouping and zero fill together this holds as long
/// as the digits take up no more than three places of the width; beyond
/// that the separators come on top (see [`lemma_zero_fill_grouping_len`]).
pub proof fn lemma_padded_to_width(spec: FormatSpec, negative: bool, magnitude: Magnitude)
    requires
        render_text(unpadded(spec), negative, magnitude).len() < spec.width,
        !(spec.grouping && spec.zero) || spec.width - prefix_text(
            spec,
            negative,
            numeric_text(spec, magnitude),
        ).len() - suffix_text(spec, magnitude).len() <= 3,
    ensures
        render_text(spec, negative, magnitude).len() == spec.width,
{
    let value = numeric_text(spec, magnitude);
    let prefix = prefix_text(spec, negative, value);
    let digits = integer_part(value);
    let suffix = suffix_text(spec, magnitude);
    assert(numeric_text(unpadded(spec), magnitude) == value);
    assert(prefix_text(unpadded(spec), negative, value) == prefix);
    assert(suffix_text(unpadded(spec), magnitude) == suffix);
    lemma_layout_len(unpadded(spec), prefix, digits, suffix);
    lemma_layout_len(spec, prefix, digits, suffix);
    lemma_grouped_len(digits);
    assert(repeated('0', 0) + digits == digits);
}

/// The text is never shorter than the width.
pub proof fn lemma_width_is_reached(spec: FormatSpec, negative: bool, magnitude: Magnitude)
    ensures
        render_text(spec, negative, magnitude).len() >= spec.width,
{
    let value = numeric_text(spec, magnitude);
    lemma_layout_len(
        spec,
        prefix_text(spec, negative, value),
        integer_part(value),
        suffix_text(spec, magnitude),
    );
}

/// The text is never cut: where the text as it is measured for the padding
/// is as long as the width or longer, it is shown as it would be with no
/// width at all.
pub proof fn lemma_long_text_is_kept(spec: FormatSpec, negative: bool, magnitude: Magnitude)
    requires
        measured_len(spec, negative, magnitude) >= spec.width,
    ensures
        render_text(spec, negative, magnitude) == render_text(unpadded(spec), negative, magnitude),
{
    let value = numeric_text(spec, magnitude);
    let prefix = prefix_text(spec, negative, value);
    let digits = integer_part(value);
    let suffix = suffix_text(spec, magnitude);
    assert(numeric_text(unpadded(spec), magnitude) == value);
    assert(prefix_text(unpadded(spec), negative, value) == prefix);
    assert(suffix_text(unpadded(spec), magnitude) == suffix);
    assert(shortfall(spec, prefix, digits, suffix) == 0);
    assert(shortfall(unpadded(spec), prefix, digits, suffix) == 0);
    assert(repeated(spec.fill, 0) == Seq::<char>::empty());
    assert(layout(spec, prefix, digits, suffix) == layout(
        unpadded(spec),
        prefix,
        digits,
        suffix,
    ));
}

/// The length of the text with grouping and zero fill together, where the
/// digits are filled up: the width, and one more for each separator among
/// the `places` that the width leaves to the digits.
pub proof fn lemma_zero_fill_grouping_len(spec: FormatSpec, negative: bool, magnitude: Magnitude)
    requires
        spec.grouping && spec.zero,
        measured_len(spec, negative, magnitude) < spec.width,
    ensures
        ({
            let places = spec.width - prefix_text(
                spec,
                negative,
                numeric_text(spec, magnitude),
            ).len() - suffix_text(spec, magnitude).len();
            render_text(spec, negative, magnitude).len() == spec.width + (places - 1) / 3
        }),
{
    let value = numeric_text(spec, magnitude);
    lemma_layout_len(
        spec,
        prefix_text(spec, negative, value),
        integer_part(value),
        suffix_text(spec, magnitude),
    );
}

/// The length of a layout: the parts and the padding.
proof fn lemma_layout_len(spec: FormatSpec, prefix: Seq<char>, digits: Seq<char>, suffix: Seq<char>)
    ensures
        layout(spec, prefix, digits, suffix).len() == prefix.len() + value_text(
            spec,
            prefix,
            digits,
            suffix,
        ).len() + suffix.len() + padding_text(spec, prefix, digits, suffix).len(),
        spec.grouping && spec.zero ==> value_text(spec, prefix, digits, suffix).len()
            == grouped_len(shortfall(spec, prefix, digits, suffix) + digits.len()),
        !(spec.grouping && spec.zero) ==> prefix.len() + value_text(
            spec,
            prefix,
            digits,
            suffix,
        ).len() + suffix.len() + padding_text(spec, prefix, digits, suffix).len() == if prefix.len()
            + value_text(spec, prefix, digits, suffix).len() + suffix.len() < spec.width {
            spec.width as nat
        } else {
            prefix.len() + value_text(spec, prefix, digits, suffix).len() + suffix.len()
        },
        layout(spec, prefix, digits, suffix).len() >= spec.width,
{
    let gap = shortfall(spec, prefix, digits, suffix);
    lemma_grouped_len(repeated('0', gap) + digits);
    lemma_grouped_len(digits);
}

/// Under sign-aware alignment the sign and the radix prefix are the first
/// characters of the text: the padding comes after them, never before.
pub proof fn lemma_sign_aware_starts_with_prefix(
    spec: FormatSpec,
    negative: bool,
    magnitude: Magnitude,
)
    requires
        spec.align is SignAware,
    ensures
        prefix_text(spec, negative, numeric_text(spec, magnitude)).is_prefix_of(
            render_text(spec, negative, magnitude),
        ),
        render_text(spec, negative, magnitude) == prefix_text(
            spec,
            negative,
            numeric_text(spec, magnitude),
        ) + padding_text(
            spec,
            prefix_text(spec, negative, numeric_text(spec, magnitude)),
            integer_part(numeric_text(spec, magnitude)),
            suffix_text(spec, magnitude),
        ) + value_text(
            spec,
            prefix_text(spec, negative, numeric_text(spec, magnitude)),
            integer_part(numeric_text(spec, magnitude)),
            suffix_text(spec, magnitude),
        ) + suffix_text(spec, magnitude),
{
}

/// Rendering is a function of what its inputs hold: the same specifier, the
/// same sign and two magnitudes with the same reading give the same text.
pub proof fn lemma_same_inputs_same_text(
    spec: FormatSpec,
    negative: bool,
    first: Magnitude,
    second: Magnitude,
)
    requires
        same_reading(first, second),
    ensures
        render_text(spec, negative, first) == render_text(spec, negative, second),
{
    assert(numeric_text(spec, first) == numeric_text(spec, second));
    assert(unit_text(spec, first) == unit_text(spec, second));
}


/// Rendering the same number twice gives the same text: whatever two calls
/// of [`render`] on one specifier, sign and magnitude return is the same.
pub proof fn lemma_render_is_stable(
    spec: FormatSpec,
    negative: bool,
    magnitude: Magnitude,
    first: String,
    second: String,
)
    requires
        call_ensures(render, (&spec, negative, &magnitude), first),
        call_ensures(render, (&spec, negative, &magnitude), second),
    ensures
        first@ == second@,
{
}

/// Formatting the same number under the same pattern twice gives the same
/// outcome: the same text, or the same fault.
pub proof fn lemma_format_is_stable(
    pattern: &str,
    negative: bool,
    magnitude: Magnitude,
    first: Result<String, ParseError>,
    second: Result<String, ParseError>,
)
    requires
        call_ensures(format, (pattern, negative, &magnitude), first),
        call_ensures(format, (pattern, negative, &magnitude), second),
    ensures
        first is Ok <==> second is Ok,
        first is Ok ==> first->Ok_0@ == second->Ok_0@,
        first is Err ==> first->Err_0 == second->Err_0,
{
}

proof fn lemma_digits_end_bounds(s: Seq<char>, from: int)
    requires
        0 <= from <= s.len(),
    ensures
        from <= digits_end(s, from) <= s.len(),
    decreases s.len() - from,
{
    if from < s.len() && is_digit(s[from]) {
        lemma_digits_end_bounds(s, from + 1);
    }
}

fn zeros_stop(s: &Vec<char>, from: usize) -> (end: usize)
    requires
        from <= s@.len(),
    ensures
        end == zeros_end(s@, from as int),
        from <= end <= s@.len(),
{
    let mut i: usize = from;
    while i < s.len() && s[i] == '0'
        invariant
            from <= i <= s@.len(),
            zeros_end(s@, from as int) == zeros_end(s@, i as int),
        decreases s@.len() - i,
    {
        i += 1;
    }
    i
}

fn exponent_at(s: &Vec<char>, from: usize) -> (b: bool)
    requires
        from < s@.len(),
    ensures
        b == is_exponent_at(s@, from as int),
{
    let n = s.len();
    if s[from] != 'e' && s[from] != 'E' {
        return false;
    }
    let digits = if from + 1 < n && (s[from + 1] == '+' || s[from + 1] == '-') {
        from + 2
    } else {
        from + 1
    };
    digits < n && digits_stop(s, digits) == n
}

/// Whether `value` is a number in decimal or scientific notation whose
/// value is zero.
pub fn is_zero_text(value: &Vec<char>) -> (b: bool)
    ensures
        b == reads_as_zero(value@),
{
    let n = value.len();
    let whole = zeros_stop(value, 0);
    let pointed = whole < n && value[whole] == '.';
    let end = if pointed {
        zeros_stop(value, whole + 1)
    } else {
        whole
    };
    let zeros = if pointed {
        end - 1
    } else {
        end
    };
    zeros >= 1 && (end == n || exponent_at(value, end))
}

/// Writes the sign.
pub fn sign_chars(sign: &Sign, negative: bool) -> (out: Vec<char>)
    ensures
        out@ == sign_text(*sign, negative),
{
    let mut out: Vec<char> = Vec::new();
    if negative {
        out.push('-');
    } else {
        match sign {
            Sign::Always => { out.push('+'); },
            Sign::SpaceForPositive => { out.push(' '); },
            Sign::NegativeOnly => {},
        }
    }
    out
}

/// Writes the sign and the radix prefix of a number with the numeric text
/// `value`.
pub fn prefix_chars(spec: &FormatSpec, negative: bool, value: &Vec<char>) -> (out: Vec<char>)
    ensures
        out@ == prefix_text(*spec, negative, value@),
{
    let shown = negative && !(matches!(spec.sign, Sign::NegativeOnly)
        && !spec.format_type.is_radix() && is_zero_text(value));
    let mut out = sign_chars(&spec.sign, shown);
    if spec.symbol {
        match spec.format_type {
            FormatType::Binary => {
                out.push('0');
                out.push('b');
            },
            FormatType::Octal => {
                out.push('0');
                out.push('o');
            },
            FormatType::Hex | FormatType::HexUpper => {
                out.push('0');
                out.push('x');
            },
            _ => {},
        }
    }
    assert(out@ == sign_text(spec.sign, shown) + radix_prefix(*spec));
    out
}

fn less(a: usize, b: usize) -> (r: usize)
    ensures
        r == if a > b {
            a - b
        } else {
            0
        },
{
    if a > b {
        a - b
    } else {
        0
    }
}

/// Puts the parts of a number together: grouping, padding and alignment.
pub fn lay_out(spec: &FormatSpec, prefix: &Vec<char>, digits: &Vec<char>, suffix: &Vec<char>) -> (out:
    Vec<char>)
    ensures
        out@ == layout(*spec, prefix@, digits@, suffix@),
{
    let body = if spec.grouping && !spec.zero {
        group(digits)
    } else {
        slice_chars(digits, 0, digits.len())
    };
    assert(body@ == body_text(*spec, digits@));
    let gap = less(less(less(spec.width, prefix.len()), body.len()), suffix.len());
    assert(gap == shortfall(*spec, prefix@, digits@, suffix@));
    let mut padding: Vec<char> = Vec::new();
    let value = if spec.grouping && spec.zero {
        let mut filled: Vec<char> = Vec::new();
        append_repeated(&mut filled, '0', gap);
        append_chars(&mut filled, digits);
        assert(filled@ == repeated('0', gap as nat) + digits@);
        group(&filled)
    } else {
        append_repeated(&mut padding, spec.fill, gap);
        assert(padding@ == repeated(spec.fill, gap as nat));
        body
    };
    assert(value@ == value_text(*spec, prefix@, digits@, suffix@));
    assert(padding@ == padding_text(*spec, prefix@, digits@, suffix@));
    let mut out: Vec<char> = Vec::new();
    match spec.align {
        Align::Left => {
            append_chars(&mut out, prefix);
            append_chars(&mut out, &value);
            append_chars(&mut out, suffix);
            append_chars(&mut out, &padding);
        },
        Align::SignAware => {
            append_chars(&mut out, prefix);
            append_chars(&mut out, &padding);
            append_chars(&mut out, &value);
            append_chars(&mut out, suffix);
        },
        Align::Center => {
            let half = padding.len() / 2;
            let front = slice_chars(&padding, 0, half);
            let back = slice_chars(&padding, half, padding.len());
            append_chars(&mut out, &front);
            append_chars(&mut out, prefix);
            append_chars(&mut out, &value);
            append_chars(&mut out, suffix);
            append_chars(&mut out, &back);
        },
        Align::Right => {
            append_chars(&mut out, &padding);
            append_chars(&mut out, prefix);
            append_chars(&mut out, &value);
            append_chars(&mut out, suffix);
        },
    }
    out
}

/// Renders a number: `negative` is its sign, `magnitude` the conversion of
/// its absolute value that `spec` asks for.
///
/// A negative number that rounds to zero is shown without its sign where
/// only negative numbers get one, except under the radix types. The text is
/// never cut: where it is longer than the width, it is shown whole.
pub fn render(spec: &FormatSpec, negative: bool, magnitude: &Magnitude) -> (out: String)
    ensures
        out@ == render_text(*spec, negative, *magnitude),
{
    let value = numeric_chars(spec, magnitude);
    let unit = unit_chars(spec, magnitude);
    let prefix = prefix_chars(spec, negative, &value);
    let split = digits_stop(&value, 0);
    let digits = slice_chars(&value, 0, split);
    let mut suffix = slice_chars(&value, split, value.len());
    append_chars(&mut suffix, &unit);
    let shown = lay_out(spec, &prefix, &digits, &suffix);
    string_of(&shown)
}

/// Formats a number under the specifier that `pattern` stands for:
/// `negative` is the sign of the number, `magnitude` the conversion of its
/// absolute value that the specifier asks for. A pattern that is none is
/// rejected with the first fault in it.
pub fn format(pattern: &str, negative: bool, magnitude: &Magnitude) -> (r: Result<
    String,
    ParseError,
>)
    ensures
        is_formatted(pattern@, negative, *magnitude, r),
{
    match FormatSpec::parse(pattern) {
        Ok(spec) => Ok(render(&spec, negative, magnitude)),
        Err(e) => Err(e),
    }
}

} // verus!
