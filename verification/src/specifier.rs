//! The format specifier: the options a pattern can name, the grammar of
//! patterns, and the defaults that fill in what a pattern leaves out.
//!
//! A pattern has the shape `[[fill]align][sign][#][0][width][,][.precision][type]`.
//! Every part is optional and the parts are read from left to right.

use crate::text::{chars_of, decimal_value, digits_end, scan_number};
use vstd::prelude::*;

verus! {

/// Where the padding goes.
#[derive(Clone, Copy, Debug, PartialEq, Eq, Structural)]
pub enum Align {
    /// `<`: the padding follows the number.
    Left,
    /// `>`: the padding comes before the number.
    Right,
    /// `^`: half of the padding on each side.
    Center,
    /// `=`: the padding stands between the sign and the digits.
    SignAware,
}

/// How the sign is shown.
#[derive(Clone, Copy, Debug, PartialEq, Eq, Structural)]
pub enum Sign {
    /// `+`: a sign for every number.
    Always,
    /// `-`: a sign for negative numbers only.
    NegativeOnly,
    /// A space in place of the sign of a number that is not negative.
    SpaceForPositive,
}

/// The conversion that turns the number into digits.
#[derive(Clone, Copy, Debug, PartialEq, Eq, Structural)]
pub enum FormatType {
    /// `%`: hundredfold, fixed point, followed by a percent sign.
    Percent,
    /// `b`: base two.
    Binary,
    /// `o`: base eight.
    Octal,
    /// `x`: base sixteen, lower case.
    Hex,
    /// `X`: base sixteen, upper case.
    HexUpper,
    /// `f`: fixed point.
    Fixed,
    /// `f` together with `#`: fixed point that always shows its decimal point.
    FixedAlt,
    /// `e`: scientific notation.
    Exponent,
    /// `E`: scientific notation with a capital exponent letter.
    ExponentUpper,
    /// `s`: fixed point scaled by a power of one thousand, with an SI prefix.
    SiPrefixed,
    /// No type letter: fixed point.
    General,
}

/// A resolved specifier: every option has a value.
#[derive(Clone, Copy, Debug, PartialEq, Eq, Structural)]
pub struct FormatSpec {
    /// The padding character.
    pub fill: char,
    /// Where the padding goes.
    pub align: Align,
    /// How the sign is shown.
    pub sign: Sign,
    /// The alternate form: a radix prefix, or a decimal point that is always shown.
    pub symbol: bool,
    /// Padding with `0` between the sign and the digits.
    pub zero: bool,
    /// The least number of characters of the result.
    pub width: usize,
    /// Thousands separators in the integer part.
    pub grouping: bool,
    /// The number of digits after the decimal point.
    pub precision: usize,
    /// The conversion.
    pub format_type: FormatType,
}

/// What a pattern holds, before any default is applied.
#[derive(Clone, Copy, Debug, PartialEq, Eq, Structural)]
pub struct Pattern {
    pub fill: Option<char>,
    pub align: Option<Align>,
    pub sign: Option<Sign>,
    pub symbol: bool,
    pub zero: bool,
    pub width: Option<usize>,
    pub grouping: bool,
    pub precision: Option<usize>,
    pub format_type: Option<FormatType>,
}

/// Why a pattern was rejected. Positions count characters from zero.
#[derive(Clone, Copy, Debug, PartialEq, Eq, Structural)]
pub enum ParseError {
    /// A letter stands where the type belongs and names no type.
    UnknownType { position: usize, letter: char },
    /// A character that the grammar has no place for.
    Unexpected { position: usize, token: char },
    /// The `.` at `position` has no digit after it.
    MissingDigits { position: usize },
    /// The number that starts at `position` is too large for this machine.
    TooLarge { position: usize },
}

pub open spec fn is_letter(c: char) -> bool {
    ('a' <= c && c <= 'z') || ('A' <= c && c <= 'Z')
}

pub open spec fn align_of(c: char) -> Option<Align> {
    if c == '<' {
        Some(Align::Left)
    } else if c == '>' {
        Some(Align::Right)
    } else if c == '^' {
        Some(Align::Center)
    } else if c == '=' {
        Some(Align::SignAware)
    } else {
        None
    }
}

pub open spec fn sign_of(c: char) -> Option<Sign> {
    if c == '+' {
        Some(Sign::Always)
    } else if c == '-' {
        Some(Sign::NegativeOnly)
    } else if c == ' ' {
        Some(Sign::SpaceForPositive)
    } else {
        None
    }
}

/// The type that the letter `c` names; `f` names two, told apart by `#`.
pub open spec fn type_of(c: char, symbol: bool) -> Option<FormatType> {
    if c == '%' {
        Some(FormatType::Percent)
    } else if c == 'b' {
        Some(FormatType::Binary)
    } else if c == 'o' {
        Some(FormatType::Octal)
    } else if c == 'x' {
        Some(FormatType::Hex)
    } else if c == 'X' {
        Some(FormatType::HexUpper)
    } else if c == 'f' {
        if symbol {
            Some(FormatType::FixedAlt)
        } else {
            Some(FormatType::Fixed)
        }
    } else if c == 'e' {
        Some(FormatType::Exponent)
    } else if c == 'E' {
        Some(FormatType::ExponentUpper)
    } else if c == 's' {
        Some(FormatType::SiPrefixed)
    } else {
        None
    }
}

pub open spec fn is_radix(t: FormatType) -> bool {
    t is Binary || t is Octal || t is Hex || t is HexUpper
}

/// The precision of a pattern that names none.
pub open spec fn default_precision(t: FormatType) -> usize {
    if is_radix(t) {
        0
    } else if t is Percent {
        1
    } else {
        6
    }
}

/// Where the `[[fill]align]` part of `s` ends. A fill is read only before an
/// alignment character and is itself none.
pub open spec fn align_end(s: Seq<char>) -> int {
    if s.len() >= 2 && align_of(s[0]) is None && align_of(s[1]) is Some {
        2
    } else if s.len() >= 1 && align_of(s[0]) is Some {
        1
    } else {
        0
    }
}

pub open spec fn sign_end(s: Seq<char>) -> int {
    let i = align_end(s);
    if i < s.len() && sign_of(s[i]) is Some {
        i + 1
    } else {
        i
    }
}

pub open spec fn symbol_end(s: Seq<char>) -> int {
    let i = sign_end(s);
    if i < s.len() && s[i] == '#' {
        i + 1
    } else {
        i
    }
}

pub open spec fn zero_end(s: Seq<char>) -> int {
    let i = symbol_end(s);
    if i < s.len() && s[i] == '0' {
        i + 1
    } else {
        i
    }
}

pub open spec fn width_end(s: Seq<char>) -> int {
    digits_end(s, zero_end(s))
}

pub open spec fn grouping_end(s: Seq<char>) -> int {
    let i = width_end(s);
    if i < s.len() && s[i] == ',' {
        i + 1
    } else {
        i
    }
}

/// Whether a `.` stands where the precision belongs.
pub open spec fn has_point(s: Seq<char>) -> bool {
    grouping_end(s) < s.len() && s[grouping_end(s)] == '.'
}

pub open spec fn precision_end(s: Seq<char>) -> int {
    if has_point(s) {
        digits_end(s, grouping_end(s) + 1)
    } else {
        grouping_end(s)
    }
}

/// The digits of the width, empty where the pattern names none.
pub open spec fn width_digits(s: Seq<char>) -> Seq<char> {
    s.subrange(zero_end(s), width_end(s))
}

/// The digits of the precision, empty where the pattern names none.
pub open spec fn precision_digits(s: Seq<char>) -> Seq<char> {
    if has_point(s) {
        s.subrange(grouping_end(s) + 1, precision_end(s))
    } else {
        Seq::empty()
    }
}

/// The options that `s` names, given that it is a pattern.
pub open spec fn pattern_of(s: Seq<char>) -> Pattern {
    let symbol = symbol_end(s) > sign_end(s);
    Pattern {
        fill: if align_end(s) == 2 {
            Some(s[0])
        } else {
            None
        },
        align: if align_end(s) > 0 {
            align_of(s[align_end(s) - 1])
        } else {
            None
        },
        sign: if sign_end(s) > align_end(s) {
            sign_of(s[align_end(s)])
        } else {
            None
        },
        symbol,
        zero: zero_end(s) > symbol_end(s),
        width: if width_end(s) > zero_end(s) {
            Some(decimal_value(width_digits(s)) as usize)
        } else {
            None
        },
        grouping: grouping_end(s) > width_end(s),
        precision: if has_point(s) {
            Some(decimal_value(precision_digits(s)) as usize)
        } else {
            None
        },
        format_type: if precision_end(s) < s.len() {
            type_of(s[precision_end(s)], symbol)
        } else {
            None
        },
    }
}

/// What reading `s` as a pattern gives: the options it names, or the first
/// fault met from the left.
pub open spec fn scan_text(s: Seq<char>) -> Result<Pattern, ParseError> {
    let end = precision_end(s);
    if decimal_value(width_digits(s)) > usize::MAX {
        Err(ParseError::TooLarge { position: zero_end(s) as usize })
    } else if has_point(s) && end == grouping_end(s) + 1 {
        Err(ParseError::MissingDigits { position: grouping_end(s) as usize })
    } else if decimal_value(precision_digits(s)) > usize::MAX {
        Err(ParseError::TooLarge { position: (grouping_end(s) + 1) as usize })
    } else if end >= s.len() {
        Ok(pattern_of(s))
    } else if type_of(s[end], false) is Some {
        if end + 1 == s.len() {
            Ok(pattern_of(s))
        } else {
            Err(ParseError::Unexpected { position: (end + 1) as usize, token: s[end + 1] })
        }
    } else if is_letter(s[end]) {
        Err(ParseError::UnknownType { position: end as usize, letter: s[end] })
    } else {
        Err(ParseError::Unexpected { position: end as usize, token: s[end] })
    }
}

/// The specifier that a pattern stands for. Zero fill sets the fill to `0`
/// and the alignment to sign-aware, whatever the pattern says of them.
pub open spec fn resolve_spec(p: Pattern) -> FormatSpec {
    let format_type = match p.format_type {
        Some(t) => t,
        None => FormatType::General,
    };
    FormatSpec {
        fill: if p.zero {
            '0'
        } else {
            match p.fill {
                Some(c) => c,
                None => ' ',
            }
        },
        align: if p.zero {
            Align::SignAware
        } else {
            match p.align {
                Some(a) => a,
                None => Align::Right,
            }
        },
        sign: match p.sign {
            Some(s) => s,
            None => Sign::NegativeOnly,
        },
        symbol: p.symbol,
        zero: p.zero,
        width: match p.width {
            Some(w) => w,
            None => 0,
        },
        grouping: p.grouping,
        precision: match p.precision {
            Some(n) => n,
            None => default_precision(format_type),
        },
        format_type,
    }
}

/// Zero fill is sign-aware: a pattern with the `0` flag stands for a
/// specifier that fills with `0` between the sign and the digits.
pub proof fn lemma_zero_fill_is_sign_aware(p: Pattern)
    requires
        p.zero,
    ensures
        resolve_spec(p).zero,
        resolve_spec(p).fill == '0',
        resolve_spec(p).align is SignAware,
{
}

/// What parsing `s` gives.
pub open spec fn parse_text(s: Seq<char>) -> Result<FormatSpec, ParseError> {
    match scan_text(s) {
        Ok(p) => Ok(resolve_spec(p)),
        Err(e) => Err(e),
    }
}

fn align_for(c: char) -> (a: Option<Align>)
    ensures
        a == align_of(c),
{
    if c == '<' {
        Some(Align::Left)
    } else if c == '>' {
        Some(Align::Right)
    } else if c == '^' {
        Some(Align::Center)
    } else if c == '=' {
        Some(Align::SignAware)
    } else {
        None
    }
}

fn sign_for(c: char) -> (r: Option<Sign>)
    ensures
        r == sign_of(c),
{
    if c == '+' {
        Some(Sign::Always)
    } else if c == '-' {
        Some(Sign::NegativeOnly)
    } else if c == ' ' {
        Some(Sign::SpaceForPositive)
    } else {
        None
    }
}

fn type_for(c: char, symbol: bool) -> (t: Option<FormatType>)
    ensures
        t == type_of(c, symbol),
{
    if c == '%' {
        Some(FormatType::Percent)
    } else if c == 'b' {
        Some(FormatType::Binary)
    } else if c == 'o' {
        Some(FormatType::Octal)
    } else if c == 'x' {
        Some(FormatType::Hex)
    } else if c == 'X' {
        Some(FormatType::HexUpper)
    } else if c == 'f' {
        if symbol {
            Some(FormatType::FixedAlt)
        } else {
            Some(FormatType::Fixed)
        }
    } else if c == 'e' {
        Some(FormatType::Exponent)
    } else if c == 'E' {
        Some(FormatType::ExponentUpper)
    } else if c == 's' {
        Some(FormatType::SiPrefixed)
    } else {
        None
    }
}

impl FormatType {
    /// Whether the type writes an integer in base 2, 8 or 16.
    pub fn is_radix(&self) -> (b: bool)
        ensures
            b == is_radix(*self),
    {
        match self {
            FormatType::Binary | FormatType::Octal | FormatType::Hex | FormatType::HexUpper => true,
            _ => false,
        }
    }

    /// The precision of a pattern of this type that names none: 0 for the
    /// radix types, 1 for percent, 6 for the others.
    pub fn default_precision(&self) -> (p: usize)
        ensures
            p == default_precision(*self),
    {
        if self.is_radix() {
            0
        } else if matches!(self, FormatType::Percent) {
            1
        } else {
            6
        }
    }
}

/// Reads `[[fill]align]`: the fill, the alignment and where the part ends.
fn scan_align(s: &Vec<char>) -> (r: (Option<char>, Option<Align>, usize))
    ensures
        r.0 == pattern_of(s@).fill,
        r.1 == pattern_of(s@).align,
        r.2 == align_end(s@),
        r.2 <= s@.len(),
{
    let n = s.len();
    if n >= 2 && align_for(s[0]).is_none() && align_for(s[1]).is_some() {
        (Some(s[0]), align_for(s[1]), 2)
    } else if n >= 1 && align_for(s[0]).is_some() {
        (None, align_for(s[0]), 1)
    } else {
        (None, None, 0)
    }
}

/// Reads `[sign][#][0]` from `from` on: the sign, the two flags and where
/// the part ends.
fn scan_flags(s: &Vec<char>, from: usize) -> (r: (Option<Sign>, bool, bool, usize))
    requires
        from == align_end(s@),
        from <= s@.len(),
    ensures
        r.0 == pattern_of(s@).sign,
        r.1 == pattern_of(s@).symbol,
        r.2 == pattern_of(s@).zero,
        r.3 == zero_end(s@),
        r.3 <= s@.len(),
{
    let n = s.len();
    let mut i: usize = from;
    let mut sign: Option<Sign> = None;
    if i < n && sign_for(s[i]).is_some() {
        sign = sign_for(s[i]);
        i += 1;
    }
    assert(i == sign_end(s@));
    let mut symbol = false;
    if i < n && s[i] == '#' {
        symbol = true;
        i += 1;
    }
    assert(i == symbol_end(s@));
    let mut zero = false;
    if i < n && s[i] == '0' {
        zero = true;
        i += 1;
    }
    (sign, symbol, zero, i)
}

/// The width, the grouping flag and the precision of a pattern, and where
/// the precision ends.
struct Sizes {
    width: Option<usize>,
    grouping: bool,
    precision: Option<usize>,
    end: usize,
}

/// Reads `[width][,][.precision]` from `from` on.
fn scan_sizes(s: &Vec<char>, from: usize) -> (r: Result<Sizes, ParseError>)
    requires
        from == zero_end(s@),
        from <= s@.len(),
    ensures
        match r {
            Ok(sizes) => {
                &&& decimal_value(width_digits(s@)) <= usize::MAX
                &&& !(has_point(s@) && precision_end(s@) == grouping_end(s@) + 1)
                &&& decimal_value(precision_digits(s@)) <= usize::MAX
                &&& sizes.width == pattern_of(s@).width
                &&& sizes.grouping == pattern_of(s@).grouping
                &&& sizes.precision == pattern_of(s@).precision
                &&& sizes.end == precision_end(s@)
                &&& sizes.end <= s@.len()
            },
            Err(e) => {
                if decimal_value(width_digits(s@)) > usize::MAX {
                    e == (ParseError::TooLarge { position: from })
                } else if has_point(s@) && precision_end(s@) == grouping_end(s@) + 1 {
                    e == (ParseError::MissingDigits { position: grouping_end(s@) as usize })
                } else {
                    &&& decimal_value(precision_digits(s@)) > usize::MAX
                    &&& e == (ParseError::TooLarge { position: (grouping_end(s@) + 1) as usize })
                }
            },
        },
{
    let n = s.len();
    let (width_stop, width_value) = scan_number(s, from);
    let width = match width_value {
        Some(w) => if width_stop > from {
            Some(w)
        } else {
            None
        },
        None => { return Err(ParseError::TooLarge { position: from }); },
    };
    let mut i: usize = width_stop;
    let mut grouping = false;
    if i < n && s[i] == ',' {
        grouping = true;
        i += 1;
    }
    assert(i == grouping_end(s@));
    let mut precision: Option<usize> = None;
    if i < n && s[i] == '.' {
        let (stop, value) = scan_number(s, i + 1);
        if stop == i + 1 {
            return Err(ParseError::MissingDigits { position: i });
        }
        match value {
            Some(p) => { precision = Some(p); },
            None => { return Err(ParseError::TooLarge { position: i + 1 }); },
        }
        i = stop;
    } else {
        assert(precision_digits(s@).len() == 0);
    }
    Ok(Sizes { width, grouping, precision, end: i })
}

/// Reads `[type]` at `from`, which must be the end of the pattern or its
/// last character.
fn scan_type(s: &Vec<char>, from: usize, symbol: bool) -> (r: Result<Option<FormatType>, ParseError>)
    requires
        from <= s@.len(),
    ensures
        r == if from >= s@.len() {
            Ok(None::<FormatType>)
        } else if type_of(s@[from as int], false) is Some {
            if from + 1 == s@.len() {
                Ok(type_of(s@[from as int], symbol))
            } else {
                Err(ParseError::Unexpected { position: (from + 1) as usize, token: s@[from + 1] })
            }
        } else if is_letter(s@[from as int]) {
            Err(ParseError::UnknownType { position: from, letter: s@[from as int] })
        } else {
            Err(ParseError::Unexpected { position: from, token: s@[from as int] })
        },
{
    let n = s.len();
    if from >= n {
        return Ok(None);
    }
    let c = s[from];
    let format_type = type_for(c, symbol);
    if format_type.is_some() {
        if from + 1 < n {
            Err(ParseError::Unexpected { position: from + 1, token: s[from + 1] })
        } else {
            Ok(format_type)
        }
    } else if ('a' <= c && c <= 'z') || ('A' <= c && c <= 'Z') {
        Err(ParseError::UnknownType { position: from, letter: c })
    } else {
        Err(ParseError::Unexpected { position: from, token: c })
    }
}

impl Pattern {
    /// Reads the options that `pattern` names, from left to right, and
    /// rejects text that the grammar does not produce.
    pub fn scan(pattern: &str) -> (r: Result<Pattern, ParseError>)
        ensures
            r == scan_text(pattern@),
    {
        let s = chars_of(pattern);
        let (fill, align, align_stop) = scan_align(&s);
        let (sign, symbol, zero, flags_stop) = scan_flags(&s, align_stop);
        let sizes = match scan_sizes(&s, flags_stop) {
            Ok(sizes) => sizes,
            Err(e) => { return Err(e); },
        };
        let format_type = match scan_type(&s, sizes.end, symbol) {
            Ok(t) => t,
            Err(e) => { return Err(e); },
        };
        Ok(
            Pattern {
                fill,
                align,
                sign,
                symbol,
                zero,
                width: sizes.width,
                grouping: sizes.grouping,
                precision: sizes.precision,
                format_type,
            },
        )
    }

    /// Fills in the defaults.
    pub fn resolve(&self) -> (spec: FormatSpec)
        ensures
            spec == resolve_spec(*self),
    {
        let format_type = match self.format_type {
            Some(t) => t,
            None => FormatType::General,
        };
        FormatSpec {
            fill: if self.zero {
                '0'
            } else {
                match self.fill {
                    Some(c) => c,
                    None => ' ',
                }
            },
            align: if self.zero {
                Align::SignAware
            } else {
                match self.align {
                    Some(a) => a,
                    None => Align::Right,
                }
            },
            sign: match self.sign {
                Some(s) => s,
                None => Sign::NegativeOnly,
            },
            symbol: self.symbol,
            zero: self.zero,
            width: match self.width {
                Some(w) => w,
                None => 0,
            },
            grouping: self.grouping,
            precision: match self.precision {
                Some(p) => p,
                None => format_type.default_precision(),
            },
            format_type,
        }
    }
}

impl FormatSpec {
    /// The specifier that `pattern` stands for, or the first fault in it.
    pub fn parse(pattern: &str) -> (r: Result<FormatSpec, ParseError>)
        ensures
            r == parse_text(pattern@),
    {
        match Pattern::scan(pattern) {
            Ok(p) => Ok(p.resolve()),
            Err(e) => Err(e),
        }
    }
}

} // verus!
