//! The formats of the four kinds of cell: numbers, strings, binary data and
//! booleans, and the format of a cell whose kind is not yet known.
//!
//! Every format holds the least and the greatest width of the cell. The
//! setters take the format and give back a new one.

use crate::specifier::{Align, FormatSpec, FormatType, Sign};
use vstd::prelude::*;
use vstd::std_specs::convert::FromSpecImpl;

verus! {

/// The format of a cell whose kind is not yet known: the widths alone.
#[derive(Clone, Copy, Debug, PartialEq, Eq, Structural)]
pub struct UnknownFormat {
    pub min_width: usize,
    pub max_width: usize,
}

/// The format of a number: the options of a specifier, with the width as
/// the least width, and the greatest width.
#[derive(Clone, Copy, Debug, PartialEq, Eq, Structural)]
pub struct NumberFormat {
    pub zero_padding: bool,
    pub fill: char,
    pub align: Align,
    pub sign: Sign,
    pub type_prefix: bool,
    pub min_width: usize,
    pub max_width: usize,
    pub commas: bool,
    pub precision: usize,
    pub format_type: FormatType,
}

/// The format of a string.
#[derive(Clone, Copy, Debug, PartialEq, Eq, Structural)]
pub struct StringFormat {
    pub min_width: usize,
    pub max_width: usize,
}

/// The format of binary data.
#[derive(Clone, Copy, Debug, PartialEq, Eq, Structural)]
pub struct BinaryFormat {
    pub min_width: usize,
    pub max_width: usize,
}

/// The format of a boolean.
#[derive(Clone, Copy, Debug, PartialEq, Eq, Structural)]
pub struct BoolFormat {
    pub min_width: usize,
    pub max_width: usize,
}

/// The number format that nothing was said about: right-aligned general
/// notation with six digits after the point, of any width.
pub open spec fn default_number_format() -> NumberFormat {
    NumberFormat {
        zero_padding: false,
        fill: ' ',
        align: Align::Right,
        sign: Sign::NegativeOnly,
        type_prefix: false,
        min_width: 0,
        max_width: usize::MAX,
        commas: false,
        precision: 6,
        format_type: FormatType::General,
    }
}

pub open spec fn default_string_format() -> StringFormat {
    StringFormat { min_width: 0, max_width: usize::MAX }
}

pub open spec fn default_binary_format() -> BinaryFormat {
    BinaryFormat { min_width: 0, max_width: usize::MAX }
}

pub open spec fn default_bool_format() -> BoolFormat {
    BoolFormat { min_width: 0, max_width: usize::MAX }
}

pub open spec fn default_unknown_format() -> UnknownFormat {
    UnknownFormat { min_width: 0, max_width: usize::MAX }
}

/// The default number format with the widths of `format`.
pub open spec fn number_format_of(format: UnknownFormat) -> NumberFormat {
    NumberFormat {
        min_width: format.min_width,
        max_width: format.max_width,
        ..default_number_format()
    }
}

/// The string format with the widths of `format`.
pub open spec fn string_format_of(format: UnknownFormat) -> StringFormat {
    StringFormat { min_width: format.min_width, max_width: format.max_width }
}

/// The binary format with the widths of `format`.
pub open spec fn binary_format_of(format: UnknownFormat) -> BinaryFormat {
    BinaryFormat { min_width: format.min_width, max_width: format.max_width }
}

/// The boolean format with the widths of `format`.
pub open spec fn bool_format_of(format: UnknownFormat) -> BoolFormat {
    BoolFormat { min_width: format.min_width, max_width: format.max_width }
}

impl UnknownFormat {
    /// The format of any width.
    pub fn new() -> (format: UnknownFormat)
        ensures
            format == default_unknown_format(),
    {
        UnknownFormat { min_width: 0, max_width: usize::MAX }
    }

    /// The same format with the least width `min_width`.
    pub fn min_width(self, min_width: usize) -> (format: UnknownFormat)
        ensures
            format == (UnknownFormat { min_width, ..self }),
    {
        UnknownFormat { min_width, ..self }
    }

    /// The same format with the greatest width `max_width`.
    pub fn max_width(self, max_width: usize) -> (format: UnknownFormat)
        ensures
            format == (UnknownFormat { max_width, ..self }),
    {
        UnknownFormat { max_width, ..self }
    }
}

impl NumberFormat {
    /// The number format that nothing was said about.
    pub fn new() -> (format: NumberFormat)
        ensures
            format == default_number_format(),
    {
        NumberFormat {
            zero_padding: false,
            fill: ' ',
            align: Align::Right,
            sign: Sign::NegativeOnly,
            type_prefix: false,
            min_width: 0,
            max_width: usize::MAX,
            commas: false,
            precision: 6,
            format_type: FormatType::General,
        }
    }

    /// The same format with the least width `min_width`.
    pub fn min_width(self, min_width: usize) -> (format: NumberFormat)
        ensures
            format == (NumberFormat { min_width, ..self }),
    {
        NumberFormat { min_width, ..self }
    }

    /// The same format with the greatest width `max_width`.
    pub fn max_width(self, max_width: usize) -> (format: NumberFormat)
        ensures
            format == (NumberFormat { max_width, ..self }),
    {
        NumberFormat { max_width, ..self }
    }

    /// The same format with the type `format_type`.
    pub fn format_type(self, format_type: &FormatType) -> (format: NumberFormat)
        ensures
            format == (NumberFormat { format_type: *format_type, ..self }),
    {
        NumberFormat { format_type: *format_type, ..self }
    }

    /// The same format with the precision `precision`.
    pub fn precision(self, precision: usize) -> (format: NumberFormat)
        ensures
            format == (NumberFormat { precision, ..self }),
    {
        NumberFormat { precision, ..self }
    }

    /// The specifier that the format stands for: its least width is the
    /// width of the specifier.
    pub open spec fn spec_specifier(self) -> FormatSpec {
        FormatSpec {
            fill: self.fill,
            align: self.align,
            sign: self.sign,
            symbol: self.type_prefix,
            zero: self.zero_padding,
            width: self.min_width,
            grouping: self.commas,
            precision: self.precision,
            format_type: self.format_type,
        }
    }

    /// The specifier that the format stands for.
    pub fn specifier(&self) -> (spec: FormatSpec)
        ensures
            spec == self.spec_specifier(),
    {
        FormatSpec {
            fill: self.fill,
            align: self.align,
            sign: self.sign,
            symbol: self.type_prefix,
            zero: self.zero_padding,
            width: self.min_width,
            grouping: self.commas,
            precision: self.precision,
            format_type: self.format_type,
        }
    }
}

impl StringFormat {
    /// The string format that nothing was said about.
    pub fn new() -> (format: StringFormat)
        ensures
            format == default_string_format(),
    {
        StringFormat { min_width: 0, max_width: usize::MAX }
    }

    /// The same format with the least width `min_width`.
    pub fn min_width(self, min_width: usize) -> (format: StringFormat)
        ensures
            format == (StringFormat { min_width, ..self }),
    {
        StringFormat { min_width, ..self }
    }

    /// The same format with the greatest width `max_width`.
    pub fn max_width(self, max_width: usize) -> (format: StringFormat)
        ensures
            format == (StringFormat { max_width, ..self }),
    {
        StringFormat { max_width, ..self }
    }
}

impl BinaryFormat {
    /// The binary format that nothing was said about.
    pub fn new() -> (format: BinaryFormat)
        ensures
            format == default_binary_format(),
    {
        BinaryFormat { min_width: 0, max_width: usize::MAX }
    }

    /// The same format with the least width `min_width`.
    pub fn min_width(self, min_width: usize) -> (format: BinaryFormat)
        ensures
            format == (BinaryFormat { min_width, ..self }),
    {
        BinaryFormat { min_width, ..self }
    }

    /// The same format with the greatest width `max_width`.
    pub fn max_width(self, max_width: usize) -> (format: BinaryFormat)
        ensures
            format == (BinaryFormat { max_width, ..self }),
    {
        BinaryFormat { max_width, ..self }
    }
}

impl BoolFormat {
    /// The boolean format that nothing was said about.
    pub fn new() -> (format: BoolFormat)
        ensures
            format == default_bool_format(),
    {
        BoolFormat { min_width: 0, max_width: usize::MAX }
    }

    /// The same format with the least width `min_width`.
    pub fn min_width(self, min_width: usize) -> (format: BoolFormat)
        ensures
            format == (BoolFormat { min_width, ..self }),
    {
        BoolFormat { min_width, ..self }
    }

    /// The same format with the greatest width `max_width`.
    pub fn max_width(self, max_width: usize) -> (format: BoolFormat)
        ensures
            format == (BoolFormat { max_width, ..self }),
    {
        BoolFormat { max_width, ..self }
    }
}

impl From<UnknownFormat> for NumberFormat {
    fn from(format: UnknownFormat) -> (number: NumberFormat) {
        NumberFormat::new().min_width(format.min_width).max_width(format.max_width)
    }
}

impl FromSpecImpl<UnknownFormat> for NumberFormat {
    open spec fn obeys_from_spec() -> bool {
        true
    }

    open spec fn from_spec(format: UnknownFormat) -> NumberFormat {
        number_format_of(format)
    }
}

impl From<UnknownFormat> for StringFormat {
    fn from(format: UnknownFormat) -> (string: StringFormat) {
        StringFormat { min_width: format.min_width, max_width: format.max_width }
    }
}

impl FromSpecImpl<UnknownFormat> for StringFormat {
    open spec fn obeys_from_spec() -> bool {
        true
    }

    open spec fn from_spec(format: UnknownFormat) -> StringFormat {
        string_format_of(format)
    }
}

impl From<UnknownFormat> for BinaryFormat {
    fn from(format: UnknownFormat) -> (binary: BinaryFormat) {
        BinaryFormat { min_width: format.min_width, max_width: format.max_width }
    }
}

impl FromSpecImpl<UnknownFormat> for BinaryFormat {
    open spec fn obeys_from_spec() -> bool {
        true
    }

    open spec fn from_spec(format: UnknownFormat) -> BinaryFormat {
        binary_format_of(format)
    }
}

impl From<UnknownFormat> for BoolFormat {
    fn from(format: UnknownFormat) -> (boolean: BoolFormat) {
        BoolFormat { min_width: format.min_width, max_width: format.max_width }
    }
}

impl FromSpecImpl<UnknownFormat> for BoolFormat {
    open spec fn obeys_from_spec() -> bool {
        true
    }

    open spec fn from_spec(format: UnknownFormat) -> BoolFormat {
        bool_format_of(format)
    }
}

} // verus!
