//! The format of a cell: one of the four kinds, or not yet known until the
//! data type of the column settles it.

use crate::dtype::{data_kind, debug_text_of, has_format, kind_matches, DataKind};
use crate::error::EtopError;
use crate::formats::{
    binary_format_of, bool_format_of, number_format_of, string_format_of, BinaryFormat,
    BoolFormat, NumberFormat, StringFormat, UnknownFormat,
};
use crate::specifier::FormatType;
use polars::prelude::DataType;
use vstd::prelude::*;
use vstd::std_specs::convert::{FromSpecImpl, TryIntoSpecImpl};

verus! {

/// The format of a cell as it is asked for: of one of the four kinds, or of
/// a kind not yet known.
#[derive(Clone, Copy, Debug, PartialEq, Eq, Structural)]
pub enum CellFormatShorthand {
    Number(NumberFormat),
    Binary(BinaryFormat),
    String(StringFormat),
    Bool(BoolFormat),
    Unknown(UnknownFormat),
}

/// The format of a cell.
#[derive(Clone, Copy, Debug, PartialEq, Eq, Structural)]
pub enum CellFormat {
    Number(NumberFormat),
    Binary(BinaryFormat),
    String(StringFormat),
    Bool(BoolFormat),
}

impl From<NumberFormat> for CellFormatShorthand {
    fn from(format: NumberFormat) -> (cell: CellFormatShorthand) {
        CellFormatShorthand::Number(format)
    }
}

impl FromSpecImpl<NumberFormat> for CellFormatShorthand {
    open spec fn obeys_from_spec() -> bool {
        true
    }

    open spec fn from_spec(format: NumberFormat) -> CellFormatShorthand {
        CellFormatShorthand::Number(format)
    }
}

impl From<StringFormat> for CellFormatShorthand {
    fn from(format: StringFormat) -> (cell: CellFormatShorthand) {
        CellFormatShorthand::String(format)
    }
}

impl FromSpecImpl<StringFormat> for CellFormatShorthand {
    open spec fn obeys_from_spec() -> bool {
        true
    }

    open spec fn from_spec(format: StringFormat) -> CellFormatShorthand {
        CellFormatShorthand::String(format)
    }
}

impl From<BinaryFormat> for CellFormatShorthand {
    fn from(format: BinaryFormat) -> (cell: CellFormatShorthand) {
        CellFormatShorthand::Binary(format)
    }
}

impl FromSpecImpl<BinaryFormat> for CellFormatShorthand {
    open spec fn obeys_from_spec() -> bool {
        true
    }

    open spec fn from_spec(format: BinaryFormat) -> CellFormatShorthand {
        CellFormatShorthand::Binary(format)
    }
}

impl From<BoolFormat> for CellFormatShorthand {
    fn from(format: BoolFormat) -> (cell: CellFormatShorthand) {
        CellFormatShorthand::Bool(format)
    }
}

impl FromSpecImpl<BoolFormat> for CellFormatShorthand {
    open spec fn obeys_from_spec() -> bool {
        true
    }

    open spec fn from_spec(format: BoolFormat) -> CellFormatShorthand {
        CellFormatShorthand::Bool(format)
    }
}

impl CellFormatShorthand {
    /// The least width of the format.
    pub open spec fn least_width(self) -> usize {
        match self {
            CellFormatShorthand::Number(format) => format.min_width,
            CellFormatShorthand::Binary(format) => format.min_width,
            CellFormatShorthand::String(format) => format.min_width,
            CellFormatShorthand::Bool(format) => format.min_width,
            CellFormatShorthand::Unknown(format) => format.min_width,
        }
    }

    /// The greatest width of the format.
    pub open spec fn greatest_width(self) -> usize {
        match self {
            CellFormatShorthand::Number(format) => format.max_width,
            CellFormatShorthand::Binary(format) => format.max_width,
            CellFormatShorthand::String(format) => format.max_width,
            CellFormatShorthand::Bool(format) => format.max_width,
            CellFormatShorthand::Unknown(format) => format.max_width,
        }
    }

    /// The same format with the least width `min_width`.
    pub open spec fn with_min_width(self, min_width: usize) -> CellFormatShorthand {
        match self {
            CellFormatShorthand::Number(format) => CellFormatShorthand::Number(
                NumberFormat { min_width, ..format },
            ),
            CellFormatShorthand::Binary(format) => CellFormatShorthand::Binary(
                BinaryFormat { min_width, ..format },
            ),
            CellFormatShorthand::String(format) => CellFormatShorthand::String(
                StringFormat { min_width, ..format },
            ),
            CellFormatShorthand::Bool(format) => CellFormatShorthand::Bool(
                BoolFormat { min_width, ..format },
            ),
            CellFormatShorthand::Unknown(format) => CellFormatShorthand::Unknown(
                UnknownFormat { min_width, ..format },
            ),
        }
    }

    /// The same format with the greatest width `max_width`.
    pub open spec fn with_max_width(self, max_width: usize) -> CellFormatShorthand {
        match self {
            CellFormatShorthand::Number(format) => CellFormatShorthand::Number(
                NumberFormat { max_width, ..format },
            ),
            CellFormatShorthand::Binary(format) => CellFormatShorthand::Binary(
                BinaryFormat { max_width, ..format },
            ),
            CellFormatShorthand::String(format) => CellFormatShorthand::String(
                StringFormat { max_width, ..format },
            ),
            CellFormatShorthand::Bool(format) => CellFormatShorthand::Bool(
                BoolFormat { max_width, ..format },
            ),
            CellFormatShorthand::Unknown(format) => CellFormatShorthand::Unknown(
                UnknownFormat { max_width, ..format },
            ),
        }
    }

    /// The format of a cell of the same kind, for a format of a known kind.
    pub open spec fn known(self) -> Option<CellFormat> {
        match self {
            CellFormatShorthand::Number(format) => Some(CellFormat::Number(format)),
            CellFormatShorthand::Binary(format) => Some(CellFormat::Binary(format)),
            CellFormatShorthand::String(format) => Some(CellFormat::String(format)),
            CellFormatShorthand::Bool(format) => Some(CellFormat::Bool(format)),
            CellFormatShorthand::Unknown(format) => None,
        }
    }

    /// The format that a column gets whose data type is of the kind `kind`,
    /// if it gets one.
    ///
    /// A format of a known kind stays what it is, whatever the data type.
    /// One of a kind not yet known becomes, with its widths, the string
    /// format for text, the boolean format for booleans, the binary format
    /// for binary data, the number format in general notation with no
    /// digits after the point for integers, and the number format in
    /// scientific notation for floating-point numbers. No other data type
    /// has a format.
    pub open spec fn finalized(self, kind: DataKind) -> Option<CellFormat> {
        match self {
            CellFormatShorthand::Unknown(format) => match kind {
                DataKind::Utf8 => Some(CellFormat::String(string_format_of(format))),
                DataKind::Boolean => Some(CellFormat::Bool(bool_format_of(format))),
                DataKind::Binary => Some(CellFormat::Binary(binary_format_of(format))),
                DataKind::Integer => Some(
                    CellFormat::Number(
                        NumberFormat {
                            format_type: FormatType::General,
                            precision: 0,
                            ..number_format_of(format)
                        },
                    ),
                ),
                DataKind::Float => Some(
                    CellFormat::Number(
                        NumberFormat {
                            format_type: FormatType::Exponent,
                            ..number_format_of(format)
                        },
                    ),
                ),
                DataKind::Other(name) => None,
            },
            _ => self.known(),
        }
    }

    /// Whether `r` is what settling the format for a data type of the kind
    /// `kind` gives: the format that the kind gets, or, where it gets none,
    /// the error that names the data type.
    pub open spec fn is_finalized(self, kind: DataKind, r: Result<CellFormat, EtopError>) -> bool {
        match self.finalized(kind) {
            Some(cell) => r == Ok::<CellFormat, EtopError>(cell),
            None => {
                &&& r is Err
                &&& r->Err_0 is UnsupportedDatatype
                &&& r->Err_0.text() == "Unsupported datatype: "@ + kind->Other_0@
            },
        }
    }

    /// The same format with the least width `min_width`.
    pub fn min_width(self, min_width: usize) -> (format: CellFormatShorthand)
        ensures
            format == self.with_min_width(min_width),
            format.least_width() == min_width,
            format.greatest_width() == self.greatest_width(),
    {
        match self {
            CellFormatShorthand::Number(fmt) => CellFormatShorthand::Number(
                fmt.min_width(min_width),
            ),
            CellFormatShorthand::String(fmt) => CellFormatShorthand::String(
                fmt.min_width(min_width),
            ),
            CellFormatShorthand::Binary(fmt) => CellFormatShorthand::Binary(
                fmt.min_width(min_width),
            ),
            CellFormatShorthand::Bool(fmt) => CellFormatShorthand::Bool(fmt.min_width(min_width)),
            CellFormatShorthand::Unknown(fmt) => CellFormatShorthand::Unknown(
                fmt.min_width(min_width),
            ),
        }
    }

    /// The same format with the greatest width `max_width`.
    pub fn max_width(self, max_width: usize) -> (format: CellFormatShorthand)
        ensures
            format == self.with_max_width(max_width),
            format.greatest_width() == max_width,
            format.least_width() == self.least_width(),
    {
        match self {
            CellFormatShorthand::Number(fmt) => CellFormatShorthand::Number(
                fmt.max_width(max_width),
            ),
            CellFormatShorthand::String(fmt) => CellFormatShorthand::String(
                fmt.max_width(max_width),
            ),
            CellFormatShorthand::Binary(fmt) => CellFormatShorthand::Binary(
                fmt.max_width(max_width),
            ),
            CellFormatShorthand::Bool(fmt) => CellFormatShorthand::Bool(fmt.max_width(max_width)),
            CellFormatShorthand::Unknown(fmt) => CellFormatShorthand::Unknown(
                fmt.max_width(max_width),
            ),
        }
    }
}

impl CellFormatShorthand {
    /// Settles the format of a column whose data type is of the kind
    /// `kind`. It fails for a format of a kind not yet known on a data type
    /// that has no format, and on nothing else; the error names the data
    /// type.
    pub fn finalize_as(self, kind: &DataKind) -> (r: Result<CellFormat, EtopError>)
        ensures
            self.is_finalized(*kind, r),
    {
        let fmt = match self {
            CellFormatShorthand::Number(fmt) => CellFormat::Number(fmt),
            CellFormatShorthand::Binary(fmt) => CellFormat::Binary(fmt),
            CellFormatShorthand::String(fmt) => CellFormat::String(fmt),
            CellFormatShorthand::Bool(fmt) => CellFormat::Bool(fmt),
            CellFormatShorthand::Unknown(fmt) => match kind {
                DataKind::Utf8 => CellFormat::String(StringFormat::from(fmt)),
                DataKind::Boolean => CellFormat::Bool(BoolFormat::from(fmt)),
                DataKind::Binary => CellFormat::Binary(BinaryFormat::from(fmt)),
                DataKind::Integer => {
                    let fmt = NumberFormat::from(fmt);
                    let fmt = fmt.format_type(&FormatType::General).precision(0);
                    CellFormat::Number(fmt)
                },
                DataKind::Float => {
                    let fmt = NumberFormat::from(fmt);
                    let fmt = fmt.format_type(&FormatType::Exponent);
                    CellFormat::Number(fmt)
                },
                DataKind::Other(name) => {
                    let message = std::string::String::from_str("Unsupported datatype: ").concat(
                        name.as_str(),
                    );
                    return Err(EtopError::UnsupportedDatatype(message));
                },
            },
        };
        Ok(fmt)
    }

    /// Settles the format of a column of the data type `dtype`. A format of
    /// a known kind stays what it is. One of a kind not yet known is settled
    /// as [`CellFormatShorthand::finalize_as`] settles it for the kind of
    /// the data type. It fails for a format of a kind not yet known on a
    /// data type that is of none of the kinds that have a format, and on
    /// nothing else; the error names the data type as its `Debug` impl
    /// writes it.
    pub fn finalize(self, dtype: &DataType) -> (r: Result<CellFormat, EtopError>)
        ensures
            exists|kind: DataKind| kind_matches(kind, *dtype) && self.is_finalized(kind, r),
            self.known() is Some ==> r == Ok::<CellFormat, EtopError>(self.known()->0),
            r is Ok <==> self.known() is Some || has_format(*dtype),
            r is Err ==> r->Err_0 is UnsupportedDatatype && r->Err_0.text()
                == "Unsupported datatype: "@ + debug_text_of(*dtype),
    {
        let kind = data_kind(dtype);
        let r = self.finalize_as(&kind);
        assert(kind_matches(kind, *dtype) && self.is_finalized(kind, r));
        r
    }
}

impl CellFormat {
    /// The least width of the format.
    pub open spec fn least_width(self) -> usize {
        match self {
            CellFormat::Number(format) => format.min_width,
            CellFormat::Binary(format) => format.min_width,
            CellFormat::String(format) => format.min_width,
            CellFormat::Bool(format) => format.min_width,
        }
    }

    /// The greatest width of the format.
    pub open spec fn greatest_width(self) -> usize {
        match self {
            CellFormat::Number(format) => format.max_width,
            CellFormat::Binary(format) => format.max_width,
            CellFormat::String(format) => format.max_width,
            CellFormat::Bool(format) => format.max_width,
        }
    }

    /// The same format with the least width `min_width`.
    pub open spec fn with_min_width(self, min_width: usize) -> CellFormat {
        match self {
            CellFormat::Number(format) => CellFormat::Number(NumberFormat { min_width, ..format }),
            CellFormat::Binary(format) => CellFormat::Binary(BinaryFormat { min_width, ..format }),
            CellFormat::String(format) => CellFormat::String(StringFormat { min_width, ..format }),
            CellFormat::Bool(format) => CellFormat::Bool(BoolFormat { min_width, ..format }),
        }
    }

    /// The same format with the greatest width `max_width`.
    pub open spec fn with_max_width(self, max_width: usize) -> CellFormat {
        match self {
            CellFormat::Number(format) => CellFormat::Number(NumberFormat { max_width, ..format }),
            CellFormat::Binary(format) => CellFormat::Binary(BinaryFormat { max_width, ..format }),
            CellFormat::String(format) => CellFormat::String(StringFormat { max_width, ..format }),
            CellFormat::Bool(format) => CellFormat::Bool(BoolFormat { max_width, ..format }),
        }
    }

    /// The same format with the least width `min_width`.
    pub fn min_width(self, min_width: usize) -> (format: CellFormat)
        ensures
            format == self.with_min_width(min_width),
            format.least_width() == min_width,
            format.greatest_width() == self.greatest_width(),
    {
        match self {
            CellFormat::Number(fmt) => CellFormat::Number(fmt.min_width(min_width)),
            CellFormat::String(fmt) => CellFormat::String(fmt.min_width(min_width)),
            CellFormat::Binary(fmt) => CellFormat::Binary(fmt.min_width(min_width)),
            CellFormat::Bool(fmt) => CellFormat::Bool(fmt.min_width(min_width)),
        }
    }

    /// The same format with the greatest width `max_width`.
    pub fn max_width(self, max_width: usize) -> (format: CellFormat)
        ensures
            format == self.with_max_width(max_width),
            format.greatest_width() == max_width,
            format.least_width() == self.least_width(),
    {
        match self {
            CellFormat::Number(fmt) => CellFormat::Number(fmt.max_width(max_width)),
            CellFormat::String(fmt) => CellFormat::String(fmt.max_width(max_width)),
            CellFormat::Binary(fmt) => CellFormat::Binary(fmt.max_width(max_width)),
            CellFormat::Bool(fmt) => CellFormat::Bool(fmt.max_width(max_width)),
        }
    }

    /// The least width of the format; every kind has one.
    pub fn get_min_width(&self) -> (width: Option<usize>)
        ensures
            width == Some(self.least_width()),
    {
        match self {
            CellFormat::Number(fmt) => Some(fmt.min_width),
            CellFormat::String(fmt) => Some(fmt.min_width),
            CellFormat::Binary(fmt) => Some(fmt.min_width),
            CellFormat::Bool(fmt) => Some(fmt.min_width),
        }
    }

    /// The greatest width of the format; every kind has one.
    pub fn get_max_width(&self) -> (width: Option<usize>)
        ensures
            width == Some(self.greatest_width()),
    {
        match self {
            CellFormat::Number(fmt) => Some(fmt.max_width),
            CellFormat::String(fmt) => Some(fmt.max_width),
            CellFormat::Binary(fmt) => Some(fmt.max_width),
            CellFormat::Bool(fmt) => Some(fmt.max_width),
        }
    }
}

/// Whether `r` is what asking `cell` for its number format gives: the format
/// of a number cell, a mismatch for a cell of another kind.
pub open spec fn is_number_of(cell: CellFormat, r: Result<NumberFormat, EtopError>) -> bool {
    match cell {
        CellFormat::Number(format) => r == Ok::<NumberFormat, EtopError>(format),
        _ => {
            &&& r is Err
            &&& r->Err_0 is MismatchedFormatType
            &&& r->Err_0.text() == "not a NumberFormat"@
        },
    }
}

impl TryInto<NumberFormat> for CellFormat {
    type Error = EtopError;

    /// The number format, if the cell has one.
    fn try_into(self) -> (r: Result<NumberFormat, EtopError>)
        ensures
            is_number_of(self, r),
    {
        match self {
            CellFormat::Number(format) => Ok(format),
            _ => Err(
                EtopError::MismatchedFormatType(std::string::String::from_str("not a NumberFormat")),
            ),
        }
    }
}

impl TryIntoSpecImpl<NumberFormat> for CellFormat {
    open spec fn obeys_try_into_spec() -> bool {
        false
    }

    open spec fn try_into_spec(self) -> Result<NumberFormat, EtopError> {
        arbitrary()
    }
}

/// Whether `r` is what asking `cell` for its string format gives: the format
/// of a string cell, a mismatch for a cell of another kind.
pub open spec fn is_string_of(cell: CellFormat, r: Result<StringFormat, EtopError>) -> bool {
    match cell {
        CellFormat::String(format) => r == Ok::<StringFormat, EtopError>(format),
        _ => {
            &&& r is Err
            &&& r->Err_0 is MismatchedFormatType
            &&& r->Err_0.text() == "not a StringFormat"@
        },
    }
}

impl TryInto<StringFormat> for CellFormat {
    type Error = EtopError;

    /// The string format, if the cell has one.
    fn try_into(self) -> (r: Result<StringFormat, EtopError>)
        ensures
            is_string_of(self, r),
    {
        match self {
            CellFormat::String(format) => Ok(format),
            _ => Err(
                EtopError::MismatchedFormatType(std::string::String::from_str("not a StringFormat")),
            ),
        }
    }
}

impl TryIntoSpecImpl<StringFormat> for CellFormat {
    open spec fn obeys_try_into_spec() -> bool {
        false
    }

    open spec fn try_into_spec(self) -> Result<StringFormat, EtopError> {
        arbitrary()
    }
}

/// Whether `r` is what asking `cell` for its binary format gives: the format
/// of a binary cell, a mismatch for a cell of another kind.
pub open spec fn is_binary_of(cell: CellFormat, r: Result<BinaryFormat, EtopError>) -> bool {
    match cell {
        CellFormat::Binary(format) => r == Ok::<BinaryFormat, EtopError>(format),
        _ => {
            &&& r is Err
            &&& r->Err_0 is MismatchedFormatType
            &&& r->Err_0.text() == "not a BinaryFormat"@
        },
    }
}

impl TryInto<BinaryFormat> for CellFormat {
    type Error = EtopError;

    /// The binary format, if the cell has one.
    fn try_into(self) -> (r: Result<BinaryFormat, EtopError>)
        ensures
            is_binary_of(self, r),
    {
        match self {
            CellFormat::Binary(format) => Ok(format),
            _ => Err(
                EtopError::MismatchedFormatType(std::string::String::from_str("not a BinaryFormat")),
            ),
        }
    }
}

impl TryIntoSpecImpl<BinaryFormat> for CellFormat {
    open spec fn obeys_try_into_spec() -> bool {
        false
    }

    open spec fn try_into_spec(self) -> Result<BinaryFormat, EtopError> {
        arbitrary()
    }
}

/// Whether `r` is what asking `cell` for its boolean format gives: the format
/// of a boolean cell, a mismatch for a cell of another kind.
pub open spec fn is_bool_of(cell: CellFormat, r: Result<BoolFormat, EtopError>) -> bool {
    match cell {
        CellFormat::Bool(format) => r == Ok::<BoolFormat, EtopError>(format),
        _ => {
            &&& r is Err
            &&& r->Err_0 is MismatchedFormatType
            &&& r->Err_0.text() == "not a BoolFormat"@
        },
    }
}

impl TryInto<BoolFormat> for CellFormat {
    type Error = EtopError;

    /// The boolean format, if the cell has one.
    fn try_into(self) -> (r: Result<BoolFormat, EtopError>)
        ensures
            is_bool_of(self, r),
    {
        match self {
            CellFormat::Bool(format) => Ok(format),
            _ => Err(
                EtopError::MismatchedFormatType(std::string::String::from_str("not a BoolFormat")),
            ),
        }
    }
}

impl TryIntoSpecImpl<BoolFormat> for CellFormat {
    open spec fn obeys_try_into_spec() -> bool {
        false
    }

    open spec fn try_into_spec(self) -> Result<BoolFormat, EtopError> {
        arbitrary()
    }
}

} // verus!
