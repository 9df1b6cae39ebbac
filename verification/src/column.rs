//! The format of a column: its name, the name shown for it, its widths and
//! the format of its cells.

use crate::error::EtopError;
use crate::formats::{
    default_binary_format, default_number_format, BinaryFormat, NumberFormat, StringFormat,
};
use crate::text::{chars_of, string_of};
use vstd::prelude::*;

verus! {

/// The format of the cells of a column.
#[derive(Clone, Copy, Debug, PartialEq, Eq, Structural)]
pub enum Format {
    Number(NumberFormat),
    Binary(BinaryFormat),
    String(StringFormat),
}

/// The format of a column.
#[derive(Clone, Debug, PartialEq, Eq)]
pub struct ColumnFormat {
    /// The name of the column in the data.
    pub name: String,
    /// The name shown above the column.
    pub display_name: String,
    /// The least width, if one is set.
    pub min_width: Option<usize>,
    /// The greatest width, if one is set.
    pub max_width: Option<usize>,
    /// The format of the cells, if one is set.
    pub format: Option<Format>,
}

/// `s` with a line break in place of every underscore.
pub open spec fn underscores_broken(s: Seq<char>) -> Seq<char> {
    Seq::new(
        s.len(),
        |i: int|
            if s[i] == '_' {
                '\n'
            } else {
                s[i]
            },
    )
}

/// The number format of a column with the given widths and no format of its
/// own: the default, with each width that is set.
pub open spec fn number_format_with(
    min_width: Option<usize>,
    max_width: Option<usize>,
) -> NumberFormat {
    NumberFormat {
        min_width: match min_width {
            Some(width) => width,
            None => default_number_format().min_width,
        },
        max_width: match max_width {
            Some(width) => width,
            None => default_number_format().max_width,
        },
        ..default_number_format()
    }
}

/// The binary format of a column with the given widths and no format of its
/// own: the default, with each width that is set.
pub open spec fn binary_format_with(
    min_width: Option<usize>,
    max_width: Option<usize>,
) -> BinaryFormat {
    BinaryFormat {
        min_width: match min_width {
            Some(width) => width,
            None => default_binary_format().min_width,
        },
        max_width: match max_width {
            Some(width) => width,
            None => default_binary_format().max_width,
        },
    }
}

impl Default for ColumnFormat {
    /// The column without a name, widths or format.
    fn default() -> (column: ColumnFormat)
        ensures
            column.name@.len() == 0,
            column.display_name@.len() == 0,
            column.min_width is None,
            column.max_width is None,
            column.format is None,
    {
        ColumnFormat {
            name: std::string::String::new(),
            display_name: std::string::String::new(),
            min_width: None,
            max_width: None,
            format: None,
        }
    }
}

impl ColumnFormat {
    /// Whether `other` differs from this column in its names at most.
    pub open spec fn same_but_names(self, other: ColumnFormat) -> bool {
        &&& other.min_width == self.min_width
        &&& other.max_width == self.max_width
        &&& other.format == self.format
    }

    /// Whether `other` differs from this column in its widths at most.
    pub open spec fn same_but_widths(self, other: ColumnFormat) -> bool {
        &&& other.name@ == self.name@
        &&& other.display_name@ == self.display_name@
        &&& other.format == self.format
    }

    /// The number format of the column: its own if it has one, the default
    /// with the widths of the column if it has no format. A column with a
    /// format of another kind has none, and the error names the column.
    pub fn number_format(&self) -> (r: Result<NumberFormat, EtopError>)
        ensures
            match self.format {
                Some(Format::Number(format)) => r == Ok::<NumberFormat, EtopError>(format),
                None => r == Ok::<NumberFormat, EtopError>(
                    number_format_with(self.min_width, self.max_width),
                ),
                _ => {
                    &&& r is Err
                    &&& r->Err_0 is MismatchedFormatType
                    &&& r->Err_0.text() == "column "@ + self.name@ + " requires NumberFormat"@
                },
            },
    {
        match self.format {
            Some(Format::Number(format)) => Ok(format),
            None => {
                let mut fmt = NumberFormat::new();
                if let Some(min_width) = self.min_width {
                    fmt.min_width = min_width;
                }
                if let Some(max_width) = self.max_width {
                    fmt.max_width = max_width;
                }
                Ok(fmt)
            },
            _ => {
                let msg = std::string::String::from_str("column ").concat(
                    self.name.as_str(),
                ).concat(" requires NumberFormat");
                Err(EtopError::MismatchedFormatType(msg))
            },
        }
    }

    /// The binary format of the column: its own if it has one, the default
    /// with the widths of the column if it has no format. A column with a
    /// format of another kind has none, and the error names the column, in
    /// the same words as for a number format.
    pub fn binary_format(&self) -> (r: Result<BinaryFormat, EtopError>)
        ensures
            match self.format {
                Some(Format::Binary(format)) => r == Ok::<BinaryFormat, EtopError>(format),
                None => r == Ok::<BinaryFormat, EtopError>(
                    binary_format_with(self.min_width, self.max_width),
                ),
                _ => {
                    &&& r is Err
                    &&& r->Err_0 is MismatchedFormatType
                    &&& r->Err_0.text() == "column "@ + self.name@ + " requires NumberFormat"@
                },
            },
    {
        match self.format {
            Some(Format::Binary(format)) => Ok(format),
            None => {
                let mut fmt = BinaryFormat::new();
                if let Some(min_width) = self.min_width {
                    fmt.min_width = min_width;
                }
                if let Some(max_width) = self.max_width {
                    fmt.max_width = max_width;
                }
                Ok(fmt)
            },
            _ => {
                let msg = std::string::String::from_str("column ").concat(
                    self.name.as_str(),
                ).concat(" requires NumberFormat");
                Err(EtopError::MismatchedFormatType(msg))
            },
        }
    }

    /// The column without a name, widths or format.
    pub fn new() -> (column: ColumnFormat)
        ensures
            column.name@.len() == 0,
            column.display_name@.len() == 0,
            column.min_width is None,
            column.max_width is None,
            column.format is None,
    {
        ColumnFormat::default()
    }

    /// The same column under the name `name`, which is also the name shown
    /// unless one is set already.
    pub fn name(self, name: &str) -> (column: ColumnFormat)
        ensures
            column.name@ == name@,
            column.display_name@ == if self.display_name@.len() == 0 {
                name@
            } else {
                self.display_name@
            },
            self.same_but_names(column),
    {
        let display_name = if self.display_name.as_str().unicode_len() == 0 {
            std::string::String::from_str(name)
        } else {
            self.display_name
        };
        ColumnFormat {
            name: std::string::String::from_str(name),
            display_name,
            min_width: self.min_width,
            max_width: self.max_width,
            format: self.format,
        }
    }

    /// The same column shown under the name `display_name`.
    pub fn display_name(self, display_name: &str) -> (column: ColumnFormat)
        ensures
            column.name@ == self.name@,
            column.display_name@ == display_name@,
            self.same_but_names(column),
    {
        ColumnFormat {
            name: self.name,
            display_name: std::string::String::from_str(display_name),
            min_width: self.min_width,
            max_width: self.max_width,
            format: self.format,
        }
    }

    /// The same column with a line break in place of every underscore of the
    /// name shown.
    pub fn newline_underscores(self) -> (column: ColumnFormat)
        ensures
            column.name@ == self.name@,
            column.display_name@ == underscores_broken(self.display_name@),
            self.same_but_names(column),
    {
        let shown = chars_of(self.display_name.as_str());
        let mut broken: Vec<char> = Vec::new();
        let mut i: usize = 0;
        while i < shown.len()
            invariant
                i <= shown@.len(),
                broken@ == underscores_broken(shown@).subrange(0, i as int),
            decreases shown@.len() - i,
        {
            broken.push(
                if shown[i] == '_' {
                    '\n'
                } else {
                    shown[i]
                },
            );
            assert(broken@ == underscores_broken(shown@).subrange(0, i + 1));
            i += 1;
        }
        assert(broken@ == underscores_broken(shown@));
        ColumnFormat {
            name: self.name,
            display_name: string_of(&broken),
            min_width: self.min_width,
            max_width: self.max_width,
            format: self.format,
        }
    }

    /// The same column with the least width `min_width`.
    pub fn min_width(self, min_width: usize) -> (column: ColumnFormat)
        ensures
            column.min_width == Some(min_width),
            column.max_width == self.max_width,
            self.same_but_widths(column),
    {
        ColumnFormat {
            name: self.name,
            display_name: self.display_name,
            min_width: Some(min_width),
            max_width: self.max_width,
            format: self.format,
        }
    }

    /// The same column with no least width.
    pub fn no_min_width(self) -> (column: ColumnFormat)
        ensures
            column.min_width is None,
            column.max_width == self.max_width,
            self.same_but_widths(column),
    {
        ColumnFormat {
            name: self.name,
            display_name: self.display_name,
            min_width: None,
            max_width: self.max_width,
            format: self.format,
        }
    }

    /// The same column with the greatest width `max_width`.
    pub fn max_width(self, max_width: usize) -> (column: ColumnFormat)
        ensures
            column.max_width == Some(max_width),
            column.min_width == self.min_width,
            self.same_but_widths(column),
    {
        ColumnFormat {
            name: self.name,
            display_name: self.display_name,
            min_width: self.min_width,
            max_width: Some(max_width),
            format: self.format,
        }
    }

    /// The same column with no greatest width.
    pub fn no_max_width(self) -> (column: ColumnFormat)
        ensures
            column.max_width is None,
            column.min_width == self.min_width,
            self.same_but_widths(column),
    {
        ColumnFormat {
            name: self.name,
            display_name: self.display_name,
            min_width: self.min_width,
            max_width: None,
            format: self.format,
        }
    }
}

} // verus!
