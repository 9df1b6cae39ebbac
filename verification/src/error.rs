//! The errors of the cell and column formats.

use vstd::prelude::*;

verus! {

/// Why a format could not be chosen or handed out.
#[derive(Clone, Debug, PartialEq, Eq)]
pub enum EtopError {
    /// No format exists for a column of this data type.
    UnsupportedDatatype(String),
    /// A format of one kind was asked for where one of another kind is set.
    MismatchedFormatType(String),
}

impl EtopError {
    /// The text of the error.
    pub open spec fn text(self) -> Seq<char> {
        match self {
            EtopError::UnsupportedDatatype(message) => message@,
            EtopError::MismatchedFormatType(message) => message@,
        }
    }

    /// The text of the error.
    pub fn message(&self) -> (message: &str)
        ensures
            message@ == self.text(),
    {
        match self {
            EtopError::UnsupportedDatatype(message) => message.as_str(),
            EtopError::MismatchedFormatType(message) => message.as_str(),
        }
    }
}

} // verus!
