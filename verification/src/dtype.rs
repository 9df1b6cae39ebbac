//! The data type of a column, as far as the choice of a format goes.

use polars::prelude::DataType;
use vstd::prelude::*;

verus! {

/// The data type of a column of a data frame.
#[verifier::external_type_specification]
#[verifier::external_body]
pub struct ExDataType(DataType);

/// The kind of a data type: what the choice of a format reads of it.
#[derive(Clone, Debug, PartialEq, Eq)]
pub enum DataKind {
    /// Text.
    Utf8,
    /// Booleans.
    Boolean,
    /// Binary data.
    Binary,
    /// Integers of any size, signed or not.
    Integer,
    /// Floating-point numbers of any size.
    Float,
    /// Any other data type, by the text that names it.
    Other(String),
}

/// What telling the variants `Utf8`, `Boolean` and `Binary` of `DataType`
/// apart from the others gives: the kind of each of the three, `None` for
/// any other data type.
pub uninterp spec fn plain_kind_of(dtype: DataType) -> Option<DataKind>;

/// What `DataType::is_integer` answers for the data type.
pub uninterp spec fn integer_type(dtype: DataType) -> bool;

/// What `DataType::is_float` answers for the data type.
pub uninterp spec fn float_type(dtype: DataType) -> bool;

/// The text that the `Debug` impl of `DataType` writes for the data type.
pub uninterp spec fn debug_text_of(dtype: DataType) -> Seq<char>;

/// Whether `kind` is the kind of the data type `dtype`: the kind that its
/// variant gives if it is text, booleans or binary data; else integers if
/// it says it is an integer type; else floating-point numbers if it says it
/// is a floating-point type; else another kind, under the text that its
/// `Debug` impl writes.
pub open spec fn kind_matches(kind: DataKind, dtype: DataType) -> bool {
    match plain_kind_of(dtype) {
        Some(plain) => kind == plain && (kind is Utf8 || kind is Boolean || kind is Binary),
        None => if integer_type(dtype) {
            kind is Integer
        } else if float_type(dtype) {
            kind is Float
        } else {
            kind is Other && kind->Other_0@ == debug_text_of(dtype)
        },
    }
}

/// Whether the data type is of a kind that has a format: any but the other
/// kinds.
pub open spec fn has_format(dtype: DataType) -> bool {
    plain_kind_of(dtype) is Some || integer_type(dtype) || float_type(dtype)
}

/// Tells the variants `Utf8`, `Boolean` and `Binary` of `DataType` apart
/// from the others: the kind of each of the three, `None` for any other.
/// The answer goes by the data type alone and is one of these four.
#[verifier::external_body]
fn plain_kind(dtype: &DataType) -> (kind: Option<DataKind>)
    ensures
        kind == plain_kind_of(*dtype),
        kind is Some ==> kind->0 is Utf8 || kind->0 is Boolean || kind->0 is Binary,
{
    match dtype {
        DataType::Utf8 => Some(DataKind::Utf8),
        DataType::Boolean => Some(DataKind::Boolean),
        DataType::Binary => Some(DataKind::Binary),
        _ => None,
    }
}

/// `DataType::is_integer`: whether the data type is numeric and no
/// floating-point type. The answer goes by the data type alone; which data
/// types are integer types is left to it.
#[verifier::external_body]
fn is_integer(dtype: &DataType) -> (b: bool)
    ensures
        b == integer_type(*dtype),
{
    dtype.is_integer()
}

/// `DataType::is_float`: whether the data type is one of the two
/// floating-point types. The answer goes by the data type alone; which data
/// types are floating-point types is left to it.
#[verifier::external_body]
fn is_float(dtype: &DataType) -> (b: bool)
    ensures
        b == float_type(*dtype),
{
    dtype.is_float()
}

/// The text that the `Debug` impl of `DataType` writes for the data type.
/// The text goes by the data type alone; what it reads is left to the impl.
#[verifier::external_body]
fn debug_text(dtype: &DataType) -> (text: String)
    ensures
        text@ == debug_text_of(*dtype),
{
    format!("{:?}", dtype)
}

/// The kind of the data type `dtype`, as [`DataKind::of_answers`] settles it
/// from what the data type answers when asked.
pub(crate) fn data_kind(dtype: &DataType) -> (kind: DataKind)
    ensures
        kind_matches(kind, *dtype),
{
    DataKind::of_answers(
        plain_kind(dtype),
        is_integer(dtype),
        is_float(dtype),
        debug_text(dtype),
    )
}

/// The kind of a data type that answers as given: `plain` if it is text,
/// booleans or binary data; else integers if it says it is an integer type;
/// else floating-point numbers if it says it is a floating-point type; else
/// another kind under the name it gives itself.
pub open spec fn kind_of_answers(
    plain: Option<DataKind>,
    integer: bool,
    float: bool,
    name: String,
) -> DataKind {
    match plain {
        Some(kind) => kind,
        None => if integer {
            DataKind::Integer
        } else if float {
            DataKind::Float
        } else {
            DataKind::Other(name)
        },
    }
}

impl DataKind {
    /// Settles the kind of a data type from what the data type answered:
    /// `plain` is its kind if it is text, booleans or binary data,
    /// `integer` and `float` say whether it is an integer or a
    /// floating-point type, and `name` is the text that names it.
    pub fn of_answers(plain: Option<DataKind>, integer: bool, float: bool, name: String) -> (kind:
        DataKind)
        ensures
            kind == kind_of_answers(plain, integer, float, name),
    {
        match plain {
            Some(kind) => kind,
            None => {
                if integer {
                    DataKind::Integer
                } else if float {
                    DataKind::Float
                } else {
                    DataKind::Other(name)
                }
            },
        }
    }
}

} // verus!
