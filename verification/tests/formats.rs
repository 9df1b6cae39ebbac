use polars::prelude::{DataType, TimeUnit};
use toolstr::cell_format::{CellFormat, CellFormatShorthand};
use toolstr::dtype::DataKind;
use toolstr::column::{ColumnFormat, Format};
use toolstr::error::EtopError;
use toolstr::formats::{BinaryFormat, BoolFormat, NumberFormat, StringFormat, UnknownFormat};
use toolstr::specifier::{Align, FormatType, Sign};

#[test]
fn number_format_defaults() {
    let format = NumberFormat::new();
    assert_eq!(format.fill, ' ');
    assert_eq!(format.align, Align::Right);
    assert_eq!(format.sign, Sign::NegativeOnly);
    assert!(!format.zero_padding);
    assert!(!format.type_prefix);
    assert!(!format.commas);
    assert_eq!(format.min_width, 0);
    assert_eq!(format.max_width, usize::MAX);
    assert_eq!(format.precision, 6);
    assert_eq!(format.format_type, FormatType::General);
}

#[test]
fn number_format_setters_change_one_field() {
    let format = NumberFormat::new().min_width(4).max_width(9).precision(2);
    let format = format.format_type(&FormatType::Percent);
    assert_eq!(
        format,
        NumberFormat {
            min_width: 4,
            max_width: 9,
            precision: 2,
            format_type: FormatType::Percent,
            ..NumberFormat::new()
        }
    );
}

#[test]
fn number_format_gives_its_specifier() {
    let format = NumberFormat::new().min_width(8).precision(2);
    let spec = format.specifier();
    assert_eq!(spec.width, 8);
    assert_eq!(spec.precision, 2);
    assert_eq!(spec.fill, ' ');
    assert_eq!(spec.format_type, FormatType::General);
}

#[test]
fn shorthand_from_each_kind() {
    let number = NumberFormat::new();
    assert_eq!(CellFormatShorthand::from(number), CellFormatShorthand::Number(number));
    let string = StringFormat::new();
    assert_eq!(CellFormatShorthand::from(string), CellFormatShorthand::String(string));
    let binary = BinaryFormat::new();
    assert_eq!(CellFormatShorthand::from(binary), CellFormatShorthand::Binary(binary));
    let boolean = BoolFormat::new();
    assert_eq!(CellFormatShorthand::from(boolean), CellFormatShorthand::Bool(boolean));
}

#[test]
fn shorthand_widths() {
    let shorthands = [
        CellFormatShorthand::Number(NumberFormat::new()),
        CellFormatShorthand::String(StringFormat::new()),
        CellFormatShorthand::Binary(BinaryFormat::new()),
        CellFormatShorthand::Bool(BoolFormat::new()),
        CellFormatShorthand::Unknown(UnknownFormat::new()),
    ];
    for shorthand in shorthands {
        let sized = shorthand.min_width(3).max_width(12);
        match (shorthand, sized) {
            (CellFormatShorthand::Number(before), CellFormatShorthand::Number(after)) => {
                assert_eq!(after, NumberFormat { min_width: 3, max_width: 12, ..before });
            }
            (CellFormatShorthand::String(_), CellFormatShorthand::String(after)) => {
                assert_eq!(after, StringFormat { min_width: 3, max_width: 12 });
            }
            (CellFormatShorthand::Binary(_), CellFormatShorthand::Binary(after)) => {
                assert_eq!(after, BinaryFormat { min_width: 3, max_width: 12 });
            }
            (CellFormatShorthand::Bool(_), CellFormatShorthand::Bool(after)) => {
                assert_eq!(after, BoolFormat { min_width: 3, max_width: 12 });
            }
            (CellFormatShorthand::Unknown(_), CellFormatShorthand::Unknown(after)) => {
                assert_eq!(after, UnknownFormat { min_width: 3, max_width: 12 });
            }
            _ => panic!("the kind changed"),
        }
    }
}

#[test]
fn finalize_keeps_a_known_kind() {
    let number = NumberFormat::new().precision(3);
    assert_eq!(
        CellFormatShorthand::Number(number).finalize_as(&DataKind::Utf8),
        Ok(CellFormat::Number(number))
    );
    let string = StringFormat::new().min_width(2);
    assert_eq!(
        CellFormatShorthand::String(string).finalize_as(&DataKind::Integer),
        Ok(CellFormat::String(string))
    );
    let binary = BinaryFormat::new();
    assert_eq!(
        CellFormatShorthand::Binary(binary).finalize_as(&DataKind::Other("List".to_string())),
        Ok(CellFormat::Binary(binary))
    );
    let boolean = BoolFormat::new();
    assert_eq!(
        CellFormatShorthand::Bool(boolean).finalize_as(&DataKind::Float),
        Ok(CellFormat::Bool(boolean))
    );
}

#[test]
fn finalize_settles_an_unknown_kind() {
    let unknown = CellFormatShorthand::Unknown(UnknownFormat::new().min_width(5).max_width(20));
    assert_eq!(
        unknown.finalize_as(&DataKind::Utf8),
        Ok(CellFormat::String(StringFormat { min_width: 5, max_width: 20 }))
    );
    assert_eq!(
        unknown.finalize_as(&DataKind::Boolean),
        Ok(CellFormat::Bool(BoolFormat { min_width: 5, max_width: 20 }))
    );
    assert_eq!(
        unknown.finalize_as(&DataKind::Binary),
        Ok(CellFormat::Binary(BinaryFormat { min_width: 5, max_width: 20 }))
    );
    assert_eq!(
        unknown.finalize_as(&DataKind::Integer),
        Ok(CellFormat::Number(NumberFormat {
            min_width: 5,
            max_width: 20,
            precision: 0,
            format_type: FormatType::General,
            ..NumberFormat::new()
        }))
    );
    assert_eq!(
        unknown.finalize_as(&DataKind::Float),
        Ok(CellFormat::Number(NumberFormat {
            min_width: 5,
            max_width: 20,
            precision: 6,
            format_type: FormatType::Exponent,
            ..NumberFormat::new()
        }))
    );
}

#[test]
fn finalize_rejects_other_data_types() {
    let unknown = CellFormatShorthand::Unknown(UnknownFormat::new());
    let result = unknown.finalize_as(&DataKind::Other("List(Int64)".to_string()));
    assert_eq!(
        result,
        Err(EtopError::UnsupportedDatatype("Unsupported datatype: List(Int64)".to_string()))
    );
    assert_eq!(result.unwrap_err().message(), "Unsupported datatype: List(Int64)");
}

#[test]
fn kind_goes_by_the_answers_in_order() {
    let name = || "Date".to_string();
    assert_eq!(DataKind::of_answers(Some(DataKind::Utf8), false, false, name()), DataKind::Utf8);
    assert_eq!(DataKind::of_answers(Some(DataKind::Boolean), true, true, name()), DataKind::Boolean);
    assert_eq!(DataKind::of_answers(Some(DataKind::Binary), false, true, name()), DataKind::Binary);
    assert_eq!(DataKind::of_answers(None, true, false, name()), DataKind::Integer);
    assert_eq!(DataKind::of_answers(None, true, true, name()), DataKind::Integer);
    assert_eq!(DataKind::of_answers(None, false, true, name()), DataKind::Float);
    assert_eq!(DataKind::of_answers(None, false, false, name()), DataKind::Other(name()));
}

#[test]
fn finalize_goes_by_the_data_type() {
    let unknown = CellFormatShorthand::Unknown(UnknownFormat::new().min_width(5).max_width(20));
    assert_eq!(
        unknown.finalize(&DataType::Utf8),
        Ok(CellFormat::String(StringFormat { min_width: 5, max_width: 20 }))
    );
    assert_eq!(
        unknown.finalize(&DataType::Boolean),
        Ok(CellFormat::Bool(BoolFormat { min_width: 5, max_width: 20 }))
    );
    assert_eq!(
        unknown.finalize(&DataType::Binary),
        Ok(CellFormat::Binary(BinaryFormat { min_width: 5, max_width: 20 }))
    );
    for dtype in [
        DataType::UInt8,
        DataType::UInt16,
        DataType::UInt32,
        DataType::UInt64,
        DataType::Int8,
        DataType::Int16,
        DataType::Int32,
        DataType::Int64,
    ] {
        assert_eq!(
            unknown.finalize(&dtype),
            Ok(CellFormat::Number(NumberFormat {
                min_width: 5,
                max_width: 20,
                precision: 0,
                format_type: FormatType::General,
                ..NumberFormat::new()
            }))
        );
    }
    for dtype in [DataType::Float32, DataType::Float64] {
        assert_eq!(
            unknown.finalize(&dtype),
            Ok(CellFormat::Number(NumberFormat {
                min_width: 5,
                max_width: 20,
                format_type: FormatType::Exponent,
                ..NumberFormat::new()
            }))
        );
    }
    assert_eq!(
        unknown.finalize(&DataType::Duration(TimeUnit::Milliseconds)),
        Err(EtopError::UnsupportedDatatype(
            "Unsupported datatype: Duration(Milliseconds)".to_string()
        ))
    );
    assert_eq!(
        unknown.finalize(&DataType::Null),
        Err(EtopError::UnsupportedDatatype("Unsupported datatype: Null".to_string()))
    );
    assert_eq!(
        unknown.finalize(&DataType::Date),
        Err(EtopError::UnsupportedDatatype("Unsupported datatype: Date".to_string()))
    );
    assert_eq!(
        unknown.finalize(&DataType::List(Box::new(DataType::Utf8))),
        Err(EtopError::UnsupportedDatatype("Unsupported datatype: List(Utf8)".to_string()))
    );
    let number = NumberFormat::new().precision(3);
    assert_eq!(
        CellFormatShorthand::Number(number).finalize(&DataType::Date),
        Ok(CellFormat::Number(number))
    );
    let string = StringFormat::new();
    assert_eq!(
        CellFormatShorthand::String(string).finalize(&DataType::Int64),
        Ok(CellFormat::String(string))
    );
}

#[test]
fn cell_format_widths() {
    let cells = [
        CellFormat::Number(NumberFormat::new()),
        CellFormat::String(StringFormat::new()),
        CellFormat::Binary(BinaryFormat::new()),
        CellFormat::Bool(BoolFormat::new()),
    ];
    for cell in cells {
        assert_eq!(cell.get_min_width(), Some(0));
        assert_eq!(cell.get_max_width(), Some(usize::MAX));
        let sized = cell.min_width(4);
        assert_eq!(sized.get_min_width(), Some(4));
        assert_eq!(sized.get_max_width(), Some(usize::MAX));
        let sized = sized.max_width(10);
        assert_eq!(sized.get_min_width(), Some(4));
        assert_eq!(sized.get_max_width(), Some(10));
    }
    assert_eq!(
        CellFormat::Number(NumberFormat::new().precision(1)).min_width(4),
        CellFormat::Number(NumberFormat::new().precision(1).min_width(4))
    );
}

#[test]
fn cell_format_hands_out_its_own_kind_only() {
    let number = CellFormat::Number(NumberFormat::new().precision(2));
    let taken: Result<NumberFormat, EtopError> = number.try_into();
    assert_eq!(taken, Ok(NumberFormat::new().precision(2)));
    let taken: Result<StringFormat, EtopError> = number.try_into();
    assert_eq!(taken, Err(EtopError::MismatchedFormatType("not a StringFormat".to_string())));
    let taken: Result<BinaryFormat, EtopError> = number.try_into();
    assert_eq!(taken, Err(EtopError::MismatchedFormatType("not a BinaryFormat".to_string())));
    let taken: Result<BoolFormat, EtopError> = number.try_into();
    assert_eq!(taken, Err(EtopError::MismatchedFormatType("not a BoolFormat".to_string())));

    let string = CellFormat::String(StringFormat::new().min_width(1));
    let taken: Result<StringFormat, EtopError> = string.try_into();
    assert_eq!(taken, Ok(StringFormat::new().min_width(1)));
    let taken: Result<NumberFormat, EtopError> = string.try_into();
    assert_eq!(taken, Err(EtopError::MismatchedFormatType("not a NumberFormat".to_string())));

    let binary = CellFormat::Binary(BinaryFormat::new());
    let taken: Result<BinaryFormat, EtopError> = binary.try_into();
    assert_eq!(taken, Ok(BinaryFormat::new()));

    let boolean = CellFormat::Bool(BoolFormat::new());
    let taken: Result<BoolFormat, EtopError> = boolean.try_into();
    assert_eq!(taken, Ok(BoolFormat::new()));
}

#[test]
fn column_starts_empty() {
    let column = ColumnFormat::new();
    assert_eq!(column.name, "");
    assert_eq!(column.display_name, "");
    assert_eq!(column.min_width, None);
    assert_eq!(column.max_width, None);
    assert_eq!(column.format, None);
    assert_eq!(column, ColumnFormat::default());
}

#[test]
fn column_name_is_shown_unless_another_is_set() {
    let column = ColumnFormat::new().name("gas_used");
    assert_eq!(column.name, "gas_used");
    assert_eq!(column.display_name, "gas_used");
    let column = ColumnFormat::new().display_name("gas").name("gas_used");
    assert_eq!(column.name, "gas_used");
    assert_eq!(column.display_name, "gas");
    let column = ColumnFormat::new().name("gas_used").display_name("gas");
    assert_eq!(column.name, "gas_used");
    assert_eq!(column.display_name, "gas");
}

#[test]
fn column_breaks_at_underscores() {
    let column = ColumnFormat::new().name("max_gas_used").newline_underscores();
    assert_eq!(column.name, "max_gas_used");
    assert_eq!(column.display_name, "max\ngas\nused");
    let column = ColumnFormat::new().name("block").newline_underscores();
    assert_eq!(column.display_name, "block");
}

#[test]
fn column_widths() {
    let column = ColumnFormat::new().name("n").min_width(3).max_width(9);
    assert_eq!(column.min_width, Some(3));
    assert_eq!(column.max_width, Some(9));
    assert_eq!(column.name, "n");
    let column = column.no_min_width();
    assert_eq!(column.min_width, None);
    assert_eq!(column.max_width, Some(9));
    let column = column.no_max_width();
    assert_eq!(column.min_width, None);
    assert_eq!(column.max_width, None);
    assert_eq!(column.name, "n");
}

#[test]
fn column_number_format() {
    let set = NumberFormat::new().precision(2);
    let mut column = ColumnFormat::new().name("price").min_width(4);
    column.format = Some(Format::Number(set));
    assert_eq!(column.number_format(), Ok(set));

    let column = ColumnFormat::new().name("price");
    assert_eq!(column.number_format(), Ok(NumberFormat::new()));
    let column = column.min_width(4);
    assert_eq!(column.number_format(), Ok(NumberFormat::new().min_width(4)));
    let column = column.max_width(11);
    assert_eq!(column.number_format(), Ok(NumberFormat::new().min_width(4).max_width(11)));

    let mut column = ColumnFormat::new().name("price");
    column.format = Some(Format::String(StringFormat::new()));
    assert_eq!(
        column.number_format(),
        Err(EtopError::MismatchedFormatType("column price requires NumberFormat".to_string()))
    );
}

#[test]
fn column_binary_format() {
    let set = BinaryFormat::new().max_width(10);
    let mut column = ColumnFormat::new().name("hash");
    column.format = Some(Format::Binary(set));
    assert_eq!(column.binary_format(), Ok(set));

    let column = ColumnFormat::new().name("hash").min_width(6).max_width(12);
    assert_eq!(column.binary_format(), Ok(BinaryFormat { min_width: 6, max_width: 12 }));
    let column = ColumnFormat::new().name("hash");
    assert_eq!(column.binary_format(), Ok(BinaryFormat::new()));

    let mut column = ColumnFormat::new().name("hash");
    column.format = Some(Format::Number(NumberFormat::new()));
    assert_eq!(
        column.binary_format(),
        Err(EtopError::MismatchedFormatType("column hash requires NumberFormat".to_string()))
    );
}
