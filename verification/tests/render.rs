use toolstr::magnitude::{conversion_for, exponent_of, Conversion, Magnitude};
use toolstr::render::render;
use toolstr::si::bucket_of;
use toolstr::specifier::{Align, FormatSpec, FormatType, ParseError, Sign};

fn measure(spec: &FormatSpec, magnitude: f64) -> Magnitude {
    match conversion_for(spec) {
        Conversion::Fixed { hundredfold, precision } => {
            let shown = if hundredfold { magnitude * 100.0 } else { magnitude };
            Magnitude::Decimal(format!("{:.1$}", shown, precision))
        }
        Conversion::Truncated => Magnitude::Integer(magnitude as i64 as u64),
        Conversion::Scientific { precision } => {
            Magnitude::Scientific(format!("{:.1$e}", magnitude, precision))
        }
        Conversion::Scaled { precision } => {
            let exponent = exponent_of(&format!("{:e}", magnitude));
            let scaled = magnitude / 1000f64.powi(bucket_of(exponent));
            Magnitude::Scaled { text: format!("{:.1$}", scaled, precision), exponent }
        }
    }
}

fn show(pattern: &str, value: f64) -> String {
    let spec = FormatSpec::parse(pattern).unwrap();
    let magnitude = measure(&spec, value.abs());
    let shown = render(&spec, value.is_sign_negative(), &magnitude);
    assert_eq!(toolstr::render::format(pattern, value.is_sign_negative(), &magnitude), Ok(shown.clone()));
    shown
}

#[test]
fn negative_that_rounds_to_zero_has_no_sign() {
    assert_eq!(show(".0f", -0.04), "0");
    assert_eq!(show(".1f", -0.04), "0.0");
    assert_eq!(show(".1f", -0.06), "-0.1");
    assert_eq!(show(".0%", -0.001), "0%");
    assert_eq!(show(".1e", -0.0), "0.0e0");
}

#[test]
fn sign_of_zero_stays_under_the_other_policies() {
    assert_eq!(show("+.0f", -0.04), "-0");
    assert_eq!(show(" .0f", -0.04), "-0");
}

#[test]
fn sign_of_zero_stays_under_the_radix_types() {
    assert_eq!(show("x", -0.0), "-0");
    assert_eq!(show("b", -0.4), "-0");
}

#[test]
fn grouping_inserts_thousands_separators() {
    assert_eq!(show(",.0f", 1234567.0), "1,234,567");
    assert_eq!(show(",.2f", 1234567.891), "1,234,567.89");
    assert_eq!(show(",.0f", 123.0), "123");
    assert_eq!(show(",.0f", 1234.0), "1,234");
    assert_eq!(show(",.0f", 123456.0), "123,456");
    assert_eq!(show(",.0f", -1234.0), "-1,234");
}

#[test]
fn si_prefix_scales_by_thousands() {
    assert_eq!(show(".2s", 1_234_000.0), "1.23M");
    assert_eq!(show(".2s", 1000.0), "1.00k");
    assert_eq!(show(".2s", 999.0), "999.00");
    assert_eq!(show(".2s", 999_999.0), "1000.00k");
    assert_eq!(show(".1s", 1_000_000.0), "1.0M");
    assert_eq!(show(".0s", 1e9), "1G");
    assert_eq!(show(".0s", 1e12), "1T");
    assert_eq!(show(".0s", 1e15), "1P");
    assert_eq!(show(".0s", 1e18), "1E");
    assert_eq!(show(".0s", 1e21), "1Z");
    assert_eq!(show(".0s", 1e24), "1Y");
    assert_eq!(show(".2s", 0.0), "0.00");
    assert_eq!(show(".1s", 0.5), "500.0m");
    assert_eq!(show(".1s", 0.00012), "120.0\u{b5}");
    assert_eq!(show(".0s", 2e-9), "2n");
    assert_eq!(show(".0s", 2e-12), "2p");
    assert_eq!(show(".0s", 2e-15), "2f");
    assert_eq!(show(".0s", 2e-18), "2a");
    assert_eq!(show(".0s", 2e-21), "2z");
    assert_eq!(show(".0s", 2e-24), "2y");
    assert_eq!(show(".1s", -1500.0), "-1.5k");
}

#[test]
fn si_prefix_clamps_beyond_the_table() {
    assert_eq!(show(".0s", 1e30), "1000000Y");
    assert_eq!(show(".3s", 1e-27), "0.001y");
}

#[test]
fn alternate_form_puts_a_radix_prefix() {
    assert_eq!(show("#x", 255.0), "0xff");
    assert_eq!(show("#X", 255.0), "0xFF");
    assert_eq!(show("#b", 5.0), "0b101");
    assert_eq!(show("#o", 8.0), "0o10");
    assert_eq!(show("x", 255.0), "ff");
    assert_eq!(show("X", 255.0), "FF");
    assert_eq!(show("b", 5.0), "101");
    assert_eq!(show("o", 8.0), "10");
    assert_eq!(show("#x", -255.0), "-0xff");
}

#[test]
fn radix_types_truncate() {
    assert_eq!(show("x", 255.9), "ff");
    assert_eq!(show("b", 0.0), "0");
    assert_eq!(show("x", 4294967296.0), "100000000");
    assert_eq!(show("o", 64.0), "100");
    assert_eq!(show("x", 1e300), "7fffffffffffffff");
}

#[test]
fn percent_multiplies_by_hundred() {
    assert_eq!(show(".1%", 0.256), "25.6%");
    assert_eq!(show("%", 0.5), "50.0%");
    assert_eq!(show(".0%", 1.0), "100%");
    assert_eq!(show("+.0%", 0.12), "+12%");
}

#[test]
fn fixed_and_general() {
    assert_eq!(show("", 3.5), "3.500000");
    assert_eq!(show("f", 3.5), "3.500000");
    assert_eq!(show(".2f", 3.14159), "3.14");
    assert_eq!(show(".2", 3.14159), "3.14");
    assert_eq!(show(".0f", 42.0), "42");
}

#[test]
fn alternate_fixed_keeps_the_point() {
    assert_eq!(show("#.0f", 42.0), "42.");
    assert_eq!(show("#.1f", 42.0), "42.0");
    assert_eq!(show("#.0f", -0.2), "0.");
}

#[test]
fn scientific_notation() {
    assert_eq!(show("e", 1234.5), "1.234500e3");
    assert_eq!(show("E", 1234.5), "1.234500E3");
    assert_eq!(show(".2e", 0.00012), "1.20e-4");
    assert_eq!(show(".0e", 1234.5), "1e3");
    assert_eq!(show("#.0e", 1234.5), "1.e3");
    assert_eq!(show("#.0E", 1234.5), "1.E3");
    assert_eq!(show("#.1e", 1234.5), "1.2e3");
    assert_eq!(show(".1e", -1234.5), "-1.2e3");
}

#[test]
fn sign_policies() {
    assert_eq!(show("+.1f", 2.5), "+2.5");
    assert_eq!(show("+.1f", -2.5), "-2.5");
    assert_eq!(show("-.1f", 2.5), "2.5");
    assert_eq!(show("-.1f", -2.5), "-2.5");
    assert_eq!(show(" .1f", 2.5), " 2.5");
    assert_eq!(show(" .1f", -2.5), "-2.5");
}

#[test]
fn no_sign_for_numbers_that_are_not_negative() {
    let patterns = ["", "f", ".2f", "%", "b", "o", "x", "X", "#x", "s", ",.0f", "10.1f", "<10"];
    let values = [0.0, 0.5, 1.0, 255.0, 1234567.0, 1e12];
    for pattern in patterns {
        for value in values {
            assert!(!show(pattern, value).contains('-'), "{} {}", pattern, value);
        }
    }
}

#[test]
fn padding_goes_where_the_alignment_says() {
    assert_eq!(show("10.2f", 3.14159), "      3.14");
    assert_eq!(show(">10.2f", 3.14159), "      3.14");
    assert_eq!(show("<10.2f", 3.14159), "3.14      ");
    assert_eq!(show("^10.2f", 3.14159), "   3.14   ");
    assert_eq!(show("^9.2f", 3.14159), "  3.14   ");
    assert_eq!(show("=+10.2f", 3.14159), "+     3.14");
    assert_eq!(show("*>8.1f", 2.5), "*****2.5");
    assert_eq!(show("*<8.1f", -2.5), "-2.5****");
    assert_eq!(show("*^8.1f", -2.5), "**-2.5**");
    assert_eq!(show("*=8.1f", -2.5), "-****2.5");
    assert_eq!(show("_>6x", 255.0), "____ff");
    assert_eq!(show("8.1%", 0.256), "   25.6%");
    assert_eq!(show("<8.1s", 1500.0), "1.5k    ");
}

#[test]
fn padding_reaches_the_width_exactly() {
    let patterns = ["12.2f", "<12.2f", "^12.2f", "=12.2f", "012.2f", "*^13,.1f", "+12x", "#16b"];
    let values = [0.0, 1.5, -1.5, 255.0, -1234.5];
    for pattern in patterns {
        let width = FormatSpec::parse(pattern).unwrap().width;
        for value in values {
            assert_eq!(show(pattern, value).chars().count(), width, "{} {}", pattern, value);
        }
    }
}

#[test]
fn long_text_is_not_cut() {
    assert_eq!(show("3.2f", 1234.5678), "1234.57");
    assert_eq!(show("<3.2f", 1234.5678), "1234.57");
    assert_eq!(show("^3.2f", 1234.5678), "1234.57");
    assert_eq!(show("03.2f", -1234.5678), "-1234.57");
    assert_eq!(show("4.2f", 1.5), "1.50");
}

#[test]
fn zero_fill_pads_after_the_sign() {
    assert_eq!(show("+08.2f", 3.14159), "+0003.14");
    assert_eq!(show("08.2f", -3.14159), "-0003.14");
    assert_eq!(show("#010x", 255.0), "0x000000ff");
    assert_eq!(show("#010x", -255.0), "-0x00000ff");
    assert_eq!(show("06.1%", 0.256), "025.6%");
}

#[test]
fn sign_aware_text_starts_with_the_sign() {
    for pattern in ["=+10.2f", "+010.2f", "*=+10.2f", "+010,.2f"] {
        assert!(show(pattern, 3.14159).starts_with('+'), "{}", pattern);
        assert!(show(pattern, -3.14159).starts_with('-'), "{}", pattern);
    }
    assert!(show("#010x", 255.0).starts_with("0x"));
    assert!(show("#010x", -255.0).starts_with("-0x"));
}

#[test]
fn zero_fill_groups_after_padding() {
    assert_eq!(show("08,.0f", 1234.0), "00,001,234");
    assert_eq!(show("+08,.0f", 1234.0), "+0,001,234");
    assert_eq!(show("010,.2f", 1234.5), "0,001,234.50");
    assert_eq!(show("03,.0f", 7.0), "007");
    assert_eq!(show("02,.0f", 1234.0), "1,234");
    assert_eq!(show("05,.0f", 1234.0), "01,234");
}

#[test]
fn grouping_before_padding_without_zero_fill() {
    assert_eq!(show("12,.0f", 1234567.0), "   1,234,567");
    assert_eq!(show("*<12,.0f", 1234567.0), "1,234,567***");
    assert_eq!(show("=+12,.0f", 1234567.0), "+  1,234,567");
}

#[test]
fn text_that_is_no_number_passes_through() {
    assert_eq!(show(".2f", f64::NAN), "NaN");
    assert_eq!(show(".2f", f64::INFINITY), "inf");
    assert_eq!(show(".2f", f64::NEG_INFINITY), "-inf");
    assert_eq!(show("6.2f", f64::INFINITY), "   inf");
    assert_eq!(show("x", f64::NAN), "0");
}

#[test]
fn rendering_twice_gives_the_same_text() {
    for pattern in ["", "+08,.2f", ".2s", "#x", ".1%", "^10.3e"] {
        for value in [0.0, -0.04, 255.0, 1_234_000.0, 0.256] {
            assert_eq!(show(pattern, value), show(pattern, value));
        }
    }
}

#[test]
fn conversion_goes_by_type() {
    let spec = FormatSpec::parse(".3%").unwrap();
    assert_eq!(conversion_for(&spec), Conversion::Fixed { hundredfold: true, precision: 3 });
    let spec = FormatSpec::parse(".3f").unwrap();
    assert_eq!(conversion_for(&spec), Conversion::Fixed { hundredfold: false, precision: 3 });
    let spec = FormatSpec::parse("#.3f").unwrap();
    assert_eq!(conversion_for(&spec), Conversion::Fixed { hundredfold: false, precision: 3 });
    let spec = FormatSpec::parse(".3").unwrap();
    assert_eq!(conversion_for(&spec), Conversion::Fixed { hundredfold: false, precision: 3 });
    for pattern in ["b", "o", "x", "X"] {
        let spec = FormatSpec::parse(pattern).unwrap();
        assert_eq!(conversion_for(&spec), Conversion::Truncated);
    }
    let spec = FormatSpec::parse(".3e").unwrap();
    assert_eq!(conversion_for(&spec), Conversion::Scientific { precision: 3 });
    let spec = FormatSpec::parse(".3E").unwrap();
    assert_eq!(conversion_for(&spec), Conversion::Scientific { precision: 3 });
    let spec = FormatSpec::parse(".3s").unwrap();
    assert_eq!(conversion_for(&spec), Conversion::Scaled { precision: 3 });
}

#[test]
fn integers_are_written_in_the_base_of_the_type() {
    let spec = FormatSpec::parse(",").unwrap();
    assert_eq!(render(&spec, false, &Magnitude::Integer(1234567)), "1,234,567");
    assert_eq!(render(&spec, true, &Magnitude::Integer(0)), "0");
    assert_eq!(render(&spec, true, &Magnitude::Integer(12)), "-12");
    let spec = FormatSpec::parse("x").unwrap();
    assert_eq!(render(&spec, false, &Magnitude::Integer(u64::MAX)), "ffffffffffffffff");
    let spec = FormatSpec::parse("X").unwrap();
    assert_eq!(render(&spec, false, &Magnitude::Integer(0xabcdef)), "ABCDEF");
    let spec = FormatSpec::parse("b").unwrap();
    assert_eq!(render(&spec, false, &Magnitude::Integer(10)), "1010");
    let spec = FormatSpec::parse("o").unwrap();
    assert_eq!(render(&spec, false, &Magnitude::Integer(511)), "777");
    let spec = FormatSpec::parse("%").unwrap();
    assert_eq!(render(&spec, false, &Magnitude::Integer(50)), "50%");
}

#[test]
fn grouping_takes_the_leading_digits_only() {
    let spec = FormatSpec::parse(",x").unwrap();
    assert_eq!(render(&spec, false, &Magnitude::Integer(0x1234a5)), "1,234a5");
    let spec = FormatSpec::parse(",").unwrap();
    assert_eq!(
        render(&spec, false, &Magnitude::Decimal("1234.56789".to_string())),
        "1,234.56789"
    );
    assert_eq!(render(&spec, false, &Magnitude::Decimal(".5".to_string())), ".5");
}

#[test]
fn a_specifier_built_by_hand_is_rendered() {
    let spec = FormatSpec {
        fill: '.',
        align: Align::Center,
        sign: Sign::SpaceForPositive,
        symbol: true,
        zero: false,
        width: 9,
        grouping: false,
        precision: 0,
        format_type: FormatType::Octal,
    };
    assert_eq!(render(&spec, false, &Magnitude::Integer(8)), ".. 0o10..");
}

#[test]
fn zero_text_in_scientific_notation_is_zero() {
    let spec = FormatSpec::parse(".2e").unwrap();
    assert_eq!(render(&spec, true, &Magnitude::Scientific("0.00e0".to_string())), "0.00e0");
    assert_eq!(render(&spec, true, &Magnitude::Scientific("0.00e-7".to_string())), "0.00e-7");
    assert_eq!(render(&spec, true, &Magnitude::Scientific("0.01e0".to_string())), "-0.01e0");
    assert_eq!(render(&spec, true, &Magnitude::Scientific("0.00e".to_string())), "-0.00e");
    assert_eq!(render(&spec, true, &Magnitude::Scientific("e5".to_string())), "-e5");
    let spec = FormatSpec::parse(".2f").unwrap();
    assert_eq!(render(&spec, true, &Magnitude::Decimal("0.0.0".to_string())), "-0.0.0");
    assert_eq!(render(&spec, true, &Magnitude::Decimal(".".to_string())), "-.");
    assert_eq!(render(&spec, true, &Magnitude::Decimal(".0".to_string())), ".0");
    assert_eq!(render(&spec, true, &Magnitude::Decimal("0.".to_string())), "0.");
    assert_eq!(render(&spec, true, &Magnitude::Decimal("".to_string())), "-");
}

#[test]
fn format_rejects_what_is_no_pattern() {
    let magnitude = Magnitude::Integer(1);
    assert_eq!(
        toolstr::render::format("q", false, &magnitude),
        Err(ParseError::UnknownType { position: 0, letter: 'q' })
    );
    assert_eq!(
        toolstr::render::format(".x", false, &magnitude),
        Err(ParseError::MissingDigits { position: 0 })
    );
    assert_eq!(toolstr::render::format("#6x", true, &magnitude), Ok("  -0x1".to_string()));
}
