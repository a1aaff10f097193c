use convertx::engine::{convert_length, convert_mass, convert_temp, fits_engine};
use convertx::human::{bytes_to_human_readable, seconds_to_human_readable};
use convertx::parse::parse_decimal;
use convertx::rational::Rat;
use convertx::report::{fits_display, length_line, luminous_line, temp_line, voltage_line};
use convertx::units::{
    length_variants, length_unit_token, parse_length_unit, parse_temp_unit, temp_variants,
    LengthUnit, LuminousUnit, MassUnit, TempUnit, VoltageUnit,
};

fn exact_eq(a: Rat, b: Rat) -> bool {
    a.num * b.den == b.num * a.den
}

#[test]
fn bytes_boundary_rounds_up_to_next_unit_label() {
    // 1048575 bytes is just under 1 MB, so it stays in KB but its two
    // decimals round up to 1024.00
    assert_eq!(bytes_to_human_readable(1048575), "1024.00 KB");
    assert_eq!(bytes_to_human_readable(1073741824), "1.00 GB");
}

#[test]
fn bytes_ties_round_to_even() {
    // 1152 bytes is exactly 1.125 KB; the hundredths tie resolves to the
    // even digit
    assert_eq!(bytes_to_human_readable(1152), "1.12 KB");
}

#[test]
fn seconds_zero_prints_zero_seconds() {
    assert_eq!(seconds_to_human_readable(0), "0s");
    assert_eq!(seconds_to_human_readable(86400), "1d");
    assert_eq!(seconds_to_human_readable(3600), "1h");
}

#[test]
fn parse_decimal_accepts_plain_forms() {
    let v = parse_decimal("3.14").unwrap();
    assert_eq!((v.num, v.den), (314, 100));
    let v = parse_decimal("-2").unwrap();
    assert_eq!((v.num, v.den), (-2, 1));
    let v = parse_decimal("+0.5").unwrap();
    assert_eq!((v.num, v.den), (5, 10));
    let v = parse_decimal(".25").unwrap();
    assert_eq!((v.num, v.den), (25, 100));
    let v = parse_decimal("7.").unwrap();
    assert_eq!((v.num, v.den), (7, 1));
}

#[test]
fn parse_decimal_rejects_bad_forms() {
    assert!(parse_decimal("").is_none());
    assert!(parse_decimal("-").is_none());
    assert!(parse_decimal(".").is_none());
    assert!(parse_decimal("1.2.3").is_none());
    assert!(parse_decimal("12a").is_none());
    assert!(parse_decimal("1e5").is_none());
    assert!(parse_decimal("123456789012345678").is_none());
    assert!(parse_decimal("0.1234567890123").is_none());
}

#[test]
fn unit_tokens_parse_case_insensitively() {
    assert_eq!(parse_length_unit("Meters"), Some(LengthUnit::Meters));
    assert_eq!(parse_length_unit("KILOMETERS"), Some(LengthUnit::Kilometers));
    assert_eq!(parse_temp_unit("F"), Some(TempUnit::F));
    assert_eq!(parse_length_unit("cubits"), None);
    assert_eq!(parse_temp_unit("celsius"), None);
}

#[test]
fn unit_variants_keep_declaration_order() {
    assert_eq!(length_variants(), vec!["meters", "feet", "inches", "kilometers"]);
    assert_eq!(temp_variants(), vec!["c", "f", "k"]);
    assert_eq!(length_unit_token(LengthUnit::Inches), "inches");
}

#[test]
fn length_round_trip_is_exact() {
    let x = Rat { num: 25, den: 10 };
    let there = convert_length(&x, LengthUnit::Meters, LengthUnit::Feet).unwrap();
    let back = convert_length(&there, LengthUnit::Feet, LengthUnit::Meters).unwrap();
    assert!(exact_eq(back, x));
}

#[test]
fn temp_round_trip_is_exact() {
    let x = Rat { num: 985, den: 10 };
    let there = convert_temp(&x, TempUnit::F, TempUnit::K).unwrap();
    let back = convert_temp(&there, TempUnit::K, TempUnit::F).unwrap();
    assert!(exact_eq(back, x));
}

#[test]
fn identity_pairs_return_the_value_exactly() {
    let x = Rat { num: 12345, den: 100 };
    let same = convert_mass(&x, MassUnit::Oz, MassUnit::Oz).unwrap();
    assert!(exact_eq(same, x));
}

#[test]
fn scaling_the_input_scales_the_output() {
    let x = Rat { num: 3, den: 2 };
    let x10 = Rat { num: 30, den: 2 };
    let y = convert_mass(&x, MassUnit::Kg, MassUnit::Oz).unwrap();
    let y10 = convert_mass(&x10, MassUnit::Kg, MassUnit::Oz).unwrap();
    let y_times_10 = Rat { num: y.num * 10, den: y.den };
    assert!(exact_eq(y10, y_times_10));
}

#[test]
fn luminous_cross_pair_reports_unsupported() {
    let line = luminous_line(&Rat { num: 1, den: 1 }, LuminousUnit::Candela, LuminousUnit::Lumen);
    assert_eq!(
        line,
        "Conversion from candela to lumen is not directly supported (dimensional incompatibility)."
    );
    let same = luminous_line(&Rat { num: 5, den: 1 }, LuminousUnit::Lux, LuminousUnit::Lux);
    assert_eq!(same, "5.0000 lux = 5.0000 lux");
}

#[test]
fn negative_values_format_with_a_sign() {
    let line = temp_line(&Rat { num: -40, den: 1 }, TempUnit::C, TempUnit::F);
    assert_eq!(line, "-40.00°C = -40.00°F");
}

#[test]
fn same_unit_line_short_circuits() {
    let line = length_line(&Rat { num: 15, den: 10 }, LengthUnit::Feet, LengthUnit::Feet);
    assert_eq!(line, "1.5000 feet = 1.5000 feet");
}

#[test]
fn voltage_line_is_the_identity() {
    let line = voltage_line(&Rat { num: 12, den: 1 }, VoltageUnit::Volt, VoltageUnit::Volt);
    assert_eq!(line, "12.0000 volt = 12.0000 volt");
}

#[test]
fn range_checks_accept_and_reject() {
    assert!(fits_engine(&Rat { num: 37000000000, den: 1 }));
    assert!(!fits_engine(&Rat { num: 1, den: 0 }));
    assert!(!fits_engine(&Rat { num: i128::MAX, den: 1 }));
    assert!(fits_display(&Rat { num: -5, den: 1000000000000 }));
    assert!(!fits_display(&Rat { num: 1, den: 10000000000000 }));
}
