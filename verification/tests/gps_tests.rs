//! GPS field parsing: scaled decimal values, signs, fraction truncation
//! and padding, grammar rejection, and the assembled fix.

use ems_control::gps::{parse_gps_fields, parse_scaled_decimal, split_on_commas};

#[test]
fn parses_plain_and_signed_decimals() {
    assert_eq!(parse_scaled_decimal(b"123.456", 6), Some(123_456_000));
    assert_eq!(parse_scaled_decimal(b"-12.34", 6), Some(-12_340_000));
    assert_eq!(parse_scaled_decimal(b"55", 2), Some(5_500));
    assert_eq!(parse_scaled_decimal(b"-0.5", 2), Some(-50));
    assert_eq!(parse_scaled_decimal(b"0.000001", 6), Some(1));
    assert_eq!(parse_scaled_decimal(b"0", 6), Some(0));
}

#[test]
fn truncates_fraction_digits_beyond_the_scale() {
    assert_eq!(parse_scaled_decimal(b"3.14159", 2), Some(314));
    assert_eq!(parse_scaled_decimal(b"1.999", 2), Some(199));
}

#[test]
fn rejects_malformed_strings() {
    assert_eq!(parse_scaled_decimal(b"", 6), None);
    assert_eq!(parse_scaled_decimal(b"-", 6), None);
    assert_eq!(parse_scaled_decimal(b".", 6), None);
    assert_eq!(parse_scaled_decimal(b"5.", 6), None);
    assert_eq!(parse_scaled_decimal(b".5", 6), None);
    assert_eq!(parse_scaled_decimal(b"1.2.3", 6), None);
    assert_eq!(parse_scaled_decimal(b"12a", 6), None);
    assert_eq!(parse_scaled_decimal(b"a12", 6), None);
    assert_eq!(parse_scaled_decimal(b"--5", 6), None);
    assert_eq!(parse_scaled_decimal(b"1 2", 6), None);
}

#[test]
fn rejects_values_beyond_the_representable_range() {
    // Nineteen integer digits fall outside the grammar.
    assert_eq!(parse_scaled_decimal(b"1234567890123456789", 0), None);
    // Eighteen digits parse, but not once the scale pushes them past the
    // 64-bit range.
    assert_eq!(
        parse_scaled_decimal(b"999999999999999999", 0),
        Some(999_999_999_999_999_999)
    );
    assert_eq!(parse_scaled_decimal(b"999999999999999999", 6), None);
}

#[test]
fn assembles_a_fix_from_its_fields() {
    let fix = parse_gps_fields(
        String::from("2024-05-01T10:00:00Z"),
        b"37.774929",
        b"-122.419418",
        b"30.5",
        b"1.25",
    )
    .unwrap();
    assert_eq!(fix.latitude, 37_774_929);
    assert_eq!(fix.longitude, -122_419_418);
    assert_eq!(fix.altitude, 3_050);
    assert_eq!(fix.speed, 125);
    assert_eq!(fix.timestamp, "2024-05-01T10:00:00Z");
}

#[test]
fn a_bad_field_loses_the_fix() {
    assert!(parse_gps_fields(String::new(), b"37.7", b"bad", b"0", b"0").is_none());
}

#[test]
fn splits_fields_on_commas() {
    assert_eq!(split_on_commas(b"a,bc,d"), vec![b"a".to_vec(), b"bc".to_vec(), b"d".to_vec()]);
    assert_eq!(split_on_commas(b""), vec![b"".to_vec()]);
    assert_eq!(split_on_commas(b",x,"), vec![b"".to_vec(), b"x".to_vec(), b"".to_vec()]);
}

#[test]
fn a_report_line_splits_and_parses_into_a_fix() {
    let line = b"20240501100000,37.774929,-122.419418,30.5,1.25";
    let fields = split_on_commas(line);
    assert_eq!(fields.len(), 5);
    let timestamp = String::from_utf8(fields[0].clone()).unwrap();
    let fix = parse_gps_fields(timestamp, &fields[1], &fields[2], &fields[3], &fields[4]).unwrap();
    assert_eq!(fix.timestamp, "20240501100000");
    assert_eq!(fix.latitude, 37_774_929);
    assert_eq!(fix.longitude, -122_419_418);
    assert_eq!(fix.altitude, 3_050);
    assert_eq!(fix.speed, 125);
}
