use dicom_anonymizer::identifiers::{derive_with_study_value, AnonError, RawAttributes};
use dicom_anonymizer::naming::{
    i128_to_hex, image_type_of, output_names, output_names_with_series_value,
    parse_instance_number, series_id_for_value, strip_zeros, SERIES_FALLBACK,
};
use dicom_anonymizer::text::{
    parse_decimal_i64, replace_dots_with_plus, split_text, to_hex_upper, to_padded_decimal,
};

fn series_dir_of(series: &str) -> String {
    let r = raw(series, "1", "");
    let ids = derive_with_study_value(&r, "host", Some(6)).unwrap();
    output_names(&ids, &r).unwrap().series_dir
}

fn raw(series: &str, instance: &str, image_type: &str) -> RawAttributes {
    RawAttributes {
        serial_number: "123456".to_string(),
        study_date: "20230615".to_string(),
        study_time: "143000".to_string(),
        study_uid: "1.2.3".to_string(),
        birth_date: "19800512".to_string(),
        series_uid: series.to_string(),
        modality: "CT".to_string(),
        instance_number: instance.to_string(),
        image_type: image_type.to_string(),
    }
}

#[test]
fn image_type_third_component() {
    assert_eq!(image_type_of("ORIGINAL/PRIMARY/AXIAL"), "AXIAL");
    assert_eq!(image_type_of("A/B/C/D"), "C");
    assert_eq!(image_type_of("A//"), "");
    assert_eq!(image_type_of("ORIGINAL\\PRIMARY\\AXIAL"), "UNK");
    assert_eq!(image_type_of(""), "UNK");
}

#[test]
fn instance_numbers() {
    assert_eq!(parse_instance_number("12"), Some(12));
    assert_eq!(parse_instance_number("+7"), Some(7));
    assert_eq!(parse_instance_number("4294967295"), Some(4294967295));
    assert_eq!(parse_instance_number("4294967296"), None);
    assert_eq!(parse_instance_number(""), None);
    assert_eq!(parse_instance_number("+"), None);
    assert_eq!(parse_instance_number("-1"), None);
    assert_eq!(parse_instance_number("1a"), None);
}

#[test]
fn padded_instance_numbers() {
    assert_eq!(to_padded_decimal(12, 5), "00012");
    assert_eq!(to_padded_decimal(0, 5), "00000");
    assert_eq!(to_padded_decimal(123456, 5), "123456");
}

#[test]
fn trailing_zeros_are_stripped() {
    assert_eq!(strip_zeros(1200), 12);
    assert_eq!(strip_zeros(7), 7);
    assert_eq!(strip_zeros(0), 0);
    assert_eq!(strip_zeros(-300), -3);
    assert_eq!(strip_zeros(1010), 101);
}

#[test]
fn series_fallback() {
    assert_eq!(SERIES_FALLBACK, 1234567891234567);
    assert_eq!(series_id_for_value(None), "462D53C9BAF07");
    assert_eq!(series_dir_of("1.2.abc"), "462D53C9BAF07");
    assert_eq!(series_dir_of(""), "462D53C9BAF07");
}

#[test]
fn series_identifier_from_sum() {
    assert_eq!(series_id_for_value(Some(6)), "6");
    assert_eq!(series_id_for_value(Some(2000)), "2");
    assert_eq!(series_dir_of("1.2.3"), "6");
    assert_eq!(series_dir_of("10.20"), "3");
}

#[test]
fn negative_series_value_in_twos_complement() {
    assert_eq!(i128_to_hex(-1), "FFFFFFFFFFFFFFFFFFFFFFFFFFFFFFFF");
    assert_eq!(i128_to_hex(i128::MIN), "80000000000000000000000000000000");
}

#[test]
fn canonical_output_names() {
    let r = raw("1.2.3", "12", "ORIGINAL/PRIMARY/AXIAL");
    let ids = derive_with_study_value(&r, "host", Some(6)).unwrap();
    let names = output_names(&ids, &r).unwrap();
    assert_eq!(names.patient_dir, "462D3EFB61406");
    assert_eq!(names.study_dir, "6");
    assert_eq!(names.series_dir, "6");
    assert_eq!(names.file_name, "CT_AXIAL_00012.dcm");
    let fallback = output_names_with_series_value(&ids, &raw("x", "3", ""), None).unwrap();
    assert_eq!(fallback.series_dir, "462D53C9BAF07");
    assert_eq!(fallback.file_name, "CT_UNK_00003.dcm");
}

#[test]
fn malformed_instance_number_fails() {
    let r = raw("1.2.3", "twelve", "");
    let ids = derive_with_study_value(&r, "host", Some(6)).unwrap();
    assert_eq!(output_names(&ids, &r).unwrap_err(), AnonError::MalformedInstanceNumber);
}

#[test]
fn text_helpers() {
    assert_eq!(parse_decimal_i64("9223372036854775807"), Some(i64::MAX));
    assert_eq!(parse_decimal_i64("9223372036854775808"), None);
    assert_eq!(parse_decimal_i64(""), None);
    assert_eq!(to_hex_upper(255), "FF");
    assert_eq!(replace_dots_with_plus("1.2.3"), "1+2+3");
    assert_eq!(split_text("a/b", '/'), vec!["a".to_string(), "b".to_string()]);
}

#[test]
fn overlong_series_uid_falls_back() {
    let long_uid = vec!["2"; 40].join(".");
    assert_eq!(series_dir_of(&long_uid), "462D53C9BAF07");
}

#[test]
fn non_numeric_series_uid_falls_back() {
    assert_eq!(series_dir_of("str::substring(\"é\", 0, 1)"), "462D53C9BAF07");
    assert_eq!(series_dir_of("math::abs(-9223372036854775808)"), "462D53C9BAF07");
}
