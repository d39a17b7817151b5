use dicom_anonymizer::identifiers::{
    coarsen_date, derive_identifiers, derive_with_study_value, i64_to_hex, AnonError,
    RawAttributes,
};

fn raw(serial: &str, date: &str, time: &str, uid: &str, birth: &str) -> RawAttributes {
    RawAttributes {
        serial_number: serial.to_string(),
        study_date: date.to_string(),
        study_time: time.to_string(),
        study_uid: uid.to_string(),
        birth_date: birth.to_string(),
        series_uid: "1.2.3".to_string(),
        modality: "CT".to_string(),
        instance_number: "12".to_string(),
        image_type: "ORIGINAL/PRIMARY/AXIAL".to_string(),
    }
}

#[test]
fn identifier_example() {
    let r = raw("123456", "20230615", "143000", "1.2.3", "19800512");
    let ids = derive_with_study_value(&r, "host", Some(6)).unwrap();
    // 1234562306151430 in hexadecimal
    assert_eq!(ids.patient_id, "462D3EFB61406");
    assert_eq!(ids.study_id, "6");
    assert_eq!(ids.study_date, "20230101");
    assert_eq!(ids.birth_date, "19800101");
    assert_eq!(ids.station_name, "host");
}

#[test]
fn date_coarsening() {
    assert_eq!(coarsen_date("20230615"), "20230101");
    assert_eq!(coarsen_date("19800512"), "19800101");
}

#[test]
fn rejection_of_non_numeric_serial() {
    let r = raw("AB12", "20230615", "143000", "1.2.3", "19800512");
    assert_eq!(derive_with_study_value(&r, "host", Some(6)).unwrap_err(), AnonError::InvalidSerialNumber);
    assert_eq!(derive_identifiers(&r, "host").unwrap_err(), AnonError::InvalidSerialNumber);
}

#[test]
fn rejection_of_empty_serial() {
    let r = raw("", "20230615", "143000", "1.2.3", "19800512");
    assert_eq!(derive_identifiers(&r, "host").unwrap_err(), AnonError::InvalidSerialNumber);
}

#[test]
fn short_study_date_is_a_parse_error() {
    let r = raw("123", "2023", "143000", "1.2.3", "19800512");
    assert_eq!(derive_identifiers(&r, "host").unwrap_err(), AnonError::MalformedPatientKey);
}

#[test]
fn non_digit_study_time_is_a_parse_error() {
    let r = raw("123", "20230615", "14:30", "1.2.3", "19800512");
    assert_eq!(derive_identifiers(&r, "host").unwrap_err(), AnonError::MalformedPatientKey);
}

#[test]
fn oversized_patient_key_is_a_parse_error() {
    let r = raw("99999999999", "20230615", "143000", "1.2.3", "19800512");
    assert_eq!(derive_identifiers(&r, "host").unwrap_err(), AnonError::MalformedPatientKey);
}

#[test]
fn short_birth_date_is_a_parse_error() {
    let r = raw("123", "20230615", "143000", "1.2.3", "");
    assert_eq!(derive_identifiers(&r, "host").unwrap_err(), AnonError::MalformedBirthDate);
}

#[test]
fn unevaluable_study_uid_fails() {
    let r = raw("123", "20230615", "143000", "1.2.3", "19800512");
    assert_eq!(derive_with_study_value(&r, "host", None).unwrap_err(), AnonError::UnevaluableStudyUid);
    let bad = raw("123", "20230615", "143000", "1..x", "19800512");
    assert_eq!(derive_identifiers(&bad, "host").unwrap_err(), AnonError::UnevaluableStudyUid);
}

#[test]
fn study_uid_components_are_summed() {
    let r = raw("123456", "20230615", "143000", "1.2.840.10008", "19800512");
    let ids = derive_identifiers(&r, "host").unwrap();
    assert_eq!(ids.study_id, "2A63");
    assert_eq!(ids.patient_id, "462D3EFB61406");
}

#[test]
fn derivation_is_deterministic() {
    let r = raw("123456", "20230615", "143000", "1.2.840.10008", "19800512");
    let a = derive_identifiers(&r, "host").unwrap();
    let b = derive_identifiers(&r.clone(), "host").unwrap();
    assert_eq!(a.patient_id, b.patient_id);
    assert_eq!(a.study_id, b.study_id);
    assert_eq!(a.study_date, b.study_date);
    assert_eq!(a.birth_date, b.birth_date);
    assert_eq!(a.station_name, b.station_name);
}

#[test]
fn identifiers_ignore_birth_date() {
    let a = derive_identifiers(&raw("123456", "20230615", "143000", "1.2.3", "19800512"), "h").unwrap();
    let b = derive_identifiers(&raw("123456", "20230615", "143000", "1.2.3", "19991231"), "k").unwrap();
    assert_eq!(a.patient_id, b.patient_id);
    assert_eq!(a.study_id, b.study_id);
    assert_ne!(a.birth_date, b.birth_date);
}

#[test]
fn negative_study_value_in_twos_complement() {
    assert_eq!(i64_to_hex(-1), "FFFFFFFFFFFFFFFF");
    assert_eq!(i64_to_hex(255), "FF");
    assert_eq!(i64_to_hex(0), "0");
}

#[test]
fn overlong_study_uid_does_not_evaluate() {
    let long_uid = vec!["1"; 40].join(".");
    let r = raw("123", "20230615", "143000", &long_uid, "19800512");
    assert_eq!(derive_identifiers(&r, "host").unwrap_err(), AnonError::UnevaluableStudyUid);
    let edge_uid = format!("{}1", "1.".repeat(31)); // 63 characters
    let ok = raw("123", "20230615", "143000", &edge_uid, "19800512");
    assert_eq!(derive_identifiers(&ok, "host").unwrap().study_id, "20");
}

#[test]
fn non_numeric_study_uid_does_not_evaluate() {
    for uid in ["str::substring(\"é\", 0, 1)", "shl(1, 99)", "1.2.x", "1-2"] {
        let r = raw("123", "20230615", "143000", uid, "19800512");
        assert_eq!(derive_identifiers(&r, "host").unwrap_err(), AnonError::UnevaluableStudyUid);
    }
}
