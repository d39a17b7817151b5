use dicom::object::{InMemDicomObject, Tag};
use dicom_anonymizer::anonymize::{anonymize_dataset, anonymize_dataset_as};
use dicom_anonymizer::dataset::{extract_raw, read_attribute};
use dicom_anonymizer::identifiers::AnonError;

fn put(obj: &mut InMemDicomObject, g: u16, e: u16, vr: dicom::core::VR, v: &str) {
    let value = dicom::core::PrimitiveValue::from(v);
    obj.put_element(dicom::core::DataElement::new(Tag(g, e), vr, value));
}

fn sample(serial: &str) -> InMemDicomObject {
    let mut obj = InMemDicomObject::new_empty();
    put(&mut obj, 0x0018, 0x1000, dicom::core::VR::LO, serial);
    put(&mut obj, 0x0008, 0x0020, dicom::core::VR::DA, "20230615");
    put(&mut obj, 0x0008, 0x0030, dicom::core::VR::TM, "143000");
    put(&mut obj, 0x0020, 0x000D, dicom::core::VR::UI, "1.2.840.10008");
    put(&mut obj, 0x0010, 0x0030, dicom::core::VR::DA, "19800512");
    put(&mut obj, 0x0020, 0x000E, dicom::core::VR::UI, "1.2.3");
    put(&mut obj, 0x0008, 0x0060, dicom::core::VR::CS, "MR");
    put(&mut obj, 0x0020, 0x0013, dicom::core::VR::IS, "4");
    put(&mut obj, 0x0008, 0x0008, dicom::core::VR::CS, "ORIGINAL/PRIMARY/AXIAL");
    put(&mut obj, 0x0008, 0x0080, dicom::core::VR::LO, "General Hospital");
    put(&mut obj, 0x0010, 0x0010, dicom::core::VR::PN, "Doe^John");
    put(&mut obj, 0x0040, 0xA730, dicom::core::VR::LO, "notes");
    obj
}

#[test]
fn reads_raw_attributes() {
    let obj = sample("123456");
    let raw = extract_raw(&obj);
    assert_eq!(raw.serial_number, "123456");
    assert_eq!(raw.image_type, "ORIGINAL/PRIMARY/AXIAL");
    assert_eq!(read_attribute(&obj, 0x0010, 0x4000), "");
}

#[test]
fn anonymizes_a_dataset() {
    let mut obj = sample("123456");
    let names = anonymize_dataset_as(&mut obj, true, "station1").unwrap().unwrap();
    assert_eq!(names.patient_dir, "462D3EFB61406");
    assert_eq!(names.study_dir, "2A63");
    assert_eq!(names.series_dir, "6");
    assert_eq!(names.file_name, "MR_AXIAL_00004.dcm");
    assert_eq!(read_attribute(&obj, 0x0010, 0x0010), "462D3EFB61406");
    assert_eq!(read_attribute(&obj, 0x0010, 0x0020), "462D3EFB61406");
    assert_eq!(read_attribute(&obj, 0x0008, 0x0020), "20230101");
    assert_eq!(read_attribute(&obj, 0x0008, 0x0023), "20230101");
    assert_eq!(read_attribute(&obj, 0x0010, 0x0030), "19800101");
    assert_eq!(read_attribute(&obj, 0x0008, 0x0050), "2A63");
    assert_eq!(read_attribute(&obj, 0x0020, 0x0010), "2A63");
    assert_eq!(read_attribute(&obj, 0x0008, 0x1010), "station1");
    assert!(obj.element(Tag(0x0008, 0x0080)).is_err());
    assert!(obj.element(Tag(0x0040, 0xA730)).is_err());
    assert_eq!(obj.element(Tag(0x0010, 0x0010)).unwrap().vr(), dicom::core::VR::PN);
    assert_eq!(obj.element(Tag(0x0020, 0x0010)).unwrap().vr(), dicom::core::VR::DA);
    assert_eq!(read_attribute(&obj, 0x0018, 0x1000), "123456");
}

#[test]
fn flat_mode_returns_no_names() {
    let mut obj = sample("123456");
    put(&mut obj, 0x0020, 0x0013, dicom::core::VR::IS, "not a number");
    assert!(anonymize_dataset_as(&mut obj, false, "s").unwrap().is_none());
    assert_eq!(read_attribute(&obj, 0x0010, 0x0020), "462D3EFB61406");
}

#[test]
fn rejected_dataset_is_left_unchanged() {
    let mut obj = sample("AB12");
    assert_eq!(anonymize_dataset_as(&mut obj, true, "s").unwrap_err(), AnonError::InvalidSerialNumber);
    assert_eq!(read_attribute(&obj, 0x0008, 0x0080), "General Hospital");
    assert_eq!(read_attribute(&obj, 0x0010, 0x0010), "Doe^John");
}

#[test]
fn unevaluable_series_uid_falls_back() {
    let mut obj = sample("123456");
    put(&mut obj, 0x0020, 0x000E, dicom::core::VR::UI, "");
    let names = anonymize_dataset_as(&mut obj, true, "s").unwrap().unwrap();
    assert_eq!(names.series_dir, "462D53C9BAF07");
}

#[test]
fn anonymization_is_deterministic() {
    let mut a = sample("123456");
    let mut b = sample("123456");
    let na = anonymize_dataset_as(&mut a, true, "s").unwrap().unwrap();
    let nb = anonymize_dataset_as(&mut b, true, "s").unwrap().unwrap();
    assert_eq!(na.patient_dir, nb.patient_dir);
    assert_eq!(na.study_dir, nb.study_dir);
    assert_eq!(na.series_dir, nb.series_dir);
    assert_eq!(na.file_name, nb.file_name);
    for (g, e) in [(0x0010u16, 0x0010u16), (0x0008, 0x0020), (0x0008, 0x0050), (0x0008, 0x1010)] {
        assert_eq!(read_attribute(&a, g, e), read_attribute(&b, g, e));
    }
}

#[test]
fn batch_resilience_on_datasets() {
    let mut ok = 0;
    for serial in ["123456", "AB12", "42"] {
        let mut obj = sample(serial);
        if anonymize_dataset(&mut obj, true).is_ok() {
            ok += 1;
        }
    }
    assert_eq!(ok, 2);
}
