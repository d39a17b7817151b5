use dicom_anonymizer::anonymize::count_successes;
use dicom_anonymizer::policy::{removal_list, replacement_entries, ValueSource};

#[test]
fn policy_tables_are_disjoint() {
    let replaced = replacement_entries();
    let removed = removal_list();
    assert_eq!(replaced.len(), 11);
    assert_eq!(removed.len(), 28);
    for (tag, _, _) in replaced.iter() {
        assert!(!removed.contains(tag));
    }
}

#[test]
fn replacement_table_kinds() {
    let replaced = replacement_entries();
    assert_eq!(replaced[0].0.group, 0x0008);
    assert_eq!(replaced[0].0.element, 0x1010);
    assert_eq!(replaced[0].1, dicom::core::VR::SH);
    assert_eq!(replaced[0].2, ValueSource::StationName);
    assert_eq!(replaced[7].1, dicom::core::VR::PN);
    assert_eq!(replaced[8].1, dicom::core::VR::LO);
}

#[test]
fn batch_tally() {
    assert_eq!(count_successes(&vec![true, false, true]), 2);
    assert_eq!(count_successes(&vec![]), 0);
    assert_eq!(count_successes(&vec![false, false]), 0);
}
