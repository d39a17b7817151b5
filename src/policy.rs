//! The fixed tag policy: which attributes are rewritten, with which value
//! kind, and which are stripped.
use vstd::prelude::*;

verus! {

/// One attribute slot of a dataset: (group, element).
#[derive(Clone, Copy, Debug, PartialEq, Eq, Structural)]
pub struct TagCoord {
    pub group: u16,
    pub element: u16,
}

impl TagCoord {
    pub open spec fn key(self) -> (u16, u16) {
        (self.group, self.element)
    }
}

#[verifier::external_type_specification]
pub struct ExVR(dicom::core::VR);

/// What a replacement entry takes its new value from.
#[derive(Clone, Copy, Debug, PartialEq, Eq, Structural)]
pub enum ValueSource {
    StationName,
    StudyDate,
    StudyId,
    PatientId,
    BirthDate,
}

/// The replacement table: tag, value representation and source of the new value, in the
/// order in which they are written.
pub open spec fn replacement_table() -> Seq<((u16, u16), dicom::core::VR, ValueSource)> {
    seq![
        ((0x0008u16, 0x1010u16), dicom::core::VR::SH, ValueSource::StationName),
        ((0x0008u16, 0x0012u16), dicom::core::VR::DA, ValueSource::StudyDate),
        ((0x0008u16, 0x0020u16), dicom::core::VR::DA, ValueSource::StudyDate),
        ((0x0008u16, 0x0021u16), dicom::core::VR::DA, ValueSource::StudyDate),
        ((0x0008u16, 0x0022u16), dicom::core::VR::DA, ValueSource::StudyDate),
        ((0x0008u16, 0x0023u16), dicom::core::VR::DA, ValueSource::StudyDate),
        ((0x0008u16, 0x0050u16), dicom::core::VR::SH, ValueSource::StudyId),
        ((0x0010u16, 0x0010u16), dicom::core::VR::PN, ValueSource::PatientId),
        ((0x0010u16, 0x0020u16), dicom::core::VR::LO, ValueSource::PatientId),
        ((0x0010u16, 0x0030u16), dicom::core::VR::DA, ValueSource::BirthDate),
        ((0x0020u16, 0x0010u16), dicom::core::VR::DA, ValueSource::StudyId),
    ]
}

/// The tags that the replacement table writes.
pub open spec fn replacement_tags() -> Seq<(u16, u16)> {
    replacement_table().map_values(|e: ((u16, u16), dicom::core::VR, ValueSource)| e.0)
}

/// The tags that are always stripped.
pub open spec fn removal_tags() -> Seq<(u16, u16)> {
    seq![
        (0x0008u16, 0x0080u16), (0x0008u16, 0x0081u16), (0x0008u16, 0x0090u16),
        (0x0008u16, 0x0092u16), (0x0008u16, 0x0094u16), (0x0008u16, 0x1040u16),
        (0x0008u16, 0x1048u16), (0x0008u16, 0x1049u16), (0x0008u16, 0x1050u16),
        (0x0008u16, 0x1060u16), (0x0008u16, 0x1070u16), (0x0008u16, 0x1080u16),
        (0x0010u16, 0x1000u16), (0x0010u16, 0x1001u16), (0x0010u16, 0x1090u16),
        (0x0010u16, 0x2160u16), (0x0010u16, 0x2180u16), (0x0010u16, 0x21B0u16),
        (0x0010u16, 0x4000u16), (0x0032u16, 0x1032u16), (0x0032u16, 0x1033u16),
        (0x0032u16, 0x1060u16), (0x0040u16, 0x0006u16), (0x0040u16, 0x0241u16),
        (0x0040u16, 0x0275u16), (0x0040u16, 0x1001u16), (0x0040u16, 0x2004u16),
        (0x0040u16, 0xA730u16),
    ]
}

/// No tag is both replaced and removed, and no tag is replaced twice.
pub proof fn lemma_policy_tables_disjoint()
    ensures
        forall|i: int, j: int|
            0 <= i < replacement_tags().len() && 0 <= j < removal_tags().len()
                ==> replacement_tags()[i] != removal_tags()[j],
        replacement_tags().no_duplicates(),
        removal_tags().no_duplicates(),
{
    assert(replacement_tags() =~= seq![
        (0x0008u16, 0x1010u16), (0x0008u16, 0x0012u16), (0x0008u16, 0x0020u16),
        (0x0008u16, 0x0021u16), (0x0008u16, 0x0022u16), (0x0008u16, 0x0023u16),
        (0x0008u16, 0x0050u16), (0x0010u16, 0x0010u16), (0x0010u16, 0x0020u16),
        (0x0010u16, 0x0030u16), (0x0020u16, 0x0010u16),
    ]);
}

/// The fixed replacement table.
pub fn replacement_entries() -> (r: Vec<(TagCoord, dicom::core::VR, ValueSource)>)
    ensures
        r@.len() == replacement_table().len(),
        forall|i: int| 0 <= i < r@.len() ==> {
            &&& (#[trigger] r@[i]).0.key() == replacement_table()[i].0
            &&& r@[i].1 == replacement_table()[i].1
            &&& r@[i].2 == replacement_table()[i].2
        },
{
    let r = vec![
        (TagCoord { group: 0x0008, element: 0x1010 }, dicom::core::VR::SH, ValueSource::StationName),
        (TagCoord { group: 0x0008, element: 0x0012 }, dicom::core::VR::DA, ValueSource::StudyDate),
        (TagCoord { group: 0x0008, element: 0x0020 }, dicom::core::VR::DA, ValueSource::StudyDate),
        (TagCoord { group: 0x0008, element: 0x0021 }, dicom::core::VR::DA, ValueSource::StudyDate),
        (TagCoord { group: 0x0008, element: 0x0022 }, dicom::core::VR::DA, ValueSource::StudyDate),
        (TagCoord { group: 0x0008, element: 0x0023 }, dicom::core::VR::DA, ValueSource::StudyDate),
        (TagCoord { group: 0x0008, element: 0x0050 }, dicom::core::VR::SH, ValueSource::StudyId),
        (TagCoord { group: 0x0010, element: 0x0010 }, dicom::core::VR::PN, ValueSource::PatientId),
        (TagCoord { group: 0x0010, element: 0x0020 }, dicom::core::VR::LO, ValueSource::PatientId),
        (TagCoord { group: 0x0010, element: 0x0030 }, dicom::core::VR::DA, ValueSource::BirthDate),
        (TagCoord { group: 0x0020, element: 0x0010 }, dicom::core::VR::DA, ValueSource::StudyId),
    ];
    r
}

/// The fixed removal list.
pub fn removal_list() -> (r: Vec<TagCoord>)
    ensures
        r@.len() == removal_tags().len(),
        forall|i: int| 0 <= i < r@.len() ==> (#[trigger] r@[i]).key() == removal_tags()[i],
{
    let r = vec![
        TagCoord { group: 0x0008, element: 0x0080 }, TagCoord { group: 0x0008, element: 0x0081 },
        TagCoord { group: 0x0008, element: 0x0090 }, TagCoord { group: 0x0008, element: 0x0092 },
        TagCoord { group: 0x0008, element: 0x0094 }, TagCoord { group: 0x0008, element: 0x1040 },
        TagCoord { group: 0x0008, element: 0x1048 }, TagCoord { group: 0x0008, element: 0x1049 },
        TagCoord { group: 0x0008, element: 0x1050 }, TagCoord { group: 0x0008, element: 0x1060 },
        TagCoord { group: 0x0008, element: 0x1070 }, TagCoord { group: 0x0008, element: 0x1080 },
        TagCoord { group: 0x0010, element: 0x1000 }, TagCoord { group: 0x0010, element: 0x1001 },
        TagCoord { group: 0x0010, element: 0x1090 }, TagCoord { group: 0x0010, element: 0x2160 },
        TagCoord { group: 0x0010, element: 0x2180 }, TagCoord { group: 0x0010, element: 0x21B0 },
        TagCoord { group: 0x0010, element: 0x4000 }, TagCoord { group: 0x0032, element: 0x1032 },
        TagCoord { group: 0x0032, element: 0x1033 }, TagCoord { group: 0x0032, element: 0x1060 },
        TagCoord { group: 0x0040, element: 0x0006 }, TagCoord { group: 0x0040, element: 0x0241 },
        TagCoord { group: 0x0040, element: 0x0275 }, TagCoord { group: 0x0040, element: 0x1001 },
        TagCoord { group: 0x0040, element: 0x2004 }, TagCoord { group: 0x0040, element: 0xA730 },
    ];
    r
}

} // verus!
