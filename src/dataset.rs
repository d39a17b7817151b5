//! Access to an in-memory dataset: reading attributes as text, and
//! applying the tag policy.
use vstd::prelude::*;
use dicom::object::{InMemDicomObject, StandardDataDictionary};
use crate::identifiers::{IdentifierTexts, DerivedIdentifiers, RawAttributes, RawTexts};
use crate::policy::{
    lemma_policy_tables_disjoint, removal_list, removal_tags, replacement_entries,
    replacement_table, replacement_tags, TagCoord, ValueSource,
};
use crate::text::trim_end_padding;

verus! {

#[verifier::external_type_specification]
#[verifier::external_body]
pub struct ExStandardDataDictionary(StandardDataDictionary);

#[verifier::external_type_specification]
#[verifier::external_body]
#[verifier::reject_recursive_types(D)]
pub struct ExInMemDicomObject<D>(InMemDicomObject<D>);

/// The elements of a dataset: for each tag present, its value
/// representation, and its value as text where it has a textual
/// form (a primitive value, with trailing padding trimmed).
pub uninterp spec fn dataset_entries(obj: InMemDicomObject<StandardDataDictionary>) -> Map<
    (u16, u16),
    (dicom::core::VR, Option<Seq<char>>),
>;

/// An element's text, or empty where it is absent or has no textual form.
pub open spec fn attribute_text(m: Map<(u16, u16), (dicom::core::VR, Option<Seq<char>>)>, t: (u16, u16)) -> Seq<char> {
    if m.contains_key(t) && m[t].1 is Some {
        m[t].1->Some_0
    } else {
        Seq::<char>::empty()
    }
}

/// Relies on `InMemDicomObject::element`, which looks a tag up, and on
/// `DataElement::to_str`, which gives a primitive value as text and fails on
/// any other value.
#[verifier::external_body]
fn read_text(obj: &InMemDicomObject<StandardDataDictionary>, tag: TagCoord) -> (r: Option<String>)
    ensures
        match r {
            Some(s) => dataset_entries(*obj).contains_key(tag.key())
                && dataset_entries(*obj)[tag.key()].1 == Some(s@),
            None => !dataset_entries(*obj).contains_key(tag.key())
                || dataset_entries(*obj)[tag.key()].1 is None,
        },
{
    match obj.element(dicom::core::Tag(tag.group, tag.element)) {
        Ok(e) => match e.to_str() {
            Ok(t) => Some(t.into_owned()),
            Err(_) => None,
        },
        Err(_) => None,
    }
}

/// Relies on `InMemDicomObject::put_element`, which inserts the element under
/// its tag and replaces any element there; a string value reads back as text
/// without its trailing spaces and NULs.
#[verifier::external_body]
fn put_text(
    obj: &mut InMemDicomObject<StandardDataDictionary>,
    tag: TagCoord,
    vr: dicom::core::VR,
    value: &str,
)
    ensures
        dataset_entries(*final(obj)) == dataset_entries(*old(obj)).insert(
            tag.key(),
            (vr, Some(trim_end_padding(value@))),
        ),
{
    let v = dicom::core::PrimitiveValue::from(value.to_string());
    obj.put_element(dicom::core::DataElement::new(dicom::core::Tag(tag.group, tag.element), vr, v));
}

/// Relies on `InMemDicomObject::remove_element`, which removes the element of
/// a tag if there is one.
#[verifier::external_body]
fn remove_tag(obj: &mut InMemDicomObject<StandardDataDictionary>, tag: TagCoord)
    ensures
        dataset_entries(*final(obj)) == dataset_entries(*old(obj)).remove(tag.key()),
{
    obj.remove_element(dicom::core::Tag(tag.group, tag.element));
}

/// Reads an attribute as text; an absent attribute reads as empty.
pub fn read_attribute(obj: &InMemDicomObject<StandardDataDictionary>, group: u16, element: u16) -> (r: String)
    ensures
        r@ == attribute_text(dataset_entries(*obj), (group, element)),
{
    match read_text(obj, TagCoord { group, element }) {
        Some(s) => s,
        None => String::new(),
    }
}

/// The raw attributes that a dataset holds.
pub open spec fn raw_texts_of(m: Map<(u16, u16), (dicom::core::VR, Option<Seq<char>>)>) -> RawTexts {
    RawTexts {
        serial_number: attribute_text(m, (0x0018, 0x1000)),
        study_date: attribute_text(m, (0x0008, 0x0020)),
        study_time: attribute_text(m, (0x0008, 0x0030)),
        study_uid: attribute_text(m, (0x0020, 0x000D)),
        birth_date: attribute_text(m, (0x0010, 0x0030)),
        series_uid: attribute_text(m, (0x0020, 0x000E)),
        modality: attribute_text(m, (0x0008, 0x0060)),
        instance_number: attribute_text(m, (0x0020, 0x0013)),
        image_type: attribute_text(m, (0x0008, 0x0008)),
    }
}

/// Reads the raw attributes of a dataset, once each.
pub fn extract_raw(obj: &InMemDicomObject<StandardDataDictionary>) -> (r: RawAttributes)
    ensures
        r@ == raw_texts_of(dataset_entries(*obj)),
{
    RawAttributes {
        serial_number: read_attribute(obj, 0x0018, 0x1000),
        study_date: read_attribute(obj, 0x0008, 0x0020),
        study_time: read_attribute(obj, 0x0008, 0x0030),
        study_uid: read_attribute(obj, 0x0020, 0x000D),
        birth_date: read_attribute(obj, 0x0010, 0x0030),
        series_uid: read_attribute(obj, 0x0020, 0x000E),
        modality: read_attribute(obj, 0x0008, 0x0060),
        instance_number: read_attribute(obj, 0x0020, 0x0013),
        image_type: read_attribute(obj, 0x0008, 0x0008),
    }
}

/// The text an identifier source stands for.
pub open spec fn source_text(ids: IdentifierTexts, src: ValueSource) -> Seq<char> {
    match src {
        ValueSource::StationName => ids.station_name,
        ValueSource::StudyDate => ids.study_date,
        ValueSource::StudyId => ids.study_id,
        ValueSource::PatientId => ids.patient_id,
        ValueSource::BirthDate => ids.birth_date,
    }
}

fn source_value(ids: &DerivedIdentifiers, src: ValueSource) -> (r: &String)
    ensures
        r@ == source_text(ids@, src),
{
    match src {
        ValueSource::StationName => &ids.station_name,
        ValueSource::StudyDate => &ids.study_date,
        ValueSource::StudyId => &ids.study_id,
        ValueSource::PatientId => &ids.patient_id,
        ValueSource::BirthDate => &ids.birth_date,
    }
}

/// The element that the `i`-th replacement entry writes.
pub open spec fn replaced_entry(ids: IdentifierTexts, i: int) -> (dicom::core::VR, Option<Seq<char>>) {
    (replacement_table()[i].1, Some(trim_end_padding(source_text(ids, replacement_table()[i].2))))
}

/// `after` is `before` with every replacement written and every removal
/// tag stripped; nothing else differs.
pub open spec fn policy_applied(
    before: Map<(u16, u16), (dicom::core::VR, Option<Seq<char>>)>,
    after: Map<(u16, u16), (dicom::core::VR, Option<Seq<char>>)>,
    ids: IdentifierTexts,
) -> bool {
    &&& forall|i: int| 0 <= i < replacement_table().len() ==> after.contains_key(#[trigger] replacement_table()[i].0)
        && after[replacement_table()[i].0] == replaced_entry(ids, i)
    &&& forall|j: int| 0 <= j < removal_tags().len() ==> !after.contains_key(#[trigger] removal_tags()[j])
    &&& forall|t: (u16, u16)| !replacement_tags().contains(t) && !removal_tags().contains(t)
        ==> (#[trigger] after.contains_key(t) == before.contains_key(t)) && (before.contains_key(t) ==> after[t] == before[t])
}

/// Writes every replacement of the policy, then strips every removal tag.
pub fn apply_policy(obj: &mut InMemDicomObject<StandardDataDictionary>, ids: &DerivedIdentifiers)
    ensures
        policy_applied(dataset_entries(*old(obj)), dataset_entries(*final(obj)), ids@),
{
    proof {
        lemma_policy_tables_disjoint();
    }
    let ghost before = dataset_entries(*obj);
    let entries = replacement_entries();
    let n = entries.len();
    let mut i: usize = 0;
    while i < n
        invariant
            n == entries@.len() == replacement_table().len(),
            0 <= i <= n,
            replacement_tags().no_duplicates(),
            replacement_tags().len() == n,
            forall|k: int| 0 <= k < n ==> {
                &&& (#[trigger] entries@[k]).0.key() == replacement_table()[k].0
                &&& entries@[k].1 == replacement_table()[k].1
                &&& entries@[k].2 == replacement_table()[k].2
            },
            forall|k: int| 0 <= k < n ==> #[trigger] replacement_tags()[k] == replacement_table()[k].0,
            forall|k: int| 0 <= k < i ==> dataset_entries(*obj).contains_key(#[trigger] replacement_table()[k].0)
                && dataset_entries(*obj)[replacement_table()[k].0] == replaced_entry(ids@, k),
            forall|t: (u16, u16)| !replacement_tags().take(i as int).contains(t)
                ==> (#[trigger] dataset_entries(*obj).contains_key(t) == before.contains_key(t))
                    && (before.contains_key(t) ==> dataset_entries(*obj)[t] == before[t]),
        decreases n - i,
    {
        let (tag, vr, src) = entries[i];
        let value = source_value(ids, src);
        let ghost prev = dataset_entries(*obj);
        put_text(obj, tag, vr, value.as_str());
        proof {
            assert(replacement_tags().take(i + 1) =~= replacement_tags().take(i as int).push(replacement_tags()[i as int]));
            assert forall|k: int| 0 <= k < i implies replacement_table()[k].0 != replacement_table()[i as int].0 by {
                assert(replacement_tags()[k] != replacement_tags()[i as int]);
            }
            assert forall|t: (u16, u16)| !replacement_tags().take(i + 1).contains(t) implies
                (#[trigger] dataset_entries(*obj).contains_key(t) == before.contains_key(t))
                && (before.contains_key(t) ==> dataset_entries(*obj)[t] == before[t]) by {
                if replacement_tags().take(i as int).contains(t) {
                    let w = choose|w: int| 0 <= w < i && replacement_tags().take(i as int)[w] == t;
                    assert(replacement_tags().take(i + 1)[w] == t);
                }
                assert(replacement_tags().take(i + 1)[i as int] == tag.key());
                assert(prev.contains_key(t) == before.contains_key(t));
            }
        }
        i += 1;
    }
    assert(replacement_tags().take(n as int) =~= replacement_tags());
    let removals = removal_list();
    let m = removals.len();
    let mut j: usize = 0;
    while j < m
        invariant
            n == replacement_table().len(),
            m == removals@.len() == removal_tags().len(),
            0 <= j <= m,
            forall|k: int| 0 <= k < m ==> (#[trigger] removals@[k]).key() == removal_tags()[k],
            forall|a: int, b: int| 0 <= a < replacement_tags().len() && 0 <= b < removal_tags().len()
                ==> replacement_tags()[a] != removal_tags()[b],
            forall|k: int| 0 <= k < n ==> #[trigger] replacement_tags()[k] == replacement_table()[k].0,
            forall|k: int| 0 <= k < n ==> dataset_entries(*obj).contains_key(#[trigger] replacement_table()[k].0)
                && dataset_entries(*obj)[replacement_table()[k].0] == replaced_entry(ids@, k),
            forall|k: int| 0 <= k < j ==> !dataset_entries(*obj).contains_key(#[trigger] removal_tags()[k]),
            forall|t: (u16, u16)| !replacement_tags().contains(t) && !removal_tags().take(j as int).contains(t)
                ==> (#[trigger] dataset_entries(*obj).contains_key(t) == before.contains_key(t))
                    && (before.contains_key(t) ==> dataset_entries(*obj)[t] == before[t]),
        decreases m - j,
    {
        let tag = removals[j];
        let ghost prev = dataset_entries(*obj);
        remove_tag(obj, tag);
        proof {
            assert forall|k: int| 0 <= k < n implies replacement_table()[k].0 != tag.key() by {
                assert(replacement_tags()[k] != removal_tags()[j as int]);
            }
            assert forall|t: (u16, u16)| !replacement_tags().contains(t) && !removal_tags().take(j + 1).contains(t) implies
                (#[trigger] dataset_entries(*obj).contains_key(t) == before.contains_key(t))
                && (before.contains_key(t) ==> dataset_entries(*obj)[t] == before[t]) by {
                if removal_tags().take(j as int).contains(t) {
                    let w = choose|w: int| 0 <= w < j && removal_tags().take(j as int)[w] == t;
                    assert(removal_tags().take(j + 1)[w] == t);
                }
                assert(removal_tags().take(j + 1)[j as int] == tag.key());
                assert(prev.contains_key(t) == before.contains_key(t));
            }
        }
        j += 1;
    }
    assert(removal_tags().take(m as int) =~= removal_tags());
    assert forall|t: (u16, u16)| !replacement_tags().contains(t) && !removal_tags().contains(t) implies
        (#[trigger] dataset_entries(*obj).contains_key(t) == before.contains_key(t))
        && (before.contains_key(t) ==> dataset_entries(*obj)[t] == before[t]) by {
        assert(!removal_tags().take(m as int).contains(t));
    }
    assert(policy_applied(before, dataset_entries(*obj), ids@));
}

} // verus!
