//! Properties that hold across calls: determinism of the derivation and of
//! the whole anonymization, what the pseudonymous identifiers depend on, and
//! the series fallback.
use vstd::prelude::*;
use crate::anonymize::{anonymization_outcome, count_true};
use crate::dataset::{policy_applied, raw_texts_of};
use crate::identifiers::{
    derivation_error, derivation_outcome, expected_identifiers, patient_key, study_value,
    AnonError, DerivedIdentifiers, RawTexts,
};
use crate::naming::{
    hex_of_i128, instance_number_value, series_value, strip_trailing_zeros, OutputNames,
    SERIES_FALLBACK,
};
use crate::policy::{lemma_policy_tables_disjoint, removal_tags, replacement_table, replacement_tags};

verus! {

/// Deriving twice from the same raw attributes and host name gives the same
/// outcome: the same error, or identifiers with the same text.
pub proof fn lemma_derivation_deterministic(
    raw: RawTexts,
    station: Seq<char>,
    r1: Result<DerivedIdentifiers, AnonError>,
    r2: Result<DerivedIdentifiers, AnonError>,
)
    requires
        derivation_outcome(r1, raw, station, study_value(raw)),
        derivation_outcome(r2, raw, station, study_value(raw)),
    ensures
        r1 is Ok <==> r2 is Ok,
        r1 is Ok ==> r1->Ok_0@ == r2->Ok_0@,
        r1 is Err ==> r1 == r2,
{
}

/// The pseudonymous patient and study identifiers depend only on the serial
/// number, study date, study time and study instance UID.
pub proof fn lemma_identifiers_depend_on_study_key(
    raw1: RawTexts,
    raw2: RawTexts,
    station1: Seq<char>,
    station2: Seq<char>,
)
    requires
        raw1.serial_number == raw2.serial_number,
        raw1.study_date == raw2.study_date,
        raw1.study_time == raw2.study_time,
        raw1.study_uid == raw2.study_uid,
    ensures
        patient_key(raw1) == patient_key(raw2),
        study_value(raw1) == study_value(raw2),
        ({
            let v = study_value(raw1)->Some_0;
            &&& expected_identifiers(raw1, station1, v).patient_id
                == expected_identifiers(raw2, station2, v).patient_id
            &&& expected_identifiers(raw1, station1, v).study_id
                == expected_identifiers(raw2, station2, v).study_id
        }),
{
}

/// Anonymizing the same dataset twice, with the same mode and host name,
/// leaves the same elements and gives the same outcome.
pub proof fn lemma_anonymization_deterministic(
    before: Map<(u16, u16), (dicom::core::VR, Option<Seq<char>>)>,
    naming: bool,
    station: Seq<char>,
    after1: Map<(u16, u16), (dicom::core::VR, Option<Seq<char>>)>,
    r1: Result<Option<OutputNames>, AnonError>,
    after2: Map<(u16, u16), (dicom::core::VR, Option<Seq<char>>)>,
    r2: Result<Option<OutputNames>, AnonError>,
)
    requires
        anonymization_outcome(before, after1, naming, station, r1),
        anonymization_outcome(before, after2, naming, station, r2),
    ensures
        after1 == after2,
        r1 is Ok <==> r2 is Ok,
        r1 is Err ==> r1 == r2,
        r1 is Ok ==> (r1->Ok_0 is Some <==> r2->Ok_0 is Some),
        r1 is Ok && r1->Ok_0 is Some ==> r1->Ok_0->Some_0@ == r2->Ok_0->Some_0@,
{
    let raw = raw_texts_of(before);
    let sv = study_value(raw);
    if r1 is Ok {
        lemma_policy_tables_disjoint();
        let ids = expected_identifiers(raw, station, sv->Some_0);
        assert(policy_applied(before, after1, ids));
        assert(policy_applied(before, after2, ids));
        assert forall|t: (u16, u16)| #[trigger] after1.contains_key(t) == after2.contains_key(t)
            && (after1.contains_key(t) ==> after1[t] == after2[t]) by {
            if replacement_tags().contains(t) {
                let i = choose|i: int| 0 <= i < replacement_tags().len() && replacement_tags()[i] == t;
                assert(replacement_table()[i].0 == t);
            } else if removal_tags().contains(t) {
                let j = choose|j: int| 0 <= j < removal_tags().len() && removal_tags()[j] == t;
                assert(!after1.contains_key(removal_tags()[j]));
            }
        }
        assert(after1 =~= after2);
    }
}

/// In naming mode, a series UID that does not evaluate does not fail the
/// dataset: the series directory is named after the fixed fallback value.
pub proof fn lemma_series_fallback(
    before: Map<(u16, u16), (dicom::core::VR, Option<Seq<char>>)>,
    station: Seq<char>,
    after: Map<(u16, u16), (dicom::core::VR, Option<Seq<char>>)>,
    r: Result<Option<OutputNames>, AnonError>,
)
    requires
        anonymization_outcome(before, after, true, station, r),
        derivation_error(
            raw_texts_of(before),
            study_value(raw_texts_of(before)),
        ) is None,
        instance_number_value(raw_texts_of(before).instance_number) is Some,
        series_value(raw_texts_of(before)) is None,
    ensures
        r is Ok,
        r->Ok_0 is Some,
        r->Ok_0->Some_0.series_dir@ == hex_of_i128(strip_trailing_zeros(SERIES_FALLBACK as int) as i128),
{
}

proof fn lemma_count_true_is_multiplicity(s: Seq<bool>)
    ensures
        count_true(s) == s.to_multiset().count(true),
    decreases s.len(),
{
    broadcast use vstd::seq_lib::to_multiset_build, vstd::multiset::group_multiset_axioms;

    if s.len() == 0 {
        s.to_multiset_ensures();
        assert(!s.contains(true));
    } else {
        lemma_count_true_is_multiplicity(s.drop_last());
        assert(s.drop_last().push(s.last()) =~= s);
    }
}

/// The number of successes of a batch does not depend on the order in which
/// the outcomes come: any reordering gives the same count.
pub proof fn lemma_success_count_order_independent(a: Seq<bool>, b: Seq<bool>)
    requires
        a.to_multiset() == b.to_multiset(),
    ensures
        count_true(a) == count_true(b),
{
    lemma_count_true_is_multiplicity(a);
    lemma_count_true_is_multiplicity(b);
}

} // verus!
