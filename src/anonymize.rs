//! Anonymization of one dataset, end to end, and the tally of a batch.
use vstd::prelude::*;
use dicom::object::{InMemDicomObject, StandardDataDictionary};
use crate::dataset::{apply_policy, dataset_entries, extract_raw, policy_applied, raw_texts_of};
use crate::identifiers::{
    derivation_error, derive_identifiers, expected_identifiers, study_value, AnonError,
};
use crate::naming::{
    instance_number_value, output_names, output_outcome, series_value, OutputNames,
};

verus! {

/// Relies on `gethostname::gethostname`: the name of the host, as the system
/// reports it; a name that is not valid Unicode is converted lossily.
#[verifier::external_body]
fn local_host_name() -> (r: String) {
    gethostname::gethostname().to_string_lossy().into_owned()
}

/// What anonymizing a dataset whose elements were `before` does, with host
/// name `station`: on failure nothing changes; on success the policy is
/// applied with the derived identifiers, and in naming mode the output
/// location is returned.
pub open spec fn anonymization_outcome(
    before: Map<(u16, u16), (dicom::core::VR, Option<Seq<char>>)>,
    after: Map<(u16, u16), (dicom::core::VR, Option<Seq<char>>)>,
    naming: bool,
    station: Seq<char>,
    r: Result<Option<OutputNames>, AnonError>,
) -> bool {
    let raw = raw_texts_of(before);
    let sv = study_value(raw);
    let rv = series_value(raw);
    match r {
        Err(e) => after == before && (derivation_error(raw, sv) == Some(e) || (
        derivation_error(raw, sv) is None && naming && e
            == AnonError::MalformedInstanceNumber && instance_number_value(raw.instance_number)
            is None)),
        Ok(names) => {
            let ids = expected_identifiers(raw, station, sv->Some_0);
            &&& derivation_error(raw, sv) is None
            &&& policy_applied(before, after, ids)
            &&& naming == names is Some
            &&& naming ==> output_outcome(Ok(names->Some_0), ids, raw, rv)
        },
    }
}

/// Anonymizes a dataset in place with the given station name: reads its raw
/// attributes, derives the identifiers, builds the output location in naming
/// mode, and only then rewrites and strips the policy's tags.
pub fn anonymize_dataset_as(
    obj: &mut InMemDicomObject<StandardDataDictionary>,
    naming: bool,
    station: &str,
) -> (r: Result<Option<OutputNames>, AnonError>)
    ensures
        anonymization_outcome(dataset_entries(*old(obj)), dataset_entries(*final(obj)), naming, station@, r),
{
    let raw = extract_raw(obj);
    let ids = match derive_identifiers(&raw, station) {
        Ok(ids) => ids,
        Err(e) => {
            return Err(e);
        },
    };
    let names = if naming {
        match output_names(&ids, &raw) {
            Ok(n) => Some(n),
            Err(e) => {
                return Err(e);
            },
        }
    } else {
        None
    };
    apply_policy(obj, &ids);
    Ok(names)
}

/// Anonymizes a dataset in place, with this host's name as station name.
pub fn anonymize_dataset(obj: &mut InMemDicomObject<StandardDataDictionary>, naming: bool) -> (r:
    Result<Option<OutputNames>, AnonError>)
    ensures
        exists|station: Seq<char>|
            #[trigger] anonymization_outcome(
                dataset_entries(*old(obj)),
                dataset_entries(*final(obj)),
                naming,
                station,
                r,
            ),
{
    let station = local_host_name();
    let r = anonymize_dataset_as(obj, naming, station.as_str());
    assert(anonymization_outcome(dataset_entries(*old(obj)), dataset_entries(*obj), naming, station@, r));
    r
}

/// The number of `true` in `s`.
pub open spec fn count_true(s: Seq<bool>) -> nat
    decreases s.len(),
{
    if s.len() == 0 {
        0
    } else {
        count_true(s.drop_last()) + if s.last() {
            1nat
        } else {
            0nat
        }
    }
}

/// The number of datasets of a batch that were anonymized.
pub fn count_successes(outcomes: &Vec<bool>) -> (r: usize)
    ensures
        r == count_true(outcomes@),
{
    let mut count: usize = 0;
    let mut i: usize = 0;
    while i < outcomes.len()
        invariant
            0 <= i <= outcomes@.len(),
            count == count_true(outcomes@.take(i as int)),
            count <= i,
        decreases outcomes@.len() - i,
    {
        assert(outcomes@.take(i + 1).drop_last() =~= outcomes@.take(i as int));
        if outcomes[i] {
            count += 1;
        }
        i += 1;
    }
    assert(outcomes@.take(i as int) =~= outcomes@);
    count
}

} // verus!
