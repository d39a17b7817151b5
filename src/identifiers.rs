//! Derivation of the pseudonymous identifiers and coarsened dates from the
//! raw identifying attributes of one dataset.
use vstd::prelude::*;
use vstd::string::*;
use crate::text::{
    dotted_number, is_digit_sum, is_dotted_number, lemma_dots_to_plus_digit_sum,
    all_digits, decimal_value, dots_to_plus, hex_upper, parse_decimal_i64,
    replace_dots_with_plus, to_hex_upper,
};

verus! {

/// The attributes read once from a dataset; an absent attribute is empty.
#[derive(Clone, Debug)]
pub struct RawAttributes {
    pub serial_number: String,
    pub study_date: String,
    pub study_time: String,
    pub study_uid: String,
    pub birth_date: String,
    pub series_uid: String,
    pub modality: String,
    pub instance_number: String,
    pub image_type: String,
}

/// The text of each raw attribute.
pub struct RawTexts {
    pub serial_number: Seq<char>,
    pub study_date: Seq<char>,
    pub study_time: Seq<char>,
    pub study_uid: Seq<char>,
    pub birth_date: Seq<char>,
    pub series_uid: Seq<char>,
    pub modality: Seq<char>,
    pub instance_number: Seq<char>,
    pub image_type: Seq<char>,
}

impl View for RawAttributes {
    type V = RawTexts;

    open spec fn view(&self) -> RawTexts {
        RawTexts {
            serial_number: self.serial_number@,
            study_date: self.study_date@,
            study_time: self.study_time@,
            study_uid: self.study_uid@,
            birth_date: self.birth_date@,
            series_uid: self.series_uid@,
            modality: self.modality@,
            instance_number: self.instance_number@,
            image_type: self.image_type@,
        }
    }
}

/// The text of each derived identifier.
pub struct IdentifierTexts {
    pub patient_id: Seq<char>,
    pub study_id: Seq<char>,
    pub study_date: Seq<char>,
    pub birth_date: Seq<char>,
    pub station_name: Seq<char>,
}

/// The replacement values computed for one dataset.
#[derive(Clone, Debug)]
pub struct DerivedIdentifiers {
    pub patient_id: String,
    pub study_id: String,
    pub study_date: String,
    pub birth_date: String,
    pub station_name: String,
}

impl View for DerivedIdentifiers {
    type V = IdentifierTexts;

    open spec fn view(&self) -> IdentifierTexts {
        IdentifierTexts {
            patient_id: self.patient_id@,
            study_id: self.study_id@,
            study_date: self.study_date@,
            birth_date: self.birth_date@,
            station_name: self.station_name@,
        }
    }
}

/// Why a dataset is not anonymized.
#[derive(Clone, Copy, Debug, PartialEq, Eq, Structural)]
pub enum AnonError {
    /// The device serial number is empty or holds a non-digit character.
    InvalidSerialNumber,
    /// Serial number, study date and study time do not form a patient key.
    MalformedPatientKey,
    /// The birth date is shorter than a year.
    MalformedBirthDate,
    /// The study instance UID does not evaluate to an integer.
    UnevaluableStudyUid,
    /// The instance number is not an unsigned 32-bit integer.
    MalformedInstanceNumber,
}

/// The longest UID that is handed to the expression evaluator: a DICOM UID
/// holds at most 64 characters. The evaluator recurses once per operator, so
/// a bound on the text keeps it clear of the stack's end. Only digits and
/// '+' are handed to it: no builtin function can then be called, and its
/// integer arithmetic is checked, so it cannot panic.
pub const MAX_UID_LEN: usize = 64;

/// The integer that evalexpr evaluates the expression `e` to, if any.
pub uninterp spec fn int_expression_value(e: Seq<char>) -> Option<i64>;

/// Relies on `evalexpr::eval_int`: evaluates an expression into an integer
/// with an empty context, failing on any other kind of value. Without the
/// crate's `rand` feature no builtin draws a random value, so the outcome
/// depends on the text alone.
#[verifier::external_body]
fn evaluate_int(expr: &str) -> (r: Option<i64>)
    requires
        expr@.len() <= MAX_UID_LEN,
        is_digit_sum(expr@),
    ensures
        r == int_expression_value(expr@),
{
    evalexpr::eval_int(expr).ok()
}

/// `year` followed by January the first: the date keeps its year only.
pub open spec fn coarsened_date(d: Seq<char>) -> Seq<char> {
    d.subrange(0, 4) + seq!['0', '1', '0', '1']
}

/// Serial number, then study date from its third to eighth character, then
/// the first four characters of the study time.
pub open spec fn patient_key(raw: RawTexts) -> Seq<char> {
    raw.serial_number + raw.study_date.subrange(2, 8) + raw.study_time.subrange(0, 4)
}

pub open spec fn valid_serial_number(s: Seq<char>) -> bool {
    s.len() > 0 && all_digits(s)
}

pub open spec fn patient_key_ok(raw: RawTexts) -> bool {
    &&& raw.study_date.len() >= 8
    &&& raw.study_time.len() >= 4
    &&& all_digits(patient_key(raw))
    &&& decimal_value(patient_key(raw)) <= i64::MAX
}

/// The hexadecimal text `{:X}` gives a 64-bit signed number: two's complement.
pub open spec fn hex_of_i64(v: i64) -> Seq<char> {
    if v >= 0 {
        hex_upper(v as nat)
    } else {
        hex_upper((v + 0x1_0000_0000_0000_0000int) as nat)
    }
}

/// The study instance UID as a sum of its components.
pub open spec fn study_expression(raw: RawTexts) -> Seq<char> {
    dots_to_plus(raw.study_uid)
}

/// What the study UID evaluates to; a UID longer than a DICOM UID may be,
/// or holding anything but digits and dots, does not evaluate.
pub open spec fn study_value(raw: RawTexts) -> Option<i64> {
    if raw.study_uid.len() <= MAX_UID_LEN && is_dotted_number(raw.study_uid) {
        int_expression_value(study_expression(raw))
    } else {
        None
    }
}

/// The first check that fails, given what the study UID evaluated to.
pub open spec fn derivation_error(raw: RawTexts, study_value: Option<i64>) -> Option<AnonError> {
    if !valid_serial_number(raw.serial_number) {
        Some(AnonError::InvalidSerialNumber)
    } else if !patient_key_ok(raw) {
        Some(AnonError::MalformedPatientKey)
    } else if raw.birth_date.len() < 4 {
        Some(AnonError::MalformedBirthDate)
    } else if study_value is None {
        Some(AnonError::UnevaluableStudyUid)
    } else {
        None
    }
}

/// The identifiers derived from `raw`, the host name `station` and the
/// study UID's value `study_value`.
pub open spec fn expected_identifiers(raw: RawTexts, station: Seq<char>, study_value: i64) -> IdentifierTexts {
    IdentifierTexts {
        patient_id: hex_upper(decimal_value(patient_key(raw))),
        study_id: hex_of_i64(study_value),
        study_date: coarsened_date(raw.study_date),
        birth_date: coarsened_date(raw.birth_date),
        station_name: station,
    }
}

/// What deriving from `raw` gives when the study UID evaluated to `study_value`.
pub open spec fn derivation_outcome(
    r: Result<DerivedIdentifiers, AnonError>,
    raw: RawTexts,
    station: Seq<char>,
    study_value: Option<i64>,
) -> bool {
    match r {
        Err(e) => derivation_error(raw, study_value) == Some(e),
        Ok(ids) => derivation_error(raw, study_value) is None
            && ids@ == expected_identifiers(raw, station, study_value->Some_0),
    }
}

fn is_digit_string(s: &str) -> (r: bool)
    ensures
        r == valid_serial_number(s@),
{
    let n = s.unicode_len();
    if n == 0 {
        return false;
    }
    let mut i: usize = 0;
    while i < n
        invariant
            n == s@.len(),
            0 <= i <= n,
            forall|k: int| 0 <= k < i ==> crate::text::is_digit(#[trigger] s@[k]),
        decreases n - i,
    {
        let c = s.get_char(i);
        if !('0' <= c && c <= '9') {
            return false;
        }
        i += 1;
    }
    true
}

/// Hexadecimal text of a 64-bit signed number, as `{:X}` writes it.
pub fn i64_to_hex(v: i64) -> (r: String)
    ensures
        r@ == hex_of_i64(v),
{
    if v >= 0 {
        to_hex_upper(v as u128)
    } else {
        to_hex_upper((v as i128 + 0x1_0000_0000_0000_0000i128) as u128)
    }
}

/// The first four characters of `d` followed by "0101".
pub fn coarsen_date(d: &str) -> (r: String)
    requires
        d@.len() >= 4,
    ensures
        r@ == coarsened_date(d@),
{
    let mut out = String::from_str(d.substring_char(0, 4));
    proof {
        reveal_strlit("0101");
    }
    out.append("0101");
    out
}

/// Derives the identifiers, given the integer that the study UID, read as a
/// sum of its components, evaluated to.
pub fn derive_with_study_value(
    raw: &RawAttributes,
    station: &str,
    study_value: Option<i64>,
) -> (r: Result<DerivedIdentifiers, AnonError>)
    ensures
        derivation_outcome(r, raw@, station@, study_value),
{
    if !is_digit_string(raw.serial_number.as_str()) {
        return Err(AnonError::InvalidSerialNumber);
    }
    let date = raw.study_date.as_str();
    let time = raw.study_time.as_str();
    if date.unicode_len() < 8 || time.unicode_len() < 4 {
        return Err(AnonError::MalformedPatientKey);
    }
    let mut key = raw.serial_number.clone();
    key.append(date.substring_char(2, 8));
    key.append(time.substring_char(0, 4));
    let key_value = match parse_decimal_i64(key.as_str()) {
        Some(v) => v,
        None => {
            return Err(AnonError::MalformedPatientKey);
        },
    };
    if raw.birth_date.as_str().unicode_len() < 4 {
        return Err(AnonError::MalformedBirthDate);
    }
    let study_value = match study_value {
        Some(v) => v,
        None => {
            return Err(AnonError::UnevaluableStudyUid);
        },
    };
    let ids = DerivedIdentifiers {
        patient_id: to_hex_upper(key_value as u128),
        study_id: i64_to_hex(study_value),
        study_date: coarsen_date(date),
        birth_date: coarsen_date(raw.birth_date.as_str()),
        station_name: String::from_str(station),
    };
    Ok(ids)
}

/// Derives the identifiers of a dataset from its raw attributes and the host
/// name. The study UID is evaluated as the sum of its dot-separated components;
/// one longer than `MAX_UID_LEN`, or holding anything but digits and dots,
/// does not evaluate.
pub fn derive_identifiers(raw: &RawAttributes, station: &str) -> (r: Result<
    DerivedIdentifiers,
    AnonError,
>)
    ensures
        derivation_outcome(r, raw@, station@, study_value(raw@)),
{
    let uid = raw.study_uid.as_str();
    if uid.unicode_len() > MAX_UID_LEN || !dotted_number(uid) {
        return derive_with_study_value(raw, station, None);
    }
    let expr = replace_dots_with_plus(uid);
    proof {
        lemma_dots_to_plus_digit_sum(uid@);
    }
    let value = evaluate_int(expr.as_str());
    derive_with_study_value(raw, station, value)
}

} // verus!
