//! The canonical output location: a directory per pseudonymous patient,
//! study and series, and a file name from modality, image type and
//! instance number.
use vstd::prelude::*;
use vstd::string::*;
use crate::identifiers::{AnonError, MAX_UID_LEN, DerivedIdentifiers, IdentifierTexts, RawAttributes, RawTexts};
use crate::text::{
    dotted_number, is_digit_sum, is_dotted_number, lemma_dots_to_plus_digit_sum,
    all_digits, decimal_text, decimal_value, dots_to_plus, hex_upper, parse_decimal_i64,
    replace_dots_with_plus, split_on, split_text, to_hex_upper, to_padded_decimal, zero_padded,
};

verus! {

/// The series value used when the series UID does not evaluate.
pub const SERIES_FALLBACK: i128 = 1234567891234567;

/// The number that evalexpr evaluates the expression `e` to, if any,
/// truncated toward zero to an `i128` (saturating at its bounds).
pub uninterp spec fn truncated_number_value(e: Seq<char>) -> Option<i128>;

/// Relies on `evalexpr::eval_number`: evaluates an expression into a number
/// with an empty context. Without the crate's `rand` feature no builtin draws
/// a random value, so the outcome depends on the text alone. The float is
/// truncated by `as`, which saturates and maps NaN to zero.
#[verifier::external_body]
fn evaluate_number(expr: &str) -> (r: Option<i128>)
    requires
        expr@.len() <= MAX_UID_LEN,
        is_digit_sum(expr@),
    ensures
        r == truncated_number_value(expr@),
{
    match evalexpr::eval_number(expr) {
        Ok(v) => Some(v as i128),
        Err(_) => None,
    }
}

/// `a / b` rounded up.
pub open spec fn ceil_div(a: int, b: int) -> int {
    if a % b == 0 {
        a / b
    } else {
        a / b + 1
    }
}

/// Relies on `num::integer::div_ceil`: integer division rounded toward
/// positive infinity.
#[verifier::external_body]
fn div_ceil_i128(a: i128, b: i128) -> (r: i128)
    requires
        b > 0,
    ensures
        r == ceil_div(a as int, b as int),
{
    num::integer::div_ceil(a, b)
}

/// `n` with its trailing decimal zeros removed; zero stays zero.
pub open spec fn strip_trailing_zeros(n: int) -> int
    decreases (if n >= 0 { n } else { -n }) via strip_trailing_zeros_decreases
{
    if n != 0 && n % 10 == 0 {
        strip_trailing_zeros(n / 10)
    } else {
        n
    }
}

#[via_fn]
proof fn strip_trailing_zeros_decreases(n: int) {
    if n != 0 && n % 10 == 0 {
        assert(n == 10 * (n / 10)) by (nonlinear_arith)
            requires
                n % 10 == 0,
        {
            vstd::arithmetic::div_mod::lemma_fundamental_div_mod(n, 10);
        }
    }
}

/// The hexadecimal text `{:X}` gives a 128-bit signed number: two's complement.
pub open spec fn hex_of_i128(v: i128) -> Seq<char> {
    if v >= 0 {
        hex_upper(v as nat)
    } else {
        hex_upper((v + 0x1_0000_0000_0000_0000_0000_0000_0000_0000int) as nat)
    }
}

/// The pseudonymous series identifier for what the series UID evaluated to.
pub open spec fn series_id_text(value: Option<i128>) -> Seq<char> {
    let v = match value {
        Some(v) => v,
        None => SERIES_FALLBACK,
    };
    hex_of_i128(strip_trailing_zeros(v as int) as i128)
}

/// The series UID as a sum of its components.
pub open spec fn series_expression(raw: RawTexts) -> Seq<char> {
    dots_to_plus(raw.series_uid)
}

/// What the series UID evaluates to; a UID longer than a DICOM UID may be,
/// or holding anything but digits and dots, does not evaluate.
pub open spec fn series_value(raw: RawTexts) -> Option<i128> {
    if raw.series_uid.len() <= MAX_UID_LEN && is_dotted_number(raw.series_uid) {
        truncated_number_value(series_expression(raw))
    } else {
        None
    }
}

/// Strips trailing decimal zeros: while dividing by ten exactly gives the same
/// as dividing by ten rounded up, divide by ten.
pub fn strip_zeros(n: i128) -> (r: i128)
    ensures
        r as int == strip_trailing_zeros(n as int),
{
    let mut v = n;
    loop
        invariant
            strip_trailing_zeros(v as int) == strip_trailing_zeros(n as int),
        ensures
            strip_trailing_zeros(n as int) == v as int,
        decreases (if v >= 0 { v as int } else { -(v as int) }),
    {
        if v == 0 {
            assert(strip_trailing_zeros(v as int) == v as int);
            break;
        }
        let up = div_ceil_i128(v, 10);
        let exact = match up.checked_mul(10) {
            Some(m) => m == v,
            None => false,
        };
        proof {
            vstd::arithmetic::div_mod::lemma_fundamental_div_mod(v as int, 10);
            assert(exact <==> (v as int) % 10 == 0);
        }
        if !exact {
            assert(strip_trailing_zeros(v as int) == v as int);
            break;
        }
        proof {
            assert(v as int == 10 * ((v as int) / 10));
            assert(strip_trailing_zeros(v as int) == strip_trailing_zeros((v as int) / 10));
        }
        v = v / 10;
    }
    v
}

/// Hexadecimal text of a 128-bit signed number, as `{:X}` writes it.
pub fn i128_to_hex(v: i128) -> (r: String)
    ensures
        r@ == hex_of_i128(v),
{
    if v >= 0 {
        to_hex_upper(v as u128)
    } else {
        to_hex_upper(((v + i128::MAX) + 1) as u128 + 0x8000_0000_0000_0000_0000_0000_0000_0000u128)
    }
}

/// The series identifier for what the series UID evaluated to, falling back
/// to a fixed value when it did not evaluate.
pub fn series_id_for_value(value: Option<i128>) -> (r: String)
    ensures
        r@ == series_id_text(value),
{
    let v = match value {
        Some(v) => v,
        None => SERIES_FALLBACK,
    };
    let s = strip_zeros(v);
    i128_to_hex(s)
}

/// The third '/'-separated component of the image type field, or "UNK".
pub open spec fn image_type_label(field: Seq<char>) -> Seq<char> {
    if split_on(field, '/').len() > 2 {
        split_on(field, '/')[2]
    } else {
        seq!['U', 'N', 'K']
    }
}

/// The image type label of an image type field.
pub fn image_type_of(field: &str) -> (r: String)
    ensures
        r@ == image_type_label(field@),
{
    let parts = split_text(field, '/');
    assert(parts@.map_values(|p: String| p@).len() == parts@.len());
    if parts.len() > 2 {
        assert(parts@.map_values(|p: String| p@)[2] == parts@[2]@);
        parts[2].clone()
    } else {
        proof {
            reveal_strlit("UNK");
        }
        String::from_str("UNK")
    }
}

/// The digits of an instance number: a single leading '+' is allowed.
pub open spec fn instance_digits(s: Seq<char>) -> Seq<char> {
    if s.len() > 0 && s[0] == '+' {
        s.drop_first()
    } else {
        s
    }
}

/// An instance number is a non-empty run of digits, after an optional '+',
/// that fits in 32 bits.
pub open spec fn instance_number_value(s: Seq<char>) -> Option<u32> {
    let d = instance_digits(s);
    if d.len() > 0 && all_digits(d) && decimal_value(d) <= u32::MAX {
        Some(decimal_value(d) as u32)
    } else {
        None
    }
}

/// Parses an instance number as an unsigned 32-bit integer.
pub fn parse_instance_number(s: &str) -> (r: Option<u32>)
    ensures
        r == instance_number_value(s@),
{
    let n = s.unicode_len();
    let digits = if n > 0 && s.get_char(0) == '+' {
        s.substring_char(1, n)
    } else {
        s
    };
    assert(digits@ =~= instance_digits(s@));
    match parse_decimal_i64(digits) {
        Some(v) => {
            if v <= 0xFFFF_FFFF {
                Some(v as u32)
            } else {
                None
            }
        },
        None => None,
    }
}

/// The directories and file name of a dataset's canonical output location.
#[derive(Clone, Debug)]
pub struct OutputNames {
    pub patient_dir: String,
    pub study_dir: String,
    pub series_dir: String,
    pub file_name: String,
}

impl View for OutputNames {
    type V = (Seq<char>, Seq<char>, Seq<char>, Seq<char>);

    open spec fn view(&self) -> (Seq<char>, Seq<char>, Seq<char>, Seq<char>) {
        (self.patient_dir@, self.study_dir@, self.series_dir@, self.file_name@)
    }
}

/// `<modality>_<image type>_<instance number, five digits at least>.dcm`
pub open spec fn file_name_text(modality: Seq<char>, image_type: Seq<char>, instance: u32) -> Seq<
    char,
> {
    modality + seq!['_'] + image_type + seq!['_'] + zero_padded(decimal_text(instance as nat), 5)
        + seq!['.', 'd', 'c', 'm']
}

/// What the canonical output location is, given what the series UID evaluated to.
pub open spec fn output_outcome(
    r: Result<OutputNames, AnonError>,
    ids: IdentifierTexts,
    raw: RawTexts,
    series_value: Option<i128>,
) -> bool {
    match r {
        Err(e) => e == AnonError::MalformedInstanceNumber
            && instance_number_value(raw.instance_number) is None,
        Ok(names) => {
            &&& instance_number_value(raw.instance_number) is Some
            &&& names.patient_dir@ == ids.patient_id
            &&& names.study_dir@ == ids.study_id
            &&& names.series_dir@ == series_id_text(series_value)
            &&& names.file_name@ == file_name_text(
                raw.modality,
                image_type_label(raw.image_type),
                instance_number_value(raw.instance_number)->Some_0,
            )
        },
    }
}

/// Builds the output location, given what the series UID evaluated to.
pub fn output_names_with_series_value(
    ids: &DerivedIdentifiers,
    raw: &RawAttributes,
    series_value: Option<i128>,
) -> (r: Result<OutputNames, AnonError>)
    ensures
        output_outcome(r, ids@, raw@, series_value),
{
    let instance = match parse_instance_number(raw.instance_number.as_str()) {
        Some(v) => v,
        None => {
            return Err(AnonError::MalformedInstanceNumber);
        },
    };
    let mut file_name = raw.modality.clone();
    proof {
        reveal_strlit("_");
        reveal_strlit(".dcm");
    }
    file_name.append("_");
    let image_type = image_type_of(raw.image_type.as_str());
    file_name.append(image_type.as_str());
    file_name.append("_");
    let number = to_padded_decimal(instance, 5);
    file_name.append(number.as_str());
    file_name.append(".dcm");
    assert(file_name@ =~= file_name_text(
        raw.modality@,
        image_type_label(raw.image_type@),
        instance,
    ));
    Ok(
        OutputNames {
            patient_dir: ids.patient_id.clone(),
            study_dir: ids.study_id.clone(),
            series_dir: series_id_for_value(series_value),
            file_name,
        },
    )
}

/// Builds the canonical output location of a dataset.
pub fn output_names(ids: &DerivedIdentifiers, raw: &RawAttributes) -> (r: Result<
    OutputNames,
    AnonError,
>)
    ensures
        output_outcome(r, ids@, raw@, series_value(raw@)),
{
    let uid = raw.series_uid.as_str();
    if uid.unicode_len() > MAX_UID_LEN || !dotted_number(uid) {
        return output_names_with_series_value(ids, raw, None);
    }
    let expr = replace_dots_with_plus(uid);
    proof {
        lemma_dots_to_plus_digit_sum(uid@);
    }
    let value = evaluate_number(expr.as_str());
    output_names_with_series_value(ids, raw, value)
}

} // verus!
