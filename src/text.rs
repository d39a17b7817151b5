//! Character-level building blocks: decimal parsing, radix rendering,
//! padding, character substitution and splitting.
use vstd::prelude::*;
use vstd::string::*;
use vstd::arithmetic::div_mod::{lemma_div_decreases, lemma_small_mod};

verus! {

pub open spec fn is_digit(c: char) -> bool {
    '0' <= c && c <= '9'
}

pub open spec fn all_digits(s: Seq<char>) -> bool {
    forall|i: int| 0 <= i < s.len() ==> is_digit(#[trigger] s[i])
}

pub open spec fn digit_value(c: char) -> nat {
    (c as int - '0' as int) as nat
}

/// The number written by a string of decimal digits.
pub open spec fn decimal_value(s: Seq<char>) -> nat
    decreases s.len(),
{
    if s.len() == 0 {
        0
    } else {
        decimal_value(s.drop_last()) * 10 + digit_value(s.last())
    }
}

/// A prefix of a digit string never writes a larger number than the whole.
proof fn lemma_prefix_value_le(s: Seq<char>, k: int)
    requires
        all_digits(s),
        0 <= k <= s.len(),
    ensures
        decimal_value(s.take(k)) <= decimal_value(s),
    decreases s.len(),
{
    if k < s.len() {
        let t = s.drop_last();
        assert(t.take(k) =~= s.take(k));
        lemma_prefix_value_le(t, k);
    } else {
        assert(s.take(k) =~= s);
    }
}

/// Parses a non-empty string of decimal digits that fits in an `i64`.
pub fn parse_decimal_i64(s: &str) -> (r: Option<i64>)
    ensures
        r == (if s@.len() > 0 && all_digits(s@) && decimal_value(s@) <= i64::MAX {
            Some(decimal_value(s@) as i64)
        } else {
            None::<i64>
        }),
{
    let n = s.unicode_len();
    if n == 0 {
        return None;
    }
    let mut v: i64 = 0;
    let mut i: usize = 0;
    while i < n
        invariant
            n == s@.len(),
            0 <= i <= n,
            all_digits(s@.take(i as int)),
            v == decimal_value(s@.take(i as int)),
        decreases n - i,
    {
        let c = s.get_char(i);
        if !('0' <= c && c <= '9') {
            return None;
        }
        let d: i64 = (c as u32 - '0' as u32) as i64;
        assert(s@.take(i + 1).drop_last() =~= s@.take(i as int));
        if v > (i64::MAX - d) / 10 {
            proof {
                assert(decimal_value(s@.take(i + 1)) > i64::MAX) by (nonlinear_arith)
                    requires
                        decimal_value(s@.take(i + 1)) == v * 10 + d,
                        v > (i64::MAX - d) / 10,
                        0 <= d < 10,
                ;
                if all_digits(s@) {
                    lemma_prefix_value_le(s@, i + 1);
                }
            }
            return None;
        }
        proof {
            assert(v * 10 + d <= i64::MAX) by (nonlinear_arith)
                requires
                    0 <= v <= (i64::MAX - d) / 10,
                    0 <= d < 10,
            ;
        }
        v = v * 10 + d;
        i += 1;
    }
    assert(s@.take(n as int) =~= s@);
    Some(v)
}


/// Relies on `String::push`: appends one character at the end.
#[verifier::external_body]
pub(crate) fn push_char(s: &mut String, c: char)
    ensures
        final(s)@ == old(s)@.push(c),
{
    s.push(c)
}

/// Upper-case digits of radix 16; the first ten are the decimal digits.
pub open spec fn digit_chars() -> Seq<char> {
    seq!['0', '1', '2', '3', '4', '5', '6', '7', '8', '9', 'A', 'B', 'C', 'D', 'E', 'F']
}

/// `n` written in `base` (between 2 and 16) without leading zeros; zero is "0".
pub open spec fn radix_digits(n: nat, base: nat) -> Seq<char>
    recommends
        2 <= base <= 16,
    decreases n via radix_digits_decreases
{
    if n < base || base < 2 {
        seq![digit_chars()[n as int]]
    } else {
        radix_digits(n / base, base).push(digit_chars()[(n % base) as int])
    }
}

#[via_fn]
proof fn radix_digits_decreases(n: nat, base: nat) {
    if !(n < base || base < 2) {
        lemma_div_decreases(n as int, base as int);
    }
}

/// Upper-case hexadecimal rendering of a number.
pub open spec fn hex_upper(n: nat) -> Seq<char> {
    radix_digits(n, 16)
}

/// Decimal rendering of a number.
pub open spec fn decimal_text(n: nat) -> Seq<char> {
    radix_digits(n, 10)
}

fn digit_char(d: u128) -> (c: char)
    requires
        d < 16,
    ensures
        c == digit_chars()[d as int],
{
    if d == 0 { '0' } else if d == 1 { '1' } else if d == 2 { '2' } else if d == 3 { '3' }
    else if d == 4 { '4' } else if d == 5 { '5' } else if d == 6 { '6' } else if d == 7 { '7' }
    else if d == 8 { '8' } else if d == 9 { '9' } else if d == 10 { 'A' } else if d == 11 { 'B' }
    else if d == 12 { 'C' } else if d == 13 { 'D' } else if d == 14 { 'E' } else { 'F' }
}

fn push_radix_digits(n: u128, base: u128, out: &mut String)
    requires
        2 <= base <= 16,
    ensures
        final(out)@ == old(out)@ + radix_digits(n as nat, base as nat),
    decreases n,
{
    if n >= base {
        proof {
            lemma_div_decreases(n as int, base as int);
        }
        push_radix_digits(n / base, base, out);
    }
    push_char(out, digit_char(n % base));
    proof {
        if n >= base {
            assert(old(out)@ + radix_digits(n as nat, base as nat) =~= old(out)@
                + radix_digits((n / base) as nat, base as nat) + seq![digit_chars()[(n % base) as int]]);
        } else {
            lemma_small_mod(n as nat, base as nat);
        }
    }
}

/// Upper-case hexadecimal text of `n`, as `{:X}` writes it.
pub fn to_hex_upper(n: u128) -> (r: String)
    ensures
        r@ == hex_upper(n as nat),
{
    let mut out = String::new();
    push_radix_digits(n, 16, &mut out);
    assert(out@ =~= hex_upper(n as nat));
    out
}

/// `s` preceded by as many '0' as it takes to reach `width` characters.
pub open spec fn zero_padded(s: Seq<char>, width: nat) -> Seq<char> {
    if s.len() < width {
        Seq::new((width - s.len()) as nat, |i: int| '0') + s
    } else {
        s
    }
}

/// Decimal text of `n` padded with zeros to at least `width` digits, as
/// `{:0width$}` writes an unsigned number.
pub fn to_padded_decimal(n: u32, width: usize) -> (r: String)
    ensures
        r@ == zero_padded(decimal_text(n as nat), width as nat),
{
    let mut digits = String::new();
    push_radix_digits(n as u128, 10, &mut digits);
    assert(digits@ =~= decimal_text(n as nat));
    let len = digits.as_str().unicode_len();
    let mut out = String::new();
    let mut k: usize = 0;
    let fill: usize = if width > len { width - len } else { 0 };
    while k < fill
        invariant
            k <= fill,
            len == digits@.len(),
            fill == (if width > len { width - len } else { 0 }),
            out@ =~= Seq::new(k as nat, |i: int| '0'),
        decreases fill - k,
    {
        push_char(&mut out, '0');
        k += 1;
    }
    out.append(digits.as_str());
    assert(out@ =~= zero_padded(decimal_text(n as nat), width as nat));
    out
}

/// Every character of `s` is a decimal digit or a '.'.
pub open spec fn is_dotted_number(s: Seq<char>) -> bool {
    forall|i: int| 0 <= i < s.len() ==> is_digit(#[trigger] s[i]) || s[i] == '.'
}

/// Every character of `s` is a decimal digit or a '+'.
pub open spec fn is_digit_sum(s: Seq<char>) -> bool {
    forall|i: int| 0 <= i < s.len() ==> is_digit(#[trigger] s[i]) || s[i] == '+'
}

/// Whether `s` holds only decimal digits and dots.
pub fn dotted_number(s: &str) -> (r: bool)
    ensures
        r == is_dotted_number(s@),
{
    let n = s.unicode_len();
    let mut i: usize = 0;
    while i < n
        invariant
            n == s@.len(),
            0 <= i <= n,
            forall|k: int| 0 <= k < i ==> is_digit(#[trigger] s@[k]) || s@[k] == '.',
        decreases n - i,
    {
        let c = s.get_char(i);
        if !(('0' <= c && c <= '9') || c == '.') {
            return false;
        }
        i += 1;
    }
    true
}

/// Turning dots into '+' makes a dotted number a sum of digit runs.
pub proof fn lemma_dots_to_plus_digit_sum(s: Seq<char>)
    requires
        is_dotted_number(s),
    ensures
        is_digit_sum(dots_to_plus(s)),
        dots_to_plus(s).len() == s.len(),
{
    assert forall|i: int| 0 <= i < dots_to_plus(s).len() implies is_digit(#[trigger] dots_to_plus(s)[i])
        || dots_to_plus(s)[i] == '+' by {
        assert(s[i] == '.' || is_digit(s[i]));
    }
}

/// Every '.' of `s` turned into '+'.
pub open spec fn dots_to_plus(s: Seq<char>) -> Seq<char> {
    s.map_values(|c: char| if c == '.' { '+' } else { c })
}

/// Rewrites a dotted identifier as a sum of its components.
pub fn replace_dots_with_plus(s: &str) -> (r: String)
    ensures
        r@ == dots_to_plus(s@),
{
    let n = s.unicode_len();
    let mut out = String::new();
    let mut i: usize = 0;
    while i < n
        invariant
            n == s@.len(),
            0 <= i <= n,
            out@ =~= dots_to_plus(s@.take(i as int)),
        decreases n - i,
    {
        let c = s.get_char(i);
        if c == '.' {
            push_char(&mut out, '+');
        } else {
            push_char(&mut out, c);
        }
        assert(dots_to_plus(s@.take(i + 1)) =~= dots_to_plus(s@.take(i as int)).push(
            if c == '.' { '+' } else { c },
        ));
        i += 1;
    }
    assert(s@.take(n as int) =~= s@);
    out
}

/// The pieces of `s` between occurrences of `sep`; there is always at least one.
pub open spec fn split_on(s: Seq<char>, sep: char) -> Seq<Seq<char>>
    decreases s.len(),
{
    if s.len() == 0 {
        seq![Seq::<char>::empty()]
    } else {
        let init = split_on(s.drop_last(), sep);
        if s.last() == sep {
            init.push(Seq::<char>::empty())
        } else {
            init.update(init.len() - 1, init.last().push(s.last()))
        }
    }
}

proof fn lemma_split_nonempty(s: Seq<char>, sep: char)
    ensures
        split_on(s, sep).len() >= 1,
    decreases s.len(),
{
    if s.len() > 0 {
        lemma_split_nonempty(s.drop_last(), sep);
    }
}

/// Splits `s` at every `sep`.
pub fn split_text(s: &str, sep: char) -> (r: Vec<String>)
    ensures
        r@.map_values(|p: String| p@) == split_on(s@, sep),
{
    let n = s.unicode_len();
    let mut done: Vec<String> = Vec::new();
    let mut cur = String::new();
    let mut i: usize = 0;
    while i < n
        invariant
            n == s@.len(),
            0 <= i <= n,
            split_on(s@.take(i as int), sep) =~= done@.map_values(|p: String| p@).push(cur@),
        decreases n - i,
    {
        let c = s.get_char(i);
        let ghost before = split_on(s@.take(i as int), sep);
        assert(s@.take(i + 1).drop_last() =~= s@.take(i as int));
        if c == sep {
            done.push(cur);
            cur = String::new();
        } else {
            push_char(&mut cur, c);
        }
        assert(split_on(s@.take(i + 1), sep) =~= done@.map_values(|p: String| p@).push(cur@));
        i += 1;
    }
    assert(s@.take(n as int) =~= s@);
    done.push(cur);
    assert(done@.map_values(|p: String| p@) =~= split_on(s@, sep));
    done
}

/// `s` without the spaces and NUL characters at its end.
pub open spec fn trim_end_padding(s: Seq<char>) -> Seq<char>
    decreases s.len(),
{
    if s.len() > 0 && (s.last() == ' ' || s.last() == '\0') {
        trim_end_padding(s.drop_last())
    } else {
        s
    }
}

} // verus!
