//! Raw-preserving service CPU-period values.

use crate::text::{
    after, bytes, find, find2_from, find_byte2, has_prefix, is_digit, is_empty, is_hex, sb, split_around,
    split_once, strip, strip_or_keep, strip_prefix,
};
use vstd::prelude::*;

verus! {

/// A service `cpu_period` scalar category with exact authored spelling.
#[derive(Debug, Clone, PartialEq, Eq)]
#[non_exhaustive]
pub enum CpuPeriod {
    /// A YAML numeric scalar retained without conversion or normalization.
    YamlNumber(String),
    /// A YAML string scalar retained without numeric coercion.
    String(String),
}

/// The underscore digit separator.
pub open spec fn underscore() -> u8 {
    95
}

/// A byte that is a digit in the given radix (2, 8, 10 or 16).
pub open spec fn radix_digit(c: u8, radix: u8) -> bool {
    (is_digit(c) && (c - 48) < radix) || (radix == 16 && is_hex(c))
}

/// A YAML digit run: non-empty, only radix digits and underscores, starting and
/// ending with a digit, with no two underscores in a row.
pub open spec fn digit_run(b: Seq<u8>, radix: u8) -> bool {
    &&& b.len() > 0
    &&& forall|i: int| 0 <= i < b.len() ==> #[trigger] b[i] == underscore() || radix_digit(b[i], radix)
    &&& b[0] != underscore()
    &&& b[b.len() - 1] != underscore()
    &&& forall|i: int| 0 <= i < b.len() - 1 && #[trigger] b[i] == underscore() ==> b[i + 1] != underscore()
}

/// The text without one leading `+`, or else without one leading `-`.
pub open spec fn unsigned(b: Seq<u8>) -> Seq<u8> {
    if has_prefix(b, sb("+"@)) {
        after(b, sb("+"@))
    } else {
        strip(b, sb("-"@))
    }
}

/// A YAML plain number: optionally signed, then either a `0b`/`0o`/`0x` digit run or a
/// decimal mantissa `digits[.digits?]` with an optional signed decimal exponent.
pub open spec fn yaml_number(b: Seq<u8>) -> bool {
    let v = unsigned(b);
    if has_prefix(v, sb("0b"@)) {
        digit_run(after(v, sb("0b"@)), 2)
    } else if has_prefix(v, sb("0o"@)) {
        digit_run(after(v, sb("0o"@)), 8)
    } else if has_prefix(v, sb("0x"@)) {
        digit_run(after(v, sb("0x"@)), 16)
    } else {
        let e = find2_from(v, 101, 69, 0);
        let mantissa = if e == -1 { v } else { v.subrange(0, e) };
        let exponent_ok = e == -1 || digit_run(unsigned(v.subrange(e + 1, v.len() as int)), 10);
        let d = find(mantissa, 46);
        exponent_ok && if d == -1 {
            digit_run(mantissa, 10)
        } else {
            digit_run(mantissa.subrange(0, d), 10) && {
                let fraction = mantissa.subrange(d + 1, mantissa.len() as int);
                fraction.len() == 0 || digit_run(fraction, 10)
            }
        }
    }
}

/// Removes one leading `+`, or else one leading `-`.
pub fn strip_sign(value: &str) -> (r: &str)
    ensures
        sb(r@) == unsigned(sb(value@)),
{
    match strip_prefix(value, "+") {
        Some(rest) => rest,
        None => strip_or_keep(value, "-"),
    }
}

impl CpuPeriod {
    /// Returns whether a plain scalar spelling is a YAML numeric form.
    pub fn yaml_number_spelling(value: &str) -> (r: bool)
        ensures
            r == yaml_number(sb(value@)),
    {
        let value = strip_sign(value);
        if let Some(digits) = strip_prefix(value, "0b") {
            return digit_sequence(digits, 2);
        }
        if let Some(digits) = strip_prefix(value, "0o") {
            return digit_sequence(digits, 8);
        }
        if let Some(digits) = strip_prefix(value, "0x") {
            return digit_sequence(digits, 16);
        }
        let ghost v = sb(value@);
        let (mantissa, exponent_ok) = match find_byte2(value, 101, 69) {
            Some(e) => {
                let (m, x) = split_around(value, e);
                let x = strip_sign(x);
                (m, digit_sequence(x, 10))
            },
            None => (value, true),
        };
        if !exponent_ok {
            return false;
        }
        match split_once(mantissa, 46) {
            Some((integer, fraction)) => digit_sequence(integer, 10) && (is_empty(fraction)
                || digit_sequence(fraction, 10)),
            None => digit_sequence(mantissa, 10),
        }
    }
}

/// Reports whether the text is a YAML digit run in the given radix.
pub fn digit_sequence(value: &str, radix: u8) -> (r: bool)
    requires
        radix == 2 || radix == 8 || radix == 10 || radix == 16,
    ensures
        r == digit_run(sb(value@), radix),
{
    let b = bytes(value);
    let mut saw_digit = false;
    let mut previous_separator = false;
    let mut i: usize = 0;
    while i < b.len()
        invariant
            b@ == sb(value@),
            radix == 2 || radix == 8 || radix == 10 || radix == 16,
            0 <= i <= b.len(),
            saw_digit == (i > 0),
            previous_separator == (i > 0 && b@[i - 1] == underscore()),
            forall|j: int| 0 <= j < i ==> #[trigger] b@[j] == underscore() || radix_digit(b@[j], radix),
            i > 0 ==> b@[0] != underscore(),
            forall|j: int| 0 <= j < i - 1 && #[trigger] b@[j] == underscore() ==> b@[j + 1] != underscore(),
        decreases b.len() - i,
    {
        let byte = b[i];
        if byte == 95 {
            if !saw_digit || previous_separator {
                return false;
            }
            previous_separator = true;
        } else {
            let ok = if byte >= 48 && byte <= 57 {
                byte - 48 < radix
            } else {
                radix == 16 && ((byte >= 65 && byte <= 70) || (byte >= 97 && byte <= 102))
            };
            if !ok {
                return false;
            }
            saw_digit = true;
            previous_separator = false;
        }
        i += 1;
    }
    saw_digit && !previous_separator
}

} // verus!
