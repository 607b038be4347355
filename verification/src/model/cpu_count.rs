//! Raw-preserving service CPU-count values.

use crate::model::cpu_period::{digit_run, digit_sequence, strip_sign, unsigned};
use crate::text::{after, has_prefix, sb, strip, strip_prefix};
use vstd::prelude::*;

verus! {

/// A service `cpu_count` scalar category with exact authored spelling.
#[derive(Debug, Clone, PartialEq, Eq)]
#[non_exhaustive]
pub enum CpuCount {
    /// A nonnegative YAML integer retained without fixed-width conversion or normalization.
    YamlInteger(String),
    /// A YAML string scalar retained without numeric coercion.
    String(String),
    /// A negative YAML integer retained as typed invalid evidence.
    NegativeYamlInteger(String),
}

/// A YAML integer spelling: an optional sign, then a `0b`, `0o` or `0x` digit run,
/// or a decimal digit run.
pub open spec fn yaml_int(b: Seq<u8>) -> bool {
    let d = unsigned(b);
    if has_prefix(d, sb("0b"@)) {
        digit_run(after(d, sb("0b"@)), 2)
    } else if has_prefix(d, sb("0o"@)) {
        digit_run(after(d, sb("0o"@)), 8)
    } else if has_prefix(d, sb("0x"@)) {
        digit_run(after(d, sb("0x"@)), 16)
    } else {
        digit_run(d, 10)
    }
}

/// The digits of an integer spelling after one `0b`, `0o` or `0x` marker, if any.
pub open spec fn radix_digits(v: Seq<u8>) -> Seq<u8> {
    if has_prefix(v, sb("0b"@)) {
        after(v, sb("0b"@))
    } else if has_prefix(v, sb("0o"@)) {
        after(v, sb("0o"@))
    } else {
        strip(v, sb("0x"@))
    }
}

/// A `-` followed by digits that are all `0` or `_`: a spelling of zero.
pub open spec fn negative_zero(b: Seq<u8>) -> bool {
    has_prefix(b, sb("-"@)) && {
        let digits = radix_digits(after(b, sb("-"@)));
        forall|i: int| 0 <= i < digits.len() ==> #[trigger] digits[i] == 48 || digits[i] == 95
    }
}

impl CpuCount {
    /// The authored spelling held by any variant.
    pub open spec fn spec_raw(&self) -> Seq<char> {
        match self {
            CpuCount::YamlInteger(s) => s@,
            CpuCount::String(s) => s@,
            CpuCount::NegativeYamlInteger(s) => s@,
        }
    }

    /// Classifies a YAML integer spelling: negative unless it is a spelling of zero.
    pub fn yaml_integer(raw: String) -> (r: Self)
        ensures
            r.spec_raw() == raw@,
            r is NegativeYamlInteger <==> has_prefix(sb(raw@), sb("-"@)) && !negative_zero(sb(raw@)),
            !(r is String),
    {
        if crate::text::starts_with(raw.as_str(), "-") && !negative_integer_is_zero(raw.as_str()) {
            CpuCount::NegativeYamlInteger(raw)
        } else {
            CpuCount::YamlInteger(raw)
        }
    }

    /// Returns whether this scalar satisfies the schema's nonnegative-integer rule.
    pub fn is_valid(&self) -> (r: bool)
        ensures
            r == !(self is NegativeYamlInteger),
    {
        !matches!(self, CpuCount::NegativeYamlInteger(_))
    }

    /// Returns whether a plain scalar spelling is a YAML integer.
    pub fn yaml_integer_spelling(value: &str) -> (r: bool)
        ensures
            r == yaml_int(sb(value@)),
    {
        let digits = strip_sign(value);
        if let Some(rest) = strip_prefix(digits, "0b") {
            digit_sequence(rest, 2)
        } else if let Some(rest) = strip_prefix(digits, "0o") {
            digit_sequence(rest, 8)
        } else if let Some(rest) = strip_prefix(digits, "0x") {
            digit_sequence(rest, 16)
        } else {
            digit_sequence(digits, 10)
        }
    }
}

/// Returns the digits after one `0b`, `0o` or `0x` marker, if any.
pub fn strip_radix_marker(value: &str) -> (r: &str)
    ensures
        sb(r@) == radix_digits(sb(value@)),
{
    if let Some(rest) = strip_prefix(value, "0b") {
        rest
    } else if let Some(rest) = strip_prefix(value, "0o") {
        rest
    } else {
        crate::text::strip_or_keep(value, "0x")
    }
}

/// Reports whether a `-`-prefixed integer spelling denotes zero.
#[verifier::loop_isolation(false)]
pub fn negative_integer_is_zero(value: &str) -> (r: bool)
    ensures
        r == negative_zero(sb(value@)),
{
    let rest = match strip_prefix(value, "-") {
        Some(v) => v,
        None => return false,
    };
    let digits = strip_radix_marker(rest);
    assert(radix_digits(after(sb(value@), sb("-"@))) == sb(digits@));
    let b = crate::text::bytes(digits);
    let mut i: usize = 0;
    while i < b.len()
        invariant
            b@ == sb(digits@),
            0 <= i <= b.len(),
            forall|j: int| 0 <= j < i ==> #[trigger] b@[j] == 48 || b@[j] == 95,
        decreases b.len() - i,
    {
        if !(b[i] == 48 || b[i] == 95) {
            assert(sb(digits@)[i as int] != 48 && sb(digits@)[i as int] != 95);
            return false;
        }
        i += 1;
    }
    true
}

} // verus!
