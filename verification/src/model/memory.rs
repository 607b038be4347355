//! Raw-preserving service memory limits.

use super::{lb, Located};
use crate::text::{
    all_digits, all_zero, all_zero_str, before, bytes, contains_byte, has_suffix, is_digit, owned, sb,
    strip_suffix,
};
use vstd::prelude::*;

verus! {

/// A service `mem_limit` value with its authored scalar retained.
#[derive(Debug, Clone, PartialEq, Eq)]
pub struct MemLimit {
    raw: Located<String>,
    scalar_kind: MemLimitScalarKind,
    kind: MemLimitKind,
}

/// The YAML scalar family of a memory limit.
#[derive(Debug, Clone, Copy, PartialEq, Eq, Hash, Structural)]
#[non_exhaustive]
pub enum MemLimitScalarKind {
    /// A YAML number.
    Number,
    /// A YAML string.
    String,
}

/// The semantic family of a memory limit.
#[derive(Debug, Clone, PartialEq, Eq)]
#[non_exhaustive]
pub enum MemLimitKind {
    /// An amount with a documented unit suffix.
    Documented {
        /// The authored amount before the unit.
        amount_raw: String,
        /// The documented unit.
        unit: MemLimitUnit,
    },
    /// A spelling of zero, with or without a unit.
    Zero {
        /// The authored amount.
        amount_raw: String,
        /// The documented unit, when present.
        unit: Option<MemLimitUnit>,
    },
    /// A string containing a dollar marker and therefore deferred to interpolation.
    Expression,
    /// A schema number without a documented unit.
    SchemaNumber,
    /// A string whose meaning depends on the provider.
    ProviderDependentString,
}

/// A documented memory unit suffix.
#[derive(Debug, Clone, Copy, PartialEq, Eq, Hash, Structural)]
#[non_exhaustive]
pub enum MemLimitUnit {
    /// `b`.
    B,
    /// `k`.
    K,
    /// `kb`.
    Kb,
    /// `m`.
    M,
    /// `mb`.
    Mb,
    /// `g`.
    G,
    /// `gb`.
    Gb,
}

impl MemLimitUnit {
    /// The suffix spelling of a unit.
    pub open spec fn spec_str(self) -> Seq<char> {
        match self {
            MemLimitUnit::B => "b"@,
            MemLimitUnit::K => "k"@,
            MemLimitUnit::Kb => "kb"@,
            MemLimitUnit::M => "m"@,
            MemLimitUnit::Mb => "mb"@,
            MemLimitUnit::G => "g"@,
            MemLimitUnit::Gb => "gb"@,
        }
    }

    /// Returns the suffix spelling of the unit.
    pub fn as_str(self) -> (r: &'static str)
        ensures
            r@ == self.spec_str(),
    {
        match self {
            MemLimitUnit::B => "b",
            MemLimitUnit::K => "k",
            MemLimitUnit::Kb => "kb",
            MemLimitUnit::M => "m",
            MemLimitUnit::Mb => "mb",
            MemLimitUnit::G => "g",
            MemLimitUnit::Gb => "gb",
        }
    }
}

/// The unit suffixes in the order they are tried.
pub open spec fn unit_order(i: int) -> MemLimitUnit {
    if i == 0 {
        MemLimitUnit::Kb
    } else if i == 1 {
        MemLimitUnit::Mb
    } else if i == 2 {
        MemLimitUnit::Gb
    } else if i == 3 {
        MemLimitUnit::B
    } else if i == 4 {
        MemLimitUnit::K
    } else if i == 5 {
        MemLimitUnit::M
    } else {
        MemLimitUnit::G
    }
}

/// The value ends with the unit and something precedes it.
pub open spec fn unit_fits(b: Seq<u8>, u: MemLimitUnit) -> bool {
    has_suffix(b, sb(u.spec_str())) && before(b, sb(u.spec_str())).len() > 0
}

/// The first unit, in the order `kb, mb, gb, b, k, m, g`, that ends the value after a
/// non-empty amount.
pub open spec fn documented_split(b: Seq<u8>) -> Option<MemLimitUnit> {
    if unit_fits(b, MemLimitUnit::Kb) {
        Some(MemLimitUnit::Kb)
    } else if unit_fits(b, MemLimitUnit::Mb) {
        Some(MemLimitUnit::Mb)
    } else if unit_fits(b, MemLimitUnit::Gb) {
        Some(MemLimitUnit::Gb)
    } else if unit_fits(b, MemLimitUnit::B) {
        Some(MemLimitUnit::B)
    } else if unit_fits(b, MemLimitUnit::K) {
        Some(MemLimitUnit::K)
    } else if unit_fits(b, MemLimitUnit::M) {
        Some(MemLimitUnit::M)
    } else if unit_fits(b, MemLimitUnit::G) {
        Some(MemLimitUnit::G)
    } else {
        None
    }
}

/// A non-empty run of `0` bytes.
pub open spec fn lexical_zero_spec(b: Seq<u8>) -> bool {
    b.len() > 0 && all_zero(b)
}

/// The classification of a memory limit.
pub open spec fn mem_kind_matches(b: Seq<u8>, scalar_kind: MemLimitScalarKind, kind: MemLimitKind) -> bool {
    if scalar_kind == MemLimitScalarKind::String && b.contains(36) {
        kind is Expression
    } else if let Some(u) = documented_split(b) {
        let amount = before(b, sb(u.spec_str()));
        if lexical_zero_spec(amount) {
            kind matches MemLimitKind::Zero { amount_raw, unit } && sb(amount_raw@) == amount && unit
                == Some(u)
        } else {
            kind matches MemLimitKind::Documented { amount_raw, unit } && sb(amount_raw@) == amount && unit
                == u
        }
    } else if lexical_zero_spec(b) {
        kind matches MemLimitKind::Zero { amount_raw, unit } && sb(amount_raw@) == b && unit is None
    } else if scalar_kind == MemLimitScalarKind::Number {
        kind is SchemaNumber
    } else {
        kind is ProviderDependentString
    }
}

impl MemLimit {
    /// The authored scalar.
    pub closed spec fn spec_raw(&self) -> Located<String> {
        self.raw
    }

    /// The YAML scalar family.
    pub closed spec fn spec_scalar_kind(&self) -> MemLimitScalarKind {
        self.scalar_kind
    }

    /// The classification.
    pub closed spec fn spec_kind(&self) -> MemLimitKind {
        self.kind
    }

    /// Classifies a memory limit without converting its amount.
    pub fn parse(raw: Located<String>, scalar_kind: MemLimitScalarKind) -> (m: Self)
        ensures
            m.spec_raw() == raw,
            m.spec_scalar_kind() == scalar_kind,
            mem_kind_matches(lb(raw), scalar_kind, m.spec_kind()),
    {
        let value = raw.value().as_str();
        let kind = if matches!(scalar_kind, MemLimitScalarKind::String) && contains_byte(value, 36) {
            MemLimitKind::Expression
        } else if let Some((amount_raw, unit)) = split_documented_unit(value) {
            if lexical_zero(amount_raw) {
                MemLimitKind::Zero { amount_raw: owned(amount_raw), unit: Some(unit) }
            } else {
                MemLimitKind::Documented { amount_raw: owned(amount_raw), unit }
            }
        } else if lexical_zero(value) {
            MemLimitKind::Zero { amount_raw: owned(value), unit: None }
        } else {
            match scalar_kind {
                MemLimitScalarKind::Number => MemLimitKind::SchemaNumber,
                MemLimitScalarKind::String => MemLimitKind::ProviderDependentString,
            }
        };
        Self { raw, scalar_kind, kind }
    }

    /// Returns the authored scalar and its span.
    pub fn raw(&self) -> (r: &Located<String>)
        ensures
            *r == self.spec_raw(),
    {
        &self.raw
    }

    /// Returns the YAML scalar family.
    pub fn scalar_kind(&self) -> (r: MemLimitScalarKind)
        ensures
            r == self.spec_scalar_kind(),
    {
        self.scalar_kind
    }

    /// Returns the classification.
    pub fn kind(&self) -> (r: &MemLimitKind)
        ensures
            *r == self.spec_kind(),
    {
        &self.kind
    }
}

/// A generated amount: a decimal without leading zeros, at least one.
pub open spec fn canonical_positive(b: Seq<u8>) -> bool {
    b.len() > 0 && 49 <= b[0] <= 57 && all_digits(b.subrange(1, b.len() as int))
}

/// Reports whether a generated amount is a canonical positive decimal.
pub fn valid_generated_mem_amount(value: &str) -> (r: bool)
    ensures
        r == canonical_positive(sb(value@)),
{
    let b = bytes(value);
    if b.len() == 0 || !(b[0] >= 49 && b[0] <= 57) {
        return false;
    }
    let mut i: usize = 1;
    while i < b.len()
        invariant
            b@ == sb(value@),
            1 <= i <= b.len(),
            forall|j: int| 1 <= j < i ==> is_digit(#[trigger] b@[j]),
        decreases b.len() - i,
    {
        if !(b[i] >= 48 && b[i] <= 57) {
            assert(b@.subrange(1, b@.len() as int)[i - 1] == b@[i as int]);
            return false;
        }
        i += 1;
    }
    assert forall|j: int| 0 <= j < b@.len() - 1 implies is_digit(#[trigger] b@.subrange(1, b@.len() as int)[j]) by {
        assert(b@.subrange(1, b@.len() as int)[j] == b@[j + 1]);
    }
    true
}

/// Tries one unit suffix.
fn try_unit<'a>(value: &'a str, suffix: &'static str, unit: MemLimitUnit) -> (r: Option<(&'a str, MemLimitUnit)>)
    requires
        suffix@ == unit.spec_str(),
    ensures
        r is Some <==> unit_fits(sb(value@), unit),
        r matches Some(p) ==> sb(p.0@) == before(sb(value@), sb(unit.spec_str())) && p.1 == unit,
{
    match strip_suffix(value, suffix) {
        Some(amount) => {
            if bytes(amount).len() > 0 {
                Some((amount, unit))
            } else {
                None
            }
        },
        None => None,
    }
}

/// Splits a value into an amount and its documented unit suffix.
pub fn split_documented_unit(value: &str) -> (r: Option<(&str, MemLimitUnit)>)
    ensures
        r is None <==> documented_split(sb(value@)) is None,
        r matches Some(p) ==> documented_split(sb(value@)) == Some(p.1) && sb(p.0@) == before(
            sb(value@),
            sb(p.1.spec_str()),
        ),
{
    if let Some(p) = try_unit(value, "kb", MemLimitUnit::Kb) {
        return Some(p);
    }
    if let Some(p) = try_unit(value, "mb", MemLimitUnit::Mb) {
        return Some(p);
    }
    if let Some(p) = try_unit(value, "gb", MemLimitUnit::Gb) {
        return Some(p);
    }
    if let Some(p) = try_unit(value, "b", MemLimitUnit::B) {
        return Some(p);
    }
    if let Some(p) = try_unit(value, "k", MemLimitUnit::K) {
        return Some(p);
    }
    if let Some(p) = try_unit(value, "m", MemLimitUnit::M) {
        return Some(p);
    }
    try_unit(value, "g", MemLimitUnit::G)
}

/// Reports whether the text is a non-empty run of `0` bytes.
pub fn lexical_zero(value: &str) -> (r: bool)
    ensures
        r == lexical_zero_spec(sb(value@)),
{
    bytes(value).len() > 0 && all_zero_str(value)
}

} // verus!
