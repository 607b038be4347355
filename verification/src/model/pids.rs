//! Raw-preserving service PID limits.

use super::{lb, lc, Located};
use crate::text::{all_digits_str, all_zero, all_zero_str, contains_byte, decimal, decimal_str, owned, sb, str_eq};
use vstd::prelude::*;

verus! {

/// A service `pids_limit` value with its authored scalar retained.
#[derive(Debug, Clone, PartialEq, Eq)]
pub struct PidsLimit {
    raw: Located<String>,
    kind: PidsLimitKind,
}

/// The semantic family of a PID limit.
#[derive(Debug, Clone, PartialEq, Eq)]
#[non_exhaustive]
pub enum PidsLimitKind {
    /// The documented `-1` unlimited marker.
    Unlimited,
    /// A positive decimal limit retained without fixed-width conversion.
    Finite {
        /// The authored decimal digits.
        decimal: String,
    },
    /// A decimal spelling of zero.
    Zero,
    /// A value containing a dollar marker and therefore deferred to interpolation.
    Expression,
    /// Any other value.
    Other,
}

/// A decimal spelling with at least one non-zero digit.
pub open spec fn positive_decimal(b: Seq<u8>) -> bool {
    decimal(b) && !all_zero(b)
}

impl PidsLimit {
    /// The authored scalar.
    pub closed spec fn spec_raw(&self) -> Located<String> {
        self.raw
    }

    /// The classification.
    pub closed spec fn spec_kind(&self) -> PidsLimitKind {
        self.kind
    }

    /// Classifies a PID limit without fixed-width integer parsing.
    pub fn parse(raw: Located<String>) -> (p: Self)
        ensures
            p.spec_raw() == raw,
            (p.spec_kind() is Unlimited) <==> lc(raw) == "-1"@,
            (p.spec_kind() is Expression) <==> lc(raw) != "-1"@ && lb(raw).contains(36),
            (p.spec_kind() is Zero) <==> lc(raw) != "-1"@ && !lb(raw).contains(36) && decimal(lb(raw))
                && all_zero(lb(raw)),
            (p.spec_kind() is Finite) <==> lc(raw) != "-1"@ && !lb(raw).contains(36) && positive_decimal(
                lb(raw),
            ),
            p.spec_kind() matches PidsLimitKind::Finite { decimal } ==> decimal@ == lc(raw),
    {
        let value = raw.value().as_str();
        let kind = if str_eq(value, "-1") {
            PidsLimitKind::Unlimited
        } else if contains_byte(value, 36) {
            PidsLimitKind::Expression
        } else if decimal_digits(value) {
            if all_zero_str(value) {
                PidsLimitKind::Zero
            } else {
                PidsLimitKind::Finite { decimal: owned(value) }
            }
        } else {
            PidsLimitKind::Other
        };
        Self { raw, kind }
    }

    /// Returns the authored scalar and its span.
    pub fn raw(&self) -> (r: &Located<String>)
        ensures
            *r == self.spec_raw(),
    {
        &self.raw
    }

    /// Returns the classification.
    pub fn kind(&self) -> (r: &PidsLimitKind)
        ensures
            *r == self.spec_kind(),
    {
        &self.kind
    }
}

/// Reports whether a generated value is a positive decimal.
pub fn valid_positive_pids_decimal(value: &str) -> (r: bool)
    ensures
        r == positive_decimal(sb(value@)),
{
    decimal_digits(value) && !all_zero_str(value)
}

/// Reports whether the text is a non-empty run of decimal digits.
pub fn decimal_digits(value: &str) -> (r: bool)
    ensures
        r == decimal(sb(value@)),
{
    decimal_str(value)
}

} // verus!
