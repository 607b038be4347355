//! Raw-preserving service restart policies.

use super::{lb, lc, Located};
use crate::text::{after, contains_byte, decimal, decimal_str, has_prefix, owned, sb, str_eq, strip_prefix};
use vstd::prelude::*;

verus! {

/// A service `restart` value with its authored scalar retained.
#[derive(Debug, Clone, PartialEq, Eq)]
pub struct RestartPolicy {
    raw: Located<String>,
    kind: RestartPolicyKind,
}

/// The semantic family of a restart policy.
#[derive(Debug, Clone, PartialEq, Eq)]
#[non_exhaustive]
pub enum RestartPolicyKind {
    /// `no`.
    No,
    /// `always`.
    Always,
    /// `on-failure`, optionally with a maximum retry count.
    OnFailure {
        /// The authored retry digits, retained without normalization.
        maximum_retries: Option<String>,
    },
    /// `unless-stopped`.
    UnlessStopped,
    /// A value containing a dollar marker and therefore deferred to interpolation.
    Expression,
    /// Any other value.
    Other,
}

/// The text is `on-failure:` followed by decimal digits.
pub open spec fn with_retries(b: Seq<u8>) -> bool {
    has_prefix(b, sb("on-failure:"@)) && decimal(after(b, sb("on-failure:"@)))
}

impl RestartPolicy {
    /// The authored scalar.
    pub closed spec fn spec_raw(&self) -> Located<String> {
        self.raw
    }

    /// The classification.
    pub closed spec fn spec_kind(&self) -> RestartPolicyKind {
        self.kind
    }

    /// Classifies a restart policy.
    pub fn parse(raw: Located<String>) -> (p: Self)
        ensures
            p.spec_raw() == raw,
            (p.spec_kind() is No) <==> lc(raw) == "no"@,
            (p.spec_kind() is Always) <==> lc(raw) != "no"@ && lc(raw) == "always"@,
            p.spec_kind() == (RestartPolicyKind::OnFailure { maximum_retries: None }) <==> lc(raw) != "no"@
                && lc(raw) != "always"@ && lc(raw) == "on-failure"@,
            (p.spec_kind() is UnlessStopped) <==> lc(raw) != "no"@ && lc(raw) != "always"@ && lc(raw)
                != "on-failure"@ && lc(raw) == "unless-stopped"@,
            (p.spec_kind() is Expression) <==> lc(raw) != "no"@ && lc(raw) != "always"@ && lc(raw)
                != "on-failure"@ && lc(raw) != "unless-stopped"@ && lb(raw).contains(36),
            (p.spec_kind() is Other) <==> lc(raw) != "no"@ && lc(raw) != "always"@ && lc(raw)
                != "on-failure"@ && lc(raw) != "unless-stopped"@ && !lb(raw).contains(36) && !with_retries(
                lb(raw),
            ),
            p.spec_kind() matches RestartPolicyKind::OnFailure { maximum_retries: Some(m) } ==> lc(raw)
                != "on-failure"@ && with_retries(lb(raw)) && sb(m@) == after(lb(raw), sb("on-failure:"@)),
    {
        let value = raw.value().as_str();
        let kind = if str_eq(value, "no") {
            RestartPolicyKind::No
        } else if str_eq(value, "always") {
            RestartPolicyKind::Always
        } else if str_eq(value, "on-failure") {
            RestartPolicyKind::OnFailure { maximum_retries: None }
        } else if str_eq(value, "unless-stopped") {
            RestartPolicyKind::UnlessStopped
        } else if contains_byte(value, 36) {
            RestartPolicyKind::Expression
        } else {
            match parse_maximum_retries(value) {
                Some(retries) => RestartPolicyKind::OnFailure { maximum_retries: Some(owned(retries)) },
                None => RestartPolicyKind::Other,
            }
        };
        Self { raw, kind }
    }

    /// Returns the authored scalar and its span.
    pub fn raw(&self) -> (r: &Located<String>)
        ensures
            *r == self.spec_raw(),
    {
        &self.raw
    }

    /// Returns the classification.
    pub fn kind(&self) -> (r: &RestartPolicyKind)
        ensures
            *r == self.spec_kind(),
    {
        &self.kind
    }

    /// Reports whether the policy is documented or deferred.
    pub fn is_valid(&self) -> (r: bool)
        ensures
            r == !(self.spec_kind() is Other),
    {
        !matches!(self.kind, RestartPolicyKind::Other)
    }
}

/// Returns the retry digits of an `on-failure:N` policy.
pub fn parse_maximum_retries(value: &str) -> (r: Option<&str>)
    ensures
        r is Some <==> with_retries(sb(value@)),
        r matches Some(m) ==> sb(m@) == after(sb(value@), sb("on-failure:"@)),
{
    match strip_prefix(value, "on-failure:") {
        Some(retries) => {
            if decimal_str(retries) {
                Some(retries)
            } else {
                None
            }
        },
        None => None,
    }
}

} // verus!
