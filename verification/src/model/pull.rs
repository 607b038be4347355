//! Raw-preserving service image pull policies.

use super::{lb, lc, Located};
use crate::text::{after, bytes, contains_byte, has_prefix, is_digit, owned, sb, str_eq, strip_prefix};
use vstd::prelude::*;

verus! {

/// A service `pull_policy` value with its authored scalar retained.
#[derive(Debug, Clone, PartialEq, Eq)]
pub struct PullPolicy {
    raw: Located<String>,
    kind: PullPolicyKind,
}

/// The semantic family of a pull policy.
#[derive(Debug, Clone, PartialEq, Eq)]
#[non_exhaustive]
pub enum PullPolicyKind {
    /// `always`.
    Always,
    /// `never`.
    Never,
    /// `missing`.
    Missing,
    /// `if_not_present`, an alias of `missing`.
    IfNotPresentAlias,
    /// `build`.
    Build,
    /// `daily`.
    Daily,
    /// `weekly`.
    Weekly,
    /// `every_<duration>`.
    Every {
        /// The authored duration after `every_`.
        duration: String,
    },
    /// `refresh`, accepted by the schema only.
    RefreshSchemaOnly,
    /// A value containing a dollar marker and therefore deferred to interpolation.
    Expression,
    /// Any other value.
    Other,
}

/// The end of the run of decimal digits that starts at `i`.
pub open spec fn digits_end(b: Seq<u8>, i: int) -> int
    decreases b.len() - i,
{
    if 0 <= i < b.len() && is_digit(b[i]) {
        digits_end(b, i + 1)
    } else {
        i
    }
}

/// A pull-policy duration unit: `w`, `d`, `h`, `m` or `s`.
pub open spec fn pull_unit(c: u8) -> bool {
    c == 119 || c == 100 || c == 104 || c == 109 || c == 115
}

/// A (possibly empty) run of `<digits><unit>` segments.
pub open spec fn pull_segments(b: Seq<u8>) -> bool
    decreases b.len(),
{
    if b.len() == 0 {
        true
    } else {
        let n = digits_end(b, 0);
        proof {
            lemma_digits_end(b, 0);
        }
        n > 0 && n < b.len() && pull_unit(b[n]) && pull_segments(b.subrange(n + 1, b.len() as int))
    }
}

/// A pull-policy duration: one or more `<digits><unit>` segments.
pub open spec fn pull_duration(b: Seq<u8>) -> bool {
    b.len() > 0 && pull_segments(b)
}

/// The text is `every_` followed by a pull-policy duration.
pub open spec fn every_duration(b: Seq<u8>) -> bool {
    has_prefix(b, sb("every_"@)) && pull_duration(after(b, sb("every_"@)))
}

/// Bounds and content of a digit run.
pub proof fn lemma_digits_end(b: Seq<u8>, i: int)
    requires
        0 <= i <= b.len(),
    ensures
        i <= digits_end(b, i) <= b.len(),
        forall|j: int| i <= j < digits_end(b, i) ==> is_digit(b[j]),
        digits_end(b, i) < b.len() ==> !is_digit(b[digits_end(b, i)]),
    decreases b.len() - i,
{
    if i < b.len() && is_digit(b[i]) {
        lemma_digits_end(b, i + 1);
    }
}

proof fn lemma_digits_end_shift(b: Seq<u8>, p: int, i: int)
    requires
        0 <= p <= i <= b.len(),
    ensures
        digits_end(b.subrange(p, b.len() as int), i - p) == digits_end(b, i) - p,
    decreases b.len() - i,
{
    let r = b.subrange(p, b.len() as int);
    if i < b.len() {
        assert(r[i - p] == b[i]);
        lemma_digits_end_shift(b, p, i + 1);
    }
}

impl PullPolicy {
    /// The authored scalar.
    pub closed spec fn spec_raw(&self) -> Located<String> {
        self.raw
    }

    /// The classification.
    pub closed spec fn spec_kind(&self) -> PullPolicyKind {
        self.kind
    }

    /// Classifies a pull policy: the documented keywords, then values holding `$`, then
    /// `every_<duration>`, and other values.
    pub fn parse(raw: Located<String>) -> (p: Self)
        ensures
            p.spec_raw() == raw,
            lc(raw) == "always"@ ==> p.spec_kind() is Always,
            (p.spec_kind() is Never) ==> lc(raw) == "never"@,
            (p.spec_kind() is Missing) ==> lc(raw) == "missing"@,
            (p.spec_kind() is IfNotPresentAlias) ==> lc(raw) == "if_not_present"@,
            (p.spec_kind() is Build) ==> lc(raw) == "build"@,
            (p.spec_kind() is Daily) ==> lc(raw) == "daily"@,
            (p.spec_kind() is Weekly) ==> lc(raw) == "weekly"@,
            (p.spec_kind() is RefreshSchemaOnly) ==> lc(raw) == "refresh"@,
            (p.spec_kind() is Expression) ==> lb(raw).contains(36),
            p.spec_kind() matches PullPolicyKind::Every { duration } ==> !lb(raw).contains(36)
                && every_duration(lb(raw)) && sb(duration@) == after(lb(raw), sb("every_"@)),
            (p.spec_kind() is Other) ==> !lb(raw).contains(36) && !every_duration(lb(raw)),
            keyword(lc(raw)) ==> !(p.spec_kind() is Expression || p.spec_kind() is Every
                || p.spec_kind() is Other),
            !keyword(lc(raw)) ==> (p.spec_kind() is Expression <==> lb(raw).contains(36)) && (
            p.spec_kind() is Every <==> !lb(raw).contains(36) && every_duration(lb(raw))),
    {
        let value = raw.value().as_str();
        let kind = if str_eq(value, "always") {
            PullPolicyKind::Always
        } else if str_eq(value, "never") {
            PullPolicyKind::Never
        } else if str_eq(value, "missing") {
            PullPolicyKind::Missing
        } else if str_eq(value, "if_not_present") {
            PullPolicyKind::IfNotPresentAlias
        } else if str_eq(value, "build") {
            PullPolicyKind::Build
        } else if str_eq(value, "daily") {
            PullPolicyKind::Daily
        } else if str_eq(value, "weekly") {
            PullPolicyKind::Weekly
        } else if str_eq(value, "refresh") {
            PullPolicyKind::RefreshSchemaOnly
        } else if contains_byte(value, 36) {
            PullPolicyKind::Expression
        } else {
            match parse_every_duration(value) {
                Some(duration) => PullPolicyKind::Every { duration: owned(duration) },
                None => PullPolicyKind::Other,
            }
        };
        Self { raw, kind }
    }

    /// Returns the authored scalar and its span.
    pub fn raw(&self) -> (r: &Located<String>)
        ensures
            *r == self.spec_raw(),
    {
        &self.raw
    }

    /// Returns the classification.
    pub fn kind(&self) -> (r: &PullPolicyKind)
        ensures
            *r == self.spec_kind(),
    {
        &self.kind
    }

    /// Reports whether the policy is documented, schema-only or deferred.
    pub fn is_recognized(&self) -> (r: bool)
        ensures
            r == !(self.spec_kind() is Other),
    {
        !matches!(self.kind, PullPolicyKind::Other)
    }
}

/// One of the documented pull-policy keywords.
pub open spec fn keyword(c: Seq<char>) -> bool {
    c == "always"@ || c == "never"@ || c == "missing"@ || c == "if_not_present"@ || c == "build"@ || c
        == "daily"@ || c == "weekly"@ || c == "refresh"@
}

/// Reports whether a generated value is a pull-policy duration.
pub fn valid_pull_policy_duration(value: &str) -> (r: bool)
    ensures
        r == pull_duration(sb(value@)),
{
    parse_duration(value)
}

/// Returns the duration of an `every_<duration>` policy.
pub fn parse_every_duration(value: &str) -> (r: Option<&str>)
    ensures
        r is Some <==> every_duration(sb(value@)),
        r matches Some(d) ==> sb(d@) == after(sb(value@), sb("every_"@)),
{
    match strip_prefix(value, "every_") {
        Some(duration) => {
            if valid_pull_policy_duration(duration) {
                Some(duration)
            } else {
                None
            }
        },
        None => None,
    }
}

/// Reports whether the text is one or more `<digits><unit>` segments.
#[verifier::loop_isolation(false)]
pub fn parse_duration(value: &str) -> (r: bool)
    ensures
        r == pull_duration(sb(value@)),
{
    let b = bytes(value);
    let ghost all = b@;
    let mut pos: usize = 0;
    let mut found = false;
    assert(all.subrange(0, all.len() as int) =~= all);
    while pos < b.len()
        invariant
            b@ == all,
            0 <= pos <= b.len(),
            found == (pos > 0),
            pull_segments(all) == pull_segments(all.subrange(pos as int, all.len() as int)),
        decreases b.len() - pos,
    {
        let ghost rest = all.subrange(pos as int, all.len() as int);
        proof {
            lemma_digits_end(all, pos as int);
            lemma_digits_end_shift(all, pos as int, pos as int);
        }
        let mut end: usize = pos;
        while end < b.len() && b[end] >= 48 && b[end] <= 57
            invariant
                b@ == all,
                pos <= end <= digits_end(all, pos as int),
            decreases b.len() - end,
        {
            end = end + 1;
        }
        if end == pos || end == b.len() {
            return false;
        }
        let unit = b[end];
        if !(unit == 119 || unit == 100 || unit == 104 || unit == 109 || unit == 115) {
            return false;
        }
        assert(rest.subrange(end - pos + 1, rest.len() as int) =~= all.subrange(end + 1, all.len() as int));
        pos = end + 1;
        found = true;
    }
    found
}

} // verus!
