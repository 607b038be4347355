//! Raw-preserving service cgroup namespace values.

use super::{lb, lc, Located};
use crate::text::{contains_byte, owned, str_eq};
use vstd::prelude::*;

verus! {

/// A service `cgroup` value with its authored scalar retained.
#[derive(Debug, Clone, PartialEq, Eq)]
pub struct CgroupNamespace {
    raw: Located<String>,
    kind: CgroupNamespaceKind,
}

/// The semantic family of a cgroup namespace value.
#[derive(Debug, Clone, PartialEq, Eq)]
#[non_exhaustive]
pub enum CgroupNamespaceKind {
    /// The host cgroup namespace.
    Host,
    /// A private cgroup namespace.
    Private,
    /// A value containing a dollar marker and therefore deferred to interpolation.
    Expression(String),
    /// Another resolved value.
    Other(String),
}

impl CgroupNamespace {
    /// The authored scalar.
    pub closed spec fn spec_raw(&self) -> Located<String> {
        self.raw
    }

    /// The classification.
    pub closed spec fn spec_kind(&self) -> CgroupNamespaceKind {
        self.kind
    }

    /// Classifies a cgroup namespace value.
    pub fn parse(raw: Located<String>) -> (c: Self)
        ensures
            c.spec_raw() == raw,
            (c.spec_kind() is Host) <==> lc(raw) == "host"@,
            (c.spec_kind() is Private) <==> lc(raw) != "host"@ && lc(raw) == "private"@,
            c.spec_kind() matches CgroupNamespaceKind::Expression(v) ==> v@ == lc(raw),
            c.spec_kind() matches CgroupNamespaceKind::Other(v) ==> v@ == lc(raw),
            (c.spec_kind() is Expression) <==> lc(raw) != "host"@ && lc(raw) != "private"@ && lb(raw).contains(36),
    {
        let value = raw.value().as_str();
        let kind = if str_eq(value, "host") {
            CgroupNamespaceKind::Host
        } else if str_eq(value, "private") {
            CgroupNamespaceKind::Private
        } else if contains_byte(value, 36) {
            CgroupNamespaceKind::Expression(owned(value))
        } else {
            CgroupNamespaceKind::Other(owned(value))
        };
        Self { raw, kind }
    }

    /// Returns the authored scalar and its span.
    pub fn raw(&self) -> (r: &Located<String>)
        ensures
            *r == self.spec_raw(),
    {
        &self.raw
    }

    /// Returns the classification.
    pub fn kind(&self) -> (r: &CgroupNamespaceKind)
        ensures
            *r == self.spec_kind(),
    {
        &self.kind
    }

    /// Reports whether the value is documented or deferred.
    pub fn is_valid(&self) -> (r: bool)
        ensures
            r == !(self.spec_kind() is Other),
    {
        matches!(
            self.kind,
            CgroupNamespaceKind::Host | CgroupNamespaceKind::Private | CgroupNamespaceKind::Expression(_)
        )
    }
}

} // verus!
