//! Raw-preserving service hostnames.

use super::{lb, Located};
use crate::text::{bytes, contains_byte, find, is_alnum, sb, split_once};
use vstd::prelude::*;

verus! {

/// A service-level Compose `hostname` value with its authored string scalar retained.
#[derive(Debug, Clone, PartialEq, Eq)]
pub struct Hostname {
    raw: Located<String>,
    kind: HostnameKind,
}

/// The semantic family of a service-level Compose hostname.
#[derive(Debug, Clone, Copy, PartialEq, Eq, Structural)]
#[non_exhaustive]
pub enum HostnameKind {
    /// A resolved ASCII hostname satisfying the conservative RFC-1123 grammar.
    Resolved,
    /// A scalar containing a dollar marker and therefore deferred to interpolation.
    Expression,
    /// A resolved literal that does not satisfy the conservative hostname grammar.
    Invalid,
}

/// One hostname label: 1 to 63 ASCII letters, digits or `-`, starting and ending with a
/// letter or digit.
pub open spec fn label_ok(l: Seq<u8>) -> bool {
    &&& 1 <= l.len() <= 63
    &&& is_alnum(l[0])
    &&& is_alnum(l[l.len() - 1])
    &&& forall|i: int| 0 <= i < l.len() ==> is_alnum(#[trigger] l[i]) || l[i] == 45
}

/// Every `.`-separated label satisfies `label_ok`.
pub open spec fn labels_ok(b: Seq<u8>) -> bool
    decreases b.len(),
{
    let d = find(b, 46);
    if d == -1 {
        label_ok(b)
    } else {
        proof {
            crate::text::lemma_find(b, 46);
        }
        label_ok(b.subrange(0, d)) && labels_ok(b.subrange(d + 1, b.len() as int))
    }
}

/// The conservative ASCII RFC-1123 hostname grammar: 1 to 253 ASCII bytes made of
/// valid labels.
pub open spec fn hostname_ok(b: Seq<u8>) -> bool {
    &&& 1 <= b.len() <= 253
    &&& forall|i: int| 0 <= i < b.len() ==> #[trigger] b[i] < 128
    &&& labels_ok(b)
}

impl Hostname {
    /// The authored scalar.
    pub closed spec fn spec_raw(&self) -> Located<String> {
        self.raw
    }

    /// The classification.
    pub closed spec fn spec_kind(&self) -> HostnameKind {
        self.kind
    }

    /// Classifies a hostname: deferred when it holds `$`, resolved when it satisfies the
    /// grammar, and invalid otherwise.
    pub fn parse(raw: Located<String>) -> (h: Self)
        ensures
            h.spec_raw() == raw,
            h.spec_kind() == if lb(raw).contains(36) {
                HostnameKind::Expression
            } else if hostname_ok(lb(raw)) {
                HostnameKind::Resolved
            } else {
                HostnameKind::Invalid
            },
    {
        let kind = if contains_byte(raw.value().as_str(), 36) {
            HostnameKind::Expression
        } else if valid_hostname(raw.value().as_str()) {
            HostnameKind::Resolved
        } else {
            HostnameKind::Invalid
        };
        Self { raw, kind }
    }

    /// Returns the complete authored scalar value and its source span.
    pub fn raw(&self) -> (r: &Located<String>)
        ensures
            *r == self.spec_raw(),
    {
        &self.raw
    }

    /// Returns the conservative, non-destructive hostname classification.
    pub fn kind(&self) -> (r: &HostnameKind)
        ensures
            *r == self.spec_kind(),
    {
        &self.kind
    }

    /// Reports whether the hostname is a resolved RFC-1123 literal.
    pub fn is_resolved(&self) -> (r: bool)
        ensures
            r == (self.spec_kind() == HostnameKind::Resolved),
    {
        matches!(self.kind, HostnameKind::Resolved)
    }
}

/// Reports whether one label satisfies `label_ok`.
pub fn valid_label(label: &str) -> (r: bool)
    ensures
        r == label_ok(sb(label@)),
{
    let b = bytes(label);
    if b.len() < 1 || b.len() > 63 {
        return false;
    }
    let first = b[0];
    let last = b[b.len() - 1];
    if !(is_alnum_byte(first) && is_alnum_byte(last)) {
        return false;
    }
    let mut i: usize = 0;
    while i < b.len()
        invariant
            b@ == sb(label@),
            0 <= i <= b.len(),
            forall|j: int| 0 <= j < i ==> is_alnum(#[trigger] b@[j]) || b@[j] == 45,
        decreases b.len() - i,
    {
        if !(is_alnum_byte(b[i]) || b[i] == 45) {
            return false;
        }
        i += 1;
    }
    true
}

/// Reports whether a byte is an ASCII letter or digit.
pub fn is_alnum_byte(c: u8) -> (r: bool)
    ensures
        r == is_alnum(c),
{
    (c >= 48 && c <= 57) || (c >= 65 && c <= 90) || (c >= 97 && c <= 122)
}

/// Reports whether a value satisfies the conservative ASCII RFC-1123 hostname grammar.
#[verifier::loop_isolation(false)]
pub fn valid_hostname(value: &str) -> (r: bool)
    ensures
        r == hostname_ok(sb(value@)),
{
    let b = bytes(value);
    if b.len() < 1 || b.len() > 253 {
        return false;
    }
    let mut i: usize = 0;
    while i < b.len()
        invariant
            b@ == sb(value@),
            0 <= i <= b.len(),
            forall|j: int| 0 <= j < i ==> #[trigger] b@[j] < 128,
        decreases b.len() - i,
    {
        if b[i] >= 128 {
            return false;
        }
        i += 1;
    }
    let mut rest = value;
    loop
        invariant
            labels_ok(sb(value@)) == labels_ok(sb(rest@)),
        decreases sb(rest@).len(),
    {
        proof {
            crate::text::lemma_find(sb(rest@), 46);
        }
        match split_once(rest, 46) {
            Some((label, tail)) => {
                if !valid_label(label) {
                    return false;
                }
                rest = tail;
            },
            None => {
                return valid_label(rest);
            },
        }
    }
}

} // verus!
