//! Raw-preserving service capability declarations.

use super::Located;
use crate::source::SourceSpan;
use crate::text::{contains_whitespace, is_empty, is_whitespace};
use vstd::prelude::*;

verus! {

/// A capability name is an exact candidate: non-empty and free of whitespace.
pub open spec fn exact_candidate(c: Seq<char>) -> bool {
    c.len() > 0 && forall|i: int| 0 <= i < c.len() ==> !is_whitespace(#[trigger] c[i])
}

/// Reports whether a capability value is an exact candidate.
pub fn is_exact_candidate(value: &str) -> (r: bool)
    ensures
        r == exact_candidate(value@),
{
    !is_empty(value) && !contains_whitespace(value)
}

/// One `cap_add` item with its authored scalar retained.
#[derive(Debug, Clone, PartialEq, Eq)]
pub struct CapabilityAddItem {
    raw: Located<String>,
}

impl CapabilityAddItem {
    /// The authored scalar.
    pub closed spec fn spec_raw(&self) -> Located<String> {
        self.raw
    }

    /// Creates a `CapabilityAddItem`.
    pub fn new(raw: Located<String>) -> (r: Self)
        ensures
            r.spec_raw() == raw,
    {
        Self {
            raw,
        }
    }

    /// Returns the authored capability name.
    pub fn value(&self) -> (r: &str)
        ensures
            r@ == self.spec_raw().spec_value()@,
    {
        self.raw.value().as_str()
    }

    /// Returns the item span.
    pub fn span(&self) -> (r: SourceSpan)
        ensures
            r == self.spec_raw().spec_span(),
    {
        self.raw.span()
    }

    /// Reports whether the item is non-empty and free of whitespace.
    pub fn is_exact_candidate(&self) -> (r: bool)
        ensures
            r == exact_candidate(self.spec_raw().spec_value()@),
    {
        is_exact_candidate(self.value())
    }
}

/// A service `cap_add` list.
#[derive(Debug, Clone, PartialEq, Eq)]
pub struct CapabilityAdd {
    span: SourceSpan,
    items: Vec<CapabilityAddItem>,
}

impl CapabilityAdd {
    /// The source span.
    pub closed spec fn spec_span(&self) -> SourceSpan {
        self.span
    }

    /// The items in authored order.
    pub closed spec fn spec_items(&self) -> Seq<CapabilityAddItem> {
        self.items@
    }

    /// Creates a `CapabilityAdd`.
    pub fn new(span: SourceSpan, items: Vec<CapabilityAddItem>) -> (r: Self)
        ensures
            r.spec_span() == span,
            r.spec_items() == items@,
    {
        Self {
            span,
            items,
        }
    }

    /// Returns the source span.
    pub fn span(&self) -> (r: SourceSpan)
        ensures
            r == self.spec_span(),
    {
        self.span
    }

    /// Returns the items in authored order.
    pub fn items(&self) -> (r: &[CapabilityAddItem])
        ensures
            r@ == self.spec_items(),
    {
        self.items.as_slice()
    }
}

/// One `cap_drop` item with its authored scalar retained.
#[derive(Debug, Clone, PartialEq, Eq)]
pub struct CapabilityDropItem {
    raw: Located<String>,
}

impl CapabilityDropItem {
    /// The authored scalar.
    pub closed spec fn spec_raw(&self) -> Located<String> {
        self.raw
    }

    /// Creates a `CapabilityDropItem`.
    pub fn new(raw: Located<String>) -> (r: Self)
        ensures
            r.spec_raw() == raw,
    {
        Self {
            raw,
        }
    }

    /// Returns the authored capability name.
    pub fn value(&self) -> (r: &str)
        ensures
            r@ == self.spec_raw().spec_value()@,
    {
        self.raw.value().as_str()
    }

    /// Returns the item span.
    pub fn span(&self) -> (r: SourceSpan)
        ensures
            r == self.spec_raw().spec_span(),
    {
        self.raw.span()
    }

    /// Reports whether the item is non-empty and free of whitespace.
    pub fn is_exact_candidate(&self) -> (r: bool)
        ensures
            r == exact_candidate(self.spec_raw().spec_value()@),
    {
        is_exact_candidate(self.value())
    }
}

/// A service `cap_drop` list.
#[derive(Debug, Clone, PartialEq, Eq)]
pub struct CapabilityDrop {
    span: SourceSpan,
    items: Vec<CapabilityDropItem>,
}

impl CapabilityDrop {
    /// The source span.
    pub closed spec fn spec_span(&self) -> SourceSpan {
        self.span
    }

    /// The items in authored order.
    pub closed spec fn spec_items(&self) -> Seq<CapabilityDropItem> {
        self.items@
    }

    /// Creates a `CapabilityDrop`.
    pub fn new(span: SourceSpan, items: Vec<CapabilityDropItem>) -> (r: Self)
        ensures
            r.spec_span() == span,
            r.spec_items() == items@,
    {
        Self {
            span,
            items,
        }
    }

    /// Returns the source span.
    pub fn span(&self) -> (r: SourceSpan)
        ensures
            r == self.spec_span(),
    {
        self.span
    }

    /// Returns the items in authored order.
    pub fn items(&self) -> (r: &[CapabilityDropItem])
        ensures
            r@ == self.spec_items(),
    {
        self.items.as_slice()
    }
}

} // verus!
