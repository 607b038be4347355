//! Raw-preserving service DNS resolver options.

use super::Located;
use crate::source::SourceSpan;
use vstd::prelude::*;

verus! {

/// A service `dns_opt` list.
#[derive(Debug, Clone, PartialEq, Eq)]
pub struct DnsOptions {
    span: SourceSpan,
    items: Vec<Located<String>>,
}

impl DnsOptions {
    /// The list span.
    pub closed spec fn spec_span(&self) -> SourceSpan {
        self.span
    }

    /// The options in authored order.
    pub closed spec fn spec_items(&self) -> Seq<Located<String>> {
        self.items@
    }

    /// Creates an option list.
    pub fn new(span: SourceSpan, items: Vec<Located<String>>) -> (r: Self)
        ensures
            r.spec_span() == span,
            r.spec_items() == items@,
    {
        Self { span, items }
    }

    /// Returns the list span.
    pub fn span(&self) -> (r: SourceSpan)
        ensures
            r == self.spec_span(),
    {
        self.span
    }

    /// Returns the options in authored order.
    pub fn items(&self) -> (r: &[Located<String>])
        ensures
            r@ == self.spec_items(),
    {
        self.items.as_slice()
    }
}

} // verus!
