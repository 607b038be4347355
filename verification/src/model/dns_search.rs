//! Raw-preserving service DNS search-domain declarations.

use super::Located;
use crate::source::SourceSpan;
use vstd::prelude::*;

verus! {

/// The authored form of a service DNS search-domain declaration.
#[derive(Debug, Clone, PartialEq, Eq)]
#[non_exhaustive]
pub enum DnsSearchForm {
    /// A single scalar.
    Scalar(Located<String>),
    /// A list of scalars.
    List(Vec<Located<String>>),
}

/// A service DNS search-domain declaration.
#[derive(Debug, Clone, PartialEq, Eq)]
pub struct DnsSearch {
    span: SourceSpan,
    form: DnsSearchForm,
}

impl DnsSearch {
    /// The declaration span.
    pub closed spec fn spec_span(&self) -> SourceSpan {
        self.span
    }

    /// The authored form.
    pub closed spec fn spec_form(&self) -> DnsSearchForm {
        self.form
    }

    /// Creates a declaration.
    pub fn new(span: SourceSpan, form: DnsSearchForm) -> (r: Self)
        ensures
            r.spec_span() == span,
            r.spec_form() == form,
    {
        Self { span, form }
    }

    /// Returns the declaration span.
    pub fn span(&self) -> (r: SourceSpan)
        ensures
            r == self.spec_span(),
    {
        self.span
    }

    /// Returns the authored form.
    pub fn form(&self) -> (r: &DnsSearchForm)
        ensures
            *r == self.spec_form(),
    {
        &self.form
    }
}

} // verus!
