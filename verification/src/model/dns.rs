//! Raw-preserving service DNS server declarations.

use super::Located;
use crate::source::SourceSpan;
use vstd::prelude::*;

verus! {

/// The authored form of a service DNS server declaration.
#[derive(Debug, Clone, PartialEq, Eq)]
#[non_exhaustive]
pub enum DnsForm {
    /// A single scalar.
    Scalar(Located<String>),
    /// A list of scalars.
    List(Vec<Located<String>>),
}

/// A service DNS server declaration.
#[derive(Debug, Clone, PartialEq, Eq)]
pub struct Dns {
    span: SourceSpan,
    form: DnsForm,
}

impl Dns {
    /// The declaration span.
    pub closed spec fn spec_span(&self) -> SourceSpan {
        self.span
    }

    /// The authored form.
    pub closed spec fn spec_form(&self) -> DnsForm {
        self.form
    }

    /// Creates a declaration.
    pub fn new(span: SourceSpan, form: DnsForm) -> (r: Self)
        ensures
            r.spec_span() == span,
            r.spec_form() == form,
    {
        Self { span, form }
    }

    /// Returns the declaration span.
    pub fn span(&self) -> (r: SourceSpan)
        ensures
            r == self.spec_span(),
    {
        self.span
    }

    /// Returns the authored form.
    pub fn form(&self) -> (r: &DnsForm)
        ensures
            *r == self.spec_form(),
    {
        &self.form
    }
}

} // verus!
