//! Source-aware service annotation declarations.

use super::value::{ComposeScalar, KeyValueEntry};
use super::Located;
use crate::source::SourceSpan;
use vstd::prelude::*;

verus! {

/// The authored form of service annotations.
#[derive(Debug, Clone, PartialEq, Eq)]
#[non_exhaustive]
pub enum AnnotationsForm {
    /// A mapping of names to scalars.
    Mapping(Vec<KeyValueEntry>),
    /// A list of scalars.
    List(Vec<Located<ComposeScalar>>),
}

/// A service `annotations` declaration.
#[derive(Debug, Clone, PartialEq, Eq)]
pub struct Annotations {
    span: SourceSpan,
    form: AnnotationsForm,
}

impl Annotations {
    /// The source span.
    pub closed spec fn spec_span(&self) -> SourceSpan {
        self.span
    }

    /// The authored form.
    pub closed spec fn spec_form(&self) -> AnnotationsForm {
        self.form
    }

    /// Creates a `Annotations`.
    pub fn new(span: SourceSpan, form: AnnotationsForm) -> (r: Self)
        ensures
            r.spec_span() == span,
            r.spec_form() == form,
    {
        Self {
            span,
            form,
        }
    }

    /// Returns the source span.
    pub fn span(&self) -> (r: SourceSpan)
        ensures
            r == self.spec_span(),
    {
        self.span
    }

    /// Returns the authored form.
    pub fn form(&self) -> (r: &AnnotationsForm)
        ensures
            *r == self.spec_form(),
    {
        &self.form
    }
}

} // verus!
