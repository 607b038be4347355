//! Service command forms.

use super::Located;
use crate::source::SourceSpan;
use vstd::prelude::*;

verus! {

/// A service `command` in one of its authored forms.
#[derive(Debug, Clone, PartialEq, Eq)]
pub enum Command {
    /// An explicit null.
    Null(SourceSpan),
    /// A shell-form string.
    String(Located<String>),
    /// An exec-form list.
    List {
        /// The list span.
        span: SourceSpan,
        /// The list items.
        values: Vec<Located<String>>,
    },
}

impl Command {
    /// The span of the authored value.
    pub open spec fn spec_span(&self) -> SourceSpan {
        match self {
            Command::Null(span) => *span,
            Command::String(value) => value.spec_span(),
            Command::List { span, .. } => *span,
        }
    }

    /// Returns the span of the authored value.
    pub fn span(&self) -> (r: SourceSpan)
        ensures
            r == self.spec_span(),
    {
        match self {
            Command::Null(span) => *span,
            Command::String(value) => value.span(),
            Command::List { span, .. } => *span,
        }
    }
}

} // verus!
