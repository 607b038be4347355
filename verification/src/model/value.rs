//! Shared typed scalar values.

use super::Located;
use crate::source::SourceSpan;
use vstd::prelude::*;

verus! {

/// A typed YAML scalar with its authored spelling retained for numbers and strings.
#[derive(Debug, Clone, PartialEq, Eq)]
pub enum ComposeScalar {
    /// An explicit or implicit null.
    Null,
    /// A YAML boolean.
    Boolean(bool),
    /// A YAML integer or float, with its authored spelling.
    Number(String),
    /// A YAML string.
    String(String),
}

/// A boolean field value: a literal or a deferred interpolation expression.
#[derive(Debug, Clone, PartialEq, Eq)]
pub enum BooleanValue {
    /// A YAML boolean literal.
    Literal(bool),
    /// A string containing a dollar marker, deferred to interpolation.
    Expression(String),
}

/// One entry of a scalar-valued mapping.
#[derive(Debug, Clone, PartialEq, Eq)]
pub struct KeyValueEntry {
    name: Located<String>,
    value: Located<ComposeScalar>,
    span: SourceSpan,
}

impl KeyValueEntry {
    /// The entry key.
    pub closed spec fn spec_name(&self) -> Located<String> {
        self.name
    }

    /// The scalar value.
    pub closed spec fn spec_value(&self) -> Located<ComposeScalar> {
        self.value
    }

    /// The source span.
    pub closed spec fn spec_span(&self) -> SourceSpan {
        self.span
    }

    /// Creates a `KeyValueEntry`.
    pub fn new(name: Located<String>, value: Located<ComposeScalar>, span: SourceSpan) -> (r: Self)
        ensures
            r.spec_name() == name,
            r.spec_value() == value,
            r.spec_span() == span,
    {
        Self {
            name,
            value,
            span,
        }
    }

    /// Returns the entry key.
    pub fn name(&self) -> (r: &Located<String>)
        ensures
            *r == self.spec_name(),
    {
        &self.name
    }

    /// Returns the scalar value.
    pub fn value(&self) -> (r: &Located<ComposeScalar>)
        ensures
            *r == self.spec_value(),
    {
        &self.value
    }

    /// Returns the source span.
    pub fn span(&self) -> (r: SourceSpan)
        ensures
            r == self.spec_span(),
    {
        self.span
    }
}

/// A `labels` value in list or mapping form.
#[derive(Debug, Clone, PartialEq, Eq)]
pub enum Labels {
    /// A list of `key=value` strings.
    List {
        /// The list span.
        span: SourceSpan,
        /// The authored items.
        values: Vec<Located<String>>,
    },
    /// A mapping of label names to scalars.
    Mapping {
        /// The mapping span.
        span: SourceSpan,
        /// The entries in authored order.
        entries: Vec<KeyValueEntry>,
    },
}

} // verus!
