//! Source-aware service provider configuration.

use super::value::ComposeScalar;
use super::{FieldReference, Located};
use crate::source::SourceSpan;
use vstd::prelude::*;

verus! {

/// The value of one provider option.
#[derive(Debug, Clone, PartialEq, Eq)]
#[non_exhaustive]
pub enum ProviderOptionValue {
    /// A scalar.
    Scalar(Located<ComposeScalar>),
    /// A sequence of items.
    Sequence {
        /// The sequence span.
        span: SourceSpan,
        /// The items in authored order.
        items: Vec<ProviderOptionItem>,
    },
}

impl ProviderOptionValue {
    /// The span of the authored value.
    pub open spec fn spec_span(&self) -> SourceSpan {
        match self {
            ProviderOptionValue::Scalar(value) => value.spec_span(),
            ProviderOptionValue::Sequence { span, .. } => *span,
        }
    }

    /// Returns the span of the authored value.
    pub fn span(&self) -> (r: SourceSpan)
        ensures
            r == self.spec_span(),
    {
        match self {
            ProviderOptionValue::Scalar(value) => value.span(),
            ProviderOptionValue::Sequence { span, .. } => *span,
        }
    }
}

/// One item of a provider option sequence.
#[derive(Debug, Clone, PartialEq, Eq)]
#[non_exhaustive]
pub enum ProviderOptionItem {
    /// A scalar item.
    Scalar(Located<ComposeScalar>),
    /// A non-scalar item that is not modeled.
    Unmodeled {
        /// The item span.
        span: SourceSpan,
    },
}

impl ProviderOptionItem {
    /// The span of the authored item.
    pub open spec fn spec_span(&self) -> SourceSpan {
        match self {
            ProviderOptionItem::Scalar(value) => value.spec_span(),
            ProviderOptionItem::Unmodeled { span } => *span,
        }
    }

    /// Returns the span of the authored item.
    pub fn span(&self) -> (r: SourceSpan)
        ensures
            r == self.spec_span(),
    {
        match self {
            ProviderOptionItem::Scalar(value) => value.span(),
            ProviderOptionItem::Unmodeled { span } => *span,
        }
    }
}

/// One `provider.options` entry.
#[derive(Debug, Clone, PartialEq, Eq)]
pub struct ProviderOption {
    name: Located<String>,
    value: ProviderOptionValue,
    span: SourceSpan,
}

impl ProviderOption {
    /// The option name.
    pub closed spec fn spec_name(&self) -> Located<String> {
        self.name
    }

    /// The option value.
    pub closed spec fn spec_value(&self) -> ProviderOptionValue {
        self.value
    }

    /// The source span.
    pub closed spec fn spec_span(&self) -> SourceSpan {
        self.span
    }

    /// Creates a `ProviderOption`.
    pub fn new(name: Located<String>, value: ProviderOptionValue, span: SourceSpan) -> (r: Self)
        ensures
            r.spec_name() == name,
            r.spec_value() == value,
            r.spec_span() == span,
    {
        Self {
            name,
            value,
            span,
        }
    }

    /// Returns the option name.
    pub fn name(&self) -> (r: &Located<String>)
        ensures
            *r == self.spec_name(),
    {
        &self.name
    }

    /// Returns the option value.
    pub fn value(&self) -> (r: &ProviderOptionValue)
        ensures
            *r == self.spec_value(),
    {
        &self.value
    }

    /// Returns the source span.
    pub fn span(&self) -> (r: SourceSpan)
        ensures
            r == self.spec_span(),
    {
        self.span
    }
}

/// A `provider.options` mapping.
#[derive(Debug, Clone, PartialEq, Eq)]
pub struct ProviderOptions {
    span: SourceSpan,
    entries: Vec<ProviderOption>,
    unmodeled_entries: Vec<FieldReference>,
}

impl ProviderOptions {
    /// The source span.
    pub closed spec fn spec_span(&self) -> SourceSpan {
        self.span
    }

    /// The modeled entries in authored order.
    pub closed spec fn spec_entries(&self) -> Seq<ProviderOption> {
        self.entries@
    }

    /// Entries that are not modeled.
    pub closed spec fn spec_unmodeled_entries(&self) -> Seq<FieldReference> {
        self.unmodeled_entries@
    }

    /// Creates a `ProviderOptions`.
    pub fn new(span: SourceSpan, entries: Vec<ProviderOption>, unmodeled_entries: Vec<FieldReference>) -> (r: Self)
        ensures
            r.spec_span() == span,
            r.spec_entries() == entries@,
            r.spec_unmodeled_entries() == unmodeled_entries@,
    {
        Self {
            span,
            entries,
            unmodeled_entries,
        }
    }

    /// Returns the source span.
    pub fn span(&self) -> (r: SourceSpan)
        ensures
            r == self.spec_span(),
    {
        self.span
    }

    /// Returns the modeled entries in authored order.
    pub fn entries(&self) -> (r: &[ProviderOption])
        ensures
            r@ == self.spec_entries(),
    {
        self.entries.as_slice()
    }

    /// Returns entries that are not modeled.
    pub fn unmodeled_entries(&self) -> (r: &[FieldReference])
        ensures
            r@ == self.spec_unmodeled_entries(),
    {
        self.unmodeled_entries.as_slice()
    }
}

/// A service `provider` mapping.
#[derive(Debug, Clone, PartialEq, Eq)]
pub struct Provider {
    span: SourceSpan,
    type_: Option<Located<String>>,
    options: Option<ProviderOptions>,
    extension_fields: Vec<FieldReference>,
    unknown_fields: Vec<FieldReference>,
}

impl Provider {
    /// The source span.
    pub closed spec fn spec_span(&self) -> SourceSpan {
        self.span
    }

    /// The `type` field.
    pub closed spec fn spec_type(&self) -> Option<Located<String>> {
        self.type_
    }

    /// The `options` field.
    pub closed spec fn spec_options(&self) -> Option<ProviderOptions> {
        self.options
    }

    /// The `x-` extension fields in source order.
    pub closed spec fn spec_extension_fields(&self) -> Seq<FieldReference> {
        self.extension_fields@
    }

    /// The unknown fields in source order.
    pub closed spec fn spec_unknown_fields(&self) -> Seq<FieldReference> {
        self.unknown_fields@
    }

    /// Creates a `Provider` with no optional fields set.
    pub fn new(span: SourceSpan) -> (r: Self)
        ensures
            r.spec_span() == span,
            r.spec_type() is None,
            r.spec_options() is None,
            r.spec_extension_fields().len() == 0,
            r.spec_unknown_fields().len() == 0,
    {
        Self {
            span,
            type_: None,
            options: None,
            extension_fields: Vec::new(),
            unknown_fields: Vec::new(),
        }
    }

    /// Sets the `type` field.
    pub fn set_type(&mut self, value: Located<String>)
        ensures
            final(self).spec_type() == Some(value),
            final(self).spec_span() == old(self).spec_span(),
            final(self).spec_options() == old(self).spec_options(),
            final(self).spec_extension_fields() == old(self).spec_extension_fields(),
            final(self).spec_unknown_fields() == old(self).spec_unknown_fields(),
    {
        self.type_ = Some(value);
    }

    /// Sets the `options` field.
    pub fn set_options(&mut self, value: ProviderOptions)
        ensures
            final(self).spec_options() == Some(value),
            final(self).spec_span() == old(self).spec_span(),
            final(self).spec_type() == old(self).spec_type(),
            final(self).spec_extension_fields() == old(self).spec_extension_fields(),
            final(self).spec_unknown_fields() == old(self).spec_unknown_fields(),
    {
        self.options = Some(value);
    }

    /// Appends to the `extension_fields` list.
    pub fn push_extension(&mut self, value: FieldReference)
        ensures
            final(self).spec_extension_fields() == old(self).spec_extension_fields().push(value),
            final(self).spec_span() == old(self).spec_span(),
            final(self).spec_type() == old(self).spec_type(),
            final(self).spec_options() == old(self).spec_options(),
            final(self).spec_unknown_fields() == old(self).spec_unknown_fields(),
    {
        self.extension_fields.push(value);
    }

    /// Appends to the `unknown_fields` list.
    pub fn push_unknown(&mut self, value: FieldReference)
        ensures
            final(self).spec_unknown_fields() == old(self).spec_unknown_fields().push(value),
            final(self).spec_span() == old(self).spec_span(),
            final(self).spec_type() == old(self).spec_type(),
            final(self).spec_options() == old(self).spec_options(),
            final(self).spec_extension_fields() == old(self).spec_extension_fields(),
    {
        self.unknown_fields.push(value);
    }

    /// Returns the source span.
    pub fn span(&self) -> (r: SourceSpan)
        ensures
            r == self.spec_span(),
    {
        self.span
    }

    /// Returns the `type` field.
    pub fn type_(&self) -> (r: Option<&Located<String>>)
        ensures
            r is Some <==> self.spec_type() is Some,
            r matches Some(v) ==> *v == self.spec_type()->0,
    {
        self.type_.as_ref()
    }

    /// Returns the `options` field.
    pub fn options(&self) -> (r: Option<&ProviderOptions>)
        ensures
            r is Some <==> self.spec_options() is Some,
            r matches Some(v) ==> *v == self.spec_options()->0,
    {
        self.options.as_ref()
    }

    /// Returns the `x-` extension fields in source order.
    pub fn extension_fields(&self) -> (r: &[FieldReference])
        ensures
            r@ == self.spec_extension_fields(),
    {
        self.extension_fields.as_slice()
    }

    /// Returns the unknown fields in source order.
    pub fn unknown_fields(&self) -> (r: &[FieldReference])
        ensures
            r@ == self.spec_unknown_fields(),
    {
        self.unknown_fields.as_slice()
    }
}

} // verus!
