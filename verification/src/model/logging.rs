//! Source-aware service logging configuration.

use super::{FieldReference, Located};
use crate::source::SourceSpan;
use vstd::prelude::*;

verus! {

/// The value of one logging option.
#[derive(Debug, Clone, PartialEq, Eq)]
#[non_exhaustive]
pub enum LoggingOptionValue {
    /// A string scalar.
    String(String),
    /// A numeric scalar, with its authored spelling.
    Number(String),
    /// An explicit null.
    Null,
}

/// One `logging.options` entry.
#[derive(Debug, Clone, PartialEq, Eq)]
pub struct LoggingOption {
    name: Located<String>,
    value: Located<LoggingOptionValue>,
    span: SourceSpan,
}

impl LoggingOption {
    /// The option name.
    pub closed spec fn spec_name(&self) -> Located<String> {
        self.name
    }

    /// The option value.
    pub closed spec fn spec_value(&self) -> Located<LoggingOptionValue> {
        self.value
    }

    /// The source span.
    pub closed spec fn spec_span(&self) -> SourceSpan {
        self.span
    }

    /// Creates a `LoggingOption`.
    pub fn new(name: Located<String>, value: Located<LoggingOptionValue>, span: SourceSpan) -> (r: Self)
        ensures
            r.spec_name() == name,
            r.spec_value() == value,
            r.spec_span() == span,
    {
        Self {
            name,
            value,
            span,
        }
    }

    /// Returns the option name.
    pub fn name(&self) -> (r: &Located<String>)
        ensures
            *r == self.spec_name(),
    {
        &self.name
    }

    /// Returns the option value.
    pub fn value(&self) -> (r: &Located<LoggingOptionValue>)
        ensures
            *r == self.spec_value(),
    {
        &self.value
    }

    /// Returns the source span.
    pub fn span(&self) -> (r: SourceSpan)
        ensures
            r == self.spec_span(),
    {
        self.span
    }
}

/// A `logging.options` mapping.
#[derive(Debug, Clone, PartialEq, Eq)]
pub struct LoggingOptions {
    span: SourceSpan,
    entries: Vec<LoggingOption>,
    unmodeled_entries: Vec<FieldReference>,
}

impl LoggingOptions {
    /// The source span.
    pub closed spec fn spec_span(&self) -> SourceSpan {
        self.span
    }

    /// The modeled entries in authored order.
    pub closed spec fn spec_entries(&self) -> Seq<LoggingOption> {
        self.entries@
    }

    /// Entries whose values are not scalars.
    pub closed spec fn spec_unmodeled_entries(&self) -> Seq<FieldReference> {
        self.unmodeled_entries@
    }

    /// Creates a `LoggingOptions`.
    pub fn new(span: SourceSpan, entries: Vec<LoggingOption>, unmodeled_entries: Vec<FieldReference>) -> (r: Self)
        ensures
            r.spec_span() == span,
            r.spec_entries() == entries@,
            r.spec_unmodeled_entries() == unmodeled_entries@,
    {
        Self {
            span,
            entries,
            unmodeled_entries,
        }
    }

    /// Returns the source span.
    pub fn span(&self) -> (r: SourceSpan)
        ensures
            r == self.spec_span(),
    {
        self.span
    }

    /// Returns the modeled entries in authored order.
    pub fn entries(&self) -> (r: &[LoggingOption])
        ensures
            r@ == self.spec_entries(),
    {
        self.entries.as_slice()
    }

    /// Returns entries whose values are not scalars.
    pub fn unmodeled_entries(&self) -> (r: &[FieldReference])
        ensures
            r@ == self.spec_unmodeled_entries(),
    {
        self.unmodeled_entries.as_slice()
    }
}

/// A service `logging` mapping.
#[derive(Debug, Clone, PartialEq, Eq)]
pub struct Logging {
    span: SourceSpan,
    driver: Option<Located<String>>,
    options: Option<LoggingOptions>,
    extension_fields: Vec<FieldReference>,
    unknown_fields: Vec<FieldReference>,
}

impl Logging {
    /// The source span.
    pub closed spec fn spec_span(&self) -> SourceSpan {
        self.span
    }

    /// The `driver` field.
    pub closed spec fn spec_driver(&self) -> Option<Located<String>> {
        self.driver
    }

    /// The `options` field.
    pub closed spec fn spec_options(&self) -> Option<LoggingOptions> {
        self.options
    }

    /// The `x-` extension fields in source order.
    pub closed spec fn spec_extension_fields(&self) -> Seq<FieldReference> {
        self.extension_fields@
    }

    /// The unknown fields in source order.
    pub closed spec fn spec_unknown_fields(&self) -> Seq<FieldReference> {
        self.unknown_fields@
    }

    /// Creates a `Logging` with no optional fields set.
    pub fn new(span: SourceSpan) -> (r: Self)
        ensures
            r.spec_span() == span,
            r.spec_driver() is None,
            r.spec_options() is None,
            r.spec_extension_fields().len() == 0,
            r.spec_unknown_fields().len() == 0,
    {
        Self {
            span,
            driver: None,
            options: None,
            extension_fields: Vec::new(),
            unknown_fields: Vec::new(),
        }
    }

    /// Sets the `driver` field.
    pub fn set_driver(&mut self, value: Located<String>)
        ensures
            final(self).spec_driver() == Some(value),
            final(self).spec_span() == old(self).spec_span(),
            final(self).spec_options() == old(self).spec_options(),
            final(self).spec_extension_fields() == old(self).spec_extension_fields(),
            final(self).spec_unknown_fields() == old(self).spec_unknown_fields(),
    {
        self.driver = Some(value);
    }

    /// Sets the `options` field.
    pub fn set_options(&mut self, value: LoggingOptions)
        ensures
            final(self).spec_options() == Some(value),
            final(self).spec_span() == old(self).spec_span(),
            final(self).spec_driver() == old(self).spec_driver(),
            final(self).spec_extension_fields() == old(self).spec_extension_fields(),
            final(self).spec_unknown_fields() == old(self).spec_unknown_fields(),
    {
        self.options = Some(value);
    }

    /// Appends to the `extension_fields` list.
    pub fn push_extension(&mut self, value: FieldReference)
        ensures
            final(self).spec_extension_fields() == old(self).spec_extension_fields().push(value),
            final(self).spec_span() == old(self).spec_span(),
            final(self).spec_driver() == old(self).spec_driver(),
            final(self).spec_options() == old(self).spec_options(),
            final(self).spec_unknown_fields() == old(self).spec_unknown_fields(),
    {
        self.extension_fields.push(value);
    }

    /// Appends to the `unknown_fields` list.
    pub fn push_unknown(&mut self, value: FieldReference)
        ensures
            final(self).spec_unknown_fields() == old(self).spec_unknown_fields().push(value),
            final(self).spec_span() == old(self).spec_span(),
            final(self).spec_driver() == old(self).spec_driver(),
            final(self).spec_options() == old(self).spec_options(),
            final(self).spec_extension_fields() == old(self).spec_extension_fields(),
    {
        self.unknown_fields.push(value);
    }

    /// Returns the source span.
    pub fn span(&self) -> (r: SourceSpan)
        ensures
            r == self.spec_span(),
    {
        self.span
    }

    /// Returns the `driver` field.
    pub fn driver(&self) -> (r: Option<&Located<String>>)
        ensures
            r is Some <==> self.spec_driver() is Some,
            r matches Some(v) ==> *v == self.spec_driver()->0,
    {
        self.driver.as_ref()
    }

    /// Returns the `options` field.
    pub fn options(&self) -> (r: Option<&LoggingOptions>)
        ensures
            r is Some <==> self.spec_options() is Some,
            r matches Some(v) ==> *v == self.spec_options()->0,
    {
        self.options.as_ref()
    }

    /// Returns the `x-` extension fields in source order.
    pub fn extension_fields(&self) -> (r: &[FieldReference])
        ensures
            r@ == self.spec_extension_fields(),
    {
        self.extension_fields.as_slice()
    }

    /// Returns the unknown fields in source order.
    pub fn unknown_fields(&self) -> (r: &[FieldReference])
        ensures
            r@ == self.spec_unknown_fields(),
    {
        self.unknown_fields.as_slice()
    }
}

} // verus!
