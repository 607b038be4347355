//! Source-aware raw service `extends` directive.

use super::{FieldReference, Located};
use crate::source::SourceSpan;
use vstd::prelude::*;

verus! {

/// A service `extends` directive in short or long form.
#[derive(Debug, Clone, PartialEq, Eq)]
#[non_exhaustive]
pub enum Extends {
    /// The name of a service in the same file.
    Short(Located<String>),
    /// A mapping naming a service and optionally a file.
    Long(ExtendsReference),
}

/// The long form of an `extends` directive.
#[derive(Debug, Clone, PartialEq, Eq)]
pub struct ExtendsReference {
    span: SourceSpan,
    service: Option<Located<String>>,
    file: Option<Located<String>>,
    extension_fields: Vec<FieldReference>,
    unknown_fields: Vec<FieldReference>,
}

impl ExtendsReference {
    /// The source span.
    pub closed spec fn spec_span(&self) -> SourceSpan {
        self.span
    }

    /// The `service` field.
    pub closed spec fn spec_service(&self) -> Option<Located<String>> {
        self.service
    }

    /// The `file` field.
    pub closed spec fn spec_file(&self) -> Option<Located<String>> {
        self.file
    }

    /// The `x-` extension fields in source order.
    pub closed spec fn spec_extension_fields(&self) -> Seq<FieldReference> {
        self.extension_fields@
    }

    /// The unknown fields in source order.
    pub closed spec fn spec_unknown_fields(&self) -> Seq<FieldReference> {
        self.unknown_fields@
    }

    /// Creates a `ExtendsReference` with no optional fields set.
    pub fn new(span: SourceSpan) -> (r: Self)
        ensures
            r.spec_span() == span,
            r.spec_service() is None,
            r.spec_file() is None,
            r.spec_extension_fields().len() == 0,
            r.spec_unknown_fields().len() == 0,
    {
        Self {
            span,
            service: None,
            file: None,
            extension_fields: Vec::new(),
            unknown_fields: Vec::new(),
        }
    }

    /// Sets the `service` field.
    pub fn set_service(&mut self, value: Located<String>)
        ensures
            final(self).spec_service() == Some(value),
            final(self).spec_span() == old(self).spec_span(),
            final(self).spec_file() == old(self).spec_file(),
            final(self).spec_extension_fields() == old(self).spec_extension_fields(),
            final(self).spec_unknown_fields() == old(self).spec_unknown_fields(),
    {
        self.service = Some(value);
    }

    /// Sets the `file` field.
    pub fn set_file(&mut self, value: Located<String>)
        ensures
            final(self).spec_file() == Some(value),
            final(self).spec_span() == old(self).spec_span(),
            final(self).spec_service() == old(self).spec_service(),
            final(self).spec_extension_fields() == old(self).spec_extension_fields(),
            final(self).spec_unknown_fields() == old(self).spec_unknown_fields(),
    {
        self.file = Some(value);
    }

    /// Appends to the `extension_fields` list.
    pub fn push_extension(&mut self, value: FieldReference)
        ensures
            final(self).spec_extension_fields() == old(self).spec_extension_fields().push(value),
            final(self).spec_span() == old(self).spec_span(),
            final(self).spec_service() == old(self).spec_service(),
            final(self).spec_file() == old(self).spec_file(),
            final(self).spec_unknown_fields() == old(self).spec_unknown_fields(),
    {
        self.extension_fields.push(value);
    }

    /// Appends to the `unknown_fields` list.
    pub fn push_unknown(&mut self, value: FieldReference)
        ensures
            final(self).spec_unknown_fields() == old(self).spec_unknown_fields().push(value),
            final(self).spec_span() == old(self).spec_span(),
            final(self).spec_service() == old(self).spec_service(),
            final(self).spec_file() == old(self).spec_file(),
            final(self).spec_extension_fields() == old(self).spec_extension_fields(),
    {
        self.unknown_fields.push(value);
    }

    /// Returns the source span.
    pub fn span(&self) -> (r: SourceSpan)
        ensures
            r == self.spec_span(),
    {
        self.span
    }

    /// Returns the `service` field.
    pub fn service(&self) -> (r: Option<&Located<String>>)
        ensures
            r is Some <==> self.spec_service() is Some,
            r matches Some(v) ==> *v == self.spec_service()->0,
    {
        self.service.as_ref()
    }

    /// Returns the `file` field.
    pub fn file(&self) -> (r: Option<&Located<String>>)
        ensures
            r is Some <==> self.spec_file() is Some,
            r matches Some(v) ==> *v == self.spec_file()->0,
    {
        self.file.as_ref()
    }

    /// Returns the `x-` extension fields in source order.
    pub fn extension_fields(&self) -> (r: &[FieldReference])
        ensures
            r@ == self.spec_extension_fields(),
    {
        self.extension_fields.as_slice()
    }

    /// Returns the unknown fields in source order.
    pub fn unknown_fields(&self) -> (r: &[FieldReference])
        ensures
            r@ == self.spec_unknown_fields(),
    {
        self.unknown_fields.as_slice()
    }
}

} // verus!
