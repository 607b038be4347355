//! Source-aware service credential-spec configuration.

use super::{FieldReference, Located};
use crate::source::SourceSpan;
use vstd::prelude::*;

verus! {

/// A service `credential_spec` mapping.
#[derive(Debug, Clone, PartialEq, Eq)]
pub struct CredentialSpec {
    span: SourceSpan,
    config: Option<Located<String>>,
    file: Option<Located<String>>,
    registry: Option<Located<String>>,
    extension_fields: Vec<FieldReference>,
    unknown_fields: Vec<FieldReference>,
}

impl CredentialSpec {
    /// The source span.
    pub closed spec fn spec_span(&self) -> SourceSpan {
        self.span
    }

    /// The `config` field.
    pub closed spec fn spec_config(&self) -> Option<Located<String>> {
        self.config
    }

    /// The `file` field.
    pub closed spec fn spec_file(&self) -> Option<Located<String>> {
        self.file
    }

    /// The `registry` field.
    pub closed spec fn spec_registry(&self) -> Option<Located<String>> {
        self.registry
    }

    /// The `x-` extension fields in source order.
    pub closed spec fn spec_extension_fields(&self) -> Seq<FieldReference> {
        self.extension_fields@
    }

    /// The unknown fields in source order.
    pub closed spec fn spec_unknown_fields(&self) -> Seq<FieldReference> {
        self.unknown_fields@
    }

    /// Creates a `CredentialSpec` with no optional fields set.
    pub fn new(span: SourceSpan) -> (r: Self)
        ensures
            r.spec_span() == span,
            r.spec_config() is None,
            r.spec_file() is None,
            r.spec_registry() is None,
            r.spec_extension_fields().len() == 0,
            r.spec_unknown_fields().len() == 0,
    {
        Self {
            span,
            config: None,
            file: None,
            registry: None,
            extension_fields: Vec::new(),
            unknown_fields: Vec::new(),
        }
    }

    /// Sets the `config` field.
    pub fn set_config(&mut self, value: Located<String>)
        ensures
            final(self).spec_config() == Some(value),
            final(self).spec_span() == old(self).spec_span(),
            final(self).spec_file() == old(self).spec_file(),
            final(self).spec_registry() == old(self).spec_registry(),
            final(self).spec_extension_fields() == old(self).spec_extension_fields(),
            final(self).spec_unknown_fields() == old(self).spec_unknown_fields(),
    {
        self.config = Some(value);
    }

    /// Sets the `file` field.
    pub fn set_file(&mut self, value: Located<String>)
        ensures
            final(self).spec_file() == Some(value),
            final(self).spec_span() == old(self).spec_span(),
            final(self).spec_config() == old(self).spec_config(),
            final(self).spec_registry() == old(self).spec_registry(),
            final(self).spec_extension_fields() == old(self).spec_extension_fields(),
            final(self).spec_unknown_fields() == old(self).spec_unknown_fields(),
    {
        self.file = Some(value);
    }

    /// Sets the `registry` field.
    pub fn set_registry(&mut self, value: Located<String>)
        ensures
            final(self).spec_registry() == Some(value),
            final(self).spec_span() == old(self).spec_span(),
            final(self).spec_config() == old(self).spec_config(),
            final(self).spec_file() == old(self).spec_file(),
            final(self).spec_extension_fields() == old(self).spec_extension_fields(),
            final(self).spec_unknown_fields() == old(self).spec_unknown_fields(),
    {
        self.registry = Some(value);
    }

    /// Appends to the `extension_fields` list.
    pub fn push_extension(&mut self, value: FieldReference)
        ensures
            final(self).spec_extension_fields() == old(self).spec_extension_fields().push(value),
            final(self).spec_span() == old(self).spec_span(),
            final(self).spec_config() == old(self).spec_config(),
            final(self).spec_file() == old(self).spec_file(),
            final(self).spec_registry() == old(self).spec_registry(),
            final(self).spec_unknown_fields() == old(self).spec_unknown_fields(),
    {
        self.extension_fields.push(value);
    }

    /// Appends to the `unknown_fields` list.
    pub fn push_unknown(&mut self, value: FieldReference)
        ensures
            final(self).spec_unknown_fields() == old(self).spec_unknown_fields().push(value),
            final(self).spec_span() == old(self).spec_span(),
            final(self).spec_config() == old(self).spec_config(),
            final(self).spec_file() == old(self).spec_file(),
            final(self).spec_registry() == old(self).spec_registry(),
            final(self).spec_extension_fields() == old(self).spec_extension_fields(),
    {
        self.unknown_fields.push(value);
    }

    /// Returns the source span.
    pub fn span(&self) -> (r: SourceSpan)
        ensures
            r == self.spec_span(),
    {
        self.span
    }

    /// Returns the `config` field.
    pub fn config(&self) -> (r: Option<&Located<String>>)
        ensures
            r is Some <==> self.spec_config() is Some,
            r matches Some(v) ==> *v == self.spec_config()->0,
    {
        self.config.as_ref()
    }

    /// Returns the `file` field.
    pub fn file(&self) -> (r: Option<&Located<String>>)
        ensures
            r is Some <==> self.spec_file() is Some,
            r matches Some(v) ==> *v == self.spec_file()->0,
    {
        self.file.as_ref()
    }

    /// Returns the `registry` field.
    pub fn registry(&self) -> (r: Option<&Located<String>>)
        ensures
            r is Some <==> self.spec_registry() is Some,
            r matches Some(v) ==> *v == self.spec_registry()->0,
    {
        self.registry.as_ref()
    }

    /// Returns the `x-` extension fields in source order.
    pub fn extension_fields(&self) -> (r: &[FieldReference])
        ensures
            r@ == self.spec_extension_fields(),
    {
        self.extension_fields.as_slice()
    }

    /// Returns the unknown fields in source order.
    pub fn unknown_fields(&self) -> (r: &[FieldReference])
        ensures
            r@ == self.spec_unknown_fields(),
    {
        self.unknown_fields.as_slice()
    }
}

} // verus!
