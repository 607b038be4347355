//! Top-level volumes, configs, secrets, and service grants.

use super::value::{BooleanValue, KeyValueEntry, Labels};
use super::{FieldReference, Located};
use crate::source::SourceSpan;
use vstd::prelude::*;

verus! {

/// A top-level volume definition.
#[derive(Debug, Clone, PartialEq, Eq)]
pub struct VolumeDefinition {
    name: Located<String>,
    span: SourceSpan,
    driver: Option<Located<String>>,
    driver_opts: Vec<KeyValueEntry>,
    external: Option<Located<BooleanValue>>,
    labels: Option<Labels>,
    custom_name: Option<Located<String>>,
    extension_fields: Vec<FieldReference>,
    unknown_fields: Vec<FieldReference>,
}

impl VolumeDefinition {
    /// The volume key.
    pub closed spec fn spec_name(&self) -> Located<String> {
        self.name
    }

    /// The source span.
    pub closed spec fn spec_span(&self) -> SourceSpan {
        self.span
    }

    /// The `driver` field.
    pub closed spec fn spec_driver(&self) -> Option<Located<String>> {
        self.driver
    }

    /// The `driver_opts` entries.
    pub closed spec fn spec_driver_opts(&self) -> Seq<KeyValueEntry> {
        self.driver_opts@
    }

    /// The `external` flag.
    pub closed spec fn spec_external(&self) -> Option<Located<BooleanValue>> {
        self.external
    }

    /// The `labels` value.
    pub closed spec fn spec_labels(&self) -> Option<Labels> {
        self.labels
    }

    /// The `name` field.
    pub closed spec fn spec_custom_name(&self) -> Option<Located<String>> {
        self.custom_name
    }

    /// The `x-` extension fields in source order.
    pub closed spec fn spec_extension_fields(&self) -> Seq<FieldReference> {
        self.extension_fields@
    }

    /// The unknown fields in source order.
    pub closed spec fn spec_unknown_fields(&self) -> Seq<FieldReference> {
        self.unknown_fields@
    }

    /// Creates a `VolumeDefinition` with no optional fields set.
    pub fn new(name: Located<String>, span: SourceSpan) -> (r: Self)
        ensures
            r.spec_name() == name,
            r.spec_span() == span,
            r.spec_driver() is None,
            r.spec_driver_opts().len() == 0,
            r.spec_external() is None,
            r.spec_labels() is None,
            r.spec_custom_name() is None,
            r.spec_extension_fields().len() == 0,
            r.spec_unknown_fields().len() == 0,
    {
        Self {
            name,
            span,
            driver: None,
            driver_opts: Vec::new(),
            external: None,
            labels: None,
            custom_name: None,
            extension_fields: Vec::new(),
            unknown_fields: Vec::new(),
        }
    }

    /// Sets the `driver` field.
    pub fn set_driver(&mut self, value: Located<String>)
        ensures
            final(self).spec_driver() == Some(value),
            final(self).spec_name() == old(self).spec_name(),
            final(self).spec_span() == old(self).spec_span(),
            final(self).spec_driver_opts() == old(self).spec_driver_opts(),
            final(self).spec_external() == old(self).spec_external(),
            final(self).spec_labels() == old(self).spec_labels(),
            final(self).spec_custom_name() == old(self).spec_custom_name(),
            final(self).spec_extension_fields() == old(self).spec_extension_fields(),
            final(self).spec_unknown_fields() == old(self).spec_unknown_fields(),
    {
        self.driver = Some(value);
    }

    /// Sets the `driver_opts` field.
    pub fn set_driver_opts(&mut self, value: Vec<KeyValueEntry>)
        ensures
            final(self).spec_driver_opts() == value@,
            final(self).spec_name() == old(self).spec_name(),
            final(self).spec_span() == old(self).spec_span(),
            final(self).spec_driver() == old(self).spec_driver(),
            final(self).spec_external() == old(self).spec_external(),
            final(self).spec_labels() == old(self).spec_labels(),
            final(self).spec_custom_name() == old(self).spec_custom_name(),
            final(self).spec_extension_fields() == old(self).spec_extension_fields(),
            final(self).spec_unknown_fields() == old(self).spec_unknown_fields(),
    {
        self.driver_opts = value;
    }

    /// Sets the `external` field.
    pub fn set_external(&mut self, value: Located<BooleanValue>)
        ensures
            final(self).spec_external() == Some(value),
            final(self).spec_name() == old(self).spec_name(),
            final(self).spec_span() == old(self).spec_span(),
            final(self).spec_driver() == old(self).spec_driver(),
            final(self).spec_driver_opts() == old(self).spec_driver_opts(),
            final(self).spec_labels() == old(self).spec_labels(),
            final(self).spec_custom_name() == old(self).spec_custom_name(),
            final(self).spec_extension_fields() == old(self).spec_extension_fields(),
            final(self).spec_unknown_fields() == old(self).spec_unknown_fields(),
    {
        self.external = Some(value);
    }

    /// Sets the `labels` field.
    pub fn set_labels(&mut self, value: Labels)
        ensures
            final(self).spec_labels() == Some(value),
            final(self).spec_name() == old(self).spec_name(),
            final(self).spec_span() == old(self).spec_span(),
            final(self).spec_driver() == old(self).spec_driver(),
            final(self).spec_driver_opts() == old(self).spec_driver_opts(),
            final(self).spec_external() == old(self).spec_external(),
            final(self).spec_custom_name() == old(self).spec_custom_name(),
            final(self).spec_extension_fields() == old(self).spec_extension_fields(),
            final(self).spec_unknown_fields() == old(self).spec_unknown_fields(),
    {
        self.labels = Some(value);
    }

    /// Sets the `custom_name` field.
    pub fn set_custom_name(&mut self, value: Located<String>)
        ensures
            final(self).spec_custom_name() == Some(value),
            final(self).spec_name() == old(self).spec_name(),
            final(self).spec_span() == old(self).spec_span(),
            final(self).spec_driver() == old(self).spec_driver(),
            final(self).spec_driver_opts() == old(self).spec_driver_opts(),
            final(self).spec_external() == old(self).spec_external(),
            final(self).spec_labels() == old(self).spec_labels(),
            final(self).spec_extension_fields() == old(self).spec_extension_fields(),
            final(self).spec_unknown_fields() == old(self).spec_unknown_fields(),
    {
        self.custom_name = Some(value);
    }

    /// Appends to the `extension_fields` list.
    pub fn push_extension(&mut self, value: FieldReference)
        ensures
            final(self).spec_extension_fields() == old(self).spec_extension_fields().push(value),
            final(self).spec_name() == old(self).spec_name(),
            final(self).spec_span() == old(self).spec_span(),
            final(self).spec_driver() == old(self).spec_driver(),
            final(self).spec_driver_opts() == old(self).spec_driver_opts(),
            final(self).spec_external() == old(self).spec_external(),
            final(self).spec_labels() == old(self).spec_labels(),
            final(self).spec_custom_name() == old(self).spec_custom_name(),
            final(self).spec_unknown_fields() == old(self).spec_unknown_fields(),
    {
        self.extension_fields.push(value);
    }

    /// Appends to the `unknown_fields` list.
    pub fn push_unknown(&mut self, value: FieldReference)
        ensures
            final(self).spec_unknown_fields() == old(self).spec_unknown_fields().push(value),
            final(self).spec_name() == old(self).spec_name(),
            final(self).spec_span() == old(self).spec_span(),
            final(self).spec_driver() == old(self).spec_driver(),
            final(self).spec_driver_opts() == old(self).spec_driver_opts(),
            final(self).spec_external() == old(self).spec_external(),
            final(self).spec_labels() == old(self).spec_labels(),
            final(self).spec_custom_name() == old(self).spec_custom_name(),
            final(self).spec_extension_fields() == old(self).spec_extension_fields(),
    {
        self.unknown_fields.push(value);
    }

    /// Returns the volume key.
    pub fn name(&self) -> (r: &Located<String>)
        ensures
            *r == self.spec_name(),
    {
        &self.name
    }

    /// Returns the source span.
    pub fn span(&self) -> (r: SourceSpan)
        ensures
            r == self.spec_span(),
    {
        self.span
    }

    /// Returns the `driver` field.
    pub fn driver(&self) -> (r: Option<&Located<String>>)
        ensures
            r is Some <==> self.spec_driver() is Some,
            r matches Some(v) ==> *v == self.spec_driver()->0,
    {
        self.driver.as_ref()
    }

    /// Returns the `driver_opts` entries.
    pub fn driver_opts(&self) -> (r: &[KeyValueEntry])
        ensures
            r@ == self.spec_driver_opts(),
    {
        self.driver_opts.as_slice()
    }

    /// Returns the `external` flag.
    pub fn external(&self) -> (r: Option<&Located<BooleanValue>>)
        ensures
            r is Some <==> self.spec_external() is Some,
            r matches Some(v) ==> *v == self.spec_external()->0,
    {
        self.external.as_ref()
    }

    /// Returns the `labels` value.
    pub fn labels(&self) -> (r: Option<&Labels>)
        ensures
            r is Some <==> self.spec_labels() is Some,
            r matches Some(v) ==> *v == self.spec_labels()->0,
    {
        self.labels.as_ref()
    }

    /// Returns the `name` field.
    pub fn custom_name(&self) -> (r: Option<&Located<String>>)
        ensures
            r is Some <==> self.spec_custom_name() is Some,
            r matches Some(v) ==> *v == self.spec_custom_name()->0,
    {
        self.custom_name.as_ref()
    }

    /// Returns the `x-` extension fields in source order.
    pub fn extension_fields(&self) -> (r: &[FieldReference])
        ensures
            r@ == self.spec_extension_fields(),
    {
        self.extension_fields.as_slice()
    }

    /// Returns the unknown fields in source order.
    pub fn unknown_fields(&self) -> (r: &[FieldReference])
        ensures
            r@ == self.spec_unknown_fields(),
    {
        self.unknown_fields.as_slice()
    }
}

/// A top-level config definition.
#[derive(Debug, Clone, PartialEq, Eq)]
pub struct ConfigDefinition {
    name: Located<String>,
    span: SourceSpan,
    file: Option<Located<String>>,
    environment: Option<Located<String>>,
    content: Option<Located<String>>,
    external: Option<Located<BooleanValue>>,
    custom_name: Option<Located<String>>,
    extension_fields: Vec<FieldReference>,
    unknown_fields: Vec<FieldReference>,
}

impl ConfigDefinition {
    /// The config key.
    pub closed spec fn spec_name(&self) -> Located<String> {
        self.name
    }

    /// The source span.
    pub closed spec fn spec_span(&self) -> SourceSpan {
        self.span
    }

    /// The `file` field.
    pub closed spec fn spec_file(&self) -> Option<Located<String>> {
        self.file
    }

    /// The `environment` field.
    pub closed spec fn spec_environment(&self) -> Option<Located<String>> {
        self.environment
    }

    /// The `content` field.
    pub closed spec fn spec_content(&self) -> Option<Located<String>> {
        self.content
    }

    /// The `external` flag.
    pub closed spec fn spec_external(&self) -> Option<Located<BooleanValue>> {
        self.external
    }

    /// The `name` field.
    pub closed spec fn spec_custom_name(&self) -> Option<Located<String>> {
        self.custom_name
    }

    /// The `x-` extension fields in source order.
    pub closed spec fn spec_extension_fields(&self) -> Seq<FieldReference> {
        self.extension_fields@
    }

    /// The unknown fields in source order.
    pub closed spec fn spec_unknown_fields(&self) -> Seq<FieldReference> {
        self.unknown_fields@
    }

    /// Creates a `ConfigDefinition` with no optional fields set.
    pub fn new(name: Located<String>, span: SourceSpan) -> (r: Self)
        ensures
            r.spec_name() == name,
            r.spec_span() == span,
            r.spec_file() is None,
            r.spec_environment() is None,
            r.spec_content() is None,
            r.spec_external() is None,
            r.spec_custom_name() is None,
            r.spec_extension_fields().len() == 0,
            r.spec_unknown_fields().len() == 0,
    {
        Self {
            name,
            span,
            file: None,
            environment: None,
            content: None,
            external: None,
            custom_name: None,
            extension_fields: Vec::new(),
            unknown_fields: Vec::new(),
        }
    }

    /// Sets the `file` field.
    pub fn set_file(&mut self, value: Located<String>)
        ensures
            final(self).spec_file() == Some(value),
            final(self).spec_name() == old(self).spec_name(),
            final(self).spec_span() == old(self).spec_span(),
            final(self).spec_environment() == old(self).spec_environment(),
            final(self).spec_content() == old(self).spec_content(),
            final(self).spec_external() == old(self).spec_external(),
            final(self).spec_custom_name() == old(self).spec_custom_name(),
            final(self).spec_extension_fields() == old(self).spec_extension_fields(),
            final(self).spec_unknown_fields() == old(self).spec_unknown_fields(),
    {
        self.file = Some(value);
    }

    /// Sets the `environment` field.
    pub fn set_environment(&mut self, value: Located<String>)
        ensures
            final(self).spec_environment() == Some(value),
            final(self).spec_name() == old(self).spec_name(),
            final(self).spec_span() == old(self).spec_span(),
            final(self).spec_file() == old(self).spec_file(),
            final(self).spec_content() == old(self).spec_content(),
            final(self).spec_external() == old(self).spec_external(),
            final(self).spec_custom_name() == old(self).spec_custom_name(),
            final(self).spec_extension_fields() == old(self).spec_extension_fields(),
            final(self).spec_unknown_fields() == old(self).spec_unknown_fields(),
    {
        self.environment = Some(value);
    }

    /// Sets the `content` field.
    pub fn set_content(&mut self, value: Located<String>)
        ensures
            final(self).spec_content() == Some(value),
            final(self).spec_name() == old(self).spec_name(),
            final(self).spec_span() == old(self).spec_span(),
            final(self).spec_file() == old(self).spec_file(),
            final(self).spec_environment() == old(self).spec_environment(),
            final(self).spec_external() == old(self).spec_external(),
            final(self).spec_custom_name() == old(self).spec_custom_name(),
            final(self).spec_extension_fields() == old(self).spec_extension_fields(),
            final(self).spec_unknown_fields() == old(self).spec_unknown_fields(),
    {
        self.content = Some(value);
    }

    /// Sets the `external` field.
    pub fn set_external(&mut self, value: Located<BooleanValue>)
        ensures
            final(self).spec_external() == Some(value),
            final(self).spec_name() == old(self).spec_name(),
            final(self).spec_span() == old(self).spec_span(),
            final(self).spec_file() == old(self).spec_file(),
            final(self).spec_environment() == old(self).spec_environment(),
            final(self).spec_content() == old(self).spec_content(),
            final(self).spec_custom_name() == old(self).spec_custom_name(),
            final(self).spec_extension_fields() == old(self).spec_extension_fields(),
            final(self).spec_unknown_fields() == old(self).spec_unknown_fields(),
    {
        self.external = Some(value);
    }

    /// Sets the `custom_name` field.
    pub fn set_custom_name(&mut self, value: Located<String>)
        ensures
            final(self).spec_custom_name() == Some(value),
            final(self).spec_name() == old(self).spec_name(),
            final(self).spec_span() == old(self).spec_span(),
            final(self).spec_file() == old(self).spec_file(),
            final(self).spec_environment() == old(self).spec_environment(),
            final(self).spec_content() == old(self).spec_content(),
            final(self).spec_external() == old(self).spec_external(),
            final(self).spec_extension_fields() == old(self).spec_extension_fields(),
            final(self).spec_unknown_fields() == old(self).spec_unknown_fields(),
    {
        self.custom_name = Some(value);
    }

    /// Appends to the `extension_fields` list.
    pub fn push_extension(&mut self, value: FieldReference)
        ensures
            final(self).spec_extension_fields() == old(self).spec_extension_fields().push(value),
            final(self).spec_name() == old(self).spec_name(),
            final(self).spec_span() == old(self).spec_span(),
            final(self).spec_file() == old(self).spec_file(),
            final(self).spec_environment() == old(self).spec_environment(),
            final(self).spec_content() == old(self).spec_content(),
            final(self).spec_external() == old(self).spec_external(),
            final(self).spec_custom_name() == old(self).spec_custom_name(),
            final(self).spec_unknown_fields() == old(self).spec_unknown_fields(),
    {
        self.extension_fields.push(value);
    }

    /// Appends to the `unknown_fields` list.
    pub fn push_unknown(&mut self, value: FieldReference)
        ensures
            final(self).spec_unknown_fields() == old(self).spec_unknown_fields().push(value),
            final(self).spec_name() == old(self).spec_name(),
            final(self).spec_span() == old(self).spec_span(),
            final(self).spec_file() == old(self).spec_file(),
            final(self).spec_environment() == old(self).spec_environment(),
            final(self).spec_content() == old(self).spec_content(),
            final(self).spec_external() == old(self).spec_external(),
            final(self).spec_custom_name() == old(self).spec_custom_name(),
            final(self).spec_extension_fields() == old(self).spec_extension_fields(),
    {
        self.unknown_fields.push(value);
    }

    /// Returns the config key.
    pub fn name(&self) -> (r: &Located<String>)
        ensures
            *r == self.spec_name(),
    {
        &self.name
    }

    /// Returns the source span.
    pub fn span(&self) -> (r: SourceSpan)
        ensures
            r == self.spec_span(),
    {
        self.span
    }

    /// Returns the `file` field.
    pub fn file(&self) -> (r: Option<&Located<String>>)
        ensures
            r is Some <==> self.spec_file() is Some,
            r matches Some(v) ==> *v == self.spec_file()->0,
    {
        self.file.as_ref()
    }

    /// Returns the `environment` field.
    pub fn environment(&self) -> (r: Option<&Located<String>>)
        ensures
            r is Some <==> self.spec_environment() is Some,
            r matches Some(v) ==> *v == self.spec_environment()->0,
    {
        self.environment.as_ref()
    }

    /// Returns the `content` field.
    pub fn content(&self) -> (r: Option<&Located<String>>)
        ensures
            r is Some <==> self.spec_content() is Some,
            r matches Some(v) ==> *v == self.spec_content()->0,
    {
        self.content.as_ref()
    }

    /// Returns the `external` flag.
    pub fn external(&self) -> (r: Option<&Located<BooleanValue>>)
        ensures
            r is Some <==> self.spec_external() is Some,
            r matches Some(v) ==> *v == self.spec_external()->0,
    {
        self.external.as_ref()
    }

    /// Returns the `name` field.
    pub fn custom_name(&self) -> (r: Option<&Located<String>>)
        ensures
            r is Some <==> self.spec_custom_name() is Some,
            r matches Some(v) ==> *v == self.spec_custom_name()->0,
    {
        self.custom_name.as_ref()
    }

    /// Returns the `x-` extension fields in source order.
    pub fn extension_fields(&self) -> (r: &[FieldReference])
        ensures
            r@ == self.spec_extension_fields(),
    {
        self.extension_fields.as_slice()
    }

    /// Returns the unknown fields in source order.
    pub fn unknown_fields(&self) -> (r: &[FieldReference])
        ensures
            r@ == self.spec_unknown_fields(),
    {
        self.unknown_fields.as_slice()
    }
}

/// A top-level secret definition.
#[derive(Debug, Clone, PartialEq, Eq)]
pub struct SecretDefinition {
    name: Located<String>,
    span: SourceSpan,
    file: Option<Located<String>>,
    environment: Option<Located<String>>,
    external: Option<Located<BooleanValue>>,
    custom_name: Option<Located<String>>,
    extension_fields: Vec<FieldReference>,
    unknown_fields: Vec<FieldReference>,
}

impl SecretDefinition {
    /// The secret key.
    pub closed spec fn spec_name(&self) -> Located<String> {
        self.name
    }

    /// The source span.
    pub closed spec fn spec_span(&self) -> SourceSpan {
        self.span
    }

    /// The `file` field.
    pub closed spec fn spec_file(&self) -> Option<Located<String>> {
        self.file
    }

    /// The `environment` field.
    pub closed spec fn spec_environment(&self) -> Option<Located<String>> {
        self.environment
    }

    /// The `external` flag.
    pub closed spec fn spec_external(&self) -> Option<Located<BooleanValue>> {
        self.external
    }

    /// The `name` field.
    pub closed spec fn spec_custom_name(&self) -> Option<Located<String>> {
        self.custom_name
    }

    /// The `x-` extension fields in source order.
    pub closed spec fn spec_extension_fields(&self) -> Seq<FieldReference> {
        self.extension_fields@
    }

    /// The unknown fields in source order.
    pub closed spec fn spec_unknown_fields(&self) -> Seq<FieldReference> {
        self.unknown_fields@
    }

    /// Creates a `SecretDefinition` with no optional fields set.
    pub fn new(name: Located<String>, span: SourceSpan) -> (r: Self)
        ensures
            r.spec_name() == name,
            r.spec_span() == span,
            r.spec_file() is None,
            r.spec_environment() is None,
            r.spec_external() is None,
            r.spec_custom_name() is None,
            r.spec_extension_fields().len() == 0,
            r.spec_unknown_fields().len() == 0,
    {
        Self {
            name,
            span,
            file: None,
            environment: None,
            external: None,
            custom_name: None,
            extension_fields: Vec::new(),
            unknown_fields: Vec::new(),
        }
    }

    /// Sets the `file` field.
    pub fn set_file(&mut self, value: Located<String>)
        ensures
            final(self).spec_file() == Some(value),
            final(self).spec_name() == old(self).spec_name(),
            final(self).spec_span() == old(self).spec_span(),
            final(self).spec_environment() == old(self).spec_environment(),
            final(self).spec_external() == old(self).spec_external(),
            final(self).spec_custom_name() == old(self).spec_custom_name(),
            final(self).spec_extension_fields() == old(self).spec_extension_fields(),
            final(self).spec_unknown_fields() == old(self).spec_unknown_fields(),
    {
        self.file = Some(value);
    }

    /// Sets the `environment` field.
    pub fn set_environment(&mut self, value: Located<String>)
        ensures
            final(self).spec_environment() == Some(value),
            final(self).spec_name() == old(self).spec_name(),
            final(self).spec_span() == old(self).spec_span(),
            final(self).spec_file() == old(self).spec_file(),
            final(self).spec_external() == old(self).spec_external(),
            final(self).spec_custom_name() == old(self).spec_custom_name(),
            final(self).spec_extension_fields() == old(self).spec_extension_fields(),
            final(self).spec_unknown_fields() == old(self).spec_unknown_fields(),
    {
        self.environment = Some(value);
    }

    /// Sets the `external` field.
    pub fn set_external(&mut self, value: Located<BooleanValue>)
        ensures
            final(self).spec_external() == Some(value),
            final(self).spec_name() == old(self).spec_name(),
            final(self).spec_span() == old(self).spec_span(),
            final(self).spec_file() == old(self).spec_file(),
            final(self).spec_environment() == old(self).spec_environment(),
            final(self).spec_custom_name() == old(self).spec_custom_name(),
            final(self).spec_extension_fields() == old(self).spec_extension_fields(),
            final(self).spec_unknown_fields() == old(self).spec_unknown_fields(),
    {
        self.external = Some(value);
    }

    /// Sets the `custom_name` field.
    pub fn set_custom_name(&mut self, value: Located<String>)
        ensures
            final(self).spec_custom_name() == Some(value),
            final(self).spec_name() == old(self).spec_name(),
            final(self).spec_span() == old(self).spec_span(),
            final(self).spec_file() == old(self).spec_file(),
            final(self).spec_environment() == old(self).spec_environment(),
            final(self).spec_external() == old(self).spec_external(),
            final(self).spec_extension_fields() == old(self).spec_extension_fields(),
            final(self).spec_unknown_fields() == old(self).spec_unknown_fields(),
    {
        self.custom_name = Some(value);
    }

    /// Appends to the `extension_fields` list.
    pub fn push_extension(&mut self, value: FieldReference)
        ensures
            final(self).spec_extension_fields() == old(self).spec_extension_fields().push(value),
            final(self).spec_name() == old(self).spec_name(),
            final(self).spec_span() == old(self).spec_span(),
            final(self).spec_file() == old(self).spec_file(),
            final(self).spec_environment() == old(self).spec_environment(),
            final(self).spec_external() == old(self).spec_external(),
            final(self).spec_custom_name() == old(self).spec_custom_name(),
            final(self).spec_unknown_fields() == old(self).spec_unknown_fields(),
    {
        self.extension_fields.push(value);
    }

    /// Appends to the `unknown_fields` list.
    pub fn push_unknown(&mut self, value: FieldReference)
        ensures
            final(self).spec_unknown_fields() == old(self).spec_unknown_fields().push(value),
            final(self).spec_name() == old(self).spec_name(),
            final(self).spec_span() == old(self).spec_span(),
            final(self).spec_file() == old(self).spec_file(),
            final(self).spec_environment() == old(self).spec_environment(),
            final(self).spec_external() == old(self).spec_external(),
            final(self).spec_custom_name() == old(self).spec_custom_name(),
            final(self).spec_extension_fields() == old(self).spec_extension_fields(),
    {
        self.unknown_fields.push(value);
    }

    /// Returns the secret key.
    pub fn name(&self) -> (r: &Located<String>)
        ensures
            *r == self.spec_name(),
    {
        &self.name
    }

    /// Returns the source span.
    pub fn span(&self) -> (r: SourceSpan)
        ensures
            r == self.spec_span(),
    {
        self.span
    }

    /// Returns the `file` field.
    pub fn file(&self) -> (r: Option<&Located<String>>)
        ensures
            r is Some <==> self.spec_file() is Some,
            r matches Some(v) ==> *v == self.spec_file()->0,
    {
        self.file.as_ref()
    }

    /// Returns the `environment` field.
    pub fn environment(&self) -> (r: Option<&Located<String>>)
        ensures
            r is Some <==> self.spec_environment() is Some,
            r matches Some(v) ==> *v == self.spec_environment()->0,
    {
        self.environment.as_ref()
    }

    /// Returns the `external` flag.
    pub fn external(&self) -> (r: Option<&Located<BooleanValue>>)
        ensures
            r is Some <==> self.spec_external() is Some,
            r matches Some(v) ==> *v == self.spec_external()->0,
    {
        self.external.as_ref()
    }

    /// Returns the `name` field.
    pub fn custom_name(&self) -> (r: Option<&Located<String>>)
        ensures
            r is Some <==> self.spec_custom_name() is Some,
            r matches Some(v) ==> *v == self.spec_custom_name()->0,
    {
        self.custom_name.as_ref()
    }

    /// Returns the `x-` extension fields in source order.
    pub fn extension_fields(&self) -> (r: &[FieldReference])
        ensures
            r@ == self.spec_extension_fields(),
    {
        self.extension_fields.as_slice()
    }

    /// Returns the unknown fields in source order.
    pub fn unknown_fields(&self) -> (r: &[FieldReference])
        ensures
            r@ == self.spec_unknown_fields(),
    {
        self.unknown_fields.as_slice()
    }
}

/// The long form of a config or secret grant.
#[derive(Debug, Clone, PartialEq, Eq)]
pub struct LongGrant {
    span: SourceSpan,
    source: Option<Located<String>>,
    target: Option<Located<String>>,
    uid: Option<Located<String>>,
    gid: Option<Located<String>>,
    mode: Option<Located<String>>,
    extension_fields: Vec<FieldReference>,
    unknown_fields: Vec<FieldReference>,
}

impl LongGrant {
    /// The source span.
    pub closed spec fn spec_span(&self) -> SourceSpan {
        self.span
    }

    /// The `source` field.
    pub closed spec fn spec_source(&self) -> Option<Located<String>> {
        self.source
    }

    /// The `target` field.
    pub closed spec fn spec_target(&self) -> Option<Located<String>> {
        self.target
    }

    /// The `uid` field.
    pub closed spec fn spec_uid(&self) -> Option<Located<String>> {
        self.uid
    }

    /// The `gid` field.
    pub closed spec fn spec_gid(&self) -> Option<Located<String>> {
        self.gid
    }

    /// The `mode` field.
    pub closed spec fn spec_mode(&self) -> Option<Located<String>> {
        self.mode
    }

    /// The `x-` extension fields in source order.
    pub closed spec fn spec_extension_fields(&self) -> Seq<FieldReference> {
        self.extension_fields@
    }

    /// The unknown fields in source order.
    pub closed spec fn spec_unknown_fields(&self) -> Seq<FieldReference> {
        self.unknown_fields@
    }

    /// Creates a `LongGrant` with no optional fields set.
    pub fn new(span: SourceSpan) -> (r: Self)
        ensures
            r.spec_span() == span,
            r.spec_source() is None,
            r.spec_target() is None,
            r.spec_uid() is None,
            r.spec_gid() is None,
            r.spec_mode() is None,
            r.spec_extension_fields().len() == 0,
            r.spec_unknown_fields().len() == 0,
    {
        Self {
            span,
            source: None,
            target: None,
            uid: None,
            gid: None,
            mode: None,
            extension_fields: Vec::new(),
            unknown_fields: Vec::new(),
        }
    }

    /// Sets the `source` field.
    pub fn set_source(&mut self, value: Located<String>)
        ensures
            final(self).spec_source() == Some(value),
            final(self).spec_span() == old(self).spec_span(),
            final(self).spec_target() == old(self).spec_target(),
            final(self).spec_uid() == old(self).spec_uid(),
            final(self).spec_gid() == old(self).spec_gid(),
            final(self).spec_mode() == old(self).spec_mode(),
            final(self).spec_extension_fields() == old(self).spec_extension_fields(),
            final(self).spec_unknown_fields() == old(self).spec_unknown_fields(),
    {
        self.source = Some(value);
    }

    /// Sets the `target` field.
    pub fn set_target(&mut self, value: Located<String>)
        ensures
            final(self).spec_target() == Some(value),
            final(self).spec_span() == old(self).spec_span(),
            final(self).spec_source() == old(self).spec_source(),
            final(self).spec_uid() == old(self).spec_uid(),
            final(self).spec_gid() == old(self).spec_gid(),
            final(self).spec_mode() == old(self).spec_mode(),
            final(self).spec_extension_fields() == old(self).spec_extension_fields(),
            final(self).spec_unknown_fields() == old(self).spec_unknown_fields(),
    {
        self.target = Some(value);
    }

    /// Sets the `uid` field.
    pub fn set_uid(&mut self, value: Located<String>)
        ensures
            final(self).spec_uid() == Some(value),
            final(self).spec_span() == old(self).spec_span(),
            final(self).spec_source() == old(self).spec_source(),
            final(self).spec_target() == old(self).spec_target(),
            final(self).spec_gid() == old(self).spec_gid(),
            final(self).spec_mode() == old(self).spec_mode(),
            final(self).spec_extension_fields() == old(self).spec_extension_fields(),
            final(self).spec_unknown_fields() == old(self).spec_unknown_fields(),
    {
        self.uid = Some(value);
    }

    /// Sets the `gid` field.
    pub fn set_gid(&mut self, value: Located<String>)
        ensures
            final(self).spec_gid() == Some(value),
            final(self).spec_span() == old(self).spec_span(),
            final(self).spec_source() == old(self).spec_source(),
            final(self).spec_target() == old(self).spec_target(),
            final(self).spec_uid() == old(self).spec_uid(),
            final(self).spec_mode() == old(self).spec_mode(),
            final(self).spec_extension_fields() == old(self).spec_extension_fields(),
            final(self).spec_unknown_fields() == old(self).spec_unknown_fields(),
    {
        self.gid = Some(value);
    }

    /// Sets the `mode` field.
    pub fn set_mode(&mut self, value: Located<String>)
        ensures
            final(self).spec_mode() == Some(value),
            final(self).spec_span() == old(self).spec_span(),
            final(self).spec_source() == old(self).spec_source(),
            final(self).spec_target() == old(self).spec_target(),
            final(self).spec_uid() == old(self).spec_uid(),
            final(self).spec_gid() == old(self).spec_gid(),
            final(self).spec_extension_fields() == old(self).spec_extension_fields(),
            final(self).spec_unknown_fields() == old(self).spec_unknown_fields(),
    {
        self.mode = Some(value);
    }

    /// Appends to the `extension_fields` list.
    pub fn push_extension(&mut self, value: FieldReference)
        ensures
            final(self).spec_extension_fields() == old(self).spec_extension_fields().push(value),
            final(self).spec_span() == old(self).spec_span(),
            final(self).spec_source() == old(self).spec_source(),
            final(self).spec_target() == old(self).spec_target(),
            final(self).spec_uid() == old(self).spec_uid(),
            final(self).spec_gid() == old(self).spec_gid(),
            final(self).spec_mode() == old(self).spec_mode(),
            final(self).spec_unknown_fields() == old(self).spec_unknown_fields(),
    {
        self.extension_fields.push(value);
    }

    /// Appends to the `unknown_fields` list.
    pub fn push_unknown(&mut self, value: FieldReference)
        ensures
            final(self).spec_unknown_fields() == old(self).spec_unknown_fields().push(value),
            final(self).spec_span() == old(self).spec_span(),
            final(self).spec_source() == old(self).spec_source(),
            final(self).spec_target() == old(self).spec_target(),
            final(self).spec_uid() == old(self).spec_uid(),
            final(self).spec_gid() == old(self).spec_gid(),
            final(self).spec_mode() == old(self).spec_mode(),
            final(self).spec_extension_fields() == old(self).spec_extension_fields(),
    {
        self.unknown_fields.push(value);
    }

    /// Returns the source span.
    pub fn span(&self) -> (r: SourceSpan)
        ensures
            r == self.spec_span(),
    {
        self.span
    }

    /// Returns the `source` field.
    pub fn source(&self) -> (r: Option<&Located<String>>)
        ensures
            r is Some <==> self.spec_source() is Some,
            r matches Some(v) ==> *v == self.spec_source()->0,
    {
        self.source.as_ref()
    }

    /// Returns the `target` field.
    pub fn target(&self) -> (r: Option<&Located<String>>)
        ensures
            r is Some <==> self.spec_target() is Some,
            r matches Some(v) ==> *v == self.spec_target()->0,
    {
        self.target.as_ref()
    }

    /// Returns the `uid` field.
    pub fn uid(&self) -> (r: Option<&Located<String>>)
        ensures
            r is Some <==> self.spec_uid() is Some,
            r matches Some(v) ==> *v == self.spec_uid()->0,
    {
        self.uid.as_ref()
    }

    /// Returns the `gid` field.
    pub fn gid(&self) -> (r: Option<&Located<String>>)
        ensures
            r is Some <==> self.spec_gid() is Some,
            r matches Some(v) ==> *v == self.spec_gid()->0,
    {
        self.gid.as_ref()
    }

    /// Returns the `mode` field.
    pub fn mode(&self) -> (r: Option<&Located<String>>)
        ensures
            r is Some <==> self.spec_mode() is Some,
            r matches Some(v) ==> *v == self.spec_mode()->0,
    {
        self.mode.as_ref()
    }

    /// Returns the `x-` extension fields in source order.
    pub fn extension_fields(&self) -> (r: &[FieldReference])
        ensures
            r@ == self.spec_extension_fields(),
    {
        self.extension_fields.as_slice()
    }

    /// Returns the unknown fields in source order.
    pub fn unknown_fields(&self) -> (r: &[FieldReference])
        ensures
            r@ == self.spec_unknown_fields(),
    {
        self.unknown_fields.as_slice()
    }
}

/// A service config grant in short or long form.
#[derive(Debug, Clone, PartialEq, Eq)]
pub enum ConfigGrant {
    /// The name of the config.
    Short(Located<String>),
    /// A mapping with source, target and ownership.
    Long(Box<LongGrant>),
}

/// A service secret grant in short or long form.
#[derive(Debug, Clone, PartialEq, Eq)]
pub enum SecretGrant {
    /// The name of the secret.
    Short(Located<String>),
    /// A mapping with source, target and ownership.
    Long(Box<LongGrant>),
}

} // verus!
