//! Structured values for the final closed-schema Compose keys.

use super::command::Command;
use super::environment::Environment;
use super::value::{BooleanValue, ComposeScalar, KeyValueEntry};
use super::{lc, FieldReference, Located};
use crate::source::SourceSpan;
use crate::text::str_eq;
use vstd::prelude::*;

verus! {

/// An authored service `label_file` value with its scalar or list form retained.
#[derive(Debug, Clone, PartialEq, Eq)]
pub struct LabelFiles {
    span: SourceSpan,
    form: LabelFilesForm,
    unmodeled_items: Vec<SourceSpan>,
}

impl LabelFiles {
    /// The source span.
    pub closed spec fn spec_span(&self) -> SourceSpan {
        self.span
    }

    /// The exact scalar or ordered-list form, without reading label files.
    pub closed spec fn spec_form(&self) -> LabelFilesForm {
        self.form
    }

    /// The spans of malformed items retained in the syntax document.
    pub closed spec fn spec_unmodeled_items(&self) -> Seq<SourceSpan> {
        self.unmodeled_items@
    }

    /// Creates a `LabelFiles`.
    pub fn new(span: SourceSpan, form: LabelFilesForm, unmodeled_items: Vec<SourceSpan>) -> (r: Self)
        ensures
            r.spec_span() == span,
            r.spec_form() == form,
            r.spec_unmodeled_items() == unmodeled_items@,
    {
        Self {
            span,
            form,
            unmodeled_items,
        }
    }

    /// Returns the source span.
    pub fn span(&self) -> (r: SourceSpan)
        ensures
            r == self.spec_span(),
    {
        self.span
    }

    /// Returns the exact scalar or ordered-list form, without reading label files.
    pub fn form(&self) -> (r: &LabelFilesForm)
        ensures
            *r == self.spec_form(),
    {
        &self.form
    }

    /// Returns the spans of malformed items retained in the syntax document.
    pub fn unmodeled_items(&self) -> (r: &[SourceSpan])
        ensures
            r@ == self.spec_unmodeled_items(),
    {
        self.unmodeled_items.as_slice()
    }
}

/// The exact authored syntax form of service `label_file`.
#[derive(Debug, Clone, PartialEq, Eq)]
#[non_exhaustive]
pub enum LabelFilesForm {
    /// One label-file path scalar.
    Scalar(Located<String>),
    /// An ordered list of label-file paths, including an explicitly empty list.
    List(Vec<Located<String>>),
}

/// Top-level Compose includes in their short and long forms.
#[derive(Debug, Clone, PartialEq, Eq)]
pub struct Includes {
    span: SourceSpan,
    items: Vec<IncludeItem>,
    unmodeled_fields: Vec<FieldReference>,
}

impl Includes {
    /// The source span.
    pub closed spec fn spec_span(&self) -> SourceSpan {
        self.span
    }

    /// The include declarations in authored order.
    pub closed spec fn spec_items(&self) -> Seq<IncludeItem> {
        self.items@
    }

    /// The unmodeled fields in source order.
    pub closed spec fn spec_unmodeled_fields(&self) -> Seq<FieldReference> {
        self.unmodeled_fields@
    }

    /// Creates a `Includes`.
    pub fn new(span: SourceSpan, items: Vec<IncludeItem>, unmodeled_fields: Vec<FieldReference>) -> (r: Self)
        ensures
            r.spec_span() == span,
            r.spec_items() == items@,
            r.spec_unmodeled_fields() == unmodeled_fields@,
    {
        Self {
            span,
            items,
            unmodeled_fields,
        }
    }

    /// Returns the source span.
    pub fn span(&self) -> (r: SourceSpan)
        ensures
            r == self.spec_span(),
    {
        self.span
    }

    /// Returns the include declarations in authored order.
    pub fn items(&self) -> (r: &[IncludeItem])
        ensures
            r@ == self.spec_items(),
    {
        self.items.as_slice()
    }

    /// Returns the unmodeled fields in source order.
    pub fn unmodeled_fields(&self) -> (r: &[FieldReference])
        ensures
            r@ == self.spec_unmodeled_fields(),
    {
        self.unmodeled_fields.as_slice()
    }
}

/// One authored include declaration.
#[derive(Debug, Clone, PartialEq, Eq)]
#[non_exhaustive]
pub enum IncludeItem {
    /// A short scalar path.
    Short(Located<String>),
    /// A long include mapping.
    Long(IncludeLong),
    /// An invalid form retained in the syntax document and reported diagnostically.
    Unmodeled,
}

/// Long-form include values. Paths remain inert source data: no documents or env files are read.
#[derive(Debug, Clone, PartialEq, Eq)]
pub struct IncludeLong {
    span: SourceSpan,
    paths: Vec<Located<String>>,
    env_files: Vec<Located<String>>,
    project_directory: Option<Located<String>>,
    unmodeled_fields: Vec<FieldReference>,
}

impl IncludeLong {
    /// The source span.
    pub closed spec fn spec_span(&self) -> SourceSpan {
        self.span
    }

    /// The included paths.
    pub closed spec fn spec_paths(&self) -> Seq<Located<String>> {
        self.paths@
    }

    /// The env files.
    pub closed spec fn spec_env_files(&self) -> Seq<Located<String>> {
        self.env_files@
    }

    /// The project directory.
    pub closed spec fn spec_project_directory(&self) -> Option<Located<String>> {
        self.project_directory
    }

    /// The unmodeled fields in source order.
    pub closed spec fn spec_unmodeled_fields(&self) -> Seq<FieldReference> {
        self.unmodeled_fields@
    }

    /// Creates a `IncludeLong`.
    pub fn new(span: SourceSpan, paths: Vec<Located<String>>, env_files: Vec<Located<String>>, project_directory: Option<Located<String>>, unmodeled_fields: Vec<FieldReference>) -> (r: Self)
        ensures
            r.spec_span() == span,
            r.spec_paths() == paths@,
            r.spec_env_files() == env_files@,
            r.spec_project_directory() == project_directory,
            r.spec_unmodeled_fields() == unmodeled_fields@,
    {
        Self {
            span,
            paths,
            env_files,
            project_directory,
            unmodeled_fields,
        }
    }

    /// Returns the source span.
    pub fn span(&self) -> (r: SourceSpan)
        ensures
            r == self.spec_span(),
    {
        self.span
    }

    /// Returns the included paths.
    pub fn paths(&self) -> (r: &[Located<String>])
        ensures
            r@ == self.spec_paths(),
    {
        self.paths.as_slice()
    }

    /// Returns the env files.
    pub fn env_files(&self) -> (r: &[Located<String>])
        ensures
            r@ == self.spec_env_files(),
    {
        self.env_files.as_slice()
    }

    /// Returns the project directory.
    pub fn project_directory(&self) -> (r: Option<&Located<String>>)
        ensures
            r is Some <==> self.spec_project_directory() is Some,
            r matches Some(v) ==> *v == self.spec_project_directory()->0,
    {
        self.project_directory.as_ref()
    }

    /// Returns the unmodeled fields in source order.
    pub fn unmodeled_fields(&self) -> (r: &[FieldReference])
        ensures
            r@ == self.spec_unmodeled_fields(),
    {
        self.unmodeled_fields.as_slice()
    }
}

/// Top-level model definitions keyed by their Compose model name.
#[derive(Debug, Clone, PartialEq, Eq)]
pub struct ModelDefinitions {
    span: SourceSpan,
    definitions: Vec<ModelDefinition>,
    unmodeled_fields: Vec<FieldReference>,
}

impl ModelDefinitions {
    /// The source span.
    pub closed spec fn spec_span(&self) -> SourceSpan {
        self.span
    }

    /// The definitions in authored order.
    pub closed spec fn spec_definitions(&self) -> Seq<ModelDefinition> {
        self.definitions@
    }

    /// The unmodeled fields in source order.
    pub closed spec fn spec_unmodeled_fields(&self) -> Seq<FieldReference> {
        self.unmodeled_fields@
    }

    /// Creates a `ModelDefinitions`.
    pub fn new(span: SourceSpan, definitions: Vec<ModelDefinition>, unmodeled_fields: Vec<FieldReference>) -> (r: Self)
        ensures
            r.spec_span() == span,
            r.spec_definitions() == definitions@,
            r.spec_unmodeled_fields() == unmodeled_fields@,
    {
        Self {
            span,
            definitions,
            unmodeled_fields,
        }
    }

    /// Returns the source span.
    pub fn span(&self) -> (r: SourceSpan)
        ensures
            r == self.spec_span(),
    {
        self.span
    }

    /// Returns the definitions in authored order.
    pub fn definitions(&self) -> (r: &[ModelDefinition])
        ensures
            r@ == self.spec_definitions(),
    {
        self.definitions.as_slice()
    }

    /// Returns the unmodeled fields in source order.
    pub fn unmodeled_fields(&self) -> (r: &[FieldReference])
        ensures
            r@ == self.spec_unmodeled_fields(),
    {
        self.unmodeled_fields.as_slice()
    }

    /// Finds the first definition whose key is `name`.
    pub fn definition(&self, name: &str) -> (r: Option<&ModelDefinition>)
        ensures
            r is None <==> forall|i: int|
                0 <= i < self.spec_definitions().len() ==> #[trigger] lc(self.spec_definitions()[i].spec_key()) != name@,
            r matches Some(d) ==> exists|i: int|
                0 <= i < self.spec_definitions().len() && *d == self.spec_definitions()[i] && lc(d.spec_key()) == name@
                    && forall|j: int| 0 <= j < i ==> #[trigger] lc(self.spec_definitions()[j].spec_key()) != name@,
    {
        let mut i: usize = 0;
        while i < self.definitions.len()
            invariant
                0 <= i <= self.definitions@.len(),
                forall|j: int| 0 <= j < i ==> #[trigger] lc(self.definitions@[j].spec_key()) != name@,
            decreases self.definitions@.len() - i,
        {
            if str_eq(self.definitions[i].key.value().as_str(), name) {
                assert(lc(self.spec_definitions()[i as int].spec_key()) == name@);
                return Some(&self.definitions[i]);
            }
            i += 1;
        }
        None
    }
}

/// One source-aware top-level model definition.
#[derive(Debug, Clone, PartialEq, Eq)]
pub struct ModelDefinition {
    key: Located<String>,
    span: SourceSpan,
    name: Option<Located<String>>,
    model: Option<Located<String>>,
    context_size: Option<Located<ComposeScalar>>,
    runtime_flags: Vec<Located<String>>,
    unmodeled_fields: Vec<FieldReference>,
}

impl ModelDefinition {
    /// The model name key.
    pub closed spec fn spec_key(&self) -> Located<String> {
        self.key
    }

    /// The source span.
    pub closed spec fn spec_span(&self) -> SourceSpan {
        self.span
    }

    /// The `name` field.
    pub closed spec fn spec_name(&self) -> Option<Located<String>> {
        self.name
    }

    /// The `model` field.
    pub closed spec fn spec_model(&self) -> Option<Located<String>> {
        self.model
    }

    /// The `context_size` field.
    pub closed spec fn spec_context_size(&self) -> Option<Located<ComposeScalar>> {
        self.context_size
    }

    /// The `runtime_flags` items.
    pub closed spec fn spec_runtime_flags(&self) -> Seq<Located<String>> {
        self.runtime_flags@
    }

    /// The unmodeled fields in source order.
    pub closed spec fn spec_unmodeled_fields(&self) -> Seq<FieldReference> {
        self.unmodeled_fields@
    }

    /// Creates a `ModelDefinition` with no optional fields set.
    pub fn new(key: Located<String>, span: SourceSpan) -> (r: Self)
        ensures
            r.spec_key() == key,
            r.spec_span() == span,
            r.spec_name() is None,
            r.spec_model() is None,
            r.spec_context_size() is None,
            r.spec_runtime_flags().len() == 0,
            r.spec_unmodeled_fields().len() == 0,
    {
        Self {
            key,
            span,
            name: None,
            model: None,
            context_size: None,
            runtime_flags: Vec::new(),
            unmodeled_fields: Vec::new(),
        }
    }

    /// Sets the `name` field.
    pub fn set_name(&mut self, value: Located<String>)
        ensures
            final(self).spec_name() == Some(value),
            final(self).spec_key() == old(self).spec_key(),
            final(self).spec_span() == old(self).spec_span(),
            final(self).spec_model() == old(self).spec_model(),
            final(self).spec_context_size() == old(self).spec_context_size(),
            final(self).spec_runtime_flags() == old(self).spec_runtime_flags(),
            final(self).spec_unmodeled_fields() == old(self).spec_unmodeled_fields(),
    {
        self.name = Some(value);
    }

    /// Sets the `model` field.
    pub fn set_model(&mut self, value: Located<String>)
        ensures
            final(self).spec_model() == Some(value),
            final(self).spec_key() == old(self).spec_key(),
            final(self).spec_span() == old(self).spec_span(),
            final(self).spec_name() == old(self).spec_name(),
            final(self).spec_context_size() == old(self).spec_context_size(),
            final(self).spec_runtime_flags() == old(self).spec_runtime_flags(),
            final(self).spec_unmodeled_fields() == old(self).spec_unmodeled_fields(),
    {
        self.model = Some(value);
    }

    /// Sets the `context_size` field.
    pub fn set_context_size(&mut self, value: Located<ComposeScalar>)
        ensures
            final(self).spec_context_size() == Some(value),
            final(self).spec_key() == old(self).spec_key(),
            final(self).spec_span() == old(self).spec_span(),
            final(self).spec_name() == old(self).spec_name(),
            final(self).spec_model() == old(self).spec_model(),
            final(self).spec_runtime_flags() == old(self).spec_runtime_flags(),
            final(self).spec_unmodeled_fields() == old(self).spec_unmodeled_fields(),
    {
        self.context_size = Some(value);
    }

    /// Sets the `runtime_flags` field.
    pub fn set_runtime_flags(&mut self, value: Vec<Located<String>>)
        ensures
            final(self).spec_runtime_flags() == value@,
            final(self).spec_key() == old(self).spec_key(),
            final(self).spec_span() == old(self).spec_span(),
            final(self).spec_name() == old(self).spec_name(),
            final(self).spec_model() == old(self).spec_model(),
            final(self).spec_context_size() == old(self).spec_context_size(),
            final(self).spec_unmodeled_fields() == old(self).spec_unmodeled_fields(),
    {
        self.runtime_flags = value;
    }

    /// Appends to the `unmodeled_fields` list.
    pub fn push_unmodeled(&mut self, value: FieldReference)
        ensures
            final(self).spec_unmodeled_fields() == old(self).spec_unmodeled_fields().push(value),
            final(self).spec_key() == old(self).spec_key(),
            final(self).spec_span() == old(self).spec_span(),
            final(self).spec_name() == old(self).spec_name(),
            final(self).spec_model() == old(self).spec_model(),
            final(self).spec_context_size() == old(self).spec_context_size(),
            final(self).spec_runtime_flags() == old(self).spec_runtime_flags(),
    {
        self.unmodeled_fields.push(value);
    }

    /// Returns the model name key.
    pub fn key(&self) -> (r: &Located<String>)
        ensures
            *r == self.spec_key(),
    {
        &self.key
    }

    /// Returns the source span.
    pub fn span(&self) -> (r: SourceSpan)
        ensures
            r == self.spec_span(),
    {
        self.span
    }

    /// Returns the `name` field.
    pub fn name(&self) -> (r: Option<&Located<String>>)
        ensures
            r is Some <==> self.spec_name() is Some,
            r matches Some(v) ==> *v == self.spec_name()->0,
    {
        self.name.as_ref()
    }

    /// Returns the `model` field.
    pub fn model(&self) -> (r: Option<&Located<String>>)
        ensures
            r is Some <==> self.spec_model() is Some,
            r matches Some(v) ==> *v == self.spec_model()->0,
    {
        self.model.as_ref()
    }

    /// Returns the `context_size` field.
    pub fn context_size(&self) -> (r: Option<&Located<ComposeScalar>>)
        ensures
            r is Some <==> self.spec_context_size() is Some,
            r matches Some(v) ==> *v == self.spec_context_size()->0,
    {
        self.context_size.as_ref()
    }

    /// Returns the `runtime_flags` items.
    pub fn runtime_flags(&self) -> (r: &[Located<String>])
        ensures
            r@ == self.spec_runtime_flags(),
    {
        self.runtime_flags.as_slice()
    }

    /// Returns the unmodeled fields in source order.
    pub fn unmodeled_fields(&self) -> (r: &[FieldReference])
        ensures
            r@ == self.spec_unmodeled_fields(),
    {
        self.unmodeled_fields.as_slice()
    }
}

/// Per-service bindings to top-level model definitions.
#[derive(Debug, Clone, PartialEq, Eq)]
pub struct ServiceModels {
    span: SourceSpan,
    bindings: Vec<ServiceModelBinding>,
    unmodeled_fields: Vec<FieldReference>,
}

impl ServiceModels {
    /// The source span.
    pub closed spec fn spec_span(&self) -> SourceSpan {
        self.span
    }

    /// The bindings in authored order.
    pub closed spec fn spec_bindings(&self) -> Seq<ServiceModelBinding> {
        self.bindings@
    }

    /// The unmodeled fields in source order.
    pub closed spec fn spec_unmodeled_fields(&self) -> Seq<FieldReference> {
        self.unmodeled_fields@
    }

    /// Creates a `ServiceModels`.
    pub fn new(span: SourceSpan, bindings: Vec<ServiceModelBinding>, unmodeled_fields: Vec<FieldReference>) -> (r: Self)
        ensures
            r.spec_span() == span,
            r.spec_bindings() == bindings@,
            r.spec_unmodeled_fields() == unmodeled_fields@,
    {
        Self {
            span,
            bindings,
            unmodeled_fields,
        }
    }

    /// Returns the source span.
    pub fn span(&self) -> (r: SourceSpan)
        ensures
            r == self.spec_span(),
    {
        self.span
    }

    /// Returns the bindings in authored order.
    pub fn bindings(&self) -> (r: &[ServiceModelBinding])
        ensures
            r@ == self.spec_bindings(),
    {
        self.bindings.as_slice()
    }

    /// Returns the unmodeled fields in source order.
    pub fn unmodeled_fields(&self) -> (r: &[FieldReference])
        ensures
            r@ == self.spec_unmodeled_fields(),
    {
        self.unmodeled_fields.as_slice()
    }
}

/// One service model binding from a scalar list or mapping form.
#[derive(Debug, Clone, PartialEq, Eq)]
pub struct ServiceModelBinding {
    model: Located<String>,
    span: SourceSpan,
    endpoint_var: Option<Located<String>>,
    model_var: Option<Located<String>>,
    unmodeled_fields: Vec<FieldReference>,
}

impl ServiceModelBinding {
    /// The bound model name.
    pub closed spec fn spec_model(&self) -> Located<String> {
        self.model
    }

    /// The source span.
    pub closed spec fn spec_span(&self) -> SourceSpan {
        self.span
    }

    /// The `endpoint_var` field.
    pub closed spec fn spec_endpoint_var(&self) -> Option<Located<String>> {
        self.endpoint_var
    }

    /// The `model_var` field.
    pub closed spec fn spec_model_var(&self) -> Option<Located<String>> {
        self.model_var
    }

    /// The unmodeled fields in source order.
    pub closed spec fn spec_unmodeled_fields(&self) -> Seq<FieldReference> {
        self.unmodeled_fields@
    }

    /// Creates a `ServiceModelBinding` with no optional fields set.
    pub fn new(model: Located<String>, span: SourceSpan) -> (r: Self)
        ensures
            r.spec_model() == model,
            r.spec_span() == span,
            r.spec_endpoint_var() is None,
            r.spec_model_var() is None,
            r.spec_unmodeled_fields().len() == 0,
    {
        Self {
            model,
            span,
            endpoint_var: None,
            model_var: None,
            unmodeled_fields: Vec::new(),
        }
    }

    /// Sets the `endpoint_var` field.
    pub fn set_endpoint_var(&mut self, value: Located<String>)
        ensures
            final(self).spec_endpoint_var() == Some(value),
            final(self).spec_model() == old(self).spec_model(),
            final(self).spec_span() == old(self).spec_span(),
            final(self).spec_model_var() == old(self).spec_model_var(),
            final(self).spec_unmodeled_fields() == old(self).spec_unmodeled_fields(),
    {
        self.endpoint_var = Some(value);
    }

    /// Sets the `model_var` field.
    pub fn set_model_var(&mut self, value: Located<String>)
        ensures
            final(self).spec_model_var() == Some(value),
            final(self).spec_model() == old(self).spec_model(),
            final(self).spec_span() == old(self).spec_span(),
            final(self).spec_endpoint_var() == old(self).spec_endpoint_var(),
            final(self).spec_unmodeled_fields() == old(self).spec_unmodeled_fields(),
    {
        self.model_var = Some(value);
    }

    /// Appends to the `unmodeled_fields` list.
    pub fn push_unmodeled(&mut self, value: FieldReference)
        ensures
            final(self).spec_unmodeled_fields() == old(self).spec_unmodeled_fields().push(value),
            final(self).spec_model() == old(self).spec_model(),
            final(self).spec_span() == old(self).spec_span(),
            final(self).spec_endpoint_var() == old(self).spec_endpoint_var(),
            final(self).spec_model_var() == old(self).spec_model_var(),
    {
        self.unmodeled_fields.push(value);
    }

    /// Returns the bound model name.
    pub fn model(&self) -> (r: &Located<String>)
        ensures
            *r == self.spec_model(),
    {
        &self.model
    }

    /// Returns the source span.
    pub fn span(&self) -> (r: SourceSpan)
        ensures
            r == self.spec_span(),
    {
        self.span
    }

    /// Returns the `endpoint_var` field.
    pub fn endpoint_var(&self) -> (r: Option<&Located<String>>)
        ensures
            r is Some <==> self.spec_endpoint_var() is Some,
            r matches Some(v) ==> *v == self.spec_endpoint_var()->0,
    {
        self.endpoint_var.as_ref()
    }

    /// Returns the `model_var` field.
    pub fn model_var(&self) -> (r: Option<&Located<String>>)
        ensures
            r is Some <==> self.spec_model_var() is Some,
            r matches Some(v) ==> *v == self.spec_model_var()->0,
    {
        self.model_var.as_ref()
    }

    /// Returns the unmodeled fields in source order.
    pub fn unmodeled_fields(&self) -> (r: &[FieldReference])
        ensures
            r@ == self.spec_unmodeled_fields(),
    {
        self.unmodeled_fields.as_slice()
    }
}

/// Service GPU declarations in scalar `all` or detailed list form.
#[derive(Debug, Clone, PartialEq, Eq)]
pub enum Gpus {
    /// The portable scalar selector, normally `all`.
    All(Located<String>),
    /// Ordered long-form selectors.
    Devices {
        /// Span of the complete selector sequence.
        span: SourceSpan,
        /// Selectors in authored order.
        devices: Vec<GpuDevice>,
        /// Exact spans of malformed selector items retained in the syntax document.
        unmodeled_items: Vec<SourceSpan>,
    },
}

impl Gpus {
    /// The span of the authored value.
    pub open spec fn spec_span(&self) -> SourceSpan {
        match self {
            Gpus::All(value) => value.spec_span(),
            Gpus::Devices { span, .. } => *span,
        }
    }

    /// The spans of malformed selector items; none for the scalar form.
    pub open spec fn spec_unmodeled_items(&self) -> Seq<SourceSpan> {
        match self {
            Gpus::All(_) => Seq::<SourceSpan>::empty(),
            Gpus::Devices { unmodeled_items, .. } => unmodeled_items@,
        }
    }

    /// Returns the span of the authored value.
    pub fn span(&self) -> (r: SourceSpan)
        ensures
            r == self.spec_span(),
    {
        match self {
            Gpus::All(value) => value.span(),
            Gpus::Devices { span, .. } => *span,
        }
    }

    /// Returns malformed selector-item spans retained without device allocation interpretation.
    pub fn unmodeled_items(&self) -> (r: &[SourceSpan])
        ensures
            r@ == self.spec_unmodeled_items(),
    {
        match self {
            Gpus::All(_) => {
                let none: &[SourceSpan] = &[];
                assert(none@ =~= Seq::<SourceSpan>::empty());
                none
            },
            Gpus::Devices { unmodeled_items, .. } => unmodeled_items.as_slice(),
        }
    }
}

/// One source-aware long-form GPU selector.
#[derive(Debug, Clone, PartialEq, Eq)]
pub struct GpuDevice {
    span: SourceSpan,
    capabilities: Vec<Located<String>>,
    count: Option<Located<ComposeScalar>>,
    device_ids: Vec<Located<String>>,
    driver: Option<Located<String>>,
    options: Option<GpuOptions>,
    unmodeled_fields: Vec<FieldReference>,
}

impl GpuDevice {
    /// The source span.
    pub closed spec fn spec_span(&self) -> SourceSpan {
        self.span
    }

    /// The `capabilities` items.
    pub closed spec fn spec_capabilities(&self) -> Seq<Located<String>> {
        self.capabilities@
    }

    /// The `count` field.
    pub closed spec fn spec_count(&self) -> Option<Located<ComposeScalar>> {
        self.count
    }

    /// The `device_ids` items.
    pub closed spec fn spec_device_ids(&self) -> Seq<Located<String>> {
        self.device_ids@
    }

    /// The `driver` field.
    pub closed spec fn spec_driver(&self) -> Option<Located<String>> {
        self.driver
    }

    /// The `options` field.
    pub closed spec fn spec_options(&self) -> Option<GpuOptions> {
        self.options
    }

    /// The unmodeled fields in source order.
    pub closed spec fn spec_unmodeled_fields(&self) -> Seq<FieldReference> {
        self.unmodeled_fields@
    }

    /// Creates a `GpuDevice` with no optional fields set.
    pub fn new(span: SourceSpan) -> (r: Self)
        ensures
            r.spec_span() == span,
            r.spec_capabilities().len() == 0,
            r.spec_count() is None,
            r.spec_device_ids().len() == 0,
            r.spec_driver() is None,
            r.spec_options() is None,
            r.spec_unmodeled_fields().len() == 0,
    {
        Self {
            span,
            capabilities: Vec::new(),
            count: None,
            device_ids: Vec::new(),
            driver: None,
            options: None,
            unmodeled_fields: Vec::new(),
        }
    }

    /// Sets the `capabilities` field.
    pub fn set_capabilities(&mut self, value: Vec<Located<String>>)
        ensures
            final(self).spec_capabilities() == value@,
            final(self).spec_span() == old(self).spec_span(),
            final(self).spec_count() == old(self).spec_count(),
            final(self).spec_device_ids() == old(self).spec_device_ids(),
            final(self).spec_driver() == old(self).spec_driver(),
            final(self).spec_options() == old(self).spec_options(),
            final(self).spec_unmodeled_fields() == old(self).spec_unmodeled_fields(),
    {
        self.capabilities = value;
    }

    /// Sets the `count` field.
    pub fn set_count(&mut self, value: Located<ComposeScalar>)
        ensures
            final(self).spec_count() == Some(value),
            final(self).spec_span() == old(self).spec_span(),
            final(self).spec_capabilities() == old(self).spec_capabilities(),
            final(self).spec_device_ids() == old(self).spec_device_ids(),
            final(self).spec_driver() == old(self).spec_driver(),
            final(self).spec_options() == old(self).spec_options(),
            final(self).spec_unmodeled_fields() == old(self).spec_unmodeled_fields(),
    {
        self.count = Some(value);
    }

    /// Sets the `device_ids` field.
    pub fn set_device_ids(&mut self, value: Vec<Located<String>>)
        ensures
            final(self).spec_device_ids() == value@,
            final(self).spec_span() == old(self).spec_span(),
            final(self).spec_capabilities() == old(self).spec_capabilities(),
            final(self).spec_count() == old(self).spec_count(),
            final(self).spec_driver() == old(self).spec_driver(),
            final(self).spec_options() == old(self).spec_options(),
            final(self).spec_unmodeled_fields() == old(self).spec_unmodeled_fields(),
    {
        self.device_ids = value;
    }

    /// Sets the `driver` field.
    pub fn set_driver(&mut self, value: Located<String>)
        ensures
            final(self).spec_driver() == Some(value),
            final(self).spec_span() == old(self).spec_span(),
            final(self).spec_capabilities() == old(self).spec_capabilities(),
            final(self).spec_count() == old(self).spec_count(),
            final(self).spec_device_ids() == old(self).spec_device_ids(),
            final(self).spec_options() == old(self).spec_options(),
            final(self).spec_unmodeled_fields() == old(self).spec_unmodeled_fields(),
    {
        self.driver = Some(value);
    }

    /// Sets the `options` field.
    pub fn set_options(&mut self, value: GpuOptions)
        ensures
            final(self).spec_options() == Some(value),
            final(self).spec_span() == old(self).spec_span(),
            final(self).spec_capabilities() == old(self).spec_capabilities(),
            final(self).spec_count() == old(self).spec_count(),
            final(self).spec_device_ids() == old(self).spec_device_ids(),
            final(self).spec_driver() == old(self).spec_driver(),
            final(self).spec_unmodeled_fields() == old(self).spec_unmodeled_fields(),
    {
        self.options = Some(value);
    }

    /// Appends to the `unmodeled_fields` list.
    pub fn push_unmodeled(&mut self, value: FieldReference)
        ensures
            final(self).spec_unmodeled_fields() == old(self).spec_unmodeled_fields().push(value),
            final(self).spec_span() == old(self).spec_span(),
            final(self).spec_capabilities() == old(self).spec_capabilities(),
            final(self).spec_count() == old(self).spec_count(),
            final(self).spec_device_ids() == old(self).spec_device_ids(),
            final(self).spec_driver() == old(self).spec_driver(),
            final(self).spec_options() == old(self).spec_options(),
    {
        self.unmodeled_fields.push(value);
    }

    /// Returns the source span.
    pub fn span(&self) -> (r: SourceSpan)
        ensures
            r == self.spec_span(),
    {
        self.span
    }

    /// Returns the `capabilities` items.
    pub fn capabilities(&self) -> (r: &[Located<String>])
        ensures
            r@ == self.spec_capabilities(),
    {
        self.capabilities.as_slice()
    }

    /// Returns the `count` field.
    pub fn count(&self) -> (r: Option<&Located<ComposeScalar>>)
        ensures
            r is Some <==> self.spec_count() is Some,
            r matches Some(v) ==> *v == self.spec_count()->0,
    {
        self.count.as_ref()
    }

    /// Returns the `device_ids` items.
    pub fn device_ids(&self) -> (r: &[Located<String>])
        ensures
            r@ == self.spec_device_ids(),
    {
        self.device_ids.as_slice()
    }

    /// Returns the `driver` field.
    pub fn driver(&self) -> (r: Option<&Located<String>>)
        ensures
            r is Some <==> self.spec_driver() is Some,
            r matches Some(v) ==> *v == self.spec_driver()->0,
    {
        self.driver.as_ref()
    }

    /// Returns the `options` field.
    pub fn options(&self) -> (r: Option<&GpuOptions>)
        ensures
            r is Some <==> self.spec_options() is Some,
            r matches Some(v) ==> *v == self.spec_options()->0,
    {
        self.options.as_ref()
    }

    /// Returns the unmodeled fields in source order.
    pub fn unmodeled_fields(&self) -> (r: &[FieldReference])
        ensures
            r@ == self.spec_unmodeled_fields(),
    {
        self.unmodeled_fields.as_slice()
    }
}

/// GPU selector options in their authored mapping or list form.
#[derive(Debug, Clone, PartialEq, Eq)]
#[non_exhaustive]
pub enum GpuOptions {
    /// Ordered mapping entries with scalar values.
    Mapping(Vec<KeyValueEntry>),
    /// Ordered raw string option entries.
    List(Vec<Located<String>>),
}

impl GpuOptions {
    /// Returns mapping entries when the selector used mapping syntax.
    pub fn as_mapping(&self) -> (r: Option<&[KeyValueEntry]>)
        ensures
            r is Some <==> self is Mapping,
            r matches Some(v) ==> self matches GpuOptions::Mapping(entries) && v@ == entries@,
    {
        match self {
            GpuOptions::Mapping(entries) => Some(entries.as_slice()),
            GpuOptions::List(_) => None,
        }
    }

    /// Returns list entries when the selector used list syntax.
    pub fn as_list(&self) -> (r: Option<&[Located<String>]>)
        ensures
            r is Some <==> self is List,
            r matches Some(v) ==> self matches GpuOptions::List(items) && v@ == items@,
    {
        match self {
            GpuOptions::List(items) => Some(items.as_slice()),
            GpuOptions::Mapping(_) => None,
        }
    }
}

/// Side-effect-free `develop` watch configuration.
#[derive(Clone, PartialEq, Eq)]
pub struct Develop {
    span: SourceSpan,
    watch: Vec<DevelopWatch>,
    unmodeled_fields: Vec<FieldReference>,
    unmodeled_items: Vec<SourceSpan>,
}

impl Develop {
    /// The source span.
    pub closed spec fn spec_span(&self) -> SourceSpan {
        self.span
    }

    /// The watch rules in authored order.
    pub closed spec fn spec_watch(&self) -> Seq<DevelopWatch> {
        self.watch@
    }

    /// The unmodeled fields in source order.
    pub closed spec fn spec_unmodeled_fields(&self) -> Seq<FieldReference> {
        self.unmodeled_fields@
    }

    /// The spans of malformed items retained in the syntax document.
    pub closed spec fn spec_unmodeled_items(&self) -> Seq<SourceSpan> {
        self.unmodeled_items@
    }

    /// Creates a `Develop`.
    pub fn new(span: SourceSpan, watch: Vec<DevelopWatch>, unmodeled_fields: Vec<FieldReference>, unmodeled_items: Vec<SourceSpan>) -> (r: Self)
        ensures
            r.spec_span() == span,
            r.spec_watch() == watch@,
            r.spec_unmodeled_fields() == unmodeled_fields@,
            r.spec_unmodeled_items() == unmodeled_items@,
    {
        Self {
            span,
            watch,
            unmodeled_fields,
            unmodeled_items,
        }
    }

    /// Returns the source span.
    pub fn span(&self) -> (r: SourceSpan)
        ensures
            r == self.spec_span(),
    {
        self.span
    }

    /// Returns the watch rules in authored order.
    pub fn watch(&self) -> (r: &[DevelopWatch])
        ensures
            r@ == self.spec_watch(),
    {
        self.watch.as_slice()
    }

    /// Returns the unmodeled fields in source order.
    pub fn unmodeled_fields(&self) -> (r: &[FieldReference])
        ensures
            r@ == self.spec_unmodeled_fields(),
    {
        self.unmodeled_fields.as_slice()
    }

    /// Returns the spans of malformed items retained in the syntax document.
    pub fn unmodeled_items(&self) -> (r: &[SourceSpan])
        ensures
            r@ == self.spec_unmodeled_items(),
    {
        self.unmodeled_items.as_slice()
    }
}

/// One declared watch action. The type deliberately never watches a path or executes a command.
#[derive(Clone, PartialEq, Eq)]
pub struct DevelopWatch {
    span: SourceSpan,
    action: Option<Located<String>>,
    path: Option<Located<String>>,
    target: Option<Located<String>>,
    ignore: Vec<Located<String>>,
    include_patterns: Vec<Located<String>>,
    initial_sync: Option<Located<BooleanValue>>,
    exec_hook: Option<DevelopWatchExec>,
    unmodeled_fields: Vec<FieldReference>,
}

impl DevelopWatch {
    /// The source span.
    pub closed spec fn spec_span(&self) -> SourceSpan {
        self.span
    }

    /// The `action` field.
    pub closed spec fn spec_action(&self) -> Option<Located<String>> {
        self.action
    }

    /// The `path` field.
    pub closed spec fn spec_path(&self) -> Option<Located<String>> {
        self.path
    }

    /// The `target` field.
    pub closed spec fn spec_target(&self) -> Option<Located<String>> {
        self.target
    }

    /// The `ignore` patterns.
    pub closed spec fn spec_ignore(&self) -> Seq<Located<String>> {
        self.ignore@
    }

    /// The `include` patterns.
    pub closed spec fn spec_include_patterns(&self) -> Seq<Located<String>> {
        self.include_patterns@
    }

    /// The `initial_sync` flag.
    pub closed spec fn spec_initial_sync(&self) -> Option<Located<BooleanValue>> {
        self.initial_sync
    }

    /// The `exec` hook.
    pub closed spec fn spec_exec_hook(&self) -> Option<DevelopWatchExec> {
        self.exec_hook
    }

    /// The unmodeled fields in source order.
    pub closed spec fn spec_unmodeled_fields(&self) -> Seq<FieldReference> {
        self.unmodeled_fields@
    }

    /// Creates a `DevelopWatch` with no optional fields set.
    pub fn new(span: SourceSpan) -> (r: Self)
        ensures
            r.spec_span() == span,
            r.spec_action() is None,
            r.spec_path() is None,
            r.spec_target() is None,
            r.spec_ignore().len() == 0,
            r.spec_include_patterns().len() == 0,
            r.spec_initial_sync() is None,
            r.spec_exec_hook() is None,
            r.spec_unmodeled_fields().len() == 0,
    {
        Self {
            span,
            action: None,
            path: None,
            target: None,
            ignore: Vec::new(),
            include_patterns: Vec::new(),
            initial_sync: None,
            exec_hook: None,
            unmodeled_fields: Vec::new(),
        }
    }

    /// Sets the `action` field.
    pub fn set_action(&mut self, value: Located<String>)
        ensures
            final(self).spec_action() == Some(value),
            final(self).spec_span() == old(self).spec_span(),
            final(self).spec_path() == old(self).spec_path(),
            final(self).spec_target() == old(self).spec_target(),
            final(self).spec_ignore() == old(self).spec_ignore(),
            final(self).spec_include_patterns() == old(self).spec_include_patterns(),
            final(self).spec_initial_sync() == old(self).spec_initial_sync(),
            final(self).spec_exec_hook() == old(self).spec_exec_hook(),
            final(self).spec_unmodeled_fields() == old(self).spec_unmodeled_fields(),
    {
        self.action = Some(value);
    }

    /// Sets the `path` field.
    pub fn set_path(&mut self, value: Located<String>)
        ensures
            final(self).spec_path() == Some(value),
            final(self).spec_span() == old(self).spec_span(),
            final(self).spec_action() == old(self).spec_action(),
            final(self).spec_target() == old(self).spec_target(),
            final(self).spec_ignore() == old(self).spec_ignore(),
            final(self).spec_include_patterns() == old(self).spec_include_patterns(),
            final(self).spec_initial_sync() == old(self).spec_initial_sync(),
            final(self).spec_exec_hook() == old(self).spec_exec_hook(),
            final(self).spec_unmodeled_fields() == old(self).spec_unmodeled_fields(),
    {
        self.path = Some(value);
    }

    /// Sets the `target` field.
    pub fn set_target(&mut self, value: Located<String>)
        ensures
            final(self).spec_target() == Some(value),
            final(self).spec_span() == old(self).spec_span(),
            final(self).spec_action() == old(self).spec_action(),
            final(self).spec_path() == old(self).spec_path(),
            final(self).spec_ignore() == old(self).spec_ignore(),
            final(self).spec_include_patterns() == old(self).spec_include_patterns(),
            final(self).spec_initial_sync() == old(self).spec_initial_sync(),
            final(self).spec_exec_hook() == old(self).spec_exec_hook(),
            final(self).spec_unmodeled_fields() == old(self).spec_unmodeled_fields(),
    {
        self.target = Some(value);
    }

    /// Sets the `ignore` field.
    pub fn set_ignore(&mut self, value: Vec<Located<String>>)
        ensures
            final(self).spec_ignore() == value@,
            final(self).spec_span() == old(self).spec_span(),
            final(self).spec_action() == old(self).spec_action(),
            final(self).spec_path() == old(self).spec_path(),
            final(self).spec_target() == old(self).spec_target(),
            final(self).spec_include_patterns() == old(self).spec_include_patterns(),
            final(self).spec_initial_sync() == old(self).spec_initial_sync(),
            final(self).spec_exec_hook() == old(self).spec_exec_hook(),
            final(self).spec_unmodeled_fields() == old(self).spec_unmodeled_fields(),
    {
        self.ignore = value;
    }

    /// Sets the `include_patterns` field.
    pub fn set_include_patterns(&mut self, value: Vec<Located<String>>)
        ensures
            final(self).spec_include_patterns() == value@,
            final(self).spec_span() == old(self).spec_span(),
            final(self).spec_action() == old(self).spec_action(),
            final(self).spec_path() == old(self).spec_path(),
            final(self).spec_target() == old(self).spec_target(),
            final(self).spec_ignore() == old(self).spec_ignore(),
            final(self).spec_initial_sync() == old(self).spec_initial_sync(),
            final(self).spec_exec_hook() == old(self).spec_exec_hook(),
            final(self).spec_unmodeled_fields() == old(self).spec_unmodeled_fields(),
    {
        self.include_patterns = value;
    }

    /// Sets the `initial_sync` field.
    pub fn set_initial_sync(&mut self, value: Located<BooleanValue>)
        ensures
            final(self).spec_initial_sync() == Some(value),
            final(self).spec_span() == old(self).spec_span(),
            final(self).spec_action() == old(self).spec_action(),
            final(self).spec_path() == old(self).spec_path(),
            final(self).spec_target() == old(self).spec_target(),
            final(self).spec_ignore() == old(self).spec_ignore(),
            final(self).spec_include_patterns() == old(self).spec_include_patterns(),
            final(self).spec_exec_hook() == old(self).spec_exec_hook(),
            final(self).spec_unmodeled_fields() == old(self).spec_unmodeled_fields(),
    {
        self.initial_sync = Some(value);
    }

    /// Sets the `exec` hook.
    pub fn set_exec(&mut self, value: DevelopWatchExec)
        ensures
            final(self).spec_exec_hook() == Some(value),
            final(self).spec_span() == old(self).spec_span(),
            final(self).spec_action() == old(self).spec_action(),
            final(self).spec_path() == old(self).spec_path(),
            final(self).spec_target() == old(self).spec_target(),
            final(self).spec_ignore() == old(self).spec_ignore(),
            final(self).spec_include_patterns() == old(self).spec_include_patterns(),
            final(self).spec_initial_sync() == old(self).spec_initial_sync(),
            final(self).spec_unmodeled_fields() == old(self).spec_unmodeled_fields(),
    {
        self.exec_hook = Some(value);
    }

    /// Appends to the `unmodeled_fields` list.
    pub fn push_unmodeled(&mut self, value: FieldReference)
        ensures
            final(self).spec_unmodeled_fields() == old(self).spec_unmodeled_fields().push(value),
            final(self).spec_span() == old(self).spec_span(),
            final(self).spec_action() == old(self).spec_action(),
            final(self).spec_path() == old(self).spec_path(),
            final(self).spec_target() == old(self).spec_target(),
            final(self).spec_ignore() == old(self).spec_ignore(),
            final(self).spec_include_patterns() == old(self).spec_include_patterns(),
            final(self).spec_initial_sync() == old(self).spec_initial_sync(),
            final(self).spec_exec_hook() == old(self).spec_exec_hook(),
    {
        self.unmodeled_fields.push(value);
    }

    /// Returns the source span.
    pub fn span(&self) -> (r: SourceSpan)
        ensures
            r == self.spec_span(),
    {
        self.span
    }

    /// Returns the `action` field.
    pub fn action(&self) -> (r: Option<&Located<String>>)
        ensures
            r is Some <==> self.spec_action() is Some,
            r matches Some(v) ==> *v == self.spec_action()->0,
    {
        self.action.as_ref()
    }

    /// Returns the `path` field.
    pub fn path(&self) -> (r: Option<&Located<String>>)
        ensures
            r is Some <==> self.spec_path() is Some,
            r matches Some(v) ==> *v == self.spec_path()->0,
    {
        self.path.as_ref()
    }

    /// Returns the `target` field.
    pub fn target(&self) -> (r: Option<&Located<String>>)
        ensures
            r is Some <==> self.spec_target() is Some,
            r matches Some(v) ==> *v == self.spec_target()->0,
    {
        self.target.as_ref()
    }

    /// Returns the `ignore` patterns.
    pub fn ignore(&self) -> (r: &[Located<String>])
        ensures
            r@ == self.spec_ignore(),
    {
        self.ignore.as_slice()
    }

    /// Returns the `include` patterns.
    pub fn include_patterns(&self) -> (r: &[Located<String>])
        ensures
            r@ == self.spec_include_patterns(),
    {
        self.include_patterns.as_slice()
    }

    /// Returns the `initial_sync` flag.
    pub fn initial_sync(&self) -> (r: Option<&Located<BooleanValue>>)
        ensures
            r is Some <==> self.spec_initial_sync() is Some,
            r matches Some(v) ==> *v == self.spec_initial_sync()->0,
    {
        self.initial_sync.as_ref()
    }

    /// Returns the `exec` hook.
    pub fn exec(&self) -> (r: Option<&DevelopWatchExec>)
        ensures
            r is Some <==> self.spec_exec_hook() is Some,
            r matches Some(v) ==> *v == self.spec_exec_hook()->0,
    {
        self.exec_hook.as_ref()
    }

    /// Returns the unmodeled fields in source order.
    pub fn unmodeled_fields(&self) -> (r: &[FieldReference])
        ensures
            r@ == self.spec_unmodeled_fields(),
    {
        self.unmodeled_fields.as_slice()
    }
}

/// Side-effect-free `develop.watch.exec` configuration: it only retains the hook declaration and never starts a watcher, executes a command, resolves a user or reads an environment file.
#[derive(Clone, PartialEq, Eq)]
pub struct DevelopWatchExec {
    span: SourceSpan,
    command: Option<Command>,
    user: Option<Located<String>>,
    privileged: Option<Located<BooleanValue>>,
    working_dir: Option<Located<String>>,
    environment: Option<Environment>,
    unmodeled_fields: Vec<FieldReference>,
}

impl DevelopWatchExec {
    /// The source span.
    pub closed spec fn spec_span(&self) -> SourceSpan {
        self.span
    }

    /// The `command` field.
    pub closed spec fn spec_command(&self) -> Option<Command> {
        self.command
    }

    /// The `user` field.
    pub closed spec fn spec_user(&self) -> Option<Located<String>> {
        self.user
    }

    /// The `privileged` flag.
    pub closed spec fn spec_privileged(&self) -> Option<Located<BooleanValue>> {
        self.privileged
    }

    /// The `working_dir` field.
    pub closed spec fn spec_working_dir(&self) -> Option<Located<String>> {
        self.working_dir
    }

    /// The `environment` field.
    pub closed spec fn spec_environment(&self) -> Option<Environment> {
        self.environment
    }

    /// The unmodeled fields in source order.
    pub closed spec fn spec_unmodeled_fields(&self) -> Seq<FieldReference> {
        self.unmodeled_fields@
    }

    /// Creates a `DevelopWatchExec` with no optional fields set.
    pub fn new(span: SourceSpan) -> (r: Self)
        ensures
            r.spec_span() == span,
            r.spec_command() is None,
            r.spec_user() is None,
            r.spec_privileged() is None,
            r.spec_working_dir() is None,
            r.spec_environment() is None,
            r.spec_unmodeled_fields().len() == 0,
    {
        Self {
            span,
            command: None,
            user: None,
            privileged: None,
            working_dir: None,
            environment: None,
            unmodeled_fields: Vec::new(),
        }
    }

    /// Sets the `command` field.
    pub fn set_command(&mut self, value: Command)
        ensures
            final(self).spec_command() == Some(value),
            final(self).spec_span() == old(self).spec_span(),
            final(self).spec_user() == old(self).spec_user(),
            final(self).spec_privileged() == old(self).spec_privileged(),
            final(self).spec_working_dir() == old(self).spec_working_dir(),
            final(self).spec_environment() == old(self).spec_environment(),
            final(self).spec_unmodeled_fields() == old(self).spec_unmodeled_fields(),
    {
        self.command = Some(value);
    }

    /// Sets the `user` field.
    pub fn set_user(&mut self, value: Located<String>)
        ensures
            final(self).spec_user() == Some(value),
            final(self).spec_span() == old(self).spec_span(),
            final(self).spec_command() == old(self).spec_command(),
            final(self).spec_privileged() == old(self).spec_privileged(),
            final(self).spec_working_dir() == old(self).spec_working_dir(),
            final(self).spec_environment() == old(self).spec_environment(),
            final(self).spec_unmodeled_fields() == old(self).spec_unmodeled_fields(),
    {
        self.user = Some(value);
    }

    /// Sets the `privileged` field.
    pub fn set_privileged(&mut self, value: Located<BooleanValue>)
        ensures
            final(self).spec_privileged() == Some(value),
            final(self).spec_span() == old(self).spec_span(),
            final(self).spec_command() == old(self).spec_command(),
            final(self).spec_user() == old(self).spec_user(),
            final(self).spec_working_dir() == old(self).spec_working_dir(),
            final(self).spec_environment() == old(self).spec_environment(),
            final(self).spec_unmodeled_fields() == old(self).spec_unmodeled_fields(),
    {
        self.privileged = Some(value);
    }

    /// Sets the `working_dir` field.
    pub fn set_working_dir(&mut self, value: Located<String>)
        ensures
            final(self).spec_working_dir() == Some(value),
            final(self).spec_span() == old(self).spec_span(),
            final(self).spec_command() == old(self).spec_command(),
            final(self).spec_user() == old(self).spec_user(),
            final(self).spec_privileged() == old(self).spec_privileged(),
            final(self).spec_environment() == old(self).spec_environment(),
            final(self).spec_unmodeled_fields() == old(self).spec_unmodeled_fields(),
    {
        self.working_dir = Some(value);
    }

    /// Sets the `environment` field.
    pub fn set_environment(&mut self, value: Environment)
        ensures
            final(self).spec_environment() == Some(value),
            final(self).spec_span() == old(self).spec_span(),
            final(self).spec_command() == old(self).spec_command(),
            final(self).spec_user() == old(self).spec_user(),
            final(self).spec_privileged() == old(self).spec_privileged(),
            final(self).spec_working_dir() == old(self).spec_working_dir(),
            final(self).spec_unmodeled_fields() == old(self).spec_unmodeled_fields(),
    {
        self.environment = Some(value);
    }

    /// Appends to the `unmodeled_fields` list.
    pub fn push_unmodeled(&mut self, value: FieldReference)
        ensures
            final(self).spec_unmodeled_fields() == old(self).spec_unmodeled_fields().push(value),
            final(self).spec_span() == old(self).spec_span(),
            final(self).spec_command() == old(self).spec_command(),
            final(self).spec_user() == old(self).spec_user(),
            final(self).spec_privileged() == old(self).spec_privileged(),
            final(self).spec_working_dir() == old(self).spec_working_dir(),
            final(self).spec_environment() == old(self).spec_environment(),
    {
        self.unmodeled_fields.push(value);
    }

    /// Returns the source span.
    pub fn span(&self) -> (r: SourceSpan)
        ensures
            r == self.spec_span(),
    {
        self.span
    }

    /// Returns the `command` field.
    pub fn command(&self) -> (r: Option<&Command>)
        ensures
            r is Some <==> self.spec_command() is Some,
            r matches Some(v) ==> *v == self.spec_command()->0,
    {
        self.command.as_ref()
    }

    /// Returns the `user` field.
    pub fn user(&self) -> (r: Option<&Located<String>>)
        ensures
            r is Some <==> self.spec_user() is Some,
            r matches Some(v) ==> *v == self.spec_user()->0,
    {
        self.user.as_ref()
    }

    /// Returns the `privileged` flag.
    pub fn privileged(&self) -> (r: Option<&Located<BooleanValue>>)
        ensures
            r is Some <==> self.spec_privileged() is Some,
            r matches Some(v) ==> *v == self.spec_privileged()->0,
    {
        self.privileged.as_ref()
    }

    /// Returns the `working_dir` field.
    pub fn working_dir(&self) -> (r: Option<&Located<String>>)
        ensures
            r is Some <==> self.spec_working_dir() is Some,
            r matches Some(v) ==> *v == self.spec_working_dir()->0,
    {
        self.working_dir.as_ref()
    }

    /// Returns the `environment` field.
    pub fn environment(&self) -> (r: Option<&Environment>)
        ensures
            r is Some <==> self.spec_environment() is Some,
            r matches Some(v) ==> *v == self.spec_environment()->0,
    {
        self.environment.as_ref()
    }

    /// Returns the unmodeled fields in source order.
    pub fn unmodeled_fields(&self) -> (r: &[FieldReference])
        ensures
            r@ == self.spec_unmodeled_fields(),
    {
        self.unmodeled_fields.as_slice()
    }
}

} // verus!
