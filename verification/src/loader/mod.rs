//! Ordered, caller-supplied Compose project loading and recursive include traversal.
//!
//! Nothing here reads files or the environment: every document, every included project and
//! every directory decision comes from the caller. The YAML reader and the typed project view
//! are not part of this crate, so a project's effective typed view ([`ProjectView`]) travels
//! with the caller-created [`IncludedProjectInput`] that it describes.

pub mod composition;
pub mod include_paths;

pub use composition::{
    IncludeComposition, IncludeCompositionResult, IncludeDefinition, IncludeDefinitionEvidence,
    IncludeResourceConflict,
};

use crate::diagnostic::{any_error, has_error, same_diagnostic, Diagnostic, DiagnosticCode, DiagnosticLabel, Severity};
use crate::interpolation::{same_diagnostics, DocumentInterpolation};
use crate::model::network::NetworkDefinition;
use crate::model::remaining::{IncludeItem, IncludeLong, ModelDefinition};
use crate::model::resource::{ConfigDefinition, SecretDefinition, VolumeDefinition};
use crate::model::{FieldReference, Located, Service};
use crate::source::{SourceId, SourceSpan};
use crate::text::{owned, str_eq};
use vstd::prelude::*;

verus! {

/// The caller-defined location of one Compose document.
///
/// The label is for display and may be a path, URI, or synthetic name. The directory is kept
/// verbatim; it is never canonicalized or opened.
#[derive(Debug, Clone, PartialEq, Eq)]
pub struct DocumentOrigin {
    label: String,
    directory: String,
}

impl DocumentOrigin {
    /// The display label.
    pub closed spec fn spec_label(&self) -> Seq<char> {
        self.label@
    }

    /// The document directory.
    pub closed spec fn spec_directory(&self) -> Seq<char> {
        self.directory@
    }

    /// Creates an explicit document origin.
    pub fn new(label: String, directory: String) -> (r: Self)
        ensures
            r.spec_label() == label@,
            r.spec_directory() == directory@,
    {
        Self { label, directory }
    }

    /// Returns the caller-defined display label.
    pub fn label(&self) -> (r: &str)
        ensures
            r@ == self.spec_label(),
    {
        self.label.as_str()
    }

    /// Returns the caller-supplied directory associated with this document.
    pub fn directory(&self) -> (r: &str)
        ensures
            r@ == self.spec_directory(),
    {
        self.directory.as_str()
    }

    /// Returns an equal copy.
    pub fn duplicate(&self) -> (r: Self)
        ensures
            r == *self,
    {
        Self { label: self.label.clone(), directory: self.directory.clone() }
    }
}

/// One source document supplied to the project loader.
#[derive(Debug, Clone, PartialEq, Eq)]
pub struct DocumentInput {
    source_id: SourceId,
    origin: DocumentOrigin,
    source: String,
}

impl DocumentInput {
    /// The caller-managed source identifier.
    pub closed spec fn spec_source_id(&self) -> SourceId {
        self.source_id
    }

    /// The document origin.
    pub closed spec fn spec_origin(&self) -> DocumentOrigin {
        self.origin
    }

    /// The source text.
    pub closed spec fn spec_source(&self) -> Seq<char> {
        self.source@
    }

    /// Creates an input without reading the file system or process environment.
    pub fn new(source_id: SourceId, origin: DocumentOrigin, source: String) -> (r: Self)
        ensures
            r.spec_source_id() == source_id,
            r.spec_origin() == origin,
            r.spec_source() == source@,
    {
        Self { source_id, origin, source }
    }

    /// Returns the caller-managed source identifier.
    pub fn source_id(&self) -> (r: SourceId)
        ensures
            r == self.spec_source_id(),
    {
        self.source_id
    }

    /// Returns the caller-defined document origin.
    pub fn origin(&self) -> (r: &DocumentOrigin)
        ensures
            *r == self.spec_origin(),
    {
        &self.origin
    }

    /// Returns the supplied source text.
    pub fn source_text(&self) -> (r: &str)
        ensures
            r@ == self.spec_source(),
    {
        self.source.as_str()
    }

    /// Returns an equal copy.
    pub fn duplicate(&self) -> (r: Self)
        ensures
            r == *self,
    {
        Self { source_id: self.source_id, origin: self.origin.duplicate(), source: self.source.clone() }
    }
}

/// Copies a sequence of documents element by element.
fn duplicate_documents(documents: &[DocumentInput]) -> (r: Vec<DocumentInput>)
    ensures
        r@ == documents@,
{
    let mut out: Vec<DocumentInput> = Vec::new();
    let mut i: usize = 0;
    while i < documents.len()
        invariant
            0 <= i <= documents.len(),
            out@ == documents@.subrange(0, i as int),
        decreases documents.len() - i,
    {
        out.push(documents[i].duplicate());
        i += 1;
        assert(out@ =~= documents@.subrange(0, i as int));
    }
    assert(out@ =~= documents@);
    out
}

/// The source identifiers of a sequence of documents.
pub open spec fn document_ids(documents: Seq<DocumentInput>) -> Seq<SourceId> {
    documents.map_values(|d: DocumentInput| d.spec_source_id())
}

/// A caller-defined canonical identity for one includable Compose project.
///
/// The caller, not this library, establishes identity equivalence: the text is compared
/// verbatim and never joined, normalized, or canonicalized as a path.
#[derive(Debug, Clone, PartialEq, Eq, PartialOrd, Ord, Hash)]
pub struct IncludeIdentity(String);

impl IncludeIdentity {
    /// The canonical identity text.
    pub closed spec fn spec_text(&self) -> Seq<char> {
        self.0@
    }

    /// Creates an opaque identity whose canonical form is owned by the caller.
    pub fn new(canonical: String) -> (r: Self)
        ensures
            r.spec_text() == canonical@,
    {
        Self(canonical)
    }

    /// Returns the caller-defined canonical identity text.
    pub fn as_str(&self) -> (r: &str)
        ensures
            r@ == self.spec_text(),
    {
        self.0.as_str()
    }

    /// Returns the identity text as an owned string.
    pub fn to_text(&self) -> (r: String)
        ensures
            r@ == self.spec_text(),
    {
        self.0.clone()
    }

    /// Returns an equal copy.
    pub fn duplicate(&self) -> (r: Self)
        ensures
            r == *self,
    {
        Self(self.0.clone())
    }

    /// Reports whether two identities hold the same canonical text.
    pub fn same_as(&self, other: &IncludeIdentity) -> (r: bool)
        ensures
            r == (self.spec_text() == other.spec_text()),
    {
        str_eq(self.0.as_str(), other.0.as_str())
    }
}


/// One named top-level definition of a project's effective typed view.
#[derive(Debug, Clone, PartialEq, Eq)]
pub struct ProjectResource<T> {
    name: String,
    definition: T,
    source: Option<SourceSpan>,
}

impl<T> ProjectResource<T> {
    /// The definition name.
    pub closed spec fn spec_name(&self) -> Seq<char> {
        self.name@
    }

    /// The typed definition.
    pub closed spec fn spec_definition(&self) -> T {
        self.definition
    }

    /// The effective source of the definition, when it has one.
    pub closed spec fn spec_source(&self) -> Option<SourceSpan> {
        self.source
    }

    /// Creates a named definition with its effective source.
    pub fn new(name: String, definition: T, source: Option<SourceSpan>) -> (r: Self)
        ensures
            r.spec_name() == name@,
            r.spec_definition() == definition,
            r.spec_source() == source,
    {
        Self { name, definition, source }
    }

    /// Returns the definition name.
    pub fn name(&self) -> (r: &str)
        ensures
            r@ == self.spec_name(),
    {
        self.name.as_str()
    }

    /// Returns the typed definition.
    pub fn definition(&self) -> (r: &T)
        ensures
            *r == self.spec_definition(),
    {
        &self.definition
    }

    /// Returns the effective source of the definition.
    pub fn source(&self) -> (r: Option<SourceSpan>)
        ensures
            r == self.spec_source(),
    {
        self.source
    }
}

/// The six top-level definition namespaces composed from included projects.
#[derive(Debug, Clone, Copy, PartialEq, Eq, PartialOrd, Ord, Hash, Structural)]
#[non_exhaustive]
pub enum IncludeResourceNamespace {
    /// Compose services.
    Services,
    /// Compose networks.
    Networks,
    /// Compose volumes.
    Volumes,
    /// Compose configs.
    Configs,
    /// Compose secrets.
    Secrets,
    /// Individual Compose model definitions.
    Models,
}

/// The singular noun of a namespace, as diagnostics print it.
pub open spec fn namespace_noun(namespace: IncludeResourceNamespace) -> Seq<char> {
    match namespace {
        IncludeResourceNamespace::Services => "service"@,
        IncludeResourceNamespace::Networks => "network"@,
        IncludeResourceNamespace::Volumes => "volume"@,
        IncludeResourceNamespace::Configs => "config"@,
        IncludeResourceNamespace::Secrets => "secret"@,
        IncludeResourceNamespace::Models => "model"@,
    }
}

impl IncludeResourceNamespace {
    /// Returns the singular noun used in diagnostics.
    pub fn as_str(self) -> (r: &'static str)
        ensures
            r@ == namespace_noun(self),
    {
        match self {
            IncludeResourceNamespace::Services => "service",
            IncludeResourceNamespace::Networks => "network",
            IncludeResourceNamespace::Volumes => "volume",
            IncludeResourceNamespace::Configs => "config",
            IncludeResourceNamespace::Secrets => "secret",
            IncludeResourceNamespace::Models => "model",
        }
    }
}

/// The name and effective source of one resource.
pub open spec fn resource_entry<T>(r: ProjectResource<T>) -> (Seq<char>, Option<SourceSpan>) {
    (r.spec_name(), r.spec_source())
}

/// The names and effective sources of a sequence of resources, in order.
pub open spec fn resource_entries<T>(rs: Seq<ProjectResource<T>>) -> Seq<(Seq<char>, Option<SourceSpan>)> {
    rs.map_values(|r: ProjectResource<T>| resource_entry(r))
}

/// The effective typed view of one project, as far as traversal and composition read it: its
/// effective `include` declarations and its named definitions per namespace, in view order.
#[derive(Debug, Clone, PartialEq, Eq)]
pub struct ProjectView {
    includes: Vec<IncludeItem>,
    services: Vec<ProjectResource<Service>>,
    networks: Vec<ProjectResource<NetworkDefinition>>,
    volumes: Vec<ProjectResource<VolumeDefinition>>,
    configs: Vec<ProjectResource<ConfigDefinition>>,
    secrets: Vec<ProjectResource<SecretDefinition>>,
    models: Vec<ProjectResource<ModelDefinition>>,
}

impl ProjectView {
    /// The effective `include` declarations in authored order.
    pub closed spec fn spec_includes(&self) -> Seq<IncludeItem> {
        self.includes@
    }

    /// The services in view order.
    pub closed spec fn spec_services(&self) -> Seq<ProjectResource<Service>> {
        self.services@
    }

    /// The networks in view order.
    pub closed spec fn spec_networks(&self) -> Seq<ProjectResource<NetworkDefinition>> {
        self.networks@
    }

    /// The volumes in view order.
    pub closed spec fn spec_volumes(&self) -> Seq<ProjectResource<VolumeDefinition>> {
        self.volumes@
    }

    /// The configs in view order.
    pub closed spec fn spec_configs(&self) -> Seq<ProjectResource<ConfigDefinition>> {
        self.configs@
    }

    /// The secrets in view order.
    pub closed spec fn spec_secrets(&self) -> Seq<ProjectResource<SecretDefinition>> {
        self.secrets@
    }

    /// The individual model definitions in view order.
    pub closed spec fn spec_models(&self) -> Seq<ProjectResource<ModelDefinition>> {
        self.models@
    }

    /// The names and sources of the definitions of one namespace, in view order.
    pub open spec fn entries(&self, namespace: IncludeResourceNamespace) -> Seq<(Seq<char>, Option<SourceSpan>)> {
        match namespace {
            IncludeResourceNamespace::Services => resource_entries(self.spec_services()),
            IncludeResourceNamespace::Networks => resource_entries(self.spec_networks()),
            IncludeResourceNamespace::Volumes => resource_entries(self.spec_volumes()),
            IncludeResourceNamespace::Configs => resource_entries(self.spec_configs()),
            IncludeResourceNamespace::Secrets => resource_entries(self.spec_secrets()),
            IncludeResourceNamespace::Models => resource_entries(self.spec_models()),
        }
    }

    /// Creates a view from its parts.
    pub fn new(
        includes: Vec<IncludeItem>,
        services: Vec<ProjectResource<Service>>,
        networks: Vec<ProjectResource<NetworkDefinition>>,
        volumes: Vec<ProjectResource<VolumeDefinition>>,
        configs: Vec<ProjectResource<ConfigDefinition>>,
        secrets: Vec<ProjectResource<SecretDefinition>>,
        models: Vec<ProjectResource<ModelDefinition>>,
    ) -> (r: Self)
        ensures
            r.spec_includes() == includes@,
            r.spec_services() == services@,
            r.spec_networks() == networks@,
            r.spec_volumes() == volumes@,
            r.spec_configs() == configs@,
            r.spec_secrets() == secrets@,
            r.spec_models() == models@,
    {
        Self { includes, services, networks, volumes, configs, secrets, models }
    }

    /// Returns the effective `include` declarations in authored order.
    pub fn includes(&self) -> (r: &[IncludeItem])
        ensures
            r@ == self.spec_includes(),
    {
        self.includes.as_slice()
    }

    /// Returns the services in view order.
    pub fn services(&self) -> (r: &[ProjectResource<Service>])
        ensures
            r@ == self.spec_services(),
    {
        self.services.as_slice()
    }

    /// Returns the networks in view order.
    pub fn networks(&self) -> (r: &[ProjectResource<NetworkDefinition>])
        ensures
            r@ == self.spec_networks(),
    {
        self.networks.as_slice()
    }

    /// Returns the volumes in view order.
    pub fn volumes(&self) -> (r: &[ProjectResource<VolumeDefinition>])
        ensures
            r@ == self.spec_volumes(),
    {
        self.volumes.as_slice()
    }

    /// Returns the configs in view order.
    pub fn configs(&self) -> (r: &[ProjectResource<ConfigDefinition>])
        ensures
            r@ == self.spec_configs(),
    {
        self.configs.as_slice()
    }

    /// Returns the secrets in view order.
    pub fn secrets(&self) -> (r: &[ProjectResource<SecretDefinition>])
        ensures
            r@ == self.spec_secrets(),
    {
        self.secrets.as_slice()
    }

    /// Returns the individual model definitions in view order.
    pub fn models(&self) -> (r: &[ProjectResource<ModelDefinition>])
        ensures
            r@ == self.spec_models(),
    {
        self.models.as_slice()
    }
}

/// A caller-created ordered project input returned by an [`IncludeLoader`], equally suitable
/// for the traversal root. Every origin and source text supplied here is kept; no document is
/// ever discovered from the identity or from declared paths.
#[derive(Debug, Clone, PartialEq, Eq)]
pub struct IncludedProjectInput {
    identity: IncludeIdentity,
    documents: Vec<DocumentInput>,
    view: Option<ProjectView>,
}

impl IncludedProjectInput {
    /// The canonical project identity.
    pub closed spec fn spec_identity(&self) -> IncludeIdentity {
        self.identity
    }

    /// The documents in merge order.
    pub closed spec fn spec_documents(&self) -> Seq<DocumentInput> {
        self.documents@
    }

    /// The project's effective typed view, when the caller supplied one.
    pub closed spec fn spec_view(&self) -> Option<ProjectView> {
        self.view
    }

    /// Creates one project input from caller-created documents in merge order.
    pub fn new(identity: IncludeIdentity, documents: Vec<DocumentInput>) -> (r: Self)
        ensures
            r.spec_identity() == identity,
            r.spec_documents() == documents@,
            r.spec_view() is None,
    {
        Self { identity, documents, view: None }
    }

    /// Attaches the project's effective typed view.
    pub fn with_project_view(self, view: ProjectView) -> (r: Self)
        ensures
            r.spec_identity() == self.spec_identity(),
            r.spec_documents() == self.spec_documents(),
            r.spec_view() == Some(view),
    {
        Self { identity: self.identity, documents: self.documents, view: Some(view) }
    }

    /// Returns the caller-defined canonical project identity.
    pub fn identity(&self) -> (r: &IncludeIdentity)
        ensures
            *r == self.spec_identity(),
    {
        &self.identity
    }

    /// Returns documents in caller-selected merge order.
    pub fn documents(&self) -> (r: &[DocumentInput])
        ensures
            r@ == self.spec_documents(),
    {
        self.documents.as_slice()
    }

    /// Returns the project's effective typed view, when supplied.
    pub fn project_view(&self) -> (r: Option<&ProjectView>)
        ensures
            r is Some <==> self.spec_view() is Some,
            r matches Some(v) ==> *v == self.spec_view()->0,
    {
        self.view.as_ref()
    }
}

/// Two long-form declarations agree in every part.
pub open spec fn same_include_long(a: IncludeLong, b: IncludeLong) -> bool {
    &&& a.spec_span() == b.spec_span()
    &&& a.spec_paths() == b.spec_paths()
    &&& a.spec_env_files() == b.spec_env_files()
    &&& a.spec_project_directory() == b.spec_project_directory()
    &&& a.spec_unmodeled_fields() == b.spec_unmodeled_fields()
}

/// Two declarations agree in form and in every part.
pub open spec fn same_include_item(a: IncludeItem, b: IncludeItem) -> bool {
    match (a, b) {
        (IncludeItem::Short(x), IncludeItem::Short(y)) => x == y,
        (IncludeItem::Long(x), IncludeItem::Long(y)) => same_include_long(x, y),
        (IncludeItem::Unmodeled, IncludeItem::Unmodeled) => true,
        _ => false,
    }
}

/// The complete span of a declaration; an unmodeled form has none.
pub open spec fn include_item_span_of(item: IncludeItem) -> Option<SourceSpan> {
    match item {
        IncludeItem::Short(path) => Some(path.spec_span()),
        IncludeItem::Long(long) => Some(long.spec_span()),
        IncludeItem::Unmodeled => None,
    }
}

/// Copies a sequence of located strings.
fn duplicate_located_all(ls: &[Located<String>]) -> (r: Vec<Located<String>>)
    ensures
        r@ == ls@,
{
    let mut out: Vec<Located<String>> = Vec::new();
    let mut i: usize = 0;
    while i < ls.len()
        invariant
            0 <= i <= ls.len(),
            out@ == ls@.subrange(0, i as int),
        decreases ls.len() - i,
    {
        out.push(ls[i].duplicate());
        i += 1;
        assert(out@ =~= ls@.subrange(0, i as int));
    }
    assert(out@ =~= ls@);
    out
}

/// Copies an optional located string.
fn duplicate_located_option(l: Option<&Located<String>>) -> (r: Option<Located<String>>)
    ensures
        r is Some <==> l is Some,
        r matches Some(v) ==> v == *(l->0),
{
    match l {
        Some(v) => Some(v.duplicate()),
        None => None,
    }
}

/// Copies a sequence of field references.
fn duplicate_fields(fs: &[FieldReference]) -> (r: Vec<FieldReference>)
    ensures
        r@ == fs@,
{
    let mut out: Vec<FieldReference> = Vec::new();
    let mut i: usize = 0;
    while i < fs.len()
        invariant
            0 <= i <= fs.len(),
            out@ == fs@.subrange(0, i as int),
        decreases fs.len() - i,
    {
        out.push(fs[i].duplicate());
        i += 1;
        assert(out@ =~= fs@.subrange(0, i as int));
    }
    assert(out@ =~= fs@);
    out
}

/// Copies one declaration.
fn duplicate_item(item: &IncludeItem) -> (r: IncludeItem)
    ensures
        same_include_item(r, *item),
{
    match item {
        IncludeItem::Short(path) => IncludeItem::Short(path.duplicate()),
        IncludeItem::Long(long) => IncludeItem::Long(
            IncludeLong::new(
                long.span(),
                duplicate_located_all(long.paths()),
                duplicate_located_all(long.env_files()),
                duplicate_located_option(long.project_directory()),
                duplicate_fields(long.unmodeled_fields()),
            ),
        ),
        IncludeItem::Unmodeled => IncludeItem::Unmodeled,
    }
}

/// Copies a sequence of declarations.
fn duplicate_items(items: &[IncludeItem]) -> (r: Vec<IncludeItem>)
    ensures
        r@.len() == items@.len(),
        forall|i: int| 0 <= i < items@.len() ==> same_include_item(#[trigger] r@[i], items@[i]),
{
    let mut out: Vec<IncludeItem> = Vec::new();
    let mut i: usize = 0;
    while i < items.len()
        invariant
            0 <= i <= items.len(),
            out@.len() == i,
            forall|j: int| 0 <= j < i ==> same_include_item(#[trigger] out@[j], items@[j]),
        decreases items.len() - i,
    {
        out.push(duplicate_item(&items[i]));
        i += 1;
    }
    out
}

/// Returns the complete span of a declaration.
fn include_item_span(item: &IncludeItem) -> (r: Option<SourceSpan>)
    ensures
        r == include_item_span_of(*item),
{
    match item {
        IncludeItem::Short(path) => Some(path.span()),
        IncludeItem::Long(long) => Some(long.span()),
        IncludeItem::Unmodeled => None,
    }
}

/// A declaration can be handed to a loader: it has a span, and a long form has paths and no
/// unmodeled member.
pub open spec fn requestable(item: IncludeItem) -> bool {
    match item {
        IncludeItem::Short(_) => true,
        IncludeItem::Long(long) => long.spec_unmodeled_fields().len() == 0 && long.spec_paths().len() > 0,
        IncludeItem::Unmodeled => false,
    }
}

/// The raw paths a requestable declaration names, in declared order.
pub open spec fn item_paths(item: IncludeItem) -> Seq<Located<String>> {
    match item {
        IncludeItem::Short(path) => seq![path],
        IncludeItem::Long(long) => long.spec_paths(),
        IncludeItem::Unmodeled => Seq::empty(),
    }
}

/// The raw environment files a declaration names, in declared order.
pub open spec fn item_env_files(item: IncludeItem) -> Seq<Located<String>> {
    match item {
        IncludeItem::Long(long) => long.spec_env_files(),
        _ => Seq::empty(),
    }
}

/// The raw project directory a declaration names.
pub open spec fn item_project_directory(item: IncludeItem) -> Option<Located<String>> {
    match item {
        IncludeItem::Long(long) => long.spec_project_directory(),
        _ => None,
    }
}

/// A request carries its declaration's raw parts: a short form's one path, or a long form's
/// paths, environment files and project directory, each as declared.
pub open spec fn carries_declaration(q: IncludeRequest) -> bool {
    match q.spec_item() {
        IncludeItem::Short(path) => {
            &&& q.spec_paths() == seq![path]
            &&& q.spec_env_files().len() == 0
            &&& q.spec_project_directory() is None
        },
        IncludeItem::Long(long) => {
            &&& q.spec_paths() == long.spec_paths()
            &&& q.spec_env_files() == long.spec_env_files()
            &&& q.spec_project_directory() == long.spec_project_directory()
        },
        IncludeItem::Unmodeled => false,
    }
}

/// One effective, requestable declaration handed to the caller's [`IncludeLoader`].
///
/// Every path-like value remains raw source data in declared order; the loader alone decides
/// whether and how any document may be obtained.
#[derive(Debug, Clone, PartialEq, Eq)]
pub struct IncludeRequest {
    parent_identity: IncludeIdentity,
    parent_base_directory: String,
    declaration_span: SourceSpan,
    declaration_origin: Option<DocumentOrigin>,
    item: IncludeItem,
    paths: Vec<Located<String>>,
    env_files: Vec<Located<String>>,
    project_directory: Option<Located<String>>,
}

impl IncludeRequest {
    /// The identity of the declaring project.
    pub closed spec fn spec_parent_identity(&self) -> IncludeIdentity {
        self.parent_identity
    }

    /// The declaring project's first-document directory.
    pub closed spec fn spec_parent_base_directory(&self) -> Seq<char> {
        self.parent_base_directory@
    }

    /// The span of the declaration.
    pub closed spec fn spec_declaration_span(&self) -> SourceSpan {
        self.declaration_span
    }

    /// The origin of the declaring document, when known.
    pub closed spec fn spec_declaration_origin(&self) -> Option<DocumentOrigin> {
        self.declaration_origin
    }

    /// The typed declaration.
    pub closed spec fn spec_item(&self) -> IncludeItem {
        self.item
    }

    /// The raw paths.
    pub closed spec fn spec_paths(&self) -> Seq<Located<String>> {
        self.paths@
    }

    /// The raw environment files.
    pub closed spec fn spec_env_files(&self) -> Seq<Located<String>> {
        self.env_files@
    }

    /// The raw project directory.
    pub closed spec fn spec_project_directory(&self) -> Option<Located<String>> {
        self.project_directory
    }

    /// Builds the request for a declaration, or `None` for one that cannot be requested.
    fn from_item(
        parent_identity: IncludeIdentity,
        parent_base_directory: String,
        declaration_origin: Option<DocumentOrigin>,
        item: IncludeItem,
    ) -> (r: Option<Self>)
        ensures
            r is Some <==> requestable(item),
            r matches Some(q) ==> {
                &&& q.spec_parent_identity() == parent_identity
                &&& q.spec_parent_base_directory() == parent_base_directory@
                &&& Some(q.spec_declaration_span()) == include_item_span_of(item)
                &&& q.spec_declaration_origin() == declaration_origin
                &&& q.spec_item() == item
                &&& q.spec_paths() == item_paths(item)
                &&& q.spec_env_files() == item_env_files(item)
                &&& q.spec_project_directory() == item_project_directory(item)
            },
            r matches Some(q) ==> carries_declaration(q),
    {
        let declaration_span = match include_item_span(&item) {
            Some(span) => span,
            None => return None,
        };
        let (paths, env_files, project_directory) = match &item {
            IncludeItem::Short(path) => {
                let mut paths: Vec<Located<String>> = Vec::new();
                paths.push(path.duplicate());
                assert(paths@ =~= seq![*path]);
                (paths, Vec::new(), None)
            },
            IncludeItem::Long(long) => {
                if long.unmodeled_fields().len() == 0 && long.paths().len() > 0 {
                    (
                        duplicate_located_all(long.paths()),
                        duplicate_located_all(long.env_files()),
                        duplicate_located_option(long.project_directory()),
                    )
                } else {
                    return None;
                }
            },
            IncludeItem::Unmodeled => return None,
        };
        Some(
            Self {
                parent_identity,
                parent_base_directory,
                declaration_span,
                declaration_origin,
                item,
                paths,
                env_files,
                project_directory,
            },
        )
    }

    /// Returns the identity of the project that declared this request.
    pub fn parent_identity(&self) -> (r: &IncludeIdentity)
        ensures
            *r == self.spec_parent_identity(),
    {
        &self.parent_identity
    }

    /// Returns the parent project's first-document directory exactly as supplied by the caller.
    pub fn parent_base_directory(&self) -> (r: &str)
        ensures
            r@ == self.spec_parent_base_directory(),
    {
        self.parent_base_directory.as_str()
    }

    /// Returns the complete span of the effective declaration.
    pub fn declaration_span(&self) -> (r: SourceSpan)
        ensures
            r == self.spec_declaration_span(),
    {
        self.declaration_span
    }

    /// Returns the source identifier containing the effective declaration.
    pub fn declaration_source_id(&self) -> (r: SourceId)
        ensures
            r == self.spec_declaration_span().spec_source_id(),
    {
        self.declaration_span.source_id()
    }

    /// Returns the origin of the document containing the declaration, when available.
    pub fn declaration_origin(&self) -> (r: Option<&DocumentOrigin>)
        ensures
            r is Some <==> self.spec_declaration_origin() is Some,
            r matches Some(o) ==> *o == self.spec_declaration_origin()->0,
    {
        self.declaration_origin.as_ref()
    }

    /// Returns the complete effective typed declaration without interpolation.
    pub fn item(&self) -> (r: &IncludeItem)
        ensures
            *r == self.spec_item(),
    {
        &self.item
    }

    /// Returns raw paths in declared order.
    pub fn paths(&self) -> (r: &[Located<String>])
        ensures
            r@ == self.spec_paths(),
    {
        self.paths.as_slice()
    }

    /// Returns raw environment-file declarations in declared order.
    pub fn env_files(&self) -> (r: &[Located<String>])
        ensures
            r@ == self.spec_env_files(),
    {
        self.env_files.as_slice()
    }

    /// Returns the raw optional project-directory declaration.
    pub fn project_directory(&self) -> (r: Option<&Located<String>>)
        ensures
            r is Some <==> self.spec_project_directory() is Some,
            r matches Some(d) ==> *d == self.spec_project_directory()->0,
    {
        self.project_directory.as_ref()
    }
}

/// The only authorization and I/O boundary of recursive traversal, implemented by the caller.
///
/// Implementations may use files, editor buffers, archives, URIs, or another policy; this
/// library itself performs none of those operations.
pub trait IncludeLoader {
    /// Authorizes and loads one requested included project, or says why it will not.
    fn load_include(&self, request: &IncludeRequest) -> Result<IncludedProjectInput, IncludeLoadError>;
}

/// A caller-controlled loading outcome that prevents traversal of one requested edge.
#[derive(Debug, Clone, PartialEq, Eq)]
#[non_exhaustive]
pub enum IncludeLoadError {
    /// The caller's policy denied the request.
    Denied(String),
    /// The caller could not load an authorized request.
    Failed(String),
}

impl IncludeLoadError {
    /// Creates a policy-denial result.
    pub fn denied(message: String) -> (r: Self)
        ensures
            r matches IncludeLoadError::Denied(m) && m@ == message@,
    {
        IncludeLoadError::Denied(message)
    }

    /// Creates a loader-failure result.
    pub fn failed(message: String) -> (r: Self)
        ensures
            r matches IncludeLoadError::Failed(m) && m@ == message@,
    {
        IncludeLoadError::Failed(message)
    }

    /// Returns the caller's message.
    pub fn message(&self) -> (r: &str)
        ensures
            self matches IncludeLoadError::Denied(m) ==> r@ == m@,
            self matches IncludeLoadError::Failed(m) ==> r@ == m@,
    {
        match self {
            IncludeLoadError::Denied(m) => m.as_str(),
            IncludeLoadError::Failed(m) => m.as_str(),
        }
    }
}

/// Some earlier document of the first `j` carries the source identifier of document `j`.
pub open spec fn repeats_earlier(ids: Seq<SourceId>, j: int) -> bool {
    exists|i: int| 0 <= i < j && ids[i] == ids[j]
}

/// The position of the first document whose identifier repeats an earlier one among the first
/// `n`, or -1 when the first `n` identifiers are distinct.
pub open spec fn first_repeat(ids: Seq<SourceId>, n: int) -> int
    decreases n,
{
    if n <= 0 {
        -1
    } else if first_repeat(ids, n - 1) >= 0 {
        first_repeat(ids, n - 1)
    } else if repeats_earlier(ids, n - 1) {
        n - 1
    } else {
        -1
    }
}

/// The first position among the first `n` that holds `id`, or -1.
pub open spec fn first_position(ids: Seq<SourceId>, id: SourceId, n: int) -> int
    decreases n,
{
    if n <= 0 {
        -1
    } else if first_position(ids, id, n - 1) >= 0 {
        first_position(ids, id, n - 1)
    } else if ids[n - 1] == id {
        n - 1
    } else {
        -1
    }
}

proof fn lemma_first_repeat(ids: Seq<SourceId>, n: int)
    requires
        0 <= n <= ids.len(),
    ensures
        -1 <= first_repeat(ids, n) < n,
        first_repeat(ids, n) == -1 <==> forall|j: int| 0 <= j < n ==> !repeats_earlier(ids, j),
        first_repeat(ids, n) >= 0 ==> repeats_earlier(ids, first_repeat(ids, n)) && forall|j: int|
            0 <= j < first_repeat(ids, n) ==> !repeats_earlier(ids, j),
    decreases n,
{
    if n > 0 {
        lemma_first_repeat(ids, n - 1);
    }
}

proof fn lemma_first_position(ids: Seq<SourceId>, id: SourceId, n: int)
    requires
        0 <= n <= ids.len(),
    ensures
        -1 <= first_position(ids, id, n) < n,
        first_position(ids, id, n) == -1 <==> forall|i: int| 0 <= i < n ==> ids[i] != id,
        first_position(ids, id, n) >= 0 ==> ids[first_position(ids, id, n)] == id && forall|i: int|
            0 <= i < first_position(ids, id, n) ==> ids[i] != id,
    decreases n,
{
    if n > 0 {
        lemma_first_position(ids, id, n - 1);
    }
}

/// A fatal project-loading failure.
#[derive(Debug, Clone, PartialEq, Eq)]
pub enum ProjectLoadError {
    /// At least one Compose document is required to establish ordering and a base directory.
    EmptyProject,
    /// Two inputs reused a caller-managed source identifier.
    DuplicateSourceId {
        /// The reused identifier.
        source_id: SourceId,
        /// The first document's display label.
        first_origin: String,
        /// The later document's display label.
        duplicate_origin: String,
    },
}

/// One document of an ordered Compose project.
#[derive(Debug, Clone, PartialEq, Eq)]
pub struct LoadedDocument {
    origin: DocumentOrigin,
    source_id: SourceId,
    source: String,
}

impl LoadedDocument {
    /// The source identifier.
    pub closed spec fn spec_source_id(&self) -> SourceId {
        self.source_id
    }

    /// The retained origin.
    pub closed spec fn spec_origin(&self) -> DocumentOrigin {
        self.origin
    }

    /// The source text.
    pub closed spec fn spec_source(&self) -> Seq<char> {
        self.source@
    }

    /// Returns the document's source identifier.
    pub fn source_id(&self) -> (r: SourceId)
        ensures
            r == self.spec_source_id(),
    {
        self.source_id
    }

    /// Returns the explicit origin retained for this document.
    pub fn origin(&self) -> (r: &DocumentOrigin)
        ensures
            *r == self.spec_origin(),
    {
        &self.origin
    }
}

/// The loaded form of an input: the same identifier, origin and text.
pub open spec fn loaded_from(d: LoadedDocument, input: DocumentInput) -> bool {
    &&& d.spec_source_id() == input.spec_source_id()
    &&& d.spec_origin() == input.spec_origin()
    &&& d.spec_source() == input.spec_source()
}

/// An ordered set of Compose documents and their origins.
///
/// File order is significant: the first document supplies the project directory used by
/// Compose's multi-file relative-path rules, while every document keeps its own origin.
#[derive(Debug, Clone, PartialEq, Eq)]
pub struct LoadedProject {
    documents: Vec<LoadedDocument>,
    base_directory: String,
    diagnostics: Vec<Diagnostic>,
}

impl LoadedProject {
    /// The documents in merge order.
    pub closed spec fn spec_documents(&self) -> Seq<LoadedDocument> {
        self.documents@
    }

    /// The project directory inherited from the first document.
    pub closed spec fn spec_base_directory(&self) -> Seq<char> {
        self.base_directory@
    }

    /// The aggregated diagnostics.
    pub closed spec fn spec_diagnostics(&self) -> Seq<Diagnostic> {
        self.diagnostics@
    }

    /// Accepts ordered, caller-supplied documents as one project. No interpolation or merge is
    /// performed. It fails on an empty input and on the first document (in order) whose source
    /// identifier an earlier document already uses, naming the earliest such document.
    pub fn load(inputs: Vec<DocumentInput>) -> (r: Result<Self, ProjectLoadError>)
        ensures
            inputs@.len() == 0 ==> r is Err && r->Err_0 is EmptyProject,
            inputs@.len() > 0 && first_repeat(document_ids(inputs@), inputs@.len() as int) >= 0 ==> {
                let ids = document_ids(inputs@);
                let j = first_repeat(ids, inputs@.len() as int);
                let i = first_position(ids, ids[j], j);
                (r matches Err(ProjectLoadError::DuplicateSourceId { source_id, first_origin, duplicate_origin })
                    && source_id == ids[j] && first_origin@ == inputs@[i].spec_origin().spec_label()
                    && duplicate_origin@ == inputs@[j].spec_origin().spec_label())
            },
            inputs@.len() > 0 && first_repeat(document_ids(inputs@), inputs@.len() as int) < 0 ==> (r matches Ok(
                p,
            ) && {
                &&& p.spec_documents().len() == inputs@.len()
                &&& forall|k: int| 0 <= k < inputs@.len() ==> loaded_from(#[trigger] p.spec_documents()[k], inputs@[k])
                &&& p.spec_base_directory() == inputs@[0].spec_origin().spec_directory()
                &&& p.spec_diagnostics().len() == 0
            }),
    {
        if inputs.len() == 0 {
            return Err(ProjectLoadError::EmptyProject);
        }
        let ghost ids = document_ids(inputs@);
        let mut j: usize = 0;
        while j < inputs.len()
            invariant
                0 <= j <= inputs@.len(),
                ids == document_ids(inputs@),
                first_repeat(ids, j as int) == -1,
            decreases inputs@.len() - j,
        {
            let id = inputs[j].source_id();
            let mut i: usize = 0;
            while i < j
                invariant
                    0 <= i <= j < inputs@.len(),
                    ids == document_ids(inputs@),
                    id == ids[j as int],
                    first_repeat(ids, j as int) == -1,
                    forall|k: int| 0 <= k < i ==> ids[k] != id,
                decreases j - i,
            {
                if inputs[i].source_id() == id {
                    proof {
                        assert(ids[i as int] == inputs@[i as int].spec_source_id());
                        lemma_first_repeat(ids, j as int);
                        lemma_first_position(ids, id, j as int);
                        assert(repeats_earlier(ids, j as int));
                        let jj: int = j as int;
                        assert(first_repeat(ids, jj + 1) == jj) by {
                            assert(first_repeat(ids, jj) == -1);
                            assert(repeats_earlier(ids, jj));
                        }
                        lemma_first_repeat(ids, inputs@.len() as int);
                        lemma_first_repeat_stable(ids, j + 1, inputs@.len() as int);
                    }
                    return Err(
                        ProjectLoadError::DuplicateSourceId {
                            source_id: id,
                            first_origin: owned(inputs[i].origin().label()),
                            duplicate_origin: owned(inputs[j].origin().label()),
                        },
                    );
                }
                i += 1;
            }
            proof {
                assert(!repeats_earlier(ids, j as int));
            }
            j += 1;
        }
        let base_directory = owned(inputs[0].origin().directory());
        let mut documents: Vec<LoadedDocument> = Vec::new();
        let mut k: usize = 0;
        while k < inputs.len()
            invariant
                0 <= k <= inputs@.len(),
                documents@.len() == k,
                forall|m: int| 0 <= m < k ==> loaded_from(#[trigger] documents@[m], inputs@[m]),
            decreases inputs@.len() - k,
        {
            let input = &inputs[k];
            documents.push(
                LoadedDocument {
                    origin: input.origin().duplicate(),
                    source_id: input.source_id(),
                    source: owned(input.source_text()),
                },
            );
            k += 1;
        }
        Ok(Self { documents, base_directory, diagnostics: Vec::new() })
    }

    /// Returns documents in caller-supplied merge order.
    pub fn documents(&self) -> (r: &[LoadedDocument])
        ensures
            r@ == self.spec_documents(),
    {
        self.documents.as_slice()
    }

    /// Finds the first document with the given source identifier.
    pub fn document(&self, source_id: SourceId) -> (r: Option<&LoadedDocument>)
        ensures
            r is None <==> forall|k: int| 0 <= k < self.spec_documents().len() ==> (
            #[trigger] self.spec_documents()[k]).spec_source_id() != source_id,
            r matches Some(d) ==> exists|k: int|
                0 <= k < self.spec_documents().len() && *d == self.spec_documents()[k] && d.spec_source_id()
                    == source_id && forall|m: int|
                    0 <= m < k ==> (#[trigger] self.spec_documents()[m]).spec_source_id() != source_id,
    {
        let mut k: usize = 0;
        while k < self.documents.len()
            invariant
                0 <= k <= self.documents@.len(),
                forall|m: int| 0 <= m < k ==> (#[trigger] self.documents@[m]).spec_source_id() != source_id,
            decreases self.documents@.len() - k,
        {
            if self.documents[k].source_id() == source_id {
                proof {
                    assert(self.spec_documents()[k as int].spec_source_id() == source_id);
                }
                return Some(&self.documents[k]);
            }
            k += 1;
        }
        None
    }

    /// Returns the project directory inherited from the first document.
    pub fn base_directory(&self) -> (r: &str)
        ensures
            r@ == self.spec_base_directory(),
    {
        self.base_directory.as_str()
    }

    /// Returns aggregated diagnostics in document order.
    pub fn diagnostics(&self) -> (r: &[Diagnostic])
        ensures
            r@ == self.spec_diagnostics(),
    {
        self.diagnostics.as_slice()
    }

    /// Reports whether loading emitted no error diagnostic.
    pub fn is_valid(&self) -> (r: bool)
        ensures
            r == !has_error(self.spec_diagnostics()),
    {
        !any_error(self.diagnostics.as_slice())
    }
}

proof fn lemma_first_repeat_stable(ids: Seq<SourceId>, m: int, n: int)
    requires
        0 <= m <= n <= ids.len(),
        first_repeat(ids, m) >= 0,
    ensures
        first_repeat(ids, n) == first_repeat(ids, m),
    decreases n - m,
{
    if n > m {
        lemma_first_repeat_stable(ids, m, n - 1);
    }
}

/// One visited project occurrence of an [`IncludeResolution`].
///
/// A repeated identity reached through distinct non-cyclic edges is kept as a separate
/// occurrence: traversal does not cache such diamonds.
#[derive(Debug, Clone, PartialEq, Eq)]
pub struct IncludeNode {
    index: usize,
    identity: IncludeIdentity,
    inputs: IncludedProjectInput,
    origins: Vec<DocumentOrigin>,
    loaded_project: Option<LoadedProject>,
}

impl IncludeNode {
    /// The occurrence's position among the resolution's nodes.
    pub closed spec fn spec_index(&self) -> usize {
        self.index
    }

    /// The occurrence's identity.
    pub closed spec fn spec_identity(&self) -> IncludeIdentity {
        self.identity
    }

    /// The complete caller-created input.
    pub closed spec fn spec_inputs(&self) -> IncludedProjectInput {
        self.inputs
    }

    /// The document origins in merge order.
    pub closed spec fn spec_origins(&self) -> Seq<DocumentOrigin> {
        self.origins@
    }

    /// The ordered loaded project, when loading passed.
    pub closed spec fn spec_loaded_project(&self) -> Option<LoadedProject> {
        self.loaded_project
    }

    /// The documents of the occurrence's input.
    pub open spec fn documents(&self) -> Seq<DocumentInput> {
        self.spec_inputs().spec_documents()
    }

    /// The occurrence was loaded.
    pub open spec fn is_loaded(&self) -> bool {
        self.spec_loaded_project() is Some
    }

    /// The effective typed view used for child declarations and composition: the input's view
    /// when the occurrence was loaded.
    pub open spec fn view(&self) -> Option<ProjectView> {
        if self.is_loaded() {
            self.spec_inputs().spec_view()
        } else {
            None
        }
    }

    /// Returns this occurrence's index within [`IncludeResolution::nodes`].
    pub fn index(&self) -> (r: usize)
        ensures
            r == self.spec_index(),
    {
        self.index
    }

    /// Returns this occurrence's caller-defined identity.
    pub fn identity(&self) -> (r: &IncludeIdentity)
        ensures
            *r == self.spec_identity(),
    {
        &self.identity
    }

    /// Returns the complete caller-created input retained for this occurrence.
    pub fn inputs(&self) -> (r: &IncludedProjectInput)
        ensures
            *r == self.spec_inputs(),
    {
        &self.inputs
    }

    /// Returns source origins in the input's merge order.
    pub fn origins(&self) -> (r: &[DocumentOrigin])
        ensures
            r@ == self.spec_origins(),
    {
        self.origins.as_slice()
    }

    /// Returns the ordered loaded project when no fatal load boundary failed.
    pub fn loaded_project(&self) -> (r: Option<&LoadedProject>)
        ensures
            r is Some <==> self.is_loaded(),
            r matches Some(p) ==> *p == self.spec_loaded_project()->0,
    {
        self.loaded_project.as_ref()
    }

    /// Returns the effective typed view used to discover child declarations.
    pub fn project_view(&self) -> (r: Option<&ProjectView>)
        ensures
            r is Some <==> self.view() is Some,
            r matches Some(v) ==> *v == self.view()->0,
    {
        if self.loaded_project.is_some() {
            self.inputs.project_view()
        } else {
            None
        }
    }
}

/// One requested edge in traversal order.
#[derive(Debug, Clone, PartialEq, Eq)]
pub struct IncludeEdge {
    parent: IncludeIdentity,
    child: IncludeIdentity,
    parent_node_index: usize,
    child_node_index: usize,
    request_index: usize,
    cycle: bool,
}

impl IncludeEdge {
    /// The declaring identity.
    pub closed spec fn spec_parent(&self) -> IncludeIdentity {
        self.parent
    }

    /// The identity the loader supplied for the child.
    pub closed spec fn spec_child(&self) -> IncludeIdentity {
        self.child
    }

    /// The declaring occurrence.
    pub closed spec fn spec_parent_node_index(&self) -> usize {
        self.parent_node_index
    }

    /// The target occurrence.
    pub closed spec fn spec_child_node_index(&self) -> usize {
        self.child_node_index
    }

    /// The matching request.
    pub closed spec fn spec_request_index(&self) -> usize {
        self.request_index
    }

    /// The edge targets an already active occurrence.
    pub closed spec fn spec_cycle(&self) -> bool {
        self.cycle
    }

    /// Returns the identity that declared the edge.
    pub fn parent(&self) -> (r: &IncludeIdentity)
        ensures
            *r == self.spec_parent(),
    {
        &self.parent
    }

    /// Returns the identity supplied by the caller's loader for the child.
    pub fn child(&self) -> (r: &IncludeIdentity)
        ensures
            *r == self.spec_child(),
    {
        &self.child
    }

    /// Returns the occurrence index that declared this edge.
    pub fn parent_node_index(&self) -> (r: usize)
        ensures
            r == self.spec_parent_node_index(),
    {
        self.parent_node_index
    }

    /// Returns the target occurrence index: the active occurrence for a cycle, otherwise the
    /// occurrence loaded for this request.
    pub fn child_node_index(&self) -> (r: usize)
        ensures
            r == self.spec_child_node_index(),
    {
        self.child_node_index
    }

    /// Returns the matching [`IncludeResolution::requests`] index.
    pub fn request_index(&self) -> (r: usize)
        ensures
            r == self.spec_request_index(),
    {
        self.request_index
    }

    /// Reports whether this edge targets an already active occurrence.
    pub fn is_cycle(&self) -> (r: bool)
        ensures
            r == self.spec_cycle(),
    {
        self.cycle
    }
}

/// An edge points at existing nodes and a recorded request; a cycle edge points back to an
/// occurrence no later than its declaring one, every other edge forward; its identities are
/// those of the two occurrences.
pub open spec fn edge_wf(e: IncludeEdge, nodes: Seq<IncludeNode>, request_count: int) -> bool {
    &&& e.spec_parent_node_index() < nodes.len()
    &&& e.spec_child_node_index() < nodes.len()
    &&& e.spec_request_index() < request_count
    &&& e.spec_cycle() ==> e.spec_child_node_index() <= e.spec_parent_node_index()
    &&& !e.spec_cycle() ==> e.spec_parent_node_index() < e.spec_child_node_index()
    &&& e.spec_parent().spec_text() == nodes[e.spec_parent_node_index() as int].spec_identity().spec_text()
    &&& e.spec_child().spec_text() == nodes[e.spec_child_node_index() as int].spec_identity().spec_text()
}

/// The source identifier of document `i` of a node's input.
pub open spec fn node_doc_id(n: IncludeNode, i: int) -> SourceId {
    n.documents()[i].spec_source_id()
}

/// No two documents of loaded occurrences share a source identifier.
pub open spec fn loaded_ids_distinct(nodes: Seq<IncludeNode>) -> bool {
    forall|a: int, i: int, b: int, j: int|
        0 <= a < nodes.len() && 0 <= b < nodes.len() && nodes[a].is_loaded() && nodes[b].is_loaded() && 0 <= i
            < nodes[a].documents().len() && 0 <= j < nodes[b].documents().len() && (a != b || i != j)
            ==> #[trigger] node_doc_id(nodes[a], i) != #[trigger] node_doc_id(nodes[b], j)
}

/// The shape every traversal state keeps.
pub open spec fn graph_wf(nodes: Seq<IncludeNode>, edges: Seq<IncludeEdge>, request_count: int) -> bool {
    &&& forall|i: int| 0 <= i < nodes.len() ==> (#[trigger] nodes[i]).spec_index() == i
    &&& forall|k: int| 0 <= k < edges.len() ==> edge_wf(#[trigger] edges[k], nodes, request_count)
    &&& forall|i: int| 0 <= i < nodes.len() && (#[trigger] nodes[i]).is_loaded() ==> nodes[i].documents().len() > 0
    &&& forall|i: int| 0 <= i < nodes.len() ==> (#[trigger] nodes[i]).spec_identity() == nodes[i].spec_inputs().spec_identity()
    &&& forall|i: int| 0 <= i < nodes.len() ==> (#[trigger] nodes[i]).spec_origins() == origins_of(nodes[i].documents())
    &&& loaded_ids_distinct(nodes)
}

/// The partial result a traversal builds.
struct Traversal {
    nodes: Vec<IncludeNode>,
    edges: Vec<IncludeEdge>,
    requests: Vec<IncludeRequest>,
    diagnostics: Vec<Diagnostic>,
}

impl Traversal {
    spec fn wf(&self) -> bool {
        &&& graph_wf(self.nodes@, self.edges@, self.requests@.len() as int)
        &&& forall|q: int| 0 <= q < self.requests@.len() ==> carries_declaration(#[trigger] self.requests@[q])
    }

    /// Everything recorded before is still recorded, unchanged and in place.
    spec fn extends(&self, before: Traversal) -> bool {
        &&& self.nodes@.len() >= before.nodes@.len()
        &&& forall|i: int| 0 <= i < before.nodes@.len() ==> self.nodes@[i] == before.nodes@[i]
        &&& self.edges@.len() >= before.edges@.len()
        &&& forall|k: int| 0 <= k < before.edges@.len() ==> self.edges@[k] == before.edges@[k]
        &&& self.requests@.len() >= before.requests@.len()
        &&& forall|k: int| 0 <= k < before.requests@.len() ==> self.requests@[k] == before.requests@[k]
        &&& self.diagnostics@.len() >= before.diagnostics@.len()
        &&& forall|k: int| 0 <= k < before.diagnostics@.len() ==> self.diagnostics@[k] == before.diagnostics@[k]
    }
}

/// A diagnostic is the error a traversal boundary reports: the given code and message, and a
/// primary "include declaration" label on the span when there is one.
pub open spec fn reports_boundary(d: Diagnostic, code: Seq<char>, message: Seq<char>, span: Option<SourceSpan>) -> bool {
    &&& d.spec_code().text() == code
    &&& d.spec_severity() == Severity::Error
    &&& d.spec_message() == message
    &&& match span {
        Some(s) => d.spec_labels().len() == 1 && d.spec_labels()[0].spec_kind()
            == crate::diagnostic::LabelKind::Primary && d.spec_labels()[0].spec_span() == s
            && d.spec_labels()[0].spec_message() == "include declaration"@,
        None => d.spec_labels().len() == 0,
    }
}

/// Builds a traversal boundary error.
fn include_diagnostic(code: &'static str, message: &'static str, span: Option<SourceSpan>) -> (d: Diagnostic)
    ensures
        reports_boundary(d, code@, message@, span),
        d.spec_notes().len() == 0,
{
    let diagnostic = Diagnostic::new(DiagnosticCode::new(code), Severity::Error, owned(message));
    match span {
        Some(span) => diagnostic.with_label(DiagnosticLabel::primary(span, owned("include declaration"))),
        None => diagnostic,
    }
}

/// The active occurrence carrying the identity, innermost-first search order being irrelevant
/// because active identities are distinct: the first entry from the bottom of the stack.
pub open spec fn first_active(active: Seq<(IncludeIdentity, usize)>, identity: Seq<char>, n: int) -> int
    decreases n,
{
    if n <= 0 {
        -1
    } else if first_active(active, identity, n - 1) >= 0 {
        first_active(active, identity, n - 1)
    } else if active[n - 1].0.spec_text() == identity {
        n - 1
    } else {
        -1
    }
}

proof fn lemma_first_active(active: Seq<(IncludeIdentity, usize)>, identity: Seq<char>, n: int)
    requires
        0 <= n <= active.len(),
    ensures
        -1 <= first_active(active, identity, n) < n,
        first_active(active, identity, n) == -1 <==> forall|k: int|
            0 <= k < n ==> (#[trigger] active[k]).0.spec_text() != identity,
        first_active(active, identity, n) >= 0 ==> active[first_active(active, identity, n)].0.spec_text()
            == identity,
    decreases n,
{
    if n > 0 {
        lemma_first_active(active, identity, n - 1);
    }
}

/// Finds the first active occurrence with the given identity.
fn find_active(active: &Vec<(IncludeIdentity, usize)>, identity: &IncludeIdentity) -> (r: Option<usize>)
    ensures
        r is None <==> first_active(active@, identity.spec_text(), active@.len() as int) == -1,
        r matches Some(n) ==> n == active@[first_active(active@, identity.spec_text(), active@.len() as int)].1,
{
    let mut k: usize = 0;
    while k < active.len()
        invariant
            0 <= k <= active@.len(),
            first_active(active@, identity.spec_text(), k as int) == -1,
        decreases active@.len() - k,
    {
        if active[k].0.same_as(identity) {
            proof {
                lemma_first_active(active@, identity.spec_text(), active@.len() as int);
                assert(first_active(active@, identity.spec_text(), k + 1) == k);
                lemma_first_active_stable(active@, identity.spec_text(), k + 1, active@.len() as int);
            }
            return Some(active[k].1);
        }
        k += 1;
    }
    None
}

proof fn lemma_first_active_stable(active: Seq<(IncludeIdentity, usize)>, identity: Seq<char>, m: int, n: int)
    requires
        0 <= m <= n <= active.len(),
        first_active(active, identity, m) >= 0,
    ensures
        first_active(active, identity, n) == first_active(active, identity, m),
    decreases n - m,
{
    if n > m {
        lemma_first_active_stable(active, identity, m, n - 1);
    }
}

/// The origin of the first document with the given source identifier.
pub open spec fn origin_of(documents: Seq<DocumentInput>, id: SourceId, n: int) -> Option<DocumentOrigin>
    decreases n,
{
    if n <= 0 {
        None
    } else if origin_of(documents, id, n - 1) is Some {
        origin_of(documents, id, n - 1)
    } else if documents[n - 1].spec_source_id() == id {
        Some(documents[n - 1].spec_origin())
    } else {
        None
    }
}

proof fn lemma_origin_of_stable(documents: Seq<DocumentInput>, id: SourceId, m: int, n: int)
    requires
        0 <= m <= n <= documents.len(),
        origin_of(documents, id, m) is Some,
    ensures
        origin_of(documents, id, n) == origin_of(documents, id, m),
    decreases n - m,
{
    if n > m {
        lemma_origin_of_stable(documents, id, m, n - 1);
    }
}

/// Finds the origin of the first document with the given source identifier.
fn find_origin(documents: &[DocumentInput], id: SourceId) -> (r: Option<DocumentOrigin>)
    ensures
        r == origin_of(documents@, id, documents@.len() as int),
{
    let mut k: usize = 0;
    while k < documents.len()
        invariant
            0 <= k <= documents@.len(),
            origin_of(documents@, id, k as int) is None,
        decreases documents@.len() - k,
    {
        if documents[k].source_id() == id {
            proof {
                assert(origin_of(documents@, id, k + 1) == Some(documents@[k as int].spec_origin()));
                lemma_origin_of_stable(documents@, id, k + 1, documents@.len() as int);
            }
            return Some(documents[k].origin().duplicate());
        }
        k += 1;
    }
    None
}

/// The registry after recording identifiers in order, skipping those already recorded.
pub open spec fn registered(reg: Seq<SourceId>, ids: Seq<SourceId>) -> Seq<SourceId>
    decreases ids.len(),
{
    if ids.len() == 0 {
        reg
    } else {
        let prev = registered(reg, ids.drop_last());
        if prev.contains(ids.last()) {
            prev
        } else {
            prev.push(ids.last())
        }
    }
}

/// How many identifiers were already recorded when their turn came.
pub open spec fn rejections(reg: Seq<SourceId>, ids: Seq<SourceId>) -> nat
    decreases ids.len(),
{
    if ids.len() == 0 {
        0
    } else {
        rejections(reg, ids.drop_last()) + if registered(reg, ids.drop_last()).contains(ids.last()) {
            1nat
        } else {
            0nat
        }
    }
}

proof fn lemma_registered_grows(reg: Seq<SourceId>, ids: Seq<SourceId>)
    ensures
        registered(reg, ids).len() >= reg.len(),
        forall|k: int| 0 <= k < reg.len() ==> registered(reg, ids)[k] == reg[k],
        forall|x: SourceId| reg.contains(x) ==> registered(reg, ids).contains(x),
    decreases ids.len(),
{
    if ids.len() > 0 {
        lemma_registered_grows(reg, ids.drop_last());
        let prev = registered(reg, ids.drop_last());
        assert forall|x: SourceId| reg.contains(x) implies registered(reg, ids).contains(x) by {
            assert(prev.contains(x));
            if !prev.contains(ids.last()) {
                let k = choose|k: int| 0 <= k < prev.len() && prev[k] == x;
                assert(prev.push(ids.last())[k] == x);
            }
        }
    }
}

proof fn lemma_registered_clean(reg: Seq<SourceId>, ids: Seq<SourceId>)
    requires
        rejections(reg, ids) == 0,
    ensures
        registered(reg, ids) == reg + ids,
        forall|j: int| 0 <= j < ids.len() ==> !reg.contains(#[trigger] ids[j]),
        forall|i: int, j: int| 0 <= i < j < ids.len() ==> ids[i] != ids[j],
    decreases ids.len(),
{
    if ids.len() > 0 {
        let init = ids.drop_last();
        lemma_registered_clean(reg, init);
        assert(registered(reg, init) == reg + init);
        assert(!(reg + init).contains(ids.last()));
        assert((reg + init).push(ids.last()) =~= reg + ids);
        assert forall|j: int| 0 <= j < ids.len() implies !reg.contains(#[trigger] ids[j]) by {
            if j < ids.len() - 1 {
                assert(ids[j] == init[j]);
            } else {
                if reg.contains(ids[j]) {
                    let k = choose|k: int| 0 <= k < reg.len() && reg[k] == ids[j];
                    assert((reg + init)[k] == ids[j]);
                }
            }
        }
        assert forall|i: int, j: int| 0 <= i < j < ids.len() implies ids[i] != ids[j] by {
            if j == ids.len() - 1 {
                assert((reg + init)[reg.len() + i] == ids[i]);
            } else {
                assert(ids[i] == init[i] && ids[j] == init[j]);
            }
        }
    }
}

/// Reports whether the registry holds the identifier.
fn registry_contains(registry: &Vec<SourceId>, id: SourceId) -> (r: bool)
    ensures
        r == registry@.contains(id),
{
    let mut k: usize = 0;
    while k < registry.len()
        invariant
            0 <= k <= registry@.len(),
            forall|m: int| 0 <= m < k ==> registry@[m] != id,
        decreases registry@.len() - k,
    {
        if registry[k] == id {
            return true;
        }
        k += 1;
    }
    false
}

/// Records the documents' source identifiers across the whole traversal, reporting each one
/// that an earlier document of the traversal (or of this input) already uses.
fn register_source_ids(
    documents: &[DocumentInput],
    registry: &mut Vec<SourceId>,
    diagnostics: &mut Vec<Diagnostic>,
    span: Option<SourceSpan>,
) -> (accepted: bool)
    ensures
        final(registry)@ == registered(old(registry)@, document_ids(documents@)),
        accepted == (rejections(old(registry)@, document_ids(documents@)) == 0),
        final(diagnostics)@.len() == old(diagnostics)@.len() + rejections(old(registry)@, document_ids(documents@)),
        forall|k: int| 0 <= k < old(diagnostics)@.len() ==> final(diagnostics)@[k] == old(diagnostics)@[k],
        forall|k: int|
            old(diagnostics)@.len() <= k < final(diagnostics)@.len() ==> reports_boundary(
                #[trigger] final(diagnostics)@[k],
                "compose.include.duplicate-source-id"@,
                "include traversal reused a caller-managed source identifier"@,
                span,
            ),
{
    let ghost reg0 = registry@;
    let ghost diags0 = diagnostics@;
    let ghost ids = document_ids(documents@);
    let mut accepted = true;
    let mut k: usize = 0;
    while k < documents.len()
        invariant
            0 <= k <= documents@.len(),
            ids == document_ids(documents@),
            ids.len() == documents@.len(),
            registry@ == registered(reg0, ids.subrange(0, k as int)),
            accepted == (rejections(reg0, ids.subrange(0, k as int)) == 0),
            diagnostics@.len() == diags0.len() + rejections(reg0, ids.subrange(0, k as int)),
            forall|m: int| 0 <= m < diags0.len() ==> diagnostics@[m] == diags0[m],
            forall|m: int|
                diags0.len() <= m < diagnostics@.len() ==> reports_boundary(
                    #[trigger] diagnostics@[m],
                    "compose.include.duplicate-source-id"@,
                    "include traversal reused a caller-managed source identifier"@,
                    span,
                ),
        decreases documents@.len() - k,
    {
        let id = documents[k].source_id();
        proof {
            assert(ids.subrange(0, k + 1).drop_last() =~= ids.subrange(0, k as int));
            assert(ids.subrange(0, k + 1).last() == id);
        }
        if registry_contains(registry, id) {
            diagnostics.push(
                include_diagnostic(
                    "compose.include.duplicate-source-id",
                    "include traversal reused a caller-managed source identifier",
                    span,
                ),
            );
            accepted = false;
        } else {
            registry.push(id);
        }
        k += 1;
    }
    proof {
        assert(ids.subrange(0, documents@.len() as int) =~= ids);
    }
    accepted
}

/// Every active entry names an existing occurrence with the same identity.
pub open spec fn active_wf(active: Seq<(IncludeIdentity, usize)>, nodes: Seq<IncludeNode>) -> bool {
    forall|k: int|
        0 <= k < active.len() ==> (#[trigger] active[k]).1 < nodes.len() && nodes[active[k].1 as int].spec_identity().spec_text()
            == active[k].0.spec_text()
}

/// The registry holds every source identifier of every loaded occurrence.
pub open spec fn registry_covers(nodes: Seq<IncludeNode>, reg: Seq<SourceId>) -> bool {
    forall|a: int, i: int|
        0 <= a < nodes.len() && nodes[a].is_loaded() && 0 <= i < nodes[a].documents().len() ==> reg.contains(
            #[trigger] node_doc_id(nodes[a], i),
        )
}

/// The origins of documents, in order.
pub open spec fn origins_of(documents: Seq<DocumentInput>) -> Seq<DocumentOrigin> {
    documents.map_values(|d: DocumentInput| d.spec_origin())
}

/// Copies the origins of documents, in order.
fn duplicate_origins(documents: &[DocumentInput]) -> (r: Vec<DocumentOrigin>)
    ensures
        r@ == origins_of(documents@),
{
    let mut out: Vec<DocumentOrigin> = Vec::new();
    let mut i: usize = 0;
    while i < documents.len()
        invariant
            0 <= i <= documents.len(),
            out@ == origins_of(documents@).subrange(0, i as int),
        decreases documents.len() - i,
    {
        out.push(documents[i].origin().duplicate());
        i += 1;
        assert(out@ =~= origins_of(documents@).subrange(0, i as int));
    }
    assert(out@ =~= origins_of(documents@));
    out
}

proof fn lemma_push_node(nodes: Seq<IncludeNode>, edges: Seq<IncludeEdge>, request_count: int, reg: Seq<SourceId>, n: IncludeNode)
    requires
        graph_wf(nodes, edges, request_count),
        registry_covers(nodes, reg),
        n.spec_index() == nodes.len(),
        n.spec_identity() == n.spec_inputs().spec_identity(),
        n.spec_origins() == origins_of(n.documents()),
        n.is_loaded() ==> n.documents().len() > 0,
        n.is_loaded() ==> forall|j: int| 0 <= j < n.documents().len() ==> !reg.contains(#[trigger] node_doc_id(n, j)),
        n.is_loaded() ==> forall|i: int, j: int|
            0 <= i < j < n.documents().len() ==> node_doc_id(n, i) != node_doc_id(n, j),
    ensures
        graph_wf(nodes.push(n), edges, request_count),
{
    let all = nodes.push(n);
    assert forall|k: int| 0 <= k < edges.len() implies edge_wf(#[trigger] edges[k], all, request_count) by {
        assert(edge_wf(edges[k], nodes, request_count));
    }
    assert forall|a: int, i: int, b: int, j: int|
        0 <= a < all.len() && 0 <= b < all.len() && all[a].is_loaded() && all[b].is_loaded() && 0 <= i
            < all[a].documents().len() && 0 <= j < all[b].documents().len() && (a != b || i != j) implies #[trigger] node_doc_id(
        all[a],
        i,
    ) != #[trigger] node_doc_id(all[b], j) by {
        if a < nodes.len() && b < nodes.len() {
            assert(node_doc_id(nodes[a], i) != node_doc_id(nodes[b], j));
        } else if a < nodes.len() {
            assert(reg.contains(node_doc_id(nodes[a], i)));
        } else if b < nodes.len() {
            assert(reg.contains(node_doc_id(nodes[b], j)));
        } else {
            if i < j {
                assert(node_doc_id(n, i) != node_doc_id(n, j));
            } else {
                assert(node_doc_id(n, j) != node_doc_id(n, i));
            }
        }
    }
}

/// A child occurrence that could not be loaded is still retained, without a loaded project.
fn retain_unloaded_node(input: IncludedProjectInput, t: &mut Traversal)
    ensures
        final(t).nodes@ == old(t).nodes@.push(final(t).nodes@.last()),
        final(t).nodes@.last().spec_index() == old(t).nodes@.len(),
        final(t).nodes@.last().spec_identity() == input.spec_identity(),
        final(t).nodes@.last().spec_inputs() == input,
        final(t).nodes@.last().spec_origins() == origins_of(input.spec_documents()),
        !final(t).nodes@.last().is_loaded(),
        final(t).edges@ == old(t).edges@,
        final(t).requests@ == old(t).requests@,
        final(t).diagnostics@ == old(t).diagnostics@,
{
    let origins = duplicate_origins(input.documents());
    let identity = input.identity().duplicate();
    let index = t.nodes.len();
    t.nodes.push(IncludeNode { index, identity, inputs: input, origins, loaded_project: None });
}

/// Some non-cycle edge targets occurrence `i`.
pub open spec fn has_parent_edge(edges: Seq<IncludeEdge>, i: int) -> bool {
    exists|k: int| 0 <= k < edges.len() && !(#[trigger] edges[k]).spec_cycle() && edges[k].spec_child_node_index() == i
}

/// Distinct non-cycle edges target distinct occurrences: every successful non-cycle request
/// gets an occurrence of its own, even when an identity is reached twice.
pub open spec fn distinct_targets(edges: Seq<IncludeEdge>) -> bool {
    forall|a: int, b: int|
        0 <= a < b < edges.len() && !(#[trigger] edges[a]).spec_cycle() && !(#[trigger] edges[b]).spec_cycle()
            ==> edges[a].spec_child_node_index() != edges[b].spec_child_node_index()
}

/// The non-cycle edges from position `from` on target occurrences at or after `first`.
pub open spec fn targets_from(edges: Seq<IncludeEdge>, from: int, first: int) -> bool {
    forall|k: int| from <= k < edges.len() && !(#[trigger] edges[k]).spec_cycle() ==> first <= edges[k].spec_child_node_index()
}

/// What a loaded occurrence hands to the traversal of its own declarations.
struct PreparedNode {
    identity: IncludeIdentity,
    base_directory: String,
    items: Vec<IncludeItem>,
    node_index: usize,
}

/// Loads one occurrence whose documents were accepted by the registry and retains it; its
/// effective declarations are those of its view.
fn load_include_node(input: IncludedProjectInput, t: &mut Traversal) -> (r: Option<PreparedNode>)
    requires
        input.spec_documents().len() > 0,
        first_repeat(document_ids(input.spec_documents()), input.spec_documents().len() as int) == -1,
    ensures
        final(t).nodes@ == old(t).nodes@.push(final(t).nodes@.last()),
        final(t).nodes@.last().spec_index() == old(t).nodes@.len(),
        final(t).nodes@.last().spec_identity() == input.spec_identity(),
        final(t).nodes@.last().spec_inputs() == input,
        final(t).nodes@.last().spec_origins() == origins_of(input.spec_documents()),
        final(t).edges@ == old(t).edges@,
        final(t).requests@ == old(t).requests@,
        final(t).diagnostics@ == old(t).diagnostics@,
        final(t).nodes@.last().is_loaded(),
        r matches Some(p) && {
            &&& p.identity == input.spec_identity()
            &&& p.node_index == old(t).nodes@.len()
            &&& p.base_directory@ == input.spec_documents()[0].spec_origin().spec_directory()
            &&& p.items@.len() == match input.spec_view() {
                Some(v) => v.spec_includes().len(),
                None => 0,
            }
            &&& forall|k: int| 0 <= k < p.items@.len() ==> same_include_item(#[trigger] p.items@[k], input.spec_view()->0.spec_includes()[k])
        },
{
    let identity = input.identity().duplicate();
    let origins = duplicate_origins(input.documents());
    match LoadedProject::load(duplicate_documents(input.documents())) {
        Ok(project) => {
            let base_directory = owned(project.base_directory());
            let items = match input.project_view() {
                Some(view) => duplicate_items(view.includes()),
                None => Vec::new(),
            };
            let node_index = t.nodes.len();
            t.nodes.push(
                IncludeNode {
                    index: node_index,
                    identity: identity.duplicate(),
                    inputs: input,
                    origins,
                    loaded_project: Some(project),
                },
            );
            Some(PreparedNode { identity, base_directory, items, node_index })
        },
        Err(_) => {
            // The registry accepted the documents: they are non-empty and their identifiers
            // distinct, which is everything the ordered loader checks.
            proof {
                assert(false);
            }
            None
        },
    }
}

/// Visits one project occurrence: retains it, and when it can be loaded, visits its
/// declarations with the occurrence on the active stack. Returns the occurrence's index.
fn visit_project<L: IncludeLoader>(
    input: IncludedProjectInput,
    loader: &L,
    active: &mut Vec<(IncludeIdentity, usize)>,
    registry: &mut Vec<SourceId>,
    t: &mut Traversal,
    request_span: Option<SourceSpan>,
) -> (r: usize)
    requires
        old(t).wf(),
        registry_covers(old(t).nodes@, old(registry)@),
        active_wf(old(active)@, old(t).nodes@),
    ensures
        final(t).wf(),
        final(t).extends(*old(t)),
        registry_covers(final(t).nodes@, final(registry)@),
        final(active)@ == old(active)@,
        final(registry)@.len() >= old(registry)@.len(),
        r == old(t).nodes@.len(),
        r < final(t).nodes@.len(),
        final(t).nodes@[r as int].spec_inputs() == input,
        final(t).nodes@[r as int].spec_identity() == input.spec_identity(),
        forall|i: int| r < i < final(t).nodes@.len() ==> has_parent_edge(final(t).edges@, i),
        forall|i: int|
            r <= i < final(t).nodes@.len() ==> declarations_handled(
                #[trigger] final(t).nodes@[i],
                final(t).requests@,
                final(t).diagnostics@,
            ),
        distinct_targets(old(t).edges@) ==> distinct_targets(final(t).edges@),
        targets_from(final(t).edges@, old(t).edges@.len() as int, r + 1),
        requests_from(final(t).edges@, old(t).edges@.len() as int, old(t).requests@.len() as int),
        settled_range(
            old(t).requests@.len() as int,
            final(t).requests@.len() as int,
            final(t).nodes@,
            final(t).edges@,
            final(t).requests@,
            final(t).diagnostics@,
        ),
        final(t).nodes@[r as int].is_loaded() <==> input.spec_documents().len() > 0 && rejections(
            old(registry)@,
            document_ids(input.spec_documents()),
        ) == 0,
        input.spec_documents().len() == 0 ==> {
            &&& final(t).nodes@.len() == old(t).nodes@.len() + 1
            &&& final(t).edges@ == old(t).edges@
            &&& final(t).requests@ == old(t).requests@
            &&& final(t).diagnostics@.len() == old(t).diagnostics@.len() + 1
            &&& reports_boundary(
                final(t).diagnostics@.last(),
                if request_span is Some {
                    "compose.include.empty-result"@
                } else {
                    "compose.include.empty-root"@
                },
                "included Compose project contains no documents"@,
                request_span,
            )
        },
    decreases usize::MAX - old(registry)@.len(), 1int,
{
    let ghost t0 = *t;
    let ghost reg0 = registry@;
    if input.documents().len() == 0 {
        let code = if request_span.is_some() {
            "compose.include.empty-result"
        } else {
            "compose.include.empty-root"
        };
        t.diagnostics.push(include_diagnostic(code, "included Compose project contains no documents", request_span));
        let ghost t1 = *t;
        retain_unloaded_node(input, t);
        proof {
            lemma_push_node(t1.nodes@, t1.edges@, t1.requests@.len() as int, registry@, t.nodes@.last());
        }
        return t.nodes.len() - 1;
    }
    if !register_source_ids(input.documents(), registry, &mut t.diagnostics, request_span) {
        let ghost t1 = *t;
        proof {
            lemma_registered_grows(reg0, document_ids(input.spec_documents()));
        }
        retain_unloaded_node(input, t);
        proof {
            lemma_push_node(t1.nodes@, t1.edges@, t1.requests@.len() as int, registry@, t.nodes@.last());
        }
        return t.nodes.len() - 1;
    }
    let ghost ids = document_ids(input.spec_documents());
    proof {
        lemma_registered_clean(reg0, ids);
        lemma_first_repeat(ids, ids.len() as int);
        assert forall|j: int| 0 <= j < ids.len() implies !repeats_earlier(ids, j) by {
            if repeats_earlier(ids, j) {
                let i = choose|i: int| 0 <= i < j && ids[i] == ids[j];
                assert(ids[i] != ids[j]);
            }
        }
    }
    let ghost t1 = *t;
    let prepared = load_include_node(input, t);
    proof {
        let n = t.nodes@.last();
        assert forall|j: int| 0 <= j < n.documents().len() implies !reg0.contains(#[trigger] node_doc_id(n, j)) by {
            assert(node_doc_id(n, j) == ids[j]);
        }
        assert forall|i: int, j: int| 0 <= i < j < n.documents().len() implies node_doc_id(n, i) != node_doc_id(n, j) by {
            assert(node_doc_id(n, i) == ids[i]);
            assert(node_doc_id(n, j) == ids[j]);
        }
        lemma_push_node(t1.nodes@, t1.edges@, t1.requests@.len() as int, reg0, n);
        assert forall|a: int, i: int|
            0 <= a < t.nodes@.len() && t.nodes@[a].is_loaded() && 0 <= i < t.nodes@[a].documents().len() implies registry@.contains(
            #[trigger] node_doc_id(t.nodes@[a], i),
        ) by {
            if a < t1.nodes@.len() {
                assert(t.nodes@[a] == t1.nodes@[a]);
                assert(reg0.contains(node_doc_id(t1.nodes@[a], i)));
                let k = choose|k: int| 0 <= k < reg0.len() && reg0[k] == node_doc_id(t1.nodes@[a], i);
                assert(registry@[k] == reg0[k]);
            } else {
                assert(node_doc_id(n, i) == ids[i]);
                assert(registry@[reg0.len() + i] == ids[i]);
            }
        }
    }
    let prepared = match prepared {
        Some(p) => p,
        None => {
            return t.nodes.len() - 1;
        },
    };
    let PreparedNode { identity, base_directory, items, node_index } = prepared;
    let ghost active0 = active@;
    active.push((identity.duplicate(), node_index));
    proof {
        assert forall|k: int| 0 <= k < active@.len() implies (#[trigger] active@[k]).1 < t.nodes@.len()
            && t.nodes@[active@[k].1 as int].spec_identity().spec_text() == active@[k].0.spec_text() by {
            if k < active0.len() {
                assert(active@[k] == active0[k]);
                assert(t.nodes@[active0[k].1 as int] == t0.nodes@[active0[k].1 as int]);
            }
        }
    }
    let _ = registry.len();
    let ghost tv = *t;
    let ghost items_g = items@;
    visit_includes(items, &identity, &base_directory, node_index, loader, active, registry, t);
    active.pop();
    proof {
        assert(active@ =~= active0);
        let n = t.nodes@[node_index as int];
        assert(n == tv.nodes@[node_index as int]);
        assert(n.spec_inputs() == input);
        if n.view() is Some {
            let v = n.view()->0;
            assert forall|j: int| 0 <= j < v.spec_includes().len() implies (requestable(
                #[trigger] v.spec_includes()[j],
            ) ==> requested_like(t.requests@, v.spec_includes()[j], n.spec_identity(), n.documents()[0].spec_origin().spec_directory()))
                && (!requestable(v.spec_includes()[j]) ==> reported_unmodeled(t.diagnostics@, 0, v.spec_includes()[j])) by {
                let item = v.spec_includes()[j];
                assert(same_include_item(items_g[j], item));
                lemma_same_item(items_g[j], item);
                if requestable(item) {
                    assert(requested(t.requests@, tv.requests@.len() as int, items_g[j], identity, base_directory@));
                    let k = choose|k: int|
                        tv.requests@.len() <= k < t.requests@.len() && (#[trigger] t.requests@[k]).spec_item() == items_g[j]
                            && t.requests@[k].spec_parent_identity() == identity && t.requests@[k].spec_parent_base_directory()
                            == base_directory@;
                    assert(same_include_item(t.requests@[k].spec_item(), item));
                } else {
                    assert(reported_unmodeled(t.diagnostics@, tv.diagnostics@.len() as int, items_g[j]));
                }
            }
        }
        assert(declarations_handled(n, t.requests@, t.diagnostics@));
    }
    node_index
}

/// How many of the declarations can be handed to a loader.
pub open spec fn requestable_count(items: Seq<IncludeItem>) -> nat
    decreases items.len(),
{
    if items.len() == 0 {
        0
    } else {
        requestable_count(items.drop_last()) + if requestable(items.last()) {
            1nat
        } else {
            0nat
        }
    }
}

/// Some request recorded from position `from` on hands over the declaration on behalf of the
/// given parent identity and base directory.
pub open spec fn requested(
    requests: Seq<IncludeRequest>,
    from: int,
    item: IncludeItem,
    identity: IncludeIdentity,
    base: Seq<char>,
) -> bool {
    exists|k: int|
        from <= k < requests.len() && (#[trigger] requests[k]).spec_item() == item && requests[k].spec_parent_identity()
            == identity && requests[k].spec_parent_base_directory() == base
}

/// Some diagnostic recorded from position `from` on reports the declaration as unmodeled.
pub open spec fn reported_unmodeled(diags: Seq<Diagnostic>, from: int, item: IncludeItem) -> bool {
    exists|k: int|
        from <= k < diags.len() && reports_boundary(
            #[trigger] diags[k],
            "compose.include.unmodeled"@,
            "effective include declaration is malformed or contains unmodeled members"@,
            include_item_span_of(item),
        )
}

/// Each of the first `p` declarations was either requested or reported as unmodeled, and at
/// least one request was recorded per requestable declaration.
pub open spec fn handled(
    items: Seq<IncludeItem>,
    p: int,
    requests: Seq<IncludeRequest>,
    rfrom: int,
    diags: Seq<Diagnostic>,
    dfrom: int,
    identity: IncludeIdentity,
    base: Seq<char>,
) -> bool {
    &&& requests.len() >= rfrom + requestable_count(items.subrange(0, p))
    &&& forall|j: int|
        0 <= j < p ==> (requestable(#[trigger] items[j]) ==> requested(requests, rfrom, items[j], identity, base)) && (
        !requestable(items[j]) ==> reported_unmodeled(diags, dfrom, items[j]))
}

proof fn lemma_handled_step(
    items: Seq<IncludeItem>,
    p: int,
    r1: Seq<IncludeRequest>,
    r2: Seq<IncludeRequest>,
    rfrom: int,
    d1: Seq<Diagnostic>,
    d2: Seq<Diagnostic>,
    dfrom: int,
    identity: IncludeIdentity,
    base: Seq<char>,
)
    requires
        0 < p <= items.len(),
        handled(items, p - 1, r1, rfrom, d1, dfrom, identity, base),
        r2.len() >= r1.len(),
        forall|k: int| 0 <= k < r1.len() ==> r2[k] == r1[k],
        d2.len() >= d1.len(),
        forall|k: int| 0 <= k < d1.len() ==> d2[k] == d1[k],
        requestable(items[p - 1]) ==> r2.len() > r1.len() && requested(r2, r1.len() as int, items[p - 1], identity, base),
        !requestable(items[p - 1]) ==> reported_unmodeled(d2, d1.len() as int, items[p - 1]),
        0 <= rfrom <= r1.len(),
        0 <= dfrom <= d1.len(),
    ensures
        handled(items, p, r2, rfrom, d2, dfrom, identity, base),
{
    assert(items.subrange(0, p).drop_last() =~= items.subrange(0, p - 1));
    assert forall|j: int| 0 <= j < p implies (requestable(#[trigger] items[j]) ==> requested(
        r2,
        rfrom,
        items[j],
        identity,
        base,
    )) && (!requestable(items[j]) ==> reported_unmodeled(d2, dfrom, items[j])) by {
        if j < p - 1 {
            assert(requestable(items[j]) ==> requested(r1, rfrom, items[j], identity, base));
            assert(!requestable(items[j]) ==> reported_unmodeled(d1, dfrom, items[j]));
            if requestable(items[j]) {
                let k = choose|k: int|
                    rfrom <= k < r1.len() && (#[trigger] r1[k]).spec_item() == items[j] && r1[k].spec_parent_identity()
                        == identity && r1[k].spec_parent_base_directory() == base;
                assert(r2[k] == r1[k]);
            } else {
                let k = choose|k: int|
                    dfrom <= k < d1.len() && reports_boundary(
                        #[trigger] d1[k],
                        "compose.include.unmodeled"@,
                        "effective include declaration is malformed or contains unmodeled members"@,
                        include_item_span_of(items[j]),
                    );
                assert(d2[k] == d1[k]);
            }
        }
    }
}

/// Some recorded request hands over a declaration of the same form and parts on behalf of the
/// given parent identity and base directory.
pub open spec fn requested_like(requests: Seq<IncludeRequest>, item: IncludeItem, identity: IncludeIdentity, base: Seq<char>) -> bool {
    exists|k: int|
        0 <= k < requests.len() && same_include_item((#[trigger] requests[k]).spec_item(), item)
            && requests[k].spec_parent_identity() == identity && requests[k].spec_parent_base_directory() == base
}

/// A loaded occurrence's effective declarations were all dealt with: each requestable one was
/// handed to the loader on its behalf, with its first document's directory, and each other one
/// was reported as unmodeled.
pub open spec fn declarations_handled(n: IncludeNode, requests: Seq<IncludeRequest>, diags: Seq<Diagnostic>) -> bool {
    n.view() matches Some(v) ==> forall|j: int|
        0 <= j < v.spec_includes().len() ==> (requestable(#[trigger] v.spec_includes()[j]) ==> requested_like(
            requests,
            v.spec_includes()[j],
            n.spec_identity(),
            n.documents()[0].spec_origin().spec_directory(),
        )) && (!requestable(v.spec_includes()[j]) ==> reported_unmodeled(diags, 0, v.spec_includes()[j]))
}

proof fn lemma_nodes_kept(
    nodes1: Seq<IncludeNode>,
    nodes2: Seq<IncludeNode>,
    from: int,
    r1: Seq<IncludeRequest>,
    r2: Seq<IncludeRequest>,
    d1: Seq<Diagnostic>,
    d2: Seq<Diagnostic>,
)
    requires
        0 <= from,
        forall|i: int| from <= i < nodes1.len() ==> declarations_handled(#[trigger] nodes1[i], r1, d1),
        nodes2.len() >= nodes1.len(),
        forall|i: int| 0 <= i < nodes1.len() ==> nodes2[i] == nodes1[i],
        r2.len() >= r1.len(),
        forall|k: int| 0 <= k < r1.len() ==> r2[k] == r1[k],
        d2.len() >= d1.len(),
        forall|k: int| 0 <= k < d1.len() ==> d2[k] == d1[k],
    ensures
        forall|i: int| from <= i < nodes1.len() ==> declarations_handled(#[trigger] nodes2[i], r2, d2),
{
    assert forall|i: int| from <= i < nodes1.len() implies declarations_handled(#[trigger] nodes2[i], r2, d2) by {
        let n = nodes1[i];
        assert(nodes2[i] == n);
        assert(declarations_handled(n, r1, d1));
        if n.view() is Some {
            let v = n.view()->0;
            assert forall|j: int| 0 <= j < v.spec_includes().len() implies (requestable(
                #[trigger] v.spec_includes()[j],
            ) ==> requested_like(r2, v.spec_includes()[j], n.spec_identity(), n.documents()[0].spec_origin().spec_directory()))
                && (!requestable(v.spec_includes()[j]) ==> reported_unmodeled(d2, 0, v.spec_includes()[j])) by {
                let item = v.spec_includes()[j];
                if requestable(item) {
                    assert(requested_like(r1, item, n.spec_identity(), n.documents()[0].spec_origin().spec_directory()));
                    let k = choose|k: int|
                        0 <= k < r1.len() && same_include_item((#[trigger] r1[k]).spec_item(), item)
                            && r1[k].spec_parent_identity() == n.spec_identity() && r1[k].spec_parent_base_directory()
                            == n.documents()[0].spec_origin().spec_directory();
                    assert(r2[k] == r1[k]);
                } else {
                    assert(reported_unmodeled(d1, 0, item));
                    let k = choose|k: int|
                        0 <= k < d1.len() && reports_boundary(
                            #[trigger] d1[k],
                            "compose.include.unmodeled"@,
                            "effective include declaration is malformed or contains unmodeled members"@,
                            include_item_span_of(item),
                        );
                    assert(d2[k] == d1[k]);
                }
            }
        }
    }
}

proof fn lemma_same_item(a: IncludeItem, b: IncludeItem)
    requires
        same_include_item(a, b),
    ensures
        requestable(a) == requestable(b),
        include_item_span_of(a) == include_item_span_of(b),
{
}

/// Records a request that the loader refused: the request is kept, and the refusal is reported
/// on the declaration's span, as a denial or as a failure.
fn record_refusal(error: IncludeLoadError, request: IncludeRequest, t: &mut Traversal)
    ensures
        final(t).nodes@ == old(t).nodes@,
        final(t).edges@ == old(t).edges@,
        final(t).requests@ == old(t).requests@.push(request),
        final(t).diagnostics@.len() == old(t).diagnostics@.len() + 1,
        final(t).diagnostics@.drop_last() == old(t).diagnostics@,
        match error {
            IncludeLoadError::Denied(_) => reports_boundary(
                final(t).diagnostics@.last(),
                "compose.include.loader-denied"@,
                "include loader denied this declaration"@,
                Some(request.spec_declaration_span()),
            ),
            IncludeLoadError::Failed(_) => reports_boundary(
                final(t).diagnostics@.last(),
                "compose.include.loader-failed"@,
                "include loader failed to supply this declaration"@,
                Some(request.spec_declaration_span()),
            ),
        },
{
    let span = request.declaration_span();
    let diagnostic = match error {
        IncludeLoadError::Denied(_) => include_diagnostic(
            "compose.include.loader-denied",
            "include loader denied this declaration",
            Some(span),
        ),
        IncludeLoadError::Failed(_) => include_diagnostic(
            "compose.include.loader-failed",
            "include loader failed to supply this declaration",
            Some(span),
        ),
    };
    t.diagnostics.push(diagnostic);
    t.requests.push(request);
    proof {
        assert(t.diagnostics@.drop_last() =~= old(t).diagnostics@);
    }
}

/// Records a request whose loaded identity is already active: a cycle edge from the parent to
/// the active occurrence, and a cycle error on the declaration's span with a note on identity
/// canonicalization. No occurrence is added.
fn record_cycle(
    parent: &IncludeIdentity,
    child: IncludeIdentity,
    parent_node_index: usize,
    active_node_index: usize,
    request_index: usize,
    request_span: SourceSpan,
    t: &mut Traversal,
)
    ensures
        final(t).nodes@ == old(t).nodes@,
        final(t).requests@ == old(t).requests@,
        final(t).edges@.len() == old(t).edges@.len() + 1,
        final(t).edges@.drop_last() == old(t).edges@,
        final(t).edges@.last().spec_parent() == *parent,
        final(t).edges@.last().spec_child() == child,
        final(t).edges@.last().spec_parent_node_index() == parent_node_index,
        final(t).edges@.last().spec_child_node_index() == active_node_index,
        final(t).edges@.last().spec_request_index() == request_index,
        final(t).edges@.last().spec_cycle(),
        final(t).diagnostics@.len() == old(t).diagnostics@.len() + 1,
        final(t).diagnostics@.drop_last() == old(t).diagnostics@,
        reports_boundary(
            final(t).diagnostics@.last(),
            "compose.include.cycle"@,
            "include identity is already active in this traversal"@,
            Some(request_span),
        ),
        final(t).diagnostics@.last().spec_notes().len() == 1,
        final(t).diagnostics@.last().spec_notes()[0]@ == "the caller controls identity canonicalization"@,
{
    t.edges.push(
        IncludeEdge {
            parent: parent.duplicate(),
            child,
            parent_node_index,
            child_node_index: active_node_index,
            request_index,
            cycle: true,
        },
    );
    t.diagnostics.push(
        include_diagnostic(
            "compose.include.cycle",
            "include identity is already active in this traversal",
            Some(request_span),
        ).with_note(owned("the caller controls identity canonicalization")),
    );
    proof {
        assert(t.edges@.drop_last() =~= old(t).edges@);
        assert(t.diagnostics@.drop_last() =~= old(t).diagnostics@);
    }
}

/// The loader's answer to request `q`, as the graph shows it: either a refusal reported on the
/// request's span and no edge carrying the request, or exactly one edge carrying it; a non-cycle
/// edge targets an occurrence of exactly the identity the loader returned.
pub open spec fn request_settled(
    q: int,
    nodes: Seq<IncludeNode>,
    edges: Seq<IncludeEdge>,
    requests: Seq<IncludeRequest>,
    diags: Seq<Diagnostic>,
) -> bool {
    ||| {
        &&& forall|k: int| 0 <= k < edges.len() ==> (#[trigger] edges[k]).spec_request_index() != q
        &&& exists|m: int|
            0 <= m < diags.len() && (reports_boundary(
                #[trigger] diags[m],
                "compose.include.loader-denied"@,
                "include loader denied this declaration"@,
                Some(requests[q].spec_declaration_span()),
            ) || reports_boundary(
                diags[m],
                "compose.include.loader-failed"@,
                "include loader failed to supply this declaration"@,
                Some(requests[q].spec_declaration_span()),
            ))
    }
    ||| exists|k: int|
        0 <= k < edges.len() && (#[trigger] edges[k]).spec_request_index() == q && (forall|k2: int|
            0 <= k2 < edges.len() && (#[trigger] edges[k2]).spec_request_index() == q ==> k2 == k) && (!edges[k].spec_cycle()
            ==> nodes[edges[k].spec_child_node_index() as int].spec_identity() == edges[k].spec_child())
}

/// Every edge from position `from` on carries a request made at or after position `first`.
pub open spec fn requests_from(edges: Seq<IncludeEdge>, from: int, first: int) -> bool {
    forall|k: int| from <= k < edges.len() ==> first <= (#[trigger] edges[k]).spec_request_index()
}

/// Requests `lo` to `hi` are settled.
pub open spec fn settled_range(
    lo: int,
    hi: int,
    nodes: Seq<IncludeNode>,
    edges: Seq<IncludeEdge>,
    requests: Seq<IncludeRequest>,
    diags: Seq<Diagnostic>,
) -> bool {
    forall|q: int| lo <= q < hi ==> request_settled(q, nodes, edges, requests, diags)
}

/// A settled request stays settled when nodes, requests and diagnostics are extended and every
/// new edge carries a later request.
proof fn lemma_settled_kept(
    lo: int,
    hi: int,
    n1: Seq<IncludeNode>,
    e1: Seq<IncludeEdge>,
    r1: Seq<IncludeRequest>,
    d1: Seq<Diagnostic>,
    n2: Seq<IncludeNode>,
    e2: Seq<IncludeEdge>,
    r2: Seq<IncludeRequest>,
    d2: Seq<Diagnostic>,
)
    requires
        0 <= lo,
        hi <= r1.len(),
        settled_range(lo, hi, n1, e1, r1, d1),
        forall|k: int| 0 <= k < e1.len() ==> edge_wf(#[trigger] e1[k], n1, r1.len() as int),
        n2.len() >= n1.len(),
        forall|i: int| 0 <= i < n1.len() ==> n2[i] == n1[i],
        e2.len() >= e1.len(),
        forall|k: int| 0 <= k < e1.len() ==> e2[k] == e1[k],
        r2.len() >= r1.len(),
        forall|k: int| 0 <= k < r1.len() ==> r2[k] == r1[k],
        d2.len() >= d1.len(),
        forall|k: int| 0 <= k < d1.len() ==> d2[k] == d1[k],
        requests_from(e2, e1.len() as int, r1.len() as int),
    ensures
        settled_range(lo, hi, n2, e2, r2, d2),
{
    assert forall|q: int| lo <= q < hi implies request_settled(q, n2, e2, r2, d2) by {
        assert(request_settled(q, n1, e1, r1, d1));
        assert(r2[q] == r1[q]);
        if exists|k: int|
            0 <= k < e1.len() && (#[trigger] e1[k]).spec_request_index() == q && (forall|k2: int|
                0 <= k2 < e1.len() && (#[trigger] e1[k2]).spec_request_index() == q ==> k2 == k) && (!e1[k].spec_cycle()
                ==> n1[e1[k].spec_child_node_index() as int].spec_identity() == e1[k].spec_child()) {
            let k = choose|k: int|
                0 <= k < e1.len() && (#[trigger] e1[k]).spec_request_index() == q && (forall|k2: int|
                    0 <= k2 < e1.len() && (#[trigger] e1[k2]).spec_request_index() == q ==> k2 == k) && (!e1[k].spec_cycle()
                    ==> n1[e1[k].spec_child_node_index() as int].spec_identity() == e1[k].spec_child());
            assert(e2[k] == e1[k]);
            assert(edge_wf(e1[k], n1, r1.len() as int));
            assert forall|k2: int| 0 <= k2 < e2.len() && (#[trigger] e2[k2]).spec_request_index() == q implies k2 == k by {
                if k2 < e1.len() {
                    assert(e2[k2] == e1[k2]);
                }
            }
        } else {
            let m = choose|m: int|
                0 <= m < d1.len() && (reports_boundary(
                    #[trigger] d1[m],
                    "compose.include.loader-denied"@,
                    "include loader denied this declaration"@,
                    Some(r1[q].spec_declaration_span()),
                ) || reports_boundary(
                    d1[m],
                    "compose.include.loader-failed"@,
                    "include loader failed to supply this declaration"@,
                    Some(r1[q].spec_declaration_span()),
                ));
            assert(d2[m] == d1[m]);
            assert forall|k: int| 0 <= k < e2.len() implies (#[trigger] e2[k]).spec_request_index() != q by {
                if k < e1.len() {
                    assert(e2[k] == e1[k]);
                }
            }
        }
    }
}

/// Settled requests stay settled when an edge carrying an earlier request is inserted.
proof fn lemma_settled_insert(
    lo: int,
    hi: int,
    nodes: Seq<IncludeNode>,
    edges: Seq<IncludeEdge>,
    requests: Seq<IncludeRequest>,
    diags: Seq<Diagnostic>,
    p: int,
    edge: IncludeEdge,
)
    requires
        settled_range(lo, hi, nodes, edges, requests, diags),
        0 <= p <= edges.len(),
        edge.spec_request_index() < lo,
    ensures
        settled_range(lo, hi, nodes, edges.insert(p, edge), requests, diags),
{
    let e2 = edges.insert(p, edge);
    assert forall|q: int| lo <= q < hi implies request_settled(q, nodes, e2, requests, diags) by {
        assert(request_settled(q, nodes, edges, requests, diags));
        if exists|k: int|
            0 <= k < edges.len() && (#[trigger] edges[k]).spec_request_index() == q && (forall|k2: int|
                0 <= k2 < edges.len() && (#[trigger] edges[k2]).spec_request_index() == q ==> k2 == k) && (!edges[k].spec_cycle()
                ==> nodes[edges[k].spec_child_node_index() as int].spec_identity() == edges[k].spec_child()) {
            let k = choose|k: int|
                0 <= k < edges.len() && (#[trigger] edges[k]).spec_request_index() == q && (forall|k2: int|
                    0 <= k2 < edges.len() && (#[trigger] edges[k2]).spec_request_index() == q ==> k2 == k) && (!edges[k].spec_cycle()
                    ==> nodes[edges[k].spec_child_node_index() as int].spec_identity() == edges[k].spec_child());
            let k1 = if k < p {
                k
            } else {
                k + 1
            };
            assert(e2[k1] == edges[k]);
            assert forall|k2: int| 0 <= k2 < e2.len() && (#[trigger] e2[k2]).spec_request_index() == q implies k2 == k1 by {
                if k2 < p {
                    assert(e2[k2] == edges[k2]);
                } else if k2 > p {
                    assert(e2[k2] == edges[k2 - 1]);
                }
            }
        } else {
            assert forall|k: int| 0 <= k < e2.len() implies (#[trigger] e2[k]).spec_request_index() != q by {
                if k < p {
                    assert(e2[k] == edges[k]);
                } else if k > p {
                    assert(e2[k] == edges[k - 1]);
                }
            }
        }
    }
}

/// The position on the active stack of an occurrence with the identity, or -1.
pub open spec fn active_position(active: Seq<(IncludeIdentity, usize)>, identity: IncludeIdentity) -> int {
    first_active(active, identity.spec_text(), active.len() as int)
}

/// Records what the loader answered for one request of the occurrence at `node_index`: a
/// refusal is reported and nothing is added; a project whose identity is active gets a cycle
/// edge to the active occurrence and a cycle error; any other project becomes a new occurrence,
/// visited in turn, with a non-cycle edge from the parent carrying the request's index.
fn record_load_outcome<L: IncludeLoader>(
    outcome: Result<IncludedProjectInput, IncludeLoadError>,
    request: IncludeRequest,
    identity: &IncludeIdentity,
    node_index: usize,
    loader: &L,
    active: &mut Vec<(IncludeIdentity, usize)>,
    registry: &mut Vec<SourceId>,
    t: &mut Traversal,
)
    requires
        carries_declaration(request),
        old(t).wf(),
        registry_covers(old(t).nodes@, old(registry)@),
        active_wf(old(active)@, old(t).nodes@),
        node_index < old(t).nodes@.len(),
        old(t).nodes@[node_index as int].spec_identity().spec_text() == identity.spec_text(),
        forall|k: int| 0 <= k < old(active)@.len() ==> (#[trigger] old(active)@[k]).1 <= node_index,
    ensures
        final(t).wf(),
        final(t).extends(*old(t)),
        registry_covers(final(t).nodes@, final(registry)@),
        final(active)@ == old(active)@,
        final(registry)@.len() >= old(registry)@.len(),
        forall|i: int| old(t).nodes@.len() <= i < final(t).nodes@.len() ==> has_parent_edge(final(t).edges@, i),
        distinct_targets(old(t).edges@) ==> distinct_targets(final(t).edges@),
        targets_from(final(t).edges@, old(t).edges@.len() as int, old(t).nodes@.len() as int),
        final(t).requests@.len() > old(t).requests@.len(),
        final(t).requests@[old(t).requests@.len() as int] == request,
        requests_from(final(t).edges@, old(t).edges@.len() as int, old(t).requests@.len() as int),
        settled_range(
            old(t).requests@.len() as int,
            final(t).requests@.len() as int,
            final(t).nodes@,
            final(t).edges@,
            final(t).requests@,
            final(t).diagnostics@,
        ),
        forall|i: int|
            old(t).nodes@.len() <= i < final(t).nodes@.len() ==> declarations_handled(
                #[trigger] final(t).nodes@[i],
                final(t).requests@,
                final(t).diagnostics@,
            ),
        match outcome {
            Err(error) => {
                &&& final(t).nodes@ == old(t).nodes@
                &&& final(t).edges@ == old(t).edges@
                &&& final(t).requests@ == old(t).requests@.push(request)
                &&& final(t).diagnostics@ == old(t).diagnostics@.push(final(t).diagnostics@.last())
                &&& match error {
                    IncludeLoadError::Denied(_) => reports_boundary(
                        final(t).diagnostics@.last(),
                        "compose.include.loader-denied"@,
                        "include loader denied this declaration"@,
                        Some(request.spec_declaration_span()),
                    ),
                    IncludeLoadError::Failed(_) => reports_boundary(
                        final(t).diagnostics@.last(),
                        "compose.include.loader-failed"@,
                        "include loader failed to supply this declaration"@,
                        Some(request.spec_declaration_span()),
                    ),
                }
            },
            Ok(child) => if active_position(old(active)@, child.spec_identity()) >= 0 {
                &&& final(t).nodes@ == old(t).nodes@
                &&& final(t).requests@ == old(t).requests@.push(request)
                &&& final(t).edges@ == old(t).edges@.push(final(t).edges@.last())
                &&& final(t).edges@.last().spec_cycle()
                &&& final(t).edges@.last().spec_parent() == *identity
                &&& final(t).edges@.last().spec_child() == child.spec_identity()
                &&& final(t).edges@.last().spec_parent_node_index() == node_index
                &&& final(t).edges@.last().spec_child_node_index() == old(active)@[active_position(
                    old(active)@,
                    child.spec_identity(),
                )].1
                &&& final(t).edges@.last().spec_request_index() == old(t).requests@.len()
                &&& final(t).diagnostics@ == old(t).diagnostics@.push(final(t).diagnostics@.last())
                &&& reports_boundary(
                    final(t).diagnostics@.last(),
                    "compose.include.cycle"@,
                    "include identity is already active in this traversal"@,
                    Some(request.spec_declaration_span()),
                )
                &&& final(t).diagnostics@.last().spec_notes().len() == 1
                &&& final(t).diagnostics@.last().spec_notes()[0]@ == "the caller controls identity canonicalization"@
            } else {
                &&& final(t).nodes@.len() > old(t).nodes@.len()
                &&& final(t).nodes@[old(t).nodes@.len() as int].spec_inputs() == child
                &&& final(t).edges@.len() > old(t).edges@.len()
                &&& !final(t).edges@[old(t).edges@.len() as int].spec_cycle()
                &&& final(t).edges@[old(t).edges@.len() as int].spec_parent() == *identity
                &&& final(t).edges@[old(t).edges@.len() as int].spec_child() == child.spec_identity()
                &&& final(t).edges@[old(t).edges@.len() as int].spec_parent_node_index() == node_index
                &&& final(t).edges@[old(t).edges@.len() as int].spec_child_node_index() == old(t).nodes@.len()
                &&& final(t).edges@[old(t).edges@.len() as int].spec_request_index() == old(t).requests@.len()
            },
        },
    decreases usize::MAX - old(registry)@.len(), 2int,
{
    let ghost t0 = *t;
    let ghost reg0 = registry@;
    let request_index = t.requests.len();
    let request_span = request.declaration_span();
    let child = match outcome {
        Ok(child) => child,
        Err(error) => {
            record_refusal(error, request, t);
            proof {
                assert(t.diagnostics@ =~= t0.diagnostics@.push(t.diagnostics@.last()));
            }
            return;
        },
    };
    let child_identity = child.identity().duplicate();
    t.requests.push(request);
    let edge_index = t.edges.len();
    match find_active(active, &child_identity) {
        Some(active_node_index) => {
            proof {
                lemma_first_active(active@, child_identity.spec_text(), active@.len() as int);
            }
            let ghost t_mid = *t;
            record_cycle(identity, child_identity, node_index, active_node_index, request_index, request_span, t);
            proof {
                assert(t.edges@ =~= t_mid.edges@.push(t.edges@.last()));
                assert(t.diagnostics@ =~= t_mid.diagnostics@.push(t.diagnostics@.last()));
            }
            return;
        },
        None => {},
    }
    let ghost t1 = *t;
    let _ = registry.len();
    let child_node_index = visit_project(child, loader, active, registry, t, Some(request_span));
    let ghost t2 = *t;
    t.edges.insert(
        edge_index,
        IncludeEdge {
            parent: identity.duplicate(),
            child: child_identity,
            parent_node_index: node_index,
            child_node_index,
            request_index,
            cycle: false,
        },
    );
    proof {
        assert forall|k: int| 0 <= k < t.edges@.len() implies edge_wf(#[trigger] t.edges@[k], t.nodes@, t.requests@.len() as int) by {
            if k < edge_index {
                assert(t.edges@[k] == t2.edges@[k]);
            } else if k > edge_index {
                assert(t.edges@[k] == t2.edges@[k - 1]);
            }
        }
        assert forall|i: int| t0.nodes@.len() <= i < t.nodes@.len() implies has_parent_edge(t.edges@, i) by {
            if i == child_node_index {
                assert(!t.edges@[edge_index as int].spec_cycle());
            } else {
                assert(has_parent_edge(t2.edges@, i));
                let k = choose|k: int| 0 <= k < t2.edges@.len() && !(#[trigger] t2.edges@[k]).spec_cycle()
                    && t2.edges@[k].spec_child_node_index() == i;
                if k < edge_index {
                    assert(t.edges@[k] == t2.edges@[k]);
                } else {
                    assert(t.edges@[k + 1] == t2.edges@[k]);
                }
            }
        }
        assert(t.requests@[request_index as int] == t1.requests@[request_index as int]);
        assert(t.nodes@ == t2.nodes@);
        assert(t.requests@ == t2.requests@);
        assert(t.diagnostics@ == t2.diagnostics@);
        let q = request_index as int;
        let new_edge = t.edges@[edge_index as int];
        assert(t.edges@ =~= t2.edges@.insert(edge_index as int, new_edge));
        lemma_settled_insert(q + 1, t2.requests@.len() as int, t2.nodes@, t2.edges@, t2.requests@, t2.diagnostics@, edge_index as int, new_edge);
        assert forall|k2: int| 0 <= k2 < t.edges@.len() && (#[trigger] t.edges@[k2]).spec_request_index() == q implies k2 == edge_index by {
            if k2 < edge_index {
                assert(t.edges@[k2] == t0.edges@[k2]);
                assert(edge_wf(t0.edges@[k2], t0.nodes@, t0.requests@.len() as int));
            } else if k2 > edge_index {
                assert(t.edges@[k2] == t2.edges@[k2 - 1]);
            }
        }
        assert(request_settled(q, t.nodes@, t.edges@, t.requests@, t.diagnostics@));
        assert forall|k: int| t0.edges@.len() <= k < t.edges@.len() implies t0.requests@.len() <= (#[trigger] t.edges@[k]).spec_request_index() by {
            if k > edge_index {
                assert(t.edges@[k] == t2.edges@[k - 1]);
            }
        }
    }
}

/// Visits the effective declarations of one loaded occurrence in order.
fn visit_includes<L: IncludeLoader>(
    items: Vec<IncludeItem>,
    identity: &IncludeIdentity,
    base_directory: &String,
    node_index: usize,
    loader: &L,
    active: &mut Vec<(IncludeIdentity, usize)>,
    registry: &mut Vec<SourceId>,
    t: &mut Traversal,
)
    requires
        old(t).wf(),
        registry_covers(old(t).nodes@, old(registry)@),
        active_wf(old(active)@, old(t).nodes@),
        node_index < old(t).nodes@.len(),
        old(t).nodes@[node_index as int].spec_identity().spec_text() == identity.spec_text(),
        forall|k: int| 0 <= k < old(active)@.len() ==> (#[trigger] old(active)@[k]).1 <= node_index,
    ensures
        final(t).wf(),
        final(t).extends(*old(t)),
        registry_covers(final(t).nodes@, final(registry)@),
        final(active)@ == old(active)@,
        final(registry)@.len() >= old(registry)@.len(),
        forall|i: int| old(t).nodes@.len() <= i < final(t).nodes@.len() ==> has_parent_edge(final(t).edges@, i),
        distinct_targets(old(t).edges@) ==> distinct_targets(final(t).edges@),
        targets_from(final(t).edges@, old(t).edges@.len() as int, old(t).nodes@.len() as int),
        requests_from(final(t).edges@, old(t).edges@.len() as int, old(t).requests@.len() as int),
        settled_range(
            old(t).requests@.len() as int,
            final(t).requests@.len() as int,
            final(t).nodes@,
            final(t).edges@,
            final(t).requests@,
            final(t).diagnostics@,
        ),
        final(t).requests@.len() >= old(t).requests@.len() + requestable_count(items@),
        forall|j: int|
            0 <= j < items@.len() && requestable(#[trigger] items@[j]) ==> requested(
                final(t).requests@,
                old(t).requests@.len() as int,
                items@[j],
                *identity,
                base_directory@,
            ),
        forall|j: int|
            0 <= j < items@.len() && !requestable(#[trigger] items@[j]) ==> reported_unmodeled(
                final(t).diagnostics@,
                old(t).diagnostics@.len() as int,
                items@[j],
            ),
        forall|i: int|
            old(t).nodes@.len() <= i < final(t).nodes@.len() ==> declarations_handled(
                #[trigger] final(t).nodes@[i],
                final(t).requests@,
                final(t).diagnostics@,
            ),
    decreases usize::MAX - old(registry)@.len(), 3int,
{
    let ghost t0 = *t;
    let ghost reg0 = registry@;
    let ghost active0 = active@;
    let ghost items0 = items@;
    let ghost mut p: int = 0;
    let mut items = items;
    proof {
        assert(items0.subrange(0, 0) =~= Seq::<IncludeItem>::empty());
        assert(items@ =~= items0.subrange(0, items0.len() as int));
    }
    while items.len() > 0
        invariant
            0 <= p <= items0.len(),
            items@ == items0.subrange(p, items0.len() as int),
            forall|i: int|
                t0.nodes@.len() <= i < t.nodes@.len() ==> declarations_handled(
                    #[trigger] t.nodes@[i],
                    t.requests@,
                    t.diagnostics@,
                ),
            handled(
                items0,
                p,
                t.requests@,
                t0.requests@.len() as int,
                t.diagnostics@,
                t0.diagnostics@.len() as int,
                *identity,
                base_directory@,
            ),
            active@ == active0,
            active0 == old(active)@,
            reg0 == old(registry)@,
            t.wf(),
            t.extends(t0),
            t0.wf(),
            registry_covers(t.nodes@, registry@),
            active_wf(active@, t.nodes@),
            registry@.len() >= reg0.len(),
            node_index < t0.nodes@.len(),
            t0.nodes@[node_index as int].spec_identity().spec_text() == identity.spec_text(),
            forall|k: int| 0 <= k < active@.len() ==> (#[trigger] active@[k]).1 <= node_index,
            forall|i: int| t0.nodes@.len() <= i < t.nodes@.len() ==> has_parent_edge(t.edges@, i),
            distinct_targets(t0.edges@) ==> distinct_targets(t.edges@),
            targets_from(t.edges@, t0.edges@.len() as int, t0.nodes@.len() as int),
            requests_from(t.edges@, t0.edges@.len() as int, t0.requests@.len() as int),
            settled_range(t0.requests@.len() as int, t.requests@.len() as int, t.nodes@, t.edges@, t.requests@, t.diagnostics@),
        decreases items@.len(),
    {
        let ghost t_start = *t;
        let ghost items_before = items@;
        let item = items.remove(0);
        proof {
            p = p + 1;
            assert(items@ =~= items0.subrange(p, items0.len() as int));
            assert(item == items0[p - 1]);
        }
        let declaration_span = include_item_span(&item);
        let declaration_origin = match declaration_span {
            Some(span) => find_origin(t.nodes[node_index].inputs.documents(), span.source_id()),
            None => None,
        };
        let request = match IncludeRequest::from_item(
            identity.duplicate(),
            owned(base_directory.as_str()),
            declaration_origin,
            item,
        ) {
            Some(request) => request,
            None => {
                t.diagnostics.push(
                    include_diagnostic(
                        "compose.include.unmodeled",
                        "effective include declaration is malformed or contains unmodeled members",
                        declaration_span,
                    ),
                );
                proof {
                    assert(reports_boundary(
                        t.diagnostics@[t_start.diagnostics@.len() as int],
                        "compose.include.unmodeled"@,
                        "effective include declaration is malformed or contains unmodeled members"@,
                        include_item_span_of(items0[p - 1]),
                    ));
                    lemma_nodes_kept(
                        t_start.nodes@,
                        t.nodes@,
                        t0.nodes@.len() as int,
                        t_start.requests@,
                        t.requests@,
                        t_start.diagnostics@,
                        t.diagnostics@,
                    );
                    lemma_settled_kept(
                        t0.requests@.len() as int,
                        t_start.requests@.len() as int,
                        t_start.nodes@,
                        t_start.edges@,
                        t_start.requests@,
                        t_start.diagnostics@,
                        t.nodes@,
                        t.edges@,
                        t.requests@,
                        t.diagnostics@,
                    );
                    lemma_handled_step(
                        items0,
                        p,
                        t_start.requests@,
                        t.requests@,
                        t0.requests@.len() as int,
                        t_start.diagnostics@,
                        t.diagnostics@,
                        t0.diagnostics@.len() as int,
                        *identity,
                        base_directory@,
                    );
                }
                continue;
            },
        };
        let ghost request_g = request;
        let outcome = loader.load_include(&request);
        let _ = registry.len();
        record_load_outcome(outcome, request, identity, node_index, loader, active, registry, t);
        proof {
            lemma_settled_kept(
                t0.requests@.len() as int,
                t_start.requests@.len() as int,
                t_start.nodes@,
                t_start.edges@,
                t_start.requests@,
                t_start.diagnostics@,
                t.nodes@,
                t.edges@,
                t.requests@,
                t.diagnostics@,
            );
            assert forall|k: int| t0.edges@.len() <= k < t.edges@.len() implies t0.requests@.len() <= (
            #[trigger] t.edges@[k]).spec_request_index() by {
                if k < t_start.edges@.len() {
                    assert(t.edges@[k] == t_start.edges@[k]);
                }
            }
            assert(t.requests@[t_start.requests@.len() as int] == request_g);
            assert(request_g.spec_item() == items0[p - 1]);
            lemma_nodes_kept(
                t_start.nodes@,
                t.nodes@,
                t0.nodes@.len() as int,
                t_start.requests@,
                t.requests@,
                t_start.diagnostics@,
                t.diagnostics@,
            );
            assert forall|i: int| t0.nodes@.len() <= i < t.nodes@.len() implies declarations_handled(
                #[trigger] t.nodes@[i],
                t.requests@,
                t.diagnostics@,
            ) by {
                if i < t_start.nodes@.len() {
                    assert(declarations_handled(t.nodes@[i], t.requests@, t.diagnostics@));
                }
            }
            assert forall|i: int| t0.nodes@.len() <= i < t.nodes@.len() implies has_parent_edge(t.edges@, i) by {
                if i < t_start.nodes@.len() {
                    assert(has_parent_edge(t_start.edges@, i));
                    let k = choose|k: int| 0 <= k < t_start.edges@.len() && !(#[trigger] t_start.edges@[k]).spec_cycle()
                        && t_start.edges@[k].spec_child_node_index() == i;
                    assert(t.edges@[k] == t_start.edges@[k]);
                }
            }
            lemma_handled_step(
                items0,
                p,
                t_start.requests@,
                t.requests@,
                t0.requests@.len() as int,
                t_start.diagnostics@,
                t.diagnostics@,
                t0.diagnostics@.len() as int,
                *identity,
                base_directory@,
            );
        }
    }
    proof {
        assert(items0.subrange(0, p) =~= items0);
    }
}

/// Every request a resolution hands to the loader carries its declaration as declared: a long
/// form's paths, environment files and project directory, in declared order, or a short form's
/// one path with no environment file and no project directory. Nothing unmodeled is requested.
pub proof fn law_requests_carry_declarations(r: IncludeResolution, q: int)
    requires
        r.well_formed(),
        0 <= q < r.spec_requests().len(),
    ensures
        match r.spec_requests()[q].spec_item() {
            IncludeItem::Long(long) => {
                &&& r.spec_requests()[q].spec_env_files() == long.spec_env_files()
                &&& r.spec_requests()[q].spec_paths() == long.spec_paths()
                &&& r.spec_requests()[q].spec_project_directory() == long.spec_project_directory()
            },
            IncludeItem::Short(path) => {
                &&& r.spec_requests()[q].spec_paths() == seq![path]
                &&& r.spec_requests()[q].spec_env_files().len() == 0
                &&& r.spec_requests()[q].spec_project_directory() is None
            },
            IncludeItem::Unmodeled => false,
        },
{
    assert(carries_declaration(r.spec_requests()[q]));
}

/// A partial or complete depth-first traversal of caller-authorized Compose includes.
#[derive(Debug)]
pub struct IncludeResolution {
    root: IncludeIdentity,
    nodes: Vec<IncludeNode>,
    edges: Vec<IncludeEdge>,
    requests: Vec<IncludeRequest>,
    diagnostics: Vec<Diagnostic>,
}

impl IncludeResolution {
    #[verifier::type_invariant]
    spec fn inv(&self) -> bool {
        &&& graph_wf(self.nodes@, self.edges@, self.requests@.len() as int)
        &&& self.nodes@.len() >= 1
        &&& forall|i: int| 0 < i < self.nodes@.len() ==> has_parent_edge(self.edges@, i)
        &&& distinct_targets(self.edges@)
        &&& forall|q: int| 0 <= q < self.requests@.len() ==> carries_declaration(#[trigger] self.requests@[q])
    }

    /// What every resolution holds: each request carries the raw parts of its declaration.
    pub closed spec fn well_formed(&self) -> bool {
        forall|q: int| 0 <= q < self.requests@.len() ==> carries_declaration(#[trigger] self.requests@[q])
    }

    /// The root identity.
    pub closed spec fn spec_root(&self) -> IncludeIdentity {
        self.root
    }

    /// The visited occurrences in depth-first order.
    pub closed spec fn spec_nodes(&self) -> Seq<IncludeNode> {
        self.nodes@
    }

    /// The loader edges in request order.
    pub closed spec fn spec_edges(&self) -> Seq<IncludeEdge> {
        self.edges@
    }

    /// The requests handed to the loader, in order.
    pub closed spec fn spec_requests(&self) -> Seq<IncludeRequest> {
        self.requests@
    }

    /// The traversal diagnostics.
    pub closed spec fn spec_diagnostics(&self) -> Seq<Diagnostic> {
        self.diagnostics@
    }

    /// Loads and traverses one root project in depth-first effective-declaration order.
    ///
    /// Each occurrence is loaded and, when that succeeds, its declarations are requested from the
    /// caller's loader one by one. The graph stays inspectable after denials, loader failures,
    /// malformed declarations, reused source identifiers, cycles, or empty inputs. Resources of
    /// children are never merged or imported into their parents here.
    pub fn load<L: IncludeLoader>(root: IncludedProjectInput, loader: &L) -> (r: Self)
        ensures
            r.spec_root() == root.spec_identity(),
            r.spec_nodes().len() >= 1,
            r.spec_nodes()[0].spec_inputs() == root,
            graph_wf(r.spec_nodes(), r.spec_edges(), r.spec_requests().len() as int),
            loaded_ids_distinct(r.spec_nodes()),
            forall|i: int| 0 < i < r.spec_nodes().len() ==> has_parent_edge(r.spec_edges(), i),
            distinct_targets(r.spec_edges()),
            forall|i: int|
                0 <= i < r.spec_nodes().len() ==> declarations_handled(
                    #[trigger] r.spec_nodes()[i],
                    r.spec_requests(),
                    r.spec_diagnostics(),
                ),
            r.well_formed(),
            forall|q: int|
                0 <= q < r.spec_requests().len() ==> request_settled(
                    q,
                    r.spec_nodes(),
                    r.spec_edges(),
                    r.spec_requests(),
                    r.spec_diagnostics(),
                ),
            r.spec_nodes()[0].is_loaded() <==> root.spec_documents().len() > 0 && rejections(
                Seq::empty(),
                document_ids(root.spec_documents()),
            ) == 0,
            root.spec_documents().len() == 0 ==> {
                &&& r.spec_nodes().len() == 1
                &&& r.spec_edges().len() == 0
                &&& r.spec_requests().len() == 0
                &&& r.spec_diagnostics().len() == 1
                &&& reports_boundary(
                    r.spec_diagnostics()[0],
                    "compose.include.empty-root"@,
                    "included Compose project contains no documents"@,
                    None,
                )
            },
    {
        let root_identity = root.identity().duplicate();
        let mut t = Traversal { nodes: Vec::new(), edges: Vec::new(), requests: Vec::new(), diagnostics: Vec::new() };
        let mut active: Vec<(IncludeIdentity, usize)> = Vec::new();
        let mut registry: Vec<SourceId> = Vec::new();
        proof {
            assert(registry@ =~= Seq::<SourceId>::empty());
        }
        visit_project(root, loader, &mut active, &mut registry, &mut t, None);
        IncludeResolution {
            root: root_identity,
            nodes: t.nodes,
            edges: t.edges,
            requests: t.requests,
            diagnostics: t.diagnostics,
        }
    }

    /// Returns the root identity selected by the caller.
    pub fn root(&self) -> (r: &IncludeIdentity)
        ensures
            *r == self.spec_root(),
    {
        &self.root
    }

    /// Returns visited project occurrences in depth-first traversal order.
    pub fn nodes(&self) -> (r: &[IncludeNode])
        ensures
            r@ == self.spec_nodes(),
    {
        self.nodes.as_slice()
    }

    /// Returns loader edges in request order.
    pub fn edges(&self) -> (r: &[IncludeEdge])
        ensures
            r@ == self.spec_edges(),
    {
        self.edges.as_slice()
    }

    /// Returns every effective declaration submitted to the caller's loader, in order.
    pub fn requests(&self) -> (r: &[IncludeRequest])
        ensures
            r@ == self.spec_requests(),
    {
        self.requests.as_slice()
    }

    /// Returns diagnostics from every reached loading and traversal boundary.
    pub fn diagnostics(&self) -> (r: &[Diagnostic])
        ensures
            r@ == self.spec_diagnostics(),
    {
        self.diagnostics.as_slice()
    }

    /// Reports whether traversal reached no error diagnostic.
    pub fn is_valid(&self) -> (r: bool)
        ensures
            r == !has_error(self.spec_diagnostics()),
    {
        !any_error(self.diagnostics.as_slice())
    }
}

/// Copies diagnostics element by element.
fn duplicate_diagnostics(ds: &[Diagnostic]) -> (r: Vec<Diagnostic>)
    ensures
        r@.len() == ds@.len(),
        forall|i: int| 0 <= i < ds@.len() ==> same_diagnostic(#[trigger] r@[i], ds@[i]),
{
    let mut out: Vec<Diagnostic> = Vec::new();
    let mut i: usize = 0;
    while i < ds.len()
        invariant
            0 <= i <= ds@.len(),
            out@.len() == i,
            forall|j: int| 0 <= j < i ==> same_diagnostic(#[trigger] out@[j], ds@[j]),
        decreases ds@.len() - i,
    {
        out.push(ds[i].duplicate());
        i += 1;
    }
    out
}

/// The diagnostics of per-document overlays, in file order.
pub open spec fn overlay_diagnostics(documents: Seq<DocumentInterpolation>) -> Seq<Diagnostic>
    decreases documents.len(),
{
    if documents.len() == 0 {
        Seq::empty()
    } else {
        overlay_diagnostics(documents.drop_last()) + documents.last().spec_diagnostics()
    }
}

/// Per-file interpolation overlays for one loaded project.
#[derive(Clone, PartialEq, Eq)]
pub struct ProjectInterpolation {
    documents: Vec<DocumentInterpolation>,
    diagnostics: Vec<Diagnostic>,
}

impl ProjectInterpolation {
    /// The document overlays in file order.
    pub closed spec fn spec_documents(&self) -> Seq<DocumentInterpolation> {
        self.documents@
    }

    /// The aggregated diagnostics.
    pub closed spec fn spec_diagnostics(&self) -> Seq<Diagnostic> {
        self.diagnostics@
    }

    /// Gathers per-document overlays, made in file order by
    /// [`crate::interpolation::interpolate_document_with_options`], and aggregates their
    /// diagnostics in the same order.
    pub fn from_documents(documents: Vec<DocumentInterpolation>) -> (r: Self)
        ensures
            r.spec_documents() == documents@,
            same_diagnostics(r.spec_diagnostics(), overlay_diagnostics(documents@)),
    {
        let mut diagnostics: Vec<Diagnostic> = Vec::new();
        let mut i: usize = 0;
        while i < documents.len()
            invariant
                0 <= i <= documents@.len(),
                same_diagnostics(diagnostics@, overlay_diagnostics(documents@.subrange(0, i as int))),
            decreases documents@.len() - i,
        {
            let ghost before = diagnostics@;
            let ds = documents[i].diagnostics();
            let mut j: usize = 0;
            while j < ds.len()
                invariant
                    0 <= j <= ds@.len(),
                    diagnostics@.len() == before.len() + j,
                    forall|k: int| 0 <= k < before.len() ==> diagnostics@[k] == before[k],
                    forall|k: int| 0 <= k < j ==> same_diagnostic(#[trigger] diagnostics@[before.len() + k], ds@[k]),
                decreases ds@.len() - j,
            {
                diagnostics.push(ds[j].duplicate());
                j += 1;
            }
            proof {
                let prefix = documents@.subrange(0, i + 1);
                assert(prefix.drop_last() =~= documents@.subrange(0, i as int));
                let target = overlay_diagnostics(prefix);
                assert(target == overlay_diagnostics(documents@.subrange(0, i as int)) + ds@);
                assert forall|k: int| 0 <= k < diagnostics@.len() implies same_diagnostic(
                    #[trigger] diagnostics@[k],
                    target[k],
                ) by {
                    if k < before.len() {
                        assert(diagnostics@[k] == before[k]);
                    } else {
                        assert(same_diagnostic(diagnostics@[before.len() + (k - before.len())], ds@[k - before.len()]));
                    }
                }
            }
            i += 1;
        }
        proof {
            assert(documents@.subrange(0, documents@.len() as int) =~= documents@);
        }
        Self { documents, diagnostics }
    }

    /// Returns document overlays in file order.
    pub fn documents(&self) -> (r: &[DocumentInterpolation])
        ensures
            r@ == self.spec_documents(),
    {
        self.documents.as_slice()
    }

    /// Finds the first document overlay with the given source identifier.
    pub fn document(&self, source_id: SourceId) -> (r: Option<&DocumentInterpolation>)
        ensures
            r is None <==> forall|k: int|
                0 <= k < self.spec_documents().len() ==> (#[trigger] self.spec_documents()[k]).spec_source_id()
                    != source_id,
            r matches Some(d) ==> exists|k: int|
                0 <= k < self.spec_documents().len() && *d == self.spec_documents()[k] && d.spec_source_id()
                    == source_id && forall|m: int|
                    0 <= m < k ==> (#[trigger] self.spec_documents()[m]).spec_source_id() != source_id,
    {
        let mut k: usize = 0;
        while k < self.documents.len()
            invariant
                0 <= k <= self.documents@.len(),
                forall|m: int| 0 <= m < k ==> (#[trigger] self.documents@[m]).spec_source_id() != source_id,
            decreases self.documents@.len() - k,
        {
            if self.documents[k].source_id() == source_id {
                proof {
                    assert(self.spec_documents()[k as int].spec_source_id() == source_id);
                }
                return Some(&self.documents[k]);
            }
            k += 1;
        }
        None
    }

    /// Returns aggregated interpolation diagnostics in file order.
    pub fn diagnostics(&self) -> (r: &[Diagnostic])
        ensures
            r@ == self.spec_diagnostics(),
    {
        self.diagnostics.as_slice()
    }

    /// Reports whether interpolation emitted no error diagnostic.
    pub fn is_valid(&self) -> (r: bool)
        ensures
            r == !has_error(self.spec_diagnostics()),
    {
        !any_error(self.diagnostics.as_slice())
    }
}

/// An effective include declaration could not be modeled safely enough to authorize loading.
pub fn include_unmodeled() -> (r: crate::diagnostic::DiagnosticCode)
    ensures
        r.text() == "compose.include.unmodeled"@,
{
    crate::diagnostic::DiagnosticCode::new("compose.include.unmodeled")
}

/// The caller denied an include request.
pub fn include_loader_denied() -> (r: crate::diagnostic::DiagnosticCode)
    ensures
        r.text() == "compose.include.loader-denied"@,
{
    crate::diagnostic::DiagnosticCode::new("compose.include.loader-denied")
}

/// The caller's include loader failed to supply a project.
pub fn include_loader_failed() -> (r: crate::diagnostic::DiagnosticCode)
    ensures
        r.text() == "compose.include.loader-failed"@,
{
    crate::diagnostic::DiagnosticCode::new("compose.include.loader-failed")
}

/// The caller supplied no documents for an included project.
pub fn include_empty_result() -> (r: crate::diagnostic::DiagnosticCode)
    ensures
        r.text() == "compose.include.empty-result"@,
{
    crate::diagnostic::DiagnosticCode::new("compose.include.empty-result")
}

/// An included identity appears again on the active traversal stack.
pub fn include_cycle() -> (r: crate::diagnostic::DiagnosticCode)
    ensures
        r.text() == "compose.include.cycle"@,
{
    crate::diagnostic::DiagnosticCode::new("compose.include.cycle")
}

/// A source identifier was reused anywhere in an include traversal.
pub fn include_duplicate_source_id() -> (r: crate::diagnostic::DiagnosticCode)
    ensures
        r.text() == "compose.include.duplicate-source-id"@,
{
    crate::diagnostic::DiagnosticCode::new("compose.include.duplicate-source-id")
}

/// A caller-supplied include project could not enter the existing ordered loader.
pub fn include_project_load_failed() -> (r: crate::diagnostic::DiagnosticCode)
    ensures
        r.text() == "compose.include.project-load-failed"@,
{
    crate::diagnostic::DiagnosticCode::new("compose.include.project-load-failed")
}

/// The root input contains no documents.
pub fn include_empty_root() -> (r: crate::diagnostic::DiagnosticCode)
    ensures
        r.text() == "compose.include.empty-root"@,
{
    crate::diagnostic::DiagnosticCode::new("compose.include.empty-root")
}

/// An included definition collides with an already selected parent definition.
pub fn include_resource_conflict() -> (r: crate::diagnostic::DiagnosticCode)
    ensures
        r.text() == "compose.include.resource-conflict"@,
{
    crate::diagnostic::DiagnosticCode::new("compose.include.resource-conflict")
}

} // verus!
