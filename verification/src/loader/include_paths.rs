//! Caller-owned planning for the effective project directories of included occurrences.
//!
//! The root keeps its first document's directory. A child without an explicit
//! `project_directory` declaration keeps its own first document's directory; an explicit
//! declaration is handed, raw and un-interpolated, to the caller's resolver, which alone decides
//! what it means. No path is ever joined, normalized, canonicalized, or opened here.

use super::{
    duplicate_diagnostics, edge_wf, graph_wf, IncludeEdge, IncludeIdentity, IncludeNode, IncludeRequest,
    IncludeResolution,
};
use crate::diagnostic::{any_error, has_error, same_diagnostic, Diagnostic, DiagnosticCode, DiagnosticLabel, LabelKind, Severity};
use crate::model::Located;
use crate::source::SourceSpan;
use crate::text::owned;
use vstd::prelude::*;

verus! {

/// The successful result of resolving an explicit project directory.
#[derive(Clone, PartialEq, Eq)]
pub enum IncludeProjectDirectoryResolution {
    /// The caller authorized this effective directory.
    Resolved(String),
    /// The caller intentionally deferred this declaration without producing an error.
    Deferred,
}

/// A typed resolver failure that carries no caller-controlled message text.
#[derive(Debug, Clone, Copy, PartialEq, Eq, Structural)]
#[non_exhaustive]
pub enum IncludeProjectDirectoryResolveError {
    /// Caller policy could not resolve the explicit declaration.
    Unresolved,
}

/// Context supplied to a caller-owned explicit project-directory resolver.
pub struct IncludeProjectDirectoryRequest<'a> {
    edge_index: usize,
    request_index: usize,
    parent_node_index: usize,
    child_node_index: usize,
    parent_identity: &'a IncludeIdentity,
    child_identity: &'a IncludeIdentity,
    parent_effective_directory: Option<&'a str>,
    declaration: &'a Located<String>,
    child_first_document_directory: Option<&'a str>,
}

impl<'a> IncludeProjectDirectoryRequest<'a> {
    /// The edge that authorized this planning request.
    pub closed spec fn spec_edge_index(&self) -> usize {
        self.edge_index
    }

    /// The original declaration request.
    pub closed spec fn spec_request_index(&self) -> usize {
        self.request_index
    }

    /// The declaring occurrence.
    pub closed spec fn spec_parent_node_index(&self) -> usize {
        self.parent_node_index
    }

    /// The included occurrence.
    pub closed spec fn spec_child_node_index(&self) -> usize {
        self.child_node_index
    }

    /// The identity of the declaring occurrence.
    pub closed spec fn spec_parent_identity(&self) -> IncludeIdentity {
        *self.parent_identity
    }

    /// The identity of the included occurrence.
    pub closed spec fn spec_child_identity(&self) -> IncludeIdentity {
        *self.child_identity
    }

    /// The parent's effective directory, when planning has one.
    pub closed spec fn spec_parent_effective_directory(&self) -> Option<Seq<char>> {
        match self.parent_effective_directory {
            Some(d) => Some(d@),
            None => None,
        }
    }

    /// The raw explicit declaration.
    pub closed spec fn spec_declaration(&self) -> Located<String> {
        *self.declaration
    }

    /// The child's first-document directory, when it has documents.
    pub closed spec fn spec_child_first_document_directory(&self) -> Option<Seq<char>> {
        match self.child_first_document_directory {
            Some(d) => Some(d@),
            None => None,
        }
    }

    /// Returns the index of the edge that authorized this planning request.
    pub fn edge_index(&self) -> (r: usize)
        ensures
            r == self.spec_edge_index(),
    {
        self.edge_index
    }

    /// Returns the index of the original declaration request.
    pub fn request_index(&self) -> (r: usize)
        ensures
            r == self.spec_request_index(),
    {
        self.request_index
    }

    /// Returns the occurrence index that declared this include.
    pub fn parent_node_index(&self) -> (r: usize)
        ensures
            r == self.spec_parent_node_index(),
    {
        self.parent_node_index
    }

    /// Returns the occurrence index of the included project.
    pub fn child_node_index(&self) -> (r: usize)
        ensures
            r == self.spec_child_node_index(),
    {
        self.child_node_index
    }

    /// Returns the caller-defined identity of the declaring occurrence.
    pub fn parent_identity(&self) -> (r: &IncludeIdentity)
        ensures
            *r == self.spec_parent_identity(),
    {
        self.parent_identity
    }

    /// Returns the caller-defined identity of the included occurrence.
    pub fn child_identity(&self) -> (r: &IncludeIdentity)
        ensures
            *r == self.spec_child_identity(),
    {
        self.child_identity
    }

    /// Returns the recursively effective parent directory, when planning has one.
    pub fn parent_effective_directory(&self) -> (r: Option<&str>)
        ensures
            match r {
                Some(d) => Some(d@),
                None => None,
            } == self.spec_parent_effective_directory(),
    {
        self.parent_effective_directory
    }

    /// Returns the raw, un-interpolated explicit declaration and its source span.
    pub fn declaration(&self) -> (r: &Located<String>)
        ensures
            *r == self.spec_declaration(),
    {
        self.declaration
    }

    /// Returns the explicit declaration source span.
    pub fn declaration_span(&self) -> (r: SourceSpan)
        ensures
            r == self.spec_declaration().spec_span(),
    {
        self.declaration.span()
    }

    /// Returns the child first-document directory retained by traversal, when available.
    pub fn child_first_document_directory(&self) -> (r: Option<&str>)
        ensures
            match r {
                Some(d) => Some(d@),
                None => None,
            } == self.spec_child_first_document_directory(),
    {
        self.child_first_document_directory
    }
}

/// The only caller-owned policy boundary for explicit project directories.
///
/// Implementations decide whether raw declarations are relative, absolute, opaque, URI-like,
/// or otherwise valid.
pub trait IncludeProjectDirectoryResolver {
    /// Resolves or defers one explicit `project_directory` declaration, or reports that caller
    /// policy cannot authorize an effective directory for it.
    fn resolve_project_directory(
        &self,
        request: &IncludeProjectDirectoryRequest<'_>,
    ) -> Result<IncludeProjectDirectoryResolution, IncludeProjectDirectoryResolveError>;
}

/// How one occurrence received its planned project directory.
#[derive(Debug, Clone, Copy, PartialEq, Eq, Structural)]
#[non_exhaustive]
pub enum IncludeProjectDirectoryStatus {
    /// The root reused its first caller-supplied document directory.
    Root,
    /// A child had no explicit declaration and reused its first document directory.
    Defaulted,
    /// Caller policy authorized an explicit declaration.
    Resolved,
    /// Caller policy deliberately deferred an explicit declaration.
    Deferred,
    /// Caller policy could not resolve an explicit declaration.
    Unresolved,
}

/// One deterministic occurrence entry of an [`IncludeProjectDirectoryPlan`].
#[derive(Clone, PartialEq, Eq)]
pub struct IncludeProjectDirectoryEntry {
    node_index: usize,
    identity: IncludeIdentity,
    status: IncludeProjectDirectoryStatus,
    effective_directory: Option<String>,
    edge_index: Option<usize>,
    request_index: Option<usize>,
    declaration: Option<Located<String>>,
}

impl IncludeProjectDirectoryEntry {
    /// The occurrence.
    pub closed spec fn spec_node_index(&self) -> usize {
        self.node_index
    }

    /// The occurrence's identity.
    pub closed spec fn spec_identity(&self) -> IncludeIdentity {
        self.identity
    }

    /// How the directory was planned.
    pub closed spec fn spec_status(&self) -> IncludeProjectDirectoryStatus {
        self.status
    }

    /// The planned directory, when there is one.
    pub closed spec fn spec_effective_directory(&self) -> Option<Seq<char>> {
        match self.effective_directory {
            Some(d) => Some(d@),
            None => None,
        }
    }

    /// The incoming edge; the root has none.
    pub closed spec fn spec_edge_index(&self) -> Option<usize> {
        self.edge_index
    }

    /// The originating request; the root has none.
    pub closed spec fn spec_request_index(&self) -> Option<usize> {
        self.request_index
    }

    /// The raw explicit declaration, when one was authored.
    pub closed spec fn spec_declaration(&self) -> Option<Located<String>> {
        self.declaration
    }

    /// Returns the retained occurrence index represented by this entry.
    pub fn node_index(&self) -> (r: usize)
        ensures
            r == self.spec_node_index(),
    {
        self.node_index
    }

    /// Returns the caller-defined identity of this retained occurrence.
    pub fn identity(&self) -> (r: &IncludeIdentity)
        ensures
            *r == self.spec_identity(),
    {
        &self.identity
    }

    /// Returns how this occurrence received its planned directory.
    pub fn status(&self) -> (r: IncludeProjectDirectoryStatus)
        ensures
            r == self.spec_status(),
    {
        self.status
    }

    /// Returns the caller-authorized effective directory, when one is available.
    pub fn effective_directory(&self) -> (r: Option<&str>)
        ensures
            match r {
                Some(d) => Some(d@),
                None => None,
            } == self.spec_effective_directory(),
    {
        match &self.effective_directory {
            Some(d) => Some(d.as_str()),
            None => None,
        }
    }

    /// Returns the edge through which this child occurred; the root has no incoming edge.
    pub fn edge_index(&self) -> (r: Option<usize>)
        ensures
            r == self.spec_edge_index(),
    {
        self.edge_index
    }

    /// Returns the originating request index; the root has no incoming request.
    pub fn request_index(&self) -> (r: Option<usize>)
        ensures
            r == self.spec_request_index(),
    {
        self.request_index
    }

    /// Returns the raw explicit declaration and its provenance, when one was authored.
    pub fn declaration(&self) -> (r: Option<&Located<String>>)
        ensures
            r is Some <==> self.spec_declaration() is Some,
            r matches Some(d) ==> *d == self.spec_declaration()->0,
    {
        self.declaration.as_ref()
    }
}

/// The directory of an occurrence's first document, when it has documents.
pub open spec fn first_directory(node: IncludeNode) -> Option<Seq<char>> {
    if node.documents().len() > 0 {
        Some(node.documents()[0].spec_origin().spec_directory())
    } else {
        None
    }
}

/// An entry is one the plan can hold for the resolution: the root entry keeps the root's first
/// directory; a child entry names a non-cycle edge into its occurrence, that edge's request and
/// the request's raw declaration, and its status agrees with the declaration and directory.
pub open spec fn entry_wf(
    e: IncludeProjectDirectoryEntry,
    nodes: Seq<IncludeNode>,
    edges: Seq<IncludeEdge>,
    requests: Seq<IncludeRequest>,
) -> bool {
    &&& e.spec_node_index() < nodes.len()
    &&& e.spec_identity() == nodes[e.spec_node_index() as int].spec_identity()
    &&& if e.spec_status() == IncludeProjectDirectoryStatus::Root {
        &&& e.spec_node_index() == 0
        &&& e.spec_edge_index() is None
        &&& e.spec_request_index() is None
        &&& e.spec_declaration() is None
        &&& e.spec_effective_directory() == first_directory(nodes[0])
    } else {
        &&& e.spec_edge_index() matches Some(k) && 0 <= k < edges.len() && !edges[k as int].spec_cycle()
            && edges[k as int].spec_child_node_index() == e.spec_node_index() && e.spec_request_index() == Some(
            edges[k as int].spec_request_index(),
        ) && e.spec_declaration() == requests[edges[k as int].spec_request_index() as int].spec_project_directory()
        &&& (e.spec_status() == IncludeProjectDirectoryStatus::Defaulted <==> e.spec_declaration() is None)
        &&& e.spec_status() == IncludeProjectDirectoryStatus::Defaulted ==> e.spec_effective_directory()
            == first_directory(nodes[e.spec_node_index() as int])
        &&& e.spec_status() == IncludeProjectDirectoryStatus::Resolved ==> e.spec_effective_directory() is Some
        &&& (e.spec_status() == IncludeProjectDirectoryStatus::Deferred || e.spec_status()
            == IncludeProjectDirectoryStatus::Unresolved) ==> e.spec_effective_directory() is None
    }
}

/// A diagnostic is the error for an explicit declaration that caller policy could not resolve.
pub open spec fn reports_unresolved(d: Diagnostic, span: SourceSpan) -> bool {
    &&& d.spec_code().text() == "compose.include.project-directory-unresolved"@
    &&& d.spec_severity() == Severity::Error
    &&& d.spec_message() == "included project directory could not be resolved"@
    &&& d.spec_labels().len() == 1
    &&& d.spec_labels()[0].spec_kind() == LabelKind::Primary
    &&& d.spec_labels()[0].spec_span() == span
    &&& d.spec_labels()[0].spec_message() == "project directory declaration"@
    &&& d.spec_notes().len() == 0
}

/// Builds the error for an unresolved explicit declaration.
fn project_directory_unresolved_diagnostic(span: SourceSpan) -> (d: Diagnostic)
    ensures
        reports_unresolved(d, span),
{
    Diagnostic::new(
        DiagnosticCode::new("compose.include.project-directory-unresolved"),
        Severity::Error,
        owned("included project directory could not be resolved"),
    ).with_label(DiagnosticLabel::primary(span, owned("project directory declaration")))
}

/// The I/O-free, caller-authorized project-directory plan for a traversal.
#[derive(Clone, PartialEq, Eq)]
pub struct IncludeProjectDirectoryPlan {
    entries: Vec<IncludeProjectDirectoryEntry>,
    diagnostics: Vec<Diagnostic>,
}

impl IncludeProjectDirectoryPlan {
    /// The entries in node-index order.
    pub closed spec fn spec_entries(&self) -> Seq<IncludeProjectDirectoryEntry> {
        self.entries@
    }

    /// Traversal diagnostics followed by planning diagnostics.
    pub closed spec fn spec_diagnostics(&self) -> Seq<Diagnostic> {
        self.diagnostics@
    }

    /// Returns entries in retained node-index order.
    pub fn entries(&self) -> (r: &[IncludeProjectDirectoryEntry])
        ensures
            r@ == self.spec_entries(),
    {
        self.entries.as_slice()
    }

    /// Returns the entry at a position of [`Self::entries`].
    pub fn entry(&self, node_index: usize) -> (r: Option<&IncludeProjectDirectoryEntry>)
        ensures
            r is Some <==> node_index < self.spec_entries().len(),
            r matches Some(e) ==> *e == self.spec_entries()[node_index as int],
    {
        if node_index < self.entries.len() {
            Some(&self.entries[node_index])
        } else {
            None
        }
    }

    /// Returns unchanged traversal diagnostics followed by planning diagnostics.
    pub fn diagnostics(&self) -> (r: &[Diagnostic])
        ensures
            r@ == self.spec_diagnostics(),
    {
        self.diagnostics.as_slice()
    }

    /// Reports whether traversal and explicit directory resolution emitted no errors.
    pub fn is_valid(&self) -> (r: bool)
        ensures
            r == !has_error(self.spec_diagnostics()),
    {
        !any_error(self.diagnostics.as_slice())
    }

    /// Reports whether every entry has an effective directory and no error was emitted.
    pub fn is_complete(&self) -> (r: bool)
        ensures
            r == (!has_error(self.spec_diagnostics()) && forall|i: int|
                0 <= i < self.spec_entries().len() ==> (#[trigger] self.spec_entries()[i]).spec_effective_directory() is Some),
    {
        if !self.is_valid() {
            return false;
        }
        let mut i: usize = 0;
        while i < self.entries.len()
            invariant
                0 <= i <= self.entries@.len(),
                forall|j: int| 0 <= j < i ==> (#[trigger] self.entries@[j]).spec_effective_directory() is Some,
            decreases self.entries@.len() - i,
        {
            if self.entries[i].effective_directory.is_none() {
                return false;
            }
            i += 1;
        }
        true
    }
}

/// Returns the directory of an occurrence's first document.
fn first_document_directory(node: &IncludeNode) -> (r: Option<String>)
    ensures
        match r {
            Some(d) => Some(d@),
            None => None,
        } == first_directory(*node),
{
    let documents = node.inputs().documents();
    if documents.len() > 0 {
        Some(owned(documents[0].origin().directory()))
    } else {
        None
    }
}

/// A borrowed directory as text.
pub open spec fn directory_text(d: Option<String>) -> Option<Seq<char>> {
    match d {
        Some(d) => Some(d@),
        None => None,
    }
}

/// The effective directory that planning has recorded for an occurrence, if any.
pub open spec fn planned_directory(entry: Option<IncludeProjectDirectoryEntry>) -> Option<Seq<char>> {
    match entry {
        Some(e) => e.spec_effective_directory(),
        None => None,
    }
}

/// Returns the effective directory recorded in a plan entry.
fn planned_directory_of(entry: &Option<IncludeProjectDirectoryEntry>) -> (r: Option<String>)
    ensures
        directory_text(r) == planned_directory(*entry),
{
    match entry {
        Some(entry) => match &entry.effective_directory {
            Some(d) => Some(d.clone()),
            None => None,
        },
        None => None,
    }
}

/// Builds what a resolver is asked for an explicit declaration on a non-cycle edge: the edge's
/// indices and identities, the parent's planned directory, the declaration and the child's first
/// document directory.
fn directory_request<'a>(
    edge_index: usize,
    edge: &'a IncludeEdge,
    declaration: &'a Located<String>,
    parent_effective_directory: &'a Option<String>,
    child_first_document_directory: &'a Option<String>,
) -> (r: IncludeProjectDirectoryRequest<'a>)
    ensures
        r.spec_edge_index() == edge_index,
        r.spec_request_index() == edge.spec_request_index(),
        r.spec_parent_node_index() == edge.spec_parent_node_index(),
        r.spec_child_node_index() == edge.spec_child_node_index(),
        r.spec_parent_identity() == edge.spec_parent(),
        r.spec_child_identity() == edge.spec_child(),
        r.spec_parent_effective_directory() == directory_text(*parent_effective_directory),
        r.spec_declaration() == *declaration,
        r.spec_child_first_document_directory() == directory_text(*child_first_document_directory),
{
    IncludeProjectDirectoryRequest {
        edge_index,
        request_index: edge.request_index(),
        parent_node_index: edge.parent_node_index(),
        child_node_index: edge.child_node_index(),
        parent_identity: edge.parent(),
        child_identity: edge.child(),
        parent_effective_directory: match parent_effective_directory {
            Some(d) => Some(d.as_str()),
            None => None,
        },
        declaration,
        child_first_document_directory: match child_first_document_directory {
            Some(d) => Some(d.as_str()),
            None => None,
        },
    }
}

/// The entry a resolver's answer gives a child with an explicit declaration, and whether the
/// answer must be reported as unresolved.
fn explicit_entry(
    node_index: usize,
    identity: IncludeIdentity,
    edge_index: usize,
    request_index: usize,
    declaration: &Located<String>,
    outcome: Result<IncludeProjectDirectoryResolution, IncludeProjectDirectoryResolveError>,
) -> (r: (IncludeProjectDirectoryEntry, bool))
    ensures
        r.0.spec_node_index() == node_index,
        r.0.spec_identity() == identity,
        r.0.spec_edge_index() == Some(edge_index),
        r.0.spec_request_index() == Some(request_index),
        r.0.spec_declaration() == Some(*declaration),
        match outcome {
            Ok(IncludeProjectDirectoryResolution::Resolved(d)) => r.0.spec_status() == IncludeProjectDirectoryStatus::Resolved
                && r.0.spec_effective_directory() == Some(d@) && !r.1,
            Ok(IncludeProjectDirectoryResolution::Deferred) => r.0.spec_status() == IncludeProjectDirectoryStatus::Deferred
                && r.0.spec_effective_directory() is None && !r.1,
            Err(_) => r.0.spec_status() == IncludeProjectDirectoryStatus::Unresolved
                && r.0.spec_effective_directory() is None && r.1,
        },
{
    let (status, effective_directory, unresolved) = match outcome {
        Ok(IncludeProjectDirectoryResolution::Resolved(directory)) => (
            IncludeProjectDirectoryStatus::Resolved,
            Some(directory),
            false,
        ),
        Ok(IncludeProjectDirectoryResolution::Deferred) => (IncludeProjectDirectoryStatus::Deferred, None, false),
        Err(IncludeProjectDirectoryResolveError::Unresolved) => (
            IncludeProjectDirectoryStatus::Unresolved,
            None,
            true,
        ),
    };
    (
        IncludeProjectDirectoryEntry {
            node_index,
            identity,
            status,
            effective_directory,
            edge_index: Some(edge_index),
            request_index: Some(request_index),
            declaration: Some(declaration.duplicate()),
        },
        unresolved,
    )
}

/// Every recorded entry sits at its occurrence's position and is one the plan can hold.
pub open spec fn entries_ok(
    entries: Seq<Option<IncludeProjectDirectoryEntry>>,
    nodes: Seq<IncludeNode>,
    edges: Seq<IncludeEdge>,
    requests: Seq<IncludeRequest>,
) -> bool {
    forall|i: int|
        0 <= i < entries.len() && (#[trigger] entries[i]) is Some ==> entries[i]->0.spec_node_index() == i && entry_wf(
            entries[i]->0,
            nodes,
            edges,
            requests,
        )
}

/// Some diagnostic reports an unresolved declaration at the span.
pub open spec fn unresolved_reported(diags: Seq<Diagnostic>, span: SourceSpan) -> bool {
    exists|j: int| 0 <= j < diags.len() && reports_unresolved(#[trigger] diags[j], span)
}

/// Every unresolved entry recorded so far is reported.
pub open spec fn entries_reported(entries: Seq<Option<IncludeProjectDirectoryEntry>>, diags: Seq<Diagnostic>) -> bool {
    forall|i: int|
        0 <= i < entries.len() && (#[trigger] entries[i]) is Some && entries[i]->0.spec_status()
            == IncludeProjectDirectoryStatus::Unresolved ==> unresolved_reported(
            diags,
            entries[i]->0.spec_declaration()->0.spec_span(),
        )
}

/// The diagnostic reports some unresolved declaration.
pub open spec fn is_unresolved_report(d: Diagnostic) -> bool {
    exists|s: SourceSpan| reports_unresolved(d, s)
}

/// Every diagnostic from position `base` on reports an unresolved declaration.
pub open spec fn only_unresolved_from(diags: Seq<Diagnostic>, base: int) -> bool {
    forall|j: int| base <= j < diags.len() ==> is_unresolved_report(#[trigger] diags[j])
}

/// Every non-cycle child of occurrence `p`, and recursively each of theirs, has an entry.
pub open spec fn covered(
    entries: Seq<Option<IncludeProjectDirectoryEntry>>,
    edges: Seq<IncludeEdge>,
    p: int,
) -> bool
    decreases entries.len() - p,
{
    forall|k: int|
        0 <= k < edges.len() && (#[trigger] edges[k]).spec_parent_node_index() == p && !edges[k].spec_cycle() && p
            < edges[k].spec_child_node_index() < entries.len() ==> entries[edges[k].spec_child_node_index() as int] is Some
            && covered(entries, edges, edges[k].spec_child_node_index() as int)
}

/// An entry, once recorded, stays recorded.
pub open spec fn keeps_recorded(
    before: Seq<Option<IncludeProjectDirectoryEntry>>,
    after: Seq<Option<IncludeProjectDirectoryEntry>>,
) -> bool {
    &&& before.len() == after.len()
    &&& forall|i: int| 0 <= i < before.len() && (#[trigger] before[i]) is Some ==> after[i] is Some
}

proof fn lemma_covered_monotone(
    before: Seq<Option<IncludeProjectDirectoryEntry>>,
    after: Seq<Option<IncludeProjectDirectoryEntry>>,
    edges: Seq<IncludeEdge>,
    p: int,
)
    requires
        keeps_recorded(before, after),
        covered(before, edges, p),
    ensures
        covered(after, edges, p),
    decreases before.len() - p,
{
    assert forall|k: int|
        0 <= k < edges.len() && (#[trigger] edges[k]).spec_parent_node_index() == p && !edges[k].spec_cycle() && p
            < edges[k].spec_child_node_index() < after.len() implies after[edges[k].spec_child_node_index() as int] is Some
        && covered(after, edges, edges[k].spec_child_node_index() as int) by {
        let c = edges[k].spec_child_node_index() as int;
        assert(before[c] is Some);
        lemma_covered_monotone(before, after, edges, c);
    }
}

proof fn lemma_covered_all(entries: Seq<Option<IncludeProjectDirectoryEntry>>, edges: Seq<IncludeEdge>, i: int)
    requires
        0 <= i < entries.len(),
        entries[0] is Some,
        covered(entries, edges, 0),
        forall|j: int| 0 < j < entries.len() ==> super::has_parent_edge(edges, j),
        forall|k: int|
            0 <= k < edges.len() && !(#[trigger] edges[k]).spec_cycle() ==> edges[k].spec_parent_node_index()
                < edges[k].spec_child_node_index(),
    ensures
        entries[i] is Some,
        covered(entries, edges, i),
    decreases i,
{
    if i > 0 {
        assert(super::has_parent_edge(edges, i));
        let k = choose|k: int| 0 <= k < edges.len() && !(#[trigger] edges[k]).spec_cycle() && edges[k].spec_child_node_index() == i;
        let p = edges[k].spec_parent_node_index() as int;
        lemma_covered_all(entries, edges, p);
    }
}

/// Plans the children of one occurrence, in edge order and depth first.
fn plan_children<R: IncludeProjectDirectoryResolver>(
    parent_node_index: usize,
    resolution: &IncludeResolution,
    resolver: &R,
    entries: &mut Vec<Option<IncludeProjectDirectoryEntry>>,
    diagnostics: &mut Vec<Diagnostic>,
    Ghost(base): Ghost<int>,
)
    requires
        graph_wf(resolution.nodes@, resolution.edges@, resolution.requests@.len() as int),
        parent_node_index < resolution.nodes@.len(),
        old(entries)@.len() == resolution.nodes@.len(),
        entries_ok(old(entries)@, resolution.nodes@, resolution.edges@, resolution.requests@),
        entries_reported(old(entries)@, old(diagnostics)@),
        0 <= base <= old(diagnostics)@.len(),
        only_unresolved_from(old(diagnostics)@, base),
    ensures
        final(entries)@.len() == old(entries)@.len(),
        entries_ok(final(entries)@, resolution.nodes@, resolution.edges@, resolution.requests@),
        entries_reported(final(entries)@, final(diagnostics)@),
        forall|i: int| 0 <= i <= parent_node_index ==> final(entries)@[i] == old(entries)@[i],
        keeps_recorded(old(entries)@, final(entries)@),
        covered(final(entries)@, resolution.edges@, parent_node_index as int),
        final(diagnostics)@.len() >= old(diagnostics)@.len(),
        forall|j: int| 0 <= j < old(diagnostics)@.len() ==> final(diagnostics)@[j] == old(diagnostics)@[j],
        only_unresolved_from(final(diagnostics)@, base),
    decreases resolution.nodes@.len() - parent_node_index,
{
    let ghost nodes = resolution.nodes@;
    let ghost edges = resolution.edges@;
    let ghost requests = resolution.requests@;
    let ghost entries0 = entries@;
    let ghost diags0 = diagnostics@;
    let parent_effective_directory = planned_directory_of(&entries[parent_node_index]);
    let mut k: usize = 0;
    while k < resolution.edges.len()
        invariant
            0 <= k <= edges.len(),
            nodes == resolution.nodes@,
            edges == resolution.edges@,
            requests == resolution.requests@,
            graph_wf(nodes, edges, requests.len() as int),
            parent_node_index < nodes.len(),
            entries@.len() == nodes.len(),
            entries_ok(entries@, nodes, edges, requests),
            entries_reported(entries@, diagnostics@),
            forall|i: int| 0 <= i <= parent_node_index ==> entries@[i] == entries0[i],
            keeps_recorded(entries0, entries@),
            forall|m: int|
                0 <= m < k && (#[trigger] edges[m]).spec_parent_node_index() == parent_node_index && !edges[m].spec_cycle()
                    && parent_node_index < edges[m].spec_child_node_index() < entries@.len() ==> entries@[edges[m].spec_child_node_index() as int] is Some
                    && covered(entries@, edges, edges[m].spec_child_node_index() as int),
            diagnostics@.len() >= diags0.len(),
            forall|j: int| 0 <= j < diags0.len() ==> diagnostics@[j] == diags0[j],
            0 <= base <= diags0.len(),
            only_unresolved_from(diagnostics@, base),
            directory_text(parent_effective_directory) == planned_directory(entries0[parent_node_index as int]),
        decreases edges.len() - k,
    {
        let edge = &resolution.edges[k];
        proof {
            assert(edge_wf(edges[k as int], nodes, requests.len() as int));
        }
        if edge.parent_node_index() == parent_node_index && !edge.is_cycle() {
            let child_node_index = edge.child_node_index();
            let request_index = edge.request_index();
            let request = &resolution.requests[request_index];
            let child = &resolution.nodes[child_node_index];
            let child_first_document_directory = first_document_directory(child);
            let ghost diags_before = diagnostics@;
            let ghost mut new_span: SourceSpan = arbitrary();
            let entry = match request.project_directory() {
                None => IncludeProjectDirectoryEntry {
                    node_index: child_node_index,
                    identity: child.identity().duplicate(),
                    status: IncludeProjectDirectoryStatus::Defaulted,
                    effective_directory: child_first_document_directory,
                    edge_index: Some(k),
                    request_index: Some(request_index),
                    declaration: None,
                },
                Some(declaration) => {
                    let context = directory_request(
                        k,
                        edge,
                        declaration,
                        &parent_effective_directory,
                        &child_first_document_directory,
                    );
                    proof {
                        assert(context.spec_parent_effective_directory() == planned_directory(entries0[parent_node_index as int]));
                        assert(context.spec_child_first_document_directory() == first_directory(nodes[child_node_index as int]));
                        assert(context.spec_declaration() == requests[request_index as int].spec_project_directory()->0);
                    }
                    let outcome = resolver.resolve_project_directory(&context);
                    let (entry, unresolved) = explicit_entry(
                        child_node_index,
                        child.identity().duplicate(),
                        k,
                        request_index,
                        declaration,
                        outcome,
                    );
                    if unresolved {
                        diagnostics.push(project_directory_unresolved_diagnostic(declaration.span()));
                        proof {
                            new_span = declaration.spec_span();
                            assert(reports_unresolved(diagnostics@[diagnostics@.len() - 1], new_span));
                        }
                    }
                    entry
                },
            };
            let ghost entries_before = entries@;
            entries.set(child_node_index, Some(entry));
            proof {
                assert forall|i: int|
                    0 <= i < entries@.len() && (#[trigger] entries@[i]) is Some implies entries@[i]->0.spec_node_index() == i
                    && entry_wf(entries@[i]->0, nodes, edges, requests) by {
                    if i != child_node_index {
                        assert(entries@[i] == entries_before[i]);
                    }
                }
                assert forall|i: int|
                    0 <= i < entries@.len() && (#[trigger] entries@[i]) is Some && entries@[i]->0.spec_status()
                        == IncludeProjectDirectoryStatus::Unresolved implies unresolved_reported(
                    diagnostics@,
                    entries@[i]->0.spec_declaration()->0.spec_span(),
                ) by {
                    if i != child_node_index {
                        assert(entries@[i] == entries_before[i]);
                        assert(unresolved_reported(diags_before, entries_before[i]->0.spec_declaration()->0.spec_span()));
                        let j = choose|j: int|
                            0 <= j < diags_before.len() && reports_unresolved(
                                #[trigger] diags_before[j],
                                entries_before[i]->0.spec_declaration()->0.spec_span(),
                            );
                        assert(diagnostics@[j] == diags_before[j]);
                    } else {
                        assert(diagnostics@.len() == diags_before.len() + 1);
                        assert(reports_unresolved(
                            diagnostics@[diagnostics@.len() - 1],
                            entries@[i]->0.spec_declaration()->0.spec_span(),
                        ));
                    }
                }
                assert forall|j: int| base <= j < diagnostics@.len() implies is_unresolved_report(#[trigger] diagnostics@[j]) by {
                    if j < diags_before.len() {
                        assert(diagnostics@[j] == diags_before[j]);
                    } else {
                        assert(reports_unresolved(diagnostics@[j], new_span));
                    }
                }
            }
            let ghost entries_mid = entries@;
            plan_children(child_node_index, resolution, resolver, entries, diagnostics, Ghost(base));
            proof {
                assert forall|i: int| 0 <= i < entries_before.len() && (#[trigger] entries_before[i]) is Some implies entries@[i] is Some by {
                    assert(entries_mid[i] is Some);
                }
                assert(keeps_recorded(entries_before, entries@));
                assert forall|m: int|
                    0 <= m < k + 1 && (#[trigger] edges[m]).spec_parent_node_index() == parent_node_index && !edges[m].spec_cycle()
                        && parent_node_index < edges[m].spec_child_node_index() < entries@.len() implies entries@[edges[m].spec_child_node_index() as int] is Some
                        && covered(entries@, edges, edges[m].spec_child_node_index() as int) by {
                    let c = edges[m].spec_child_node_index() as int;
                    if m < k {
                        assert(entries_before[c] is Some);
                        lemma_covered_monotone(entries_before, entries@, edges, c);
                    } else {
                        assert(c == child_node_index);
                        assert(entries@[c] == entries_mid[c]);
                    }
                }
                assert forall|i: int| 0 <= i < entries0.len() && (#[trigger] entries0[i]) is Some implies entries@[i] is Some by {
                    assert(entries_before[i] is Some);
                    assert(entries_mid[i] is Some);
                }
            }
        }
        k += 1;
    }
}

/// Plans the effective project directory of every occurrence, one entry per occurrence in
/// index order: the root keeps its first document's directory, and each child, visited depth
/// first in edge order, receives the entry for its non-cycle edge. Traversal diagnostics come
/// first, unchanged; every later diagnostic reports an explicit declaration that the resolver
/// left unresolved, and every unresolved entry is so reported.
pub fn plan_project_directories<R: IncludeProjectDirectoryResolver>(
    resolution: &IncludeResolution,
    resolver: &R,
) -> (r: IncludeProjectDirectoryPlan)
    ensures
        r.spec_entries().len() == resolution.spec_nodes().len(),
        forall|i: int| 0 <= i < r.spec_entries().len() ==> (#[trigger] r.spec_entries()[i]).spec_node_index() == i,
        r.spec_entries().len() >= 1,
        r.spec_entries()[0].spec_status() == IncludeProjectDirectoryStatus::Root,
        r.spec_entries()[0].spec_node_index() == 0,
        forall|i: int|
            0 <= i < r.spec_entries().len() ==> entry_wf(
                #[trigger] r.spec_entries()[i],
                resolution.spec_nodes(),
                resolution.spec_edges(),
                resolution.spec_requests(),
            ),
        forall|i: int, j: int|
            0 <= i < j < r.spec_entries().len() ==> r.spec_entries()[i].spec_node_index()
                < r.spec_entries()[j].spec_node_index(),
        r.spec_diagnostics().len() >= resolution.spec_diagnostics().len(),
        forall|i: int|
            0 <= i < resolution.spec_diagnostics().len() ==> same_diagnostic(
                #[trigger] r.spec_diagnostics()[i],
                resolution.spec_diagnostics()[i],
            ),
        only_unresolved_from(r.spec_diagnostics(), resolution.spec_diagnostics().len() as int),
        forall|i: int|
            0 <= i < r.spec_entries().len() && (#[trigger] r.spec_entries()[i]).spec_status()
                == IncludeProjectDirectoryStatus::Unresolved ==> unresolved_reported(
                r.spec_diagnostics(),
                r.spec_entries()[i].spec_declaration()->0.spec_span(),
            ),
{
    proof {
        use_type_invariant(resolution);
    }
    let ghost nodes = resolution.nodes@;
    let ghost edges = resolution.edges@;
    let ghost requests = resolution.requests@;
    let mut diagnostics = duplicate_diagnostics(resolution.diagnostics.as_slice());
    let ghost base = diagnostics@.len() as int;
    let mut entries: Vec<Option<IncludeProjectDirectoryEntry>> = Vec::new();
    let mut i: usize = 0;
    while i < resolution.nodes.len()
        invariant
            0 <= i <= nodes.len(),
            nodes == resolution.nodes@,
            entries@.len() == i,
            forall|j: int| 0 <= j < i ==> entries@[j] is None,
        decreases nodes.len() - i,
    {
        entries.push(None);
        i += 1;
    }
    let root = &resolution.nodes[0];
    entries.set(
        0,
        Some(
            IncludeProjectDirectoryEntry {
                node_index: 0,
                identity: root.identity().duplicate(),
                status: IncludeProjectDirectoryStatus::Root,
                effective_directory: first_document_directory(root),
                edge_index: None,
                request_index: None,
                declaration: None,
            },
        ),
    );
    proof {
        assert forall|j: int| 0 <= j < entries@.len() && (#[trigger] entries@[j]) is Some implies entries@[j]->0.spec_node_index()
            == j && entry_wf(entries@[j]->0, nodes, edges, requests) by {}
    }
    plan_children(0, resolution, resolver, &mut entries, &mut diagnostics, Ghost(base));
    proof {
        assert forall|k: int| 0 <= k < edges.len() && !(#[trigger] edges[k]).spec_cycle() implies edges[k].spec_parent_node_index()
            < edges[k].spec_child_node_index() by {
            assert(edge_wf(edges[k], nodes, requests.len() as int));
        }
        assert forall|m: int| 0 <= m < entries@.len() implies (#[trigger] entries@[m]) is Some by {
            lemma_covered_all(entries@, edges, m);
        }
    }
    let mut out: Vec<IncludeProjectDirectoryEntry> = Vec::new();
    let mut j: usize = 0;
    while j < entries.len()
        invariant
            0 <= j <= entries@.len(),
            entries@.len() == nodes.len(),
            nodes == resolution.nodes@,
            edges == resolution.edges@,
            requests == resolution.requests@,
            entries_ok(entries@, nodes, edges, requests),
            entries_reported(entries@, diagnostics@),
            entries@[0] is Some && entries@[0]->0.spec_status() == IncludeProjectDirectoryStatus::Root,
            forall|m: int| 0 <= m < entries@.len() ==> (#[trigger] entries@[m]) is Some,
            out@.len() == j,
            forall|m: int| 0 <= m < j ==> (#[trigger] out@[m]).spec_node_index() == m,
            j > 0 ==> out@.len() >= 1 && out@[0] == entries@[0]->0,
            forall|m: int| 0 <= m < out@.len() ==> (#[trigger] out@[m]).spec_node_index() < j,
            forall|m: int| 0 <= m < out@.len() ==> entry_wf(#[trigger] out@[m], nodes, edges, requests),
            forall|m: int, n: int| 0 <= m < n < out@.len() ==> out@[m].spec_node_index() < out@[n].spec_node_index(),
            forall|m: int|
                0 <= m < out@.len() && (#[trigger] out@[m]).spec_status() == IncludeProjectDirectoryStatus::Unresolved
                    ==> unresolved_reported(diagnostics@, out@[m].spec_declaration()->0.spec_span()),
        decreases entries@.len() - j,
    {
        match &entries[j] {
            Some(entry) => {
                let ghost before = out@;
                out.push(entry.clone_entry());
                proof {
                    assert(out@.last() == entries@[j as int]->0);
                }
            },
            None => {},
        }
        j += 1;
    }
    IncludeProjectDirectoryPlan { entries: out, diagnostics }
}

impl IncludeProjectDirectoryEntry {
    /// Returns an equal copy.
    fn clone_entry(&self) -> (r: Self)
        ensures
            r == *self,
    {
        Self {
            node_index: self.node_index,
            identity: self.identity.duplicate(),
            status: self.status,
            effective_directory: match &self.effective_directory {
                Some(d) => Some(d.clone()),
                None => None,
            },
            edge_index: self.edge_index,
            request_index: self.request_index,
            declaration: match &self.declaration {
                Some(d) => Some(d.duplicate()),
                None => None,
            },
        }
    }
}

/// An explicit include project directory could not be resolved by caller policy.
pub fn include_project_directory_unresolved() -> (r: crate::diagnostic::DiagnosticCode)
    ensures
        r.text() == "compose.include.project-directory-unresolved"@,
{
    crate::diagnostic::DiagnosticCode::new("compose.include.project-directory-unresolved")
}

} // verus!
