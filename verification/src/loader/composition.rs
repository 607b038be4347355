//! I/O-free composition of the definitions selected across a loaded include traversal.
//!
//! Each occurrence starts from its own view's definitions and then, edge by edge in request
//! order, imports every definition of each non-cycle child's composition whose name it does not
//! yet hold. A same-namespace same-name candidate is never merged: it becomes a conflict record
//! and a warning. [`composed`] states the selected definitions and [`all_emitted`] the conflicts.

use super::{
    duplicate_diagnostics, graph_wf, namespace_noun, origin_of, origins_of, IncludeEdge, IncludeIdentity, IncludeNode, IncludeResolution,
    IncludeResourceNamespace, ProjectResource, ProjectView,
};
use crate::diagnostic::{any_error, has_error, same_diagnostic, Diagnostic, DiagnosticCode, DiagnosticLabel, LabelKind, Severity};
use crate::model::network::NetworkDefinition;
use crate::model::remaining::ModelDefinition;
use crate::model::resource::{ConfigDefinition, SecretDefinition, VolumeDefinition};
use crate::model::Service;
use crate::text::{owned, str_eq};
use crate::source::SourceSpan;
use vstd::prelude::*;

verus! {

/// What an evidence record holds.
pub struct EvidenceView {
    /// The occurrence the definition was selected from.
    pub occurrence_index: int,
    /// The identity text of that occurrence.
    pub identity: Seq<char>,
    /// The definition's effective source.
    pub source: Option<SourceSpan>,
    /// The label of the document the source points into.
    pub source_label: Option<Seq<char>>,
}

/// Source and occurrence evidence for one selected or conflicting definition.
#[derive(Debug, Clone, PartialEq, Eq)]
pub struct IncludeDefinitionEvidence {
    occurrence_index: usize,
    identity: IncludeIdentity,
    source: Option<SourceSpan>,
    source_label: Option<String>,
}

impl View for IncludeDefinitionEvidence {
    type V = EvidenceView;

    closed spec fn view(&self) -> EvidenceView {
        EvidenceView {
            occurrence_index: self.occurrence_index as int,
            identity: self.identity.spec_text(),
            source: self.source,
            source_label: match self.source_label {
                Some(l) => Some(l@),
                None => None,
            },
        }
    }
}

impl IncludeDefinitionEvidence {
    /// Returns the retained occurrence index.
    pub fn occurrence_index(&self) -> (r: usize)
        ensures
            r == self@.occurrence_index,
    {
        self.occurrence_index
    }

    /// Returns the caller-defined identity of the retained occurrence.
    pub fn identity(&self) -> (r: &IncludeIdentity)
        ensures
            r.spec_text() == self@.identity,
    {
        &self.identity
    }

    /// Returns the effective definition source, when the definition had one.
    pub fn source(&self) -> (r: Option<SourceSpan>)
        ensures
            r == self@.source,
    {
        self.source
    }

    /// Returns the caller-defined label for [`Self::source`], when available.
    pub fn source_label(&self) -> (r: Option<&str>)
        ensures
            r is Some <==> self@.source_label is Some,
            r matches Some(l) ==> l@ == self@.source_label->0,
    {
        match &self.source_label {
            Some(l) => Some(l.as_str()),
            None => None,
        }
    }

    /// Returns a copy with the same view.
    pub fn duplicate(&self) -> (r: Self)
        ensures
            r@ == self@,
    {
        Self {
            occurrence_index: self.occurrence_index,
            identity: self.identity.duplicate(),
            source: self.source,
            source_label: match &self.source_label {
                Some(l) => Some(l.clone()),
                None => None,
            },
        }
    }
}

/// What a selected definition holds, apart from the typed definition itself.
pub struct DefinitionView {
    /// The definition name.
    pub name: Seq<char>,
    /// Its evidence.
    pub evidence: EvidenceView,
}

/// One typed definition selected during composition.
#[derive(Debug, Clone, PartialEq, Eq)]
pub struct IncludeDefinition<T> {
    name: String,
    definition: T,
    evidence: IncludeDefinitionEvidence,
}

impl<T> View for IncludeDefinition<T> {
    type V = DefinitionView;

    closed spec fn view(&self) -> DefinitionView {
        DefinitionView { name: self.name@, evidence: self.evidence@ }
    }
}

impl<T> IncludeDefinition<T> {
    /// The typed definition.
    pub closed spec fn spec_definition(&self) -> T {
        self.definition
    }

    /// Returns the Compose definition name.
    pub fn name(&self) -> (r: &str)
        ensures
            r@ == self@.name,
    {
        self.name.as_str()
    }

    /// Returns the typed effective definition.
    pub fn definition(&self) -> (r: &T)
        ensures
            *r == self.spec_definition(),
    {
        &self.definition
    }

    /// Returns occurrence and source evidence for this selected definition.
    pub fn evidence(&self) -> (r: &IncludeDefinitionEvidence)
        ensures
            r@ == self@.evidence,
    {
        &self.evidence
    }
}

impl<T: Clone> IncludeDefinition<T> {
    /// Returns a copy with the same name and evidence and a clone of the definition.
    pub fn duplicate(&self) -> (r: Self)
        ensures
            r@ == self@,
            cloned(self.spec_definition(), r.spec_definition()),
    {
        Self { name: self.name.clone(), definition: self.definition.clone(), evidence: self.evidence.duplicate() }
    }
}

/// The views of a sequence of definitions.
pub open spec fn definition_views<T>(ds: Seq<IncludeDefinition<T>>) -> Seq<DefinitionView> {
    ds.map_values(|d: IncludeDefinition<T>| d@)
}

/// What a conflict record holds.
pub struct ConflictView {
    /// The colliding namespace.
    pub namespace: IncludeResourceNamespace,
    /// The shared name.
    pub name: Seq<char>,
    /// The edge through which the incoming candidate was considered.
    pub edge_index: int,
    /// The candidate that was not imported.
    pub incoming: EvidenceView,
    /// The already selected candidate.
    pub incumbent: EvidenceView,
}

/// A same-name conflict that kept an included definition from being imported.
#[derive(Debug, Clone, PartialEq, Eq)]
pub struct IncludeResourceConflict {
    namespace: IncludeResourceNamespace,
    name: String,
    edge_index: usize,
    incoming: IncludeDefinitionEvidence,
    incumbent: IncludeDefinitionEvidence,
}

impl View for IncludeResourceConflict {
    type V = ConflictView;

    closed spec fn view(&self) -> ConflictView {
        ConflictView {
            namespace: self.namespace,
            name: self.name@,
            edge_index: self.edge_index as int,
            incoming: self.incoming@,
            incumbent: self.incumbent@,
        }
    }
}

impl IncludeResourceConflict {
    /// Returns the colliding Compose namespace.
    pub fn namespace(&self) -> (r: IncludeResourceNamespace)
        ensures
            r == self@.namespace,
    {
        self.namespace
    }

    /// Returns the shared definition name.
    pub fn name(&self) -> (r: &str)
        ensures
            r@ == self@.name,
    {
        self.name.as_str()
    }

    /// Returns the edge index through which the incoming candidate was considered.
    pub fn edge_index(&self) -> (r: usize)
        ensures
            r == self@.edge_index,
    {
        self.edge_index
    }

    /// Returns the child-side candidate that was not imported.
    pub fn incoming(&self) -> (r: &IncludeDefinitionEvidence)
        ensures
            r@ == self@.incoming,
    {
        &self.incoming
    }

    /// Returns the already selected parent-side candidate.
    pub fn incumbent(&self) -> (r: &IncludeDefinitionEvidence)
        ensures
            r@ == self@.incumbent,
    {
        &self.incumbent
    }
}

/// The views of a sequence of conflicts.
pub open spec fn conflict_views(cs: Seq<IncludeResourceConflict>) -> Seq<ConflictView> {
    cs.map_values(|c: IncludeResourceConflict| c@)
}

/// The label of the document a source points into: that of the first document of the
/// occurrence with the source's identifier.
pub open spec fn label_for(node: IncludeNode, source: Option<SourceSpan>) -> Option<Seq<char>> {
    match source {
        Some(s) => match origin_of(node.documents(), s.spec_source_id(), node.documents().len() as int) {
            Some(o) => Some(o.spec_label()),
            None => None,
        },
        None => None,
    }
}

/// The selected form of one of an occurrence's own definitions.
pub open spec fn local_entry_view(node: IncludeNode, n: int, e: (Seq<char>, Option<SourceSpan>)) -> DefinitionView {
    DefinitionView {
        name: e.0,
        evidence: EvidenceView {
            occurrence_index: n,
            identity: node.spec_identity().spec_text(),
            source: e.1,
            source_label: label_for(node, e.1),
        },
    }
}

/// An occurrence's own definitions of one namespace, in view order.
pub open spec fn local_defs(nodes: Seq<IncludeNode>, n: int, ns: IncludeResourceNamespace) -> Seq<DefinitionView> {
    match nodes[n].view() {
        Some(v) => v.entries(ns).map_values(|e: (Seq<char>, Option<SourceSpan>)| local_entry_view(nodes[n], n, e)),
        None => Seq::empty(),
    }
}

/// The first position among the first `m` definitions with the name, or -1.
pub open spec fn first_named(defs: Seq<DefinitionView>, name: Seq<char>, m: int) -> int
    decreases m,
{
    if m <= 0 {
        -1
    } else if first_named(defs, name, m - 1) >= 0 {
        first_named(defs, name, m - 1)
    } else if defs[m - 1].name == name {
        m - 1
    } else {
        -1
    }
}

/// Some definition has the name.
pub open spec fn holds_name(defs: Seq<DefinitionView>, name: Seq<char>) -> bool {
    first_named(defs, name, defs.len() as int) >= 0
}

/// A parent's definitions after importing a child's in order: each candidate whose name the
/// parent does not hold yet is appended.
pub open spec fn imported(parent: Seq<DefinitionView>, child: Seq<DefinitionView>) -> Seq<DefinitionView>
    decreases child.len(),
{
    if child.len() == 0 {
        parent
    } else {
        let p = imported(parent, child.drop_last());
        if holds_name(p, child.last().name) {
            p
        } else {
            p.push(child.last())
        }
    }
}

/// The conflicts of importing a child's definitions into a parent's, in candidate order: each
/// candidate whose name is already held, against the first holder.
pub open spec fn import_conflicts(
    ns: IncludeResourceNamespace,
    edge_index: int,
    parent: Seq<DefinitionView>,
    child: Seq<DefinitionView>,
) -> Seq<ConflictView>
    decreases child.len(),
{
    if child.len() == 0 {
        Seq::empty()
    } else {
        let p = imported(parent, child.drop_last());
        let prev = import_conflicts(ns, edge_index, parent, child.drop_last());
        let incoming = child.last();
        if holds_name(p, incoming.name) {
            prev.push(
                ConflictView {
                    namespace: ns,
                    name: incoming.name,
                    edge_index,
                    incoming: incoming.evidence,
                    incumbent: p[first_named(p, incoming.name, p.len() as int)].evidence,
                },
            )
        } else {
            prev
        }
    }
}

/// Edge `k` is a non-cycle edge declared by occurrence `n`, pointing forward.
pub open spec fn child_edge(nodes: Seq<IncludeNode>, edges: Seq<IncludeEdge>, n: int, k: int) -> bool {
    &&& 0 <= k < edges.len()
    &&& edges[k].spec_parent_node_index() == n
    &&& !edges[k].spec_cycle()
    &&& n < edges[k].spec_child_node_index() < nodes.len()
}

/// The definitions of one namespace that occurrence `n` selects: its own, then, for each of
/// its non-cycle edges in order, those of the child's composition that it does not yet hold.
pub open spec fn composed(nodes: Seq<IncludeNode>, edges: Seq<IncludeEdge>, n: int, ns: IncludeResourceNamespace) -> Seq<
    DefinitionView,
>
    decreases nodes.len() - n, edges.len() + 1,
{
    if 0 <= n < nodes.len() {
        composed_upto(nodes, edges, n, edges.len() as int, ns)
    } else {
        Seq::empty()
    }
}

/// The definitions occurrence `n` holds after considering its first `k` edges.
pub open spec fn composed_upto(
    nodes: Seq<IncludeNode>,
    edges: Seq<IncludeEdge>,
    n: int,
    k: int,
    ns: IncludeResourceNamespace,
) -> Seq<DefinitionView>
    decreases nodes.len() - n, k,
{
    if k <= 0 || k > edges.len() || n < 0 || n >= nodes.len() {
        local_defs(nodes, n, ns)
    } else if child_edge(nodes, edges, n, k - 1) {
        imported(
            composed_upto(nodes, edges, n, k - 1, ns),
            composed(nodes, edges, edges[k - 1].spec_child_node_index() as int, ns),
        )
    } else {
        composed_upto(nodes, edges, n, k - 1, ns)
    }
}

/// The conflicts of one namespace when occurrence `n` imports through its edge `k`.
pub open spec fn ns_edge_conflicts(
    nodes: Seq<IncludeNode>,
    edges: Seq<IncludeEdge>,
    n: int,
    k: int,
    ns: IncludeResourceNamespace,
) -> Seq<ConflictView> {
    import_conflicts(
        ns,
        k,
        composed_upto(nodes, edges, n, k, ns),
        composed(nodes, edges, edges[k].spec_child_node_index() as int, ns),
    )
}

/// The conflicts when occurrence `n` imports through its edge `k`: services, networks, volumes,
/// configs, secrets, then models.
pub open spec fn edge_conflicts(nodes: Seq<IncludeNode>, edges: Seq<IncludeEdge>, n: int, k: int) -> Seq<ConflictView> {
    ns_edge_conflicts(nodes, edges, n, k, IncludeResourceNamespace::Services) + ns_edge_conflicts(
        nodes,
        edges,
        n,
        k,
        IncludeResourceNamespace::Networks,
    ) + ns_edge_conflicts(nodes, edges, n, k, IncludeResourceNamespace::Volumes) + ns_edge_conflicts(
        nodes,
        edges,
        n,
        k,
        IncludeResourceNamespace::Configs,
    ) + ns_edge_conflicts(nodes, edges, n, k, IncludeResourceNamespace::Secrets) + ns_edge_conflicts(
        nodes,
        edges,
        n,
        k,
        IncludeResourceNamespace::Models,
    )
}

/// The conflicts reported, and the occurrences composed, when occurrence `n` is composed after
/// the occurrences in `done`: a composed occurrence reports nothing again; otherwise each child
/// is composed before its definitions are imported.
pub open spec fn emitted(nodes: Seq<IncludeNode>, edges: Seq<IncludeEdge>, n: int, done: Set<int>) -> (Seq<ConflictView>, Set<int>)
    decreases nodes.len() - n, edges.len() + 1,
{
    if n < 0 || n >= nodes.len() || done.contains(n) {
        (Seq::empty(), done)
    } else {
        let (c, d) = emitted_upto(nodes, edges, n, edges.len() as int, done);
        (c, d.insert(n))
    }
}

/// The conflicts reported, and the occurrences composed, while occurrence `n` considers its
/// first `k` edges.
pub open spec fn emitted_upto(
    nodes: Seq<IncludeNode>,
    edges: Seq<IncludeEdge>,
    n: int,
    k: int,
    done: Set<int>,
) -> (Seq<ConflictView>, Set<int>)
    decreases nodes.len() - n, k,
{
    if k <= 0 || k > edges.len() || n < 0 || n >= nodes.len() {
        (Seq::empty(), done)
    } else {
        let (c0, d0) = emitted_upto(nodes, edges, n, k - 1, done);
        if child_edge(nodes, edges, n, k - 1) {
            let (c1, d1) = emitted(nodes, edges, edges[k - 1].spec_child_node_index() as int, d0);
            (c0 + c1 + edge_conflicts(nodes, edges, n, k - 1), d1)
        } else {
            (c0, d0)
        }
    }
}

/// The conflicts reported, and the occurrences composed, after composing occurrences `0..i`
/// in order.
pub open spec fn all_emitted(nodes: Seq<IncludeNode>, edges: Seq<IncludeEdge>, i: int) -> (Seq<ConflictView>, Set<int>)
    decreases i,
{
    if i <= 0 {
        (Seq::empty(), Set::empty())
    } else {
        let (c0, d0) = all_emitted(nodes, edges, i - 1);
        let (c1, d1) = emitted(nodes, edges, i - 1, d0);
        (c0 + c1, d1)
    }
}

/// The decimal spelling of a digit.
pub open spec fn digit_text(d: nat) -> Seq<char> {
    if d == 0 {
        "0"@
    } else if d == 1 {
        "1"@
    } else if d == 2 {
        "2"@
    } else if d == 3 {
        "3"@
    } else if d == 4 {
        "4"@
    } else if d == 5 {
        "5"@
    } else if d == 6 {
        "6"@
    } else if d == 7 {
        "7"@
    } else if d == 8 {
        "8"@
    } else {
        "9"@
    }
}

/// The decimal spelling of a natural number, without leading zeros.
pub open spec fn decimal_text(n: nat) -> Seq<char>
    decreases n,
{
    if n < 10 {
        digit_text(n)
    } else {
        decimal_text(n / 10) + digit_text(n % 10)
    }
}

/// The decimal spelling of a digit.
fn digit_str(d: usize) -> (r: &'static str)
    requires
        d < 10,
    ensures
        r@ == digit_text(d as nat),
{
    if d == 0 {
        "0"
    } else if d == 1 {
        "1"
    } else if d == 2 {
        "2"
    } else if d == 3 {
        "3"
    } else if d == 4 {
        "4"
    } else if d == 5 {
        "5"
    } else if d == 6 {
        "6"
    } else if d == 7 {
        "7"
    } else if d == 8 {
        "8"
    } else {
        "9"
    }
}

/// Spells a number in decimal.
fn decimal_string(n: usize) -> (r: String)
    ensures
        r@ == decimal_text(n as nat),
    decreases n,
{
    if n < 10 {
        owned(digit_str(n))
    } else {
        let mut s = decimal_string(n / 10);
        s.append(digit_str(n % 10));
        s
    }
}

/// The summary of a conflict warning.
pub open spec fn conflict_message(c: ConflictView) -> Seq<char> {
    "included "@ + namespace_noun(c.namespace) + " `"@ + c.name + "` conflicts with an already selected definition"@
}

/// The text of a conflict label.
pub open spec fn conflict_label_text(
    role: Seq<char>,
    c: ConflictView,
    label: Option<Seq<char>>,
    fallback: Seq<char>,
) -> Seq<char> {
    role + " "@ + namespace_noun(c.namespace) + " `"@ + c.name + "` from "@ + match label {
        Some(l) => l,
        None => fallback,
    }
}

/// The note naming the declaring edge and its two occurrences.
pub open spec fn conflict_note(c: ConflictView, e: IncludeEdge) -> Seq<char> {
    "declaring include edge #"@ + decimal_text(c.edge_index as nat) + ", occurrence #"@ + decimal_text(
        e.spec_parent_node_index() as nat,
    ) + " ("@ + e.spec_parent().spec_text() + ") -> #"@ + decimal_text(e.spec_child_node_index() as nat) + " ("@
        + e.spec_child().spec_text() + ")"@
}

/// A diagnostic is the warning for a conflict considered through the edge: a primary label on
/// the incoming source and a secondary one on the incumbent source, each when there is one, and
/// a note naming the edge.
pub open spec fn reports_conflict(d: Diagnostic, c: ConflictView, e: IncludeEdge) -> bool {
    let incoming_label = conflict_label_text("incoming"@, c, c.incoming.source_label, "included occurrence"@);
    let incumbent_label = conflict_label_text("incumbent"@, c, c.incumbent.source_label, "parent occurrence"@);
    let primary = match c.incoming.source {
        Some(_) => 1int,
        None => 0int,
    };
    let secondary = match c.incumbent.source {
        Some(_) => 1int,
        None => 0int,
    };
    &&& d.spec_code().text() == "compose.include.resource-conflict"@
    &&& d.spec_severity() == Severity::Warning
    &&& d.spec_message() == conflict_message(c)
    &&& d.spec_labels().len() == primary + secondary
    &&& c.incoming.source matches Some(s) ==> {
        &&& d.spec_labels()[0].spec_kind() == LabelKind::Primary
        &&& d.spec_labels()[0].spec_span() == s
        &&& d.spec_labels()[0].spec_message() == incoming_label
    }
    &&& c.incumbent.source matches Some(s) ==> {
        &&& d.spec_labels()[primary].spec_kind() == LabelKind::Secondary
        &&& d.spec_labels()[primary].spec_span() == s
        &&& d.spec_labels()[primary].spec_message() == incumbent_label
    }
    &&& d.spec_notes().len() == 1
    &&& d.spec_notes()[0]@ == conflict_note(c, e)
}

/// Appends a namespace noun and a backquoted name.
fn append_noun_and_name(out: &mut String, namespace: IncludeResourceNamespace, name: &str)
    ensures
        final(out)@ == old(out)@ + namespace_noun(namespace) + " `"@ + name@,
{
    out.append(namespace.as_str());
    out.append(" `");
    out.append(name);
}

/// Builds the text of one conflict label.
fn conflict_label(role: &str, conflict: &IncludeResourceConflict, label: Option<&str>, fallback: &str) -> (r: String)
    ensures
        r@ == conflict_label_text(
            role@,
            conflict@,
            match label {
                Some(l) => Some(l@),
                None => None,
            },
            fallback@,
        ),
{
    let mut text = owned(role);
    text.append(" ");
    append_noun_and_name(&mut text, conflict.namespace, conflict.name.as_str());
    text.append("` from ");
    match label {
        Some(l) => text.append(l),
        None => text.append(fallback),
    }
    text
}

/// Builds the warning for a conflict considered through an edge.
fn include_resource_conflict_diagnostic(conflict: &IncludeResourceConflict, edge: &IncludeEdge) -> (d: Diagnostic)
    ensures
        reports_conflict(d, conflict@, *edge),
{
    let mut message = owned("included ");
    append_noun_and_name(&mut message, conflict.namespace, conflict.name.as_str());
    message.append("` conflicts with an already selected definition");
    let mut diagnostic = Diagnostic::new(DiagnosticCode::new("compose.include.resource-conflict"), Severity::Warning, message);
    match conflict.incoming.source {
        Some(source) => {
            let text = conflict_label("incoming", conflict, conflict.incoming.source_label(), "included occurrence");
            diagnostic = diagnostic.with_label(DiagnosticLabel::primary(source, text));
        },
        None => {},
    }
    let ghost after_primary = diagnostic;
    match conflict.incumbent.source {
        Some(source) => {
            let text = conflict_label("incumbent", conflict, conflict.incumbent.source_label(), "parent occurrence");
            diagnostic = diagnostic.with_label(DiagnosticLabel::secondary(source, text));
        },
        None => {},
    }
    let mut note = owned("declaring include edge #");
    note.append(decimal_string(conflict.edge_index).as_str());
    note.append(", occurrence #");
    note.append(decimal_string(edge.parent_node_index).as_str());
    note.append(" (");
    note.append(edge.parent.as_str());
    note.append(") -> #");
    note.append(decimal_string(edge.child_node_index).as_str());
    note.append(" (");
    note.append(edge.child.as_str());
    note.append(")");
    diagnostic.with_note(note)
}

/// What a composition holds, apart from the typed definitions themselves.
pub struct CompositionView {
    /// The occurrence it composes.
    pub node_index: int,
    /// Selected services.
    pub services: Seq<DefinitionView>,
    /// Selected networks.
    pub networks: Seq<DefinitionView>,
    /// Selected volumes.
    pub volumes: Seq<DefinitionView>,
    /// Selected configs.
    pub configs: Seq<DefinitionView>,
    /// Selected secrets.
    pub secrets: Seq<DefinitionView>,
    /// Selected model definitions.
    pub models: Seq<DefinitionView>,
}

impl CompositionView {
    /// The selected definitions of one namespace.
    pub open spec fn of(self, ns: IncludeResourceNamespace) -> Seq<DefinitionView> {
        match ns {
            IncludeResourceNamespace::Services => self.services,
            IncludeResourceNamespace::Networks => self.networks,
            IncludeResourceNamespace::Volumes => self.volumes,
            IncludeResourceNamespace::Configs => self.configs,
            IncludeResourceNamespace::Secrets => self.secrets,
            IncludeResourceNamespace::Models => self.models,
        }
    }
}

/// The typed definitions selected for one retained occurrence.
#[derive(Debug, Clone, PartialEq, Eq)]
pub struct IncludeComposition {
    node_index: usize,
    services: Vec<IncludeDefinition<Service>>,
    networks: Vec<IncludeDefinition<NetworkDefinition>>,
    volumes: Vec<IncludeDefinition<VolumeDefinition>>,
    configs: Vec<IncludeDefinition<ConfigDefinition>>,
    secrets: Vec<IncludeDefinition<SecretDefinition>>,
    models: Vec<IncludeDefinition<ModelDefinition>>,
}

impl View for IncludeComposition {
    type V = CompositionView;

    closed spec fn view(&self) -> CompositionView {
        CompositionView {
            node_index: self.node_index as int,
            services: definition_views(self.services@),
            networks: definition_views(self.networks@),
            volumes: definition_views(self.volumes@),
            configs: definition_views(self.configs@),
            secrets: definition_views(self.secrets@),
            models: definition_views(self.models@),
        }
    }
}

/// The composition occurrence `n` selects, in every namespace.
pub open spec fn composes(c: CompositionView, nodes: Seq<IncludeNode>, edges: Seq<IncludeEdge>, n: int) -> bool {
    &&& c.node_index == n
    &&& forall|ns: IncludeResourceNamespace| #[trigger] c.of(ns) == composed(nodes, edges, n, ns)
}

/// The first definition with the name.
fn find_named<'a, T>(defs: &'a [IncludeDefinition<T>], name: &str) -> (r: Option<&'a IncludeDefinition<T>>)
    ensures
        r is None <==> first_named(definition_views(defs@), name@, defs@.len() as int) == -1,
        r matches Some(d) ==> d@ == definition_views(defs@)[first_named(definition_views(defs@), name@, defs@.len() as int)],
{
    let ghost views = definition_views(defs@);
    let mut k: usize = 0;
    while k < defs.len()
        invariant
            0 <= k <= defs@.len(),
            views == definition_views(defs@),
            first_named(views, name@, k as int) == -1,
        decreases defs@.len() - k,
    {
        if str_eq(defs[k].name.as_str(), name) {
            proof {
                assert(views[k as int] == defs@[k as int]@);
                assert(first_named(views, name@, k + 1) == k);
                lemma_first_named_stable(views, name@, k + 1, defs@.len() as int);
            }
            return Some(&defs[k]);
        }
        proof {
            assert(views[k as int] == defs@[k as int]@);
        }
        k += 1;
    }
    None
}

proof fn lemma_first_named_stable(defs: Seq<DefinitionView>, name: Seq<char>, m: int, n: int)
    requires
        0 <= m <= n <= defs.len(),
        first_named(defs, name, m) >= 0,
    ensures
        first_named(defs, name, n) == first_named(defs, name, m),
    decreases n - m,
{
    if n > m {
        lemma_first_named_stable(defs, name, m, n - 1);
    }
}

proof fn lemma_first_named(defs: Seq<DefinitionView>, name: Seq<char>, m: int)
    requires
        0 <= m <= defs.len(),
    ensures
        -1 <= first_named(defs, name, m) < m,
        first_named(defs, name, m) >= 0 ==> defs[first_named(defs, name, m)].name == name,
        first_named(defs, name, m) == -1 <==> forall|k: int| 0 <= k < m ==> (#[trigger] defs[k]).name != name,
    decreases m,
{
    if m > 0 {
        lemma_first_named(defs, name, m - 1);
    }
}

impl IncludeComposition {
    /// The selected services.
    pub closed spec fn spec_services(&self) -> Seq<IncludeDefinition<Service>> {
        self.services@
    }

    /// The selected networks.
    pub closed spec fn spec_networks(&self) -> Seq<IncludeDefinition<NetworkDefinition>> {
        self.networks@
    }

    /// The selected volumes.
    pub closed spec fn spec_volumes(&self) -> Seq<IncludeDefinition<VolumeDefinition>> {
        self.volumes@
    }

    /// The selected configs.
    pub closed spec fn spec_configs(&self) -> Seq<IncludeDefinition<ConfigDefinition>> {
        self.configs@
    }

    /// The selected secrets.
    pub closed spec fn spec_secrets(&self) -> Seq<IncludeDefinition<SecretDefinition>> {
        self.secrets@
    }

    /// The selected model definitions.
    pub closed spec fn spec_models(&self) -> Seq<IncludeDefinition<ModelDefinition>> {
        self.models@
    }

    /// Returns the retained occurrence represented by this composition.
    pub fn node_index(&self) -> (r: usize)
        ensures
            r == self@.node_index,
    {
        self.node_index
    }

    /// Returns selected services in local-then-depth-first import order.
    pub fn services(&self) -> (r: &[IncludeDefinition<Service>])
        ensures
            definition_views(r@) == self@.services,
            r@ == self.spec_services(),
    {
        self.services.as_slice()
    }

    /// Finds a selected service by name.
    pub fn service(&self, name: &str) -> (r: Option<&IncludeDefinition<Service>>)
        ensures
            r is None <==> !holds_name(self@.services, name@),
            r matches Some(d) ==> d@ == self@.services[first_named(self@.services, name@, self@.services.len() as int)],
    {
        find_named(self.services.as_slice(), name)
    }

    /// Returns selected networks in local-then-depth-first import order.
    pub fn networks(&self) -> (r: &[IncludeDefinition<NetworkDefinition>])
        ensures
            definition_views(r@) == self@.networks,
            r@ == self.spec_networks(),
    {
        self.networks.as_slice()
    }

    /// Finds a selected network by name.
    pub fn network(&self, name: &str) -> (r: Option<&IncludeDefinition<NetworkDefinition>>)
        ensures
            r is None <==> !holds_name(self@.networks, name@),
            r matches Some(d) ==> d@ == self@.networks[first_named(self@.networks, name@, self@.networks.len() as int)],
    {
        find_named(self.networks.as_slice(), name)
    }

    /// Returns selected volumes in local-then-depth-first import order.
    pub fn volumes(&self) -> (r: &[IncludeDefinition<VolumeDefinition>])
        ensures
            definition_views(r@) == self@.volumes,
            r@ == self.spec_volumes(),
    {
        self.volumes.as_slice()
    }

    /// Finds a selected volume by name.
    pub fn volume(&self, name: &str) -> (r: Option<&IncludeDefinition<VolumeDefinition>>)
        ensures
            r is None <==> !holds_name(self@.volumes, name@),
            r matches Some(d) ==> d@ == self@.volumes[first_named(self@.volumes, name@, self@.volumes.len() as int)],
    {
        find_named(self.volumes.as_slice(), name)
    }

    /// Returns selected configs in local-then-depth-first import order.
    pub fn configs(&self) -> (r: &[IncludeDefinition<ConfigDefinition>])
        ensures
            definition_views(r@) == self@.configs,
            r@ == self.spec_configs(),
    {
        self.configs.as_slice()
    }

    /// Finds a selected config by name.
    pub fn config(&self, name: &str) -> (r: Option<&IncludeDefinition<ConfigDefinition>>)
        ensures
            r is None <==> !holds_name(self@.configs, name@),
            r matches Some(d) ==> d@ == self@.configs[first_named(self@.configs, name@, self@.configs.len() as int)],
    {
        find_named(self.configs.as_slice(), name)
    }

    /// Returns selected secrets in local-then-depth-first import order.
    pub fn secrets(&self) -> (r: &[IncludeDefinition<SecretDefinition>])
        ensures
            definition_views(r@) == self@.secrets,
            r@ == self.spec_secrets(),
    {
        self.secrets.as_slice()
    }

    /// Finds a selected secret by name.
    pub fn secret(&self, name: &str) -> (r: Option<&IncludeDefinition<SecretDefinition>>)
        ensures
            r is None <==> !holds_name(self@.secrets, name@),
            r matches Some(d) ==> d@ == self@.secrets[first_named(self@.secrets, name@, self@.secrets.len() as int)],
    {
        find_named(self.secrets.as_slice(), name)
    }

    /// Returns selected individual model definitions in local-then-depth-first import order.
    pub fn models(&self) -> (r: &[IncludeDefinition<ModelDefinition>])
        ensures
            definition_views(r@) == self@.models,
            r@ == self.spec_models(),
    {
        self.models.as_slice()
    }

    /// Finds a selected model definition by name.
    pub fn model(&self, name: &str) -> (r: Option<&IncludeDefinition<ModelDefinition>>)
        ensures
            r is None <==> !holds_name(self@.models, name@),
            r matches Some(d) ==> d@ == self@.models[first_named(self@.models, name@, self@.models.len() as int)],
    {
        find_named(self.models.as_slice(), name)
    }
}

/// A definition type that a project view lists resources of.
pub trait ViewResource: Sized + Clone {
    /// The view's resources of this type, in view order.
    spec fn resources(v: ProjectView) -> Seq<ProjectResource<Self>>;

    /// Returns the view's resources of this type.
    fn resources_of(v: &ProjectView) -> (r: &[ProjectResource<Self>])
        ensures
            r@ == Self::resources(*v),
    ;
}

impl ViewResource for Service {
    open spec fn resources(v: ProjectView) -> Seq<ProjectResource<Self>> {
        v.spec_services()
    }

    fn resources_of(v: &ProjectView) -> (r: &[ProjectResource<Self>]) {
        v.services()
    }
}

impl ViewResource for NetworkDefinition {
    open spec fn resources(v: ProjectView) -> Seq<ProjectResource<Self>> {
        v.spec_networks()
    }

    fn resources_of(v: &ProjectView) -> (r: &[ProjectResource<Self>]) {
        v.networks()
    }
}

impl ViewResource for VolumeDefinition {
    open spec fn resources(v: ProjectView) -> Seq<ProjectResource<Self>> {
        v.spec_volumes()
    }

    fn resources_of(v: &ProjectView) -> (r: &[ProjectResource<Self>]) {
        v.volumes()
    }
}

impl ViewResource for ConfigDefinition {
    open spec fn resources(v: ProjectView) -> Seq<ProjectResource<Self>> {
        v.spec_configs()
    }

    fn resources_of(v: &ProjectView) -> (r: &[ProjectResource<Self>]) {
        v.configs()
    }
}

impl ViewResource for SecretDefinition {
    open spec fn resources(v: ProjectView) -> Seq<ProjectResource<Self>> {
        v.spec_secrets()
    }

    fn resources_of(v: &ProjectView) -> (r: &[ProjectResource<Self>]) {
        v.secrets()
    }
}

impl ViewResource for ModelDefinition {
    open spec fn resources(v: ProjectView) -> Seq<ProjectResource<Self>> {
        v.spec_models()
    }

    fn resources_of(v: &ProjectView) -> (r: &[ProjectResource<Self>]) {
        v.models()
    }
}

/// A selected definition's typed value is a clone of a resource of the same name in the view of
/// the occurrence that its evidence names.
pub open spec fn selected_from<T: ViewResource>(d: IncludeDefinition<T>, nodes: Seq<IncludeNode>) -> bool {
    let o = d@.evidence.occurrence_index;
    &&& 0 <= o < nodes.len()
    &&& nodes[o].view() is Some
    &&& exists|i: int|
        0 <= i < T::resources(nodes[o].view()->0).len() && (#[trigger] T::resources(nodes[o].view()->0)[i]).spec_name()
            == d@.name && cloned(T::resources(nodes[o].view()->0)[i].spec_definition(), d.spec_definition())
}

/// Every definition of the sequence is selected from its occurrence's view.
pub open spec fn all_selected<T: ViewResource>(ds: Seq<IncludeDefinition<T>>, nodes: Seq<IncludeNode>) -> bool {
    forall|i: int| 0 <= i < ds.len() ==> selected_from(#[trigger] ds[i], nodes)
}

/// Every typed definition of a composition, in every namespace, is selected from the view of
/// the occurrence that its evidence names.
pub open spec fn typed_selection(c: IncludeComposition, nodes: Seq<IncludeNode>) -> bool {
    &&& all_selected(c.spec_services(), nodes)
    &&& all_selected(c.spec_networks(), nodes)
    &&& all_selected(c.spec_volumes(), nodes)
    &&& all_selected(c.spec_configs(), nodes)
    &&& all_selected(c.spec_secrets(), nodes)
    &&& all_selected(c.spec_models(), nodes)
}

/// Copies a selected definition, taking its typed value afresh from the resource it was
/// selected from.
fn reselect<T: ViewResource>(d: &IncludeDefinition<T>, nodes: &[IncludeNode]) -> (r: IncludeDefinition<T>)
    requires
        selected_from(*d, nodes@),
    ensures
        r@ == d@,
        selected_from(r, nodes@),
{
    let o = d.evidence.occurrence_index;
    let view = match nodes[o].project_view() {
        Some(view) => view,
        None => {
            proof {
                assert(false);
            }
            return d.duplicate();
        },
    };
    let resources = T::resources_of(view);
    let mut i: usize = 0;
    while i < resources.len()
        invariant
            0 <= i <= resources@.len(),
            resources@ == T::resources(nodes@[o as int].view()->0),
            o == d@.evidence.occurrence_index,
            selected_from(*d, nodes@),
            forall|m: int| 0 <= m < i ==> (#[trigger] resources@[m]).spec_name() != d@.name,
        decreases resources@.len() - i,
    {
        if str_eq(resources[i].name(), d.name.as_str()) {
            let r = IncludeDefinition {
                name: d.name.clone(),
                definition: resources[i].definition().clone(),
                evidence: d.evidence.duplicate(),
            };
            proof {
                assert(cloned(resources@[i as int].spec_definition(), r.spec_definition()));
                assert(T::resources(nodes@[o as int].view()->0)[i as int].spec_name() == r@.name);
            }
            return r;
        }
        i += 1;
    }
    proof {
        assert(false);
    }
    d.duplicate()
}

/// Copies selected definitions with the same views, each typed value taken afresh from the
/// resource it was selected from.
fn reselect_all<T: ViewResource>(ds: &[IncludeDefinition<T>], nodes: &[IncludeNode]) -> (r: Vec<IncludeDefinition<T>>)
    requires
        all_selected(ds@, nodes@),
    ensures
        definition_views(r@) == definition_views(ds@),
        all_selected(r@, nodes@),
{
    let mut out: Vec<IncludeDefinition<T>> = Vec::new();
    let mut i: usize = 0;
    while i < ds.len()
        invariant
            0 <= i <= ds@.len(),
            all_selected(ds@, nodes@),
            definition_views(out@) == definition_views(ds@).subrange(0, i as int),
            all_selected(out@, nodes@),
        decreases ds@.len() - i,
    {
        let ghost before = out@;
        out.push(reselect(&ds[i], nodes));
        assert(definition_views(out@) =~= definition_views(before).push(ds@[i as int]@));
        assert forall|m: int| 0 <= m < out@.len() implies selected_from(#[trigger] out@[m], nodes@) by {
            if m < before.len() {
                assert(out@[m] == before[m]);
            }
        }
        i += 1;
        assert(definition_views(out@) =~= definition_views(ds@).subrange(0, i as int));
    }
    assert(definition_views(out@) =~= definition_views(ds@));
    out
}

impl IncludeComposition {
    /// Returns a copy with the same view, each typed value taken afresh from the resource it was
    /// selected from.
    fn reselected(&self, nodes: &[IncludeNode]) -> (r: Self)
        requires
            typed_selection(*self, nodes@),
        ensures
            r@ == self@,
            typed_selection(r, nodes@),
    {
        Self {
            node_index: self.node_index,
            services: reselect_all(self.services.as_slice(), nodes),
            networks: reselect_all(self.networks.as_slice(), nodes),
            volumes: reselect_all(self.volumes.as_slice(), nodes),
            configs: reselect_all(self.configs.as_slice(), nodes),
            secrets: reselect_all(self.secrets.as_slice(), nodes),
            models: reselect_all(self.models.as_slice(), nodes),
        }
    }
}

/// Finds the position of the first definition with the name.
fn position_named<T>(defs: &Vec<IncludeDefinition<T>>, name: &str) -> (r: Option<usize>)
    ensures
        r is None <==> !holds_name(definition_views(defs@), name@),
        r matches Some(k) ==> k == first_named(definition_views(defs@), name@, defs@.len() as int) && k < defs@.len(),
{
    let ghost views = definition_views(defs@);
    let mut k: usize = 0;
    while k < defs.len()
        invariant
            0 <= k <= defs@.len(),
            views == definition_views(defs@),
            first_named(views, name@, k as int) == -1,
        decreases defs@.len() - k,
    {
        proof {
            assert(views[k as int] == defs@[k as int]@);
        }
        if str_eq(defs[k].name.as_str(), name) {
            proof {
                assert(first_named(views, name@, k + 1) == k);
                lemma_first_named_stable(views, name@, k + 1, defs@.len() as int);
            }
            return Some(k);
        }
        k += 1;
    }
    None
}

/// New diagnostics, one per conflict recorded so far and in the same order, report them.
pub open spec fn diagnostics_follow(diags: Seq<Diagnostic>, cs: Seq<IncludeResourceConflict>, edges: Seq<IncludeEdge>) -> bool {
    &&& diags.len() >= cs.len()
    &&& forall|m: int|
        0 <= m < cs.len() ==> reports_conflict(
            #[trigger] diags[diags.len() - cs.len() + m],
            cs[m]@,
            edges[cs[m]@.edge_index],
        )
}

/// Imports a child's definitions into a parent's, recording a conflict and a warning for each
/// candidate whose name is already held.
fn import_definitions<T: ViewResource>(
    namespace: IncludeResourceNamespace,
    edge_index: usize,
    parent: &mut Vec<IncludeDefinition<T>>,
    child: &[IncludeDefinition<T>],
    nodes: &[IncludeNode],
    edges: &Vec<IncludeEdge>,
    diagnostics: &mut Vec<Diagnostic>,
    conflicts: &mut Vec<IncludeResourceConflict>,
)
    requires
        edge_index < edges@.len(),
        diagnostics_follow(old(diagnostics)@, old(conflicts)@, edges@),
        all_selected(old(parent)@, nodes@),
        all_selected(child@, nodes@),
    ensures
        all_selected(final(parent)@, nodes@),
        definition_views(final(parent)@) == imported(definition_views(old(parent)@), definition_views(child@)),
        conflict_views(final(conflicts)@) == conflict_views(old(conflicts)@) + import_conflicts(
            namespace,
            edge_index as int,
            definition_views(old(parent)@),
            definition_views(child@),
        ),
        diagnostics_follow(final(diagnostics)@, final(conflicts)@, edges@),
        final(diagnostics)@.len() - old(diagnostics)@.len() == final(conflicts)@.len() - old(conflicts)@.len(),
        forall|k: int| 0 <= k < old(diagnostics)@.len() ==> final(diagnostics)@[k] == old(diagnostics)@[k],
{
    let ghost p0 = definition_views(parent@);
    let ghost cv = definition_views(child@);
    let ghost cs0 = conflict_views(conflicts@);
    let ghost d0 = diagnostics@;
    let ghost n0 = conflicts@.len();
    let mut j: usize = 0;
    while j < child.len()
        invariant
            0 <= j <= child@.len(),
            cv == definition_views(child@),
            edge_index < edges@.len(),
            definition_views(parent@) == imported(p0, cv.subrange(0, j as int)),
            conflict_views(conflicts@) == cs0 + import_conflicts(namespace, edge_index as int, p0, cv.subrange(0, j as int)),
            cs0 == conflict_views(conflicts@).subrange(0, n0 as int),
            conflicts@.len() >= n0,
            diagnostics_follow(diagnostics@, conflicts@, edges@),
            diagnostics@.len() - d0.len() == conflicts@.len() - n0,
            forall|k: int| 0 <= k < d0.len() ==> diagnostics@[k] == d0[k],
            all_selected(parent@, nodes@),
            all_selected(child@, nodes@),
        decreases child@.len() - j,
    {
        let ghost pv = definition_views(parent@);
        proof {
            assert(cv.subrange(0, j + 1).drop_last() =~= cv.subrange(0, j as int));
            assert(cv.subrange(0, j + 1).last() == child@[j as int]@);
        }
        let incoming = &child[j];
        match position_named(parent, incoming.name.as_str()) {
            Some(k) => {
                let conflict = IncludeResourceConflict {
                    namespace,
                    name: incoming.name.clone(),
                    edge_index,
                    incoming: incoming.evidence.duplicate(),
                    incumbent: parent[k].evidence.duplicate(),
                };
                proof {
                    assert(pv[k as int] == parent@[k as int]@);
                }
                let ghost cs_before = conflicts@;
                let ghost ds_before = diagnostics@;
                diagnostics.push(include_resource_conflict_diagnostic(&conflict, &edges[edge_index]));
                conflicts.push(conflict);
                proof {
                    assert(conflict_views(conflicts@) =~= conflict_views(cs_before).push(conflict@));
                    assert forall|m: int| 0 <= m < conflicts@.len() implies reports_conflict(
                        #[trigger] diagnostics@[diagnostics@.len() - conflicts@.len() + m],
                        conflicts@[m]@,
                        edges@[conflicts@[m]@.edge_index],
                    ) by {
                        if m < cs_before.len() {
                            assert(diagnostics@[diagnostics@.len() - conflicts@.len() + m] == ds_before[ds_before.len()
                                - cs_before.len() + m]);
                        }
                    }
                    assert(conflict_views(conflicts@).subrange(0, n0 as int) =~= conflict_views(cs_before).subrange(0, n0 as int));
                }
            },
            None => {
                let ghost before = parent@;
                parent.push(reselect(incoming, nodes));
                proof {
                    assert(definition_views(parent@) =~= definition_views(before).push(child@[j as int]@));
                    assert forall|m: int| 0 <= m < parent@.len() implies selected_from(#[trigger] parent@[m], nodes@) by {
                        if m < before.len() {
                            assert(parent@[m] == before[m]);
                        }
                    }
                }
            },
        }
        j += 1;
    }
    proof {
        assert(cv.subrange(0, child@.len() as int) =~= cv);
        assert(conflict_views(conflicts@) =~= cs0 + import_conflicts(namespace, edge_index as int, p0, cv));
    }
}

/// Finds the display label of the first document the source points into.
fn label_for_source(node: &IncludeNode, source: Option<SourceSpan>) -> (r: Option<String>)
    requires
        node.spec_origins() == origins_of(node.documents()),
    ensures
        match r {
            Some(l) => Some(l@),
            None => None,
        } == label_for(*node, source),
{
    match source {
        None => None,
        Some(span) => {
            let id = span.source_id();
            let documents = node.inputs().documents();
            let mut k: usize = 0;
            while k < documents.len()
                invariant
                    0 <= k <= documents@.len(),
                    documents@ == node.documents(),
                    id == span.spec_source_id(),
                    source == Some(span),
                    node.spec_origins() == origins_of(node.documents()),
                    origin_of(documents@, id, k as int) is None,
                decreases documents@.len() - k,
            {
                if documents[k].source_id() == id {
                    proof {
                        assert(origin_of(documents@, id, k + 1) == Some(documents@[k as int].spec_origin()));
                        super::lemma_origin_of_stable(documents@, id, k + 1, documents@.len() as int);
                        assert(node.origins@[k as int] == documents@[k as int].spec_origin());
                    }
                    let label = owned(node.origins()[k].label());
                    proof {
                        assert(label@ == documents@[k as int].spec_origin().spec_label());
                        assert(origin_of(node.documents(), span.spec_source_id(), node.documents().len() as int) == Some(
                            documents@[k as int].spec_origin(),
                        ));
                    }
                    return Some(label);
                }
                k += 1;
            }
            None
        },
    }
}

/// One of an occurrence's own definitions, selected with its evidence.
fn local_definition<T>(
    name: &str,
    definition: T,
    node_index: usize,
    node: &IncludeNode,
    source: Option<SourceSpan>,
) -> (r: IncludeDefinition<T>)
    requires
        node.spec_origins() == origins_of(node.documents()),
    ensures
        r@ == local_entry_view(*node, node_index as int, (name@, source)),
        r.spec_definition() == definition,
{
    IncludeDefinition {
        name: owned(name),
        definition,
        evidence: IncludeDefinitionEvidence {
            occurrence_index: node_index,
            identity: node.identity().duplicate(),
            source,
            source_label: label_for_source(node, source),
        },
    }
}

/// An occurrence's own definitions of one namespace, selected with their evidence.
fn local_resources<T: Clone>(resources: &[ProjectResource<T>], node_index: usize, node: &IncludeNode) -> (r: Vec<IncludeDefinition<T>>)
    requires
        node.spec_origins() == origins_of(node.documents()),
    ensures
        definition_views(r@) == super::resource_entries(resources@).map_values(
            |e: (Seq<char>, Option<SourceSpan>)| local_entry_view(*node, node_index as int, e),
        ),
        r@.len() == resources@.len(),
        forall|i: int|
            0 <= i < r@.len() ==> (#[trigger] r@[i])@.name == resources@[i].spec_name() && r@[i]@.evidence.occurrence_index
                == node_index && cloned(resources@[i].spec_definition(), r@[i].spec_definition()),
{
    let ghost target = super::resource_entries(resources@).map_values(
        |e: (Seq<char>, Option<SourceSpan>)| local_entry_view(*node, node_index as int, e),
    );
    let mut out: Vec<IncludeDefinition<T>> = Vec::new();
    let mut i: usize = 0;
    while i < resources.len()
        invariant
            0 <= i <= resources@.len(),
            node.spec_origins() == origins_of(node.documents()),
            target == super::resource_entries(resources@).map_values(
                |e: (Seq<char>, Option<SourceSpan>)| local_entry_view(*node, node_index as int, e),
            ),
            definition_views(out@) == target.subrange(0, i as int),
            out@.len() == i,
            forall|m: int|
                0 <= m < i ==> (#[trigger] out@[m])@.name == resources@[m].spec_name() && out@[m]@.evidence.occurrence_index
                    == node_index && cloned(resources@[m].spec_definition(), out@[m].spec_definition()),
        decreases resources@.len() - i,
    {
        let resource = &resources[i];
        let definition = local_definition(resource.name(), resource.definition().clone(), node_index, node, resource.source());
        let ghost before = out@;
        out.push(definition);
        proof {
            assert(definition_views(out@) =~= definition_views(before).push(target[i as int]));
            assert(out@[i as int]@.name == resources@[i as int].spec_name());
        }
        i += 1;
        proof {
            assert(definition_views(out@) =~= target.subrange(0, i as int));
        }
    }
    proof {
        assert(target.subrange(0, resources@.len() as int) =~= target);
    }
    out
}

/// The composition of an occurrence before any import: its own definitions.
fn local_composition(node_index: usize, resolution: &IncludeResolution) -> (r: IncludeComposition)
    requires
        graph_wf(resolution.nodes@, resolution.edges@, resolution.requests@.len() as int),
        node_index < resolution.nodes@.len(),
    ensures
        r@.node_index == node_index,
        forall|ns: IncludeResourceNamespace| #[trigger] r@.of(ns) == local_defs(resolution.nodes@, node_index as int, ns),
        typed_selection(r, resolution.nodes@),
{
    let node = &resolution.nodes[node_index];
    proof {
        assert(node.spec_origins() == origins_of(node.documents()));
    }
    match node.project_view() {
        None => IncludeComposition {
            node_index,
            services: Vec::new(),
            networks: Vec::new(),
            volumes: Vec::new(),
            configs: Vec::new(),
            secrets: Vec::new(),
            models: Vec::new(),
        },
        Some(view) => {
            let services = local_resources(view.services(), node_index, node);
            let networks = local_resources(view.networks(), node_index, node);
            let volumes = local_resources(view.volumes(), node_index, node);
            let configs = local_resources(view.configs(), node_index, node);
            let secrets = local_resources(view.secrets(), node_index, node);
            let models = local_resources(view.models(), node_index, node);
            proof {
                lemma_local_selected(services@, resolution.nodes@, node_index as int);
                lemma_local_selected(networks@, resolution.nodes@, node_index as int);
                lemma_local_selected(volumes@, resolution.nodes@, node_index as int);
                lemma_local_selected(configs@, resolution.nodes@, node_index as int);
                lemma_local_selected(secrets@, resolution.nodes@, node_index as int);
                lemma_local_selected(models@, resolution.nodes@, node_index as int);
            }
            IncludeComposition { node_index, services, networks, volumes, configs, secrets, models }
        },
    }
}

proof fn lemma_local_selected<T: ViewResource>(ds: Seq<IncludeDefinition<T>>, nodes: Seq<IncludeNode>, o: int)
    requires
        0 <= o < nodes.len(),
        nodes[o].view() is Some,
        ds.len() == T::resources(nodes[o].view()->0).len(),
        forall|i: int|
            0 <= i < ds.len() ==> (#[trigger] ds[i])@.name == T::resources(nodes[o].view()->0)[i].spec_name()
                && ds[i]@.evidence.occurrence_index == o && cloned(
                T::resources(nodes[o].view()->0)[i].spec_definition(),
                ds[i].spec_definition(),
            ),
    ensures
        all_selected(ds, nodes),
{
    assert forall|i: int| 0 <= i < ds.len() implies selected_from(#[trigger] ds[i], nodes) by {
        let rs = T::resources(nodes[o].view()->0);
        assert(rs[i].spec_name() == ds[i]@.name);
    }
}

/// The occurrences whose composition is recorded.
pub open spec fn done_of(memo: Seq<Option<IncludeComposition>>) -> Set<int> {
    Set::new(|i: int| 0 <= i < memo.len() && memo[i] is Some)
}

/// Every recorded composition is the one its occurrence selects.
pub open spec fn memo_ok(memo: Seq<Option<IncludeComposition>>, nodes: Seq<IncludeNode>, edges: Seq<IncludeEdge>) -> bool {
    forall|i: int|
        0 <= i < memo.len() && (#[trigger] memo[i]) is Some ==> composes(memo[i]->0@, nodes, edges, i) && typed_selection(
            memo[i]->0,
            nodes,
        )
}

proof fn lemma_emitted_grows(nodes: Seq<IncludeNode>, edges: Seq<IncludeEdge>, n: int, done: Set<int>)
    ensures
        done.subset_of(emitted(nodes, edges, n, done).1),
        0 <= n < nodes.len() ==> emitted(nodes, edges, n, done).1.contains(n),
    decreases nodes.len() - n, edges.len() + 1,
{
    if 0 <= n < nodes.len() && !done.contains(n) {
        lemma_emitted_upto_grows(nodes, edges, n, edges.len() as int, done);
    }
}

proof fn lemma_emitted_upto_grows(nodes: Seq<IncludeNode>, edges: Seq<IncludeEdge>, n: int, k: int, done: Set<int>)
    requires
        k <= edges.len(),
    ensures
        done.subset_of(emitted_upto(nodes, edges, n, k, done).1),
    decreases nodes.len() - n, k,
{
    if k > 0 && 0 <= n < nodes.len() {
        lemma_emitted_upto_grows(nodes, edges, n, k - 1, done);
        let d0 = emitted_upto(nodes, edges, n, k - 1, done).1;
        if child_edge(nodes, edges, n, k - 1) {
            lemma_emitted_grows(nodes, edges, edges[k - 1].spec_child_node_index() as int, d0);
        }
    }
}

/// Composes one occurrence: a recorded composition is reused; otherwise its own definitions
/// are taken and each non-cycle child is composed and imported in edge order.
fn compose_node(
    node_index: usize,
    resolution: &IncludeResolution,
    memo: &mut Vec<Option<IncludeComposition>>,
    diagnostics: &mut Vec<Diagnostic>,
    conflicts: &mut Vec<IncludeResourceConflict>,
) -> (r: IncludeComposition)
    requires
        graph_wf(resolution.nodes@, resolution.edges@, resolution.requests@.len() as int),
        node_index < resolution.nodes@.len(),
        old(memo)@.len() == resolution.nodes@.len(),
        memo_ok(old(memo)@, resolution.nodes@, resolution.edges@),
        diagnostics_follow(old(diagnostics)@, old(conflicts)@, resolution.edges@),
    ensures
        composes(r@, resolution.nodes@, resolution.edges@, node_index as int),
        typed_selection(r, resolution.nodes@),
        final(memo)@.len() == old(memo)@.len(),
        memo_ok(final(memo)@, resolution.nodes@, resolution.edges@),
        done_of(final(memo)@) == emitted(resolution.nodes@, resolution.edges@, node_index as int, done_of(old(memo)@)).1,
        conflict_views(final(conflicts)@) == conflict_views(old(conflicts)@) + emitted(
            resolution.nodes@,
            resolution.edges@,
            node_index as int,
            done_of(old(memo)@),
        ).0,
        diagnostics_follow(final(diagnostics)@, final(conflicts)@, resolution.edges@),
        final(diagnostics)@.len() - old(diagnostics)@.len() == final(conflicts)@.len() - old(conflicts)@.len(),
        forall|k: int| 0 <= k < old(diagnostics)@.len() ==> final(diagnostics)@[k] == old(diagnostics)@[k],
    decreases resolution.nodes@.len() - node_index,
{
    let ghost nodes = resolution.nodes@;
    let ghost edges = resolution.edges@;
    let ghost done0 = done_of(memo@);
    match &memo[node_index] {
        Some(c) => {
            proof {
                assert(done0.contains(node_index as int));
                assert(conflict_views(conflicts@) + Seq::<ConflictView>::empty() =~= conflict_views(conflicts@));
            }
            return c.reselected(resolution.nodes.as_slice());
        },
        None => {},
    }
    let ghost cs0 = conflict_views(conflicts@);
    let ghost d0 = diagnostics@;
    let ghost n0 = conflicts@.len();
    let mut composition = local_composition(node_index, resolution);
    let mut k: usize = 0;
    proof {
        assert(conflict_views(conflicts@) =~= cs0 + emitted_upto(nodes, edges, node_index as int, 0, done0).0);
        assert forall|ns: IncludeResourceNamespace| #[trigger] composition@.of(ns) == composed_upto(
            nodes,
            edges,
            node_index as int,
            0,
            ns,
        ) by {}
    }
    while k < resolution.edges.len()
        invariant
            0 <= k <= edges.len(),
            nodes == resolution.nodes@,
            edges == resolution.edges@,
            graph_wf(nodes, edges, resolution.requests@.len() as int),
            node_index < nodes.len(),
            !done0.contains(node_index as int),
            composition@.node_index == node_index,
            typed_selection(composition, nodes),
            forall|ns: IncludeResourceNamespace| #[trigger] composition@.of(ns) == composed_upto(
                nodes,
                edges,
                node_index as int,
                k as int,
                ns,
            ),
            memo@.len() == nodes.len(),
            memo_ok(memo@, nodes, edges),
            done_of(memo@) == emitted_upto(nodes, edges, node_index as int, k as int, done0).1,
            conflict_views(conflicts@) == cs0 + emitted_upto(nodes, edges, node_index as int, k as int, done0).0,
            cs0 == conflict_views(conflicts@).subrange(0, n0 as int),
            conflicts@.len() >= n0,
            diagnostics_follow(diagnostics@, conflicts@, edges),
            diagnostics@.len() - d0.len() == conflicts@.len() - n0,
            forall|m: int| 0 <= m < d0.len() ==> diagnostics@[m] == d0[m],
        decreases edges.len() - k,
    {
        let edge = &resolution.edges[k];
        proof {
            assert(super::edge_wf(edges[k as int], nodes, resolution.requests@.len() as int));
        }
        if edge.parent_node_index() == node_index && !edge.is_cycle() {
            let ghost memo_before = memo@;
            let ghost cs_before = conflicts@;
            let ghost ds_before = diagnostics@;
            let child_index = edge.child_node_index();
            let child = compose_node(child_index, resolution, memo, diagnostics, conflicts);
            let ghost cs_mid = conflict_views(conflicts@);
            let ghost ds_mid = diagnostics@;
            let ghost n_mid = conflicts@.len();
            let ghost old_comp = composition@;
            import_definitions(
                IncludeResourceNamespace::Services,
                k,
                &mut composition.services,
                child.services.as_slice(),
                resolution.nodes.as_slice(),
                &resolution.edges,
                diagnostics,
                conflicts,
            );
            let ghost cs_before_networks = conflict_views(conflicts@);
            import_definitions(
                IncludeResourceNamespace::Networks,
                k,
                &mut composition.networks,
                child.networks.as_slice(),
                resolution.nodes.as_slice(),
                &resolution.edges,
                diagnostics,
                conflicts,
            );
            let ghost cs_before_volumes = conflict_views(conflicts@);
            import_definitions(
                IncludeResourceNamespace::Volumes,
                k,
                &mut composition.volumes,
                child.volumes.as_slice(),
                resolution.nodes.as_slice(),
                &resolution.edges,
                diagnostics,
                conflicts,
            );
            let ghost cs_before_configs = conflict_views(conflicts@);
            import_definitions(
                IncludeResourceNamespace::Configs,
                k,
                &mut composition.configs,
                child.configs.as_slice(),
                resolution.nodes.as_slice(),
                &resolution.edges,
                diagnostics,
                conflicts,
            );
            let ghost cs_before_secrets = conflict_views(conflicts@);
            import_definitions(
                IncludeResourceNamespace::Secrets,
                k,
                &mut composition.secrets,
                child.secrets.as_slice(),
                resolution.nodes.as_slice(),
                &resolution.edges,
                diagnostics,
                conflicts,
            );
            let ghost cs_before_models = conflict_views(conflicts@);
            import_definitions(
                IncludeResourceNamespace::Models,
                k,
                &mut composition.models,
                child.models.as_slice(),
                resolution.nodes.as_slice(),
                &resolution.edges,
                diagnostics,
                conflicts,
            );
            proof {
                let n = node_index as int;
                let c = child_index as int;
                assert(child_edge(nodes, edges, n, k as int));
                assert(composition@.node_index == node_index);
                assert forall|ns: IncludeResourceNamespace| #[trigger] composition@.of(ns) == composed_upto(
                    nodes,
                    edges,
                    n,
                    k + 1,
                    ns,
                ) by {
                    assert(old_comp.of(ns) == composed_upto(nodes, edges, n, k as int, ns));
                    assert(child@.of(ns) == composed(nodes, edges, c, ns));
                }
                let e_up = emitted_upto(nodes, edges, n, k as int, done0);
                let e_c = emitted(nodes, edges, c, e_up.1);
                assert(emitted_upto(nodes, edges, n, k + 1, done0) == (e_up.0 + e_c.0 + edge_conflicts(nodes, edges, n, k as int), e_c.1));
                assert(old_comp.of(IncludeResourceNamespace::Services) == composed_upto(nodes, edges, n, k as int, IncludeResourceNamespace::Services));
                assert(child@.of(IncludeResourceNamespace::Services) == composed(nodes, edges, c, IncludeResourceNamespace::Services));
                assert(old_comp.of(IncludeResourceNamespace::Networks) == composed_upto(nodes, edges, n, k as int, IncludeResourceNamespace::Networks));
                assert(child@.of(IncludeResourceNamespace::Networks) == composed(nodes, edges, c, IncludeResourceNamespace::Networks));
                assert(old_comp.of(IncludeResourceNamespace::Volumes) == composed_upto(nodes, edges, n, k as int, IncludeResourceNamespace::Volumes));
                assert(child@.of(IncludeResourceNamespace::Volumes) == composed(nodes, edges, c, IncludeResourceNamespace::Volumes));
                assert(old_comp.of(IncludeResourceNamespace::Configs) == composed_upto(nodes, edges, n, k as int, IncludeResourceNamespace::Configs));
                assert(child@.of(IncludeResourceNamespace::Configs) == composed(nodes, edges, c, IncludeResourceNamespace::Configs));
                assert(old_comp.of(IncludeResourceNamespace::Secrets) == composed_upto(nodes, edges, n, k as int, IncludeResourceNamespace::Secrets));
                assert(child@.of(IncludeResourceNamespace::Secrets) == composed(nodes, edges, c, IncludeResourceNamespace::Secrets));
                assert(old_comp.of(IncludeResourceNamespace::Models) == composed_upto(nodes, edges, n, k as int, IncludeResourceNamespace::Models));
                assert(child@.of(IncludeResourceNamespace::Models) == composed(nodes, edges, c, IncludeResourceNamespace::Models));

                let i_s = ns_edge_conflicts(nodes, edges, n, k as int, IncludeResourceNamespace::Services);
                let i_n = ns_edge_conflicts(nodes, edges, n, k as int, IncludeResourceNamespace::Networks);
                let i_v = ns_edge_conflicts(nodes, edges, n, k as int, IncludeResourceNamespace::Volumes);
                let i_c = ns_edge_conflicts(nodes, edges, n, k as int, IncludeResourceNamespace::Configs);
                let i_x = ns_edge_conflicts(nodes, edges, n, k as int, IncludeResourceNamespace::Secrets);
                let i_m = ns_edge_conflicts(nodes, edges, n, k as int, IncludeResourceNamespace::Models);
                assert(done_of(memo_before) == e_up.1);
                assert(cs_mid == conflict_views(cs_before) + e_c.0);
                assert(conflict_views(cs_before) == cs0 + e_up.0);
                assert(cs_before_networks == cs_mid + i_s);
                assert(cs_before_volumes == cs_before_networks + i_n);
                assert(cs_before_configs == cs_before_volumes + i_v);
                assert(cs_before_secrets == cs_before_configs + i_c);
                assert(cs_before_models == cs_before_secrets + i_x);
                assert(conflict_views(conflicts@) == cs_before_models + i_m);
                assert(edge_conflicts(nodes, edges, n, k as int) == i_s + i_n + i_v + i_c + i_x + i_m);
                assert(conflict_views(conflicts@) =~= cs0 + emitted_upto(nodes, edges, n, k + 1, done0).0);
                assert(conflict_views(conflicts@).subrange(0, n0 as int) =~= cs0);
            }
        }
        k += 1;
    }
    let ghost memo_before = memo@;
    memo.set(node_index, Some(composition.reselected(resolution.nodes.as_slice())));
    proof {
        assert(done_of(memo@) =~= done_of(memo_before).insert(node_index as int));
        assert forall|i: int| 0 <= i < memo@.len() && (#[trigger] memo@[i]) is Some implies composes(
            memo@[i]->0@,
            nodes,
            edges,
            i,
        ) by {
            if i != node_index {
                assert(memo@[i] == memo_before[i]);
            } else {
                assert forall|ns: IncludeResourceNamespace| #[trigger] memo@[i]->0@.of(ns) == composed(nodes, edges, i, ns) by {
                    assert(composition@.of(ns) == composed_upto(nodes, edges, i, edges.len() as int, ns));
                }
            }
        }
    }
    composition
}

/// The I/O-free outcome of composing an [`IncludeResolution`].
#[derive(Debug, Clone, PartialEq, Eq)]
pub struct IncludeCompositionResult {
    compositions: Vec<IncludeComposition>,
    diagnostics: Vec<Diagnostic>,
    conflicts: Vec<IncludeResourceConflict>,
}

impl IncludeCompositionResult {
    /// The compositions, indexed by occurrence.
    pub closed spec fn spec_compositions(&self) -> Seq<IncludeComposition> {
        self.compositions@
    }

    /// Traversal diagnostics followed by conflict warnings.
    pub closed spec fn spec_diagnostics(&self) -> Seq<Diagnostic> {
        self.diagnostics@
    }

    /// The conflicts in deterministic import order.
    pub closed spec fn spec_conflicts(&self) -> Seq<IncludeResourceConflict> {
        self.conflicts@
    }

    /// Returns the root composition, when the root occurrence was retained.
    pub fn root(&self) -> (r: Option<&IncludeComposition>)
        ensures
            r is Some <==> self.spec_compositions().len() > 0,
            r matches Some(c) ==> *c == self.spec_compositions()[0],
    {
        if self.compositions.len() > 0 {
            Some(&self.compositions[0])
        } else {
            None
        }
    }

    /// Returns compositions indexed by [`IncludeNode::index`].
    pub fn compositions(&self) -> (r: &[IncludeComposition])
        ensures
            r@ == self.spec_compositions(),
    {
        self.compositions.as_slice()
    }

    /// Finds one retained occurrence's composition by node index.
    pub fn composition(&self, node_index: usize) -> (r: Option<&IncludeComposition>)
        ensures
            r is Some <==> node_index < self.spec_compositions().len(),
            r matches Some(c) ==> *c == self.spec_compositions()[node_index as int],
    {
        if node_index < self.compositions.len() {
            Some(&self.compositions[node_index])
        } else {
            None
        }
    }

    /// Returns traversal diagnostics followed by composition conflict warnings.
    pub fn diagnostics(&self) -> (r: &[Diagnostic])
        ensures
            r@ == self.spec_diagnostics(),
    {
        self.diagnostics.as_slice()
    }

    /// Returns every non-imported same-name candidate in deterministic import order.
    pub fn conflicts(&self) -> (r: &[IncludeResourceConflict])
        ensures
            r@ == self.spec_conflicts(),
    {
        self.conflicts.as_slice()
    }

    /// Reports whether traversal and composition emitted no error diagnostic.
    pub fn is_valid(&self) -> (r: bool)
        ensures
            r == !has_error(self.spec_diagnostics()),
    {
        !any_error(self.diagnostics.as_slice())
    }

    /// Reports whether traversal completed without errors and no resource conflicted.
    pub fn is_complete(&self) -> (r: bool)
        ensures
            r == (!has_error(self.spec_diagnostics()) && self.spec_conflicts().len() == 0),
    {
        self.is_valid() && self.conflicts.len() == 0
    }
}

impl IncludeResolution {
    /// Composes the loaded occurrences without authorizing further loading or performing I/O.
    ///
    /// Occurrences are composed in index order, each child before its import into its parent;
    /// an occurrence already composed is reused. The selected definitions of every occurrence
    /// are [`composed`]; the conflicts are those [`all_emitted`] lists, each followed in the
    /// diagnostics (after the traversal's own) by the warning that reports it.
    pub fn compose(&self) -> (r: IncludeCompositionResult)
        ensures
            r.spec_compositions().len() == self.spec_nodes().len(),
            forall|n: int|
                0 <= n < self.spec_nodes().len() ==> composes(
                    #[trigger] r.spec_compositions()[n]@,
                    self.spec_nodes(),
                    self.spec_edges(),
                    n,
                ),
            forall|n: int|
                0 <= n < self.spec_nodes().len() ==> typed_selection(#[trigger] r.spec_compositions()[n], self.spec_nodes()),
            conflict_views(r.spec_conflicts()) == all_emitted(
                self.spec_nodes(),
                self.spec_edges(),
                self.spec_nodes().len() as int,
            ).0,
            r.spec_diagnostics().len() == self.spec_diagnostics().len() + r.spec_conflicts().len(),
            forall|i: int|
                0 <= i < self.spec_diagnostics().len() ==> same_diagnostic(
                    #[trigger] r.spec_diagnostics()[i],
                    self.spec_diagnostics()[i],
                ),
            forall|m: int|
                0 <= m < r.spec_conflicts().len() ==> reports_conflict(
                    #[trigger] r.spec_diagnostics()[self.spec_diagnostics().len() + m],
                    r.spec_conflicts()[m]@,
                    self.spec_edges()[r.spec_conflicts()[m]@.edge_index],
                ),
    {
        proof {
            use_type_invariant(self);
        }
        let ghost nodes = self.nodes@;
        let ghost edges = self.edges@;
        let mut diagnostics = duplicate_diagnostics(self.diagnostics.as_slice());
        let ghost base = diagnostics@;
        let mut conflicts: Vec<IncludeResourceConflict> = Vec::new();
        let mut memo: Vec<Option<IncludeComposition>> = Vec::new();
        let mut i: usize = 0;
        while i < self.nodes.len()
            invariant
                0 <= i <= nodes.len(),
                nodes == self.nodes@,
                memo@.len() == i,
                forall|j: int| 0 <= j < i ==> memo@[j] is None,
            decreases nodes.len() - i,
        {
            memo.push(None);
            i += 1;
        }
        proof {
            assert(done_of(memo@) =~= Set::<int>::empty());
            assert(conflict_views(conflicts@) =~= Seq::<ConflictView>::empty());
        }
        let mut n: usize = 0;
        while n < self.nodes.len()
            invariant
                0 <= n <= nodes.len(),
                nodes == self.nodes@,
                edges == self.edges@,
                graph_wf(nodes, edges, self.requests@.len() as int),
                memo@.len() == nodes.len(),
                memo_ok(memo@, nodes, edges),
                done_of(memo@) == all_emitted(nodes, edges, n as int).1,
                forall|j: int| 0 <= j < n ==> done_of(memo@).contains(j),
                conflict_views(conflicts@) == all_emitted(nodes, edges, n as int).0,
                diagnostics_follow(diagnostics@, conflicts@, edges),
                diagnostics@.len() == base.len() + conflicts@.len(),
                forall|j: int| 0 <= j < base.len() ==> diagnostics@[j] == base[j],
                base.len() == self.diagnostics@.len(),
                forall|j: int| 0 <= j < base.len() ==> same_diagnostic(#[trigger] base[j], self.diagnostics@[j]),
            decreases nodes.len() - n,
        {
            let ghost done_before = done_of(memo@);
            let _ = compose_node(n, self, &mut memo, &mut diagnostics, &mut conflicts);
            proof {
                lemma_emitted_grows(nodes, edges, n as int, done_before);
                assert forall|j: int| 0 <= j < n + 1 implies done_of(memo@).contains(j) by {
                    if j < n {
                        assert(done_before.contains(j));
                    }
                }
            }
            n += 1;
        }
        let mut compositions: Vec<IncludeComposition> = Vec::new();
        let mut j: usize = 0;
        while j < memo.len()
            invariant
                0 <= j <= memo@.len(),
                memo@.len() == nodes.len(),
                memo_ok(memo@, nodes, edges),
                forall|m: int| 0 <= m < nodes.len() ==> done_of(memo@).contains(m),
                compositions@.len() == j,
                forall|m: int| 0 <= m < j ==> composes(#[trigger] compositions@[m]@, nodes, edges, m),
                forall|m: int| 0 <= m < j ==> typed_selection(#[trigger] compositions@[m], nodes),
                nodes == self.nodes@,
                edges == self.edges@,
                conflict_views(conflicts@) == all_emitted(nodes, edges, nodes.len() as int).0,
                diagnostics_follow(diagnostics@, conflicts@, edges),
                diagnostics@.len() == base.len() + conflicts@.len(),
                forall|m: int| 0 <= m < base.len() ==> diagnostics@[m] == base[m],
                base.len() == self.diagnostics@.len(),
                forall|m: int| 0 <= m < base.len() ==> same_diagnostic(#[trigger] base[m], self.diagnostics@[m]),
            decreases memo@.len() - j,
        {
            proof {
                assert(done_of(memo@).contains(j as int));
            }
            match &memo[j] {
                Some(c) => {
                    compositions.push(c.reselected(self.nodes.as_slice()));
                },
                None => {},
            }
            j += 1;
        }
        proof {
            assert forall|m: int| 0 <= m < base.len() implies same_diagnostic(
                #[trigger] diagnostics@[m],
                self.diagnostics@[m],
            ) by {
                assert(diagnostics@[m] == base[m]);
            }
            assert forall|m: int| 0 <= m < conflicts@.len() implies reports_conflict(
                #[trigger] diagnostics@[self.diagnostics@.len() + m],
                conflicts@[m]@,
                edges[conflicts@[m]@.edge_index],
            ) by {
                assert(diagnostics@.len() - conflicts@.len() + m == self.diagnostics@.len() + m);
            }
        }
        IncludeCompositionResult { compositions, diagnostics, conflicts }
    }
}

/// No two definitions share a name.
pub open spec fn names_distinct(defs: Seq<DefinitionView>) -> bool {
    forall|i: int, j: int| 0 <= i < j < defs.len() ==> defs[i].name != defs[j].name
}

proof fn lemma_holds_name(defs: Seq<DefinitionView>, name: Seq<char>)
    ensures
        holds_name(defs, name) <==> exists|k: int| 0 <= k < defs.len() && (#[trigger] defs[k]).name == name,
{
    lemma_first_named(defs, name, defs.len() as int);
    if holds_name(defs, name) {
        let k = first_named(defs, name, defs.len() as int);
        assert(defs[k].name == name);
    }
}

/// Importing never removes or reorders what the parent held: the parent's definitions are a
/// prefix of the result.
pub proof fn law_import_keeps_parent(parent: Seq<DefinitionView>, child: Seq<DefinitionView>)
    ensures
        imported(parent, child).len() >= parent.len(),
        imported(parent, child).subrange(0, parent.len() as int) == parent,
    decreases child.len(),
{
    if child.len() > 0 {
        law_import_keeps_parent(parent, child.drop_last());
        let p = imported(parent, child.drop_last());
        assert(p.push(child.last()).subrange(0, parent.len() as int) =~= p.subrange(0, parent.len() as int));
    }
}

/// Importing keeps names unique: when the parent holds no name twice, neither does the result.
pub proof fn law_import_keeps_names_distinct(parent: Seq<DefinitionView>, child: Seq<DefinitionView>)
    requires
        names_distinct(parent),
    ensures
        names_distinct(imported(parent, child)),
    decreases child.len(),
{
    if child.len() > 0 {
        law_import_keeps_names_distinct(parent, child.drop_last());
        let p = imported(parent, child.drop_last());
        lemma_holds_name(p, child.last().name);
        if !holds_name(p, child.last().name) {
            let q = p.push(child.last());
            assert forall|i: int, j: int| 0 <= i < j < q.len() implies q[i].name != q[j].name by {
                if j == q.len() - 1 {
                    assert(q[i] == p[i]);
                }
            }
        }
    }
}

/// Every occurrence's composition starts with its own definitions, in view order: local
/// definitions always win over imported ones.
pub proof fn law_composition_starts_with_local(
    nodes: Seq<IncludeNode>,
    edges: Seq<IncludeEdge>,
    n: int,
    ns: IncludeResourceNamespace,
)
    requires
        0 <= n < nodes.len(),
    ensures
        composed(nodes, edges, n, ns).len() >= local_defs(nodes, n, ns).len(),
        composed(nodes, edges, n, ns).subrange(0, local_defs(nodes, n, ns).len() as int) == local_defs(nodes, n, ns),
{
    lemma_upto_starts_with_local(nodes, edges, n, edges.len() as int, ns);
}

proof fn lemma_upto_starts_with_local(
    nodes: Seq<IncludeNode>,
    edges: Seq<IncludeEdge>,
    n: int,
    k: int,
    ns: IncludeResourceNamespace,
)
    requires
        0 <= n < nodes.len(),
        0 <= k <= edges.len(),
    ensures
        composed_upto(nodes, edges, n, k, ns).len() >= local_defs(nodes, n, ns).len(),
        composed_upto(nodes, edges, n, k, ns).subrange(0, local_defs(nodes, n, ns).len() as int) == local_defs(
            nodes,
            n,
            ns,
        ),
    decreases k,
{
    let local = local_defs(nodes, n, ns);
    if k == 0 {
        assert(composed_upto(nodes, edges, n, k, ns).subrange(0, local.len() as int) =~= local);
    } else {
        lemma_upto_starts_with_local(nodes, edges, n, k - 1, ns);
        let prev = composed_upto(nodes, edges, n, k - 1, ns);
        if child_edge(nodes, edges, n, k - 1) {
            let child = composed(nodes, edges, edges[k - 1].spec_child_node_index() as int, ns);
            law_import_keeps_parent(prev, child);
            let next = imported(prev, child);
            assert(next.subrange(0, local.len() as int) =~= prev.subrange(0, local.len() as int)) by {
                assert forall|i: int| 0 <= i < local.len() implies next[i] == prev[i] by {
                    assert(next.subrange(0, prev.len() as int)[i] == prev[i]);
                }
            }
        }
    }
}

/// When every occurrence's own definitions of a namespace have distinct names, so does every
/// composition: a same-name candidate becomes a conflict, never a second definition.
pub proof fn law_composition_names_distinct(
    nodes: Seq<IncludeNode>,
    edges: Seq<IncludeEdge>,
    n: int,
    ns: IncludeResourceNamespace,
)
    requires
        forall|m: int| 0 <= m < nodes.len() ==> names_distinct(#[trigger] local_defs(nodes, m, ns)),
    ensures
        names_distinct(composed(nodes, edges, n, ns)),
{
    if 0 <= n < nodes.len() {
        lemma_upto_names_distinct(nodes, edges, n, edges.len() as int, ns);
    }
}

proof fn lemma_upto_names_distinct(
    nodes: Seq<IncludeNode>,
    edges: Seq<IncludeEdge>,
    n: int,
    k: int,
    ns: IncludeResourceNamespace,
)
    requires
        0 <= n < nodes.len(),
        0 <= k <= edges.len(),
        forall|m: int| 0 <= m < nodes.len() ==> names_distinct(#[trigger] local_defs(nodes, m, ns)),
    ensures
        names_distinct(composed_upto(nodes, edges, n, k, ns)),
    decreases nodes.len() - n, k,
{
    if k == 0 {
        assert(names_distinct(local_defs(nodes, n, ns)));
    } else {
        lemma_upto_names_distinct(nodes, edges, n, k - 1, ns);
        if child_edge(nodes, edges, n, k - 1) {
            let c = edges[k - 1].spec_child_node_index() as int;
            law_import_keeps_names_distinct(
                composed_upto(nodes, edges, n, k - 1, ns),
                composed(nodes, edges, c, ns),
            );
        }
    }
}

} // verus!
