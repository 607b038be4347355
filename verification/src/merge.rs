//! Provenance-preserving Compose multi-file merge behavior.
//!
//! Values are trees of mappings, sequences, scalars, nulls, aliases and tagged values. Each
//! node records which operation produced it and the source spans that contributed to it. The
//! meaning of every operation is stated by spec functions over the views of the trees
//! ([`ValueView`]), and each executable function is proved against them.

use crate::diagnostic::{any_error, has_error, Diagnostic, Severity};
use crate::diagnostic::same_diagnostic;
use crate::interpolation::{DocumentInterpolation, InterpolationResult};
use crate::loader::ProjectInterpolation;
use crate::model::port::{short_port_fields, ShortPort};
use crate::model::{lb, Located};
use crate::source::{SourceId, SourceSpan};
use crate::text::{bytes, find, join_with, lemma_find, owned, rfind, sb, split_from, split_once, str_eq};
use vstd::prelude::*;
use vstd::utf8::*;

verus! {

broadcast use vstd::utf8::group_utf8_lib;

/// How a merged value was produced.
#[derive(Debug, Clone, Copy, PartialEq, Eq, Hash, Structural)]
pub enum MergeOperation {
    /// The value comes directly from the first document that defined it.
    Authored,
    /// A later document added a previously absent field or unique item.
    Added,
    /// A later scalar or incompatible value form replaced the earlier value.
    Replaced,
    /// Mappings or field-specific unique entries were combined.
    Merged,
    /// An ordinary sequence from a later document was appended.
    Appended,
    /// Compose's `!reset` tag cleared the earlier value.
    Reset,
    /// Compose's `!override` tag replaced the earlier value without normal merge behavior.
    Override,
}

/// What a provenance record holds: the last operation and the contributing spans in order.
pub struct ProvenanceView {
    /// The operation that produced the current value.
    pub operation: MergeOperation,
    /// The contributing source spans in processing order.
    pub sources: Seq<SourceSpan>,
}

/// Source evidence and the last operation applied to one merged value.
#[derive(Debug, Clone, PartialEq, Eq)]
pub struct MergeProvenance {
    operation: MergeOperation,
    sources: Vec<SourceSpan>,
}

impl View for MergeProvenance {
    type V = ProvenanceView;

    closed spec fn view(&self) -> ProvenanceView {
        ProvenanceView { operation: self.operation, sources: self.sources@ }
    }
}

impl MergeProvenance {
    /// Creates a provenance record from an operation and the contributing spans in order.
    pub fn new(operation: MergeOperation, sources: Vec<SourceSpan>) -> (r: Self)
        ensures
            r@ == (ProvenanceView { operation, sources: sources@ }),
    {
        Self { operation, sources }
    }

    /// Returns the operation that produced the current value.
    pub fn operation(&self) -> (r: MergeOperation)
        ensures
            r == self@.operation,
    {
        self.operation
    }

    /// Returns contributing source spans in processing order.
    pub fn sources(&self) -> (r: &[SourceSpan])
        ensures
            r@ == self@.sources,
    {
        self.sources.as_slice()
    }

    /// Returns the most recent contributing span.
    pub fn effective_source(&self) -> (r: Option<SourceSpan>)
        ensures
            r == effective_source(self@),
    {
        let n = self.sources.len();
        if n == 0 {
            None
        } else {
            Some(self.sources[n - 1])
        }
    }

    /// Returns an equal copy.
    fn duplicate(&self) -> (r: Self)
        ensures
            r@ == self@,
    {
        Self { operation: self.operation, sources: copy_spans(&self.sources) }
    }
}

/// The most recent contributing span of a provenance record.
pub open spec fn effective_source(p: ProvenanceView) -> Option<SourceSpan> {
    if p.sources.len() == 0 {
        None
    } else {
        Some(p.sources.last())
    }
}

/// Copies a list of spans.
fn copy_spans(v: &Vec<SourceSpan>) -> (r: Vec<SourceSpan>)
    ensures
        r@ == v@,
{
    let mut r: Vec<SourceSpan> = Vec::new();
    let mut i: usize = 0;
    while i < v.len()
        invariant
            0 <= i <= v@.len(),
            r@ == v@.subrange(0, i as int),
        decreases v@.len() - i,
    {
        r.push(v[i]);
        i += 1;
        assert(r@ =~= v@.subrange(0, i as int));
    }
    assert(v@.subrange(0, v@.len() as int) =~= v@);
    r
}

/// The semantic scalar category retained by the merge view.
#[derive(Debug, Clone, Copy, PartialEq, Eq, Hash, Structural)]
pub enum MergedScalarKind {
    /// A YAML string, including quoted numeric or boolean spelling.
    String,
    /// A YAML boolean.
    Boolean,
    /// A YAML integer or floating-point value retained as text.
    Number,
}

/// What a scalar holds: its authored spelling, its value after optional interpolation, its
/// category and whether interpolation inserted sensitive content.
pub struct ScalarView {
    /// The exact authored spelling.
    pub raw: Seq<char>,
    /// The semantic value after optional interpolation.
    pub value: Seq<char>,
    /// The scalar category.
    pub kind: MergedScalarKind,
    /// Whether interpolation inserted sensitive content.
    pub sensitive: bool,
}

/// One scalar after optional per-file interpolation.
#[derive(Clone, PartialEq, Eq)]
pub struct MergedScalar {
    raw: String,
    value: String,
    kind: MergedScalarKind,
    sensitive: bool,
}

impl View for MergedScalar {
    type V = ScalarView;

    closed spec fn view(&self) -> ScalarView {
        ScalarView { raw: self.raw@, value: self.value@, kind: self.kind, sensitive: self.sensitive }
    }
}

impl MergedScalar {
    /// Creates a scalar from its authored spelling, its semantic value, its category and its
    /// sensitivity.
    pub fn new(raw: String, value: String, kind: MergedScalarKind, sensitive: bool) -> (r: Self)
        ensures
            r@ == (ScalarView { raw: raw@, value: value@, kind, sensitive }),
    {
        Self { raw, value, kind, sensitive }
    }

    /// Returns the exact authored scalar spelling.
    pub fn raw(&self) -> (r: &str)
        ensures
            r@ == self@.raw,
    {
        self.raw.as_str()
    }

    /// Returns the semantic value after optional interpolation.
    pub fn value(&self) -> (r: &str)
        ensures
            r@ == self@.value,
    {
        self.value.as_str()
    }

    /// Returns the scalar category.
    pub fn kind(&self) -> (r: MergedScalarKind)
        ensures
            r == self@.kind,
    {
        self.kind
    }

    /// Reports whether interpolation inserted sensitive content.
    pub fn is_sensitive(&self) -> (r: bool)
        ensures
            r == self@.sensitive,
    {
        self.sensitive
    }

    /// Returns an equal copy.
    fn duplicate(&self) -> (r: Self)
        ensures
            r@ == self@,
    {
        Self { raw: self.raw.clone(), value: self.value.clone(), kind: self.kind, sensitive: self.sensitive }
    }
}

/// Whether a null-like value was explicit or represented by an empty YAML mapping value.
#[derive(Debug, Clone, Copy, PartialEq, Eq, Hash, Structural)]
pub enum NullStyle {
    /// A key was authored without a value.
    Empty,
    /// A YAML null scalar such as `null` or `~` was authored.
    Explicit,
}

/// The authored form that contributed one semantic mapping entry.
#[derive(Debug, Clone, Copy, PartialEq, Eq, Hash, Structural)]
pub enum EntrySyntax {
    /// A normal YAML mapping entry.
    Mapping,
    /// A `KEY=VALUE` scalar from a Compose list form.
    ListKeyValue,
    /// A key-only scalar from a Compose list form.
    ListKeyOnly,
}

/// What a merged value's kind holds, with strings as characters and children as views.
pub enum KindView {
    /// An empty or explicit null value.
    Null(NullStyle),
    /// A scalar.
    Scalar(ScalarView),
    /// An ordered mapping.
    Mapping(Seq<EntryView>),
    /// An ordered sequence.
    Sequence(Seq<ValueView>),
    /// An unresolved YAML alias.
    Alias(Seq<char>),
    /// A tagged value: the tag and the value.
    Tagged(Seq<char>, Box<ValueView>),
}

/// What a mapping entry holds.
pub struct EntryView {
    /// The semantic key.
    pub key: Seq<char>,
    /// Every authored key location that participated in the entry.
    pub key_sources: Seq<SourceSpan>,
    /// The most recent authored syntax form.
    pub syntax: EntrySyntax,
    /// The value.
    pub value: ValueView,
}

/// What a merged value holds: its kind and its provenance.
pub struct ValueView {
    /// The value kind.
    pub kind: KindView,
    /// The provenance.
    pub provenance: ProvenanceView,
}

/// One mapping entry in a merged semantic view.
#[derive(PartialEq, Eq)]
pub struct MergedEntry {
    key: String,
    key_sources: Vec<SourceSpan>,
    syntax: EntrySyntax,
    value: MergedValue,
}

/// A ComposeLens-owned semantic value that does not expose the YAML parser dependency.
#[derive(PartialEq, Eq)]
pub enum MergedValueKind {
    /// An empty or explicit null value.
    Null(NullStyle),
    /// A scalar with authored and optionally interpolated forms.
    Scalar(MergedScalar),
    /// An ordered semantic mapping.
    Mapping(Vec<MergedEntry>),
    /// An ordered sequence.
    Sequence(Vec<MergedValue>),
    /// An unresolved YAML alias retained for diagnostics and recovery.
    Alias(String),
    /// A non-Compose YAML tag retained without interpretation.
    Tagged {
        /// The authored tag name.
        tag: String,
        /// The tagged value.
        value: Box<MergedValue>,
    },
}

/// One value in the merged semantic project.
#[derive(PartialEq, Eq)]
pub struct MergedValue {
    kind: MergedValueKind,
    provenance: MergeProvenance,
}

/// The view of a value.
pub closed spec fn value_view(v: MergedValue) -> ValueView
    decreases v, 0nat,
{
    ValueView { kind: kind_view(v.kind), provenance: v.provenance@ }
}

/// The view of a value kind.
pub closed spec fn kind_view(k: MergedValueKind) -> KindView
    decreases k, 0nat,
{
    match k {
        MergedValueKind::Null(s) => KindView::Null(s),
        MergedValueKind::Scalar(s) => KindView::Scalar(s@),
        MergedValueKind::Mapping(es) => {
            proof {
                assert(decreases_to!(k => es));
                assert(decreases_to!(es => es@));
            }
            KindView::Mapping(entries_view(es@, es@.len()))
        },
        MergedValueKind::Sequence(vs) => {
            proof {
                assert(decreases_to!(k => vs));
                assert(decreases_to!(vs => vs@));
            }
            KindView::Sequence(values_view(vs@, vs@.len()))
        },
        MergedValueKind::Alias(a) => KindView::Alias(a@),
        MergedValueKind::Tagged { tag, value } => KindView::Tagged(tag@, Box::new(value_view(*value))),
    }
}

/// The view of one entry.
pub closed spec fn entry_view(e: MergedEntry) -> EntryView
    decreases e, 0nat,
{
    EntryView { key: e.key@, key_sources: e.key_sources@, syntax: e.syntax, value: value_view(e.value) }
}

/// The views of the first `n` entries.
pub closed spec fn entries_view(s: Seq<MergedEntry>, n: nat) -> Seq<EntryView>
    decreases s, n,
{
    if n == 0 || n > s.len() {
        seq![]
    } else {
        proof {
            assert(decreases_to!(s => s[n - 1]));
        }
        entries_view(s, (n - 1) as nat).push(entry_view(s[n - 1]))
    }
}

/// The views of the first `n` values.
pub closed spec fn values_view(s: Seq<MergedValue>, n: nat) -> Seq<ValueView>
    decreases s, n,
{
    if n == 0 || n > s.len() {
        seq![]
    } else {
        proof {
            assert(decreases_to!(s => s[n - 1]));
        }
        values_view(s, (n - 1) as nat).push(value_view(s[n - 1]))
    }
}

impl View for MergedValue {
    type V = ValueView;

    closed spec fn view(&self) -> ValueView {
        value_view(*self)
    }
}

impl View for MergedEntry {
    type V = EntryView;

    closed spec fn view(&self) -> EntryView {
        entry_view(*self)
    }
}

/// The views of a list of entries.
pub closed spec fn entries_seq(s: Seq<MergedEntry>) -> Seq<EntryView> {
    entries_view(s, s.len())
}

/// The views of a list of values.
pub closed spec fn values_seq(s: Seq<MergedValue>) -> Seq<ValueView> {
    values_view(s, s.len())
}

proof fn lemma_entries_view(s: Seq<MergedEntry>, n: nat)
    requires
        n <= s.len(),
    ensures
        entries_view(s, n).len() == n,
        forall|i: int| 0 <= i < n ==> #[trigger] entries_view(s, n)[i] == entry_view(s[i]),
    decreases n,
{
    if n > 0 {
        lemma_entries_view(s, (n - 1) as nat);
    }
}

proof fn lemma_values_view(s: Seq<MergedValue>, n: nat)
    requires
        n <= s.len(),
    ensures
        values_view(s, n).len() == n,
        forall|i: int| 0 <= i < n ==> #[trigger] values_view(s, n)[i] == value_view(s[i]),
    decreases n,
{
    if n > 0 {
        lemma_values_view(s, (n - 1) as nat);
    }
}

/// The views of a list of entries, element by element.
pub proof fn lemma_entries_seq(s: Seq<MergedEntry>)
    ensures
        entries_seq(s).len() == s.len(),
        forall|i: int| 0 <= i < s.len() ==> #[trigger] entries_seq(s)[i] == s[i]@,
{
    lemma_entries_view(s, s.len());
}

/// The views of a list of values, element by element.
pub proof fn lemma_values_seq(s: Seq<MergedValue>)
    ensures
        values_seq(s).len() == s.len(),
        forall|i: int| 0 <= i < s.len() ==> #[trigger] values_seq(s)[i] == s[i]@,
{
    lemma_values_view(s, s.len());
}

/// The view of a value, one level down.
proof fn lemma_value_view(v: MergedValue)
    ensures
        v@.provenance == v.provenance@,
        v@.kind == kind_view(v.kind),
        v.kind matches MergedValueKind::Null(s) ==> v@.kind == KindView::Null(s),
        v.kind matches MergedValueKind::Scalar(s) ==> v@.kind == KindView::Scalar(s@),
        v.kind matches MergedValueKind::Mapping(es) ==> v@.kind == KindView::Mapping(entries_seq(es@)),
        v.kind matches MergedValueKind::Sequence(vs) ==> v@.kind == KindView::Sequence(values_seq(vs@)),
        v.kind matches MergedValueKind::Alias(a) ==> v@.kind == KindView::Alias(a@),
        v.kind matches MergedValueKind::Tagged { tag, value } ==> v@.kind == KindView::Tagged(
            tag@,
            Box::new(value@),
        ),
{
}

/// The view of an entry.
proof fn lemma_entry_view(e: MergedEntry)
    ensures
        e@ == (EntryView { key: e.key@, key_sources: e.key_sources@, syntax: e.syntax, value: e.value@ }),
{
}

impl MergedEntry {
    /// Creates an entry from its key, its key locations, its syntax form and its value.
    pub fn new(key: String, key_sources: Vec<SourceSpan>, syntax: EntrySyntax, value: MergedValue) -> (r: Self)
        ensures
            r@ == (EntryView { key: key@, key_sources: key_sources@, syntax, value: value@ }),
    {
        Self { key, key_sources, syntax, value }
    }

    /// Returns the semantic mapping key.
    pub fn key(&self) -> (r: &str)
        ensures
            r@ == self@.key,
    {
        self.key.as_str()
    }

    /// Returns every authored key location that participated in this entry.
    pub fn key_sources(&self) -> (r: &[SourceSpan])
        ensures
            r@ == self@.key_sources,
    {
        self.key_sources.as_slice()
    }

    /// Returns the most recent authored syntax form for this entry.
    pub fn syntax(&self) -> (r: EntrySyntax)
        ensures
            r == self@.syntax,
    {
        self.syntax
    }

    /// Returns the merged entry value.
    pub fn value(&self) -> (r: &MergedValue)
        ensures
            r@ == self@.value,
    {
        &self.value
    }
}

impl View for MergedValueKind {
    type V = KindView;

    closed spec fn view(&self) -> KindView {
        kind_view(*self)
    }
}

/// The spans of `t` followed by those of `inc` that are not yet present, in order.
pub open spec fn extend_sources(t: Seq<SourceSpan>, inc: Seq<SourceSpan>) -> Seq<SourceSpan>
    decreases inc.len(),
{
    if inc.len() == 0 {
        t
    } else {
        let r = extend_sources(t, inc.drop_last());
        if r.contains(inc.last()) {
            r
        } else {
            r.push(inc.last())
        }
    }
}

/// A provenance record after an operation that combined `b` with `i`.
pub open spec fn combined(b: ProvenanceView, i: ProvenanceView, op: MergeOperation) -> ProvenanceView {
    ProvenanceView { operation: op, sources: extend_sources(b.sources, i.sources) }
}

/// A value with another provenance record.
pub open spec fn with_provenance(v: ValueView, p: ProvenanceView) -> ValueView {
    ValueView { kind: v.kind, provenance: p }
}

/// A value as added by a later document: an `Authored` operation becomes `Added`.
pub open spec fn marked_added(v: ValueView) -> ValueView {
    if v.provenance.operation == MergeOperation::Authored {
        with_provenance(v, ProvenanceView { operation: MergeOperation::Added, sources: v.provenance.sources })
    } else {
        v
    }
}

/// `i` replacing `b` by operation `op`: the kind of `i`, with both provenance records combined.
pub open spec fn replaced(b: ValueView, i: ValueView, op: MergeOperation) -> ValueView {
    with_provenance(i, combined(b.provenance, i.provenance, op))
}

/// The kind a `!reset` leaves: an empty mapping or sequence of the tagged value's kind, or
/// of the earlier value's kind when the tagged value is null, and otherwise an empty null.
pub open spec fn reset_kind(base: Option<ValueView>, tagged: ValueView) -> KindView {
    match tagged.kind {
        KindView::Mapping(_) => KindView::Mapping(seq![]),
        KindView::Sequence(_) => KindView::Sequence(seq![]),
        KindView::Null(_) => match base {
            Some(b) => match b.kind {
                KindView::Mapping(_) => KindView::Mapping(seq![]),
                KindView::Sequence(_) => KindView::Sequence(seq![]),
                _ => KindView::Null(NullStyle::Empty),
            },
            None => KindView::Null(NullStyle::Empty),
        },
        _ => KindView::Null(NullStyle::Empty),
    }
}

/// What a `!reset` tag with provenance `tag` over `tagged` leaves of an earlier value.
pub open spec fn reset(base: Option<ValueView>, tagged: ValueView, tag: ProvenanceView) -> ValueView {
    ValueView {
        kind: reset_kind(base, tagged),
        provenance: match base {
            Some(b) => combined(b.provenance, tag, MergeOperation::Reset),
            None => ProvenanceView { operation: MergeOperation::Reset, sources: tag.sources },
        },
    }
}

/// The provenance that an `!override` tag gives the tagged value.
pub open spec fn override_provenance(base: Option<ValueView>, tagged: ValueView, tag: ProvenanceView) -> ProvenanceView {
    match base {
        Some(b) => combined(combined(b.provenance, tag, MergeOperation::Override), tagged.provenance, MergeOperation::Override),
        None => combined(tag, tagged.provenance, MergeOperation::Override),
    }
}

/// What an `!override` tag with provenance `tag` over `tagged` leaves of an earlier value.
pub open spec fn overridden(base: Option<ValueView>, tagged: ValueView, tag: ProvenanceView) -> ValueView {
    with_provenance(tagged, override_provenance(base, tagged, tag))
}

/// Reports whether a list of spans holds a span.
fn spans_contain(v: &Vec<SourceSpan>, span: SourceSpan) -> (r: bool)
    ensures
        r == v@.contains(span),
{
    let mut i: usize = 0;
    while i < v.len()
        invariant
            0 <= i <= v@.len(),
            forall|j: int| 0 <= j < i ==> v@[j] != span,
        decreases v@.len() - i,
    {
        if v[i] == span {
            assert(v@[i as int] == span);
            return true;
        }
        i += 1;
    }
    false
}

/// Appends the spans of `incoming` that `target` does not yet hold, in order.
fn extend_spans(target: &mut Vec<SourceSpan>, incoming: &[SourceSpan])
    ensures
        final(target)@ == extend_sources(old(target)@, incoming@),
{
    let mut i: usize = 0;
    while i < incoming.len()
        invariant
            0 <= i <= incoming@.len(),
            target@ == extend_sources(old(target)@, incoming@.subrange(0, i as int)),
        decreases incoming@.len() - i,
    {
        let span = incoming[i];
        proof {
            assert(incoming@.subrange(0, i + 1).drop_last() =~= incoming@.subrange(0, i as int));
            assert(incoming@.subrange(0, i + 1).last() == span);
        }
        if !spans_contain(target, span) {
            target.push(span);
        }
        i += 1;
    }
    assert(incoming@.subrange(0, incoming@.len() as int) =~= incoming@);
}

/// Combines two provenance records under an operation.
fn combined_provenance(base: MergeProvenance, incoming: &MergeProvenance, operation: MergeOperation) -> (r: MergeProvenance)
    ensures
        r@ == combined(base@, incoming@, operation),
{
    let mut base = base;
    extend_spans(&mut base.sources, incoming.sources.as_slice());
    base.operation = operation;
    base
}

/// Marks a value as added by a later document.
fn mark_added(value: &mut MergedValue)
    ensures
        final(value)@ == marked_added(old(value)@),
{
    proof {
        lemma_value_view(*value);
    }
    if value.provenance.operation == MergeOperation::Authored {
        value.provenance.operation = MergeOperation::Added;
    }
    proof {
        lemma_value_view(*value);
    }
}

/// Replaces `base` by `incoming` under an operation.
fn replace_value(base: MergedValue, incoming: MergedValue, operation: MergeOperation) -> (r: MergedValue)
    ensures
        r@ == replaced(base@, incoming@, operation),
{
    proof {
        lemma_value_view(base);
        lemma_value_view(incoming);
    }
    let mut incoming = incoming;
    let mut provenance = MergeProvenance { operation: MergeOperation::Authored, sources: Vec::new() };
    std::mem::swap(&mut provenance, &mut incoming.provenance);
    incoming.provenance = combined_provenance(base.provenance, &provenance, operation);
    proof {
        lemma_value_view(incoming);
    }
    incoming
}

/// What a `!reset` tag leaves of an earlier value.
fn reset_value(base: Option<&MergedValue>, tagged: &MergedValue, tag: MergeProvenance) -> (r: MergedValue)
    ensures
        r@ == reset(
            match base {
                Some(b) => Some(b@),
                None => None,
            },
            tagged@,
            tag@,
        ),
{
    proof {
        lemma_value_view(*tagged);
        if let Some(b) = base {
            lemma_value_view(*b);
        }
    }
    let kind = match &tagged.kind {
        MergedValueKind::Mapping(_) => MergedValueKind::Mapping(Vec::new()),
        MergedValueKind::Sequence(_) => MergedValueKind::Sequence(Vec::new()),
        MergedValueKind::Null(_) => match base {
            Some(b) => match &b.kind {
                MergedValueKind::Mapping(_) => MergedValueKind::Mapping(Vec::new()),
                MergedValueKind::Sequence(_) => MergedValueKind::Sequence(Vec::new()),
                _ => MergedValueKind::Null(NullStyle::Empty),
            },
            None => MergedValueKind::Null(NullStyle::Empty),
        },
        _ => MergedValueKind::Null(NullStyle::Empty),
    };
    let provenance = match base {
        Some(b) => combined_provenance(b.provenance.duplicate(), &tag, MergeOperation::Reset),
        None => MergeProvenance { operation: MergeOperation::Reset, sources: tag.sources },
    };
    let r = MergedValue { kind, provenance };
    proof {
        lemma_value_view(r);
        lemma_entries_view(Seq::<MergedEntry>::empty(), 0);
        lemma_values_view(Seq::<MergedValue>::empty(), 0);
        assert(entries_seq(Seq::<MergedEntry>::empty()) =~= Seq::<EntryView>::empty());
        assert(values_seq(Seq::<MergedValue>::empty()) =~= Seq::<ValueView>::empty());
    }
    r
}

/// What an `!override` tag leaves of an earlier value: the tagged value.
fn override_value(base: Option<&MergedValue>, tagged: MergedValue, tag: MergeProvenance) -> (r: MergedValue)
    ensures
        r@ == overridden(
            match base {
                Some(b) => Some(b@),
                None => None,
            },
            tagged@,
            tag@,
        ),
{
    proof {
        lemma_value_view(tagged);
        if let Some(b) = base {
            lemma_value_view(*b);
        }
    }
    let mut tagged = tagged;
    let mut inner = MergeProvenance { operation: MergeOperation::Authored, sources: Vec::new() };
    std::mem::swap(&mut inner, &mut tagged.provenance);
    tagged.provenance = match base {
        Some(b) => {
            let prior = combined_provenance(b.provenance.duplicate(), &tag, MergeOperation::Override);
            combined_provenance(prior, &inner, MergeOperation::Override)
        },
        None => combined_provenance(tag, &inner, MergeOperation::Override),
    };
    proof {
        lemma_value_view(tagged);
    }
    tagged
}

/// The nesting height of a value: 0 for a leaf, one more than its highest child otherwise.
pub open spec fn height(v: ValueView) -> nat
    decreases v, 1nat,
{
    match v.kind {
        KindView::Mapping(es) => 1 + entries_height(es, es.len()),
        KindView::Sequence(vs) => 1 + values_height(vs, vs.len()),
        KindView::Tagged(_, inner) => 1 + height(*inner),
        _ => 0,
    }
}

/// The greatest height among the values of the first `n` entries.
pub open spec fn entries_height(es: Seq<EntryView>, n: nat) -> nat
    decreases es, n,
{
    if n == 0 || n > es.len() {
        0
    } else {
        let a = entries_height(es, (n - 1) as nat);
        let b = height(es[n - 1].value);
        if a < b {
            b
        } else {
            a
        }
    }
}

/// The greatest height among the first `n` values.
pub open spec fn values_height(vs: Seq<ValueView>, n: nat) -> nat
    decreases vs, n,
{
    if n == 0 || n > vs.len() {
        0
    } else {
        let a = values_height(vs, (n - 1) as nat);
        let b = height(vs[n - 1]);
        if a < b {
            b
        } else {
            a
        }
    }
}

/// Each entry value is at most as high as the list says.
pub proof fn lemma_entries_height(es: Seq<EntryView>, n: nat, i: int)
    requires
        0 <= i < n <= es.len(),
    ensures
        height(es[i].value) <= entries_height(es, n),
    decreases n,
{
    if i < n - 1 {
        lemma_entries_height(es, (n - 1) as nat, i);
    }
}

/// Each value is at most as high as the list says.
pub proof fn lemma_values_height(vs: Seq<ValueView>, n: nat, i: int)
    requires
        0 <= i < n <= vs.len(),
    ensures
        height(vs[i]) <= values_height(vs, n),
    decreases n,
{
    if i < n - 1 {
        lemma_values_height(vs, (n - 1) as nat, i);
    }
}

/// A value with its `!reset` and `!override` tags applied throughout, as the first document
/// that defines it is read.
pub open spec fn activated(v: ValueView) -> ValueView
    decreases v, 1nat,
{
    match v.kind {
        KindView::Tagged(t, inner) => if t == "!reset"@ {
            reset(None, *inner, v.provenance)
        } else if t == "!override"@ {
            ValueView {
                kind: activate_kind(inner.kind),
                provenance: override_provenance(None, *inner, v.provenance),
            }
        } else {
            ValueView { kind: activate_kind(v.kind), provenance: v.provenance }
        },
        _ => ValueView { kind: activate_kind(v.kind), provenance: v.provenance },
    }
}

/// A kind with the values below it activated.
pub open spec fn activate_kind(k: KindView) -> KindView
    decreases k, 0nat,
{
    match k {
        KindView::Mapping(es) => KindView::Mapping(activate_entries(es, es.len())),
        KindView::Sequence(vs) => KindView::Sequence(activate_values(vs, vs.len())),
        KindView::Tagged(t, inner) => KindView::Tagged(t, Box::new(activated(*inner))),
        _ => k,
    }
}

/// The first `n` entries with their values activated.
pub open spec fn activate_entries(es: Seq<EntryView>, n: nat) -> Seq<EntryView>
    decreases es, n,
{
    if n == 0 || n > es.len() {
        seq![]
    } else {
        let e = es[n - 1];
        activate_entries(es, (n - 1) as nat).push(
            EntryView { key: e.key, key_sources: e.key_sources, syntax: e.syntax, value: activated(e.value) },
        )
    }
}

/// The first `n` values activated.
pub open spec fn activate_values(vs: Seq<ValueView>, n: nat) -> Seq<ValueView>
    decreases vs, n,
{
    if n == 0 || n > vs.len() {
        seq![]
    } else {
        activate_values(vs, (n - 1) as nat).push(activated(vs[n - 1]))
    }
}

proof fn lemma_activate_entries(es: Seq<EntryView>, n: nat)
    requires
        n <= es.len(),
    ensures
        activate_entries(es, n).len() == n,
        forall|i: int|
            0 <= i < n ==> #[trigger] activate_entries(es, n)[i] == (EntryView {
                key: es[i].key,
                key_sources: es[i].key_sources,
                syntax: es[i].syntax,
                value: activated(es[i].value),
            }),
    decreases n,
{
    if n > 0 {
        lemma_activate_entries(es, (n - 1) as nat);
    }
}

proof fn lemma_activate_values(vs: Seq<ValueView>, n: nat)
    requires
        n <= vs.len(),
    ensures
        activate_values(vs, n).len() == n,
        forall|i: int| 0 <= i < n ==> #[trigger] activate_values(vs, n)[i] == activated(vs[i]),
    decreases n,
{
    if n > 0 {
        lemma_activate_values(vs, (n - 1) as nat);
    }
}

/// An empty value used to hold a place while a value is moved out of a list.
fn placeholder() -> (r: MergedValue)
    ensures
        height(r@) == 0,
        r@ == empty_authored_null(),
{
    let r = MergedValue {
        kind: MergedValueKind::Null(NullStyle::Empty),
        provenance: MergeProvenance { operation: MergeOperation::Authored, sources: Vec::new() },
    };
    proof {
        lemma_value_view(r);
    }
    r
}

/// An authored empty null with no source.
pub open spec fn empty_authored_null() -> ValueView {
    ValueView {
        kind: KindView::Null(NullStyle::Empty),
        provenance: ProvenanceView { operation: MergeOperation::Authored, sources: Seq::empty() },
    }
}

/// An empty entry used to hold a place while an entry is moved out of a list: an empty key
/// with no key location, mapping syntax, and an authored empty null with no source.
fn placeholder_entry() -> (r: MergedEntry)
    ensures
        r@ == (EntryView {
            key: Seq::empty(),
            key_sources: Seq::empty(),
            syntax: EntrySyntax::Mapping,
            value: empty_authored_null(),
        }),
{
    let r = MergedEntry { key: String::new(), key_sources: Vec::new(), syntax: EntrySyntax::Mapping, value: placeholder() };
    proof {
        lemma_entry_view(r);
    }
    r
}

/// Applies `!reset` and `!override` tags throughout a value.
fn activate_tags(value: MergedValue) -> (r: MergedValue)
    ensures
        r@ == activated(value@),
    decreases height(value@), 1nat,
{
    proof {
        lemma_value_view(value);
    }
    let ghost whole = value@;
    let MergedValue { kind, provenance } = value;
    match kind {
        MergedValueKind::Tagged { tag, value: inner } => {
            proof {
                lemma_value_view(*inner);
            }
            let ghost inner_view = inner@;
            if str_eq(tag.as_str(), "!reset") {
                let r = reset_value(None, &*inner, provenance);
                proof {
                    lemma_value_view(r);
                }
                r
            } else if str_eq(tag.as_str(), "!override") {
                let overridden = override_value(None, *inner, provenance);
                proof {
                    lemma_value_view(overridden);
                    assert(height(overridden@) == height(inner_view));
                    assert(height(whole) == 1 + height(inner_view));
                }
                activate_children(overridden)
            } else {
                let same = MergedValue { kind: MergedValueKind::Tagged { tag, value: inner }, provenance };
                proof {
                    lemma_value_view(same);
                }
                activate_children(same)
            }
        },
        kind => {
            let same = MergedValue { kind, provenance };
            proof {
                lemma_value_view(same);
            }
            activate_children(same)
        },
    }
}

/// Activates the values below a value.
fn activate_children(value: MergedValue) -> (r: MergedValue)
    ensures
        r@ == (ValueView { kind: activate_kind(value@.kind), provenance: value@.provenance }),
    decreases height(value@), 0nat,
{
    proof {
        lemma_value_view(value);
    }
    let MergedValue { kind, provenance } = value;
    let kind = match kind {
        MergedValueKind::Mapping(es) => {
            let mut es = es;
            let ghost original = es@;
            let ghost views = entries_seq(original);
            proof {
                lemma_entries_seq(original);
            }
            let mut i: usize = 0;
            while i < es.len()
                invariant
                    0 <= i <= es@.len(),
                    es@.len() == original.len(),
                    views == entries_seq(original),
                    views.len() == original.len(),
                    height(value@) == 1 + entries_height(views, views.len()),
                    forall|j: int| 0 <= j < original.len() ==> #[trigger] views[j] == original[j]@,
                    forall|j: int| i <= j < es@.len() ==> #[trigger] es@[j] == original[j],
                    forall|j: int|
                        0 <= j < i ==> #[trigger] es@[j]@ == (EntryView {
                            key: views[j].key,
                            key_sources: views[j].key_sources,
                            syntax: views[j].syntax,
                            value: activated(views[j].value),
                        }),
                decreases es@.len() - i,
            {
                let mut entry = placeholder_entry();
                es.set_and_swap(i, &mut entry);
                proof {
                    lemma_entry_view(entry);
                    lemma_entries_height(views, views.len(), i as int);
                }
                let MergedEntry { key, key_sources, syntax, value: child } = entry;
                let child = activate_tags(child);
                let mut activated_entry = MergedEntry { key, key_sources, syntax, value: child };
                proof {
                    lemma_entry_view(activated_entry);
                }
                es.set_and_swap(i, &mut activated_entry);
                i += 1;
            }
            MergedValueKind::Mapping(es)
        },
        MergedValueKind::Sequence(vs) => {
            let mut vs = vs;
            let ghost original = vs@;
            let ghost views = values_seq(original);
            proof {
                lemma_values_seq(original);
            }
            let mut i: usize = 0;
            while i < vs.len()
                invariant
                    0 <= i <= vs@.len(),
                    vs@.len() == original.len(),
                    views == values_seq(original),
                    views.len() == original.len(),
                    height(value@) == 1 + values_height(views, views.len()),
                    forall|j: int| 0 <= j < original.len() ==> #[trigger] views[j] == original[j]@,
                    forall|j: int| i <= j < vs@.len() ==> #[trigger] vs@[j] == original[j],
                    forall|j: int| 0 <= j < i ==> #[trigger] vs@[j]@ == activated(views[j]),
                decreases vs@.len() - i,
            {
                let mut item = placeholder();
                vs.set_and_swap(i, &mut item);
                proof {
                    lemma_values_height(views, views.len(), i as int);
                }
                let mut activated_item = activate_tags(item);
                vs.set_and_swap(i, &mut activated_item);
                i += 1;
            }
            MergedValueKind::Sequence(vs)
        },
        MergedValueKind::Tagged { tag, value: inner } => {
            let activated_inner = activate_tags(*inner);
            MergedValueKind::Tagged { tag, value: Box::new(activated_inner) }
        },
        other => other,
    };
    let r = MergedValue { kind, provenance };
    proof {
        lemma_value_view(r);
        match &r.kind {
            MergedValueKind::Mapping(es) => {
                lemma_entries_seq(es@);
                let views = match value@.kind {
                    KindView::Mapping(v) => v,
                    _ => seq![],
                };
                lemma_activate_entries(views, views.len());
                assert(entries_seq(es@) =~= activate_entries(views, views.len()));
            },
            MergedValueKind::Sequence(vs) => {
                lemma_values_seq(vs@);
                let views = match value@.kind {
                    KindView::Sequence(v) => v,
                    _ => seq![],
                };
                lemma_activate_values(views, views.len());
                assert(values_seq(vs@) =~= activate_values(views, views.len()));
            },
            _ => {},
        }
    }
    r
}

/// The key path of a value: its mapping keys from the root.
pub open spec fn path_view(p: Seq<String>) -> Seq<Seq<char>> {
    p.map_values(|k: String| k@)
}

/// Values under `services.<name>.command`, `.entrypoint` and `.healthcheck.test`, which a
/// later document replaces as a whole.
pub open spec fn is_shell_command(p: Seq<Seq<char>>) -> bool {
    ||| (p.len() == 3 && p[0] == "services"@ && (p[2] == "command"@ || p[2] == "entrypoint"@))
    ||| (p.len() == 4 && p[0] == "services"@ && p[2] == "healthcheck"@ && p[3] == "test"@)
}

/// Values under `services.<name>.environment` and `.labels`, merged by key in list or
/// mapping form.
pub open spec fn is_keyed_mapping(p: Seq<Seq<char>>) -> bool {
    p.len() == 3 && p[0] == "services"@ && (p[2] == "environment"@ || p[2] == "labels"@)
}

/// The service fields whose list items are merged by a unique key.
#[derive(Debug, Clone, Copy, PartialEq, Eq, Structural)]
pub enum UniqueField {
    /// `volumes`, keyed by target.
    Volume,
    /// `devices`, keyed by target.
    Device,
    /// `configs`, keyed by target or source.
    Config,
    /// `secrets`, keyed by target or source.
    Secret,
    /// `ports`, keyed by address, target, published port and protocol.
    Port,
}

/// The unique-key field of a path `services.<name>.<field>`, if any.
pub open spec fn unique_field(p: Seq<Seq<char>>) -> Option<UniqueField> {
    if p.len() != 3 || p[0] != "services"@ {
        None
    } else if p[2] == "volumes"@ {
        Some(UniqueField::Volume)
    } else if p[2] == "devices"@ {
        Some(UniqueField::Device)
    } else if p[2] == "configs"@ {
        Some(UniqueField::Config)
    } else if p[2] == "secrets"@ {
        Some(UniqueField::Secret)
    } else if p[2] == "ports"@ {
        Some(UniqueField::Port)
    } else {
        None
    }
}

/// The index of the first entry with key `key`, or `-1`.
pub open spec fn first_key(es: Seq<EntryView>, key: Seq<char>) -> int
    decreases es.len(),
{
    if es.len() == 0 {
        -1
    } else if first_key(es.drop_last(), key) != -1 {
        first_key(es.drop_last(), key)
    } else if es.last().key == key {
        es.len() - 1
    } else {
        -1
    }
}

/// The value under `key` when `v` is a mapping that has one.
pub open spec fn lookup(v: ValueView, key: Seq<char>) -> Option<ValueView> {
    match v.kind {
        KindView::Mapping(es) => if first_key(es, key) == -1 {
            None
        } else {
            Some(es[first_key(es, key)].value)
        },
        _ => None,
    }
}

/// The scalar value under `key` when `v` is a mapping that has one.
pub open spec fn mapping_scalar(v: ValueView, key: Seq<char>) -> Option<Seq<char>> {
    match lookup(v, key) {
        Some(x) => match x.kind {
            KindView::Scalar(s) => Some(s.value),
            _ => None,
        },
        None => None,
    }
}

/// The entry that a list item `KEY=VALUE` or `KEY` of a keyed field stands for.
pub open spec fn normalized_entry(v: ValueView) -> Option<EntryView> {
    match v.kind {
        KindView::Scalar(s) => match effective_source(v.provenance) {
            None => None,
            Some(span) => {
                let b = sb(s.value);
                let e = find(b, 61);
                if e != -1 {
                    let rest = decode_utf8(b.subrange(e + 1, b.len() as int));
                    Some(
                        EntryView {
                            key: decode_utf8(b.subrange(0, e)),
                            key_sources: seq![span],
                            syntax: EntrySyntax::ListKeyValue,
                            value: ValueView {
                                kind: KindView::Scalar(
                                    ScalarView {
                                        raw: rest,
                                        value: rest,
                                        kind: MergedScalarKind::String,
                                        sensitive: s.sensitive,
                                    },
                                ),
                                provenance: v.provenance,
                            },
                        },
                    )
                } else {
                    Some(
                        EntryView {
                            key: s.value,
                            key_sources: seq![span],
                            syntax: EntrySyntax::ListKeyOnly,
                            value: ValueView { kind: KindView::Null(NullStyle::Empty), provenance: v.provenance },
                        },
                    )
                }
            },
        },
        _ => None,
    }
}

/// The entries that the first `n` list items stand for, when every one stands for one.
pub open spec fn normalized_entries(vs: Seq<ValueView>, n: nat) -> Option<Seq<EntryView>>
    decreases n,
{
    if n == 0 || n > vs.len() {
        Some(seq![])
    } else {
        match normalized_entries(vs, (n - 1) as nat) {
            None => None,
            Some(es) => match normalized_entry(vs[n - 1]) {
                None => None,
                Some(e) => Some(es.push(e)),
            },
        }
    }
}

/// A keyed field as a mapping: a mapping as it is, a list of `KEY[=VALUE]` scalars as the
/// mapping it stands for, and nothing else.
pub open spec fn normalized(v: ValueView) -> Option<ValueView> {
    match v.kind {
        KindView::Mapping(_) => Some(v),
        KindView::Sequence(vs) => match normalized_entries(vs, vs.len()) {
            Some(es) => Some(ValueView { kind: KindView::Mapping(es), provenance: v.provenance }),
            None => None,
        },
        _ => None,
    }
}

pub proof fn lemma_normalized_entries(vs: Seq<ValueView>, n: nat)
    requires
        n <= vs.len(),
    ensures
        normalized_entries(vs, n) matches Some(es) ==> es.len() == n && entries_height(es, n) == 0 && forall|i: int|
            0 <= i < n ==> normalized_entry(vs[i]) == Some(#[trigger] es[i]),
        normalized_entries(vs, n) is None <==> exists|i: int| 0 <= i < n && #[trigger] normalized_entry(vs[i]) is None,
    decreases n,
{
    if n > 0 {
        lemma_normalized_entries(vs, (n - 1) as nat);
        if let Some(es) = normalized_entries(vs, n) {
            let p = normalized_entries(vs, (n - 1) as nat)->0;
            assert(es.drop_last() =~= p);
            assert(height(es[n - 1].value) == 0);
            assert(entries_height(es.drop_last(), (n - 1) as nat) == entries_height(p, (n - 1) as nat));
            lemma_entries_height_prefix(es, (n - 1) as nat);
        }
    }
}

/// The height of a prefix of entries depends only on the prefix.
pub proof fn lemma_entries_height_prefix(es: Seq<EntryView>, n: nat)
    requires
        n < es.len(),
    ensures
        entries_height(es, n) == entries_height(es.drop_last(), n),
    decreases n,
{
    if n > 0 {
        lemma_entries_height_prefix(es, (n - 1) as nat);
    }
}

/// A normalized keyed field is no higher than the field.
pub proof fn lemma_normalized_height(v: ValueView)
    ensures
        normalized(v) matches Some(n) ==> height(n) <= height(v) && n.kind is Mapping,
{
    if let KindView::Sequence(vs) = v.kind {
        lemma_normalized_entries(vs, vs.len());
    }
}

/// The key by which a list item of a unique-key field is matched.
pub enum UniqueKeyView {
    /// A target path or name.
    Target(Seq<char>),
    /// A port: host address, target, published port and protocol.
    Port(Seq<char>, Seq<char>, Seq<char>, Seq<char>),
}

/// The target of a short mount `[SOURCE:]TARGET[:MODE]`: the second `:`-separated field when
/// there are several, and otherwise the whole non-empty text.
pub open spec fn mount_target(value: Seq<char>) -> Option<Seq<char>> {
    let fields = split_from(sb(value), 58, 0);
    if fields.len() >= 2 {
        Some(decode_utf8(fields[1]))
    } else if value.len() > 0 {
        Some(value)
    } else {
        None
    }
}

/// The target by which a volume, device, config or secret item is matched.
pub open spec fn target_key(v: ValueView, colon_syntax: bool) -> Option<Seq<char>> {
    match v.kind {
        KindView::Scalar(s) => if colon_syntax {
            match effective_source(v.provenance) {
                None => None,
                Some(_) => mount_target(s.value),
            }
        } else {
            Some(s.value)
        },
        _ => match mapping_scalar(v, "target"@) {
            Some(t) => Some(t),
            None => if !colon_syntax {
                mapping_scalar(v, "source"@)
            } else {
                None
            },
        },
    }
}

/// The key by which a port item is matched: in short form, as [`ShortPort::parse`] reads it;
/// in long form, from its `host_ip`, `target`, `published` and `protocol` fields. A missing
/// address or published port is empty and a missing protocol is `tcp`.
pub open spec fn port_key(v: ValueView) -> Option<UniqueKeyView> {
    match v.kind {
        KindView::Scalar(s) => match effective_source(v.provenance) {
            None => None,
            Some(_) => {
                let b = sb(s.value);
                let f = short_port_fields(b);
                let n = f.len();
                Some(
                    UniqueKeyView::Port(
                        if n >= 3 {
                            decode_utf8(join_with(f.subrange(0, n - 2), 58))
                        } else {
                            Seq::<char>::empty()
                        },
                        decode_utf8(f.last()),
                        if n >= 2 {
                            decode_utf8(f[n - 2])
                        } else {
                            Seq::<char>::empty()
                        },
                        if rfind(b, 47) == -1 {
                            "tcp"@
                        } else {
                            decode_utf8(b.subrange(rfind(b, 47) + 1, b.len() as int))
                        },
                    ),
                )
            },
        },
        _ => match mapping_scalar(v, "target"@) {
            None => None,
            Some(t) => Some(
                UniqueKeyView::Port(
                    match mapping_scalar(v, "host_ip"@) {
                        Some(x) => x,
                        None => Seq::<char>::empty(),
                    },
                    t,
                    match mapping_scalar(v, "published"@) {
                        Some(x) => x,
                        None => Seq::<char>::empty(),
                    },
                    match mapping_scalar(v, "protocol"@) {
                        Some(x) => x,
                        None => "tcp"@,
                    },
                ),
            ),
        },
    }
}

/// The key by which an item of a unique-key field is matched.
pub open spec fn unique_key(v: ValueView, field: UniqueField) -> Option<UniqueKeyView> {
    match field {
        UniqueField::Volume | UniqueField::Device => match target_key(v, true) {
            Some(t) => Some(UniqueKeyView::Target(t)),
            None => None,
        },
        UniqueField::Config | UniqueField::Secret => match target_key(v, false) {
            Some(t) => Some(UniqueKeyView::Target(t)),
            None => None,
        },
        UniqueField::Port => port_key(v),
    }
}

/// The index of the first item with key `key`, or `-1`.
pub open spec fn first_unique(vs: Seq<ValueView>, key: UniqueKeyView, field: UniqueField) -> int
    decreases vs.len(),
{
    if vs.len() == 0 {
        -1
    } else if first_unique(vs.drop_last(), key, field) != -1 {
        first_unique(vs.drop_last(), key, field)
    } else if unique_key(vs.last(), field) == Some(key) {
        vs.len() - 1
    } else {
        -1
    }
}

/// A later sequence appended to an earlier one, its items marked as added.
pub open spec fn appended(b: ValueView, i: ValueView) -> ValueView {
    match (b.kind, i.kind) {
        (KindView::Sequence(bvs), KindView::Sequence(ivs)) => ValueView {
            kind: KindView::Sequence(bvs + ivs.map_values(|x: ValueView| marked_added(x))),
            provenance: combined(b.provenance, i.provenance, MergeOperation::Appended),
        },
        _ => b,
    }
}

/// A later value `i` merged into an earlier value `b` found at key path `path`.
pub open spec fn merged(b: ValueView, i: ValueView, path: Seq<Seq<char>>) -> ValueView
    decreases height(i), 2nat, 0nat,
{
    match i.kind {
        KindView::Tagged(t, inner) => if t == "!reset"@ {
            reset(Some(b), *inner, i.provenance)
        } else if t == "!override"@ {
            overridden(Some(b), *inner, i.provenance)
        } else {
            replaced(b, i, MergeOperation::Replaced)
        },
        _ => if is_shell_command(path) {
            replaced(b, i, MergeOperation::Replaced)
        } else if is_keyed_mapping(path) && normalized(b) is Some && normalized(i) is Some {
            proof {
                lemma_normalized_height(i);
            }
            mappings_merged(normalized(b)->0, normalized(i)->0, path)
        } else if b.kind is Mapping && i.kind is Mapping {
            mappings_merged(b, i, path)
        } else if b.kind is Sequence && i.kind is Sequence && unique_field(path) is Some {
            uniques_merged(b, i, path)
        } else if b.kind is Sequence && i.kind is Sequence {
            appended(b, i)
        } else {
            replaced(b, activated(i), MergeOperation::Replaced)
        },
    }
}

/// Two mappings merged key by key.
pub open spec fn mappings_merged(b: ValueView, i: ValueView, path: Seq<Seq<char>>) -> ValueView
    decreases height(i), 1nat, 0nat,
{
    match (b.kind, i.kind) {
        (KindView::Mapping(bes), KindView::Mapping(ies)) => ValueView {
            kind: KindView::Mapping(mapping_fold(bes, ies, ies.len(), path)),
            provenance: combined(b.provenance, i.provenance, MergeOperation::Merged),
        },
        _ => b,
    }
}

/// The entries `acc` after the first `n` entries of `ies` were merged into them in order: an
/// entry whose key is present is merged into the first entry with that key, and any other
/// entry is activated, marked as added and appended.
pub open spec fn mapping_fold(acc: Seq<EntryView>, ies: Seq<EntryView>, n: nat, path: Seq<Seq<char>>) -> Seq<EntryView>
    decreases 1 + entries_height(ies, ies.len()), 0nat, n,
{
    if n == 0 || n > ies.len() {
        acc
    } else {
        let a = mapping_fold(acc, ies, (n - 1) as nat, path);
        let e = ies[n - 1];
        let k = first_key(a, e.key);
        proof {
            lemma_entries_height(ies, ies.len(), n - 1);
        }
        if k == -1 {
            a.push(
                EntryView {
                    key: e.key,
                    key_sources: e.key_sources,
                    syntax: e.syntax,
                    value: marked_added(activated(e.value)),
                },
            )
        } else {
            a.update(
                k,
                EntryView {
                    key: a[k].key,
                    key_sources: extend_sources(a[k].key_sources, e.key_sources),
                    syntax: e.syntax,
                    value: merged(a[k].value, e.value, path.push(e.key)),
                },
            )
        }
    }
}

/// Two sequences of a unique-key field merged item by item.
pub open spec fn uniques_merged(b: ValueView, i: ValueView, path: Seq<Seq<char>>) -> ValueView
    decreases height(i), 1nat, 0nat,
{
    match (b.kind, i.kind, unique_field(path)) {
        (KindView::Sequence(bvs), KindView::Sequence(ivs), Some(field)) => ValueView {
            kind: KindView::Sequence(unique_fold(bvs, ivs, ivs.len(), field, path)),
            provenance: combined(b.provenance, i.provenance, MergeOperation::Merged),
        },
        _ => appended(b, i),
    }
}

/// The items `acc` after the first `n` items of `ivs` were merged into them in order: an item
/// whose key matches an item's is merged into the first such item, and any other item is
/// activated, marked as added and appended.
pub open spec fn unique_fold(
    acc: Seq<ValueView>,
    ivs: Seq<ValueView>,
    n: nat,
    field: UniqueField,
    path: Seq<Seq<char>>,
) -> Seq<ValueView>
    decreases 1 + values_height(ivs, ivs.len()), 0nat, n,
{
    if n == 0 || n > ivs.len() {
        acc
    } else {
        let a = unique_fold(acc, ivs, (n - 1) as nat, field, path);
        let x = ivs[n - 1];
        proof {
            lemma_values_height(ivs, ivs.len(), n - 1);
        }
        match unique_key(x, field) {
            Some(key) => if first_unique(a, key, field) != -1 {
                a.update(first_unique(a, key, field), merged(a[first_unique(a, key, field)], x, path))
            } else {
                a.push(marked_added(activated(x)))
            },
            None => a.push(marked_added(activated(x))),
        }
    }
}

/// What `first_key` returns.
pub proof fn lemma_first_key(es: Seq<EntryView>, key: Seq<char>)
    ensures
        first_key(es, key) == -1 <==> forall|j: int| 0 <= j < es.len() ==> #[trigger] es[j].key != key,
        first_key(es, key) != -1 ==> 0 <= first_key(es, key) < es.len() && es[first_key(es, key)].key == key
            && forall|j: int| 0 <= j < first_key(es, key) ==> #[trigger] es[j].key != key,
    decreases es.len(),
{
    if es.len() > 0 {
        let p = es.drop_last();
        lemma_first_key(p, key);
        assert forall|j: int| 0 <= j < p.len() implies #[trigger] p[j] == es[j] by {}
        let fk = first_key(es, key);
        if first_key(p, key) != -1 {
            assert(es[fk] == p[fk]);
            assert forall|j: int| 0 <= j < fk implies #[trigger] es[j].key != key by {
                assert(p[j] == es[j]);
            }
        } else if es.last().key == key {
            assert forall|j: int| 0 <= j < fk implies #[trigger] es[j].key != key by {
                assert(p[j] == es[j]);
            }
        } else {
            assert forall|j: int| 0 <= j < es.len() implies #[trigger] es[j].key != key by {
                if j < p.len() {
                    assert(p[j] == es[j]);
                }
            }
        }
        if fk == -1 {
            assert forall|j: int| 0 <= j < es.len() implies #[trigger] es[j].key != key by {
                if j < p.len() {
                    assert(p[j] == es[j]);
                }
            }
        }
    }
}

/// What `first_unique` returns.
pub proof fn lemma_first_unique(vs: Seq<ValueView>, key: UniqueKeyView, field: UniqueField)
    ensures
        first_unique(vs, key, field) == -1 <==> forall|j: int|
            0 <= j < vs.len() ==> #[trigger] unique_key(vs[j], field) != Some(key),
        first_unique(vs, key, field) != -1 ==> 0 <= first_unique(vs, key, field) < vs.len() && unique_key(
            vs[first_unique(vs, key, field)],
            field,
        ) == Some(key) && forall|j: int|
            0 <= j < first_unique(vs, key, field) ==> #[trigger] unique_key(vs[j], field) != Some(key),
    decreases vs.len(),
{
    if vs.len() > 0 {
        let p = vs.drop_last();
        lemma_first_unique(p, key, field);
        assert forall|j: int| 0 <= j < p.len() implies #[trigger] p[j] == vs[j] by {}
        let fk = first_unique(vs, key, field);
        if first_unique(p, key, field) != -1 {
            assert(vs[fk] == p[fk]);
            assert forall|j: int| 0 <= j < fk implies #[trigger] unique_key(vs[j], field) != Some(key) by {
                assert(p[j] == vs[j]);
            }
        } else if unique_key(vs.last(), field) == Some(key) {
            assert forall|j: int| 0 <= j < fk implies #[trigger] unique_key(vs[j], field) != Some(key) by {
                assert(p[j] == vs[j]);
            }
        } else {
            assert forall|j: int| 0 <= j < vs.len() implies #[trigger] unique_key(vs[j], field) != Some(key) by {
                if j < p.len() {
                    assert(p[j] == vs[j]);
                }
            }
        }
    }
}

/// Reports whether a path is `services.<name>.command`, `.entrypoint` or `.healthcheck.test`.
fn shell_command_path(path: &Vec<String>) -> (r: bool)
    ensures
        r == is_shell_command(path_view(path@)),
{
    let n = path.len();
    proof {
        assert(path_view(path@).len() == n);
        assert forall|i: int| 0 <= i < n implies #[trigger] path_view(path@)[i] == path@[i]@ by {}
    }
    if n == 3 {
        str_eq(path[0].as_str(), "services") && (str_eq(path[2].as_str(), "command") || str_eq(path[2].as_str(), "entrypoint"))
    } else if n == 4 {
        str_eq(path[0].as_str(), "services") && str_eq(path[2].as_str(), "healthcheck") && str_eq(path[3].as_str(), "test")
    } else {
        false
    }
}

/// Reports whether a path is `services.<name>.environment` or `.labels`.
fn keyed_mapping_path(path: &Vec<String>) -> (r: bool)
    ensures
        r == is_keyed_mapping(path_view(path@)),
{
    let n = path.len();
    proof {
        assert(path_view(path@).len() == n);
        assert forall|i: int| 0 <= i < n implies #[trigger] path_view(path@)[i] == path@[i]@ by {}
    }
    n == 3 && str_eq(path[0].as_str(), "services") && (str_eq(path[2].as_str(), "environment") || str_eq(
        path[2].as_str(),
        "labels",
    ))
}

/// Returns the unique-key field of a path.
fn unique_field_of(path: &Vec<String>) -> (r: Option<UniqueField>)
    ensures
        r == unique_field(path_view(path@)),
{
    let n = path.len();
    proof {
        assert(path_view(path@).len() == n);
        assert forall|i: int| 0 <= i < n implies #[trigger] path_view(path@)[i] == path@[i]@ by {}
    }
    if n != 3 || !str_eq(path[0].as_str(), "services") {
        None
    } else if str_eq(path[2].as_str(), "volumes") {
        Some(UniqueField::Volume)
    } else if str_eq(path[2].as_str(), "devices") {
        Some(UniqueField::Device)
    } else if str_eq(path[2].as_str(), "configs") {
        Some(UniqueField::Config)
    } else if str_eq(path[2].as_str(), "secrets") {
        Some(UniqueField::Secret)
    } else if str_eq(path[2].as_str(), "ports") {
        Some(UniqueField::Port)
    } else {
        None
    }
}

/// Returns a path with one more key.
fn child_path(path: &Vec<String>, key: &str) -> (r: Vec<String>)
    ensures
        path_view(r@) == path_view(path@).push(key@),
{
    let mut r: Vec<String> = Vec::new();
    let mut i: usize = 0;
    while i < path.len()
        invariant
            0 <= i <= path@.len(),
            r@.len() == i,
            forall|j: int| 0 <= j < i ==> #[trigger] r@[j]@ == path@[j]@,
        decreases path@.len() - i,
    {
        r.push(path[i].clone());
        i += 1;
    }
    r.push(owned(key));
    assert(path_view(r@) =~= path_view(path@).push(key@));
    r
}

/// Returns the index of the first entry with a key.
fn find_entry(es: &Vec<MergedEntry>, key: &str) -> (r: Option<usize>)
    ensures
        r is None <==> first_key(entries_seq(es@), key@) == -1,
        r matches Some(i) ==> i == first_key(entries_seq(es@), key@),
{
    proof {
        lemma_entries_seq(es@);
        lemma_first_key(entries_seq(es@), key@);
    }
    let mut i: usize = 0;
    while i < es.len()
        invariant
            0 <= i <= es@.len(),
            entries_seq(es@).len() == es@.len(),
            forall|j: int| 0 <= j < es@.len() ==> #[trigger] entries_seq(es@)[j] == es@[j]@,
            forall|j: int| 0 <= j < i ==> #[trigger] entries_seq(es@)[j].key != key@,
        decreases es@.len() - i,
    {
        proof {
            lemma_entry_view(es@[i as int]);
        }
        if str_eq(es[i].key.as_str(), key) {
            proof {
                lemma_first_key(entries_seq(es@), key@);
                assert(es@[i as int]@.key == key@);
                assert(entries_seq(es@)[i as int].key == key@);
            }
            return Some(i);
        }
        i += 1;
    }
    proof {
        lemma_first_key(entries_seq(es@), key@);
    }
    None
}

/// Reports whether every list item of a keyed field stands for an entry.
fn all_normalizable(vs: &Vec<MergedValue>) -> (r: bool)
    ensures
        r == normalized_entries(values_seq(vs@), vs@.len()) is Some,
{
    proof {
        lemma_values_seq(vs@);
        lemma_normalized_entries(values_seq(vs@), vs@.len());
    }
    let mut i: usize = 0;
    while i < vs.len()
        invariant
            0 <= i <= vs@.len(),
            values_seq(vs@).len() == vs@.len(),
            forall|j: int| 0 <= j < vs@.len() ==> #[trigger] values_seq(vs@)[j] == vs@[j]@,
            forall|j: int| 0 <= j < i ==> #[trigger] normalized_entry(values_seq(vs@)[j]) is Some,
        decreases vs@.len() - i,
    {
        let item = &vs[i];
        proof {
            lemma_value_view(*item);
        }
        let ok = match &item.kind {
            MergedValueKind::Scalar(_) => item.provenance.sources.len() > 0,
            _ => false,
        };
        if !ok {
            assert(normalized_entry(values_seq(vs@)[i as int]) is None);
            proof {
                lemma_normalized_entries(values_seq(vs@), vs@.len());
            }
            return false;
        }
        i += 1;
    }
    proof {
        lemma_normalized_entries(values_seq(vs@), vs@.len());
    }
    true
}

/// Reports whether a keyed field can be read as a mapping.
fn normalizable(v: &MergedValue) -> (r: bool)
    ensures
        r == normalized(v@) is Some,
{
    proof {
        lemma_value_view(*v);
    }
    match &v.kind {
        MergedValueKind::Mapping(_) => true,
        MergedValueKind::Sequence(vs) => {
            proof {
                lemma_values_seq(vs@);
            }
            all_normalizable(vs)
        },
        _ => false,
    }
}

/// Reads a keyed field as the mapping it stands for.
fn normalize_keyed(v: MergedValue) -> (r: MergedValue)
    requires
        normalized(v@) is Some,
    ensures
        r@ == normalized(v@)->0,
{
    proof {
        lemma_value_view(v);
    }
    match v.kind {
        MergedValueKind::Sequence(vs) => {
            let ghost views = values_seq(vs@);
            proof {
                lemma_values_seq(vs@);
                lemma_normalized_entries(views, vs@.len());
            }
            let ghost target = normalized_entries(views, vs@.len())->0;
            let mut entries: Vec<MergedEntry> = Vec::new();
            let mut i: usize = 0;
            while i < vs.len()
                invariant
                    0 <= i <= vs@.len(),
                    views == values_seq(vs@),
                    views.len() == vs@.len(),
                    target.len() == vs@.len(),
                    forall|j: int| 0 <= j < vs@.len() ==> #[trigger] views[j] == vs@[j]@,
                    forall|j: int| 0 <= j < vs@.len() ==> normalized_entry(views[j]) == Some(#[trigger] target[j]),
                    entries@.len() == i,
                    forall|j: int| 0 <= j < i ==> #[trigger] entries@[j]@ == target[j],
                decreases vs@.len() - i,
            {
                let item = &vs[i];
                proof {
                    lemma_value_view(*item);
                    assert(views[i as int] == item@);
                    assert(normalized_entry(views[i as int]) == Some(target[i as int]));
                    assert(normalized_entry(item@) is Some);
                    assert(item@.kind is Scalar);
                    assert(item@.provenance.sources.len() > 0);
                }
                let n = item.provenance.sources.len();
                let span = item.provenance.sources[n - 1];
                let entry = match &item.kind {
                    MergedValueKind::Scalar(scalar) => {
                        let b = bytes(scalar.value.as_str());
                        proof {
                            lemma_find(b@, 61);
                        }
                        match split_once(scalar.value.as_str(), 61) {
                            Some((key, rest)) => {
                                let value = MergedValue {
                                    kind: MergedValueKind::Scalar(
                                        MergedScalar {
                                            raw: owned(rest),
                                            value: owned(rest),
                                            kind: MergedScalarKind::String,
                                            sensitive: scalar.sensitive,
                                        },
                                    ),
                                    provenance: item.provenance.duplicate(),
                                };
                                proof {
                                    lemma_value_view(value);
                                }
                                let mut key_sources: Vec<SourceSpan> = Vec::new();
                                key_sources.push(span);
                                MergedEntry { key: owned(key), key_sources, syntax: EntrySyntax::ListKeyValue, value }
                            },
                            None => {
                                let value = MergedValue {
                                    kind: MergedValueKind::Null(NullStyle::Empty),
                                    provenance: item.provenance.duplicate(),
                                };
                                proof {
                                    lemma_value_view(value);
                                }
                                let mut key_sources: Vec<SourceSpan> = Vec::new();
                                key_sources.push(span);
                                MergedEntry {
                                    key: scalar.value.clone(),
                                    key_sources,
                                    syntax: EntrySyntax::ListKeyOnly,
                                    value,
                                }
                            },
                        }
                    },
                    _ => {
                        proof {
                            assert(false);
                        }
                        placeholder_entry()
                    },
                };
                proof {
                    lemma_entry_view(entry);
                    assert(entry@.key_sources =~= seq![span]);
                }
                entries.push(entry);
                i += 1;
            }
            let r = MergedValue { kind: MergedValueKind::Mapping(entries), provenance: v.provenance };
            proof {
                lemma_value_view(r);
                lemma_entries_seq(entries@);
                assert(entries_seq(entries@) =~= target);
            }
            r
        },
        kind => MergedValue { kind, provenance: v.provenance },
    }
}

/// The key by which an item of a unique-key field is matched.
enum UniqueKey {
    Target(String),
    Port { ip: String, target: String, published: String, protocol: String },
}

impl View for UniqueKey {
    type V = UniqueKeyView;

    closed spec fn view(&self) -> UniqueKeyView {
        match self {
            UniqueKey::Target(t) => UniqueKeyView::Target(t@),
            UniqueKey::Port { ip, target, published, protocol } => UniqueKeyView::Port(
                ip@,
                target@,
                published@,
                protocol@,
            ),
        }
    }
}

/// Reports whether two keys are equal.
fn same_key(a: &UniqueKey, b: &UniqueKey) -> (r: bool)
    ensures
        r == (a@ == b@),
{
    match (a, b) {
        (UniqueKey::Target(x), UniqueKey::Target(y)) => str_eq(x.as_str(), y.as_str()),
        (
            UniqueKey::Port { ip: a1, target: a2, published: a3, protocol: a4 },
            UniqueKey::Port { ip: b1, target: b2, published: b3, protocol: b4 },
        ) => str_eq(a1.as_str(), b1.as_str()) && str_eq(a2.as_str(), b2.as_str()) && str_eq(a3.as_str(), b3.as_str())
            && str_eq(a4.as_str(), b4.as_str()),
        _ => false,
    }
}

/// Returns the scalar value under a key of a mapping.
fn mapping_scalar_of<'a>(v: &'a MergedValue, key: &str) -> (r: Option<&'a str>)
    ensures
        r is None <==> mapping_scalar(v@, key@) is None,
        r matches Some(x) ==> mapping_scalar(v@, key@) == Some(x@),
{
    proof {
        lemma_value_view(*v);
    }
    match &v.kind {
        MergedValueKind::Mapping(es) => match find_entry(es, key) {
            Some(k) => {
                proof {
                    lemma_entries_seq(es@);
                    lemma_first_key(entries_seq(es@), key@);
                    lemma_entry_view(es@[k as int]);
                    lemma_value_view(es@[k as int].value);
                }
                match &es[k].value.kind {
                    MergedValueKind::Scalar(scalar) => Some(scalar.value.as_str()),
                    _ => None,
                }
            },
            None => None,
        },
        _ => None,
    }
}

/// Returns the target of a short mount.
fn mount_target_of(value: &str) -> (r: Option<String>)
    ensures
        r is None <==> mount_target(value@) is None,
        r matches Some(t) ==> mount_target(value@) == Some(t@),
{
    let fields = crate::text::split_all_from(value, 58, 0);
    if fields.len() >= 2 {
        assert(crate::text::strs_bytes(fields@)[1] == sb(fields@[1]@));
        assert(decode_utf8(sb(fields@[1]@)) == fields@[1]@);
        Some(owned(fields[1]))
    } else if !crate::text::is_empty(value) {
        Some(owned(value))
    } else {
        None
    }
}

/// Returns the target by which a volume, device, config or secret item is matched.
fn target_key_of(v: &MergedValue, colon_syntax: bool) -> (r: Option<String>)
    ensures
        r is None <==> target_key(v@, colon_syntax) is None,
        r matches Some(t) ==> target_key(v@, colon_syntax) == Some(t@),
{
    proof {
        lemma_value_view(*v);
    }
    match &v.kind {
        MergedValueKind::Scalar(scalar) => {
            if colon_syntax {
                if v.provenance.sources.len() == 0 {
                    None
                } else {
                    mount_target_of(scalar.value.as_str())
                }
            } else {
                Some(scalar.value.clone())
            }
        },
        _ => match mapping_scalar_of(v, "target") {
            Some(t) => Some(owned(t)),
            None => if !colon_syntax {
                match mapping_scalar_of(v, "source") {
                    Some(x) => Some(owned(x)),
                    None => None,
                }
            } else {
                None
            },
        },
    }
}

/// Returns a text, or an empty text.
fn text_or_empty(x: Option<&str>) -> (r: String)
    ensures
        x matches Some(t) ==> r@ == t@,
        x is None ==> r@ == Seq::<char>::empty(),
{
    match x {
        Some(t) => owned(t),
        None => String::new(),
    }
}

/// Returns the key by which a port item is matched.
fn port_key_of(v: &MergedValue) -> (r: Option<UniqueKey>)
    ensures
        r is None <==> port_key(v@) is None,
        r matches Some(k) ==> port_key(v@) == Some(k@),
{
    proof {
        lemma_value_view(*v);
    }
    match &v.kind {
        MergedValueKind::Scalar(scalar) => {
            let n = v.provenance.sources.len();
            if n == 0 {
                return None;
            }
            let span = v.provenance.sources[n - 1];
            let port = ShortPort::parse(Located::new(scalar.value.clone(), span));
            let ip = text_or_empty(port.host_ip());
            let target = owned(port.target());
            let published = text_or_empty(port.published());
            let protocol = match port.protocol() {
                Some(p) => owned(p),
                None => owned("tcp"),
            };
            proof {
                assert(decode_utf8(sb(ip@)) == ip@);
                assert(decode_utf8(sb(target@)) == target@);
                assert(decode_utf8(sb(published@)) == published@);
                assert(decode_utf8(sb(protocol@)) == protocol@);
            }
            Some(UniqueKey::Port { ip, target, published, protocol })
        },
        _ => {
            let target = match mapping_scalar_of(v, "target") {
                Some(t) => owned(t),
                None => {
                    return None;
                },
            };
            let ip = text_or_empty(mapping_scalar_of(v, "host_ip"));
            let published = text_or_empty(mapping_scalar_of(v, "published"));
            let protocol = match mapping_scalar_of(v, "protocol") {
                Some(p) => owned(p),
                None => owned("tcp"),
            };
            Some(UniqueKey::Port { ip, target, published, protocol })
        },
    }
}

/// Returns the key by which an item of a unique-key field is matched.
fn unique_key_of(v: &MergedValue, field: UniqueField) -> (r: Option<UniqueKey>)
    ensures
        r is None <==> unique_key(v@, field) is None,
        r matches Some(k) ==> unique_key(v@, field) == Some(k@),
{
    match field {
        UniqueField::Volume | UniqueField::Device => match target_key_of(v, true) {
            Some(t) => Some(UniqueKey::Target(t)),
            None => None,
        },
        UniqueField::Config | UniqueField::Secret => match target_key_of(v, false) {
            Some(t) => Some(UniqueKey::Target(t)),
            None => None,
        },
        UniqueField::Port => port_key_of(v),
    }
}

/// Returns the index of the first item with a key.
fn find_unique(vs: &Vec<MergedValue>, key: &UniqueKey, field: UniqueField) -> (r: Option<usize>)
    ensures
        r is None <==> first_unique(values_seq(vs@), key@, field) == -1,
        r matches Some(i) ==> i == first_unique(values_seq(vs@), key@, field),
{
    proof {
        lemma_values_seq(vs@);
    }
    let mut i: usize = 0;
    while i < vs.len()
        invariant
            0 <= i <= vs@.len(),
            values_seq(vs@).len() == vs@.len(),
            forall|j: int| 0 <= j < vs@.len() ==> #[trigger] values_seq(vs@)[j] == vs@[j]@,
            forall|j: int| 0 <= j < i ==> #[trigger] unique_key(values_seq(vs@)[j], field) != Some(key@),
        decreases vs@.len() - i,
    {
        let found = match unique_key_of(&vs[i], field) {
            Some(k) => same_key(&k, key),
            None => false,
        };
        if found {
            proof {
                lemma_first_unique(values_seq(vs@), key@, field);
                assert(unique_key(values_seq(vs@)[i as int], field) == Some(key@));
            }
            return Some(i);
        }
        i += 1;
    }
    proof {
        lemma_first_unique(values_seq(vs@), key@, field);
    }
    None
}

/// Appends a later sequence to an earlier one, marking the appended items as added.
fn append_sequences(base: MergedValue, incoming: MergedValue) -> (r: MergedValue)
    ensures
        r@ == appended(base@, incoming@),
{
    proof {
        lemma_value_view(base);
        lemma_value_view(incoming);
    }
    let ghost bv = base@;
    let ghost iv = incoming@;
    let MergedValue { kind: bkind, provenance: bprov } = base;
    match bkind {
        MergedValueKind::Sequence(bvs) => {
            let MergedValue { kind: ikind, provenance: iprov } = incoming;
            match ikind {
                MergedValueKind::Sequence(ivs) => {
                    let mut bvs = bvs;
                    let mut ivs = ivs;
                    let ghost original = ivs@;
                    let ghost views = values_seq(original);
                    let ghost bviews = values_seq(bvs@);
                    let ghost bseq = bvs@;
                    proof {
                        lemma_values_seq(original);
                        lemma_values_seq(bvs@);
                    }
                    let mut i: usize = 0;
                    while i < ivs.len()
                        invariant
                            0 <= i <= ivs@.len(),
                            ivs@.len() == original.len(),
                            views.len() == original.len(),
                            forall|j: int| 0 <= j < original.len() ==> #[trigger] views[j] == original[j]@,
                            forall|j: int| i <= j < ivs@.len() ==> #[trigger] ivs@[j] == original[j],
                            forall|j: int| 0 <= j < i ==> #[trigger] ivs@[j]@ == marked_added(views[j]),
                        decreases ivs@.len() - i,
                    {
                        let mut item = placeholder();
                        ivs.set_and_swap(i, &mut item);
                        mark_added(&mut item);
                        ivs.set_and_swap(i, &mut item);
                        i += 1;
                    }
                    let ghost marked = ivs@;
                    bvs.append(&mut ivs);
                    let provenance = combined_provenance(bprov, &iprov, MergeOperation::Appended);
                    let r = MergedValue { kind: MergedValueKind::Sequence(bvs), provenance };
                    proof {
                        lemma_value_view(r);
                        lemma_values_seq(bvs@);
                        lemma_values_seq(marked);
                        assert(bvs@ =~= bseq + marked);
                        assert(values_seq(bvs@) =~= bviews + views.map_values(|x: ValueView| marked_added(x)));
                    }
                    r
                },
                ikind => {
                    let r = MergedValue { kind: MergedValueKind::Sequence(bvs), provenance: bprov };
                    proof {
                        lemma_value_view(r);
                    }
                    r
                },
            }
        },
        bkind => {
            let r = MergedValue { kind: bkind, provenance: bprov };
            proof {
                lemma_value_view(r);
            }
            r
        },
    }
}

/// Merges a later value into an earlier value found at a key path.
fn merge_value(base: MergedValue, incoming: MergedValue, path: &Vec<String>) -> (r: MergedValue)
    ensures
        r@ == merged(base@, incoming@, path_view(path@)),
    decreases height(incoming@), 2nat, 0nat,
{
    proof {
        lemma_value_view(base);
        lemma_value_view(incoming);
    }
    let ghost iv = incoming@;
    let MergedValue { kind, provenance } = incoming;
    match kind {
        MergedValueKind::Tagged { tag, value } => {
            proof {
                lemma_value_view(*value);
            }
            if str_eq(tag.as_str(), "!reset") {
                reset_value(Some(&base), &*value, provenance)
            } else if str_eq(tag.as_str(), "!override") {
                override_value(Some(&base), *value, provenance)
            } else {
                let same = MergedValue { kind: MergedValueKind::Tagged { tag, value }, provenance };
                proof {
                    lemma_value_view(same);
                }
                replace_value(base, same, MergeOperation::Replaced)
            }
        },
        kind => {
            let incoming = MergedValue { kind, provenance };
            proof {
                lemma_value_view(incoming);
                assert(incoming@ == iv);
            }
            if shell_command_path(path) {
                return replace_value(base, incoming, MergeOperation::Replaced);
            }
            if keyed_mapping_path(path) && normalizable(&base) && normalizable(&incoming) {
                proof {
                    lemma_normalized_height(incoming@);
                }
                let normalized_base = normalize_keyed(base);
                let normalized_incoming = normalize_keyed(incoming);
                return merge_mappings(normalized_base, normalized_incoming, path);
            }
            let base_mapping = match &base.kind {
                MergedValueKind::Mapping(_) => true,
                _ => false,
            };
            let base_sequence = match &base.kind {
                MergedValueKind::Sequence(_) => true,
                _ => false,
            };
            let incoming_mapping = match &incoming.kind {
                MergedValueKind::Mapping(_) => true,
                _ => false,
            };
            let incoming_sequence = match &incoming.kind {
                MergedValueKind::Sequence(_) => true,
                _ => false,
            };
            if base_mapping && incoming_mapping {
                merge_mappings(base, incoming, path)
            } else if base_sequence && incoming_sequence && unique_field_of(path).is_some() {
                merge_unique_sequences(base, incoming, path)
            } else if base_sequence && incoming_sequence {
                append_sequences(base, incoming)
            } else {
                let activated_incoming = activate_tags(incoming);
                replace_value(base, activated_incoming, MergeOperation::Replaced)
            }
        },
    }
}

/// Merges two mappings key by key.
#[verifier::loop_isolation(false)]
fn merge_mappings(base: MergedValue, incoming: MergedValue, path: &Vec<String>) -> (r: MergedValue)
    ensures
        r@ == mappings_merged(base@, incoming@, path_view(path@)),
    decreases height(incoming@), 1nat, 0nat,
{
    proof {
        lemma_value_view(base);
        lemma_value_view(incoming);
    }
    let ghost bv = base@;
    let ghost iv = incoming@;
    let ghost pv = path_view(path@);
    let MergedValue { kind: bkind, provenance: bprov } = base;
    match bkind {
        MergedValueKind::Mapping(bes) => {
            let MergedValue { kind: ikind, provenance: iprov } = incoming;
            match ikind {
                MergedValueKind::Mapping(ies) => {
                    let mut bes = bes;
                    let mut ies = ies;
                    let ghost original = ies@;
                    let ghost views = entries_seq(original);
                    let ghost start = entries_seq(bes@);
                    proof {
                        lemma_entries_seq(original);
                        lemma_entries_seq(bes@);
                    }
                    let mut i: usize = 0;
                    while i < ies.len()
                        invariant
                            0 <= i <= ies@.len(),
                            ies@.len() == original.len(),
                            views == entries_seq(original),
                            views.len() == original.len(),
                            pv == path_view(path@),
                            height(iv) == 1 + entries_height(views, views.len()),
                            forall|j: int| 0 <= j < original.len() ==> #[trigger] views[j] == original[j]@,
                            forall|j: int| i <= j < ies@.len() ==> #[trigger] ies@[j] == original[j],
                            entries_seq(bes@) == mapping_fold(start, views, i as nat, pv),
                        decreases ies@.len() - i,
                    {
                        let mut entry = placeholder_entry();
                        ies.set_and_swap(i, &mut entry);
                        proof {
                            lemma_entry_view(entry);
                            lemma_entries_height(views, views.len(), i as int);
                            lemma_entries_seq(bes@);
                        }
                        let ghost acc = entries_seq(bes@);
                        let MergedEntry { key, key_sources, syntax, value } = entry;
                        match find_entry(&bes, key.as_str()) {
                            Some(k) => {
                                proof {
                                    lemma_first_key(acc, key@);
                                }
                                let cp = child_path(path, key.as_str());
                                let mut existing = placeholder_entry();
                                bes.set_and_swap(k, &mut existing);
                                proof {
                                    lemma_entry_view(existing);
                                }
                                let MergedEntry { key: existing_key, key_sources: existing_sources, syntax: _, value: existing_value } =
                                    existing;
                                assert(entry@.value == value@);
                                assert(views[i as int] == entry@);
                                assert(height(value@) < height(iv));
                                let merged = merge_value(existing_value, value, &cp);
                                let mut sources = existing_sources;
                                extend_spans(&mut sources, key_sources.as_slice());
                                let mut updated = MergedEntry { key: existing_key, key_sources: sources, syntax, value: merged };
                                proof {
                                    lemma_entry_view(updated);
                                }
                                let ghost before = bes@;
                                bes.set_and_swap(k, &mut updated);
                                proof {
                                    lemma_entries_seq(bes@);
                                    lemma_entries_seq(before);
                                    assert(entries_seq(bes@) =~= acc.update(k as int, bes@[k as int]@));
                                }
                            },
                            None => {
                                let mut added = activate_tags(value);
                                mark_added(&mut added);
                                let new_entry = MergedEntry { key, key_sources, syntax, value: added };
                                proof {
                                    lemma_entry_view(new_entry);
                                }
                                let ghost before = bes@;
                                bes.push(new_entry);
                                proof {
                                    lemma_entries_seq(bes@);
                                    lemma_entries_seq(before);
                                    assert(entries_seq(bes@) =~= acc.push(new_entry@));
                                }
                            },
                        }
                        i += 1;
                    }
                    let provenance = combined_provenance(bprov, &iprov, MergeOperation::Merged);
                    let r = MergedValue { kind: MergedValueKind::Mapping(bes), provenance };
                    proof {
                        lemma_value_view(r);
                    }
                    r
                },
                ikind => {
                    let r = MergedValue { kind: MergedValueKind::Mapping(bes), provenance: bprov };
                    proof {
                        lemma_value_view(r);
                    }
                    r
                },
            }
        },
        bkind => {
            let r = MergedValue { kind: bkind, provenance: bprov };
            proof {
                lemma_value_view(r);
            }
            r
        },
    }
}

/// Merges two sequences of a unique-key field item by item.
#[verifier::loop_isolation(false)]
fn merge_unique_sequences(base: MergedValue, incoming: MergedValue, path: &Vec<String>) -> (r: MergedValue)
    ensures
        r@ == uniques_merged(base@, incoming@, path_view(path@)),
    decreases height(incoming@), 1nat, 0nat,
{
    proof {
        lemma_value_view(base);
        lemma_value_view(incoming);
    }
    let field = match unique_field_of(path) {
        Some(field) => field,
        None => {
            return append_sequences(base, incoming);
        },
    };
    let ghost bv = base@;
    let ghost iv = incoming@;
    let ghost pv = path_view(path@);
    let MergedValue { kind: bkind, provenance: bprov } = base;
    match bkind {
        MergedValueKind::Sequence(bvs) => {
            let MergedValue { kind: ikind, provenance: iprov } = incoming;
            match ikind {
                MergedValueKind::Sequence(ivs) => {
                    let mut bvs = bvs;
                    let mut ivs = ivs;
                    let ghost original = ivs@;
                    let ghost views = values_seq(original);
                    let ghost start = values_seq(bvs@);
                    proof {
                        lemma_values_seq(original);
                        lemma_values_seq(bvs@);
                    }
                    let mut i: usize = 0;
                    while i < ivs.len()
                        invariant
                            0 <= i <= ivs@.len(),
                            ivs@.len() == original.len(),
                            views == values_seq(original),
                            views.len() == original.len(),
                            pv == path_view(path@),
                            unique_field(pv) == Some(field),
                            height(iv) == 1 + values_height(views, views.len()),
                            forall|j: int| 0 <= j < original.len() ==> #[trigger] views[j] == original[j]@,
                            forall|j: int| i <= j < ivs@.len() ==> #[trigger] ivs@[j] == original[j],
                            values_seq(bvs@) == unique_fold(start, views, i as nat, field, pv),
                        decreases ivs@.len() - i,
                    {
                        let mut item = placeholder();
                        ivs.set_and_swap(i, &mut item);
                        proof {
                            lemma_values_height(views, views.len(), i as int);
                            lemma_values_seq(bvs@);
                        }
                        let ghost acc = values_seq(bvs@);
                        let existing = match unique_key_of(&item, field) {
                            Some(key) => find_unique(&bvs, &key, field),
                            None => None,
                        };
                        match existing {
                            Some(k) => {
                                proof {
                                    let key = unique_key(item@, field)->0;
                                    lemma_first_unique(acc, key, field);
                                }
                                let mut current = placeholder();
                                bvs.set_and_swap(k, &mut current);
                                assert(views[i as int] == item@);
                                assert(height(item@) < height(iv));
                                let mut merged = merge_value(current, item, path);
                                let ghost before = bvs@;
                                bvs.set_and_swap(k, &mut merged);
                                proof {
                                    lemma_values_seq(bvs@);
                                    lemma_values_seq(before);
                                    assert(values_seq(bvs@) =~= acc.update(k as int, bvs@[k as int]@));
                                }
                            },
                            None => {
                                let mut added = activate_tags(item);
                                mark_added(&mut added);
                                let ghost before = bvs@;
                                let ghost added_view = added@;
                                bvs.push(added);
                                proof {
                                    lemma_values_seq(bvs@);
                                    lemma_values_seq(before);
                                    assert(values_seq(bvs@) =~= acc.push(added_view));
                                }
                            },
                        }
                        i += 1;
                    }
                    let provenance = combined_provenance(bprov, &iprov, MergeOperation::Merged);
                    let r = MergedValue { kind: MergedValueKind::Sequence(bvs), provenance };
                    proof {
                        lemma_value_view(r);
                    }
                    r
                },
                ikind => {
                    let r = MergedValue { kind: MergedValueKind::Sequence(bvs), provenance: bprov };
                    proof {
                        lemma_value_view(r);
                    }
                    r
                },
            }
        },
        bkind => {
            let r = MergedValue { kind: bkind, provenance: bprov };
            proof {
                lemma_value_view(r);
            }
            r
        },
    }
}

/// Whether a value or one of its descendants holds interpolated sensitive data.
pub open spec fn value_sensitive(v: ValueView) -> bool
    decreases v, 1nat,
{
    match v.kind {
        KindView::Scalar(s) => s.sensitive,
        KindView::Mapping(es) => entries_sensitive(es, es.len()),
        KindView::Sequence(vs) => values_sensitive(vs, vs.len()),
        KindView::Tagged(_, inner) => value_sensitive(*inner),
        _ => false,
    }
}

/// Whether the value of one of the first `n` entries is sensitive.
pub open spec fn entries_sensitive(es: Seq<EntryView>, n: nat) -> bool
    decreases es, n,
{
    if n == 0 || n > es.len() {
        false
    } else {
        entries_sensitive(es, (n - 1) as nat) || value_sensitive(es[n - 1].value)
    }
}

/// Whether one of the first `n` values is sensitive.
pub open spec fn values_sensitive(vs: Seq<ValueView>, n: nat) -> bool
    decreases vs, n,
{
    if n == 0 || n > vs.len() {
        false
    } else {
        values_sensitive(vs, (n - 1) as nat) || value_sensitive(vs[n - 1])
    }
}

/// The value found by following mapping keys from `v`.
pub open spec fn lookup_path(v: ValueView, path: Seq<Seq<char>>) -> Option<ValueView>
    decreases path.len(),
{
    if path.len() == 0 {
        Some(v)
    } else {
        match lookup_path(v, path.drop_last()) {
            Some(x) => lookup(x, path.last()),
            None => None,
        }
    }
}

/// A value read from one document, with one source span as its provenance.
pub fn authored(kind: MergedValueKind, span: SourceSpan) -> (r: MergedValue)
    ensures
        r@ == (ValueView { kind: kind@, provenance: ProvenanceView { operation: MergeOperation::Authored, sources: seq![span] } }),
{
    let mut sources: Vec<SourceSpan> = Vec::new();
    sources.push(span);
    let r = MergedValue { kind, provenance: MergeProvenance { operation: MergeOperation::Authored, sources } };
    proof {
        lemma_value_view(r);
        assert(r.provenance@.sources =~= seq![span]);
    }
    r
}

impl MergedValue {
    /// Creates a value from its kind and its provenance.
    pub fn new(kind: MergedValueKind, provenance: MergeProvenance) -> (r: Self)
        ensures
            r@ == (ValueView { kind: kind@, provenance: provenance@ }),
    {
        let r = Self { kind, provenance };
        proof {
            lemma_value_view(r);
        }
        r
    }

    /// Returns the semantic value kind.
    pub fn kind(&self) -> (r: &MergedValueKind)
        ensures
            r@ == self@.kind,
    {
        proof {
            lemma_value_view(*self);
        }
        &self.kind
    }

    /// Returns merge provenance.
    pub fn provenance(&self) -> (r: &MergeProvenance)
        ensures
            r@ == self@.provenance,
    {
        proof {
            lemma_value_view(*self);
        }
        &self.provenance
    }

    /// Returns a scalar value when this node is a scalar.
    pub fn as_scalar(&self) -> (r: Option<&MergedScalar>)
        ensures
            r is Some <==> self@.kind is Scalar,
            r matches Some(s) ==> self@.kind == KindView::Scalar(s@),
    {
        proof {
            lemma_value_view(*self);
        }
        match &self.kind {
            MergedValueKind::Scalar(value) => Some(value),
            _ => None,
        }
    }

    /// Returns mapping entries when this node is a mapping.
    pub fn as_mapping(&self) -> (r: Option<&[MergedEntry]>)
        ensures
            r is Some <==> self@.kind is Mapping,
            r matches Some(es) ==> self@.kind == KindView::Mapping(entries_seq(es@)),
    {
        proof {
            lemma_value_view(*self);
        }
        match &self.kind {
            MergedValueKind::Mapping(entries) => Some(entries.as_slice()),
            _ => None,
        }
    }

    /// Returns sequence items when this node is a sequence.
    pub fn as_sequence(&self) -> (r: Option<&[MergedValue]>)
        ensures
            r is Some <==> self@.kind is Sequence,
            r matches Some(vs) ==> self@.kind == KindView::Sequence(values_seq(vs@)),
    {
        proof {
            lemma_value_view(*self);
        }
        match &self.kind {
            MergedValueKind::Sequence(values) => Some(values.as_slice()),
            _ => None,
        }
    }

    /// Finds a semantic mapping value by key.
    pub fn get(&self, key: &str) -> (r: Option<&MergedValue>)
        ensures
            r is None <==> lookup(self@, key@) is None,
            r matches Some(v) ==> lookup(self@, key@) == Some(v@),
    {
        proof {
            lemma_value_view(*self);
        }
        match &self.kind {
            MergedValueKind::Mapping(entries) => match find_entry(entries, key) {
                Some(k) => {
                    proof {
                        lemma_entries_seq(entries@);
                        lemma_first_key(entries_seq(entries@), key@);
                        lemma_entry_view(entries@[k as int]);
                    }
                    Some(&entries[k].value)
                },
                None => None,
            },
            _ => None,
        }
    }

    /// Reports whether this node or one of its descendants contains interpolated sensitive data.
    pub fn is_sensitive(&self) -> (r: bool)
        ensures
            r == value_sensitive(self@),
        decreases height(self@),
    {
        proof {
            lemma_value_view(*self);
        }
        match &self.kind {
            MergedValueKind::Scalar(value) => value.sensitive,
            MergedValueKind::Mapping(entries) => {
                let ghost views = entries_seq(entries@);
                proof {
                    lemma_entries_seq(entries@);
                }
                let mut i: usize = 0;
                while i < entries.len()
                    invariant
                        0 <= i <= entries@.len(),
                        views == entries_seq(entries@),
                        views.len() == entries@.len(),
                        self@.kind == KindView::Mapping(views),
                        forall|j: int| 0 <= j < entries@.len() ==> #[trigger] views[j] == entries@[j]@,
                        entries_sensitive(views, i as nat) == false,
                    decreases entries@.len() - i,
                {
                    proof {
                        lemma_entry_view(entries@[i as int]);
                        lemma_entries_height(views, views.len(), i as int);
                    }
                    if entries[i].value.is_sensitive() {
                        proof {
                            lemma_entries_sensitive_mono(views, (i + 1) as nat, views.len());
                        }
                        return true;
                    }
                    i += 1;
                }
                false
            },
            MergedValueKind::Sequence(values) => {
                let ghost views = values_seq(values@);
                proof {
                    lemma_values_seq(values@);
                }
                let mut i: usize = 0;
                while i < values.len()
                    invariant
                        0 <= i <= values@.len(),
                        views == values_seq(values@),
                        views.len() == values@.len(),
                        self@.kind == KindView::Sequence(views),
                        forall|j: int| 0 <= j < values@.len() ==> #[trigger] views[j] == values@[j]@,
                        values_sensitive(views, i as nat) == false,
                    decreases values@.len() - i,
                {
                    proof {
                        lemma_values_height(views, views.len(), i as int);
                    }
                    if values[i].is_sensitive() {
                        proof {
                            lemma_values_sensitive_mono(views, (i + 1) as nat, views.len());
                        }
                        return true;
                    }
                    i += 1;
                }
                false
            },
            MergedValueKind::Tagged { value, .. } => value.is_sensitive(),
            _ => false,
        }
    }
}

/// A sensitive entry among the first `n` stays among the first `m >= n`.
proof fn lemma_entries_sensitive_mono(es: Seq<EntryView>, n: nat, m: nat)
    requires
        n <= m <= es.len(),
        entries_sensitive(es, n),
    ensures
        entries_sensitive(es, m),
    decreases m,
{
    if m > n {
        lemma_entries_sensitive_mono(es, n, (m - 1) as nat);
    }
}

/// A sensitive value among the first `n` stays among the first `m >= n`.
proof fn lemma_values_sensitive_mono(vs: Seq<ValueView>, n: nat, m: nat)
    requires
        n <= m <= vs.len(),
        values_sensitive(vs, n),
    ensures
        values_sensitive(vs, m),
    decreases m,
{
    if m > n {
        lemma_values_sensitive_mono(vs, n, (m - 1) as nat);
    }
}

/// A merged Compose project and its retained project origin.
#[derive(PartialEq, Eq)]
pub struct MergedProject {
    root: MergedValue,
    base_directory: String,
    source_ids: Vec<SourceId>,
}

impl MergedProject {
    /// The merged root.
    pub closed spec fn spec_root(&self) -> ValueView {
        self.root@
    }

    /// The project directory inherited from the first loaded document.
    pub closed spec fn spec_base_directory(&self) -> Seq<char> {
        self.base_directory@
    }

    /// The source documents in merge order.
    pub closed spec fn spec_source_ids(&self) -> Seq<SourceId> {
        self.source_ids@
    }

    /// Returns the merged root mapping.
    pub fn root(&self) -> (r: &MergedValue)
        ensures
            r@ == self.spec_root(),
    {
        &self.root
    }

    /// Returns the project directory inherited from the first loaded document.
    pub fn base_directory(&self) -> (r: &str)
        ensures
            r@ == self.spec_base_directory(),
    {
        self.base_directory.as_str()
    }

    /// Returns source documents in merge order.
    pub fn source_ids(&self) -> (r: &[SourceId])
        ensures
            r@ == self.spec_source_ids(),
    {
        self.source_ids.as_slice()
    }

    /// Traverses mapping keys from the root.
    pub fn value(&self, path: &[&str]) -> (r: Option<&MergedValue>)
        ensures
            r is None <==> lookup_path(self.spec_root(), path@.map_values(|k: &str| k@)) is None,
            r matches Some(v) ==> lookup_path(self.spec_root(), path@.map_values(|k: &str| k@)) == Some(v@),
    {
        let ghost keys = path@.map_values(|k: &str| k@);
        let mut current: &MergedValue = &self.root;
        let mut i: usize = 0;
        while i < path.len()
            invariant
                0 <= i <= path@.len(),
                keys == path@.map_values(|k: &str| k@),
                lookup_path(self.root@, keys.subrange(0, i as int)) == Some(current@),
            decreases path@.len() - i,
        {
            let ghost prefix = keys.subrange(0, i + 1);
            proof {
                assert(prefix.drop_last() =~= keys.subrange(0, i as int));
                assert(prefix.last() == path@[i as int]@);
            }
            match current.get(path[i]) {
                Some(next) => {
                    current = next;
                },
                None => {
                    proof {
                        lemma_lookup_path_none(self.root@, keys, (i + 1) as nat);
                    }
                    return None;
                },
            }
            i += 1;
        }
        assert(keys.subrange(0, path@.len() as int) =~= keys);
        Some(current)
    }
}

/// A path that leads nowhere leads nowhere when extended.
proof fn lemma_lookup_path_none(v: ValueView, keys: Seq<Seq<char>>, n: nat)
    requires
        n <= keys.len(),
        lookup_path(v, keys.subrange(0, n as int)) is None,
    ensures
        lookup_path(v, keys) is None,
    decreases keys.len() - n,
{
    if n < keys.len() {
        let next = keys.subrange(0, (n + 1) as int);
        assert(next.drop_last() =~= keys.subrange(0, n as int));
        lemma_lookup_path_none(v, keys, n + 1);
    } else {
        assert(keys.subrange(0, n as int) =~= keys);
    }
}

/// A recoverable multi-file merge result.
#[derive(PartialEq, Eq)]
pub struct MergeResult {
    project: Option<MergedProject>,
    diagnostics: Vec<Diagnostic>,
}

impl MergeResult {
    /// The merged project, when at least one document has a mapping root.
    pub closed spec fn spec_project(&self) -> Option<MergedProject> {
        self.project
    }

    /// The upstream and merge diagnostics in processing order.
    pub closed spec fn spec_diagnostics(&self) -> Seq<Diagnostic> {
        self.diagnostics@
    }

    /// Returns the merged project when at least one document has a mapping root.
    pub fn project(&self) -> (r: Option<&MergedProject>)
        ensures
            r is Some <==> self.spec_project() is Some,
            r matches Some(p) ==> *p == self.spec_project()->0,
    {
        self.project.as_ref()
    }

    /// Returns upstream and merge diagnostics in processing order.
    pub fn diagnostics(&self) -> (r: &[Diagnostic])
        ensures
            r@ == self.spec_diagnostics(),
    {
        self.diagnostics.as_slice()
    }

    /// Reports whether processing produced a project and no error diagnostics.
    pub fn is_valid(&self) -> (r: bool)
        ensures
            r == (self.spec_project() is Some && !has_error(self.spec_diagnostics())),
    {
        self.project.is_some() && !any_error(self.diagnostics.as_slice())
    }
}

/// What merging reads of one loaded document: its identity, its span and its root value
/// (after optional interpolation), if it has one.
pub struct MergeDocument {
    source_id: SourceId,
    source_span: SourceSpan,
    root: Option<MergedValue>,
}

impl MergeDocument {
    /// The document identity.
    pub closed spec fn spec_source_id(&self) -> SourceId {
        self.source_id
    }

    /// The span of the whole document.
    pub closed spec fn spec_source_span(&self) -> SourceSpan {
        self.source_span
    }

    /// The document's root value.
    pub closed spec fn spec_root(&self) -> Option<ValueView> {
        match self.root {
            Some(v) => Some(v@),
            None => None,
        }
    }

    /// Creates the merge input of one document.
    pub fn new(source_id: SourceId, source_span: SourceSpan, root: Option<MergedValue>) -> (r: Self)
        ensures
            r.spec_source_id() == source_id,
            r.spec_source_span() == source_span,
            r.spec_root() == match root {
                Some(v) => Some(v@),
                None => None,
            },
    {
        Self { source_id, source_span, root }
    }
}

/// A document root that takes part in a merge: a mapping.
pub open spec fn mergeable_root(d: MergeDocument) -> bool {
    d.spec_root() matches Some(v) && v.kind is Mapping
}

/// A document whose root is not a mapping.
pub open spec fn invalid_root(d: MergeDocument) -> bool {
    d.spec_root() matches Some(v) && !(v.kind is Mapping)
}

/// The root after the first `n` documents were merged in order: the first mapping root,
/// activated, and every later mapping root merged into it.
pub open spec fn merged_root(docs: Seq<MergeDocument>, n: nat) -> Option<ValueView>
    decreases n,
{
    if n == 0 || n > docs.len() {
        None
    } else {
        let acc = merged_root(docs, (n - 1) as nat);
        let d = docs[n - 1];
        if mergeable_root(d) {
            match acc {
                Some(current) => Some(merged(current, d.spec_root()->0, seq![])),
                None => Some(activated(d.spec_root()->0)),
            }
        } else {
            acc
        }
    }
}

/// The documents among the first `n` whose roots took part in the merge, in order.
pub open spec fn merged_ids(docs: Seq<MergeDocument>, n: nat) -> Seq<SourceId>
    decreases n,
{
    if n == 0 || n > docs.len() {
        seq![]
    } else if mergeable_root(docs[n - 1]) {
        merged_ids(docs, (n - 1) as nat).push(docs[n - 1].spec_source_id())
    } else {
        merged_ids(docs, (n - 1) as nat)
    }
}

/// The spans of the documents among the first `n` whose roots are not mappings, in order.
pub open spec fn invalid_roots(docs: Seq<MergeDocument>, n: nat) -> Seq<SourceSpan>
    decreases n,
{
    if n == 0 || n > docs.len() {
        seq![]
    } else if invalid_root(docs[n - 1]) {
        invalid_roots(docs, (n - 1) as nat).push(docs[n - 1].spec_source_span())
    } else {
        invalid_roots(docs, (n - 1) as nat)
    }
}

/// `d` reports a document root that is not a mapping at `span`.
pub open spec fn reports_invalid_root(d: Diagnostic, span: SourceSpan) -> bool {
    &&& d.spec_code().text() == "compose.merge.invalid-document-root"@
    &&& d.spec_severity() == Severity::Error
    &&& d.spec_message() == "Compose merge inputs must have mapping roots"@
    &&& d.spec_labels().len() == 1
    &&& d.spec_labels()[0].spec_kind() == crate::diagnostic::LabelKind::Primary
    &&& d.spec_labels()[0].spec_span() == span
    &&& d.spec_labels()[0].spec_message() == "document is not a mapping"@
    &&& d.spec_notes().len() == 0
}

/// Builds the diagnostic for a document root that is not a mapping.
fn invalid_root_diagnostic(span: SourceSpan) -> (d: Diagnostic)
    ensures
        reports_invalid_root(d, span),
{
    Diagnostic::new(
        crate::diagnostic::DiagnosticCode::new("compose.merge.invalid-document-root"),
        Severity::Error,
        owned("Compose merge inputs must have mapping roots"),
    ).with_label(crate::diagnostic::DiagnosticLabel::primary(span, owned("document is not a mapping")))
}

/// Merges documents whose roots are already merge values, in order. Upstream diagnostics come
/// first; a document whose root is not a mapping is reported and skipped; the first mapping
/// root is activated and every later one merged into it, as [`merged_root`] states.
pub fn merge_documents(documents: Vec<MergeDocument>, base_directory: String, diagnostics: Vec<Diagnostic>) -> (r: MergeResult)
    ensures
        r.spec_project() is Some <==> merged_root(documents@, documents@.len()) is Some,
        r.spec_project() matches Some(p) ==> p.spec_root() == merged_root(documents@, documents@.len())->0
            && p.spec_base_directory() == base_directory@ && p.spec_source_ids() == merged_ids(
            documents@,
            documents@.len(),
        ),
        r.spec_diagnostics().len() == diagnostics@.len() + invalid_roots(documents@, documents@.len()).len(),
        r.spec_diagnostics().subrange(0, diagnostics@.len() as int) == diagnostics@,
        forall|k: int|
            0 <= k < invalid_roots(documents@, documents@.len()).len() ==> reports_invalid_root(
                #[trigger] r.spec_diagnostics()[diagnostics@.len() + k],
                invalid_roots(documents@, documents@.len())[k],
            ),
{
    let mut documents = documents;
    let ghost docs = documents@;
    let mut diagnostics = diagnostics;
    let ghost upstream = diagnostics@;
    let mut root: Option<MergedValue> = None;
    let mut source_ids: Vec<SourceId> = Vec::new();
    let empty_path: Vec<String> = Vec::new();
    let mut i: usize = 0;
    while i < documents.len()
        invariant
            0 <= i <= docs.len(),
            documents@.len() == docs.len(),
            empty_path@.len() == 0,
            forall|j: int| i <= j < docs.len() ==> #[trigger] documents@[j] == docs[j],
            match root {
                Some(v) => merged_root(docs, i as nat) == Some(v@),
                None => merged_root(docs, i as nat) is None,
            },
            source_ids@ == merged_ids(docs, i as nat),
            diagnostics@.len() == upstream.len() + invalid_roots(docs, i as nat).len(),
            diagnostics@.subrange(0, upstream.len() as int) == upstream,
            forall|k: int|
                0 <= k < invalid_roots(docs, i as nat).len() ==> reports_invalid_root(
                    #[trigger] diagnostics@[upstream.len() + k],
                    invalid_roots(docs, i as nat)[k],
                ),
        decreases docs.len() - i,
    {
        let mut document = MergeDocument { source_id: SourceId::new(0), source_span: SourceSpan::from_valid_offsets(SourceId::new(0), 0, 0), root: None };
        documents.set_and_swap(i, &mut document);
        assert(document == docs[i as int]);
        let MergeDocument { source_id, source_span, root: document_root } = document;
        match document_root {
            None => {},
            Some(value) => {
                proof {
                    lemma_value_view(value);
                }
                let is_mapping = match &value.kind {
                    MergedValueKind::Mapping(_) => true,
                    _ => false,
                };
                if !is_mapping {
                    let ghost before = diagnostics@;
                    diagnostics.push(invalid_root_diagnostic(source_span));
                    proof {
                        assert(diagnostics@.subrange(0, upstream.len() as int) =~= before.subrange(0, upstream.len() as int));
                        let inv = invalid_roots(docs, (i + 1) as nat);
                        assert forall|k: int| 0 <= k < inv.len() implies reports_invalid_root(
                            #[trigger] diagnostics@[upstream.len() + k],
                            inv[k],
                        ) by {
                            if k < inv.len() - 1 {
                                assert(diagnostics@[upstream.len() + k] == before[upstream.len() + k]);
                            }
                        }
                    }
                } else {
                    source_ids.push(source_id);
                    let next = match root {
                        Some(current) => merge_value(current, value, &empty_path),
                        None => activate_tags(value),
                    };
                    proof {
                        assert(path_view(empty_path@) =~= Seq::<Seq<char>>::empty());
                    }
                    root = Some(next);
                }
            },
        }
        i += 1;
    }
    MergeResult {
        project: match root {
            Some(root) => Some(MergedProject { root, base_directory, source_ids }),
            None => None,
        },
        diagnostics,
    }
}

/// Combining provenance keeps the earlier spans first and in order, adds every later span,
/// adds nothing else, and repeats no span that was not already repeated.
pub proof fn law_extend_sources(t: Seq<SourceSpan>, inc: Seq<SourceSpan>)
    ensures
        extend_sources(t, inc).len() >= t.len(),
        extend_sources(t, inc).subrange(0, t.len() as int) == t,
        forall|x: SourceSpan| inc.contains(x) ==> #[trigger] extend_sources(t, inc).contains(x),
        forall|x: SourceSpan| #[trigger] extend_sources(t, inc).contains(x) ==> t.contains(x) || inc.contains(x),
        t.no_duplicates() ==> extend_sources(t, inc).no_duplicates(),
    decreases inc.len(),
{
    if inc.len() > 0 {
        let p = inc.drop_last();
        law_extend_sources(t, p);
        let r = extend_sources(t, p);
        assert forall|x: SourceSpan| p.contains(x) implies inc.contains(x) by {
            let j = choose|j: int| 0 <= j < p.len() && p[j] == x;
            assert(inc[j] == x);
        }
        assert forall|x: SourceSpan| inc.contains(x) implies #[trigger] extend_sources(t, inc).contains(x) by {
            let j = choose|j: int| 0 <= j < inc.len() && inc[j] == x;
            if j < p.len() {
                assert(p[j] == x);
                assert(r.contains(x));
                if !r.contains(inc.last()) {
                    let k = choose|k: int| 0 <= k < r.len() && r[k] == x;
                    assert(r.push(inc.last())[k] == x);
                }
            } else {
                if !r.contains(inc.last()) {
                    assert(r.push(inc.last())[r.len() as int] == x);
                }
            }
        }
        assert forall|x: SourceSpan| #[trigger] extend_sources(t, inc).contains(x) implies t.contains(x) || inc.contains(
            x,
        ) by {
            if !r.contains(inc.last()) {
                let k = choose|k: int| 0 <= k < r.len() + 1 && r.push(inc.last())[k] == x;
                if k < r.len() {
                    assert(r[k] == x);
                    assert(r.contains(x));
                    if p.contains(x) {
                        assert(inc.contains(x));
                    }
                } else {
                    assert(inc[inc.len() - 1] == x);
                }
            } else {
                assert(r.contains(x));
                if p.contains(x) {
                    assert(inc.contains(x));
                }
            }
        }
        if !r.contains(inc.last()) {
            assert(r.push(inc.last()).subrange(0, t.len() as int) =~= r.subrange(0, t.len() as int));
        }
    } else {
        assert(t.subrange(0, t.len() as int) =~= t);
    }
}

/// Later sequences are appended to earlier ones outside the fields merged by key or replaced
/// as a whole: the earlier items stay first, the later items follow, marked as added.
pub proof fn law_sequences_append(b: ValueView, i: ValueView, path: Seq<Seq<char>>)
    requires
        b.kind is Sequence,
        i.kind is Sequence,
        !is_shell_command(path),
        !is_keyed_mapping(path),
        unique_field(path) is None,
    ensures
        merged(b, i, path) == appended(b, i),
        merged(b, i, path).kind == KindView::Sequence(
            b.kind->Sequence_0 + i.kind->Sequence_0.map_values(|x: ValueView| marked_added(x)),
        ),
        merged(b, i, path).provenance.operation == MergeOperation::Appended,
{
}

/// A later `command` or `entrypoint` of any service replaces the earlier one as a whole: the
/// merged value is exactly the later value, so no earlier item survives, with the `Replaced`
/// operation and the sources of both.
pub proof fn law_service_command_replaced(b: ValueView, i: ValueView, service: Seq<char>, field: Seq<char>)
    requires
        field == "command"@ || field == "entrypoint"@,
        !(i.kind is Tagged),
    ensures
        merged(b, i, seq!["services"@, service, field]).kind == i.kind,
        merged(b, i, seq!["services"@, service, field]).provenance == (ProvenanceView {
            operation: MergeOperation::Replaced,
            sources: extend_sources(b.provenance.sources, i.provenance.sources),
        }),
{
}

/// A later `healthcheck.test` of any service replaces the earlier one as a whole, with the
/// `Replaced` operation and the sources of both.
pub proof fn law_healthcheck_test_replaced(b: ValueView, i: ValueView, service: Seq<char>)
    requires
        !(i.kind is Tagged),
    ensures
        merged(b, i, seq!["services"@, service, "healthcheck"@, "test"@]).kind == i.kind,
        merged(b, i, seq!["services"@, service, "healthcheck"@, "test"@]).provenance == (ProvenanceView {
            operation: MergeOperation::Replaced,
            sources: extend_sources(b.provenance.sources, i.provenance.sources),
        }),
{
}

/// A later `!reset` value clears the earlier value: an empty mapping or sequence, or an empty
/// null, with the `Reset` operation.
pub proof fn law_reset_clears(b: ValueView, i: ValueView, path: Seq<Seq<char>>)
    requires
        i.kind matches KindView::Tagged(t, _) && t == "!reset"@,
    ensures
        merged(b, i, path).provenance.operation == MergeOperation::Reset,
        merged(b, i, path).kind == KindView::Mapping(seq![]) || merged(b, i, path).kind == KindView::Sequence(seq![])
            || merged(b, i, path).kind == KindView::Null(NullStyle::Empty),
        merged(b, i, path).provenance.sources == extend_sources(b.provenance.sources, i.provenance.sources),
{
}

/// A later scalar replaces the earlier value, keeping the provenance of both.
pub proof fn law_scalar_replaces(b: ValueView, i: ValueView, path: Seq<Seq<char>>)
    requires
        i.kind is Scalar,
    ensures
        merged(b, i, path).kind == i.kind,
        merged(b, i, path).provenance == combined(b.provenance, i.provenance, MergeOperation::Replaced),
{
}

/// Merging entries never drops or reorders an earlier key, and every later key is present
/// afterwards.
pub proof fn law_mapping_fold_keeps_keys(acc: Seq<EntryView>, ies: Seq<EntryView>, n: nat, path: Seq<Seq<char>>)
    requires
        n <= ies.len(),
    ensures
        mapping_fold(acc, ies, n, path).len() >= acc.len(),
        forall|j: int| 0 <= j < acc.len() ==> #[trigger] mapping_fold(acc, ies, n, path)[j].key == acc[j].key,
        forall|m: int| 0 <= m < n ==> first_key(mapping_fold(acc, ies, n, path), #[trigger] ies[m].key) != -1,
    decreases n,
{
    if n > 0 {
        law_mapping_fold_keeps_keys(acc, ies, (n - 1) as nat, path);
        let a = mapping_fold(acc, ies, (n - 1) as nat, path);
        let r = mapping_fold(acc, ies, n, path);
        let e = ies[n - 1];
        lemma_first_key(a, e.key);
        assert forall|j: int| 0 <= j < a.len() implies #[trigger] r[j].key == a[j].key by {}
        assert forall|m: int| 0 <= m < n implies first_key(r, #[trigger] ies[m].key) != -1 by {
            lemma_first_key(r, ies[m].key);
            if m < n - 1 {
                lemma_first_key(a, ies[m].key);
                let j = first_key(a, ies[m].key);
                assert(r[j].key == a[j].key);
            } else {
                if first_key(a, e.key) == -1 {
                    assert(r[a.len() as int].key == e.key);
                } else {
                    let k = first_key(a, e.key);
                    assert(r[k].key == a[k].key);
                }
            }
        }
    }
}

/// A project has a root exactly when some document has a mapping root.
pub proof fn law_project_root_exists(docs: Seq<MergeDocument>, n: nat)
    requires
        n <= docs.len(),
    ensures
        merged_root(docs, n) is Some <==> exists|j: int| 0 <= j < n && #[trigger] mergeable_root(docs[j]),
    decreases n,
{
    if n > 0 {
        law_project_root_exists(docs, (n - 1) as nat);
    }
}

/// The category of an authored scalar of a document tree.
#[derive(Debug, Clone, Copy, PartialEq, Eq, Structural)]
pub enum MergeScalarKind {
    /// A YAML string.
    String,
    /// A YAML boolean.
    Boolean,
    /// A YAML integer or floating-point value.
    Number,
    /// A YAML null.
    Null,
}

/// One authored scalar of a document tree: its spelling, its plain value, its category and span.
#[derive(Debug, Clone, PartialEq, Eq)]
pub struct MergeSyntaxScalar {
    raw: String,
    value: String,
    kind: MergeScalarKind,
    span: SourceSpan,
}

impl MergeSyntaxScalar {
    /// The authored spelling.
    pub closed spec fn spec_raw(&self) -> Seq<char> {
        self.raw@
    }

    /// The plain value.
    pub closed spec fn spec_value(&self) -> Seq<char> {
        self.value@
    }

    /// The category.
    pub closed spec fn spec_kind(&self) -> MergeScalarKind {
        self.kind
    }

    /// The span.
    pub closed spec fn spec_span(&self) -> SourceSpan {
        self.span
    }

    /// The plain value as owned text.
    pub closed spec fn spec_text(&self) -> String {
        self.value
    }

    /// Returns the plain value.
    pub fn value(&self) -> (r: &str)
        ensures
            r@ == self.spec_value(),
    {
        self.value.as_str()
    }

    /// Returns the plain value as owned text.
    pub fn text(&self) -> (r: &String)
        ensures
            *r == self.spec_text(),
            r@ == self.spec_value(),
    {
        &self.value
    }

    /// Returns the category.
    pub fn kind(&self) -> (r: MergeScalarKind)
        ensures
            r == self.spec_kind(),
    {
        self.kind
    }

    /// Returns the span.
    pub fn span(&self) -> (r: SourceSpan)
        ensures
            r == self.spec_span(),
    {
        self.span
    }

    /// Creates an authored scalar.
    pub fn new(raw: String, value: String, kind: MergeScalarKind, span: SourceSpan) -> (r: Self)
        ensures
            r.spec_raw() == raw@,
            r.spec_value() == value@,
            r.spec_kind() == kind,
            r.spec_span() == span,
    {
        Self { raw, value, kind, span }
    }
}

/// One authored mapping entry of a document tree.
#[derive(Debug, PartialEq, Eq)]
pub struct MergeSyntaxEntry {
    key: Located<String>,
    value: MergeSyntaxValue,
}

impl MergeSyntaxEntry {
    /// The authored key.
    pub closed spec fn spec_key(&self) -> Located<String> {
        self.key
    }

    /// The authored value.
    pub closed spec fn spec_value(&self) -> MergeSyntaxValue {
        self.value
    }

    /// Returns the authored key.
    pub fn key(&self) -> (r: &Located<String>)
        ensures
            *r == self.spec_key(),
    {
        &self.key
    }

    /// Returns the authored value.
    pub fn value(&self) -> (r: &MergeSyntaxValue)
        ensures
            *r == self.spec_value(),
    {
        &self.value
    }

    /// Creates an authored entry.
    pub fn new(key: Located<String>, value: MergeSyntaxValue) -> (r: Self)
        ensures
            r.spec_key() == key,
            r.spec_value() == value,
    {
        Self { key, value }
    }
}

/// The authored value tree of one document, as read from its YAML source.
#[derive(Debug, PartialEq, Eq)]
pub enum MergeSyntaxValue {
    /// An empty value.
    Empty(SourceSpan),
    /// A scalar.
    Scalar(MergeSyntaxScalar),
    /// A mapping.
    Mapping {
        /// The entries in authored order.
        entries: Vec<MergeSyntaxEntry>,
        /// The mapping span.
        span: SourceSpan,
    },
    /// A sequence.
    Sequence {
        /// The items in authored order.
        values: Vec<MergeSyntaxValue>,
        /// The sequence span.
        span: SourceSpan,
    },
    /// An alias.
    Alias {
        /// The alias name.
        name: String,
        /// The alias span.
        span: SourceSpan,
    },
    /// A tagged value.
    Tagged {
        /// The tag.
        tag: String,
        /// The tagged value.
        value: Box<MergeSyntaxValue>,
        /// The span.
        span: SourceSpan,
    },
}

/// The first of the first `n` results at exactly the span.
pub open spec fn first_at(values: Seq<InterpolationResult>, span: SourceSpan, n: int) -> Option<InterpolationResult>
    decreases n,
{
    if n <= 0 {
        None
    } else if first_at(values, span, n - 1) is Some {
        first_at(values, span, n - 1)
    } else if values[n - 1].spec_span() == span {
        Some(values[n - 1])
    } else {
        None
    }
}

proof fn lemma_first_at(values: Seq<InterpolationResult>, span: SourceSpan, n: int, i: int)
    requires
        0 <= n <= values.len(),
        -1 <= i < n,
        forall|j: int| 0 <= j < n && j != i ==> #[trigger] values[j].spec_span() != span || (i >= 0 && j > i),
        i >= 0 ==> values[i].spec_span() == span,
    ensures
        first_at(values, span, n) == if i >= 0 {
            Some(values[i])
        } else {
            None
        },
    decreases n,
{
    if n > 0 {
        if i == n - 1 {
            lemma_first_at(values, span, n - 1, -1);
        } else {
            lemma_first_at(values, span, n - 1, i);
        }
    }
}

/// The overlay result for a scalar span, when there is an overlay.
pub open spec fn overlay_at(overlay: Option<DocumentInterpolation>, span: SourceSpan) -> Option<InterpolationResult> {
    match overlay {
        Some(d) => first_at(d.spec_values(), span, d.spec_values().len() as int),
        None => None,
    }
}

/// The overlay a reference points at, as a value.
pub open spec fn overlay_of(overlay: Option<&DocumentInterpolation>) -> Option<DocumentInterpolation> {
    match overlay {
        Some(d) => Some(*d),
        None => None,
    }
}

/// An authored provenance at one span.
pub open spec fn authored_at(span: SourceSpan) -> ProvenanceView {
    ProvenanceView { operation: MergeOperation::Authored, sources: seq![span] }
}

/// The merged category of a non-null authored scalar.
pub open spec fn scalar_category(kind: MergeScalarKind) -> MergedScalarKind {
    match kind {
        MergeScalarKind::Boolean => MergedScalarKind::Boolean,
        MergeScalarKind::Number => MergedScalarKind::Number,
        _ => MergedScalarKind::String,
    }
}

/// A non-null authored scalar after its overlay: the overlay's resolved text and sensitivity
/// when the overlay has a result at its span, otherwise its plain value, not sensitive.
pub closed spec fn converted_scalar(s: MergeSyntaxScalar, overlay: Option<DocumentInterpolation>) -> ValueView {
    let r = overlay_at(overlay, s.span);
    ValueView {
        kind: KindView::Scalar(
            ScalarView {
                raw: s.raw@,
                value: match r {
                    Some(x) => x.spec_resolved(),
                    None => s.value@,
                },
                kind: scalar_category(s.kind),
                sensitive: match r {
                    Some(x) => x.spec_sensitive(),
                    None => false,
                },
            },
        ),
        provenance: authored_at(s.span),
    }
}

/// An authored tree as a merge value: every node authored at its span, nulls and empty values
/// as nulls, scalars through the overlay, entries keyed by their authored keys.
pub closed spec fn converted(v: MergeSyntaxValue, overlay: Option<DocumentInterpolation>) -> ValueView
    decreases v, 0nat,
{
    match v {
        MergeSyntaxValue::Empty(span) => ValueView { kind: KindView::Null(NullStyle::Empty), provenance: authored_at(span) },
        MergeSyntaxValue::Scalar(s) => if s.kind == MergeScalarKind::Null {
            ValueView { kind: KindView::Null(NullStyle::Explicit), provenance: authored_at(s.span) }
        } else {
            converted_scalar(s, overlay)
        },
        MergeSyntaxValue::Mapping { entries, span } => {
            proof {
                assert(decreases_to!(v => entries));
                assert(decreases_to!(entries => entries@));
            }
            ValueView {
                kind: KindView::Mapping(converted_entries(entries@, entries@.len(), overlay)),
                provenance: authored_at(span),
            }
        },
        MergeSyntaxValue::Sequence { values, span } => {
            proof {
                assert(decreases_to!(v => values));
                assert(decreases_to!(values => values@));
            }
            ValueView {
                kind: KindView::Sequence(converted_values(values@, values@.len(), overlay)),
                provenance: authored_at(span),
            }
        },
        MergeSyntaxValue::Alias { name, span } => ValueView { kind: KindView::Alias(name@), provenance: authored_at(span) },
        MergeSyntaxValue::Tagged { tag, value, span } => ValueView {
            kind: KindView::Tagged(tag@, Box::new(converted(*value, overlay))),
            provenance: authored_at(span),
        },
    }
}

/// One authored entry as a merge entry.
pub closed spec fn converted_entry(e: MergeSyntaxEntry, overlay: Option<DocumentInterpolation>) -> EntryView
    decreases e, 0nat,
{
    EntryView {
        key: e.key.spec_value()@,
        key_sources: seq![e.key.spec_span()],
        syntax: EntrySyntax::Mapping,
        value: converted(e.value, overlay),
    }
}

/// The first `n` authored entries as merge entries.
pub closed spec fn converted_entries(s: Seq<MergeSyntaxEntry>, n: nat, overlay: Option<DocumentInterpolation>) -> Seq<EntryView>
    decreases s, n,
{
    if n == 0 || n > s.len() {
        seq![]
    } else {
        proof {
            assert(decreases_to!(s => s[n - 1]));
        }
        converted_entries(s, (n - 1) as nat, overlay).push(converted_entry(s[n - 1], overlay))
    }
}

/// The first `n` authored items as merge values.
pub closed spec fn converted_values(s: Seq<MergeSyntaxValue>, n: nat, overlay: Option<DocumentInterpolation>) -> Seq<ValueView>
    decreases s, n,
{
    if n == 0 || n > s.len() {
        seq![]
    } else {
        proof {
            assert(decreases_to!(s => s[n - 1]));
        }
        converted_values(s, (n - 1) as nat, overlay).push(converted(s[n - 1], overlay))
    }
}

/// The spans of the aliases of an authored tree, in document order.
pub closed spec fn alias_spans(v: MergeSyntaxValue) -> Seq<SourceSpan>
    decreases v, 0nat,
{
    match v {
        MergeSyntaxValue::Mapping { entries, span } => {
            proof {
                assert(decreases_to!(v => entries));
                assert(decreases_to!(entries => entries@));
            }
            alias_spans_entries(entries@, entries@.len())
        },
        MergeSyntaxValue::Sequence { values, span } => {
            proof {
                assert(decreases_to!(v => values));
                assert(decreases_to!(values => values@));
            }
            alias_spans_values(values@, values@.len())
        },
        MergeSyntaxValue::Alias { name, span } => seq![span],
        MergeSyntaxValue::Tagged { tag, value, span } => alias_spans(*value),
        _ => seq![],
    }
}

/// The alias spans of one entry's value.
pub closed spec fn alias_spans_entry(e: MergeSyntaxEntry) -> Seq<SourceSpan>
    decreases e, 0nat,
{
    alias_spans(e.value)
}

/// The alias spans of the first `n` entries, in order.
pub closed spec fn alias_spans_entries(s: Seq<MergeSyntaxEntry>, n: nat) -> Seq<SourceSpan>
    decreases s, n,
{
    if n == 0 || n > s.len() {
        seq![]
    } else {
        proof {
            assert(decreases_to!(s => s[n - 1]));
        }
        alias_spans_entries(s, (n - 1) as nat) + alias_spans_entry(s[n - 1])
    }
}

/// The alias spans of the first `n` items, in order.
pub closed spec fn alias_spans_values(s: Seq<MergeSyntaxValue>, n: nat) -> Seq<SourceSpan>
    decreases s, n,
{
    if n == 0 || n > s.len() {
        seq![]
    } else {
        proof {
            assert(decreases_to!(s => s[n - 1]));
        }
        alias_spans_values(s, (n - 1) as nat) + alias_spans(s[n - 1])
    }
}

/// `d` warns of an unresolved alias at `span`.
pub open spec fn reports_alias(d: Diagnostic, span: SourceSpan) -> bool {
    &&& d.spec_code().text() == "compose.merge.unresolved-alias"@
    &&& d.spec_severity() == Severity::Warning
    &&& d.spec_message() == "YAML alias could not be resolved"@
    &&& d.spec_labels().len() == 1
    &&& d.spec_labels()[0].spec_kind() == crate::diagnostic::LabelKind::Primary
    &&& d.spec_labels()[0].spec_span() == span
    &&& d.spec_labels()[0].spec_message() == "unresolved alias"@
    &&& d.spec_notes().len() == 0
}

/// Diagnostics from position `base` on warn of the given aliases, one each and in order.
pub open spec fn warns_aliases(diags: Seq<Diagnostic>, base: int, spans: Seq<SourceSpan>) -> bool {
    &&& diags.len() == base + spans.len()
    &&& forall|k: int| 0 <= k < spans.len() ==> reports_alias(#[trigger] diags[base + k], spans[k])
}

/// Builds the warning for an unresolved alias.
fn alias_diagnostic(span: SourceSpan) -> (d: Diagnostic)
    ensures
        reports_alias(d, span),
{
    Diagnostic::new(
        crate::diagnostic::DiagnosticCode::new("compose.merge.unresolved-alias"),
        Severity::Warning,
        owned("YAML alias could not be resolved"),
    ).with_label(crate::diagnostic::DiagnosticLabel::primary(span, owned("unresolved alias")))
}

/// Converts one non-null authored scalar through the overlay.
fn convert_scalar(value: MergeSyntaxScalar, overlay: Option<&DocumentInterpolation>) -> (r: MergedValue)
    requires
        value.spec_kind() != MergeScalarKind::Null,
    ensures
        r@ == converted_scalar(value, overlay_of(overlay)),
{
    let resolved: Option<&InterpolationResult> = match overlay {
        Some(d) => {
            let found = d.value(value.span);
            proof {
                match found {
                    Some(v) => {
                        let i = choose|i: int|
                            0 <= i < d.spec_values().len() && *v == d.spec_values()[i] && v.spec_span() == value.span
                                && forall|j: int| 0 <= j < i ==> #[trigger] d.spec_values()[j].spec_span() != value.span;
                        lemma_first_at(d.spec_values(), value.span, d.spec_values().len() as int, i);
                    },
                    None => {
                        lemma_first_at(d.spec_values(), value.span, d.spec_values().len() as int, -1);
                    },
                }
            }
            found
        },
        None => None,
    };
    let semantic = match resolved {
        Some(result) => owned(result.resolved()),
        None => value.value.clone(),
    };
    let sensitive = match resolved {
        Some(result) => result.is_sensitive(),
        None => false,
    };
    let kind = match value.kind {
        MergeScalarKind::Boolean => MergedScalarKind::Boolean,
        MergeScalarKind::Number => MergedScalarKind::Number,
        _ => MergedScalarKind::String,
    };
    let span = value.span;
    authored(MergedValueKind::Scalar(MergedScalar { raw: value.raw, value: semantic, kind, sensitive }), span)
}

/// Converts an authored tree through the overlay, warning of each unresolved alias in
/// document order.
#[verifier::loop_isolation(false)]
fn convert_value(
    value: MergeSyntaxValue,
    overlay: Option<&DocumentInterpolation>,
    diagnostics: &mut Vec<Diagnostic>,
) -> (r: MergedValue)
    ensures
        r@ == converted(value, overlay_of(overlay)),
        forall|k: int| 0 <= k < old(diagnostics)@.len() ==> final(diagnostics)@[k] == old(diagnostics)@[k],
        warns_aliases(final(diagnostics)@, old(diagnostics)@.len() as int, alias_spans(value)),
    decreases value,
{
    let ghost whole = value;
    let ghost d0 = diagnostics@;
    match value {
        MergeSyntaxValue::Empty(span) => {
            proof {
                assert(alias_spans(whole) =~= Seq::<SourceSpan>::empty());
            }
            authored(MergedValueKind::Null(NullStyle::Empty), span)
        },
        MergeSyntaxValue::Scalar(scalar) => {
            proof {
                assert(alias_spans(whole) =~= Seq::<SourceSpan>::empty());
            }
            if scalar.kind == MergeScalarKind::Null {
                let span = scalar.span;
                authored(MergedValueKind::Null(NullStyle::Explicit), span)
            } else {
                convert_scalar(scalar, overlay)
            }
        },
        MergeSyntaxValue::Mapping { entries, span } => {
            let ghost es0 = entries@;
            let mut entries = entries;
            let _ = entries.len();
            let mut out: Vec<MergedEntry> = Vec::new();
            let mut j: usize = 0;
            proof {
                assert(entries@ =~= es0.subrange(0, es0.len() as int));
            }
            while entries.len() > 0
                invariant
                    0 <= j <= es0.len(),
                    es0.len() <= usize::MAX,
                    entries@ == es0.subrange(j as int, es0.len() as int),
                    whole == (MergeSyntaxValue::Mapping { entries: whole->Mapping_entries, span }),
                    whole->Mapping_entries@ == es0,
                    entries_seq(out@) == converted_entries(es0, j as nat, overlay_of(overlay)),
                    forall|k: int| 0 <= k < d0.len() ==> diagnostics@[k] == d0[k],
                    warns_aliases(diagnostics@, d0.len() as int, alias_spans_entries(es0, j as nat)),
                decreases entries@.len(),
            {
                let entry = entries.remove(0);
                proof {
                    assert(entry == es0[j as int]);
                    assert(entries@ =~= es0.subrange(j + 1, es0.len() as int));
                    assert(decreases_to!(whole => whole->Mapping_entries));
                    assert(decreases_to!(whole->Mapping_entries => es0));
                    assert(decreases_to!(es0 => es0[j as int]));
                    assert(decreases_to!(whole => entry));
                }
                let ghost before = diagnostics@;
                let ghost out_before = out@;
                let converted_one = convert_entry(entry, overlay, diagnostics);
                out.push(converted_one);
                proof {
                    lemma_entries_seq(out_before);
                    lemma_entries_seq(out@);
                    assert(entries_seq(out@) =~= entries_seq(out_before).push(converted_one@));
                    let prev = alias_spans_entries(es0, j as nat);
                    let add = alias_spans_entry(es0[j as int]);
                    assert(alias_spans_entries(es0, (j + 1) as nat) == prev + add);
                    assert forall|k: int| 0 <= k < prev.len() + add.len() implies reports_alias(
                        #[trigger] diagnostics@[d0.len() + k],
                        (prev + add)[k],
                    ) by {
                        if k < prev.len() {
                            assert(diagnostics@[d0.len() + k] == before[d0.len() + k]);
                        } else {
                            assert(diagnostics@[before.len() + (k - prev.len())] == diagnostics@[d0.len() + k]);
                        }
                    }
                }
                j += 1;
            }
            proof {
                assert(es0.subrange(j as int, es0.len() as int).len() == 0);
            }
            let r = authored(MergedValueKind::Mapping(out), span);
            proof {
                lemma_value_view(r);
            }
            r
        },
        MergeSyntaxValue::Sequence { values, span } => {
            let ghost vs0 = values@;
            let mut values = values;
            let _ = values.len();
            let mut out: Vec<MergedValue> = Vec::new();
            let mut j: usize = 0;
            proof {
                assert(values@ =~= vs0.subrange(0, vs0.len() as int));
            }
            while values.len() > 0
                invariant
                    0 <= j <= vs0.len(),
                    vs0.len() <= usize::MAX,
                    values@ == vs0.subrange(j as int, vs0.len() as int),
                    whole == (MergeSyntaxValue::Sequence { values: whole->Sequence_values, span }),
                    whole->Sequence_values@ == vs0,
                    values_seq(out@) == converted_values(vs0, j as nat, overlay_of(overlay)),
                    forall|k: int| 0 <= k < d0.len() ==> diagnostics@[k] == d0[k],
                    warns_aliases(diagnostics@, d0.len() as int, alias_spans_values(vs0, j as nat)),
                decreases values@.len(),
            {
                let item = values.remove(0);
                proof {
                    assert(item == vs0[j as int]);
                    assert(values@ =~= vs0.subrange(j + 1, vs0.len() as int));
                    assert(decreases_to!(whole => whole->Sequence_values));
                    assert(decreases_to!(whole->Sequence_values => vs0));
                    assert(decreases_to!(vs0 => vs0[j as int]));
                    assert(decreases_to!(whole => item));
                }
                let ghost before = diagnostics@;
                let ghost out_before = out@;
                let converted_one = convert_value(item, overlay, diagnostics);
                out.push(converted_one);
                proof {
                    lemma_values_seq(out_before);
                    lemma_values_seq(out@);
                    assert(values_seq(out@) =~= values_seq(out_before).push(converted_one@));
                    let prev = alias_spans_values(vs0, j as nat);
                    let add = alias_spans(vs0[j as int]);
                    assert(alias_spans_values(vs0, (j + 1) as nat) == prev + add);
                    assert forall|k: int| 0 <= k < prev.len() + add.len() implies reports_alias(
                        #[trigger] diagnostics@[d0.len() + k],
                        (prev + add)[k],
                    ) by {
                        if k < prev.len() {
                            assert(diagnostics@[d0.len() + k] == before[d0.len() + k]);
                        } else {
                            assert(diagnostics@[before.len() + (k - prev.len())] == diagnostics@[d0.len() + k]);
                        }
                    }
                }
                j += 1;
            }
            proof {
                assert(vs0.subrange(j as int, vs0.len() as int).len() == 0);
            }
            let r = authored(MergedValueKind::Sequence(out), span);
            proof {
                lemma_value_view(r);
            }
            r
        },
        MergeSyntaxValue::Alias { name, span } => {
            diagnostics.push(alias_diagnostic(span));
            proof {
                assert(alias_spans(whole) =~= seq![span]);
            }
            authored(MergedValueKind::Alias(name), span)
        },
        MergeSyntaxValue::Tagged { tag, value: inner, span } => {
            let converted_inner = convert_value(*inner, overlay, diagnostics);
            let r = authored(MergedValueKind::Tagged { tag, value: Box::new(converted_inner) }, span);
            proof {
                lemma_value_view(r);
            }
            r
        },
    }
}

/// Converts one authored entry: its key with its span, mapping syntax, and its converted value.
fn convert_entry(
    entry: MergeSyntaxEntry,
    overlay: Option<&DocumentInterpolation>,
    diagnostics: &mut Vec<Diagnostic>,
) -> (r: MergedEntry)
    ensures
        r@ == converted_entry(entry, overlay_of(overlay)),
        forall|k: int| 0 <= k < old(diagnostics)@.len() ==> final(diagnostics)@[k] == old(diagnostics)@[k],
        warns_aliases(final(diagnostics)@, old(diagnostics)@.len() as int, alias_spans_entry(entry)),
    decreases entry,
{
    let MergeSyntaxEntry { key, value } = entry;
    let mut key_sources: Vec<SourceSpan> = Vec::new();
    key_sources.push(key.span());
    let converted_value = convert_value(value, overlay, diagnostics);
    let r = MergedEntry { key: key.into_value(), key_sources, syntax: EntrySyntax::Mapping, value: converted_value };
    proof {
        lemma_entry_view(r);
        assert(r.key_sources@ =~= seq![entry.key.spec_span()]);
    }
    r
}

/// The root after the first `n` of the given roots were merged in order: the first mapping
/// root, activated, and every later mapping root merged into it.
pub open spec fn merged_view(roots: Seq<Option<ValueView>>, n: nat) -> Option<ValueView>
    decreases n,
{
    if n == 0 || n > roots.len() {
        None
    } else {
        let acc = merged_view(roots, (n - 1) as nat);
        if roots[n - 1] matches Some(v) && v.kind is Mapping {
            match acc {
                Some(current) => Some(merged(current, roots[n - 1]->0, seq![])),
                None => Some(activated(roots[n - 1]->0)),
            }
        } else {
            acc
        }
    }
}

/// The identifiers, among the first `n`, of the documents whose roots took part in the merge.
pub open spec fn merged_view_ids(roots: Seq<Option<ValueView>>, ids: Seq<SourceId>, n: nat) -> Seq<SourceId>
    decreases n,
{
    if n == 0 || n > roots.len() {
        seq![]
    } else if roots[n - 1] matches Some(v) && v.kind is Mapping {
        merged_view_ids(roots, ids, (n - 1) as nat).push(ids[n - 1])
    } else {
        merged_view_ids(roots, ids, (n - 1) as nat)
    }
}

proof fn lemma_merged_view(docs: Seq<MergeDocument>, roots: Seq<Option<ValueView>>, ids: Seq<SourceId>, n: nat)
    requires
        n <= docs.len(),
        roots.len() == docs.len(),
        ids.len() == docs.len(),
        forall|i: int| 0 <= i < docs.len() ==> #[trigger] docs[i].spec_root() == roots[i] && docs[i].spec_source_id() == ids[i],
        forall|i: int| 0 <= i < docs.len() ==> !invalid_root(#[trigger] docs[i]),
    ensures
        merged_root(docs, n) == merged_view(roots, n),
        merged_ids(docs, n) == merged_view_ids(roots, ids, n),
        invalid_roots(docs, n).len() == 0,
    decreases n,
{
    if n > 0 {
        lemma_merged_view(docs, roots, ids, (n - 1) as nat);
        assert(docs[n - 1].spec_root() == roots[n - 1]);
    }
}

/// One document handed to the merge: its identity, its span and its authored tree, if any.
#[derive(Debug, PartialEq, Eq)]
pub struct MergeSourceDocument {
    source_id: SourceId,
    source_span: SourceSpan,
    root: Option<MergeSyntaxValue>,
}

impl MergeSourceDocument {
    /// The document identity.
    pub closed spec fn spec_source_id(&self) -> SourceId {
        self.source_id
    }

    /// The span of the whole document.
    pub closed spec fn spec_source_span(&self) -> SourceSpan {
        self.source_span
    }

    /// The authored tree.
    pub closed spec fn spec_root(&self) -> Option<MergeSyntaxValue> {
        self.root
    }

    /// Creates the merge input of one document.
    pub fn new(source_id: SourceId, source_span: SourceSpan, root: Option<MergeSyntaxValue>) -> (r: Self)
        ensures
            r.spec_source_id() == source_id,
            r.spec_source_span() == source_span,
            r.spec_root() == root,
    {
        Self { source_id, source_span, root }
    }
}

/// The first of the first `n` overlays for the document identity.
pub open spec fn first_overlay(overlays: Seq<DocumentInterpolation>, id: SourceId, n: int) -> Option<DocumentInterpolation>
    decreases n,
{
    if n <= 0 {
        None
    } else if first_overlay(overlays, id, n - 1) is Some {
        first_overlay(overlays, id, n - 1)
    } else if overlays[n - 1].spec_source_id() == id {
        Some(overlays[n - 1])
    } else {
        None
    }
}

proof fn lemma_first_overlay(overlays: Seq<DocumentInterpolation>, id: SourceId, n: int, i: int)
    requires
        0 <= n <= overlays.len(),
        -1 <= i < n,
        forall|j: int| 0 <= j < n && j != i ==> #[trigger] overlays[j].spec_source_id() != id || (i >= 0 && j > i),
        i >= 0 ==> overlays[i].spec_source_id() == id,
    ensures
        first_overlay(overlays, id, n) == if i >= 0 {
            Some(overlays[i])
        } else {
            None
        },
    decreases n,
{
    if n > 0 {
        if i == n - 1 {
            lemma_first_overlay(overlays, id, n - 1, -1);
        } else {
            lemma_first_overlay(overlays, id, n - 1, i);
        }
    }
}

/// The overlay a document gets from the project interpolation, when there is one.
pub open spec fn overlay_for(interpolation: Option<ProjectInterpolation>, id: SourceId) -> Option<DocumentInterpolation> {
    match interpolation {
        Some(p) => first_overlay(p.spec_documents(), id, p.spec_documents().len() as int),
        None => None,
    }
}

/// The project interpolation a reference points at, as a value.
pub open spec fn interpolation_of(interpolation: Option<&ProjectInterpolation>) -> Option<ProjectInterpolation> {
    match interpolation {
        Some(p) => Some(*p),
        None => None,
    }
}

/// The merge value a document contributes: its converted tree when that is a mapping.
pub open spec fn converted_root(d: MergeSourceDocument, interpolation: Option<ProjectInterpolation>) -> Option<ValueView> {
    match d.spec_root() {
        Some(v) => if v is Mapping {
            Some(converted(v, overlay_for(interpolation, d.spec_source_id())))
        } else {
            None
        },
        None => None,
    }
}

/// The merge values the documents contribute, in order.
pub open spec fn converted_roots(docs: Seq<MergeSourceDocument>, interpolation: Option<ProjectInterpolation>) -> Seq<Option<ValueView>> {
    docs.map_values(|d: MergeSourceDocument| converted_root(d, interpolation))
}

/// The identities of the documents, in order.
pub open spec fn source_document_ids(docs: Seq<MergeSourceDocument>) -> Seq<SourceId> {
    docs.map_values(|d: MergeSourceDocument| d.spec_source_id())
}

/// One problem the merge reports.
#[derive(Debug, Clone, Copy, PartialEq, Eq, Structural)]
pub enum MergeReport {
    /// A loaded document has no overlay in the supplied project interpolation.
    MissingOverlay(SourceSpan),
    /// A document root is not a mapping.
    InvalidRoot(SourceSpan),
    /// An alias could not be resolved.
    UnresolvedAlias(SourceSpan),
    /// An overlay belongs to no loaded document.
    ForeignOverlay,
}

/// `d` reports a loaded document without an overlay.
pub open spec fn reports_missing_overlay(d: Diagnostic, span: SourceSpan) -> bool {
    &&& d.spec_code().text() == "compose.merge.interpolation-project-mismatch"@
    &&& d.spec_severity() == Severity::Error
    &&& d.spec_message() == "loaded document has no matching interpolation overlay"@
    &&& d.spec_labels().len() == 1
    &&& d.spec_labels()[0].spec_kind() == crate::diagnostic::LabelKind::Primary
    &&& d.spec_labels()[0].spec_span() == span
    &&& d.spec_labels()[0].spec_message() == "missing per-file overlay"@
    &&& d.spec_notes().len() == 0
}

/// `d` reports an overlay that belongs to no loaded document.
pub open spec fn reports_foreign_overlay(d: Diagnostic) -> bool {
    &&& d.spec_code().text() == "compose.merge.interpolation-project-mismatch"@
    &&& d.spec_severity() == Severity::Error
    &&& d.spec_message() == "interpolation overlay does not belong to the loaded project"@
    &&& d.spec_labels().len() == 0
    &&& d.spec_notes().len() == 0
}

/// `d` is the diagnostic for the report.
pub open spec fn reports_merge(d: Diagnostic, report: MergeReport) -> bool {
    match report {
        MergeReport::MissingOverlay(span) => reports_missing_overlay(d, span),
        MergeReport::InvalidRoot(span) => reports_invalid_root(d, span),
        MergeReport::UnresolvedAlias(span) => reports_alias(d, span),
        MergeReport::ForeignOverlay => reports_foreign_overlay(d),
    }
}

/// The reports of one document: a missing overlay when an interpolation is given and has none
/// for it; then, for a root that is not a mapping, that root; for a mapping root, each of its
/// unresolved aliases in document order.
pub open spec fn document_reports(d: MergeSourceDocument, interpolation: Option<ProjectInterpolation>) -> Seq<MergeReport> {
    let missing = if interpolation is Some && overlay_for(interpolation, d.spec_source_id()) is None {
        seq![MergeReport::MissingOverlay(d.spec_source_span())]
    } else {
        Seq::empty()
    };
    missing + match d.spec_root() {
        Some(v) => if v is Mapping {
            alias_spans(v).map_values(|s: SourceSpan| MergeReport::UnresolvedAlias(s))
        } else {
            seq![MergeReport::InvalidRoot(d.spec_source_span())]
        },
        None => Seq::empty(),
    }
}

/// The reports of the first `n` documents, in order.
pub open spec fn documents_reports(docs: Seq<MergeSourceDocument>, interpolation: Option<ProjectInterpolation>, n: nat) -> Seq<MergeReport>
    decreases n,
{
    if n == 0 || n > docs.len() {
        seq![]
    } else {
        documents_reports(docs, interpolation, (n - 1) as nat) + document_reports(docs[n - 1], interpolation)
    }
}

/// One report for each of the first `n` overlays whose identity no document has.
pub open spec fn foreign_reports(overlays: Seq<DocumentInterpolation>, ids: Seq<SourceId>, n: nat) -> Seq<MergeReport>
    decreases n,
{
    if n == 0 || n > overlays.len() {
        seq![]
    } else if ids.contains(overlays[n - 1].spec_source_id()) {
        foreign_reports(overlays, ids, (n - 1) as nat)
    } else {
        foreign_reports(overlays, ids, (n - 1) as nat).push(MergeReport::ForeignOverlay)
    }
}

/// Every report the merge of the documents makes, in order: the documents' reports, then the
/// foreign overlays'.
pub open spec fn merge_reports(docs: Seq<MergeSourceDocument>, interpolation: Option<ProjectInterpolation>) -> Seq<MergeReport> {
    documents_reports(docs, interpolation, docs.len()) + match interpolation {
        Some(p) => foreign_reports(p.spec_documents(), source_document_ids(docs), p.spec_documents().len()),
        None => Seq::empty(),
    }
}

/// Diagnostics from position `base` on are exactly those of the reports, in order.
pub open spec fn follows_reports(diags: Seq<Diagnostic>, base: int, reports: Seq<MergeReport>) -> bool {
    &&& diags.len() == base + reports.len()
    &&& forall|k: int| 0 <= k < reports.len() ==> reports_merge(#[trigger] diags[base + k], reports[k])
}

fn missing_overlay_diagnostic(span: SourceSpan) -> (d: Diagnostic)
    ensures
        reports_missing_overlay(d, span),
{
    Diagnostic::new(
        crate::diagnostic::DiagnosticCode::new("compose.merge.interpolation-project-mismatch"),
        Severity::Error,
        owned("loaded document has no matching interpolation overlay"),
    ).with_label(crate::diagnostic::DiagnosticLabel::primary(span, owned("missing per-file overlay")))
}

fn foreign_overlay_diagnostic() -> (d: Diagnostic)
    ensures
        reports_foreign_overlay(d),
{
    Diagnostic::new(
        crate::diagnostic::DiagnosticCode::new("compose.merge.interpolation-project-mismatch"),
        Severity::Error,
        owned("interpolation overlay does not belong to the loaded project"),
    )
}

/// Finds a document's overlay.
fn find_overlay<'a>(interpolation: Option<&'a ProjectInterpolation>, id: SourceId) -> (r: Option<&'a DocumentInterpolation>)
    ensures
        overlay_of(r) == overlay_for(interpolation_of(interpolation), id),
{
    match interpolation {
        None => None,
        Some(p) => {
            let found = p.document(id);
            proof {
                match found {
                    Some(d) => {
                        let i = choose|k: int|
                            0 <= k < p.spec_documents().len() && *d == p.spec_documents()[k] && d.spec_source_id() == id
                                && forall|m: int| 0 <= m < k ==> (#[trigger] p.spec_documents()[m]).spec_source_id() != id;
                        lemma_first_overlay(p.spec_documents(), id, p.spec_documents().len() as int, i);
                    },
                    None => {
                        lemma_first_overlay(p.spec_documents(), id, p.spec_documents().len() as int, -1);
                    },
                }
            }
            found
        },
    }
}

/// Reports whether the identity is among the given ones.
fn holds_id(ids: &Vec<SourceId>, id: SourceId) -> (r: bool)
    ensures
        r == ids@.contains(id),
{
    let mut k: usize = 0;
    while k < ids.len()
        invariant
            0 <= k <= ids@.len(),
            forall|m: int| 0 <= m < k ==> ids@[m] != id,
        decreases ids@.len() - k,
    {
        if ids[k] == id {
            return true;
        }
        k += 1;
    }
    false
}

/// Merges documents in order, optionally applying their per-file interpolation overlays.
///
/// Passing `None` merges authored values without interpolation; passing a project
/// interpolation applies each document's substitutions before its values take part in the
/// merge. Upstream diagnostics come first, then the interpolation's own, then each document's
/// reports (a missing overlay, a root that is not a mapping, unresolved aliases), then one error
/// per overlay that belongs to no document. The project is the merge of the converted mapping
/// roots, as [`merged_view`] states.
pub fn merge_project(
    documents: Vec<MergeSourceDocument>,
    base_directory: String,
    diagnostics: Vec<Diagnostic>,
    interpolation: Option<&ProjectInterpolation>,
) -> (r: MergeResult)
    ensures
        ({
            let roots = converted_roots(documents@, interpolation_of(interpolation));
            &&& r.spec_project() is Some <==> merged_view(roots, documents@.len()) is Some
            &&& r.spec_project() matches Some(p) ==> p.spec_root() == merged_view(roots, documents@.len())->0
                && p.spec_base_directory() == base_directory@ && p.spec_source_ids() == merged_view_ids(
                roots,
                source_document_ids(documents@),
                documents@.len(),
            )
        }),
        ({
            let upstream = diagnostics@.len();
            let own = match interpolation {
                Some(p) => p.spec_diagnostics().len(),
                None => 0,
            };
            &&& r.spec_diagnostics().len() >= upstream + own
            &&& forall|k: int| 0 <= k < upstream ==> r.spec_diagnostics()[k] == diagnostics@[k]
            &&& interpolation matches Some(p) ==> forall|k: int|
                0 <= k < own ==> same_diagnostic(#[trigger] r.spec_diagnostics()[upstream + k], p.spec_diagnostics()[k])
            &&& follows_reports(
                r.spec_diagnostics(),
                (upstream + own) as int,
                merge_reports(documents@, interpolation_of(interpolation)),
            )
        }),
{
    let ghost src = documents@;
    let ghost interp = interpolation_of(interpolation);
    let ghost upstream = diagnostics@;
    let mut diagnostics = diagnostics;
    match interpolation {
        Some(p) => {
            let own = p.diagnostics();
            let mut k: usize = 0;
            while k < own.len()
                invariant
                    0 <= k <= own@.len(),
                    diagnostics@.len() == upstream.len() + k,
                    forall|m: int| 0 <= m < upstream.len() ==> diagnostics@[m] == upstream[m],
                    forall|m: int| 0 <= m < k ==> same_diagnostic(#[trigger] diagnostics@[upstream.len() + m], own@[m]),
                decreases own@.len() - k,
            {
                diagnostics.push(own[k].duplicate());
                k += 1;
            }
        },
        None => {},
    }
    let ghost own_len: int = match interpolation {
        Some(p) => p.spec_diagnostics().len() as int,
        None => 0,
    };
    assert(diagnostics@.len() == upstream.len() + own_len);
    assert(forall|m: int| 0 <= m < upstream.len() ==> diagnostics@[m] == upstream[m]);
    assert(interpolation matches Some(p) ==> forall|m: int|
        0 <= m < own_len ==> same_diagnostic(#[trigger] diagnostics@[upstream.len() + m], p.spec_diagnostics()[m]));
    let ghost head = diagnostics@;
    let mut documents = documents;
    let mut converted_docs: Vec<MergeDocument> = Vec::new();
    let mut ids: Vec<SourceId> = Vec::new();
    let mut j: usize = 0;
    let _ = documents.len();
    proof {
        assert(documents@ =~= src.subrange(0, src.len() as int));
    }
    while documents.len() > 0
        invariant
            0 <= j <= src.len(),
            src.len() <= usize::MAX,
            documents@ == src.subrange(j as int, src.len() as int),
            interp == interpolation_of(interpolation),
            converted_docs@.len() == j,
            forall|i: int|
                0 <= i < j ==> (#[trigger] converted_docs@[i]).spec_root() == converted_root(src[i], interp)
                    && converted_docs@[i].spec_source_id() == src[i].spec_source_id() && !invalid_root(converted_docs@[i]),
            ids@ == source_document_ids(src).subrange(0, j as int),
            forall|m: int| 0 <= m < head.len() ==> diagnostics@[m] == head[m],
            follows_reports(diagnostics@, head.len() as int, documents_reports(src, interp, j as nat)),
        decreases documents@.len(),
    {
        let document = documents.remove(0);
        proof {
            assert(document == src[j as int]);
            assert(documents@ =~= src.subrange(j + 1, src.len() as int));
        }
        let ghost before = diagnostics@;
        let ghost prior = documents_reports(src, interp, j as nat);
        let MergeSourceDocument { source_id, source_span, root } = document;
        let overlay = find_overlay(interpolation, source_id);
        let missing = interpolation.is_some() && overlay.is_none();
        if missing {
            diagnostics.push(missing_overlay_diagnostic(source_span));
        }
        let ghost mid = diagnostics@;
        let converted_root_value: Option<MergedValue> = match root {
            None => None,
            Some(value) => {
                let is_mapping = match &value {
                    MergeSyntaxValue::Mapping { .. } => true,
                    _ => false,
                };
                if is_mapping {
                    Some(convert_value(value, overlay, &mut diagnostics))
                } else {
                    diagnostics.push(invalid_root_diagnostic(source_span));
                    None
                }
            },
        };
        let next = MergeDocument { source_id, source_span, root: converted_root_value };
        proof {
            let d = src[j as int];
            let reports = document_reports(d, interp);
            assert(documents_reports(src, interp, (j + 1) as nat) == prior + reports);
            let m_len: int = if missing { 1 } else { 0 };
            assert(mid.len() == before.len() + m_len);
            match d.spec_root() {
                Some(v) => {
                    if v is Mapping {
                        let aliases = alias_spans(v);
                        let tail = aliases.map_values(|s: SourceSpan| MergeReport::UnresolvedAlias(s));
                        assert(reports.len() == m_len + tail.len());
                    } else {
                        assert(reports.len() == m_len + 1);
                    }
                },
                None => {
                    assert(reports.len() == m_len);
                },
            }
            assert forall|k: int| 0 <= k < prior.len() + reports.len() implies reports_merge(
                #[trigger] diagnostics@[head.len() + k],
                (prior + reports)[k],
            ) by {
                if k < prior.len() {
                    assert(diagnostics@[head.len() + k] == before[head.len() + k]);
                } else {
                    let q = k - prior.len();
                    if q < m_len {
                        assert(diagnostics@[head.len() + k] == mid[before.len() as int]);
                    } else {
                        let q2 = q - m_len;
                        assert(diagnostics@[head.len() + k] == diagnostics@[mid.len() + q2]);
                    }
                }
            }
            assert(converted_docs@.len() == j);
        }
        converted_docs.push(next);
        ids.push(source_id);
        proof {
            assert(ids@ =~= source_document_ids(src).subrange(0, j + 1));
        }
        j += 1;
    }
    let ghost cdocs = converted_docs@;
    let ghost din = diagnostics@;
    let mut result = merge_documents(converted_docs, base_directory, diagnostics);
    proof {
        lemma_merged_view(cdocs, converted_roots(src, interp), source_document_ids(src), cdocs.len());
        assert(ids@ =~= source_document_ids(src));
        assert(result.diagnostics@ =~= din);
    }
    let ghost after_docs = result.diagnostics@;
    let ghost project = result.project;
    match interpolation {
        Some(p) => {
            let overlays = p.documents();
            let mut k: usize = 0;
            while k < overlays.len()
                invariant
                    0 <= k <= overlays@.len(),
                    overlays@ == p.spec_documents(),
                    ids@ == source_document_ids(src),
                    forall|m: int| 0 <= m < after_docs.len() ==> result.diagnostics@[m] == after_docs[m],
                    result.diagnostics@.len() == after_docs.len() + foreign_reports(overlays@, ids@, k as nat).len(),
                    forall|m: int|
                        0 <= m < foreign_reports(overlays@, ids@, k as nat).len() ==> reports_foreign_overlay(
                            #[trigger] result.diagnostics@[after_docs.len() + m],
                        ),
                    forall|m: int|
                        0 <= m < foreign_reports(overlays@, ids@, k as nat).len() ==> foreign_reports(
                            overlays@,
                            ids@,
                            k as nat,
                        )[m] == MergeReport::ForeignOverlay,
                    result.project == project,
                decreases overlays@.len() - k,
            {
                if !holds_id(&ids, overlays[k].source_id()) {
                    result.diagnostics.push(foreign_overlay_diagnostic());
                }
                k += 1;
            }
        },
        None => {},
    }
    proof {
        let docreps = documents_reports(src, interp, src.len());
        let foreign = match interp {
            Some(p) => foreign_reports(p.spec_documents(), source_document_ids(src), p.spec_documents().len()),
            None => Seq::<MergeReport>::empty(),
        };
        assert(merge_reports(src, interp) == docreps + foreign);
        assert(src.subrange(0, src.len() as int) =~= src);
        assert forall|k: int| 0 <= k < docreps.len() + foreign.len() implies reports_merge(
            #[trigger] result.diagnostics@[head.len() + k],
            (docreps + foreign)[k],
        ) by {
            if k < docreps.len() {
                assert(result.diagnostics@[head.len() + k] == din[head.len() + k]);
            } else {
                assert(result.diagnostics@[head.len() + k] == result.diagnostics@[after_docs.len() + (k - docreps.len())]);
            }
        }
        assert forall|m: int| 0 <= m < head.len() implies result.diagnostics@[m] == head[m] by {
            assert(result.diagnostics@[m] == din[m]);
        }
        match interpolation {
            Some(p) => {
                assert forall|k: int| 0 <= k < own_len implies same_diagnostic(
                    #[trigger] result.diagnostics@[upstream.len() + k],
                    p.spec_diagnostics()[k],
                ) by {
                    assert(result.diagnostics@[upstream.len() + k] == head[upstream.len() + k]);
                    assert(same_diagnostic(head[upstream.len() + k], p.spec_diagnostics()[k]));
                }
            },
            None => {},
        }
    }
    result
}

/// A loaded document is missing its matching per-file interpolation overlay.
pub fn interpolation_project_mismatch() -> (r: crate::diagnostic::DiagnosticCode)
    ensures
        r.text() == "compose.merge.interpolation-project-mismatch"@,
{
    crate::diagnostic::DiagnosticCode::new("compose.merge.interpolation-project-mismatch")
}

/// A document root cannot participate in a Compose project merge.
pub fn invalid_document_root() -> (r: crate::diagnostic::DiagnosticCode)
    ensures
        r.text() == "compose.merge.invalid-document-root"@,
{
    crate::diagnostic::DiagnosticCode::new("compose.merge.invalid-document-root")
}

/// A YAML alias could not be resolved within its source document.
pub fn unresolved_alias() -> (r: crate::diagnostic::DiagnosticCode)
    ensures
        r.text() == "compose.merge.unresolved-alias"@,
{
    crate::diagnostic::DiagnosticCode::new("compose.merge.unresolved-alias")
}

} // verus!
