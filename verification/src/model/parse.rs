//! Typed-model extraction from a document's authored value tree.
//!
//! Parsing never interpolates, applies defaults or normalizes forms. A mapping key authored twice
//! is reported and only its first occurrence is read; `x-` fields are retained as extensions and
//! fields Compose does not define are retained as unknown. Structural problems produce
//! diagnostics in source order and as much typed data as can be recovered.

use crate::diagnostic::{Diagnostic, DiagnosticCode, DiagnosticLabel, LabelKind, Severity};
use crate::merge::{MergeScalarKind, MergeSyntaxEntry, MergeSyntaxScalar, MergeSyntaxValue};
use crate::model::command::Command;
use crate::model::dependency::{DependencyCondition, DependsOn, ServiceDependency};
use crate::model::hostname::{hostname_ok, Hostname, HostnameKind};
use crate::model::document::{ComposeDocument, ModelParse, Service};
use crate::model::identity::{UserNamespaceMode, UserSpec};
use crate::model::image::ImageReference;
use crate::model::lifecycle::{grace_period, StopGracePeriod};
use crate::model::resource::{ConfigDefinition, SecretDefinition};
use crate::model::restart::{with_retries, RestartPolicy};
use crate::model::value::BooleanValue;
use crate::model::{lb, lc, FieldReference, Located};
use crate::source::{SourceId, SourceSpan};
use crate::text::{bytes, contains_dollar, owned, sb, str_eq};
use vstd::prelude::*;

verus! {

/// The text of an entry's key.
pub open spec fn key_text(e: MergeSyntaxEntry) -> Seq<char> {
    e.spec_key().spec_value()@
}

/// The span of an entry's key.
pub open spec fn key_span(e: MergeSyntaxEntry) -> SourceSpan {
    e.spec_key().spec_span()
}

/// The span of an authored value.
pub open spec fn node_span(v: MergeSyntaxValue) -> SourceSpan {
    match v {
        MergeSyntaxValue::Empty(span) => span,
        MergeSyntaxValue::Scalar(s) => s.spec_span(),
        MergeSyntaxValue::Mapping { span, .. } => span,
        MergeSyntaxValue::Sequence { span, .. } => span,
        MergeSyntaxValue::Alias { span, .. } => span,
        MergeSyntaxValue::Tagged { span, .. } => span,
    }
}

/// A value under a `!reset` or `!override` tag is read as the value it tags.
pub open spec fn untagged(v: MergeSyntaxValue) -> MergeSyntaxValue {
    match v {
        MergeSyntaxValue::Tagged { tag, value, .. } => if tag@ == "!reset"@ || tag@ == "!override"@ {
            *value
        } else {
            v
        },
        _ => v,
    }
}

/// The value an entry supplies, if it has one.
pub open spec fn field_value(e: MergeSyntaxEntry) -> Option<MergeSyntaxValue> {
    match e.spec_value() {
        MergeSyntaxValue::Empty(_) => None,
        v => Some(untagged(v)),
    }
}

/// The span of the value an entry supplies, if it has one.
pub open spec fn field_value_span(e: MergeSyntaxEntry) -> Option<SourceSpan> {
    match e.spec_value() {
        MergeSyntaxValue::Empty(_) => None,
        v => Some(node_span(v)),
    }
}

/// The span of a whole entry: its key, joined with its value when it has one.
pub open spec fn field_span(e: MergeSyntaxEntry) -> SourceSpan {
    match field_value_span(e) {
        Some(vs) => key_span(e).spec_union(vs),
        None => key_span(e),
    }
}

/// The reference an extension or unknown entry is retained as.
pub open spec fn field_reference(e: MergeSyntaxEntry) -> FieldReference {
    FieldReference::spec_new(e.spec_key(), field_span(e), field_value_span(e))
}

/// A key that names an extension field: it starts with `x-`.
pub open spec fn extension_name(name: Seq<char>) -> bool {
    sb(name).len() >= 2 && sb(name)[0] == 120u8 && sb(name)[1] == 45u8
}

/// The first of the first `n` entries whose key is `name`, or -1.
pub open spec fn first_key(entries: Seq<MergeSyntaxEntry>, name: Seq<char>, n: int) -> int
    decreases n,
{
    if n <= 0 {
        -1
    } else if first_key(entries, name, n - 1) >= 0 {
        first_key(entries, name, n - 1)
    } else if key_text(entries[n - 1]) == name {
        n - 1
    } else {
        -1
    }
}

/// The earlier entry that entry `i` repeats the key of, or -1.
pub open spec fn repeated(entries: Seq<MergeSyntaxEntry>, i: int) -> int {
    first_key(entries, key_text(entries[i]), i)
}

/// The first entry whose key is `name`, if any: the one that is read.
pub open spec fn named_entry(entries: Seq<MergeSyntaxEntry>, name: Seq<char>, n: int) -> Option<MergeSyntaxEntry> {
    if first_key(entries, name, n) >= 0 {
        Some(entries[first_key(entries, name, n)])
    } else {
        None
    }
}

/// One problem the typed parse reports.
pub enum ParseReport {
    /// A key repeats the key at `first`.
    Duplicate { at: SourceSpan, first: SourceSpan },
    /// A field's value has the wrong form.
    Unexpected { code: Seq<char>, message: Seq<char>, span: SourceSpan },
    /// A sequence item has the wrong form.
    Unsupported { code: Seq<char>, message: Seq<char>, span: SourceSpan },
    /// A scalar is neither a boolean nor an interpolation expression.
    NotBoolean { message: Seq<char>, span: SourceSpan },
    /// The document root is missing or is not a mapping.
    RootType { label: Seq<char>, span: SourceSpan },
    /// The source holds more than one document.
    MultipleDocuments(SourceSpan),
    /// A dependency condition Compose does not define.
    UnknownCondition(SourceSpan),
    /// A hostname outside the RFC-1123 grammar.
    InvalidHostname(SourceSpan),
    /// A value outside its field's grammar.
    Invalid { code: Seq<char>, message: Seq<char>, label: Seq<char>, span: SourceSpan },
}

/// The single primary label of a diagnostic.
pub open spec fn primary_only(d: Diagnostic, span: SourceSpan, label: Seq<char>) -> bool {
    &&& d.spec_labels().len() == 1
    &&& d.spec_labels()[0].spec_kind() == LabelKind::Primary
    &&& d.spec_labels()[0].spec_span() == span
    &&& d.spec_labels()[0].spec_message() == label
}

/// `d` is the error diagnostic for the report.
pub open spec fn reports_parse(d: Diagnostic, r: ParseReport) -> bool {
    &&& d.spec_severity() == Severity::Error
    &&& (r is InvalidHostname || d.spec_notes().len() == 0)
    &&& match r {
        ParseReport::Duplicate { at, first } => {
            &&& d.spec_code().text() == "compose.model.duplicate-field"@
            &&& d.spec_message() == "Compose mapping fields must be unique"@
            &&& d.spec_labels().len() == 2
            &&& d.spec_labels()[0].spec_kind() == LabelKind::Primary
            &&& d.spec_labels()[0].spec_span() == at
            &&& d.spec_labels()[0].spec_message() == "duplicate field"@
            &&& d.spec_labels()[1].spec_kind() == LabelKind::Secondary
            &&& d.spec_labels()[1].spec_span() == first
            &&& d.spec_labels()[1].spec_message() == "first field"@
        },
        ParseReport::Unexpected { code, message, span } => {
            &&& d.spec_code().text() == code
            &&& d.spec_message() == message
            &&& primary_only(d, span, "unexpected value form"@)
        },
        ParseReport::Unsupported { code, message, span } => {
            &&& d.spec_code().text() == code
            &&& d.spec_message() == message
            &&& primary_only(d, span, "unsupported value form"@)
        },
        ParseReport::NotBoolean { message, span } => {
            &&& d.spec_code().text() == "compose.model.expected-boolean"@
            &&& d.spec_message() == message
            &&& primary_only(d, span, "not a boolean expression"@)
        },
        ParseReport::RootType { label, span } => {
            &&& d.spec_code().text() == "compose.document.expected-mapping"@
            &&& d.spec_message() == "Compose document root must be a mapping"@
            &&& primary_only(d, span, label)
        },
        ParseReport::MultipleDocuments(span) => {
            &&& d.spec_code().text() == "compose.document.multiple-documents"@
            &&& d.spec_message() == "Compose input must contain one YAML document"@
            &&& primary_only(d, span, "multiple YAML documents"@)
        },
        ParseReport::UnknownCondition(span) => {
            &&& d.spec_code().text() == "compose.dependencies.invalid-condition"@
            &&& d.spec_message() == "dependency condition is not defined by Compose"@
            &&& primary_only(d, span, "unknown dependency condition"@)
        },
        ParseReport::Invalid { code, message, label, span } => {
            &&& d.spec_code().text() == code
            &&& d.spec_message() == message
            &&& primary_only(d, span, label)
        },
        ParseReport::InvalidHostname(span) => {
            &&& d.spec_code().text() == "compose.hostname.invalid-value"@
            &&& d.spec_message()
                == "hostname must be an ASCII RFC-1123 name of 1 to 253 characters with dot-separated labels of 1 to 63 alphanumeric or hyphen characters"@
            &&& primary_only(d, span, "invalid service hostname"@)
            &&& d.spec_notes().len() == 1
            &&& d.spec_notes()[0]@ == "each label must start and end with an ASCII letter or digit"@
        },
    }
}

/// From position `from` on, the diagnostics are exactly those of the reports, in order.
pub open spec fn reports_from(diags: Seq<Diagnostic>, from: int, rs: Seq<ParseReport>) -> bool {
    &&& diags.len() == from + rs.len()
    &&& forall|i: int| 0 <= i < rs.len() ==> reports_parse(#[trigger] diags[from + i], rs[i])
}

/// Diagnostics before position `n` are unchanged.
pub open spec fn keeps(after: Seq<Diagnostic>, before: Seq<Diagnostic>) -> bool {
    &&& after.len() >= before.len()
    &&& forall|k: int| 0 <= k < before.len() ==> after[k] == before[k]
}

proof fn lemma_reports_chain(d1: Seq<Diagnostic>, d2: Seq<Diagnostic>, from: int, r1: Seq<ParseReport>, r2: Seq<ParseReport>)
    requires
        0 <= from,
        reports_from(d1, from, r1),
        reports_from(d2, d1.len() as int, r2),
        keeps(d2, d1),
    ensures
        reports_from(d2, from, r1 + r2),
{
    assert forall|i: int| 0 <= i < (r1 + r2).len() implies reports_parse(#[trigger] d2[from + i], (r1 + r2)[i]) by {
        if i < r1.len() {
            assert(d2[from + i] == d1[from + i]);
        } else {
            assert(d2[d1.len() + (i - r1.len())] == d2[from + i]);
        }
    }
}

/// Builds a diagnostic with one primary label.
fn labelled(code: &'static str, message: String, span: SourceSpan, label: &'static str) -> (d: Diagnostic)
    ensures
        d.spec_code().text() == code@,
        d.spec_severity() == Severity::Error,
        d.spec_message() == message@,
        d.spec_notes().len() == 0,
        primary_only(d, span, label@),
{
    Diagnostic::new(DiagnosticCode::new(code), Severity::Error, message).with_label(DiagnosticLabel::primary(span, owned(label)))
}

/// A description followed by a fixed phrase.
fn phrase(description: &str, suffix: &str) -> (r: String)
    ensures
        r@ == description@ + suffix@,
{
    let mut text = owned(description);
    text.append(suffix);
    text
}

/// Reports a key that repeats an earlier key.
fn push_duplicate(diags: &mut Vec<Diagnostic>, at: SourceSpan, first: SourceSpan)
    ensures
        final(diags)@ == old(diags)@.push(final(diags)@.last()),
        reports_parse(final(diags)@.last(), ParseReport::Duplicate { at, first }),
{
    diags.push(
        Diagnostic::new(
            DiagnosticCode::new("compose.model.duplicate-field"),
            Severity::Error,
            owned("Compose mapping fields must be unique"),
        ).with_label(DiagnosticLabel::primary(at, owned("duplicate field"))).with_label(
            DiagnosticLabel::secondary(first, owned("first field")),
        ),
    );
}

/// Reports a field value of the wrong form.
fn push_unexpected(diags: &mut Vec<Diagnostic>, code: &'static str, message: String, span: SourceSpan)
    ensures
        final(diags)@ == old(diags)@.push(final(diags)@.last()),
        reports_parse(final(diags)@.last(), ParseReport::Unexpected { code: code@, message: message@, span }),
{
    diags.push(labelled(code, message, span, "unexpected value form"));
}

/// Returns the value under a `!reset` or `!override` tag, or the value itself.
fn untag(v: &MergeSyntaxValue) -> (r: &MergeSyntaxValue)
    ensures
        *r == untagged(*v),
{
    match v {
        MergeSyntaxValue::Tagged { tag, value, .. } => {
            if str_eq(tag.as_str(), "!reset") || str_eq(tag.as_str(), "!override") {
                &**value
            } else {
                v
            }
        },
        _ => v,
    }
}

/// Returns the span of an authored value.
fn span_of(v: &MergeSyntaxValue) -> (r: SourceSpan)
    ensures
        r == node_span(*v),
{
    match v {
        MergeSyntaxValue::Empty(span) => *span,
        MergeSyntaxValue::Scalar(s) => s.span(),
        MergeSyntaxValue::Mapping { span, .. } => *span,
        MergeSyntaxValue::Sequence { span, .. } => *span,
        MergeSyntaxValue::Alias { span, .. } => *span,
        MergeSyntaxValue::Tagged { span, .. } => *span,
    }
}

/// Returns the value an entry supplies, if it has one.
fn value_of(e: &MergeSyntaxEntry) -> (r: Option<&MergeSyntaxValue>)
    ensures
        r is None <==> field_value(*e) is None,
        r matches Some(v) ==> field_value(*e) == Some(*v),
{
    match e.value() {
        MergeSyntaxValue::Empty(_) => None,
        v => Some(untag(v)),
    }
}

/// Returns the span of a whole entry.
fn span_of_field(e: &MergeSyntaxEntry) -> (r: SourceSpan)
    ensures
        r == field_span(*e),
{
    match e.value() {
        MergeSyntaxValue::Empty(_) => e.key().span(),
        v => e.key().span().union(span_of(v)),
    }
}

/// Returns the reference an extension or unknown entry is retained as.
fn reference_of(e: &MergeSyntaxEntry) -> (r: FieldReference)
    ensures
        r == field_reference(*e),
{
    let value_span = match e.value() {
        MergeSyntaxValue::Empty(_) => None,
        v => Some(span_of(v)),
    };
    FieldReference::new(e.key().duplicate(), span_of_field(e), value_span)
}

/// Reports whether a key names an extension field.
fn is_extension_name(name: &str) -> (r: bool)
    ensures
        r == extension_name(name@),
{
    let b = bytes(name);
    b.len() >= 2 && b[0] == 120u8 && b[1] == 45u8
}

/// Finds the earlier entry that entry `i` repeats the key of.
fn find_repeated(entries: &[MergeSyntaxEntry], i: usize) -> (r: Option<usize>)
    requires
        i < entries@.len(),
    ensures
        r is None <==> repeated(entries@, i as int) == -1,
        r matches Some(k) ==> k as int == repeated(entries@, i as int) && k < i,
{
    let name = entries[i].key().value().as_str();
    let mut j: usize = 0;
    while j < i
        invariant
            0 <= j <= i < entries@.len(),
            name@ == key_text(entries@[i as int]),
            first_key(entries@, name@, j as int) == -1,
        decreases i - j,
    {
        if str_eq(entries[j].key().value().as_str(), name) {
            proof {
                lemma_first_key_stable(entries@, name@, j + 1, i as int);
            }
            return Some(j);
        }
        j += 1;
    }
    None
}

proof fn lemma_first_key_stable(entries: Seq<MergeSyntaxEntry>, name: Seq<char>, m: int, n: int)
    requires
        0 <= m <= n,
        first_key(entries, name, m) >= 0,
    ensures
        first_key(entries, name, n) == first_key(entries, name, m),
    decreases n - m,
{
    if n > m {
        lemma_first_key_stable(entries, name, m, n - 1);
    }
}

proof fn lemma_first_key_bound(entries: Seq<MergeSyntaxEntry>, name: Seq<char>, n: int)
    requires
        0 <= n,
    ensures
        -1 <= first_key(entries, name, n) < n,
        first_key(entries, name, n) >= 0 ==> key_text(entries[first_key(entries, name, n)]) == name,
    decreases n,
{
    if n > 0 {
        lemma_first_key_bound(entries, name, n - 1);
    }
}

/// The text a string field reads: a non-null scalar's plain value at its span.
pub open spec fn string_of(e: MergeSyntaxEntry) -> Option<Located<String>> {
    match field_value(e) {
        Some(MergeSyntaxValue::Scalar(s)) => if s.spec_kind() != MergeScalarKind::Null {
            Some(Located::spec_new(s.spec_text(), s.spec_span()))
        } else {
            None
        },
        _ => None,
    }
}

/// What reading a string field reports.
pub open spec fn string_reports(e: MergeSyntaxEntry, description: Seq<char>) -> Seq<ParseReport> {
    match field_value(e) {
        Some(MergeSyntaxValue::Scalar(s)) => if s.spec_kind() != MergeScalarKind::Null {
            Seq::empty()
        } else {
            seq![
                ParseReport::Unexpected {
                    code: "compose.model.expected-scalar"@,
                    message: description + " must be a non-null scalar"@,
                    span: field_span(e),
                },
            ]
        },
        _ => seq![
            ParseReport::Unexpected {
                code: "compose.model.expected-scalar"@,
                message: description + " must be a scalar"@,
                span: field_span(e),
            },
        ],
    }
}

/// Reads a string field.
fn parse_string(e: &MergeSyntaxEntry, description: &str, diags: &mut Vec<Diagnostic>) -> (r: Option<Located<String>>)
    ensures
        r == string_of(*e),
        keeps(final(diags)@, old(diags)@),
        reports_from(final(diags)@, old(diags)@.len() as int, string_reports(*e, description@)),
{
    match value_of(e) {
        Some(MergeSyntaxValue::Scalar(s)) => {
            if s.kind() != MergeScalarKind::Null {
                Some(Located::new(s.text().clone(), s.span()))
            } else {
                push_unexpected(diags, "compose.model.expected-scalar", phrase(description, " must be a non-null scalar"), span_of_field(e));
                None
            }
        },
        _ => {
            push_unexpected(diags, "compose.model.expected-scalar", phrase(description, " must be a scalar"), span_of_field(e));
            None
        },
    }
}

/// The spellings of a true YAML boolean.
pub open spec fn true_spelling(t: Seq<char>) -> bool {
    t == "true"@ || t == "True"@ || t == "TRUE"@
}

/// The value a boolean field reads: a boolean scalar as a literal, or a scalar holding `$` as a
/// deferred expression.
pub open spec fn boolean_of(e: MergeSyntaxEntry) -> Option<Located<BooleanValue>> {
    match field_value(e) {
        Some(MergeSyntaxValue::Scalar(s)) => if s.spec_kind() == MergeScalarKind::Boolean {
            Some(Located::spec_new(BooleanValue::Literal(true_spelling(s.spec_value())), s.spec_span()))
        } else if s.spec_value().contains('$') {
            Some(Located::spec_new(BooleanValue::Expression(s.spec_text()), s.spec_span()))
        } else {
            None
        },
        _ => None,
    }
}

/// What reading a boolean field reports.
pub open spec fn boolean_reports(e: MergeSyntaxEntry, description: Seq<char>) -> Seq<ParseReport> {
    match field_value(e) {
        Some(MergeSyntaxValue::Scalar(s)) => if s.spec_kind() == MergeScalarKind::Boolean || s.spec_value().contains('$') {
            Seq::empty()
        } else {
            seq![
                ParseReport::NotBoolean {
                    message: description + " must be a boolean or interpolation expression"@,
                    span: s.spec_span(),
                },
            ]
        },
        _ => seq![
            ParseReport::Unexpected {
                code: "compose.model.expected-boolean"@,
                message: description + " must be a boolean"@,
                span: field_span(e),
            },
        ],
    }
}

/// Reports whether a scalar spells a true boolean.
fn is_true_spelling(t: &str) -> (r: bool)
    ensures
        r == true_spelling(t@),
{
    str_eq(t, "true") || str_eq(t, "True") || str_eq(t, "TRUE")
}

/// Reads a boolean field.
fn parse_boolean(e: &MergeSyntaxEntry, description: &str, diags: &mut Vec<Diagnostic>) -> (r: Option<Located<BooleanValue>>)
    ensures
        r == boolean_of(*e),
        keeps(final(diags)@, old(diags)@),
        reports_from(final(diags)@, old(diags)@.len() as int, boolean_reports(*e, description@)),
{
    match value_of(e) {
        Some(MergeSyntaxValue::Scalar(s)) => {
            if s.kind() == MergeScalarKind::Boolean {
                Some(Located::new(BooleanValue::Literal(is_true_spelling(s.value())), s.span()))
            } else if contains_dollar(s.value()) {
                Some(Located::new(BooleanValue::Expression(s.text().clone()), s.span()))
            } else {
                diags.push(
                    labelled(
                        "compose.model.expected-boolean",
                        phrase(description, " must be a boolean or interpolation expression"),
                        s.span(),
                        "not a boolean expression",
                    ),
                );
                None
            }
        },
        _ => {
            push_unexpected(diags, "compose.model.expected-boolean", phrase(description, " must be a boolean"), span_of_field(e));
            None
        },
    }
}

/// The texts of the non-null scalar items among the first `n` items, in order.
pub open spec fn scalar_items(values: Seq<MergeSyntaxValue>, n: int) -> Seq<Located<String>>
    decreases n,
{
    if n <= 0 {
        Seq::empty()
    } else {
        let p = scalar_items(values, n - 1);
        match values[n - 1] {
            MergeSyntaxValue::Scalar(s) => if s.spec_kind() != MergeScalarKind::Null {
                p.push(Located::spec_new(s.spec_text(), s.spec_span()))
            } else {
                p
            },
            _ => p,
        }
    }
}

/// One report per item among the first `n` that is not a non-null scalar.
pub open spec fn scalar_item_reports(values: Seq<MergeSyntaxValue>, n: int, message: Seq<char>) -> Seq<ParseReport>
    decreases n,
{
    if n <= 0 {
        Seq::empty()
    } else {
        let p = scalar_item_reports(values, n - 1, message);
        let bad = ParseReport::Unsupported { code: "compose.model.expected-scalar"@, message, span: node_span(values[n - 1]) };
        match values[n - 1] {
            MergeSyntaxValue::Scalar(s) => if s.spec_kind() != MergeScalarKind::Null {
                p
            } else {
                p.push(bad)
            },
            _ => p.push(bad),
        }
    }
}

/// Reads the scalar items of a sequence, reporting every other item.
fn parse_scalar_items(values: &Vec<MergeSyntaxValue>, message: &str, diags: &mut Vec<Diagnostic>) -> (r: Vec<Located<String>>)
    ensures
        r@ == scalar_items(values@, values@.len() as int),
        keeps(final(diags)@, old(diags)@),
        reports_from(final(diags)@, old(diags)@.len() as int, scalar_item_reports(values@, values@.len() as int, message@)),
{
    let ghost d0 = diags@;
    let mut out: Vec<Located<String>> = Vec::new();
    let mut i: usize = 0;
    while i < values.len()
        invariant
            0 <= i <= values@.len(),
            out@ == scalar_items(values@, i as int),
            keeps(diags@, d0),
            reports_from(diags@, d0.len() as int, scalar_item_reports(values@, i as int, message@)),
        decreases values@.len() - i,
    {
        let ghost before = diags@;
        let ghost rs = scalar_item_reports(values@, i as int, message@);
        let good = match &values[i] {
            MergeSyntaxValue::Scalar(s) => s.kind() != MergeScalarKind::Null,
            _ => false,
        };
        if good {
            match &values[i] {
                MergeSyntaxValue::Scalar(s) => {
                    out.push(Located::new(s.text().clone(), s.span()));
                },
                _ => {},
            }
        } else {
            diags.push(labelled("compose.model.expected-scalar", owned(message), span_of(&values[i]), "unsupported value form"));
            proof {
                assert(rs.push(scalar_item_reports(values@, i + 1, message@).last()) == scalar_item_reports(values@, i + 1, message@));
                assert forall|k: int| 0 <= k < scalar_item_reports(values@, i + 1, message@).len() implies reports_parse(
                    #[trigger] diags@[d0.len() + k],
                    scalar_item_reports(values@, i + 1, message@)[k],
                ) by {
                    if k < rs.len() {
                        assert(diags@[d0.len() + k] == before[d0.len() + k]);
                    }
                }
            }
        }
        i += 1;
    }
    out
}

/// The texts a string-sequence field reads.
pub open spec fn string_sequence_of(e: MergeSyntaxEntry) -> Seq<Located<String>> {
    match field_value(e) {
        Some(MergeSyntaxValue::Sequence { values, .. }) => scalar_items(values@, values@.len() as int),
        _ => Seq::empty(),
    }
}

/// What reading a string-sequence field reports.
pub open spec fn string_sequence_reports(e: MergeSyntaxEntry, description: Seq<char>) -> Seq<ParseReport> {
    match field_value(e) {
        Some(MergeSyntaxValue::Sequence { values, .. }) => scalar_item_reports(
            values@,
            values@.len() as int,
            description + " entries must be scalars"@,
        ),
        _ => seq![
            ParseReport::Unexpected {
                code: "compose.model.expected-sequence"@,
                message: description + " must be a sequence"@,
                span: field_span(e),
            },
        ],
    }
}

/// Reads a string-sequence field.
fn parse_string_sequence(e: &MergeSyntaxEntry, description: &str, diags: &mut Vec<Diagnostic>) -> (r: Vec<Located<String>>)
    ensures
        r@ == string_sequence_of(*e),
        keeps(final(diags)@, old(diags)@),
        reports_from(final(diags)@, old(diags)@.len() as int, string_sequence_reports(*e, description@)),
{
    match value_of(e) {
        Some(MergeSyntaxValue::Sequence { values, .. }) => {
            let message = phrase(description, " entries must be scalars");
            parse_scalar_items(values, message.as_str(), diags)
        },
        _ => {
            push_unexpected(diags, "compose.model.expected-sequence", phrase(description, " must be a sequence"), span_of_field(e));
            Vec::new()
        },
    }
}


/// A condition classified from its text.
pub open spec fn condition_parsed(c: DependencyCondition, text: String) -> bool {
    &&& text@ == "service_started"@ ==> c is ServiceStarted
    &&& (c is ServiceStarted) ==> text@ == "service_started"@
    &&& (c is ServiceHealthy) ==> text@ == "service_healthy"@
    &&& (c is ServiceCompletedSuccessfully) ==> text@ == "service_completed_successfully"@
    &&& (c is Other) <==> text@ != "service_started"@ && text@ != "service_healthy"@ && text@
        != "service_completed_successfully"@
    &&& c matches DependencyCondition::Other(s) ==> s == text
}

/// A condition Compose defines.
pub open spec fn known_condition(text: Seq<char>) -> bool {
    text == "service_started"@ || text == "service_healthy"@ || text == "service_completed_successfully"@
}

/// A condition read from a string: classified from the text, at the text's span.
pub open spec fn condition_read(c: Option<Located<DependencyCondition>>, text: Option<Located<String>>) -> bool {
    match text {
        Some(t) => c matches Some(x) && x.spec_span() == t.spec_span() && condition_parsed(x.spec_value(), t.spec_value()),
        None => c is None,
    }
}

/// The option names a long dependency can hold.
pub open spec fn option_known(name: Seq<char>) -> bool {
    name == "condition"@ || name == "restart"@ || name == "required"@
}

/// The references of the first `n` options of a dependency that Compose does not define.
pub open spec fn option_unknown_refs(options: Seq<MergeSyntaxEntry>, n: int) -> Seq<FieldReference>
    decreases n,
{
    if n <= 0 {
        Seq::empty()
    } else if repeated(options, n - 1) == -1 && !extension_name(key_text(options[n - 1])) && !option_known(
        key_text(options[n - 1]),
    ) {
        option_unknown_refs(options, n - 1).push(field_reference(options[n - 1]))
    } else {
        option_unknown_refs(options, n - 1)
    }
}

/// What reading one dependency option reports.
pub open spec fn option_field_reports(o: MergeSyntaxEntry) -> Seq<ParseReport> {
    if key_text(o) == "condition"@ {
        string_reports(o, "dependency condition"@) + match string_of(o) {
            Some(t) => if known_condition(t.spec_value()@) {
                Seq::empty()
            } else {
                seq![ParseReport::UnknownCondition(t.spec_span())]
            },
            None => Seq::empty(),
        }
    } else if key_text(o) == "restart"@ {
        boolean_reports(o, "dependency restart"@)
    } else if key_text(o) == "required"@ {
        boolean_reports(o, "dependency required"@)
    } else {
        Seq::empty()
    }
}

/// What reading the first `n` options of a dependency reports, in order.
pub open spec fn option_reports(options: Seq<MergeSyntaxEntry>, n: int) -> Seq<ParseReport>
    decreases n,
{
    if n <= 0 {
        Seq::empty()
    } else {
        option_reports(options, n - 1) + if repeated(options, n - 1) >= 0 {
            seq![ParseReport::Duplicate { at: key_span(options[n - 1]), first: key_span(options[repeated(options, n - 1)]) }]
        } else {
            option_field_reports(options[n - 1])
        }
    }
}

/// A dependency holds what its first `n` options read.
pub open spec fn options_read(d: ServiceDependency, options: Seq<MergeSyntaxEntry>, n: int) -> bool {
    &&& condition_read(d.spec_condition(), string_field(options, "condition"@, n))
    &&& d.spec_restart() == boolean_field(options, "restart"@, n)
    &&& d.spec_required() == boolean_field(options, "required"@, n)
    &&& d.spec_extension_fields() == extension_refs(options, n)
    &&& d.spec_unknown_fields() == option_unknown_refs(options, n)
}

/// The names of dependency options, by length and first character.
proof fn lemma_option_names()
    ensures
        "condition"@.len() == 9,
        "restart"@.len() == 7,
        "required"@.len() == 8,
        "restart"@[2] == 's',
        "required"@[2] == 'q',
{
    reveal_strlit("condition");
    reveal_strlit("restart");
    reveal_strlit("required");
}

/// Reads the options of one long dependency, in order.
fn parse_dependency_options(dependency: &mut ServiceDependency, options: &Vec<MergeSyntaxEntry>, diags: &mut Vec<Diagnostic>)
    requires
        options_read(*old(dependency), options@, 0),
    ensures
        options_read(*final(dependency), options@, options@.len() as int),
        final(dependency).spec_service() == old(dependency).spec_service(),
        final(dependency).spec_span() == old(dependency).spec_span(),
        keeps(final(diags)@, old(diags)@),
        reports_from(final(diags)@, old(diags)@.len() as int, option_reports(options@, options@.len() as int)),
{
    let ghost d0 = diags@;
    let ghost dep0 = *dependency;
    let mut i: usize = 0;
    proof {
        assert(diags@.len() == d0.len() + option_reports(options@, 0).len());
    }
    while i < options.len()
        invariant
            0 <= i <= options@.len(),
            options_read(*dependency, options@, i as int),
            dependency.spec_service() == dep0.spec_service(),
            dependency.spec_span() == dep0.spec_span(),
            keeps(diags@, d0),
            reports_from(diags@, d0.len() as int, option_reports(options@, i as int)),
        decreases options@.len() - i,
    {
        let ghost d_before = diags@;
        let o = &options[i];
        let key = o.key().value().as_str();
        let repeated_at = find_repeated(options.as_slice(), i);
        proof {
            lemma_option_names();
            lemma_named_step(options@, "condition"@, i as int);
            lemma_named_step(options@, "restart"@, i as int);
            lemma_named_step(options@, "required"@, i as int);
        }
        match repeated_at {
            Some(k) => {
                push_duplicate(diags, o.key().span(), options[k].key().span());
                proof {
                    assert(reports_from(
                        diags@,
                        d_before.len() as int,
                        seq![ParseReport::Duplicate { at: key_span(options@[i as int]), first: key_span(options@[k as int]) }],
                    ));
                }
            },
            None => {
                if str_eq(key, "condition") {
                    let ghost d_a = diags@;
                    match parse_string(o, "dependency condition", diags) {
                        Some(value) => {
                            let ghost d_b = diags@;
                            let span = value.span();
                            let condition = DependencyCondition::parse(value.into_value());
                            if !condition.is_known() {
                                diags.push(labelled(
                                    "compose.dependencies.invalid-condition",
                                    owned("dependency condition is not defined by Compose"),
                                    span,
                                    "unknown dependency condition",
                                ));
                            }
                            proof {
                                reveal_strlit("service_started");
                                reveal_strlit("service_healthy");
                                reveal_strlit("service_completed_successfully");
                                let extra = match string_of(*o) {
                                    Some(t) => if known_condition(t.spec_value()@) {
                                        Seq::<ParseReport>::empty()
                                    } else {
                                        seq![ParseReport::UnknownCondition(t.spec_span())]
                                    },
                                    None => Seq::empty(),
                                };
                                assert(reports_from(diags@, d_b.len() as int, extra));
                                lemma_reports_chain(d_b, diags@, d_a.len() as int, string_reports(*o, "dependency condition"@), extra);
                            }
                            dependency.set_condition(Located::new(condition, span));
                        },
                        None => {
                            proof {
                                assert(string_reports(*o, "dependency condition"@) + Seq::<ParseReport>::empty() =~= string_reports(
                                    *o,
                                    "dependency condition"@,
                                ));
                            }
                        },
                    }
                } else if str_eq(key, "restart") {
                    match parse_boolean(o, "dependency restart", diags) {
                        Some(v) => dependency.set_restart(v),
                        None => {},
                    }
                } else if str_eq(key, "required") {
                    match parse_boolean(o, "dependency required", diags) {
                        Some(v) => dependency.set_required(v),
                        None => {},
                    }
                }
            },
        }
        if is_extension_name(key) {
            dependency.push_extension(reference_of(o));
        } else if repeated_at.is_none() && !(str_eq(key, "condition") || str_eq(key, "restart") || str_eq(key, "required")) {
            dependency.push_unknown(reference_of(o));
        }
        proof {
            lemma_reports_chain(
                d_before,
                diags@,
                d0.len() as int,
                option_reports(options@, i as int),
                if repeated(options@, i as int) >= 0 {
                    seq![ParseReport::Duplicate { at: key_span(options@[i as int]), first: key_span(options@[repeated(options@, i as int)]) }]
                } else {
                    option_field_reports(options@[i as int])
                },
            );
        }
        i += 1;
    }
}

/// An entry without a value, or with a null scalar.
pub open spec fn field_is_null(e: MergeSyntaxEntry) -> bool {
    match field_value(e) {
        None => true,
        Some(MergeSyntaxValue::Scalar(s)) => s.spec_kind() == MergeScalarKind::Null,
        _ => false,
    }
}

/// A dependency read from an entry: named by its key, spanning the entry, holding what its
/// options read.
pub open spec fn dependency_from(d: ServiceDependency, e: MergeSyntaxEntry) -> bool {
    &&& d.spec_service() == e.spec_key()
    &&& d.spec_span() == field_span(e)
    &&& if field_is_null(e) {
        options_read(d, Seq::empty(), 0)
    } else {
        field_value(e) matches Some(MergeSyntaxValue::Mapping { entries, .. }) && options_read(d, entries@, entries@.len() as int)
    }
}

/// The entries among the first `n` of a mapping that give an item (a dependency or a
/// definition): not repeated, and null or a mapping of options.
pub open spec fn defining_entries(entries: Seq<MergeSyntaxEntry>, n: int) -> Seq<MergeSyntaxEntry>
    decreases n,
{
    if n <= 0 {
        Seq::empty()
    } else if repeated(entries, n - 1) == -1 && (field_is_null(entries[n - 1]) || field_value(entries[n - 1]) matches Some(
        MergeSyntaxValue::Mapping { .. },
    )) {
        defining_entries(entries, n - 1).push(entries[n - 1])
    } else {
        defining_entries(entries, n - 1)
    }
}

/// What reading the first `n` entries of a long `depends_on` reports, in order.
pub open spec fn dependency_reports(entries: Seq<MergeSyntaxEntry>, n: int) -> Seq<ParseReport>
    decreases n,
{
    if n <= 0 {
        Seq::empty()
    } else {
        let e = entries[n - 1];
        dependency_reports(entries, n - 1) + if repeated(entries, n - 1) >= 0 {
            seq![ParseReport::Duplicate { at: key_span(e), first: key_span(entries[repeated(entries, n - 1)]) }]
        } else if field_is_null(e) {
            Seq::empty()
        } else {
            match field_value(e) {
                Some(MergeSyntaxValue::Mapping { entries: options, .. }) => option_reports(options@, options@.len() as int),
                _ => seq![
                    ParseReport::Unexpected {
                        code: "compose.model.expected-mapping"@,
                        message: "long dependency options must be a mapping or null"@,
                        span: field_span(e),
                    },
                ],
            }
        }
    }
}

/// The dependencies read from the first `n` entries of a long `depends_on`.
pub open spec fn dependencies_read(deps: Seq<ServiceDependency>, entries: Seq<MergeSyntaxEntry>, n: int) -> bool {
    &&& deps.len() == defining_entries(entries, n).len()
    &&& forall|j: int| 0 <= j < deps.len() ==> dependency_from(#[trigger] deps[j], defining_entries(entries, n)[j])
}

/// A `depends_on` value read from an entry: a list of names, or a mapping of dependencies.
pub open spec fn depends_on_read(d: Option<DependsOn>, e: MergeSyntaxEntry) -> bool {
    match field_value(e) {
        Some(MergeSyntaxValue::Sequence { values, span }) => d matches Some(DependsOn::Short { span: s, services }) && s
            == span && services@ == scalar_items(values@, values@.len() as int),
        Some(MergeSyntaxValue::Mapping { entries, span }) => d matches Some(DependsOn::Long { span: s, services }) && s
            == span && dependencies_read(services@, entries@, entries@.len() as int),
        _ => d is None,
    }
}

/// What reading a `depends_on` field reports.
pub open spec fn depends_on_reports(e: MergeSyntaxEntry) -> Seq<ParseReport> {
    match field_value(e) {
        Some(MergeSyntaxValue::Sequence { values, .. }) => scalar_item_reports(
            values@,
            values@.len() as int,
            "dependency service names must be scalars"@,
        ),
        Some(MergeSyntaxValue::Mapping { entries, .. }) => dependency_reports(entries@, entries@.len() as int),
        _ => seq![
            ParseReport::Unexpected {
                code: "compose.model.expected-field-form"@,
                message: "depends_on must be a sequence or mapping"@,
                span: field_span(e),
            },
        ],
    }
}

/// Reports whether an entry has no value or a null scalar.
fn is_null_field(e: &MergeSyntaxEntry) -> (r: bool)
    ensures
        r == field_is_null(*e),
{
    match value_of(e) {
        None => true,
        Some(MergeSyntaxValue::Scalar(s)) => s.kind() == MergeScalarKind::Null,
        _ => false,
    }
}

/// Reads a `depends_on` field in its short (list) or long (mapping) form.
fn parse_depends_on(e: &MergeSyntaxEntry, diags: &mut Vec<Diagnostic>) -> (r: Option<DependsOn>)
    ensures
        depends_on_read(r, *e),
        keeps(final(diags)@, old(diags)@),
        reports_from(final(diags)@, old(diags)@.len() as int, depends_on_reports(*e)),
{
    let ghost d0 = diags@;
    match value_of(e) {
        Some(MergeSyntaxValue::Sequence { values, span }) => {
            let services = parse_scalar_items(values, "dependency service names must be scalars", diags);
            Some(DependsOn::Short { span: *span, services })
        },
        Some(MergeSyntaxValue::Mapping { entries, span }) => {
            let mut services: Vec<ServiceDependency> = Vec::new();
            let mut i: usize = 0;
            proof {
                assert(diags@.len() == d0.len() + dependency_reports(entries@, 0).len());
            }
            while i < entries.len()
                invariant
                    0 <= i <= entries@.len(),
                    field_value(*e) == Some(MergeSyntaxValue::Mapping { entries: *entries, span: *span }),
                    dependencies_read(services@, entries@, i as int),
                    keeps(diags@, d0),
                    reports_from(diags@, d0.len() as int, dependency_reports(entries@, i as int)),
                decreases entries@.len() - i,
            {
                let ghost s_before = services@;
                let ghost d_before = diags@;
                let entry = &entries[i];
                let ghost rest = if repeated(entries@, i as int) >= 0 {
                    seq![ParseReport::Duplicate { at: key_span(entries@[i as int]), first: key_span(entries@[repeated(entries@, i as int)]) }]
                } else if field_is_null(entries@[i as int]) {
                    Seq::<ParseReport>::empty()
                } else {
                    match field_value(entries@[i as int]) {
                        Some(MergeSyntaxValue::Mapping { entries: options, .. }) => option_reports(options@, options@.len() as int),
                        _ => seq![
                            ParseReport::Unexpected {
                                code: "compose.model.expected-mapping"@,
                                message: "long dependency options must be a mapping or null"@,
                                span: field_span(entries@[i as int]),
                            },
                        ],
                    }
                };
                match find_repeated(entries.as_slice(), i) {
                    Some(k) => {
                        push_duplicate(diags, entry.key().span(), entries[k].key().span());
                    },
                    None => {
                        let mut dependency = ServiceDependency::new(entry.key().duplicate(), span_of_field(entry));
                        proof {
                            assert(dependency.spec_extension_fields() =~= extension_refs(Seq::empty(), 0));
                            assert(dependency.spec_unknown_fields() =~= option_unknown_refs(Seq::empty(), 0));
                        }
                        if is_null_field(entry) {
                            services.push(dependency);
                        } else {
                            match value_of(entry) {
                                Some(MergeSyntaxValue::Mapping { entries: options, .. }) => {
                                    proof {
                                        assert(dependency.spec_extension_fields() =~= extension_refs(options@, 0));
                                        assert(dependency.spec_unknown_fields() =~= option_unknown_refs(options@, 0));
                                    }
                                    parse_dependency_options(&mut dependency, options, diags);
                                    services.push(dependency);
                                },
                                _ => {
                                    push_unexpected(
                                        diags,
                                        "compose.model.expected-mapping",
                                        owned("long dependency options must be a mapping or null"),
                                        span_of_field(entry),
                                    );
                                },
                            }
                        }
                    },
                }
                proof {
                    assert(reports_from(diags@, d_before.len() as int, rest));
                    lemma_reports_chain(d_before, diags@, d0.len() as int, dependency_reports(entries@, i as int), rest);
                    assert forall|j: int| 0 <= j < services@.len() implies dependency_from(
                        #[trigger] services@[j],
                        defining_entries(entries@, i + 1)[j],
                    ) by {
                        if j < s_before.len() {
                            assert(services@[j] == s_before[j]);
                        }
                    }
                }
                i += 1;
            }
            Some(DependsOn::Long { span: *span, services })
        },
        _ => {
            push_unexpected(
                diags,
                "compose.model.expected-field-form",
                owned("depends_on must be a sequence or mapping"),
                span_of_field(e),
            );
            None
        },
    }
}

/// A hostname read from an entry: a string scalar, classified.
pub open spec fn hostname_read(h: Option<Hostname>, e: MergeSyntaxEntry) -> bool {
    match field_value(e) {
        Some(MergeSyntaxValue::Scalar(s)) => if s.spec_kind() == MergeScalarKind::String {
            h matches Some(x) && x.spec_raw() == Located::spec_new(s.spec_text(), s.spec_span())
        } else {
            h is None
        },
        _ => h is None,
    }
}

/// An entry whose value is a string scalar.
pub open spec fn string_scalar_form(e: MergeSyntaxEntry) -> bool {
    field_value(e) matches Some(MergeSyntaxValue::Scalar(s)) && s.spec_kind() == MergeScalarKind::String
}

/// What reading a `hostname` field reports.
pub open spec fn hostname_reports(e: MergeSyntaxEntry) -> Seq<ParseReport> {
    match field_value(e) {
        Some(MergeSyntaxValue::Scalar(s)) => if s.spec_kind() != MergeScalarKind::String {
            seq![
                ParseReport::Unexpected {
                    code: "compose.hostname.expected-string"@,
                    message: "hostname must be a YAML string scalar"@,
                    span: field_span(e),
                },
            ]
        } else if !sb(s.spec_value()).contains(36u8) && !hostname_ok(sb(s.spec_value())) {
            seq![ParseReport::InvalidHostname(s.spec_span())]
        } else {
            Seq::empty()
        },
        _ => seq![
            ParseReport::Unexpected {
                code: "compose.hostname.expected-string"@,
                message: "hostname must be a YAML string scalar"@,
                span: field_span(e),
            },
        ],
    }
}

/// Reads a `hostname` field.
fn parse_hostname(e: &MergeSyntaxEntry, diags: &mut Vec<Diagnostic>) -> (r: Option<Hostname>)
    ensures
        hostname_read(r, *e),
        r is Some <==> string_scalar_form(*e),
        keeps(final(diags)@, old(diags)@),
        reports_from(final(diags)@, old(diags)@.len() as int, hostname_reports(*e)),
{
    let string_scalar = match value_of(e) {
        Some(MergeSyntaxValue::Scalar(s)) => s.kind() == MergeScalarKind::String,
        _ => false,
    };
    if !string_scalar {
        push_unexpected(
            diags,
            "compose.hostname.expected-string",
            owned("hostname must be a YAML string scalar"),
            span_of_field(e),
        );
        return None;
    }
    match value_of(e) {
        Some(MergeSyntaxValue::Scalar(s)) => {
            let hostname = Hostname::parse(Located::new(s.text().clone(), s.span()));
            if matches!(hostname.kind(), HostnameKind::Invalid) {
                diags.push(
                    labelled(
                        "compose.hostname.invalid-value",
                        owned(
                            "hostname must be an ASCII RFC-1123 name of 1 to 253 characters with dot-separated labels of 1 to 63 alphanumeric or hyphen characters",
                        ),
                        s.span(),
                        "invalid service hostname",
                    ).with_note(owned("each label must start and end with an ASCII letter or digit")),
                );
            }
            Some(hostname)
        },
        _ => None,
    }
}

/// A stop grace period read from a string: classified from the text, at the text's span.
pub open spec fn grace_read(g: Option<Located<StopGracePeriod>>, text: Option<Located<String>>) -> bool {
    match text {
        Some(x) => g matches Some(p) && p.spec_span() == x.spec_span() && p.spec_value().spec_raw() == x.spec_value()@ && (
        p.spec_value() is Expression <==> sb(x.spec_value()@).contains(36u8)) && (p.spec_value() is Value <==> !sb(
            x.spec_value()@,
        ).contains(36u8) && grace_period(sb(x.spec_value()@))),
        None => g is None,
    }
}

/// What reading a `stop_grace_period` field reports.
pub open spec fn grace_reports(e: MergeSyntaxEntry) -> Seq<ParseReport> {
    string_reports(e, "service stop grace period"@) + match string_of(e) {
        Some(x) => if !sb(x.spec_value()@).contains(36u8) && !grace_period(sb(x.spec_value()@)) {
            seq![
                ParseReport::Invalid {
                    code: "compose.lifecycle.invalid-stop-grace-period"@,
                    message: "stop_grace_period must match the ComposeLens duration policy using `us`, `ms`, `s`, `m`, or `h`, or contain an interpolation marker"@,
                    label: "invalid service stop grace period"@,
                    span: x.spec_span(),
                },
            ]
        } else {
            Seq::empty()
        },
        None => Seq::empty(),
    }
}

/// Reads a `stop_grace_period` field.
fn parse_stop_grace_period(e: &MergeSyntaxEntry, diags: &mut Vec<Diagnostic>) -> (r: Option<Located<StopGracePeriod>>)
    ensures
        grace_read(r, string_of(*e)),
        keeps(final(diags)@, old(diags)@),
        reports_from(final(diags)@, old(diags)@.len() as int, grace_reports(*e)),
{
    let ghost d0 = diags@;
    match parse_string(e, "service stop grace period", diags) {
        Some(value) => {
            let ghost d1 = diags@;
            let span = value.span();
            let period = StopGracePeriod::parse(value.into_value());
            if !period.is_valid() {
                diags.push(
                    labelled(
                        "compose.lifecycle.invalid-stop-grace-period",
                        owned(
                            "stop_grace_period must match the ComposeLens duration policy using `us`, `ms`, `s`, `m`, or `h`, or contain an interpolation marker",
                        ),
                        span,
                        "invalid service stop grace period",
                    ),
                );
            }
            proof {
                let extra = match string_of(*e) {
                    Some(x) => if !sb(x.spec_value()@).contains(36u8) && !grace_period(sb(x.spec_value()@)) {
                        seq![
                            ParseReport::Invalid {
                                code: "compose.lifecycle.invalid-stop-grace-period"@,
                                message: "stop_grace_period must match the ComposeLens duration policy using `us`, `ms`, `s`, `m`, or `h`, or contain an interpolation marker"@,
                                label: "invalid service stop grace period"@,
                                span: x.spec_span(),
                            },
                        ]
                    } else {
                        Seq::<ParseReport>::empty()
                    },
                    None => Seq::empty(),
                };
                assert(reports_from(diags@, d1.len() as int, extra));
                lemma_reports_chain(d1, diags@, d0.len() as int, string_reports(*e, "service stop grace period"@), extra);
            }
            Some(Located::new(period, span))
        },
        None => {
            proof {
                assert(string_reports(*e, "service stop grace period"@) + Seq::<ParseReport>::empty() =~= string_reports(
                    *e,
                    "service stop grace period"@,
                ));
            }
            None
        },
    }
}

/// A restart policy read from a string: classified from the located text.
pub open spec fn restart_read(policy: Option<RestartPolicy>, text: Option<Located<String>>) -> bool {
    match text {
        Some(x) => policy matches Some(p) && p.spec_raw() == x,
        None => policy is None,
    }
}

/// A restart policy text outside Compose's grammar: none of the keywords, no `$`, and not
/// `on-failure:` with a retry count.
pub open spec fn restart_invalid(x: Located<String>) -> bool {
    &&& lc(x) != "no"@
    &&& lc(x) != "always"@
    &&& lc(x) != "on-failure"@
    &&& lc(x) != "unless-stopped"@
    &&& !lb(x).contains(36u8)
    &&& !with_retries(lb(x))
}

/// What reading a `restart` field reports.
pub open spec fn restart_reports(e: MergeSyntaxEntry) -> Seq<ParseReport> {
    string_reports(e, "service restart policy"@) + match string_of(e) {
        Some(x) => if restart_invalid(x) {
            seq![
                ParseReport::Invalid {
                    code: "compose.restart.invalid-policy"@,
                    message: "restart must be `no`, `always`, `on-failure[:max-retries]`, `unless-stopped`, or interpolation"@,
                    label: "invalid service restart policy"@,
                    span: x.spec_span(),
                },
            ]
        } else {
            Seq::empty()
        },
        None => Seq::empty(),
    }
}

/// Reads a `restart` field.
fn parse_restart_policy(e: &MergeSyntaxEntry, diags: &mut Vec<Diagnostic>) -> (r: Option<RestartPolicy>)
    ensures
        restart_read(r, string_of(*e)),
        keeps(final(diags)@, old(diags)@),
        reports_from(final(diags)@, old(diags)@.len() as int, restart_reports(*e)),
{
    let ghost d0 = diags@;
    match parse_string(e, "service restart policy", diags) {
        Some(value) => {
            let ghost d1 = diags@;
            let ghost x = value;
            let policy = RestartPolicy::parse(value);
            if !policy.is_valid() {
                diags.push(
                    labelled(
                        "compose.restart.invalid-policy",
                        owned("restart must be `no`, `always`, `on-failure[:max-retries]`, `unless-stopped`, or interpolation"),
                        policy.raw().span(),
                        "invalid service restart policy",
                    ),
                );
            }
            proof {
                let extra = if restart_invalid(x) {
                    seq![
                        ParseReport::Invalid {
                            code: "compose.restart.invalid-policy"@,
                            message: "restart must be `no`, `always`, `on-failure[:max-retries]`, `unless-stopped`, or interpolation"@,
                            label: "invalid service restart policy"@,
                            span: x.spec_span(),
                        },
                    ]
                } else {
                    Seq::<ParseReport>::empty()
                };
                assert(reports_from(diags@, d1.len() as int, extra));
                lemma_reports_chain(d1, diags@, d0.len() as int, string_reports(*e, "service restart policy"@), extra);
            }
            Some(policy)
        },
        None => {
            proof {
                assert(string_reports(*e, "service restart policy"@) + Seq::<ParseReport>::empty() =~= string_reports(
                    *e,
                    "service restart policy"@,
                ));
            }
            None
        },
    }
}

/// A `command` read from an entry: null, a shell-form string, or an exec-form list.
pub open spec fn command_read(c: Option<Command>, e: MergeSyntaxEntry) -> bool {
    match field_value(e) {
        Some(MergeSyntaxValue::Scalar(s)) => if s.spec_kind() == MergeScalarKind::Null {
            c == Some(Command::Null(s.spec_span()))
        } else {
            c == Some(Command::String(Located::spec_new(s.spec_text(), s.spec_span())))
        },
        Some(MergeSyntaxValue::Sequence { values, span }) => c matches Some(Command::List { span: sp, values: vs }) && sp
            == span && vs@ == scalar_items(values@, values@.len() as int),
        _ => c is None,
    }
}

/// An entry whose value has a `command` form.
pub open spec fn command_form(e: MergeSyntaxEntry) -> bool {
    field_value(e) matches Some(MergeSyntaxValue::Scalar(_)) || field_value(e) matches Some(MergeSyntaxValue::Sequence { .. })
}

/// What reading a `command` field reports.
pub open spec fn command_reports(e: MergeSyntaxEntry) -> Seq<ParseReport> {
    match field_value(e) {
        Some(MergeSyntaxValue::Scalar(_)) => Seq::empty(),
        Some(MergeSyntaxValue::Sequence { values, .. }) => scalar_item_reports(
            values@,
            values@.len() as int,
            "command list items must be scalars"@,
        ),
        _ => seq![
            ParseReport::Unexpected {
                code: "compose.model.expected-field-form"@,
                message: "command must be null, a scalar, or a sequence"@,
                span: field_span(e),
            },
        ],
    }
}

/// Reads a `command` field.
fn parse_command(e: &MergeSyntaxEntry, diags: &mut Vec<Diagnostic>) -> (r: Option<Command>)
    ensures
        command_read(r, *e),
        r is Some <==> command_form(*e),
        keeps(final(diags)@, old(diags)@),
        reports_from(final(diags)@, old(diags)@.len() as int, command_reports(*e)),
{
    match value_of(e) {
        Some(MergeSyntaxValue::Scalar(s)) => {
            if s.kind() == MergeScalarKind::Null {
                Some(Command::Null(s.span()))
            } else {
                Some(Command::String(Located::new(s.text().clone(), s.span())))
            }
        },
        Some(MergeSyntaxValue::Sequence { values, span }) => {
            let values = parse_scalar_items(values, "command list items must be scalars", diags);
            Some(Command::List { span: *span, values })
        },
        _ => {
            push_unexpected(
                diags,
                "compose.model.expected-field-form",
                owned("command must be null, a scalar, or a sequence"),
                span_of_field(e),
            );
            None
        },
    }
}

/// The field names a service definition can hold.
pub open spec fn service_field_known(name: Seq<char>) -> bool {
    name == "hostname"@
        || name == "container_name"@
        || name == "image"@
        || name == "entrypoint"@
        || name == "command"@
        || name == "init"@
        || name == "stdin_open"@
        || name == "tty"@
        || name == "privileged"@
        || name == "environment"@
        || name == "env_file"@
        || name == "labels"@
        || name == "annotations"@
        || name == "extra_hosts"@
        || name == "user"@
        || name == "userns_mode"@
        || name == "group_add"@
        || name == "cap_add"@
        || name == "cap_drop"@
        || name == "devices"@
        || name == "dns"@
        || name == "dns_opt"@
        || name == "dns_search"@
        || name == "expose"@
        || name == "security_opt"@
        || name == "working_dir"@
        || name == "read_only"@
        || name == "pids_limit"@
        || name == "shm_size"@
        || name == "mem_limit"@
        || name == "tmpfs"@
        || name == "sysctls"@
        || name == "logging"@
        || name == "pull_policy"@
        || name == "restart"@
        || name == "stop_signal"@
        || name == "stop_grace_period"@
        || name == "ulimits"@
        || name == "depends_on"@
        || name == "healthcheck"@
        || name == "build"@
        || name == "deploy"@
        || name == "ports"@
        || name == "volumes"@
        || name == "networks"@
        || name == "profiles"@
        || name == "configs"@
        || name == "secrets"@
}

/// Reports whether a service definition can hold the field.
fn is_service_field(name: &str) -> (r: bool)
    ensures
        r == service_field_known(name@),
{
    str_eq(name, "hostname")
        || str_eq(name, "container_name")
        || str_eq(name, "image")
        || str_eq(name, "entrypoint")
        || str_eq(name, "command")
        || str_eq(name, "init")
        || str_eq(name, "stdin_open")
        || str_eq(name, "tty")
        || str_eq(name, "privileged")
        || str_eq(name, "environment")
        || str_eq(name, "env_file")
        || str_eq(name, "labels")
        || str_eq(name, "annotations")
        || str_eq(name, "extra_hosts")
        || str_eq(name, "user")
        || str_eq(name, "userns_mode")
        || str_eq(name, "group_add")
        || str_eq(name, "cap_add")
        || str_eq(name, "cap_drop")
        || str_eq(name, "devices")
        || str_eq(name, "dns")
        || str_eq(name, "dns_opt")
        || str_eq(name, "dns_search")
        || str_eq(name, "expose")
        || str_eq(name, "security_opt")
        || str_eq(name, "working_dir")
        || str_eq(name, "read_only")
        || str_eq(name, "pids_limit")
        || str_eq(name, "shm_size")
        || str_eq(name, "mem_limit")
        || str_eq(name, "tmpfs")
        || str_eq(name, "sysctls")
        || str_eq(name, "logging")
        || str_eq(name, "pull_policy")
        || str_eq(name, "restart")
        || str_eq(name, "stop_signal")
        || str_eq(name, "stop_grace_period")
        || str_eq(name, "ulimits")
        || str_eq(name, "depends_on")
        || str_eq(name, "healthcheck")
        || str_eq(name, "build")
        || str_eq(name, "deploy")
        || str_eq(name, "ports")
        || str_eq(name, "volumes")
        || str_eq(name, "networks")
        || str_eq(name, "profiles")
        || str_eq(name, "configs")
        || str_eq(name, "secrets")
}

/// The string a field reads from the first of the first `n` entries with the key.
pub open spec fn string_field(entries: Seq<MergeSyntaxEntry>, name: Seq<char>, n: int) -> Option<Located<String>> {
    match named_entry(entries, name, n) {
        Some(e) => string_of(e),
        None => None,
    }
}

/// The boolean a field reads from the first of the first `n` entries with the key.
pub open spec fn boolean_field(entries: Seq<MergeSyntaxEntry>, name: Seq<char>, n: int) -> Option<Located<BooleanValue>> {
    match named_entry(entries, name, n) {
        Some(e) => boolean_of(e),
        None => None,
    }
}

/// The strings a field reads from the first of the first `n` entries with the key.
pub open spec fn sequence_field(entries: Seq<MergeSyntaxEntry>, name: Seq<char>, n: int) -> Seq<Located<String>> {
    match named_entry(entries, name, n) {
        Some(e) => string_sequence_of(e),
        None => Seq::empty(),
    }
}

/// An image read from a string: its reference parsed from the text, at the text's span.
pub open spec fn image_read(image: Option<Located<ImageReference>>, text: Option<Located<String>>) -> bool {
    match text {
        Some(t) => image matches Some(i) && i.spec_span() == t.spec_span() && i.spec_value().spec_raw() == t.spec_value(),
        None => image is None,
    }
}

/// A user read from a string: parsed from the located text.
pub open spec fn user_read(user: Option<UserSpec>, text: Option<Located<String>>) -> bool {
    match text {
        Some(t) => user matches Some(u) && u.spec_raw() == t,
        None => user is None,
    }
}

/// A user-namespace mode read from a string: classified from the located text.
pub open spec fn userns_read(mode: Option<UserNamespaceMode>, text: Option<Located<String>>) -> bool {
    match text {
        Some(t) => mode matches Some(m) && m.spec_raw() == t,
        None => mode is None,
    }
}

/// The extension references among the first `n` entries, in order; a repeated `x-` key is kept.
pub open spec fn extension_refs(entries: Seq<MergeSyntaxEntry>, n: int) -> Seq<FieldReference>
    decreases n,
{
    if n <= 0 {
        Seq::empty()
    } else if extension_name(key_text(entries[n - 1])) {
        extension_refs(entries, n - 1).push(field_reference(entries[n - 1]))
    } else {
        extension_refs(entries, n - 1)
    }
}

/// The references of the first `n` entries of a service that Compose does not define, in order;
/// a repeated key is not kept.
pub open spec fn service_unknown_refs(entries: Seq<MergeSyntaxEntry>, n: int) -> Seq<FieldReference>
    decreases n,
{
    if n <= 0 {
        Seq::empty()
    } else if repeated(entries, n - 1) == -1 && !extension_name(key_text(entries[n - 1])) && !service_field_known(
        key_text(entries[n - 1]),
    ) {
        service_unknown_refs(entries, n - 1).push(field_reference(entries[n - 1]))
    } else {
        service_unknown_refs(entries, n - 1)
    }
}

/// What reading one service field reports.
pub open spec fn service_field_reports(e: MergeSyntaxEntry) -> Seq<ParseReport> {
    let n = key_text(e);
    if n == "container_name"@ {
        string_reports(e, "container name"@)
    } else if n == "working_dir"@ {
        string_reports(e, "service working directory"@)
    } else if n == "stop_signal"@ {
        string_reports(e, "service stop signal"@)
    } else if n == "image"@ {
        string_reports(e, "service image"@)
    } else if n == "user"@ {
        string_reports(e, "service user"@)
    } else if n == "userns_mode"@ {
        string_reports(e, "service user namespace mode"@)
    } else if n == "init"@ {
        boolean_reports(e, "service init"@)
    } else if n == "stdin_open"@ {
        boolean_reports(e, "stdin_open"@)
    } else if n == "tty"@ {
        boolean_reports(e, "tty"@)
    } else if n == "privileged"@ {
        boolean_reports(e, "privileged"@)
    } else if n == "read_only"@ {
        boolean_reports(e, "service read_only"@)
    } else if n == "group_add"@ {
        string_sequence_reports(e, "service supplementary groups"@)
    } else if n == "profiles"@ {
        string_sequence_reports(e, "service profiles"@)
    } else if n == "depends_on"@ {
        depends_on_reports(e)
    } else if n == "command"@ {
        command_reports(e)
    } else if n == "hostname"@ {
        hostname_reports(e)
    } else if n == "stop_grace_period"@ {
        grace_reports(e)
    } else if n == "restart"@ {
        restart_reports(e)
    } else {
        Seq::empty()
    }
}

/// What reading the first `n` entries of a service reports, in order: a repeated key, or the
/// problems of reading a field.
pub open spec fn service_reports(entries: Seq<MergeSyntaxEntry>, n: int) -> Seq<ParseReport>
    decreases n,
{
    if n <= 0 {
        Seq::empty()
    } else {
        service_reports(entries, n - 1) + if repeated(entries, n - 1) >= 0 {
            seq![ParseReport::Duplicate { at: key_span(entries[n - 1]), first: key_span(entries[repeated(entries, n - 1)]) }]
        } else {
            service_field_reports(entries[n - 1])
        }
    }
}

/// The service fields this parse leaves untyped are absent.
pub open spec fn service_untyped_absent(s: Service) -> bool {
    &&& s.spec_environment() is None
    &&& s.spec_labels() is None
    &&& s.spec_annotations() is None
    &&& s.spec_extra_hosts() is None
    &&& s.spec_cap_add() is None
    &&& s.spec_cap_drop() is None
    &&& s.spec_devices() is None
    &&& s.spec_dns() is None
    &&& s.spec_dns_options() is None
    &&& s.spec_dns_search() is None
    &&& s.spec_expose() is None
    &&& s.spec_pids_limit() is None
    &&& s.spec_mem_limit() is None
    &&& s.spec_logging() is None
    &&& s.spec_pull_policy() is None
    &&& s.spec_healthcheck() is None
    &&& s.spec_networks() is None
    &&& s.spec_environment_files().len() == 0
    &&& s.spec_ports().len() == 0
    &&& s.spec_configs().len() == 0
    &&& s.spec_secrets().len() == 0
}

/// A service holds what its first `n` entries read.
pub open spec fn service_reads(s: Service, entries: Seq<MergeSyntaxEntry>, n: int) -> bool {
    &&& s.spec_container_name() == string_field(entries, "container_name"@, n)
    &&& s.spec_working_dir() == string_field(entries, "working_dir"@, n)
    &&& s.spec_stop_signal() == string_field(entries, "stop_signal"@, n)
    &&& image_read(s.spec_image(), string_field(entries, "image"@, n))
    &&& user_read(s.spec_user(), string_field(entries, "user"@, n))
    &&& userns_read(s.spec_userns_mode(), string_field(entries, "userns_mode"@, n))
    &&& s.spec_init() == boolean_field(entries, "init"@, n)
    &&& s.spec_stdin_open() == boolean_field(entries, "stdin_open"@, n)
    &&& s.spec_tty() == boolean_field(entries, "tty"@, n)
    &&& s.spec_privileged() == boolean_field(entries, "privileged"@, n)
    &&& s.spec_read_only() == boolean_field(entries, "read_only"@, n)
    &&& s.spec_group_add() == sequence_field(entries, "group_add"@, n)
    &&& s.spec_profiles() == sequence_field(entries, "profiles"@, n)
    &&& match named_entry(entries, "depends_on"@, n) { Some(e) => depends_on_read(s.spec_depends_on(), e), None => s.spec_depends_on() is None }
    &&& match named_entry(entries, "command"@, n) { Some(e) => command_read(s.spec_command(), e), None => s.spec_command() is None }
    &&& match named_entry(entries, "hostname"@, n) { Some(e) => hostname_read(s.spec_hostname(), e), None => s.spec_hostname() is None }
    &&& grace_read(s.spec_stop_grace_period(), string_field(entries, "stop_grace_period"@, n))
    &&& restart_read(s.spec_restart(), string_field(entries, "restart"@, n))
    &&& s.spec_extension_fields() == extension_refs(entries, n)
    &&& s.spec_unknown_fields() == service_unknown_refs(entries, n)
    &&& service_untyped_absent(s)
}

/// Reading one field changes only the field its key names, and that only when a value is read.
pub open spec fn reads_field(before: Service, after: Service, e: MergeSyntaxEntry) -> bool {
    let n = key_text(e);
    &&& after.spec_container_name() == if n == "container_name"@ && string_of(e) is Some { string_of(e) } else { before.spec_container_name() }
    &&& after.spec_working_dir() == if n == "working_dir"@ && string_of(e) is Some { string_of(e) } else { before.spec_working_dir() }
    &&& after.spec_stop_signal() == if n == "stop_signal"@ && string_of(e) is Some { string_of(e) } else { before.spec_stop_signal() }
    &&& if n == "image"@ && string_of(e) is Some { image_read(after.spec_image(), string_of(e)) } else { after.spec_image() == before.spec_image() }
    &&& if n == "user"@ && string_of(e) is Some { user_read(after.spec_user(), string_of(e)) } else { after.spec_user() == before.spec_user() }
    &&& if n == "userns_mode"@ && string_of(e) is Some { userns_read(after.spec_userns_mode(), string_of(e)) } else { after.spec_userns_mode() == before.spec_userns_mode() }
    &&& after.spec_init() == if n == "init"@ && boolean_of(e) is Some { boolean_of(e) } else { before.spec_init() }
    &&& after.spec_stdin_open() == if n == "stdin_open"@ && boolean_of(e) is Some { boolean_of(e) } else { before.spec_stdin_open() }
    &&& after.spec_tty() == if n == "tty"@ && boolean_of(e) is Some { boolean_of(e) } else { before.spec_tty() }
    &&& after.spec_privileged() == if n == "privileged"@ && boolean_of(e) is Some { boolean_of(e) } else { before.spec_privileged() }
    &&& after.spec_read_only() == if n == "read_only"@ && boolean_of(e) is Some { boolean_of(e) } else { before.spec_read_only() }
    &&& after.spec_group_add() == if n == "group_add"@ { string_sequence_of(e) } else { before.spec_group_add() }
    &&& after.spec_profiles() == if n == "profiles"@ { string_sequence_of(e) } else { before.spec_profiles() }
    &&& if n == "depends_on"@ && (field_value(e) matches Some(MergeSyntaxValue::Sequence { .. }) || field_value(e) matches Some(MergeSyntaxValue::Mapping { .. })) { depends_on_read(after.spec_depends_on(), e) } else { after.spec_depends_on() == before.spec_depends_on() }
    &&& if n == "command"@ && command_form(e) { command_read(after.spec_command(), e) } else { after.spec_command() == before.spec_command() }
    &&& if n == "hostname"@ && string_scalar_form(e) { hostname_read(after.spec_hostname(), e) } else { after.spec_hostname() == before.spec_hostname() }
    &&& if n == "stop_grace_period"@ && string_of(e) is Some { grace_read(after.spec_stop_grace_period(), string_of(e)) } else { after.spec_stop_grace_period() == before.spec_stop_grace_period() }
    &&& if n == "restart"@ && string_of(e) is Some { restart_read(after.spec_restart(), string_of(e)) } else { after.spec_restart() == before.spec_restart() }
    &&& after.spec_environment() == before.spec_environment()
    &&& after.spec_labels() == before.spec_labels()
    &&& after.spec_annotations() == before.spec_annotations()
    &&& after.spec_extra_hosts() == before.spec_extra_hosts()
    &&& after.spec_cap_add() == before.spec_cap_add()
    &&& after.spec_cap_drop() == before.spec_cap_drop()
    &&& after.spec_devices() == before.spec_devices()
    &&& after.spec_dns() == before.spec_dns()
    &&& after.spec_dns_options() == before.spec_dns_options()
    &&& after.spec_dns_search() == before.spec_dns_search()
    &&& after.spec_expose() == before.spec_expose()
    &&& after.spec_pids_limit() == before.spec_pids_limit()
    &&& after.spec_mem_limit() == before.spec_mem_limit()
    &&& after.spec_logging() == before.spec_logging()
    &&& after.spec_pull_policy() == before.spec_pull_policy()
    &&& after.spec_healthcheck() == before.spec_healthcheck()
    &&& after.spec_networks() == before.spec_networks()
    &&& after.spec_environment_files() == before.spec_environment_files()
    &&& after.spec_ports() == before.spec_ports()
    &&& after.spec_configs() == before.spec_configs()
    &&& after.spec_secrets() == before.spec_secrets()
    &&& after.spec_name() == before.spec_name()
    &&& after.spec_span() == before.spec_span()
    &&& after.spec_extension_fields() == before.spec_extension_fields()
    &&& after.spec_unknown_fields() == before.spec_unknown_fields()
}


/// The names of the fields a service parse reads, by length and first character: no two are
/// the same text.
proof fn lemma_service_names()
    ensures
        "container_name"@.len() == 14,
        "container_name"@[0] == 'c',
        "working_dir"@.len() == 11,
        "working_dir"@[0] == 'w',
        "stop_signal"@.len() == 11,
        "stop_signal"@[0] == 's',
        "image"@.len() == 5,
        "image"@[0] == 'i',
        "user"@.len() == 4,
        "user"@[0] == 'u',
        "userns_mode"@.len() == 11,
        "userns_mode"@[0] == 'u',
        "init"@.len() == 4,
        "init"@[0] == 'i',
        "stdin_open"@.len() == 10,
        "stdin_open"@[0] == 's',
        "tty"@.len() == 3,
        "tty"@[0] == 't',
        "privileged"@.len() == 10,
        "privileged"@[0] == 'p',
        "read_only"@.len() == 9,
        "read_only"@[0] == 'r',
        "group_add"@.len() == 9,
        "group_add"@[0] == 'g',
        "profiles"@.len() == 8,
        "profiles"@[0] == 'p',
        "depends_on"@.len() == 10,
        "depends_on"@[0] == 'd',
        "command"@.len() == 7,
        "command"@[0] == 'c',
        "hostname"@.len() == 8,
        "hostname"@[0] == 'h',
        "stop_grace_period"@.len() == 17,
        "stop_grace_period"@[0] == 's',
        "restart"@.len() == 7,
        "restart"@[0] == 'r',
{
    reveal_strlit("container_name");
    reveal_strlit("working_dir");
    reveal_strlit("stop_signal");
    reveal_strlit("image");
    reveal_strlit("user");
    reveal_strlit("userns_mode");
    reveal_strlit("init");
    reveal_strlit("stdin_open");
    reveal_strlit("tty");
    reveal_strlit("privileged");
    reveal_strlit("read_only");
    reveal_strlit("group_add");
    reveal_strlit("profiles");
    reveal_strlit("depends_on");
    reveal_strlit("command");
    reveal_strlit("hostname");
    reveal_strlit("stop_grace_period");
    reveal_strlit("restart");
}

/// Reads one field of a service into it.
fn read_service_field(service: &mut Service, e: &MergeSyntaxEntry, diags: &mut Vec<Diagnostic>)
    ensures
        reads_field(*old(service), *final(service), *e),
        keeps(final(diags)@, old(diags)@),
        reports_from(final(diags)@, old(diags)@.len() as int, service_field_reports(*e)),
{
    proof {
        lemma_service_names();
    }
    let name = e.key().value().as_str();
    if str_eq(name, "container_name") {
        match parse_string(e, "container name", diags) {
            Some(v) => service.set_container_name(v),
            None => {},
        }
    } else if str_eq(name, "working_dir") {
        match parse_string(e, "service working directory", diags) {
            Some(v) => service.set_working_dir(v),
            None => {},
        }
    } else if str_eq(name, "stop_signal") {
        match parse_string(e, "service stop signal", diags) {
            Some(v) => service.set_stop_signal(v),
            None => {},
        }
    } else if str_eq(name, "image") {
        match parse_string(e, "service image", diags) {
            Some(v) => {
                let span = v.span();
                service.set_image(Located::new(ImageReference::parse(v.into_value()), span));
            },
            None => {},
        }
    } else if str_eq(name, "user") {
        match parse_string(e, "service user", diags) {
            Some(v) => service.set_user(UserSpec::parse(v)),
            None => {},
        }
    } else if str_eq(name, "userns_mode") {
        match parse_string(e, "service user namespace mode", diags) {
            Some(v) => service.set_userns_mode(UserNamespaceMode::parse(v)),
            None => {},
        }
    } else if str_eq(name, "init") {
        match parse_boolean(e, "service init", diags) {
            Some(v) => service.set_init(v),
            None => {},
        }
    } else if str_eq(name, "stdin_open") {
        match parse_boolean(e, "stdin_open", diags) {
            Some(v) => service.set_stdin_open(v),
            None => {},
        }
    } else if str_eq(name, "tty") {
        match parse_boolean(e, "tty", diags) {
            Some(v) => service.set_tty(v),
            None => {},
        }
    } else if str_eq(name, "privileged") {
        match parse_boolean(e, "privileged", diags) {
            Some(v) => service.set_privileged(v),
            None => {},
        }
    } else if str_eq(name, "read_only") {
        match parse_boolean(e, "service read_only", diags) {
            Some(v) => service.set_read_only(v),
            None => {},
        }
    } else if str_eq(name, "group_add") {
        let v = parse_string_sequence(e, "service supplementary groups", diags);
        service.set_group_add(v);
    } else if str_eq(name, "profiles") {
        let v = parse_string_sequence(e, "service profiles", diags);
        service.set_profiles(v);
    } else if str_eq(name, "depends_on") {
        match parse_depends_on(e, diags) {
            Some(v) => service.set_depends_on(v),
            None => {},
        }
    } else if str_eq(name, "command") {
        match parse_command(e, diags) {
            Some(v) => service.set_command(v),
            None => {},
        }
    } else if str_eq(name, "hostname") {
        match parse_hostname(e, diags) {
            Some(v) => service.set_hostname(v),
            None => {},
        }
    } else if str_eq(name, "stop_grace_period") {
        match parse_stop_grace_period(e, diags) {
            Some(v) => service.set_stop_grace_period(v),
            None => {},
        }
    } else if str_eq(name, "restart") {
        match parse_restart_policy(e, diags) {
            Some(v) => service.set_restart(v),
            None => {},
        }
    } else {
    }
}

proof fn lemma_named_step(entries: Seq<MergeSyntaxEntry>, name: Seq<char>, i: int)
    requires
        0 <= i < entries.len(),
    ensures
        named_entry(entries, name, i + 1) == if key_text(entries[i]) == name && repeated(entries, i) == -1 {
            Some(entries[i])
        } else {
            named_entry(entries, name, i)
        },
{
    lemma_first_key_bound(entries, name, i);
}

/// Reads a service definition from its name, the span of its entry and the entries of its
/// mapping, in order.
#[verifier::rlimit(60)]
pub fn parse_service(
    name: Located<String>,
    span: SourceSpan,
    entries: &[MergeSyntaxEntry],
    diagnostics: &mut Vec<Diagnostic>,
) -> (r: Service)
    ensures
        r.spec_name() == name,
        r.spec_span() == span,
        service_reads(r, entries@, entries@.len() as int),
        keeps(final(diagnostics)@, old(diagnostics)@),
        reports_from(final(diagnostics)@, old(diagnostics)@.len() as int, service_reports(entries@, entries@.len() as int)),
{
    let ghost d0 = diagnostics@;
    let mut service = Service::new(name, span);
    let mut i: usize = 0;
    proof {
        assert(service.spec_extension_fields() =~= extension_refs(entries@, 0));
        assert(service.spec_unknown_fields() =~= service_unknown_refs(entries@, 0));
        assert(service.spec_group_add() =~= sequence_field(entries@, "group_add"@, 0));
        assert(service.spec_profiles() =~= sequence_field(entries@, "profiles"@, 0));
        assert(diagnostics@.len() == d0.len() + service_reports(entries@, 0).len());
    }
    while i < entries.len()
        invariant
            0 <= i <= entries@.len(),
            service.spec_name() == name,
            service.spec_span() == span,
            service_reads(service, entries@, i as int),
            keeps(diagnostics@, d0),
            reports_from(diagnostics@, d0.len() as int, service_reports(entries@, i as int)),
        decreases entries@.len() - i,
    {
        let ghost before = service;
        let ghost d_before = diagnostics@;
        let e = &entries[i];
        let repeated_at = find_repeated(entries, i);
        match repeated_at {
            Some(k) => {
                push_duplicate(diagnostics, e.key().span(), entries[k].key().span());
                proof {
                    assert(reports_from(
                        diagnostics@,
                        d_before.len() as int,
                        seq![ParseReport::Duplicate { at: key_span(entries@[i as int]), first: key_span(entries@[k as int]) }],
                    ));
                }
            },
            None => {
                read_service_field(&mut service, e, diagnostics);
            },
        }
        let ghost mid = service;
        let key = e.key().value().as_str();
        if is_extension_name(key) {
            service.push_extension(reference_of(e));
        } else if repeated_at.is_none() && !is_service_field(key) {
            service.push_unknown(reference_of(e));
        }
        proof {
            lemma_service_names();
            lemma_named_step(entries@, "container_name"@, i as int);
            lemma_named_step(entries@, "working_dir"@, i as int);
            lemma_named_step(entries@, "stop_signal"@, i as int);
            lemma_named_step(entries@, "image"@, i as int);
            lemma_named_step(entries@, "user"@, i as int);
            lemma_named_step(entries@, "userns_mode"@, i as int);
            lemma_named_step(entries@, "init"@, i as int);
            lemma_named_step(entries@, "stdin_open"@, i as int);
            lemma_named_step(entries@, "tty"@, i as int);
            lemma_named_step(entries@, "privileged"@, i as int);
            lemma_named_step(entries@, "read_only"@, i as int);
            lemma_named_step(entries@, "group_add"@, i as int);
            lemma_named_step(entries@, "profiles"@, i as int);
            lemma_named_step(entries@, "depends_on"@, i as int);
            lemma_named_step(entries@, "command"@, i as int);
            lemma_named_step(entries@, "hostname"@, i as int);
            lemma_named_step(entries@, "stop_grace_period"@, i as int);
            lemma_named_step(entries@, "restart"@, i as int);
            lemma_reports_chain(
                d_before,
                diagnostics@,
                d0.len() as int,
                service_reports(entries@, i as int),
                if repeated(entries@, i as int) >= 0 {
                    seq![ParseReport::Duplicate { at: key_span(entries@[i as int]), first: key_span(entries@[repeated(entries@, i as int)]) }]
                } else {
                    service_field_reports(entries@[i as int])
                },
            );
        }
        i += 1;
    }
    service
}


/// The entries among the first `n` of a `services` mapping whose value is a mapping, in order:
/// the services read, a repeated name included.
pub open spec fn service_entries(se: Seq<MergeSyntaxEntry>, n: int) -> Seq<MergeSyntaxEntry>
    decreases n,
{
    if n <= 0 {
        Seq::empty()
    } else if field_value(se[n - 1]) matches Some(MergeSyntaxValue::Mapping { .. }) {
        service_entries(se, n - 1).push(se[n - 1])
    } else {
        service_entries(se, n - 1)
    }
}

/// A service read from an entry: named by its key, spanning the entry, holding what the entries
/// of its mapping read.
pub open spec fn service_from(s: Service, e: MergeSyntaxEntry) -> bool {
    &&& s.spec_name() == e.spec_key()
    &&& s.spec_span() == field_span(e)
    &&& field_value(e) matches Some(MergeSyntaxValue::Mapping { entries, .. }) && service_reads(
        s,
        entries@,
        entries@.len() as int,
    )
}

/// The services read from the first `n` entries of a `services` mapping.
pub open spec fn services_from(services: Seq<Service>, se: Seq<MergeSyntaxEntry>, n: int) -> bool {
    &&& services.len() == service_entries(se, n).len()
    &&& forall|j: int| 0 <= j < services.len() ==> service_from(#[trigger] services[j], service_entries(se, n)[j])
}

/// What reading the first `n` entries of a `services` mapping reports, in order.
pub open spec fn service_list_reports(se: Seq<MergeSyntaxEntry>, n: int) -> Seq<ParseReport>
    decreases n,
{
    if n <= 0 {
        Seq::empty()
    } else {
        let e = se[n - 1];
        service_list_reports(se, n - 1) + (if repeated(se, n - 1) >= 0 {
            seq![ParseReport::Duplicate { at: key_span(e), first: key_span(se[repeated(se, n - 1)]) }]
        } else {
            Seq::empty()
        }) + match field_value(e) {
            Some(MergeSyntaxValue::Mapping { entries, .. }) => service_reports(entries@, entries@.len() as int),
            _ => seq![
                ParseReport::Unexpected {
                    code: "compose.model.expected-mapping"@,
                    message: "service definition must be a mapping"@,
                    span: field_span(e),
                },
            ],
        }
    }
}

/// The services a `services` field reads.
pub open spec fn services_read(services: Seq<Service>, e: MergeSyntaxEntry) -> bool {
    match field_value(e) {
        Some(MergeSyntaxValue::Mapping { entries, .. }) => services_from(services, entries@, entries@.len() as int),
        _ => services.len() == 0,
    }
}

/// What reading a `services` field reports.
pub open spec fn services_reports(e: MergeSyntaxEntry) -> Seq<ParseReport> {
    match field_value(e) {
        Some(MergeSyntaxValue::Mapping { entries, .. }) => service_list_reports(entries@, entries@.len() as int),
        _ => seq![
            ParseReport::Unexpected {
                code: "compose.model.expected-mapping"@,
                message: "services must be a mapping"@,
                span: field_span(e),
            },
        ],
    }
}

/// Reads the services of a `services` field, in authored order.
fn parse_services(e: &MergeSyntaxEntry, diags: &mut Vec<Diagnostic>) -> (r: Vec<Service>)
    ensures
        services_read(r@, *e),
        keeps(final(diags)@, old(diags)@),
        reports_from(final(diags)@, old(diags)@.len() as int, services_reports(*e)),
{
    let ghost d0 = diags@;
    let se = match value_of(e) {
        Some(MergeSyntaxValue::Mapping { entries, .. }) => entries,
        _ => {
            push_unexpected(diags, "compose.model.expected-mapping", owned("services must be a mapping"), span_of_field(e));
            return Vec::new();
        },
    };
    let mut services: Vec<Service> = Vec::new();
    let mut i: usize = 0;
    proof {
        assert(diags@.len() == d0.len() + service_list_reports(se@, 0).len());
    }
    while i < se.len()
        invariant
            0 <= i <= se@.len(),
            field_value(*e) matches Some(MergeSyntaxValue::Mapping { entries, .. }) && entries@ == se@,
            services_from(services@, se@, i as int),
            keeps(diags@, d0),
            reports_from(diags@, d0.len() as int, service_list_reports(se@, i as int)),
        decreases se@.len() - i,
    {
        let ghost s_before = services@;
        let ghost d_before = diags@;
        let entry = &se[i];
        let ghost dup_reports = if repeated(se@, i as int) >= 0 {
            seq![ParseReport::Duplicate { at: key_span(se@[i as int]), first: key_span(se@[repeated(se@, i as int)]) }]
        } else {
            Seq::<ParseReport>::empty()
        };
        match find_repeated(se.as_slice(), i) {
            Some(k) => {
                push_duplicate(diags, entry.key().span(), se[k].key().span());
            },
            None => {},
        }
        let ghost d_mid = diags@;
        proof {
            assert(reports_from(d_mid, d_before.len() as int, dup_reports));
        }
        match value_of(entry) {
            Some(MergeSyntaxValue::Mapping { entries, .. }) => {
                let service = parse_service(entry.key().duplicate(), span_of_field(entry), entries.as_slice(), diags);
                services.push(service);
            },
            _ => {
                push_unexpected(
                    diags,
                    "compose.model.expected-mapping",
                    owned("service definition must be a mapping"),
                    span_of_field(entry),
                );
            },
        }
        proof {
            let rest = match field_value(se@[i as int]) {
                Some(MergeSyntaxValue::Mapping { entries, .. }) => service_reports(entries@, entries@.len() as int),
                _ => seq![
                    ParseReport::Unexpected {
                        code: "compose.model.expected-mapping"@,
                        message: "service definition must be a mapping"@,
                        span: field_span(se@[i as int]),
                    },
                ],
            };
            lemma_reports_chain(d_mid, diags@, d_before.len() as int, dup_reports, rest);
            lemma_reports_chain(d_before, diags@, d0.len() as int, service_list_reports(se@, i as int), dup_reports + rest);
            assert(service_list_reports(se@, i + 1) == service_list_reports(se@, i as int) + dup_reports + rest);
            assert forall|j: int| 0 <= j < services@.len() implies service_from(
                #[trigger] services@[j],
                service_entries(se@, i + 1)[j],
            ) by {
                if j < s_before.len() {
                    assert(services@[j] == s_before[j]);
                }
            }
        }
        i += 1;
    }
    services
}


/// The option names of config and secret definitions, by length and first character.
proof fn lemma_definition_option_names()
    ensures
        "file"@.len() == 4,
        "file"@[0] == 'f',
        "environment"@.len() == 11,
        "content"@.len() == 7,
        "external"@.len() == 8,
        "name"@.len() == 4,
        "name"@[0] == 'n',
{
    reveal_strlit("file");
    reveal_strlit("environment");
    reveal_strlit("content");
    reveal_strlit("external");
    reveal_strlit("name");
}

/// The option names a config definition can hold.
pub open spec fn config_option_known(name: Seq<char>) -> bool {
    name == "file"@ || name == "environment"@ || name == "content"@ || name == "name"@ || name == "external"@
}

/// The references of the first `n` options of a config definition that Compose does not define.
pub open spec fn config_unknown_refs(options: Seq<MergeSyntaxEntry>, n: int) -> Seq<FieldReference>
    decreases n,
{
    if n <= 0 {
        Seq::empty()
    } else if repeated(options, n - 1) == -1 && !extension_name(key_text(options[n - 1])) && !config_option_known(
        key_text(options[n - 1]),
    ) {
        config_unknown_refs(options, n - 1).push(field_reference(options[n - 1]))
    } else {
        config_unknown_refs(options, n - 1)
    }
}

/// What reading one option of a config definition reports.
pub open spec fn config_option_field_reports(o: MergeSyntaxEntry) -> Seq<ParseReport> {
    if key_text(o) == "file"@ {
        string_reports(o, "config file"@)
    } else if key_text(o) == "environment"@ {
        string_reports(o, "config environment source"@)
    } else if key_text(o) == "content"@ {
        string_reports(o, "config content"@)
    } else if key_text(o) == "name"@ {
        string_reports(o, "config custom name"@)
    } else if key_text(o) == "external"@ {
        boolean_reports(o, "config external"@)
    } else {
        Seq::empty()
    }
}

/// What reading the first `n` options of a config definition reports, in order.
pub open spec fn config_option_reports(options: Seq<MergeSyntaxEntry>, n: int) -> Seq<ParseReport>
    decreases n,
{
    if n <= 0 {
        Seq::empty()
    } else {
        config_option_reports(options, n - 1) + if repeated(options, n - 1) >= 0 {
            seq![ParseReport::Duplicate { at: key_span(options[n - 1]), first: key_span(options[repeated(options, n - 1)]) }]
        } else {
            config_option_field_reports(options[n - 1])
        }
    }
}

/// A config definition holds what its first `n` options read.
pub open spec fn config_options_read(d: ConfigDefinition, options: Seq<MergeSyntaxEntry>, n: int) -> bool {
    &&& d.spec_file() == string_field(options, "file"@, n)
    &&& d.spec_environment() == string_field(options, "environment"@, n)
    &&& d.spec_content() == string_field(options, "content"@, n)
    &&& d.spec_custom_name() == string_field(options, "name"@, n)
    &&& d.spec_external() == boolean_field(options, "external"@, n)
    &&& d.spec_extension_fields() == extension_refs(options, n)
    &&& d.spec_unknown_fields() == config_unknown_refs(options, n)
}

/// Reads the options of one config definition, in order.
fn parse_config_options(definition: &mut ConfigDefinition, options: &Vec<MergeSyntaxEntry>, diags: &mut Vec<Diagnostic>)
    requires
        config_options_read(*old(definition), options@, 0),
    ensures
        config_options_read(*final(definition), options@, options@.len() as int),
        final(definition).spec_name() == old(definition).spec_name(),
        final(definition).spec_span() == old(definition).spec_span(),
        keeps(final(diags)@, old(diags)@),
        reports_from(final(diags)@, old(diags)@.len() as int, config_option_reports(options@, options@.len() as int)),
{
    let ghost d0 = diags@;
    let ghost def0 = *definition;
    let mut i: usize = 0;
    proof {
        assert(diags@.len() == d0.len() + config_option_reports(options@, 0).len());
    }
    while i < options.len()
        invariant
            0 <= i <= options@.len(),
            config_options_read(*definition, options@, i as int),
            definition.spec_name() == def0.spec_name(),
            definition.spec_span() == def0.spec_span(),
            keeps(diags@, d0),
            reports_from(diags@, d0.len() as int, config_option_reports(options@, i as int)),
        decreases options@.len() - i,
    {
        let ghost d_before = diags@;
        let o = &options[i];
        let key = o.key().value().as_str();
        let repeated_at = find_repeated(options.as_slice(), i);
        proof {
            lemma_definition_option_names();
            lemma_named_step(options@, "file"@, i as int);
            lemma_named_step(options@, "environment"@, i as int);
            lemma_named_step(options@, "content"@, i as int);
            lemma_named_step(options@, "name"@, i as int);
            lemma_named_step(options@, "external"@, i as int);
        }
        match repeated_at {
            Some(j) => {
                push_duplicate(diags, o.key().span(), options[j].key().span());
                proof {
                    assert(reports_from(
                        diags@,
                        d_before.len() as int,
                        seq![ParseReport::Duplicate { at: key_span(options@[i as int]), first: key_span(options@[j as int]) }],
                    ));
                }
            },
            None => {
                if str_eq(key, "file") {
                    match parse_string(o, "config file", diags) {
                        Some(v) => definition.set_file(v),
                        None => {},
                    }
                } else if str_eq(key, "environment") {
                    match parse_string(o, "config environment source", diags) {
                        Some(v) => definition.set_environment(v),
                        None => {},
                    }
                } else if str_eq(key, "content") {
                    match parse_string(o, "config content", diags) {
                        Some(v) => definition.set_content(v),
                        None => {},
                    }
                } else if str_eq(key, "name") {
                    match parse_string(o, "config custom name", diags) {
                        Some(v) => definition.set_custom_name(v),
                        None => {},
                    }
                } else if str_eq(key, "external") {
                    match parse_boolean(o, "config external", diags) {
                        Some(v) => definition.set_external(v),
                        None => {},
                    }
                }
            },
        }
        if is_extension_name(key) {
            definition.push_extension(reference_of(o));
        } else if repeated_at.is_none() && !(str_eq(key, "file") || str_eq(key, "environment") || str_eq(key, "content") || str_eq(key, "name") || str_eq(key, "external")) {
            definition.push_unknown(reference_of(o));
        }
        proof {
            lemma_reports_chain(
                d_before,
                diags@,
                d0.len() as int,
                config_option_reports(options@, i as int),
                if repeated(options@, i as int) >= 0 {
                    seq![ParseReport::Duplicate { at: key_span(options@[i as int]), first: key_span(options@[repeated(options@, i as int)]) }]
                } else {
                    config_option_field_reports(options@[i as int])
                },
            );
        }
        i += 1;
    }
}

/// A config definition read from an entry: named by its key, spanning the entry, holding what its
/// options read.
pub open spec fn config_from(d: ConfigDefinition, e: MergeSyntaxEntry) -> bool {
    &&& d.spec_name() == e.spec_key()
    &&& d.spec_span() == field_span(e)
    &&& if field_is_null(e) {
        config_options_read(d, Seq::empty(), 0)
    } else {
        field_value(e) matches Some(MergeSyntaxValue::Mapping { entries, .. }) && config_options_read(d, entries@, entries@.len() as int)
    }
}

/// What reading the first `n` entries of a top-level `configs` mapping reports, in order.
pub open spec fn config_definition_reports(entries: Seq<MergeSyntaxEntry>, n: int) -> Seq<ParseReport>
    decreases n,
{
    if n <= 0 {
        Seq::empty()
    } else {
        let e = entries[n - 1];
        config_definition_reports(entries, n - 1) + if repeated(entries, n - 1) >= 0 {
            seq![ParseReport::Duplicate { at: key_span(e), first: key_span(entries[repeated(entries, n - 1)]) }]
        } else if field_is_null(e) {
            Seq::empty()
        } else {
            match field_value(e) {
                Some(MergeSyntaxValue::Mapping { entries: options, .. }) => config_option_reports(options@, options@.len() as int),
                _ => seq![
                    ParseReport::Unexpected {
                        code: "compose.resource.expected-mapping-or-null"@,
                        message: "config definition must be a mapping or null"@,
                        span: field_span(e),
                    },
                ],
            }
        }
    }
}

/// The config definitions a top-level `configs` field reads.
pub open spec fn configs_read(defs: Seq<ConfigDefinition>, e: MergeSyntaxEntry) -> bool {
    match field_value(e) {
        Some(MergeSyntaxValue::Mapping { entries, .. }) => {
            &&& defs.len() == defining_entries(entries@, entries@.len() as int).len()
            &&& forall|j: int| 0 <= j < defs.len() ==> config_from(#[trigger] defs[j], defining_entries(entries@, entries@.len() as int)[j])
        },
        _ => defs.len() == 0,
    }
}

/// What reading a top-level `configs` field reports.
pub open spec fn configs_reports(e: MergeSyntaxEntry) -> Seq<ParseReport> {
    match field_value(e) {
        Some(MergeSyntaxValue::Mapping { entries, .. }) => config_definition_reports(entries@, entries@.len() as int),
        _ => seq![
            ParseReport::Unexpected {
                code: "compose.model.expected-mapping"@,
                message: "top-level configs must be a mapping"@,
                span: field_span(e),
            },
        ],
    }
}

/// Reads the definitions of a top-level `configs` field, in authored order.
fn parse_config_definitions(e: &MergeSyntaxEntry, diags: &mut Vec<Diagnostic>) -> (r: Vec<ConfigDefinition>)
    ensures
        configs_read(r@, *e),
        keeps(final(diags)@, old(diags)@),
        reports_from(final(diags)@, old(diags)@.len() as int, configs_reports(*e)),
{
    let ghost d0 = diags@;
    let (entries, span) = match value_of(e) {
        Some(MergeSyntaxValue::Mapping { entries, span }) => (entries, span),
        _ => {
            push_unexpected(diags, "compose.model.expected-mapping", owned("top-level configs must be a mapping"), span_of_field(e));
            return Vec::new();
        },
    };
    let mut defs: Vec<ConfigDefinition> = Vec::new();
    let mut i: usize = 0;
    proof {
        assert(diags@.len() == d0.len() + config_definition_reports(entries@, 0).len());
    }
    while i < entries.len()
        invariant
            0 <= i <= entries@.len(),
            field_value(*e) == Some(MergeSyntaxValue::Mapping { entries: *entries, span: *span }),
            defs@.len() == defining_entries(entries@, i as int).len(),
            forall|j: int| 0 <= j < defs@.len() ==> config_from(#[trigger] defs@[j], defining_entries(entries@, i as int)[j]),
            keeps(diags@, d0),
            reports_from(diags@, d0.len() as int, config_definition_reports(entries@, i as int)),
        decreases entries@.len() - i,
    {
        let ghost s_before = defs@;
        let ghost d_before = diags@;
        let entry = &entries[i];
        let ghost rest = if repeated(entries@, i as int) >= 0 {
            seq![ParseReport::Duplicate { at: key_span(entries@[i as int]), first: key_span(entries@[repeated(entries@, i as int)]) }]
        } else if field_is_null(entries@[i as int]) {
            Seq::<ParseReport>::empty()
        } else {
            match field_value(entries@[i as int]) {
                Some(MergeSyntaxValue::Mapping { entries: options, .. }) => config_option_reports(options@, options@.len() as int),
                _ => seq![
                    ParseReport::Unexpected {
                        code: "compose.resource.expected-mapping-or-null"@,
                        message: "config definition must be a mapping or null"@,
                        span: field_span(entries@[i as int]),
                    },
                ],
            }
        };
        match find_repeated(entries.as_slice(), i) {
            Some(j) => {
                push_duplicate(diags, entry.key().span(), entries[j].key().span());
            },
            None => {
                let mut definition = ConfigDefinition::new(entry.key().duplicate(), span_of_field(entry));
                proof {
                    assert(definition.spec_extension_fields() =~= extension_refs(Seq::empty(), 0));
                    assert(definition.spec_unknown_fields() =~= config_unknown_refs(Seq::empty(), 0));
                }
                if is_null_field(entry) {
                    defs.push(definition);
                } else {
                    match value_of(entry) {
                        Some(MergeSyntaxValue::Mapping { entries: options, .. }) => {
                            proof {
                                assert(definition.spec_extension_fields() =~= extension_refs(options@, 0));
                                assert(definition.spec_unknown_fields() =~= config_unknown_refs(options@, 0));
                            }
                            parse_config_options(&mut definition, options, diags);
                            defs.push(definition);
                        },
                        _ => {
                            push_unexpected(
                                diags,
                                "compose.resource.expected-mapping-or-null",
                                owned("config definition must be a mapping or null"),
                                span_of_field(entry),
                            );
                        },
                    }
                }
            },
        }
        proof {
            assert(reports_from(diags@, d_before.len() as int, rest));
            lemma_reports_chain(d_before, diags@, d0.len() as int, config_definition_reports(entries@, i as int), rest);
            assert forall|j: int| 0 <= j < defs@.len() implies config_from(
                #[trigger] defs@[j],
                defining_entries(entries@, i + 1)[j],
            ) by {
                if j < s_before.len() {
                    assert(defs@[j] == s_before[j]);
                }
            }
        }
        i += 1;
    }
    defs
}

/// The option names a secret definition can hold.
pub open spec fn secret_option_known(name: Seq<char>) -> bool {
    name == "file"@ || name == "environment"@ || name == "name"@ || name == "external"@
}

/// The references of the first `n` options of a secret definition that Compose does not define.
pub open spec fn secret_unknown_refs(options: Seq<MergeSyntaxEntry>, n: int) -> Seq<FieldReference>
    decreases n,
{
    if n <= 0 {
        Seq::empty()
    } else if repeated(options, n - 1) == -1 && !extension_name(key_text(options[n - 1])) && !secret_option_known(
        key_text(options[n - 1]),
    ) {
        secret_unknown_refs(options, n - 1).push(field_reference(options[n - 1]))
    } else {
        secret_unknown_refs(options, n - 1)
    }
}

/// What reading one option of a secret definition reports.
pub open spec fn secret_option_field_reports(o: MergeSyntaxEntry) -> Seq<ParseReport> {
    if key_text(o) == "file"@ {
        string_reports(o, "secret file"@)
    } else if key_text(o) == "environment"@ {
        string_reports(o, "secret environment source"@)
    } else if key_text(o) == "name"@ {
        string_reports(o, "secret custom name"@)
    } else if key_text(o) == "external"@ {
        boolean_reports(o, "secret external"@)
    } else {
        Seq::empty()
    }
}

/// What reading the first `n` options of a secret definition reports, in order.
pub open spec fn secret_option_reports(options: Seq<MergeSyntaxEntry>, n: int) -> Seq<ParseReport>
    decreases n,
{
    if n <= 0 {
        Seq::empty()
    } else {
        secret_option_reports(options, n - 1) + if repeated(options, n - 1) >= 0 {
            seq![ParseReport::Duplicate { at: key_span(options[n - 1]), first: key_span(options[repeated(options, n - 1)]) }]
        } else {
            secret_option_field_reports(options[n - 1])
        }
    }
}

/// A secret definition holds what its first `n` options read.
pub open spec fn secret_options_read(d: SecretDefinition, options: Seq<MergeSyntaxEntry>, n: int) -> bool {
    &&& d.spec_file() == string_field(options, "file"@, n)
    &&& d.spec_environment() == string_field(options, "environment"@, n)
    &&& d.spec_custom_name() == string_field(options, "name"@, n)
    &&& d.spec_external() == boolean_field(options, "external"@, n)
    &&& d.spec_extension_fields() == extension_refs(options, n)
    &&& d.spec_unknown_fields() == secret_unknown_refs(options, n)
}

/// Reads the options of one secret definition, in order.
fn parse_secret_options(definition: &mut SecretDefinition, options: &Vec<MergeSyntaxEntry>, diags: &mut Vec<Diagnostic>)
    requires
        secret_options_read(*old(definition), options@, 0),
    ensures
        secret_options_read(*final(definition), options@, options@.len() as int),
        final(definition).spec_name() == old(definition).spec_name(),
        final(definition).spec_span() == old(definition).spec_span(),
        keeps(final(diags)@, old(diags)@),
        reports_from(final(diags)@, old(diags)@.len() as int, secret_option_reports(options@, options@.len() as int)),
{
    let ghost d0 = diags@;
    let ghost def0 = *definition;
    let mut i: usize = 0;
    proof {
        assert(diags@.len() == d0.len() + secret_option_reports(options@, 0).len());
    }
    while i < options.len()
        invariant
            0 <= i <= options@.len(),
            secret_options_read(*definition, options@, i as int),
            definition.spec_name() == def0.spec_name(),
            definition.spec_span() == def0.spec_span(),
            keeps(diags@, d0),
            reports_from(diags@, d0.len() as int, secret_option_reports(options@, i as int)),
        decreases options@.len() - i,
    {
        let ghost d_before = diags@;
        let o = &options[i];
        let key = o.key().value().as_str();
        let repeated_at = find_repeated(options.as_slice(), i);
        proof {
            lemma_definition_option_names();
            lemma_named_step(options@, "file"@, i as int);
            lemma_named_step(options@, "environment"@, i as int);
            lemma_named_step(options@, "name"@, i as int);
            lemma_named_step(options@, "external"@, i as int);
        }
        match repeated_at {
            Some(j) => {
                push_duplicate(diags, o.key().span(), options[j].key().span());
                proof {
                    assert(reports_from(
                        diags@,
                        d_before.len() as int,
                        seq![ParseReport::Duplicate { at: key_span(options@[i as int]), first: key_span(options@[j as int]) }],
                    ));
                }
            },
            None => {
                if str_eq(key, "file") {
                    match parse_string(o, "secret file", diags) {
                        Some(v) => definition.set_file(v),
                        None => {},
                    }
                } else if str_eq(key, "environment") {
                    match parse_string(o, "secret environment source", diags) {
                        Some(v) => definition.set_environment(v),
                        None => {},
                    }
                } else if str_eq(key, "name") {
                    match parse_string(o, "secret custom name", diags) {
                        Some(v) => definition.set_custom_name(v),
                        None => {},
                    }
                } else if str_eq(key, "external") {
                    match parse_boolean(o, "secret external", diags) {
                        Some(v) => definition.set_external(v),
                        None => {},
                    }
                }
            },
        }
        if is_extension_name(key) {
            definition.push_extension(reference_of(o));
        } else if repeated_at.is_none() && !(str_eq(key, "file") || str_eq(key, "environment") || str_eq(key, "name") || str_eq(key, "external")) {
            definition.push_unknown(reference_of(o));
        }
        proof {
            lemma_reports_chain(
                d_before,
                diags@,
                d0.len() as int,
                secret_option_reports(options@, i as int),
                if repeated(options@, i as int) >= 0 {
                    seq![ParseReport::Duplicate { at: key_span(options@[i as int]), first: key_span(options@[repeated(options@, i as int)]) }]
                } else {
                    secret_option_field_reports(options@[i as int])
                },
            );
        }
        i += 1;
    }
}

/// A secret definition read from an entry: named by its key, spanning the entry, holding what its
/// options read.
pub open spec fn secret_from(d: SecretDefinition, e: MergeSyntaxEntry) -> bool {
    &&& d.spec_name() == e.spec_key()
    &&& d.spec_span() == field_span(e)
    &&& if field_is_null(e) {
        secret_options_read(d, Seq::empty(), 0)
    } else {
        field_value(e) matches Some(MergeSyntaxValue::Mapping { entries, .. }) && secret_options_read(d, entries@, entries@.len() as int)
    }
}

/// What reading the first `n` entries of a top-level `secrets` mapping reports, in order.
pub open spec fn secret_definition_reports(entries: Seq<MergeSyntaxEntry>, n: int) -> Seq<ParseReport>
    decreases n,
{
    if n <= 0 {
        Seq::empty()
    } else {
        let e = entries[n - 1];
        secret_definition_reports(entries, n - 1) + if repeated(entries, n - 1) >= 0 {
            seq![ParseReport::Duplicate { at: key_span(e), first: key_span(entries[repeated(entries, n - 1)]) }]
        } else if field_is_null(e) {
            Seq::empty()
        } else {
            match field_value(e) {
                Some(MergeSyntaxValue::Mapping { entries: options, .. }) => secret_option_reports(options@, options@.len() as int),
                _ => seq![
                    ParseReport::Unexpected {
                        code: "compose.resource.expected-mapping-or-null"@,
                        message: "secret definition must be a mapping or null"@,
                        span: field_span(e),
                    },
                ],
            }
        }
    }
}

/// The secret definitions a top-level `secrets` field reads.
pub open spec fn secrets_read(defs: Seq<SecretDefinition>, e: MergeSyntaxEntry) -> bool {
    match field_value(e) {
        Some(MergeSyntaxValue::Mapping { entries, .. }) => {
            &&& defs.len() == defining_entries(entries@, entries@.len() as int).len()
            &&& forall|j: int| 0 <= j < defs.len() ==> secret_from(#[trigger] defs[j], defining_entries(entries@, entries@.len() as int)[j])
        },
        _ => defs.len() == 0,
    }
}

/// What reading a top-level `secrets` field reports.
pub open spec fn secrets_reports(e: MergeSyntaxEntry) -> Seq<ParseReport> {
    match field_value(e) {
        Some(MergeSyntaxValue::Mapping { entries, .. }) => secret_definition_reports(entries@, entries@.len() as int),
        _ => seq![
            ParseReport::Unexpected {
                code: "compose.model.expected-mapping"@,
                message: "top-level secrets must be a mapping"@,
                span: field_span(e),
            },
        ],
    }
}

/// Reads the definitions of a top-level `secrets` field, in authored order.
fn parse_secret_definitions(e: &MergeSyntaxEntry, diags: &mut Vec<Diagnostic>) -> (r: Vec<SecretDefinition>)
    ensures
        secrets_read(r@, *e),
        keeps(final(diags)@, old(diags)@),
        reports_from(final(diags)@, old(diags)@.len() as int, secrets_reports(*e)),
{
    let ghost d0 = diags@;
    let (entries, span) = match value_of(e) {
        Some(MergeSyntaxValue::Mapping { entries, span }) => (entries, span),
        _ => {
            push_unexpected(diags, "compose.model.expected-mapping", owned("top-level secrets must be a mapping"), span_of_field(e));
            return Vec::new();
        },
    };
    let mut defs: Vec<SecretDefinition> = Vec::new();
    let mut i: usize = 0;
    proof {
        assert(diags@.len() == d0.len() + secret_definition_reports(entries@, 0).len());
    }
    while i < entries.len()
        invariant
            0 <= i <= entries@.len(),
            field_value(*e) == Some(MergeSyntaxValue::Mapping { entries: *entries, span: *span }),
            defs@.len() == defining_entries(entries@, i as int).len(),
            forall|j: int| 0 <= j < defs@.len() ==> secret_from(#[trigger] defs@[j], defining_entries(entries@, i as int)[j]),
            keeps(diags@, d0),
            reports_from(diags@, d0.len() as int, secret_definition_reports(entries@, i as int)),
        decreases entries@.len() - i,
    {
        let ghost s_before = defs@;
        let ghost d_before = diags@;
        let entry = &entries[i];
        let ghost rest = if repeated(entries@, i as int) >= 0 {
            seq![ParseReport::Duplicate { at: key_span(entries@[i as int]), first: key_span(entries@[repeated(entries@, i as int)]) }]
        } else if field_is_null(entries@[i as int]) {
            Seq::<ParseReport>::empty()
        } else {
            match field_value(entries@[i as int]) {
                Some(MergeSyntaxValue::Mapping { entries: options, .. }) => secret_option_reports(options@, options@.len() as int),
                _ => seq![
                    ParseReport::Unexpected {
                        code: "compose.resource.expected-mapping-or-null"@,
                        message: "secret definition must be a mapping or null"@,
                        span: field_span(entries@[i as int]),
                    },
                ],
            }
        };
        match find_repeated(entries.as_slice(), i) {
            Some(j) => {
                push_duplicate(diags, entry.key().span(), entries[j].key().span());
            },
            None => {
                let mut definition = SecretDefinition::new(entry.key().duplicate(), span_of_field(entry));
                proof {
                    assert(definition.spec_extension_fields() =~= extension_refs(Seq::empty(), 0));
                    assert(definition.spec_unknown_fields() =~= secret_unknown_refs(Seq::empty(), 0));
                }
                if is_null_field(entry) {
                    defs.push(definition);
                } else {
                    match value_of(entry) {
                        Some(MergeSyntaxValue::Mapping { entries: options, .. }) => {
                            proof {
                                assert(definition.spec_extension_fields() =~= extension_refs(options@, 0));
                                assert(definition.spec_unknown_fields() =~= secret_unknown_refs(options@, 0));
                            }
                            parse_secret_options(&mut definition, options, diags);
                            defs.push(definition);
                        },
                        _ => {
                            push_unexpected(
                                diags,
                                "compose.resource.expected-mapping-or-null",
                                owned("secret definition must be a mapping or null"),
                                span_of_field(entry),
                            );
                        },
                    }
                }
            },
        }
        proof {
            assert(reports_from(diags@, d_before.len() as int, rest));
            lemma_reports_chain(d_before, diags@, d0.len() as int, secret_definition_reports(entries@, i as int), rest);
            assert forall|j: int| 0 <= j < defs@.len() implies secret_from(
                #[trigger] defs@[j],
                defining_entries(entries@, i + 1)[j],
            ) by {
                if j < s_before.len() {
                    assert(defs@[j] == s_before[j]);
                }
            }
        }
        i += 1;
    }
    defs
}

proof fn lemma_first_key_push(s: Seq<MergeSyntaxEntry>, d: MergeSyntaxEntry, name: Seq<char>, m: int)
    requires
        0 <= m <= s.len(),
    ensures
        first_key(s.push(d), name, m) == first_key(s, name, m),
    decreases m,
{
    if m > 0 {
        lemma_first_key_push(s, d, name, m - 1);
        assert(s.push(d)[m - 1] == s[m - 1]);
    }
}

proof fn lemma_service_reports_push(s: Seq<MergeSyntaxEntry>, d: MergeSyntaxEntry, m: int)
    requires
        0 <= m <= s.len(),
    ensures
        service_reports(s.push(d), m) == service_reports(s, m),
        service_unknown_refs(s.push(d), m) == service_unknown_refs(s, m),
        extension_refs(s.push(d), m) == extension_refs(s, m),
    decreases m,
{
    if m > 0 {
        lemma_service_reports_push(s, d, m - 1);
        assert(s.push(d)[m - 1] == s[m - 1]);
        lemma_first_key_push(s, d, key_text(s[m - 1]), m - 1);
        let r = repeated(s, m - 1);
        if r >= 0 {
            lemma_first_key_bound(s, key_text(s[m - 1]), m - 1);
            assert(s.push(d)[r] == s[r]);
        }
    }
}

/// A service key written again never changes what the service reads: every field still reads
/// its first entry, the unknown fields are unchanged, and the repetition adds exactly one report,
/// pointing at the entry it repeats.
pub proof fn law_repeated_key_is_ignored(s: Seq<MergeSyntaxEntry>, d: MergeSyntaxEntry, j: int, name: Seq<char>)
    requires
        0 <= j < s.len(),
        key_text(s[j]) == key_text(d),
    ensures
        named_entry(s.push(d), name, s.len() as int + 1) == named_entry(s, name, s.len() as int),
        service_unknown_refs(s.push(d), s.len() as int + 1) == service_unknown_refs(s, s.len() as int),
        service_reports(s.push(d), s.len() as int + 1) == service_reports(s, s.len() as int) + seq![
            ParseReport::Duplicate { at: key_span(d), first: key_span(s[first_key(s, key_text(d), s.len() as int)]) },
        ],
{
    let t = s.push(d);
    let n = s.len() as int;
    lemma_first_key_push(s, d, name, n);
    lemma_first_key_push(s, d, key_text(d), n);
    lemma_service_reports_push(s, d, n);
    lemma_first_key_bound(s, key_text(d), n);
    assert(first_key(s, key_text(d), j + 1) >= 0) by {
        lemma_first_key_bound(s, key_text(d), j);
    }
    lemma_first_key_stable(s, key_text(d), j + 1, n);
    assert(t[n] == d);
    assert(repeated(t, n) == first_key(s, key_text(d), n));
    lemma_first_key_bound(s, name, n);
    if named_entry(s, name, n) is Some {
        assert(t[first_key(s, name, n)] == s[first_key(s, name, n)]);
    }
    assert(t[first_key(s, key_text(d), n)] == s[first_key(s, key_text(d), n)]);
}

/// The field names a document root can hold.
pub open spec fn root_field_known(name: Seq<char>) -> bool {
    name == "name"@ || name == "services"@ || name == "networks"@ || name == "volumes"@ || name == "configs"@
        || name == "secrets"@
}

/// Reports whether a document root can hold the field.
fn is_root_field(name: &str) -> (r: bool)
    ensures
        r == root_field_known(name@),
{
    str_eq(name, "name") || str_eq(name, "services") || str_eq(name, "networks") || str_eq(name, "volumes")
        || str_eq(name, "configs") || str_eq(name, "secrets")
}

/// The references of the first `n` root entries that Compose does not define, in order; a
/// repeated key is not kept.
pub open spec fn root_unknown_refs(entries: Seq<MergeSyntaxEntry>, n: int) -> Seq<FieldReference>
    decreases n,
{
    if n <= 0 {
        Seq::empty()
    } else if repeated(entries, n - 1) == -1 && !extension_name(key_text(entries[n - 1])) && !root_field_known(
        key_text(entries[n - 1]),
    ) {
        root_unknown_refs(entries, n - 1).push(field_reference(entries[n - 1]))
    } else {
        root_unknown_refs(entries, n - 1)
    }
}

/// What reading one root field reports.
pub open spec fn root_field_reports(e: MergeSyntaxEntry) -> Seq<ParseReport> {
    if key_text(e) == "name"@ {
        string_reports(e, "project name"@)
    } else if key_text(e) == "services"@ {
        services_reports(e)
    } else if key_text(e) == "configs"@ {
        configs_reports(e)
    } else if key_text(e) == "secrets"@ {
        secrets_reports(e)
    } else {
        Seq::empty()
    }
}

/// What reading the first `n` root entries reports, in order.
pub open spec fn root_reports(entries: Seq<MergeSyntaxEntry>, n: int) -> Seq<ParseReport>
    decreases n,
{
    if n <= 0 {
        Seq::empty()
    } else {
        root_reports(entries, n - 1) + if repeated(entries, n - 1) >= 0 {
            seq![ParseReport::Duplicate { at: key_span(entries[n - 1]), first: key_span(entries[repeated(entries, n - 1)]) }]
        } else {
            root_field_reports(entries[n - 1])
        }
    }
}

/// A document holds what its first `n` root entries read. Network and volume definitions are
/// not read by this parse.
pub open spec fn root_reads(d: ComposeDocument, entries: Seq<MergeSyntaxEntry>, n: int) -> bool {
    &&& d.spec_name() == string_field(entries, "name"@, n)
    &&& match named_entry(entries, "services"@, n) {
        Some(e) => services_read(d.spec_services(), e),
        None => d.spec_services().len() == 0,
    }
    &&& d.spec_extension_fields() == extension_refs(entries, n)
    &&& d.spec_unknown_fields() == root_unknown_refs(entries, n)
    &&& match named_entry(entries, "configs"@, n) {
        Some(e) => configs_read(d.spec_configs(), e),
        None => d.spec_configs().len() == 0,
    }
    &&& match named_entry(entries, "secrets"@, n) {
        Some(e) => secrets_read(d.spec_secrets(), e),
        None => d.spec_secrets().len() == 0,
    }
    &&& d.spec_networks().len() == 0
    &&& d.spec_volumes().len() == 0
}

/// Appends services to a document, in order.
fn push_services(document: &mut ComposeDocument, services: Vec<Service>)
    ensures
        final(document).spec_services() == old(document).spec_services() + services@,
        final(document).spec_source_id() == old(document).spec_source_id(),
        final(document).spec_span() == old(document).spec_span(),
        final(document).spec_name() == old(document).spec_name(),
        final(document).spec_networks() == old(document).spec_networks(),
        final(document).spec_volumes() == old(document).spec_volumes(),
        final(document).spec_configs() == old(document).spec_configs(),
        final(document).spec_secrets() == old(document).spec_secrets(),
        final(document).spec_extension_fields() == old(document).spec_extension_fields(),
        final(document).spec_unknown_fields() == old(document).spec_unknown_fields(),
{
    let ghost all = old(document).spec_services() + services@;
    let mut rest = services;
    while rest.len() > 0
        invariant
            document.spec_services() + rest@ == all,
            all == old(document).spec_services() + services@,
            document.spec_source_id() == old(document).spec_source_id(),
            document.spec_span() == old(document).spec_span(),
            document.spec_name() == old(document).spec_name(),
            document.spec_networks() == old(document).spec_networks(),
            document.spec_volumes() == old(document).spec_volumes(),
            document.spec_configs() == old(document).spec_configs(),
            document.spec_secrets() == old(document).spec_secrets(),
            document.spec_extension_fields() == old(document).spec_extension_fields(),
            document.spec_unknown_fields() == old(document).spec_unknown_fields(),
        decreases rest@.len(),
    {
        let ghost before = document.spec_services();
        let ghost r0 = rest@;
        let service = rest.remove(0);
        document.push_service(service);
        proof {
            assert(document.spec_services() + rest@ =~= before + r0);
        }
    }
    proof {
        assert(document.spec_services() =~= document.spec_services() + rest@);
    }
}

/// Appends configs definitions to a document, in order.
fn push_configs(document: &mut ComposeDocument, definitions: Vec<ConfigDefinition>)
    ensures
        final(document).spec_configs() == old(document).spec_configs() + definitions@,
        final(document).spec_source_id() == old(document).spec_source_id(),
        final(document).spec_span() == old(document).spec_span(),
        final(document).spec_name() == old(document).spec_name(),
        final(document).spec_networks() == old(document).spec_networks(),
        final(document).spec_volumes() == old(document).spec_volumes(),
        final(document).spec_services() == old(document).spec_services(),
        final(document).spec_secrets() == old(document).spec_secrets(),
        final(document).spec_extension_fields() == old(document).spec_extension_fields(),
        final(document).spec_unknown_fields() == old(document).spec_unknown_fields(),
{
    let ghost all = old(document).spec_configs() + definitions@;
    let mut rest = definitions;
    while rest.len() > 0
        invariant
            document.spec_configs() + rest@ == all,
            all == old(document).spec_configs() + definitions@,
            document.spec_source_id() == old(document).spec_source_id(),
            document.spec_span() == old(document).spec_span(),
            document.spec_name() == old(document).spec_name(),
            document.spec_networks() == old(document).spec_networks(),
            document.spec_volumes() == old(document).spec_volumes(),
            document.spec_services() == old(document).spec_services(),
            document.spec_secrets() == old(document).spec_secrets(),
            document.spec_extension_fields() == old(document).spec_extension_fields(),
            document.spec_unknown_fields() == old(document).spec_unknown_fields(),
        decreases rest@.len(),
    {
        let ghost before = document.spec_configs();
        let ghost r0 = rest@;
        let definition = rest.remove(0);
        document.push_config(definition);
        proof {
            assert(document.spec_configs() + rest@ =~= before + r0);
        }
    }
    proof {
        assert(document.spec_configs() =~= document.spec_configs() + rest@);
    }
}

/// Appends secrets definitions to a document, in order.
fn push_secrets(document: &mut ComposeDocument, definitions: Vec<SecretDefinition>)
    ensures
        final(document).spec_secrets() == old(document).spec_secrets() + definitions@,
        final(document).spec_source_id() == old(document).spec_source_id(),
        final(document).spec_span() == old(document).spec_span(),
        final(document).spec_name() == old(document).spec_name(),
        final(document).spec_networks() == old(document).spec_networks(),
        final(document).spec_volumes() == old(document).spec_volumes(),
        final(document).spec_configs() == old(document).spec_configs(),
        final(document).spec_services() == old(document).spec_services(),
        final(document).spec_extension_fields() == old(document).spec_extension_fields(),
        final(document).spec_unknown_fields() == old(document).spec_unknown_fields(),
{
    let ghost all = old(document).spec_secrets() + definitions@;
    let mut rest = definitions;
    while rest.len() > 0
        invariant
            document.spec_secrets() + rest@ == all,
            all == old(document).spec_secrets() + definitions@,
            document.spec_source_id() == old(document).spec_source_id(),
            document.spec_span() == old(document).spec_span(),
            document.spec_name() == old(document).spec_name(),
            document.spec_networks() == old(document).spec_networks(),
            document.spec_volumes() == old(document).spec_volumes(),
            document.spec_configs() == old(document).spec_configs(),
            document.spec_services() == old(document).spec_services(),
            document.spec_extension_fields() == old(document).spec_extension_fields(),
            document.spec_unknown_fields() == old(document).spec_unknown_fields(),
        decreases rest@.len(),
    {
        let ghost before = document.spec_secrets();
        let ghost r0 = rest@;
        let definition = rest.remove(0);
        document.push_secret(definition);
        proof {
            assert(document.spec_secrets() + rest@ =~= before + r0);
        }
    }
    proof {
        assert(document.spec_secrets() =~= document.spec_secrets() + rest@);
    }
}

/// Reads the root entries of a document, in order.
fn parse_root(document: &mut ComposeDocument, entries: &Vec<MergeSyntaxEntry>, diagnostics: &mut Vec<Diagnostic>)
    requires
        root_reads(*old(document), entries@, 0),
    ensures
        root_reads(*final(document), entries@, entries@.len() as int),
        final(document).spec_source_id() == old(document).spec_source_id(),
        final(document).spec_span() == old(document).spec_span(),
        keeps(final(diagnostics)@, old(diagnostics)@),
        reports_from(final(diagnostics)@, old(diagnostics)@.len() as int, root_reports(entries@, entries@.len() as int)),
{
    let ghost d0 = diagnostics@;
    let ghost doc0 = *document;
    let mut i: usize = 0;
    proof {
        assert(diagnostics@.len() == d0.len() + root_reports(entries@, 0).len());
    }
    while i < entries.len()
        invariant
            0 <= i <= entries@.len(),
            root_reads(*document, entries@, i as int),
            document.spec_source_id() == doc0.spec_source_id(),
            document.spec_span() == doc0.spec_span(),
            keeps(diagnostics@, d0),
            reports_from(diagnostics@, d0.len() as int, root_reports(entries@, i as int)),
        decreases entries@.len() - i,
    {
        let ghost before = *document;
        let ghost d_before = diagnostics@;
        let e = &entries[i];
        let key = e.key().value().as_str();
        let repeated_at = find_repeated(entries.as_slice(), i);
        proof {
            reveal_strlit("name");
            reveal_strlit("services");
            reveal_strlit("configs");
            reveal_strlit("secrets");
            lemma_named_step(entries@, "name"@, i as int);
            lemma_named_step(entries@, "services"@, i as int);
            lemma_named_step(entries@, "configs"@, i as int);
            lemma_named_step(entries@, "secrets"@, i as int);
            lemma_first_key_bound(entries@, "services"@, i as int);
            lemma_first_key_bound(entries@, "configs"@, i as int);
            lemma_first_key_bound(entries@, "secrets"@, i as int);
        }
        match repeated_at {
            Some(k) => {
                push_duplicate(diagnostics, e.key().span(), entries[k].key().span());
                proof {
                    assert(reports_from(
                        diagnostics@,
                        d_before.len() as int,
                        seq![ParseReport::Duplicate { at: key_span(entries@[i as int]), first: key_span(entries@[k as int]) }],
                    ));
                }
            },
            None => {
                if str_eq(key, "name") {
                    match parse_string(e, "project name", diagnostics) {
                        Some(v) => document.set_name(v),
                        None => {},
                    }
                } else if str_eq(key, "services") {
                    let services = parse_services(e, diagnostics);
                    proof {
                        assert(document.spec_services().len() == 0);
                        assert(document.spec_services() + services@ =~= services@);
                    }
                    push_services(document, services);
                } else if str_eq(key, "configs") {
                    let configs = parse_config_definitions(e, diagnostics);
                    proof {
                        assert(document.spec_configs() + configs@ =~= configs@);
                    }
                    push_configs(document, configs);
                } else if str_eq(key, "secrets") {
                    let secrets = parse_secret_definitions(e, diagnostics);
                    proof {
                        assert(document.spec_secrets() + secrets@ =~= secrets@);
                    }
                    push_secrets(document, secrets);
                }
            },
        }
        if is_extension_name(key) {
            document.push_extension(reference_of(e));
        } else if repeated_at.is_none() && !is_root_field(key) {
            document.push_unknown(reference_of(e));
        }
        proof {
            lemma_reports_chain(
                d_before,
                diagnostics@,
                d0.len() as int,
                root_reports(entries@, i as int),
                if repeated(entries@, i as int) >= 0 {
                    seq![ParseReport::Duplicate { at: key_span(entries@[i as int]), first: key_span(entries@[repeated(entries@, i as int)]) }]
                } else {
                    root_field_reports(entries@[i as int])
                },
            );
        }
        i += 1;
    }
}

/// The value a root reference points at.
pub open spec fn root_value(root: Option<&MergeSyntaxValue>) -> Option<MergeSyntaxValue> {
    match root {
        Some(v) => Some(*v),
        None => None,
    }
}

/// What parsing a document reports, in order: more than one document in the source, then a
/// missing or non-mapping root, or what reading the root's entries reports.
pub open spec fn document_reports(source_span: SourceSpan, document_count: int, root: Option<MergeSyntaxValue>) -> Seq<ParseReport> {
    (if document_count > 1 {
        seq![ParseReport::MultipleDocuments(source_span)]
    } else {
        Seq::empty()
    }) + match root {
        None => seq![ParseReport::RootType { label: "empty document"@, span: source_span }],
        Some(MergeSyntaxValue::Mapping { entries, .. }) => root_reports(entries@, entries@.len() as int),
        Some(v) => seq![ParseReport::RootType { label: "not a mapping"@, span: node_span(v) }],
    }
}

/// Extracts the typed Compose document from the authored tree of a document's root.
///
/// `document_count` is the number of YAML documents in the source, `source_span` the span of the
/// whole source; only a mapping root gives a document.
pub fn parse_document(
    source_id: SourceId,
    source_span: SourceSpan,
    document_count: usize,
    root: Option<&MergeSyntaxValue>,
) -> (r: ModelParse)
    ensures
        reports_from(r.spec_diagnostics(), 0, document_reports(source_span, document_count as int, root_value(root))),
        match root_value(root) {
            Some(MergeSyntaxValue::Mapping { entries, span }) => r.spec_document() matches Some(d) && d.spec_source_id()
                == source_id && d.spec_span() == span && root_reads(d, entries@, entries@.len() as int),
            _ => r.spec_document() is None,
        },
{
    let mut diagnostics: Vec<Diagnostic> = Vec::new();
    if document_count > 1 {
        diagnostics.push(labelled(
            "compose.document.multiple-documents",
            owned("Compose input must contain one YAML document"),
            source_span,
            "multiple YAML documents",
        ));
    }
    let ghost d_lead = diagnostics@;
    proof {
        assert(reports_from(d_lead, 0, if document_count > 1 {
            seq![ParseReport::MultipleDocuments(source_span)]
        } else {
            Seq::empty()
        }));
    }
    let document = match root {
        None => {
            diagnostics.push(labelled(
                "compose.document.expected-mapping",
                owned("Compose document root must be a mapping"),
                source_span,
                "empty document",
            ));
            None
        },
        Some(MergeSyntaxValue::Mapping { entries, span }) => {
            let mut document = ComposeDocument::new(source_id, *span);
            proof {
                assert(document.spec_extension_fields() =~= extension_refs(entries@, 0));
                assert(document.spec_unknown_fields() =~= root_unknown_refs(entries@, 0));
            }
            parse_root(&mut document, entries, &mut diagnostics);
            Some(document)
        },
        Some(v) => {
            diagnostics.push(labelled(
                "compose.document.expected-mapping",
                owned("Compose document root must be a mapping"),
                span_of(v),
                "not a mapping",
            ));
            None
        },
    };
    proof {
        let lead = if document_count > 1 {
            seq![ParseReport::MultipleDocuments(source_span)]
        } else {
            Seq::<ParseReport>::empty()
        };
        let rest = match root_value(root) {
            None => seq![ParseReport::RootType { label: "empty document"@, span: source_span }],
            Some(MergeSyntaxValue::Mapping { entries, .. }) => root_reports(entries@, entries@.len() as int),
            Some(v) => seq![ParseReport::RootType { label: "not a mapping"@, span: node_span(v) }],
        };
        assert(reports_from(diagnostics@, d_lead.len() as int, rest));
        lemma_reports_chain(d_lead, diagnostics@, 0, lead, rest);
    }
    ModelParse::new(document, diagnostics)
}


impl ComposeDocument {
    /// Extracts the typed Compose document from the authored tree of a document's root; see
    /// [`parse_document`].
    pub fn parse(source_id: SourceId, source_span: SourceSpan, document_count: usize, root: Option<&MergeSyntaxValue>) -> (r: ModelParse)
        ensures
            reports_from(r.spec_diagnostics(), 0, document_reports(source_span, document_count as int, root_value(root))),
            match root_value(root) {
                Some(MergeSyntaxValue::Mapping { entries, span }) => r.spec_document() matches Some(d) && d.spec_source_id()
                    == source_id && d.spec_span() == span && root_reads(d, entries@, entries@.len() as int),
                _ => r.spec_document() is None,
            },
    {
        parse_document(source_id, source_span, document_count, root)
    }
}

} // verus!
