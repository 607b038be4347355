//! Stable, source-aware diagnostics.

use crate::source::SourceSpan;
use vstd::prelude::*;

verus! {

/// A stable machine-readable diagnostic identifier.
#[derive(Debug, Clone, Copy, PartialEq, Eq, PartialOrd, Ord, Hash)]
pub struct DiagnosticCode(&'static str);

impl DiagnosticCode {
    /// The text of the code.
    pub closed spec fn text(self) -> Seq<char> {
        self.0@
    }

    /// Creates a diagnostic code from a stable static string.
    pub fn new(value: &'static str) -> (code: Self)
        ensures
            code.text() == value@,
    {
        Self(value)
    }

    /// Returns the code as text.
    pub fn as_str(self) -> (text: &'static str)
        ensures
            text@ == self.text(),
    {
        self.0
    }
}

/// The severity assigned to a diagnostic.
#[derive(Debug, Clone, Copy, PartialEq, Eq, PartialOrd, Ord, Hash, Structural)]
pub enum Severity {
    /// The input cannot be interpreted as requested.
    Error,
    /// The input is usable but deserves attention.
    Warning,
    /// Additional information that does not indicate a problem.
    Note,
}

/// The role of a source label in a diagnostic.
#[derive(Debug, Clone, Copy, PartialEq, Eq, Hash, Structural)]
pub enum LabelKind {
    /// The location primarily responsible for the diagnostic.
    Primary,
    /// A related location that adds context.
    Secondary,
}

/// A message attached to a source span.
#[derive(Debug, Clone, PartialEq, Eq)]
pub struct DiagnosticLabel {
    kind: LabelKind,
    span: SourceSpan,
    message: String,
}

impl DiagnosticLabel {
    /// The label role.
    pub closed spec fn spec_kind(&self) -> LabelKind {
        self.kind
    }

    /// The labeled span.
    pub closed spec fn spec_span(&self) -> SourceSpan {
        self.span
    }

    /// The label text.
    pub closed spec fn spec_message(&self) -> Seq<char> {
        self.message@
    }

    /// Creates a primary source label.
    pub fn primary(span: SourceSpan, message: String) -> (label: Self)
        ensures
            label.spec_kind() == LabelKind::Primary,
            label.spec_span() == span,
            label.spec_message() == message@,
    {
        Self { kind: LabelKind::Primary, span, message }
    }

    /// Creates a secondary source label.
    pub fn secondary(span: SourceSpan, message: String) -> (label: Self)
        ensures
            label.spec_kind() == LabelKind::Secondary,
            label.spec_span() == span,
            label.spec_message() == message@,
    {
        Self { kind: LabelKind::Secondary, span, message }
    }

    /// Returns an equal copy.
    pub fn duplicate(&self) -> (label: Self)
        ensures
            label == *self,
    {
        Self { kind: self.kind, span: self.span, message: self.message.clone() }
    }

    /// Returns the label role.
    pub fn kind(&self) -> (kind: LabelKind)
        ensures
            kind == self.spec_kind(),
    {
        self.kind
    }

    /// Returns the labeled source span.
    pub fn span(&self) -> (span: SourceSpan)
        ensures
            span == self.spec_span(),
    {
        self.span
    }

    /// Returns the human-readable label.
    pub fn message(&self) -> (message: &str)
        ensures
            message@ == self.spec_message(),
    {
        self.message.as_str()
    }
}

/// A structured diagnostic with stable identity and source labels.
#[derive(Debug, Clone, PartialEq, Eq)]
pub struct Diagnostic {
    code: DiagnosticCode,
    severity: Severity,
    message: String,
    labels: Vec<DiagnosticLabel>,
    notes: Vec<String>,
}

impl Diagnostic {
    /// The stable code.
    pub closed spec fn spec_code(&self) -> DiagnosticCode {
        self.code
    }

    /// The severity.
    pub closed spec fn spec_severity(&self) -> Severity {
        self.severity
    }

    /// The summary text.
    pub closed spec fn spec_message(&self) -> Seq<char> {
        self.message@
    }

    /// The source labels in display order.
    pub closed spec fn spec_labels(&self) -> Seq<DiagnosticLabel> {
        self.labels@
    }

    /// The notes in display order.
    pub closed spec fn spec_notes(&self) -> Seq<String> {
        self.notes@
    }

    /// Creates a diagnostic without source labels.
    pub fn new(code: DiagnosticCode, severity: Severity, message: String) -> (d: Self)
        ensures
            d.spec_code() == code,
            d.spec_severity() == severity,
            d.spec_message() == message@,
            d.spec_labels() == Seq::<DiagnosticLabel>::empty(),
            d.spec_notes() == Seq::<String>::empty(),
    {
        Self { code, severity, message, labels: Vec::new(), notes: Vec::new() }
    }

    /// Appends a source label.
    pub fn with_label(self, label: DiagnosticLabel) -> (d: Self)
        ensures
            d.spec_code() == self.spec_code(),
            d.spec_severity() == self.spec_severity(),
            d.spec_message() == self.spec_message(),
            d.spec_labels() == self.spec_labels().push(label),
            d.spec_notes() == self.spec_notes(),
    {
        let mut d = self;
        d.labels.push(label);
        d
    }

    /// Appends a human-readable note.
    pub fn with_note(self, note: String) -> (d: Self)
        ensures
            d.spec_code() == self.spec_code(),
            d.spec_severity() == self.spec_severity(),
            d.spec_message() == self.spec_message(),
            d.spec_labels() == self.spec_labels(),
            d.spec_notes() == self.spec_notes().push(note),
    {
        let mut d = self;
        d.notes.push(note);
        d
    }

    /// Returns a copy with the same code, severity, message, labels and notes.
    pub fn duplicate(&self) -> (d: Self)
        ensures
            same_diagnostic(d, *self),
    {
        let mut labels: Vec<DiagnosticLabel> = Vec::new();
        let mut i: usize = 0;
        while i < self.labels.len()
            invariant
                0 <= i <= self.labels.len(),
                labels@ == self.labels@.subrange(0, i as int),
            decreases self.labels.len() - i,
        {
            labels.push(self.labels[i].duplicate());
            i += 1;
            assert(labels@ =~= self.labels@.subrange(0, i as int));
        }
        let mut notes: Vec<String> = Vec::new();
        let mut j: usize = 0;
        while j < self.notes.len()
            invariant
                0 <= j <= self.notes.len(),
                notes@ == self.notes@.subrange(0, j as int),
            decreases self.notes.len() - j,
        {
            notes.push(self.notes[j].clone());
            j += 1;
            assert(notes@ =~= self.notes@.subrange(0, j as int));
        }
        assert(labels@ =~= self.labels@);
        assert(notes@ =~= self.notes@);
        Self { code: self.code, severity: self.severity, message: self.message.clone(), labels, notes }
    }

    /// Returns the stable diagnostic code.
    pub fn code(&self) -> (code: DiagnosticCode)
        ensures
            code == self.spec_code(),
    {
        self.code
    }

    /// Returns the severity.
    pub fn severity(&self) -> (severity: Severity)
        ensures
            severity == self.spec_severity(),
    {
        self.severity
    }

    /// Returns the human-readable summary.
    pub fn message(&self) -> (message: &str)
        ensures
            message@ == self.spec_message(),
    {
        self.message.as_str()
    }

    /// Returns the source labels in display order.
    pub fn labels(&self) -> (labels: &[DiagnosticLabel])
        ensures
            labels@ == self.spec_labels(),
    {
        self.labels.as_slice()
    }

    /// Returns the additional notes in display order.
    pub fn notes(&self) -> (notes: &[String])
        ensures
            notes@ == self.spec_notes(),
    {
        self.notes.as_slice()
    }
}

/// Two diagnostics agree in code, severity, message, labels and notes.
pub open spec fn same_diagnostic(a: Diagnostic, b: Diagnostic) -> bool {
    &&& a.spec_code() == b.spec_code()
    &&& a.spec_severity() == b.spec_severity()
    &&& a.spec_message() == b.spec_message()
    &&& a.spec_labels() == b.spec_labels()
    &&& a.spec_notes() == b.spec_notes()
}

/// Some diagnostic of the sequence is an error.
pub open spec fn has_error(diagnostics: Seq<Diagnostic>) -> bool {
    exists|i: int| 0 <= i < diagnostics.len() && diagnostics[i].spec_severity() == Severity::Error
}

/// Reports whether some diagnostic is an error.
pub fn any_error(diagnostics: &[Diagnostic]) -> (r: bool)
    ensures
        r == has_error(diagnostics@),
{
    let mut i: usize = 0;
    while i < diagnostics.len()
        invariant
            0 <= i <= diagnostics.len(),
            forall|j: int| 0 <= j < i ==> diagnostics@[j].spec_severity() != Severity::Error,
        decreases diagnostics.len() - i,
    {
        if diagnostics[i].severity() == Severity::Error {
            return true;
        }
        i += 1;
    }
    false
}

} // verus!
