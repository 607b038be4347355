//! Service environment forms.

use super::value::{BooleanValue, ComposeScalar};
use super::{lb, lc, FieldReference, Located};
use crate::source::SourceSpan;
use crate::text::{contains_byte, find, owned, sb, split_once, str_eq};
use vstd::prelude::*;

verus! {

/// One `NAME[=value]` item of a list-form environment.
#[derive(Debug, Clone, PartialEq, Eq)]
pub struct EnvironmentListEntry {
    raw: Located<String>,
    name: String,
    value: Option<String>,
}

impl EnvironmentListEntry {
    /// The authored scalar.
    pub closed spec fn spec_raw(&self) -> Located<String> {
        self.raw
    }

    /// The variable name.
    pub closed spec fn spec_name(&self) -> String {
        self.name
    }

    /// The value after the first `=`.
    pub closed spec fn spec_value(&self) -> Option<String> {
        self.value
    }

    /// Returns the authored scalar.
    pub fn raw(&self) -> (r: &Located<String>)
        ensures
            *r == self.spec_raw(),
    {
        &self.raw
    }

    /// Returns the variable name.
    pub fn name(&self) -> (r: &str)
        ensures
            r@ == self.spec_name()@,
    {
        self.name.as_str()
    }

    /// Returns the value after the first `=`.
    pub fn value(&self) -> (r: Option<&str>)
        ensures
            r is Some <==> self.spec_value() is Some,
            r matches Some(v) ==> v@ == self.spec_value()->0@,
    {
        match &self.value {
            Some(v) => Some(v.as_str()),
            None => None,
        }
    }

    /// Splits an item at its first `=` into name and value.
    pub fn parse(raw: Located<String>) -> (r: Self)
        ensures
            r.spec_raw() == raw,
            find(lb(raw), 61) == -1 ==> r.spec_name()@ == lc(raw) && r.spec_value() is None,
            find(lb(raw), 61) != -1 ==> sb(r.spec_name()@) == lb(raw).subrange(0, find(lb(raw), 61))
                && r.spec_value() is Some && sb(r.spec_value()->0@) == lb(raw).subrange(find(lb(raw), 61) + 1, lb(raw).len() as int),
    {
        let (name, value) = match split_once(raw.value().as_str(), 61) {
            Some((name, value)) => (owned(name), Some(owned(value))),
            None => (raw.value().clone(), None),
        };
        Self { raw, name, value }
    }
}

/// One entry of a mapping-form environment.
#[derive(Debug, Clone, PartialEq, Eq)]
pub struct EnvironmentMapEntry {
    name: Located<String>,
    value: Located<ComposeScalar>,
    span: SourceSpan,
}

impl EnvironmentMapEntry {
    /// The variable name.
    pub closed spec fn spec_name(&self) -> Located<String> {
        self.name
    }

    /// The scalar value.
    pub closed spec fn spec_value(&self) -> Located<ComposeScalar> {
        self.value
    }

    /// The source span.
    pub closed spec fn spec_span(&self) -> SourceSpan {
        self.span
    }

    /// Creates a `EnvironmentMapEntry`.
    pub fn new(name: Located<String>, value: Located<ComposeScalar>, span: SourceSpan) -> (r: Self)
        ensures
            r.spec_name() == name,
            r.spec_value() == value,
            r.spec_span() == span,
    {
        Self {
            name,
            value,
            span,
        }
    }

    /// Returns the variable name.
    pub fn name(&self) -> (r: &Located<String>)
        ensures
            *r == self.spec_name(),
    {
        &self.name
    }

    /// Returns the scalar value.
    pub fn value(&self) -> (r: &Located<ComposeScalar>)
        ensures
            *r == self.spec_value(),
    {
        &self.value
    }

    /// Returns the source span.
    pub fn span(&self) -> (r: SourceSpan)
        ensures
            r == self.spec_span(),
    {
        self.span
    }
}

/// A service `environment` value in list or mapping form.
#[derive(Debug, Clone, PartialEq, Eq)]
pub enum Environment {
    /// A list of `NAME[=value]` items.
    List {
        /// The list span.
        span: SourceSpan,
        /// The items in authored order.
        entries: Vec<EnvironmentListEntry>,
    },
    /// A mapping of names to scalars.
    Mapping {
        /// The mapping span.
        span: SourceSpan,
        /// The entries in authored order.
        entries: Vec<EnvironmentMapEntry>,
    },
}

impl Environment {
    /// The span of the authored value.
    pub open spec fn spec_span(&self) -> SourceSpan {
        match self {
            Environment::List { span, .. } => *span,
            Environment::Mapping { span, .. } => *span,
        }
    }

    /// Returns the span of the authored value.
    pub fn span(&self) -> (r: SourceSpan)
        ensures
            r == self.spec_span(),
    {
        match self {
            Environment::List { span, .. } => *span,
            Environment::Mapping { span, .. } => *span,
        }
    }
}

/// One `env_file` item in short or long form.
#[derive(Debug, Clone, PartialEq, Eq)]
pub enum EnvironmentFile {
    /// A path.
    Short(Located<String>),
    /// A mapping with path, required flag and format.
    Long(Box<LongEnvironmentFile>),
}

impl EnvironmentFile {
    /// The path of the file, when declared.
    pub open spec fn spec_path(&self) -> Option<Located<String>> {
        match self {
            EnvironmentFile::Short(path) => Some(*path),
            EnvironmentFile::Long(value) => value.spec_path(),
        }
    }

    /// Returns the path of the file, when declared.
    pub fn path(&self) -> (r: Option<&Located<String>>)
        ensures
            r is Some <==> self.spec_path() is Some,
            r matches Some(p) ==> *p == self.spec_path()->0,
    {
        match self {
            EnvironmentFile::Short(path) => Some(path),
            EnvironmentFile::Long(value) => value.path(),
        }
    }
}

/// The long form of an `env_file` item.
#[derive(Debug, Clone, PartialEq, Eq)]
pub struct LongEnvironmentFile {
    span: SourceSpan,
    path: Option<Located<String>>,
    required: Option<Located<BooleanValue>>,
    format: Option<EnvironmentFileFormat>,
    extension_fields: Vec<FieldReference>,
    unknown_fields: Vec<FieldReference>,
}

impl LongEnvironmentFile {
    /// The source span.
    pub closed spec fn spec_span(&self) -> SourceSpan {
        self.span
    }

    /// The `path` field.
    pub closed spec fn spec_path(&self) -> Option<Located<String>> {
        self.path
    }

    /// The `required` flag.
    pub closed spec fn spec_required(&self) -> Option<Located<BooleanValue>> {
        self.required
    }

    /// The `format` field.
    pub closed spec fn spec_format(&self) -> Option<EnvironmentFileFormat> {
        self.format
    }

    /// The `x-` extension fields in source order.
    pub closed spec fn spec_extension_fields(&self) -> Seq<FieldReference> {
        self.extension_fields@
    }

    /// The unknown fields in source order.
    pub closed spec fn spec_unknown_fields(&self) -> Seq<FieldReference> {
        self.unknown_fields@
    }

    /// Creates a `LongEnvironmentFile` with no optional fields set.
    pub fn new(span: SourceSpan) -> (r: Self)
        ensures
            r.spec_span() == span,
            r.spec_path() is None,
            r.spec_required() is None,
            r.spec_format() is None,
            r.spec_extension_fields().len() == 0,
            r.spec_unknown_fields().len() == 0,
    {
        Self {
            span,
            path: None,
            required: None,
            format: None,
            extension_fields: Vec::new(),
            unknown_fields: Vec::new(),
        }
    }

    /// Sets the `path` field.
    pub fn set_path(&mut self, value: Located<String>)
        ensures
            final(self).spec_path() == Some(value),
            final(self).spec_span() == old(self).spec_span(),
            final(self).spec_required() == old(self).spec_required(),
            final(self).spec_format() == old(self).spec_format(),
            final(self).spec_extension_fields() == old(self).spec_extension_fields(),
            final(self).spec_unknown_fields() == old(self).spec_unknown_fields(),
    {
        self.path = Some(value);
    }

    /// Sets the `required` field.
    pub fn set_required(&mut self, value: Located<BooleanValue>)
        ensures
            final(self).spec_required() == Some(value),
            final(self).spec_span() == old(self).spec_span(),
            final(self).spec_path() == old(self).spec_path(),
            final(self).spec_format() == old(self).spec_format(),
            final(self).spec_extension_fields() == old(self).spec_extension_fields(),
            final(self).spec_unknown_fields() == old(self).spec_unknown_fields(),
    {
        self.required = Some(value);
    }

    /// Sets the `format` field.
    pub fn set_format(&mut self, value: EnvironmentFileFormat)
        ensures
            final(self).spec_format() == Some(value),
            final(self).spec_span() == old(self).spec_span(),
            final(self).spec_path() == old(self).spec_path(),
            final(self).spec_required() == old(self).spec_required(),
            final(self).spec_extension_fields() == old(self).spec_extension_fields(),
            final(self).spec_unknown_fields() == old(self).spec_unknown_fields(),
    {
        self.format = Some(value);
    }

    /// Appends to the `extension_fields` list.
    pub fn push_extension(&mut self, value: FieldReference)
        ensures
            final(self).spec_extension_fields() == old(self).spec_extension_fields().push(value),
            final(self).spec_span() == old(self).spec_span(),
            final(self).spec_path() == old(self).spec_path(),
            final(self).spec_required() == old(self).spec_required(),
            final(self).spec_format() == old(self).spec_format(),
            final(self).spec_unknown_fields() == old(self).spec_unknown_fields(),
    {
        self.extension_fields.push(value);
    }

    /// Appends to the `unknown_fields` list.
    pub fn push_unknown(&mut self, value: FieldReference)
        ensures
            final(self).spec_unknown_fields() == old(self).spec_unknown_fields().push(value),
            final(self).spec_span() == old(self).spec_span(),
            final(self).spec_path() == old(self).spec_path(),
            final(self).spec_required() == old(self).spec_required(),
            final(self).spec_format() == old(self).spec_format(),
            final(self).spec_extension_fields() == old(self).spec_extension_fields(),
    {
        self.unknown_fields.push(value);
    }

    /// Returns the source span.
    pub fn span(&self) -> (r: SourceSpan)
        ensures
            r == self.spec_span(),
    {
        self.span
    }

    /// Returns the `path` field.
    pub fn path(&self) -> (r: Option<&Located<String>>)
        ensures
            r is Some <==> self.spec_path() is Some,
            r matches Some(v) ==> *v == self.spec_path()->0,
    {
        self.path.as_ref()
    }

    /// Returns the `required` flag.
    pub fn required(&self) -> (r: Option<&Located<BooleanValue>>)
        ensures
            r is Some <==> self.spec_required() is Some,
            r matches Some(v) ==> *v == self.spec_required()->0,
    {
        self.required.as_ref()
    }

    /// Returns the `format` field.
    pub fn format(&self) -> (r: Option<&EnvironmentFileFormat>)
        ensures
            r is Some <==> self.spec_format() is Some,
            r matches Some(v) ==> *v == self.spec_format()->0,
    {
        self.format.as_ref()
    }

    /// Returns the `x-` extension fields in source order.
    pub fn extension_fields(&self) -> (r: &[FieldReference])
        ensures
            r@ == self.spec_extension_fields(),
    {
        self.extension_fields.as_slice()
    }

    /// Returns the unknown fields in source order.
    pub fn unknown_fields(&self) -> (r: &[FieldReference])
        ensures
            r@ == self.spec_unknown_fields(),
    {
        self.unknown_fields.as_slice()
    }
}

/// An `env_file` format with its authored scalar.
#[derive(Debug, Clone, PartialEq, Eq)]
pub struct EnvironmentFileFormat {
    raw: Located<String>,
    kind: EnvironmentFileFormatKind,
}

impl EnvironmentFileFormat {
    /// The authored scalar.
    pub closed spec fn spec_raw(&self) -> Located<String> {
        self.raw
    }

    /// The classification.
    pub closed spec fn spec_kind(&self) -> EnvironmentFileFormatKind {
        self.kind
    }

    /// Returns the authored scalar.
    pub fn raw(&self) -> (r: &Located<String>)
        ensures
            *r == self.spec_raw(),
    {
        &self.raw
    }

    /// Returns the classification.
    pub fn kind(&self) -> (r: EnvironmentFileFormatKind)
        ensures
            r == self.spec_kind(),
    {
        self.kind
    }

    /// Classifies a format value.
    pub fn parse(raw: Located<String>) -> (r: Self)
        ensures
            r.spec_raw() == raw,
            r.spec_kind() == format_kind(lc(raw)),
    {
        let kind = EnvironmentFileFormatKind::classify(raw.value().as_str());
        Self { raw, kind }
    }

    /// Reports whether the format is documented or deferred.
    pub fn is_valid(&self) -> (r: bool)
        ensures
            r == !(self.spec_kind() is Other),
    {
        !matches!(self.kind, EnvironmentFileFormatKind::Other)
    }
}

/// The semantic family of an `env_file` format.
#[derive(Debug, Clone, Copy, PartialEq, Eq, Structural)]
#[non_exhaustive]
pub enum EnvironmentFileFormatKind {
    /// `raw`.
    Raw,
    /// A value containing a dollar marker and therefore deferred to interpolation.
    Expression,
    /// Any other value.
    Other,
}

/// The classification of an `env_file` format.
pub open spec fn format_kind(c: Seq<char>) -> EnvironmentFileFormatKind {
    if c == "raw"@ {
        EnvironmentFileFormatKind::Raw
    } else if sb(c).contains(36) {
        EnvironmentFileFormatKind::Expression
    } else {
        EnvironmentFileFormatKind::Other
    }
}

impl EnvironmentFileFormatKind {
    /// Classifies a format value.
    pub fn classify(value: &str) -> (r: Self)
        ensures
            r == format_kind(value@),
    {
        if str_eq(value, "raw") {
            EnvironmentFileFormatKind::Raw
        } else if contains_byte(value, 36) {
            EnvironmentFileFormatKind::Expression
        } else {
            EnvironmentFileFormatKind::Other
        }
    }
}

} // verus!
