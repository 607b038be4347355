//! Raw-preserving service device declarations.

use super::{lb, FieldReference, Located};
use crate::source::SourceSpan;
use crate::text::{contains_byte, find, has_prefix, is_empty, sb, split_once, starts_with};
use vstd::prelude::*;

verus! {

/// A short-form device string with its lexical classification.
#[derive(Debug, Clone, PartialEq, Eq)]
pub struct ShortDevice {
    raw: Located<String>,
    kind: ShortDeviceKind,
}

/// The lexical family of a short-form device string.
#[derive(Debug, Clone, Copy, PartialEq, Eq, Hash, Structural)]
#[non_exhaustive]
pub enum ShortDeviceKind {
    /// A value containing a dollar marker and therefore deferred to interpolation.
    Deferred,
    /// A CDI device name `vendor/class=name`.
    Cdi,
    /// A host path mapping.
    Path,
    /// Anything else, retained opaquely.
    Opaque,
}

/// The lexical classification of a short-form device string.
pub open spec fn short_device_kind(b: Seq<u8>) -> ShortDeviceKind {
    let eq = find(b, 61);
    if b.contains(36) {
        ShortDeviceKind::Deferred
    } else if eq != -1 && eq > 0 && eq + 1 < b.len() && b.subrange(0, eq).contains(47) {
        ShortDeviceKind::Cdi
    } else if has_prefix(b, sb("/"@)) || has_prefix(b, sb("."@)) || b.contains(58) || has_prefix(
        b,
        sb("\\\\"@),
    ) {
        ShortDeviceKind::Path
    } else {
        ShortDeviceKind::Opaque
    }
}

impl ShortDevice {
    /// The authored scalar.
    pub closed spec fn spec_raw(&self) -> Located<String> {
        self.raw
    }

    /// The classification.
    pub closed spec fn spec_kind(&self) -> ShortDeviceKind {
        self.kind
    }

    /// Classifies a short-form device string.
    pub fn new(raw: Located<String>) -> (d: Self)
        ensures
            d.spec_raw() == raw,
            d.spec_kind() == short_device_kind(lb(raw)),
    {
        let kind = classify_short_device(raw.value().as_str());
        Self { raw, kind }
    }

    /// Returns the authored scalar and its span.
    pub fn raw(&self) -> (r: &Located<String>)
        ensures
            *r == self.spec_raw(),
    {
        &self.raw
    }

    /// Returns the lexical classification.
    pub fn kind(&self) -> (r: ShortDeviceKind)
        ensures
            r == self.spec_kind(),
    {
        self.kind
    }
}

/// A long-form device mapping.
#[derive(Debug, Clone, PartialEq, Eq)]
pub struct LongDevice {
    span: SourceSpan,
    source: Option<Located<String>>,
    target: Option<Located<String>>,
    permissions: Option<Located<String>>,
    extension_fields: Vec<FieldReference>,
    unknown_fields: Vec<FieldReference>,
}

impl LongDevice {
    /// The mapping span.
    pub closed spec fn spec_span(&self) -> SourceSpan {
        self.span
    }

    /// The `source` field.
    pub closed spec fn spec_source(&self) -> Option<Located<String>> {
        self.source
    }

    /// The `target` field.
    pub closed spec fn spec_target(&self) -> Option<Located<String>> {
        self.target
    }

    /// The `permissions` field.
    pub closed spec fn spec_permissions(&self) -> Option<Located<String>> {
        self.permissions
    }

    /// The `x-` extension fields.
    pub closed spec fn spec_extension_fields(&self) -> Seq<FieldReference> {
        self.extension_fields@
    }

    /// The unknown fields.
    pub closed spec fn spec_unknown_fields(&self) -> Seq<FieldReference> {
        self.unknown_fields@
    }

    /// Creates an empty long-form device.
    pub fn new(span: SourceSpan) -> (d: Self)
        ensures
            d.spec_span() == span,
            d.spec_source() is None,
            d.spec_target() is None,
            d.spec_permissions() is None,
            d.spec_extension_fields().len() == 0,
            d.spec_unknown_fields().len() == 0,
    {
        Self {
            span,
            source: None,
            target: None,
            permissions: None,
            extension_fields: Vec::new(),
            unknown_fields: Vec::new(),
        }
    }

    /// Sets the `source` field.
    pub fn set_source(&mut self, source: Located<String>)
        ensures
            final(self).spec_source() == Some(source),
            final(self).spec_span() == old(self).spec_span(),
            final(self).spec_target() == old(self).spec_target(),
            final(self).spec_permissions() == old(self).spec_permissions(),
            final(self).spec_extension_fields() == old(self).spec_extension_fields(),
            final(self).spec_unknown_fields() == old(self).spec_unknown_fields(),
    {
        self.source = Some(source);
    }

    /// Sets the `target` field.
    pub fn set_target(&mut self, target: Located<String>)
        ensures
            final(self).spec_target() == Some(target),
            final(self).spec_span() == old(self).spec_span(),
            final(self).spec_source() == old(self).spec_source(),
            final(self).spec_permissions() == old(self).spec_permissions(),
            final(self).spec_extension_fields() == old(self).spec_extension_fields(),
            final(self).spec_unknown_fields() == old(self).spec_unknown_fields(),
    {
        self.target = Some(target);
    }

    /// Sets the `permissions` field.
    pub fn set_permissions(&mut self, permissions: Located<String>)
        ensures
            final(self).spec_permissions() == Some(permissions),
            final(self).spec_span() == old(self).spec_span(),
            final(self).spec_source() == old(self).spec_source(),
            final(self).spec_target() == old(self).spec_target(),
            final(self).spec_extension_fields() == old(self).spec_extension_fields(),
            final(self).spec_unknown_fields() == old(self).spec_unknown_fields(),
    {
        self.permissions = Some(permissions);
    }

    /// Records an extension field.
    pub fn push_extension(&mut self, field: FieldReference)
        ensures
            final(self).spec_extension_fields() == old(self).spec_extension_fields().push(field),
            final(self).spec_span() == old(self).spec_span(),
            final(self).spec_source() == old(self).spec_source(),
            final(self).spec_target() == old(self).spec_target(),
            final(self).spec_permissions() == old(self).spec_permissions(),
            final(self).spec_unknown_fields() == old(self).spec_unknown_fields(),
    {
        self.extension_fields.push(field);
    }

    /// Records an unknown field.
    pub fn push_unknown(&mut self, field: FieldReference)
        ensures
            final(self).spec_unknown_fields() == old(self).spec_unknown_fields().push(field),
            final(self).spec_span() == old(self).spec_span(),
            final(self).spec_source() == old(self).spec_source(),
            final(self).spec_target() == old(self).spec_target(),
            final(self).spec_permissions() == old(self).spec_permissions(),
            final(self).spec_extension_fields() == old(self).spec_extension_fields(),
    {
        self.unknown_fields.push(field);
    }

    /// Returns the mapping span.
    pub fn span(&self) -> (r: SourceSpan)
        ensures
            r == self.spec_span(),
    {
        self.span
    }

    /// Returns the `source` field.
    pub fn source(&self) -> (r: Option<&Located<String>>)
        ensures
            r is Some <==> self.spec_source() is Some,
            r matches Some(v) ==> *v == self.spec_source()->0,
    {
        self.source.as_ref()
    }

    /// Returns the `target` field.
    pub fn target(&self) -> (r: Option<&Located<String>>)
        ensures
            r is Some <==> self.spec_target() is Some,
            r matches Some(v) ==> *v == self.spec_target()->0,
    {
        self.target.as_ref()
    }

    /// Returns the `permissions` field.
    pub fn permissions(&self) -> (r: Option<&Located<String>>)
        ensures
            r is Some <==> self.spec_permissions() is Some,
            r matches Some(v) ==> *v == self.spec_permissions()->0,
    {
        self.permissions.as_ref()
    }

    /// Returns the extension fields.
    pub fn extension_fields(&self) -> (r: &[FieldReference])
        ensures
            r@ == self.spec_extension_fields(),
    {
        self.extension_fields.as_slice()
    }

    /// Returns the unknown fields.
    pub fn unknown_fields(&self) -> (r: &[FieldReference])
        ensures
            r@ == self.spec_unknown_fields(),
    {
        self.unknown_fields.as_slice()
    }
}

/// A service device in short or long form.
#[derive(Debug, Clone, PartialEq, Eq)]
#[non_exhaustive]
pub enum Device {
    /// A short-form string.
    Short(ShortDevice),
    /// A long-form mapping.
    Long(LongDevice),
}

impl Device {
    /// The span of the authored value.
    pub open spec fn spec_span(&self) -> SourceSpan {
        match self {
            Device::Short(d) => d.spec_raw().spec_span(),
            Device::Long(d) => d.spec_span(),
        }
    }

    /// Returns the span of the authored value.
    pub fn span(&self) -> (r: SourceSpan)
        ensures
            r == self.spec_span(),
    {
        match self {
            Device::Short(device) => device.raw().span(),
            Device::Long(device) => device.span(),
        }
    }
}

/// A service `devices` list.
#[derive(Debug, Clone, PartialEq, Eq)]
pub struct Devices {
    span: SourceSpan,
    items: Vec<Device>,
}

impl Devices {
    /// The list span.
    pub closed spec fn spec_span(&self) -> SourceSpan {
        self.span
    }

    /// The devices in authored order.
    pub closed spec fn spec_items(&self) -> Seq<Device> {
        self.items@
    }

    /// Creates a device list.
    pub fn new(span: SourceSpan, items: Vec<Device>) -> (r: Self)
        ensures
            r.spec_span() == span,
            r.spec_items() == items@,
    {
        Self { span, items }
    }

    /// Returns the list span.
    pub fn span(&self) -> (r: SourceSpan)
        ensures
            r == self.spec_span(),
    {
        self.span
    }

    /// Returns the devices in authored order.
    pub fn items(&self) -> (r: &[Device])
        ensures
            r@ == self.spec_items(),
    {
        self.items.as_slice()
    }
}

/// Classifies a short-form device string.
pub fn classify_short_device(value: &str) -> (r: ShortDeviceKind)
    ensures
        r == short_device_kind(sb(value@)),
{
    if contains_byte(value, 36) {
        return ShortDeviceKind::Deferred;
    }
    proof {
        crate::text::lemma_find(sb(value@), 61);
    }
    if let Some((selector, name)) = split_once(value, 61) {
        if !is_empty(selector) && !is_empty(name) && contains_byte(selector, 47) {
            return ShortDeviceKind::Cdi;
        }
    }
    if starts_with(value, "/") || starts_with(value, ".") || contains_byte(value, 58) || starts_with(
        value,
        "\\\\",
    ) {
        return ShortDeviceKind::Path;
    }
    ShortDeviceKind::Opaque
}

/// A generated device string: non-empty when required, with no NUL, line break or `$`.
pub open spec fn generated_device_ok(b: Seq<u8>, require_non_empty: bool) -> bool {
    (!require_non_empty || b.len() > 0) && !b.contains(0) && !b.contains(13) && !b.contains(10)
        && !b.contains(36)
}

/// Reports whether a generated device string needs no further interpolation or escaping.
pub fn valid_generated_device_string(value: &str, require_non_empty: bool) -> (r: bool)
    ensures
        r == generated_device_ok(sb(value@), require_non_empty),
{
    (!require_non_empty || !is_empty(value)) && !contains_byte(value, 0) && !contains_byte(value, 13)
        && !contains_byte(value, 10) && !contains_byte(value, 36)
}

} // verus!
