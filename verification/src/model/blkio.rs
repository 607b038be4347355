//! Source-aware service block-I/O configuration.

use super::{FieldReference, Located};
use crate::source::SourceSpan;
use crate::text::str_eq;
use vstd::prelude::*;

verus! {

/// A service `blkio_config` mapping.
#[derive(Debug, Clone, PartialEq, Eq)]
pub struct BlkioConfig {
    span: SourceSpan,
    weight: Option<Located<BlkioScalar>>,
    device_read_bps: Vec<BlkioDeviceRate>,
    device_read_iops: Vec<BlkioDeviceRate>,
    device_write_bps: Vec<BlkioDeviceRate>,
    device_write_iops: Vec<BlkioDeviceRate>,
    weight_device: Vec<BlkioWeightDevice>,
    extension_fields: Vec<FieldReference>,
    unknown_fields: Vec<FieldReference>,
}

impl BlkioConfig {
    /// The source span.
    pub closed spec fn spec_span(&self) -> SourceSpan {
        self.span
    }

    /// The `weight` field.
    pub closed spec fn spec_weight(&self) -> Option<Located<BlkioScalar>> {
        self.weight
    }

    /// The `device_read_bps` entries.
    pub closed spec fn spec_device_read_bps(&self) -> Seq<BlkioDeviceRate> {
        self.device_read_bps@
    }

    /// The `device_read_iops` entries.
    pub closed spec fn spec_device_read_iops(&self) -> Seq<BlkioDeviceRate> {
        self.device_read_iops@
    }

    /// The `device_write_bps` entries.
    pub closed spec fn spec_device_write_bps(&self) -> Seq<BlkioDeviceRate> {
        self.device_write_bps@
    }

    /// The `device_write_iops` entries.
    pub closed spec fn spec_device_write_iops(&self) -> Seq<BlkioDeviceRate> {
        self.device_write_iops@
    }

    /// The `weight_device` entries.
    pub closed spec fn spec_weight_device(&self) -> Seq<BlkioWeightDevice> {
        self.weight_device@
    }

    /// The `x-` extension fields in source order.
    pub closed spec fn spec_extension_fields(&self) -> Seq<FieldReference> {
        self.extension_fields@
    }

    /// The unknown fields in source order.
    pub closed spec fn spec_unknown_fields(&self) -> Seq<FieldReference> {
        self.unknown_fields@
    }

    /// Creates a `BlkioConfig` with no optional fields set.
    pub fn new(span: SourceSpan) -> (r: Self)
        ensures
            r.spec_span() == span,
            r.spec_weight() is None,
            r.spec_device_read_bps().len() == 0,
            r.spec_device_read_iops().len() == 0,
            r.spec_device_write_bps().len() == 0,
            r.spec_device_write_iops().len() == 0,
            r.spec_weight_device().len() == 0,
            r.spec_extension_fields().len() == 0,
            r.spec_unknown_fields().len() == 0,
    {
        Self {
            span,
            weight: None,
            device_read_bps: Vec::new(),
            device_read_iops: Vec::new(),
            device_write_bps: Vec::new(),
            device_write_iops: Vec::new(),
            weight_device: Vec::new(),
            extension_fields: Vec::new(),
            unknown_fields: Vec::new(),
        }
    }

    /// Sets the `weight` field.
    pub fn set_weight(&mut self, value: Located<BlkioScalar>)
        ensures
            final(self).spec_weight() == Some(value),
            final(self).spec_span() == old(self).spec_span(),
            final(self).spec_device_read_bps() == old(self).spec_device_read_bps(),
            final(self).spec_device_read_iops() == old(self).spec_device_read_iops(),
            final(self).spec_device_write_bps() == old(self).spec_device_write_bps(),
            final(self).spec_device_write_iops() == old(self).spec_device_write_iops(),
            final(self).spec_weight_device() == old(self).spec_weight_device(),
            final(self).spec_extension_fields() == old(self).spec_extension_fields(),
            final(self).spec_unknown_fields() == old(self).spec_unknown_fields(),
    {
        self.weight = Some(value);
    }

    /// Lends the device-rate list named by its Compose key (`device_read_bps`,
    /// `device_read_iops`, `device_write_bps` or `device_write_iops`); any other key lends
    /// nothing. Whatever the borrower leaves in the list is what the configuration holds after.
    pub fn device_rates_mut(&mut self, name: &str) -> (r: Option<&mut Vec<BlkioDeviceRate>>)
        ensures
            r is Some <==> (name@ == "device_read_bps"@ || name@ == "device_read_iops"@ || name@
                == "device_write_bps"@ || name@ == "device_write_iops"@),
            r is None ==> *final(self) == *old(self),
            name@ == "device_read_bps"@ ==> (r matches Some(v) && (*v)@ == old(self).spec_device_read_bps()
                && final(self).spec_device_read_bps() == final(v)@ && final(self).spec_device_read_iops()
                == old(self).spec_device_read_iops() && final(self).spec_device_write_bps()
                == old(self).spec_device_write_bps() && final(self).spec_device_write_iops()
                == old(self).spec_device_write_iops()),
            name@ == "device_read_iops"@ ==> (r matches Some(v) && (*v)@ == old(self).spec_device_read_iops()
                && final(self).spec_device_read_iops() == final(v)@ && final(self).spec_device_read_bps()
                == old(self).spec_device_read_bps() && final(self).spec_device_write_bps()
                == old(self).spec_device_write_bps() && final(self).spec_device_write_iops()
                == old(self).spec_device_write_iops()),
            name@ == "device_write_bps"@ ==> (r matches Some(v) && (*v)@ == old(self).spec_device_write_bps()
                && final(self).spec_device_write_bps() == final(v)@ && final(self).spec_device_read_bps()
                == old(self).spec_device_read_bps() && final(self).spec_device_read_iops()
                == old(self).spec_device_read_iops() && final(self).spec_device_write_iops()
                == old(self).spec_device_write_iops()),
            name@ == "device_write_iops"@ ==> (r matches Some(v) && (*v)@ == old(self).spec_device_write_iops()
                && final(self).spec_device_write_iops() == final(v)@ && final(self).spec_device_read_bps()
                == old(self).spec_device_read_bps() && final(self).spec_device_read_iops()
                == old(self).spec_device_read_iops() && final(self).spec_device_write_bps()
                == old(self).spec_device_write_bps()),
            final(self).spec_span() == old(self).spec_span(),
            final(self).spec_weight() == old(self).spec_weight(),
            final(self).spec_weight_device() == old(self).spec_weight_device(),
            final(self).spec_extension_fields() == old(self).spec_extension_fields(),
            final(self).spec_unknown_fields() == old(self).spec_unknown_fields(),
    {
        proof {
            reveal_strlit("device_read_bps");
            reveal_strlit("device_read_iops");
            reveal_strlit("device_write_bps");
            reveal_strlit("device_write_iops");
            assert("device_read_bps"@.len() == 15);
            assert("device_read_iops"@.len() == 16);
            assert("device_write_bps"@.len() == 16);
            assert("device_write_iops"@.len() == 17);
            assert("device_read_iops"@ != "device_read_bps"@);
            assert("device_write_bps"@ != "device_read_bps"@);
            assert("device_write_bps"@[7] != "device_read_iops"@[7]);
            assert("device_write_iops"@ != "device_read_bps"@);
            assert("device_write_iops"@ != "device_read_iops"@);
            assert("device_write_iops"@ != "device_write_bps"@);
        }
        if str_eq(name, "device_read_bps") {
            Some(&mut self.device_read_bps)
        } else if str_eq(name, "device_read_iops") {
            Some(&mut self.device_read_iops)
        } else if str_eq(name, "device_write_bps") {
            Some(&mut self.device_write_bps)
        } else if str_eq(name, "device_write_iops") {
            Some(&mut self.device_write_iops)
        } else {
            None
        }
    }

    /// Lends the `weight_device` list; whatever the borrower leaves in it is what the
    /// configuration holds after.
    pub fn weight_devices_mut(&mut self) -> (r: &mut Vec<BlkioWeightDevice>)
        ensures
            (*r)@ == old(self).spec_weight_device(),
            final(self).spec_weight_device() == final(r)@,
            final(self).spec_span() == old(self).spec_span(),
            final(self).spec_weight() == old(self).spec_weight(),
            final(self).spec_device_read_bps() == old(self).spec_device_read_bps(),
            final(self).spec_device_read_iops() == old(self).spec_device_read_iops(),
            final(self).spec_device_write_bps() == old(self).spec_device_write_bps(),
            final(self).spec_device_write_iops() == old(self).spec_device_write_iops(),
            final(self).spec_extension_fields() == old(self).spec_extension_fields(),
            final(self).spec_unknown_fields() == old(self).spec_unknown_fields(),
    {
        &mut self.weight_device
    }

    /// Appends to the `extension_fields` list.
    pub fn push_extension(&mut self, value: FieldReference)
        ensures
            final(self).spec_extension_fields() == old(self).spec_extension_fields().push(value),
            final(self).spec_span() == old(self).spec_span(),
            final(self).spec_weight() == old(self).spec_weight(),
            final(self).spec_device_read_bps() == old(self).spec_device_read_bps(),
            final(self).spec_device_read_iops() == old(self).spec_device_read_iops(),
            final(self).spec_device_write_bps() == old(self).spec_device_write_bps(),
            final(self).spec_device_write_iops() == old(self).spec_device_write_iops(),
            final(self).spec_weight_device() == old(self).spec_weight_device(),
            final(self).spec_unknown_fields() == old(self).spec_unknown_fields(),
    {
        self.extension_fields.push(value);
    }

    /// Appends to the `unknown_fields` list.
    pub fn push_unknown(&mut self, value: FieldReference)
        ensures
            final(self).spec_unknown_fields() == old(self).spec_unknown_fields().push(value),
            final(self).spec_span() == old(self).spec_span(),
            final(self).spec_weight() == old(self).spec_weight(),
            final(self).spec_device_read_bps() == old(self).spec_device_read_bps(),
            final(self).spec_device_read_iops() == old(self).spec_device_read_iops(),
            final(self).spec_device_write_bps() == old(self).spec_device_write_bps(),
            final(self).spec_device_write_iops() == old(self).spec_device_write_iops(),
            final(self).spec_weight_device() == old(self).spec_weight_device(),
            final(self).spec_extension_fields() == old(self).spec_extension_fields(),
    {
        self.unknown_fields.push(value);
    }

    /// Returns the source span.
    pub fn span(&self) -> (r: SourceSpan)
        ensures
            r == self.spec_span(),
    {
        self.span
    }

    /// Returns the `weight` field.
    pub fn weight(&self) -> (r: Option<&Located<BlkioScalar>>)
        ensures
            r is Some <==> self.spec_weight() is Some,
            r matches Some(v) ==> *v == self.spec_weight()->0,
    {
        self.weight.as_ref()
    }

    /// Returns the `device_read_bps` entries.
    pub fn device_read_bps(&self) -> (r: &[BlkioDeviceRate])
        ensures
            r@ == self.spec_device_read_bps(),
    {
        self.device_read_bps.as_slice()
    }

    /// Returns the `device_read_iops` entries.
    pub fn device_read_iops(&self) -> (r: &[BlkioDeviceRate])
        ensures
            r@ == self.spec_device_read_iops(),
    {
        self.device_read_iops.as_slice()
    }

    /// Returns the `device_write_bps` entries.
    pub fn device_write_bps(&self) -> (r: &[BlkioDeviceRate])
        ensures
            r@ == self.spec_device_write_bps(),
    {
        self.device_write_bps.as_slice()
    }

    /// Returns the `device_write_iops` entries.
    pub fn device_write_iops(&self) -> (r: &[BlkioDeviceRate])
        ensures
            r@ == self.spec_device_write_iops(),
    {
        self.device_write_iops.as_slice()
    }

    /// Returns the `weight_device` entries.
    pub fn weight_device(&self) -> (r: &[BlkioWeightDevice])
        ensures
            r@ == self.spec_weight_device(),
    {
        self.weight_device.as_slice()
    }

    /// Returns the `x-` extension fields in source order.
    pub fn extension_fields(&self) -> (r: &[FieldReference])
        ensures
            r@ == self.spec_extension_fields(),
    {
        self.extension_fields.as_slice()
    }

    /// Returns the unknown fields in source order.
    pub fn unknown_fields(&self) -> (r: &[FieldReference])
        ensures
            r@ == self.spec_unknown_fields(),
    {
        self.unknown_fields.as_slice()
    }
}

/// A block-I/O numeric value with its authored spelling.
#[derive(Debug, Clone, PartialEq, Eq)]
#[non_exhaustive]
pub enum BlkioScalar {
    /// A YAML integer.
    YamlInteger(String),
    /// A YAML string.
    String(String),
}

/// A per-device rate limit.
#[derive(Debug, Clone, PartialEq, Eq)]
pub struct BlkioDeviceRate {
    span: SourceSpan,
    form: BlkioDeviceRateForm,
    path: Option<Located<String>>,
    rate: Option<Located<BlkioScalar>>,
    extension_fields: Vec<FieldReference>,
    unknown_fields: Vec<FieldReference>,
}

impl BlkioDeviceRate {
    /// The source span.
    pub closed spec fn spec_span(&self) -> SourceSpan {
        self.span
    }

    /// The authored form.
    pub closed spec fn spec_form(&self) -> BlkioDeviceRateForm {
        self.form
    }

    /// The `path` field.
    pub closed spec fn spec_path(&self) -> Option<Located<String>> {
        self.path
    }

    /// The `rate` field.
    pub closed spec fn spec_rate(&self) -> Option<Located<BlkioScalar>> {
        self.rate
    }

    /// The `x-` extension fields in source order.
    pub closed spec fn spec_extension_fields(&self) -> Seq<FieldReference> {
        self.extension_fields@
    }

    /// The unknown fields in source order.
    pub closed spec fn spec_unknown_fields(&self) -> Seq<FieldReference> {
        self.unknown_fields@
    }

    /// Creates a `BlkioDeviceRate` with no optional fields set.
    pub fn new(span: SourceSpan) -> (r: Self)
        ensures
            r.spec_span() == span,
            r.spec_form() == BlkioDeviceRateForm::Mapping,
            r.spec_path() is None,
            r.spec_rate() is None,
            r.spec_extension_fields().len() == 0,
            r.spec_unknown_fields().len() == 0,
    {
        Self {
            span,
            form: BlkioDeviceRateForm::Mapping,
            path: None,
            rate: None,
            extension_fields: Vec::new(),
            unknown_fields: Vec::new(),
        }
    }

    /// Creates a `BlkioDeviceRate` with no optional fields set.
    pub fn unmodeled(span: SourceSpan) -> (r: Self)
        ensures
            r.spec_span() == span,
            r.spec_form() == BlkioDeviceRateForm::Unmodeled,
            r.spec_path() is None,
            r.spec_rate() is None,
            r.spec_extension_fields().len() == 0,
            r.spec_unknown_fields().len() == 0,
    {
        Self {
            span,
            form: BlkioDeviceRateForm::Unmodeled,
            path: None,
            rate: None,
            extension_fields: Vec::new(),
            unknown_fields: Vec::new(),
        }
    }

    /// Sets the `path` field.
    pub fn set_path(&mut self, value: Located<String>)
        ensures
            final(self).spec_path() == Some(value),
            final(self).spec_span() == old(self).spec_span(),
            final(self).spec_form() == old(self).spec_form(),
            final(self).spec_rate() == old(self).spec_rate(),
            final(self).spec_extension_fields() == old(self).spec_extension_fields(),
            final(self).spec_unknown_fields() == old(self).spec_unknown_fields(),
    {
        self.path = Some(value);
    }

    /// Sets the `rate` field.
    pub fn set_rate(&mut self, value: Located<BlkioScalar>)
        ensures
            final(self).spec_rate() == Some(value),
            final(self).spec_span() == old(self).spec_span(),
            final(self).spec_form() == old(self).spec_form(),
            final(self).spec_path() == old(self).spec_path(),
            final(self).spec_extension_fields() == old(self).spec_extension_fields(),
            final(self).spec_unknown_fields() == old(self).spec_unknown_fields(),
    {
        self.rate = Some(value);
    }

    /// Appends to the `extension_fields` list.
    pub fn push_extension(&mut self, value: FieldReference)
        ensures
            final(self).spec_extension_fields() == old(self).spec_extension_fields().push(value),
            final(self).spec_span() == old(self).spec_span(),
            final(self).spec_form() == old(self).spec_form(),
            final(self).spec_path() == old(self).spec_path(),
            final(self).spec_rate() == old(self).spec_rate(),
            final(self).spec_unknown_fields() == old(self).spec_unknown_fields(),
    {
        self.extension_fields.push(value);
    }

    /// Appends to the `unknown_fields` list.
    pub fn push_unknown(&mut self, value: FieldReference)
        ensures
            final(self).spec_unknown_fields() == old(self).spec_unknown_fields().push(value),
            final(self).spec_span() == old(self).spec_span(),
            final(self).spec_form() == old(self).spec_form(),
            final(self).spec_path() == old(self).spec_path(),
            final(self).spec_rate() == old(self).spec_rate(),
            final(self).spec_extension_fields() == old(self).spec_extension_fields(),
    {
        self.unknown_fields.push(value);
    }

    /// Returns the source span.
    pub fn span(&self) -> (r: SourceSpan)
        ensures
            r == self.spec_span(),
    {
        self.span
    }

    /// Returns the authored form.
    pub fn form(&self) -> (r: BlkioDeviceRateForm)
        ensures
            r == self.spec_form(),
    {
        self.form
    }

    /// Returns the `path` field.
    pub fn path(&self) -> (r: Option<&Located<String>>)
        ensures
            r is Some <==> self.spec_path() is Some,
            r matches Some(v) ==> *v == self.spec_path()->0,
    {
        self.path.as_ref()
    }

    /// Returns the `rate` field.
    pub fn rate(&self) -> (r: Option<&Located<BlkioScalar>>)
        ensures
            r is Some <==> self.spec_rate() is Some,
            r matches Some(v) ==> *v == self.spec_rate()->0,
    {
        self.rate.as_ref()
    }

    /// Returns the `x-` extension fields in source order.
    pub fn extension_fields(&self) -> (r: &[FieldReference])
        ensures
            r@ == self.spec_extension_fields(),
    {
        self.extension_fields.as_slice()
    }

    /// Returns the unknown fields in source order.
    pub fn unknown_fields(&self) -> (r: &[FieldReference])
        ensures
            r@ == self.spec_unknown_fields(),
    {
        self.unknown_fields.as_slice()
    }
}

/// The authored form of a block-I/O device entry.
#[derive(Debug, Clone, Copy, PartialEq, Eq, Structural)]
#[non_exhaustive]
pub enum BlkioDeviceRateForm {
    /// A mapping with `path` and `rate`.
    Mapping,
    /// A form that is not modeled.
    Unmodeled,
}

/// A per-device weight.
#[derive(Debug, Clone, PartialEq, Eq)]
pub struct BlkioWeightDevice {
    span: SourceSpan,
    form: BlkioWeightDeviceForm,
    path: Option<Located<String>>,
    weight: Option<Located<BlkioScalar>>,
    extension_fields: Vec<FieldReference>,
    unknown_fields: Vec<FieldReference>,
}

impl BlkioWeightDevice {
    /// The source span.
    pub closed spec fn spec_span(&self) -> SourceSpan {
        self.span
    }

    /// The authored form.
    pub closed spec fn spec_form(&self) -> BlkioWeightDeviceForm {
        self.form
    }

    /// The `path` field.
    pub closed spec fn spec_path(&self) -> Option<Located<String>> {
        self.path
    }

    /// The `weight` field.
    pub closed spec fn spec_weight(&self) -> Option<Located<BlkioScalar>> {
        self.weight
    }

    /// The `x-` extension fields in source order.
    pub closed spec fn spec_extension_fields(&self) -> Seq<FieldReference> {
        self.extension_fields@
    }

    /// The unknown fields in source order.
    pub closed spec fn spec_unknown_fields(&self) -> Seq<FieldReference> {
        self.unknown_fields@
    }

    /// Creates a `BlkioWeightDevice` with no optional fields set.
    pub fn new(span: SourceSpan) -> (r: Self)
        ensures
            r.spec_span() == span,
            r.spec_form() == BlkioWeightDeviceForm::Mapping,
            r.spec_path() is None,
            r.spec_weight() is None,
            r.spec_extension_fields().len() == 0,
            r.spec_unknown_fields().len() == 0,
    {
        Self {
            span,
            form: BlkioWeightDeviceForm::Mapping,
            path: None,
            weight: None,
            extension_fields: Vec::new(),
            unknown_fields: Vec::new(),
        }
    }

    /// Creates a `BlkioWeightDevice` with no optional fields set.
    pub fn unmodeled(span: SourceSpan) -> (r: Self)
        ensures
            r.spec_span() == span,
            r.spec_form() == BlkioWeightDeviceForm::Unmodeled,
            r.spec_path() is None,
            r.spec_weight() is None,
            r.spec_extension_fields().len() == 0,
            r.spec_unknown_fields().len() == 0,
    {
        Self {
            span,
            form: BlkioWeightDeviceForm::Unmodeled,
            path: None,
            weight: None,
            extension_fields: Vec::new(),
            unknown_fields: Vec::new(),
        }
    }

    /// Sets the `path` field.
    pub fn set_path(&mut self, value: Located<String>)
        ensures
            final(self).spec_path() == Some(value),
            final(self).spec_span() == old(self).spec_span(),
            final(self).spec_form() == old(self).spec_form(),
            final(self).spec_weight() == old(self).spec_weight(),
            final(self).spec_extension_fields() == old(self).spec_extension_fields(),
            final(self).spec_unknown_fields() == old(self).spec_unknown_fields(),
    {
        self.path = Some(value);
    }

    /// Sets the `weight` field.
    pub fn set_weight(&mut self, value: Located<BlkioScalar>)
        ensures
            final(self).spec_weight() == Some(value),
            final(self).spec_span() == old(self).spec_span(),
            final(self).spec_form() == old(self).spec_form(),
            final(self).spec_path() == old(self).spec_path(),
            final(self).spec_extension_fields() == old(self).spec_extension_fields(),
            final(self).spec_unknown_fields() == old(self).spec_unknown_fields(),
    {
        self.weight = Some(value);
    }

    /// Appends to the `extension_fields` list.
    pub fn push_extension(&mut self, value: FieldReference)
        ensures
            final(self).spec_extension_fields() == old(self).spec_extension_fields().push(value),
            final(self).spec_span() == old(self).spec_span(),
            final(self).spec_form() == old(self).spec_form(),
            final(self).spec_path() == old(self).spec_path(),
            final(self).spec_weight() == old(self).spec_weight(),
            final(self).spec_unknown_fields() == old(self).spec_unknown_fields(),
    {
        self.extension_fields.push(value);
    }

    /// Appends to the `unknown_fields` list.
    pub fn push_unknown(&mut self, value: FieldReference)
        ensures
            final(self).spec_unknown_fields() == old(self).spec_unknown_fields().push(value),
            final(self).spec_span() == old(self).spec_span(),
            final(self).spec_form() == old(self).spec_form(),
            final(self).spec_path() == old(self).spec_path(),
            final(self).spec_weight() == old(self).spec_weight(),
            final(self).spec_extension_fields() == old(self).spec_extension_fields(),
    {
        self.unknown_fields.push(value);
    }

    /// Returns the source span.
    pub fn span(&self) -> (r: SourceSpan)
        ensures
            r == self.spec_span(),
    {
        self.span
    }

    /// Returns the authored form.
    pub fn form(&self) -> (r: BlkioWeightDeviceForm)
        ensures
            r == self.spec_form(),
    {
        self.form
    }

    /// Returns the `path` field.
    pub fn path(&self) -> (r: Option<&Located<String>>)
        ensures
            r is Some <==> self.spec_path() is Some,
            r matches Some(v) ==> *v == self.spec_path()->0,
    {
        self.path.as_ref()
    }

    /// Returns the `weight` field.
    pub fn weight(&self) -> (r: Option<&Located<BlkioScalar>>)
        ensures
            r is Some <==> self.spec_weight() is Some,
            r matches Some(v) ==> *v == self.spec_weight()->0,
    {
        self.weight.as_ref()
    }

    /// Returns the `x-` extension fields in source order.
    pub fn extension_fields(&self) -> (r: &[FieldReference])
        ensures
            r@ == self.spec_extension_fields(),
    {
        self.extension_fields.as_slice()
    }

    /// Returns the unknown fields in source order.
    pub fn unknown_fields(&self) -> (r: &[FieldReference])
        ensures
            r@ == self.spec_unknown_fields(),
    {
        self.unknown_fields.as_slice()
    }
}

/// The authored form of a block-I/O device entry.
#[derive(Debug, Clone, Copy, PartialEq, Eq, Structural)]
#[non_exhaustive]
pub enum BlkioWeightDeviceForm {
    /// A mapping with `path` and `weight`.
    Mapping,
    /// A form that is not modeled.
    Unmodeled,
}

} // verus!
