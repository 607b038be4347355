//! Service-network attachments and top-level network definitions.

use super::value::{BooleanValue, KeyValueEntry, Labels};
use super::{FieldReference, Located};
use crate::source::SourceSpan;
use vstd::prelude::*;

verus! {

/// One network attachment of a service.
#[derive(Debug, Clone, PartialEq, Eq)]
pub struct ServiceNetwork {
    name: Located<String>,
    span: SourceSpan,
    aliases: Vec<Located<String>>,
    interface_name: Option<Located<String>>,
    ipv4_address: Option<Located<String>>,
    ipv6_address: Option<Located<String>>,
    link_local_ips: Vec<Located<String>>,
    mac_address: Option<Located<String>>,
    driver_opts: Vec<KeyValueEntry>,
    gw_priority: Option<Located<String>>,
    priority: Option<Located<String>>,
    extension_fields: Vec<FieldReference>,
    unknown_fields: Vec<FieldReference>,
}

impl ServiceNetwork {
    /// The network name.
    pub closed spec fn spec_name(&self) -> Located<String> {
        self.name
    }

    /// The source span.
    pub closed spec fn spec_span(&self) -> SourceSpan {
        self.span
    }

    /// The `aliases` list.
    pub closed spec fn spec_aliases(&self) -> Seq<Located<String>> {
        self.aliases@
    }

    /// The `interface_name` field.
    pub closed spec fn spec_interface_name(&self) -> Option<Located<String>> {
        self.interface_name
    }

    /// The `ipv4_address` field.
    pub closed spec fn spec_ipv4_address(&self) -> Option<Located<String>> {
        self.ipv4_address
    }

    /// The `ipv6_address` field.
    pub closed spec fn spec_ipv6_address(&self) -> Option<Located<String>> {
        self.ipv6_address
    }

    /// The `link_local_ips` list.
    pub closed spec fn spec_link_local_ips(&self) -> Seq<Located<String>> {
        self.link_local_ips@
    }

    /// The `mac_address` field.
    pub closed spec fn spec_mac_address(&self) -> Option<Located<String>> {
        self.mac_address
    }

    /// The `driver_opts` entries.
    pub closed spec fn spec_driver_opts(&self) -> Seq<KeyValueEntry> {
        self.driver_opts@
    }

    /// The `gw_priority` field.
    pub closed spec fn spec_gw_priority(&self) -> Option<Located<String>> {
        self.gw_priority
    }

    /// The `priority` field.
    pub closed spec fn spec_priority(&self) -> Option<Located<String>> {
        self.priority
    }

    /// The `x-` extension fields in source order.
    pub closed spec fn spec_extension_fields(&self) -> Seq<FieldReference> {
        self.extension_fields@
    }

    /// The unknown fields in source order.
    pub closed spec fn spec_unknown_fields(&self) -> Seq<FieldReference> {
        self.unknown_fields@
    }

    /// Creates a `ServiceNetwork` with no optional fields set.
    pub fn new(name: Located<String>, span: SourceSpan) -> (r: Self)
        ensures
            r.spec_name() == name,
            r.spec_span() == span,
            r.spec_aliases().len() == 0,
            r.spec_interface_name() is None,
            r.spec_ipv4_address() is None,
            r.spec_ipv6_address() is None,
            r.spec_link_local_ips().len() == 0,
            r.spec_mac_address() is None,
            r.spec_driver_opts().len() == 0,
            r.spec_gw_priority() is None,
            r.spec_priority() is None,
            r.spec_extension_fields().len() == 0,
            r.spec_unknown_fields().len() == 0,
    {
        Self {
            name,
            span,
            aliases: Vec::new(),
            interface_name: None,
            ipv4_address: None,
            ipv6_address: None,
            link_local_ips: Vec::new(),
            mac_address: None,
            driver_opts: Vec::new(),
            gw_priority: None,
            priority: None,
            extension_fields: Vec::new(),
            unknown_fields: Vec::new(),
        }
    }

    /// Sets the `aliases` field.
    pub fn set_aliases(&mut self, value: Vec<Located<String>>)
        ensures
            final(self).spec_aliases() == value@,
            final(self).spec_name() == old(self).spec_name(),
            final(self).spec_span() == old(self).spec_span(),
            final(self).spec_interface_name() == old(self).spec_interface_name(),
            final(self).spec_ipv4_address() == old(self).spec_ipv4_address(),
            final(self).spec_ipv6_address() == old(self).spec_ipv6_address(),
            final(self).spec_link_local_ips() == old(self).spec_link_local_ips(),
            final(self).spec_mac_address() == old(self).spec_mac_address(),
            final(self).spec_driver_opts() == old(self).spec_driver_opts(),
            final(self).spec_gw_priority() == old(self).spec_gw_priority(),
            final(self).spec_priority() == old(self).spec_priority(),
            final(self).spec_extension_fields() == old(self).spec_extension_fields(),
            final(self).spec_unknown_fields() == old(self).spec_unknown_fields(),
    {
        self.aliases = value;
    }

    /// Sets the `interface_name` field.
    pub fn set_interface_name(&mut self, value: Located<String>)
        ensures
            final(self).spec_interface_name() == Some(value),
            final(self).spec_name() == old(self).spec_name(),
            final(self).spec_span() == old(self).spec_span(),
            final(self).spec_aliases() == old(self).spec_aliases(),
            final(self).spec_ipv4_address() == old(self).spec_ipv4_address(),
            final(self).spec_ipv6_address() == old(self).spec_ipv6_address(),
            final(self).spec_link_local_ips() == old(self).spec_link_local_ips(),
            final(self).spec_mac_address() == old(self).spec_mac_address(),
            final(self).spec_driver_opts() == old(self).spec_driver_opts(),
            final(self).spec_gw_priority() == old(self).spec_gw_priority(),
            final(self).spec_priority() == old(self).spec_priority(),
            final(self).spec_extension_fields() == old(self).spec_extension_fields(),
            final(self).spec_unknown_fields() == old(self).spec_unknown_fields(),
    {
        self.interface_name = Some(value);
    }

    /// Sets the `ipv4_address` field.
    pub fn set_ipv4_address(&mut self, value: Located<String>)
        ensures
            final(self).spec_ipv4_address() == Some(value),
            final(self).spec_name() == old(self).spec_name(),
            final(self).spec_span() == old(self).spec_span(),
            final(self).spec_aliases() == old(self).spec_aliases(),
            final(self).spec_interface_name() == old(self).spec_interface_name(),
            final(self).spec_ipv6_address() == old(self).spec_ipv6_address(),
            final(self).spec_link_local_ips() == old(self).spec_link_local_ips(),
            final(self).spec_mac_address() == old(self).spec_mac_address(),
            final(self).spec_driver_opts() == old(self).spec_driver_opts(),
            final(self).spec_gw_priority() == old(self).spec_gw_priority(),
            final(self).spec_priority() == old(self).spec_priority(),
            final(self).spec_extension_fields() == old(self).spec_extension_fields(),
            final(self).spec_unknown_fields() == old(self).spec_unknown_fields(),
    {
        self.ipv4_address = Some(value);
    }

    /// Sets the `ipv6_address` field.
    pub fn set_ipv6_address(&mut self, value: Located<String>)
        ensures
            final(self).spec_ipv6_address() == Some(value),
            final(self).spec_name() == old(self).spec_name(),
            final(self).spec_span() == old(self).spec_span(),
            final(self).spec_aliases() == old(self).spec_aliases(),
            final(self).spec_interface_name() == old(self).spec_interface_name(),
            final(self).spec_ipv4_address() == old(self).spec_ipv4_address(),
            final(self).spec_link_local_ips() == old(self).spec_link_local_ips(),
            final(self).spec_mac_address() == old(self).spec_mac_address(),
            final(self).spec_driver_opts() == old(self).spec_driver_opts(),
            final(self).spec_gw_priority() == old(self).spec_gw_priority(),
            final(self).spec_priority() == old(self).spec_priority(),
            final(self).spec_extension_fields() == old(self).spec_extension_fields(),
            final(self).spec_unknown_fields() == old(self).spec_unknown_fields(),
    {
        self.ipv6_address = Some(value);
    }

    /// Sets the `link_local_ips` field.
    pub fn set_link_local_ips(&mut self, value: Vec<Located<String>>)
        ensures
            final(self).spec_link_local_ips() == value@,
            final(self).spec_name() == old(self).spec_name(),
            final(self).spec_span() == old(self).spec_span(),
            final(self).spec_aliases() == old(self).spec_aliases(),
            final(self).spec_interface_name() == old(self).spec_interface_name(),
            final(self).spec_ipv4_address() == old(self).spec_ipv4_address(),
            final(self).spec_ipv6_address() == old(self).spec_ipv6_address(),
            final(self).spec_mac_address() == old(self).spec_mac_address(),
            final(self).spec_driver_opts() == old(self).spec_driver_opts(),
            final(self).spec_gw_priority() == old(self).spec_gw_priority(),
            final(self).spec_priority() == old(self).spec_priority(),
            final(self).spec_extension_fields() == old(self).spec_extension_fields(),
            final(self).spec_unknown_fields() == old(self).spec_unknown_fields(),
    {
        self.link_local_ips = value;
    }

    /// Sets the `mac_address` field.
    pub fn set_mac_address(&mut self, value: Located<String>)
        ensures
            final(self).spec_mac_address() == Some(value),
            final(self).spec_name() == old(self).spec_name(),
            final(self).spec_span() == old(self).spec_span(),
            final(self).spec_aliases() == old(self).spec_aliases(),
            final(self).spec_interface_name() == old(self).spec_interface_name(),
            final(self).spec_ipv4_address() == old(self).spec_ipv4_address(),
            final(self).spec_ipv6_address() == old(self).spec_ipv6_address(),
            final(self).spec_link_local_ips() == old(self).spec_link_local_ips(),
            final(self).spec_driver_opts() == old(self).spec_driver_opts(),
            final(self).spec_gw_priority() == old(self).spec_gw_priority(),
            final(self).spec_priority() == old(self).spec_priority(),
            final(self).spec_extension_fields() == old(self).spec_extension_fields(),
            final(self).spec_unknown_fields() == old(self).spec_unknown_fields(),
    {
        self.mac_address = Some(value);
    }

    /// Sets the `driver_opts` field.
    pub fn set_driver_opts(&mut self, value: Vec<KeyValueEntry>)
        ensures
            final(self).spec_driver_opts() == value@,
            final(self).spec_name() == old(self).spec_name(),
            final(self).spec_span() == old(self).spec_span(),
            final(self).spec_aliases() == old(self).spec_aliases(),
            final(self).spec_interface_name() == old(self).spec_interface_name(),
            final(self).spec_ipv4_address() == old(self).spec_ipv4_address(),
            final(self).spec_ipv6_address() == old(self).spec_ipv6_address(),
            final(self).spec_link_local_ips() == old(self).spec_link_local_ips(),
            final(self).spec_mac_address() == old(self).spec_mac_address(),
            final(self).spec_gw_priority() == old(self).spec_gw_priority(),
            final(self).spec_priority() == old(self).spec_priority(),
            final(self).spec_extension_fields() == old(self).spec_extension_fields(),
            final(self).spec_unknown_fields() == old(self).spec_unknown_fields(),
    {
        self.driver_opts = value;
    }

    /// Sets the `gw_priority` field.
    pub fn set_gw_priority(&mut self, value: Located<String>)
        ensures
            final(self).spec_gw_priority() == Some(value),
            final(self).spec_name() == old(self).spec_name(),
            final(self).spec_span() == old(self).spec_span(),
            final(self).spec_aliases() == old(self).spec_aliases(),
            final(self).spec_interface_name() == old(self).spec_interface_name(),
            final(self).spec_ipv4_address() == old(self).spec_ipv4_address(),
            final(self).spec_ipv6_address() == old(self).spec_ipv6_address(),
            final(self).spec_link_local_ips() == old(self).spec_link_local_ips(),
            final(self).spec_mac_address() == old(self).spec_mac_address(),
            final(self).spec_driver_opts() == old(self).spec_driver_opts(),
            final(self).spec_priority() == old(self).spec_priority(),
            final(self).spec_extension_fields() == old(self).spec_extension_fields(),
            final(self).spec_unknown_fields() == old(self).spec_unknown_fields(),
    {
        self.gw_priority = Some(value);
    }

    /// Sets the `priority` field.
    pub fn set_priority(&mut self, value: Located<String>)
        ensures
            final(self).spec_priority() == Some(value),
            final(self).spec_name() == old(self).spec_name(),
            final(self).spec_span() == old(self).spec_span(),
            final(self).spec_aliases() == old(self).spec_aliases(),
            final(self).spec_interface_name() == old(self).spec_interface_name(),
            final(self).spec_ipv4_address() == old(self).spec_ipv4_address(),
            final(self).spec_ipv6_address() == old(self).spec_ipv6_address(),
            final(self).spec_link_local_ips() == old(self).spec_link_local_ips(),
            final(self).spec_mac_address() == old(self).spec_mac_address(),
            final(self).spec_driver_opts() == old(self).spec_driver_opts(),
            final(self).spec_gw_priority() == old(self).spec_gw_priority(),
            final(self).spec_extension_fields() == old(self).spec_extension_fields(),
            final(self).spec_unknown_fields() == old(self).spec_unknown_fields(),
    {
        self.priority = Some(value);
    }

    /// Appends to the `extension_fields` list.
    pub fn push_extension(&mut self, value: FieldReference)
        ensures
            final(self).spec_extension_fields() == old(self).spec_extension_fields().push(value),
            final(self).spec_name() == old(self).spec_name(),
            final(self).spec_span() == old(self).spec_span(),
            final(self).spec_aliases() == old(self).spec_aliases(),
            final(self).spec_interface_name() == old(self).spec_interface_name(),
            final(self).spec_ipv4_address() == old(self).spec_ipv4_address(),
            final(self).spec_ipv6_address() == old(self).spec_ipv6_address(),
            final(self).spec_link_local_ips() == old(self).spec_link_local_ips(),
            final(self).spec_mac_address() == old(self).spec_mac_address(),
            final(self).spec_driver_opts() == old(self).spec_driver_opts(),
            final(self).spec_gw_priority() == old(self).spec_gw_priority(),
            final(self).spec_priority() == old(self).spec_priority(),
            final(self).spec_unknown_fields() == old(self).spec_unknown_fields(),
    {
        self.extension_fields.push(value);
    }

    /// Appends to the `unknown_fields` list.
    pub fn push_unknown(&mut self, value: FieldReference)
        ensures
            final(self).spec_unknown_fields() == old(self).spec_unknown_fields().push(value),
            final(self).spec_name() == old(self).spec_name(),
            final(self).spec_span() == old(self).spec_span(),
            final(self).spec_aliases() == old(self).spec_aliases(),
            final(self).spec_interface_name() == old(self).spec_interface_name(),
            final(self).spec_ipv4_address() == old(self).spec_ipv4_address(),
            final(self).spec_ipv6_address() == old(self).spec_ipv6_address(),
            final(self).spec_link_local_ips() == old(self).spec_link_local_ips(),
            final(self).spec_mac_address() == old(self).spec_mac_address(),
            final(self).spec_driver_opts() == old(self).spec_driver_opts(),
            final(self).spec_gw_priority() == old(self).spec_gw_priority(),
            final(self).spec_priority() == old(self).spec_priority(),
            final(self).spec_extension_fields() == old(self).spec_extension_fields(),
    {
        self.unknown_fields.push(value);
    }

    /// Returns the network name.
    pub fn name(&self) -> (r: &Located<String>)
        ensures
            *r == self.spec_name(),
    {
        &self.name
    }

    /// Returns the source span.
    pub fn span(&self) -> (r: SourceSpan)
        ensures
            r == self.spec_span(),
    {
        self.span
    }

    /// Returns the `aliases` list.
    pub fn aliases(&self) -> (r: &[Located<String>])
        ensures
            r@ == self.spec_aliases(),
    {
        self.aliases.as_slice()
    }

    /// Returns the `interface_name` field.
    pub fn interface_name(&self) -> (r: Option<&Located<String>>)
        ensures
            r is Some <==> self.spec_interface_name() is Some,
            r matches Some(v) ==> *v == self.spec_interface_name()->0,
    {
        self.interface_name.as_ref()
    }

    /// Returns the `ipv4_address` field.
    pub fn ipv4_address(&self) -> (r: Option<&Located<String>>)
        ensures
            r is Some <==> self.spec_ipv4_address() is Some,
            r matches Some(v) ==> *v == self.spec_ipv4_address()->0,
    {
        self.ipv4_address.as_ref()
    }

    /// Returns the `ipv6_address` field.
    pub fn ipv6_address(&self) -> (r: Option<&Located<String>>)
        ensures
            r is Some <==> self.spec_ipv6_address() is Some,
            r matches Some(v) ==> *v == self.spec_ipv6_address()->0,
    {
        self.ipv6_address.as_ref()
    }

    /// Returns the `link_local_ips` list.
    pub fn link_local_ips(&self) -> (r: &[Located<String>])
        ensures
            r@ == self.spec_link_local_ips(),
    {
        self.link_local_ips.as_slice()
    }

    /// Returns the `mac_address` field.
    pub fn mac_address(&self) -> (r: Option<&Located<String>>)
        ensures
            r is Some <==> self.spec_mac_address() is Some,
            r matches Some(v) ==> *v == self.spec_mac_address()->0,
    {
        self.mac_address.as_ref()
    }

    /// Returns the `driver_opts` entries.
    pub fn driver_opts(&self) -> (r: &[KeyValueEntry])
        ensures
            r@ == self.spec_driver_opts(),
    {
        self.driver_opts.as_slice()
    }

    /// Returns the `gw_priority` field.
    pub fn gw_priority(&self) -> (r: Option<&Located<String>>)
        ensures
            r is Some <==> self.spec_gw_priority() is Some,
            r matches Some(v) ==> *v == self.spec_gw_priority()->0,
    {
        self.gw_priority.as_ref()
    }

    /// Returns the `priority` field.
    pub fn priority(&self) -> (r: Option<&Located<String>>)
        ensures
            r is Some <==> self.spec_priority() is Some,
            r matches Some(v) ==> *v == self.spec_priority()->0,
    {
        self.priority.as_ref()
    }

    /// Returns the `x-` extension fields in source order.
    pub fn extension_fields(&self) -> (r: &[FieldReference])
        ensures
            r@ == self.spec_extension_fields(),
    {
        self.extension_fields.as_slice()
    }

    /// Returns the unknown fields in source order.
    pub fn unknown_fields(&self) -> (r: &[FieldReference])
        ensures
            r@ == self.spec_unknown_fields(),
    {
        self.unknown_fields.as_slice()
    }
}

/// A service `networks` value in list or mapping form.
#[derive(Debug, Clone, PartialEq, Eq)]
pub enum ServiceNetworks {
    /// A list of network names.
    Short {
        /// The list span.
        span: SourceSpan,
        /// The network names.
        names: Vec<Located<String>>,
    },
    /// A mapping of network attachments.
    Long {
        /// The mapping span.
        span: SourceSpan,
        /// The attachments in authored order.
        networks: Vec<ServiceNetwork>,
    },
}

impl ServiceNetworks {
    /// The span of the authored value.
    pub open spec fn spec_span(&self) -> SourceSpan {
        match self {
            ServiceNetworks::Short { span, .. } => *span,
            ServiceNetworks::Long { span, .. } => *span,
        }
    }

    /// Returns the span of the authored value.
    pub fn span(&self) -> (r: SourceSpan)
        ensures
            r == self.spec_span(),
    {
        match self {
            ServiceNetworks::Short { span, .. } => *span,
            ServiceNetworks::Long { span, .. } => *span,
        }
    }
}

/// One `ipam.config` entry.
#[derive(Debug, Clone, PartialEq, Eq)]
pub struct IpamConfig {
    span: SourceSpan,
    subnet: Option<Located<String>>,
    ip_range: Option<Located<String>>,
    gateway: Option<Located<String>>,
    aux_addresses: Vec<KeyValueEntry>,
    extension_fields: Vec<FieldReference>,
    unknown_fields: Vec<FieldReference>,
}

impl IpamConfig {
    /// The source span.
    pub closed spec fn spec_span(&self) -> SourceSpan {
        self.span
    }

    /// The `subnet` field.
    pub closed spec fn spec_subnet(&self) -> Option<Located<String>> {
        self.subnet
    }

    /// The `ip_range` field.
    pub closed spec fn spec_ip_range(&self) -> Option<Located<String>> {
        self.ip_range
    }

    /// The `gateway` field.
    pub closed spec fn spec_gateway(&self) -> Option<Located<String>> {
        self.gateway
    }

    /// The `aux_addresses` entries.
    pub closed spec fn spec_aux_addresses(&self) -> Seq<KeyValueEntry> {
        self.aux_addresses@
    }

    /// The `x-` extension fields in source order.
    pub closed spec fn spec_extension_fields(&self) -> Seq<FieldReference> {
        self.extension_fields@
    }

    /// The unknown fields in source order.
    pub closed spec fn spec_unknown_fields(&self) -> Seq<FieldReference> {
        self.unknown_fields@
    }

    /// Creates a `IpamConfig` with no optional fields set.
    pub fn new(span: SourceSpan) -> (r: Self)
        ensures
            r.spec_span() == span,
            r.spec_subnet() is None,
            r.spec_ip_range() is None,
            r.spec_gateway() is None,
            r.spec_aux_addresses().len() == 0,
            r.spec_extension_fields().len() == 0,
            r.spec_unknown_fields().len() == 0,
    {
        Self {
            span,
            subnet: None,
            ip_range: None,
            gateway: None,
            aux_addresses: Vec::new(),
            extension_fields: Vec::new(),
            unknown_fields: Vec::new(),
        }
    }

    /// Sets the `subnet` field.
    pub fn set_subnet(&mut self, value: Located<String>)
        ensures
            final(self).spec_subnet() == Some(value),
            final(self).spec_span() == old(self).spec_span(),
            final(self).spec_ip_range() == old(self).spec_ip_range(),
            final(self).spec_gateway() == old(self).spec_gateway(),
            final(self).spec_aux_addresses() == old(self).spec_aux_addresses(),
            final(self).spec_extension_fields() == old(self).spec_extension_fields(),
            final(self).spec_unknown_fields() == old(self).spec_unknown_fields(),
    {
        self.subnet = Some(value);
    }

    /// Sets the `ip_range` field.
    pub fn set_ip_range(&mut self, value: Located<String>)
        ensures
            final(self).spec_ip_range() == Some(value),
            final(self).spec_span() == old(self).spec_span(),
            final(self).spec_subnet() == old(self).spec_subnet(),
            final(self).spec_gateway() == old(self).spec_gateway(),
            final(self).spec_aux_addresses() == old(self).spec_aux_addresses(),
            final(self).spec_extension_fields() == old(self).spec_extension_fields(),
            final(self).spec_unknown_fields() == old(self).spec_unknown_fields(),
    {
        self.ip_range = Some(value);
    }

    /// Sets the `gateway` field.
    pub fn set_gateway(&mut self, value: Located<String>)
        ensures
            final(self).spec_gateway() == Some(value),
            final(self).spec_span() == old(self).spec_span(),
            final(self).spec_subnet() == old(self).spec_subnet(),
            final(self).spec_ip_range() == old(self).spec_ip_range(),
            final(self).spec_aux_addresses() == old(self).spec_aux_addresses(),
            final(self).spec_extension_fields() == old(self).spec_extension_fields(),
            final(self).spec_unknown_fields() == old(self).spec_unknown_fields(),
    {
        self.gateway = Some(value);
    }

    /// Sets the `aux_addresses` field.
    pub fn set_aux_addresses(&mut self, value: Vec<KeyValueEntry>)
        ensures
            final(self).spec_aux_addresses() == value@,
            final(self).spec_span() == old(self).spec_span(),
            final(self).spec_subnet() == old(self).spec_subnet(),
            final(self).spec_ip_range() == old(self).spec_ip_range(),
            final(self).spec_gateway() == old(self).spec_gateway(),
            final(self).spec_extension_fields() == old(self).spec_extension_fields(),
            final(self).spec_unknown_fields() == old(self).spec_unknown_fields(),
    {
        self.aux_addresses = value;
    }

    /// Appends to the `extension_fields` list.
    pub fn push_extension(&mut self, value: FieldReference)
        ensures
            final(self).spec_extension_fields() == old(self).spec_extension_fields().push(value),
            final(self).spec_span() == old(self).spec_span(),
            final(self).spec_subnet() == old(self).spec_subnet(),
            final(self).spec_ip_range() == old(self).spec_ip_range(),
            final(self).spec_gateway() == old(self).spec_gateway(),
            final(self).spec_aux_addresses() == old(self).spec_aux_addresses(),
            final(self).spec_unknown_fields() == old(self).spec_unknown_fields(),
    {
        self.extension_fields.push(value);
    }

    /// Appends to the `unknown_fields` list.
    pub fn push_unknown(&mut self, value: FieldReference)
        ensures
            final(self).spec_unknown_fields() == old(self).spec_unknown_fields().push(value),
            final(self).spec_span() == old(self).spec_span(),
            final(self).spec_subnet() == old(self).spec_subnet(),
            final(self).spec_ip_range() == old(self).spec_ip_range(),
            final(self).spec_gateway() == old(self).spec_gateway(),
            final(self).spec_aux_addresses() == old(self).spec_aux_addresses(),
            final(self).spec_extension_fields() == old(self).spec_extension_fields(),
    {
        self.unknown_fields.push(value);
    }

    /// Returns the source span.
    pub fn span(&self) -> (r: SourceSpan)
        ensures
            r == self.spec_span(),
    {
        self.span
    }

    /// Returns the `subnet` field.
    pub fn subnet(&self) -> (r: Option<&Located<String>>)
        ensures
            r is Some <==> self.spec_subnet() is Some,
            r matches Some(v) ==> *v == self.spec_subnet()->0,
    {
        self.subnet.as_ref()
    }

    /// Returns the `ip_range` field.
    pub fn ip_range(&self) -> (r: Option<&Located<String>>)
        ensures
            r is Some <==> self.spec_ip_range() is Some,
            r matches Some(v) ==> *v == self.spec_ip_range()->0,
    {
        self.ip_range.as_ref()
    }

    /// Returns the `gateway` field.
    pub fn gateway(&self) -> (r: Option<&Located<String>>)
        ensures
            r is Some <==> self.spec_gateway() is Some,
            r matches Some(v) ==> *v == self.spec_gateway()->0,
    {
        self.gateway.as_ref()
    }

    /// Returns the `aux_addresses` entries.
    pub fn aux_addresses(&self) -> (r: &[KeyValueEntry])
        ensures
            r@ == self.spec_aux_addresses(),
    {
        self.aux_addresses.as_slice()
    }

    /// Returns the `x-` extension fields in source order.
    pub fn extension_fields(&self) -> (r: &[FieldReference])
        ensures
            r@ == self.spec_extension_fields(),
    {
        self.extension_fields.as_slice()
    }

    /// Returns the unknown fields in source order.
    pub fn unknown_fields(&self) -> (r: &[FieldReference])
        ensures
            r@ == self.spec_unknown_fields(),
    {
        self.unknown_fields.as_slice()
    }
}

/// A network `ipam` mapping.
#[derive(Debug, Clone, PartialEq, Eq)]
pub struct Ipam {
    span: SourceSpan,
    driver: Option<Located<String>>,
    config: Vec<IpamConfig>,
    options: Vec<KeyValueEntry>,
    extension_fields: Vec<FieldReference>,
    unknown_fields: Vec<FieldReference>,
}

impl Ipam {
    /// The source span.
    pub closed spec fn spec_span(&self) -> SourceSpan {
        self.span
    }

    /// The `driver` field.
    pub closed spec fn spec_driver(&self) -> Option<Located<String>> {
        self.driver
    }

    /// The `config` entries.
    pub closed spec fn spec_config(&self) -> Seq<IpamConfig> {
        self.config@
    }

    /// The `options` entries.
    pub closed spec fn spec_options(&self) -> Seq<KeyValueEntry> {
        self.options@
    }

    /// The `x-` extension fields in source order.
    pub closed spec fn spec_extension_fields(&self) -> Seq<FieldReference> {
        self.extension_fields@
    }

    /// The unknown fields in source order.
    pub closed spec fn spec_unknown_fields(&self) -> Seq<FieldReference> {
        self.unknown_fields@
    }

    /// Creates a `Ipam` with no optional fields set.
    pub fn new(span: SourceSpan) -> (r: Self)
        ensures
            r.spec_span() == span,
            r.spec_driver() is None,
            r.spec_config().len() == 0,
            r.spec_options().len() == 0,
            r.spec_extension_fields().len() == 0,
            r.spec_unknown_fields().len() == 0,
    {
        Self {
            span,
            driver: None,
            config: Vec::new(),
            options: Vec::new(),
            extension_fields: Vec::new(),
            unknown_fields: Vec::new(),
        }
    }

    /// Sets the `driver` field.
    pub fn set_driver(&mut self, value: Located<String>)
        ensures
            final(self).spec_driver() == Some(value),
            final(self).spec_span() == old(self).spec_span(),
            final(self).spec_config() == old(self).spec_config(),
            final(self).spec_options() == old(self).spec_options(),
            final(self).spec_extension_fields() == old(self).spec_extension_fields(),
            final(self).spec_unknown_fields() == old(self).spec_unknown_fields(),
    {
        self.driver = Some(value);
    }

    /// Sets the `config` field.
    pub fn set_config(&mut self, value: Vec<IpamConfig>)
        ensures
            final(self).spec_config() == value@,
            final(self).spec_span() == old(self).spec_span(),
            final(self).spec_driver() == old(self).spec_driver(),
            final(self).spec_options() == old(self).spec_options(),
            final(self).spec_extension_fields() == old(self).spec_extension_fields(),
            final(self).spec_unknown_fields() == old(self).spec_unknown_fields(),
    {
        self.config = value;
    }

    /// Sets the `options` field.
    pub fn set_options(&mut self, value: Vec<KeyValueEntry>)
        ensures
            final(self).spec_options() == value@,
            final(self).spec_span() == old(self).spec_span(),
            final(self).spec_driver() == old(self).spec_driver(),
            final(self).spec_config() == old(self).spec_config(),
            final(self).spec_extension_fields() == old(self).spec_extension_fields(),
            final(self).spec_unknown_fields() == old(self).spec_unknown_fields(),
    {
        self.options = value;
    }

    /// Appends to the `extension_fields` list.
    pub fn push_extension(&mut self, value: FieldReference)
        ensures
            final(self).spec_extension_fields() == old(self).spec_extension_fields().push(value),
            final(self).spec_span() == old(self).spec_span(),
            final(self).spec_driver() == old(self).spec_driver(),
            final(self).spec_config() == old(self).spec_config(),
            final(self).spec_options() == old(self).spec_options(),
            final(self).spec_unknown_fields() == old(self).spec_unknown_fields(),
    {
        self.extension_fields.push(value);
    }

    /// Appends to the `unknown_fields` list.
    pub fn push_unknown(&mut self, value: FieldReference)
        ensures
            final(self).spec_unknown_fields() == old(self).spec_unknown_fields().push(value),
            final(self).spec_span() == old(self).spec_span(),
            final(self).spec_driver() == old(self).spec_driver(),
            final(self).spec_config() == old(self).spec_config(),
            final(self).spec_options() == old(self).spec_options(),
            final(self).spec_extension_fields() == old(self).spec_extension_fields(),
    {
        self.unknown_fields.push(value);
    }

    /// Returns the source span.
    pub fn span(&self) -> (r: SourceSpan)
        ensures
            r == self.spec_span(),
    {
        self.span
    }

    /// Returns the `driver` field.
    pub fn driver(&self) -> (r: Option<&Located<String>>)
        ensures
            r is Some <==> self.spec_driver() is Some,
            r matches Some(v) ==> *v == self.spec_driver()->0,
    {
        self.driver.as_ref()
    }

    /// Returns the `config` entries.
    pub fn config(&self) -> (r: &[IpamConfig])
        ensures
            r@ == self.spec_config(),
    {
        self.config.as_slice()
    }

    /// Returns the `options` entries.
    pub fn options(&self) -> (r: &[KeyValueEntry])
        ensures
            r@ == self.spec_options(),
    {
        self.options.as_slice()
    }

    /// Returns the `x-` extension fields in source order.
    pub fn extension_fields(&self) -> (r: &[FieldReference])
        ensures
            r@ == self.spec_extension_fields(),
    {
        self.extension_fields.as_slice()
    }

    /// Returns the unknown fields in source order.
    pub fn unknown_fields(&self) -> (r: &[FieldReference])
        ensures
            r@ == self.spec_unknown_fields(),
    {
        self.unknown_fields.as_slice()
    }
}

/// A top-level network definition.
#[derive(Debug, Clone, PartialEq, Eq)]
pub struct NetworkDefinition {
    name: Located<String>,
    span: SourceSpan,
    driver: Option<Located<String>>,
    driver_opts: Vec<KeyValueEntry>,
    attachable: Option<Located<BooleanValue>>,
    enable_ipv4: Option<Located<BooleanValue>>,
    enable_ipv6: Option<Located<BooleanValue>>,
    internal: Option<Located<BooleanValue>>,
    ipam: Option<Ipam>,
    labels: Option<Labels>,
    custom_name: Option<Located<String>>,
    extension_fields: Vec<FieldReference>,
    unknown_fields: Vec<FieldReference>,
}

impl NetworkDefinition {
    /// The network key.
    pub closed spec fn spec_name(&self) -> Located<String> {
        self.name
    }

    /// The source span.
    pub closed spec fn spec_span(&self) -> SourceSpan {
        self.span
    }

    /// The `driver` field.
    pub closed spec fn spec_driver(&self) -> Option<Located<String>> {
        self.driver
    }

    /// The `driver_opts` entries.
    pub closed spec fn spec_driver_opts(&self) -> Seq<KeyValueEntry> {
        self.driver_opts@
    }

    /// The `attachable` flag.
    pub closed spec fn spec_attachable(&self) -> Option<Located<BooleanValue>> {
        self.attachable
    }

    /// The `enable_ipv4` flag.
    pub closed spec fn spec_enable_ipv4(&self) -> Option<Located<BooleanValue>> {
        self.enable_ipv4
    }

    /// The `enable_ipv6` flag.
    pub closed spec fn spec_enable_ipv6(&self) -> Option<Located<BooleanValue>> {
        self.enable_ipv6
    }

    /// The `internal` flag.
    pub closed spec fn spec_internal(&self) -> Option<Located<BooleanValue>> {
        self.internal
    }

    /// The `ipam` mapping.
    pub closed spec fn spec_ipam(&self) -> Option<Ipam> {
        self.ipam
    }

    /// The `labels` value.
    pub closed spec fn spec_labels(&self) -> Option<Labels> {
        self.labels
    }

    /// The `name` field.
    pub closed spec fn spec_custom_name(&self) -> Option<Located<String>> {
        self.custom_name
    }

    /// The `x-` extension fields in source order.
    pub closed spec fn spec_extension_fields(&self) -> Seq<FieldReference> {
        self.extension_fields@
    }

    /// The unknown fields in source order.
    pub closed spec fn spec_unknown_fields(&self) -> Seq<FieldReference> {
        self.unknown_fields@
    }

    /// Creates a `NetworkDefinition` with no optional fields set.
    pub fn new(name: Located<String>, span: SourceSpan) -> (r: Self)
        ensures
            r.spec_name() == name,
            r.spec_span() == span,
            r.spec_driver() is None,
            r.spec_driver_opts().len() == 0,
            r.spec_attachable() is None,
            r.spec_enable_ipv4() is None,
            r.spec_enable_ipv6() is None,
            r.spec_internal() is None,
            r.spec_ipam() is None,
            r.spec_labels() is None,
            r.spec_custom_name() is None,
            r.spec_extension_fields().len() == 0,
            r.spec_unknown_fields().len() == 0,
    {
        Self {
            name,
            span,
            driver: None,
            driver_opts: Vec::new(),
            attachable: None,
            enable_ipv4: None,
            enable_ipv6: None,
            internal: None,
            ipam: None,
            labels: None,
            custom_name: None,
            extension_fields: Vec::new(),
            unknown_fields: Vec::new(),
        }
    }

    /// Sets the `driver` field.
    pub fn set_driver(&mut self, value: Located<String>)
        ensures
            final(self).spec_driver() == Some(value),
            final(self).spec_name() == old(self).spec_name(),
            final(self).spec_span() == old(self).spec_span(),
            final(self).spec_driver_opts() == old(self).spec_driver_opts(),
            final(self).spec_attachable() == old(self).spec_attachable(),
            final(self).spec_enable_ipv4() == old(self).spec_enable_ipv4(),
            final(self).spec_enable_ipv6() == old(self).spec_enable_ipv6(),
            final(self).spec_internal() == old(self).spec_internal(),
            final(self).spec_ipam() == old(self).spec_ipam(),
            final(self).spec_labels() == old(self).spec_labels(),
            final(self).spec_custom_name() == old(self).spec_custom_name(),
            final(self).spec_extension_fields() == old(self).spec_extension_fields(),
            final(self).spec_unknown_fields() == old(self).spec_unknown_fields(),
    {
        self.driver = Some(value);
    }

    /// Sets the `driver_opts` field.
    pub fn set_driver_opts(&mut self, value: Vec<KeyValueEntry>)
        ensures
            final(self).spec_driver_opts() == value@,
            final(self).spec_name() == old(self).spec_name(),
            final(self).spec_span() == old(self).spec_span(),
            final(self).spec_driver() == old(self).spec_driver(),
            final(self).spec_attachable() == old(self).spec_attachable(),
            final(self).spec_enable_ipv4() == old(self).spec_enable_ipv4(),
            final(self).spec_enable_ipv6() == old(self).spec_enable_ipv6(),
            final(self).spec_internal() == old(self).spec_internal(),
            final(self).spec_ipam() == old(self).spec_ipam(),
            final(self).spec_labels() == old(self).spec_labels(),
            final(self).spec_custom_name() == old(self).spec_custom_name(),
            final(self).spec_extension_fields() == old(self).spec_extension_fields(),
            final(self).spec_unknown_fields() == old(self).spec_unknown_fields(),
    {
        self.driver_opts = value;
    }

    /// Sets the `attachable` field.
    pub fn set_attachable(&mut self, value: Located<BooleanValue>)
        ensures
            final(self).spec_attachable() == Some(value),
            final(self).spec_name() == old(self).spec_name(),
            final(self).spec_span() == old(self).spec_span(),
            final(self).spec_driver() == old(self).spec_driver(),
            final(self).spec_driver_opts() == old(self).spec_driver_opts(),
            final(self).spec_enable_ipv4() == old(self).spec_enable_ipv4(),
            final(self).spec_enable_ipv6() == old(self).spec_enable_ipv6(),
            final(self).spec_internal() == old(self).spec_internal(),
            final(self).spec_ipam() == old(self).spec_ipam(),
            final(self).spec_labels() == old(self).spec_labels(),
            final(self).spec_custom_name() == old(self).spec_custom_name(),
            final(self).spec_extension_fields() == old(self).spec_extension_fields(),
            final(self).spec_unknown_fields() == old(self).spec_unknown_fields(),
    {
        self.attachable = Some(value);
    }

    /// Sets the `enable_ipv4` field.
    pub fn set_enable_ipv4(&mut self, value: Located<BooleanValue>)
        ensures
            final(self).spec_enable_ipv4() == Some(value),
            final(self).spec_name() == old(self).spec_name(),
            final(self).spec_span() == old(self).spec_span(),
            final(self).spec_driver() == old(self).spec_driver(),
            final(self).spec_driver_opts() == old(self).spec_driver_opts(),
            final(self).spec_attachable() == old(self).spec_attachable(),
            final(self).spec_enable_ipv6() == old(self).spec_enable_ipv6(),
            final(self).spec_internal() == old(self).spec_internal(),
            final(self).spec_ipam() == old(self).spec_ipam(),
            final(self).spec_labels() == old(self).spec_labels(),
            final(self).spec_custom_name() == old(self).spec_custom_name(),
            final(self).spec_extension_fields() == old(self).spec_extension_fields(),
            final(self).spec_unknown_fields() == old(self).spec_unknown_fields(),
    {
        self.enable_ipv4 = Some(value);
    }

    /// Sets the `enable_ipv6` field.
    pub fn set_enable_ipv6(&mut self, value: Located<BooleanValue>)
        ensures
            final(self).spec_enable_ipv6() == Some(value),
            final(self).spec_name() == old(self).spec_name(),
            final(self).spec_span() == old(self).spec_span(),
            final(self).spec_driver() == old(self).spec_driver(),
            final(self).spec_driver_opts() == old(self).spec_driver_opts(),
            final(self).spec_attachable() == old(self).spec_attachable(),
            final(self).spec_enable_ipv4() == old(self).spec_enable_ipv4(),
            final(self).spec_internal() == old(self).spec_internal(),
            final(self).spec_ipam() == old(self).spec_ipam(),
            final(self).spec_labels() == old(self).spec_labels(),
            final(self).spec_custom_name() == old(self).spec_custom_name(),
            final(self).spec_extension_fields() == old(self).spec_extension_fields(),
            final(self).spec_unknown_fields() == old(self).spec_unknown_fields(),
    {
        self.enable_ipv6 = Some(value);
    }

    /// Sets the `internal` field.
    pub fn set_internal(&mut self, value: Located<BooleanValue>)
        ensures
            final(self).spec_internal() == Some(value),
            final(self).spec_name() == old(self).spec_name(),
            final(self).spec_span() == old(self).spec_span(),
            final(self).spec_driver() == old(self).spec_driver(),
            final(self).spec_driver_opts() == old(self).spec_driver_opts(),
            final(self).spec_attachable() == old(self).spec_attachable(),
            final(self).spec_enable_ipv4() == old(self).spec_enable_ipv4(),
            final(self).spec_enable_ipv6() == old(self).spec_enable_ipv6(),
            final(self).spec_ipam() == old(self).spec_ipam(),
            final(self).spec_labels() == old(self).spec_labels(),
            final(self).spec_custom_name() == old(self).spec_custom_name(),
            final(self).spec_extension_fields() == old(self).spec_extension_fields(),
            final(self).spec_unknown_fields() == old(self).spec_unknown_fields(),
    {
        self.internal = Some(value);
    }

    /// Sets the `ipam` field.
    pub fn set_ipam(&mut self, value: Ipam)
        ensures
            final(self).spec_ipam() == Some(value),
            final(self).spec_name() == old(self).spec_name(),
            final(self).spec_span() == old(self).spec_span(),
            final(self).spec_driver() == old(self).spec_driver(),
            final(self).spec_driver_opts() == old(self).spec_driver_opts(),
            final(self).spec_attachable() == old(self).spec_attachable(),
            final(self).spec_enable_ipv4() == old(self).spec_enable_ipv4(),
            final(self).spec_enable_ipv6() == old(self).spec_enable_ipv6(),
            final(self).spec_internal() == old(self).spec_internal(),
            final(self).spec_labels() == old(self).spec_labels(),
            final(self).spec_custom_name() == old(self).spec_custom_name(),
            final(self).spec_extension_fields() == old(self).spec_extension_fields(),
            final(self).spec_unknown_fields() == old(self).spec_unknown_fields(),
    {
        self.ipam = Some(value);
    }

    /// Sets the `labels` field.
    pub fn set_labels(&mut self, value: Labels)
        ensures
            final(self).spec_labels() == Some(value),
            final(self).spec_name() == old(self).spec_name(),
            final(self).spec_span() == old(self).spec_span(),
            final(self).spec_driver() == old(self).spec_driver(),
            final(self).spec_driver_opts() == old(self).spec_driver_opts(),
            final(self).spec_attachable() == old(self).spec_attachable(),
            final(self).spec_enable_ipv4() == old(self).spec_enable_ipv4(),
            final(self).spec_enable_ipv6() == old(self).spec_enable_ipv6(),
            final(self).spec_internal() == old(self).spec_internal(),
            final(self).spec_ipam() == old(self).spec_ipam(),
            final(self).spec_custom_name() == old(self).spec_custom_name(),
            final(self).spec_extension_fields() == old(self).spec_extension_fields(),
            final(self).spec_unknown_fields() == old(self).spec_unknown_fields(),
    {
        self.labels = Some(value);
    }

    /// Sets the `custom_name` field.
    pub fn set_custom_name(&mut self, value: Located<String>)
        ensures
            final(self).spec_custom_name() == Some(value),
            final(self).spec_name() == old(self).spec_name(),
            final(self).spec_span() == old(self).spec_span(),
            final(self).spec_driver() == old(self).spec_driver(),
            final(self).spec_driver_opts() == old(self).spec_driver_opts(),
            final(self).spec_attachable() == old(self).spec_attachable(),
            final(self).spec_enable_ipv4() == old(self).spec_enable_ipv4(),
            final(self).spec_enable_ipv6() == old(self).spec_enable_ipv6(),
            final(self).spec_internal() == old(self).spec_internal(),
            final(self).spec_ipam() == old(self).spec_ipam(),
            final(self).spec_labels() == old(self).spec_labels(),
            final(self).spec_extension_fields() == old(self).spec_extension_fields(),
            final(self).spec_unknown_fields() == old(self).spec_unknown_fields(),
    {
        self.custom_name = Some(value);
    }

    /// Appends to the `extension_fields` list.
    pub fn push_extension(&mut self, value: FieldReference)
        ensures
            final(self).spec_extension_fields() == old(self).spec_extension_fields().push(value),
            final(self).spec_name() == old(self).spec_name(),
            final(self).spec_span() == old(self).spec_span(),
            final(self).spec_driver() == old(self).spec_driver(),
            final(self).spec_driver_opts() == old(self).spec_driver_opts(),
            final(self).spec_attachable() == old(self).spec_attachable(),
            final(self).spec_enable_ipv4() == old(self).spec_enable_ipv4(),
            final(self).spec_enable_ipv6() == old(self).spec_enable_ipv6(),
            final(self).spec_internal() == old(self).spec_internal(),
            final(self).spec_ipam() == old(self).spec_ipam(),
            final(self).spec_labels() == old(self).spec_labels(),
            final(self).spec_custom_name() == old(self).spec_custom_name(),
            final(self).spec_unknown_fields() == old(self).spec_unknown_fields(),
    {
        self.extension_fields.push(value);
    }

    /// Appends to the `unknown_fields` list.
    pub fn push_unknown(&mut self, value: FieldReference)
        ensures
            final(self).spec_unknown_fields() == old(self).spec_unknown_fields().push(value),
            final(self).spec_name() == old(self).spec_name(),
            final(self).spec_span() == old(self).spec_span(),
            final(self).spec_driver() == old(self).spec_driver(),
            final(self).spec_driver_opts() == old(self).spec_driver_opts(),
            final(self).spec_attachable() == old(self).spec_attachable(),
            final(self).spec_enable_ipv4() == old(self).spec_enable_ipv4(),
            final(self).spec_enable_ipv6() == old(self).spec_enable_ipv6(),
            final(self).spec_internal() == old(self).spec_internal(),
            final(self).spec_ipam() == old(self).spec_ipam(),
            final(self).spec_labels() == old(self).spec_labels(),
            final(self).spec_custom_name() == old(self).spec_custom_name(),
            final(self).spec_extension_fields() == old(self).spec_extension_fields(),
    {
        self.unknown_fields.push(value);
    }

    /// Returns the network key.
    pub fn name(&self) -> (r: &Located<String>)
        ensures
            *r == self.spec_name(),
    {
        &self.name
    }

    /// Returns the source span.
    pub fn span(&self) -> (r: SourceSpan)
        ensures
            r == self.spec_span(),
    {
        self.span
    }

    /// Returns the `driver` field.
    pub fn driver(&self) -> (r: Option<&Located<String>>)
        ensures
            r is Some <==> self.spec_driver() is Some,
            r matches Some(v) ==> *v == self.spec_driver()->0,
    {
        self.driver.as_ref()
    }

    /// Returns the `driver_opts` entries.
    pub fn driver_opts(&self) -> (r: &[KeyValueEntry])
        ensures
            r@ == self.spec_driver_opts(),
    {
        self.driver_opts.as_slice()
    }

    /// Returns the `attachable` flag.
    pub fn attachable(&self) -> (r: Option<&Located<BooleanValue>>)
        ensures
            r is Some <==> self.spec_attachable() is Some,
            r matches Some(v) ==> *v == self.spec_attachable()->0,
    {
        self.attachable.as_ref()
    }

    /// Returns the `enable_ipv4` flag.
    pub fn enable_ipv4(&self) -> (r: Option<&Located<BooleanValue>>)
        ensures
            r is Some <==> self.spec_enable_ipv4() is Some,
            r matches Some(v) ==> *v == self.spec_enable_ipv4()->0,
    {
        self.enable_ipv4.as_ref()
    }

    /// Returns the `enable_ipv6` flag.
    pub fn enable_ipv6(&self) -> (r: Option<&Located<BooleanValue>>)
        ensures
            r is Some <==> self.spec_enable_ipv6() is Some,
            r matches Some(v) ==> *v == self.spec_enable_ipv6()->0,
    {
        self.enable_ipv6.as_ref()
    }

    /// Returns the `internal` flag.
    pub fn internal(&self) -> (r: Option<&Located<BooleanValue>>)
        ensures
            r is Some <==> self.spec_internal() is Some,
            r matches Some(v) ==> *v == self.spec_internal()->0,
    {
        self.internal.as_ref()
    }

    /// Returns the `ipam` mapping.
    pub fn ipam(&self) -> (r: Option<&Ipam>)
        ensures
            r is Some <==> self.spec_ipam() is Some,
            r matches Some(v) ==> *v == self.spec_ipam()->0,
    {
        self.ipam.as_ref()
    }

    /// Returns the `labels` value.
    pub fn labels(&self) -> (r: Option<&Labels>)
        ensures
            r is Some <==> self.spec_labels() is Some,
            r matches Some(v) ==> *v == self.spec_labels()->0,
    {
        self.labels.as_ref()
    }

    /// Returns the `name` field.
    pub fn custom_name(&self) -> (r: Option<&Located<String>>)
        ensures
            r is Some <==> self.spec_custom_name() is Some,
            r matches Some(v) ==> *v == self.spec_custom_name()->0,
    {
        self.custom_name.as_ref()
    }

    /// Returns the `x-` extension fields in source order.
    pub fn extension_fields(&self) -> (r: &[FieldReference])
        ensures
            r@ == self.spec_extension_fields(),
    {
        self.extension_fields.as_slice()
    }

    /// Returns the unknown fields in source order.
    pub fn unknown_fields(&self) -> (r: &[FieldReference])
        ensures
            r@ == self.spec_unknown_fields(),
    {
        self.unknown_fields.as_slice()
    }
}

} // verus!
