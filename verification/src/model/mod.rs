//! Source-aware native Compose document types.

pub mod annotation;
pub mod blkio;
pub mod build_extra_host;
pub mod capability;
pub mod cgroup;
pub mod command;
pub mod cpu_count;
pub mod cpu_percent;
pub mod cpu_period;
pub mod cpu_quota;
pub mod cpu_rt_period;
pub mod cpu_rt_runtime;
pub mod credential_spec;
pub mod dependency;
pub mod device;
pub mod dns;
pub mod dns_option;
pub mod dns_search;
pub mod document;
pub mod environment;
pub mod expose;
pub mod extends;
pub mod host;
pub mod hostname;
pub mod identity;
pub mod image;
pub mod lifecycle;
pub mod lifecycle_hook;
pub mod logging;
pub mod memory;
pub mod network;
pub mod pids;
pub mod port;
pub mod provider;
pub mod remaining;
pub mod parse;
pub mod pull;
pub mod resource;
pub mod restart;
pub mod value;

pub use document::{ComposeDocument, ModelParse, Service};
use crate::source::SourceSpan;
use vstd::prelude::*;

verus! {

/// A typed value and the exact source span from which it was read.
#[derive(Debug, Clone, PartialEq, Eq)]
pub struct Located<T> {
    value: T,
    span: SourceSpan,
}

impl<T> Located<T> {
    /// The typed value.
    pub closed spec fn spec_value(&self) -> T {
        self.value
    }

    /// The value's source span.
    pub closed spec fn spec_span(&self) -> SourceSpan {
        self.span
    }

    /// A value paired with a span.
    pub closed spec fn spec_new(value: T, span: SourceSpan) -> Self {
        Located { value, span }
    }

    /// Pairs a value with the span it was read from.
    pub fn new(value: T, span: SourceSpan) -> (located: Self)
        ensures
            located.spec_value() == value,
            located.spec_span() == span,
            located == Self::spec_new(value, span),
    {
        Self { value, span }
    }

    /// Returns the typed value.
    pub fn value(&self) -> (value: &T)
        ensures
            *value == self.spec_value(),
    {
        &self.value
    }

    /// Returns the value's source span.
    pub fn span(&self) -> (span: SourceSpan)
        ensures
            span == self.spec_span(),
    {
        self.span
    }

    /// Removes the source wrapper and returns the typed value.
    pub fn into_value(self) -> (value: T)
        ensures
            value == self.spec_value(),
    {
        self.value
    }
}

impl Located<String> {
    /// Returns an equal copy of a located string.
    pub fn duplicate(&self) -> (r: Self)
        ensures
            r == *self,
    {
        Self { value: self.value.clone(), span: self.span }
    }
}

/// The UTF-8 bytes of a located string.
pub open spec fn lb(l: Located<String>) -> Seq<u8> {
    crate::text::sb(l.spec_value()@)
}

/// The characters of a located string.
pub open spec fn lc(l: Located<String>) -> Seq<char> {
    l.spec_value()@
}

/// Source provenance for an extension or not-yet-typed field.
#[derive(Debug, Clone, PartialEq, Eq)]
pub struct FieldReference {
    name: Located<String>,
    span: SourceSpan,
    value_span: Option<SourceSpan>,
}

impl FieldReference {
    /// The field name.
    pub closed spec fn spec_name(&self) -> Located<String> {
        self.name
    }

    /// The span covering key and value.
    pub closed spec fn spec_span(&self) -> SourceSpan {
        self.span
    }

    /// The value span, when known.
    pub closed spec fn spec_value_span(&self) -> Option<SourceSpan> {
        self.value_span
    }

    /// A field reference with the given parts.
    pub closed spec fn spec_new(name: Located<String>, span: SourceSpan, value_span: Option<SourceSpan>) -> Self {
        FieldReference { name, span, value_span }
    }

    /// Creates a field reference.
    pub fn new(name: Located<String>, span: SourceSpan, value_span: Option<SourceSpan>) -> (f: Self)
        ensures
            f.spec_name() == name,
            f.spec_span() == span,
            f.spec_value_span() == value_span,
            f == Self::spec_new(name, span, value_span),
    {
        Self { name, span, value_span }
    }

    /// Returns the semantic field name and its source span.
    pub fn name(&self) -> (name: &Located<String>)
        ensures
            *name == self.spec_name(),
    {
        &self.name
    }

    /// Returns the span covering the key and value when both are available.
    pub fn span(&self) -> (span: SourceSpan)
        ensures
            span == self.spec_span(),
    {
        self.span
    }

    /// Returns an equal copy.
    pub fn duplicate(&self) -> (r: Self)
        ensures
            r == *self,
    {
        Self { name: self.name.duplicate(), span: self.span, value_span: self.value_span }
    }

    /// Returns the value span when the YAML node exposes one.
    pub fn value_span(&self) -> (span: Option<SourceSpan>)
        ensures
            span == self.spec_value_span(),
    {
        self.value_span
    }
}

/// A Compose document root must be a mapping.
pub fn document_root_type() -> (r: crate::diagnostic::DiagnosticCode)
    ensures
        r.text() == "compose.document.expected-mapping"@,
{
    crate::diagnostic::DiagnosticCode::new("compose.document.expected-mapping")
}

/// `ComposeLens` currently types the first document in a multi-document YAML stream.
pub fn multiple_documents() -> (r: crate::diagnostic::DiagnosticCode)
    ensures
        r.text() == "compose.document.multiple-documents"@,
{
    crate::diagnostic::DiagnosticCode::new("compose.document.multiple-documents")
}

/// A mapping contains a duplicate field.
pub fn duplicate_field() -> (r: crate::diagnostic::DiagnosticCode)
    ensures
        r.text() == "compose.model.duplicate-field"@,
{
    crate::diagnostic::DiagnosticCode::new("compose.model.duplicate-field")
}

/// A deploy endpoint mode is retained but is outside Compose's documented portable values.
pub fn deploy_endpoint_mode_portability() -> (r: crate::diagnostic::DiagnosticCode)
    ensures
        r.text() == "compose.deploy.endpoint-mode.portability"@,
{
    crate::diagnostic::DiagnosticCode::new("compose.deploy.endpoint-mode.portability")
}

/// A deploy mode is retained but is outside Compose's documented portable values.
pub fn deploy_mode_portability() -> (r: crate::diagnostic::DiagnosticCode)
    ensures
        r.text() == "compose.deploy.mode.portability"@,
{
    crate::diagnostic::DiagnosticCode::new("compose.deploy.mode.portability")
}

/// A Build no-cache filter list repeats an exact stage name.
pub fn build_no_cache_filter_duplicate_item() -> (r: crate::diagnostic::DiagnosticCode)
    ensures
        r.text() == "compose.build.no-cache-filter.duplicate-item"@,
{
    crate::diagnostic::DiagnosticCode::new("compose.build.no-cache-filter.duplicate-item")
}

/// A Compose value has to be a mapping at this location.
pub fn expected_mapping() -> (r: crate::diagnostic::DiagnosticCode)
    ensures
        r.text() == "compose.model.expected-mapping"@,
{
    crate::diagnostic::DiagnosticCode::new("compose.model.expected-mapping")
}

/// A Compose value has to be a sequence at this location.
pub fn expected_sequence() -> (r: crate::diagnostic::DiagnosticCode)
    ensures
        r.text() == "compose.model.expected-sequence"@,
{
    crate::diagnostic::DiagnosticCode::new("compose.model.expected-sequence")
}

/// A Compose value has to be a scalar at this location.
pub fn expected_scalar() -> (r: crate::diagnostic::DiagnosticCode)
    ensures
        r.text() == "compose.model.expected-scalar"@,
{
    crate::diagnostic::DiagnosticCode::new("compose.model.expected-scalar")
}

/// A Compose value has to be a boolean at this location.
pub fn expected_boolean() -> (r: crate::diagnostic::DiagnosticCode)
    ensures
        r.text() == "compose.model.expected-boolean"@,
{
    crate::diagnostic::DiagnosticCode::new("compose.model.expected-boolean")
}

/// A field supports multiple Compose syntax forms, but the authored form is invalid here.
pub fn expected_field_form() -> (r: crate::diagnostic::DiagnosticCode)
    ensures
        r.text() == "compose.model.expected-field-form"@,
{
    crate::diagnostic::DiagnosticCode::new("compose.model.expected-field-form")
}

/// A build `dockerfile` must be a non-empty scalar.
pub fn build_dockerfile_expected_non_empty() -> (r: crate::diagnostic::DiagnosticCode)
    ensures
        r.text() == "compose.build.dockerfile.expected-non-empty-scalar"@,
{
    crate::diagnostic::DiagnosticCode::new("compose.build.dockerfile.expected-non-empty-scalar")
}

/// A build definition declares both `dockerfile` and `dockerfile_inline`.
pub fn build_dockerfile_inline_conflict() -> (r: crate::diagnostic::DiagnosticCode)
    ensures
        r.text() == "compose.build.dockerfile-inline-conflict"@,
{
    crate::diagnostic::DiagnosticCode::new("compose.build.dockerfile-inline-conflict")
}

/// A build `no_cache` value is neither a YAML boolean nor a YAML string scalar.
pub fn build_no_cache_expected_boolean_or_string() -> (r: crate::diagnostic::DiagnosticCode)
    ensures
        r.text() == "compose.build.no-cache.expected-boolean-or-string"@,
{
    crate::diagnostic::DiagnosticCode::new("compose.build.no-cache.expected-boolean-or-string")
}

/// A build `sbom` value is neither a YAML boolean nor a YAML string scalar.
pub fn build_sbom_expected_boolean_or_string() -> (r: crate::diagnostic::DiagnosticCode)
    ensures
        r.text() == "compose.build.sbom.expected-boolean-or-string"@,
{
    crate::diagnostic::DiagnosticCode::new("compose.build.sbom.expected-boolean-or-string")
}

/// A build `isolation` value is not a YAML string scalar.
pub fn build_isolation_expected_string() -> (r: crate::diagnostic::DiagnosticCode)
    ensures
        r.text() == "compose.build.isolation.expected-string"@,
{
    crate::diagnostic::DiagnosticCode::new("compose.build.isolation.expected-string")
}

/// Build `extra_hosts` has neither list nor mapping syntax.
pub fn build_extra_hosts_expected_form() -> (r: crate::diagnostic::DiagnosticCode)
    ensures
        r.text() == "compose.build.extra-hosts.expected-form"@,
{
    crate::diagnostic::DiagnosticCode::new("compose.build.extra-hosts.expected-form")
}

/// A build `extra_hosts` list item or address is not a YAML string scalar.
pub fn build_extra_hosts_expected_string() -> (r: crate::diagnostic::DiagnosticCode)
    ensures
        r.text() == "compose.build.extra-hosts.expected-string"@,
{
    crate::diagnostic::DiagnosticCode::new("compose.build.extra-hosts.expected-string")
}

/// A build `extra_hosts` list repeats a schema-unique raw entry.
pub fn build_extra_hosts_duplicate_item() -> (r: crate::diagnostic::DiagnosticCode)
    ensures
        r.text() == "compose.build.extra-hosts.duplicate-item"@,
{
    crate::diagnostic::DiagnosticCode::new("compose.build.extra-hosts.duplicate-item")
}

/// A service port is neither scalar short syntax nor mapping long syntax.
pub fn port_expected_form() -> (r: crate::diagnostic::DiagnosticCode)
    ensures
        r.text() == "compose.port.expected-short-or-long"@,
{
    crate::diagnostic::DiagnosticCode::new("compose.port.expected-short-or-long")
}

/// A long-syntax service port is missing `target`.
pub fn port_missing_target() -> (r: crate::diagnostic::DiagnosticCode)
    ensures
        r.text() == "compose.port.long.missing-target"@,
{
    crate::diagnostic::DiagnosticCode::new("compose.port.long.missing-target")
}

/// A service config or secret grant is neither scalar short syntax nor mapping long syntax.
pub fn grant_expected_form() -> (r: crate::diagnostic::DiagnosticCode)
    ensures
        r.text() == "compose.grant.expected-short-or-long"@,
{
    crate::diagnostic::DiagnosticCode::new("compose.grant.expected-short-or-long")
}

/// A long-syntax service config or secret grant is missing `source`.
pub fn grant_missing_source() -> (r: crate::diagnostic::DiagnosticCode)
    ensures
        r.text() == "compose.grant.long.missing-source"@,
{
    crate::diagnostic::DiagnosticCode::new("compose.grant.long.missing-source")
}

/// A top-level resource definition must be a mapping or an explicit null.
pub fn resource_expected_form() -> (r: crate::diagnostic::DiagnosticCode)
    ensures
        r.text() == "compose.resource.expected-mapping-or-null"@,
{
    crate::diagnostic::DiagnosticCode::new("compose.resource.expected-mapping-or-null")
}

/// An external volume also configures a local driver or driver options.
///
/// Both authored values remain available for diagnosis; `ComposeLens` does not silently select one.
pub fn volume_external_driver_configuration() -> (r: crate::diagnostic::DiagnosticCode)
    ensures
        r.text() == "compose.volume.external-driver-configuration"@,
{
    crate::diagnostic::DiagnosticCode::new("compose.volume.external-driver-configuration")
}

/// An external volume also configures labels.
///
/// The authored labels remain available for diagnosis; `ComposeLens` does not silently discard
/// them or repurpose the driver-configuration diagnostic.
pub fn volume_external_labels_configuration() -> (r: crate::diagnostic::DiagnosticCode)
    ensures
        r.text() == "compose.volume.external-labels-configuration"@,
{
    crate::diagnostic::DiagnosticCode::new("compose.volume.external-labels-configuration")
}

/// A service-volume item is neither short nor long syntax.
pub fn volume_expected_form() -> (r: crate::diagnostic::DiagnosticCode)
    ensures
        r.text() == "compose.volume.expected-short-or-long"@,
{
    crate::diagnostic::DiagnosticCode::new("compose.volume.expected-short-or-long")
}

/// A long-syntax service volume is missing `type`.
pub fn volume_missing_type() -> (r: crate::diagnostic::DiagnosticCode)
    ensures
        r.text() == "compose.volume.long.missing-type"@,
{
    crate::diagnostic::DiagnosticCode::new("compose.volume.long.missing-type")
}

/// A long-syntax service volume is missing `target`.
pub fn volume_missing_target() -> (r: crate::diagnostic::DiagnosticCode)
    ensures
        r.text() == "compose.volume.long.missing-target"@,
{
    crate::diagnostic::DiagnosticCode::new("compose.volume.long.missing-target")
}

/// A long-syntax bind mount has an invalid `SELinux` value.
pub fn volume_invalid_selinux() -> (r: crate::diagnostic::DiagnosticCode)
    ensures
        r.text() == "compose.volume.bind.invalid-selinux"@,
{
    crate::diagnostic::DiagnosticCode::new("compose.volume.bind.invalid-selinux")
}

/// A short `extra_hosts` entry does not contain a hostname/address separator.
pub fn extra_host_invalid_entry() -> (r: crate::diagnostic::DiagnosticCode)
    ensures
        r.text() == "compose.extra-hosts.invalid-entry"@,
{
    crate::diagnostic::DiagnosticCode::new("compose.extra-hosts.invalid-entry")
}

/// A service limit is neither unlimited, a non-negative integer, nor deferred.
pub fn ulimit_invalid_value() -> (r: crate::diagnostic::DiagnosticCode)
    ensures
        r.text() == "compose.ulimits.invalid-value"@,
{
    crate::diagnostic::DiagnosticCode::new("compose.ulimits.invalid-value")
}

/// A service limit name is outside Compose's portable lowercase-name grammar.
pub fn ulimit_invalid_name() -> (r: crate::diagnostic::DiagnosticCode)
    ensures
        r.text() == "compose.ulimits.invalid-name"@,
{
    crate::diagnostic::DiagnosticCode::new("compose.ulimits.invalid-name")
}

/// A service limit range is missing its required `soft` or `hard` member.
pub fn ulimit_missing_range_member() -> (r: crate::diagnostic::DiagnosticCode)
    ensures
        r.text() == "compose.ulimits.missing-range-member"@,
{
    crate::diagnostic::DiagnosticCode::new("compose.ulimits.missing-range-member")
}

/// A health-check list has no valid command-mode token.
pub fn healthcheck_invalid_test() -> (r: crate::diagnostic::DiagnosticCode)
    ensures
        r.text() == "compose.healthcheck.invalid-test"@,
{
    crate::diagnostic::DiagnosticCode::new("compose.healthcheck.invalid-test")
}

/// A health-check duration does not follow Compose duration syntax.
pub fn healthcheck_invalid_duration() -> (r: crate::diagnostic::DiagnosticCode)
    ensures
        r.text() == "compose.healthcheck.invalid-duration"@,
{
    crate::diagnostic::DiagnosticCode::new("compose.healthcheck.invalid-duration")
}

/// A health-check retry count is not a non-negative integer or deferred expression.
pub fn healthcheck_invalid_retries() -> (r: crate::diagnostic::DiagnosticCode)
    ensures
        r.text() == "compose.healthcheck.invalid-retries"@,
{
    crate::diagnostic::DiagnosticCode::new("compose.healthcheck.invalid-retries")
}

/// A service-level restart policy is not one of the Compose-defined forms or an expression.
pub fn restart_invalid_policy() -> (r: crate::diagnostic::DiagnosticCode)
    ensures
        r.text() == "compose.restart.invalid-policy"@,
{
    crate::diagnostic::DiagnosticCode::new("compose.restart.invalid-policy")
}

/// A service hostname is not authored as a YAML string scalar.
pub fn hostname_expected_string() -> (r: crate::diagnostic::DiagnosticCode)
    ensures
        r.text() == "compose.hostname.expected-string"@,
{
    crate::diagnostic::DiagnosticCode::new("compose.hostname.expected-string")
}

/// A resolved service hostname does not satisfy the conservative RFC-1123 grammar.
pub fn hostname_invalid() -> (r: crate::diagnostic::DiagnosticCode)
    ensures
        r.text() == "compose.hostname.invalid-value"@,
{
    crate::diagnostic::DiagnosticCode::new("compose.hostname.invalid-value")
}

/// A service PID limit is not a number or string scalar.
pub fn pids_limit_expected_value() -> (r: crate::diagnostic::DiagnosticCode)
    ensures
        r.text() == "compose.pids-limit.expected-number-or-string"@,
{
    crate::diagnostic::DiagnosticCode::new("compose.pids-limit.expected-number-or-string")
}

/// A service PID limit is neither unlimited, positive integral decimal, nor deferred.
pub fn pids_limit_invalid() -> (r: crate::diagnostic::DiagnosticCode)
    ensures
        r.text() == "compose.pids-limit.invalid-value"@,
{
    crate::diagnostic::DiagnosticCode::new("compose.pids-limit.invalid-value")
}

/// A zero service PID limit has ambiguous and unportable native semantics.
pub fn pids_limit_ambiguous_zero() -> (r: crate::diagnostic::DiagnosticCode)
    ensures
        r.text() == "compose.pids-limit.ambiguous-zero"@,
{
    crate::diagnostic::DiagnosticCode::new("compose.pids-limit.ambiguous-zero")
}

/// A service shared-memory size is not a number or string scalar.
pub fn shm_size_expected_value() -> (r: crate::diagnostic::DiagnosticCode)
    ensures
        r.text() == "compose.shm-size.expected-number-or-string"@,
{
    crate::diagnostic::DiagnosticCode::new("compose.shm-size.expected-number-or-string")
}

/// A zero service shared-memory size has no defined Compose semantics.
pub fn shm_size_ambiguous_zero() -> (r: crate::diagnostic::DiagnosticCode)
    ensures
        r.text() == "compose.shm-size.ambiguous-zero"@,
{
    crate::diagnostic::DiagnosticCode::new("compose.shm-size.ambiguous-zero")
}

/// A schema-accepted numeric shared-memory size lacks a documented explicit unit.
pub fn shm_size_provider_dependent_number() -> (r: crate::diagnostic::DiagnosticCode)
    ensures
        r.text() == "compose.shm-size.provider-dependent-number"@,
{
    crate::diagnostic::DiagnosticCode::new("compose.shm-size.provider-dependent-number")
}

/// A schema-accepted string shared-memory size is outside the documented lowercase suffix family.
pub fn shm_size_provider_dependent_string() -> (r: crate::diagnostic::DiagnosticCode)
    ensures
        r.text() == "compose.shm-size.provider-dependent-string"@,
{
    crate::diagnostic::DiagnosticCode::new("compose.shm-size.provider-dependent-string")
}

/// A service memory limit is not a number or string scalar.
pub fn mem_limit_expected_value() -> (r: crate::diagnostic::DiagnosticCode)
    ensures
        r.text() == "compose.mem-limit.expected-number-or-string"@,
{
    crate::diagnostic::DiagnosticCode::new("compose.mem-limit.expected-number-or-string")
}

/// A zero service memory limit has no portable cross-provider meaning inferred by `ComposeLens`.
pub fn mem_limit_ambiguous_zero() -> (r: crate::diagnostic::DiagnosticCode)
    ensures
        r.text() == "compose.mem-limit.ambiguous-zero"@,
{
    crate::diagnostic::DiagnosticCode::new("compose.mem-limit.ambiguous-zero")
}

/// A schema-accepted numeric memory limit lacks a documented explicit unit.
pub fn mem_limit_schema_number() -> (r: crate::diagnostic::DiagnosticCode)
    ensures
        r.text() == "compose.mem-limit.schema-number"@,
{
    crate::diagnostic::DiagnosticCode::new("compose.mem-limit.schema-number")
}

/// A schema-accepted string memory limit is outside the documented lowercase suffix family.
pub fn mem_limit_provider_dependent_string() -> (r: crate::diagnostic::DiagnosticCode)
    ensures
        r.text() == "compose.mem-limit.provider-dependent-string"@,
{
    crate::diagnostic::DiagnosticCode::new("compose.mem-limit.provider-dependent-string")
}

/// A service image pull policy is not documented, schema-recognized, or deferred.
pub fn pull_policy_invalid() -> (r: crate::diagnostic::DiagnosticCode)
    ensures
        r.text() == "compose.pull-policy.invalid-policy"@,
{
    crate::diagnostic::DiagnosticCode::new("compose.pull-policy.invalid-policy")
}

/// A service stop grace period does not match the raw-preserving policy based on documented Compose units.
pub fn stop_grace_period_invalid() -> (r: crate::diagnostic::DiagnosticCode)
    ensures
        r.text() == "compose.lifecycle.invalid-stop-grace-period"@,
{
    crate::diagnostic::DiagnosticCode::new("compose.lifecycle.invalid-stop-grace-period")
}

/// A service `cap_drop` value is not a YAML sequence.
pub fn cap_drop_expected_sequence() -> (r: crate::diagnostic::DiagnosticCode)
    ensures
        r.text() == "compose.cap-drop.expected-sequence"@,
{
    crate::diagnostic::DiagnosticCode::new("compose.cap-drop.expected-sequence")
}

/// A service `cap_drop` item is not a YAML string scalar.
pub fn cap_drop_expected_string() -> (r: crate::diagnostic::DiagnosticCode)
    ensures
        r.text() == "compose.cap-drop.expected-string"@,
{
    crate::diagnostic::DiagnosticCode::new("compose.cap-drop.expected-string")
}

/// A service `cap_drop` sequence contains an exact duplicate string.
pub fn cap_drop_duplicate_item() -> (r: crate::diagnostic::DiagnosticCode)
    ensures
        r.text() == "compose.cap-drop.duplicate-item"@,
{
    crate::diagnostic::DiagnosticCode::new("compose.cap-drop.duplicate-item")
}

/// A service `cap_add` value is not a YAML sequence.
pub fn cap_add_expected_sequence() -> (r: crate::diagnostic::DiagnosticCode)
    ensures
        r.text() == "compose.cap-add.expected-sequence"@,
{
    crate::diagnostic::DiagnosticCode::new("compose.cap-add.expected-sequence")
}

/// A service `cap_add` item is not a YAML string scalar.
pub fn cap_add_expected_string() -> (r: crate::diagnostic::DiagnosticCode)
    ensures
        r.text() == "compose.cap-add.expected-string"@,
{
    crate::diagnostic::DiagnosticCode::new("compose.cap-add.expected-string")
}

/// A service `cap_add` sequence contains an exact duplicate string.
pub fn cap_add_duplicate_item() -> (r: crate::diagnostic::DiagnosticCode)
    ensures
        r.text() == "compose.cap-add.duplicate-item"@,
{
    crate::diagnostic::DiagnosticCode::new("compose.cap-add.duplicate-item")
}

/// A service `devices` value is not a YAML sequence.
pub fn devices_expected_sequence() -> (r: crate::diagnostic::DiagnosticCode)
    ensures
        r.text() == "compose.devices.expected-sequence"@,
{
    crate::diagnostic::DiagnosticCode::new("compose.devices.expected-sequence")
}

/// A service device item is neither a string scalar nor a mapping.
pub fn device_expected_form() -> (r: crate::diagnostic::DiagnosticCode)
    ensures
        r.text() == "compose.devices.expected-short-or-long"@,
{
    crate::diagnostic::DiagnosticCode::new("compose.devices.expected-short-or-long")
}

/// A short device or long-device member is not a YAML string scalar.
pub fn device_expected_string() -> (r: crate::diagnostic::DiagnosticCode)
    ensures
        r.text() == "compose.devices.expected-string"@,
{
    crate::diagnostic::DiagnosticCode::new("compose.devices.expected-string")
}

/// A long-syntax service device is missing its required `source` string.
pub fn device_missing_source() -> (r: crate::diagnostic::DiagnosticCode)
    ensures
        r.text() == "compose.devices.long.missing-source"@,
{
    crate::diagnostic::DiagnosticCode::new("compose.devices.long.missing-source")
}

/// A service `dns` value is neither a YAML string scalar nor a sequence.
pub fn dns_expected_form() -> (r: crate::diagnostic::DiagnosticCode)
    ensures
        r.text() == "compose.dns.expected-string-or-list"@,
{
    crate::diagnostic::DiagnosticCode::new("compose.dns.expected-string-or-list")
}

/// A service `dns` list item is not a YAML string scalar.
pub fn dns_expected_string() -> (r: crate::diagnostic::DiagnosticCode)
    ensures
        r.text() == "compose.dns.expected-string"@,
{
    crate::diagnostic::DiagnosticCode::new("compose.dns.expected-string")
}

/// A service `dns_opt` value is not a YAML sequence.
pub fn dns_opt_expected_sequence() -> (r: crate::diagnostic::DiagnosticCode)
    ensures
        r.text() == "compose.dns-opt.expected-sequence"@,
{
    crate::diagnostic::DiagnosticCode::new("compose.dns-opt.expected-sequence")
}

/// A service `dns_opt` item is not a YAML string scalar.
pub fn dns_opt_expected_string() -> (r: crate::diagnostic::DiagnosticCode)
    ensures
        r.text() == "compose.dns-opt.expected-string"@,
{
    crate::diagnostic::DiagnosticCode::new("compose.dns-opt.expected-string")
}

/// A service `dns_opt` sequence contains an exact duplicate string.
pub fn dns_opt_duplicate_item() -> (r: crate::diagnostic::DiagnosticCode)
    ensures
        r.text() == "compose.dns-opt.duplicate-item"@,
{
    crate::diagnostic::DiagnosticCode::new("compose.dns-opt.duplicate-item")
}

/// A service `dns_search` value is neither a YAML string scalar nor a sequence.
pub fn dns_search_expected_form() -> (r: crate::diagnostic::DiagnosticCode)
    ensures
        r.text() == "compose.dns-search.expected-string-or-list"@,
{
    crate::diagnostic::DiagnosticCode::new("compose.dns-search.expected-string-or-list")
}

/// A service `dns_search` list item is not a YAML string scalar.
pub fn dns_search_expected_string() -> (r: crate::diagnostic::DiagnosticCode)
    ensures
        r.text() == "compose.dns-search.expected-string"@,
{
    crate::diagnostic::DiagnosticCode::new("compose.dns-search.expected-string")
}

/// A service `dns_search` list contains an exact duplicate string.
pub fn dns_search_duplicate_item() -> (r: crate::diagnostic::DiagnosticCode)
    ensures
        r.text() == "compose.dns-search.duplicate-item"@,
{
    crate::diagnostic::DiagnosticCode::new("compose.dns-search.duplicate-item")
}

/// A service `expose` value is not a YAML sequence.
pub fn expose_expected_sequence() -> (r: crate::diagnostic::DiagnosticCode)
    ensures
        r.text() == "compose.expose.expected-sequence"@,
{
    crate::diagnostic::DiagnosticCode::new("compose.expose.expected-sequence")
}

/// A service `expose` item is not a YAML string or number scalar.
pub fn expose_expected_scalar() -> (r: crate::diagnostic::DiagnosticCode)
    ensures
        r.text() == "compose.expose.expected-string-or-number"@,
{
    crate::diagnostic::DiagnosticCode::new("compose.expose.expected-string-or-number")
}

/// A service `expose` item does not match the documented decimal port/range grammar.
pub fn expose_invalid_item() -> (r: crate::diagnostic::DiagnosticCode)
    ensures
        r.text() == "compose.expose.invalid-item"@,
{
    crate::diagnostic::DiagnosticCode::new("compose.expose.invalid-item")
}

/// A service `expose` item uses a protocol outside the documented portable set.
pub fn expose_provider_dependent() -> (r: crate::diagnostic::DiagnosticCode)
    ensures
        r.text() == "compose.expose.provider-dependent-protocol"@,
{
    crate::diagnostic::DiagnosticCode::new("compose.expose.provider-dependent-protocol")
}

/// A service `expose` sequence contains an exact duplicate scalar identity.
pub fn expose_duplicate_item() -> (r: crate::diagnostic::DiagnosticCode)
    ensures
        r.text() == "compose.expose.duplicate-item"@,
{
    crate::diagnostic::DiagnosticCode::new("compose.expose.duplicate-item")
}

/// A service `security_opt` value is not a YAML sequence.
pub fn security_opt_expected_sequence() -> (r: crate::diagnostic::DiagnosticCode)
    ensures
        r.text() == "compose.security-opt.expected-sequence"@,
{
    crate::diagnostic::DiagnosticCode::new("compose.security-opt.expected-sequence")
}

/// A service `security_opt` item is not a YAML string scalar.
pub fn security_opt_expected_string() -> (r: crate::diagnostic::DiagnosticCode)
    ensures
        r.text() == "compose.security-opt.expected-string"@,
{
    crate::diagnostic::DiagnosticCode::new("compose.security-opt.expected-string")
}

/// A service `security_opt` item is an explicitly empty string.
pub fn security_opt_empty_item() -> (r: crate::diagnostic::DiagnosticCode)
    ensures
        r.text() == "compose.security-opt.empty-item"@,
{
    crate::diagnostic::DiagnosticCode::new("compose.security-opt.empty-item")
}

/// An AppArmor-shaped service `security_opt` item is not the exact narrow candidate form.
pub fn security_opt_apparmor_near_miss() -> (r: crate::diagnostic::DiagnosticCode)
    ensures
        r.text() == "compose.security-opt.apparmor-near-miss"@,
{
    crate::diagnostic::DiagnosticCode::new("compose.security-opt.apparmor-near-miss")
}

/// More than one exact `AppArmor` candidate remains in a service `security_opt` sequence.
pub fn security_opt_apparmor_conflict() -> (r: crate::diagnostic::DiagnosticCode)
    ensures
        r.text() == "compose.security-opt.apparmor-conflict"@,
{
    crate::diagnostic::DiagnosticCode::new("compose.security-opt.apparmor-conflict")
}

/// A seccomp-shaped service `security_opt` item is not the exact narrow candidate form.
pub fn security_opt_seccomp_near_miss() -> (r: crate::diagnostic::DiagnosticCode)
    ensures
        r.text() == "compose.security-opt.seccomp-near-miss"@,
{
    crate::diagnostic::DiagnosticCode::new("compose.security-opt.seccomp-near-miss")
}

/// More than one exact seccomp candidate remains in a service `security_opt` sequence.
pub fn security_opt_seccomp_conflict() -> (r: crate::diagnostic::DiagnosticCode)
    ensures
        r.text() == "compose.security-opt.seccomp-conflict"@,
{
    crate::diagnostic::DiagnosticCode::new("compose.security-opt.seccomp-conflict")
}

/// A no-new-privileges-shaped item is not an exact lowercase boolean candidate.
pub fn security_opt_no_new_privileges_near_miss() -> (r: crate::diagnostic::DiagnosticCode)
    ensures
        r.text() == "compose.security-opt.no-new-privileges-near-miss"@,
{
    crate::diagnostic::DiagnosticCode::new("compose.security-opt.no-new-privileges-near-miss")
}

/// More than one exact no-new-privileges candidate remains in one effective sequence.
pub fn security_opt_no_new_privileges_conflict() -> (r: crate::diagnostic::DiagnosticCode)
    ensures
        r.text() == "compose.security-opt.no-new-privileges-conflict"@,
{
    crate::diagnostic::DiagnosticCode::new("compose.security-opt.no-new-privileges-conflict")
}

/// A mask-shaped service `security_opt` item is not the exact narrow candidate form.
pub fn security_opt_mask_near_miss() -> (r: crate::diagnostic::DiagnosticCode)
    ensures
        r.text() == "compose.security-opt.mask-near-miss"@,
{
    crate::diagnostic::DiagnosticCode::new("compose.security-opt.mask-near-miss")
}

/// An unmask-shaped service `security_opt` item is not the exact narrow candidate form.
pub fn security_opt_unmask_near_miss() -> (r: crate::diagnostic::DiagnosticCode)
    ensures
        r.text() == "compose.security-opt.unmask-near-miss"@,
{
    crate::diagnostic::DiagnosticCode::new("compose.security-opt.unmask-near-miss")
}

/// A `SELinux` label-disable-shaped item is not the exact lowercase candidate.
pub fn security_opt_security_label_disable_near_miss() -> (r: crate::diagnostic::DiagnosticCode)
    ensures
        r.text() == "compose.security-opt.security-label-disable-near-miss"@,
{
    crate::diagnostic::DiagnosticCode::new("compose.security-opt.security-label-disable-near-miss")
}

/// More than one exact `SELinux` label-disable candidate remains in one effective sequence.
pub fn security_opt_security_label_disable_conflict() -> (r: crate::diagnostic::DiagnosticCode)
    ensures
        r.text() == "compose.security-opt.security-label-disable-conflict"@,
{
    crate::diagnostic::DiagnosticCode::new("compose.security-opt.security-label-disable-conflict")
}

/// A `SELinux` label-filetype-shaped item is not the exact lowercase candidate.
pub fn security_opt_security_label_filetype_near_miss() -> (r: crate::diagnostic::DiagnosticCode)
    ensures
        r.text() == "compose.security-opt.security-label-filetype-near-miss"@,
{
    crate::diagnostic::DiagnosticCode::new("compose.security-opt.security-label-filetype-near-miss")
}

/// More than one exact `SELinux` label-filetype candidate remains in one effective sequence.
pub fn security_opt_security_label_filetype_conflict() -> (r: crate::diagnostic::DiagnosticCode)
    ensures
        r.text() == "compose.security-opt.security-label-filetype-conflict"@,
{
    crate::diagnostic::DiagnosticCode::new("compose.security-opt.security-label-filetype-conflict")
}

/// A `SELinux` label-level-shaped item is not the exact lowercase candidate.
pub fn security_opt_security_label_level_near_miss() -> (r: crate::diagnostic::DiagnosticCode)
    ensures
        r.text() == "compose.security-opt.security-label-level-near-miss"@,
{
    crate::diagnostic::DiagnosticCode::new("compose.security-opt.security-label-level-near-miss")
}

/// More than one exact `SELinux` label-level candidate remains in one effective sequence.
pub fn security_opt_security_label_level_conflict() -> (r: crate::diagnostic::DiagnosticCode)
    ensures
        r.text() == "compose.security-opt.security-label-level-conflict"@,
{
    crate::diagnostic::DiagnosticCode::new("compose.security-opt.security-label-level-conflict")
}

/// A `SELinux` label-nested-shaped item is not the exact lowercase candidate.
pub fn security_opt_security_label_nested_near_miss() -> (r: crate::diagnostic::DiagnosticCode)
    ensures
        r.text() == "compose.security-opt.security-label-nested-near-miss"@,
{
    crate::diagnostic::DiagnosticCode::new("compose.security-opt.security-label-nested-near-miss")
}

/// More than one exact `SELinux` label-nested candidate remains in one effective sequence.
pub fn security_opt_security_label_nested_conflict() -> (r: crate::diagnostic::DiagnosticCode)
    ensures
        r.text() == "compose.security-opt.security-label-nested-conflict"@,
{
    crate::diagnostic::DiagnosticCode::new("compose.security-opt.security-label-nested-conflict")
}

/// A `SELinux` label-type-shaped item is not the exact lowercase candidate.
pub fn security_opt_security_label_type_near_miss() -> (r: crate::diagnostic::DiagnosticCode)
    ensures
        r.text() == "compose.security-opt.security-label-type-near-miss"@,
{
    crate::diagnostic::DiagnosticCode::new("compose.security-opt.security-label-type-near-miss")
}

/// More than one exact `SELinux` label-type candidate remains in one effective sequence.
pub fn security_opt_security_label_type_conflict() -> (r: crate::diagnostic::DiagnosticCode)
    ensures
        r.text() == "compose.security-opt.security-label-type-conflict"@,
{
    crate::diagnostic::DiagnosticCode::new("compose.security-opt.security-label-type-conflict")
}

/// A service `annotations` value is neither mapping nor list syntax.
pub fn annotations_expected_form() -> (r: crate::diagnostic::DiagnosticCode)
    ensures
        r.text() == "compose.annotations.expected-map-or-list"@,
{
    crate::diagnostic::DiagnosticCode::new("compose.annotations.expected-map-or-list")
}

/// A service annotation list item is not a YAML string scalar.
pub fn annotations_expected_string() -> (r: crate::diagnostic::DiagnosticCode)
    ensures
        r.text() == "compose.annotations.expected-string"@,
{
    crate::diagnostic::DiagnosticCode::new("compose.annotations.expected-string")
}

/// A service annotation has an empty semantic name.
pub fn annotations_empty_name() -> (r: crate::diagnostic::DiagnosticCode)
    ensures
        r.text() == "compose.annotations.empty-name"@,
{
    crate::diagnostic::DiagnosticCode::new("compose.annotations.empty-name")
}

/// A key-only service annotation list item has no defined explicit value.
pub fn annotations_key_only() -> (r: crate::diagnostic::DiagnosticCode)
    ensures
        r.text() == "compose.annotations.key-only"@,
{
    crate::diagnostic::DiagnosticCode::new("compose.annotations.key-only")
}

/// More than one authored service annotation resolves to the same semantic name.
pub fn annotations_duplicate_name() -> (r: crate::diagnostic::DiagnosticCode)
    ensures
        r.text() == "compose.annotations.duplicate-name"@,
{
    crate::diagnostic::DiagnosticCode::new("compose.annotations.duplicate-name")
}

/// A service-level `tmpfs` value is neither a string scalar nor a sequence.
pub fn tmpfs_expected_form() -> (r: crate::diagnostic::DiagnosticCode)
    ensures
        r.text() == "compose.tmpfs.expected-string-or-list"@,
{
    crate::diagnostic::DiagnosticCode::new("compose.tmpfs.expected-string-or-list")
}

/// A service-level `tmpfs` sequence item is not a YAML string scalar.
pub fn tmpfs_expected_string() -> (r: crate::diagnostic::DiagnosticCode)
    ensures
        r.text() == "compose.tmpfs.expected-string"@,
{
    crate::diagnostic::DiagnosticCode::new("compose.tmpfs.expected-string")
}

/// A service-level `tmpfs` item is malformed or depends on provider- or target-specific behavior.
pub fn tmpfs_provider_dependent() -> (r: crate::diagnostic::DiagnosticCode)
    ensures
        r.text() == "compose.tmpfs.provider-dependent-item"@,
{
    crate::diagnostic::DiagnosticCode::new("compose.tmpfs.provider-dependent-item")
}

/// A service `sysctls` value is neither a mapping nor a sequence.
pub fn sysctls_expected_form() -> (r: crate::diagnostic::DiagnosticCode)
    ensures
        r.text() == "compose.sysctls.expected-map-or-list"@,
{
    crate::diagnostic::DiagnosticCode::new("compose.sysctls.expected-map-or-list")
}

/// A service `sysctls` mapping contains an empty key.
pub fn sysctls_empty_key() -> (r: crate::diagnostic::DiagnosticCode)
    ensures
        r.text() == "compose.sysctls.empty-key"@,
{
    crate::diagnostic::DiagnosticCode::new("compose.sysctls.empty-key")
}

/// A service `sysctls` mapping value is not a scalar or null.
pub fn sysctls_expected_scalar() -> (r: crate::diagnostic::DiagnosticCode)
    ensures
        r.text() == "compose.sysctls.expected-scalar"@,
{
    crate::diagnostic::DiagnosticCode::new("compose.sysctls.expected-scalar")
}

/// A service `sysctls` list item is not a YAML string scalar.
pub fn sysctls_expected_string() -> (r: crate::diagnostic::DiagnosticCode)
    ensures
        r.text() == "compose.sysctls.expected-string"@,
{
    crate::diagnostic::DiagnosticCode::new("compose.sysctls.expected-string")
}

/// A service `sysctls` list contains an exact duplicate string.
pub fn sysctls_duplicate_item() -> (r: crate::diagnostic::DiagnosticCode)
    ensures
        r.text() == "compose.sysctls.duplicate-item"@,
{
    crate::diagnostic::DiagnosticCode::new("compose.sysctls.duplicate-item")
}

/// A service `logging` value is not a mapping.
pub fn logging_expected_mapping() -> (r: crate::diagnostic::DiagnosticCode)
    ensures
        r.text() == "compose.logging.expected-mapping"@,
{
    crate::diagnostic::DiagnosticCode::new("compose.logging.expected-mapping")
}

/// A service logging driver is not a YAML string scalar.
pub fn logging_driver_expected_string() -> (r: crate::diagnostic::DiagnosticCode)
    ensures
        r.text() == "compose.logging.driver.expected-string"@,
{
    crate::diagnostic::DiagnosticCode::new("compose.logging.driver.expected-string")
}

/// A service logging options value is not a mapping.
pub fn logging_options_expected_mapping() -> (r: crate::diagnostic::DiagnosticCode)
    ensures
        r.text() == "compose.logging.options.expected-mapping"@,
{
    crate::diagnostic::DiagnosticCode::new("compose.logging.options.expected-mapping")
}

/// A service logging option has an empty key.
pub fn logging_option_empty_key() -> (r: crate::diagnostic::DiagnosticCode)
    ensures
        r.text() == "compose.logging.option.empty-key"@,
{
    crate::diagnostic::DiagnosticCode::new("compose.logging.option.empty-key")
}

/// A service logging option is not a YAML string, number, or null scalar.
pub fn logging_option_expected_scalar() -> (r: crate::diagnostic::DiagnosticCode)
    ensures
        r.text() == "compose.logging.option.expected-scalar"@,
{
    crate::diagnostic::DiagnosticCode::new("compose.logging.option.expected-scalar")
}

/// A service environment-file item is neither scalar short syntax nor mapping long syntax.
pub fn environment_file_expected_form() -> (r: crate::diagnostic::DiagnosticCode)
    ensures
        r.text() == "compose.environment-file.expected-short-or-long"@,
{
    crate::diagnostic::DiagnosticCode::new("compose.environment-file.expected-short-or-long")
}

/// A long-syntax service environment-file entry is missing `path`.
pub fn environment_file_missing_path() -> (r: crate::diagnostic::DiagnosticCode)
    ensures
        r.text() == "compose.environment-file.long.missing-path"@,
{
    crate::diagnostic::DiagnosticCode::new("compose.environment-file.long.missing-path")
}

/// A long-syntax service environment-file format is not defined by Compose.
pub fn environment_file_invalid_format() -> (r: crate::diagnostic::DiagnosticCode)
    ensures
        r.text() == "compose.environment-file.invalid-format"@,
{
    crate::diagnostic::DiagnosticCode::new("compose.environment-file.invalid-format")
}

/// A long dependency uses an unrecognized condition.
pub fn dependency_invalid_condition() -> (r: crate::diagnostic::DiagnosticCode)
    ensures
        r.text() == "compose.dependencies.invalid-condition"@,
{
    crate::diagnostic::DiagnosticCode::new("compose.dependencies.invalid-condition")
}

/// A typed dependency names a service missing from the same document.
pub fn dependency_missing_service() -> (r: crate::diagnostic::DiagnosticCode)
    ensures
        r.text() == "compose.dependencies.missing-service"@,
{
    crate::diagnostic::DiagnosticCode::new("compose.dependencies.missing-service")
}

/// A `service_healthy` dependency has no enabled health check.
pub fn dependency_missing_healthcheck() -> (r: crate::diagnostic::DiagnosticCode)
    ensures
        r.text() == "compose.dependencies.missing-healthcheck"@,
{
    crate::diagnostic::DiagnosticCode::new("compose.dependencies.missing-healthcheck")
}

/// A `service_healthy` dependency may rely on health metadata from its image.
pub fn dependency_healthcheck_unverified() -> (r: crate::diagnostic::DiagnosticCode)
    ensures
        r.text() == "compose.dependencies.healthcheck-unverified"@,
{
    crate::diagnostic::DiagnosticCode::new("compose.dependencies.healthcheck-unverified")
}

/// A `BuildKit` SSH declaration has an unsupported outer or item form.
pub fn build_ssh_expected_form() -> (r: crate::diagnostic::DiagnosticCode)
    ensures
        r.text() == "compose.build.ssh-expected-form"@,
{
    crate::diagnostic::DiagnosticCode::new("compose.build.ssh-expected-form")
}

/// A `BuildKit` SSH list repeats an item despite the schema uniqueness rule.
pub fn build_ssh_duplicate_item() -> (r: crate::diagnostic::DiagnosticCode)
    ensures
        r.text() == "compose.build.ssh-duplicate-item"@,
{
    crate::diagnostic::DiagnosticCode::new("compose.build.ssh-duplicate-item")
}

} // verus!
