//! Typed services, documents and the document-level dependency check.

use super::annotation::Annotations;
use super::capability::{CapabilityAdd, CapabilityDrop};
use super::command::Command;
use super::dependency::{DependencyCondition, DependsOn, Healthcheck, HealthcheckTestKind, ServiceDependency};
use super::device::Devices;
use super::dns::Dns;
use super::dns_option::DnsOptions;
use super::dns_search::DnsSearch;
use super::environment::{Environment, EnvironmentFile};
use super::expose::Expose;
use super::host::ExtraHosts;
use super::hostname::Hostname;
use super::identity::{UserNamespaceMode, UserSpec};
use super::image::ImageReference;
use super::lifecycle::StopGracePeriod;
use super::logging::Logging;
use super::memory::MemLimit;
use super::network::{NetworkDefinition, ServiceNetworks};
use super::pids::PidsLimit;
use super::port::Port;
use super::pull::PullPolicy;
use super::resource::{ConfigDefinition, ConfigGrant, SecretDefinition, SecretGrant, VolumeDefinition};
use super::restart::RestartPolicy;
use super::value::{BooleanValue, Labels};
use super::{lc, FieldReference, Located};
use crate::diagnostic::{any_error, has_error, Diagnostic, DiagnosticCode, DiagnosticLabel, LabelKind, Severity};
use crate::source::{SourceId, SourceSpan};
use crate::text::{owned, str_eq};
use vstd::prelude::*;

verus! {

/// A source-aware typed Compose service.
#[derive(Debug, Clone, PartialEq, Eq)]
pub struct Service {
    name: Located<String>,
    span: SourceSpan,
    hostname: Option<Hostname>,
    container_name: Option<Located<String>>,
    image: Option<Located<ImageReference>>,
    command: Option<Command>,
    init: Option<Located<BooleanValue>>,
    stdin_open: Option<Located<BooleanValue>>,
    tty: Option<Located<BooleanValue>>,
    privileged: Option<Located<BooleanValue>>,
    environment: Option<Environment>,
    environment_files: Vec<EnvironmentFile>,
    labels: Option<Labels>,
    annotations: Option<Annotations>,
    extra_hosts: Option<ExtraHosts>,
    user: Option<UserSpec>,
    userns_mode: Option<UserNamespaceMode>,
    group_add: Vec<Located<String>>,
    cap_add: Option<CapabilityAdd>,
    cap_drop: Option<CapabilityDrop>,
    devices: Option<Devices>,
    dns: Option<Dns>,
    dns_options: Option<DnsOptions>,
    dns_search: Option<DnsSearch>,
    expose: Option<Expose>,
    working_dir: Option<Located<String>>,
    read_only: Option<Located<BooleanValue>>,
    pids_limit: Option<PidsLimit>,
    mem_limit: Option<MemLimit>,
    logging: Option<Logging>,
    pull_policy: Option<PullPolicy>,
    restart: Option<RestartPolicy>,
    stop_signal: Option<Located<String>>,
    stop_grace_period: Option<Located<StopGracePeriod>>,
    depends_on: Option<DependsOn>,
    healthcheck: Option<Healthcheck>,
    ports: Vec<Port>,
    networks: Option<ServiceNetworks>,
    profiles: Vec<Located<String>>,
    configs: Vec<ConfigGrant>,
    secrets: Vec<SecretGrant>,
    extension_fields: Vec<FieldReference>,
    unknown_fields: Vec<FieldReference>,
}

impl Service {
    /// The service name.
    pub closed spec fn spec_name(&self) -> Located<String> {
        self.name
    }

    /// The source span.
    pub closed spec fn spec_span(&self) -> SourceSpan {
        self.span
    }

    /// The `hostname` field.
    pub closed spec fn spec_hostname(&self) -> Option<Hostname> {
        self.hostname
    }

    /// The `container_name` field.
    pub closed spec fn spec_container_name(&self) -> Option<Located<String>> {
        self.container_name
    }

    /// The `image` reference.
    pub closed spec fn spec_image(&self) -> Option<Located<ImageReference>> {
        self.image
    }

    /// The `command` field.
    pub closed spec fn spec_command(&self) -> Option<Command> {
        self.command
    }

    /// The `init` flag.
    pub closed spec fn spec_init(&self) -> Option<Located<BooleanValue>> {
        self.init
    }

    /// The `stdin_open` flag.
    pub closed spec fn spec_stdin_open(&self) -> Option<Located<BooleanValue>> {
        self.stdin_open
    }

    /// The `tty` flag.
    pub closed spec fn spec_tty(&self) -> Option<Located<BooleanValue>> {
        self.tty
    }

    /// The `privileged` flag.
    pub closed spec fn spec_privileged(&self) -> Option<Located<BooleanValue>> {
        self.privileged
    }

    /// The `environment` field.
    pub closed spec fn spec_environment(&self) -> Option<Environment> {
        self.environment
    }

    /// The `env_file` entries.
    pub closed spec fn spec_environment_files(&self) -> Seq<EnvironmentFile> {
        self.environment_files@
    }

    /// The `labels` field.
    pub closed spec fn spec_labels(&self) -> Option<Labels> {
        self.labels
    }

    /// The `annotations` field.
    pub closed spec fn spec_annotations(&self) -> Option<Annotations> {
        self.annotations
    }

    /// The `extra_hosts` field.
    pub closed spec fn spec_extra_hosts(&self) -> Option<ExtraHosts> {
        self.extra_hosts
    }

    /// The `user` field.
    pub closed spec fn spec_user(&self) -> Option<UserSpec> {
        self.user
    }

    /// The `userns_mode` field.
    pub closed spec fn spec_userns_mode(&self) -> Option<UserNamespaceMode> {
        self.userns_mode
    }

    /// The `group_add` entries.
    pub closed spec fn spec_group_add(&self) -> Seq<Located<String>> {
        self.group_add@
    }

    /// The `cap_add` field.
    pub closed spec fn spec_cap_add(&self) -> Option<CapabilityAdd> {
        self.cap_add
    }

    /// The `cap_drop` field.
    pub closed spec fn spec_cap_drop(&self) -> Option<CapabilityDrop> {
        self.cap_drop
    }

    /// The `devices` field.
    pub closed spec fn spec_devices(&self) -> Option<Devices> {
        self.devices
    }

    /// The `dns` field.
    pub closed spec fn spec_dns(&self) -> Option<Dns> {
        self.dns
    }

    /// The `dns_opt` field.
    pub closed spec fn spec_dns_options(&self) -> Option<DnsOptions> {
        self.dns_options
    }

    /// The `dns_search` field.
    pub closed spec fn spec_dns_search(&self) -> Option<DnsSearch> {
        self.dns_search
    }

    /// The `expose` field.
    pub closed spec fn spec_expose(&self) -> Option<Expose> {
        self.expose
    }

    /// The `working_dir` field.
    pub closed spec fn spec_working_dir(&self) -> Option<Located<String>> {
        self.working_dir
    }

    /// The `read_only` flag.
    pub closed spec fn spec_read_only(&self) -> Option<Located<BooleanValue>> {
        self.read_only
    }

    /// The `pids_limit` field.
    pub closed spec fn spec_pids_limit(&self) -> Option<PidsLimit> {
        self.pids_limit
    }

    /// The `mem_limit` field.
    pub closed spec fn spec_mem_limit(&self) -> Option<MemLimit> {
        self.mem_limit
    }

    /// The `logging` field.
    pub closed spec fn spec_logging(&self) -> Option<Logging> {
        self.logging
    }

    /// The `pull_policy` field.
    pub closed spec fn spec_pull_policy(&self) -> Option<PullPolicy> {
        self.pull_policy
    }

    /// The `restart` field.
    pub closed spec fn spec_restart(&self) -> Option<RestartPolicy> {
        self.restart
    }

    /// The `stop_signal` field.
    pub closed spec fn spec_stop_signal(&self) -> Option<Located<String>> {
        self.stop_signal
    }

    /// The `stop_grace_period` field.
    pub closed spec fn spec_stop_grace_period(&self) -> Option<Located<StopGracePeriod>> {
        self.stop_grace_period
    }

    /// The `depends_on` field.
    pub closed spec fn spec_depends_on(&self) -> Option<DependsOn> {
        self.depends_on
    }

    /// The `healthcheck` field.
    pub closed spec fn spec_healthcheck(&self) -> Option<Healthcheck> {
        self.healthcheck
    }

    /// The `ports` entries.
    pub closed spec fn spec_ports(&self) -> Seq<Port> {
        self.ports@
    }

    /// The `networks` field.
    pub closed spec fn spec_networks(&self) -> Option<ServiceNetworks> {
        self.networks
    }

    /// The `profiles` entries.
    pub closed spec fn spec_profiles(&self) -> Seq<Located<String>> {
        self.profiles@
    }

    /// The `configs` grants.
    pub closed spec fn spec_configs(&self) -> Seq<ConfigGrant> {
        self.configs@
    }

    /// The `secrets` grants.
    pub closed spec fn spec_secrets(&self) -> Seq<SecretGrant> {
        self.secrets@
    }

    /// The `x-` extension fields in source order.
    pub closed spec fn spec_extension_fields(&self) -> Seq<FieldReference> {
        self.extension_fields@
    }

    /// The unknown fields in source order.
    pub closed spec fn spec_unknown_fields(&self) -> Seq<FieldReference> {
        self.unknown_fields@
    }

    /// Creates a `Service` with no optional fields set.
    pub fn new(name: Located<String>, span: SourceSpan) -> (r: Self)
        ensures
            r.spec_name() == name,
            r.spec_span() == span,
            r.spec_hostname() is None,
            r.spec_container_name() is None,
            r.spec_image() is None,
            r.spec_command() is None,
            r.spec_init() is None,
            r.spec_stdin_open() is None,
            r.spec_tty() is None,
            r.spec_privileged() is None,
            r.spec_environment() is None,
            r.spec_environment_files().len() == 0,
            r.spec_labels() is None,
            r.spec_annotations() is None,
            r.spec_extra_hosts() is None,
            r.spec_user() is None,
            r.spec_userns_mode() is None,
            r.spec_group_add().len() == 0,
            r.spec_cap_add() is None,
            r.spec_cap_drop() is None,
            r.spec_devices() is None,
            r.spec_dns() is None,
            r.spec_dns_options() is None,
            r.spec_dns_search() is None,
            r.spec_expose() is None,
            r.spec_working_dir() is None,
            r.spec_read_only() is None,
            r.spec_pids_limit() is None,
            r.spec_mem_limit() is None,
            r.spec_logging() is None,
            r.spec_pull_policy() is None,
            r.spec_restart() is None,
            r.spec_stop_signal() is None,
            r.spec_stop_grace_period() is None,
            r.spec_depends_on() is None,
            r.spec_healthcheck() is None,
            r.spec_ports().len() == 0,
            r.spec_networks() is None,
            r.spec_profiles().len() == 0,
            r.spec_configs().len() == 0,
            r.spec_secrets().len() == 0,
            r.spec_extension_fields().len() == 0,
            r.spec_unknown_fields().len() == 0,
    {
        Self {
            name,
            span,
            hostname: None,
            container_name: None,
            image: None,
            command: None,
            init: None,
            stdin_open: None,
            tty: None,
            privileged: None,
            environment: None,
            environment_files: Vec::new(),
            labels: None,
            annotations: None,
            extra_hosts: None,
            user: None,
            userns_mode: None,
            group_add: Vec::new(),
            cap_add: None,
            cap_drop: None,
            devices: None,
            dns: None,
            dns_options: None,
            dns_search: None,
            expose: None,
            working_dir: None,
            read_only: None,
            pids_limit: None,
            mem_limit: None,
            logging: None,
            pull_policy: None,
            restart: None,
            stop_signal: None,
            stop_grace_period: None,
            depends_on: None,
            healthcheck: None,
            ports: Vec::new(),
            networks: None,
            profiles: Vec::new(),
            configs: Vec::new(),
            secrets: Vec::new(),
            extension_fields: Vec::new(),
            unknown_fields: Vec::new(),
        }
    }

    /// Sets the `hostname` field.
    pub fn set_hostname(&mut self, value: Hostname)
        ensures
            final(self).spec_hostname() == Some(value),
            final(self).spec_name() == old(self).spec_name(),
            final(self).spec_span() == old(self).spec_span(),
            final(self).spec_container_name() == old(self).spec_container_name(),
            final(self).spec_image() == old(self).spec_image(),
            final(self).spec_command() == old(self).spec_command(),
            final(self).spec_init() == old(self).spec_init(),
            final(self).spec_stdin_open() == old(self).spec_stdin_open(),
            final(self).spec_tty() == old(self).spec_tty(),
            final(self).spec_privileged() == old(self).spec_privileged(),
            final(self).spec_environment() == old(self).spec_environment(),
            final(self).spec_environment_files() == old(self).spec_environment_files(),
            final(self).spec_labels() == old(self).spec_labels(),
            final(self).spec_annotations() == old(self).spec_annotations(),
            final(self).spec_extra_hosts() == old(self).spec_extra_hosts(),
            final(self).spec_user() == old(self).spec_user(),
            final(self).spec_userns_mode() == old(self).spec_userns_mode(),
            final(self).spec_group_add() == old(self).spec_group_add(),
            final(self).spec_cap_add() == old(self).spec_cap_add(),
            final(self).spec_cap_drop() == old(self).spec_cap_drop(),
            final(self).spec_devices() == old(self).spec_devices(),
            final(self).spec_dns() == old(self).spec_dns(),
            final(self).spec_dns_options() == old(self).spec_dns_options(),
            final(self).spec_dns_search() == old(self).spec_dns_search(),
            final(self).spec_expose() == old(self).spec_expose(),
            final(self).spec_working_dir() == old(self).spec_working_dir(),
            final(self).spec_read_only() == old(self).spec_read_only(),
            final(self).spec_pids_limit() == old(self).spec_pids_limit(),
            final(self).spec_mem_limit() == old(self).spec_mem_limit(),
            final(self).spec_logging() == old(self).spec_logging(),
            final(self).spec_pull_policy() == old(self).spec_pull_policy(),
            final(self).spec_restart() == old(self).spec_restart(),
            final(self).spec_stop_signal() == old(self).spec_stop_signal(),
            final(self).spec_stop_grace_period() == old(self).spec_stop_grace_period(),
            final(self).spec_depends_on() == old(self).spec_depends_on(),
            final(self).spec_healthcheck() == old(self).spec_healthcheck(),
            final(self).spec_ports() == old(self).spec_ports(),
            final(self).spec_networks() == old(self).spec_networks(),
            final(self).spec_profiles() == old(self).spec_profiles(),
            final(self).spec_configs() == old(self).spec_configs(),
            final(self).spec_secrets() == old(self).spec_secrets(),
            final(self).spec_extension_fields() == old(self).spec_extension_fields(),
            final(self).spec_unknown_fields() == old(self).spec_unknown_fields(),
    {
        self.hostname = Some(value);
    }

    /// Sets the `container_name` field.
    pub fn set_container_name(&mut self, value: Located<String>)
        ensures
            final(self).spec_container_name() == Some(value),
            final(self).spec_name() == old(self).spec_name(),
            final(self).spec_span() == old(self).spec_span(),
            final(self).spec_hostname() == old(self).spec_hostname(),
            final(self).spec_image() == old(self).spec_image(),
            final(self).spec_command() == old(self).spec_command(),
            final(self).spec_init() == old(self).spec_init(),
            final(self).spec_stdin_open() == old(self).spec_stdin_open(),
            final(self).spec_tty() == old(self).spec_tty(),
            final(self).spec_privileged() == old(self).spec_privileged(),
            final(self).spec_environment() == old(self).spec_environment(),
            final(self).spec_environment_files() == old(self).spec_environment_files(),
            final(self).spec_labels() == old(self).spec_labels(),
            final(self).spec_annotations() == old(self).spec_annotations(),
            final(self).spec_extra_hosts() == old(self).spec_extra_hosts(),
            final(self).spec_user() == old(self).spec_user(),
            final(self).spec_userns_mode() == old(self).spec_userns_mode(),
            final(self).spec_group_add() == old(self).spec_group_add(),
            final(self).spec_cap_add() == old(self).spec_cap_add(),
            final(self).spec_cap_drop() == old(self).spec_cap_drop(),
            final(self).spec_devices() == old(self).spec_devices(),
            final(self).spec_dns() == old(self).spec_dns(),
            final(self).spec_dns_options() == old(self).spec_dns_options(),
            final(self).spec_dns_search() == old(self).spec_dns_search(),
            final(self).spec_expose() == old(self).spec_expose(),
            final(self).spec_working_dir() == old(self).spec_working_dir(),
            final(self).spec_read_only() == old(self).spec_read_only(),
            final(self).spec_pids_limit() == old(self).spec_pids_limit(),
            final(self).spec_mem_limit() == old(self).spec_mem_limit(),
            final(self).spec_logging() == old(self).spec_logging(),
            final(self).spec_pull_policy() == old(self).spec_pull_policy(),
            final(self).spec_restart() == old(self).spec_restart(),
            final(self).spec_stop_signal() == old(self).spec_stop_signal(),
            final(self).spec_stop_grace_period() == old(self).spec_stop_grace_period(),
            final(self).spec_depends_on() == old(self).spec_depends_on(),
            final(self).spec_healthcheck() == old(self).spec_healthcheck(),
            final(self).spec_ports() == old(self).spec_ports(),
            final(self).spec_networks() == old(self).spec_networks(),
            final(self).spec_profiles() == old(self).spec_profiles(),
            final(self).spec_configs() == old(self).spec_configs(),
            final(self).spec_secrets() == old(self).spec_secrets(),
            final(self).spec_extension_fields() == old(self).spec_extension_fields(),
            final(self).spec_unknown_fields() == old(self).spec_unknown_fields(),
    {
        self.container_name = Some(value);
    }

    /// Sets the `image` field.
    pub fn set_image(&mut self, value: Located<ImageReference>)
        ensures
            final(self).spec_image() == Some(value),
            final(self).spec_name() == old(self).spec_name(),
            final(self).spec_span() == old(self).spec_span(),
            final(self).spec_hostname() == old(self).spec_hostname(),
            final(self).spec_container_name() == old(self).spec_container_name(),
            final(self).spec_command() == old(self).spec_command(),
            final(self).spec_init() == old(self).spec_init(),
            final(self).spec_stdin_open() == old(self).spec_stdin_open(),
            final(self).spec_tty() == old(self).spec_tty(),
            final(self).spec_privileged() == old(self).spec_privileged(),
            final(self).spec_environment() == old(self).spec_environment(),
            final(self).spec_environment_files() == old(self).spec_environment_files(),
            final(self).spec_labels() == old(self).spec_labels(),
            final(self).spec_annotations() == old(self).spec_annotations(),
            final(self).spec_extra_hosts() == old(self).spec_extra_hosts(),
            final(self).spec_user() == old(self).spec_user(),
            final(self).spec_userns_mode() == old(self).spec_userns_mode(),
            final(self).spec_group_add() == old(self).spec_group_add(),
            final(self).spec_cap_add() == old(self).spec_cap_add(),
            final(self).spec_cap_drop() == old(self).spec_cap_drop(),
            final(self).spec_devices() == old(self).spec_devices(),
            final(self).spec_dns() == old(self).spec_dns(),
            final(self).spec_dns_options() == old(self).spec_dns_options(),
            final(self).spec_dns_search() == old(self).spec_dns_search(),
            final(self).spec_expose() == old(self).spec_expose(),
            final(self).spec_working_dir() == old(self).spec_working_dir(),
            final(self).spec_read_only() == old(self).spec_read_only(),
            final(self).spec_pids_limit() == old(self).spec_pids_limit(),
            final(self).spec_mem_limit() == old(self).spec_mem_limit(),
            final(self).spec_logging() == old(self).spec_logging(),
            final(self).spec_pull_policy() == old(self).spec_pull_policy(),
            final(self).spec_restart() == old(self).spec_restart(),
            final(self).spec_stop_signal() == old(self).spec_stop_signal(),
            final(self).spec_stop_grace_period() == old(self).spec_stop_grace_period(),
            final(self).spec_depends_on() == old(self).spec_depends_on(),
            final(self).spec_healthcheck() == old(self).spec_healthcheck(),
            final(self).spec_ports() == old(self).spec_ports(),
            final(self).spec_networks() == old(self).spec_networks(),
            final(self).spec_profiles() == old(self).spec_profiles(),
            final(self).spec_configs() == old(self).spec_configs(),
            final(self).spec_secrets() == old(self).spec_secrets(),
            final(self).spec_extension_fields() == old(self).spec_extension_fields(),
            final(self).spec_unknown_fields() == old(self).spec_unknown_fields(),
    {
        self.image = Some(value);
    }

    /// Sets the `command` field.
    pub fn set_command(&mut self, value: Command)
        ensures
            final(self).spec_command() == Some(value),
            final(self).spec_name() == old(self).spec_name(),
            final(self).spec_span() == old(self).spec_span(),
            final(self).spec_hostname() == old(self).spec_hostname(),
            final(self).spec_container_name() == old(self).spec_container_name(),
            final(self).spec_image() == old(self).spec_image(),
            final(self).spec_init() == old(self).spec_init(),
            final(self).spec_stdin_open() == old(self).spec_stdin_open(),
            final(self).spec_tty() == old(self).spec_tty(),
            final(self).spec_privileged() == old(self).spec_privileged(),
            final(self).spec_environment() == old(self).spec_environment(),
            final(self).spec_environment_files() == old(self).spec_environment_files(),
            final(self).spec_labels() == old(self).spec_labels(),
            final(self).spec_annotations() == old(self).spec_annotations(),
            final(self).spec_extra_hosts() == old(self).spec_extra_hosts(),
            final(self).spec_user() == old(self).spec_user(),
            final(self).spec_userns_mode() == old(self).spec_userns_mode(),
            final(self).spec_group_add() == old(self).spec_group_add(),
            final(self).spec_cap_add() == old(self).spec_cap_add(),
            final(self).spec_cap_drop() == old(self).spec_cap_drop(),
            final(self).spec_devices() == old(self).spec_devices(),
            final(self).spec_dns() == old(self).spec_dns(),
            final(self).spec_dns_options() == old(self).spec_dns_options(),
            final(self).spec_dns_search() == old(self).spec_dns_search(),
            final(self).spec_expose() == old(self).spec_expose(),
            final(self).spec_working_dir() == old(self).spec_working_dir(),
            final(self).spec_read_only() == old(self).spec_read_only(),
            final(self).spec_pids_limit() == old(self).spec_pids_limit(),
            final(self).spec_mem_limit() == old(self).spec_mem_limit(),
            final(self).spec_logging() == old(self).spec_logging(),
            final(self).spec_pull_policy() == old(self).spec_pull_policy(),
            final(self).spec_restart() == old(self).spec_restart(),
            final(self).spec_stop_signal() == old(self).spec_stop_signal(),
            final(self).spec_stop_grace_period() == old(self).spec_stop_grace_period(),
            final(self).spec_depends_on() == old(self).spec_depends_on(),
            final(self).spec_healthcheck() == old(self).spec_healthcheck(),
            final(self).spec_ports() == old(self).spec_ports(),
            final(self).spec_networks() == old(self).spec_networks(),
            final(self).spec_profiles() == old(self).spec_profiles(),
            final(self).spec_configs() == old(self).spec_configs(),
            final(self).spec_secrets() == old(self).spec_secrets(),
            final(self).spec_extension_fields() == old(self).spec_extension_fields(),
            final(self).spec_unknown_fields() == old(self).spec_unknown_fields(),
    {
        self.command = Some(value);
    }

    /// Sets the `init` field.
    pub fn set_init(&mut self, value: Located<BooleanValue>)
        ensures
            final(self).spec_init() == Some(value),
            final(self).spec_name() == old(self).spec_name(),
            final(self).spec_span() == old(self).spec_span(),
            final(self).spec_hostname() == old(self).spec_hostname(),
            final(self).spec_container_name() == old(self).spec_container_name(),
            final(self).spec_image() == old(self).spec_image(),
            final(self).spec_command() == old(self).spec_command(),
            final(self).spec_stdin_open() == old(self).spec_stdin_open(),
            final(self).spec_tty() == old(self).spec_tty(),
            final(self).spec_privileged() == old(self).spec_privileged(),
            final(self).spec_environment() == old(self).spec_environment(),
            final(self).spec_environment_files() == old(self).spec_environment_files(),
            final(self).spec_labels() == old(self).spec_labels(),
            final(self).spec_annotations() == old(self).spec_annotations(),
            final(self).spec_extra_hosts() == old(self).spec_extra_hosts(),
            final(self).spec_user() == old(self).spec_user(),
            final(self).spec_userns_mode() == old(self).spec_userns_mode(),
            final(self).spec_group_add() == old(self).spec_group_add(),
            final(self).spec_cap_add() == old(self).spec_cap_add(),
            final(self).spec_cap_drop() == old(self).spec_cap_drop(),
            final(self).spec_devices() == old(self).spec_devices(),
            final(self).spec_dns() == old(self).spec_dns(),
            final(self).spec_dns_options() == old(self).spec_dns_options(),
            final(self).spec_dns_search() == old(self).spec_dns_search(),
            final(self).spec_expose() == old(self).spec_expose(),
            final(self).spec_working_dir() == old(self).spec_working_dir(),
            final(self).spec_read_only() == old(self).spec_read_only(),
            final(self).spec_pids_limit() == old(self).spec_pids_limit(),
            final(self).spec_mem_limit() == old(self).spec_mem_limit(),
            final(self).spec_logging() == old(self).spec_logging(),
            final(self).spec_pull_policy() == old(self).spec_pull_policy(),
            final(self).spec_restart() == old(self).spec_restart(),
            final(self).spec_stop_signal() == old(self).spec_stop_signal(),
            final(self).spec_stop_grace_period() == old(self).spec_stop_grace_period(),
            final(self).spec_depends_on() == old(self).spec_depends_on(),
            final(self).spec_healthcheck() == old(self).spec_healthcheck(),
            final(self).spec_ports() == old(self).spec_ports(),
            final(self).spec_networks() == old(self).spec_networks(),
            final(self).spec_profiles() == old(self).spec_profiles(),
            final(self).spec_configs() == old(self).spec_configs(),
            final(self).spec_secrets() == old(self).spec_secrets(),
            final(self).spec_extension_fields() == old(self).spec_extension_fields(),
            final(self).spec_unknown_fields() == old(self).spec_unknown_fields(),
    {
        self.init = Some(value);
    }

    /// Sets the `stdin_open` field.
    pub fn set_stdin_open(&mut self, value: Located<BooleanValue>)
        ensures
            final(self).spec_stdin_open() == Some(value),
            final(self).spec_name() == old(self).spec_name(),
            final(self).spec_span() == old(self).spec_span(),
            final(self).spec_hostname() == old(self).spec_hostname(),
            final(self).spec_container_name() == old(self).spec_container_name(),
            final(self).spec_image() == old(self).spec_image(),
            final(self).spec_command() == old(self).spec_command(),
            final(self).spec_init() == old(self).spec_init(),
            final(self).spec_tty() == old(self).spec_tty(),
            final(self).spec_privileged() == old(self).spec_privileged(),
            final(self).spec_environment() == old(self).spec_environment(),
            final(self).spec_environment_files() == old(self).spec_environment_files(),
            final(self).spec_labels() == old(self).spec_labels(),
            final(self).spec_annotations() == old(self).spec_annotations(),
            final(self).spec_extra_hosts() == old(self).spec_extra_hosts(),
            final(self).spec_user() == old(self).spec_user(),
            final(self).spec_userns_mode() == old(self).spec_userns_mode(),
            final(self).spec_group_add() == old(self).spec_group_add(),
            final(self).spec_cap_add() == old(self).spec_cap_add(),
            final(self).spec_cap_drop() == old(self).spec_cap_drop(),
            final(self).spec_devices() == old(self).spec_devices(),
            final(self).spec_dns() == old(self).spec_dns(),
            final(self).spec_dns_options() == old(self).spec_dns_options(),
            final(self).spec_dns_search() == old(self).spec_dns_search(),
            final(self).spec_expose() == old(self).spec_expose(),
            final(self).spec_working_dir() == old(self).spec_working_dir(),
            final(self).spec_read_only() == old(self).spec_read_only(),
            final(self).spec_pids_limit() == old(self).spec_pids_limit(),
            final(self).spec_mem_limit() == old(self).spec_mem_limit(),
            final(self).spec_logging() == old(self).spec_logging(),
            final(self).spec_pull_policy() == old(self).spec_pull_policy(),
            final(self).spec_restart() == old(self).spec_restart(),
            final(self).spec_stop_signal() == old(self).spec_stop_signal(),
            final(self).spec_stop_grace_period() == old(self).spec_stop_grace_period(),
            final(self).spec_depends_on() == old(self).spec_depends_on(),
            final(self).spec_healthcheck() == old(self).spec_healthcheck(),
            final(self).spec_ports() == old(self).spec_ports(),
            final(self).spec_networks() == old(self).spec_networks(),
            final(self).spec_profiles() == old(self).spec_profiles(),
            final(self).spec_configs() == old(self).spec_configs(),
            final(self).spec_secrets() == old(self).spec_secrets(),
            final(self).spec_extension_fields() == old(self).spec_extension_fields(),
            final(self).spec_unknown_fields() == old(self).spec_unknown_fields(),
    {
        self.stdin_open = Some(value);
    }

    /// Sets the `tty` field.
    pub fn set_tty(&mut self, value: Located<BooleanValue>)
        ensures
            final(self).spec_tty() == Some(value),
            final(self).spec_name() == old(self).spec_name(),
            final(self).spec_span() == old(self).spec_span(),
            final(self).spec_hostname() == old(self).spec_hostname(),
            final(self).spec_container_name() == old(self).spec_container_name(),
            final(self).spec_image() == old(self).spec_image(),
            final(self).spec_command() == old(self).spec_command(),
            final(self).spec_init() == old(self).spec_init(),
            final(self).spec_stdin_open() == old(self).spec_stdin_open(),
            final(self).spec_privileged() == old(self).spec_privileged(),
            final(self).spec_environment() == old(self).spec_environment(),
            final(self).spec_environment_files() == old(self).spec_environment_files(),
            final(self).spec_labels() == old(self).spec_labels(),
            final(self).spec_annotations() == old(self).spec_annotations(),
            final(self).spec_extra_hosts() == old(self).spec_extra_hosts(),
            final(self).spec_user() == old(self).spec_user(),
            final(self).spec_userns_mode() == old(self).spec_userns_mode(),
            final(self).spec_group_add() == old(self).spec_group_add(),
            final(self).spec_cap_add() == old(self).spec_cap_add(),
            final(self).spec_cap_drop() == old(self).spec_cap_drop(),
            final(self).spec_devices() == old(self).spec_devices(),
            final(self).spec_dns() == old(self).spec_dns(),
            final(self).spec_dns_options() == old(self).spec_dns_options(),
            final(self).spec_dns_search() == old(self).spec_dns_search(),
            final(self).spec_expose() == old(self).spec_expose(),
            final(self).spec_working_dir() == old(self).spec_working_dir(),
            final(self).spec_read_only() == old(self).spec_read_only(),
            final(self).spec_pids_limit() == old(self).spec_pids_limit(),
            final(self).spec_mem_limit() == old(self).spec_mem_limit(),
            final(self).spec_logging() == old(self).spec_logging(),
            final(self).spec_pull_policy() == old(self).spec_pull_policy(),
            final(self).spec_restart() == old(self).spec_restart(),
            final(self).spec_stop_signal() == old(self).spec_stop_signal(),
            final(self).spec_stop_grace_period() == old(self).spec_stop_grace_period(),
            final(self).spec_depends_on() == old(self).spec_depends_on(),
            final(self).spec_healthcheck() == old(self).spec_healthcheck(),
            final(self).spec_ports() == old(self).spec_ports(),
            final(self).spec_networks() == old(self).spec_networks(),
            final(self).spec_profiles() == old(self).spec_profiles(),
            final(self).spec_configs() == old(self).spec_configs(),
            final(self).spec_secrets() == old(self).spec_secrets(),
            final(self).spec_extension_fields() == old(self).spec_extension_fields(),
            final(self).spec_unknown_fields() == old(self).spec_unknown_fields(),
    {
        self.tty = Some(value);
    }

    /// Sets the `privileged` field.
    pub fn set_privileged(&mut self, value: Located<BooleanValue>)
        ensures
            final(self).spec_privileged() == Some(value),
            final(self).spec_name() == old(self).spec_name(),
            final(self).spec_span() == old(self).spec_span(),
            final(self).spec_hostname() == old(self).spec_hostname(),
            final(self).spec_container_name() == old(self).spec_container_name(),
            final(self).spec_image() == old(self).spec_image(),
            final(self).spec_command() == old(self).spec_command(),
            final(self).spec_init() == old(self).spec_init(),
            final(self).spec_stdin_open() == old(self).spec_stdin_open(),
            final(self).spec_tty() == old(self).spec_tty(),
            final(self).spec_environment() == old(self).spec_environment(),
            final(self).spec_environment_files() == old(self).spec_environment_files(),
            final(self).spec_labels() == old(self).spec_labels(),
            final(self).spec_annotations() == old(self).spec_annotations(),
            final(self).spec_extra_hosts() == old(self).spec_extra_hosts(),
            final(self).spec_user() == old(self).spec_user(),
            final(self).spec_userns_mode() == old(self).spec_userns_mode(),
            final(self).spec_group_add() == old(self).spec_group_add(),
            final(self).spec_cap_add() == old(self).spec_cap_add(),
            final(self).spec_cap_drop() == old(self).spec_cap_drop(),
            final(self).spec_devices() == old(self).spec_devices(),
            final(self).spec_dns() == old(self).spec_dns(),
            final(self).spec_dns_options() == old(self).spec_dns_options(),
            final(self).spec_dns_search() == old(self).spec_dns_search(),
            final(self).spec_expose() == old(self).spec_expose(),
            final(self).spec_working_dir() == old(self).spec_working_dir(),
            final(self).spec_read_only() == old(self).spec_read_only(),
            final(self).spec_pids_limit() == old(self).spec_pids_limit(),
            final(self).spec_mem_limit() == old(self).spec_mem_limit(),
            final(self).spec_logging() == old(self).spec_logging(),
            final(self).spec_pull_policy() == old(self).spec_pull_policy(),
            final(self).spec_restart() == old(self).spec_restart(),
            final(self).spec_stop_signal() == old(self).spec_stop_signal(),
            final(self).spec_stop_grace_period() == old(self).spec_stop_grace_period(),
            final(self).spec_depends_on() == old(self).spec_depends_on(),
            final(self).spec_healthcheck() == old(self).spec_healthcheck(),
            final(self).spec_ports() == old(self).spec_ports(),
            final(self).spec_networks() == old(self).spec_networks(),
            final(self).spec_profiles() == old(self).spec_profiles(),
            final(self).spec_configs() == old(self).spec_configs(),
            final(self).spec_secrets() == old(self).spec_secrets(),
            final(self).spec_extension_fields() == old(self).spec_extension_fields(),
            final(self).spec_unknown_fields() == old(self).spec_unknown_fields(),
    {
        self.privileged = Some(value);
    }

    /// Sets the `environment` field.
    pub fn set_environment(&mut self, value: Environment)
        ensures
            final(self).spec_environment() == Some(value),
            final(self).spec_name() == old(self).spec_name(),
            final(self).spec_span() == old(self).spec_span(),
            final(self).spec_hostname() == old(self).spec_hostname(),
            final(self).spec_container_name() == old(self).spec_container_name(),
            final(self).spec_image() == old(self).spec_image(),
            final(self).spec_command() == old(self).spec_command(),
            final(self).spec_init() == old(self).spec_init(),
            final(self).spec_stdin_open() == old(self).spec_stdin_open(),
            final(self).spec_tty() == old(self).spec_tty(),
            final(self).spec_privileged() == old(self).spec_privileged(),
            final(self).spec_environment_files() == old(self).spec_environment_files(),
            final(self).spec_labels() == old(self).spec_labels(),
            final(self).spec_annotations() == old(self).spec_annotations(),
            final(self).spec_extra_hosts() == old(self).spec_extra_hosts(),
            final(self).spec_user() == old(self).spec_user(),
            final(self).spec_userns_mode() == old(self).spec_userns_mode(),
            final(self).spec_group_add() == old(self).spec_group_add(),
            final(self).spec_cap_add() == old(self).spec_cap_add(),
            final(self).spec_cap_drop() == old(self).spec_cap_drop(),
            final(self).spec_devices() == old(self).spec_devices(),
            final(self).spec_dns() == old(self).spec_dns(),
            final(self).spec_dns_options() == old(self).spec_dns_options(),
            final(self).spec_dns_search() == old(self).spec_dns_search(),
            final(self).spec_expose() == old(self).spec_expose(),
            final(self).spec_working_dir() == old(self).spec_working_dir(),
            final(self).spec_read_only() == old(self).spec_read_only(),
            final(self).spec_pids_limit() == old(self).spec_pids_limit(),
            final(self).spec_mem_limit() == old(self).spec_mem_limit(),
            final(self).spec_logging() == old(self).spec_logging(),
            final(self).spec_pull_policy() == old(self).spec_pull_policy(),
            final(self).spec_restart() == old(self).spec_restart(),
            final(self).spec_stop_signal() == old(self).spec_stop_signal(),
            final(self).spec_stop_grace_period() == old(self).spec_stop_grace_period(),
            final(self).spec_depends_on() == old(self).spec_depends_on(),
            final(self).spec_healthcheck() == old(self).spec_healthcheck(),
            final(self).spec_ports() == old(self).spec_ports(),
            final(self).spec_networks() == old(self).spec_networks(),
            final(self).spec_profiles() == old(self).spec_profiles(),
            final(self).spec_configs() == old(self).spec_configs(),
            final(self).spec_secrets() == old(self).spec_secrets(),
            final(self).spec_extension_fields() == old(self).spec_extension_fields(),
            final(self).spec_unknown_fields() == old(self).spec_unknown_fields(),
    {
        self.environment = Some(value);
    }

    /// Sets the `environment_files` field.
    pub fn set_environment_files(&mut self, value: Vec<EnvironmentFile>)
        ensures
            final(self).spec_environment_files() == value@,
            final(self).spec_name() == old(self).spec_name(),
            final(self).spec_span() == old(self).spec_span(),
            final(self).spec_hostname() == old(self).spec_hostname(),
            final(self).spec_container_name() == old(self).spec_container_name(),
            final(self).spec_image() == old(self).spec_image(),
            final(self).spec_command() == old(self).spec_command(),
            final(self).spec_init() == old(self).spec_init(),
            final(self).spec_stdin_open() == old(self).spec_stdin_open(),
            final(self).spec_tty() == old(self).spec_tty(),
            final(self).spec_privileged() == old(self).spec_privileged(),
            final(self).spec_environment() == old(self).spec_environment(),
            final(self).spec_labels() == old(self).spec_labels(),
            final(self).spec_annotations() == old(self).spec_annotations(),
            final(self).spec_extra_hosts() == old(self).spec_extra_hosts(),
            final(self).spec_user() == old(self).spec_user(),
            final(self).spec_userns_mode() == old(self).spec_userns_mode(),
            final(self).spec_group_add() == old(self).spec_group_add(),
            final(self).spec_cap_add() == old(self).spec_cap_add(),
            final(self).spec_cap_drop() == old(self).spec_cap_drop(),
            final(self).spec_devices() == old(self).spec_devices(),
            final(self).spec_dns() == old(self).spec_dns(),
            final(self).spec_dns_options() == old(self).spec_dns_options(),
            final(self).spec_dns_search() == old(self).spec_dns_search(),
            final(self).spec_expose() == old(self).spec_expose(),
            final(self).spec_working_dir() == old(self).spec_working_dir(),
            final(self).spec_read_only() == old(self).spec_read_only(),
            final(self).spec_pids_limit() == old(self).spec_pids_limit(),
            final(self).spec_mem_limit() == old(self).spec_mem_limit(),
            final(self).spec_logging() == old(self).spec_logging(),
            final(self).spec_pull_policy() == old(self).spec_pull_policy(),
            final(self).spec_restart() == old(self).spec_restart(),
            final(self).spec_stop_signal() == old(self).spec_stop_signal(),
            final(self).spec_stop_grace_period() == old(self).spec_stop_grace_period(),
            final(self).spec_depends_on() == old(self).spec_depends_on(),
            final(self).spec_healthcheck() == old(self).spec_healthcheck(),
            final(self).spec_ports() == old(self).spec_ports(),
            final(self).spec_networks() == old(self).spec_networks(),
            final(self).spec_profiles() == old(self).spec_profiles(),
            final(self).spec_configs() == old(self).spec_configs(),
            final(self).spec_secrets() == old(self).spec_secrets(),
            final(self).spec_extension_fields() == old(self).spec_extension_fields(),
            final(self).spec_unknown_fields() == old(self).spec_unknown_fields(),
    {
        self.environment_files = value;
    }

    /// Sets the `labels` field.
    pub fn set_labels(&mut self, value: Labels)
        ensures
            final(self).spec_labels() == Some(value),
            final(self).spec_name() == old(self).spec_name(),
            final(self).spec_span() == old(self).spec_span(),
            final(self).spec_hostname() == old(self).spec_hostname(),
            final(self).spec_container_name() == old(self).spec_container_name(),
            final(self).spec_image() == old(self).spec_image(),
            final(self).spec_command() == old(self).spec_command(),
            final(self).spec_init() == old(self).spec_init(),
            final(self).spec_stdin_open() == old(self).spec_stdin_open(),
            final(self).spec_tty() == old(self).spec_tty(),
            final(self).spec_privileged() == old(self).spec_privileged(),
            final(self).spec_environment() == old(self).spec_environment(),
            final(self).spec_environment_files() == old(self).spec_environment_files(),
            final(self).spec_annotations() == old(self).spec_annotations(),
            final(self).spec_extra_hosts() == old(self).spec_extra_hosts(),
            final(self).spec_user() == old(self).spec_user(),
            final(self).spec_userns_mode() == old(self).spec_userns_mode(),
            final(self).spec_group_add() == old(self).spec_group_add(),
            final(self).spec_cap_add() == old(self).spec_cap_add(),
            final(self).spec_cap_drop() == old(self).spec_cap_drop(),
            final(self).spec_devices() == old(self).spec_devices(),
            final(self).spec_dns() == old(self).spec_dns(),
            final(self).spec_dns_options() == old(self).spec_dns_options(),
            final(self).spec_dns_search() == old(self).spec_dns_search(),
            final(self).spec_expose() == old(self).spec_expose(),
            final(self).spec_working_dir() == old(self).spec_working_dir(),
            final(self).spec_read_only() == old(self).spec_read_only(),
            final(self).spec_pids_limit() == old(self).spec_pids_limit(),
            final(self).spec_mem_limit() == old(self).spec_mem_limit(),
            final(self).spec_logging() == old(self).spec_logging(),
            final(self).spec_pull_policy() == old(self).spec_pull_policy(),
            final(self).spec_restart() == old(self).spec_restart(),
            final(self).spec_stop_signal() == old(self).spec_stop_signal(),
            final(self).spec_stop_grace_period() == old(self).spec_stop_grace_period(),
            final(self).spec_depends_on() == old(self).spec_depends_on(),
            final(self).spec_healthcheck() == old(self).spec_healthcheck(),
            final(self).spec_ports() == old(self).spec_ports(),
            final(self).spec_networks() == old(self).spec_networks(),
            final(self).spec_profiles() == old(self).spec_profiles(),
            final(self).spec_configs() == old(self).spec_configs(),
            final(self).spec_secrets() == old(self).spec_secrets(),
            final(self).spec_extension_fields() == old(self).spec_extension_fields(),
            final(self).spec_unknown_fields() == old(self).spec_unknown_fields(),
    {
        self.labels = Some(value);
    }

    /// Sets the `annotations` field.
    pub fn set_annotations(&mut self, value: Annotations)
        ensures
            final(self).spec_annotations() == Some(value),
            final(self).spec_name() == old(self).spec_name(),
            final(self).spec_span() == old(self).spec_span(),
            final(self).spec_hostname() == old(self).spec_hostname(),
            final(self).spec_container_name() == old(self).spec_container_name(),
            final(self).spec_image() == old(self).spec_image(),
            final(self).spec_command() == old(self).spec_command(),
            final(self).spec_init() == old(self).spec_init(),
            final(self).spec_stdin_open() == old(self).spec_stdin_open(),
            final(self).spec_tty() == old(self).spec_tty(),
            final(self).spec_privileged() == old(self).spec_privileged(),
            final(self).spec_environment() == old(self).spec_environment(),
            final(self).spec_environment_files() == old(self).spec_environment_files(),
            final(self).spec_labels() == old(self).spec_labels(),
            final(self).spec_extra_hosts() == old(self).spec_extra_hosts(),
            final(self).spec_user() == old(self).spec_user(),
            final(self).spec_userns_mode() == old(self).spec_userns_mode(),
            final(self).spec_group_add() == old(self).spec_group_add(),
            final(self).spec_cap_add() == old(self).spec_cap_add(),
            final(self).spec_cap_drop() == old(self).spec_cap_drop(),
            final(self).spec_devices() == old(self).spec_devices(),
            final(self).spec_dns() == old(self).spec_dns(),
            final(self).spec_dns_options() == old(self).spec_dns_options(),
            final(self).spec_dns_search() == old(self).spec_dns_search(),
            final(self).spec_expose() == old(self).spec_expose(),
            final(self).spec_working_dir() == old(self).spec_working_dir(),
            final(self).spec_read_only() == old(self).spec_read_only(),
            final(self).spec_pids_limit() == old(self).spec_pids_limit(),
            final(self).spec_mem_limit() == old(self).spec_mem_limit(),
            final(self).spec_logging() == old(self).spec_logging(),
            final(self).spec_pull_policy() == old(self).spec_pull_policy(),
            final(self).spec_restart() == old(self).spec_restart(),
            final(self).spec_stop_signal() == old(self).spec_stop_signal(),
            final(self).spec_stop_grace_period() == old(self).spec_stop_grace_period(),
            final(self).spec_depends_on() == old(self).spec_depends_on(),
            final(self).spec_healthcheck() == old(self).spec_healthcheck(),
            final(self).spec_ports() == old(self).spec_ports(),
            final(self).spec_networks() == old(self).spec_networks(),
            final(self).spec_profiles() == old(self).spec_profiles(),
            final(self).spec_configs() == old(self).spec_configs(),
            final(self).spec_secrets() == old(self).spec_secrets(),
            final(self).spec_extension_fields() == old(self).spec_extension_fields(),
            final(self).spec_unknown_fields() == old(self).spec_unknown_fields(),
    {
        self.annotations = Some(value);
    }

    /// Sets the `extra_hosts` field.
    pub fn set_extra_hosts(&mut self, value: ExtraHosts)
        ensures
            final(self).spec_extra_hosts() == Some(value),
            final(self).spec_name() == old(self).spec_name(),
            final(self).spec_span() == old(self).spec_span(),
            final(self).spec_hostname() == old(self).spec_hostname(),
            final(self).spec_container_name() == old(self).spec_container_name(),
            final(self).spec_image() == old(self).spec_image(),
            final(self).spec_command() == old(self).spec_command(),
            final(self).spec_init() == old(self).spec_init(),
            final(self).spec_stdin_open() == old(self).spec_stdin_open(),
            final(self).spec_tty() == old(self).spec_tty(),
            final(self).spec_privileged() == old(self).spec_privileged(),
            final(self).spec_environment() == old(self).spec_environment(),
            final(self).spec_environment_files() == old(self).spec_environment_files(),
            final(self).spec_labels() == old(self).spec_labels(),
            final(self).spec_annotations() == old(self).spec_annotations(),
            final(self).spec_user() == old(self).spec_user(),
            final(self).spec_userns_mode() == old(self).spec_userns_mode(),
            final(self).spec_group_add() == old(self).spec_group_add(),
            final(self).spec_cap_add() == old(self).spec_cap_add(),
            final(self).spec_cap_drop() == old(self).spec_cap_drop(),
            final(self).spec_devices() == old(self).spec_devices(),
            final(self).spec_dns() == old(self).spec_dns(),
            final(self).spec_dns_options() == old(self).spec_dns_options(),
            final(self).spec_dns_search() == old(self).spec_dns_search(),
            final(self).spec_expose() == old(self).spec_expose(),
            final(self).spec_working_dir() == old(self).spec_working_dir(),
            final(self).spec_read_only() == old(self).spec_read_only(),
            final(self).spec_pids_limit() == old(self).spec_pids_limit(),
            final(self).spec_mem_limit() == old(self).spec_mem_limit(),
            final(self).spec_logging() == old(self).spec_logging(),
            final(self).spec_pull_policy() == old(self).spec_pull_policy(),
            final(self).spec_restart() == old(self).spec_restart(),
            final(self).spec_stop_signal() == old(self).spec_stop_signal(),
            final(self).spec_stop_grace_period() == old(self).spec_stop_grace_period(),
            final(self).spec_depends_on() == old(self).spec_depends_on(),
            final(self).spec_healthcheck() == old(self).spec_healthcheck(),
            final(self).spec_ports() == old(self).spec_ports(),
            final(self).spec_networks() == old(self).spec_networks(),
            final(self).spec_profiles() == old(self).spec_profiles(),
            final(self).spec_configs() == old(self).spec_configs(),
            final(self).spec_secrets() == old(self).spec_secrets(),
            final(self).spec_extension_fields() == old(self).spec_extension_fields(),
            final(self).spec_unknown_fields() == old(self).spec_unknown_fields(),
    {
        self.extra_hosts = Some(value);
    }

    /// Sets the `user` field.
    pub fn set_user(&mut self, value: UserSpec)
        ensures
            final(self).spec_user() == Some(value),
            final(self).spec_name() == old(self).spec_name(),
            final(self).spec_span() == old(self).spec_span(),
            final(self).spec_hostname() == old(self).spec_hostname(),
            final(self).spec_container_name() == old(self).spec_container_name(),
            final(self).spec_image() == old(self).spec_image(),
            final(self).spec_command() == old(self).spec_command(),
            final(self).spec_init() == old(self).spec_init(),
            final(self).spec_stdin_open() == old(self).spec_stdin_open(),
            final(self).spec_tty() == old(self).spec_tty(),
            final(self).spec_privileged() == old(self).spec_privileged(),
            final(self).spec_environment() == old(self).spec_environment(),
            final(self).spec_environment_files() == old(self).spec_environment_files(),
            final(self).spec_labels() == old(self).spec_labels(),
            final(self).spec_annotations() == old(self).spec_annotations(),
            final(self).spec_extra_hosts() == old(self).spec_extra_hosts(),
            final(self).spec_userns_mode() == old(self).spec_userns_mode(),
            final(self).spec_group_add() == old(self).spec_group_add(),
            final(self).spec_cap_add() == old(self).spec_cap_add(),
            final(self).spec_cap_drop() == old(self).spec_cap_drop(),
            final(self).spec_devices() == old(self).spec_devices(),
            final(self).spec_dns() == old(self).spec_dns(),
            final(self).spec_dns_options() == old(self).spec_dns_options(),
            final(self).spec_dns_search() == old(self).spec_dns_search(),
            final(self).spec_expose() == old(self).spec_expose(),
            final(self).spec_working_dir() == old(self).spec_working_dir(),
            final(self).spec_read_only() == old(self).spec_read_only(),
            final(self).spec_pids_limit() == old(self).spec_pids_limit(),
            final(self).spec_mem_limit() == old(self).spec_mem_limit(),
            final(self).spec_logging() == old(self).spec_logging(),
            final(self).spec_pull_policy() == old(self).spec_pull_policy(),
            final(self).spec_restart() == old(self).spec_restart(),
            final(self).spec_stop_signal() == old(self).spec_stop_signal(),
            final(self).spec_stop_grace_period() == old(self).spec_stop_grace_period(),
            final(self).spec_depends_on() == old(self).spec_depends_on(),
            final(self).spec_healthcheck() == old(self).spec_healthcheck(),
            final(self).spec_ports() == old(self).spec_ports(),
            final(self).spec_networks() == old(self).spec_networks(),
            final(self).spec_profiles() == old(self).spec_profiles(),
            final(self).spec_configs() == old(self).spec_configs(),
            final(self).spec_secrets() == old(self).spec_secrets(),
            final(self).spec_extension_fields() == old(self).spec_extension_fields(),
            final(self).spec_unknown_fields() == old(self).spec_unknown_fields(),
    {
        self.user = Some(value);
    }

    /// Sets the `userns_mode` field.
    pub fn set_userns_mode(&mut self, value: UserNamespaceMode)
        ensures
            final(self).spec_userns_mode() == Some(value),
            final(self).spec_name() == old(self).spec_name(),
            final(self).spec_span() == old(self).spec_span(),
            final(self).spec_hostname() == old(self).spec_hostname(),
            final(self).spec_container_name() == old(self).spec_container_name(),
            final(self).spec_image() == old(self).spec_image(),
            final(self).spec_command() == old(self).spec_command(),
            final(self).spec_init() == old(self).spec_init(),
            final(self).spec_stdin_open() == old(self).spec_stdin_open(),
            final(self).spec_tty() == old(self).spec_tty(),
            final(self).spec_privileged() == old(self).spec_privileged(),
            final(self).spec_environment() == old(self).spec_environment(),
            final(self).spec_environment_files() == old(self).spec_environment_files(),
            final(self).spec_labels() == old(self).spec_labels(),
            final(self).spec_annotations() == old(self).spec_annotations(),
            final(self).spec_extra_hosts() == old(self).spec_extra_hosts(),
            final(self).spec_user() == old(self).spec_user(),
            final(self).spec_group_add() == old(self).spec_group_add(),
            final(self).spec_cap_add() == old(self).spec_cap_add(),
            final(self).spec_cap_drop() == old(self).spec_cap_drop(),
            final(self).spec_devices() == old(self).spec_devices(),
            final(self).spec_dns() == old(self).spec_dns(),
            final(self).spec_dns_options() == old(self).spec_dns_options(),
            final(self).spec_dns_search() == old(self).spec_dns_search(),
            final(self).spec_expose() == old(self).spec_expose(),
            final(self).spec_working_dir() == old(self).spec_working_dir(),
            final(self).spec_read_only() == old(self).spec_read_only(),
            final(self).spec_pids_limit() == old(self).spec_pids_limit(),
            final(self).spec_mem_limit() == old(self).spec_mem_limit(),
            final(self).spec_logging() == old(self).spec_logging(),
            final(self).spec_pull_policy() == old(self).spec_pull_policy(),
            final(self).spec_restart() == old(self).spec_restart(),
            final(self).spec_stop_signal() == old(self).spec_stop_signal(),
            final(self).spec_stop_grace_period() == old(self).spec_stop_grace_period(),
            final(self).spec_depends_on() == old(self).spec_depends_on(),
            final(self).spec_healthcheck() == old(self).spec_healthcheck(),
            final(self).spec_ports() == old(self).spec_ports(),
            final(self).spec_networks() == old(self).spec_networks(),
            final(self).spec_profiles() == old(self).spec_profiles(),
            final(self).spec_configs() == old(self).spec_configs(),
            final(self).spec_secrets() == old(self).spec_secrets(),
            final(self).spec_extension_fields() == old(self).spec_extension_fields(),
            final(self).spec_unknown_fields() == old(self).spec_unknown_fields(),
    {
        self.userns_mode = Some(value);
    }

    /// Sets the `group_add` field.
    pub fn set_group_add(&mut self, value: Vec<Located<String>>)
        ensures
            final(self).spec_group_add() == value@,
            final(self).spec_name() == old(self).spec_name(),
            final(self).spec_span() == old(self).spec_span(),
            final(self).spec_hostname() == old(self).spec_hostname(),
            final(self).spec_container_name() == old(self).spec_container_name(),
            final(self).spec_image() == old(self).spec_image(),
            final(self).spec_command() == old(self).spec_command(),
            final(self).spec_init() == old(self).spec_init(),
            final(self).spec_stdin_open() == old(self).spec_stdin_open(),
            final(self).spec_tty() == old(self).spec_tty(),
            final(self).spec_privileged() == old(self).spec_privileged(),
            final(self).spec_environment() == old(self).spec_environment(),
            final(self).spec_environment_files() == old(self).spec_environment_files(),
            final(self).spec_labels() == old(self).spec_labels(),
            final(self).spec_annotations() == old(self).spec_annotations(),
            final(self).spec_extra_hosts() == old(self).spec_extra_hosts(),
            final(self).spec_user() == old(self).spec_user(),
            final(self).spec_userns_mode() == old(self).spec_userns_mode(),
            final(self).spec_cap_add() == old(self).spec_cap_add(),
            final(self).spec_cap_drop() == old(self).spec_cap_drop(),
            final(self).spec_devices() == old(self).spec_devices(),
            final(self).spec_dns() == old(self).spec_dns(),
            final(self).spec_dns_options() == old(self).spec_dns_options(),
            final(self).spec_dns_search() == old(self).spec_dns_search(),
            final(self).spec_expose() == old(self).spec_expose(),
            final(self).spec_working_dir() == old(self).spec_working_dir(),
            final(self).spec_read_only() == old(self).spec_read_only(),
            final(self).spec_pids_limit() == old(self).spec_pids_limit(),
            final(self).spec_mem_limit() == old(self).spec_mem_limit(),
            final(self).spec_logging() == old(self).spec_logging(),
            final(self).spec_pull_policy() == old(self).spec_pull_policy(),
            final(self).spec_restart() == old(self).spec_restart(),
            final(self).spec_stop_signal() == old(self).spec_stop_signal(),
            final(self).spec_stop_grace_period() == old(self).spec_stop_grace_period(),
            final(self).spec_depends_on() == old(self).spec_depends_on(),
            final(self).spec_healthcheck() == old(self).spec_healthcheck(),
            final(self).spec_ports() == old(self).spec_ports(),
            final(self).spec_networks() == old(self).spec_networks(),
            final(self).spec_profiles() == old(self).spec_profiles(),
            final(self).spec_configs() == old(self).spec_configs(),
            final(self).spec_secrets() == old(self).spec_secrets(),
            final(self).spec_extension_fields() == old(self).spec_extension_fields(),
            final(self).spec_unknown_fields() == old(self).spec_unknown_fields(),
    {
        self.group_add = value;
    }

    /// Sets the `cap_add` field.
    pub fn set_cap_add(&mut self, value: CapabilityAdd)
        ensures
            final(self).spec_cap_add() == Some(value),
            final(self).spec_name() == old(self).spec_name(),
            final(self).spec_span() == old(self).spec_span(),
            final(self).spec_hostname() == old(self).spec_hostname(),
            final(self).spec_container_name() == old(self).spec_container_name(),
            final(self).spec_image() == old(self).spec_image(),
            final(self).spec_command() == old(self).spec_command(),
            final(self).spec_init() == old(self).spec_init(),
            final(self).spec_stdin_open() == old(self).spec_stdin_open(),
            final(self).spec_tty() == old(self).spec_tty(),
            final(self).spec_privileged() == old(self).spec_privileged(),
            final(self).spec_environment() == old(self).spec_environment(),
            final(self).spec_environment_files() == old(self).spec_environment_files(),
            final(self).spec_labels() == old(self).spec_labels(),
            final(self).spec_annotations() == old(self).spec_annotations(),
            final(self).spec_extra_hosts() == old(self).spec_extra_hosts(),
            final(self).spec_user() == old(self).spec_user(),
            final(self).spec_userns_mode() == old(self).spec_userns_mode(),
            final(self).spec_group_add() == old(self).spec_group_add(),
            final(self).spec_cap_drop() == old(self).spec_cap_drop(),
            final(self).spec_devices() == old(self).spec_devices(),
            final(self).spec_dns() == old(self).spec_dns(),
            final(self).spec_dns_options() == old(self).spec_dns_options(),
            final(self).spec_dns_search() == old(self).spec_dns_search(),
            final(self).spec_expose() == old(self).spec_expose(),
            final(self).spec_working_dir() == old(self).spec_working_dir(),
            final(self).spec_read_only() == old(self).spec_read_only(),
            final(self).spec_pids_limit() == old(self).spec_pids_limit(),
            final(self).spec_mem_limit() == old(self).spec_mem_limit(),
            final(self).spec_logging() == old(self).spec_logging(),
            final(self).spec_pull_policy() == old(self).spec_pull_policy(),
            final(self).spec_restart() == old(self).spec_restart(),
            final(self).spec_stop_signal() == old(self).spec_stop_signal(),
            final(self).spec_stop_grace_period() == old(self).spec_stop_grace_period(),
            final(self).spec_depends_on() == old(self).spec_depends_on(),
            final(self).spec_healthcheck() == old(self).spec_healthcheck(),
            final(self).spec_ports() == old(self).spec_ports(),
            final(self).spec_networks() == old(self).spec_networks(),
            final(self).spec_profiles() == old(self).spec_profiles(),
            final(self).spec_configs() == old(self).spec_configs(),
            final(self).spec_secrets() == old(self).spec_secrets(),
            final(self).spec_extension_fields() == old(self).spec_extension_fields(),
            final(self).spec_unknown_fields() == old(self).spec_unknown_fields(),
    {
        self.cap_add = Some(value);
    }

    /// Sets the `cap_drop` field.
    pub fn set_cap_drop(&mut self, value: CapabilityDrop)
        ensures
            final(self).spec_cap_drop() == Some(value),
            final(self).spec_name() == old(self).spec_name(),
            final(self).spec_span() == old(self).spec_span(),
            final(self).spec_hostname() == old(self).spec_hostname(),
            final(self).spec_container_name() == old(self).spec_container_name(),
            final(self).spec_image() == old(self).spec_image(),
            final(self).spec_command() == old(self).spec_command(),
            final(self).spec_init() == old(self).spec_init(),
            final(self).spec_stdin_open() == old(self).spec_stdin_open(),
            final(self).spec_tty() == old(self).spec_tty(),
            final(self).spec_privileged() == old(self).spec_privileged(),
            final(self).spec_environment() == old(self).spec_environment(),
            final(self).spec_environment_files() == old(self).spec_environment_files(),
            final(self).spec_labels() == old(self).spec_labels(),
            final(self).spec_annotations() == old(self).spec_annotations(),
            final(self).spec_extra_hosts() == old(self).spec_extra_hosts(),
            final(self).spec_user() == old(self).spec_user(),
            final(self).spec_userns_mode() == old(self).spec_userns_mode(),
            final(self).spec_group_add() == old(self).spec_group_add(),
            final(self).spec_cap_add() == old(self).spec_cap_add(),
            final(self).spec_devices() == old(self).spec_devices(),
            final(self).spec_dns() == old(self).spec_dns(),
            final(self).spec_dns_options() == old(self).spec_dns_options(),
            final(self).spec_dns_search() == old(self).spec_dns_search(),
            final(self).spec_expose() == old(self).spec_expose(),
            final(self).spec_working_dir() == old(self).spec_working_dir(),
            final(self).spec_read_only() == old(self).spec_read_only(),
            final(self).spec_pids_limit() == old(self).spec_pids_limit(),
            final(self).spec_mem_limit() == old(self).spec_mem_limit(),
            final(self).spec_logging() == old(self).spec_logging(),
            final(self).spec_pull_policy() == old(self).spec_pull_policy(),
            final(self).spec_restart() == old(self).spec_restart(),
            final(self).spec_stop_signal() == old(self).spec_stop_signal(),
            final(self).spec_stop_grace_period() == old(self).spec_stop_grace_period(),
            final(self).spec_depends_on() == old(self).spec_depends_on(),
            final(self).spec_healthcheck() == old(self).spec_healthcheck(),
            final(self).spec_ports() == old(self).spec_ports(),
            final(self).spec_networks() == old(self).spec_networks(),
            final(self).spec_profiles() == old(self).spec_profiles(),
            final(self).spec_configs() == old(self).spec_configs(),
            final(self).spec_secrets() == old(self).spec_secrets(),
            final(self).spec_extension_fields() == old(self).spec_extension_fields(),
            final(self).spec_unknown_fields() == old(self).spec_unknown_fields(),
    {
        self.cap_drop = Some(value);
    }

    /// Sets the `devices` field.
    pub fn set_devices(&mut self, value: Devices)
        ensures
            final(self).spec_devices() == Some(value),
            final(self).spec_name() == old(self).spec_name(),
            final(self).spec_span() == old(self).spec_span(),
            final(self).spec_hostname() == old(self).spec_hostname(),
            final(self).spec_container_name() == old(self).spec_container_name(),
            final(self).spec_image() == old(self).spec_image(),
            final(self).spec_command() == old(self).spec_command(),
            final(self).spec_init() == old(self).spec_init(),
            final(self).spec_stdin_open() == old(self).spec_stdin_open(),
            final(self).spec_tty() == old(self).spec_tty(),
            final(self).spec_privileged() == old(self).spec_privileged(),
            final(self).spec_environment() == old(self).spec_environment(),
            final(self).spec_environment_files() == old(self).spec_environment_files(),
            final(self).spec_labels() == old(self).spec_labels(),
            final(self).spec_annotations() == old(self).spec_annotations(),
            final(self).spec_extra_hosts() == old(self).spec_extra_hosts(),
            final(self).spec_user() == old(self).spec_user(),
            final(self).spec_userns_mode() == old(self).spec_userns_mode(),
            final(self).spec_group_add() == old(self).spec_group_add(),
            final(self).spec_cap_add() == old(self).spec_cap_add(),
            final(self).spec_cap_drop() == old(self).spec_cap_drop(),
            final(self).spec_dns() == old(self).spec_dns(),
            final(self).spec_dns_options() == old(self).spec_dns_options(),
            final(self).spec_dns_search() == old(self).spec_dns_search(),
            final(self).spec_expose() == old(self).spec_expose(),
            final(self).spec_working_dir() == old(self).spec_working_dir(),
            final(self).spec_read_only() == old(self).spec_read_only(),
            final(self).spec_pids_limit() == old(self).spec_pids_limit(),
            final(self).spec_mem_limit() == old(self).spec_mem_limit(),
            final(self).spec_logging() == old(self).spec_logging(),
            final(self).spec_pull_policy() == old(self).spec_pull_policy(),
            final(self).spec_restart() == old(self).spec_restart(),
            final(self).spec_stop_signal() == old(self).spec_stop_signal(),
            final(self).spec_stop_grace_period() == old(self).spec_stop_grace_period(),
            final(self).spec_depends_on() == old(self).spec_depends_on(),
            final(self).spec_healthcheck() == old(self).spec_healthcheck(),
            final(self).spec_ports() == old(self).spec_ports(),
            final(self).spec_networks() == old(self).spec_networks(),
            final(self).spec_profiles() == old(self).spec_profiles(),
            final(self).spec_configs() == old(self).spec_configs(),
            final(self).spec_secrets() == old(self).spec_secrets(),
            final(self).spec_extension_fields() == old(self).spec_extension_fields(),
            final(self).spec_unknown_fields() == old(self).spec_unknown_fields(),
    {
        self.devices = Some(value);
    }

    /// Sets the `dns` field.
    pub fn set_dns(&mut self, value: Dns)
        ensures
            final(self).spec_dns() == Some(value),
            final(self).spec_name() == old(self).spec_name(),
            final(self).spec_span() == old(self).spec_span(),
            final(self).spec_hostname() == old(self).spec_hostname(),
            final(self).spec_container_name() == old(self).spec_container_name(),
            final(self).spec_image() == old(self).spec_image(),
            final(self).spec_command() == old(self).spec_command(),
            final(self).spec_init() == old(self).spec_init(),
            final(self).spec_stdin_open() == old(self).spec_stdin_open(),
            final(self).spec_tty() == old(self).spec_tty(),
            final(self).spec_privileged() == old(self).spec_privileged(),
            final(self).spec_environment() == old(self).spec_environment(),
            final(self).spec_environment_files() == old(self).spec_environment_files(),
            final(self).spec_labels() == old(self).spec_labels(),
            final(self).spec_annotations() == old(self).spec_annotations(),
            final(self).spec_extra_hosts() == old(self).spec_extra_hosts(),
            final(self).spec_user() == old(self).spec_user(),
            final(self).spec_userns_mode() == old(self).spec_userns_mode(),
            final(self).spec_group_add() == old(self).spec_group_add(),
            final(self).spec_cap_add() == old(self).spec_cap_add(),
            final(self).spec_cap_drop() == old(self).spec_cap_drop(),
            final(self).spec_devices() == old(self).spec_devices(),
            final(self).spec_dns_options() == old(self).spec_dns_options(),
            final(self).spec_dns_search() == old(self).spec_dns_search(),
            final(self).spec_expose() == old(self).spec_expose(),
            final(self).spec_working_dir() == old(self).spec_working_dir(),
            final(self).spec_read_only() == old(self).spec_read_only(),
            final(self).spec_pids_limit() == old(self).spec_pids_limit(),
            final(self).spec_mem_limit() == old(self).spec_mem_limit(),
            final(self).spec_logging() == old(self).spec_logging(),
            final(self).spec_pull_policy() == old(self).spec_pull_policy(),
            final(self).spec_restart() == old(self).spec_restart(),
            final(self).spec_stop_signal() == old(self).spec_stop_signal(),
            final(self).spec_stop_grace_period() == old(self).spec_stop_grace_period(),
            final(self).spec_depends_on() == old(self).spec_depends_on(),
            final(self).spec_healthcheck() == old(self).spec_healthcheck(),
            final(self).spec_ports() == old(self).spec_ports(),
            final(self).spec_networks() == old(self).spec_networks(),
            final(self).spec_profiles() == old(self).spec_profiles(),
            final(self).spec_configs() == old(self).spec_configs(),
            final(self).spec_secrets() == old(self).spec_secrets(),
            final(self).spec_extension_fields() == old(self).spec_extension_fields(),
            final(self).spec_unknown_fields() == old(self).spec_unknown_fields(),
    {
        self.dns = Some(value);
    }

    /// Sets the `dns_options` field.
    pub fn set_dns_options(&mut self, value: DnsOptions)
        ensures
            final(self).spec_dns_options() == Some(value),
            final(self).spec_name() == old(self).spec_name(),
            final(self).spec_span() == old(self).spec_span(),
            final(self).spec_hostname() == old(self).spec_hostname(),
            final(self).spec_container_name() == old(self).spec_container_name(),
            final(self).spec_image() == old(self).spec_image(),
            final(self).spec_command() == old(self).spec_command(),
            final(self).spec_init() == old(self).spec_init(),
            final(self).spec_stdin_open() == old(self).spec_stdin_open(),
            final(self).spec_tty() == old(self).spec_tty(),
            final(self).spec_privileged() == old(self).spec_privileged(),
            final(self).spec_environment() == old(self).spec_environment(),
            final(self).spec_environment_files() == old(self).spec_environment_files(),
            final(self).spec_labels() == old(self).spec_labels(),
            final(self).spec_annotations() == old(self).spec_annotations(),
            final(self).spec_extra_hosts() == old(self).spec_extra_hosts(),
            final(self).spec_user() == old(self).spec_user(),
            final(self).spec_userns_mode() == old(self).spec_userns_mode(),
            final(self).spec_group_add() == old(self).spec_group_add(),
            final(self).spec_cap_add() == old(self).spec_cap_add(),
            final(self).spec_cap_drop() == old(self).spec_cap_drop(),
            final(self).spec_devices() == old(self).spec_devices(),
            final(self).spec_dns() == old(self).spec_dns(),
            final(self).spec_dns_search() == old(self).spec_dns_search(),
            final(self).spec_expose() == old(self).spec_expose(),
            final(self).spec_working_dir() == old(self).spec_working_dir(),
            final(self).spec_read_only() == old(self).spec_read_only(),
            final(self).spec_pids_limit() == old(self).spec_pids_limit(),
            final(self).spec_mem_limit() == old(self).spec_mem_limit(),
            final(self).spec_logging() == old(self).spec_logging(),
            final(self).spec_pull_policy() == old(self).spec_pull_policy(),
            final(self).spec_restart() == old(self).spec_restart(),
            final(self).spec_stop_signal() == old(self).spec_stop_signal(),
            final(self).spec_stop_grace_period() == old(self).spec_stop_grace_period(),
            final(self).spec_depends_on() == old(self).spec_depends_on(),
            final(self).spec_healthcheck() == old(self).spec_healthcheck(),
            final(self).spec_ports() == old(self).spec_ports(),
            final(self).spec_networks() == old(self).spec_networks(),
            final(self).spec_profiles() == old(self).spec_profiles(),
            final(self).spec_configs() == old(self).spec_configs(),
            final(self).spec_secrets() == old(self).spec_secrets(),
            final(self).spec_extension_fields() == old(self).spec_extension_fields(),
            final(self).spec_unknown_fields() == old(self).spec_unknown_fields(),
    {
        self.dns_options = Some(value);
    }

    /// Sets the `dns_search` field.
    pub fn set_dns_search(&mut self, value: DnsSearch)
        ensures
            final(self).spec_dns_search() == Some(value),
            final(self).spec_name() == old(self).spec_name(),
            final(self).spec_span() == old(self).spec_span(),
            final(self).spec_hostname() == old(self).spec_hostname(),
            final(self).spec_container_name() == old(self).spec_container_name(),
            final(self).spec_image() == old(self).spec_image(),
            final(self).spec_command() == old(self).spec_command(),
            final(self).spec_init() == old(self).spec_init(),
            final(self).spec_stdin_open() == old(self).spec_stdin_open(),
            final(self).spec_tty() == old(self).spec_tty(),
            final(self).spec_privileged() == old(self).spec_privileged(),
            final(self).spec_environment() == old(self).spec_environment(),
            final(self).spec_environment_files() == old(self).spec_environment_files(),
            final(self).spec_labels() == old(self).spec_labels(),
            final(self).spec_annotations() == old(self).spec_annotations(),
            final(self).spec_extra_hosts() == old(self).spec_extra_hosts(),
            final(self).spec_user() == old(self).spec_user(),
            final(self).spec_userns_mode() == old(self).spec_userns_mode(),
            final(self).spec_group_add() == old(self).spec_group_add(),
            final(self).spec_cap_add() == old(self).spec_cap_add(),
            final(self).spec_cap_drop() == old(self).spec_cap_drop(),
            final(self).spec_devices() == old(self).spec_devices(),
            final(self).spec_dns() == old(self).spec_dns(),
            final(self).spec_dns_options() == old(self).spec_dns_options(),
            final(self).spec_expose() == old(self).spec_expose(),
            final(self).spec_working_dir() == old(self).spec_working_dir(),
            final(self).spec_read_only() == old(self).spec_read_only(),
            final(self).spec_pids_limit() == old(self).spec_pids_limit(),
            final(self).spec_mem_limit() == old(self).spec_mem_limit(),
            final(self).spec_logging() == old(self).spec_logging(),
            final(self).spec_pull_policy() == old(self).spec_pull_policy(),
            final(self).spec_restart() == old(self).spec_restart(),
            final(self).spec_stop_signal() == old(self).spec_stop_signal(),
            final(self).spec_stop_grace_period() == old(self).spec_stop_grace_period(),
            final(self).spec_depends_on() == old(self).spec_depends_on(),
            final(self).spec_healthcheck() == old(self).spec_healthcheck(),
            final(self).spec_ports() == old(self).spec_ports(),
            final(self).spec_networks() == old(self).spec_networks(),
            final(self).spec_profiles() == old(self).spec_profiles(),
            final(self).spec_configs() == old(self).spec_configs(),
            final(self).spec_secrets() == old(self).spec_secrets(),
            final(self).spec_extension_fields() == old(self).spec_extension_fields(),
            final(self).spec_unknown_fields() == old(self).spec_unknown_fields(),
    {
        self.dns_search = Some(value);
    }

    /// Sets the `expose` field.
    pub fn set_expose(&mut self, value: Expose)
        ensures
            final(self).spec_expose() == Some(value),
            final(self).spec_name() == old(self).spec_name(),
            final(self).spec_span() == old(self).spec_span(),
            final(self).spec_hostname() == old(self).spec_hostname(),
            final(self).spec_container_name() == old(self).spec_container_name(),
            final(self).spec_image() == old(self).spec_image(),
            final(self).spec_command() == old(self).spec_command(),
            final(self).spec_init() == old(self).spec_init(),
            final(self).spec_stdin_open() == old(self).spec_stdin_open(),
            final(self).spec_tty() == old(self).spec_tty(),
            final(self).spec_privileged() == old(self).spec_privileged(),
            final(self).spec_environment() == old(self).spec_environment(),
            final(self).spec_environment_files() == old(self).spec_environment_files(),
            final(self).spec_labels() == old(self).spec_labels(),
            final(self).spec_annotations() == old(self).spec_annotations(),
            final(self).spec_extra_hosts() == old(self).spec_extra_hosts(),
            final(self).spec_user() == old(self).spec_user(),
            final(self).spec_userns_mode() == old(self).spec_userns_mode(),
            final(self).spec_group_add() == old(self).spec_group_add(),
            final(self).spec_cap_add() == old(self).spec_cap_add(),
            final(self).spec_cap_drop() == old(self).spec_cap_drop(),
            final(self).spec_devices() == old(self).spec_devices(),
            final(self).spec_dns() == old(self).spec_dns(),
            final(self).spec_dns_options() == old(self).spec_dns_options(),
            final(self).spec_dns_search() == old(self).spec_dns_search(),
            final(self).spec_working_dir() == old(self).spec_working_dir(),
            final(self).spec_read_only() == old(self).spec_read_only(),
            final(self).spec_pids_limit() == old(self).spec_pids_limit(),
            final(self).spec_mem_limit() == old(self).spec_mem_limit(),
            final(self).spec_logging() == old(self).spec_logging(),
            final(self).spec_pull_policy() == old(self).spec_pull_policy(),
            final(self).spec_restart() == old(self).spec_restart(),
            final(self).spec_stop_signal() == old(self).spec_stop_signal(),
            final(self).spec_stop_grace_period() == old(self).spec_stop_grace_period(),
            final(self).spec_depends_on() == old(self).spec_depends_on(),
            final(self).spec_healthcheck() == old(self).spec_healthcheck(),
            final(self).spec_ports() == old(self).spec_ports(),
            final(self).spec_networks() == old(self).spec_networks(),
            final(self).spec_profiles() == old(self).spec_profiles(),
            final(self).spec_configs() == old(self).spec_configs(),
            final(self).spec_secrets() == old(self).spec_secrets(),
            final(self).spec_extension_fields() == old(self).spec_extension_fields(),
            final(self).spec_unknown_fields() == old(self).spec_unknown_fields(),
    {
        self.expose = Some(value);
    }

    /// Sets the `working_dir` field.
    pub fn set_working_dir(&mut self, value: Located<String>)
        ensures
            final(self).spec_working_dir() == Some(value),
            final(self).spec_name() == old(self).spec_name(),
            final(self).spec_span() == old(self).spec_span(),
            final(self).spec_hostname() == old(self).spec_hostname(),
            final(self).spec_container_name() == old(self).spec_container_name(),
            final(self).spec_image() == old(self).spec_image(),
            final(self).spec_command() == old(self).spec_command(),
            final(self).spec_init() == old(self).spec_init(),
            final(self).spec_stdin_open() == old(self).spec_stdin_open(),
            final(self).spec_tty() == old(self).spec_tty(),
            final(self).spec_privileged() == old(self).spec_privileged(),
            final(self).spec_environment() == old(self).spec_environment(),
            final(self).spec_environment_files() == old(self).spec_environment_files(),
            final(self).spec_labels() == old(self).spec_labels(),
            final(self).spec_annotations() == old(self).spec_annotations(),
            final(self).spec_extra_hosts() == old(self).spec_extra_hosts(),
            final(self).spec_user() == old(self).spec_user(),
            final(self).spec_userns_mode() == old(self).spec_userns_mode(),
            final(self).spec_group_add() == old(self).spec_group_add(),
            final(self).spec_cap_add() == old(self).spec_cap_add(),
            final(self).spec_cap_drop() == old(self).spec_cap_drop(),
            final(self).spec_devices() == old(self).spec_devices(),
            final(self).spec_dns() == old(self).spec_dns(),
            final(self).spec_dns_options() == old(self).spec_dns_options(),
            final(self).spec_dns_search() == old(self).spec_dns_search(),
            final(self).spec_expose() == old(self).spec_expose(),
            final(self).spec_read_only() == old(self).spec_read_only(),
            final(self).spec_pids_limit() == old(self).spec_pids_limit(),
            final(self).spec_mem_limit() == old(self).spec_mem_limit(),
            final(self).spec_logging() == old(self).spec_logging(),
            final(self).spec_pull_policy() == old(self).spec_pull_policy(),
            final(self).spec_restart() == old(self).spec_restart(),
            final(self).spec_stop_signal() == old(self).spec_stop_signal(),
            final(self).spec_stop_grace_period() == old(self).spec_stop_grace_period(),
            final(self).spec_depends_on() == old(self).spec_depends_on(),
            final(self).spec_healthcheck() == old(self).spec_healthcheck(),
            final(self).spec_ports() == old(self).spec_ports(),
            final(self).spec_networks() == old(self).spec_networks(),
            final(self).spec_profiles() == old(self).spec_profiles(),
            final(self).spec_configs() == old(self).spec_configs(),
            final(self).spec_secrets() == old(self).spec_secrets(),
            final(self).spec_extension_fields() == old(self).spec_extension_fields(),
            final(self).spec_unknown_fields() == old(self).spec_unknown_fields(),
    {
        self.working_dir = Some(value);
    }

    /// Sets the `read_only` field.
    pub fn set_read_only(&mut self, value: Located<BooleanValue>)
        ensures
            final(self).spec_read_only() == Some(value),
            final(self).spec_name() == old(self).spec_name(),
            final(self).spec_span() == old(self).spec_span(),
            final(self).spec_hostname() == old(self).spec_hostname(),
            final(self).spec_container_name() == old(self).spec_container_name(),
            final(self).spec_image() == old(self).spec_image(),
            final(self).spec_command() == old(self).spec_command(),
            final(self).spec_init() == old(self).spec_init(),
            final(self).spec_stdin_open() == old(self).spec_stdin_open(),
            final(self).spec_tty() == old(self).spec_tty(),
            final(self).spec_privileged() == old(self).spec_privileged(),
            final(self).spec_environment() == old(self).spec_environment(),
            final(self).spec_environment_files() == old(self).spec_environment_files(),
            final(self).spec_labels() == old(self).spec_labels(),
            final(self).spec_annotations() == old(self).spec_annotations(),
            final(self).spec_extra_hosts() == old(self).spec_extra_hosts(),
            final(self).spec_user() == old(self).spec_user(),
            final(self).spec_userns_mode() == old(self).spec_userns_mode(),
            final(self).spec_group_add() == old(self).spec_group_add(),
            final(self).spec_cap_add() == old(self).spec_cap_add(),
            final(self).spec_cap_drop() == old(self).spec_cap_drop(),
            final(self).spec_devices() == old(self).spec_devices(),
            final(self).spec_dns() == old(self).spec_dns(),
            final(self).spec_dns_options() == old(self).spec_dns_options(),
            final(self).spec_dns_search() == old(self).spec_dns_search(),
            final(self).spec_expose() == old(self).spec_expose(),
            final(self).spec_working_dir() == old(self).spec_working_dir(),
            final(self).spec_pids_limit() == old(self).spec_pids_limit(),
            final(self).spec_mem_limit() == old(self).spec_mem_limit(),
            final(self).spec_logging() == old(self).spec_logging(),
            final(self).spec_pull_policy() == old(self).spec_pull_policy(),
            final(self).spec_restart() == old(self).spec_restart(),
            final(self).spec_stop_signal() == old(self).spec_stop_signal(),
            final(self).spec_stop_grace_period() == old(self).spec_stop_grace_period(),
            final(self).spec_depends_on() == old(self).spec_depends_on(),
            final(self).spec_healthcheck() == old(self).spec_healthcheck(),
            final(self).spec_ports() == old(self).spec_ports(),
            final(self).spec_networks() == old(self).spec_networks(),
            final(self).spec_profiles() == old(self).spec_profiles(),
            final(self).spec_configs() == old(self).spec_configs(),
            final(self).spec_secrets() == old(self).spec_secrets(),
            final(self).spec_extension_fields() == old(self).spec_extension_fields(),
            final(self).spec_unknown_fields() == old(self).spec_unknown_fields(),
    {
        self.read_only = Some(value);
    }

    /// Sets the `pids_limit` field.
    pub fn set_pids_limit(&mut self, value: PidsLimit)
        ensures
            final(self).spec_pids_limit() == Some(value),
            final(self).spec_name() == old(self).spec_name(),
            final(self).spec_span() == old(self).spec_span(),
            final(self).spec_hostname() == old(self).spec_hostname(),
            final(self).spec_container_name() == old(self).spec_container_name(),
            final(self).spec_image() == old(self).spec_image(),
            final(self).spec_command() == old(self).spec_command(),
            final(self).spec_init() == old(self).spec_init(),
            final(self).spec_stdin_open() == old(self).spec_stdin_open(),
            final(self).spec_tty() == old(self).spec_tty(),
            final(self).spec_privileged() == old(self).spec_privileged(),
            final(self).spec_environment() == old(self).spec_environment(),
            final(self).spec_environment_files() == old(self).spec_environment_files(),
            final(self).spec_labels() == old(self).spec_labels(),
            final(self).spec_annotations() == old(self).spec_annotations(),
            final(self).spec_extra_hosts() == old(self).spec_extra_hosts(),
            final(self).spec_user() == old(self).spec_user(),
            final(self).spec_userns_mode() == old(self).spec_userns_mode(),
            final(self).spec_group_add() == old(self).spec_group_add(),
            final(self).spec_cap_add() == old(self).spec_cap_add(),
            final(self).spec_cap_drop() == old(self).spec_cap_drop(),
            final(self).spec_devices() == old(self).spec_devices(),
            final(self).spec_dns() == old(self).spec_dns(),
            final(self).spec_dns_options() == old(self).spec_dns_options(),
            final(self).spec_dns_search() == old(self).spec_dns_search(),
            final(self).spec_expose() == old(self).spec_expose(),
            final(self).spec_working_dir() == old(self).spec_working_dir(),
            final(self).spec_read_only() == old(self).spec_read_only(),
            final(self).spec_mem_limit() == old(self).spec_mem_limit(),
            final(self).spec_logging() == old(self).spec_logging(),
            final(self).spec_pull_policy() == old(self).spec_pull_policy(),
            final(self).spec_restart() == old(self).spec_restart(),
            final(self).spec_stop_signal() == old(self).spec_stop_signal(),
            final(self).spec_stop_grace_period() == old(self).spec_stop_grace_period(),
            final(self).spec_depends_on() == old(self).spec_depends_on(),
            final(self).spec_healthcheck() == old(self).spec_healthcheck(),
            final(self).spec_ports() == old(self).spec_ports(),
            final(self).spec_networks() == old(self).spec_networks(),
            final(self).spec_profiles() == old(self).spec_profiles(),
            final(self).spec_configs() == old(self).spec_configs(),
            final(self).spec_secrets() == old(self).spec_secrets(),
            final(self).spec_extension_fields() == old(self).spec_extension_fields(),
            final(self).spec_unknown_fields() == old(self).spec_unknown_fields(),
    {
        self.pids_limit = Some(value);
    }

    /// Sets the `mem_limit` field.
    pub fn set_mem_limit(&mut self, value: MemLimit)
        ensures
            final(self).spec_mem_limit() == Some(value),
            final(self).spec_name() == old(self).spec_name(),
            final(self).spec_span() == old(self).spec_span(),
            final(self).spec_hostname() == old(self).spec_hostname(),
            final(self).spec_container_name() == old(self).spec_container_name(),
            final(self).spec_image() == old(self).spec_image(),
            final(self).spec_command() == old(self).spec_command(),
            final(self).spec_init() == old(self).spec_init(),
            final(self).spec_stdin_open() == old(self).spec_stdin_open(),
            final(self).spec_tty() == old(self).spec_tty(),
            final(self).spec_privileged() == old(self).spec_privileged(),
            final(self).spec_environment() == old(self).spec_environment(),
            final(self).spec_environment_files() == old(self).spec_environment_files(),
            final(self).spec_labels() == old(self).spec_labels(),
            final(self).spec_annotations() == old(self).spec_annotations(),
            final(self).spec_extra_hosts() == old(self).spec_extra_hosts(),
            final(self).spec_user() == old(self).spec_user(),
            final(self).spec_userns_mode() == old(self).spec_userns_mode(),
            final(self).spec_group_add() == old(self).spec_group_add(),
            final(self).spec_cap_add() == old(self).spec_cap_add(),
            final(self).spec_cap_drop() == old(self).spec_cap_drop(),
            final(self).spec_devices() == old(self).spec_devices(),
            final(self).spec_dns() == old(self).spec_dns(),
            final(self).spec_dns_options() == old(self).spec_dns_options(),
            final(self).spec_dns_search() == old(self).spec_dns_search(),
            final(self).spec_expose() == old(self).spec_expose(),
            final(self).spec_working_dir() == old(self).spec_working_dir(),
            final(self).spec_read_only() == old(self).spec_read_only(),
            final(self).spec_pids_limit() == old(self).spec_pids_limit(),
            final(self).spec_logging() == old(self).spec_logging(),
            final(self).spec_pull_policy() == old(self).spec_pull_policy(),
            final(self).spec_restart() == old(self).spec_restart(),
            final(self).spec_stop_signal() == old(self).spec_stop_signal(),
            final(self).spec_stop_grace_period() == old(self).spec_stop_grace_period(),
            final(self).spec_depends_on() == old(self).spec_depends_on(),
            final(self).spec_healthcheck() == old(self).spec_healthcheck(),
            final(self).spec_ports() == old(self).spec_ports(),
            final(self).spec_networks() == old(self).spec_networks(),
            final(self).spec_profiles() == old(self).spec_profiles(),
            final(self).spec_configs() == old(self).spec_configs(),
            final(self).spec_secrets() == old(self).spec_secrets(),
            final(self).spec_extension_fields() == old(self).spec_extension_fields(),
            final(self).spec_unknown_fields() == old(self).spec_unknown_fields(),
    {
        self.mem_limit = Some(value);
    }

    /// Sets the `logging` field.
    pub fn set_logging(&mut self, value: Logging)
        ensures
            final(self).spec_logging() == Some(value),
            final(self).spec_name() == old(self).spec_name(),
            final(self).spec_span() == old(self).spec_span(),
            final(self).spec_hostname() == old(self).spec_hostname(),
            final(self).spec_container_name() == old(self).spec_container_name(),
            final(self).spec_image() == old(self).spec_image(),
            final(self).spec_command() == old(self).spec_command(),
            final(self).spec_init() == old(self).spec_init(),
            final(self).spec_stdin_open() == old(self).spec_stdin_open(),
            final(self).spec_tty() == old(self).spec_tty(),
            final(self).spec_privileged() == old(self).spec_privileged(),
            final(self).spec_environment() == old(self).spec_environment(),
            final(self).spec_environment_files() == old(self).spec_environment_files(),
            final(self).spec_labels() == old(self).spec_labels(),
            final(self).spec_annotations() == old(self).spec_annotations(),
            final(self).spec_extra_hosts() == old(self).spec_extra_hosts(),
            final(self).spec_user() == old(self).spec_user(),
            final(self).spec_userns_mode() == old(self).spec_userns_mode(),
            final(self).spec_group_add() == old(self).spec_group_add(),
            final(self).spec_cap_add() == old(self).spec_cap_add(),
            final(self).spec_cap_drop() == old(self).spec_cap_drop(),
            final(self).spec_devices() == old(self).spec_devices(),
            final(self).spec_dns() == old(self).spec_dns(),
            final(self).spec_dns_options() == old(self).spec_dns_options(),
            final(self).spec_dns_search() == old(self).spec_dns_search(),
            final(self).spec_expose() == old(self).spec_expose(),
            final(self).spec_working_dir() == old(self).spec_working_dir(),
            final(self).spec_read_only() == old(self).spec_read_only(),
            final(self).spec_pids_limit() == old(self).spec_pids_limit(),
            final(self).spec_mem_limit() == old(self).spec_mem_limit(),
            final(self).spec_pull_policy() == old(self).spec_pull_policy(),
            final(self).spec_restart() == old(self).spec_restart(),
            final(self).spec_stop_signal() == old(self).spec_stop_signal(),
            final(self).spec_stop_grace_period() == old(self).spec_stop_grace_period(),
            final(self).spec_depends_on() == old(self).spec_depends_on(),
            final(self).spec_healthcheck() == old(self).spec_healthcheck(),
            final(self).spec_ports() == old(self).spec_ports(),
            final(self).spec_networks() == old(self).spec_networks(),
            final(self).spec_profiles() == old(self).spec_profiles(),
            final(self).spec_configs() == old(self).spec_configs(),
            final(self).spec_secrets() == old(self).spec_secrets(),
            final(self).spec_extension_fields() == old(self).spec_extension_fields(),
            final(self).spec_unknown_fields() == old(self).spec_unknown_fields(),
    {
        self.logging = Some(value);
    }

    /// Sets the `pull_policy` field.
    pub fn set_pull_policy(&mut self, value: PullPolicy)
        ensures
            final(self).spec_pull_policy() == Some(value),
            final(self).spec_name() == old(self).spec_name(),
            final(self).spec_span() == old(self).spec_span(),
            final(self).spec_hostname() == old(self).spec_hostname(),
            final(self).spec_container_name() == old(self).spec_container_name(),
            final(self).spec_image() == old(self).spec_image(),
            final(self).spec_command() == old(self).spec_command(),
            final(self).spec_init() == old(self).spec_init(),
            final(self).spec_stdin_open() == old(self).spec_stdin_open(),
            final(self).spec_tty() == old(self).spec_tty(),
            final(self).spec_privileged() == old(self).spec_privileged(),
            final(self).spec_environment() == old(self).spec_environment(),
            final(self).spec_environment_files() == old(self).spec_environment_files(),
            final(self).spec_labels() == old(self).spec_labels(),
            final(self).spec_annotations() == old(self).spec_annotations(),
            final(self).spec_extra_hosts() == old(self).spec_extra_hosts(),
            final(self).spec_user() == old(self).spec_user(),
            final(self).spec_userns_mode() == old(self).spec_userns_mode(),
            final(self).spec_group_add() == old(self).spec_group_add(),
            final(self).spec_cap_add() == old(self).spec_cap_add(),
            final(self).spec_cap_drop() == old(self).spec_cap_drop(),
            final(self).spec_devices() == old(self).spec_devices(),
            final(self).spec_dns() == old(self).spec_dns(),
            final(self).spec_dns_options() == old(self).spec_dns_options(),
            final(self).spec_dns_search() == old(self).spec_dns_search(),
            final(self).spec_expose() == old(self).spec_expose(),
            final(self).spec_working_dir() == old(self).spec_working_dir(),
            final(self).spec_read_only() == old(self).spec_read_only(),
            final(self).spec_pids_limit() == old(self).spec_pids_limit(),
            final(self).spec_mem_limit() == old(self).spec_mem_limit(),
            final(self).spec_logging() == old(self).spec_logging(),
            final(self).spec_restart() == old(self).spec_restart(),
            final(self).spec_stop_signal() == old(self).spec_stop_signal(),
            final(self).spec_stop_grace_period() == old(self).spec_stop_grace_period(),
            final(self).spec_depends_on() == old(self).spec_depends_on(),
            final(self).spec_healthcheck() == old(self).spec_healthcheck(),
            final(self).spec_ports() == old(self).spec_ports(),
            final(self).spec_networks() == old(self).spec_networks(),
            final(self).spec_profiles() == old(self).spec_profiles(),
            final(self).spec_configs() == old(self).spec_configs(),
            final(self).spec_secrets() == old(self).spec_secrets(),
            final(self).spec_extension_fields() == old(self).spec_extension_fields(),
            final(self).spec_unknown_fields() == old(self).spec_unknown_fields(),
    {
        self.pull_policy = Some(value);
    }

    /// Sets the `restart` field.
    pub fn set_restart(&mut self, value: RestartPolicy)
        ensures
            final(self).spec_restart() == Some(value),
            final(self).spec_name() == old(self).spec_name(),
            final(self).spec_span() == old(self).spec_span(),
            final(self).spec_hostname() == old(self).spec_hostname(),
            final(self).spec_container_name() == old(self).spec_container_name(),
            final(self).spec_image() == old(self).spec_image(),
            final(self).spec_command() == old(self).spec_command(),
            final(self).spec_init() == old(self).spec_init(),
            final(self).spec_stdin_open() == old(self).spec_stdin_open(),
            final(self).spec_tty() == old(self).spec_tty(),
            final(self).spec_privileged() == old(self).spec_privileged(),
            final(self).spec_environment() == old(self).spec_environment(),
            final(self).spec_environment_files() == old(self).spec_environment_files(),
            final(self).spec_labels() == old(self).spec_labels(),
            final(self).spec_annotations() == old(self).spec_annotations(),
            final(self).spec_extra_hosts() == old(self).spec_extra_hosts(),
            final(self).spec_user() == old(self).spec_user(),
            final(self).spec_userns_mode() == old(self).spec_userns_mode(),
            final(self).spec_group_add() == old(self).spec_group_add(),
            final(self).spec_cap_add() == old(self).spec_cap_add(),
            final(self).spec_cap_drop() == old(self).spec_cap_drop(),
            final(self).spec_devices() == old(self).spec_devices(),
            final(self).spec_dns() == old(self).spec_dns(),
            final(self).spec_dns_options() == old(self).spec_dns_options(),
            final(self).spec_dns_search() == old(self).spec_dns_search(),
            final(self).spec_expose() == old(self).spec_expose(),
            final(self).spec_working_dir() == old(self).spec_working_dir(),
            final(self).spec_read_only() == old(self).spec_read_only(),
            final(self).spec_pids_limit() == old(self).spec_pids_limit(),
            final(self).spec_mem_limit() == old(self).spec_mem_limit(),
            final(self).spec_logging() == old(self).spec_logging(),
            final(self).spec_pull_policy() == old(self).spec_pull_policy(),
            final(self).spec_stop_signal() == old(self).spec_stop_signal(),
            final(self).spec_stop_grace_period() == old(self).spec_stop_grace_period(),
            final(self).spec_depends_on() == old(self).spec_depends_on(),
            final(self).spec_healthcheck() == old(self).spec_healthcheck(),
            final(self).spec_ports() == old(self).spec_ports(),
            final(self).spec_networks() == old(self).spec_networks(),
            final(self).spec_profiles() == old(self).spec_profiles(),
            final(self).spec_configs() == old(self).spec_configs(),
            final(self).spec_secrets() == old(self).spec_secrets(),
            final(self).spec_extension_fields() == old(self).spec_extension_fields(),
            final(self).spec_unknown_fields() == old(self).spec_unknown_fields(),
    {
        self.restart = Some(value);
    }

    /// Sets the `stop_signal` field.
    pub fn set_stop_signal(&mut self, value: Located<String>)
        ensures
            final(self).spec_stop_signal() == Some(value),
            final(self).spec_name() == old(self).spec_name(),
            final(self).spec_span() == old(self).spec_span(),
            final(self).spec_hostname() == old(self).spec_hostname(),
            final(self).spec_container_name() == old(self).spec_container_name(),
            final(self).spec_image() == old(self).spec_image(),
            final(self).spec_command() == old(self).spec_command(),
            final(self).spec_init() == old(self).spec_init(),
            final(self).spec_stdin_open() == old(self).spec_stdin_open(),
            final(self).spec_tty() == old(self).spec_tty(),
            final(self).spec_privileged() == old(self).spec_privileged(),
            final(self).spec_environment() == old(self).spec_environment(),
            final(self).spec_environment_files() == old(self).spec_environment_files(),
            final(self).spec_labels() == old(self).spec_labels(),
            final(self).spec_annotations() == old(self).spec_annotations(),
            final(self).spec_extra_hosts() == old(self).spec_extra_hosts(),
            final(self).spec_user() == old(self).spec_user(),
            final(self).spec_userns_mode() == old(self).spec_userns_mode(),
            final(self).spec_group_add() == old(self).spec_group_add(),
            final(self).spec_cap_add() == old(self).spec_cap_add(),
            final(self).spec_cap_drop() == old(self).spec_cap_drop(),
            final(self).spec_devices() == old(self).spec_devices(),
            final(self).spec_dns() == old(self).spec_dns(),
            final(self).spec_dns_options() == old(self).spec_dns_options(),
            final(self).spec_dns_search() == old(self).spec_dns_search(),
            final(self).spec_expose() == old(self).spec_expose(),
            final(self).spec_working_dir() == old(self).spec_working_dir(),
            final(self).spec_read_only() == old(self).spec_read_only(),
            final(self).spec_pids_limit() == old(self).spec_pids_limit(),
            final(self).spec_mem_limit() == old(self).spec_mem_limit(),
            final(self).spec_logging() == old(self).spec_logging(),
            final(self).spec_pull_policy() == old(self).spec_pull_policy(),
            final(self).spec_restart() == old(self).spec_restart(),
            final(self).spec_stop_grace_period() == old(self).spec_stop_grace_period(),
            final(self).spec_depends_on() == old(self).spec_depends_on(),
            final(self).spec_healthcheck() == old(self).spec_healthcheck(),
            final(self).spec_ports() == old(self).spec_ports(),
            final(self).spec_networks() == old(self).spec_networks(),
            final(self).spec_profiles() == old(self).spec_profiles(),
            final(self).spec_configs() == old(self).spec_configs(),
            final(self).spec_secrets() == old(self).spec_secrets(),
            final(self).spec_extension_fields() == old(self).spec_extension_fields(),
            final(self).spec_unknown_fields() == old(self).spec_unknown_fields(),
    {
        self.stop_signal = Some(value);
    }

    /// Sets the `stop_grace_period` field.
    pub fn set_stop_grace_period(&mut self, value: Located<StopGracePeriod>)
        ensures
            final(self).spec_stop_grace_period() == Some(value),
            final(self).spec_name() == old(self).spec_name(),
            final(self).spec_span() == old(self).spec_span(),
            final(self).spec_hostname() == old(self).spec_hostname(),
            final(self).spec_container_name() == old(self).spec_container_name(),
            final(self).spec_image() == old(self).spec_image(),
            final(self).spec_command() == old(self).spec_command(),
            final(self).spec_init() == old(self).spec_init(),
            final(self).spec_stdin_open() == old(self).spec_stdin_open(),
            final(self).spec_tty() == old(self).spec_tty(),
            final(self).spec_privileged() == old(self).spec_privileged(),
            final(self).spec_environment() == old(self).spec_environment(),
            final(self).spec_environment_files() == old(self).spec_environment_files(),
            final(self).spec_labels() == old(self).spec_labels(),
            final(self).spec_annotations() == old(self).spec_annotations(),
            final(self).spec_extra_hosts() == old(self).spec_extra_hosts(),
            final(self).spec_user() == old(self).spec_user(),
            final(self).spec_userns_mode() == old(self).spec_userns_mode(),
            final(self).spec_group_add() == old(self).spec_group_add(),
            final(self).spec_cap_add() == old(self).spec_cap_add(),
            final(self).spec_cap_drop() == old(self).spec_cap_drop(),
            final(self).spec_devices() == old(self).spec_devices(),
            final(self).spec_dns() == old(self).spec_dns(),
            final(self).spec_dns_options() == old(self).spec_dns_options(),
            final(self).spec_dns_search() == old(self).spec_dns_search(),
            final(self).spec_expose() == old(self).spec_expose(),
            final(self).spec_working_dir() == old(self).spec_working_dir(),
            final(self).spec_read_only() == old(self).spec_read_only(),
            final(self).spec_pids_limit() == old(self).spec_pids_limit(),
            final(self).spec_mem_limit() == old(self).spec_mem_limit(),
            final(self).spec_logging() == old(self).spec_logging(),
            final(self).spec_pull_policy() == old(self).spec_pull_policy(),
            final(self).spec_restart() == old(self).spec_restart(),
            final(self).spec_stop_signal() == old(self).spec_stop_signal(),
            final(self).spec_depends_on() == old(self).spec_depends_on(),
            final(self).spec_healthcheck() == old(self).spec_healthcheck(),
            final(self).spec_ports() == old(self).spec_ports(),
            final(self).spec_networks() == old(self).spec_networks(),
            final(self).spec_profiles() == old(self).spec_profiles(),
            final(self).spec_configs() == old(self).spec_configs(),
            final(self).spec_secrets() == old(self).spec_secrets(),
            final(self).spec_extension_fields() == old(self).spec_extension_fields(),
            final(self).spec_unknown_fields() == old(self).spec_unknown_fields(),
    {
        self.stop_grace_period = Some(value);
    }

    /// Sets the `depends_on` field.
    pub fn set_depends_on(&mut self, value: DependsOn)
        ensures
            final(self).spec_depends_on() == Some(value),
            final(self).spec_name() == old(self).spec_name(),
            final(self).spec_span() == old(self).spec_span(),
            final(self).spec_hostname() == old(self).spec_hostname(),
            final(self).spec_container_name() == old(self).spec_container_name(),
            final(self).spec_image() == old(self).spec_image(),
            final(self).spec_command() == old(self).spec_command(),
            final(self).spec_init() == old(self).spec_init(),
            final(self).spec_stdin_open() == old(self).spec_stdin_open(),
            final(self).spec_tty() == old(self).spec_tty(),
            final(self).spec_privileged() == old(self).spec_privileged(),
            final(self).spec_environment() == old(self).spec_environment(),
            final(self).spec_environment_files() == old(self).spec_environment_files(),
            final(self).spec_labels() == old(self).spec_labels(),
            final(self).spec_annotations() == old(self).spec_annotations(),
            final(self).spec_extra_hosts() == old(self).spec_extra_hosts(),
            final(self).spec_user() == old(self).spec_user(),
            final(self).spec_userns_mode() == old(self).spec_userns_mode(),
            final(self).spec_group_add() == old(self).spec_group_add(),
            final(self).spec_cap_add() == old(self).spec_cap_add(),
            final(self).spec_cap_drop() == old(self).spec_cap_drop(),
            final(self).spec_devices() == old(self).spec_devices(),
            final(self).spec_dns() == old(self).spec_dns(),
            final(self).spec_dns_options() == old(self).spec_dns_options(),
            final(self).spec_dns_search() == old(self).spec_dns_search(),
            final(self).spec_expose() == old(self).spec_expose(),
            final(self).spec_working_dir() == old(self).spec_working_dir(),
            final(self).spec_read_only() == old(self).spec_read_only(),
            final(self).spec_pids_limit() == old(self).spec_pids_limit(),
            final(self).spec_mem_limit() == old(self).spec_mem_limit(),
            final(self).spec_logging() == old(self).spec_logging(),
            final(self).spec_pull_policy() == old(self).spec_pull_policy(),
            final(self).spec_restart() == old(self).spec_restart(),
            final(self).spec_stop_signal() == old(self).spec_stop_signal(),
            final(self).spec_stop_grace_period() == old(self).spec_stop_grace_period(),
            final(self).spec_healthcheck() == old(self).spec_healthcheck(),
            final(self).spec_ports() == old(self).spec_ports(),
            final(self).spec_networks() == old(self).spec_networks(),
            final(self).spec_profiles() == old(self).spec_profiles(),
            final(self).spec_configs() == old(self).spec_configs(),
            final(self).spec_secrets() == old(self).spec_secrets(),
            final(self).spec_extension_fields() == old(self).spec_extension_fields(),
            final(self).spec_unknown_fields() == old(self).spec_unknown_fields(),
    {
        self.depends_on = Some(value);
    }

    /// Sets the `healthcheck` field.
    pub fn set_healthcheck(&mut self, value: Healthcheck)
        ensures
            final(self).spec_healthcheck() == Some(value),
            final(self).spec_name() == old(self).spec_name(),
            final(self).spec_span() == old(self).spec_span(),
            final(self).spec_hostname() == old(self).spec_hostname(),
            final(self).spec_container_name() == old(self).spec_container_name(),
            final(self).spec_image() == old(self).spec_image(),
            final(self).spec_command() == old(self).spec_command(),
            final(self).spec_init() == old(self).spec_init(),
            final(self).spec_stdin_open() == old(self).spec_stdin_open(),
            final(self).spec_tty() == old(self).spec_tty(),
            final(self).spec_privileged() == old(self).spec_privileged(),
            final(self).spec_environment() == old(self).spec_environment(),
            final(self).spec_environment_files() == old(self).spec_environment_files(),
            final(self).spec_labels() == old(self).spec_labels(),
            final(self).spec_annotations() == old(self).spec_annotations(),
            final(self).spec_extra_hosts() == old(self).spec_extra_hosts(),
            final(self).spec_user() == old(self).spec_user(),
            final(self).spec_userns_mode() == old(self).spec_userns_mode(),
            final(self).spec_group_add() == old(self).spec_group_add(),
            final(self).spec_cap_add() == old(self).spec_cap_add(),
            final(self).spec_cap_drop() == old(self).spec_cap_drop(),
            final(self).spec_devices() == old(self).spec_devices(),
            final(self).spec_dns() == old(self).spec_dns(),
            final(self).spec_dns_options() == old(self).spec_dns_options(),
            final(self).spec_dns_search() == old(self).spec_dns_search(),
            final(self).spec_expose() == old(self).spec_expose(),
            final(self).spec_working_dir() == old(self).spec_working_dir(),
            final(self).spec_read_only() == old(self).spec_read_only(),
            final(self).spec_pids_limit() == old(self).spec_pids_limit(),
            final(self).spec_mem_limit() == old(self).spec_mem_limit(),
            final(self).spec_logging() == old(self).spec_logging(),
            final(self).spec_pull_policy() == old(self).spec_pull_policy(),
            final(self).spec_restart() == old(self).spec_restart(),
            final(self).spec_stop_signal() == old(self).spec_stop_signal(),
            final(self).spec_stop_grace_period() == old(self).spec_stop_grace_period(),
            final(self).spec_depends_on() == old(self).spec_depends_on(),
            final(self).spec_ports() == old(self).spec_ports(),
            final(self).spec_networks() == old(self).spec_networks(),
            final(self).spec_profiles() == old(self).spec_profiles(),
            final(self).spec_configs() == old(self).spec_configs(),
            final(self).spec_secrets() == old(self).spec_secrets(),
            final(self).spec_extension_fields() == old(self).spec_extension_fields(),
            final(self).spec_unknown_fields() == old(self).spec_unknown_fields(),
    {
        self.healthcheck = Some(value);
    }

    /// Sets the `ports` field.
    pub fn set_ports(&mut self, value: Vec<Port>)
        ensures
            final(self).spec_ports() == value@,
            final(self).spec_name() == old(self).spec_name(),
            final(self).spec_span() == old(self).spec_span(),
            final(self).spec_hostname() == old(self).spec_hostname(),
            final(self).spec_container_name() == old(self).spec_container_name(),
            final(self).spec_image() == old(self).spec_image(),
            final(self).spec_command() == old(self).spec_command(),
            final(self).spec_init() == old(self).spec_init(),
            final(self).spec_stdin_open() == old(self).spec_stdin_open(),
            final(self).spec_tty() == old(self).spec_tty(),
            final(self).spec_privileged() == old(self).spec_privileged(),
            final(self).spec_environment() == old(self).spec_environment(),
            final(self).spec_environment_files() == old(self).spec_environment_files(),
            final(self).spec_labels() == old(self).spec_labels(),
            final(self).spec_annotations() == old(self).spec_annotations(),
            final(self).spec_extra_hosts() == old(self).spec_extra_hosts(),
            final(self).spec_user() == old(self).spec_user(),
            final(self).spec_userns_mode() == old(self).spec_userns_mode(),
            final(self).spec_group_add() == old(self).spec_group_add(),
            final(self).spec_cap_add() == old(self).spec_cap_add(),
            final(self).spec_cap_drop() == old(self).spec_cap_drop(),
            final(self).spec_devices() == old(self).spec_devices(),
            final(self).spec_dns() == old(self).spec_dns(),
            final(self).spec_dns_options() == old(self).spec_dns_options(),
            final(self).spec_dns_search() == old(self).spec_dns_search(),
            final(self).spec_expose() == old(self).spec_expose(),
            final(self).spec_working_dir() == old(self).spec_working_dir(),
            final(self).spec_read_only() == old(self).spec_read_only(),
            final(self).spec_pids_limit() == old(self).spec_pids_limit(),
            final(self).spec_mem_limit() == old(self).spec_mem_limit(),
            final(self).spec_logging() == old(self).spec_logging(),
            final(self).spec_pull_policy() == old(self).spec_pull_policy(),
            final(self).spec_restart() == old(self).spec_restart(),
            final(self).spec_stop_signal() == old(self).spec_stop_signal(),
            final(self).spec_stop_grace_period() == old(self).spec_stop_grace_period(),
            final(self).spec_depends_on() == old(self).spec_depends_on(),
            final(self).spec_healthcheck() == old(self).spec_healthcheck(),
            final(self).spec_networks() == old(self).spec_networks(),
            final(self).spec_profiles() == old(self).spec_profiles(),
            final(self).spec_configs() == old(self).spec_configs(),
            final(self).spec_secrets() == old(self).spec_secrets(),
            final(self).spec_extension_fields() == old(self).spec_extension_fields(),
            final(self).spec_unknown_fields() == old(self).spec_unknown_fields(),
    {
        self.ports = value;
    }

    /// Sets the `networks` field.
    pub fn set_networks(&mut self, value: ServiceNetworks)
        ensures
            final(self).spec_networks() == Some(value),
            final(self).spec_name() == old(self).spec_name(),
            final(self).spec_span() == old(self).spec_span(),
            final(self).spec_hostname() == old(self).spec_hostname(),
            final(self).spec_container_name() == old(self).spec_container_name(),
            final(self).spec_image() == old(self).spec_image(),
            final(self).spec_command() == old(self).spec_command(),
            final(self).spec_init() == old(self).spec_init(),
            final(self).spec_stdin_open() == old(self).spec_stdin_open(),
            final(self).spec_tty() == old(self).spec_tty(),
            final(self).spec_privileged() == old(self).spec_privileged(),
            final(self).spec_environment() == old(self).spec_environment(),
            final(self).spec_environment_files() == old(self).spec_environment_files(),
            final(self).spec_labels() == old(self).spec_labels(),
            final(self).spec_annotations() == old(self).spec_annotations(),
            final(self).spec_extra_hosts() == old(self).spec_extra_hosts(),
            final(self).spec_user() == old(self).spec_user(),
            final(self).spec_userns_mode() == old(self).spec_userns_mode(),
            final(self).spec_group_add() == old(self).spec_group_add(),
            final(self).spec_cap_add() == old(self).spec_cap_add(),
            final(self).spec_cap_drop() == old(self).spec_cap_drop(),
            final(self).spec_devices() == old(self).spec_devices(),
            final(self).spec_dns() == old(self).spec_dns(),
            final(self).spec_dns_options() == old(self).spec_dns_options(),
            final(self).spec_dns_search() == old(self).spec_dns_search(),
            final(self).spec_expose() == old(self).spec_expose(),
            final(self).spec_working_dir() == old(self).spec_working_dir(),
            final(self).spec_read_only() == old(self).spec_read_only(),
            final(self).spec_pids_limit() == old(self).spec_pids_limit(),
            final(self).spec_mem_limit() == old(self).spec_mem_limit(),
            final(self).spec_logging() == old(self).spec_logging(),
            final(self).spec_pull_policy() == old(self).spec_pull_policy(),
            final(self).spec_restart() == old(self).spec_restart(),
            final(self).spec_stop_signal() == old(self).spec_stop_signal(),
            final(self).spec_stop_grace_period() == old(self).spec_stop_grace_period(),
            final(self).spec_depends_on() == old(self).spec_depends_on(),
            final(self).spec_healthcheck() == old(self).spec_healthcheck(),
            final(self).spec_ports() == old(self).spec_ports(),
            final(self).spec_profiles() == old(self).spec_profiles(),
            final(self).spec_configs() == old(self).spec_configs(),
            final(self).spec_secrets() == old(self).spec_secrets(),
            final(self).spec_extension_fields() == old(self).spec_extension_fields(),
            final(self).spec_unknown_fields() == old(self).spec_unknown_fields(),
    {
        self.networks = Some(value);
    }

    /// Sets the `profiles` field.
    pub fn set_profiles(&mut self, value: Vec<Located<String>>)
        ensures
            final(self).spec_profiles() == value@,
            final(self).spec_name() == old(self).spec_name(),
            final(self).spec_span() == old(self).spec_span(),
            final(self).spec_hostname() == old(self).spec_hostname(),
            final(self).spec_container_name() == old(self).spec_container_name(),
            final(self).spec_image() == old(self).spec_image(),
            final(self).spec_command() == old(self).spec_command(),
            final(self).spec_init() == old(self).spec_init(),
            final(self).spec_stdin_open() == old(self).spec_stdin_open(),
            final(self).spec_tty() == old(self).spec_tty(),
            final(self).spec_privileged() == old(self).spec_privileged(),
            final(self).spec_environment() == old(self).spec_environment(),
            final(self).spec_environment_files() == old(self).spec_environment_files(),
            final(self).spec_labels() == old(self).spec_labels(),
            final(self).spec_annotations() == old(self).spec_annotations(),
            final(self).spec_extra_hosts() == old(self).spec_extra_hosts(),
            final(self).spec_user() == old(self).spec_user(),
            final(self).spec_userns_mode() == old(self).spec_userns_mode(),
            final(self).spec_group_add() == old(self).spec_group_add(),
            final(self).spec_cap_add() == old(self).spec_cap_add(),
            final(self).spec_cap_drop() == old(self).spec_cap_drop(),
            final(self).spec_devices() == old(self).spec_devices(),
            final(self).spec_dns() == old(self).spec_dns(),
            final(self).spec_dns_options() == old(self).spec_dns_options(),
            final(self).spec_dns_search() == old(self).spec_dns_search(),
            final(self).spec_expose() == old(self).spec_expose(),
            final(self).spec_working_dir() == old(self).spec_working_dir(),
            final(self).spec_read_only() == old(self).spec_read_only(),
            final(self).spec_pids_limit() == old(self).spec_pids_limit(),
            final(self).spec_mem_limit() == old(self).spec_mem_limit(),
            final(self).spec_logging() == old(self).spec_logging(),
            final(self).spec_pull_policy() == old(self).spec_pull_policy(),
            final(self).spec_restart() == old(self).spec_restart(),
            final(self).spec_stop_signal() == old(self).spec_stop_signal(),
            final(self).spec_stop_grace_period() == old(self).spec_stop_grace_period(),
            final(self).spec_depends_on() == old(self).spec_depends_on(),
            final(self).spec_healthcheck() == old(self).spec_healthcheck(),
            final(self).spec_ports() == old(self).spec_ports(),
            final(self).spec_networks() == old(self).spec_networks(),
            final(self).spec_configs() == old(self).spec_configs(),
            final(self).spec_secrets() == old(self).spec_secrets(),
            final(self).spec_extension_fields() == old(self).spec_extension_fields(),
            final(self).spec_unknown_fields() == old(self).spec_unknown_fields(),
    {
        self.profiles = value;
    }

    /// Sets the `configs` field.
    pub fn set_configs(&mut self, value: Vec<ConfigGrant>)
        ensures
            final(self).spec_configs() == value@,
            final(self).spec_name() == old(self).spec_name(),
            final(self).spec_span() == old(self).spec_span(),
            final(self).spec_hostname() == old(self).spec_hostname(),
            final(self).spec_container_name() == old(self).spec_container_name(),
            final(self).spec_image() == old(self).spec_image(),
            final(self).spec_command() == old(self).spec_command(),
            final(self).spec_init() == old(self).spec_init(),
            final(self).spec_stdin_open() == old(self).spec_stdin_open(),
            final(self).spec_tty() == old(self).spec_tty(),
            final(self).spec_privileged() == old(self).spec_privileged(),
            final(self).spec_environment() == old(self).spec_environment(),
            final(self).spec_environment_files() == old(self).spec_environment_files(),
            final(self).spec_labels() == old(self).spec_labels(),
            final(self).spec_annotations() == old(self).spec_annotations(),
            final(self).spec_extra_hosts() == old(self).spec_extra_hosts(),
            final(self).spec_user() == old(self).spec_user(),
            final(self).spec_userns_mode() == old(self).spec_userns_mode(),
            final(self).spec_group_add() == old(self).spec_group_add(),
            final(self).spec_cap_add() == old(self).spec_cap_add(),
            final(self).spec_cap_drop() == old(self).spec_cap_drop(),
            final(self).spec_devices() == old(self).spec_devices(),
            final(self).spec_dns() == old(self).spec_dns(),
            final(self).spec_dns_options() == old(self).spec_dns_options(),
            final(self).spec_dns_search() == old(self).spec_dns_search(),
            final(self).spec_expose() == old(self).spec_expose(),
            final(self).spec_working_dir() == old(self).spec_working_dir(),
            final(self).spec_read_only() == old(self).spec_read_only(),
            final(self).spec_pids_limit() == old(self).spec_pids_limit(),
            final(self).spec_mem_limit() == old(self).spec_mem_limit(),
            final(self).spec_logging() == old(self).spec_logging(),
            final(self).spec_pull_policy() == old(self).spec_pull_policy(),
            final(self).spec_restart() == old(self).spec_restart(),
            final(self).spec_stop_signal() == old(self).spec_stop_signal(),
            final(self).spec_stop_grace_period() == old(self).spec_stop_grace_period(),
            final(self).spec_depends_on() == old(self).spec_depends_on(),
            final(self).spec_healthcheck() == old(self).spec_healthcheck(),
            final(self).spec_ports() == old(self).spec_ports(),
            final(self).spec_networks() == old(self).spec_networks(),
            final(self).spec_profiles() == old(self).spec_profiles(),
            final(self).spec_secrets() == old(self).spec_secrets(),
            final(self).spec_extension_fields() == old(self).spec_extension_fields(),
            final(self).spec_unknown_fields() == old(self).spec_unknown_fields(),
    {
        self.configs = value;
    }

    /// Sets the `secrets` field.
    pub fn set_secrets(&mut self, value: Vec<SecretGrant>)
        ensures
            final(self).spec_secrets() == value@,
            final(self).spec_name() == old(self).spec_name(),
            final(self).spec_span() == old(self).spec_span(),
            final(self).spec_hostname() == old(self).spec_hostname(),
            final(self).spec_container_name() == old(self).spec_container_name(),
            final(self).spec_image() == old(self).spec_image(),
            final(self).spec_command() == old(self).spec_command(),
            final(self).spec_init() == old(self).spec_init(),
            final(self).spec_stdin_open() == old(self).spec_stdin_open(),
            final(self).spec_tty() == old(self).spec_tty(),
            final(self).spec_privileged() == old(self).spec_privileged(),
            final(self).spec_environment() == old(self).spec_environment(),
            final(self).spec_environment_files() == old(self).spec_environment_files(),
            final(self).spec_labels() == old(self).spec_labels(),
            final(self).spec_annotations() == old(self).spec_annotations(),
            final(self).spec_extra_hosts() == old(self).spec_extra_hosts(),
            final(self).spec_user() == old(self).spec_user(),
            final(self).spec_userns_mode() == old(self).spec_userns_mode(),
            final(self).spec_group_add() == old(self).spec_group_add(),
            final(self).spec_cap_add() == old(self).spec_cap_add(),
            final(self).spec_cap_drop() == old(self).spec_cap_drop(),
            final(self).spec_devices() == old(self).spec_devices(),
            final(self).spec_dns() == old(self).spec_dns(),
            final(self).spec_dns_options() == old(self).spec_dns_options(),
            final(self).spec_dns_search() == old(self).spec_dns_search(),
            final(self).spec_expose() == old(self).spec_expose(),
            final(self).spec_working_dir() == old(self).spec_working_dir(),
            final(self).spec_read_only() == old(self).spec_read_only(),
            final(self).spec_pids_limit() == old(self).spec_pids_limit(),
            final(self).spec_mem_limit() == old(self).spec_mem_limit(),
            final(self).spec_logging() == old(self).spec_logging(),
            final(self).spec_pull_policy() == old(self).spec_pull_policy(),
            final(self).spec_restart() == old(self).spec_restart(),
            final(self).spec_stop_signal() == old(self).spec_stop_signal(),
            final(self).spec_stop_grace_period() == old(self).spec_stop_grace_period(),
            final(self).spec_depends_on() == old(self).spec_depends_on(),
            final(self).spec_healthcheck() == old(self).spec_healthcheck(),
            final(self).spec_ports() == old(self).spec_ports(),
            final(self).spec_networks() == old(self).spec_networks(),
            final(self).spec_profiles() == old(self).spec_profiles(),
            final(self).spec_configs() == old(self).spec_configs(),
            final(self).spec_extension_fields() == old(self).spec_extension_fields(),
            final(self).spec_unknown_fields() == old(self).spec_unknown_fields(),
    {
        self.secrets = value;
    }

    /// Appends to the `extension_fields` list.
    pub fn push_extension(&mut self, value: FieldReference)
        ensures
            final(self).spec_extension_fields() == old(self).spec_extension_fields().push(value),
            final(self).spec_name() == old(self).spec_name(),
            final(self).spec_span() == old(self).spec_span(),
            final(self).spec_hostname() == old(self).spec_hostname(),
            final(self).spec_container_name() == old(self).spec_container_name(),
            final(self).spec_image() == old(self).spec_image(),
            final(self).spec_command() == old(self).spec_command(),
            final(self).spec_init() == old(self).spec_init(),
            final(self).spec_stdin_open() == old(self).spec_stdin_open(),
            final(self).spec_tty() == old(self).spec_tty(),
            final(self).spec_privileged() == old(self).spec_privileged(),
            final(self).spec_environment() == old(self).spec_environment(),
            final(self).spec_environment_files() == old(self).spec_environment_files(),
            final(self).spec_labels() == old(self).spec_labels(),
            final(self).spec_annotations() == old(self).spec_annotations(),
            final(self).spec_extra_hosts() == old(self).spec_extra_hosts(),
            final(self).spec_user() == old(self).spec_user(),
            final(self).spec_userns_mode() == old(self).spec_userns_mode(),
            final(self).spec_group_add() == old(self).spec_group_add(),
            final(self).spec_cap_add() == old(self).spec_cap_add(),
            final(self).spec_cap_drop() == old(self).spec_cap_drop(),
            final(self).spec_devices() == old(self).spec_devices(),
            final(self).spec_dns() == old(self).spec_dns(),
            final(self).spec_dns_options() == old(self).spec_dns_options(),
            final(self).spec_dns_search() == old(self).spec_dns_search(),
            final(self).spec_expose() == old(self).spec_expose(),
            final(self).spec_working_dir() == old(self).spec_working_dir(),
            final(self).spec_read_only() == old(self).spec_read_only(),
            final(self).spec_pids_limit() == old(self).spec_pids_limit(),
            final(self).spec_mem_limit() == old(self).spec_mem_limit(),
            final(self).spec_logging() == old(self).spec_logging(),
            final(self).spec_pull_policy() == old(self).spec_pull_policy(),
            final(self).spec_restart() == old(self).spec_restart(),
            final(self).spec_stop_signal() == old(self).spec_stop_signal(),
            final(self).spec_stop_grace_period() == old(self).spec_stop_grace_period(),
            final(self).spec_depends_on() == old(self).spec_depends_on(),
            final(self).spec_healthcheck() == old(self).spec_healthcheck(),
            final(self).spec_ports() == old(self).spec_ports(),
            final(self).spec_networks() == old(self).spec_networks(),
            final(self).spec_profiles() == old(self).spec_profiles(),
            final(self).spec_configs() == old(self).spec_configs(),
            final(self).spec_secrets() == old(self).spec_secrets(),
            final(self).spec_unknown_fields() == old(self).spec_unknown_fields(),
    {
        self.extension_fields.push(value);
    }

    /// Appends to the `unknown_fields` list.
    pub fn push_unknown(&mut self, value: FieldReference)
        ensures
            final(self).spec_unknown_fields() == old(self).spec_unknown_fields().push(value),
            final(self).spec_name() == old(self).spec_name(),
            final(self).spec_span() == old(self).spec_span(),
            final(self).spec_hostname() == old(self).spec_hostname(),
            final(self).spec_container_name() == old(self).spec_container_name(),
            final(self).spec_image() == old(self).spec_image(),
            final(self).spec_command() == old(self).spec_command(),
            final(self).spec_init() == old(self).spec_init(),
            final(self).spec_stdin_open() == old(self).spec_stdin_open(),
            final(self).spec_tty() == old(self).spec_tty(),
            final(self).spec_privileged() == old(self).spec_privileged(),
            final(self).spec_environment() == old(self).spec_environment(),
            final(self).spec_environment_files() == old(self).spec_environment_files(),
            final(self).spec_labels() == old(self).spec_labels(),
            final(self).spec_annotations() == old(self).spec_annotations(),
            final(self).spec_extra_hosts() == old(self).spec_extra_hosts(),
            final(self).spec_user() == old(self).spec_user(),
            final(self).spec_userns_mode() == old(self).spec_userns_mode(),
            final(self).spec_group_add() == old(self).spec_group_add(),
            final(self).spec_cap_add() == old(self).spec_cap_add(),
            final(self).spec_cap_drop() == old(self).spec_cap_drop(),
            final(self).spec_devices() == old(self).spec_devices(),
            final(self).spec_dns() == old(self).spec_dns(),
            final(self).spec_dns_options() == old(self).spec_dns_options(),
            final(self).spec_dns_search() == old(self).spec_dns_search(),
            final(self).spec_expose() == old(self).spec_expose(),
            final(self).spec_working_dir() == old(self).spec_working_dir(),
            final(self).spec_read_only() == old(self).spec_read_only(),
            final(self).spec_pids_limit() == old(self).spec_pids_limit(),
            final(self).spec_mem_limit() == old(self).spec_mem_limit(),
            final(self).spec_logging() == old(self).spec_logging(),
            final(self).spec_pull_policy() == old(self).spec_pull_policy(),
            final(self).spec_restart() == old(self).spec_restart(),
            final(self).spec_stop_signal() == old(self).spec_stop_signal(),
            final(self).spec_stop_grace_period() == old(self).spec_stop_grace_period(),
            final(self).spec_depends_on() == old(self).spec_depends_on(),
            final(self).spec_healthcheck() == old(self).spec_healthcheck(),
            final(self).spec_ports() == old(self).spec_ports(),
            final(self).spec_networks() == old(self).spec_networks(),
            final(self).spec_profiles() == old(self).spec_profiles(),
            final(self).spec_configs() == old(self).spec_configs(),
            final(self).spec_secrets() == old(self).spec_secrets(),
            final(self).spec_extension_fields() == old(self).spec_extension_fields(),
    {
        self.unknown_fields.push(value);
    }

    /// Returns the service name.
    pub fn name(&self) -> (r: &Located<String>)
        ensures
            *r == self.spec_name(),
    {
        &self.name
    }

    /// Returns the source span.
    pub fn span(&self) -> (r: SourceSpan)
        ensures
            r == self.spec_span(),
    {
        self.span
    }

    /// Returns the `hostname` field.
    pub fn hostname(&self) -> (r: Option<&Hostname>)
        ensures
            r is Some <==> self.spec_hostname() is Some,
            r matches Some(v) ==> *v == self.spec_hostname()->0,
    {
        self.hostname.as_ref()
    }

    /// Returns the `container_name` field.
    pub fn container_name(&self) -> (r: Option<&Located<String>>)
        ensures
            r is Some <==> self.spec_container_name() is Some,
            r matches Some(v) ==> *v == self.spec_container_name()->0,
    {
        self.container_name.as_ref()
    }

    /// Returns the `image` reference.
    pub fn image(&self) -> (r: Option<&Located<ImageReference>>)
        ensures
            r is Some <==> self.spec_image() is Some,
            r matches Some(v) ==> *v == self.spec_image()->0,
    {
        self.image.as_ref()
    }

    /// Returns the `command` field.
    pub fn command(&self) -> (r: Option<&Command>)
        ensures
            r is Some <==> self.spec_command() is Some,
            r matches Some(v) ==> *v == self.spec_command()->0,
    {
        self.command.as_ref()
    }

    /// Returns the `init` flag.
    pub fn init(&self) -> (r: Option<&Located<BooleanValue>>)
        ensures
            r is Some <==> self.spec_init() is Some,
            r matches Some(v) ==> *v == self.spec_init()->0,
    {
        self.init.as_ref()
    }

    /// Returns the `stdin_open` flag.
    pub fn stdin_open(&self) -> (r: Option<&Located<BooleanValue>>)
        ensures
            r is Some <==> self.spec_stdin_open() is Some,
            r matches Some(v) ==> *v == self.spec_stdin_open()->0,
    {
        self.stdin_open.as_ref()
    }

    /// Returns the `tty` flag.
    pub fn tty(&self) -> (r: Option<&Located<BooleanValue>>)
        ensures
            r is Some <==> self.spec_tty() is Some,
            r matches Some(v) ==> *v == self.spec_tty()->0,
    {
        self.tty.as_ref()
    }

    /// Returns the `privileged` flag.
    pub fn privileged(&self) -> (r: Option<&Located<BooleanValue>>)
        ensures
            r is Some <==> self.spec_privileged() is Some,
            r matches Some(v) ==> *v == self.spec_privileged()->0,
    {
        self.privileged.as_ref()
    }

    /// Returns the `environment` field.
    pub fn environment(&self) -> (r: Option<&Environment>)
        ensures
            r is Some <==> self.spec_environment() is Some,
            r matches Some(v) ==> *v == self.spec_environment()->0,
    {
        self.environment.as_ref()
    }

    /// Returns the `env_file` entries.
    pub fn environment_files(&self) -> (r: &[EnvironmentFile])
        ensures
            r@ == self.spec_environment_files(),
    {
        self.environment_files.as_slice()
    }

    /// Returns the `labels` field.
    pub fn labels(&self) -> (r: Option<&Labels>)
        ensures
            r is Some <==> self.spec_labels() is Some,
            r matches Some(v) ==> *v == self.spec_labels()->0,
    {
        self.labels.as_ref()
    }

    /// Returns the `annotations` field.
    pub fn annotations(&self) -> (r: Option<&Annotations>)
        ensures
            r is Some <==> self.spec_annotations() is Some,
            r matches Some(v) ==> *v == self.spec_annotations()->0,
    {
        self.annotations.as_ref()
    }

    /// Returns the `extra_hosts` field.
    pub fn extra_hosts(&self) -> (r: Option<&ExtraHosts>)
        ensures
            r is Some <==> self.spec_extra_hosts() is Some,
            r matches Some(v) ==> *v == self.spec_extra_hosts()->0,
    {
        self.extra_hosts.as_ref()
    }

    /// Returns the `user` field.
    pub fn user(&self) -> (r: Option<&UserSpec>)
        ensures
            r is Some <==> self.spec_user() is Some,
            r matches Some(v) ==> *v == self.spec_user()->0,
    {
        self.user.as_ref()
    }

    /// Returns the `userns_mode` field.
    pub fn userns_mode(&self) -> (r: Option<&UserNamespaceMode>)
        ensures
            r is Some <==> self.spec_userns_mode() is Some,
            r matches Some(v) ==> *v == self.spec_userns_mode()->0,
    {
        self.userns_mode.as_ref()
    }

    /// Returns the `group_add` entries.
    pub fn group_add(&self) -> (r: &[Located<String>])
        ensures
            r@ == self.spec_group_add(),
    {
        self.group_add.as_slice()
    }

    /// Returns the `cap_add` field.
    pub fn cap_add(&self) -> (r: Option<&CapabilityAdd>)
        ensures
            r is Some <==> self.spec_cap_add() is Some,
            r matches Some(v) ==> *v == self.spec_cap_add()->0,
    {
        self.cap_add.as_ref()
    }

    /// Returns the `cap_drop` field.
    pub fn cap_drop(&self) -> (r: Option<&CapabilityDrop>)
        ensures
            r is Some <==> self.spec_cap_drop() is Some,
            r matches Some(v) ==> *v == self.spec_cap_drop()->0,
    {
        self.cap_drop.as_ref()
    }

    /// Returns the `devices` field.
    pub fn devices(&self) -> (r: Option<&Devices>)
        ensures
            r is Some <==> self.spec_devices() is Some,
            r matches Some(v) ==> *v == self.spec_devices()->0,
    {
        self.devices.as_ref()
    }

    /// Returns the `dns` field.
    pub fn dns(&self) -> (r: Option<&Dns>)
        ensures
            r is Some <==> self.spec_dns() is Some,
            r matches Some(v) ==> *v == self.spec_dns()->0,
    {
        self.dns.as_ref()
    }

    /// Returns the `dns_opt` field.
    pub fn dns_options(&self) -> (r: Option<&DnsOptions>)
        ensures
            r is Some <==> self.spec_dns_options() is Some,
            r matches Some(v) ==> *v == self.spec_dns_options()->0,
    {
        self.dns_options.as_ref()
    }

    /// Returns the `dns_search` field.
    pub fn dns_search(&self) -> (r: Option<&DnsSearch>)
        ensures
            r is Some <==> self.spec_dns_search() is Some,
            r matches Some(v) ==> *v == self.spec_dns_search()->0,
    {
        self.dns_search.as_ref()
    }

    /// Returns the `expose` field.
    pub fn expose(&self) -> (r: Option<&Expose>)
        ensures
            r is Some <==> self.spec_expose() is Some,
            r matches Some(v) ==> *v == self.spec_expose()->0,
    {
        self.expose.as_ref()
    }

    /// Returns the `working_dir` field.
    pub fn working_dir(&self) -> (r: Option<&Located<String>>)
        ensures
            r is Some <==> self.spec_working_dir() is Some,
            r matches Some(v) ==> *v == self.spec_working_dir()->0,
    {
        self.working_dir.as_ref()
    }

    /// Returns the `read_only` flag.
    pub fn read_only(&self) -> (r: Option<&Located<BooleanValue>>)
        ensures
            r is Some <==> self.spec_read_only() is Some,
            r matches Some(v) ==> *v == self.spec_read_only()->0,
    {
        self.read_only.as_ref()
    }

    /// Returns the `pids_limit` field.
    pub fn pids_limit(&self) -> (r: Option<&PidsLimit>)
        ensures
            r is Some <==> self.spec_pids_limit() is Some,
            r matches Some(v) ==> *v == self.spec_pids_limit()->0,
    {
        self.pids_limit.as_ref()
    }

    /// Returns the `mem_limit` field.
    pub fn mem_limit(&self) -> (r: Option<&MemLimit>)
        ensures
            r is Some <==> self.spec_mem_limit() is Some,
            r matches Some(v) ==> *v == self.spec_mem_limit()->0,
    {
        self.mem_limit.as_ref()
    }

    /// Returns the `logging` field.
    pub fn logging(&self) -> (r: Option<&Logging>)
        ensures
            r is Some <==> self.spec_logging() is Some,
            r matches Some(v) ==> *v == self.spec_logging()->0,
    {
        self.logging.as_ref()
    }

    /// Returns the `pull_policy` field.
    pub fn pull_policy(&self) -> (r: Option<&PullPolicy>)
        ensures
            r is Some <==> self.spec_pull_policy() is Some,
            r matches Some(v) ==> *v == self.spec_pull_policy()->0,
    {
        self.pull_policy.as_ref()
    }

    /// Returns the `restart` field.
    pub fn restart(&self) -> (r: Option<&RestartPolicy>)
        ensures
            r is Some <==> self.spec_restart() is Some,
            r matches Some(v) ==> *v == self.spec_restart()->0,
    {
        self.restart.as_ref()
    }

    /// Returns the `stop_signal` field.
    pub fn stop_signal(&self) -> (r: Option<&Located<String>>)
        ensures
            r is Some <==> self.spec_stop_signal() is Some,
            r matches Some(v) ==> *v == self.spec_stop_signal()->0,
    {
        self.stop_signal.as_ref()
    }

    /// Returns the `stop_grace_period` field.
    pub fn stop_grace_period(&self) -> (r: Option<&Located<StopGracePeriod>>)
        ensures
            r is Some <==> self.spec_stop_grace_period() is Some,
            r matches Some(v) ==> *v == self.spec_stop_grace_period()->0,
    {
        self.stop_grace_period.as_ref()
    }

    /// Returns the `depends_on` field.
    pub fn depends_on(&self) -> (r: Option<&DependsOn>)
        ensures
            r is Some <==> self.spec_depends_on() is Some,
            r matches Some(v) ==> *v == self.spec_depends_on()->0,
    {
        self.depends_on.as_ref()
    }

    /// Returns the `healthcheck` field.
    pub fn healthcheck(&self) -> (r: Option<&Healthcheck>)
        ensures
            r is Some <==> self.spec_healthcheck() is Some,
            r matches Some(v) ==> *v == self.spec_healthcheck()->0,
    {
        self.healthcheck.as_ref()
    }

    /// Returns the `ports` entries.
    pub fn ports(&self) -> (r: &[Port])
        ensures
            r@ == self.spec_ports(),
    {
        self.ports.as_slice()
    }

    /// Returns the `networks` field.
    pub fn networks(&self) -> (r: Option<&ServiceNetworks>)
        ensures
            r is Some <==> self.spec_networks() is Some,
            r matches Some(v) ==> *v == self.spec_networks()->0,
    {
        self.networks.as_ref()
    }

    /// Returns the `profiles` entries.
    pub fn profiles(&self) -> (r: &[Located<String>])
        ensures
            r@ == self.spec_profiles(),
    {
        self.profiles.as_slice()
    }

    /// Returns the `configs` grants.
    pub fn configs(&self) -> (r: &[ConfigGrant])
        ensures
            r@ == self.spec_configs(),
    {
        self.configs.as_slice()
    }

    /// Returns the `secrets` grants.
    pub fn secrets(&self) -> (r: &[SecretGrant])
        ensures
            r@ == self.spec_secrets(),
    {
        self.secrets.as_slice()
    }

    /// Returns the `x-` extension fields in source order.
    pub fn extension_fields(&self) -> (r: &[FieldReference])
        ensures
            r@ == self.spec_extension_fields(),
    {
        self.extension_fields.as_slice()
    }

    /// Returns the unknown fields in source order.
    pub fn unknown_fields(&self) -> (r: &[FieldReference])
        ensures
            r@ == self.spec_unknown_fields(),
    {
        self.unknown_fields.as_slice()
    }
}

/// A source-aware native Compose document.
#[derive(Debug, Clone, PartialEq, Eq)]
pub struct ComposeDocument {
    source_id: SourceId,
    span: SourceSpan,
    name: Option<Located<String>>,
    services: Vec<Service>,
    networks: Vec<NetworkDefinition>,
    volumes: Vec<VolumeDefinition>,
    configs: Vec<ConfigDefinition>,
    secrets: Vec<SecretDefinition>,
    extension_fields: Vec<FieldReference>,
    unknown_fields: Vec<FieldReference>,
}

impl ComposeDocument {
    /// The source identifier.
    pub closed spec fn spec_source_id(&self) -> SourceId {
        self.source_id
    }

    /// The source span.
    pub closed spec fn spec_span(&self) -> SourceSpan {
        self.span
    }

    /// The explicitly authored project name.
    pub closed spec fn spec_name(&self) -> Option<Located<String>> {
        self.name
    }

    /// The services in authored order.
    pub closed spec fn spec_services(&self) -> Seq<Service> {
        self.services@
    }

    /// The top-level network definitions in authored order.
    pub closed spec fn spec_networks(&self) -> Seq<NetworkDefinition> {
        self.networks@
    }

    /// The top-level volume definitions in authored order.
    pub closed spec fn spec_volumes(&self) -> Seq<VolumeDefinition> {
        self.volumes@
    }

    /// The top-level config definitions in authored order.
    pub closed spec fn spec_configs(&self) -> Seq<ConfigDefinition> {
        self.configs@
    }

    /// The top-level secret definitions in authored order.
    pub closed spec fn spec_secrets(&self) -> Seq<SecretDefinition> {
        self.secrets@
    }

    /// The `x-` extension fields in source order.
    pub closed spec fn spec_extension_fields(&self) -> Seq<FieldReference> {
        self.extension_fields@
    }

    /// The unknown fields in source order.
    pub closed spec fn spec_unknown_fields(&self) -> Seq<FieldReference> {
        self.unknown_fields@
    }

    /// Creates a `ComposeDocument` with no optional fields set.
    pub fn new(source_id: SourceId, span: SourceSpan) -> (r: Self)
        ensures
            r.spec_source_id() == source_id,
            r.spec_span() == span,
            r.spec_name() is None,
            r.spec_services().len() == 0,
            r.spec_networks().len() == 0,
            r.spec_volumes().len() == 0,
            r.spec_configs().len() == 0,
            r.spec_secrets().len() == 0,
            r.spec_extension_fields().len() == 0,
            r.spec_unknown_fields().len() == 0,
    {
        Self {
            source_id,
            span,
            name: None,
            services: Vec::new(),
            networks: Vec::new(),
            volumes: Vec::new(),
            configs: Vec::new(),
            secrets: Vec::new(),
            extension_fields: Vec::new(),
            unknown_fields: Vec::new(),
        }
    }

    /// Sets the `name` field.
    pub fn set_name(&mut self, value: Located<String>)
        ensures
            final(self).spec_name() == Some(value),
            final(self).spec_source_id() == old(self).spec_source_id(),
            final(self).spec_span() == old(self).spec_span(),
            final(self).spec_services() == old(self).spec_services(),
            final(self).spec_networks() == old(self).spec_networks(),
            final(self).spec_volumes() == old(self).spec_volumes(),
            final(self).spec_configs() == old(self).spec_configs(),
            final(self).spec_secrets() == old(self).spec_secrets(),
            final(self).spec_extension_fields() == old(self).spec_extension_fields(),
            final(self).spec_unknown_fields() == old(self).spec_unknown_fields(),
    {
        self.name = Some(value);
    }

    /// Appends to the `services` list.
    pub fn push_service(&mut self, value: Service)
        ensures
            final(self).spec_services() == old(self).spec_services().push(value),
            final(self).spec_source_id() == old(self).spec_source_id(),
            final(self).spec_span() == old(self).spec_span(),
            final(self).spec_name() == old(self).spec_name(),
            final(self).spec_networks() == old(self).spec_networks(),
            final(self).spec_volumes() == old(self).spec_volumes(),
            final(self).spec_configs() == old(self).spec_configs(),
            final(self).spec_secrets() == old(self).spec_secrets(),
            final(self).spec_extension_fields() == old(self).spec_extension_fields(),
            final(self).spec_unknown_fields() == old(self).spec_unknown_fields(),
    {
        self.services.push(value);
    }

    /// Appends to the `networks` list.
    pub fn push_network(&mut self, value: NetworkDefinition)
        ensures
            final(self).spec_networks() == old(self).spec_networks().push(value),
            final(self).spec_source_id() == old(self).spec_source_id(),
            final(self).spec_span() == old(self).spec_span(),
            final(self).spec_name() == old(self).spec_name(),
            final(self).spec_services() == old(self).spec_services(),
            final(self).spec_volumes() == old(self).spec_volumes(),
            final(self).spec_configs() == old(self).spec_configs(),
            final(self).spec_secrets() == old(self).spec_secrets(),
            final(self).spec_extension_fields() == old(self).spec_extension_fields(),
            final(self).spec_unknown_fields() == old(self).spec_unknown_fields(),
    {
        self.networks.push(value);
    }

    /// Appends to the `volumes` list.
    pub fn push_volume(&mut self, value: VolumeDefinition)
        ensures
            final(self).spec_volumes() == old(self).spec_volumes().push(value),
            final(self).spec_source_id() == old(self).spec_source_id(),
            final(self).spec_span() == old(self).spec_span(),
            final(self).spec_name() == old(self).spec_name(),
            final(self).spec_services() == old(self).spec_services(),
            final(self).spec_networks() == old(self).spec_networks(),
            final(self).spec_configs() == old(self).spec_configs(),
            final(self).spec_secrets() == old(self).spec_secrets(),
            final(self).spec_extension_fields() == old(self).spec_extension_fields(),
            final(self).spec_unknown_fields() == old(self).spec_unknown_fields(),
    {
        self.volumes.push(value);
    }

    /// Appends to the `configs` list.
    pub fn push_config(&mut self, value: ConfigDefinition)
        ensures
            final(self).spec_configs() == old(self).spec_configs().push(value),
            final(self).spec_source_id() == old(self).spec_source_id(),
            final(self).spec_span() == old(self).spec_span(),
            final(self).spec_name() == old(self).spec_name(),
            final(self).spec_services() == old(self).spec_services(),
            final(self).spec_networks() == old(self).spec_networks(),
            final(self).spec_volumes() == old(self).spec_volumes(),
            final(self).spec_secrets() == old(self).spec_secrets(),
            final(self).spec_extension_fields() == old(self).spec_extension_fields(),
            final(self).spec_unknown_fields() == old(self).spec_unknown_fields(),
    {
        self.configs.push(value);
    }

    /// Appends to the `secrets` list.
    pub fn push_secret(&mut self, value: SecretDefinition)
        ensures
            final(self).spec_secrets() == old(self).spec_secrets().push(value),
            final(self).spec_source_id() == old(self).spec_source_id(),
            final(self).spec_span() == old(self).spec_span(),
            final(self).spec_name() == old(self).spec_name(),
            final(self).spec_services() == old(self).spec_services(),
            final(self).spec_networks() == old(self).spec_networks(),
            final(self).spec_volumes() == old(self).spec_volumes(),
            final(self).spec_configs() == old(self).spec_configs(),
            final(self).spec_extension_fields() == old(self).spec_extension_fields(),
            final(self).spec_unknown_fields() == old(self).spec_unknown_fields(),
    {
        self.secrets.push(value);
    }

    /// Appends to the `extension_fields` list.
    pub fn push_extension(&mut self, value: FieldReference)
        ensures
            final(self).spec_extension_fields() == old(self).spec_extension_fields().push(value),
            final(self).spec_source_id() == old(self).spec_source_id(),
            final(self).spec_span() == old(self).spec_span(),
            final(self).spec_name() == old(self).spec_name(),
            final(self).spec_services() == old(self).spec_services(),
            final(self).spec_networks() == old(self).spec_networks(),
            final(self).spec_volumes() == old(self).spec_volumes(),
            final(self).spec_configs() == old(self).spec_configs(),
            final(self).spec_secrets() == old(self).spec_secrets(),
            final(self).spec_unknown_fields() == old(self).spec_unknown_fields(),
    {
        self.extension_fields.push(value);
    }

    /// Appends to the `unknown_fields` list.
    pub fn push_unknown(&mut self, value: FieldReference)
        ensures
            final(self).spec_unknown_fields() == old(self).spec_unknown_fields().push(value),
            final(self).spec_source_id() == old(self).spec_source_id(),
            final(self).spec_span() == old(self).spec_span(),
            final(self).spec_name() == old(self).spec_name(),
            final(self).spec_services() == old(self).spec_services(),
            final(self).spec_networks() == old(self).spec_networks(),
            final(self).spec_volumes() == old(self).spec_volumes(),
            final(self).spec_configs() == old(self).spec_configs(),
            final(self).spec_secrets() == old(self).spec_secrets(),
            final(self).spec_extension_fields() == old(self).spec_extension_fields(),
    {
        self.unknown_fields.push(value);
    }

    /// Returns the source identifier.
    pub fn source_id(&self) -> (r: SourceId)
        ensures
            r == self.spec_source_id(),
    {
        self.source_id
    }

    /// Returns the source span.
    pub fn span(&self) -> (r: SourceSpan)
        ensures
            r == self.spec_span(),
    {
        self.span
    }

    /// Returns the explicitly authored project name.
    pub fn name(&self) -> (r: Option<&Located<String>>)
        ensures
            r is Some <==> self.spec_name() is Some,
            r matches Some(v) ==> *v == self.spec_name()->0,
    {
        self.name.as_ref()
    }

    /// Returns the services in authored order.
    pub fn services(&self) -> (r: &[Service])
        ensures
            r@ == self.spec_services(),
    {
        self.services.as_slice()
    }

    /// Returns the top-level network definitions in authored order.
    pub fn networks(&self) -> (r: &[NetworkDefinition])
        ensures
            r@ == self.spec_networks(),
    {
        self.networks.as_slice()
    }

    /// Returns the top-level volume definitions in authored order.
    pub fn volumes(&self) -> (r: &[VolumeDefinition])
        ensures
            r@ == self.spec_volumes(),
    {
        self.volumes.as_slice()
    }

    /// Returns the top-level config definitions in authored order.
    pub fn configs(&self) -> (r: &[ConfigDefinition])
        ensures
            r@ == self.spec_configs(),
    {
        self.configs.as_slice()
    }

    /// Returns the top-level secret definitions in authored order.
    pub fn secrets(&self) -> (r: &[SecretDefinition])
        ensures
            r@ == self.spec_secrets(),
    {
        self.secrets.as_slice()
    }

    /// Returns the `x-` extension fields in source order.
    pub fn extension_fields(&self) -> (r: &[FieldReference])
        ensures
            r@ == self.spec_extension_fields(),
    {
        self.extension_fields.as_slice()
    }

    /// Returns the unknown fields in source order.
    pub fn unknown_fields(&self) -> (r: &[FieldReference])
        ensures
            r@ == self.spec_unknown_fields(),
    {
        self.unknown_fields.as_slice()
    }

    /// Finds the first service with the requested name.
    pub fn service(&self, name: &str) -> (r: Option<&Service>)
        ensures
            r is None <==> first_service(self.spec_services(), name@) == -1,
            r matches Some(s) ==> *s == self.spec_services()[first_service(self.spec_services(), name@)],
    {
        proof {
            lemma_first_service(self.services@, name@, 0);
        }
        let mut i: usize = 0;
        while i < self.services.len()
            invariant
                0 <= i <= self.services@.len(),
                first_service(self.services@, name@) == first_service_from(self.services@, name@, i as int),
            decreases self.services@.len() - i,
        {
            if str_eq(self.services[i].name.value().as_str(), name) {
                return Some(&self.services[i]);
            }
            i += 1;
        }
        None
    }

    /// Validates dependency targets and `service_healthy` health-check requirements in this
    /// document: one diagnostic per problem that [`document_issues`] lists, in that order.
    pub fn validate_dependencies(&self) -> (r: Vec<Diagnostic>)
        ensures
            reports_dependencies(r@, document_issues(self.spec_services(), self.spec_services())),
    {
        let mut diagnostics: Vec<Diagnostic> = Vec::new();
        let mut i: usize = 0;
        let ghost all = self.services@;
        while i < self.services.len()
            invariant
                0 <= i <= all.len(),
                all == self.services@,
                reports_dependencies(diagnostics@, document_issues(all, all.subrange(0, i as int))),
            decreases all.len() - i,
        {
            let service = &self.services[i];
            let ghost before = diagnostics@;
            match service.depends_on() {
                None => {},
                Some(DependsOn::Short { services, .. }) => {
                    let mut j: usize = 0;
                    while j < services.len()
                        invariant
                            0 <= j <= services@.len(),
                            all == self.services@,
                            reports_dependencies(
                                diagnostics@,
                                document_issues(all, all.subrange(0, i as int)) + short_issues(all, services@.subrange(0, j as int)),
                            ),
                        decreases services@.len() - j,
                    {
                        let target = &services[j];
                        let ghost prior = diagnostics@;
                        proof {
                            assert(services@.subrange(0, j + 1).drop_last() =~= services@.subrange(0, j as int));
                        }
                        if self.service(target.value().as_str()).is_none() {
                            diagnostics.push(missing_dependency_diagnostic(target.span(), false, true));
                            proof {
                                lemma_reports_push(prior, document_issues(all, all.subrange(0, i as int)) + short_issues(all, services@.subrange(0, j as int)), diagnostics@.last(), DependencyIssue::MissingService { span: target.spec_span(), required: true });
                            }
                        }
                        proof {
                            assert(document_issues(all, all.subrange(0, i as int)) + short_issues(all, services@.subrange(0, j + 1))
                                =~= document_issues(all, all.subrange(0, i as int)) + short_issues(all, services@.subrange(0, j as int))
                                + short_issue(all, services@[j as int]));
                        }
                        j += 1;
                    }
                    assert(services@.subrange(0, services@.len() as int) =~= services@);
                },
                Some(DependsOn::Long { services, .. }) => {
                    let mut j: usize = 0;
                    while j < services.len()
                        invariant
                            0 <= j <= services@.len(),
                            all == self.services@,
                            reports_dependencies(
                                diagnostics@,
                                document_issues(all, all.subrange(0, i as int)) + long_issues(all, services@.subrange(0, j as int)),
                            ),
                        decreases services@.len() - j,
                    {
                        let dependency = &services[j];
                        let ghost prior = diagnostics@;
                        let ghost base = document_issues(all, all.subrange(0, i as int)) + long_issues(all, services@.subrange(0, j as int));
                        proof {
                            assert(services@.subrange(0, j + 1).drop_last() =~= services@.subrange(0, j as int));
                        }
                        let required = match dependency.required() {
                            Some(r) => match r.value() {
                                BooleanValue::Literal(b) => *b,
                                BooleanValue::Expression(_) => true,
                            },
                            None => true,
                        };
                        let found = self.service(dependency.service().value().as_str());
                        let condition_span = match dependency.condition() {
                            Some(c) => c.span(),
                            None => dependency.service().span(),
                        };
                        let needs_healthcheck = match dependency.condition() {
                            Some(c) => match c.value() {
                                DependencyCondition::ServiceHealthy => true,
                                _ => false,
                            },
                            None => false,
                        };
                        match found {
                            None => {
                                diagnostics.push(missing_dependency_diagnostic(dependency.service().span(), false, required));
                                proof {
                                    lemma_reports_push(prior, base, diagnostics@.last(), DependencyIssue::MissingService { span: dependency.spec_service().spec_span(), required });
                                }
                            },
                            Some(target) => {
                                if needs_healthcheck && target.healthcheck().is_none() {
                                    diagnostics.push(unverified_healthcheck_diagnostic(condition_span));
                                    proof {
                                        lemma_reports_push(prior, base, diagnostics@.last(), DependencyIssue::HealthcheckUnverified { span: condition_span });
                                    }
                                } else if needs_healthcheck && match target.healthcheck() {
                                    Some(h) => h.is_disabled(),
                                    None => false,
                                } {
                                    diagnostics.push(missing_dependency_diagnostic(condition_span, true, required));
                                    proof {
                                        lemma_reports_push(prior, base, diagnostics@.last(), DependencyIssue::MissingHealthcheck { span: condition_span, required });
                                    }
                                }
                            },
                        }
                        proof {
                            assert(document_issues(all, all.subrange(0, i as int)) + long_issues(all, services@.subrange(0, j + 1))
                                =~= base + long_issue(all, services@[j as int]));
                        }
                        j += 1;
                    }
                    assert(services@.subrange(0, services@.len() as int) =~= services@);
                },
            }
            proof {
                assert(all.subrange(0, i + 1).drop_last() =~= all.subrange(0, i as int));
                assert(document_issues(all, all.subrange(0, i + 1)) =~= document_issues(all, all.subrange(0, i as int)) + service_issues(all, all[i as int]));
            }
            i += 1;
        }
        assert(all.subrange(0, all.len() as int) =~= all);
        diagnostics
    }
}

/// A recoverable typed-model parse result.
#[derive(Debug, Clone, PartialEq, Eq)]
pub struct ModelParse {
    document: Option<ComposeDocument>,
    diagnostics: Vec<Diagnostic>,
}

impl ModelParse {
    /// The typed document when the root could be interpreted.
    pub closed spec fn spec_document(&self) -> Option<ComposeDocument> {
        self.document
    }

    /// The structural typed-model diagnostics in source order.
    pub closed spec fn spec_diagnostics(&self) -> Seq<Diagnostic> {
        self.diagnostics@
    }

    /// Creates a `ModelParse`.
    pub fn new(document: Option<ComposeDocument>, diagnostics: Vec<Diagnostic>) -> (r: Self)
        ensures
            r.spec_document() == document,
            r.spec_diagnostics() == diagnostics@,
    {
        Self {
            document,
            diagnostics,
        }
    }

    /// Returns the typed document when the root could be interpreted.
    pub fn document(&self) -> (r: Option<&ComposeDocument>)
        ensures
            r is Some <==> self.spec_document() is Some,
            r matches Some(v) ==> *v == self.spec_document()->0,
    {
        self.document.as_ref()
    }

    /// Returns the structural typed-model diagnostics in source order.
    pub fn diagnostics(&self) -> (r: &[Diagnostic])
        ensures
            r@ == self.spec_diagnostics(),
    {
        self.diagnostics.as_slice()
    }

    /// Reports whether no error diagnostics were emitted.
    pub fn is_valid(&self) -> (r: bool)
        ensures
            r == !has_error(self.spec_diagnostics()),
    {
        !any_error(self.diagnostics.as_slice())
    }

    /// Separates the recovered document and diagnostics.
    pub fn into_parts(self) -> (r: (Option<ComposeDocument>, Vec<Diagnostic>))
        ensures
            r.0 == self.spec_document(),
            r.1@ == self.spec_diagnostics(),
    {
        (self.document, self.diagnostics)
    }
}

/// A problem with a service dependency.
pub enum DependencyIssue {
    /// The named service is not declared in the document.
    MissingService {
        /// The span of the dependency name.
        span: SourceSpan,
        /// Whether the dependency is required.
        required: bool,
    },
    /// A `service_healthy` dependency names a service whose health check is disabled.
    MissingHealthcheck {
        /// The span of the condition, or of the dependency name.
        span: SourceSpan,
        /// Whether the dependency is required.
        required: bool,
    },
    /// A `service_healthy` dependency names a service with no Compose health check.
    HealthcheckUnverified {
        /// The span of the condition, or of the dependency name.
        span: SourceSpan,
    },
}

/// The index of the first service at or after `i` named `name`, or `-1`.
pub open spec fn first_service_from(services: Seq<Service>, name: Seq<char>, i: int) -> int
    decreases services.len() - i,
{
    if i < 0 || i >= services.len() {
        -1
    } else if lc(services[i].spec_name()) == name {
        i
    } else {
        first_service_from(services, name, i + 1)
    }
}

/// The index of the first service named `name`, or `-1`.
pub open spec fn first_service(services: Seq<Service>, name: Seq<char>) -> int {
    first_service_from(services, name, 0)
}

/// What `first_service_from` returns.
pub proof fn lemma_first_service(services: Seq<Service>, name: Seq<char>, i: int)
    requires
        0 <= i <= services.len(),
    ensures
        first_service_from(services, name, i) == -1 <==> forall|j: int|
            i <= j < services.len() ==> lc(#[trigger] services[j].spec_name()) != name,
        first_service_from(services, name, i) != -1 ==> i <= first_service_from(services, name, i) < services.len()
            && lc(services[first_service_from(services, name, i)].spec_name()) == name,
    decreases services.len() - i,
{
    if i < services.len() {
        lemma_first_service(services, name, i + 1);
    }
}

/// A dependency is required unless `required: false` says otherwise.
pub open spec fn dependency_required(d: ServiceDependency) -> bool {
    !(d.spec_required() matches Some(r) && r.spec_value() == BooleanValue::Literal(false))
}

/// The span that reports a dependency's health-check problem: its condition's, or its name's.
pub open spec fn condition_span(d: ServiceDependency) -> SourceSpan {
    match d.spec_condition() {
        Some(c) => c.spec_span(),
        None => d.spec_service().spec_span(),
    }
}

/// The problem with one short-form dependency target, if any.
pub open spec fn short_issue(services: Seq<Service>, target: Located<String>) -> Seq<DependencyIssue> {
    if first_service(services, lc(target)) == -1 {
        seq![DependencyIssue::MissingService { span: target.spec_span(), required: true }]
    } else {
        seq![]
    }
}

/// The problems with short-form dependency targets, in order.
pub open spec fn short_issues(services: Seq<Service>, targets: Seq<Located<String>>) -> Seq<DependencyIssue>
    decreases targets.len(),
{
    if targets.len() == 0 {
        seq![]
    } else {
        short_issues(services, targets.drop_last()) + short_issue(services, targets.last())
    }
}

/// The problem with one long-form dependency, if any.
pub open spec fn long_issue(services: Seq<Service>, d: ServiceDependency) -> Seq<DependencyIssue> {
    let k = first_service(services, lc(d.spec_service()));
    let needs = d.spec_condition() matches Some(c) && c.spec_value() == DependencyCondition::ServiceHealthy;
    if k == -1 {
        seq![DependencyIssue::MissingService { span: d.spec_service().spec_span(), required: dependency_required(d) }]
    } else if needs && services[k].spec_healthcheck() is None {
        seq![DependencyIssue::HealthcheckUnverified { span: condition_span(d) }]
    } else if needs && services[k].spec_healthcheck()->0.spec_is_disabled() {
        seq![DependencyIssue::MissingHealthcheck { span: condition_span(d), required: dependency_required(d) }]
    } else {
        seq![]
    }
}

/// A `service_healthy` dependency on a declared service that has a health check is reported
/// exactly when that health check is disabled, whether by `disable: true` or by a test list that
/// starts with `NONE`: then as a missing health check on the condition, an error unless the
/// dependency is optional; otherwise nothing is reported for it.
pub proof fn law_service_healthy_needs_enabled_healthcheck(services: Seq<Service>, d: ServiceDependency, k: int)
    requires
        0 <= k < services.len(),
        lc(services[k].spec_name()) == lc(d.spec_service()),
        forall|j: int| 0 <= j < k ==> lc(#[trigger] services[j].spec_name()) != lc(d.spec_service()),
        d.spec_condition() matches Some(c) && c.spec_value() == DependencyCondition::ServiceHealthy,
        services[k].spec_healthcheck() is Some,
    ensures
        ({
            let h = services[k].spec_healthcheck()->0;
            let disabled = (h.spec_disable() matches Some(x) && x.spec_value() == BooleanValue::Literal(true)) || (
            h.spec_test() matches Some(t) && t.spec_kind() == Some(HealthcheckTestKind::NoneTest));
            long_issue(services, d) == if disabled {
                seq![
                    DependencyIssue::MissingHealthcheck {
                        span: condition_span(d),
                        required: !(d.spec_required() matches Some(r) && r.spec_value() == BooleanValue::Literal(false)),
                    },
                ]
            } else {
                Seq::<DependencyIssue>::empty()
            }
        }),
{
    lemma_first_service_at(services, lc(d.spec_service()), 0, k);
}

/// The first service with a name is the one no earlier service shares it with.
proof fn lemma_first_service_at(services: Seq<Service>, name: Seq<char>, i: int, k: int)
    requires
        0 <= i <= k < services.len(),
        lc(services[k].spec_name()) == name,
        forall|j: int| 0 <= j < k ==> lc(#[trigger] services[j].spec_name()) != name,
    ensures
        first_service_from(services, name, i) == k,
    decreases k - i,
{
    if i < k {
        assert(lc(services[i].spec_name()) != name);
        lemma_first_service_at(services, name, i + 1, k);
    }
}

/// The problems with long-form dependencies, in order.
pub open spec fn long_issues(services: Seq<Service>, deps: Seq<ServiceDependency>) -> Seq<DependencyIssue>
    decreases deps.len(),
{
    if deps.len() == 0 {
        seq![]
    } else {
        long_issues(services, deps.drop_last()) + long_issue(services, deps.last())
    }
}

/// The dependency problems of one service.
pub open spec fn service_issues(services: Seq<Service>, s: Service) -> Seq<DependencyIssue> {
    match s.spec_depends_on() {
        None => seq![],
        Some(DependsOn::Short { services: targets, .. }) => short_issues(services, targets@),
        Some(DependsOn::Long { services: deps, .. }) => long_issues(services, deps@),
    }
}

/// The dependency problems of a list of services, checked against the document's `services`.
pub open spec fn document_issues(services: Seq<Service>, list: Seq<Service>) -> Seq<DependencyIssue>
    decreases list.len(),
{
    if list.len() == 0 {
        seq![]
    } else {
        document_issues(services, list.drop_last()) + service_issues(services, list.last())
    }
}

/// `d` reports `issue`.
pub open spec fn reports_dependency(d: Diagnostic, issue: DependencyIssue) -> bool {
    &&& d.spec_labels().len() == 1
    &&& d.spec_labels()[0].spec_kind() == LabelKind::Primary
    &&& match issue {
        DependencyIssue::MissingService { span, required } => {
            &&& d.spec_code().text() == "compose.dependencies.missing-service"@
            &&& d.spec_severity() == if required { Severity::Error } else { Severity::Warning }
            &&& d.spec_message() == if required {
                "service dependency is not declared in this Compose document"@
            } else {
                "optional service dependency is not declared in this Compose document"@
            }
            &&& d.spec_labels()[0].spec_span() == span
            &&& d.spec_labels()[0].spec_message() == "missing dependency service"@
            &&& d.spec_notes().len() == 0
        },
        DependencyIssue::MissingHealthcheck { span, required } => {
            &&& d.spec_code().text() == "compose.dependencies.missing-healthcheck"@
            &&& d.spec_severity() == if required { Severity::Error } else { Severity::Warning }
            &&& d.spec_message() == if required {
                "service_healthy dependency requires an enabled health check"@
            } else {
                "optional service_healthy dependency has no enabled health check"@
            }
            &&& d.spec_labels()[0].spec_span() == span
            &&& d.spec_labels()[0].spec_message() == "dependency cannot become healthy"@
            &&& d.spec_notes().len() == 0
        },
        DependencyIssue::HealthcheckUnverified { span } => {
            &&& d.spec_code().text() == "compose.dependencies.healthcheck-unverified"@
            &&& d.spec_severity() == Severity::Warning
            &&& d.spec_message() == "service_healthy dependency has no Compose healthcheck to validate"@
            &&& d.spec_labels()[0].spec_span() == span
            &&& d.spec_labels()[0].spec_message() == "image health metadata is not available"@
            &&& d.spec_notes().len() == 1
            &&& d.spec_notes()[0]@ == "the dependency image may still define a health check; verify it at build or runtime"@
        },
    }
}

/// The diagnostics report the problems one for one, in order.
pub open spec fn reports_dependencies(ds: Seq<Diagnostic>, issues: Seq<DependencyIssue>) -> bool {
    ds.len() == issues.len() && forall|i: int| 0 <= i < ds.len() ==> reports_dependency(#[trigger] ds[i], issues[i])
}

proof fn lemma_reports_push(ds: Seq<Diagnostic>, issues: Seq<DependencyIssue>, d: Diagnostic, issue: DependencyIssue)
    requires
        reports_dependencies(ds, issues),
        reports_dependency(d, issue),
    ensures
        reports_dependencies(ds.push(d), issues.push(issue)),
{
    assert forall|i: int| 0 <= i < ds.len() + 1 implies reports_dependency(#[trigger] ds.push(d)[i], issues.push(issue)[i]) by {
        if i < ds.len() {
            assert(ds.push(d)[i] == ds[i]);
        }
    }
}

/// Builds the diagnostic for a missing dependency service or health check.
fn missing_dependency_diagnostic(span: SourceSpan, healthcheck: bool, required: bool) -> (d: Diagnostic)
    ensures
        reports_dependency(
            d,
            if healthcheck {
                DependencyIssue::MissingHealthcheck { span, required }
            } else {
                DependencyIssue::MissingService { span, required }
            },
        ),
{
    let severity = if required {
        Severity::Error
    } else {
        Severity::Warning
    };
    if healthcheck {
        Diagnostic::new(
            DiagnosticCode::new("compose.dependencies.missing-healthcheck"),
            severity,
            if required {
                owned("service_healthy dependency requires an enabled health check")
            } else {
                owned("optional service_healthy dependency has no enabled health check")
            },
        ).with_label(DiagnosticLabel::primary(span, owned("dependency cannot become healthy")))
    } else {
        Diagnostic::new(
            DiagnosticCode::new("compose.dependencies.missing-service"),
            severity,
            if required {
                owned("service dependency is not declared in this Compose document")
            } else {
                owned("optional service dependency is not declared in this Compose document")
            },
        ).with_label(DiagnosticLabel::primary(span, owned("missing dependency service")))
    }
}

/// Builds the diagnostic for a `service_healthy` dependency without a Compose health check.
fn unverified_healthcheck_diagnostic(span: SourceSpan) -> (d: Diagnostic)
    ensures
        reports_dependency(d, DependencyIssue::HealthcheckUnverified { span }),
{
    Diagnostic::new(
        DiagnosticCode::new("compose.dependencies.healthcheck-unverified"),
        Severity::Warning,
        owned("service_healthy dependency has no Compose healthcheck to validate"),
    ).with_label(DiagnosticLabel::primary(span, owned("image health metadata is not available"))).with_note(
        owned("the dependency image may still define a health check; verify it at build or runtime"),
    )
}

} // verus!
