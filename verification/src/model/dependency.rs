//! Typed health checks and service dependency conditions.

use super::value::BooleanValue;
use super::{FieldReference, Located};
use crate::model::lifecycle::{compose_duration, valid_duration};
use crate::source::SourceSpan;
use crate::text::{contains_byte, decimal, decimal_str, sb, str_eq};
use vstd::prelude::*;

verus! {

/// A service `depends_on` value in list or mapping form.
#[derive(Debug, Clone, PartialEq, Eq)]
pub enum DependsOn {
    /// A list of service names.
    Short {
        /// The list span.
        span: SourceSpan,
        /// The service names.
        services: Vec<Located<String>>,
    },
    /// A mapping of dependencies with conditions.
    Long {
        /// The mapping span.
        span: SourceSpan,
        /// The dependencies in authored order.
        services: Vec<ServiceDependency>,
    },
}

impl DependsOn {
    /// The span of the authored value.
    pub open spec fn spec_span(&self) -> SourceSpan {
        match self {
            DependsOn::Short { span, .. } => *span,
            DependsOn::Long { span, .. } => *span,
        }
    }

    /// Returns the span of the authored value.
    pub fn span(&self) -> (r: SourceSpan)
        ensures
            r == self.spec_span(),
    {
        match self {
            DependsOn::Short { span, .. } => *span,
            DependsOn::Long { span, .. } => *span,
        }
    }
}

/// One long-form service dependency.
#[derive(Debug, Clone, PartialEq, Eq)]
pub struct ServiceDependency {
    service: Located<String>,
    span: SourceSpan,
    condition: Option<Located<DependencyCondition>>,
    restart: Option<Located<BooleanValue>>,
    required: Option<Located<BooleanValue>>,
    extension_fields: Vec<FieldReference>,
    unknown_fields: Vec<FieldReference>,
}

impl ServiceDependency {
    /// The dependency service name.
    pub closed spec fn spec_service(&self) -> Located<String> {
        self.service
    }

    /// The source span.
    pub closed spec fn spec_span(&self) -> SourceSpan {
        self.span
    }

    /// The `condition` field.
    pub closed spec fn spec_condition(&self) -> Option<Located<DependencyCondition>> {
        self.condition
    }

    /// The `restart` flag.
    pub closed spec fn spec_restart(&self) -> Option<Located<BooleanValue>> {
        self.restart
    }

    /// The `required` flag.
    pub closed spec fn spec_required(&self) -> Option<Located<BooleanValue>> {
        self.required
    }

    /// The `x-` extension fields in source order.
    pub closed spec fn spec_extension_fields(&self) -> Seq<FieldReference> {
        self.extension_fields@
    }

    /// The unknown fields in source order.
    pub closed spec fn spec_unknown_fields(&self) -> Seq<FieldReference> {
        self.unknown_fields@
    }

    /// Creates a `ServiceDependency` with no optional fields set.
    pub fn new(service: Located<String>, span: SourceSpan) -> (r: Self)
        ensures
            r.spec_service() == service,
            r.spec_span() == span,
            r.spec_condition() is None,
            r.spec_restart() is None,
            r.spec_required() is None,
            r.spec_extension_fields().len() == 0,
            r.spec_unknown_fields().len() == 0,
    {
        Self {
            service,
            span,
            condition: None,
            restart: None,
            required: None,
            extension_fields: Vec::new(),
            unknown_fields: Vec::new(),
        }
    }

    /// Sets the `condition` field.
    pub fn set_condition(&mut self, value: Located<DependencyCondition>)
        ensures
            final(self).spec_condition() == Some(value),
            final(self).spec_service() == old(self).spec_service(),
            final(self).spec_span() == old(self).spec_span(),
            final(self).spec_restart() == old(self).spec_restart(),
            final(self).spec_required() == old(self).spec_required(),
            final(self).spec_extension_fields() == old(self).spec_extension_fields(),
            final(self).spec_unknown_fields() == old(self).spec_unknown_fields(),
    {
        self.condition = Some(value);
    }

    /// Sets the `restart` field.
    pub fn set_restart(&mut self, value: Located<BooleanValue>)
        ensures
            final(self).spec_restart() == Some(value),
            final(self).spec_service() == old(self).spec_service(),
            final(self).spec_span() == old(self).spec_span(),
            final(self).spec_condition() == old(self).spec_condition(),
            final(self).spec_required() == old(self).spec_required(),
            final(self).spec_extension_fields() == old(self).spec_extension_fields(),
            final(self).spec_unknown_fields() == old(self).spec_unknown_fields(),
    {
        self.restart = Some(value);
    }

    /// Sets the `required` field.
    pub fn set_required(&mut self, value: Located<BooleanValue>)
        ensures
            final(self).spec_required() == Some(value),
            final(self).spec_service() == old(self).spec_service(),
            final(self).spec_span() == old(self).spec_span(),
            final(self).spec_condition() == old(self).spec_condition(),
            final(self).spec_restart() == old(self).spec_restart(),
            final(self).spec_extension_fields() == old(self).spec_extension_fields(),
            final(self).spec_unknown_fields() == old(self).spec_unknown_fields(),
    {
        self.required = Some(value);
    }

    /// Appends to the `extension_fields` list.
    pub fn push_extension(&mut self, value: FieldReference)
        ensures
            final(self).spec_extension_fields() == old(self).spec_extension_fields().push(value),
            final(self).spec_service() == old(self).spec_service(),
            final(self).spec_span() == old(self).spec_span(),
            final(self).spec_condition() == old(self).spec_condition(),
            final(self).spec_restart() == old(self).spec_restart(),
            final(self).spec_required() == old(self).spec_required(),
            final(self).spec_unknown_fields() == old(self).spec_unknown_fields(),
    {
        self.extension_fields.push(value);
    }

    /// Appends to the `unknown_fields` list.
    pub fn push_unknown(&mut self, value: FieldReference)
        ensures
            final(self).spec_unknown_fields() == old(self).spec_unknown_fields().push(value),
            final(self).spec_service() == old(self).spec_service(),
            final(self).spec_span() == old(self).spec_span(),
            final(self).spec_condition() == old(self).spec_condition(),
            final(self).spec_restart() == old(self).spec_restart(),
            final(self).spec_required() == old(self).spec_required(),
            final(self).spec_extension_fields() == old(self).spec_extension_fields(),
    {
        self.unknown_fields.push(value);
    }

    /// Returns the dependency service name.
    pub fn service(&self) -> (r: &Located<String>)
        ensures
            *r == self.spec_service(),
    {
        &self.service
    }

    /// Returns the source span.
    pub fn span(&self) -> (r: SourceSpan)
        ensures
            r == self.spec_span(),
    {
        self.span
    }

    /// Returns the `condition` field.
    pub fn condition(&self) -> (r: Option<&Located<DependencyCondition>>)
        ensures
            r is Some <==> self.spec_condition() is Some,
            r matches Some(v) ==> *v == self.spec_condition()->0,
    {
        self.condition.as_ref()
    }

    /// Returns the `restart` flag.
    pub fn restart(&self) -> (r: Option<&Located<BooleanValue>>)
        ensures
            r is Some <==> self.spec_restart() is Some,
            r matches Some(v) ==> *v == self.spec_restart()->0,
    {
        self.restart.as_ref()
    }

    /// Returns the `required` flag.
    pub fn required(&self) -> (r: Option<&Located<BooleanValue>>)
        ensures
            r is Some <==> self.spec_required() is Some,
            r matches Some(v) ==> *v == self.spec_required()->0,
    {
        self.required.as_ref()
    }

    /// Returns the `x-` extension fields in source order.
    pub fn extension_fields(&self) -> (r: &[FieldReference])
        ensures
            r@ == self.spec_extension_fields(),
    {
        self.extension_fields.as_slice()
    }

    /// Returns the unknown fields in source order.
    pub fn unknown_fields(&self) -> (r: &[FieldReference])
        ensures
            r@ == self.spec_unknown_fields(),
    {
        self.unknown_fields.as_slice()
    }
}

/// A dependency condition.
#[derive(Debug, Clone, PartialEq, Eq)]
pub enum DependencyCondition {
    /// `service_started`.
    ServiceStarted,
    /// `service_healthy`.
    ServiceHealthy,
    /// `service_completed_successfully`.
    ServiceCompletedSuccessfully,
    /// Any other condition, retained.
    Other(String),
}

impl DependencyCondition {
    /// Classifies a condition keyword.
    pub fn parse(value: String) -> (r: Self)
        ensures
            value@ == "service_started"@ ==> r is ServiceStarted,
            (r is ServiceStarted) ==> value@ == "service_started"@,
            (r is ServiceHealthy) ==> value@ == "service_healthy"@,
            (r is ServiceCompletedSuccessfully) ==> value@ == "service_completed_successfully"@,
            (r is Other) <==> value@ != "service_started"@ && value@ != "service_healthy"@ && value@
                != "service_completed_successfully"@,
            r matches DependencyCondition::Other(s) ==> s == value,
    {
        if str_eq(value.as_str(), "service_started") {
            DependencyCondition::ServiceStarted
        } else if str_eq(value.as_str(), "service_healthy") {
            DependencyCondition::ServiceHealthy
        } else if str_eq(value.as_str(), "service_completed_successfully") {
            DependencyCondition::ServiceCompletedSuccessfully
        } else {
            DependencyCondition::Other(value)
        }
    }

    /// Reports whether the condition is documented.
    pub fn is_known(&self) -> (r: bool)
        ensures
            r == !(self is Other),
    {
        !matches!(self, DependencyCondition::Other(_))
    }
}

/// A health-check duration with its authored spelling.
#[derive(Debug, Clone, PartialEq, Eq)]
pub enum HealthcheckDuration {
    /// A resolved value in Compose's duration syntax.
    Value(String),
    /// A value containing a dollar marker and therefore deferred to interpolation.
    Expression(String),
    /// Any other value.
    Other(String),
}

impl HealthcheckDuration {
    /// The authored spelling held by any variant.
    pub open spec fn spec_raw(&self) -> Seq<char> {
        match self {
            HealthcheckDuration::Value(s) => s@,
            HealthcheckDuration::Expression(s) => s@,
            HealthcheckDuration::Other(s) => s@,
        }
    }

    /// Classifies a health-check duration.
    pub fn parse(value: String) -> (r: Self)
        ensures
            r.spec_raw() == value@,
            r is Expression <==> sb(value@).contains(36),
            r is Value <==> !sb(value@).contains(36) && compose_duration(value@),
    {
        if contains_byte(value.as_str(), 36) {
            HealthcheckDuration::Expression(value)
        } else if valid_duration(value.as_str()) {
            HealthcheckDuration::Value(value)
        } else {
            HealthcheckDuration::Other(value)
        }
    }

    /// Reports whether the value is valid or deferred.
    pub fn is_valid(&self) -> (r: bool)
        ensures
            r == !(self is Other),
    {
        !matches!(self, HealthcheckDuration::Other(_))
    }

    /// Returns the authored spelling.
    pub fn raw(&self) -> (r: &str)
        ensures
            r@ == self.spec_raw(),
    {
        match self {
            HealthcheckDuration::Value(value) => value.as_str(),
            HealthcheckDuration::Expression(value) => value.as_str(),
            HealthcheckDuration::Other(value) => value.as_str(),
        }
    }
}

/// A health-check retry count with its authored spelling.
#[derive(Debug, Clone, PartialEq, Eq)]
pub enum HealthcheckRetries {
    /// A decimal count.
    Count(String),
    /// A value containing a dollar marker and therefore deferred to interpolation.
    Expression(String),
    /// Any other value.
    Other(String),
}

impl HealthcheckRetries {
    /// The authored spelling held by any variant.
    pub open spec fn spec_raw(&self) -> Seq<char> {
        match self {
            HealthcheckRetries::Count(s) => s@,
            HealthcheckRetries::Expression(s) => s@,
            HealthcheckRetries::Other(s) => s@,
        }
    }

    /// Classifies a retry count.
    pub fn parse(value: String) -> (r: Self)
        ensures
            r.spec_raw() == value@,
            r is Expression <==> sb(value@).contains(36),
            r is Count <==> !sb(value@).contains(36) && decimal(sb(value@)),
    {
        if contains_byte(value.as_str(), 36) {
            HealthcheckRetries::Expression(value)
        } else if decimal_str(value.as_str()) {
            HealthcheckRetries::Count(value)
        } else {
            HealthcheckRetries::Other(value)
        }
    }

    /// Reports whether the value is valid or deferred.
    pub fn is_valid(&self) -> (r: bool)
        ensures
            r == !(self is Other),
    {
        !matches!(self, HealthcheckRetries::Other(_))
    }

    /// Returns the authored spelling.
    pub fn raw(&self) -> (r: &str)
        ensures
            r@ == self.spec_raw(),
    {
        match self {
            HealthcheckRetries::Count(value) => value.as_str(),
            HealthcheckRetries::Expression(value) => value.as_str(),
            HealthcheckRetries::Other(value) => value.as_str(),
        }
    }
}

/// A service `healthcheck` mapping.
#[derive(Debug, Clone, PartialEq, Eq)]
pub struct Healthcheck {
    span: SourceSpan,
    test: Option<HealthcheckTest>,
    interval: Option<Located<HealthcheckDuration>>,
    timeout: Option<Located<HealthcheckDuration>>,
    retries: Option<Located<HealthcheckRetries>>,
    start_period: Option<Located<HealthcheckDuration>>,
    start_interval: Option<Located<HealthcheckDuration>>,
    disable: Option<Located<BooleanValue>>,
    extension_fields: Vec<FieldReference>,
    unknown_fields: Vec<FieldReference>,
}

impl Healthcheck {
    /// The source span.
    pub closed spec fn spec_span(&self) -> SourceSpan {
        self.span
    }

    /// The `test` field.
    pub closed spec fn spec_test(&self) -> Option<HealthcheckTest> {
        self.test
    }

    /// The `interval` field.
    pub closed spec fn spec_interval(&self) -> Option<Located<HealthcheckDuration>> {
        self.interval
    }

    /// The `timeout` field.
    pub closed spec fn spec_timeout(&self) -> Option<Located<HealthcheckDuration>> {
        self.timeout
    }

    /// The `retries` field.
    pub closed spec fn spec_retries(&self) -> Option<Located<HealthcheckRetries>> {
        self.retries
    }

    /// The `start_period` field.
    pub closed spec fn spec_start_period(&self) -> Option<Located<HealthcheckDuration>> {
        self.start_period
    }

    /// The `start_interval` field.
    pub closed spec fn spec_start_interval(&self) -> Option<Located<HealthcheckDuration>> {
        self.start_interval
    }

    /// The `disable` flag.
    pub closed spec fn spec_disable(&self) -> Option<Located<BooleanValue>> {
        self.disable
    }

    /// The `x-` extension fields in source order.
    pub closed spec fn spec_extension_fields(&self) -> Seq<FieldReference> {
        self.extension_fields@
    }

    /// The unknown fields in source order.
    pub closed spec fn spec_unknown_fields(&self) -> Seq<FieldReference> {
        self.unknown_fields@
    }

    /// Creates a `Healthcheck` with no optional fields set.
    pub fn new(span: SourceSpan) -> (r: Self)
        ensures
            r.spec_span() == span,
            r.spec_test() is None,
            r.spec_interval() is None,
            r.spec_timeout() is None,
            r.spec_retries() is None,
            r.spec_start_period() is None,
            r.spec_start_interval() is None,
            r.spec_disable() is None,
            r.spec_extension_fields().len() == 0,
            r.spec_unknown_fields().len() == 0,
    {
        Self {
            span,
            test: None,
            interval: None,
            timeout: None,
            retries: None,
            start_period: None,
            start_interval: None,
            disable: None,
            extension_fields: Vec::new(),
            unknown_fields: Vec::new(),
        }
    }

    /// Sets the `test` field.
    pub fn set_test(&mut self, value: HealthcheckTest)
        ensures
            final(self).spec_test() == Some(value),
            final(self).spec_span() == old(self).spec_span(),
            final(self).spec_interval() == old(self).spec_interval(),
            final(self).spec_timeout() == old(self).spec_timeout(),
            final(self).spec_retries() == old(self).spec_retries(),
            final(self).spec_start_period() == old(self).spec_start_period(),
            final(self).spec_start_interval() == old(self).spec_start_interval(),
            final(self).spec_disable() == old(self).spec_disable(),
            final(self).spec_extension_fields() == old(self).spec_extension_fields(),
            final(self).spec_unknown_fields() == old(self).spec_unknown_fields(),
    {
        self.test = Some(value);
    }

    /// Sets the `interval` field.
    pub fn set_interval(&mut self, value: Located<HealthcheckDuration>)
        ensures
            final(self).spec_interval() == Some(value),
            final(self).spec_span() == old(self).spec_span(),
            final(self).spec_test() == old(self).spec_test(),
            final(self).spec_timeout() == old(self).spec_timeout(),
            final(self).spec_retries() == old(self).spec_retries(),
            final(self).spec_start_period() == old(self).spec_start_period(),
            final(self).spec_start_interval() == old(self).spec_start_interval(),
            final(self).spec_disable() == old(self).spec_disable(),
            final(self).spec_extension_fields() == old(self).spec_extension_fields(),
            final(self).spec_unknown_fields() == old(self).spec_unknown_fields(),
    {
        self.interval = Some(value);
    }

    /// Sets the `timeout` field.
    pub fn set_timeout(&mut self, value: Located<HealthcheckDuration>)
        ensures
            final(self).spec_timeout() == Some(value),
            final(self).spec_span() == old(self).spec_span(),
            final(self).spec_test() == old(self).spec_test(),
            final(self).spec_interval() == old(self).spec_interval(),
            final(self).spec_retries() == old(self).spec_retries(),
            final(self).spec_start_period() == old(self).spec_start_period(),
            final(self).spec_start_interval() == old(self).spec_start_interval(),
            final(self).spec_disable() == old(self).spec_disable(),
            final(self).spec_extension_fields() == old(self).spec_extension_fields(),
            final(self).spec_unknown_fields() == old(self).spec_unknown_fields(),
    {
        self.timeout = Some(value);
    }

    /// Sets the `retries` field.
    pub fn set_retries(&mut self, value: Located<HealthcheckRetries>)
        ensures
            final(self).spec_retries() == Some(value),
            final(self).spec_span() == old(self).spec_span(),
            final(self).spec_test() == old(self).spec_test(),
            final(self).spec_interval() == old(self).spec_interval(),
            final(self).spec_timeout() == old(self).spec_timeout(),
            final(self).spec_start_period() == old(self).spec_start_period(),
            final(self).spec_start_interval() == old(self).spec_start_interval(),
            final(self).spec_disable() == old(self).spec_disable(),
            final(self).spec_extension_fields() == old(self).spec_extension_fields(),
            final(self).spec_unknown_fields() == old(self).spec_unknown_fields(),
    {
        self.retries = Some(value);
    }

    /// Sets the `start_period` field.
    pub fn set_start_period(&mut self, value: Located<HealthcheckDuration>)
        ensures
            final(self).spec_start_period() == Some(value),
            final(self).spec_span() == old(self).spec_span(),
            final(self).spec_test() == old(self).spec_test(),
            final(self).spec_interval() == old(self).spec_interval(),
            final(self).spec_timeout() == old(self).spec_timeout(),
            final(self).spec_retries() == old(self).spec_retries(),
            final(self).spec_start_interval() == old(self).spec_start_interval(),
            final(self).spec_disable() == old(self).spec_disable(),
            final(self).spec_extension_fields() == old(self).spec_extension_fields(),
            final(self).spec_unknown_fields() == old(self).spec_unknown_fields(),
    {
        self.start_period = Some(value);
    }

    /// Sets the `start_interval` field.
    pub fn set_start_interval(&mut self, value: Located<HealthcheckDuration>)
        ensures
            final(self).spec_start_interval() == Some(value),
            final(self).spec_span() == old(self).spec_span(),
            final(self).spec_test() == old(self).spec_test(),
            final(self).spec_interval() == old(self).spec_interval(),
            final(self).spec_timeout() == old(self).spec_timeout(),
            final(self).spec_retries() == old(self).spec_retries(),
            final(self).spec_start_period() == old(self).spec_start_period(),
            final(self).spec_disable() == old(self).spec_disable(),
            final(self).spec_extension_fields() == old(self).spec_extension_fields(),
            final(self).spec_unknown_fields() == old(self).spec_unknown_fields(),
    {
        self.start_interval = Some(value);
    }

    /// Sets the `disable` field.
    pub fn set_disable(&mut self, value: Located<BooleanValue>)
        ensures
            final(self).spec_disable() == Some(value),
            final(self).spec_span() == old(self).spec_span(),
            final(self).spec_test() == old(self).spec_test(),
            final(self).spec_interval() == old(self).spec_interval(),
            final(self).spec_timeout() == old(self).spec_timeout(),
            final(self).spec_retries() == old(self).spec_retries(),
            final(self).spec_start_period() == old(self).spec_start_period(),
            final(self).spec_start_interval() == old(self).spec_start_interval(),
            final(self).spec_extension_fields() == old(self).spec_extension_fields(),
            final(self).spec_unknown_fields() == old(self).spec_unknown_fields(),
    {
        self.disable = Some(value);
    }

    /// Appends to the `extension_fields` list.
    pub fn push_extension(&mut self, value: FieldReference)
        ensures
            final(self).spec_extension_fields() == old(self).spec_extension_fields().push(value),
            final(self).spec_span() == old(self).spec_span(),
            final(self).spec_test() == old(self).spec_test(),
            final(self).spec_interval() == old(self).spec_interval(),
            final(self).spec_timeout() == old(self).spec_timeout(),
            final(self).spec_retries() == old(self).spec_retries(),
            final(self).spec_start_period() == old(self).spec_start_period(),
            final(self).spec_start_interval() == old(self).spec_start_interval(),
            final(self).spec_disable() == old(self).spec_disable(),
            final(self).spec_unknown_fields() == old(self).spec_unknown_fields(),
    {
        self.extension_fields.push(value);
    }

    /// Appends to the `unknown_fields` list.
    pub fn push_unknown(&mut self, value: FieldReference)
        ensures
            final(self).spec_unknown_fields() == old(self).spec_unknown_fields().push(value),
            final(self).spec_span() == old(self).spec_span(),
            final(self).spec_test() == old(self).spec_test(),
            final(self).spec_interval() == old(self).spec_interval(),
            final(self).spec_timeout() == old(self).spec_timeout(),
            final(self).spec_retries() == old(self).spec_retries(),
            final(self).spec_start_period() == old(self).spec_start_period(),
            final(self).spec_start_interval() == old(self).spec_start_interval(),
            final(self).spec_disable() == old(self).spec_disable(),
            final(self).spec_extension_fields() == old(self).spec_extension_fields(),
    {
        self.unknown_fields.push(value);
    }

    /// Returns the source span.
    pub fn span(&self) -> (r: SourceSpan)
        ensures
            r == self.spec_span(),
    {
        self.span
    }

    /// Returns the `test` field.
    pub fn test(&self) -> (r: Option<&HealthcheckTest>)
        ensures
            r is Some <==> self.spec_test() is Some,
            r matches Some(v) ==> *v == self.spec_test()->0,
    {
        self.test.as_ref()
    }

    /// Returns the `interval` field.
    pub fn interval(&self) -> (r: Option<&Located<HealthcheckDuration>>)
        ensures
            r is Some <==> self.spec_interval() is Some,
            r matches Some(v) ==> *v == self.spec_interval()->0,
    {
        self.interval.as_ref()
    }

    /// Returns the `timeout` field.
    pub fn timeout(&self) -> (r: Option<&Located<HealthcheckDuration>>)
        ensures
            r is Some <==> self.spec_timeout() is Some,
            r matches Some(v) ==> *v == self.spec_timeout()->0,
    {
        self.timeout.as_ref()
    }

    /// Returns the `retries` field.
    pub fn retries(&self) -> (r: Option<&Located<HealthcheckRetries>>)
        ensures
            r is Some <==> self.spec_retries() is Some,
            r matches Some(v) ==> *v == self.spec_retries()->0,
    {
        self.retries.as_ref()
    }

    /// Returns the `start_period` field.
    pub fn start_period(&self) -> (r: Option<&Located<HealthcheckDuration>>)
        ensures
            r is Some <==> self.spec_start_period() is Some,
            r matches Some(v) ==> *v == self.spec_start_period()->0,
    {
        self.start_period.as_ref()
    }

    /// Returns the `start_interval` field.
    pub fn start_interval(&self) -> (r: Option<&Located<HealthcheckDuration>>)
        ensures
            r is Some <==> self.spec_start_interval() is Some,
            r matches Some(v) ==> *v == self.spec_start_interval()->0,
    {
        self.start_interval.as_ref()
    }

    /// Returns the `disable` flag.
    pub fn disable(&self) -> (r: Option<&Located<BooleanValue>>)
        ensures
            r is Some <==> self.spec_disable() is Some,
            r matches Some(v) ==> *v == self.spec_disable()->0,
    {
        self.disable.as_ref()
    }

    /// Returns the `x-` extension fields in source order.
    pub fn extension_fields(&self) -> (r: &[FieldReference])
        ensures
            r@ == self.spec_extension_fields(),
    {
        self.extension_fields.as_slice()
    }

    /// Returns the unknown fields in source order.
    pub fn unknown_fields(&self) -> (r: &[FieldReference])
        ensures
            r@ == self.spec_unknown_fields(),
    {
        self.unknown_fields.as_slice()
    }

    /// The health check is disabled, by `disable: true` or a `NONE` test.
    pub open spec fn spec_is_disabled(&self) -> bool {
        (self.spec_disable() matches Some(d) && d.spec_value() == BooleanValue::Literal(true)) || (
        self.spec_test() matches Some(t) && t.spec_kind() == Some(HealthcheckTestKind::NoneTest))
    }

    /// Reports whether the health check is disabled, by `disable: true` or a `NONE` test.
    pub fn is_disabled(&self) -> (r: bool)
        ensures
            r == self.spec_is_disabled(),
    {
        let disabled = match &self.disable {
            Some(d) => match d.value() {
                BooleanValue::Literal(b) => *b,
                BooleanValue::Expression(_) => false,
            },
            None => false,
        };
        let none_test = match &self.test {
            Some(t) => match t.kind() {
                Some(HealthcheckTestKind::NoneTest) => true,
                _ => false,
            },
            None => false,
        };
        disabled || none_test
    }
}

/// A health-check `test` value.
#[derive(Debug, Clone, PartialEq, Eq)]
pub enum HealthcheckTest {
    /// A shell-form string.
    String(Located<String>),
    /// A list whose first item selects the kind.
    List {
        /// The list span.
        span: SourceSpan,
        /// The kind named by the first item, when recognizable.
        kind: Option<HealthcheckTestKind>,
        /// The authored items.
        values: Vec<Located<String>>,
    },
}

impl HealthcheckTest {
    /// The kind of test.
    pub open spec fn spec_kind(&self) -> Option<HealthcheckTestKind> {
        match self {
            HealthcheckTest::String(_) => Some(HealthcheckTestKind::CmdShell),
            HealthcheckTest::List { kind, .. } => *kind,
        }
    }

    /// The span of the authored value.
    pub open spec fn spec_span(&self) -> SourceSpan {
        match self {
            HealthcheckTest::String(value) => value.spec_span(),
            HealthcheckTest::List { span, .. } => *span,
        }
    }

    /// Returns the kind of test: shell form for a string.
    pub fn kind(&self) -> (r: Option<HealthcheckTestKind>)
        ensures
            r == self.spec_kind(),
    {
        match self {
            HealthcheckTest::String(_) => Some(HealthcheckTestKind::CmdShell),
            HealthcheckTest::List { kind, .. } => *kind,
        }
    }

    /// Returns the span of the authored value.
    pub fn span(&self) -> (r: SourceSpan)
        ensures
            r == self.spec_span(),
    {
        match self {
            HealthcheckTest::String(value) => value.span(),
            HealthcheckTest::List { span, .. } => *span,
        }
    }
}

/// The kind of a health-check test list.
#[derive(Debug, Clone, Copy, PartialEq, Eq, Hash, Structural)]
pub enum HealthcheckTestKind {
    /// `NONE`.
    NoneTest,
    /// `CMD`.
    Cmd,
    /// `CMD-SHELL`.
    CmdShell,
    /// Any other first item.
    Other,
}

impl HealthcheckTestKind {
    /// Classifies the first item of a test list.
    pub fn parse(value: &str) -> (r: Self)
        ensures
            value@ == "NONE"@ ==> r == HealthcheckTestKind::NoneTest,
            r == HealthcheckTestKind::NoneTest ==> value@ == "NONE"@,
            r == HealthcheckTestKind::Cmd ==> value@ == "CMD"@,
            r == HealthcheckTestKind::CmdShell ==> value@ == "CMD-SHELL"@,
            r == HealthcheckTestKind::Other <==> value@ != "NONE"@ && value@ != "CMD"@ && value@ != "CMD-SHELL"@,
    {
        if str_eq(value, "NONE") {
            HealthcheckTestKind::NoneTest
        } else if str_eq(value, "CMD") {
            HealthcheckTestKind::Cmd
        } else if str_eq(value, "CMD-SHELL") {
            HealthcheckTestKind::CmdShell
        } else {
            HealthcheckTestKind::Other
        }
    }
}

} // verus!
