//! Source-aware service lifecycle-hook descriptors.

use super::command::Command;
use super::environment::Environment;
use super::value::BooleanValue;
use super::{FieldReference, Located};
use crate::source::SourceSpan;
use vstd::prelude::*;

verus! {

/// A `post_start` or `pre_stop` hook.
#[derive(Debug, Clone, PartialEq, Eq)]
pub struct ServiceHook {
    span: SourceSpan,
    command: Option<Command>,
    environment: Option<Environment>,
    privileged: Option<Located<BooleanValue>>,
    user: Option<Located<String>>,
    working_dir: Option<Located<String>>,
    extension_fields: Vec<FieldReference>,
    unknown_fields: Vec<FieldReference>,
}

impl ServiceHook {
    /// The source span.
    pub closed spec fn spec_span(&self) -> SourceSpan {
        self.span
    }

    /// The `command` field.
    pub closed spec fn spec_command(&self) -> Option<Command> {
        self.command
    }

    /// The `environment` field.
    pub closed spec fn spec_environment(&self) -> Option<Environment> {
        self.environment
    }

    /// The `privileged` flag.
    pub closed spec fn spec_privileged(&self) -> Option<Located<BooleanValue>> {
        self.privileged
    }

    /// The `user` field.
    pub closed spec fn spec_user(&self) -> Option<Located<String>> {
        self.user
    }

    /// The `working_dir` field.
    pub closed spec fn spec_working_dir(&self) -> Option<Located<String>> {
        self.working_dir
    }

    /// The `x-` extension fields in source order.
    pub closed spec fn spec_extension_fields(&self) -> Seq<FieldReference> {
        self.extension_fields@
    }

    /// The unknown fields in source order.
    pub closed spec fn spec_unknown_fields(&self) -> Seq<FieldReference> {
        self.unknown_fields@
    }

    /// Creates a `ServiceHook` with no optional fields set.
    pub fn new(span: SourceSpan) -> (r: Self)
        ensures
            r.spec_span() == span,
            r.spec_command() is None,
            r.spec_environment() is None,
            r.spec_privileged() is None,
            r.spec_user() is None,
            r.spec_working_dir() is None,
            r.spec_extension_fields().len() == 0,
            r.spec_unknown_fields().len() == 0,
    {
        Self {
            span,
            command: None,
            environment: None,
            privileged: None,
            user: None,
            working_dir: None,
            extension_fields: Vec::new(),
            unknown_fields: Vec::new(),
        }
    }

    /// Sets the `command` field.
    pub fn set_command(&mut self, value: Command)
        ensures
            final(self).spec_command() == Some(value),
            final(self).spec_span() == old(self).spec_span(),
            final(self).spec_environment() == old(self).spec_environment(),
            final(self).spec_privileged() == old(self).spec_privileged(),
            final(self).spec_user() == old(self).spec_user(),
            final(self).spec_working_dir() == old(self).spec_working_dir(),
            final(self).spec_extension_fields() == old(self).spec_extension_fields(),
            final(self).spec_unknown_fields() == old(self).spec_unknown_fields(),
    {
        self.command = Some(value);
    }

    /// Sets the `environment` field.
    pub fn set_environment(&mut self, value: Environment)
        ensures
            final(self).spec_environment() == Some(value),
            final(self).spec_span() == old(self).spec_span(),
            final(self).spec_command() == old(self).spec_command(),
            final(self).spec_privileged() == old(self).spec_privileged(),
            final(self).spec_user() == old(self).spec_user(),
            final(self).spec_working_dir() == old(self).spec_working_dir(),
            final(self).spec_extension_fields() == old(self).spec_extension_fields(),
            final(self).spec_unknown_fields() == old(self).spec_unknown_fields(),
    {
        self.environment = Some(value);
    }

    /// Sets the `privileged` field.
    pub fn set_privileged(&mut self, value: Located<BooleanValue>)
        ensures
            final(self).spec_privileged() == Some(value),
            final(self).spec_span() == old(self).spec_span(),
            final(self).spec_command() == old(self).spec_command(),
            final(self).spec_environment() == old(self).spec_environment(),
            final(self).spec_user() == old(self).spec_user(),
            final(self).spec_working_dir() == old(self).spec_working_dir(),
            final(self).spec_extension_fields() == old(self).spec_extension_fields(),
            final(self).spec_unknown_fields() == old(self).spec_unknown_fields(),
    {
        self.privileged = Some(value);
    }

    /// Sets the `user` field.
    pub fn set_user(&mut self, value: Located<String>)
        ensures
            final(self).spec_user() == Some(value),
            final(self).spec_span() == old(self).spec_span(),
            final(self).spec_command() == old(self).spec_command(),
            final(self).spec_environment() == old(self).spec_environment(),
            final(self).spec_privileged() == old(self).spec_privileged(),
            final(self).spec_working_dir() == old(self).spec_working_dir(),
            final(self).spec_extension_fields() == old(self).spec_extension_fields(),
            final(self).spec_unknown_fields() == old(self).spec_unknown_fields(),
    {
        self.user = Some(value);
    }

    /// Sets the `working_dir` field.
    pub fn set_working_dir(&mut self, value: Located<String>)
        ensures
            final(self).spec_working_dir() == Some(value),
            final(self).spec_span() == old(self).spec_span(),
            final(self).spec_command() == old(self).spec_command(),
            final(self).spec_environment() == old(self).spec_environment(),
            final(self).spec_privileged() == old(self).spec_privileged(),
            final(self).spec_user() == old(self).spec_user(),
            final(self).spec_extension_fields() == old(self).spec_extension_fields(),
            final(self).spec_unknown_fields() == old(self).spec_unknown_fields(),
    {
        self.working_dir = Some(value);
    }

    /// Appends to the `extension_fields` list.
    pub fn push_extension(&mut self, value: FieldReference)
        ensures
            final(self).spec_extension_fields() == old(self).spec_extension_fields().push(value),
            final(self).spec_span() == old(self).spec_span(),
            final(self).spec_command() == old(self).spec_command(),
            final(self).spec_environment() == old(self).spec_environment(),
            final(self).spec_privileged() == old(self).spec_privileged(),
            final(self).spec_user() == old(self).spec_user(),
            final(self).spec_working_dir() == old(self).spec_working_dir(),
            final(self).spec_unknown_fields() == old(self).spec_unknown_fields(),
    {
        self.extension_fields.push(value);
    }

    /// Appends to the `unknown_fields` list.
    pub fn push_unknown(&mut self, value: FieldReference)
        ensures
            final(self).spec_unknown_fields() == old(self).spec_unknown_fields().push(value),
            final(self).spec_span() == old(self).spec_span(),
            final(self).spec_command() == old(self).spec_command(),
            final(self).spec_environment() == old(self).spec_environment(),
            final(self).spec_privileged() == old(self).spec_privileged(),
            final(self).spec_user() == old(self).spec_user(),
            final(self).spec_working_dir() == old(self).spec_working_dir(),
            final(self).spec_extension_fields() == old(self).spec_extension_fields(),
    {
        self.unknown_fields.push(value);
    }

    /// Returns the source span.
    pub fn span(&self) -> (r: SourceSpan)
        ensures
            r == self.spec_span(),
    {
        self.span
    }

    /// Returns the `command` field.
    pub fn command(&self) -> (r: Option<&Command>)
        ensures
            r is Some <==> self.spec_command() is Some,
            r matches Some(v) ==> *v == self.spec_command()->0,
    {
        self.command.as_ref()
    }

    /// Returns the `environment` field.
    pub fn environment(&self) -> (r: Option<&Environment>)
        ensures
            r is Some <==> self.spec_environment() is Some,
            r matches Some(v) ==> *v == self.spec_environment()->0,
    {
        self.environment.as_ref()
    }

    /// Returns the `privileged` flag.
    pub fn privileged(&self) -> (r: Option<&Located<BooleanValue>>)
        ensures
            r is Some <==> self.spec_privileged() is Some,
            r matches Some(v) ==> *v == self.spec_privileged()->0,
    {
        self.privileged.as_ref()
    }

    /// Returns the `user` field.
    pub fn user(&self) -> (r: Option<&Located<String>>)
        ensures
            r is Some <==> self.spec_user() is Some,
            r matches Some(v) ==> *v == self.spec_user()->0,
    {
        self.user.as_ref()
    }

    /// Returns the `working_dir` field.
    pub fn working_dir(&self) -> (r: Option<&Located<String>>)
        ensures
            r is Some <==> self.spec_working_dir() is Some,
            r matches Some(v) ==> *v == self.spec_working_dir()->0,
    {
        self.working_dir.as_ref()
    }

    /// Returns the `x-` extension fields in source order.
    pub fn extension_fields(&self) -> (r: &[FieldReference])
        ensures
            r@ == self.spec_extension_fields(),
    {
        self.extension_fields.as_slice()
    }

    /// Returns the unknown fields in source order.
    pub fn unknown_fields(&self) -> (r: &[FieldReference])
        ensures
            r@ == self.spec_unknown_fields(),
    {
        self.unknown_fields.as_slice()
    }
}

/// A `pre_start` hook.
#[derive(Debug, Clone, PartialEq, Eq)]
pub struct PreStartServiceHook {
    span: SourceSpan,
    command: Option<Command>,
    image: Option<Located<String>>,
    environment: Option<Environment>,
    privileged: Option<Located<BooleanValue>>,
    per_replica: Option<Located<BooleanValue>>,
    user: Option<Located<String>>,
    working_dir: Option<Located<String>>,
    extension_fields: Vec<FieldReference>,
    unknown_fields: Vec<FieldReference>,
}

impl PreStartServiceHook {
    /// The source span.
    pub closed spec fn spec_span(&self) -> SourceSpan {
        self.span
    }

    /// The `command` field.
    pub closed spec fn spec_command(&self) -> Option<Command> {
        self.command
    }

    /// The `image` field.
    pub closed spec fn spec_image(&self) -> Option<Located<String>> {
        self.image
    }

    /// The `environment` field.
    pub closed spec fn spec_environment(&self) -> Option<Environment> {
        self.environment
    }

    /// The `privileged` flag.
    pub closed spec fn spec_privileged(&self) -> Option<Located<BooleanValue>> {
        self.privileged
    }

    /// The `per_replica` flag.
    pub closed spec fn spec_per_replica(&self) -> Option<Located<BooleanValue>> {
        self.per_replica
    }

    /// The `user` field.
    pub closed spec fn spec_user(&self) -> Option<Located<String>> {
        self.user
    }

    /// The `working_dir` field.
    pub closed spec fn spec_working_dir(&self) -> Option<Located<String>> {
        self.working_dir
    }

    /// The `x-` extension fields in source order.
    pub closed spec fn spec_extension_fields(&self) -> Seq<FieldReference> {
        self.extension_fields@
    }

    /// The unknown fields in source order.
    pub closed spec fn spec_unknown_fields(&self) -> Seq<FieldReference> {
        self.unknown_fields@
    }

    /// Creates a `PreStartServiceHook` with no optional fields set.
    pub fn new(span: SourceSpan) -> (r: Self)
        ensures
            r.spec_span() == span,
            r.spec_command() is None,
            r.spec_image() is None,
            r.spec_environment() is None,
            r.spec_privileged() is None,
            r.spec_per_replica() is None,
            r.spec_user() is None,
            r.spec_working_dir() is None,
            r.spec_extension_fields().len() == 0,
            r.spec_unknown_fields().len() == 0,
    {
        Self {
            span,
            command: None,
            image: None,
            environment: None,
            privileged: None,
            per_replica: None,
            user: None,
            working_dir: None,
            extension_fields: Vec::new(),
            unknown_fields: Vec::new(),
        }
    }

    /// Sets the `command` field.
    pub fn set_command(&mut self, value: Command)
        ensures
            final(self).spec_command() == Some(value),
            final(self).spec_span() == old(self).spec_span(),
            final(self).spec_image() == old(self).spec_image(),
            final(self).spec_environment() == old(self).spec_environment(),
            final(self).spec_privileged() == old(self).spec_privileged(),
            final(self).spec_per_replica() == old(self).spec_per_replica(),
            final(self).spec_user() == old(self).spec_user(),
            final(self).spec_working_dir() == old(self).spec_working_dir(),
            final(self).spec_extension_fields() == old(self).spec_extension_fields(),
            final(self).spec_unknown_fields() == old(self).spec_unknown_fields(),
    {
        self.command = Some(value);
    }

    /// Sets the `image` field.
    pub fn set_image(&mut self, value: Located<String>)
        ensures
            final(self).spec_image() == Some(value),
            final(self).spec_span() == old(self).spec_span(),
            final(self).spec_command() == old(self).spec_command(),
            final(self).spec_environment() == old(self).spec_environment(),
            final(self).spec_privileged() == old(self).spec_privileged(),
            final(self).spec_per_replica() == old(self).spec_per_replica(),
            final(self).spec_user() == old(self).spec_user(),
            final(self).spec_working_dir() == old(self).spec_working_dir(),
            final(self).spec_extension_fields() == old(self).spec_extension_fields(),
            final(self).spec_unknown_fields() == old(self).spec_unknown_fields(),
    {
        self.image = Some(value);
    }

    /// Sets the `environment` field.
    pub fn set_environment(&mut self, value: Environment)
        ensures
            final(self).spec_environment() == Some(value),
            final(self).spec_span() == old(self).spec_span(),
            final(self).spec_command() == old(self).spec_command(),
            final(self).spec_image() == old(self).spec_image(),
            final(self).spec_privileged() == old(self).spec_privileged(),
            final(self).spec_per_replica() == old(self).spec_per_replica(),
            final(self).spec_user() == old(self).spec_user(),
            final(self).spec_working_dir() == old(self).spec_working_dir(),
            final(self).spec_extension_fields() == old(self).spec_extension_fields(),
            final(self).spec_unknown_fields() == old(self).spec_unknown_fields(),
    {
        self.environment = Some(value);
    }

    /// Sets the `privileged` field.
    pub fn set_privileged(&mut self, value: Located<BooleanValue>)
        ensures
            final(self).spec_privileged() == Some(value),
            final(self).spec_span() == old(self).spec_span(),
            final(self).spec_command() == old(self).spec_command(),
            final(self).spec_image() == old(self).spec_image(),
            final(self).spec_environment() == old(self).spec_environment(),
            final(self).spec_per_replica() == old(self).spec_per_replica(),
            final(self).spec_user() == old(self).spec_user(),
            final(self).spec_working_dir() == old(self).spec_working_dir(),
            final(self).spec_extension_fields() == old(self).spec_extension_fields(),
            final(self).spec_unknown_fields() == old(self).spec_unknown_fields(),
    {
        self.privileged = Some(value);
    }

    /// Sets the `per_replica` field.
    pub fn set_per_replica(&mut self, value: Located<BooleanValue>)
        ensures
            final(self).spec_per_replica() == Some(value),
            final(self).spec_span() == old(self).spec_span(),
            final(self).spec_command() == old(self).spec_command(),
            final(self).spec_image() == old(self).spec_image(),
            final(self).spec_environment() == old(self).spec_environment(),
            final(self).spec_privileged() == old(self).spec_privileged(),
            final(self).spec_user() == old(self).spec_user(),
            final(self).spec_working_dir() == old(self).spec_working_dir(),
            final(self).spec_extension_fields() == old(self).spec_extension_fields(),
            final(self).spec_unknown_fields() == old(self).spec_unknown_fields(),
    {
        self.per_replica = Some(value);
    }

    /// Sets the `user` field.
    pub fn set_user(&mut self, value: Located<String>)
        ensures
            final(self).spec_user() == Some(value),
            final(self).spec_span() == old(self).spec_span(),
            final(self).spec_command() == old(self).spec_command(),
            final(self).spec_image() == old(self).spec_image(),
            final(self).spec_environment() == old(self).spec_environment(),
            final(self).spec_privileged() == old(self).spec_privileged(),
            final(self).spec_per_replica() == old(self).spec_per_replica(),
            final(self).spec_working_dir() == old(self).spec_working_dir(),
            final(self).spec_extension_fields() == old(self).spec_extension_fields(),
            final(self).spec_unknown_fields() == old(self).spec_unknown_fields(),
    {
        self.user = Some(value);
    }

    /// Sets the `working_dir` field.
    pub fn set_working_dir(&mut self, value: Located<String>)
        ensures
            final(self).spec_working_dir() == Some(value),
            final(self).spec_span() == old(self).spec_span(),
            final(self).spec_command() == old(self).spec_command(),
            final(self).spec_image() == old(self).spec_image(),
            final(self).spec_environment() == old(self).spec_environment(),
            final(self).spec_privileged() == old(self).spec_privileged(),
            final(self).spec_per_replica() == old(self).spec_per_replica(),
            final(self).spec_user() == old(self).spec_user(),
            final(self).spec_extension_fields() == old(self).spec_extension_fields(),
            final(self).spec_unknown_fields() == old(self).spec_unknown_fields(),
    {
        self.working_dir = Some(value);
    }

    /// Appends to the `extension_fields` list.
    pub fn push_extension(&mut self, value: FieldReference)
        ensures
            final(self).spec_extension_fields() == old(self).spec_extension_fields().push(value),
            final(self).spec_span() == old(self).spec_span(),
            final(self).spec_command() == old(self).spec_command(),
            final(self).spec_image() == old(self).spec_image(),
            final(self).spec_environment() == old(self).spec_environment(),
            final(self).spec_privileged() == old(self).spec_privileged(),
            final(self).spec_per_replica() == old(self).spec_per_replica(),
            final(self).spec_user() == old(self).spec_user(),
            final(self).spec_working_dir() == old(self).spec_working_dir(),
            final(self).spec_unknown_fields() == old(self).spec_unknown_fields(),
    {
        self.extension_fields.push(value);
    }

    /// Appends to the `unknown_fields` list.
    pub fn push_unknown(&mut self, value: FieldReference)
        ensures
            final(self).spec_unknown_fields() == old(self).spec_unknown_fields().push(value),
            final(self).spec_span() == old(self).spec_span(),
            final(self).spec_command() == old(self).spec_command(),
            final(self).spec_image() == old(self).spec_image(),
            final(self).spec_environment() == old(self).spec_environment(),
            final(self).spec_privileged() == old(self).spec_privileged(),
            final(self).spec_per_replica() == old(self).spec_per_replica(),
            final(self).spec_user() == old(self).spec_user(),
            final(self).spec_working_dir() == old(self).spec_working_dir(),
            final(self).spec_extension_fields() == old(self).spec_extension_fields(),
    {
        self.unknown_fields.push(value);
    }

    /// Returns the source span.
    pub fn span(&self) -> (r: SourceSpan)
        ensures
            r == self.spec_span(),
    {
        self.span
    }

    /// Returns the `command` field.
    pub fn command(&self) -> (r: Option<&Command>)
        ensures
            r is Some <==> self.spec_command() is Some,
            r matches Some(v) ==> *v == self.spec_command()->0,
    {
        self.command.as_ref()
    }

    /// Returns the `image` field.
    pub fn image(&self) -> (r: Option<&Located<String>>)
        ensures
            r is Some <==> self.spec_image() is Some,
            r matches Some(v) ==> *v == self.spec_image()->0,
    {
        self.image.as_ref()
    }

    /// Returns the `environment` field.
    pub fn environment(&self) -> (r: Option<&Environment>)
        ensures
            r is Some <==> self.spec_environment() is Some,
            r matches Some(v) ==> *v == self.spec_environment()->0,
    {
        self.environment.as_ref()
    }

    /// Returns the `privileged` flag.
    pub fn privileged(&self) -> (r: Option<&Located<BooleanValue>>)
        ensures
            r is Some <==> self.spec_privileged() is Some,
            r matches Some(v) ==> *v == self.spec_privileged()->0,
    {
        self.privileged.as_ref()
    }

    /// Returns the `per_replica` flag.
    pub fn per_replica(&self) -> (r: Option<&Located<BooleanValue>>)
        ensures
            r is Some <==> self.spec_per_replica() is Some,
            r matches Some(v) ==> *v == self.spec_per_replica()->0,
    {
        self.per_replica.as_ref()
    }

    /// Returns the `user` field.
    pub fn user(&self) -> (r: Option<&Located<String>>)
        ensures
            r is Some <==> self.spec_user() is Some,
            r matches Some(v) ==> *v == self.spec_user()->0,
    {
        self.user.as_ref()
    }

    /// Returns the `working_dir` field.
    pub fn working_dir(&self) -> (r: Option<&Located<String>>)
        ensures
            r is Some <==> self.spec_working_dir() is Some,
            r matches Some(v) ==> *v == self.spec_working_dir()->0,
    {
        self.working_dir.as_ref()
    }

    /// Returns the `x-` extension fields in source order.
    pub fn extension_fields(&self) -> (r: &[FieldReference])
        ensures
            r@ == self.spec_extension_fields(),
    {
        self.extension_fields.as_slice()
    }

    /// Returns the unknown fields in source order.
    pub fn unknown_fields(&self) -> (r: &[FieldReference])
        ensures
            r@ == self.spec_unknown_fields(),
    {
        self.unknown_fields.as_slice()
    }
}

/// One `post_start` item.
#[derive(Debug, Clone, PartialEq, Eq)]
#[non_exhaustive]
pub enum PostStartHook {
    /// A modeled hook mapping.
    Hook(Box<ServiceHook>),
    /// A hook form that is not modeled.
    Unmodeled {
        /// The item span.
        span: SourceSpan,
    },
}

impl PostStartHook {
    /// The span of the authored hook.
    pub open spec fn spec_span(&self) -> SourceSpan {
        match self {
            PostStartHook::Hook(hook) => hook.spec_span(),
            PostStartHook::Unmodeled { span } => *span,
        }
    }

    /// Returns the span of the authored hook.
    pub fn span(&self) -> (r: SourceSpan)
        ensures
            r == self.spec_span(),
    {
        match self {
            PostStartHook::Hook(hook) => hook.span(),
            PostStartHook::Unmodeled { span } => *span,
        }
    }
}

/// One `pre_stop` item.
#[derive(Debug, Clone, PartialEq, Eq)]
#[non_exhaustive]
pub enum PreStopHook {
    /// A modeled hook mapping.
    Hook(Box<ServiceHook>),
    /// A hook form that is not modeled.
    Unmodeled {
        /// The item span.
        span: SourceSpan,
    },
}

impl PreStopHook {
    /// The span of the authored hook.
    pub open spec fn spec_span(&self) -> SourceSpan {
        match self {
            PreStopHook::Hook(hook) => hook.spec_span(),
            PreStopHook::Unmodeled { span } => *span,
        }
    }

    /// Returns the span of the authored hook.
    pub fn span(&self) -> (r: SourceSpan)
        ensures
            r == self.spec_span(),
    {
        match self {
            PreStopHook::Hook(hook) => hook.span(),
            PreStopHook::Unmodeled { span } => *span,
        }
    }
}

/// One `pre_start` item.
#[derive(Debug, Clone, PartialEq, Eq)]
#[non_exhaustive]
pub enum PreStartHook {
    /// A modeled hook mapping.
    Hook(Box<PreStartServiceHook>),
    /// A hook form that is not modeled.
    Unmodeled {
        /// The item span.
        span: SourceSpan,
    },
}

impl PreStartHook {
    /// The span of the authored hook.
    pub open spec fn spec_span(&self) -> SourceSpan {
        match self {
            PreStartHook::Hook(hook) => hook.spec_span(),
            PreStartHook::Unmodeled { span } => *span,
        }
    }

    /// Returns the span of the authored hook.
    pub fn span(&self) -> (r: SourceSpan)
        ensures
            r == self.spec_span(),
    {
        match self {
            PreStartHook::Hook(hook) => hook.span(),
            PreStartHook::Unmodeled { span } => *span,
        }
    }
}

/// A list of `PostStartHook` items.
#[derive(Debug, Clone, PartialEq, Eq)]
pub struct PostStartHooks {
    span: SourceSpan,
    entries: Vec<PostStartHook>,
}

impl PostStartHooks {
    /// The source span.
    pub closed spec fn spec_span(&self) -> SourceSpan {
        self.span
    }

    /// The items in authored order.
    pub closed spec fn spec_entries(&self) -> Seq<PostStartHook> {
        self.entries@
    }

    /// Creates a `PostStartHooks`.
    pub fn new(span: SourceSpan, entries: Vec<PostStartHook>) -> (r: Self)
        ensures
            r.spec_span() == span,
            r.spec_entries() == entries@,
    {
        Self {
            span,
            entries,
        }
    }

    /// Returns the source span.
    pub fn span(&self) -> (r: SourceSpan)
        ensures
            r == self.spec_span(),
    {
        self.span
    }

    /// Returns the items in authored order.
    pub fn entries(&self) -> (r: &[PostStartHook])
        ensures
            r@ == self.spec_entries(),
    {
        self.entries.as_slice()
    }
}

/// A list of `PreStopHook` items.
#[derive(Debug, Clone, PartialEq, Eq)]
pub struct PreStopHooks {
    span: SourceSpan,
    entries: Vec<PreStopHook>,
}

impl PreStopHooks {
    /// The source span.
    pub closed spec fn spec_span(&self) -> SourceSpan {
        self.span
    }

    /// The items in authored order.
    pub closed spec fn spec_entries(&self) -> Seq<PreStopHook> {
        self.entries@
    }

    /// Creates a `PreStopHooks`.
    pub fn new(span: SourceSpan, entries: Vec<PreStopHook>) -> (r: Self)
        ensures
            r.spec_span() == span,
            r.spec_entries() == entries@,
    {
        Self {
            span,
            entries,
        }
    }

    /// Returns the source span.
    pub fn span(&self) -> (r: SourceSpan)
        ensures
            r == self.spec_span(),
    {
        self.span
    }

    /// Returns the items in authored order.
    pub fn entries(&self) -> (r: &[PreStopHook])
        ensures
            r@ == self.spec_entries(),
    {
        self.entries.as_slice()
    }
}

/// A list of `PreStartHook` items.
#[derive(Debug, Clone, PartialEq, Eq)]
pub struct PreStartHooks {
    span: SourceSpan,
    entries: Vec<PreStartHook>,
}

impl PreStartHooks {
    /// The source span.
    pub closed spec fn spec_span(&self) -> SourceSpan {
        self.span
    }

    /// The items in authored order.
    pub closed spec fn spec_entries(&self) -> Seq<PreStartHook> {
        self.entries@
    }

    /// Creates a `PreStartHooks`.
    pub fn new(span: SourceSpan, entries: Vec<PreStartHook>) -> (r: Self)
        ensures
            r.spec_span() == span,
            r.spec_entries() == entries@,
    {
        Self {
            span,
            entries,
        }
    }

    /// Returns the source span.
    pub fn span(&self) -> (r: SourceSpan)
        ensures
            r == self.spec_span(),
    {
        self.span
    }

    /// Returns the items in authored order.
    pub fn entries(&self) -> (r: &[PreStartHook])
        ensures
            r@ == self.spec_entries(),
    {
        self.entries.as_slice()
    }
}

} // verus!
