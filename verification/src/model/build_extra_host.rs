//! Build-specific `extra_hosts` values.

use super::Located;
use crate::source::SourceSpan;
use vstd::prelude::*;

verus! {

/// A build `extra_hosts` value in list or map form.
#[derive(Debug, Clone, PartialEq, Eq)]
pub enum BuildExtraHosts {
    /// A list of `host=address` strings.
    List {
        /// The list span.
        span: SourceSpan,
        /// The authored items.
        values: Vec<Located<String>>,
    },
    /// A mapping from hostnames to addresses.
    Mapping {
        /// The mapping span.
        span: SourceSpan,
        /// The entries in authored order.
        entries: Vec<BuildExtraHostEntry>,
    },
}

impl BuildExtraHosts {
    /// The span of the authored value.
    pub open spec fn spec_span(&self) -> SourceSpan {
        match self {
            BuildExtraHosts::List { span, .. } => *span,
            BuildExtraHosts::Mapping { span, .. } => *span,
        }
    }

    /// Returns the span of the authored value.
    pub fn span(&self) -> (r: SourceSpan)
        ensures
            r == self.spec_span(),
    {
        match self {
            BuildExtraHosts::List { span, .. } => *span,
            BuildExtraHosts::Mapping { span, .. } => *span,
        }
    }
}

/// One hostname entry of a build `extra_hosts` mapping.
#[derive(Debug, Clone, PartialEq, Eq)]
pub struct BuildExtraHostEntry {
    hostname: Located<String>,
    addresses: BuildExtraHostAddresses,
    span: SourceSpan,
}

impl BuildExtraHostEntry {
    /// The hostname key.
    pub closed spec fn spec_hostname(&self) -> Located<String> {
        self.hostname
    }

    /// The address or addresses.
    pub closed spec fn spec_addresses(&self) -> BuildExtraHostAddresses {
        self.addresses
    }

    /// The source span.
    pub closed spec fn spec_span(&self) -> SourceSpan {
        self.span
    }

    /// Creates a `BuildExtraHostEntry`.
    pub fn new(hostname: Located<String>, addresses: BuildExtraHostAddresses, span: SourceSpan) -> (r: Self)
        ensures
            r.spec_hostname() == hostname,
            r.spec_addresses() == addresses,
            r.spec_span() == span,
    {
        Self {
            hostname,
            addresses,
            span,
        }
    }

    /// Returns the hostname key.
    pub fn hostname(&self) -> (r: &Located<String>)
        ensures
            *r == self.spec_hostname(),
    {
        &self.hostname
    }

    /// Returns the address or addresses.
    pub fn addresses(&self) -> (r: &BuildExtraHostAddresses)
        ensures
            *r == self.spec_addresses(),
    {
        &self.addresses
    }

    /// Returns the source span.
    pub fn span(&self) -> (r: SourceSpan)
        ensures
            r == self.spec_span(),
    {
        self.span
    }
}

/// The address value of a build `extra_hosts` entry.
#[derive(Debug, Clone, PartialEq, Eq)]
pub enum BuildExtraHostAddresses {
    /// A single address scalar.
    Scalar(Located<String>),
    /// A list of addresses.
    List {
        /// The list span.
        span: SourceSpan,
        /// The authored addresses.
        values: Vec<Located<String>>,
    },
}

impl BuildExtraHostAddresses {
    /// The span of the authored value.
    pub open spec fn spec_span(&self) -> SourceSpan {
        match self {
            BuildExtraHostAddresses::Scalar(value) => value.spec_span(),
            BuildExtraHostAddresses::List { span, .. } => *span,
        }
    }

    /// Returns the scalar address, when authored as a scalar.
    pub fn as_scalar(&self) -> (r: Option<&Located<String>>)
        ensures
            r is Some <==> self is Scalar,
            r matches Some(v) ==> self == BuildExtraHostAddresses::Scalar(*v),
    {
        match self {
            BuildExtraHostAddresses::Scalar(value) => Some(value),
            BuildExtraHostAddresses::List { .. } => None,
        }
    }

    /// Returns the address list, when authored as a list.
    pub fn as_list(&self) -> (r: Option<&[Located<String>]>)
        ensures
            r is Some <==> self is List,
            r matches Some(v) ==> self matches BuildExtraHostAddresses::List { values, .. } && v@
                == values@,
    {
        match self {
            BuildExtraHostAddresses::Scalar(_) => None,
            BuildExtraHostAddresses::List { values, .. } => Some(values.as_slice()),
        }
    }

    /// Returns the span of the authored value.
    pub fn span(&self) -> (r: SourceSpan)
        ensures
            r == self.spec_span(),
    {
        match self {
            BuildExtraHostAddresses::Scalar(value) => value.span(),
            BuildExtraHostAddresses::List { span, .. } => *span,
        }
    }
}

} // verus!
