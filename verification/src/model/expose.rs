//! Raw-preserving service exposed-port declarations.

use super::{lb, Located};
use crate::source::SourceSpan;
use crate::text::{contains_byte, decimal, decimal_str, find, owned, sb, split_once, str_eq};
use vstd::prelude::*;

verus! {

/// The YAML scalar family of an exposed-port item.
#[derive(Debug, Clone, Copy, PartialEq, Eq, Hash, Structural)]
#[non_exhaustive]
pub enum ExposeScalarKind {
    /// A YAML number.
    Number,
    /// A YAML string.
    String,
}

/// A documented exposed-port protocol.
#[derive(Debug, Clone, Copy, PartialEq, Eq, Hash, Structural)]
#[non_exhaustive]
pub enum ExposeProtocol {
    /// `tcp`.
    Tcp,
    /// `udp`.
    Udp,
}

/// A port or port range with its authored digits.
#[derive(Debug, Clone, PartialEq, Eq, Hash)]
pub struct ExposePort {
    start: String,
    end: Option<String>,
}

impl ExposePort {
    /// The first port.
    pub closed spec fn spec_start(&self) -> String {
        self.start
    }

    /// The last port of a range.
    pub closed spec fn spec_end(&self) -> Option<String> {
        self.end
    }

    /// Returns the first port's digits.
    pub fn start(&self) -> (r: &str)
        ensures
            r@ == self.spec_start()@,
    {
        self.start.as_str()
    }

    /// Returns the last port's digits of a range.
    pub fn end(&self) -> (r: Option<&str>)
        ensures
            r is Some <==> self.spec_end() is Some,
            r matches Some(e) ==> e@ == self.spec_end()->0@,
    {
        match &self.end {
            Some(e) => Some(e.as_str()),
            None => None,
        }
    }
}

/// The semantic family of an exposed-port item.
#[derive(Debug, Clone, PartialEq, Eq)]
#[non_exhaustive]
pub enum ExposeItemKind {
    /// A port or range with no protocol, `tcp` or `udp`.
    Documented {
        /// The port or range.
        port: ExposePort,
        /// The protocol, when authored.
        protocol: Option<ExposeProtocol>,
    },
    /// A port or range with `sctp`.
    Sctp {
        /// The port or range.
        port: ExposePort,
    },
    /// A port or range with another protocol.
    UnknownProtocol {
        /// The port or range.
        port: ExposePort,
        /// The authored protocol.
        protocol: String,
    },
    /// A string containing a dollar marker and therefore deferred to interpolation.
    Expression,
    /// Anything else.
    Malformed,
}

/// One exposed-port item.
#[derive(Debug, Clone, PartialEq, Eq)]
pub struct ExposeItem {
    raw: Located<String>,
    scalar_kind: ExposeScalarKind,
    kind: ExposeItemKind,
}

impl ExposeItem {
    /// The authored scalar.
    pub closed spec fn spec_raw(&self) -> Located<String> {
        self.raw
    }

    /// The YAML scalar family.
    pub closed spec fn spec_scalar_kind(&self) -> ExposeScalarKind {
        self.scalar_kind
    }

    /// The classification.
    pub closed spec fn spec_kind(&self) -> ExposeItemKind {
        self.kind
    }

    /// Classifies an exposed-port item.
    pub fn parse(raw: Located<String>, scalar_kind: ExposeScalarKind) -> (e: Self)
        ensures
            e.spec_raw() == raw,
            e.spec_scalar_kind() == scalar_kind,
            expose_matches(lb(raw), scalar_kind, e.spec_kind()),
    {
        let kind = classify_expose_item(raw.value().as_str(), scalar_kind);
        Self { raw, scalar_kind, kind }
    }

    /// Returns the authored value.
    pub fn value(&self) -> (r: &str)
        ensures
            r@ == self.spec_raw().spec_value()@,
    {
        self.raw.value().as_str()
    }

    /// Returns the item span.
    pub fn span(&self) -> (r: SourceSpan)
        ensures
            r == self.spec_raw().spec_span(),
    {
        self.raw.span()
    }

    /// Returns the YAML scalar family.
    pub fn scalar_kind(&self) -> (r: ExposeScalarKind)
        ensures
            r == self.spec_scalar_kind(),
    {
        self.scalar_kind
    }

    /// Returns the classification.
    pub fn kind(&self) -> (r: &ExposeItemKind)
        ensures
            *r == self.spec_kind(),
    {
        &self.kind
    }
}

/// A service `expose` list.
#[derive(Debug, Clone, PartialEq, Eq)]
pub struct Expose {
    span: SourceSpan,
    items: Vec<ExposeItem>,
}

impl Expose {
    /// The list span.
    pub closed spec fn spec_span(&self) -> SourceSpan {
        self.span
    }

    /// The items in authored order.
    pub closed spec fn spec_items(&self) -> Seq<ExposeItem> {
        self.items@
    }

    /// Creates an exposed-port list.
    pub fn new(span: SourceSpan, items: Vec<ExposeItem>) -> (r: Self)
        ensures
            r.spec_span() == span,
            r.spec_items() == items@,
    {
        Self { span, items }
    }

    /// Returns the list span.
    pub fn span(&self) -> (r: SourceSpan)
        ensures
            r == self.spec_span(),
    {
        self.span
    }

    /// Returns the items in authored order.
    pub fn items(&self) -> (r: &[ExposeItem])
        ensures
            r@ == self.spec_items(),
    {
        self.items.as_slice()
    }
}

/// The port or range `start[-end]` is well formed and `port` holds its digits.
pub open spec fn port_matches(b: Seq<u8>, port: ExposePort) -> bool {
    let dash = find(b, 45);
    if dash == -1 {
        decimal(b) && sb(port.spec_start()@) == b && port.spec_end() is None
    } else {
        let start = b.subrange(0, dash);
        let end = b.subrange(dash + 1, b.len() as int);
        decimal(start) && decimal(end) && sb(port.spec_start()@) == start && port.spec_end() is Some
            && sb(port.spec_end()->0@) == end
    }
}

/// The port part is a well formed port or range.
pub open spec fn port_ok(b: Seq<u8>) -> bool {
    let dash = find(b, 45);
    if dash == -1 {
        decimal(b)
    } else {
        decimal(b.subrange(0, dash)) && decimal(b.subrange(dash + 1, b.len() as int))
    }
}

/// The classification of an exposed-port item.
pub open spec fn expose_matches(b: Seq<u8>, scalar_kind: ExposeScalarKind, kind: ExposeItemKind) -> bool {
    if scalar_kind == ExposeScalarKind::String && b.contains(36) {
        kind is Expression
    } else {
        let slash = find(b, 47);
        let port_part = if slash == -1 {
            b
        } else {
            b.subrange(0, slash)
        };
        let protocol = b.subrange(slash + 1, b.len() as int);
        if slash != -1 && (protocol.len() == 0 || protocol.contains(47)) {
            kind is Malformed
        } else if !port_ok(port_part) {
            kind is Malformed
        } else if slash == -1 {
            kind matches ExposeItemKind::Documented { port, protocol } && port_matches(port_part, port)
                && protocol is None
        } else if protocol == sb("tcp"@) {
            kind matches ExposeItemKind::Documented { port, protocol } && port_matches(port_part, port)
                && protocol == Some(ExposeProtocol::Tcp)
        } else if protocol == sb("udp"@) {
            kind matches ExposeItemKind::Documented { port, protocol } && port_matches(port_part, port)
                && protocol == Some(ExposeProtocol::Udp)
        } else if protocol == sb("sctp"@) {
            kind matches ExposeItemKind::Sctp { port } && port_matches(port_part, port)
        } else {
            kind matches ExposeItemKind::UnknownProtocol { port, protocol: p } && port_matches(
                port_part,
                port,
            ) && sb(p@) == protocol
        }
    }
}

/// Classifies an exposed-port value.
pub fn classify_expose_item(value: &str, scalar_kind: ExposeScalarKind) -> (r: ExposeItemKind)
    ensures
        expose_matches(sb(value@), scalar_kind, r),
{
    if scalar_kind == ExposeScalarKind::String && contains_byte(value, 36) {
        return ExposeItemKind::Expression;
    }
    let (port_value, protocol) = match split_once(value, 47) {
        Some((port, protocol)) => {
            if crate::text::is_empty(protocol) || contains_byte(protocol, 47) {
                return ExposeItemKind::Malformed;
            }
            (port, Some(protocol))
        },
        None => (value, None),
    };
    let port = match parse_port(port_value) {
        Some(port) => port,
        None => return ExposeItemKind::Malformed,
    };
    match protocol {
        None => ExposeItemKind::Documented { port, protocol: None },
        Some(p) => {
            proof {
                crate::text::lemma_sb_injective(p@, "tcp"@);
                crate::text::lemma_sb_injective(p@, "udp"@);
                crate::text::lemma_sb_injective(p@, "sctp"@);
            }
            if str_eq(p, "tcp") {
                ExposeItemKind::Documented { port, protocol: Some(ExposeProtocol::Tcp) }
            } else if str_eq(p, "udp") {
                ExposeItemKind::Documented { port, protocol: Some(ExposeProtocol::Udp) }
            } else if str_eq(p, "sctp") {
                ExposeItemKind::Sctp { port }
            } else {
                ExposeItemKind::UnknownProtocol { port, protocol: owned(p) }
            }
        },
    }
}

/// A generated exposed-port item: documented, with no `$`, line break or NUL.
pub open spec fn generated_expose_ok(b: Seq<u8>) -> bool {
    (exists|k: ExposeItemKind| #[trigger] expose_matches(b, ExposeScalarKind::String, k) && k is Documented)
        && !b.contains(36) && !b.contains(13) && !b.contains(10) && !b.contains(0)
}

/// Reports whether a generated value is a documented exposed-port item that needs no
/// further interpolation or escaping.
pub fn valid_generated_expose_item(value: &str) -> (r: bool)
    ensures
        r == generated_expose_ok(sb(value@)),
{
    let k = classify_expose_item(value, ExposeScalarKind::String);
    let documented = matches!(k, ExposeItemKind::Documented { .. });
    proof {
        if !documented {
            assert forall|k2: ExposeItemKind| #[trigger] expose_matches(sb(value@), ExposeScalarKind::String, k2)
                implies !(k2 is Documented) by {
                assert(k is Documented == k2 is Documented);
            }
        }
    }
    documented && !contains_byte(value, 36) && !contains_byte(value, 13) && !contains_byte(value, 10)
        && !contains_byte(value, 0)
}

/// Splits and checks a port or port range.
pub fn parse_port(value: &str) -> (r: Option<ExposePort>)
    ensures
        r is Some <==> port_ok(sb(value@)),
        r matches Some(p) ==> port_matches(sb(value@), p),
{
    let (start, end) = match split_once(value, 45) {
        Some((start, end)) => (start, Some(end)),
        None => (value, None),
    };
    if !decimal_str(start) {
        return None;
    }
    match end {
        Some(e) => {
            if !decimal_str(e) {
                return None;
            }
            Some(ExposePort { start: owned(start), end: Some(owned(e)) })
        },
        None => Some(ExposePort { start: owned(start), end: None }),
    }
}

/// Reports whether the text is a non-empty run of decimal digits.
pub fn decimal_port(value: &str) -> (r: bool)
    ensures
        r == decimal(sb(value@)),
{
    decimal_str(value)
}

} // verus!
