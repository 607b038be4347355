//! Service port forms.

use super::{lb, FieldReference, Located};
use crate::source::SourceSpan;
use crate::text::{
    bytes, find, find_byte, join_strs, join_with, lemma_after_ascii, lemma_find, lemma_sb_ascii_char, lemma_split_from_len, owned, rfind,
    rsplit_once, sb, slice, split_all_from, split_from, strs_bytes,
};
use vstd::utf8::*;
use vstd::prelude::*;

verus! {

broadcast use vstd::utf8::group_utf8_lib;

/// A short-syntax published port.
#[derive(Debug, Clone, PartialEq, Eq)]
pub struct ShortPort {
    raw: Located<String>,
    host_ip: Option<String>,
    published: Option<String>,
    target: String,
    protocol: Option<String>,
}

impl ShortPort {
    /// The complete semantic short string and source span.
    pub closed spec fn spec_raw(&self) -> Located<String> {
        self.raw
    }

    /// The conservatively parsed host address.
    pub closed spec fn spec_host_ip(&self) -> Option<String> {
        self.host_ip
    }

    /// The conservatively parsed published port or range.
    pub closed spec fn spec_published(&self) -> Option<String> {
        self.published
    }

    /// The conservatively parsed container port or range.
    pub closed spec fn spec_target(&self) -> String {
        self.target
    }

    /// The explicitly authored protocol.
    pub closed spec fn spec_protocol(&self) -> Option<String> {
        self.protocol
    }

    /// Returns the complete semantic short string and source span.
    pub fn raw(&self) -> (r: &Located<String>)
        ensures
            *r == self.spec_raw(),
    {
        &self.raw
    }

    /// Returns the conservatively parsed host address.
    pub fn host_ip(&self) -> (r: Option<&str>)
        ensures
            r is Some <==> self.spec_host_ip() is Some,
            r matches Some(v) ==> v@ == self.spec_host_ip()->0@,
    {
        match &self.host_ip {
            Some(v) => Some(v.as_str()),
            None => None,
        }
    }

    /// Returns the conservatively parsed published port or range.
    pub fn published(&self) -> (r: Option<&str>)
        ensures
            r is Some <==> self.spec_published() is Some,
            r matches Some(v) ==> v@ == self.spec_published()->0@,
    {
        match &self.published {
            Some(v) => Some(v.as_str()),
            None => None,
        }
    }

    /// Returns the conservatively parsed container port or range.
    pub fn target(&self) -> (r: &str)
        ensures
            r@ == self.spec_target()@,
    {
        self.target.as_str()
    }

    /// Returns the explicitly authored protocol.
    pub fn protocol(&self) -> (r: Option<&str>)
        ensures
            r is Some <==> self.spec_protocol() is Some,
            r matches Some(v) ==> v@ == self.spec_protocol()->0@,
    {
        match &self.protocol {
            Some(v) => Some(v.as_str()),
            None => None,
        }
    }

    /// Splits a short port into host address, published port, target and protocol: the
    /// protocol follows the last `/`, and the remaining text is cut at `:` (a leading
    /// bracketed host stays whole); the last field is the target, the one before it the
    /// published port, and the fields before those, joined with `:`, the host address.
    pub fn parse(raw: Located<String>) -> (r: Self)
        ensures
            r.spec_raw() == raw,
            rfind(lb(raw), 47) == -1 ==> r.spec_protocol() is None,
            rfind(lb(raw), 47) != -1 ==> r.spec_protocol() is Some && sb(r.spec_protocol()->0@) == lb(
                raw,
            ).subrange(rfind(lb(raw), 47) + 1, lb(raw).len() as int),
            sb(r.spec_target()@) == short_port_fields(lb(raw)).last(),
            r.spec_published() is Some <==> short_port_fields(lb(raw)).len() >= 2,
            r.spec_published() matches Some(p) ==> sb(p@) == short_port_fields(lb(raw))[short_port_fields(
                lb(raw),
            ).len() - 2],
            r.spec_host_ip() is Some <==> short_port_fields(lb(raw)).len() >= 3,
            r.spec_host_ip() matches Some(h) ==> sb(h@) == join_with(
                short_port_fields(lb(raw)).subrange(0, short_port_fields(lb(raw)).len() - 2),
                58,
            ),
    {
        let (without_protocol, protocol) = match rsplit_once(raw.value().as_str(), 47) {
            Some((value, protocol)) => (value, Some(owned(protocol))),
            None => (raw.value().as_str(), None),
        };
        let fields = split_port_fields(without_protocol);
        proof {
            lemma_port_fields_len(sb(without_protocol@));
        }
        let n = fields.len();
        assert(sb(fields@[n - 1]@) == strs_bytes(fields@)[n - 1]);
        let target = owned(fields[n - 1]);
        let published = if n >= 2 {
            assert(sb(fields@[n - 2]@) == strs_bytes(fields@)[n - 2]);
            Some(owned(fields[n - 2]))
        } else {
            None
        };
        let host_ip = if n >= 3 {
            proof {
                reveal_strlit(":");
                lemma_sb_ascii_char(':');
                assert(":"@ =~= seq![':']);
                assert((':' as u32 as u8) == 58u8);
                assert(strs_bytes(fields@.subrange(0, n - 2)) =~= strs_bytes(fields@).subrange(0, n - 2));
            }
            Some(join_strs(fields.as_slice(), n - 2, ":", 58))
        } else {
            None
        };
        Self { raw, host_ip, published, target, protocol }
    }
}

/// The fields of a port without its protocol: cut at `:`, except that a leading bracketed
/// host stays one field.
pub open spec fn port_fields(v: Seq<u8>) -> Seq<Seq<u8>> {
    let close = find(v, 93);
    if v.len() > 0 && v[0] == 91 && close != -1 {
        let k = if close + 1 < v.len() && v[close + 1] == 58 {
            close + 2
        } else {
            close + 1
        };
        seq![v.subrange(0, close + 1)] + split_from(v, 58, k)
    } else {
        split_from(v, 58, 0)
    }
}

/// The fields of a short port, after its protocol is cut off at the last `/`.
pub open spec fn short_port_fields(b: Seq<u8>) -> Seq<Seq<u8>> {
    if rfind(b, 47) == -1 {
        port_fields(b)
    } else {
        port_fields(b.subrange(0, rfind(b, 47)))
    }
}

/// A port has at least one field.
pub proof fn lemma_port_fields_len(v: Seq<u8>)
    ensures
        port_fields(v).len() >= 1,
{
    lemma_find(v, 93);
    lemma_split_from_len(v, 58, 0);
}

/// Cuts a port without its protocol into fields.
fn split_port_fields(value: &str) -> (r: Vec<&str>)
    ensures
        strs_bytes(r@) == port_fields(sb(value@)),
{
    let b = bytes(value);
    proof {
        lemma_find(b@, 93);
    }
    if b.len() > 0 && b[0] == 91 {
        match find_byte(value, 93) {
            Some(close) => {
                proof {
                    lemma_after_ascii(b@, close as int);
                    if close + 1 < b@.len() && b@[close + 1] == 58 {
                        lemma_after_ascii(b@, close + 1);
                    }
                }
                let host = slice(value, 0, close + 1);
                let k = if close + 1 < b.len() && b[close + 1] == 58 {
                    close + 2
                } else {
                    close + 1
                };
                let mut fields: Vec<&str> = Vec::new();
                fields.push(host);
                let mut rest = split_all_from(value, 58, k);
                let ghost first = fields@;
                let ghost others = rest@;
                fields.append(&mut rest);
                assert(strs_bytes(fields@) =~= strs_bytes(first) + strs_bytes(others));
                assert(strs_bytes(first) =~= seq![sb(host@)]);
                fields
            },
            None => split_all_from(value, 58, 0),
        }
    } else {
        split_all_from(value, 58, 0)
    }
}

/// A long-syntax published port.
#[derive(Debug, Clone, PartialEq, Eq)]
pub struct LongPort {
    span: SourceSpan,
    target: Option<Located<String>>,
    published: Option<Located<String>>,
    host_ip: Option<Located<String>>,
    protocol: Option<Located<String>>,
    app_protocol: Option<Located<String>>,
    mode: Option<Located<String>>,
    name: Option<Located<String>>,
    extension_fields: Vec<FieldReference>,
    unknown_fields: Vec<FieldReference>,
}

impl LongPort {
    /// The source span.
    pub closed spec fn spec_span(&self) -> SourceSpan {
        self.span
    }

    /// The container port or range.
    pub closed spec fn spec_target(&self) -> Option<Located<String>> {
        self.target
    }

    /// The published port or range.
    pub closed spec fn spec_published(&self) -> Option<Located<String>> {
        self.published
    }

    /// The host address.
    pub closed spec fn spec_host_ip(&self) -> Option<Located<String>> {
        self.host_ip
    }

    /// The protocol.
    pub closed spec fn spec_protocol(&self) -> Option<Located<String>> {
        self.protocol
    }

    /// The application protocol hint.
    pub closed spec fn spec_app_protocol(&self) -> Option<Located<String>> {
        self.app_protocol
    }

    /// The publication mode.
    pub closed spec fn spec_mode(&self) -> Option<Located<String>> {
        self.mode
    }

    /// The human-readable port name.
    pub closed spec fn spec_name(&self) -> Option<Located<String>> {
        self.name
    }

    /// The `x-` extension fields in source order.
    pub closed spec fn spec_extension_fields(&self) -> Seq<FieldReference> {
        self.extension_fields@
    }

    /// The unknown fields in source order.
    pub closed spec fn spec_unknown_fields(&self) -> Seq<FieldReference> {
        self.unknown_fields@
    }

    /// Creates a `LongPort` with no optional fields set.
    pub fn new(span: SourceSpan) -> (r: Self)
        ensures
            r.spec_span() == span,
            r.spec_target() is None,
            r.spec_published() is None,
            r.spec_host_ip() is None,
            r.spec_protocol() is None,
            r.spec_app_protocol() is None,
            r.spec_mode() is None,
            r.spec_name() is None,
            r.spec_extension_fields().len() == 0,
            r.spec_unknown_fields().len() == 0,
    {
        Self {
            span,
            target: None,
            published: None,
            host_ip: None,
            protocol: None,
            app_protocol: None,
            mode: None,
            name: None,
            extension_fields: Vec::new(),
            unknown_fields: Vec::new(),
        }
    }

    /// Sets the `target` field.
    pub fn set_target(&mut self, value: Located<String>)
        ensures
            final(self).spec_target() == Some(value),
            final(self).spec_span() == old(self).spec_span(),
            final(self).spec_published() == old(self).spec_published(),
            final(self).spec_host_ip() == old(self).spec_host_ip(),
            final(self).spec_protocol() == old(self).spec_protocol(),
            final(self).spec_app_protocol() == old(self).spec_app_protocol(),
            final(self).spec_mode() == old(self).spec_mode(),
            final(self).spec_name() == old(self).spec_name(),
            final(self).spec_extension_fields() == old(self).spec_extension_fields(),
            final(self).spec_unknown_fields() == old(self).spec_unknown_fields(),
    {
        self.target = Some(value);
    }

    /// Sets the `published` field.
    pub fn set_published(&mut self, value: Located<String>)
        ensures
            final(self).spec_published() == Some(value),
            final(self).spec_span() == old(self).spec_span(),
            final(self).spec_target() == old(self).spec_target(),
            final(self).spec_host_ip() == old(self).spec_host_ip(),
            final(self).spec_protocol() == old(self).spec_protocol(),
            final(self).spec_app_protocol() == old(self).spec_app_protocol(),
            final(self).spec_mode() == old(self).spec_mode(),
            final(self).spec_name() == old(self).spec_name(),
            final(self).spec_extension_fields() == old(self).spec_extension_fields(),
            final(self).spec_unknown_fields() == old(self).spec_unknown_fields(),
    {
        self.published = Some(value);
    }

    /// Sets the `host_ip` field.
    pub fn set_host_ip(&mut self, value: Located<String>)
        ensures
            final(self).spec_host_ip() == Some(value),
            final(self).spec_span() == old(self).spec_span(),
            final(self).spec_target() == old(self).spec_target(),
            final(self).spec_published() == old(self).spec_published(),
            final(self).spec_protocol() == old(self).spec_protocol(),
            final(self).spec_app_protocol() == old(self).spec_app_protocol(),
            final(self).spec_mode() == old(self).spec_mode(),
            final(self).spec_name() == old(self).spec_name(),
            final(self).spec_extension_fields() == old(self).spec_extension_fields(),
            final(self).spec_unknown_fields() == old(self).spec_unknown_fields(),
    {
        self.host_ip = Some(value);
    }

    /// Sets the `protocol` field.
    pub fn set_protocol(&mut self, value: Located<String>)
        ensures
            final(self).spec_protocol() == Some(value),
            final(self).spec_span() == old(self).spec_span(),
            final(self).spec_target() == old(self).spec_target(),
            final(self).spec_published() == old(self).spec_published(),
            final(self).spec_host_ip() == old(self).spec_host_ip(),
            final(self).spec_app_protocol() == old(self).spec_app_protocol(),
            final(self).spec_mode() == old(self).spec_mode(),
            final(self).spec_name() == old(self).spec_name(),
            final(self).spec_extension_fields() == old(self).spec_extension_fields(),
            final(self).spec_unknown_fields() == old(self).spec_unknown_fields(),
    {
        self.protocol = Some(value);
    }

    /// Sets the `app_protocol` field.
    pub fn set_app_protocol(&mut self, value: Located<String>)
        ensures
            final(self).spec_app_protocol() == Some(value),
            final(self).spec_span() == old(self).spec_span(),
            final(self).spec_target() == old(self).spec_target(),
            final(self).spec_published() == old(self).spec_published(),
            final(self).spec_host_ip() == old(self).spec_host_ip(),
            final(self).spec_protocol() == old(self).spec_protocol(),
            final(self).spec_mode() == old(self).spec_mode(),
            final(self).spec_name() == old(self).spec_name(),
            final(self).spec_extension_fields() == old(self).spec_extension_fields(),
            final(self).spec_unknown_fields() == old(self).spec_unknown_fields(),
    {
        self.app_protocol = Some(value);
    }

    /// Sets the `mode` field.
    pub fn set_mode(&mut self, value: Located<String>)
        ensures
            final(self).spec_mode() == Some(value),
            final(self).spec_span() == old(self).spec_span(),
            final(self).spec_target() == old(self).spec_target(),
            final(self).spec_published() == old(self).spec_published(),
            final(self).spec_host_ip() == old(self).spec_host_ip(),
            final(self).spec_protocol() == old(self).spec_protocol(),
            final(self).spec_app_protocol() == old(self).spec_app_protocol(),
            final(self).spec_name() == old(self).spec_name(),
            final(self).spec_extension_fields() == old(self).spec_extension_fields(),
            final(self).spec_unknown_fields() == old(self).spec_unknown_fields(),
    {
        self.mode = Some(value);
    }

    /// Sets the `name` field.
    pub fn set_name(&mut self, value: Located<String>)
        ensures
            final(self).spec_name() == Some(value),
            final(self).spec_span() == old(self).spec_span(),
            final(self).spec_target() == old(self).spec_target(),
            final(self).spec_published() == old(self).spec_published(),
            final(self).spec_host_ip() == old(self).spec_host_ip(),
            final(self).spec_protocol() == old(self).spec_protocol(),
            final(self).spec_app_protocol() == old(self).spec_app_protocol(),
            final(self).spec_mode() == old(self).spec_mode(),
            final(self).spec_extension_fields() == old(self).spec_extension_fields(),
            final(self).spec_unknown_fields() == old(self).spec_unknown_fields(),
    {
        self.name = Some(value);
    }

    /// Appends to the `extension_fields` list.
    pub fn push_extension(&mut self, value: FieldReference)
        ensures
            final(self).spec_extension_fields() == old(self).spec_extension_fields().push(value),
            final(self).spec_span() == old(self).spec_span(),
            final(self).spec_target() == old(self).spec_target(),
            final(self).spec_published() == old(self).spec_published(),
            final(self).spec_host_ip() == old(self).spec_host_ip(),
            final(self).spec_protocol() == old(self).spec_protocol(),
            final(self).spec_app_protocol() == old(self).spec_app_protocol(),
            final(self).spec_mode() == old(self).spec_mode(),
            final(self).spec_name() == old(self).spec_name(),
            final(self).spec_unknown_fields() == old(self).spec_unknown_fields(),
    {
        self.extension_fields.push(value);
    }

    /// Appends to the `unknown_fields` list.
    pub fn push_unknown(&mut self, value: FieldReference)
        ensures
            final(self).spec_unknown_fields() == old(self).spec_unknown_fields().push(value),
            final(self).spec_span() == old(self).spec_span(),
            final(self).spec_target() == old(self).spec_target(),
            final(self).spec_published() == old(self).spec_published(),
            final(self).spec_host_ip() == old(self).spec_host_ip(),
            final(self).spec_protocol() == old(self).spec_protocol(),
            final(self).spec_app_protocol() == old(self).spec_app_protocol(),
            final(self).spec_mode() == old(self).spec_mode(),
            final(self).spec_name() == old(self).spec_name(),
            final(self).spec_extension_fields() == old(self).spec_extension_fields(),
    {
        self.unknown_fields.push(value);
    }

    /// Returns the source span.
    pub fn span(&self) -> (r: SourceSpan)
        ensures
            r == self.spec_span(),
    {
        self.span
    }

    /// Returns the container port or range.
    pub fn target(&self) -> (r: Option<&Located<String>>)
        ensures
            r is Some <==> self.spec_target() is Some,
            r matches Some(v) ==> *v == self.spec_target()->0,
    {
        self.target.as_ref()
    }

    /// Returns the published port or range.
    pub fn published(&self) -> (r: Option<&Located<String>>)
        ensures
            r is Some <==> self.spec_published() is Some,
            r matches Some(v) ==> *v == self.spec_published()->0,
    {
        self.published.as_ref()
    }

    /// Returns the host address.
    pub fn host_ip(&self) -> (r: Option<&Located<String>>)
        ensures
            r is Some <==> self.spec_host_ip() is Some,
            r matches Some(v) ==> *v == self.spec_host_ip()->0,
    {
        self.host_ip.as_ref()
    }

    /// Returns the protocol.
    pub fn protocol(&self) -> (r: Option<&Located<String>>)
        ensures
            r is Some <==> self.spec_protocol() is Some,
            r matches Some(v) ==> *v == self.spec_protocol()->0,
    {
        self.protocol.as_ref()
    }

    /// Returns the application protocol hint.
    pub fn app_protocol(&self) -> (r: Option<&Located<String>>)
        ensures
            r is Some <==> self.spec_app_protocol() is Some,
            r matches Some(v) ==> *v == self.spec_app_protocol()->0,
    {
        self.app_protocol.as_ref()
    }

    /// Returns the publication mode.
    pub fn mode(&self) -> (r: Option<&Located<String>>)
        ensures
            r is Some <==> self.spec_mode() is Some,
            r matches Some(v) ==> *v == self.spec_mode()->0,
    {
        self.mode.as_ref()
    }

    /// Returns the human-readable port name.
    pub fn name(&self) -> (r: Option<&Located<String>>)
        ensures
            r is Some <==> self.spec_name() is Some,
            r matches Some(v) ==> *v == self.spec_name()->0,
    {
        self.name.as_ref()
    }

    /// Returns the `x-` extension fields in source order.
    pub fn extension_fields(&self) -> (r: &[FieldReference])
        ensures
            r@ == self.spec_extension_fields(),
    {
        self.extension_fields.as_slice()
    }

    /// Returns the unknown fields in source order.
    pub fn unknown_fields(&self) -> (r: &[FieldReference])
        ensures
            r@ == self.spec_unknown_fields(),
    {
        self.unknown_fields.as_slice()
    }
}

/// A service port with its authored short or long form retained.
#[derive(Debug, Clone, PartialEq, Eq)]
pub enum Port {
    /// String or numeric scalar short syntax.
    Short(ShortPort),
    /// Mapping-based long syntax.
    Long(Box<LongPort>),
}

impl Port {
    /// The complete port value span.
    pub open spec fn spec_span(&self) -> SourceSpan {
        match self {
            Port::Short(value) => value.spec_raw().spec_span(),
            Port::Long(value) => value.spec_span(),
        }
    }

    /// Returns the complete port value span.
    pub fn span(&self) -> (r: SourceSpan)
        ensures
            r == self.spec_span(),
    {
        match self {
            Port::Short(value) => value.raw().span(),
            Port::Long(value) => value.span(),
        }
    }
}

} // verus!
