//! Source-aware extra-host mappings.
//!
//! Addresses are classified by the textual IPv4 and IPv6 address forms: four dot-separated
//! decimal octets without leading zeros, and eight colon-separated groups of one to four
//! hexadecimal digits, where one `::` may stand for one or more zero groups and the last
//! two groups may be written as an IPv4 address.

use super::{lb, lc, Located};
use crate::source::SourceSpan;
use crate::text::{
    bytes, find, is_digit, is_hex, lemma_after_ascii, lemma_ascii_boundary, lemma_find, owned, sb, slice,
    split_all_from, split_from, split_once, str_eq, strs_bytes,
};
use vstd::prelude::*;
use vstd::utf8::*;

verus! {

broadcast use vstd::utf8::group_utf8_lib;

/// The value of a run of ASCII decimal digits.
pub open spec fn digits_value(b: Seq<u8>) -> int
    decreases b.len(),
{
    if b.len() == 0 {
        0
    } else {
        digits_value(b.drop_last()) * 10 + (b.last() - 48)
    }
}

/// One IPv4 octet: one to three decimal digits, at most 255, with no leading zero.
pub open spec fn is_dec_octet(b: Seq<u8>) -> bool {
    &&& 1 <= b.len() <= 3
    &&& forall|i: int| 0 <= i < b.len() ==> is_digit(#[trigger] b[i])
    &&& digits_value(b) <= 255
    &&& b.len() > 1 ==> b[0] != 48
}

/// An IPv4 address: four octets separated by dots.
pub open spec fn is_ipv4(b: Seq<u8>) -> bool {
    let parts = split_from(b, 46, 0);
    parts.len() == 4 && forall|i: int| 0 <= i < 4 ==> is_dec_octet(#[trigger] parts[i])
}

/// One IPv6 group: one to four hexadecimal digits.
pub open spec fn is_h16(b: Seq<u8>) -> bool {
    1 <= b.len() <= 4 && forall|i: int| 0 <= i < b.len() ==> is_hex(#[trigger] b[i])
}

/// The colon-separated groups of a part of an IPv6 address; none for an empty part.
pub open spec fn groups(b: Seq<u8>) -> Seq<Seq<u8>> {
    if b.len() == 0 {
        seq![]
    } else {
        split_from(b, 58, 0)
    }
}

/// Every group is a hexadecimal group, except that the last may be an IPv4 address when
/// `v4_last` allows it.
pub open spec fn valid_groups(p: Seq<Seq<u8>>, v4_last: bool) -> bool {
    &&& forall|i: int| 0 <= i < p.len() - 1 ==> is_h16(#[trigger] p[i])
    &&& p.len() > 0 ==> (is_h16(p.last()) || (v4_last && is_ipv4(p.last())))
}

/// The number of 16-bit groups that a list of groups stands for: a trailing IPv4 address
/// stands for two.
pub open spec fn width(p: Seq<Seq<u8>>) -> int {
    if p.len() > 0 && is_ipv4(p.last()) {
        p.len() + 1int
    } else {
        p.len() as int
    }
}

/// The first index at which `::` starts, or `-1`.
pub open spec fn find_double_colon(b: Seq<u8>, i: int) -> int
    decreases b.len() - i,
{
    if i < 0 || i + 1 >= b.len() {
        -1
    } else if b[i] == 58 && b[i + 1] == 58 {
        i
    } else {
        find_double_colon(b, i + 1)
    }
}

/// An IPv6 address: eight groups, or fewer around one `::`, which stands for at least one.
pub open spec fn is_ipv6(b: Seq<u8>) -> bool {
    let k = find_double_colon(b, 0);
    if k == -1 {
        let p = split_from(b, 58, 0);
        valid_groups(p, true) && width(p) == 8
    } else {
        let h = groups(b.subrange(0, k));
        let t = groups(b.subrange(k + 2, b.len() as int));
        valid_groups(h, false) && valid_groups(t, true) && width(h) + width(t) <= 7
    }
}

proof fn lemma_find_double_colon(b: Seq<u8>, i: int)
    requires
        0 <= i,
    ensures
        find_double_colon(b, i) == -1 || (i <= find_double_colon(b, i) && find_double_colon(b, i) + 1 < b.len()
            && b[find_double_colon(b, i)] == 58 && b[find_double_colon(b, i) + 1] == 58),
    decreases b.len() - i,
{
    if i + 1 < b.len() && !(b[i] == 58 && b[i + 1] == 58) {
        lemma_find_double_colon(b, i + 1);
    }
}

/// Reports whether bytes form one IPv4 octet.
fn dec_octet(p: &[u8]) -> (r: bool)
    ensures
        r == is_dec_octet(p@),
{
    let n = p.len();
    if n < 1 || n > 3 {
        return false;
    }
    let mut value: u32 = 0;
    let mut i: usize = 0;
    while i < n
        invariant
            n == p@.len(),
            1 <= n <= 3,
            0 <= i <= n,
            forall|j: int| 0 <= j < i ==> is_digit(#[trigger] p@[j]),
            value == digits_value(p@.subrange(0, i as int)),
            i == 0 ==> value == 0,
            i == 1 ==> value < 10,
            i == 2 ==> value < 100,
            value < 1000,
        decreases n - i,
    {
        if !(48 <= p[i] && p[i] <= 57) {
            return false;
        }
        proof {
            assert(p@.subrange(0, i + 1).drop_last() =~= p@.subrange(0, i as int));
        }
        value = value * 10 + (p[i] - 48) as u32;
        i += 1;
    }
    assert(p@.subrange(0, n as int) =~= p@);
    value <= 255 && !(n > 1 && p[0] == 48)
}

/// Reports whether bytes form one hexadecimal group.
fn h16(p: &[u8]) -> (r: bool)
    ensures
        r == is_h16(p@),
{
    let n = p.len();
    if n < 1 || n > 4 {
        return false;
    }
    let mut i: usize = 0;
    while i < n
        invariant
            n == p@.len(),
            0 <= i <= n,
            forall|j: int| 0 <= j < i ==> is_hex(#[trigger] p@[j]),
        decreases n - i,
    {
        let c = p[i];
        if !((48 <= c && c <= 57) || (65 <= c && c <= 70) || (97 <= c && c <= 102)) {
            return false;
        }
        i += 1;
    }
    true
}

/// Reports whether a text is an IPv4 address.
pub fn ipv4_text(s: &str) -> (r: bool)
    ensures
        r == is_ipv4(sb(s@)),
{
    let parts = split_all_from(s, 46, 0);
    if parts.len() != 4 {
        return false;
    }
    let mut i: usize = 0;
    while i < 4
        invariant
            parts@.len() == 4,
            strs_bytes(parts@) == split_from(sb(s@), 46, 0),
            0 <= i <= 4,
            forall|j: int| 0 <= j < i ==> is_dec_octet(#[trigger] split_from(sb(s@), 46, 0)[j]),
        decreases 4 - i,
    {
        assert(strs_bytes(parts@)[i as int] == sb(parts@[i as int]@));
        if !dec_octet(bytes(parts[i])) {
            return false;
        }
        i += 1;
    }
    true
}

/// Reports whether groups are valid, as [`valid_groups`] states.
fn groups_valid(parts: &Vec<&str>, v4_last: bool) -> (r: bool)
    ensures
        r == valid_groups(strs_bytes(parts@), v4_last),
{
    let n = parts.len();
    let ghost p = strs_bytes(parts@);
    let mut i: usize = 0;
    while n > 0 && i < n - 1
        invariant
            n == parts@.len(),
            p == strs_bytes(parts@),
            0 <= i <= n,
            i + 1 <= n || n == 0,
            forall|j: int| 0 <= j < i ==> is_h16(#[trigger] p[j]),
        decreases n - i,
    {
        assert(p[i as int] == sb(parts@[i as int]@));
        if !h16(bytes(parts[i])) {
            return false;
        }
        i += 1;
    }
    if n == 0 {
        return true;
    }
    assert(p[n - 1] == sb(parts@[n - 1]@));
    let last = parts[n - 1];
    h16(bytes(last)) || (v4_last && ipv4_text(last))
}

/// Returns what [`width`] states for a list of groups, or 9 where that is more.
fn groups_width(parts: &Vec<&str>) -> (r: usize)
    ensures
        r == if width(strs_bytes(parts@)) > 9 {
            9
        } else {
            width(strs_bytes(parts@))
        },
{
    let n = parts.len();
    if n > 8 {
        return 9;
    }
    if n > 0 {
        assert(strs_bytes(parts@).last() == sb(parts@[n - 1]@));
        if ipv4_text(parts[n - 1]) {
            return n + 1;
        }
    }
    n
}

/// Splits a part of an IPv6 address into its groups.
fn split_groups(s: &str) -> (r: Vec<&str>)
    ensures
        strs_bytes(r@) == groups(sb(s@)),
{
    if crate::text::is_empty(s) {
        let none: Vec<&str> = Vec::new();
        assert(strs_bytes(none@) =~= Seq::<Seq<u8>>::empty());
        none
    } else {
        split_all_from(s, 58, 0)
    }
}

/// Reports whether a text is an IPv6 address.
pub fn ipv6_text(s: &str) -> (r: bool)
    ensures
        r == is_ipv6(sb(s@)),
{
    let b = bytes(s);
    let n = b.len();
    let mut i: usize = 0;
    let mut k: Option<usize> = None;
    while n > 0 && i < n - 1
        invariant
            b@ == sb(s@),
            n == b@.len(),
            0 <= i,
            i + 1 < n ==> i < n,
            k is None ==> find_double_colon(b@, 0) == find_double_colon(b@, i as int),
            k matches Some(x) ==> x == find_double_colon(b@, 0) && x + 1 < n && b@[x as int] == 58,
            k is Some ==> i + 1 >= n,
        decreases n - i,
    {
        if b[i] == 58 && b[i + 1] == 58 {
            k = Some(i);
            i = n;
        } else {
            i += 1;
        }
    }
    match k {
        None => {
            assert(find_double_colon(b@, 0) == -1);
            let parts = split_all_from(s, 58, 0);
            groups_valid(&parts, true) && groups_width(&parts) == 8
        },
        Some(x) => {
            proof {
                lemma_find_double_colon(b@, 0);
                lemma_ascii_boundary(b@, x as int);
                lemma_after_ascii(b@, x as int);
                lemma_after_ascii(b@, x + 1);
            }
            let head = slice(s, 0, x);
            let tail = slice(s, x + 2, n);
            let h = split_groups(head);
            let t = split_groups(tail);
            if !groups_valid(&h, false) || !groups_valid(&t, true) {
                return false;
            }
            let hw = groups_width(&h);
            let tw = groups_width(&t);
            hw <= 7 && tw <= 7 - hw
        },
    }
}

/// The authored collection form of `extra_hosts`.
#[derive(Debug, Clone, PartialEq, Eq)]
pub enum ExtraHosts {
    /// Sequence-based short syntax.
    Short {
        /// The complete sequence span.
        span: SourceSpan,
        /// Host mappings in authored order.
        entries: Vec<ShortExtraHost>,
    },
    /// Mapping-based long syntax.
    Long {
        /// The complete mapping span.
        span: SourceSpan,
        /// Host mappings in authored order.
        entries: Vec<LongExtraHost>,
    },
}

impl ExtraHosts {
    /// The complete collection span.
    pub open spec fn spec_span(&self) -> SourceSpan {
        match self {
            ExtraHosts::Short { span, .. } => *span,
            ExtraHosts::Long { span, .. } => *span,
        }
    }

    /// Some entry uses the implementation token `host-gateway`.
    pub open spec fn spec_contains_host_gateway(&self) -> bool {
        match self {
            ExtraHosts::Short { entries, .. } => exists|i: int|
                0 <= i < entries@.len() && (#[trigger] entries@[i]).is_gateway_entry(),
            ExtraHosts::Long { entries, .. } => exists|i: int|
                0 <= i < entries@.len() && (#[trigger] entries@[i]).spec_address().spec_value().spec_kind()
                    == HostAddressKind::HostGateway,
        }
    }

    /// Returns the complete collection span.
    pub fn span(&self) -> (r: SourceSpan)
        ensures
            r == self.spec_span(),
    {
        match self {
            ExtraHosts::Short { span, .. } => *span,
            ExtraHosts::Long { span, .. } => *span,
        }
    }

    /// Reports whether any entry uses the implementation token `host-gateway`.
    pub fn contains_host_gateway(&self) -> (r: bool)
        ensures
            r == self.spec_contains_host_gateway(),
    {
        match self {
            ExtraHosts::Short { entries, .. } => {
                let mut i: usize = 0;
                while i < entries.len()
                    invariant
                        0 <= i <= entries@.len(),
                        self matches ExtraHosts::Short { entries: e, .. } && e@ == entries@,
                        forall|j: int|
                            0 <= j < i ==> !(#[trigger] entries@[j]).is_gateway_entry(),
                    decreases entries@.len() - i,
                {
                    match entries[i].address() {
                        Some(address) => {
                            if address.is_host_gateway() {
                                assert(entries@[i as int].is_gateway_entry());
                                return true;
                            }
                        },
                        None => {},
                    }
                    i += 1;
                }
                false
            },
            ExtraHosts::Long { entries, .. } => {
                let mut i: usize = 0;
                while i < entries.len()
                    invariant
                        0 <= i <= entries@.len(),
                        self matches ExtraHosts::Long { entries: e, .. } && e@ == entries@,
                        forall|j: int|
                            0 <= j < i ==> (#[trigger] entries@[j]).spec_address().spec_value().spec_kind()
                                != HostAddressKind::HostGateway,
                    decreases entries@.len() - i,
                {
                    if entries[i].address().value().is_host_gateway() {
                        assert(entries@[i as int].spec_address().spec_value().spec_kind() == HostAddressKind::HostGateway);
                        return true;
                    }
                    i += 1;
                }
                false
            },
        }
    }
}

/// The separator used by one short `extra_hosts` entry.
#[derive(Debug, Clone, Copy, PartialEq, Eq, Hash, Structural)]
pub enum ExtraHostSeparator {
    /// Preferred `HOST=ADDRESS` spelling.
    Equals,
    /// Compatibility `HOST:ADDRESS` spelling.
    Colon,
}

/// A short entry read as hostname, address and separator: split at the first `=` when
/// there is one and otherwise at the first `:`, both sides non-empty.
pub open spec fn short_entry_split(b: Seq<u8>) -> Option<(Seq<u8>, Seq<u8>, ExtraHostSeparator)> {
    let e = find(b, 61);
    let c = find(b, 58);
    if e != -1 {
        if e > 0 && e + 1 < b.len() {
            Some((b.subrange(0, e), b.subrange(e + 1, b.len() as int), ExtraHostSeparator::Equals))
        } else {
            None
        }
    } else if c != -1 && c > 0 && c + 1 < b.len() {
        Some((b.subrange(0, c), b.subrange(c + 1, b.len() as int), ExtraHostSeparator::Colon))
    } else {
        None
    }
}

/// One short-syntax `extra_hosts` entry.
#[derive(Debug, Clone, PartialEq, Eq)]
pub struct ShortExtraHost {
    raw: Located<String>,
    hostname: Option<String>,
    address: Option<HostAddress>,
    separator: Option<ExtraHostSeparator>,
}

impl ShortExtraHost {
    /// The complete unquoted scalar and its source span.
    pub closed spec fn spec_raw(&self) -> Located<String> {
        self.raw
    }

    /// The extracted hostname.
    pub closed spec fn spec_hostname(&self) -> Option<String> {
        self.hostname
    }

    /// The extracted address.
    pub closed spec fn spec_address(&self) -> Option<HostAddress> {
        self.address
    }

    /// The authored separator.
    pub closed spec fn spec_separator(&self) -> Option<ExtraHostSeparator> {
        self.separator
    }

    /// The entry's address is the `host-gateway` token.
    pub open spec fn is_gateway_entry(&self) -> bool {
        self.spec_address() is Some && self.spec_address()->0.spec_kind() == HostAddressKind::HostGateway
    }

    /// Reads a short entry: hostname and address split as [`short_entry_split`] states, the
    /// address classified by [`HostAddress::parse`]; all three absent when no split applies.
    pub fn parse(raw: Located<String>) -> (r: Self)
        ensures
            r.spec_raw() == raw,
            r.spec_hostname() is Some <==> short_entry_split(lb(raw)) is Some,
            r.spec_address() is Some <==> short_entry_split(lb(raw)) is Some,
            r.spec_separator() is Some <==> short_entry_split(lb(raw)) is Some,
            short_entry_split(lb(raw)) matches Some((h, a, sep)) ==> sb(r.spec_hostname()->0@) == h
                && r.spec_address()->0.spec_raw() == a && r.spec_address()->0.spec_kind() == address_kind(
                a,
            ) && r.spec_separator() == Some(sep),
    {
        let b = bytes(raw.value().as_str());
        proof {
            lemma_find(b@, 61);
            lemma_find(b@, 58);
        }
        let (hostname, address, separator) = match split_once(raw.value().as_str(), 61) {
            Some((hostname, address)) => {
                if !crate::text::is_empty(hostname) && !crate::text::is_empty(address) {
                    (Some(owned(hostname)), Some(HostAddress::parse(owned(address))), Some(ExtraHostSeparator::Equals))
                } else {
                    (None, None, None)
                }
            },
            None => match split_once(raw.value().as_str(), 58) {
                Some((hostname, address)) => {
                    if !crate::text::is_empty(hostname) && !crate::text::is_empty(address) {
                        (
                            Some(owned(hostname)),
                            Some(HostAddress::parse(owned(address))),
                            Some(ExtraHostSeparator::Colon),
                        )
                    } else {
                        (None, None, None)
                    }
                },
                None => (None, None, None),
            },
        };
        Self { raw, hostname, address, separator }
    }

    /// Returns the complete unquoted scalar and its source span.
    pub fn raw(&self) -> (r: &Located<String>)
        ensures
            *r == self.spec_raw(),
    {
        &self.raw
    }

    /// Returns the conservatively extracted hostname.
    pub fn hostname(&self) -> (r: Option<&str>)
        ensures
            r is Some <==> self.spec_hostname() is Some,
            r matches Some(v) ==> v@ == self.spec_hostname()->0@,
    {
        match &self.hostname {
            Some(v) => Some(v.as_str()),
            None => None,
        }
    }

    /// Returns the raw-preserving address or implementation token.
    pub fn address(&self) -> (r: Option<&HostAddress>)
        ensures
            r is Some <==> self.spec_address() is Some,
            r matches Some(v) ==> *v == self.spec_address()->0,
    {
        self.address.as_ref()
    }

    /// Returns the authored separator.
    pub fn separator(&self) -> (r: Option<ExtraHostSeparator>)
        ensures
            r == self.spec_separator(),
    {
        self.separator
    }

    /// Reports whether this entry contains a hostname and address.
    pub fn is_complete(&self) -> (r: bool)
        ensures
            r == (self.spec_hostname() is Some && self.spec_address() is Some),
    {
        self.hostname.is_some() && self.address.is_some()
    }
}

/// One mapping-syntax `extra_hosts` entry.
#[derive(Debug, Clone, PartialEq, Eq)]
pub struct LongExtraHost {
    hostname: Located<String>,
    address: Located<HostAddress>,
    span: SourceSpan,
}

impl LongExtraHost {
    /// The hostname mapping key.
    pub closed spec fn spec_hostname(&self) -> Located<String> {
        self.hostname
    }

    /// The address value.
    pub closed spec fn spec_address(&self) -> Located<HostAddress> {
        self.address
    }

    /// The complete entry span.
    pub closed spec fn spec_span(&self) -> SourceSpan {
        self.span
    }

    /// Creates a mapping entry.
    pub fn new(hostname: Located<String>, address: Located<HostAddress>, span: SourceSpan) -> (r: Self)
        ensures
            r.spec_hostname() == hostname,
            r.spec_address() == address,
            r.spec_span() == span,
    {
        Self { hostname, address, span }
    }

    /// Returns the hostname mapping key.
    pub fn hostname(&self) -> (r: &Located<String>)
        ensures
            *r == self.spec_hostname(),
    {
        &self.hostname
    }

    /// Returns the raw-preserving address or implementation token.
    pub fn address(&self) -> (r: &Located<HostAddress>)
        ensures
            *r == self.spec_address(),
    {
        &self.address
    }

    /// Returns the complete entry span.
    pub fn span(&self) -> (r: SourceSpan)
        ensures
            r == self.spec_span(),
    {
        self.span
    }
}

/// The address inside one pair of square brackets, or the whole text.
pub open spec fn unbracketed(b: Seq<u8>) -> Seq<u8> {
    if b.len() >= 2 && b[0] == 91 && b.last() == 93 {
        b.subrange(1, b.len() - 1)
    } else {
        b
    }
}

/// The classification of an address spelled by the bytes `b`.
pub open spec fn address_kind(b: Seq<u8>) -> HostAddressKind {
    if b == sb("host-gateway"@) {
        HostAddressKind::HostGateway
    } else if is_ipv4(unbracketed(b)) {
        HostAddressKind::Ipv4
    } else if is_ipv6(unbracketed(b)) {
        HostAddressKind::Ipv6 { bracketed: b.len() > 0 && b[0] == 91 && b.last() == 93 }
    } else {
        HostAddressKind::Other
    }
}

/// A host address classified without normalizing its authored spelling.
#[derive(Debug, Clone, PartialEq, Eq)]
pub struct HostAddress {
    raw: String,
    kind: HostAddressKind,
}

impl HostAddress {
    /// The bytes of the address exactly as represented by the YAML scalar.
    pub closed spec fn spec_raw(&self) -> Seq<u8> {
        sb(self.raw@)
    }

    /// The address classification.
    pub closed spec fn spec_kind(&self) -> HostAddressKind {
        self.kind
    }

    /// Classifies an address: `host-gateway`, an IPv4 or IPv6 address (with or without
    /// one pair of brackets), or anything else.
    pub fn parse(raw: String) -> (r: Self)
        ensures
            r.spec_raw() == sb(raw@),
            r.spec_kind() == address_kind(sb(raw@)),
    {
        let b = bytes(raw.as_str());
        let n = b.len();
        let bracketed = n >= 2 && b[0] == 91 && b[n - 1] == 93;
        let unbracketed_text = if bracketed {
            proof {
                lemma_after_ascii(b@, 0);
                lemma_ascii_boundary(b@, n - 1);
            }
            slice(raw.as_str(), 1, n - 1)
        } else {
            raw.as_str()
        };
        let kind = if str_eq(raw.as_str(), "host-gateway") {
            HostAddressKind::HostGateway
        } else if ipv4_text(unbracketed_text) {
            HostAddressKind::Ipv4
        } else if ipv6_text(unbracketed_text) {
            HostAddressKind::Ipv6 { bracketed: n > 0 && b[0] == 91 && b[n - 1] == 93 }
        } else {
            HostAddressKind::Other
        };
        proof {
            crate::text::lemma_sb_injective(raw@, "host-gateway"@);
        }
        Self { raw, kind }
    }

    /// Returns the address exactly as represented by the YAML scalar.
    pub fn raw(&self) -> (r: &str)
        ensures
            sb(r@) == self.spec_raw(),
    {
        self.raw.as_str()
    }

    /// Returns the non-destructive address classification.
    pub fn kind(&self) -> (r: HostAddressKind)
        ensures
            r == self.spec_kind(),
    {
        self.kind
    }

    /// Reports whether this is the implementation token `host-gateway`.
    pub fn is_host_gateway(&self) -> (r: bool)
        ensures
            r == (self.spec_kind() == HostAddressKind::HostGateway),
    {
        match self.kind {
            HostAddressKind::HostGateway => true,
            _ => false,
        }
    }
}

/// The lexical kind of a host address.
#[derive(Debug, Clone, Copy, PartialEq, Eq, Hash, Structural)]
pub enum HostAddressKind {
    /// An IPv4 address.
    Ipv4,
    /// An IPv6 address, retaining whether brackets were authored.
    Ipv6 {
        /// Whether the address used `[::1]` spelling.
        bracketed: bool,
    },
    /// The runtime-specific `host-gateway` token.
    HostGateway,
    /// A deferred expression or implementation-specific value.
    Other,
}

} // verus!
