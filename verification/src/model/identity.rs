//! Raw-preserving container identity and user-namespace values.

use super::{lb, lc, Located};
use crate::text::{
    all_digits, all_digits_str, bytes, has_prefix, is_empty, owned, sb, split_around, starts_with, str_eq,
};
use vstd::prelude::*;

verus! {

/// A service `user` value split into user and optional group.
#[derive(Debug, Clone, PartialEq, Eq)]
pub struct UserSpec {
    raw: Located<String>,
    user: IdentityComponent,
    group: Option<IdentityComponent>,
}

/// One side of a `user[:group]` value.
#[derive(Debug, Clone, PartialEq, Eq)]
pub enum IdentityComponent {
    /// A numeric identifier.
    Numeric(String),
    /// A symbolic name.
    Name(String),
    /// An interpolation expression.
    Expression(String),
    /// An empty component.
    Empty,
}

/// The interpolation nesting depth before index `i`: `${` opens, a `}` inside closes.
pub open spec fn depth_before(b: Seq<u8>, i: int) -> int
    decreases i,
{
    if i <= 0 {
        0
    } else {
        let prev = depth_before(b, i - 1);
        if opens_at(b, i - 1) {
            prev + 1
        } else if closes_at(b, i - 1) && prev > 0 {
            prev - 1
        } else {
            prev
        }
    }
}

/// `${` starts at `i`.
pub open spec fn opens_at(b: Seq<u8>, i: int) -> bool {
    0 <= i && i + 1 < b.len() && b[i] == 36 && b[i + 1] == 123
}

/// A `}` at `i` that is not the brace of an opener.
pub open spec fn closes_at(b: Seq<u8>, i: int) -> bool {
    0 <= i < b.len() && b[i] == 125
}

/// The scan positions: `0`, and after an opener the position two bytes later, and one
/// byte later otherwise.
pub open spec fn visited(b: Seq<u8>, i: int) -> bool
    decreases i,
{
    if i <= 0 {
        i == 0
    } else if i >= 2 && visited(b, i - 2) && opens_at(b, i - 2) {
        true
    } else {
        visited(b, i - 1) && !opens_at(b, i - 1)
    }
}

/// The depth along the scan, counting only visited positions.
pub open spec fn scan_depth(b: Seq<u8>, i: int) -> int
    decreases i,
{
    if i <= 0 {
        0
    } else if i >= 2 && visited(b, i - 2) && opens_at(b, i - 2) {
        scan_depth(b, i - 2) + 1
    } else {
        let prev = scan_depth(b, i - 1);
        if closes_at(b, i - 1) && prev > 0 {
            prev - 1
        } else {
            prev
        }
    }
}

/// The `:` at `i` separates user and group: it is visited at depth zero and no earlier
/// visited position is such a separator.
pub open spec fn separator_at(b: Seq<u8>, i: int) -> bool {
    0 <= i < b.len() && visited(b, i) && !opens_at(b, i) && b[i] == 58 && scan_depth(b, i) == 0
}

/// The first user/group separator, or `-1`.
pub open spec fn first_separator(b: Seq<u8>) -> int {
    if exists|i: int| separator_at(b, i) {
        choose|i: int| separator_at(b, i) && forall|j: int| 0 <= j < i ==> !separator_at(b, j)
    } else {
        -1
    }
}

/// The classification of one identity component.
pub open spec fn component_matches(b: Seq<u8>, c: IdentityComponent) -> bool {
    if b.len() == 0 {
        c is Empty
    } else if contains_pair(b, 36, 123) || contains_pair(b, 36, 36) {
        c matches IdentityComponent::Expression(s) && sb(s@) == b
    } else if all_digits(b) {
        c matches IdentityComponent::Numeric(s) && sb(s@) == b
    } else {
        c matches IdentityComponent::Name(s) && sb(s@) == b
    }
}

/// Two adjacent bytes `x` then `y` occur.
pub open spec fn contains_pair(b: Seq<u8>, x: u8, y: u8) -> bool {
    exists|i: int| 0 <= i < b.len() - 1 && #[trigger] b[i] == x && b[i + 1] == y
}

impl UserSpec {
    /// The authored scalar.
    pub closed spec fn spec_raw(&self) -> Located<String> {
        self.raw
    }

    /// The user component.
    pub closed spec fn spec_user(&self) -> IdentityComponent {
        self.user
    }

    /// The group component.
    pub closed spec fn spec_group(&self) -> Option<IdentityComponent> {
        self.group
    }

    /// Splits `user[:group]` at the first `:` outside `${...}` expressions.
    pub fn parse(raw: Located<String>) -> (u: Self)
        ensures
            u.spec_raw() == raw,
            ({
                let b = lb(raw);
                let k = first_separator(b);
                if k == -1 {
                    component_matches(b, u.spec_user()) && u.spec_group() is None
                } else {
                    component_matches(b.subrange(0, k), u.spec_user()) && u.spec_group() is Some
                        && component_matches(b.subrange(k + 1, b.len() as int), u.spec_group()->0)
                }
            }),
    {
        let value = raw.value().as_str();
        let (user, group) = match split_user_group(value) {
            Some((user, group)) => (IdentityComponent::parse(user), Some(IdentityComponent::parse(group))),
            None => (IdentityComponent::parse(value), None),
        };
        Self { raw, user, group }
    }

    /// Returns the authored scalar and its span.
    pub fn raw(&self) -> (r: &Located<String>)
        ensures
            *r == self.spec_raw(),
    {
        &self.raw
    }

    /// Returns the user component.
    pub fn user(&self) -> (r: &IdentityComponent)
        ensures
            *r == self.spec_user(),
    {
        &self.user
    }

    /// Returns the group component, when authored.
    pub fn group(&self) -> (r: Option<&IdentityComponent>)
        ensures
            r is Some <==> self.spec_group() is Some,
            r matches Some(g) ==> *g == self.spec_group()->0,
    {
        match &self.group {
            Some(g) => Some(g),
            None => None,
        }
    }
}

/// Reports whether two adjacent bytes occur.
pub fn contains_pair_str(s: &str, x: u8, y: u8) -> (r: bool)
    ensures
        r == contains_pair(sb(s@), x, y),
{
    let b = bytes(s);
    let mut i: usize = 0;
    while b.len() > 0 && i < b.len() - 1
        invariant
            b@ == sb(s@),
            0 <= i <= b.len(),
            forall|j: int| 0 <= j < i && j < b.len() - 1 ==> !(#[trigger] b@[j] == x && b@[j + 1] == y),
        decreases b.len() - i,
    {
        if b[i] == x && b[i + 1] == y {
            return true;
        }
        i += 1;
    }
    false
}

impl IdentityComponent {
    /// The authored text of the component.
    pub open spec fn spec_raw(&self) -> Seq<char> {
        match self {
            IdentityComponent::Numeric(s) => s@,
            IdentityComponent::Name(s) => s@,
            IdentityComponent::Expression(s) => s@,
            IdentityComponent::Empty => Seq::empty(),
        }
    }

    /// Classifies one component.
    pub fn parse(value: &str) -> (c: Self)
        ensures
            component_matches(sb(value@), c),
    {
        if is_empty(value) {
            IdentityComponent::Empty
        } else if contains_pair_str(value, 36, 123) || contains_pair_str(value, 36, 36) {
            IdentityComponent::Expression(owned(value))
        } else if all_digits_str(value) {
            IdentityComponent::Numeric(owned(value))
        } else {
            IdentityComponent::Name(owned(value))
        }
    }

    /// Returns the authored text.
    pub fn raw(&self) -> (r: &str)
        ensures
            r@ == self.spec_raw(),
    {
        match self {
            IdentityComponent::Numeric(value) => value.as_str(),
            IdentityComponent::Name(value) => value.as_str(),
            IdentityComponent::Expression(value) => value.as_str(),
            IdentityComponent::Empty => {
                let e = "";
                proof {
                    reveal_strlit("");
                }
                e
            },
        }
    }
}

/// A service `userns_mode` value with its authored scalar retained.
#[derive(Debug, Clone, PartialEq, Eq)]
pub struct UserNamespaceMode {
    raw: Located<String>,
    kind: UserNamespaceModeKind,
}

/// The semantic family of a user-namespace mode.
#[derive(Debug, Clone, Copy, PartialEq, Eq, Hash, Structural)]
pub enum UserNamespaceModeKind {
    /// `host` or the empty string.
    Host,
    /// Podman `keep-id`.
    PodmanKeepId,
    /// Podman `auto`.
    PodmanAuto,
    /// Podman `nomap`.
    PodmanNoMap,
    /// `container:<id>`.
    Container,
    /// Any other value.
    Other,
}

/// The classification of a user-namespace mode.
pub open spec fn userns_kind(c: Seq<char>) -> UserNamespaceModeKind {
    let b = sb(c);
    if c == "host"@ || c == ""@ {
        UserNamespaceModeKind::Host
    } else if c == "keep-id"@ || has_prefix(b, sb("keep-id:"@)) {
        UserNamespaceModeKind::PodmanKeepId
    } else if c == "auto"@ || has_prefix(b, sb("auto:"@)) {
        UserNamespaceModeKind::PodmanAuto
    } else if c == "nomap"@ {
        UserNamespaceModeKind::PodmanNoMap
    } else if has_prefix(b, sb("container:"@)) {
        UserNamespaceModeKind::Container
    } else {
        UserNamespaceModeKind::Other
    }
}

impl UserNamespaceMode {
    /// The authored scalar.
    pub closed spec fn spec_raw(&self) -> Located<String> {
        self.raw
    }

    /// The classification.
    pub closed spec fn spec_kind(&self) -> UserNamespaceModeKind {
        self.kind
    }

    /// Classifies a user-namespace mode.
    pub fn parse(raw: Located<String>) -> (m: Self)
        ensures
            m.spec_raw() == raw,
            m.spec_kind() == userns_kind(lc(raw)),
    {
        let value = raw.value().as_str();
        let kind = if str_eq(value, "host") || str_eq(value, "") {
            UserNamespaceModeKind::Host
        } else if str_eq(value, "keep-id") || starts_with(value, "keep-id:") {
            UserNamespaceModeKind::PodmanKeepId
        } else if str_eq(value, "auto") || starts_with(value, "auto:") {
            UserNamespaceModeKind::PodmanAuto
        } else if str_eq(value, "nomap") {
            UserNamespaceModeKind::PodmanNoMap
        } else if starts_with(value, "container:") {
            UserNamespaceModeKind::Container
        } else {
            UserNamespaceModeKind::Other
        };
        Self { raw, kind }
    }

    /// Returns the authored scalar and its span.
    pub fn raw(&self) -> (r: &Located<String>)
        ensures
            *r == self.spec_raw(),
    {
        &self.raw
    }

    /// Returns the classification.
    pub fn kind(&self) -> (r: UserNamespaceModeKind)
        ensures
            r == self.spec_kind(),
    {
        self.kind
    }

    /// Reports whether the mode is specific to Podman.
    pub fn is_podman_specific(&self) -> (r: bool)
        ensures
            r == (self.spec_kind() is PodmanKeepId || self.spec_kind() is PodmanAuto
                || self.spec_kind() is PodmanNoMap),
    {
        matches!(
            self.kind,
            UserNamespaceModeKind::PodmanKeepId | UserNamespaceModeKind::PodmanAuto
                | UserNamespaceModeKind::PodmanNoMap
        )
    }
}

/// Splits `user:group` at the first `:` that is not inside a `${...}` expression.
#[verifier::loop_isolation(false)]
pub fn split_user_group(value: &str) -> (r: Option<(&str, &str)>)
    ensures
        r is None <==> first_separator(sb(value@)) == -1,
        r matches Some(p) ==> sb(p.0@) == sb(value@).subrange(0, first_separator(sb(value@))) && sb(p.1@)
            == sb(value@).subrange(first_separator(sb(value@)) + 1, sb(value@).len() as int),
{
    let b = bytes(value);
    let ghost all = b@;
    let mut interpolation_depth: usize = 0;
    let mut index: usize = 0;
    while index < b.len()
        invariant
            b@ == all,
            all == sb(value@),
            0 <= index <= b.len() + 1,
            visited(all, index as int),
            interpolation_depth as int == scan_depth(all, index as int),
            interpolation_depth <= index,
            forall|j: int| 0 <= j < index ==> !separator_at(all, j),
        decreases b.len() + 1 - index,
    {
        if b[index] == 36 && b.len() - index >= 2 && b[index + 1] == 123 {
            assert(opens_at(all, index as int));
            proof {
                assert(!separator_at(all, index + 1)) by {
                    assert(!visited(all, index + 1));
                }
            }
            interpolation_depth += 1;
            index += 2;
            assert(visited(all, index as int));
            continue;
        }
        assert(!opens_at(all, index as int));
        if b[index] == 125 && interpolation_depth > 0 {
            interpolation_depth -= 1;
        } else if b[index] == 58 && interpolation_depth == 0 {
            assert(separator_at(all, index as int));
            proof {
                assert(exists|i: int| separator_at(all, i));
                let k = first_separator(all);
                assert(separator_at(all, k) && forall|j: int| 0 <= j < k ==> !separator_at(all, j));
                if k < index {
                } else if k > index {
                }
                assert(k == index);
            }
            return Some(split_around(value, index));
        }
        index += 1;
        assert(visited(all, index as int));
    }
    proof {
        assert forall|j: int| #![trigger separator_at(all, j)] !separator_at(all, j) by {
            if 0 <= j < all.len() {
                assert(j < index);
            }
        }
    }
    None
}

} // verus!
