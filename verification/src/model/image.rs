//! Tolerant Compose image references.

use crate::text::{find, lemma_rfind, rfind, rfind_byte, sb, slice, split_around, split_once, owned};
use vstd::prelude::*;

verus! {

/// The digest part of an image reference.
#[derive(Debug, Clone, PartialEq, Eq, Hash)]
pub struct ImageDigest {
    algorithm: Option<String>,
    value: String,
}

impl ImageDigest {
    /// The digest algorithm, when one precedes a `:`.
    pub closed spec fn spec_algorithm(&self) -> Option<String> {
        self.algorithm
    }

    /// The digest value.
    pub closed spec fn spec_value(&self) -> String {
        self.value
    }

    /// Returns the digest algorithm, when authored.
    pub fn algorithm(&self) -> (r: Option<&str>)
        ensures
            r is Some <==> self.spec_algorithm() is Some,
            r matches Some(a) ==> a@ == self.spec_algorithm()->0@,
    {
        match &self.algorithm {
            Some(a) => Some(a.as_str()),
            None => None,
        }
    }

    /// Returns the digest value.
    pub fn value(&self) -> (r: &str)
        ensures
            r@ == self.spec_value()@,
    {
        self.value.as_str()
    }
}

/// A Compose image reference split tolerantly into name, tag and digest.
#[derive(Debug, Clone, PartialEq, Eq, Hash)]
pub struct ImageReference {
    raw: String,
    name: String,
    tag: Option<String>,
    digest: Option<ImageDigest>,
}

/// The part before the first `@`, or the whole value.
pub open spec fn name_and_tag(b: Seq<u8>) -> Seq<u8> {
    let at = find(b, 64);
    if at == -1 {
        b
    } else {
        b.subrange(0, at)
    }
}

/// The index of the `:` that separates the tag: the last `:`, when it follows the last `/`.
pub open spec fn tag_separator(n: Seq<u8>) -> int {
    let colon = rfind(n, 58);
    let slash = rfind(n, 47);
    if colon != -1 && (slash == -1 || colon > slash) {
        colon
    } else {
        -1
    }
}

/// `r` is what splitting `raw` gives: the digest follows the first `@` (its algorithm before the
/// first `:` in it), and the tag follows the tag separator of the rest.
pub open spec fn parsed_image(r: ImageReference, raw: String) -> bool {
    let b = sb(raw@);
    let at = find(b, 64);
    let n = name_and_tag(b);
    let t = tag_separator(n);
    &&& (r.spec_digest() is Some <==> at != -1)
    &&& (at != -1 ==> {
        let d = b.subrange(at + 1, b.len() as int);
        let c = find(d, 58);
        let digest = r.spec_digest()->0;
        &&& (digest.spec_algorithm() is Some <==> c != -1)
        &&& (c != -1 ==> sb(digest.spec_algorithm()->0@) == d.subrange(0, c) && sb(
            digest.spec_value()@,
        ) == d.subrange(c + 1, d.len() as int))
        &&& (c == -1 ==> sb(digest.spec_value()@) == d)
    })
    &&& (r.spec_tag() is Some <==> t != -1)
    &&& (t != -1 ==> sb(r.spec_name()@) == n.subrange(0, t) && sb(r.spec_tag()->0@)
        == n.subrange(t + 1, n.len() as int))
    &&& (t == -1 ==> sb(r.spec_name()@) == n)
}

impl ImageReference {
    /// The authored reference.
    pub closed spec fn spec_raw(&self) -> String {
        self.raw
    }

    /// The repository name.
    pub closed spec fn spec_name(&self) -> String {
        self.name
    }

    /// The tag.
    pub closed spec fn spec_tag(&self) -> Option<String> {
        self.tag
    }

    /// The digest.
    pub closed spec fn spec_digest(&self) -> Option<ImageDigest> {
        self.digest
    }

    /// Splits a reference: the digest follows the first `@` (its algorithm before the first
    /// `:` in it), and the tag follows the last `:` of the rest when no `/` comes after it.
    pub fn parse(raw: String) -> (r: Self)
        ensures
            r.spec_raw() == raw,
            parsed_image(r, raw),
    {
        let (name_and_tag, digest) = match split_once(raw.as_str(), 64) {
            Some((left, right)) => {
                let digest = match split_once(right, 58) {
                    Some((algorithm, value)) => ImageDigest {
                        algorithm: Some(owned(algorithm)),
                        value: owned(value),
                    },
                    None => ImageDigest { algorithm: None, value: owned(right) },
                };
                (left, Some(digest))
            },
            None => (raw.as_str(), None),
        };
        let last_slash = rfind_byte(name_and_tag, 47);
        let tag_separator = match rfind_byte(name_and_tag, 58) {
            Some(index) => match last_slash {
                Some(slash) => if index > slash {
                    Some(index)
                } else {
                    None
                },
                None => Some(index),
            },
            None => None,
        };
        let (name, tag) = match tag_separator {
            Some(index) => {
                let (name, tag) = split_around(name_and_tag, index);
                (owned(name), Some(owned(tag)))
            },
            None => (owned(name_and_tag), None),
        };
        ImageReference { raw, name, tag, digest }
    }

    /// Returns the authored reference.
    pub fn raw(&self) -> (r: &str)
        ensures
            r@ == self.spec_raw()@,
    {
        self.raw.as_str()
    }

    /// Returns the repository name, including any registry and port.
    pub fn name(&self) -> (r: &str)
        ensures
            r@ == self.spec_name()@,
    {
        self.name.as_str()
    }

    /// Returns the tag, when authored.
    pub fn tag(&self) -> (r: Option<&str>)
        ensures
            r is Some <==> self.spec_tag() is Some,
            r matches Some(t) ==> t@ == self.spec_tag()->0@,
    {
        match &self.tag {
            Some(t) => Some(t.as_str()),
            None => None,
        }
    }

    /// Returns the digest, when authored.
    pub fn digest(&self) -> (r: Option<&ImageDigest>)
        ensures
            r is Some <==> self.spec_digest() is Some,
            r matches Some(d) ==> *d == self.spec_digest()->0,
    {
        match &self.digest {
            Some(d) => Some(d),
            None => None,
        }
    }
}


/// A tag never holds a `/` or a `:`: it is what follows the last `:` of the name part, and only
/// when no `/` comes after that `:`. Splitting the tag off keeps the rest: the name, a `:` and
/// the tag spell the name part.
pub proof fn law_image_tag_is_last_segment(r: ImageReference, raw: String)
    requires
        parsed_image(r, raw),
    ensures
        r.spec_tag() matches Some(tag) ==> !sb(tag@).contains(47u8) && !sb(tag@).contains(58u8) && sb(r.spec_name()@)
            + seq![58u8] + sb(tag@) == name_and_tag(sb(raw@)),
{
    let n = name_and_tag(sb(raw@));
    lemma_rfind(n, 58);
    lemma_rfind(n, 47);
    if r.spec_tag() is Some {
        let t = tag_separator(n);
        let tag = sb(r.spec_tag()->0@);
        assert(tag == n.subrange(t + 1, n.len() as int));
        if tag.contains(47u8) {
            let j = choose|j: int| 0 <= j < tag.len() && tag[j] == 47u8;
            assert(n[t + 1 + j] == 47u8);
        }
        if tag.contains(58u8) {
            let j = choose|j: int| 0 <= j < tag.len() && tag[j] == 58u8;
            assert(n[t + 1 + j] == 58u8);
        }
        assert(n.subrange(0, t) + seq![58u8] + n.subrange(t + 1, n.len() as int) =~= n);
    }
}

/// A `:` followed by a `/` in the name part, such as a registry port, never separates a tag:
/// when the last `:` comes before the last `/`, there is no tag and the name is the whole name
/// part.
pub proof fn law_registry_port_is_not_a_tag(r: ImageReference, raw: String)
    requires
        parsed_image(r, raw),
        rfind(name_and_tag(sb(raw@)), 58) < rfind(name_and_tag(sb(raw@)), 47),
    ensures
        r.spec_tag() is None,
        sb(r.spec_name()@) == name_and_tag(sb(raw@)),
{
    let n = name_and_tag(sb(raw@));
    lemma_rfind(n, 58);
    lemma_rfind(n, 47);
    assert(tag_separator(n) == -1);
    assert(r.spec_tag() is Some <==> tag_separator(n) != -1);
}

} // verus!
