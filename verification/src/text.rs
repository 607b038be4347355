//! Byte-level views of UTF-8 text and verified helpers over them.
//!
//! Every string of the library is specified through the UTF-8 bytes of its
//! characters, `sb(s@)`. The helpers here search, compare and cut text at
//! byte offsets and prove that every cut falls on a character boundary.

use vstd::prelude::*;
use vstd::utf8::*;

verus! {

broadcast use vstd::utf8::group_utf8_lib;

/// The UTF-8 bytes of a character sequence.
pub open spec fn sb(s: Seq<char>) -> Seq<u8> {
    encode_utf8(s)
}

/// An ASCII decimal digit.
pub open spec fn is_digit(c: u8) -> bool {
    48 <= c <= 57
}

/// An ASCII letter.
pub open spec fn is_alpha(c: u8) -> bool {
    (65 <= c <= 90) || (97 <= c <= 122)
}

/// An ASCII letter or digit.
pub open spec fn is_alnum(c: u8) -> bool {
    is_digit(c) || is_alpha(c)
}

/// An ASCII hexadecimal digit.
pub open spec fn is_hex(c: u8) -> bool {
    is_digit(c) || (65 <= c <= 70) || (97 <= c <= 102)
}

/// Every byte is an ASCII decimal digit (true of the empty sequence).
pub open spec fn all_digits(b: Seq<u8>) -> bool {
    forall|i: int| 0 <= i < b.len() ==> is_digit(#[trigger] b[i])
}

/// Every byte is an ASCII `'0'` (true of the empty sequence).
pub open spec fn all_zero(b: Seq<u8>) -> bool {
    forall|i: int| 0 <= i < b.len() ==> #[trigger] b[i] == 48
}

/// A non-empty run of ASCII decimal digits.
pub open spec fn decimal(b: Seq<u8>) -> bool {
    b.len() > 0 && all_digits(b)
}

/// `p` is a prefix of `b`.
pub open spec fn has_prefix(b: Seq<u8>, p: Seq<u8>) -> bool {
    p.len() <= b.len() && b.subrange(0, p.len() as int) == p
}

/// `p` is a suffix of `b`.
pub open spec fn has_suffix(b: Seq<u8>, p: Seq<u8>) -> bool {
    p.len() <= b.len() && b.subrange(b.len() - p.len(), b.len() as int) == p
}

/// The first index at or after `i` that holds `c`, or `-1`.
pub open spec fn find_from(b: Seq<u8>, c: u8, i: int) -> int
    decreases b.len() - i,
{
    if i < 0 || i >= b.len() {
        -1
    } else if b[i] == c {
        i
    } else {
        find_from(b, c, i + 1)
    }
}

/// The first index that holds `c`, or `-1`.
pub open spec fn find(b: Seq<u8>, c: u8) -> int {
    find_from(b, c, 0)
}

/// The last index before `i` that holds `c`, or `-1`.
pub open spec fn rfind_before(b: Seq<u8>, c: u8, i: int) -> int
    decreases i,
{
    if i <= 0 || i > b.len() {
        -1
    } else if b[i - 1] == c {
        i - 1
    } else {
        rfind_before(b, c, i - 1)
    }
}

/// The last index that holds `c`, or `-1`.
pub open spec fn rfind(b: Seq<u8>, c: u8) -> int {
    rfind_before(b, c, b.len() as int)
}

/// What `find_from` returns: `-1` exactly when no later byte is `c`, and otherwise the
/// first later index holding `c`.
pub proof fn lemma_find_from(b: Seq<u8>, c: u8, i: int)
    requires
        0 <= i <= b.len(),
    ensures
        find_from(b, c, i) == -1 <==> (forall|j: int| i <= j < b.len() ==> b[j] != c),
        find_from(b, c, i) != -1 ==> i <= find_from(b, c, i) < b.len() && b[find_from(b, c, i)]
            == c && (forall|j: int| i <= j < find_from(b, c, i) ==> b[j] != c),
    decreases b.len() - i,
{
    if i < b.len() {
        lemma_find_from(b, c, i + 1);
    }
}

/// What `find` returns.
pub proof fn lemma_find(b: Seq<u8>, c: u8)
    ensures
        find(b, c) == -1 <==> !b.contains(c),
        find(b, c) != -1 ==> 0 <= find(b, c) < b.len() && b[find(b, c)] == c && (forall|j: int|
            0 <= j < find(b, c) ==> b[j] != c),
{
    lemma_find_from(b, c, 0);
    if b.contains(c) {
        let k = choose|k: int| 0 <= k < b.len() && b[k] == c;
        assert(b[k] == c);
    }
}

/// What `rfind_before` returns.
pub proof fn lemma_rfind_before(b: Seq<u8>, c: u8, i: int)
    requires
        0 <= i <= b.len(),
    ensures
        rfind_before(b, c, i) == -1 <==> (forall|j: int| 0 <= j < i ==> b[j] != c),
        rfind_before(b, c, i) != -1 ==> 0 <= rfind_before(b, c, i) < i && b[rfind_before(b, c, i)]
            == c && (forall|j: int| rfind_before(b, c, i) < j < i ==> b[j] != c),
    decreases i,
{
    if i > 0 {
        lemma_rfind_before(b, c, i - 1);
    }
}

/// What `rfind` returns.
pub proof fn lemma_rfind(b: Seq<u8>, c: u8)
    ensures
        rfind(b, c) == -1 <==> !b.contains(c),
        rfind(b, c) != -1 ==> 0 <= rfind(b, c) < b.len() && b[rfind(b, c)] == c && (forall|j: int|
            rfind(b, c) < j < b.len() ==> b[j] != c),
{
    lemma_rfind_before(b, c, b.len() as int);
    if b.contains(c) {
        let k = choose|k: int| 0 <= k < b.len() && b[k] == c;
        assert(b[k] == c);
    }
}

/// A position holding an ASCII byte starts a character.
pub proof fn lemma_ascii_boundary(b: Seq<u8>, i: int)
    requires
        valid_utf8(b),
        0 <= i <= b.len(),
        i < b.len() ==> b[i] < 128,
    ensures
        is_char_boundary(b, i),
{
    if i < b.len() {
        assert(is_char_boundary(b, i) <==> !is_continuation_byte(b[i]));
    }
}

/// The position just after an ASCII byte starts a character.
pub proof fn lemma_after_ascii(b: Seq<u8>, i: int)
    requires
        valid_utf8(b),
        0 <= i < b.len(),
        b[i] < 128,
    ensures
        is_char_boundary(b, i + 1),
    decreases b.len(),
{
    let l = length_of_first_scalar(b);
    let rest = pop_first_scalar(b);
    if i == 0 {
        assert(l == 1);
        assert(is_char_boundary(rest, 0));
    } else {
        assert(i >= l);
        assert(rest[i - l] == b[i]);
        lemma_after_ascii(rest, i - l);
    }
}

/// A valid prefix ends on a character boundary.
pub proof fn lemma_prefix_is_boundary(b: Seq<u8>, q: Seq<u8>)
    requires
        valid_utf8(b),
        valid_utf8(q),
        has_prefix(b, q),
    ensures
        is_char_boundary(b, q.len() as int),
    decreases q.len(),
{
    if q.len() > 0 {
        let l = length_of_first_scalar(q);
        assert(b[0] == q[0]);
        assert(length_of_first_scalar(b) == l);
        let rb = pop_first_scalar(b);
        let rq = pop_first_scalar(q);
        assert(rb.subrange(0, rq.len() as int) =~= rq) by {
            assert forall|j: int| 0 <= j < rq.len() implies rb[j] == rq[j] by {
                assert(rb[j] == b[j + l]);
                assert(q[j + l] == b.subrange(0, q.len() as int)[j + l]);
            }
        }
        lemma_prefix_is_boundary(rb, rq);
    }
}

/// A valid suffix starts on a character boundary.
pub proof fn lemma_suffix_is_boundary(b: Seq<u8>, q: Seq<u8>)
    requires
        valid_utf8(b),
        valid_utf8(q),
        has_suffix(b, q),
    ensures
        is_char_boundary(b, b.len() - q.len()),
{
    let k = b.len() - q.len();
    if q.len() > 0 {
        assert(b[k] == b.subrange(k, b.len() as int)[0]);
        assert(is_char_boundary(b, k) <==> !is_continuation_byte(b[k]));
    }
}

/// A boundary inside a valid prefix stays a boundary of that prefix.
pub proof fn lemma_prefix_boundary(b: Seq<u8>, end: int, i: int)
    requires
        valid_utf8(b),
        0 <= i <= end <= b.len(),
        is_char_boundary(b, end),
        is_char_boundary(b, i),
    ensures
        valid_utf8(b.subrange(0, end)),
        is_char_boundary(b.subrange(0, end), i),
{
    let h = b.subrange(0, end);
    assert(valid_utf8(h));
    if i < end {
        assert(h[i] == b[i]);
        assert(is_char_boundary(b, i) <==> !is_continuation_byte(b[i]));
        assert(is_char_boundary(h, i) <==> !is_continuation_byte(h[i]));
    } else {
        assert(is_char_boundary(h, h.len() as int));
    }
}

/// Two texts are equal exactly when their bytes are.
pub proof fn lemma_sb_injective(a: Seq<char>, b: Seq<char>)
    ensures
        (sb(a) == sb(b)) <==> (a == b),
{
    if sb(a) == sb(b) {
        assert(decode_utf8(sb(a)) == a);
        assert(decode_utf8(sb(b)) == b);
    }
}

/// The bytes of a concatenation are the concatenated bytes.
pub proof fn lemma_sb_concat(a: Seq<char>, b: Seq<char>)
    ensures
        sb(a + b) == sb(a) + sb(b),
    decreases a.len(),
{
    if a.len() == 0 {
        assert(a + b =~= b);
        assert(sb(a) =~= Seq::<u8>::empty());
        assert(sb(a) + sb(b) =~= sb(b));
    } else {
        assert((a + b)[0] == a[0]);
        assert((a + b).drop_first() =~= a.drop_first() + b);
        lemma_sb_concat(a.drop_first(), b);
        assert(sb(a + b) == encode_scalar(a[0] as u32) + sb(a.drop_first() + b));
        assert(sb(a) == encode_scalar(a[0] as u32) + sb(a.drop_first()));
        assert(sb(a + b) =~= sb(a) + sb(b));
    }
}

/// An ASCII character is encoded as the one byte of its code.
pub proof fn lemma_sb_ascii_char(c: char)
    requires
        (c as u32) < 128,
    ensures
        sb(seq![c]) == seq![c as u32 as u8],
{
    let v = c as u32;
    assert((v & 0x7F) == v) by (bit_vector)
        requires
            v < 128,
    ;
    let cs = seq![c];
    assert(cs.drop_first() =~= Seq::<char>::empty());
    assert(encode_utf8(cs.drop_first()) =~= Seq::<u8>::empty());
    assert(cs[0] == c);
    assert(has_width_1_encoding(v));
    assert(encode_scalar(v) == seq![leading_byte_width_1(v)]);
    assert(leading_byte_width_1(v) == (v & 0x7F) as u8);
    assert(encode_utf8(cs) == encode_scalar(cs[0] as u32) + encode_utf8(cs.drop_first()));
    assert(sb(cs) =~= seq![c as u32 as u8]);
}

/// No byte of a character's UTF-8 encoding is `$` unless the character is `$`: every byte of a
/// multi-byte encoding has its high bit set.
proof fn lemma_scalar_without_dollar(v: u32)
    requires
        v != 36,
    ensures
        !encode_scalar(v).contains(36u8),
{
    assert(v <= 0x7F ==> ((v & 0x7F) as u8) != 36u8) by (bit_vector)
        requires
            v != 36,
    ;
    assert(forall|y: u8| #[trigger] (0x80u8 | y) != 36u8) by (bit_vector);
    assert(forall|y: u8| #[trigger] (0xC0u8 | y) != 36u8) by (bit_vector);
    assert(forall|y: u8| #[trigger] (0xE0u8 | y) != 36u8) by (bit_vector);
    assert(forall|y: u8| #[trigger] (0xF0u8 | y) != 36u8) by (bit_vector);
    let e = encode_scalar(v);
    assert forall|i: int| 0 <= i < e.len() implies e[i] != 36u8 by {}
}

/// A text without a `$` character has no `$` byte in its UTF-8 encoding.
pub proof fn lemma_no_dollar_byte(s: Seq<char>)
    requires
        !s.contains('$'),
    ensures
        !sb(s).contains(36u8),
    decreases s.len(),
{
    if s.len() > 0 {
        let rest = s.drop_first();
        assert(s[0] != '$') by {
            if s[0] == '$' {
                assert(s.contains('$'));
            }
        }
        assert(!rest.contains('$')) by {
            if rest.contains('$') {
                let i = choose|i: int| 0 <= i < rest.len() && rest[i] == '$';
                assert(s[i + 1] == '$');
            }
        }
        assert(s[0] as u32 != 36) by {
            if s[0] as u32 == 36 {
                char_u32_cast(s[0], 36u32);
                char_u32_cast('$', 36u32);
            }
        }
        lemma_scalar_without_dollar(s[0] as u32);
        lemma_no_dollar_byte(rest);
        let head = encode_scalar(s[0] as u32);
        let tail = encode_utf8(rest);
        assert(sb(s) == head + tail);
        if sb(s).contains(36u8) {
            let i = choose|i: int| 0 <= i < sb(s).len() && sb(s)[i] == 36u8;
            if i < head.len() {
                assert(head[i] == 36u8);
                assert(head.contains(36u8));
            } else {
                assert(tail[i - head.len()] == 36u8);
                assert(tail.contains(36u8));
            }
        }
    } else {
        assert(sb(s) =~= Seq::<u8>::empty());
    }
}

/// A text holds a `$` character exactly when its UTF-8 encoding holds a `$` byte.
pub proof fn lemma_dollar_byte(s: Seq<char>)
    ensures
        sb(s).contains(36u8) == s.contains('$'),
{
    if s.contains('$') {
        let i = choose|i: int| 0 <= i < s.len() && s[i] == '$';
        let a = s.subrange(0, i);
        let b = s.subrange(i, s.len() as int);
        assert(s =~= a + b);
        lemma_sb_concat(a, b);
        let c = seq![s[i]];
        let rest = s.subrange(i + 1, s.len() as int);
        assert(b =~= c + rest);
        lemma_sb_concat(c, rest);
        lemma_sb_ascii_char('$');
        assert(sb(c) == seq![36u8]);
        assert(sb(s) == sb(a) + (sb(c) + sb(rest)));
        assert(sb(s)[sb(a).len() as int] == 36u8);
    } else {
        lemma_no_dollar_byte(s);
    }
}

/// Reports whether a text holds a `$` character.
pub fn contains_dollar(s: &str) -> (r: bool)
    ensures
        r == s@.contains('$'),
{
    proof {
        lemma_dollar_byte(s@);
    }
    contains_byte(s, 36u8)
}

/// Byte-wise lexicographic order, the order of `str` and `String`.
pub open spec fn bytes_lt(a: Seq<u8>, b: Seq<u8>) -> bool
    decreases a.len(),
{
    if a.len() == 0 {
        b.len() > 0
    } else if b.len() == 0 {
        false
    } else if a[0] < b[0] {
        true
    } else if a[0] > b[0] {
        false
    } else {
        bytes_lt(a.drop_first(), b.drop_first())
    }
}

/// The order is strict and total.
pub proof fn lemma_bytes_lt_total(a: Seq<u8>, b: Seq<u8>)
    ensures
        !bytes_lt(a, a),
        !(bytes_lt(a, b) && bytes_lt(b, a)),
        a != b ==> bytes_lt(a, b) || bytes_lt(b, a),
    decreases a.len(),
{
    if a.len() > 0 {
        lemma_bytes_lt_total(a.drop_first(), a.drop_first());
        if b.len() > 0 {
            lemma_bytes_lt_total(a.drop_first(), b.drop_first());
            if a != b && a[0] == b[0] {
                assert(a.drop_first() != b.drop_first()) by {
                    if a.drop_first() == b.drop_first() {
                        assert(a.len() == b.len());
                        assert forall|k: int| 0 <= k < a.len() implies a[k] == b[k] by {
                            if k > 0 {
                                assert(a[k] == a.drop_first()[k - 1]);
                                assert(b[k] == b.drop_first()[k - 1]);
                            }
                        }
                        assert(a =~= b);
                    }
                }
            }
        }
    } else if b.len() == 0 {
        assert(a =~= b);
    }
}

/// The order is transitive.
pub proof fn lemma_bytes_lt_trans(a: Seq<u8>, b: Seq<u8>, c: Seq<u8>)
    requires
        bytes_lt(a, b),
        bytes_lt(b, c),
    ensures
        bytes_lt(a, c),
    decreases a.len(),
{
    if a.len() > 0 && b.len() > 0 && c.len() > 0 && a[0] == b[0] && b[0] == c[0] {
        lemma_bytes_lt_trans(a.drop_first(), b.drop_first(), c.drop_first());
    }
}

/// Past a common prefix, the order is decided by what follows it.
proof fn lemma_bytes_lt_suffix(a: Seq<u8>, b: Seq<u8>, i: int)
    requires
        0 <= i <= a.len(),
        i <= b.len(),
        a.subrange(0, i) == b.subrange(0, i),
    ensures
        bytes_lt(a, b) == bytes_lt(a.subrange(i, a.len() as int), b.subrange(i, b.len() as int)),
    decreases i,
{
    if i == 0 {
        assert(a.subrange(0, a.len() as int) =~= a);
        assert(b.subrange(0, b.len() as int) =~= b);
    } else {
        assert(a[0] == a.subrange(0, i)[0]);
        assert(b[0] == b.subrange(0, i)[0]);
        let a1 = a.drop_first();
        let b1 = b.drop_first();
        assert(a1.subrange(0, i - 1) =~= a.subrange(0, i).drop_first());
        assert(b1.subrange(0, i - 1) =~= b.subrange(0, i).drop_first());
        lemma_bytes_lt_suffix(a1, b1, i - 1);
        assert(a1.subrange(i - 1, a1.len() as int) =~= a.subrange(i, a.len() as int));
        assert(b1.subrange(i - 1, b1.len() as int) =~= b.subrange(i, b.len() as int));
    }
}

/// Compares two texts in byte-wise lexicographic order.
pub fn str_lt(a: &str, b: &str) -> (r: bool)
    ensures
        r == bytes_lt(sb(a@), sb(b@)),
{
    let x = bytes(a);
    let y = bytes(b);
    let mut i: usize = 0;
    while i < x.len() && i < y.len()
        invariant
            0 <= i <= x@.len(),
            i <= y@.len(),
            x@.subrange(0, i as int) == y@.subrange(0, i as int),
            x@ == sb(a@),
            y@ == sb(b@),
        decreases x@.len() - i,
    {
        if x[i] != y[i] {
            proof {
                lemma_bytes_lt_suffix(x@, y@, i as int);
                let xs = x@.subrange(i as int, x@.len() as int);
                let ys = y@.subrange(i as int, y@.len() as int);
                assert(xs.len() > 0 && ys.len() > 0);
                assert(xs[0] == x@[i as int]);
                assert(ys[0] == y@[i as int]);
                assert(bytes_lt(xs, ys) == (x@[i as int] < y@[i as int]));
                assert(bytes_lt(x@, y@) == (x@[i as int] < y@[i as int]));
            }
            return x[i] < y[i];
        }
        proof {
            assert(x@.subrange(0, i + 1) =~= x@.subrange(0, i as int).push(x@[i as int]));
            assert(y@.subrange(0, i + 1) =~= y@.subrange(0, i as int).push(y@[i as int]));
        }
        i += 1;
    }
    proof {
        lemma_bytes_lt_suffix(x@, y@, i as int);
    }
    i == x.len() && i < y.len()
}

/// Returns the UTF-8 bytes of a string slice.
pub fn bytes(s: &str) -> (b: &[u8])
    ensures
        b@ == sb(s@),
{
    s.as_bytes()
}

/// Returns the byte length of a string slice.
pub fn len(s: &str) -> (n: usize)
    ensures
        n == sb(s@).len(),
{
    s.as_bytes().len()
}

/// Returns the substring between two byte offsets that do not cut a character.
pub fn slice(s: &str, start: usize, end: usize) -> (r: &str)
    requires
        start <= end <= sb(s@).len(),
        is_char_boundary(sb(s@), start as int),
        is_char_boundary(sb(s@), end as int),
    ensures
        sb(r@) == sb(s@).subrange(start as int, end as int),
{
    let (head, _) = s.split_at(end);
    proof {
        lemma_prefix_boundary(sb(s@), end as int, start as int);
    }
    let (_, mid) = head.split_at(start);
    mid
}

/// Returns the text from a byte offset to the end.
pub fn slice_from(s: &str, start: usize) -> (r: &str)
    requires
        start <= sb(s@).len(),
        is_char_boundary(sb(s@), start as int),
    ensures
        sb(r@) == sb(s@).subrange(start as int, sb(s@).len() as int),
{
    let n = len(s);
    slice(s, start, n)
}

/// Returns an owned copy of a string slice.
pub fn owned(s: &str) -> (r: String)
    ensures
        r@ == s@,
{
    s.to_owned()
}

/// Reports whether a byte occurs in the text.
pub fn contains_byte(s: &str, c: u8) -> (r: bool)
    ensures
        r == sb(s@).contains(c),
{
    find_byte(s, c).is_some()
}

/// Returns the first byte offset holding `c`.
pub fn find_byte(s: &str, c: u8) -> (r: Option<usize>)
    ensures
        r is None <==> find(sb(s@), c) == -1,
        r matches Some(i) ==> i == find(sb(s@), c),
        r is None <==> !sb(s@).contains(c),
        r matches Some(i) ==> i < sb(s@).len() && sb(s@)[i as int] == c,
{
    let b = s.as_bytes();
    let mut i: usize = 0;
    proof {
        lemma_find(b@, c);
    }
    while i < b.len()
        invariant
            b@ == sb(s@),
            0 <= i <= b.len(),
            find(b@, c) == find_from(b@, c, i as int),
            find(b@, c) == -1 <==> !b@.contains(c),
            find(b@, c) != -1 ==> b@[find(b@, c)] == c && 0 <= find(b@, c) < b.len(),
        decreases b.len() - i,
    {
        if b[i] == c {
            return Some(i);
        }
        i += 1;
    }
    None
}

/// Returns the first byte offset at or after `from` holding `c`.
pub fn find_byte_from(s: &str, c: u8, from: usize) -> (r: Option<usize>)
    requires
        from <= sb(s@).len(),
    ensures
        r is None <==> find_from(sb(s@), c, from as int) == -1,
        r matches Some(i) ==> i == find_from(sb(s@), c, from as int),
{
    let b = s.as_bytes();
    let mut i: usize = from;
    while i < b.len()
        invariant
            b@ == sb(s@),
            from <= i <= b.len(),
            find_from(b@, c, from as int) == find_from(b@, c, i as int),
        decreases b.len() - i,
    {
        if b[i] == c {
            return Some(i);
        }
        i += 1;
    }
    None
}

/// Returns the last byte offset holding `c`.
pub fn rfind_byte(s: &str, c: u8) -> (r: Option<usize>)
    ensures
        r is None <==> rfind(sb(s@), c) == -1,
        r matches Some(i) ==> i == rfind(sb(s@), c),
        r is None <==> !sb(s@).contains(c),
        r matches Some(i) ==> i < sb(s@).len() && sb(s@)[i as int] == c,
{
    let b = s.as_bytes();
    let mut i: usize = b.len();
    proof {
        lemma_rfind(b@, c);
    }
    while i > 0
        invariant
            b@ == sb(s@),
            0 <= i <= b.len(),
            rfind(b@, c) == rfind_before(b@, c, i as int),
            rfind(b@, c) == -1 <==> !b@.contains(c),
            rfind(b@, c) != -1 ==> b@[rfind(b@, c)] == c && 0 <= rfind(b@, c) < b.len(),
        decreases i,
    {
        if b[i - 1] == c {
            return Some(i - 1);
        }
        i -= 1;
    }
    None
}

/// Reports whether two byte slices are equal.
pub fn bytes_eq(x: &[u8], y: &[u8]) -> (r: bool)
    ensures
        r == (x@ == y@),
{
    if x.len() != y.len() {
        return false;
    }
    let mut i: usize = 0;
    while i < x.len()
        invariant
            x.len() == y.len(),
            0 <= i <= x.len(),
            forall|j: int| 0 <= j < i ==> x@[j] == y@[j],
        decreases x.len() - i,
    {
        if x[i] != y[i] {
            return false;
        }
        i += 1;
    }
    assert(x@ =~= y@);
    true
}

/// Reports whether two strings hold the same text.
pub fn str_eq(a: &str, b: &str) -> (r: bool)
    ensures
        r == (a@ == b@),
{
    let r = bytes_eq(a.as_bytes(), b.as_bytes());
    proof {
        lemma_sb_injective(a@, b@);
    }
    r
}

/// Reports whether the text starts with `p`.
pub fn starts_with(s: &str, p: &str) -> (r: bool)
    ensures
        r == has_prefix(sb(s@), sb(p@)),
{
    let b = s.as_bytes();
    let q = p.as_bytes();
    if q.len() > b.len() {
        return false;
    }
    let mut i: usize = 0;
    while i < q.len()
        invariant
            b@ == sb(s@),
            q@ == sb(p@),
            q.len() <= b.len(),
            0 <= i <= q.len(),
            forall|j: int| 0 <= j < i ==> b@[j] == q@[j],
        decreases q.len() - i,
    {
        if b[i] != q[i] {
            assert(b@.subrange(0, q@.len() as int)[i as int] != q@[i as int]);
            return false;
        }
        i += 1;
    }
    assert(b@.subrange(0, q@.len() as int) =~= q@);
    true
}

/// Reports whether the text ends with `p`.
pub fn ends_with(s: &str, p: &str) -> (r: bool)
    ensures
        r == has_suffix(sb(s@), sb(p@)),
{
    let b = s.as_bytes();
    let q = p.as_bytes();
    if q.len() > b.len() {
        return false;
    }
    let k = b.len() - q.len();
    let mut i: usize = 0;
    while i < q.len()
        invariant
            b@ == sb(s@),
            q@ == sb(p@),
            q.len() <= b.len(),
            k == b.len() - q.len(),
            0 <= i <= q.len(),
            forall|j: int| 0 <= j < i ==> b@[k + j] == q@[j],
        decreases q.len() - i,
    {
        if b[k + i] != q[i] {
            assert(b@.subrange(k as int, b@.len() as int)[i as int] != q@[i as int]);
            return false;
        }
        i += 1;
    }
    assert(b@.subrange(k as int, b@.len() as int) =~= q@);
    true
}

/// Removes a leading `p`, when the text starts with it.
pub fn strip_prefix<'a>(s: &'a str, p: &str) -> (r: Option<&'a str>)
    ensures
        r is Some <==> has_prefix(sb(s@), sb(p@)),
        r matches Some(t) ==> sb(t@) == sb(s@).subrange(sb(p@).len() as int, sb(s@).len() as int),
{
    if starts_with(s, p) {
        proof {
            lemma_prefix_is_boundary(sb(s@), sb(p@));
        }
        Some(slice_from(s, len(p)))
    } else {
        None
    }
}

/// Removes a trailing `p`, when the text ends with it.
pub fn strip_suffix<'a>(s: &'a str, p: &str) -> (r: Option<&'a str>)
    ensures
        r is Some <==> has_suffix(sb(s@), sb(p@)),
        r matches Some(t) ==> sb(t@) == sb(s@).subrange(0, sb(s@).len() - sb(p@).len()),
{
    if ends_with(s, p) {
        proof {
            lemma_suffix_is_boundary(sb(s@), sb(p@));
        }
        let k = len(s) - len(p);
        Some(slice(s, 0, k))
    } else {
        None
    }
}

/// Splits around the byte at offset `i`, which holds an ASCII character.
pub fn split_around<'a>(s: &'a str, i: usize) -> (r: (&'a str, &'a str))
    requires
        i < sb(s@).len(),
        sb(s@)[i as int] < 128,
    ensures
        sb(r.0@) == sb(s@).subrange(0, i as int),
        sb(r.1@) == sb(s@).subrange(i + 1, sb(s@).len() as int),
{
    proof {
        lemma_ascii_boundary(sb(s@), i as int);
        lemma_after_ascii(sb(s@), i as int);
    }
    let n = len(s);
    (slice(s, 0, i), slice(s, i + 1, n))
}

/// Splits at the first occurrence of an ASCII byte.
pub fn split_once<'a>(s: &'a str, c: u8) -> (r: Option<(&'a str, &'a str)>)
    requires
        c < 128,
    ensures
        r is None <==> find(sb(s@), c) == -1,
        r matches Some(p) ==> sb(p.0@) == sb(s@).subrange(0, find(sb(s@), c)) && sb(p.1@)
            == sb(s@).subrange(find(sb(s@), c) + 1, sb(s@).len() as int),
{
    match find_byte(s, c) {
        Some(i) => Some(split_around(s, i)),
        None => None,
    }
}

/// Splits at the last occurrence of an ASCII byte.
pub fn rsplit_once<'a>(s: &'a str, c: u8) -> (r: Option<(&'a str, &'a str)>)
    requires
        c < 128,
    ensures
        r is None <==> rfind(sb(s@), c) == -1,
        r matches Some(p) ==> sb(p.0@) == sb(s@).subrange(0, rfind(sb(s@), c)) && sb(p.1@)
            == sb(s@).subrange(rfind(sb(s@), c) + 1, sb(s@).len() as int),
{
    match rfind_byte(s, c) {
        Some(i) => Some(split_around(s, i)),
        None => None,
    }
}

/// Reports whether every byte is an ASCII decimal digit.
pub fn all_digits_str(s: &str) -> (r: bool)
    ensures
        r == all_digits(sb(s@)),
{
    let b = s.as_bytes();
    let mut i: usize = 0;
    while i < b.len()
        invariant
            b@ == sb(s@),
            0 <= i <= b.len(),
            forall|j: int| 0 <= j < i ==> is_digit(b@[j]),
        decreases b.len() - i,
    {
        if !(b[i] >= 48 && b[i] <= 57) {
            return false;
        }
        i += 1;
    }
    true
}

/// Reports whether every byte is an ASCII `'0'`.
pub fn all_zero_str(s: &str) -> (r: bool)
    ensures
        r == all_zero(sb(s@)),
{
    let b = s.as_bytes();
    let mut i: usize = 0;
    while i < b.len()
        invariant
            b@ == sb(s@),
            0 <= i <= b.len(),
            forall|j: int| 0 <= j < i ==> b@[j] == 48,
        decreases b.len() - i,
    {
        if b[i] != 48 {
            return false;
        }
        i += 1;
    }
    true
}

/// Reports whether the text is a non-empty run of ASCII decimal digits.
pub fn decimal_str(s: &str) -> (r: bool)
    ensures
        r == decimal(sb(s@)),
{
    len(s) > 0 && all_digits_str(s)
}

/// Reports whether the text is empty.
pub fn is_empty(s: &str) -> (r: bool)
    ensures
        r == (sb(s@).len() == 0),
        r == (s@.len() == 0),
{
    proof {
        lemma_sb_injective(s@, Seq::<char>::empty());
        assert(sb(Seq::<char>::empty()) =~= Seq::<u8>::empty());
    }
    len(s) == 0
}

/// The bytes after a prefix `p` (meaningful when `b` starts with `p`).
pub open spec fn after(b: Seq<u8>, p: Seq<u8>) -> Seq<u8> {
    b.subrange(p.len() as int, b.len() as int)
}

/// The bytes before a suffix `p` (meaningful when `b` ends with `p`).
pub open spec fn before(b: Seq<u8>, p: Seq<u8>) -> Seq<u8> {
    b.subrange(0, b.len() - p.len())
}

/// `b` without a leading `p`, when it has one.
pub open spec fn strip(b: Seq<u8>, p: Seq<u8>) -> Seq<u8> {
    if has_prefix(b, p) {
        after(b, p)
    } else {
        b
    }
}

/// The first index at or after `i` holding `c` or `d`, or `-1`.
pub open spec fn find2_from(b: Seq<u8>, c: u8, d: u8, i: int) -> int
    decreases b.len() - i,
{
    if i < 0 || i >= b.len() {
        -1
    } else if b[i] == c || b[i] == d {
        i
    } else {
        find2_from(b, c, d, i + 1)
    }
}

/// Returns the first byte offset holding `c` or `d`.
pub fn find_byte2(s: &str, c: u8, d: u8) -> (r: Option<usize>)
    ensures
        r is None <==> find2_from(sb(s@), c, d, 0) == -1,
        r matches Some(i) ==> i == find2_from(sb(s@), c, d, 0) && i < sb(s@).len() && (sb(s@)[i as int] == c
            || sb(s@)[i as int] == d),
{
    let b = s.as_bytes();
    let mut i: usize = 0;
    while i < b.len()
        invariant
            b@ == sb(s@),
            0 <= i <= b.len(),
            find2_from(b@, c, d, 0) == find2_from(b@, c, d, i as int),
        decreases b.len() - i,
    {
        if b[i] == c || b[i] == d {
            return Some(i);
        }
        i += 1;
    }
    None
}

/// Removes a leading `p` when present and otherwise returns the text unchanged.
pub fn strip_or_keep<'a>(s: &'a str, p: &str) -> (r: &'a str)
    ensures
        sb(r@) == strip(sb(s@), sb(p@)),
{
    match strip_prefix(s, p) {
        Some(t) => t,
        None => s,
    }
}

/// The text without any trailing `\r` or `\n` bytes.
pub open spec fn trim_crlf(b: Seq<u8>) -> Seq<u8>
    decreases b.len(),
{
    if b.len() > 0 && (b.last() == 13 || b.last() == 10) {
        trim_crlf(b.drop_last())
    } else {
        b
    }
}

/// Removes trailing carriage returns and line feeds.
pub fn trim_end_crlf(s: &str) -> (r: &str)
    ensures
        sb(r@) == trim_crlf(sb(s@)),
{
    let b = s.as_bytes();
    let mut end: usize = b.len();
    assert(b@.subrange(0, end as int) =~= b@);
    while end > 0 && (b[end - 1] == 13 || b[end - 1] == 10)
        invariant
            b@ == sb(s@),
            0 <= end <= b.len(),
            trim_crlf(b@) == trim_crlf(b@.subrange(0, end as int)),
            end < b.len() ==> (b@[end as int] == 13 || b@[end as int] == 10),
        decreases end,
    {
        assert(b@.subrange(0, end as int).drop_last() =~= b@.subrange(0, end - 1));
        end -= 1;
    }
    proof {
        lemma_ascii_boundary(sb(s@), end as int);
        assert(is_char_boundary(sb(s@), 0));
    }
    slice(s, 0, end)
}

/// A Unicode whitespace character.
pub open spec fn is_whitespace(c: char) -> bool {
    let u = c as u32;
    (9 <= u <= 13) || u == 32 || u == 0x85 || u == 0xa0 || u == 0x1680 || (0x2000 <= u <= 0x200a) || u
        == 0x2028 || u == 0x2029 || u == 0x202f || u == 0x205f || u == 0x3000
}

/// Reports whether a character is Unicode whitespace.
pub fn char_is_whitespace(c: char) -> (r: bool)
    ensures
        r == is_whitespace(c),
{
    let u = c as u32;
    (9 <= u && u <= 13) || u == 32 || u == 0x85 || u == 0xa0 || u == 0x1680 || (0x2000 <= u && u <= 0x200a)
        || u == 0x2028 || u == 0x2029 || u == 0x202f || u == 0x205f || u == 0x3000
}

/// Reports whether the text holds a Unicode whitespace character.
pub fn contains_whitespace(s: &str) -> (r: bool)
    ensures
        r == exists|i: int| 0 <= i < s@.len() && is_whitespace(#[trigger] s@[i]),
{
    broadcast use vstd::string::axiom_spec_iter;

    let mut found = false;
    for c in it: s.chars()
        invariant
            it.seq() == s@,
            found == exists|i: int| 0 <= i < it.index() && is_whitespace(#[trigger] s@[i]),
    {
        if char_is_whitespace(c) {
            found = true;
        }
    }
    found
}

/// The fields of `b` from byte `start` on, cut at every byte `c`.
pub open spec fn split_from(b: Seq<u8>, c: u8, start: int) -> Seq<Seq<u8>>
    decreases b.len() - start,
{
    if start < 0 || start > b.len() {
        seq![]
    } else {
        let i = find_from(b, c, start);
        proof {
            lemma_find_from(b, c, start);
        }
        if i == -1 {
            seq![b.subrange(start, b.len() as int)]
        } else {
            seq![b.subrange(start, i)] + split_from(b, c, i + 1)
        }
    }
}

/// Fields joined with the byte `c` between neighbours.
pub open spec fn join_with(fs: Seq<Seq<u8>>, c: u8) -> Seq<u8>
    decreases fs.len(),
{
    if fs.len() == 0 {
        seq![]
    } else if fs.len() == 1 {
        fs[0]
    } else {
        join_with(fs.drop_last(), c) + seq![c] + fs.last()
    }
}

/// A split from inside the text yields at least one field.
pub proof fn lemma_split_from_len(b: Seq<u8>, c: u8, start: int)
    requires
        0 <= start <= b.len(),
    ensures
        split_from(b, c, start).len() >= 1,
    decreases b.len() - start,
{
    lemma_find_from(b, c, start);
    let i = find_from(b, c, start);
    if i != -1 {
        lemma_split_from_len(b, c, i + 1);
    }
}

/// The bytes of each string of a list.
pub open spec fn strs_bytes(v: Seq<&str>) -> Seq<Seq<u8>> {
    v.map_values(|x: &str| sb(x@))
}

/// Cuts the text from byte `start` on at every ASCII byte `c`.
pub fn split_all_from<'a>(s: &'a str, c: u8, start: usize) -> (r: Vec<&'a str>)
    requires
        c < 128,
        start <= sb(s@).len(),
        is_char_boundary(sb(s@), start as int),
    ensures
        strs_bytes(r@) == split_from(sb(s@), c, start as int),
{
    let b = bytes(s);
    let n = b.len();
    let mut fields: Vec<&'a str> = Vec::new();
    let mut cursor = start;
    loop
        invariant
            b@ == sb(s@),
            n == b@.len(),
            c < 128,
            start <= cursor <= b@.len(),
            is_char_boundary(b@, cursor as int),
            split_from(b@, c, start as int) == strs_bytes(fields@) + split_from(b@, c, cursor as int),
        decreases b@.len() - cursor,
    {
        proof {
            lemma_find_from(b@, c, cursor as int);
        }
        match find_byte_from(s, c, cursor) {
            None => {
                let last = slice_from(s, cursor);
                let ghost before = fields@;
                fields.push(last);
                proof {
                    assert(strs_bytes(fields@) =~= strs_bytes(before) + seq![sb(last@)]);
                }
                return fields;
            },
            Some(i) => {
                proof {
                    lemma_ascii_boundary(b@, i as int);
                    lemma_after_ascii(b@, i as int);
                }
                let piece = slice(s, cursor, i);
                let ghost before = fields@;
                fields.push(piece);
                proof {
                    assert(strs_bytes(fields@) =~= strs_bytes(before) + seq![sb(piece@)]);
                    assert(split_from(b@, c, cursor as int) == seq![sb(piece@)] + split_from(b@, c, i + 1));
                    assert(strs_bytes(before) + (seq![sb(piece@)] + split_from(b@, c, i + 1))
                        =~= (strs_bytes(before) + seq![sb(piece@)]) + split_from(b@, c, i + 1));
                }
                cursor = i + 1;
            },
        }
    }
}

/// Joins the first `count` strings with a one-byte separator between neighbours.
pub fn join_strs(fs: &[&str], count: usize, sep: &str, c: u8) -> (r: String)
    requires
        count <= fs@.len(),
        sb(sep@) == seq![c],
    ensures
        sb(r@) == join_with(strs_bytes(fs@.subrange(0, count as int)), c),
{
    let mut out = String::new();
    let mut i: usize = 0;
    proof {
        assert(sb(out@) =~= Seq::<u8>::empty());
    }
    while i < count
        invariant
            0 <= i <= count <= fs@.len(),
            sb(sep@) == seq![c],
            sb(out@) == join_with(strs_bytes(fs@.subrange(0, i as int)), c),
        decreases count - i,
    {
        let ghost prior = out@;
        if i > 0 {
            proof {
                lemma_sb_concat(out@, sep@);
            }
            out.append(sep);
        }
        proof {
            lemma_sb_concat(out@, fs[i as int]@);
        }
        out.append(fs[i]);
        proof {
            let next = strs_bytes(fs@.subrange(0, i + 1));
            assert(next.drop_last() =~= strs_bytes(fs@.subrange(0, i as int)));
            assert(next.last() == sb(fs@[i as int]@));
            if i == 0 {
                assert(next =~= seq![sb(fs@[0]@)]);
                assert(sb(prior) =~= Seq::<u8>::empty());
                assert(sb(out@) =~= Seq::<u8>::empty() + sb(fs@[0]@));
            }
        }
        i += 1;
    }
    out
}

} // verus!
