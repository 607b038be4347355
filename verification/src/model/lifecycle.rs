//! Raw-preserving service lifecycle controls.

use crate::text::{bytes, contains_byte, has_prefix, is_digit, sb, str_eq};
use vstd::prelude::*;

verus! {

/// A service `stop_grace_period` value with its authored spelling retained.
#[derive(Debug, Clone, PartialEq, Eq)]
pub enum StopGracePeriod {
    /// A resolved literal satisfying Compose's documented duration syntax.
    Value(String),
    /// A scalar containing a dollar marker and therefore deferred to interpolation.
    Expression(String),
    /// A resolved literal outside the documented duration syntax.
    Other(String),
}

/// A byte of a duration number: a digit or `.`.
pub open spec fn numeric(c: u8) -> bool {
    is_digit(c) || c == 46
}

/// The end of the run of numeric bytes that starts at `i`.
pub open spec fn numeric_end(b: Seq<u8>, i: int) -> int
    decreases b.len() - i,
{
    if 0 <= i < b.len() && numeric(b[i]) {
        numeric_end(b, i + 1)
    } else {
        i
    }
}

/// The number of `.` bytes.
pub open spec fn dots(b: Seq<u8>) -> int
    decreases b.len(),
{
    if b.len() == 0 {
        0
    } else {
        dots(b.drop_last()) + if b.last() == 46 {
            1int
        } else {
            0int
        }
    }
}

/// The length of the documented unit that starts the text (`us`, `ms`, `s`, `m` or `h`,
/// tried in that order), or zero.
pub open spec fn unit_len(b: Seq<u8>) -> int {
    if has_prefix(b, seq![117u8, 115u8]) || has_prefix(b, seq![109u8, 115u8]) {
        2
    } else if b.len() > 0 && (b[0] == 115 || b[0] == 109 || b[0] == 104) {
        1
    } else {
        0
    }
}

/// A (possibly empty) run of duration segments: each a number with at most one `.`,
/// not ending in `.`, followed by a documented unit.
pub open spec fn duration_segments(b: Seq<u8>) -> bool
    decreases b.len(),
{
    if b.len() == 0 {
        true
    } else {
        let n = numeric_end(b, 0);
        proof {
            lemma_numeric_end(b, 0);
        }
        let number = b.subrange(0, n);
        let rest = b.subrange(n, b.len() as int);
        let u = unit_len(rest);
        n > 0 && dots(number) <= 1 && number.last() != 46 && u > 0 && duration_segments(
            rest.subrange(u, rest.len() as int),
        )
    }
}

/// Compose's documented duration syntax: one or more segments such as `1m30s` or `1.5s`.
pub open spec fn grace_period(b: Seq<u8>) -> bool {
    b.len() > 0 && duration_segments(b)
}

/// Bounds and content of a numeric run.
pub proof fn lemma_numeric_end(b: Seq<u8>, i: int)
    requires
        0 <= i <= b.len(),
    ensures
        i <= numeric_end(b, i) <= b.len(),
        forall|j: int| i <= j < numeric_end(b, i) ==> numeric(b[j]),
        numeric_end(b, i) < b.len() ==> !numeric(b[numeric_end(b, i)]),
    decreases b.len() - i,
{
    if i < b.len() && numeric(b[i]) {
        lemma_numeric_end(b, i + 1);
    }
}

/// Shifting the start of a numeric run.
pub proof fn lemma_numeric_end_shift(b: Seq<u8>, p: int, i: int)
    requires
        0 <= p <= i <= b.len(),
    ensures
        numeric_end(b.subrange(p, b.len() as int), i - p) == numeric_end(b, i) - p,
    decreases b.len() - i,
{
    let r = b.subrange(p, b.len() as int);
    if i < b.len() {
        assert(r[i - p] == b[i]);
        lemma_numeric_end_shift(b, p, i + 1);
    }
}

impl StopGracePeriod {
    /// The authored spelling held by any variant.
    pub open spec fn spec_raw(&self) -> Seq<char> {
        match self {
            StopGracePeriod::Value(s) => s@,
            StopGracePeriod::Expression(s) => s@,
            StopGracePeriod::Other(s) => s@,
        }
    }

    /// Classifies a raw value: deferred when it holds `$`, a value when it follows the
    /// documented syntax, and other values otherwise.
    pub fn parse(value: String) -> (r: Self)
        ensures
            r.spec_raw() == value@,
            r is Expression <==> sb(value@).contains(36),
            r is Value <==> !sb(value@).contains(36) && grace_period(sb(value@)),
    {
        if contains_byte(value.as_str(), 36) {
            StopGracePeriod::Expression(value)
        } else if valid_stop_grace_period(value.as_str()) {
            StopGracePeriod::Value(value)
        } else {
            StopGracePeriod::Other(value)
        }
    }

    /// Reports whether the value is valid or deferred.
    pub fn is_valid(&self) -> (r: bool)
        ensures
            r == !(self is Other),
    {
        !matches!(self, StopGracePeriod::Other(_))
    }

    /// Returns the exact authored spelling.
    pub fn raw(&self) -> (r: &str)
        ensures
            r@ == self.spec_raw(),
    {
        match self {
            StopGracePeriod::Value(value) => value.as_str(),
            StopGracePeriod::Expression(value) => value.as_str(),
            StopGracePeriod::Other(value) => value.as_str(),
        }
    }
}

/// Reports whether a value follows Compose's documented duration syntax.
pub fn valid_stop_grace_period(value: &str) -> (r: bool)
    ensures
        r == grace_period(sb(value@)),
{
    let b = bytes(value);
    let ghost all = b@;
    let mut pos: usize = 0;
    let mut found = false;
    assert(all.subrange(0, all.len() as int) =~= all);
    while pos < b.len()
        invariant
            b@ == all,
            all == sb(value@),
            0 <= pos <= b.len(),
            found == (pos > 0),
            duration_segments(all) == duration_segments(all.subrange(pos as int, all.len() as int)),
        decreases b.len() - pos,
    {
        let ghost rest = all.subrange(pos as int, all.len() as int);
        let mut end: usize = pos;
        let mut dot_count: usize = 0;
        proof {
            lemma_numeric_end(all, pos as int);
            lemma_numeric_end_shift(all, pos as int, pos as int);
        }
        while end < b.len() && ((b[end] >= 48 && b[end] <= 57) || b[end] == 46)
            invariant
                b@ == all,
                pos <= end <= numeric_end(all, pos as int),
                numeric_end(all, pos as int) <= all.len(),
                forall|j: int| pos <= j < numeric_end(all, pos as int) ==> numeric(all[j]),
                numeric_end(all, pos as int) < all.len() ==> !numeric(all[numeric_end(all, pos as int)]),
                dot_count as int == dots(all.subrange(pos as int, end as int)),
                dot_count <= end - pos,
            decreases b.len() - end,
        {
            let ghost t = all.subrange(pos as int, end + 1);
            assert(t.drop_last() =~= all.subrange(pos as int, end as int));
            if b[end] == 46 {
                dot_count = dot_count + 1;
            }
            end = end + 1;
        }
        let ghost n = end - pos;
        assert(numeric_end(rest, 0) == n);
        assert(rest.subrange(0, n) =~= all.subrange(pos as int, end as int));
        if end == pos || dot_count > 1 || b[end - 1] == 46 {
            return false;
        }
        let ghost after_number = rest.subrange(n, rest.len() as int);
        assert(after_number =~= all.subrange(end as int, all.len() as int));
        let unit: usize = if b.len() - end >= 2 && (b[end] == 117 || b[end] == 109) && b[end + 1] == 115 {
            assert(after_number.subrange(0, 2) =~= seq![b[end as int], 115u8]);
            2
        } else if end < b.len() && (b[end] == 115 || b[end] == 109 || b[end] == 104) {
            proof {
                if after_number.len() >= 2 {
                    assert(after_number.subrange(0, 2) =~= seq![after_number[0], after_number[1]]);
                }
            }
            1
        } else {
            proof {
                if after_number.len() >= 2 {
                    assert(after_number.subrange(0, 2) =~= seq![after_number[0], after_number[1]]);
                }
            }
            0
        };
        assert(unit as int == unit_len(after_number));
        if unit == 0 {
            return false;
        }
        assert(after_number.subrange(unit as int, after_number.len() as int) =~= all.subrange(
            end + unit,
            all.len() as int,
        ));
        pos = end + unit;
        found = true;
    }
    found
}

/// The length of the health-check unit that starts the text (`ns`, `us`, `µs`, `μs`,
/// `ms`, `s`, `m` or `h`, tried in that order), or zero.
pub open spec fn health_unit_len(b: Seq<u8>) -> int {
    if has_prefix(b, seq![110u8, 115u8]) || has_prefix(b, seq![117u8, 115u8]) {
        2
    } else if has_prefix(b, seq![0xc2u8, 0xb5u8, 115u8]) || has_prefix(b, seq![0xceu8, 0xbcu8, 115u8]) {
        3
    } else if has_prefix(b, seq![109u8, 115u8]) {
        2
    } else if b.len() > 0 && (b[0] == 115 || b[0] == 109 || b[0] == 104) {
        1
    } else {
        0
    }
}

/// A (possibly empty) run of health-check duration segments: each a number with at most
/// one `.` that is not just `.`, followed by a health-check unit.
pub open spec fn health_segments(b: Seq<u8>) -> bool
    decreases b.len(),
{
    if b.len() == 0 {
        true
    } else {
        let n = numeric_end(b, 0);
        proof {
            lemma_numeric_end(b, 0);
        }
        let number = b.subrange(0, n);
        let rest = b.subrange(n, b.len() as int);
        let u = health_unit_len(rest);
        n > 0 && dots(number) <= 1 && !(n == 1 && b[0] == 46) && u > 0 && health_segments(
            rest.subrange(u, rest.len() as int),
        )
    }
}

/// Compose's duration syntax for health checks: `0`, or one or more segments.
pub open spec fn compose_duration(c: Seq<char>) -> bool {
    c == "0"@ || (sb(c).len() > 0 && health_segments(sb(c)))
}

/// Returns the length of the health-check unit at `at`.
fn health_unit_at(b: &[u8], at: usize) -> (r: usize)
    requires
        at <= b@.len(),
    ensures
        r as int == health_unit_len(b@.subrange(at as int, b@.len() as int)),
{
    let ghost rest = b@.subrange(at as int, b@.len() as int);
    let n = b.len() - at;
    proof {
        if rest.len() >= 2 {
            assert(rest.subrange(0, 2) =~= seq![rest[0], rest[1]]);
        }
        if rest.len() >= 3 {
            assert(rest.subrange(0, 3) =~= seq![rest[0], rest[1], rest[2]]);
        }
    }
    if n >= 2 && (b[at] == 110 || b[at] == 117) && b[at + 1] == 115 {
        2
    } else if n >= 3 && ((b[at] == 0xc2 && b[at + 1] == 0xb5) || (b[at] == 0xce && b[at + 1] == 0xbc))
        && b[at + 2] == 115 {
        3
    } else if n >= 2 && b[at] == 109 && b[at + 1] == 115 {
        2
    } else if n >= 1 && (b[at] == 115 || b[at] == 109 || b[at] == 104) {
        1
    } else {
        0
    }
}

/// Reports whether a value follows Compose's health-check duration syntax.
pub fn valid_duration(value: &str) -> (r: bool)
    ensures
        r == compose_duration(value@),
{
    if str_eq(value, "0") {
        return true;
    }
    let b = bytes(value);
    let ghost all = b@;
    let mut pos: usize = 0;
    let mut found = false;
    assert(all.subrange(0, all.len() as int) =~= all);
    while pos < b.len()
        invariant
            b@ == all,
            all == sb(value@),
            value@ != "0"@,
            0 <= pos <= b.len(),
            found == (pos > 0),
            health_segments(all) == health_segments(all.subrange(pos as int, all.len() as int)),
        decreases b.len() - pos,
    {
        let ghost rest = all.subrange(pos as int, all.len() as int);
        let mut end: usize = pos;
        let mut dot_count: usize = 0;
        proof {
            lemma_numeric_end(all, pos as int);
            lemma_numeric_end_shift(all, pos as int, pos as int);
        }
        while end < b.len() && ((b[end] >= 48 && b[end] <= 57) || b[end] == 46)
            invariant
                b@ == all,
                pos <= end <= numeric_end(all, pos as int),
                numeric_end(all, pos as int) <= all.len(),
                forall|j: int| pos <= j < numeric_end(all, pos as int) ==> numeric(all[j]),
                numeric_end(all, pos as int) < all.len() ==> !numeric(all[numeric_end(all, pos as int)]),
                dot_count as int == dots(all.subrange(pos as int, end as int)),
                dot_count <= end - pos,
            decreases b.len() - end,
        {
            let ghost t = all.subrange(pos as int, end + 1);
            assert(t.drop_last() =~= all.subrange(pos as int, end as int));
            if b[end] == 46 {
                dot_count = dot_count + 1;
            }
            end = end + 1;
        }
        let ghost n = end - pos;
        assert(numeric_end(rest, 0) == n);
        assert(rest.subrange(0, n) =~= all.subrange(pos as int, end as int));
        if end == pos || dot_count > 1 || (end - pos == 1 && b[pos] == 46) {
            return false;
        }
        let ghost after_number = rest.subrange(n, rest.len() as int);
        assert(after_number =~= all.subrange(end as int, all.len() as int));
        let unit = health_unit_at(b, end);
        if unit == 0 {
            return false;
        }
        assert(after_number.subrange(unit as int, after_number.len() as int) =~= all.subrange(
            end + unit,
            all.len() as int,
        ));
        pos = end + unit;
        found = true;
    }
    found
}

} // verus!
