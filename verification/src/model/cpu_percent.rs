//! Raw-preserving service CPU-percentage values.

use crate::model::cpu_count::{yaml_int, CpuCount};
use crate::text::{after, bytes, has_prefix, is_alnum, is_digit, sb, strip, strip_or_keep, strip_prefix};
use vstd::prelude::*;

verus! {

/// A service `cpu_percent` scalar category with exact authored spelling.
#[derive(Debug, Clone, PartialEq, Eq)]
#[non_exhaustive]
pub enum CpuPercent {
    /// A YAML integer in the inclusive `0..=100` range, retained without normalization.
    YamlInteger(String),
    /// A YAML string scalar retained without numeric coercion.
    String(String),
    /// A YAML integer outside the documented percentage range.
    OutOfRangeYamlInteger(String),
}

/// The value of one digit byte: `0`-`9`, then letters from 10 regardless of case.
pub open spec fn digit_value(c: u8) -> int {
    if is_digit(c) {
        c - 48
    } else if 65 <= c <= 90 {
        c + 32 - 97 + 10
    } else {
        c - 97 + 10
    }
}

/// The value of a digit run in a radix, with `_` separators ignored.
pub open spec fn run_value(b: Seq<u8>, radix: int) -> int
    decreases b.len(),
{
    if b.len() == 0 {
        0
    } else if b.last() == 95 {
        run_value(b.drop_last(), radix)
    } else {
        run_value(b.drop_last(), radix) * radix + digit_value(b.last())
    }
}

/// Some digit of the run has a non-zero value.
pub open spec fn any_nonzero(b: Seq<u8>) -> bool {
    exists|i: int| 0 <= i < b.len() && b[i] != 95 && digit_value(b[i]) != 0
}

/// Whether the spelling is negative, and its radix and digits.
pub open spec fn percent_parts(b: Seq<u8>) -> (bool, int, Seq<u8>) {
    let negative = has_prefix(b, sb("-"@));
    let v = if negative {
        after(b, sb("-"@))
    } else {
        strip(b, sb("+"@))
    };
    if has_prefix(v, sb("0b"@)) {
        (negative, 2, after(v, sb("0b"@)))
    } else if has_prefix(v, sb("0o"@)) {
        (negative, 8, after(v, sb("0o"@)))
    } else if has_prefix(v, sb("0x"@)) {
        (negative, 16, after(v, sb("0x"@)))
    } else {
        (negative, 10, v)
    }
}

/// Digits made only of ASCII letters, digits and `_`.
pub open spec fn plain_digits(b: Seq<u8>) -> bool {
    forall|i: int| 0 <= i < b.len() ==> #[trigger] b[i] == 95 || is_alnum(b[i])
}

/// The spelling denotes an integer in `0..=100`: its value is at most 100 and a negative
/// spelling has only zero digits.
pub open spec fn in_percent_range(b: Seq<u8>) -> bool {
    let (negative, radix, digits) = percent_parts(b);
    run_value(digits, radix) <= 100 && (!negative || !any_nonzero(digits))
}

/// Extending a digit run never lowers its value.
pub proof fn lemma_run_value_monotone(b: Seq<u8>, radix: int, j: int, k: int)
    requires
        radix >= 2,
        plain_digits(b),
        0 <= j <= k <= b.len(),
    ensures
        0 <= run_value(b.subrange(0, j), radix) <= run_value(b.subrange(0, k), radix),
    decreases k - j,
{
    if j < k {
        lemma_run_value_monotone(b, radix, j, k - 1);
        let t = b.subrange(0, k);
        assert(t.drop_last() =~= b.subrange(0, k - 1));
        assert(t.last() == b[k - 1]);
        let p = run_value(b.subrange(0, k - 1), radix);
        assert(p * radix >= p) by (nonlinear_arith)
            requires
                p >= 0,
                radix >= 2,
        ;
    } else {
        lemma_run_value_nonneg(b.subrange(0, j), radix);
    }
}

/// Digit-run values are never negative.
pub proof fn lemma_run_value_nonneg(b: Seq<u8>, radix: int)
    requires
        radix >= 2,
        plain_digits(b),
    ensures
        run_value(b, radix) >= 0,
    decreases b.len(),
{
    if b.len() > 0 {
        assert(plain_digits(b.drop_last())) by {
            assert forall|i: int| 0 <= i < b.drop_last().len() implies #[trigger] b.drop_last()[i] == 95
                || is_alnum(b.drop_last()[i]) by {
                assert(b.drop_last()[i] == b[i]);
            }
        }
        lemma_run_value_nonneg(b.drop_last(), radix);
        let p = run_value(b.drop_last(), radix);
        assert(p * radix >= 0) by (nonlinear_arith)
            requires
                p >= 0,
                radix >= 2,
        ;
    }
}

impl CpuPercent {
    /// The authored spelling held by any variant.
    pub open spec fn spec_raw(&self) -> Seq<char> {
        match self {
            CpuPercent::YamlInteger(s) => s@,
            CpuPercent::String(s) => s@,
            CpuPercent::OutOfRangeYamlInteger(s) => s@,
        }
    }

    /// Classifies a YAML integer spelling by the documented percentage range.
    pub fn yaml_integer(raw: String) -> (r: Self)
        requires
            plain_digits(percent_parts(sb(raw@)).2),
        ensures
            r.spec_raw() == raw@,
            r is YamlInteger <==> in_percent_range(sb(raw@)),
            r is OutOfRangeYamlInteger <==> !in_percent_range(sb(raw@)),
    {
        if yaml_integer_in_percent_range(raw.as_str()) {
            CpuPercent::YamlInteger(raw)
        } else {
            CpuPercent::OutOfRangeYamlInteger(raw)
        }
    }

    /// Returns whether this scalar satisfies the schema's percentage range.
    pub fn is_valid(&self) -> (r: bool)
        ensures
            r == !(self is OutOfRangeYamlInteger),
    {
        !matches!(self, CpuPercent::OutOfRangeYamlInteger(_))
    }

    /// Returns whether a plain scalar spelling is a YAML integer.
    pub fn yaml_integer_spelling(value: &str) -> (r: bool)
        ensures
            r == yaml_int(sb(value@)),
    {
        CpuCount::yaml_integer_spelling(value)
    }
}

/// Computes whether an integer spelling lies in `0..=100`, stopping as soon as the
/// value exceeds 100.
#[verifier::loop_isolation(false)]
pub fn yaml_integer_in_percent_range(value: &str) -> (r: bool)
    requires
        plain_digits(percent_parts(sb(value@)).2),
    ensures
        r == in_percent_range(sb(value@)),
{
    let ghost orig = sb(value@);
    let (negative, value) = match strip_prefix(value, "-") {
        Some(v) => (true, v),
        None => (false, strip_or_keep(value, "+")),
    };
    let (radix, digits): (u16, &str) = if let Some(v) = strip_prefix(value, "0b") {
        (2, v)
    } else if let Some(v) = strip_prefix(value, "0o") {
        (8, v)
    } else if let Some(v) = strip_prefix(value, "0x") {
        (16, v)
    } else {
        (10, value)
    };
    let b = bytes(digits);
    let ghost d = b@;
    assert(percent_parts(orig) == (negative, radix as int, d));
    let mut result: u16 = 0;
    let mut nonzero = false;
    let mut i: usize = 0;
    while i < b.len()
        invariant
            b@ == d,
            percent_parts(orig) == (negative, radix as int, d),
            plain_digits(d),
            radix == 2 || radix == 8 || radix == 10 || radix == 16,
            0 <= i <= b.len(),
            result as int == run_value(d.subrange(0, i as int), radix as int),
            result <= 100,
            nonzero == any_nonzero(d.subrange(0, i as int)),
        decreases b.len() - i,
    {
        let byte = b[i];
        let ghost t = d.subrange(0, i + 1);
        assert(t.drop_last() =~= d.subrange(0, i as int));
        assert(byte == 95 || is_alnum(byte));
        if byte != 95 {
            let digit: u16 = if byte >= 48 && byte <= 57 {
                (byte - 48) as u16
            } else if byte >= 65 && byte <= 90 {
                (byte + 32 - 97 + 10) as u16
            } else {
                (byte - 97 + 10) as u16
            };
            assert(digit as int == digit_value(byte));
            nonzero = nonzero || digit != 0;
            result = result * radix + digit;
            proof {
                if nonzero {
                    if digit != 0 {
                        assert(t[i as int] == byte);
                    } else {
                        let k = choose|k: int|
                            0 <= k < i && d.subrange(0, i as int)[k] != 95 && digit_value(
                                d.subrange(0, i as int)[k],
                            ) != 0;
                        assert(t[k] == d.subrange(0, i as int)[k]);
                    }
                } else {
                    assert forall|k: int| 0 <= k < t.len() implies !(t[k] != 95 && digit_value(t[k])
                        != 0) by {
                        if k < i {
                            assert(t[k] == d.subrange(0, i as int)[k]);
                        }
                    }
                }
            }
            if result > 100 {
                proof {
                    lemma_run_value_monotone(d, radix as int, i + 1, d.len() as int);
                    assert(d.subrange(0, d.len() as int) =~= d);
                }
                return false;
            }
        } else {
            proof {
                assert(any_nonzero(t) == any_nonzero(d.subrange(0, i as int))) by {
                    if any_nonzero(t) {
                        let k = choose|k: int| 0 <= k < t.len() && t[k] != 95 && digit_value(t[k]) != 0;
                        assert(d.subrange(0, i as int)[k] == t[k]);
                    }
                    if any_nonzero(d.subrange(0, i as int)) {
                        let k = choose|k: int|
                            0 <= k < i && d.subrange(0, i as int)[k] != 95 && digit_value(
                                d.subrange(0, i as int)[k],
                            ) != 0;
                        assert(t[k] == d.subrange(0, i as int)[k]);
                    }
                }
            }
        }
        i += 1;
    }
    assert(d.subrange(0, d.len() as int) =~= d);
    !negative || !nonzero
}

} // verus!
