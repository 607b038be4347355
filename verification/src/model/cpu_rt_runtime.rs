//! Raw-preserving service real-time CPU-runtime values.

use crate::model::lifecycle::{grace_period, valid_stop_grace_period};
use crate::text::{all_digits, all_digits_str, contains_byte, sb, trim_crlf, trim_end_crlf};
use vstd::prelude::*;

verus! {

/// A service real-time CPU-runtime scalar category with exact authored spelling.
#[derive(Debug, Clone, PartialEq, Eq)]
#[non_exhaustive]
pub enum CpuRtRuntime {
    /// A decimal microsecond count retained without conversion.
    Microseconds(String),
    /// A string in Compose's documented duration syntax.
    Duration(String),
    /// A string containing a dollar marker and therefore deferred to interpolation.
    Expression(String),
    /// Any other spelling.
    Other(String),
}

impl CpuRtRuntime {
    /// The authored spelling held by any variant.
    pub open spec fn spec_raw(&self) -> Seq<char> {
        match self {
            CpuRtRuntime::Microseconds(s) => s@,
            CpuRtRuntime::Duration(s) => s@,
            CpuRtRuntime::Expression(s) => s@,
            CpuRtRuntime::Other(s) => s@,
        }
    }

    /// Classifies a string scalar: deferred when it holds `$`, a duration when it follows
    /// the documented syntax once trailing line breaks are ignored, and other values
    /// otherwise.
    pub fn parse_string(value: String) -> (r: Self)
        ensures
            r.spec_raw() == value@,
            r is Expression <==> sb(value@).contains(36),
            r is Duration <==> !sb(value@).contains(36) && grace_period(trim_crlf(sb(value@))),
            r is Other <==> !sb(value@).contains(36) && !grace_period(trim_crlf(sb(value@))),
    {
        if contains_byte(value.as_str(), 36) {
            CpuRtRuntime::Expression(value)
        } else if valid_stop_grace_period(trim_end_crlf(value.as_str())) {
            CpuRtRuntime::Duration(value)
        } else {
            CpuRtRuntime::Other(value)
        }
    }

    /// Classifies a numeric scalar: microseconds when it is an integer made only of
    /// decimal digits, and other values otherwise.
    pub fn parse_number(value: String, is_integer: bool) -> (r: Self)
        ensures
            r.spec_raw() == value@,
            r is Microseconds <==> is_integer && all_digits(sb(value@)),
            r is Other <==> !(is_integer && all_digits(sb(value@))),
    {
        if is_integer && all_digits_str(value.as_str()) {
            CpuRtRuntime::Microseconds(value)
        } else {
            CpuRtRuntime::Other(value)
        }
    }

    /// Reports whether the value is documented or deferred.
    pub fn is_valid(&self) -> (r: bool)
        ensures
            r == !(self is Other),
    {
        !matches!(self, CpuRtRuntime::Other(_))
    }
}

} // verus!
