//! Raw-preserving service real-time CPU-period values.

use crate::model::lifecycle::{grace_period, valid_stop_grace_period};
use crate::text::{contains_byte, sb, trim_crlf, trim_end_crlf};
use vstd::prelude::*;

verus! {

/// A service real-time CPU-period scalar category with exact authored spelling.
#[derive(Debug, Clone, PartialEq, Eq)]
#[non_exhaustive]
pub enum CpuRtPeriod {
    /// A YAML numeric scalar retained without conversion or normalization.
    YamlNumber(String),
    /// A string in Compose's documented duration syntax.
    Duration(String),
    /// A string containing a dollar marker and therefore deferred to interpolation.
    Expression(String),
    /// Any other spelling.
    Other(String),
}

impl CpuRtPeriod {
    /// The authored spelling held by any variant.
    pub open spec fn spec_raw(&self) -> Seq<char> {
        match self {
            CpuRtPeriod::YamlNumber(s) => s@,
            CpuRtPeriod::Duration(s) => s@,
            CpuRtPeriod::Expression(s) => s@,
            CpuRtPeriod::Other(s) => s@,
        }
    }

    /// Classifies a string scalar: deferred when it holds `$`, a duration when it follows
    /// the documented syntax once trailing line breaks are ignored, and other values
    /// otherwise.
    pub fn parse_string(value: String) -> (r: Self)
        ensures
            r.spec_raw() == value@,
            r is Expression <==> sb(value@).contains(36),
            r is Duration <==> !sb(value@).contains(36) && grace_period(trim_crlf(sb(value@))),
            r is Other <==> !sb(value@).contains(36) && !grace_period(trim_crlf(sb(value@))),
    {
        if contains_byte(value.as_str(), 36) {
            CpuRtPeriod::Expression(value)
        } else if valid_stop_grace_period(trim_end_crlf(value.as_str())) {
            CpuRtPeriod::Duration(value)
        } else {
            CpuRtPeriod::Other(value)
        }
    }

    /// Reports whether the value is documented or deferred.
    pub(crate) fn is_valid(&self) -> (r: bool)
        ensures
            r == !(self is Other),
    {
        !matches!(self, CpuRtPeriod::Other(_))
    }
}

} // verus!
