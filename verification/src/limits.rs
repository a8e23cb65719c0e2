use vstd::prelude::*;

verus! {

/// The high-water mark a transport starts with, in bytes.
pub const DEFAULT_WATER_HIGH: usize = 65536;

/// Why a pair of write-buffer limits was refused.
#[derive(Clone, Copy, Debug, PartialEq, Eq)]
pub enum LimitsError {
    /// The high-water mark came out below the low-water mark
    /// ("high must be >= low must be >= 0").
    HighBelowLow,
}

/// The (high, low) water marks that a request names: a missing high mark is four
/// times the low mark, or the default when both are missing; a missing low mark is a
/// quarter of the high mark.
pub open spec fn requested_limits(high: Option<usize>, low: Option<usize>) -> (int, int) {
    let wh: int = match high {
        None => match low {
            None => DEFAULT_WATER_HIGH as int,
            Some(v) => 4 * v,
        },
        Some(v) => v as int,
    };
    let wl: int = match low {
        None => wh / 4,
        Some(v) => v as int,
    };
    (wh, wl)
}

/// The request can be computed without overflow: a lone low mark times four fits a `usize`.
pub open spec fn limits_computable(high: Option<usize>, low: Option<usize>) -> bool {
    high is None && low is Some ==> 4 * low->0 <= usize::MAX
}

/// Computes the water marks that a request names, and refuses a high mark below the low one.
pub fn compute_limits(high: Option<usize>, low: Option<usize>) -> (r: Result<(usize, usize), LimitsError>)
    requires
        limits_computable(high, low),
    ensures
        match r {
            Ok((wh, wl)) => requested_limits(high, low) == (wh as int, wl as int) && wl <= wh,
            Err(e) => e == LimitsError::HighBelowLow && requested_limits(high, low).0
                < requested_limits(high, low).1,
        },
{
    let wh: usize = match high {
        None => match low {
            None => DEFAULT_WATER_HIGH,
            Some(v) => v * 4,
        },
        Some(v) => v,
    };
    let wl: usize = match low {
        None => wh / 4,
        Some(v) => v,
    };
    if wh < wl {
        return Err(LimitsError::HighBelowLow);
    }
    Ok((wh, wl))
}

} // verus!
