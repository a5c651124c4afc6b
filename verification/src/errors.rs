use vstd::prelude::*;

verus! {

/// Why a request was rejected before hand-off to the settlement engine.
/// Every rejection names the violated invariant and, where one exists,
/// the offending bin.
#[derive(Clone, Copy, Debug, PartialEq, Eq, Structural)]
pub enum LiquidityError {
    /// A deposit bin sits on the wrong side of the active bin for a
    /// single-sided deposit (token X deploys strictly above the active
    /// bin, token Y at or below it).
    InvalidBinSide { bin_id: i32 },
    /// A bin lies outside the position's inclusive [lower, upper] range.
    BinOutOfRange { bin_id: i32 },
    /// A weighted deposit distribution carried no entries.
    EmptyDistribution,
    /// The same bin was listed twice; the intent is ambiguous.
    DuplicateBin { bin_id: i32 },
    /// The maximum active-bin slippage bound was negative.
    InvalidSlippageBound,
    /// A basis-point value exceeded the full-removal value of 10000.
    BpsOutOfRange { bin_id: i32, bps: u16 },
    /// A selective withdrawal carried an empty reduction table; only the
    /// all-bins withdrawal may omit per-bin entries.
    EmptyReduction,
    /// A cross-reference between position, pool, bin-array, mint or
    /// reserve identities failed.
    PositionIdentityMismatch,
    /// Close was requested while the caller could not assert that every
    /// bin is drained; the settlement engine would reject it, so it is
    /// surfaced here as a fatal validation error.
    PositionNotEmpty,
}

} // verus!
