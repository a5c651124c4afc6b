use crate::keys::AccountKey;
use vstd::prelude::*;

verus! {

/// Which token a single-sided deposit supplies.
#[derive(Clone, Copy, Debug, PartialEq, Eq, Structural)]
pub enum Side {
    X,
    Y,
}

/// A user's claim on a contiguous bin range within one pool, as read from
/// the settlement engine's position account. The per-bin liquidity amounts
/// are implicit state of the engine and are not observable here.
#[derive(Clone, Copy, Debug, PartialEq, Eq, Structural)]
pub struct Position {
    /// Address of the position account itself.
    pub address: AccountKey,
    /// Owner; must match the authorizing signer of every operation.
    pub owner: AccountKey,
    /// Pool this position belongs to; must match the supplied pool.
    pub lb_pair: AccountKey,
    /// Lowest bin of the claimed range (inclusive).
    pub lower_bin_id: i32,
    /// Highest bin of the claimed range (inclusive).
    pub upper_bin_id: i32,
}

impl Position {
    /// A position claims a non-empty, correctly ordered range.
    pub open spec fn wf(self) -> bool {
        self.lower_bin_id <= self.upper_bin_id
    }

    /// Whether `bin_id` lies inside the claimed range.
    pub open spec fn contains(self, bin_id: int) -> bool {
        self.lower_bin_id <= bin_id <= self.upper_bin_id
    }
}

/// Identity fields of the pool account, as read from the settlement
/// engine. Only identities are consumed here; pricing and fee state stay
/// with the engine.
#[derive(Clone, Copy, Debug, PartialEq, Eq, Structural)]
pub struct Pool {
    /// Address of the pool account.
    pub identity: AccountKey,
    /// Bin currently representing the pool's price.
    pub active_id: i32,
    /// Reserve vault holding the pool's token X.
    pub reserve_x: AccountKey,
    /// Reserve vault holding the pool's token Y.
    pub reserve_y: AccountKey,
    /// Mint of token X.
    pub token_x_mint: AccountKey,
    /// Mint of token Y.
    pub token_y_mint: AccountKey,
    /// The pool's bin-array bitmap extension account, consulted by the
    /// engine only for bins beyond the inline bitmap's range.
    pub bitmap_extension: AccountKey,
}

} // verus!
