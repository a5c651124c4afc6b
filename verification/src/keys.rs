use vstd::prelude::*;

verus! {

/// Identity of one storage account of the settlement engine: the 32 bytes
/// of its address, carried as two 128-bit halves so that identity
/// cross-checks are plain integer comparisons.
#[derive(Clone, Copy, Debug, PartialEq, Eq, Structural)]
pub struct AccountKey {
    pub hi: u128,
    pub lo: u128,
}

/// A caller-supplied reference to one bin-array storage shard: the pool it
/// was derived for and the shard index it claims to denote. The address of
/// such a shard is derived from exactly this pair, so validating the pair
/// validates the addressing.
#[derive(Clone, Copy, Debug, PartialEq, Eq, Structural)]
pub struct BinArrayRef {
    pub pool: AccountKey,
    pub index: i32,
}

/// Fixed identities of the external settlement engine, resolved once at
/// startup and never mutated: the engine's program identity and the
/// event-notification channel derived from its well-known seed.
#[derive(Clone, Copy, Debug, PartialEq, Eq, Structural)]
pub struct SettlementConfig {
    pub program_id: AccountKey,
    pub event_authority: AccountKey,
}

} // verus!
