//! Validation and addressing layer for liquidity positions in a bin-based
//! AMM: resolves bin-array storage shards, admits or rejects weighted
//! deposit distributions and partial-withdrawal tables, gates the four
//! lifecycle operations (fund, remove-selective, remove-all, close), and
//! packages validated parameters into settlement requests for the external
//! settlement engine. All authoritative liquidity state lives in that
//! engine; this layer is stateless and only validates what the caller
//! supplies.

pub mod errors;
pub mod invoker;
pub mod keys;
pub mod lifecycle;
pub mod position;
pub mod reduction;
pub mod resolver;
pub mod weights;
