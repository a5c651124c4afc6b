use vstd::arithmetic::div_mod::{lemma_div_is_ordered, lemma_fundamental_div_mod, lemma_mod_bound};
use vstd::prelude::*;

verus! {

/// Number of consecutive bins held by one bin-array storage shard.
pub const BINS_PER_ARRAY: i32 = 70;

/// Index of the storage shard that contains `bin_id`: the floor of
/// `bin_id / 70`, rounding toward negative infinity for negative bins.
/// (In spec arithmetic `/` is Euclidean division, which coincides with
/// floor division for the positive divisor 70.)
pub open spec fn shard_of(bin_id: int) -> int {
    bin_id / (BINS_PER_ARRAY as int)
}

/// The shard index is the mathematical floor of `bin_id / 70`: it is the
/// unique integer whose 70-bin window contains `bin_id`.
pub proof fn lemma_shard_is_floor(bin_id: int)
    ensures
        70 * shard_of(bin_id) <= bin_id < 70 * (shard_of(bin_id) + 1),
{
    lemma_fundamental_div_mod(bin_id, 70);
    lemma_mod_bound(bin_id, 70);
}

/// Only one shard index places its window over `bin_id`.
pub proof fn lemma_shard_unique(bin_id: int, s: int)
    requires
        70 * s <= bin_id < 70 * (s + 1),
    ensures
        s == shard_of(bin_id),
{
    lemma_shard_is_floor(bin_id);
    if s < shard_of(bin_id) {
        assert(70 * (s + 1) <= 70 * shard_of(bin_id)) by (nonlinear_arith)
            requires s + 1 <= shard_of(bin_id);
    }
    if s > shard_of(bin_id) {
        assert(70 * (shard_of(bin_id) + 1) <= 70 * s) by (nonlinear_arith)
            requires shard_of(bin_id) + 1 <= s;
    }
}

/// Every bin of a position's range lives in a shard no lower than the one
/// resolved for `lower_bin_id` and no higher than the one resolved for
/// `upper_bin_id`: the two shard roles bracket all addressing the range
/// can need.
pub proof fn lemma_range_shard_bounds(lower_bin_id: int, bin_id: int, upper_bin_id: int)
    requires
        lower_bin_id <= bin_id <= upper_bin_id,
    ensures
        shard_of(lower_bin_id) <= shard_of(bin_id) <= shard_of(upper_bin_id),
{
    lemma_div_is_ordered(lower_bin_id, bin_id, 70);
    lemma_div_is_ordered(bin_id, upper_bin_id, 70);
}

/// Storage shard that must contain `bin_id`.
pub fn resolve(bin_id: i32) -> (shard: i32)
    ensures
        shard == shard_of(bin_id as int),
        70 * shard <= (bin_id as int) < 70 * (shard + 1),
{
    proof {
        lemma_shard_is_floor(bin_id as int);
        assert(i32::MIN <= shard_of(bin_id as int) <= i32::MAX) by (nonlinear_arith)
            requires
                70 * shard_of(bin_id as int) <= (bin_id as int) < 70 * (shard_of(bin_id as int) + 1),
                i32::MIN <= (bin_id as int) <= i32::MAX;
    }
    let shard = bin_id.checked_div_euclid(BINS_PER_ARRAY);
    shard.unwrap()
}

/// Shards for the two roles a position's range requires: the one holding
/// `lower_bin_id` and the one holding `upper_bin_id`. A narrow position
/// may get the same index for both roles; the caller must still supply
/// two storage references, both denoting that shard.
pub fn resolve_range(lower_bin_id: i32, upper_bin_id: i32) -> (shards: (i32, i32))
    requires
        lower_bin_id <= upper_bin_id,
    ensures
        shards.0 == shard_of(lower_bin_id as int),
        shards.1 == shard_of(upper_bin_id as int),
        shards.0 <= shards.1,
{
    proof {
        lemma_div_is_ordered(lower_bin_id as int, upper_bin_id as int, 70);
    }
    (resolve(lower_bin_id), resolve(upper_bin_id))
}

} // verus!
