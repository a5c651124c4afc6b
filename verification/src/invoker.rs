use crate::errors::LiquidityError;
use crate::keys::{AccountKey, BinArrayRef, SettlementConfig};
use crate::lifecycle::LifecycleState;
use crate::position::{Pool, Position, Side};
use crate::reduction::{BinReduction, ValidatedReduction};
use crate::resolver::shard_of;
use crate::weights::{BinWeight, ValidatedDeposit};
use vstd::prelude::*;

verus! {

/// Half-width of the pool's inline bin bitmap: bins beyond it need the
/// bitmap extension account.
pub const INLINE_BITMAP_RANGE: i32 = 512;

/// Whether the position's range reaches bins beyond the inline bitmap, so
/// that the settlement engine must be handed the bitmap extension account.
pub open spec fn needs_bitmap_extension(p: Position) -> bool {
    p.lower_bin_id < -INLINE_BITMAP_RANGE || p.upper_bin_id > INLINE_BITMAP_RANGE
}

/// A supplied optional bitmap-extension account is acceptable when it is
/// the pool's own extension account; it may be omitted only where the
/// position's range stays within the inline bitmap.
pub open spec fn extension_ok(ext: Option<AccountKey>, pool: Pool, p: Position) -> bool {
    match ext {
        Some(k) => k == pool.bitmap_extension,
        None => !needs_bitmap_extension(p),
    }
}

/// A supplied bin-array reference denotes the right shard when it was
/// derived for this pool and claims the shard index that contains
/// `bin_id`.
pub open spec fn shard_ref_ok(r: BinArrayRef, pool: Pool, bin_id: int) -> bool {
    r.pool == pool.identity && r.index == shard_of(bin_id)
}

/// Cross-references every operation must satisfy: the supplied position
/// and pool accounts are the ones the data was read from, the position
/// belongs to the pool, and the signer owns the position.
pub open spec fn base_identities_ok(
    p: Position,
    pool: Pool,
    position_acct: AccountKey,
    lb_pair_acct: AccountKey,
    sender: AccountKey,
) -> bool {
    &&& position_acct == p.address
    &&& lb_pair_acct == pool.identity
    &&& p.lb_pair == pool.identity
    &&& sender == p.owner
}

/// Accounts accompanying a single-sided deposit.
#[derive(Clone, Copy, Debug, PartialEq, Eq, Structural)]
pub struct FundAccounts {
    pub position: AccountKey,
    pub lb_pair: AccountKey,
    pub bin_array_bitmap_extension: Option<AccountKey>,
    /// Source of the deposited token; drained into `reserve`.
    pub user_token: AccountKey,
    /// The pool's reserve vault for the deposited token.
    pub reserve: AccountKey,
    /// Mint of the deposited token.
    pub token_mint: AccountKey,
    pub bin_array_lower: BinArrayRef,
    pub bin_array_upper: BinArrayRef,
    pub sender: AccountKey,
    pub token_program: AccountKey,
}

/// Accounts accompanying a withdrawal, selective or all-bins.
#[derive(Clone, Copy, Debug, PartialEq, Eq, Structural)]
pub struct WithdrawAccounts {
    pub position: AccountKey,
    pub lb_pair: AccountKey,
    pub bin_array_bitmap_extension: Option<AccountKey>,
    pub user_token_x: AccountKey,
    pub user_token_y: AccountKey,
    pub reserve_x: AccountKey,
    pub reserve_y: AccountKey,
    pub token_x_mint: AccountKey,
    pub token_y_mint: AccountKey,
    pub bin_array_lower: BinArrayRef,
    pub bin_array_upper: BinArrayRef,
    pub sender: AccountKey,
    pub token_x_program: AccountKey,
    pub token_y_program: AccountKey,
}

/// Accounts accompanying a close.
#[derive(Clone, Copy, Debug, PartialEq, Eq, Structural)]
pub struct CloseAccounts {
    pub position: AccountKey,
    pub lb_pair: AccountKey,
    pub bin_array_lower: BinArrayRef,
    pub bin_array_upper: BinArrayRef,
    pub sender: AccountKey,
    /// Receives the storage cost reclaimed by destroying the position.
    pub rent_receiver: AccountKey,
}

/// Identity cross-checks for a single-sided deposit: the base
/// cross-references, both shard references, the bitmap extension, and the
/// reserve and mint of the deposited token's side.
pub open spec fn fund_identities_ok(p: Position, pool: Pool, side: Side, a: FundAccounts) -> bool {
    &&& base_identities_ok(p, pool, a.position, a.lb_pair, a.sender)
    &&& shard_ref_ok(a.bin_array_lower, pool, p.lower_bin_id as int)
    &&& shard_ref_ok(a.bin_array_upper, pool, p.upper_bin_id as int)
    &&& extension_ok(a.bin_array_bitmap_extension, pool, p)
    &&& match side {
        Side::X => a.reserve == pool.reserve_x && a.token_mint == pool.token_x_mint,
        Side::Y => a.reserve == pool.reserve_y && a.token_mint == pool.token_y_mint,
    }
}

/// Identity cross-checks for a withdrawal: the base cross-references, both
/// shard references, the bitmap extension, and both sides' reserves and
/// mints.
pub open spec fn withdraw_identities_ok(p: Position, pool: Pool, a: WithdrawAccounts) -> bool {
    &&& base_identities_ok(p, pool, a.position, a.lb_pair, a.sender)
    &&& shard_ref_ok(a.bin_array_lower, pool, p.lower_bin_id as int)
    &&& shard_ref_ok(a.bin_array_upper, pool, p.upper_bin_id as int)
    &&& extension_ok(a.bin_array_bitmap_extension, pool, p)
    &&& a.reserve_x == pool.reserve_x
    &&& a.reserve_y == pool.reserve_y
    &&& a.token_x_mint == pool.token_x_mint
    &&& a.token_y_mint == pool.token_y_mint
}

/// Identity cross-checks for a close: the base cross-references and both
/// shard references.
pub open spec fn close_identities_ok(p: Position, pool: Pool, a: CloseAccounts) -> bool {
    &&& base_identities_ok(p, pool, a.position, a.lb_pair, a.sender)
    &&& shard_ref_ok(a.bin_array_lower, pool, p.lower_bin_id as int)
    &&& shard_ref_ok(a.bin_array_upper, pool, p.upper_bin_id as int)
}

/// A fully validated operation, packaged for one atomic hand-off to the
/// settlement engine: either the whole operation lands or none of it does.
#[derive(Clone, Debug)]
pub enum SettlementRequest {
    Fund {
        config: SettlementConfig,
        accounts: FundAccounts,
        side: Side,
        amount: u64,
        active_id: i32,
        max_active_bin_slippage: i32,
        distribution: Vec<BinWeight>,
    },
    RemoveSelective { config: SettlementConfig, accounts: WithdrawAccounts, table: Vec<BinReduction> },
    RemoveAll { config: SettlementConfig, accounts: WithdrawAccounts },
    Close { config: SettlementConfig, accounts: CloseAccounts },
}

/// Verdict of close validation: identity cross-checks come first, so that
/// a mismatched close is rejected whatever the liquidity state, and only
/// then is the caller's lifecycle assertion gated — the engine itself
/// rejects a close of a non-drained position, and this layer surfaces that
/// precondition as fatal instead of retrying.
pub open spec fn close_verdict(
    p: Position,
    pool: Pool,
    a: CloseAccounts,
    state: LifecycleState,
) -> Result<(), LiquidityError> {
    if !close_identities_ok(p, pool, a) {
        Err(LiquidityError::PositionIdentityMismatch)
    } else if !(state is Empty) {
        Err(LiquidityError::PositionNotEmpty)
    } else {
        Ok(())
    }
}

/// Close validation rejects an identity mismatch no matter which lifecycle
/// state the caller asserts: the cross-check does not depend on liquidity
/// state.
pub proof fn lemma_close_rejects_mismatch(
    p: Position,
    pool: Pool,
    a: CloseAccounts,
    s1: LifecycleState,
    s2: LifecycleState,
)
    requires
        !close_identities_ok(p, pool, a),
    ensures
        close_verdict(p, pool, a, s1) == Err::<(), LiquidityError>(
            LiquidityError::PositionIdentityMismatch,
        ),
        close_verdict(p, pool, a, s1) == close_verdict(p, pool, a, s2),
{
}

fn check_base_identities(p: &Position, pool: &Pool, position_acct: AccountKey, lb_pair_acct: AccountKey, sender: AccountKey) -> (ok: bool)
    ensures
        ok == base_identities_ok(*p, *pool, position_acct, lb_pair_acct, sender),
{
    position_acct == p.address && lb_pair_acct == pool.identity && p.lb_pair == pool.identity
        && sender == p.owner
}

fn check_shard_ref(r: BinArrayRef, pool: &Pool, bin_id: i32) -> (ok: bool)
    ensures
        ok == shard_ref_ok(r, *pool, bin_id as int),
{
    r.pool == pool.identity && r.index == crate::resolver::resolve(bin_id)
}

fn check_extension(ext: Option<AccountKey>, pool: &Pool, p: &Position) -> (ok: bool)
    ensures
        ok == extension_ok(ext, *pool, *p),
{
    match ext {
        Some(k) => k == pool.bitmap_extension,
        None => !(p.lower_bin_id < -INLINE_BITMAP_RANGE || p.upper_bin_id > INLINE_BITMAP_RANGE),
    }
}

/// Package a validated single-sided deposit for hand-off. Succeeds exactly
/// when every identity cross-check holds; the request then carries the
/// deposit plan unchanged together with the supplied accounts and the
/// engine's fixed identities.
pub fn build_fund_request(
    config: SettlementConfig,
    p: &Position,
    pool: &Pool,
    deposit: ValidatedDeposit,
    accounts: FundAccounts,
) -> (r: Result<SettlementRequest, LiquidityError>)
    requires
        p.wf(),
        deposit.admissible_for(*p),
    ensures
        match r {
            Ok(req) => {
                &&& fund_identities_ok(*p, *pool, deposit.side, accounts)
                &&& req matches SettlementRequest::Fund {
                    config: c,
                    accounts: a,
                    side,
                    amount,
                    active_id,
                    max_active_bin_slippage,
                    distribution,
                } && c == config && a == accounts && side == deposit.side && amount
                    == deposit.amount && active_id == deposit.active_id && max_active_bin_slippage
                    == deposit.max_active_bin_slippage && distribution@ == deposit.distribution@
            },
            Err(e) => {
                &&& e == LiquidityError::PositionIdentityMismatch
                &&& !fund_identities_ok(*p, *pool, deposit.side, accounts)
            },
        },
{
    let base = check_base_identities(p, pool, accounts.position, accounts.lb_pair, accounts.sender);
    let lower = check_shard_ref(accounts.bin_array_lower, pool, p.lower_bin_id);
    let upper = check_shard_ref(accounts.bin_array_upper, pool, p.upper_bin_id);
    let ext = check_extension(accounts.bin_array_bitmap_extension, pool, p);
    let side_accounts = match deposit.side {
        Side::X => accounts.reserve == pool.reserve_x && accounts.token_mint == pool.token_x_mint,
        Side::Y => accounts.reserve == pool.reserve_y && accounts.token_mint == pool.token_y_mint,
    };
    if !(base && lower && upper && ext && side_accounts) {
        return Err(LiquidityError::PositionIdentityMismatch);
    }
    Ok(
        SettlementRequest::Fund {
            config,
            accounts,
            side: deposit.side,
            amount: deposit.amount,
            active_id: deposit.active_id,
            max_active_bin_slippage: deposit.max_active_bin_slippage,
            distribution: deposit.distribution,
        },
    )
}

fn check_withdraw_identities(p: &Position, pool: &Pool, a: &WithdrawAccounts) -> (ok: bool)
    ensures
        ok == withdraw_identities_ok(*p, *pool, *a),
{
    let base = check_base_identities(p, pool, a.position, a.lb_pair, a.sender);
    let lower = check_shard_ref(a.bin_array_lower, pool, p.lower_bin_id);
    let upper = check_shard_ref(a.bin_array_upper, pool, p.upper_bin_id);
    let ext = check_extension(a.bin_array_bitmap_extension, pool, p);
    base && lower && upper && ext && a.reserve_x == pool.reserve_x && a.reserve_y == pool.reserve_y
        && a.token_x_mint == pool.token_x_mint && a.token_y_mint == pool.token_y_mint
}

/// Package a validated selective withdrawal for hand-off. Succeeds exactly
/// when every identity cross-check holds; the request then carries the
/// validated table unchanged.
pub fn build_remove_selective_request(
    config: SettlementConfig,
    p: &Position,
    pool: &Pool,
    reduction: ValidatedReduction,
    accounts: WithdrawAccounts,
) -> (r: Result<SettlementRequest, LiquidityError>)
    requires
        p.wf(),
        reduction.admissible_for(*p),
    ensures
        match r {
            Ok(req) => {
                &&& withdraw_identities_ok(*p, *pool, accounts)
                &&& req matches SettlementRequest::RemoveSelective {
                    config: c,
                    accounts: a,
                    table,
                } && c == config && a == accounts && table@ == reduction.table@
            },
            Err(e) => {
                &&& e == LiquidityError::PositionIdentityMismatch
                &&& !withdraw_identities_ok(*p, *pool, accounts)
            },
        },
{
    if !check_withdraw_identities(p, pool, &accounts) {
        return Err(LiquidityError::PositionIdentityMismatch);
    }
    Ok(SettlementRequest::RemoveSelective { config, accounts, table: reduction.table })
}

/// Package an all-bins withdrawal for hand-off. The only validated inputs
/// are the identity cross-references: no bin-level table exists, and the
/// verdict is the same whether the position still holds liquidity or was
/// already drained, since this layer cannot observe liquidity.
pub fn build_remove_all_request(
    config: SettlementConfig,
    p: &Position,
    pool: &Pool,
    accounts: WithdrawAccounts,
) -> (r: Result<SettlementRequest, LiquidityError>)
    requires
        p.wf(),
    ensures
        match r {
            Ok(req) => {
                &&& withdraw_identities_ok(*p, *pool, accounts)
                &&& req matches SettlementRequest::RemoveAll { config: c, accounts: a } && c
                    == config && a == accounts
            },
            Err(e) => {
                &&& e == LiquidityError::PositionIdentityMismatch
                &&& !withdraw_identities_ok(*p, *pool, accounts)
            },
        },
{
    if !check_withdraw_identities(p, pool, &accounts) {
        return Err(LiquidityError::PositionIdentityMismatch);
    }
    Ok(SettlementRequest::RemoveAll { config, accounts })
}

/// Package a close for hand-off. Identity cross-checks are validated
/// first — a mismatch is rejected whatever lifecycle state the caller
/// asserts — and then the close is gated on the caller's assertion that
/// every bin is drained; `close_verdict` fixes the outcome exactly.
pub fn build_close_request(
    config: SettlementConfig,
    p: &Position,
    pool: &Pool,
    accounts: CloseAccounts,
    state: LifecycleState,
) -> (r: Result<SettlementRequest, LiquidityError>)
    requires
        p.wf(),
    ensures
        match r {
            Ok(req) => {
                &&& close_verdict(*p, *pool, accounts, state) is Ok
                &&& req matches SettlementRequest::Close { config: c, accounts: a } && c == config
                    && a == accounts
            },
            Err(e) => close_verdict(*p, *pool, accounts, state) == Err::<(), LiquidityError>(e),
        },
{
    let base = check_base_identities(p, pool, accounts.position, accounts.lb_pair, accounts.sender);
    let lower = check_shard_ref(accounts.bin_array_lower, pool, p.lower_bin_id);
    let upper = check_shard_ref(accounts.bin_array_upper, pool, p.upper_bin_id);
    if !(base && lower && upper) {
        return Err(LiquidityError::PositionIdentityMismatch);
    }
    match state {
        LifecycleState::Empty => Ok(SettlementRequest::Close { config, accounts }),
        _ => Err(LiquidityError::PositionNotEmpty),
    }
}

} // verus!
