use bin_liquidity::errors::LiquidityError;
use bin_liquidity::invoker::{
    build_close_request, build_fund_request, build_remove_all_request,
    build_remove_selective_request, CloseAccounts, FundAccounts, SettlementRequest,
    WithdrawAccounts,
};
use bin_liquidity::keys::{AccountKey, BinArrayRef, SettlementConfig};
use bin_liquidity::lifecycle::{advance, LifecycleState, Operation};
use bin_liquidity::position::{Pool, Position, Side};
use bin_liquidity::reduction::{validate_selective, BinReduction};
use bin_liquidity::weights::{normalize, BinWeight};

fn key(n: u128) -> AccountKey {
    AccountKey { hi: 0, lo: n }
}

fn config() -> SettlementConfig {
    SettlementConfig { program_id: key(90), event_authority: key(91) }
}

fn pool() -> Pool {
    Pool {
        identity: key(3),
        active_id: 110,
        reserve_x: key(10),
        reserve_y: key(11),
        token_x_mint: key(12),
        token_y_mint: key(13),
        bitmap_extension: key(14),
    }
}

fn position() -> Position {
    Position {
        address: key(1),
        owner: key(2),
        lb_pair: key(3),
        lower_bin_id: 100,
        upper_bin_id: 139,
    }
}

fn fund_accounts() -> FundAccounts {
    FundAccounts {
        position: key(1),
        lb_pair: key(3),
        bin_array_bitmap_extension: None,
        user_token: key(20),
        reserve: key(10),
        token_mint: key(12),
        bin_array_lower: BinArrayRef { pool: key(3), index: 1 },
        bin_array_upper: BinArrayRef { pool: key(3), index: 1 },
        sender: key(2),
        token_program: key(21),
    }
}

fn withdraw_accounts() -> WithdrawAccounts {
    WithdrawAccounts {
        position: key(1),
        lb_pair: key(3),
        bin_array_bitmap_extension: None,
        user_token_x: key(22),
        user_token_y: key(23),
        reserve_x: key(10),
        reserve_y: key(11),
        token_x_mint: key(12),
        token_y_mint: key(13),
        bin_array_lower: BinArrayRef { pool: key(3), index: 1 },
        bin_array_upper: BinArrayRef { pool: key(3), index: 1 },
        sender: key(2),
        token_x_program: key(21),
        token_y_program: key(21),
    }
}

fn close_accounts() -> CloseAccounts {
    CloseAccounts {
        position: key(1),
        lb_pair: key(3),
        bin_array_lower: BinArrayRef { pool: key(3), index: 1 },
        bin_array_upper: BinArrayRef { pool: key(3), index: 1 },
        sender: key(2),
        rent_receiver: key(24),
    }
}

#[test]
fn funding_keeps_the_position_open() {
    assert_eq!(
        advance(LifecycleState::Open, Operation::Fund),
        Some(LifecycleState::Open)
    );
}

#[test]
fn partial_withdrawal_keeps_the_position_open() {
    assert_eq!(
        advance(LifecycleState::Open, Operation::RemoveSelective { drains_all: false }),
        Some(LifecycleState::Open)
    );
}

#[test]
fn asserted_full_drain_empties_the_position() {
    assert_eq!(
        advance(LifecycleState::Open, Operation::RemoveSelective { drains_all: true }),
        Some(LifecycleState::Empty)
    );
}

#[test]
fn remove_all_empties_an_open_position() {
    assert_eq!(
        advance(LifecycleState::Open, Operation::RemoveAll),
        Some(LifecycleState::Empty)
    );
}

#[test]
fn remove_all_validates_identically_on_an_empty_position() {
    assert_eq!(
        advance(LifecycleState::Empty, Operation::RemoveAll),
        advance(LifecycleState::Open, Operation::RemoveAll)
    );
}

#[test]
fn close_is_legal_only_once_empty() {
    assert_eq!(
        advance(LifecycleState::Empty, Operation::Close),
        Some(LifecycleState::Closed)
    );
    assert_eq!(advance(LifecycleState::Open, Operation::Close), None);
}

#[test]
fn closed_is_terminal() {
    for op in [
        Operation::Fund,
        Operation::RemoveSelective { drains_all: false },
        Operation::RemoveSelective { drains_all: true },
        Operation::RemoveAll,
        Operation::Close,
    ] {
        assert_eq!(advance(LifecycleState::Closed, op), None);
    }
}

#[test]
fn draining_blocks_every_operation() {
    for op in [
        Operation::Fund,
        Operation::RemoveSelective { drains_all: false },
        Operation::RemoveAll,
        Operation::Close,
    ] {
        assert_eq!(advance(LifecycleState::Draining, op), None);
    }
}

#[test]
fn fund_request_carries_the_validated_plan() {
    let p = position();
    let deposit = normalize(
        &p,
        Side::X,
        1_000,
        110,
        5,
        vec![BinWeight { bin_id: 120, weight: 1 }],
    )
    .unwrap();
    let r = build_fund_request(config(), &p, &pool(), deposit, fund_accounts());
    match r.expect("all identities match") {
        SettlementRequest::Fund { config: c, accounts, side, amount, active_id, max_active_bin_slippage, distribution } => {
            assert_eq!(c, config());
            assert_eq!(accounts, fund_accounts());
            assert_eq!(side, Side::X);
            assert_eq!(amount, 1_000);
            assert_eq!(active_id, 110);
            assert_eq!(max_active_bin_slippage, 5);
            assert_eq!(distribution, vec![BinWeight { bin_id: 120, weight: 1 }]);
        }
        other => panic!("wrong request variant: {:?}", other),
    }
}

#[test]
fn fund_request_rejects_wrong_reserve() {
    let p = position();
    let deposit = normalize(
        &p,
        Side::X,
        1_000,
        110,
        5,
        vec![BinWeight { bin_id: 120, weight: 1 }],
    )
    .unwrap();
    let mut accounts = fund_accounts();
    // Token X deposit pointed at the token Y reserve vault.
    accounts.reserve = key(11);
    let r = build_fund_request(config(), &p, &pool(), deposit, accounts);
    assert_eq!(r.unwrap_err(), LiquidityError::PositionIdentityMismatch);
}

#[test]
fn fund_request_rejects_wrong_shard_index() {
    let p = position();
    let deposit = normalize(
        &p,
        Side::X,
        1_000,
        110,
        5,
        vec![BinWeight { bin_id: 120, weight: 1 }],
    )
    .unwrap();
    let mut accounts = fund_accounts();
    accounts.bin_array_upper = BinArrayRef { pool: key(3), index: 2 };
    let r = build_fund_request(config(), &p, &pool(), deposit, accounts);
    assert_eq!(r.unwrap_err(), LiquidityError::PositionIdentityMismatch);
}

#[test]
fn fund_request_requires_bitmap_extension_for_extreme_bins() {
    let p = Position {
        address: key(1),
        owner: key(2),
        lb_pair: key(3),
        lower_bin_id: 500,
        upper_bin_id: 539,
    };
    let deposit = normalize(
        &p,
        Side::X,
        1_000,
        110,
        5,
        vec![BinWeight { bin_id: 520, weight: 1 }],
    )
    .unwrap();
    let mut accounts = fund_accounts();
    accounts.bin_array_lower = BinArrayRef { pool: key(3), index: 7 };
    accounts.bin_array_upper = BinArrayRef { pool: key(3), index: 7 };
    let missing = build_fund_request(config(), &p, &pool(), deposit.clone(), accounts);
    assert_eq!(missing.unwrap_err(), LiquidityError::PositionIdentityMismatch);
    accounts.bin_array_bitmap_extension = Some(key(14));
    let supplied = build_fund_request(config(), &p, &pool(), deposit, accounts);
    assert!(supplied.is_ok());
}

#[test]
fn remove_selective_request_carries_the_table() {
    let p = position();
    let reduction = validate_selective(
        &p,
        vec![BinReduction { bin_id: 105, bps_to_remove: 10_000 }],
    )
    .unwrap();
    let r = build_remove_selective_request(config(), &p, &pool(), reduction, withdraw_accounts());
    match r.expect("all identities match") {
        SettlementRequest::RemoveSelective { table, .. } => {
            assert_eq!(table, vec![BinReduction { bin_id: 105, bps_to_remove: 10_000 }]);
        }
        other => panic!("wrong request variant: {:?}", other),
    }
}

#[test]
fn remove_all_request_needs_no_table() {
    let r = build_remove_all_request(config(), &position(), &pool(), withdraw_accounts());
    assert!(matches!(r, Ok(SettlementRequest::RemoveAll { .. })));
}

#[test]
fn remove_all_request_rejects_foreign_pool() {
    let mut accounts = withdraw_accounts();
    accounts.lb_pair = key(99);
    let r = build_remove_all_request(config(), &position(), &pool(), accounts);
    assert_eq!(r.unwrap_err(), LiquidityError::PositionIdentityMismatch);
}

#[test]
fn remove_all_request_rejects_wrong_signer() {
    let mut accounts = withdraw_accounts();
    accounts.sender = key(77);
    let r = build_remove_all_request(config(), &position(), &pool(), accounts);
    assert_eq!(r.unwrap_err(), LiquidityError::PositionIdentityMismatch);
}

#[test]
fn close_request_succeeds_once_empty() {
    let r = build_close_request(
        config(),
        &position(),
        &pool(),
        close_accounts(),
        LifecycleState::Empty,
    );
    assert!(matches!(r, Ok(SettlementRequest::Close { .. })));
}

#[test]
fn close_request_rejects_undrained_position() {
    let r = build_close_request(
        config(),
        &position(),
        &pool(),
        close_accounts(),
        LifecycleState::Open,
    );
    assert_eq!(r.unwrap_err(), LiquidityError::PositionNotEmpty);
}

#[test]
fn close_request_rejects_identity_mismatch_in_any_state() {
    let mut accounts = close_accounts();
    accounts.bin_array_lower = BinArrayRef { pool: key(99), index: 1 };
    for state in [LifecycleState::Open, LifecycleState::Empty, LifecycleState::Draining] {
        let r = build_close_request(config(), &position(), &pool(), accounts, state);
        assert_eq!(r.unwrap_err(), LiquidityError::PositionIdentityMismatch);
    }
}
