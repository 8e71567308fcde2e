use cp_swap::deposit::{commit_deposit, deposit};
use cp_swap::error::ErrorCode;
use cp_swap::fees::TransferFeeConfig;
use cp_swap::initialize::{initialize, LOCK_LP_AMOUNT};
use cp_swap::states::{LpChangeEvent, PoolState, PoolStatusBitIndex};
use cp_swap::swap::{commit_swap, swap_base_input, swap_base_output, TradeDirection};
use cp_swap::withdraw::{commit_withdraw, withdraw};

fn open_pool(lp_supply: u64) -> PoolState {
    PoolState {
        auth_bump: 251,
        status: 0,
        lp_supply,
        open_time: 0,
        protocol_fees_token_0: 0,
        protocol_fees_token_1: 0,
        fund_fees_token_0: 0,
        fund_fees_token_1: 0,
        swap_in_amount_token_0: 0,
        swap_out_amount_token_1: 0,
        swap_in_amount_token_1: 0,
        swap_out_amount_token_0: 0,
    }
}

fn exempt() -> TransferFeeConfig {
    TransferFeeConfig::exempt()
}

#[test]
fn initialize_rejects_liquidity_at_or_below_lock() {
    // reserves of one each give liquidity 1 <= 100
    let r = initialize(true, true, false, 251, 1, 1, 0, 0);
    assert_eq!(r.unwrap_err(), ErrorCode::InitLpAmountTooLess);
    // liquidity exactly at the lock amount still fails
    let r = initialize(true, true, false, 251, 100, 100, 0, 0);
    assert_eq!(r.unwrap_err(), ErrorCode::InitLpAmountTooLess);
}

#[test]
fn initialize_rejects_bad_preconditions() {
    assert_eq!(
        initialize(false, true, false, 251, 10000, 40000, 0, 0).unwrap_err(),
        ErrorCode::NotSupportMint
    );
    assert_eq!(
        initialize(true, true, true, 251, 10000, 40000, 0, 0).unwrap_err(),
        ErrorCode::NotApproved
    );
    assert_eq!(
        initialize(true, true, false, 251, 0, 40000, 0, 0).unwrap_err(),
        ErrorCode::ZeroTradingTokens
    );
    assert_eq!(
        initialize(true, true, false, 251, 10000, 0, 0, 0).unwrap_err(),
        ErrorCode::ZeroTradingTokens
    );
}

#[test]
fn initialize_mints_sqrt_liquidity_and_opens_in_the_future() {
    let r = initialize(true, true, false, 251, 10000, 40000, 3, 5).unwrap();
    assert_eq!(r.liquidity, 20000);
    assert_eq!(r.creator_lp_amount, 20000 - LOCK_LP_AMOUNT);
    // a stale open time is pushed strictly past the block time
    assert_eq!(r.open_time, 6);
    assert_eq!(r.pool_state.lp_supply, 20000);
    assert_eq!(r.pool_state.status, 0);
    assert_eq!(r.pool_state.auth_bump, 251);
    assert_eq!(r.pool_state.open_time, 6);
    // a future open time is kept as given
    let r = initialize(true, true, false, 251, 10000, 40000, 50, 5).unwrap();
    assert_eq!(r.open_time, 50);
}

#[test]
fn deposit_charges_exact_proportional_shares() {
    let mut pool = open_pool(1000);
    let d = deposit(&pool, 10000, 20000, exempt(), exempt(), 50, 500, 1000).unwrap();
    assert_eq!(d.token_0_amount, 500);
    assert_eq!(d.token_1_amount, 1000);
    assert_eq!(d.transfer_token_0_amount, 500);
    assert_eq!(d.transfer_token_1_amount, 1000);
    assert_eq!(d.transfer_token_0_fee, 0);
    assert_eq!(d.transfer_token_1_fee, 0);
    assert_eq!(
        d.event,
        LpChangeEvent {
            lp_amount_before: 1000,
            token_0_vault_before: 10000,
            token_1_vault_before: 20000,
            token_0_amount: 500,
            token_1_amount: 1000,
            token_0_transfer_fee: 0,
            token_1_transfer_fee: 0,
            change_type: 0,
        }
    );
    assert_eq!(commit_deposit(&mut pool, 50), Ok(()));
    assert_eq!(pool.lp_supply, 1050);
}

#[test]
fn deposit_grosses_up_for_transfer_fees() {
    let pool = open_pool(1000);
    let fee_cfg = TransferFeeConfig {
        transfer_fee_basis_points: 100,
        maximum_fee: 5000,
    };
    let d = deposit(&pool, 10000, 20000, fee_cfg, exempt(), 50, 1000, 1000).unwrap();
    // ceil(500 * 10000 / 9900) = 506 gross for a 500 net
    assert_eq!(d.token_0_amount, 500);
    assert_eq!(d.transfer_token_0_fee, 6);
    assert_eq!(d.transfer_token_0_amount, 506);
}

#[test]
fn deposit_slippage_gate_leaves_supply_unchanged() {
    let mut pool = open_pool(1000);
    let r = deposit(&pool, 10000, 20000, exempt(), exempt(), 50, 499, 1000);
    assert_eq!(r.unwrap_err(), ErrorCode::ExceededSlippage);
    assert_eq!(pool.lp_supply, 1000);
    // the other side gates too
    let r = deposit(&mut pool, 10000, 20000, exempt(), exempt(), 50, 500, 999);
    assert_eq!(r.unwrap_err(), ErrorCode::ExceededSlippage);
    assert_eq!(pool.lp_supply, 1000);
}

#[test]
fn deposit_rejections() {
    let mut disabled = open_pool(1000);
    disabled.status = 1;
    assert_eq!(
        deposit(&disabled, 10000, 20000, exempt(), exempt(), 50, 500, 1000).unwrap_err(),
        ErrorCode::NotApproved
    );
    let empty = open_pool(0);
    assert_eq!(
        deposit(&empty, 10000, 20000, exempt(), exempt(), 50, 500, 1000).unwrap_err(),
        ErrorCode::ZeroTradingTokens
    );
    let pool = open_pool(1000);
    assert_eq!(
        deposit(&pool, 10000, 20000, exempt(), exempt(), 0, 500, 1000).unwrap_err(),
        ErrorCode::ZeroTradingTokens
    );
    // a share beyond u64 is a checked-math failure
    let tiny = open_pool(1);
    assert_eq!(
        deposit(&tiny, u64::MAX, u64::MAX, exempt(), exempt(), 2, u64::MAX, u64::MAX)
            .unwrap_err(),
        ErrorCode::ArithmeticOverflow
    );
}

#[test]
fn commit_deposit_overflow_leaves_pool_unchanged() {
    let mut pool = open_pool(u64::MAX - 10);
    assert_eq!(
        commit_deposit(&mut pool, 11),
        Err(ErrorCode::ArithmeticOverflow)
    );
    assert_eq!(pool.lp_supply, u64::MAX - 10);
    assert_eq!(commit_deposit(&mut pool, 10), Ok(()));
    assert_eq!(pool.lp_supply, u64::MAX);
}

#[test]
fn withdraw_grants_exact_proportional_shares() {
    let mut pool = open_pool(1000);
    let w = withdraw(&pool, 10000, 20000, exempt(), exempt(), 50, 500, 1000).unwrap();
    assert_eq!(w.token_0_amount, 500);
    assert_eq!(w.token_1_amount, 1000);
    assert_eq!(w.receive_token_0_amount, 500);
    assert_eq!(w.receive_token_1_amount, 1000);
    assert_eq!(w.event.change_type, 1);
    assert_eq!(commit_withdraw(&mut pool, 50), Ok(()));
    assert_eq!(pool.lp_supply, 950);
}

#[test]
fn withdraw_floor_and_outbound_fee() {
    let pool = open_pool(1000);
    let fee_cfg = TransferFeeConfig {
        transfer_fee_basis_points: 100,
        maximum_fee: 5000,
    };
    // floor(7 * 10001 / 1000) = 70 gross, 1% fee withheld on the way out
    let w = withdraw(&pool, 10001, 20003, fee_cfg, exempt(), 7, 0, 0).unwrap();
    assert_eq!(w.token_0_amount, 70);
    assert_eq!(w.transfer_token_0_fee, 0);
    assert_eq!(w.receive_token_0_amount, 70);
    let w = withdraw(&pool, 100001, 20003, fee_cfg, exempt(), 7, 0, 0).unwrap();
    assert_eq!(w.token_0_amount, 700);
    assert_eq!(w.transfer_token_0_fee, 7);
    assert_eq!(w.receive_token_0_amount, 693);
}

#[test]
fn withdraw_slippage_gate_and_burn_guard() {
    let mut pool = open_pool(1000);
    let r = withdraw(&pool, 10000, 20000, exempt(), exempt(), 50, 501, 1000);
    assert_eq!(r.unwrap_err(), ErrorCode::ExceededSlippage);
    // burning more than the supply is refused and mutates nothing
    assert_eq!(
        commit_withdraw(&mut pool, 1001),
        Err(ErrorCode::ArithmeticOverflow)
    );
    assert_eq!(pool.lp_supply, 1000);
}

#[test]
fn round_trip_returns_no_more_than_deposited() {
    let mut pool = open_pool(1000);
    let d = deposit(&pool, 10000, 20000, exempt(), exempt(), 50, u64::MAX, u64::MAX).unwrap();
    commit_deposit(&mut pool, 50).unwrap();
    let w = withdraw(
        &pool,
        10000 + d.token_0_amount,
        20000 + d.token_1_amount,
        exempt(),
        exempt(),
        50,
        0,
        0,
    )
    .unwrap();
    assert!(w.token_0_amount <= d.token_0_amount);
    assert!(w.token_1_amount <= d.token_1_amount);
}

#[test]
fn swap_base_input_flow_moves_exact_amounts() {
    let mut pool = open_pool(20000);
    let s = swap_base_input(
        &pool,
        1,
        10000,
        20000,
        TradeDirection::ZeroForOne,
        1000,
        1818,
        exempt(),
        exempt(),
        0,
    )
    .unwrap();
    assert_eq!(s.input_transfer_fee, 0);
    assert_eq!(s.actual_amount_in, 1000);
    assert_eq!(s.trade_fee, 0);
    assert_eq!(s.amount_out, 1818);
    assert_eq!(s.amount_received, 1818);
    // the constant product never decreases
    assert!((10000u128 + 1000) * (20000u128 - 1818) >= 10000u128 * 20000u128);
    assert_eq!(
        commit_swap(&mut pool, TradeDirection::ZeroForOne, s.actual_amount_in, s.amount_out),
        Ok(())
    );
    assert_eq!(pool.swap_in_amount_token_0, 1000);
    assert_eq!(pool.swap_out_amount_token_1, 1818);
}

#[test]
fn swap_base_input_flow_gates() {
    let mut pool = open_pool(20000);
    pool.status = 4;
    assert_eq!(
        swap_base_input(
            &pool,
            1,
            10000,
            20000,
            TradeDirection::ZeroForOne,
            1000,
            0,
            exempt(),
            exempt(),
            0,
        )
        .unwrap_err(),
        ErrorCode::NotApproved
    );
    let mut unopened = open_pool(20000);
    unopened.open_time = 10;
    assert_eq!(
        swap_base_input(
            &unopened,
            9,
            10000,
            20000,
            TradeDirection::ZeroForOne,
            1000,
            0,
            exempt(),
            exempt(),
            0,
        )
        .unwrap_err(),
        ErrorCode::NotApproved
    );
    let pool = open_pool(20000);
    assert_eq!(
        swap_base_input(
            &pool,
            1,
            10000,
            20000,
            TradeDirection::ZeroForOne,
            1000,
            1819,
            exempt(),
            exempt(),
            0,
        )
        .unwrap_err(),
        ErrorCode::ExceededSlippage
    );
    assert_eq!(
        swap_base_input(
            &pool,
            1,
            10000,
            20000,
            TradeDirection::ZeroForOne,
            0,
            0,
            exempt(),
            exempt(),
            0,
        )
        .unwrap_err(),
        ErrorCode::ZeroTradingTokens
    );
}

#[test]
fn swap_base_output_flow_sizes_the_input() {
    let mut pool = open_pool(20000);
    let s = swap_base_output(
        &pool,
        1,
        10000,
        20000,
        TradeDirection::ZeroForOne,
        527,
        1000,
        exempt(),
        exempt(),
        0,
    )
    .unwrap();
    assert_eq!(s.actual_amount_out, 1000);
    // ceil(10000 * 1000 / 19000) = 527
    assert_eq!(s.source_amount, 527);
    assert_eq!(s.trade_fee, 0);
    assert_eq!(s.transfer_amount_in, 527);
    assert_eq!(
        commit_swap(&mut pool, TradeDirection::ZeroForOne, s.source_amount, s.actual_amount_out),
        Ok(())
    );
    assert_eq!(pool.swap_in_amount_token_0, 527);
    assert_eq!(pool.swap_out_amount_token_1, 1000);
}

#[test]
fn swap_base_output_flow_gates() {
    let pool = open_pool(20000);
    assert_eq!(
        swap_base_output(
            &pool,
            1,
            10000,
            20000,
            TradeDirection::ZeroForOne,
            526,
            1000,
            exempt(),
            exempt(),
            0,
        )
        .unwrap_err(),
        ErrorCode::ExceededSlippage
    );
    // asking for the whole reserve is a checked-math failure
    assert_eq!(
        swap_base_output(
            &pool,
            1,
            10000,
            20000,
            TradeDirection::ZeroForOne,
            u64::MAX,
            20000,
            exempt(),
            exempt(),
            0,
        )
        .unwrap_err(),
        ErrorCode::ArithmeticOverflow
    );
    assert_eq!(
        swap_base_output(
            &pool,
            1,
            10000,
            20000,
            TradeDirection::ZeroForOne,
            u64::MAX,
            0,
            exempt(),
            exempt(),
            0,
        )
        .unwrap_err(),
        ErrorCode::ZeroTradingTokens
    );
}

#[test]
fn status_bits_gate_independently() {
    let mut pool = open_pool(1000);
    pool.status = 2;
    assert!(pool.get_status_by_bit(PoolStatusBitIndex::Deposit));
    assert!(!pool.get_status_by_bit(PoolStatusBitIndex::Withdraw));
    assert!(pool.get_status_by_bit(PoolStatusBitIndex::SwapBaseIn));
    assert!(pool.get_status_by_bit(PoolStatusBitIndex::SwapBaseOut));
    assert_eq!(
        withdraw(&pool, 10000, 20000, exempt(), exempt(), 50, 0, 0).unwrap_err(),
        ErrorCode::NotApproved
    );
    assert!(deposit(&pool, 10000, 20000, exempt(), exempt(), 50, 500, 1000).is_ok());
}

#[test]
fn vault_amount_without_fee_excludes_withheld_fees() {
    let mut pool = open_pool(1000);
    pool.protocol_fees_token_0 = 30;
    pool.fund_fees_token_0 = 20;
    pool.protocol_fees_token_1 = 5;
    let (t0, t1) = pool.vault_amount_without_fee(10050, 20005);
    assert_eq!(t0, 10000);
    assert_eq!(t1, 20000);
}
