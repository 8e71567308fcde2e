use crate::curve::{
    spec_pre_trading_fee_amount, spec_source_for_output, spec_swap_without_fees, spec_trading_fee,
    CurveCalculator, FEE_RATE_DENOMINATOR_VALUE,
};
use crate::error::ErrorCode;
use crate::fees::{
    get_transfer_fee, get_transfer_inverse_fee, spec_inverse_transfer_fee, spec_transfer_fee,
    TransferFeeConfig,
};
use crate::states::{PoolState, PoolStatusBitIndex};
use vstd::prelude::*;

verus! {

/// Which reserve the trader pays into.
#[derive(Clone, Copy, Debug, PartialEq, Eq, Structural)]
pub enum TradeDirection {
    /// Token 0 in, token 1 out.
    ZeroForOne,
    /// Token 1 in, token 0 out.
    OneForZero,
}

/// The tradable balance of the reserve the trader pays into.
pub open spec fn spec_total_input_amount(pool: PoolState, vault_0_amount: u64, vault_1_amount: u64, direction: TradeDirection) -> int {
    match direction {
        TradeDirection::ZeroForOne => pool.spec_vault_0_without_fee(vault_0_amount as int),
        TradeDirection::OneForZero => pool.spec_vault_1_without_fee(vault_1_amount as int),
    }
}

/// The tradable balance of the reserve the trader is paid from.
pub open spec fn spec_total_output_amount(pool: PoolState, vault_0_amount: u64, vault_1_amount: u64, direction: TradeDirection) -> int {
    match direction {
        TradeDirection::ZeroForOne => pool.spec_vault_1_without_fee(vault_1_amount as int),
        TradeDirection::OneForZero => pool.spec_vault_0_without_fee(vault_0_amount as int),
    }
}

/// Everything a fixed-input swap moves.
#[derive(Clone, Copy, Debug, PartialEq, Eq, Structural)]
pub struct SwapBaseInputResult {
    /// Transfer fee the input mint withholds from what the trader sends.
    pub input_transfer_fee: u64,
    /// What actually lands in the source reserve.
    pub actual_amount_in: u64,
    /// Trading fee taken from the input; it stays in the pool.
    pub trade_fee: u64,
    /// What leaves the destination reserve.
    pub amount_out: u64,
    /// Transfer fee the output mint withholds on the way out.
    pub output_transfer_fee: u64,
    /// What the trader receives.
    pub amount_received: u64,
}

/// Everything a fixed-output swap moves.
#[derive(Clone, Copy, Debug, PartialEq, Eq, Structural)]
pub struct SwapBaseOutputResult {
    /// Transfer fee the output mint withholds on the way out.
    pub output_transfer_fee: u64,
    /// What must leave the destination reserve so the trader nets the ask.
    pub actual_amount_out: u64,
    /// Trading fee added on top of the required input; it stays in the pool.
    pub trade_fee: u64,
    /// What must land in the source reserve, trading fee included.
    pub source_amount: u64,
    /// Transfer fee the input mint withholds from what the trader sends.
    pub input_transfer_fee: u64,
    /// What the trader must send, both fees included.
    pub transfer_amount_in: u64,
}

/// Plans a swap with the input amount fixed: checks the swap gate and open
/// time, nets the inbound transfer fee, runs the constant-product curve on
/// the tradable reserves, predicts the outbound transfer fee, and enforces
/// the caller's minimum-received bound. Mutates nothing: the caller executes
/// the transfers and then records the volume with `commit_swap`.
pub fn swap_base_input(
    pool_state: &PoolState,
    block_timestamp: u64,
    vault_0_amount: u64,
    vault_1_amount: u64,
    trade_direction: TradeDirection,
    amount_in: u64,
    minimum_amount_out: u64,
    input_fee_config: TransferFeeConfig,
    output_fee_config: TransferFeeConfig,
    trade_fee_rate: u64,
) -> (r: Result<SwapBaseInputResult, ErrorCode>)
    requires
        input_fee_config.wf(),
        output_fee_config.wf(),
        pool_state.spec_fees_covered(vault_0_amount as int, vault_1_amount as int),
        trade_fee_rate <= FEE_RATE_DENOMINATOR_VALUE,
        spec_total_input_amount(*pool_state, vault_0_amount, vault_1_amount, trade_direction) > 0,
        spec_total_output_amount(*pool_state, vault_0_amount, vault_1_amount, trade_direction) > 0,
    ensures
        ({
            let total_input = spec_total_input_amount(*pool_state, vault_0_amount, vault_1_amount, trade_direction);
            let total_output = spec_total_output_amount(*pool_state, vault_0_amount, vault_1_amount, trade_direction);
            let enabled = pool_state.spec_status_enabled(PoolStatusBitIndex::SwapBaseIn)
                && pool_state.open_time <= block_timestamp;
            let actual_in = amount_in - spec_transfer_fee(input_fee_config, amount_in as int);
            let trade_fee = spec_trading_fee(actual_in, trade_fee_rate as int);
            let out = spec_swap_without_fees(actual_in - trade_fee, total_input, total_output);
            let zero = actual_in == 0 || out == 0;
            let received = out - spec_transfer_fee(output_fee_config, out);
            let slips = received < minimum_amount_out;
            &&& (r is Err <==> !enabled || zero || slips)
            &&& (!enabled ==> r is Err && r->Err_0 == ErrorCode::NotApproved)
            &&& (enabled && zero ==> r is Err && r->Err_0 == ErrorCode::ZeroTradingTokens)
            &&& (enabled && !zero && slips ==> r is Err && r->Err_0
                == ErrorCode::ExceededSlippage)
            &&& (r matches Ok(s) ==> {
                &&& s.input_transfer_fee == spec_transfer_fee(input_fee_config, amount_in as int)
                &&& s.actual_amount_in == actual_in
                &&& s.trade_fee == trade_fee
                &&& s.amount_out == out
                &&& out < total_output
                &&& s.output_transfer_fee == spec_transfer_fee(output_fee_config, out)
                &&& s.amount_received == received
                &&& (total_input + actual_in) * (total_output - out) >= total_input * total_output
            })
        }),
{
    if !pool_state.get_status_by_bit(PoolStatusBitIndex::SwapBaseIn)
        || block_timestamp < pool_state.open_time {
        return Err(ErrorCode::NotApproved);
    }
    let (total_token_0_amount, total_token_1_amount) =
        pool_state.vault_amount_without_fee(vault_0_amount, vault_1_amount);
    let (total_input_amount, total_output_amount) = match trade_direction {
        TradeDirection::ZeroForOne => (total_token_0_amount, total_token_1_amount),
        TradeDirection::OneForZero => (total_token_1_amount, total_token_0_amount),
    };
    let input_transfer_fee = get_transfer_fee(&input_fee_config, amount_in);
    let actual_amount_in = amount_in - input_transfer_fee;
    if actual_amount_in == 0 {
        return Err(ErrorCode::ZeroTradingTokens);
    }
    let swap_result = CurveCalculator::swap_base_input(
        actual_amount_in as u128,
        total_input_amount as u128,
        total_output_amount as u128,
        trade_fee_rate,
    );
    let amount_out = swap_result.destination_amount_swapped as u64;
    if amount_out == 0 {
        return Err(ErrorCode::ZeroTradingTokens);
    }
    let output_transfer_fee = get_transfer_fee(&output_fee_config, amount_out);
    let amount_received = amount_out - output_transfer_fee;
    if amount_received < minimum_amount_out {
        return Err(ErrorCode::ExceededSlippage);
    }
    Ok(SwapBaseInputResult {
        input_transfer_fee,
        actual_amount_in,
        trade_fee: swap_result.trade_fee as u64,
        amount_out,
        output_transfer_fee,
        amount_received,
    })
}

/// Plans a swap with the net output amount fixed: checks the swap gate and
/// open time, grosses the ask up by the outbound transfer fee, solves the
/// constant-product curve for the required input, adds the trading fee and
/// the inbound transfer fee on top, and enforces the caller's maximum-paid
/// bound. Mutates nothing: the caller executes the transfers and then
/// records the volume with `commit_swap`.
pub fn swap_base_output(
    pool_state: &PoolState,
    block_timestamp: u64,
    vault_0_amount: u64,
    vault_1_amount: u64,
    trade_direction: TradeDirection,
    max_amount_in: u64,
    amount_out_less_fee: u64,
    input_fee_config: TransferFeeConfig,
    output_fee_config: TransferFeeConfig,
    trade_fee_rate: u64,
) -> (r: Result<SwapBaseOutputResult, ErrorCode>)
    requires
        input_fee_config.wf(),
        output_fee_config.wf(),
        pool_state.spec_fees_covered(vault_0_amount as int, vault_1_amount as int),
        trade_fee_rate < FEE_RATE_DENOMINATOR_VALUE,
        spec_total_input_amount(*pool_state, vault_0_amount, vault_1_amount, trade_direction) > 0,
        spec_total_output_amount(*pool_state, vault_0_amount, vault_1_amount, trade_direction) > 0,
    ensures
        ({
            let total_input = spec_total_input_amount(*pool_state, vault_0_amount, vault_1_amount, trade_direction);
            let total_output = spec_total_output_amount(*pool_state, vault_0_amount, vault_1_amount, trade_direction);
            let enabled = pool_state.spec_status_enabled(PoolStatusBitIndex::SwapBaseOut)
                && pool_state.open_time <= block_timestamp;
            let out_fee = spec_inverse_transfer_fee(output_fee_config, amount_out_less_fee as int);
            let actual_out = amount_out_less_fee + out_fee;
            let out_overflows = actual_out > u64::MAX;
            let zero = actual_out == 0;
            let drains = actual_out >= total_output;
            let need = spec_source_for_output(actual_out, total_input, total_output);
            let gross = spec_pre_trading_fee_amount(need, trade_fee_rate as int);
            let curve_overflows = need * FEE_RATE_DENOMINATOR_VALUE > u128::MAX
                || total_input + gross > u128::MAX
                || gross > u64::MAX;
            let in_fee = spec_inverse_transfer_fee(input_fee_config, gross);
            let in_overflows = gross + in_fee > u64::MAX;
            let slips = gross + in_fee > max_amount_in;
            &&& (r is Err <==> !enabled || out_overflows || zero || drains || curve_overflows
                || in_overflows || slips)
            &&& (!enabled ==> r is Err && r->Err_0 == ErrorCode::NotApproved)
            &&& (enabled && out_overflows ==> r is Err && r->Err_0
                == ErrorCode::ArithmeticOverflow)
            &&& (enabled && !out_overflows && zero ==> r is Err && r->Err_0
                == ErrorCode::ZeroTradingTokens)
            &&& (enabled && !out_overflows && !zero && drains ==> r is Err && r->Err_0
                == ErrorCode::ArithmeticOverflow)
            &&& (enabled && !out_overflows && !zero && !drains && curve_overflows ==> r is Err
                && r->Err_0 == ErrorCode::ArithmeticOverflow)
            &&& (enabled && !out_overflows && !zero && !drains && !curve_overflows
                && in_overflows ==> r is Err && r->Err_0 == ErrorCode::ArithmeticOverflow)
            &&& (enabled && !out_overflows && !zero && !drains && !curve_overflows
                && !in_overflows && slips ==> r is Err && r->Err_0
                == ErrorCode::ExceededSlippage)
            &&& (r matches Ok(s) ==> {
                &&& s.output_transfer_fee == out_fee
                &&& s.actual_amount_out == actual_out
                &&& s.source_amount == gross
                &&& s.trade_fee == gross - need
                &&& s.input_transfer_fee == in_fee
                &&& s.transfer_amount_in == gross + in_fee
                &&& (total_input + gross) * (total_output - actual_out) >= total_input
                    * total_output
            })
        }),
{
    if !pool_state.get_status_by_bit(PoolStatusBitIndex::SwapBaseOut)
        || block_timestamp < pool_state.open_time {
        return Err(ErrorCode::NotApproved);
    }
    let (total_token_0_amount, total_token_1_amount) =
        pool_state.vault_amount_without_fee(vault_0_amount, vault_1_amount);
    let (total_input_amount, total_output_amount) = match trade_direction {
        TradeDirection::ZeroForOne => (total_token_0_amount, total_token_1_amount),
        TradeDirection::OneForZero => (total_token_1_amount, total_token_0_amount),
    };
    let output_transfer_fee = get_transfer_inverse_fee(&output_fee_config, amount_out_less_fee);
    let actual_amount_out = match amount_out_less_fee.checked_add(output_transfer_fee) {
        Some(amount) => amount,
        None => {
            return Err(ErrorCode::ArithmeticOverflow);
        },
    };
    if actual_amount_out == 0 {
        return Err(ErrorCode::ZeroTradingTokens);
    }
    if actual_amount_out >= total_output_amount {
        return Err(ErrorCode::ArithmeticOverflow);
    }
    let swap_result = match CurveCalculator::swap_base_output(
        actual_amount_out as u128,
        total_input_amount as u128,
        total_output_amount as u128,
        trade_fee_rate,
    ) {
        Some(result) => result,
        None => {
            return Err(ErrorCode::ArithmeticOverflow);
        },
    };
    if swap_result.source_amount_swapped > u64::MAX as u128 {
        return Err(ErrorCode::ArithmeticOverflow);
    }
    let source_amount = swap_result.source_amount_swapped as u64;
    let input_transfer_fee = get_transfer_inverse_fee(&input_fee_config, source_amount);
    let transfer_amount_in = match source_amount.checked_add(input_transfer_fee) {
        Some(amount) => amount,
        None => {
            return Err(ErrorCode::ArithmeticOverflow);
        },
    };
    if transfer_amount_in > max_amount_in {
        return Err(ErrorCode::ExceededSlippage);
    }
    Ok(SwapBaseOutputResult {
        output_transfer_fee,
        actual_amount_out,
        trade_fee: (swap_result.trade_fee) as u64,
        source_amount,
        input_transfer_fee,
        transfer_amount_in,
    })
}

/// Records an executed swap's volume in the cumulative counters with
/// checked arithmetic, leaving the pool untouched on overflow.
pub fn commit_swap(
    pool_state: &mut PoolState,
    trade_direction: TradeDirection,
    actual_amount_in: u64,
    amount_out: u64,
) -> (r: Result<(), ErrorCode>)
    ensures
        ({
            let fits = match trade_direction {
                TradeDirection::ZeroForOne => old(pool_state).swap_in_amount_token_0
                    + actual_amount_in <= u128::MAX && old(pool_state).swap_out_amount_token_1
                    + amount_out <= u128::MAX,
                TradeDirection::OneForZero => old(pool_state).swap_in_amount_token_1
                    + actual_amount_in <= u128::MAX && old(pool_state).swap_out_amount_token_0
                    + amount_out <= u128::MAX,
            };
            &&& (r is Ok <==> fits)
            &&& (r is Err ==> *final(pool_state) == *old(pool_state) && r->Err_0
                == ErrorCode::ArithmeticOverflow)
            &&& (r is Ok ==> *final(pool_state) == (match trade_direction {
                TradeDirection::ZeroForOne => PoolState {
                    swap_in_amount_token_0: (old(pool_state).swap_in_amount_token_0
                        + actual_amount_in) as u128,
                    swap_out_amount_token_1: (old(pool_state).swap_out_amount_token_1
                        + amount_out) as u128,
                    ..*old(pool_state)
                },
                TradeDirection::OneForZero => PoolState {
                    swap_in_amount_token_1: (old(pool_state).swap_in_amount_token_1
                        + actual_amount_in) as u128,
                    swap_out_amount_token_0: (old(pool_state).swap_out_amount_token_0
                        + amount_out) as u128,
                    ..*old(pool_state)
                },
            }))
        }),
{
    match trade_direction {
        TradeDirection::ZeroForOne => {
            let new_in = match pool_state.swap_in_amount_token_0.checked_add(
                actual_amount_in as u128,
            ) {
                Some(v) => v,
                None => {
                    return Err(ErrorCode::ArithmeticOverflow);
                },
            };
            let new_out = match pool_state.swap_out_amount_token_1.checked_add(
                amount_out as u128,
            ) {
                Some(v) => v,
                None => {
                    return Err(ErrorCode::ArithmeticOverflow);
                },
            };
            pool_state.swap_in_amount_token_0 = new_in;
            pool_state.swap_out_amount_token_1 = new_out;
            Ok(())
        },
        TradeDirection::OneForZero => {
            let new_in = match pool_state.swap_in_amount_token_1.checked_add(
                actual_amount_in as u128,
            ) {
                Some(v) => v,
                None => {
                    return Err(ErrorCode::ArithmeticOverflow);
                },
            };
            let new_out = match pool_state.swap_out_amount_token_0.checked_add(
                amount_out as u128,
            ) {
                Some(v) => v,
                None => {
                    return Err(ErrorCode::ArithmeticOverflow);
                },
            };
            pool_state.swap_in_amount_token_1 = new_in;
            pool_state.swap_out_amount_token_0 = new_out;
            Ok(())
        },
    }
}

} // verus!
