use crate::curve::{spec_token_share, CurveCalculator, RoundDirection};
use crate::error::ErrorCode;
use crate::fees::{get_transfer_fee, spec_transfer_fee, TransferFeeConfig};
use crate::math::lemma_u64_mul_fits_u128;
use crate::states::{LpChangeEvent, PoolState, PoolStatusBitIndex};
use vstd::prelude::*;

verus! {

/// Everything a withdrawal moves: the curve-granted amounts that leave the
/// vaults, the transfer fees withheld on the way out, the net amounts that
/// reach the withdrawer, and the event record for the caller to emit.
#[derive(Clone, Copy, Debug, PartialEq, Eq, Structural)]
pub struct WithdrawResult {
    /// Gross token-0 amount leaving the vault.
    pub token_0_amount: u64,
    /// Gross token-1 amount leaving the vault.
    pub token_1_amount: u64,
    /// Transfer fee the token-0 mint withholds on the way out.
    pub transfer_token_0_fee: u64,
    /// Transfer fee the token-1 mint withholds on the way out.
    pub transfer_token_1_fee: u64,
    /// Net token-0 amount the withdrawer receives.
    pub receive_token_0_amount: u64,
    /// Net token-1 amount the withdrawer receives.
    pub receive_token_1_amount: u64,
    /// Record of the supply change, for the caller to emit.
    pub event: LpChangeEvent,
}

/// The token-0 reserve share a withdrawal of `lp_token_amount` releases,
/// rounded down to protect the pool.
pub open spec fn spec_withdraw_share_0(pool: PoolState, vault_0_amount: u64, lp_token_amount: u64) -> int {
    spec_token_share(
        lp_token_amount as int,
        pool.spec_vault_0_without_fee(vault_0_amount as int),
        pool.lp_supply as int,
        RoundDirection::Floor,
    )
}

/// The token-1 reserve share a withdrawal of `lp_token_amount` releases,
/// rounded down to protect the pool.
pub open spec fn spec_withdraw_share_1(pool: PoolState, vault_1_amount: u64, lp_token_amount: u64) -> int {
    spec_token_share(
        lp_token_amount as int,
        pool.spec_vault_1_without_fee(vault_1_amount as int),
        pool.lp_supply as int,
        RoundDirection::Floor,
    )
}

/// Plans a withdrawal: checks the withdraw gate, converts the LP amount
/// into the proportional reserve shares (rounded down), predicts the
/// transfer fee withheld on each outbound leg, and enforces the caller's
/// minimum-received bounds. Mutates nothing: the caller burns the LP tokens
/// with `commit_withdraw` first and only then executes the transfers, so an
/// over-withdrawal can never outrun the burn.
pub fn withdraw(
    pool_state: &PoolState,
    vault_0_amount: u64,
    vault_1_amount: u64,
    vault_0_fee_config: TransferFeeConfig,
    vault_1_fee_config: TransferFeeConfig,
    lp_token_amount: u64,
    minimum_token_0_amount: u64,
    minimum_token_1_amount: u64,
) -> (r: Result<WithdrawResult, ErrorCode>)
    requires
        vault_0_fee_config.wf(),
        vault_1_fee_config.wf(),
        pool_state.spec_fees_covered(vault_0_amount as int, vault_1_amount as int),
    ensures
        ({
            let enabled = pool_state.spec_status_enabled(PoolStatusBitIndex::Withdraw);
            let share_0 = spec_withdraw_share_0(*pool_state, vault_0_amount, lp_token_amount);
            let share_1 = spec_withdraw_share_1(*pool_state, vault_1_amount, lp_token_amount);
            let zero = pool_state.lp_supply == 0 || share_0 == 0 || share_1 == 0;
            let fits = share_0 <= u64::MAX && share_1 <= u64::MAX;
            let fee_0 = spec_transfer_fee(vault_0_fee_config, share_0);
            let fee_1 = spec_transfer_fee(vault_1_fee_config, share_1);
            let slips = share_0 - fee_0 < minimum_token_0_amount
                || share_1 - fee_1 < minimum_token_1_amount;
            &&& (r is Err <==> !enabled || zero || !fits || slips)
            &&& (!enabled ==> r is Err && r->Err_0 == ErrorCode::NotApproved)
            &&& (enabled && zero ==> r is Err && r->Err_0 == ErrorCode::ZeroTradingTokens)
            &&& (enabled && !zero && !fits ==> r is Err && r->Err_0
                == ErrorCode::ArithmeticOverflow)
            &&& (enabled && !zero && fits && slips ==> r is Err && r->Err_0
                == ErrorCode::ExceededSlippage)
            &&& (r matches Ok(w) ==> {
                &&& w.token_0_amount == share_0
                &&& w.token_1_amount == share_1
                &&& w.transfer_token_0_fee == fee_0
                &&& w.transfer_token_1_fee == fee_1
                &&& w.receive_token_0_amount == share_0 - fee_0
                &&& w.receive_token_1_amount == share_1 - fee_1
                &&& w.event == (LpChangeEvent {
                    lp_amount_before: pool_state.lp_supply,
                    token_0_vault_before: pool_state.spec_vault_0_without_fee(
                        vault_0_amount as int,
                    ) as u64,
                    token_1_vault_before: pool_state.spec_vault_1_without_fee(
                        vault_1_amount as int,
                    ) as u64,
                    token_0_amount: w.token_0_amount,
                    token_1_amount: w.token_1_amount,
                    token_0_transfer_fee: w.transfer_token_0_fee,
                    token_1_transfer_fee: w.transfer_token_1_fee,
                    change_type: 1u8,
                })
            })
        }),
{
    if !pool_state.get_status_by_bit(PoolStatusBitIndex::Withdraw) {
        return Err(ErrorCode::NotApproved);
    }
    let (total_token_0_amount, total_token_1_amount) =
        pool_state.vault_amount_without_fee(vault_0_amount, vault_1_amount);
    proof {
        lemma_u64_mul_fits_u128(lp_token_amount as int, total_token_0_amount as int);
        lemma_u64_mul_fits_u128(lp_token_amount as int, total_token_1_amount as int);
    }
    let results = match CurveCalculator::lp_tokens_to_trading_tokens(
        lp_token_amount as u128,
        pool_state.lp_supply as u128,
        total_token_0_amount as u128,
        total_token_1_amount as u128,
        RoundDirection::Floor,
    ) {
        Some(results) => results,
        None => {
            return Err(ErrorCode::ZeroTradingTokens);
        },
    };
    if results.token_0_amount > u64::MAX as u128 || results.token_1_amount > u64::MAX as u128 {
        return Err(ErrorCode::ArithmeticOverflow);
    }
    let token_0_amount = results.token_0_amount as u64;
    let token_1_amount = results.token_1_amount as u64;

    let transfer_token_0_fee = get_transfer_fee(&vault_0_fee_config, token_0_amount);
    let receive_token_0_amount = token_0_amount - transfer_token_0_fee;
    let transfer_token_1_fee = get_transfer_fee(&vault_1_fee_config, token_1_amount);
    let receive_token_1_amount = token_1_amount - transfer_token_1_fee;

    if receive_token_0_amount < minimum_token_0_amount
        || receive_token_1_amount < minimum_token_1_amount {
        return Err(ErrorCode::ExceededSlippage);
    }

    let event = LpChangeEvent {
        lp_amount_before: pool_state.lp_supply,
        token_0_vault_before: total_token_0_amount,
        token_1_vault_before: total_token_1_amount,
        token_0_amount,
        token_1_amount,
        token_0_transfer_fee: transfer_token_0_fee,
        token_1_transfer_fee: transfer_token_1_fee,
        change_type: 1,
    };
    Ok(WithdrawResult {
        token_0_amount,
        token_1_amount,
        transfer_token_0_fee,
        transfer_token_1_fee,
        receive_token_0_amount,
        receive_token_1_amount,
        event,
    })
}

/// Commits a planned withdrawal before any transfer leaves the pool: burns
/// the LP amount from the supply with checked arithmetic, leaving the pool
/// untouched when more is burned than exists.
pub fn commit_withdraw(pool_state: &mut PoolState, lp_token_amount: u64) -> (r: Result<(), ErrorCode>)
    ensures
        r is Ok <==> lp_token_amount <= old(pool_state).lp_supply,
        r is Ok ==> *final(pool_state) == (PoolState {
            lp_supply: (old(pool_state).lp_supply - lp_token_amount) as u64,
            ..*old(pool_state)
        }),
        r is Err ==> *final(pool_state) == *old(pool_state) && r->Err_0
            == ErrorCode::ArithmeticOverflow,
{
    match pool_state.lp_supply.checked_sub(lp_token_amount) {
        Some(new_supply) => {
            pool_state.lp_supply = new_supply;
            Ok(())
        },
        None => Err(ErrorCode::ArithmeticOverflow),
    }
}

} // verus!
