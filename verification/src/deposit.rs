use crate::curve::{spec_token_share, CurveCalculator, RoundDirection};
use crate::error::ErrorCode;
use crate::fees::{
    get_transfer_inverse_fee, spec_inverse_transfer_fee, TransferFeeConfig,
};
use crate::math::lemma_u64_mul_fits_u128;
use crate::states::{LpChangeEvent, PoolState, PoolStatusBitIndex};
use vstd::prelude::*;

verus! {

/// Everything a deposit moves: the curve-required amounts, the gross
/// transfer amounts that deliver them under fee-on-transfer mints, and the
/// event record for the caller to emit.
#[derive(Clone, Copy, Debug, PartialEq, Eq, Structural)]
pub struct DepositResult {
    /// Net token-0 amount the pool must receive.
    pub token_0_amount: u64,
    /// Net token-1 amount the pool must receive.
    pub token_1_amount: u64,
    /// Gross token-0 amount to transfer in, transfer fee included.
    pub transfer_token_0_amount: u64,
    /// Transfer fee the token-0 mint will withhold.
    pub transfer_token_0_fee: u64,
    /// Gross token-1 amount to transfer in, transfer fee included.
    pub transfer_token_1_amount: u64,
    /// Transfer fee the token-1 mint will withhold.
    pub transfer_token_1_fee: u64,
    /// Record of the supply change, for the caller to emit.
    pub event: LpChangeEvent,
}

/// The token-0 reserve share a deposit of `lp_token_amount` must contribute,
/// rounded up to protect the pool.
pub open spec fn spec_deposit_share_0(pool: PoolState, vault_0_amount: u64, lp_token_amount: u64) -> int {
    spec_token_share(
        lp_token_amount as int,
        pool.spec_vault_0_without_fee(vault_0_amount as int),
        pool.lp_supply as int,
        RoundDirection::Ceiling,
    )
}

/// The token-1 reserve share a deposit of `lp_token_amount` must contribute,
/// rounded up to protect the pool.
pub open spec fn spec_deposit_share_1(pool: PoolState, vault_1_amount: u64, lp_token_amount: u64) -> int {
    spec_token_share(
        lp_token_amount as int,
        pool.spec_vault_1_without_fee(vault_1_amount as int),
        pool.lp_supply as int,
        RoundDirection::Ceiling,
    )
}

/// Plans a deposit: checks the deposit gate, converts the LP amount into
/// the proportional reserve shares (rounded up), sizes each gross transfer
/// so the net delivered amount equals the share, and enforces the caller's
/// slippage bounds. Mutates nothing: the caller executes the transfers and
/// only then commits the supply change with `commit_deposit`.
pub fn deposit(
    pool_state: &PoolState,
    vault_0_amount: u64,
    vault_1_amount: u64,
    vault_0_fee_config: TransferFeeConfig,
    vault_1_fee_config: TransferFeeConfig,
    lp_token_amount: u64,
    maximum_token_0_amount: u64,
    maximum_token_1_amount: u64,
) -> (r: Result<DepositResult, ErrorCode>)
    requires
        vault_0_fee_config.wf(),
        vault_1_fee_config.wf(),
        pool_state.spec_fees_covered(vault_0_amount as int, vault_1_amount as int),
    ensures
        ({
            let enabled = pool_state.spec_status_enabled(PoolStatusBitIndex::Deposit);
            let share_0 = spec_deposit_share_0(*pool_state, vault_0_amount, lp_token_amount);
            let share_1 = spec_deposit_share_1(*pool_state, vault_1_amount, lp_token_amount);
            let zero = pool_state.lp_supply == 0 || share_0 == 0 || share_1 == 0;
            let fits = share_0 <= u64::MAX && share_1 <= u64::MAX;
            let fee_0 = spec_inverse_transfer_fee(vault_0_fee_config, share_0);
            let fee_1 = spec_inverse_transfer_fee(vault_1_fee_config, share_1);
            let overflows = share_0 + fee_0 > u64::MAX || share_1 + fee_1 > u64::MAX;
            let slips = share_0 + fee_0 > maximum_token_0_amount
                || share_1 + fee_1 > maximum_token_1_amount;
            &&& (r is Err <==> !enabled || zero || !fits || overflows || slips)
            &&& (!enabled ==> r is Err && r->Err_0 == ErrorCode::NotApproved)
            &&& (enabled && zero ==> r is Err && r->Err_0 == ErrorCode::ZeroTradingTokens)
            &&& (enabled && !zero && !(fits && !overflows) ==> r is Err && r->Err_0
                == ErrorCode::ArithmeticOverflow)
            &&& (enabled && !zero && fits && !overflows && slips ==> r is Err && r->Err_0
                == ErrorCode::ExceededSlippage)
            &&& (r matches Ok(d) ==> {
                &&& d.token_0_amount == share_0
                &&& d.token_1_amount == share_1
                &&& d.transfer_token_0_fee == fee_0
                &&& d.transfer_token_1_fee == fee_1
                &&& d.transfer_token_0_amount == share_0 + fee_0
                &&& d.transfer_token_1_amount == share_1 + fee_1
                &&& d.event == (LpChangeEvent {
                    lp_amount_before: pool_state.lp_supply,
                    token_0_vault_before: pool_state.spec_vault_0_without_fee(
                        vault_0_amount as int,
                    ) as u64,
                    token_1_vault_before: pool_state.spec_vault_1_without_fee(
                        vault_1_amount as int,
                    ) as u64,
                    token_0_amount: d.token_0_amount,
                    token_1_amount: d.token_1_amount,
                    token_0_transfer_fee: d.transfer_token_0_fee,
                    token_1_transfer_fee: d.transfer_token_1_fee,
                    change_type: 0u8,
                })
            })
        }),
{
    if !pool_state.get_status_by_bit(PoolStatusBitIndex::Deposit) {
        return Err(ErrorCode::NotApproved);
    }
    let (total_token_0_amount, total_token_1_amount) =
        pool_state.vault_amount_without_fee(vault_0_amount, vault_1_amount);
    proof {
        lemma_u64_mul_fits_u128(lp_token_amount as int, total_token_0_amount as int);
        lemma_u64_mul_fits_u128(lp_token_amount as int, total_token_1_amount as int);
    }
    let results = match CurveCalculator::lp_tokens_to_trading_tokens(
        lp_token_amount as u128,
        pool_state.lp_supply as u128,
        total_token_0_amount as u128,
        total_token_1_amount as u128,
        RoundDirection::Ceiling,
    ) {
        Some(results) => results,
        None => {
            return Err(ErrorCode::ZeroTradingTokens);
        },
    };
    if results.token_0_amount > u64::MAX as u128 || results.token_1_amount > u64::MAX as u128 {
        return Err(ErrorCode::ArithmeticOverflow);
    }
    let token_0_amount = results.token_0_amount as u64;
    let token_1_amount = results.token_1_amount as u64;

    let transfer_token_0_fee = get_transfer_inverse_fee(&vault_0_fee_config, token_0_amount);
    let transfer_token_0_amount = match token_0_amount.checked_add(transfer_token_0_fee) {
        Some(amount) => amount,
        None => {
            return Err(ErrorCode::ArithmeticOverflow);
        },
    };
    let transfer_token_1_fee = get_transfer_inverse_fee(&vault_1_fee_config, token_1_amount);
    let transfer_token_1_amount = match token_1_amount.checked_add(transfer_token_1_fee) {
        Some(amount) => amount,
        None => {
            return Err(ErrorCode::ArithmeticOverflow);
        },
    };

    if transfer_token_0_amount > maximum_token_0_amount
        || transfer_token_1_amount > maximum_token_1_amount {
        return Err(ErrorCode::ExceededSlippage);
    }

    let event = LpChangeEvent {
        lp_amount_before: pool_state.lp_supply,
        token_0_vault_before: total_token_0_amount,
        token_1_vault_before: total_token_1_amount,
        token_0_amount,
        token_1_amount,
        token_0_transfer_fee: transfer_token_0_fee,
        token_1_transfer_fee: transfer_token_1_fee,
        change_type: 0,
    };
    Ok(DepositResult {
        token_0_amount,
        token_1_amount,
        transfer_token_0_amount,
        transfer_token_0_fee,
        transfer_token_1_amount,
        transfer_token_1_fee,
        event,
    })
}

/// Commits a planned deposit once both transfers have succeeded: adds the
/// LP amount to the supply with checked arithmetic, leaving the pool
/// untouched on overflow.
pub fn commit_deposit(pool_state: &mut PoolState, lp_token_amount: u64) -> (r: Result<(), ErrorCode>)
    ensures
        r is Ok <==> old(pool_state).lp_supply + lp_token_amount <= u64::MAX,
        r is Ok ==> *final(pool_state) == (PoolState {
            lp_supply: (old(pool_state).lp_supply + lp_token_amount) as u64,
            ..*old(pool_state)
        }),
        r is Err ==> *final(pool_state) == *old(pool_state) && r->Err_0
            == ErrorCode::ArithmeticOverflow,
{
    match pool_state.lp_supply.checked_add(lp_token_amount) {
        Some(new_supply) => {
            pool_state.lp_supply = new_supply;
            Ok(())
        },
        None => Err(ErrorCode::ArithmeticOverflow),
    }
}

} // verus!
