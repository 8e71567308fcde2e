use crate::curve::CurveCalculator;
use crate::error::ErrorCode;
use crate::math::{integer_sqrt, lemma_u64_mul_fits_u128, spec_integer_sqrt};
use crate::states::PoolState;
use vstd::prelude::*;

verus! {

/// LP tokens permanently withheld from the pool creator, never redeemable:
/// a creator can never own the whole supply of a near-empty pool, which
/// blunts first-depositor inflation attacks.
pub const LOCK_LP_AMOUNT: u64 = 100;

/// Outcome of creating a pool: the fresh pool ledger, the liquidity minted,
/// the creator's share of it, and the normalized open time.
#[derive(Clone, Copy, Debug, PartialEq, Eq, Structural)]
pub struct InitializeResult {
    /// The pool ledger to store: supply equals the initial liquidity.
    pub pool_state: PoolState,
    /// Initial liquidity: the integer square root of the reserve product.
    pub liquidity: u64,
    /// LP tokens minted to the creator: the liquidity minus the locked part.
    pub creator_lp_amount: u64,
    /// When trading opens: strictly in the future at creation time.
    pub open_time: u64,
}

/// Creates a pool over the two vault balances read back after the initial
/// transfers (which may be less than was sent, under fee-on-transfer
/// mints). Both mints must be supported, pool creation must be enabled,
/// both reserves must be positive, and the initial liquidity
/// `floor(sqrt(reserve_0 * reserve_1))` must exceed the locked amount;
/// the open time is pushed strictly past the current block time.
pub fn initialize(
    token_0_mint_supported: bool,
    token_1_mint_supported: bool,
    disable_create_pool: bool,
    auth_bump: u8,
    token_0_vault_amount: u64,
    token_1_vault_amount: u64,
    open_time: u64,
    block_timestamp: u64,
) -> (r: Result<InitializeResult, ErrorCode>)
    requires
        block_timestamp < u64::MAX,
    ensures
        ({
            let supported = token_0_mint_supported && token_1_mint_supported;
            let positive = token_0_vault_amount > 0 && token_1_vault_amount > 0;
            let liquidity = spec_integer_sqrt(
                token_0_vault_amount as int * token_1_vault_amount as int,
            );
            &&& (r is Err <==> !supported || disable_create_pool || !positive || liquidity
                <= LOCK_LP_AMOUNT)
            &&& (!supported ==> r is Err && r->Err_0 == ErrorCode::NotSupportMint)
            &&& (supported && disable_create_pool ==> r is Err && r->Err_0
                == ErrorCode::NotApproved)
            &&& (supported && !disable_create_pool && !positive ==> r is Err && r->Err_0
                == ErrorCode::ZeroTradingTokens)
            &&& (supported && !disable_create_pool && positive && liquidity <= LOCK_LP_AMOUNT
                ==> r is Err && r->Err_0 == ErrorCode::InitLpAmountTooLess)
            &&& (r matches Ok(i) ==> {
                &&& i.liquidity == liquidity
                &&& i.creator_lp_amount == liquidity - LOCK_LP_AMOUNT
                &&& i.open_time == if open_time <= block_timestamp {
                    block_timestamp + 1
                } else {
                    open_time as int
                }
                &&& i.pool_state == (PoolState {
                    auth_bump,
                    status: 0u8,
                    lp_supply: i.liquidity,
                    open_time: i.open_time,
                    protocol_fees_token_0: 0u64,
                    protocol_fees_token_1: 0u64,
                    fund_fees_token_0: 0u64,
                    fund_fees_token_1: 0u64,
                    swap_in_amount_token_0: 0u128,
                    swap_out_amount_token_1: 0u128,
                    swap_in_amount_token_1: 0u128,
                    swap_out_amount_token_0: 0u128,
                })
            })
        }),
{
    if !(token_0_mint_supported && token_1_mint_supported) {
        return Err(ErrorCode::NotSupportMint);
    }
    if disable_create_pool {
        return Err(ErrorCode::NotApproved);
    }
    let actual_open_time = if open_time <= block_timestamp {
        block_timestamp + 1
    } else {
        open_time
    };
    match CurveCalculator::validate_supply(token_0_vault_amount, token_1_vault_amount) {
        Ok(()) => {},
        Err(e) => {
            return Err(e);
        },
    }
    proof {
        lemma_u64_mul_fits_u128(token_0_vault_amount as int, token_1_vault_amount as int);
    }
    let liquidity = integer_sqrt(
        (token_0_vault_amount as u128) * (token_1_vault_amount as u128),
    );
    if liquidity <= LOCK_LP_AMOUNT {
        return Err(ErrorCode::InitLpAmountTooLess);
    }
    let creator_lp_amount = liquidity - LOCK_LP_AMOUNT;
    let mut pool_state = PoolState {
        auth_bump: 0,
        status: 0,
        lp_supply: 0,
        open_time: 0,
        protocol_fees_token_0: 0,
        protocol_fees_token_1: 0,
        fund_fees_token_0: 0,
        fund_fees_token_1: 0,
        swap_in_amount_token_0: 0,
        swap_out_amount_token_1: 0,
        swap_in_amount_token_1: 0,
        swap_out_amount_token_0: 0,
    };
    pool_state.initialize(auth_bump, liquidity, actual_open_time);
    Ok(InitializeResult { pool_state, liquidity, creator_lp_amount, open_time: actual_open_time })
}

} // verus!
