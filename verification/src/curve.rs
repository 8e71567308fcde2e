use crate::error::ErrorCode;
use crate::math::{ceil_div, lemma_ceil_div, lemma_ceil_div_le, lemma_div_pos, lemma_u64_mul_fits_u128};
use vstd::arithmetic::div_mod::{
    lemma_div_is_ordered, lemma_fundamental_div_mod, lemma_multiply_divide_le,
    lemma_multiply_divide_lt,
};
use vstd::arithmetic::mul::lemma_mul_nonnegative;
use vstd::prelude::*;

verus! {

/// Denominator of trading-fee rates: a rate of this value is 100%.
pub const FEE_RATE_DENOMINATOR_VALUE: u64 = 1_000_000;

/// The direction a proportional conversion rounds in.
///
/// `Ceiling` protects the pool on deposits: the depositor contributes at
/// least the proportional share. `Floor` protects the pool on withdrawals:
/// the withdrawer receives at most the proportional share.
#[derive(Clone, Copy, Debug, PartialEq, Eq, Structural)]
pub enum RoundDirection {
    Floor,
    Ceiling,
}

/// The pair of reserve amounts corresponding to an LP-token amount.
#[derive(Clone, Copy, Debug, PartialEq, Eq, Structural)]
pub struct TradingTokenResult {
    pub token_0_amount: u128,
    pub token_1_amount: u128,
}

/// Outcome of a swap computation: the reserves after the trade and the
/// exact amounts moved, all in the reserves' integer domain.
#[derive(Clone, Copy, Debug, PartialEq, Eq, Structural)]
pub struct SwapResult {
    pub new_swap_source_amount: u128,
    pub new_swap_destination_amount: u128,
    pub source_amount_swapped: u128,
    pub destination_amount_swapped: u128,
    pub trade_fee: u128,
}

/// A quotient rounded in the given direction.
pub open spec fn spec_div_round(numerator: int, denominator: int, round: RoundDirection) -> int {
    match round {
        RoundDirection::Floor => numerator / denominator,
        RoundDirection::Ceiling => ceil_div(numerator, denominator),
    }
}

/// The reserve share corresponding to `lp_amount` out of `lp_supply`:
/// `lp_amount * reserve / lp_supply`, rounded in the given direction.
pub open spec fn spec_token_share(lp_amount: int, reserve: int, lp_supply: int, round: RoundDirection) -> int {
    spec_div_round(lp_amount * reserve, lp_supply, round)
}

/// The trading fee on `amount`, rounded up so the pool never undercollects.
pub open spec fn spec_trading_fee(amount: int, trade_fee_rate: int) -> int {
    ceil_div(amount * trade_fee_rate, FEE_RATE_DENOMINATOR_VALUE as int)
}

/// Constant-product output: what leaves the destination reserve when
/// `source_amount` (net of fees) enters the source reserve, rounded down
/// against the trader.
pub open spec fn spec_swap_without_fees(source_amount: int, swap_source_amount: int, swap_destination_amount: int) -> int {
    swap_destination_amount * source_amount / (swap_source_amount + source_amount)
}

/// Constant-product input: what must enter the source reserve so that
/// `destination_amount` can leave the destination reserve, rounded up
/// against the trader.
pub open spec fn spec_source_for_output(destination_amount: int, swap_source_amount: int, swap_destination_amount: int) -> int {
    ceil_div(swap_source_amount * destination_amount, swap_destination_amount - destination_amount)
}

/// Gross amount whose trading fee leaves at least `post_fee_amount`,
/// rounded up against the trader.
pub open spec fn spec_pre_trading_fee_amount(post_fee_amount: int, trade_fee_rate: int) -> int {
    ceil_div(
        post_fee_amount * FEE_RATE_DENOMINATOR_VALUE,
        FEE_RATE_DENOMINATOR_VALUE - trade_fee_rate,
    )
}

/// A quotient of `u128` values rounded in the given direction.
fn div_round(numerator: u128, denominator: u128, round: RoundDirection) -> (q: u128)
    requires
        denominator > 0,
    ensures
        q == spec_div_round(numerator as int, denominator as int, round),
{
    proof {
        lemma_ceil_div(numerator as int, denominator as int);
        lemma_div_pos(numerator as int, denominator as int);
    }
    let fl = numerator / denominator;
    match round {
        RoundDirection::Floor => fl,
        RoundDirection::Ceiling => {
            if numerator % denominator != 0 {
                proof {
                    lemma_fundamental_div_mod(numerator as int, denominator as int);
                    assert(fl < numerator) by (nonlinear_arith)
                        requires
                            numerator as int == denominator as int * fl as int + numerator as int % denominator as int,
                            numerator as int % denominator as int >= 1,
                            denominator >= 1,
                            fl >= 0,
                    ;
                }
                fl + 1
            } else {
                fl
            }
        },
    }
}

/// Pure constant-product conversions and validations.
pub struct CurveCalculator {}

impl CurveCalculator {
    /// Converts an LP-token amount into the pair of reserve amounts it
    /// stands for, proportionally to the current LP supply, rounding both
    /// sides in the given direction.
    ///
    /// Fails exactly when the supply is zero, a product overflows, or
    /// either side comes out zero (a zero-output operation is rejected
    /// upstream as `ZeroTradingTokens`).
    pub fn lp_tokens_to_trading_tokens(
        lp_token_amount: u128,
        lp_token_supply: u128,
        swap_token_0_amount: u128,
        swap_token_1_amount: u128,
        round_direction: RoundDirection,
    ) -> (r: Option<TradingTokenResult>)
        ensures
            ({
                let share_0 = spec_token_share(lp_token_amount as int, swap_token_0_amount as int, lp_token_supply as int, round_direction);
                let share_1 = spec_token_share(lp_token_amount as int, swap_token_1_amount as int, lp_token_supply as int, round_direction);
                &&& (r is Some <==> {
                    &&& lp_token_supply > 0
                    &&& lp_token_amount * swap_token_0_amount <= u128::MAX
                    &&& lp_token_amount * swap_token_1_amount <= u128::MAX
                    &&& share_0 != 0
                    &&& share_1 != 0
                })
                &&& (r matches Some(t) ==> t.token_0_amount == share_0 && t.token_1_amount == share_1)
            }),
    {
        let p0 = match lp_token_amount.checked_mul(swap_token_0_amount) {
            Some(p) => p,
            None => {
                return None;
            },
        };
        let p1 = match lp_token_amount.checked_mul(swap_token_1_amount) {
            Some(p) => p,
            None => {
                return None;
            },
        };
        if lp_token_supply == 0 {
            return None;
        }
        let token_0_amount = div_round(p0, lp_token_supply, round_direction);
        let token_1_amount = div_round(p1, lp_token_supply, round_direction);
        if token_0_amount == 0 || token_1_amount == 0 {
            return None;
        }
        Some(TradingTokenResult { token_0_amount, token_1_amount })
    }

    /// A pool can only be created over two positive reserves.
    pub fn validate_supply(token_0_amount: u64, token_1_amount: u64) -> (r: Result<(), ErrorCode>)
        ensures
            r is Ok <==> token_0_amount > 0 && token_1_amount > 0,
            r is Err ==> r->Err_0 == ErrorCode::ZeroTradingTokens,
    {
        if token_0_amount == 0 || token_1_amount == 0 {
            return Err(ErrorCode::ZeroTradingTokens);
        }
        Ok(())
    }

    /// Swap with the input amount fixed: the trading fee is taken from the
    /// input, the constant-product equation gives the output, and the whole
    /// input (fee included) lands in the source reserve, so the invariant
    /// `source * destination` never decreases.
    pub fn swap_base_input(
        source_amount: u128,
        swap_source_amount: u128,
        swap_destination_amount: u128,
        trade_fee_rate: u64,
    ) -> (r: SwapResult)
        requires
            source_amount <= u64::MAX,
            swap_source_amount <= u64::MAX,
            swap_destination_amount <= u64::MAX,
            0 < swap_source_amount,
            0 < swap_destination_amount,
            trade_fee_rate <= FEE_RATE_DENOMINATOR_VALUE,
        ensures
            r.trade_fee == spec_trading_fee(source_amount as int, trade_fee_rate as int),
            r.trade_fee <= source_amount,
            r.source_amount_swapped == source_amount,
            r.destination_amount_swapped == spec_swap_without_fees(
                source_amount - r.trade_fee,
                swap_source_amount as int,
                swap_destination_amount as int,
            ),
            r.destination_amount_swapped < swap_destination_amount,
            r.new_swap_source_amount == swap_source_amount + source_amount,
            r.new_swap_destination_amount == swap_destination_amount - r.destination_amount_swapped,
            r.new_swap_source_amount * r.new_swap_destination_amount
                >= swap_source_amount * swap_destination_amount,
    {
        proof {
            lemma_u64_mul_fits_u128(source_amount as int, trade_fee_rate as int);
        }
        let fee_numerator = source_amount * (trade_fee_rate as u128);
        let trade_fee = div_round(fee_numerator, FEE_RATE_DENOMINATOR_VALUE as u128, RoundDirection::Ceiling);
        proof {
            assert(fee_numerator as int <= (FEE_RATE_DENOMINATOR_VALUE as int) * (source_amount as int))
                by (nonlinear_arith)
                requires
                    fee_numerator as int == source_amount as int * trade_fee_rate as int,
                    0 <= trade_fee_rate <= FEE_RATE_DENOMINATOR_VALUE,
                    source_amount >= 0,
            ;
            lemma_ceil_div_le(fee_numerator as int, FEE_RATE_DENOMINATOR_VALUE as int, source_amount as int);
        }
        let source_amount_less_fees = source_amount - trade_fee;
        proof {
            lemma_u64_mul_fits_u128(swap_destination_amount as int, source_amount_less_fees as int);
        }
        let numerator = swap_destination_amount * source_amount_less_fees;
        let denominator = swap_source_amount + source_amount_less_fees;
        let destination_amount_swapped = numerator / denominator;
        proof {
            assert(numerator < denominator * swap_destination_amount) by (nonlinear_arith)
                requires
                    numerator as int == swap_destination_amount as int * source_amount_less_fees as int,
                    denominator as int == swap_source_amount as int + source_amount_less_fees as int,
                    swap_source_amount > 0,
                    swap_destination_amount > 0,
                    source_amount_less_fees >= 0,
            ;
            lemma_multiply_divide_lt(numerator as int, denominator as int, swap_destination_amount as int);
            lemma_div_pos(numerator as int, denominator as int);
            lemma_fundamental_div_mod(numerator as int, denominator as int);
            assert((swap_source_amount + source_amount) * (swap_destination_amount - destination_amount_swapped)
                >= swap_source_amount * swap_destination_amount) by (nonlinear_arith)
                requires
                    numerator as int == swap_destination_amount as int * source_amount_less_fees as int,
                    denominator as int == swap_source_amount as int + source_amount_less_fees as int,
                    numerator as int == denominator as int * destination_amount_swapped as int
                        + numerator as int % denominator as int,
                    0 <= numerator as int % denominator as int,
                    destination_amount_swapped <= swap_destination_amount,
                    source_amount_less_fees <= source_amount,
                    swap_source_amount > 0,
                    swap_destination_amount > 0,
                    source_amount_less_fees >= 0,
            ;
        }
        SwapResult {
            new_swap_source_amount: swap_source_amount + source_amount,
            new_swap_destination_amount: swap_destination_amount - destination_amount_swapped,
            source_amount_swapped: source_amount,
            destination_amount_swapped,
            trade_fee,
        }
    }

    /// Swap with the output amount fixed: the constant-product equation
    /// gives the required input, the trading fee is added on top of it, and
    /// the whole input lands in the source reserve, so the invariant
    /// `source * destination` never decreases.
    ///
    /// Fails exactly when scaling the required input by the fee rate
    /// overflows, or the source reserve cannot absorb the gross input.
    pub fn swap_base_output(
        destination_amount: u128,
        swap_source_amount: u128,
        swap_destination_amount: u128,
        trade_fee_rate: u64,
    ) -> (r: Option<SwapResult>)
        requires
            destination_amount <= u64::MAX,
            swap_source_amount <= u64::MAX,
            swap_destination_amount <= u64::MAX,
            0 < swap_source_amount,
            0 < destination_amount < swap_destination_amount,
            trade_fee_rate < FEE_RATE_DENOMINATOR_VALUE,
        ensures
            ({
                let need = spec_source_for_output(destination_amount as int, swap_source_amount as int, swap_destination_amount as int);
                let gross = spec_pre_trading_fee_amount(need, trade_fee_rate as int);
                &&& (r is Some <==> need * FEE_RATE_DENOMINATOR_VALUE <= u128::MAX
                    && swap_source_amount + gross <= u128::MAX)
                &&& (r matches Some(s) ==> {
                    &&& s.source_amount_swapped == gross
                    &&& s.trade_fee == gross - need
                    &&& s.destination_amount_swapped == destination_amount
                    &&& s.new_swap_source_amount == swap_source_amount + gross
                    &&& s.new_swap_destination_amount == swap_destination_amount - destination_amount
                    &&& s.new_swap_source_amount * s.new_swap_destination_amount
                        >= swap_source_amount * swap_destination_amount
                })
            }),
    {
        proof {
            lemma_u64_mul_fits_u128(swap_source_amount as int, destination_amount as int);
        }
        let numerator = swap_source_amount * destination_amount;
        let denominator = swap_destination_amount - destination_amount;
        let need = div_round(numerator, denominator, RoundDirection::Ceiling);
        let scaled = match need.checked_mul(FEE_RATE_DENOMINATOR_VALUE as u128) {
            Some(s) => s,
            None => {
                return None;
            },
        };
        let fee_denominator = (FEE_RATE_DENOMINATOR_VALUE - trade_fee_rate) as u128;
        proof {
            lemma_ceil_div(scaled as int, fee_denominator as int);
            assert(scaled as int <= fee_denominator as int * scaled as int) by (nonlinear_arith)
                requires fee_denominator >= 1, scaled >= 0,
            ;
            lemma_ceil_div_le(scaled as int, fee_denominator as int, scaled as int);
            lemma_div_pos(scaled as int, fee_denominator as int);
            // need == (need * fd) / fd <= scaled / fd <= gross
            assert(0 <= need as int * fee_denominator as int <= scaled) by (nonlinear_arith)
                requires
                    scaled as int == need as int * (FEE_RATE_DENOMINATOR_VALUE as int),
                    0 < fee_denominator as int <= FEE_RATE_DENOMINATOR_VALUE as int,
                    need >= 0,
            ;
            lemma_div_is_ordered(need as int * fee_denominator as int, scaled as int, fee_denominator as int);
            vstd::arithmetic::div_mod::lemma_div_by_multiple(need as int, fee_denominator as int);
        }
        let gross = div_round(scaled, fee_denominator, RoundDirection::Ceiling);
        let new_swap_source_amount = match swap_source_amount.checked_add(gross) {
            Some(s) => s,
            None => {
                return None;
            },
        };
        proof {
            lemma_ceil_div(numerator as int, denominator as int);
            assert((swap_source_amount + gross) * (swap_destination_amount - destination_amount)
                >= swap_source_amount * swap_destination_amount) by (nonlinear_arith)
                requires
                    need as int * denominator as int >= numerator as int,
                    numerator as int == swap_source_amount as int * destination_amount as int,
                    denominator as int == swap_destination_amount as int - destination_amount as int,
                    gross >= need,
                    0 < destination_amount < swap_destination_amount,
                    swap_source_amount > 0,
                    need >= 0,
            ;
        }
        Some(SwapResult {
            new_swap_source_amount,
            new_swap_destination_amount: swap_destination_amount - destination_amount,
            source_amount_swapped: gross,
            destination_amount_swapped: destination_amount,
            trade_fee: gross - need,
        })
    }
}

/// Round-trip bound: depositing an LP amount (reserve share rounded up)
/// and immediately withdrawing the same LP amount (share rounded down)
/// never returns more of a reserve than was deposited.
pub proof fn lemma_deposit_withdraw_round_trip(lp_amount: int, lp_supply: int, reserve: int)
    requires
        lp_supply > 0,
        lp_amount >= 0,
        reserve >= 0,
    ensures
        ({
            let deposited = spec_token_share(lp_amount, reserve, lp_supply, RoundDirection::Ceiling);
            let withdrawn = spec_token_share(
                lp_amount,
                reserve + deposited,
                lp_supply + lp_amount,
                RoundDirection::Floor,
            );
            withdrawn <= deposited
        }),
{
    lemma_mul_nonnegative(lp_amount, reserve);
    let c = ceil_div(lp_amount * reserve, lp_supply);
    lemma_ceil_div(lp_amount * reserve, lp_supply);
    assert(lp_amount * (reserve + c) <= (lp_supply + lp_amount) * c) by (nonlinear_arith)
        requires
            c * lp_supply >= lp_amount * reserve,
            lp_amount >= 0,
            c >= 0,
    ;
    lemma_multiply_divide_le(lp_amount * (reserve + c), lp_supply + lp_amount, c);
}

} // verus!
