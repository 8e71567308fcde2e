use crate::math::{ceil_div, lemma_ceil_div, lemma_div_pos, lemma_u64_mul_fits_u128};
use vstd::arithmetic::div_mod::{
    lemma_div_by_multiple, lemma_div_is_ordered, lemma_multiply_divide_le,
};
use vstd::prelude::*;

verus! {

/// Basis points in one whole: a rate of `MAX_FEE_BASIS_POINTS` is 100%.
pub const MAX_FEE_BASIS_POINTS: u16 = 10_000;

/// Per-mint transfer-fee configuration: the rate withheld on every transfer
/// of the mint, in basis points, and the cap the withheld fee never exceeds.
///
/// A mint without a transfer-fee extension is represented by a zero rate,
/// under which both fee computations return zero unconditionally.
#[derive(Clone, Copy, Debug, PartialEq, Eq, Structural)]
pub struct TransferFeeConfig {
    pub transfer_fee_basis_points: u16,
    pub maximum_fee: u64,
}

impl TransferFeeConfig {
    /// A configuration is meaningful only with a rate of at most 100%.
    pub open spec fn wf(self) -> bool {
        self.transfer_fee_basis_points <= MAX_FEE_BASIS_POINTS
    }

    /// The configuration of a mint with no transfer fee.
    pub fn exempt() -> (r: Self)
        ensures
            r == (TransferFeeConfig { transfer_fee_basis_points: 0u16, maximum_fee: 0u64 }),
            r.wf(),
    {
        TransferFeeConfig { transfer_fee_basis_points: 0, maximum_fee: 0 }
    }
}

/// The fee withheld when `amount` is transferred: the rate applied to the
/// amount, rounded down, and never more than the cap.
pub open spec fn spec_transfer_fee(config: TransferFeeConfig, amount: int) -> int {
    let raw = amount * config.transfer_fee_basis_points / (MAX_FEE_BASIS_POINTS as int);
    if raw <= config.maximum_fee { raw } else { config.maximum_fee as int }
}

/// The fee to add on top of `net_amount` so that a transfer of the sum
/// still delivers at least `net_amount` after the fee is withheld.
///
/// For a rate of 100% only the cap is ever withheld, so the cap itself is
/// enough. Otherwise the uncapped gross amount is the net scaled by
/// `10000 / (10000 - rate)`, rounded up; when the fee so implied reaches
/// the cap, the cap binds and is the answer.
pub open spec fn spec_inverse_transfer_fee(config: TransferFeeConfig, net_amount: int) -> int {
    if config.transfer_fee_basis_points == 0 {
        0
    } else if config.transfer_fee_basis_points == MAX_FEE_BASIS_POINTS {
        config.maximum_fee as int
    } else {
        let denom = MAX_FEE_BASIS_POINTS - config.transfer_fee_basis_points;
        let raw_pre = ceil_div(net_amount * MAX_FEE_BASIS_POINTS, denom as int);
        if raw_pre - net_amount >= config.maximum_fee {
            config.maximum_fee as int
        } else {
            raw_pre - net_amount
        }
    }
}

/// Forward fee: what a transfer of `amount` withholds.
pub fn get_transfer_fee(config: &TransferFeeConfig, amount: u64) -> (fee: u64)
    requires
        config.wf(),
    ensures
        fee == spec_transfer_fee(*config, amount as int),
        fee <= amount,
{
    proof {
        lemma_u64_mul_fits_u128(amount as int, config.transfer_fee_basis_points as int);
    }
    let raw: u128 = (amount as u128) * (config.transfer_fee_basis_points as u128)
        / (MAX_FEE_BASIS_POINTS as u128);
    proof {
        let a = amount as int;
        let bps = config.transfer_fee_basis_points as int;
        assert(0 <= a * bps <= a * (MAX_FEE_BASIS_POINTS as int)) by (nonlinear_arith)
            requires a >= 0, 0 <= bps <= MAX_FEE_BASIS_POINTS,
        ;
        lemma_div_is_ordered(a * bps, a * (MAX_FEE_BASIS_POINTS as int), MAX_FEE_BASIS_POINTS as int);
        lemma_div_by_multiple(a, MAX_FEE_BASIS_POINTS as int);
        lemma_div_pos(a * bps, MAX_FEE_BASIS_POINTS as int);
    }
    if raw <= config.maximum_fee as u128 {
        raw as u64
    } else {
        config.maximum_fee
    }
}

/// Inverse fee: what to add on top of `post_fee_amount` so that the sum,
/// transferred, still delivers at least `post_fee_amount`.
pub fn get_transfer_inverse_fee(config: &TransferFeeConfig, post_fee_amount: u64) -> (fee: u64)
    requires
        config.wf(),
    ensures
        fee == spec_inverse_transfer_fee(*config, post_fee_amount as int),
{
    if config.transfer_fee_basis_points == 0 {
        0
    } else if config.transfer_fee_basis_points == MAX_FEE_BASIS_POINTS {
        config.maximum_fee
    } else {
        proof {
            lemma_u64_mul_fits_u128(post_fee_amount as int, MAX_FEE_BASIS_POINTS as int);
        }
        let num: u128 = (post_fee_amount as u128) * (MAX_FEE_BASIS_POINTS as u128);
        let denom: u128 = (MAX_FEE_BASIS_POINTS as u128) - (config.transfer_fee_basis_points as u128);
        let q = num / denom;
        proof {
            let net = post_fee_amount as int;
            let d = denom as int;
            lemma_ceil_div(num as int, d);
            lemma_div_pos(num as int, d);
            // net * d <= net * 10000 == num, so net == (net * d) / d <= num / d == q
            assert(0 <= net * d <= num) by (nonlinear_arith)
                requires net >= 0, 0 < d <= MAX_FEE_BASIS_POINTS, num == net * (MAX_FEE_BASIS_POINTS as int),
            ;
            lemma_div_is_ordered(net * d, num as int, d);
            lemma_div_by_multiple(net, d);
            assert(num as int <= (u64::MAX as int) * (MAX_FEE_BASIS_POINTS as int))
                by (nonlinear_arith)
                requires num as int == net * (MAX_FEE_BASIS_POINTS as int), 0 <= net <= u64::MAX,
            ;
        }
        let raw_pre = if num % denom != 0 { q + 1 } else { q };
        let fee = raw_pre - (post_fee_amount as u128);
        if fee >= config.maximum_fee as u128 {
            config.maximum_fee
        } else {
            fee as u64
        }
    }
}

/// Fee monotonicity: adding the inverse fee to a net target and then
/// paying the forward fee on the sum always delivers at least the target.
pub proof fn lemma_inverse_fee_covers_net(config: TransferFeeConfig, net_amount: int)
    requires
        config.wf(),
        net_amount >= 0,
    ensures
        ({
            let gross = net_amount + spec_inverse_transfer_fee(config, net_amount);
            gross - spec_transfer_fee(config, gross) >= net_amount
        }),
{
    let bps = config.transfer_fee_basis_points as int;
    let max_fee = config.maximum_fee as int;
    let fee = spec_inverse_transfer_fee(config, net_amount);
    let gross = net_amount + fee;
    if bps == 0 {
        assert(gross * 0 == 0);
        assert(spec_transfer_fee(config, gross) <= 0);
    } else if bps == MAX_FEE_BASIS_POINTS {
        // the forward fee never exceeds the cap, which is exactly what was added
        assert(spec_transfer_fee(config, gross) <= max_fee);
    } else {
        let denom = MAX_FEE_BASIS_POINTS - config.transfer_fee_basis_points;
        let raw_pre = ceil_div(net_amount * MAX_FEE_BASIS_POINTS, denom as int);
        lemma_ceil_div(net_amount * MAX_FEE_BASIS_POINTS, denom as int);
        if raw_pre - net_amount >= max_fee {
            // the cap binds: at most the cap is withheld, and the cap was added
            assert(spec_transfer_fee(config, gross) <= max_fee);
        } else {
            // uncapped: raw_pre * (10000 - bps) >= net * 10000, so the
            // forward fee on raw_pre fits inside raw_pre - net
            assert(raw_pre * denom >= net_amount * MAX_FEE_BASIS_POINTS);
            assert(gross == raw_pre);
            assert(gross * bps <= (MAX_FEE_BASIS_POINTS as int) * (gross - net_amount))
                by (nonlinear_arith)
                requires
                    gross * (MAX_FEE_BASIS_POINTS - bps) >= net_amount * (MAX_FEE_BASIS_POINTS as int),
                    bps < MAX_FEE_BASIS_POINTS,
            ;
            lemma_multiply_divide_le(gross * bps, MAX_FEE_BASIS_POINTS as int, gross - net_amount);
            assert(gross * bps / (MAX_FEE_BASIS_POINTS as int) <= gross - net_amount);
        }
    }
}

} // verus!
