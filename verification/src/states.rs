use vstd::prelude::*;

verus! {

/// The operations the pool's status bitmask gates independently.
#[derive(Clone, Copy, Debug, PartialEq, Eq, Structural)]
pub enum PoolStatusBitIndex {
    Deposit,
    Withdraw,
    SwapBaseIn,
    SwapBaseOut,
}

/// The bit position an operation is gated by.
pub open spec fn spec_status_bit(bit: PoolStatusBitIndex) -> u8 {
    match bit {
        PoolStatusBitIndex::Deposit => 0,
        PoolStatusBitIndex::Withdraw => 1,
        PoolStatusBitIndex::SwapBaseIn => 2,
        PoolStatusBitIndex::SwapBaseOut => 3,
    }
}

/// The pool's ledger: LP supply, the withheld fees that make gross vault
/// balances differ from the tradable reserves, the time trading opens, and
/// cumulative swap-volume counters.
///
/// The status bitmask gates operations with a set bit meaning disabled, so
/// the zero default leaves everything enabled; only an external admin sets
/// it, the core just reads it.
#[derive(Clone, Copy, Debug, PartialEq, Eq, Structural)]
pub struct PoolState {
    /// Bump seed of the vault-and-LP-mint authority; opaque to the math.
    pub auth_bump: u8,
    /// Bitmask disabling operations; bit set means disabled.
    pub status: u8,
    /// Total outstanding LP tokens.
    pub lp_supply: u64,
    /// Timestamp from which trading is permitted.
    pub open_time: u64,
    /// Fees withheld in vault 0 for the protocol, not tradable.
    pub protocol_fees_token_0: u64,
    /// Fees withheld in vault 1 for the protocol, not tradable.
    pub protocol_fees_token_1: u64,
    /// Fees withheld in vault 0 for the fund, not tradable.
    pub fund_fees_token_0: u64,
    /// Fees withheld in vault 1 for the fund, not tradable.
    pub fund_fees_token_1: u64,
    /// Cumulative token-0 volume swapped into the pool.
    pub swap_in_amount_token_0: u128,
    /// Cumulative token-1 volume swapped out of the pool.
    pub swap_out_amount_token_1: u128,
    /// Cumulative token-1 volume swapped into the pool.
    pub swap_in_amount_token_1: u128,
    /// Cumulative token-0 volume swapped out of the pool.
    pub swap_out_amount_token_0: u128,
}

impl PoolState {
    /// Whether the given operation is enabled: its status bit is clear.
    pub open spec fn spec_status_enabled(self, bit: PoolStatusBitIndex) -> bool {
        self.status & (1u8 << spec_status_bit(bit)) == 0
    }

    /// Tradable balance of vault 0: the gross balance minus withheld fees.
    pub open spec fn spec_vault_0_without_fee(self, vault_0: int) -> int {
        vault_0 - (self.protocol_fees_token_0 + self.fund_fees_token_0)
    }

    /// Tradable balance of vault 1: the gross balance minus withheld fees.
    pub open spec fn spec_vault_1_without_fee(self, vault_1: int) -> int {
        vault_1 - (self.protocol_fees_token_1 + self.fund_fees_token_1)
    }

    /// The withheld fees never exceed the gross vault balances they sit in.
    pub open spec fn spec_fees_covered(self, vault_0: int, vault_1: int) -> bool {
        &&& self.protocol_fees_token_0 + self.fund_fees_token_0 <= vault_0
        &&& self.protocol_fees_token_1 + self.fund_fees_token_1 <= vault_1
    }

    /// Reads one gate of the status bitmask; a clear bit means enabled.
    pub fn get_status_by_bit(&self, bit: PoolStatusBitIndex) -> (r: bool)
        ensures
            r == self.spec_status_enabled(bit),
    {
        let idx: u8 = match bit {
            PoolStatusBitIndex::Deposit => 0,
            PoolStatusBitIndex::Withdraw => 1,
            PoolStatusBitIndex::SwapBaseIn => 2,
            PoolStatusBitIndex::SwapBaseOut => 3,
        };
        self.status & (1u8 << idx) == 0
    }

    /// Effective trading balances: the gross vault balances with the
    /// withheld protocol and fund fees excluded. The curve always consumes
    /// these, never the raw balances.
    pub fn vault_amount_without_fee(&self, vault_0: u64, vault_1: u64) -> (r: (u64, u64))
        requires
            self.spec_fees_covered(vault_0 as int, vault_1 as int),
        ensures
            r.0 == self.spec_vault_0_without_fee(vault_0 as int),
            r.1 == self.spec_vault_1_without_fee(vault_1 as int),
    {
        (
            vault_0 - (self.protocol_fees_token_0 + self.fund_fees_token_0),
            vault_1 - (self.protocol_fees_token_1 + self.fund_fees_token_1),
        )
    }

    /// Sets up a freshly created pool: the given authority bump, supply and
    /// open time, every gate enabled, and all fee and volume counters zero.
    pub fn initialize(&mut self, auth_bump: u8, lp_supply: u64, open_time: u64)
        ensures
            *final(self) == (PoolState {
                auth_bump,
                status: 0u8,
                lp_supply,
                open_time,
                protocol_fees_token_0: 0u64,
                protocol_fees_token_1: 0u64,
                fund_fees_token_0: 0u64,
                fund_fees_token_1: 0u64,
                swap_in_amount_token_0: 0u128,
                swap_out_amount_token_1: 0u128,
                swap_in_amount_token_1: 0u128,
                swap_out_amount_token_0: 0u128,
            }),
    {
        self.auth_bump = auth_bump;
        self.status = 0;
        self.lp_supply = lp_supply;
        self.open_time = open_time;
        self.protocol_fees_token_0 = 0;
        self.protocol_fees_token_1 = 0;
        self.fund_fees_token_0 = 0;
        self.fund_fees_token_1 = 0;
        self.swap_in_amount_token_0 = 0;
        self.swap_out_amount_token_1 = 0;
        self.swap_in_amount_token_1 = 0;
        self.swap_out_amount_token_0 = 0;
    }
}

/// Record of a supply-changing operation, handed to the caller to emit.
///
/// The pool's own identifier is an account concern: the caller attaches it
/// when emitting. `change_type` is 0 for a deposit and 1 for a withdrawal.
#[derive(Clone, Copy, Debug, PartialEq, Eq, Structural)]
pub struct LpChangeEvent {
    pub lp_amount_before: u64,
    pub token_0_vault_before: u64,
    pub token_1_vault_before: u64,
    pub token_0_amount: u64,
    pub token_1_amount: u64,
    pub token_0_transfer_fee: u64,
    pub token_1_transfer_fee: u64,
    pub change_type: u8,
}

} // verus!
