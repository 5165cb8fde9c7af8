//! The messages that create, drive and question a strategy.

use vstd::prelude::*;
use crate::types::{CoinWeight, Decimal, Duration, StrategyType};

verus! {

/// What creates a strategy. The coins sent along are its deposit.
#[derive(Clone, Debug, PartialEq, Eq)]
pub struct InstantiateMsg {
    pub recipient_address: String,
    /// Who may start a cycle; the sender where none is named.
    pub executor_address: Option<String>,
    pub strategy_type: StrategyType,
    pub amount_per_trade: u128,
    pub num_trades: u128,
    pub swap_interval: Duration,
    /// The assets to buy, each with its share.
    pub destinations: Vec<CoinWeight>,
    /// The same for every swap.
    pub max_slippage: Decimal,
    pub twap_window_seconds: u64,
    pub router_contract: String,
    pub source_denom: String,
    /// Paid once, in the source asset, out of the deposit.
    pub platform_fee: u128,
    pub platform_fee_recipient: String,
}

impl InstantiateMsg {
    /// The deposit that the message asks for: every trade's amount, and the
    /// fee.
    pub open spec fn expected_deposit(self) -> int {
        self.amount_per_trade * self.num_trades + self.platform_fee
    }

    /// The deposit that the message asks for, where `u128` holds it.
    pub fn expected_funds(&self) -> (funds: Option<u128>)
        ensures
            match funds {
                Some(f) => f == self.expected_deposit(),
                None => self.expected_deposit() > u128::MAX,
            },
    {
        match self.amount_per_trade.checked_mul(self.num_trades) {
            Some(trades) => trades.checked_add(self.platform_fee),
            None => {
                assert(self.amount_per_trade * self.num_trades + self.platform_fee > u128::MAX);
                None
            },
        }
    }
}

/// What a strategy can be asked to do.
#[derive(Clone, Copy, Debug, PartialEq, Eq, Structural)]
pub enum ExecuteMsg {
    /// Start the cycle that is due.
    PerformDca {},
    PauseDca {},
    ResumeDca {},
    /// Hand everything held back to the owner.
    CancelDca {},
}

/// What a strategy can be asked about.
#[derive(Clone, Copy, Debug, PartialEq, Eq, Structural)]
pub enum QueryMsg {
    /// The next swap to come.
    GetUpcomingSwap {},
    /// All the swaps to come.
    GetAllUpcomingSwaps {},
    /// What is held of the source asset.
    GetSourceFunds,
    /// What is held of the source asset and of the destinations.
    GetAllFunds {},
    Config {},
    State {},
}

/// The answer to a question for a count.
#[derive(Clone, Copy, Debug, PartialEq, Eq, Structural)]
pub struct GetCountResponse {
    pub count: i32,
}

} // verus!
