//! Plain data shared by every operation of the strategy, each with the
//! mathematical model that the contracts speak of.

use vstd::prelude::*;
use crate::host::{
    after_fits, decimal_from_ratio, duration_after, expiration_is_expired, expiration_plus,
    plus_fits, spec_after, spec_decimal_from_ratio, spec_is_expired, spec_plus,
};

verus! {

/// Nanoseconds in one second.
pub const NANOS_PER_SECOND: u64 = 1_000_000_000;

/// A point in time, in nanoseconds since the Unix epoch.
#[derive(Clone, Copy, Debug, PartialEq, Eq, Structural)]
pub struct Timestamp {
    pub nanos: u64,
}

impl Timestamp {
    /// The time `nanos` nanoseconds after the epoch.
    pub fn from_nanos(nanos: u64) -> (t: Timestamp)
        ensures
            t.nanos == nanos,
    {
        Timestamp { nanos }
    }

    /// The time `seconds` seconds after the epoch.
    pub fn from_seconds(seconds: u64) -> (t: Timestamp)
        requires
            seconds * NANOS_PER_SECOND <= u64::MAX,
        ensures
            t.nanos == seconds * NANOS_PER_SECOND,
    {
        Timestamp { nanos: seconds * NANOS_PER_SECOND }
    }

    /// Nanoseconds since the epoch.
    pub fn nanos(&self) -> (n: u64)
        ensures
            n == self.nanos,
    {
        self.nanos
    }

    /// Whole seconds since the epoch.
    pub fn seconds(&self) -> (s: u64)
        ensures
            s == self.nanos / NANOS_PER_SECOND,
    {
        self.nanos / NANOS_PER_SECOND
    }
}

/// The block in which a call runs: the strategy's notion of "now".
#[derive(Clone, Debug, PartialEq, Eq)]
pub struct BlockInfo {
    pub height: u64,
    pub time: Timestamp,
    pub chain_id: String,
}

/// What the host tells a call about its surroundings.
#[derive(Clone, Debug, PartialEq, Eq)]
pub struct Env {
    pub block: BlockInfo,
    /// Address of the strategy's own account.
    pub contract_address: String,
}

/// Who called, and what was sent along.
#[derive(Clone, Debug, PartialEq, Eq)]
pub struct MessageInfo {
    pub sender: String,
    pub funds: Vec<Coin>,
}

/// A span between two eligibility windows, counted in blocks or in seconds.
#[derive(Clone, Copy, Debug, PartialEq, Eq, Structural)]
pub enum Duration {
    Height(u64),
    /// Time in seconds.
    Time(u64),
}

impl Duration {
    /// The count that the span holds, whatever its unit.
    pub open spec fn spec_value(self) -> u64 {
        match self {
            Duration::Height(h) => h,
            Duration::Time(t) => t,
        }
    }

    /// The count that the span holds, whatever its unit.
    #[verifier::when_used_as_spec(spec_value)]
    pub fn value(self) -> (v: u64)
        ensures
            v == self.spec_value(),
    {
        match self {
            Duration::Height(h) => h,
            Duration::Time(t) => t,
        }
    }

    /// Whether `block` leaves room to count the span onwards from it.
    pub fn fits_after(&self, block: &BlockInfo) -> (fits: bool)
        ensures
            fits == after_fits(*self, *block),
    {
        match self {
            Duration::Height(h) => block.height.checked_add(*h).is_some(),
            Duration::Time(t) => match t.checked_mul(NANOS_PER_SECOND) {
                Some(nanos) => block.time.nanos.checked_add(nanos).is_some(),
                None => false,
            },
        }
    }

    /// The point that lies this span after `block`.
    pub fn after(&self, block: &BlockInfo) -> (e: Expiration)
        requires
            after_fits(*self, *block),
        ensures
            e == spec_after(*self, *block),
    {
        duration_after(*self, block)
    }
}

/// A point from which something is allowed: a block height, a time, or never.
#[derive(Clone, Copy, Debug, PartialEq, Eq, Structural)]
pub enum Expiration {
    /// Reached once the block height is at least this.
    AtHeight(u64),
    /// Reached once the block time is at least this.
    AtTime(Timestamp),
    /// Never reached.
    Never {},
}

impl Expiration {
    /// Whether the point has been reached at `block`.
    pub fn is_expired(&self, block: &BlockInfo) -> (expired: bool)
        ensures
            expired == spec_is_expired(*self, *block),
    {
        expiration_is_expired(*self, block)
    }

    /// Whether there is room to move the point on by `d`.
    pub fn fits_plus(&self, d: Duration) -> (fits: bool)
        ensures
            fits == plus_fits(*self, d),
    {
        match (self, d) {
            (Expiration::AtTime(t), Duration::Time(s)) => match s.checked_mul(NANOS_PER_SECOND) {
                Some(nanos) => t.nanos.checked_add(nanos).is_some(),
                None => false,
            },
            (Expiration::AtHeight(h), Duration::Height(k)) => h.checked_add(k).is_some(),
            _ => true,
        }
    }

    /// The point moved on by `d`: a time by a span in seconds, a height by
    /// a span in blocks. A point that `d` cannot move, `Never` or one
    /// counted in the other unit, stays where it is.
    pub fn plus(&self, d: Duration) -> (e: Expiration)
        requires
            plus_fits(*self, d),
        ensures
            e == spec_plus(*self, d),
    {
        match expiration_plus(*self, d) {
            Ok(moved) => moved,
            Err(_) => *self,
        }
    }
}

/// A non-negative decimal with 18 fractional digits, held as its count of
/// 10^-18 units.
#[derive(Clone, Copy, Debug, PartialEq, Eq, Structural)]
pub struct Decimal {
    pub atomics: u128,
}

impl Decimal {
    /// The decimal `numerator / denominator`, rounded down to 18 fractional
    /// digits; `None` where the denominator is zero or the result does not
    /// fit.
    pub fn checked_from_ratio(numerator: u128, denominator: u128) -> (d: Option<Decimal>)
        ensures
            d == spec_decimal_from_ratio(numerator, denominator),
    {
        decimal_from_ratio(numerator, denominator)
    }

    /// The decimal `numerator / denominator`, rounded down to 18 fractional
    /// digits.
    pub fn from_ratio(numerator: u128, denominator: u128) -> (d: Decimal)
        requires
            spec_decimal_from_ratio(numerator, denominator) is Some,
        ensures
            Some(d) == spec_decimal_from_ratio(numerator, denominator),
    {
        decimal_from_ratio(numerator, denominator).unwrap()
    }
}

/// The shape of the purchase curve.
#[derive(Clone, Copy, Debug, PartialEq, Eq, Structural)]
pub enum StrategyType {
    /// The same amount in every trade.
    Linear,
}

/// An amount of one asset.
#[derive(Debug, PartialEq, Eq)]
pub struct Coin {
    pub denom: String,
    pub amount: u128,
}

/// The model of a [`Coin`].
pub struct CoinView {
    pub denom: Seq<char>,
    pub amount: u128,
}

impl DeepView for Coin {
    type V = CoinView;

    open spec fn deep_view(&self) -> CoinView {
        CoinView { denom: self.denom@, amount: self.amount }
    }
}

impl View for Coin {
    type V = CoinView;

    open spec fn view(&self) -> CoinView {
        self.deep_view()
    }
}

impl Clone for Coin {
    fn clone(&self) -> (c: Self)
        ensures
            c@ == self@,
    {
        Coin { denom: self.denom.clone(), amount: self.amount }
    }
}

impl Coin {
    /// `amount` units of `denom`.
    pub fn new(amount: u128, denom: &str) -> (c: Coin)
        ensures
            c@ == (CoinView { denom: denom@, amount }),
    {
        Coin { denom: denom.to_owned(), amount }
    }
}

/// A destination asset and its share of each trade, relative to the other
/// destinations.
#[derive(Debug, PartialEq, Eq)]
pub struct CoinWeight {
    pub denom: String,
    pub weight: u128,
}

/// The model of a [`CoinWeight`].
pub struct CoinWeightView {
    pub denom: Seq<char>,
    pub weight: u128,
}

impl DeepView for CoinWeight {
    type V = CoinWeightView;

    open spec fn deep_view(&self) -> CoinWeightView {
        CoinWeightView { denom: self.denom@, weight: self.weight }
    }
}

impl View for CoinWeight {
    type V = CoinWeightView;

    open spec fn view(&self) -> CoinWeightView {
        self.deep_view()
    }
}

impl Clone for CoinWeight {
    fn clone(&self) -> (c: Self)
        ensures
            c@ == self@,
    {
        CoinWeight { denom: self.denom.clone(), weight: self.weight }
    }
}

/// The outcome of one leg of a cycle.
#[derive(Clone, Debug, PartialEq, Eq)]
pub struct SwapEvent {
    /// Whether the router reported the swap as done.
    pub executed: bool,
    /// What was offered.
    pub token_in: Option<Coin>,
    /// What was received; absent where the leg failed.
    pub effective_token_out: Option<Coin>,
    /// Block time at which the outcome was recorded.
    pub timestamp_nanos: u64,
}

/// The model of a [`SwapEvent`].
pub struct SwapEventView {
    pub executed: bool,
    pub token_in: Option<CoinView>,
    pub effective_token_out: Option<CoinView>,
    pub timestamp_nanos: u64,
}

impl DeepView for SwapEvent {
    type V = SwapEventView;

    open spec fn deep_view(&self) -> SwapEventView {
        SwapEventView {
            executed: self.executed,
            token_in: self.token_in.deep_view(),
            effective_token_out: self.effective_token_out.deep_view(),
            timestamp_nanos: self.timestamp_nanos,
        }
    }
}

impl View for SwapEvent {
    type V = SwapEventView;

    open spec fn view(&self) -> SwapEventView {
        self.deep_view()
    }
}

impl SwapEventView {
    /// The record of a leg that failed, taken at `timestamp_nanos`.
    pub open spec fn failed(timestamp_nanos: u64) -> SwapEventView {
        SwapEventView {
            executed: false,
            token_in: None,
            effective_token_out: None,
            timestamp_nanos,
        }
    }

    /// A leg counts towards the payout exactly when it is marked executed
    /// and names what was received.
    pub open spec fn pays(self) -> bool {
        self.executed && self.effective_token_out is Some
    }
}

/// The mutable progress of a strategy.
#[derive(Clone, Debug, PartialEq, Eq)]
pub struct State {
    /// The earliest point at which the next cycle may start.
    pub next_swap: Expiration,
    /// Whether the owner has paused the strategy.
    pub paused: bool,
    /// Cycles settled so far.
    pub num_trades_executed: u128,
    /// Outcomes of the current cycle's legs, in order of arrival; empty
    /// between cycles.
    pub swap_status: Vec<SwapEvent>,
}

/// The model of a [`State`].
pub struct StateView {
    pub next_swap: Expiration,
    pub paused: bool,
    pub num_trades_executed: u128,
    pub swap_status: Seq<SwapEventView>,
}

impl DeepView for State {
    type V = StateView;

    open spec fn deep_view(&self) -> StateView {
        StateView {
            next_swap: self.next_swap,
            paused: self.paused,
            num_trades_executed: self.num_trades_executed,
            swap_status: self.swap_status.deep_view(),
        }
    }
}

impl View for State {
    type V = StateView;

    open spec fn view(&self) -> StateView {
        self.deep_view()
    }
}

/// The parameters of a strategy, fixed when it is created.
#[derive(Clone, Debug, PartialEq, Eq)]
pub struct DcaConfig {
    /// Who may pause, resume and cancel.
    pub owner: String,
    /// Who receives what the swaps bring.
    pub recipient_address: String,
    /// Who may start a cycle.
    pub executor_address: String,
    pub strategy_type: StrategyType,
    /// Source units spent per cycle.
    pub amount_per_trade: u128,
    /// Cycles to run in all.
    pub num_trades: u128,
    pub swap_interval: Duration,
    pub source_denom: String,
    pub destinations: Vec<CoinWeight>,
    /// Slippage bound handed to the router with every swap.
    pub max_slippage: Decimal,
    /// Window over which the router averages its reference price.
    pub twap_window_seconds: u64,
    pub router_contract: String,
}

/// The model of a [`DcaConfig`].
pub struct DcaConfigView {
    pub owner: Seq<char>,
    pub recipient_address: Seq<char>,
    pub executor_address: Seq<char>,
    pub strategy_type: StrategyType,
    pub amount_per_trade: u128,
    pub num_trades: u128,
    pub swap_interval: Duration,
    pub source_denom: Seq<char>,
    pub destinations: Seq<CoinWeightView>,
    pub max_slippage: Decimal,
    pub twap_window_seconds: u64,
    pub router_contract: Seq<char>,
}

impl DeepView for DcaConfig {
    type V = DcaConfigView;

    open spec fn deep_view(&self) -> DcaConfigView {
        DcaConfigView {
            owner: self.owner@,
            recipient_address: self.recipient_address@,
            executor_address: self.executor_address@,
            strategy_type: self.strategy_type,
            amount_per_trade: self.amount_per_trade,
            num_trades: self.num_trades,
            swap_interval: self.swap_interval,
            source_denom: self.source_denom@,
            destinations: self.destinations.deep_view(),
            max_slippage: self.max_slippage,
            twap_window_seconds: self.twap_window_seconds,
            router_contract: self.router_contract@,
        }
    }
}

impl View for DcaConfig {
    type V = DcaConfigView;

    open spec fn view(&self) -> DcaConfigView {
        self.deep_view()
    }
}

/// When the next swap is allowed, and whether that is now.
#[derive(Clone, Copy, Debug, PartialEq, Eq, Structural)]
pub struct UpcomingSwapResponse {
    pub next_swap: u64,
    pub can_execute: bool,
}

/// The sum of the weights of `destinations`.
pub open spec fn total_weight(destinations: Seq<CoinWeightView>) -> nat
    decreases destinations.len(),
{
    if destinations.len() == 0 {
        0
    } else {
        total_weight(destinations.drop_last()) + destinations.last().weight as nat
    }
}

/// Whether `denom` is the denom of one of `destinations`.
pub open spec fn is_destination(destinations: Seq<CoinWeightView>, denom: Seq<char>) -> bool {
    exists|i: int| 0 <= i < destinations.len() && #[trigger] destinations[i].denom == denom
}

/// Whether no two of `destinations` share a denom.
pub open spec fn distinct_denoms(destinations: Seq<CoinWeightView>) -> bool {
    forall|i: int, j: int|
        0 <= i < j < destinations.len() ==> #[trigger] destinations[i].denom
            != #[trigger] destinations[j].denom
}

} // verus!
