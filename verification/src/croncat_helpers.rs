//! What the strategy works out for the service that calls it on schedule.

use vstd::prelude::*;
use crate::host::generic_err;
use crate::response::{
    find_event, find_value, first_event, first_value, SubMsgResponse, SubMsgResponseView,
};
use crate::types::{Coin, CoinView, DcaConfig, DcaConfigView};

verus! {

/// What the service takes for one trade, in the source asset.
pub const FUNDING_PER_TRADE: u128 = 10866;

/// What the service is to be funded with for all the trades of `config`.
pub open spec fn estimated_funding(config: DcaConfigView) -> Seq<CoinView> {
    seq![
        CoinView {
            denom: config.source_denom,
            amount: (config.num_trades * FUNDING_PER_TRADE) as u128,
        },
    ]
}

/// What the service is to be funded with for all the trades of `config`:
/// a fixed amount of the source asset for each. The coins at hand, `_coin`,
/// do not bear on it.
pub fn estimate_croncat_funding(_coin: Vec<Coin>, config: &DcaConfig) -> (funding: Vec<Coin>)
    requires
        config.num_trades * FUNDING_PER_TRADE <= u128::MAX,
    ensures
        funding.deep_view() == estimated_funding(config@),
{
    let mut funding: Vec<Coin> = Vec::new();
    funding.push(
        Coin { denom: config.source_denom.clone(), amount: config.num_trades * FUNDING_PER_TRADE },
    );
    assert(funding.deep_view() =~= estimated_funding(config@));
    funding
}

/// What the service asks for `num_trades` calls, where it takes
/// `agent_fee` once and `gas_price` for each call.
pub open spec fn croncat_funding(agent_fee: CoinView, gas_price: u64, num_trades: u128) -> int {
    agent_fee.amount + gas_price * num_trades
}

/// What the service is to be funded with for `num_trades` calls: its
/// agent's fee, and the price of gas for each call, in the asset of the fee.
pub fn calculate_croncat_funding(agent_fee: Coin, gas_price: u64, num_trades: u128) -> (funding:
    Vec<Coin>)
    requires
        croncat_funding(agent_fee@, gas_price, num_trades) <= u128::MAX,
    ensures
        funding.deep_view() == seq![
            CoinView {
                denom: agent_fee@.denom,
                amount: croncat_funding(agent_fee@, gas_price, num_trades) as u128,
            },
        ],
{
    assert(gas_price * num_trades <= u128::MAX) by (nonlinear_arith)
        requires
            agent_fee.amount + gas_price * num_trades <= u128::MAX,
    ;
    let croncat_fee = agent_fee.amount + (gas_price as u128) * num_trades;
    let mut funding: Vec<Coin> = Vec::new();
    funding.push(Coin { denom: agent_fee.denom, amount: croncat_fee });
    assert(funding.deep_view() =~= seq![
        CoinView { denom: agent_fee@.denom, amount: croncat_fee },
    ]);
    funding
}

/// The hash of the task that the service's report `response` tells of: the
/// value under `task_hash` of the report's first `wasm` event.
pub open spec fn task_hash(response: SubMsgResponseView) -> Option<Seq<char>> {
    match first_event(response.events, "wasm"@) {
        Some(event) => first_value(event.attributes, "task_hash"@),
        None => None,
    }
}

/// Reads the hash of the task that the service has made out of its report:
/// see [`task_hash`]. A report that names none is an error.
pub fn extract_croncat_task_hash(reply_msg: SubMsgResponse) -> (r: Result<
    String,
    cosmwasm_std::StdError,
>)
    ensures
        match r {
            Ok(hash) => task_hash(reply_msg@) == Some(hash@),
            Err(_) => task_hash(reply_msg@) is None,
        },
{
    let event = match find_event(&reply_msg.events, "wasm") {
        Some(i) => &reply_msg.events[i],
        None => {
            return Err(
                generic_err("CRITICAL: no wasm event found in croncat create task response"),
            );
        },
    };
    match find_value(&event.attributes, "task_hash") {
        Some(value) => Ok(value.clone()),
        None => Err(
            generic_err(
                "CRITICAL: no task_hash attribute found in croncat create task response",
            ),
        ),
    }
}

} // verus!
