//! What a strategy can be asked about.

use vstd::prelude::*;
use crate::execute::{deals_in, is_tracked};
use crate::helpers::{get_expiration_time, spec_get_expiration_time};
use crate::host::{expiration_is_expired, spec_is_expired};
use crate::types::{Coin, CoinView, DcaConfig, DcaConfigView, Env, State, UpcomingSwapResponse};

verus! {

/// When the next swap is allowed, in whole seconds since the epoch, and
/// whether its time has come at the block of `env`.
pub fn query_upcoming_swap(state: &State, env: &Env) -> (r: UpcomingSwapResponse)
    ensures
        r == (UpcomingSwapResponse {
            next_swap: spec_get_expiration_time(state.next_swap),
            can_execute: spec_is_expired(state.next_swap, env.block),
        }),
{
    UpcomingSwapResponse {
        next_swap: get_expiration_time(state.next_swap),
        can_execute: expiration_is_expired(state.next_swap, &env.block),
    }
}

/// The swaps to come after the next one. None is worked out ahead of its
/// time: the list is empty.
pub fn query_all_upcoming_swaps(config: &DcaConfig, state: &State, env: &Env) -> (r: Vec<
    UpcomingSwapResponse,
>)
    requires
        state.num_trades_executed <= config.num_trades,
    ensures
        r@.len() == 0,
{
    Vec::new()
}

/// The coins among `balances` of the assets that the strategy of `config`
/// deals in, its source and its destinations, in their order.
pub open spec fn tracked_funds(config: DcaConfigView, balances: Seq<CoinView>) -> Seq<CoinView> {
    balances.filter(|coin: CoinView| is_tracked(config, coin.denom))
}

/// What the strategy's account holds of its source and of its
/// destinations, where `balances` is all that the account holds.
pub fn query_funds(config: &DcaConfig, balances: &Vec<Coin>) -> (r: Vec<Coin>)
    ensures
        r.deep_view() == tracked_funds(config@, balances.deep_view()),
{
    let ghost view = balances.deep_view();
    let mut coins: Vec<Coin> = Vec::new();
    proof {
        reveal(Seq::filter);
    }
    let mut i: usize = 0;
    while i < balances.len()
        invariant
            i <= balances.len(),
            view == balances.deep_view(),
            coins.deep_view() =~= tracked_funds(config@, view.take(i as int)),
        decreases balances.len() - i,
    {
        proof {
            reveal(Seq::filter);
            assert(view.take(i + 1).drop_last() =~= view.take(i as int));
        }
        let coin = &balances[i];
        if deals_in(config, &coin.denom) {
            let ghost before = coins.deep_view();
            coins.push(coin.clone());
            assert(coins.deep_view() =~= before.push(coin@));
        }
        i += 1;
    }
    proof {
        assert(view.take(i as int) =~= view);
    }
    coins
}

} // verus!
