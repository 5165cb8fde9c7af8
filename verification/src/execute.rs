//! What the executor and the owner can make a strategy do.

use vstd::prelude::*;
use crate::error::{ContractError, ContractErrorView};
use crate::helpers::{get_expiration_time, spec_get_expiration_time};
use crate::host::{
    after_fits, duration_after, expiration_is_expired, multiply_ratio, spec_after,
    spec_is_expired,
};
use crate::response::{
    transfer, Attribute, AttributeView, CosmosMsg, CosmosMsgView, ReplyOn, Response, ResponseView,
    SubMsg, SubMsgView, WasmMsg, DCA_SWAP_ID,
};
use crate::text::{decimal_string, decimal_text};
use crate::swaprouter::{ExecuteMsg, ExecuteMsgView, Slippage};
use crate::types::{
    is_destination, total_weight, BlockInfo, Coin, CoinView, CoinWeight, CoinWeightView,
    DcaConfig, DcaConfigView, Env, MessageInfo, State, StateView,
};

verus! {

/// Whether a cycle may start at `block`: the strategy is not paused, has
/// trades left, and its next swap has come.
pub open spec fn spec_is_due(state: StateView, config: DcaConfigView, block: BlockInfo) -> bool {
    &&& !state.paused
    &&& state.num_trades_executed < config.num_trades
    &&& spec_is_expired(state.next_swap, block)
}

/// Whether a cycle may start at `block`: the strategy is not paused, has
/// trades left, and its next swap has come.
pub fn is_due(state: &State, config: &DcaConfig, block: &BlockInfo) -> (due: bool)
    ensures
        due == spec_is_due(state@, config@, *block),
{
    !state.paused && state.num_trades_executed < config.num_trades && state.next_swap.is_expired(
        block,
    )
}

/// The sum of the weights of a prefix is at most that of the whole.
proof fn lemma_total_weight_prefix(destinations: Seq<CoinWeightView>, n: int)
    requires
        0 <= n <= destinations.len(),
    ensures
        total_weight(destinations.take(n)) <= total_weight(destinations),
        n < destinations.len() ==> total_weight(destinations.take(n + 1)) == total_weight(
            destinations.take(n),
        ) + destinations[n].weight,
    decreases destinations.len() - n,
{
    if n < destinations.len() {
        assert(destinations.take(n + 1).drop_last() =~= destinations.take(n));
        lemma_total_weight_prefix(destinations, n + 1);
    } else {
        assert(destinations.take(n) =~= destinations);
    }
}

/// The sum of the weights of `destinations`, where `u128` holds it.
pub fn total_weight_of(destinations: &Vec<CoinWeight>) -> (total: Option<u128>)
    ensures
        match total {
            Some(t) => t == total_weight(destinations.deep_view()),
            None => total_weight(destinations.deep_view()) > u128::MAX,
        },
{
    let ghost view = destinations.deep_view();
    let mut sum: u128 = 0;
    let mut i: usize = 0;
    while i < destinations.len()
        invariant
            i <= destinations.len(),
            view == destinations.deep_view(),
            sum == total_weight(view.take(i as int)),
        decreases destinations.len() - i,
    {
        proof {
            lemma_total_weight_prefix(view, i as int);
            lemma_total_weight_prefix(view, i + 1);
        }
        match sum.checked_add(destinations[i].weight) {
            Some(s) => {
                sum = s;
            },
            None => {
                return None;
            },
        }
        i += 1;
    }
    proof {
        assert(view.take(i as int) =~= view);
    }
    Some(sum)
}

/// The share of `amount_per_trade` that goes to a destination of `weight`
/// among destinations of `total` weight in all: the amount times the
/// weight, divided by the total and rounded down. It is zero where `total`
/// is zero.
pub open spec fn trade_amount(weight: u128, amount_per_trade: u128, total: nat) -> u128 {
    if total == 0 {
        0
    } else {
        (weight * amount_per_trade / (total as int)) as u128
    }
}

/// No weight is above the sum of the weights.
pub proof fn lemma_weight_in_total(destinations: Seq<CoinWeightView>, i: int)
    requires
        0 <= i < destinations.len(),
    ensures
        destinations[i].weight <= total_weight(destinations),
    decreases destinations.len(),
{
    if i < destinations.len() - 1 {
        lemma_weight_in_total(destinations.drop_last(), i);
    }
}

/// A share is never above the amount that is shared out.
pub proof fn lemma_share_fits(weight: u128, amount_per_trade: u128, total: nat)
    requires
        0 < total,
        weight <= total,
    ensures
        weight * amount_per_trade / (total as int) <= amount_per_trade,
{
    let w = weight as int;
    let a = amount_per_trade as int;
    let t = total as int;
    assert(w * a <= t * a) by (nonlinear_arith)
        requires
            w <= t,
            0 <= a,
    ;
    vstd::arithmetic::div_mod::lemma_div_is_ordered(w * a, t * a, t);
    vstd::arithmetic::div_mod::lemma_div_multiples_vanish(a, t);
    assert(t * a == a * t) by (nonlinear_arith);
}

/// The swap of the `i`-th destination of `config`: its share of the
/// trade's amount is sent to the router, to be traded for the
/// destination's asset within the strategy's slippage bound, measured
/// against the price averaged over the strategy's window.
pub open spec fn swap_order(config: DcaConfigView, i: int) -> SubMsgView {
    let destination = config.destinations[i];
    let input_coin = CoinView {
        denom: config.source_denom,
        amount: trade_amount(
            destination.weight,
            config.amount_per_trade,
            total_weight(config.destinations),
        ),
    };
    SubMsgView {
        id: DCA_SWAP_ID,
        msg: CosmosMsgView::Execute {
            contract_addr: config.router_contract,
            msg: ExecuteMsgView::Swap {
                input_coin,
                output_denom: destination.denom,
                slippage: Slippage::Twap {
                    window_seconds: Some(config.twap_window_seconds),
                    slippage_percentage: config.max_slippage,
                },
            },
            funds: seq![input_coin],
        },
        reply_on: ReplyOn::Always,
    }
}

/// The swaps of one cycle: one for each destination, in their order.
pub open spec fn swap_orders(config: DcaConfigView) -> Seq<SubMsgView> {
    Seq::new(config.destinations.len(), |i: int| swap_order(config, i))
}

/// Why `sender` may not start a cycle at `block`; `None` where it may.
pub open spec fn perform_refusal(
    config: DcaConfigView,
    state: StateView,
    block: BlockInfo,
    sender: Seq<char>,
) -> Option<ContractErrorView> {
    if config.executor_address != sender {
        Some(ContractErrorView::Unauthorized)
    } else if state.paused {
        Some(ContractErrorView::DcaPaused)
    } else if state.num_trades_executed >= config.num_trades {
        Some(ContractErrorView::MaxTradeLimit)
    } else if !spec_is_expired(state.next_swap, block) {
        Some(
            ContractErrorView::DcaSwapNotAllowedYet {
                next_swap_event_time: spec_get_expiration_time(state.next_swap),
            },
        )
    } else {
        None
    }
}

/// What a call by `sender` to start a cycle at `block` comes to.
pub open spec fn spec_try_perform_dca(
    config: DcaConfigView,
    state: StateView,
    block: BlockInfo,
    sender: Seq<char>,
) -> Result<ResponseView, ContractErrorView> {
    match perform_refusal(config, state, block, sender) {
        Some(e) => Err(e),
        None => Ok(ResponseView::of("try_perform_dca"@, swap_orders(config))),
    }
}

/// The model of what an operation comes to.
pub open spec fn outcome_view(r: Result<Response, ContractError>) -> Result<
    ResponseView,
    ContractErrorView,
> {
    match r {
        Ok(response) => Ok(response@),
        Err(e) => Err(e@),
    }
}

/// Whether a call by `sender` to start a cycle at `block` stays within the
/// numbers that the machine holds: where a cycle starts, the weights must
/// sum to a `u128`.
pub open spec fn perform_fits(
    config: DcaConfigView,
    state: StateView,
    block: BlockInfo,
    sender: Seq<char>,
) -> bool {
    perform_refusal(config, state, block, sender) is None ==> total_weight(config.destinations)
        <= u128::MAX
}

/// Why `info` may not start a cycle at the block of `env`, if it may not.
fn refuse_perform(config: &DcaConfig, state: &State, env: &Env, info: &MessageInfo) -> (r: Option<
    ContractError,
>)
    ensures
        r.deep_view() == perform_refusal(config@, state@, env.block, info.sender@),
{
    if config.executor_address != info.sender {
        Some(ContractError::Unauthorized {  })
    } else if state.paused {
        Some(ContractError::DcaPaused)
    } else if state.num_trades_executed >= config.num_trades {
        Some(ContractError::MaxTradeLimit {  })
    } else if !expiration_is_expired(state.next_swap, &env.block) {
        Some(
            ContractError::DcaSwapNotAllowedYet {
                next_swap_event_time: get_expiration_time(state.next_swap),
            },
        )
    } else {
        None
    }
}

/// Starts the cycle that is due as [`try_perform_dca`] does, wherever the
/// numbers fit; `None` where they do not.
pub fn checked_perform_dca(
    config: &DcaConfig,
    state: &State,
    env: &Env,
    info: &MessageInfo,
) -> (r: Option<Result<Response, ContractError>>)
    ensures
        r is None <==> !perform_fits(config@, state@, env.block, info.sender@),
        r matches Some(done) ==> outcome_view(done) == spec_try_perform_dca(
            config@,
            state@,
            env.block,
            info.sender@,
        ),
{
    match refuse_perform(config, state, env, info) {
        Some(e) => Some(Err(e)),
        None => match total_weight_of(&config.destinations) {
            Some(_) => Some(try_perform_dca(config, state, env, info)),
            None => None,
        },
    }
}

/// Starts the cycle that is due: hands back one swap for each destination,
/// all under the one id [`DCA_SWAP_ID`], each carrying the destination's
/// share of the trade's amount.
///
/// Only the executor may call; the strategy must not be paused, must have
/// trades left, and its next swap must have come. The first of these that
/// fails is reported. The state is left as it is: the outcomes of the swaps
/// are taken in as they arrive.
pub fn try_perform_dca(config: &DcaConfig, state: &State, env: &Env, info: &MessageInfo) -> (r:
    Result<Response, ContractError>)
    requires
        perform_fits(config@, state@, env.block, info.sender@),
    ensures
        outcome_view(r) == spec_try_perform_dca(config@, state@, env.block, info.sender@),
{
    match refuse_perform(config, state, env, info) {
        Some(e) => {
            return Err(e);
        },
        None => {},
    }
    let total = total_weight_of(&config.destinations).unwrap();
    let mut messages: Vec<SubMsg> = Vec::new();
    let mut i: usize = 0;
    while i < config.destinations.len()
        invariant
            i <= config.destinations.len(),
            total == total_weight(config@.destinations),
            messages.deep_view() =~= Seq::new(i as nat, |k: int| swap_order(config@, k)),
        decreases config.destinations.len() - i,
    {
        let destination = &config.destinations[i];
        proof {
            lemma_weight_in_total(config@.destinations, i as int);
            if total > 0 {
                lemma_share_fits(destination.weight, config.amount_per_trade, total as nat);
            }
        }
        let amount = match multiply_ratio(destination.weight, config.amount_per_trade, total) {
            Some(share) => share,
            None => 0,
        };
        let mut funds: Vec<Coin> = Vec::new();
        funds.push(Coin { denom: config.source_denom.clone(), amount });
        let ghost input_coin = CoinView { denom: config@.source_denom, amount };
        assert(funds.deep_view() =~= seq![input_coin]);
        let order = SubMsg {
            id: DCA_SWAP_ID,
            msg: CosmosMsg::Wasm(
                WasmMsg::Execute {
                    contract_addr: config.router_contract.clone(),
                    msg: ExecuteMsg::Swap {
                        input_coin: Coin { denom: config.source_denom.clone(), amount },
                        output_denom: destination.denom.clone(),
                        slippage: Slippage::Twap {
                            window_seconds: Some(config.twap_window_seconds),
                            slippage_percentage: config.max_slippage,
                        },
                    },
                    funds,
                },
            ),
            reply_on: ReplyOn::Always,
        };
        assert(order@ == swap_order(config@, i as int));
        let ghost before = messages.deep_view();
        messages.push(order);
        assert(messages.deep_view() =~= before.push(swap_order(config@, i as int)));
        i += 1;
    }
    Ok(Response::of("try_perform_dca", messages))
}

/// What a call by `sender` to pause the strategy comes to, and the
/// progress it leaves. Only the owner may pause, and only a strategy that
/// is not paused yet.
pub open spec fn spec_pause_dca(config: DcaConfigView, state: StateView, sender: Seq<char>) -> (
    StateView,
    Result<ResponseView, ContractErrorView>,
) {
    if config.owner != sender {
        (state, Err(ContractErrorView::Unauthorized))
    } else if state.paused {
        (state, Err(ContractErrorView::DcaPaused))
    } else {
        (
            StateView { paused: true, ..state },
            Ok(ResponseView::of("pause_dca"@, Seq::empty())),
        )
    }
}

/// Pauses the strategy: no cycle starts until it is resumed. Only the owner
/// may pause, and only a strategy that is not paused yet; otherwise the
/// state is left as it is.
pub fn pause_dca(config: &DcaConfig, state: &mut State, info: &MessageInfo) -> (r: Result<
    Response,
    ContractError,
>)
    ensures
        (final(state)@, outcome_view(r)) == spec_pause_dca(config@, old(state)@, info.sender@),
{
    if config.owner != info.sender {
        return Err(ContractError::Unauthorized {  });
    }
    if state.paused {
        return Err(ContractError::DcaPaused);
    }
    state.paused = true;
    let messages: Vec<SubMsg> = Vec::new();
    assert(messages.deep_view() =~= Seq::empty());
    Ok(Response::of("pause_dca", messages))
}

/// The progress of a paused strategy after it was resumed at `block`. A
/// next swap whose time has come while the strategy was paused is put off
/// to one interval after `block`, so that no swap follows at once; one that
/// has not come yet stays where it is.
pub open spec fn resumed_state(
    config: DcaConfigView,
    state: StateView,
    block: BlockInfo,
) -> StateView {
    StateView {
        next_swap: if spec_is_expired(state.next_swap, block) {
            spec_after(config.swap_interval, block)
        } else {
            state.next_swap
        },
        paused: false,
        ..state
    }
}

/// Why `sender` may not resume the strategy; `None` where it may. Only the
/// owner may resume, and only a strategy that is paused.
pub open spec fn resume_refusal(
    config: DcaConfigView,
    state: StateView,
    sender: Seq<char>,
) -> Option<ContractErrorView> {
    if config.owner != sender {
        Some(ContractErrorView::Unauthorized)
    } else if !state.paused {
        Some(ContractErrorView::DcaNotPaused)
    } else {
        None
    }
}

/// What a call by `sender` to resume the strategy at `block` comes to, and
/// the progress it leaves.
pub open spec fn spec_resume_dca(
    config: DcaConfigView,
    state: StateView,
    block: BlockInfo,
    sender: Seq<char>,
) -> (StateView, Result<ResponseView, ContractErrorView>) {
    match resume_refusal(config, state, sender) {
        Some(e) => (state, Err(e)),
        None => {
            let resumed = resumed_state(config, state, block);
            (
                resumed,
                Ok(
                    ResponseView {
                        messages: Seq::empty(),
                        attributes: seq![
                            AttributeView { key: "method"@, value: "resume_dca"@ },
                            AttributeView {
                                key: "next_swap_time"@,
                                value: decimal_text(
                                    spec_get_expiration_time(resumed.next_swap) as nat,
                                ),
                            },
                        ],
                    },
                ),
            )
        },
    }
}

/// Whether a call by `sender` to resume the strategy at `block` stays
/// within the numbers that the machine holds: where the next swap is put
/// off, it must be a `u64`.
pub open spec fn resume_fits(
    config: DcaConfigView,
    state: StateView,
    block: BlockInfo,
    sender: Seq<char>,
) -> bool {
    resume_refusal(config, state, sender) is None && spec_is_expired(state.next_swap, block)
        ==> after_fits(config.swap_interval, block)
}

/// Why `info` may not resume the strategy, if it may not.
fn refuse_resume(config: &DcaConfig, state: &State, info: &MessageInfo) -> (r: Option<
    ContractError,
>)
    ensures
        r.deep_view() == resume_refusal(config@, state@, info.sender@),
{
    if config.owner != info.sender {
        Some(ContractError::Unauthorized {  })
    } else if !state.paused {
        Some(ContractError::DcaNotPaused)
    } else {
        None
    }
}

/// Resumes a paused strategy as [`resume_dca`] does, wherever the numbers
/// fit; `None`, and nothing changed, where they do not.
pub fn checked_resume_dca(
    config: &DcaConfig,
    state: &mut State,
    env: &Env,
    info: &MessageInfo,
) -> (r: Option<Result<Response, ContractError>>)
    ensures
        r is None <==> !resume_fits(config@, old(state)@, env.block, info.sender@),
        r is None ==> final(state)@ == old(state)@,
        r matches Some(done) ==> (final(state)@, outcome_view(done)) == spec_resume_dca(
            config@,
            old(state)@,
            env.block,
            info.sender@,
        ),
{
    match refuse_resume(config, state, info) {
        Some(e) => Some(Err(e)),
        None => {
            if !state.next_swap.is_expired(&env.block) || config.swap_interval.fits_after(
                &env.block,
            ) {
                Some(resume_dca(config, state, env, info))
            } else {
                None
            }
        },
    }
}

/// Resumes a paused strategy: see [`resumed_state`]. The response names the
/// time of the next swap. Only the owner may resume, and only a strategy
/// that is paused; otherwise the state is left as it is.
pub fn resume_dca(config: &DcaConfig, state: &mut State, env: &Env, info: &MessageInfo) -> (r:
    Result<Response, ContractError>)
    requires
        resume_fits(config@, old(state)@, env.block, info.sender@),
    ensures
        (final(state)@, outcome_view(r)) == spec_resume_dca(
            config@,
            old(state)@,
            env.block,
            info.sender@,
        ),
{
    match refuse_resume(config, state, info) {
        Some(e) => {
            return Err(e);
        },
        None => {},
    }
    if expiration_is_expired(state.next_swap, &env.block) {
        state.next_swap = duration_after(config.swap_interval, &env.block);
    }
    state.paused = false;
    let next_swap_time = decimal_string(get_expiration_time(state.next_swap) as u128);
    let mut attributes: Vec<Attribute> = Vec::new();
    attributes.push(Attribute::new("method", "resume_dca"));
    attributes.push(Attribute::new("next_swap_time", next_swap_time.as_str()));
    let response = Response { messages: Vec::new(), attributes };
    proof {
        let expected = spec_resume_dca(config@, old(state)@, env.block, info.sender@).1->Ok_0;
        assert(response@.messages =~= expected.messages);
        assert(response@.attributes =~= expected.attributes);
    }
    Ok(response)
}

/// Whether the strategy of `config` deals in `denom`: as its source, or as
/// one of its destinations.
pub open spec fn is_tracked(config: DcaConfigView, denom: Seq<char>) -> bool {
    denom == config.source_denom || is_destination(config.destinations, denom)
}

/// Whether the strategy of `config` deals in `denom`: as its source, or as
/// one of its destinations.
pub fn deals_in(config: &DcaConfig, denom: &String) -> (b: bool)
    ensures
        b == is_tracked(config@, denom@),
{
    if *denom == config.source_denom {
        return true;
    }
    let ghost view = config@.destinations;
    let mut i: usize = 0;
    while i < config.destinations.len()
        invariant
            i <= config.destinations.len(),
            view == config.destinations.deep_view(),
            forall|j: int| 0 <= j < i ==> #[trigger] view[j].denom != denom@,
        decreases config.destinations.len() - i,
    {
        if config.destinations[i].denom == *denom {
            assert(view[i as int].denom == denom@);
            return true;
        }
        i += 1;
    }
    false
}

/// Whether `coin` is something that the strategy of `config` holds: an
/// amount above zero of an asset that it deals in.
pub open spec fn is_holding(config: DcaConfigView, coin: CoinView) -> bool {
    coin.amount > 0 && is_tracked(config, coin.denom)
}

/// What the strategy of `config` holds among `balances`, in their order.
pub open spec fn holdings(config: DcaConfigView, balances: Seq<CoinView>) -> Seq<CoinView> {
    balances.filter(|coin: CoinView| is_holding(config, coin))
}

/// What a call by `sender` to cancel the strategy comes to, where
/// `balances` is what the strategy's account holds. Only the owner may
/// cancel, and only while the strategy holds something; all that it holds
/// then goes to the owner in one transfer.
pub open spec fn spec_try_cancel_dca(
    config: DcaConfigView,
    sender: Seq<char>,
    balances: Seq<CoinView>,
) -> Result<ResponseView, ContractErrorView> {
    if config.owner != sender {
        Err(ContractErrorView::Unauthorized)
    } else if holdings(config, balances).len() == 0 {
        Err(ContractErrorView::NoBalance)
    } else {
        Ok(
            ResponseView::of(
                "try_cancel_dca"@,
                seq![transfer(config.owner, holdings(config, balances))],
            ),
        )
    }
}

/// Cancels the strategy: hands back the transfer to the owner of all that
/// the strategy holds, of its source and of its destinations. `balances`
/// is what the host reports of the strategy's account. Swaps that are under
/// way are not called back.
pub fn try_cancel_dca(config: &DcaConfig, info: &MessageInfo, balances: &Vec<Coin>) -> (r: Result<
    Response,
    ContractError,
>)
    ensures
        outcome_view(r) == spec_try_cancel_dca(config@, info.sender@, balances.deep_view()),
{
    if config.owner != info.sender {
        return Err(ContractError::Unauthorized {  });
    }
    let ghost view = balances.deep_view();
    let mut coins: Vec<Coin> = Vec::new();
    proof {
        reveal(Seq::filter);
    }
    let mut i: usize = 0;
    while i < balances.len()
        invariant
            i <= balances.len(),
            view == balances.deep_view(),
            coins.deep_view() =~= holdings(config@, view.take(i as int)),
        decreases balances.len() - i,
    {
        proof {
            reveal(Seq::filter);
            assert(view.take(i + 1).drop_last() =~= view.take(i as int));
        }
        let coin = &balances[i];
        if coin.amount > 0 && deals_in(config, &coin.denom) {
            let ghost before = coins.deep_view();
            coins.push(coin.clone());
            assert(coins.deep_view() =~= before.push(coin@));
        }
        i += 1;
    }
    proof {
        assert(view.take(i as int) =~= view);
    }
    if coins.len() == 0 {
        return Err(ContractError::NoBalance {  });
    }
    let mut messages: Vec<SubMsg> = Vec::new();
    messages.push(SubMsg::transfer(config.owner.clone(), coins));
    proof {
        assert(messages.deep_view() =~= seq![transfer(config@.owner, holdings(config@, view))]);
    }
    Ok(Response::of("try_cancel_dca", messages))
}

} // verus!
