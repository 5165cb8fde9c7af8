//! What holds of the strategy across its operations.

use vstd::prelude::*;
use crate::contract::{
    completes_cycle, deposit_refusal, finalized_response, finalized_state, instantiate_refusal,
    native_denoms, parameter_refusal, payout, spec_execute, spec_store_and_finish, valid_config,
    valid_state, AddressChecks, MAX_DESTINATIONS, MAX_SLIPPAGE_ATOMICS, MAX_TWAP_WINDOW_SECONDS,
};
use crate::error::ContractErrorView;
use crate::execute::{
    holdings, is_holding, lemma_share_fits, lemma_weight_in_total, spec_is_due, spec_pause_dca,
    spec_resume_dca, spec_try_cancel_dca, spec_try_perform_dca, swap_orders, trade_amount,
};
use crate::response::ResponseView;
use crate::helpers::spec_get_expiration_time;
use crate::host::{after_fits, pays_in, plus_fits, spec_after, spec_is_expired, spec_plus};
use crate::msg::{ExecuteMsg, InstantiateMsg};
use crate::types::{
    distinct_denoms, total_weight, BlockInfo, CoinView, CoinWeightView, DcaConfigView, Duration,
    Expiration, MessageInfo, StateView, SwapEventView, Timestamp, NANOS_PER_SECOND,
};

verus! {

/// The outcome of an operation that was refused for `e`.
pub open spec fn refused(e: ContractErrorView) -> Result<ResponseView, ContractErrorView> {
    Err(e)
}

/// A strategy whose parameters are in order is created exactly when the
/// coin sent along is the one amount that its trades and its fee come to.
/// One unit more or one unit less is refused.
pub proof fn law_exact_deposit(info: MessageInfo, msg: InstantiateMsg, checks: AddressChecks)
    requires
        pays_in(info.funds.deep_view(), msg.source_denom@),
        parameter_refusal(msg, checks) is None,
    ensures
        instantiate_refusal(info, msg, checks) is None <==> info.funds.deep_view()[0].amount
            == msg.expected_deposit(),
        info.funds.deep_view()[0].amount == msg.expected_deposit() + 1 ==> instantiate_refusal(
            info,
            msg,
            checks,
        ) is Some,
        info.funds.deep_view()[0].amount == msg.expected_deposit() - 1 ==> instantiate_refusal(
            info,
            msg,
            checks,
        ) is Some,
{
}

/// Whether the parameters of `msg` other than the number of its
/// destinations are in order.
pub open spec fn other_parameters_in_order(msg: InstantiateMsg, checks: AddressChecks) -> bool {
    let destinations = msg.destinations.deep_view();
    &&& msg.max_slippage.atomics <= MAX_SLIPPAGE_ATOMICS
    &&& 1 <= msg.twap_window_seconds <= MAX_TWAP_WINDOW_SECONDS
    &&& msg.swap_interval.spec_value() != 0
    &&& msg.executor_address is Some ==> checks.executor is Ok
    &&& native_denoms(destinations)
    &&& distinct_denoms(destinations)
    &&& total_weight(destinations) > 0
    &&& checks.recipient is Ok
    &&& checks.router is Ok
    &&& msg.platform_fee != 0 ==> checks.platform_fee_recipient is Ok
}

/// With the right deposit and everything else in order, a strategy of 1 to
/// 25 destinations is created, and one of none or of more than 25 is
/// refused.
pub proof fn law_destination_count(info: MessageInfo, msg: InstantiateMsg, checks: AddressChecks)
    requires
        deposit_refusal(info, msg) is None,
        other_parameters_in_order(msg, checks),
    ensures
        instantiate_refusal(info, msg, checks) is None <==> 1 <= msg.destinations.deep_view().len()
            <= MAX_DESTINATIONS,
        !(1 <= msg.destinations.deep_view().len() <= MAX_DESTINATIONS) ==> instantiate_refusal(
            info,
            msg,
            checks,
        ) == Some(
            ContractErrorView::CustomError {
                val: "Number of destination tokens must be between 1 and 25"@,
            },
        ),
{
}

/// Before the next swap has come, every call to start a cycle is refused,
/// and whenever before that time it is made, it is refused in the same
/// words: a caller who is told that the swap is not allowed yet is told
/// the one time from which it is.
pub proof fn law_not_due_is_refused(
    config: DcaConfigView,
    state: StateView,
    earlier: BlockInfo,
    later: BlockInfo,
    sender: Seq<char>,
)
    requires
        !spec_is_expired(state.next_swap, earlier),
        !spec_is_expired(state.next_swap, later),
    ensures
        spec_try_perform_dca(config, state, earlier, sender) is Err,
        spec_try_perform_dca(config, state, earlier, sender) == spec_try_perform_dca(
            config,
            state,
            later,
            sender,
        ),
        config.executor_address == sender && !state.paused && state.num_trades_executed
            < config.num_trades ==> spec_try_perform_dca(config, state, earlier, sender) == refused(
            ContractErrorView::DcaSwapNotAllowedYet {
                next_swap_event_time: spec_get_expiration_time(state.next_swap),
            },
        ),
{
}

/// Settling a cycle of a strategy that has trades left counts exactly one
/// trade more, leaves no outcome pending, and moves the next swap on by
/// exactly one interval from where it was before the cycle: a time by the
/// seconds of the interval, a height by its blocks. Neither the block in
/// which the last outcome arrives nor the outcomes themselves bear on it.
pub proof fn law_settled_cycle(
    config: DcaConfigView,
    state: StateView,
    outcome: Option<SwapEventView>,
    arrival: BlockInfo,
    other_outcome: Option<SwapEventView>,
    other_arrival: BlockInfo,
)
    requires
        state.num_trades_executed < config.num_trades,
        completes_cycle(config, state),
        plus_fits(state.next_swap, config.swap_interval),
    ensures
        ({
            let settled = spec_store_and_finish(config, state, arrival, outcome).0;
            &&& settled.num_trades_executed == state.num_trades_executed + 1
            &&& settled.swap_status.len() == 0
            &&& settled.paused == state.paused
            &&& settled.next_swap == spec_plus(state.next_swap, config.swap_interval)
            &&& settled == spec_store_and_finish(config, state, other_arrival, other_outcome).0
            &&& state.next_swap matches Expiration::AtTime(t) ==> (
            config.swap_interval matches Duration::Time(s) ==> settled.next_swap
                == Expiration::AtTime(Timestamp { nanos: (t.nanos + s * NANOS_PER_SECOND) as u64 }))
            &&& state.next_swap matches Expiration::AtHeight(h) ==> (
            config.swap_interval matches Duration::Height(k) ==> settled.next_swap
                == Expiration::AtHeight((h + k) as u64))
        }),
{
}

/// A strategy that is paused while a swap is due, and resumed once the
/// time of that swap has passed, does not swap at once: resuming sets the
/// next swap one interval after the block of the resumption, and a call to
/// start a cycle in that block is refused.
pub proof fn law_resume_puts_off(
    config: DcaConfigView,
    state: StateView,
    paused_at: BlockInfo,
    resumed_at: BlockInfo,
    executor: Seq<char>,
)
    requires
        spec_is_due(state, config, paused_at),
        spec_is_expired(state.next_swap, resumed_at),
        config.swap_interval.spec_value() > 0,
        after_fits(config.swap_interval, resumed_at),
    ensures
        ({
            let paused = spec_pause_dca(config, state, config.owner).0;
            let resumed = spec_resume_dca(config, paused, resumed_at, config.owner).0;
            &&& paused.paused
            &&& spec_try_perform_dca(config, paused, resumed_at, executor) is Err
            &&& !resumed.paused
            &&& resumed.next_swap == spec_after(config.swap_interval, resumed_at)
            &&& !spec_is_due(resumed, config, resumed_at)
            &&& spec_try_perform_dca(config, resumed, resumed_at, executor) is Err
        }),
{
    assert(config.swap_interval.spec_value() * NANOS_PER_SECOND > 0) by (nonlinear_arith)
        requires
            config.swap_interval.spec_value() > 0,
    ;
}

/// Pausing a second time is refused, and so is resuming a second time;
/// neither changes anything.
pub proof fn law_pause_and_resume_once(
    config: DcaConfigView,
    state: StateView,
    block: BlockInfo,
    again: BlockInfo,
    sender: Seq<char>,
)
    ensures
        ({
            let (paused, first) = spec_pause_dca(config, state, sender);
            first is Ok ==> spec_pause_dca(config, paused, sender) == (
                paused,
                refused(ContractErrorView::DcaPaused),
            )
        }),
        ({
            let (resumed, first) = spec_resume_dca(config, state, block, sender);
            first is Ok ==> spec_resume_dca(config, resumed, again, sender) == (
                resumed,
                refused(ContractErrorView::DcaNotPaused),
            )
        }),
{
}

/// No operation takes the progress of a strategy out of its bounds: the
/// count of trades never falls and never passes the number of trades that
/// the strategy has, and there are always fewer outcomes pending than a
/// cycle has legs. An operation that is refused changes nothing.
pub proof fn law_progress_stays_in_bounds(
    config: DcaConfigView,
    state: StateView,
    block: BlockInfo,
    sender: Seq<char>,
    msg: ExecuteMsg,
    balances: Seq<CoinView>,
    outcome: Option<SwapEventView>,
)
    requires
        valid_config(config),
        valid_state(config, state),
    ensures
        ({
            let (next, result) = spec_execute(config, state, block, sender, msg, balances);
            &&& valid_state(config, next)
            &&& next.num_trades_executed == state.num_trades_executed
            &&& next.swap_status == state.swap_status
            &&& result is Err ==> next == state
        }),
        ({
            let (next, response) = spec_store_and_finish(config, state, block, outcome);
            &&& valid_state(config, next)
            &&& state.num_trades_executed <= next.num_trades_executed
                <= state.num_trades_executed + 1
            &&& next.paused == state.paused
        }),
{
}

/// What the swaps for `destinations` carry in all, where each carries its
/// share of `amount_per_trade` among a weight of `total`.
pub open spec fn spent(destinations: Seq<CoinWeightView>, amount_per_trade: u128, total: nat) -> nat
    decreases destinations.len(),
{
    if destinations.len() == 0 {
        0
    } else {
        spent(destinations.drop_last(), amount_per_trade, total) + trade_amount(
            destinations.last().weight,
            amount_per_trade,
            total,
        ) as nat
    }
}

/// Among destinations none of which weighs more than `total`, the swaps
/// carry no more than the destinations' part of the amount, and fall short
/// of it by less than a unit each.
proof fn lemma_spent(destinations: Seq<CoinWeightView>, amount_per_trade: u128, total: nat)
    requires
        total > 0,
        forall|i: int| 0 <= i < destinations.len() ==> (#[trigger] destinations[i]).weight <= total,
    ensures
        total * spent(destinations, amount_per_trade, total) <= amount_per_trade * total_weight(
            destinations,
        ),
        amount_per_trade * total_weight(destinations) - total * spent(
            destinations,
            amount_per_trade,
            total,
        ) <= destinations.len() * (total - 1),
    decreases destinations.len(),
{
    if destinations.len() > 0 {
        let front = destinations.drop_last();
        let weight = destinations.last().weight as int;
        let amount = amount_per_trade as int;
        let t = total as int;
        assert forall|i: int| 0 <= i < front.len() implies (#[trigger] front[i]).weight
            <= total by {
            assert(front[i] == destinations[i]);
        }
        lemma_spent(front, amount_per_trade, total);
        let share = trade_amount(destinations.last().weight, amount_per_trade, total) as int;
        assert(destinations[destinations.len() - 1].weight <= total);
        lemma_share_fits(destinations.last().weight, amount_per_trade, total);
        assert(share == (weight * amount) / t);
        let rest = (weight * amount) % t;
        assert(weight * amount == t * share + rest && 0 <= rest <= t - 1) by {
            vstd::arithmetic::div_mod::lemma_fundamental_div_mod(weight * amount, t);
            vstd::arithmetic::div_mod::lemma_mod_bound(weight * amount, t);
        }
        let before = spent(front, amount_per_trade, total) as int;
        let front_weight = total_weight(front) as int;
        assert(t * (before + share) == t * before + t * share) by (nonlinear_arith);
        assert(amount * (front_weight + weight) == amount * front_weight + weight * amount)
            by (nonlinear_arith);
        assert((front.len() + 1) * (t - 1) == front.len() * (t - 1) + (t - 1))
            by (nonlinear_arith);
        assert(spent(destinations, amount_per_trade, total) == before + share);
        assert(total_weight(destinations) == front_weight + weight);
    } else {
        assert(amount_per_trade * 0 == 0);
        assert(total * 0 == 0);
    }
}

/// Of the amount of a trade, the swaps of a cycle carry all but what
/// rounding each share down takes off: never more than the amount, and less
/// than it by at most a unit for every destination but one. This holds
/// wherever the weights sum to more than zero.
pub proof fn law_rounding_loss(config: DcaConfigView)
    requires
        total_weight(config.destinations) > 0,
    ensures
        spent(config.destinations, config.amount_per_trade, total_weight(config.destinations))
            <= config.amount_per_trade,
        config.amount_per_trade - spent(
            config.destinations,
            config.amount_per_trade,
            total_weight(config.destinations),
        ) <= config.destinations.len() - 1,
        forall|i: int|
            0 <= i < config.destinations.len() ==> #[trigger] swap_orders(
                config,
            )[i].msg->Execute_funds[0].amount == (config.destinations[i].weight
                * config.amount_per_trade) / (total_weight(config.destinations) as int),
{
    let total = total_weight(config.destinations) as int;
    let amount = config.amount_per_trade as int;
    let count = config.destinations.len() as int;
    let carried = spent(config.destinations, config.amount_per_trade, total as nat) as int;
    assert forall|i: int| 0 <= i < config.destinations.len() implies (
    #[trigger] config.destinations[i]).weight <= total by {
        lemma_weight_in_total(config.destinations, i);
    }
    assert forall|i: int| 0 <= i < config.destinations.len() implies #[trigger] swap_orders(
        config,
    )[i].msg->Execute_funds[0].amount == (config.destinations[i].weight * config.amount_per_trade)
        / total by {
        lemma_weight_in_total(config.destinations, i);
        lemma_share_fits(config.destinations[i].weight, config.amount_per_trade, total as nat);
    }
    lemma_spent(config.destinations, config.amount_per_trade, total as nat);
    assert(count > 0);
    assert(carried <= amount) by (nonlinear_arith)
        requires
            total > 0,
            total * carried <= amount * total,
    ;
    assert(amount - carried <= count - 1) by (nonlinear_arith)
        requires
            total > 0,
            count > 0,
            amount * total - total * carried <= count * (total - 1),
    ;
}

/// The arrival of the outcome of one leg: the block in which it arrives,
/// and the outcome, if the host's report tells of one.
pub struct Delivery {
    pub block: BlockInfo,
    pub outcome: Option<SwapEventView>,
}

impl Delivery {
    /// The record that the arrival leaves.
    pub open spec fn recorded(self) -> SwapEventView {
        match self.outcome {
            Some(event) => event,
            None => SwapEventView::failed(self.block.time.nanos),
        }
    }
}

/// The progress of a strategy after `deliveries` were taken in one after
/// the other, and what each of them handed back.
pub open spec fn deliver(config: DcaConfigView, state: StateView, deliveries: Seq<Delivery>) -> (
    StateView,
    Seq<ResponseView>,
)
    decreases deliveries.len(),
{
    if deliveries.len() == 0 {
        (state, Seq::empty())
    } else {
        let (before, responses) = deliver(config, state, deliveries.drop_last());
        let (after, response) = spec_store_and_finish(
            config,
            before,
            deliveries.last().block,
            deliveries.last().outcome,
        );
        (after, responses.push(response))
    }
}

/// Taking one record out of the legs takes out of the payout what that
/// leg received, if it was executed.
proof fn lemma_payout_remove(events: Seq<SwapEventView>, j: int)
    requires
        0 <= j < events.len(),
    ensures
        payout(events).to_multiset() == if events[j].pays() {
            payout(events.remove(j)).to_multiset().insert(events[j].effective_token_out->0)
        } else {
            payout(events.remove(j)).to_multiset()
        },
    decreases events.len(),
{
    broadcast use vstd::seq_lib::to_multiset_build;

    let front = events.drop_last();
    if j == events.len() - 1 {
        assert(events.remove(j) =~= front);
    } else {
        lemma_payout_remove(front, j);
        assert(events.remove(j).drop_last() =~= front.remove(j));
        assert(events.remove(j).last() == events.last());
        assert(front[j] == events[j]);
        let out_j = events[j].effective_token_out->0;
        let out_last = events.last().effective_token_out->0;
        if events.last().pays() && events[j].pays() {
            assert(payout(front.remove(j)).to_multiset().insert(out_j).insert(out_last) =~= payout(
                front.remove(j),
            ).to_multiset().insert(out_last).insert(out_j));
        }
    }
}

/// The payout of the same records in another order holds the same coins,
/// each as often.
pub proof fn lemma_payout_any_order(events: Seq<SwapEventView>, other: Seq<SwapEventView>)
    requires
        events.to_multiset() == other.to_multiset(),
    ensures
        payout(events).to_multiset() == payout(other).to_multiset(),
    decreases events.len(),
{
    broadcast use vstd::seq_lib::group_to_multiset_ensures;

    vstd::seq_lib::to_multiset_len(events);
    vstd::seq_lib::to_multiset_len(other);
    if events.len() == 0 {
        assert(other.len() == 0);
        assert(events =~= other);
    } else {
        let last = events.last();
        assert(events.contains(last)) by {
            assert(events[events.len() - 1] == last);
        }
        vstd::seq_lib::to_multiset_contains(events, last);
        vstd::seq_lib::to_multiset_contains(other, last);
        assert(other.contains(last));
        let j = choose|j: int| 0 <= j < other.len() && other[j] == last;
        let front = events.drop_last();
        assert(front =~= events.remove(events.len() - 1));
        assert(front.to_multiset() =~= other.remove(j).to_multiset());
        lemma_payout_any_order(front, other.remove(j));
        lemma_payout_remove(other, j);
        lemma_payout_remove(events, events.len() - 1);
    }
}

/// Until the last leg of a cycle has arrived, the outcomes are only
/// recorded.
proof fn lemma_deliver_records(
    config: DcaConfigView,
    state: StateView,
    deliveries: Seq<Delivery>,
    k: int,
)
    requires
        state.swap_status.len() == 0,
        0 <= k <= deliveries.len(),
        k < config.destinations.len(),
    ensures
        deliver(config, state, deliveries.take(k)) == (
            StateView {
                swap_status: deliveries.take(k).map_values(|d: Delivery| d.recorded()),
                ..state
            },
            Seq::new(k as nat, |i: int| ResponseView::silent()),
        ),
    decreases k,
{
    let taken = deliveries.take(k);
    let record = |d: Delivery| d.recorded();
    if k == 0 {
        assert(taken.map_values(record) =~= state.swap_status);
        assert(deliver(config, state, taken).1 =~= Seq::new(0, |i: int| ResponseView::silent()));
    } else {
        lemma_deliver_records(config, state, deliveries, k - 1);
        assert(taken.drop_last() =~= deliveries.take(k - 1));
        assert(deliveries.take(k - 1).map_values(record).push(taken.last().recorded())
            =~= taken.map_values(record));
        assert(deliver(config, state, taken).1 =~= Seq::new(
            k as nat,
            |i: int| ResponseView::silent(),
        ));
    }
}

/// However the outcomes of the legs of a cycle arrive, and whichever of
/// them failed, the cycle is settled once, by the arrival that brings the
/// count of outcomes to the number of destinations. Every arrival before
/// it is only recorded and hands back nothing. The last one hands back the
/// payout of what was recorded, counts the trade and clears the record. The
/// payout holds what the executed legs received and nothing else, and the
/// order of arrival does not change which coins it holds.
pub proof fn law_cycle_settles_once(
    config: DcaConfigView,
    state: StateView,
    deliveries: Seq<Delivery>,
)
    requires
        state.swap_status.len() == 0,
        deliveries.len() == config.destinations.len(),
        deliveries.len() > 0,
    ensures
        ({
            let legs = deliveries.len() as int;
            let records = deliveries.map_values(|d: Delivery| d.recorded());
            let recorded = StateView { swap_status: records, ..state };
            let (settled, responses) = deliver(config, state, deliveries);
            &&& responses.len() == legs
            &&& forall|k: int|
                0 <= k < legs - 1 ==> #[trigger] responses[k] == ResponseView::silent()
            &&& forall|k: int|
                0 <= k < legs ==> (#[trigger] deliver(config, state, deliveries.take(k))).0
                    == (StateView { swap_status: records.take(k), ..state })
            &&& responses[legs - 1] == finalized_response(config, recorded)
            &&& settled == finalized_state(config, state)
            &&& settled.swap_status.len() == 0
            &&& forall|other: Seq<SwapEventView>|
                other.to_multiset() == records.to_multiset() ==> #[trigger] payout(
                    other,
                ).to_multiset() == payout(records).to_multiset()
        }),
{
    let legs = deliveries.len() as int;
    let record = |d: Delivery| d.recorded();
    let records = deliveries.map_values(record);
    let recorded = StateView { swap_status: records, ..state };
    let (settled, responses) = deliver(config, state, deliveries);
    lemma_deliver_records(config, state, deliveries, legs - 1);
    assert(deliveries.drop_last() =~= deliveries.take(legs - 1));
    assert(deliveries.take(legs - 1).map_values(record).push(deliveries.last().recorded())
        =~= records);
    assert forall|k: int| 0 <= k < legs implies (#[trigger] deliver(
        config,
        state,
        deliveries.take(k),
    )).0 == (StateView { swap_status: records.take(k), ..state }) by {
        lemma_deliver_records(config, state, deliveries, k);
        assert(deliveries.take(k).map_values(record) =~= records.take(k));
    }
    assert forall|other: Seq<SwapEventView>|
        other.to_multiset() == records.to_multiset() implies #[trigger] payout(
        other,
    ).to_multiset() == payout(records).to_multiset() by {
        lemma_payout_any_order(other, records);
    }
}

/// Whether `coin` is what one of the legs recorded in `events`, an
/// executed one, received.
pub open spec fn was_received(events: Seq<SwapEventView>, coin: CoinView) -> bool {
    exists|i: int|
        0 <= i < events.len() && (#[trigger] events[i]).pays() && events[i].effective_token_out->0
            == coin
}

/// The payout holds what each executed leg received, and only that.
pub proof fn law_payout_holds_what_was_received(events: Seq<SwapEventView>)
    ensures
        forall|i: int|
            0 <= i < events.len() && (#[trigger] events[i]).pays() ==> payout(events).contains(
                events[i].effective_token_out->0,
            ),
        forall|j: int|
            0 <= j < payout(events).len() ==> was_received(events, #[trigger] payout(events)[j]),
        payout(events).len() <= events.len(),
    decreases events.len(),
{
    if events.len() > 0 {
        let front = events.drop_last();
        let last = events.last();
        law_payout_holds_what_was_received(front);
        assert forall|i: int| 0 <= i < events.len() && (#[trigger] events[i]).pays() implies payout(
            events,
        ).contains(events[i].effective_token_out->0) by {
            if i < front.len() {
                assert(front[i] == events[i]);
                let at = choose|at: int|
                    0 <= at < payout(front).len() && payout(front)[at]
                        == events[i].effective_token_out->0;
                assert(payout(events)[at] == events[i].effective_token_out->0);
            } else {
                assert(payout(events)[payout(events).len() - 1] == last.effective_token_out->0);
            }
        }
        assert forall|j: int| 0 <= j < payout(events).len() implies was_received(
            events,
            #[trigger] payout(events)[j],
        ) by {
            if j < payout(front).len() {
                assert(was_received(front, payout(front)[j]));
                let i = choose|i: int|
                    0 <= i < front.len() && (#[trigger] front[i]).pays()
                        && front[i].effective_token_out->0 == payout(front)[j];
                assert(events[i] == front[i]);
            } else {
                assert(events[events.len() - 1].pays());
            }
        }
    }
}

/// Whether `balances` holds as much as a unit of anything.
pub open spec fn holds_nothing(balances: Seq<CoinView>) -> bool {
    forall|i: int| 0 <= i < balances.len() ==> (#[trigger] balances[i]).amount == 0
}

/// The owner's call to cancel is refused for want of a balance exactly
/// when the strategy holds nothing of its source and of its destinations,
/// as it does when it holds nothing at all. Otherwise the one transfer
/// that is handed back takes along, whole, every coin that the strategy
/// holds, and nothing else: of what it held, nothing stays.
pub proof fn law_cancel_sweeps(config: DcaConfigView, balances: Seq<CoinView>)
    ensures
        spec_try_cancel_dca(config, config.owner, balances) == refused(
            ContractErrorView::NoBalance,
        ) <==> forall|i: int|
            0 <= i < balances.len() ==> !is_holding(config, #[trigger] balances[i]),
        holds_nothing(balances) ==> spec_try_cancel_dca(config, config.owner, balances)
            == refused(ContractErrorView::NoBalance),
        spec_try_cancel_dca(config, config.owner, balances) matches Ok(response) ==> {
            &&& response.messages.len() == 1
            &&& response.messages[0].msg->Send_to_address == config.owner
            &&& response.messages[0].msg->Send_amount == holdings(config, balances)
            &&& forall|i: int|
                0 <= i < balances.len() && is_holding(config, #[trigger] balances[i]) ==> holdings(
                    config,
                    balances,
                ).contains(balances[i])
            &&& forall|j: int|
                0 <= j < holdings(config, balances).len() ==> is_holding(
                    config,
                    #[trigger] holdings(config, balances)[j],
                ) && balances.contains(holdings(config, balances)[j])
        },
{
    let keep = |coin: CoinView| is_holding(config, coin);
    let swept = holdings(config, balances);
    assert(swept == balances.filter(keep));
    broadcast use vstd::seq_lib::group_filter_ensures;
    assert forall|j: int| 0 <= j < swept.len() implies balances.contains(#[trigger] swept[j]) by {
        balances.lemma_filter_contains_rev(keep, swept[j]);
    }
    if swept.len() == 0 {
        assert forall|i: int| 0 <= i < balances.len() implies !is_holding(
            config,
            #[trigger] balances[i],
        ) by {
            if is_holding(config, balances[i]) {
                assert(keep(balances[i]));
                assert(swept.contains(balances[i]));
            }
        }
    } else {
        assert(keep(swept[0]));
        assert(balances.contains(swept[0]));
    }
    assert forall|i: int|
        0 <= i < balances.len() && is_holding(
            config,
            #[trigger] balances[i],
        ) implies swept.contains(balances[i]) by {
        assert(keep(balances[i]));
    }
}

} // verus!
