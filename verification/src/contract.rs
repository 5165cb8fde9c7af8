//! Creating a strategy, and taking in the outcomes of its swaps.

use vstd::prelude::*;
use vstd::string::StringExecFns;
use crate::error::{ContractError, ContractErrorView};
use crate::execute::{
    checked_perform_dca, checked_resume_dca, outcome_view, pause_dca, perform_fits, resume_dca,
    resume_fits, spec_pause_dca, spec_resume_dca, spec_try_cancel_dca, spec_try_perform_dca,
    try_cancel_dca, try_perform_dca,
};
use crate::helpers::{spec_token_string_to_coin, token_string_to_coin};
use crate::host::{
    after_fits, decimal_from_ratio, duration_after, generic_err, is_native_denom, must_pay,
    pays_in, plus_fits, same_unit, spec_after, spec_plus, validate_native_denom,
};
use crate::msg::{ExecuteMsg, InstantiateMsg};
use crate::response::{
    find_event, find_value, first_event, first_value, transfer, Attribute, AttributeView, Reply,
    Response, ResponseView, SubMsg, SubMsgResponse, SubMsgResponseView, DCA_SWAP_ID,
};
use crate::text::{decimal_string, decimal_text};
use crate::types::{
    distinct_denoms, total_weight, BlockInfo, Coin, CoinView, CoinWeight, CoinWeightView,
    DcaConfig, DcaConfigView, Decimal, Env, MessageInfo, State, StateView, SwapEvent,
    SwapEventView,
};

verus! {

/// The largest number of destinations that a strategy can buy.
pub const MAX_DESTINATIONS: u8 = 25;

/// The largest slippage bound that a strategy can set, in percent.
pub const MAX_SLIPPAGE_PERCENTAGE: u128 = 15;

/// The longest window, in seconds, over which the router may average its
/// reference price.
pub const MAX_TWAP_WINDOW_SECONDS: u64 = 120;

/// [`MAX_SLIPPAGE_PERCENTAGE`] percent, as a decimal's count of 10^-18 units.
pub const MAX_SLIPPAGE_ATOMICS: u128 = 150_000_000_000_000_000;

/// What the host's address validation said of the addresses that a message
/// names: the address as the host writes it, or the host's error.
#[derive(Debug, PartialEq)]
pub struct AddressChecks {
    /// Of the executor; not read where the message names none.
    pub executor: Result<String, cosmwasm_std::StdError>,
    pub recipient: Result<String, cosmwasm_std::StdError>,
    pub router: Result<String, cosmwasm_std::StdError>,
    /// Of the fee's recipient; not read where the fee is zero.
    pub platform_fee_recipient: Result<String, cosmwasm_std::StdError>,
}

/// A strategy as it stands right after its creation.
#[derive(Clone, Debug, PartialEq)]
pub struct Instantiated {
    pub config: DcaConfig,
    pub state: State,
    pub response: Response,
}

/// What a deposit of `actual` is told where `expected` was due.
pub open spec fn deposit_mismatch_text(expected: nat, actual: nat) -> Seq<char> {
    "Amount deposited does not match exactly expected: <"@ + decimal_text(expected)
        + "> != actual: <"@ + decimal_text(actual) + ">"@
}

/// Whether each of `destinations` has a well-formed denom.
pub open spec fn native_denoms(destinations: Seq<CoinWeightView>) -> bool {
    forall|i: int| 0 <= i < destinations.len() ==> is_native_denom(#[trigger] destinations[i].denom)
}

/// Why the coins sent along with `msg` are not its deposit; `None` where
/// they are. The deposit is a single coin of the source asset, of exactly
/// the amount that `msg` asks for.
pub open spec fn deposit_refusal(info: MessageInfo, msg: InstantiateMsg) -> Option<
    ContractErrorView,
> {
    let funds = info.funds.deep_view();
    if !pays_in(funds, msg.source_denom@) {
        Some(ContractErrorView::PaymentError)
    } else if funds[0].amount != msg.expected_deposit() {
        Some(
            ContractErrorView::CustomError {
                val: deposit_mismatch_text(msg.expected_deposit() as nat, funds[0].amount as nat),
            },
        )
    } else {
        None
    }
}

/// The first reason to refuse the parameters of `msg`, with `checks` for
/// its addresses; `None` where there is none.
pub open spec fn parameter_refusal(msg: InstantiateMsg, checks: AddressChecks) -> Option<
    ContractErrorView,
> {
    let destinations = msg.destinations.deep_view();
    if destinations.len() == 0 || destinations.len() > MAX_DESTINATIONS {
        Some(
            ContractErrorView::CustomError {
                val: "Number of destination tokens must be between 1 and 25"@,
            },
        )
    } else if msg.max_slippage.atomics > MAX_SLIPPAGE_ATOMICS {
        Some(ContractErrorView::CustomError { val: "Max slippage must be between 0% and 15%"@ })
    } else if msg.twap_window_seconds < 1 || msg.twap_window_seconds > MAX_TWAP_WINDOW_SECONDS {
        Some(
            ContractErrorView::CustomError {
                val: "Twap window must be between 1 and 120 seconds"@,
            },
        )
    } else if msg.swap_interval.spec_value() == 0 {
        Some(ContractErrorView::CustomError { val: "Swap interval must be greater than 0"@ })
    } else if msg.executor_address is Some && checks.executor is Err {
        Some(ContractErrorView::Std)
    } else if !native_denoms(destinations) {
        Some(ContractErrorView::InvalidDenom)
    } else if !distinct_denoms(destinations) {
        Some(ContractErrorView::CustomError { val: "Destination denoms must be unique"@ })
    } else if total_weight(destinations) == 0 {
        Some(
            ContractErrorView::CustomError {
                val: "Destination weights must sum to more than 0"@,
            },
        )
    } else if checks.recipient is Err || checks.router is Err {
        Some(ContractErrorView::Std)
    } else if msg.platform_fee != 0 && checks.platform_fee_recipient is Err {
        Some(ContractErrorView::Std)
    } else {
        None
    }
}

/// The first reason to refuse `msg`, sent by `info` with `checks` for its
/// addresses; `None` where there is none. The deposit is looked at first.
pub open spec fn instantiate_refusal(
    info: MessageInfo,
    msg: InstantiateMsg,
    checks: AddressChecks,
) -> Option<ContractErrorView> {
    match deposit_refusal(info, msg) {
        Some(e) => Some(e),
        None => parameter_refusal(msg, checks),
    }
}

/// The host's error that is handed on where an address that the strategy
/// of `msg` would keep was refused: that of the first such address.
pub open spec fn refused_address(
    msg: InstantiateMsg,
    checks: AddressChecks,
) -> cosmwasm_std::StdError {
    if msg.executor_address is Some && checks.executor is Err {
        checks.executor->Err_0
    } else if checks.recipient is Err {
        checks.recipient->Err_0
    } else if checks.router is Err {
        checks.router->Err_0
    } else {
        checks.platform_fee_recipient->Err_0
    }
}

/// Whether `config` is a strategy as one is created: 1 to 25 destinations,
/// each with a well-formed denom of its own, weights that sum to more than
/// zero, a slippage bound of at most 15%, an averaging window of 1 to 120
/// seconds, and an interval that is not zero.
pub open spec fn valid_config(config: DcaConfigView) -> bool {
    &&& 1 <= config.destinations.len() <= MAX_DESTINATIONS
    &&& native_denoms(config.destinations)
    &&& distinct_denoms(config.destinations)
    &&& total_weight(config.destinations) > 0
    &&& config.max_slippage.atomics <= MAX_SLIPPAGE_ATOMICS
    &&& 1 <= config.twap_window_seconds <= MAX_TWAP_WINDOW_SECONDS
    &&& config.swap_interval.spec_value() > 0
}

/// Whether `state` is progress that the strategy of `config` can have
/// made: no more trades than the strategy has, fewer outcomes pending than
/// a cycle has legs, and a next swap counted in the unit of the interval.
pub open spec fn valid_state(config: DcaConfigView, state: StateView) -> bool {
    &&& state.num_trades_executed <= config.num_trades
    &&& state.swap_status.len() < config.destinations.len()
    &&& same_unit(state.next_swap, config.swap_interval)
}

/// The parameters of the strategy that `msg` creates.
pub open spec fn instantiated_config(
    info: MessageInfo,
    msg: InstantiateMsg,
    checks: AddressChecks,
) -> DcaConfigView {
    DcaConfigView {
        owner: info.sender@,
        recipient_address: checks.recipient->Ok_0@,
        executor_address: if msg.executor_address is Some {
            checks.executor->Ok_0@
        } else {
            info.sender@
        },
        strategy_type: msg.strategy_type,
        amount_per_trade: msg.amount_per_trade,
        num_trades: msg.num_trades,
        swap_interval: msg.swap_interval,
        source_denom: msg.source_denom@,
        destinations: msg.destinations.deep_view(),
        max_slippage: msg.max_slippage,
        twap_window_seconds: msg.twap_window_seconds,
        router_contract: checks.router->Ok_0@,
    }
}

/// The progress of the strategy that `msg` creates at `env`: nothing
/// traded, and the first cycle due one interval on.
pub open spec fn instantiated_state(env: Env, msg: InstantiateMsg) -> StateView {
    StateView {
        next_swap: spec_after(msg.swap_interval, env.block),
        paused: false,
        num_trades_executed: 0,
        swap_status: Seq::empty(),
    }
}

/// What the creation of a strategy by `msg` hands back: the transfer of the
/// fee, where there is one.
pub open spec fn instantiated_response(
    info: MessageInfo,
    msg: InstantiateMsg,
    checks: AddressChecks,
) -> ResponseView {
    ResponseView {
        messages: if msg.platform_fee != 0 {
            seq![
                transfer(
                    checks.platform_fee_recipient->Ok_0@,
                    seq![CoinView { denom: msg.source_denom@, amount: msg.platform_fee }],
                ),
            ]
        } else {
            Seq::empty()
        },
        attributes: seq![
            AttributeView { key: "method"@, value: "instantiate"@ },
            AttributeView { key: "creator"@, value: info.sender@ },
        ],
    }
}

/// Weights sum to zero exactly when each of them is zero.
proof fn lemma_total_weight_zero(destinations: Seq<CoinWeightView>)
    ensures
        total_weight(destinations) == 0 <==> forall|i: int|
            0 <= i < destinations.len() ==> (#[trigger] destinations[i]).weight == 0,
    decreases destinations.len(),
{
    if destinations.len() > 0 {
        let front = destinations.drop_last();
        lemma_total_weight_zero(front);
        assert forall|i: int| 0 <= i < front.len() implies #[trigger] front[i]
            == destinations[i] by {}
        if total_weight(destinations) == 0 {
            assert forall|i: int| 0 <= i < destinations.len() implies (
            #[trigger] destinations[i]).weight == 0 by {
                if i < front.len() {
                    assert(front[i].weight == 0);
                }
            }
        }
    }
}

/// Checks that each of `destinations` has a well-formed denom, and hands
/// on the error of the first that has not.
fn check_denoms(destinations: &Vec<CoinWeight>) -> (r: Result<(), cw_denom::DenomError>)
    ensures
        r is Ok <==> native_denoms(destinations.deep_view()),
{
    let mut i: usize = 0;
    while i < destinations.len()
        invariant
            i <= destinations.len(),
            forall|j: int|
                0 <= j < i ==> is_native_denom(#[trigger] destinations.deep_view()[j].denom),
        decreases destinations.len() - i,
    {
        match validate_native_denom(destinations[i].denom.as_str()) {
            Ok(_) => {},
            Err(e) => {
                assert(!is_native_denom(destinations.deep_view()[i as int].denom));
                return Err(e);
            },
        }
        i += 1;
    }
    Ok(())
}

/// Whether no two of `destinations` share a denom.
fn has_distinct_denoms(destinations: &Vec<CoinWeight>) -> (b: bool)
    ensures
        b == distinct_denoms(destinations.deep_view()),
{
    let ghost view = destinations.deep_view();
    let mut j: usize = 0;
    while j < destinations.len()
        invariant
            j <= destinations.len(),
            view == destinations.deep_view(),
            forall|a: int, b: int|
                0 <= a < b < j ==> #[trigger] view[a].denom != #[trigger] view[b].denom,
        decreases destinations.len() - j,
    {
        let mut i: usize = 0;
        while i < j
            invariant
                i <= j < destinations.len(),
                view == destinations.deep_view(),
                forall|a: int| 0 <= a < i ==> #[trigger] view[a].denom != view[j as int].denom,
            decreases j - i,
        {
            if destinations[i].denom == destinations[j].denom {
                assert(view[i as int].denom == view[j as int].denom);
                return false;
            }
            i += 1;
        }
        j += 1;
    }
    true
}

/// Whether the weights of `destinations` sum to more than zero.
fn has_weight(destinations: &Vec<CoinWeight>) -> (b: bool)
    ensures
        b == (total_weight(destinations.deep_view()) > 0),
{
    let ghost view = destinations.deep_view();
    let mut i: usize = 0;
    while i < destinations.len()
        invariant
            i <= destinations.len(),
            view == destinations.deep_view(),
            forall|j: int| 0 <= j < i ==> (#[trigger] view[j]).weight == 0,
        decreases destinations.len() - i,
    {
        if destinations[i].weight != 0 {
            proof {
                lemma_total_weight_zero(view);
                assert(view[i as int].weight != 0);
            }
            return true;
        }
        i += 1;
    }
    proof {
        lemma_total_weight_zero(view);
    }
    false
}

/// The text of [`deposit_mismatch_text`].
fn deposit_mismatch(expected: u128, actual: u128) -> (s: String)
    ensures
        s@ == deposit_mismatch_text(expected as nat, actual as nat),
{
    let mut s = String::from_str("Amount deposited does not match exactly expected: <");
    s.append(decimal_string(expected).as_str());
    s.append("> != actual: <");
    s.append(decimal_string(actual).as_str());
    s.append(">");
    s
}

/// The refusal that carries `text`.
fn custom_error(text: &str) -> (e: ContractError)
    ensures
        e@ == (ContractErrorView::CustomError { val: text@ }),
{
    ContractError::CustomError { val: String::from_str(text) }
}

/// Whether the creation of a strategy by `msg` at `env` stays within the
/// numbers that the machine holds: the deposit that is compared with what
/// was sent must be a `u128`, and the first swap of a strategy that is
/// created must be a `u64`.
pub open spec fn instantiate_fits(
    env: Env,
    info: MessageInfo,
    msg: InstantiateMsg,
    checks: AddressChecks,
) -> bool {
    &&& pays_in(info.funds.deep_view(), msg.source_denom@) ==> msg.expected_deposit() <= u128::MAX
    &&& instantiate_refusal(info, msg, checks) is None ==> after_fits(msg.swap_interval, env.block)
}

/// Whether `r` is what the creation of a strategy by `msg` comes to: the
/// strategy as `msg` asks for it, or the first reason to refuse it.
pub open spec fn instantiates(
    env: Env,
    info: MessageInfo,
    msg: InstantiateMsg,
    checks: AddressChecks,
    r: Result<Instantiated, ContractError>,
) -> bool {
    &&& match r {
        Ok(made) => {
            &&& instantiate_refusal(info, msg, checks) is None
            &&& made.config@ == instantiated_config(info, msg, checks)
            &&& made.state@ == instantiated_state(env, msg)
            &&& made.response@ == instantiated_response(info, msg, checks)
            &&& valid_config(made.config@)
            &&& valid_state(made.config@, made.state@)
        },
        Err(e) => instantiate_refusal(info, msg, checks) == Some(e@),
    }
    &&& r matches Err(ContractError::Std(e)) ==> e == refused_address(msg, checks)
}

/// Creates a strategy as [`instantiate`] does, wherever the numbers fit;
/// `None` where they do not.
pub fn checked_instantiate(
    env: &Env,
    info: &MessageInfo,
    msg: InstantiateMsg,
    checks: AddressChecks,
) -> (r: Option<Result<Instantiated, ContractError>>)
    ensures
        r is None <==> !instantiate_fits(*env, *info, msg, checks),
        r matches Some(done) ==> instantiates(*env, *info, msg, checks, done),
{
    let funds = match must_pay(info, msg.source_denom.as_str()) {
        Ok(funds) => funds,
        Err(e) => {
            return Some(Err(ContractError::PaymentError(e)));
        },
    };
    let expected_funds = match msg.expected_funds() {
        Some(expected_funds) => expected_funds,
        None => {
            return None;
        },
    };
    if expected_funds != funds {
        return Some(
            Err(ContractError::CustomError { val: deposit_mismatch(expected_funds, funds) }),
        );
    }
    if msg.destinations.len() > MAX_DESTINATIONS as usize || msg.destinations.len() == 0 {
        return Some(Err(custom_error("Number of destination tokens must be between 1 and 25")));
    }
    let limit = decimal_from_ratio(MAX_SLIPPAGE_PERCENTAGE, 100);
    assert(limit == Some(Decimal { atomics: MAX_SLIPPAGE_ATOMICS }));
    if msg.max_slippage.atomics > limit.unwrap().atomics {
        return Some(Err(custom_error("Max slippage must be between 0% and 15%")));
    }
    if msg.twap_window_seconds > MAX_TWAP_WINDOW_SECONDS || msg.twap_window_seconds < 1 {
        return Some(Err(custom_error("Twap window must be between 1 and 120 seconds")));
    }
    if msg.swap_interval.value() == 0 {
        return Some(Err(custom_error("Swap interval must be greater than 0")));
    }
    let executor_address = match msg.executor_address {
        Some(_) => match checks.executor {
            Ok(address) => address,
            Err(e) => {
                return Some(Err(ContractError::Std(e)));
            },
        },
        None => info.sender.clone(),
    };
    match check_denoms(&msg.destinations) {
        Ok(_) => {},
        Err(e) => {
            return Some(Err(ContractError::InvalidDenom(e)));
        },
    }
    if !has_distinct_denoms(&msg.destinations) {
        return Some(Err(custom_error("Destination denoms must be unique")));
    }
    if !has_weight(&msg.destinations) {
        return Some(Err(custom_error("Destination weights must sum to more than 0")));
    }
    let recipient_address = match checks.recipient {
        Ok(address) => address,
        Err(e) => {
            return Some(Err(ContractError::Std(e)));
        },
    };
    let router_contract = match checks.router {
        Ok(address) => address,
        Err(e) => {
            return Some(Err(ContractError::Std(e)));
        },
    };
    let mut messages: Vec<SubMsg> = Vec::new();
    if msg.platform_fee != 0 {
        let to_address = match checks.platform_fee_recipient {
            Ok(address) => address,
            Err(e) => {
                return Some(Err(ContractError::Std(e)));
            },
        };
        let mut amount: Vec<Coin> = Vec::new();
        amount.push(Coin { denom: msg.source_denom.clone(), amount: msg.platform_fee });
        assert(amount.deep_view() =~= seq![
            CoinView { denom: msg.source_denom@, amount: msg.platform_fee },
        ]);
        messages.push(SubMsg::transfer(to_address, amount));
    }
    if !msg.swap_interval.fits_after(&env.block) {
        return None;
    }
    let state = State {
        next_swap: duration_after(msg.swap_interval, &env.block),
        paused: false,
        num_trades_executed: 0,
        swap_status: Vec::new(),
    };
    let mut attributes: Vec<Attribute> = Vec::new();
    attributes.push(Attribute::new("method", "instantiate"));
    attributes.push(Attribute::new("creator", info.sender.as_str()));
    let config = DcaConfig {
        owner: info.sender.clone(),
        recipient_address,
        executor_address,
        strategy_type: msg.strategy_type,
        amount_per_trade: msg.amount_per_trade,
        num_trades: msg.num_trades,
        swap_interval: msg.swap_interval,
        source_denom: msg.source_denom,
        destinations: msg.destinations,
        max_slippage: msg.max_slippage,
        twap_window_seconds: msg.twap_window_seconds,
        router_contract,
    };
    let made = Instantiated { config, state, response: Response { messages, attributes } };
    proof {
        let expected = instantiated_response(*info, msg, checks);
        assert(made.response@.messages =~= expected.messages);
        assert(made.response@.attributes =~= expected.attributes);
        assert(made.state@.swap_status =~= Seq::empty());
    }
    Some(Ok(made))
}

/// Creates a strategy from `msg`, with the coins of `info` as its deposit
/// and the block of `env` as its start.
///
/// The deposit must be a single coin of the source asset, of exactly the
/// amount of all trades and the fee. There must be 1 to 25 destinations,
/// each with a well-formed denom of its own, and with weights that sum to
/// more than zero. The slippage bound may not pass 15%, the averaging
/// window lies between 1 and 120 seconds, and the interval is not zero.
/// Every address that the strategy keeps must have passed the host's
/// validation. The first of these that fails, in this order, is reported,
/// and nothing is created.
///
/// The first cycle is due one interval after the block of `env`. Where the
/// fee is not zero, its transfer is handed back for the host to send.
pub fn instantiate(env: &Env, info: &MessageInfo, msg: InstantiateMsg, checks: AddressChecks) -> (r:
    Result<Instantiated, ContractError>)
    requires
        instantiate_fits(*env, *info, msg, checks),
    ensures
        instantiates(*env, *info, msg, checks, r),
{
    checked_instantiate(env, info, msg, checks).unwrap()
}

/// What `msg`, sent by `sender` at `block`, comes to, and the progress it
/// leaves; `balances` is what the strategy's account holds.
pub open spec fn spec_execute(
    config: DcaConfigView,
    state: StateView,
    block: BlockInfo,
    sender: Seq<char>,
    msg: ExecuteMsg,
    balances: Seq<CoinView>,
) -> (StateView, Result<ResponseView, ContractErrorView>) {
    match msg {
        ExecuteMsg::PerformDca { } => (state, spec_try_perform_dca(config, state, block, sender)),
        ExecuteMsg::PauseDca { } => spec_pause_dca(config, state, sender),
        ExecuteMsg::ResumeDca { } => spec_resume_dca(config, state, block, sender),
        ExecuteMsg::CancelDca { } => (state, spec_try_cancel_dca(config, sender, balances)),
    }
}

/// Whether `msg`, sent by `sender` at `block`, stays within the numbers
/// that the machine holds: the weights of a cycle that starts must sum to
/// a `u128`, and a next swap that is set must be a `u64`.
pub open spec fn execute_fits(
    config: DcaConfigView,
    state: StateView,
    block: BlockInfo,
    sender: Seq<char>,
    msg: ExecuteMsg,
) -> bool {
    match msg {
        ExecuteMsg::PerformDca { } => perform_fits(config, state, block, sender),
        ExecuteMsg::ResumeDca { } => resume_fits(config, state, block, sender),
        _ => true,
    }
}

/// Carries out `msg` as [`execute`] does, wherever the numbers fit; `None`,
/// and nothing changed, where they do not.
pub fn checked_execute(
    config: &DcaConfig,
    state: &mut State,
    env: &Env,
    info: &MessageInfo,
    msg: ExecuteMsg,
    balances: &Vec<Coin>,
) -> (r: Option<Result<Response, ContractError>>)
    ensures
        r is None <==> !execute_fits(config@, old(state)@, env.block, info.sender@, msg),
        r is None ==> final(state)@ == old(state)@,
        r matches Some(done) ==> (final(state)@, outcome_view(done)) == spec_execute(
            config@,
            old(state)@,
            env.block,
            info.sender@,
            msg,
            balances.deep_view(),
        ),
{
    match msg {
        ExecuteMsg::PerformDca { } => checked_perform_dca(config, state, env, info),
        ExecuteMsg::PauseDca { } => Some(pause_dca(config, state, info)),
        ExecuteMsg::ResumeDca { } => checked_resume_dca(config, state, env, info),
        ExecuteMsg::CancelDca { } => Some(try_cancel_dca(config, info, balances)),
    }
}

/// Carries out `msg`, sent by `info` at the block of `env`: starts a
/// cycle, pauses, resumes or cancels. `balances`, what the host reports of
/// the strategy's account, is read only to cancel.
pub fn execute(
    config: &DcaConfig,
    state: &mut State,
    env: &Env,
    info: &MessageInfo,
    msg: ExecuteMsg,
    balances: &Vec<Coin>,
) -> (r: Result<Response, ContractError>)
    requires
        execute_fits(config@, old(state)@, env.block, info.sender@, msg),
    ensures
        (final(state)@, outcome_view(r)) == spec_execute(
            config@,
            old(state)@,
            env.block,
            info.sender@,
            msg,
            balances.deep_view(),
        ),
{
    match msg {
        ExecuteMsg::PerformDca { } => try_perform_dca(config, state, env, info),
        ExecuteMsg::PauseDca { } => pause_dca(config, state, info),
        ExecuteMsg::ResumeDca { } => resume_dca(config, state, env, info),
        ExecuteMsg::CancelDca { } => try_cancel_dca(config, info, balances),
    }
}

/// What the legs recorded in `events` brought, in their order: of each leg
/// that was executed, what it received.
pub open spec fn payout(events: Seq<SwapEventView>) -> Seq<CoinView>
    decreases events.len(),
{
    if events.len() == 0 {
        Seq::empty()
    } else if events.last().pays() {
        payout(events.drop_last()).push(events.last().effective_token_out->0)
    } else {
        payout(events.drop_last())
    }
}

/// The count of trades after one more cycle, which never passes
/// `num_trades`.
pub open spec fn settled_trades(executed: u128, num_trades: u128) -> u128 {
    if executed < num_trades {
        (executed + 1) as u128
    } else {
        executed
    }
}

/// The progress of a strategy after the cycle recorded in `state` was
/// settled: one more trade, no outcome pending, and the next swap due one
/// interval after the swap that the cycle ran for was. When the outcomes
/// arrived does not bear on it.
pub open spec fn finalized_state(config: DcaConfigView, state: StateView) -> StateView {
    StateView {
        next_swap: spec_plus(state.next_swap, config.swap_interval),
        paused: state.paused,
        num_trades_executed: settled_trades(state.num_trades_executed, config.num_trades),
        swap_status: Seq::empty(),
    }
}

/// What settling the cycle recorded in `state` hands back: one transfer to
/// the recipient of all that the executed legs received, and no transfer
/// where no leg received anything.
pub open spec fn finalized_response(config: DcaConfigView, state: StateView) -> ResponseView {
    let coins = payout(state.swap_status);
    ResponseView::of(
        "try_store_and_finish_dca_swap"@,
        if coins.len() == 0 {
            Seq::empty()
        } else {
            seq![transfer(config.recipient_address, coins)]
        },
    )
}

/// Extending the recorded legs by one extends the payout by what that leg
/// received, if it was executed.
proof fn lemma_payout_prefix(events: Seq<SwapEventView>, n: int)
    requires
        0 <= n < events.len(),
    ensures
        payout(events.take(n + 1)) == if events[n].pays() {
            payout(events.take(n)).push(events[n].effective_token_out->0)
        } else {
            payout(events.take(n))
        },
{
    assert(events.take(n + 1).drop_last() =~= events.take(n));
}

/// Settles the cycle whose outcomes `state` holds: hands back the transfer
/// of what the executed legs received to the recipient, counts the trade,
/// clears the outcomes and moves the next swap on by one interval from
/// where it was, however late the outcomes arrived. A cycle of which every
/// leg failed is settled like any other, without a transfer.
pub fn finalize(config: &DcaConfig, state: &mut State) -> (response: Response)
    requires
        plus_fits(old(state).next_swap, config.swap_interval),
    ensures
        final(state)@ == finalized_state(config@, old(state)@),
        response@ == finalized_response(config@, old(state)@),
{
    let ghost events = state@.swap_status;
    let mut coins: Vec<Coin> = Vec::new();
    let mut i: usize = 0;
    while i < state.swap_status.len()
        invariant
            i <= state.swap_status.len(),
            events == state@.swap_status,
            *state == *old(state),
            coins.deep_view() =~= payout(events.take(i as int)),
        decreases state.swap_status.len() - i,
    {
        proof {
            lemma_payout_prefix(events, i as int);
        }
        let event = &state.swap_status[i];
        if event.executed {
            match &event.effective_token_out {
                Some(coin) => {
                    let ghost before = coins.deep_view();
                    coins.push(coin.clone());
                    assert(coins.deep_view() =~= before.push(coin@));
                },
                None => {},
            }
        }
        i += 1;
    }
    proof {
        assert(events.take(i as int) =~= events);
    }
    let mut messages: Vec<SubMsg> = Vec::new();
    if coins.len() > 0 {
        messages.push(SubMsg::transfer(config.recipient_address.clone(), coins));
    }
    if state.num_trades_executed < config.num_trades {
        state.num_trades_executed = state.num_trades_executed + 1;
    }
    state.next_swap = state.next_swap.plus(config.swap_interval);
    state.swap_status = Vec::new();
    proof {
        assert(messages.deep_view() =~= finalized_response(config@, old(state)@).messages);
        assert(state@.swap_status =~= Seq::empty());
    }
    Response::of("try_store_and_finish_dca_swap", messages)
}

/// The progress of a strategy after `event` was recorded at `block`, and
/// what recording it hands back. The outcome joins those that came before
/// it; a leg of which `None` is known is recorded as failed. Where it is
/// the last of the cycle, so that there is one outcome for each
/// destination, the cycle is settled at once.
pub open spec fn spec_store_and_finish(
    config: DcaConfigView,
    state: StateView,
    block: BlockInfo,
    event: Option<SwapEventView>,
) -> (StateView, ResponseView) {
    let recorded = StateView {
        swap_status: state.swap_status.push(
            match event {
                Some(e) => e,
                None => SwapEventView::failed(block.time.nanos),
            },
        ),
        ..state
    };
    if recorded.swap_status.len() == config.destinations.len() {
        (finalized_state(config, recorded), finalized_response(config, recorded))
    } else {
        (recorded, ResponseView::silent())
    }
}

/// Whether one more outcome completes the cycle that `state` records.
pub open spec fn completes_cycle(config: DcaConfigView, state: StateView) -> bool {
    state.swap_status.len() + 1 == config.destinations.len()
}

/// Whether one more outcome can be taken in: where it completes the cycle,
/// there must be room to move the next swap on by one interval.
pub open spec fn settling_fits(config: DcaConfigView, state: StateView) -> bool {
    completes_cycle(config, state) ==> plus_fits(state.next_swap, config.swap_interval)
}

/// Records the outcome of one leg, and settles the cycle if it was the
/// last one awaited: see [`spec_store_and_finish`]. A failed leg is
/// recorded, never reported as an error, so that it cannot hold up the
/// other legs.
pub fn try_store_and_finish_dca_swap(
    config: &DcaConfig,
    state: &mut State,
    env: &Env,
    swap_event: Option<SwapEvent>,
) -> (response: Response)
    requires
        settling_fits(config@, old(state)@),
    ensures
        (final(state)@, response@) == spec_store_and_finish(
            config@,
            old(state)@,
            env.block,
            swap_event.deep_view(),
        ),
{
    let event = match swap_event {
        Some(event) => event,
        None => SwapEvent {
            executed: false,
            token_in: None,
            effective_token_out: None,
            timestamp_nanos: env.block.time.nanos(),
        },
    };
    let ghost before = state@.swap_status;
    state.swap_status.push(event);
    assert(state@.swap_status =~= before.push(event@));
    if state.swap_status.len() == config.destinations.len() {
        finalize(config, state)
    } else {
        Response::silent()
    }
}

/// The outcome that the router's report `response` tells of, recorded at
/// `timestamp_nanos`. The report's first `token_swapped` event must name
/// what went in under `tokens_in` and what came out under `tokens_out`,
/// each as a coin that can be read. A report that does not is no outcome,
/// and counts as a failed leg.
pub open spec fn swap_outcome(response: SubMsgResponseView, timestamp_nanos: u64) -> Option<
    SwapEventView,
> {
    match first_event(response.events, "token_swapped"@) {
        Some(event) => match (
            first_value(event.attributes, "tokens_in"@),
            first_value(event.attributes, "tokens_out"@),
        ) {
            (Some(tokens_in), Some(tokens_out)) => match (
                spec_token_string_to_coin(tokens_in),
                spec_token_string_to_coin(tokens_out),
            ) {
                (Some(token_in), Some(token_out)) => Some(
                    SwapEventView {
                        executed: true,
                        token_in: Some(token_in),
                        effective_token_out: Some(token_out),
                        timestamp_nanos,
                    },
                ),
                _ => None,
            },
            _ => None,
        },
        None => None,
    }
}

/// Reads the outcome of a leg out of the router's report on it: see
/// [`swap_outcome`].
pub fn read_swap_outcome(reply_msg: &SubMsgResponse, timestamp_nanos: u64) -> (outcome: Option<
    SwapEvent,
>)
    ensures
        outcome.deep_view() == swap_outcome(reply_msg@, timestamp_nanos),
{
    let event = match find_event(&reply_msg.events, "token_swapped") {
        Some(i) => &reply_msg.events[i],
        None => {
            return None;
        },
    };
    let tokens_in = match find_value(&event.attributes, "tokens_in") {
        Some(value) => value,
        None => {
            return None;
        },
    };
    let tokens_out = match find_value(&event.attributes, "tokens_out") {
        Some(value) => value,
        None => {
            return None;
        },
    };
    let token_in = match token_string_to_coin(tokens_in.as_str()) {
        Some(coin) => coin,
        None => {
            return None;
        },
    };
    let token_out = match token_string_to_coin(tokens_out.as_str()) {
        Some(coin) => coin,
        None => {
            return None;
        },
    };
    Some(
        SwapEvent {
            executed: true,
            token_in: Some(token_in),
            effective_token_out: Some(token_out),
            timestamp_nanos,
        },
    )
}

/// Takes in the router's report on a leg that went through: records the
/// outcome that the report tells of, or a failed leg where it tells of
/// none, and settles the cycle if this was its last leg.
pub fn process_dca_swap_response(
    config: &DcaConfig,
    state: &mut State,
    env: &Env,
    reply_msg: SubMsgResponse,
) -> (response: Response)
    requires
        settling_fits(config@, old(state)@),
    ensures
        (final(state)@, response@) == spec_store_and_finish(
            config@,
            old(state)@,
            env.block,
            swap_outcome(reply_msg@, env.block.time.nanos),
        ),
{
    let outcome = read_swap_outcome(&reply_msg, env.block.time.nanos());
    try_store_and_finish_dca_swap(config, state, env, outcome)
}

/// Whether the host's report `msg` can be taken in: one that counts as a
/// leg and completes the cycle needs room to move the next swap on.
pub open spec fn reply_fits(config: DcaConfigView, state: StateView, msg: Reply) -> bool {
    msg.id == DCA_SWAP_ID ==> settling_fits(config, state)
}

/// The outcome that the host's report `msg` tells of, recorded at
/// `timestamp_nanos`: none where the message failed.
pub open spec fn reply_outcome(msg: Reply, timestamp_nanos: u64) -> Option<SwapEventView> {
    match msg.result {
        Ok(response) => swap_outcome(response@, timestamp_nanos),
        Err(_) => None,
    }
}

/// Takes in the host's report on one swap of a cycle. Whether the swap
/// went through or failed, its outcome is recorded, and the cycle is
/// settled if this was its last leg. A report under another id than
/// [`DCA_SWAP_ID`] is refused, and the state is left as it is.
///
/// All swaps of all cycles go under the one id, so a report cannot be told
/// from another: reports count in the order in which they arrive, and one
/// that arrives after its cycle was settled counts as a leg of the next.
pub fn reply(config: &DcaConfig, state: &mut State, env: &Env, msg: Reply) -> (r: Result<
    Response,
    cosmwasm_std::StdError,
>)
    requires
        reply_fits(config@, old(state)@, msg),
    ensures
        r is Ok <==> msg.id == DCA_SWAP_ID,
        r matches Ok(response) ==> (final(state)@, response@) == spec_store_and_finish(
            config@,
            old(state)@,
            env.block,
            reply_outcome(msg, env.block.time.nanos),
        ),
        r is Err ==> final(state)@ == old(state)@,
{
    if msg.id == DCA_SWAP_ID {
        match msg.result {
            Ok(reply_msg) => Ok(process_dca_swap_response(config, state, env, reply_msg)),
            Err(_) => Ok(try_store_and_finish_dca_swap(config, state, env, None)),
        }
    } else {
        Err(generic_err("unknown reply id"))
    }
}

/// Takes in the host's report as [`reply`] does, wherever the numbers fit;
/// `None`, and nothing changed, where they do not.
pub fn checked_reply(config: &DcaConfig, state: &mut State, env: &Env, msg: Reply) -> (r: Option<
    Result<Response, cosmwasm_std::StdError>,
>)
    ensures
        r is None <==> !reply_fits(config@, old(state)@, msg),
        r is None ==> final(state)@ == old(state)@,
        r matches Some(done) ==> {
            &&& done is Ok <==> msg.id == DCA_SWAP_ID
            &&& done matches Ok(response) ==> (final(state)@, response@) == spec_store_and_finish(
                config@,
                old(state)@,
                env.block,
                reply_outcome(msg, env.block.time.nanos),
            )
            &&& done is Err ==> final(state)@ == old(state)@
        },
{
    let completes = config.destinations.len() > 0 && state.swap_status.len()
        == config.destinations.len() - 1;
    if msg.id != DCA_SWAP_ID || !completes || state.next_swap.fits_plus(config.swap_interval) {
        Some(reply(config, state, env, msg))
    } else {
        None
    }
}

} // verus!
