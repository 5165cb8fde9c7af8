use phase_finance::contract::{
    checked_reply, finalize, process_dca_swap_response, read_swap_outcome, reply,
    try_store_and_finish_dca_swap,
};
use phase_finance::response::{
    Attribute, BankMsg, CosmosMsg, Event, Reply, ReplyOn, Response, SubMsgResponse, DCA_SWAP_ID,
    UNUSED_MSG_ID,
};
use phase_finance::types::{
    BlockInfo, Coin, CoinWeight, DcaConfig, Decimal, Duration, Env, Expiration, State,
    StrategyType, SwapEvent, Timestamp,
};

fn config(destinations: usize, interval: Duration) -> DcaConfig {
    DcaConfig {
        owner: "owner".to_string(),
        recipient_address: "recipient".to_string(),
        executor_address: "executor".to_string(),
        strategy_type: StrategyType::Linear,
        amount_per_trade: 10,
        num_trades: 5,
        swap_interval: interval,
        source_denom: "uosmo".to_string(),
        destinations: (0..destinations)
            .map(|i| CoinWeight { denom: format!("denom{i}"), weight: 100 })
            .collect(),
        max_slippage: Decimal { atomics: 0 },
        twap_window_seconds: 1,
        router_contract: "router".to_string(),
    }
}

fn state() -> State {
    State {
        next_swap: Expiration::AtTime(Timestamp::from_seconds(1_000)),
        paused: false,
        num_trades_executed: 2,
        swap_status: vec![],
    }
}

fn env(height: u64, nanos: u64) -> Env {
    Env {
        block: BlockInfo { height, time: Timestamp::from_nanos(nanos), chain_id: "c".to_string() },
        contract_address: "strategy".to_string(),
    }
}

fn swapped(tokens_in: &str, tokens_out: &str) -> SubMsgResponse {
    SubMsgResponse {
        events: vec![
            Event { ty: "transfer".to_string(), attributes: vec![] },
            Event {
                ty: "token_swapped".to_string(),
                attributes: vec![
                    Attribute::new("module", "gamm"),
                    Attribute::new("tokens_in", tokens_in),
                    Attribute::new("tokens_out", tokens_out),
                ],
            },
        ],
        data: None,
    }
}

fn done(out: u128, denom: &str, nanos: u64) -> SwapEvent {
    SwapEvent {
        executed: true,
        token_in: Some(Coin::new(5, "uosmo")),
        effective_token_out: Some(Coin::new(out, denom)),
        timestamp_nanos: nanos,
    }
}

fn failed(nanos: u64) -> SwapEvent {
    SwapEvent { executed: false, token_in: None, effective_token_out: None, timestamp_nanos: nanos }
}

fn paid(response: &Response) -> Vec<Coin> {
    assert_eq!(response.messages.len(), 1);
    let message = &response.messages[0];
    assert_eq!(message.id, UNUSED_MSG_ID);
    assert_eq!(message.reply_on, ReplyOn::Never);
    match &message.msg {
        CosmosMsg::Bank(BankMsg::Send { to_address, amount }) => {
            assert_eq!(to_address, "recipient");
            amount.clone()
        }
        other => panic!("expected a transfer, got {:?}", other),
    }
}

fn sorted(mut coins: Vec<Coin>) -> Vec<(String, u128)> {
    let mut pairs: Vec<(String, u128)> = coins.drain(..).map(|c| (c.denom, c.amount)).collect();
    pairs.sort();
    pairs
}

#[test]
fn one_leg_of_two_fails() {
    let config = config(2, Duration::Time(60));
    let mut state = state();
    let at = env(10, 2_000_000_000_000);

    let first = try_store_and_finish_dca_swap(
        &config,
        &mut state,
        &at,
        Some(done(7, "denom0", at.block.time.nanos)),
    );
    assert_eq!(first, Response::silent());
    assert_eq!(state.swap_status.len(), 1);
    assert_eq!(state.num_trades_executed, 2);

    let second = try_store_and_finish_dca_swap(&config, &mut state, &at, None);
    assert_eq!(paid(&second), vec![Coin::new(7, "denom0")]);
    assert_eq!(second.attributes, vec![Attribute::new("method", "try_store_and_finish_dca_swap")]);
    assert_eq!(state.num_trades_executed, 3);
    assert!(state.swap_status.is_empty());
    assert_eq!(state.next_swap, Expiration::AtTime(Timestamp::from_seconds(1_060)));
}

#[test]
fn the_next_swap_is_counted_from_the_one_before_however_late_the_outcomes() {
    for arrival in [1_000u64, 1_001, 2_000, 1_000_000] {
        let config = config(1, Duration::Time(1));
        let mut state = state();
        let at = env(10, arrival * 1_000_000_000);
        try_store_and_finish_dca_swap(&config, &mut state, &at, None);
        assert_eq!(state.next_swap, Expiration::AtTime(Timestamp::from_seconds(1_001)));
    }
}

#[test]
fn a_leg_of_which_nothing_is_known_is_recorded_as_failed() {
    let config = config(3, Duration::Time(60));
    let mut state = state();
    let at = env(10, 77);
    try_store_and_finish_dca_swap(&config, &mut state, &at, None);
    assert_eq!(state.swap_status, vec![failed(77)]);
}

#[test]
fn every_order_of_arrival_settles_once_with_the_same_payout() {
    let orders: [[usize; 3]; 6] =
        [[0, 1, 2], [0, 2, 1], [1, 0, 2], [1, 2, 0], [2, 0, 1], [2, 1, 0]];
    let legs = [Some(done(7, "denom0", 1)), None, Some(done(9, "denom2", 3))];
    for order in orders {
        let config = config(3, Duration::Height(10));
        let mut state = state();
        state.next_swap = Expiration::AtHeight(100);
        let mut settled = 0;
        for (count, leg) in order.iter().enumerate() {
            let at = env(100 + count as u64, 5);
            let response =
                try_store_and_finish_dca_swap(&config, &mut state, &at, legs[*leg].clone());
            if count < 2 {
                assert_eq!(response, Response::silent());
                assert_eq!(state.swap_status.len(), count + 1);
                assert_eq!(state.num_trades_executed, 2);
                assert_eq!(state.next_swap, Expiration::AtHeight(100));
            } else {
                settled += 1;
                assert_eq!(
                    sorted(paid(&response)),
                    vec![("denom0".to_string(), 7), ("denom2".to_string(), 9)]
                );
            }
        }
        assert_eq!(settled, 1);
        assert_eq!(state.num_trades_executed, 3);
        assert!(state.swap_status.is_empty());
        assert_eq!(state.next_swap, Expiration::AtHeight(110));
    }
}

#[test]
fn the_payout_keeps_the_order_of_arrival() {
    let config = config(3, Duration::Height(1));
    let mut state = state();
    let at = env(1, 1);
    try_store_and_finish_dca_swap(&config, &mut state, &at, Some(done(9, "denom2", 1)));
    try_store_and_finish_dca_swap(&config, &mut state, &at, Some(done(7, "denom0", 1)));
    let last = try_store_and_finish_dca_swap(&config, &mut state, &at, Some(done(8, "denom1", 1)));
    assert_eq!(
        paid(&last),
        vec![Coin::new(9, "denom2"), Coin::new(7, "denom0"), Coin::new(8, "denom1")]
    );
}

#[test]
fn a_cycle_of_failures_is_settled_without_a_transfer() {
    let config = config(2, Duration::Time(1));
    let mut state = state();
    let at = env(1, 500);
    try_store_and_finish_dca_swap(&config, &mut state, &at, None);
    let last = try_store_and_finish_dca_swap(&config, &mut state, &at, None);
    assert!(last.messages.is_empty());
    assert_eq!(last.attributes, vec![Attribute::new("method", "try_store_and_finish_dca_swap")]);
    assert_eq!(state.num_trades_executed, 3);
    assert!(state.swap_status.is_empty());
    assert_eq!(state.next_swap, Expiration::AtTime(Timestamp::from_seconds(1_001)));
}

#[test]
fn a_single_destination_settles_at_once() {
    let config = config(1, Duration::Time(1));
    let mut state = state();
    let last =
        try_store_and_finish_dca_swap(&config, &mut state, &env(1, 0), Some(done(4, "denom0", 0)));
    assert_eq!(paid(&last), vec![Coin::new(4, "denom0")]);
    assert_eq!(state.num_trades_executed, 3);
}

#[test]
fn settling_counts_one_trade_and_never_passes_the_limit() {
    let config = config(1, Duration::Height(5));
    let mut state = state();
    state.next_swap = Expiration::AtHeight(20);
    state.paused = true;
    state.swap_status = vec![done(1, "denom0", 9)];
    let response = finalize(&config, &mut state);
    assert_eq!(paid(&response), vec![Coin::new(1, "denom0")]);
    assert_eq!(
        state,
        State {
            next_swap: Expiration::AtHeight(25),
            paused: true,
            num_trades_executed: 3,
            swap_status: vec![],
        }
    );

    state.num_trades_executed = 5;
    finalize(&config, &mut state);
    assert_eq!(state.num_trades_executed, 5);
    assert_eq!(state.next_swap, Expiration::AtHeight(30));
}

#[test]
fn the_next_swap_does_not_depend_on_when_outcomes_were_recorded() {
    let config = config(2, Duration::Time(10));
    let mut early = state();
    early.swap_status = vec![done(1, "denom0", 1), failed(2)];
    let mut late = state();
    late.swap_status = vec![done(1, "denom0", 900_000_000), failed(999_999_999)];
    finalize(&config, &mut early);
    finalize(&config, &mut late);
    assert_eq!(early, late);
    assert_eq!(early.next_swap, Expiration::AtTime(Timestamp::from_seconds(1_010)));
}

#[test]
fn a_next_swap_that_the_interval_cannot_move_stays() {
    let config = config(1, Duration::Height(5));
    let mut state = state();
    finalize(&config, &mut state);
    assert_eq!(state.next_swap, Expiration::AtTime(Timestamp::from_seconds(1_000)));
    state.next_swap = Expiration::Never {};
    finalize(&config, &mut state);
    assert_eq!(state.next_swap, Expiration::Never {});
    assert_eq!(state.num_trades_executed, 4);
}

#[test]
fn a_report_that_would_move_the_next_swap_out_of_range_is_not_taken_in() {
    let config = config(2, Duration::Height(5));
    let mut state = state();
    state.next_swap = Expiration::AtHeight(u64::MAX - 4);
    let report = || Reply { id: DCA_SWAP_ID, result: Err("failed".to_string()) };
    assert!(checked_reply(&config, &mut state, &env(1, 1), report()).unwrap().is_ok());
    let kept = state.clone();
    assert!(checked_reply(&config, &mut state, &env(1, 1), report()).is_none());
    assert_eq!(state, kept);
    let stray = Reply { id: DCA_SWAP_ID + 1, result: Err("failed".to_string()) };
    assert!(checked_reply(&config, &mut state, &env(1, 1), stray).unwrap().is_err());
    state.next_swap = Expiration::AtHeight(u64::MAX - 5);
    assert!(checked_reply(&config, &mut state, &env(1, 1), report()).unwrap().is_ok());
    assert_eq!(state.next_swap, Expiration::AtHeight(u64::MAX));
}

#[test]
fn a_leg_marked_executed_that_names_nothing_received_pays_nothing() {
    let config = config(2, Duration::Time(10));
    let mut state = state();
    state.swap_status = vec![
        SwapEvent {
            executed: true,
            token_in: Some(Coin::new(5, "uosmo")),
            effective_token_out: None,
            timestamp_nanos: 0,
        },
        SwapEvent {
            executed: false,
            token_in: None,
            effective_token_out: Some(Coin::new(3, "denom1")),
            timestamp_nanos: 0,
        },
    ];
    let response = finalize(&config, &mut state);
    assert!(response.messages.is_empty());
}

#[test]
fn the_router_s_report_is_read() {
    let outcome = read_swap_outcome(&swapped("5uosmo", "7uion"), 42).unwrap();
    assert_eq!(
        outcome,
        SwapEvent {
            executed: true,
            token_in: Some(Coin::new(5, "uosmo")),
            effective_token_out: Some(Coin::new(7, "uion")),
            timestamp_nanos: 42,
        }
    );
}

#[test]
fn the_first_event_and_the_first_attribute_count() {
    let mut report = swapped("5uosmo", "7uion");
    report.events[1].attributes.push(Attribute::new("tokens_out", "8uion"));
    report.events.push(Event {
        ty: "token_swapped".to_string(),
        attributes: vec![
            Attribute::new("tokens_in", "1uosmo"),
            Attribute::new("tokens_out", "2uion"),
        ],
    });
    let outcome = read_swap_outcome(&report, 0).unwrap();
    assert_eq!(outcome.effective_token_out, Some(Coin::new(7, "uion")));

    report.events[1].attributes.clear();
    assert_eq!(read_swap_outcome(&report, 0), None);
}

#[test]
fn a_report_that_cannot_be_read_is_no_outcome() {
    let empty = SubMsgResponse { events: vec![], data: None };
    assert_eq!(read_swap_outcome(&empty, 0), None);

    let mut other_kind = swapped("5uosmo", "7uion");
    other_kind.events[1].ty = "Token_swapped".to_string();
    assert_eq!(read_swap_outcome(&other_kind, 0), None);

    let mut no_in = swapped("5uosmo", "7uion");
    no_in.events[1].attributes.remove(1);
    assert_eq!(read_swap_outcome(&no_in, 0), None);

    let mut no_out = swapped("5uosmo", "7uion");
    no_out.events[1].attributes.remove(2);
    assert_eq!(read_swap_outcome(&no_out, 0), None);

    assert_eq!(read_swap_outcome(&swapped("uosmo", "7uion"), 0), None);
    assert_eq!(read_swap_outcome(&swapped("5uosmo", ""), 0), None);
}

#[test]
fn a_report_is_taken_in_as_its_outcome() {
    let config = config(2, Duration::Time(60));
    let at = env(1, 9);

    let mut state = state();
    let response = process_dca_swap_response(&config, &mut state, &at, swapped("5uosmo", "7uion"));
    assert_eq!(response, Response::silent());
    assert_eq!(state.swap_status, vec![done(7, "uion", 9)]);

    let response = process_dca_swap_response(&config, &mut state, &at, swapped("5uosmo", "uion"));
    assert_eq!(paid(&response), vec![Coin::new(7, "uion")]);
    assert_eq!(state.num_trades_executed, 3);
}

#[test]
fn the_host_s_report_is_taken_in_whether_the_swap_went_through_or_not() {
    let config = config(2, Duration::Time(60));
    let at = env(1, 9);
    let mut state = state();

    let failure = Reply { id: DCA_SWAP_ID, result: Err("out of gas".to_string()) };
    assert_eq!(reply(&config, &mut state, &at, failure).unwrap(), Response::silent());
    assert_eq!(state.swap_status, vec![failed(9)]);

    let success = Reply { id: DCA_SWAP_ID, result: Ok(swapped("5uosmo", "7uion")) };
    let response = reply(&config, &mut state, &at, success).unwrap();
    assert_eq!(paid(&response), vec![Coin::new(7, "uion")]);
    assert!(state.swap_status.is_empty());
}

#[test]
fn a_report_under_another_id_is_refused() {
    let config = config(2, Duration::Time(60));
    let mut state = state();
    let kept = state.clone();
    for id in [0, DCA_SWAP_ID + 1, u64::MAX] {
        let stray = Reply { id, result: Ok(swapped("5uosmo", "7uion")) };
        let err = reply(&config, &mut state, &env(1, 9), stray).unwrap_err();
        assert_eq!(err, cosmwasm_std::StdError::generic_err("unknown reply id"));
        assert_eq!(err.to_string(), "Generic error: unknown reply id");
        assert_eq!(state, kept);
    }
}
