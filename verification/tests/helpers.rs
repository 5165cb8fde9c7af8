use phase_finance::croncat_helpers::{
    calculate_croncat_funding, estimate_croncat_funding, extract_croncat_task_hash,
};
use phase_finance::error::ContractError;
use phase_finance::helpers::{get_expiration_time, token_string_to_coin};
use phase_finance::query::{query_all_upcoming_swaps, query_funds, query_upcoming_swap};
use phase_finance::response::{Attribute, Event, SubMsgResponse};
use phase_finance::text::decimal_string;
use phase_finance::types::{
    BlockInfo, Coin, CoinWeight, DcaConfig, Decimal, Duration, Env, Expiration, State,
    StrategyType, Timestamp, UpcomingSwapResponse,
};

fn config() -> DcaConfig {
    DcaConfig {
        owner: "owner".to_string(),
        recipient_address: "recipient".to_string(),
        executor_address: "executor".to_string(),
        strategy_type: StrategyType::Linear,
        amount_per_trade: 10,
        num_trades: 5,
        swap_interval: Duration::Time(60),
        source_denom: "uosmo".to_string(),
        destinations: vec![
            CoinWeight { denom: "uion".to_string(), weight: 1 },
            CoinWeight { denom: "ujuno".to_string(), weight: 1 },
        ],
        max_slippage: Decimal { atomics: 0 },
        twap_window_seconds: 1,
        router_contract: "router".to_string(),
    }
}

fn env(height: u64, nanos: u64) -> Env {
    Env {
        block: BlockInfo { height, time: Timestamp::from_nanos(nanos), chain_id: "c".to_string() },
        contract_address: "strategy".to_string(),
    }
}

#[test]
fn coins_are_read_as_amount_and_denom() {
    assert_eq!(token_string_to_coin("100uosmo"), Some(Coin::new(100, "uosmo")));
    assert_eq!(token_string_to_coin("0x"), Some(Coin::new(0, "x")));
    assert_eq!(token_string_to_coin("007uion"), Some(Coin::new(7, "uion")));
    assert_eq!(token_string_to_coin("42"), Some(Coin::new(42, "")));
    assert_eq!(token_string_to_coin("12 uosmo \n"), Some(Coin::new(12, "uosmo")));
    assert_eq!(token_string_to_coin("5ibc/AB12"), Some(Coin::new(5, "ibc/AB12")));
    assert_eq!(
        token_string_to_coin("340282366920938463463374607431768211455u"),
        Some(Coin::new(u128::MAX, "u"))
    );
}

#[test]
fn what_is_no_coin_is_not_read() {
    for text in [
        "",
        "uosmo",
        " 100uosmo",
        "+100uosmo",
        "-1uosmo",
        "\u{663}uosmo",
        "12\u{663}uosmo",
        "\u{bd}uosmo",
        "340282366920938463463374607431768211456u",
    ] {
        assert_eq!(token_string_to_coin(text), None, "{:?}", text);
    }
}

#[test]
fn the_time_of_a_swap_is_read_in_whole_seconds() {
    assert_eq!(get_expiration_time(Expiration::AtTime(Timestamp::from_nanos(0))), 0);
    assert_eq!(get_expiration_time(Expiration::AtTime(Timestamp::from_nanos(999_999_999))), 0);
    assert_eq!(get_expiration_time(Expiration::AtTime(Timestamp::from_nanos(1_000_000_000))), 1);
    assert_eq!(
        get_expiration_time(Expiration::AtTime(Timestamp::from_nanos(u64::MAX))),
        18_446_744_073
    );
    assert_eq!(get_expiration_time(Expiration::AtHeight(5)), u64::MAX);
    assert_eq!(get_expiration_time(Expiration::Never {}), u64::MAX);
}

#[test]
fn numbers_are_written_in_decimal() {
    for n in [0u128, 1, 9, 10, 11, 99, 100, 1_000_000, 18_446_744_073_709_551_615, u128::MAX] {
        assert_eq!(decimal_string(n), n.to_string());
    }
}

#[test]
fn every_error_words_itself() {
    let cases = [
        (ContractError::Unauthorized {}, "Unauthorized".to_string()),
        (ContractError::NoBalance {}, "No balance".to_string()),
        (
            ContractError::DcaSwapNotAllowedYet { next_swap_event_time: 1_700_000_000 },
            "DCA swap not allowed yet, next swap will be executable at 1700000000".to_string(),
        ),
        (ContractError::DcaPaused, "DCA strategy is paused".to_string()),
        (ContractError::DcaNotPaused, "DCA strategy is not paused".to_string()),
        (ContractError::MaxTradeLimit {}, "Reached max trade limit".to_string()),
        (
            ContractError::CustomError { val: "a \"b\"\n".to_string() },
            format!("Custom Error val: {:?}", "a \"b\"\n"),
        ),
        (
            ContractError::Std(cosmwasm_std::StdError::generic_err("x")),
            "Generic error: x".to_string(),
        ),
        (
            ContractError::PaymentError(cw_utils::PaymentError::MultipleDenoms {}),
            "Sent more than one denomination".to_string(),
        ),
        (
            ContractError::InvalidDenom(cw_denom::DenomError::InvalidCharacter { c: '!' }),
            "invalid character (!) in native denom".to_string(),
        ),
    ];
    for (error, words) in cases {
        assert_eq!(error.to_string(), words);
    }
}

#[test]
fn the_upcoming_swap_is_told() {
    let state = State {
        next_swap: Expiration::AtTime(Timestamp::from_nanos(5_500_000_000)),
        paused: true,
        num_trades_executed: 0,
        swap_status: vec![],
    };
    assert_eq!(
        query_upcoming_swap(&state, &env(1, 5_499_999_999)),
        UpcomingSwapResponse { next_swap: 5, can_execute: false }
    );
    assert_eq!(
        query_upcoming_swap(&state, &env(1, 5_500_000_000)),
        UpcomingSwapResponse { next_swap: 5, can_execute: true }
    );
    assert!(query_all_upcoming_swaps(&config(), &state, &env(1, 0)).is_empty());
}

#[test]
fn funds_are_those_of_the_source_and_of_the_destinations() {
    let balances = vec![
        Coin::new(1, "uatom"),
        Coin::new(0, "ujuno"),
        Coin::new(2, "uosmo"),
        Coin::new(3, "uion"),
        Coin::new(4, "uionx"),
    ];
    assert_eq!(
        query_funds(&config(), &balances),
        vec![Coin::new(0, "ujuno"), Coin::new(2, "uosmo"), Coin::new(3, "uion")]
    );
    assert!(query_funds(&config(), &vec![]).is_empty());
}

#[test]
fn the_scheduling_service_is_funded_per_trade() {
    assert_eq!(estimate_croncat_funding(vec![], &config()), vec![Coin::new(54_330, "uosmo")]);
    assert_eq!(
        estimate_croncat_funding(vec![Coin::new(1, "uion")], &config()),
        vec![Coin::new(54_330, "uosmo")]
    );
    assert_eq!(
        calculate_croncat_funding(Coin::new(5, "ujuno"), 3, 10),
        vec![Coin::new(35, "ujuno")]
    );
    assert_eq!(
        calculate_croncat_funding(Coin::new(0, "ujuno"), u64::MAX, 1),
        vec![Coin::new(u64::MAX as u128, "ujuno")]
    );
}

#[test]
fn the_hash_of_the_task_is_read_from_the_first_wasm_event() {
    let report = SubMsgResponse {
        events: vec![
            Event {
                ty: "execute".to_string(),
                attributes: vec![Attribute::new("task_hash", "no")],
            },
            Event {
                ty: "wasm".to_string(),
                attributes: vec![
                    Attribute::new("method", "create_task"),
                    Attribute::new("task_hash", "abc123"),
                    Attribute::new("task_hash", "later"),
                ],
            },
        ],
        data: None,
    };
    assert_eq!(extract_croncat_task_hash(report.clone()), Ok("abc123".to_string()));

    let mut no_hash = report.clone();
    no_hash.events[1].attributes.truncate(1);
    assert_eq!(
        extract_croncat_task_hash(no_hash).unwrap_err().to_string(),
        "Generic error: CRITICAL: no task_hash attribute found in croncat create task response"
    );

    let mut no_event = report;
    no_event.events.truncate(1);
    assert_eq!(
        extract_croncat_task_hash(no_event).unwrap_err().to_string(),
        "Generic error: CRITICAL: no wasm event found in croncat create task response"
    );
}
