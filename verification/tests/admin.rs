use phase_finance::error::ContractError;
use phase_finance::execute::{
    checked_resume_dca, deals_in, is_due, pause_dca, resume_dca, try_cancel_dca, try_perform_dca,
};
use phase_finance::response::{Attribute, BankMsg, CosmosMsg, Response};
use phase_finance::types::{
    BlockInfo, Coin, CoinWeight, DcaConfig, Decimal, Duration, Env, Expiration, MessageInfo, State,
    StrategyType, Timestamp,
};

fn config(interval: Duration) -> DcaConfig {
    DcaConfig {
        owner: "owner".to_string(),
        recipient_address: "recipient".to_string(),
        executor_address: "executor".to_string(),
        strategy_type: StrategyType::Linear,
        amount_per_trade: 10,
        num_trades: 5,
        swap_interval: interval,
        source_denom: "uosmo".to_string(),
        destinations: vec![
            CoinWeight { denom: "uion".to_string(), weight: 1 },
            CoinWeight { denom: "ujuno".to_string(), weight: 1 },
        ],
        max_slippage: Decimal { atomics: 0 },
        twap_window_seconds: 1,
        router_contract: "router".to_string(),
    }
}

fn state(next_swap: Expiration) -> State {
    State { next_swap, paused: false, num_trades_executed: 0, swap_status: vec![] }
}

fn env(height: u64, seconds: u64) -> Env {
    Env {
        block: BlockInfo {
            height,
            time: Timestamp::from_seconds(seconds),
            chain_id: "c".to_string(),
        },
        contract_address: "strategy".to_string(),
    }
}

fn from(sender: &str) -> MessageInfo {
    MessageInfo { sender: sender.to_string(), funds: vec![] }
}

fn swept(response: &Response) -> Vec<Coin> {
    assert_eq!(response.messages.len(), 1);
    match &response.messages[0].msg {
        CosmosMsg::Bank(BankMsg::Send { to_address, amount }) => {
            assert_eq!(to_address, "owner");
            amount.clone()
        }
        other => panic!("expected a transfer, got {:?}", other),
    }
}

#[test]
fn pausing_twice_fails_the_second_time() {
    let config = config(Duration::Time(60));
    let mut state = state(Expiration::AtHeight(0));
    let response = pause_dca(&config, &mut state, &from("owner")).unwrap();
    assert_eq!(response.attributes, vec![Attribute::new("method", "pause_dca")]);
    assert!(response.messages.is_empty());
    assert!(state.paused);
    let kept = state.clone();
    assert_eq!(pause_dca(&config, &mut state, &from("owner")), Err(ContractError::DcaPaused));
    assert_eq!(state, kept);
}

#[test]
fn resuming_twice_fails_the_second_time() {
    let config = config(Duration::Time(60));
    let mut state = state(Expiration::AtTime(Timestamp::from_seconds(500)));
    state.paused = true;
    resume_dca(&config, &mut state, &env(1, 100), &from("owner")).unwrap();
    assert!(!state.paused);
    let kept = state.clone();
    assert_eq!(
        resume_dca(&config, &mut state, &env(1, 100), &from("owner")),
        Err(ContractError::DcaNotPaused)
    );
    assert_eq!(state, kept);
}

#[test]
fn only_the_owner_pauses_and_resumes() {
    let config = config(Duration::Time(60));
    for paused in [false, true] {
        let mut state = state(Expiration::AtHeight(0));
        state.paused = paused;
        let kept = state.clone();
        for sender in ["executor", "recipient", ""] {
            assert_eq!(
                pause_dca(&config, &mut state, &from(sender)),
                Err(ContractError::Unauthorized {})
            );
            assert_eq!(
                resume_dca(&config, &mut state, &env(1, 1), &from(sender)),
                Err(ContractError::Unauthorized {})
            );
            assert_eq!(state, kept);
        }
    }
}

#[test]
fn a_paused_strategy_does_not_swap() {
    let config = config(Duration::Time(60));
    let mut state = state(Expiration::AtHeight(0));
    pause_dca(&config, &mut state, &from("owner")).unwrap();
    assert!(!is_due(&state, &config, &env(1, 1).block));
    assert_eq!(
        try_perform_dca(&config, &state, &env(1, 1), &from("executor")),
        Err(ContractError::DcaPaused)
    );
}

#[test]
fn resuming_after_the_time_has_passed_puts_the_swap_off() {
    let config = config(Duration::Time(60));
    let mut state = state(Expiration::AtTime(Timestamp::from_seconds(100)));
    assert!(is_due(&state, &config, &env(1, 100).block));
    pause_dca(&config, &mut state, &from("owner")).unwrap();

    let later = env(2, 1_000);
    let response = resume_dca(&config, &mut state, &later, &from("owner")).unwrap();
    assert_eq!(state.next_swap, Expiration::AtTime(Timestamp::from_seconds(1_060)));
    assert!(!state.paused);
    assert_eq!(
        response.attributes,
        vec![Attribute::new("method", "resume_dca"), Attribute::new("next_swap_time", "1060")]
    );
    assert!(!is_due(&state, &config, &later.block));
    assert_eq!(
        try_perform_dca(&config, &state, &later, &from("executor")),
        Err(ContractError::DcaSwapNotAllowedYet { next_swap_event_time: 1_060 })
    );
    assert!(try_perform_dca(&config, &state, &env(3, 1_060), &from("executor")).is_ok());
}

#[test]
fn resuming_before_the_time_leaves_the_swap_where_it_is() {
    let config = config(Duration::Height(10));
    let mut state = state(Expiration::AtHeight(100));
    state.paused = true;
    let response = resume_dca(&config, &mut state, &env(99, 1_000), &from("owner")).unwrap();
    assert_eq!(state.next_swap, Expiration::AtHeight(100));
    assert_eq!(
        response.attributes[1],
        Attribute::new("next_swap_time", "18446744073709551615")
    );

    state.paused = true;
    resume_dca(&config, &mut state, &env(100, 1_000), &from("owner")).unwrap();
    assert_eq!(state.next_swap, Expiration::AtHeight(110));
}

#[test]
fn resuming_is_refused_before_the_numbers_are_looked_at() {
    let config = config(Duration::Height(10));
    let mut state = state(Expiration::AtHeight(100));
    let last = env(u64::MAX, 1_000);
    assert_eq!(
        checked_resume_dca(&config, &mut state, &last, &from("executor")),
        Some(Err(ContractError::Unauthorized {}))
    );
    assert_eq!(
        checked_resume_dca(&config, &mut state, &last, &from("owner")),
        Some(Err(ContractError::DcaNotPaused))
    );
    state.paused = true;
    let kept = state.clone();
    assert_eq!(checked_resume_dca(&config, &mut state, &last, &from("owner")), None);
    assert_eq!(state, kept);
    assert!(checked_resume_dca(&config, &mut state, &env(99, 0), &from("owner")).unwrap().is_ok());
    assert_eq!(state.next_swap, Expiration::AtHeight(100));
}

#[test]
fn cancel_without_a_balance_fails() {
    let config = config(Duration::Time(60));
    assert_eq!(try_cancel_dca(&config, &from("owner"), &vec![]), Err(ContractError::NoBalance {}));
    let zero = vec![Coin::new(0, "uosmo"), Coin::new(0, "uion")];
    assert_eq!(try_cancel_dca(&config, &from("owner"), &zero), Err(ContractError::NoBalance {}));
    let foreign = vec![Coin::new(5, "uatom")];
    assert_eq!(
        try_cancel_dca(&config, &from("owner"), &foreign),
        Err(ContractError::NoBalance {})
    );
    assert_eq!(
        try_cancel_dca(&config, &from("owner"), &vec![]).unwrap_err().to_string(),
        "No balance"
    );
}

#[test]
fn cancel_sweeps_all_that_is_held() {
    let config = config(Duration::Time(60));
    let balances = vec![
        Coin::new(3, "ujuno"),
        Coin::new(0, "uion"),
        Coin::new(5, "uatom"),
        Coin::new(90, "uosmo"),
    ];
    let response = try_cancel_dca(&config, &from("owner"), &balances).unwrap();
    assert_eq!(response.attributes, vec![Attribute::new("method", "try_cancel_dca")]);
    let taken = swept(&response);
    assert_eq!(taken, vec![Coin::new(3, "ujuno"), Coin::new(90, "uosmo")]);
    for coin in &balances {
        if deals_in(&config, &coin.denom) {
            let left = coin.amount
                - taken.iter().filter(|c| c.denom == coin.denom).map(|c| c.amount).sum::<u128>();
            assert_eq!(left, 0);
        }
    }
}

#[test]
fn only_the_owner_cancels() {
    let config = config(Duration::Time(60));
    let balances = vec![Coin::new(90, "uosmo")];
    for sender in ["executor", "recipient", "Owner"] {
        assert_eq!(
            try_cancel_dca(&config, &from(sender), &balances),
            Err(ContractError::Unauthorized {})
        );
        assert_eq!(
            try_cancel_dca(&config, &from(sender), &vec![]),
            Err(ContractError::Unauthorized {})
        );
    }
}

#[test]
fn the_strategy_deals_in_its_source_and_its_destinations() {
    let config = config(Duration::Time(60));
    for denom in ["uosmo", "uion", "ujuno"] {
        assert!(deals_in(&config, &denom.to_string()));
    }
    for denom in ["uatom", "", "uio", "uosmo "] {
        assert!(!deals_in(&config, &denom.to_string()));
    }
}
