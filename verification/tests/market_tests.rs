use market::contract::{
    instantiate, query_config, query_ident, query_state, query_tvl, register_aterra, reply,
    INITIAL_DEPOSIT_AMOUNT, TOKEN_INSTANTIATE_REPLY_ID,
};
use market::deposit::{deposit_stable, redeem_all_stable, redeem_n_stable};
use market::error::ContractError;
use market::helpers::{calculate_accrued_interest, get_decimals, Rate};
use market::state::{
    read_deposit_info, read_tvl_indice, store_state, Coin, DepositInfo, InstantiateMsg,
    SettlementMsg, State, Store,
};

fn uusd(amount: u128) -> Vec<Coin> {
    vec![Coin { denom: "uusd".to_string(), amount }]
}

fn init_msg(rate: &str) -> InstantiateMsg {
    InstantiateMsg {
        stable_denom: "uusd".to_string(),
        aterra_code_id: 42,
        interest: rate.to_string(),
    }
}

fn setup(rate: &str) -> Store {
    let mut store = instantiate("market".to_string(), &uusd(INITIAL_DEPOSIT_AMOUNT), &init_msg(rate))
        .expect("instantiate");
    register_aterra(&mut store, "aterra".to_string()).expect("register");
    store
}

#[test]
fn redeem_stable() {
    let last_balance: u64 = 8000000;
    let rate: String = "0.000382982750338989".to_string();
    let decimals = get_decimals(&rate).unwrap();
    println!("{:?}", decimals);
    let accrued_interest = calculate_accrued_interest(
        &DepositInfo {
            last_interaction: 1,
            last_balance: u128::from(last_balance),
            accrued_interest: 0,
            initial_interaction: 1,
            sum_deposits: 0,
        },
        decimals,
        0,
    );

    println!("{:?}", accrued_interest);
    assert_eq!(accrued_interest, Ok(0));
}

#[test]
fn one_period_interest_has_exact_value() {
    let decimals = get_decimals("0.000382982750338989").unwrap();
    assert_eq!(decimals, Rate { atomics: 382_982_750_338_989 });
    let record = DepositInfo {
        last_interaction: 1,
        last_balance: 8_000_000,
        accrued_interest: 0,
        initial_interaction: 1,
        sum_deposits: 0,
    };
    // One period of 8,000,000 * 0.000382982750338989, rounded down.
    assert_eq!(calculate_accrued_interest(&record, decimals, 1), Ok(3063));
    // Two periods compound on the grown balance.
    let grown = 8_000_000 + 3063;
    let second = (grown * 382_982_750_338_989u128) / 1_000_000_000_000_000_000u128;
    assert_eq!(calculate_accrued_interest(&record, decimals, 2), Ok(3063 + second));
}

#[test]
fn rate_parsing_accepts_and_rejects() {
    assert_eq!(get_decimals("0.0005"), Ok(Rate { atomics: 500_000_000_000_000 }));
    assert_eq!(get_decimals("0.25"), Ok(Rate { atomics: 250_000_000_000_000_000 }));
    // The whole part is ignored: only the fraction configures the rate.
    assert_eq!(get_decimals("5.25"), Ok(Rate { atomics: 250_000_000_000_000_000 }));
    // No separator at all reads as the zero rate.
    assert_eq!(get_decimals("30"), Ok(Rate { atomics: 0 }));
    assert_eq!(get_decimals(""), Ok(Rate { atomics: 0 }));
    // More than one separator is malformed.
    assert_eq!(get_decimals("1.2.3"), Err(ContractError::FormatError));
    // An empty fraction is malformed.
    assert_eq!(get_decimals("0."), Err(ContractError::FormatError));
    // More than eighteen fractional digits are malformed.
    assert_eq!(get_decimals("0.0000000000000000001"), Err(ContractError::FormatError));
    // A non-digit fraction is malformed.
    assert_eq!(get_decimals("0.12a"), Err(ContractError::FormatError));
    assert_eq!(get_decimals("0.+12"), Err(ContractError::FormatError));
}

#[test]
fn instantiate_checks_the_initial_deposit() {
    let err = instantiate("market".to_string(), &uusd(999_999), &init_msg("0.0005"));
    assert_eq!(err.unwrap_err(), ContractError::InitialFundsNotDeposited);
    let err = instantiate("market".to_string(), &Vec::new(), &init_msg("0.0005"));
    assert_eq!(err.unwrap_err(), ContractError::InitialFundsNotDeposited);
    let err = instantiate(
        "market".to_string(),
        &vec![Coin { denom: "uluna".to_string(), amount: INITIAL_DEPOSIT_AMOUNT }],
        &init_msg("0.0005"),
    );
    assert_eq!(err.unwrap_err(), ContractError::InitialFundsNotDeposited);
}

#[test]
fn instantiate_rejects_a_malformed_rate() {
    let err = instantiate("market".to_string(), &uusd(INITIAL_DEPOSIT_AMOUNT), &init_msg("1.2.3"));
    assert_eq!(err.unwrap_err(), ContractError::FormatError);
}

#[test]
fn instantiate_writes_the_genesis_state() {
    let store =
        instantiate("market".to_string(), &uusd(INITIAL_DEPOSIT_AMOUNT), &init_msg("0.0005"))
            .expect("instantiate");
    let config = store.config.as_ref().expect("config");
    assert_eq!(config.contract_addr, "market");
    assert_eq!(config.aterra_contract, None);
    assert_eq!(config.stable_denom, "uusd");
    assert_eq!(config.interest_rate, Rate { atomics: 500_000_000_000_000 });
    assert_eq!(
        store.state,
        Some(State { tvl: 0, tvl_indices: 1, accrued_interest_payments: 0 })
    );
    assert_eq!(store.tvl_history.len(), 1);
    assert_eq!(store.tvl_history[0].tvl, 0);
    assert_eq!(store.tvl_history[0].epoch, 0);
    assert_eq!(store.pending_instantiation, Some(TOKEN_INSTANTIATE_REPLY_ID));
}

#[test]
fn registration_is_one_shot() {
    let mut store =
        instantiate("market".to_string(), &uusd(INITIAL_DEPOSIT_AMOUNT), &init_msg("0.0005"))
            .expect("instantiate");
    assert_eq!(register_aterra(&mut store, "aterra".to_string()), Ok(()));
    assert_eq!(
        store.config.as_ref().unwrap().aterra_contract,
        Some("aterra".to_string())
    );
    // A second attempt with a different companion identity fails and
    // leaves the registered identity unchanged.
    assert_eq!(
        register_aterra(&mut store, "impostor".to_string()),
        Err(ContractError::Unauthorized)
    );
    assert_eq!(
        store.config.as_ref().unwrap().aterra_contract,
        Some("aterra".to_string())
    );
}

#[test]
fn reply_checks_the_correlation_id() {
    let mut store =
        instantiate("market".to_string(), &uusd(INITIAL_DEPOSIT_AMOUNT), &init_msg("0.0005"))
            .expect("instantiate");
    assert_eq!(
        reply(&mut store, 7, Some("aterra".to_string())),
        Err(ContractError::InvalidReplyId)
    );
    assert_eq!(
        reply(&mut store, TOKEN_INSTANTIATE_REPLY_ID, None),
        Err(ContractError::ParseError)
    );
    assert_eq!(store.config.as_ref().unwrap().aterra_contract, None);
    assert_eq!(reply(&mut store, TOKEN_INSTANTIATE_REPLY_ID, Some("aterra".to_string())), Ok(()));
    assert_eq!(
        store.config.as_ref().unwrap().aterra_contract,
        Some("aterra".to_string())
    );
    // The callback route hits the same one-shot guard.
    assert_eq!(
        reply(&mut store, TOKEN_INSTANTIATE_REPLY_ID, Some("other".to_string())),
        Err(ContractError::Unauthorized)
    );
}

#[test]
fn first_deposit_mints_the_amount() {
    let mut store = setup("0.0005");
    let time = 1_000;
    let msgs = deposit_stable(&mut store, time, "alice".to_string(), &uusd(1_000_000))
        .expect("deposit");
    assert_eq!(
        msgs,
        vec![SettlementMsg::Mint { recipient: "alice".to_string(), amount: 1_000_000 }]
    );
    let record = read_deposit_info(&store, &"alice".to_string());
    assert_eq!(record.last_balance, 1_000_000);
    assert_eq!(record.accrued_interest, 0);
    assert_eq!(record.initial_interaction, time);
    assert_eq!(record.last_interaction, time);
    assert_eq!(record.sum_deposits, 1_000_000);
    let state = store.state.unwrap();
    assert_eq!(state.tvl, 1_000_000);
    assert_eq!(state.accrued_interest_payments, 0);
}

#[test]
fn second_deposit_compounds_one_period() {
    let mut store = setup("0.0005");
    deposit_stable(&mut store, 1_000, "alice".to_string(), &uusd(1_000_000)).expect("first");
    // Thirty time-units later: exactly one compounding period on the
    // pre-existing 1,000,000 before the new principal is added.
    let msgs = deposit_stable(&mut store, 1_030, "alice".to_string(), &uusd(1_000_000))
        .expect("second");
    assert_eq!(
        msgs,
        vec![SettlementMsg::Mint { recipient: "alice".to_string(), amount: 1_000_500 }]
    );
    let record = read_deposit_info(&store, &"alice".to_string());
    assert_eq!(record.last_balance, 2_000_500);
    assert_eq!(record.accrued_interest, 500);
    assert_eq!(record.sum_deposits, 2_000_000);
    assert_eq!(record.initial_interaction, 1_000);
    assert_eq!(record.last_interaction, 1_030);
    let state = store.state.unwrap();
    assert_eq!(state.accrued_interest_payments, 500);
    assert_eq!(state.tvl, 2_000_500);
}

#[test]
fn deposit_under_one_period_accrues_nothing() {
    let mut store = setup("0.0005");
    deposit_stable(&mut store, 1_000, "alice".to_string(), &uusd(1_000_000)).expect("first");
    // Twenty-nine time-units: zero whole periods elapsed.
    let msgs =
        deposit_stable(&mut store, 1_029, "alice".to_string(), &uusd(500)).expect("second");
    assert_eq!(
        msgs,
        vec![SettlementMsg::Mint { recipient: "alice".to_string(), amount: 500 }]
    );
    let record = read_deposit_info(&store, &"alice".to_string());
    assert_eq!(record.last_balance, 1_000_500);
    assert_eq!(record.accrued_interest, 0);
}

#[test]
fn deposit_without_base_denom_is_rejected() {
    let mut store = setup("0.0005");
    assert_eq!(
        deposit_stable(&mut store, 1_000, "alice".to_string(), &Vec::new()),
        Err(ContractError::ZeroDeposit)
    );
    assert_eq!(
        deposit_stable(
            &mut store,
            1_000,
            "alice".to_string(),
            &vec![Coin { denom: "uluna".to_string(), amount: 5 }],
        ),
        Err(ContractError::ZeroDeposit)
    );
    assert_eq!(
        deposit_stable(&mut store, 1_000, "alice".to_string(), &uusd(0)),
        Err(ContractError::ZeroDeposit)
    );
    assert_eq!(read_deposit_info(&store, &"alice".to_string()), DepositInfo::default());
}

#[test]
fn deposit_before_registration_is_rejected() {
    let mut store =
        instantiate("market".to_string(), &uusd(INITIAL_DEPOSIT_AMOUNT), &init_msg("0.0005"))
            .expect("instantiate");
    assert_eq!(
        deposit_stable(&mut store, 1_000, "alice".to_string(), &uusd(100)),
        Err(ContractError::Unauthorized)
    );
}

#[test]
fn corrupted_snapshot_counter_is_fatal() {
    let mut store = setup("0.0005");
    // Point the counter at an already-occupied slot of the history.
    store_state(&mut store, State { tvl: 0, tvl_indices: 0, accrued_interest_payments: 0 })
        .unwrap();
    assert_eq!(
        deposit_stable(&mut store, 1_000, "alice".to_string(), &uusd(100)),
        Err(ContractError::Overflow)
    );
}

#[test]
fn partial_redemption_checks_the_balance() {
    let mut store = setup("0.0005");
    deposit_stable(&mut store, 1_000, "alice".to_string(), &uusd(1_000_000)).expect("deposit");
    assert_eq!(
        redeem_n_stable(&mut store, 1_000, "alice".to_string(), 1_000_001),
        Err(ContractError::InsufficientBalance)
    );
    // The failed redemption left everything untouched.
    assert_eq!(read_deposit_info(&store, &"alice".to_string()).last_balance, 1_000_000);
    assert_eq!(store.state.unwrap().tvl, 1_000_000);
}

#[test]
fn partial_redemption_burns_and_sends() {
    let mut store = setup("0.0005");
    deposit_stable(&mut store, 1_000, "alice".to_string(), &uusd(1_000_000)).expect("deposit");
    let msgs = redeem_n_stable(&mut store, 1_000, "alice".to_string(), 400_000).expect("redeem");
    assert_eq!(
        msgs,
        vec![
            SettlementMsg::Burn { amount: 400_000 },
            SettlementMsg::Transfer {
                to: "alice".to_string(),
                denom: "uusd".to_string(),
                amount: 400_000,
            },
        ]
    );
    let record = read_deposit_info(&store, &"alice".to_string());
    assert_eq!(record.last_balance, 600_000);
    assert_eq!(store.state.unwrap().tvl, 600_000);
}

#[test]
fn partial_redemption_mints_fresh_interest_first() {
    let mut store = setup("0.0005");
    deposit_stable(&mut store, 1_000, "alice".to_string(), &uusd(1_000_000)).expect("deposit");
    // One period later the redemption credits 500 of interest before the
    // withdrawal, and mints it separately.
    let msgs = redeem_n_stable(&mut store, 1_030, "alice".to_string(), 400_000).expect("redeem");
    assert_eq!(
        msgs,
        vec![
            SettlementMsg::Mint { recipient: "alice".to_string(), amount: 500 },
            SettlementMsg::Burn { amount: 400_000 },
            SettlementMsg::Transfer {
                to: "alice".to_string(),
                denom: "uusd".to_string(),
                amount: 400_000,
            },
        ]
    );
    let record = read_deposit_info(&store, &"alice".to_string());
    assert_eq!(record.last_balance, 600_500);
    assert_eq!(record.accrued_interest, 500);
    let state = store.state.unwrap();
    assert_eq!(state.accrued_interest_payments, 500);
}

#[test]
fn full_redemption_resets_the_record() {
    let mut store = setup("0.0005");
    deposit_stable(&mut store, 1_000, "alice".to_string(), &uusd(1_000_000)).expect("deposit");
    let msgs = redeem_all_stable(&mut store, 1_030, "alice".to_string(), 0).expect("redeem all");
    // The whole balance is burnt; the transfer adds one period of
    // interest on top.
    assert_eq!(
        msgs,
        vec![
            SettlementMsg::Burn { amount: 1_000_000 },
            SettlementMsg::Transfer {
                to: "alice".to_string(),
                denom: "uusd".to_string(),
                amount: 1_000_500,
            },
        ]
    );
    assert_eq!(read_deposit_info(&store, &"alice".to_string()), DepositInfo::default());
    assert_eq!(store.state.unwrap().tvl, 0);
}

#[test]
fn deposit_after_full_redemption_is_a_first_deposit() {
    let mut store = setup("0.0005");
    deposit_stable(&mut store, 1_000, "alice".to_string(), &uusd(1_000_000)).expect("deposit");
    redeem_all_stable(&mut store, 1_060, "alice".to_string(), 0).expect("redeem all");
    // Long after the old record's timestamps, a new deposit accrues no
    // interest and behaves exactly like a first-ever deposit.
    let msgs = deposit_stable(&mut store, 9_000, "alice".to_string(), &uusd(250_000))
        .expect("deposit again");
    assert_eq!(
        msgs,
        vec![SettlementMsg::Mint { recipient: "alice".to_string(), amount: 250_000 }]
    );
    let record = read_deposit_info(&store, &"alice".to_string());
    assert_eq!(record.last_balance, 250_000);
    assert_eq!(record.accrued_interest, 0);
    assert_eq!(record.initial_interaction, 9_000);
    assert_eq!(record.last_interaction, 9_000);
    assert_eq!(record.sum_deposits, 250_000);
}

#[test]
fn cumulative_tvl_replays_from_the_snapshots() {
    let mut store = setup("0.0005");
    deposit_stable(&mut store, 1_000, "alice".to_string(), &uusd(1_000_000)).expect("deposit");
    deposit_stable(&mut store, 1_030, "bob".to_string(), &uusd(300_000)).expect("deposit");
    redeem_n_stable(&mut store, 1_030, "alice".to_string(), 400_000).expect("redeem");
    // Replay the signed deltas of the whole history.
    let history = &store.tvl_history;
    let mut replayed: i128 = history[0].tvl as i128;
    for i in 1..history.len() {
        replayed += history[i].tvl as i128 - history[i - 1].tvl as i128;
    }
    assert_eq!(replayed, store.state.unwrap().tvl as i128);
    assert_eq!(store.state.unwrap().tvl, 900_000);
}

#[test]
fn snapshots_are_indexed_in_creation_order() {
    let mut store = setup("0.0005");
    deposit_stable(&mut store, 1_000, "alice".to_string(), &uusd(1_000_000)).expect("deposit");
    deposit_stable(&mut store, 1_030, "alice".to_string(), &uusd(1_000_000)).expect("deposit");
    let all = query_tvl(&store, -1).expect("all snapshots");
    assert_eq!(all.len(), 3);
    assert_eq!(all[0].tvl, 0);
    assert_eq!(all[1].tvl, 1_000_000);
    assert_eq!(all[1].epoch, 1_000);
    assert_eq!(all[2].tvl, 2_000_500);
    assert_eq!(all[2].epoch, 1_030);
    // Point lookups agree, and an index never written reads as default.
    assert_eq!(query_tvl(&store, 1).unwrap(), vec![all[1]]);
    assert_eq!(read_tvl_indice(&store, 99).tvl, 0);
    assert_eq!(read_tvl_indice(&store, -5).epoch, 0);
}

#[test]
fn queries_answer_without_mutating() {
    let mut store = setup("0.0005");
    deposit_stable(&mut store, 1_000, "alice".to_string(), &uusd(1_000_000)).expect("deposit");
    let state = query_state(&store).expect("state");
    assert_eq!(state.tvl, 1_000_000);
    let config = query_config(&store).expect("config");
    assert_eq!(config.aterra_contract, "aterra");
    assert_eq!(config.stable_denom, "uusd");
    assert_eq!(config.interest_rate, Rate { atomics: 500_000_000_000_000 });
    // As-of interest is computed without touching storage.
    let as_of = query_ident(&store, "alice".to_string(), 1_060).expect("ident");
    assert_eq!(as_of.accrued_interest, 1_000);
    assert_eq!(as_of.last_balance, 1_000_000);
    let stored = read_deposit_info(&store, &"alice".to_string());
    assert_eq!(stored.accrued_interest, 0);
}

#[test]
fn config_query_before_registration_fails() {
    let store =
        instantiate("market".to_string(), &uusd(INITIAL_DEPOSIT_AMOUNT), &init_msg("0.0005"))
            .expect("instantiate");
    assert_eq!(query_config(&store).unwrap_err(), ContractError::Unauthorized);
}
