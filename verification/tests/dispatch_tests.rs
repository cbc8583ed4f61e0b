use market::contract::{
    execute, instantiate, query, receive_cw20, register_aterra, QueryAnswer,
    INITIAL_DEPOSIT_AMOUNT,
};
use market::deposit::deposit_stable;
use market::error::ContractError;
use market::state::{
    read_deposit_info, Coin, Cw20HookMsg, ExecuteMsg, InstantiateMsg, QueryMsg, ReceiveMsg,
    SettlementMsg, Store,
};

fn uusd(amount: u128) -> Vec<Coin> {
    vec![Coin { denom: "uusd".to_string(), amount }]
}

fn setup() -> Store {
    let msg = InstantiateMsg {
        stable_denom: "uusd".to_string(),
        aterra_code_id: 42,
        interest: "0.0005".to_string(),
    };
    let mut store =
        instantiate("market".to_string(), &uusd(INITIAL_DEPOSIT_AMOUNT), &msg).expect("instantiate");
    register_aterra(&mut store, "aterra".to_string()).expect("register");
    store
}

#[test]
fn receive_without_hook_is_rejected() {
    let mut store = setup();
    let msg = ReceiveMsg { sender: "alice".to_string(), amount: 100, msg: None };
    assert_eq!(
        receive_cw20(&mut store, 1_000, "aterra".to_string(), msg),
        Err(ContractError::MissingRedeemStableHook)
    );
}

#[test]
fn receive_from_a_stranger_is_rejected() {
    let mut store = setup();
    deposit_stable(&mut store, 1_000, "alice".to_string(), &uusd(1_000)).expect("deposit");
    let msg = ReceiveMsg {
        sender: "alice".to_string(),
        amount: 100,
        msg: Some(Cw20HookMsg::RedeemNStable {}),
    };
    assert_eq!(
        receive_cw20(&mut store, 1_000, "impostor".to_string(), msg),
        Err(ContractError::Unauthorized)
    );
    assert_eq!(read_deposit_info(&store, &"alice".to_string()).last_balance, 1_000);
}

#[test]
fn receive_redeems_for_the_hook_sender() {
    let mut store = setup();
    deposit_stable(&mut store, 1_000, "alice".to_string(), &uusd(1_000)).expect("deposit");
    let msg = ReceiveMsg {
        sender: "alice".to_string(),
        amount: 400,
        msg: Some(Cw20HookMsg::RedeemNStable {}),
    };
    let msgs = receive_cw20(&mut store, 1_000, "aterra".to_string(), msg).expect("redeem");
    assert_eq!(
        msgs,
        vec![
            SettlementMsg::Burn { amount: 400 },
            SettlementMsg::Transfer {
                to: "alice".to_string(),
                denom: "uusd".to_string(),
                amount: 400,
            },
        ]
    );
    assert_eq!(read_deposit_info(&store, &"alice".to_string()).last_balance, 600);
}

#[test]
fn receive_redeems_all_for_the_hook_sender() {
    let mut store = setup();
    deposit_stable(&mut store, 1_000, "alice".to_string(), &uusd(1_000)).expect("deposit");
    let msg = ReceiveMsg {
        sender: "alice".to_string(),
        amount: 1_000,
        msg: Some(Cw20HookMsg::RedeemAllStable {}),
    };
    let msgs = receive_cw20(&mut store, 1_000, "aterra".to_string(), msg).expect("redeem all");
    assert_eq!(
        msgs,
        vec![
            SettlementMsg::Burn { amount: 1_000 },
            SettlementMsg::Transfer {
                to: "alice".to_string(),
                denom: "uusd".to_string(),
                amount: 1_000,
            },
        ]
    );
    assert_eq!(read_deposit_info(&store, &"alice".to_string()).last_balance, 0);
}

#[test]
fn execute_routes_all_operations() {
    let mut store = setup();
    let msgs = execute(
        &mut store,
        1_000,
        "alice".to_string(),
        &uusd(700),
        ExecuteMsg::DepositStable {},
    )
    .expect("deposit");
    assert_eq!(
        msgs,
        vec![SettlementMsg::Mint { recipient: "alice".to_string(), amount: 700 }]
    );
    let msgs = execute(
        &mut store,
        1_000,
        "aterra".to_string(),
        &Vec::new(),
        ExecuteMsg::Receive(ReceiveMsg {
            sender: "alice".to_string(),
            amount: 300,
            msg: Some(Cw20HookMsg::RedeemNStable {}),
        }),
    )
    .expect("redeem");
    assert_eq!(msgs.len(), 2);
    let msgs = execute(
        &mut store,
        1_000,
        "alice".to_string(),
        &Vec::new(),
        ExecuteMsg::ClaimRewards { to: None },
    )
    .expect("claim");
    assert!(msgs.is_empty());
    assert_eq!(read_deposit_info(&store, &"alice".to_string()).last_balance, 400);
}

#[test]
fn query_routes_all_answers() {
    let mut store = setup();
    deposit_stable(&mut store, 1_000, "alice".to_string(), &uusd(800)).expect("deposit");
    match query(&store, QueryMsg::Config {}).expect("config") {
        QueryAnswer::Config(c) => assert_eq!(c.aterra_contract, "aterra"),
        other => panic!("unexpected answer {:?}", other),
    }
    match query(&store, QueryMsg::State {}).expect("state") {
        QueryAnswer::State(s) => assert_eq!(s.tvl, 800),
        other => panic!("unexpected answer {:?}", other),
    }
    match query(
        &store,
        QueryMsg::Ident { address: "alice".to_string(), epoch: 1_060 },
    )
    .expect("ident")
    {
        QueryAnswer::Ident(d) => {
            assert_eq!(d.last_balance, 800);
            // Two whole periods at 0.0005 on 800 round down to zero.
            assert_eq!(d.accrued_interest, 0);
        },
        other => panic!("unexpected answer {:?}", other),
    }
    match query(&store, QueryMsg::Tvl { indice: -1 }).expect("tvl") {
        QueryAnswer::Tvl(v) => assert_eq!(v.len(), 2),
        other => panic!("unexpected answer {:?}", other),
    }
}
