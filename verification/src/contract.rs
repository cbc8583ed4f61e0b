//! Entry points of the vault: instantiation, operation dispatch, the
//! registration callback, and the read-only query surface.

use vstd::prelude::*;

use crate::deposit::{
    days_between, deposit_post, deposit_safe, deposit_stable, first_coin_amount, out_view,
    redeem_all_post, redeem_all_safe, redeem_all_stable, redeem_n_post, redeem_n_safe,
    redeem_n_stable,
};
use crate::error::ContractError;
use crate::helpers::{calculate_accrued_interest, compound, get_decimals, interest_of, rate_of};
use crate::state::{
    read_config, read_deposit_info, read_state, read_tvl_indice, read_tvl_indices, store_config,
    store_state, store_tvl_indice, tvl_at, Coin, Config, ConfigResponse, Cw20HookMsg, DepositInfo,
    ExecuteMsg, InstantiateMsg, QueryMsg, ReceiveMsg, SettlementMsg, State, Store, Tvl,
};

verus! {

/// Length of one compounding epoch, in block-time units.
pub const DURATION: u64 = 30;

/// Initial deposit that instantiation must carry, in base units.
pub const INITIAL_DEPOSIT_AMOUNT: u128 = 1000000;

/// Correlation id binding the companion-token instantiation request to its
/// later callback.
pub const TOKEN_INSTANTIATE_REPLY_ID: u64 = 1;

/// Everything a registration does: it binds the companion token identity
/// into the configuration exactly once, and a second attempt fails with
/// an authorization error that leaves the configuration untouched.
pub open spec fn register_post(
    s0: Store,
    s1: Store,
    token: Seq<char>,
    out: Result<(), ContractError>,
) -> bool {
    if s0.config is None {
        out == Err::<(), ContractError>(ContractError::Uninitialized) && s1 == s0
    } else if s0.config->0.aterra_contract is Some {
        out == Err::<(), ContractError>(ContractError::Unauthorized) && s1 == s0
    } else {
        &&& out == Ok::<(), ContractError>(())
        &&& s1.config is Some
        &&& s1.config->0.aterra_contract is Some
        &&& s1.config->0.aterra_contract->0@ == token
        &&& s1.config->0.contract_addr == s0.config->0.contract_addr
        &&& s1.config->0.stable_denom == s0.config->0.stable_denom
        &&& s1.config->0.interest_rate == s0.config->0.interest_rate
        &&& s1.state == s0.state
        &&& s1.deposits == s0.deposits
        &&& s1.tvl_history == s0.tvl_history
        &&& s1.pending_instantiation == s0.pending_instantiation
    }
}

/// Registers the companion receipt-token contract: writes its identity
/// into the configuration. The binding is one-shot — a configuration that
/// already carries an identity rejects any further attempt unchanged.
pub fn register_aterra(store: &mut Store, token_addr: String) -> (r: Result<(), ContractError>)
    ensures
        register_post(*old(store), *final(store), token_addr@, r),
        old(store).wf() ==> final(store).wf(),
{
    let cfg_opt = store.config.take();
    let mut c = match cfg_opt {
        Some(c) => c,
        None => {
            return Err(ContractError::Uninitialized);
        },
    };
    if c.aterra_contract.is_some() {
        store.config = Some(c);
        return Err(ContractError::Unauthorized);
    }
    c.aterra_contract = Some(token_addr);
    store.config = Some(c);
    Ok(())
}

/// Handles the asynchronous callback of the companion-token instantiation
/// request. A correlation id that matches no pending request is rejected;
/// a matching callback whose payload parsed registers the new contract's
/// identity.
pub fn reply(store: &mut Store, reply_id: u64, contract_address: Option<String>) -> (r: Result<
    (),
    ContractError,
>)
    ensures
        ({
            let s0 = *old(store);
            if s0.pending_instantiation != Some(reply_id) {
                r == Err::<(), ContractError>(ContractError::InvalidReplyId) && *final(store) == s0
            } else {
                match contract_address {
                    None => r == Err::<(), ContractError>(ContractError::ParseError)
                        && *final(store) == s0,
                    Some(addr) => register_post(s0, *final(store), addr@, r),
                }
            }
        }),
        old(store).wf() ==> final(store).wf(),
{
    let recognized = match &store.pending_instantiation {
        Some(id) => *id == reply_id,
        None => false,
    };
    if !recognized {
        return Err(ContractError::InvalidReplyId);
    }
    match contract_address {
        Some(addr) => register_aterra(store, addr),
        None => Err(ContractError::ParseError),
    }
}

/// Everything a receipt-token hook does: an undecodable hook is rejected,
/// only the registered companion token contract may call, and a
/// recognized hook redeems on behalf of the depositor that returned the
/// tokens.
pub open spec fn receive_post(
    s0: Store,
    s1: Store,
    time: u64,
    info_sender: Seq<char>,
    cw20_sender: Seq<char>,
    amount: u128,
    hook: Option<Cw20HookMsg>,
    out: Result<Seq<crate::state::SettlementMsgView>, ContractError>,
) -> bool {
    if hook is None {
        out == Err::<Seq<crate::state::SettlementMsgView>, ContractError>(
            ContractError::MissingRedeemStableHook,
        ) && s1 == s0
    } else if s0.config is None {
        out == Err::<Seq<crate::state::SettlementMsgView>, ContractError>(
            ContractError::Uninitialized,
        ) && s1 == s0
    } else if !(s0.config->0.aterra_contract is Some && s0.config->0.aterra_contract->0@
        == info_sender) {
        out == Err::<Seq<crate::state::SettlementMsgView>, ContractError>(
            ContractError::Unauthorized,
        ) && s1 == s0
    } else {
        match hook->0 {
            Cw20HookMsg::RedeemNStable {} => redeem_n_post(s0, s1, time, cw20_sender, amount, out),
            Cw20HookMsg::RedeemAllStable {} => redeem_all_post(s0, s1, time, cw20_sender, out),
        }
    }
}

/// Handles receipt tokens sent to this contract with a redemption hook:
/// checks that the caller is the registered companion token contract and
/// redeems for the depositor that returned the tokens.
pub fn receive_cw20(store: &mut Store, time: u64, info_sender: String, cw20_msg: ReceiveMsg) -> (r:
    Result<Vec<SettlementMsg>, ContractError>)
    requires
        old(store).wf(),
        cw20_msg.msg == Some(Cw20HookMsg::RedeemNStable {}) ==> redeem_n_safe(
            *old(store),
            time,
            cw20_msg.sender@,
            cw20_msg.amount,
        ),
        cw20_msg.msg == Some(Cw20HookMsg::RedeemAllStable {}) ==> redeem_all_safe(
            *old(store),
            time,
            cw20_msg.sender@,
        ),
    ensures
        final(store).wf(),
        receive_post(
            *old(store),
            *final(store),
            time,
            info_sender@,
            cw20_msg.sender@,
            cw20_msg.amount,
            cw20_msg.msg,
            out_view(r),
        ),
        old(store).tvl_in_sync() ==> final(store).tvl_in_sync(),
{
    let ReceiveMsg { sender: cw20_sender, amount, msg } = cw20_msg;
    let hook = match msg {
        Some(h) => h,
        None => {
            return Err(ContractError::MissingRedeemStableHook);
        },
    };
    let authorized = match read_config(store) {
        Ok(c) => match &c.aterra_contract {
            Some(a) => *a == info_sender,
            None => false,
        },
        Err(e) => {
            return Err(e);
        },
    };
    if !authorized {
        return Err(ContractError::Unauthorized);
    }
    match hook {
        Cw20HookMsg::RedeemNStable {} => redeem_n_stable(store, time, cw20_sender, amount),
        Cw20HookMsg::RedeemAllStable {} => redeem_all_stable(store, time, cw20_sender, amount),
    }
}

/// Routes an inbound operation: a receipt-token hook to the redemptions,
/// a deposit to the deposit handler; a rewards claim is accepted and does
/// nothing.
pub fn execute(
    store: &mut Store,
    time: u64,
    sender: String,
    funds: &Vec<Coin>,
    msg: ExecuteMsg,
) -> (r: Result<Vec<SettlementMsg>, ContractError>)
    requires
        old(store).wf(),
        msg is DepositStable ==> deposit_safe(*old(store), time, sender@, funds@),
        msg matches ExecuteMsg::Receive(rm) ==> (rm.msg == Some(Cw20HookMsg::RedeemNStable {})
            ==> redeem_n_safe(*old(store), time, rm.sender@, rm.amount)),
        msg matches ExecuteMsg::Receive(rm) ==> (rm.msg == Some(Cw20HookMsg::RedeemAllStable {})
            ==> redeem_all_safe(*old(store), time, rm.sender@)),
    ensures
        final(store).wf(),
        msg is DepositStable ==> deposit_post(
            *old(store),
            *final(store),
            time,
            sender@,
            funds@,
            out_view(r),
        ),
        msg matches ExecuteMsg::Receive(rm) ==> receive_post(
            *old(store),
            *final(store),
            time,
            sender@,
            rm.sender@,
            rm.amount,
            rm.msg,
            out_view(r),
        ),
        msg is ClaimRewards ==> r is Ok && r->Ok_0@.len() == 0 && *final(store) == *old(store),
        old(store).tvl_in_sync() ==> final(store).tvl_in_sync(),
{
    match msg {
        ExecuteMsg::Receive(rm) => receive_cw20(store, time, sender, rm),
        ExecuteMsg::DepositStable {} => deposit_stable(store, time, sender, funds),
        ExecuteMsg::ClaimRewards { to: _ } => Ok(Vec::new()),
    }
}

/// Initializes the system: checks the initial deposit, parses the
/// configured interest rate, writes the configuration and the zeroed
/// global state, writes the genesis TVL snapshot at index zero, and
/// records the pending companion-token instantiation request.
pub fn instantiate(own_contract_id: String, funds: &Vec<Coin>, msg: &InstantiateMsg) -> (r: Result<
    Store,
    ContractError,
>)
    ensures
        match r {
            Ok(s) => {
                &&& first_coin_amount(funds@, "uusd"@) == INITIAL_DEPOSIT_AMOUNT
                &&& rate_of(msg.interest@) == Some(s.config->0.interest_rate.atomics as nat)
                &&& s.wf()
                &&& s.tvl_in_sync()
                &&& s.config is Some
                &&& s.config->0.contract_addr == own_contract_id
                &&& s.config->0.aterra_contract is None
                &&& s.config->0.stable_denom@ == msg.stable_denom@
                &&& s.state == Some(State { tvl: 0, tvl_indices: 1, accrued_interest_payments: 0 })
                &&& s.tvl_history@ == seq![Tvl { tvl: 0, epoch: 0 }]
                &&& s.deposits@.len() == 0
                &&& s.pending_instantiation == Some(TOKEN_INSTANTIATE_REPLY_ID)
            },
            Err(e) => {
                ||| (first_coin_amount(funds@, "uusd"@) != INITIAL_DEPOSIT_AMOUNT && e
                    == ContractError::InitialFundsNotDeposited)
                ||| (first_coin_amount(funds@, "uusd"@) == INITIAL_DEPOSIT_AMOUNT && rate_of(
                    msg.interest@,
                ) is None && e == ContractError::FormatError)
            },
        },
{
    let uusd = "uusd".to_owned();
    let initial_deposit = crate::deposit::first_coin_in(funds, &uusd);
    if initial_deposit != INITIAL_DEPOSIT_AMOUNT {
        return Err(ContractError::InitialFundsNotDeposited);
    }
    let rate = match get_decimals(msg.interest.as_str()) {
        Ok(ra) => ra,
        Err(e) => {
            return Err(e);
        },
    };
    let mut store = Store::new();
    match store_config(
        &mut store,
        Config {
            contract_addr: own_contract_id,
            aterra_contract: None,
            stable_denom: msg.stable_denom.clone(),
            interest_rate: rate,
        },
    ) {
        Ok(_) => (),
        Err(e) => {
            return Err(e);
        },
    };
    match store_state(&mut store, State { tvl: 0, tvl_indices: 0, accrued_interest_payments: 0 }) {
        Ok(_) => (),
        Err(e) => {
            return Err(e);
        },
    };
    let mut genesis = Tvl { tvl: 0, epoch: 0 };
    match store_tvl_indice(&mut store, &mut genesis, 0) {
        Ok(_) => (),
        Err(e) => {
            return Err(e);
        },
    };
    store.pending_instantiation = Some(TOKEN_INSTANTIATE_REPLY_ID);
    Ok(store)
}

/// What a configuration query answers: the registered companion token,
/// the base denomination, and the rate. Before registration there is no
/// companion identity to answer with, and the query fails.
pub open spec fn config_query_post(
    store: Store,
    out: Result<ConfigResponse, ContractError>,
) -> bool {
    match out {
        Ok(resp) => {
            &&& store.config is Some
            &&& store.config->0.aterra_contract is Some
            &&& resp.aterra_contract@ == store.config->0.aterra_contract->0@
            &&& resp.stable_denom@ == store.config->0.stable_denom@
            &&& resp.interest_rate == store.config->0.interest_rate
        },
        Err(e) => {
            ||| (store.config is None && e == ContractError::Uninitialized)
            ||| (store.config is Some && store.config->0.aterra_contract is None && e
                == ContractError::Unauthorized)
        },
    }
}

/// Answers a configuration query.
pub fn query_config(store: &Store) -> (r: Result<ConfigResponse, ContractError>)
    ensures
        config_query_post(*store, r),
{
    let config = match read_config(store) {
        Ok(c) => c,
        Err(e) => {
            return Err(e);
        },
    };
    let aterra = match &config.aterra_contract {
        Some(a) => a.clone(),
        None => {
            return Err(ContractError::Unauthorized);
        },
    };
    Ok(
        ConfigResponse {
            aterra_contract: aterra,
            stable_denom: config.stable_denom.clone(),
            interest_rate: config.interest_rate,
        },
    )
}

/// Answers a global-state query.
pub fn query_state(store: &Store) -> (r: Result<State, ContractError>)
    ensures
        match r {
            Ok(s) => store.state == Some(s),
            Err(e) => store.state is None && e == ContractError::Uninitialized,
        },
{
    read_state(store)
}

/// A depositor's record as of a given moment: the interest the elapsed
/// periods would have earned replaces the stored accrual, with nothing
/// persisted.
pub open spec fn ident_response(store: Store, ident: Seq<char>, epoch: u64) -> DepositInfo {
    let rec = store.deposit_record(ident);
    if rec.initial_interaction != 0 && epoch > rec.last_interaction {
        let days = days_between(epoch, rec.last_interaction);
        DepositInfo {
            last_interaction: rec.last_interaction,
            last_balance: rec.last_balance,
            accrued_interest: interest_of(
                rec.last_balance as nat,
                store.config->0.interest_rate.atomics as nat,
                days,
            ) as u128,
            initial_interaction: rec.initial_interaction,
            sum_deposits: rec.sum_deposits,
        }
    } else {
        rec
    }
}

/// The machine bound under which the as-of interest of a record can be
/// computed.
pub open spec fn query_ident_safe(store: Store, ident: Seq<char>, epoch: u64) -> bool {
    store.config is Some ==> {
        let rec = store.deposit_record(ident);
        (rec.initial_interaction != 0 && epoch > rec.last_interaction) ==> compound(
            rec.last_balance as nat,
            store.config->0.interest_rate.atomics as nat,
            days_between(epoch, rec.last_interaction),
        ) <= u128::MAX
    }
}

/// Answers a depositor query: the stored record, with its interest
/// recomputed as of the given moment; storage is not touched.
pub fn query_ident(store: &Store, ident: String, epoch: u64) -> (r: Result<
    DepositInfo,
    ContractError,
>)
    requires
        store.wf(),
        query_ident_safe(*store, ident@, epoch),
    ensures
        match r {
            Ok(d) => store.config is Some && d == ident_response(*store, ident@, epoch),
            Err(e) => store.config is None && e == ContractError::Uninitialized,
        },
{
    let rate = match read_config(store) {
        Ok(c) => c.interest_rate,
        Err(e) => {
            return Err(e);
        },
    };
    let mut depositor = read_deposit_info(store, &ident);
    if depositor.initial_interaction != 0 && epoch > depositor.last_interaction {
        let duration = epoch - depositor.last_interaction;
        let days = duration / DURATION;
        proof {
            assert(days == days_between(epoch, depositor.last_interaction));
        }
        let accrued = match calculate_accrued_interest(&depositor, rate, days) {
            Ok(v) => v,
            Err(e) => {
                return Err(e);
            },
        };
        depositor.accrued_interest = accrued;
    }
    Ok(depositor)
}

/// Answers a TVL history query: one snapshot by index, or — with the
/// index `-1` — all snapshots up to the counter, in ascending creation
/// order.
pub fn query_tvl(store: &Store, indice: i64) -> (r: Result<Vec<Tvl>, ContractError>)
    requires
        store.wf(),
    ensures
        match r {
            Ok(v) => {
                if indice == -1 {
                    &&& store.state is Some
                    &&& v@.len() == store.state->0.tvl_indices
                    &&& forall|i: int| 0 <= i < v@.len() ==> v@[i] == tvl_at(*store, i)
                } else {
                    v@.len() == 1 && v@[0] == tvl_at(*store, indice as int)
                }
            },
            Err(e) => indice == -1 && store.state is None && e == ContractError::Uninitialized,
        },
{
    if indice == -1 {
        let st = match read_state(store) {
            Ok(s) => s,
            Err(e) => {
                return Err(e);
            },
        };
        read_tvl_indices(store, st.tvl_indices)
    } else {
        let one = read_tvl_indice(store, indice);
        Ok(vec![one])
    }
}

/// An answer of the read-only query surface.
#[derive(Clone, Debug, PartialEq)]
pub enum QueryAnswer {
    Config(ConfigResponse),
    State(State),
    Ident(DepositInfo),
    Tvl(Vec<Tvl>),
}

/// Routes a read-only query to its handler; nothing is mutated.
pub fn query(store: &Store, msg: QueryMsg) -> (r: Result<QueryAnswer, ContractError>)
    requires
        store.wf(),
        msg matches QueryMsg::Ident { address, epoch } ==> query_ident_safe(
            *store,
            address@,
            epoch,
        ),
    ensures
        msg is Config ==> ({
            &&& r is Ok ==> r->Ok_0 is Config
            &&& config_query_post(
                *store,
                match r {
                    Ok(a) => Ok(a->Config_0),
                    Err(e) => Err(e),
                },
            )
        }),
        msg is State ==> ({
            match r {
                Ok(a) => a is State && store.state == Some(a->State_0),
                Err(e) => store.state is None && e == ContractError::Uninitialized,
            }
        }),
        msg matches QueryMsg::Ident { address, epoch } ==> ({
            match r {
                Ok(a) => a is Ident && store.config is Some && a->Ident_0 == ident_response(
                    *store,
                    address@,
                    epoch,
                ),
                Err(e) => store.config is None && e == ContractError::Uninitialized,
            }
        }),
        msg matches QueryMsg::Tvl { indice } ==> ({
            match r {
                Ok(a) => a is Tvl && ({
                    if indice == -1 {
                        &&& store.state is Some
                        &&& a->Tvl_0@.len() == store.state->0.tvl_indices
                        &&& forall|i: int|
                            0 <= i < a->Tvl_0@.len() ==> a->Tvl_0@[i] == tvl_at(*store, i)
                    } else {
                        a->Tvl_0@.len() == 1 && a->Tvl_0@[0] == tvl_at(*store, indice as int)
                    }
                }),
                Err(e) => indice == -1 && store.state is None && e == ContractError::Uninitialized,
            }
        }),
{
    match msg {
        QueryMsg::Config {} => match query_config(store) {
            Ok(resp) => Ok(QueryAnswer::Config(resp)),
            Err(e) => Err(e),
        },
        QueryMsg::State {} => match query_state(store) {
            Ok(s) => Ok(QueryAnswer::State(s)),
            Err(e) => Err(e),
        },
        QueryMsg::Ident { address, epoch } => match query_ident(store, address, epoch) {
            Ok(d) => Ok(QueryAnswer::Ident(d)),
            Err(e) => Err(e),
        },
        QueryMsg::Tvl { indice } => match query_tvl(store, indice) {
            Ok(v) => Ok(QueryAnswer::Tvl(v)),
            Err(e) => Err(e),
        },
    }
}

} // verus!
