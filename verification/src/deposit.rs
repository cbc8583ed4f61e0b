//! The operations that move value: deposit, partial redemption, and full
//! redemption.
//!
//! Every operation either fully succeeds — updating the depositor's
//! record, the global aggregate state and the TVL history, and returning
//! the settlement messages to emit — or fully rejects with an error and
//! leaves the store untouched.

use vstd::prelude::*;

use crate::contract::DURATION;
use crate::error::ContractError;
use crate::helpers::{calculate_accrued_interest, compound, interest_of};
use crate::state::{
    msgs_view, read_config, read_deposit_info, read_state, store_deposit_info, store_state,
    store_tvl_indice, Coin, DepositInfo, SettlementMsg, SettlementMsgView, State, Store, Tvl,
};

verus! {

/// The views of the messages of an operation's outcome, errors carried
/// through.
pub open spec fn out_view(r: Result<Vec<SettlementMsg>, ContractError>) -> Result<
    Seq<SettlementMsgView>,
    ContractError,
> {
    match r {
        Ok(v) => Ok(msgs_view(v@)),
        Err(e) => Err(e),
    }
}

/// Amount of the first coin of the funds carrying the denomination; zero
/// with none.
pub open spec fn first_coin_amount(funds: Seq<Coin>, denom: Seq<char>) -> nat
    decreases funds.len(),
{
    if funds.len() == 0 {
        0
    } else if funds[0].denom@ == denom {
        funds[0].amount as nat
    } else {
        first_coin_amount(funds.drop_first(), denom)
    }
}

/// A record as a deposit first sees it: an identity interacting for the
/// first time has both of its timestamps set to now, so that no interest
/// accrues on epoch zero.
pub open spec fn with_first_interaction(rec: DepositInfo, time: u64) -> DepositInfo {
    DepositInfo {
        last_interaction: if rec.last_interaction == 0 {
            time
        } else {
            rec.last_interaction
        },
        last_balance: rec.last_balance,
        accrued_interest: rec.accrued_interest,
        initial_interaction: if rec.initial_interaction == 0 {
            time
        } else {
            rec.initial_interaction
        },
        sum_deposits: rec.sum_deposits,
    }
}

/// Number of whole compounding periods elapsed between two moments.
pub open spec fn days_between(now: u64, last: u64) -> nat {
    (((now - last) as int) / (DURATION as int)) as nat
}

/// The machine bounds under which a deposit cannot overflow. They speak
/// only of the path on which the deposit goes through: a store that
/// rejects the deposit needs none of them.
pub open spec fn deposit_safe(store: Store, time: u64, sender: Seq<char>, funds: Seq<
    Coin,
>) -> bool {
    store.config is Some ==> {
        let config = store.config->0;
        let amount = first_coin_amount(funds, config.stable_denom@);
        (amount > 0 && config.aterra_contract is Some && store.state is Some) ==> {
            let st = store.state->0;
            let rec0 = with_first_interaction(store.deposit_record(sender), time);
            &&& rec0.last_interaction <= time
            &&& {
                let days = days_between(time, rec0.last_interaction);
                let rate = config.interest_rate.atomics as nat;
                &&& compound(rec0.last_balance as nat, rate, days) <= u128::MAX
                &&& {
                    let interest = interest_of(rec0.last_balance as nat, rate, days);
                    &&& rec0.last_balance + amount + interest <= u128::MAX
                    &&& rec0.accrued_interest + interest <= u128::MAX
                    &&& rec0.sum_deposits + amount <= u128::MAX
                    &&& st.accrued_interest_payments + interest <= u128::MAX
                    &&& st.tvl + amount + interest <= u128::MAX
                    &&& st.tvl_indices < i64::MAX
                }
            }
        }
    }
}

/// Everything a deposit does, for every input: which error rejects it, in
/// which order the guards fire, and — on success — the exact record,
/// aggregate state, snapshot and minted amount it leaves behind.
pub open spec fn deposit_post(
    s0: Store,
    s1: Store,
    time: u64,
    sender: Seq<char>,
    funds: Seq<Coin>,
    out: Result<Seq<SettlementMsgView>, ContractError>,
) -> bool {
    if s0.config is None {
        out == Err::<Seq<SettlementMsgView>, ContractError>(ContractError::Uninitialized) && s1
            == s0
    } else {
        let config = s0.config->0;
        let amount = first_coin_amount(funds, config.stable_denom@);
        if amount == 0 {
            out == Err::<Seq<SettlementMsgView>, ContractError>(ContractError::ZeroDeposit) && s1
                == s0
        } else if config.aterra_contract is None {
            out == Err::<Seq<SettlementMsgView>, ContractError>(ContractError::Unauthorized) && s1
                == s0
        } else if s0.state is None {
            out == Err::<Seq<SettlementMsgView>, ContractError>(ContractError::Uninitialized) && s1
                == s0
        } else if s0.state->0.tvl_indices != s0.tvl_history@.len() as int {
            out == Err::<Seq<SettlementMsgView>, ContractError>(ContractError::Overflow) && s1
                == s0
        } else {
            let st = s0.state->0;
            let rec0 = with_first_interaction(s0.deposit_record(sender), time);
            let days = days_between(time, rec0.last_interaction);
            let interest = interest_of(
                rec0.last_balance as nat,
                config.interest_rate.atomics as nat,
                days,
            );
            let total = amount + interest;
            &&& out == Ok::<Seq<SettlementMsgView>, ContractError>(
                seq![SettlementMsgView::Mint { recipient: sender, amount: total }],
            )
            &&& s1.config == s0.config
            &&& s1.pending_instantiation == s0.pending_instantiation
            &&& s1.state == Some(
                State {
                    tvl: (st.tvl + total) as u128,
                    tvl_indices: (st.tvl_indices + 1) as i64,
                    accrued_interest_payments: (st.accrued_interest_payments + interest) as u128,
                },
            )
            &&& s1.tvl_history@ == s0.tvl_history@.push(
                Tvl { tvl: (st.tvl + total) as u128, epoch: time },
            )
            &&& s1.deposit_record(sender) == (DepositInfo {
                last_interaction: time,
                last_balance: (rec0.last_balance + total) as u128,
                accrued_interest: (rec0.accrued_interest + interest) as u128,
                initial_interaction: rec0.initial_interaction,
                sum_deposits: (rec0.sum_deposits + amount) as u128,
            })
            &&& forall|id: Seq<char>|
                id != sender ==> #[trigger] s1.deposit_record(id) == s0.deposit_record(id)
        }
    }
}

/// Amount of the first coin of the funds carrying the denomination, zero
/// with none.
pub(crate) fn first_coin_in(funds: &Vec<Coin>, denom: &String) -> (amt: u128)
    ensures
        amt == first_coin_amount(funds@, denom@),
{
    let mut i: usize = 0;
    proof {
        assert(funds@.skip(0) =~= funds@);
    }
    while i < funds.len()
        invariant
            i <= funds@.len(),
            first_coin_amount(funds@, denom@) == first_coin_amount(funds@.skip(i as int), denom@),
        decreases funds@.len() - i,
    {
        if funds[i].denom == *denom {
            proof {
                assert(funds@.skip(i as int)[0] == funds@[i as int]);
            }
            return funds[i].amount;
        }
        proof {
            assert(funds@.skip(i as int)[0] == funds@[i as int]);
            assert(funds@.skip(i as int).drop_first() =~= funds@.skip(i as int + 1));
        }
        i = i + 1;
    }
    proof {
        assert(funds@.skip(funds@.len() as int).len() == 0);
    }
    0
}

/// Accepts a deposit of base currency: credits any interest the elapsed
/// periods earned, grows the depositor's balance by the deposit plus that
/// interest, credits the TVL history, and mints receipt tokens for the
/// whole amount credited.
pub fn deposit_stable(store: &mut Store, time: u64, sender: String, funds: &Vec<Coin>) -> (r:
    Result<Vec<SettlementMsg>, ContractError>)
    requires
        old(store).wf(),
        deposit_safe(*old(store), time, sender@, funds@),
    ensures
        final(store).wf(),
        deposit_post(*old(store), *final(store), time, sender@, funds@, out_view(r)),
        old(store).tvl_in_sync() ==> final(store).tvl_in_sync(),
{
    let (denom, rate, registered) = match read_config(store) {
        Ok(c) => (c.stable_denom.clone(), c.interest_rate, c.aterra_contract.is_some()),
        Err(e) => {
            return Err(e);
        },
    };
    let deposit_amount = first_coin_in(funds, &denom);
    if deposit_amount == 0 {
        return Err(ContractError::ZeroDeposit);
    }
    if !registered {
        return Err(ContractError::Unauthorized);
    }
    let st = match read_state(store) {
        Ok(s) => s,
        Err(e) => {
            return Err(e);
        },
    };
    if (st.tvl_indices as u64) != (store.tvl_history.len() as u64) {
        return Err(ContractError::Overflow);
    }
    let mut deposit = read_deposit_info(store, &sender);
    if deposit.initial_interaction == 0 {
        deposit.initial_interaction = time;
    }
    if deposit.last_interaction == 0 {
        deposit.last_interaction = time;
    }
    proof {
        assert(deposit == with_first_interaction(old(store).deposit_record(sender@), time));
    }
    let last_interaction = deposit.last_interaction;
    let duration = time - last_interaction;
    let days = duration / DURATION;
    proof {
        assert(days == days_between(time, last_interaction));
    }
    deposit.last_interaction = time;
    let accrued_interest = match calculate_accrued_interest(&deposit, rate, days) {
        Ok(v) => v,
        Err(e) => {
            return Err(e);
        },
    };
    let mut new_state = st;
    new_state.accrued_interest_payments = st.accrued_interest_payments + accrued_interest;
    match store_state(store, new_state) {
        Ok(_) => (),
        Err(e) => {
            return Err(e);
        },
    };
    let mut tvl_data = Tvl { epoch: time, tvl: deposit_amount + accrued_interest };
    match store_tvl_indice(store, &mut tvl_data, 1) {
        Ok(_) => (),
        Err(e) => {
            return Err(e);
        },
    };
    deposit.accrued_interest = deposit.accrued_interest + accrued_interest;
    deposit.last_balance = deposit.last_balance + (deposit_amount + accrued_interest);
    deposit.sum_deposits = deposit.sum_deposits + deposit_amount;
    match store_deposit_info(store, &sender, &deposit) {
        Ok(_) => (),
        Err(e) => {
            return Err(e);
        },
    };
    let amount_minted = deposit_amount + accrued_interest;
    let msgs = vec![SettlementMsg::Mint { recipient: sender, amount: amount_minted }];
    proof {
        assert(msgs_view(msgs@) =~= seq![
            SettlementMsgView::Mint { recipient: sender@, amount: amount_minted as nat },
        ]);
    }
    Ok(msgs)
}

/// The machine bounds under which a partial redemption cannot overflow.
/// They speak only of the path on which the redemption goes through.
pub open spec fn redeem_n_safe(
    store: Store,
    time: u64,
    sender: Seq<char>,
    withdraw_amount: u128,
) -> bool {
    (store.config is Some && store.config->0.aterra_contract is Some
        && store.state is Some) ==> {
        let config = store.config->0;
        let st = store.state->0;
        let rec = store.deposit_record(sender);
        &&& rec.last_interaction <= time
        &&& {
            let days = days_between(time, rec.last_interaction);
            let rate = config.interest_rate.atomics as nat;
            &&& compound(rec.last_balance as nat, rate, days) <= u128::MAX
            &&& {
                let interest = interest_of(rec.last_balance as nat, rate, days);
                (withdraw_amount <= rec.last_balance + interest) ==> {
                    &&& rec.accrued_interest + interest <= u128::MAX
                    &&& st.accrued_interest_payments + interest <= u128::MAX
                    &&& withdraw_amount <= st.tvl
                    &&& st.tvl_indices < i64::MAX
                }
            }
        }
    }
}

/// Everything a partial redemption does, for every input: which error
/// rejects it, and — on success — the exact record, aggregate state,
/// snapshot and messages it leaves behind, the freshly accrued interest
/// minted first, then the burn, then the transfer.
pub open spec fn redeem_n_post(
    s0: Store,
    s1: Store,
    time: u64,
    sender: Seq<char>,
    withdraw_amount: u128,
    out: Result<Seq<SettlementMsgView>, ContractError>,
) -> bool {
    if s0.config is None {
        out == Err::<Seq<SettlementMsgView>, ContractError>(ContractError::Uninitialized) && s1
            == s0
    } else {
        let config = s0.config->0;
        if config.aterra_contract is None {
            out == Err::<Seq<SettlementMsgView>, ContractError>(ContractError::Unauthorized) && s1
                == s0
        } else if s0.state is None {
            out == Err::<Seq<SettlementMsgView>, ContractError>(ContractError::Uninitialized) && s1
                == s0
        } else {
            let st = s0.state->0;
            let rec = s0.deposit_record(sender);
            let days = days_between(time, rec.last_interaction);
            let interest = interest_of(
                rec.last_balance as nat,
                config.interest_rate.atomics as nat,
                days,
            );
            if withdraw_amount > rec.last_balance + interest {
                out == Err::<Seq<SettlementMsgView>, ContractError>(
                    ContractError::InsufficientBalance,
                ) && s1 == s0
            } else if st.tvl_indices != s0.tvl_history@.len() as int {
                out == Err::<Seq<SettlementMsgView>, ContractError>(ContractError::Overflow) && s1
                    == s0
            } else {
                let burn_then_send = seq![
                    SettlementMsgView::Burn { amount: withdraw_amount as nat },
                    SettlementMsgView::Transfer {
                        to: sender,
                        denom: config.stable_denom@,
                        amount: withdraw_amount as nat,
                    },
                ];
                &&& out == Ok::<Seq<SettlementMsgView>, ContractError>(
                    if interest > 0 {
                        seq![
                            SettlementMsgView::Mint { recipient: sender, amount: interest },
                        ] + burn_then_send
                    } else {
                        burn_then_send
                    },
                )
                &&& s1.config == s0.config
                &&& s1.pending_instantiation == s0.pending_instantiation
                &&& s1.state == Some(
                    State {
                        tvl: (st.tvl - withdraw_amount) as u128,
                        tvl_indices: (st.tvl_indices + 1) as i64,
                        accrued_interest_payments: (st.accrued_interest_payments
                            + interest) as u128,
                    },
                )
                &&& s1.tvl_history@ == s0.tvl_history@.push(
                    Tvl { tvl: (st.tvl - withdraw_amount) as u128, epoch: time },
                )
                &&& s1.deposit_record(sender) == (DepositInfo {
                    last_interaction: time,
                    last_balance: (rec.last_balance + interest - withdraw_amount) as u128,
                    accrued_interest: (rec.accrued_interest + interest) as u128,
                    initial_interaction: rec.initial_interaction,
                    sum_deposits: rec.sum_deposits,
                })
                &&& forall|id: Seq<char>|
                    id != sender ==> #[trigger] s1.deposit_record(id) == s0.deposit_record(id)
            }
        }
    }
}

/// Redeems part of a balance: credits any interest the elapsed periods
/// earned — minting it separately — then burns the returned receipt
/// tokens, debits the TVL history, and transfers the base currency back.
/// A withdrawal beyond the interest-credited balance is rejected by an
/// explicit check.
pub fn redeem_n_stable(store: &mut Store, time: u64, sender: String, withdraw_amount: u128) -> (r:
    Result<Vec<SettlementMsg>, ContractError>)
    requires
        old(store).wf(),
        redeem_n_safe(*old(store), time, sender@, withdraw_amount),
    ensures
        final(store).wf(),
        redeem_n_post(*old(store), *final(store), time, sender@, withdraw_amount, out_view(r)),
        old(store).tvl_in_sync() ==> final(store).tvl_in_sync(),
{
    let (denom, rate, registered) = match read_config(store) {
        Ok(c) => (c.stable_denom.clone(), c.interest_rate, c.aterra_contract.is_some()),
        Err(e) => {
            return Err(e);
        },
    };
    if !registered {
        return Err(ContractError::Unauthorized);
    }
    let st = match read_state(store) {
        Ok(s) => s,
        Err(e) => {
            return Err(e);
        },
    };
    let mut deposit = read_deposit_info(store, &sender);
    let last_interaction = deposit.last_interaction;
    let duration = time - last_interaction;
    let days = duration / DURATION;
    proof {
        assert(days == days_between(time, last_interaction));
    }
    deposit.last_interaction = time;
    let accrued_interest = match calculate_accrued_interest(&deposit, rate, days) {
        Ok(v) => v,
        Err(e) => {
            return Err(e);
        },
    };
    proof {
        crate::helpers::lemma_compound_monotone(
            deposit.last_balance as nat,
            rate.atomics as nat,
            0,
            days as nat,
        );
    }
    let balance_after = deposit.last_balance + accrued_interest;
    if withdraw_amount > balance_after {
        return Err(ContractError::InsufficientBalance);
    }
    if (st.tvl_indices as u64) != (store.tvl_history.len() as u64) {
        return Err(ContractError::Overflow);
    }
    let mut new_state = st;
    new_state.accrued_interest_payments = st.accrued_interest_payments + accrued_interest;
    match store_state(store, new_state) {
        Ok(_) => (),
        Err(e) => {
            return Err(e);
        },
    };
    let mut tvl_data = Tvl { epoch: time, tvl: withdraw_amount };
    match store_tvl_indice(store, &mut tvl_data, 0) {
        Ok(_) => (),
        Err(e) => {
            return Err(e);
        },
    };
    deposit.accrued_interest = deposit.accrued_interest + accrued_interest;
    deposit.last_balance = balance_after - withdraw_amount;
    match store_deposit_info(store, &sender, &deposit) {
        Ok(_) => (),
        Err(e) => {
            return Err(e);
        },
    };
    let mut msgs: Vec<SettlementMsg> = Vec::new();
    if accrued_interest > 0 {
        msgs.push(SettlementMsg::Mint { recipient: sender.clone(), amount: accrued_interest });
    }
    msgs.push(SettlementMsg::Burn { amount: withdraw_amount });
    msgs.push(SettlementMsg::Transfer { to: sender, denom, amount: withdraw_amount });
    proof {
        let burn_then_send = seq![
            SettlementMsgView::Burn { amount: withdraw_amount as nat },
            SettlementMsgView::Transfer {
                to: sender@,
                denom: old(store).config->0.stable_denom@,
                amount: withdraw_amount as nat,
            },
        ];
        if accrued_interest > 0 {
            assert(msgs_view(msgs@) =~= seq![
                SettlementMsgView::Mint {
                    recipient: sender@,
                    amount: accrued_interest as nat,
                },
            ] + burn_then_send);
        } else {
            assert(msgs_view(msgs@) =~= burn_then_send);
        }
    }
    Ok(msgs)
}

/// The machine bounds under which a full redemption cannot overflow.
/// They speak only of the path on which the redemption goes through.
pub open spec fn redeem_all_safe(store: Store, time: u64, sender: Seq<char>) -> bool {
    (store.config is Some && store.config->0.aterra_contract is Some
        && store.state is Some) ==> {
        let config = store.config->0;
        let st = store.state->0;
        let rec = store.deposit_record(sender);
        &&& rec.last_interaction <= time
        &&& {
            let days = days_between(time, rec.last_interaction);
            let rate = config.interest_rate.atomics as nat;
            &&& compound(rec.last_balance as nat, rate, days) <= u128::MAX
            &&& rec.last_balance <= st.tvl
            &&& st.tvl_indices < i64::MAX
        }
    }
}

/// Everything a full redemption does, for every input: which error
/// rejects it, and — on success — the reset record, the debited aggregate
/// state and snapshot, and the burn and transfer it emits. The whole
/// balance is burnt; the transfer adds one final interest accrual on top.
pub open spec fn redeem_all_post(
    s0: Store,
    s1: Store,
    time: u64,
    sender: Seq<char>,
    out: Result<Seq<SettlementMsgView>, ContractError>,
) -> bool {
    if s0.config is None {
        out == Err::<Seq<SettlementMsgView>, ContractError>(ContractError::Uninitialized) && s1
            == s0
    } else {
        let config = s0.config->0;
        if config.aterra_contract is None {
            out == Err::<Seq<SettlementMsgView>, ContractError>(ContractError::Unauthorized) && s1
                == s0
        } else if s0.state is None {
            out == Err::<Seq<SettlementMsgView>, ContractError>(ContractError::Uninitialized) && s1
                == s0
        } else if s0.state->0.tvl_indices != s0.tvl_history@.len() as int {
            out == Err::<Seq<SettlementMsgView>, ContractError>(ContractError::Overflow) && s1
                == s0
        } else {
            let st = s0.state->0;
            let rec = s0.deposit_record(sender);
            let days = days_between(time, rec.last_interaction);
            let interest = interest_of(
                rec.last_balance as nat,
                config.interest_rate.atomics as nat,
                days,
            );
            let burn = rec.last_balance;
            &&& out == Ok::<Seq<SettlementMsgView>, ContractError>(
                seq![
                    SettlementMsgView::Burn { amount: burn as nat },
                    SettlementMsgView::Transfer {
                        to: sender,
                        denom: config.stable_denom@,
                        amount: (burn + interest) as nat,
                    },
                ],
            )
            &&& s1.config == s0.config
            &&& s1.pending_instantiation == s0.pending_instantiation
            &&& s1.state == Some(
                State {
                    tvl: (st.tvl - burn) as u128,
                    tvl_indices: (st.tvl_indices + 1) as i64,
                    accrued_interest_payments: st.accrued_interest_payments,
                },
            )
            &&& s1.tvl_history@ == s0.tvl_history@.push(
                Tvl { tvl: (st.tvl - burn) as u128, epoch: time },
            )
            &&& s1.deposit_record(sender) == DepositInfo::default_spec()
            &&& forall|id: Seq<char>|
                id != sender ==> #[trigger] s1.deposit_record(id) == s0.deposit_record(id)
        }
    }
}

/// Redeems a whole balance: burns every receipt token the record holds,
/// transfers the balance plus one final interest accrual back in base
/// currency, debits the TVL history by the burnt balance, and resets the
/// record to its default in place.
pub fn redeem_all_stable(store: &mut Store, time: u64, sender: String, _withdrawal: u128) -> (r:
    Result<Vec<SettlementMsg>, ContractError>)
    requires
        old(store).wf(),
        redeem_all_safe(*old(store), time, sender@),
    ensures
        final(store).wf(),
        redeem_all_post(*old(store), *final(store), time, sender@, out_view(r)),
        old(store).tvl_in_sync() ==> final(store).tvl_in_sync(),
{
    let (denom, rate, registered) = match read_config(store) {
        Ok(c) => (c.stable_denom.clone(), c.interest_rate, c.aterra_contract.is_some()),
        Err(e) => {
            return Err(e);
        },
    };
    if !registered {
        return Err(ContractError::Unauthorized);
    }
    let st = match read_state(store) {
        Ok(s) => s,
        Err(e) => {
            return Err(e);
        },
    };
    let mut deposit = read_deposit_info(store, &sender);
    let last_interaction = deposit.last_interaction;
    let duration = time - last_interaction;
    let days = duration / DURATION;
    proof {
        assert(days == days_between(time, last_interaction));
    }
    deposit.last_interaction = time;
    let burn_amount = deposit.last_balance;
    let accrued_interest = match calculate_accrued_interest(&deposit, rate, days) {
        Ok(v) => v,
        Err(e) => {
            return Err(e);
        },
    };
    proof {
        crate::helpers::lemma_compound_monotone(
            deposit.last_balance as nat,
            rate.atomics as nat,
            0,
            days as nat,
        );
    }
    let withdraw_amount = burn_amount + accrued_interest;
    if (st.tvl_indices as u64) != (store.tvl_history.len() as u64) {
        return Err(ContractError::Overflow);
    }
    let mut tvl_data = Tvl { epoch: time, tvl: burn_amount };
    match store_tvl_indice(store, &mut tvl_data, 0) {
        Ok(_) => (),
        Err(e) => {
            return Err(e);
        },
    };
    let reset = DepositInfo::default();
    match store_deposit_info(store, &sender, &reset) {
        Ok(_) => (),
        Err(e) => {
            return Err(e);
        },
    };
    let msgs = vec![
        SettlementMsg::Burn { amount: burn_amount },
        SettlementMsg::Transfer { to: sender, denom, amount: withdraw_amount },
    ];
    proof {
        assert(msgs_view(msgs@) =~= seq![
            SettlementMsgView::Burn { amount: burn_amount as nat },
            SettlementMsgView::Transfer {
                to: sender@,
                denom: old(store).config->0.stable_denom@,
                amount: withdraw_amount as nat,
            },
        ]);
    }
    Ok(msgs)
}

/// A deposit that finds no elapsed period accrues nothing: the balance
/// grows by exactly the deposited amount, the accrued interest stands,
/// and exactly the deposited amount is minted.
pub proof fn lemma_deposit_zero_periods(
    s0: Store,
    s1: Store,
    time: u64,
    sender: Seq<char>,
    funds: Seq<Coin>,
    msgs: Seq<SettlementMsgView>,
)
    requires
        deposit_safe(s0, time, sender, funds),
        deposit_post(s0, s1, time, sender, funds, Ok(msgs)),
        days_between(time, with_first_interaction(s0.deposit_record(sender), time).last_interaction)
            == 0,
    ensures
        s1.deposit_record(sender).last_balance == s0.deposit_record(sender).last_balance
            + first_coin_amount(funds, s0.config->0.stable_denom@),
        s1.deposit_record(sender).accrued_interest == s0.deposit_record(sender).accrued_interest,
        msgs == seq![
            SettlementMsgView::Mint {
                recipient: sender,
                amount: first_coin_amount(funds, s0.config->0.stable_denom@),
            },
        ],
{
    let rec0 = with_first_interaction(s0.deposit_record(sender), time);
    let rate = s0.config->0.interest_rate.atomics as nat;
    assert(compound(rec0.last_balance as nat, rate, 0) == rec0.last_balance as nat);
    assert(interest_of(rec0.last_balance as nat, rate, 0) == 0);
}

/// A deposit that finds the default record — an identity never seen, or
/// one fully redeemed — always behaves the same way: no interest, the
/// deposited amount becomes the whole balance, both timestamps are set to
/// now, and exactly the deposited amount is minted.
pub proof fn lemma_deposit_on_default_record(
    s0: Store,
    s1: Store,
    time: u64,
    sender: Seq<char>,
    funds: Seq<Coin>,
    msgs: Seq<SettlementMsgView>,
)
    requires
        deposit_safe(s0, time, sender, funds),
        deposit_post(s0, s1, time, sender, funds, Ok(msgs)),
        s0.deposit_record(sender) == DepositInfo::default_spec(),
    ensures
        s1.deposit_record(sender) == (DepositInfo {
            last_interaction: time,
            last_balance: (first_coin_amount(funds, s0.config->0.stable_denom@)) as u128,
            accrued_interest: 0,
            initial_interaction: time,
            sum_deposits: (first_coin_amount(funds, s0.config->0.stable_denom@)) as u128,
        }),
        msgs == seq![
            SettlementMsgView::Mint {
                recipient: sender,
                amount: first_coin_amount(funds, s0.config->0.stable_denom@),
            },
        ],
{
    let rec0 = with_first_interaction(s0.deposit_record(sender), time);
    assert(rec0.last_interaction == time);
    assert(days_between(time, time) == 0);
    let rate = s0.config->0.interest_rate.atomics as nat;
    assert(compound(rec0.last_balance as nat, rate, 0) == rec0.last_balance as nat);
    assert(interest_of(rec0.last_balance as nat, rate, 0) == 0);
}

} // verus!

