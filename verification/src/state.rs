//! Data model of the vault: configuration, global aggregate state, the
//! per-depositor ledger, and the TVL snapshot history, all held in an
//! explicit [`Store`] that every operation receives by reference.

use vstd::prelude::*;

use crate::error::ContractError;
use crate::helpers::Rate;

verus! {

/// Message that migrates the system; it carries nothing.
#[derive(Clone, Debug, PartialEq, Eq, Structural)]
pub struct MigrateMsg {}

/// Message that initializes the system.
#[derive(Clone, Debug, PartialEq)]
pub struct InstantiateMsg {
    /// Base denomination accepted for deposits.
    pub stable_denom: String,
    /// Code id from which the companion receipt-token contract is
    /// instantiated.
    pub aterra_code_id: u64,
    /// Interest rate per compounding period, written `"<int>.<frac>"`.
    pub interest: String,
}

/// One coin of funds attached to an inbound operation: a denomination and an
/// amount of its base unit.
#[derive(Clone, Debug, PartialEq)]
pub struct Coin {
    pub denom: String,
    pub amount: u128,
}

/// Immutable system configuration, written once at instantiation; only the
/// companion token identity is filled in later, exactly once.
#[derive(Clone, Debug, PartialEq)]
pub struct Config {
    /// Canonical identity of this contract itself.
    pub contract_addr: String,
    /// Canonical identity of the companion receipt-token contract, unset
    /// until the registration callback arrives.
    pub aterra_contract: Option<String>,
    /// Base denomination accepted for deposits.
    pub stable_denom: String,
    /// Interest rate per compounding period.
    pub interest_rate: Rate,
}

impl Config {
    /// A configuration is well formed when its rate is a proper fraction.
    pub open spec fn wf(self) -> bool {
        self.interest_rate.wf()
    }
}

/// Response to a configuration query.
#[derive(Clone, Debug, PartialEq)]
pub struct ConfigResponse {
    pub aterra_contract: String,
    pub stable_denom: String,
    pub interest_rate: Rate,
}

/// Per-depositor ledger record. An identity that never deposited is
/// indistinguishable from this record's default value; full redemption
/// resets the record to that default in place.
#[derive(Clone, Copy, Debug, PartialEq, Eq, Structural)]
pub struct DepositInfo {
    /// Time of the most recent interaction; `0` means none yet.
    pub last_interaction: u64,
    /// Receipt-token balance after the most recent interaction.
    pub last_balance: u128,
    /// Interest credited to this record so far.
    pub accrued_interest: u128,
    /// Time of the first-ever interaction; `0` means none yet.
    pub initial_interaction: u64,
    /// Sum of all principal ever deposited.
    pub sum_deposits: u128,
}

impl DepositInfo {
    /// The all-zero record that stands for an identity never seen.
    pub open spec fn default_spec() -> DepositInfo {
        DepositInfo {
            last_interaction: 0,
            last_balance: 0,
            accrued_interest: 0,
            initial_interaction: 0,
            sum_deposits: 0,
        }
    }
}

impl Default for DepositInfo {
    fn default() -> (d: Self)
        ensures
            d == Self::default_spec(),
    {
        DepositInfo {
            last_interaction: 0,
            last_balance: 0,
            accrued_interest: 0,
            initial_interaction: 0,
            sum_deposits: 0,
        }
    }
}

/// Global aggregate state, a process-wide singleton.
#[derive(Clone, Copy, Debug, PartialEq, Eq, Structural)]
pub struct State {
    /// Cumulative total value locked.
    pub tvl: u128,
    /// Next free index of the TVL history; monotonically increasing and
    /// never reused.
    pub tvl_indices: i64,
    /// Total interest credited across all depositors.
    pub accrued_interest_payments: u128,
}

/// One snapshot of the TVL history: the cumulative total value locked as of
/// a moment in time. Snapshots are append-only and immutable once written.
#[derive(Clone, Copy, Debug, PartialEq, Eq, Structural)]
pub struct Tvl {
    /// Cumulative total value locked after the operation that wrote this
    /// snapshot.
    pub tvl: u128,
    /// Block time of that operation.
    pub epoch: u64,
}

impl Default for Tvl {
    fn default() -> (d: Self)
        ensures
            d == (Tvl { tvl: 0, epoch: 0 }),
    {
        Tvl { tvl: 0, epoch: 0 }
    }
}

/// A depositor's entry of the ledger: the identity and its record.
#[derive(Clone, Debug)]
pub struct DepositEntry {
    pub ident: String,
    pub info: DepositInfo,
}

/// First-match lookup of an identity's record among the ledger entries; an
/// absent identity yields the default record.
pub open spec fn record_in(entries: Seq<DepositEntry>, ident: Seq<char>) -> DepositInfo
    decreases entries.len(),
{
    if entries.len() == 0 {
        DepositInfo::default_spec()
    } else if entries[0].ident@ == ident {
        entries[0].info
    } else {
        record_in(entries.drop_first(), ident)
    }
}

/// The whole persistent state of the system, passed explicitly into every
/// operation so that instances stay isolated and deterministic.
#[derive(Debug)]
pub struct Store {
    /// Singleton configuration; absent until instantiation.
    pub config: Option<Config>,
    /// Singleton global aggregate state; absent until instantiation.
    pub state: Option<State>,
    /// Per-depositor ledger, keyed by identity.
    pub deposits: Vec<DepositEntry>,
    /// Append-only TVL snapshot log; the snapshot of index `i` sits at
    /// position `i`.
    pub tvl_history: Vec<Tvl>,
    /// Correlation id of the outstanding companion-token instantiation
    /// request, if one was issued.
    pub pending_instantiation: Option<u64>,
}

impl Store {
    /// The record of an identity, defaulting for one never seen.
    pub open spec fn deposit_record(self, ident: Seq<char>) -> DepositInfo {
        record_in(self.deposits@, ident)
    }

    /// Well-formedness: ledger identities are unique, the configured rate is
    /// a proper fraction, and the snapshot counter is never negative.
    pub open spec fn wf(self) -> bool {
        &&& forall|i: int, j: int|
            0 <= i < j < self.deposits@.len() ==> (#[trigger] self.deposits@[i]).ident@
                != (#[trigger] self.deposits@[j]).ident@
        &&& (self.config is Some ==> self.config->0.wf())
        &&& (self.state is Some ==> self.state->0.tvl_indices >= 0)
    }

    /// The cumulative TVL of the global state agrees with the latest
    /// snapshot. Established at instantiation and preserved by every
    /// operation that moves value.
    pub open spec fn tvl_in_sync(self) -> bool {
        &&& self.state is Some
        &&& self.tvl_history@.len() > 0
        &&& self.state->0.tvl == self.tvl_history@.last().tvl
    }

    /// An empty store: nothing initialized, no ledger entries, no history.
    pub fn new() -> (s: Store)
        ensures
            s.config is None,
            s.state is None,
            s.deposits@.len() == 0,
            s.tvl_history@.len() == 0,
            s.pending_instantiation is None,
            s.wf(),
    {
        Store {
            config: None,
            state: None,
            deposits: Vec::new(),
            tvl_history: Vec::new(),
            pending_instantiation: None,
        }
    }
}

/// Message enqueued as an outgoing effect of a successful operation, to be
/// delivered to the companion token contract or to the base-currency
/// transfer primitive.
#[derive(Clone, Debug, PartialEq)]
pub enum SettlementMsg {
    /// Mint receipt tokens to a depositor.
    Mint { recipient: String, amount: u128 },
    /// Burn receipt tokens returned by a redeemer.
    Burn { amount: u128 },
    /// Transfer base currency to a redeemer.
    Transfer { to: String, denom: String, amount: u128 },
}

/// Mathematical shape of a settlement message: identities and denominations
/// as character sequences, amounts as unbounded naturals.
pub enum SettlementMsgView {
    Mint { recipient: Seq<char>, amount: nat },
    Burn { amount: nat },
    Transfer { to: Seq<char>, denom: Seq<char>, amount: nat },
}

impl View for SettlementMsg {
    type V = SettlementMsgView;

    open spec fn view(&self) -> SettlementMsgView {
        match self {
            SettlementMsg::Mint { recipient, amount } => SettlementMsgView::Mint {
                recipient: recipient@,
                amount: *amount as nat,
            },
            SettlementMsg::Burn { amount } => SettlementMsgView::Burn { amount: *amount as nat },
            SettlementMsg::Transfer { to, denom, amount } => SettlementMsgView::Transfer {
                to: to@,
                denom: denom@,
                amount: *amount as nat,
            },
        }
    }
}

/// The views of a batch of settlement messages, in emission order.
pub open spec fn msgs_view(v: Seq<SettlementMsg>) -> Seq<SettlementMsgView> {
    v.map_values(|m: SettlementMsg| m@)
}

/// A query against the read-only surface of the system.
#[derive(Clone, Debug, PartialEq)]
pub enum QueryMsg {
    Config {},
    State {},
    Ident { address: String, epoch: u64 },
    Tvl { indice: i64 },
}

/// Hook carried inside a receipt-token transfer.
#[derive(Clone, Debug, PartialEq)]
pub enum Cw20HookMsg {
    /// Return stable coins to a user
    /// according to exchange rate
    RedeemNStable {},
    RedeemAllStable {},
}

/// A receipt-token transfer handed to this system, with its decoded hook;
/// a hook that could not be decoded arrives as `None`.
#[derive(Clone, Debug, PartialEq)]
pub struct ReceiveMsg {
    /// Identity that sent the receipt tokens.
    pub sender: String,
    /// Number of receipt tokens sent along.
    pub amount: u128,
    /// The decoded hook, if any.
    pub msg: Option<Cw20HookMsg>,
}

/// An inbound operation.
#[derive(Clone, Debug, PartialEq)]
pub enum ExecuteMsg {
    /// Receipt tokens arriving with a redemption hook.
    Receive(ReceiveMsg),
    /// A deposit of the funds attached to the call.
    DepositStable {},
    /// Accepted and ignored: this vault pays interest through the ledger
    /// itself.
    ClaimRewards { to: Option<String> },
}

/// Writes the singleton configuration.
pub fn store_config(store: &mut Store, data: Config) -> (r: Result<(), ContractError>)
    ensures
        r is Ok,
        final(store).config == Some(data),
        final(store).state == old(store).state,
        final(store).deposits == old(store).deposits,
        final(store).tvl_history == old(store).tvl_history,
        final(store).pending_instantiation == old(store).pending_instantiation,
        old(store).wf() && data.wf() ==> final(store).wf(),
{
    store.config = Some(data);
    Ok(())
}

/// Reads the singleton configuration; absent before instantiation.
pub fn read_config(store: &Store) -> (r: Result<&Config, ContractError>)
    ensures
        match r {
            Ok(c) => store.config is Some && *c == store.config->0,
            Err(e) => store.config is None && e == ContractError::Uninitialized,
        },
{
    match &store.config {
        Some(c) => Ok(c),
        None => Err(ContractError::Uninitialized),
    }
}

/// Writes the singleton global aggregate state.
pub fn store_state(store: &mut Store, data: State) -> (r: Result<(), ContractError>)
    ensures
        r is Ok,
        final(store).state == Some(data),
        final(store).config == old(store).config,
        final(store).deposits == old(store).deposits,
        final(store).tvl_history == old(store).tvl_history,
        final(store).pending_instantiation == old(store).pending_instantiation,
        old(store).wf() && data.tvl_indices >= 0 ==> final(store).wf(),
{
    store.state = Some(data);
    Ok(())
}

/// Reads the singleton global aggregate state; absent before
/// instantiation.
pub fn read_state(store: &Store) -> (r: Result<State, ContractError>)
    ensures
        match r {
            Ok(s) => store.state == Some(s),
            Err(e) => store.state is None && e == ContractError::Uninitialized,
        },
{
    match &store.state {
        Some(s) => Ok(*s),
        None => Err(ContractError::Uninitialized),
    }
}

/// Position of the first ledger entry carrying the identity, if any;
/// with none, no entry carries it at all.
fn find_deposit(deposits: &Vec<DepositEntry>, ident: &String) -> (r: Option<usize>)
    ensures
        match r {
            Some(k) => k < deposits@.len() && deposits@[k as int].ident@ == ident@ && forall|i: int|
                0 <= i < k ==> deposits@[i].ident@ != ident@,
            None => forall|i: int| 0 <= i < deposits@.len() ==> deposits@[i].ident@ != ident@,
        },
{
    let mut k: usize = 0;
    while k < deposits.len()
        invariant
            k <= deposits@.len(),
            forall|i: int| 0 <= i < k ==> deposits@[i].ident@ != ident@,
        decreases deposits@.len() - k,
    {
        if deposits[k].ident == *ident {
            return Some(k);
        }
        k = k + 1;
    }
    None
}

/// An identity carried by no entry looks up to the default record.
proof fn lemma_record_in_absent(s: Seq<DepositEntry>, id: Seq<char>)
    requires
        forall|i: int| 0 <= i < s.len() ==> s[i].ident@ != id,
    ensures
        record_in(s, id) == DepositInfo::default_spec(),
    decreases s.len(),
{
    if s.len() > 0 {
        lemma_record_in_absent(s.drop_first(), id);
    }
}

/// The first entry carrying an identity decides its lookup.
proof fn lemma_record_in_found(s: Seq<DepositEntry>, id: Seq<char>, k: int)
    requires
        0 <= k < s.len(),
        s[k].ident@ == id,
        forall|i: int| 0 <= i < k ==> s[i].ident@ != id,
    ensures
        record_in(s, id) == s[k].info,
    decreases k,
{
    if k > 0 {
        lemma_record_in_found(s.drop_first(), id, k - 1);
    }
}

/// Replacing the unique entry of an identity changes that lookup alone.
proof fn lemma_record_in_update(s: Seq<DepositEntry>, k: int, e: DepositEntry, id: Seq<char>)
    requires
        0 <= k < s.len(),
        e.ident@ == s[k].ident@,
        forall|i: int, j: int|
            0 <= i < j < s.len() ==> (#[trigger] s[i]).ident@ != (#[trigger] s[j]).ident@,
    ensures
        record_in(s.update(k, e), id) == if id == e.ident@ {
            e.info
        } else {
            record_in(s, id)
        },
    decreases k,
{
    if k == 0 {
        if id != e.ident@ {
            assert(s.update(0, e).drop_first() =~= s.drop_first());
        }
    } else {
        assert(s.update(k, e).drop_first() =~= s.drop_first().update(k - 1, e));
        assert(s[0] == s.update(k, e)[0]);
        assert(s[0].ident@ != s[k].ident@);
        lemma_record_in_update(s.drop_first(), k - 1, e, id);
    }
}

/// Appending an entry for a fresh identity changes that lookup alone.
proof fn lemma_record_in_push(s: Seq<DepositEntry>, e: DepositEntry, id: Seq<char>)
    requires
        forall|i: int| 0 <= i < s.len() ==> s[i].ident@ != e.ident@,
    ensures
        record_in(s.push(e), id) == if id == e.ident@ {
            e.info
        } else {
            record_in(s, id)
        },
    decreases s.len(),
{
    if s.len() == 0 {
        assert(s.push(e)[0] == e);
        if id != e.ident@ {
            assert(s.push(e).drop_first() =~= Seq::<DepositEntry>::empty());
            assert(record_in(Seq::<DepositEntry>::empty(), id) == DepositInfo::default_spec());
            assert(record_in(s.push(e), id) == record_in(s.push(e).drop_first(), id));
        }
    } else {
        assert(s.push(e)[0] == s[0]);
        assert(s[0].ident@ != e.ident@);
        assert(s.push(e).drop_first() =~= s.drop_first().push(e));
        assert forall|i: int| 0 <= i < s.drop_first().len() implies s.drop_first()[i].ident@
            != e.ident@ by {
            assert(s.drop_first()[i] == s[i + 1]);
            assert(s[i + 1].ident@ != e.ident@);
        }
        lemma_record_in_push(s.drop_first(), e, id);
        if s[0].ident@ == id {
            assert(record_in(s.push(e), id) == s[0].info);
            assert(record_in(s, id) == s[0].info);
        } else {
            assert(record_in(s.push(e), id) == record_in(s.drop_first().push(e), id));
            assert(record_in(s, id) == record_in(s.drop_first(), id));
        }
    }
}

/// Reads an identity's ledger record, owned; an identity never written
/// reads as the default record, with no entry created.
pub fn read_deposit_info(store: &Store, ident: &String) -> (r: DepositInfo)
    ensures
        r == store.deposit_record(ident@),
{
    match find_deposit(&store.deposits, ident) {
        Some(k) => {
            proof {
                lemma_record_in_found(store.deposits@, ident@, k as int);
            }
            store.deposits[k].info
        },
        None => {
            proof {
                lemma_record_in_absent(store.deposits@, ident@);
            }
            DepositInfo::default()
        },
    }
}

/// Writes an identity's ledger record, replacing its entry or creating
/// one; every other identity's record is untouched.
pub fn store_deposit_info(store: &mut Store, ident: &String, deposit: &DepositInfo) -> (r: Result<
    (),
    ContractError,
>)
    requires
        old(store).wf(),
    ensures
        r is Ok,
        final(store).wf(),
        final(store).deposit_record(ident@) == *deposit,
        forall|id: Seq<char>|
            id != ident@ ==> #[trigger] final(store).deposit_record(id) == old(
                store,
            ).deposit_record(id),
        final(store).config == old(store).config,
        final(store).state == old(store).state,
        final(store).tvl_history == old(store).tvl_history,
        final(store).pending_instantiation == old(store).pending_instantiation,
{
    let entry = DepositEntry { ident: ident.clone(), info: *deposit };
    let ghost s0 = store.deposits@;
    match find_deposit(&store.deposits, ident) {
        Some(k) => {
            store.deposits[k] = entry;
            proof {
                let e = store.deposits@[k as int];
                assert(store.deposits@ =~= s0.update(k as int, e));
                lemma_record_in_update(s0, k as int, e, ident@);
                assert forall|id: Seq<char>|
                    id != ident@ implies #[trigger] record_in(store.deposits@, id) == record_in(
                    s0,
                    id,
                ) by {
                    lemma_record_in_update(s0, k as int, e, id);
                }
                assert forall|i: int, j: int|
                    0 <= i < j < store.deposits@.len() implies (#[trigger] store.deposits@[i]).ident@
                    != (#[trigger] store.deposits@[j]).ident@ by {
                    assert(store.deposits@[i].ident@ == s0[i].ident@);
                    assert(store.deposits@[j].ident@ == s0[j].ident@);
                }
            }
        },
        None => {
            store.deposits.push(entry);
            proof {
                let e = store.deposits@.last();
                assert(store.deposits@ =~= s0.push(e));
                lemma_record_in_push(s0, e, ident@);
                assert forall|id: Seq<char>|
                    id != ident@ implies #[trigger] record_in(store.deposits@, id) == record_in(
                    s0,
                    id,
                ) by {
                    lemma_record_in_push(s0, e, id);
                }
            }
        },
    }
    Ok(())
}

/// The snapshot at an index of the TVL history; an index never written
/// reads as the all-zero snapshot.
pub open spec fn tvl_at(store: Store, indice: int) -> Tvl {
    if 0 <= indice < store.tvl_history@.len() {
        store.tvl_history@[indice]
    } else {
        Tvl { tvl: 0, epoch: 0 }
    }
}

/// The cumulative TVL after applying a delta in the given direction:
/// `1` credits, `0` debits, and any other direction leaves it as it was.
pub open spec fn tvl_after(tvl: u128, delta: u128, direction: usize) -> int {
    if direction == 1 {
        tvl + delta
    } else if direction == 0 {
        tvl - delta
    } else {
        tvl as int
    }
}

/// What the written snapshot records: the updated cumulative TVL, or the
/// raw delta when the direction neither credits nor debits.
pub open spec fn snapshot_value(tvl: u128, delta: u128, direction: usize) -> int {
    if direction == 1 || direction == 0 {
        tvl_after(tvl, delta, direction)
    } else {
        delta as int
    }
}

/// The machine bounds under which appending a snapshot cannot overflow:
/// a credit fits the cumulative TVL, a debit never exceeds it, and the
/// index counter has room left.
pub open spec fn tvl_put_safe(store: Store, delta: u128, direction: usize) -> bool {
    store.state is Some ==> {
        let st = store.state->0;
        &&& (direction == 1 ==> st.tvl + delta <= u128::MAX)
        &&& (direction == 0 ==> delta <= st.tvl)
        &&& st.tvl_indices < i64::MAX
    }
}

/// Appends one snapshot to the TVL history: applies the delta carried in
/// `data.tvl` to the cumulative TVL, writes the new cumulative value into
/// `data.tvl` and into the snapshot at the pre-increment index, and
/// advances the index counter. A counter that does not point at the first
/// free slot signals corrupted state and nothing is written.
pub fn store_tvl_indice(store: &mut Store, data: &mut Tvl, direction: usize) -> (r: Result<
    (),
    ContractError,
>)
    requires
        tvl_put_safe(*old(store), old(data).tvl, direction),
    ensures
        ({
            let s0 = *old(store);
            if s0.state is None {
                &&& r == Err::<(), ContractError>(ContractError::Uninitialized)
                &&& *final(store) == s0
                &&& *final(data) == *old(data)
            } else if s0.state->0.tvl_indices != s0.tvl_history@.len() as int {
                &&& r == Err::<(), ContractError>(ContractError::Overflow)
                &&& *final(store) == s0
                &&& *final(data) == *old(data)
            } else {
                let st = s0.state->0;
                let snap = Tvl {
                    tvl: snapshot_value(st.tvl, old(data).tvl, direction) as u128,
                    epoch: old(data).epoch,
                };
                &&& r is Ok
                &&& *final(data) == snap
                &&& final(store).state == Some(
                    State {
                        tvl: tvl_after(st.tvl, old(data).tvl, direction) as u128,
                        tvl_indices: (st.tvl_indices + 1) as i64,
                        accrued_interest_payments: st.accrued_interest_payments,
                    },
                )
                &&& final(store).tvl_history@ == s0.tvl_history@.push(snap)
                &&& final(store).config == s0.config
                &&& final(store).deposits == s0.deposits
                &&& final(store).pending_instantiation == s0.pending_instantiation
            }
        }),
        old(store).wf() ==> final(store).wf(),
{
    let st = match &store.state {
        Some(s) => *s,
        None => {
            return Err(ContractError::Uninitialized);
        },
    };
    if st.tvl_indices < 0 || (st.tvl_indices as u64) != (store.tvl_history.len() as u64) {
        return Err(ContractError::Overflow);
    }
    let mut new_state = st;
    new_state.tvl_indices = st.tvl_indices + 1;
    if direction == 1 {
        new_state.tvl = st.tvl + data.tvl;
        data.tvl = new_state.tvl;
    } else if direction == 0 {
        new_state.tvl = st.tvl - data.tvl;
        data.tvl = new_state.tvl;
    }
    store.state = Some(new_state);
    store.tvl_history.push(Tvl { tvl: data.tvl, epoch: data.epoch });
    Ok(())
}

/// Reads the snapshot at one index of the TVL history; an index never
/// written reads as the all-zero snapshot.
pub fn read_tvl_indice(store: &Store, indice: i64) -> (r: Tvl)
    ensures
        r == tvl_at(*store, indice as int),
{
    if indice >= 0 && (indice as u64) < (store.tvl_history.len() as u64) {
        store.tvl_history[indice as usize]
    } else {
        Tvl::default()
    }
}

/// Reads the first `tvl_indices` snapshots of the TVL history in
/// ascending creation order, defaulting any index never written.
pub fn read_tvl_indices(store: &Store, tvl_indices: i64) -> (r: Result<Vec<Tvl>, ContractError>)
    requires
        0 <= tvl_indices,
    ensures
        r is Ok,
        r->Ok_0@.len() == tvl_indices,
        forall|i: int| 0 <= i < tvl_indices ==> r->Ok_0@[i] == tvl_at(*store, i),
{
    let mut tvls: Vec<Tvl> = Vec::new();
    let mut epoch_counter: i64 = 0;
    while epoch_counter < tvl_indices
        invariant
            0 <= epoch_counter <= tvl_indices,
            tvls@.len() == epoch_counter,
            forall|i: int| 0 <= i < epoch_counter ==> tvls@[i] == tvl_at(*store, i),
        decreases tvl_indices - epoch_counter,
    {
        tvls.push(read_tvl_indice(store, epoch_counter));
        epoch_counter = epoch_counter + 1;
    }
    Ok(tvls)
}

/// The signed sum of the deltas that the TVL history records: what the
/// genesis snapshot wrote, plus each later snapshot's change against its
/// predecessor.
pub open spec fn delta_sum(h: Seq<Tvl>) -> int
    decreases h.len(),
{
    if h.len() == 0 {
        0
    } else if h.len() == 1 {
        h[0].tvl as int
    } else {
        delta_sum(h.drop_last()) + (h.last().tvl - h[h.len() - 2].tvl)
    }
}

/// The deltas of a history telescope: their signed sum is the latest
/// snapshot's cumulative value.
proof fn lemma_delta_sum_telescopes(h: Seq<Tvl>)
    requires
        h.len() > 0,
    ensures
        delta_sum(h) == h.last().tvl,
    decreases h.len(),
{
    if h.len() > 1 {
        lemma_delta_sum_telescopes(h.drop_last());
        assert(h.drop_last().last() == h[h.len() - 2]);
    }
}

/// Replay property: as long as the cumulative TVL agrees with the latest
/// snapshot — which instantiation establishes and every operation that
/// moves value preserves — it equals the signed sum of every snapshot
/// delta since genesis.
pub proof fn lemma_cumulative_tvl_replay(store: Store)
    requires
        store.tvl_in_sync(),
    ensures
        store.state->0.tvl == delta_sum(store.tvl_history@),
{
    lemma_delta_sum_telescopes(store.tvl_history@);
}

} // verus!
