use vstd::prelude::*;

use crate::error::ContractError;
use crate::msg::ConfigResponse;
use crate::msg::ExecuteMsg;
use crate::msg::InstantiateMsg;
use crate::msg::QueryMsg;
use crate::msg::QueryResponse;
use crate::msg::StateResponse;
use crate::msg::TesterInfoResponse;
use crate::msg::TransferInstruction;
use crate::state::store_test_user;
use crate::state::tester_info;
use crate::state::AssetKind;
use crate::state::Config;
use crate::state::Ledger;
use crate::state::State;
use crate::state::TesterInfo;
use crate::state::COOLDOWN_SECONDS;

verus! {

/// The record `sender` reads from a ledger map: its entry, or the all-zero
/// record if it has none.
pub open spec fn spec_tester_info(m: Map<Seq<char>, TesterInfo>, sender: Seq<char>) -> TesterInfo {
    if m.contains_key(sender) {
        m[sender]
    } else {
        TesterInfo::zero()
    }
}

/// The cooldown rule: a claim of `kind` at time `now` passes only once a
/// full window of `COOLDOWN_SECONDS` has elapsed since the last successful
/// claim of the same kind. A fresh record has timestamp zero, so a first
/// claim passes at any `now` of at least one window.
pub open spec fn cooldown_passed(r: TesterInfo, kind: AssetKind, now: u64) -> bool {
    now >= r.last_claimed(kind) + COOLDOWN_SECONDS
}

/// The asset kind a claim does not touch.
pub open spec fn other_kind(kind: AssetKind) -> AssetKind {
    match kind {
        AssetKind::Qtum => AssetKind::Inj,
        AssetKind::Inj => AssetKind::Qtum,
    }
}

/// The caller's record after a successful claim: the claimed kind's
/// cumulative amount grows by `amount` and its timestamp becomes `now`;
/// the other kind's fields are untouched.
pub open spec fn record_after_claim(r: TesterInfo, kind: AssetKind, amount: u128, now: u64) -> TesterInfo {
    match kind {
        AssetKind::Qtum => TesterInfo {
            claimed_qutm_amount: (r.claimed_qutm_amount + amount) as u128,
            last_qtum_claimed: now,
            ..r
        },
        AssetKind::Inj => TesterInfo {
            claimed_inj_amount: (r.claimed_inj_amount + amount) as u128,
            last_inj_claimed: now,
            ..r
        },
    }
}

/// The global counters after a successful claim: the claimed kind's total
/// grows by `amount`; the other total and the tester count are untouched.
pub open spec fn state_after_claim(s: State, kind: AssetKind, amount: u128) -> State {
    match kind {
        AssetKind::Qtum => State { total_qtum_claimed: (s.total_qtum_claimed + amount) as u128, ..s },
        AssetKind::Inj => State { total_inj_claimed: (s.total_inj_claimed + amount) as u128, ..s },
    }
}

/// Whether adding `amount` to the caller's cumulative amount or to the
/// global total of `kind` would leave the range of the amount type.
pub open spec fn claim_overflows(r: TesterInfo, s: State, kind: AssetKind, amount: u128) -> bool {
    r.claimed_amount(kind) + amount > u128::MAX || s.total_claimed(kind) + amount > u128::MAX
}

/// The outcome a claim must have, given the caller's current record and
/// the global counters: it succeeds exactly when the cooldown has elapsed,
/// the amount is within the configured maximum, and the accounting
/// additions stay in range; each failure names its reason, the first
/// failed check deciding.
pub open spec fn claim_outcome(
    config: Config,
    r: TesterInfo,
    s: State,
    kind: AssetKind,
    amount: u128,
    now: u64,
) -> Result<(TesterInfo, State), ContractError> {
    if !cooldown_passed(r, kind, now) {
        Err(ContractError::CooldownActive)
    } else if amount > config.max_claim(kind) {
        Err(ContractError::AmountExceedsMax)
    } else if claim_overflows(r, s, kind, amount) {
        Err(ContractError::Overflow)
    } else {
        Ok((record_after_claim(r, kind, amount, now), state_after_claim(s, kind, amount)))
    }
}

/// The transfer a successful claim emits for the host to execute: the
/// claimed amount goes to the claimant, from the token contract for the
/// first kind, as native funds for the second.
pub open spec fn claim_transfer(config: Config, sender: String, kind: AssetKind, amount: u128) -> TransferInstruction {
    match kind {
        AssetKind::Qtum => TransferInstruction::TokenTransfer {
            contract_addr: config.qtum_addr,
            recipient: sender,
            amount,
        },
        AssetKind::Inj => TransferInstruction::NativeSend { recipient: sender, amount },
    }
}

/// Everything a claim must do, over the ledger's map view: the result and
/// the new state follow `claim_outcome` on the caller's current record; a
/// failure changes nothing; a success stores the updated record under the
/// caller's identity, updates the claimed total, and returns the transfer
/// instruction.
pub open spec fn claim_post(
    config: Config,
    ledger0: Map<Seq<char>, TesterInfo>,
    ledger1: Map<Seq<char>, TesterInfo>,
    state0: State,
    state1: State,
    sender: String,
    kind: AssetKind,
    amount: u128,
    now: u64,
    r: Result<TransferInstruction, ContractError>,
) -> bool {
    let rec = spec_tester_info(ledger0, sender@);
    match claim_outcome(config, rec, state0, kind, amount, now) {
        Err(e) => {
            &&& r == Err::<TransferInstruction, ContractError>(e)
            &&& ledger1 == ledger0
            &&& state1 == state0
        },
        Ok(updated) => {
            &&& r == Ok::<TransferInstruction, ContractError>(
                claim_transfer(config, sender, kind, amount),
            )
            &&& ledger1 == ledger0.insert(sender@, updated.0)
            &&& state1 == updated.1
        },
    }
}

/// Processes a claim of `amount` of `kind` by `sender` at time `now`:
/// checks the cooldown and the configured maximum, updates the caller's
/// record and the global total with overflow-checked additions, and emits
/// the transfer for the host to execute. On any failure nothing changes.
pub fn claim(
    config: &Config,
    ledger: &mut Ledger,
    state: &mut State,
    sender: &String,
    kind: AssetKind,
    amount: u128,
    now: u64,
) -> (r: Result<TransferInstruction, ContractError>)
    requires
        old(ledger).wf(),
    ensures
        final(ledger).wf(),
        claim_post(
            *config,
            old(ledger)@,
            final(ledger)@,
            *old(state),
            *final(state),
            *sender,
            kind,
            amount,
            now,
            r,
        ),
        r is Err ==> *final(ledger) == *old(ledger) && *final(state) == *old(state),
{
    let mut rec = tester_info(ledger, sender);
    let last: u64 = match kind {
        AssetKind::Qtum => rec.last_qtum_claimed,
        AssetKind::Inj => rec.last_inj_claimed,
    };
    if (last as u128) + (COOLDOWN_SECONDS as u128) > (now as u128) {
        return Err(ContractError::CooldownActive);
    }
    let max: u128 = match kind {
        AssetKind::Qtum => config.max_withdraw_qtum,
        AssetKind::Inj => config.max_withdraw_inj,
    };
    if amount > max {
        return Err(ContractError::AmountExceedsMax);
    }
    match kind {
        AssetKind::Qtum => {
            let new_claimed = rec.claimed_qutm_amount.checked_add(amount);
            let new_total = state.total_qtum_claimed.checked_add(amount);
            if new_claimed.is_none() || new_total.is_none() {
                return Err(ContractError::Overflow);
            }
            rec.claimed_qutm_amount = new_claimed.unwrap();
            rec.last_qtum_claimed = now;
            store_test_user(ledger, sender, &rec);
            state.total_qtum_claimed = new_total.unwrap();
            Ok(TransferInstruction::TokenTransfer {
                contract_addr: config.qtum_addr.clone(),
                recipient: sender.clone(),
                amount,
            })
        },
        AssetKind::Inj => {
            let new_claimed = rec.claimed_inj_amount.checked_add(amount);
            let new_total = state.total_inj_claimed.checked_add(amount);
            if new_claimed.is_none() || new_total.is_none() {
                return Err(ContractError::Overflow);
            }
            rec.claimed_inj_amount = new_claimed.unwrap();
            rec.last_inj_claimed = now;
            store_test_user(ledger, sender, &rec);
            state.total_inj_claimed = new_total.unwrap();
            Ok(TransferInstruction::NativeSend { recipient: sender.clone(), amount })
        },
    }
}

/// Claims `amount` of the token kind: `claim` with the first kind.
pub fn claim_qtum(
    config: &Config,
    ledger: &mut Ledger,
    state: &mut State,
    sender: &String,
    amount: u128,
    now: u64,
) -> (r: Result<TransferInstruction, ContractError>)
    requires
        old(ledger).wf(),
    ensures
        final(ledger).wf(),
        claim_post(
            *config,
            old(ledger)@,
            final(ledger)@,
            *old(state),
            *final(state),
            *sender,
            AssetKind::Qtum,
            amount,
            now,
            r,
        ),
        r is Err ==> *final(ledger) == *old(ledger) && *final(state) == *old(state),
{
    claim(config, ledger, state, sender, AssetKind::Qtum, amount, now)
}

/// Claims `amount` of the native kind: `claim` with the second kind.
pub fn claim_inj(
    config: &Config,
    ledger: &mut Ledger,
    state: &mut State,
    sender: &String,
    amount: u128,
    now: u64,
) -> (r: Result<TransferInstruction, ContractError>)
    requires
        old(ledger).wf(),
    ensures
        final(ledger).wf(),
        claim_post(
            *config,
            old(ledger)@,
            final(ledger)@,
            *old(state),
            *final(state),
            *sender,
            AssetKind::Inj,
            amount,
            now,
            r,
        ),
        r is Err ==> *final(ledger) == *old(ledger) && *final(state) == *old(state),
{
    claim(config, ledger, state, sender, AssetKind::Inj, amount, now)
}

/// Creates the faucet: the caller becomes the owner, the configuration is
/// taken from the request, and every global counter starts at zero.
pub fn instantiate(sender: &String, msg: InstantiateMsg) -> (r: (Config, State))
    ensures
        r.0.owner == *sender,
        r.0.qtum_addr == msg.qtum_addr,
        r.0.max_withdraw_qtum == msg.max_withdraw_qtum,
        r.0.max_withdraw_inj == msg.max_withdraw_inj,
        r.1 == (State { total_testers: 0, total_qtum_claimed: 0, total_inj_claimed: 0 }),
{
    let config = Config {
        owner: sender.clone(),
        qtum_addr: msg.qtum_addr,
        max_withdraw_qtum: msg.max_withdraw_qtum,
        max_withdraw_inj: msg.max_withdraw_inj,
    };
    let state = State { total_testers: 0, total_qtum_claimed: 0, total_inj_claimed: 0 };
    (config, state)
}

/// Dispatches a claim request to the handler of its kind.
pub fn execute(
    config: &Config,
    ledger: &mut Ledger,
    state: &mut State,
    sender: &String,
    msg: ExecuteMsg,
    now: u64,
) -> (r: Result<TransferInstruction, ContractError>)
    requires
        old(ledger).wf(),
    ensures
        final(ledger).wf(),
        (msg matches ExecuteMsg::ClaimQtum { amount } ==> claim_post(
            *config,
            old(ledger)@,
            final(ledger)@,
            *old(state),
            *final(state),
            *sender,
            AssetKind::Qtum,
            amount,
            now,
            r,
        )),
        (msg matches ExecuteMsg::ClaimINJ { amount } ==> claim_post(
            *config,
            old(ledger)@,
            final(ledger)@,
            *old(state),
            *final(state),
            *sender,
            AssetKind::Inj,
            amount,
            now,
            r,
        )),
        r is Err ==> *final(ledger) == *old(ledger) && *final(state) == *old(state),
{
    match msg {
        ExecuteMsg::ClaimQtum { amount } => claim_qtum(config, ledger, state, sender, amount, now),
        ExecuteMsg::ClaimINJ { amount } => claim_inj(config, ledger, state, sender, amount, now),
    }
}

/// Replaces the configuration as a whole, owner included, if and only if
/// the caller is the current owner; any other caller is refused and the
/// configuration stays exactly as it was.
pub fn update_config(config: &mut Config, sender: &String, new_config: Config) -> (r: Result<
    (),
    ContractError,
>)
    ensures
        old(config).owner@ == sender@ ==> r == Ok::<(), ContractError>(()) && *final(config)
            == new_config,
        old(config).owner@ != sender@ ==> r == Err::<(), ContractError>(
            ContractError::Unauthorized,
        ) && *final(config) == *old(config),
{
    if config.owner == *sender {
        *config = new_config;
        Ok(())
    } else {
        Err(ContractError::Unauthorized)
    }
}

/// The response `query_staker_info` owes for an identity, over the ledger
/// map: a field-for-field snapshot of the identity's record.
pub open spec fn spec_tester_info_response(m: Map<Seq<char>, TesterInfo>, tester: Seq<char>) -> TesterInfoResponse {
    let rec = spec_tester_info(m, tester);
    TesterInfoResponse {
        claimed_qutm_amount: rec.claimed_qutm_amount,
        claimed_inj_amount: rec.claimed_inj_amount,
        last_qtum_claimed: rec.last_qtum_claimed,
        last_inj_claimed: rec.last_inj_claimed,
    }
}

/// Snapshot of the configuration: the token contract address and both
/// per-claim maxima, exactly as configured.
pub fn query_config(config: &Config) -> (r: ConfigResponse)
    ensures
        r.qtum_addr == config.qtum_addr,
        r.max_withdraw_qtum == config.max_withdraw_qtum,
        r.max_withdraw_inj == config.max_withdraw_inj,
{
    ConfigResponse {
        qtum_addr: config.qtum_addr.clone(),
        max_withdraw_qtum: config.max_withdraw_qtum,
        max_withdraw_inj: config.max_withdraw_inj,
    }
}

/// Snapshot of the global counters, exactly as stored.
pub fn query_state(state: &State) -> (r: StateResponse)
    ensures
        r == (StateResponse {
            total_testers: state.total_testers,
            total_qtum_claimed: state.total_qtum_claimed,
            total_inj_claimed: state.total_inj_claimed,
        }),
{
    StateResponse {
        total_testers: state.total_testers,
        total_qtum_claimed: state.total_qtum_claimed,
        total_inj_claimed: state.total_inj_claimed,
    }
}

/// Snapshot of one identity's claim record. An identity that never claimed
/// reads as all zero; the query never fails and changes nothing.
pub fn query_staker_info(ledger: &Ledger, tester: &String) -> (r: TesterInfoResponse)
    requires
        ledger.wf(),
    ensures
        r == spec_tester_info_response(ledger@, tester@),
{
    let rec = tester_info(ledger, tester);
    TesterInfoResponse {
        claimed_qutm_amount: rec.claimed_qutm_amount,
        claimed_inj_amount: rec.claimed_inj_amount,
        last_qtum_claimed: rec.last_qtum_claimed,
        last_inj_claimed: rec.last_inj_claimed,
    }
}

/// Answers a read-only query from the current state; no query changes
/// anything.
pub fn query(config: &Config, state: &State, ledger: &Ledger, msg: QueryMsg) -> (r: QueryResponse)
    requires
        ledger.wf(),
    ensures
        (msg matches QueryMsg::Config {  } ==> r matches QueryResponse::Config(c) && c.qtum_addr
            == config.qtum_addr && c.max_withdraw_qtum == config.max_withdraw_qtum
            && c.max_withdraw_inj == config.max_withdraw_inj),
        (msg matches QueryMsg::State {  } ==> r == QueryResponse::State(StateResponse {
            total_testers: state.total_testers,
            total_qtum_claimed: state.total_qtum_claimed,
            total_inj_claimed: state.total_inj_claimed,
        })),
        (msg matches QueryMsg::TesterInfo { tester } ==> r == QueryResponse::TesterInfo(
            spec_tester_info_response(ledger@, tester@),
        )),
{
    match msg {
        QueryMsg::Config {  } => QueryResponse::Config(query_config(config)),
        QueryMsg::State {  } => QueryResponse::State(query_state(state)),
        QueryMsg::TesterInfo { tester } => QueryResponse::TesterInfo(
            query_staker_info(ledger, &tester),
        ),
    }
}

/// Eligibility law: a claim succeeds exactly when the cooldown window has
/// elapsed since the last claim of its kind, the amount is within the
/// configured maximum, and the accounting additions stay in range.
pub proof fn lemma_claim_succeeds_iff(
    config: Config,
    r: TesterInfo,
    s: State,
    kind: AssetKind,
    amount: u128,
    now: u64,
)
    ensures
        claim_outcome(config, r, s, kind, amount, now) is Ok <==> (cooldown_passed(r, kind, now)
            && amount <= config.max_claim(kind) && !claim_overflows(r, s, kind, amount)),
{
}

/// Monotonicity law: a successful claim moves the claimed kind's timestamp
/// strictly forward and never shrinks any cumulative amount; the tester
/// count and the other kind's fields are untouched.
pub proof fn lemma_claim_monotone(
    config: Config,
    r: TesterInfo,
    s: State,
    kind: AssetKind,
    amount: u128,
    now: u64,
)
    requires
        claim_outcome(config, r, s, kind, amount, now) is Ok,
    ensures
        ({
            let updated = claim_outcome(config, r, s, kind, amount, now)->Ok_0;
            &&& updated.0.last_claimed(kind) == now && now > r.last_claimed(kind)
            &&& updated.0.claimed_amount(kind) >= r.claimed_amount(kind)
            &&& updated.0.last_claimed(other_kind(kind)) == r.last_claimed(other_kind(kind))
            &&& updated.0.claimed_amount(other_kind(kind)) == r.claimed_amount(other_kind(kind))
            &&& updated.1.total_claimed(kind) >= s.total_claimed(kind)
            &&& updated.1.total_claimed(other_kind(kind)) == s.total_claimed(other_kind(kind))
            &&& updated.1.total_testers == s.total_testers
        }),
{
}

/// Cooldown boundary law: after a successful claim of `kind` at time `t`,
/// a second claim of the same kind fails with `CooldownActive` 86399
/// seconds later, and 86400 seconds later it succeeds again, provided the
/// second amount is within the configured maximum and its accounting
/// additions stay in range.
pub proof fn lemma_cooldown_boundary(
    config: Config,
    r: TesterInfo,
    s: State,
    kind: AssetKind,
    a1: u128,
    a2: u128,
    t: u64,
)
    requires
        claim_outcome(config, r, s, kind, a1, t) is Ok,
        t + COOLDOWN_SECONDS <= u64::MAX,
    ensures
        ({
            let updated = claim_outcome(config, r, s, kind, a1, t)->Ok_0;
            &&& claim_outcome(config, updated.0, updated.1, kind, a2, (t + 86399) as u64) == Err::<
                (TesterInfo, State),
                ContractError,
            >(ContractError::CooldownActive)
            &&& (a2 <= config.max_claim(kind) && !claim_overflows(updated.0, updated.1, kind, a2)
                ==> claim_outcome(config, updated.0, updated.1, kind, a2, (t + 86400) as u64) is Ok)
        }),
{
}

/// Ceiling law: a claim of an amount above the configured maximum never
/// succeeds, and whenever the cooldown is not in the way the error it
/// fails with is `AmountExceedsMax`.
pub proof fn lemma_amount_exceeds_max(
    config: Config,
    r: TesterInfo,
    s: State,
    kind: AssetKind,
    amount: u128,
    now: u64,
)
    requires
        amount > config.max_claim(kind),
    ensures
        claim_outcome(config, r, s, kind, amount, now) is Err,
        cooldown_passed(r, kind, now) ==> claim_outcome(config, r, s, kind, amount, now) == Err::<
            (TesterInfo, State),
            ContractError,
        >(ContractError::AmountExceedsMax),
{
}

/// Isolation law: a successful claim touches only the claimed kind. The
/// claimed kind's timestamp becomes the claim time and its cumulative
/// amount grows by exactly the claimed amount; the other kind's timestamp
/// and cumulative amount are unchanged.
pub proof fn lemma_claim_updates_only_kind(r: TesterInfo, kind: AssetKind, amount: u128, now: u64)
    requires
        r.claimed_amount(kind) + amount <= u128::MAX,
    ensures
        ({
            let r1 = record_after_claim(r, kind, amount, now);
            &&& r1.last_claimed(kind) == now
            &&& r1.claimed_amount(kind) == r.claimed_amount(kind) + amount
            &&& r1.last_claimed(other_kind(kind)) == r.last_claimed(other_kind(kind))
            &&& r1.claimed_amount(other_kind(kind)) == r.claimed_amount(other_kind(kind))
        }),
{
}

} // verus!
