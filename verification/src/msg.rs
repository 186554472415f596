use vstd::prelude::*;

verus! {

/// Request that creates the faucet: the address of the token contract that
/// pays out the first kind, and the per-claim maxima for both kinds. The
/// caller of `instantiate` becomes the owner.
pub struct InstantiateMsg {
    pub qtum_addr: String,
    pub max_withdraw_qtum: u128,
    pub max_withdraw_inj: u128,
}

/// A claim request, one variant per asset kind, carrying the requested
/// amount.
pub enum ExecuteMsg {
    ClaimQtum { amount: u128 },
    ClaimINJ { amount: u128 },
}

/// The read-only queries: the configuration, the global counters, or one
/// identity's claim record.
pub enum QueryMsg {
    Config {},
    State {},
    TesterInfo { tester: String },
}

/// Snapshot of the configuration (without the owner identity).
#[derive(Debug, PartialEq, Eq)]
pub struct ConfigResponse {
    pub qtum_addr: String,
    pub max_withdraw_qtum: u128,
    pub max_withdraw_inj: u128,
}

/// Snapshot of the global counters.
#[derive(Clone, Copy, Debug, PartialEq, Eq, Structural)]
pub struct StateResponse {
    pub total_testers: u64,
    pub total_qtum_claimed: u128,
    pub total_inj_claimed: u128,
}

/// Snapshot of one identity's claim record; an identity never stored reads
/// as all zero.
#[derive(Clone, Copy, Debug, PartialEq, Eq, Structural)]
pub struct TesterInfoResponse {
    pub claimed_qutm_amount: u128,
    pub claimed_inj_amount: u128,
    pub last_qtum_claimed: u64,
    pub last_inj_claimed: u64,
}

/// What a successful claim instructs the host to execute. The faucet never
/// moves funds itself: it only describes the movement.
#[derive(Debug, PartialEq, Eq)]
pub enum TransferInstruction {
    /// Have the token contract at `contract_addr` transfer `amount` units
    /// to `recipient`.
    TokenTransfer { contract_addr: String, recipient: String, amount: u128 },
    /// Send `amount` of the native token to `recipient`.
    NativeSend { recipient: String, amount: u128 },
}

/// Answer of `query`: one variant per `QueryMsg` variant.
#[derive(Debug, PartialEq, Eq)]
pub enum QueryResponse {
    Config(ConfigResponse),
    State(StateResponse),
    TesterInfo(TesterInfoResponse),
}

} // verus!
