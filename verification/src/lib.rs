//! A token-faucet ledger for two asset kinds. Each identity's claims are
//! tracked separately per kind: a claim passes only once a fixed cooldown
//! window has elapsed since that identity's last successful claim of the
//! same kind and only up to a configured per-claim maximum, and all
//! accounting is overflow-checked and fails closed. A successful claim
//! returns a transfer instruction for a host to execute; the faucet never
//! moves funds itself, and a failed request leaves every record unchanged.

pub mod contract;
pub mod error;
pub mod msg;
pub mod state;
