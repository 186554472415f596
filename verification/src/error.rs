use vstd::prelude::*;

verus! {

/// The errors a faucet operation can return. Every failed operation leaves
/// all state exactly as it was: the contracts of the operations say so.
#[derive(Clone, Copy, Debug, PartialEq, Eq, Structural)]
pub enum ContractError {
    /// A claim of the same asset kind happened less than a full cooldown
    /// window (86400 seconds) before the requested time.
    CooldownActive,
    /// The requested amount is above the configured per-claim maximum for
    /// the asset kind.
    AmountExceedsMax,
    /// The caller of a config update is not the configured owner.
    Unauthorized,
    /// Adding the claimed amount to a running total would exceed the range
    /// of the amount type; the claim fails closed instead of wrapping.
    Overflow,
}

} // verus!
