//! Error kinds surfaced by the accounting engine and by the keyed
//! operation surface built on top of it.

use vstd::prelude::*;

verus! {

/// Failures of the burn-state accounting engine itself.
#[derive(Clone, Copy, Debug, PartialEq, Eq, Structural)]
pub enum ErrorCode {
    /// A transfer's net amount would underflow, i.e. the computed burn
    /// portion exceeds the amount being transferred.
    AmountTooSmall,
    /// A checked addition would exceed the unsigned 64-bit range.
    NumericalOverflow,
    /// A mint would push the cumulative minted amount past the total supply.
    ExceedsSupply,
}

impl ErrorCode {
    /// The human-readable description surfaced with each error kind.
    pub fn message(&self) -> (m: &'static str)
        ensures
            *self is AmountTooSmall ==> m@ == "Amount too small for burn calculation"@,
            *self is NumericalOverflow ==> m@ == "Numerical overflow"@,
            *self is ExceedsSupply ==> m@ == "Exceeds maximum supply"@,
    {
        match self {
            ErrorCode::AmountTooSmall => "Amount too small for burn calculation",
            ErrorCode::NumericalOverflow => "Numerical overflow",
            ErrorCode::ExceedsSupply => "Exceeds maximum supply",
        }
    }
}

/// Failures of the per-token operation surface: either the engine refused
/// the operation, or the token identity did not resolve as required.
#[derive(Clone, Copy, Debug, PartialEq, Eq, Structural)]
pub enum OpError {
    /// Mint or transfer addressed a token identity with no burn state.
    UnknownToken,
    /// Initialization addressed a token identity that already has one.
    AlreadyInitialized,
    /// The accounting engine rejected the operation.
    Engine(ErrorCode),
}

} // verus!
