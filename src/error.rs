use vstd::prelude::*;

verus! {

/// Every way a ledger operation can be refused. Each failure has exactly one kind.
#[derive(Clone, Copy, Debug, PartialEq, Eq, Structural)]
pub enum ErrorCode {
    /// A quantity is zero or otherwise outside its domain.
    InvalidAmount,
    /// A project name is longer than its fixed-width buffer.
    NameTooLong,
    /// A zone identifier is longer than its fixed-width buffer.
    ZoneIdTooLong,
    /// A material code is not one of the known materials.
    InvalidMaterialType,
    /// A timestamp is not positive.
    InvalidTimestamp,
    /// A counter would leave the range of `u64`.
    Overflow,
    /// The caller is not the configured minting authority.
    Unauthorized,
    /// The token balance is below the exchange rate of one brick.
    InsufficientBlocks,
    /// A write-once record already occupies the derived address.
    AlreadyExists,
    /// A record that the operation reads does not exist.
    AccountNotFound,
    /// The seeds exceed the address derivation's count or length budget.
    SeedTooLong,
    /// No bump byte yields an address off the curve.
    NoViableBump,
}

impl ErrorCode {
    /// A human-readable message for the error.
    pub fn message(&self) -> String {
        match self {
            ErrorCode::InvalidAmount => String::from_str("Amount must be greater than zero"),
            ErrorCode::NameTooLong => String::from_str("Project name exceeds max length"),
            ErrorCode::ZoneIdTooLong => String::from_str("Zone id exceeds max length"),
            ErrorCode::InvalidMaterialType => String::from_str("Material type is invalid"),
            ErrorCode::InvalidTimestamp => String::from_str("Timestamp is invalid"),
            ErrorCode::Overflow => String::from_str("Arithmetic overflow"),
            ErrorCode::Unauthorized => String::from_str("Unauthorized signer"),
            ErrorCode::InsufficientBlocks => String::from_str("Insufficient BLOCK tokens (need 10)"),
            ErrorCode::AlreadyExists => String::from_str("Account already exists"),
            ErrorCode::AccountNotFound => String::from_str("Account not found"),
            ErrorCode::SeedTooLong => String::from_str("Seeds exceed the derivation budget"),
            ErrorCode::NoViableBump => String::from_str("No viable bump seed"),
        }
    }
}

} // verus!
