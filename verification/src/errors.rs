//! The error taxonomy of the wallet core. Every failure of the library
//! surfaces as one of these variants; the caller prints a single line and
//! exits, there is no internal retry anywhere.

use vstd::prelude::*;

verus! {

/// One variant per failure class of the wallet pipeline. Variants that
/// carry a `String` surface the underlying library's message verbatim.
#[derive(Debug)]
pub enum WalletError {
    /// Entropy generation or master-key derivation failed.
    KeyDerivation(String),
    /// A descriptor was requested from empty key material.
    DescriptorBuild,
    /// The destination address is malformed or for the wrong network.
    InvalidAddress(String),
    /// The wallet's descriptor has no spending-policy tree.
    PolicyUnavailable,
    /// Coin selection cannot cover the requested amount plus fees.
    InsufficientFunds,
    /// A produced output would fall below the dust threshold.
    DustOutput,
    /// Any other failure while assembling the unsigned transaction.
    TransactionBuild(String),
    /// The transport-encoded PSBT could not be decoded.
    PsbtDecode(String),
    /// No input of the PSBT could be signed with the wallet's keys.
    Signing,
    /// The signing engine itself failed before any input was judged.
    SignerFailure(String),
    /// Signing succeeded but finalization left unsatisfied inputs.
    IncompletePsbt,
    /// The chain-data collaborator rejected the broadcast.
    Broadcast(String),
    /// Synchronization against the chain-data collaborator, or a read
    /// of the wallet's own database, failed.
    Sync(String),
    /// Opening the wallet session failed.
    SessionOpen(String),
    /// No mode was given on the command line.
    MissingMode,
    /// The given mode is not one the tool knows.
    UnknownMode,
    /// The chosen mode needs a descriptor flag.
    MissingDescriptor,
    /// The chosen mode needs a change-descriptor flag.
    MissingChangeDescriptor,
    /// The receive mode needs an address index.
    MissingIndex,
    /// The build mode needs an amount.
    MissingAmount,
    /// The build mode needs a destination address.
    MissingDestination,
    /// The send mode needs a transport-encoded PSBT.
    MissingPsbt,
}

/// The single-line message each failure surfaces to the operator.
pub open spec fn message_spec(e: WalletError) -> Seq<char> {
    match e {
        WalletError::KeyDerivation(m) => m@,
        WalletError::DescriptorBuild => "empty key material in descriptor request"@,
        WalletError::InvalidAddress(m) => m@,
        WalletError::PolicyUnavailable => "wallet policy unavailable"@,
        WalletError::InsufficientFunds => "insufficient funds"@,
        WalletError::DustOutput => "output below dust threshold"@,
        WalletError::TransactionBuild(m) => m@,
        WalletError::PsbtDecode(m) => m@,
        WalletError::Signing => "no inputs could be signed"@,
        WalletError::SignerFailure(m) => m@,
        WalletError::IncompletePsbt => "psbt incomplete after signing"@,
        WalletError::Broadcast(m) => m@,
        WalletError::Sync(m) => m@,
        WalletError::SessionOpen(m) => m@,
        WalletError::MissingMode => "Need to pick a mode: balance || receive || send || create"@,
        WalletError::UnknownMode => "Unknown mode"@,
        WalletError::MissingDescriptor => "Missing descriptor"@,
        WalletError::MissingChangeDescriptor => "Missing change descriptor"@,
        WalletError::MissingIndex => "Missing address index"@,
        WalletError::MissingAmount => "Missing amount"@,
        WalletError::MissingDestination => "Missing destination addresss"@,
        WalletError::MissingPsbt => "Missing Partially signed bitcoin transactions"@,
    }
}

impl WalletError {
    /// Renders the failure as its single-line message.
    pub fn message(&self) -> (r: String)
        ensures
            r@ == message_spec(*self),
    {
        match self {
            WalletError::KeyDerivation(m) => m.clone(),
            WalletError::DescriptorBuild => String::from_str("empty key material in descriptor request"),
            WalletError::InvalidAddress(m) => m.clone(),
            WalletError::PolicyUnavailable => String::from_str("wallet policy unavailable"),
            WalletError::InsufficientFunds => String::from_str("insufficient funds"),
            WalletError::DustOutput => String::from_str("output below dust threshold"),
            WalletError::TransactionBuild(m) => m.clone(),
            WalletError::PsbtDecode(m) => m.clone(),
            WalletError::Signing => String::from_str("no inputs could be signed"),
            WalletError::SignerFailure(m) => m.clone(),
            WalletError::IncompletePsbt => String::from_str("psbt incomplete after signing"),
            WalletError::Broadcast(m) => m.clone(),
            WalletError::Sync(m) => m.clone(),
            WalletError::SessionOpen(m) => m.clone(),
            WalletError::MissingMode => String::from_str(
                "Need to pick a mode: balance || receive || send || create",
            ),
            WalletError::UnknownMode => String::from_str("Unknown mode"),
            WalletError::MissingDescriptor => String::from_str("Missing descriptor"),
            WalletError::MissingChangeDescriptor => String::from_str("Missing change descriptor"),
            WalletError::MissingIndex => String::from_str("Missing address index"),
            WalletError::MissingAmount => String::from_str("Missing amount"),
            WalletError::MissingDestination => String::from_str("Missing destination addresss"),
            WalletError::MissingPsbt => String::from_str(
                "Missing Partially signed bitcoin transactions",
            ),
        }
    }
}

} // verus!
