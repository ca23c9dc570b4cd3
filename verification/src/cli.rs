//! Mode selection: which operation an invocation performs and which
//! flags it requires. The embedding program collects the raw flag values;
//! the decision of which mode they make, and which absence is which
//! error, lives here.

use vstd::prelude::*;
use crate::errors::WalletError;

verus! {

/// One operation per invocation.
#[derive(Debug)]
pub enum Mode {
    /// Generate two identities and print the receive/change descriptors.
    Descriptor,
    /// Show the balance and the unspent outputs.
    Balance { descriptor: String, change_descriptor: String },
    /// Show the address at a given index.
    Receive { descriptor: String, index: u32 },
    /// Build an unsigned transaction proposal.
    Build { descriptor: String, change_descriptor: String, amount: u64, destination: String },
    /// Sign a transport-encoded PSBT and broadcast it.
    Send { descriptor: String, psbt: String },
}

/// Relies on str's equality: two string slices are equal exactly when
/// their characters are.
#[verifier::external_body]
fn str_eq(a: &str, b: &str) -> (r: bool)
    ensures
        r == (a@ == b@),
{
    a == b
}

/// The mode that a subcommand and a set of optional flag values make,
/// or the error naming what is missing or unknown.
pub open spec fn mode_of_args(
    sub: Option<String>,
    desc: Option<String>,
    change: Option<String>,
    index: Option<u32>,
    amount: Option<u64>,
    destination: Option<String>,
    psbt: Option<String>,
) -> Result<Mode, WalletError> {
    match sub {
        None => Err(WalletError::MissingMode),
        Some(s) => if s@ == "descriptor"@ {
            Ok(Mode::Descriptor)
        } else if s@ == "balance"@ {
            if desc is None {
                Err(WalletError::MissingDescriptor)
            } else if change is None {
                Err(WalletError::MissingChangeDescriptor)
            } else {
                Ok(Mode::Balance { descriptor: desc->Some_0, change_descriptor: change->Some_0 })
            }
        } else if s@ == "receive"@ {
            if desc is None {
                Err(WalletError::MissingDescriptor)
            } else if index is None {
                Err(WalletError::MissingIndex)
            } else {
                Ok(Mode::Receive { descriptor: desc->Some_0, index: index->Some_0 })
            }
        } else if s@ == "build"@ {
            if desc is None {
                Err(WalletError::MissingDescriptor)
            } else if change is None {
                Err(WalletError::MissingChangeDescriptor)
            } else if amount is None {
                Err(WalletError::MissingAmount)
            } else if destination is None {
                Err(WalletError::MissingDestination)
            } else {
                Ok(
                    Mode::Build {
                        descriptor: desc->Some_0,
                        change_descriptor: change->Some_0,
                        amount: amount->Some_0,
                        destination: destination->Some_0,
                    },
                )
            }
        } else if s@ == "send"@ {
            if desc is None {
                Err(WalletError::MissingDescriptor)
            } else if psbt is None {
                Err(WalletError::MissingPsbt)
            } else {
                Ok(Mode::Send { descriptor: desc->Some_0, psbt: psbt->Some_0 })
            }
        } else {
            Err(WalletError::UnknownMode)
        },
    }
}

/// Decides the mode from the subcommand and the flag values the
/// embedding program collected: exactly the decision table of
/// `mode_of_args`.
pub fn parse_mode(
    sub: Option<String>,
    desc: Option<String>,
    change: Option<String>,
    index: Option<u32>,
    amount: Option<u64>,
    destination: Option<String>,
    psbt: Option<String>,
) -> (r: Result<Mode, WalletError>)
    ensures
        r == mode_of_args(sub, desc, change, index, amount, destination, psbt),
{
    let s = match sub {
        Some(s) => s,
        None => {
            return Err(WalletError::MissingMode);
        },
    };
    if str_eq(s.as_str(), "descriptor") {
        Ok(Mode::Descriptor)
    } else if str_eq(s.as_str(), "balance") {
        let d = match desc {
            Some(d) => d,
            None => {
                return Err(WalletError::MissingDescriptor);
            },
        };
        let c = match change {
            Some(c) => c,
            None => {
                return Err(WalletError::MissingChangeDescriptor);
            },
        };
        Ok(Mode::Balance { descriptor: d, change_descriptor: c })
    } else if str_eq(s.as_str(), "receive") {
        let d = match desc {
            Some(d) => d,
            None => {
                return Err(WalletError::MissingDescriptor);
            },
        };
        let i = match index {
            Some(i) => i,
            None => {
                return Err(WalletError::MissingIndex);
            },
        };
        Ok(Mode::Receive { descriptor: d, index: i })
    } else if str_eq(s.as_str(), "build") {
        let d = match desc {
            Some(d) => d,
            None => {
                return Err(WalletError::MissingDescriptor);
            },
        };
        let c = match change {
            Some(c) => c,
            None => {
                return Err(WalletError::MissingChangeDescriptor);
            },
        };
        let a = match amount {
            Some(a) => a,
            None => {
                return Err(WalletError::MissingAmount);
            },
        };
        let t = match destination {
            Some(t) => t,
            None => {
                return Err(WalletError::MissingDestination);
            },
        };
        Ok(Mode::Build { descriptor: d, change_descriptor: c, amount: a, destination: t })
    } else if str_eq(s.as_str(), "send") {
        let d = match desc {
            Some(d) => d,
            None => {
                return Err(WalletError::MissingDescriptor);
            },
        };
        let p = match psbt {
            Some(p) => p,
            None => {
                return Err(WalletError::MissingPsbt);
            },
        };
        Ok(Mode::Send { descriptor: d, psbt: p })
    } else {
        Err(WalletError::UnknownMode)
    }
}

} // verus!
