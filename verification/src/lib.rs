//! Deterministic key material, two-party timelocked spending-policy
//! descriptors, and the transaction-building core of a small bitcoin
//! wallet utility.

pub mod builder;
pub mod cli;
pub mod descriptor;
pub mod errors;
pub mod keys;
pub mod session;
pub mod signer;
pub mod transport;

pub use builder::build_transaction;
pub use cli::{parse_mode, Mode};
pub use descriptor::get_descriptor;
pub use errors::WalletError;
pub use keys::{generate_identity, Keys, Network};
pub use session::WalletSession;
pub use signer::sign_psbt;
