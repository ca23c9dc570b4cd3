//! The transaction builder: parses the destination, selects the immediate
//! spending branch of the wallet's policy for both keychains, checks the
//! amount against the wallet's funds, and hands coin selection and PSBT
//! assembly to the wallet collaborator. The result is an unsigned PSBT in
//! transport encoding, with a summary for display.

use vstd::prelude::*;
use crate::errors::WalletError;
use crate::session::{Balance, Keychain, WalletSession};
use crate::transport::{b64_decoded, encode_transport, psbt_parses, psbt_to_bytes};

verus! {

/// The script-pubkey that an address string denotes on a given network:
/// its bytes, or nothing if the string is malformed or encodes an address
/// of another network.
pub uninterp spec fn script_of_address(addr: Seq<char>, network_tag: int) -> Option<Seq<u8>>;

/// How the wallet collaborator's transaction assembly failed.
pub enum BuildFailure {
    /// Coin selection could not cover the amount plus fees.
    InsufficientFunds,
    /// An output would fall below the dust threshold.
    Dust,
    /// Any other construction failure, with its message.
    Other(String),
}

/// What the built transaction looks like, for display: sums of owned
/// inputs and outputs and the fee, when the backend knows it.
#[derive(Debug)]
pub struct TxSummary {
    pub txid: String,
    pub sent: u64,
    pub received: u64,
    pub fee: Option<u64>,
}

/// An unsigned transaction proposal: the transport-encoded PSBT and its
/// display summary.
#[derive(Debug)]
pub struct TransactionProposal {
    pub psbt_base64: String,
    pub summary: TxSummary,
}

/// Relies on Address::from_str followed by require_network and
/// script_pubkey: the script is a pure function of the address text and
/// the network, and exists exactly when the text parses for that network.
#[verifier::external_body]
fn parse_address(addr: &str, network: crate::keys::Network) -> (r: Result<Vec<u8>, String>)
    ensures
        r is Ok <==> script_of_address(addr@, network.tag()) is Some,
        r matches Ok(v) ==> script_of_address(addr@, network.tag()) == Some(v@),
{
    let net = match network {
        crate::keys::Network::Bitcoin => bdk::bitcoin::Network::Bitcoin,
        crate::keys::Network::Testnet => bdk::bitcoin::Network::Testnet,
        crate::keys::Network::Signet => bdk::bitcoin::Network::Signet,
        crate::keys::Network::Regtest => bdk::bitcoin::Network::Regtest,
    };
    let parsed = <bdk::bitcoin::Address<
        bdk::bitcoin::address::NetworkUnchecked,
    > as std::str::FromStr>::from_str(addr).map_err(|e| e.to_string())?;
    let address = parsed.require_network(net).map_err(|e| e.to_string())?;
    Ok(address.script_pubkey().into_bytes())
}

/// Relies on bdk's TxBuilder: one recipient for the given script and
/// amount, the given policy path applied to both the external and the
/// internal keychain, default coin selection, then finish. The PSBT and
/// the details come from the wallet's database and fee estimation, so
/// nothing is promised of them.
#[verifier::external_body]
fn finish_tx(
    s: &WalletSession,
    script: Vec<u8>,
    amount: u64,
    policy_id: String,
    path: Vec<usize>,
) -> Result<(bdk::bitcoin::psbt::PartiallySignedTransaction, TxSummary), BuildFailure> {
    let mut policy_path = std::collections::BTreeMap::new();
    policy_path.insert(policy_id, path);
    let mut builder = s.wallet.build_tx();
    builder.add_recipient(bdk::bitcoin::ScriptBuf::from_bytes(script), amount).policy_path(
        policy_path.clone(),
        bdk::KeychainKind::External,
    ).policy_path(policy_path, bdk::KeychainKind::Internal);
    let (psbt, details) = builder.finish().map_err(classify_build_error)?;
    let summary = TxSummary {
        txid: details.txid.to_string(),
        sent: details.sent,
        received: details.received,
        fee: details.fee,
    };
    Ok((psbt, summary))
}

/// The opaque error type of the wallet collaborator.
#[verifier::external_type_specification]
#[verifier::external_body]
pub struct ExBdkError(bdk::Error);

/// Relies on bdk's error enum: tells the variants the builder cares about
/// apart, moving nothing but the message.
#[verifier::external_body]
fn classify_build_error(e: bdk::Error) -> BuildFailure {
    match e {
        bdk::Error::InsufficientFunds { needed: _, available: _ } => {
            BuildFailure::InsufficientFunds
        },
        bdk::Error::OutputBelowDustLimit(_) => BuildFailure::Dust,
        other => BuildFailure::Other(other.to_string()),
    }
}

/// Maps a construction failure of the collaborator onto the library's
/// error taxonomy: insufficient funds and dust keep their identity, and
/// anything else is a transaction-build failure with its message.
pub fn map_build_failure(f: BuildFailure) -> (r: WalletError)
    ensures
        f is InsufficientFunds ==> r == WalletError::InsufficientFunds,
        f is Dust ==> r == WalletError::DustOutput,
        f matches BuildFailure::Other(m) ==> r == WalletError::TransactionBuild(m),
{
    match f {
        BuildFailure::InsufficientFunds => WalletError::InsufficientFunds,
        BuildFailure::Dust => WalletError::DustOutput,
        BuildFailure::Other(m) => WalletError::TransactionBuild(m),
    }
}

/// A policy identifier is required to select a spending path: its absence
/// is exactly the policy-unavailable failure.
pub fn require_policy(p: Option<String>) -> (r: Result<String, WalletError>)
    ensures
        p matches Some(id) ==> r matches Ok(rid) && rid == id,
        p is None ==> (r matches Err(e) && e == WalletError::PolicyUnavailable),
{
    match p {
        Some(id) => Ok(id),
        None => Err(WalletError::PolicyUnavailable),
    }
}

/// The chosen spending path: always branch 0, the immediate spend by
/// party A's signature alone. The same selection is applied to the
/// external and the internal keychain, since change returns into the same
/// policy shape.
pub fn spending_path() -> (r: Vec<usize>)
    ensures
        r@ == seq![0usize],
{
    let mut path: Vec<usize> = Vec::new();
    path.push(0);
    proof {
        assert(path@ =~= seq![0usize]);
    }
    path
}

/// An amount not covered by confirmed plus unconfirmed funds is exactly
/// the insufficient-funds failure; coin selection is never attempted on
/// such an amount.
pub fn check_funds(amount: u64, bal: &Balance) -> (r: Result<(), WalletError>)
    ensures
        r is Ok <==> amount as int <= bal.total_spec(),
        r matches Err(e) ==> e == WalletError::InsufficientFunds,
{
    if amount as u128 <= bal.total() {
        Ok(())
    } else {
        Err(WalletError::InsufficientFunds)
    }
}

/// Builds an unsigned transaction proposal paying `amount` satoshis to
/// `destination`. A destination that does not denote a script on the
/// wallet's network is rejected; a wallet without a descriptor-level
/// policy is rejected; an amount over the wallet's total balance fails
/// with insufficient funds before coin selection runs; what coin
/// selection itself rejects keeps its identity. On success the PSBT is
/// returned transport-encoded, decodable back to its canonical bytes.
pub fn build_transaction(s: &WalletSession, destination: &str, amount: u64) -> (r: Result<
    TransactionProposal,
    WalletError,
>)
    ensures
        script_of_address(destination@, s.network.tag()) is None ==> (r matches Err(e)
            && e matches WalletError::InvalidAddress(_)),
        (r matches Err(e) && e matches WalletError::InvalidAddress(_)) ==> script_of_address(
            destination@,
            s.network.tag(),
        ) is None,
        r matches Ok(p) ==> psbt_parses(b64_decoded(p.psbt_base64@)->Some_0)
            && b64_decoded(p.psbt_base64@) is Some,
        r matches Err(e) ==> (e matches WalletError::InvalidAddress(_)
            || e == WalletError::PolicyUnavailable || e == WalletError::InsufficientFunds
            || e == WalletError::DustOutput || e matches WalletError::TransactionBuild(_)
            || e matches WalletError::Sync(_)),
{
    let script = match parse_address(destination, s.network) {
        Ok(v) => v,
        Err(m) => {
            return Err(WalletError::InvalidAddress(m));
        },
    };
    let policy = s.policy_id(Keychain::External)?;
    let policy_id = require_policy(policy)?;
    let path = spending_path();
    let bal = s.balance()?;
    check_funds(amount, &bal)?;
    let (psbt, summary) = match finish_tx(s, script, amount, policy_id, path) {
        Ok(t) => t,
        Err(f) => {
            return Err(map_build_failure(f));
        },
    };
    let bytes = psbt_to_bytes(&psbt);
    let encoded = encode_transport(&bytes);
    Ok(TransactionProposal { psbt_base64: encoded, summary })
}

} // verus!
