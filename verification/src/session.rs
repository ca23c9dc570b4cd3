//! The wallet session: an in-memory wallet opened from a descriptor pair.
//! The session holds no state across invocations; synchronization and
//! broadcast go through the chain-data collaborator, which the embedding
//! program drives on the public `wallet` handle.

use vstd::prelude::*;
use crate::errors::WalletError;
use crate::keys::Network;

verus! {

/// An opaque bdk wallet over some database.
#[verifier::external_type_specification]
#[verifier::external_body]
#[verifier::reject_recursive_types(D)]
pub struct ExWallet<D>(bdk::Wallet<D>);

/// The opaque in-memory, ephemeral wallet database.
#[verifier::external_type_specification]
#[verifier::external_body]
pub struct ExMemoryDatabase(bdk::database::MemoryDatabase);

/// The view of an optional descriptor text.
pub open spec fn opt_chars(o: Option<String>) -> Option<Seq<char>> {
    match o {
        Some(s) => Some(s@),
        None => None,
    }
}

/// Whether a wallet opens from these descriptor texts on this network:
/// over a fresh in-memory database this is a pure function of the three,
/// true exactly when the texts are valid descriptors for the network.
pub uninterp spec fn wallet_opens(
    descriptor: Seq<char>,
    change_descriptor: Option<Seq<char>>,
    network_tag: int,
) -> bool;

/// The address that a descriptor determines at a given derivation index
/// on a given network, or nothing where no address can be derived there
/// (a hardened wildcard, or a script with no address form). Peeking
/// never consumes an index, so the outcome is a pure function of these
/// three.
pub uninterp spec fn address_at(descriptor: Seq<char>, network_tag: int, index: u32) -> Option<
    Seq<char>,
>;

/// What extracting the spending policy of a keychain yields for these
/// descriptor texts on this network: failure (the outer None), no policy
/// (the inner None), or the policy's identifier. The policy is read from
/// the descriptors and their keys alone, never from the database, so the
/// outcome is a pure function of these four.
pub uninterp spec fn policy_id_of(
    descriptor: Seq<char>,
    change_descriptor: Option<Seq<char>>,
    network_tag: int,
    internal: bool,
) -> Option<Option<Seq<char>>>;

/// One keychain of the wallet: external receives, internal takes change.
#[derive(Clone, Copy, PartialEq, Eq, Structural, Debug)]
pub enum Keychain {
    External,
    Internal,
}

impl Keychain {
    /// Distinguishes the keychains in specifications.
    pub open spec fn is_internal(self) -> bool {
        match self {
            Keychain::External => false,
            Keychain::Internal => true,
        }
    }
}

/// An unspent output, reduced to the plain values the tool reports.
#[derive(Debug)]
pub struct Utxo {
    pub txid: String,
    pub vout: u32,
    pub value: u64,
    pub is_change: bool,
}

/// The wallet's balance, split as the wallet database reports it.
#[derive(Debug)]
pub struct Balance {
    pub immature: u64,
    pub trusted_pending: u64,
    pub untrusted_pending: u64,
    pub confirmed: u64,
}

impl Balance {
    /// Confirmed plus unconfirmed, as unbounded arithmetic.
    pub open spec fn total_spec(self) -> int {
        self.immature + self.trusted_pending + self.untrusted_pending + self.confirmed
    }

    /// Sums confirmed and unconfirmed funds; a u128 holds any sum of
    /// four u64 values, so the total is exact.
    pub fn total(&self) -> (r: u128)
        ensures
            r as int == self.total_spec(),
    {
        self.immature as u128 + self.trusted_pending as u128 + self.untrusted_pending as u128
            + self.confirmed as u128
    }
}

/// A queryable, signable wallet handle: the wallet itself, plus the
/// descriptors and network it was opened from.
pub struct WalletSession {
    pub wallet: bdk::Wallet<bdk::database::MemoryDatabase>,
    pub descriptor: String,
    pub change_descriptor: Option<String>,
    pub network: Network,
}

/// Relies on bdk::Wallet::new over a fresh in-memory database: it fails
/// exactly when a descriptor text is invalid for the network, a pure
/// function of its arguments, and the session handle wraps a wallet
/// opened from exactly the given descriptors.
#[verifier::external_body]
fn open_wallet(descriptor: String, change_descriptor: Option<String>, network: Network) -> (r:
    Result<WalletSession, String>)
    ensures
        r is Ok <==> wallet_opens(descriptor@, opt_chars(change_descriptor), network.tag()),
        r matches Ok(s) ==> s.descriptor == descriptor && s.change_descriptor == change_descriptor
            && s.network == network,
{
    let net = match network {
        Network::Bitcoin => bdk::bitcoin::Network::Bitcoin,
        Network::Testnet => bdk::bitcoin::Network::Testnet,
        Network::Signet => bdk::bitcoin::Network::Signet,
        Network::Regtest => bdk::bitcoin::Network::Regtest,
    };
    let wallet = bdk::Wallet::new(
        descriptor.as_str(),
        change_descriptor.as_deref(),
        net,
        bdk::database::MemoryDatabase::default(),
    ).map_err(|e| e.to_string())?;
    Ok(WalletSession { wallet, descriptor, change_descriptor, network })
}

/// Relies on bdk::Wallet::get_balance: reads the wallet database; the
/// split is handed out as plain values.
#[verifier::external_body]
fn read_balance(s: &WalletSession) -> Result<Balance, String> {
    let b = s.wallet.get_balance().map_err(|e| e.to_string())?;
    Ok(
        Balance {
            immature: b.immature,
            trusted_pending: b.trusted_pending,
            untrusted_pending: b.untrusted_pending,
            confirmed: b.confirmed,
        },
    )
}

/// Relies on bdk::Wallet::list_unspent: each unspent output is handed out
/// as plain values.
#[verifier::external_body]
fn read_unspent(s: &WalletSession) -> Result<Vec<Utxo>, String> {
    let list = s.wallet.list_unspent().map_err(|e| e.to_string())?;
    Ok(
        list.into_iter().map(
            |u| Utxo {
                txid: u.outpoint.txid.to_string(),
                vout: u.outpoint.vout,
                value: u.txout.value,
                is_change: matches!(u.keychain, bdk::KeychainKind::Internal),
            },
        ).collect(),
    )
}

/// Relies on bdk::Wallet::get_address with a peeked index: the address is
/// derived from the wallet's descriptor at that index without touching
/// the database, so both the outcome and the value depend only on the
/// descriptor, the network and the index.
#[verifier::external_body]
fn peek_address_raw(s: &WalletSession, index: u32) -> (r: Result<String, String>)
    ensures
        r is Ok <==> address_at(s.descriptor@, s.network.tag(), index) is Some,
        r matches Ok(a) ==> Some(a@) == address_at(s.descriptor@, s.network.tag(), index),
{
    match s.wallet.get_address(bdk::wallet::AddressIndex::Peek(index)) {
        Ok(info) => Ok(info.address.to_string()),
        Err(e) => Err(e.to_string()),
    }
}

/// Relies on bdk::Wallet::policies on the chosen keychain: the policy is
/// extracted from the descriptors and their keys alone, never from the
/// database, so the outcome is a pure function of the session's
/// descriptors, network and the keychain. Hands out the policy's
/// identifier, or nothing where the descriptor has no spending-policy
/// tree.
#[verifier::external_body]
fn read_policy_id(s: &WalletSession, keychain: Keychain) -> (r: Result<Option<String>, String>)
    ensures
        r is Ok <==> policy_id_of(
            s.descriptor@,
            opt_chars(s.change_descriptor),
            s.network.tag(),
            keychain.is_internal(),
        ) is Some,
        r matches Ok(p) ==> Some(opt_chars(p)) == policy_id_of(
            s.descriptor@,
            opt_chars(s.change_descriptor),
            s.network.tag(),
            keychain.is_internal(),
        ),
{
    let kind = match keychain {
        Keychain::External => bdk::KeychainKind::External,
        Keychain::Internal => bdk::KeychainKind::Internal,
    };
    match s.wallet.policies(kind) {
        Ok(p) => Ok(p.map(|policy| policy.id)),
        Err(e) => Err(e.to_string()),
    }
}

impl WalletSession {
    /// Opens a wallet session from a descriptor, an optional change
    /// descriptor, and a network: it succeeds exactly when the texts are
    /// valid descriptors for the network, and the handle records exactly
    /// the descriptors it was opened from. On failure no wallet exists,
    /// so nothing can be synchronized or queried.
    pub fn open(descriptor: String, change_descriptor: Option<String>, network: Network) -> (r:
        Result<WalletSession, WalletError>)
        ensures
            r is Ok <==> wallet_opens(descriptor@, opt_chars(change_descriptor), network.tag()),
            r matches Ok(s) ==> s.descriptor == descriptor && s.change_descriptor
                == change_descriptor && s.network == network,
            r matches Err(e) ==> e matches WalletError::SessionOpen(_),
    {
        match open_wallet(descriptor, change_descriptor, network) {
            Ok(s) => Ok(s),
            Err(m) => Err(WalletError::SessionOpen(m)),
        }
    }

    /// The wallet's balance as the database reports it.
    pub fn balance(&self) -> (r: Result<Balance, WalletError>)
        ensures
            r matches Err(e) ==> e matches WalletError::Sync(_),
    {
        match read_balance(self) {
            Ok(b) => Ok(b),
            Err(m) => Err(WalletError::Sync(m)),
        }
    }

    /// The wallet's unspent outputs, as an ordered listing.
    pub fn list_unspent(&self) -> (r: Result<Vec<Utxo>, WalletError>)
        ensures
            r matches Err(e) ==> e matches WalletError::Sync(_),
    {
        match read_unspent(self) {
            Ok(v) => Ok(v),
            Err(m) => Err(WalletError::Sync(m)),
        }
    }

    /// Derives the address at `index` without consuming it: a peek, not
    /// an allocation. It succeeds exactly when the descriptor derives an
    /// address there, and both outcome and value are determined by the
    /// descriptor, network and index.
    pub fn address(&self, index: u32) -> (r: Result<String, WalletError>)
        ensures
            r is Ok <==> address_at(self.descriptor@, self.network.tag(), index) is Some,
            r matches Ok(a) ==> Some(a@) == address_at(self.descriptor@, self.network.tag(), index),
            r matches Err(e) ==> e matches WalletError::Sync(_),
    {
        match peek_address_raw(self, index) {
            Ok(a) => Ok(a),
            Err(m) => Err(WalletError::Sync(m)),
        }
    }

    /// The identifier of the spending policy of the chosen keychain, or
    /// nothing where the descriptor has no branching structure: a pure
    /// function of the session's descriptors, network and the keychain.
    pub fn policy_id(&self, keychain: Keychain) -> (r: Result<Option<String>, WalletError>)
        ensures
            r is Ok <==> policy_id_of(
                self.descriptor@,
                opt_chars(self.change_descriptor),
                self.network.tag(),
                keychain.is_internal(),
            ) is Some,
            r matches Ok(p) ==> Some(opt_chars(p)) == policy_id_of(
                self.descriptor@,
                opt_chars(self.change_descriptor),
                self.network.tag(),
                keychain.is_internal(),
            ),
            r matches Err(e) ==> e matches WalletError::Sync(_),
    {
        match read_policy_id(self, keychain) {
            Ok(p) => Ok(p),
            Err(m) => Err(WalletError::Sync(m)),
        }
    }
}

/// Peeking the same index twice returns the same address both times; the
/// session is taken immutably, so neither call can alter the balance or
/// the unspent listing.
pub fn address_peek_idempotent(s: &WalletSession, index: u32) -> (r: (
    Result<String, WalletError>,
    Result<String, WalletError>,
))
    ensures
        (r.0 is Ok && r.1 is Ok) ==> r.0->Ok_0@ == r.1->Ok_0@,
{
    let first = s.address(index);
    let second = s.address(index);
    (first, second)
}

} // verus!
