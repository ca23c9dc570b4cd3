//! Key-material generation: a fresh mnemonic phrase, the master extended
//! private key it determines for a chosen network, and that key's
//! fingerprint. The derivation math itself lives in the bip39/bip32
//! collaborators; this module states and preserves the invariant that the
//! fingerprint is a pure function of the extended key.

use vstd::prelude::*;
use crate::errors::WalletError;

verus! {

/// Which bitcoin network key material is derived for.
#[derive(Clone, Copy, PartialEq, Eq, Structural, Debug)]
pub enum Network {
    Bitcoin,
    Testnet,
    Signet,
    Regtest,
}

impl Network {
    /// Distinguishes the networks in specifications.
    pub open spec fn tag(self) -> int {
        match self {
            Network::Bitcoin => 0,
            Network::Testnet => 1,
            Network::Signet => 2,
            Network::Regtest => 3,
        }
    }
}

/// The master extended private key that a given mnemonic phrase determines
/// for a given network, in its standard base58 encoding.
pub uninterp spec fn xprv_of(phrase: Seq<char>, network_tag: int) -> Seq<char>;

/// The 4-byte fingerprint, rendered as hex, of an encoded extended
/// private key.
pub uninterp spec fn fingerprint_of(xprv: Seq<char>) -> Seq<char>;

/// Whether a text parses as an encoded extended private key: a pure
/// function of the text.
pub uninterp spec fn xprv_parses(xprv: Seq<char>) -> bool;

/// How many space characters a text holds.
pub open spec fn count_spaces(s: Seq<char>) -> int
    decreases s.len(),
{
    if s.len() == 0 {
        0
    } else {
        count_spaces(s.drop_last()) + if s.last() == ' ' { 1int } else { 0int }
    }
}

/// Exactly `n` nonempty words separated by single spaces.
pub open spec fn is_word_phrase(s: Seq<char>, n: int) -> bool {
    s.len() > 0 && s[0] != ' ' && s[s.len() - 1] != ' ' && count_spaces(s) == n - 1
        && (forall|i: int| 0 <= i < s.len() - 1 ==> !(#[trigger] s[i] == ' ' && s[i + 1] == ' '))
}

/// One party's key material. The fingerprint is always the one derived
/// from the extended key, and the key is the one the phrase determines.
pub struct Keys {
    pub xprv: String,
    pub fingerprint: String,
    pub phrase: String,
}

impl Keys {
    /// The fingerprint carried alongside the key is the key's own.
    pub open spec fn wf(self) -> bool {
        self.fingerprint@ == fingerprint_of(self.xprv@)
    }
}

/// Number of words in a generated mnemonic phrase.
pub const MNEMONIC_WORDS: usize = 12;

/// Relies on bdk's GeneratableKey impl for bip39 mnemonics to draw a fresh
/// English mnemonic of the given word count from random entropy, and on
/// the mnemonic's rendering: words of the standard wordlist (nonempty,
/// holding no space) joined by single spaces. Which words come is random,
/// so nothing more is promised; entropy failure is surfaced, never
/// retried.
#[verifier::external_body]
fn generate_phrase(words: usize) -> (r: Result<String, String>)
    requires
        words == 12 || words == 15 || words == 18 || words == 21 || words == 24,
    ensures
        r matches Ok(p) ==> is_word_phrase(p@, words as int),
{
    let count = match words {
        12 => bdk::keys::bip39::WordCount::Words12,
        15 => bdk::keys::bip39::WordCount::Words15,
        18 => bdk::keys::bip39::WordCount::Words18,
        21 => bdk::keys::bip39::WordCount::Words21,
        _ => bdk::keys::bip39::WordCount::Words24,
    };
    let generated: bdk::keys::GeneratedKey<_, bdk::miniscript::Segwitv0> =
        <bdk::keys::bip39::Mnemonic as bdk::keys::GeneratableKey<_>>::generate(
            (count, bdk::keys::bip39::Language::English),
        ).map_err(|e| format!("{:?}", e))?;
    Ok(generated.to_string())
}

/// Relies on bip39::Mnemonic::parse_in and bdk's mnemonic key derivation
/// (no passphrase): the master key is a deterministic function of the
/// phrase and the network alone.
#[verifier::external_body]
fn derive_xprv(phrase: &str, network: Network) -> (r: Result<String, String>)
    ensures
        r matches Ok(x) ==> x@ == xprv_of(phrase@, network.tag()) && x@.len() > 0,
{
    let net = match network {
        Network::Bitcoin => bdk::bitcoin::Network::Bitcoin,
        Network::Testnet => bdk::bitcoin::Network::Testnet,
        Network::Signet => bdk::bitcoin::Network::Signet,
        Network::Regtest => bdk::bitcoin::Network::Regtest,
    };
    let mnemonic = bdk::keys::bip39::Mnemonic::parse_in(bdk::keys::bip39::Language::English, phrase)
        .map_err(|e| e.to_string())?;
    let xkey: bdk::keys::ExtendedKey = bdk::keys::DerivableKey::into_extended_key(mnemonic)
        .map_err(|e| e.to_string())?;
    let xprv = xkey.into_xprv(net).ok_or_else(|| "mnemonic yielded no private key".to_string())?;
    Ok(xprv.to_string())
}

/// Relies on bip32::ExtendedPrivKey::from_str and ExtendedPrivKey::fingerprint:
/// parsing succeeds exactly when the text encodes an extended private
/// key, and the fingerprint, four bytes rendered as eight hex characters,
/// is a pure function of the encoded key.
#[verifier::external_body]
fn fingerprint_from_xprv(xprv: &str) -> (r: Result<String, String>)
    ensures
        r is Ok <==> xprv_parses(xprv@),
        r matches Ok(f) ==> f@ == fingerprint_of(xprv@) && f@.len() == 8,
{
    let key = <bdk::bitcoin::bip32::ExtendedPrivKey as std::str::FromStr>::from_str(xprv)
        .map_err(|e| e.to_string())?;
    let secp = bdk::bitcoin::secp256k1::Secp256k1::new();
    Ok(key.fingerprint(&secp).to_string())
}

/// Generates one party's key material: a fresh 12-word mnemonic, the
/// master extended private key it determines for `network`, and that
/// key's fingerprint. Entropy or derivation failure is fatal and is
/// reported, never retried.
pub fn generate_identity(network: Network) -> (r: Result<Keys, WalletError>)
    ensures
        r matches Ok(k) ==> k.wf() && k.xprv@ == xprv_of(k.phrase@, network.tag()),
        r matches Ok(k) ==> is_word_phrase(k.phrase@, MNEMONIC_WORDS as int),
        r matches Ok(k) ==> k.fingerprint@.len() == 8 && k.xprv@.len() > 0,
        r matches Err(e) ==> e matches WalletError::KeyDerivation(_),
{
    let phrase = match generate_phrase(MNEMONIC_WORDS) {
        Ok(p) => p,
        Err(m) => {
            return Err(WalletError::KeyDerivation(m));
        },
    };
    let xprv = match derive_xprv(phrase.as_str(), network) {
        Ok(x) => x,
        Err(m) => {
            return Err(WalletError::KeyDerivation(m));
        },
    };
    let fingerprint = match fingerprint_from_xprv(xprv.as_str()) {
        Ok(f) => f,
        Err(m) => {
            return Err(WalletError::KeyDerivation(m));
        },
    };
    Ok(Keys { xprv, fingerprint, phrase })
}

/// Re-derives the fingerprint of an encoded extended private key;
/// succeeds exactly when the text parses as one.
pub fn derive_fingerprint(xprv: &str) -> (r: Result<String, WalletError>)
    ensures
        r is Ok <==> xprv_parses(xprv@),
        r matches Ok(f) ==> f@ == fingerprint_of(xprv@),
        r matches Err(e) ==> e matches WalletError::KeyDerivation(_),
{
    match fingerprint_from_xprv(xprv) {
        Ok(f) => Ok(f),
        Err(m) => Err(WalletError::KeyDerivation(m)),
    }
}

/// The fingerprint carried by generated key material equals the one
/// re-derived from its extended key: whenever re-derivation succeeds on a
/// well-formed identity, it returns exactly the stored fingerprint.
pub fn check_identity(k: &Keys) -> (r: Result<bool, WalletError>)
    ensures
        r is Ok <==> xprv_parses(k.xprv@),
        r matches Ok(b) ==> b == (k.fingerprint@ == fingerprint_of(k.xprv@)),
        r matches Err(e) ==> e matches WalletError::KeyDerivation(_),
{
    let rederived = derive_fingerprint(k.xprv.as_str())?;
    Ok(rederived.eq(&k.fingerprint))
}

} // verus!
