//! The signer: decodes a transport-encoded PSBT, signs every input the
//! wallet's keys can satisfy under default finalization rules, and
//! extracts the final transaction for broadcast. A PSBT none of whose
//! inputs could be signed fails before any broadcast is attempted.

use vstd::prelude::*;
use crate::errors::WalletError;
use crate::session::WalletSession;
use crate::transport::{b64_decoded, decode_transport, psbt_from_bytes, psbt_parses};

verus! {

/// An opaque final network transaction.
#[verifier::external_type_specification]
#[verifier::external_body]
pub struct ExTransaction(bdk::bitcoin::Transaction);

/// A fully-signed transaction extracted from a finalized PSBT, with its
/// identifier rendered as hex.
pub struct SignedTransaction {
    pub tx: bdk::bitcoin::Transaction,
    pub txid: String,
}

/// Relies on bdk::Wallet::sign with default options: signs what the
/// wallet's keys can satisfy, attempts finalization, and reports whether
/// the PSBT is finalized, together with each input's signature material
/// after signing: its partial-signature count and whether it carries a
/// final script-sig or witness (finalization moves signatures there).
#[verifier::external_body]
fn sign_with_wallet(
    s: &WalletSession,
    psbt: &mut bdk::bitcoin::psbt::PartiallySignedTransaction,
) -> Result<(bool, Vec<(usize, bool, bool)>), String> {
    let finalized = s.wallet.sign(psbt, bdk::SignOptions::default()).map_err(|e| e.to_string())?;
    let material = psbt.inputs.iter().map(
        |i| (i.partial_sigs.len(), i.final_script_sig.is_some(), i.final_script_witness.is_some()),
    ).collect();
    Ok((finalized, material))
}

/// Whether an input carries any signature material: a partial signature,
/// or a final script-sig or witness left by finalization.
pub open spec fn has_signature(c: (usize, bool, bool)) -> bool {
    c.0 > 0 || c.1 || c.2
}

/// Relies on PartiallySignedTransaction::extract_tx and Transaction::txid:
/// pulls the final transaction out of a finalized PSBT.
#[verifier::external_body]
fn extract_transaction(
    psbt: bdk::bitcoin::psbt::PartiallySignedTransaction,
) -> SignedTransaction {
    let tx = psbt.extract_tx();
    let txid = tx.txid().to_string();
    SignedTransaction { tx, txid }
}

/// Judges the signing outcome. A finalized PSBT is complete. One that is
/// not finalized and gathered no signature material on any input could
/// not be signed at all; one that gathered some but did not finalize is
/// incomplete.
pub fn assess_signing(finalized: bool, inputs: &Vec<(usize, bool, bool)>) -> (r: Result<
    (),
    WalletError,
>)
    ensures
        finalized ==> r is Ok,
        !finalized && (forall|i: int| 0 <= i < inputs@.len() ==> !has_signature(inputs@[i]))
            ==> (r matches Err(e) && e == WalletError::Signing),
        !finalized && (exists|i: int| 0 <= i < inputs@.len() && has_signature(inputs@[i]))
            ==> (r matches Err(e) && e == WalletError::IncompletePsbt),
        r matches Err(e) ==> (e == WalletError::Signing || e == WalletError::IncompletePsbt),
{
    if finalized {
        return Ok(());
    }
    let mut idx: usize = 0;
    let mut any_signed: bool = false;
    while idx < inputs.len()
        invariant
            idx <= inputs@.len(),
            any_signed <==> (exists|i: int| 0 <= i < idx && has_signature(inputs@[i])),
        decreases inputs@.len() - idx,
    {
        let c = *inputs.get(idx).unwrap();
        if c.0 > 0 || c.1 || c.2 {
            any_signed = true;
        }
        idx = idx + 1;
    }
    if any_signed {
        Err(WalletError::IncompletePsbt)
    } else {
        Err(WalletError::Signing)
    }
}

/// Decodes a transport-encoded PSBT, signs it with the wallet's keys, and
/// extracts the final transaction. Text that is not valid base64, or
/// bytes that are not a structurally valid PSBT, fail as a decode error
/// and nothing is signed; a failure of the signing engine itself keeps
/// its message; a PSBT with no signable input fails as a signing error.
/// In every failure no transaction is extracted, so the caller has
/// nothing to broadcast.
pub fn sign_psbt(s: &WalletSession, psbt_text: &str) -> (r: Result<
    SignedTransaction,
    WalletError,
>)
    ensures
        b64_decoded(psbt_text@) is None ==> (r matches Err(e)
            && e matches WalletError::PsbtDecode(_)),
        (b64_decoded(psbt_text@) matches Some(b) && !psbt_parses(b)) ==> (r matches Err(e)
            && e matches WalletError::PsbtDecode(_)),
        r matches Err(e) ==> (e matches WalletError::PsbtDecode(_) || e == WalletError::Signing
            || e == WalletError::IncompletePsbt || e matches WalletError::SignerFailure(_)),
{
    let bytes = decode_transport(psbt_text)?;
    let mut psbt = match psbt_from_bytes(&bytes) {
        Ok(p) => p,
        Err(m) => {
            return Err(WalletError::PsbtDecode(m));
        },
    };
    let (finalized, counts) = match sign_with_wallet(s, &mut psbt) {
        Ok(t) => t,
        Err(m) => {
            return Err(WalletError::SignerFailure(m));
        },
    };
    assess_signing(finalized, &counts)?;
    Ok(extract_transaction(psbt))
}

} // verus!
