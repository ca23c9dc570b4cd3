use bdk::bitcoin::absolute::LockTime;
use bdk::bitcoin::psbt::PartiallySignedTransaction;
use bdk::bitcoin::{OutPoint, ScriptBuf, Sequence, Transaction, TxIn, TxOut, Witness};
use mori::errors::WalletError;
use mori::signer::{assess_signing, sign_psbt};
use mori::{generate_identity, get_descriptor, Network, WalletSession};

fn open_fresh_session() -> WalletSession {
    let a = generate_identity(Network::Testnet).unwrap();
    let b = generate_identity(Network::Testnet).unwrap();
    let rcv = get_descriptor(&a, &b, &'0').unwrap();
    let chg = get_descriptor(&a, &b, &'1').unwrap();
    WalletSession::open(rcv, Some(chg), Network::Testnet).unwrap()
}

/// A decodable PSBT spending an output the wallet knows nothing about:
/// none of its inputs is signable with the wallet's keys.
fn foreign_psbt_base64() -> String {
    let funding = Transaction {
        version: 1,
        lock_time: LockTime::ZERO,
        input: vec![TxIn {
            previous_output: OutPoint::null(),
            script_sig: ScriptBuf::new(),
            sequence: Sequence::MAX,
            witness: Witness::new(),
        }],
        output: vec![TxOut { value: 50_000, script_pubkey: ScriptBuf::new() }],
    };
    let spend = Transaction {
        version: 1,
        lock_time: LockTime::ZERO,
        input: vec![TxIn {
            previous_output: OutPoint { txid: funding.txid(), vout: 0 },
            script_sig: ScriptBuf::new(),
            sequence: Sequence::MAX,
            witness: Witness::new(),
        }],
        output: vec![TxOut { value: 40_000, script_pubkey: ScriptBuf::new() }],
    };
    let mut psbt = PartiallySignedTransaction::from_unsigned_tx(spend).unwrap();
    psbt.inputs[0].non_witness_utxo = Some(funding);
    base64::encode(psbt.serialize())
}

#[test]
fn assess_signing_judges_outcomes() {
    let none = (0usize, false, false);
    let partial = (1usize, false, false);
    let final_wit = (0usize, false, true);
    assert!(assess_signing(true, &vec![]).is_ok());
    assert!(assess_signing(true, &vec![none, none]).is_ok());
    assert!(matches!(assess_signing(false, &vec![]), Err(WalletError::Signing)));
    assert!(matches!(assess_signing(false, &vec![none, none, none]), Err(WalletError::Signing)));
    assert!(matches!(assess_signing(false, &vec![none, partial]), Err(WalletError::IncompletePsbt)));
    assert!(matches!(assess_signing(false, &vec![final_wit, none]), Err(WalletError::IncompletePsbt)));
}

#[test]
fn send_rejects_undecodable_text() {
    let session = open_fresh_session();
    let r = sign_psbt(&session, "%%% not a psbt %%%");
    assert!(matches!(r, Err(WalletError::PsbtDecode(_))));
}

#[test]
fn send_rejects_bytes_that_are_no_psbt() {
    let session = open_fresh_session();
    // Valid base64, but the bytes are not a PSBT.
    let text = base64::encode([1u8, 2, 3, 4]);
    let r = sign_psbt(&session, &text);
    assert!(matches!(r, Err(WalletError::PsbtDecode(_))));
}

#[test]
fn signing_engine_failure_keeps_its_message() {
    let session = open_fresh_session();
    // A decodable PSBT whose input lacks the non-witness UTXO the default
    // sign options require: the signing engine refuses it outright.
    let spend = Transaction {
        version: 1,
        lock_time: LockTime::ZERO,
        input: vec![TxIn {
            previous_output: OutPoint::null(),
            script_sig: ScriptBuf::new(),
            sequence: Sequence::MAX,
            witness: Witness::new(),
        }],
        output: vec![TxOut { value: 40_000, script_pubkey: ScriptBuf::new() }],
    };
    let psbt = PartiallySignedTransaction::from_unsigned_tx(spend).unwrap();
    let text = base64::encode(psbt.serialize());
    let r = sign_psbt(&session, &text);
    match r {
        Err(WalletError::SignerFailure(m)) => assert!(!m.is_empty()),
        _ => panic!("expected a signer failure"),
    }
}

#[test]
fn send_with_zero_signable_inputs_is_a_signing_error() {
    let session = open_fresh_session();
    let text = foreign_psbt_base64();
    let r = sign_psbt(&session, &text);
    // No transaction comes back, so the caller has nothing to broadcast.
    assert!(matches!(r, Err(WalletError::Signing)));
}

#[test]
fn psbt_transport_round_trip_is_structural() {
    let text = foreign_psbt_base64();
    let bytes = mori::transport::decode_transport(&text).unwrap();
    let reencoded = mori::transport::encode_transport(&bytes);
    assert_eq!(reencoded, text);
    let psbt = PartiallySignedTransaction::deserialize(&bytes).unwrap();
    assert_eq!(base64::encode(psbt.serialize()), text);
}
