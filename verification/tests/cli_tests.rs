use mori::errors::WalletError;
use mori::{parse_mode, Mode};

fn s(v: &str) -> Option<String> {
    Some(v.to_string())
}

#[test]
fn no_subcommand_is_missing_mode() {
    let r = parse_mode(None, None, None, None, None, None, None);
    assert!(matches!(r, Err(WalletError::MissingMode)));
    let e = r.unwrap_err();
    assert_eq!(e.message(), "Need to pick a mode: balance || receive || send || create");
}

#[test]
fn unknown_subcommand_is_rejected() {
    let r = parse_mode(s("create"), None, None, None, None, None, None);
    assert!(matches!(r, Err(WalletError::UnknownMode)));
    assert_eq!(r.unwrap_err().message(), "Unknown mode");
}

#[test]
fn descriptor_mode_needs_no_flags() {
    let r = parse_mode(s("descriptor"), None, None, None, None, None, None);
    assert!(matches!(r, Ok(Mode::Descriptor)));
}

#[test]
fn balance_mode_collects_both_descriptors() {
    let r = parse_mode(s("balance"), s("d0"), s("d1"), None, None, None, None).unwrap();
    match r {
        Mode::Balance { descriptor, change_descriptor } => {
            assert_eq!(descriptor, "d0");
            assert_eq!(change_descriptor, "d1");
        },
        _ => panic!("wrong mode"),
    }

    let missing = parse_mode(s("balance"), s("d0"), None, None, None, None, None);
    assert!(matches!(missing, Err(WalletError::MissingChangeDescriptor)));
    assert_eq!(missing.unwrap_err().message(), "Missing change descriptor");

    let missing2 = parse_mode(s("balance"), None, s("d1"), None, None, None, None);
    assert!(matches!(missing2, Err(WalletError::MissingDescriptor)));
}

#[test]
fn receive_mode_needs_an_index() {
    let r = parse_mode(s("receive"), s("d0"), None, Some(7), None, None, None).unwrap();
    match r {
        Mode::Receive { descriptor, index } => {
            assert_eq!(descriptor, "d0");
            assert_eq!(index, 7);
        },
        _ => panic!("wrong mode"),
    }
    let missing = parse_mode(s("receive"), s("d0"), None, None, None, None, None);
    assert!(matches!(missing, Err(WalletError::MissingIndex)));
    assert_eq!(missing.unwrap_err().message(), "Missing address index");
}

#[test]
fn build_mode_needs_all_four_flags() {
    let r = parse_mode(s("build"), s("d0"), s("d1"), None, Some(1234), s("tb1qdest"), None)
        .unwrap();
    match r {
        Mode::Build { descriptor, change_descriptor, amount, destination } => {
            assert_eq!(descriptor, "d0");
            assert_eq!(change_descriptor, "d1");
            assert_eq!(amount, 1234);
            assert_eq!(destination, "tb1qdest");
        },
        _ => panic!("wrong mode"),
    }
    let m1 = parse_mode(s("build"), s("d0"), s("d1"), None, None, s("tb1qdest"), None);
    assert!(matches!(m1, Err(WalletError::MissingAmount)));
    let m2 = parse_mode(s("build"), s("d0"), s("d1"), None, Some(1), None, None);
    assert!(matches!(m2, Err(WalletError::MissingDestination)));
    assert_eq!(m2.unwrap_err().message(), "Missing destination addresss");
}

#[test]
fn send_mode_needs_a_psbt() {
    let r = parse_mode(s("send"), s("d0"), None, None, None, None, s("cHNidP8B")).unwrap();
    match r {
        Mode::Send { descriptor, psbt } => {
            assert_eq!(descriptor, "d0");
            assert_eq!(psbt, "cHNidP8B");
        },
        _ => panic!("wrong mode"),
    }
    let missing = parse_mode(s("send"), s("d0"), None, None, None, None, None);
    assert!(matches!(missing, Err(WalletError::MissingPsbt)));
    assert_eq!(
        missing.unwrap_err().message(),
        "Missing Partially signed bitcoin transactions"
    );
}

#[test]
fn error_messages_name_each_failure() {
    assert_eq!(WalletError::InsufficientFunds.message(), "insufficient funds");
    assert_eq!(WalletError::DustOutput.message(), "output below dust threshold");
    assert_eq!(WalletError::PolicyUnavailable.message(), "wallet policy unavailable");
    assert_eq!(WalletError::Signing.message(), "no inputs could be signed");
    assert_eq!(WalletError::IncompletePsbt.message(), "psbt incomplete after signing");
    assert_eq!(
        WalletError::DescriptorBuild.message(),
        "empty key material in descriptor request"
    );
    assert_eq!(WalletError::Sync("boom".to_string()).message(), "boom");
    assert_eq!(WalletError::PsbtDecode("bad".to_string()).message(), "bad");
}
