use mori::errors::WalletError;
use mori::keys::Keys;
use mori::get_descriptor;

fn sample_keys(fp: &str, xprv: &str) -> Keys {
    Keys { xprv: xprv.to_string(), fingerprint: fp.to_string(), phrase: String::new() }
}

#[test]
fn descriptor_scenario_two_parties() {
    let alice = sample_keys("aabbccdd", "tprvAliceKeyMaterial");
    let bob = sample_keys("11223344", "tprvBobKeyMaterial");
    let rcv = get_descriptor(&alice, &bob, &'0').unwrap();
    let chg = get_descriptor(&alice, &bob, &'1').unwrap();

    assert_eq!(
        rcv,
        "wsh(or_d(pk([aabbccdd/87h/1h/0h]tprvAliceKeyMaterial/0/*),\
         and_v(v:pk([11223344/87h/1h/0h]tprvBobKeyMaterial/0/*),older(25920))))"
    );
    assert!(rcv.contains("aabbccdd"));
    assert!(rcv.contains("11223344"));
    assert!(rcv.contains("older(25920)"));

    // The change variant differs from the receive variant exactly at the
    // change-flag character before each wildcard.
    assert_eq!(rcv.len(), chg.len());
    let diffs: Vec<(usize, char, char)> = rcv
        .chars()
        .zip(chg.chars())
        .enumerate()
        .filter(|(_, (a, b))| a != b)
        .map(|(i, (a, b))| (i, a, b))
        .collect();
    assert_eq!(diffs.len(), 2);
    for (i, a, b) in diffs {
        assert_eq!(a, '0');
        assert_eq!(b, '1');
        let rest: String = rcv.chars().skip(i + 1).take(2).collect();
        assert_eq!(rest, "/*");
    }
}

#[test]
fn descriptor_rejects_empty_key_material() {
    let alice = sample_keys("", "tprvAliceKeyMaterial");
    let bob = sample_keys("11223344", "tprvBobKeyMaterial");
    let r = get_descriptor(&alice, &bob, &'0');
    assert!(matches!(r, Err(WalletError::DescriptorBuild)));

    let alice2 = sample_keys("aabbccdd", "");
    let r2 = get_descriptor(&alice2, &bob, &'1');
    assert!(matches!(r2, Err(WalletError::DescriptorBuild)));
}

#[test]
fn descriptor_is_parseable_by_the_wallet() {
    let a = mori::generate_identity(mori::Network::Testnet).unwrap();
    let b = mori::generate_identity(mori::Network::Testnet).unwrap();
    let rcv = get_descriptor(&a, &b, &'0').unwrap();
    let chg = get_descriptor(&a, &b, &'1').unwrap();
    // The strings must be valid under the descriptor grammar: opening a
    // wallet parses them with the miniscript grammar.
    let session = mori::WalletSession::open(rcv, Some(chg), mori::Network::Testnet);
    assert!(session.is_ok());
}
