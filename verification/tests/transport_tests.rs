use mori::errors::WalletError;
use mori::transport::{decode_transport, encode_transport, transport_round_trip};

#[test]
fn encode_produces_base64_text() {
    let bytes: Vec<u8> = vec![1, 2, 3];
    let text = encode_transport(&bytes);
    assert_eq!(text, "AQID");

    let empty: Vec<u8> = Vec::new();
    assert_eq!(encode_transport(&empty), "");
}

#[test]
fn decode_recovers_encoded_bytes() {
    let decoded = decode_transport("AQID").unwrap();
    assert_eq!(decoded, vec![1u8, 2, 3]);
}

#[test]
fn decode_rejects_invalid_text() {
    let r = decode_transport("!!! not base64 !!!");
    assert!(matches!(r, Err(WalletError::PsbtDecode(_))));
}

#[test]
fn round_trip_returns_input_unchanged() {
    let bytes: Vec<u8> = vec![0, 255, 16, 32, 254, 7, 9, 11];
    let back = transport_round_trip(&bytes);
    assert_eq!(back, bytes);

    // Cross-check against the base64 collaborator directly.
    let text = encode_transport(&bytes);
    assert_eq!(base64::decode(&text).unwrap(), bytes);
}
