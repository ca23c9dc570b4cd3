//! Transport encoding of PSBTs: base64 text over the canonical binary
//! serialization. Encoding then decoding returns the original bytes, so a
//! proposal exported for offline signing comes back structurally
//! identical.

use vstd::prelude::*;
use crate::errors::WalletError;

verus! {

/// The base64 text that base64::encode produces for a byte sequence.
pub uninterp spec fn b64_of(bytes: Seq<u8>) -> Seq<char>;

/// What base64::decode makes of a text: the encoded bytes, or nothing if
/// the text is not valid base64.
pub uninterp spec fn b64_decoded(text: Seq<char>) -> Option<Seq<u8>>;

/// Whether a byte sequence deserializes as a PSBT.
pub uninterp spec fn psbt_parses(bytes: Seq<u8>) -> bool;

/// Relies on base64::encode, and on base64's documented guarantee that
/// decode inverts encode: the produced text decodes back to the input.
#[verifier::external_body]
fn encode_bytes(b: &Vec<u8>) -> (r: String)
    ensures
        r@ == b64_of(b@),
        b64_decoded(r@) == Some(b@),
{
    base64::encode(b)
}

/// Relies on base64::decode: it returns the encoded bytes exactly when
/// the text is valid base64.
#[verifier::external_body]
fn decode_text(s: &str) -> (r: Result<Vec<u8>, String>)
    ensures
        r is Ok <==> b64_decoded(s@) is Some,
        r matches Ok(v) ==> b64_decoded(s@) == Some(v@),
{
    match base64::decode(s) {
        Ok(v) => Ok(v),
        Err(e) => Err(e.to_string()),
    }
}

/// Relies on PartiallySignedTransaction::deserialize: success depends on
/// the bytes alone.
#[verifier::external_body]
pub(crate) fn psbt_from_bytes(b: &Vec<u8>) -> (r: Result<
    bdk::bitcoin::psbt::PartiallySignedTransaction,
    String,
>)
    ensures
        r is Ok <==> psbt_parses(b@),
{
    bdk::bitcoin::psbt::PartiallySignedTransaction::deserialize(b).map_err(|e| e.to_string())
}

/// Relies on PartiallySignedTransaction::serialize, and on deserialize
/// inverting it, the round-trip property of the PSBT serialization
/// format: the canonical serialization of a PSBT deserializes back.
#[verifier::external_body]
pub(crate) fn psbt_to_bytes(p: &bdk::bitcoin::psbt::PartiallySignedTransaction) -> (r: Vec<u8>)
    ensures
        psbt_parses(r@),
{
    p.serialize()
}

/// An opaque partially-signed transaction as the bitcoin library holds it.
#[verifier::external_type_specification]
#[verifier::external_body]
pub struct ExPsbt(bdk::bitcoin::psbt::PartiallySignedTransaction);

/// Transport-encodes serialized PSBT bytes as base64 text.
pub fn encode_transport(b: &Vec<u8>) -> (r: String)
    ensures
        r@ == b64_of(b@),
        b64_decoded(r@) == Some(b@),
{
    encode_bytes(b)
}

/// Decodes transport text back to the serialized PSBT bytes; fails
/// exactly on text that is not valid base64.
pub fn decode_transport(s: &str) -> (r: Result<Vec<u8>, WalletError>)
    ensures
        r is Ok <==> b64_decoded(s@) is Some,
        r matches Ok(v) ==> b64_decoded(s@) == Some(v@),
        r matches Err(e) ==> e matches WalletError::PsbtDecode(_),
{
    match decode_text(s) {
        Ok(v) => Ok(v),
        Err(m) => Err(WalletError::PsbtDecode(m)),
    }
}

/// Transport round trip: decoding an encoded byte sequence always
/// succeeds and returns the original bytes unchanged, for every input.
pub fn transport_round_trip(b: &Vec<u8>) -> (r: Vec<u8>)
    ensures
        r@ == b@,
{
    let text = encode_transport(b);
    match decode_transport(text.as_str()) {
        Ok(v) => v,
        Err(_) => {
            proof {
                assert(false);
            }
            Vec::new()
        },
    }
}

} // verus!
