//! Relaying samples of the pub/sub bus to a visualisation channel.

use vstd::prelude::*;
use vstd::utf8::encode_utf8;

verus! {

/// What a sample of the bus carries, as the transport classifies it.
#[derive(Clone, Debug, PartialEq, Eq)]
pub enum SamplePayload {
    /// Raw bytes.
    Bytes(Vec<u8>),
    /// Text.
    Text(String),
    /// Anything that is neither.
    Other,
}

/// Why a sample was not relayed.
#[derive(Clone, Copy, Debug, PartialEq, Eq, Structural)]
pub enum BridgeError {
    /// The payload is neither bytes nor text.
    UnsupportedPayload,
}

/// `value` as a base-128 varint: seven bits to a byte, least significant
/// first, with the high bit set on every byte but the last.
pub open spec fn varint(value: nat) -> Seq<u8>
    decreases value,
{
    if value < 128 {
        seq![value as u8]
    } else {
        seq![(value % 128 + 128) as u8] + varint(value / 128)
    }
}

/// A text as a protobuf message with the text as its first field: nothing
/// for the empty text, and else the key of field 1 as a length-delimited
/// field, the length of the text in bytes as a varint, and its UTF-8 bytes.
pub open spec fn text_message(text: Seq<char>) -> Seq<u8> {
    let utf8 = encode_utf8(text);
    if utf8.len() == 0 {
        Seq::empty()
    } else {
        seq![0x0au8] + varint(utf8.len()) + utf8
    }
}

/// Calls `prost::Message::encode_to_vec` on a `String`, which prost encodes
/// as the wrapper message `google.protobuf.StringValue`: an empty text
/// gives no bytes, any other text gives field 1 with the text as its
/// length-delimited value.
#[verifier::external_body]
fn encode_text(text: &String) -> (bytes: Vec<u8>)
    ensures
        bytes@ == text_message(text@),
{
    prost::Message::encode_to_vec(text)
}

/// The bytes that a relayed sample is sent as.
pub open spec fn relayed(payload: SamplePayload) -> Result<Seq<u8>, BridgeError> {
    match payload {
        SamplePayload::Bytes(bytes) => Ok(bytes@),
        SamplePayload::Text(text) => Ok(text_message(text@)),
        SamplePayload::Other => Err(BridgeError::UnsupportedPayload),
    }
}

/// Turns the payload of a sample into the bytes to relay: bytes go through
/// as they are, a text goes as a protobuf text message, and anything else
/// is refused.
pub fn payload_bytes(payload: SamplePayload) -> (bytes: Result<Vec<u8>, BridgeError>)
    ensures
        match relayed(payload) {
            Ok(expected) => bytes is Ok && bytes->Ok_0@ == expected,
            Err(error) => bytes == Err::<Vec<u8>, BridgeError>(error),
        },
{
    match payload {
        SamplePayload::Bytes(bytes) => Ok(bytes),
        SamplePayload::Text(text) => Ok(encode_text(&text)),
        SamplePayload::Other => Err(BridgeError::UnsupportedPayload),
    }
}

} // verus!
