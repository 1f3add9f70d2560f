//! Response frames pushed by the dock.
//!
//! A notification payload is read through its lower-case hexadecimal text.
//! Three texts carry a meaning, `c101`, `c102` and `c103`: the dock reports
//! the input source it now plays from. Every other payload is accepted and
//! changes nothing.

use vstd::prelude::*;

use crate::command::InputSource;

verus! {

/// What a response frame says.
#[derive(Clone, Copy, Debug, PartialEq, Eq, Structural)]
pub enum ResponseCode {
    /// `c1 01`: the dock plays from Bluetooth.
    InputBluetooth,
    /// `c1 02`: the dock plays from the AUX jack.
    InputAux,
    /// `c1 03`: the dock plays from USB.
    InputUsb,
    /// Any other payload.
    Unrecognized,
}

/// The sixteen lower-case hexadecimal digits, by value.
pub open spec fn hex_digits() -> Seq<char> {
    seq!['0', '1', '2', '3', '4', '5', '6', '7', '8', '9', 'a', 'b', 'c', 'd', 'e', 'f']
}

/// Lower-case hexadecimal text of `bytes`: two digits per byte, high half first.
pub open spec fn hex_text(bytes: Seq<u8>) -> Seq<char> {
    Seq::new(
        2 * bytes.len(),
        |i: int|
            if i % 2 == 0 {
                hex_digits()[bytes[i / 2] as int / 16]
            } else {
                hex_digits()[bytes[i / 2] as int % 16]
            },
    )
}

/// Meaning of a payload, read from its bytes.
pub open spec fn code_of(payload: Seq<u8>) -> ResponseCode {
    if payload == seq![0xc1u8, 0x01u8] {
        ResponseCode::InputBluetooth
    } else if payload == seq![0xc1u8, 0x02u8] {
        ResponseCode::InputAux
    } else if payload == seq![0xc1u8, 0x03u8] {
        ResponseCode::InputUsb
    } else {
        ResponseCode::Unrecognized
    }
}

/// Meaning of a payload, read from its hexadecimal text.
pub open spec fn code_of_text(text: Seq<char>) -> ResponseCode {
    if text == seq!['c', '1', '0', '1'] {
        ResponseCode::InputBluetooth
    } else if text == seq!['c', '1', '0', '2'] {
        ResponseCode::InputAux
    } else if text == seq!['c', '1', '0', '3'] {
        ResponseCode::InputUsb
    } else {
        ResponseCode::Unrecognized
    }
}

/// The input source a code announces, if it announces one.
pub open spec fn announced_input(code: ResponseCode) -> Option<InputSource> {
    match code {
        ResponseCode::InputBluetooth => Some(InputSource::Bluetooth),
        ResponseCode::InputAux => Some(InputSource::Aux),
        ResponseCode::InputUsb => Some(InputSource::Usb),
        ResponseCode::Unrecognized => None,
    }
}

/// Calls `hex::encode` on the payload.
///
/// Trusted: the returned text is the lower-case hexadecimal form of the bytes,
/// two digits for each byte in order, the high four bits first.
#[verifier::external_body]
fn hex_encode(payload: &[u8]) -> (text: String)
    ensures
        text@ == hex_text(payload@),
{
    hex::encode(payload)
}

/// Two digits with the same character have the same value.
proof fn lemma_hex_digits_distinct(a: int, b: int)
    requires
        0 <= a < 16,
        0 <= b < 16,
    ensures
        hex_digits()[a] == hex_digits()[b] ==> a == b,
{
}

/// The text of a two byte payload is `c1` followed by `0` and the digit `low`
/// exactly when the bytes are `c1` and `low`.
proof fn lemma_input_report_text(payload: Seq<u8>, low: u8)
    requires
        1 <= low <= 3,
    ensures
        hex_text(payload) == seq!['c', '1', '0', hex_digits()[low as int]] <==> payload == seq![
            0xc1u8,
            low,
        ],
{
    let text = hex_text(payload);
    let key = seq!['c', '1', '0', hex_digits()[low as int]];
    let bytes = seq![0xc1u8, low];
    if text == key {
        assert(text.len() == 4);
        assert(payload.len() == 2);
        let hi0 = payload[0] as int / 16;
        let lo0 = payload[0] as int % 16;
        let hi1 = payload[1] as int / 16;
        let lo1 = payload[1] as int % 16;
        assert(text[0] == key[0] && text[1] == key[1] && text[2] == key[2] && text[3] == key[3]);
        lemma_hex_digits_distinct(hi0, 12);
        lemma_hex_digits_distinct(lo0, 1);
        lemma_hex_digits_distinct(hi1, 0);
        lemma_hex_digits_distinct(lo1, low as int);
        assert(payload =~= bytes);
    }
    if payload == bytes {
        assert(text =~= key);
    }
}

/// Reading the hexadecimal text of a payload gives the meaning of its bytes.
pub proof fn lemma_text_agrees_with_bytes(payload: Seq<u8>)
    ensures
        code_of_text(hex_text(payload)) == code_of(payload),
{
    lemma_input_report_text(payload, 1);
    lemma_input_report_text(payload, 2);
    lemma_input_report_text(payload, 3);
}

/// Looks a canonical text up in the decode table.
pub fn decode_text(text: &str) -> (code: ResponseCode)
    ensures
        code == code_of_text(text@),
{
    proof {
        reveal_strlit("c101");
        reveal_strlit("c102");
        reveal_strlit("c103");
        assert("c101"@ =~= seq!['c', '1', '0', '1']);
        assert("c102"@ =~= seq!['c', '1', '0', '2']);
        assert("c103"@ =~= seq!['c', '1', '0', '3']);
    }
    let given: String = text.to_owned();
    if given == "c101".to_owned() {
        ResponseCode::InputBluetooth
    } else if given == "c102".to_owned() {
        ResponseCode::InputAux
    } else if given == "c103".to_owned() {
        ResponseCode::InputUsb
    } else {
        ResponseCode::Unrecognized
    }
}

/// Decodes one notification payload.
///
/// The payload is turned into its canonical text and looked up in the table;
/// the result is the meaning of the bytes themselves.
pub fn decode(payload: &[u8]) -> (code: ResponseCode)
    ensures
        code == code_of(payload@),
{
    let text = hex_encode(payload);
    proof {
        lemma_text_agrees_with_bytes(payload@);
    }
    decode_text(text.as_str())
}

impl ResponseCode {
    /// The input source this code announces, if any.
    pub fn input(&self) -> (source: Option<InputSource>)
        ensures
            source == announced_input(*self),
    {
        match self {
            ResponseCode::InputBluetooth => Some(InputSource::Bluetooth),
            ResponseCode::InputAux => Some(InputSource::Aux),
            ResponseCode::InputUsb => Some(InputSource::Usb),
            ResponseCode::Unrecognized => None,
        }
    }
}

} // verus!
