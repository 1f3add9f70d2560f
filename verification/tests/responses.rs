use z407_puck::command::InputSource;
use z407_puck::response::{decode, decode_text, ResponseCode};
use z407_puck::state::SharedState;

#[test]
fn decode_input_reports() {
    assert_eq!(decode(&[0xc1, 0x01]), ResponseCode::InputBluetooth);
    assert_eq!(decode(&[0xc1, 0x02]), ResponseCode::InputAux);
    assert_eq!(decode(&[0xc1, 0x03]), ResponseCode::InputUsb);
}

#[test]
fn decode_goes_by_the_hex_text() {
    // The text of these bytes is "c103" only if each byte becomes two
    // lower-case digits, high half first.
    assert_eq!(decode(&[0xc1, 0x03]), decode_text("c103"));
    assert_eq!(decode_text(&hex::encode([0xc1u8, 0x03])), ResponseCode::InputUsb);
    assert_eq!(decode(&[0x1c, 0x30]), ResponseCode::Unrecognized);
    assert_eq!(decode(&[0x0c, 0x10, 0x03]), ResponseCode::Unrecognized);
}

#[test]
fn decode_other_payloads() {
    assert_eq!(decode(&[]), ResponseCode::Unrecognized);
    assert_eq!(decode(&[0xc1]), ResponseCode::Unrecognized);
    assert_eq!(decode(&[0xc1, 0x00]), ResponseCode::Unrecognized);
    assert_eq!(decode(&[0xc1, 0x04]), ResponseCode::Unrecognized);
    assert_eq!(decode(&[0xc0, 0x01]), ResponseCode::Unrecognized);
    assert_eq!(decode(&[0xc1, 0x01, 0x00]), ResponseCode::Unrecognized);
    assert_eq!(decode(&[0x84, 0x05]), ResponseCode::Unrecognized);
}

#[test]
fn decode_is_total_over_two_byte_payloads() {
    for a in 0..=255u8 {
        for b in 0..=255u8 {
            let expected = match (a, b) {
                (0xc1, 0x01) => ResponseCode::InputBluetooth,
                (0xc1, 0x02) => ResponseCode::InputAux,
                (0xc1, 0x03) => ResponseCode::InputUsb,
                _ => ResponseCode::Unrecognized,
            };
            assert_eq!(decode(&[a, b]), expected);
        }
    }
}

#[test]
fn decode_text_table() {
    assert_eq!(decode_text("c101"), ResponseCode::InputBluetooth);
    assert_eq!(decode_text("c102"), ResponseCode::InputAux);
    assert_eq!(decode_text("c103"), ResponseCode::InputUsb);
    assert_eq!(decode_text("C103"), ResponseCode::Unrecognized);
    assert_eq!(decode_text("c1 03"), ResponseCode::Unrecognized);
    assert_eq!(decode_text("c1030"), ResponseCode::Unrecognized);
    assert_eq!(decode_text(""), ResponseCode::Unrecognized);
}

#[test]
fn code_to_input() {
    assert_eq!(ResponseCode::InputBluetooth.input(), Some(InputSource::Bluetooth));
    assert_eq!(ResponseCode::InputAux.input(), Some(InputSource::Aux));
    assert_eq!(ResponseCode::InputUsb.input(), Some(InputSource::Usb));
    assert_eq!(ResponseCode::Unrecognized.input(), None);
}

#[test]
fn shared_state_starts_disconnected() {
    let state = SharedState::new();
    assert!(!state.connected);
    assert!(!state.connect_requested);
    assert_eq!(state.current_input, InputSource::Unknown);
}

#[test]
fn apply_response_sets_only_the_input() {
    let mut state = SharedState::new();
    state.connected = true;
    state.connect_requested = true;
    state.apply_response(ResponseCode::InputUsb);
    assert_eq!(
        state,
        SharedState { connected: true, current_input: InputSource::Usb, connect_requested: true }
    );
    state.apply_response(ResponseCode::Unrecognized);
    assert_eq!(state.current_input, InputSource::Usb);
}

#[test]
fn apply_response_is_idempotent() {
    for code in [
        ResponseCode::InputBluetooth,
        ResponseCode::InputAux,
        ResponseCode::InputUsb,
        ResponseCode::Unrecognized,
    ] {
        let mut once = SharedState::new();
        once.apply_response(code);
        let mut twice = once;
        twice.apply_response(code);
        assert_eq!(once, twice);
    }
}

#[test]
fn last_report_wins() {
    let mut state = SharedState::new();
    for payload in [[0xc1u8, 0x02], [0x00, 0x00], [0xc1, 0x03], [0xc1, 0x03], [0xff, 0xff]] {
        state.apply_response(decode(&payload));
    }
    assert_eq!(state.current_input, InputSource::Usb);

    let mut other = SharedState::new();
    for payload in [[0xc1u8, 0x03], [0xc1, 0x02], [0xc1, 0x03]] {
        other.apply_response(decode(&payload));
    }
    assert_eq!(other, state);
}
