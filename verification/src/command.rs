//! Command frames understood by the dock.
//!
//! Every user action becomes one two byte frame: an opcode and an argument.
//! The constructors below are the dock's command table.

use vstd::prelude::*;

verus! {

/// Opcode of the level and transport controls.
pub const OPCODE_CONTROL: u8 = 0x80;

/// Opcode of the input source switch.
pub const OPCODE_INPUT: u8 = 0x81;

/// Opcode that puts the dock into pairing mode.
pub const OPCODE_PAIRING: u8 = 0x82;

/// Opcode of the factory reset.
pub const OPCODE_RESET: u8 = 0x83;

/// Audio source the dock plays from.
#[derive(Clone, Copy, Debug, PartialEq, Eq, Structural)]
pub enum InputSource {
    Bluetooth,
    Aux,
    Usb,
    Unknown,
}

/// A two byte frame written to the command characteristic.
#[derive(Clone, Copy, Debug, PartialEq, Eq, Structural)]
pub struct Command {
    pub opcode: u8,
    pub arg: u8,
}

/// The frame that selects `source`, if the dock has one for it.
pub open spec fn switch_frame(source: InputSource) -> Option<Command> {
    match source {
        InputSource::Bluetooth => Some(Command { opcode: OPCODE_INPUT, arg: 0x01 }),
        InputSource::Aux => Some(Command { opcode: OPCODE_INPUT, arg: 0x02 }),
        InputSource::Usb => Some(Command { opcode: OPCODE_INPUT, arg: 0x03 }),
        InputSource::Unknown => None,
    }
}

impl Command {
    /// The bytes that go over the air: the opcode, then the argument.
    pub open spec fn wire(self) -> Seq<u8> {
        seq![self.opcode, self.arg]
    }

    /// True for the twelve frames of the dock's command table.
    pub open spec fn in_table(self) -> bool {
        ||| self.opcode == OPCODE_CONTROL && self.arg <= 6
        ||| self.opcode == OPCODE_INPUT && 1 <= self.arg <= 3
        ||| self.opcode == OPCODE_PAIRING && self.arg == 0
        ||| self.opcode == OPCODE_RESET && self.arg == 0
    }

    /// A frame from its two bytes.
    pub fn new(opcode: u8, arg: u8) -> (cmd: Command)
        ensures
            cmd == (Command { opcode, arg }),
    {
        Command { opcode, arg }
    }

    /// The frame as it is written to the characteristic.
    pub fn frame(&self) -> (bytes: [u8; 2])
        ensures
            bytes@ == self.wire(),
    {
        let bytes: [u8; 2] = [self.opcode, self.arg];
        assert(bytes@ =~= self.wire());
        bytes
    }

    /// Whether the frame is one of the command table.
    pub fn is_known(&self) -> (known: bool)
        ensures
            known == self.in_table(),
    {
        (self.opcode == OPCODE_CONTROL && self.arg <= 6)
            || (self.opcode == OPCODE_INPUT && 1 <= self.arg && self.arg <= 3)
            || (self.opcode == OPCODE_PAIRING && self.arg == 0)
            || (self.opcode == OPCODE_RESET && self.arg == 0)
    }

    /// Bass up: `80 00`.
    pub fn bass_up() -> (cmd: Command)
        ensures
            cmd == (Command { opcode: 0x80, arg: 0x00 }),
    {
        Command { opcode: OPCODE_CONTROL, arg: 0x00 }
    }

    /// Bass down: `80 01`.
    pub fn bass_down() -> (cmd: Command)
        ensures
            cmd == (Command { opcode: 0x80, arg: 0x01 }),
    {
        Command { opcode: OPCODE_CONTROL, arg: 0x01 }
    }

    /// Volume up: `80 02`.
    pub fn volume_up() -> (cmd: Command)
        ensures
            cmd == (Command { opcode: 0x80, arg: 0x02 }),
    {
        Command { opcode: OPCODE_CONTROL, arg: 0x02 }
    }

    /// Volume down: `80 03`.
    pub fn volume_down() -> (cmd: Command)
        ensures
            cmd == (Command { opcode: 0x80, arg: 0x03 }),
    {
        Command { opcode: OPCODE_CONTROL, arg: 0x03 }
    }

    /// Play or pause: `80 04`.
    pub fn play_pause() -> (cmd: Command)
        ensures
            cmd == (Command { opcode: 0x80, arg: 0x04 }),
    {
        Command { opcode: OPCODE_CONTROL, arg: 0x04 }
    }

    /// Next track: `80 05`.
    pub fn next_track() -> (cmd: Command)
        ensures
            cmd == (Command { opcode: 0x80, arg: 0x05 }),
    {
        Command { opcode: OPCODE_CONTROL, arg: 0x05 }
    }

    /// Previous track: `80 06`.
    pub fn prev_track() -> (cmd: Command)
        ensures
            cmd == (Command { opcode: 0x80, arg: 0x06 }),
    {
        Command { opcode: OPCODE_CONTROL, arg: 0x06 }
    }

    /// Switch to the Bluetooth input: `81 01`.
    pub fn switch_bluetooth() -> (cmd: Command)
        ensures
            cmd == (Command { opcode: 0x81, arg: 0x01 }),
    {
        Command { opcode: OPCODE_INPUT, arg: 0x01 }
    }

    /// Switch to the AUX input: `81 02`.
    pub fn switch_aux() -> (cmd: Command)
        ensures
            cmd == (Command { opcode: 0x81, arg: 0x02 }),
    {
        Command { opcode: OPCODE_INPUT, arg: 0x02 }
    }

    /// Switch to the USB input: `81 03`.
    pub fn switch_usb() -> (cmd: Command)
        ensures
            cmd == (Command { opcode: 0x81, arg: 0x03 }),
    {
        Command { opcode: OPCODE_INPUT, arg: 0x03 }
    }

    /// The frame that switches to `source`; there is none for an unknown source.
    pub fn switch_input(source: InputSource) -> (cmd: Option<Command>)
        ensures
            cmd == switch_frame(source),
    {
        match source {
            InputSource::Bluetooth => Some(Command::switch_bluetooth()),
            InputSource::Aux => Some(Command::switch_aux()),
            InputSource::Usb => Some(Command::switch_usb()),
            InputSource::Unknown => None,
        }
    }

    /// Enter pairing mode: `82 00`.
    pub fn pairing() -> (cmd: Command)
        ensures
            cmd == (Command { opcode: 0x82, arg: 0x00 }),
    {
        Command { opcode: OPCODE_PAIRING, arg: 0x00 }
    }

    /// Factory reset: `83 00`.
    pub fn factory_reset() -> (cmd: Command)
        ensures
            cmd == (Command { opcode: 0x83, arg: 0x00 }),
    {
        Command { opcode: OPCODE_RESET, arg: 0x00 }
    }
}

} // verus!
