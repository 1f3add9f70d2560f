//! The initialization sequence the dock expects before it takes commands.
//!
//! Two frames are written to the command characteristic, `INITIATE` and then
//! `ACKNOWLEDGE`, each followed by a settle interval. The dock gives no
//! answer that could be waited for, so the sequence is paced by time alone.

use vstd::prelude::*;

use crate::command::Command;

verus! {

/// Opcode of both handshake frames.
pub const OPCODE_HANDSHAKE: u8 = 0x84;

/// How long to wait after each handshake frame, in milliseconds.
pub const SETTLE_MS: u64 = 200;

/// The `INITIATE` frame, `84 05`.
pub open spec fn initiate_frame() -> Command {
    Command { opcode: 0x84, arg: 0x05 }
}

/// The `ACKNOWLEDGE` frame, `84 00`.
pub open spec fn acknowledge_frame() -> Command {
    Command { opcode: 0x84, arg: 0x00 }
}

/// Where the handshake stands.
#[derive(Clone, Copy, Debug, PartialEq, Eq, Structural)]
pub enum HandshakeStep {
    /// `INITIATE` is being written.
    WritingInitiate,
    /// `INITIATE` is written; the settle interval runs.
    SettlingInitiate,
    /// `ACKNOWLEDGE` is being written.
    WritingAcknowledge,
    /// `ACKNOWLEDGE` is written; the settle interval runs.
    SettlingAcknowledge,
}

/// The first frame of the handshake.
pub fn initiate() -> (frame: Command)
    ensures
        frame == initiate_frame(),
{
    Command { opcode: OPCODE_HANDSHAKE, arg: 0x05 }
}

/// The second frame of the handshake.
pub fn acknowledge() -> (frame: Command)
    ensures
        frame == acknowledge_frame(),
{
    Command { opcode: OPCODE_HANDSHAKE, arg: 0x00 }
}

} // verus!
