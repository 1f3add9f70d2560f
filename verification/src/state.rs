//! The state published to the user interface.

use vstd::prelude::*;

use crate::command::InputSource;
use crate::response::{announced_input, ResponseCode};

verus! {

/// What the user interface may know of the session.
///
/// The supervisor is its only writer; the interface reads copies of it and
/// asks for a connection through the supervisor.
#[derive(Clone, Copy, Debug, PartialEq, Eq, Structural)]
pub struct SharedState {
    /// The handshake has completed and the link is up.
    pub connected: bool,
    /// The input source the dock last reported.
    pub current_input: InputSource,
    /// The interface has asked for a connection.
    pub connect_requested: bool,
}

impl SharedState {
    /// The state at start-up: not connected, nothing asked, source unknown.
    pub open spec fn initial() -> SharedState {
        SharedState {
            connected: false,
            current_input: InputSource::Unknown,
            connect_requested: false,
        }
    }

    /// The state after a response with meaning `code` has been read.
    pub open spec fn with_response(self, code: ResponseCode) -> SharedState {
        match announced_input(code) {
            Some(source) => SharedState { current_input: source, ..self },
            None => self,
        }
    }

    /// The state after the payloads' meanings `codes` have been read in order.
    pub open spec fn with_responses(self, codes: Seq<ResponseCode>) -> SharedState
        decreases codes.len(),
    {
        if codes.len() == 0 {
            self
        } else {
            self.with_responses(codes.drop_last()).with_response(codes.last())
        }
    }

    /// The start-up state.
    pub fn new() -> (state: SharedState)
        ensures
            state == SharedState::initial(),
    {
        SharedState {
            connected: false,
            current_input: InputSource::Unknown,
            connect_requested: false,
        }
    }

    /// Takes in one decoded response.
    ///
    /// A code that announces an input source sets `current_input`; any other
    /// leaves the state as it is. Nothing else changes.
    pub fn apply_response(&mut self, code: ResponseCode)
        ensures
            *final(self) == old(self).with_response(code),
    {
        match code.input() {
            Some(source) => {
                self.current_input = source;
            },
            None => {},
        }
    }
}

/// Reading the same response twice leaves the state as after reading it once.
pub proof fn lemma_response_idempotent(state: SharedState, code: ResponseCode)
    ensures
        state.with_response(code).with_response(code) == state.with_response(code),
{
}

/// A response touches `current_input` alone.
pub proof fn lemma_response_keeps_link(state: SharedState, code: ResponseCode)
    ensures
        state.with_response(code).connected == state.connected,
        state.with_response(code).connect_requested == state.connect_requested,
{
}

/// The position of the last code in `codes` that announces an input source.
pub open spec fn last_report(codes: Seq<ResponseCode>) -> Option<int>
    decreases codes.len(),
{
    if codes.len() == 0 {
        None
    } else if announced_input(codes.last()).is_some() {
        Some(codes.len() - 1)
    } else {
        last_report(codes.drop_last())
    }
}

/// After any run of responses the state shows the source of the last one
/// that announced a source, or is unchanged if none did. Which responses came
/// before it, how often and in what order, makes no difference.
pub proof fn lemma_last_report_wins(state: SharedState, codes: Seq<ResponseCode>)
    ensures
        state.with_responses(codes).connected == state.connected,
        state.with_responses(codes).connect_requested == state.connect_requested,
        match last_report(codes) {
            Some(at) => 0 <= at < codes.len() && Some(state.with_responses(codes).current_input)
                == announced_input(codes[at]),
            None => state.with_responses(codes) == state,
        },
    decreases codes.len(),
{
    if codes.len() > 0 {
        lemma_last_report_wins(state, codes.drop_last());
    }
}

/// Two runs of responses that end with the same announcement leave the same
/// state, whatever came before it in either run: responses that arrive
/// repeated or out of order do no harm.
pub proof fn lemma_earlier_responses_do_not_matter(
    state: SharedState,
    earlier: Seq<ResponseCode>,
    other: Seq<ResponseCode>,
    last: ResponseCode,
)
    requires
        announced_input(last).is_some(),
    ensures
        state.with_responses(earlier.push(last)) == state.with_responses(other.push(last)),
{
    lemma_last_report_wins(state, earlier);
    lemma_last_report_wins(state, other);
    assert(earlier.push(last).drop_last() =~= earlier);
    assert(other.push(last).drop_last() =~= other);
}

} // verus!
