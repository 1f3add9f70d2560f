//! Histories: everything that can happen to a supervisor, in sequence.
//!
//! Three things happen to a supervisor: outside work reports back, the
//! interface issues a command, the interface asks for a connection. A
//! history is a sequence of these. It exists for reasoning only.

use vstd::prelude::*;

use crate::command::Command;
use crate::supervisor::{Action, Event, SupervisorView};

verus! {

/// One thing that happens to the supervisor.
pub enum Stimulus {
    /// Outside work reports back: a call of `Supervisor::step`.
    Report(Event),
    /// The interface issues a command.
    Issue(Command),
    /// The interface asks for a connection.
    Request,
}

/// The supervisor after one stimulus.
pub open spec fn after(s: SupervisorView, stimulus: Stimulus) -> SupervisorView {
    match stimulus {
        Stimulus::Report(event) => s.step(event).0,
        Stimulus::Issue(command) => s.submitted(command),
        Stimulus::Request => s.requested(),
    }
}

/// The work the supervisor asks for in answer to one stimulus. Only a
/// report is answered with work.
pub open spec fn asked(s: SupervisorView, stimulus: Stimulus) -> Action {
    match stimulus {
        Stimulus::Report(event) => s.step(event).1,
        _ => Action::Nothing,
    }
}

/// The supervisor after the stimuli of `stimuli`, taken in order.
pub open spec fn after_all(s: SupervisorView, stimuli: Seq<Stimulus>) -> SupervisorView
    decreases stimuli.len(),
{
    if stimuli.len() == 0 {
        s
    } else {
        after(after_all(s, stimuli.drop_last()), stimuli.last())
    }
}

/// The supervisor just before the stimulus at position `at`.
pub open spec fn state_at(s: SupervisorView, stimuli: Seq<Stimulus>, at: int) -> SupervisorView {
    after_all(s, stimuli.take(at))
}

/// The work asked for in answer to the stimulus at position `at`.
pub open spec fn asked_at(s: SupervisorView, stimuli: Seq<Stimulus>, at: int) -> Action {
    asked(state_at(s, stimuli, at), stimuli[at])
}

/// The supervisor just after a stimulus is the supervisor just before it,
/// moved by that stimulus.
pub proof fn lemma_history_unfolds(s: SupervisorView, stimuli: Seq<Stimulus>, at: int)
    requires
        0 <= at < stimuli.len(),
    ensures
        state_at(s, stimuli, at + 1) == after(state_at(s, stimuli, at), stimuli[at]),
{
    assert(stimuli.take(at + 1).drop_last() =~= stimuli.take(at));
    assert(stimuli.take(at + 1).last() == stimuli[at]);
}

} // verus!
