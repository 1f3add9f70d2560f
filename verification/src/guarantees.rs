//! What holds of every session.
//!
//! The first part speaks of single steps of the supervisor, the second of
//! whole histories: any sequence of reports, commands and connect requests.

use vstd::prelude::*;

use crate::command::{Command, InputSource};
use crate::discovery::SCAN_TIMEOUT_MS;
use crate::error::SessionError;
use crate::handshake::{acknowledge_frame, initiate_frame, HandshakeStep, SETTLE_MS};
use crate::profile::ServiceEndpoints;
use crate::response::code_of;
use crate::history::{after, after_all, asked_at, state_at, lemma_history_unfolds, Stimulus};
use crate::supervisor::{
    lemma_step_keeps_wf,
    Action,
    ActiveStep,
    ConnectStep,
    Event,
    ScanStep,
    SessionState,
    SupervisorView,
    POLL_INTERVAL_MS,
};

verus! {

/// A command issued while disconnected is discarded: the supervisor is as
/// it was, with nothing queued for a later write.
pub proof fn lemma_disconnected_command_is_discarded(s: SupervisorView, command: Command)
    requires
        s.wf(),
        !s.shared.connected,
    ensures
        s.submitted(command) == s,
        s.submitted(command).pending.len() == 0,
{
}

/// While disconnected the only frames ever written are the two of the
/// handshake, and only during the handshake: no command reaches the dock.
pub proof fn lemma_no_command_write_while_disconnected(s: SupervisorView, event: Event)
    requires
        s.wf(),
        !s.shared.connected,
    ensures
        s.step(event).1 matches Action::Write { frame, .. } ==> {
            &&& frame == initiate_frame() || frame == acknowledge_frame()
            &&& s.step(event).0.state is Handshaking
        },
{
}

/// Every frame the supervisor asks to be written is accounted for: in an
/// active session it is the oldest queued command, a frame of the command
/// table; at any other time it is one of the two handshake frames.
pub proof fn lemma_written_frames_are_known(s: SupervisorView, event: Event)
    requires
        s.wf(),
    ensures
        s.step(event).1 matches Action::Write { frame, .. } ==> (if s.state is Active {
            &&& s.pending.len() > 0
            &&& frame == s.pending[0]
            &&& frame.in_table()
        } else {
            frame == initiate_frame() || frame == acknowledge_frame()
        }),
{
}

/// Asking for a connection changes the request flag and nothing else.
pub proof fn lemma_request_touches_only_the_flag(s: SupervisorView)
    ensures
        s.requested().shared.connect_requested,
        s.requested().shared.connected == s.shared.connected,
        s.requested().shared.current_input == s.shared.current_input,
        s.requested().state == s.state,
        s.requested().pending == s.pending,
        s.requested().last_error == s.last_error,
{
}

/// A notification changes at most the reported input source, and only in an
/// active session, as the decode table says. It asks for no work.
pub proof fn lemma_notification_sets_input_only(s: SupervisorView, event: Event)
    requires
        event is Notification,
    ensures
        s.step(event).1 == Action::Nothing,
        s.step(event).0 == (if s.state is Active {
            SupervisorView {
                shared: s.shared.with_response(code_of(event->payload@)),
                ..s
            }
        } else {
            s
        }),
{
}

/// The same notification a second time changes nothing more.
pub proof fn lemma_notification_idempotent(s: SupervisorView, event: Event)
    requires
        event is Notification,
    ensures
        s.step(event).0.step(event).0 == s.step(event).0,
{
}

/// A scan is opened with the full time limit.
pub proof fn lemma_scan_opens_with_limit(s: SupervisorView, event: Event)
    ensures
        s.step(event).1 matches Action::StartScan { service, within_ms } ==> {
            &&& within_ms == SCAN_TIMEOUT_MS
            &&& s.state == SessionState::Scanning(ScanStep::Acquiring)
            &&& s.step(event).0.state == SessionState::Scanning(ScanStep::Listening)
        },
{
}

/// A scan never outlives its time limit. Whatever comes in while listening,
/// the scan is told to wait on only within what is left of the limit; an
/// advertisement past the limit, or the expiry itself, ends the session with
/// `DeviceNotFound`; and the scan is left only for `Connecting` or `Idle`.
pub proof fn lemma_scan_ends_within_limit(s: SupervisorView, event: Event)
    requires
        s.state == SessionState::Scanning(ScanStep::Listening),
    ensures
        s.step(event).1 matches Action::ContinueScan { within_ms } ==> {
            &&& event is Advertisement
            &&& event->elapsed_ms + within_ms == SCAN_TIMEOUT_MS
            &&& s.step(event).0 == s
        },
        event matches Event::Advertisement { elapsed_ms, .. } && elapsed_ms > SCAN_TIMEOUT_MS
            ==> s.step(event) == s.ended(Some(SessionError::DeviceNotFound)),
        event is ScanExpired ==> s.step(event) == s.ended(Some(SessionError::DeviceNotFound)),
        s.step(event).0.state != s.state ==> {
            ||| s.step(event).0.state == SessionState::Connecting(ConnectStep::Linking)
            ||| s.step(event).0.state == SessionState::Idle
        },
{
}

/// The order of the handshake.
///
/// During a handshake the only frame written is `ACKNOWLEDGE`, and only in
/// answer to a settle pause of full length after `INITIATE`. That pause is
/// begun only when the write of `INITIATE` is reported done, and a handshake
/// is begun only by writing `INITIATE`.
pub proof fn lemma_handshake_order(s: SupervisorView, event: Event, endpoints: ServiceEndpoints)
    ensures
        s.state is Handshaking ==> (s.step(event).1 matches Action::Write {
            characteristic,
            frame,
        } ==> {
            &&& frame == acknowledge_frame()
            &&& s.state matches SessionState::Handshaking(HandshakeStep::SettlingInitiate, at)
            &&& characteristic == at.command_characteristic
            &&& event matches Event::Elapsed { ms }
            &&& ms >= SETTLE_MS
        }),
        s.step(event).0.state == SessionState::Handshaking(
            HandshakeStep::SettlingInitiate,
            endpoints,
        ) && s.state != s.step(event).0.state ==> {
            &&& s.state == SessionState::Handshaking(HandshakeStep::WritingInitiate, endpoints)
            &&& event is WriteDone
            &&& s.step(event).1 == Action::Sleep { ms: SETTLE_MS }
        },
        s.step(event).0.state == SessionState::Handshaking(
            HandshakeStep::WritingInitiate,
            endpoints,
        ) && s.state != s.step(event).0.state ==> {
            &&& s.state == SessionState::Connecting(ConnectStep::DiscoveringCharacteristics)
            &&& s.step(event).1 == Action::Write {
                characteristic: endpoints.command_characteristic,
                frame: initiate_frame(),
            }
        },
{
}

/// A handshake in which both writes go through: the work asked for is, in
/// order, the first settle pause, the write of `ACKNOWLEDGE`, the second
/// settle pause and the subscription; the session is then active, connected
/// and playing from Bluetooth.
pub proof fn lemma_handshake_completes(
    s: SupervisorView,
    endpoints: ServiceEndpoints,
    first_pause: Event,
    second_pause: Event,
)
    requires
        s.wf(),
        s.state == SessionState::Handshaking(HandshakeStep::WritingInitiate, endpoints),
        first_pause matches Event::Elapsed { ms } && ms >= SETTLE_MS,
        second_pause matches Event::Elapsed { ms } && ms >= SETTLE_MS,
    ensures
        ({
            let (s1, a1) = s.step(Event::WriteDone);
            let (s2, a2) = s1.step(first_pause);
            let (s3, a3) = s2.step(Event::WriteDone);
            let (s4, a4) = s3.step(second_pause);
            &&& a1 == Action::Sleep { ms: SETTLE_MS }
            &&& a2 == Action::Write {
                characteristic: endpoints.command_characteristic,
                frame: acknowledge_frame(),
            }
            &&& a3 == Action::Sleep { ms: SETTLE_MS }
            &&& a4 == Action::Subscribe { characteristic: endpoints.response_characteristic }
            &&& s4.state == SessionState::Active(ActiveStep::Subscribing, endpoints)
            &&& s4.shared.connected
            &&& s4.shared.current_input == InputSource::Bluetooth
        }),
{
}

/// The session becomes connected in one way only: the second settle pause of
/// the handshake has run its full length.
pub proof fn lemma_connected_only_by_handshake(s: SupervisorView, event: Event)
    requires
        s.wf(),
        !s.shared.connected,
        s.step(event).0.shared.connected,
    ensures
        s.state matches SessionState::Handshaking(HandshakeStep::SettlingAcknowledge, _),
        event matches Event::Elapsed { ms } && ms >= SETTLE_MS,
        s.step(event).0.shared.current_input == InputSource::Bluetooth,
{
}

/// A failed write in an active session ends it: `connected` goes from true
/// to false, the queue is dropped, the supervisor is idle with no connect
/// request pending, and the cause is `WriteFailure`.
pub proof fn lemma_write_failure_disconnects(s: SupervisorView)
    requires
        s.wf(),
        s.state is Active,
    ensures
        s.shared.connected,
        s.step(Event::WriteFailed) == s.ended(Some(SessionError::WriteFailure)),
        !s.step(Event::WriteFailed).0.shared.connected,
        !s.step(Event::WriteFailed).0.shared.connect_requested,
        s.step(Event::WriteFailed).0.state == SessionState::Idle,
        s.step(Event::WriteFailed).0.pending.len() == 0,
        s.step(Event::WriteFailed).1 == Action::EndSession,
{
}

/// Fatal errors end sessions and no other error does. An error recorded by
/// a step that ends the session is fatal; an error recorded by a step that
/// does not is the failed notification setup, and the session stays active.
pub proof fn lemma_fatal_errors_end_sessions(s: SupervisorView, event: Event)
    requires
        s.wf(),
        s.step(event).0.last_error != s.last_error,
    ensures
        s.step(event).0.last_error matches Some(error) ==> {
            &&& error.fatal() <==> s.step(event).1 == Action::EndSession
            &&& !error.fatal() ==> s.step(event).0.state is Active && s.step(
                event,
            ).0.shared.connected
        },
{
}

/// Whenever a session ends, for whatever reason, the supervisor is idle and
/// disconnected and the connect request is cleared.
pub proof fn lemma_session_end_clears_request(s: SupervisorView, event: Event)
    requires
        s.wf(),
        s.step(event).1 == Action::EndSession,
    ensures
        s.step(event).0.state == SessionState::Idle,
        !s.step(event).0.shared.connected,
        !s.step(event).0.shared.connect_requested,
        s.step(event).0.pending.len() == 0,
        !(s.state is Idle),
{
}

/// Every command the stimuli issue is a frame of the command table, as
/// every command the interface can issue is.
pub open spec fn issues_table_commands(stimuli: Seq<Stimulus>) -> bool {
    forall|k: int|
        0 <= k < stimuli.len() ==> (#[trigger] stimuli[k] matches Stimulus::Issue(command)
            ==> command.in_table())
}

/// No stimulus is a connect request.
pub open spec fn without_request(stimuli: Seq<Stimulus>) -> bool {
    forall|k: int| 0 <= k < stimuli.len() ==> !(#[trigger] stimuli[k] is Request)
}

/// A history that issues table commands did so up to its last stimulus, and
/// does so with its last.
proof fn lemma_earlier_issue_table_commands(stimuli: Seq<Stimulus>)
    requires
        issues_table_commands(stimuli),
        stimuli.len() > 0,
    ensures
        issues_table_commands(stimuli.drop_last()),
        stimuli.last() matches Stimulus::Issue(command) ==> command.in_table(),
{
    let earlier = stimuli.drop_last();
    assert forall|k: int| 0 <= k < earlier.len() implies (#[trigger] earlier[k]
        matches Stimulus::Issue(command) ==> command.in_table()) by {
        assert(earlier[k] == stimuli[k]);
    }
    assert(stimuli[stimuli.len() - 1] == stimuli.last());
}

/// Every history keeps the supervisor well formed.
pub proof fn lemma_history_keeps_wf(s: SupervisorView, stimuli: Seq<Stimulus>)
    requires
        s.wf(),
        issues_table_commands(stimuli),
    ensures
        after_all(s, stimuli).wf(),
    decreases stimuli.len(),
{
    if stimuli.len() > 0 {
        let earlier = stimuli.drop_last();
        lemma_earlier_issue_table_commands(stimuli);
        lemma_history_keeps_wf(s, earlier);
        match stimuli.last() {
            Stimulus::Report(event) => {
                lemma_step_keeps_wf(after_all(s, earlier), event);
            },
            _ => {},
        }
    }
}

/// An idle supervisor without a connect request stays exactly as it is,
/// whatever is reported to it and whatever commands are issued, for however
/// long: it never reconnects by itself, no frame is written, and the work it
/// asks for is at most another pause. Only a connect request moves it.
pub proof fn lemma_idle_stays_idle(s: SupervisorView, stimuli: Seq<Stimulus>)
    requires
        s.wf(),
        s.state is Idle,
        !s.shared.connect_requested,
        without_request(stimuli),
    ensures
        after_all(s, stimuli) == s,
        forall|at: int|
            0 <= at < stimuli.len() ==> {
                ||| #[trigger] asked_at(s, stimuli, at) == Action::Nothing
                ||| asked_at(s, stimuli, at) == Action::Sleep { ms: POLL_INTERVAL_MS }
            },
    decreases stimuli.len(),
{
    if stimuli.len() > 0 {
        let earlier = stimuli.drop_last();
        assert forall|k: int| 0 <= k < earlier.len() implies !(#[trigger] earlier[k]
            is Request) by {
            assert(earlier[k] == stimuli[k]);
        }
        lemma_idle_stays_idle(s, earlier);
        assert(stimuli[stimuli.len() - 1] == stimuli.last());
        assert forall|at: int| 0 <= at < stimuli.len() implies {
            ||| #[trigger] asked_at(s, stimuli, at) == Action::Nothing
            ||| asked_at(s, stimuli, at) == Action::Sleep { ms: POLL_INTERVAL_MS }
        } by {
            if at < earlier.len() {
                assert(stimuli.take(at) =~= earlier.take(at));
                assert(asked_at(s, stimuli, at) == asked_at(s, earlier, at));
            } else {
                assert(stimuli.take(at) =~= earlier);
            }
        }
    }
}

/// A failed write in an active session disconnects it once and for all:
/// through any history that follows, until a connection is asked for again,
/// the supervisor stays idle and disconnected, and commands are discarded.
pub proof fn lemma_disconnected_after_write_failure(s: SupervisorView, stimuli: Seq<Stimulus>)
    requires
        s.wf(),
        s.state is Active,
        without_request(stimuli),
    ensures
        s.shared.connected,
        !s.step(Event::WriteFailed).0.shared.connected,
        after_all(s.step(Event::WriteFailed).0, stimuli) == s.step(Event::WriteFailed).0,
{
    lemma_step_keeps_wf(s, Event::WriteFailed);
    lemma_idle_stays_idle(s.step(Event::WriteFailed).0, stimuli);
}

/// Before position `upto` of the history, `INITIATE` was asked to be written
/// to the command characteristic of `endpoints`.
pub open spec fn initiate_asked(
    s: SupervisorView,
    stimuli: Seq<Stimulus>,
    upto: int,
    endpoints: ServiceEndpoints,
) -> bool {
    exists|i: int|
        0 <= i < upto && #[trigger] asked_at(s, stimuli, i) == (Action::Write {
            characteristic: endpoints.command_characteristic,
            frame: initiate_frame(),
        })
}

/// Before position `upto` of the history, `INITIATE` was asked to be
/// written, and later its write was reported done and answered with a
/// settle pause.
pub open spec fn initiate_settling(
    s: SupervisorView,
    stimuli: Seq<Stimulus>,
    upto: int,
    endpoints: ServiceEndpoints,
) -> bool {
    exists|i: int, m: int|
        0 <= i < m < upto && #[trigger] asked_at(s, stimuli, i) == (Action::Write {
            characteristic: endpoints.command_characteristic,
            frame: initiate_frame(),
        }) && stimuli[m] == Stimulus::Report(Event::WriteDone) && #[trigger] asked_at(
            s,
            stimuli,
            m,
        ) == (Action::Sleep { ms: SETTLE_MS })
}

/// What the handshake states of a history know of its past.
proof fn lemma_handshake_history(
    s: SupervisorView,
    stimuli: Seq<Stimulus>,
    n: int,
    endpoints: ServiceEndpoints,
)
    requires
        !(s.state is Handshaking),
        0 <= n <= stimuli.len(),
    ensures
        state_at(s, stimuli, n).state == SessionState::Handshaking(
            HandshakeStep::WritingInitiate,
            endpoints,
        ) ==> initiate_asked(s, stimuli, n, endpoints),
        state_at(s, stimuli, n).state == SessionState::Handshaking(
            HandshakeStep::SettlingInitiate,
            endpoints,
        ) ==> initiate_settling(s, stimuli, n, endpoints),
    decreases n,
{
    if n == 0 {
        assert(stimuli.take(0).len() == 0);
    } else {
        let before = state_at(s, stimuli, n - 1);
        let now = state_at(s, stimuli, n);
        lemma_handshake_history(s, stimuli, n - 1, endpoints);
        lemma_history_unfolds(s, stimuli, n - 1);
        match stimuli[n - 1] {
            Stimulus::Report(event) => {
                lemma_handshake_order(before, event, endpoints);
            },
            _ => {
                assert(now.state == before.state);
            },
        }
        if now.state == SessionState::Handshaking(HandshakeStep::WritingInitiate, endpoints) {
            if before.state == now.state {
                let i = choose|i: int|
                    0 <= i < n - 1 && #[trigger] asked_at(s, stimuli, i) == (Action::Write {
                        characteristic: endpoints.command_characteristic,
                        frame: initiate_frame(),
                    });
                assert(0 <= i < n);
            } else {
                assert(asked_at(s, stimuli, n - 1) == Action::Write {
                    characteristic: endpoints.command_characteristic,
                    frame: initiate_frame(),
                });
            }
        }
        if now.state == SessionState::Handshaking(HandshakeStep::SettlingInitiate, endpoints) {
            if before.state == now.state {
                let (i, m) = choose|i: int, m: int|
                    0 <= i < m < n - 1 && #[trigger] asked_at(s, stimuli, i) == (Action::Write {
                        characteristic: endpoints.command_characteristic,
                        frame: initiate_frame(),
                    }) && stimuli[m] == Stimulus::Report(Event::WriteDone) && #[trigger] asked_at(
                        s,
                        stimuli,
                        m,
                    ) == (Action::Sleep { ms: SETTLE_MS });
                assert(0 <= i < m < n);
            } else {
                let i = choose|i: int|
                    0 <= i < n - 1 && #[trigger] asked_at(s, stimuli, i) == (Action::Write {
                        characteristic: endpoints.command_characteristic,
                        frame: initiate_frame(),
                    });
                assert(asked_at(s, stimuli, n - 1) == Action::Sleep { ms: SETTLE_MS });
                assert(stimuli[n - 1] == Stimulus::Report(Event::WriteDone));
                assert(0 <= i < n - 1 < n);
            }
        }
    }
}

/// `INITIATE` comes strictly before `ACKNOWLEDGE`, with a settle interval
/// between.
///
/// Take any history that does not begin in the middle of a handshake.
/// Wherever in it a frame is written during a handshake, the frame is
/// `ACKNOWLEDGE`, what led to it is the report of a pause of at least the
/// settle interval, and earlier in the history `INITIATE` was asked to be
/// written to the same characteristic, its write was reported done, and the
/// settle pause was asked for in answer.
pub proof fn lemma_acknowledge_follows_initiate(
    s: SupervisorView,
    stimuli: Seq<Stimulus>,
    at: int,
)
    requires
        !(s.state is Handshaking),
        0 <= at < stimuli.len(),
        state_at(s, stimuli, at).state is Handshaking,
        asked_at(s, stimuli, at) is Write,
    ensures
        state_at(s, stimuli, at).state matches SessionState::Handshaking(_, endpoints) && {
            &&& asked_at(s, stimuli, at) == Action::Write {
                characteristic: endpoints.command_characteristic,
                frame: acknowledge_frame(),
            }
            &&& stimuli[at] matches Stimulus::Report(Event::Elapsed { ms })
            &&& ms >= SETTLE_MS
            &&& initiate_settling(s, stimuli, at, endpoints)
        },
{
    let before = state_at(s, stimuli, at);
    let endpoints = before.state->Handshaking_1;
    match stimuli[at] {
        Stimulus::Report(event) => {
            lemma_handshake_order(before, event, endpoints);
        },
        _ => {},
    }
    lemma_handshake_history(s, stimuli, at, endpoints);
}

/// The session is active before, between and after the stimuli.
pub open spec fn stays_active(s: SupervisorView, stimuli: Seq<Stimulus>) -> bool {
    forall|k: int| 0 <= k <= stimuli.len() ==> (#[trigger] state_at(s, stimuli, k)).state is Active
}

/// The command frame that one stimulus causes to be written, if any.
pub open spec fn written_by(s: SupervisorView, stimulus: Stimulus) -> Seq<Command> {
    match stimulus {
        Stimulus::Report(event) => match s.step(event).1 {
            Action::Write { frame, .. } => seq![frame],
            _ => Seq::empty(),
        },
        _ => Seq::empty(),
    }
}

/// The command that one stimulus issues, if any.
pub open spec fn issued_by(stimulus: Stimulus) -> Seq<Command> {
    match stimulus {
        Stimulus::Issue(command) => seq![command],
        _ => Seq::empty(),
    }
}

/// The frames written in the course of the stimuli, in order.
pub open spec fn written(s: SupervisorView, stimuli: Seq<Stimulus>) -> Seq<Command>
    decreases stimuli.len(),
{
    if stimuli.len() == 0 {
        Seq::empty()
    } else {
        written(s, stimuli.drop_last()) + written_by(
            after_all(s, stimuli.drop_last()),
            stimuli.last(),
        )
    }
}

/// The commands issued in the course of the stimuli, in order.
pub open spec fn issued(stimuli: Seq<Stimulus>) -> Seq<Command>
    decreases stimuli.len(),
{
    if stimuli.len() == 0 {
        Seq::empty()
    } else {
        issued(stimuli.drop_last()) + issued_by(stimuli.last())
    }
}

/// One stimulus in an active session moves at most one command: from the
/// interface to the back of the queue, or from its front to the dock.
proof fn lemma_one_stimulus_keeps_order(s: SupervisorView, stimulus: Stimulus)
    requires
        s.wf(),
        s.state is Active,
        after(s, stimulus).state is Active,
    ensures
        written_by(s, stimulus) + after(s, stimulus).pending =~= s.pending + issued_by(stimulus),
{
}

/// Commands reach the dock in the order they were issued, each once.
///
/// While a session stays active, the frames written so far followed by the
/// commands still queued are the commands that were queued at the beginning
/// followed by those issued since, in the order of issue. So what has been
/// written is always a prefix of what was issued: no command is written
/// twice, overtaken or dropped.
pub proof fn lemma_commands_written_in_order(s: SupervisorView, stimuli: Seq<Stimulus>)
    requires
        s.wf(),
        issues_table_commands(stimuli),
        stays_active(s, stimuli),
    ensures
        written(s, stimuli) + after_all(s, stimuli).pending == s.pending + issued(stimuli),
    decreases stimuli.len(),
{
    if stimuli.len() == 0 {
        assert(written(s, stimuli) + s.pending =~= s.pending + issued(stimuli));
    } else {
        let earlier = stimuli.drop_last();
        let before = after_all(s, earlier);
        assert forall|k: int| 0 <= k <= earlier.len() implies (#[trigger] state_at(
            s,
            earlier,
            k,
        )).state is Active by {
            assert(earlier.take(k) =~= stimuli.take(k));
            assert(state_at(s, stimuli, k).state is Active);
        }
        lemma_earlier_issue_table_commands(stimuli);
        lemma_commands_written_in_order(s, earlier);
        lemma_history_keeps_wf(s, earlier);
        assert(stimuli.take(earlier.len() as int) =~= earlier);
        assert(stimuli.take(stimuli.len() as int) =~= stimuli);
        assert(state_at(s, stimuli, earlier.len() as int).state is Active);
        assert(state_at(s, stimuli, stimuli.len() as int).state is Active);
        lemma_one_stimulus_keeps_order(before, stimuli.last());
        let w = written(s, earlier);
        let wb = written_by(before, stimuli.last());
        let q = after_all(s, stimuli).pending;
        assert(w + wb + q =~= w + (wb + q));
        assert(w + (before.pending + issued_by(stimuli.last())) =~= (w + before.pending)
            + issued_by(stimuli.last()));
        assert((s.pending + issued(earlier)) + issued_by(stimuli.last()) =~= s.pending + (issued(
            earlier,
        ) + issued_by(stimuli.last())));
    }
}

} // verus!
