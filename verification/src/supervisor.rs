//! The session supervisor.
//!
//! The supervisor is a state machine. It never touches the radio or a timer:
//! [`Supervisor::step`] takes the outcome of the last piece of outside work
//! as an [`Event`] and answers with the next piece of work as an [`Action`].
//! The caller performs the action and comes back with the event it led to.
//!
//! A session runs `Idle`, `Scanning`, `Connecting`, `Handshaking`, `Active`
//! and falls back to `Idle` on any failure or disconnection. From `Idle` it
//! starts only on an explicit connect request; it never reconnects by itself.

use std::collections::VecDeque;
use vstd::prelude::*;

use crate::command::{switch_frame, Command, InputSource};
use crate::discovery::{judge_advertisement, scan_decision, ScanDecision, SCAN_TIMEOUT_MS};
use crate::error::SessionError;
use crate::handshake::{
    acknowledge,
    acknowledge_frame,
    initiate,
    initiate_frame,
    HandshakeStep,
    SETTLE_MS,
};
use crate::profile::{
    endpoints_in,
    position_of,
    resolve_endpoints,
    resolve_service,
    ServiceEndpoints,
    SERVICE_UUID,
};
use crate::response::{code_of, decode};
use crate::state::SharedState;

verus! {

/// Pause between two looks at the command queue or at the connect request,
/// in milliseconds.
pub const POLL_INTERVAL_MS: u64 = 50;

/// Where a scan stands.
#[derive(Clone, Copy, Debug, PartialEq, Eq, Structural)]
pub enum ScanStep {
    /// Waiting for the adapter to be present and ready.
    Acquiring,
    /// The scan is open; advertisements come in.
    Listening,
}

/// Where the connection set-up stands.
#[derive(Clone, Copy, Debug, PartialEq, Eq, Structural)]
pub enum ConnectStep {
    /// The link is being established.
    Linking,
    /// The device's services are being discovered.
    DiscoveringServices,
    /// The service's characteristics are being discovered.
    DiscoveringCharacteristics,
}

/// What the steady state is busy with.
#[derive(Clone, Copy, Debug, PartialEq, Eq, Structural)]
pub enum ActiveStep {
    /// Notifications are being enabled.
    Subscribing,
    /// Nothing is in flight; the poll pause runs.
    Waiting,
    /// A command frame is being written.
    Writing,
}

/// The state of the supervisor.
#[derive(Clone, Copy, Debug, PartialEq, Eq, Structural)]
pub enum SessionState {
    Idle,
    Scanning(ScanStep),
    Connecting(ConnectStep),
    Handshaking(HandshakeStep, ServiceEndpoints),
    Active(ActiveStep, ServiceEndpoints),
}

/// The outcome of outside work, reported to the supervisor.
#[derive(Debug, PartialEq, Eq)]
pub enum Event {
    /// A pause asked for by `Action::Sleep` is over; it lasted `ms`.
    Elapsed { ms: u64 },
    /// The adapter is present and ready.
    AdapterReady,
    /// There is no adapter, or it cannot be used.
    AdapterUnavailable,
    /// An advertisement came in, `elapsed_ms` after the scan began.
    Advertisement { services: Vec<u128>, elapsed_ms: u64 },
    /// The scan's time is up, or its stream has ended.
    ScanExpired,
    /// The link to the accepted device is up.
    LinkEstablished,
    /// The link could not be established.
    LinkFailed,
    /// The services of the device, in the order discovered.
    Services { uuids: Vec<u128> },
    /// The characteristics of the chosen service, in the order discovered.
    Characteristics { uuids: Vec<u128> },
    /// Service or characteristic discovery failed.
    DiscoveryFailed,
    /// The last write went through.
    WriteDone,
    /// The last write failed.
    WriteFailed,
    /// Notifications are enabled.
    Subscribed,
    /// Notifications could not be enabled.
    SubscribeFailed,
    /// A notification came in.
    Notification { payload: Vec<u8> },
    /// The device has gone.
    Disconnected,
}

/// Outside work the supervisor asks for.
#[derive(Clone, Copy, Debug, PartialEq, Eq, Structural)]
pub enum Action {
    /// Nothing new; go on with what is in flight.
    Nothing,
    /// Pause for `ms`, then report `Elapsed`.
    Sleep { ms: u64 },
    /// Get the adapter and wait until it is ready.
    AcquireAdapter,
    /// Open a scan filtered by `service` and wait at most `within_ms` for
    /// the first advertisement.
    StartScan { service: u128, within_ms: u64 },
    /// Wait at most `within_ms` for the next advertisement.
    ContinueScan { within_ms: u64 },
    /// Connect to the sender of the last advertisement.
    Connect,
    /// Discover the services of the connected device.
    DiscoverServices,
    /// Discover the characteristics of the service at position `service_at`.
    DiscoverCharacteristics { service_at: usize },
    /// Write `frame` to the characteristic at position `characteristic`.
    Write { characteristic: usize, frame: Command },
    /// Enable notifications on the characteristic at position `characteristic`.
    Subscribe { characteristic: usize },
    /// The session is over: drop the device and its endpoints.
    EndSession,
}

/// The supervisor as a mathematical value.
pub struct SupervisorView {
    pub state: SessionState,
    pub shared: SharedState,
    /// Commands accepted and not yet written, oldest first.
    pub pending: Seq<Command>,
    /// Why the last session ended, or why this one runs degraded.
    pub last_error: Option<SessionError>,
}

impl SupervisorView {
    /// The supervisor at start-up.
    pub open spec fn initial() -> SupervisorView {
        SupervisorView {
            state: SessionState::Idle,
            shared: SharedState::initial(),
            pending: Seq::empty(),
            last_error: None,
        }
    }

    /// What holds of every supervisor: it shows `connected` exactly while
    /// the session is active, holds commands only while connected, and
    /// holds only frames of the command table.
    pub open spec fn wf(self) -> bool {
        &&& self.shared.connected <==> self.state is Active
        &&& !self.shared.connected ==> self.pending.len() == 0
        &&& forall|i: int| 0 <= i < self.pending.len() ==> #[trigger] self.pending[i].in_table()
    }

    /// The event does not apply: nothing changes, nothing is asked for.
    pub open spec fn ignored(self) -> (SupervisorView, Action) {
        (self, Action::Nothing)
    }

    /// The session ends: back to idle, disconnected, the connect request and
    /// the queue dropped, the cause kept.
    pub open spec fn ended(self, cause: Option<SessionError>) -> (SupervisorView, Action) {
        (
            SupervisorView {
                state: SessionState::Idle,
                shared: SharedState {
                    connected: false,
                    connect_requested: false,
                    current_input: self.shared.current_input,
                },
                pending: Seq::empty(),
                last_error: cause,
            },
            Action::EndSession,
        )
    }

    /// The steady state looks at the queue: the oldest command is written,
    /// or, with nothing queued, the poll pause begins.
    pub open spec fn drained(self, endpoints: ServiceEndpoints) -> (SupervisorView, Action) {
        if self.pending.len() > 0 {
            (
                SupervisorView {
                    state: SessionState::Active(ActiveStep::Writing, endpoints),
                    pending: self.pending.drop_first(),
                    ..self
                },
                Action::Write {
                    characteristic: endpoints.command_characteristic,
                    frame: self.pending.first(),
                },
            )
        } else {
            (
                SupervisorView {
                    state: SessionState::Active(ActiveStep::Waiting, endpoints),
                    ..self
                },
                Action::Sleep { ms: POLL_INTERVAL_MS },
            )
        }
    }

    /// `Idle`: a pause that ends with a connect request pending starts a
    /// session; without one the pause is renewed.
    pub open spec fn step_idle(self, event: Event) -> (SupervisorView, Action) {
        match event {
            Event::Elapsed { .. } => if self.shared.connect_requested {
                (
                    SupervisorView {
                        state: SessionState::Scanning(ScanStep::Acquiring),
                        last_error: None,
                        ..self
                    },
                    Action::AcquireAdapter,
                )
            } else {
                (self, Action::Sleep { ms: POLL_INTERVAL_MS })
            },
            _ => self.ignored(),
        }
    }

    /// `Scanning`: the adapter is acquired, then advertisements are judged
    /// until one is accepted or the time is up.
    pub open spec fn step_scanning(self, at: ScanStep, event: Event) -> (SupervisorView, Action) {
        match (at, event) {
            (_, Event::AdapterUnavailable) => self.ended(Some(SessionError::AdapterUnavailable)),
            (ScanStep::Acquiring, Event::AdapterReady) => (
                SupervisorView { state: SessionState::Scanning(ScanStep::Listening), ..self },
                Action::StartScan { service: SERVICE_UUID, within_ms: SCAN_TIMEOUT_MS },
            ),
            (
                ScanStep::Listening,
                Event::Advertisement { services, elapsed_ms },
            ) => match scan_decision(services@, elapsed_ms, SCAN_TIMEOUT_MS) {
                ScanDecision::Accept => (
                    SupervisorView {
                        state: SessionState::Connecting(ConnectStep::Linking),
                        ..self
                    },
                    Action::Connect,
                ),
                ScanDecision::Continue { remaining_ms } => (
                    self,
                    Action::ContinueScan { within_ms: remaining_ms },
                ),
                ScanDecision::GiveUp => self.ended(Some(SessionError::DeviceNotFound)),
            },
            (ScanStep::Listening, Event::ScanExpired) => self.ended(
                Some(SessionError::DeviceNotFound),
            ),
            _ => self.ignored(),
        }
    }

    /// `Connecting`: link, then the service, then its two characteristics.
    /// With both found the handshake begins with the `INITIATE` frame.
    pub open spec fn step_connecting(self, at: ConnectStep, event: Event) -> (
        SupervisorView,
        Action,
    ) {
        match (at, event) {
            (_, Event::Disconnected) => self.ended(Some(SessionError::ConnectionFailed)),
            (ConnectStep::Linking, Event::LinkEstablished) => (
                SupervisorView {
                    state: SessionState::Connecting(ConnectStep::DiscoveringServices),
                    ..self
                },
                Action::DiscoverServices,
            ),
            (ConnectStep::Linking, Event::LinkFailed) => self.ended(
                Some(SessionError::ConnectionFailed),
            ),
            (ConnectStep::DiscoveringServices, Event::Services { uuids }) => match position_of(
                uuids@,
                SERVICE_UUID,
            ) {
                Some(service) => (
                    SupervisorView {
                        state: SessionState::Connecting(ConnectStep::DiscoveringCharacteristics),
                        ..self
                    },
                    Action::DiscoverCharacteristics { service_at: service as usize },
                ),
                None => self.ended(Some(SessionError::ServiceDiscoveryError)),
            },
            (
                ConnectStep::DiscoveringCharacteristics,
                Event::Characteristics { uuids },
            ) => match endpoints_in(uuids@) {
                Some(endpoints) => (
                    SupervisorView {
                        state: SessionState::Handshaking(HandshakeStep::WritingInitiate, endpoints),
                        ..self
                    },
                    Action::Write {
                        characteristic: endpoints.command_characteristic,
                        frame: initiate_frame(),
                    },
                ),
                None => self.ended(Some(SessionError::ServiceDiscoveryError)),
            },
            (ConnectStep::DiscoveringServices, Event::DiscoveryFailed) => self.ended(
                Some(SessionError::ServiceDiscoveryError),
            ),
            (ConnectStep::DiscoveringCharacteristics, Event::DiscoveryFailed) => self.ended(
                Some(SessionError::ServiceDiscoveryError),
            ),
            _ => self.ignored(),
        }
    }

    /// `Handshaking`: each frame is followed by a full settle interval; the
    /// second interval over, the session is connected and plays from
    /// Bluetooth, and notifications are asked for.
    pub open spec fn step_handshaking(
        self,
        at: HandshakeStep,
        endpoints: ServiceEndpoints,
        event: Event,
    ) -> (SupervisorView, Action) {
        match (at, event) {
            (_, Event::Disconnected) => self.ended(Some(SessionError::HandshakeFailed)),
            (HandshakeStep::WritingInitiate, Event::WriteDone) => (
                SupervisorView {
                    state: SessionState::Handshaking(HandshakeStep::SettlingInitiate, endpoints),
                    ..self
                },
                Action::Sleep { ms: SETTLE_MS },
            ),
            (HandshakeStep::WritingInitiate, Event::WriteFailed) => self.ended(
                Some(SessionError::HandshakeFailed),
            ),
            (HandshakeStep::SettlingInitiate, Event::Elapsed { ms }) => if ms >= SETTLE_MS {
                (
                    SupervisorView {
                        state: SessionState::Handshaking(
                            HandshakeStep::WritingAcknowledge,
                            endpoints,
                        ),
                        ..self
                    },
                    Action::Write {
                        characteristic: endpoints.command_characteristic,
                        frame: acknowledge_frame(),
                    },
                )
            } else {
                (self, Action::Sleep { ms: SETTLE_MS })
            },
            (HandshakeStep::WritingAcknowledge, Event::WriteDone) => (
                SupervisorView {
                    state: SessionState::Handshaking(
                        HandshakeStep::SettlingAcknowledge,
                        endpoints,
                    ),
                    ..self
                },
                Action::Sleep { ms: SETTLE_MS },
            ),
            (HandshakeStep::WritingAcknowledge, Event::WriteFailed) => self.ended(
                Some(SessionError::HandshakeFailed),
            ),
            (HandshakeStep::SettlingAcknowledge, Event::Elapsed { ms }) => if ms >= SETTLE_MS {
                (
                    SupervisorView {
                        state: SessionState::Active(ActiveStep::Subscribing, endpoints),
                        shared: SharedState {
                            connected: true,
                            current_input: InputSource::Bluetooth,
                            ..self.shared
                        },
                        ..self
                    },
                    Action::Subscribe { characteristic: endpoints.response_characteristic },
                )
            } else {
                (self, Action::Sleep { ms: SETTLE_MS })
            },
            _ => self.ignored(),
        }
    }

    /// `Active`: queued commands are written one at a time, oldest first,
    /// with a pause after each look at the queue; notifications update the
    /// input source; a failed write or a disconnection ends the session.
    pub open spec fn step_active(
        self,
        at: ActiveStep,
        endpoints: ServiceEndpoints,
        event: Event,
    ) -> (SupervisorView, Action) {
        match (at, event) {
            (_, Event::WriteFailed) => self.ended(Some(SessionError::WriteFailure)),
            (_, Event::Disconnected) => self.ended(None),
            (_, Event::Notification { payload }) => (
                SupervisorView { shared: self.shared.with_response(code_of(payload@)), ..self },
                Action::Nothing,
            ),
            (ActiveStep::Subscribing, Event::Subscribed) => self.drained(endpoints),
            (ActiveStep::Subscribing, Event::SubscribeFailed) => SupervisorView {
                last_error: Some(SessionError::NotificationSetupFailure),
                ..self
            }.drained(endpoints),
            (ActiveStep::Waiting, Event::Elapsed { .. }) => self.drained(endpoints),
            (ActiveStep::Writing, Event::WriteDone) => (
                SupervisorView {
                    state: SessionState::Active(ActiveStep::Waiting, endpoints),
                    ..self
                },
                Action::Sleep { ms: POLL_INTERVAL_MS },
            ),
            _ => self.ignored(),
        }
    }

    /// The supervisor after `event`, and the work it asks for.
    pub open spec fn step(self, event: Event) -> (SupervisorView, Action) {
        match self.state {
            SessionState::Idle => self.step_idle(event),
            SessionState::Scanning(at) => self.step_scanning(at, event),
            SessionState::Connecting(at) => self.step_connecting(at, event),
            SessionState::Handshaking(at, endpoints) => self.step_handshaking(
                at,
                endpoints,
                event,
            ),
            SessionState::Active(at, endpoints) => self.step_active(at, endpoints, event),
        }
    }

    /// The supervisor after the interface has issued `command`: queued behind
    /// the others while connected, discarded otherwise.
    pub open spec fn submitted(self, command: Command) -> SupervisorView {
        if self.shared.connected {
            SupervisorView { pending: self.pending.push(command), ..self }
        } else {
            self
        }
    }

    /// The supervisor after the interface has asked for a connection.
    pub open spec fn requested(self) -> SupervisorView {
        SupervisorView { shared: SharedState { connect_requested: true, ..self.shared }, ..self }
    }
}

/// The session supervisor: owner of the shared state and of the command queue.
pub struct Supervisor {
    state: SessionState,
    shared: SharedState,
    pending: VecDeque<Command>,
    last_error: Option<SessionError>,
}

impl View for Supervisor {
    type V = SupervisorView;

    closed spec fn view(&self) -> SupervisorView {
        SupervisorView {
            state: self.state,
            shared: self.shared,
            pending: self.pending@,
            last_error: self.last_error,
        }
    }
}

impl Supervisor {
    /// A supervisor at start-up: idle, disconnected, nothing asked.
    pub fn new() -> (supervisor: Supervisor)
        ensures
            supervisor@ == SupervisorView::initial(),
            supervisor@.wf(),
    {
        Supervisor {
            state: SessionState::Idle,
            shared: SharedState::new(),
            pending: VecDeque::new(),
            last_error: None,
        }
    }

    /// The state of the session.
    pub fn state(&self) -> (state: SessionState)
        ensures
            state == self@.state,
    {
        self.state
    }

    /// A copy of the shared state, for the interface to read.
    pub fn snapshot(&self) -> (shared: SharedState)
        ensures
            shared == self@.shared,
    {
        self.shared
    }

    /// Why the last session ended, or why this one runs degraded.
    pub fn last_error(&self) -> (error: Option<SessionError>)
        ensures
            error == self@.last_error,
    {
        self.last_error
    }

    /// How many accepted commands wait to be written.
    pub fn pending_len(&self) -> (count: usize)
        ensures
            count == self@.pending.len(),
    {
        self.pending.len()
    }

    /// Asks for a connection. Only the request flag changes.
    pub fn request_connect(&mut self)
        ensures
            final(self)@ == old(self)@.requested(),
            old(self)@.wf() ==> final(self)@.wf(),
    {
        self.shared.connect_requested = true;
    }

    /// Takes a command of the table from the interface.
    ///
    /// While connected the command is queued behind those already waiting
    /// and the call returns `true`. While disconnected it is discarded: the
    /// supervisor is unchanged and the call returns `false`.
    fn enqueue(&mut self, command: Command) -> (accepted: bool)
        requires
            command.in_table(),
        ensures
            accepted == old(self)@.shared.connected,
            final(self)@ == old(self)@.submitted(command),
            old(self)@.wf() ==> final(self)@.wf(),
    {
        if self.shared.connected {
            self.pending.push_back(command);
            true
        } else {
            false
        }
    }

    /// Volume up, `80 02`: queued while connected, discarded with `false` otherwise.
    pub fn volume_up(&mut self) -> (accepted: bool)
        ensures
            accepted == old(self)@.shared.connected,
            final(self)@ == old(self)@.submitted(Command { opcode: 0x80, arg: 0x02 }),
            old(self)@.wf() ==> final(self)@.wf(),
    {
        self.enqueue(Command::volume_up())
    }

    /// Volume down, `80 03`: queued while connected, discarded with `false` otherwise.
    pub fn volume_down(&mut self) -> (accepted: bool)
        ensures
            accepted == old(self)@.shared.connected,
            final(self)@ == old(self)@.submitted(Command { opcode: 0x80, arg: 0x03 }),
            old(self)@.wf() ==> final(self)@.wf(),
    {
        self.enqueue(Command::volume_down())
    }

    /// Bass up, `80 00`: queued while connected, discarded with `false` otherwise.
    pub fn bass_up(&mut self) -> (accepted: bool)
        ensures
            accepted == old(self)@.shared.connected,
            final(self)@ == old(self)@.submitted(Command { opcode: 0x80, arg: 0x00 }),
            old(self)@.wf() ==> final(self)@.wf(),
    {
        self.enqueue(Command::bass_up())
    }

    /// Bass down, `80 01`: queued while connected, discarded with `false` otherwise.
    pub fn bass_down(&mut self) -> (accepted: bool)
        ensures
            accepted == old(self)@.shared.connected,
            final(self)@ == old(self)@.submitted(Command { opcode: 0x80, arg: 0x01 }),
            old(self)@.wf() ==> final(self)@.wf(),
    {
        self.enqueue(Command::bass_down())
    }

    /// Play or pause, `80 04`: queued while connected, discarded with `false` otherwise.
    pub fn play_pause(&mut self) -> (accepted: bool)
        ensures
            accepted == old(self)@.shared.connected,
            final(self)@ == old(self)@.submitted(Command { opcode: 0x80, arg: 0x04 }),
            old(self)@.wf() ==> final(self)@.wf(),
    {
        self.enqueue(Command::play_pause())
    }

    /// Next track, `80 05`: queued while connected, discarded with `false` otherwise.
    pub fn next_track(&mut self) -> (accepted: bool)
        ensures
            accepted == old(self)@.shared.connected,
            final(self)@ == old(self)@.submitted(Command { opcode: 0x80, arg: 0x05 }),
            old(self)@.wf() ==> final(self)@.wf(),
    {
        self.enqueue(Command::next_track())
    }

    /// Previous track, `80 06`: queued while connected, discarded with `false` otherwise.
    pub fn prev_track(&mut self) -> (accepted: bool)
        ensures
            accepted == old(self)@.shared.connected,
            final(self)@ == old(self)@.submitted(Command { opcode: 0x80, arg: 0x06 }),
            old(self)@.wf() ==> final(self)@.wf(),
    {
        self.enqueue(Command::prev_track())
    }

    /// Switch to Bluetooth, `81 01`: queued while connected, discarded with `false` otherwise.
    pub fn switch_bluetooth(&mut self) -> (accepted: bool)
        ensures
            accepted == old(self)@.shared.connected,
            final(self)@ == old(self)@.submitted(Command { opcode: 0x81, arg: 0x01 }),
            old(self)@.wf() ==> final(self)@.wf(),
    {
        self.enqueue(Command::switch_bluetooth())
    }

    /// Switch to AUX, `81 02`: queued while connected, discarded with `false` otherwise.
    pub fn switch_aux(&mut self) -> (accepted: bool)
        ensures
            accepted == old(self)@.shared.connected,
            final(self)@ == old(self)@.submitted(Command { opcode: 0x81, arg: 0x02 }),
            old(self)@.wf() ==> final(self)@.wf(),
    {
        self.enqueue(Command::switch_aux())
    }

    /// Switch to USB, `81 03`: queued while connected, discarded with `false` otherwise.
    pub fn switch_usb(&mut self) -> (accepted: bool)
        ensures
            accepted == old(self)@.shared.connected,
            final(self)@ == old(self)@.submitted(Command { opcode: 0x81, arg: 0x03 }),
            old(self)@.wf() ==> final(self)@.wf(),
    {
        self.enqueue(Command::switch_usb())
    }

    /// Switch to `source`. There is no frame for an unknown source: such a
    /// call changes nothing and returns `false`, connected or not.
    pub fn switch_input(&mut self, source: InputSource) -> (accepted: bool)
        ensures
            accepted == (old(self)@.shared.connected && switch_frame(source).is_some()),
            final(self)@ == (match switch_frame(source) {
                Some(command) => old(self)@.submitted(command),
                None => old(self)@,
            }),
            old(self)@.wf() ==> final(self)@.wf(),
    {
        match Command::switch_input(source) {
            Some(command) => self.enqueue(command),
            None => false,
        }
    }

    /// Enter pairing mode, `82 00`: queued while connected, discarded with `false` otherwise.
    pub fn pairing(&mut self) -> (accepted: bool)
        ensures
            accepted == old(self)@.shared.connected,
            final(self)@ == old(self)@.submitted(Command { opcode: 0x82, arg: 0x00 }),
            old(self)@.wf() ==> final(self)@.wf(),
    {
        self.enqueue(Command::pairing())
    }

    /// Factory reset, `83 00`: queued while connected, discarded with `false` otherwise.
    pub fn factory_reset(&mut self) -> (accepted: bool)
        ensures
            accepted == old(self)@.shared.connected,
            final(self)@ == old(self)@.submitted(Command { opcode: 0x83, arg: 0x00 }),
            old(self)@.wf() ==> final(self)@.wf(),
    {
        self.enqueue(Command::factory_reset())
    }

    /// Ends the session with `cause`.
    fn end_session(&mut self, cause: Option<SessionError>) -> (action: Action)
        ensures
            (final(self)@, action) == old(self)@.ended(cause),
    {
        self.state = SessionState::Idle;
        self.shared.connected = false;
        self.shared.connect_requested = false;
        self.pending.clear();
        self.last_error = cause;
        Action::EndSession
    }

    /// Takes the oldest command off the queue, or starts the poll pause.
    fn drain(&mut self, endpoints: ServiceEndpoints) -> (action: Action)
        ensures
            (final(self)@, action) == old(self)@.drained(endpoints),
    {
        match self.pending.pop_front() {
            Some(frame) => {
                self.state = SessionState::Active(ActiveStep::Writing, endpoints);
                assert(self.pending@ =~= old(self).pending@.drop_first());
                Action::Write { characteristic: endpoints.command_characteristic, frame }
            },
            None => {
                self.state = SessionState::Active(ActiveStep::Waiting, endpoints);
                Action::Sleep { ms: POLL_INTERVAL_MS }
            },
        }
    }

    fn on_idle(&mut self, event: &Event) -> (action: Action)
        requires
            old(self)@.state is Idle,
        ensures
            (final(self)@, action) == old(self)@.step_idle(*event),
    {
        match event {
            Event::Elapsed { .. } => {
                if self.shared.connect_requested {
                    self.state = SessionState::Scanning(ScanStep::Acquiring);
                    self.last_error = None;
                    Action::AcquireAdapter
                } else {
                    Action::Sleep { ms: POLL_INTERVAL_MS }
                }
            },
            _ => Action::Nothing,
        }
    }

    fn on_scanning(&mut self, at: ScanStep, event: &Event) -> (action: Action)
        requires
            old(self)@.state == SessionState::Scanning(at),
        ensures
            (final(self)@, action) == old(self)@.step_scanning(at, *event),
    {
        match event {
            Event::AdapterUnavailable => self.end_session(Some(SessionError::AdapterUnavailable)),
            Event::AdapterReady => match at {
                ScanStep::Acquiring => {
                    self.state = SessionState::Scanning(ScanStep::Listening);
                    Action::StartScan { service: SERVICE_UUID, within_ms: SCAN_TIMEOUT_MS }
                },
                ScanStep::Listening => Action::Nothing,
            },
            Event::Advertisement { services, elapsed_ms } => match at {
                ScanStep::Acquiring => Action::Nothing,
                ScanStep::Listening => match judge_advertisement(
                    services,
                    *elapsed_ms,
                    SCAN_TIMEOUT_MS,
                ) {
                    ScanDecision::Accept => {
                        self.state = SessionState::Connecting(ConnectStep::Linking);
                        Action::Connect
                    },
                    ScanDecision::Continue { remaining_ms } => Action::ContinueScan {
                        within_ms: remaining_ms,
                    },
                    ScanDecision::GiveUp => self.end_session(Some(SessionError::DeviceNotFound)),
                },
            },
            Event::ScanExpired => match at {
                ScanStep::Acquiring => Action::Nothing,
                ScanStep::Listening => self.end_session(Some(SessionError::DeviceNotFound)),
            },
            _ => Action::Nothing,
        }
    }

    fn on_connecting(&mut self, at: ConnectStep, event: &Event) -> (action: Action)
        requires
            old(self)@.state == SessionState::Connecting(at),
        ensures
            (final(self)@, action) == old(self)@.step_connecting(at, *event),
    {
        match event {
            Event::Disconnected => self.end_session(Some(SessionError::ConnectionFailed)),
            Event::LinkEstablished => match at {
                ConnectStep::Linking => {
                    self.state = SessionState::Connecting(ConnectStep::DiscoveringServices);
                    Action::DiscoverServices
                },
                _ => Action::Nothing,
            },
            Event::LinkFailed => match at {
                ConnectStep::Linking => self.end_session(Some(SessionError::ConnectionFailed)),
                _ => Action::Nothing,
            },
            Event::Services { uuids } => match at {
                ConnectStep::DiscoveringServices => match resolve_service(uuids) {
                    Ok(service) => {
                        self.state = SessionState::Connecting(
                            ConnectStep::DiscoveringCharacteristics,
                        );
                        Action::DiscoverCharacteristics { service_at: service }
                    },
                    Err(error) => self.end_session(Some(error)),
                },
                _ => Action::Nothing,
            },
            Event::Characteristics { uuids } => match at {
                ConnectStep::DiscoveringCharacteristics => match resolve_endpoints(uuids) {
                    Ok(endpoints) => {
                        self.state = SessionState::Handshaking(
                            HandshakeStep::WritingInitiate,
                            endpoints,
                        );
                        Action::Write {
                            characteristic: endpoints.command_characteristic,
                            frame: initiate(),
                        }
                    },
                    Err(error) => self.end_session(Some(error)),
                },
                _ => Action::Nothing,
            },
            Event::DiscoveryFailed => match at {
                ConnectStep::Linking => Action::Nothing,
                _ => self.end_session(Some(SessionError::ServiceDiscoveryError)),
            },
            _ => Action::Nothing,
        }
    }

    fn on_handshaking(
        &mut self,
        at: HandshakeStep,
        endpoints: ServiceEndpoints,
        event: &Event,
    ) -> (action: Action)
        requires
            old(self)@.state == SessionState::Handshaking(at, endpoints),
        ensures
            (final(self)@, action) == old(self)@.step_handshaking(at, endpoints, *event),
    {
        match event {
            Event::Disconnected => self.end_session(Some(SessionError::HandshakeFailed)),
            Event::WriteDone => match at {
                HandshakeStep::WritingInitiate => {
                    self.state = SessionState::Handshaking(
                        HandshakeStep::SettlingInitiate,
                        endpoints,
                    );
                    Action::Sleep { ms: SETTLE_MS }
                },
                HandshakeStep::WritingAcknowledge => {
                    self.state = SessionState::Handshaking(
                        HandshakeStep::SettlingAcknowledge,
                        endpoints,
                    );
                    Action::Sleep { ms: SETTLE_MS }
                },
                _ => Action::Nothing,
            },
            Event::WriteFailed => match at {
                HandshakeStep::WritingInitiate => self.end_session(
                    Some(SessionError::HandshakeFailed),
                ),
                HandshakeStep::WritingAcknowledge => self.end_session(
                    Some(SessionError::HandshakeFailed),
                ),
                _ => Action::Nothing,
            },
            Event::Elapsed { ms } => match at {
                HandshakeStep::SettlingInitiate => {
                    if *ms >= SETTLE_MS {
                        self.state = SessionState::Handshaking(
                            HandshakeStep::WritingAcknowledge,
                            endpoints,
                        );
                        Action::Write {
                            characteristic: endpoints.command_characteristic,
                            frame: acknowledge(),
                        }
                    } else {
                        Action::Sleep { ms: SETTLE_MS }
                    }
                },
                HandshakeStep::SettlingAcknowledge => {
                    if *ms >= SETTLE_MS {
                        self.state = SessionState::Active(ActiveStep::Subscribing, endpoints);
                        self.shared.connected = true;
                        self.shared.current_input = InputSource::Bluetooth;
                        Action::Subscribe { characteristic: endpoints.response_characteristic }
                    } else {
                        Action::Sleep { ms: SETTLE_MS }
                    }
                },
                _ => Action::Nothing,
            },
            _ => Action::Nothing,
        }
    }

    fn on_active(&mut self, at: ActiveStep, endpoints: ServiceEndpoints, event: &Event) -> (action:
        Action)
        requires
            old(self)@.state == SessionState::Active(at, endpoints),
        ensures
            (final(self)@, action) == old(self)@.step_active(at, endpoints, *event),
    {
        match event {
            Event::WriteFailed => self.end_session(Some(SessionError::WriteFailure)),
            Event::Disconnected => self.end_session(None),
            Event::Notification { payload } => {
                let code = decode(payload.as_slice());
                self.shared.apply_response(code);
                Action::Nothing
            },
            Event::Subscribed => match at {
                ActiveStep::Subscribing => self.drain(endpoints),
                _ => Action::Nothing,
            },
            Event::SubscribeFailed => match at {
                ActiveStep::Subscribing => {
                    self.last_error = Some(SessionError::NotificationSetupFailure);
                    self.drain(endpoints)
                },
                _ => Action::Nothing,
            },
            Event::Elapsed { .. } => match at {
                ActiveStep::Waiting => self.drain(endpoints),
                _ => Action::Nothing,
            },
            Event::WriteDone => match at {
                ActiveStep::Writing => {
                    self.state = SessionState::Active(ActiveStep::Waiting, endpoints);
                    Action::Sleep { ms: POLL_INTERVAL_MS }
                },
                _ => Action::Nothing,
            },
            _ => Action::Nothing,
        }
    }

    /// Takes in the outcome of outside work and answers with the next work.
    ///
    /// The supervisor moves as `SupervisorView::step` says, for every state
    /// and every event; an event that does not apply changes nothing and
    /// asks for nothing.
    pub fn step(&mut self, event: Event) -> (action: Action)
        ensures
            (final(self)@, action) == old(self)@.step(event),
            old(self)@.wf() ==> final(self)@.wf(),
    {
        proof {
            if self@.wf() {
                lemma_step_keeps_wf(self@, event);
            }
        }
        let state = self.state;
        match state {
            SessionState::Idle => self.on_idle(&event),
            SessionState::Scanning(at) => self.on_scanning(at, &event),
            SessionState::Connecting(at) => self.on_connecting(at, &event),
            SessionState::Handshaking(at, endpoints) => self.on_handshaking(at, endpoints, &event),
            SessionState::Active(at, endpoints) => self.on_active(at, endpoints, &event),
        }
    }
}

/// Every step keeps the supervisor well formed.
pub proof fn lemma_step_keeps_wf(s: SupervisorView, event: Event)
    requires
        s.wf(),
    ensures
        s.step(event).0.wf(),
{
}

} // verus!
