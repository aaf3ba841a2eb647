//! The control loop as a state machine.
//!
//! The loop waits on five sources at once: discovery, the pending
//! connection, the control task of the active session, the playback event
//! channel and the interrupt signal. Whichever is ready first becomes an
//! [`Event`]; [`Orchestrator::step`] moves the state and answers with the
//! [`Action`]s that the caller has to carry out, in order. Waiting and
//! carrying out are the caller's part; every decision is taken here.
//!
//! Connection attempts are numbered, and a session keeps the number of the
//! attempt that established it. Events name the attempt or session they come
//! from, so that what a superseded attempt or session still reports is
//! recognised and dropped.

use crate::credentials::Credentials;
use crate::credentials::CredentialsView;
use crate::credentials::credentials_view;
use crate::reconnect::ReconnectWindow;
use crate::reconnect::after_attempt;
use crate::reconnect::permits;
use crate::reconnect::MAX_RECONNECTS;
use vstd::prelude::*;

verus! {

/// Where the loop stands.
#[derive(Clone, Copy, Debug, PartialEq, Eq, Structural)]
pub enum Stage {
    /// Idle: nothing connected, nothing pending.
    NoSession,
    /// A connection attempt is in flight.
    Connecting { attempt: u64 },
    /// A session is established and its control task runs.
    Active { session: u64 },
    /// Shutdown was requested; the control task of the session is awaited.
    Draining { session: u64 },
    /// The loop has ended with this exit status.
    Terminated { status: i32 },
}

/// What the caller has to do after a step.
#[derive(Clone, Copy, Debug, PartialEq, Eq, Structural)]
pub enum Action {
    /// Tell the control handle of the session to shut down.
    StopControl { session: u64 },
    /// Hand the control task of the session to the background and no longer
    /// wait for it.
    DetachControlTask { session: u64 },
    /// Start connecting with the last known credentials, dropping any
    /// attempt still in flight.
    Connect { attempt: u64 },
    /// Build the player and the control surface on the established
    /// connection and install its control task and event channel.
    StartSession { session: u64 },
    /// Forward the playback event just received to the device notifier and
    /// wait until it has been taken.
    Forward { session: u64 },
    /// Leave the loop and end the process with this status.
    Exit { status: i32 },
}

/// What the loop was woken by.
#[derive(Debug)]
pub enum Event {
    /// Discovery handed over the credentials of a controller that claimed
    /// the device.
    DiscoveredCredentials(Credentials),
    /// Discovery has ended for good.
    DiscoveryEnded,
    /// The connection attempt succeeded.
    ConnectionEstablished { attempt: u64 },
    /// The connection attempt failed.
    ConnectionFailed { attempt: u64 },
    /// The control task of the session ended, at `now` seconds.
    ControlTaskFinished { session: u64, now: u64 },
    /// The session reported a change of playback.
    PlaybackEvent { session: u64 },
    /// The session closed its event channel.
    EventChannelClosed { session: u64 },
    /// The operator interrupted the process.
    Interrupt,
}

/// What an event holds.
pub enum EventView {
    DiscoveredCredentials(CredentialsView),
    DiscoveryEnded,
    ConnectionEstablished { attempt: u64 },
    ConnectionFailed { attempt: u64 },
    ControlTaskFinished { session: u64, now: u64 },
    PlaybackEvent { session: u64 },
    EventChannelClosed { session: u64 },
    Interrupt,
}

impl View for Event {
    type V = EventView;

    open spec fn view(&self) -> EventView {
        match *self {
            Event::DiscoveredCredentials(c) => EventView::DiscoveredCredentials(c@),
            Event::DiscoveryEnded => EventView::DiscoveryEnded,
            Event::ConnectionEstablished { attempt } => EventView::ConnectionEstablished {
                attempt,
            },
            Event::ConnectionFailed { attempt } => EventView::ConnectionFailed { attempt },
            Event::ControlTaskFinished { session, now } => EventView::ControlTaskFinished {
                session,
                now,
            },
            Event::PlaybackEvent { session } => EventView::PlaybackEvent { session },
            Event::EventChannelClosed { session } => EventView::EventChannelClosed { session },
            Event::Interrupt => EventView::Interrupt,
        }
    }
}

/// The state of the loop, as contracts see it.
pub struct OrchestratorView {
    pub stage: Stage,
    /// Whether discovery is still listened to.
    pub discovery_enabled: bool,
    /// Whether the run ends as soon as a connection is established.
    pub authenticate_only: bool,
    /// Whether a connection has ever been established.
    pub ever_connected: bool,
    /// The credentials that the next connection will use.
    pub last_credentials: Option<CredentialsView>,
    /// The session whose playback events are listened to.
    pub event_channel: Option<u64>,
    /// When the recent automatic reconnections were made.
    pub window: Seq<u64>,
    /// The number that the next connection attempt gets.
    pub next_attempt: u64,
}

/// Whether the loop is still selecting among its sources.
pub open spec fn running(stage: Stage) -> bool {
    stage is NoSession || stage is Connecting || stage is Active
}

/// The session whose control task the loop holds, if any.
pub open spec fn held(stage: Stage) -> Option<u64> {
    match stage {
        Stage::Active { session } => Some(session),
        Stage::Draining { session } => Some(session),
        _ => None,
    }
}

/// The number after `n`; the last number is its own successor.
pub open spec fn next_number(n: u64) -> u64 {
    if n < u64::MAX {
        (n + 1) as u64
    } else {
        n
    }
}

/// Whether the source of the event is listened to in this state. An event
/// from any other source leaves the state as it is.
pub open spec fn accepts(s: OrchestratorView, e: EventView) -> bool {
    match e {
        EventView::DiscoveredCredentials(_) => running(s.stage) && s.discovery_enabled,
        EventView::DiscoveryEnded => running(s.stage) && s.discovery_enabled,
        EventView::ConnectionEstablished { attempt } => s.stage == (Stage::Connecting { attempt }),
        EventView::ConnectionFailed { attempt } => s.stage == (Stage::Connecting { attempt }),
        EventView::ControlTaskFinished { session, now } => held(s.stage) == Some(session),
        EventView::PlaybackEvent { session } => running(s.stage) && s.event_channel == Some(
            session,
        ),
        EventView::EventChannelClosed { session } => running(s.stage) && s.event_channel
            == Some(session),
        EventView::Interrupt => !(s.stage is Terminated),
    }
}

/// What releasing the control task of the active session takes: stop it,
/// then detach it. Nothing where no session is active.
pub open spec fn release_actions(stage: Stage) -> Seq<Action> {
    match stage {
        Stage::Active { session } => seq![
            Action::StopControl { session },
            Action::DetachControlTask { session },
        ],
        _ => Seq::<Action>::empty(),
    }
}

/// Fresh credentials from discovery: the reconnect window is emptied, an
/// active session is released, and a connection with the new credentials
/// starts in place of any attempt in flight.
pub open spec fn on_discovered(s: OrchestratorView, c: CredentialsView) -> (
    OrchestratorView,
    Seq<Action>,
) {
    (
        OrchestratorView {
            stage: Stage::Connecting { attempt: s.next_attempt },
            last_credentials: Some(c),
            window: Seq::<u64>::empty(),
            next_attempt: next_number(s.next_attempt),
            ..s
        },
        release_actions(s.stage).push(Action::Connect { attempt: s.next_attempt }),
    )
}

/// The pending connection is established: the run ends where only
/// authentication was asked for; otherwise the session becomes the active
/// one and its event channel the one listened to.
pub open spec fn on_established(s: OrchestratorView, attempt: u64) -> (
    OrchestratorView,
    Seq<Action>,
) {
    if s.authenticate_only {
        (
            OrchestratorView { stage: Stage::Terminated { status: 0 }, ..s },
            seq![Action::Exit { status: 0 }],
        )
    } else {
        (
            OrchestratorView {
                stage: Stage::Active { session: attempt },
                ever_connected: true,
                event_channel: Some(attempt),
                ..s
            },
            seq![Action::StartSession { session: attempt }],
        )
    }
}

/// The pending connection failed: fatal where no connection was ever
/// established, otherwise the loop goes idle and waits for discovery.
pub open spec fn on_failed(s: OrchestratorView) -> (OrchestratorView, Seq<Action>) {
    if s.ever_connected {
        (OrchestratorView { stage: Stage::NoSession, ..s }, Seq::<Action>::empty())
    } else {
        (
            OrchestratorView { stage: Stage::Terminated { status: 1 }, ..s },
            seq![Action::Exit { status: 1 }],
        )
    }
}

/// The held control task ended at `now`. While draining, that ends the run.
/// Otherwise the session is gone, and a reconnection with the last
/// credentials starts if there are any and the window permits it.
pub open spec fn on_task_finished(s: OrchestratorView, now: u64) -> (
    OrchestratorView,
    Seq<Action>,
) {
    if s.stage is Draining {
        (
            OrchestratorView { stage: Stage::Terminated { status: 0 }, ..s },
            seq![Action::Exit { status: 0 }],
        )
    } else if s.last_credentials is Some && permits(s.window, now) {
        (
            OrchestratorView {
                stage: Stage::Connecting { attempt: s.next_attempt },
                window: after_attempt(s.window, now),
                next_attempt: next_number(s.next_attempt),
                ..s
            },
            seq![Action::Connect { attempt: s.next_attempt }],
        )
    } else {
        (OrchestratorView { stage: Stage::NoSession, ..s }, Seq::<Action>::empty())
    }
}

/// The interrupt signal: an active session is told to stop and awaited;
/// without one, or when already waiting, the run ends at once.
pub open spec fn on_interrupt(s: OrchestratorView) -> (OrchestratorView, Seq<Action>) {
    match s.stage {
        Stage::Active { session } => (
            OrchestratorView { stage: Stage::Draining { session }, ..s },
            seq![Action::StopControl { session }],
        ),
        _ => (
            OrchestratorView { stage: Stage::Terminated { status: 0 }, ..s },
            seq![Action::Exit { status: 0 }],
        ),
    }
}

/// The state after an event, and the actions it asks for, in order.
pub open spec fn transition(s: OrchestratorView, e: EventView) -> (OrchestratorView, Seq<Action>) {
    if !accepts(s, e) {
        (s, Seq::<Action>::empty())
    } else {
        match e {
            EventView::DiscoveredCredentials(c) => on_discovered(s, c),
            EventView::DiscoveryEnded => (
                OrchestratorView { discovery_enabled: false, ..s },
                Seq::<Action>::empty(),
            ),
            EventView::ConnectionEstablished { attempt } => on_established(s, attempt),
            EventView::ConnectionFailed { attempt } => on_failed(s),
            EventView::ControlTaskFinished { session, now } => on_task_finished(s, now),
            EventView::PlaybackEvent { session } => (s, seq![Action::Forward { session }]),
            EventView::EventChannelClosed { session } => (
                OrchestratorView { event_channel: None, ..s },
                Seq::<Action>::empty(),
            ),
            EventView::Interrupt => on_interrupt(s),
        }
    }
}

/// The state in which the loop starts, and its first actions: with
/// credentials a connection starts at once, without them the loop waits for
/// discovery.
pub open spec fn initial(
    discovery_enabled: bool,
    authenticate_only: bool,
    credentials: Option<CredentialsView>,
) -> (OrchestratorView, Seq<Action>) {
    let idle = OrchestratorView {
        stage: Stage::NoSession,
        discovery_enabled,
        authenticate_only,
        ever_connected: false,
        last_credentials: credentials,
        event_channel: None,
        window: Seq::<u64>::empty(),
        next_attempt: 0,
    };
    if credentials is Some {
        (
            OrchestratorView { stage: Stage::Connecting { attempt: 0 }, next_attempt: 1, ..idle },
            seq![Action::Connect { attempt: 0 }],
        )
    } else {
        (idle, Seq::<Action>::empty())
    }
}

/// The state after a run of events, and all the actions asked for on the
/// way, in order.
pub open spec fn run(s: OrchestratorView, events: Seq<EventView>) -> (
    OrchestratorView,
    Seq<Action>,
)
    decreases events.len(),
{
    if events.len() == 0 {
        (s, Seq::<Action>::empty())
    } else {
        let before = run(s, events.drop_last());
        let last = transition(before.0, events.last());
        (last.0, before.1 + last.1)
    }
}

/// The state of the control loop.
pub struct Orchestrator {
    stage: Stage,
    discovery_enabled: bool,
    authenticate_only: bool,
    ever_connected: bool,
    last_credentials: Option<Credentials>,
    event_channel: Option<u64>,
    window: ReconnectWindow,
    next_attempt: u64,
}

impl View for Orchestrator {
    type V = OrchestratorView;

    closed spec fn view(&self) -> OrchestratorView {
        OrchestratorView {
            stage: self.stage,
            discovery_enabled: self.discovery_enabled,
            authenticate_only: self.authenticate_only,
            ever_connected: self.ever_connected,
            last_credentials: credentials_view(self.last_credentials),
            event_channel: self.event_channel,
            window: self.window@,
            next_attempt: self.next_attempt,
        }
    }
}

impl Orchestrator {
    /// The reconnect window never holds more than its maximum.
    pub open spec fn wf(&self) -> bool {
        self@.window.len() <= MAX_RECONNECTS
    }

    /// The loop at its start, with the actions to begin with.
    pub fn new(
        discovery_enabled: bool,
        authenticate_only: bool,
        credentials: Option<Credentials>,
    ) -> (out: (Orchestrator, Vec<Action>))
        ensures
            out.0.wf(),
            (out.0@, out.1@) == initial(
                discovery_enabled,
                authenticate_only,
                credentials_view(credentials),
            ),
    {
        let mut actions: Vec<Action> = Vec::new();
        let connect = credentials.is_some();
        let mut state = Orchestrator {
            stage: Stage::NoSession,
            discovery_enabled,
            authenticate_only,
            ever_connected: false,
            last_credentials: credentials,
            event_channel: None,
            window: ReconnectWindow::new(),
            next_attempt: 0,
        };
        if connect {
            state.stage = Stage::Connecting { attempt: 0 };
            state.next_attempt = 1;
            actions.push(Action::Connect { attempt: 0 });
        }
        proof {
            let want = initial(discovery_enabled, authenticate_only, credentials_view(credentials));
            assert(actions@ =~= want.1);
            assert(state@.window =~= want.0.window);
        }
        (state, actions)
    }

    /// Where the loop stands.
    pub fn stage(&self) -> (stage: Stage)
        ensures
            stage == self@.stage,
    {
        self.stage
    }

    /// Whether the loop has ended, and with which exit status.
    pub fn exit_status(&self) -> (status: Option<i32>)
        ensures
            status == match self@.stage {
                Stage::Terminated { status } => Some(status),
                _ => None,
            },
    {
        match self.stage {
            Stage::Terminated { status } => Some(status),
            _ => None,
        }
    }

    /// Whether discovery is still listened to.
    pub fn discovery_enabled(&self) -> (enabled: bool)
        ensures
            enabled == (running(self@.stage) && self@.discovery_enabled),
    {
        self.is_running() && self.discovery_enabled
    }

    /// The attempt whose outcome is awaited, if any.
    pub fn pending_attempt(&self) -> (attempt: Option<u64>)
        ensures
            attempt == match self@.stage {
                Stage::Connecting { attempt } => Some(attempt),
                _ => None,
            },
    {
        match self.stage {
            Stage::Connecting { attempt } => Some(attempt),
            _ => None,
        }
    }

    /// The session whose control task is awaited, if any.
    pub fn held_session(&self) -> (session: Option<u64>)
        ensures
            session == held(self@.stage),
    {
        match self.stage {
            Stage::Active { session } => Some(session),
            Stage::Draining { session } => Some(session),
            _ => None,
        }
    }

    /// The session whose playback events are listened to, if any.
    pub fn event_channel(&self) -> (session: Option<u64>)
        ensures
            session == if running(self@.stage) {
                self@.event_channel
            } else {
                None
            },
    {
        if self.is_running() {
            self.event_channel
        } else {
            None
        }
    }

    /// A copy of the credentials that the next connection will use.
    pub fn last_credentials(&self) -> (c: Option<Credentials>)
        ensures
            credentials_view(c) == self@.last_credentials,
    {
        match &self.last_credentials {
            Some(c) => Some(c.duplicate()),
            None => None,
        }
    }

    /// When the recent automatic reconnections were made, oldest first.
    pub fn reconnect_times(&self) -> (times: Vec<u64>)
        ensures
            times@ == self@.window,
    {
        self.window.times()
    }

    fn is_running(&self) -> (r: bool)
        ensures
            r == running(self@.stage),
    {
        match self.stage {
            Stage::NoSession => true,
            Stage::Connecting { .. } => true,
            Stage::Active { .. } => true,
            _ => false,
        }
    }

    /// Takes the next attempt number.
    fn take_number(&mut self) -> (n: u64)
        ensures
            n == old(self)@.next_attempt,
            final(self)@ == (OrchestratorView {
                next_attempt: next_number(old(self)@.next_attempt),
                ..old(self)@
            }),
    {
        let n: u64 = self.next_attempt;
        if n < u64::MAX {
            self.next_attempt = n + 1;
        }
        n
    }

    /// Handles one event: moves the state and returns what the caller has
    /// to carry out, in order. An event whose source is not listened to in
    /// the present state changes nothing and asks for nothing.
    pub fn step(&mut self, event: Event) -> (actions: Vec<Action>)
        requires
            old(self).wf(),
        ensures
            final(self).wf(),
            (final(self)@, actions@) == transition(old(self)@, event@),
    {
        let ghost want = transition(self@, event@);
        let mut actions: Vec<Action> = Vec::new();
        match event {
            Event::DiscoveredCredentials(credentials) => {
                if self.is_running() && self.discovery_enabled {
                    match self.stage {
                        Stage::Active { session } => {
                            actions.push(Action::StopControl { session });
                            actions.push(Action::DetachControlTask { session });
                        },
                        _ => {},
                    }
                    let attempt = self.take_number();
                    self.last_credentials = Some(credentials);
                    self.window.clear();
                    self.stage = Stage::Connecting { attempt };
                    actions.push(Action::Connect { attempt });
                }
            },
            Event::DiscoveryEnded => {
                if self.is_running() && self.discovery_enabled {
                    self.discovery_enabled = false;
                }
            },
            Event::ConnectionEstablished { attempt } => {
                if self.stage == (Stage::Connecting { attempt }) {
                    if self.authenticate_only {
                        self.stage = Stage::Terminated { status: 0 };
                        actions.push(Action::Exit { status: 0 });
                    } else {
                        self.stage = Stage::Active { session: attempt };
                        self.ever_connected = true;
                        self.event_channel = Some(attempt);
                        actions.push(Action::StartSession { session: attempt });
                    }
                }
            },
            Event::ConnectionFailed { attempt } => {
                if self.stage == (Stage::Connecting { attempt }) {
                    if self.ever_connected {
                        self.stage = Stage::NoSession;
                    } else {
                        self.stage = Stage::Terminated { status: 1 };
                        actions.push(Action::Exit { status: 1 });
                    }
                }
            },
            Event::ControlTaskFinished { session, now } => {
                if self.stage == (Stage::Draining { session }) {
                    self.stage = Stage::Terminated { status: 0 };
                    actions.push(Action::Exit { status: 0 });
                } else if self.stage == (Stage::Active { session }) {
                    if self.last_credentials.is_some() && self.window.record_attempt(now) {
                        let attempt = self.take_number();
                        self.stage = Stage::Connecting { attempt };
                        actions.push(Action::Connect { attempt });
                    } else {
                        self.stage = Stage::NoSession;
                    }
                }
            },
            Event::PlaybackEvent { session } => {
                if self.is_running() && self.event_channel == Some(session) {
                    actions.push(Action::Forward { session });
                }
            },
            Event::EventChannelClosed { session } => {
                if self.is_running() && self.event_channel == Some(session) {
                    self.event_channel = None;
                }
            },
            Event::Interrupt => {
                match self.stage {
                    Stage::Terminated { .. } => {},
                    Stage::Active { session } => {
                        self.stage = Stage::Draining { session };
                        actions.push(Action::StopControl { session });
                    },
                    _ => {
                        self.stage = Stage::Terminated { status: 0 };
                        actions.push(Action::Exit { status: 0 });
                    },
                }
            },
        }
        proof {
            assert(actions@ =~= want.1);
            assert(self@.window =~= want.0.window);
        }
        actions
    }
}

} // verus!
