//! The session state machine.
//!
//! One connection to the event stream is live at a time. The machine is
//! told what happened (an event) and answers what to do next (an action);
//! the caller owns the socket and the clock. A connection counts only once
//! the upstream has welcomed it, and notifications count only once the
//! subscriptions have been reconciled for the welcomed session.

use crate::config::RECONNECT_DELAY_SECS;
use crate::state::{OnlineChannels, SessionIdentity, SessionIdentityView};
use crate::text::{lowercased, to_lowercase};
use crate::twitch::eventsub::{handle_ws_message, frame_meaning, Inbound, InboundView, WsFrame};
use crate::twitch::types::{StreamOnline, StreamOnlineView};
use vstd::prelude::*;
use vstd::string::*;

verus! {

/// Where the session stands.
#[derive(Debug, Clone, PartialEq, Eq)]
pub enum Phase {
    /// No socket; the next dial goes to the default address.
    Disconnected,
    /// A dial is under way, or the socket is open and the welcome is
    /// awaited.
    Connecting { established: bool },
    /// The welcome has arrived and reconciliation is running.
    Welcomed,
    /// Inbound notifications are acted on.
    Streaming,
    /// No socket; the next dial goes to the address the upstream gave.
    Reconnecting { url: String },
    /// Shut down for good.
    Stopped,
}

/// What a `Phase` holds, as plain values.
pub enum PhaseView {
    Disconnected,
    Connecting { established: bool },
    Welcomed,
    Streaming,
    Reconnecting { url: Seq<char> },
    Stopped,
}

impl View for Phase {
    type V = PhaseView;

    open spec fn view(&self) -> PhaseView {
        match *self {
            Phase::Disconnected => PhaseView::Disconnected,
            Phase::Connecting { established } => PhaseView::Connecting { established },
            Phase::Welcomed => PhaseView::Welcomed,
            Phase::Streaming => PhaseView::Streaming,
            Phase::Reconnecting { url } => PhaseView::Reconnecting { url: url@ },
            Phase::Stopped => PhaseView::Stopped,
        }
    }
}

/// What happened since the last action.
#[derive(Debug, Clone, PartialEq, Eq)]
pub enum SessionEvent {
    /// It is time to dial: at the start, or when a wait is over.
    Dial,
    /// The dial succeeded and the socket is open.
    Connected,
    /// A frame arrived.
    Frame(Inbound),
    /// Reconciliation for the welcomed session has finished.
    Reconciled,
    /// The socket was closed, by either side.
    Closed,
    /// The dial or the socket failed.
    TransportError,
    /// The process was asked to stop.
    Shutdown,
}

/// What a `SessionEvent` holds, as plain values.
pub enum SessionEventView {
    Dial,
    Connected,
    Frame(InboundView),
    Reconciled,
    Closed,
    TransportError,
    Shutdown,
}

impl View for SessionEvent {
    type V = SessionEventView;

    open spec fn view(&self) -> SessionEventView {
        match *self {
            SessionEvent::Dial => SessionEventView::Dial,
            SessionEvent::Connected => SessionEventView::Connected,
            SessionEvent::Frame(inbound) => SessionEventView::Frame(inbound@),
            SessionEvent::Reconciled => SessionEventView::Reconciled,
            SessionEvent::Closed => SessionEventView::Closed,
            SessionEvent::TransportError => SessionEventView::TransportError,
            SessionEvent::Shutdown => SessionEventView::Shutdown,
        }
    }
}

/// What the caller is to do next.
#[derive(Debug, Clone, PartialEq, Eq)]
pub enum SessionAction {
    /// Dial this address, then report `Connected` or `TransportError`.
    Connect { url: String },
    /// Reconcile the subscriptions for this session, then report
    /// `Reconciled`.
    Reconcile { session_id: String },
    /// Tell the recipients of `channel` about `event`, then read on.
    Notify { channel: String, event: StreamOnline },
    /// Drop the socket if one is open, wait this long, then report `Dial`.
    Wait { seconds: u64 },
    /// Read the next frame.
    AwaitFrame,
    /// Log the frame as malformed, then read the next one.
    DropFrame,
    /// The event had no place in this phase; carry on as before.
    Nothing,
    /// Stop for good.
    Stop,
}

/// What a `SessionAction` holds, as plain values.
pub enum SessionActionView {
    Connect { url: Seq<char> },
    Reconcile { session_id: Seq<char> },
    Notify { channel: Seq<char>, event: StreamOnlineView },
    Wait { seconds: u64 },
    AwaitFrame,
    DropFrame,
    Nothing,
    Stop,
}

impl View for SessionAction {
    type V = SessionActionView;

    open spec fn view(&self) -> SessionActionView {
        match *self {
            SessionAction::Connect { url } => SessionActionView::Connect { url: url@ },
            SessionAction::Reconcile { session_id } => SessionActionView::Reconcile {
                session_id: session_id@,
            },
            SessionAction::Notify { channel, event } => SessionActionView::Notify {
                channel: channel@,
                event: event@,
            },
            SessionAction::Wait { seconds } => SessionActionView::Wait { seconds },
            SessionAction::AwaitFrame => SessionActionView::AwaitFrame,
            SessionAction::DropFrame => SessionActionView::DropFrame,
            SessionAction::Nothing => SessionActionView::Nothing,
            SessionAction::Stop => SessionActionView::Stop,
        }
    }
}

/// The whole state of a session, as plain values.
pub struct SessionView {
    pub phase: PhaseView,
    pub online: Set<Seq<char>>,
    pub identity: Option<SessionIdentityView>,
}

/// The address dialled when the upstream gave no other.
pub open spec fn default_url() -> Seq<char> {
    "wss://eventsub.wss.twitch.tv/ws"@
}

/// The state of a session that has not dialled yet.
pub open spec fn initial_session() -> SessionView {
    SessionView { phase: PhaseView::Disconnected, online: Set::empty(), identity: None }
}

/// Whether a socket is open, or being opened, in this phase.
pub open spec fn has_connection(phase: PhaseView) -> bool {
    phase is Connecting || phase is Welcomed || phase is Streaming
}

/// Whether frames are read in this phase.
pub open spec fn reads_frames(phase: PhaseView) -> bool {
    phase == (PhaseView::Connecting { established: true }) || phase is Welcomed
        || phase is Streaming
}

/// A session identity once its connection is gone.
pub open spec fn retired(identity: Option<SessionIdentityView>) -> Option<SessionIdentityView> {
    match identity {
        Some(current) => Some(SessionIdentityView { session_id: current.session_id, live: false }),
        None => None,
    }
}

/// The connection is gone: wait, then dial the default address.
pub open spec fn after_loss(session: SessionView) -> (SessionView, SessionActionView) {
    if has_connection(session.phase) {
        (
            SessionView {
                phase: PhaseView::Disconnected,
                online: session.online,
                identity: retired(session.identity),
            },
            SessionActionView::Wait { seconds: RECONNECT_DELAY_SECS },
        )
    } else {
        (session, SessionActionView::Nothing)
    }
}

/// The upstream asked to move: drop the socket, wait, then dial `url`.
pub open spec fn after_redirect(session: SessionView, url: Seq<char>) -> (
    SessionView,
    SessionActionView,
) {
    (
        SessionView {
            phase: PhaseView::Reconnecting { url },
            online: session.online,
            identity: retired(session.identity),
        },
        SessionActionView::Wait { seconds: RECONNECT_DELAY_SECS },
    )
}

/// A frame arrived.
///
/// Before the welcome only a welcome or a redirect counts. While
/// reconciliation runs only a redirect counts. While streaming, an online
/// event notifies if its channel, in lower case, was not known to be live;
/// an offline event forgets the channel; a repeated welcome is passed over.
pub open spec fn after_frame(session: SessionView, inbound: InboundView) -> (
    SessionView,
    SessionActionView,
) {
    if !reads_frames(session.phase) {
        (session, SessionActionView::Nothing)
    } else {
        match inbound {
            InboundView::Reconnect(url) => after_redirect(session, url),
            InboundView::Malformed => (session, SessionActionView::DropFrame),
            InboundView::Ignored => (session, SessionActionView::AwaitFrame),
            InboundView::Welcome(id) => if session.phase is Connecting {
                (
                    SessionView {
                        phase: PhaseView::Welcomed,
                        online: session.online,
                        identity: Some(SessionIdentityView { session_id: id, live: true }),
                    },
                    SessionActionView::Reconcile { session_id: id },
                )
            } else {
                (session, SessionActionView::AwaitFrame)
            },
            InboundView::Online(event) => if session.phase is Streaming {
                let channel = lowercased(event.broadcaster_user_login);
                (
                    SessionView {
                        phase: session.phase,
                        online: session.online.insert(channel),
                        identity: session.identity,
                    },
                    if session.online.contains(channel) {
                        SessionActionView::AwaitFrame
                    } else {
                        SessionActionView::Notify { channel, event }
                    },
                )
            } else {
                (session, SessionActionView::AwaitFrame)
            },
            InboundView::Offline(login) => if session.phase is Streaming {
                (
                    SessionView {
                        phase: session.phase,
                        online: session.online.remove(lowercased(login)),
                        identity: session.identity,
                    },
                    SessionActionView::AwaitFrame,
                )
            } else {
                (session, SessionActionView::AwaitFrame)
            },
        }
    }
}

/// The transition of the session: the state after an event, and the action
/// it calls for. An event that has no place in the current phase changes
/// nothing.
pub open spec fn next_session(session: SessionView, event: SessionEventView) -> (
    SessionView,
    SessionActionView,
) {
    if session.phase is Stopped {
        (session, SessionActionView::Stop)
    } else {
        match event {
            SessionEventView::Shutdown => (
                SessionView {
                    phase: PhaseView::Stopped,
                    online: session.online,
                    identity: retired(session.identity),
                },
                SessionActionView::Stop,
            ),
            SessionEventView::Dial => match session.phase {
                PhaseView::Disconnected => (
                    SessionView {
                        phase: PhaseView::Connecting { established: false },
                        online: session.online,
                        identity: session.identity,
                    },
                    SessionActionView::Connect { url: default_url() },
                ),
                PhaseView::Reconnecting { url } => (
                    SessionView {
                        phase: PhaseView::Connecting { established: false },
                        online: session.online,
                        identity: session.identity,
                    },
                    SessionActionView::Connect { url },
                ),
                _ => (session, SessionActionView::Nothing),
            },
            SessionEventView::Connected => if session.phase == (PhaseView::Connecting {
                established: false,
            }) {
                (
                    SessionView {
                        phase: PhaseView::Connecting { established: true },
                        online: Set::empty(),
                        identity: session.identity,
                    },
                    SessionActionView::AwaitFrame,
                )
            } else {
                (session, SessionActionView::Nothing)
            },
            SessionEventView::Frame(inbound) => after_frame(session, inbound),
            SessionEventView::Reconciled => if session.phase is Welcomed {
                (
                    SessionView {
                        phase: PhaseView::Streaming,
                        online: session.online,
                        identity: session.identity,
                    },
                    SessionActionView::AwaitFrame,
                )
            } else {
                (session, SessionActionView::Nothing)
            },
            SessionEventView::Closed => after_loss(session),
            SessionEventView::TransportError => after_loss(session),
        }
    }
}

/// The identity a session holds, as plain values.
pub open spec fn identity_view(identity: Option<SessionIdentity>) -> Option<SessionIdentityView> {
    match identity {
        Some(current) => Some(current@),
        None => None,
    }
}

/// The session: its phase, the channels known to be live on the current
/// connection, and the identity that subscriptions are bound to.
pub struct SessionManager {
    phase: Phase,
    online: OnlineChannels,
    identity: Option<SessionIdentity>,
}

impl View for SessionManager {
    type V = SessionView;

    closed spec fn view(&self) -> SessionView {
        SessionView {
            phase: self.phase@,
            online: self.online@,
            identity: identity_view(self.identity),
        }
    }
}

fn retire(identity: Option<SessionIdentity>) -> (out: Option<SessionIdentity>)
    ensures
        identity_view(out) == retired(identity_view(identity)),
{
    match identity {
        Some(current) => Some(SessionIdentity { session_id: current.session_id, live: false }),
        None => None,
    }
}

/// Starts the session: the first thing to do is to dial the default
/// address.
pub fn start_eventsub_task() -> (start: (SessionManager, SessionAction))
    ensures
        (start.0@, start.1@) == next_session(initial_session(), SessionEventView::Dial),
{
    SessionManager::new().step(SessionEvent::Dial)
}

impl SessionManager {
    /// A session that has not dialled yet.
    pub fn new() -> (manager: SessionManager)
        ensures
            manager@ == initial_session(),
    {
        SessionManager { phase: Phase::Disconnected, online: OnlineChannels::new(), identity: None }
    }

    /// The current phase.
    pub fn phase(&self) -> (phase: &Phase)
        ensures
            phase@ == self@.phase,
    {
        &self.phase
    }

    /// The identity of the last welcomed session, if there was one.
    pub fn identity(&self) -> (identity: &Option<SessionIdentity>)
        ensures
            identity_view(*identity) == self@.identity,
    {
        &self.identity
    }

    /// Tells whether `channel` is known to be live.
    pub fn is_online(&self, channel: &str) -> (known: bool)
        ensures
            known == self@.online.contains(channel@),
    {
        self.online.is_online(channel)
    }

    fn lose(self) -> (next: (SessionManager, SessionAction))
        ensures
            (next.0@, next.1@) == after_loss(self@),
    {
        let SessionManager { phase, online, identity } = self;
        match phase {
            Phase::Connecting { .. } | Phase::Welcomed | Phase::Streaming => (
                SessionManager { phase: Phase::Disconnected, online, identity: retire(identity) },
                SessionAction::Wait { seconds: RECONNECT_DELAY_SECS },
            ),
            other => (SessionManager { phase: other, online, identity }, SessionAction::Nothing),
        }
    }

    fn receive(self, inbound: Inbound) -> (next: (SessionManager, SessionAction))
        ensures
            (next.0@, next.1@) == after_frame(self@, inbound@),
    {
        let SessionManager { phase, mut online, identity } = self;
        let streaming = match &phase {
            Phase::Streaming => true,
            _ => false,
        };
        let connecting = match &phase {
            Phase::Connecting { established } => *established,
            _ => false,
        };
        let welcomed = match &phase {
            Phase::Welcomed => true,
            _ => false,
        };
        if !(streaming || connecting || welcomed) {
            return (SessionManager { phase, online, identity }, SessionAction::Nothing);
        }
        match inbound {
            Inbound::Reconnect(reconnect) => (
                SessionManager {
                    phase: Phase::Reconnecting { url: reconnect.session.reconnect_url },
                    online,
                    identity: retire(identity),
                },
                SessionAction::Wait { seconds: RECONNECT_DELAY_SECS },
            ),
            Inbound::Malformed => (
                SessionManager { phase, online, identity },
                SessionAction::DropFrame,
            ),
            Inbound::Ignored => (
                SessionManager { phase, online, identity },
                SessionAction::AwaitFrame,
            ),
            Inbound::Welcome(welcome) => {
                if connecting {
                    let session_id = welcome.session.id;
                    let bound = SessionIdentity { session_id: session_id.clone(), live: true };
                    (
                        SessionManager { phase: Phase::Welcomed, online, identity: Some(bound) },
                        SessionAction::Reconcile { session_id },
                    )
                } else {
                    (SessionManager { phase, online, identity }, SessionAction::AwaitFrame)
                }
            },
            Inbound::Online(event) => {
                if streaming {
                    let channel = to_lowercase(event.broadcaster_user_login.as_str());
                    let first = online.mark_online(channel.as_str());
                    let action = if first {
                        SessionAction::Notify { channel, event }
                    } else {
                        SessionAction::AwaitFrame
                    };
                    (SessionManager { phase, online, identity }, action)
                } else {
                    (SessionManager { phase, online, identity }, SessionAction::AwaitFrame)
                }
            },
            Inbound::Offline(offline) => {
                if streaming {
                    let channel = to_lowercase(offline.broadcaster_user_login.as_str());
                    online.mark_offline(channel.as_str());
                    (SessionManager { phase, online, identity }, SessionAction::AwaitFrame)
                } else {
                    (SessionManager { phase, online, identity }, SessionAction::AwaitFrame)
                }
            },
        }
    }

    /// Takes one event and answers with the state that follows and the
    /// action it calls for.
    pub fn step(self, event: SessionEvent) -> (next: (SessionManager, SessionAction))
        ensures
            (next.0@, next.1@) == next_session(self@, event@),
    {
        let stopped = match &self.phase {
            Phase::Stopped => true,
            _ => false,
        };
        if stopped {
            return (self, SessionAction::Stop);
        }
        match event {
            SessionEvent::Shutdown => {
                let SessionManager { phase, online, identity } = self;
                (
                    SessionManager { phase: Phase::Stopped, online, identity: retire(identity) },
                    SessionAction::Stop,
                )
            },
            SessionEvent::Dial => {
                let SessionManager { phase, online, identity } = self;
                match phase {
                    Phase::Disconnected => (
                        SessionManager {
                            phase: Phase::Connecting { established: false },
                            online,
                            identity,
                        },
                        SessionAction::Connect {
                            url: String::from_str("wss://eventsub.wss.twitch.tv/ws"),
                        },
                    ),
                    Phase::Reconnecting { url } => (
                        SessionManager {
                            phase: Phase::Connecting { established: false },
                            online,
                            identity,
                        },
                        SessionAction::Connect { url },
                    ),
                    other => (
                        SessionManager { phase: other, online, identity },
                        SessionAction::Nothing,
                    ),
                }
            },
            SessionEvent::Connected => {
                let SessionManager { phase, mut online, identity } = self;
                match phase {
                    Phase::Connecting { established: false } => {
                        online.reset();
                        (
                            SessionManager {
                                phase: Phase::Connecting { established: true },
                                online,
                                identity,
                            },
                            SessionAction::AwaitFrame,
                        )
                    },
                    other => (
                        SessionManager { phase: other, online, identity },
                        SessionAction::Nothing,
                    ),
                }
            },
            SessionEvent::Frame(inbound) => self.receive(inbound),
            SessionEvent::Reconciled => {
                let SessionManager { phase, online, identity } = self;
                match phase {
                    Phase::Welcomed => (
                        SessionManager { phase: Phase::Streaming, online, identity },
                        SessionAction::AwaitFrame,
                    ),
                    other => (
                        SessionManager { phase: other, online, identity },
                        SessionAction::Nothing,
                    ),
                }
            },
            SessionEvent::Closed => self.lose(),
            SessionEvent::TransportError => self.lose(),
        }
    }

    /// Decodes a frame from the socket and takes it as an event.
    pub fn handle_frame(self, frame: &WsFrame) -> (next: (SessionManager, SessionAction))
        ensures
            (next.0@, next.1@) == next_session(
                self@,
                SessionEventView::Frame(frame_meaning(*frame)),
            ),
    {
        let inbound = handle_ws_message(frame);
        self.step(SessionEvent::Frame(inbound))
    }
}

/// The identity is live exactly while a welcomed connection stands.
pub open spec fn identity_matches_phase(session: SessionView) -> bool {
    (session.identity is Some && session.identity->0.live) <==> (session.phase is Welcomed
        || session.phase is Streaming)
}

/// A session starts with no live identity, and no event breaks the tie
/// between the identity being live and a welcomed connection standing.
pub proof fn lemma_identity_follows_phase(session: SessionView, event: SessionEventView)
    requires
        identity_matches_phase(session),
    ensures
        identity_matches_phase(initial_session()),
        identity_matches_phase(next_session(session, event).0),
{
}

/// No connection streams without having been welcomed: a session enters
/// `Welcomed` only from an open connection by a welcome frame, and
/// `Streaming` only from `Welcomed` when reconciliation is done.
pub proof fn lemma_welcome_precedes_streaming(session: SessionView, event: SessionEventView)
    ensures
        ({
            let after = next_session(session, event).0;
            &&& after.phase is Streaming && !(session.phase is Streaming) ==> session.phase
                is Welcomed && event is Reconciled
            &&& after.phase is Welcomed && !(session.phase is Welcomed) ==> session.phase == (
            PhaseView::Connecting { established: true }) && event is Frame && event->Frame_0
                is Welcome
        }),
{
}

/// Whenever a connection is established, nothing is known to be live any
/// more; and until it is welcomed the set stays empty.
pub proof fn lemma_new_connection_knows_nothing(session: SessionView, event: SessionEventView)
    ensures
        ({
            let after = next_session(session, event).0;
            &&& after.phase == (PhaseView::Connecting { established: true }) && session.phase
                != after.phase ==> after.online == Set::<Seq<char>>::empty()
            &&& session.phase == (PhaseView::Connecting { established: true }) && after.phase
                is Welcomed ==> after.online == session.online
        }),
{
}

/// A redirect is followed once. From any phase that reads frames, a
/// reconnect message makes the session wait and then dial the address it
/// carried; the connection that follows starts with nothing known to be
/// live, and its welcome is answered by a reconciliation for the new
/// session. If that connection is lost, the next dial goes to the default
/// address again.
pub proof fn lemma_redirect_followed_once(
    session: SessionView,
    url: Seq<char>,
    session_id: Seq<char>,
)
    requires
        reads_frames(session.phase),
    ensures
        ({
            let (waiting, wait) = next_session(
                session,
                SessionEventView::Frame(InboundView::Reconnect(url)),
            );
            let (dialling, dial) = next_session(waiting, SessionEventView::Dial);
            let (open, read) = next_session(dialling, SessionEventView::Connected);
            let (welcomed, reconcile) = next_session(
                open,
                SessionEventView::Frame(InboundView::Welcome(session_id)),
            );
            let (lost, pause) = next_session(open, SessionEventView::Closed);
            let (again, redial) = next_session(lost, SessionEventView::Dial);
            &&& wait == SessionActionView::Wait { seconds: RECONNECT_DELAY_SECS }
            &&& waiting.online == session.online
            &&& dial == SessionActionView::Connect { url }
            &&& open.online == Set::<Seq<char>>::empty()
            &&& read == SessionActionView::AwaitFrame
            &&& reconcile == SessionActionView::Reconcile { session_id }
            &&& welcomed.phase is Welcomed
            &&& welcomed.online == Set::<Seq<char>>::empty()
            &&& pause == SessionActionView::Wait { seconds: RECONNECT_DELAY_SECS }
            &&& redial == SessionActionView::Connect { url: default_url() }
        }),
{
}

/// While streaming, two online events in a row for the same channel
/// notify once: the second is passed over, whatever the spelling of the
/// login, as long as both spell the same channel in lower case.
pub proof fn lemma_repeated_online_notifies_once(
    session: SessionView,
    first: StreamOnlineView,
    second: StreamOnlineView,
)
    requires
        session.phase is Streaming,
        lowercased(first.broadcaster_user_login) == lowercased(second.broadcaster_user_login),
    ensures
        ({
            let (once, _) = next_session(session, SessionEventView::Frame(InboundView::Online(first)));
            let (twice, action) = next_session(
                once,
                SessionEventView::Frame(InboundView::Online(second)),
            );
            action == SessionActionView::AwaitFrame && twice == once
        }),
{
    let channel = lowercased(first.broadcaster_user_login);
    assert(session.online.insert(channel).insert(channel) =~= session.online.insert(channel));
}

/// While streaming, an online event that follows the channel's offline
/// event notifies again.
pub proof fn lemma_online_after_offline_notifies(
    session: SessionView,
    login: Seq<char>,
    event: StreamOnlineView,
)
    requires
        session.phase is Streaming,
        lowercased(login) == lowercased(event.broadcaster_user_login),
    ensures
        ({
            let (off, _) = next_session(session, SessionEventView::Frame(InboundView::Offline(login)));
            let (_, action) = next_session(off, SessionEventView::Frame(InboundView::Online(event)));
            action == SessionActionView::Notify { channel: lowercased(login), event }
        }),
{
}

/// Once stopped, a session stays stopped and asks for nothing more.
pub proof fn lemma_stopped_is_final(session: SessionView, event: SessionEventView)
    ensures
        next_session(session, SessionEventView::Shutdown).0.phase is Stopped,
        next_session(session, SessionEventView::Shutdown).1 == SessionActionView::Stop,
        session.phase is Stopped ==> next_session(session, event) == (
            session,
            SessionActionView::Stop,
        ),
{
}

} // verus!
