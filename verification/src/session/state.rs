//! The state of a session, and how the signaling layer and the transport move it.

use vstd::prelude::*;

use crate::error::{session_error, ErrorView, OpenLvError};
use crate::json::Json;
use crate::session::start::{SessionStart, StartAction, StartStage};
use crate::session::transport_choice::select_transport_id;
use crate::signaling::{
    copy_opt_info, copy_opt_signal, CapabilitiesView, PeerInfo, SignalState, SignalView,
    SignalingSnapshot, SnapshotView,
};
use crate::text::copy_opt_text;
use crate::transport::TransportState;
use crate::url::{SessionUri, UriView};

verus! {

/// How many observations of a session are kept for an observer that lags behind.
pub const STATE_CAPACITY: usize = 32;

/// How many requests of the remote peer are kept for an observer that lags behind.
pub const REQUEST_CAPACITY: usize = 32;

/// How many answers of the remote peer are kept for a request that lags behind.
pub const RESPONSE_CAPACITY: usize = 64;

/// How far a session has come.
#[derive(Debug, Clone, Copy, PartialEq, Eq, Structural)]
pub enum SessionState {
    Created,
    Signaling,
    Ready,
    Linking,
    Connected,
    Disconnected,
}

/// A session as its observers see it.
#[derive(Debug)]
pub struct SessionStateObject {
    pub status: SessionState,
    pub signaling: Option<SignalState>,
    pub peer_info: Option<PeerInfo>,
    pub error: Option<String>,
}

/// A [`SessionStateObject`] with its text as characters.
pub struct StateView {
    pub status: SessionState,
    pub signaling: Option<SignalView>,
    pub peer_info: Option<Json>,
    pub error: Option<Seq<char>>,
}

impl View for SessionStateObject {
    type V = StateView;

    open spec fn view(&self) -> StateView {
        StateView {
            status: self.status,
            signaling: crate::signaling::opt_signal(self.signaling),
            peer_info: crate::signaling::opt_info(self.peer_info),
            error: crate::text::opt_text(self.error),
        }
    }
}

impl Clone for SessionStateObject {
    fn clone(&self) -> (copy: Self)
        ensures
            copy@ == self@,
    {
        SessionStateObject {
            status: self.status,
            signaling: copy_opt_signal(&self.signaling),
            peer_info: copy_opt_info(&self.peer_info),
            error: copy_opt_text(&self.error),
        }
    }
}

/// The observation that is there, if any.
pub open spec fn opt_state(state: Option<SessionStateObject>) -> Option<StateView> {
    match state {
        Some(s) => Some(s@),
        None => None,
    }
}

/// One end of a connection between a host and a client.
#[derive(Debug)]
pub struct Session {
    uri: SessionUri,
    is_host: bool,
    status: SessionState,
    error: Option<String>,
    events_waiting: bool,
}

/// A [`Session`] with its texts as characters.
pub struct SessionView {
    pub uri: UriView,
    pub is_host: bool,
    pub status: SessionState,
    /// What went wrong last.
    pub error: Option<Seq<char>>,
    /// Whether nobody has started to listen to the transport's events.
    pub events_waiting: bool,
}

impl View for Session {
    type V = SessionView;

    closed spec fn view(&self) -> SessionView {
        SessionView {
            uri: self.uri@,
            is_host: self.is_host,
            status: self.status,
            error: crate::text::opt_text(self.error),
            events_waiting: self.events_waiting,
        }
    }
}

/// What is to be done after a session was moved.
#[derive(Debug, Clone, Copy, PartialEq, Eq, Structural)]
pub enum NextAction {
    Nothing,
    /// Set the transport up, and report how that went.
    SetUpTransport,
    /// Start to follow the transport's state.
    WatchTransport,
    /// Stop following the transport's state.
    StopWatching,
}

/// What moving a session brings about.
#[derive(Debug)]
pub struct SessionStep {
    /// What to tell the observers.
    pub published: Option<SessionStateObject>,
    pub next: NextAction,
}

/// A [`SessionStep`] with its text as characters.
pub struct StepView {
    pub published: Option<StateView>,
    pub next: NextAction,
}

impl View for SessionStep {
    type V = StepView;

    open spec fn view(&self) -> StepView {
        StepView { published: opt_state(self.published), next: self.next }
    }
}

impl SessionView {
    /// A session as it starts.
    pub open spec fn created(uri: UriView, is_host: bool) -> Self {
        SessionView {
            uri,
            is_host,
            status: SessionState::Created,
            error: None,
            events_waiting: true,
        }
    }

    /// The same session in another status.
    pub open spec fn with_status(self, status: SessionState) -> Self {
        SessionView { status, ..self }
    }

    /// The same session with an error to report.
    pub open spec fn with_error(self, error: Seq<char>) -> Self {
        SessionView { error: Some(error), ..self }
    }

    /// The same session, disconnected for a reason.
    pub open spec fn failed(self, error: Seq<char>) -> Self {
        self.with_error(error).with_status(SessionState::Disconnected)
    }

    /// What observers see of the session.
    pub open spec fn observed(self, signaling: SnapshotView) -> StateView {
        StateView {
            status: self.status,
            signaling: Some(signaling.state),
            peer_info: signaling.peer_info(),
            error: self.error,
        }
    }

    /// The session after it was started.
    pub open spec fn started(self) -> Self {
        SessionView { events_waiting: false, status: SessionState::Signaling, ..self }
    }

    /// Why the session cannot be started, if it cannot.
    pub open spec fn start_refusal(self) -> Option<ErrorView> {
        if self.events_waiting {
            None
        } else {
            Some(ErrorView::Session("session already connected"@))
        }
    }

    /// Why the session is not connected.
    pub open spec fn failure_text(self) -> Seq<char> {
        match self.error {
            Some(error) => error,
            None => "session failed to connect"@,
        }
    }

    /// The transport to use with a peer, if there is one.
    pub open spec fn transport_with(self, peer: Option<CapabilitiesView>) -> Option<Seq<char>> {
        match peer {
            Some(peer) => crate::session::transport_choice::chosen_transport(
                self.is_host,
                seq!["wrtc"@],
                peer.transports,
            ),
            None => None,
        }
    }

    /// The session after the signaling layer reported a state.
    pub open spec fn after_signal(self, state: SignalView, peer: Option<CapabilitiesView>) -> Self {
        match state {
            SignalView::Ready => self.with_status(SessionState::Ready),
            SignalView::Handshake | SignalView::HandshakePartial => self.with_status(
                SessionState::Linking,
            ),
            SignalView::Encrypted => if self.transport_with(peer) is None {
                self.failed("no common transport with peer"@)
            } else {
                self
            },
            SignalView::Error => self.failed("signaling failed or timed out"@),
            SignalView::Other(_) => self,
        }
    }

    /// What a reported signaling state brings about.
    pub open spec fn signal_step(self, state: SignalView, signaling: SnapshotView) -> StepView {
        let sets_up = state is Encrypted && self.transport_with(signaling.peer) is Some;
        StepView {
            published: if sets_up || state is Other {
                None
            } else {
                Some(self.after_signal(state, signaling.peer).observed(signaling))
            },
            next: if sets_up {
                NextAction::SetUpTransport
            } else {
                NextAction::Nothing
            },
        }
    }

    /// The session after the transport reported a state.
    pub open spec fn after_transport(self, state: TransportState) -> Self {
        match state {
            TransportState::Connected => self.with_status(SessionState::Connected),
            TransportState::Error => self.failed("peer-to-peer transport failed"@),
            TransportState::Other => self,
        }
    }

    /// What a reported transport state brings about.
    pub open spec fn transport_step(self, state: TransportState, signaling: SnapshotView) -> StepView {
        StepView {
            published: if state == TransportState::Other {
                None
            } else {
                Some(self.after_transport(state).observed(signaling))
            },
            next: if state == TransportState::Error {
                NextAction::StopWatching
            } else {
                NextAction::Nothing
            },
        }
    }

    /// Once somebody listens to the transport's events, the session has left its
    /// first status.
    pub open spec fn wf(self) -> bool {
        self.events_waiting || self.status != SessionState::Created
    }
}

/// A session that nothing has happened to yet.
pub fn build_session(uri: SessionUri, is_host: bool) -> (session: Session)
    ensures
        session@ == SessionView::created(uri@, is_host),
{
    Session { uri, is_host, status: SessionState::Created, error: None, events_waiting: true }
}

impl Session {
    /// Whether this end is the host.
    pub fn is_host(&self) -> (is_host: bool)
        ensures
            is_host == self@.is_host,
    {
        self.is_host
    }

    /// The URI that a client connects to.
    pub fn uri(&self) -> (uri: &SessionUri)
        ensures
            uri@ == self@.uri,
    {
        &self.uri
    }

    /// How far the session has come.
    pub fn status(&self) -> (status: SessionState)
        ensures
            status == self@.status,
    {
        self.status
    }

    /// What went wrong last.
    pub fn error(&self) -> (error: Option<String>)
        ensures
            crate::text::opt_text(error) == self@.error,
    {
        copy_opt_text(&self.error)
    }

    /// Notes what went wrong.
    pub fn set_error(&mut self, error: String)
        ensures
            final(self)@ == old(self)@.with_error(error@),
    {
        self.error = Some(error);
    }

    /// The session as its observers see it, given what the signaling layer reports.
    pub fn state(&self, signaling: &SignalingSnapshot) -> (state: SessionStateObject)
        ensures
            state@ == self@.observed(signaling@),
    {
        SessionStateObject {
            status: self.status,
            signaling: Some(signaling.state.clone()),
            peer_info: signaling.peer_info(),
            error: copy_opt_text(&self.error),
        }
    }

    /// Moves the session to a status. The result is to tell the observers.
    pub fn set_status(&mut self, new_status: SessionState, signaling: &SignalingSnapshot) -> (published:
        SessionStateObject)
        ensures
            final(self)@ == old(self)@.with_status(new_status),
            published@ == final(self)@.observed(signaling@),
    {
        self.status = new_status;
        self.state(signaling)
    }

    /// Disconnects the session for a reason. The result is to tell the observers.
    pub(crate) fn fail(&mut self, error: &str, signaling: &SignalingSnapshot) -> (published: SessionStateObject)
        ensures
            final(self)@ == old(self)@.failed(error@),
            published@ == final(self)@.observed(signaling@),
    {
        self.set_error(error.to_owned());
        self.set_status(SessionState::Disconnected, signaling)
    }

    /// The transport to use with the remote peer, once it said what it supports.
    pub fn select_transport(&self, signaling: &SignalingSnapshot) -> (selected: Option<String>)
        ensures
            crate::text::opt_text(selected) == self@.transport_with(signaling@.peer),
    {
        match &signaling.peer {
            Some(peer) => {
                let own: [&str; 1] = ["wrtc"];
                assert(crate::text::str_texts(own@) =~= seq!["wrtc"@]);
                match select_transport_id(self.is_host, &own, peer.transports.as_slice()) {
                    Some(transport) => Some(transport.to_owned()),
                    None => None,
                }
            },
            None => None,
        }
    }

    /// Starts the session: the events of the transport get their one listener, and
    /// signaling begins. The observers are to be told first; what comes next,
    /// [`SessionStart::on_event`] says.
    pub fn connect(&mut self, signaling: &SignalingSnapshot) -> (started: Result<
        (SessionStart, StartAction),
        OpenLvError,
    >)
        ensures
            match started {
                Ok((start, action)) => {
                    &&& old(self)@.start_refusal() is None
                    &&& final(self)@ == old(self)@.started()
                    &&& start@ == StartStage::Publishing
                    &&& action matches StartAction::Publish(published) && published@
                        == final(self)@.observed(signaling@)
                },
                Err(error) => {
                    &&& old(self)@.start_refusal() == Some(error@)
                    &&& final(self)@ == old(self)@
                },
            },
    {
        if !self.events_waiting {
            return Err(session_error("session already connected"));
        }
        self.events_waiting = false;
        let published = self.set_status(SessionState::Signaling, signaling);
        Ok((SessionStart::begin(), StartAction::Publish(published)))
    }

    /// Maps a signaling state onto the session. Once the handshake is complete the
    /// transport is to be set up, unless the peers have none in common.
    pub fn on_signal_state(&mut self, state: SignalState, signaling: &SignalingSnapshot) -> (step:
        SessionStep)
        ensures
            final(self)@ == old(self)@.after_signal(state@, signaling@.peer),
            step@ == old(self)@.signal_step(state@, signaling@),
    {
        match state {
            SignalState::Ready => {
                let published = self.set_status(SessionState::Ready, signaling);
                SessionStep { published: Some(published), next: NextAction::Nothing }
            },
            SignalState::Handshake | SignalState::HandshakePartial => {
                let published = self.set_status(SessionState::Linking, signaling);
                SessionStep { published: Some(published), next: NextAction::Nothing }
            },
            SignalState::Encrypted => {
                if self.select_transport(signaling).is_none() {
                    let published = self.fail("no common transport with peer", signaling);
                    SessionStep { published: Some(published), next: NextAction::Nothing }
                } else {
                    SessionStep { published: None, next: NextAction::SetUpTransport }
                }
            },
            SignalState::Error => {
                let published = self.fail("signaling failed or timed out", signaling);
                SessionStep { published: Some(published), next: NextAction::Nothing }
            },
            SignalState::Other(_) => SessionStep { published: None, next: NextAction::Nothing },
        }
    }

    /// Takes notice of how setting up the transport went: its state is followed from
    /// then on, or the session is disconnected with the error's message.
    pub fn on_transport_setup(
        &mut self,
        outcome: Result<(), String>,
        signaling: &SignalingSnapshot,
    ) -> (step: SessionStep)
        ensures
            match outcome {
                Ok(_) => {
                    &&& final(self)@ == old(self)@
                    &&& step@ == (StepView { published: None, next: NextAction::WatchTransport })
                },
                Err(message) => {
                    &&& final(self)@ == old(self)@.failed(message@)
                    &&& step@ == (StepView {
                        published: Some(final(self)@.observed(signaling@)),
                        next: NextAction::Nothing,
                    })
                },
            },
    {
        match outcome {
            Ok(_) => SessionStep { published: None, next: NextAction::WatchTransport },
            Err(message) => {
                let published = self.fail(message.as_str(), signaling);
                SessionStep { published: Some(published), next: NextAction::Nothing }
            },
        }
    }

    /// Maps a transport state onto the session. After a failure the transport is not
    /// followed any longer.
    pub fn on_transport_state(&mut self, state: TransportState, signaling: &SignalingSnapshot) -> (step:
        SessionStep)
        ensures
            final(self)@ == old(self)@.after_transport(state),
            step@ == old(self)@.transport_step(state, signaling@),
    {
        match state {
            TransportState::Connected => {
                let published = self.set_status(SessionState::Connected, signaling);
                SessionStep { published: Some(published), next: NextAction::Nothing }
            },
            TransportState::Error => {
                let published = self.fail("peer-to-peer transport failed", signaling);
                SessionStep { published: Some(published), next: NextAction::StopWatching }
            },
            TransportState::Other => SessionStep { published: None, next: NextAction::Nothing },
        }
    }
}

} // verus!
