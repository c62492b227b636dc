//! Waiting until the transport links both peers.

use vstd::prelude::*;

use crate::error::{session_error, ErrorView, OpenLvError};
use crate::session::state::{Session, SessionState, SessionStateObject, SessionView, StateView};
use crate::signaling::{SignalingSnapshot, SnapshotView};
use crate::transport::TransportState;

verus! {

/// What whoever waits for the link hears of the transport.
#[derive(Debug, Clone, Copy, PartialEq, Eq, Structural)]
pub enum LinkEvent {
    /// The transport reached a state.
    Reached(TransportState),
    /// The transport reports nothing any longer.
    Closed,
    /// Some reports were missed.
    Lagged,
}

/// What waiting has come to.
#[derive(Debug)]
pub struct LinkStep {
    /// What to tell the observers.
    pub published: Option<SessionStateObject>,
    /// How the waiting ends; nothing while it goes on.
    pub outcome: Option<Result<(), OpenLvError>>,
}

/// How waiting stands.
pub enum LinkOutcome {
    Waiting,
    Linked,
    Failed(ErrorView),
}

/// A [`LinkStep`] with its texts as characters.
pub struct LinkStepView {
    pub published: Option<StateView>,
    pub outcome: LinkOutcome,
}

impl View for LinkStep {
    type V = LinkStepView;

    open spec fn view(&self) -> LinkStepView {
        LinkStepView {
            published: crate::session::state::opt_state(self.published),
            outcome: match self.outcome {
                None => LinkOutcome::Waiting,
                Some(Ok(_)) => LinkOutcome::Linked,
                Some(Err(error)) => LinkOutcome::Failed(error@),
            },
        }
    }
}

impl SessionView {
    /// How waiting stands when it begins, while the transport is in a state.
    pub open spec fn link_begun(self, now: TransportState) -> LinkOutcome {
        if self.status == SessionState::Connected {
            LinkOutcome::Linked
        } else if self.status == SessionState::Disconnected {
            LinkOutcome::Failed(ErrorView::Session(self.failure_text()))
        } else if now == TransportState::Connected {
            LinkOutcome::Linked
        } else {
            LinkOutcome::Waiting
        }
    }

    /// The session when waiting has begun: it is connected if the transport is, unless
    /// it was already connected or disconnected.
    pub open spec fn after_link_begun(self, now: TransportState) -> Self {
        if self.status != SessionState::Disconnected && now == TransportState::Connected {
            self.with_status(SessionState::Connected)
        } else {
            self
        }
    }

    /// What the beginning of waiting brings about.
    pub open spec fn link_begun_step(self, now: TransportState, signaling: SnapshotView) -> LinkStepView {
        LinkStepView {
            published: if self.status != SessionState::Connected && self.status
                != SessionState::Disconnected && now == TransportState::Connected {
                Some(self.after_link_begun(now).observed(signaling))
            } else {
                None
            },
            outcome: self.link_begun(now),
        }
    }

    /// The session after an event, while the transport is in a state.
    pub open spec fn after_link_event(self, event: LinkEvent, now: TransportState) -> Self {
        if event == LinkEvent::Reached(TransportState::Error) {
            self.failed("peer-to-peer transport failed"@)
        } else if event == LinkEvent::Reached(TransportState::Connected) || now
            == TransportState::Connected {
            self.with_status(SessionState::Connected)
        } else {
            self
        }
    }
}

/// How waiting stands after an event, while the transport is in a state.
pub open spec fn link_outcome(event: LinkEvent, now: TransportState) -> LinkOutcome {
    if event == LinkEvent::Reached(TransportState::Error) {
        LinkOutcome::Failed(ErrorView::Session("peer-to-peer transport failed"@))
    } else if event == LinkEvent::Reached(TransportState::Connected) || now
        == TransportState::Connected {
        LinkOutcome::Linked
    } else if event == LinkEvent::Closed {
        LinkOutcome::Failed(ErrorView::Session("transport state channel closed"@))
    } else {
        LinkOutcome::Waiting
    }
}

/// Whether an event, while the transport is in a state, moves the session.
pub open spec fn link_event_moves(event: LinkEvent, now: TransportState) -> bool {
    ||| event == LinkEvent::Reached(TransportState::Error)
    ||| event == LinkEvent::Reached(TransportState::Connected)
    ||| now == TransportState::Connected
}

impl Session {
    fn linked(&mut self, signaling: &SignalingSnapshot) -> (step: LinkStep)
        ensures
            final(self)@ == old(self)@.with_status(SessionState::Connected),
            step@ == (LinkStepView {
                published: Some(final(self)@.observed(signaling@)),
                outcome: LinkOutcome::Linked,
            }),
    {
        let published = self.set_status(SessionState::Connected, signaling);
        LinkStep { published: Some(published), outcome: Some(Ok(())) }
    }

    /// Why the session is not connected.
    fn failure(&self) -> (error: OpenLvError)
        ensures
            error@ == ErrorView::Session(self@.failure_text()),
    {
        match self.error() {
            Some(text) => OpenLvError::Session(text),
            None => session_error("session failed to connect"),
        }
    }

    /// Begins to wait until the transport reports that it is connected. `now` is the
    /// transport's state at the moment.
    pub fn wait_for_link(&mut self, now: TransportState, signaling: &SignalingSnapshot) -> (step:
        LinkStep)
        ensures
            final(self)@ == old(self)@.after_link_begun(now),
            step@ == old(self)@.link_begun_step(now, signaling@),
    {
        match self.status() {
            SessionState::Connected => {
                return LinkStep { published: None, outcome: Some(Ok(())) };
            },
            SessionState::Disconnected => {
                return LinkStep { published: None, outcome: Some(Err(self.failure())) };
            },
            _ => {},
        }
        if now == TransportState::Connected {
            return self.linked(signaling);
        }
        LinkStep { published: None, outcome: None }
    }

    /// Goes on waiting after an event. `now` is the transport's state at the moment.
    pub fn on_link_event(
        &mut self,
        event: LinkEvent,
        now: TransportState,
        signaling: &SignalingSnapshot,
    ) -> (step: LinkStep)
        ensures
            final(self)@ == old(self)@.after_link_event(event, now),
            step@ == (LinkStepView {
                published: if link_event_moves(event, now) {
                    Some(final(self)@.observed(signaling@))
                } else {
                    None
                },
                outcome: link_outcome(event, now),
            }),
    {
        match event {
            LinkEvent::Reached(TransportState::Connected) => self.linked(signaling),
            LinkEvent::Reached(TransportState::Error) => {
                let published = self.fail("peer-to-peer transport failed", signaling);
                LinkStep { published: Some(published), outcome: Some(Err(self.failure())) }
            },
            LinkEvent::Reached(TransportState::Other) | LinkEvent::Lagged => {
                if now == TransportState::Connected {
                    self.linked(signaling)
                } else {
                    LinkStep { published: None, outcome: None }
                }
            },
            LinkEvent::Closed => {
                if now == TransportState::Connected {
                    self.linked(signaling)
                } else {
                    LinkStep {
                        published: None,
                        outcome: Some(Err(session_error("transport state channel closed"))),
                    }
                }
            },
        }
    }
}

/// An event together with the state that the transport was in when it was taken up.
pub struct LinkObservation {
    pub event: LinkEvent,
    pub now: TransportState,
}

/// Where waiting stands after some events: the session, how waiting stands, and how
/// many events were taken up.
pub struct LinkRun {
    pub session: SessionView,
    pub outcome: LinkOutcome,
    pub heard: nat,
}

/// Waiting from its beginning through a sequence of events; it stops where it is
/// decided.
pub open spec fn link_run(
    session: SessionView,
    now: TransportState,
    events: Seq<LinkObservation>,
) -> LinkRun
    decreases events.len(),
{
    if events.len() == 0 {
        LinkRun {
            session: session.after_link_begun(now),
            outcome: session.link_begun(now),
            heard: 0,
        }
    } else {
        let before = link_run(session, now, events.drop_last());
        if before.outcome is Waiting {
            let last = events.last();
            LinkRun {
                session: before.session.after_link_event(last.event, last.now),
                outcome: link_outcome(last.event, last.now),
                heard: before.heard + 1,
            }
        } else {
            before
        }
    }
}

/// However the session was moved meanwhile, waiting that ends well ends with a connected
/// session, and waiting that fails because the transport failed ends with a disconnected
/// one that reports it.
pub proof fn law_link_ends_in_matching_status(
    session: SessionView,
    event: LinkEvent,
    now: TransportState,
)
    ensures
        link_outcome(event, now) is Linked ==> session.after_link_event(event, now).status
            == SessionState::Connected,
        event == LinkEvent::Reached(TransportState::Error) ==> {
            let after = session.after_link_event(event, now);
            &&& after.status == SessionState::Disconnected
            &&& link_outcome(event, now) == LinkOutcome::Failed(
                ErrorView::Session(after.failure_text()),
            )
        },
        session.link_begun(now) is Linked ==> session.after_link_begun(now).status
            == SessionState::Connected,
{
}

/// Waiting through any events: it succeeds only with a connected session; while it goes
/// on, and when it ends because the reports ended, the session has not been moved by it.
pub proof fn law_link_run(session: SessionView, now: TransportState, events: Seq<LinkObservation>)
    ensures
        ({
            let run = link_run(session, now, events);
            &&& run.heard <= events.len()
            &&& run.outcome is Linked ==> run.session == session.with_status(
                SessionState::Connected,
            )
            &&& run.outcome is Waiting ==> run.session == session && run.heard == events.len()
            &&& run.outcome is Failed ==> run.session == session || run.session == session.failed(
                "peer-to-peer transport failed"@,
            )
        }),
    decreases events.len(),
{
    if events.len() > 0 {
        law_link_run(session, now, events.drop_last());
    }
}

/// Waiting through any events goes on exactly as long as it was not decided at its
/// beginning and no event so far decided it.
pub proof fn law_link_waits_for_decision(
    session: SessionView,
    now: TransportState,
    events: Seq<LinkObservation>,
)
    ensures
        link_run(session, now, events).outcome is Waiting <==> {
            &&& session.link_begun(now) is Waiting
            &&& forall|i: int|
                0 <= i < events.len() ==> link_outcome(
                    (#[trigger] events[i]).event,
                    events[i].now,
                ) is Waiting
        },
    decreases events.len(),
{
    if events.len() > 0 {
        let before = events.drop_last();
        law_link_waits_for_decision(session, now, before);
        assert forall|i: int| 0 <= i < before.len() implies #[trigger] before[i] == events[i] by {}
        if link_run(session, now, before).outcome is Waiting && link_outcome(
            events.last().event,
            events.last().now,
        ) is Waiting {
            assert forall|i: int| 0 <= i < events.len() implies link_outcome(
                (#[trigger] events[i]).event,
                events[i].now,
            ) is Waiting by {
                if i < before.len() {
                    assert(before[i] == events[i]);
                }
            }
        } else if forall|i: int|
            0 <= i < events.len() ==> link_outcome(
                (#[trigger] events[i]).event,
                events[i].now,
            ) is Waiting {
            assert(events[events.len() - 1] == events.last());
            assert forall|i: int| 0 <= i < before.len() implies link_outcome(
                (#[trigger] before[i]).event,
                before[i].now,
            ) is Waiting by {
                assert(before[i] == events[i]);
            }
        }
    }
}

/// Waiting begins with what is known: a connected session is linked and a disconnected one
/// fails with what went wrong, and neither is touched. Any other is linked, and connected,
/// exactly if the transport is connected, and the observers are told; else waiting goes on
/// and nothing changes.
pub proof fn law_link_is_there_when_connected(
    session: &mut Session,
    now: TransportState,
    signaling: &SignalingSnapshot,
    step: LinkStep,
)
    requires
        call_ensures(Session::wait_for_link, (session, now, signaling), step),
    ensures
        old(session)@.status == SessionState::Connected ==> {
            &&& step.outcome matches Some(Ok(_))
            &&& step.published is None
            &&& final(session)@ == old(session)@
        },
        old(session)@.status == SessionState::Disconnected ==> {
            &&& step.outcome matches Some(Err(OpenLvError::Session(reason))) && reason@ == (
            match old(session)@.error {
                Some(error) => error,
                None => "session failed to connect"@,
            })
            &&& step.published is None
            &&& final(session)@ == old(session)@
        },
        old(session)@.status != SessionState::Connected && old(session)@.status
            != SessionState::Disconnected ==> {
            &&& now is Connected ==> {
                &&& step.outcome matches Some(Ok(_))
                &&& final(session)@.status == SessionState::Connected
                &&& final(session)@.error == old(session)@.error
                &&& step.published matches Some(seen) && crate::session::laws::shows(
                    seen,
                    final(session)@,
                    *signaling,
                )
            }
            &&& !(now is Connected) ==> {
                &&& step.outcome is None
                &&& step.published is None
                &&& final(session)@ == old(session)@
            }
        },
        crate::session::laws::same_session(final(session)@, old(session)@),
{
}

/// A transport that reports to be connected links the peers, whatever its state is by
/// then; and so does any report but a failure while the transport is connected. The
/// session is then connected and the observers are told. A failure of the transport
/// disconnects the session with the reason. Waiting goes on, and leaves the session as it
/// is, only for other reports and missed ones while the transport is not connected; if the
/// reports end then, waiting fails.
pub proof fn law_connected_transport_links(
    session: &mut Session,
    event: LinkEvent,
    now: TransportState,
    signaling: &SignalingSnapshot,
    step: LinkStep,
)
    requires
        call_ensures(Session::on_link_event, (session, event, now, signaling), step),
    ensures
        event == LinkEvent::Reached(TransportState::Connected) || (now is Connected && event
            != LinkEvent::Reached(TransportState::Error)) ==> {
            &&& step.outcome matches Some(Ok(_))
            &&& final(session)@.status == SessionState::Connected
            &&& final(session)@.error == old(session)@.error
            &&& step.published is Some
        },
        event == LinkEvent::Reached(TransportState::Error) ==> {
            &&& step.outcome matches Some(Err(OpenLvError::Session(reason))) && reason@
                == "peer-to-peer transport failed"@
            &&& final(session)@.status == SessionState::Disconnected
            &&& final(session)@.error == Some("peer-to-peer transport failed"@)
            &&& step.published is Some
        },
        event is Closed && !(now is Connected) ==> {
            &&& step.outcome matches Some(Err(OpenLvError::Session(reason))) && reason@
                == "transport state channel closed"@
            &&& final(session)@ == old(session)@
            &&& step.published is None
        },
        step.outcome is None <==> (event == LinkEvent::Reached(TransportState::Other) || event
            is Lagged) && !(now is Connected),
        step.outcome is None ==> final(session)@ == old(session)@ && step.published is None,
        step.published matches Some(seen) ==> crate::session::laws::shows(
            seen,
            final(session)@,
            *signaling,
        ),
        crate::session::laws::same_session(final(session)@, old(session)@),
{
}

/// Waiting through any events succeeds with the first that tells of a connected transport,
/// if neither its beginning nor an event before decided it.
pub proof fn law_first_link_is_noticed(
    session: SessionView,
    now: TransportState,
    events: Seq<LinkObservation>,
    first: int,
)
    requires
        session.status != SessionState::Connected && session.status != SessionState::Disconnected,
        !(now is Connected),
        0 <= first < events.len(),
        events[first].event == LinkEvent::Reached(TransportState::Connected) || (
        events[first].now is Connected && events[first].event != LinkEvent::Reached(
            TransportState::Error,
        )),
        forall|i: int|
            0 <= i < first ==> {
                &&& !((#[trigger] events[i]).now is Connected)
                &&& events[i].event == LinkEvent::Reached(TransportState::Other) || events[i].event
                    is Lagged
            },
    ensures
        ({
            let run = link_run(session, now, events);
            &&& run.outcome is Linked
            &&& run.heard == first + 1
            &&& run.session.status == SessionState::Connected
            &&& run.session.error == session.error
        }),
    decreases events.len(),
{
    let before = events.drop_last();
    if first < events.len() - 1 {
        assert(before[first] == events[first]);
        assert(forall|i: int| 0 <= i < first ==> before[i] == events[i]);
        law_first_link_is_noticed(session, now, before, first);
    } else {
        assert forall|i: int| 0 <= i < before.len() implies link_outcome(
            (#[trigger] before[i]).event,
            before[i].now,
        ) is Waiting by {
            assert(before[i] == events[i]);
        }
        law_link_waits_for_decision(session, now, before);
        law_link_run(session, now, before);
        assert(events.last() == events[first]);
    }
}

} // verus!
