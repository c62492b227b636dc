//! What holds of sessions as a whole.

use vstd::prelude::*;

use crate::error::{ErrorView, OpenLvError};
use crate::json::Json;
use crate::message::MessageView;
use crate::session::close::{CloseEventView, CloseStage};
use crate::session::exchange::{PendingView, ReplyOutcome, ReplyView};
use crate::session::link::LinkEvent;
use crate::session::serve::{RemoteView, ServeActionView, ServeEventView, SignalRoute, StageView};
use crate::session::start::{SessionStart, StartAction, StartStage};
use crate::session::state::{
    build_session, NextAction, Session, SessionState, SessionStateObject, SessionStep, SessionView,
};
use crate::signaling::{
    CapabilitiesView, SignalState, SignalView, SignalingSnapshot, SnapshotView,
};
use crate::transport::TransportState;
use crate::url::{SessionUri, UriView};

verus! {

// ---------------------------------------------------------------------------
// One request
// ---------------------------------------------------------------------------
/// What the handler of the remote peer returns is what the request is answered with:
/// the request reaches the handler with its payload, the acknowledgement is taken as
/// one for this request and does not end it, and the response ends it with the
/// handler's result, whether or not the acknowledgement came before it.
pub proof fn law_request_is_answered_by_handler(
    pending: PendingView,
    payload: Json,
    result: Json,
    elapsed: u128,
)
    ensures
        crate::session::serve::routed(
            MessageView::Request { message_id: pending.message_id, payload },
        ) == (crate::session::serve::InboundView::Request {
            message_id: pending.message_id,
            payload,
        }),
        ({
            let ack = crate::session::serve::acknowledgement(pending.message_id);
            let response = crate::session::serve::response(pending.message_id, result);
            let acknowledged = pending.after(ReplyView::Arrived(ack), elapsed);
            &&& crate::session::serve::routed(ack) == crate::session::serve::InboundView::Reply(ack)
            &&& crate::session::serve::routed(response)
                == crate::session::serve::InboundView::Reply(response)
            &&& acknowledged.acked_at is Some
            &&& pending.acked_at is None ==> acknowledged == (PendingView {
                acked_at: Some(elapsed),
                ..pending
            })
            &&& pending.outcome(ReplyView::Arrived(ack)) is Waiting
            &&& acknowledged.outcome(ReplyView::Arrived(response)) == ReplyOutcome::Answered(result)
            &&& pending.outcome(ReplyView::Arrived(response)) == ReplyOutcome::Answered(result)
        }),
{
}

/// The identifier that a message goes by.
pub open spec fn id_of(message: MessageView) -> Seq<char> {
    match message {
        MessageView::Request { message_id, payload: _ } => message_id,
        MessageView::Ack { message_id } => message_id,
        MessageView::Response { message_id, payload: _ } => message_id,
    }
}

/// Answers to other requests neither change a request nor end it.
pub proof fn law_other_requests_do_not_interfere(
    pending: PendingView,
    message: MessageView,
    elapsed: u128,
)
    requires
        id_of(message) != pending.message_id,
    ensures
        pending.after(ReplyView::Arrived(message), elapsed) == pending,
        pending.outcome(ReplyView::Arrived(message)) is Waiting,
{
}

/// At any time from the sending or the acknowledgement on, waiting never goes past the
/// one deadline that was set by it, and reaches it.
pub proof fn law_waiting_reaches_the_deadline(pending: PendingView, elapsed: int)
    requires
        0 <= elapsed,
        pending.acked_at matches Some(at) ==> at <= elapsed,
    ensures
        pending.timeout_after(elapsed) >= 0,
        elapsed <= pending.deadline() ==> elapsed + pending.timeout_after(elapsed)
            == pending.deadline(),
        elapsed >= pending.deadline() ==> pending.timeout_after(elapsed) == 0,
{
}

/// Nothing but the first acknowledgement moves the deadline of a request: no message of
/// another kind or for another request, and no second acknowledgement.
pub proof fn law_deadline_is_fixed(pending: PendingView, event: ReplyView, elapsed: u128)
    ensures
        pending.acked_at is Some || event != acknowledged_by(pending.message_id) ==> pending.after(
            event,
            elapsed,
        ) == pending,
        pending.acked_at is None && event == acknowledged_by(pending.message_id) ==> pending.after(
            event,
            elapsed,
        ).deadline() == elapsed + pending.response_timeout_ms * 1_000_000,
{
}

/// The acknowledgement of the request of an identifier, as an event.
pub open spec fn acknowledged_by(message_id: Seq<char>) -> ReplyView {
    ReplyView::Arrived(crate::session::serve::acknowledgement(message_id))
}

/// An event, and when it came, in nanoseconds after the request was sent.
pub struct TimedReply {
    pub event: ReplyView,
    pub elapsed: u128,
}

/// Where a request stands after some events.
pub struct ReplyRun {
    pub pending: PendingView,
    pub outcome: ReplyOutcome,
}

/// A request through a sequence of events; it stops where it is decided.
pub open spec fn reply_run(pending: PendingView, events: Seq<TimedReply>) -> ReplyRun
    decreases events.len(),
{
    if events.len() == 0 {
        ReplyRun { pending, outcome: ReplyOutcome::Waiting }
    } else {
        let before = reply_run(pending, events.drop_last());
        if before.outcome is Waiting {
            ReplyRun {
                pending: before.pending.after(events.last().event, events.last().elapsed),
                outcome: before.pending.outcome(events.last().event),
            }
        } else {
            before
        }
    }
}

/// Whether an event decides the request of an identifier.
pub open spec fn decides(message_id: Seq<char>, event: ReplyView) -> bool {
    match event {
        ReplyView::Arrived(MessageView::Response { message_id: id, payload: _ }) => id == message_id,
        ReplyView::Arrived(_) => false,
        ReplyView::Closed => true,
        ReplyView::TimedOut => true,
    }
}

/// Whether none of some events decides the request of an identifier.
pub open spec fn undecided(message_id: Seq<char>, events: Seq<TimedReply>) -> bool {
    forall|i: int| 0 <= i < events.len() ==> !decides(message_id, (#[trigger] events[i]).event)
}

/// Whether an event is the first that acknowledges the request of an identifier.
pub open spec fn first_ack(message_id: Seq<char>, events: Seq<TimedReply>, first: int) -> bool {
    &&& 0 <= first < events.len()
    &&& events[first].event == acknowledged_by(message_id)
    &&& forall|i: int| 0 <= i < first ==> (#[trigger] events[i]).event != acknowledged_by(message_id)
}

/// Whether none of some events acknowledges the request of an identifier.
pub open spec fn unacknowledged(message_id: Seq<char>, events: Seq<TimedReply>) -> bool {
    forall|i: int|
        0 <= i < events.len() ==> (#[trigger] events[i]).event != acknowledged_by(message_id)
}

/// Through events none of which decides it a request waits. It changes only with its
/// first acknowledgement.
pub proof fn law_undecided_request_waits(pending: PendingView, events: Seq<TimedReply>)
    requires
        undecided(pending.message_id, events),
    ensures
        reply_run(pending, events).outcome is Waiting,
        reply_run(pending, events).pending == (PendingView {
            acked_at: reply_run(pending, events).pending.acked_at,
            ..pending
        }),
        pending.acked_at is Some || unacknowledged(pending.message_id, events) ==> reply_run(
            pending,
            events,
        ).pending == pending,
        forall|first: int|
            pending.acked_at is None && #[trigger] first_ack(pending.message_id, events, first)
                ==> reply_run(pending, events).pending == (PendingView {
                acked_at: Some(events[first].elapsed),
                ..pending
            }),
    decreases events.len(),
{
    let id = pending.message_id;
    if events.len() > 0 {
        let before = events.drop_last();
        assert(forall|i: int| 0 <= i < before.len() ==> before[i] == events[i]);
        law_undecided_request_waits(pending, before);
        assert(!decides(id, events[events.len() - 1].event));
        assert forall|first: int| pending.acked_at is None && #[trigger] first_ack(
            id,
            events,
            first,
        ) implies reply_run(pending, events).pending == (PendingView {
            acked_at: Some(events[first].elapsed),
            ..pending
        }) by {
            if first < before.len() {
                assert(first_ack(id, before, first));
            } else {
                assert(unacknowledged(id, before));
            }
        }
    }
}

/// The first event that decides a request decides it for good: a response with its
/// payload; a lost channel with its error; a timeout with an error that tells whether
/// the request had been acknowledged by then.
pub proof fn law_first_decision_stands(pending: PendingView, events: Seq<TimedReply>, first: int)
    requires
        0 <= first < events.len(),
        decides(pending.message_id, events[first].event),
        undecided(pending.message_id, events.take(first)),
    ensures
        reply_run(pending, events).outcome == (match events[first].event {
            ReplyView::Arrived(message) => ReplyOutcome::Answered(message->Response_payload),
            ReplyView::Closed => ReplyOutcome::Failed(
                ErrorView::RequestTimeout("response channel closed"@),
            ),
            ReplyView::TimedOut => if pending.acked_at is None && unacknowledged(
                pending.message_id,
                events.take(first),
            ) {
                ReplyOutcome::Failed(ErrorView::RequestTimeout("remote peer did not acknowledge"@))
            } else {
                ReplyOutcome::Failed(ErrorView::RequestTimeout("no response after acknowledgement"@))
            },
        }),
    decreases events.len(),
{
    let before = events.drop_last();
    if first == events.len() - 1 {
        assert(before =~= events.take(first));
        law_undecided_request_waits(pending, before);
        if !unacknowledged(pending.message_id, before) {
            let some = choose|i: int|
                0 <= i < before.len() && (#[trigger] before[i]).event == acknowledged_by(
                    pending.message_id,
                );
            let first_of = lemma_some_ack_is_first(pending.message_id, before, some);
            assert(first_ack(pending.message_id, before, first_of));
        }
    } else {
        assert(before[first] == events[first]);
        assert(before.take(first) =~= events.take(first));
        law_first_decision_stands(pending, before, first);
    }
}

/// Where an event acknowledges a request, some event is the first to do so.
proof fn lemma_some_ack_is_first(message_id: Seq<char>, events: Seq<TimedReply>, some: int) -> (first:
    int)
    requires
        0 <= some < events.len(),
        events[some].event == acknowledged_by(message_id),
    ensures
        first_ack(message_id, events, first),
    decreases some,
{
    if first_ack(message_id, events, some) {
        some
    } else {
        let earlier = choose|i: int|
            0 <= i < some && (#[trigger] events[i]).event == acknowledged_by(message_id);
        lemma_some_ack_is_first(message_id, events, earlier)
    }
}

/// A request that is not acknowledged is given up when the time for that is over, and not
/// earlier, whatever arrives meanwhile for other requests.
pub proof fn law_unacknowledged_request_is_given_up(
    pending: PendingView,
    events: Seq<TimedReply>,
    elapsed: int,
)
    requires
        pending.acked_at is None,
        undecided(pending.message_id, events),
        unacknowledged(pending.message_id, events),
        0 <= elapsed,
    ensures
        ({
            let waiting = reply_run(pending, events).pending;
            let deadline = pending.ack_timeout_ms * 1_000_000;
            &&& elapsed <= deadline ==> elapsed + waiting.timeout_after(elapsed) == deadline
            &&& elapsed >= deadline ==> waiting.timeout_after(elapsed) == 0
            &&& waiting.outcome(ReplyView::TimedOut) == ReplyOutcome::Failed(
                ErrorView::RequestTimeout("remote peer did not acknowledge"@),
            )
        }),
{
    law_undecided_request_waits(pending, events);
}

/// An acknowledged request is given up when the time for a response is over, counted from
/// its first acknowledgement, and not earlier, whatever arrives meanwhile for other
/// requests and however often it is acknowledged again.
pub proof fn law_acknowledged_request_is_given_up(
    pending: PendingView,
    events: Seq<TimedReply>,
    first: int,
    elapsed: int,
)
    requires
        pending.acked_at is None,
        undecided(pending.message_id, events),
        first_ack(pending.message_id, events, first),
        events[first].elapsed <= elapsed,
    ensures
        ({
            let waiting = reply_run(pending, events).pending;
            let deadline = events[first].elapsed + pending.response_timeout_ms * 1_000_000;
            &&& elapsed <= deadline ==> elapsed + waiting.timeout_after(elapsed) == deadline
            &&& elapsed >= deadline ==> waiting.timeout_after(elapsed) == 0
            &&& waiting.outcome(ReplyView::TimedOut) == ReplyOutcome::Failed(
                ErrorView::RequestTimeout("no response after acknowledgement"@),
            )
        }),
{
    law_undecided_request_waits(pending, events);
}

/// How far a request of the remote peer was served, and what was done for it so far.
pub struct ServeRun {
    pub request: RemoteView,
    pub actions: Seq<ServeActionView>,
}

/// A request of the remote peer through a sequence of events.
pub open spec fn serve_run(message_id: Seq<char>, payload: Json, events: Seq<ServeEventView>) -> ServeRun
    decreases events.len(),
{
    if events.len() == 0 {
        ServeRun {
            request: RemoteView::received(message_id, payload),
            actions: seq![
                ServeActionView::Acknowledge(crate::session::serve::acknowledgement(message_id)),
            ],
        }
    } else {
        let before = serve_run(message_id, payload, events.drop_last());
        let action = before.request.action(events.last());
        ServeRun {
            request: before.request.after(events.last()),
            actions: if action is Nothing {
                before.actions
            } else {
                before.actions.push(action)
            },
        }
    }
}

/// Whatever happens, a request is acknowledged first, then its payload is told to the
/// observers, then it is handed to the handler, and then the handler's result is sent;
/// each of them at most once.
pub proof fn law_request_is_served_in_order(
    message_id: Seq<char>,
    payload: Json,
    events: Seq<ServeEventView>,
)
    ensures
        ({
            let run = serve_run(message_id, payload, events);
            &&& run.request.message_id == message_id
            &&& 1 <= run.actions.len() <= 4
            &&& run.actions[0] == ServeActionView::Acknowledge(
                crate::session::serve::acknowledgement(message_id),
            )
            &&& run.actions.len() > 1 ==> run.actions[1] == ServeActionView::Publish(payload)
            &&& run.actions.len() > 2 ==> run.actions[2] == ServeActionView::Handle(payload)
            &&& run.actions.len() > 3 ==> exists|result: Json|
                #[trigger] events.contains(ServeEventView::Handled(Some(result)))
                    && run.actions[3] == ServeActionView::Respond(
                    crate::session::serve::response(message_id, result),
                )
            &&& match run.request.stage {
                StageView::Acknowledging(held) => run.actions.len() == 1 && held == payload,
                StageView::Publishing(held) => run.actions.len() == 2 && held == payload,
                StageView::Handling => run.actions.len() == 3,
                StageView::Responding => run.actions.len() == 4,
                StageView::Served => run.actions.len() >= 3,
            }
        }),
    decreases events.len(),
{
    if events.len() > 0 {
        let before = events.drop_last();
        law_request_is_served_in_order(message_id, payload, before);
        let earlier = serve_run(message_id, payload, before);
        let run = serve_run(message_id, payload, events);
        if run.actions.len() > 3 {
            if earlier.actions.len() > 3 {
                let result = choose|result: Json|
                    #[trigger] before.contains(ServeEventView::Handled(Some(result)))
                        && earlier.actions[3] == ServeActionView::Respond(
                        crate::session::serve::response(message_id, result),
                    );
                let k = choose|k: int|
                    0 <= k < before.len() && before[k] == ServeEventView::Handled(Some(result));
                assert(events[k] == ServeEventView::Handled(Some(result)));
                assert(events.contains(ServeEventView::Handled(Some(result))));
            } else {
                let result = events.last()->Handled_0->0;
                assert(events[events.len() - 1] == ServeEventView::Handled(Some(result)));
                assert(events.contains(ServeEventView::Handled(Some(result))));
            }
        }
    }
}

/// A request that is served to its end is acknowledged, told, handled and answered with
/// the handler's result, and nothing more is done for it. If the handler fails it is not
/// answered.
pub proof fn law_request_is_served_to_its_end(
    message_id: Seq<char>,
    payload: Json,
    outcome: Option<Json>,
    later: ServeEventView,
)
    ensures
        ({
            let done = ServeEventView::Performed;
            let handled = seq![done, done, ServeEventView::Handled(outcome)];
            let events = if outcome is Some {
                handled.push(done)
            } else {
                handled
            };
            let run = serve_run(message_id, payload, events);
            let begun = seq![
                ServeActionView::Acknowledge(crate::session::serve::acknowledgement(message_id)),
                ServeActionView::Publish(payload),
                ServeActionView::Handle(payload),
            ];
            &&& run.request.stage is Served
            &&& run.actions == match outcome {
                Some(result) => begun.push(
                    ServeActionView::Respond(crate::session::serve::response(message_id, result)),
                ),
                None => begun,
            }
            &&& run.request.action(later) is Nothing
            &&& run.request.after(later) == run.request
        }),
{
    let done = ServeEventView::Performed;
    let handled = seq![done, done, ServeEventView::Handled(outcome)];
    reveal_with_fuel(serve_run, 5);
    assert(handled.drop_last() =~= seq![done, done]);
    assert(seq![done, done].drop_last() =~= seq![done]);
    assert(seq![done].drop_last() =~= seq![]);
    assert(handled.push(done).drop_last() =~= handled);
    let run = serve_run(message_id, payload, handled);
    assert(run.actions.take(3) =~= seq![
        ServeActionView::Acknowledge(crate::session::serve::acknowledgement(message_id)),
        ServeActionView::Publish(payload),
        ServeActionView::Handle(payload),
    ]);
    assert(run.actions =~= match outcome {
        Some(result) => run.actions.take(3).push(
            ServeActionView::Respond(crate::session::serve::response(message_id, result)),
        ),
        None => run.actions.take(3),
    });
}

/// Negotiation that one peer relays in a request reaches the transport of the other
/// peer: it is unwrapped as it was.
pub proof fn law_relayed_negotiation_is_unwrapped<N>(
    message_id: String,
    negotiation: serde_json::Value,
)
    ensures
        crate::session::serve::signal_route::<N>(
            None,
            Some(crate::session::serve::wrapped(message_id, negotiation)),
        ) == SignalRoute::<N>::Unwrap(negotiation),
{
}

// ---------------------------------------------------------------------------
// The state of a session
// ---------------------------------------------------------------------------
/// Anything that moves a session.
pub enum SessionEvent {
    Connect,
    Signal(SignalView, Option<CapabilitiesView>),
    TransportSetUp,
    TransportSetUpFailed(Seq<char>),
    Transport(TransportState),
    LinkBegun(TransportState),
    Link(LinkEvent, TransportState),
    Close(CloseStage, CloseEventView),
}

impl SessionView {
    /// The session after an event.
    pub open spec fn after(self, event: SessionEvent) -> Self {
        match event {
            SessionEvent::Connect => if self.start_refusal() is None {
                self.started()
            } else {
                self
            },
            SessionEvent::Signal(state, peer) => self.after_signal(state, peer),
            SessionEvent::TransportSetUp => self,
            SessionEvent::TransportSetUpFailed(message) => self.failed(message),
            SessionEvent::Transport(state) => self.after_transport(state),
            SessionEvent::LinkBegun(now) => self.after_link_begun(now),
            SessionEvent::Link(event, now) => self.after_link_event(event, now),
            SessionEvent::Close(stage, event) => self.after_close(stage, event),
        }
    }

    /// The session after a sequence of events.
    pub open spec fn after_all(self, events: Seq<SessionEvent>) -> Self
        decreases events.len(),
    {
        if events.len() == 0 {
            self
        } else {
            self.after_all(events.drop_last()).after(events.last())
        }
    }
}

/// Whatever happens to a session, its URI and its role stay, what went wrong is not
/// forgotten, its one start is not given back, and once started it never is in its
/// first status again.
pub proof fn law_session_history(uri: UriView, is_host: bool, events: Seq<SessionEvent>)
    ensures
        ({
            let session = SessionView::created(uri, is_host).after_all(events);
            &&& session.uri == uri
            &&& session.is_host == is_host
            &&& session.wf()
            &&& events.contains(SessionEvent::Connect) ==> !session.events_waiting
            &&& forall|later: Seq<SessionEvent>|
                session.error is Some ==> (#[trigger] session.after_all(later)).error is Some
        }),
    decreases events.len(),
{
    let start = SessionView::created(uri, is_host);
    if events.len() > 0 {
        law_session_history(uri, is_host, events.drop_last());
        if events.contains(SessionEvent::Connect) {
            let k = choose|k: int| 0 <= k < events.len() && events[k] == SessionEvent::Connect;
            if k < events.len() - 1 {
                assert(events.drop_last()[k] == SessionEvent::Connect);
                assert(events.drop_last().contains(SessionEvent::Connect));
            }
        }
    }
    let session = start.after_all(events);
    assert forall|later: Seq<SessionEvent>| session.error is Some implies (
    #[trigger] session.after_all(later)).error is Some by {
        lemma_errors_stay(session, later);
    }
}

proof fn lemma_errors_stay(session: SessionView, events: Seq<SessionEvent>)
    requires
        session.error is Some,
    ensures
        session.after_all(events).error is Some,
    decreases events.len(),
{
    if events.len() > 0 {
        lemma_errors_stay(session, events.drop_last());
    }
}

/// A session starts once: whatever happened to it since, closing included, it cannot be
/// started again, and stays as it is when that is tried.
pub proof fn law_session_starts_once(session: SessionView, events: Seq<SessionEvent>)
    ensures
        ({
            let later = session.after(SessionEvent::Connect).after_all(events);
            &&& later.start_refusal() == Some(ErrorView::Session("session already connected"@))
            &&& later.after(SessionEvent::Connect) == later
        }),
    decreases events.len(),
{
    if events.len() > 0 {
        law_session_starts_once(session, events.drop_last());
    }
}

/// Observers are told of every change that the layers bring about, as the session then
/// is: what is not published changed nothing.
pub proof fn law_changes_are_published(
    session: SessionView,
    signal: SignalView,
    transport: TransportState,
    signaling: SnapshotView,
)
    ensures
        ({
            let after = session.after_signal(signal, signaling.peer);
            match session.signal_step(signal, signaling).published {
                Some(published) => published == after.observed(signaling),
                None => after == session,
            }
        }),
        ({
            let after = session.after_transport(transport);
            match session.transport_step(transport, signaling).published {
                Some(published) => published == after.observed(signaling),
                None => after == session,
            }
        }),
        ({
            let after = session.after_link_begun(transport);
            match session.link_begun_step(transport, signaling).published {
                Some(published) => published == after.observed(signaling),
                None => after == session,
            }
        }),
{
}

/// The transport is set up exactly when the handshake is complete and both peers have
/// a transport in common; without one the session is disconnected and says so.
pub proof fn law_transport_needs_common_ground(
    session: SessionView,
    signal: SignalView,
    signaling: SnapshotView,
)
    ensures
        session.signal_step(signal, signaling).next == NextAction::SetUpTransport <==> signal
            == SignalView::Encrypted && (signaling.peer matches Some(peer)
            && peer.transports.contains("wrtc"@)),
        signal == SignalView::Encrypted && !(signaling.peer matches Some(peer)
            && peer.transports.contains("wrtc"@)) ==> session.after_signal(signal, signaling.peer)
            == session.failed("no common transport with peer"@),
{
    if let Some(peer) = signaling.peer {
        let own = seq!["wrtc"@];
        crate::session::transport_choice::law_no_transport_iff_disjoint(
            session.is_host,
            own,
            peer.transports,
        );
        assert(own[0] == "wrtc"@);
        assert(own.contains("wrtc"@));
        assert(forall|t: Seq<char>| own.contains(t) ==> t == "wrtc"@);
    }
}

// ---------------------------------------------------------------------------
// What moves a session, and what its observers are told
// ---------------------------------------------------------------------------
/// Whether an observation shows a session as it is: its status and what went wrong last,
/// the state that the signaling layer reports, and the identity of the remote peer once
/// that is known.
pub open spec fn shows(
    seen: SessionStateObject,
    session: SessionView,
    signaling: SignalingSnapshot,
) -> bool {
    &&& seen.status == session.status
    &&& match seen.error {
        Some(error) => session.error == Some(error@),
        None => session.error is None,
    }
    &&& seen.signaling matches Some(state) && state@ == signaling.state@
    &&& match (signaling.peer, seen.peer_info) {
        (Some(peer), Some(info)) => peer.info matches Some(given) && crate::json::content(
            info.details,
        ) == crate::json::content(given.details),
        (Some(peer), None) => peer.info is None,
        (None, info) => info is None,
    }
}

/// Whether two sessions are the same but for their status and what went wrong.
pub open spec fn same_session(a: SessionView, b: SessionView) -> bool {
    a.uri == b.uri && a.is_host == b.is_host && a.events_waiting == b.events_waiting
}

/// Whether the remote peer said that it supports the one transport there is.
pub open spec fn peer_supports_transport(signaling: SignalingSnapshot) -> bool {
    signaling.peer matches Some(peer) && exists|i: int|
        0 <= i < peer.transports@.len() && (#[trigger] peer.transports@[i])@ == "wrtc"@
}

proof fn lemma_common_transport(session: SessionView, signaling: SignalingSnapshot)
    ensures
        session.transport_with(signaling@.peer) is Some <==> peer_supports_transport(signaling),
        session.transport_with(signaling@.peer) is Some ==> session.transport_with(signaling@.peer)
            == Some("wrtc"@),
{
    if let Some(peer) = signaling.peer {
        let own = seq!["wrtc"@];
        let theirs = crate::text::string_texts(peer.transports@);
        crate::session::transport_choice::law_no_transport_iff_disjoint(
            session.is_host,
            own,
            theirs,
        );
        crate::session::transport_choice::law_choice_is_first_supported(own, theirs);
        crate::session::transport_choice::law_choice_is_first_supported(theirs, own);
        assert(own[0] == "wrtc"@);
        assert(forall|t: Seq<char>| own.contains(t) ==> t == "wrtc"@);
        if peer_supports_transport(signaling) {
            let k = choose|k: int|
                0 <= k < peer.transports@.len() && (#[trigger] peer.transports@[k])@ == "wrtc"@;
            assert(theirs[k] == "wrtc"@);
            assert(own.contains("wrtc"@) && theirs.contains("wrtc"@));
        }
        if session.transport_with(signaling@.peer) is Some {
            assert(theirs.contains("wrtc"@));
            let k = choose|k: int| 0 <= k < theirs.len() && theirs[k] == "wrtc"@;
            assert(peer.transports@[k]@ == "wrtc"@);
        }
    }
}

/// A session is made as it is asked for: nothing went wrong, nothing has happened, and it
/// can be started.
pub proof fn law_session_is_made(uri: SessionUri, is_host: bool, session: Session)
    requires
        call_ensures(build_session, (uri, is_host), session),
    ensures
        session@.uri == uri@,
        session@.is_host == is_host,
        session@.status == SessionState::Created,
        session@.error is None,
        session@.events_waiting,
{
}

/// What can be read of a session is what it holds.
pub proof fn law_session_is_read(
    session: Session,
    signaling: SignalingSnapshot,
    is_host: bool,
    uri: &SessionUri,
    status: SessionState,
    error: Option<String>,
    seen: SessionStateObject,
    copy: SessionStateObject,
)
    requires
        call_ensures(Session::is_host, (&session,), is_host),
        call_ensures(Session::uri, (&session,), uri),
        call_ensures(Session::status, (&session,), status),
        call_ensures(Session::error, (&session,), error),
        call_ensures(Session::state, (&session, &signaling), seen),
        call_ensures(SessionStateObject::clone, (&seen,), copy),
    ensures
        is_host == session@.is_host,
        uri@ == session@.uri,
        status == session@.status,
        match error {
            Some(text) => session@.error == Some(text@),
            None => session@.error is None,
        },
        shows(seen, session@, signaling),
        shows(copy, session@, signaling),
{
}

/// Setting the status sets that and nothing else, and the observers are told of the session
/// as it then is.
pub proof fn law_status_is_set(
    session: &mut Session,
    status: SessionState,
    signaling: &SignalingSnapshot,
    published: SessionStateObject,
)
    requires
        call_ensures(Session::set_status, (session, status, signaling), published),
    ensures
        final(session)@.status == status,
        final(session)@.error == old(session)@.error,
        same_session(final(session)@, old(session)@),
        shows(published, final(session)@, *signaling),
{
}

/// Noting what went wrong notes that and changes nothing else.
pub proof fn law_error_is_noted(session: &mut Session, error: String, nothing: ())
    requires
        call_ensures(Session::set_error, (session, error), nothing),
    ensures
        final(session)@.error == Some(error@),
        final(session)@.status == old(session)@.status,
        same_session(final(session)@, old(session)@),
{
}

/// The transport to use is the one there is, exactly if the remote peer supports it.
pub proof fn law_transport_is_selected(
    session: Session,
    signaling: SignalingSnapshot,
    selected: Option<String>,
)
    requires
        call_ensures(Session::select_transport, (&session, &signaling), selected),
    ensures
        match selected {
            Some(transport) => transport@ == "wrtc"@ && peer_supports_transport(signaling),
            None => !peer_supports_transport(signaling),
        },
{
    lemma_common_transport(session@, signaling);
}

/// From any status, the state that the signaling layer reports decides the session's: it
/// is ready when the layer is, linking during the handshake, and disconnected with the
/// reason when the layer failed or, after the handshake, when the peers have no transport
/// in common. If they have one, the transport is to be set up and the session stays as it
/// is. Other states change nothing. No state of the signaling layer connects a session,
/// and the observers are told of every change.
pub proof fn law_signal_decides_the_status(
    session: &mut Session,
    state: SignalState,
    signaling: &SignalingSnapshot,
    step: SessionStep,
)
    requires
        call_ensures(Session::on_signal_state, (session, state, signaling), step),
    ensures
        same_session(final(session)@, old(session)@),
        state is Ready ==> final(session)@.status == SessionState::Ready,
        state is Handshake || state is HandshakePartial ==> final(session)@.status
            == SessionState::Linking,
        state is Ready || state is Handshake || state is HandshakePartial ==> final(session)@.error
            == old(session)@.error && step.published is Some,
        state is Error ==> {
            &&& final(session)@.status == SessionState::Disconnected
            &&& final(session)@.error == Some("signaling failed or timed out"@)
            &&& step.published is Some
        },
        state is Encrypted && peer_supports_transport(*signaling) ==> {
            &&& final(session)@ == old(session)@
            &&& step.published is None
            &&& step.next == NextAction::SetUpTransport
        },
        state is Encrypted && !peer_supports_transport(*signaling) ==> {
            &&& final(session)@.status == SessionState::Disconnected
            &&& final(session)@.error == Some("no common transport with peer"@)
            &&& step.published is Some
        },
        state is Other ==> final(session)@ == old(session)@ && step.published is None,
        !(state is Encrypted && peer_supports_transport(*signaling)) ==> step.next
            == NextAction::Nothing,
        final(session)@.status == SessionState::Connected ==> old(session)@.status
            == SessionState::Connected,
        step.published matches Some(seen) ==> shows(seen, final(session)@, *signaling),
{
    lemma_common_transport(old(session)@, *signaling);
}

/// A transport that was set up is followed from then on, and the session stays as it is.
/// If it could not be set up the session is disconnected with the reason, and the
/// observers are told.
pub proof fn law_transport_setup_decides_what_follows(
    session: &mut Session,
    outcome: Result<(), String>,
    signaling: &SignalingSnapshot,
    step: SessionStep,
)
    requires
        call_ensures(Session::on_transport_setup, (session, outcome, signaling), step),
    ensures
        same_session(final(session)@, old(session)@),
        outcome is Ok ==> {
            &&& final(session)@ == old(session)@
            &&& step.published is None
            &&& step.next == NextAction::WatchTransport
        },
        outcome matches Err(reason) ==> {
            &&& final(session)@.status == SessionState::Disconnected
            &&& final(session)@.error == Some(reason@)
            &&& step.published matches Some(seen) && shows(seen, final(session)@, *signaling)
            &&& step.next == NextAction::Nothing
        },
{
}

/// From any status, the session is connected when the transport is, and disconnected with
/// the reason when the transport failed, which is then not followed any longer. The
/// observers are told of either. Other states of the transport change nothing.
pub proof fn law_transport_decides_the_status(
    session: &mut Session,
    state: TransportState,
    signaling: &SignalingSnapshot,
    step: SessionStep,
)
    requires
        call_ensures(Session::on_transport_state, (session, state, signaling), step),
    ensures
        same_session(final(session)@, old(session)@),
        state is Connected ==> {
            &&& final(session)@.status == SessionState::Connected
            &&& final(session)@.error == old(session)@.error
            &&& step.published is Some
            &&& step.next == NextAction::Nothing
        },
        state is Error ==> {
            &&& final(session)@.status == SessionState::Disconnected
            &&& final(session)@.error == Some("peer-to-peer transport failed"@)
            &&& step.published is Some
            &&& step.next == NextAction::StopWatching
        },
        state is Other ==> {
            &&& final(session)@ == old(session)@
            &&& step.published is None
            &&& step.next == NextAction::Nothing
        },
        step.published matches Some(seen) ==> shows(seen, final(session)@, *signaling),
{
}

/// A session that was not started yet starts: it is signaling, the observers are to be told
/// of it, and it cannot be started again. One that was started is refused and stays as it
/// is.
pub proof fn law_session_is_started(
    session: &mut Session,
    signaling: &SignalingSnapshot,
    started: Result<(SessionStart, StartAction), OpenLvError>,
)
    requires
        call_ensures(Session::connect, (session, signaling), started),
    ensures
        old(session)@.events_waiting ==> {
            &&& started matches Ok((start, StartAction::Publish(seen))) && start@
                == StartStage::Publishing && shows(seen, final(session)@, *signaling)
            &&& final(session)@.status == SessionState::Signaling
            &&& !final(session)@.events_waiting
            &&& final(session)@.error == old(session)@.error
            &&& final(session)@.uri == old(session)@.uri
            &&& final(session)@.is_host == old(session)@.is_host
        },
        !old(session)@.events_waiting ==> {
            &&& started matches Err(OpenLvError::Session(reason)) && reason@
                == "session already connected"@
            &&& final(session)@ == old(session)@
        },
{
}

/// From any status, as the signaling layer reports a state: what becomes of the session.
pub proof fn law_status_after_signal(
    session: SessionView,
    state: SignalView,
    peer: Option<CapabilitiesView>,
)
    ensures
        ({
            let after = session.after_signal(state, peer);
            &&& state is Ready ==> after.status == SessionState::Ready
            &&& state is Handshake || state is HandshakePartial ==> after.status
                == SessionState::Linking
            &&& state is Error ==> after.status == SessionState::Disconnected && after.error == Some(
                "signaling failed or timed out"@,
            )
            &&& state is Other ==> after == session
            &&& after.status == SessionState::Connected ==> session.status
                == SessionState::Connected
            &&& same_session(after, session)
        }),
{
}

/// Nothing but starting it takes the one start of a session: until then it can be started,
/// whatever happened to it.
pub proof fn law_session_can_be_started(session: SessionView, events: Seq<SessionEvent>)
    requires
        session.events_waiting,
        forall|i: int| 0 <= i < events.len() ==> #[trigger] events[i] != SessionEvent::Connect,
    ensures
        session.after_all(events).events_waiting,
        session.after_all(events).start_refusal() is None,
    decreases events.len(),
{
    if events.len() > 0 {
        let before = events.drop_last();
        assert forall|i: int| 0 <= i < before.len() implies #[trigger] before[i]
            != SessionEvent::Connect by {
            assert(before[i] == events[i]);
        }
        law_session_can_be_started(session, before);
        assert(events[events.len() - 1] != SessionEvent::Connect);
    }
}

} // verus!
