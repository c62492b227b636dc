//! Sending a request, step by step.

use vstd::prelude::*;

use crate::error::{session_error, ErrorView, OpenLvError};
use crate::json::Json;
use crate::message::{new_message_id, MessageView, SessionMessage};
use crate::session::exchange::{
    open_request, PendingRequest, PendingView, ReplyEvent, ReplyOutcome, ReplyView,
    DEFAULT_ACK_TIMEOUT_MS, DEFAULT_RESPONSE_TIMEOUT_MS,
};
use crate::session::laws::TimedReply;
use crate::session::state::Session;
use crate::signaling::SignalState;

verus! {

/// How far sending a request has come: what is being done.
#[derive(Debug)]
pub enum SendStage {
    /// Listening for answers is being started. The request waits to be sent.
    Listening(SessionMessage),
    Sending,
    /// The answers to the request are awaited.
    Waiting,
    Done,
}

/// A [`SendStage`] with the request as it is seen.
pub enum SendStageView {
    Listening(MessageView),
    Sending,
    Waiting,
    Done,
}

impl View for SendStage {
    type V = SendStageView;

    open spec fn view(&self) -> SendStageView {
        match *self {
            SendStage::Listening(request) => SendStageView::Listening(request@),
            SendStage::Sending => SendStageView::Sending,
            SendStage::Waiting => SendStageView::Waiting,
            SendStage::Done => SendStageView::Done,
        }
    }
}

/// A request on its way, until it has come to something.
#[derive(Debug)]
pub struct OutgoingRequest {
    stage: SendStage,
    pending: PendingRequest,
}

/// An [`OutgoingRequest`] with its texts as characters.
pub struct OutgoingView {
    pub stage: SendStageView,
    pub pending: PendingView,
}

impl View for OutgoingRequest {
    type V = OutgoingView;

    closed spec fn view(&self) -> OutgoingView {
        OutgoingView { stage: self.stage@, pending: self.pending@ }
    }
}

/// What is to be done for a request.
#[derive(Debug)]
pub enum SendAction {
    /// Start to listen for answers.
    Listen,
    /// Send this request, and report how that went.
    Send(SessionMessage),
    /// Wait for an answer, for as long as [`OutgoingRequest::timeout_nanos`] says.
    Wait,
    /// The request came to this.
    Return(Result<serde_json::Value, OpenLvError>),
    Nothing,
}

/// A [`SendAction`] as it is seen.
pub enum SendActionView {
    Listen,
    Send(MessageView),
    Wait,
    Return(Result<Json, ErrorView>),
    Nothing,
}

impl View for SendAction {
    type V = SendActionView;

    open spec fn view(&self) -> SendActionView {
        match *self {
            SendAction::Listen => SendActionView::Listen,
            SendAction::Send(request) => SendActionView::Send(request@),
            SendAction::Wait => SendActionView::Wait,
            SendAction::Return(Ok(payload)) => SendActionView::Return(
                Ok(crate::json::content(payload)),
            ),
            SendAction::Return(Err(error)) => SendActionView::Return(Err(error@)),
            SendAction::Nothing => SendActionView::Nothing,
        }
    }
}

/// What was done for a request, or heard of it.
#[derive(Debug)]
pub enum SendEvent {
    /// Answers are listened for.
    Listening,
    /// Sending the request came to this.
    Sent(Result<(), OpenLvError>),
    /// This was heard while waiting.
    Heard(ReplyEvent),
}

/// A [`SendEvent`] as it is seen.
pub enum SendEventView {
    Listening,
    Sent(Result<(), ErrorView>),
    Heard(ReplyView),
}

impl View for SendEvent {
    type V = SendEventView;

    open spec fn view(&self) -> SendEventView {
        match *self {
            SendEvent::Listening => SendEventView::Listening,
            SendEvent::Sent(Ok(_)) => SendEventView::Sent(Ok(())),
            SendEvent::Sent(Err(error)) => SendEventView::Sent(Err(error@)),
            SendEvent::Heard(reply) => SendEventView::Heard(reply@),
        }
    }
}

impl OutgoingView {
    /// A request of a payload that nothing was done for yet.
    pub open spec fn opened(
        message_id: Seq<char>,
        payload: Json,
        ack_timeout_ms: u64,
        response_timeout_ms: u64,
    ) -> Self {
        OutgoingView {
            stage: SendStageView::Listening(MessageView::Request { message_id, payload }),
            pending: PendingView { message_id, ack_timeout_ms, response_timeout_ms, acked_at: None },
        }
    }

    /// The request after an event, that many nanoseconds after it was sent.
    pub open spec fn after(self, event: SendEventView, elapsed: u128) -> Self {
        match (self.stage, event) {
            (SendStageView::Listening(_), SendEventView::Listening) => OutgoingView {
                stage: SendStageView::Sending,
                ..self
            },
            (SendStageView::Sending, SendEventView::Sent(Ok(_))) => OutgoingView {
                stage: SendStageView::Waiting,
                ..self
            },
            (SendStageView::Sending, SendEventView::Sent(Err(_))) => OutgoingView {
                stage: SendStageView::Done,
                ..self
            },
            (SendStageView::Waiting, SendEventView::Heard(reply)) => OutgoingView {
                stage: if self.pending.outcome(reply) is Waiting {
                    SendStageView::Waiting
                } else {
                    SendStageView::Done
                },
                pending: self.pending.after(reply, elapsed),
            },
            _ => self,
        }
    }

    /// What is to be done after an event.
    pub open spec fn action(self, event: SendEventView) -> SendActionView {
        match (self.stage, event) {
            (SendStageView::Listening(request), SendEventView::Listening) => SendActionView::Send(
                request,
            ),
            (SendStageView::Sending, SendEventView::Sent(Ok(_))) => SendActionView::Wait,
            (SendStageView::Sending, SendEventView::Sent(Err(error))) => SendActionView::Return(
                Err(error),
            ),
            (SendStageView::Waiting, SendEventView::Heard(reply)) => decided(
                self.pending.outcome(reply),
            ),
            _ => SendActionView::Nothing,
        }
    }
}

/// What is to be done by how a request stands: it is waited for until it is decided.
pub open spec fn decided(outcome: ReplyOutcome) -> SendActionView {
    match outcome {
        ReplyOutcome::Waiting => SendActionView::Wait,
        ReplyOutcome::Answered(payload) => SendActionView::Return(Ok(payload)),
        ReplyOutcome::Failed(error) => SendActionView::Return(Err(error)),
    }
}

impl OutgoingRequest {
    /// A request of an identifier and a payload. Answers are to be listened for first, so
    /// that a fast one is not lost; what comes next, [`OutgoingRequest::on_event`] says.
    pub fn open(
        message_id: String,
        payload: serde_json::Value,
        ack_timeout_ms: u64,
        response_timeout_ms: u64,
    ) -> (opened: (OutgoingRequest, SendAction))
        ensures
            opened.0@ == OutgoingView::opened(
                message_id@,
                crate::json::content(payload),
                ack_timeout_ms,
                response_timeout_ms,
            ),
            opened.1@ == SendActionView::Listen,
    {
        let (request, pending) = open_request(
            message_id,
            payload,
            ack_timeout_ms,
            response_timeout_ms,
        );
        (OutgoingRequest { stage: SendStage::Listening(request), pending }, SendAction::Listen)
    }

    /// How long to wait for the next message, in nanoseconds, `elapsed_nanos` after the
    /// request was sent.
    pub fn timeout_nanos(&self, elapsed_nanos: u128) -> (timeout: u128)
        ensures
            timeout == self@.pending.timeout_after(elapsed_nanos as int),
    {
        self.pending.timeout_nanos(elapsed_nanos)
    }

    /// Takes an event up, `elapsed_nanos` after the request was sent, and says what is to
    /// be done next: once answers are listened for the request is sent, and once it is
    /// sent it is waited for until it is decided. A request that cannot be sent is not
    /// waited for.
    pub fn on_event(self, event: SendEvent, elapsed_nanos: u128) -> (next: (
        OutgoingRequest,
        SendAction,
    ))
        ensures
            next.0@ == self@.after(event@, elapsed_nanos),
            next.1@ == self@.action(event@),
    {
        let mut pending = self.pending;
        match (self.stage, event) {
            (SendStage::Listening(request), SendEvent::Listening) => (
                OutgoingRequest { stage: SendStage::Sending, pending },
                SendAction::Send(request),
            ),
            (SendStage::Sending, SendEvent::Sent(Ok(_))) => (
                OutgoingRequest { stage: SendStage::Waiting, pending },
                SendAction::Wait,
            ),
            (SendStage::Sending, SendEvent::Sent(Err(error))) => (
                OutgoingRequest { stage: SendStage::Done, pending },
                SendAction::Return(Err(error)),
            ),
            (SendStage::Waiting, SendEvent::Heard(reply)) => match pending.on_event(
                reply,
                elapsed_nanos,
            ) {
                None => (OutgoingRequest { stage: SendStage::Waiting, pending }, SendAction::Wait),
                Some(answer) => (
                    OutgoingRequest { stage: SendStage::Done, pending },
                    SendAction::Return(answer),
                ),
            },
            (stage, _) => (OutgoingRequest { stage, pending }, SendAction::Nothing),
        }
    }
}

impl Session {
    /// Sends a request with the default timeouts. See [`Session::send_with_timeouts`].
    pub fn send(&self, signaling: SignalState, message: serde_json::Value) -> (opened: Result<
        (OutgoingRequest, SendAction),
        OpenLvError,
    >)
        ensures
            match opened {
                Ok((request, action)) => {
                    &&& signaling@ is Encrypted
                    &&& crate::message::is_uuid_v4(request@.pending.message_id)
                    &&& request@ == OutgoingView::opened(
                        request@.pending.message_id,
                        crate::json::content(message),
                        10_000,
                        3_600_000,
                    )
                    &&& action@ == SendActionView::Listen
                },
                Err(error) => {
                    &&& !(signaling@ is Encrypted)
                    &&& error@ == ErrorView::Session("session not ready"@)
                },
            },
    {
        self.send_with_timeouts(
            signaling,
            message,
            DEFAULT_ACK_TIMEOUT_MS,
            DEFAULT_RESPONSE_TIMEOUT_MS,
        )
    }

    /// Makes a request of a payload, under an identifier of its own, once the handshake
    /// is complete.
    pub fn send_with_timeouts(
        &self,
        signaling: SignalState,
        message: serde_json::Value,
        ack_timeout_ms: u64,
        response_timeout_ms: u64,
    ) -> (opened: Result<(OutgoingRequest, SendAction), OpenLvError>)
        ensures
            match opened {
                Ok((request, action)) => {
                    &&& signaling@ is Encrypted
                    &&& crate::message::is_uuid_v4(request@.pending.message_id)
                    &&& request@ == OutgoingView::opened(
                        request@.pending.message_id,
                        crate::json::content(message),
                        ack_timeout_ms,
                        response_timeout_ms,
                    )
                    &&& action@ == SendActionView::Listen
                },
                Err(error) => {
                    &&& !(signaling@ is Encrypted)
                    &&& error@ == ErrorView::Session("session not ready"@)
                },
            },
    {
        if !signaling.is_encrypted() {
            return Err(session_error("session not ready"));
        }
        Ok(OutgoingRequest::open(new_message_id(), message, ack_timeout_ms, response_timeout_ms))
    }
}

/// An event, and when it came, in nanoseconds after the request was sent.
pub struct TimedSend {
    pub event: SendEventView,
    pub elapsed: u128,
}

/// How far a request has come, and what was done for it so far.
pub struct SendRun {
    pub request: OutgoingView,
    pub actions: Seq<SendActionView>,
}

/// A request through a sequence of events.
pub open spec fn send_run(opened: OutgoingView, events: Seq<TimedSend>) -> SendRun
    decreases events.len(),
{
    if events.len() == 0 {
        SendRun { request: opened, actions: seq![SendActionView::Listen] }
    } else {
        let before = send_run(opened, events.drop_last());
        let action = before.request.action(events.last().event);
        SendRun {
            request: before.request.after(events.last().event, events.last().elapsed),
            actions: if action is Nothing {
                before.actions
            } else {
                before.actions.push(action)
            },
        }
    }
}

/// Whether sending came to success in one of some events.
pub open spec fn was_sent(events: Seq<TimedSend>) -> bool {
    exists|i: int|
        0 <= i < events.len() && (#[trigger] events[i]).event matches SendEventView::Sent(Ok(_))
}

/// Whatever happens, answers are listened for before the request is sent, the request is
/// sent once, it is waited for only if it was sent, and what it comes to comes last.
pub proof fn law_request_is_sent_in_order(
    message_id: Seq<char>,
    payload: Json,
    ack_timeout_ms: u64,
    response_timeout_ms: u64,
    events: Seq<TimedSend>,
)
    ensures
        ({
            let opened = OutgoingView::opened(
                message_id,
                payload,
                ack_timeout_ms,
                response_timeout_ms,
            );
            let request = MessageView::Request { message_id, payload };
            let run = send_run(opened, events);
            &&& run.actions.len() >= 1 && run.actions[0] == SendActionView::Listen
            &&& run.actions.len() > 1 ==> run.actions[1] == SendActionView::Send(request)
            &&& forall|i: int|
                2 <= i < run.actions.len() ==> #[trigger] run.actions[i] is Wait || run.actions[i] is Return
            &&& forall|i: int|
                0 <= i < run.actions.len() && #[trigger] run.actions[i] is Return ==> i
                    == run.actions.len() - 1
            &&& forall|i: int|
                0 <= i < run.actions.len() && #[trigger] run.actions[i] is Wait ==> was_sent(events)
            &&& match run.request.stage {
                SendStageView::Listening(held) => run.actions.len() == 1 && held == request,
                SendStageView::Sending => run.actions.len() == 2,
                SendStageView::Waiting => run.actions.len() >= 3 && run.actions.last() is Wait,
                SendStageView::Done => run.actions.len() >= 3 && run.actions.last() is Return,
            }
        }),
    decreases events.len(),
{
    if events.len() > 0 {
        let before = events.drop_last();
        law_request_is_sent_in_order(
            message_id,
            payload,
            ack_timeout_ms,
            response_timeout_ms,
            before,
        );
        if was_sent(before) {
            let k = choose|k: int|
                0 <= k < before.len() && (#[trigger] before[k]).event matches SendEventView::Sent(Ok(_));
            assert(events[k] == before[k]);
        }
        assert(events[events.len() - 1] == events.last());
        let opened = OutgoingView::opened(message_id, payload, ack_timeout_ms, response_timeout_ms);
        let earlier = send_run(opened, before);
        if earlier.request.stage is Waiting {
            assert(earlier.actions[earlier.actions.len() - 1] is Wait);
            assert(was_sent(before));
        }
    }
}

/// A request that cannot be sent comes to the error of the sending: nothing is waited
/// for, and whatever happens later nothing more is done.
pub proof fn law_failed_sending_ends_the_request(
    message_id: Seq<char>,
    payload: Json,
    ack_timeout_ms: u64,
    response_timeout_ms: u64,
    error: ErrorView,
    later: Seq<TimedSend>,
)
    ensures
        ({
            let opened = OutgoingView::opened(
                message_id,
                payload,
                ack_timeout_ms,
                response_timeout_ms,
            );
            let run = send_run(opened, sending_came_to(Err(error)) + later);
            &&& run.request.stage is Done
            &&& run.actions == seq![
                SendActionView::Listen,
                SendActionView::Send(MessageView::Request { message_id, payload }),
                SendActionView::Return(Err(error)),
            ]
        }),
    decreases later.len(),
{
    let opened = OutgoingView::opened(message_id, payload, ack_timeout_ms, response_timeout_ms);
    let begun = sending_came_to(Err(error));
    if later.len() == 0 {
        assert(begun + later =~= begun);
        lemma_run_to_sending(opened, Err(error));
    } else {
        assert((begun + later).drop_last() =~= begun + later.drop_last());
        assert((begun + later).last() == later.last());
        law_failed_sending_ends_the_request(
            message_id,
            payload,
            ack_timeout_ms,
            response_timeout_ms,
            error,
            later.drop_last(),
        );
    }
}

/// A request that was sent comes to what its answers come to: it is waited for as long
/// as they leave it undecided, and then comes to what decided it.
pub proof fn law_sent_request_comes_to_its_answer(
    message_id: Seq<char>,
    payload: Json,
    ack_timeout_ms: u64,
    response_timeout_ms: u64,
    replies: Seq<TimedReply>,
)
    ensures
        ({
            let opened = OutgoingView::opened(
                message_id,
                payload,
                ack_timeout_ms,
                response_timeout_ms,
            );
            let run = send_run(opened, sending_came_to(Ok(())) + heard(replies));
            let answered = crate::session::laws::reply_run(opened.pending, replies);
            &&& run.request.pending == answered.pending
            &&& run.request.stage == if answered.outcome is Waiting {
                SendStageView::Waiting
            } else {
                SendStageView::Done
            }
            &&& run.actions.len() >= 3
            &&& run.actions.last() == decided(answered.outcome)
        }),
    decreases replies.len(),
{
    let opened = OutgoingView::opened(message_id, payload, ack_timeout_ms, response_timeout_ms);
    let begun = sending_came_to(Ok(()));
    if replies.len() == 0 {
        assert(begun + heard(replies) =~= begun);
        lemma_run_to_sending(opened, Ok(()));
    } else {
        assert((begun + heard(replies)).drop_last() =~= begun + heard(replies.drop_last()));
        assert((begun + heard(replies)).last() == heard(replies).last());
        law_sent_request_comes_to_its_answer(
            message_id,
            payload,
            ack_timeout_ms,
            response_timeout_ms,
            replies.drop_last(),
        );
    }
}

/// The events up to what sending came to.
pub open spec fn sending_came_to(outcome: Result<(), ErrorView>) -> Seq<TimedSend> {
    seq![
        TimedSend { event: SendEventView::Listening, elapsed: 0 },
        TimedSend { event: SendEventView::Sent(outcome), elapsed: 0 },
    ]
}

/// What was heard, as events of a request.
pub open spec fn heard(replies: Seq<TimedReply>) -> Seq<TimedSend> {
    Seq::new(
        replies.len(),
        |i: int|
            TimedSend { event: SendEventView::Heard(replies[i].event), elapsed: replies[i].elapsed },
    )
}

proof fn lemma_run_to_sending(opened: OutgoingView, outcome: Result<(), ErrorView>)
    requires
        opened.stage is Listening,
    ensures
        ({
            let run = send_run(opened, sending_came_to(outcome));
            &&& run.actions == seq![
                SendActionView::Listen,
                SendActionView::Send(opened.stage->Listening_0),
                match outcome {
                    Ok(_) => SendActionView::Wait,
                    Err(error) => SendActionView::Return(Err(error)),
                },
            ]
            &&& run.request.pending == opened.pending
            &&& run.request.stage == match outcome {
                Ok(_) => SendStageView::Waiting,
                Err(_) => SendStageView::Done,
            }
        }),
{
    let events = sending_came_to(outcome);
    reveal_with_fuel(send_run, 3);
    assert(events.drop_last() =~= seq![events[0]]);
    assert(events.drop_last().drop_last() =~= seq![]);
    assert(send_run(opened, events).actions =~= seq![
        SendActionView::Listen,
        SendActionView::Send(opened.stage->Listening_0),
        match outcome {
            Ok(_) => SendActionView::Wait,
            Err(error) => SendActionView::Return(Err(error)),
        },
    ]);
}

/// Whether a request of a payload is opened as it is to be: nothing was done for it yet,
/// and answers are to be listened for first.
pub open spec fn is_opened(
    request: OutgoingRequest,
    action: SendAction,
    payload: Json,
    ack_timeout_ms: u64,
    response_timeout_ms: u64,
) -> bool {
    let held = request@.pending;
    &&& action is Listen
    &&& request@.stage == SendStageView::Listening(
        MessageView::Request { message_id: held.message_id, payload },
    )
    &&& held.ack_timeout_ms == ack_timeout_ms
    &&& held.response_timeout_ms == response_timeout_ms
    &&& held.acked_at is None
}

/// A session whose handshake is complete opens a request of the payload that it is given,
/// with ten seconds to be acknowledged and an hour to be answered from then on, unless
/// other times are given. In any other state of the signaling layer it refuses.
pub proof fn law_ready_session_opens_a_request(
    session: Session,
    signaling: SignalState,
    message: serde_json::Value,
    ack_timeout_ms: u64,
    response_timeout_ms: u64,
    opened: Result<(OutgoingRequest, SendAction), OpenLvError>,
    timed: Result<(OutgoingRequest, SendAction), OpenLvError>,
)
    requires
        call_ensures(Session::send, (&session, signaling, message), opened),
        call_ensures(
            Session::send_with_timeouts,
            (&session, signaling, message, ack_timeout_ms, response_timeout_ms),
            timed,
        ),
    ensures
        signaling is Encrypted ==> {
            &&& opened matches Ok((request, action)) && crate::message::is_uuid_v4(
                request@.pending.message_id,
            ) && is_opened(request, action, crate::json::content(message), 10_000, 3_600_000)
            &&& timed matches Ok((request, action)) && crate::message::is_uuid_v4(
                request@.pending.message_id,
            ) && is_opened(
                request,
                action,
                crate::json::content(message),
                ack_timeout_ms,
                response_timeout_ms,
            )
        },
        !(signaling is Encrypted) ==> {
            &&& opened matches Err(OpenLvError::Session(reason)) && reason@ == "session not ready"@
            &&& timed matches Err(OpenLvError::Session(reason)) && reason@ == "session not ready"@
        },
{
}

/// A request is opened under the identifier, with the payload and the times that it is
/// given.
pub proof fn law_request_is_opened_as_given(
    message_id: String,
    payload: serde_json::Value,
    ack_timeout_ms: u64,
    response_timeout_ms: u64,
    opened: (OutgoingRequest, SendAction),
)
    requires
        call_ensures(
            OutgoingRequest::open,
            (message_id, payload, ack_timeout_ms, response_timeout_ms),
            opened,
        ),
    ensures
        opened.0@.pending.message_id == message_id@,
        is_opened(
            opened.0,
            opened.1,
            crate::json::content(payload),
            ack_timeout_ms,
            response_timeout_ms,
        ),
{
}

/// Sending goes on with what was done: the request is sent once answers are listened for,
/// and waited for once it was sent; a sending that failed is what it comes to. While it is
/// waited for, the response with its identifier is what it comes to, with the payload of
/// the response whatever that is; no other message ends it. Anything else is passed over.
pub proof fn law_sending_goes_on_in_order(
    request: OutgoingRequest,
    event: SendEvent,
    elapsed: u128,
    next: (OutgoingRequest, SendAction),
)
    requires
        call_ensures(OutgoingRequest::on_event, (request, event, elapsed), next),
    ensures
        next.0@.pending.message_id == request@.pending.message_id,
        next.0@.pending.ack_timeout_ms == request@.pending.ack_timeout_ms,
        next.0@.pending.response_timeout_ms == request@.pending.response_timeout_ms,
        match (request@.stage, event) {
            (SendStageView::Listening(held), SendEvent::Listening) => {
                &&& next.1 matches SendAction::Send(message) && message@ == held
                &&& next.0@.stage is Sending
            },
            (SendStageView::Sending, SendEvent::Sent(Ok(_))) => {
                next.1 is Wait && next.0@.stage is Waiting
            },
            (SendStageView::Sending, SendEvent::Sent(Err(error))) => {
                &&& next.1 matches SendAction::Return(Err(e)) && e@ == error@
                &&& next.0@.stage is Done
            },
            (
                SendStageView::Waiting,
                SendEvent::Heard(ReplyEvent::Arrived(SessionMessage::Response { message_id, payload })),
            ) => if message_id@ == request@.pending.message_id {
                &&& next.1 matches SendAction::Return(Ok(answer)) && crate::json::content(answer)
                    == crate::json::content(payload)
                &&& next.0@.stage is Done
            } else {
                next.1 is Wait && next.0@ == request@
            },
            (
                SendStageView::Waiting,
                SendEvent::Heard(ReplyEvent::Arrived(SessionMessage::Ack { message_id })),
            ) => {
                &&& next.1 is Wait
                &&& next.0@.stage is Waiting
                &&& next.0@.pending.acked_at == if message_id@ == request@.pending.message_id
                    && request@.pending.acked_at is None {
                    Some(elapsed)
                } else {
                    request@.pending.acked_at
                }
            },
            (
                SendStageView::Waiting,
                SendEvent::Heard(ReplyEvent::Arrived(SessionMessage::Request { .. })),
            ) => next.1 is Wait && next.0@ == request@,
            (SendStageView::Waiting, SendEvent::Heard(ReplyEvent::Closed)) => {
                &&& next.1 matches SendAction::Return(Err(OpenLvError::RequestTimeout(reason)))
                    && reason@ == "response channel closed"@
                &&& next.0@.stage is Done
            },
            (SendStageView::Waiting, SendEvent::Heard(ReplyEvent::TimedOut)) => {
                &&& next.1 matches SendAction::Return(Err(OpenLvError::RequestTimeout(reason)))
                    && reason@ == (if request@.pending.acked_at is Some {
                    "no response after acknowledgement"@
                } else {
                    "remote peer did not acknowledge"@
                })
                &&& next.0@.stage is Done
            },
            _ => next.1 is Nothing && next.0@ == request@,
        },
{
}

/// Whether a reply leaves the request of an identifier undecided: it is a message, and not
/// the response to that request.
pub open spec fn leaves_open(message_id: Seq<char>, reply: ReplyView) -> bool {
    match reply {
        ReplyView::Arrived(MessageView::Response { message_id: id, payload: _ }) => id
            != message_id,
        ReplyView::Arrived(_) => true,
        _ => false,
    }
}

/// A request that was sent returns the payload of the first response with its identifier,
/// for every payload, if nothing decided it before. If nothing can be heard any longer
/// before that, or the time is over, it returns the error instead: one that tells whether
/// it was acknowledged. Nothing that is heard later changes that.
pub proof fn law_response_is_returned(
    message_id: Seq<char>,
    payload: Json,
    ack_timeout_ms: u64,
    response_timeout_ms: u64,
    replies: Seq<TimedReply>,
    first: int,
)
    requires
        0 <= first < replies.len(),
        !leaves_open(message_id, replies[first].event),
        forall|i: int| 0 <= i < first ==> leaves_open(message_id, (#[trigger] replies[i]).event),
    ensures
        ({
            let opened = OutgoingView::opened(
                message_id,
                payload,
                ack_timeout_ms,
                response_timeout_ms,
            );
            let run = send_run(opened, sending_came_to(Ok(())) + heard(replies));
            let returned = run.actions.last();
            let acknowledged = exists|i: int|
                0 <= i < first && (#[trigger] replies[i]).event == ReplyView::Arrived(
                    MessageView::Ack { message_id },
                );
            &&& run.request.stage is Done
            &&& match replies[first].event {
                ReplyView::Arrived(MessageView::Response { message_id: _, payload: answer }) => {
                    returned == SendActionView::Return(Ok(answer))
                },
                ReplyView::Arrived(_) => false,
                ReplyView::Closed => returned == SendActionView::Return(
                    Err(ErrorView::RequestTimeout("response channel closed"@)),
                ),
                ReplyView::TimedOut => returned == SendActionView::Return(
                    Err(
                        ErrorView::RequestTimeout(
                            if acknowledged {
                                "no response after acknowledgement"@
                            } else {
                                "remote peer did not acknowledge"@
                            },
                        ),
                    ),
                ),
            }
        }),
{
    let opened = OutgoingView::opened(message_id, payload, ack_timeout_ms, response_timeout_ms);
    law_sent_request_comes_to_its_answer(
        message_id,
        payload,
        ack_timeout_ms,
        response_timeout_ms,
        replies,
    );
    let earlier = replies.take(first);
    assert forall|i: int| 0 <= i < earlier.len() implies !crate::session::laws::decides(
        message_id,
        (#[trigger] earlier[i]).event,
    ) by {
        assert(earlier[i] == replies[i]);
    }
    crate::session::laws::law_first_decision_stands(opened.pending, replies, first);
    let ack = crate::session::laws::acknowledged_by(message_id);
    if crate::session::laws::unacknowledged(message_id, earlier) {
        assert forall|i: int| 0 <= i < first implies (#[trigger] replies[i]).event != ack by {
            assert(earlier[i] == replies[i]);
        }
    } else {
        let k = choose|k: int| 0 <= k < earlier.len() && (#[trigger] earlier[k]).event == ack;
        assert(replies[k].event == ack);
    }
}

/// A request that was sent is waited for as long as nothing decides it.
pub proof fn law_open_request_is_waited_for(
    message_id: Seq<char>,
    payload: Json,
    ack_timeout_ms: u64,
    response_timeout_ms: u64,
    replies: Seq<TimedReply>,
)
    requires
        forall|i: int|
            0 <= i < replies.len() ==> leaves_open(message_id, (#[trigger] replies[i]).event),
    ensures
        ({
            let opened = OutgoingView::opened(
                message_id,
                payload,
                ack_timeout_ms,
                response_timeout_ms,
            );
            let run = send_run(opened, sending_came_to(Ok(())) + heard(replies));
            run.request.stage is Waiting && run.actions.last() is Wait
        }),
{
    let opened = OutgoingView::opened(message_id, payload, ack_timeout_ms, response_timeout_ms);
    law_sent_request_comes_to_its_answer(
        message_id,
        payload,
        ack_timeout_ms,
        response_timeout_ms,
        replies,
    );
    crate::session::laws::law_undecided_request_waits(opened.pending, replies);
}

/// The waiting time of a request on its way is what is left until its deadline.
pub proof fn law_outgoing_request_waits_for_what_is_left(
    request: OutgoingRequest,
    elapsed: u128,
    timeout: u128,
)
    requires
        call_ensures(OutgoingRequest::timeout_nanos, (&request, elapsed), timeout),
    ensures
        match request@.pending.acked_at {
            None => {
                let allowed = request@.pending.ack_timeout_ms * 1_000_000;
                &&& elapsed <= allowed ==> elapsed + timeout == allowed
                &&& elapsed >= allowed ==> timeout == 0
            },
            Some(at) => {
                let allowed = at + request@.pending.response_timeout_ms * 1_000_000;
                &&& at <= elapsed <= allowed ==> elapsed + timeout == allowed
                &&& elapsed >= allowed ==> timeout == 0
                &&& elapsed < at ==> timeout == request@.pending.response_timeout_ms * 1_000_000
            },
        },
{
}

} // verus!
