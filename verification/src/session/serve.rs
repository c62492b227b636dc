//! Serving the remote peer's requests, and passing transport negotiation through.

use vstd::prelude::*;

use crate::error::{session_error, ErrorView, OpenLvError};
use crate::json::{copy_value, Json};
use crate::keys::EncryptionKey;
use crate::message::{new_message_id, MessageView, SessionMessage};

verus! {

/// What a message from the transport is to the session.
#[derive(Debug)]
pub enum Inbound {
    /// A request to serve.
    Request { message_id: String, payload: serde_json::Value },
    /// A message for whoever waits for an answer.
    Reply(SessionMessage),
}

/// An [`Inbound`] message as it is seen.
pub enum InboundView {
    Request { message_id: Seq<char>, payload: Json },
    Reply(MessageView),
}

impl View for Inbound {
    type V = InboundView;

    open spec fn view(&self) -> InboundView {
        match *self {
            Inbound::Request { message_id, payload } => InboundView::Request {
                message_id: message_id@,
                payload: crate::json::content(payload),
            },
            Inbound::Reply(message) => InboundView::Reply(message@),
        }
    }
}

/// What a message from the transport is to the session: a request is served, anything
/// else is an answer.
pub open spec fn routed(message: MessageView) -> InboundView {
    match message {
        MessageView::Request { message_id, payload } => InboundView::Request { message_id, payload },
        other => InboundView::Reply(other),
    }
}

/// The acknowledgement of a request.
pub open spec fn acknowledgement(message_id: Seq<char>) -> MessageView {
    MessageView::Ack { message_id }
}

/// The response to a request, after its handler came to a result.
pub open spec fn response(message_id: Seq<char>, result: Json) -> MessageView {
    MessageView::Response { message_id, payload: result }
}

/// Takes up what came over the transport: the outcome of decrypting it, and within
/// that the outcome of reading the plaintext as a message.
pub fn handle_transport_payload(
    decrypted: Result<Result<SessionMessage, serde_json::Error>, OpenLvError>,
) -> (inbound: Result<Inbound, OpenLvError>)
    ensures
        match decrypted {
            Ok(Ok(message)) => inbound matches Ok(routed_message) && routed_message@ == routed(
                message@,
            ),
            Ok(Err(error)) => inbound matches Err(e) && e@ == ErrorView::Json(error),
            Err(error) => inbound == Err::<Inbound, OpenLvError>(error),
        },
{
    match decrypted {
        Ok(Ok(SessionMessage::Request { message_id, payload })) => Ok(
            Inbound::Request { message_id, payload },
        ),
        Ok(Ok(other)) => Ok(Inbound::Reply(other)),
        Ok(Err(error)) => Err(OpenLvError::from(error)),
        Err(error) => Err(error),
    }
}

/// How far serving a request has come: what is being done.
#[derive(Debug)]
pub enum ServeStage {
    Acknowledging(serde_json::Value),
    Publishing(serde_json::Value),
    Handling,
    Responding,
    Served,
}

/// A [`ServeStage`] with the payload as it is seen.
pub enum StageView {
    Acknowledging(Json),
    Publishing(Json),
    Handling,
    Responding,
    Served,
}

impl View for ServeStage {
    type V = StageView;

    open spec fn view(&self) -> StageView {
        match *self {
            ServeStage::Acknowledging(payload) => StageView::Acknowledging(
                crate::json::content(payload),
            ),
            ServeStage::Publishing(payload) => StageView::Publishing(crate::json::content(payload)),
            ServeStage::Handling => StageView::Handling,
            ServeStage::Responding => StageView::Responding,
            ServeStage::Served => StageView::Served,
        }
    }
}

/// A request of the remote peer while it is served.
#[derive(Debug)]
pub struct RemoteRequest {
    message_id: String,
    stage: ServeStage,
}

/// A [`RemoteRequest`] with its identifier as characters.
pub struct RemoteView {
    pub message_id: Seq<char>,
    pub stage: StageView,
}

impl View for RemoteRequest {
    type V = RemoteView;

    closed spec fn view(&self) -> RemoteView {
        RemoteView { message_id: self.message_id@, stage: self.stage@ }
    }
}

/// What is to be done for a request.
#[derive(Debug)]
pub enum ServeAction {
    /// Send this acknowledgement.
    Acknowledge(SessionMessage),
    /// Tell the observers of this payload.
    Publish(serde_json::Value),
    /// Hand this payload to the handler.
    Handle(serde_json::Value),
    /// Send this response.
    Respond(SessionMessage),
    Nothing,
}

/// A [`ServeAction`] as it is seen.
pub enum ServeActionView {
    Acknowledge(MessageView),
    Publish(Json),
    Handle(Json),
    Respond(MessageView),
    Nothing,
}

impl View for ServeAction {
    type V = ServeActionView;

    open spec fn view(&self) -> ServeActionView {
        match *self {
            ServeAction::Acknowledge(message) => ServeActionView::Acknowledge(message@),
            ServeAction::Publish(payload) => ServeActionView::Publish(crate::json::content(payload)),
            ServeAction::Handle(payload) => ServeActionView::Handle(crate::json::content(payload)),
            ServeAction::Respond(message) => ServeActionView::Respond(message@),
            ServeAction::Nothing => ServeActionView::Nothing,
        }
    }
}

/// What was done for a request.
#[derive(Debug)]
pub enum ServeEvent {
    /// Sending a message was tried, whether or not it was sent, or the observers were
    /// told.
    Performed,
    /// The handler came to this.
    Handled(Result<serde_json::Value, OpenLvError>),
}

/// A [`ServeEvent`] with the handler's result as it is seen, if it has one.
pub enum ServeEventView {
    Performed,
    Handled(Option<Json>),
}

impl View for ServeEvent {
    type V = ServeEventView;

    open spec fn view(&self) -> ServeEventView {
        match *self {
            ServeEvent::Performed => ServeEventView::Performed,
            ServeEvent::Handled(Ok(result)) => ServeEventView::Handled(
                Some(crate::json::content(result)),
            ),
            ServeEvent::Handled(Err(_)) => ServeEventView::Handled(None),
        }
    }
}

impl RemoteView {
    /// A request that came in.
    pub open spec fn received(message_id: Seq<char>, payload: Json) -> Self {
        RemoteView { message_id, stage: StageView::Acknowledging(payload) }
    }

    /// The request after an event.
    pub open spec fn after(self, event: ServeEventView) -> Self {
        RemoteView {
            stage: match (self.stage, event) {
                (StageView::Acknowledging(payload), ServeEventView::Performed) => {
                    StageView::Publishing(payload)
                },
                (StageView::Publishing(_), ServeEventView::Performed) => StageView::Handling,
                (StageView::Handling, ServeEventView::Handled(Some(_))) => StageView::Responding,
                (StageView::Handling, ServeEventView::Handled(None)) => StageView::Served,
                (StageView::Responding, ServeEventView::Performed) => StageView::Served,
                (stage, _) => stage,
            },
            ..self
        }
    }

    /// What is to be done after an event.
    pub open spec fn action(self, event: ServeEventView) -> ServeActionView {
        match (self.stage, event) {
            (StageView::Acknowledging(payload), ServeEventView::Performed) => {
                ServeActionView::Publish(payload)
            },
            (StageView::Publishing(payload), ServeEventView::Performed) => ServeActionView::Handle(
                payload,
            ),
            (StageView::Handling, ServeEventView::Handled(Some(result))) => {
                ServeActionView::Respond(response(self.message_id, result))
            },
            _ => ServeActionView::Nothing,
        }
    }
}

/// Takes a request of the remote peer up. The acknowledgement comes first; what comes
/// next, [`RemoteRequest::on_event`] says.
pub fn handle_remote_request(message_id: String, payload: serde_json::Value) -> (served: (
    RemoteRequest,
    ServeAction,
))
    ensures
        served.0@ == RemoteView::received(message_id@, crate::json::content(payload)),
        served.1@ == ServeActionView::Acknowledge(acknowledgement(message_id@)),
{
    let ack = SessionMessage::Ack { message_id: message_id.clone() };
    let request = RemoteRequest { message_id, stage: ServeStage::Acknowledging(payload) };
    (request, ServeAction::Acknowledge(ack))
}

impl RemoteRequest {
    /// Takes notice of what was done, and says what is to be done next: after the
    /// acknowledgement the observers are told, then the handler is called, then its
    /// result is sent. That a message cannot be sent stops nothing; a handler that fails
    /// is not answered.
    pub fn on_event(self, event: ServeEvent) -> (next: (RemoteRequest, ServeAction))
        ensures
            next.0@ == self@.after(event@),
            next.1@ == self@.action(event@),
    {
        let message_id = self.message_id;
        match (self.stage, event) {
            (ServeStage::Acknowledging(payload), ServeEvent::Performed) => {
                let published = copy_value(&payload);
                (
                    RemoteRequest { message_id, stage: ServeStage::Publishing(payload) },
                    ServeAction::Publish(published),
                )
            },
            (ServeStage::Publishing(payload), ServeEvent::Performed) => (
                RemoteRequest { message_id, stage: ServeStage::Handling },
                ServeAction::Handle(payload),
            ),
            (ServeStage::Handling, ServeEvent::Handled(Ok(result))) => {
                let message = SessionMessage::Response {
                    message_id: message_id.clone(),
                    payload: result,
                };
                (
                    RemoteRequest { message_id, stage: ServeStage::Responding },
                    ServeAction::Respond(message),
                )
            },
            (ServeStage::Handling, ServeEvent::Handled(Err(_))) => (
                RemoteRequest { message_id, stage: ServeStage::Served },
                ServeAction::Nothing,
            ),
            (ServeStage::Responding, ServeEvent::Performed) => (
                RemoteRequest { message_id, stage: ServeStage::Served },
                ServeAction::Nothing,
            ),
            (stage, _) => (RemoteRequest { message_id, stage }, ServeAction::Nothing),
        }
    }
}

/// Prepares a message for the transport: its plaintext and the key to encrypt it with,
/// once the remote peer's key is known.
pub fn send_session_message(
    plaintext: Result<String, serde_json::Error>,
    relying_key: Option<EncryptionKey>,
) -> (sealed: Result<(String, EncryptionKey), OpenLvError>)
    ensures
        match plaintext {
            Err(error) => sealed matches Err(e) && e@ == ErrorView::Json(error),
            Ok(text) => match relying_key {
                None => sealed matches Err(e) && e@ == ErrorView::Session(
                    "relying party public key not found"@,
                ),
                Some(key) => sealed == Ok::<(String, EncryptionKey), OpenLvError>((text, key)),
            },
        },
{
    match plaintext {
        Err(error) => Err(OpenLvError::from(error)),
        Ok(text) => match relying_key {
            None => Err(session_error("relying party public key not found")),
            Some(key) => Ok((text, key)),
        },
    }
}

/// What a payload from the signaling layer is to the session. `N` is what the transport
/// negotiates with.
#[derive(Debug)]
pub enum SignalRoute<N> {
    /// Hand this to the transport.
    Negotiate(N),
    /// Read this as negotiation; see [`route_unwrapped`].
    Unwrap(serde_json::Value),
    /// A message for whoever waits for an answer.
    Publish(SessionMessage),
    Ignore,
}

/// Where a payload from the signaling layer goes, by what it can be read as.
pub open spec fn signal_route<N>(direct: Option<N>, message: Option<SessionMessage>) -> SignalRoute<
    N,
> {
    match direct {
        Some(negotiation) => SignalRoute::Negotiate(negotiation),
        None => match message {
            Some(SessionMessage::Request { message_id: _, payload }) => SignalRoute::Unwrap(
                payload,
            ),
            Some(other) => SignalRoute::Publish(other),
            None => SignalRoute::Ignore,
        },
    }
}

/// A request that wraps negotiation.
pub open spec fn wrapped(message_id: String, negotiation: serde_json::Value) -> SessionMessage {
    SessionMessage::Request { message_id, payload: negotiation }
}

/// Routes a payload from the signaling layer, by what it can be read as: negotiation on
/// its own, or else a session message, whose request may wrap negotiation.
pub fn route_signal_payload<N>(direct: Option<N>, message: Option<SessionMessage>) -> (route:
    SignalRoute<N>)
    ensures
        route == signal_route(direct, message),
{
    match direct {
        Some(negotiation) => SignalRoute::Negotiate(negotiation),
        None => match message {
            Some(SessionMessage::Request { message_id: _, payload }) => SignalRoute::Unwrap(
                payload,
            ),
            Some(other) => SignalRoute::Publish(other),
            None => SignalRoute::Ignore,
        },
    }
}

/// Routes a wrapped payload, by whether it can be read as negotiation.
pub fn route_unwrapped<N>(inner: Option<N>) -> (route: SignalRoute<N>)
    ensures
        route == (match inner {
            Some(negotiation) => SignalRoute::Negotiate(negotiation),
            None => SignalRoute::Ignore,
        }),
{
    match inner {
        Some(negotiation) => SignalRoute::Negotiate(negotiation),
        None => SignalRoute::Ignore,
    }
}

/// Wraps negotiation, written as JSON, in a request with that identifier.
pub fn wrap_negotiation(
    message_id: String,
    negotiation: Result<serde_json::Value, serde_json::Error>,
) -> (request: Result<SessionMessage, OpenLvError>)
    ensures
        match negotiation {
            Ok(payload) => request == Ok::<SessionMessage, OpenLvError>(
                wrapped(message_id, payload),
            ),
            Err(error) => request matches Err(e) && e@ == ErrorView::Json(error),
        },
{
    match negotiation {
        Ok(payload) => Ok(SessionMessage::Request { message_id, payload }),
        Err(error) => Err(OpenLvError::from(error)),
    }
}

/// Wraps negotiation, written as JSON, in a request with an identifier of its own, to be
/// sent over the signaling layer.
pub fn relay_negotiation(negotiation: Result<serde_json::Value, serde_json::Error>) -> (request:
    Result<SessionMessage, OpenLvError>)
    ensures
        match negotiation {
            Ok(payload) => exists|message_id: String|
                request == Ok::<SessionMessage, OpenLvError>(#[trigger] wrapped(message_id, payload))
                    && crate::message::is_uuid_v4(message_id@),
            Err(error) => request matches Err(e) && e@ == ErrorView::Json(error),
        },
{
    wrap_negotiation(new_message_id(), negotiation)
}

/// A message from the transport is served if it is a request, with its identifier and its
/// payload, and is an answer as it is if it is not. What could not be decrypted or read
/// gives its error.
pub proof fn law_messages_are_routed(
    decrypted: Result<Result<SessionMessage, serde_json::Error>, OpenLvError>,
    inbound: Result<Inbound, OpenLvError>,
)
    requires
        call_ensures(handle_transport_payload, (decrypted,), inbound),
    ensures
        match decrypted {
            Ok(Ok(SessionMessage::Request { message_id, payload })) => inbound matches Ok(
                Inbound::Request { message_id: id, payload: held },
            ) && id@ == message_id@ && crate::json::content(held) == crate::json::content(payload),
            Ok(Ok(SessionMessage::Ack { message_id })) => inbound matches Ok(Inbound::Reply(
                SessionMessage::Ack { message_id: id },
            )) && id@ == message_id@,
            Ok(Ok(SessionMessage::Response { message_id, payload })) => inbound matches Ok(
                Inbound::Reply(SessionMessage::Response { message_id: id, payload: held }),
            ) && id@ == message_id@ && crate::json::content(held) == crate::json::content(payload),
            Ok(Err(error)) => inbound matches Err(OpenLvError::Json(e)) && e == error,
            Err(error) => inbound == Err::<Inbound, OpenLvError>(error),
        },
{
}

/// A request is first acknowledged under its identifier.
pub proof fn law_request_is_acknowledged_first(
    message_id: String,
    payload: serde_json::Value,
    served: (RemoteRequest, ServeAction),
)
    requires
        call_ensures(handle_remote_request, (message_id, payload), served),
    ensures
        served.1 matches ServeAction::Acknowledge(SessionMessage::Ack { message_id: id }) && id@
            == message_id@,
        served.0@.message_id == message_id@,
        served.0@.stage == StageView::Acknowledging(crate::json::content(payload)),
{
}

/// Serving goes on with what was done: the payload is told to the observers once the
/// acknowledgement was tried, and is handed to the handler once they were told; the
/// handler's result, whatever it is, is the payload of the response to that request. A
/// handler that failed is not answered. Anything else is passed over.
pub proof fn law_serving_goes_on_in_order(
    request: RemoteRequest,
    event: ServeEvent,
    next: (RemoteRequest, ServeAction),
)
    requires
        call_ensures(RemoteRequest::on_event, (request, event), next),
    ensures
        next.0@.message_id == request@.message_id,
        match (request@.stage, event) {
            (StageView::Acknowledging(payload), ServeEvent::Performed) => {
                &&& next.1 matches ServeAction::Publish(told) && crate::json::content(told) == payload
                &&& next.0@.stage == StageView::Publishing(payload)
            },
            (StageView::Publishing(payload), ServeEvent::Performed) => {
                &&& next.1 matches ServeAction::Handle(handed) && crate::json::content(handed)
                    == payload
                &&& next.0@.stage is Handling
            },
            (StageView::Handling, ServeEvent::Handled(Ok(result))) => {
                &&& next.1 matches ServeAction::Respond(
                    SessionMessage::Response { message_id, payload },
                ) && message_id@ == request@.message_id && crate::json::content(payload)
                    == crate::json::content(result)
                &&& next.0@.stage is Responding
            },
            (StageView::Handling, ServeEvent::Handled(Err(_))) => {
                next.1 is Nothing && next.0@.stage is Served
            },
            (StageView::Responding, ServeEvent::Performed) => {
                next.1 is Nothing && next.0@.stage is Served
            },
            _ => next.1 is Nothing && next.0@ == request@,
        },
{
}

/// A message is sealed as it was written, with the remote peer's key; without the key it is
/// not, and one that could not be written is not either.
pub proof fn law_messages_are_sealed_for_the_peer(
    plaintext: Result<String, serde_json::Error>,
    relying_key: Option<EncryptionKey>,
    sealed: Result<(String, EncryptionKey), OpenLvError>,
)
    requires
        call_ensures(send_session_message, (plaintext, relying_key), sealed),
    ensures
        match (plaintext, relying_key) {
            (Err(error), _) => sealed matches Err(OpenLvError::Json(e)) && e == error,
            (Ok(_), None) => sealed matches Err(OpenLvError::Session(reason)) && reason@
                == "relying party public key not found"@,
            (Ok(text), Some(key)) => sealed matches Ok((sent, with)) && sent@ == text@
                && with.bytes@ == key.bytes@,
        },
{
}

/// A payload from the signaling layer that is negotiation goes to the transport. Else a
/// request is opened for the negotiation that it may hold, any other message is an answer
/// as it is, and anything else is passed over.
pub proof fn law_negotiation_reaches_the_transport<N>(
    direct: Option<N>,
    message: Option<SessionMessage>,
    route: SignalRoute<N>,
    inner: Option<N>,
    unwrapped: SignalRoute<N>,
)
    requires
        call_ensures(route_signal_payload::<N>, (direct, message), route),
        call_ensures(route_unwrapped::<N>, (inner,), unwrapped),
    ensures
        match (direct, message) {
            (Some(negotiation), _) => route == SignalRoute::Negotiate(negotiation),
            (None, Some(SessionMessage::Request { message_id: _, payload })) => route
                == SignalRoute::<N>::Unwrap(payload),
            (None, Some(other)) => route == SignalRoute::<N>::Publish(other),
            (None, None) => route is Ignore,
        },
        match inner {
            Some(negotiation) => unwrapped == SignalRoute::Negotiate(negotiation),
            None => unwrapped is Ignore,
        },
{
}

/// Negotiation is relayed as it is in a request under an identifier of its own, or under
/// the one that is given. If it could not be written it is not relayed.
pub proof fn law_negotiation_is_wrapped(
    message_id: String,
    negotiation: Result<serde_json::Value, serde_json::Error>,
    request: Result<SessionMessage, OpenLvError>,
    relayed: Result<SessionMessage, OpenLvError>,
)
    requires
        call_ensures(wrap_negotiation, (message_id, negotiation), request),
        call_ensures(relay_negotiation, (negotiation,), relayed),
    ensures
        match negotiation {
            Ok(payload) => {
                &&& request matches Ok(SessionMessage::Request { message_id: id, payload: held })
                    && id@ == message_id@ && held == payload
                &&& relayed matches Ok(SessionMessage::Request { message_id: id, payload: held })
                    && crate::message::is_uuid_v4(id@) && held == payload
            },
            Err(error) => {
                &&& request matches Err(OpenLvError::Json(e)) && e == error
                &&& relayed matches Err(OpenLvError::Json(e)) && e == error
            },
        },
{
}

/// What is sent for a request names that request and nothing else: its acknowledgement, and
/// the response with the result. A request that wraps negotiation holds it as it is.
pub proof fn law_answers_name_their_request(
    message_id: Seq<char>,
    result: Json,
    id: String,
    negotiation: serde_json::Value,
)
    ensures
        acknowledgement(message_id) == (MessageView::Ack { message_id }),
        response(message_id, result) == (MessageView::Response { message_id, payload: result }),
        wrapped(id, negotiation) == (SessionMessage::Request {
            message_id: id,
            payload: negotiation,
        }),
{
}

} // verus!
