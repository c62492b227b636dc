//! Sending JSON-RPC requests over a session, and reading the replies.
//!
//! The handler of the remote peer replies with the bare result, or with an object that
//! has an `error`. Either is put in a JSON-RPC response before it is read as one.

use alloy::rpc::json_rpc::{Id, Response, ResponsePayload};
use vstd::prelude::*;

use crate::error::{ErrorView, OpenLvError};
use crate::json::{
    copy_value, find_member, null_value, object_value, parse_json, text_value, unsigned_value, Json,
};
use crate::session::send::{OutgoingRequest, OutgoingView, SendAction, SendActionView};
use crate::session::state::{Session, SessionView};
use crate::signaling::SignalState;

verus! {

/// The identifier of a JSON-RPC request.
#[derive(Debug)]
pub enum RpcId {
    Number(u64),
    Text(String),
    Null,
}

/// An [`RpcId`] with its text as characters.
pub enum RpcIdView {
    Number(u64),
    Text(Seq<char>),
    Null,
}

impl View for RpcId {
    type V = RpcIdView;

    open spec fn view(&self) -> RpcIdView {
        match *self {
            RpcId::Number(number) => RpcIdView::Number(number),
            RpcId::Text(text) => RpcIdView::Text(text@),
            RpcId::Null => RpcIdView::Null,
        }
    }
}

impl RpcIdView {
    /// The identifier as JSON.
    pub open spec fn json(self) -> Json {
        match self {
            RpcIdView::Number(number) => Json::Unsigned(number),
            RpcIdView::Text(text) => Json::Text(text),
            RpcIdView::Null => Json::Null,
        }
    }
}

impl RpcId {
    /// The identifier as JSON.
    pub fn to_value(self) -> (value: serde_json::Value)
        ensures
            crate::json::content(value) == self@.json(),
    {
        match self {
            RpcId::Number(number) => unsigned_value(number),
            RpcId::Text(text) => text_value(text),
            RpcId::Null => null_value(),
        }
    }
}

/// The error that a JSON-RPC request was answered with. The data is a JSON text.
#[derive(Debug)]
pub struct RpcFailure {
    pub code: i64,
    pub message: String,
    pub data: Option<String>,
}

/// What a JSON-RPC request was answered with. A result is a JSON text.
#[derive(Debug)]
pub enum RpcPayload {
    Success(String),
    Failure(RpcFailure),
}

/// A JSON-RPC response.
#[derive(Debug)]
pub struct RpcResponse {
    pub id: RpcId,
    pub payload: RpcPayload,
}

/// An [`RpcPayload`] with its texts as characters.
pub enum RpcPayloadView {
    Success(Seq<char>),
    Failure { code: i64, message: Seq<char>, data: Option<Seq<char>> },
}

/// An [`RpcResponse`] with its texts as characters.
pub struct RpcResponseView {
    pub id: RpcIdView,
    pub payload: RpcPayloadView,
}

impl View for RpcResponse {
    type V = RpcResponseView;

    open spec fn view(&self) -> RpcResponseView {
        RpcResponseView {
            id: self.id@,
            payload: match self.payload {
                RpcPayload::Success(text) => RpcPayloadView::Success(text@),
                RpcPayload::Failure(failure) => RpcPayloadView::Failure {
                    code: failure.code,
                    message: failure.message@,
                    data: crate::text::opt_text(failure.data),
                },
            },
        }
    }
}

/// Why a request came to nothing.
#[derive(Debug)]
pub enum DispatchError {
    /// The request is no JSON text.
    Request(serde_json::Error),
    /// The session did not deliver it, or no response came.
    Session(OpenLvError),
    /// The reply cannot be read as a response.
    Response(serde_json::Error),
}

/// The text that `serde_json` writes for a JSON value.
pub uninterp spec fn json_text(value: Json) -> Seq<char>;

/// The identifier that an object answers to, if it is one of a request. An object without
/// an identifier answers to none.
pub open spec fn answered_id(envelope: Json) -> Option<RpcIdView> {
    if envelope.has_member("id"@) {
        match envelope.member("id"@) {
            Json::Unsigned(number) => Some(RpcIdView::Number(number)),
            Json::Text(text) => Some(RpcIdView::Text(text)),
            Json::Null => Some(RpcIdView::Null),
            _ => None,
        }
    } else {
        Some(RpcIdView::Null)
    }
}

/// The code of an error object: an integer of 64 bits, which it has to have.
pub open spec fn failure_code(error: Json) -> Option<i64> {
    if error.has_member("code"@) {
        match error.member("code"@) {
            Json::Unsigned(code) => if code <= i64::MAX {
                Some(code as i64)
            } else {
                None
            },
            Json::Negative(code) => Some(code),
            _ => None,
        }
    } else {
        None
    }
}

/// The message of an error object: a text, and an empty one where there is none.
pub open spec fn failure_message(error: Json) -> Option<Seq<char>> {
    if error.has_member("message"@) {
        match error.member("message"@) {
            Json::Text(message) => Some(message),
            _ => None,
        }
    } else {
        Some(seq![])
    }
}

/// The data of an error object, as a JSON text, where there is any.
pub open spec fn failure_data(error: Json) -> Option<Seq<char>> {
    if error.has_member("data"@) {
        Some(json_text(error.member("data"@)))
    } else {
        None
    }
}

/// The failure that an error object tells of, if it can be read as one.
pub open spec fn failure_in(error: Json) -> Option<RpcPayloadView> {
    match (failure_code(error), failure_message(error)) {
        (Some(code), Some(message)) => Some(
            RpcPayloadView::Failure { code, message, data: failure_data(error) },
        ),
        _ => None,
    }
}

/// What an object answers with: its result or the failure that its error tells of, if it
/// has exactly one of the two.
pub open spec fn payload_in(envelope: Json) -> Option<RpcPayloadView> {
    if envelope.has_member("result"@) && !envelope.has_member("error"@) {
        Some(RpcPayloadView::Success(json_text(envelope.member("result"@))))
    } else if envelope.has_member("error"@) && !envelope.has_member("result"@) {
        failure_in(envelope.member("error"@))
    } else {
        None
    }
}

/// The response that a JSON value is read as, if it is one.
pub open spec fn response_in(envelope: Json) -> Option<RpcResponseView> {
    match (answered_id(envelope), payload_in(envelope)) {
        (Some(id), Some(payload)) => Some(RpcResponseView { id, payload }),
        _ => None,
    }
}

/// Reads a value as a JSON-RPC response: `serde_json::from_value`, for `alloy`'s
/// `rpc::json_rpc::Response`.
///
/// Claimed: an object is read if its identifier, where it has one, is an unsigned
/// integer, a text or null, and if it has a result or an error that can be read, and not
/// both. Any result can be read, and is kept as the text that `serde_json` writes for it.
/// An error can be read if it is an object with an integer of 64 bits as its code and,
/// where it has a message, a text as that; its data is kept as a text as a result is.
/// Other members are ignored. Nothing is claimed of the error that comes back.
#[verifier::external_body]
fn parse_response(envelope: serde_json::Value) -> (parsed: Result<RpcResponse, serde_json::Error>)
    ensures
        match parsed {
            Ok(response) => response_in(crate::json::content(envelope)) == Some(response@),
            Err(_) => response_in(crate::json::content(envelope)) is None,
        },
        parsed is Ok && parsed->Ok_0@.payload is Success ==> parsed->Ok_0@.payload
            == RpcPayloadView::Success(
            json_text(crate::json::content(envelope).member("result"@)),
        ),
{
    let response: Response = serde_json::from_value(envelope)?;
    let id = match response.id {
        Id::Number(number) => RpcId::Number(number),
        Id::String(text) => RpcId::Text(text),
        Id::None => RpcId::Null,
    };
    let payload = match response.payload {
        ResponsePayload::Success(result) => RpcPayload::Success(result.get().to_owned()),
        ResponsePayload::Failure(error) => RpcPayload::Failure(RpcFailure {
            code: error.code,
            message: error.message.into_owned(),
            data: error.data.map(|data| data.get().to_owned()),
        }),
    };
    Ok(RpcResponse { id, payload })
}

/// The names of the members of a response are four different ones.
proof fn lemma_names_differ()
    ensures
        "jsonrpc"@ != "id"@,
        "jsonrpc"@ != "result"@,
        "jsonrpc"@ != "error"@,
        "id"@ != "result"@,
        "id"@ != "error"@,
        "result"@ != "error"@,
{
    reveal_strlit("jsonrpc");
    reveal_strlit("id");
    reveal_strlit("result");
    reveal_strlit("error");
    assert("jsonrpc"@.len() == 7 && "id"@.len() == 2 && "result"@.len() == 6 && "error"@.len()
        == 5);
}

/// A reply put in a JSON-RPC response.
pub open spec fn enveloped(id: RpcIdView, reply: Json) -> Json {
    if reply.has_member("error"@) {
        Json::Object(
            map![
                "jsonrpc"@ => Json::Text("2.0"@),
                "id"@ => id.json(),
                "error"@ => reply.member("error"@),
            ],
        )
    } else {
        Json::Object(
            map!["jsonrpc"@ => Json::Text("2.0"@), "id"@ => id.json(), "result"@ => reply],
        )
    }
}

fn envelope_object(id: RpcId, name: &str, outcome: serde_json::Value) -> (envelope:
    serde_json::Value)
    requires
        name@ == "result"@ || name@ == "error"@,
    ensures
        crate::json::content(envelope) == Json::Object(
            map![
                "jsonrpc"@ => Json::Text("2.0"@),
                "id"@ => id@.json(),
                name@ => crate::json::content(outcome),
            ],
        ),
{
    let mut fields: Vec<(String, serde_json::Value)> = Vec::new();
    fields.push(("jsonrpc".to_owned(), text_value("2.0".to_owned())));
    fields.push(("id".to_owned(), id.to_value()));
    fields.push((name.to_owned(), outcome));
    proof {
        lemma_names_differ();
        let f = fields@;
        assert(f[0].0@ == "jsonrpc"@ && f[1].0@ == "id"@ && f[2].0@ == name@);
        reveal_with_fuel(crate::json::members_of, 4);
        assert(f.drop_last() =~= seq![f[0], f[1]]);
        assert(f.drop_last().drop_last() =~= seq![f[0]]);
        assert(f.drop_last().drop_last().drop_last() =~= seq![]);
        assert(crate::json::members_of(f) =~= map![
            "jsonrpc"@ => Json::Text("2.0"@),
            "id"@ => id@.json(),
            name@ => crate::json::content(outcome),
        ]);
    }
    object_value(fields)
}

/// Puts a reply in a JSON-RPC response to the request of an identifier.
pub fn envelope(id: RpcId, reply: serde_json::Value) -> (envelope: serde_json::Value)
    ensures
        crate::json::content(envelope) == enveloped(id@, crate::json::content(reply)),
{
    let error = match find_member(&reply, "error") {
        Some(member) => Some(copy_value(member)),
        None => None,
    };
    match error {
        Some(error) => envelope_object(id, "error", error),
        None => envelope_object(id, "result", reply),
    }
}

/// What a request of an identifier is answered with, after what the session came to.
pub fn dispatch_reply(id: RpcId, outcome: Result<serde_json::Value, OpenLvError>) -> (response:
    Result<RpcResponse, DispatchError>)
    ensures
        match outcome {
            Err(error) => response == Err::<RpcResponse, DispatchError>(
                DispatchError::Session(error),
            ),
            Ok(reply) => {
                let held = crate::json::content(reply);
                let payload = if held.has_member("error"@) {
                    failure_in(held.member("error"@))
                } else {
                    Some(RpcPayloadView::Success(json_text(held)))
                };
                match payload {
                    Some(payload) => response matches Ok(r) && r@ == (RpcResponseView {
                        id: id@,
                        payload,
                    }),
                    None => response matches Err(error) && error is Response,
                }
            },
        },
{
    match outcome {
        Err(error) => Err(DispatchError::Session(error)),
        Ok(reply) => {
            proof {
                law_envelope_has_result_or_error(id@, crate::json::content(reply));
            }
            match parse_response(envelope(id, reply)) {
                Ok(response) => Ok(response),
                Err(error) => Err(DispatchError::Response(error)),
            }
        },
    }
}

/// A session as a transport for JSON-RPC clients.
#[derive(Debug, Clone, Copy)]
pub struct Transport<'a> {
    session: &'a Session,
}

impl<'a> View for Transport<'a> {
    type V = SessionView;

    closed spec fn view(&self) -> SessionView {
        self.session@
    }
}

impl<'a> Transport<'a> {
    /// A transport over a session.
    pub fn new(session: &'a Session) -> (transport: Self)
        ensures
            transport@ == session@,
    {
        Transport { session }
    }

    /// Sends a request, given as a JSON text, over the session.
    pub fn dispatch_request(&self, signaling: SignalState, text: &str) -> (opened: Result<
        (OutgoingRequest, SendAction),
        DispatchError,
    >)
        ensures
            match crate::json::parsed_json(text@) {
                None => opened matches Err(error) && error is Request,
                Some(payload) => match opened {
                    Ok((request, action)) => {
                        &&& signaling@ is Encrypted
                        &&& crate::message::is_uuid_v4(request@.pending.message_id)
                        &&& request@ == OutgoingView::opened(
                            request@.pending.message_id,
                            payload,
                            10_000,
                            3_600_000,
                        )
                        &&& action@ == SendActionView::Listen
                    },
                    Err(error) => {
                        &&& !(signaling@ is Encrypted)
                        &&& error matches DispatchError::Session(e) && e@ == ErrorView::Session(
                            "session not ready"@,
                        )
                    },
                },
            },
    {
        match parse_json(text) {
            Err(error) => Err(DispatchError::Request(error)),
            Ok(payload) => match self.session.send(signaling, payload) {
                Ok(opened) => Ok(opened),
                Err(error) => Err(DispatchError::Session(error)),
            },
        }
    }
}

/// A reply in a JSON-RPC response: it carries version 2.0, the identifier of the
/// request, and either the reply as its result or the reply's error as its error, never
/// both.
pub proof fn law_envelope_has_result_or_error(id: RpcIdView, reply: Json)
    ensures
        ({
            let e = enveloped(id, reply);
            &&& e.has_member("jsonrpc"@) && e.member("jsonrpc"@) == Json::Text("2.0"@)
            &&& e.has_member("id"@) && e.member("id"@) == id.json()
            &&& e.has_member("error"@) <==> reply.has_member("error"@)
            &&& e.has_member("result"@) <==> !reply.has_member("error"@)
            &&& e.has_member("error"@) ==> e.member("error"@) == reply.member("error"@)
            &&& e.has_member("result"@) ==> e.member("result"@) == reply
        }),
{
    lemma_names_differ();
}

/// Whether a JSON value is an identifier as JSON.
pub open spec fn is_json_of(held: Json, id: RpcId) -> bool {
    match id {
        RpcId::Number(number) => held == Json::Unsigned(number),
        RpcId::Text(text) => held == Json::Text(text@),
        RpcId::Null => held is Null,
    }
}

/// Whether two identifiers are the same.
pub open spec fn same_id(a: RpcId, b: RpcId) -> bool {
    match (a, b) {
        (RpcId::Number(x), RpcId::Number(y)) => x == y,
        (RpcId::Text(x), RpcId::Text(y)) => x@ == y@,
        (RpcId::Null, RpcId::Null) => true,
        _ => false,
    }
}

/// An identifier is written as the number or the text that it is, or as null.
pub proof fn law_identifier_is_written(id: RpcId, written: serde_json::Value)
    requires
        call_ensures(RpcId::to_value, (id,), written),
    ensures
        is_json_of(crate::json::content(written), id),
{
}

/// A reply is put in an object with the version, the identifier of the request and one
/// thing more: the reply's error if it has one, and else the whole reply as the result.
pub proof fn law_reply_is_enveloped(id: RpcId, reply: serde_json::Value, put: serde_json::Value)
    requires
        call_ensures(envelope, (id, reply), put),
    ensures
        ({
            let held = crate::json::content(reply);
            let e = crate::json::content(put);
            let outcome = if held.has_member("error"@) {
                "error"@
            } else {
                "result"@
            };
            &&& e is Object
            &&& forall|name: Seq<char>| #[trigger]
                e.has_member(name) <==> name == "jsonrpc"@ || name == "id"@ || name == outcome
            &&& e.member("jsonrpc"@) == Json::Text("2.0"@)
            &&& is_json_of(e.member("id"@), id)
            &&& held.has_member("error"@) ==> e.member("error"@) == held.member("error"@)
            &&& !held.has_member("error"@) ==> e.member("result"@) == held
        }),
{
    lemma_names_differ();
}

/// A reply without an error is the result of the request, whatever it is: the response
/// has the identifier of the request and the text of the whole reply.
pub proof fn law_bare_reply_is_the_result(
    id: RpcId,
    reply: serde_json::Value,
    response: Result<RpcResponse, DispatchError>,
)
    requires
        call_ensures(dispatch_reply, (id, Ok(reply)), response),
        !crate::json::content(reply).has_member("error"@),
    ensures
        response matches Ok(r) && {
            &&& same_id(r.id, id)
            &&& r.payload matches RpcPayload::Success(text) && text@ == json_text(
                crate::json::content(reply),
            )
        },
{
}

/// A reply with an error is the failure of the request: the response has the identifier
/// of the request and the code, the message and the data of the error. It is one exactly
/// if the error has an integer of 64 bits as its code, and no message but a text.
pub proof fn law_error_reply_is_a_failure(
    id: RpcId,
    reply: serde_json::Value,
    response: Result<RpcResponse, DispatchError>,
)
    requires
        call_ensures(dispatch_reply, (id, Ok(reply)), response),
        crate::json::content(reply).has_member("error"@),
    ensures
        ({
            let error = crate::json::content(reply).member("error"@);
            let code = error.member("code"@);
            let message = error.member("message"@);
            let readable = error.has_member("code"@) && ((code matches Json::Unsigned(number)
                && number <= i64::MAX) || code is Negative) && (error.has_member("message"@)
                ==> message is Text);
            &&& response is Ok <==> readable
            &&& response matches Err(e) ==> e is Response
            &&& response matches Ok(r) ==> {
                &&& same_id(r.id, id)
                &&& r.payload matches RpcPayload::Failure(failure) && {
                    &&& code matches Json::Unsigned(number) ==> failure.code == number
                    &&& code matches Json::Negative(number) ==> failure.code == number
                    &&& error.has_member("message"@) ==> message == Json::Text(failure.message@)
                    &&& !error.has_member("message"@) ==> failure.message@.len() == 0
                    &&& match failure.data {
                        Some(data) => error.has_member("data"@) && data@ == json_text(
                            error.member("data"@),
                        ),
                        None => !error.has_member("data"@),
                    }
                }
            }
        }),
{
}

/// A request that the session did not deliver or that was not answered comes to the error
/// of the session.
pub proof fn law_session_error_is_passed_on(
    id: RpcId,
    error: OpenLvError,
    response: Result<RpcResponse, DispatchError>,
)
    requires
        call_ensures(dispatch_reply, (id, Err(error)), response),
    ensures
        response == Err::<RpcResponse, DispatchError>(DispatchError::Session(error)),
{
}

/// A text is sent over a ready session as the JSON that it denotes, with ten seconds to
/// be acknowledged and an hour from then to be answered. A text that denotes none is
/// refused first, and then a session that is not ready.
pub proof fn law_text_is_dispatched(
    transport: Transport,
    signaling: SignalState,
    text: &str,
    opened: Result<(OutgoingRequest, SendAction), DispatchError>,
)
    requires
        call_ensures(Transport::dispatch_request, (&transport, signaling, text), opened),
    ensures
        match crate::json::parsed_json(text@) {
            None => opened matches Err(DispatchError::Request(_)),
            Some(payload) => if signaling is Encrypted {
                opened matches Ok((request, action)) && {
                    let id = request@.pending.message_id;
                    &&& action is Listen
                    &&& crate::message::is_uuid_v4(id)
                    &&& request@.stage == crate::session::send::SendStageView::Listening(
                        crate::message::MessageView::Request { message_id: id, payload },
                    )
                    &&& request@.pending.ack_timeout_ms == 10_000
                    &&& request@.pending.response_timeout_ms == 3_600_000
                    &&& request@.pending.acked_at is None
                }
            } else {
                opened matches Err(DispatchError::Session(OpenLvError::Session(reason)))
                    && reason@ == "session not ready"@
            },
        },
{
}

/// A transport is over the session that it is given.
pub proof fn law_transport_is_over_its_session<'a>(session: &'a Session, transport: Transport<'a>)
    requires
        call_ensures(Transport::new, (session,), transport),
    ensures
        transport@ == session@,
{
}

} // verus!
