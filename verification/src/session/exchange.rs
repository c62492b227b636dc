//! Requests and their answers.
//!
//! A request is acknowledged by the remote peer at once and answered when its handler
//! is done. [`PendingRequest`] follows the answers to one request on the side that sent it,
//! [`RemoteRequest`](crate::session::serve::RemoteRequest) on the side that serves it.

use vstd::prelude::*;

use crate::error::{ErrorView, OpenLvError};
use crate::json::Json;
use crate::message::{MessageView, SessionMessage};

verus! {

/// How long a request waits to be acknowledged, unless said otherwise.
pub const DEFAULT_ACK_TIMEOUT_MS: u64 = 10_000;

/// How long an acknowledged request waits for its response, unless said otherwise.
pub const DEFAULT_RESPONSE_TIMEOUT_MS: u64 = 3_600_000;

const NANOS_PER_MILLI: u128 = 1_000_000;

/// A request that was sent and has no answer yet.
#[derive(Debug)]
pub struct PendingRequest {
    message_id: String,
    ack_timeout_ms: u64,
    response_timeout_ms: u64,
    acked_at: Option<u128>,
}

/// A [`PendingRequest`] with its identifier as characters.
pub struct PendingView {
    pub message_id: Seq<char>,
    pub ack_timeout_ms: u64,
    pub response_timeout_ms: u64,
    /// When the request was acknowledged, in nanoseconds after it was sent.
    pub acked_at: Option<u128>,
}

impl View for PendingRequest {
    type V = PendingView;

    closed spec fn view(&self) -> PendingView {
        PendingView {
            message_id: self.message_id@,
            ack_timeout_ms: self.ack_timeout_ms,
            response_timeout_ms: self.response_timeout_ms,
            acked_at: self.acked_at,
        }
    }
}

/// What whoever waits for an answer hears.
#[derive(Debug)]
pub enum ReplyEvent {
    /// A message that is no request arrived.
    Arrived(SessionMessage),
    /// Messages cannot be received any longer, or some were missed.
    Closed,
    /// The time that [`PendingRequest::timeout_nanos`] gave has passed.
    TimedOut,
}

/// A [`ReplyEvent`] with the message as it is seen.
pub enum ReplyView {
    Arrived(MessageView),
    Closed,
    TimedOut,
}

impl View for ReplyEvent {
    type V = ReplyView;

    open spec fn view(&self) -> ReplyView {
        match *self {
            ReplyEvent::Arrived(message) => ReplyView::Arrived(message@),
            ReplyEvent::Closed => ReplyView::Closed,
            ReplyEvent::TimedOut => ReplyView::TimedOut,
        }
    }
}

/// How a request stands.
pub enum ReplyOutcome {
    Waiting,
    Answered(Json),
    Failed(ErrorView),
}

/// How a request stands, by what is returned for it.
pub open spec fn reply_outcome(answer: Option<Result<serde_json::Value, OpenLvError>>) -> ReplyOutcome {
    match answer {
        None => ReplyOutcome::Waiting,
        Some(Ok(payload)) => ReplyOutcome::Answered(crate::json::content(payload)),
        Some(Err(error)) => ReplyOutcome::Failed(error@),
    }
}

impl PendingView {
    /// The request after an event, that many nanoseconds after it was sent. The first
    /// acknowledgement counts.
    pub open spec fn after(self, event: ReplyView, elapsed: u128) -> Self {
        if self.acked_at is None && event == ReplyView::Arrived(
            MessageView::Ack { message_id: self.message_id },
        ) {
            PendingView { acked_at: Some(elapsed), ..self }
        } else {
            self
        }
    }

    /// How the request stands after an event.
    pub open spec fn outcome(self, event: ReplyView) -> ReplyOutcome {
        match event {
            ReplyView::Arrived(MessageView::Response { message_id, payload }) => if message_id
                == self.message_id {
                ReplyOutcome::Answered(payload)
            } else {
                ReplyOutcome::Waiting
            },
            ReplyView::Arrived(_) => ReplyOutcome::Waiting,
            ReplyView::Closed => ReplyOutcome::Failed(
                ErrorView::RequestTimeout("response channel closed"@),
            ),
            ReplyView::TimedOut => if self.acked_at is Some {
                ReplyOutcome::Failed(ErrorView::RequestTimeout("no response after acknowledgement"@))
            } else {
                ReplyOutcome::Failed(ErrorView::RequestTimeout("remote peer did not acknowledge"@))
            },
        }
    }

    /// When waiting is over, in nanoseconds after the request was sent: the time to be
    /// acknowledged counts from the sending, that for the response from the
    /// acknowledgement.
    pub open spec fn deadline(self) -> int {
        match self.acked_at {
            None => self.ack_timeout_ms * 1_000_000,
            Some(at) => at + self.response_timeout_ms * 1_000_000,
        }
    }

    /// How much longer to wait, in nanoseconds, that many after the request was sent. A
    /// time before the acknowledgement counts as the moment of it.
    pub open spec fn timeout_after(self, elapsed: int) -> int {
        if self.acked_at matches Some(at) && elapsed < at {
            self.response_timeout_ms * 1_000_000
        } else if elapsed < self.deadline() {
            self.deadline() - elapsed
        } else {
            0
        }
    }
}

/// What is left of a time in milliseconds, in nanoseconds, when some of it is spent.
fn time_left(timeout_ms: u64, spent_nanos: u128) -> (left: u128)
    ensures
        left == (if spent_nanos < timeout_ms * 1_000_000 {
            timeout_ms * 1_000_000 - spent_nanos
        } else {
            0
        }),
{
    let allowed: u128 = timeout_ms as u128 * NANOS_PER_MILLI;
    if spent_nanos < allowed {
        allowed - spent_nanos
    } else {
        0
    }
}

/// A request with that identifier and payload, and what follows its answers.
pub fn open_request(
    message_id: String,
    payload: serde_json::Value,
    ack_timeout_ms: u64,
    response_timeout_ms: u64,
) -> (opened: (SessionMessage, PendingRequest))
    ensures
        opened.0@ == (MessageView::Request {
            message_id: message_id@,
            payload: crate::json::content(payload),
        }),
        opened.1@ == (PendingView {
            message_id: message_id@,
            ack_timeout_ms,
            response_timeout_ms,
            acked_at: None,
        }),
{
    let pending = PendingRequest {
        message_id: message_id.clone(),
        ack_timeout_ms,
        response_timeout_ms,
        acked_at: None,
    };
    (SessionMessage::Request { message_id, payload }, pending)
}

impl PendingRequest {
    /// How long to wait for the next message, in nanoseconds, `elapsed_nanos` after the
    /// request was sent: what is left of the time to be acknowledged, or, from the
    /// acknowledgement on, of the time for a response.
    pub fn timeout_nanos(&self, elapsed_nanos: u128) -> (timeout: u128)
        ensures
            timeout == self@.timeout_after(elapsed_nanos as int),
    {
        match self.acked_at {
            None => time_left(self.ack_timeout_ms, elapsed_nanos),
            Some(at) => {
                let spent: u128 = if elapsed_nanos < at {
                    0
                } else {
                    elapsed_nanos - at
                };
                time_left(self.response_timeout_ms, spent)
            },
        }
    }

    /// Takes an event up, `elapsed_nanos` after the request was sent. The result is what
    /// the request comes to; nothing while it waits.
    pub fn on_event(&mut self, event: ReplyEvent, elapsed_nanos: u128) -> (answer: Option<
        Result<serde_json::Value, OpenLvError>,
    >)
        ensures
            final(self)@ == old(self)@.after(event@, elapsed_nanos),
            reply_outcome(answer) == old(self)@.outcome(event@),
    {
        match event {
            ReplyEvent::Arrived(SessionMessage::Ack { message_id }) => {
                if self.acked_at.is_none() && message_id == self.message_id {
                    self.acked_at = Some(elapsed_nanos);
                }
                None
            },
            ReplyEvent::Arrived(SessionMessage::Response { message_id, payload }) => {
                if message_id == self.message_id {
                    Some(Ok(payload))
                } else {
                    None
                }
            },
            ReplyEvent::Arrived(SessionMessage::Request { .. }) => None,
            ReplyEvent::Closed => Some(
                Err(OpenLvError::RequestTimeout("response channel closed".to_owned())),
            ),
            ReplyEvent::TimedOut => {
                if self.acked_at.is_some() {
                    Some(
                        Err(
                            OpenLvError::RequestTimeout(
                                "no response after acknowledgement".to_owned(),
                            ),
                        ),
                    )
                } else {
                    Some(
                        Err(
                            OpenLvError::RequestTimeout(
                                "remote peer did not acknowledge".to_owned(),
                            ),
                        ),
                    )
                }
            },
        }
    }
}

/// A request is opened under its identifier with its payload and its timeouts.
pub proof fn law_request_is_opened(
    message_id: String,
    payload: serde_json::Value,
    ack_timeout_ms: u64,
    response_timeout_ms: u64,
    opened: (SessionMessage, PendingRequest),
)
    requires
        call_ensures(
            open_request,
            (message_id, payload, ack_timeout_ms, response_timeout_ms),
            opened,
        ),
    ensures
        opened.0@ == (MessageView::Request {
            message_id: message_id@,
            payload: crate::json::content(payload),
        }),
        opened.1@.message_id == message_id@,
        opened.1@.ack_timeout_ms == ack_timeout_ms,
        opened.1@.response_timeout_ms == response_timeout_ms,
        opened.1@.acked_at is None,
{
}

/// A request is answered with the payload of the response that has its identifier, whatever
/// the payload is, and by no other message. Its first acknowledgement is noted with the
/// time that it came. It fails when nothing can be heard any longer, and when the time is
/// over: with what it was then waiting for.
pub proof fn law_request_is_answered_with_its_response(
    pending: &mut PendingRequest,
    event: ReplyEvent,
    elapsed: u128,
    answer: Option<Result<serde_json::Value, OpenLvError>>,
)
    requires
        call_ensures(PendingRequest::on_event, (pending, event, elapsed), answer),
    ensures
        final(pending)@.message_id == old(pending)@.message_id,
        final(pending)@.ack_timeout_ms == old(pending)@.ack_timeout_ms,
        final(pending)@.response_timeout_ms == old(pending)@.response_timeout_ms,
        final(pending)@.acked_at == (match event {
            ReplyEvent::Arrived(SessionMessage::Ack { message_id }) => if message_id@ == old(
                pending,
            )@.message_id && old(pending)@.acked_at is None {
                Some(elapsed)
            } else {
                old(pending)@.acked_at
            },
            _ => old(pending)@.acked_at,
        }),
        match event {
            ReplyEvent::Arrived(SessionMessage::Response { message_id, payload }) => if message_id@
                == old(pending)@.message_id {
                answer matches Some(Ok(held)) && crate::json::content(held)
                    == crate::json::content(payload)
            } else {
                answer is None
            },
            ReplyEvent::Arrived(_) => answer is None,
            ReplyEvent::Closed => answer matches Some(Err(OpenLvError::RequestTimeout(reason)))
                && reason@ == "response channel closed"@,
            ReplyEvent::TimedOut => answer matches Some(Err(OpenLvError::RequestTimeout(reason)))
                && reason@ == (if old(pending)@.acked_at is Some {
                "no response after acknowledgement"@
            } else {
                "remote peer did not acknowledge"@
            }),
        },
{
}

/// Until it is acknowledged a request waits for what is left of the time for that, counted
/// from its sending, and from then on for what is left of the time for a response, counted
/// from the acknowledgement.
pub proof fn law_waiting_time_is_what_is_left(
    pending: PendingRequest,
    elapsed: u128,
    timeout: u128,
)
    requires
        call_ensures(PendingRequest::timeout_nanos, (&pending, elapsed), timeout),
    ensures
        match pending@.acked_at {
            None => {
                let allowed = pending@.ack_timeout_ms * 1_000_000;
                &&& elapsed <= allowed ==> elapsed + timeout == allowed
                &&& elapsed >= allowed ==> timeout == 0
            },
            Some(at) => {
                let allowed = at + pending@.response_timeout_ms * 1_000_000;
                &&& at <= elapsed <= allowed ==> elapsed + timeout == allowed
                &&& elapsed >= allowed ==> timeout == 0
                &&& elapsed < at ==> timeout == pending@.response_timeout_ms * 1_000_000
            },
        },
{
}

/// What a request comes to, as it is seen: its answer or its error, and neither while it
/// waits.
pub proof fn law_outcome_is_the_answer(answer: Option<Result<serde_json::Value, OpenLvError>>)
    ensures
        match answer {
            None => reply_outcome(answer) is Waiting,
            Some(Ok(payload)) => reply_outcome(answer) == ReplyOutcome::Answered(
                crate::json::content(payload),
            ),
            Some(Err(error)) => reply_outcome(answer) == ReplyOutcome::Failed(error@),
        },
{
}

} // verus!
