//! Answering packets of requests: one request, or a batch in its order.

use vstd::prelude::*;

verus! {

/// What a packet holds: one request, or that many.
#[derive(Debug, Clone, Copy, PartialEq, Eq, Structural)]
pub enum PacketShape {
    Single,
    Batch(usize),
}

/// The responses to a packet.
#[derive(Debug)]
pub enum PacketReply<R> {
    Single(R),
    Batch(Vec<R>),
}

/// The responses to a packet, as mathematical values.
pub enum PacketReplyView<R> {
    Single(R),
    Batch(Seq<R>),
}

impl<R> View for PacketReply<R> {
    type V = PacketReplyView<R>;

    open spec fn view(&self) -> PacketReplyView<R> {
        match *self {
            PacketReply::Single(response) => PacketReplyView::Single(response),
            PacketReply::Batch(responses) => PacketReplyView::Batch(responses@),
        }
    }
}

/// A packet that is being answered: its requests are sent one after the other.
#[derive(Debug)]
pub struct PacketProgress<R> {
    shape: PacketShape,
    responses: Vec<R>,
}

/// A [`PacketProgress`] as a mathematical value.
pub struct ProgressView<R> {
    pub shape: PacketShape,
    pub responses: Seq<R>,
}

impl<R> View for PacketProgress<R> {
    type V = ProgressView<R>;

    closed spec fn view(&self) -> ProgressView<R> {
        ProgressView { shape: self.shape, responses: self.responses@ }
    }
}

/// What comes next for a packet.
#[derive(Debug)]
pub enum PacketStep<R, E> {
    /// Send the next request.
    Next(PacketProgress<R>),
    /// The packet is answered.
    Done(PacketReply<R>),
    /// The packet is given up; its other requests are not sent.
    Failed(E),
}

/// A [`PacketStep`] as a mathematical value.
pub enum PacketStepView<R, E> {
    Next(ProgressView<R>),
    Done(PacketReplyView<R>),
    Failed(E),
}

impl<R, E> View for PacketStep<R, E> {
    type V = PacketStepView<R, E>;

    open spec fn view(&self) -> PacketStepView<R, E> {
        match *self {
            PacketStep::Next(progress) => PacketStepView::Next(progress@),
            PacketStep::Done(reply) => PacketStepView::Done(reply@),
            PacketStep::Failed(error) => PacketStepView::Failed(error),
        }
    }
}

/// What comes first for a packet: an empty batch is answered at once.
pub open spec fn packet_begun<R, E>(shape: PacketShape) -> PacketStepView<R, E> {
    if shape == PacketShape::Batch(0) {
        PacketStepView::Done(PacketReplyView::Batch(Seq::empty()))
    } else {
        PacketStepView::Next(ProgressView { shape, responses: Seq::empty() })
    }
}

impl<R> ProgressView<R> {
    /// What comes next after a request was answered or came to nothing.
    pub open spec fn after<E>(self, outcome: Result<R, E>) -> PacketStepView<R, E> {
        match outcome {
            Err(error) => PacketStepView::Failed(error),
            Ok(response) => match self.shape {
                PacketShape::Single => PacketStepView::Done(PacketReplyView::Single(response)),
                PacketShape::Batch(count) => if self.responses.len() + 1 >= count {
                    PacketStepView::Done(PacketReplyView::Batch(self.responses.push(response)))
                } else {
                    PacketStepView::Next(
                        ProgressView { responses: self.responses.push(response), ..self },
                    )
                },
            },
        }
    }
}

/// Begins to answer a packet.
pub fn begin_packet<R, E>(shape: PacketShape) -> (step: PacketStep<R, E>)
    ensures
        step@ == packet_begun::<R, E>(shape),
{
    match shape {
        PacketShape::Batch(0) => PacketStep::Done(PacketReply::Batch(Vec::new())),
        _ => PacketStep::Next(PacketProgress { shape, responses: Vec::new() }),
    }
}

impl<R> PacketProgress<R> {
    /// Takes up what the request that was sent came to.
    pub fn record<E>(self, outcome: Result<R, E>) -> (step: PacketStep<R, E>)
        ensures
            step@ == self@.after(outcome),
    {
        let mut responses = self.responses;
        match outcome {
            Err(error) => PacketStep::Failed(error),
            Ok(response) => match self.shape {
                PacketShape::Single => PacketStep::Done(PacketReply::Single(response)),
                PacketShape::Batch(count) => {
                    responses.push(response);
                    if responses.len() >= count {
                        PacketStep::Done(PacketReply::Batch(responses))
                    } else {
                        PacketStep::Next(PacketProgress { shape: self.shape, responses })
                    }
                },
            },
        }
    }
}

/// A packet through the outcomes of its requests; it stops where it is decided.
pub open spec fn packet_run<R, E>(shape: PacketShape, outcomes: Seq<Result<R, E>>) -> PacketStepView<
    R,
    E,
>
    decreases outcomes.len(),
{
    if outcomes.len() == 0 {
        packet_begun(shape)
    } else {
        match packet_run(shape, outcomes.drop_last()) {
            PacketStepView::Next(progress) => progress.after(outcomes.last()),
            decided => decided,
        }
    }
}

/// The responses of requests that were all answered.
pub open spec fn answers<R, E>(outcomes: Seq<Result<R, E>>) -> Seq<R> {
    Seq::new(outcomes.len(), |i: int| outcomes[i]->Ok_0)
}

proof fn lemma_batch_collects<R, E>(count: usize, outcomes: Seq<Result<R, E>>)
    requires
        outcomes.len() <= count,
        forall|i: int| 0 <= i < outcomes.len() ==> (#[trigger] outcomes[i]) is Ok,
    ensures
        packet_run(PacketShape::Batch(count), outcomes) == if outcomes.len() == count {
            PacketStepView::<R, E>::Done(PacketReplyView::Batch(answers(outcomes)))
        } else {
            PacketStepView::<R, E>::Next(
                ProgressView { shape: PacketShape::Batch(count), responses: answers(outcomes) },
            )
        },
    decreases outcomes.len(),
{
    if outcomes.len() == 0 {
        assert(answers(outcomes) =~= Seq::empty());
    } else {
        let before = outcomes.drop_last();
        assert forall|i: int| 0 <= i < before.len() implies (#[trigger] before[i]) is Ok by {
            assert(before[i] == outcomes[i]);
        }
        lemma_batch_collects(count, before);
        assert(outcomes[outcomes.len() - 1] is Ok);
        assert(answers(outcomes) =~= answers(before).push(outcomes.last()->Ok_0));
    }
}

/// A batch whose requests are all answered is answered with their responses, in the
/// order of the requests.
pub proof fn law_batch_keeps_order<R, E>(count: usize, outcomes: Seq<Result<R, E>>)
    requires
        outcomes.len() == count,
        forall|i: int| 0 <= i < outcomes.len() ==> (#[trigger] outcomes[i]) is Ok,
    ensures
        packet_run(PacketShape::Batch(count), outcomes) == PacketStepView::<R, E>::Done(
            PacketReplyView::Batch(answers(outcomes)),
        ),
{
    lemma_batch_collects(count, outcomes);
}

/// The first request of a batch that comes to nothing ends the batch with its error.
pub proof fn law_batch_stops_at_first_error<R, E>(
    count: usize,
    outcomes: Seq<Result<R, E>>,
    error: E,
)
    requires
        outcomes.len() < count,
        forall|i: int| 0 <= i < outcomes.len() ==> (#[trigger] outcomes[i]) is Ok,
    ensures
        packet_run(PacketShape::Batch(count), outcomes.push(Err(error)))
            == PacketStepView::<R, E>::Failed(error),
{
    lemma_batch_collects(count, outcomes);
    assert(outcomes.push(Err(error)).drop_last() =~= outcomes);
}

/// A packet of one request is answered with its response alone, or given up with its
/// error.
pub proof fn law_single_is_answered_alone<R, E>(outcome: Result<R, E>)
    ensures
        packet_run(PacketShape::Single, seq![outcome]) == (match outcome {
            Ok(response) => PacketStepView::<R, E>::Done(PacketReplyView::Single(response)),
            Err(error) => PacketStepView::Failed(error),
        }),
{
    assert(seq![outcome].drop_last() =~= Seq::empty());
    assert(packet_run::<R, E>(PacketShape::Single, Seq::empty()) == packet_begun::<R, E>(
        PacketShape::Single,
    ));
}

/// A packet begins with its first request and no response, unless it is a batch of none,
/// which is answered with none.
pub proof fn law_packet_begins_empty<R, E>(shape: PacketShape, step: PacketStep<R, E>)
    requires
        call_ensures(begin_packet::<R, E>, (shape,), step),
    ensures
        shape == PacketShape::Batch(0) ==> (step matches PacketStep::Done(
            PacketReply::Batch(responses),
        ) && responses@.len() == 0),
        shape != PacketShape::Batch(0) ==> (step matches PacketStep::Next(progress)
            && progress@.shape == shape && progress@.responses.len() == 0),
{
}

/// Every response is kept behind those before it, and the packet is answered with the
/// last one that it asks for; an error ends it at once.
pub proof fn law_packet_keeps_every_response<R, E>(
    progress: PacketProgress<R>,
    outcome: Result<R, E>,
    step: PacketStep<R, E>,
)
    requires
        call_ensures(PacketProgress::<R>::record::<E>, (progress, outcome), step),
    ensures
        match (progress@.shape, outcome) {
            (_, Err(error)) => step matches PacketStep::Failed(e) && e == error,
            (PacketShape::Single, Ok(response)) => step matches PacketStep::Done(
                PacketReply::Single(r),
            ) && r == response,
            (PacketShape::Batch(count), Ok(response)) => {
                let kept = progress@.responses;
                &&& kept.len() + 1 < count ==> (step matches PacketStep::Next(next)
                    && next@.shape == progress@.shape && next@.responses.len() == kept.len() + 1
                    && next@.responses[kept.len() as int] == response && forall|i: int|
                    0 <= i < kept.len() ==> next@.responses[i] == kept[i])
                &&& kept.len() + 1 >= count ==> (step matches PacketStep::Done(
                    PacketReply::Batch(all),
                ) && all@.len() == kept.len() + 1 && all@[kept.len() as int] == response
                    && forall|i: int| 0 <= i < kept.len() ==> all@[i] == kept[i])
            },
        },
{
}

} // verus!
