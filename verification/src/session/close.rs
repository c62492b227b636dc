//! Closing a session, step by step.

use vstd::prelude::*;

use crate::error::{ErrorView, OpenLvError};
use crate::session::state::{Session, SessionState, SessionStateObject, SessionView, StateView};
use crate::signaling::{SignalingSnapshot, SnapshotView};

verus! {

/// How far closing has come: what is being done.
#[derive(Debug, Clone, Copy, PartialEq, Eq, Structural)]
pub enum CloseStage {
    /// Nobody asked to close yet.
    Open,
    Stopping,
    TearingDownTransport,
    TearingDownSignaling,
    Publishing,
    Done,
}

/// What is to be done to close a session.
#[derive(Debug)]
pub enum CloseAction {
    /// Stop to follow the layers.
    StopFollowing,
    /// Tear the transport down, and report how that went.
    TearDownTransport,
    /// Tear the signaling layer down, and report how that went.
    TearDownSignaling,
    /// Tell the observers.
    Publish(SessionStateObject),
    /// Closing is over and came to this.
    Return(Result<(), OpenLvError>),
    Nothing,
}

/// A [`CloseAction`] as it is seen.
pub enum CloseActionView {
    StopFollowing,
    TearDownTransport,
    TearDownSignaling,
    Publish(StateView),
    Return(Result<(), ErrorView>),
    Nothing,
}

impl View for CloseAction {
    type V = CloseActionView;

    open spec fn view(&self) -> CloseActionView {
        match *self {
            CloseAction::StopFollowing => CloseActionView::StopFollowing,
            CloseAction::TearDownTransport => CloseActionView::TearDownTransport,
            CloseAction::TearDownSignaling => CloseActionView::TearDownSignaling,
            CloseAction::Publish(published) => CloseActionView::Publish(published@),
            CloseAction::Return(Ok(_)) => CloseActionView::Return(Ok(())),
            CloseAction::Return(Err(error)) => CloseActionView::Return(Err(error@)),
            CloseAction::Nothing => CloseActionView::Nothing,
        }
    }
}

/// What was done to close a session.
#[derive(Debug)]
pub enum CloseEvent {
    /// Somebody asks to close.
    Asked,
    /// The layers are not followed any longer, or the observers were told.
    Performed,
    /// The teardown came to this.
    TornDown(Result<(), OpenLvError>),
}

/// A [`CloseEvent`] as it is seen.
pub enum CloseEventView {
    Asked,
    Performed,
    TornDown(Result<(), ErrorView>),
}

impl View for CloseEvent {
    type V = CloseEventView;

    open spec fn view(&self) -> CloseEventView {
        match *self {
            CloseEvent::Asked => CloseEventView::Asked,
            CloseEvent::Performed => CloseEventView::Performed,
            CloseEvent::TornDown(Ok(_)) => CloseEventView::TornDown(Ok(())),
            CloseEvent::TornDown(Err(error)) => CloseEventView::TornDown(Err(error@)),
        }
    }
}

impl CloseStage {
    /// The stage after an event. A teardown that fails ends the closing.
    pub open spec fn after(self, event: CloseEventView) -> Self {
        match (self, event) {
            (CloseStage::Open, CloseEventView::Asked) => CloseStage::Stopping,
            (CloseStage::Stopping, CloseEventView::Performed) => CloseStage::TearingDownTransport,
            (CloseStage::TearingDownTransport, CloseEventView::TornDown(Ok(_))) => {
                CloseStage::TearingDownSignaling
            },
            (CloseStage::TearingDownSignaling, CloseEventView::TornDown(Ok(_))) => {
                CloseStage::Publishing
            },
            (CloseStage::TearingDownTransport, CloseEventView::TornDown(Err(_))) => {
                CloseStage::Done
            },
            (CloseStage::TearingDownSignaling, CloseEventView::TornDown(Err(_))) => {
                CloseStage::Done
            },
            (CloseStage::Publishing, CloseEventView::Performed) => CloseStage::Done,
            (stage, _) => stage,
        }
    }
}

impl SessionView {
    /// The session after an event of its closing: it is disconnected once both layers
    /// are torn down.
    pub open spec fn after_close(self, stage: CloseStage, event: CloseEventView) -> Self {
        if stage == CloseStage::TearingDownSignaling && (event matches CloseEventView::TornDown(
            Ok(_),
        )) {
            self.with_status(SessionState::Disconnected)
        } else {
            self
        }
    }

    /// What is to be done after an event of the session's closing.
    pub open spec fn close_action(
        self,
        stage: CloseStage,
        event: CloseEventView,
        signaling: SnapshotView,
    ) -> CloseActionView {
        match (stage, event) {
            (CloseStage::Open, CloseEventView::Asked) => CloseActionView::StopFollowing,
            (CloseStage::Stopping, CloseEventView::Performed) => CloseActionView::TearDownTransport,
            (CloseStage::TearingDownTransport, CloseEventView::TornDown(Ok(_))) => {
                CloseActionView::TearDownSignaling
            },
            (CloseStage::TearingDownSignaling, CloseEventView::TornDown(Ok(_))) => {
                CloseActionView::Publish(
                    self.with_status(SessionState::Disconnected).observed(signaling),
                )
            },
            (CloseStage::TearingDownTransport, CloseEventView::TornDown(Err(error))) => {
                CloseActionView::Return(Err(error))
            },
            (CloseStage::TearingDownSignaling, CloseEventView::TornDown(Err(error))) => {
                CloseActionView::Return(Err(error))
            },
            (CloseStage::Publishing, CloseEventView::Performed) => CloseActionView::Return(Ok(())),
            _ => CloseActionView::Nothing,
        }
    }
}

/// The closing of a session while it goes on.
#[derive(Debug)]
pub struct SessionClose {
    stage: CloseStage,
}

impl View for SessionClose {
    type V = CloseStage;

    closed spec fn view(&self) -> CloseStage {
        self.stage
    }
}

impl SessionClose {
    /// A closing that nobody asked for yet.
    pub fn new() -> (closing: Self)
        ensures
            closing@ == CloseStage::Open,
    {
        SessionClose { stage: CloseStage::Open }
    }
}

impl Session {
    /// Closes the session step by step. Takes notice of what was done, and says what is
    /// to be done next: the layers are not followed any longer, the transport is torn
    /// down, then the signaling layer, and only then is the session disconnected and the
    /// observers are told. A teardown that fails ends the closing and leaves the session
    /// as it is.
    pub fn close(
        &mut self,
        closing: &mut SessionClose,
        event: CloseEvent,
        signaling: &SignalingSnapshot,
    ) -> (action: CloseAction)
        ensures
            final(closing)@ == old(closing)@.after(event@),
            final(self)@ == old(self)@.after_close(old(closing)@, event@),
            action@ == old(self)@.close_action(old(closing)@, event@, signaling@),
    {
        match (closing.stage, event) {
            (CloseStage::Open, CloseEvent::Asked) => {
                closing.stage = CloseStage::Stopping;
                CloseAction::StopFollowing
            },
            (CloseStage::Stopping, CloseEvent::Performed) => {
                closing.stage = CloseStage::TearingDownTransport;
                CloseAction::TearDownTransport
            },
            (CloseStage::TearingDownTransport, CloseEvent::TornDown(Ok(_))) => {
                closing.stage = CloseStage::TearingDownSignaling;
                CloseAction::TearDownSignaling
            },
            (CloseStage::TearingDownSignaling, CloseEvent::TornDown(Ok(_))) => {
                closing.stage = CloseStage::Publishing;
                CloseAction::Publish(self.set_status(SessionState::Disconnected, signaling))
            },
            (CloseStage::TearingDownTransport, CloseEvent::TornDown(Err(error))) => {
                closing.stage = CloseStage::Done;
                CloseAction::Return(Err(error))
            },
            (CloseStage::TearingDownSignaling, CloseEvent::TornDown(Err(error))) => {
                closing.stage = CloseStage::Done;
                CloseAction::Return(Err(error))
            },
            (CloseStage::Publishing, CloseEvent::Performed) => {
                closing.stage = CloseStage::Done;
                CloseAction::Return(Ok(()))
            },
            _ => CloseAction::Nothing,
        }
    }
}

/// An event, and what the signaling layer reported by then.
pub struct ReportedClose {
    pub event: CloseEventView,
    pub signaling: SnapshotView,
}

/// How far closing has come, how the session is by then, and what was done so far.
pub struct CloseRun {
    pub stage: CloseStage,
    pub session: SessionView,
    pub actions: Seq<CloseActionView>,
}

/// The closing of a session through a sequence of events.
pub open spec fn close_run(session: SessionView, events: Seq<ReportedClose>) -> CloseRun
    decreases events.len(),
{
    if events.len() == 0 {
        CloseRun { stage: CloseStage::Open, session, actions: seq![] }
    } else {
        let before = close_run(session, events.drop_last());
        let last = events.last();
        let action = before.session.close_action(before.stage, last.event, last.signaling);
        CloseRun {
            stage: before.stage.after(last.event),
            session: before.session.after_close(before.stage, last.event),
            actions: if action is Nothing {
                before.actions
            } else {
                before.actions.push(action)
            },
        }
    }
}

/// Whether an action ends a closing with an error.
pub open spec fn is_failure(action: CloseActionView) -> bool {
    action matches CloseActionView::Return(Err(_))
}

/// What closing does, as far as it comes if nothing fails: the layers are not followed any
/// longer, the transport is torn down, then the signaling layer, the observers are told,
/// and closing has succeeded.
pub open spec fn closes_at(session: SessionView, action: CloseActionView, at: int) -> bool {
    if at == 0 {
        action is StopFollowing
    } else if at == 1 {
        action is TearDownTransport
    } else if at == 2 {
        action is TearDownSignaling
    } else if at == 3 {
        exists|signaling: SnapshotView|
            action == CloseActionView::Publish(
                #[trigger] session.with_status(SessionState::Disconnected).observed(signaling),
            )
    } else {
        at == 4 && action matches CloseActionView::Return(Ok(_))
    }
}

/// Whatever happens, closing goes in its order, each step at most once: the transport is
/// torn down before the signaling layer, and the session is disconnected and its
/// observers are told only after both. The session is left as it is before that. A
/// failure comes only of a teardown, and nothing is done after it.
pub proof fn law_session_closes_in_order(session: SessionView, events: Seq<ReportedClose>)
    ensures
        ({
            let run = close_run(session, events);
            let count = run.actions.len();
            &&& count <= 5
            &&& forall|i: int|
                0 <= i < count ==> closes_at(session, #[trigger] run.actions[i], i) || (is_failure(
                    run.actions[i],
                ) && i == count - 1 && 2 <= i <= 3)
            &&& run.session == if count > 3 && run.actions[3] is Publish {
                session.with_status(SessionState::Disconnected)
            } else {
                session
            }
            &&& match run.stage {
                CloseStage::Open => count == 0,
                CloseStage::Stopping => count == 1,
                CloseStage::TearingDownTransport => count == 2,
                CloseStage::TearingDownSignaling => count == 3 && !is_failure(run.actions[2]),
                CloseStage::Publishing => count == 4 && !is_failure(run.actions[3]),
                CloseStage::Done => count >= 3 && run.actions.last() is Return,
            }
        }),
    decreases events.len(),
{
    if events.len() > 0 {
        let before = events.drop_last();
        law_session_closes_in_order(session, before);
        let earlier = close_run(session, before);
        let run = close_run(session, events);
        assert forall|i: int| 0 <= i < run.actions.len() implies closes_at(
            session,
            #[trigger] run.actions[i],
            i,
        ) || (is_failure(run.actions[i]) && i == run.actions.len() - 1 && 2 <= i <= 3) by {
            if i < earlier.actions.len() {
                assert(run.actions[i] == earlier.actions[i]);
            }
        }
        if earlier.actions.len() > 3 {
            assert(run.actions[3] == earlier.actions[3]);
        }
    }
}

/// The events of a closing up to what the teardown of the transport came to.
pub open spec fn torn_down(signaling: SnapshotView, outcome: Result<(), ErrorView>) -> Seq<
    ReportedClose,
> {
    seq![
        ReportedClose { event: CloseEventView::Asked, signaling },
        ReportedClose { event: CloseEventView::Performed, signaling },
        ReportedClose { event: CloseEventView::TornDown(outcome), signaling },
    ]
}

/// A closing with both teardowns disconnects the session, tells the observers and
/// succeeds.
pub proof fn law_session_is_closed(session: SessionView, signaling: SnapshotView)
    ensures
        ({
            let both = torn_down(signaling, Ok(())).push(
                ReportedClose { event: CloseEventView::TornDown(Ok(())), signaling },
            );
            let run = close_run(
                session,
                both.push(ReportedClose { event: CloseEventView::Performed, signaling }),
            );
            let closed = session.with_status(SessionState::Disconnected);
            &&& run.stage == CloseStage::Done
            &&& run.session == closed
            &&& run.actions == seq![
                CloseActionView::StopFollowing,
                CloseActionView::TearDownTransport,
                CloseActionView::TearDownSignaling,
                CloseActionView::Publish(closed.observed(signaling)),
                CloseActionView::Return(Ok(())),
            ]
        }),
{
    lemma_run_to_teardown(session, signaling, Ok(()));
    let begun = torn_down(signaling, Ok(()));
    let both = begun.push(ReportedClose { event: CloseEventView::TornDown(Ok(())), signaling });
    let told = both.push(ReportedClose { event: CloseEventView::Performed, signaling });
    assert(both.drop_last() =~= begun);
    assert(told.drop_last() =~= both);
    assert(both.last().event == CloseEventView::TornDown(Ok(())));
    assert(close_run(session, both).stage == CloseStage::Publishing);
    assert(close_run(session, told).actions =~= seq![
        CloseActionView::StopFollowing,
        CloseActionView::TearDownTransport,
        CloseActionView::TearDownSignaling,
        CloseActionView::Publish(
            session.with_status(SessionState::Disconnected).observed(signaling),
        ),
        CloseActionView::Return(Ok(())),
    ]);
}

/// A teardown that fails ends the closing with its error, whatever happens later: the
/// signaling layer is not torn down after a transport that could not be, the session is
/// left as it is and nobody is told.
pub proof fn law_failed_teardown_ends_the_closing(
    session: SessionView,
    signaling: SnapshotView,
    transport_failed: bool,
    error: ErrorView,
    later: Seq<ReportedClose>,
)
    ensures
        ({
            let failed = if transport_failed {
                torn_down(signaling, Err(error))
            } else {
                torn_down(signaling, Ok(())).push(
                    ReportedClose { event: CloseEventView::TornDown(Err(error)), signaling },
                )
            };
            let run = close_run(session, failed + later);
            &&& run.stage == CloseStage::Done
            &&& run.session == session
            &&& run.actions == if transport_failed {
                seq![
                    CloseActionView::StopFollowing,
                    CloseActionView::TearDownTransport,
                    CloseActionView::Return(Err(error)),
                ]
            } else {
                seq![
                    CloseActionView::StopFollowing,
                    CloseActionView::TearDownTransport,
                    CloseActionView::TearDownSignaling,
                    CloseActionView::Return(Err(error)),
                ]
            }
        }),
    decreases later.len(),
{
    let begun = torn_down(signaling, Ok(()));
    let second = begun.push(
        ReportedClose { event: CloseEventView::TornDown(Err(error)), signaling },
    );
    let failed = if transport_failed {
        torn_down(signaling, Err(error))
    } else {
        second
    };
    if later.len() == 0 {
        assert(failed + later =~= failed);
        lemma_run_to_teardown(session, signaling, Err(error));
        lemma_run_to_teardown(session, signaling, Ok(()));
        assert(second.drop_last() =~= begun);
        assert(close_run(session, second).actions =~= seq![
            CloseActionView::StopFollowing,
            CloseActionView::TearDownTransport,
            CloseActionView::TearDownSignaling,
            CloseActionView::Return(Err(error)),
        ]);
    } else {
        assert((failed + later).drop_last() =~= failed + later.drop_last());
        law_failed_teardown_ends_the_closing(
            session,
            signaling,
            transport_failed,
            error,
            later.drop_last(),
        );
    }
}

proof fn lemma_run_to_teardown(
    session: SessionView,
    signaling: SnapshotView,
    outcome: Result<(), ErrorView>,
)
    ensures
        ({
            let run = close_run(session, torn_down(signaling, outcome));
            &&& run.session == session
            &&& run.stage == match outcome {
                Ok(_) => CloseStage::TearingDownSignaling,
                Err(_) => CloseStage::Done,
            }
            &&& run.actions == seq![
                CloseActionView::StopFollowing,
                CloseActionView::TearDownTransport,
                match outcome {
                    Ok(_) => CloseActionView::TearDownSignaling,
                    Err(error) => CloseActionView::Return(Err(error)),
                },
            ]
        }),
{
    let events = torn_down(signaling, outcome);
    reveal_with_fuel(close_run, 4);
    assert(events.drop_last() =~= seq![events[0], events[1]]);
    assert(events.drop_last().drop_last() =~= seq![events[0]]);
    assert(events.drop_last().drop_last().drop_last() =~= seq![]);
    assert(close_run(session, events).actions =~= seq![
        CloseActionView::StopFollowing,
        CloseActionView::TearDownTransport,
        match outcome {
            Ok(_) => CloseActionView::TearDownSignaling,
            Err(error) => CloseActionView::Return(Err(error)),
        },
    ]);
}

/// Closing goes on with what was done: each step follows the one before it, a teardown
/// that failed ends it with its error, and the session is disconnected, and its observers
/// are told, only once the signaling layer is torn down, which is only done after the
/// transport was. Anything else is passed over.
pub proof fn law_closing_goes_on_in_order(
    session: &mut Session,
    closing: &mut SessionClose,
    event: CloseEvent,
    signaling: &SignalingSnapshot,
    action: CloseAction,
)
    requires
        call_ensures(Session::close, (session, closing, event, signaling), action),
    ensures
        match (old(closing)@, event) {
            (CloseStage::Open, CloseEvent::Asked) => {
                action is StopFollowing && final(closing)@ == CloseStage::Stopping
            },
            (CloseStage::Stopping, CloseEvent::Performed) => {
                action is TearDownTransport && final(closing)@ == CloseStage::TearingDownTransport
            },
            (CloseStage::TearingDownTransport, CloseEvent::TornDown(Ok(_))) => {
                action is TearDownSignaling && final(closing)@ == CloseStage::TearingDownSignaling
            },
            (CloseStage::TearingDownSignaling, CloseEvent::TornDown(Ok(_))) => {
                &&& action matches CloseAction::Publish(seen) && crate::session::laws::shows(
                    seen,
                    final(session)@,
                    *signaling,
                )
                &&& final(closing)@ == CloseStage::Publishing
                &&& final(session)@.status == SessionState::Disconnected
                &&& final(session)@.error == old(session)@.error
                &&& crate::session::laws::same_session(final(session)@, old(session)@)
            },
            (CloseStage::TearingDownTransport, CloseEvent::TornDown(Err(error)))
            | (CloseStage::TearingDownSignaling, CloseEvent::TornDown(Err(error))) => {
                &&& action matches CloseAction::Return(Err(e)) && e@ == error@
                &&& final(closing)@ == CloseStage::Done
            },
            (CloseStage::Publishing, CloseEvent::Performed) => {
                &&& action matches CloseAction::Return(Ok(_))
                &&& final(closing)@ == CloseStage::Done
            },
            _ => action is Nothing && final(closing)@ == old(closing)@,
        },
        final(session)@ == old(session)@ || (old(closing)@ == CloseStage::TearingDownSignaling
            && event matches CloseEvent::TornDown(Ok(_))),
{
}

/// A closing starts with nothing done.
pub proof fn law_closing_starts_open(closing: SessionClose)
    requires
        call_ensures(SessionClose::new, (), closing),
    ensures
        closing@ == CloseStage::Open,
{
}

} // verus!
