//! Starting a session, step by step.

use vstd::prelude::*;

use crate::error::OpenLvError;
use crate::session::state::SessionStateObject;

verus! {

/// How far the start of a session has come: what is being done.
#[derive(Debug, Clone, Copy, PartialEq, Eq, Structural)]
pub enum StartStage {
    Publishing,
    Following,
    SettingUp,
    Done,
}

/// What is to be done to start a session.
#[derive(Debug)]
pub enum StartAction {
    /// Tell the observers.
    Publish(SessionStateObject),
    /// Start to follow the signaling layer and the events of the transport.
    FollowLayers,
    /// Set the signaling layer up, and report how that went.
    SetUpSignaling,
    /// The start is over and came to this.
    Return(Result<(), OpenLvError>),
    Nothing,
}

/// What was done to start a session.
#[derive(Debug)]
pub enum StartEvent {
    /// The observers were told, or the layers are followed.
    Performed,
    /// Setting the signaling layer up came to this.
    SetUp(Result<(), OpenLvError>),
}

impl StartStage {
    /// The stage after an event.
    pub open spec fn after(self, event: StartEvent) -> Self {
        match (self, event) {
            (StartStage::Publishing, StartEvent::Performed) => StartStage::Following,
            (StartStage::Following, StartEvent::Performed) => StartStage::SettingUp,
            (StartStage::SettingUp, StartEvent::SetUp(_)) => StartStage::Done,
            (stage, _) => stage,
        }
    }

    /// What is to be done after an event.
    pub open spec fn action(self, event: StartEvent) -> StartAction {
        match (self, event) {
            (StartStage::Publishing, StartEvent::Performed) => StartAction::FollowLayers,
            (StartStage::Following, StartEvent::Performed) => StartAction::SetUpSignaling,
            (StartStage::SettingUp, StartEvent::SetUp(outcome)) => StartAction::Return(outcome),
            _ => StartAction::Nothing,
        }
    }
}

/// The start of a session while it goes on.
#[derive(Debug)]
pub struct SessionStart {
    stage: StartStage,
}

impl View for SessionStart {
    type V = StartStage;

    closed spec fn view(&self) -> StartStage {
        self.stage
    }
}

impl SessionStart {
    /// A start whose first action is to tell the observers.
    pub(crate) fn begin() -> (start: Self)
        ensures
            start@ == StartStage::Publishing,
    {
        SessionStart { stage: StartStage::Publishing }
    }

    /// Takes notice of what was done, and says what is to be done next: after the
    /// observers were told the layers are followed, then the signaling layer is set up,
    /// and what that came to is what the start comes to.
    pub fn on_event(&mut self, event: StartEvent) -> (action: StartAction)
        ensures
            final(self)@ == old(self)@.after(event),
            action == old(self)@.action(event),
    {
        match (self.stage, event) {
            (StartStage::Publishing, StartEvent::Performed) => {
                self.stage = StartStage::Following;
                StartAction::FollowLayers
            },
            (StartStage::Following, StartEvent::Performed) => {
                self.stage = StartStage::SettingUp;
                StartAction::SetUpSignaling
            },
            (StartStage::SettingUp, StartEvent::SetUp(outcome)) => {
                self.stage = StartStage::Done;
                StartAction::Return(outcome)
            },
            _ => StartAction::Nothing,
        }
    }
}

/// How far a start has come, and what was done for it after the observers were told.
pub struct StartRun {
    pub stage: StartStage,
    pub actions: Seq<StartAction>,
}

/// A start through a sequence of events.
pub open spec fn start_run(events: Seq<StartEvent>) -> StartRun
    decreases events.len(),
{
    if events.len() == 0 {
        StartRun { stage: StartStage::Publishing, actions: seq![] }
    } else {
        let before = start_run(events.drop_last());
        let action = before.stage.action(events.last());
        StartRun {
            stage: before.stage.after(events.last()),
            actions: if action is Nothing {
                before.actions
            } else {
                before.actions.push(action)
            },
        }
    }
}

/// Whatever happens, after the observers were told the layers are followed first, then
/// the signaling layer is set up, each at most once; and what the start comes to is what
/// setting the signaling layer up came to.
pub proof fn law_session_starts_in_order(events: Seq<StartEvent>)
    ensures
        ({
            let run = start_run(events);
            &&& run.actions.len() == match run.stage {
                StartStage::Publishing => 0nat,
                StartStage::Following => 1nat,
                StartStage::SettingUp => 2nat,
                StartStage::Done => 3nat,
            }
            &&& run.actions.len() > 0 ==> run.actions[0] == StartAction::FollowLayers
            &&& run.actions.len() > 1 ==> run.actions[1] == StartAction::SetUpSignaling
            &&& run.actions.len() > 2 ==> exists|outcome: Result<(), OpenLvError>|
                #[trigger] events.contains(StartEvent::SetUp(outcome)) && run.actions[2]
                    == StartAction::Return(outcome)
        }),
    decreases events.len(),
{
    if events.len() > 0 {
        let before = events.drop_last();
        law_session_starts_in_order(before);
        let earlier = start_run(before);
        if earlier.actions.len() > 2 {
            let outcome = choose|outcome: Result<(), OpenLvError>| #[trigger]
                before.contains(StartEvent::SetUp(outcome)) && earlier.actions[2]
                    == StartAction::Return(outcome);
            let k = choose|k: int| 0 <= k < before.len() && before[k] == StartEvent::SetUp(outcome);
            assert(events[k] == StartEvent::SetUp(outcome));
            assert(events.contains(StartEvent::SetUp(outcome)));
        } else if start_run(events).actions.len() > 2 {
            let outcome = events.last()->SetUp_0;
            assert(events[events.len() - 1] == StartEvent::SetUp(outcome));
            assert(events.contains(StartEvent::SetUp(outcome)));
        }
    }
}

/// A start that is carried out follows the layers, sets the signaling layer up and comes
/// to what that came to; nothing is done afterwards.
pub proof fn law_session_start_comes_to_its_setup(outcome: Result<(), OpenLvError>, later: StartEvent)
    ensures
        ({
            let events = seq![StartEvent::Performed, StartEvent::Performed, StartEvent::SetUp(outcome)];
            let run = start_run(events);
            &&& run.stage == StartStage::Done
            &&& run.actions == seq![
                StartAction::FollowLayers,
                StartAction::SetUpSignaling,
                StartAction::Return(outcome),
            ]
            &&& run.stage.action(later) is Nothing
            &&& run.stage.after(later) == run.stage
        }),
{
    let events = seq![StartEvent::Performed, StartEvent::Performed, StartEvent::SetUp(outcome)];
    reveal_with_fuel(start_run, 4);
    assert(events.drop_last() =~= seq![StartEvent::Performed, StartEvent::Performed]);
    assert(events.drop_last().drop_last() =~= seq![StartEvent::Performed]);
    assert(events.drop_last().drop_last().drop_last() =~= seq![]);
    assert(start_run(events).actions =~= seq![
        StartAction::FollowLayers,
        StartAction::SetUpSignaling,
        StartAction::Return(outcome),
    ]);
}

/// Starting goes on with what was done: layers are followed once the observers were told,
/// the signaling layer is set up once they are followed, and what that came to is what
/// the start comes to, whatever it is. Anything else is passed over.
pub proof fn law_start_goes_on_in_order(
    start: &mut SessionStart,
    event: StartEvent,
    action: StartAction,
)
    requires
        call_ensures(SessionStart::on_event, (start, event), action),
    ensures
        match (old(start)@, event) {
            (StartStage::Publishing, StartEvent::Performed) => {
                &&& action is FollowLayers
                &&& final(start)@ == StartStage::Following
            },
            (StartStage::Following, StartEvent::Performed) => {
                &&& action is SetUpSignaling
                &&& final(start)@ == StartStage::SettingUp
            },
            (StartStage::SettingUp, StartEvent::SetUp(outcome)) => {
                &&& action matches StartAction::Return(result) && result == outcome
                &&& final(start)@ == StartStage::Done
            },
            _ => action is Nothing && final(start)@ == old(start)@,
        },
{
}

} // verus!
