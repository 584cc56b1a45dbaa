//! The controller's start-up decisions: the namespace it scales agents in,
//! how it gets into the agent room, how it provisions the agents, and how
//! often it re-reads the room's members.
use vstd::prelude::*;
use crate::provisioning::SETUP_AGENT_COUNT;

verus! {

/// Seconds between two readings of the agent room's members.
pub const MEMBER_SYNC_INTERVAL_SECS: u64 = 5;

/// The namespace used where none is configured.
pub open spec fn default_namespace() -> Seq<char> {
    "npc-dev"@
}

/// The namespace of the agent StatefulSet: the configured one, else
/// `npc-dev`.
pub fn namespace_or_default(configured: Option<String>) -> (ns: String)
    ensures
        configured is None ==> ns@ == "npc-dev"@,
        match configured {
            Some(c) => ns@ == c@,
            None => ns@ == default_namespace(),
        },
{
    match configured {
        Some(c) => c,
        None => "npc-dev".to_owned(),
    }
}

/// Where getting into the agent room stands.
#[derive(PartialEq, Eq, Structural, Debug, Clone, Copy)]
pub enum RoomStep {
    /// Joining the room by its alias.
    Joining,
    /// Joining failed; the room is being created.
    Creating,
    /// In the room.
    Ready,
    /// The room could neither be joined nor created.
    Failed,
}

/// What the homeserver answered.
#[derive(PartialEq, Eq, Structural, Debug, Clone, Copy)]
pub enum RoomEvent {
    Joined,
    JoinFailed,
    Created,
    CreateFailed,
}

/// What to do next.
#[derive(PartialEq, Eq, Structural, Debug, Clone, Copy)]
pub enum RoomAction {
    /// Join the room by its alias.
    Join,
    /// Create the room under the agent room's name and alias.
    Create,
    /// Go on with the room.
    Done,
    /// Give up with an error.
    Abort,
}

/// The events that can follow a step.
pub open spec fn room_expects(step: RoomStep, event: RoomEvent) -> bool {
    match step {
        RoomStep::Joining => event == RoomEvent::Joined || event == RoomEvent::JoinFailed,
        RoomStep::Creating => event == RoomEvent::Created || event == RoomEvent::CreateFailed,
        _ => false,
    }
}

/// The transition table: join, and create the room only when joining fails.
pub open spec fn room_next(step: RoomStep, event: RoomEvent) -> (RoomStep, RoomAction) {
    match (step, event) {
        (RoomStep::Joining, RoomEvent::Joined) => (RoomStep::Ready, RoomAction::Done),
        (RoomStep::Joining, RoomEvent::JoinFailed) => (RoomStep::Creating, RoomAction::Create),
        (RoomStep::Creating, RoomEvent::Created) => (RoomStep::Ready, RoomAction::Done),
        _ => (RoomStep::Failed, RoomAction::Abort),
    }
}

/// Getting into the room begins with joining it.
pub fn room_start() -> (r: (RoomStep, RoomAction))
    ensures
        r == (RoomStep::Joining, RoomAction::Join),
{
    (RoomStep::Joining, RoomAction::Join)
}

/// Whether `event` can follow `step`.
pub fn room_expected(step: RoomStep, event: RoomEvent) -> (r: bool)
    ensures
        r == room_expects(step, event),
{
    match step {
        RoomStep::Joining => match event {
            RoomEvent::Joined | RoomEvent::JoinFailed => true,
            _ => false,
        },
        RoomStep::Creating => match event {
            RoomEvent::Created | RoomEvent::CreateFailed => true,
            _ => false,
        },
        _ => false,
    }
}

/// The next step and action after `event` in `step`.
pub fn room_step(step: RoomStep, event: RoomEvent) -> (r: (RoomStep, RoomAction))
    requires
        room_expects(step, event),
    ensures
        step == RoomStep::Joining && event == RoomEvent::Joined ==> r == (RoomStep::Ready, RoomAction::Done),
        step == RoomStep::Joining && event == RoomEvent::JoinFailed ==> r == (RoomStep::Creating, RoomAction::Create),
        step == RoomStep::Creating && event == RoomEvent::Created ==> r == (RoomStep::Ready, RoomAction::Done),
        step == RoomStep::Creating && event == RoomEvent::CreateFailed ==> r == (RoomStep::Failed, RoomAction::Abort),
        r == room_next(step, event),
{
    match (step, event) {
        (RoomStep::Joining, RoomEvent::Joined) => (RoomStep::Ready, RoomAction::Done),
        (RoomStep::Joining, RoomEvent::JoinFailed) => (RoomStep::Creating, RoomAction::Create),
        (RoomStep::Creating, RoomEvent::Created) => (RoomStep::Ready, RoomAction::Done),
        _ => (RoomStep::Failed, RoomAction::Abort),
    }
}

/// The room is created only after joining it failed.
pub proof fn lemma_create_only_after_failed_join(step: RoomStep, event: RoomEvent)
    requires
        room_expects(step, event),
        room_next(step, event).1 == RoomAction::Create,
    ensures
        step == RoomStep::Joining,
        event == RoomEvent::JoinFailed,
{
}

/// The next provisioning action for the start-up agents.
#[derive(PartialEq, Eq, Structural, Debug, Clone, Copy)]
pub enum AgentSetupAction {
    /// Register the account of the agent with this index (never as admin).
    Register(u32),
    /// Invite the agent with this index to the room.
    Invite(u32),
    /// All start-up agents were handled.
    Finish,
}

/// The action that follows `done`, whether or not `done` succeeded.
pub open spec fn agent_setup_next_spec(done: AgentSetupAction) -> AgentSetupAction {
    match done {
        AgentSetupAction::Register(i) => AgentSetupAction::Invite(i),
        AgentSetupAction::Invite(i) => if i + 1 < SETUP_AGENT_COUNT {
            AgentSetupAction::Register((i + 1) as u32)
        } else {
            AgentSetupAction::Finish
        },
        AgentSetupAction::Finish => AgentSetupAction::Finish,
    }
}

/// Provisioning begins by registering agent `0`.
pub fn agent_setup_start() -> (a: AgentSetupAction)
    ensures
        a == AgentSetupAction::Register(0),
{
    AgentSetupAction::Register(0)
}

/// The action after `done`: each agent is registered, then invited, then
/// the next agent follows. A failed registration or invitation is reported
/// and the provisioning goes on.
pub fn agent_setup_next(done: AgentSetupAction, succeeded: bool) -> (a: AgentSetupAction)
    requires
        done matches AgentSetupAction::Register(i) ==> i < SETUP_AGENT_COUNT,
        done matches AgentSetupAction::Invite(i) ==> i < SETUP_AGENT_COUNT,
    ensures
        match done {
            AgentSetupAction::Register(i) => a == AgentSetupAction::Invite(i),
            AgentSetupAction::Invite(i) => if i + 1 < SETUP_AGENT_COUNT {
                a == AgentSetupAction::Register((i + 1) as u32)
            } else {
                a == AgentSetupAction::Finish
            },
            AgentSetupAction::Finish => a == AgentSetupAction::Finish,
        },
        a == agent_setup_next_spec(done),
{
    match done {
        AgentSetupAction::Register(i) => AgentSetupAction::Invite(i),
        AgentSetupAction::Invite(i) => if i + 1 < SETUP_AGENT_COUNT {
            AgentSetupAction::Register(i + 1)
        } else {
            AgentSetupAction::Finish
        },
        AgentSetupAction::Finish => AgentSetupAction::Finish,
    }
}

/// Whatever an attempt that the room set-up asks for answers, the answer is
/// accepted: joining accepts both outcomes of a join, and the step reached
/// when the set-up asks to create the room accepts both outcomes of that.
pub proof fn lemma_room_outcomes_accepted(step: RoomStep, event: RoomEvent)
    ensures
        room_expects(RoomStep::Joining, RoomEvent::Joined),
        room_expects(RoomStep::Joining, RoomEvent::JoinFailed),
        room_expects(step, event) && room_next(step, event).1 == RoomAction::Create ==> {
            &&& room_expects(room_next(step, event).0, RoomEvent::Created)
            &&& room_expects(room_next(step, event).0, RoomEvent::CreateFailed)
        },
{
}

} // verus!
