//! Scaling the agent StatefulSet: which requests are accepted, which agents
//! leave or join the room, and what the caller is told.
use vstd::prelude::*;

verus! {

/// The fewest agents that may be requested.
pub const MIN_AGENT_REPLICAS: i32 = 1;

/// The most agents that may be requested.
pub const MAX_AGENT_REPLICAS: i32 = 5;

/// The replica count that a StatefulSet without one runs.
pub const DEFAULT_REPLICAS: i32 = 1;

/// Why a scaling request failed.
#[derive(PartialEq, Eq, Structural, Debug, Clone, Copy)]
pub enum ScaleError {
    /// The requested count lies outside the accepted range (HTTP 400).
    OutOfRange,
}

/// A requested replica count is accepted when it lies in the allowed range.
pub open spec fn replicas_accepted(requested: int) -> bool {
    MIN_AGENT_REPLICAS <= requested <= MAX_AGENT_REPLICAS
}

/// Checks a requested replica count.
pub fn check_replica_request(requested: i32) -> (r: Result<i32, ScaleError>)
    ensures
        r is Ok <==> 1 <= requested <= 5,
        r matches Ok(v) ==> v == requested,
        replicas_accepted(requested as int) ==> r == Ok::<i32, ScaleError>(requested),
        !replicas_accepted(requested as int) ==> r == Err::<i32, ScaleError>(ScaleError::OutOfRange),
{
    if requested < MIN_AGENT_REPLICAS || requested > MAX_AGENT_REPLICAS {
        Err(ScaleError::OutOfRange)
    } else {
        Ok(requested)
    }
}

/// The replica count of a StatefulSet whose spec may leave it out.
pub open spec fn effective_replicas(replicas: Option<i32>) -> int {
    match replicas {
        Some(r) => r as int,
        None => DEFAULT_REPLICAS as int,
    }
}

/// How room membership follows a change of the agent count: the agents with
/// indices in `from..to` are kicked or invited.
#[derive(PartialEq, Eq, Structural, Debug, Clone, Copy)]
pub enum MembershipChange {
    /// Kick the agents `agent_{from}` .. `agent_{to - 1}`.
    Kick { from: i32, to: i32 },
    /// Invite the agents `agent_{from}` .. `agent_{to - 1}`.
    Invite { from: i32, to: i32 },
    /// Nobody leaves or joins.
    Unchanged,
}

/// The membership change that moving from `current` to `requested` agents
/// calls for.
pub open spec fn membership_change_spec(requested: int, current: int) -> MembershipChange {
    if requested < current {
        MembershipChange::Kick { from: requested as i32, to: current as i32 }
    } else if requested > current {
        MembershipChange::Invite { from: current as i32, to: requested as i32 }
    } else {
        MembershipChange::Unchanged
    }
}

/// The membership change from the StatefulSet's current replica count to the
/// requested one.
pub fn membership_change(requested: i32, current: Option<i32>) -> (c: MembershipChange)
    ensures
        match c {
            MembershipChange::Kick { from, to } => from == requested && requested < to && match current {
                Some(k) => to == k,
                None => to == 1,
            },
            MembershipChange::Invite { from, to } => to == requested && from < requested && match current {
                Some(k) => from == k,
                None => from == 1,
            },
            MembershipChange::Unchanged => match current {
                Some(k) => k == requested,
                None => requested == 1,
            },
        },
        c == membership_change_spec(requested as int, effective_replicas(current)),
{
    let current_replicas = match current {
        Some(r) => r,
        None => DEFAULT_REPLICAS,
    };
    if requested < current_replicas {
        MembershipChange::Kick { from: requested, to: current_replicas }
    } else if requested > current_replicas {
        MembershipChange::Invite { from: current_replicas, to: requested }
    } else {
        MembershipChange::Unchanged
    }
}

/// The agent indices that a membership change touches.
pub open spec fn touched_agents(c: MembershipChange) -> Set<int> {
    match c {
        MembershipChange::Kick { from, to } => Set::new(|i: int| from <= i < to),
        MembershipChange::Invite { from, to } => Set::new(|i: int| from <= i < to),
        MembershipChange::Unchanged => Set::empty(),
    }
}

/// After scaling, exactly the agents below the new count belong in the room:
/// an agent whose membership is unchanged was on the same side of both counts,
/// a kicked agent lies between the new and the old count, an invited agent
/// between the old and the new one.
pub proof fn lemma_membership_follows_count(requested: int, current: int, i: int)
    requires
        i32::MIN <= requested <= i32::MAX,
        i32::MIN <= current <= i32::MAX,
    ensures
        !touched_agents(membership_change_spec(requested, current)).contains(i) ==> (i < current
            <==> i < requested),
        membership_change_spec(requested, current) is Kick && touched_agents(
            membership_change_spec(requested, current),
        ).contains(i) ==> requested <= i < current,
        membership_change_spec(requested, current) is Invite && touched_agents(
            membership_change_spec(requested, current),
        ).contains(i) ==> current <= i < requested,
{
}

/// The answer to a scaling request.
#[derive(PartialEq, Eq, Structural, Debug, Clone, Copy)]
pub struct AgentScaleStatus {
    /// The replica count in the StatefulSet returned by the patch.
    pub current_replicas: i32,
    /// The replica count that was requested.
    pub desired_replicas: i32,
}

/// The answer after the StatefulSet was patched to `requested` replicas and
/// came back with `patched` replicas.
pub fn scale_status(requested: i32, patched: Option<i32>) -> (s: AgentScaleStatus)
    ensures
        match patched {
            Some(k) => s.current_replicas == k,
            None => s.current_replicas == 1,
        },
        s.current_replicas == effective_replicas(patched),
        s.desired_replicas == requested,
{
    let current_replicas = match patched {
        Some(r) => r,
        None => DEFAULT_REPLICAS,
    };
    AgentScaleStatus { current_replicas, desired_replicas: requested }
}

} // verus!
