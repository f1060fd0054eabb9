//! The state the server keeps for each goal, and the goal manager that holds
//! it.
//!
//! Goal and result payloads are the serialized messages, kept as bytes: the
//! bookkeeping never looks inside them.

use vstd::prelude::*;
use crate::id_map::IdMap;
use crate::ids::{GoalId, GoalStatus};

verus! {

/// Copies a byte payload.
pub fn copy_bytes(v: &Vec<u8>) -> (r: Vec<u8>)
    ensures
        r@ == v@,
{
    let mut r: Vec<u8> = Vec::with_capacity(v.len());
    let n = v.len();
    for i in 0..n
        invariant
            n == v@.len(),
            r@ == v@.take(i as int),
    {
        r.push(v[i]);
        assert(v@.take(i + 1) =~= v@.take(i as int).push(v@[i as int]));
    }
    assert(v@.take(n as int) =~= v@);
    r
}

/// The state of one goal on the server. Times are monotonic nanoseconds.
pub enum ServerGoalState {
    /// Accepted, not yet executing.
    Accepted { goal: Vec<u8>, timestamp: u64, expires_at: Option<u64> },
    /// Executing; `cancel_requested` is the stop signal its handler polls.
    Executing { goal: Vec<u8>, cancel_requested: bool, expires_at: Option<u64> },
    /// Canceling, waiting for its handler to finish.
    Canceling { goal: Vec<u8> },
    /// Finished, keeping its result until `expires_at`.
    Terminated { result: Vec<u8>, status: GoalStatus, timestamp: u64, expires_at: Option<u64> },
}

/// A goal state with its payloads as byte sequences.
pub ghost enum GoalStateView {
    Accepted { goal: Seq<u8>, timestamp: u64, expires_at: Option<u64> },
    Executing { goal: Seq<u8>, cancel_requested: bool, expires_at: Option<u64> },
    Canceling { goal: Seq<u8> },
    Terminated { result: Seq<u8>, status: GoalStatus, timestamp: u64, expires_at: Option<u64> },
}

impl View for ServerGoalState {
    type V = GoalStateView;

    open spec fn view(&self) -> GoalStateView {
        match self {
            ServerGoalState::Accepted { goal, timestamp, expires_at } => GoalStateView::Accepted {
                goal: goal@,
                timestamp: *timestamp,
                expires_at: *expires_at,
            },
            ServerGoalState::Executing { goal, cancel_requested, expires_at } =>
                GoalStateView::Executing {
                goal: goal@,
                cancel_requested: *cancel_requested,
                expires_at: *expires_at,
            },
            ServerGoalState::Canceling { goal } => GoalStateView::Canceling { goal: goal@ },
            ServerGoalState::Terminated { result, status, timestamp, expires_at } =>
                GoalStateView::Terminated {
                result: result@,
                status: *status,
                timestamp: *timestamp,
                expires_at: *expires_at,
            },
        }
    }
}

impl GoalStateView {
    /// Accepted and executing goals are active: a goal timeout aborts them.
    pub open spec fn is_active(self) -> bool {
        self is Accepted || self is Executing
    }

    /// The deadline of the state, if it has one. Canceling goals have none.
    pub open spec fn deadline(self) -> Option<u64> {
        match self {
            GoalStateView::Accepted { expires_at, .. } => expires_at,
            GoalStateView::Executing { expires_at, .. } => expires_at,
            GoalStateView::Canceling { .. } => None,
            GoalStateView::Terminated { expires_at, .. } => expires_at,
        }
    }

    /// Whether the state's deadline has passed at time `now`.
    pub open spec fn expired_at(self, now: u64) -> bool {
        match self.deadline() {
            Some(d) => now >= d,
            None => false,
        }
    }
}

/// Holds the state of every goal, the result requests waiting for each goal,
/// and the two timeouts. `W` is whatever the caller uses to answer a waiting
/// result request; the manager only keeps and hands back such values.
pub struct GoalManager<W> {
    pub goals: IdMap<ServerGoalState>,
    pub result_futures: IdMap<Vec<W>>,
    /// How long a finished goal keeps its result, in nanoseconds.
    pub result_timeout: u64,
    /// How long an accepted goal may run before it is aborted, if limited.
    pub goal_timeout: Option<u64>,
}

impl<W> GoalManager<W> {
    /// The goal states, with payloads as byte sequences.
    pub open spec fn goal_views(self) -> Map<GoalId, GoalStateView> {
        self.goals@.map_values(|s: ServerGoalState| s@)
    }

    /// The waiting result requests of each goal.
    pub open spec fn waiter_views(self) -> Map<GoalId, Seq<W>> {
        self.result_futures@.map_values(|v: Vec<W>| v@)
    }

    pub fn new(result_timeout: u64, goal_timeout: Option<u64>) -> (r: Self)
        ensures
            r.goal_views() == Map::<GoalId, GoalStateView>::empty(),
            r.waiter_views() == Map::<GoalId, Seq<W>>::empty(),
            r.goals.keys() == Seq::<GoalId>::empty(),
            r.result_timeout == result_timeout,
            r.goal_timeout == goal_timeout,
    {
        let r = GoalManager {
            goals: IdMap::new(),
            result_futures: IdMap::new(),
            result_timeout,
            goal_timeout,
        };
        assert(r.goal_views() =~= Map::<GoalId, GoalStateView>::empty());
        assert(r.waiter_views() =~= Map::<GoalId, Seq<W>>::empty());
        r
    }
}

/// The answer owed to the result requests that waited for a goal: each of
/// `waiters` gets `result` with `status`.
pub struct ResultDelivery<W> {
    pub goal_id: GoalId,
    pub waiters: Vec<W>,
    pub result: Vec<u8>,
    pub status: GoalStatus,
}

} // verus!
