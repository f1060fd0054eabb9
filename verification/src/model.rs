//! The mathematical model of an action server's goal tables, and what each
//! protocol step does to it.

use vstd::prelude::*;
use crate::ids::{GoalId, GoalInfo, GoalStatus, Time};
use crate::messages::{
    CancelGoalServiceRequest, CANCEL_ERROR_NONE, CANCEL_ERROR_UNKNOWN_GOAL_ID,
    CANCEL_ERROR_GOAL_TERMINATED,
};
use crate::state::GoalStateView;

verus! {

/// The server's tables as mathematical values.
pub ghost struct ServerModel<W> {
    pub goals: Map<GoalId, GoalStateView>,
    pub waiters: Map<GoalId, Seq<W>>,
    pub infos: Map<GoalId, GoalInfo>,
    pub instances: Map<GoalId, u64>,
    pub cancel_pending: Set<GoalId>,
    pub result_timeout: u64,
    pub goal_timeout: Option<u64>,
    pub default_result: Option<Seq<u8>>,
    pub next_instance: u64,
    pub driver_started: bool,
}

/// The state an executing goal takes when its handler is asked to stop.
pub open spec fn with_cancel_requested(s: GoalStateView) -> GoalStateView {
    match s {
        GoalStateView::Executing { goal, expires_at, .. } => GoalStateView::Executing {
            goal,
            cancel_requested: true,
            expires_at,
        },
        _ => s,
    }
}

/// The terminal state a goal is given when the server aborts it at `now`.
pub open spec fn aborted_state(result: Seq<u8>, now: u64, result_timeout: u64) -> GoalStateView {
    GoalStateView::Terminated {
        result,
        status: GoalStatus::Aborted,
        timestamp: now,
        expires_at: Some((now + result_timeout) as u64),
    }
}

impl<W> ServerModel<W> {
    /// Whether `instance` is the acceptance that currently owns goal `id`.
    pub open spec fn is_current(self, id: GoalId, instance: Option<u64>) -> bool {
        match instance {
            Some(i) => self.instances.contains_key(id) && self.instances[id] == i,
            None => false,
        }
    }

    /// The waiting result requests of a goal, none if it has no entry.
    pub open spec fn waiters_of(self, id: GoalId) -> Seq<W> {
        if self.waiters.contains_key(id) {
            self.waiters[id]
        } else {
            Seq::empty()
        }
    }

    /// The status a status message reports for goal `id`.
    pub open spec fn status_of(self, id: GoalId) -> GoalStatus {
        match self.goals[id] {
            GoalStateView::Accepted { .. } => if self.cancel_pending.contains(id) {
                GoalStatus::Canceling
            } else {
                GoalStatus::Accepted
            },
            GoalStateView::Executing { cancel_requested, .. } => if cancel_requested {
                GoalStatus::Canceling
            } else {
                GoalStatus::Executing
            },
            GoalStateView::Canceling { .. } => GoalStatus::Canceling,
            GoalStateView::Terminated { status, .. } => status,
        }
    }

    /// The metadata a status message reports for goal `id`; a goal without
    /// recorded metadata is reported with the stamp `now`.
    pub open spec fn info_of(self, id: GoalId, now: Time) -> GoalInfo {
        if self.infos.contains_key(id) {
            self.infos[id]
        } else {
            GoalInfo { goal_id: id, stamp: now }
        }
    }

    /// A goal the server can abort: present and not yet terminated.
    pub open spec fn abortable(self, id: GoalId) -> bool {
        self.goals.contains_key(id) && !(self.goals[id] is Terminated)
    }

    /// Whether aborting goal `id` gives it a result deadline: only a goal that
    /// can be aborted, of an action with a default result.
    pub open spec fn abort_sets_deadline(self, id: GoalId) -> bool {
        self.abortable(id) && self.default_result is Some
    }

    /// Whether expiring at `now` gives some goal a result deadline: some
    /// active goal times out, and the action has a default result.
    pub open spec fn expiry_sets_deadline(self, now: u64) -> bool {
        self.default_result is Some && exists|id: GoalId| #[trigger] self.expires(id, now)
            && self.goals[id].is_active()
    }

    /// The tables after the server aborts goal `id` at `now`: the goal loses a
    /// pending cancel request and its waiting result requests; with a default
    /// result it is terminated as aborted, keeping that result for the result
    /// timeout; without one, every trace of it is removed.
    pub open spec fn after_abort(self, id: GoalId, now: u64) -> ServerModel<W> {
        match self.default_result {
            Some(d) => ServerModel {
                goals: self.goals.insert(id, aborted_state(d, now, self.result_timeout)),
                waiters: self.waiters.remove(id),
                cancel_pending: self.cancel_pending.remove(id),
                ..self
            },
            None => ServerModel {
                goals: self.goals.remove(id),
                waiters: self.waiters.remove(id),
                infos: self.infos.remove(id),
                instances: self.instances.remove(id),
                cancel_pending: self.cancel_pending.remove(id),
                ..self
            },
        }
    }

    /// The tables after a terminated goal's retention ends: every trace of it
    /// is removed.
    pub open spec fn after_forget(self, id: GoalId) -> ServerModel<W> {
        ServerModel {
            goals: self.goals.remove(id),
            waiters: self.waiters.remove(id),
            infos: self.infos.remove(id),
            instances: self.instances.remove(id),
            cancel_pending: self.cancel_pending.remove(id),
            ..self
        }
    }
}

/// The deadline of something that starts at `now` and may last `timeout`.
pub open spec fn deadline_after(now: u64, timeout: Option<u64>) -> Option<u64> {
    match timeout {
        Some(t) => Some((now + t) as u64),
        None => None,
    }
}

/// Whether cancel request `request` names goal `id` with metadata `info`.
pub open spec fn request_selects(request: CancelGoalServiceRequest, id: GoalId, info: GoalInfo) -> bool {
    let by_id = request.goal_info.goal_id.spec_is_valid();
    let by_time = !request.goal_info.stamp.spec_is_zero();
    ||| (!by_id && !by_time)
    ||| (by_id && id == request.goal_info.goal_id)
    ||| (by_time && info.stamp.spec_le(request.goal_info.stamp))
}

impl<W> ServerModel<W> {
    /// The tables after goal `info.goal_id` is accepted at `now` with payload
    /// `goal`: it gets its metadata, a fresh acceptance number, and a deadline
    /// if the server has a goal timeout.
    pub open spec fn after_accept(self, info: GoalInfo, goal: Seq<u8>, now: u64) -> ServerModel<W> {
        ServerModel {
            goals: self.goals.insert(
                info.goal_id,
                GoalStateView::Accepted {
                    goal,
                    timestamp: now,
                    expires_at: deadline_after(now, self.goal_timeout),
                },
            ),
            infos: self.infos.insert(info.goal_id, info),
            instances: self.instances.insert(info.goal_id, self.next_instance),
            next_instance: (self.next_instance + 1) as u64,
            ..self
        }
    }

    /// Whether the handle of acceptance `instance` may start executing `id`.
    pub open spec fn can_execute(self, id: GoalId, instance: Option<u64>) -> bool {
        self.is_current(id, instance) && self.goals.contains_key(id) && self.goals[id] is Accepted
    }

    /// The tables after goal `id` starts executing with payload `goal`: it
    /// keeps its deadline, and a pending cancel request becomes its stop
    /// signal.
    pub open spec fn after_execute(self, id: GoalId, goal: Seq<u8>) -> ServerModel<W> {
        ServerModel {
            goals: self.goals.insert(
                id,
                GoalStateView::Executing {
                    goal,
                    cancel_requested: self.cancel_pending.contains(id),
                    expires_at: self.goals[id].deadline(),
                },
            ),
            cancel_pending: self.cancel_pending.remove(id),
            ..self
        }
    }

    /// Whether the handle of acceptance `instance` may finish goal `id`: it
    /// still owns the goal, and the goal has not finished.
    pub open spec fn can_terminate(self, id: GoalId, instance: Option<u64>) -> bool {
        self.is_current(id, instance) && self.goals.contains_key(id) && !(self.goals[id] is Terminated)
    }

    /// The tables after goal `id` finishes at `now` with `result` and
    /// `status`: it keeps its result for the result timeout, and its waiting
    /// result requests are answered.
    pub open spec fn after_terminate(self, id: GoalId, result: Seq<u8>, status: GoalStatus, now: u64) -> ServerModel<W> {
        ServerModel {
            goals: self.goals.insert(
                id,
                GoalStateView::Terminated {
                    result,
                    status,
                    timestamp: now,
                    expires_at: Some((now + self.result_timeout) as u64),
                },
            ),
            waiters: self.waiters.remove(id),
            ..self
        }
    }

    /// Whether acceptance `instance` owns goal `id` and the goal is executing.
    pub open spec fn is_executing(self, id: GoalId, instance: Option<u64>) -> bool {
        self.is_current(id, instance) && self.goals.contains_key(id) && self.goals[id] is Executing
    }

    /// Whether the handler of acceptance `instance` should stop: its goal was
    /// asked to stop, or the handle no longer owns an executing goal (the
    /// goal was aborted, expired, or its UUID accepted anew).
    pub open spec fn stop_requested(self, id: GoalId, instance: Option<u64>) -> bool {
        if self.is_executing(id, instance) {
            match self.goals[id] {
                GoalStateView::Executing { cancel_requested, .. } => cancel_requested,
                _ => true,
            }
        } else {
            true
        }
    }

    /// Whether cancel request `request` cancels goal `id`: the goal has
    /// metadata, the request selects it, and it has not finished.
    pub open spec fn cancels(self, request: CancelGoalServiceRequest, id: GoalId) -> bool {
        &&& self.goals.contains_key(id)
        &&& self.infos.contains_key(id)
        &&& request_selects(request, id, self.infos[id])
        &&& !(self.goals[id] is Terminated)
    }

    /// The tables after cancel request `request`: executing goals it cancels
    /// get their stop signal, accepted goals it cancels get a pending cancel
    /// request that their execution will see.
    pub open spec fn after_cancel(self, request: CancelGoalServiceRequest) -> ServerModel<W> {
        ServerModel {
            goals: Map::new(
                |id: GoalId| self.goals.contains_key(id),
                |id: GoalId|
                    if self.cancels(request, id) {
                        with_cancel_requested(self.goals[id])
                    } else {
                        self.goals[id]
                    },
            ),
            cancel_pending: self.cancel_pending.union(
                Set::new(|id: GoalId| self.cancels(request, id) && self.goals[id] is Accepted),
            ),
            ..self
        }
    }

    /// The return code of a cancel request: no error when it cancels some
    /// goal or names no particular goal; otherwise, goal terminated when the
    /// goal it names exists, unknown goal id when it does not.
    pub open spec fn cancel_return_code(self, request: CancelGoalServiceRequest, canceled_any: bool) -> i8 {
        if canceled_any || !request.goal_info.goal_id.spec_is_valid() {
            CANCEL_ERROR_NONE
        } else if self.goals.contains_key(request.goal_info.goal_id) {
            CANCEL_ERROR_GOAL_TERMINATED
        } else {
            CANCEL_ERROR_UNKNOWN_GOAL_ID
        }
    }

    /// Whether goal `id` exists and its deadline has passed at `now`.
    pub open spec fn expires(self, id: GoalId, now: u64) -> bool {
        self.goals.contains_key(id) && self.goals[id].expired_at(now)
    }

    /// Whether expiring goal `id` removes every trace of it: a terminated goal
    /// whose retention ended, or an active goal of an action without a
    /// default result.
    pub open spec fn expiry_drops(self, id: GoalId, now: u64) -> bool {
        self.expires(id, now) && (!self.goals[id].is_active() || self.default_result is None)
    }

    /// The tables after expiring the goals in `done`, all of which expire at
    /// `now`.
    pub open spec fn expire_some(self, now: u64, done: Set<GoalId>) -> ServerModel<W> {
        ServerModel {
            goals: Map::new(
                |id: GoalId| self.goals.contains_key(id) && !(done.contains(id) && self.expiry_drops(id, now)),
                |id: GoalId|
                    if done.contains(id) {
                        aborted_state(self.default_result.unwrap(), now, self.result_timeout)
                    } else {
                        self.goals[id]
                    },
            ),
            waiters: Map::new(
                |id: GoalId| self.waiters.contains_key(id) && !done.contains(id),
                |id: GoalId| self.waiters[id],
            ),
            infos: Map::new(
                |id: GoalId| self.infos.contains_key(id) && !(done.contains(id) && self.expiry_drops(id, now)),
                |id: GoalId| self.infos[id],
            ),
            instances: Map::new(
                |id: GoalId|
                    self.instances.contains_key(id) && !(done.contains(id) && self.expiry_drops(id, now)),
                |id: GoalId| self.instances[id],
            ),
            cancel_pending: self.cancel_pending.filter(|id: GoalId| !done.contains(id)),
            ..self
        }
    }

    /// The tables after expiring every goal whose deadline has passed at
    /// `now`: expired active goals are aborted, expired terminated goals are
    /// forgotten, and no expired goal keeps a pending cancel request or
    /// waiting result requests. Goals without a deadline, and canceling goals,
    /// never expire.
    pub open spec fn after_expiry(self, now: u64) -> ServerModel<W> {
        self.expire_some(now, Set::new(|id: GoalId| self.expires(id, now)))
    }
}

pub(crate) proof fn lemma_expire_abort_step<W>(m: ServerModel<W>, now: u64, done: Set<GoalId>, id: GoalId)
    requires
        m.expires(id, now),
        m.goals[id].is_active(),
        !done.contains(id),
    ensures
        m.expire_some(now, done).abortable(id),
        m.expire_some(now, done).after_abort(id, now) == m.expire_some(now, done.insert(id)),
{
    let a = m.expire_some(now, done).after_abort(id, now);
    let b = m.expire_some(now, done.insert(id));
    assert(a.goals =~= b.goals);
    assert(a.waiters =~= b.waiters);
    assert(a.infos =~= b.infos);
    assert(a.instances =~= b.instances);
    assert(a.cancel_pending =~= b.cancel_pending);
}

pub(crate) proof fn lemma_expire_forget_step<W>(m: ServerModel<W>, now: u64, done: Set<GoalId>, id: GoalId)
    requires
        m.expires(id, now),
        !m.goals[id].is_active(),
        !done.contains(id),
    ensures
        m.expire_some(now, done).after_forget(id) == m.expire_some(now, done.insert(id)),
{
    let a = m.expire_some(now, done).after_forget(id);
    let b = m.expire_some(now, done.insert(id));
    assert(a.goals =~= b.goals);
    assert(a.waiters =~= b.waiters);
    assert(a.infos =~= b.infos);
    assert(a.instances =~= b.instances);
    assert(a.cancel_pending =~= b.cancel_pending);
}

} // verus!
