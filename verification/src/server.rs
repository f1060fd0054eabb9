//! The goal bookkeeping of an action server.
//!
//! `ZActionServer` holds, for each goal, its state, its metadata, the identity
//! of the acceptance that created it, whether a cancel request is pending for
//! it, and the result requests waiting for it. Every protocol step is a method
//! that takes the current monotonic time (nanoseconds) where the step needs
//! it, and hands back what the caller must send: status entries, results owed
//! to waiting requests, cancel responses.

use vstd::prelude::*;
use crate::id_map::{lemma_filter_keeps_all, lemma_filter_twice, other_than, IdMap};
use crate::ids::{GoalId, GoalInfo, GoalStatus, GoalStatusInfo, Time};
use crate::state::{copy_bytes, GoalManager, GoalStateView, ResultDelivery, ServerGoalState};
use crate::messages::{
    CancelGoalServiceRequest, CancelGoalServiceResponse, GetResultResponse, CANCEL_ERROR_NONE,
    CANCEL_ERROR_UNKNOWN_GOAL_ID, CANCEL_ERROR_GOAL_TERMINATED,
};
use crate::model::{
    aborted_state, lemma_expire_abort_step, lemma_expire_forget_step, with_cancel_requested, ServerModel,
};

verus! {

proof fn lemma_filter_no_duplicates<A>(s: Seq<A>, p: spec_fn(A) -> bool)
    requires
        s.no_duplicates(),
    ensures
        s.filter(p).no_duplicates(),
        forall|x: A| #[trigger] s.filter(p).contains(x) <==> s.contains(x) && p(x),
    decreases s.len(),
{
    reveal(Seq::filter);
    if s.len() > 0 {
        let prefix = s.drop_last();
        let last = s.last();
        assert(prefix.no_duplicates());
        lemma_filter_no_duplicates(prefix, p);
        let fp = prefix.filter(p);
        let f = s.filter(p);
        assert(f == if p(last) {
            fp.push(last)
        } else {
            fp
        });
        assert(!prefix.contains(last)) by {
            if prefix.contains(last) {
                let i = choose|i: int| 0 <= i < prefix.len() && prefix[i] == last;
                assert(s[i] == s[s.len() - 1]);
            }
        }
        assert forall|x: A| #[trigger] f.contains(x) <==> s.contains(x) && p(x) by {
            if s.contains(x) && p(x) && x != last {
                let i = choose|i: int| 0 <= i < s.len() && s[i] == x;
                assert(i < s.len() - 1);
                assert(prefix[i] == x);
                assert(fp.contains(x));
                if p(last) {
                    let k = choose|k: int| 0 <= k < fp.len() && fp[k] == x;
                    assert(f[k] == x);
                }
            }
            if s.contains(x) && p(x) && x == last {
                assert(f[f.len() - 1] == x);
            }
            if f.contains(x) {
                let k = choose|k: int| 0 <= k < f.len() && f[k] == x;
                if k < fp.len() {
                    assert(fp[k] == x);
                    assert(fp.contains(x));
                    let i = choose|i: int| 0 <= i < prefix.len() && prefix[i] == x;
                    assert(s[i] == x);
                } else {
                    assert(x == last);
                    assert(s[s.len() - 1] == x);
                }
            }
        }
        if p(last) {
            assert(!fp.contains(last));
            assert forall|i: int, j: int| 0 <= i < f.len() && 0 <= j < f.len() && i != j implies f[i]
                != f[j] by {
                if i < fp.len() && j < fp.len() {
                    assert(f[i] == fp[i] && f[j] == fp[j]);
                } else if i < fp.len() {
                    assert(f[i] == fp[i]);
                    assert(fp.contains(fp[i]));
                } else if j < fp.len() {
                    assert(f[j] == fp[j]);
                    assert(fp.contains(fp[j]));
                }
            }
        }
    } else {
        assert(s.filter(p) =~= s);
    }
}

/// Whether goal `x` is still walked after expiring the goals in `done` at
/// `now`: only the goals that expiry removes entirely leave the order.
spec fn kept_after<W>(m: ServerModel<W>, now: u64, done: Set<GoalId>) -> spec_fn(GoalId) -> bool {
    |x: GoalId| !(done.contains(x) && m.expiry_drops(x, now))
}

/// The goal bookkeeping of an action server. `W` answers one waiting result
/// request.
pub struct ZActionServer<W> {
    goal_manager: GoalManager<W>,
    goal_info: IdMap<GoalInfo>,
    // The acceptance that owns each goal: a reused UUID gets a new number, so
    // handles of an earlier acceptance cannot touch the new goal.
    goal_instances: IdMap<u64>,
    cancel_pending: IdMap<()>,
    next_instance: u64,
    default_result: Option<Vec<u8>>,
    driver_started: bool,
}

/// What a delivery hands to waiting result requests, as values.
pub open spec fn delivery_view<W>(d: ResultDelivery<W>) -> (GoalId, Seq<W>, Seq<u8>, GoalStatus) {
    (d.goal_id, d.waiters@, d.result@, d.status)
}

impl<W> ZActionServer<W> {
    pub closed spec fn spec_goal_manager(self) -> GoalManager<W> {
        self.goal_manager
    }

    pub closed spec fn model(self) -> ServerModel<W> {
        ServerModel {
            goals: self.goal_manager.goal_views(),
            waiters: self.goal_manager.waiter_views(),
            infos: self.goal_info@,
            instances: self.goal_instances@,
            cancel_pending: self.cancel_pending@.dom(),
            result_timeout: self.goal_manager.result_timeout,
            goal_timeout: self.goal_manager.goal_timeout,
            default_result: match self.default_result {
                Some(v) => Some(v@),
                None => None,
            },
            next_instance: self.next_instance,
            driver_started: self.driver_started,
        }
    }

    /// The goal ids in the order the server walks them.
    pub open spec fn goal_order(self) -> Seq<GoalId> {
        self.spec_goal_manager().goals.keys()
    }

    /// Creates the bookkeeping of a new server with no goals.
    /// `default_result` is the result the action reports for goals that end
    /// without one (aborted by timeout, or unknown), if it has such a result.
    pub fn new(result_timeout: u64, goal_timeout: Option<u64>, default_result: Option<Vec<u8>>) -> (r:
        Self)
        ensures
            r.model() == (ServerModel::<W> {
                goals: Map::empty(),
                waiters: Map::empty(),
                infos: Map::empty(),
                instances: Map::empty(),
                cancel_pending: Set::empty(),
                result_timeout,
                goal_timeout,
                default_result: match default_result {
                    Some(v) => Some(v@),
                    None => None,
                },
                next_instance: 0,
                driver_started: false,
            }),
            r.goal_order() == Seq::<GoalId>::empty(),
    {
        let r = ZActionServer {
            goal_manager: GoalManager::new(result_timeout, goal_timeout),
            goal_info: IdMap::new(),
            goal_instances: IdMap::new(),
            cancel_pending: IdMap::new(),
            next_instance: 0,
            default_result,
            driver_started: false,
        };
        assert(r.cancel_pending@.dom() =~= Set::<GoalId>::empty());
        r
    }

    /// Direct access to the goal manager, for advanced use and tests.
    pub fn goal_manager(&self) -> (r: &GoalManager<W>)
        ensures
            *r == self.spec_goal_manager(),
            r.goal_views() == self.model().goals,
            r.waiter_views() == self.model().waiters,
            r.result_timeout == self.model().result_timeout,
            r.goal_timeout == self.model().goal_timeout,
    {
        &self.goal_manager
    }

    /// Mutable access to the goal manager, for advanced use and tests: it
    /// bypasses the goal handles. The other tables are left as they are.
    pub fn goal_manager_mut(&mut self) -> (r: &mut GoalManager<W>)
        ensures
            *r == old(self).spec_goal_manager(),
            r.goal_views() == old(self).model().goals,
            r.waiter_views() == old(self).model().waiters,
            r.result_timeout == old(self).model().result_timeout,
            r.goal_timeout == old(self).model().goal_timeout,
            r.goals.keys() == old(self).goal_order(),
            final(self).spec_goal_manager() == *final(r),
            final(self).goal_order() == final(r).goals.keys(),
            final(self).model() == (ServerModel {
                goals: final(r).goal_views(),
                waiters: final(r).waiter_views(),
                result_timeout: final(r).result_timeout,
                goal_timeout: final(r).goal_timeout,
                ..old(self).model()
            }),
    {
        &mut self.goal_manager
    }

    /// Sets how long finished goals keep their results.
    pub fn set_result_timeout(&mut self, timeout: u64)
        ensures
            final(self).model() == (ServerModel { result_timeout: timeout, ..old(self).model() }),
            final(self).goal_order() == old(self).goal_order(),
    {
        self.goal_manager.result_timeout = timeout;
    }

    /// How long finished goals keep their results.
    pub fn result_timeout(&self) -> (r: u64)
        ensures
            r == self.model().result_timeout,
    {
        self.goal_manager.result_timeout
    }

    /// Whether an automatic goal handler has been installed.
    pub fn driver_started(&self) -> (r: bool)
        ensures
            r == self.model().driver_started,
    {
        self.driver_started
    }

    /// Records that the automatic goal handler is installed; a server takes
    /// only one.
    pub fn start_driver(&mut self)
        requires
            !old(self).model().driver_started,
        ensures
            final(self).model() == (ServerModel { driver_started: true, ..old(self).model() }),
            final(self).goal_order() == old(self).goal_order(),
    {
        self.driver_started = true;
    }

    /// How many goals have been accepted so far.
    pub fn accepted_count(&self) -> (r: u64)
        ensures
            r == self.model().next_instance,
    {
        self.next_instance
    }

    /// Whether `instance` is the acceptance that currently owns goal `id`.
    pub fn is_current_instance(&self, id: GoalId, instance: Option<u64>) -> (r: bool)
        ensures
            r == self.model().is_current(id, instance),
    {
        match instance {
            Some(i) => match self.goal_instances.get(&id) {
                Some(current) => *current == i,
                None => false,
            },
            None => false,
        }
    }

    /// Sets the stop signal of goal `goal_id` if it is executing. Returns
    /// whether it was executing.
    pub fn request_cancel(&mut self, goal_id: GoalId) -> (r: bool)
        ensures
            r == (old(self).model().goals.contains_key(goal_id) && old(self).model().goals[goal_id] is Executing),
            r ==> final(self).model() == (ServerModel {
                goals: old(self).model().goals.insert(
                    goal_id,
                    with_cancel_requested(old(self).model().goals[goal_id]),
                ),
                ..old(self).model()
            }),
            !r ==> final(self).model() == old(self).model(),
            final(self).goal_order() == old(self).goal_order(),
    {
        let new_state = match self.goal_manager.goals.get(&goal_id) {
            Some(ServerGoalState::Executing { goal, expires_at, .. }) => Some(
                ServerGoalState::Executing {
                    goal: copy_bytes(goal),
                    cancel_requested: true,
                    expires_at: *expires_at,
                },
            ),
            _ => None,
        };
        match new_state {
            Some(s) => {
                self.goal_manager.goals.insert(goal_id, s);
                assert(self.model().goals =~= old(self).model().goals.insert(
                    goal_id,
                    with_cancel_requested(old(self).model().goals[goal_id]),
                ));
                true
            },
            None => false,
        }
    }

    /// The status entry of every goal, in the server's order. Goals without
    /// recorded metadata are reported with the stamp `now`.
    pub fn status_list(&self, now: Time) -> (r: Vec<GoalStatusInfo>)
        ensures
            r@.len() == self.goal_order().len(),
            forall|i: int|
                0 <= i < r@.len() ==> #[trigger] r@[i] == (GoalStatusInfo {
                    goal_info: self.model().info_of(self.goal_order()[i], now),
                    status: self.model().status_of(self.goal_order()[i]),
                }),
    {
        let n = self.goal_manager.goals.len();
        let mut r: Vec<GoalStatusInfo> = Vec::new();
        for i in 0..n
            invariant
                n == self.goal_order().len(),
                self.goal_manager.goals.consistent(),
                r@.len() == i,
                forall|j: int|
                    0 <= j < i ==> #[trigger] r@[j] == (GoalStatusInfo {
                        goal_info: self.model().info_of(self.goal_order()[j], now),
                        status: self.model().status_of(self.goal_order()[j]),
                    }),
        {
            let id = self.goal_manager.goals.key_at(i);
            let state = self.goal_manager.goals.value_at(i);
            let status = match state {
                ServerGoalState::Accepted { .. } => if self.cancel_pending.contains_key(&id) {
                    GoalStatus::Canceling
                } else {
                    GoalStatus::Accepted
                },
                ServerGoalState::Executing { cancel_requested, .. } => if *cancel_requested {
                    GoalStatus::Canceling
                } else {
                    GoalStatus::Executing
                },
                ServerGoalState::Canceling { .. } => GoalStatus::Canceling,
                ServerGoalState::Terminated { status, .. } => *status,
            };
            let goal_info = match self.goal_info.get(&id) {
                Some(info) => *info,
                None => GoalInfo::new(id, now),
            };
            r.push(GoalStatusInfo { goal_info, status });
        }
        r
    }

    // Aborts goal `id` (the goal manager's terminal transition for timeouts
    // and for handlers that end without a result). Terminated and unknown
    // goals are left alone.
    fn abort_locked(&mut self, id: GoalId, now: u64) -> (r: Option<ResultDelivery<W>>)
        requires
            old(self).model().abort_sets_deadline(id) ==> now + old(self).model().result_timeout
                <= u64::MAX,
        ensures
            !old(self).model().abortable(id) ==> final(self).model() == old(self).model() && r is None
                && final(self).goal_order() == old(self).goal_order(),
            old(self).model().abortable(id) ==> final(self).model() == old(self).model().after_abort(
                id,
                now,
            ),
            old(self).model().abortable(id) && old(self).model().default_result is Some ==> {
                &&& final(self).goal_order() == old(self).goal_order()
                &&& r matches Some(d) && delivery_view(d) == (
                    id,
                    old(self).model().waiters_of(id),
                    old(self).model().default_result.unwrap(),
                    GoalStatus::Aborted,
                )
            },
            old(self).model().abortable(id) && old(self).model().default_result is None
                ==> final(self).goal_order() == old(self).goal_order().filter(other_than(id)),
            old(self).model().default_result is None ==> r is None,
    {
        let abortable = match self.goal_manager.goals.get(&id) {
            None => false,
            Some(ServerGoalState::Terminated { .. }) => false,
            Some(_) => true,
        };
        if !abortable {
            return None;
        }
        self.cancel_pending.remove(&id);
        match &self.default_result {
            None => {
                self.goal_manager.goals.remove(&id);
                self.goal_manager.result_futures.remove(&id);
                self.goal_info.remove(&id);
                self.goal_instances.remove(&id);
                assert(self.model().goals =~= old(self).model().goals.remove(id));
                assert(self.model().waiters =~= old(self).model().waiters.remove(id));
                None
            },
            Some(d) => {
                let result = copy_bytes(d);
                let stored = copy_bytes(d);
                let expires = now + self.goal_manager.result_timeout;
                self.goal_manager.goals.insert(
                    id,
                    ServerGoalState::Terminated {
                        result: stored,
                        status: GoalStatus::Aborted,
                        timestamp: now,
                        expires_at: Some(expires),
                    },
                );
                let waiters = match self.goal_manager.result_futures.remove(&id) {
                    Some(w) => w,
                    None => Vec::new(),
                };
                assert(self.model().goals =~= old(self).model().goals.insert(
                    id,
                    aborted_state(old(self).model().default_result.unwrap(), now, old(self).model().result_timeout),
                ));
                assert(self.model().waiters =~= old(self).model().waiters.remove(id));
                assert(waiters@ =~= old(self).model().waiters_of(id));
                Some(ResultDelivery { goal_id: id, waiters, result, status: GoalStatus::Aborted })
            },
        }
    }

    /// Retires a goal whose handler ended without finishing it (it returned,
    /// panicked, or was cancelled), provided `instance` still owns the goal.
    /// Returns the result owed to the goal's waiting result requests, if any.
    pub fn abort_unfinished(&mut self, id: GoalId, instance: u64, now: u64) -> (r: Option<
        ResultDelivery<W>,
    >)
        requires
            old(self).model().is_current(id, Some(instance)) && old(self).model().abort_sets_deadline(id)
                ==> now + old(self).model().result_timeout <= u64::MAX,
        ensures
            old(self).model().is_current(id, Some(instance)) && old(self).model().abortable(id)
                ==> final(self).model() == old(self).model().after_abort(id, now),
            !(old(self).model().is_current(id, Some(instance)) && old(self).model().abortable(id))
                ==> final(self).model() == old(self).model() && r is None,
            r matches Some(d) ==> delivery_view(d) == (
                id,
                old(self).model().waiters_of(id),
                old(self).model().default_result.unwrap(),
                GoalStatus::Aborted,
            ),
            r is Some <==> old(self).model().is_current(id, Some(instance)) && old(self).model().abortable(id)
                && old(self).model().default_result is Some,
            final(self).goal_order() == (if old(self).model().is_current(id, Some(instance))
                && old(self).model().abortable(id) && old(self).model().default_result is None {
                old(self).goal_order().filter(other_than(id))
            } else {
                old(self).goal_order()
            }),
    {
        if !self.is_current_instance(id, Some(instance)) {
            return None;
        }
        self.abort_locked(id, now)
    }

    /// Whether expiring at `now` would give some goal a result deadline (an
    /// active goal times out and the action has a default result): only then
    /// must `now` plus the result timeout fit in the clock's range.
    pub fn expiry_sets_deadline(&self, now: u64) -> (r: bool)
        ensures
            r == self.model().expiry_sets_deadline(now),
    {
        if self.default_result.is_none() {
            return false;
        }
        let ghost m = self.model();
        let ghost order = self.goal_order();
        let n = self.goal_manager.goals.len();
        for i in 0..n
            invariant
                n == order.len(),
                order == self.goal_order(),
                m == self.model(),
                m.default_result is Some,
                self.goal_manager.goals.consistent(),
                forall|j: int| 0 <= j < i ==> !(m.expires(order[j], now) && m.goals[order[j]].is_active()),
        {
            let id = self.goal_manager.goals.key_at(i);
            let state = self.goal_manager.goals.value_at(i);
            assert(state@ == m.goals[id]);
            let hit = match state {
                ServerGoalState::Accepted { expires_at, .. } => match expires_at {
                    Some(d) => now >= *d,
                    None => false,
                },
                ServerGoalState::Executing { expires_at, .. } => match expires_at {
                    Some(d) => now >= *d,
                    None => false,
                },
                _ => false,
            };
            if hit {
                assert(m.expires(id, now) && m.goals[id].is_active());
                return true;
            }
        }
        assert forall|id: GoalId| !(#[trigger] m.expires(id, now) && m.goals[id].is_active()) by {
            if m.expires(id, now) {
                assert(order.contains(id));
                let j = choose|j: int| 0 <= j < order.len() && order[j] == id;
            }
        }
        false
    }

    /// Whether retiring goal `id` for acceptance `instance` would give it a
    /// result deadline: the acceptance owns an unfinished goal and the action
    /// has a default result.
    pub fn abort_sets_deadline(&self, id: GoalId, instance: u64) -> (r: bool)
        ensures
            r == (self.model().is_current(id, Some(instance)) && self.model().abort_sets_deadline(id)),
    {
        if !self.is_current_instance(id, Some(instance)) || self.default_result.is_none() {
            return false;
        }
        match self.goal_manager.goals.get(&id) {
            None => false,
            Some(ServerGoalState::Terminated { .. }) => false,
            Some(_) => true,
        }
    }

    /// Whether the handle of acceptance `instance` may finish goal `id`.
    pub fn can_terminate(&self, id: GoalId, instance: Option<u64>) -> (r: bool)
        ensures
            r == self.model().can_terminate(id, instance),
    {
        if !self.is_current_instance(id, instance) {
            return false;
        }
        match self.goal_manager.goals.get(&id) {
            None => false,
            Some(ServerGoalState::Terminated { .. }) => false,
            Some(_) => true,
        }
    }

    /// The goals whose deadline has passed at `now`, in the server's order.
    pub open spec fn expired_ids(self, now: u64) -> Seq<GoalId> {
        self.goal_order().filter(|id: GoalId| self.model().goals[id].expired_at(now))
    }

    /// Expires the goals whose deadline has passed at `now`.
    ///
    /// Timed-out accepted and executing goals are aborted: with a default
    /// result they keep it, as aborted, for the result timeout; without one
    /// they are removed. Terminated goals are removed once their results
    /// expire. Goals without a deadline are never expired.
    ///
    /// Returns the expired goal ids, and the results owed to the result
    /// requests that waited for the aborted goals.
    pub fn expire_goals(&mut self, now: u64) -> (r: (Vec<GoalId>, Vec<ResultDelivery<W>>))
        requires
            old(self).model().expiry_sets_deadline(now) ==> now + old(self).model().result_timeout
                <= u64::MAX,
        ensures
            r.0@ == old(self).expired_ids(now),
            r.0@.no_duplicates(),
            final(self).model() == old(self).model().after_expiry(now),
            final(self).goal_order() == old(self).goal_order().filter(
                |id: GoalId| !old(self).model().expiry_drops(id, now),
            ),
            r.1@.map_values(|d: ResultDelivery<W>| d.goal_id) == (if old(self).model().default_result is Some {
                r.0@.filter(|id: GoalId| old(self).model().goals[id].is_active())
            } else {
                Seq::<GoalId>::empty()
            }),
            forall|k: int|
                0 <= k < r.1@.len() ==> #[trigger] delivery_view(r.1@[k]) == (
                    r.1@[k].goal_id,
                    old(self).model().waiters_of(r.1@[k].goal_id),
                    old(self).model().default_result.unwrap(),
                    GoalStatus::Aborted,
                ),
    {
        let ghost m0 = self.model();
        let ghost order = self.goal_order();
        let ghost expiring = |id: GoalId| m0.goals[id].expired_at(now);
        let ghost active = |id: GoalId| m0.goals[id].is_active();
        let n = self.goal_manager.goals.len();
        let mut expired: Vec<GoalId> = Vec::new();
        for i in 0..n
            invariant
                n == order.len(),
                order == self.goal_order(),
                m0 == self.model(),
                self.goal_manager.goals.consistent(),
                forall|x: GoalId| #[trigger] expiring(x) == m0.goals[x].expired_at(now),
                expired@ == order.take(i as int).filter(expiring),
        {
            reveal(Seq::filter);
            let id = self.goal_manager.goals.key_at(i);
            let state = self.goal_manager.goals.value_at(i);
            let deadline = match state {
                ServerGoalState::Accepted { expires_at, .. } => *expires_at,
                ServerGoalState::Executing { expires_at, .. } => *expires_at,
                ServerGoalState::Canceling { .. } => None,
                ServerGoalState::Terminated { expires_at, .. } => *expires_at,
            };
            let is_expired = match deadline {
                Some(d) => now >= d,
                None => false,
            };
            assert(order.take(i + 1).drop_last() =~= order.take(i as int));
            assert(order.take(i + 1).last() == id);
            assert(state@ == m0.goals[id]);
            assert(deadline == m0.goals[id].deadline());
            assert(m0.goals[id].expired_at(now) == is_expired);
            assert(expiring(id) == is_expired);
            assert(order.take(i + 1).filter(expiring) == if expiring(id) {
                order.take(i as int).filter(expiring).push(id)
            } else {
                order.take(i as int).filter(expiring)
            });
            if is_expired {
                expired.push(id);
            }
        }
        assert(order.take(n as int) =~= order);
        proof {
            lemma_filter_no_duplicates(order, expiring);
        }
        let ghost ids = expired@;
        assert(ids.to_set() =~= Set::new(|id: GoalId| m0.expires(id, now))) by {
            assert forall|id: GoalId| ids.to_set().contains(id) <==> m0.expires(id, now) by {
                assert(order.contains(id) <==> m0.goals.contains_key(id));
            }
        }
        let mut deliveries: Vec<ResultDelivery<W>> = Vec::new();
        let m = expired.len();
        proof {
            let e = m0.expire_some(now, ids.take(0).to_set());
            assert(ids.take(0).to_set() =~= Set::<GoalId>::empty());
            assert(e.goals =~= m0.goals);
            assert(e.waiters =~= m0.waiters);
            assert(e.infos =~= m0.infos);
            assert(e.instances =~= m0.instances);
            assert(e.cancel_pending =~= m0.cancel_pending);
            assert(ids.take(0).filter(active) =~= Seq::<GoalId>::empty());
            lemma_filter_keeps_all(order, kept_after(m0, now, ids.take(0).to_set()));
        }
        for j in 0..m
            invariant
                m == ids.len(),
                ids == expired@,
                ids.no_duplicates(),
                forall|x: GoalId| #[trigger] active(x) == m0.goals[x].is_active(),
                forall|x: GoalId| #[trigger] ids.contains(x) ==> m0.expires(x, now),
                m0.expiry_sets_deadline(now) ==> now + m0.result_timeout <= u64::MAX,
                self.model() == m0.expire_some(now, ids.take(j as int).to_set()),
                self.goal_order() == order.filter(kept_after(m0, now, ids.take(j as int).to_set())),
                deliveries@.map_values(|d: ResultDelivery<W>| d.goal_id) == (if m0.default_result is Some {
                    ids.take(j as int).filter(active)
                } else {
                    Seq::<GoalId>::empty()
                }),
                forall|k: int|
                    0 <= k < deliveries@.len() ==> #[trigger] delivery_view(deliveries@[k]) == (
                        deliveries@[k].goal_id,
                        m0.waiters_of(deliveries@[k].goal_id),
                        m0.default_result.unwrap(),
                        GoalStatus::Aborted,
                    ),
        {
            reveal(Seq::filter);
            let id = expired[j];
            let ghost done = ids.take(j as int).to_set();
            assert(ids.take(j + 1).drop_last() =~= ids.take(j as int));
            let ghost t1 = ids.take(j + 1);
            let ghost t0 = ids.take(j as int);
            assert forall|x: GoalId| t1.contains(x) <==> t0.contains(x) || x == id by {
                if t1.contains(x) {
                    let k = choose|k: int| 0 <= k < t1.len() && t1[k] == x;
                    if k < j {
                        assert(t0[k] == x);
                    }
                }
                if t0.contains(x) {
                    let k = choose|k: int| 0 <= k < t0.len() && t0[k] == x;
                    assert(t1[k] == x);
                }
                if x == id {
                    assert(t1[j as int] == x);
                }
            }
            assert(ids.take(j + 1).to_set() =~= done.insert(id));
            assert(!done.contains(id)) by {
                if done.contains(id) {
                    let k = choose|k: int| 0 <= k < j && ids.take(j as int)[k] == id;
                    assert(ids[k] == ids[j as int]);
                }
            }
            assert(ids.contains(id));
            assert(self.model().goals.contains_key(id) && self.model().goals[id] == m0.goals[id]);
            let is_active = match self.goal_manager.goals.get(&id) {
                Some(ServerGoalState::Accepted { .. }) => true,
                Some(ServerGoalState::Executing { .. }) => true,
                _ => false,
            };
            assert(is_active == m0.goals[id].is_active());
            assert(active(id) == is_active);
            assert(ids.take(j + 1).last() == id);
            assert(ids.take(j + 1).filter(active) == if active(id) {
                ids.take(j as int).filter(active).push(id)
            } else {
                ids.take(j as int).filter(active)
            });
            let ghost before = deliveries@;
            if is_active {
                proof {
                    lemma_expire_abort_step(m0, now, done, id);
                }
                let ghost cur = self.model();
                let ghost cur_order = self.goal_order();
                assert(cur.waiters_of(id) == m0.waiters_of(id));
                let d = self.abort_locked(id, now);
                proof {
                    let before_kept = kept_after(m0, now, done);
                    let after_kept = kept_after(m0, now, done.insert(id));
                    if m0.default_result is None {
                        lemma_filter_twice(order, before_kept, other_than(id), after_kept);
                    } else {
                        assert(after_kept =~= before_kept);
                    }
                }
                match d {
                    Some(d) => {
                        deliveries.push(d);
                        assert(deliveries@ == before.push(d));
                        assert(deliveries@.map_values(|d: ResultDelivery<W>| d.goal_id) =~= before.map_values(|d: ResultDelivery<W>| d.goal_id).push(id));
                    },
                    None => {},
                }
                assert(deliveries@.map_values(|d: ResultDelivery<W>| d.goal_id) =~= (
                if m0.default_result is Some {
                    ids.take(j + 1).filter(active)
                } else {
                    Seq::<GoalId>::empty()
                }));
            } else {
                self.goal_manager.goals.remove(&id);
                self.goal_manager.result_futures.remove(&id);
                self.goal_info.remove(&id);
                self.goal_instances.remove(&id);
                self.cancel_pending.remove(&id);
                proof {
                    lemma_filter_twice(
                        order,
                        kept_after(m0, now, done),
                        other_than(id),
                        kept_after(m0, now, done.insert(id)),
                    );
                    lemma_expire_forget_step(m0, now, done, id);
                    let a = self.model();
                    let b = m0.expire_some(now, done).after_forget(id);
                    assert(a.goals =~= b.goals);
                    assert(a.waiters =~= b.waiters);
                    assert(a.cancel_pending =~= b.cancel_pending);
                }
                assert(deliveries@.map_values(|d: ResultDelivery<W>| d.goal_id) =~= (
                if m0.default_result is Some {
                    ids.take(j + 1).filter(active)
                } else {
                    Seq::<GoalId>::empty()
                }));
            }
        }
        assert(ids.take(m as int) =~= ids);
        assert(kept_after(m0, now, ids.to_set()) =~= (|id: GoalId| !m0.expiry_drops(id, now)));
        (expired, deliveries)
    }
}

/// What a result request is answered.
pub enum ResultAnswer {
    /// Reply now with this response.
    Reply(GetResultResponse),
    /// The goal has not finished: the request waits for its result.
    Waiting,
    /// Reply with this error.
    Failed(ResultError),
}

/// Why a result request gets an error instead of a result.
#[derive(Clone, Copy, PartialEq, Eq, Structural, Debug)]
pub enum ResultError {
    /// The goal is unknown, and the action has no default result.
    UnknownGoal,
    /// The request waited, but its goal's result is gone (expired without a
    /// default result, or the server stopped).
    Expired,
}

impl ResultError {
    /// The error text the request is answered with.
    pub fn message(&self) -> (r: &'static str)
        ensures
            r@ == match self {
                ResultError::UnknownGoal => "Unknown goal"@,
                ResultError::Expired => "Goal result expired or server stopped"@,
            },
    {
        match self {
            ResultError::UnknownGoal => "Unknown goal",
            ResultError::Expired => "Goal result expired or server stopped",
        }
    }
}

impl<W> ZActionServer<W> {
    /// Records that goal `info.goal_id` is accepted at `now` with payload
    /// `goal`, unless a goal with that id exists; then nothing changes.
    /// Returns the acceptance number that owns the new goal.
    pub fn accept_goal(&mut self, info: GoalInfo, goal: &Vec<u8>, now: u64) -> (r: Option<u64>)
        requires
            old(self).model().next_instance < u64::MAX,
            !old(self).model().goals.contains_key(info.goal_id) ==> (old(self).model().goal_timeout matches Some(
                t,
            ) ==> now + t <= u64::MAX),
        ensures
            old(self).model().goals.contains_key(info.goal_id) ==> r is None && final(self).model()
                == old(self).model() && final(self).goal_order() == old(self).goal_order(),
            !old(self).model().goals.contains_key(info.goal_id) ==> {
                &&& r == Some(old(self).model().next_instance)
                &&& final(self).model() == old(self).model().after_accept(info, goal@, now)
                &&& final(self).goal_order() == old(self).goal_order().push(info.goal_id)
            },
    {
        let id = info.goal_id;
        if self.goal_manager.goals.contains_key(&id) {
            return None;
        }
        let instance = self.next_instance;
        self.goal_info.insert(id, info);
        self.goal_instances.insert(id, instance);
        let expires_at = match self.goal_manager.goal_timeout {
            Some(t) => Some(now + t),
            None => None,
        };
        let stored = copy_bytes(goal);
        self.goal_manager.goals.insert(
            id,
            ServerGoalState::Accepted { goal: stored, timestamp: now, expires_at },
        );
        self.next_instance = instance + 1;
        assert(self.model().goals =~= old(self).model().after_accept(info, goal@, now).goals);
        Some(instance)
    }

    /// Starts executing goal `id` with payload `goal`, if acceptance
    /// `instance` still owns it and it is accepted; otherwise nothing changes.
    /// A delayed handle never overwrites the state of an expired or reused id.
    pub fn begin_execution(&mut self, id: GoalId, instance: Option<u64>, goal: &Vec<u8>)
        ensures
            old(self).model().can_execute(id, instance) ==> final(self).model() == old(self).model().after_execute(
                id,
                goal@,
            ),
            !old(self).model().can_execute(id, instance) ==> final(self).model() == old(self).model(),
            final(self).goal_order() == old(self).goal_order(),
    {
        if !self.is_current_instance(id, instance) {
            return;
        }
        let expires_at = match self.goal_manager.goals.get(&id) {
            Some(ServerGoalState::Accepted { expires_at, .. }) => *expires_at,
            _ => {
                return;
            },
        };
        let pending = self.cancel_pending.remove(&id).is_some();
        let stored = copy_bytes(goal);
        self.goal_manager.goals.insert(
            id,
            ServerGoalState::Executing { goal: stored, cancel_requested: pending, expires_at },
        );
        assert(self.model().goals =~= old(self).model().after_execute(id, goal@).goals);
        assert(self.model().cancel_pending =~= old(self).model().after_execute(id, goal@).cancel_pending);
    }

    /// Finishes goal `id` at `now` with `result` and `status`, if acceptance
    /// `instance` still owns it and it has not finished; otherwise nothing
    /// changes, so a late completion never replaces a terminal state.
    /// Returns the result owed to the goal's waiting result requests.
    pub fn terminate_goal(
        &mut self,
        id: GoalId,
        instance: Option<u64>,
        result: Vec<u8>,
        status: GoalStatus,
        now: u64,
    ) -> (r: Option<ResultDelivery<W>>)
        requires
            old(self).model().can_terminate(id, instance) ==> now + old(self).model().result_timeout
                <= u64::MAX,
        ensures
            old(self).model().can_terminate(id, instance) ==> {
                &&& final(self).model() == old(self).model().after_terminate(id, result@, status, now)
                &&& final(self).goal_order() == old(self).goal_order()
                &&& r matches Some(d) && delivery_view(d) == (
                    id,
                    old(self).model().waiters_of(id),
                    result@,
                    status,
                )
            },
            !old(self).model().can_terminate(id, instance) ==> final(self).model() == old(self).model()
                && final(self).goal_order() == old(self).goal_order() && r is None,
    {
        if !self.is_current_instance(id, instance) {
            return None;
        }
        let finished = match self.goal_manager.goals.get(&id) {
            None => true,
            Some(ServerGoalState::Terminated { .. }) => true,
            Some(_) => false,
        };
        if finished {
            return None;
        }
        let expires = now + self.goal_manager.result_timeout;
        let stored = copy_bytes(&result);
        self.goal_manager.goals.insert(
            id,
            ServerGoalState::Terminated {
                result: stored,
                status,
                timestamp: now,
                expires_at: Some(expires),
            },
        );
        let waiters = match self.goal_manager.result_futures.remove(&id) {
            Some(w) => w,
            None => Vec::new(),
        };
        assert(self.model().goals =~= old(self).model().after_terminate(id, result@, status, now).goals);
        assert(self.model().waiters =~= old(self).model().waiters.remove(id));
        assert(waiters@ =~= old(self).model().waiters_of(id));
        Some(ResultDelivery { goal_id: id, waiters, result, status })
    }

    /// Whether acceptance `instance` owns goal `id` and the goal is executing:
    /// only then may its handler publish feedback.
    pub fn is_executing(&self, id: GoalId, instance: Option<u64>) -> (r: bool)
        ensures
            r == self.model().is_executing(id, instance),
    {
        if !self.is_current_instance(id, instance) {
            return false;
        }
        match self.goal_manager.goals.get(&id) {
            Some(ServerGoalState::Executing { .. }) => true,
            _ => false,
        }
    }

    /// Whether the handler of acceptance `instance` for goal `id` should stop.
    pub fn stop_requested(&self, id: GoalId, instance: Option<u64>) -> (r: bool)
        ensures
            r == self.model().stop_requested(id, instance),
    {
        if !self.is_current_instance(id, instance) {
            return true;
        }
        match self.goal_manager.goals.get(&id) {
            Some(ServerGoalState::Executing { cancel_requested, .. }) => *cancel_requested,
            _ => true,
        }
    }

    /// The goals cancel request `request` cancels, in the server's order.
    pub open spec fn canceled_ids(self, request: CancelGoalServiceRequest) -> Seq<GoalId> {
        self.goal_order().filter(|id: GoalId| self.model().cancels(request, id))
    }

    /// Applies a cancel request: every goal it selects that has not finished
    /// is told to stop (executing goals at once, accepted goals when they
    /// start executing) and listed in the response.
    pub fn handle_cancel_request(&mut self, request: &CancelGoalServiceRequest) -> (r:
        CancelGoalServiceResponse)
        ensures
            final(self).model() == old(self).model().after_cancel(*request),
            final(self).goal_order() == old(self).goal_order(),
            r.goals_canceling@ == old(self).canceled_ids(*request).map_values(
                |id: GoalId| old(self).model().infos[id],
            ),
            r.return_code == old(self).model().cancel_return_code(
                *request,
                old(self).canceled_ids(*request).len() > 0,
            ),
    {
        let ghost m0 = self.model();
        let ghost order = self.goal_order();
        let ghost cancels = |id: GoalId| m0.cancels(*request, id);
        let by_id = request.goal_info.goal_id.is_valid();
        let by_time = !(request.goal_info.stamp.sec == 0 && request.goal_info.stamp.nanosec == 0);
        let mut goals_canceling: Vec<GoalInfo> = Vec::new();
        let n = self.goal_manager.goals.len();
        proof {
            assert(order.take(0) =~= Seq::<GoalId>::empty());
            assert(self.model().goals =~= Map::new(
                |id: GoalId| m0.goals.contains_key(id),
                |id: GoalId|
                    if cancels(id) && order.take(0).contains(id) {
                        with_cancel_requested(m0.goals[id])
                    } else {
                        m0.goals[id]
                    },
            ));
            assert(self.model().cancel_pending =~= m0.cancel_pending.union(
                Set::new(|id: GoalId| cancels(id) && m0.goals[id] is Accepted && order.take(0).contains(id)),
            ));
            assert(order.take(0).filter(cancels) =~= Seq::<GoalId>::empty());
        }
        for i in 0..n
            invariant
                n == order.len(),
                order == self.goal_order(),
                order.no_duplicates(),
                forall|x: GoalId| #[trigger] m0.goals.contains_key(x) <==> order.contains(x),
                forall|x: GoalId| #[trigger] cancels(x) == m0.cancels(*request, x),
                by_id == request.goal_info.goal_id.spec_is_valid(),
                by_time == !request.goal_info.stamp.spec_is_zero(),
                self.model() == (ServerModel {
                    goals: Map::new(
                        |id: GoalId| m0.goals.contains_key(id),
                        |id: GoalId|
                            if cancels(id) && order.take(i as int).contains(id) {
                                with_cancel_requested(m0.goals[id])
                            } else {
                                m0.goals[id]
                            },
                    ),
                    cancel_pending: m0.cancel_pending.union(
                        Set::new(
                            |id: GoalId|
                                cancels(id) && m0.goals[id] is Accepted && order.take(i as int).contains(id),
                        ),
                    ),
                    ..m0
                }),
                goals_canceling@ == order.take(i as int).filter(cancels).map_values(
                    |id: GoalId| m0.infos[id],
                ),
        {
            reveal(Seq::filter);
            let id = self.goal_manager.goals.key_at(i);
            let ghost t0 = order.take(i as int);
            let ghost t1 = order.take(i + 1);
            assert(t1.drop_last() =~= t0);
            assert(t1.last() == id);
            assert(!t0.contains(id)) by {
                if t0.contains(id) {
                    let k = choose|k: int| 0 <= k < t0.len() && t0[k] == id;
                    assert(order[k] == order[i as int]);
                }
            }
            assert forall|x: GoalId| t1.contains(x) <==> t0.contains(x) || x == id by {
                if t1.contains(x) {
                    let k = choose|k: int| 0 <= k < t1.len() && t1[k] == x;
                    if k < i {
                        assert(t0[k] == x);
                    }
                }
                if t0.contains(x) {
                    let k = choose|k: int| 0 <= k < t0.len() && t0[k] == x;
                    assert(t1[k] == x);
                }
                if x == id {
                    assert(t1[i as int] == x);
                }
            }
            assert(self.model().goals[id] == m0.goals[id]);
            let info_opt: Option<GoalInfo> = match self.goal_info.get(&id) {
                Some(info) => Some(*info),
                None => None,
            };
            let selected = match info_opt {
                Some(info) => (!by_id && !by_time) || (by_id && id == request.goal_info.goal_id) || (
                by_time && info.stamp.le(&request.goal_info.stamp)),
                None => false,
            };
            // 0: leave alone; 1: executing, stop it; 2: accepted, mark pending; 3: already canceling
            let (action, replacement) = if !selected {
                (0u8, None)
            } else {
                match self.goal_manager.goals.value_at(i) {
                    ServerGoalState::Executing { goal, expires_at, .. } => (
                        1u8,
                        Some(
                            ServerGoalState::Executing {
                                goal: copy_bytes(goal),
                                cancel_requested: true,
                                expires_at: *expires_at,
                            },
                        ),
                    ),
                    ServerGoalState::Accepted { .. } => (2u8, None),
                    ServerGoalState::Canceling { .. } => (3u8, None),
                    ServerGoalState::Terminated { .. } => (0u8, None),
                }
            };
            assert(cancels(id) == (action != 0));
            assert(action == 1 ==> m0.goals[id] is Executing);
            assert(action == 1 ==> (replacement matches Some(st) && st@ == with_cancel_requested(m0.goals[id])));
            assert(action != 1 ==> replacement is None);
            assert(action != 1 ==> with_cancel_requested(m0.goals[id]) == m0.goals[id] || !cancels(id));
            let ghost prev_goals = self.model().goals;
            match replacement {
                Some(state) => {
                    let ghost sv = state@;
                    self.goal_manager.goals.insert(id, state);
                    assert(self.model().goals =~= prev_goals.insert(id, sv));
                },
                None => {},
            }
            if action == 2 {
                self.cancel_pending.insert(id, ());
            }
            if action != 0 {
                match info_opt {
                    Some(info) => {
                        goals_canceling.push(info);
                    },
                    None => {},
                }
            }
            assert(self.model().goals =~= Map::new(
                |x: GoalId| m0.goals.contains_key(x),
                |x: GoalId|
                    if cancels(x) && t1.contains(x) {
                        with_cancel_requested(m0.goals[x])
                    } else {
                        m0.goals[x]
                    },
            ));
            assert(self.model().cancel_pending =~= m0.cancel_pending.union(
                Set::new(|x: GoalId| cancels(x) && m0.goals[x] is Accepted && t1.contains(x)),
            ));
            assert(goals_canceling@ =~= t1.filter(cancels).map_values(|x: GoalId| m0.infos[x]));
        }
        assert(order.take(n as int) =~= order);
        assert(cancels =~= (|id: GoalId| old(self).model().cancels(*request, id)));
        assert(order.filter(cancels) == old(self).canceled_ids(*request));
        assert(self.model().goals =~= m0.after_cancel(*request).goals);
        assert(self.model().cancel_pending =~= m0.after_cancel(*request).cancel_pending);
        let return_code = if goals_canceling.len() > 0 || !by_id {
            CANCEL_ERROR_NONE
        } else if self.goal_manager.goals.contains_key(&request.goal_info.goal_id) {
            CANCEL_ERROR_GOAL_TERMINATED
        } else {
            CANCEL_ERROR_UNKNOWN_GOAL_ID
        };
        CancelGoalServiceResponse { return_code, goals_canceling }
    }

    /// Answers a result request for goal `goal_id`: a finished goal's result
    /// at once; for an unfinished goal, `waiter` is kept until the goal ends;
    /// an unknown goal gets the default result with status unknown, or an
    /// error if the action has no default result.
    pub fn request_result(&mut self, goal_id: GoalId, waiter: W) -> (r: ResultAnswer)
        ensures
            old(self).model().goals.contains_key(goal_id) && old(self).model().goals[goal_id] is Terminated
                ==> final(self).model() == old(self).model() && match old(self).model().goals[goal_id] {
                GoalStateView::Terminated { result, status, .. } => r matches ResultAnswer::Reply(resp)
                    && resp.result@ == result && resp.status == status.spec_code(),
                _ => false,
            },
            old(self).model().goals.contains_key(goal_id) && !(old(self).model().goals[goal_id] is Terminated)
                ==> r is Waiting && final(self).model() == (ServerModel {
                waiters: old(self).model().waiters.insert(
                    goal_id,
                    old(self).model().waiters_of(goal_id).push(waiter),
                ),
                ..old(self).model()
            }),
            !old(self).model().goals.contains_key(goal_id) ==> final(self).model() == old(self).model()
                && match old(self).model().default_result {
                Some(d) => r matches ResultAnswer::Reply(resp) && resp.result@ == d && resp.status
                    == GoalStatus::Unknown.spec_code(),
                None => r == ResultAnswer::Failed(ResultError::UnknownGoal),
            },
            final(self).goal_order() == old(self).goal_order(),
    {
        let finished = match self.goal_manager.goals.get(&goal_id) {
            Some(ServerGoalState::Terminated { result, status, .. }) => Some(
                GetResultResponse::new(copy_bytes(result), *status),
            ),
            _ => None,
        };
        match finished {
            Some(resp) => ResultAnswer::Reply(resp),
            None => {
                if self.goal_manager.goals.contains_key(&goal_id) {
                    let mut waiters = match self.goal_manager.result_futures.remove(&goal_id) {
                        Some(w) => w,
                        None => Vec::new(),
                    };
                    waiters.push(waiter);
                    self.goal_manager.result_futures.insert(goal_id, waiters);
                    assert(self.model().waiters =~= old(self).model().waiters.insert(
                        goal_id,
                        old(self).model().waiters_of(goal_id).push(waiter),
                    ));
                    ResultAnswer::Waiting
                } else {
                    self.answer_without_result(ResultError::UnknownGoal)
                }
            },
        }
    }

    /// Answers a request that waited for a result that never came (the goal
    /// expired without a default result, or the server stopped): the default
    /// result with status unknown, or an error if the action has none.
    pub fn answer_abandoned_request(&self) -> (r: ResultAnswer)
        ensures
            match self.model().default_result {
                Some(d) => r matches ResultAnswer::Reply(resp) && resp.result@ == d && resp.status
                    == GoalStatus::Unknown.spec_code(),
                None => r == ResultAnswer::Failed(ResultError::Expired),
            },
    {
        self.answer_without_result(ResultError::Expired)
    }

    fn answer_without_result(&self, error: ResultError) -> (r: ResultAnswer)
        ensures
            match self.model().default_result {
                Some(d) => r matches ResultAnswer::Reply(resp) && resp.result@ == d && resp.status
                    == GoalStatus::Unknown.spec_code(),
                None => r == ResultAnswer::Failed(error),
            },
    {
        match &self.default_result {
            Some(d) => ResultAnswer::Reply(GetResultResponse::new(copy_bytes(d), GoalStatus::Unknown)),
            None => ResultAnswer::Failed(error),
        }
    }
}

} // verus!
