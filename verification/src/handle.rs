//! Goal handles: a type-state view of one goal's lifecycle.
//!
//! A `GoalHandle<Requested>` can be accepted or rejected, a
//! `GoalHandle<Accepted>` can be executed, and a `GoalHandle<Executing>` can
//! publish feedback and be finished. Each handle remembers the acceptance
//! that created its goal, so a handle that outlived its goal (expired, or
//! replaced by a new goal with the same UUID) can no longer change anything.

use vstd::prelude::*;
use std::marker::PhantomData;
use crate::error::ActionServerError;
use crate::ids::{GoalId, GoalInfo, GoalStatus, Time};
use crate::messages::{CancelGoalServiceRequest, CancelGoalServiceResponse, FeedbackMessage, GoalResponse};
use crate::queue::BoundedQueue;
use crate::model::ServerModel;
use crate::server::{delivery_view, ZActionServer};
use crate::state::ResultDelivery;

verus! {

/// Marker of a goal that has been requested but not yet accepted or rejected.
pub struct Requested;

/// Marker of a goal that has been accepted but is not yet executing.
pub struct Accepted;

/// Marker of a goal that is executing.
pub struct Executing;

/// A goal handle in state `State`.
pub struct GoalHandle<State> {
    /// The goal, as its serialized message.
    pub goal: Vec<u8>,
    /// The goal metadata.
    pub info: GoalInfo,
    instance: Option<u64>,
    _state: PhantomData<State>,
}

impl<State> GoalHandle<State> {
    /// The acceptance this handle belongs to; none before acceptance.
    pub closed spec fn instance(self) -> Option<u64> {
        self.instance
    }

    /// The goal payload.
    pub closed spec fn spec_goal(self) -> Vec<u8> {
        self.goal
    }

    /// The goal metadata.
    pub closed spec fn spec_info(self) -> GoalInfo {
        self.info
    }

    /// The acceptance number this handle belongs to, if it was accepted.
    pub fn acceptance(&self) -> (r: Option<u64>)
        ensures
            r == self.instance(),
    {
        self.instance
    }
}

/// Methods of a requested goal.
impl GoalHandle<Requested> {
    /// The handle of a goal request for `goal_id`, received at `stamp`.
    pub fn new(goal_id: GoalId, goal: Vec<u8>, stamp: Time) -> (r: Self)
        ensures
            r.spec_goal() == goal,
            r.spec_info() == (GoalInfo { goal_id, stamp }),
            r.instance() is None,
    {
        GoalHandle { goal, info: GoalInfo::new(goal_id, stamp), instance: None, _state: PhantomData }
    }

    /// The goal data.
    pub fn goal(&self) -> (r: &Vec<u8>)
        ensures
            *r == self.spec_goal(),
    {
        &self.goal
    }

    /// The goal metadata.
    pub fn info(&self) -> (r: &GoalInfo)
        ensures
            *r == self.spec_info(),
    {
        &self.info
    }

    /// Accepts the goal at `now`, stamping it with `stamp`, unless a goal
    /// with the same UUID exists: that state is left as it is, and the request
    /// is to be rejected.
    pub fn try_accept<W>(self, server: &mut ZActionServer<W>, now: u64, stamp: Time) -> (r: Result<
        GoalHandle<Accepted>,
        ActionServerError,
    >)
        requires
            old(server).model().next_instance < u64::MAX,
            !old(server).model().goals.contains_key(self.spec_info().goal_id) ==> (old(
                server,
            ).model().goal_timeout matches Some(t) ==> now + t <= u64::MAX),
        ensures
            old(server).model().goals.contains_key(self.spec_info().goal_id) ==> r == Err::<
                GoalHandle<Accepted>,
                ActionServerError,
            >(ActionServerError::DuplicateGoal) && final(server).model() == old(server).model()
                && final(server).goal_order() == old(server).goal_order(),
            !old(server).model().goals.contains_key(self.spec_info().goal_id) ==> {
                let info = GoalInfo { goal_id: self.spec_info().goal_id, stamp };
                &&& r matches Ok(h) && h.spec_goal() == self.spec_goal() && h.spec_info() == info && h.instance() == Some(
                    old(server).model().next_instance,
                )
                &&& final(server).model() == old(server).model().after_accept(info, self.spec_goal()@, now)
                &&& final(server).goal_order() == old(server).goal_order().push(self.spec_info().goal_id)
            },
    {
        let info = GoalInfo::new(self.info.goal_id, stamp);
        match server.accept_goal(info, &self.goal, now) {
            Some(instance) => Ok(
                GoalHandle { goal: self.goal, info, instance: Some(instance), _state: PhantomData },
            ),
            None => Err(ActionServerError::DuplicateGoal),
        }
    }

    /// Accepts a goal whose UUID is not in use.
    pub fn accept<W>(self, server: &mut ZActionServer<W>, now: u64, stamp: Time) -> (r: GoalHandle<
        Accepted,
    >)
        requires
            !old(server).model().goals.contains_key(self.spec_info().goal_id),
            old(server).model().next_instance < u64::MAX,
            old(server).model().goal_timeout matches Some(t) ==> now + t <= u64::MAX,
        ensures
            r.spec_goal() == self.spec_goal(),
            r.spec_info() == (GoalInfo { goal_id: self.spec_info().goal_id, stamp }),
            r.instance() == Some(old(server).model().next_instance),
            final(server).model() == old(server).model().after_accept(r.spec_info(), self.spec_goal()@, now),
            final(server).goal_order() == old(server).goal_order().push(self.spec_info().goal_id),
    {
        let info = GoalInfo::new(self.info.goal_id, stamp);
        let instance = server.accept_goal(info, &self.goal, now);
        GoalHandle { goal: self.goal, info, instance, _state: PhantomData }
    }

    /// Rejects the goal; the goal is never executed. Returns the response
    /// the request is answered with.
    pub fn reject(self) -> (r: GoalResponse)
        ensures
            r == (GoalResponse { accepted: false, stamp_sec: 0, stamp_nanosec: 0 }),
    {
        GoalResponse::rejected()
    }
}

/// Methods of an accepted goal.
impl GoalHandle<Accepted> {
    /// The goal data.
    pub fn goal(&self) -> (r: &Vec<u8>)
        ensures
            *r == self.spec_goal(),
    {
        &self.goal
    }

    /// The goal metadata.
    pub fn info(&self) -> (r: &GoalInfo)
        ensures
            *r == self.spec_info(),
    {
        &self.info
    }

    /// The response that tells the client its goal was accepted.
    pub fn response(&self) -> (r: GoalResponse)
        ensures
            r == (GoalResponse {
                accepted: true,
                stamp_sec: self.spec_info().stamp.sec,
                stamp_nanosec: self.spec_info().stamp.nanosec,
            }),
    {
        GoalResponse {
            accepted: true,
            stamp_sec: self.info.stamp.sec,
            stamp_nanosec: self.info.stamp.nanosec,
        }
    }

    /// Starts executing the goal. The server's state changes only if this
    /// handle still owns an accepted goal; otherwise the returned handle is
    /// told to stop at once.
    pub fn execute<W>(self, server: &mut ZActionServer<W>) -> (r: GoalHandle<Executing>)
        ensures
            r.spec_goal() == self.spec_goal(),
            r.spec_info() == self.spec_info(),
            r.instance() == self.instance(),
            old(server).model().can_execute(self.spec_info().goal_id, self.instance()) ==> final(server).model()
                == old(server).model().after_execute(self.spec_info().goal_id, self.spec_goal()@),
            !old(server).model().can_execute(self.spec_info().goal_id, self.instance())
                ==> final(server).model() == old(server).model(),
            final(server).goal_order() == old(server).goal_order(),
    {
        server.begin_execution(self.info.goal_id, self.instance, &self.goal);
        GoalHandle { goal: self.goal, info: self.info, instance: self.instance, _state: PhantomData }
    }
}

/// Methods of an executing goal.
impl GoalHandle<Executing> {
    /// The goal data.
    pub fn goal(&self) -> (r: &Vec<u8>)
        ensures
            *r == self.spec_goal(),
    {
        &self.goal
    }

    /// The goal metadata.
    pub fn info(&self) -> (r: &GoalInfo)
        ensures
            *r == self.spec_info(),
    {
        &self.info
    }

    /// Whether this handle still owns its goal.
    pub fn is_current<W>(&self, server: &ZActionServer<W>) -> (r: bool)
        ensures
            r == server.model().is_current(self.spec_info().goal_id, self.instance()),
    {
        server.is_current_instance(self.info.goal_id, self.instance)
    }

    /// The feedback message to publish for this goal, if it is still
    /// executing under this handle.
    pub fn publish_feedback<W>(&self, server: &ZActionServer<W>, feedback: Vec<u8>) -> (r: Result<
        FeedbackMessage,
        ActionServerError,
    >)
        ensures
            server.model().is_executing(self.spec_info().goal_id, self.instance()) ==> (r matches Ok(msg)
                && msg.goal_id == self.spec_info().goal_id && msg.feedback == feedback),
            !server.model().is_executing(self.spec_info().goal_id, self.instance()) ==> r == Err::<
                FeedbackMessage,
                ActionServerError,
            >(ActionServerError::NotExecuting),
    {
        if !server.is_executing(self.info.goal_id, self.instance) {
            return Err(ActionServerError::NotExecuting);
        }
        Ok(FeedbackMessage { goal_id: self.info.goal_id, feedback })
    }

    /// Whether the handler should stop: a cancel request reached the goal, or
    /// the server aborted it after its execution timeout, or the handle no
    /// longer owns it.
    pub fn is_cancel_requested<W>(&self, server: &ZActionServer<W>) -> (r: bool)
        ensures
            r == server.model().stop_requested(self.spec_info().goal_id, self.instance()),
    {
        server.stop_requested(self.info.goal_id, self.instance)
    }

    /// Processes the pending cancel requests, in order, if this handle still
    /// owns its goal (a stale handle is told to stop and leaves the queue as
    /// it is). Every request is applied to every goal it selects, so a request
    /// for another goal is never lost. Returns whether this goal should stop,
    /// and each request's response with what identifies its requester.
    pub fn try_process_cancel<W, Q>(
        &self,
        server: &mut ZActionServer<W>,
        pending: &mut BoundedQueue<(CancelGoalServiceRequest, Q)>,
    ) -> (r: (bool, Vec<(CancelGoalServiceResponse, Q)>))
        ensures
            !old(server).model().is_current(self.spec_info().goal_id, self.instance()) ==> {
                &&& r.0
                &&& r.1@.len() == 0
                &&& final(server).model() == old(server).model()
                &&& final(pending)@ == old(pending)@
            },
            old(server).model().is_current(self.spec_info().goal_id, self.instance()) ==> {
                &&& final(pending)@.len() == 0
                &&& final(server).model() == after_cancels(
                    old(server).model(),
                    old(pending)@.map_values(|p: (CancelGoalServiceRequest, Q)| p.0),
                )
                &&& r.0 == final(server).model().stop_requested(self.spec_info().goal_id, self.instance())
                &&& r.1@.len() == old(pending)@.len()
                &&& forall|k: int|
                    0 <= k < r.1@.len() ==> {
                        let before = after_cancels(
                            old(server).model(),
                            old(pending)@.take(k).map_values(|p: (CancelGoalServiceRequest, Q)| p.0),
                        );
                        let request = old(pending)@[k].0;
                        let canceled = old(server).goal_order().filter(
                            |id: GoalId| before.cancels(request, id),
                        );
                        &&& (#[trigger] r.1@[k]).1 == old(pending)@[k].1
                        &&& r.1@[k].0.goals_canceling@ == canceled.map_values(
                            |id: GoalId| before.infos[id],
                        )
                        &&& r.1@[k].0.return_code == before.cancel_return_code(
                            request,
                            canceled.len() > 0,
                        )
                    }
            },
            final(server).goal_order() == old(server).goal_order(),
            final(pending).spec_capacity() == old(pending).spec_capacity(),
    {
        let mut responses: Vec<(CancelGoalServiceResponse, Q)> = Vec::new();
        if !server.is_current_instance(self.info.goal_id, self.instance) {
            return (true, responses);
        }
        let ghost m0 = server.model();
        let ghost order = server.goal_order();
        let ghost all = pending@;
        let ghost requests = all.map_values(|p: (CancelGoalServiceRequest, Q)| p.0);
        let total = pending.len();
        let mut k: usize = 0;
        while !pending.is_empty()
            invariant
                total == all.len(),
                server.goal_order() == order,
                k + pending@.len() == all.len(),
                pending@ == all.skip(k as int),
                pending.spec_capacity() == old(pending).spec_capacity(),
                requests == all.map_values(|p: (CancelGoalServiceRequest, Q)| p.0),
                server.model() == after_cancels(m0, requests.take(k as int)),
                responses@.len() == k,
                forall|j: int|
                    0 <= j < k ==> {
                        let before = after_cancels(m0, requests.take(j));
                        let request = all[j].0;
                        let canceled = order.filter(|id: GoalId| before.cancels(request, id));
                        &&& (#[trigger] responses@[j]).1 == all[j].1
                        &&& responses@[j].0.goals_canceling@ == canceled.map_values(
                            |id: GoalId| before.infos[id],
                        )
                        &&& responses@[j].0.return_code == before.cancel_return_code(
                            request,
                            canceled.len() > 0,
                        )
                    },
            decreases pending@.len(),
        {
            let item = pending.try_recv();
            match item {
                Some((request, requester)) => {
                    assert(all[k as int] == (request, requester));
                    assert(requests.take(k + 1) =~= requests.take(k as int).push(request));
                    let ghost before = server.model();
                    let response = server.handle_cancel_request(&request);
                    proof {
                        lemma_after_cancels_push(m0, requests.take(k as int), request);
                    }
                    responses.push((response, requester));
                    assert(all.skip(k + 1) =~= all.skip(k as int).skip(1));
                    k = k + 1;
                },
                None => {
                    assert(false);
                },
            }
        }
        assert(requests.take(k as int) =~= requests);
        assert forall|j: int| #![trigger all.take(j)] 0 <= j <= all.len() implies all.take(j).map_values(
            |p: (CancelGoalServiceRequest, Q)| p.0,
        ) == requests.take(j) by {
            assert(all.take(j).map_values(|p: (CancelGoalServiceRequest, Q)| p.0) =~= requests.take(j));
        }
        let stop = server.stop_requested(self.info.goal_id, self.instance);
        (stop, responses)
    }

    /// Finishes the goal as succeeded with `result`.
    pub fn succeed<W>(self, server: &mut ZActionServer<W>, result: Vec<u8>, now: u64) -> (r: Option<
        ResultDelivery<W>,
    >)
        requires
            old(server).model().can_terminate(self.spec_info().goal_id, self.instance()) ==> now + old(
                server,
            ).model().result_timeout <= u64::MAX,
        ensures
            finish_contract(self, *old(server), *final(server), result, GoalStatus::Succeeded, now, r),
    {
        self.terminate(server, result, GoalStatus::Succeeded, now)
    }

    /// Finishes the goal as aborted with `result`.
    pub fn abort<W>(self, server: &mut ZActionServer<W>, result: Vec<u8>, now: u64) -> (r: Option<
        ResultDelivery<W>,
    >)
        requires
            old(server).model().can_terminate(self.spec_info().goal_id, self.instance()) ==> now + old(
                server,
            ).model().result_timeout <= u64::MAX,
        ensures
            finish_contract(self, *old(server), *final(server), result, GoalStatus::Aborted, now, r),
    {
        self.terminate(server, result, GoalStatus::Aborted, now)
    }

    /// Finishes the goal as canceled with `result`.
    pub fn canceled<W>(self, server: &mut ZActionServer<W>, result: Vec<u8>, now: u64) -> (r: Option<
        ResultDelivery<W>,
    >)
        requires
            old(server).model().can_terminate(self.spec_info().goal_id, self.instance()) ==> now + old(
                server,
            ).model().result_timeout <= u64::MAX,
        ensures
            finish_contract(self, *old(server), *final(server), result, GoalStatus::Canceled, now, r),
    {
        self.terminate(server, result, GoalStatus::Canceled, now)
    }

    fn terminate<W>(
        self,
        server: &mut ZActionServer<W>,
        result: Vec<u8>,
        status: GoalStatus,
        now: u64,
    ) -> (r: Option<ResultDelivery<W>>)
        requires
            old(server).model().can_terminate(self.spec_info().goal_id, self.instance()) ==> now + old(
                server,
            ).model().result_timeout <= u64::MAX,
        ensures
            finish_contract(self, *old(server), *final(server), result, status, now, r),
    {
        server.terminate_goal(self.info.goal_id, self.instance, result, status, now)
    }
}

/// What finishing handle `h` with `result` and `status` at `now` does: if the
/// handle still owns an unfinished goal, the goal is terminated and the
/// result is owed to its waiting result requests; otherwise nothing changes,
/// so an expired or replaced goal is never recreated by a late completion.
pub open spec fn finish_contract<W>(
    h: GoalHandle<Executing>,
    before: ZActionServer<W>,
    after: ZActionServer<W>,
    result: Vec<u8>,
    status: GoalStatus,
    now: u64,
    r: Option<ResultDelivery<W>>,
) -> bool {
    &&& after.goal_order() == before.goal_order()
    &&& before.model().can_terminate(h.spec_info().goal_id, h.instance()) ==> {
        &&& after.model() == before.model().after_terminate(h.spec_info().goal_id, result@, status, now)
        &&& r matches Some(d) && delivery_view(d) == (
            h.spec_info().goal_id,
            before.model().waiters_of(h.spec_info().goal_id),
            result@,
            status,
        )
    }
    &&& !before.model().can_terminate(h.spec_info().goal_id, h.instance()) ==> after.model() == before.model()
        && r is None
}

/// The tables after applying `requests`, in order.
pub open spec fn after_cancels<W>(m: ServerModel<W>, requests: Seq<CancelGoalServiceRequest>) -> ServerModel<W>
    decreases requests.len(),
{
    if requests.len() == 0 {
        m
    } else {
        after_cancels(m, requests.drop_last()).after_cancel(requests.last())
    }
}

proof fn lemma_after_cancels_push<W>(
    m: ServerModel<W>,
    requests: Seq<CancelGoalServiceRequest>,
    request: CancelGoalServiceRequest,
)
    ensures
        after_cancels(m, requests.push(request)) == after_cancels(m, requests).after_cancel(request),
{
    assert(requests.push(request).drop_last() =~= requests);
}

} // verus!
