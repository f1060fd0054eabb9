//! Properties of the goal bookkeeping that span several steps.

use vstd::prelude::*;
use crate::ids::{GoalId, GoalInfo, GoalStatus, Time};
use crate::messages::CancelGoalServiceRequest;
use crate::model::{with_cancel_requested, ServerModel};
use crate::state::GoalStateView;

verus! {

/// A goal without a deadline never expires: expiry leaves its state, its
/// metadata and its waiting result requests as they are.
pub proof fn lemma_goal_without_deadline_never_expires<W>(m: ServerModel<W>, id: GoalId, now: u64)
    requires
        m.goals.contains_key(id),
        m.goals[id].deadline() is None,
    ensures
        m.after_expiry(now).goals.contains_key(id),
        m.after_expiry(now).goals[id] == m.goals[id],
        m.after_expiry(now).waiters_of(id) == m.waiters_of(id),
        m.after_expiry(now).infos.contains_key(id) == m.infos.contains_key(id),
{
}

/// A goal whose deadline has not passed is untouched by expiry.
pub proof fn lemma_unexpired_goal_is_untouched<W>(m: ServerModel<W>, id: GoalId, now: u64)
    requires
        m.goals.contains_key(id),
        !m.goals[id].expired_at(now),
    ensures
        m.after_expiry(now).goals.contains_key(id),
        m.after_expiry(now).goals[id] == m.goals[id],
        m.after_expiry(now).waiters_of(id) == m.waiters_of(id),
        m.after_expiry(now).cancel_pending.contains(id) == m.cancel_pending.contains(id),
{
}

/// An active goal that times out, of an action with a default result, ends
/// as aborted with that result, kept for the result timeout; its handler is
/// told to stop.
pub proof fn lemma_timed_out_goal_is_aborted<W>(
    m: ServerModel<W>,
    id: GoalId,
    instance: Option<u64>,
    now: u64,
)
    requires
        m.goals.contains_key(id),
        m.goals[id].is_active(),
        m.goals[id].expired_at(now),
        m.default_result is Some,
    ensures
        m.after_expiry(now).goals[id] == (GoalStateView::Terminated {
            result: m.default_result.unwrap(),
            status: GoalStatus::Aborted,
            timestamp: now,
            expires_at: Some((now + m.result_timeout) as u64),
        }),
        m.after_expiry(now).stop_requested(id, instance),
        m.after_expiry(now).status_of(id) == GoalStatus::Aborted,
{
}

/// Expiring twice at the same time changes nothing the second time, and
/// leaves no goal whose deadline has passed, provided results are kept for a
/// positive time. (Where the first pass aborts a goal, its result deadline
/// must be a representable instant, as for any expiry pass.)
pub proof fn lemma_expiry_is_idempotent<W>(m: ServerModel<W>, now: u64)
    requires
        m.result_timeout > 0,
        m.expiry_sets_deadline(now) ==> now + m.result_timeout <= u64::MAX,
    ensures
        forall|id: GoalId| !#[trigger] m.after_expiry(now).expires(id, now),
        m.after_expiry(now).after_expiry(now) == m.after_expiry(now),
{
    let e = m.after_expiry(now);
    assert forall|id: GoalId| !#[trigger] e.expires(id, now) by {
        if e.goals.contains_key(id) && m.expires(id, now) {
            assert(m.goals[id].is_active());
            assert(m.expiry_sets_deadline(now));
            assert(e.goals[id].deadline() == Some((now + m.result_timeout) as u64));
        }
    }
    let e2 = e.after_expiry(now);
    assert(e2.goals =~= e.goals);
    assert(e2.waiters =~= e.waiters);
    assert(e2.infos =~= e.infos);
    assert(e2.instances =~= e.instances);
    assert(e2.cancel_pending =~= e.cancel_pending);
}

/// A handle that no longer owns its goal (its goal expired, or its UUID was
/// accepted anew) changes nothing: it cannot execute, finish or publish
/// feedback for the goal, and it is told to stop.
pub proof fn lemma_stale_handle_is_inert<W>(m: ServerModel<W>, id: GoalId, instance: Option<u64>)
    requires
        !m.is_current(id, instance),
    ensures
        !m.can_execute(id, instance),
        !m.can_terminate(id, instance),
        !m.is_executing(id, instance),
        m.stop_requested(id, instance),
{
}

/// Accepting a UUID anew gives the new goal an acceptance no earlier handle
/// has: every handle of an earlier acceptance becomes stale for that goal.
pub proof fn lemma_reaccepted_uuid_disowns_old_handles<W>(
    m: ServerModel<W>,
    info: GoalInfo,
    goal: Seq<u8>,
    now: u64,
    old_instance: u64,
)
    requires
        old_instance < m.next_instance,
    ensures
        !m.after_accept(info, goal, now).is_current(info.goal_id, Some(old_instance)),
        m.after_accept(info, goal, now).is_current(info.goal_id, Some(m.next_instance)),
{
}

/// A terminated goal is final: no handle can execute or finish it again, and
/// a cancel request leaves it as it is.
pub proof fn lemma_terminated_goal_is_final<W>(
    m: ServerModel<W>,
    id: GoalId,
    instance: Option<u64>,
    request: CancelGoalServiceRequest,
)
    requires
        m.goals.contains_key(id),
        m.goals[id] is Terminated,
    ensures
        !m.can_execute(id, instance),
        !m.can_terminate(id, instance),
        !m.cancels(request, id),
        m.after_cancel(request).goals[id] == m.goals[id],
{
}

/// A cancel request that reaches an accepted goal is seen by the goal's
/// handler once the goal starts executing.
pub proof fn lemma_cancel_before_execution_reaches_handler<W>(
    m: ServerModel<W>,
    request: CancelGoalServiceRequest,
    id: GoalId,
    instance: Option<u64>,
    goal: Seq<u8>,
)
    requires
        m.cancels(request, id),
        m.goals[id] is Accepted,
        m.is_current(id, instance),
    ensures
        m.after_cancel(request).can_execute(id, instance),
        m.after_cancel(request).after_execute(id, goal).stop_requested(id, instance),
        m.after_cancel(request).status_of(id) == GoalStatus::Canceling,
{
}

/// A cancel request that reaches an executing goal tells its handler to stop,
/// and status messages report it as canceling.
pub proof fn lemma_cancel_during_execution_reaches_handler<W>(
    m: ServerModel<W>,
    request: CancelGoalServiceRequest,
    id: GoalId,
    instance: Option<u64>,
)
    requires
        m.cancels(request, id),
        m.is_executing(id, instance),
    ensures
        m.after_cancel(request).stop_requested(id, instance),
        m.after_cancel(request).status_of(id) == GoalStatus::Canceling,
        m.after_cancel(request).goals[id] == with_cancel_requested(m.goals[id]),
{
}

/// A cancel request that names no goal and no time cancels every goal with
/// metadata that has not finished.
pub proof fn lemma_cancel_all_selects_every_unfinished_goal<W>(
    m: ServerModel<W>,
    request: CancelGoalServiceRequest,
    id: GoalId,
)
    requires
        !request.goal_info.goal_id.spec_is_valid(),
        request.goal_info.stamp.spec_is_zero(),
    ensures
        m.cancels(request, id) <==> m.goals.contains_key(id) && m.infos.contains_key(id) && !(
        m.goals[id] is Terminated),
{
}

/// A finished goal's result is what its handler finished it with, and it is
/// kept for the result timeout from the moment it finished.
pub proof fn lemma_finished_goal_keeps_its_result<W>(
    m: ServerModel<W>,
    id: GoalId,
    instance: Option<u64>,
    result: Seq<u8>,
    status: GoalStatus,
    now: u64,
    later: u64,
)
    requires
        m.can_terminate(id, instance),
        now <= later,
        later < now + m.result_timeout,
        now + m.result_timeout <= u64::MAX,
    ensures
        m.after_terminate(id, result, status, now).after_expiry(later).goals[id] == (
        GoalStateView::Terminated {
            result,
            status,
            timestamp: now,
            expires_at: Some((now + m.result_timeout) as u64),
        }),
        m.after_terminate(id, result, status, now).status_of(id) == status,
{
}

/// A result request that waits for an unfinished goal is owed the goal's
/// result when the goal finishes or is aborted: it is the last of the goal's
/// waiting requests, and neither step leaves a request waiting for the goal.
pub proof fn lemma_waiting_request_is_answered<W>(
    m: ServerModel<W>,
    id: GoalId,
    waiter: W,
    instance: Option<u64>,
    result: Seq<u8>,
    status: GoalStatus,
    now: u64,
)
    requires
        m.can_terminate(id, instance),
    ensures
        ({
            let registered = ServerModel {
                waiters: m.waiters.insert(id, m.waiters_of(id).push(waiter)),
                ..m
            };
            &&& registered.can_terminate(id, instance)
            &&& registered.waiters_of(id).last() == waiter
            &&& !registered.after_terminate(id, result, status, now).waiters.contains_key(id)
            &&& !registered.after_abort(id, now).waiters.contains_key(id)
        }),
{
}

/// A second expiry pass at a later instant `t1` changes nothing, provided no
/// goal's deadline falls in `(t0, t1]` and the results the first pass kept
/// have not yet reached their own retention deadline: goals aborted at `t0`
/// keep their result for their own result timeout. (Where the first pass
/// aborts a goal, its result deadline must be a representable instant, as
/// for any expiry pass.)
pub proof fn lemma_expiry_is_idempotent_until_next_deadline<W>(m: ServerModel<W>, t0: u64, t1: u64)
    requires
        t0 <= t1,
        t1 < t0 + m.result_timeout,
        m.expiry_sets_deadline(t0) ==> t0 + m.result_timeout <= u64::MAX,
        forall|id: GoalId|
            #![trigger m.goals[id]]
            m.goals.contains_key(id) && m.goals[id].deadline() is Some ==> !(t0 < m.goals[id].deadline().unwrap()
                <= t1),
    ensures
        forall|id: GoalId| !#[trigger] m.after_expiry(t0).expires(id, t1),
        m.after_expiry(t0).after_expiry(t1) == m.after_expiry(t0),
{
    let e = m.after_expiry(t0);
    assert forall|id: GoalId| !#[trigger] e.expires(id, t1) by {
        if e.goals.contains_key(id) {
            if m.expires(id, t0) {
                assert(m.goals[id].is_active());
                assert(m.expiry_sets_deadline(t0));
                assert(e.goals[id].deadline() == Some((t0 + m.result_timeout) as u64));
            } else {
                assert(e.goals[id] == m.goals[id]);
                let g = m.goals[id];
                if g.deadline() is Some {
                    assert(!(t0 < g.deadline().unwrap() <= t1));
                }
            }
        }
    }
    let e2 = e.after_expiry(t1);
    assert(e2.goals =~= e.goals);
    assert(e2.waiters =~= e.waiters);
    assert(e2.infos =~= e.infos);
    assert(e2.instances =~= e.instances);
    assert(e2.cancel_pending =~= e.cancel_pending);
}

/// A new result timeout changes no goal that exists (finished goals keep
/// their deadlines), and applies to every goal finished or aborted later.
pub proof fn lemma_new_result_timeout_applies_to_later_results<W>(
    m: ServerModel<W>,
    timeout: u64,
    id: GoalId,
    instance: Option<u64>,
    result: Seq<u8>,
    status: GoalStatus,
    later: u64,
)
    ensures
        ({
            let m2 = ServerModel { result_timeout: timeout, ..m };
            &&& m2.goals == m.goals
            &&& m2.after_terminate(id, result, status, later).goals[id].deadline() == Some(
                (later + timeout) as u64,
            )
            &&& m2.default_result is Some && m2.abortable(id) ==> m2.after_abort(id, later).goals[id].deadline()
                == Some((later + timeout) as u64)
        }),
{
}

/// A handle that cannot finish its goal (it no longer owns it, or the goal is
/// unknown or already finished) leaves every table as it is when it finishes
/// late; in particular a terminal result is never replaced.
pub proof fn lemma_late_completion_keeps_terminal_result<W>(
    m: ServerModel<W>,
    id: GoalId,
    instance: Option<u64>,
)
    requires
        !m.is_current(id, instance) || !m.goals.contains_key(id) || m.goals[id] is Terminated,
    ensures
        !m.can_terminate(id, instance),
{
}

/// A status message reports each goal by the state it is in: an accepted
/// goal as accepted (canceling once a cancel request is pending for it), an
/// executing goal as executing (canceling once its handler is asked to stop),
/// a canceling goal as canceling, and a finished goal by how it finished.
pub proof fn lemma_status_reports_the_goal_state<W>(m: ServerModel<W>, id: GoalId)
    requires
        m.goals.contains_key(id),
    ensures
        m.goals[id] is Accepted && !m.cancel_pending.contains(id) ==> m.status_of(id) == GoalStatus::Accepted,
        m.goals[id] is Accepted && m.cancel_pending.contains(id) ==> m.status_of(id) == GoalStatus::Canceling,
        m.goals[id] matches GoalStateView::Executing { cancel_requested: false, .. } ==> m.status_of(id)
            == GoalStatus::Executing,
        m.goals[id] matches GoalStateView::Executing { cancel_requested: true, .. } ==> m.status_of(id)
            == GoalStatus::Canceling,
        m.goals[id] is Canceling ==> m.status_of(id) == GoalStatus::Canceling,
        m.goals[id] matches GoalStateView::Terminated { status, .. } ==> m.status_of(id) == status,
{
}

/// Along a goal's life the status it is reported with follows the protocol:
/// accepted when accepted, executing once it executes, canceling once a cancel
/// request reaches it, and what it finished with once it finishes.
pub proof fn lemma_status_follows_the_goal_lifecycle<W>(
    m: ServerModel<W>,
    info: GoalInfo,
    goal: Seq<u8>,
    now: u64,
    request: CancelGoalServiceRequest,
    result: Seq<u8>,
    status: GoalStatus,
    later: u64,
)
    requires
        !m.cancel_pending.contains(info.goal_id),
    ensures
        ({
            let id = info.goal_id;
            let accepted = m.after_accept(info, goal, now);
            let executing = accepted.after_execute(id, goal);
            &&& accepted.status_of(id) == GoalStatus::Accepted
            &&& executing.status_of(id) == GoalStatus::Executing
            &&& executing.cancels(request, id) ==> executing.after_cancel(request).status_of(id)
                == GoalStatus::Canceling
            &&& executing.after_terminate(id, result, status, later).status_of(id) == status
        }),
{
}

/// Stamps are ordered as the instants they denote: with nanoseconds below one
/// second, `a` is no later than `b` exactly when it is no later counted in
/// nanoseconds.
pub proof fn lemma_stamp_order_is_time_order(a: Time, b: Time)
    requires
        a.nanosec < 1_000_000_000,
        b.nanosec < 1_000_000_000,
    ensures
        a.spec_le(b) <==> a.sec * 1_000_000_000 + a.nanosec <= b.sec * 1_000_000_000 + b.nanosec,
{
    if a.sec < b.sec {
        assert(a.sec * 1_000_000_000 + 1_000_000_000 <= b.sec * 1_000_000_000);
    } else if a.sec > b.sec {
        assert(b.sec * 1_000_000_000 + 1_000_000_000 <= a.sec * 1_000_000_000);
    }
}

/// The stamp order is a total order: every two stamps compare, and two stamps
/// each no later than the other are equal.
pub proof fn lemma_stamp_order_is_total(a: Time, b: Time, c: Time)
    ensures
        a.spec_le(a),
        a.spec_le(b) || b.spec_le(a),
        a.spec_le(b) && b.spec_le(a) ==> a == b,
        a.spec_le(b) && b.spec_le(c) ==> a.spec_le(c),
{
}

/// A cancel request by stamp (no goal id, a non-zero stamp) cancels exactly
/// the unfinished goals accepted no later than the stamp: a goal accepted
/// later, even within the same second, keeps running.
pub proof fn lemma_cancel_by_stamp_spares_later_goals<W>(
    m: ServerModel<W>,
    request: CancelGoalServiceRequest,
    id: GoalId,
)
    requires
        !request.goal_info.goal_id.spec_is_valid(),
        !request.goal_info.stamp.spec_is_zero(),
        m.infos.contains_key(id),
    ensures
        m.infos[id].stamp.sec > request.goal_info.stamp.sec ==> !m.cancels(request, id),
        m.infos[id].stamp.sec == request.goal_info.stamp.sec && m.infos[id].stamp.nanosec
            > request.goal_info.stamp.nanosec ==> !m.cancels(request, id),
        m.infos[id].stamp.sec == request.goal_info.stamp.sec && m.infos[id].stamp.nanosec
            <= request.goal_info.stamp.nanosec && m.abortable(id) ==> m.cancels(request, id),
        m.infos[id].stamp.sec < request.goal_info.stamp.sec && m.abortable(id) ==> m.cancels(request, id),
{
}

/// Asking a goal to stop never changes its deadline: the goal timeout still
/// applies to a goal whose handler ignores the request.
pub proof fn lemma_stop_signal_keeps_deadline(s: GoalStateView)
    ensures
        with_cancel_requested(s).deadline() == s.deadline(),
        with_cancel_requested(s).is_active() == s.is_active(),
{
}

/// A cancel request keeps every goal's deadline, so a goal whose timeout has
/// passed is still expired by the next expiry pass; an executing goal that
/// ignores the request is then aborted, with the action's default result.
pub proof fn lemma_cancel_keeps_goal_timeouts<W>(
    m: ServerModel<W>,
    request: CancelGoalServiceRequest,
    id: GoalId,
    now: u64,
)
    requires
        m.goals.contains_key(id),
    ensures
        m.after_cancel(request).goals.contains_key(id),
        m.after_cancel(request).goals[id].deadline() == m.goals[id].deadline(),
        m.expires(id, now) ==> m.after_cancel(request).expires(id, now),
        m.expires(id, now) && m.goals[id] is Executing && m.default_result is Some ==> m.after_cancel(
            request,
        ).after_expiry(now).goals[id] == (GoalStateView::Terminated {
            result: m.default_result.unwrap(),
            status: GoalStatus::Aborted,
            timestamp: now,
            expires_at: Some((now + m.result_timeout) as u64),
        }),
{
}

/// An executing goal stays executing when it is asked to stop, whether by a
/// cancel request or by `request_cancel`: its handler may still publish
/// feedback while it winds down, and is told to stop.
pub proof fn lemma_stop_request_keeps_goal_executing<W>(
    m: ServerModel<W>,
    request: CancelGoalServiceRequest,
    id: GoalId,
    instance: Option<u64>,
)
    requires
        m.is_executing(id, instance),
    ensures
        m.after_cancel(request).is_executing(id, instance),
        m.cancels(request, id) ==> m.after_cancel(request).stop_requested(id, instance),
        ({
            let stopped = ServerModel { goals: m.goals.insert(id, with_cancel_requested(m.goals[id])), ..m };
            &&& stopped.is_executing(id, instance)
            &&& stopped.stop_requested(id, instance)
        }),
{
}

/// A goal owned by a handle and in the executing state counts as executing,
/// whether or not its handler has been asked to stop.
pub proof fn lemma_executing_state_is_executing<W>(m: ServerModel<W>, id: GoalId, instance: Option<u64>)
    requires
        m.is_current(id, instance),
        m.goals.contains_key(id),
        m.goals[id] is Executing,
    ensures
        m.is_executing(id, instance),
{
}

/// The return code of a cancel request: no error for a request that names no
/// goal (whatever its stamp) or that cancels some goal; for a request naming
/// a goal it cancels nothing of, goal terminated if the goal is known and
/// unknown goal id otherwise.
pub proof fn lemma_cancel_return_codes<W>(m: ServerModel<W>, request: CancelGoalServiceRequest, canceled_any: bool)
    ensures
        !request.goal_info.goal_id.spec_is_valid() ==> m.cancel_return_code(request, canceled_any) == 0,
        canceled_any ==> m.cancel_return_code(request, canceled_any) == 0,
        request.goal_info.goal_id.spec_is_valid() && !canceled_any && m.goals.contains_key(
            request.goal_info.goal_id,
        ) ==> m.cancel_return_code(request, canceled_any) == 3,
        request.goal_info.goal_id.spec_is_valid() && !canceled_any && !m.goals.contains_key(
            request.goal_info.goal_id,
        ) ==> m.cancel_return_code(request, canceled_any) == 2,
{
}

/// A cancel request that names a goal and no time cancels that goal alone,
/// if it has not finished; one that names a goal and a time also cancels the
/// unfinished goals accepted no later than that time.
pub proof fn lemma_cancel_by_id_selects_that_goal<W>(
    m: ServerModel<W>,
    request: CancelGoalServiceRequest,
    id: GoalId,
)
    requires
        request.goal_info.goal_id.spec_is_valid(),
        m.infos.contains_key(id),
    ensures
        request.goal_info.stamp.spec_is_zero() ==> (m.cancels(request, id) <==> id
            == request.goal_info.goal_id && m.abortable(id)),
        !request.goal_info.stamp.spec_is_zero() ==> (m.cancels(request, id) <==> (id
            == request.goal_info.goal_id || m.infos[id].stamp.spec_le(request.goal_info.stamp))
            && m.abortable(id)),
{
}

/// A cancel request leaves every goal it does not cancel as it is, and
/// cancels a goal only by raising its stop signal (executing) or recording a
/// pending request (accepted): the goal's payload and deadline stay.
pub proof fn lemma_cancel_touches_only_selected_goals<W>(
    m: ServerModel<W>,
    request: CancelGoalServiceRequest,
    id: GoalId,
)
    requires
        m.goals.contains_key(id),
    ensures
        !m.cancels(request, id) ==> m.after_cancel(request).goals[id] == m.goals[id]
            && (m.after_cancel(request).cancel_pending.contains(id) == m.cancel_pending.contains(id)),
        m.cancels(request, id) && m.goals[id] is Accepted ==> m.after_cancel(request).goals[id] == m.goals[id]
            && m.after_cancel(request).cancel_pending.contains(id),
        m.cancels(request, id) ==> (m.goals[id] matches GoalStateView::Executing { goal, expires_at, .. }
            ==> m.after_cancel(request).goals[id] == (GoalStateView::Executing {
            goal,
            cancel_requested: true,
            expires_at,
        })),
        m.after_cancel(request).infos == m.infos,
        m.after_cancel(request).waiters == m.waiters,
        m.after_cancel(request).instances == m.instances,
{
}

} // verus!
