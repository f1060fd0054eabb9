//! Goal expiration, driven by explicit times. Where a server would also run
//! its periodic background pass, the test makes that pass itself.

use hiroz::handle::GoalHandle;
use hiroz::ids::{GoalId, GoalStatus, Time};
use hiroz::server::{ResultAnswer, ZActionServer};
use hiroz::state::ServerGoalState;

const SECOND: u64 = 1_000_000_000;
const MILLI: u64 = 1_000_000;

fn stamp() -> Time {
    Time { sec: 1, nanosec: 0 }
}

fn goal_count<W>(server: &ZActionServer<W>) -> usize {
    server.goal_manager().goals.len()
}

/// The server's periodic background pass, run at `now`.
fn background_pass<W>(server: &mut ZActionServer<W>, now: u64) {
    server.expire_goals(now);
}

#[test]
fn test_terminated_goal_expiration() {
    let start = 5 * SECOND;
    let mut server: ZActionServer<u32> = ZActionServer::new(SECOND, None, None);
    let goal_id = GoalId { uuid: 11 };
    server.goal_manager_mut().goals.insert(
        goal_id,
        ServerGoalState::Terminated {
            result: vec![0, 1, 1, 2, 3, 5],
            status: GoalStatus::Succeeded,
            timestamp: start,
            expires_at: Some(start + SECOND),
        },
    );
    assert_eq!(goal_count(&server), 1);
    let now = start + 1200 * MILLI;
    background_pass(&mut server, start + 1100 * MILLI);
    let (expired, _) = server.expire_goals(now);
    assert!(expired.is_empty());
    assert_eq!(goal_count(&server), 0);
}

#[test]
fn test_executing_goal_expiration_with_timeout() {
    let start = 5 * SECOND;
    let mut server: ZActionServer<u32> = ZActionServer::new(10 * SECOND, Some(SECOND), None);
    let goal_id = GoalId { uuid: 12 };
    server.goal_manager_mut().goals.insert(
        goal_id,
        ServerGoalState::Executing {
            goal: vec![5],
            cancel_requested: false,
            expires_at: Some(start + SECOND),
        },
    );
    assert_eq!(goal_count(&server), 1);
    background_pass(&mut server, start + 1100 * MILLI);
    let (expired, _) = server.expire_goals(start + 1200 * MILLI);
    assert!(expired.is_empty());
    assert_eq!(goal_count(&server), 0);
}

#[test]
fn test_accepted_goal_expiration_with_timeout() {
    let start = 5 * SECOND;
    let mut server: ZActionServer<u32> = ZActionServer::new(10 * SECOND, Some(SECOND), None);
    let goal_id = GoalId { uuid: 13 };
    server.goal_manager_mut().goals.insert(
        goal_id,
        ServerGoalState::Accepted { goal: vec![5], timestamp: start, expires_at: Some(start + SECOND) },
    );
    assert_eq!(goal_count(&server), 1);
    background_pass(&mut server, start + 1100 * MILLI);
    let (expired, _) = server.expire_goals(start + 1200 * MILLI);
    assert!(expired.is_empty());
    assert_eq!(goal_count(&server), 0);
}

#[test]
fn test_no_expiration_without_timeout() {
    let start = 5 * SECOND;
    let mut server: ZActionServer<u32> = ZActionServer::new(10 * SECOND, None, None);
    let goal_id = GoalId { uuid: 14 };
    server.goal_manager_mut().goals.insert(
        goal_id,
        ServerGoalState::Executing { goal: vec![5], cancel_requested: false, expires_at: None },
    );
    background_pass(&mut server, start + 1100 * MILLI);
    let (expired, _) = server.expire_goals(start + 1200 * MILLI);
    assert_eq!(expired.len(), 0);
    assert_eq!(goal_count(&server), 1);
}

#[test]
fn test_multiple_goals_expiration() {
    let start = 5 * SECOND;
    let mut server: ZActionServer<u32> = ZActionServer::new(SECOND, Some(SECOND), None);
    let (id1, id2, id3) = (GoalId { uuid: 21 }, GoalId { uuid: 22 }, GoalId { uuid: 23 });
    let expires = start + SECOND;
    let manager = server.goal_manager_mut();
    manager.goals.insert(
        id1,
        ServerGoalState::Terminated {
            result: vec![0, 1],
            status: GoalStatus::Succeeded,
            timestamp: start,
            expires_at: Some(expires),
        },
    );
    manager.goals.insert(
        id2,
        ServerGoalState::Executing { goal: vec![3], cancel_requested: false, expires_at: Some(expires) },
    );
    manager.goals.insert(
        id3,
        ServerGoalState::Accepted { goal: vec![2], timestamp: start, expires_at: Some(expires) },
    );
    assert_eq!(goal_count(&server), 3);
    background_pass(&mut server, start + 1100 * MILLI);
    let (expired, _) = server.expire_goals(start + 1200 * MILLI);
    assert!(expired.is_empty(), "background service already expired all goals");
    assert_eq!(goal_count(&server), 0);
}

fn default_result_server(goal_timeout: Option<u64>, result_timeout: u64) -> ZActionServer<u32> {
    // The action's default result is an empty sequence.
    ZActionServer::new(result_timeout, goal_timeout, Some(vec![]))
}

fn result_of(server: &mut ZActionServer<u32>, id: GoalId) -> (i8, Vec<u8>) {
    match server.request_result(id, 0) {
        ResultAnswer::Reply(resp) => (resp.status, resp.result),
        ResultAnswer::Waiting => panic!("goal has not finished"),
        ResultAnswer::Failed(e) => panic!("{}", e.message()),
    }
}

#[test]
fn test_manual_timeout_signals_handler_and_retains_aborted_result() {
    let start = 5 * SECOND;
    let mut server = default_result_server(Some(100 * MILLI), 60 * SECOND);
    let id = GoalId { uuid: 4 };
    let executing = GoalHandle::new(id, vec![4], stamp())
        .try_accept(&mut server, start, stamp())
        .unwrap()
        .execute(&mut server);
    assert!(matches!(server.request_result(id, 1), ResultAnswer::Waiting));
    background_pass(&mut server, start + 100 * MILLI);
    let (status, result) = result_of(&mut server, id);
    assert_eq!(status, GoalStatus::Aborted.code());
    assert!(result.is_empty());
    assert!(executing.is_cancel_requested(&server), "timed-out manual handler must receive a stop signal");
    assert_eq!(result_of(&mut server, id).0, GoalStatus::Aborted.code());
    assert!(server.expire_goals(start + 200 * MILLI).0.is_empty(), "result must retain its own timeout");
    assert!(executing.succeed(&mut server, vec![99], start + 300 * MILLI).is_none());
    let (status, result) = result_of(&mut server, id);
    assert_eq!(status, GoalStatus::Aborted.code());
    assert!(result.is_empty(), "late completion must preserve aborted result");
    let now = start + 400 * MILLI;
    let state = server.goal_manager_mut().goals.remove(&id);
    if let Some(ServerGoalState::Terminated { result, status, timestamp, .. }) = state {
        server.goal_manager_mut().goals.insert(
            id,
            ServerGoalState::Terminated { result, status, timestamp, expires_at: Some(now) },
        );
    }
    server.expire_goals(now);
    assert_eq!(result_of(&mut server, id).0, GoalStatus::Unknown.code());
}

#[test]
fn test_expiry_transitions_notify_all_waiters_and_preserve_future_goals() {
    let now = 5 * SECOND;
    let mut server = default_result_server(None, 60 * SECOND);
    let future_id = GoalId { uuid: 1000 };
    let manager = server.goal_manager_mut();
    for k in 0..128u128 {
        let id = GoalId { uuid: k + 1 };
        manager.goals.insert(
            id,
            ServerGoalState::Accepted { goal: vec![1], timestamp: now, expires_at: Some(now) },
        );
        manager.result_futures.insert(id, vec![k as u32]);
    }
    manager.goals.insert(
        future_id,
        ServerGoalState::Accepted { goal: vec![2], timestamp: now, expires_at: Some(now + 60 * SECOND) },
    );
    let (expired, deliveries) = server.expire_goals(now);
    assert_eq!(expired.len(), 128);
    assert_eq!(deliveries.len(), 128);
    for (k, delivery) in deliveries.iter().enumerate() {
        assert_eq!(delivery.goal_id, GoalId { uuid: k as u128 + 1 });
        assert_eq!(delivery.waiters, vec![k as u32]);
        assert_eq!(delivery.status, GoalStatus::Aborted);
        assert!(delivery.result.is_empty());
    }
    let manager = server.goal_manager();
    assert_eq!(manager.goals.len(), 129);
    assert!(matches!(manager.goals.get(&future_id), Some(ServerGoalState::Accepted { .. })));
    let aborted = (0..manager.goals.len())
        .filter(|&i| {
            matches!(
                manager.goals.value_at(i),
                ServerGoalState::Terminated { status: GoalStatus::Aborted, .. }
            )
        })
        .count();
    assert_eq!(aborted, 128);
    assert_eq!(manager.result_futures.len(), 0);
}

/// Advances both deadlines of goal `id` explicitly.
fn expire_instance(server: &mut ZActionServer<u32>, id: GoalId, now: u64) {
    for _ in 0..2 {
        let state = server.goal_manager_mut().goals.remove(&id).expect("goal exists before expiration");
        let state = match state {
            ServerGoalState::Accepted { goal, timestamp, .. } => {
                ServerGoalState::Accepted { goal, timestamp, expires_at: Some(now) }
            },
            ServerGoalState::Executing { goal, cancel_requested, .. } => {
                ServerGoalState::Executing { goal, cancel_requested, expires_at: Some(now) }
            },
            ServerGoalState::Terminated { result, status, timestamp, .. } => {
                ServerGoalState::Terminated { result, status, timestamp, expires_at: Some(now) }
            },
            ServerGoalState::Canceling { .. } => panic!("unexpected canceling state"),
        };
        server.goal_manager_mut().goals.insert(id, state);
        server.expire_goals(now);
    }
    assert!(!server.goal_manager().goals.contains_key(&id));
}

#[test]
fn test_reused_uuid_isolated_from_stale_accepted_and_executing_handles() {
    let mut server = default_result_server(None, 10 * SECOND);
    let mut now = 5 * SECOND;
    for execute_first in [false, true] {
        let id = GoalId { uuid: 99 + execute_first as u128 };
        let first = GoalHandle::new(id, vec![1], stamp()).try_accept(&mut server, now, stamp());
        assert!(first.is_ok());
        let first = first.unwrap();
        assert!(first.response().accepted);
        let (old_accepted, old_executing) = if execute_first {
            (None, Some(first.execute(&mut server)))
        } else {
            (Some(first), None)
        };
        now += SECOND;
        expire_instance(&mut server, id, now);
        let replacement = GoalHandle::new(id, vec![2], stamp()).try_accept(&mut server, now, stamp());
        assert!(replacement.is_ok(), "UUID may be accepted again after retention expires");
        let replacement = replacement.unwrap();
        assert!(replacement.response().accepted);
        let stale = match old_executing {
            Some(h) => h,
            None => old_accepted.unwrap().execute(&mut server),
        };
        assert!(stale.is_cancel_requested(&server));
        let mut pending = hiroz::queue::BoundedQueue::<(hiroz::messages::CancelGoalServiceRequest, u32)>::new(4);
        assert!(stale.try_process_cancel(&mut server, &mut pending).0);
        assert!(stale.publish_feedback(&server, vec![99]).is_err());
        if execute_first {
            assert!(stale.succeed(&mut server, vec![99], now).is_none());
        } else {
            assert!(stale.canceled(&mut server, vec![99], now).is_none());
        }
        match server.goal_manager().goals.get(&id) {
            Some(ServerGoalState::Accepted { goal, .. }) => {
                assert_eq!(goal, &vec![2], "stale execute must not restore the first payload")
            },
            _ => panic!("stale handle altered replacement state"),
        }
        let executing = replacement.execute(&mut server);
        assert!(!executing.is_cancel_requested(&server));
        assert!(executing.publish_feedback(&server, vec![2]).is_ok());
        assert!(executing.succeed(&mut server, vec![2], now).is_some());
        let (status, result) = result_of(&mut server, id);
        assert_eq!(status, GoalStatus::Succeeded.code());
        assert_eq!(result, vec![2]);
    }
}

#[test]
fn expiry_is_idempotent_at_the_same_time() {
    let now = 5 * SECOND;
    let mut server = default_result_server(Some(SECOND), 10 * SECOND);
    let id = GoalId { uuid: 7 };
    let _h = GoalHandle::new(id, vec![1], stamp()).accept(&mut server, now, stamp());
    let (first, deliveries) = server.expire_goals(now + SECOND);
    assert_eq!(first, vec![id]);
    assert_eq!(deliveries.len(), 1);
    let (second, deliveries) = server.expire_goals(now + SECOND);
    assert!(second.is_empty());
    assert!(deliveries.is_empty());
    assert_eq!(server.goal_manager().goals.len(), 1);
}

#[test]
fn expiry_with_zero_result_timeout_forgets_aborted_goals_on_the_next_pass() {
    let now = 5 * SECOND;
    let mut server = default_result_server(Some(SECOND), 0);
    let id = GoalId { uuid: 8 };
    let _h = GoalHandle::new(id, vec![1], stamp()).accept(&mut server, now, stamp());
    assert_eq!(server.expire_goals(now + SECOND).0, vec![id]);
    assert_eq!(server.expire_goals(now + SECOND).0, vec![id]);
    assert_eq!(server.goal_manager().goals.len(), 0);
}

#[test]
fn expired_ids_follow_acceptance_order() {
    let now = 5 * SECOND;
    let mut server: ZActionServer<u32> = ZActionServer::new(SECOND, Some(SECOND), None);
    for uuid in [30u128, 10, 20] {
        let _ = GoalHandle::new(GoalId { uuid }, vec![], stamp()).accept(&mut server, now, stamp());
    }
    let _late = GoalHandle::new(GoalId { uuid: 40 }, vec![], stamp()).accept(&mut server, now + 1, stamp());
    let (expired, deliveries) = server.expire_goals(now + SECOND);
    assert_eq!(expired, vec![GoalId { uuid: 30 }, GoalId { uuid: 10 }, GoalId { uuid: 20 }]);
    // Without a default result, expired active goals are removed and owe no result.
    assert!(deliveries.is_empty());
    assert_eq!(server.goal_manager().goals.len(), 1);
    assert!(server.goal_manager().goals.contains_key(&GoalId { uuid: 40 }));
}

#[test]
fn canceling_goals_never_expire() {
    let now = 5 * SECOND;
    let mut server: ZActionServer<u32> = ZActionServer::new(SECOND, Some(SECOND), None);
    let id = GoalId { uuid: 3 };
    server.goal_manager_mut().goals.insert(id, ServerGoalState::Canceling { goal: vec![] });
    assert!(server.expire_goals(now * 100).0.is_empty());
    assert_eq!(server.goal_manager().goals.len(), 1);
}

#[test]
fn abort_unfinished_retires_only_the_owning_acceptance() {
    let now = 5 * SECOND;
    let mut server = default_result_server(None, 10 * SECOND);
    let id = GoalId { uuid: 5 };
    let executing = GoalHandle::new(id, vec![1], stamp())
        .accept(&mut server, now, stamp())
        .execute(&mut server);
    assert_eq!(server.accepted_count(), 1);
    assert!(matches!(server.request_result(id, 77), ResultAnswer::Waiting));
    // An acceptance number that never owned the goal changes nothing.
    assert!(server.abort_unfinished(id, 5, now).is_none());
    assert!(!executing.is_cancel_requested(&server));
    let delivery = server.abort_unfinished(id, 0, now).expect("owner retires its goal");
    assert_eq!(delivery.waiters, vec![77]);
    assert_eq!(delivery.status, GoalStatus::Aborted);
    assert!(executing.is_cancel_requested(&server));
    assert!(server.abort_unfinished(id, 0, now).is_none());
}

#[test]
fn later_pass_before_the_next_deadline_changes_nothing() {
    let now = 5 * SECOND;
    let mut server = default_result_server(Some(SECOND), 10 * SECOND);
    let id = GoalId { uuid: 9 };
    let other = GoalId { uuid: 10 };
    let _h = GoalHandle::new(id, vec![1], stamp()).accept(&mut server, now, stamp());
    let _o = GoalHandle::new(other, vec![1], stamp()).accept(&mut server, now + 5 * SECOND, stamp());
    assert_eq!(server.expire_goals(now + SECOND).0, vec![id]);
    // The next deadline is the other goal's, at now + 6 s.
    assert!(server.expire_goals(now + 5 * SECOND).0.is_empty());
    assert_eq!(server.goal_manager().goals.len(), 2);
    assert_eq!(server.expire_goals(now + 6 * SECOND).0, vec![other]);
}
