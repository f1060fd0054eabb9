use hiroz::driver::handle_goal_request;
use hiroz::error::ActionServerError;
use hiroz::handle::GoalHandle;
use hiroz::ids::{GoalId, GoalInfo, GoalStatus, GoalStatusInfo, Time};
use hiroz::messages::{CancelGoalServiceRequest, GoalResponse};
use hiroz::queue::BoundedQueue;
use hiroz::server::{ResultAnswer, ResultError, ZActionServer};
use hiroz::state::ServerGoalState;

fn t(sec: i32) -> Time {
    Time { sec, nanosec: 0 }
}

fn id(uuid: u128) -> GoalId {
    GoalId { uuid }
}

fn cancel(goal: u128, stamp: Time) -> CancelGoalServiceRequest {
    CancelGoalServiceRequest { goal_info: GoalInfo { goal_id: id(goal), stamp } }
}

#[test]
fn goal_status_codes() {
    let codes: Vec<i8> = [
        GoalStatus::Unknown,
        GoalStatus::Accepted,
        GoalStatus::Executing,
        GoalStatus::Canceling,
        GoalStatus::Succeeded,
        GoalStatus::Canceled,
        GoalStatus::Aborted,
    ]
    .iter()
    .map(|s| s.code())
    .collect();
    assert_eq!(codes, vec![0, 1, 2, 3, 4, 5, 6]);
}

#[test]
fn duplicate_uuid_is_rejected_without_replacing_state() {
    let mut server: ZActionServer<u8> = ZActionServer::new(10, None, None);
    let first = GoalHandle::new(id(1), vec![1], t(1)).try_accept(&mut server, 0, t(1)).unwrap();
    assert_eq!(first.response(), GoalResponse { accepted: true, stamp_sec: 1, stamp_nanosec: 0 });
    let second = GoalHandle::new(id(1), vec![2], t(2)).try_accept(&mut server, 5, t(2));
    assert_eq!(second.err(), Some(ActionServerError::DuplicateGoal));
    match server.goal_manager().goals.get(&id(1)) {
        Some(ServerGoalState::Accepted { goal, timestamp, .. }) => {
            assert_eq!(goal, &vec![1]);
            assert_eq!(*timestamp, 0);
        },
        _ => panic!("existing goal was replaced"),
    }
    let rejected = GoalHandle::new(id(1), vec![2], t(2)).reject();
    assert_eq!(rejected, GoalResponse { accepted: false, stamp_sec: 0, stamp_nanosec: 0 });
}

#[test]
fn goal_request_handler_accepts_and_executes_fresh_goals() {
    let mut server: ZActionServer<u8> = ZActionServer::new(10, Some(100), None);
    let h = handle_goal_request(&mut server, id(3), vec![3], 50, t(4)).unwrap();
    assert_eq!(h.info.goal_id, id(3));
    assert_eq!(h.info.stamp, t(4));
    assert_eq!(h.response(), GoalResponse { accepted: true, stamp_sec: 4, stamp_nanosec: 0 });
    assert!(matches!(
        server.goal_manager().goals.get(&id(3)),
        Some(ServerGoalState::Accepted { expires_at: Some(150), .. })
    ));
    let _executing = h.execute(&mut server);
    assert!(matches!(
        server.goal_manager().goals.get(&id(3)),
        Some(ServerGoalState::Executing { cancel_requested: false, expires_at: Some(150), .. })
    ));
    let dup = handle_goal_request(&mut server, id(3), vec![4], 60, t(5));
    assert_eq!(dup.err(), Some(ActionServerError::DuplicateGoal));
}

#[test]
fn late_completion_needs_no_deadline_and_changes_nothing() {
    let mut server: ZActionServer<u8> = ZActionServer::new(10, None, None);
    let h = GoalHandle::new(id(1), vec![], t(1)).accept(&mut server, 0, t(1)).execute(&mut server);
    server.goal_manager_mut().goals.insert(
        id(1),
        ServerGoalState::Terminated { result: vec![5], status: GoalStatus::Aborted, timestamp: 0, expires_at: Some(10) },
    );
    assert!(!server.can_terminate(id(1), h.acceptance()));
    // No deadline is computed, so a time at the end of the clock's range is fine.
    assert!(h.succeed(&mut server, vec![9], u64::MAX).is_none());
    assert!(matches!(
        server.goal_manager().goals.get(&id(1)),
        Some(ServerGoalState::Terminated { status: GoalStatus::Aborted, expires_at: Some(10), .. })
    ));
}

#[test]
fn deadline_predicates() {
    let mut server: ZActionServer<u8> = ZActionServer::new(u64::MAX, Some(5), Some(vec![]));
    assert!(!server.expiry_sets_deadline(u64::MAX));
    // With no goal to abort, an expiry pass at any time needs no deadline.
    assert!(server.expire_goals(u64::MAX).0.is_empty());
    let h = GoalHandle::new(id(1), vec![], t(1)).accept(&mut server, 0, t(1));
    assert!(!server.expiry_sets_deadline(4));
    assert!(server.expiry_sets_deadline(5));
    assert!(server.abort_sets_deadline(id(1), 0));
    assert!(!server.abort_sets_deadline(id(1), 1));
    assert!(server.can_terminate(id(1), h.acceptance()));
    assert!(!server.can_terminate(id(2), h.acceptance()));
}

#[test]
fn new_result_timeout_applies_to_later_results() {
    let mut server: ZActionServer<u8> = ZActionServer::new(10, None, None);
    let a = GoalHandle::new(id(1), vec![], t(1)).accept(&mut server, 0, t(1)).execute(&mut server);
    let b = GoalHandle::new(id(2), vec![], t(2)).accept(&mut server, 0, t(2)).execute(&mut server);
    assert!(a.succeed(&mut server, vec![], 1).is_some());
    server.set_result_timeout(50);
    assert!(b.succeed(&mut server, vec![], 2).is_some());
    assert!(matches!(server.goal_manager().goals.get(&id(1)), Some(ServerGoalState::Terminated { expires_at: Some(11), .. })));
    assert!(matches!(server.goal_manager().goals.get(&id(2)), Some(ServerGoalState::Terminated { expires_at: Some(52), .. })));
}

#[test]
fn request_cancel_only_reaches_executing_goals() {
    let mut server: ZActionServer<u8> = ZActionServer::new(10, None, None);
    let accepted = GoalHandle::new(id(1), vec![], t(1)).accept(&mut server, 0, t(1));
    assert!(!server.request_cancel(id(1)));
    assert!(!server.request_cancel(id(9)));
    let executing = accepted.execute(&mut server);
    assert!(!executing.is_cancel_requested(&server));
    assert!(server.request_cancel(id(1)));
    assert!(executing.is_cancel_requested(&server));
}

#[test]
fn status_list_reports_each_goal_in_order() {
    let mut server: ZActionServer<u8> = ZActionServer::new(10, None, None);
    let a = GoalHandle::new(id(1), vec![], t(1)).accept(&mut server, 0, t(1));
    let b = GoalHandle::new(id(2), vec![], t(2)).accept(&mut server, 0, t(2)).execute(&mut server);
    let c = GoalHandle::new(id(3), vec![], t(3)).accept(&mut server, 0, t(3)).execute(&mut server);
    assert!(c.succeed(&mut server, vec![1], 1).is_some());
    server.goal_manager_mut().goals.insert(id(4), ServerGoalState::Canceling { goal: vec![] });
    server.request_cancel(id(2));
    let status = server.status_list(t(9));
    assert_eq!(
        status,
        vec![
            GoalStatusInfo { goal_info: GoalInfo { goal_id: id(1), stamp: t(1) }, status: GoalStatus::Accepted },
            GoalStatusInfo { goal_info: GoalInfo { goal_id: id(2), stamp: t(2) }, status: GoalStatus::Canceling },
            GoalStatusInfo { goal_info: GoalInfo { goal_id: id(3), stamp: t(3) }, status: GoalStatus::Succeeded },
            GoalStatusInfo { goal_info: GoalInfo { goal_id: id(4), stamp: t(9) }, status: GoalStatus::Canceling },
        ]
    );
    let _ = (a, b);
}

#[test]
fn cancel_by_id_reaches_accepted_and_executing_goals() {
    let mut server: ZActionServer<u8> = ZActionServer::new(10, None, None);
    let accepted = GoalHandle::new(id(1), vec![], t(1)).accept(&mut server, 0, t(1));
    let executing = GoalHandle::new(id(2), vec![], t(2)).accept(&mut server, 0, t(2)).execute(&mut server);
    let r = server.handle_cancel_request(&cancel(1, t(0)));
    assert_eq!(r.return_code, 0);
    assert_eq!(r.goals_canceling, vec![GoalInfo { goal_id: id(1), stamp: t(1) }]);
    assert!(!executing.is_cancel_requested(&server));
    // The pending cancel request becomes the stop signal when the goal executes.
    assert_eq!(server.status_list(t(0))[0].status, GoalStatus::Canceling);
    let exec1 = accepted.execute(&mut server);
    assert!(exec1.is_cancel_requested(&server));
    let r = server.handle_cancel_request(&cancel(2, t(0)));
    assert_eq!(r.goals_canceling, vec![GoalInfo { goal_id: id(2), stamp: t(2) }]);
    assert!(executing.is_cancel_requested(&server));
}

#[test]
fn cancel_return_codes() {
    let mut server: ZActionServer<u8> = ZActionServer::new(10, None, None);
    let done = GoalHandle::new(id(1), vec![], t(1)).accept(&mut server, 0, t(1)).execute(&mut server);
    assert!(done.succeed(&mut server, vec![], 1).is_some());
    let terminated = server.handle_cancel_request(&cancel(1, t(0)));
    assert_eq!(terminated.return_code, 3);
    assert!(terminated.goals_canceling.is_empty());
    let unknown = server.handle_cancel_request(&cancel(7, t(0)));
    assert_eq!(unknown.return_code, 2);
    let all = server.handle_cancel_request(&cancel(0, t(0)));
    assert_eq!(all.return_code, 0);
    assert!(all.goals_canceling.is_empty());
}

#[test]
fn cancel_all_and_cancel_by_time() {
    let mut server: ZActionServer<u8> = ZActionServer::new(10, None, None);
    let g1 = GoalHandle::new(id(1), vec![], t(1)).accept(&mut server, 0, t(1)).execute(&mut server);
    let g2 = GoalHandle::new(id(2), vec![], t(5)).accept(&mut server, 0, t(5)).execute(&mut server);
    let by_time = server.handle_cancel_request(&cancel(0, Time { sec: 3, nanosec: 0 }));
    assert_eq!(by_time.goals_canceling, vec![GoalInfo { goal_id: id(1), stamp: t(1) }]);
    assert!(g1.is_cancel_requested(&server));
    assert!(!g2.is_cancel_requested(&server));
    let all = server.handle_cancel_request(&cancel(0, t(0)));
    assert_eq!(all.goals_canceling.len(), 2);
    assert!(g2.is_cancel_requested(&server));
}

#[test]
fn goals_without_metadata_are_not_canceled() {
    let mut server: ZActionServer<u8> = ZActionServer::new(10, None, None);
    server.goal_manager_mut().goals.insert(
        id(1),
        ServerGoalState::Executing { goal: vec![], cancel_requested: false, expires_at: None },
    );
    let r = server.handle_cancel_request(&cancel(0, t(0)));
    assert!(r.goals_canceling.is_empty());
    assert_eq!(r.return_code, 0);
}

#[test]
fn try_process_cancel_drains_every_pending_request() {
    let mut server: ZActionServer<u8> = ZActionServer::new(10, None, None);
    let a = GoalHandle::new(id(1), vec![], t(1)).accept(&mut server, 0, t(1)).execute(&mut server);
    let b = GoalHandle::new(id(2), vec![], t(2)).accept(&mut server, 0, t(2)).execute(&mut server);
    let mut pending = BoundedQueue::new(8);
    pending.push((cancel(2, t(0)), 20u32));
    pending.push((cancel(9, t(0)), 90u32));
    let (stop, responses) = a.try_process_cancel(&mut server, &mut pending);
    assert!(!stop);
    assert!(pending.is_empty());
    assert_eq!(responses.len(), 2);
    assert_eq!(responses[0].1, 20);
    assert_eq!(responses[0].0.return_code, 0);
    assert_eq!(responses[1].1, 90);
    assert_eq!(responses[1].0.return_code, 2);
    // The request for the other goal was not lost.
    assert!(b.is_cancel_requested(&server));
}

#[test]
fn result_requests() {
    let mut server: ZActionServer<u8> = ZActionServer::new(10, None, None);
    match server.request_result(id(5), 1) {
        ResultAnswer::Failed(e) => {
            assert_eq!(e, ResultError::UnknownGoal);
            assert_eq!(e.message(), "Unknown goal");
        },
        _ => panic!("unknown goal must fail without a default result"),
    }
    match server.answer_abandoned_request() {
        ResultAnswer::Failed(e) => {
            assert_eq!(e, ResultError::Expired);
            assert_eq!(e.message(), "Goal result expired or server stopped");
        },
        _ => panic!("abandoned request must fail without a default result"),
    }
    let h = GoalHandle::new(id(5), vec![], t(1)).accept(&mut server, 0, t(1)).execute(&mut server);
    assert!(matches!(server.request_result(id(5), 1), ResultAnswer::Waiting));
    assert!(matches!(server.request_result(id(5), 2), ResultAnswer::Waiting));
    let delivery = h.abort(&mut server, vec![4, 2], 3).unwrap();
    assert_eq!(delivery.waiters, vec![1, 2]);
    assert_eq!(delivery.result, vec![4, 2]);
    assert_eq!(delivery.status, GoalStatus::Aborted);
    match server.request_result(id(5), 3) {
        ResultAnswer::Reply(resp) => {
            assert_eq!(resp.status, 6);
            assert_eq!(resp.result, vec![4, 2]);
        },
        _ => panic!("finished goal must answer at once"),
    }
    assert_eq!(server.goal_manager().result_futures.len(), 0);
}

#[test]
fn unknown_goal_gets_the_default_result() {
    let mut server: ZActionServer<u8> = ZActionServer::new(10, None, Some(vec![0]));
    match server.request_result(id(5), 1) {
        ResultAnswer::Reply(resp) => {
            assert_eq!(resp.status, 0);
            assert_eq!(resp.result, vec![0]);
        },
        _ => panic!("default result expected"),
    }
    assert!(matches!(server.answer_abandoned_request(), ResultAnswer::Reply(_)));
}

#[test]
fn feedback_only_while_executing() {
    let mut server: ZActionServer<u8> = ZActionServer::new(10, None, None);
    let h = GoalHandle::new(id(1), vec![], t(1)).accept(&mut server, 0, t(1)).execute(&mut server);
    let msg = h.publish_feedback(&server, vec![7]).unwrap();
    assert_eq!(msg.goal_id, id(1));
    assert_eq!(msg.feedback, vec![7]);
    server.goal_manager_mut().goals.insert(
        id(1),
        ServerGoalState::Terminated { result: vec![], status: GoalStatus::Succeeded, timestamp: 0, expires_at: None },
    );
    let err = h.publish_feedback(&server, vec![8]).err();
    assert_eq!(err, Some(ActionServerError::NotExecuting));
    assert_eq!(ActionServerError::NotExecuting.message(), "action goal is no longer executing");
}

#[test]
fn terminal_state_is_final() {
    let mut server: ZActionServer<u8> = ZActionServer::new(10, None, None);
    let h = GoalHandle::new(id(1), vec![], t(1)).accept(&mut server, 0, t(1)).execute(&mut server);
    assert!(h.is_current(&server));
    assert!(h.succeed(&mut server, vec![1], 2).is_some());
    match server.goal_manager().goals.get(&id(1)) {
        Some(ServerGoalState::Terminated { result, status, timestamp, expires_at }) => {
            assert_eq!(result, &vec![1]);
            assert_eq!(*status, GoalStatus::Succeeded);
            assert_eq!(*timestamp, 2);
            assert_eq!(*expires_at, Some(12));
        },
        _ => panic!("goal must be terminated"),
    }
    let r = server.handle_cancel_request(&cancel(1, t(0)));
    assert_eq!(r.return_code, 3);
}

#[test]
fn result_timeout_and_driver_flag() {
    let mut server: ZActionServer<u8> = ZActionServer::new(10, None, None);
    assert_eq!(server.result_timeout(), 10);
    server.set_result_timeout(30);
    assert_eq!(server.result_timeout(), 30);
    assert!(!server.driver_started());
    server.start_driver();
    assert!(server.driver_started());
}

#[test]
fn goal_id_validity_and_stamp_order() {
    assert!(!GoalId { uuid: 0 }.is_valid());
    assert!(GoalId { uuid: 1 }.is_valid());
    assert!(Time { sec: 1, nanosec: 5 }.le(&Time { sec: 1, nanosec: 5 }));
    assert!(Time { sec: 1, nanosec: 5 }.le(&Time { sec: 2, nanosec: 0 }));
    assert!(!Time { sec: 2, nanosec: 0 }.le(&Time { sec: 1, nanosec: 9 }));
}

#[test]
fn expiry_keeps_the_order_of_the_remaining_goals() {
    let mut server: ZActionServer<u8> = ZActionServer::new(100, Some(10), None);
    for (uuid, now) in [(1u128, 0u64), (2, 5), (3, 5)] {
        server.accept_goal(GoalInfo { goal_id: id(uuid), stamp: t(0) }, &vec![], now);
    }
    let (expired, _) = server.expire_goals(12);
    assert_eq!(expired, vec![id(1)]);
    let order: Vec<GoalId> = server.status_list(t(0)).iter().map(|s| s.goal_info.goal_id).collect();
    assert_eq!(order, vec![id(2), id(3)]);
}

#[test]
fn aborting_an_unfinished_goal_keeps_the_order_of_the_others() {
    let mut server: ZActionServer<u8> = ZActionServer::new(100, None, None);
    let mut instances = Vec::new();
    for uuid in 1u128..=3 {
        instances.push(server.accept_goal(GoalInfo { goal_id: id(uuid), stamp: t(0) }, &vec![], 0).unwrap());
    }
    assert!(server.abort_unfinished(id(2), instances[1], 1).is_none());
    let order: Vec<GoalId> = server.status_list(t(0)).iter().map(|s| s.goal_info.goal_id).collect();
    assert_eq!(order, vec![id(1), id(3)]);
}

#[test]
fn goal_manager_mut_hands_out_the_current_tables() {
    let mut server: ZActionServer<u8> = ZActionServer::new(42, Some(7), None);
    server.accept_goal(GoalInfo { goal_id: id(9), stamp: t(0) }, &vec![], 0);
    let manager = server.goal_manager_mut();
    assert_eq!(manager.result_timeout, 42);
    assert_eq!(manager.goal_timeout, Some(7));
    assert!(manager.goals.contains_key(&id(9)));
}
