//! The decisions of the automatic goal handler: which goal requests start
//! executing. Receiving requests, running handlers and replying stay with the
//! caller.

use vstd::prelude::*;
use crate::error::ActionServerError;
use crate::handle::{Accepted, GoalHandle};
use crate::ids::{GoalId, GoalInfo, Time};
use crate::server::ZActionServer;

verus! {

/// Handles a goal request for `goal_id` received at `now` (stamp `stamp`):
/// a request whose UUID is in use is rejected and changes nothing; any other
/// goal is accepted, and its handle is returned so that the request can be
/// answered before the goal starts executing.
pub fn handle_goal_request<W>(
    server: &mut ZActionServer<W>,
    goal_id: GoalId,
    goal: Vec<u8>,
    now: u64,
    stamp: Time,
) -> (r: Result<GoalHandle<Accepted>, ActionServerError>)
    requires
        old(server).model().next_instance < u64::MAX,
        !old(server).model().goals.contains_key(goal_id) ==> (old(server).model().goal_timeout matches Some(
            t,
        ) ==> now + t <= u64::MAX),
    ensures
        old(server).model().goals.contains_key(goal_id) ==> r == Err::<
            GoalHandle<Accepted>,
            ActionServerError,
        >(ActionServerError::DuplicateGoal) && final(server).model() == old(server).model()
            && final(server).goal_order() == old(server).goal_order(),
        !old(server).model().goals.contains_key(goal_id) ==> {
            let info = GoalInfo { goal_id, stamp };
            &&& r matches Ok(h) && h.spec_goal() == goal && h.spec_info() == info && h.instance()
                == Some(old(server).model().next_instance)
            &&& final(server).model() == old(server).model().after_accept(info, goal@, now)
            &&& final(server).goal_order() == old(server).goal_order().push(goal_id)
        },
{
    if server.goal_manager().goals.contains_key(&goal_id) {
        return Err(ActionServerError::DuplicateGoal);
    }
    let requested = GoalHandle::new(goal_id, goal, stamp);
    Ok(requested.accept(server, now, stamp))
}

} // verus!
