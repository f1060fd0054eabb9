//! The action protocol messages the server answers with, as plain values.
//! Serializing them is the transport's business.

use vstd::prelude::*;
use crate::ids::{GoalId, GoalInfo, GoalStatus};

verus! {

/// The answer to a goal request.
#[derive(Clone, Copy, PartialEq, Eq, Structural, Debug)]
pub struct GoalResponse {
    pub accepted: bool,
    pub stamp_sec: i32,
    pub stamp_nanosec: u32,
}

impl GoalResponse {
    /// The answer that rejects a goal.
    pub fn rejected() -> (r: GoalResponse)
        ensures
            r == (GoalResponse { accepted: false, stamp_sec: 0, stamp_nanosec: 0 }),
    {
        GoalResponse { accepted: false, stamp_sec: 0, stamp_nanosec: 0 }
    }
}

/// A cancel request: a zero goal id and a zero stamp select every goal; a
/// valid goal id selects that goal; a nonzero stamp selects the goals
/// accepted at or before it.
#[derive(Clone, Copy, PartialEq, Eq, Structural, Debug)]
pub struct CancelGoalServiceRequest {
    pub goal_info: GoalInfo,
}

/// The `return_code` of a cancel response that cancels, or could cancel.
pub const CANCEL_ERROR_NONE: i8 = 0;

/// The `return_code` of a cancel response for an unknown goal id.
pub const CANCEL_ERROR_UNKNOWN_GOAL_ID: i8 = 2;

/// The `return_code` of a cancel response for a goal that already finished.
pub const CANCEL_ERROR_GOAL_TERMINATED: i8 = 3;

/// The answer to a cancel request.
pub struct CancelGoalServiceResponse {
    pub return_code: i8,
    pub goals_canceling: Vec<GoalInfo>,
}

/// The answer to a result request.
pub struct GetResultResponse {
    pub status: i8,
    pub result: Vec<u8>,
}

impl GetResultResponse {
    pub fn new(result: Vec<u8>, status: GoalStatus) -> (r: GetResultResponse)
        ensures
            r.status == status.spec_code(),
            r.result == result,
    {
        GetResultResponse { status: status.code(), result }
    }
}

/// A feedback message for one goal.
pub struct FeedbackMessage {
    pub goal_id: GoalId,
    pub feedback: Vec<u8>,
}

} // verus!
