//! Identifiers, stamps and statuses of action goals.

use vstd::prelude::*;

verus! {

/// The UUID that names a goal, as one 128-bit integer.
#[derive(Clone, Copy, PartialEq, Eq, Structural, Debug, Hash)]
pub struct GoalId {
    pub uuid: u128,
}

impl GoalId {
    /// A goal id is valid unless it is the all-zero UUID, which cancel
    /// requests use to mean "no particular goal".
    pub open spec fn spec_is_valid(self) -> bool {
        self.uuid != 0
    }

    pub fn is_valid(&self) -> (r: bool)
        ensures
            r == self.spec_is_valid(),
    {
        self.uuid != 0
    }
}

/// A `builtin_interfaces/Time` stamp.
#[derive(Clone, Copy, PartialEq, Eq, Structural, Debug)]
pub struct Time {
    pub sec: i32,
    pub nanosec: u32,
}

impl Time {
    /// Stamps are ordered by seconds, then by nanoseconds.
    pub open spec fn spec_le(self, other: Time) -> bool {
        self.sec < other.sec || (self.sec == other.sec && self.nanosec <= other.nanosec)
    }

    pub fn le(&self, other: &Time) -> (r: bool)
        ensures
            r == self.spec_le(*other),
    {
        self.sec < other.sec || (self.sec == other.sec && self.nanosec <= other.nanosec)
    }

    /// The zero stamp, which a cancel request uses to mean "no time bound".
    pub open spec fn spec_is_zero(self) -> bool {
        self.sec == 0 && self.nanosec == 0
    }
}

/// The metadata of a goal: its id and the time it was accepted.
#[derive(Clone, Copy, PartialEq, Eq, Structural, Debug)]
pub struct GoalInfo {
    pub goal_id: GoalId,
    pub stamp: Time,
}

impl GoalInfo {
    pub fn new(goal_id: GoalId, stamp: Time) -> (r: GoalInfo)
        ensures
            r.goal_id == goal_id,
            r.stamp == stamp,
    {
        GoalInfo { goal_id, stamp }
    }
}

/// The status of a goal, as `action_msgs/GoalStatus` defines it.
#[derive(Clone, Copy, PartialEq, Eq, Structural, Debug)]
pub enum GoalStatus {
    Unknown,
    Accepted,
    Executing,
    Canceling,
    Succeeded,
    Canceled,
    Aborted,
}

impl GoalStatus {
    pub open spec fn spec_code(self) -> i8 {
        match self {
            GoalStatus::Unknown => 0,
            GoalStatus::Accepted => 1,
            GoalStatus::Executing => 2,
            GoalStatus::Canceling => 3,
            GoalStatus::Succeeded => 4,
            GoalStatus::Canceled => 5,
            GoalStatus::Aborted => 6,
        }
    }

    /// The wire code of the status.
    pub fn code(&self) -> (r: i8)
        ensures
            r == self.spec_code(),
    {
        match self {
            GoalStatus::Unknown => 0,
            GoalStatus::Accepted => 1,
            GoalStatus::Executing => 2,
            GoalStatus::Canceling => 3,
            GoalStatus::Succeeded => 4,
            GoalStatus::Canceled => 5,
            GoalStatus::Aborted => 6,
        }
    }
}

/// One entry of a status message.
#[derive(Clone, Copy, PartialEq, Eq, Structural, Debug)]
pub struct GoalStatusInfo {
    pub goal_info: GoalInfo,
    pub status: GoalStatus,
}

} // verus!
