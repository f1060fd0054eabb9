//! The errors of the action server's bookkeeping.

use vstd::prelude::*;

verus! {

#[derive(Clone, Copy, PartialEq, Eq, Structural, Debug)]
pub enum ActionServerError {
    /// The action name is empty.
    EmptyActionName,
    /// A goal with the same UUID exists.
    DuplicateGoal,
    /// The goal is no longer executing under this handle.
    NotExecuting,
}

impl ActionServerError {
    /// The error text.
    pub fn message(&self) -> (r: &'static str)
        ensures
            r@ == match self {
                ActionServerError::EmptyActionName => "Action name cannot be empty"@,
                ActionServerError::DuplicateGoal => "duplicate action goal UUID"@,
                ActionServerError::NotExecuting => "action goal is no longer executing"@,
            },
    {
        match self {
            ActionServerError::EmptyActionName => "Action name cannot be empty",
            ActionServerError::DuplicateGoal => "duplicate action goal UUID",
            ActionServerError::NotExecuting => "action goal is no longer executing",
        }
    }
}

} // verus!
