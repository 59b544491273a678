//! Lifecycle states of an action and the errors the log reports.

use vstd::prelude::*;

verus! {

/// Where an action stands in its lifecycle.
///
/// An action starts as `Running` and may settle once, as `Failed` or as
/// `Success`. A settled action never changes status again.
#[derive(Clone, Copy, Debug, PartialEq, Eq, Structural)]
pub enum ActionStatus {
    Running,
    Failed,
    Success,
}

/// Why the log turned a request down.
#[derive(Clone, Copy, Debug, PartialEq, Eq, Structural)]
pub enum LogError {
    /// The entry has already settled, or the requested status is `Running`.
    InvalidTransition,
    /// No entry has the given id.
    NotFound,
    /// A submission was attempted while the input buffer held no text.
    EmptyInput,
}

impl ActionStatus {
    /// A terminal status is one from which no further transition is allowed.
    pub open spec fn terminal(self) -> bool {
        self != ActionStatus::Running
    }

    /// Tells whether the status is `Failed` or `Success`.
    pub fn is_terminal(&self) -> (r: bool)
        ensures
            r == self.terminal(),
    {
        match self {
            ActionStatus::Running => false,
            ActionStatus::Failed => true,
            ActionStatus::Success => true,
        }
    }
}

/// The one-step rule for a status: it stays as it is, or it leaves `Running`
/// for a terminal status.
pub open spec fn status_step(before: ActionStatus, after: ActionStatus) -> bool {
    after == before || (before == ActionStatus::Running && after.terminal())
}

} // verus!
