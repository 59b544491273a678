//! The mathematical model that the contracts of this crate speak of.
//!
//! A log is a sequence of [`ActionView`]s; every operation on the log is a
//! function from one such sequence to the next.

use vstd::prelude::*;
use crate::status::{ActionStatus, LogError};

verus! {

/// What an action is, as plain mathematical values.
pub struct ActionView {
    pub command: Seq<char>,
    pub output: Seq<Seq<char>>,
    pub status: ActionStatus,
}

/// The text of each string of `v`, in order.
pub open spec fn texts(v: Seq<String>) -> Seq<Seq<char>> {
    Seq::new(v.len(), |i: int| v[i]@)
}

/// A newly submitted action: no output, status `Running`.
pub open spec fn fresh(command: Seq<char>) -> ActionView {
    ActionView { command, output: Seq::empty(), status: ActionStatus::Running }
}

/// `a` with `line` added after its output.
pub open spec fn with_line(a: ActionView, line: Seq<char>) -> ActionView {
    ActionView { output: a.output.push(line), ..a }
}

/// `a` with its status replaced.
pub open spec fn with_status(a: ActionView, status: ActionStatus) -> ActionView {
    ActionView { status, ..a }
}

/// Whether an action in state `a` may settle as `status`: it must still be
/// running, and `status` must be terminal.
pub open spec fn may_settle(a: ActionView, status: ActionStatus) -> bool {
    a.status == ActionStatus::Running && status.terminal()
}

/// What `update_output(id, line)` answers on `log`.
pub open spec fn output_result(log: Seq<ActionView>, id: int) -> Result<(), LogError> {
    if 0 <= id < log.len() {
        Ok(())
    } else {
        Err(LogError::NotFound)
    }
}

/// The log after `update_output(id, line)`.
pub open spec fn output_log(log: Seq<ActionView>, id: int, line: Seq<char>) -> Seq<ActionView> {
    if 0 <= id < log.len() {
        log.update(id, with_line(log[id], line))
    } else {
        log
    }
}

/// What `set_status(id, status)` answers on `log`. A request for `Running` is
/// an invalid transition whatever the id; otherwise an unknown id is not
/// found; otherwise the entry must still be running.
pub open spec fn status_result(log: Seq<ActionView>, id: int, status: ActionStatus) -> Result<
    (),
    LogError,
> {
    if !status.terminal() {
        Err(LogError::InvalidTransition)
    } else if !(0 <= id < log.len()) {
        Err(LogError::NotFound)
    } else if log[id].status != ActionStatus::Running {
        Err(LogError::InvalidTransition)
    } else {
        Ok(())
    }
}

/// The log after `set_status(id, status)`: changed only where the request is
/// accepted.
pub open spec fn status_log(log: Seq<ActionView>, id: int, status: ActionStatus) -> Seq<
    ActionView,
> {
    if status_result(log, id, status).is_ok() {
        log.update(id, with_status(log[id], status))
    } else {
        log
    }
}

/// What the application state is, as plain mathematical values: the pending
/// input text and the log.
pub struct StateView {
    pub input: Seq<char>,
    pub log: Seq<ActionView>,
}

/// The state at start: nothing typed, nothing logged.
pub open spec fn initial() -> StateView {
    StateView { input: Seq::empty(), log: Seq::empty() }
}

/// What `submit_input` answers in state `s`: the id of the new action, which
/// is the length of the log before, or `EmptyInput` when nothing was typed.
pub open spec fn submit_result(s: StateView) -> Result<usize, LogError> {
    if s.input.len() == 0 {
        Err(LogError::EmptyInput)
    } else {
        Ok(s.log.len() as usize)
    }
}

/// The state after `submit_input`: with text pending, the text moves into a
/// fresh action at the end of the log and the buffer is left empty; with no
/// text pending, nothing changes.
pub open spec fn submit_state(s: StateView) -> StateView {
    if s.input.len() == 0 {
        s
    } else {
        StateView { input: Seq::empty(), log: s.log.push(fresh(s.input)) }
    }
}

} // verus!
