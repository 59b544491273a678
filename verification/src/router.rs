//! Routing of events to the operations on the state.
//!
//! Whatever drives the application (a key press, a worker reporting back)
//! is turned into an [`Event`] and handed to [`AppState::handle`], which
//! applies the matching operation and says what came of it.

use vstd::prelude::*;
use crate::model::{
    output_log,
    output_result,
    status_log,
    status_result,
    submit_result,
    submit_state,
    StateView,
};
use crate::state::AppState;
use crate::status::{ActionStatus, LogError};

verus! {

/// Something that happened outside and may concern the state.
pub enum Event {
    /// The user confirmed the pending input.
    Submit,
    /// A worker captured a line of output for the action `id`.
    Output { id: usize, line: String },
    /// A worker saw the action `id` settle as `status`.
    Completion { id: usize, status: ActionStatus },
    /// Anything else. It is not for the state, and is to be passed on.
    Other,
}

/// What came of an event.
#[derive(Clone, Copy, Debug, PartialEq, Eq, Structural)]
pub enum Reply {
    /// The pending input became the action `id`.
    Submitted { id: usize },
    /// The report was recorded in the log.
    Recorded,
    /// The event was turned down and nothing changed.
    Rejected { error: LogError },
    /// The event was not for the state; nothing changed, and the caller
    /// passes the event on unchanged.
    PassedOn,
}

/// The reply for an answer without a value.
pub open spec fn recorded_or(r: Result<(), LogError>) -> Reply {
    match r {
        Ok(_) => Reply::Recorded,
        Err(error) => Reply::Rejected { error },
    }
}

/// The reply to `event` in state `s`.
pub open spec fn reply(s: StateView, event: Event) -> Reply {
    match event {
        Event::Submit => match submit_result(s) {
            Ok(id) => Reply::Submitted { id },
            Err(error) => Reply::Rejected { error },
        },
        Event::Output { id, line } => recorded_or(output_result(s.log, id as int)),
        Event::Completion { id, status } => recorded_or(status_result(s.log, id as int, status)),
        Event::Other => Reply::PassedOn,
    }
}

/// The state after `event` in state `s`.
pub open spec fn step(s: StateView, event: Event) -> StateView {
    match event {
        Event::Submit => submit_state(s),
        Event::Output { id, line } => StateView { log: output_log(s.log, id as int, line@), ..s },
        Event::Completion { id, status } => StateView {
            log: status_log(s.log, id as int, status),
            ..s
        },
        Event::Other => s,
    }
}

/// The state after each of `events` in turn, starting from `s`.
pub open spec fn run(s: StateView, events: Seq<Event>) -> StateView
    decreases events.len(),
{
    if events.len() == 0 {
        s
    } else {
        step(run(s, events.drop_last()), events.last())
    }
}

impl AppState {
    /// Applies `event` to the state and says what came of it.
    ///
    /// A submission, a line of output and a completion go to
    /// [`AppState::submit_input`], [`AppState::report_output`] and
    /// [`AppState::report_completion`]. Any other event leaves the state as
    /// it is and is answered with `PassedOn`.
    pub fn handle(&mut self, event: Event) -> (r: Reply)
        ensures
            r == reply(old(self)@, event),
            final(self)@ == step(old(self)@, event),
    {
        match event {
            Event::Submit => match self.submit_input() {
                Ok(id) => Reply::Submitted { id },
                Err(error) => Reply::Rejected { error },
            },
            Event::Output { id, line } => match self.report_output(id, line) {
                Ok(_) => Reply::Recorded,
                Err(error) => Reply::Rejected { error },
            },
            Event::Completion { id, status } => match self.report_completion(id, status) {
                Ok(_) => Reply::Recorded,
                Err(error) => Reply::Rejected { error },
            },
            Event::Other => Reply::PassedOn,
        }
    }
}

} // verus!
