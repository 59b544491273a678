//! The application state and the operations that change it.
//!
//! The state is the pending input text together with the log. The log is
//! changed by three operations only: a submission of the pending text, a
//! report of output, and a report of completion. Each takes the state by
//! exclusive reference, so no two of them ever overlap.

use vstd::prelude::*;
use crate::action::Action;
use crate::demo::is_fake;
use crate::log::{ActionLog, Snapshot};
use crate::model::{
    initial,
    output_log,
    output_result,
    status_log,
    status_result,
    submit_result,
    submit_state,
    texts,
    StateView,
};
use crate::status::{ActionStatus, LogError};

verus! {

/// The number of made-up actions that a demo state starts with.
pub const DEMO_ENTRIES: usize = 19;

/// The pending input text and the log of actions.
pub struct AppState {
    input: String,
    log: ActionLog,
}

impl View for AppState {
    type V = StateView;

    closed spec fn view(&self) -> StateView {
        StateView { input: self.input@, log: self.log@ }
    }
}

impl AppState {
    /// The state at start: nothing typed, nothing logged.
    pub fn new() -> (r: AppState)
        ensures
            r@ == initial(),
    {
        AppState { input: String::new(), log: ActionLog::new() }
    }

    /// A state for demonstration: nothing typed, and a log of `DEMO_ENTRIES`
    /// made-up actions over `corpus`. With an empty corpus there is nothing
    /// to make actions up from, and the log starts empty.
    pub fn with_demo(corpus: &Vec<String>) -> (r: AppState)
        ensures
            r@.input == Seq::<char>::empty(),
            corpus@.len() == 0 ==> r@.log.len() == 0,
            corpus@.len() > 0 ==> r@.log.len() == DEMO_ENTRIES,
            forall|i: int| 0 <= i < r@.log.len() ==> is_fake(#[trigger] r@.log[i], texts(corpus@)),
    {
        let mut log = ActionLog::new();
        if corpus.len() > 0 {
            let mut i: usize = 0;
            while i < DEMO_ENTRIES
                invariant
                    i <= DEMO_ENTRIES,
                    corpus@.len() > 0,
                    log@.len() == i,
                    forall|j: int| 0 <= j < log@.len() ==> is_fake(
                        #[trigger] log@[j],
                        texts(corpus@),
                    ),
                decreases DEMO_ENTRIES - i,
            {
                let _ = log.append(Action::gen_fake(corpus));
                i = i + 1;
            }
        }
        AppState { input: String::new(), log }
    }

    /// The pending input text.
    pub fn input(&self) -> (r: &String)
        ensures
            r@ == self@.input,
    {
        &self.input
    }

    /// Replaces the pending input text. The log is not touched.
    pub fn set_input(&mut self, text: String)
        ensures
            final(self)@ == (StateView { input: text@, log: old(self)@.log }),
    {
        self.input = text;
    }

    /// The log as it stands now, for reading.
    pub fn snapshot(&self) -> (r: Snapshot)
        ensures
            r@ == self@.log,
    {
        self.log.snapshot()
    }

    /// Submits the pending input text.
    ///
    /// With text pending, the text is taken out of the buffer, which is left
    /// empty, and a fresh running action for it is added at the end of the
    /// log; the answer is the new action's id. A single character is enough.
    /// With no text pending the submission is turned down with `EmptyInput`
    /// and nothing changes.
    pub fn submit_input(&mut self) -> (r: Result<usize, LogError>)
        ensures
            r == submit_result(old(self)@),
            final(self)@ == submit_state(old(self)@),
    {
        if self.input.as_str().is_empty() {
            return Err(LogError::EmptyInput);
        }
        let mut text = String::new();
        std::mem::swap(&mut self.input, &mut text);
        let id = self.log.append(Action::new(text));
        Ok(id)
    }

    /// Records a line of output for the action `id`, as
    /// [`ActionLog::update_output`] does. The pending input is not touched.
    pub fn report_output(&mut self, id: usize, line: String) -> (r: Result<(), LogError>)
        ensures
            r == output_result(old(self)@.log, id as int),
            final(self)@ == (StateView {
                input: old(self)@.input,
                log: output_log(old(self)@.log, id as int, line@),
            }),
    {
        self.log.update_output(id, line)
    }

    /// Records that the action `id` has settled as `status`, as
    /// [`ActionLog::set_status`] does. The pending input is not touched.
    pub fn report_completion(&mut self, id: usize, status: ActionStatus) -> (r: Result<
        (),
        LogError,
    >)
        ensures
            r == status_result(old(self)@.log, id as int, status),
            final(self)@ == (StateView {
                input: old(self)@.input,
                log: status_log(old(self)@.log, id as int, status),
            }),
    {
        self.log.set_status(id, status)
    }
}

} // verus!
