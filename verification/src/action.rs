//! One recorded command with its output and status.

use vstd::prelude::*;
use crate::lines::{line_seq, lines_clone, lines_get, lines_len, lines_new, lines_push};
use crate::model::{fresh, may_settle, texts, with_line, with_status, ActionView};
use crate::status::{ActionStatus, LogError};

verus! {

/// One command submission: its text, the output lines captured so far, and
/// its status.
///
/// The command never changes after creation, output only grows, and the
/// status leaves `Running` at most once.
pub struct Action {
    command: String,
    output: im::Vector<String>,
    status: ActionStatus,
}

impl View for Action {
    type V = ActionView;

    closed spec fn view(&self) -> ActionView {
        ActionView { command: self.command@, output: line_seq(self.output), status: self.status }
    }
}

/// The view of each action of `v`, in order.
pub open spec fn views(v: Seq<Action>) -> Seq<ActionView> {
    Seq::new(v.len(), |i: int| v[i]@)
}

impl Clone for Action {
    /// A copy with the same command, output and status. The copy shares the
    /// storage of its output lines with `self`.
    fn clone(&self) -> (r: Action)
        ensures
            r@ == self@,
    {
        Action {
            command: self.command.clone(),
            output: lines_clone(&self.output),
            status: self.status,
        }
    }
}

impl Action {
    /// A fresh action for `command`: no output yet, status `Running`.
    pub fn new(command: String) -> (r: Action)
        ensures
            r@ == fresh(command@),
    {
        let output = lines_new();
        let status = ActionStatus::Running;
        Action { command, output, status }
    }

    /// An action as it was recorded elsewhere: `command` with the given
    /// output lines, in their order, and the given status.
    pub fn recorded(command: String, lines: &Vec<String>, status: ActionStatus) -> (r: Action)
        ensures
            r@ == (ActionView { command: command@, output: texts(lines@), status }),
    {
        let mut output = lines_new();
        let mut i: usize = 0;
        while i < lines.len()
            invariant
                i <= lines@.len(),
                line_seq(output) == texts(lines@).subrange(0, i as int),
            decreases lines@.len() - i,
        {
            lines_push(&mut output, lines[i].clone());
            i = i + 1;
            assert(line_seq(output) =~= texts(lines@).subrange(0, i as int));
        }
        assert(texts(lines@).subrange(0, i as int) =~= texts(lines@));
        Action { command, output, status }
    }

    /// The command text.
    pub fn command(&self) -> (r: &String)
        ensures
            r@ == self@.command,
    {
        &self.command
    }

    /// The current status.
    pub fn status(&self) -> (r: ActionStatus)
        ensures
            r == self@.status,
    {
        self.status
    }

    /// The number of output lines captured so far.
    pub fn output_len(&self) -> (n: usize)
        ensures
            n == self@.output.len(),
    {
        lines_len(&self.output)
    }

    /// The output line at `index`, counted from the oldest, or `None` when
    /// there are not that many.
    pub fn output_line(&self, index: usize) -> (r: Option<&String>)
        ensures
            index < self@.output.len() ==> r.is_some() && r.unwrap()@ == self@.output[index as int],
            index >= self@.output.len() ==> r.is_none(),
    {
        lines_get(&self.output, index)
    }

    /// All output lines, oldest first.
    pub fn output(&self) -> (r: Vec<String>)
        ensures
            texts(r@) == self@.output,
    {
        let n = lines_len(&self.output);
        let mut r: Vec<String> = Vec::new();
        let mut i: usize = 0;
        while i < n
            invariant
                i <= n,
                n == line_seq(self.output).len(),
                texts(r@) == line_seq(self.output).subrange(0, i as int),
            decreases n - i,
        {
            let ghost before = r@;
            let line = match lines_get(&self.output, i) {
                Some(line) => line,
                None => vstd::pervasive::unreached(),
            };
            r.push(line.clone());
            i = i + 1;
            assert(texts(r@) =~= line_seq(self.output).subrange(0, i as int)) by {
                assert(texts(before).len() == i - 1);
                assert forall|j: int| 0 <= j < i - 1 implies texts(r@)[j] == texts(before)[j] by {
                    assert(r@[j] == before[j]);
                }
            }
        }
        assert(line_seq(self.output).subrange(0, i as int) =~= line_seq(self.output));
        r
    }

    /// Adds `line` after the output captured so far. Command and status stay
    /// as they are. Output is accepted in every status, also after the
    /// action has settled.
    pub fn push_output(&mut self, line: String)
        ensures
            final(self)@ == with_line(old(self)@, line@),
    {
        lines_push(&mut self.output, line);
    }

    /// Settles the action as `status`.
    ///
    /// This succeeds exactly when the action is still running and `status` is
    /// terminal. Otherwise the action is left as it is and the answer is
    /// `InvalidTransition`.
    pub fn settle(&mut self, status: ActionStatus) -> (r: Result<(), LogError>)
        ensures
            may_settle(old(self)@, status) ==> r == Ok::<(), LogError>(()) && final(self)@
                == with_status(old(self)@, status),
            !may_settle(old(self)@, status) ==> r == Err::<(), LogError>(
                LogError::InvalidTransition,
            ) && final(self)@ == old(self)@,
    {
        if self.status == ActionStatus::Running && status.is_terminal() {
            self.status = status;
            Ok(())
        } else {
            Err(LogError::InvalidTransition)
        }
    }
}

} // verus!
