//! The append-only log of actions.

use vstd::prelude::*;
use crate::action::{views, Action};
use crate::entries::{
    entries_clone,
    entries_get,
    entries_len,
    entries_new,
    entries_push,
    entries_set,
    entry_seq,
};
use crate::model::{output_log, output_result, status_log, status_result, ActionView};
use crate::status::{ActionStatus, LogError};

verus! {

/// An ordered collection of actions, oldest first.
///
/// An action's id is its position in the log. Actions are only ever added at
/// the end, so an id, once handed out, names the same action for as long as
/// the log lives. Nothing is ever removed.
pub struct ActionLog {
    entries: im::Vector<Action>,
}

/// The log as it stood at one moment. It cannot be changed, and later changes
/// to the log do not reach it.
pub struct Snapshot {
    entries: im::Vector<Action>,
}

impl View for ActionLog {
    type V = Seq<ActionView>;

    closed spec fn view(&self) -> Seq<ActionView> {
        entry_seq(self.entries)
    }
}

impl View for Snapshot {
    type V = Seq<ActionView>;

    closed spec fn view(&self) -> Seq<ActionView> {
        entry_seq(self.entries)
    }
}

impl ActionLog {
    /// An empty log.
    pub fn new() -> (r: ActionLog)
        ensures
            r@ == Seq::<ActionView>::empty(),
    {
        ActionLog { entries: entries_new() }
    }

    /// The number of actions in the log.
    pub fn len(&self) -> (n: usize)
        ensures
            n == self@.len(),
    {
        entries_len(&self.entries)
    }

    /// Whether the log holds no action.
    pub fn is_empty(&self) -> (r: bool)
        ensures
            r == (self@.len() == 0),
    {
        entries_len(&self.entries) == 0
    }

    /// The action with the given id, or `None` when there is none.
    pub fn get(&self, id: usize) -> (r: Option<&Action>)
        ensures
            id < self@.len() ==> r.is_some() && r.unwrap()@ == self@[id as int],
            id >= self@.len() ==> r.is_none(),
    {
        entries_get(&self.entries, id)
    }

    /// Adds `action` at the end of the log and returns its id. The actions
    /// already in the log keep their ids and their contents.
    pub fn append(&mut self, action: Action) -> (id: usize)
        ensures
            id == old(self)@.len(),
            final(self)@ == old(self)@.push(action@),
    {
        let id = entries_len(&self.entries);
        entries_push(&mut self.entries, action);
        id
    }

    /// Adds `line` after the output of the action `id`.
    ///
    /// This succeeds exactly when `id` names an action of the log, whatever
    /// its status: output that arrives after an action has settled is still
    /// recorded. With an unknown id the log is left as it is and the answer
    /// is `NotFound`.
    pub fn update_output(&mut self, id: usize, line: String) -> (r: Result<(), LogError>)
        ensures
            r == output_result(old(self)@, id as int),
            final(self)@ == output_log(old(self)@, id as int, line@),
    {
        match entries_get(&self.entries, id) {
            Some(entry) => {
                let mut changed = entry.clone();
                changed.push_output(line);
                let _ = entries_set(&mut self.entries, id, changed);
                Ok(())
            },
            None => Err(LogError::NotFound),
        }
    }

    /// Settles the action `id` as `status`.
    ///
    /// A request for `Running` is answered with `InvalidTransition` whatever
    /// the id. Otherwise an unknown id is answered with `NotFound`, and an
    /// action that has already settled with `InvalidTransition`, also when
    /// `status` is the one it settled as. In each of these cases the log is
    /// left as it is. In the remaining case the action's status becomes
    /// `status` and nothing else changes.
    pub fn set_status(&mut self, id: usize, status: ActionStatus) -> (r: Result<(), LogError>)
        ensures
            r == status_result(old(self)@, id as int, status),
            final(self)@ == status_log(old(self)@, id as int, status),
    {
        if !status.is_terminal() {
            return Err(LogError::InvalidTransition);
        }
        match entries_get(&self.entries, id) {
            Some(entry) => {
                let mut changed = entry.clone();
                match changed.settle(status) {
                    Ok(()) => {
                        let _ = entries_set(&mut self.entries, id, changed);
                        Ok(())
                    },
                    Err(e) => Err(e),
                }
            },
            None => Err(LogError::NotFound),
        }
    }

    /// The log as it stands now, for reading. Taking it copies no action:
    /// the snapshot shares its storage with the log until one of them
    /// changes.
    pub fn snapshot(&self) -> (r: Snapshot)
        ensures
            r@ == self@,
    {
        Snapshot { entries: entries_clone(&self.entries) }
    }
}

impl Snapshot {
    /// The number of actions in the snapshot.
    pub fn len(&self) -> (n: usize)
        ensures
            n == self@.len(),
    {
        entries_len(&self.entries)
    }

    /// The action with the given id, or `None` when there is none.
    pub fn get(&self, id: usize) -> (r: Option<&Action>)
        ensures
            id < self@.len() ==> r.is_some() && r.unwrap()@ == self@[id as int],
            id >= self@.len() ==> r.is_none(),
    {
        entries_get(&self.entries, id)
    }

    /// All actions of the snapshot, oldest first.
    pub fn to_vec(&self) -> (r: Vec<Action>)
        ensures
            views(r@) == self@,
    {
        let n = entries_len(&self.entries);
        let mut r: Vec<Action> = Vec::new();
        let mut i: usize = 0;
        while i < n
            invariant
                i <= n,
                n == entry_seq(self.entries).len(),
                views(r@) == entry_seq(self.entries).subrange(0, i as int),
            decreases n - i,
        {
            let ghost before = r@;
            let entry = match entries_get(&self.entries, i) {
                Some(entry) => entry,
                None => vstd::pervasive::unreached(),
            };
            r.push(entry.clone());
            i = i + 1;
            assert(views(r@) =~= entry_seq(self.entries).subrange(0, i as int)) by {
                assert(views(before).len() == i - 1);
                assert forall|j: int| 0 <= j < i - 1 implies views(r@)[j] == views(before)[j] by {
                    assert(r@[j] == before[j]);
                }
            }
        }
        assert(entry_seq(self.entries).subrange(0, i as int) =~= entry_seq(self.entries));
        r
    }
}

} // verus!
