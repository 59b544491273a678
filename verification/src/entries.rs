//! The persistent vector of log entries.
//!
//! The log keeps its actions in an `im::Vector<Action>`, so that a snapshot
//! shares structure with the live log. As with the output lines, Verus does
//! not look inside: the contents are named by [`entry_seq`], and each method
//! used here is given a contract over that name and taken on trust.
//!
//! The vector clones an action when it has to unshare storage before a
//! change. That the clone has the same view is proved of `Action::clone`, and
//! the contracts below lean on it.

use vstd::prelude::*;
use crate::action::Action;
use crate::model::ActionView;

verus! {

/// The actions held by a vector, oldest first, each by its view.
pub uninterp spec fn entry_seq(v: im::Vector<Action>) -> Seq<ActionView>;

/// `im::Vector::new`: the new vector holds nothing.
#[verifier::external_body]
pub(crate) fn entries_new() -> (v: im::Vector<Action>)
    ensures
        entry_seq(v) == Seq::<ActionView>::empty(),
{
    im::Vector::new()
}

/// `im::Vector::len`: the number of actions held.
#[verifier::external_body]
pub(crate) fn entries_len(v: &im::Vector<Action>) -> (n: usize)
    ensures
        n == entry_seq(*v).len(),
{
    v.len()
}

/// `im::Vector::push_back`: the action is added after all the others, which
/// stay as they were.
#[verifier::external_body]
pub(crate) fn entries_push(v: &mut im::Vector<Action>, action: Action)
    ensures
        entry_seq(*final(v)) == entry_seq(*old(v)).push(action@),
{
    v.push_back(action)
}

/// `im::Vector::get`: the action at `index`, or `None` when `index` is not
/// below the length.
#[verifier::external_body]
pub(crate) fn entries_get(v: &im::Vector<Action>, index: usize) -> (r: Option<&Action>)
    ensures
        index < entry_seq(*v).len() ==> r.is_some() && r.unwrap()@ == entry_seq(*v)[index as int],
        index >= entry_seq(*v).len() ==> r.is_none(),
{
    v.get(index)
}

/// `im::Vector::set`: the action at `index` is replaced and the one that was
/// there is handed back; all the others stay as they were. An `index` that is
/// not below the length is left out, as the call panics on it.
#[verifier::external_body]
pub(crate) fn entries_set(v: &mut im::Vector<Action>, index: usize, action: Action) -> (r: Action)
    requires
        index < entry_seq(*old(v)).len(),
    ensures
        entry_seq(*final(v)) == entry_seq(*old(v)).update(index as int, action@),
        r@ == entry_seq(*old(v))[index as int],
{
    v.set(index, action)
}

/// `Clone::clone` of `im::Vector`: the clone holds the same actions in the
/// same order.
#[verifier::external_body]
pub(crate) fn entries_clone(v: &im::Vector<Action>) -> (r: im::Vector<Action>)
    ensures
        entry_seq(r) == entry_seq(*v),
{
    v.clone()
}

} // verus!
