//! The persistent vector of output lines.
//!
//! Output is kept in an `im::Vector<String>`, whose clones share structure, so
//! that a snapshot of the log costs no copy of the text. Verus does not look
//! inside that type: its contents are named by [`line_seq`], and each method
//! used here is given a contract over that name and taken on trust.

use vstd::prelude::*;

verus! {

/// `im::Vector`, made known to Verus as a type whose inside it does not see.
#[verifier::external_type_specification]
#[verifier::external_body]
#[verifier::reject_recursive_types(A)]
pub struct ExVector<A>(im::Vector<A>);

/// The lines held by a vector, oldest first, each as its sequence of
/// characters.
pub uninterp spec fn line_seq(v: im::Vector<String>) -> Seq<Seq<char>>;

/// `im::Vector::new`: the new vector holds nothing.
#[verifier::external_body]
pub(crate) fn lines_new() -> (v: im::Vector<String>)
    ensures
        line_seq(v) == Seq::<Seq<char>>::empty(),
{
    im::Vector::new()
}

/// `im::Vector::len`: the number of lines held.
#[verifier::external_body]
pub(crate) fn lines_len(v: &im::Vector<String>) -> (n: usize)
    ensures
        n == line_seq(*v).len(),
{
    v.len()
}

/// `im::Vector::push_back`: the line is added after all the others, which
/// stay as they were.
#[verifier::external_body]
pub(crate) fn lines_push(v: &mut im::Vector<String>, line: String)
    ensures
        line_seq(*final(v)) == line_seq(*old(v)).push(line@),
{
    v.push_back(line)
}

/// `im::Vector::get`: the line at `index`, or `None` when `index` is not
/// below the length.
#[verifier::external_body]
pub(crate) fn lines_get(v: &im::Vector<String>, index: usize) -> (r: Option<&String>)
    ensures
        index < line_seq(*v).len() ==> r.is_some() && r.unwrap()@ == line_seq(*v)[index as int],
        index >= line_seq(*v).len() ==> r.is_none(),
{
    v.get(index)
}

/// `Clone::clone` of `im::Vector`: the clone holds the same lines in the same
/// order.
#[verifier::external_body]
pub(crate) fn lines_clone(v: &im::Vector<String>) -> (r: im::Vector<String>)
    ensures
        line_seq(r) == line_seq(*v),
{
    v.clone()
}

} // verus!
