//! Made-up actions for filling a log before any real activity exists.
//!
//! A made-up action takes its command and its output lines at random from a
//! corpus of text lines. The random choices come from the `rand` crate; what
//! is stated of them here holds of every outcome.

use vstd::prelude::*;
use rand::seq::SliceRandom;
use rand::Rng;
use crate::action::Action;
use crate::model::{texts, ActionView};
use crate::status::ActionStatus;

verus! {

/// The least number of output lines asked for a made-up action.
pub const FAKE_LINES_MIN: usize = 1;

/// The number of output lines asked for a made-up action stays below this.
pub const FAKE_LINES_END: usize = 10;

/// `rand::rngs::ThreadRng`, made known to Verus as a type whose inside it
/// does not see.
#[verifier::external_type_specification]
#[verifier::external_body]
pub struct ExThreadRng(rand::rngs::ThreadRng);

/// `at` lists positions below `n`, none of them twice.
pub open spec fn distinct_positions(at: Seq<int>, n: int) -> bool {
    &&& forall|j: int| 0 <= j < at.len() ==> 0 <= #[trigger] at[j] < n
    &&& forall|j: int, k: int| 0 <= j < k < at.len() ==> at[j] != at[k]
}

/// `picked` holds the lines of `corpus` at the positions `at`, in that order.
pub open spec fn drawn_at(picked: Seq<Seq<char>>, corpus: Seq<Seq<char>>, at: Seq<int>) -> bool {
    &&& at.len() == picked.len()
    &&& distinct_positions(at, corpus.len() as int)
    &&& forall|j: int| 0 <= j < picked.len() ==> #[trigger] picked[j] == corpus[at[j]]
}

/// `picked` is a draw of `amount` lines from `corpus` without repeating a
/// position; where the corpus has fewer lines, all of them are drawn.
pub open spec fn is_sample(picked: Seq<Seq<char>>, corpus: Seq<Seq<char>>, amount: int) -> bool {
    &&& picked.len() == if amount <= corpus.len() {
        amount
    } else {
        corpus.len() as int
    }
    &&& exists|at: Seq<int>| drawn_at(picked, corpus, at)
}

/// `a` is a made-up action over `corpus`: settled as `Success`, its command a
/// line of the corpus, its output a draw from the corpus of a size asked
/// between `FAKE_LINES_MIN` and `FAKE_LINES_END`, the latter excluded.
pub open spec fn is_fake(a: ActionView, corpus: Seq<Seq<char>>) -> bool {
    &&& a.status == ActionStatus::Success
    &&& corpus.contains(a.command)
    &&& exists|amount: int|
        FAKE_LINES_MIN <= amount < FAKE_LINES_END && #[trigger] is_sample(a.output, corpus, amount)
}

/// `rand::thread_rng`: the calling thread's generator. Nothing is claimed of
/// it. The call panics where the operating system gives no seed.
pub assume_specification[ rand::thread_rng ]() -> (rng: rand::rngs::ThreadRng);

/// `rand::Rng::gen_range` on a half-open range of `usize`: the number drawn
/// lies in the range. An empty range is left out, as the call panics on it.
#[verifier::external_body]
fn random_in(rng: &mut rand::rngs::ThreadRng, low: usize, end: usize) -> (n: usize)
    requires
        low < end,
    ensures
        low <= n < end,
{
    rng.gen_range(low..end)
}

/// `rand::seq::SliceRandom::choose` on a slice of strings: one of the lines,
/// or `None` when there is none to choose from.
#[verifier::external_body]
fn choose_line<'a>(corpus: &'a Vec<String>, rng: &mut rand::rngs::ThreadRng) -> (r: Option<
    &'a String,
>)
    ensures
        corpus@.len() == 0 ==> r.is_none(),
        corpus@.len() > 0 ==> r.is_some() && texts(corpus@).contains(r.unwrap()@),
{
    corpus.choose(rng)
}

/// `rand::seq::SliceRandom::choose_multiple` on a slice of strings, its items
/// cloned into a `Vec`: `amount` lines taken at distinct positions, or all the
/// lines where there are fewer, in the order in which they were drawn.
#[verifier::external_body]
fn choose_lines(corpus: &Vec<String>, rng: &mut rand::rngs::ThreadRng, amount: usize) -> (r: Vec<
    String,
>)
    ensures
        is_sample(texts(r@), texts(corpus@), amount as int),
{
    corpus.choose_multiple(rng, amount).cloned().collect()
}

impl Action {
    /// A made-up action over `corpus`: a random line as its command, a random
    /// burst of lines as its output, and status `Success`.
    ///
    /// The corpus must hold at least one line.
    pub fn gen_fake(corpus: &Vec<String>) -> (r: Action)
        requires
            corpus@.len() > 0,
        ensures
            is_fake(r@, texts(corpus@)),
    {
        let mut rng = rand::thread_rng();
        let command = match choose_line(corpus, &mut rng) {
            Some(line) => line.clone(),
            None => vstd::pervasive::unreached(),
        };
        let count = random_in(&mut rng, FAKE_LINES_MIN, FAKE_LINES_END);
        let lines = choose_lines(corpus, &mut rng, count);
        let action = Action::recorded(command, &lines, ActionStatus::Success);
        assert(is_sample(action@.output, texts(corpus@), count as int));
        action
    }
}

} // verus!
