//! What holds of the log over time.
//!
//! The operations of this crate are stated as functions on the model of the
//! state. The lemmas here are about those functions, one call after another:
//! what a log can and cannot become, however the calls are chosen.

use vstd::prelude::*;
use crate::model::{
    fresh,
    output_log,
    output_result,
    status_log,
    status_result,
    ActionView,
    StateView,
};
use crate::router::{reply, run, step, Event};
use crate::status::{status_step, ActionStatus, LogError};

verus! {

/// `after` is a later state of the action `before`: the same command, the
/// same output with possibly more lines behind it, and a status that either
/// stayed or left `Running` for a terminal one.
pub open spec fn grown(before: ActionView, after: ActionView) -> bool {
    &&& after.command == before.command
    &&& before.output.len() <= after.output.len()
    &&& forall|j: int| 0 <= j < before.output.len() ==> after.output[j] == before.output[j]
    &&& status_step(before.status, after.status)
}

/// `after` is a later state of the log `before`: every action of `before` is
/// still there, at the same position, and is a later state of itself.
pub open spec fn log_grown(before: Seq<ActionView>, after: Seq<ActionView>) -> bool {
    &&& before.len() <= after.len()
    &&& forall|i: int| 0 <= i < before.len() ==> #[trigger] grown(before[i], after[i])
}

/// The log after `append` of each of `added` in turn.
pub open spec fn append_all(log: Seq<ActionView>, added: Seq<ActionView>) -> Seq<ActionView>
    decreases added.len(),
{
    if added.len() == 0 {
        log
    } else {
        append_all(log, added.drop_last()).push(added.last())
    }
}

/// The log after `update_output(id, _)` with each of `lines` in turn.
pub open spec fn output_all(log: Seq<ActionView>, id: int, lines: Seq<Seq<char>>) -> Seq<
    ActionView,
>
    decreases lines.len(),
{
    if lines.len() == 0 {
        log
    } else {
        output_log(output_all(log, id, lines.drop_last()), id, lines.last())
    }
}

/// Appended actions stand in the log in the order of the calls, behind
/// everything that was there before, and each exactly as it was handed in.
pub proof fn lemma_appends_keep_order(log: Seq<ActionView>, added: Seq<ActionView>)
    ensures
        append_all(log, added) == log + added,
    decreases added.len(),
{
    if added.len() > 0 {
        lemma_appends_keep_order(log, added.drop_last());
        assert(added == added.drop_last().push(added.last()));
    }
    assert(append_all(log, added) =~= log + added);
}

/// One event turns a log into a later state of itself: no action is removed
/// or moved, no command changes, output only gains lines at the end, and a
/// status changes only from `Running` to a terminal one.
pub proof fn lemma_step_grows(s: StateView, event: Event)
    ensures
        log_grown(s.log, step(s, event).log),
{
    let after = step(s, event).log;
    assert forall|i: int| 0 <= i < s.log.len() implies #[trigger] grown(s.log[i], after[i]) by {}
}

/// Being a later state of a log carries over two steps.
pub proof fn lemma_log_grown_transitive(
    a: Seq<ActionView>,
    b: Seq<ActionView>,
    c: Seq<ActionView>,
)
    requires
        log_grown(a, b),
        log_grown(b, c),
    ensures
        log_grown(a, c),
{
    assert forall|i: int| 0 <= i < a.len() implies #[trigger] grown(a[i], c[i]) by {
        assert(grown(a[i], b[i]));
        assert(grown(b[i], c[i]));
    }
}

/// Any sequence of events turns a log into a later state of itself.
pub proof fn lemma_run_grows(s: StateView, events: Seq<Event>)
    ensures
        log_grown(s.log, run(s, events).log),
    decreases events.len(),
{
    if events.len() == 0 {
        assert forall|i: int| 0 <= i < s.log.len() implies #[trigger] grown(s.log[i], s.log[i]) by {}
    } else {
        let middle = run(s, events.drop_last());
        lemma_run_grows(s, events.drop_last());
        lemma_step_grows(middle, events.last());
        lemma_log_grown_transitive(s.log, middle.log, step(middle, events.last()).log);
    }
}

/// Running a sequence of events is running its first `k` and then the rest.
pub proof fn lemma_run_split(s: StateView, events: Seq<Event>, k: int)
    requires
        0 <= k <= events.len(),
    ensures
        run(s, events) == run(run(s, events.subrange(0, k)), events.subrange(k, events.len() as int)),
    decreases events.len(),
{
    let head = events.subrange(0, k);
    let tail = events.subrange(k, events.len() as int);
    if k == events.len() {
        assert(head =~= events);
        assert(tail.len() == 0);
    } else {
        lemma_run_split(s, events.drop_last(), k);
        assert(events.drop_last().subrange(0, k) =~= head);
        assert(events.drop_last().subrange(k, events.len() - 1) =~= tail.drop_last());
        assert(tail.last() == events.last());
    }
}

/// Whenever the log is looked at twice while events are applied, the second
/// look shows a later state of the first: the same actions at the same
/// positions with the same commands, output that has only gained lines at
/// the end, and statuses that have stayed or settled.
pub proof fn lemma_later_look_is_later_state(s: StateView, events: Seq<Event>, j: int, k: int)
    requires
        0 <= j <= k <= events.len(),
    ensures
        log_grown(run(s, events.subrange(0, j)).log, run(s, events.subrange(0, k)).log),
{
    let upto_k = events.subrange(0, k);
    lemma_run_split(s, upto_k, j);
    assert(upto_k.subrange(0, j) =~= events.subrange(0, j));
    lemma_run_grows(run(s, events.subrange(0, j)), upto_k.subrange(j, k));
}

/// The statuses seen of one action at three looks, in the order of the
/// looks, hold at most one change, and that change is from `Running` to a
/// terminal status.
pub proof fn lemma_status_changes_at_most_once(
    s: StateView,
    events: Seq<Event>,
    i: int,
    j: int,
    k: int,
    l: int,
)
    requires
        0 <= j <= k <= l <= events.len(),
        0 <= i < run(s, events.subrange(0, j)).log.len(),
    ensures
        i < run(s, events.subrange(0, k)).log.len(),
        i < run(s, events.subrange(0, l)).log.len(),
        ({
            let first = run(s, events.subrange(0, j)).log[i].status;
            let second = run(s, events.subrange(0, k)).log[i].status;
            let third = run(s, events.subrange(0, l)).log[i].status;
            &&& first == second || second == third
            &&& first != second ==> first == ActionStatus::Running && second.terminal()
            &&& second != third ==> second == ActionStatus::Running && third.terminal()
        }),
{
    let at_j = run(s, events.subrange(0, j)).log;
    let at_k = run(s, events.subrange(0, k)).log;
    let at_l = run(s, events.subrange(0, l)).log;
    lemma_later_look_is_later_state(s, events, j, k);
    lemma_later_look_is_later_state(s, events, k, l);
    assert(grown(at_j[i], at_k[i]));
    assert(grown(at_k[i], at_l[i]));
}

/// One event adds at most one action to the log, and only a submission adds
/// one: the new action carries the text that was pending, has no output and
/// is `Running`.
pub proof fn lemma_new_action_is_fresh(s: StateView, event: Event)
    ensures
        step(s, event).log.len() == s.log.len() || step(s, event).log.len() == s.log.len() + 1,
        step(s, event).log.len() == s.log.len() + 1 ==> event == Event::Submit && step(
            s,
            event,
        ).log.last() == fresh(s.input),
{
}

/// An action that appears in the log between two consecutive looks was
/// created by a submission: at the second look it carries the text that was
/// pending at the first, has no output and is `Running`.
pub proof fn lemma_submitted_action_starts_running(s: StateView, events: Seq<Event>, k: int)
    requires
        0 <= k < events.len(),
        run(s, events.subrange(0, k + 1)).log.len() > run(s, events.subrange(0, k)).log.len(),
    ensures
        events[k] == Event::Submit,
        run(s, events.subrange(0, k + 1)).log.len() == run(s, events.subrange(0, k)).log.len() + 1,
        run(s, events.subrange(0, k + 1)).log.last() == fresh(run(s, events.subrange(0, k)).input),
{
    let upto = events.subrange(0, k + 1);
    assert(upto.drop_last() =~= events.subrange(0, k));
    assert(upto.last() == events[k]);
    lemma_new_action_is_fresh(run(s, events.subrange(0, k)), events[k]);
}

/// The statuses of the action `i` at every look from look `from` on, in the
/// order of the looks.
pub open spec fn status_history(s: StateView, events: Seq<Event>, i: int, from: int) -> Seq<
    ActionStatus,
> {
    Seq::new(
        (events.len() - from + 1) as nat,
        |t: int| run(s, events.subrange(0, from + t)).log[i].status,
    )
}

/// `h` reads `Running` up to position `c`, and from there on one and the same
/// terminal status. With `c` at the end, `h` reads `Running` throughout.
pub open spec fn running_then_settled(h: Seq<ActionStatus>, c: int) -> bool {
    &&& 1 <= c <= h.len()
    &&& forall|t: int| 0 <= t < c ==> h[t] == ActionStatus::Running
    &&& forall|t: int| c <= t < h.len() ==> h[t] == h[c] && h[t].terminal()
}

/// A sequence of statuses that starts with `Running` and in which every
/// later status is a step from every earlier one reads `Running`, or
/// `Running` and then one terminal status.
pub proof fn lemma_steps_settle_once(h: Seq<ActionStatus>)
    requires
        h.len() >= 1,
        h[0] == ActionStatus::Running,
        forall|t: int, u: int| 0 <= t <= u < h.len() ==> status_step(h[t], h[u]),
    ensures
        exists|c: int| running_then_settled(h, c),
    decreases h.len(),
{
    if h.len() == 1 {
        assert(running_then_settled(h, 1));
    } else {
        let front = h.drop_last();
        let end = h.len() - 1;
        assert forall|t: int, u: int| 0 <= t <= u < front.len() implies status_step(
            front[t],
            front[u],
        ) by {
            assert(status_step(h[t], h[u]));
        }
        lemma_steps_settle_once(front);
        let c = choose|c: int| running_then_settled(front, c);
        assert forall|t: int| 0 <= t < c implies h[t] == ActionStatus::Running by {
            assert(front[t] == h[t]);
        }
        if c < end {
            assert(status_step(h[c], h[end]));
            assert(front[c] == h[c]);
            assert forall|t: int| c <= t < h.len() implies h[t] == h[c] && h[t].terminal() by {
                if t < end {
                    assert(front[t] == h[t]);
                }
            }
            assert(running_then_settled(h, c));
        } else if h[end].terminal() {
            assert(running_then_settled(h, end));
        } else {
            assert(running_then_settled(h, end + 1));
        }
    }
}

/// The statuses seen of the action `i` that the event before look `from`
/// added to the log, at every look from `from` on, read `Running`, or `Running` and then `Failed`, or
/// `Running` and then `Success`: never anything else, and never a second
/// change.
pub proof fn lemma_submitted_status_history(s: StateView, events: Seq<Event>, i: int, from: int)
    requires
        1 <= from <= events.len(),
        i == run(s, events.subrange(0, from - 1)).log.len(),
        i < run(s, events.subrange(0, from)).log.len(),
    ensures
        exists|c: int| running_then_settled(status_history(s, events, i, from), c),
{
    let h = status_history(s, events, i, from);
    lemma_submitted_action_starts_running(s, events, from - 1);
    assert forall|t: int, u: int| 0 <= t <= u < h.len() implies status_step(h[t], h[u]) by {
        lemma_later_look_is_later_state(s, events, from, from + t);
        lemma_later_look_is_later_state(s, events, from + t, from + u);
        let at_t = run(s, events.subrange(0, from + t)).log;
        let at_u = run(s, events.subrange(0, from + u)).log;
        assert(grown(run(s, events.subrange(0, from)).log[i], at_t[i]));
        assert(grown(at_t[i], at_u[i]));
    }
    lemma_steps_settle_once(h);
}

/// A request to set `Running` is turned down with `InvalidTransition` and
/// changes nothing, whatever the id and whatever the action's status.
pub proof fn lemma_running_is_never_accepted(log: Seq<ActionView>, id: int)
    ensures
        status_result(log, id, ActionStatus::Running) == Err::<(), LogError>(
            LogError::InvalidTransition,
        ),
        status_log(log, id, ActionStatus::Running) == log,
{
}

/// After a request to settle an action of the log, a second request for the
/// same action is turned down with `InvalidTransition` and changes nothing,
/// whichever status it asks for and whether or not the first was accepted.
pub proof fn lemma_second_completion_is_rejected(
    log: Seq<ActionView>,
    id: int,
    first: ActionStatus,
    second: ActionStatus,
)
    requires
        0 <= id < log.len(),
        first.terminal(),
    ensures
        status_result(status_log(log, id, first), id, second) == Err::<(), LogError>(
            LogError::InvalidTransition,
        ),
        status_log(status_log(log, id, first), id, second) == status_log(log, id, first),
{
}

/// A line of output is accepted for every action of the log, in every
/// status, and one call adds exactly that line behind the action's output;
/// nothing else in the log changes.
pub proof fn lemma_output_adds_one_line(log: Seq<ActionView>, id: int, line: Seq<char>)
    requires
        0 <= id < log.len(),
    ensures
        output_result(log, id) == Ok::<(), LogError>(()),
        output_log(log, id, line).len() == log.len(),
        output_log(log, id, line)[id].output == log[id].output.push(line),
        output_log(log, id, line)[id].command == log[id].command,
        output_log(log, id, line)[id].status == log[id].status,
        forall|i: int| 0 <= i < log.len() && i != id ==> output_log(log, id, line)[i] == log[i],
{
}

/// Lines reported for one action stand in its output in the order of the
/// calls, behind what was there before.
pub proof fn lemma_output_keeps_call_order(log: Seq<ActionView>, id: int, lines: Seq<Seq<char>>)
    requires
        0 <= id < log.len(),
    ensures
        output_all(log, id, lines) == log.update(
            id,
            ActionView { output: log[id].output + lines, ..log[id] },
        ),
    decreases lines.len(),
{
    let target = log.update(id, ActionView { output: log[id].output + lines, ..log[id] });
    if lines.len() == 0 {
        assert(log[id].output + lines =~= log[id].output);
        assert(target =~= log);
    } else {
        lemma_output_keeps_call_order(log, id, lines.drop_last());
        assert((log[id].output + lines.drop_last()).push(lines.last()) =~= log[id].output + lines);
        assert(output_all(log, id, lines) =~= target);
    }
}

/// A submission and a completion can be applied in either order with the
/// same state at the end and the same two replies, unless the completion
/// names the very action that the submission creates.
pub proof fn lemma_submission_commutes_with_completion(
    s: StateView,
    id: usize,
    status: ActionStatus,
)
    requires
        id != s.log.len() || s.input.len() == 0,
    ensures
        step(step(s, Event::Submit), Event::Completion { id, status }) == step(
            step(s, Event::Completion { id, status }),
            Event::Submit,
        ),
        reply(step(s, Event::Submit), Event::Completion { id, status }) == reply(
            s,
            Event::Completion { id, status },
        ),
        reply(step(s, Event::Completion { id, status }), Event::Submit) == reply(s, Event::Submit),
{
    let completion = Event::Completion { id, status };
    let a = step(step(s, Event::Submit), completion);
    let b = step(step(s, completion), Event::Submit);
    assert(a.log =~= b.log);
}

} // verus!
