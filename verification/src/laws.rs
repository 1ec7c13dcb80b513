//! What holds of the dispatcher whatever the worker writes, and in whatever
//! order: each answer reaches the call that its id names, and nothing else
//! disturbs a call that waits.

use tokio::sync::oneshot::Sender;
use vstd::prelude::*;
use crate::sidecar::{after_line, after_lines, dispatch_of, outcomes_of, Dispatch};
use crate::wire::response_id;

verus! {

/// Whether none of the lines answers the call with this id.
pub open spec fn unanswered(lines: Seq<Seq<char>>, id: u64) -> bool {
    forall|j: int| 0 <= j < lines.len() ==> response_id(#[trigger] lines[j]) != Some(id)
}

/// Dispatching two runs of lines one after the other is dispatching them as
/// one run.
pub proof fn lemma_after_lines_concat(
    table: Map<u64, Sender<serde_json::Value>>,
    first: Seq<Seq<char>>,
    second: Seq<Seq<char>>,
)
    ensures
        after_lines(table, first + second) == after_lines(after_lines(table, first), second),
        outcomes_of(table, first + second) == outcomes_of(table, first) + outcomes_of(
            after_lines(table, first),
            second,
        ),
    decreases second.len(),
{
    if second.len() == 0 {
        assert(first + second =~= first);
    } else {
        let whole = first + second;
        assert(whole.drop_last() =~= first + second.drop_last());
        lemma_after_lines_concat(table, first, second.drop_last());
        assert(outcomes_of(table, whole) =~= outcomes_of(table, first) + outcomes_of(
            after_lines(table, first),
            second,
        ));
    }
}

/// After any lines, exactly those calls still wait that waited before and
/// that none of the lines answers; and each of them waits with the sending
/// end that it registered.
pub proof fn lemma_after_lines_keeps_unanswered(
    table: Map<u64, Sender<serde_json::Value>>,
    lines: Seq<Seq<char>>,
    id: u64,
)
    ensures
        after_lines(table, lines).contains_key(id) <==> table.contains_key(id) && unanswered(
            lines,
            id,
        ),
        after_lines(table, lines).contains_key(id) ==> after_lines(table, lines)[id] == table[id],
    decreases lines.len(),
{
    if lines.len() > 0 {
        let front = lines.drop_last();
        lemma_after_lines_keeps_unanswered(table, front, id);
        if unanswered(lines, id) {
            assert forall|j: int| 0 <= j < front.len() implies response_id(#[trigger] front[j])
                != Some(id) by {
                assert(front[j] == lines[j]);
            }
        }
        if unanswered(front, id) && response_id(lines.last()) != Some(id) {
            assert forall|j: int| 0 <= j < lines.len() implies response_id(#[trigger] lines[j])
                != Some(id) by {
                if j < front.len() {
                    assert(lines[j] == front[j]);
                }
            }
        }
    }
}

/// The dispatcher gives up no call: when the worker's output ends, a call
/// that none of its lines answered still waits, with the sending end that it
/// registered.
pub proof fn lemma_unanswered_call_still_waits(
    table: Map<u64, Sender<serde_json::Value>>,
    lines: Seq<Seq<char>>,
    id: u64,
)
    requires
        table.contains_key(id),
        unanswered(lines, id),
    ensures
        after_lines(table, lines).contains_key(id),
        after_lines(table, lines)[id] == table[id],
{
    lemma_after_lines_keeps_unanswered(table, lines, id);
}

/// What is done with the `k`-th line depends on the lines before it alone.
pub proof fn lemma_outcome_at(
    table: Map<u64, Sender<serde_json::Value>>,
    lines: Seq<Seq<char>>,
    k: int,
)
    requires
        0 <= k < lines.len(),
    ensures
        outcomes_of(table, lines).len() == lines.len(),
        outcomes_of(table, lines)[k] == dispatch_of(after_lines(table, lines.take(k)), lines[k]),
    decreases lines.len(),
{
    lemma_outcomes_len(table, lines);
    if k == lines.len() - 1 {
        assert(lines.take(k) =~= lines.drop_last());
    } else {
        lemma_outcome_at(table, lines.drop_last(), k);
        assert(lines.drop_last().take(k) =~= lines.take(k));
    }
}

/// Each line gets one outcome.
pub proof fn lemma_outcomes_len(table: Map<u64, Sender<serde_json::Value>>, lines: Seq<Seq<char>>)
    ensures
        outcomes_of(table, lines).len() == lines.len(),
    decreases lines.len(),
{
    if lines.len() > 0 {
        lemma_outcomes_len(table, lines.drop_last());
    }
}

/// An answer reaches the call that its id names, whatever else the worker
/// writes around it: the first line that names the id of a waiting call is
/// delivered to that call, through the sending end that the call registered.
pub proof fn lemma_answer_reaches_its_call(
    table: Map<u64, Sender<serde_json::Value>>,
    lines: Seq<Seq<char>>,
    k: int,
    id: u64,
)
    requires
        0 <= k < lines.len(),
        table.contains_key(id),
        response_id(lines[k]) == Some(id),
        unanswered(lines.take(k), id),
    ensures
        outcomes_of(table, lines)[k] == Dispatch::Delivered(id),
        after_lines(table, lines.take(k))[id] == table[id],
{
    lemma_outcome_at(table, lines, k);
    lemma_after_lines_keeps_unanswered(table, lines.take(k), id);
}

/// A delivery is owed to its line alone: a line is delivered to a call only
/// if it names the id of that call, the call waited from the start, and no
/// line before it named the same id.
pub proof fn lemma_delivery_names_its_call(
    table: Map<u64, Sender<serde_json::Value>>,
    lines: Seq<Seq<char>>,
    k: int,
    id: u64,
)
    requires
        0 <= k < lines.len(),
        outcomes_of(table, lines)[k] == Dispatch::Delivered(id),
    ensures
        response_id(lines[k]) == Some(id),
        table.contains_key(id),
        unanswered(lines.take(k), id),
{
    lemma_outcome_at(table, lines, k);
    lemma_after_lines_keeps_unanswered(table, lines.take(k), id);
}

/// Answers to different waiting calls are all delivered, each to its own
/// call, in whatever order the worker writes them.
pub proof fn lemma_every_answer_is_delivered(
    table: Map<u64, Sender<serde_json::Value>>,
    lines: Seq<Seq<char>>,
    k: int,
)
    requires
        0 <= k < lines.len(),
        forall|i: int|
            0 <= i < lines.len() ==> (response_id(#[trigger] lines[i]) matches Some(id)
                && table.contains_key(id)),
        forall|i: int, j: int|
            0 <= i < j < lines.len() ==> response_id(#[trigger] lines[i]) != response_id(
                #[trigger] lines[j],
            ),
    ensures
        outcomes_of(table, lines)[k] == Dispatch::Delivered(response_id(lines[k]).unwrap()),
        after_lines(table, lines.take(k))[response_id(lines[k]).unwrap()]
            == table[response_id(lines[k]).unwrap()],
{
    let id = response_id(lines[k]).unwrap();
    let before = lines.take(k);
    assert forall|j: int| 0 <= j < before.len() implies response_id(#[trigger] before[j]) != Some(
        id,
    ) by {
        assert(before[j] == lines[j]);
    }
    lemma_answer_reaches_its_call(table, lines, k, id);
}

/// The order in which the worker writes its lines does not matter to the
/// table: two runs that hold the same lines leave the same calls waiting.
pub proof fn lemma_order_of_lines_is_irrelevant(
    table: Map<u64, Sender<serde_json::Value>>,
    lines: Seq<Seq<char>>,
    shuffled: Seq<Seq<char>>,
)
    requires
        forall|line: Seq<char>| lines.contains(line) <==> shuffled.contains(line),
    ensures
        after_lines(table, lines) == after_lines(table, shuffled),
{
    let one = after_lines(table, lines);
    let other = after_lines(table, shuffled);
    assert forall|id: u64| #[trigger] one.contains_key(id) == other.contains_key(id) by {
        lemma_after_lines_keeps_unanswered(table, lines, id);
        lemma_after_lines_keeps_unanswered(table, shuffled, id);
        if unanswered(lines, id) && !unanswered(shuffled, id) {
            let j = choose|j: int|
                0 <= j < shuffled.len() && response_id(#[trigger] shuffled[j]) == Some(id);
            assert(shuffled.contains(shuffled[j]));
        }
        if unanswered(shuffled, id) && !unanswered(lines, id) {
            let j = choose|j: int|
                0 <= j < lines.len() && response_id(#[trigger] lines[j]) == Some(id);
            assert(lines.contains(lines[j]));
        }
    }
    assert forall|id: u64| one.contains_key(id) implies #[trigger] one[id] == other[id] by {
        lemma_after_lines_keeps_unanswered(table, lines, id);
        lemma_after_lines_keeps_unanswered(table, shuffled, id);
    }
    assert(one =~= other);
}

/// A line that cannot be decoded does not interrupt the dispatcher: the
/// lines around it are handled as if it had not been written, and the line
/// itself is thrown away.
pub proof fn lemma_undecodable_line_is_skipped(
    table: Map<u64, Sender<serde_json::Value>>,
    before: Seq<Seq<char>>,
    bad: Seq<char>,
    after: Seq<Seq<char>>,
)
    requires
        response_id(bad) is None,
    ensures
        after_lines(table, before + seq![bad] + after) == after_lines(table, before + after),
        outcomes_of(table, before + seq![bad] + after) == outcomes_of(table, before).push(
            Dispatch::Discarded,
        ) + outcomes_of(after_lines(table, before), after),
        outcomes_of(table, before + after) == outcomes_of(table, before) + outcomes_of(
            after_lines(table, before),
            after,
        ),
{
    let with_bad = before + seq![bad];
    assert(with_bad.drop_last() =~= before);
    lemma_after_lines_concat(table, with_bad, after);
    lemma_after_lines_concat(table, before, after);
}

/// A response to an id under which no call waits changes nothing.
pub proof fn lemma_stray_response_changes_nothing(
    table: Map<u64, Sender<serde_json::Value>>,
    line: Seq<char>,
)
    requires
        !(dispatch_of(table, line) is Delivered),
    ensures
        after_line(table, line) == table,
{
    assert(after_line(table, line) =~= table);
}

} // verus!
