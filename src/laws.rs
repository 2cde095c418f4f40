//! Properties of the departure pipeline, stated over the spec functions that its contracts use.
use vstd::prelude::*;

use crate::json::{json_get, Json};
use crate::pipeline::{
    cancelled_row, destination_of, item_row, line_of, line_passes, rows_of, styling_of, times_row,
    Styling,
};
use crate::timing::delay_of;

verus! {

/// A departure whose times parse never has a negative wait.
pub proof fn lemma_wait_never_negative(actual: Seq<char>, planned: Seq<char>, now: int)
    ensures
        delay_of(actual, planned, now) matches Some(t) ==> t.0 >= 0,
{
}

/// The delay styling splits the delays in three: on time exactly at zero,
/// late exactly above, early exactly below.
pub proof fn lemma_styling_partition(delay: int)
    ensures
        styling_of(delay) == Styling::Neutral <==> delay == 0,
        styling_of(delay) == Styling::Late <==> delay > 0,
        styling_of(delay) == Styling::Early <==> delay < 0,
        styling_of(delay) != Styling::Plain,
{
}

/// The rows of two lists of departures, one after the other, are the rows of
/// the first followed by the rows of the second: filtering keeps the order.
pub proof fn lemma_rows_append(
    a: Seq<Json>,
    b: Seq<Json>,
    lines: Seq<String>,
    show_cancelled: bool,
    now: int,
)
    ensures
        rows_of(a + b, lines, show_cancelled, now) == rows_of(a, lines, show_cancelled, now) + rows_of(
            b,
            lines,
            show_cancelled,
            now,
        ),
    decreases b.len(),
{
    if b.len() == 0 {
        assert(a + b =~= a);
        assert(rows_of(a, lines, show_cancelled, now) + rows_of(b, lines, show_cancelled, now)
            =~= rows_of(a, lines, show_cancelled, now));
    } else {
        lemma_rows_append(a, b.drop_last(), lines, show_cancelled, now);
        assert((a + b).drop_last() =~= a + b.drop_last());
        assert((a + b).last() == b.last());
        let ra = rows_of(a, lines, show_cancelled, now);
        let rb = rows_of(b.drop_last(), lines, show_cancelled, now);
        match item_row(b.last(), lines, show_cancelled, now) {
            Some(r) => {
                assert((ra + rb).push(r) =~= ra + rb.push(r));
            },
            None => {},
        }
    }
}

/// A departure that yields a row gives it its own line, and that line passes the filter.
pub proof fn lemma_row_line(e: Json, lines: Seq<String>, show_cancelled: bool, now: int)
    ensures
        item_row(e, lines, show_cancelled, now) matches Some(r) ==> (line_of(e) == Some(r.line)
            && line_passes(lines, r.line)),
{
}

/// With a non-empty line filter, every row shown is of a listed line.
pub proof fn lemma_filter_keeps_listed_lines(
    items: Seq<Json>,
    lines: Seq<String>,
    show_cancelled: bool,
    now: int,
)
    requires
        lines.len() > 0,
    ensures
        forall|k: int|
            0 <= k < rows_of(items, lines, show_cancelled, now).len() ==> exists|j: int|
                0 <= j < lines.len() && lines[j]@ == #[trigger] rows_of(
                    items,
                    lines,
                    show_cancelled,
                    now,
                )[k].line,
    decreases items.len(),
{
    if items.len() > 0 {
        lemma_filter_keeps_listed_lines(items.drop_last(), lines, show_cancelled, now);
        lemma_row_line(items.last(), lines, show_cancelled, now);
        let rest = rows_of(items.drop_last(), lines, show_cancelled, now);
        let rows = rows_of(items, lines, show_cancelled, now);
        assert forall|k: int| 0 <= k < rows.len() implies exists|j: int|
            0 <= j < lines.len() && lines[j]@ == #[trigger] rows[k].line by {
            if k < rest.len() {
                assert(rows[k] == rest[k]);
            } else {
                let r = item_row(items.last(), lines, show_cancelled, now).unwrap();
                assert(rows[k] == r);
                assert(line_passes(lines, r.line));
            }
        }
    }
}

/// A departure of an unlisted line yields no row.
pub proof fn lemma_unlisted_line_dropped(e: Json, lines: Seq<String>, show_cancelled: bool, now: int)
    requires
        line_of(e) matches Some(l) && !line_passes(lines, l),
    ensures
        item_row(e, lines, show_cancelled, now).is_none(),
{
}

/// With an empty filter no departure is dropped for its line: its row is the
/// one its times give.
pub proof fn lemma_empty_filter_passes_all(e: Json, show_cancelled: bool, now: int)
    ensures
        item_row(e, Seq::empty(), show_cancelled, now) == match (line_of(e), destination_of(e)) {
            (Some(l), Some(d)) => times_row(e, l, d, show_cancelled, now),
            _ => None,
        },
{
}

/// A departure with a null actual or planned time is shown exactly when
/// cancelled departures are shown, and then as a row tagged `CANCELLED`
/// with no delay.
pub proof fn lemma_cancelled_shown_iff(
    e: Json,
    lines: Seq<String>,
    show_cancelled: bool,
    now: int,
    line: Seq<char>,
    destination: Seq<char>,
)
    requires
        line_of(e) == Some(line),
        destination_of(e) == Some(destination),
        line_passes(lines, line),
        json_get(e, "when"@) matches Some(w),
        json_get(e, "plannedWhen"@) matches Some(p),
        json_get(e, "when"@).unwrap() is Null || json_get(
            e,
            "plannedWhen"@,
        ).unwrap() is Null,
    ensures
        item_row(e, lines, show_cancelled, now).is_some() == show_cancelled,
        show_cancelled ==> item_row(e, lines, show_cancelled, now) == Some(
            cancelled_row(line, destination),
        ),
        cancelled_row(line, destination).wait == "CANCELLED"@,
        cancelled_row(line, destination).styling == Styling::Plain,
{
}

} // verus!
