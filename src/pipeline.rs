//! From a departures payload to the rows of the departure table.
use vstd::prelude::*;
use vstd::string::StringExecFns;

use crate::json::{json_get, json_str, Json};
use crate::text::{decimal, decimal_string};
use crate::timing::{delay_of, process_delay};

verus! {

/// How the delay column of a row is styled.
#[derive(Clone, Copy, Debug, PartialEq, Eq, Structural)]
pub enum Styling {
    /// A row that carries no delay: a cancelled departure or a notice.
    Plain,
    /// On time.
    Neutral,
    Late,
    Early,
}

/// One row of the departure table, as the renderer draws it.
#[derive(Debug)]
pub struct DisplayRow {
    pub line: String,
    pub destination: String,
    pub wait: String,
    pub delay: String,
    pub styling: Styling,
}

/// The text of a row.
pub struct RowView {
    pub line: Seq<char>,
    pub destination: Seq<char>,
    pub wait: Seq<char>,
    pub delay: Seq<char>,
    pub styling: Styling,
}

impl View for DisplayRow {
    type V = RowView;

    open spec fn view(&self) -> RowView {
        RowView {
            line: self.line@,
            destination: self.destination@,
            wait: self.wait@,
            delay: self.delay@,
            styling: self.styling,
        }
    }
}

/// The styling that a delay in minutes calls for.
pub open spec fn styling_of(delay: int) -> Styling {
    if delay == 0 {
        Styling::Neutral
    } else if delay > 0 {
        Styling::Late
    } else {
        Styling::Early
    }
}

/// The delay column's text: `(=)` when on time, else the signed minutes.
pub open spec fn delay_text(delay: int) -> Seq<char> {
    if delay == 0 {
        "(=)"@
    } else {
        decimal(delay) + "\""@
    }
}

/// A row with no delay: the notice `text` in the destination column.
pub open spec fn notice_row(text: Seq<char>) -> RowView {
    RowView { line: ""@, destination: text, wait: ""@, delay: ""@, styling: Styling::Plain }
}

/// The row shown in place of the table when the payload holds no departures list.
pub open spec fn sentinel_row() -> RowView {
    notice_row("Can't parse the data, attempting again..."@)
}

pub open spec fn cancelled_row(line: Seq<char>, destination: Seq<char>) -> RowView {
    RowView { line, destination, wait: "CANCELLED"@, delay: ""@, styling: Styling::Plain }
}

pub open spec fn timed_row(line: Seq<char>, destination: Seq<char>, wait: int, delay: int) -> RowView {
    RowView {
        line,
        destination,
        wait: decimal(wait) + "\""@,
        delay: delay_text(delay),
        styling: styling_of(delay),
    }
}

/// Whether the line filter lets `line` through: an empty filter lets all through.
pub open spec fn line_passes(lines: Seq<String>, line: Seq<char>) -> bool {
    lines.len() == 0 || exists|i: int| 0 <= i < lines.len() && lines[i]@ == line
}

/// The line name of a departure, when it is a string.
pub open spec fn line_of(e: Json) -> Option<Seq<char>> {
    match json_get(e, "line"@) {
        Some(l) => match json_get(l, "name"@) {
            Some(n) => json_str(n),
            None => None,
        },
        None => None,
    }
}

/// The destination of a departure, when it is a string.
pub open spec fn destination_of(e: Json) -> Option<Seq<char>> {
    match json_get(e, "direction"@) {
        Some(d) => json_str(d),
        None => None,
    }
}

/// The row for a departure, for a line and destination that have been read:
/// `None` when it is dropped or its times cannot be read.
pub open spec fn times_row(
    e: Json,
    line: Seq<char>,
    destination: Seq<char>,
    show_cancelled: bool,
    now: int,
) -> Option<RowView> {
    match (json_get(e, "when"@), json_get(e, "plannedWhen"@)) {
        (Some(w), Some(p)) => if w is Null || p is Null {
            if show_cancelled {
                Some(cancelled_row(line, destination))
            } else {
                None
            }
        } else {
            match (json_str(w), json_str(p)) {
                (Some(ws), Some(ps)) => match delay_of(ws, ps, now) {
                    Some(t) => Some(timed_row(line, destination, t.0, t.1)),
                    None => None,
                },
                _ => None,
            }
        },
        _ => None,
    }
}

/// The row for one departure of the payload, or `None` when it is filtered
/// out, dropped as cancelled, or lacks a field that it needs.
pub open spec fn item_row(e: Json, lines: Seq<String>, show_cancelled: bool, now: int) -> Option<
    RowView,
> {
    match (line_of(e), destination_of(e)) {
        (Some(line), Some(destination)) => if !line_passes(lines, line) {
            None
        } else {
            times_row(e, line, destination, show_cancelled, now)
        },
        _ => None,
    }
}

/// The rows for a list of departures, in their order.
pub open spec fn rows_of(items: Seq<Json>, lines: Seq<String>, show_cancelled: bool, now: int) -> Seq<
    RowView,
>
    decreases items.len(),
{
    if items.len() == 0 {
        Seq::empty()
    } else {
        let rest = rows_of(items.drop_last(), lines, show_cancelled, now);
        match item_row(items.last(), lines, show_cancelled, now) {
            Some(r) => rest.push(r),
            None => rest,
        }
    }
}

/// The table for a payload: its departures' rows, or the sentinel row alone
/// when it holds no `departures` array.
pub open spec fn table_of(data: Json, lines: Seq<String>, show_cancelled: bool, now: int) -> Seq<
    RowView,
> {
    match json_get(data, "departures"@) {
        Some(Json::Array(items)) => rows_of(items@, lines, show_cancelled, now),
        _ => seq![sentinel_row()],
    }
}

pub open spec fn row_views(rows: Seq<DisplayRow>) -> Seq<RowView> {
    rows.map_values(|r: DisplayRow| r@)
}

/// The styling for a delay in minutes.
pub fn delay_styling(delay: i64) -> (r: Styling)
    ensures
        r == styling_of(delay as int),
        r == Styling::Neutral <==> delay == 0,
        r == Styling::Late <==> delay > 0,
        r == Styling::Early <==> delay < 0,
{
    if delay == 0 {
        Styling::Neutral
    } else if delay > 0 {
        Styling::Late
    } else {
        Styling::Early
    }
}

fn notice(text: &str) -> (r: DisplayRow)
    ensures
        r@ == notice_row(text@),
{
    DisplayRow {
        line: String::from_str(""),
        destination: String::from_str(text),
        wait: String::from_str(""),
        delay: String::from_str(""),
        styling: Styling::Plain,
    }
}

/// The table shown while the next station loads: one notice row.
pub fn loading_screen() -> (r: Vec<DisplayRow>)
    ensures
        row_views(r@) == seq![notice_row("Loading the next station..."@)],
{
    let mut v = Vec::new();
    v.push(notice("Loading the next station..."));
    assert(row_views(v@) =~= seq![notice_row("Loading the next station..."@)]);
    v
}

/// The row of a departure with both times known.
pub fn timed_display_row(line: String, destination: String, wait: i64, delay: i64) -> (r: DisplayRow)
    ensures
        r@ == timed_row(line@, destination@, wait as int, delay as int),
{
    let w = decimal_string(wait).concat("\"");
    let d = if delay == 0 {
        String::from_str("(=)")
    } else {
        decimal_string(delay).concat("\"")
    };
    DisplayRow { line, destination, wait: w, delay: d, styling: delay_styling(delay) }
}

/// Whether `line` passes the filter `lines`; an empty filter passes every line.
pub fn line_selected(lines: &Vec<String>, line: &String) -> (r: bool)
    ensures
        r == line_passes(lines@, line@),
{
    if lines.len() == 0 {
        return true;
    }
    let mut i: usize = 0;
    while i < lines.len()
        invariant
            0 <= i <= lines.len(),
            forall|j: int| 0 <= j < i ==> lines@[j]@ != line@,
        decreases lines.len() - i,
    {
        if lines[i] == *line {
            return true;
        }
        i = i + 1;
    }
    false
}

fn string_field<'a>(v: Option<&'a Json>) -> (r: Option<&'a String>)
    ensures
        r.is_some() == (v.is_some() && json_str(*v.unwrap()).is_some()),
        r.is_some() ==> json_str(*v.unwrap()) == Some(r.unwrap()@),
{
    match v {
        Some(j) => j.as_str(),
        None => None,
    }
}

/// The row for one departure of a payload, or `None` when it is filtered out,
/// dropped as cancelled, or lacks a field that it needs.
pub fn departure_row(e: &Json, lines: &Vec<String>, show_cancelled: bool, now: i64) -> (r: Option<
    DisplayRow,
>)
    ensures
        match r {
            Some(x) => item_row(*e, lines@, show_cancelled, now as int) == Some(x@),
            None => item_row(*e, lines@, show_cancelled, now as int).is_none(),
        },
{
    let line = match e.get("line") {
        Some(l) => match string_field(l.get("name")) {
            Some(n) => n,
            None => return None,
        },
        None => return None,
    };
    let destination = match string_field(e.get("direction")) {
        Some(d) => d,
        None => return None,
    };
    if !line_selected(lines, line) {
        return None;
    }
    let (w, p) = match (e.get("when"), e.get("plannedWhen")) {
        (Some(w), Some(p)) => (w, p),
        _ => return None,
    };
    if w.is_null() || p.is_null() {
        if show_cancelled {
            return Some(
                DisplayRow {
                    line: line.clone(),
                    destination: destination.clone(),
                    wait: String::from_str("CANCELLED"),
                    delay: String::from_str(""),
                    styling: Styling::Plain,
                },
            );
        }
        return None;
    }
    let (ws, ps) = match (w.as_str(), p.as_str()) {
        (Some(ws), Some(ps)) => (ws, ps),
        _ => return None,
    };
    match process_delay(ws.as_str(), ps.as_str(), now) {
        Some(t) => Some(timed_display_row(line.clone(), destination.clone(), t.0, t.1)),
        None => None,
    }
}

/// Rows of the departure table for a payload, in the order of its
/// `departures` array; a payload without that array gives the sentinel row alone.
pub fn process_tables(data: &Json, lines: &Vec<String>, show_cancelled: bool, now: i64) -> (r: Vec<
    DisplayRow,
>)
    ensures
        row_views(r@) == table_of(*data, lines@, show_cancelled, now as int),
{
    let mut rows: Vec<DisplayRow> = Vec::new();
    match data.get("departures") {
        Some(Json::Array(items)) => {
            let mut i: usize = 0;
            while i < items.len()
                invariant
                    0 <= i <= items.len(),
                    row_views(rows@) == rows_of(items@.subrange(0, i as int), lines@, show_cancelled, now as int),
                decreases items.len() - i,
            {
                let ghost before = rows@;
                let row = departure_row(&items[i], lines, show_cancelled, now);
                proof {
                    let pre = items@.subrange(0, i + 1);
                    assert(pre.drop_last() =~= items@.subrange(0, i as int));
                    assert(pre.last() == items@[i as int]);
                }
                match row {
                    Some(x) => {
                        rows.push(x);
                        assert(row_views(rows@) =~= row_views(before).push(x@));
                    },
                    None => {},
                }
                i = i + 1;
            }
            assert(items@.subrange(0, items@.len() as int) =~= items@);
        },
        _ => {
            rows.push(notice("Can't parse the data, attempting again..."));
            assert(row_views(rows@) =~= seq![sentinel_row()]);
        },
    }
    rows
}

/// The name of the station that a payload's first departure stops at.
pub open spec fn first_stop_name(data: Json) -> Option<Seq<char>> {
    match json_get(data, "departures"@) {
        Some(Json::Array(items)) => if items@.len() > 0 {
            match json_get(items@[0], "stop"@) {
                Some(s) => match json_get(s, "name"@) {
                    Some(n) => json_str(n),
                    None => None,
                },
                None => None,
            }
        } else {
            None
        },
        _ => None,
    }
}

/// What the header shows when a payload names no station.
pub open spec fn unknown_station() -> Seq<char> {
    "STATION NAME NOT FOUND"@
}

/// The header text for a payload.
pub open spec fn metadata_of(data: Json) -> Seq<char> {
    match first_stop_name(data) {
        Some(n) => n,
        None => unknown_station(),
    }
}

/// The header text for a payload: the name of the station its departures stop at.
pub fn process_metadata(data: &Json) -> (r: String)
    ensures
        r@ == metadata_of(*data),
{
    if let Some(Json::Array(items)) = data.get("departures") {
        if items.len() > 0 {
            if let Some(stop) = items[0].get("stop") {
                if let Some(n) = string_field(stop.get("name")) {
                    return n.clone();
                }
            }
        }
    }
    String::from_str("STATION NAME NOT FOUND")
}

/// The station's name from the payload of a station lookup: its `name` member.
pub fn station_name_of(data: &Json) -> (r: String)
    ensures
        r@ == match json_get(*data, "name"@) {
            Some(n) => match json_str(n) {
                Some(s) => s,
                None => unknown_station(),
            },
            None => unknown_station(),
        },
{
    match string_field(data.get("name")) {
        Some(n) => n.clone(),
        None => String::from_str("STATION NAME NOT FOUND"),
    }
}

} // verus!
