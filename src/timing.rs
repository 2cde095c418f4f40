//! Wait and delay of a departure, in whole minutes.
use vstd::prelude::*;

verus! {

/// The layout of the API's timestamps: date, time and UTC offset.
pub const DATE_FORMAT: &'static str = "%Y-%m-%dT%H:%M:%S%z";

/// The instant, in seconds since the Unix epoch, that `text` denotes when read
/// with the layout `format`; `None` when it does not match.
pub uninterp spec fn instant_of(text: Seq<char>, format: Seq<char>) -> Option<i64>;

/// Relies on chrono's `DateTime::parse_from_str` (the text must carry a UTC
/// offset) followed by `DateTime::timestamp`: the outcome depends on the two
/// strings alone.
#[verifier::external_body]
fn parse_instant(text: &str, format: &str) -> (r: Option<i64>)
    ensures
        r == instant_of(text@, format@),
{
    match chrono::DateTime::parse_from_str(text, format) {
        Ok(t) => Some(t.timestamp()),
        Err(_) => None,
    }
}

/// Whole minutes from `earlier` to `later`, rounded toward zero (negative when
/// `later` comes first).
pub open spec fn minutes_between(later: int, earlier: int) -> int {
    let d = later - earlier;
    if d >= 0 {
        d / 60
    } else {
        -((-d) / 60)
    }
}

/// Minutes to wait until `actual`, seen at `now`; a departure in the past is due now.
pub open spec fn wait_minutes(actual: int, now: int) -> int {
    let m = minutes_between(actual, now);
    if m > 0 {
        m
    } else {
        0
    }
}

/// Wait and delay of a departure, from its timestamps; `None` when either
/// does not parse.
pub open spec fn delay_of(actual: Seq<char>, planned: Seq<char>, now: int) -> Option<(int, int)> {
    match (instant_of(actual, DATE_FORMAT@), instant_of(planned, DATE_FORMAT@)) {
        (Some(a), Some(p)) => Some((wait_minutes(a as int, now), minutes_between(a as int, p as int))),
        _ => None,
    }
}

fn minutes_between_exec(later: i64, earlier: i64) -> (r: i64)
    ensures
        r == minutes_between(later as int, earlier as int),
{
    let d: i128 = later as i128 - earlier as i128;
    if d >= 0 {
        assert(d / 60 <= d);
        (d / 60) as i64
    } else {
        let e: i128 = -d;
        assert(e / 60 <= e);
        assert(e / 60 < 0x7fff_ffff_ffff_ffff) by {
            assert(e <= 0x1_0000_0000_0000_0000);
        }
        -((e / 60) as i64)
    }
}

/// Wait and delay of a departure from its actual and planned instants and the
/// current one (seconds since the epoch). The wait is never negative.
pub fn delay_from_instants(actual: i64, planned: i64, now: i64) -> (r: (i64, i64))
    ensures
        r.0 == wait_minutes(actual as int, now as int),
        r.1 == minutes_between(actual as int, planned as int),
        r.0 >= 0,
{
    let m = minutes_between_exec(actual, now);
    let wait = if m > 0 { m } else { 0 };
    (wait, minutes_between_exec(actual, planned))
}

/// Wait and delay of a departure whose actual and planned times are given as
/// timestamps in `DATE_FORMAT`; `None` when either does not parse.
pub fn process_delay(actual_departure: &str, planned_departure: &str, now: i64) -> (r: Option<(i64, i64)>)
    ensures
        match r {
            Some(p) => delay_of(actual_departure@, planned_departure@, now as int) == Some((p.0 as int, p.1 as int)),
            None => delay_of(actual_departure@, planned_departure@, now as int).is_none(),
        },
        r matches Some(p) ==> p.0 >= 0,
{
    let a = parse_instant(actual_departure, DATE_FORMAT);
    let p = parse_instant(planned_departure, DATE_FORMAT);
    match (a, p) {
        (Some(a), Some(p)) => Some(delay_from_instants(a, p, now)),
        _ => None,
    }
}

} // verus!
