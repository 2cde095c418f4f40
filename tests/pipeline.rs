use departures::json::Json;
use departures::pipeline::{
    delay_styling, departure_row, loading_screen, process_metadata, process_tables, station_name_of,
    DisplayRow, Styling,
};
use departures::timing::{delay_from_instants, process_delay};

// 2024-01-01T10:00:00+00:00
const NOW: i64 = 1704103200;

fn s(text: &str) -> Json {
    Json::Str(text.to_string())
}

fn obj(members: Vec<(&str, Json)>) -> Json {
    Json::Object(members.into_iter().map(|(k, v)| (k.to_string(), v)).collect())
}

fn departure(line: &str, direction: &str, when: Json, planned: Json) -> Json {
    obj(vec![
        ("line", obj(vec![("name", s(line))])),
        ("direction", s(direction)),
        ("when", when),
        ("plannedWhen", planned),
        ("stop", obj(vec![("name", s("Central"))])),
    ])
}

fn payload(items: Vec<Json>) -> Json {
    obj(vec![("departures", Json::Array(items))])
}

fn on_time(line: &str) -> Json {
    departure(line, "Town", s("2024-01-01T10:05:00+00:00"), s("2024-01-01T10:05:00+00:00"))
}

fn lines(names: &[&str]) -> Vec<String> {
    names.iter().map(|n| n.to_string()).collect()
}

fn row_lines(rows: &[DisplayRow]) -> Vec<String> {
    rows.iter().map(|r| r.line.clone()).collect()
}

#[test]
fn late_departure_end_to_end() {
    let data = payload(vec![departure(
        "S1",
        "Town",
        s("2024-01-01T10:05:00+00:00"),
        s("2024-01-01T10:00:00+00:00"),
    )]);
    let rows = process_tables(&data, &vec![], false, NOW);
    assert_eq!(rows.len(), 1);
    assert_eq!(rows[0].line, "S1");
    assert_eq!(rows[0].destination, "Town");
    assert_eq!(rows[0].wait, "5\"");
    assert_eq!(rows[0].delay, "5\"");
    assert_eq!(rows[0].styling, Styling::Late);
}

#[test]
fn on_time_departure_is_neutral() {
    let rows = process_tables(&payload(vec![on_time("S1")]), &vec![], false, NOW);
    assert_eq!(rows.len(), 1);
    assert_eq!(rows[0].delay, "(=)");
    assert_eq!(rows[0].styling, Styling::Neutral);
}

#[test]
fn early_departure() {
    let data = payload(vec![departure(
        "S1",
        "Town",
        s("2024-01-01T10:07:00+00:00"),
        s("2024-01-01T10:10:00+00:00"),
    )]);
    let rows = process_tables(&data, &vec![], false, NOW);
    assert_eq!(rows[0].wait, "7\"");
    assert_eq!(rows[0].delay, "-3\"");
    assert_eq!(rows[0].styling, Styling::Early);
}

#[test]
fn past_departure_waits_zero() {
    let data = payload(vec![departure(
        "S1",
        "Town",
        s("2024-01-01T09:50:00+00:00"),
        s("2024-01-01T09:50:00+00:00"),
    )]);
    let rows = process_tables(&data, &vec![], false, NOW);
    assert_eq!(rows[0].wait, "0\"");
}

#[test]
fn offsets_are_honoured() {
    // 11:05 at +01:00 is 10:05 UTC.
    let data = payload(vec![departure(
        "S1",
        "Town",
        s("2024-01-01T11:05:00+01:00"),
        s("2024-01-01T10:03:00+00:00"),
    )]);
    let rows = process_tables(&data, &vec![], false, NOW);
    assert_eq!(rows[0].wait, "5\"");
    assert_eq!(rows[0].delay, "2\"");
}

#[test]
fn filter_drops_unlisted_line() {
    let data = payload(vec![on_time("S1"), on_time("S2"), on_time("S1")]);
    let rows = process_tables(&data, &lines(&["S1"]), false, NOW);
    assert_eq!(row_lines(&rows), lines(&["S1", "S1"]));
}

#[test]
fn empty_filter_keeps_all_lines() {
    let data = payload(vec![on_time("S1"), on_time("S2"), on_time("U5")]);
    let rows = process_tables(&data, &vec![], false, NOW);
    assert_eq!(row_lines(&rows), lines(&["S1", "S2", "U5"]));
}

#[test]
fn cancelled_shown_when_asked() {
    let data = payload(vec![departure("S1", "Town", Json::Null, s("2024-01-01T10:00:00+00:00"))]);
    let rows = process_tables(&data, &vec![], true, NOW);
    assert_eq!(rows.len(), 1);
    assert_eq!(rows[0].line, "S1");
    assert_eq!(rows[0].wait, "CANCELLED");
    assert_eq!(rows[0].delay, "");
    assert_eq!(rows[0].styling, Styling::Plain);
}

#[test]
fn cancelled_hidden_by_default() {
    let data = payload(vec![
        departure("S1", "Town", Json::Null, s("2024-01-01T10:00:00+00:00")),
        on_time("S2"),
    ]);
    let rows = process_tables(&data, &vec![], false, NOW);
    assert_eq!(row_lines(&rows), lines(&["S2"]));
}

#[test]
fn null_planned_time_is_cancelled() {
    let data = payload(vec![departure("S1", "Town", s("2024-01-01T10:00:00+00:00"), Json::Null)]);
    let rows = process_tables(&data, &vec![], true, NOW);
    assert_eq!(rows[0].wait, "CANCELLED");
}

#[test]
fn order_is_kept_after_dropping() {
    let data = payload(vec![
        on_time("A"),
        departure("B", "Town", Json::Null, Json::Null),
        on_time("C"),
        on_time("D"),
        on_time("E"),
    ]);
    let rows = process_tables(&data, &lines(&["A", "B", "D", "E"]), false, NOW);
    assert_eq!(row_lines(&rows), lines(&["A", "D", "E"]));
}

#[test]
fn missing_departures_gives_sentinel() {
    let rows = process_tables(&obj(vec![("error", s("oops"))]), &vec![], true, NOW);
    assert_eq!(rows.len(), 1);
    assert_eq!(rows[0].line, "");
    assert_eq!(rows[0].destination, "Can't parse the data, attempting again...");
}

#[test]
fn null_payload_gives_sentinel() {
    let rows = process_tables(&Json::Null, &vec![], true, NOW);
    assert_eq!(rows.len(), 1);
    assert_eq!(rows[0].destination, "Can't parse the data, attempting again...");
}

#[test]
fn departures_not_an_array_gives_sentinel() {
    let rows = process_tables(&obj(vec![("departures", s("none"))]), &vec![], true, NOW);
    assert_eq!(rows.len(), 1);
}

#[test]
fn empty_departures_gives_no_rows() {
    let rows = process_tables(&payload(vec![]), &vec![], true, NOW);
    assert!(rows.is_empty());
}

#[test]
fn item_missing_fields_is_skipped() {
    let no_direction = obj(vec![
        ("line", obj(vec![("name", s("S9"))])),
        ("when", s("2024-01-01T10:05:00+00:00")),
        ("plannedWhen", s("2024-01-01T10:05:00+00:00")),
    ]);
    let no_when = obj(vec![
        ("line", obj(vec![("name", s("S8"))])),
        ("direction", s("Town")),
        ("plannedWhen", s("2024-01-01T10:05:00+00:00")),
    ]);
    let data = payload(vec![no_direction, no_when, on_time("S1")]);
    let rows = process_tables(&data, &vec![], true, NOW);
    assert_eq!(row_lines(&rows), lines(&["S1"]));
}

#[test]
fn bad_timestamp_is_skipped() {
    let data = payload(vec![departure("S1", "Town", s("soon"), s("2024-01-01T10:05:00+00:00")), on_time("S2")]);
    let rows = process_tables(&data, &vec![], true, NOW);
    assert_eq!(row_lines(&rows), lines(&["S2"]));
    assert!(departure_row(&departure("S1", "Town", s("10:05"), s("10:05")), &vec![], true, NOW).is_none());
}

#[test]
fn styling_partition() {
    assert_eq!(delay_styling(0), Styling::Neutral);
    assert_eq!(delay_styling(3), Styling::Late);
    assert_eq!(delay_styling(-1), Styling::Early);
}

#[test]
fn delay_from_instants_values() {
    assert_eq!(delay_from_instants(NOW + 300, NOW, NOW), (5, 5));
    assert_eq!(delay_from_instants(NOW - 600, NOW - 420, NOW), (0, -3));
    // Partial minutes round toward zero.
    assert_eq!(delay_from_instants(NOW + 119, NOW + 181, NOW), (1, -1));
    assert_eq!(delay_from_instants(i64::MAX, i64::MIN, i64::MIN), (307445734561825860, 307445734561825860));
}

#[test]
fn process_delay_parses_both() {
    assert_eq!(
        process_delay("2024-01-01T10:05:00+00:00", "2024-01-01T10:00:00+00:00", NOW),
        Some((5, 5))
    );
    assert_eq!(process_delay("2024-01-01T10:05:00+0000", "2024-01-01T10:05:00Z", NOW), None);
    assert_eq!(process_delay("garbage", "2024-01-01T10:00:00+00:00", NOW), None);
}

#[test]
fn metadata_is_first_stop_name() {
    assert_eq!(process_metadata(&payload(vec![on_time("S1")])), "Central");
    assert_eq!(process_metadata(&payload(vec![])), "STATION NAME NOT FOUND");
    assert_eq!(process_metadata(&Json::Null), "STATION NAME NOT FOUND");
}

#[test]
fn station_name_lookup() {
    assert_eq!(station_name_of(&obj(vec![("name", s("Central"))])), "Central");
    assert_eq!(station_name_of(&obj(vec![("id", s("1"))])), "STATION NAME NOT FOUND");
}

#[test]
fn loading_screen_row() {
    let rows = loading_screen();
    assert_eq!(rows.len(), 1);
    assert_eq!(rows[0].destination, "Loading the next station...");
}

#[test]
fn json_lookup_takes_first_member() {
    let v = obj(vec![("a", s("1")), ("b", s("2")), ("a", s("3"))]);
    assert_eq!(v.get("a").and_then(|x| x.as_str()).map(|x| x.as_str()), Some("1"));
    assert!(v.get("c").is_none());
    assert!(s("x").get("a").is_none());
    assert!(Json::Null.is_null());
}
