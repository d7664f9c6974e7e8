use status_relay::handler::{handle_payload, HandleError};
use status_relay::incident::{
    decode_incident, parse_event, EventRecord, IncidentRecord, ParseError, Timestamp, UpdateRecord,
};
use status_relay::post::{build, build_with_status, decide, latest_index, Action, BuildError, OutgoingPost};
use status_relay::text::{compose_status_line, truncate_body, MAX_BODY_CHARS};

fn update(body: &str, display_at: &str) -> UpdateRecord {
    UpdateRecord { body: body.to_string(), display_at: display_at.to_string() }
}

fn incident(backfilled: bool, status: &str, updates: Vec<UpdateRecord>) -> IncidentRecord {
    IncidentRecord {
        backfilled,
        status: status.to_string(),
        shortlink: "https://status.example/1".to_string(),
        name: "API outage".to_string(),
        incident_updates: updates,
    }
}

fn event(inc: Option<IncidentRecord>) -> Option<EventRecord> {
    Some(EventRecord { incident: inc })
}

fn published(r: Result<Action, HandleError>) -> OutgoingPost {
    match r {
        Ok(Action::Publish(post)) => post,
        Ok(Action::SkipNoIncident) => panic!("skipped: no incident"),
        Ok(Action::SkipBackfilled) => panic!("skipped: backfilled"),
        Err(e) => panic!("failed: {:?}", e),
    }
}

#[test]
fn single_update_post() {
    let inc = incident(false, "investigating", vec![update("We are investigating.", "2024-01-01T00:00:00Z")]);
    let post = published(handle_payload(event(Some(inc))));
    assert_eq!(post.text, "[update] Investigating: We are investigating.");
    assert_eq!(post.created_at, "2024-01-01T00:00:00Z");
    assert_eq!(post.langs, vec!["en".to_string()]);
    let embed = post.embed.expect("embed");
    assert_eq!(embed.uri, "https://status.example/1");
    assert_eq!(embed.title, "API outage");
    assert_eq!(embed.description, "We are investigating.");
}

#[test]
fn later_update_wins_in_either_order() {
    let first = update("first", "2024-01-01T00:00:00Z");
    let second = update("second", "2024-01-02T00:00:00Z");
    for updates in [
        vec![update("first", "2024-01-01T00:00:00Z"), update("second", "2024-01-02T00:00:00Z")],
        vec![second, first],
    ] {
        let post = published(handle_payload(event(Some(incident(false, "identified", updates)))));
        assert_eq!(post.text, "[update] Identified: second");
        assert_eq!(post.created_at, "2024-01-02T00:00:00Z");
    }
}

#[test]
fn long_body_is_cut_in_post() {
    let body = "a".repeat(300);
    let post = published(handle_payload(event(Some(incident(false, "resolved", vec![update(&body, "2024-01-01T00:00:00Z")])))));
    let shown = format!("{}...", "a".repeat(250));
    assert_eq!(post.text, format!("[update] Resolved: {}", shown));
    assert_eq!(post.embed.expect("embed").description, shown);
}

#[test]
fn short_body_is_unchanged() {
    assert_eq!(truncate_body(""), "");
    assert_eq!(truncate_body("We are investigating."), "We are investigating.");
    let exact = "b".repeat(MAX_BODY_CHARS);
    assert_eq!(truncate_body(&exact), exact);
}

#[test]
fn body_one_over_budget_gets_ellipsis() {
    let body = "c".repeat(251);
    assert_eq!(truncate_body(&body), format!("{}...", "c".repeat(250)));
}

#[test]
fn multibyte_body_is_cut_by_characters() {
    let body = "é".repeat(300);
    let r = truncate_body(&body);
    assert_eq!(r.chars().count(), 253);
    assert_eq!(r, format!("{}...", "é".repeat(250)));
    let fits = "日本".repeat(125);
    assert_eq!(truncate_body(&fits), fits);
}

#[test]
fn status_line_layout() {
    assert_eq!(compose_status_line("Monitoring", "all good"), "[update] Monitoring: all good");
}

#[test]
fn status_is_title_cased() {
    let inc = decode_incident(&incident(false, "under maintenance", vec![update("x", "2024-01-01T00:00:00Z")])).unwrap();
    let post = build(&inc).unwrap();
    assert_eq!(post.text, "[update] Under Maintenance: x");
}

#[test]
fn preformatted_status_is_kept() {
    let inc = decode_incident(&incident(false, "investigating", vec![update("x", "2024-01-01T00:00:00Z")])).unwrap();
    let post = build_with_status(&inc, "INVESTIGATING").unwrap();
    assert_eq!(post.text, "[update] INVESTIGATING: x");
}

#[test]
fn absent_incident_is_skipped() {
    assert!(matches!(handle_payload(event(None)), Ok(Action::SkipNoIncident)));
}

#[test]
fn backfilled_incident_is_skipped() {
    let inc = incident(true, "resolved", vec![update("old news", "2024-01-01T00:00:00Z")]);
    assert!(matches!(handle_payload(event(Some(inc))), Ok(Action::SkipBackfilled)));
    let bare = incident(true, "resolved", vec![]);
    assert!(matches!(handle_payload(event(Some(bare))), Ok(Action::SkipBackfilled)));
}

#[test]
fn empty_updates_fail() {
    let inc = incident(false, "investigating", vec![]);
    assert!(matches!(handle_payload(event(Some(inc))), Err(HandleError::Build(BuildError::NoUpdates))));
    let decoded = decode_incident(&incident(false, "investigating", vec![])).unwrap();
    assert!(matches!(build(&decoded), Err(BuildError::NoUpdates)));
}

#[test]
fn missing_payload_is_empty_error() {
    assert!(matches!(handle_payload(None), Err(HandleError::Parse(ParseError::Empty))));
    assert!(matches!(parse_event(None), Err(ParseError::Empty)));
}

#[test]
fn bad_timestamp_is_malformed() {
    let inc = incident(false, "investigating", vec![update("x", "yesterday")]);
    assert!(matches!(handle_payload(event(Some(inc))), Err(HandleError::Parse(ParseError::Malformed))));
    let no_offset = incident(false, "investigating", vec![update("x", "2024-01-01T00:00:00")]);
    assert!(matches!(parse_event(event(Some(no_offset))), Err(ParseError::Malformed)));
}

#[test]
fn timestamps_decode_to_instants() {
    let inc = decode_incident(&incident(
        false,
        "investigating",
        vec![update("x", "2024-01-01T00:00:00Z"), update("y", "1970-01-01T00:00:01.5+00:00")],
    ))
    .unwrap();
    assert_eq!(inc.updates[0].at, Timestamp { secs: 1704067200, nanos: 0 });
    assert_eq!(inc.updates[1].at, Timestamp { secs: 1, nanos: 500_000_000 });
}

#[test]
fn offsets_are_compared_as_instants() {
    // 01:00 at +02:00 is 23:00 UTC on the previous day.
    let updates = vec![update("utc", "2024-01-01T00:00:00Z"), update("plus two", "2024-01-01T01:00:00+02:00")];
    let post = published(handle_payload(event(Some(incident(false, "monitoring", updates)))));
    assert_eq!(post.text, "[update] Monitoring: utc");
}

#[test]
fn equal_instants_keep_list_order() {
    let updates = vec![
        update("early", "2023-12-31T00:00:00Z"),
        update("first of two", "2024-01-01T00:00:00Z"),
        update("second of two", "2024-01-01T02:00:00+02:00"),
    ];
    let inc = decode_incident(&incident(false, "identified", updates)).unwrap();
    assert_eq!(latest_index(&inc.updates), Some(1));
    assert_eq!(build(&inc).unwrap().text, "[update] Identified: first of two");
}

#[test]
fn latest_index_of_nothing() {
    let inc = decode_incident(&incident(false, "identified", vec![])).unwrap();
    assert_eq!(latest_index(&inc.updates), None);
}

#[test]
fn timestamp_order() {
    let a = Timestamp { secs: 5, nanos: 10 };
    let b = Timestamp { secs: 5, nanos: 11 };
    let c = Timestamp { secs: 6, nanos: 0 };
    assert!(a.before(&b));
    assert!(b.before(&c));
    assert!(!b.before(&a));
    assert!(!a.before(&a));
}

#[test]
fn decide_follows_the_gate() {
    let ev = parse_event(event(Some(incident(true, "resolved", vec![])))).unwrap();
    assert!(matches!(decide(&ev), Ok(Action::SkipBackfilled)));
    let ev = parse_event(event(None)).unwrap();
    assert!(matches!(decide(&ev), Ok(Action::SkipNoIncident)));
    let ev = parse_event(event(Some(incident(false, "resolved", vec![])))).unwrap();
    assert!(matches!(decide(&ev), Err(BuildError::NoUpdates)));
}
