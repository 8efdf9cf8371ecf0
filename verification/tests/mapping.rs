//! The mapping engine: counts, the two conversions, and session
//! parsing.

use sbh::error::Error;
use sbh::json::JsonValue;
use sbh::session::{SavedSession, Session, SessionRecord};
use sbh::tab::Tab;
use sbh::window::Window;

fn parse(text: &str) -> JsonValue {
    JsonValue::parse_document(text).expect("document should parse")
}

fn bare_window(tab_count: usize) -> Window {
    let mut tabs: Vec<Tab> = Vec::new();
    for i in 0..tab_count {
        let mut t = Tab::new();
        t.index = i as i64;
        tabs.push(t);
    }
    Window {
        nx_title: None,
        always_on_top: false,
        focused: false,
        height: None,
        id: None,
        incognito: false,
        left: None,
        session_id: None,
        state: None,
        tabs: if tab_count == 0 { None } else { Some(tabs) },
        top: None,
        type_: None,
        width: None,
    }
}

fn sample_session() -> SavedSession {
    SavedSession {
        id: None,
        name: String::from("workday"),
        generation_date_time: String::from("2023-01-01T00:00:00Z"),
        creation_date_time: String::from("2023-01-01T00:00:00Z"),
        modification_date_time: String::from("2023-01-02T00:00:00Z"),
        tags: String::from(""),
        deleted: String::from("true"),
        windows: vec![bare_window(2), bare_window(0), bare_window(3)],
        unfiltered_window_count: 0,
        filtered_window_count: 0,
        unfiltered_tab_count: 0,
        filtered_tab_count: 0,
    }
}

#[test]
fn count_windows_is_the_array_length() {
    let s = sample_session();
    assert_eq!(s.count_windows().expect("count"), 3);
}

#[test]
fn count_tabs_sums_and_treats_absent_tabs_as_empty() {
    let s = sample_session();
    // the middle window has no tabs array at all and contributes zero
    assert_eq!(s.count_tabs().expect("count"), 5);
}

#[test]
fn counts_of_an_empty_array_are_zero() {
    let mut s = sample_session();
    s.windows = Vec::new();
    assert_eq!(s.count_windows().expect("count"), 0);
    assert_eq!(s.count_tabs().expect("count"), 0);
}

#[test]
fn export_then_import_preserves_the_round_trip_fields() {
    let s = sample_session();
    let exported = s.to_interchange(String::from("AAAABBBBCCCCDDDDEEEEFFFFGGGGHHHH"));
    let back = exported.to_storage().expect("storage conversion");
    assert_eq!(back.generation_date_time, s.generation_date_time);
    assert_eq!(back.modification_date_time, s.modification_date_time);
    assert_eq!(back.id, s.id);
    assert_eq!(back.windows.len(), s.windows.len());
    assert_eq!(
        back.windows[0].to_json().to_text(),
        s.windows[0].to_json().to_text()
    );
    assert_eq!(
        back.windows[2].to_json().to_text(),
        s.windows[2].to_json().to_text()
    );
    // the deletion marker is reset, not carried
    assert_eq!(back.deleted, "false");
    // the counts are recomputed from the windows array
    assert_eq!(back.unfiltered_window_count, 3);
    assert_eq!(back.filtered_window_count, 3);
    assert_eq!(back.unfiltered_tab_count, 5);
    assert_eq!(back.filtered_tab_count, 5);
}

#[test]
fn export_stamps_the_interchange_form() {
    let s = sample_session();
    match s.to_interchange(String::from("AAAABBBBCCCCDDDDEEEEFFFFGGGGHHHH")) {
        Session::Saved(rec) => {
            assert_eq!(rec.generated, "2023-01-01T00:00:00Z");
            assert_eq!(rec.modified.as_deref(), Some("2023-01-02T00:00:00Z"));
            assert_eq!(rec.gid.as_deref(), Some("AAAABBBBCCCCDDDDEEEEFFFFGGGGHHHH"));
            assert!(rec.id.is_none());
            assert_eq!(rec.windows.len(), 3);
        }
        _ => panic!("expected a saved session"),
    }
}

#[test]
fn import_requires_the_modification_timestamp() {
    let rec = SessionRecord {
        generated: String::from("2023-01-01T00:00:00Z"),
        modified: None,
        id: Some(9),
        gid: None,
        windows: vec![bare_window(1)],
    };
    match Session::Saved(rec).to_storage() {
        Err(Error::MissingField(k)) => assert_eq!(k, "modified"),
        _ => panic!("expected a missing field"),
    }
}

#[test]
fn import_strips_the_identifier() {
    let rec = SessionRecord {
        generated: String::from("2023-01-01T00:00:00Z"),
        modified: Some(String::from("2023-01-02T00:00:00Z")),
        id: Some(9),
        gid: Some(String::from("AAAABBBBCCCCDDDDEEEEFFFFGGGGHHHH")),
        windows: vec![bare_window(1)],
    };
    let row = Session::Saved(rec).to_storage().expect("storage conversion");
    assert!(row.id.is_none());
    assert_eq!(row.name, "");
    assert_eq!(row.tags, "");
}

#[test]
fn session_serializes_in_interchange_order() {
    let rec = SessionRecord {
        generated: String::from("2023-01-01T00:00:00Z"),
        modified: Some(String::from("2023-01-02T00:00:00Z")),
        id: Some(5),
        gid: Some(String::from("AAAABBBBCCCCDDDDEEEEFFFFGGGGHHHH")),
        windows: vec![],
    };
    assert_eq!(
        Session::Saved(rec).to_json().to_text(),
        "{\"type\":\"saved\",\"generated\":\"2023-01-01T00:00:00Z\",\
         \"modified\":\"2023-01-02T00:00:00Z\",\"id\":5,\
         \"gid\":\"AAAABBBBCCCCDDDDEEEEFFFFGGGGHHHH\",\"windows\":[]}"
    );
}

#[test]
fn session_parses_each_kind() {
    for (tag, text) in [
        ("saved", "{\"type\":\"saved\",\"generated\":\"2023-01-01T00:00:00Z\",\"windows\":[]}"),
        ("previous", "{\"type\":\"previous\",\"generated\":\"2023-01-01T00:00:00Z\",\"windows\":[]}"),
        ("current", "{\"type\":\"current\",\"generated\":\"2023-01-01T00:00:00Z\",\"windows\":[]}"),
    ] {
        let s = Session::from_json(&parse(text)).expect("session should parse");
        let matches_tag = match (&s, tag) {
            (Session::Saved(_), "saved") => true,
            (Session::Previous(_), "previous") => true,
            (Session::Current(_), "current") => true,
            _ => false,
        };
        assert!(matches_tag);
    }
}

#[test]
fn session_with_unknown_type_is_reported_as_such() {
    let j = parse("{\"type\":\"archived\",\"generated\":\"2023-01-01T00:00:00Z\",\"windows\":[]}");
    match Session::from_json(&j) {
        Err(Error::UnknownSessionType(t)) => assert_eq!(t, "archived"),
        _ => panic!("expected an unknown session type"),
    }
}

#[test]
fn session_requires_its_members() {
    let j = parse("{\"generated\":\"2023-01-01T00:00:00Z\",\"windows\":[]}");
    match Session::from_json(&j) {
        Err(Error::MalformedRecord(k)) => assert_eq!(k, "type"),
        _ => panic!("expected a malformed record"),
    }
    let j = parse("{\"type\":\"saved\",\"windows\":[]}");
    match Session::from_json(&j) {
        Err(Error::MalformedRecord(k)) => assert_eq!(k, "generated"),
        _ => panic!("expected a malformed record"),
    }
    let j = parse("{\"type\":\"saved\",\"generated\":\"2023-01-01T00:00:00Z\"}");
    match Session::from_json(&j) {
        Err(Error::MalformedRecord(k)) => assert_eq!(k, "windows"),
        _ => panic!("expected a malformed record"),
    }
}

#[test]
fn session_rejects_timestamps_that_do_not_parse() {
    let j = parse("{\"type\":\"saved\",\"generated\":\"yesterday\",\"windows\":[]}");
    match Session::from_json(&j) {
        Err(Error::MalformedRecord(k)) => assert_eq!(k, "generated"),
        _ => panic!("expected a malformed record"),
    }
    let j = parse(
        "{\"type\":\"saved\",\"generated\":\"2023-01-01T00:00:00Z\",\"modified\":\"later\",\"windows\":[]}",
    );
    match Session::from_json(&j) {
        Err(Error::MalformedRecord(k)) => assert_eq!(k, "modified"),
        _ => panic!("expected a malformed record"),
    }
}

#[test]
fn session_rejects_identifiers_beyond_the_stored_range() {
    let j = parse(
        "{\"type\":\"saved\",\"generated\":\"2023-01-01T00:00:00Z\",\"id\":4294967296,\"windows\":[]}",
    );
    match Session::from_json(&j) {
        Err(Error::MalformedRecord(k)) => assert_eq!(k, "id"),
        _ => panic!("expected a malformed record"),
    }
}

#[test]
fn error_messages_name_their_kind() {
    assert_eq!(
        Error::MalformedRecord(String::from("title")).message(),
        "malformed record: title"
    );
    assert_eq!(Error::MissingField(String::from("modified")).message(), "missing field: modified");
    assert_eq!(Error::StoreAlreadyExists.message(), "store already exists");
    assert_eq!(Error::UnsupportedPlatform.message(), "unsupported platform");
    assert_eq!(Error::IntegrityCheckFailed.message(), "integrity check failed");
    assert_eq!(
        Error::UnknownSessionType(String::from("archived")).message(),
        "unknown session type: archived"
    );
}
