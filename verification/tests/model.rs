//! The tab and window records: omission rules on output, tolerance
//! and precise faults on input.

use sbh::error::Error;
use sbh::json::JsonValue;
use sbh::tab::{MutedInfo, Tab, ZoomSettings};
use sbh::window::Window;

fn parse(text: &str) -> JsonValue {
    JsonValue::parse_document(text).expect("document should parse")
}

#[test]
fn default_tab_serializes_to_the_four_members() {
    let t = Tab::new();
    assert_eq!(
        t.to_json().to_text(),
        "{\"incognito\":false,\"index\":0,\"pinned\":false,\"selected\":false}"
    );
}

#[test]
fn tab_emits_present_attributes_in_order() {
    let mut t = Tab::new();
    t.active = true;
    t.url = Some(String::from("https://example.com"));
    t.index = 3;
    t.id = Some(7);
    assert_eq!(
        t.to_json().to_text(),
        "{\"active\":true,\"id\":7,\"incognito\":false,\"index\":3,\"pinned\":false,\"selected\":false,\"url\":\"https://example.com\"}"
    );
}

#[test]
fn tab_parses_with_defaults_and_ignores_unknown_members() {
    let j = parse("{\"url\":\"https://example.com\",\"index\":2,\"somethingNew\":[1,2]}");
    let t = Tab::from_json(&j).expect("tab should parse");
    assert_eq!(t.url.as_deref(), Some("https://example.com"));
    assert_eq!(t.index, 2);
    assert!(!t.active);
    assert!(!t.pinned);
    assert!(t.id.is_none());
    assert!(t.muted_info.is_none());
}

#[test]
fn tab_fault_names_the_member() {
    let j = parse("{\"active\":true,\"title\":5}");
    match Tab::from_json(&j) {
        Err(Error::MalformedRecord(k)) => assert_eq!(k, "title"),
        _ => panic!("expected a malformed record"),
    }
    let j = parse("{\"index\":\"three\"}");
    match Tab::from_json(&j) {
        Err(Error::MalformedRecord(k)) => assert_eq!(k, "index"),
        _ => panic!("expected a malformed record"),
    }
    let j = parse("[1]");
    match Tab::from_json(&j) {
        Err(Error::MalformedRecord(k)) => assert_eq!(k, "tab"),
        _ => panic!("expected a malformed record"),
    }
}

#[test]
fn tab_round_trips_through_json() {
    let j = parse(
        "{\"active\":true,\"audible\":false,\"groupId\":4,\"height\":900,\"id\":11,\
         \"incognito\":false,\"index\":1,\"pinned\":true,\"selected\":false,\
         \"title\":\"T\",\"url\":\"https://example.com\",\"windowId\":2}",
    );
    let t = Tab::from_json(&j).expect("tab should parse");
    let back = Tab::from_json(&t.to_json()).expect("serialized tab should parse");
    assert_eq!(back.to_json().to_text(), t.to_json().to_text());
}

#[test]
fn muted_info_requires_muted() {
    let j = parse("{\"extensionId\":\"abc\"}");
    match MutedInfo::from_json(&j) {
        Err(Error::MalformedRecord(k)) => assert_eq!(k, "muted"),
        _ => panic!("expected a malformed record"),
    }
    let j = parse("{\"muted\":true,\"reason\":\"user\"}");
    let m = MutedInfo::from_json(&j).expect("muted info should parse");
    assert!(m.muted);
    assert_eq!(m.reason.as_deref(), Some("user"));
    assert_eq!(m.to_json().to_text(), "{\"muted\":true,\"reason\":\"user\"}");
}

#[test]
fn tab_carries_muted_info() {
    let j = parse("{\"mutedInfo\":{\"muted\":true},\"index\":0}");
    let t = Tab::from_json(&j).expect("tab should parse");
    assert!(t.muted_info.as_ref().expect("muted info").muted);
    let j = parse("{\"mutedInfo\":{\"muted\":\"yes\"}}");
    match Tab::from_json(&j) {
        Err(Error::MalformedRecord(k)) => assert_eq!(k, "muted"),
        _ => panic!("expected a malformed record"),
    }
}

#[test]
fn zoom_settings_omit_absent_attributes() {
    let z = ZoomSettings { default_zoom_factor: None, mode: None, scope: None };
    assert_eq!(z.to_json().to_text(), "{}");
    let z = ZoomSettings {
        default_zoom_factor: Some(1),
        mode: Some(String::from("automatic")),
        scope: None,
    };
    assert_eq!(z.to_json().to_text(), "{\"defaultZoomFactor\":1,\"mode\":\"automatic\"}");
    let j = parse("{\"defaultZoomFactor\":null,\"scope\":\"per-origin\"}");
    let z = ZoomSettings::from_json(&j).expect("zoom settings should parse");
    assert!(z.default_zoom_factor.is_none());
    assert_eq!(z.scope.as_deref(), Some("per-origin"));
}

#[test]
fn window_omits_false_flags_and_absent_attributes() {
    let w = Window {
        nx_title: None,
        always_on_top: false,
        focused: false,
        height: None,
        id: None,
        incognito: false,
        left: None,
        session_id: None,
        state: None,
        tabs: None,
        top: None,
        type_: None,
        width: None,
    };
    assert_eq!(w.to_json().to_text(), "{}");
}

#[test]
fn window_serializes_tabs_in_order() {
    let mut t1 = Tab::new();
    t1.index = 0;
    let mut t2 = Tab::new();
    t2.index = 1;
    let w = Window {
        nx_title: Some(String::from("mine")),
        always_on_top: false,
        focused: true,
        height: Some(600),
        id: Some(4),
        incognito: false,
        left: None,
        session_id: None,
        state: Some(String::from("normal")),
        tabs: Some(vec![t1, t2]),
        top: None,
        type_: Some(String::from("normal")),
        width: Some(800),
    };
    assert_eq!(
        w.to_json().to_text(),
        "{\"nx_title\":\"mine\",\"focused\":true,\"height\":600,\"id\":4,\"state\":\"normal\",\
         \"tabs\":[{\"incognito\":false,\"index\":0,\"pinned\":false,\"selected\":false},\
         {\"incognito\":false,\"index\":1,\"pinned\":false,\"selected\":false}],\
         \"type\":\"normal\",\"width\":800}"
    );
}

#[test]
fn window_parses_tabs_and_propagates_their_faults() {
    let j = parse("{\"tabs\":[{\"index\":0},{\"index\":1}],\"focused\":true}");
    let w = Window::from_json(&j).expect("window should parse");
    let tabs = w.tabs.expect("tabs");
    assert_eq!(tabs.len(), 2);
    assert_eq!(tabs[1].index, 1);
    assert!(w.focused);

    let j = parse("{\"tabs\":[{\"index\":0},{\"url\":9}]}");
    match Window::from_json(&j) {
        Err(Error::MalformedRecord(k)) => assert_eq!(k, "url"),
        _ => panic!("expected a malformed record"),
    }
    let j = parse("{\"tabs\":7}");
    match Window::from_json(&j) {
        Err(Error::MalformedRecord(k)) => assert_eq!(k, "tabs"),
        _ => panic!("expected a malformed record"),
    }
}

#[test]
fn window_without_tabs_parses_as_none() {
    let j = parse("{\"id\":1}");
    let w = Window::from_json(&j).expect("window should parse");
    assert!(w.tabs.is_none());
    let j = parse("{\"tabs\":null}");
    let w = Window::from_json(&j).expect("window should parse");
    assert!(w.tabs.is_none());
}
