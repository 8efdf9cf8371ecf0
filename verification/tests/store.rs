//! The envelope, the import planner, the schema rules, and the host
//! helpers.

use sbh::backup::{plan_import, validate, Backup};
use sbh::error::Error;
use sbh::host::{generate_gid, user_agent_for, PlatformKind};
use sbh::schema::{creation_allowed, INSERT_SAVED_SESSION, SCHEMA};
use sbh::session::SavedSession;
use sbh::settings::setting_query;
use sbh::util::{get_output_filename, mtime_fmt};
use sqlx::{ConnectOptions, Row};

#[test]
fn import_skips_and_discards_by_type() {
    // three sessions: saved, current, previous — one row, one skip
    let text = "{\"sessions\":[\
        {\"type\":\"saved\",\"generated\":\"2023-01-01T00:00:00Z\",\"modified\":\"2023-01-02T00:00:00Z\",\"windows\":[]},\
        {\"type\":\"current\",\"generated\":\"2023-01-03T00:00:00Z\",\"windows\":[]},\
        {\"type\":\"previous\",\"generated\":\"2023-01-04T00:00:00Z\",\"windows\":[]}\
    ]}";
    let plan = plan_import(text).expect("plan");
    assert_eq!(plan.rows.len(), 1);
    assert_eq!(plan.skipped, vec![String::from("previous")]);
    assert_eq!(plan.current_discarded, 1);
}

#[test]
fn import_of_a_single_session_backup_counts_its_content() {
    let text = "{\"sessions\":[{\"type\":\"saved\",\"generated\":\"2023-01-01T00:00:00Z\",\
        \"modified\":\"2023-01-02T00:00:00Z\",\"windows\":[{\"tabs\":[{\"url\":\"https://example.com\",\
        \"incognito\":false,\"index\":0,\"pinned\":false,\"selected\":false}]}]}]}";
    let plan = plan_import(text).expect("plan");
    assert_eq!(plan.rows.len(), 1);
    let row = &plan.rows[0];
    assert_eq!(row.unfiltered_tab_count, 1);
    assert_eq!(row.unfiltered_window_count, 1);
    assert_eq!(row.filtered_tab_count, 1);
    assert_eq!(row.filtered_window_count, 1);
    assert_eq!(row.generation_date_time, "2023-01-01T00:00:00Z");
    assert_eq!(row.modification_date_time, "2023-01-02T00:00:00Z");
    assert_eq!(
        row.windows[0].tabs.as_ref().expect("tabs")[0].url.as_deref(),
        Some("https://example.com")
    );
}

#[test]
fn import_skips_unknown_types_with_their_tag() {
    let text = "{\"sessions\":[\
        {\"type\":\"archived\",\"generated\":\"2023-01-01T00:00:00Z\",\"windows\":[]},\
        {\"type\":\"saved\",\"generated\":\"2023-01-01T00:00:00Z\",\"modified\":\"2023-01-02T00:00:00Z\",\"windows\":[]}\
    ]}";
    let plan = plan_import(text).expect("plan");
    assert_eq!(plan.rows.len(), 1);
    assert_eq!(plan.skipped, vec![String::from("archived")]);
}

#[test]
fn import_without_a_sessions_member_contributes_nothing() {
    let plan = plan_import("{\"other\":1}").expect("plan");
    assert!(plan.rows.is_empty());
    assert!(plan.skipped.is_empty());
    assert_eq!(plan.current_discarded, 0);
}

#[test]
fn import_aborts_on_a_malformed_record() {
    let text = "{\"sessions\":[\
        {\"type\":\"saved\",\"generated\":\"2023-01-01T00:00:00Z\",\"modified\":\"2023-01-02T00:00:00Z\",\"windows\":[]},\
        {\"type\":\"saved\",\"generated\":\"2023-01-01T00:00:00Z\",\"windows\":[]}\
    ]}";
    match plan_import(text) {
        Err(Error::MissingField(k)) => assert_eq!(k, "modified"),
        _ => panic!("expected a missing field"),
    }
    match plan_import("not json") {
        Err(Error::MalformedRecord(k)) => assert_eq!(k, "json"),
        _ => panic!("expected a malformed record"),
    }
    match plan_import("{\"sessions\":3}") {
        Err(Error::MalformedRecord(k)) => assert_eq!(k, "sessions"),
        _ => panic!("expected a malformed record"),
    }
}

#[test]
fn import_accepts_a_leading_byte_order_mark() {
    let text = "\u{feff}{\"sessions\":[{\"type\":\"saved\",\"generated\":\"2023-01-01T00:00:00Z\",\
        \"modified\":\"2023-01-02T00:00:00Z\",\"windows\":[]}]}";
    let plan = plan_import(text).expect("plan");
    assert_eq!(plan.rows.len(), 1);
}

fn sample_rows() -> Vec<SavedSession> {
    vec![SavedSession {
        id: Some(1),
        name: String::from("workday"),
        generation_date_time: String::from("2023-01-01T00:00:00Z"),
        creation_date_time: String::from("2023-01-01T00:00:00Z"),
        modification_date_time: String::from("2023-01-02T00:00:00Z"),
        tags: String::from(""),
        deleted: String::from("false"),
        windows: vec![],
        unfiltered_window_count: 0,
        filtered_window_count: 0,
        unfiltered_tab_count: 0,
        filtered_tab_count: 0,
    }]
}

#[test]
fn assembled_envelope_carries_the_fixed_metadata() {
    let b = Backup::assemble(
        String::from("install-123"),
        String::from("2022-12-31T00:00:00Z"),
        &sample_rows(),
    )
    .expect("this host's platform is recognized");
    assert_eq!(b.format, "nxs.json.v1");
    assert_eq!(b.session_scope, "all");
    assert!(b.include_session);
    assert!(b.include_window);
    assert_eq!(b.sb_id, "edacconmaakjimmfgnblocblbcdcpbko");
    assert_eq!(b.sb_version, "3.6.4");
    assert_eq!(b.sb_installation_id, "install-123");
    assert_eq!(b.sb_installed, "2022-12-31T00:00:00Z");
    assert_eq!(b.sessions.len(), 1);
    match &b.sessions[0] {
        sbh::session::Session::Saved(rec) => {
            assert_eq!(rec.generated, "2023-01-01T00:00:00Z");
            assert_eq!(rec.id, Some(1));
            let gid = rec.gid.as_deref().expect("gid");
            assert_eq!(gid.len(), 32);
            assert!(gid.chars().all(|c| c.is_ascii_alphanumeric()));
        }
        _ => panic!("expected a saved session"),
    }
}

#[test]
fn each_export_stamps_a_fresh_gid() {
    let rows = sample_rows();
    let a = Backup::assemble(String::from("i"), String::from("2022-12-31T00:00:00Z"), &rows)
        .expect("assemble");
    let b = Backup::assemble(String::from("i"), String::from("2022-12-31T00:00:00Z"), &rows)
        .expect("assemble");
    let gid_of = |bk: &Backup| match &bk.sessions[0] {
        sbh::session::Session::Saved(rec) => rec.gid.clone().expect("gid"),
        _ => panic!("expected a saved session"),
    };
    assert_ne!(gid_of(&a), gid_of(&b));
}

#[test]
fn assembled_envelope_round_trips_through_text() {
    let b = Backup::assemble(
        String::from("install-123"),
        String::from("2022-12-31T00:00:00Z"),
        &sample_rows(),
    )
    .expect("assemble");
    let text = b.to_text();
    assert!(validate(&text).is_ok());
    let back = Backup::parse_text(&text).expect("parse");
    assert_eq!(back.to_text(), text);
    // an independent parser sees every envelope member
    let independent: serde_json::Value = serde_json::from_str(&text).expect("independent parse");
    for key in [
        "format", "created", "sessionScope", "includeSession", "includeWindow", "platform",
        "language", "ua", "sbId", "sbVersion", "sbInstallationId", "sbInstalled", "sessions",
    ] {
        assert!(independent.get(key).is_some(), "missing {}", key);
    }
}

#[test]
fn validation_requires_the_whole_envelope() {
    assert!(validate("{}").is_err());
    assert!(validate("not json").is_err());
    match validate("{\"format\":\"nxs.json.v1\"}") {
        Err(Error::MalformedRecord(k)) => assert_eq!(k, "created"),
        _ => panic!("expected a malformed record"),
    }
}

#[test]
fn gids_are_alphanumeric_and_32_long() {
    let g = generate_gid();
    assert_eq!(g.len(), 32);
    assert!(g.chars().all(|c| c.is_ascii_alphanumeric()));
    assert_ne!(g, generate_gid());
}

#[test]
fn user_agents_follow_the_platform() {
    assert!(user_agent_for(PlatformKind::Windows).expect("ua").contains("Windows NT"));
    assert!(user_agent_for(PlatformKind::MacOs).expect("ua").contains("Macintosh"));
    assert!(user_agent_for(PlatformKind::Linux).expect("ua").contains("X11; Linux"));
    match user_agent_for(PlatformKind::Other) {
        Err(Error::UnsupportedPlatform) => {}
        _ => panic!("expected an unsupported platform"),
    }
}

#[test]
fn ts_regex() {
    let ts = mtime_fmt(2023, 3, 20, 4, 38, 33);
    assert_eq!(ts, "2023_03_20_04_38_33");
    assert!(ts.chars().enumerate().all(|(i, c)| {
        if i == 4 || i == 7 || i == 10 || i == 13 || i == 16 {
            c == '_'
        } else {
            c.is_ascii_digit()
        }
    }));
}

#[test]
fn mtime_fmt_pads_each_part() {
    assert_eq!(mtime_fmt(1, 2, 3, 4, 5, 6), "0001_02_03_04_05_06");
    assert_eq!(mtime_fmt(12345, 11, 28, 23, 59, 0), "12345_11_28_23_59_00");
}

#[test]
fn output_filenames_follow_the_destination() {
    assert_eq!(
        get_output_filename("2023_03_20_04_38_33", None, false),
        "session_buddy_2023_03_20_04_38_33.db"
    );
    assert_eq!(
        get_output_filename("2023_03_20_04_38_33", Some(String::from("backups")), true),
        "backups/session_buddy_2023_03_20_04_38_33.db"
    );
    assert_eq!(
        get_output_filename("2023_03_20_04_38_33", Some(String::from("copy.db")), false),
        "copy.db"
    );
}

#[test]
fn creation_respects_existing_stores() {
    assert!(creation_allowed(false, false).is_ok());
    assert!(creation_allowed(false, true).is_ok());
    assert!(creation_allowed(true, true).is_ok());
    match creation_allowed(true, false) {
        Err(Error::StoreAlreadyExists) => {}
        _ => panic!("expected an existing-store error"),
    }
}

#[test]
fn schema_and_queries_name_the_five_tables() {
    for table in ["Settings", "UserSettings", "Undo", "SavedSessions", "PreviousSessions"] {
        assert!(SCHEMA.contains(&format!("CREATE TABLE {} (", table)), "missing {}", table);
    }
    assert!(INSERT_SAVED_SESSION.contains("INSERT INTO SavedSessions"));
    assert_eq!(
        setting_query("Settings"),
        "SELECT value FROM Settings WHERE key = ?"
    );
}

#[test]
fn user_settings_start_empty() {
    let u = sbh::settings::UserSettings::new();
    assert!(u.session_export_format.is_none());
    assert!(u.session_export_scope.is_none());
    assert!(u.session_export_show_titles.is_none());
    assert!(u.session_export_show_urls.is_none());
}

#[test]
fn a_freshly_created_store_passes_the_integrity_check() {
    let rt = tokio::runtime::Builder::new_current_thread().enable_all().build().expect("runtime");
    rt.block_on(async {
        let mut conn = std::str::FromStr::from_str("sqlite::memory:")
            .map(|o: sqlx::sqlite::SqliteConnectOptions| o)
            .expect("options")
            .connect()
            .await
            .expect("connect");
        sqlx::query(SCHEMA).execute(&mut conn).await.expect("schema");
        let row = sqlx::query("PRAGMA integrity_check")
            .fetch_one(&mut conn)
            .await
            .expect("integrity check");
        let verdict: String = row.try_get(0).expect("verdict");
        assert_eq!(verdict, "ok");
        // the five tables are present and empty
        let row = sqlx::query("SELECT count(*) FROM SavedSessions")
            .fetch_one(&mut conn)
            .await
            .expect("count");
        let count: i64 = row.try_get(0).expect("count value");
        assert_eq!(count, 0);
    });
}
