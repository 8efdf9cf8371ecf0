//! Session records and the mapping between their storage form and
//! their interchange form.
//!
//! `SavedSession` and `PreviousSession` are the storage forms: rows of
//! the store, with the windows array embedded and four counts derived
//! from it. `Session` is the interchange form: a tagged record of one
//! of the kinds saved, previous or current. Conversion in either
//! direction produces a new value; nothing is mutated in place.

use vstd::prelude::*;

use crate::error::Error;
use crate::json::{jm_of, jm_of_fields, jm_of_items, lemma_jm_of_fields_push, spec_member,
    spec_opt_int, spec_opt_str, spec_req_str, JsonModel, JsonValue};
use crate::timestamp::is_rfc3339;
use crate::window::{clone_windows, spec_windows_err, spec_windows_json, spec_windows_val,
    windows_from_json, windows_to_json, Window, WindowView};

verus! {

broadcast use
    vstd::seq::group_seq_axioms,
    vstd::std_specs::vec::group_vec_axioms,
    lemma_jm_of_fields_push,
;

/// A saved session as the store holds it. The identifier is assigned
/// by the store on insertion and absent before it; the deletion
/// marker is the literal text "false" or "true", not a native
/// boolean; the four counts are derived from the windows array.
#[derive(Debug, Clone)]
pub struct SavedSession {
    /// The store-assigned identifier; absent before insertion.
    pub id: Option<i32>,
    /// The user-visible name of the session.
    pub name: String,
    /// When the snapshot was taken, as RFC 3339 text.
    pub generation_date_time: String,
    /// When the row was created, as RFC 3339 text; empty when unknown.
    pub creation_date_time: String,
    /// When the session was last modified, as RFC 3339 text.
    pub modification_date_time: String,
    /// Free-text tags.
    pub tags: String,
    /// The deletion marker: the text "false" or "true".
    pub deleted: String,
    /// The windows of the session, in order.
    pub windows: Vec<Window>,
    /// The number of windows, unfiltered.
    pub unfiltered_window_count: i32,
    /// The number of windows after filtering; filtering is not
    /// implemented, so it equals the unfiltered count.
    pub filtered_window_count: i32,
    /// The number of tabs across all windows, unfiltered.
    pub unfiltered_tab_count: i32,
    /// The number of tabs after filtering; equal to the unfiltered
    /// count, as for windows.
    pub filtered_tab_count: i32,
}

/// The mathematical value of a `SavedSession`.
pub ghost struct SavedSessionView {
    pub id: Option<i32>,
    pub name: Seq<char>,
    pub generation_date_time: Seq<char>,
    pub creation_date_time: Seq<char>,
    pub modification_date_time: Seq<char>,
    pub tags: Seq<char>,
    pub deleted: Seq<char>,
    pub windows: Seq<WindowView>,
    pub unfiltered_window_count: i32,
    pub filtered_window_count: i32,
    pub unfiltered_tab_count: i32,
    pub filtered_tab_count: i32,
}

impl DeepView for SavedSession {
    type V = SavedSessionView;

    open spec fn deep_view(&self) -> SavedSessionView {
        SavedSessionView {
            id: self.id,
            name: self.name@,
            generation_date_time: self.generation_date_time@,
            creation_date_time: self.creation_date_time@,
            modification_date_time: self.modification_date_time@,
            tags: self.tags@,
            deleted: self.deleted@,
            windows: self.windows.deep_view(),
            unfiltered_window_count: self.unfiltered_window_count,
            filtered_window_count: self.filtered_window_count,
            unfiltered_tab_count: self.unfiltered_tab_count,
            filtered_tab_count: self.filtered_tab_count,
        }
    }
}

/// A previous session as the store holds it: an automatically
/// recorded snapshot, without name, tags or deletion marker of its
/// own beyond the stored text columns.
#[derive(Debug, Clone)]
pub struct PreviousSession {
    /// The store-assigned identifier.
    pub id: i32,
    /// When the snapshot was recorded, as RFC 3339 text.
    pub recording_date_time: String,
    /// When the row was created, as RFC 3339 text.
    pub creation_date_time: String,
    /// A stored payload the engine ignores.
    pub users: String,
    /// The deletion marker text.
    pub deleted: String,
    /// A stored payload the engine ignores.
    pub thumbnail: String,
    /// The windows of the session, in order.
    pub windows: Vec<Window>,
    /// The number of windows, unfiltered.
    pub unfiltered_window_count: i32,
    /// The number of windows after filtering.
    pub filtered_window_count: i32,
    /// The number of tabs across all windows, unfiltered.
    pub unfiltered_tab_count: i32,
    /// The number of tabs after filtering.
    pub filtered_tab_count: i32,
}

/// The mathematical value of a `PreviousSession`.
pub ghost struct PreviousSessionView {
    pub id: i32,
    pub recording_date_time: Seq<char>,
    pub creation_date_time: Seq<char>,
    pub users: Seq<char>,
    pub deleted: Seq<char>,
    pub thumbnail: Seq<char>,
    pub windows: Seq<WindowView>,
    pub unfiltered_window_count: i32,
    pub filtered_window_count: i32,
    pub unfiltered_tab_count: i32,
    pub filtered_tab_count: i32,
}

impl DeepView for PreviousSession {
    type V = PreviousSessionView;

    open spec fn deep_view(&self) -> PreviousSessionView {
        PreviousSessionView {
            id: self.id,
            recording_date_time: self.recording_date_time@,
            creation_date_time: self.creation_date_time@,
            users: self.users@,
            deleted: self.deleted@,
            thumbnail: self.thumbnail@,
            windows: self.windows.deep_view(),
            unfiltered_window_count: self.unfiltered_window_count,
            filtered_window_count: self.filtered_window_count,
            unfiltered_tab_count: self.unfiltered_tab_count,
            filtered_tab_count: self.filtered_tab_count,
        }
    }
}

/// The fields shared by every interchange session record.
#[derive(Debug, Clone)]
pub struct SessionRecord {
    /// When the snapshot was taken, as RFC 3339 text.
    pub generated: String,
    /// When the session was last modified, if known.
    pub modified: Option<String>,
    /// The persisted identifier, if the record has been stored.
    pub id: Option<i32>,
    /// The globally-unique id stamped on export.
    pub gid: Option<String>,
    /// The windows of the session, in order.
    pub windows: Vec<Window>,
}

/// The mathematical value of a `SessionRecord`.
pub ghost struct SessionRecordView {
    pub generated: Seq<char>,
    pub modified: Option<Seq<char>>,
    pub id: Option<i32>,
    pub gid: Option<Seq<char>>,
    pub windows: Seq<WindowView>,
}

impl DeepView for SessionRecord {
    type V = SessionRecordView;

    open spec fn deep_view(&self) -> SessionRecordView {
        SessionRecordView {
            generated: self.generated@,
            modified: self.modified.deep_view(),
            id: self.id,
            gid: self.gid.deep_view(),
            windows: self.windows.deep_view(),
        }
    }
}

/// An interchange session: one tagged record of kind saved, previous
/// or current. The engine constructs saved and previous sessions;
/// current sessions only arrive in documents written by the browser
/// extension and are never persisted.
#[derive(Debug, Clone)]
pub enum Session {
    Saved(SessionRecord),
    Previous(SessionRecord),
    Current(SessionRecord),
}

/// The mathematical value of a `Session`.
pub ghost enum SessionView {
    Saved(SessionRecordView),
    Previous(SessionRecordView),
    Current(SessionRecordView),
}

impl DeepView for Session {
    type V = SessionView;

    open spec fn deep_view(&self) -> SessionView {
        match self {
            Session::Saved(r) => SessionView::Saved(r.deep_view()),
            Session::Previous(r) => SessionView::Previous(r.deep_view()),
            Session::Current(r) => SessionView::Current(r.deep_view()),
        }
    }
}

/// The record a session wraps, whatever its kind.
pub open spec fn spec_session_record(v: SessionView) -> SessionRecordView {
    match v {
        SessionView::Saved(r) => r,
        SessionView::Previous(r) => r,
        SessionView::Current(r) => r,
    }
}

/// The type tag a session carries in interchange form.
pub open spec fn spec_session_tag(v: SessionView) -> Seq<char> {
    match v {
        SessionView::Saved(_) => "saved"@,
        SessionView::Previous(_) => "previous"@,
        SessionView::Current(_) => "current"@,
    }
}

/// The total number of tabs in the windows from window `i` on, an
/// absent tabs array counting as zero.
pub open spec fn spec_tab_total(ws: Seq<WindowView>, i: int) -> int
    decreases ws.len() - i,
{
    if i < 0 || i >= ws.len() {
        0
    } else {
        (match ws[i].tabs {
            Option::Some(ts) => ts.len() as int,
            Option::None => 0,
        }) + spec_tab_total(ws, i + 1)
    }
}

/// A tab total over a suffix of windows is never negative.
pub proof fn lemma_tab_total_nonneg(ws: Seq<WindowView>, i: int)
    ensures
        spec_tab_total(ws, i) >= 0,
    decreases ws.len() - i,
{
    if 0 <= i < ws.len() {
        lemma_tab_total_nonneg(ws, i + 1);
    }
}

/// Counts the windows of a windows array; more windows than the
/// 32-bit signed range can say is an error, never a wrapped count.
fn count_windows_of(windows: &Vec<Window>) -> (r: Result<i32, Error>)
    ensures
        windows@.len() <= i32::MAX ==> r == Result::<i32, Error>::Ok(windows@.len() as i32),
        windows@.len() > i32::MAX ==> (r matches Err(e) && (e matches Error::MalformedRecord(k)
            && k@ == "windows"@)),
{
    if windows.len() <= 0x7fffffff {
        Ok(windows.len() as i32)
    } else {
        Err(Error::MalformedRecord(String::from_str("windows")))
    }
}

/// Counts the tabs of a windows array, an absent tabs array counting
/// as zero; a total beyond the 32-bit signed range is an error.
fn count_tabs_of(windows: &Vec<Window>) -> (r: Result<i32, Error>)
    ensures
        spec_tab_total(windows.deep_view(), 0) <= i32::MAX ==> r == Result::<i32, Error>::Ok(
            spec_tab_total(windows.deep_view(), 0) as i32,
        ),
        spec_tab_total(windows.deep_view(), 0) > i32::MAX ==> (r matches Err(e) && (
        e matches Error::MalformedRecord(k) && k@ == "tabs"@)),
{
    let ghost wv = windows.deep_view();
    let mut acc: usize = 0;
    let n = windows.len();
    let mut i: usize = 0;
    while i < n
        invariant
            n == windows@.len(),
            i <= n,
            wv == windows.deep_view(),
            acc <= i32::MAX,
            spec_tab_total(wv, 0) == acc + spec_tab_total(wv, i as int),
        decreases n - i,
    {
        let len: usize = match &windows[i].tabs {
            Option::Some(ts) => ts.len(),
            Option::None => 0,
        };
        proof {
            assert(wv[i as int] == windows@[i as int].deep_view());
            lemma_tab_total_nonneg(wv, i as int + 1);
        }
        if len > 0x7fffffff - acc {
            return Err(Error::MalformedRecord(String::from_str("tabs")));
        }
        acc = acc + len;
        i += 1;
    }
    proof {
        assert(spec_tab_total(wv, n as int) == 0);
    }
    Ok(acc as i32)
}

impl SavedSession {
    /// The number of windows of this session, counted from the
    /// windows array itself.
    pub fn count_windows(&self) -> (r: Result<i32, Error>)
        ensures
            self.windows@.len() <= i32::MAX ==> r == Result::<i32, Error>::Ok(
                self.windows@.len() as i32,
            ),
            self.windows@.len() > i32::MAX ==> (r matches Err(e) && (
            e matches Error::MalformedRecord(k) && k@ == "windows"@)),
    {
        count_windows_of(&self.windows)
    }

    /// The number of tabs of this session across all its windows,
    /// counted from the windows array itself; a window without a tabs
    /// array contributes zero.
    pub fn count_tabs(&self) -> (r: Result<i32, Error>)
        ensures
            spec_tab_total(self.deep_view().windows, 0) <= i32::MAX ==> r == Result::<
                i32,
                Error,
            >::Ok(spec_tab_total(self.deep_view().windows, 0) as i32),
            spec_tab_total(self.deep_view().windows, 0) > i32::MAX ==> (r matches Err(e) && (
            e matches Error::MalformedRecord(k) && k@ == "tabs"@)),
    {
        count_tabs_of(&self.windows)
    }

    /// The interchange form of this stored session: a saved session
    /// stamped with the given gid, the identifier carried through and
    /// the windows cloned.
    pub fn to_interchange(&self, gid: String) -> (r: Session)
        ensures
            r.deep_view() == spec_to_interchange(self.deep_view(), gid@),
    {
        Session::Saved(
            SessionRecord {
                generated: self.generation_date_time.clone(),
                modified: Some(self.modification_date_time.clone()),
                id: self.id,
                gid: Some(gid),
                windows: clone_windows(&self.windows),
            },
        )
    }
}

impl PreviousSession {
    /// The interchange form of this previous session, stamped with
    /// the given gid.
    pub fn to_interchange(&self, gid: String) -> (r: Session)
        ensures
            r.deep_view() == SessionView::Previous(
                SessionRecordView {
                    generated: self.deep_view().recording_date_time,
                    modified: None,
                    id: Some(self.id),
                    gid: Some(gid@),
                    windows: self.deep_view().windows,
                },
            ),
    {
        Session::Previous(
            SessionRecord {
                generated: self.recording_date_time.clone(),
                modified: None,
                id: Some(self.id),
                gid: Some(gid),
                windows: clone_windows(&self.windows),
            },
        )
    }
}

/// The interchange form of a stored saved session.
pub open spec fn spec_to_interchange(s: SavedSessionView, gid: Seq<char>) -> SessionView {
    SessionView::Saved(
        SessionRecordView {
            generated: s.generation_date_time,
            modified: Some(s.modification_date_time),
            id: s.id,
            gid: Some(gid),
            windows: s.windows,
        },
    )
}

/// Whether a session can take storage form: its modification
/// timestamp is present and its counts fit the store's 32-bit signed
/// columns.
pub open spec fn spec_to_storage_ok(v: SessionView) -> bool {
    let rec = spec_session_record(v);
    &&& rec.modified is Some
    &&& rec.windows.len() <= i32::MAX
    &&& spec_tab_total(rec.windows, 0) <= i32::MAX
}

/// The storage form of an interchange session: type and gid dropped,
/// no identifier assigned, the counts recomputed from the windows
/// array, and the deletion marker fresh.
pub open spec fn spec_to_storage(v: SessionView) -> SavedSessionView {
    let rec = spec_session_record(v);
    SavedSessionView {
        id: None,
        name: Seq::empty(),
        generation_date_time: rec.generated,
        creation_date_time: Seq::empty(),
        modification_date_time: rec.modified->0,
        tags: Seq::empty(),
        deleted: "false"@,
        windows: rec.windows,
        unfiltered_window_count: rec.windows.len() as i32,
        filtered_window_count: rec.windows.len() as i32,
        unfiltered_tab_count: spec_tab_total(rec.windows, 0) as i32,
        filtered_tab_count: spec_tab_total(rec.windows, 0) as i32,
    }
}

impl Session {
    /// The storage form of this session: gid and type dropped, the
    /// generation timestamp carried over, the modification timestamp
    /// required, no identifier assigned, and the counts recomputed
    /// from the windows array rather than trusted from the source.
    pub fn to_storage(&self) -> (r: Result<SavedSession, Error>)
        ensures
            r is Ok <==> spec_to_storage_ok(self.deep_view()),
            r is Ok ==> r->Ok_0.deep_view() == spec_to_storage(self.deep_view()),
            spec_session_record(self.deep_view()).modified is None ==> (r matches Err(e) && (
            e matches Error::MissingField(k) && k@ == "modified"@)),
            (spec_session_record(self.deep_view()).modified is Some && spec_session_record(
                self.deep_view(),
            ).windows.len() > i32::MAX) ==> (r matches Err(e) && (e matches Error::MalformedRecord(
                k,
            ) && k@ == "windows"@)),
            (spec_session_record(self.deep_view()).modified is Some && spec_session_record(
                self.deep_view(),
            ).windows.len() <= i32::MAX && spec_tab_total(
                spec_session_record(self.deep_view()).windows,
                0,
            ) > i32::MAX) ==> (r matches Err(e) && (e matches Error::MalformedRecord(k) && k@
                == "tabs"@)),
    {
        let rec = match self {
            Session::Saved(r) => r,
            Session::Previous(r) => r,
            Session::Current(r) => r,
        };
        let modified = match &rec.modified {
            Option::Some(m) => m.clone(),
            Option::None => {
                return Err(Error::MissingField(String::from_str("modified")));
            },
        };
        let window_count = match count_windows_of(&rec.windows) {
            Ok(c) => c,
            Err(e) => {
                return Err(e);
            },
        };
        let tab_count = match count_tabs_of(&rec.windows) {
            Ok(c) => c,
            Err(e) => {
                return Err(e);
            },
        };
        Ok(
            SavedSession {
                id: None,
                name: String::new(),
                generation_date_time: rec.generated.clone(),
                creation_date_time: String::new(),
                modification_date_time: modified,
                tags: String::new(),
                deleted: String::from_str("false"),
                windows: clone_windows(&rec.windows),
                unfiltered_window_count: window_count,
                filtered_window_count: window_count,
                unfiltered_tab_count: tab_count,
                filtered_tab_count: tab_count,
            },
        )
    }
}

/// Exporting a stored session and importing it back preserves its
/// generation timestamp, its modification timestamp, its identifier
/// and its windows array exactly, whatever gid the export stamped;
/// the deletion marker and the gid are not round-trip-stable.
pub proof fn lemma_round_trip(s: SavedSessionView, gid: Seq<char>)
    requires
        s.windows.len() > 0,
        s.id is None,
        s.windows.len() <= i32::MAX,
        spec_tab_total(s.windows, 0) <= i32::MAX,
    ensures
        spec_to_storage_ok(spec_to_interchange(s, gid)),
        spec_to_storage(spec_to_interchange(s, gid)).generation_date_time
            == s.generation_date_time,
        spec_to_storage(spec_to_interchange(s, gid)).modification_date_time
            == s.modification_date_time,
        spec_to_storage(spec_to_interchange(s, gid)).id == s.id,
        spec_to_storage(spec_to_interchange(s, gid)).windows == s.windows,
{
}

/// The committed URLs of the tabs from tab `j` on, in order; a tab
/// without one contributes nothing.
pub open spec fn spec_tab_urls(ts: Seq<crate::tab::TabView>, j: int) -> Seq<Seq<char>>
    decreases ts.len() - j,
{
    if j < 0 || j >= ts.len() {
        Seq::empty()
    } else {
        (match ts[j].url {
            Option::Some(u) => seq![u],
            Option::None => Seq::empty(),
        }) + spec_tab_urls(ts, j + 1)
    }
}

/// The committed URLs of the windows from window `i` on, in order; a
/// window without a tabs array contributes nothing.
pub open spec fn spec_window_urls(ws: Seq<WindowView>, i: int) -> Seq<Seq<char>>
    decreases ws.len() - i,
{
    if i < 0 || i >= ws.len() {
        Seq::empty()
    } else {
        (match ws[i].tabs {
            Option::Some(ts) => spec_tab_urls(ts, 0),
            Option::None => Seq::empty(),
        }) + spec_window_urls(ws, i + 1)
    }
}

/// The committed URLs of the sessions from session `k` on, in order.
pub open spec fn spec_session_urls(ss: Seq<SavedSessionView>, k: int) -> Seq<Seq<char>>
    decreases ss.len() - k,
{
    if k < 0 || k >= ss.len() {
        Seq::empty()
    } else {
        spec_window_urls(ss[k].windows, 0) + spec_session_urls(ss, k + 1)
    }
}

/// Collects the committed URLs of every tab, from tab `j` on.
#[verifier::loop_isolation(false)]
fn push_tab_urls(tabs: &Vec<crate::tab::Tab>, out: &mut Vec<String>)
    ensures
        final(out).deep_view() == old(out).deep_view() + spec_tab_urls(tabs.deep_view(), 0),
{
    let ghost tv = tabs.deep_view();
    let ghost base = out.deep_view();
    let n = tabs.len();
    let mut j: usize = 0;
    while j < n
        invariant
            j <= n,
            base + spec_tab_urls(tv, 0) == out.deep_view() + spec_tab_urls(tv, j as int),
        decreases n - j,
    {
        proof {
            assert(tv[j as int] == tabs@[j as int].deep_view());
        }
        if let Some(u) = &tabs[j].url {
            let ghost prev = out.deep_view();
            out.push(u.clone());
            proof {
                assert(out.deep_view() =~= prev.push(u@));
            }
        }
        j += 1;
        proof {
            assert(base + spec_tab_urls(tv, 0) =~= out.deep_view() + spec_tab_urls(tv, j as int));
        }
    }
    proof {
        assert(out.deep_view() =~= base + spec_tab_urls(tv, 0));
    }
}

/// The committed URLs of every tab of every window of every session,
/// in order: sessions as stored, windows within a session, tabs within
/// a window. A window without a tabs array and a tab without a URL
/// contribute nothing.
#[verifier::loop_isolation(false)]
pub fn collect_urls(sessions: &Vec<SavedSession>) -> (r: Vec<String>)
    ensures
        r.deep_view() == spec_session_urls(sessions.deep_view(), 0),
{
    let ghost sv = sessions.deep_view();
    let mut out: Vec<String> = Vec::new();
    proof {
        assert(out.deep_view() =~= Seq::<Seq<char>>::empty());
    }
    let n = sessions.len();
    let mut k: usize = 0;
    while k < n
        invariant
            k <= n,
            spec_session_urls(sv, 0) == out.deep_view() + spec_session_urls(sv, k as int),
        decreases n - k,
    {
        proof {
            assert(sv[k as int] == sessions@[k as int].deep_view());
        }
        let ghost before_session = out.deep_view();
        let windows = &sessions[k].windows;
        let ghost wv = windows.deep_view();
        let m = windows.len();
        let mut i: usize = 0;
        while i < m
            invariant
                i <= m,
                m == windows@.len(),
                wv == windows.deep_view(),
                before_session + spec_window_urls(wv, 0) == out.deep_view() + spec_window_urls(
                    wv,
                    i as int,
                ),
            decreases m - i,
        {
            proof {
                assert(wv[i as int] == windows@[i as int].deep_view());
            }
            if let Some(tabs) = &windows[i].tabs {
                push_tab_urls(tabs, &mut out);
            }
            i += 1;
            proof {
                assert(before_session + spec_window_urls(wv, 0) =~= out.deep_view()
                    + spec_window_urls(wv, i as int));
            }
        }
        k += 1;
        proof {
            assert(spec_session_urls(sv, 0) =~= out.deep_view() + spec_session_urls(sv, k as int));
        }
    }
    proof {
        assert(out.deep_view() =~= spec_session_urls(sv, 0));
    }
    out
}

/// The members of a serialized `Session`, in order: the type tag, the
/// generation timestamp and the windows always; the modification
/// timestamp, the identifier and the gid only when present.
pub open spec fn spec_session_fields(v: SessionView) -> Seq<(Seq<char>, JsonModel)> {
    let rec = spec_session_record(v);
    let f = Seq::<(Seq<char>, JsonModel)>::empty();
    let f = f.push(("type"@, JsonModel::Str(spec_session_tag(v))));
    let f = f.push(("generated"@, JsonModel::Str(rec.generated)));
    let f = if rec.modified is Some {
        f.push(("modified"@, JsonModel::Str(rec.modified->0)))
    } else {
        f
    };
    let f = if rec.id is Some {
        f.push(("id"@, JsonModel::Int(rec.id->0 as int)))
    } else {
        f
    };
    let f = if rec.gid is Some {
        f.push(("gid"@, JsonModel::Str(rec.gid->0)))
    } else {
        f
    };
    let f = f.push(("windows"@, JsonModel::Arr(spec_windows_json(rec.windows, 0))));
    f
}

/// A serialized `Session`.
pub open spec fn spec_session_json(v: SessionView) -> JsonModel {
    JsonModel::Obj(spec_session_fields(v))
}

/// What reading a JSON value as a `Session` comes to: the session it
/// denotes, an unknown type tag to be skipped, or the first malformed
/// member.
pub ghost enum SessionParse {
    Value(SessionView),
    Unknown(Seq<char>),
    Malformed(Seq<char>),
}

/// Whether a type tag names a session kind this engine knows.
pub open spec fn spec_known_tag(t: Seq<char>) -> bool {
    t == "saved"@ || t == "previous"@ || t == "current"@
}

/// The session record a JSON object denotes, when nothing is
/// malformed.
pub open spec fn spec_session_rec_val(j: JsonModel) -> SessionRecordView {
    SessionRecordView {
        generated: spec_req_str(j, "generated"@)->Ok_0,
        modified: spec_opt_str(j, "modified"@)->Ok_0,
        id: match spec_opt_int(j, "id"@)->Ok_0 {
            Option::Some(v) => Some(v as i32),
            Option::None => None,
        },
        gid: spec_opt_str(j, "gid"@)->Ok_0,
        windows: match spec_member(j, "windows"@) {
            Option::Some(m) => match m {
                JsonModel::Arr(items) => spec_windows_val(items, 0),
                _ => Seq::empty(),
            },
            Option::None => Seq::empty(),
        },
    }
}

/// What the `windows` member fails with, if anything: it is required
/// and must be an array of well-formed windows.
pub open spec fn spec_session_windows_err(j: JsonModel) -> Option<Seq<char>> {
    match spec_member(j, "windows"@) {
        Option::None => Some("windows"@),
        Option::Some(m) => match m {
            JsonModel::Arr(items) => spec_windows_err(items, 0),
            _ => Some("windows"@),
        },
    }
}

/// Reading a JSON value as a `Session`: the object shape first, then
/// the type tag, then each field in interchange order.
pub open spec fn spec_session_parse(j: JsonModel) -> SessionParse {
    if !(j is Obj) {
        SessionParse::Malformed("session"@)
    } else if spec_req_str(j, "type"@) is Err {
        SessionParse::Malformed("type"@)
    } else if !spec_known_tag(spec_req_str(j, "type"@)->Ok_0) {
        SessionParse::Unknown(spec_req_str(j, "type"@)->Ok_0)
    } else if spec_req_str(j, "generated"@) is Err {
        SessionParse::Malformed("generated"@)
    } else if !is_rfc3339(spec_req_str(j, "generated"@)->Ok_0) {
        SessionParse::Malformed("generated"@)
    } else if spec_opt_str(j, "modified"@) is Err {
        SessionParse::Malformed("modified"@)
    } else if spec_opt_str(j, "modified"@)->Ok_0 matches Some(m) && !is_rfc3339(m) {
        SessionParse::Malformed("modified"@)
    } else if spec_opt_int(j, "id"@) is Err {
        SessionParse::Malformed("id"@)
    } else if spec_opt_int(j, "id"@)->Ok_0 matches Some(v) && !(i32::MIN <= v <= i32::MAX) {
        SessionParse::Malformed("id"@)
    } else if spec_opt_str(j, "gid"@) is Err {
        SessionParse::Malformed("gid"@)
    } else if spec_session_windows_err(j) is Some {
        SessionParse::Malformed(spec_session_windows_err(j)->0)
    } else {
        let rec = spec_session_rec_val(j);
        let tag = spec_req_str(j, "type"@)->Ok_0;
        if tag == "saved"@ {
            SessionParse::Value(SessionView::Saved(rec))
        } else if tag == "previous"@ {
            SessionParse::Value(SessionView::Previous(rec))
        } else {
            SessionParse::Value(SessionView::Current(rec))
        }
    }
}

impl Session {
    /// Serializes this session as an interchange JSON object.
    pub fn to_json(&self) -> (j: JsonValue)
        ensures
            j@ == spec_session_json(self.deep_view()),
    {
        let ghost sv = self.deep_view();
        let rec = match self {
            Session::Saved(r) => r,
            Session::Previous(r) => r,
            Session::Current(r) => r,
        };
        let tag = match self {
            Session::Saved(_) => String::from_str("saved"),
            Session::Previous(_) => String::from_str("previous"),
            Session::Current(_) => String::from_str("current"),
        };
        let ghost mut g: Seq<(Seq<char>, JsonModel)> = Seq::empty();
        let mut fields: Vec<(String, JsonValue)> = Vec::new();
        proof {
            assert(jm_of_fields(fields@) == g);
        }
        fields.push((String::from_str("type"), JsonValue::Str(tag)));
        proof {
            g = g.push(("type"@, JsonModel::Str(spec_session_tag(sv))));
            assert(jm_of_fields(fields@) == g);
        }
        fields.push((String::from_str("generated"), JsonValue::Str(rec.generated.clone())));
        proof {
            g = g.push(("generated"@, JsonModel::Str(spec_session_record(sv).generated)));
            assert(jm_of_fields(fields@) == g);
        }
        if let Some(m) = &rec.modified {
            fields.push((String::from_str("modified"), JsonValue::Str(m.clone())));
            proof {
                g = g.push(("modified"@, JsonModel::Str(spec_session_record(sv).modified->0)));
            }
        }
        proof {
            assert(jm_of_fields(fields@) == g);
        }
        if let Some(v) = rec.id {
            fields.push((String::from_str("id"), JsonValue::Int(v as i64)));
            proof {
                g = g.push(("id"@, JsonModel::Int(spec_session_record(sv).id->0 as int)));
            }
        }
        proof {
            assert(jm_of_fields(fields@) == g);
        }
        if let Some(gd) = &rec.gid {
            fields.push((String::from_str("gid"), JsonValue::Str(gd.clone())));
            proof {
                g = g.push(("gid"@, JsonModel::Str(spec_session_record(sv).gid->0)));
            }
        }
        proof {
            assert(jm_of_fields(fields@) == g);
        }
        let items = windows_to_json(&rec.windows);
        fields.push((String::from_str("windows"), JsonValue::Arr(items)));
        proof {
            g = g.push(
                ("windows"@, JsonModel::Arr(spec_windows_json(spec_session_record(sv).windows, 0))),
            );
            assert(jm_of_fields(fields@) == g);
            assert(g == spec_session_fields(sv));
        }
        JsonValue::Obj(fields)
    }

    /// Parses an interchange JSON object as a `Session`. An unknown
    /// type tag is reported as such, for the caller to skip; a
    /// missing or ill-typed member is a malformed record naming the
    /// member; the timestamps must be RFC 3339 text.
    pub fn from_json(j: &JsonValue) -> (r: Result<Session, Error>)
        ensures
            match spec_session_parse(j@) {
                SessionParse::Value(v) => r is Ok && r->Ok_0.deep_view() == v,
                SessionParse::Unknown(t) => r matches Err(Error::UnknownSessionType(u)) && u@ == t,
                SessionParse::Malformed(k) => r matches Err(Error::MalformedRecord(k2)) && k2@
                    == k,
            },
    {
        match j {
            JsonValue::Obj(_) => {},
            _ => {
                return Err(Error::MalformedRecord(String::from_str("session")));
            },
        }
        let tag = match j.get_req_string("type") {
            Ok(t) => t,
            Err(_) => {
                return Err(Error::MalformedRecord(String::from_str("type")));
            },
        };
        let saved_tag = String::from_str("saved");
        let previous_tag = String::from_str("previous");
        let current_tag = String::from_str("current");
        let is_saved = tag.eq(&saved_tag);
        let is_previous = tag.eq(&previous_tag);
        let is_current = tag.eq(&current_tag);
        if !is_saved && !is_previous && !is_current {
            return Err(Error::UnknownSessionType(tag));
        }
        let generated = match j.get_req_string("generated") {
            Ok(v) => v,
            Err(_) => {
                return Err(Error::MalformedRecord(String::from_str("generated")));
            },
        };
        if !crate::timestamp::rfc3339_valid(generated.as_str()) {
            return Err(Error::MalformedRecord(String::from_str("generated")));
        }
        let modified = match j.get_opt_string("modified") {
            Ok(v) => v,
            Err(_) => {
                return Err(Error::MalformedRecord(String::from_str("modified")));
            },
        };
        if let Some(m) = &modified {
            if !crate::timestamp::rfc3339_valid(m.as_str()) {
                return Err(Error::MalformedRecord(String::from_str("modified")));
            }
        }
        let id64 = match j.get_opt_i64("id") {
            Ok(v) => v,
            Err(_) => {
                return Err(Error::MalformedRecord(String::from_str("id")));
            },
        };
        let id: Option<i32> = match id64 {
            Option::Some(v) => {
                if v < -0x80000000i64 || v > 0x7fffffffi64 {
                    return Err(Error::MalformedRecord(String::from_str("id")));
                }
                Some(v as i32)
            },
            Option::None => None,
        };
        let gid = match j.get_opt_string("gid") {
            Ok(v) => v,
            Err(_) => {
                return Err(Error::MalformedRecord(String::from_str("gid")));
            },
        };
        let windows = match j.member("windows") {
            Option::Some(v) => match v {
                JsonValue::Arr(items) => match windows_from_json(items) {
                    Ok(ws) => ws,
                    Err(e) => {
                        return Err(e);
                    },
                },
                _ => {
                    return Err(Error::MalformedRecord(String::from_str("windows")));
                },
            },
            Option::None => {
                return Err(Error::MalformedRecord(String::from_str("windows")));
            },
        };
        let rec = SessionRecord { generated, modified, id, gid, windows };
        if is_saved {
            Ok(Session::Saved(rec))
        } else if is_previous {
            Ok(Session::Previous(rec))
        } else {
            Ok(Session::Current(rec))
        }
    }
}

} // verus!
