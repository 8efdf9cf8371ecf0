//! The browser window snapshot: flags, geometry, and an optional
//! ordered list of tabs.
//!
//! A window has no identity of its own outside its owning session;
//! ownership is exclusive and by value. Serialization omits absent
//! optional attributes and omits the three flags when false; parsing
//! ignores unknown members and names the offending member of a
//! malformed one.

use vstd::prelude::*;

use crate::error::Error;
use crate::json::{jm_of, jm_of_fields, jm_of_items, lemma_jm_of_fields_push, lemma_jm_of_items,
    lemma_jm_of_items_push, spec_def_bool, spec_member, spec_opt_int, spec_opt_str, JsonModel,
    JsonValue};
use crate::tab::{clone_opt_string, spec_tab_err, spec_tab_json, spec_tab_val, Tab, TabView};

verus! {

broadcast use
    vstd::seq::group_seq_axioms,
    vstd::std_specs::vec::group_vec_axioms,
    lemma_jm_of_fields_push,
    lemma_jm_of_items_push,
;

/// A browser window snapshot.
#[derive(Debug)]
pub struct Window {
    /// A title specific to the interchange format, not part of the
    /// browser's own window description.
    pub nx_title: Option<String>,
    /// Whether the window is set to be always on top.
    pub always_on_top: bool,
    /// Whether the window is the focused window.
    pub focused: bool,
    /// The height of the window, including the frame, in pixels.
    pub height: Option<i64>,
    /// The id of the window, unique within a browser session.
    pub id: Option<i64>,
    /// Whether the window is incognito.
    pub incognito: bool,
    /// The offset of the window from the left edge of the screen.
    pub left: Option<i64>,
    /// The session id of a window obtained from the sessions
    /// interface.
    pub session_id: Option<String>,
    /// The state of the window.
    pub state: Option<String>,
    /// The tabs open in the window, in order.
    pub tabs: Option<Vec<Tab>>,
    /// The offset of the window from the top edge of the screen.
    pub top: Option<i64>,
    /// The type of browser window.
    pub type_: Option<String>,
    /// The width of the window, including the frame, in pixels.
    pub width: Option<i64>,
}

/// The mathematical value of a `Window`.
pub ghost struct WindowView {
    pub nx_title: Option<Seq<char>>,
    pub always_on_top: bool,
    pub focused: bool,
    pub height: Option<i64>,
    pub id: Option<i64>,
    pub incognito: bool,
    pub left: Option<i64>,
    pub session_id: Option<Seq<char>>,
    pub state: Option<Seq<char>>,
    pub tabs: Option<Seq<TabView>>,
    pub top: Option<i64>,
    pub type_: Option<Seq<char>>,
    pub width: Option<i64>,
}

impl DeepView for Window {
    type V = WindowView;

    open spec fn deep_view(&self) -> WindowView {
        WindowView {
            nx_title: self.nx_title.deep_view(),
            always_on_top: self.always_on_top,
            focused: self.focused,
            height: self.height,
            id: self.id,
            incognito: self.incognito,
            left: self.left,
            session_id: self.session_id.deep_view(),
            state: self.state.deep_view(),
            tabs: self.tabs.deep_view(),
            top: self.top,
            type_: self.type_.deep_view(),
            width: self.width,
        }
    }
}

/// Clones a list of tabs, keeping its value.
fn clone_tabs(tabs: &Vec<Tab>) -> (r: Vec<Tab>)
    ensures
        r.deep_view() == tabs.deep_view(),
{
    let r = tabs.clone();
    proof {
        assert forall|i: int| 0 <= i < r.deep_view().len() implies r.deep_view()[i]
            == tabs.deep_view()[i] by {
            assert(vstd::pervasive::cloned::<Tab>(tabs[i], r[i]));
        }
        assert(r.deep_view() =~= tabs.deep_view());
    }
    r
}

impl Clone for Window {
    /// A clone keeps the value exactly.
    fn clone(&self) -> (res: Self)
        ensures
            res.deep_view() == self.deep_view(),
    {
        Window {
            nx_title: clone_opt_string(&self.nx_title),
            always_on_top: self.always_on_top,
            focused: self.focused,
            height: self.height,
            id: self.id,
            incognito: self.incognito,
            left: self.left,
            session_id: clone_opt_string(&self.session_id),
            state: clone_opt_string(&self.state),
            tabs: match &self.tabs {
                Option::Some(ts) => Some(clone_tabs(ts)),
                Option::None => None,
            },
            top: self.top,
            type_: clone_opt_string(&self.type_),
            width: self.width,
        }
    }
}

/// Clones a list of windows, keeping its value.
pub(crate) fn clone_windows(windows: &Vec<Window>) -> (r: Vec<Window>)
    ensures
        r.deep_view() == windows.deep_view(),
{
    let r = windows.clone();
    proof {
        assert forall|i: int| 0 <= i < r.deep_view().len() implies r.deep_view()[i]
            == windows.deep_view()[i] by {
            assert(vstd::pervasive::cloned::<Window>(windows[i], r[i]));
        }
        assert(r.deep_view() =~= windows.deep_view());
    }
    r
}

/// The serialized forms of a list of tabs, from tab `i` on.
pub open spec fn spec_tabs_json(ts: Seq<TabView>, i: int) -> Seq<JsonModel>
    decreases ts.len() - i,
{
    if i < 0 || i >= ts.len() {
        Seq::empty()
    } else {
        seq![spec_tab_json(ts[i])] + spec_tabs_json(ts, i + 1)
    }
}

/// The first fault in a list of JSON values read as tabs, from value
/// `i` on.
pub open spec fn spec_tabs_err(items: Seq<JsonModel>, i: int) -> Option<Seq<char>>
    decreases items.len() - i,
{
    if i < 0 || i >= items.len() {
        None
    } else {
        match spec_tab_err(items[i]) {
            Option::Some(k) => Some(k),
            Option::None => spec_tabs_err(items, i + 1),
        }
    }
}

/// The tabs a list of JSON values denotes, from value `i` on, when
/// `spec_tabs_err` finds no fault.
pub open spec fn spec_tabs_val(items: Seq<JsonModel>, i: int) -> Seq<TabView>
    decreases items.len() - i,
{
    if i < 0 || i >= items.len() {
        Seq::empty()
    } else {
        seq![spec_tab_val(items[i])] + spec_tabs_val(items, i + 1)
    }
}

/// Serializes a list of tabs as JSON values.
fn tabs_to_json(tabs: &Vec<Tab>) -> (items: Vec<JsonValue>)
    ensures
        jm_of_items(items@) == spec_tabs_json(tabs.deep_view(), 0),
{
    let ghost tv = tabs.deep_view();
    let mut items: Vec<JsonValue> = Vec::new();
    proof {
        assert(jm_of_items(items@) =~= Seq::empty());
    }
    let n = tabs.len();
    let mut i: usize = 0;
    while i < n
        invariant
            n == tabs@.len(),
            i <= n,
            tv == tabs.deep_view(),
            spec_tabs_json(tv, 0) == jm_of_items(items@) + spec_tabs_json(tv, i as int),
        decreases n - i,
    {
        let tj = tabs[i].to_json();
        let ghost prev = items@;
        items.push(tj);
        proof {
            assert(tv[i as int] == tabs@[i as int].deep_view());
            assert(jm_of_items(items@) == jm_of_items(prev).push(jm_of(tj)));
            assert(jm_of_items(prev) + spec_tabs_json(tv, i as int) =~= jm_of_items(items@)
                + spec_tabs_json(tv, i as int + 1));
        }
        i += 1;
    }
    proof {
        assert(spec_tabs_json(tv, n as int) =~= Seq::<JsonModel>::empty());
        assert(jm_of_items(items@) =~= spec_tabs_json(tv, 0));
    }
    items
}

/// Parses a list of JSON values as tabs; the first malformed one
/// aborts the list with its own fault.
fn tabs_from_json(items: &Vec<JsonValue>) -> (r: Result<Vec<Tab>, Error>)
    ensures
        r is Ok <==> spec_tabs_err(jm_of_items(items@), 0) is None,
        r is Ok ==> r->Ok_0.deep_view() == spec_tabs_val(jm_of_items(items@), 0),
        r is Err ==> (r->Err_0 matches Error::MalformedRecord(k) && Some(k@) == spec_tabs_err(
            jm_of_items(items@),
            0,
        )),
{
    let ghost m = jm_of_items(items@);
    let mut acc: Vec<Tab> = Vec::new();
    proof {
        lemma_jm_of_items(items@);
        assert(acc.deep_view() =~= Seq::<TabView>::empty());
    }
    let n = items.len();
    let mut i: usize = 0;
    while i < n
        invariant
            n == items@.len(),
            i <= n,
            m == jm_of_items(items@),
            m.len() == n,
            forall|k: int| 0 <= k < n ==> m[k] == jm_of(items@[k]),
            spec_tabs_err(m, 0) == spec_tabs_err(m, i as int),
            spec_tabs_val(m, 0) == acc.deep_view() + spec_tabs_val(m, i as int),
        decreases n - i,
    {
        proof {
            lemma_jm_of_items(items@);
        }
        match Tab::from_json(&items[i]) {
            Ok(t) => {
                let ghost prev = acc.deep_view();
                acc.push(t);
                proof {
                    assert(acc.deep_view() =~= prev.push(t.deep_view()));
                    assert(prev + spec_tabs_val(m, i as int) =~= acc.deep_view() + spec_tabs_val(
                        m,
                        i as int + 1,
                    ));
                }
            },
            Err(e) => {
                return Err(e);
            },
        }
        i += 1;
    }
    proof {
        assert(spec_tabs_val(m, n as int) =~= Seq::<TabView>::empty());
        assert(acc.deep_view() =~= spec_tabs_val(m, 0));
    }
    Ok(acc)
}

/// The serialized forms of a list of windows, from window `i` on.
pub open spec fn spec_windows_json(ws: Seq<WindowView>, i: int) -> Seq<JsonModel>
    decreases ws.len() - i,
{
    if i < 0 || i >= ws.len() {
        Seq::empty()
    } else {
        seq![spec_window_json(ws[i])] + spec_windows_json(ws, i + 1)
    }
}

/// The first fault in a list of JSON values read as windows, from
/// value `i` on.
pub open spec fn spec_windows_err(items: Seq<JsonModel>, i: int) -> Option<Seq<char>>
    decreases items.len() - i,
{
    if i < 0 || i >= items.len() {
        None
    } else {
        match spec_window_err(items[i]) {
            Option::Some(k) => Some(k),
            Option::None => spec_windows_err(items, i + 1),
        }
    }
}

/// The windows a list of JSON values denotes, from value `i` on, when
/// `spec_windows_err` finds no fault.
pub open spec fn spec_windows_val(items: Seq<JsonModel>, i: int) -> Seq<WindowView>
    decreases items.len() - i,
{
    if i < 0 || i >= items.len() {
        Seq::empty()
    } else {
        seq![spec_window_val(items[i])] + spec_windows_val(items, i + 1)
    }
}

/// Serializes a list of windows as JSON values.
pub fn windows_to_json(windows: &Vec<Window>) -> (items: Vec<JsonValue>)
    ensures
        jm_of_items(items@) == spec_windows_json(windows.deep_view(), 0),
{
    let ghost wv = windows.deep_view();
    let mut items: Vec<JsonValue> = Vec::new();
    proof {
        assert(jm_of_items(items@) =~= Seq::empty());
    }
    let n = windows.len();
    let mut i: usize = 0;
    while i < n
        invariant
            n == windows@.len(),
            i <= n,
            wv == windows.deep_view(),
            spec_windows_json(wv, 0) == jm_of_items(items@) + spec_windows_json(wv, i as int),
        decreases n - i,
    {
        let wj = windows[i].to_json();
        let ghost prev = items@;
        items.push(wj);
        proof {
            assert(wv[i as int] == windows@[i as int].deep_view());
            assert(jm_of_items(items@) == jm_of_items(prev).push(jm_of(wj)));
            assert(jm_of_items(prev) + spec_windows_json(wv, i as int) =~= jm_of_items(items@)
                + spec_windows_json(wv, i as int + 1));
        }
        i += 1;
    }
    proof {
        assert(spec_windows_json(wv, n as int) =~= Seq::<JsonModel>::empty());
        assert(jm_of_items(items@) =~= spec_windows_json(wv, 0));
    }
    items
}

/// Parses a list of JSON values as windows; the first malformed one
/// aborts the list with its own fault.
pub fn windows_from_json(items: &Vec<JsonValue>) -> (r: Result<Vec<Window>, Error>)
    ensures
        r is Ok <==> spec_windows_err(jm_of_items(items@), 0) is None,
        r is Ok ==> r->Ok_0.deep_view() == spec_windows_val(jm_of_items(items@), 0),
        r is Err ==> (r->Err_0 matches Error::MalformedRecord(k) && Some(k@) == spec_windows_err(
            jm_of_items(items@),
            0,
        )),
{
    let ghost m = jm_of_items(items@);
    let mut acc: Vec<Window> = Vec::new();
    proof {
        lemma_jm_of_items(items@);
        assert(acc.deep_view() =~= Seq::<WindowView>::empty());
    }
    let n = items.len();
    let mut i: usize = 0;
    while i < n
        invariant
            n == items@.len(),
            i <= n,
            m == jm_of_items(items@),
            m.len() == n,
            forall|k: int| 0 <= k < n ==> m[k] == jm_of(items@[k]),
            spec_windows_err(m, 0) == spec_windows_err(m, i as int),
            spec_windows_val(m, 0) == acc.deep_view() + spec_windows_val(m, i as int),
        decreases n - i,
    {
        proof {
            lemma_jm_of_items(items@);
        }
        match Window::from_json(&items[i]) {
            Ok(w) => {
                let ghost prev = acc.deep_view();
                acc.push(w);
                proof {
                    assert(acc.deep_view() =~= prev.push(w.deep_view()));
                    assert(prev + spec_windows_val(m, i as int) =~= acc.deep_view()
                        + spec_windows_val(m, i as int + 1));
                }
            },
            Err(e) => {
                return Err(e);
            },
        }
        i += 1;
    }
    proof {
        assert(spec_windows_val(m, n as int) =~= Seq::<WindowView>::empty());
        assert(acc.deep_view() =~= spec_windows_val(m, 0));
    }
    Ok(acc)
}

/// The members of a serialized `Window`, in order: optional
/// attributes only when present, the three flags only when true.
pub open spec fn spec_window_fields(w: WindowView) -> Seq<(Seq<char>, JsonModel)> {
    spec_window_fields_a(w) + spec_window_fields_b(w) + spec_window_fields_c(w)
    + spec_window_fields_d(w)
}

/// The first group of a serialized `Window`'s members.
pub open spec fn spec_window_fields_a(w: WindowView) -> Seq<(Seq<char>, JsonModel)> {
    let f = Seq::<(Seq<char>, JsonModel)>::empty();
    let f = if w.nx_title is Some {
        f.push(("nx_title"@, JsonModel::Str(w.nx_title->0)))
    } else {
        f
    };
    let f = if w.always_on_top {
        f.push(("alwaysOnTop"@, JsonModel::Bool(w.always_on_top)))
    } else {
        f
    };
    let f = if w.focused {
        f.push(("focused"@, JsonModel::Bool(w.focused)))
    } else {
        f
    };
    let f = if w.height is Some {
        f.push(("height"@, JsonModel::Int(w.height->0 as int)))
    } else {
        f
    };
    f
}

/// The second group of a serialized `Window`'s members.
pub open spec fn spec_window_fields_b(w: WindowView) -> Seq<(Seq<char>, JsonModel)> {
    let f = Seq::<(Seq<char>, JsonModel)>::empty();
    let f = if w.id is Some {
        f.push(("id"@, JsonModel::Int(w.id->0 as int)))
    } else {
        f
    };
    let f = if w.incognito {
        f.push(("incognito"@, JsonModel::Bool(w.incognito)))
    } else {
        f
    };
    let f = if w.left is Some {
        f.push(("left"@, JsonModel::Int(w.left->0 as int)))
    } else {
        f
    };
    let f = if w.session_id is Some {
        f.push(("sessionId"@, JsonModel::Str(w.session_id->0)))
    } else {
        f
    };
    f
}

/// The third group of a serialized `Window`'s members.
pub open spec fn spec_window_fields_c(w: WindowView) -> Seq<(Seq<char>, JsonModel)> {
    let f = Seq::<(Seq<char>, JsonModel)>::empty();
    let f = if w.state is Some {
        f.push(("state"@, JsonModel::Str(w.state->0)))
    } else {
        f
    };
    let f = if w.tabs is Some {
        f.push(("tabs"@, JsonModel::Arr(spec_tabs_json(w.tabs->0, 0))))
    } else {
        f
    };
    let f = if w.top is Some {
        f.push(("top"@, JsonModel::Int(w.top->0 as int)))
    } else {
        f
    };
    f
}

/// The fourth group of a serialized `Window`'s members.
pub open spec fn spec_window_fields_d(w: WindowView) -> Seq<(Seq<char>, JsonModel)> {
    let f = Seq::<(Seq<char>, JsonModel)>::empty();
    let f = if w.type_ is Some {
        f.push(("type"@, JsonModel::Str(w.type_->0)))
    } else {
        f
    };
    let f = if w.width is Some {
        f.push(("width"@, JsonModel::Int(w.width->0 as int)))
    } else {
        f
    };
    f
}

/// A serialized `Window`.
pub open spec fn spec_window_json(w: WindowView) -> JsonModel {
    JsonModel::Obj(spec_window_fields(w))
}

/// Appends the first group of a window's serialized members.
#[verifier::spinoff_prover]
#[verifier::rlimit(60)]
fn window_push_a(w: &Window, fields: &mut Vec<(String, JsonValue)>)
    ensures
        jm_of_fields(final(fields)@) == jm_of_fields(old(fields)@) + spec_window_fields_a(
            w.deep_view(),
        ),
{
    let ghost wv = w.deep_view();
    let ghost mut g = jm_of_fields(fields@);
    let ghost g0 = g;
    if let Some(t) = &w.nx_title {
        fields.push((String::from_str("nx_title"), JsonValue::Str(t.clone())));
        proof {
            g = g.push(("nx_title"@, JsonModel::Str(wv.nx_title->0)));
        }
    }
    proof {
        assert(jm_of_fields(fields@) == g);
    }
    if w.always_on_top {
        fields.push((String::from_str("alwaysOnTop"), JsonValue::Bool(w.always_on_top)));
        proof {
            g = g.push(("alwaysOnTop"@, JsonModel::Bool(wv.always_on_top)));
        }
    }
    proof {
        assert(jm_of_fields(fields@) == g);
    }
    if w.focused {
        fields.push((String::from_str("focused"), JsonValue::Bool(w.focused)));
        proof {
            g = g.push(("focused"@, JsonModel::Bool(wv.focused)));
        }
    }
    proof {
        assert(jm_of_fields(fields@) == g);
    }
    if let Some(h) = w.height {
        fields.push((String::from_str("height"), JsonValue::Int(h)));
        proof {
            g = g.push(("height"@, JsonModel::Int(wv.height->0 as int)));
        }
    }
    proof {
        assert(jm_of_fields(fields@) == g);
        assert(g =~= g0 + spec_window_fields_a(wv));
    }
}

/// Appends the second group of a window's serialized members.
#[verifier::spinoff_prover]
#[verifier::rlimit(60)]
fn window_push_b(w: &Window, fields: &mut Vec<(String, JsonValue)>)
    ensures
        jm_of_fields(final(fields)@) == jm_of_fields(old(fields)@) + spec_window_fields_b(
            w.deep_view(),
        ),
{
    let ghost wv = w.deep_view();
    let ghost mut g = jm_of_fields(fields@);
    let ghost g0 = g;
    if let Some(v) = w.id {
        fields.push((String::from_str("id"), JsonValue::Int(v)));
        proof {
            g = g.push(("id"@, JsonModel::Int(wv.id->0 as int)));
        }
    }
    proof {
        assert(jm_of_fields(fields@) == g);
    }
    if w.incognito {
        fields.push((String::from_str("incognito"), JsonValue::Bool(w.incognito)));
        proof {
            g = g.push(("incognito"@, JsonModel::Bool(wv.incognito)));
        }
    }
    proof {
        assert(jm_of_fields(fields@) == g);
    }
    if let Some(v) = w.left {
        fields.push((String::from_str("left"), JsonValue::Int(v)));
        proof {
            g = g.push(("left"@, JsonModel::Int(wv.left->0 as int)));
        }
    }
    proof {
        assert(jm_of_fields(fields@) == g);
    }
    if let Some(sid) = &w.session_id {
        fields.push((String::from_str("sessionId"), JsonValue::Str(sid.clone())));
        proof {
            g = g.push(("sessionId"@, JsonModel::Str(wv.session_id->0)));
        }
    }
    proof {
        assert(jm_of_fields(fields@) == g);
        assert(g =~= g0 + spec_window_fields_b(wv));
    }
}

/// Appends the third group of a window's serialized members.
#[verifier::spinoff_prover]
#[verifier::rlimit(60)]
fn window_push_c(w: &Window, fields: &mut Vec<(String, JsonValue)>)
    ensures
        jm_of_fields(final(fields)@) == jm_of_fields(old(fields)@) + spec_window_fields_c(
            w.deep_view(),
        ),
{
    let ghost wv = w.deep_view();
    let ghost mut g = jm_of_fields(fields@);
    let ghost g0 = g;
    if let Some(st) = &w.state {
        fields.push((String::from_str("state"), JsonValue::Str(st.clone())));
        proof {
            g = g.push(("state"@, JsonModel::Str(wv.state->0)));
        }
    }
    proof {
        assert(jm_of_fields(fields@) == g);
    }
    if let Some(tabs) = &w.tabs {
        let items = tabs_to_json(tabs);
        fields.push((String::from_str("tabs"), JsonValue::Arr(items)));
        proof {
            g = g.push(("tabs"@, JsonModel::Arr(spec_tabs_json(wv.tabs->0, 0))));
        }
    }
    proof {
        assert(jm_of_fields(fields@) == g);
    }
    if let Some(v) = w.top {
        fields.push((String::from_str("top"), JsonValue::Int(v)));
        proof {
            g = g.push(("top"@, JsonModel::Int(wv.top->0 as int)));
        }
    }
    proof {
        assert(jm_of_fields(fields@) == g);
        assert(g =~= g0 + spec_window_fields_c(wv));
    }
}

/// Appends the fourth group of a window's serialized members.
#[verifier::spinoff_prover]
#[verifier::rlimit(60)]
fn window_push_d(w: &Window, fields: &mut Vec<(String, JsonValue)>)
    ensures
        jm_of_fields(final(fields)@) == jm_of_fields(old(fields)@) + spec_window_fields_d(
            w.deep_view(),
        ),
{
    let ghost wv = w.deep_view();
    let ghost mut g = jm_of_fields(fields@);
    let ghost g0 = g;
    if let Some(t) = &w.type_ {
        fields.push((String::from_str("type"), JsonValue::Str(t.clone())));
        proof {
            g = g.push(("type"@, JsonModel::Str(wv.type_->0)));
        }
    }
    proof {
        assert(jm_of_fields(fields@) == g);
    }
    if let Some(v) = w.width {
        fields.push((String::from_str("width"), JsonValue::Int(v)));
        proof {
            g = g.push(("width"@, JsonModel::Int(wv.width->0 as int)));
        }
    }
    proof {
        assert(jm_of_fields(fields@) == g);
        assert(g =~= g0 + spec_window_fields_d(wv));
    }
}

/// What the `tabs` member fails with, if anything: an absent or null
/// member is fine, an array is read tab by tab, any other value is a
/// fault of its own.
pub open spec fn spec_window_tabs_err(j: JsonModel) -> Option<Seq<char>> {
    match spec_member(j, "tabs"@) {
        Option::None => None,
        Option::Some(m) => match m {
            JsonModel::Null => None,
            JsonModel::Arr(items) => spec_tabs_err(items, 0),
            _ => Some("tabs"@),
        },
    }
}

/// The `tabs` member's value, when it does not fail.
pub open spec fn spec_window_tabs_val(j: JsonModel) -> Option<Seq<TabView>> {
    match spec_member(j, "tabs"@) {
        Option::None => None,
        Option::Some(m) => match m {
            JsonModel::Null => None,
            JsonModel::Arr(items) => Some(spec_tabs_val(items, 0)),
            _ => None,
        },
    }
}

/// The first member of a JSON object that cannot be read as its
/// `Window` field, if any; unknown members are ignored.
pub open spec fn spec_window_err(j: JsonModel) -> Option<Seq<char>> {
    if !(j is Obj) {
        Some("window"@)
    } else if spec_opt_str(j, "nx_title"@) is Err {
        Some("nx_title"@)
    } else if spec_def_bool(j, "alwaysOnTop"@) is Err {
        Some("alwaysOnTop"@)
    } else if spec_def_bool(j, "focused"@) is Err {
        Some("focused"@)
    } else if spec_opt_int(j, "height"@) is Err {
        Some("height"@)
    } else if spec_opt_int(j, "id"@) is Err {
        Some("id"@)
    } else if spec_def_bool(j, "incognito"@) is Err {
        Some("incognito"@)
    } else if spec_opt_int(j, "left"@) is Err {
        Some("left"@)
    } else if spec_opt_str(j, "sessionId"@) is Err {
        Some("sessionId"@)
    } else if spec_opt_str(j, "state"@) is Err {
        Some("state"@)
    } else if spec_window_tabs_err(j) is Some {
        spec_window_tabs_err(j)
    } else if spec_opt_int(j, "top"@) is Err {
        Some("top"@)
    } else if spec_opt_str(j, "type"@) is Err {
        Some("type"@)
    } else if spec_opt_int(j, "width"@) is Err {
        Some("width"@)
    } else {
        None
    }
}

/// The `Window` a JSON object denotes, when `spec_window_err` finds no
/// fault.
pub open spec fn spec_window_val(j: JsonModel) -> WindowView {
    WindowView {
        nx_title: spec_opt_str(j, "nx_title"@)->Ok_0,
        always_on_top: spec_def_bool(j, "alwaysOnTop"@)->Ok_0,
        focused: spec_def_bool(j, "focused"@)->Ok_0,
        height: match spec_opt_int(j, "height"@)->Ok_0 {
            Some(v) => Some(v as i64),
            None => None,
        },
        id: match spec_opt_int(j, "id"@)->Ok_0 {
            Some(v) => Some(v as i64),
            None => None,
        },
        incognito: spec_def_bool(j, "incognito"@)->Ok_0,
        left: match spec_opt_int(j, "left"@)->Ok_0 {
            Some(v) => Some(v as i64),
            None => None,
        },
        session_id: spec_opt_str(j, "sessionId"@)->Ok_0,
        state: spec_opt_str(j, "state"@)->Ok_0,
        tabs: spec_window_tabs_val(j),
        top: match spec_opt_int(j, "top"@)->Ok_0 {
            Some(v) => Some(v as i64),
            None => None,
        },
        type_: spec_opt_str(j, "type"@)->Ok_0,
        width: match spec_opt_int(j, "width"@)->Ok_0 {
            Some(v) => Some(v as i64),
            None => None,
        },
    }
}

impl Window {
    /// Serializes this window as an interchange JSON object.
    pub fn to_json(&self) -> (j: JsonValue)
        ensures
            j@ == spec_window_json(self.deep_view()),
    {
        let mut fields: Vec<(String, JsonValue)> = Vec::new();
        proof {
            assert(jm_of_fields(fields@) =~= Seq::empty());
        }
        window_push_a(self, &mut fields);
        window_push_b(self, &mut fields);
        window_push_c(self, &mut fields);
        window_push_d(self, &mut fields);
        proof {
            assert(jm_of_fields(fields@) =~= spec_window_fields(self.deep_view()));
        }
        JsonValue::Obj(fields)
    }

    /// Parses an interchange JSON object as a `Window`; unknown
    /// members are ignored, and a member of the wrong type is a
    /// malformed record naming the member.
    pub fn from_json(j: &JsonValue) -> (r: Result<Window, Error>)
        ensures
            r is Ok <==> spec_window_err(j@) is None,
            r is Ok ==> r->Ok_0.deep_view() == spec_window_val(j@),
            r is Err ==> (r->Err_0 matches Error::MalformedRecord(k) && Some(k@)
                == spec_window_err(j@)),
    {
        match j {
            JsonValue::Obj(_) => {},
            _ => {
                return Err(Error::MalformedRecord(String::from_str("window")));
            },
        }
        let nx_title = match j.get_opt_string("nx_title") {
            Ok(v) => v,
            Err(_) => {
                return Err(Error::MalformedRecord(String::from_str("nx_title")));
            },
        };
        let always_on_top = match j.get_def_bool("alwaysOnTop") {
            Ok(v) => v,
            Err(_) => {
                return Err(Error::MalformedRecord(String::from_str("alwaysOnTop")));
            },
        };
        let focused = match j.get_def_bool("focused") {
            Ok(v) => v,
            Err(_) => {
                return Err(Error::MalformedRecord(String::from_str("focused")));
            },
        };
        let height = match j.get_opt_i64("height") {
            Ok(v) => v,
            Err(_) => {
                return Err(Error::MalformedRecord(String::from_str("height")));
            },
        };
        let id = match j.get_opt_i64("id") {
            Ok(v) => v,
            Err(_) => {
                return Err(Error::MalformedRecord(String::from_str("id")));
            },
        };
        let incognito = match j.get_def_bool("incognito") {
            Ok(v) => v,
            Err(_) => {
                return Err(Error::MalformedRecord(String::from_str("incognito")));
            },
        };
        let left = match j.get_opt_i64("left") {
            Ok(v) => v,
            Err(_) => {
                return Err(Error::MalformedRecord(String::from_str("left")));
            },
        };
        let session_id = match j.get_opt_string("sessionId") {
            Ok(v) => v,
            Err(_) => {
                return Err(Error::MalformedRecord(String::from_str("sessionId")));
            },
        };
        let state = match j.get_opt_string("state") {
            Ok(v) => v,
            Err(_) => {
                return Err(Error::MalformedRecord(String::from_str("state")));
            },
        };
        let tabs = match j.member("tabs") {
            Option::None => None,
            Option::Some(v) => match v {
                JsonValue::Null => None,
                JsonValue::Arr(items) => match tabs_from_json(items) {
                    Ok(ts) => Some(ts),
                    Err(e) => {
                        return Err(e);
                    },
                },
                _ => {
                    return Err(Error::MalformedRecord(String::from_str("tabs")));
                },
            },
        };
        let top = match j.get_opt_i64("top") {
            Ok(v) => v,
            Err(_) => {
                return Err(Error::MalformedRecord(String::from_str("top")));
            },
        };
        let type_ = match j.get_opt_string("type") {
            Ok(v) => v,
            Err(_) => {
                return Err(Error::MalformedRecord(String::from_str("type")));
            },
        };
        let width = match j.get_opt_i64("width") {
            Ok(v) => v,
            Err(_) => {
                return Err(Error::MalformedRecord(String::from_str("width")));
            },
        };
        Ok(
            Window {
                nx_title,
                always_on_top,
                focused,
                height,
                id,
                incognito,
                left,
                session_id,
                state,
                tabs,
                top,
                type_,
                width,
            },
        )
    }
}

} // verus!
