//! The browser tab snapshot and its auxiliary value objects.
//!
//! Each record is a plain data container with two operations: parse
//! from an interchange JSON object and serialize to one. On output an
//! absent optional attribute is omitted, never emitted as null, and a
//! boolean or numeric attribute with a default is omitted at its zero
//! value — except `incognito`, `index`, `pinned` and `selected`, which
//! are always emitted. On input unknown members are ignored, and a
//! member of the wrong type is a malformed record naming that member.

use vstd::prelude::*;

use crate::error::Error;
use crate::json::{jm_of, jm_of_fields, lemma_jm_of_fields_push, spec_def_bool, spec_def_int,
    spec_member, spec_opt_bool, spec_opt_int, spec_opt_str, spec_req_bool, JsonModel, JsonValue};

verus! {

broadcast use
    vstd::seq::group_seq_axioms,
    vstd::std_specs::vec::group_vec_axioms,
    lemma_jm_of_fields_push,
;

/// A tab's muted state and the reason for the last state change.
#[derive(Debug)]
pub struct MutedInfo {
    /// The id of the extension that changed the muted state, if an
    /// extension did.
    pub extension_id: Option<String>,
    /// Whether the tab is prevented from playing sound.
    pub muted: bool,
    /// Why the tab was muted or unmuted, if its state ever changed.
    pub reason: Option<String>,
}

/// The mathematical value of a `MutedInfo`.
pub ghost struct MutedInfoView {
    pub extension_id: Option<Seq<char>>,
    pub muted: bool,
    pub reason: Option<Seq<char>>,
}

impl DeepView for MutedInfo {
    type V = MutedInfoView;

    open spec fn deep_view(&self) -> MutedInfoView {
        MutedInfoView {
            extension_id: self.extension_id.deep_view(),
            muted: self.muted,
            reason: self.reason.deep_view(),
        }
    }
}

/// Clones an optional string, keeping its value.
pub(crate) fn clone_opt_string(o: &Option<String>) -> (r: Option<String>)
    ensures
        r.deep_view() == o.deep_view(),
{
    match o {
        Option::Some(s) => Some(s.clone()),
        Option::None => None,
    }
}

impl Clone for MutedInfo {
    /// A clone keeps the value exactly.
    fn clone(&self) -> (res: Self)
        ensures
            res.deep_view() == self.deep_view(),
    {
        MutedInfo {
            extension_id: clone_opt_string(&self.extension_id),
            muted: self.muted,
            reason: clone_opt_string(&self.reason),
        }
    }
}

impl Clone for Tab {
    /// A clone keeps the value exactly.
    fn clone(&self) -> (res: Self)
        ensures
            res.deep_view() == self.deep_view(),
    {
        Tab {
            active: self.active,
            audible: self.audible,
            auto_discardable: self.auto_discardable,
            discarded: self.discarded,
            fav_icon_url: clone_opt_string(&self.fav_icon_url),
            group_id: self.group_id,
            height: self.height,
            highlighted: self.highlighted,
            id: self.id,
            incognito: self.incognito,
            index: self.index,
            muted_info: match &self.muted_info {
                Option::Some(m) => Some(m.clone()),
                Option::None => None,
            },
            opener_tab_id: self.opener_tab_id,
            pending_url: clone_opt_string(&self.pending_url),
            pinned: self.pinned,
            selected: self.selected,
            session_id: clone_opt_string(&self.session_id),
            status: clone_opt_string(&self.status),
            title: clone_opt_string(&self.title),
            url: clone_opt_string(&self.url),
            width: self.width,
            window_id: self.window_id,
        }
    }
}

/// The members of a serialized `MutedInfo`, in order, under the
/// omission rules.
pub open spec fn spec_muted_info_fields(m: MutedInfoView) -> Seq<(Seq<char>, JsonModel)> {
    let f = Seq::<(Seq<char>, JsonModel)>::empty();
    let f = if m.extension_id is Some {
        f.push(("extensionId"@, JsonModel::Str(m.extension_id->0)))
    } else {
        f
    };
    let f = f.push(("muted"@, JsonModel::Bool(m.muted)));
    let f = if m.reason is Some {
        f.push(("reason"@, JsonModel::Str(m.reason->0)))
    } else {
        f
    };
    f
}

/// A serialized `MutedInfo`.
pub open spec fn spec_muted_info_json(m: MutedInfoView) -> JsonModel {
    JsonModel::Obj(spec_muted_info_fields(m))
}

/// The first member of a JSON object that cannot be read as its
/// `MutedInfo` field, if any. `muted` is required; the rest are
/// optional.
pub open spec fn spec_muted_info_err(j: JsonModel) -> Option<Seq<char>> {
    if !(j is Obj) {
        Some("mutedInfo"@)
    } else if spec_opt_str(j, "extensionId"@) is Err {
        Some("extensionId"@)
    } else if spec_req_bool(j, "muted"@) is Err {
        Some("muted"@)
    } else if spec_opt_str(j, "reason"@) is Err {
        Some("reason"@)
    } else {
        None
    }
}

/// The `MutedInfo` a JSON object denotes, when `spec_muted_info_err`
/// finds no fault.
pub open spec fn spec_muted_info_val(j: JsonModel) -> MutedInfoView {
    MutedInfoView {
        extension_id: spec_opt_str(j, "extensionId"@)->Ok_0,
        muted: spec_req_bool(j, "muted"@)->Ok_0,
        reason: spec_opt_str(j, "reason"@)->Ok_0,
    }
}

impl MutedInfo {
    /// Serializes this record as an interchange JSON object.
    pub fn to_json(&self) -> (j: JsonValue)
        ensures
            j@ == spec_muted_info_json(self.deep_view()),
    {
        let mut fields: Vec<(String, JsonValue)> = Vec::new();
        if let Some(eid) = &self.extension_id {
            fields.push((String::from_str("extensionId"), JsonValue::Str(eid.clone())));
        }
        fields.push((String::from_str("muted"), JsonValue::Bool(self.muted)));
        if let Some(re) = &self.reason {
            fields.push((String::from_str("reason"), JsonValue::Str(re.clone())));
        }
        proof {
            assert(jm_of_fields(Seq::<(String, JsonValue)>::empty()) =~= Seq::empty());
            assert(jm_of_fields(fields@) =~= spec_muted_info_fields(self.deep_view()));
        }
        JsonValue::Obj(fields)
    }

    /// Parses an interchange JSON object as a `MutedInfo`; a member of
    /// the wrong type, or a missing `muted`, is a malformed record
    /// naming the member.
    pub fn from_json(j: &JsonValue) -> (r: Result<MutedInfo, Error>)
        ensures
            r is Ok <==> spec_muted_info_err(j@) is None,
            r is Ok ==> r->Ok_0.deep_view() == spec_muted_info_val(j@),
            r is Err ==> (r->Err_0 matches Error::MalformedRecord(k) && Some(k@)
                == spec_muted_info_err(j@)),
    {
        match j {
            JsonValue::Obj(_) => {},
            _ => {
                return Err(Error::MalformedRecord(String::from_str("mutedInfo")));
            },
        }
        let extension_id = match j.get_opt_string("extensionId") {
            Ok(v) => v,
            Err(_) => {
                return Err(Error::MalformedRecord(String::from_str("extensionId")));
            },
        };
        let muted = match j.get_req_bool("muted") {
            Ok(v) => v,
            Err(_) => {
                return Err(Error::MalformedRecord(String::from_str("muted")));
            },
        };
        let reason = match j.get_opt_string("reason") {
            Ok(v) => v,
            Err(_) => {
                return Err(Error::MalformedRecord(String::from_str("reason")));
            },
        };
        Ok(MutedInfo { extension_id, muted, reason })
    }
}

/// A browser tab snapshot, with the attribute set of the browser's
/// own tab description.
#[derive(Debug)]
pub struct Tab {
    /// Whether the tab is active in its window.
    pub active: bool,
    /// Whether the tab has produced sound recently.
    pub audible: Option<bool>,
    /// Whether the browser may discard the tab when resources are low.
    pub auto_discardable: bool,
    /// Whether the tab's content has been unloaded from memory.
    pub discarded: bool,
    /// The URL of the tab's favicon.
    pub fav_icon_url: Option<String>,
    /// The id of the group the tab belongs to.
    pub group_id: i64,
    /// The height of the tab in pixels.
    pub height: Option<i64>,
    /// Whether the tab is highlighted.
    pub highlighted: bool,
    /// The id of the tab, unique within a browser session.
    pub id: Option<i64>,
    /// Whether the tab is in an incognito window.
    pub incognito: bool,
    /// The zero-based index of the tab within its window.
    pub index: i64,
    /// The tab's muted state and the reason for the last change.
    pub muted_info: Option<MutedInfo>,
    /// The id of the tab that opened this tab, if it still exists.
    pub opener_tab_id: Option<i64>,
    /// The URL the tab is navigating to, before it has committed.
    pub pending_url: Option<String>,
    /// Whether the tab is pinned.
    pub pinned: bool,
    /// Whether the tab is selected.
    pub selected: bool,
    /// The session id of a tab obtained from the sessions interface.
    pub session_id: Option<String>,
    /// The tab's loading status.
    pub status: Option<String>,
    /// The title of the tab.
    pub title: Option<String>,
    /// The last committed URL of the tab's main frame.
    pub url: Option<String>,
    /// The width of the tab in pixels.
    pub width: Option<i64>,
    /// The id of the window that contains the tab.
    pub window_id: i64,
}

/// The mathematical value of a `Tab`.
pub ghost struct TabView {
    pub active: bool,
    pub audible: Option<bool>,
    pub auto_discardable: bool,
    pub discarded: bool,
    pub fav_icon_url: Option<Seq<char>>,
    pub group_id: i64,
    pub height: Option<i64>,
    pub highlighted: bool,
    pub id: Option<i64>,
    pub incognito: bool,
    pub index: i64,
    pub muted_info: Option<MutedInfoView>,
    pub opener_tab_id: Option<i64>,
    pub pending_url: Option<Seq<char>>,
    pub pinned: bool,
    pub selected: bool,
    pub session_id: Option<Seq<char>>,
    pub status: Option<Seq<char>>,
    pub title: Option<Seq<char>>,
    pub url: Option<Seq<char>>,
    pub width: Option<i64>,
    pub window_id: i64,
}

impl DeepView for Tab {
    type V = TabView;

    open spec fn deep_view(&self) -> TabView {
        TabView {
            active: self.active,
            audible: self.audible,
            auto_discardable: self.auto_discardable,
            discarded: self.discarded,
            fav_icon_url: self.fav_icon_url.deep_view(),
            group_id: self.group_id,
            height: self.height,
            highlighted: self.highlighted,
            id: self.id,
            incognito: self.incognito,
            index: self.index,
            muted_info: self.muted_info.deep_view(),
            opener_tab_id: self.opener_tab_id,
            pending_url: self.pending_url.deep_view(),
            pinned: self.pinned,
            selected: self.selected,
            session_id: self.session_id.deep_view(),
            status: self.status.deep_view(),
            title: self.title.deep_view(),
            url: self.url.deep_view(),
            width: self.width,
            window_id: self.window_id,
        }
    }
}

/// A tab with every optional attribute absent and every attribute
/// with a default at its zero value.
pub open spec fn spec_tab_default() -> TabView {
    TabView {
        active: false,
        audible: None,
        auto_discardable: false,
        discarded: false,
        fav_icon_url: None,
        group_id: 0,
        height: None,
        highlighted: false,
        id: None,
        incognito: false,
        index: 0,
        muted_info: None,
        opener_tab_id: None,
        pending_url: None,
        pinned: false,
        selected: false,
        session_id: None,
        status: None,
        title: None,
        url: None,
        width: None,
        window_id: 0,
    }
}

/// The members of a serialized `Tab`, in order, under the omission
/// rules: optional attributes only when present, defaulted attributes
/// only away from their zero value, and `incognito`, `index`,
/// `pinned`, `selected` always.
pub open spec fn spec_tab_fields(t: TabView) -> Seq<(Seq<char>, JsonModel)> {
    spec_tab_fields_a(t) + spec_tab_fields_b(t) + spec_tab_fields_c(t) + spec_tab_fields_d(t) + spec_tab_fields_e(t) + spec_tab_fields_f(t)
}

/// The first group of a serialized `Tab`'s members.
pub open spec fn spec_tab_fields_a(t: TabView) -> Seq<(Seq<char>, JsonModel)> {
    let f = Seq::<(Seq<char>, JsonModel)>::empty();
    let f = if t.active {
        f.push(("active"@, JsonModel::Bool(t.active)))
    } else {
        f
    };
    let f = if t.audible is Some {
        f.push(("audible"@, JsonModel::Bool(t.audible->0)))
    } else {
        f
    };
    let f = if t.auto_discardable {
        f.push(("autoDiscardable"@, JsonModel::Bool(t.auto_discardable)))
    } else {
        f
    };
    let f = if t.discarded {
        f.push(("discarded"@, JsonModel::Bool(t.discarded)))
    } else {
        f
    };
    f
}

/// The second group of a serialized `Tab`'s members.
pub open spec fn spec_tab_fields_b(t: TabView) -> Seq<(Seq<char>, JsonModel)> {
    let f = Seq::<(Seq<char>, JsonModel)>::empty();
    let f = if t.fav_icon_url is Some {
        f.push(("favIconUrl"@, JsonModel::Str(t.fav_icon_url->0)))
    } else {
        f
    };
    let f = if t.group_id != 0 {
        f.push(("groupId"@, JsonModel::Int(t.group_id as int)))
    } else {
        f
    };
    let f = if t.height is Some {
        f.push(("height"@, JsonModel::Int(t.height->0 as int)))
    } else {
        f
    };
    let f = if t.highlighted {
        f.push(("highlighted"@, JsonModel::Bool(t.highlighted)))
    } else {
        f
    };
    f
}

/// The third group of a serialized `Tab`'s members.
pub open spec fn spec_tab_fields_c(t: TabView) -> Seq<(Seq<char>, JsonModel)> {
    let f = Seq::<(Seq<char>, JsonModel)>::empty();
    let f = if t.id is Some {
        f.push(("id"@, JsonModel::Int(t.id->0 as int)))
    } else {
        f
    };
    let f = f.push(("incognito"@, JsonModel::Bool(t.incognito)));
    let f = f.push(("index"@, JsonModel::Int(t.index as int)));
    let f = if t.muted_info is Some {
        f.push(("mutedInfo"@, spec_muted_info_json(t.muted_info->0)))
    } else {
        f
    };
    f
}

/// The fourth group of a serialized `Tab`'s members.
pub open spec fn spec_tab_fields_d(t: TabView) -> Seq<(Seq<char>, JsonModel)> {
    let f = Seq::<(Seq<char>, JsonModel)>::empty();
    let f = if t.opener_tab_id is Some {
        f.push(("openerTabId"@, JsonModel::Int(t.opener_tab_id->0 as int)))
    } else {
        f
    };
    let f = if t.pending_url is Some {
        f.push(("pendingUrl"@, JsonModel::Str(t.pending_url->0)))
    } else {
        f
    };
    let f = f.push(("pinned"@, JsonModel::Bool(t.pinned)));
    let f = f.push(("selected"@, JsonModel::Bool(t.selected)));
    f
}

/// The fifth group of a serialized `Tab`'s members.
pub open spec fn spec_tab_fields_e(t: TabView) -> Seq<(Seq<char>, JsonModel)> {
    let f = Seq::<(Seq<char>, JsonModel)>::empty();
    let f = if t.session_id is Some {
        f.push(("sessionId"@, JsonModel::Str(t.session_id->0)))
    } else {
        f
    };
    let f = if t.status is Some {
        f.push(("status"@, JsonModel::Str(t.status->0)))
    } else {
        f
    };
    let f = if t.title is Some {
        f.push(("title"@, JsonModel::Str(t.title->0)))
    } else {
        f
    };
    f
}

/// The sixth group of a serialized `Tab`'s members.
pub open spec fn spec_tab_fields_f(t: TabView) -> Seq<(Seq<char>, JsonModel)> {
    let f = Seq::<(Seq<char>, JsonModel)>::empty();
    let f = if t.url is Some {
        f.push(("url"@, JsonModel::Str(t.url->0)))
    } else {
        f
    };
    let f = if t.width is Some {
        f.push(("width"@, JsonModel::Int(t.width->0 as int)))
    } else {
        f
    };
    let f = if t.window_id != 0 {
        f.push(("windowId"@, JsonModel::Int(t.window_id as int)))
    } else {
        f
    };
    f
}

/// A serialized `Tab`.
pub open spec fn spec_tab_json(t: TabView) -> JsonModel {
    JsonModel::Obj(spec_tab_fields(t))
}

/// Serializing a tab with every optional attribute absent and every
/// defaulted attribute at its zero value yields an object holding
/// exactly the four always-emitted members — `incognito`, `index`,
/// `pinned` and `selected` — and no other.
pub proof fn lemma_default_tab_omission()
    ensures
        spec_tab_json(spec_tab_default()) == JsonModel::Obj(
            seq![
                ("incognito"@, JsonModel::Bool(false)),
                ("index"@, JsonModel::Int(0)),
                ("pinned"@, JsonModel::Bool(false)),
                ("selected"@, JsonModel::Bool(false)),
            ],
        ),
{
    assert(spec_tab_fields(spec_tab_default()) =~= seq![
        ("incognito"@, JsonModel::Bool(false)),
        ("index"@, JsonModel::Int(0)),
        ("pinned"@, JsonModel::Bool(false)),
        ("selected"@, JsonModel::Bool(false)),
    ]);
}

/// What the `mutedInfo` member fails with, if anything: an absent or
/// null member is fine, any other is read as a `MutedInfo`.
pub open spec fn spec_tab_muted_err(j: JsonModel) -> Option<Seq<char>> {
    match spec_member(j, "mutedInfo"@) {
        Option::None => None,
        Option::Some(m) => match m {
            JsonModel::Null => None,
            _ => spec_muted_info_err(m),
        },
    }
}

/// The `mutedInfo` member's value, when it does not fail.
pub open spec fn spec_tab_muted_val(j: JsonModel) -> Option<MutedInfoView> {
    match spec_member(j, "mutedInfo"@) {
        Option::None => None,
        Option::Some(m) => match m {
            JsonModel::Null => None,
            _ => Some(spec_muted_info_val(m)),
        },
    }
}

/// The first member of a JSON object that cannot be read as its `Tab`
/// field, if any; unknown members are ignored.
pub open spec fn spec_tab_err(j: JsonModel) -> Option<Seq<char>> {
    if !(j is Obj) {
        Some("tab"@)
    } else if spec_def_bool(j, "active"@) is Err {
        Some("active"@)
    } else if spec_opt_bool(j, "audible"@) is Err {
        Some("audible"@)
    } else if spec_def_bool(j, "autoDiscardable"@) is Err {
        Some("autoDiscardable"@)
    } else if spec_def_bool(j, "discarded"@) is Err {
        Some("discarded"@)
    } else if spec_opt_str(j, "favIconUrl"@) is Err {
        Some("favIconUrl"@)
    } else if spec_def_int(j, "groupId"@) is Err {
        Some("groupId"@)
    } else if spec_opt_int(j, "height"@) is Err {
        Some("height"@)
    } else if spec_def_bool(j, "highlighted"@) is Err {
        Some("highlighted"@)
    } else if spec_opt_int(j, "id"@) is Err {
        Some("id"@)
    } else if spec_def_bool(j, "incognito"@) is Err {
        Some("incognito"@)
    } else if spec_def_int(j, "index"@) is Err {
        Some("index"@)
    } else if spec_tab_muted_err(j) is Some {
        spec_tab_muted_err(j)
    } else if spec_opt_int(j, "openerTabId"@) is Err {
        Some("openerTabId"@)
    } else if spec_opt_str(j, "pendingUrl"@) is Err {
        Some("pendingUrl"@)
    } else if spec_def_bool(j, "pinned"@) is Err {
        Some("pinned"@)
    } else if spec_def_bool(j, "selected"@) is Err {
        Some("selected"@)
    } else if spec_opt_str(j, "sessionId"@) is Err {
        Some("sessionId"@)
    } else if spec_opt_str(j, "status"@) is Err {
        Some("status"@)
    } else if spec_opt_str(j, "title"@) is Err {
        Some("title"@)
    } else if spec_opt_str(j, "url"@) is Err {
        Some("url"@)
    } else if spec_opt_int(j, "width"@) is Err {
        Some("width"@)
    } else if spec_def_int(j, "windowId"@) is Err {
        Some("windowId"@)
    } else {
        None
    }
}

/// The `Tab` a JSON object denotes, when `spec_tab_err` finds no
/// fault.
pub open spec fn spec_tab_val(j: JsonModel) -> TabView {
    TabView {
        active: spec_def_bool(j, "active"@)->Ok_0,
        audible: spec_opt_bool(j, "audible"@)->Ok_0,
        auto_discardable: spec_def_bool(j, "autoDiscardable"@)->Ok_0,
        discarded: spec_def_bool(j, "discarded"@)->Ok_0,
        fav_icon_url: spec_opt_str(j, "favIconUrl"@)->Ok_0,
        group_id: spec_def_int(j, "groupId"@)->Ok_0 as i64,
        height: match spec_opt_int(j, "height"@)->Ok_0 {
            Some(v) => Some(v as i64),
            None => None,
        },
        highlighted: spec_def_bool(j, "highlighted"@)->Ok_0,
        id: match spec_opt_int(j, "id"@)->Ok_0 {
            Some(v) => Some(v as i64),
            None => None,
        },
        incognito: spec_def_bool(j, "incognito"@)->Ok_0,
        index: spec_def_int(j, "index"@)->Ok_0 as i64,
        muted_info: spec_tab_muted_val(j),
        opener_tab_id: match spec_opt_int(j, "openerTabId"@)->Ok_0 {
            Some(v) => Some(v as i64),
            None => None,
        },
        pending_url: spec_opt_str(j, "pendingUrl"@)->Ok_0,
        pinned: spec_def_bool(j, "pinned"@)->Ok_0,
        selected: spec_def_bool(j, "selected"@)->Ok_0,
        session_id: spec_opt_str(j, "sessionId"@)->Ok_0,
        status: spec_opt_str(j, "status"@)->Ok_0,
        title: spec_opt_str(j, "title"@)->Ok_0,
        url: spec_opt_str(j, "url"@)->Ok_0,
        width: match spec_opt_int(j, "width"@)->Ok_0 {
            Some(v) => Some(v as i64),
            None => None,
        },
        window_id: spec_def_int(j, "windowId"@)->Ok_0 as i64,
    }
}

/// Appends the first group of a tab's serialized members.
#[verifier::spinoff_prover]
#[verifier::rlimit(60)]
fn tab_push_a(t: &Tab, fields: &mut Vec<(String, JsonValue)>)
    ensures
        jm_of_fields(final(fields)@) == jm_of_fields(old(fields)@) + spec_tab_fields_a(
            t.deep_view(),
        ),
{
    let ghost tv = t.deep_view();
    let ghost mut g = jm_of_fields(fields@);
    let ghost g0 = g;
    if t.active {
        fields.push((String::from_str("active"), JsonValue::Bool(t.active)));
        proof {
            g = g.push(("active"@, JsonModel::Bool(tv.active)));
        }
    }
    proof {
        assert(jm_of_fields(fields@) == g);
    }
    if let Some(b) = t.audible {
        fields.push((String::from_str("audible"), JsonValue::Bool(b)));
        proof {
            g = g.push(("audible"@, JsonModel::Bool(tv.audible->0)));
        }
    }
    proof {
        assert(jm_of_fields(fields@) == g);
    }
    if t.auto_discardable {
        fields.push((String::from_str("autoDiscardable"), JsonValue::Bool(t.auto_discardable)));
        proof {
            g = g.push(("autoDiscardable"@, JsonModel::Bool(tv.auto_discardable)));
        }
    }
    proof {
        assert(jm_of_fields(fields@) == g);
    }
    if t.discarded {
        fields.push((String::from_str("discarded"), JsonValue::Bool(t.discarded)));
        proof {
            g = g.push(("discarded"@, JsonModel::Bool(tv.discarded)));
        }
    }
    proof {
        assert(jm_of_fields(fields@) == g);
    }
    proof {
        assert(g =~= g0 + spec_tab_fields_a(tv));
    }
}

/// Appends the second group of a tab's serialized members.
#[verifier::spinoff_prover]
#[verifier::rlimit(60)]
fn tab_push_b(t: &Tab, fields: &mut Vec<(String, JsonValue)>)
    ensures
        jm_of_fields(final(fields)@) == jm_of_fields(old(fields)@) + spec_tab_fields_b(
            t.deep_view(),
        ),
{
    let ghost tv = t.deep_view();
    let ghost mut g = jm_of_fields(fields@);
    let ghost g0 = g;
    if let Some(u) = &t.fav_icon_url {
        fields.push((String::from_str("favIconUrl"), JsonValue::Str(u.clone())));
        proof {
            g = g.push(("favIconUrl"@, JsonModel::Str(tv.fav_icon_url->0)));
        }
    }
    proof {
        assert(jm_of_fields(fields@) == g);
    }
    if t.group_id != 0 {
        fields.push((String::from_str("groupId"), JsonValue::Int(t.group_id)));
        proof {
            g = g.push(("groupId"@, JsonModel::Int(tv.group_id as int)));
        }
    }
    proof {
        assert(jm_of_fields(fields@) == g);
    }
    if let Some(v) = t.height {
        fields.push((String::from_str("height"), JsonValue::Int(v)));
        proof {
            g = g.push(("height"@, JsonModel::Int(tv.height->0 as int)));
        }
    }
    proof {
        assert(jm_of_fields(fields@) == g);
    }
    if t.highlighted {
        fields.push((String::from_str("highlighted"), JsonValue::Bool(t.highlighted)));
        proof {
            g = g.push(("highlighted"@, JsonModel::Bool(tv.highlighted)));
        }
    }
    proof {
        assert(jm_of_fields(fields@) == g);
    }
    proof {
        assert(g =~= g0 + spec_tab_fields_b(tv));
    }
}

/// Appends the third group of a tab's serialized members.
#[verifier::spinoff_prover]
#[verifier::rlimit(60)]
fn tab_push_c(t: &Tab, fields: &mut Vec<(String, JsonValue)>)
    ensures
        jm_of_fields(final(fields)@) == jm_of_fields(old(fields)@) + spec_tab_fields_c(
            t.deep_view(),
        ),
{
    let ghost tv = t.deep_view();
    let ghost mut g = jm_of_fields(fields@);
    let ghost g0 = g;
    if let Some(v) = t.id {
        fields.push((String::from_str("id"), JsonValue::Int(v)));
        proof {
            g = g.push(("id"@, JsonModel::Int(tv.id->0 as int)));
        }
    }
    proof {
        assert(jm_of_fields(fields@) == g);
    }
    fields.push((String::from_str("incognito"), JsonValue::Bool(t.incognito)));
    proof {
        g = g.push(("incognito"@, JsonModel::Bool(tv.incognito)));
        assert(jm_of_fields(fields@) == g);
    }
    fields.push((String::from_str("index"), JsonValue::Int(t.index)));
    proof {
        g = g.push(("index"@, JsonModel::Int(tv.index as int)));
        assert(jm_of_fields(fields@) == g);
    }
    if let Some(m) = &t.muted_info {
        fields.push((String::from_str("mutedInfo"), m.to_json()));
        proof {
            g = g.push(("mutedInfo"@, spec_muted_info_json(tv.muted_info->0)));
        }
    }
    proof {
        assert(jm_of_fields(fields@) == g);
    }
    proof {
        assert(g =~= g0 + spec_tab_fields_c(tv));
    }
}

/// Appends the fourth group of a tab's serialized members.
#[verifier::spinoff_prover]
#[verifier::rlimit(60)]
fn tab_push_d(t: &Tab, fields: &mut Vec<(String, JsonValue)>)
    ensures
        jm_of_fields(final(fields)@) == jm_of_fields(old(fields)@) + spec_tab_fields_d(
            t.deep_view(),
        ),
{
    let ghost tv = t.deep_view();
    let ghost mut g = jm_of_fields(fields@);
    let ghost g0 = g;
    if let Some(v) = t.opener_tab_id {
        fields.push((String::from_str("openerTabId"), JsonValue::Int(v)));
        proof {
            g = g.push(("openerTabId"@, JsonModel::Int(tv.opener_tab_id->0 as int)));
        }
    }
    proof {
        assert(jm_of_fields(fields@) == g);
    }
    if let Some(u) = &t.pending_url {
        fields.push((String::from_str("pendingUrl"), JsonValue::Str(u.clone())));
        proof {
            g = g.push(("pendingUrl"@, JsonModel::Str(tv.pending_url->0)));
        }
    }
    proof {
        assert(jm_of_fields(fields@) == g);
    }
    fields.push((String::from_str("pinned"), JsonValue::Bool(t.pinned)));
    proof {
        g = g.push(("pinned"@, JsonModel::Bool(tv.pinned)));
        assert(jm_of_fields(fields@) == g);
    }
    fields.push((String::from_str("selected"), JsonValue::Bool(t.selected)));
    proof {
        g = g.push(("selected"@, JsonModel::Bool(tv.selected)));
        assert(jm_of_fields(fields@) == g);
    }
    proof {
        assert(g =~= g0 + spec_tab_fields_d(tv));
    }
}

/// Appends the fifth group of a tab's serialized members.
#[verifier::spinoff_prover]
#[verifier::rlimit(60)]
fn tab_push_e(t: &Tab, fields: &mut Vec<(String, JsonValue)>)
    ensures
        jm_of_fields(final(fields)@) == jm_of_fields(old(fields)@) + spec_tab_fields_e(
            t.deep_view(),
        ),
{
    let ghost tv = t.deep_view();
    let ghost mut g = jm_of_fields(fields@);
    let ghost g0 = g;
    if let Some(u) = &t.session_id {
        fields.push((String::from_str("sessionId"), JsonValue::Str(u.clone())));
        proof {
            g = g.push(("sessionId"@, JsonModel::Str(tv.session_id->0)));
        }
    }
    proof {
        assert(jm_of_fields(fields@) == g);
    }
    if let Some(u) = &t.status {
        fields.push((String::from_str("status"), JsonValue::Str(u.clone())));
        proof {
            g = g.push(("status"@, JsonModel::Str(tv.status->0)));
        }
    }
    proof {
        assert(jm_of_fields(fields@) == g);
    }
    if let Some(u) = &t.title {
        fields.push((String::from_str("title"), JsonValue::Str(u.clone())));
        proof {
            g = g.push(("title"@, JsonModel::Str(tv.title->0)));
        }
    }
    proof {
        assert(jm_of_fields(fields@) == g);
    }
    proof {
        assert(g =~= g0 + spec_tab_fields_e(tv));
    }
}

/// Appends the sixth group of a tab's serialized members.
#[verifier::spinoff_prover]
#[verifier::rlimit(60)]
fn tab_push_f(t: &Tab, fields: &mut Vec<(String, JsonValue)>)
    ensures
        jm_of_fields(final(fields)@) == jm_of_fields(old(fields)@) + spec_tab_fields_f(
            t.deep_view(),
        ),
{
    let ghost tv = t.deep_view();
    let ghost mut g = jm_of_fields(fields@);
    let ghost g0 = g;
    if let Some(u) = &t.url {
        fields.push((String::from_str("url"), JsonValue::Str(u.clone())));
        proof {
            g = g.push(("url"@, JsonModel::Str(tv.url->0)));
        }
    }
    proof {
        assert(jm_of_fields(fields@) == g);
    }
    if let Some(v) = t.width {
        fields.push((String::from_str("width"), JsonValue::Int(v)));
        proof {
            g = g.push(("width"@, JsonModel::Int(tv.width->0 as int)));
        }
    }
    proof {
        assert(jm_of_fields(fields@) == g);
    }
    if t.window_id != 0 {
        fields.push((String::from_str("windowId"), JsonValue::Int(t.window_id)));
        proof {
            g = g.push(("windowId"@, JsonModel::Int(tv.window_id as int)));
        }
    }
    proof {
        assert(jm_of_fields(fields@) == g);
    }
    proof {
        assert(g =~= g0 + spec_tab_fields_f(tv));
    }
}

impl Tab {
    /// A tab with every optional attribute absent and every defaulted
    /// attribute at its zero value.
    pub fn new() -> (t: Tab)
        ensures
            t.deep_view() == spec_tab_default(),
    {
        Tab {
            active: false,
            audible: None,
            auto_discardable: false,
            discarded: false,
            fav_icon_url: None,
            group_id: 0,
            height: None,
            highlighted: false,
            id: None,
            incognito: false,
            index: 0,
            muted_info: None,
            opener_tab_id: None,
            pending_url: None,
            pinned: false,
            selected: false,
            session_id: None,
            status: None,
            title: None,
            url: None,
            width: None,
            window_id: 0,
        }
    }

    /// Serializes this tab as an interchange JSON object.
    pub fn to_json(&self) -> (j: JsonValue)
        ensures
            j@ == spec_tab_json(self.deep_view()),
    {
        let mut fields: Vec<(String, JsonValue)> = Vec::new();
        proof {
            assert(jm_of_fields(fields@) =~= Seq::empty());
        }
        tab_push_a(self, &mut fields);
        tab_push_b(self, &mut fields);
        tab_push_c(self, &mut fields);
        tab_push_d(self, &mut fields);
        tab_push_e(self, &mut fields);
        tab_push_f(self, &mut fields);
        proof {
            assert(jm_of_fields(fields@) =~= spec_tab_fields(self.deep_view()));
        }
        JsonValue::Obj(fields)
    }

    /// Parses an interchange JSON object as a `Tab`; unknown members
    /// are ignored, and a member of the wrong type is a malformed
    /// record naming the member.
    pub fn from_json(j: &JsonValue) -> (r: Result<Tab, Error>)
        ensures
            r is Ok <==> spec_tab_err(j@) is None,
            r is Ok ==> r->Ok_0.deep_view() == spec_tab_val(j@),
            r is Err ==> (r->Err_0 matches Error::MalformedRecord(k) && Some(k@) == spec_tab_err(
                j@,
            )),
    {
        match j {
            JsonValue::Obj(_) => {},
            _ => {
                return Err(Error::MalformedRecord(String::from_str("tab")));
            },
        }
        let active = match j.get_def_bool("active") {
            Ok(v) => v,
            Err(_) => {
                return Err(Error::MalformedRecord(String::from_str("active")));
            },
        };
        let audible = match j.get_opt_bool("audible") {
            Ok(v) => v,
            Err(_) => {
                return Err(Error::MalformedRecord(String::from_str("audible")));
            },
        };
        let auto_discardable = match j.get_def_bool("autoDiscardable") {
            Ok(v) => v,
            Err(_) => {
                return Err(Error::MalformedRecord(String::from_str("autoDiscardable")));
            },
        };
        let discarded = match j.get_def_bool("discarded") {
            Ok(v) => v,
            Err(_) => {
                return Err(Error::MalformedRecord(String::from_str("discarded")));
            },
        };
        let fav_icon_url = match j.get_opt_string("favIconUrl") {
            Ok(v) => v,
            Err(_) => {
                return Err(Error::MalformedRecord(String::from_str("favIconUrl")));
            },
        };
        let group_id = match j.get_def_i64("groupId") {
            Ok(v) => v,
            Err(_) => {
                return Err(Error::MalformedRecord(String::from_str("groupId")));
            },
        };
        let height = match j.get_opt_i64("height") {
            Ok(v) => v,
            Err(_) => {
                return Err(Error::MalformedRecord(String::from_str("height")));
            },
        };
        let highlighted = match j.get_def_bool("highlighted") {
            Ok(v) => v,
            Err(_) => {
                return Err(Error::MalformedRecord(String::from_str("highlighted")));
            },
        };
        let id = match j.get_opt_i64("id") {
            Ok(v) => v,
            Err(_) => {
                return Err(Error::MalformedRecord(String::from_str("id")));
            },
        };
        let incognito = match j.get_def_bool("incognito") {
            Ok(v) => v,
            Err(_) => {
                return Err(Error::MalformedRecord(String::from_str("incognito")));
            },
        };
        let index = match j.get_def_i64("index") {
            Ok(v) => v,
            Err(_) => {
                return Err(Error::MalformedRecord(String::from_str("index")));
            },
        };
        let muted_info = match j.member("mutedInfo") {
            Option::None => None,
            Option::Some(v) => match v {
                JsonValue::Null => None,
                _ => match MutedInfo::from_json(v) {
                    Ok(m) => Some(m),
                    Err(e) => {
                        return Err(e);
                    },
                },
            },
        };
        let opener_tab_id = match j.get_opt_i64("openerTabId") {
            Ok(v) => v,
            Err(_) => {
                return Err(Error::MalformedRecord(String::from_str("openerTabId")));
            },
        };
        let pending_url = match j.get_opt_string("pendingUrl") {
            Ok(v) => v,
            Err(_) => {
                return Err(Error::MalformedRecord(String::from_str("pendingUrl")));
            },
        };
        let pinned = match j.get_def_bool("pinned") {
            Ok(v) => v,
            Err(_) => {
                return Err(Error::MalformedRecord(String::from_str("pinned")));
            },
        };
        let selected = match j.get_def_bool("selected") {
            Ok(v) => v,
            Err(_) => {
                return Err(Error::MalformedRecord(String::from_str("selected")));
            },
        };
        let session_id = match j.get_opt_string("sessionId") {
            Ok(v) => v,
            Err(_) => {
                return Err(Error::MalformedRecord(String::from_str("sessionId")));
            },
        };
        let status = match j.get_opt_string("status") {
            Ok(v) => v,
            Err(_) => {
                return Err(Error::MalformedRecord(String::from_str("status")));
            },
        };
        let title = match j.get_opt_string("title") {
            Ok(v) => v,
            Err(_) => {
                return Err(Error::MalformedRecord(String::from_str("title")));
            },
        };
        let url = match j.get_opt_string("url") {
            Ok(v) => v,
            Err(_) => {
                return Err(Error::MalformedRecord(String::from_str("url")));
            },
        };
        let width = match j.get_opt_i64("width") {
            Ok(v) => v,
            Err(_) => {
                return Err(Error::MalformedRecord(String::from_str("width")));
            },
        };
        let window_id = match j.get_def_i64("windowId") {
            Ok(v) => v,
            Err(_) => {
                return Err(Error::MalformedRecord(String::from_str("windowId")));
            },
        };
        Ok(
            Tab {
                active,
                audible,
                auto_discardable,
                discarded,
                fav_icon_url,
                group_id,
                height,
                highlighted,
                id,
                incognito,
                index,
                muted_info,
                opener_tab_id,
                pending_url,
                pinned,
                selected,
                session_id,
                status,
                title,
                url,
                width,
                window_id,
            },
        )
    }
}

/// How zoom changes in a tab are handled and at what scope.
#[derive(Debug, Clone)]
pub struct ZoomSettings {
    /// The default zoom level of the tab.
    pub default_zoom_factor: Option<i64>,
    /// Which entity scales the page.
    pub mode: Option<String>,
    /// Whether zoom changes persist for the page's origin.
    pub scope: Option<String>,
}

/// The mathematical value of a `ZoomSettings`.
pub ghost struct ZoomSettingsView {
    pub default_zoom_factor: Option<i64>,
    pub mode: Option<Seq<char>>,
    pub scope: Option<Seq<char>>,
}

impl DeepView for ZoomSettings {
    type V = ZoomSettingsView;

    open spec fn deep_view(&self) -> ZoomSettingsView {
        ZoomSettingsView {
            default_zoom_factor: self.default_zoom_factor,
            mode: self.mode.deep_view(),
            scope: self.scope.deep_view(),
        }
    }
}

/// The members of a serialized `ZoomSettings`, each omitted when
/// absent.
pub open spec fn spec_zoom_settings_fields(z: ZoomSettingsView) -> Seq<(Seq<char>, JsonModel)> {
    let f = Seq::<(Seq<char>, JsonModel)>::empty();
    let f = if z.default_zoom_factor is Some {
        f.push(("defaultZoomFactor"@, JsonModel::Int(z.default_zoom_factor->0 as int)))
    } else {
        f
    };
    let f = if z.mode is Some {
        f.push(("mode"@, JsonModel::Str(z.mode->0)))
    } else {
        f
    };
    let f = if z.scope is Some {
        f.push(("scope"@, JsonModel::Str(z.scope->0)))
    } else {
        f
    };
    f
}

/// A serialized `ZoomSettings`.
pub open spec fn spec_zoom_settings_json(z: ZoomSettingsView) -> JsonModel {
    JsonModel::Obj(spec_zoom_settings_fields(z))
}

/// The first member of a JSON object that cannot be read as its
/// `ZoomSettings` field, if any.
pub open spec fn spec_zoom_settings_err(j: JsonModel) -> Option<Seq<char>> {
    if !(j is Obj) {
        Some("zoomSettings"@)
    } else if spec_opt_int(j, "defaultZoomFactor"@) is Err {
        Some("defaultZoomFactor"@)
    } else if spec_opt_str(j, "mode"@) is Err {
        Some("mode"@)
    } else if spec_opt_str(j, "scope"@) is Err {
        Some("scope"@)
    } else {
        None
    }
}

/// The `ZoomSettings` a JSON object denotes, when
/// `spec_zoom_settings_err` finds no fault.
pub open spec fn spec_zoom_settings_val(j: JsonModel) -> ZoomSettingsView {
    ZoomSettingsView {
        default_zoom_factor: match spec_opt_int(j, "defaultZoomFactor"@)->Ok_0 {
            Some(v) => Some(v as i64),
            None => None,
        },
        mode: spec_opt_str(j, "mode"@)->Ok_0,
        scope: spec_opt_str(j, "scope"@)->Ok_0,
    }
}

impl ZoomSettings {
    /// Serializes this record as an interchange JSON object.
    pub fn to_json(&self) -> (j: JsonValue)
        ensures
            j@ == spec_zoom_settings_json(self.deep_view()),
    {
        let mut fields: Vec<(String, JsonValue)> = Vec::new();
        if let Some(v) = self.default_zoom_factor {
            fields.push((String::from_str("defaultZoomFactor"), JsonValue::Int(v)));
        }
        if let Some(m) = &self.mode {
            fields.push((String::from_str("mode"), JsonValue::Str(m.clone())));
        }
        if let Some(sc) = &self.scope {
            fields.push((String::from_str("scope"), JsonValue::Str(sc.clone())));
        }
        proof {
            assert(jm_of_fields(Seq::<(String, JsonValue)>::empty()) =~= Seq::empty());
            assert(jm_of_fields(fields@) =~= spec_zoom_settings_fields(self.deep_view()));
        }
        JsonValue::Obj(fields)
    }

    /// Parses an interchange JSON object as a `ZoomSettings`.
    pub fn from_json(j: &JsonValue) -> (r: Result<ZoomSettings, Error>)
        ensures
            r is Ok <==> spec_zoom_settings_err(j@) is None,
            r is Ok ==> r->Ok_0.deep_view() == spec_zoom_settings_val(j@),
            r is Err ==> (r->Err_0 matches Error::MalformedRecord(k) && Some(k@)
                == spec_zoom_settings_err(j@)),
    {
        match j {
            JsonValue::Obj(_) => {},
            _ => {
                return Err(Error::MalformedRecord(String::from_str("zoomSettings")));
            },
        }
        let default_zoom_factor = match j.get_opt_i64("defaultZoomFactor") {
            Ok(v) => v,
            Err(_) => {
                return Err(Error::MalformedRecord(String::from_str("defaultZoomFactor")));
            },
        };
        let mode = match j.get_opt_string("mode") {
            Ok(v) => v,
            Err(_) => {
                return Err(Error::MalformedRecord(String::from_str("mode")));
            },
        };
        let scope = match j.get_opt_string("scope") {
            Ok(v) => v,
            Err(_) => {
                return Err(Error::MalformedRecord(String::from_str("scope")));
            },
        };
        Ok(ZoomSettings { default_zoom_factor, mode, scope })
    }
}

} // verus!
