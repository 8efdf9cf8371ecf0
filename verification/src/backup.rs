//! The interchange envelope: assembling it from a store's rows and
//! settings, serializing it, parsing it back, and planning an import.

use vstd::prelude::*;

use crate::error::Error;
use crate::host::{generate_gid, host_language, host_platform_kind, host_platform_name,
    is_gid_char, language_tag, now_rfc3339, platform_label, user_agent_for};
use crate::json::{jm_of, jm_of_fields, jm_of_items, lemma_jm_of_fields_push, lemma_jm_of_items,
    spec_member, spec_req_bool, spec_req_str, JsonModel, JsonValue};
use crate::json_parse::sp_doc;
use crate::json_text::jtext;
use crate::session::{spec_session_json, spec_session_parse, spec_tab_total, spec_to_interchange,
    spec_to_storage, SavedSession, SavedSessionView, Session, SessionParse, SessionView};
use crate::timestamp::is_rfc3339;

verus! {

broadcast use
    vstd::seq::group_seq_axioms,
    vstd::std_specs::vec::group_vec_axioms,
    lemma_jm_of_fields_push,
;

/// The interchange envelope: installation metadata and the sessions
/// of one store. It lives only for the duration of an export or an
/// import; nothing persists it but the JSON document itself.
#[derive(Debug)]
pub struct Backup {
    /// The fixed format identifier of the interchange document.
    pub format: String,
    /// When the envelope was assembled, as RFC 3339 text.
    pub created: String,
    /// Which sessions the export covers; always all of them.
    pub session_scope: String,
    /// Whether sessions are included; always true for a full export.
    pub include_session: bool,
    /// Whether windows are included; always true for a full export.
    pub include_window: bool,
    /// The host platform's name.
    pub platform: String,
    /// The host UI language tag.
    pub language: String,
    /// The synthesized browser user-agent text.
    pub ua: String,
    /// The extension id of the interchange format's origin.
    pub sb_id: String,
    /// The extension version of the interchange format's origin.
    pub sb_version: String,
    /// The installation id read from the store's settings.
    pub sb_installation_id: String,
    /// The installation timestamp read from the store's settings.
    pub sb_installed: String,
    /// The sessions of the store, in order.
    pub sessions: Vec<Session>,
}

/// The mathematical value of a `Backup`.
pub ghost struct BackupView {
    pub format: Seq<char>,
    pub created: Seq<char>,
    pub session_scope: Seq<char>,
    pub include_session: bool,
    pub include_window: bool,
    pub platform: Seq<char>,
    pub language: Seq<char>,
    pub ua: Seq<char>,
    pub sb_id: Seq<char>,
    pub sb_version: Seq<char>,
    pub sb_installation_id: Seq<char>,
    pub sb_installed: Seq<char>,
    pub sessions: Seq<SessionView>,
}

impl DeepView for Backup {
    type V = BackupView;

    open spec fn deep_view(&self) -> BackupView {
        BackupView {
            format: self.format@,
            created: self.created@,
            session_scope: self.session_scope@,
            include_session: self.include_session,
            include_window: self.include_window,
            platform: self.platform@,
            language: self.language@,
            ua: self.ua@,
            sb_id: self.sb_id@,
            sb_version: self.sb_version@,
            sb_installation_id: self.sb_installation_id@,
            sb_installed: self.sb_installed@,
            sessions: self.sessions.deep_view(),
        }
    }
}

/// The serialized forms of a list of sessions, from session `i` on.
pub open spec fn spec_sessions_json(vs: Seq<SessionView>, i: int) -> Seq<JsonModel>
    decreases vs.len() - i,
{
    if i < 0 || i >= vs.len() {
        Seq::empty()
    } else {
        seq![spec_session_json(vs[i])] + spec_sessions_json(vs, i + 1)
    }
}

/// Serializes a list of sessions as JSON values.
fn sessions_to_json(sessions: &Vec<Session>) -> (items: Vec<JsonValue>)
    ensures
        jm_of_items(items@) == spec_sessions_json(sessions.deep_view(), 0),
{
    let ghost sv = sessions.deep_view();
    let mut items: Vec<JsonValue> = Vec::new();
    proof {
        assert(jm_of_items(items@) =~= Seq::empty());
    }
    let n = sessions.len();
    let mut i: usize = 0;
    while i < n
        invariant
            n == sessions@.len(),
            i <= n,
            sv == sessions.deep_view(),
            spec_sessions_json(sv, 0) == jm_of_items(items@) + spec_sessions_json(sv, i as int),
        decreases n - i,
    {
        let sj = sessions[i].to_json();
        let ghost prev = items@;
        items.push(sj);
        proof {
            broadcast use crate::json::lemma_jm_of_items_push;

            assert(sv[i as int] == sessions@[i as int].deep_view());
            assert(jm_of_items(items@) == jm_of_items(prev).push(jm_of(sj)));
            assert(jm_of_items(prev) + spec_sessions_json(sv, i as int) =~= jm_of_items(items@)
                + spec_sessions_json(sv, i as int + 1));
        }
        i += 1;
    }
    proof {
        assert(spec_sessions_json(sv, n as int) =~= Seq::<JsonModel>::empty());
        assert(jm_of_items(items@) =~= spec_sessions_json(sv, 0));
    }
    items
}

/// The members of a serialized `Backup`, in order; every member is
/// always emitted.
pub open spec fn spec_backup_fields(b: BackupView) -> Seq<(Seq<char>, JsonModel)> {
    let f = Seq::<(Seq<char>, JsonModel)>::empty();
    let f = f.push(("format"@, JsonModel::Str(b.format)));
    let f = f.push(("created"@, JsonModel::Str(b.created)));
    let f = f.push(("sessionScope"@, JsonModel::Str(b.session_scope)));
    let f = f.push(("includeSession"@, JsonModel::Bool(b.include_session)));
    let f = f.push(("includeWindow"@, JsonModel::Bool(b.include_window)));
    let f = f.push(("platform"@, JsonModel::Str(b.platform)));
    let f = f.push(("language"@, JsonModel::Str(b.language)));
    let f = f.push(("ua"@, JsonModel::Str(b.ua)));
    let f = f.push(("sbId"@, JsonModel::Str(b.sb_id)));
    let f = f.push(("sbVersion"@, JsonModel::Str(b.sb_version)));
    let f = f.push(("sbInstallationId"@, JsonModel::Str(b.sb_installation_id)));
    let f = f.push(("sbInstalled"@, JsonModel::Str(b.sb_installed)));
    let f = f.push(("sessions"@, JsonModel::Arr(spec_sessions_json(b.sessions, 0))));
    f
}

/// A serialized `Backup`.
pub open spec fn spec_backup_json(b: BackupView) -> JsonModel {
    JsonModel::Obj(spec_backup_fields(b))
}

/// What reading a list of JSON values as sessions comes to: the
/// sessions they denote, an unknown type tag, or the first malformed
/// member.
pub ghost enum SessionsParse {
    Values(Seq<SessionView>),
    Unknown(Seq<char>),
    Malformed(Seq<char>),
}

/// Reading a list of JSON values as sessions, from value `i` on; the
/// first faulty value decides.
pub open spec fn spec_sessions_parse(items: Seq<JsonModel>, i: int) -> SessionsParse
    decreases items.len() - i,
{
    if i < 0 || i >= items.len() {
        SessionsParse::Values(Seq::empty())
    } else {
        match spec_session_parse(items[i]) {
            SessionParse::Malformed(k) => SessionsParse::Malformed(k),
            SessionParse::Unknown(t) => SessionsParse::Unknown(t),
            SessionParse::Value(v) => match spec_sessions_parse(items, i + 1) {
                SessionsParse::Values(rest) => SessionsParse::Values(seq![v] + rest),
                e => e,
            },
        }
    }
}

/// Parses a list of JSON values as sessions; the first faulty value
/// aborts the list.
fn sessions_from_json(items: &Vec<JsonValue>) -> (r: Result<Vec<Session>, Error>)
    ensures
        match spec_sessions_parse(jm_of_items(items@), 0) {
            SessionsParse::Values(vs) => r is Ok && r->Ok_0.deep_view() == vs,
            SessionsParse::Unknown(t) => r matches Err(Error::UnknownSessionType(u)) && u@ == t,
            SessionsParse::Malformed(k) => r matches Err(Error::MalformedRecord(k2)) && k2@ == k,
        },
{
    let ghost m = jm_of_items(items@);
    let mut acc: Vec<Session> = Vec::new();
    proof {
        lemma_jm_of_items(items@);
        assert(acc.deep_view() =~= Seq::<SessionView>::empty());
    }
    let n = items.len();
    let mut i: usize = 0;
    while i < n
        invariant
            n == items@.len(),
            i <= n,
            m == jm_of_items(items@),
            m.len() == n,
            forall|k: int| 0 <= k < n ==> m[k] == jm_of(items@[k]),
            spec_sessions_parse(m, 0) matches SessionsParse::Values(vs0) ==> spec_sessions_parse(
                m,
                i as int,
            ) matches SessionsParse::Values(vsi) && vs0 == acc.deep_view() + vsi,
            !(spec_sessions_parse(m, 0) matches SessionsParse::Values(_))
                ==> spec_sessions_parse(m, 0) == spec_sessions_parse(m, i as int),
        decreases n - i,
    {
        match Session::from_json(&items[i]) {
            Ok(s) => {
                let ghost prev = acc.deep_view();
                acc.push(s);
                proof {
                    assert(acc.deep_view() =~= prev.push(s.deep_view()));
                    match spec_sessions_parse(m, i as int + 1) {
                        SessionsParse::Values(rest) => {
                            assert(prev + (seq![s.deep_view()] + rest) =~= acc.deep_view() + rest);
                        },
                        _ => {},
                    }
                }
            },
            Err(e) => {
                proof {
                    if spec_sessions_parse(m, 0) matches SessionsParse::Values(_) {
                        assert(spec_sessions_parse(m, i as int) matches SessionsParse::Values(_));
                        assert(false);
                    }
                }
                return Err(e);
            },
        }
        i += 1;
    }
    proof {
        if spec_sessions_parse(m, 0) matches SessionsParse::Values(vs0) {
            assert(spec_sessions_parse(m, n as int) matches SessionsParse::Values(e) && e
                =~= Seq::<SessionView>::empty());
            assert(acc.deep_view() + Seq::<SessionView>::empty() =~= acc.deep_view());
        } else {
            assert(spec_sessions_parse(m, n as int) == spec_sessions_parse(m, 0));
            assert(false);
        }
    }
    Ok(acc)
}

/// What reading a JSON document as a `Backup` comes to.
pub ghost enum BackupParse {
    Value(BackupView),
    Unknown(Seq<char>),
    Malformed(Seq<char>),
}

/// The first member of a JSON object that cannot be read as its
/// `Backup` field, if any; every member is required, and the two
/// timestamps must be RFC 3339 text.
pub open spec fn spec_backup_err(j: JsonModel) -> Option<Seq<char>> {
    if !(j is Obj) {
        Some("backup"@)
    } else if spec_req_str(j, "format"@) is Err {
        Some("format"@)
    } else if spec_req_str(j, "created"@) is Err {
        Some("created"@)
    } else if !is_rfc3339(spec_req_str(j, "created"@)->Ok_0) {
        Some("created"@)
    } else if spec_req_str(j, "sessionScope"@) is Err {
        Some("sessionScope"@)
    } else if spec_req_bool(j, "includeSession"@) is Err {
        Some("includeSession"@)
    } else if spec_req_bool(j, "includeWindow"@) is Err {
        Some("includeWindow"@)
    } else if spec_req_str(j, "platform"@) is Err {
        Some("platform"@)
    } else if spec_req_str(j, "language"@) is Err {
        Some("language"@)
    } else if spec_req_str(j, "ua"@) is Err {
        Some("ua"@)
    } else if spec_req_str(j, "sbId"@) is Err {
        Some("sbId"@)
    } else if spec_req_str(j, "sbVersion"@) is Err {
        Some("sbVersion"@)
    } else if spec_req_str(j, "sbInstallationId"@) is Err {
        Some("sbInstallationId"@)
    } else if spec_req_str(j, "sbInstalled"@) is Err {
        Some("sbInstalled"@)
    } else if !is_rfc3339(spec_req_str(j, "sbInstalled"@)->Ok_0) {
        Some("sbInstalled"@)
    } else {
        match spec_member(j, "sessions"@) {
            Option::None => Some("sessions"@),
            Option::Some(m) => match m {
                JsonModel::Arr(_) => None,
                _ => Some("sessions"@),
            },
        }
    }
}

/// Reading a JSON value as a `Backup`: the envelope members first,
/// then the sessions.
pub open spec fn spec_backup_parse(j: JsonModel) -> BackupParse {
    match spec_backup_err(j) {
        Option::Some(k) => BackupParse::Malformed(k),
        Option::None => {
            let items = spec_member(j, "sessions"@)->0->Arr_0;
            match spec_sessions_parse(items, 0) {
                SessionsParse::Malformed(k) => BackupParse::Malformed(k),
                SessionsParse::Unknown(t) => BackupParse::Unknown(t),
                SessionsParse::Values(vs) => BackupParse::Value(
                    BackupView {
                        format: spec_req_str(j, "format"@)->Ok_0,
                        created: spec_req_str(j, "created"@)->Ok_0,
                        session_scope: spec_req_str(j, "sessionScope"@)->Ok_0,
                        include_session: spec_req_bool(j, "includeSession"@)->Ok_0,
                        include_window: spec_req_bool(j, "includeWindow"@)->Ok_0,
                        platform: spec_req_str(j, "platform"@)->Ok_0,
                        language: spec_req_str(j, "language"@)->Ok_0,
                        ua: spec_req_str(j, "ua"@)->Ok_0,
                        sb_id: spec_req_str(j, "sbId"@)->Ok_0,
                        sb_version: spec_req_str(j, "sbVersion"@)->Ok_0,
                        sb_installation_id: spec_req_str(j, "sbInstallationId"@)->Ok_0,
                        sb_installed: spec_req_str(j, "sbInstalled"@)->Ok_0,
                        sessions: vs,
                    },
                ),
            }
        },
    }
}

impl Backup {
    /// Serializes this envelope as an interchange JSON object.
    pub fn to_json(&self) -> (j: JsonValue)
        ensures
            j@ == spec_backup_json(self.deep_view()),
    {
        let ghost bv = self.deep_view();
        let ghost mut g: Seq<(Seq<char>, JsonModel)> = Seq::empty();
        let mut fields: Vec<(String, JsonValue)> = Vec::new();
        proof {
            assert(jm_of_fields(fields@) == g);
        }
        fields.push((String::from_str("format"), JsonValue::Str(self.format.clone())));
        proof {
            g = g.push(("format"@, JsonModel::Str(bv.format)));
            assert(jm_of_fields(fields@) == g);
        }
        fields.push((String::from_str("created"), JsonValue::Str(self.created.clone())));
        proof {
            g = g.push(("created"@, JsonModel::Str(bv.created)));
            assert(jm_of_fields(fields@) == g);
        }
        fields.push(
            (String::from_str("sessionScope"), JsonValue::Str(self.session_scope.clone())),
        );
        proof {
            g = g.push(("sessionScope"@, JsonModel::Str(bv.session_scope)));
            assert(jm_of_fields(fields@) == g);
        }
        fields.push((String::from_str("includeSession"), JsonValue::Bool(self.include_session)));
        proof {
            g = g.push(("includeSession"@, JsonModel::Bool(bv.include_session)));
            assert(jm_of_fields(fields@) == g);
        }
        fields.push((String::from_str("includeWindow"), JsonValue::Bool(self.include_window)));
        proof {
            g = g.push(("includeWindow"@, JsonModel::Bool(bv.include_window)));
            assert(jm_of_fields(fields@) == g);
        }
        fields.push((String::from_str("platform"), JsonValue::Str(self.platform.clone())));
        proof {
            g = g.push(("platform"@, JsonModel::Str(bv.platform)));
            assert(jm_of_fields(fields@) == g);
        }
        fields.push((String::from_str("language"), JsonValue::Str(self.language.clone())));
        proof {
            g = g.push(("language"@, JsonModel::Str(bv.language)));
            assert(jm_of_fields(fields@) == g);
        }
        fields.push((String::from_str("ua"), JsonValue::Str(self.ua.clone())));
        proof {
            g = g.push(("ua"@, JsonModel::Str(bv.ua)));
            assert(jm_of_fields(fields@) == g);
        }
        fields.push((String::from_str("sbId"), JsonValue::Str(self.sb_id.clone())));
        proof {
            g = g.push(("sbId"@, JsonModel::Str(bv.sb_id)));
            assert(jm_of_fields(fields@) == g);
        }
        fields.push((String::from_str("sbVersion"), JsonValue::Str(self.sb_version.clone())));
        proof {
            g = g.push(("sbVersion"@, JsonModel::Str(bv.sb_version)));
            assert(jm_of_fields(fields@) == g);
        }
        fields.push(
            (
                String::from_str("sbInstallationId"),
                JsonValue::Str(self.sb_installation_id.clone()),
            ),
        );
        proof {
            g = g.push(("sbInstallationId"@, JsonModel::Str(bv.sb_installation_id)));
            assert(jm_of_fields(fields@) == g);
        }
        fields.push((String::from_str("sbInstalled"), JsonValue::Str(self.sb_installed.clone())));
        proof {
            g = g.push(("sbInstalled"@, JsonModel::Str(bv.sb_installed)));
            assert(jm_of_fields(fields@) == g);
        }
        let items = sessions_to_json(&self.sessions);
        fields.push((String::from_str("sessions"), JsonValue::Arr(items)));
        proof {
            g = g.push(("sessions"@, JsonModel::Arr(spec_sessions_json(bv.sessions, 0))));
            assert(jm_of_fields(fields@) == g);
            assert(g == spec_backup_fields(bv));
        }
        JsonValue::Obj(fields)
    }

    /// The interchange document of this envelope, as one line of JSON
    /// text without a byte-order mark.
    pub fn to_text(&self) -> (s: String)
        ensures
            s@ == jtext(spec_backup_json(self.deep_view())),
    {
        let j = self.to_json();
        j.to_text()
    }

    /// Parses an interchange JSON object as a `Backup`; every member
    /// is required, and a faulty one names itself.
    pub fn from_json(j: &JsonValue) -> (r: Result<Backup, Error>)
        ensures
            match spec_backup_parse(j@) {
                BackupParse::Value(v) => r is Ok && r->Ok_0.deep_view() == v,
                BackupParse::Unknown(t) => r matches Err(Error::UnknownSessionType(u)) && u@ == t,
                BackupParse::Malformed(k) => r matches Err(Error::MalformedRecord(k2)) && k2@ == k,
            },
    {
        match j {
            JsonValue::Obj(_) => {},
            _ => {
                return Err(Error::MalformedRecord(String::from_str("backup")));
            },
        }
        let format = match j.get_req_string("format") {
            Ok(v) => v,
            Err(_) => {
                return Err(Error::MalformedRecord(String::from_str("format")));
            },
        };
        let created = match j.get_req_string("created") {
            Ok(v) => v,
            Err(_) => {
                return Err(Error::MalformedRecord(String::from_str("created")));
            },
        };
        if !crate::timestamp::rfc3339_valid(created.as_str()) {
            return Err(Error::MalformedRecord(String::from_str("created")));
        }
        let session_scope = match j.get_req_string("sessionScope") {
            Ok(v) => v,
            Err(_) => {
                return Err(Error::MalformedRecord(String::from_str("sessionScope")));
            },
        };
        let include_session = match j.get_req_bool("includeSession") {
            Ok(v) => v,
            Err(_) => {
                return Err(Error::MalformedRecord(String::from_str("includeSession")));
            },
        };
        let include_window = match j.get_req_bool("includeWindow") {
            Ok(v) => v,
            Err(_) => {
                return Err(Error::MalformedRecord(String::from_str("includeWindow")));
            },
        };
        let platform = match j.get_req_string("platform") {
            Ok(v) => v,
            Err(_) => {
                return Err(Error::MalformedRecord(String::from_str("platform")));
            },
        };
        let language = match j.get_req_string("language") {
            Ok(v) => v,
            Err(_) => {
                return Err(Error::MalformedRecord(String::from_str("language")));
            },
        };
        let ua = match j.get_req_string("ua") {
            Ok(v) => v,
            Err(_) => {
                return Err(Error::MalformedRecord(String::from_str("ua")));
            },
        };
        let sb_id = match j.get_req_string("sbId") {
            Ok(v) => v,
            Err(_) => {
                return Err(Error::MalformedRecord(String::from_str("sbId")));
            },
        };
        let sb_version = match j.get_req_string("sbVersion") {
            Ok(v) => v,
            Err(_) => {
                return Err(Error::MalformedRecord(String::from_str("sbVersion")));
            },
        };
        let sb_installation_id = match j.get_req_string("sbInstallationId") {
            Ok(v) => v,
            Err(_) => {
                return Err(Error::MalformedRecord(String::from_str("sbInstallationId")));
            },
        };
        let sb_installed = match j.get_req_string("sbInstalled") {
            Ok(v) => v,
            Err(_) => {
                return Err(Error::MalformedRecord(String::from_str("sbInstalled")));
            },
        };
        if !crate::timestamp::rfc3339_valid(sb_installed.as_str()) {
            return Err(Error::MalformedRecord(String::from_str("sbInstalled")));
        }
        let sessions = match j.member("sessions") {
            Option::Some(v) => match v {
                JsonValue::Arr(items) => match sessions_from_json(items) {
                    Ok(vs) => vs,
                    Err(e) => {
                        return Err(e);
                    },
                },
                _ => {
                    return Err(Error::MalformedRecord(String::from_str("sessions")));
                },
            },
            Option::None => {
                return Err(Error::MalformedRecord(String::from_str("sessions")));
            },
        };
        Ok(
            Backup {
                format,
                created,
                session_scope,
                include_session,
                include_window,
                platform,
                language,
                ua,
                sb_id,
                sb_version,
                sb_installation_id,
                sb_installed,
                sessions,
            },
        )
    }

    /// Parses an interchange document as a `Backup`: at most one
    /// leading byte-order mark, then the envelope in full. Any parse
    /// failure is a failure of the whole document.
    pub fn parse_text(s: &str) -> (r: Result<Backup, Error>)
        ensures
            match sp_doc(s@) {
                Option::Some(j) => match spec_backup_parse(j) {
                    BackupParse::Value(v) => r is Ok && r->Ok_0.deep_view() == v,
                    BackupParse::Unknown(t) => r matches Err(Error::UnknownSessionType(u)) && u@
                        == t,
                    BackupParse::Malformed(k) => r matches Err(Error::MalformedRecord(k2)) && k2@
                        == k,
                },
                Option::None => r matches Err(Error::MalformedRecord(k)) && k@ == "json"@,
            },
    {
        let j = match JsonValue::parse_document(s) {
            Ok(j) => j,
            Err(e) => {
                return Err(e);
            },
        };
        Backup::from_json(&j)
    }
}

/// An exported document never begins with a byte-order mark: its
/// first character is the opening brace of the envelope object.
pub proof fn lemma_export_has_no_bom(b: BackupView)
    ensures
        jtext(spec_backup_json(b)).len() > 0,
        jtext(spec_backup_json(b))[0] == '{',
{
    assert(jtext(spec_backup_json(b))[0] == '{');
}

/// A gid as the export stamps it: 32 ASCII letters and digits.
pub open spec fn spec_valid_gid(g: Seq<char>) -> bool {
    g.len() == 32 && (forall|i: int| 0 <= i < 32 ==> is_gid_char(g[i]))
}

/// Whether an interchange session is an export of a stored session:
/// its conversion under some freshly stamped gid.
pub open spec fn spec_exported(s: SavedSessionView, v: SessionView) -> bool {
    exists|g: Seq<char>| #[trigger] spec_valid_gid(g) && v == spec_to_interchange(s, g)
}

impl Backup {
    /// Assembles the interchange envelope for one store: fixed format
    /// and origin literals, the installation metadata read from the
    /// store's settings, the host's platform, language and user-agent,
    /// the wall clock as the creation time, and every stored session
    /// in interchange form under a fresh gid. A host platform the
    /// engine does not recognize is a fatal error.
    pub fn assemble(installation_id: String, installed: String, rows: &Vec<SavedSession>) -> (r:
        Result<Backup, Error>)
        ensures
            r matches Err(e) ==> e == Error::UnsupportedPlatform,
            r matches Ok(b) ==> {
                let bv = b.deep_view();
                &&& bv.format == crate::SESSION_BUDDY_FORMAT@
                &&& is_rfc3339(bv.created)
                &&& bv.session_scope == "all"@
                &&& bv.include_session
                &&& bv.include_window
                &&& bv.sb_id == crate::SESSION_BUDDY_APPID@
                &&& bv.sb_version == crate::SESSION_BUDDY_VERSION@
                &&& bv.sb_installation_id == installation_id@
                &&& bv.sb_installed == installed@
                &&& bv.sessions.len() == rows.deep_view().len()
                &&& forall|i: int|
                    0 <= i < bv.sessions.len() ==> spec_exported(
                        rows.deep_view()[i],
                        #[trigger] bv.sessions[i],
                    )
            },
    {
        let kind = host_platform_kind();
        let ua = match user_agent_for(kind) {
            Ok(u) => u,
            Err(e) => {
                return Err(e);
            },
        };
        let platform = platform_label(kind, host_platform_name());
        let language = language_tag(host_language());
        let created = now_rfc3339();
        let ghost rv = rows.deep_view();
        let mut sessions: Vec<Session> = Vec::new();
        let n = rows.len();
        let mut i: usize = 0;
        while i < n
            invariant
                n == rows@.len(),
                i <= n,
                rv == rows.deep_view(),
                sessions.deep_view().len() == i,
                forall|k: int|
                    0 <= k < i ==> spec_exported(rv[k], #[trigger] sessions.deep_view()[k]),
            decreases n - i,
        {
            let gid = generate_gid();
            let ghost g = gid@;
            let s = rows[i].to_interchange(gid);
            let ghost prev = sessions.deep_view();
            sessions.push(s);
            proof {
                assert(sessions.deep_view() =~= prev.push(s.deep_view()));
                assert(rv[i as int] == rows@[i as int].deep_view());
                assert(spec_valid_gid(g));
                assert(spec_exported(rv[i as int], s.deep_view()));
            }
            i += 1;
        }
        Ok(
            Backup {
                format: String::from_str(crate::SESSION_BUDDY_FORMAT),
                created,
                session_scope: String::from_str("all"),
                include_session: true,
                include_window: true,
                platform,
                language,
                ua,
                sb_id: String::from_str(crate::SESSION_BUDDY_APPID),
                sb_version: String::from_str(crate::SESSION_BUDDY_VERSION),
                sb_installation_id: installation_id,
                sb_installed: installed,
                sessions,
            },
        )
    }
}

/// An import, planned: the rows to insert, the type tags of the
/// records skipped with a warning, and how many current sessions were
/// discarded silently.
#[derive(Debug)]
pub struct ImportPlan {
    /// The storage rows to insert, in input order.
    pub rows: Vec<SavedSession>,
    /// The type tags of the records skipped with a warning: every
    /// recognized tag other than saved or current, and every
    /// unrecognized tag.
    pub skipped: Vec<String>,
    /// How many sessions of type current were discarded.
    pub current_discarded: usize,
}

/// What planning an import over a list of session values comes to.
pub ghost enum ImportOutcome {
    Plan { rows: Seq<SavedSessionView>, skipped: Seq<Seq<char>>, current: int },
    Malformed(Seq<char>),
    Missing(Seq<char>),
}

/// Extends a planned import on the left with already-planned rows and
/// skips; a failure stays a failure.
pub open spec fn spec_plan_extend(
    rows: Seq<SavedSessionView>,
    skipped: Seq<Seq<char>>,
    current: int,
    rest: ImportOutcome,
) -> ImportOutcome {
    match rest {
        ImportOutcome::Plan { rows: r2, skipped: s2, current: c2 } => ImportOutcome::Plan {
            rows: rows + r2,
            skipped: skipped + s2,
            current: current + c2,
        },
        e => e,
    }
}

/// Plans an import over a list of session values, from value `i` on:
/// a saved session becomes a row, a current session is discarded, a
/// previous session or one of unknown type is skipped with its tag,
/// and a malformed record or a saved session without a modification
/// timestamp fails the rest of the list.
pub open spec fn spec_plan_items(items: Seq<JsonModel>, i: int) -> ImportOutcome
    decreases items.len() - i,
{
    if i < 0 || i >= items.len() {
        ImportOutcome::Plan { rows: Seq::empty(), skipped: Seq::empty(), current: 0 }
    } else {
        match spec_session_parse(items[i]) {
            SessionParse::Malformed(k) => ImportOutcome::Malformed(k),
            SessionParse::Unknown(t) => spec_plan_extend(
                Seq::empty(),
                seq![t],
                0,
                spec_plan_items(items, i + 1),
            ),
            SessionParse::Value(v) => match v {
                SessionView::Current(_) => spec_plan_extend(
                    Seq::empty(),
                    Seq::empty(),
                    1,
                    spec_plan_items(items, i + 1),
                ),
                SessionView::Previous(_) => spec_plan_extend(
                    Seq::empty(),
                    seq!["previous"@],
                    0,
                    spec_plan_items(items, i + 1),
                ),
                SessionView::Saved(rec) => {
                    if rec.modified is None {
                        ImportOutcome::Missing("modified"@)
                    } else if rec.windows.len() > i32::MAX {
                        ImportOutcome::Malformed("windows"@)
                    } else if spec_tab_total(rec.windows, 0) > i32::MAX {
                        ImportOutcome::Malformed("tabs"@)
                    } else {
                        spec_plan_extend(
                            seq![spec_to_storage(v)],
                            Seq::empty(),
                            0,
                            spec_plan_items(items, i + 1),
                        )
                    }
                },
            },
        }
    }
}

/// Plans an import over a whole interchange document: the document
/// must be JSON, a document without a sessions member contributes
/// nothing, and the sessions are planned in order.
pub open spec fn spec_plan_doc(s: Seq<char>) -> ImportOutcome {
    match sp_doc(s) {
        Option::None => ImportOutcome::Malformed("json"@),
        Option::Some(j) => match spec_member(j, "sessions"@) {
            Option::None => ImportOutcome::Plan {
                rows: Seq::empty(),
                skipped: Seq::empty(),
                current: 0,
            },
            Option::Some(m) => match m {
                JsonModel::Arr(items) => spec_plan_items(items, 0),
                _ => ImportOutcome::Malformed("sessions"@),
            },
        },
    }
}

/// Plans the import of one interchange document: each session of type
/// saved becomes a storage row with its counts recomputed, each
/// current session is discarded, and each session of any other type
/// is skipped, its tag kept for the caller to log. A record that is
/// malformed, or a saved session without a modification timestamp,
/// aborts the rest of the document.
#[verifier::loop_isolation(false)]
pub fn plan_import(s: &str) -> (r: Result<ImportPlan, Error>)
    ensures
        match spec_plan_doc(s@) {
            ImportOutcome::Plan { rows, skipped, current } => r matches Ok(p) && p.rows.deep_view()
                == rows && p.skipped.deep_view() == skipped && p.current_discarded == current,
            ImportOutcome::Malformed(k) => r matches Err(Error::MalformedRecord(k2)) && k2@ == k,
            ImportOutcome::Missing(k) => r matches Err(Error::MissingField(k2)) && k2@ == k,
        },
{
    let j = match JsonValue::parse_document(s) {
        Ok(j) => j,
        Err(e) => {
            return Err(e);
        },
    };
    let items = match j.member("sessions") {
        Option::None => {
            let p = ImportPlan { rows: Vec::new(), skipped: Vec::new(), current_discarded: 0 };
            proof {
                assert(p.rows.deep_view() =~= Seq::<SavedSessionView>::empty());
                assert(p.skipped.deep_view() =~= Seq::<Seq<char>>::empty());
            }
            return Ok(p);
        },
        Option::Some(v) => match v {
            JsonValue::Arr(items) => items,
            _ => {
                return Err(Error::MalformedRecord(String::from_str("sessions")));
            },
        },
    };
    let ghost m = jm_of_items(items@);
    let mut rows: Vec<SavedSession> = Vec::new();
    let mut skipped: Vec<String> = Vec::new();
    let mut current_discarded: usize = 0;
    proof {
        lemma_jm_of_items(items@);
        assert(rows.deep_view() =~= Seq::<SavedSessionView>::empty());
        assert(skipped.deep_view() =~= Seq::<Seq<char>>::empty());
    }
    let n = items.len();
    let mut i: usize = 0;
    while i < n
        invariant
            n == items@.len(),
            i <= n,
            m == jm_of_items(items@),
            m.len() == n,
            forall|k: int| 0 <= k < n ==> m[k] == jm_of(items@[k]),
            current_discarded <= i,
            spec_plan_items(m, 0) == spec_plan_extend(
                rows.deep_view(),
                skipped.deep_view(),
                current_discarded as int,
                spec_plan_items(m, i as int),
            ),
        decreases n - i,
    {
        let ghost r0 = rows.deep_view();
        let ghost s0 = skipped.deep_view();
        let ghost c0 = current_discarded as int;
        match Session::from_json(&items[i]) {
            Err(e) => {
                match e {
                    Error::UnknownSessionType(t) => {
                        let ghost tv = t@;
                        skipped.push(t);
                        proof {
                            assert(skipped.deep_view() =~= s0.push(tv));
                            assert(s0.push(tv) =~= s0 + seq![tv]);
                            lemma_plan_extend_assoc(
                                r0,
                                s0,
                                c0,
                                Seq::empty(),
                                seq![tv],
                                0,
                                spec_plan_items(m, i as int + 1),
                            );
                            assert(r0 + Seq::<SavedSessionView>::empty() =~= rows.deep_view());
                        }
                    },
                    _ => {
                        return Err(e);
                    },
                }
            },
            Ok(sess) => {
                match &sess {
                    Session::Current(_) => {
                        current_discarded += 1;
                        proof {
                            lemma_plan_extend_assoc(
                                r0,
                                s0,
                                c0,
                                Seq::empty(),
                                Seq::empty(),
                                1,
                                spec_plan_items(m, i as int + 1),
                            );
                            assert(r0 + Seq::<SavedSessionView>::empty() =~= rows.deep_view());
                            assert(s0 + Seq::<Seq<char>>::empty() =~= skipped.deep_view());
                        }
                    },
                    Session::Previous(_) => {
                        skipped.push(String::from_str("previous"));
                        proof {
                            assert(skipped.deep_view() =~= s0.push("previous"@));
                            assert(s0.push("previous"@) =~= s0 + seq!["previous"@]);
                            lemma_plan_extend_assoc(
                                r0,
                                s0,
                                c0,
                                Seq::empty(),
                                seq!["previous"@],
                                0,
                                spec_plan_items(m, i as int + 1),
                            );
                            assert(r0 + Seq::<SavedSessionView>::empty() =~= rows.deep_view());
                        }
                    },
                    Session::Saved(_) => {
                        match sess.to_storage() {
                            Ok(row) => {
                                rows.push(row);
                                proof {
                                    assert(rows.deep_view() =~= r0.push(row.deep_view()));
                                    assert(r0.push(row.deep_view()) =~= r0 + seq![
                                        row.deep_view(),
                                    ]);
                                    lemma_plan_extend_assoc(
                                        r0,
                                        s0,
                                        c0,
                                        seq![row.deep_view()],
                                        Seq::empty(),
                                        0,
                                        spec_plan_items(m, i as int + 1),
                                    );
                                    assert(s0 + Seq::<Seq<char>>::empty() =~= skipped.deep_view());
                                }
                            },
                            Err(e) => {
                                return Err(e);
                            },
                        }
                    },
                }
            },
        }
        i += 1;
    }
    proof {
        assert(spec_plan_items(m, n as int) == (ImportOutcome::Plan {
            rows: Seq::<SavedSessionView>::empty(),
            skipped: Seq::<Seq<char>>::empty(),
            current: 0int,
        }));
        assert(rows.deep_view() + Seq::<SavedSessionView>::empty() =~= rows.deep_view());
        assert(skipped.deep_view() + Seq::<Seq<char>>::empty() =~= skipped.deep_view());
    }
    Ok(ImportPlan { rows, skipped, current_discarded })
}

/// Composing two extensions of a planned import is one extension by
/// the concatenated rows and skips.
proof fn lemma_plan_extend_assoc(
    r1: Seq<SavedSessionView>,
    s1: Seq<Seq<char>>,
    c1: int,
    r2: Seq<SavedSessionView>,
    s2: Seq<Seq<char>>,
    c2: int,
    rest: ImportOutcome,
)
    ensures
        spec_plan_extend(r1, s1, c1, spec_plan_extend(r2, s2, c2, rest)) == spec_plan_extend(
            r1 + r2,
            s1 + s2,
            c1 + c2,
            rest,
        ),
{
    match rest {
        ImportOutcome::Plan { rows, skipped, current } => {
            assert(r1 + (r2 + rows) =~= (r1 + r2) + rows);
            assert(s1 + (s2 + skipped) =~= (s1 + s2) + skipped);
        },
        _ => {},
    }
}

/// The skipped tags of a planned import; empty when it failed.
pub open spec fn spec_skips_of(o: ImportOutcome) -> Seq<Seq<char>> {
    match o {
        ImportOutcome::Plan { skipped, .. } => skipped,
        _ => Seq::empty(),
    }
}

/// Checks an interchange document: it is valid exactly when it fully
/// parses as a `Backup`.
pub fn validate(s: &str) -> (r: Result<(), Error>)
    ensures
        r is Ok <==> (sp_doc(s@) matches Some(j) && spec_backup_parse(j) matches BackupParse::Value(
            _,
        )),
{
    match Backup::parse_text(s) {
        Ok(_) => Ok(()),
        Err(e) => Err(e),
    }
}

} // verus!
