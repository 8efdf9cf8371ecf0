//! The JSON document model used by the interchange format.
//!
//! `JsonValue` is the executable tree; `JsonModel` is its mathematical
//! counterpart, with `int`, `Seq<char>` and `Seq` in place of the
//! machine types. Contracts throughout the crate speak of `JsonModel`.
//! Numbers are integers only: every numeric field of the interchange
//! format is an integer, and a fractional number is rejected as
//! malformed, as the rest of the engine would reject it anyway.

use vstd::prelude::*;

verus! {

broadcast use vstd::seq::group_seq_axioms, vstd::std_specs::vec::group_vec_axioms;

/// The mathematical shape of a JSON document.
pub ghost enum JsonModel {
    Null,
    Bool(bool),
    Int(int),
    Str(Seq<char>),
    Arr(Seq<JsonModel>),
    Obj(Seq<(Seq<char>, JsonModel)>),
}

/// An executable JSON document.
#[derive(Debug)]
pub enum JsonValue {
    Null,
    Bool(bool),
    Int(i64),
    Str(String),
    Arr(Vec<JsonValue>),
    Obj(Vec<(String, JsonValue)>),
}

/// The mathematical value of an executable JSON tree.
pub open spec fn jm_of(v: JsonValue) -> JsonModel
    decreases v, 0int,
{
    match v {
        JsonValue::Null => JsonModel::Null,
        JsonValue::Bool(b) => JsonModel::Bool(b),
        JsonValue::Int(i) => JsonModel::Int(i as int),
        JsonValue::Str(s) => JsonModel::Str(s@),
        JsonValue::Arr(items) => JsonModel::Arr(jm_of_items(items@)),
        JsonValue::Obj(fields) => JsonModel::Obj(jm_of_fields(fields@)),
    }
}

/// The mathematical values of a sequence of executable JSON trees.
pub open spec fn jm_of_items(items: Seq<JsonValue>) -> Seq<JsonModel>
    decreases items, 1int,
{
    if items.len() == 0 {
        Seq::empty()
    } else {
        seq![jm_of(items[0])] + jm_of_items(items.drop_first())
    }
}

/// The mathematical values of a sequence of executable JSON members.
pub open spec fn jm_of_fields(fields: Seq<(String, JsonValue)>) -> Seq<(Seq<char>, JsonModel)>
    decreases fields, 1int,
{
    if fields.len() == 0 {
        Seq::empty()
    } else {
        seq![(fields[0].0@, jm_of(fields[0].1))] + jm_of_fields(fields.drop_first())
    }
}

/// `jm_of_items` maps the sequence elementwise.
pub proof fn lemma_jm_of_items(items: Seq<JsonValue>)
    ensures
        jm_of_items(items).len() == items.len(),
        forall|i: int| 0 <= i < items.len() ==> jm_of_items(items)[i] == jm_of(items[i]),
    decreases items.len(),
{
    if items.len() > 0 {
        lemma_jm_of_items(items.drop_first());
        assert forall|i: int| 0 <= i < items.len() implies jm_of_items(items)[i] == jm_of(
            items[i],
        ) by {
            if i > 0 {
                assert(jm_of_items(items.drop_first())[i - 1] == jm_of(items.drop_first()[i - 1]));
            }
        }
    }
}

/// `jm_of_fields` maps the sequence elementwise.
pub proof fn lemma_jm_of_fields(fields: Seq<(String, JsonValue)>)
    ensures
        jm_of_fields(fields).len() == fields.len(),
        forall|i: int|
            0 <= i < fields.len() ==> jm_of_fields(fields)[i] == (
                fields[i].0@,
                jm_of(fields[i].1),
            ),
    decreases fields.len(),
{
    if fields.len() > 0 {
        lemma_jm_of_fields(fields.drop_first());
        assert forall|i: int|
            0 <= i < fields.len() implies jm_of_fields(fields)[i] == (
            fields[i].0@,
            jm_of(fields[i].1),
        ) by {
            if i > 0 {
                assert(jm_of_fields(fields.drop_first())[i - 1] == (
                    fields.drop_first()[i - 1].0@,
                    jm_of(fields.drop_first()[i - 1].1),
                ));
            }
        }
    }
}

impl View for JsonValue {
    type V = JsonModel;

    open spec fn view(&self) -> JsonModel {
        jm_of(*self)
    }
}

/// The value of the first member named `key`, if any: members are
/// searched front to back, so a duplicate key never shadows an
/// earlier one.
pub open spec fn obj_get(fields: Seq<(Seq<char>, JsonModel)>, key: Seq<char>) -> Option<JsonModel>
    decreases fields.len(),
{
    if fields.len() == 0 {
        None
    } else if fields[0].0 == key {
        Some(fields[0].1)
    } else {
        obj_get(fields.drop_first(), key)
    }
}

/// Reading a member of a JSON object; `None` when the value is not an
/// object or has no member of that name.
pub open spec fn spec_member(j: JsonModel, key: Seq<char>) -> Option<JsonModel> {
    match j {
        JsonModel::Obj(fields) => obj_get(fields, key),
        _ => None,
    }
}

impl JsonValue {
    /// Looks up the first member named `key` of a JSON object.
    pub fn member(&self, key: &str) -> (r: Option<&JsonValue>)
        ensures
            match r {
                Some(v) => spec_member(self@, key@) == Some(v@),
                None => spec_member(self@, key@) is None,
            },
    {
        match self {
            JsonValue::Obj(fields) => {
                let key_string = String::from_str(key);
                let n = fields.len();
                let mut i: usize = 0;
                while i < n
                    invariant
                        n == fields.len(),
                        i <= n,
                        key_string@ == key@,
                        forall|k: int| 0 <= k < i ==> fields[k].0@ != key@,
                        self matches JsonValue::Obj(f) && f == *fields,
                    decreases n - i,
                {
                    if fields[i].0.eq(&key_string) {
                        proof {
                            lemma_jm_of_fields(fields@);
                            lemma_obj_get_first(jm_of_fields(fields@), key@, i as int);
                        }
                        return Some(&fields[i].1);
                    }
                    i += 1;
                }
                proof {
                    lemma_jm_of_fields(fields@);
                    lemma_obj_get_absent(jm_of_fields(fields@), key@);
                }
                None
            },
            _ => None,
        }
    }
}

/// A boolean member that defaults to false when absent; present with
/// another type, it is an error.
pub open spec fn spec_def_bool(j: JsonModel, key: Seq<char>) -> Result<bool, ()> {
    match spec_member(j, key) {
        Option::None => Ok(false),
        Option::Some(m) => match m {
            JsonModel::Bool(b) => Ok(b),
            _ => Err(()),
        },
    }
}

/// An optional boolean member; absent or null means none.
pub open spec fn spec_opt_bool(j: JsonModel, key: Seq<char>) -> Result<Option<bool>, ()> {
    match spec_member(j, key) {
        Option::None => Ok(None),
        Option::Some(m) => match m {
            JsonModel::Bool(b) => Ok(Some(b)),
            JsonModel::Null => Ok(None),
            _ => Err(()),
        },
    }
}

/// An integer member that defaults to zero when absent.
pub open spec fn spec_def_int(j: JsonModel, key: Seq<char>) -> Result<int, ()> {
    match spec_member(j, key) {
        Option::None => Ok(0),
        Option::Some(m) => match m {
            JsonModel::Int(i) => Ok(i),
            _ => Err(()),
        },
    }
}

/// An optional integer member; absent or null means none.
pub open spec fn spec_opt_int(j: JsonModel, key: Seq<char>) -> Result<Option<int>, ()> {
    match spec_member(j, key) {
        Option::None => Ok(None),
        Option::Some(m) => match m {
            JsonModel::Int(i) => Ok(Some(i)),
            JsonModel::Null => Ok(None),
            _ => Err(()),
        },
    }
}

/// A string member that defaults to the empty string when absent.
pub open spec fn spec_def_str(j: JsonModel, key: Seq<char>) -> Result<Seq<char>, ()> {
    match spec_member(j, key) {
        Option::None => Ok(Seq::empty()),
        Option::Some(m) => match m {
            JsonModel::Str(s) => Ok(s),
            _ => Err(()),
        },
    }
}

/// A required string member.
pub open spec fn spec_req_str(j: JsonModel, key: Seq<char>) -> Result<Seq<char>, ()> {
    match spec_member(j, key) {
        Option::None => Err(()),
        Option::Some(m) => match m {
            JsonModel::Str(s) => Ok(s),
            _ => Err(()),
        },
    }
}

/// An optional string member; absent or null means none.
pub open spec fn spec_opt_str(j: JsonModel, key: Seq<char>) -> Result<Option<Seq<char>>, ()> {
    match spec_member(j, key) {
        Option::None => Ok(None),
        Option::Some(m) => match m {
            JsonModel::Str(s) => Ok(Some(s)),
            JsonModel::Null => Ok(None),
            _ => Err(()),
        },
    }
}

/// A required boolean member.
pub open spec fn spec_req_bool(j: JsonModel, key: Seq<char>) -> Result<bool, ()> {
    match spec_member(j, key) {
        Option::None => Err(()),
        Option::Some(m) => match m {
            JsonModel::Bool(b) => Ok(b),
            _ => Err(()),
        },
    }
}

impl JsonValue {
    /// Reads a boolean member, false when absent.
    pub fn get_def_bool(&self, key: &str) -> (r: Result<bool, ()>)
        ensures
            r == spec_def_bool(self@, key@),
    {
        match self.member(key) {
            Option::None => Ok(false),
            Option::Some(v) => match v {
                JsonValue::Bool(b) => Ok(*b),
                _ => Err(()),
            },
        }
    }

    /// Reads an optional boolean member.
    pub fn get_opt_bool(&self, key: &str) -> (r: Result<Option<bool>, ()>)
        ensures
            r == spec_opt_bool(self@, key@),
    {
        match self.member(key) {
            Option::None => Ok(None),
            Option::Some(v) => match v {
                JsonValue::Bool(b) => Ok(Some(*b)),
                JsonValue::Null => Ok(None),
                _ => Err(()),
            },
        }
    }

    /// Reads a required boolean member.
    pub fn get_req_bool(&self, key: &str) -> (r: Result<bool, ()>)
        ensures
            r == spec_req_bool(self@, key@),
    {
        match self.member(key) {
            Option::None => Err(()),
            Option::Some(v) => match v {
                JsonValue::Bool(b) => Ok(*b),
                _ => Err(()),
            },
        }
    }

    /// Reads an integer member, zero when absent.
    pub fn get_def_i64(&self, key: &str) -> (r: Result<i64, ()>)
        ensures
            match r {
                Ok(v) => spec_def_int(self@, key@) == Result::<int, ()>::Ok(v as int),
                Err(_) => spec_def_int(self@, key@) is Err,
            },
    {
        match self.member(key) {
            Option::None => Ok(0),
            Option::Some(v) => match v {
                JsonValue::Int(i) => Ok(*i),
                _ => Err(()),
            },
        }
    }

    /// Reads an optional integer member.
    pub fn get_opt_i64(&self, key: &str) -> (r: Result<Option<i64>, ()>)
        ensures
            match r {
                Ok(Some(v)) => spec_opt_int(self@, key@) == Result::<Option<int>, ()>::Ok(
                    Some(v as int),
                ),
                Ok(None) => spec_opt_int(self@, key@) == Result::<Option<int>, ()>::Ok(None),
                Err(_) => spec_opt_int(self@, key@) is Err,
            },
    {
        match self.member(key) {
            Option::None => Ok(None),
            Option::Some(v) => match v {
                JsonValue::Int(i) => Ok(Some(*i)),
                JsonValue::Null => Ok(None),
                _ => Err(()),
            },
        }
    }

    /// Reads a string member, empty when absent.
    pub fn get_def_string(&self, key: &str) -> (r: Result<String, ()>)
        ensures
            match r {
                Ok(s) => spec_def_str(self@, key@) == Result::<Seq<char>, ()>::Ok(s@),
                Err(_) => spec_def_str(self@, key@) is Err,
            },
    {
        match self.member(key) {
            Option::None => Ok(String::new()),
            Option::Some(v) => match v {
                JsonValue::Str(s) => Ok(s.clone()),
                _ => Err(()),
            },
        }
    }

    /// Reads a required string member.
    pub fn get_req_string(&self, key: &str) -> (r: Result<String, ()>)
        ensures
            match r {
                Ok(s) => spec_req_str(self@, key@) == Result::<Seq<char>, ()>::Ok(s@),
                Err(_) => spec_req_str(self@, key@) is Err,
            },
    {
        match self.member(key) {
            Option::None => Err(()),
            Option::Some(v) => match v {
                JsonValue::Str(s) => Ok(s.clone()),
                _ => Err(()),
            },
        }
    }

    /// Reads an optional string member.
    pub fn get_opt_string(&self, key: &str) -> (r: Result<Option<String>, ()>)
        ensures
            match r {
                Ok(Some(s)) => spec_opt_str(self@, key@) == Result::<Option<Seq<char>>, ()>::Ok(
                    Some(s@),
                ),
                Ok(None) => spec_opt_str(self@, key@) == Result::<Option<Seq<char>>, ()>::Ok(None),
                Err(_) => spec_opt_str(self@, key@) is Err,
            },
    {
        match self.member(key) {
            Option::None => Ok(None),
            Option::Some(v) => match v {
                JsonValue::Str(s) => Ok(Some(s.clone())),
                JsonValue::Null => Ok(None),
                _ => Err(()),
            },
        }
    }
}

/// `jm_of_items` of a sequence extended by one element.
pub broadcast proof fn lemma_jm_of_items_push(items: Seq<JsonValue>, v: JsonValue)
    ensures
        #[trigger] jm_of_items(items.push(v)) == jm_of_items(items).push(jm_of(v)),
    decreases items.len(),
{
    if items.len() == 0 {
        assert(items.push(v).drop_first() =~= Seq::<JsonValue>::empty());
        assert(items.push(v)[0] == v);
        assert(jm_of_items(items.push(v)) == seq![jm_of(items.push(v)[0])] + jm_of_items(
            items.push(v).drop_first(),
        ));
        assert(jm_of_items(items) =~= Seq::empty());
        assert(jm_of_items(items.push(v).drop_first()) =~= Seq::empty());
        assert(jm_of_items(items.push(v)) =~= jm_of_items(items).push(jm_of(v)));
    } else {
        lemma_jm_of_items_push(items.drop_first(), v);
        assert(items.push(v).drop_first() =~= items.drop_first().push(v));
        assert(items.push(v)[0] == items[0]);
        assert(jm_of_items(items.push(v)) == seq![jm_of(items[0])] + jm_of_items(
            items.drop_first().push(v),
        ));
        assert(seq![jm_of(items[0])] + jm_of_items(items.drop_first()).push(jm_of(v)) =~= (
        seq![jm_of(items[0])] + jm_of_items(items.drop_first())).push(jm_of(v)));
        assert(jm_of_items(items) == seq![jm_of(items[0])] + jm_of_items(items.drop_first()));
        assert(jm_of_items(items.push(v)) =~= jm_of_items(items).push(jm_of(v)));
    }
}

/// `jm_of_fields` of a sequence extended by one member.
pub broadcast proof fn lemma_jm_of_fields_push(fields: Seq<(String, JsonValue)>, p: (String, JsonValue))
    ensures
        #[trigger] jm_of_fields(fields.push(p)) == jm_of_fields(fields).push((p.0@, jm_of(p.1))),
    decreases fields.len(),
{
    if fields.len() == 0 {
        assert(fields.push(p).drop_first() =~= Seq::<(String, JsonValue)>::empty());
        assert(fields.push(p)[0] == p);
        assert(jm_of_fields(fields.push(p)) == seq![(fields.push(p)[0].0@, jm_of(
            fields.push(p)[0].1,
        ))] + jm_of_fields(fields.push(p).drop_first()));
        assert(jm_of_fields(fields) =~= Seq::empty());
        assert(jm_of_fields(fields.push(p).drop_first()) =~= Seq::empty());
        assert(jm_of_fields(fields.push(p)) =~= jm_of_fields(fields).push((p.0@, jm_of(p.1))));
    } else {
        lemma_jm_of_fields_push(fields.drop_first(), p);
        assert(fields.push(p).drop_first() =~= fields.drop_first().push(p));
        assert(fields.push(p)[0] == fields[0]);
        assert(jm_of_fields(fields.push(p)) == seq![(fields[0].0@, jm_of(fields[0].1))]
            + jm_of_fields(fields.drop_first().push(p)));
        assert(seq![(fields[0].0@, jm_of(fields[0].1))] + jm_of_fields(fields.drop_first()).push(
            (p.0@, jm_of(p.1)),
        ) =~= (seq![(fields[0].0@, jm_of(fields[0].1))] + jm_of_fields(fields.drop_first())).push(
            (p.0@, jm_of(p.1)),
        ));
        assert(jm_of_fields(fields) == seq![(fields[0].0@, jm_of(fields[0].1))] + jm_of_fields(
            fields.drop_first(),
        ));
        assert(jm_of_fields(fields.push(p)) =~= jm_of_fields(fields).push((p.0@, jm_of(p.1))));
    }
}

/// When the first `i` member names all differ from `key` and member `i`
/// is named `key`, the lookup lands on member `i`.
proof fn lemma_obj_get_first(fields: Seq<(Seq<char>, JsonModel)>, key: Seq<char>, i: int)
    requires
        0 <= i < fields.len(),
        forall|k: int| 0 <= k < i ==> fields[k].0 != key,
        fields[i].0 == key,
    ensures
        obj_get(fields, key) == Some(fields[i].1),
    decreases i,
{
    if i > 0 {
        lemma_obj_get_first(fields.drop_first(), key, i - 1);
    }
}

/// When no member is named `key`, the lookup misses.
proof fn lemma_obj_get_absent(fields: Seq<(Seq<char>, JsonModel)>, key: Seq<char>)
    requires
        forall|k: int| 0 <= k < fields.len() ==> fields[k].0 != key,
    ensures
        obj_get(fields, key) is None,
    decreases fields.len(),
{
    if fields.len() > 0 {
        lemma_obj_get_absent(fields.drop_first(), key);
    }
}

} // verus!
