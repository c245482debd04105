//! A plain-value model of JSON documents, filled by `serde_json`, and the lookups
//! that the error and manifest rules perform on them.

use vstd::prelude::*;

verus! {

/// A parsed JSON value. Numbers keep only their `i64` reading (`None` when the
/// number is fractional or out of the `i64` range).
pub enum Json {
    Null,
    Bool(bool),
    Number(Option<i64>),
    Str(String),
    Array(Vec<Json>),
    Object(Vec<(String, Json)>),
}

/// The mathematical view of a [`Json`] value.
pub enum JsonView {
    Null,
    Bool(bool),
    Number(Option<i64>),
    Str(Seq<char>),
    Array(Seq<JsonView>),
    Object(Seq<(Seq<char>, JsonView)>),
}

pub open spec fn json_view(j: Json) -> JsonView
    decreases j, 1nat,
{
    match j {
        Json::Null => JsonView::Null,
        Json::Bool(b) => JsonView::Bool(b),
        Json::Number(n) => JsonView::Number(n),
        Json::Str(s) => JsonView::Str(s@),
        Json::Array(v) => JsonView::Array(json_seq_view(v@)),
        Json::Object(v) => JsonView::Object(json_entries_view(v@)),
    }
}

pub open spec fn json_seq_view(s: Seq<Json>) -> Seq<JsonView>
    decreases s, 0nat,
{
    if s.len() == 0 {
        Seq::empty()
    } else {
        json_seq_view(s.subrange(0, s.len() - 1)).push(json_view(s[s.len() - 1]))
    }
}

pub open spec fn json_entries_view(s: Seq<(String, Json)>) -> Seq<(Seq<char>, JsonView)>
    decreases s, 0nat,
{
    if s.len() == 0 {
        Seq::empty()
    } else {
        json_entries_view(s.subrange(0, s.len() - 1)).push(
            (s[s.len() - 1].0@, json_view(s[s.len() - 1].1)),
        )
    }
}

} // verus!

verus! {

impl Json {
    pub open spec fn view(self) -> JsonView {
        json_view(self)
    }
}

/// Entry `i` of a viewed object is the view of entry `i` of the object.
pub proof fn lemma_entries_view_index(s: Seq<(String, Json)>)
    ensures
        json_entries_view(s).len() == s.len(),
        forall|i: int| 0 <= i < s.len() ==> #[trigger] json_entries_view(s)[i] == (s[i].0@, json_view(s[i].1)),
    decreases s.len(),
{
    if s.len() > 0 {
        let init = s.subrange(0, s.len() - 1);
        lemma_entries_view_index(init);
        assert forall|i: int| 0 <= i < s.len() implies #[trigger] json_entries_view(s)[i] == (s[i].0@, json_view(s[i].1)) by {
            if i < s.len() - 1 {
                assert(init[i] == s[i]);
            }
        }
    }
}

/// The value stored under `key` in an object's entries: the first entry with that key.
pub open spec fn entries_lookup(s: Seq<(Seq<char>, JsonView)>, key: Seq<char>) -> Option<JsonView>
    decreases s.len(),
{
    if s.len() == 0 {
        None
    } else if s[0].0 == key {
        Some(s[0].1)
    } else {
        entries_lookup(s.drop_first(), key)
    }
}

/// `value.get(key)`: the member `key` of an object, `None` for any other value.
pub open spec fn jget(v: JsonView, key: Seq<char>) -> Option<JsonView> {
    match v {
        JsonView::Object(entries) => entries_lookup(entries, key),
        _ => None,
    }
}

/// `jget` lifted over an optional value.
pub open spec fn jget_opt(v: Option<JsonView>, key: Seq<char>) -> Option<JsonView> {
    match v {
        Some(v) => jget(v, key),
        None => None,
    }
}

/// `value.as_str()` lifted over an optional value.
pub open spec fn jstr_opt(v: Option<JsonView>) -> Option<Seq<char>> {
    match v {
        Some(JsonView::Str(s)) => Some(s),
        _ => None,
    }
}

proof fn lemma_lookup_skip(s: Seq<(Seq<char>, JsonView)>, key: Seq<char>, i: int)
    requires
        0 <= i < s.len(),
        s[i].0 != key,
    ensures
        entries_lookup(s.subrange(i, s.len() as int), key) == entries_lookup(s.subrange(i + 1, s.len() as int), key),
{
    assert(s.subrange(i, s.len() as int).drop_first() =~= s.subrange(i + 1, s.len() as int));
}

/// Looks up member `key` of `j` (first match), as `serde_json::Value::get` does.
pub fn json_get<'a>(j: &'a Json, key: &str) -> (r: Option<&'a Json>)
    ensures
        match r {
            Some(v) => jget(j.view(), key@) == Some(v.view()),
            None => jget(j.view(), key@) is None,
        },
{
    match j {
        Json::Object(entries) => {
            proof {
                lemma_entries_view_index(entries@);
            }
            let ghost vs = json_entries_view(entries@);
            let n = entries.len();
            let mut i: usize = 0;
            assert(vs.subrange(0, vs.len() as int) =~= vs);
            while i < n
                invariant
                    n == entries@.len(),
                    vs == json_entries_view(entries@),
                    j.view() == JsonView::Object(vs),
                    vs.len() == n,
                    forall|k: int| 0 <= k < n ==> #[trigger] vs[k] == (entries@[k].0@, json_view(entries@[k].1)),
                    i <= n,
                    entries_lookup(vs, key@) == entries_lookup(vs.subrange(i as int, n as int), key@),
                decreases n - i,
            {
                if crate::text::str_eq(entries[i].0.as_str(), key) {
                    assert(vs[i as int].0 == key@);
                    assert(vs.subrange(i as int, n as int)[0] == vs[i as int]);
                    assert(j.view() == JsonView::Object(vs));
                    return Some(&entries[i].1);
                }
                proof {
                    lemma_lookup_skip(vs, key@, i as int);
                }
                i = i + 1;
            }
            assert(vs.subrange(n as int, n as int).len() == 0);
            None
        },
        _ => None,
    }
}

/// Reads a JSON string, as `serde_json::Value::as_str` does.
pub fn json_as_str(j: &Json) -> (r: Option<&str>)
    ensures
        match r {
            Some(s) => j.view() == JsonView::Str(s@),
            None => !(j.view() is Str),
        },
{
    match j {
        Json::Str(s) => Some(s.as_str()),
        _ => None,
    }
}

/// What `serde_json::from_str::<serde_json::Value>` gives for a text, seen through [`JsonView`].
pub uninterp spec fn serde_json_from_str(text: Seq<char>) -> Option<JsonView>;

/// What `serde_json::from_slice::<serde_json::Value>` gives for a byte string, seen through [`JsonView`].
pub uninterp spec fn serde_json_from_slice(bytes: Seq<u8>) -> Option<JsonView>;

#[verifier::external_type_specification]
#[verifier::external_body]
pub struct ExJsonValue(serde_json::Value);

/// Converts a `serde_json::Value` into the library's [`Json`], one variant for one.
#[verifier::external_body]
fn json_from_value(v: serde_json::Value) -> Json {
    match v {
        serde_json::Value::Null => Json::Null,
        serde_json::Value::Bool(b) => Json::Bool(b),
        serde_json::Value::Number(n) => Json::Number(n.as_i64()),
        serde_json::Value::String(s) => Json::Str(s),
        serde_json::Value::Array(a) => Json::Array(a.into_iter().map(json_from_value).collect()),
        serde_json::Value::Object(m) => Json::Object(m.into_iter().map(|(k, v)| (k, json_from_value(v))).collect()),
    }
}

/// Calls `serde_json::from_str::<serde_json::Value>`. Claimed: the result, converted, is
/// the named parse of the text (`None` exactly when `serde_json` rejects the text).
#[verifier::external_body]
pub(crate) fn parse_json(text: &str) -> (r: Option<Json>)
    ensures
        match r {
            Some(j) => serde_json_from_str(text@) == Some(j.view()),
            None => serde_json_from_str(text@) is None,
        },
{
    serde_json::from_str::<serde_json::Value>(text).ok().map(json_from_value)
}

/// Calls `serde_json::from_slice::<serde_json::Value>`. Claimed: the result, converted, is
/// the named parse of the bytes (`None` exactly when `serde_json` rejects them).
#[verifier::external_body]
pub(crate) fn parse_json_bytes(bytes: &[u8]) -> (r: Option<Json>)
    ensures
        match r {
            Some(j) => serde_json_from_slice(bytes@) == Some(j.view()),
            None => serde_json_from_slice(bytes@) is None,
        },
{
    serde_json::from_slice::<serde_json::Value>(bytes).ok().map(json_from_value)
}

} // verus!
