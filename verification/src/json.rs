//! JSON documents exchanged with the alerting services, as plain values:
//! building request bodies and reading fields of replies the way
//! `serde_json::Value` indexing reads them.

use vstd::prelude::*;
use serde_json::{Number, Value};

verus! {

/// A JSON document. Numbers keep their JSON text; an object keeps its
/// members in order, and a lookup by key takes the first member with that
/// key (an object converted from `serde_json` has no key twice).
#[derive(Debug)]
pub enum JsonValue {
    Null,
    Bool(bool),
    Number(String),
    String(String),
    Array(Vec<JsonValue>),
    Object(Vec<JsonMember>),
}

/// One member of a JSON object.
#[derive(Debug)]
pub struct JsonMember {
    pub key: String,
    pub value: JsonValue,
}

/// The contents of a [`JsonValue`], with texts as character sequences.
pub enum JsonView {
    Null,
    Bool(bool),
    Number(Seq<char>),
    Str(Seq<char>),
    Array(Seq<JsonView>),
    Object(Seq<(Seq<char>, JsonView)>),
}

/// The contents of `v`.
pub open spec fn json_view(v: JsonValue) -> JsonView
    decreases v,
{
    match v {
        JsonValue::Null => JsonView::Null,
        JsonValue::Bool(b) => JsonView::Bool(b),
        JsonValue::Number(n) => JsonView::Number(n@),
        JsonValue::String(s) => JsonView::Str(s@),
        JsonValue::Array(items) => JsonView::Array(
            Seq::new(
                items@.len(),
                |i: int|
                    if 0 <= i < items@.len() {
                        json_view(items@[i])
                    } else {
                        JsonView::Null
                    },
            ),
        ),
        JsonValue::Object(members) => JsonView::Object(
            Seq::new(
                members@.len(),
                |i: int|
                    if 0 <= i < members@.len() {
                        (members@[i].key@, json_view(members@[i].value))
                    } else {
                        (Seq::empty(), JsonView::Null)
                    },
            ),
        ),
    }
}

/// The value of the first member of `members` named `key`.
pub open spec fn member_lookup(members: Seq<(Seq<char>, JsonView)>, key: Seq<char>) -> Option<
    JsonView,
>
    decreases members.len(),
{
    if members.len() == 0 {
        None
    } else if members[0].0 == key {
        Some(members[0].1)
    } else {
        member_lookup(members.drop_first(), key)
    }
}

/// Whether no two members of an object share a key, so that the first
/// member with a key (what a lookup reads) is also the last one (what
/// `serde_json` keeps when it builds a map).
pub open spec fn distinct_keys(members: Seq<(Seq<char>, JsonView)>) -> bool {
    forall|i: int, j: int| 0 <= i < j < members.len() ==> #[trigger] members[i].0 != #[trigger] members[j].0
}

/// `v[key]` as `serde_json` reads it: the member named `key` of an object,
/// `null` when there is none or `v` is not an object.
pub open spec fn index_key(v: JsonView, key: Seq<char>) -> JsonView {
    match v {
        JsonView::Object(members) => match member_lookup(members, key) {
            Some(x) => x,
            None => JsonView::Null,
        },
        _ => JsonView::Null,
    }
}

/// `v[i]` as `serde_json` reads it: the element at `i` of an array, `null`
/// when there is none or `v` is not an array.
pub open spec fn index_pos(v: JsonView, i: int) -> JsonView {
    match v {
        JsonView::Array(items) => if 0 <= i < items.len() {
            items[i]
        } else {
            JsonView::Null
        },
        _ => JsonView::Null,
    }
}

/// The text of a JSON string, `None` for any other value.
pub open spec fn as_text(v: JsonView) -> Option<Seq<char>> {
    match v {
        JsonView::Str(s) => Some(s),
        _ => None,
    }
}

/// The value of a JSON boolean, `None` for any other value.
pub open spec fn as_boolean(v: JsonView) -> Option<bool> {
    match v {
        JsonView::Bool(b) => Some(b),
        _ => None,
    }
}

proof fn lemma_member_lookup_skip(members: Seq<(Seq<char>, JsonView)>, key: Seq<char>, i: int)
    requires
        0 <= i <= members.len(),
        forall|k: int| 0 <= k < i ==> (#[trigger] members[k]).0 != key,
    ensures
        member_lookup(members, key) == member_lookup(members.skip(i), key),
    decreases i,
{
    if i > 0 {
        lemma_member_lookup_skip(members.drop_first(), key, i - 1);
        assert(members.drop_first().skip(i - 1) =~= members.skip(i));
    } else {
        assert(members.skip(0) =~= members);
    }
}

impl JsonMember {
    /// The member `key` with `value`.
    pub fn new(key: &str, value: JsonValue) -> (m: JsonMember)
        ensures
            m.key@ == key@,
            m.value == value,
    {
        JsonMember { key: String::from_str(key), value }
    }
}

impl JsonValue {
    /// The member named `key` of an object; `None` stands for the `null`
    /// that `serde_json` gives for a missing member or a non-object.
    pub fn get(&self, key: &str) -> (r: Option<&JsonValue>)
        ensures
            match r {
                Some(x) => json_view(*x) == index_key(json_view(*self), key@),
                None => index_key(json_view(*self), key@) == JsonView::Null,
            },
    {
        match self {
            JsonValue::Object(members) => {
                let ghost view_members = match json_view(*self) {
                    JsonView::Object(m) => m,
                    _ => Seq::empty(),
                };
                assert(json_view(*self) == JsonView::Object(view_members));
                assert(view_members.len() == members@.len());
                assert forall|k: int| 0 <= k < members@.len() implies #[trigger] view_members[k] == (
                    members@[k].key@,
                    json_view(members@[k].value),
                ) by {}
                let wanted = String::from_str(key);
                let n = members.len();
                let mut i: usize = 0;
                while i < n
                    invariant
                        n == members@.len(),
                        i <= n,
                        wanted@ == key@,
                        json_view(*self) == JsonView::Object(view_members),
                        view_members.len() == n,
                        forall|k: int|
                            0 <= k < n ==> #[trigger] view_members[k] == (
                                members@[k].key@,
                                json_view(members@[k].value),
                            ),
                        forall|k: int| 0 <= k < i ==> (#[trigger] view_members[k]).0 != key@,
                    decreases n - i,
                {
                    if members[i].key == wanted {
                        proof {
                            lemma_member_lookup_skip(view_members, key@, i as int);
                            let rest = view_members.skip(i as int);
                            assert(rest[0] == view_members[i as int]);
                            assert(rest.len() > 0);
                            assert(rest[0].0 == key@);
                            assert(member_lookup(rest, key@) == Some(rest[0].1));
                        }
                        return Some(&members[i].value);
                    }
                    i = i + 1;
                }
                proof {
                    lemma_member_lookup_skip(view_members, key@, n as int);
                }
                None
            },
            _ => None,
        }
    }

    /// The element at `i` of an array; `None` stands for the `null` that
    /// `serde_json` gives for a missing element or a non-array.
    pub fn at(&self, i: usize) -> (r: Option<&JsonValue>)
        ensures
            match r {
                Some(x) => json_view(*x) == index_pos(json_view(*self), i as int),
                None => index_pos(json_view(*self), i as int) == JsonView::Null,
            },
    {
        match self {
            JsonValue::Array(items) => {
                if i < items.len() {
                    Some(&items[i])
                } else {
                    None
                }
            },
            _ => None,
        }
    }

    /// The text of a JSON string.
    pub fn as_str(&self) -> (r: Option<&str>)
        ensures
            match r {
                Some(s) => as_text(json_view(*self)) == Some(s@),
                None => as_text(json_view(*self)) is None,
            },
    {
        match self {
            JsonValue::String(s) => Some(s.as_str()),
            _ => None,
        }
    }

    /// The value of a JSON boolean.
    pub fn as_bool(&self) -> (r: Option<bool>)
        ensures
            r == as_boolean(json_view(*self)),
    {
        match self {
            JsonValue::Bool(b) => Some(*b),
            _ => None,
        }
    }

    /// A JSON string holding `s`.
    pub fn text(s: &str) -> (v: JsonValue)
        ensures
            json_view(v) == JsonView::Str(s@),
    {
        JsonValue::String(String::from_str(s))
    }
}

/// `serde_json::Value`, a JSON document of `serde_json`; it is used only to
/// print a document as `serde_json` prints it.
#[verifier::external_type_specification]
#[verifier::external_body]
pub struct ExSerdeJsonValue(serde_json::Value);

/// The text that `serde_json` prints for the document `v` (the `Display`
/// of `serde_json::Value`: compact JSON).
pub uninterp spec fn json_text(v: JsonView) -> Seq<char>;

/// The `serde_json::Value` with the contents of `v`, member for member; a
/// number whose text `serde_json::Number` does not parse becomes `null`,
/// and of two members with one key the later one stays.
#[verifier::external_body]
fn serde_value(v: &JsonValue) -> Value {
    match v {
        JsonValue::Null => Value::Null,
        JsonValue::Bool(b) => Value::Bool(*b),
        JsonValue::Number(n) => match n.parse::<Number>() {
            Ok(x) => Value::Number(x),
            Err(_) => Value::Null,
        },
        JsonValue::String(s) => Value::String(s.clone()),
        JsonValue::Array(items) => Value::Array(items.iter().map(serde_value).collect()),
        JsonValue::Object(members) => {
            let mut map = serde_json::Map::new();
            for m in members { map.insert(m.key.clone(), serde_value(&m.value)); }
            Value::Object(map)
        },
    }
}

/// Prints `v` as `serde_json` prints it, through `<serde_json::Value as
/// Display>::fmt` (via `to_string`); the text is named `json_text`, a
/// function of the document's contents alone.
#[verifier::external_body]
pub(crate) fn render_json(v: &JsonValue) -> (s: String)
    ensures
        s@ == json_text(json_view(*v)),
{
    serde_value(v).to_string()
}

} // verus!
