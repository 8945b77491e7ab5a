//! A JSON document tree of the library's own, with verified navigation.
//!
//! Parsing is delegated to serde_json behind trusted wrappers; the
//! parsed document is rebuilt as a [`JsonValue`] tree holding only plain
//! values, so that everything read out of a response afterwards is
//! verified. A JSON number is carried as its canonical decimal text (the
//! display form of `serde_json::Number`) beside its reading as an
//! unsigned integer, when it has one; no floating point enters the
//! library.

use vstd::prelude::*;

verus! {

broadcast use vstd::std_specs::vec::group_vec_axioms;

/// A JSON value: the library's own document tree.
pub enum JsonValue {
    Null,
    Bool(bool),
    /// A number: its canonical decimal text, and its value as an
    /// unsigned integer when it is one.
    Number(String, Option<u64>),
    Text(String),
    Array(Vec<JsonValue>),
    Object(Vec<(String, JsonValue)>),
}

/// The mathematical model of a JSON document.
pub enum JsonData {
    Null,
    Bool { b: bool },
    Number { repr: Seq<char>, uint: Option<u64> },
    Text { s: Seq<char> },
    Array { items: Seq<JsonData> },
    Object { entries: Seq<(Seq<char>, JsonData)> },
}

impl JsonValue {
    /// The document this tree holds.
    pub open spec fn model(self) -> JsonData
        decreases self,
    {
        match self {
            JsonValue::Null => JsonData::Null,
            JsonValue::Bool(b) => JsonData::Bool { b },
            JsonValue::Number(repr, uint) => JsonData::Number { repr: repr@, uint },
            JsonValue::Text(s) => JsonData::Text { s: s@ },
            JsonValue::Array(items) => JsonData::Array {
                items: Seq::new(
                    items@.len(),
                    |i: int|
                        if 0 <= i < items@.len() {
                            items@[i].model()
                        } else {
                            JsonData::Null
                        },
                ),
            },
            JsonValue::Object(entries) => JsonData::Object {
                entries: Seq::new(
                    entries@.len(),
                    |i: int|
                        if 0 <= i < entries@.len() {
                            (entries@[i].0@, entries@[i].1.model())
                        } else {
                            (Seq::empty(), JsonData::Null)
                        },
                ),
            },
        }
    }
}

/// The value under `key` in a list of object entries: the first entry
/// with that key, if any.
pub open spec fn spec_entries_get(
    entries: Seq<(Seq<char>, JsonData)>,
    key: Seq<char>,
) -> Option<JsonData>
    decreases entries.len(),
{
    if entries.len() == 0 {
        None
    } else if entries[0].0 == key {
        Some(entries[0].1)
    } else {
        spec_entries_get(entries.skip(1), key)
    }
}

/// Whether `d` is an object holding an entry under `key`.
pub open spec fn has_key_of(d: JsonData, key: Seq<char>) -> bool {
    d matches JsonData::Object { entries } && spec_entries_get(entries, key) is Some
}

/// Key access with null defaulting: the value under `key` when `d` is an
/// object holding it, `Null` otherwise.
pub open spec fn key_of(d: JsonData, key: Seq<char>) -> JsonData {
    match d {
        JsonData::Object { entries } => match spec_entries_get(entries, key) {
            Some(v) => v,
            None => JsonData::Null,
        },
        _ => JsonData::Null,
    }
}

/// The first element when `d` is a non-empty array, `Null` otherwise.
pub open spec fn first_of(d: JsonData) -> JsonData {
    match d {
        JsonData::Array { items } => if items.len() > 0 {
            items[0]
        } else {
            JsonData::Null
        },
        _ => JsonData::Null,
    }
}

/// The characters of `d` when it is a string.
pub open spec fn str_of(d: JsonData) -> Option<Seq<char>> {
    match d {
        JsonData::Text { s } => Some(s),
        _ => None,
    }
}

/// The value of `d` as an unsigned integer, when `d` is a number that is
/// one.
pub open spec fn uint_of(d: JsonData) -> Option<u64> {
    match d {
        JsonData::Number { repr, uint } => uint,
        _ => None,
    }
}

/// The canonical decimal text of `d` when it is a number.
pub open spec fn num_repr_of(d: JsonData) -> Option<Seq<char>> {
    match d {
        JsonData::Number { repr, uint } => Some(repr),
        _ => None,
    }
}

impl JsonValue {
    /// The value under `key` when this is an object holding it.
    pub fn get<'a>(&'a self, key: &str) -> (r: Option<&'a JsonValue>)
        ensures
            r matches Some(v) ==> has_key_of(self.model(), key@) && key_of(
                self.model(),
                key@,
            ) == v.model(),
            r is None ==> !has_key_of(self.model(), key@) && key_of(self.model(), key@)
                == JsonData::Null,
    {
        match self {
            JsonValue::Object(entries) => {
                let ghost m = self.model()->entries;
                let n = entries.len();
                let mut i: usize = 0;
                proof {
                    assert(m.skip(0) =~= m);
                }
                while i < n
                    invariant
                        n == entries@.len(),
                        self.model() == (JsonData::Object { entries: m }),
                        m.len() == n,
                        forall|j: int|
                            0 <= j < n ==> m[j] == (entries@[j].0@, entries@[j].1.model()),
                        i <= n,
                        spec_entries_get(m, key@) == spec_entries_get(m.skip(i as int), key@),
                    decreases n - i,
                {
                    if crate::text::str_eq(entries[i].0.as_str(), key) {
                        proof {
                            assert(m.skip(i as int)[0] == m[i as int]);
                            assert(m.skip(i as int)[0].0 == key@);
                            assert(spec_entries_get(m.skip(i as int), key@) == Some(
                                m[i as int].1,
                            ));
                        }
                        return Some(&entries[i].1);
                    }
                    proof {
                        assert(m.skip(i as int)[0] == m[i as int]);
                        assert(m.skip(i as int).skip(1) =~= m.skip(i + 1));
                    }
                    i += 1;
                }
                proof {
                    assert(m.skip(n as int) =~= Seq::empty());
                }
                None
            },
            _ => None,
        }
    }

    /// The value under `key` with null defaulting, as serde_json indexes
    /// objects: the caller supplies the `Null` that stands in for an
    /// absent entry.
    pub fn get_or<'a>(&'a self, key: &str, null: &'a JsonValue) -> (r: &'a JsonValue)
        requires
            null.model() == JsonData::Null,
        ensures
            r.model() == key_of(self.model(), key@),
    {
        match self.get(key) {
            Some(v) => v,
            None => null,
        }
    }

    /// The first element with null defaulting, as serde_json indexes
    /// arrays.
    pub fn first_or<'a>(&'a self, null: &'a JsonValue) -> (r: &'a JsonValue)
        requires
            null.model() == JsonData::Null,
        ensures
            r.model() == first_of(self.model()),
    {
        match self.first() {
            Some(v) => v,
            None => null,
        }
    }

    /// The first element when this is a non-empty array.
    pub fn first(&self) -> (r: Option<&JsonValue>)
        ensures
            r matches Some(v) ==> first_of(self.model()) == v.model(),
            r is None ==> first_of(self.model()) == JsonData::Null,
    {
        match self {
            JsonValue::Array(items) => {
                if items.len() > 0 {
                    Some(&items[0])
                } else {
                    None
                }
            },
            _ => None,
        }
    }

    /// The held characters when this is a string.
    pub fn as_text(&self) -> (r: Option<&String>)
        ensures
            r matches Some(s) ==> str_of(self.model()) == Some(s@),
            r is None ==> str_of(self.model()) is None,
    {
        match self {
            JsonValue::Text(s) => Some(s),
            _ => None,
        }
    }

    /// The value as an unsigned integer, when this is a number that is
    /// one.
    pub fn as_uint(&self) -> (r: Option<u64>)
        ensures
            r == uint_of(self.model()),
    {
        match self {
            JsonValue::Number(_, uint) => *uint,
            _ => None,
        }
    }

    /// The canonical decimal text when this is a number.
    pub fn number_repr(&self) -> (r: Option<&String>)
        ensures
            r matches Some(s) ==> num_repr_of(self.model()) == Some(s@),
            r is None ==> num_repr_of(self.model()) is None,
    {
        match self {
            JsonValue::Number(repr, _) => Some(repr),
            _ => None,
        }
    }

    /// Whether this is the boolean `true`: the error indicator test.
    pub fn is_true(&self) -> (r: bool)
        ensures
            r == (self.model() == JsonData::Bool { b: true }),
    {
        match self {
            JsonValue::Bool(b) => *b,
            _ => false,
        }
    }

    /// Whether this is `Null`.
    pub fn is_null(&self) -> (r: bool)
        ensures
            r == (self.model() == JsonData::Null),
    {
        match self {
            JsonValue::Null => true,
            _ => false,
        }
    }

    /// Whether this is an empty array.
    pub fn is_empty_array(&self) -> (r: bool)
        ensures
            r == (self.model() matches JsonData::Array { items } && items.len() == 0),
    {
        match self {
            JsonValue::Array(items) => items.len() == 0,
            _ => false,
        }
    }
}

/// The JSON document denoted by a text, as serde_json parses it: `None`
/// when the text is not valid JSON. Parsing depends on the text alone.
pub uninterp spec fn json_doc_of(text: Seq<char>) -> Option<JsonData>;

/// The JSON document held by a parsed `serde_json::Value`.
pub uninterp spec fn json_model_of(v: serde_json::Value) -> JsonData;

#[verifier::external_type_specification]
#[verifier::external_body]
pub struct ExValue(serde_json::Value);

/// Relies on serde_json::from_str: whether a text parses, and to what
/// document, depends on the text alone.
#[verifier::external_body]
fn from_str_value(text: &str) -> (r: Option<serde_json::Value>)
    ensures
        r is Some <==> json_doc_of(text@) is Some,
        r matches Some(v) ==> json_doc_of(text@) == Some(json_model_of(v)),
{
    serde_json::from_str::<serde_json::Value>(text).ok()
}

/// Relies on serde_json::Value's variants and on serde_json::Number's
/// display and `as_u64`: rebuilds the parsed value as the library's own
/// tree, each number as its canonical decimal text beside its unsigned
/// reading.
#[verifier::external_body]
fn to_json_value(v: serde_json::Value) -> (r: JsonValue)
    ensures
        r.model() == json_model_of(v),
{
    match v {
        serde_json::Value::Null => JsonValue::Null,
        serde_json::Value::Bool(b) => JsonValue::Bool(b),
        serde_json::Value::Number(n) => JsonValue::Number(n.to_string(), n.as_u64()),
        serde_json::Value::String(s) => JsonValue::Text(s),
        serde_json::Value::Array(a) => JsonValue::Array(
            a.into_iter().map(to_json_value).collect(),
        ),
        serde_json::Value::Object(o) => JsonValue::Object(
            o.into_iter().map(|(k, w)| (k, to_json_value(w))).collect(),
        ),
    }
}

/// Parses a text as JSON into the library's own document tree.
pub fn parse_json(text: &str) -> (r: Option<JsonValue>)
    ensures
        r is Some <==> json_doc_of(text@) is Some,
        r matches Some(jv) ==> json_doc_of(text@) == Some(jv.model()),
{
    match from_str_value(text) {
        Some(v) => Some(to_json_value(v)),
        None => None,
    }
}

} // verus!
