//! A JSON document as plain values: what the service responses hold and
//! what the request bodies are made of.
use vstd::prelude::*;
use crate::text::str_equal;

verus! {

/// A JSON value. Numbers keep their textual form; an object keeps its
/// members in order, and a lookup by key takes the first member with that
/// key (objects read from JSON text have no repeated keys).
#[derive(Debug)]
pub enum JsonValue {
    Null,
    Bool(bool),
    Number(String),
    Str(String),
    Array(Vec<JsonValue>),
    Object(Vec<(String, JsonValue)>),
}

/// The value of the first member named `key`, if any.
pub open spec fn member(entries: Seq<(String, JsonValue)>, key: Seq<char>) -> Option<JsonValue>
    decreases entries.len(),
{
    if entries.len() == 0 {
        None
    } else if entries[0].0@ == key {
        Some(entries[0].1)
    } else {
        member(entries.drop_first(), key)
    }
}

/// The keys of the members, in order.
pub open spec fn keys(entries: Seq<(String, JsonValue)>) -> Seq<Seq<char>> {
    entries.map_values(|e: (String, JsonValue)| e.0@)
}

impl JsonValue {
    /// `self[key]` when `self` is an object holding `key`, as `Value::get` of serde_json.
    pub open spec fn spec_get(self, key: Seq<char>) -> Option<JsonValue> {
        match self {
            JsonValue::Object(m) => member(m@, key),
            _ => None,
        }
    }

    /// `self[key]`, or `Null` when it is absent, as indexing a serde_json `Value`.
    pub open spec fn spec_index(self, key: Seq<char>) -> JsonValue {
        match self.spec_get(key) {
            Some(v) => v,
            None => JsonValue::Null,
        }
    }

    /// The text of a string value.
    pub open spec fn spec_as_str(self) -> Option<Seq<char>> {
        match self {
            JsonValue::Str(s) => Some(s@),
            _ => None,
        }
    }

    /// The text of the string member `key`.
    pub open spec fn str_member(self, key: Seq<char>) -> Option<Seq<char>> {
        match self.spec_get(key) {
            Some(v) => v.spec_as_str(),
            None => None,
        }
    }

    /// The elements of the array member `key`.
    pub open spec fn array_member(self, key: Seq<char>) -> Option<Seq<JsonValue>> {
        match self.spec_get(key) {
            Some(JsonValue::Array(a)) => Some(a@),
            _ => None,
        }
    }

    /// The keys of an object, in order.
    pub open spec fn spec_keys(self) -> Seq<Seq<char>> {
        match self {
            JsonValue::Object(m) => keys(m@),
            _ => Seq::empty(),
        }
    }

    /// The member `key` of an object.
    pub fn get(&self, key: &str) -> (r: Option<&JsonValue>)
        ensures
            match r {
                Some(v) => self.spec_get(key@) == Some(*v),
                None => self.spec_get(key@) is None,
            },
    {
        match self {
            JsonValue::Object(m) => match find_key(m, key) {
                Some(i) => Some(&m[i].1),
                None => None,
            },
            _ => None,
        }
    }

    /// The text of a string value.
    pub fn as_str(&self) -> (r: Option<&str>)
        ensures
            match r {
                Some(s) => self.spec_as_str() == Some(s@),
                None => self.spec_as_str() is None,
            },
    {
        match self {
            JsonValue::Str(s) => Some(s.as_str()),
            _ => None,
        }
    }

    /// The elements of an array value.
    pub fn as_array(&self) -> (r: Option<&Vec<JsonValue>>)
        ensures
            match r {
                Some(a) => *self == JsonValue::Array(*a),
                None => !(self is Array),
            },
    {
        match self {
            JsonValue::Array(a) => Some(a),
            _ => None,
        }
    }

    /// The text of the string member `key`.
    pub fn get_str(&self, key: &str) -> (r: Option<&str>)
        ensures
            match r {
                Some(s) => self.str_member(key@) == Some(s@),
                None => self.str_member(key@) is None,
            },
    {
        match self.get(key) {
            Some(v) => v.as_str(),
            None => None,
        }
    }

    /// A string value holding `s`.
    pub fn string(s: &str) -> (r: JsonValue)
        ensures
            r.spec_as_str() == Some(s@),
    {
        JsonValue::Str(s.to_owned())
    }
}

/// An object with the single member `key`.
pub fn object1(key: &str, value: JsonValue) -> (r: JsonValue)
    ensures
        r.spec_keys() == seq![key@],
        r.spec_get(key@) == Some(value),
{
    let mut m: Vec<(String, JsonValue)> = Vec::new();
    m.push((key.to_owned(), value));
    let r = JsonValue::Object(m);
    assert(keys(m@) =~= seq![key@]);
    r
}

/// An object with the members `key1` and `key2`, in that order.
pub fn object2(key1: &str, value1: JsonValue, key2: &str, value2: JsonValue) -> (r: JsonValue)
    requires
        key1@ != key2@,
    ensures
        r.spec_keys() == seq![key1@, key2@],
        r.spec_get(key1@) == Some(value1),
        r.spec_get(key2@) == Some(value2),
{
    let mut m: Vec<(String, JsonValue)> = Vec::new();
    m.push((key1.to_owned(), value1));
    m.push((key2.to_owned(), value2));
    assert(keys(m@) =~= seq![key1@, key2@]);
    let ghost d = m@.drop_first();
    assert(d.len() == 1 && d[0] == m@[1]);
    assert(member(d.drop_first(), key2@) is None);
    assert(member(d, key2@) == Some(value2));
    assert(member(m@, key2@) == member(d, key2@));
    JsonValue::Object(m)
}

/// The index of the first member named `key`.
pub fn find_key(entries: &Vec<(String, JsonValue)>, key: &str) -> (r: Option<usize>)
    ensures
        match r {
            Some(i) => i < entries.len() && entries@[i as int].0@ == key@ && member(entries@, key@)
                == Some(entries@[i as int].1),
            None => member(entries@, key@) is None,
        },
{
    let n: usize = entries.len();
    let mut i: usize = 0;
    assert(entries@.skip(0) =~= entries@);
    while i < n
        invariant
            n == entries@.len(),
            i <= n,
            member(entries@, key@) == member(entries@.skip(i as int), key@),
        decreases n - i,
    {
        assert(entries@.skip(i as int)[0] == entries@[i as int]);
        assert(entries@.skip(i as int).drop_first() =~= entries@.skip(i + 1));
        if str_equal(entries[i].0.as_str(), key) {
            return Some(i);
        }
        i = i + 1;
    }
    None
}

/// Removes the first member named `key` and returns its value; the other
/// members keep their order.
pub fn take_member(entries: &mut Vec<(String, JsonValue)>, key: &str) -> (r: Option<JsonValue>)
    ensures
        r == member(old(entries)@, key@),
{
    match find_key(entries, key) {
        Some(i) => {
            let (_, v) = entries.remove(i);
            Some(v)
        },
        None => None,
    }
}

} // verus!
