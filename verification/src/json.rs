//! A JSON document tree, as the servers' replies are read and as request
//! bodies are built, with the lookups that the replies need.
use vstd::prelude::*;

verus! {

/// A JSON value. Object members keep their order; lookups take the first
/// member of a given name.
pub enum JsonValue {
    Null,
    Bool(bool),
    /// A number, by its JSON text.
    Number(String),
    String(String),
    Array(Vec<JsonValue>),
    Object(Vec<(String, JsonValue)>),
}

/// The value of the first member of `members` named `key`.
pub open spec fn member(members: Seq<(String, JsonValue)>, key: Seq<char>) -> Option<JsonValue>
    decreases members.len(),
{
    if members.len() == 0 {
        None
    } else if members[0].0@ == key {
        Some(members[0].1)
    } else {
        member(members.drop_first(), key)
    }
}

/// The member `key` of `v` if `v` is an object that has one (what
/// `Value::get(key)` gives).
pub open spec fn field(v: JsonValue, key: Seq<char>) -> Option<JsonValue> {
    match v {
        JsonValue::Object(members) => member(members@, key),
        _ => None,
    }
}

/// The text of `v` if `v` is a string (what `Value::as_str` gives).
pub open spec fn string_of(v: Option<JsonValue>) -> Option<Seq<char>> {
    match v {
        Some(JsonValue::String(s)) => Some(s@),
        _ => None,
    }
}

/// The flag of `v` if `v` is a boolean (what `Value::as_bool` gives).
pub open spec fn bool_of(v: Option<JsonValue>) -> Option<bool> {
    match v {
        Some(JsonValue::Bool(b)) => Some(b),
        _ => None,
    }
}

/// The items of `v` if `v` is an array (what `Value::as_array` gives).
pub open spec fn array_of(v: Option<JsonValue>) -> Option<Seq<JsonValue>> {
    match v {
        Some(JsonValue::Array(items)) => Some(items@),
        _ => None,
    }
}

/// The text of the string member `key` of `v`, if there is one.
pub open spec fn string_field(v: JsonValue, key: Seq<char>) -> Option<Seq<char>> {
    string_of(field(v, key))
}

impl JsonValue {
    /// The member `key`, if `self` is an object that has one.
    pub fn get(&self, key: &str) -> (r: Option<&JsonValue>)
        ensures
            r is Some <==> field(*self, key@) is Some,
            r matches Some(x) ==> field(*self, key@) == Some(*x),
    {
        match self {
            JsonValue::Object(members) => {
                let k = String::from_str(key);
                let mut i: usize = 0;
                assert(members@.skip(0) == members@);
                while i < members.len()
                    invariant
                        i <= members@.len(),
                        k@ == key@,
                        field(*self, key@) == member(members@, key@),
                        member(members@, key@) == member(members@.skip(i as int), key@),
                    decreases members@.len() - i,
                {
                    assert(members@.skip(i as int).drop_first() == members@.skip(i + 1));
                    assert(members@.skip(i as int)[0] == members@[i as int]);
                    if members[i].0.eq(&k) {
                        return Some(&members[i].1);
                    }
                    i = i + 1;
                }
                None
            },
            _ => None,
        }
    }

    /// The text, if `self` is a string.
    pub fn as_str(&self) -> (r: Option<&String>)
        ensures
            r is Some <==> string_of(Some(*self)) is Some,
            r matches Some(s) ==> string_of(Some(*self)) == Some(s@),
    {
        match self {
            JsonValue::String(s) => Some(s),
            _ => None,
        }
    }

    /// The flag, if `self` is a boolean.
    pub fn as_bool(&self) -> (r: Option<bool>)
        ensures
            r == bool_of(Some(*self)),
    {
        match self {
            JsonValue::Bool(b) => Some(*b),
            _ => None,
        }
    }

    /// The items, if `self` is an array.
    pub fn as_array(&self) -> (r: Option<&Vec<JsonValue>>)
        ensures
            r is Some <==> array_of(Some(*self)) is Some,
            r matches Some(items) ==> array_of(Some(*self)) == Some(items@),
    {
        match self {
            JsonValue::Array(items) => Some(items),
            _ => None,
        }
    }
}

/// The text of the string member `key` of `v`, if there is one.
pub fn get_string(v: &JsonValue, key: &str) -> (r: Option<String>)
    ensures
        r is Some <==> string_field(*v, key@) is Some,
        r matches Some(s) ==> string_field(*v, key@) == Some(s@),
{
    match v.get(key) {
        Some(x) => match x.as_str() {
            Some(s) => Some(s.clone()),
            None => None,
        },
        None => None,
    }
}

} // verus!
