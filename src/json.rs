//! A JSON document tree, as the infrastructure tool prints its outputs.

use vstd::prelude::*;
use crate::text::same_text;

verus! {

/// A JSON value. Numbers keep their text; object members keep their order,
/// the name of each at the same position as its value.
#[derive(Debug)]
pub enum Json {
    Null,
    Bool(bool),
    Number(String),
    Str(String),
    Array(Vec<Json>),
    /// Member names and values, side by side.
    Object(Vec<String>, Vec<Json>),
}

/// The value of the first member named `key`, among the members from
/// position `from` on.
pub open spec fn member(keys: Seq<String>, values: Seq<Json>, key: Seq<char>, from: int) -> Option<Json>
    decreases keys.len() - from,
{
    if from < 0 || from >= keys.len() || from >= values.len() {
        None
    } else if keys[from]@ == key {
        Some(values[from])
    } else {
        member(keys, values, key, from + 1)
    }
}

/// The member `key` of an object; nothing for any other value.
pub open spec fn field(j: Json, key: Seq<char>) -> Option<Json> {
    match j {
        Json::Object(keys, values) => member(keys@, values@, key, 0),
        _ => None,
    }
}

/// The member `key` of `j`, when `j` is present.
pub open spec fn field_of(j: Option<Json>, key: Seq<char>) -> Option<Json> {
    match j {
        Some(v) => field(v, key),
        None => None,
    }
}

pub open spec fn as_bool(j: Option<Json>) -> Option<bool> {
    match j {
        Some(Json::Bool(b)) => Some(b),
        _ => None,
    }
}

pub open spec fn as_text(j: Option<Json>) -> Option<Seq<char>> {
    match j {
        Some(Json::Str(s)) => Some(s@),
        _ => None,
    }
}

pub open spec fn as_array(j: Option<Json>) -> Option<Seq<Json>> {
    match j {
        Some(Json::Array(a)) => Some(a@),
        _ => None,
    }
}

impl Json {
    /// The member `key`, when this is an object that has one.
    pub fn get(&self, key: &str) -> (r: Option<&Json>)
        ensures
            r is None <==> field(*self, key@) is None,
            r matches Some(x) ==> field(*self, key@) == Some(*x),
    {
        match self {
            Json::Object(keys, values) => {
                let mut i: usize = 0;
                while i < keys.len() && i < values.len()
                    invariant
                        field(*self, key@) == member(keys@, values@, key@, 0),
                        member(keys@, values@, key@, 0) == member(keys@, values@, key@, i as int),
                    decreases keys@.len() - i,
                {
                    if same_text(&keys[i], key) {
                        assert(member(keys@, values@, key@, i as int) == Some(values@[i as int]));
                        return Some(&values[i]);
                    }
                    i += 1;
                }
                None
            },
            _ => None,
        }
    }

    pub fn as_bool(&self) -> (r: Option<bool>)
        ensures
            r == as_bool(Some(*self)),
    {
        match self {
            Json::Bool(b) => Some(*b),
            _ => None,
        }
    }

    pub fn as_str(&self) -> (r: Option<&str>)
        ensures
            match as_text(Some(*self)) {
                Some(t) => r matches Some(s) && s@ == t,
                None => r is None,
            },
    {
        match self {
            Json::Str(s) => Some(s.as_str()),
            _ => None,
        }
    }

    pub fn as_array(&self) -> (r: Option<&Vec<Json>>)
        ensures
            r is None <==> !(*self is Array),
            r matches Some(a) ==> *self == Json::Array(*a),
    {
        match self {
            Json::Array(a) => Some(a),
            _ => None,
        }
    }

    pub fn is_null(&self) -> (r: bool)
        ensures
            r == (*self is Null),
    {
        match self {
            Json::Null => true,
            _ => false,
        }
    }
}

/// The value of one Terraform output: `outputs[name].value`.
pub open spec fn output_value(outputs: Json, name: Seq<char>) -> Option<Json> {
    field_of(field(outputs, name), "value"@)
}

/// `outputs[name].value`, when present.
pub fn output_value_of<'a>(outputs: &'a Json, name: &str) -> (r: Option<&'a Json>)
    ensures
        r is None <==> output_value(*outputs, name@) is None,
        r matches Some(x) ==> output_value(*outputs, name@) == Some(*x),
{
    match outputs.get(name) {
        Some(o) => o.get("value"),
        None => None,
    }
}

} // verus!
