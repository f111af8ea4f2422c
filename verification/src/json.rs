//! A JSON-like document model: the shape of the data that the upstream API
//! returns, held as plain values so that the field lookups the library
//! performs can be specified and verified.
use vstd::prelude::*;

use crate::util::str_eq;

verus! {

/// A JSON-like value. Numbers are held as `i64`: the library only ever reads
/// integer fields, and a non-integer number is modelled as `Null`, which every
/// numeric accessor rejects just as it rejects any other non-integer value.
#[derive(Debug)]
pub enum JsonValue {
    Null,
    Bool(bool),
    Int(i64),
    Str(String),
    Array(Vec<JsonValue>),
    Object(Vec<(String, JsonValue)>),
}

/// The value of the first field named `name`, if any.
pub open spec fn spec_lookup(fields: Seq<(String, JsonValue)>, name: Seq<char>) -> Option<
    JsonValue,
>
    decreases fields.len(),
{
    if fields.len() == 0 {
        None
    } else if fields[0].0@ == name {
        Some(fields[0].1)
    } else {
        spec_lookup(fields.drop_first(), name)
    }
}

/// The integer field named `name` of `v`, if present and an integer.
pub open spec fn spec_field_i64(v: JsonValue, name: Seq<char>) -> Option<i64> {
    match v.spec_get(name) {
        Some(f) => f.spec_as_i64(),
        None => None,
    }
}

/// The string field named `name` of `v`, if present and a string.
pub open spec fn spec_field_str(v: JsonValue, name: Seq<char>) -> Option<Seq<char>> {
    match v.spec_get(name) {
        Some(f) => f.spec_as_str(),
        None => None,
    }
}

impl JsonValue {
    /// The field named `name` of an object, if present.
    pub open spec fn spec_get(self, name: Seq<char>) -> Option<JsonValue> {
        match self {
            JsonValue::Object(fields) => spec_lookup(fields@, name),
            _ => None,
        }
    }

    /// The integer held by this value, if it is an integer.
    pub open spec fn spec_as_i64(self) -> Option<i64> {
        match self {
            JsonValue::Int(n) => Some(n),
            _ => None,
        }
    }

    /// The characters of the string held by this value, if it is a string.
    pub open spec fn spec_as_str(self) -> Option<Seq<char>> {
        match self {
            JsonValue::Str(s) => Some(s@),
            _ => None,
        }
    }

    /// The elements of the array held by this value, if it is an array.
    pub open spec fn spec_as_array(self) -> Option<Seq<JsonValue>> {
        match self {
            JsonValue::Array(arr) => Some(arr@),
            _ => None,
        }
    }

    /// Looks up a field of an object by name. Returns `None` when the value
    /// is not an object or has no field of that name; on a repeated name the
    /// first field wins.
    #[verifier::loop_isolation(false)]
    pub fn get<'a>(&'a self, name: &str) -> (r: Option<&'a JsonValue>)
        ensures
            match r {
                Some(v) => self.spec_get(name@) == Some(*v),
                None => self.spec_get(name@) is None,
            },
    {
        match self {
            JsonValue::Object(fields) => {
                proof {
                    assert(fields@.skip(0) =~= fields@);
                }
                let mut i: usize = 0;
                while i < fields.len()
                    invariant
                        0 <= i <= fields@.len(),
                        spec_lookup(fields@, name@) == spec_lookup(
                            fields@.skip(i as int),
                            name@,
                        ),
                    decreases fields@.len() - i,
                {
                    proof {
                        assert(fields@.skip(i as int)[0] == fields@[i as int]);
                        assert(fields@.skip(i as int).drop_first() =~= fields@.skip(i as int + 1));
                    }
                    if str_eq(fields[i].0.as_str(), name) {
                        proof {
                            assert(spec_lookup(fields@.skip(i as int), name@) == Some(
                                fields@[i as int].1,
                            ));
                        }
                        return Some(&fields[i].1);
                    }
                    i += 1;
                }
                proof {
                    assert(fields@.skip(i as int) =~= Seq::<(String, JsonValue)>::empty());
                }
                None
            },
            _ => None,
        }
    }

    /// The integer held by this value, or `None` when it is not an integer.
    pub fn as_i64(&self) -> (r: Option<i64>)
        ensures
            r == self.spec_as_i64(),
    {
        match self {
            JsonValue::Int(n) => Some(*n),
            _ => None,
        }
    }

    /// The string held by this value, or `None` when it is not a string.
    pub fn as_str<'a>(&'a self) -> (r: Option<&'a str>)
        ensures
            match r {
                Some(s) => self.spec_as_str() == Some(s@),
                None => self.spec_as_str() is None,
            },
    {
        match self {
            JsonValue::Str(s) => Some(s.as_str()),
            _ => None,
        }
    }

    /// The array held by this value, or `None` when it is not an array.
    pub fn as_array<'a>(&'a self) -> (r: Option<&'a Vec<JsonValue>>)
        ensures
            match r {
                Some(arr) => self.spec_as_array() == Some(arr@),
                None => self.spec_as_array() is None,
            },
    {
        match self {
            JsonValue::Array(arr) => Some(arr),
            _ => None,
        }
    }
}

} // verus!
