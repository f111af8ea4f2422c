//! Small shared helpers: string comparison, kebab-case validation and the
//! JSON-array extractor that the player queries are built on.
use vstd::prelude::*;

use crate::json::JsonValue;

verus! {

/// Message for getting bad JSON from the Clash Royale API's response.
pub const BAD_JSON_ERR_MSG: &'static str = "Got a bad JSON response from the Clash Royale API";

/// Compares two string slices character by character.
pub fn str_eq(a: &str, b: &str) -> (r: bool)
    ensures
        r == (a@ == b@),
{
    let a_len = a.unicode_len();
    let b_len = b.unicode_len();
    if a_len != b_len {
        return false;
    }
    let mut i: usize = 0;
    while i < a_len
        invariant
            a_len == a@.len(),
            a@.len() == b@.len(),
            0 <= i <= a_len,
            forall|j: int| 0 <= j < i ==> a@[j] == b@[j],
        decreases a_len - i,
    {
        if a.get_char(i) != b.get_char(i) {
            return false;
        }
        i += 1;
    }
    proof {
        assert(a@ =~= b@);
    }
    true
}

/// The characters spelled by a sequence of ASCII bytes.
pub open spec fn spec_ascii_chars(bytes: Seq<u8>) -> Seq<char> {
    bytes.map(|_i: int, b: u8| b as char)
}

/// Relies on String::from_utf8: bytes below 0x80 are valid UTF-8 and decode
/// to one character per byte, each the character with that code point.
#[verifier::external_body]
pub fn ascii_to_string(bytes: Vec<u8>) -> (r: String)
    requires
        forall|i: int| 0 <= i < bytes@.len() ==> bytes@[i] < 0x80,
    ensures
        r@ == spec_ascii_chars(bytes@),
{
    String::from_utf8(bytes).unwrap_or_default()
}

/// A character allowed in a kebab-case string.
pub open spec fn is_kebab_char(c: char) -> bool {
    ('a' <= c && c <= 'z') || ('0' <= c && c <= '9') || c == '-'
}

/// A kebab-case string: non-empty, only lowercase ASCII letters, digits and
/// hyphens, with no leading, trailing or doubled hyphen.
pub open spec fn spec_is_kebab_case(s: Seq<char>) -> bool {
    &&& s.len() > 0
    &&& s[0] != '-'
    &&& s[s.len() - 1] != '-'
    &&& forall|i: int| 0 <= i < s.len() ==> is_kebab_char(#[trigger] s[i])
    &&& forall|i: int| 1 <= i < s.len() ==> !(s[i - 1] == '-' && #[trigger] s[i] == '-')
}

/// Returns `true` if the string is kebab-case, `false` if not.
pub fn is_kebab_case(s: &str) -> (r: bool)
    ensures
        r == spec_is_kebab_case(s@),
{
    let n = s.unicode_len();
    if n == 0 {
        return false;
    }
    let mut last_was_hyphen = false;
    let mut i: usize = 0;
    while i < n
        invariant
            n == s@.len(),
            0 < n,
            0 <= i <= n,
            forall|j: int| 0 <= j < i ==> is_kebab_char(#[trigger] s@[j]),
            forall|j: int| 1 <= j < i ==> !(s@[j - 1] == '-' && #[trigger] s@[j] == '-'),
            i > 0 ==> s@[0] != '-',
            last_was_hyphen == (i > 0 && s@[i - 1] == '-'),
        decreases n - i,
    {
        let c = s.get_char(i);
        let is_hyphen = c == '-';
        if is_hyphen {
            if i == 0 || last_was_hyphen {
                return false;
            }
        } else if !(('a' <= c && c <= 'z') || ('0' <= c && c <= '9')) {
            return false;
        }
        last_was_hyphen = is_hyphen;
        i += 1;
    }
    !last_was_hyphen
}

/// The first element of `entries` satisfying `p`, if any.
pub open spec fn spec_first_match(entries: Seq<JsonValue>, p: spec_fn(JsonValue) -> bool) -> Option<
    JsonValue,
>
    decreases entries.len(),
{
    if entries.len() == 0 {
        None
    } else if p(entries[0]) {
        Some(entries[0])
    } else {
        spec_first_match(entries.drop_first(), p)
    }
}

/// The elements of the array field `name` of `json`, or `None` when that
/// field is absent or not an array.
pub open spec fn spec_array_entries(json: JsonValue, name: Seq<char>) -> Option<Seq<JsonValue>> {
    match json.spec_get(name) {
        Some(v) => v.spec_as_array(),
        None => None,
    }
}

/// What `find_in_json_array` returns: the first match of `p` inside the array
/// field `name` of `json`, or `None` when that field is absent or not an array.
pub open spec fn spec_find_in_json_array(
    json: JsonValue,
    name: Seq<char>,
    p: spec_fn(JsonValue) -> bool,
) -> Option<JsonValue> {
    match spec_array_entries(json, name) {
        Some(entries) => spec_first_match(entries, p),
        None => None,
    }
}

/// The element at index `i` of `entries` is the first one that the predicate
/// accepts, and equals `v`.
pub open spec fn spec_found_at<P: Fn(&JsonValue) -> bool>(
    entries: Seq<JsonValue>,
    predicate: P,
    v: JsonValue,
    i: int,
) -> bool {
    &&& 0 <= i < entries.len()
    &&& v == entries[i]
    &&& call_ensures(predicate, (&entries[i],), true)
    &&& forall|j: int| 0 <= j < i ==> call_ensures(predicate, (&entries[j],), false)
}

/// When an element satisfies `p` and no earlier element does, it is the first
/// match.
pub proof fn lemma_first_match_at(entries: Seq<JsonValue>, p: spec_fn(JsonValue) -> bool, i: int)
    requires
        0 <= i < entries.len(),
        p(entries[i]),
        forall|j: int| 0 <= j < i ==> !p(#[trigger] entries[j]),
    ensures
        spec_first_match(entries, p) == Some(entries[i]),
    decreases i,
{
    if i > 0 {
        assert(forall|j: int| 0 <= j < i - 1 ==> entries.drop_first()[j] == entries[j + 1]);
        lemma_first_match_at(entries.drop_first(), p, i - 1);
    }
}

/// When no element satisfies `p`, there is no first match.
pub proof fn lemma_first_match_none(entries: Seq<JsonValue>, p: spec_fn(JsonValue) -> bool)
    requires
        forall|j: int| 0 <= j < entries.len() ==> !p(#[trigger] entries[j]),
    ensures
        spec_first_match(entries, p) is None,
    decreases entries.len(),
{
    if entries.len() > 0 {
        lemma_first_match_none(entries.drop_first(), p);
    }
}

/// Searches for the first item in the given JSON array path that matches the predicate.
/// Returns `None` if the array is not present or if nothing matches the predicate.
#[verifier::loop_isolation(false)]
pub fn find_in_json_array<'a, P: Fn(&JsonValue) -> bool>(
    json: &'a JsonValue,
    name: &str,
    predicate: P,
) -> (r: Option<&'a JsonValue>)
    requires
        forall|v: &JsonValue| call_requires(predicate, (v,)),
    ensures
        match r {
            Some(v) => spec_array_entries(*json, name@) is Some && exists|i: int|
                #[trigger] spec_found_at(
                    spec_array_entries(*json, name@)->Some_0,
                    predicate,
                    *v,
                    i,
                ),
            None => match spec_array_entries(*json, name@) {
                Some(entries) => forall|j: int|
                    0 <= j < entries.len() ==> call_ensures(predicate, (&entries[j],), false),
                None => true,
            },
        },
{
    let field = match json.get(name) {
        Some(f) => f,
        None => {
            return None;
        },
    };
    let arr = match field.as_array() {
        Some(a) => a,
        None => {
            return None;
        },
    };
    let mut i: usize = 0;
    while i < arr.len()
        invariant
            0 <= i <= arr@.len(),
            forall|v: &JsonValue| call_requires(predicate, (v,)),
            forall|j: int| 0 <= j < i ==> call_ensures(predicate, (&arr@[j],), false),
        decreases arr@.len() - i,
    {
        let v = &arr[i];
        if predicate(v) {
            proof {
                assert(spec_array_entries(*json, name@) == Some(arr@));
                let entries = spec_array_entries(*json, name@)->Some_0;
                assert(spec_found_at(entries, predicate, *v, i as int));
            }
            return Some(v);
        }
        i += 1;
    }
    None
}

} // verus!
