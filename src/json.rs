//! A structured value as it travels on the wire.
use vstd::prelude::*;

verus! {

/// A JSON document. Integers are held exactly; any other number is held as
/// its decimal text.
#[derive(Debug, PartialEq)]
pub enum JsonValue {
    Null,
    Bool(bool),
    Int(i64),
    UInt(u64),
    Real(String),
    Str(String),
    Array(Vec<JsonValue>),
    Object(Vec<(String, JsonValue)>),
}

/// Number of members of an object; zero for any other value.
pub open spec fn obj_len(v: JsonValue) -> int {
    match v {
        JsonValue::Object(entries) => entries@.len() as int,
        _ => 0,
    }
}

/// Key of the `i`-th member of an object.
pub open spec fn key_at(v: JsonValue, i: int) -> Seq<char> {
    match v {
        JsonValue::Object(entries) => entries@[i].0@,
        _ => Seq::empty(),
    }
}

/// Value of the `i`-th member of an object.
pub open spec fn val_at(v: JsonValue, i: int) -> JsonValue {
    match v {
        JsonValue::Object(entries) => entries@[i].1,
        _ => JsonValue::Null,
    }
}

/// `v` is a string with the characters `s`.
pub open spec fn is_str(v: JsonValue, s: Seq<char>) -> bool {
    v is Str && v->Str_0@ == s
}

/// `v` is an object with no members.
pub open spec fn is_empty_object(v: JsonValue) -> bool {
    v is Object && obj_len(v) == 0
}

/// Position of the first member of `entries` named `key`.
pub open spec fn first_key(entries: Seq<(String, JsonValue)>, key: Seq<char>) -> Option<int> {
    if exists|i: int| 0 <= i < entries.len() && entries[i].0@ == key {
        let i = choose|i: int|
            0 <= i < entries.len() && entries[i].0@ == key && forall|j: int|
                0 <= j < i ==> entries[j].0@ != key;
        Some(i)
    } else {
        None
    }
}

/// The member of `v` named `key`, if `v` is an object that has one.
pub open spec fn member(v: JsonValue, key: Seq<char>) -> Option<JsonValue> {
    match v {
        JsonValue::Object(entries) => match first_key(entries@, key) {
            Some(i) => Some(entries@[i].1),
            None => None,
        },
        _ => None,
    }
}

proof fn lemma_first_key(entries: Seq<(String, JsonValue)>, key: Seq<char>, i: int)
    requires
        0 <= i < entries.len(),
        entries[i].0@ == key,
        forall|j: int| 0 <= j < i ==> entries[j].0@ != key,
    ensures
        first_key(entries, key) == Some(i),
{
    let k = choose|k: int|
        0 <= k < entries.len() && entries[k].0@ == key && forall|j: int|
            0 <= j < k ==> entries[j].0@ != key;
    if k < i {
        assert(entries[k].0@ != key);
    } else if k > i {
        assert(entries[i].0@ != key);
    }
}

/// Finds the first member named `key`.
pub fn find_key(entries: &Vec<(String, JsonValue)>, key: &String) -> (r: Option<usize>)
    ensures
        r is None ==> first_key(entries@, key@) is None,
        r is Some ==> first_key(entries@, key@) == Some(r->0 as int) && r->0 < entries@.len(),
{
    let mut i: usize = 0;
    while i < entries.len()
        invariant
            i <= entries@.len(),
            forall|j: int| 0 <= j < i ==> entries@[j].0@ != key@,
        decreases entries@.len() - i,
    {
        if entries[i].0 == *key {
            proof {
                lemma_first_key(entries@, key@, i as int);
            }
            return Some(i);
        }
        i = i + 1;
    }
    assert(!(exists|i: int| 0 <= i < entries@.len() && entries@[i].0@ == key@));
    None
}

} // verus!
