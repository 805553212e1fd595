use vstd::prelude::*;
use crate::text::str_eq;

verus! {

/// A JSON document.
///
/// A number is kept as the text that stands for it, so that it is carried
/// without loss. The members of an object are kept in a row; where a key
/// occurs more than once, the first member with that key counts.
#[derive(Debug, PartialEq, Eq)]
pub enum JsonValue {
    Null,
    Bool(bool),
    Number(String),
    String(String),
    Array(Vec<JsonValue>),
    Object(Vec<JsonMember>),
}

/// One member of a JSON object.
#[derive(Debug, PartialEq, Eq)]
pub struct JsonMember {
    pub key: String,
    pub value: JsonValue,
}

/// Whether `at` is where the first member with the key stands, or the
/// number of members where none has the key.
pub open spec fn first_with_key(members: Seq<JsonMember>, key: Seq<char>, at: int) -> bool {
    &&& 0 <= at <= members.len()
    &&& at < members.len() ==> members[at].key@ == key
    &&& forall|j: int| 0 <= j < at ==> (#[trigger] members[j]).key@ != key
}

/// Whether the value is the string with the given text.
pub open spec fn is_text(value: JsonValue, text: Seq<char>) -> bool {
    value matches JsonValue::String(held) && held@ == text
}

/// The index of the first member with the key, or the number of members
/// where none has the key.
pub fn find_member(members: &Vec<JsonMember>, key: &str) -> (at: usize)
    ensures
        first_with_key(members@, key@, at as int),
{
    let mut at: usize = 0;
    while at < members.len()
        invariant
            at <= members@.len(),
            forall|j: int| 0 <= j < at ==> (#[trigger] members@[j]).key@ != key@,
        decreases members@.len() - at,
    {
        if str_eq(members[at].key.as_str(), key) {
            return at;
        }
        at += 1;
    }
    at
}

impl JsonValue {
    /// The value of the first member with the key, where this is an object
    /// that has one.
    pub fn get(&self, key: &str) -> (found: Option<&JsonValue>)
        ensures
            match *self {
                JsonValue::Object(members) => exists|at: int|
                    first_with_key(members@, key@, at) && (if at < members@.len() {
                        found == Some(&members@[at].value)
                    } else {
                        found.is_none()
                    }),
                _ => found.is_none(),
            },
    {
        match self {
            JsonValue::Object(members) => {
                let at = find_member(members, key);
                if at < members.len() {
                    Some(&members[at].value)
                } else {
                    None
                }
            },
            _ => None,
        }
    }
}

} // verus!
