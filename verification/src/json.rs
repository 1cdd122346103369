//! Structured values: the tree of nulls, booleans, numbers, strings, arrays and
//! objects that crosses the boundary as JSON text.

use vstd::prelude::*;
use vstd::string::*;

verus! {

/// `serde_json::Number`, held as it is: nothing here looks inside one.
#[verifier::external_type_specification]
#[verifier::external_body]
pub struct ExNumber(serde_json::Number);

/// `Clone` for `serde_json::Number` is derived: the copy equals the number
/// that was copied.
pub assume_specification[ <serde_json::Number as Clone>::clone ](n: &serde_json::Number) -> (r:
    serde_json::Number)
    ensures
        r == *n,
;

/// A JSON number. The bridge reads integers only; any other number is carried
/// through untouched.
#[derive(Debug, PartialEq)]
pub enum JsonNumber {
    /// An integer from zero to `u64::MAX`.
    Unsigned(u64),
    /// An integer below zero.
    Negative(i64),
    /// A number that is no 64-bit integer.
    Other(serde_json::Number),
}

impl Clone for JsonNumber {
    fn clone(&self) -> (r: Self)
        ensures
            r == *self,
    {
        match self {
            JsonNumber::Unsigned(u) => JsonNumber::Unsigned(*u),
            JsonNumber::Negative(i) => JsonNumber::Negative(*i),
            JsonNumber::Other(n) => JsonNumber::Other(n.clone()),
        }
    }
}

/// A structured value. The members of an object are kept in a list; where a
/// key is repeated, the last member with that key counts.
#[derive(Debug, PartialEq)]
pub enum Json {
    Null,
    Bool(bool),
    Number(JsonNumber),
    String(String),
    Array(Vec<Json>),
    Object(Vec<(String, Json)>),
}

/// The mathematical value of a [`Json`]. An object is a finite map: the order
/// of its members does not matter and a repeated key keeps its last value.
pub enum JsonValue {
    Null,
    Bool(bool),
    Number(JsonNumber),
    String(Seq<char>),
    Array(Seq<JsonValue>),
    Object(Map<Seq<char>, JsonValue>),
}

/// The values of the items of an array, in order.
pub open spec fn array_value(items: Seq<Json>) -> Seq<JsonValue>
    decreases items, 0int,
{
    Seq::new(
        items.len(),
        |i: int|
            if 0 <= i < items.len() {
                items[i].view()
            } else {
                JsonValue::Null
            },
    )
}

/// The map that the members of an object make when they are inserted in order.
pub open spec fn object_value(members: Seq<(String, Json)>) -> Map<Seq<char>, JsonValue>
    decreases members, 0int,
{
    if members.len() == 0 {
        Map::empty()
    } else {
        object_value(members.drop_last()).insert(members.last().0@, members.last().1.view())
    }
}

impl View for Json {
    type V = JsonValue;

    open spec fn view(&self) -> JsonValue
        decreases self, 1int,
    {
        match self {
            Json::Null => JsonValue::Null,
            Json::Bool(b) => JsonValue::Bool(*b),
            Json::Number(n) => JsonValue::Number(*n),
            Json::String(s) => JsonValue::String(s@),
            Json::Array(items) => JsonValue::Array(array_value(items@)),
            Json::Object(members) => JsonValue::Object(object_value(members@)),
        }
    }
}

impl Clone for Json {
    fn clone(&self) -> (r: Self)
        ensures
            r@ == self@,
        decreases self,
    {
        match self {
            Json::Null => Json::Null,
            Json::Bool(b) => Json::Bool(*b),
            Json::Number(n) => Json::Number(n.clone()),
            Json::String(s) => Json::String(s.clone()),
            Json::Array(items) => {
                let mut copy: Vec<Json> = Vec::new();
                let mut i: usize = 0;
                while i < items.len()
                    invariant
                        i <= items.len(),
                        copy.len() == i,
                        *self == Json::Array(*items),
                        forall|k: int| 0 <= k < i ==> copy@[k]@ == #[trigger] items@[k]@,
                    decreases items.len() - i,
                {
                    proof {
                        vstd::std_specs::vec::axiom_vec_index_decreases(*items, i as int);
                        assert(*items == self->Array_0);
                    }
                    let item = items[i].clone();
                    copy.push(item);
                    i += 1;
                }
                proof {
                    assert forall|k: int| 0 <= k < items.len() implies array_value(copy@)[k]
                        == array_value(items@)[k] by {
                        assert(copy@[k]@ == items@[k]@);
                    }
                    assert(array_value(copy@) =~= array_value(items@));
                }
                Json::Array(copy)
            },
            Json::Object(members) => {
                let mut copy: Vec<(String, Json)> = Vec::new();
                let mut i: usize = 0;
                while i < members.len()
                    invariant
                        i <= members.len(),
                        copy.len() == i,
                        *self == Json::Object(*members),
                        object_value(copy@) == object_value(members@.take(i as int)),
                    decreases members.len() - i,
                {
                    proof {
                        vstd::std_specs::vec::axiom_vec_index_decreases(*members, i as int);
                        assert(*members == self->Object_0);
                    }
                    let key = members[i].0.clone();
                    let value = members[i].1.clone();
                    proof {
                        assert(members@.take(i + 1).drop_last() == members@.take(i as int));
                        assert(copy@.push((key, value)).drop_last() == copy@);
                    }
                    copy.push((key, value));
                    i += 1;
                }
                proof {
                    assert(members@.take(i as int) == members@);
                }
                Json::Object(copy)
            },
        }
    }
}

/// The index of the last member with the given key, if there is one.
pub open spec fn last_member(members: Seq<(String, Json)>, key: Seq<char>) -> Option<int>
    decreases members.len(),
{
    if members.len() == 0 {
        None
    } else if members.last().0@ == key {
        Some(members.len() - 1)
    } else {
        last_member(members.drop_last(), key)
    }
}

/// An object holds a key where a member has it, and the key's value is that of
/// the last such member.
pub proof fn lemma_object_value(members: Seq<(String, Json)>, key: Seq<char>)
    ensures
        match last_member(members, key) {
            Some(i) => 0 <= i < members.len() && members[i].0@ == key && object_value(
                members,
            ).contains_key(key) && object_value(members)[key] == members[i].1@,
            None => !object_value(members).contains_key(key),
        },
        forall|i: int|
            0 <= i < members.len() && #[trigger] members[i].0@ == key ==> last_member(
                members,
                key,
            ) is Some && i <= last_member(members, key)->0,
    decreases members.len(),
{
    if members.len() > 0 {
        let front = members.drop_last();
        lemma_object_value(front, key);
        assert(object_value(members) == object_value(front).insert(
            members.last().0@,
            members.last().1@,
        ));
        match last_member(front, key) {
            Some(i) => {
                assert(front[i] == members[i]);
            },
            None => {},
        }
        assert forall|i: int|
            0 <= i < members.len() && #[trigger] members[i].0@ == key implies last_member(
            members,
            key,
        ) is Some && i <= last_member(members, key)->0 by {
            if i < members.len() - 1 {
                assert(members.drop_last()[i] == members[i]);
            }
        }
    }
}

/// A member of an object: the value under the key, if the value is an object
/// that holds the key.
pub open spec fn member(v: JsonValue, key: Seq<char>) -> Option<JsonValue> {
    match v {
        JsonValue::Object(m) => if m.contains_key(key) {
            Some(m[key])
        } else {
            None
        },
        _ => None,
    }
}

/// The text of a member, if the member is there and is a string.
pub open spec fn text_member(v: JsonValue, key: Seq<char>) -> Option<Seq<char>> {
    match member(v, key) {
        Some(JsonValue::String(s)) => Some(s),
        _ => None,
    }
}

/// The number of a member, if the member is there and is a non-negative
/// integer that fits 64 bits.
pub open spec fn u64_member(v: JsonValue, key: Seq<char>) -> Option<u64> {
    match member(v, key) {
        Some(JsonValue::Number(JsonNumber::Unsigned(n))) => Some(n),
        _ => None,
    }
}

/// The value of an optional text.
pub open spec fn text_option(text: Option<String>) -> Option<Seq<char>> {
    match text {
        Some(t) => Some(t@),
        None => None,
    }
}

/// The value of an optional structured value.
pub open spec fn json_option(value: Option<&Json>) -> Option<JsonValue> {
    match value {
        Some(v) => Some(v@),
        None => None,
    }
}

/// The truth value of a member, if the member is there and is a boolean.
pub open spec fn bool_member(v: JsonValue, key: Seq<char>) -> Option<bool> {
    match member(v, key) {
        Some(JsonValue::Bool(b)) => Some(b),
        _ => None,
    }
}

impl Json {
    /// The value under `key`, where `self` is an object that holds the key.
    pub fn get(&self, key: &str) -> (r: Option<&Json>)
        ensures
            json_option(r) == member(self@, key@),
    {
        match self {
            Json::Object(members) => {
                let wanted = String::from_str(key);
                let mut i: usize = members.len();
                while i > 0
                    invariant
                        i <= members.len(),
                        wanted@ == key@,
                        self@ == JsonValue::Object(object_value(members@)),
                        forall|k: int| i <= k < members.len() ==> #[trigger] members@[k].0@ != key@,
                    decreases i,
                {
                    i -= 1;
                    if members[i].0 == wanted {
                        proof {
                            lemma_object_value(members@, key@);
                        }
                        return Some(&members[i].1);
                    }
                }
                proof {
                    lemma_object_value(members@, key@);
                }
                None
            },
            _ => None,
        }
    }

    /// The text of a string.
    pub fn as_str(&self) -> (r: Option<&str>)
        ensures
            match r {
                Some(s) => self@ == JsonValue::String(s@),
                None => !(self@ is String),
            },
    {
        match self {
            Json::String(s) => Some(s.as_str()),
            _ => None,
        }
    }

    /// The value of a non-negative integer.
    pub fn as_u64(&self) -> (r: Option<u64>)
        ensures
            match r {
                Some(n) => self@ == JsonValue::Number(JsonNumber::Unsigned(n)),
                None => !(self@ matches JsonValue::Number(JsonNumber::Unsigned(_))),
            },
    {
        match self {
            Json::Number(JsonNumber::Unsigned(n)) => Some(*n),
            _ => None,
        }
    }

    /// The truth value of a boolean.
    pub fn as_bool(&self) -> (r: Option<bool>)
        ensures
            match r {
                Some(b) => self@ == JsonValue::Bool(b),
                None => !(self@ is Bool),
            },
    {
        match self {
            Json::Bool(b) => Some(*b),
            _ => None,
        }
    }

    /// The items of an array.
    pub fn as_array(&self) -> (r: Option<&Vec<Json>>)
        ensures
            match r {
                Some(items) => self@ == JsonValue::Array(array_value(items@)),
                None => !(self@ is Array),
            },
    {
        match self {
            Json::Array(items) => Some(items),
            _ => None,
        }
    }

    /// Whether the value is null.
    pub fn is_null(&self) -> (r: bool)
        ensures
            r == (self@ is Null),
    {
        match self {
            Json::Null => true,
            _ => false,
        }
    }

    /// The text under `key`, where it is a string.
    pub fn get_str(&self, key: &str) -> (r: Option<String>)
        ensures
            text_option(r) == text_member(self@, key@),
    {
        match self.get(key) {
            Some(v) => match v.as_str() {
                Some(s) => Some(String::from_str(s)),
                None => None,
            },
            None => None,
        }
    }

    /// The number under `key`, where it is a non-negative integer.
    pub fn get_u64(&self, key: &str) -> (r: Option<u64>)
        ensures
            r == u64_member(self@, key@),
    {
        match self.get(key) {
            Some(v) => v.as_u64(),
            None => None,
        }
    }

    /// The truth value under `key`, where it is a boolean.
    pub fn get_bool(&self, key: &str) -> (r: Option<bool>)
        ensures
            r == bool_member(self@, key@),
    {
        match self.get(key) {
            Some(v) => v.as_bool(),
            None => None,
        }
    }
}

} // verus!
