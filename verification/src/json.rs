//! JSON values as plain data, and the one call that reads them from text.

use vstd::prelude::*;

verus! {

/// A JSON value. A number is kept as its decimal text: whole numbers in the
/// range of `i64` or `u64` are plain digits with an optional leading `-`, and
/// every other number has a fraction or an exponent.
#[derive(Debug, PartialEq, Eq)]
pub enum Json {
    Null,
    Bool(bool),
    Number(String),
    Text(String),
    Array(Vec<Json>),
    /// The members in the order in which they are held; a key is looked up
    /// from the front.
    Object(Vec<(String, Json)>),
}

/// The view of a [`Json`] value.
pub enum JsonValue {
    Null,
    Bool(bool),
    Number(Seq<char>),
    Text(Seq<char>),
    Array(Seq<JsonValue>),
    Object(Seq<(Seq<char>, JsonValue)>),
}

/// The content of `json`, level by level.
pub open spec fn value_of(json: Json) -> JsonValue
    decreases json,
{
    match json {
        Json::Null => JsonValue::Null,
        Json::Bool(b) => JsonValue::Bool(b),
        Json::Number(digits) => JsonValue::Number(digits@),
        Json::Text(text) => JsonValue::Text(text@),
        Json::Array(items) => JsonValue::Array(
            Seq::new(
                items@.len(),
                |i: int|
                    if 0 <= i < items@.len() {
                        value_of(items@[i])
                    } else {
                        JsonValue::Null
                    },
            ),
        ),
        Json::Object(members) => JsonValue::Object(
            Seq::new(
                members@.len(),
                |i: int|
                    if 0 <= i < members@.len() {
                        (members@[i].0@, value_of(members@[i].1))
                    } else {
                        (Seq::empty(), JsonValue::Null)
                    },
            ),
        ),
    }
}

impl View for Json {
    type V = JsonValue;

    open spec fn view(&self) -> JsonValue {
        value_of(*self)
    }
}

/// The value of the first member of `members` whose key is `key`.
pub open spec fn member_of(members: Seq<(Seq<char>, JsonValue)>, key: Seq<char>) -> Option<
    JsonValue,
>
    decreases members.len(),
{
    if members.len() == 0 {
        None
    } else if members[0].0 == key {
        Some(members[0].1)
    } else {
        member_of(members.skip(1), key)
    }
}

/// The view of an object has one member for each member held, with the same
/// key and the view of the same value, in the same order.
pub proof fn lemma_object_view(members: Vec<(String, Json)>)
    ensures
        Json::Object(members)@ is Object,
        Json::Object(members)@->Object_0.len() == members@.len(),
        forall|k: int|
            0 <= k < members@.len() ==> Json::Object(members)@->Object_0[k] == (
                #[trigger] members@[k].0@,
                members@[k].1@,
            ),
{
}

/// The view of an array has the view of each item, in the same order.
pub proof fn lemma_array_view(items: Vec<Json>)
    ensures
        Json::Array(items)@ is Array,
        Json::Array(items)@->Array_0.len() == items@.len(),
        forall|k: int|
            0 <= k < items@.len() ==> Json::Array(items)@->Array_0[k] == #[trigger] items@[k]@,
{
}

impl JsonValue {
    /// The member `key` of an object; `None` if the value is no object or has
    /// no such member.
    pub open spec fn member(self, key: Seq<char>) -> Option<JsonValue> {
        match self {
            JsonValue::Object(members) => member_of(members, key),
            _ => None,
        }
    }
}

impl Json {
    /// Whether the value is an object.
    pub fn is_object(&self) -> (b: bool)
        ensures
            b == (self@ is Object),
    {
        match self {
            Json::Object(_) => true,
            _ => false,
        }
    }

    /// The member `key` of an object; `None` if the value is no object or has
    /// no such member.
    pub fn member(&self, key: &str) -> (found: Option<&Json>)
        ensures
            found.is_some() == self@.member(key@).is_some(),
            found matches Some(value) ==> self@.member(key@) == Some(value@),
    {
        match self {
            Json::Object(members) => {
                let wanted = key.to_owned();
                let ghost all = self@->Object_0;
                proof {
                    lemma_object_view(*members);
                    assert(all.skip(0) =~= all);
                }
                let mut i: usize = 0;
                while i < members.len()
                    invariant
                        i <= members.len(),
                        wanted@ == key@,
                        self@ == JsonValue::Object(all),
                        all.len() == members@.len(),
                        forall|k: int|
                            0 <= k < members@.len() ==> all[k] == (
                                #[trigger] members@[k].0@,
                                members@[k].1@,
                            ),
                        member_of(all, key@) == member_of(all.skip(i as int), key@),
                    decreases members.len() - i,
                {
                    let ghost rest = all.skip(i as int);
                    assert(rest.skip(1) =~= all.skip(i + 1));
                    if members[i].0 == wanted {
                        return Some(&members[i].1);
                    }
                    i = i + 1;
                }
                None
            },
            _ => None,
        }
    }
}

/// What the JSON parser makes of a text: the value it denotes, or the
/// parser's account of what is wrong with it.
pub uninterp spec fn parsed_json(text: Seq<char>) -> Result<JsonValue, Seq<char>>;

#[verifier::external_type_specification]
#[verifier::external_body]
pub struct ExValue(serde_json::Value);

/// Turns a `serde_json::Value` into a [`Json`], variant by variant. Numbers
/// are written out with `Number`'s `Display`; object members keep the order in
/// which `serde_json::Map` hands them out.
#[verifier::external_body]
fn json_of(value: serde_json::Value) -> Json {
    match value {
        serde_json::Value::Null => Json::Null,
        serde_json::Value::Bool(b) => Json::Bool(b),
        serde_json::Value::Number(n) => Json::Number(n.to_string()),
        serde_json::Value::String(s) => Json::Text(s),
        serde_json::Value::Array(a) => Json::Array(a.into_iter().map(json_of).collect()),
        serde_json::Value::Object(o) => Json::Object(
            o.into_iter().map(|(k, v)| (k, json_of(v))).collect(),
        ),
    }
}

/// Calls `serde_json::from_str::<serde_json::Value>`. The outcome depends on
/// the text alone; it is the value that the text denotes, or else the `Debug`
/// form of the parser's error.
#[verifier::external_body]
pub(crate) fn parse_json(text: &str) -> (outcome: Result<Json, String>)
    ensures
        match outcome {
            Ok(value) => parsed_json(text@) == Ok::<JsonValue, Seq<char>>(value@),
            Err(error) => parsed_json(text@) == Err::<JsonValue, Seq<char>>(error@),
        },
{
    match serde_json::from_str::<serde_json::Value>(text) {
        Ok(value) => Ok(json_of(value)),
        Err(error) => Err(format!("{:?}", error)),
    }
}

} // verus!
