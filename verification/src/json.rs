//! A JSON document as a tree, and the lookup of a member of an object by its key.
//!
//! The tree keeps the members of an object in the order in which they were
//! written, repeated keys included, so that a reader of a record can tell a key
//! that is absent from one that was written twice.

use vstd::prelude::*;
use crate::text::text_eq;

verus! {

/// A JSON document held in memory.
#[derive(Debug, PartialEq, Eq)]
pub enum JsonValue {
    Null,
    Bool(bool),
    /// A number. No record of this API has a numeric field, so its value is not kept.
    Number,
    Text(String),
    Array(Vec<JsonValue>),
    /// The members of an object, in the order written.
    Object(Vec<(String, JsonValue)>),
}

/// The mathematical value of a [`JsonValue`].
pub enum Json {
    Null,
    Bool(bool),
    Number,
    Text(Seq<char>),
    Array(Seq<Json>),
    Object(Seq<(Seq<char>, Json)>),
}

/// The members of an object as the model has them.
pub open spec fn members_view(members: Seq<(String, JsonValue)>) -> Seq<(Seq<char>, Json)>
    decreases members,
{
    Seq::new(
        members.len(),
        |i: int|
            if 0 <= i < members.len() {
                (members[i].0@, members[i].1@)
            } else {
                (Seq::empty(), Json::Null)
            },
    )
}

/// The items of an array as the model has them.
pub open spec fn items_view(items: Seq<JsonValue>) -> Seq<Json>
    decreases items,
{
    Seq::new(
        items.len(),
        |i: int|
            if 0 <= i < items.len() {
                items[i]@
            } else {
                Json::Null
            },
    )
}

impl View for JsonValue {
    type V = Json;

    open spec fn view(&self) -> Json
        decreases self,
    {
        match self {
            JsonValue::Null => Json::Null,
            JsonValue::Bool(b) => Json::Bool(*b),
            JsonValue::Number => Json::Number,
            JsonValue::Text(s) => Json::Text(s@),
            JsonValue::Array(items) => Json::Array(items_view(items@)),
            JsonValue::Object(members) => Json::Object(members_view(members@)),
        }
    }
}

/// What a search of an object for one key comes to.
#[derive(Debug, PartialEq, Eq)]
pub enum Member<T> {
    /// No member has the key.
    Missing,
    /// Exactly one member has the key; this is its value.
    Unique(T),
    /// Two or more members have the key.
    Repeated,
}

/// Whether the member at position `i` exists and is written under `key`.
pub open spec fn key_at(members: Seq<(Seq<char>, Json)>, key: Seq<char>, i: int) -> bool {
    0 <= i < members.len() && members[i].0 == key
}

/// The member of an object that is written under `key`.
pub open spec fn member(members: Seq<(Seq<char>, Json)>, key: Seq<char>) -> Member<Json> {
    if forall|i: int| !key_at(members, key, i) {
        Member::Missing
    } else {
        let at = choose|i: int| key_at(members, key, i);
        if forall|j: int| key_at(members, key, j) ==> j == at {
            Member::Unique(members[at].1)
        } else {
            Member::Repeated
        }
    }
}

/// Searches the members of an object for `key`.
pub fn find_member<'a>(members: &'a Vec<(String, JsonValue)>, key: &str) -> (found: Member<
    &'a JsonValue,
>)
    ensures
        (match member(members_view(members@), key@) {
            Member::Missing => found is Missing,
            Member::Unique(value) => found matches Member::Unique(v) && v@ == value,
            Member::Repeated => found is Repeated,
        }),
{
    let ghost model = members_view(members@);
    let mut first: Option<usize> = None;
    let mut i: usize = 0;
    while i < members.len()
        invariant
            i <= members.len(),
            model == members_view(members@),
            first matches Some(j) ==> j < i && key_at(model, key@, j as int),
            forall|k: int| 0 <= k < i && key_at(model, key@, k) ==> first == Some(k as usize),
        decreases members.len() - i,
    {
        if text_eq(members[i].0.as_str(), key) {
            assert(key_at(model, key@, i as int));
            if let Some(j) = first {
                assert(key_at(model, key@, j as int));
                return Member::Repeated;
            }
            first = Some(i);
        }
        i += 1;
    }
    match first {
        None => Member::Missing,
        Some(j) => {
            assert(forall|k: int| key_at(model, key@, k) ==> k == j);
            Member::Unique(&members[j].1)
        },
    }
}

} // verus!
