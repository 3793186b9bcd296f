//! Helpers that lay out the JSON bodies of submitted flows.
use vstd::prelude::*;
use crate::json::{members_view, push_member, Json, JsonMember, JsonValue};

verus! {

/// `members`, followed by `key` with the text `value` when there is one.
pub open spec fn with_text(members: Seq<JsonMember>, key: Seq<char>, value: Option<Seq<char>>) -> Seq<JsonMember> {
    match value {
        Some(v) => members.push(JsonMember { key, value: JsonValue::Str(v) }),
        None => members,
    }
}

/// `members`, followed by `key` with the document `value` when there is one.
pub open spec fn with_doc(members: Seq<JsonMember>, key: Seq<char>, value: Option<JsonValue>) -> Seq<JsonMember> {
    match value {
        Some(v) => members.push(JsonMember { key, value: v }),
        None => members,
    }
}

/// The member `key` with the text `value`.
pub open spec fn text_member(key: Seq<char>, value: Seq<char>) -> JsonMember {
    JsonMember { key, value: JsonValue::Str(value) }
}

/// The value of an optional document.
pub open spec fn opt_doc_view(j: Option<Json>) -> Option<JsonValue> {
    match j {
        Some(d) => Some(d@),
        None => None,
    }
}

/// Appends `key` with the text `value`.
pub fn push_text(members: &mut Vec<(String, Json)>, key: &str, value: &str)
    ensures
        members_view(final(members)@) == members_view(old(members)@).push(text_member(key@, value@)),
{
    push_member(members, key, Json::Str(String::from_str(value)));
}

/// Appends `key` with the text `value`, when there is one; a missing value is
/// left out of the object.
pub fn push_opt_text(members: &mut Vec<(String, Json)>, key: &str, value: &Option<String>)
    ensures
        members_view(final(members)@) == with_text(members_view(old(members)@), key@, value.deep_view()),
{
    match value {
        Some(v) => push_text(members, key, v.as_str()),
        None => {},
    }
}

/// Appends `key` with the document `value`, when there is one.
pub fn push_opt_doc(members: &mut Vec<(String, Json)>, key: &str, value: Option<Json>)
    ensures
        members_view(final(members)@) == with_doc(members_view(old(members)@), key@, opt_doc_view(value)),
{
    match value {
        Some(v) => push_member(members, key, v),
        None => {},
    }
}

/// An object under construction, with no members yet.
pub fn no_members() -> (r: Vec<(String, Json)>)
    ensures
        members_view(r@) == Seq::<JsonMember>::empty(),
{
    let r: Vec<(String, Json)> = Vec::new();
    assert(members_view(r@) =~= Seq::<JsonMember>::empty());
    r
}

} // verus!
