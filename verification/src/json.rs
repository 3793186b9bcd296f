//! A JSON document model: the values that flow between this service and Kratos.
//!
//! Numbers keep their textual form, so that every document round-trips.
use vstd::prelude::*;
use crate::text::{chars_of, text_eq};

verus! {

broadcast use vstd::string::group_string_axioms;

/// A JSON document.
#[derive(Debug, PartialEq)]
pub enum Json {
    Null,
    Bool(bool),
    /// A number, in the decimal notation in which it was written.
    Number(String),
    Str(String),
    Array(Vec<Json>),
    /// The members of an object, in order; a lookup finds the first member with its key.
    Object(Vec<(String, Json)>),
}

/// The mathematical value of a JSON document.
pub enum JsonValue {
    Null,
    Bool(bool),
    Number(Seq<char>),
    Str(Seq<char>),
    Array(Seq<JsonValue>),
    Object(Seq<JsonMember>),
}

/// The value of an object member.
pub struct JsonMember {
    pub key: Seq<char>,
    pub value: JsonValue,
}

impl View for Json {
    type V = JsonValue;

    open spec fn view(&self) -> JsonValue
        decreases self,
    {
        match self {
            Json::Null => JsonValue::Null,
            Json::Bool(b) => JsonValue::Bool(*b),
            Json::Number(n) => JsonValue::Number(n@),
            Json::Str(s) => JsonValue::Str(s@),
            Json::Array(items) => JsonValue::Array(
                Seq::new(
                    items@.len(),
                    |i: int|
                        if 0 <= i < items@.len() {
                            items@[i]@
                        } else {
                            JsonValue::Null
                        },
                ),
            ),
            Json::Object(members) => JsonValue::Object(
                Seq::new(
                    members@.len(),
                    |i: int|
                        if 0 <= i < members@.len() {
                            JsonMember { key: members@[i].0@, value: members@[i].1@ }
                        } else {
                            JsonMember { key: Seq::empty(), value: JsonValue::Null }
                        },
                ),
            ),
        }
    }
}

/// The values of a sequence of documents.
pub open spec fn items_view(items: Seq<Json>) -> Seq<JsonValue> {
    Seq::new(items.len(), |i: int| items[i]@)
}

/// The values of a sequence of object members.
pub open spec fn members_view(members: Seq<(String, Json)>) -> Seq<JsonMember> {
    Seq::new(members.len(), |i: int| JsonMember { key: members[i].0@, value: members[i].1@ })
}

/// The value of an optional document.
pub open spec fn opt_view(j: Option<&Json>) -> Option<JsonValue> {
    match j {
        Some(x) => Some(x@),
        None => None,
    }
}

/// The value that the first member named `key` holds.
pub open spec fn lookup(members: Seq<JsonMember>, key: Seq<char>) -> Option<JsonValue>
    decreases members.len(),
{
    if members.len() == 0 {
        None
    } else if members[0].key == key {
        Some(members[0].value)
    } else {
        lookup(members.drop_first(), key)
    }
}

/// A member appended to an object is found by its key only when no earlier
/// member has that key.
pub proof fn lemma_lookup_push(members: Seq<JsonMember>, m: JsonMember, key: Seq<char>)
    ensures
        lookup(members.push(m), key) == match lookup(members, key) {
            Some(v) => Some(v),
            None => if m.key == key { Some(m.value) } else { None },
        },
    decreases members.len(),
{
    if members.len() == 0 {
        assert(members.push(m).drop_first() =~= Seq::<JsonMember>::empty());
    } else {
        assert(members.push(m).drop_first() =~= members.drop_first().push(m));
        lemma_lookup_push(members.drop_first(), m, key);
    }
}

/// The string document of a text, when there is one.
pub open spec fn text_value(t: Option<Seq<char>>) -> Option<JsonValue> {
    match t {
        Some(s) => Some(JsonValue::Str(s)),
        None => None,
    }
}

/// `j[key]`: the member `key` of an object; nothing for a missing member, a
/// missing document or a document that is not an object.
pub open spec fn member(j: Option<JsonValue>, key: Seq<char>) -> Option<JsonValue> {
    match j {
        Some(JsonValue::Object(members)) => lookup(members, key),
        _ => None,
    }
}

/// The text of a string document.
pub open spec fn text_of(j: Option<JsonValue>) -> Option<Seq<char>> {
    match j {
        Some(JsonValue::Str(s)) => Some(s),
        _ => None,
    }
}

/// The value of a boolean document.
pub open spec fn bool_of(j: Option<JsonValue>) -> Option<bool> {
    match j {
        Some(JsonValue::Bool(b)) => Some(b),
        _ => None,
    }
}

/// The elements of an array document.
pub open spec fn items_of(j: Option<JsonValue>) -> Option<Seq<JsonValue>> {
    match j {
        Some(JsonValue::Array(items)) => Some(items),
        _ => None,
    }
}

/// The value of a decimal digit.
pub open spec fn digit_value(c: char) -> nat {
    (c as nat - '0' as nat) as nat
}

pub open spec fn is_digit(c: char) -> bool {
    '0' <= c <= '9'
}

/// The number that a string of decimal digits denotes.
pub open spec fn digits_value(s: Seq<char>) -> nat
    decreases s.len(),
{
    if s.len() == 0 {
        0
    } else {
        digits_value(s.drop_last()) * 10 + digit_value(s.last())
    }
}

/// The unsigned 64-bit integer that a number document denotes, when it is one.
pub open spec fn u64_of(j: Option<JsonValue>) -> Option<u64> {
    match j {
        Some(JsonValue::Number(n)) => if n.len() > 0 && (forall|i: int| 0 <= i < n.len() ==> is_digit(#[trigger] n[i]))
            && digits_value(n) <= u64::MAX {
            Some(digits_value(n) as u64)
        } else {
            None
        },
        _ => None,
    }
}

pub proof fn lemma_object_view(ms: Vec<(String, Json)>)
    ensures
        Json::Object(ms)@ == JsonValue::Object(members_view(ms@)),
{
    let j = Json::Object(ms);
    let v = j.view();
    let m = match v {
        JsonValue::Object(m) => m,
        _ => Seq::empty(),
    };
    assert(m.len() == ms@.len());
    assert forall|i: int| 0 <= i < m.len() implies m[i] == members_view(ms@)[i] by {}
    assert(members_view(ms@) =~= m);
}

pub proof fn lemma_array_view(items: Vec<Json>)
    ensures
        Json::Array(items)@ == JsonValue::Array(items_view(items@)),
{
    let j = Json::Array(items);
    let v = j.view();
    let m = match v {
        JsonValue::Array(m) => m,
        _ => Seq::empty(),
    };
    assert(m.len() == items@.len());
    assert forall|i: int| 0 <= i < m.len() implies m[i] == items_view(items@)[i] by {}
    assert(items_view(items@) =~= m);
}

impl Json {
    /// `self[key]` for an object; nothing otherwise.
    pub fn get(&self, key: &str) -> (r: Option<&Json>)
        ensures
            opt_view(r) == member(Some(self@), key@),
    {
        match self {
            Json::Object(members) => {
                proof {
                    lemma_object_view(*members);
                }
                let ghost mv = members_view(members@);
                assert(self@ == JsonValue::Object(mv));
                let mut i: usize = 0;
                assert(mv.skip(0) =~= mv);
                while i < members.len()
                    invariant
                        i <= members@.len(),
                        mv == members_view(members@),
                        self@ == JsonValue::Object(mv),
                        lookup(mv, key@) == lookup(mv.skip(i as int), key@),
                    decreases members@.len() - i,
                {
                    assert(mv.skip(i as int).drop_first() =~= mv.skip(i + 1));
                    assert(mv.skip(i as int)[0] == mv[i as int]);
                    assert(mv[i as int].value == members@[i as int].1@);
                    assert(mv[i as int].key == members@[i as int].0@);
                    if text_eq(members[i].0.as_str(), key) {
                        return Some(&members[i].1);
                    }
                    i = i + 1;
                }
                None
            },
            _ => None,
        }
    }

    /// The text of a string document.
    pub fn as_str(&self) -> (r: Option<&String>)
        ensures
            r.deep_view() == text_of(Some(self@)),
    {
        match self {
            Json::Str(s) => Some(s),
            _ => None,
        }
    }

    /// The value of a boolean document.
    pub fn as_bool(&self) -> (r: Option<bool>)
        ensures
            r == bool_of(Some(self@)),
    {
        match self {
            Json::Bool(b) => Some(*b),
            _ => None,
        }
    }

    /// The elements of an array document.
    pub fn as_array(&self) -> (r: Option<&Vec<Json>>)
        ensures
            r matches Some(v) ==> items_of(Some(self@)) == Some(items_view(v@)),
            r is None ==> items_of(Some(self@)) is None,
    {
        match self {
            Json::Array(items) => {
                proof {
                    lemma_array_view(*items);
                }
                Some(items)
            },
            _ => None,
        }
    }

    /// The unsigned integer that a number document denotes, when it is one.
    pub fn as_u64(&self) -> (r: Option<u64>)
        ensures
            r == u64_of(Some(self@)),
    {
        match self {
            Json::Number(n) => parse_u64(n.as_str()),
            _ => None,
        }
    }
}

/// Appends the member `key: value` to the members of an object under construction.
pub fn push_member(members: &mut Vec<(String, Json)>, key: &str, value: Json)
    ensures
        members_view(final(members)@) == members_view(old(members)@).push(
            JsonMember { key: key@, value: value@ },
        ),
{
    let ghost before = members_view(members@);
    members.push((String::from_str(key), value));
    assert(members_view(members@) =~= before.push(JsonMember { key: key@, value: value@ }));
}

/// An object with the given members.
pub fn object(members: Vec<(String, Json)>) -> (r: Json)
    ensures
        r@ == JsonValue::Object(members_view(members@)),
{
    proof {
        lemma_object_view(members);
    }
    Json::Object(members)
}

/// An object with one member.
pub fn object1(key: &str, value: Json) -> (r: Json)
    ensures
        r@ == JsonValue::Object(seq![JsonMember { key: key@, value: value@ }]),
{
    let mut members: Vec<(String, Json)> = Vec::new();
    proof {
        assert(members_view(members@) =~= Seq::<JsonMember>::empty());
    }
    push_member(&mut members, key, value);
    proof {
        assert(members_view(members@) =~= seq![JsonMember { key: key@, value: value@ }]);
    }
    object(members)
}

/// `j[key]`, where a missing document has no members.
pub fn member_of<'a>(j: Option<&'a Json>, key: &str) -> (r: Option<&'a Json>)
    ensures
        opt_view(r) == member(opt_view(j), key@),
{
    match j {
        Some(x) => x.get(key),
        None => None,
    }
}

/// A copy of the text of a string document.
pub fn text_in(j: Option<&Json>) -> (r: Option<String>)
    ensures
        r.deep_view() == text_of(opt_view(j)),
{
    match j {
        Some(x) => match x.as_str() {
            Some(s) => Some(s.clone()),
            None => None,
        },
        None => None,
    }
}

/// The value of a boolean document.
pub fn bool_in(j: Option<&Json>) -> (r: Option<bool>)
    ensures
        r == bool_of(opt_view(j)),
{
    match j {
        Some(x) => x.as_bool(),
        None => None,
    }
}

/// The unsigned integer that a number document denotes.
pub fn u64_in(j: Option<&Json>) -> (r: Option<u64>)
    ensures
        r == u64_of(opt_view(j)),
{
    match j {
        Some(x) => x.as_u64(),
        None => None,
    }
}

proof fn lemma_digits_value_push(s: Seq<char>, c: char)
    ensures
        digits_value(s.push(c)) == digits_value(s) * 10 + digit_value(c),
{
    assert(s.push(c).drop_last() =~= s);
}

/// The unsigned integer that a string of decimal digits denotes.
fn parse_u64(text: &str) -> (r: Option<u64>)
    ensures
        r == u64_of(Some(JsonValue::Number(text@))),
{
    let cs = chars_of(text);
    if cs.len() == 0 {
        return None;
    }
    let mut value: u64 = 0;
    let mut i: usize = 0;
    while i < cs.len()
        invariant
            cs@ == text@,
            i <= cs@.len(),
            forall|k: int| 0 <= k < i ==> is_digit(#[trigger] cs@[k]),
            value as nat == digits_value(cs@.take(i as int)),
        decreases cs@.len() - i,
    {
        let c = cs[i];
        if !('0' <= c && c <= '9') {
            return None;
        }
        let d: u64 = (c as u32 - '0' as u32) as u64;
        proof {
            lemma_digits_value_push(cs@.take(i as int), c);
            assert(cs@.take(i as int).push(c) =~= cs@.take(i + 1));
        }
        if value > (u64::MAX - d) / 10 {
            proof {
                assert(value * 10 + d > u64::MAX) by (nonlinear_arith)
                    requires
                        value > (u64::MAX - d) / 10,
                        d <= 9,
                ;
                lemma_digits_value_monotone(cs@, i as int + 1);
            }
            return None;
        }
        value = value * 10 + d;
        i = i + 1;
    }
    assert(cs@.take(cs@.len() as int) =~= cs@);
    Some(value)
}

/// Extending a string of digits never lowers its value.
proof fn lemma_digits_value_monotone(s: Seq<char>, k: int)
    requires
        0 <= k <= s.len(),
    ensures
        digits_value(s.take(k)) <= digits_value(s),
    decreases s.len() - k,
{
    if k < s.len() {
        lemma_digits_value_monotone(s, k + 1);
        lemma_digits_value_push(s.take(k), s[k]);
        assert(s.take(k).push(s[k]) =~= s.take(k + 1));
    } else {
        assert(s.take(k) =~= s);
    }
}

} // verus!
