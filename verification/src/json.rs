//! A JSON value as the library holds it, with its mathematical view and
//! the few operations the component needs.
use vstd::prelude::*;
use crate::text::{owned, same_text};

verus! {

/// A JSON value. Numbers are integers or, for the rest, the decimal text
/// of the number as `serde_json` writes it; objects keep their members in
/// the order given.
#[derive(Debug)]
pub enum JsonValue {
    Null,
    Bool(bool),
    Integer(i128),
    Float(String),
    Text(String),
    Array(Vec<JsonValue>),
    Object(Vec<(String, JsonValue)>),
}

/// The mathematical form of a JSON value: texts as character sequences.
pub enum JsonView {
    Null,
    Bool(bool),
    Integer(int),
    Float(Seq<char>),
    Text(Seq<char>),
    Array(Seq<JsonView>),
    Object(Seq<(Seq<char>, JsonView)>),
}

/// The view of a JSON value.
pub open spec fn json_view(v: JsonValue) -> JsonView
    decreases v,
{
    match v {
        JsonValue::Null => JsonView::Null,
        JsonValue::Bool(b) => JsonView::Bool(b),
        JsonValue::Integer(n) => JsonView::Integer(n as int),
        JsonValue::Float(t) => JsonView::Float(t@),
        JsonValue::Text(s) => JsonView::Text(s@),
        JsonValue::Array(items) => JsonView::Array(
            Seq::new(
                items@.len(),
                |i: int|
                    if 0 <= i < items@.len() {
                        json_view(items@[i])
                    } else {
                        JsonView::Null
                    },
            ),
        ),
        JsonValue::Object(members) => JsonView::Object(
            Seq::new(
                members@.len(),
                |i: int|
                    if 0 <= i < members@.len() {
                        (members@[i].0@, json_view(members@[i].1))
                    } else {
                        (Seq::<char>::empty(), JsonView::Null)
                    },
            ),
        ),
    }
}

impl View for JsonValue {
    type V = JsonView;

    open spec fn view(&self) -> JsonView {
        json_view(*self)
    }
}

/// The views of object members, in order.
pub open spec fn members_view(m: Seq<(String, JsonValue)>) -> Seq<(Seq<char>, JsonView)> {
    Seq::new(m.len(), |i: int| (m[i].0@, json_view(m[i].1)))
}

/// The value of the first member named `key` of an object; nothing for
/// any other value (as `serde_json::Value::get` with a string key).
pub open spec fn json_get(v: JsonView, key: Seq<char>) -> Option<JsonView> {
    match v {
        JsonView::Object(m) => member_for(m, key),
        _ => None,
    }
}

/// The value of the first member named `key`.
pub open spec fn member_for(m: Seq<(Seq<char>, JsonView)>, key: Seq<char>) -> Option<JsonView>
    decreases m.len(),
{
    if m.len() == 0 {
        None
    } else {
        match member_for(m.drop_last(), key) {
            Some(v) => Some(v),
            None => if m.last().0 == key {
                Some(m.last().1)
            } else {
                None
            },
        }
    }
}

/// The text of a value that is a JSON string.
pub open spec fn json_as_str(v: Option<JsonView>) -> Option<Seq<char>> {
    match v {
        Some(JsonView::Text(s)) => Some(s),
        _ => None,
    }
}

/// An object made of the given members.
pub fn object(members: Vec<(String, JsonValue)>) -> (v: JsonValue)
    ensures
        v@ == JsonView::Object(members_view(members@)),
{
    let ghost m = members@;
    let v = JsonValue::Object(members);
    assert(json_view(v) == JsonView::Object(members_view(m))) by {
        if let JsonView::Object(mv) = json_view(v) {
            assert(mv =~= members_view(m));
        }
    }
    v
}

/// The views of array items, in order.
pub open spec fn items_view(items: Seq<JsonValue>) -> Seq<JsonView> {
    Seq::new(items.len(), |i: int| json_view(items[i]))
}

/// An array of the given items.
pub fn array(items: Vec<JsonValue>) -> (v: JsonValue)
    ensures
        v@ == JsonView::Array(items_view(items@)),
{
    let ghost m = items@;
    let v = JsonValue::Array(items);
    assert(json_view(v) == JsonView::Array(items_view(m))) by {
        if let JsonView::Array(iv) = json_view(v) {
            assert(iv =~= items_view(m));
        }
    }
    v
}

/// A JSON string with the characters of `s`.
pub fn text(s: &str) -> (v: JsonValue)
    ensures
        v@ == JsonView::Text(s@),
{
    JsonValue::Text(owned(s))
}

/// A JSON string, or null when there is none.
pub fn text_or_null(s: Option<String>) -> (v: JsonValue)
    ensures
        v@ == match s {
            Some(t) => JsonView::Text(t@),
            None => JsonView::Null,
        },
{
    match s {
        Some(t) => JsonValue::Text(t),
        None => JsonValue::Null,
    }
}

/// Appends a member to a list of members.
pub fn add_member(members: &mut Vec<(String, JsonValue)>, key: &str, value: JsonValue)
    ensures
        members_view(final(members)@) == members_view(old(members)@).push((key@, value@)),
{
    let ghost before = members@;
    let ghost vv = value@;
    members.push((owned(key), value));
    assert(members_view(members@) =~= members_view(before).push((key@, vv)));
}

/// The value of the first member named `key` of an object.
pub fn get<'a>(v: &'a JsonValue, key: &str) -> (r: Option<&'a JsonValue>)
    ensures
        match r {
            Some(x) => json_get(v@, key@) == Some(x@),
            None => json_get(v@, key@) is None,
        },
{
    match v {
        JsonValue::Object(members) => {
            let ghost mv = members_view(members@);
            assert(v@ == JsonView::Object(mv)) by {
                if let JsonView::Object(m2) = json_view(*v) {
                    assert(m2 =~= mv);
                }
            }
            let mut i: usize = 0;
            while i < members.len()
                invariant
                    i <= members@.len(),
                    mv == members_view(members@),
                    json_get(v@, key@) == member_for(mv, key@),
                    member_for(mv.take(i as int), key@) is None,
                decreases members.len() - i,
            {
                assert(mv.take(i + 1).drop_last() =~= mv.take(i as int));
                assert(mv.take(i + 1).last() == mv[i as int]);
                if same_text(members[i].0.as_str(), key) {
                    proof {
                        lemma_member_found(mv, key@, i as int + 1);
                    }
                    return Some(&members[i].1);
                }
                i = i + 1;
            }
            assert(mv.take(i as int) =~= mv);
            None
        },
        _ => None,
    }
}

/// A member found among the first `n` is the first member with its name.
pub proof fn lemma_member_found(m: Seq<(Seq<char>, JsonView)>, key: Seq<char>, n: int)
    requires
        0 <= n <= m.len(),
        member_for(m.take(n), key) is Some,
    ensures
        member_for(m, key) == member_for(m.take(n), key),
    decreases m.len(),
{
    if n == m.len() {
        assert(m.take(n) =~= m);
    } else {
        assert(m.drop_last().take(n) =~= m.take(n));
        lemma_member_found(m.drop_last(), key, n);
    }
}

/// The text of a value that is a JSON string.
pub fn as_str(v: Option<&JsonValue>) -> (r: Option<&str>)
    ensures
        match r {
            Some(s) => json_as_str(match v {
                Some(x) => Some(x@),
                None => None,
            }) == Some(s@),
            None => json_as_str(match v {
                Some(x) => Some(x@),
                None => None,
            }) is None,
        },
{
    match v {
        Some(JsonValue::Text(s)) => Some(s.as_str()),
        _ => None,
    }
}

} // verus!
