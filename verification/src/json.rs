//! A plain JSON value, as the crate's logic reads it, with its mathematical view.
//!
//! Objects keep their members in order as a list of `(key, value)` pairs; values that
//! come from a parsed document have distinct keys.
use vstd::prelude::*;

use serde_json::Value;

use crate::text::str_equal;

verus! {

/// A JSON number, kept in the three forms a parsed document distinguishes.
#[derive(Clone, Copy, Debug, PartialEq)]
pub enum JsonNumber {
    /// A non-negative integer.
    PosInt(u64),
    /// A negative integer.
    NegInt(i64),
    /// A number with a fraction or exponent, held as its IEEE-754 binary64 bit pattern.
    FloatBits(u64),
}

/// A JSON value.
#[derive(Debug, PartialEq)]
pub enum JsonValue {
    Null,
    Bool(bool),
    Number(JsonNumber),
    Str(String),
    Array(Vec<JsonValue>),
    Object(Vec<(String, JsonValue)>),
}

/// The mathematical form of a [`JsonValue`].
pub enum JsonView {
    Null,
    Bool(bool),
    Number(JsonNumber),
    Str(Seq<char>),
    Array(Seq<JsonView>),
    Object(Seq<(Seq<char>, JsonView)>),
}

/// The view of one value.
pub open spec fn json_view(v: JsonValue) -> JsonView
    decreases v, 0nat,
{
    match v {
        JsonValue::Null => JsonView::Null,
        JsonValue::Bool(b) => JsonView::Bool(b),
        JsonValue::Number(n) => JsonView::Number(n),
        JsonValue::Str(s) => JsonView::Str(s@),
        JsonValue::Array(items) => JsonView::Array(items_view(items@)),
        JsonValue::Object(members) => JsonView::Object(members_view(members@)),
    }
}

/// The views of a list of values.
pub open spec fn items_view(s: Seq<JsonValue>) -> Seq<JsonView>
    decreases s, s.len(),
{
    if s.len() == 0 {
        Seq::empty()
    } else {
        items_view(s.subrange(0, s.len() - 1)).push(json_view(s[s.len() - 1]))
    }
}

/// The views of a list of object members.
pub open spec fn members_view(s: Seq<(String, JsonValue)>) -> Seq<(Seq<char>, JsonView)>
    decreases s, s.len(),
{
    if s.len() == 0 {
        Seq::empty()
    } else {
        members_view(s.subrange(0, s.len() - 1)).push(
            (s[s.len() - 1].0@, json_view(s[s.len() - 1].1)),
        )
    }
}

impl View for JsonValue {
    type V = JsonView;

    open spec fn view(&self) -> JsonView {
        json_view(*self)
    }
}

/// The view of a list of values is the list of their views.
pub proof fn lemma_items_view(s: Seq<JsonValue>)
    ensures
        items_view(s).len() == s.len(),
        forall|i: int| 0 <= i < s.len() ==> #[trigger] items_view(s)[i] == json_view(s[i]),
    decreases s.len(),
{
    if s.len() > 0 {
        let p = s.subrange(0, s.len() - 1);
        lemma_items_view(p);
        assert forall|i: int| 0 <= i < s.len() implies #[trigger] items_view(s)[i] == json_view(
            s[i],
        ) by {
            if i < s.len() - 1 {
                assert(p[i] == s[i]);
            }
        }
    }
}

/// The view of a list of members is the list of their keys' and values' views.
pub proof fn lemma_members_view(s: Seq<(String, JsonValue)>)
    ensures
        members_view(s).len() == s.len(),
        forall|i: int|
            0 <= i < s.len() ==> #[trigger] members_view(s)[i] == (s[i].0@, json_view(s[i].1)),
    decreases s.len(),
{
    if s.len() > 0 {
        let p = s.subrange(0, s.len() - 1);
        lemma_members_view(p);
        assert forall|i: int| 0 <= i < s.len() implies #[trigger] members_view(s)[i] == (
            s[i].0@,
            json_view(s[i].1),
        ) by {
            if i < s.len() - 1 {
                assert(p[i] == s[i]);
            }
        }
    }
}

/// The index of the first member of `members` whose key is `key`, if any.
pub open spec fn member_index(members: Seq<(Seq<char>, JsonView)>, key: Seq<char>) -> Option<int>
    decreases members.len(),
{
    if members.len() == 0 {
        None
    } else {
        match member_index(members.drop_last(), key) {
            Some(i) => Some(i),
            None => if members.last().0 == key {
                Some(members.len() - 1)
            } else {
                None
            },
        }
    }
}

/// `member_index` finds the first member with the key, or says that none has it.
pub proof fn lemma_member_index(members: Seq<(Seq<char>, JsonView)>, key: Seq<char>)
    ensures
        member_index(members, key) matches Some(i) ==> 0 <= i < members.len() && members[i].0
            == key && forall|j: int| 0 <= j < i ==> members[j].0 != key,
        member_index(members, key) is None ==> forall|j: int|
            0 <= j < members.len() ==> members[j].0 != key,
    decreases members.len(),
{
    if members.len() > 0 {
        let p = members.drop_last();
        lemma_member_index(p, key);
        assert forall|j: int| 0 <= j < p.len() implies p[j] == members[j] by {}
    }
}

/// In members with distinct keys, the member with the key of member `i` is member `i`.
pub proof fn lemma_member_index_distinct(members: Seq<(Seq<char>, JsonView)>, i: int)
    requires
        0 <= i < members.len(),
        forall|a: int, b: int| 0 <= a < b < members.len() ==> members[a].0 != members[b].0,
    ensures
        member_index(members, members[i].0) == Some(i),
{
    lemma_member_index(members, members[i].0);
    match member_index(members, members[i].0) {
        Some(k) => {
            if k < i {
                assert(members[k].0 != members[i].0);
            } else if k > i {
                assert(members[i].0 != members[k].0);
            }
        },
        None => {},
    }
}

/// Whether some member of `members` has the key `key`.
pub open spec fn has_member(members: Seq<(Seq<char>, JsonView)>, key: Seq<char>) -> bool {
    exists|j: int| 0 <= j < members.len() && members[j].0 == key
}

/// Finds the first member of `members` whose key is `key`.
pub fn find_member(members: &Vec<(String, JsonValue)>, key: &str) -> (r: Option<usize>)
    ensures
        r matches Some(i) ==> member_index(members_view(members@), key@) == Some(i as int),
        r is None ==> member_index(members_view(members@), key@) is None,
        r is None <==> !has_member(members_view(members@), key@),
{
    let ghost mv = members_view(members@);
    proof {
        lemma_members_view(members@);
        lemma_member_index(mv, key@);
    }
    let mut i: usize = 0;
    while i < members.len()
        invariant
            i <= members.len(),
            mv == members_view(members@),
            mv.len() == members.len(),
            forall|j: int| 0 <= j < i ==> mv[j].0 != key@,
            forall|j: int|
                0 <= j < members@.len() ==> #[trigger] mv[j] == (members@[j].0@, json_view(
                    members@[j].1,
                )),
            member_index(mv, key@) matches Some(k) ==> 0 <= k < mv.len() && mv[k].0 == key@
                && forall|j: int| 0 <= j < k ==> mv[j].0 != key@,
            member_index(mv, key@) is None ==> forall|j: int| 0 <= j < mv.len() ==> mv[j].0 != key@,
        decreases members.len() - i,
    {
        if str_equal(members[i].0.as_str(), key) {
            assert(mv[i as int].0 == key@);
            assert(member_index(mv, key@) == Some(i as int)) by {
                match member_index(mv, key@) {
                    Some(k) => {
                        if k < i {
                            assert(mv[k].0 != key@);
                        } else if k > i {
                            assert(mv[i as int].0 != key@);
                        }
                    },
                    None => {
                        assert(mv[i as int].0 != key@);
                    },
                }
            }
            return Some(i);
        }
        i = i + 1;
    }
    None
}

#[verifier::external_type_specification]
#[verifier::external_body]
pub struct ExSerdeValue(serde_json::Value);

/// The JSON document that `text` holds, as `serde_json::from_str` reads it into a
/// `serde_json::Value`, in the library's form; `None` when `text` is not one JSON document.
pub uninterp spec fn json_document(text: Seq<char>) -> Option<JsonView>;

/// Calls `serde_json::from_str::<serde_json::Value>` and converts what it read into the
/// library's form with [`json_from_serde`].
#[verifier::external_body]
pub fn parse_json_document(text: &str) -> (r: Option<JsonValue>)
    ensures
        match r {
            Some(v) => json_document(text@) == Some(v@),
            None => json_document(text@) is None,
        },
{
    serde_json::from_str::<Value>(text).ok().map(json_from_serde)
}

/// The conversion that [`parse_json_document`] applies: each `serde_json::Value` variant
/// becomes the library's variant of the same name, with its parts converted in turn. A
/// number becomes the form that `serde_json` holds it in (a non-negative integer, a
/// negative integer, or a binary64 value by its bit pattern).
#[verifier::external_body]
fn json_from_serde(value: Value) -> JsonValue {
    match value {
        Value::Null => JsonValue::Null,
        Value::Bool(b) => JsonValue::Bool(b),
        Value::Number(n) => JsonValue::Number(match (n.as_u64(), n.as_i64()) {
            (Some(u), _) => JsonNumber::PosInt(u),
            (_, Some(i)) => JsonNumber::NegInt(i),
            _ => JsonNumber::FloatBits(n.as_f64().map_or(0, |x| x.to_bits())),
        }),
        Value::String(text) => JsonValue::Str(text),
        Value::Array(items) => JsonValue::Array(items.into_iter().map(json_from_serde).collect()),
        Value::Object(members) => JsonValue::Object(
            members.into_iter().map(|(key, item)| (key, json_from_serde(item))).collect(),
        ),
    }
}

} // verus!
