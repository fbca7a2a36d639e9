//! Decoding of values that the browser engine returns from page evaluation.
//!
//! The engine wraps arrays as `{"__rustwright_cdp_array__": .., "items": [..]}` and
//! objects as `{"__rustwright_cdp_object__": .., "entries": {..}}`; decoding unwraps those
//! envelopes at every depth and leaves every other value as it is.
use vstd::prelude::*;

use crate::json::{
    find_member, has_member, json_view, lemma_items_view, lemma_member_index, lemma_members_view,
    member_index, items_view, members_view, JsonValue, JsonView,
};
use crate::text::str_equal;

verus! {

pub open spec fn array_marker() -> Seq<char> {
    "__rustwright_cdp_array__"@
}

pub open spec fn object_marker() -> Seq<char> {
    "__rustwright_cdp_object__"@
}

pub open spec fn items_key() -> Seq<char> {
    "items"@
}

pub open spec fn entries_key() -> Seq<char> {
    "entries"@
}

/// A value with every engine envelope unwrapped.
///
/// An object that carries the array marker and an array under `items` becomes that array
/// (decoded); otherwise `items` is dropped from it. An object that carries the object
/// marker and an object under `entries` becomes that object (decoded); otherwise
/// `entries` is dropped from it. Every other object keeps its members, each decoded.
pub open spec fn decode_runtime(v: JsonView) -> JsonView
    decreases v, 0nat,
{
    match v {
        JsonView::Array(items) => JsonView::Array(decode_items(items)),
        JsonView::Object(m) => {
            let array_env = has_member(m, array_marker());
            let object_env = has_member(m, object_marker());
            let ii = member_index(m, items_key());
            let ei = member_index(m, entries_key());
            if array_env && ii is Some && 0 <= ii->0 < m.len() && m[ii->0].1 is Array {
                JsonView::Array(decode_items(m[ii->0].1->Array_0))
            } else if object_env && ei is Some && 0 <= ei->0 < m.len() && m[ei->0].1 is Object {
                JsonView::Object(decode_members(m[ei->0].1->Object_0, false, false))
            } else {
                JsonView::Object(decode_members(m, array_env, object_env))
            }
        },
        other => other,
    }
}

/// Each value of `s` decoded.
pub open spec fn decode_items(s: Seq<JsonView>) -> Seq<JsonView>
    decreases s, s.len(),
{
    if s.len() == 0 {
        Seq::empty()
    } else {
        decode_items(s.subrange(0, s.len() - 1)).push(decode_runtime(s[s.len() - 1]))
    }
}

/// The members of `m` with their values decoded, without `items` when `drop_items` holds
/// and without `entries` when `drop_entries` holds.
pub open spec fn decode_members(
    m: Seq<(Seq<char>, JsonView)>,
    drop_items: bool,
    drop_entries: bool,
) -> Seq<(Seq<char>, JsonView)>
    decreases m, m.len(),
{
    if m.len() == 0 {
        Seq::empty()
    } else {
        let rest = decode_members(m.subrange(0, m.len() - 1), drop_items, drop_entries);
        let key = m[m.len() - 1].0;
        if (drop_items && key == items_key()) || (drop_entries && key == entries_key()) {
            rest
        } else {
            rest.push((key, decode_runtime(m[m.len() - 1].1)))
        }
    }
}

/// Decoding each value of a list keeps its length and its order.
pub proof fn lemma_decode_items(s: Seq<JsonView>)
    ensures
        decode_items(s).len() == s.len(),
        forall|i: int| 0 <= i < s.len() ==> #[trigger] decode_items(s)[i] == decode_runtime(s[i]),
    decreases s.len(),
{
    if s.len() > 0 {
        let p = s.subrange(0, s.len() - 1);
        lemma_decode_items(p);
        assert forall|i: int| 0 <= i < s.len() implies #[trigger] decode_items(s)[i]
            == decode_runtime(s[i]) by {
            if i < s.len() - 1 {
                assert(p[i] == s[i]);
            }
        }
    }
}

/// Decoding the members of an object without dropping any keeps every member, in order,
/// with its key, and decodes its value.
pub proof fn lemma_decode_members_keep(m: Seq<(Seq<char>, JsonView)>)
    ensures
        decode_members(m, false, false).len() == m.len(),
        forall|i: int|
            0 <= i < m.len() ==> #[trigger] decode_members(m, false, false)[i] == (
                m[i].0,
                decode_runtime(m[i].1),
            ),
    decreases m.len(),
{
    if m.len() > 0 {
        let p = m.subrange(0, m.len() - 1);
        lemma_decode_members_keep(p);
        assert forall|i: int| 0 <= i < m.len() implies #[trigger] decode_members(m, false, false)[i]
            == (m[i].0, decode_runtime(m[i].1)) by {
            if i < m.len() - 1 {
                assert(p[i] == m[i]);
            }
        }
    }
}

/// Decoding keeps every element and every member: an array stays an array of the same
/// length with each element decoded; an array envelope becomes its `items`, each decoded;
/// an object envelope becomes its `entries`, every one of them kept in order with its key
/// and its value decoded (whatever the keys, `items` and `entries` among them); and an
/// object without either marker keeps every member, each value decoded.
pub proof fn law_decoding_keeps_every_member(m: Seq<(Seq<char>, JsonView)>, items: Seq<JsonView>)
    ensures
        decode_runtime(JsonView::Array(items)) is Array,
        decode_runtime(JsonView::Array(items))->Array_0.len() == items.len(),
        forall|i: int|
            0 <= i < items.len() ==> decode_runtime(JsonView::Array(items))->Array_0[i]
                == decode_runtime(#[trigger] items[i]),
        has_member(m, array_marker()) && member_index(m, items_key()) is Some && m[member_index(
            m,
            items_key(),
        )->0].1 is Array ==> ({
            let a = m[member_index(m, items_key())->0].1->Array_0;
            let d = decode_runtime(JsonView::Object(m));
            &&& d is Array
            &&& d->Array_0.len() == a.len()
            &&& forall|i: int| 0 <= i < a.len() ==> d->Array_0[i] == decode_runtime(#[trigger] a[i])
        }),
        !(has_member(m, array_marker()) && member_index(m, items_key()) is Some && m[member_index(
            m,
            items_key(),
        )->0].1 is Array) && has_member(m, object_marker()) && member_index(m, entries_key())
            is Some && m[member_index(m, entries_key())->0].1 is Object ==> ({
            let e = m[member_index(m, entries_key())->0].1->Object_0;
            let d = decode_runtime(JsonView::Object(m));
            &&& d is Object
            &&& d->Object_0.len() == e.len()
            &&& forall|i: int|
                0 <= i < e.len() ==> d->Object_0[i].0 == e[i].0 && d->Object_0[i].1
                    == decode_runtime(#[trigger] e[i].1)
        }),
        !has_member(m, array_marker()) && !has_member(m, object_marker()) ==> ({
            let d = decode_runtime(JsonView::Object(m));
            &&& d is Object
            &&& d->Object_0.len() == m.len()
            &&& forall|i: int|
                0 <= i < m.len() ==> d->Object_0[i].0 == m[i].0 && d->Object_0[i].1
                    == decode_runtime(#[trigger] m[i].1)
        }),
{
    lemma_decode_items(items);
    lemma_member_index(m, items_key());
    lemma_member_index(m, entries_key());
    if member_index(m, items_key()) is Some {
        let k = member_index(m, items_key())->0;
        if m[k].1 is Array {
            lemma_decode_items(m[k].1->Array_0);
        }
    }
    if member_index(m, entries_key()) is Some {
        let k = member_index(m, entries_key())->0;
        if m[k].1 is Object {
            lemma_decode_members_keep(m[k].1->Object_0);
        }
    }
    lemma_decode_members_keep(m);
}

fn copy_string(s: &String) -> (r: String)
    ensures
        r@ == s@,
{
    s.clone()
}

fn decode_value(v: &JsonValue) -> (r: JsonValue)
    ensures
        r@ == decode_runtime(v@),
    decreases v,
{
    match v {
        JsonValue::Null => JsonValue::Null,
        JsonValue::Bool(b) => JsonValue::Bool(*b),
        JsonValue::Number(n) => JsonValue::Number(*n),
        JsonValue::Str(s) => JsonValue::Str(copy_string(s)),
        JsonValue::Array(items) => JsonValue::Array(decode_vec(items)),
        JsonValue::Object(members) => {
            let ghost m = members_view(members@);
            proof {
                lemma_members_view(members@);
                lemma_member_index(m, items_key());
                lemma_member_index(m, entries_key());
            }
            assert(v@ == JsonView::Object(m));
            let array_env = find_member(members, "__rustwright_cdp_array__").is_some();
            let object_env = find_member(members, "__rustwright_cdp_object__").is_some();
            let items_at = find_member(members, "items");
            let entries_at = find_member(members, "entries");
            assert(items_at matches Some(k) ==> member_index(m, items_key()) == Some(k as int));
            assert(items_at is None ==> member_index(m, items_key()) is None);
            assert(entries_at matches Some(k) ==> member_index(m, entries_key()) == Some(k as int));
            assert(entries_at is None ==> member_index(m, entries_key()) is None);
            let mut unwrapped_array: Option<&Vec<JsonValue>> = None;
            if array_env {
                if let Some(k) = items_at {
                    if let JsonValue::Array(items) = &members[k].1 {
                        assert(m[k as int].1 == JsonView::Array(items_view(items@)));
                        unwrapped_array = Some(items);
                    }
                }
            }
            assert(unwrapped_array is None ==> !(array_env && member_index(m, items_key()) is Some
                && m[member_index(m, items_key())->0].1 is Array));
            if let Some(items) = unwrapped_array {
                assert(decode_runtime(v@) == JsonView::Array(decode_items(items_view(items@))));
                return JsonValue::Array(decode_vec(items));
            }
            let mut unwrapped_object: Option<&Vec<(String, JsonValue)>> = None;
            if object_env {
                if let Some(k) = entries_at {
                    if let JsonValue::Object(inner) = &members[k].1 {
                        assert(m[k as int].1 == JsonView::Object(members_view(inner@)));
                        unwrapped_object = Some(inner);
                    }
                }
            }
            assert(unwrapped_object is None ==> !(object_env && member_index(m, entries_key()) is Some
                && m[member_index(m, entries_key())->0].1 is Object));
            if let Some(inner) = unwrapped_object {
                assert(decode_runtime(v@) == JsonView::Object(
                    decode_members(members_view(inner@), false, false),
                ));
                return JsonValue::Object(decode_member_vec(inner, false, false));
            }
            assert(decode_runtime(v@) == JsonView::Object(
                decode_members(m, array_env, object_env),
            ));
            JsonValue::Object(decode_member_vec(members, array_env, object_env))
        },
    }
}

fn decode_vec(items: &Vec<JsonValue>) -> (r: Vec<JsonValue>)
    ensures
        items_view(r@) == decode_items(items_view(items@)),
    decreases items,
{
    let ghost s = items_view(items@);
    proof {
        lemma_items_view(items@);
    }
    let mut out: Vec<JsonValue> = Vec::new();
    let mut i: usize = 0;
    while i < items.len()
        invariant
            i <= items.len(),
            s == items_view(items@),
            s.len() == items.len(),
            forall|j: int| 0 <= j < items@.len() ==> #[trigger] s[j] == json_view(items@[j]),
            items_view(out@) == decode_items(s.subrange(0, i as int)),
        decreases items.len() - i,
    {
        let d = decode_value(&items[i]);
        let ghost before = out@;
        out.push(d);
        proof {
            assert(out@.subrange(0, out@.len() - 1) == before);
            assert(s.subrange(0, i + 1).subrange(0, i as int) == s.subrange(0, i as int));
            assert(s.subrange(0, i + 1)[i as int] == s[i as int]);
        }
        i = i + 1;
    }
    assert(s.subrange(0, items.len() as int) == s);
    out
}

fn decode_member_vec(members: &Vec<(String, JsonValue)>, drop_items: bool, drop_entries: bool) -> (r:
    Vec<(String, JsonValue)>)
    ensures
        members_view(r@) == decode_members(members_view(members@), drop_items, drop_entries),
    decreases members,
{
    let ghost s = members_view(members@);
    proof {
        lemma_members_view(members@);
    }
    let mut out: Vec<(String, JsonValue)> = Vec::new();
    let mut i: usize = 0;
    while i < members.len()
        invariant
            i <= members.len(),
            s == members_view(members@),
            s.len() == members.len(),
            forall|j: int|
                0 <= j < members@.len() ==> #[trigger] s[j] == (members@[j].0@, json_view(
                    members@[j].1,
                )),
            members_view(out@) == decode_members(s.subrange(0, i as int), drop_items, drop_entries),
        decreases members.len() - i,
    {
        let key = &members[i].0;
        let ghost before = out@;
        proof {
            assert(s.subrange(0, i + 1).subrange(0, i as int) == s.subrange(0, i as int));
            assert(s.subrange(0, i + 1)[i as int] == s[i as int]);
        }
        let skip = (drop_items && str_equal(key.as_str(), "items")) || (drop_entries && str_equal(
            key.as_str(),
            "entries",
        ));
        if !skip {
            let d = decode_value(&members[i].1);
            out.push((copy_string(key), d));
            proof {
                assert(out@.subrange(0, out@.len() - 1) == before);
            }
        }
        i = i + 1;
    }
    assert(s.subrange(0, members.len() as int) == s);
    out
}

/// Unwraps the engine's array and object envelopes at every depth of `value`.
pub fn decode_runtime_value(value: JsonValue) -> (r: JsonValue)
    ensures
        r@ == decode_runtime(value@),
{
    decode_value(&value)
}

} // verus!
