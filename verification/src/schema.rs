//! Building the JSON Schema documents with which the tools describe their
//! arguments.

use vstd::prelude::*;
use crate::json::{json_str, json_view, Json, JsonValue};
use crate::text::to_owned_string;

verus! {

/// The model of an object's members.
pub open spec fn members(v: Seq<(String, JsonValue)>) -> Seq<(Seq<char>, Json)> {
    Seq::new(v.len(), |i: int| (v[i].0@, json_view(v[i].1)))
}

/// The views of string slices.
pub open spec fn str_views(s: Seq<&str>) -> Seq<Seq<char>> {
    Seq::new(s.len(), |i: int| s[i]@)
}

/// An array of strings.
pub open spec fn strs(v: Seq<Seq<char>>) -> Json {
    Json::Array(Seq::new(v.len(), |i: int| Json::Str(v[i])))
}

/// `{"type": t}`.
pub open spec fn typed(t: Seq<char>) -> Json {
    Json::Object(seq![("type"@, Json::Str(t))])
}

/// `{"type": t, "description": d}`.
pub open spec fn described(t: Seq<char>, d: Seq<char>) -> Json {
    Json::Object(seq![("type"@, Json::Str(t)), ("description"@, Json::Str(d))])
}

/// `{"type": "array", "items": {"type": "string"}}`, with a description
/// when one is given.
pub open spec fn string_list(d: Option<Seq<char>>) -> Json {
    let base = seq![("type"@, Json::Str("array"@)), ("items"@, typed("string"@))];
    match d {
        Some(text) => Json::Object(base.push(("description"@, Json::Str(text)))),
        None => Json::Object(base),
    }
}

/// An object schema with these properties, these required names (the
/// `required` key only when there are some), and no other properties.
pub open spec fn object_schema(props: Seq<(Seq<char>, Json)>, required: Seq<Seq<char>>) -> Json {
    let head = seq![("type"@, Json::Str("object"@)), ("properties"@, Json::Object(props))];
    if required.len() == 0 {
        Json::Object(head.push(("additionalProperties"@, Json::Bool(false))))
    } else {
        Json::Object(
            head.push(("required"@, strs(required))).push(("additionalProperties"@, Json::Bool(false))),
        )
    }
}

/// No members yet.
pub fn new_members() -> (r: Vec<(String, JsonValue)>)
    ensures
        members(r@) == Seq::<(Seq<char>, Json)>::empty(),
{
    let r: Vec<(String, JsonValue)> = Vec::new();
    assert(members(r@) =~= Seq::<(Seq<char>, Json)>::empty());
    r
}

/// Append member `k: j`.
pub fn push_member(v: &mut Vec<(String, JsonValue)>, k: &str, j: JsonValue)
    ensures
        members(final(v)@) == members(old(v)@).push((k@, j@)),
{
    let ghost jv = j@;
    v.push((to_owned_string(k), j));
    assert(members(v@) =~= members(old(v)@).push((k@, jv)));
}

/// An object with these members.
pub fn object(v: Vec<(String, JsonValue)>) -> (r: JsonValue)
    ensures
        r@ == Json::Object(members(v@)),
{
    let ghost m = members(v@);
    let r = JsonValue::Object(v);
    proof {
        assert forall|k: int| 0 <= k < m.len() implies #[trigger] r@->Object_0[k] == m[k] by {
        }
        assert(r@->Object_0 =~= m);
    }
    r
}

/// An array of the strings `items`.
pub fn string_array(items: &[&str]) -> (r: JsonValue)
    ensures
        r@ == strs(str_views(items@)),
{
    let mut out: Vec<JsonValue> = Vec::new();
    let mut i: usize = 0;
    while i < items.len()
        invariant
            i <= items@.len(),
            out@.len() == i,
            forall|k: int| 0 <= k < i ==> #[trigger] json_view(out@[k]) == Json::Str(items@[k]@),
        decreases items.len() - i,
    {
        out.push(json_str(items[i]));
        i = i + 1;
    }
    let r = JsonValue::Array(out);
    proof {
        assert forall|k: int| 0 <= k < out@.len() implies #[trigger] r@->Array_0[k] == strs(
            str_views(items@),
        )->Array_0[k] by {
            assert(r@->Array_0[k] == json_view(out@[k]));
        }
        assert(r@->Array_0 =~= strs(str_views(items@))->Array_0);
    }
    r
}

/// `{"type": t}`.
pub fn typed_field(t: &str) -> (r: JsonValue)
    ensures
        r@ == typed(t@),
{
    let mut m = new_members();
    push_member(&mut m, "type", json_str(t));
    object(m)
}

/// `{"type": t, "description": d}`.
pub fn described_field(t: &str, d: &str) -> (r: JsonValue)
    ensures
        r@ == described(t@, d@),
{
    let mut m = new_members();
    push_member(&mut m, "type", json_str(t));
    push_member(&mut m, "description", json_str(d));
    assert(members(m@) =~= described(t@, d@)->Object_0);
    object(m)
}

/// A list of strings, optionally described.
pub fn string_list_field(d: Option<&str>) -> (r: JsonValue)
    ensures
        r@ == string_list(crate::text::opt_str(d)),
{
    let mut m = new_members();
    push_member(&mut m, "type", json_str("array"));
    push_member(&mut m, "items", typed_field("string"));
    match d {
        Some(text) => push_member(&mut m, "description", json_str(text)),
        None => {},
    }
    assert(members(m@) =~= string_list(crate::text::opt_str(d))->Object_0);
    object(m)
}

/// An object schema (see `object_schema`).
pub fn object_schema_value(props: Vec<(String, JsonValue)>, required: &[&str]) -> (r: JsonValue)
    ensures
        r@ == object_schema(members(props@), str_views(required@)),
{
    let ghost p = members(props@);
    let mut m = new_members();
    push_member(&mut m, "type", json_str("object"));
    push_member(&mut m, "properties", object(props));
    if required.len() > 0 {
        push_member(&mut m, "required", string_array(required));
    }
    push_member(&mut m, "additionalProperties", JsonValue::Bool(false));
    assert(members(m@) =~= object_schema(p, str_views(required@))->Object_0);
    object(m)
}

} // verus!
