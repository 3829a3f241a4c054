//! The JSON document model: the structured request parameters and expected
//! response values carried by a test case.

use vstd::prelude::*;

verus! {

/// A JSON value, as this harness builds and renders it. Numbers are
/// unsigned integers: every numeric field the protocol exposes is one.
pub enum JsonValue {
    /// The JSON null value.
    Null,
    /// A JSON boolean.
    Bool(bool),
    /// A JSON number (always an unsigned integer here).
    UInt(u64),
    /// A JSON string.
    Str(String),
    /// A JSON array.
    Arr(Vec<JsonValue>),
    /// A JSON object: members in rendering order.
    Obj(Vec<JsonMember>),
}

/// One member of a JSON object.
pub struct JsonMember {
    /// The member's key.
    pub key: String,
    /// The member's value.
    pub value: JsonValue,
}

/// Structural size of a JSON value: a termination measure for code that
/// walks the tree.
pub open spec fn json_size(v: JsonValue) -> nat
    decreases v,
{
    match v {
        JsonValue::Null => 1,
        JsonValue::Bool(_) => 1,
        JsonValue::UInt(_) => 1,
        JsonValue::Str(_) => 1,
        JsonValue::Arr(a) => 1 + json_list_size(a@),
        JsonValue::Obj(ms) => 1 + json_members_size(ms@),
    }
}

/// Structural size of a sequence of JSON values.
pub open spec fn json_list_size(s: Seq<JsonValue>) -> nat
    decreases s,
{
    if s.len() == 0 {
        0
    } else {
        json_size(s[0]) + json_list_size(s.subrange(1, s.len() as int))
    }
}

/// Structural size of a sequence of object members.
pub open spec fn json_members_size(s: Seq<JsonMember>) -> nat
    decreases s,
{
    if s.len() == 0 {
        0
    } else {
        json_size(s[0].value) + json_members_size(s.subrange(1, s.len() as int))
    }
}

/// An element of a list weighs no more than the whole list.
pub proof fn lemma_json_list_size_elem(s: Seq<JsonValue>, i: int)
    requires
        0 <= i < s.len(),
    ensures
        json_size(s[i]) <= json_list_size(s),
    decreases s.len(),
{
    if i > 0 {
        lemma_json_list_size_elem(s.subrange(1, s.len() as int), i - 1);
        assert(s.subrange(1, s.len() as int)[i - 1] == s[i]);
    }
}

/// A member's value weighs no more than the whole member list.
pub proof fn lemma_json_members_size_elem(s: Seq<JsonMember>, i: int)
    requires
        0 <= i < s.len(),
    ensures
        json_size(s[i].value) <= json_members_size(s),
    decreases s.len(),
{
    if i > 0 {
        lemma_json_members_size_elem(s.subrange(1, s.len() as int), i - 1);
        assert(s.subrange(1, s.len() as int)[i - 1] == s[i]);
    }
}

/// The empty-collection shape a failing list-style operation must expose.
pub open spec fn is_empty_array(v: JsonValue) -> bool {
    v matches JsonValue::Arr(a) && a@.len() == 0
}

/// The empty-object shape a failing single-result operation must expose.
pub open spec fn is_empty_object(v: JsonValue) -> bool {
    v matches JsonValue::Obj(ms) && ms@.len() == 0
}

} // verus!
