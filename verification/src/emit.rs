//! The suite emitter's pure part: turning a suite into its canonical JSON
//! document, as bytes. Writing the bytes to their destination is left to
//! the caller.

use vstd::prelude::*;

use crate::json::{JsonMember, JsonValue};
use crate::model::{TestCase, TestSuite};
use crate::render::{json_bytes, render_json};
use vstd::string::StringExecFns;

verus! {

/// The JSON document of one test case: an object with the six fields of the
/// fixture format, in their canonical order.
pub open spec fn is_case_json(j: JsonValue, c: TestCase) -> bool {
    &&& j matches JsonValue::Obj(ms)
    &&& ms@.len() == 6
    &&& ms@[0].key@ == "name"@
    &&& ms@[0].value matches JsonValue::Str(n) && n@ == c.name@
    &&& ms@[1].key@ == "request_data"@
    &&& ms@[1].value == c.request_data
    &&& ms@[2].key@ == "expected_request_binary"@
    &&& ms@[2].value matches JsonValue::Str(q) && q@ == c.expected_request_binary@
    &&& ms@[3].key@ == "response_binary"@
    &&& ms@[3].value matches JsonValue::Str(p) && p@ == c.response_binary@
    &&& ms@[4].key@ == "expected_response"@
    &&& ms@[4].value == c.expected_response
    &&& ms@[5].key@ == "expect_success"@
    &&& ms@[5].value == JsonValue::Bool(c.expect_success)
}

/// The JSON document of a whole suite: its opcode and its cases in order.
pub open spec fn is_suite_json(j: JsonValue, s: TestSuite) -> bool {
    &&& j matches JsonValue::Obj(ms)
    &&& ms@.len() == 2
    &&& ms@[0].key@ == "op_code"@
    &&& ms@[0].value == JsonValue::UInt(s.op_code as u64)
    &&& ms@[1].key@ == "tests"@
    &&& ms@[1].value matches JsonValue::Arr(ts) && ts@.len() == s.tests@.len() && forall|i: int|
        0 <= i < ts@.len() ==> is_case_json(ts@[i], s.tests@[i])
}

/// Turn one case into its JSON document.
fn case_to_json(c: TestCase) -> (r: JsonValue)
    ensures
        is_case_json(r, c),
{
    let TestCase {
        name,
        request_data,
        expected_request_binary,
        response_binary,
        expected_response,
        expect_success,
    } = c;
    let mut ms: Vec<JsonMember> = Vec::new();
    ms.push(JsonMember { key: String::from_str("name"), value: JsonValue::Str(name) });
    ms.push(JsonMember { key: String::from_str("request_data"), value: request_data });
    ms.push(
        JsonMember {
            key: String::from_str("expected_request_binary"),
            value: JsonValue::Str(expected_request_binary),
        },
    );
    ms.push(
        JsonMember {
            key: String::from_str("response_binary"),
            value: JsonValue::Str(response_binary),
        },
    );
    ms.push(
        JsonMember { key: String::from_str("expected_response"), value: expected_response },
    );
    ms.push(
        JsonMember {
            key: String::from_str("expect_success"),
            value: JsonValue::Bool(expect_success),
        },
    );
    JsonValue::Obj(ms)
}

impl TestSuite {
    /// Turn the suite into its JSON document.
    pub fn to_json_value(self) -> (r: JsonValue)
        ensures
            is_suite_json(r, self),
    {
        let TestSuite { op_code, mut tests } = self;
        let ghost orig = tests@;
        let mut arr: Vec<JsonValue> = Vec::new();
        while tests.len() > 0
            invariant
                arr@.len() + tests@.len() == orig.len(),
                tests@ == orig.subrange(arr@.len() as int, orig.len() as int),
                forall|k: int| 0 <= k < arr@.len() ==> is_case_json(arr@[k], orig[k]),
            decreases tests@.len(),
        {
            let c = tests.remove(0);
            proof {
                assert(c == orig[arr@.len() as int]);
            }
            arr.push(case_to_json(c));
            proof {
                assert(tests@ =~= orig.subrange(arr@.len() as int, orig.len() as int));
            }
        }
        let mut ms: Vec<JsonMember> = Vec::new();
        ms.push(
            JsonMember { key: String::from_str("op_code"), value: JsonValue::UInt(op_code as u64) },
        );
        ms.push(JsonMember { key: String::from_str("tests"), value: JsonValue::Arr(arr) });
        JsonValue::Obj(ms)
    }

    /// Render the suite as a canonical, pretty-printed JSON document, as
    /// bytes.
    pub fn to_json_bytes(self) -> (r: Vec<u8>)
        ensures
            exists|j: JsonValue|
                is_suite_json(j, self) && r@ == json_bytes(j, Seq::<u8>::empty()),
    {
        let j = self.to_json_value();
        render_json(&j)
    }
}

} // verus!
