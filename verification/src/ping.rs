//! The ping suite: version exchange over an empty request body.

use vstd::prelude::*;

use crate::b64::{base64_encode, base64_of};
use crate::codec::ping_result_body;
use crate::errors::FixtureError;
use crate::frame::{
    operation_to_bin, request_header, response_header, result_to_bin,
    OperationValue, ResultValue,
};
use crate::json::{is_empty_object, JsonMember, JsonValue};
use crate::model::{
    distinct_case_names, failing_cases_empty_object, has_failure_case, has_success_case, TestCase,
    TestSuite,
};
use crate::opcodes::OPCODE_PING;
use crate::status::{spec_status_code, OutcomeStatus};
use crate::wire::{request_frame_bytes, response_frame_bytes};
use vstd::string::StringExecFns;

verus! {

/// The base64 text every ping case carries as its expected request: the
/// frame of an empty-bodied, unauthenticated ping request.
pub open spec fn ping_request_b64() -> Seq<char> {
    base64_of(request_frame_bytes(request_header(OPCODE_PING), Seq::empty(), Seq::empty()))
}

/// The expected decoded value of a ping response: an object with the two
/// version members.
pub open spec fn is_ping_version_json(v: JsonValue, major: u8, minor: u8) -> bool {
    &&& v matches JsonValue::Obj(ms)
    &&& ms@.len() == 2
    &&& ms@[0].key@ == "major"@
    &&& ms@[0].value matches JsonValue::UInt(x) && x == major
    &&& ms@[1].key@ == "minor"@
    &&& ms@[1].value matches JsonValue::UInt(y) && y == minor
}

/// A successful ping case carrying the given protocol version in its
/// response.
pub open spec fn ping_success_case(c: TestCase, major: u8, minor: u8) -> bool {
    &&& is_empty_object(c.request_data)
    &&& c.expected_request_binary@ == ping_request_b64()
    &&& c.response_binary@ == base64_of(
        response_frame_bytes(response_header(OPCODE_PING, 0), ping_result_body(major, minor)),
    )
    &&& is_ping_version_json(c.expected_response, major, minor)
    &&& c.expect_success
}

/// The failing ping case: an authentication error whose response carries an
/// empty-shaped result and decodes to an empty object.
pub open spec fn ping_failure_case(c: TestCase) -> bool {
    &&& is_empty_object(c.request_data)
    &&& c.expected_request_binary@ == ping_request_b64()
    &&& c.response_binary@ == base64_of(
        response_frame_bytes(
            response_header(OPCODE_PING, spec_status_code(OutcomeStatus::AuthenticationError)),
            ping_result_body(0, 0),
        ),
    )
    &&& is_empty_object(c.expected_response)
    &&& !c.expect_success
}

/// Build one ping case expecting success, with the response carrying the
/// given protocol version.
fn create_ping_test(name: &str, major: u8, minor: u8) -> (r: Result<TestCase, FixtureError>)
    ensures
        ping_result_body(major, minor).len() <= u32::MAX ==> r is Ok,
        r matches Ok(c) ==> (c.name@ == name@ && ping_success_case(c, major, minor)),
        r matches Err(e) ==> e == FixtureError::BodyTooLarge,
{
    let op_bin = match operation_to_bin(OPCODE_PING, &OperationValue::Ping) {
        Ok(b) => b,
        Err(e) => {
            return Err(e);
        },
    };
    let resp_bin = match result_to_bin(
        OPCODE_PING,
        &ResultValue::Ping { major, minor },
        OutcomeStatus::Success,
    ) {
        Ok(b) => b,
        Err(e) => {
            return Err(e);
        },
    };
    let mut members: Vec<JsonMember> = Vec::new();
    members.push(JsonMember { key: String::from_str("major"), value: JsonValue::UInt(major as u64) });
    members.push(JsonMember { key: String::from_str("minor"), value: JsonValue::UInt(minor as u64) });
    Ok(TestCase {
        name: String::from_str(name),
        request_data: JsonValue::Obj(Vec::new()),
        expected_request_binary: base64_encode(&op_bin),
        response_binary: base64_encode(&resp_bin),
        expected_response: JsonValue::Obj(members),
        expect_success: true,
    })
}

/// Build the failing ping case.
fn create_ping_test_fail(name: &str) -> (r: Result<TestCase, FixtureError>)
    ensures
        ping_result_body(0, 0).len() <= u32::MAX ==> r is Ok,
        r matches Ok(c) ==> (c.name@ == name@ && ping_failure_case(c)),
        r matches Err(e) ==> e == FixtureError::BodyTooLarge,
{
    let op_bin = match operation_to_bin(OPCODE_PING, &OperationValue::Ping) {
        Ok(b) => b,
        Err(e) => {
            return Err(e);
        },
    };
    let resp_bin = match result_to_bin(
        OPCODE_PING,
        &ResultValue::Ping { major: 0, minor: 0 },
        OutcomeStatus::AuthenticationError,
    ) {
        Ok(b) => b,
        Err(e) => {
            return Err(e);
        },
    };
    Ok(TestCase {
        name: String::from_str(name),
        request_data: JsonValue::Obj(Vec::new()),
        expected_request_binary: base64_encode(&op_bin),
        response_binary: base64_encode(&resp_bin),
        expected_response: JsonValue::Obj(Vec::new()),
        expect_success: false,
    })
}

/// Build the ping suite: a normal version response, a non-standard version
/// response, and a failing response.
pub fn create_test_suite() -> (r: Result<TestSuite, FixtureError>)
    ensures
        (ping_result_body(1, 0).len() <= u32::MAX && ping_result_body(3, 1).len() <= u32::MAX
            && ping_result_body(0, 0).len() <= u32::MAX) ==> r is Ok,
        r matches Ok(s) ==> {
            &&& s.op_code == OPCODE_PING
            &&& s.tests@.len() == 3
            &&& s.tests@[0].name@ == "normal_response"@
            &&& s.tests@[1].name@ == "non standard version"@
            &&& s.tests@[2].name@ == "fail response"@
            &&& ping_success_case(s.tests@[0], 1, 0)
            &&& ping_success_case(s.tests@[1], 3, 1)
            &&& ping_failure_case(s.tests@[2])
            &&& distinct_case_names(s.tests@)
            &&& has_success_case(s.tests@)
            &&& has_failure_case(s.tests@)
            &&& failing_cases_empty_object(s.tests@)
        },
        r matches Err(e) ==> e == FixtureError::BodyTooLarge,
{
    let good = match create_ping_test("normal_response", 1, 0) {
        Ok(c) => c,
        Err(e) => {
            return Err(e);
        },
    };
    let odd = match create_ping_test("non standard version", 3, 1) {
        Ok(c) => c,
        Err(e) => {
            return Err(e);
        },
    };
    let fail = match create_ping_test_fail("fail response") {
        Ok(c) => c,
        Err(e) => {
            return Err(e);
        },
    };
    let mut tests: Vec<TestCase> = Vec::new();
    tests.push(good);
    tests.push(odd);
    tests.push(fail);
    proof {
        reveal_strlit("normal_response");
        reveal_strlit("non standard version");
        reveal_strlit("fail response");
        assert(tests@.len() == 3);
        assert(tests@[0] == good && tests@[1] == odd && tests@[2] == fail);
        assert("normal_response"@.len() == 15);
        assert("non standard version"@.len() == 20);
        assert("fail response"@.len() == 13);
        assert(distinct_case_names(tests@));
    }
    match TestSuite::new(OPCODE_PING, tests) {
        Ok(s) => Ok(s),
        Err(e) => Err(e),
    }
}

} // verus!
