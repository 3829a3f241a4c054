//! The list-opcodes suite.
//!
//! The result's record set is unordered on the wire, so the fixture carries
//! a single opcode: its frame is then reproducible bit for bit.

use vstd::prelude::*;

use crate::b64::{base64_encode, base64_of};
use crate::codec::{list_opcodes_op_body, list_opcodes_result_body};
use crate::errors::FixtureError;
use crate::frame::{
    operation_to_bin, request_header, response_header, result_to_bin, OperationValue, ResultValue,
};
use crate::json::{is_empty_array, JsonMember, JsonValue};
use crate::model::{
    distinct_case_names, failing_cases_empty_array, has_failure_case, has_success_case, TestCase,
    TestSuite,
};
use crate::opcodes::{OPCODE_LIST_OPCODES, OPCODE_PSA_AEAD_DECRYPT};
use crate::status::{spec_status_code, OutcomeStatus};
use crate::wire::{request_frame_bytes, response_frame_bytes, PROVIDER_MBED_CRYPTO};
use vstd::string::StringExecFns;

verus! {

/// The base64 text every case carries as its expected request: the frame of
/// a list-opcodes request naming the software provider.
pub open spec fn lo_request_b64() -> Seq<char> {
    base64_of(
        request_frame_bytes(
            request_header(OPCODE_LIST_OPCODES),
            list_opcodes_op_body(PROVIDER_MBED_CRYPTO),
            Seq::empty(),
        ),
    )
}

/// The request parameters every case documents: the provider asked about.
pub open spec fn lo_request_data(v: JsonValue) -> bool {
    &&& v matches JsonValue::Obj(ms)
    &&& ms@.len() == 1
    &&& ms@[0].key@ == "provider_id"@
    &&& ms@[0].value matches JsonValue::UInt(p) && p == PROVIDER_MBED_CRYPTO
}

/// The successful case: a one-opcode record set framed with success status
/// and expected to decode to a one-element array of numbers.
pub open spec fn lo_success_case(c: TestCase) -> bool {
    &&& lo_request_data(c.request_data)
    &&& c.expected_request_binary@ == lo_request_b64()
    &&& c.response_binary@ == base64_of(
        response_frame_bytes(
            response_header(OPCODE_LIST_OPCODES, 0),
            list_opcodes_result_body(seq![OPCODE_PSA_AEAD_DECRYPT]),
        ),
    )
    &&& c.expected_response matches JsonValue::Arr(a) && a@.len() == 1
    &&& c.expected_response matches JsonValue::Arr(a) && (a@[0] matches JsonValue::UInt(x) && x
        == OPCODE_PSA_AEAD_DECRYPT)
    &&& c.expect_success
}

/// The failing case: a wrong-provider status framed over an empty record
/// set and expected to decode to an empty array.
pub open spec fn lo_failure_case(c: TestCase) -> bool {
    &&& lo_request_data(c.request_data)
    &&& c.expected_request_binary@ == lo_request_b64()
    &&& c.response_binary@ == base64_of(
        response_frame_bytes(
            response_header(
                OPCODE_LIST_OPCODES,
                spec_status_code(OutcomeStatus::WrongProviderId),
            ),
            list_opcodes_result_body(Seq::empty()),
        ),
    )
    &&& is_empty_array(c.expected_response)
    &&& !c.expect_success
}

/// Build the request-parameter document naming the software provider.
fn build_request_data() -> (r: JsonValue)
    ensures
        lo_request_data(r),
{
    let mut ms: Vec<JsonMember> = Vec::new();
    ms.push(
        JsonMember {
            key: String::from_str("provider_id"),
            value: JsonValue::UInt(PROVIDER_MBED_CRYPTO as u64),
        },
    );
    JsonValue::Obj(ms)
}

/// Build the successful case.
fn create_test_good() -> (r: Result<TestCase, FixtureError>)
    ensures
        (list_opcodes_op_body(PROVIDER_MBED_CRYPTO).len() <= u32::MAX
            && list_opcodes_result_body(seq![OPCODE_PSA_AEAD_DECRYPT]).len() <= u32::MAX) ==> r
            is Ok,
        r matches Ok(c) ==> (c.name@ == "normal_response"@ && lo_success_case(c)),
        r matches Err(e) ==> e == FixtureError::BodyTooLarge,
{
    let op_bin = match operation_to_bin(
        OPCODE_LIST_OPCODES,
        &OperationValue::ListOpcodes { provider_id: PROVIDER_MBED_CRYPTO },
    ) {
        Ok(b) => b,
        Err(e) => {
            return Err(e);
        },
    };
    let mut opcodes: Vec<u32> = Vec::new();
    opcodes.push(OPCODE_PSA_AEAD_DECRYPT);
    assert(opcodes@ =~= seq![OPCODE_PSA_AEAD_DECRYPT]);
    let resp_bin = match result_to_bin(
        OPCODE_LIST_OPCODES,
        &ResultValue::ListOpcodes { opcodes },
        OutcomeStatus::Success,
    ) {
        Ok(b) => b,
        Err(e) => {
            return Err(e);
        },
    };
    let mut expected: Vec<JsonValue> = Vec::new();
    expected.push(JsonValue::UInt(OPCODE_PSA_AEAD_DECRYPT as u64));
    Ok(
        TestCase {
            name: String::from_str("normal_response"),
            request_data: build_request_data(),
            expected_request_binary: base64_encode(&op_bin),
            response_binary: base64_encode(&resp_bin),
            expected_response: JsonValue::Arr(expected),
            expect_success: true,
        },
    )
}

/// Build the failing case.
fn create_test_fail() -> (r: Result<TestCase, FixtureError>)
    ensures
        (list_opcodes_op_body(PROVIDER_MBED_CRYPTO).len() <= u32::MAX
            && list_opcodes_result_body(Seq::empty()).len() <= u32::MAX) ==> r is Ok,
        r matches Ok(c) ==> (c.name@ == "fail response"@ && lo_failure_case(c)),
        r matches Err(e) ==> e == FixtureError::BodyTooLarge,
{
    let op_bin = match operation_to_bin(
        OPCODE_LIST_OPCODES,
        &OperationValue::ListOpcodes { provider_id: PROVIDER_MBED_CRYPTO },
    ) {
        Ok(b) => b,
        Err(e) => {
            return Err(e);
        },
    };
    let opcodes: Vec<u32> = Vec::new();
    let resp_bin = match result_to_bin(
        OPCODE_LIST_OPCODES,
        &ResultValue::ListOpcodes { opcodes },
        OutcomeStatus::WrongProviderId,
    ) {
        Ok(b) => b,
        Err(e) => {
            return Err(e);
        },
    };
    Ok(
        TestCase {
            name: String::from_str("fail response"),
            request_data: build_request_data(),
            expected_request_binary: base64_encode(&op_bin),
            response_binary: base64_encode(&resp_bin),
            expected_response: JsonValue::Arr(Vec::new()),
            expect_success: false,
        },
    )
}

/// Build the list-opcodes suite: a one-opcode success case and a failing
/// case.
pub fn create_test_suite() -> (r: Result<TestSuite, FixtureError>)
    ensures
        (list_opcodes_op_body(PROVIDER_MBED_CRYPTO).len() <= u32::MAX
            && list_opcodes_result_body(seq![OPCODE_PSA_AEAD_DECRYPT]).len() <= u32::MAX
            && list_opcodes_result_body(Seq::empty()).len() <= u32::MAX) ==> r is Ok,
        r matches Ok(s) ==> {
            &&& s.op_code == OPCODE_LIST_OPCODES
            &&& s.tests@.len() == 2
            &&& s.tests@[0].name@ == "normal_response"@
            &&& s.tests@[1].name@ == "fail response"@
            &&& lo_success_case(s.tests@[0])
            &&& lo_failure_case(s.tests@[1])
            &&& distinct_case_names(s.tests@)
            &&& has_success_case(s.tests@)
            &&& has_failure_case(s.tests@)
            &&& failing_cases_empty_array(s.tests@)
        },
        r matches Err(e) ==> e == FixtureError::BodyTooLarge,
{
    let good = match create_test_good() {
        Ok(c) => c,
        Err(e) => {
            return Err(e);
        },
    };
    let fail = match create_test_fail() {
        Ok(c) => c,
        Err(e) => {
            return Err(e);
        },
    };
    let mut tests: Vec<TestCase> = Vec::new();
    tests.push(good);
    tests.push(fail);
    proof {
        reveal_strlit("normal_response");
        reveal_strlit("fail response");
        assert(tests@.len() == 2);
        assert(tests@[0] == good && tests@[1] == fail);
        assert("normal_response"@.len() == 15);
        assert("fail response"@.len() == 13);
        assert(distinct_case_names(tests@));
    }
    match TestSuite::new(OPCODE_LIST_OPCODES, tests) {
        Ok(s) => Ok(s),
        Err(e) => Err(e),
    }
}

} // verus!
