//! The verify-hash suite, using the RSA PKCS#1 v1.5 SHA-256 signature
//! algorithm. A verify-hash result carries no payload, so both outcomes
//! decode to an empty object; they differ in the response status alone.

use vstd::prelude::*;

use crate::b64::{base64_encode, base64_of};
use crate::codec::verify_hash_op_body;
use crate::errors::FixtureError;
use crate::frame::{
    operation_to_bin, request_header, response_header, result_to_bin, OperationValue, ResultValue,
};
use crate::json::{is_empty_object, JsonMember, JsonValue};
use crate::model::{
    distinct_case_names, failing_cases_empty_object, has_failure_case, has_success_case, TestCase,
    TestSuite,
};
use crate::opcodes::OPCODE_PSA_VERIFY_HASH;
use crate::status::{spec_status_code, OutcomeStatus};
use crate::wire::{request_frame_bytes, response_frame_bytes};
use vstd::string::{StrSliceExecFns, StringExecFns};
use vstd::utf8::encode_utf8;

verus! {

/// The body bytes of the fixture's verify-hash operation.
pub open spec fn vh_op_body() -> Seq<u8> {
    verify_hash_op_body("key1"@, encode_utf8("hash"@), encode_utf8("signature"@))
}

/// The base64 text every case carries as its expected request.
pub open spec fn vh_request_b64() -> Seq<char> {
    base64_of(
        request_frame_bytes(request_header(OPCODE_PSA_VERIFY_HASH), vh_op_body(), Seq::empty()),
    )
}

/// The request parameters every case documents.
pub open spec fn vh_request_data(v: JsonValue) -> bool {
    &&& v matches JsonValue::Obj(ms)
    &&& ms@.len() == 4
    &&& ms@[0].key@ == "key_name"@
    &&& ms@[0].value matches JsonValue::Str(k) && k@ == "key1"@
    &&& ms@[1].key@ == "alg"@
    &&& ms@[1].value matches JsonValue::Str(a) && a@ == "RsaPkcs1v15Sign::Sha256"@
    &&& ms@[2].key@ == "hash"@
    &&& ms@[2].value matches JsonValue::Str(h) && h@ == "hash"@
    &&& ms@[3].key@ == "signature"@
    &&& ms@[3].value matches JsonValue::Str(s) && s@ == "signature"@
}

/// The successful case: a success status framed over the payload-free
/// result and expected to decode to an empty object.
pub open spec fn vh_success_case(c: TestCase) -> bool {
    &&& vh_request_data(c.request_data)
    &&& c.expected_request_binary@ == vh_request_b64()
    &&& c.response_binary@ == base64_of(
        response_frame_bytes(response_header(OPCODE_PSA_VERIFY_HASH, 0), Seq::empty()),
    )
    &&& is_empty_object(c.expected_response)
    &&& c.expect_success
}

/// The failing case: an authentication error framed over the payload-free
/// result and expected to decode to an empty object.
pub open spec fn vh_failure_case(c: TestCase) -> bool {
    &&& vh_request_data(c.request_data)
    &&& c.expected_request_binary@ == vh_request_b64()
    &&& c.response_binary@ == base64_of(
        response_frame_bytes(
            response_header(
                OPCODE_PSA_VERIFY_HASH,
                spec_status_code(OutcomeStatus::AuthenticationError),
            ),
            Seq::empty(),
        ),
    )
    &&& is_empty_object(c.expected_response)
    &&& !c.expect_success
}

/// Build the request parameter document.
fn build_request_data() -> (r: JsonValue)
    ensures
        vh_request_data(r),
{
    let mut ms: Vec<JsonMember> = Vec::new();
    ms.push(
        JsonMember {
            key: String::from_str("key_name"),
            value: JsonValue::Str(String::from_str("key1")),
        },
    );
    ms.push(
        JsonMember {
            key: String::from_str("alg"),
            value: JsonValue::Str(String::from_str("RsaPkcs1v15Sign::Sha256")),
        },
    );
    ms.push(
        JsonMember {
            key: String::from_str("hash"),
            value: JsonValue::Str(String::from_str("hash")),
        },
    );
    ms.push(
        JsonMember {
            key: String::from_str("signature"),
            value: JsonValue::Str(String::from_str("signature")),
        },
    );
    JsonValue::Obj(ms)
}

/// Build the fixture's request frame and encode it as base64 text.
fn build_request_b64() -> (r: Result<String, FixtureError>)
    ensures
        vh_op_body().len() <= u32::MAX ==> r is Ok,
        r matches Ok(s) ==> s@ == vh_request_b64(),
        r matches Err(e) ==> e == FixtureError::BodyTooLarge,
{
    let operation = OperationValue::PsaVerifyHashRsa {
        key_name: String::from_str("key1"),
        hash: ("hash").as_bytes_vec(),
        signature: ("signature").as_bytes_vec(),
    };
    let op_bin = match operation_to_bin(OPCODE_PSA_VERIFY_HASH, &operation) {
        Ok(b) => b,
        Err(e) => {
            return Err(e);
        },
    };
    Ok(base64_encode(&op_bin))
}

/// Build one verify-hash case for the given outcome; both outcomes decode
/// to an empty object, since the result carries no payload.
fn create_verify_hash_test(name: &str, status: OutcomeStatus) -> (r: Result<
    TestCase,
    FixtureError,
>)
    ensures
        vh_op_body().len() <= u32::MAX ==> r is Ok,
        r matches Ok(c) ==> {
            &&& c.name@ == name@
            &&& vh_request_data(c.request_data)
            &&& c.expected_request_binary@ == vh_request_b64()
            &&& c.response_binary@ == base64_of(
                response_frame_bytes(
                    response_header(OPCODE_PSA_VERIFY_HASH, spec_status_code(status)),
                    Seq::empty(),
                ),
            )
            &&& is_empty_object(c.expected_response)
            &&& c.expect_success == (status == OutcomeStatus::Success)
        },
        r matches Err(e) ==> e == FixtureError::BodyTooLarge,
{
    let op_b64 = match build_request_b64() {
        Ok(s) => s,
        Err(e) => {
            return Err(e);
        },
    };
    let resp_bin = match result_to_bin(
        OPCODE_PSA_VERIFY_HASH,
        &ResultValue::PsaVerifyHash,
        status,
    ) {
        Ok(b) => b,
        Err(e) => {
            return Err(e);
        },
    };
    let expect_success = matches!(status, OutcomeStatus::Success);
    Ok(
        TestCase {
            name: String::from_str(name),
            request_data: build_request_data(),
            expected_request_binary: op_b64,
            response_binary: base64_encode(&resp_bin),
            expected_response: JsonValue::Obj(Vec::new()),
            expect_success,
        },
    )
}

/// Build the verify-hash suite: a success case and a failing case.
pub fn create_test_suite() -> (r: Result<TestSuite, FixtureError>)
    ensures
        vh_op_body().len() <= u32::MAX ==> r is Ok,
        r matches Ok(s) ==> {
            &&& s.op_code == OPCODE_PSA_VERIFY_HASH
            &&& s.tests@.len() == 2
            &&& s.tests@[0].name@ == "normal_response"@
            &&& s.tests@[1].name@ == "fail response"@
            &&& vh_success_case(s.tests@[0])
            &&& vh_failure_case(s.tests@[1])
            &&& distinct_case_names(s.tests@)
            &&& has_success_case(s.tests@)
            &&& has_failure_case(s.tests@)
            &&& failing_cases_empty_object(s.tests@)
        },
        r matches Err(e) ==> e == FixtureError::BodyTooLarge,
{
    let good = match create_verify_hash_test("normal_response", OutcomeStatus::Success) {
        Ok(c) => c,
        Err(e) => {
            return Err(e);
        },
    };
    let fail = match create_verify_hash_test("fail response", OutcomeStatus::AuthenticationError) {
        Ok(c) => c,
        Err(e) => {
            return Err(e);
        },
    };
    let mut tests: Vec<TestCase> = Vec::new();
    tests.push(good);
    tests.push(fail);
    proof {
        reveal_strlit("normal_response");
        reveal_strlit("fail response");
        assert(tests@.len() == 2);
        assert(tests@[0] == good && tests@[1] == fail);
        assert("normal_response"@.len() == 15);
        assert("fail response"@.len() == 13);
        assert(distinct_case_names(tests@));
    }
    match TestSuite::new(OPCODE_PSA_VERIFY_HASH, tests) {
        Ok(s) => Ok(s),
        Err(e) => Err(e),
    }
}

} // verus!
