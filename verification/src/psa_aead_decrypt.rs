//! The authenticated-encryption decrypt suite, using the CCM algorithm with
//! its default tag length.

use vstd::prelude::*;

use crate::b64::{base64_encode, base64_of};
use crate::codec::{aead_decrypt_ccm_op_body, aead_decrypt_result_body};
use crate::errors::FixtureError;
use crate::frame::{
    operation_to_bin, request_header, response_header, result_to_bin, OperationValue, ResultValue,
};
use crate::json::{is_empty_object, JsonMember, JsonValue};
use crate::model::{
    distinct_case_names, failing_cases_empty_object, has_failure_case, has_success_case, TestCase,
    TestSuite,
};
use crate::opcodes::OPCODE_PSA_AEAD_DECRYPT;
use crate::status::{spec_status_code, OutcomeStatus};
use crate::wire::{request_frame_bytes, response_frame_bytes};
use vstd::string::{StrSliceExecFns, StringExecFns};
use vstd::utf8::encode_utf8;

verus! {

/// The body bytes of the fixture's decrypt operation.
pub open spec fn ad_op_body() -> Seq<u8> {
    aead_decrypt_ccm_op_body(
        "key1"@,
        encode_utf8("nonce"@),
        encode_utf8("ciphertext"@),
        encode_utf8("additional data"@),
    )
}

/// The base64 text every case carries as its expected request.
pub open spec fn ad_request_b64() -> Seq<char> {
    base64_of(
        request_frame_bytes(request_header(OPCODE_PSA_AEAD_DECRYPT), ad_op_body(), Seq::empty()),
    )
}

/// The request parameters every case documents.
pub open spec fn ad_request_data(v: JsonValue) -> bool {
    &&& v matches JsonValue::Obj(ms)
    &&& ms@.len() == 5
    &&& ms@[0].key@ == "key_name"@
    &&& ms@[0].value matches JsonValue::Str(k) && k@ == "key1"@
    &&& ms@[1].key@ == "alg"@
    &&& ms@[1].value matches JsonValue::Str(a) && a@ == "AeadWithDefaultLengthTag::Ccm"@
    &&& ms@[2].key@ == "nonce"@
    &&& ms@[2].value matches JsonValue::Str(n) && n@ == "nonce"@
    &&& ms@[3].key@ == "ciphertext"@
    &&& ms@[3].value matches JsonValue::Str(c) && c@ == "ciphertext"@
    &&& ms@[4].key@ == "additional_data"@
    &&& ms@[4].value matches JsonValue::Str(d) && d@ == "additional data"@
}

/// The successful case: the recovered plaintext framed with success status
/// and expected to decode to an object carrying it.
pub open spec fn ad_success_case(c: TestCase) -> bool {
    &&& ad_request_data(c.request_data)
    &&& c.expected_request_binary@ == ad_request_b64()
    &&& c.response_binary@ == base64_of(
        response_frame_bytes(
            response_header(OPCODE_PSA_AEAD_DECRYPT, 0),
            aead_decrypt_result_body(encode_utf8("plaintext"@)),
        ),
    )
    &&& c.expected_response matches JsonValue::Obj(ms) && ms@.len() == 1 && ms@[0].key@
        == "plaintext"@
    &&& c.expected_response matches JsonValue::Obj(ms) && (ms@[0].value matches JsonValue::Str(p)
        && p@ == "plaintext"@)
    &&& c.expect_success
}

/// The failing case: an authentication error framed over an empty plaintext
/// and expected to decode to an empty object.
pub open spec fn ad_failure_case(c: TestCase) -> bool {
    &&& ad_request_data(c.request_data)
    &&& c.expected_request_binary@ == ad_request_b64()
    &&& c.response_binary@ == base64_of(
        response_frame_bytes(
            response_header(
                OPCODE_PSA_AEAD_DECRYPT,
                spec_status_code(OutcomeStatus::AuthenticationError),
            ),
            aead_decrypt_result_body(Seq::empty()),
        ),
    )
    &&& is_empty_object(c.expected_response)
    &&& !c.expect_success
}

/// Build the request parameter document.
fn build_request_data() -> (r: JsonValue)
    ensures
        ad_request_data(r),
{
    let mut ms: Vec<JsonMember> = Vec::new();
    ms.push(
        JsonMember {
            key: String::from_str("key_name"),
            value: JsonValue::Str(String::from_str("key1")),
        },
    );
    ms.push(
        JsonMember {
            key: String::from_str("alg"),
            value: JsonValue::Str(String::from_str("AeadWithDefaultLengthTag::Ccm")),
        },
    );
    ms.push(
        JsonMember {
            key: String::from_str("nonce"),
            value: JsonValue::Str(String::from_str("nonce")),
        },
    );
    ms.push(
        JsonMember {
            key: String::from_str("ciphertext"),
            value: JsonValue::Str(String::from_str("ciphertext")),
        },
    );
    ms.push(
        JsonMember {
            key: String::from_str("additional_data"),
            value: JsonValue::Str(String::from_str("additional data")),
        },
    );
    JsonValue::Obj(ms)
}

/// Build the fixture's request frame and encode it as base64 text.
fn build_request_b64() -> (r: Result<String, FixtureError>)
    ensures
        ad_op_body().len() <= u32::MAX ==> r is Ok,
        r matches Ok(s) ==> s@ == ad_request_b64(),
        r matches Err(e) ==> e == FixtureError::BodyTooLarge,
{
    let operation = OperationValue::PsaAeadDecryptCcm {
        key_name: String::from_str("key1"),
        nonce: ("nonce").as_bytes_vec(),
        ciphertext: ("ciphertext").as_bytes_vec(),
        additional_data: ("additional data").as_bytes_vec(),
    };
    let op_bin = match operation_to_bin(OPCODE_PSA_AEAD_DECRYPT, &operation) {
        Ok(b) => b,
        Err(e) => {
            return Err(e);
        },
    };
    Ok(base64_encode(&op_bin))
}

/// Build the successful case.
fn create_test_good() -> (r: Result<TestCase, FixtureError>)
    ensures
        (ad_op_body().len() <= u32::MAX && aead_decrypt_result_body(
            encode_utf8("plaintext"@),
        ).len() <= u32::MAX) ==> r is Ok,
        r matches Ok(c) ==> (c.name@ == "normal_response"@ && ad_success_case(c)),
        r matches Err(e) ==> e == FixtureError::BodyTooLarge,
{
    let op_b64 = match build_request_b64() {
        Ok(s) => s,
        Err(e) => {
            return Err(e);
        },
    };
    let resp_bin = match result_to_bin(
        OPCODE_PSA_AEAD_DECRYPT,
        &ResultValue::PsaAeadDecrypt { plaintext: ("plaintext").as_bytes_vec() },
        OutcomeStatus::Success,
    ) {
        Ok(b) => b,
        Err(e) => {
            return Err(e);
        },
    };
    let mut ms: Vec<JsonMember> = Vec::new();
    ms.push(
        JsonMember {
            key: String::from_str("plaintext"),
            value: JsonValue::Str(String::from_str("plaintext")),
        },
    );
    Ok(
        TestCase {
            name: String::from_str("normal_response"),
            request_data: build_request_data(),
            expected_request_binary: op_b64,
            response_binary: base64_encode(&resp_bin),
            expected_response: JsonValue::Obj(ms),
            expect_success: true,
        },
    )
}

/// Build the failing case.
fn create_test_fail() -> (r: Result<TestCase, FixtureError>)
    ensures
        (ad_op_body().len() <= u32::MAX && aead_decrypt_result_body(Seq::empty()).len()
            <= u32::MAX) ==> r is Ok,
        r matches Ok(c) ==> (c.name@ == "fail response"@ && ad_failure_case(c)),
        r matches Err(e) ==> e == FixtureError::BodyTooLarge,
{
    let op_b64 = match build_request_b64() {
        Ok(s) => s,
        Err(e) => {
            return Err(e);
        },
    };
    let plaintext: Vec<u8> = Vec::new();
    let resp_bin = match result_to_bin(
        OPCODE_PSA_AEAD_DECRYPT,
        &ResultValue::PsaAeadDecrypt { plaintext },
        OutcomeStatus::AuthenticationError,
    ) {
        Ok(b) => b,
        Err(e) => {
            return Err(e);
        },
    };
    Ok(
        TestCase {
            name: String::from_str("fail response"),
            request_data: build_request_data(),
            expected_request_binary: op_b64,
            response_binary: base64_encode(&resp_bin),
            expected_response: JsonValue::Obj(Vec::new()),
            expect_success: false,
        },
    )
}

/// Build the decrypt suite: a success case and a failing case.
pub fn create_test_suite() -> (r: Result<TestSuite, FixtureError>)
    ensures
        (ad_op_body().len() <= u32::MAX && aead_decrypt_result_body(
            encode_utf8("plaintext"@),
        ).len() <= u32::MAX && aead_decrypt_result_body(Seq::empty()).len() <= u32::MAX) ==> r
            is Ok,
        r matches Ok(s) ==> {
            &&& s.op_code == OPCODE_PSA_AEAD_DECRYPT
            &&& s.tests@.len() == 2
            &&& s.tests@[0].name@ == "normal_response"@
            &&& s.tests@[1].name@ == "fail response"@
            &&& ad_success_case(s.tests@[0])
            &&& ad_failure_case(s.tests@[1])
            &&& distinct_case_names(s.tests@)
            &&& has_success_case(s.tests@)
            &&& has_failure_case(s.tests@)
            &&& failing_cases_empty_object(s.tests@)
        },
        r matches Err(e) ==> e == FixtureError::BodyTooLarge,
{
    let good = match create_test_good() {
        Ok(c) => c,
        Err(e) => {
            return Err(e);
        },
    };
    let fail = match create_test_fail() {
        Ok(c) => c,
        Err(e) => {
            return Err(e);
        },
    };
    let mut tests: Vec<TestCase> = Vec::new();
    tests.push(good);
    tests.push(fail);
    proof {
        reveal_strlit("normal_response");
        reveal_strlit("fail response");
        assert(tests@.len() == 2);
        assert(tests@[0] == good && tests@[1] == fail);
        assert("normal_response"@.len() == 15);
        assert("fail response"@.len() == 13);
        assert(distinct_case_names(tests@));
    }
    match TestSuite::new(OPCODE_PSA_AEAD_DECRYPT, tests) {
        Ok(s) => Ok(s),
        Err(e) => Err(e),
    }
}

} // verus!
