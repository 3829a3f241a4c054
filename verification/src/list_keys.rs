//! The list-keys suite.

use vstd::prelude::*;

use crate::b64::{base64_encode, base64_of};
use crate::codec::{list_keys_result_body, KeyInfoData};
use crate::errors::FixtureError;
use crate::frame::{
    operation_to_bin, request_header, response_header, result_to_bin, OperationValue, ResultValue,
};
use crate::json::{is_empty_array, is_empty_object, JsonMember, JsonValue};
use crate::model::{
    distinct_case_names, failing_cases_empty_array, has_failure_case, has_success_case, TestCase,
    TestSuite,
};
use crate::opcodes::OPCODE_LIST_KEYS;
use crate::status::{spec_status_code, OutcomeStatus};
use crate::wire::{
    request_frame_bytes, response_frame_bytes, PROVIDER_CRYPTOAUTHLIB, PROVIDER_TPM,
};
use vstd::string::StringExecFns;

verus! {

/// The base64 text every case carries as its expected request: the frame of
/// an empty-bodied list-keys request.
pub open spec fn lk_request_b64() -> Seq<char> {
    base64_of(request_frame_bytes(request_header(OPCODE_LIST_KEYS), Seq::empty(), Seq::empty()))
}

/// The fixture's two key records, in order.
pub open spec fn lk_fixture_records(ks: Seq<KeyInfoData>) -> bool {
    &&& ks.len() == 2
    &&& ks[0].name@ == "key1"@ && ks[0].provider_id == PROVIDER_CRYPTOAUTHLIB
    &&& ks[1].name@ == "key2"@ && ks[1].provider_id == PROVIDER_TPM
}

/// The decoded value a correct client produces for one key record: its name
/// and the numeric identifier of the provider holding it.
pub open spec fn is_key_json(v: JsonValue, k: KeyInfoData) -> bool {
    &&& v matches JsonValue::Obj(ms)
    &&& ms@.len() == 2
    &&& ms@[0].key@ == "name"@
    &&& ms@[0].value matches JsonValue::Str(n) && n@ == k.name@
    &&& ms@[1].key@ == "provider_id"@
    &&& ms@[1].value matches JsonValue::UInt(p) && p == k.provider_id
}

/// The successful case: two fixture records framed with success status and
/// expected to decode to an array of two key objects.
pub open spec fn lk_success_case(c: TestCase, ks: Seq<KeyInfoData>) -> bool {
    &&& lk_fixture_records(ks)
    &&& is_empty_object(c.request_data)
    &&& c.expected_request_binary@ == lk_request_b64()
    &&& c.response_binary@ == base64_of(
        response_frame_bytes(
            response_header(OPCODE_LIST_KEYS, 0),
            list_keys_result_body(ks),
        ),
    )
    &&& c.expected_response matches JsonValue::Arr(a) && a@.len() == ks.len() && forall|i: int|
        0 <= i < a@.len() ==> is_key_json(a@[i], ks[i])
    &&& c.expect_success
}

/// The failing case: a wrong-provider status framed over an empty record
/// list and expected to decode to an empty array.
pub open spec fn lk_failure_case(c: TestCase) -> bool {
    &&& is_empty_object(c.request_data)
    &&& c.expected_request_binary@ == lk_request_b64()
    &&& c.response_binary@ == base64_of(
        response_frame_bytes(
            response_header(
                OPCODE_LIST_KEYS,
                spec_status_code(OutcomeStatus::WrongProviderId),
            ),
            list_keys_result_body(Seq::empty()),
        ),
    )
    &&& is_empty_array(c.expected_response)
    &&& !c.expect_success
}

/// Build one key record's decoded object.
fn build_key_json(k: &KeyInfoData) -> (r: JsonValue)
    ensures
        is_key_json(r, *k),
{
    let mut ms: Vec<JsonMember> = Vec::new();
    ms.push(JsonMember { key: String::from_str("name"), value: JsonValue::Str(k.name.clone()) });
    ms.push(
        JsonMember {
            key: String::from_str("provider_id"),
            value: JsonValue::UInt(k.provider_id as u64),
        },
    );
    JsonValue::Obj(ms)
}

/// Build the successful case.
fn create_test_good() -> (r: Result<TestCase, FixtureError>)
    ensures
        (forall|ks: Seq<KeyInfoData>|
            lk_fixture_records(ks) ==> #[trigger] list_keys_result_body(ks).len() <= u32::MAX)
            ==> r is Ok,
        r matches Ok(c) ==> (c.name@ == "normal_response"@ && exists|ks: Seq<KeyInfoData>|
            lk_success_case(c, ks)),
        r matches Err(e) ==> e == FixtureError::BodyTooLarge,
{
    let mut keys: Vec<KeyInfoData> = Vec::new();
    keys.push(
        KeyInfoData { name: String::from_str("key1"), provider_id: PROVIDER_CRYPTOAUTHLIB },
    );
    keys.push(KeyInfoData { name: String::from_str("key2"), provider_id: PROVIDER_TPM });
    let op_bin = match operation_to_bin(OPCODE_LIST_KEYS, &OperationValue::ListKeys) {
        Ok(b) => b,
        Err(e) => {
            return Err(e);
        },
    };
    let mut expected: Vec<JsonValue> = Vec::new();
    expected.push(build_key_json(&keys[0]));
    expected.push(build_key_json(&keys[1]));
    let ghost ks = keys@;
    let resp_bin = match result_to_bin(
        OPCODE_LIST_KEYS,
        &ResultValue::ListKeys { keys },
        OutcomeStatus::Success,
    ) {
        Ok(b) => b,
        Err(e) => {
            return Err(e);
        },
    };
    let c = TestCase {
        name: String::from_str("normal_response"),
        request_data: JsonValue::Obj(Vec::new()),
        expected_request_binary: base64_encode(&op_bin),
        response_binary: base64_encode(&resp_bin),
        expected_response: JsonValue::Arr(expected),
        expect_success: true,
    };
    proof {
        assert(lk_success_case(c, ks));
    }
    Ok(c)
}

/// Build the failing case.
fn create_test_fail() -> (r: Result<TestCase, FixtureError>)
    ensures
        list_keys_result_body(Seq::empty()).len() <= u32::MAX ==> r is Ok,
        r matches Ok(c) ==> (c.name@ == "fail response"@ && lk_failure_case(c)),
        r matches Err(e) ==> e == FixtureError::BodyTooLarge,
{
    let op_bin = match operation_to_bin(OPCODE_LIST_KEYS, &OperationValue::ListKeys) {
        Ok(b) => b,
        Err(e) => {
            return Err(e);
        },
    };
    let keys: Vec<KeyInfoData> = Vec::new();
    let resp_bin = match result_to_bin(
        OPCODE_LIST_KEYS,
        &ResultValue::ListKeys { keys },
        OutcomeStatus::WrongProviderId,
    ) {
        Ok(b) => b,
        Err(e) => {
            return Err(e);
        },
    };
    Ok(
        TestCase {
            name: String::from_str("fail response"),
            request_data: JsonValue::Obj(Vec::new()),
            expected_request_binary: base64_encode(&op_bin),
            response_binary: base64_encode(&resp_bin),
            expected_response: JsonValue::Arr(Vec::new()),
            expect_success: false,
        },
    )
}

/// Build the list-keys suite: a two-record success case and a failing case.
pub fn create_test_suite() -> (r: Result<TestSuite, FixtureError>)
    ensures
        (list_keys_result_body(Seq::empty()).len() <= u32::MAX && forall|ks: Seq<KeyInfoData>|
            lk_fixture_records(ks) ==> #[trigger] list_keys_result_body(ks).len() <= u32::MAX)
            ==> r is Ok,
        r matches Ok(s) ==> {
            &&& s.op_code == OPCODE_LIST_KEYS
            &&& s.tests@.len() == 2
            &&& s.tests@[0].name@ == "normal_response"@
            &&& s.tests@[1].name@ == "fail response"@
            &&& exists|ks: Seq<KeyInfoData>| lk_success_case(s.tests@[0], ks)
            &&& lk_failure_case(s.tests@[1])
            &&& distinct_case_names(s.tests@)
            &&& has_success_case(s.tests@)
            &&& has_failure_case(s.tests@)
            &&& failing_cases_empty_array(s.tests@)
        },
        r matches Err(e) ==> e == FixtureError::BodyTooLarge,
{
    let good = match create_test_good() {
        Ok(c) => c,
        Err(e) => {
            return Err(e);
        },
    };
    let fail = match create_test_fail() {
        Ok(c) => c,
        Err(e) => {
            return Err(e);
        },
    };
    let mut tests: Vec<TestCase> = Vec::new();
    tests.push(good);
    tests.push(fail);
    proof {
        reveal_strlit("normal_response");
        reveal_strlit("fail response");
        assert(tests@.len() == 2);
        assert(tests@[0] == good && tests@[1] == fail);
        assert("normal_response"@.len() == 15);
        assert("fail response"@.len() == 13);
        assert(distinct_case_names(tests@));
    }
    match TestSuite::new(OPCODE_LIST_KEYS, tests) {
        Ok(s) => Ok(s),
        Err(e) => Err(e),
    }
}

} // verus!
