//! The list-authenticators suite.

use vstd::prelude::*;

use crate::b64::{base64_encode, base64_of};
use crate::codec::{list_authenticators_result_body, AuthenticatorInfoData};
use crate::errors::FixtureError;
use crate::frame::{
    operation_to_bin, request_header, response_header, result_to_bin, OperationValue, ResultValue,
};
use crate::json::{is_empty_array, is_empty_object, JsonMember, JsonValue};
use crate::model::{
    distinct_case_names, failing_cases_empty_array, has_failure_case, has_success_case, TestCase,
    TestSuite,
};
use crate::opcodes::OPCODE_LIST_AUTHENTICATORS;
use crate::status::{spec_status_code, OutcomeStatus};
use crate::wire::{request_frame_bytes, response_frame_bytes, AUTH_NO_AUTH};
use vstd::string::StringExecFns;

verus! {

/// The base64 text every case carries as its expected request: the frame of
/// an empty-bodied list-authenticators request.
pub open spec fn la_request_b64() -> Seq<char> {
    base64_of(
        request_frame_bytes(
            request_header(OPCODE_LIST_AUTHENTICATORS),
            Seq::empty(),
            Seq::empty(),
        ),
    )
}

/// The fixture's single authenticator record: the no-authentication
/// authenticator at version 0.1.45.
pub open spec fn is_noauth_record(a: AuthenticatorInfoData) -> bool {
    &&& a.description@ == "No Auth"@
    &&& a.version_maj == 0u32
    &&& a.version_min == 1u32
    &&& a.version_rev == 45u32
    &&& a.id == AUTH_NO_AUTH
}

/// The decoded value a correct client produces for one authenticator
/// record.
pub open spec fn is_authenticator_json(v: JsonValue, a: AuthenticatorInfoData) -> bool {
    &&& v matches JsonValue::Obj(ms)
    &&& ms@.len() == 5
    &&& ms@[0].key@ == "id"@
    &&& ms@[0].value matches JsonValue::UInt(x) && x == a.id
    &&& ms@[1].key@ == "description"@
    &&& ms@[1].value matches JsonValue::Str(d) && d@ == a.description@
    &&& ms@[2].key@ == "version_maj"@
    &&& ms@[2].value matches JsonValue::UInt(p) && p == a.version_maj
    &&& ms@[3].key@ == "version_min"@
    &&& ms@[3].value matches JsonValue::UInt(q) && q == a.version_min
    &&& ms@[4].key@ == "version_rev"@
    &&& ms@[4].value matches JsonValue::UInt(w) && w == a.version_rev
}

/// The successful case: one fixture record framed with success status and
/// expected to decode to a one-element array.
pub open spec fn la_success_case(c: TestCase, auths: Seq<AuthenticatorInfoData>) -> bool {
    &&& auths.len() == 1 && is_noauth_record(auths[0])
    &&& is_empty_object(c.request_data)
    &&& c.expected_request_binary@ == la_request_b64()
    &&& c.response_binary@ == base64_of(
        response_frame_bytes(
            response_header(OPCODE_LIST_AUTHENTICATORS, 0),
            list_authenticators_result_body(auths),
        ),
    )
    &&& c.expected_response matches JsonValue::Arr(arr) && arr@.len() == 1
        && is_authenticator_json(arr@[0], auths[0])
    &&& c.expect_success
}

/// The failing case: a provider-not-supported status framed over an empty
/// record list and expected to decode to an empty array.
pub open spec fn la_failure_case(c: TestCase) -> bool {
    &&& is_empty_object(c.request_data)
    &&& c.expected_request_binary@ == la_request_b64()
    &&& c.response_binary@ == base64_of(
        response_frame_bytes(
            response_header(
                OPCODE_LIST_AUTHENTICATORS,
                spec_status_code(OutcomeStatus::ProviderNotSupported),
            ),
            list_authenticators_result_body(Seq::empty()),
        ),
    )
    &&& is_empty_array(c.expected_response)
    &&& !c.expect_success
}

/// Build the successful case.
fn create_test_good() -> (r: Result<TestCase, FixtureError>)
    ensures
        (forall|auths: Seq<AuthenticatorInfoData>|
            (auths.len() == 1 && is_noauth_record(auths[0]))
                ==> #[trigger] list_authenticators_result_body(auths).len() <= u32::MAX) ==> r
            is Ok,
        r matches Ok(c) ==> (c.name@ == "normal_response"@ && exists|
            auths: Seq<AuthenticatorInfoData>,
        | la_success_case(c, auths)),
        r matches Err(e) ==> e == FixtureError::BodyTooLarge,
{
    let mut auths: Vec<AuthenticatorInfoData> = Vec::new();
    auths.push(
        AuthenticatorInfoData {
            description: String::from_str("No Auth"),
            version_maj: 0,
            version_min: 1,
            version_rev: 45,
            id: AUTH_NO_AUTH,
        },
    );
    let op_bin = match operation_to_bin(
        OPCODE_LIST_AUTHENTICATORS,
        &OperationValue::ListAuthenticators,
    ) {
        Ok(b) => b,
        Err(e) => {
            return Err(e);
        },
    };
    let mut rec: Vec<JsonMember> = Vec::new();
    rec.push(JsonMember { key: String::from_str("id"), value: JsonValue::UInt(AUTH_NO_AUTH as u64) });
    rec.push(
        JsonMember {
            key: String::from_str("description"),
            value: JsonValue::Str(String::from_str("No Auth")),
        },
    );
    rec.push(JsonMember { key: String::from_str("version_maj"), value: JsonValue::UInt(0) });
    rec.push(JsonMember { key: String::from_str("version_min"), value: JsonValue::UInt(1) });
    rec.push(JsonMember { key: String::from_str("version_rev"), value: JsonValue::UInt(45) });
    let mut expected: Vec<JsonValue> = Vec::new();
    expected.push(JsonValue::Obj(rec));
    let ghost ghost_auths = auths@;
    let resp_bin = match result_to_bin(
        OPCODE_LIST_AUTHENTICATORS,
        &ResultValue::ListAuthenticators { authenticators: auths },
        OutcomeStatus::Success,
    ) {
        Ok(b) => b,
        Err(e) => {
            return Err(e);
        },
    };
    let c = TestCase {
        name: String::from_str("normal_response"),
        request_data: JsonValue::Obj(Vec::new()),
        expected_request_binary: base64_encode(&op_bin),
        response_binary: base64_encode(&resp_bin),
        expected_response: JsonValue::Arr(expected),
        expect_success: true,
    };
    proof {
        assert(la_success_case(c, ghost_auths));
    }
    Ok(c)
}

/// Build the failing case.
fn create_test_fail() -> (r: Result<TestCase, FixtureError>)
    ensures
        list_authenticators_result_body(Seq::empty()).len() <= u32::MAX ==> r is Ok,
        r matches Ok(c) ==> (c.name@ == "failing response"@ && la_failure_case(c)),
        r matches Err(e) ==> e == FixtureError::BodyTooLarge,
{
    let op_bin = match operation_to_bin(
        OPCODE_LIST_AUTHENTICATORS,
        &OperationValue::ListAuthenticators,
    ) {
        Ok(b) => b,
        Err(e) => {
            return Err(e);
        },
    };
    let auths: Vec<AuthenticatorInfoData> = Vec::new();
    let resp_bin = match result_to_bin(
        OPCODE_LIST_AUTHENTICATORS,
        &ResultValue::ListAuthenticators { authenticators: auths },
        OutcomeStatus::ProviderNotSupported,
    ) {
        Ok(b) => b,
        Err(e) => {
            return Err(e);
        },
    };
    Ok(
        TestCase {
            name: String::from_str("failing response"),
            request_data: JsonValue::Obj(Vec::new()),
            expected_request_binary: base64_encode(&op_bin),
            response_binary: base64_encode(&resp_bin),
            expected_response: JsonValue::Arr(Vec::new()),
            expect_success: false,
        },
    )
}

/// Build the list-authenticators suite: a one-record success case and a
/// failing case.
pub fn create_test_suite() -> (r: Result<TestSuite, FixtureError>)
    ensures
        (list_authenticators_result_body(Seq::empty()).len() <= u32::MAX && forall|
            auths: Seq<AuthenticatorInfoData>,
        |
            (auths.len() == 1 && is_noauth_record(auths[0]))
                ==> #[trigger] list_authenticators_result_body(auths).len() <= u32::MAX) ==> r
            is Ok,
        r matches Ok(s) ==> {
            &&& s.op_code == OPCODE_LIST_AUTHENTICATORS
            &&& s.tests@.len() == 2
            &&& s.tests@[0].name@ == "normal_response"@
            &&& s.tests@[1].name@ == "failing response"@
            &&& exists|auths: Seq<AuthenticatorInfoData>| la_success_case(s.tests@[0], auths)
            &&& la_failure_case(s.tests@[1])
            &&& distinct_case_names(s.tests@)
            &&& has_success_case(s.tests@)
            &&& has_failure_case(s.tests@)
            &&& failing_cases_empty_array(s.tests@)
        },
        r matches Err(e) ==> e == FixtureError::BodyTooLarge,
{
    let good = match create_test_good() {
        Ok(c) => c,
        Err(e) => {
            return Err(e);
        },
    };
    let fail = match create_test_fail() {
        Ok(c) => c,
        Err(e) => {
            return Err(e);
        },
    };
    let mut tests: Vec<TestCase> = Vec::new();
    tests.push(good);
    tests.push(fail);
    proof {
        reveal_strlit("normal_response");
        reveal_strlit("failing response");
        assert(tests@.len() == 2);
        assert(tests@[0] == good && tests@[1] == fail);
        assert("normal_response"@.len() == 15);
        assert("failing response"@.len() == 16);
        assert(distinct_case_names(tests@));
    }
    match TestSuite::new(OPCODE_LIST_AUTHENTICATORS, tests) {
        Ok(s) => Ok(s),
        Err(e) => Err(e),
    }
}

} // verus!
