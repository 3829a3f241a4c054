//! The list-providers suite: provider records with unique identifiers
//! rendered as lower-case hyphenated text.

use vstd::prelude::*;

use crate::b64::{base64_encode, base64_of};
use crate::codec::{list_providers_result_body, ProviderInfoData};
use crate::errors::FixtureError;
use crate::frame::{
    operation_to_bin, request_header, response_header, result_to_bin, OperationValue, ResultValue,
};
use crate::json::{is_empty_array, is_empty_object, JsonMember, JsonValue};
use crate::model::{
    distinct_case_names, failing_cases_empty_array, has_failure_case, has_success_case, TestCase,
    TestSuite,
};
use crate::opcodes::OPCODE_LIST_PROVIDERS;
use crate::status::{spec_status_code, OutcomeStatus};
use crate::text::{ascii_chars, uuid_hyphenated, uuid_text};
use crate::wire::{
    request_frame_bytes, response_frame_bytes, PROVIDER_MBED_CRYPTO, PROVIDER_TPM,
};
use vstd::string::StringExecFns;

verus! {

/// The base64 text every case carries as its expected request: the frame of
/// an empty-bodied list-providers request.
pub open spec fn lp_request_b64() -> Seq<char> {
    base64_of(
        request_frame_bytes(request_header(OPCODE_LIST_PROVIDERS), Seq::empty(), Seq::empty()),
    )
}

/// The sixteen identifier bytes of the fixture's software provider record.
pub open spec fn mbed_uuid_bytes() -> Seq<u8> {
    seq![
        0x7bu8, 0x34u8, 0x4du8, 0xe6u8, 0x69u8, 0xc3u8, 0x4cu8, 0x1cu8, 0x91u8, 0xceu8, 0x5cu8,
        0xb4u8, 0x99u8, 0x82u8, 0x05u8, 0xb8u8,
    ]
}

/// The sixteen identifier bytes of the fixture's TPM provider record.
pub open spec fn tpm_uuid_bytes() -> Seq<u8> {
    seq![
        0x9au8, 0xc5u8, 0x2bu8, 0xe8u8, 0x4bu8, 0x9cu8, 0x4du8, 0x20u8, 0x9au8, 0x6fu8, 0xa2u8,
        0xd5u8, 0x6fu8, 0x44u8, 0x74u8, 0x64u8,
    ]
}

/// The fixture's software provider record.
pub open spec fn is_mbed_record(p: ProviderInfoData) -> bool {
    &&& p.uuid@ == mbed_uuid_bytes()
    &&& p.description@ == "mbed crypto"@
    &&& p.vendor@ == "vendor"@
    &&& p.version_maj == 1u32
    &&& p.version_min == 13u32
    &&& p.version_rev == 23u32
    &&& p.id == PROVIDER_MBED_CRYPTO
}

/// The fixture's TPM provider record.
pub open spec fn is_tpm_record(p: ProviderInfoData) -> bool {
    &&& p.uuid@ == tpm_uuid_bytes()
    &&& p.description@ == "tpm"@
    &&& p.vendor@ == "tpm vendor"@
    &&& p.version_maj == 2u32
    &&& p.version_min == 43u32
    &&& p.version_rev == 3u32
    &&& p.id == PROVIDER_TPM
}

/// The two fixture records, in order.
pub open spec fn lp_fixture_records(ps: Seq<ProviderInfoData>) -> bool {
    ps.len() == 2 && is_mbed_record(ps[0]) && is_tpm_record(ps[1])
}

/// The decoded value a correct client produces for one provider record: an
/// object whose `uuid` member is the record's identifier in lower-case
/// hyphenated text form.
pub open spec fn is_provider_json(v: JsonValue, p: ProviderInfoData) -> bool {
    &&& v matches JsonValue::Obj(ms)
    &&& ms@.len() == 7
    &&& ms@[0].key@ == "id"@
    &&& ms@[0].value matches JsonValue::UInt(x) && x == p.id
    &&& ms@[1].key@ == "description"@
    &&& ms@[1].value matches JsonValue::Str(d) && d@ == p.description@
    &&& ms@[2].key@ == "uuid"@
    &&& ms@[2].value matches JsonValue::Str(u) && u@ == ascii_chars(uuid_text(p.uuid@))
    &&& ms@[3].key@ == "vendor"@
    &&& ms@[3].value matches JsonValue::Str(w) && w@ == p.vendor@
    &&& ms@[4].key@ == "version_maj"@
    &&& ms@[4].value matches JsonValue::UInt(a) && a == p.version_maj
    &&& ms@[5].key@ == "version_min"@
    &&& ms@[5].value matches JsonValue::UInt(b) && b == p.version_min
    &&& ms@[6].key@ == "version_rev"@
    &&& ms@[6].value matches JsonValue::UInt(c) && c == p.version_rev
}

/// The successful case: two fixture records framed with success status and
/// expected to decode to an array of two provider objects.
pub open spec fn lp_success_case(c: TestCase, ps: Seq<ProviderInfoData>) -> bool {
    &&& lp_fixture_records(ps)
    &&& is_empty_object(c.request_data)
    &&& c.expected_request_binary@ == lp_request_b64()
    &&& c.response_binary@ == base64_of(
        response_frame_bytes(
            response_header(OPCODE_LIST_PROVIDERS, 0),
            list_providers_result_body(ps),
        ),
    )
    &&& c.expected_response matches JsonValue::Arr(a) && a@.len() == ps.len() && forall|i: int|
        0 <= i < a@.len() ==> is_provider_json(a@[i], ps[i])
    &&& c.expect_success
}

/// The failing case: an authentication error framed over an empty record
/// list and expected to decode to an empty array.
pub open spec fn lp_failure_case(c: TestCase) -> bool {
    &&& is_empty_object(c.request_data)
    &&& c.expected_request_binary@ == lp_request_b64()
    &&& c.response_binary@ == base64_of(
        response_frame_bytes(
            response_header(
                OPCODE_LIST_PROVIDERS,
                spec_status_code(OutcomeStatus::AuthenticationError),
            ),
            list_providers_result_body(Seq::empty()),
        ),
    )
    &&& is_empty_array(c.expected_response)
    &&& !c.expect_success
}

/// Build one provider record's decoded object.
fn build_provider_json(p: &ProviderInfoData) -> (r: JsonValue)
    ensures
        is_provider_json(r, *p),
{
    let mut ms: Vec<JsonMember> = Vec::new();
    ms.push(JsonMember { key: String::from_str("id"), value: JsonValue::UInt(p.id as u64) });
    ms.push(
        JsonMember {
            key: String::from_str("description"),
            value: JsonValue::Str(p.description.clone()),
        },
    );
    ms.push(
        JsonMember {
            key: String::from_str("uuid"),
            value: JsonValue::Str(uuid_hyphenated(&p.uuid)),
        },
    );
    ms.push(
        JsonMember { key: String::from_str("vendor"), value: JsonValue::Str(p.vendor.clone()) },
    );
    ms.push(
        JsonMember {
            key: String::from_str("version_maj"),
            value: JsonValue::UInt(p.version_maj as u64),
        },
    );
    ms.push(
        JsonMember {
            key: String::from_str("version_min"),
            value: JsonValue::UInt(p.version_min as u64),
        },
    );
    ms.push(
        JsonMember {
            key: String::from_str("version_rev"),
            value: JsonValue::UInt(p.version_rev as u64),
        },
    );
    JsonValue::Obj(ms)
}

/// Build the two fixture records.
fn fixture_providers() -> (r: Vec<ProviderInfoData>)
    ensures
        lp_fixture_records(r@),
{
    let u1: [u8; 16] = [
        0x7b, 0x34, 0x4d, 0xe6, 0x69, 0xc3, 0x4c, 0x1c, 0x91, 0xce, 0x5c, 0xb4, 0x99, 0x82, 0x05,
        0xb8,
    ];
    let u2: [u8; 16] = [
        0x9a, 0xc5, 0x2b, 0xe8, 0x4b, 0x9c, 0x4d, 0x20, 0x9a, 0x6f, 0xa2, 0xd5, 0x6f, 0x44, 0x74,
        0x64,
    ];
    assert(u1@ =~= mbed_uuid_bytes());
    assert(u2@ =~= tpm_uuid_bytes());
    let mut ps: Vec<ProviderInfoData> = Vec::new();
    ps.push(
        ProviderInfoData {
            uuid: u1,
            description: String::from_str("mbed crypto"),
            vendor: String::from_str("vendor"),
            version_maj: 1,
            version_min: 13,
            version_rev: 23,
            id: PROVIDER_MBED_CRYPTO,
        },
    );
    ps.push(
        ProviderInfoData {
            uuid: u2,
            description: String::from_str("tpm"),
            vendor: String::from_str("tpm vendor"),
            version_maj: 2,
            version_min: 43,
            version_rev: 3,
            id: PROVIDER_TPM,
        },
    );
    ps
}

/// Build the successful case.
fn create_test_good() -> (r: Result<TestCase, FixtureError>)
    ensures
        (forall|ps: Seq<ProviderInfoData>|
            lp_fixture_records(ps) ==> #[trigger] list_providers_result_body(ps).len()
                <= u32::MAX) ==> r is Ok,
        r matches Ok(c) ==> (c.name@ == "normal_response"@ && exists|ps: Seq<ProviderInfoData>|
            lp_success_case(c, ps)),
        r matches Err(e) ==> e == FixtureError::BodyTooLarge,
{
    let providers = fixture_providers();
    let op_bin = match operation_to_bin(OPCODE_LIST_PROVIDERS, &OperationValue::ListProviders) {
        Ok(b) => b,
        Err(e) => {
            return Err(e);
        },
    };
    let mut expected: Vec<JsonValue> = Vec::new();
    expected.push(build_provider_json(&providers[0]));
    expected.push(build_provider_json(&providers[1]));
    let ghost ps = providers@;
    let resp_bin = match result_to_bin(
        OPCODE_LIST_PROVIDERS,
        &ResultValue::ListProviders { providers },
        OutcomeStatus::Success,
    ) {
        Ok(b) => b,
        Err(e) => {
            return Err(e);
        },
    };
    let c = TestCase {
        name: String::from_str("normal_response"),
        request_data: JsonValue::Obj(Vec::new()),
        expected_request_binary: base64_encode(&op_bin),
        response_binary: base64_encode(&resp_bin),
        expected_response: JsonValue::Arr(expected),
        expect_success: true,
    };
    proof {
        assert(lp_success_case(c, ps));
    }
    Ok(c)
}

/// Build the failing case.
fn create_test_fail() -> (r: Result<TestCase, FixtureError>)
    ensures
        list_providers_result_body(Seq::empty()).len() <= u32::MAX ==> r is Ok,
        r matches Ok(c) ==> (c.name@ == "fail response"@ && lp_failure_case(c)),
        r matches Err(e) ==> e == FixtureError::BodyTooLarge,
{
    let op_bin = match operation_to_bin(OPCODE_LIST_PROVIDERS, &OperationValue::ListProviders) {
        Ok(b) => b,
        Err(e) => {
            return Err(e);
        },
    };
    let providers: Vec<ProviderInfoData> = Vec::new();
    let resp_bin = match result_to_bin(
        OPCODE_LIST_PROVIDERS,
        &ResultValue::ListProviders { providers },
        OutcomeStatus::AuthenticationError,
    ) {
        Ok(b) => b,
        Err(e) => {
            return Err(e);
        },
    };
    Ok(
        TestCase {
            name: String::from_str("fail response"),
            request_data: JsonValue::Obj(Vec::new()),
            expected_request_binary: base64_encode(&op_bin),
            response_binary: base64_encode(&resp_bin),
            expected_response: JsonValue::Arr(Vec::new()),
            expect_success: false,
        },
    )
}

/// Build the list-providers suite: a two-record success case and a failing
/// case.
pub fn create_test_suite() -> (r: Result<TestSuite, FixtureError>)
    ensures
        (list_providers_result_body(Seq::empty()).len() <= u32::MAX && forall|
            ps: Seq<ProviderInfoData>,
        |
            lp_fixture_records(ps) ==> #[trigger] list_providers_result_body(ps).len()
                <= u32::MAX) ==> r is Ok,
        r matches Ok(s) ==> {
            &&& s.op_code == OPCODE_LIST_PROVIDERS
            &&& s.tests@.len() == 2
            &&& s.tests@[0].name@ == "normal_response"@
            &&& s.tests@[1].name@ == "fail response"@
            &&& exists|ps: Seq<ProviderInfoData>| lp_success_case(s.tests@[0], ps)
            &&& lp_failure_case(s.tests@[1])
            &&& distinct_case_names(s.tests@)
            &&& has_success_case(s.tests@)
            &&& has_failure_case(s.tests@)
            &&& failing_cases_empty_array(s.tests@)
        },
        r matches Err(e) ==> e == FixtureError::BodyTooLarge,
{
    let good = match create_test_good() {
        Ok(c) => c,
        Err(e) => {
            return Err(e);
        },
    };
    let fail = match create_test_fail() {
        Ok(c) => c,
        Err(e) => {
            return Err(e);
        },
    };
    let mut tests: Vec<TestCase> = Vec::new();
    tests.push(good);
    tests.push(fail);
    proof {
        reveal_strlit("normal_response");
        reveal_strlit("fail response");
        assert(tests@.len() == 2);
        assert(tests@[0] == good && tests@[1] == fail);
        assert("normal_response"@.len() == 15);
        assert("fail response"@.len() == 13);
        assert(distinct_case_names(tests@));
    }
    match TestSuite::new(OPCODE_LIST_PROVIDERS, tests) {
        Ok(s) => Ok(s),
        Err(e) => Err(e),
    }
}

} // verus!
