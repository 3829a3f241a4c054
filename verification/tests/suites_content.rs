//! The emitted suites, held against the reference protocol implementation
//! and the documented fixture scenarios.

use fixture_gen::json::JsonValue;
use fixture_gen::model::TestSuite;
use fixture_gen::suites::all_suites;
use fixture_gen::wire::{parse_request, parse_response};
use fixture_gen::{list_authenticators, list_opcodes, list_providers, ping, psa_aead_decrypt, psa_verify_hash};

use parsec_interface::operations::{Convert, NativeOperation, NativeResult};
use parsec_interface::operations_protobuf::ProtobufConverter;
use parsec_interface::requests::{BodyType, Opcode, ProviderID, Request, Response, ResponseStatus};

fn decode_response(b64: &str) -> Response {
    let bytes = base64::decode(b64).unwrap();
    let mut stream: &[u8] = &bytes;
    Response::read_from_stream(&mut stream, 1 << 20).unwrap()
}

#[test]
fn ping_suite_normal_case() {
    let suite = ping::create_test_suite().unwrap();
    assert_eq!(suite.op_code, Opcode::Ping as u32);
    let case = &suite.tests[0];
    assert_eq!(case.name, "normal_response");
    assert!(case.expect_success);

    match &case.expected_response {
        JsonValue::Obj(ms) => {
            assert_eq!(ms.len(), 2);
            assert_eq!(ms[0].key, "major");
            assert!(matches!(ms[0].value, JsonValue::UInt(1)));
            assert_eq!(ms[1].key, "minor");
            assert!(matches!(ms[1].value, JsonValue::UInt(0)));
        }
        other => panic!("expected an object, got {:?}", shape_of(other)),
    }

    let response = decode_response(&case.response_binary);
    assert_eq!(response.header.opcode, Opcode::Ping);
    assert_eq!(response.header.status, ResponseStatus::Success);
    let converter = ProtobufConverter {};
    match converter.body_to_result(response.body, Opcode::Ping).unwrap() {
        NativeResult::Ping(r) => {
            assert_eq!(r.wire_protocol_version_maj, 1);
            assert_eq!(r.wire_protocol_version_min, 0);
        }
        _ => panic!("expected a ping result"),
    }
}

#[test]
fn ping_suite_is_deterministic() {
    let a = ping::create_test_suite().unwrap();
    let b = ping::create_test_suite().unwrap();
    assert_eq!(a.tests.len(), b.tests.len());
    for (x, y) in a.tests.iter().zip(b.tests.iter()) {
        assert_eq!(x.expected_request_binary, y.expected_request_binary);
        assert_eq!(x.response_binary, y.response_binary);
    }
}

#[test]
fn list_authenticators_failure_decodes_empty() {
    let suite = list_authenticators::create_test_suite().unwrap();
    let case = &suite.tests[1];
    assert!(!case.expect_success);
    match &case.expected_response {
        JsonValue::Arr(items) => assert!(items.is_empty()),
        other => panic!("expected an array, got {:?}", shape_of(other)),
    }
    let response = decode_response(&case.response_binary);
    assert_eq!(response.header.status, ResponseStatus::PsaErrorNotSupported);
    assert_eq!(response.header.opcode, Opcode::ListAuthenticators);
    let converter = ProtobufConverter {};
    match converter
        .body_to_result(response.body, Opcode::ListAuthenticators)
        .unwrap()
    {
        NativeResult::ListAuthenticators(r) => assert!(r.authenticators.is_empty()),
        _ => panic!("expected a list-authenticators result"),
    }
}

#[test]
fn list_providers_success_has_two_distinct_uuids() {
    let suite = list_providers::create_test_suite().unwrap();
    let case = &suite.tests[0];
    assert!(case.expect_success);
    let items = match &case.expected_response {
        JsonValue::Arr(items) => items,
        other => panic!("expected an array, got {:?}", shape_of(other)),
    };
    assert_eq!(items.len(), 2);
    let mut uuids: Vec<String> = Vec::new();
    let mut ids: Vec<u64> = Vec::new();
    for item in items {
        let ms = match item {
            JsonValue::Obj(ms) => ms,
            other => panic!("expected an object, got {:?}", shape_of(other)),
        };
        assert_eq!(ms[0].key, "id");
        if let JsonValue::UInt(id) = ms[0].value {
            ids.push(id);
        } else {
            panic!("id must be a number");
        }
        assert_eq!(ms[2].key, "uuid");
        if let JsonValue::Str(u) = &ms[2].value {
            uuids.push(u.clone());
        } else {
            panic!("uuid must be a string");
        }
    }
    assert_ne!(ids[0], ids[1]);
    assert_eq!(uuids[0], "7b344de6-69c3-4c1c-91ce-5cb4998205b8");
    assert_eq!(uuids[1], "9ac52be8-4b9c-4d20-9a6f-a2d56f447464");
    for u in &uuids {
        assert_eq!(u.len(), 36);
        assert!(u.chars().all(|c| c.is_ascii_lowercase() || c.is_ascii_digit() || c == '-'));
        let parsed = uuid::Uuid::parse_str(u).unwrap();
        assert_eq!(&parsed.to_string(), u);
    }

    let response = decode_response(&case.response_binary);
    let converter = ProtobufConverter {};
    match converter
        .body_to_result(response.body, Opcode::ListProviders)
        .unwrap()
    {
        NativeResult::ListProviders(r) => {
            assert_eq!(r.providers.len(), 2);
            assert_eq!(r.providers[0].uuid.to_string(), uuids[0]);
            assert_eq!(r.providers[1].uuid.to_string(), uuids[1]);
            assert_eq!(r.providers[0].description, "mbed crypto");
            assert_eq!(r.providers[1].description, "tpm");
        }
        _ => panic!("expected a list-providers result"),
    }
}

#[test]
fn registry_covers_each_known_opcode_once() {
    let suites = all_suites().unwrap();
    let opcodes: Vec<u32> = suites.iter().map(|s| s.op_code).collect();
    assert_eq!(
        opcodes,
        vec![
            Opcode::ListAuthenticators as u32,
            Opcode::ListKeys as u32,
            Opcode::ListOpcodes as u32,
            Opcode::ListProviders as u32,
            Opcode::Ping as u32,
            Opcode::PsaAeadDecrypt as u32,
            Opcode::PsaVerifyHash as u32,
        ]
    );
    for (i, a) in opcodes.iter().enumerate() {
        for b in opcodes.iter().skip(i + 1) {
            assert_ne!(a, b);
        }
    }
    for suite in &suites {
        assert!(suite.tests.iter().any(|c| c.expect_success));
        assert!(suite.tests.iter().any(|c| !c.expect_success));
        for (i, a) in suite.tests.iter().enumerate() {
            for b in suite.tests.iter().skip(i + 1) {
                assert_ne!(a.name, b.name);
            }
        }
    }
}

#[test]
fn failing_cases_carry_empty_shapes() {
    let suites = all_suites().unwrap();
    for suite in &suites {
        for case in &suite.tests {
            if !case.expect_success {
                match &case.expected_response {
                    JsonValue::Arr(items) => assert!(items.is_empty()),
                    JsonValue::Obj(ms) => assert!(ms.is_empty()),
                    other => panic!("unexpected failure shape: {:?}", shape_of(other)),
                }
            }
        }
    }
}

#[test]
fn every_request_binary_parses_to_the_suite_opcode() {
    let suites = all_suites().unwrap();
    for suite in &suites {
        for case in &suite.tests {
            let bytes = base64::decode(&case.expected_request_binary).unwrap();

            let parsed = parse_request(&bytes).expect("request frame must parse");
            assert_eq!(parsed.header.opcode, suite.op_code);
            assert_eq!(parsed.header.content_type, BodyType::Protobuf as u8);
            assert_eq!(parsed.header.accept_type, BodyType::Protobuf as u8);

            let mut stream: &[u8] = &bytes;
            let request = Request::read_from_stream(&mut stream, 1 << 20).unwrap();
            assert_eq!(request.header.opcode as u32, suite.op_code);
            assert_eq!(request.header.content_type, BodyType::Protobuf);
            assert_eq!(request.header.accept_type, BodyType::Protobuf);
        }
    }
}

#[test]
fn every_response_binary_parses_to_the_suite_opcode() {
    let suites = all_suites().unwrap();
    for suite in &suites {
        for case in &suite.tests {
            let bytes = base64::decode(&case.response_binary).unwrap();
            let parsed = parse_response(&bytes).expect("response frame must parse");
            assert_eq!(parsed.header.opcode, suite.op_code);
            assert_eq!(parsed.header.content_type, BodyType::Protobuf as u8);
            assert_eq!(parsed.header.provider, 1);
            if case.expect_success {
                assert_eq!(parsed.header.status, 0);
            } else {
                assert_ne!(parsed.header.status, 0);
            }
        }
    }
}

#[test]
fn list_keys_records_decode_with_reference_impl() {
    let suites = all_suites().unwrap();
    let suite = &suites[1];
    assert_eq!(suite.op_code, Opcode::ListKeys as u32);
    let case = &suite.tests[0];
    let response = decode_response(&case.response_binary);
    let converter = ProtobufConverter {};
    match converter.body_to_result(response.body, Opcode::ListKeys).unwrap() {
        NativeResult::ListKeys(r) => {
            assert_eq!(r.keys.len(), 2);
            assert_eq!(r.keys[0].name, "key1");
            assert_eq!(r.keys[1].name, "key2");
            assert_eq!(r.keys[0].attributes.bits, 1024);
        }
        _ => panic!("expected a list-keys result"),
    }
}

#[test]
fn list_opcodes_bodies_decode_with_reference_impl() {
    let suite = list_opcodes::create_test_suite().unwrap();
    let case = &suite.tests[0];

    let bytes = base64::decode(&case.expected_request_binary).unwrap();
    let mut stream: &[u8] = &bytes;
    let request = Request::read_from_stream(&mut stream, 1 << 20).unwrap();
    let converter = ProtobufConverter {};
    match converter.body_to_operation(request.body, Opcode::ListOpcodes).unwrap() {
        NativeOperation::ListOpcodes(op) => {
            assert_eq!(op.provider_id, ProviderID::MbedCrypto);
        }
        _ => panic!("expected a list-opcodes operation"),
    }

    let response = decode_response(&case.response_binary);
    match converter.body_to_result(response.body, Opcode::ListOpcodes).unwrap() {
        NativeResult::ListOpcodes(r) => {
            assert_eq!(r.opcodes.len(), 1);
            assert!(r.opcodes.contains(&Opcode::PsaAeadDecrypt));
        }
        _ => panic!("expected a list-opcodes result"),
    }
}

#[test]
fn aead_decrypt_result_decodes_with_reference_impl() {
    let suite = psa_aead_decrypt::create_test_suite().unwrap();
    let case = &suite.tests[0];
    let response = decode_response(&case.response_binary);
    assert_eq!(response.header.opcode, Opcode::PsaAeadDecrypt);
    let converter = ProtobufConverter {};
    match converter.body_to_result(response.body, Opcode::PsaAeadDecrypt).unwrap() {
        NativeResult::PsaAeadDecrypt(r) => {
            assert_eq!(r.plaintext.to_vec(), b"plaintext".to_vec());
        }
        _ => panic!("expected a decrypt result"),
    }
}

#[test]
fn verify_hash_suite_decodes_with_reference_impl() {
    let suite: TestSuite = psa_verify_hash::create_test_suite().unwrap();
    assert_eq!(suite.op_code, Opcode::PsaVerifyHash as u32);
    assert_eq!(suite.tests.len(), 2);
    let good = &suite.tests[0];
    let fail = &suite.tests[1];
    assert!(good.expect_success);
    assert!(!fail.expect_success);

    let bytes = base64::decode(&good.expected_request_binary).unwrap();
    let mut stream: &[u8] = &bytes;
    let request = Request::read_from_stream(&mut stream, 1 << 20).unwrap();
    assert_eq!(request.header.opcode, Opcode::PsaVerifyHash);
    let converter = ProtobufConverter {};
    match converter.body_to_operation(request.body, Opcode::PsaVerifyHash).unwrap() {
        NativeOperation::PsaVerifyHash(op) => {
            assert_eq!(op.key_name, "key1");
            assert_eq!(op.hash.to_vec(), b"hash".to_vec());
            assert_eq!(op.signature.to_vec(), b"signature".to_vec());
        }
        _ => panic!("expected a verify-hash operation"),
    }

    let response = decode_response(&good.response_binary);
    assert_eq!(response.header.status, ResponseStatus::Success);
    assert!(matches!(
        converter.body_to_result(response.body, Opcode::PsaVerifyHash).unwrap(),
        NativeResult::PsaVerifyHash(_)
    ));

    let response = decode_response(&fail.response_binary);
    assert_eq!(response.header.status, ResponseStatus::AuthenticationError);
    match &fail.expected_response {
        JsonValue::Obj(ms) => assert!(ms.is_empty()),
        other => panic!("unexpected failure shape: {:?}", shape_of(other)),
    }
}

fn shape_of(v: &JsonValue) -> &'static str {
    match v {
        JsonValue::Null => "null",
        JsonValue::Bool(_) => "bool",
        JsonValue::UInt(_) => "number",
        JsonValue::Str(_) => "string",
        JsonValue::Arr(_) => "array",
        JsonValue::Obj(_) => "object",
    }
}
