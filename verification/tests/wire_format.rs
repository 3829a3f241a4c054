//! The wire layout against golden bytes and against the reference protocol
//! implementation.

use fixture_gen::errors::FixtureError;
use fixture_gen::frame::{operation_to_bin, result_to_bin, OperationValue, ResultValue};
use fixture_gen::json::JsonValue;
use fixture_gen::model::{TestCase, TestSuite};
use fixture_gen::opcodes::{OPCODE_PING, OPCODE_PSA_AEAD_DECRYPT};
use fixture_gen::status::{status_code, OutcomeStatus};
use fixture_gen::text::{push_decimal, uuid_hyphenated};
use fixture_gen::wire::parse_request;

use parsec_interface::operations::{Convert, NativeOperation, NativeResult};
use parsec_interface::operations_protobuf::ProtobufConverter;
use parsec_interface::requests::request::{RequestAuth, RequestHeader};
use parsec_interface::requests::response::ResponseHeader;
use parsec_interface::requests::{
    AuthType, BodyType, Opcode, ProviderID, Request, Response, ResponseStatus,
};

#[test]
fn ping_request_frame_golden_bytes() {
    let frame = operation_to_bin(OPCODE_PING, &OperationValue::Ping).unwrap();
    let expected: Vec<u8> = vec![
        0x10, 0xA7, 0xC0, 0x5E, // magic
        0x1E, 0x00, // header size
        0x01, 0x00, // version
        0x00, 0x00, // flags
        0x00, // provider
        0x00, 0x00, 0x00, 0x00, 0x00, 0x00, 0x00, 0x00, // session
        0x00, // content type
        0x00, // accept type
        0x00, // auth type
        0x00, 0x00, 0x00, 0x00, // body length
        0x00, 0x00, // auth length
        0x01, 0x00, 0x00, 0x00, // opcode
        0x00, 0x00, // status
        0x00, 0x00, // reserved
    ];
    assert_eq!(frame, expected);
}

#[test]
fn ping_request_frame_matches_reference_impl() {
    let frame = operation_to_bin(OPCODE_PING, &OperationValue::Ping).unwrap();

    let converter = ProtobufConverter {};
    let request = Request {
        header: RequestHeader {
            provider: ProviderID::Core,
            session: 0,
            content_type: BodyType::Protobuf,
            accept_type: BodyType::Protobuf,
            auth_type: AuthType::NoAuth,
            opcode: Opcode::Ping,
        },
        body: converter
            .operation_to_body(NativeOperation::Ping(
                parsec_interface::operations::ping::Operation {},
            ))
            .unwrap(),
        auth: RequestAuth::new(vec![]),
    };
    let mut reference: Vec<u8> = vec![];
    request.write_to_stream(&mut reference).unwrap();
    assert_eq!(frame, reference);
}

#[test]
fn ping_response_frame_matches_reference_impl() {
    let frame = result_to_bin(
        OPCODE_PING,
        &ResultValue::Ping { major: 1, minor: 0 },
        OutcomeStatus::Success,
    )
    .unwrap();

    let converter = ProtobufConverter {};
    let response = Response {
        header: ResponseHeader {
            provider: ProviderID::MbedCrypto,
            session: 0,
            content_type: BodyType::Protobuf,
            opcode: Opcode::Ping,
            status: ResponseStatus::Success,
        },
        body: converter
            .result_to_body(NativeResult::Ping(parsec_interface::operations::ping::Result {
                wire_protocol_version_maj: 1,
                wire_protocol_version_min: 0,
            }))
            .unwrap(),
    };
    let mut reference: Vec<u8> = vec![];
    response.write_to_stream(&mut reference).unwrap();
    assert_eq!(frame, reference);
}

#[test]
fn aead_request_frame_parses_back() {
    let operation = OperationValue::PsaAeadDecryptCcm {
        key_name: String::from("key1"),
        nonce: b"nonce".to_vec(),
        ciphertext: b"ciphertext".to_vec(),
        additional_data: b"additional data".to_vec(),
    };
    let frame = operation_to_bin(OPCODE_PSA_AEAD_DECRYPT, &operation).unwrap();
    let parsed = parse_request(&frame).expect("the built frame must parse");
    assert_eq!(parsed.header.opcode, OPCODE_PSA_AEAD_DECRYPT);
    assert_eq!(parsed.header.provider, 0);
    assert_eq!(parsed.header.session, 0);
    assert_eq!(parsed.header.content_type, 0);
    assert_eq!(parsed.header.accept_type, 0);
    assert_eq!(parsed.header.auth_type, 0);
    assert!(parsed.auth.is_empty());
    assert!(!parsed.body.is_empty());
    assert_eq!(frame.len(), 36 + parsed.body.len());
}

#[test]
fn aead_request_frame_decodes_with_reference_impl() {
    let operation = OperationValue::PsaAeadDecryptCcm {
        key_name: String::from("key1"),
        nonce: b"nonce".to_vec(),
        ciphertext: b"ciphertext".to_vec(),
        additional_data: b"additional data".to_vec(),
    };
    let frame = operation_to_bin(OPCODE_PSA_AEAD_DECRYPT, &operation).unwrap();
    let mut stream: &[u8] = &frame;
    let request = Request::read_from_stream(&mut stream, 1 << 20).unwrap();
    assert_eq!(request.header.opcode, Opcode::PsaAeadDecrypt);
    let converter = ProtobufConverter {};
    let native = converter
        .body_to_operation(request.body, Opcode::PsaAeadDecrypt)
        .unwrap();
    match native {
        NativeOperation::PsaAeadDecrypt(op) => {
            assert_eq!(op.key_name, "key1");
            assert_eq!(op.nonce.to_vec(), b"nonce".to_vec());
            assert_eq!(op.ciphertext.to_vec(), b"ciphertext".to_vec());
            assert_eq!(op.additional_data.to_vec(), b"additional data".to_vec());
        }
        other => panic!("unexpected operation kind: {:?}", other),
    }
}

#[test]
fn parse_request_rejects_corrupt_frames() {
    let mut frame = operation_to_bin(OPCODE_PING, &OperationValue::Ping).unwrap();
    frame[0] ^= 0xFF;
    assert!(parse_request(&frame).is_none());

    let mut short = operation_to_bin(OPCODE_PING, &OperationValue::Ping).unwrap();
    short.pop();
    assert!(parse_request(&short).is_none());
}

#[test]
fn status_codes_match_the_protocol() {
    assert_eq!(status_code(OutcomeStatus::Success), 0);
    assert_eq!(status_code(OutcomeStatus::WrongProviderId), 1);
    assert_eq!(status_code(OutcomeStatus::AuthenticationError), 11);
    assert_eq!(status_code(OutcomeStatus::ProviderNotSupported), 1134);
    assert_eq!(
        status_code(OutcomeStatus::ProviderNotSupported),
        ResponseStatus::PsaErrorNotSupported as u16
    );
    assert_eq!(
        status_code(OutcomeStatus::AuthenticationError),
        ResponseStatus::AuthenticationError as u16
    );
    assert_eq!(
        status_code(OutcomeStatus::WrongProviderId),
        ResponseStatus::WrongProviderID as u16
    );
}

#[test]
fn uuid_hyphenated_renders_lower_case() {
    let bytes: [u8; 16] = [
        0x7b, 0x34, 0x4d, 0xe6, 0x69, 0xc3, 0x4c, 0x1c, 0x91, 0xce, 0x5c, 0xb4, 0x99, 0x82, 0x05,
        0xb8,
    ];
    let text = uuid_hyphenated(&bytes);
    assert_eq!(text, "7b344de6-69c3-4c1c-91ce-5cb4998205b8");
    let reference = uuid::Uuid::from_bytes(bytes);
    assert_eq!(text, reference.to_string());
}

#[test]
fn oversized_auth_payload_is_rejected() {
    let header = fixture_gen::wire::RequestHeaderData {
        provider: 0,
        session: 0,
        content_type: 0,
        accept_type: 0,
        auth_type: 0,
        opcode: OPCODE_PING,
    };
    let body: Vec<u8> = Vec::new();
    let auth: Vec<u8> = vec![0u8; (u16::MAX as usize) + 1];
    let result = fixture_gen::wire::serialize_request(&header, &body, &auth);
    assert_eq!(result, Err(fixture_gen::errors::FixtureError::AuthTooLarge));

    let small_auth: Vec<u8> = vec![0xA0, 0xB0, 0xC0];
    let frame = fixture_gen::wire::serialize_request(&header, &body, &small_auth).unwrap();
    assert_eq!(frame.len(), 36 + 3);
    assert_eq!(&frame[36..], &small_auth[..]);
}

#[test]
fn duplicate_case_names_are_rejected() {
    let make_case = |name: &str| TestCase {
        name: String::from(name),
        request_data: JsonValue::Obj(vec![]),
        expected_request_binary: String::new(),
        response_binary: String::new(),
        expected_response: JsonValue::Obj(vec![]),
        expect_success: true,
    };
    let clash = vec![make_case("same"), make_case("other"), make_case("same")];
    match TestSuite::new(OPCODE_PING, clash) {
        Err(FixtureError::DuplicateCaseName) => {}
        _ => panic!("a name collision must be rejected"),
    }
    let fine = vec![make_case("one"), make_case("two")];
    let suite = TestSuite::new(OPCODE_PING, fine).unwrap();
    assert_eq!(suite.tests.len(), 2);
}

#[test]
fn decimal_rendering_is_exact() {
    let mut out: Vec<u8> = Vec::new();
    push_decimal(&mut out, 0);
    assert_eq!(out, b"0".to_vec());
    let mut out: Vec<u8> = Vec::new();
    push_decimal(&mut out, 1134);
    assert_eq!(out, b"1134".to_vec());
    let mut out: Vec<u8> = Vec::new();
    push_decimal(&mut out, u64::MAX);
    assert_eq!(out, b"18446744073709551615".to_vec());
}
