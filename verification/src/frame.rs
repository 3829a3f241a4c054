//! Framing of typed operation and result payloads.
//!
//! A payload value is tagged with its operation kind; framing encodes it
//! through the body codec boundary and wraps the bytes in a request or
//! response frame. The opcode passed in must match the payload's kind:
//! a mismatched pair is a programming defect in a fixture provider, not a
//! recoverable condition, and is excluded by contract.

use vstd::prelude::*;

use crate::codec::{
    aead_decrypt_ccm_op_body, aead_decrypt_result_body, encode_aead_decrypt_ccm_operation,
    encode_aead_decrypt_result, encode_list_authenticators_operation,
    encode_list_authenticators_result, encode_list_keys_operation, encode_list_keys_result,
    encode_list_opcodes_operation, encode_list_opcodes_result, encode_list_providers_operation,
    encode_list_providers_result, encode_ping_operation, encode_ping_result,
    encode_verify_hash_result, encode_verify_hash_rsa_operation, is_protocol_auth_type,
    is_protocol_provider_id, list_authenticators_result_body, list_keys_result_body,
    list_opcodes_op_body, list_opcodes_result_body, list_providers_result_body,
    ping_result_body, verify_hash_op_body, AuthenticatorInfoData, KeyInfoData, ProviderInfoData,
};
use crate::errors::FixtureError;
use crate::opcodes::{
    is_protocol_opcode, OPCODE_LIST_AUTHENTICATORS, OPCODE_LIST_KEYS, OPCODE_LIST_OPCODES,
    OPCODE_LIST_PROVIDERS, OPCODE_PING, OPCODE_PSA_AEAD_DECRYPT, OPCODE_PSA_VERIFY_HASH,
};
use crate::status::{spec_status_code, status_code, OutcomeStatus};
use crate::wire::{
    lemma_request_round_trip, lemma_response_round_trip, request_frame_bytes,
    response_frame_bytes, serialize_request, serialize_response, spec_parse_request,
    spec_parse_response, RequestHeaderData, ResponseHeaderData, AUTH_NO_AUTH,
    BODY_TYPE_PROTOBUF, PROVIDER_CORE, PROVIDER_MBED_CRYPTO,
};

verus! {

/// A typed operation payload, tagged by its kind and holding its fields as
/// plain values.
pub enum OperationValue {
    /// The ping operation; it has no fields.
    Ping,
    /// The list-providers operation; it has no fields.
    ListProviders,
    /// The list-authenticators operation; it has no fields.
    ListAuthenticators,
    /// The list-keys operation; it has no fields.
    ListKeys,
    /// The list-opcodes operation, naming the provider asked about.
    ListOpcodes {
        /// Numeric identifier of the provider asked about.
        provider_id: u8,
    },
    /// The authenticated-encryption decrypt operation, using the CCM
    /// algorithm with its default tag length.
    PsaAeadDecryptCcm {
        /// Name of the key to decrypt with.
        key_name: String,
        /// The nonce.
        nonce: Vec<u8>,
        /// The ciphertext to decrypt.
        ciphertext: Vec<u8>,
        /// The additional authenticated data.
        additional_data: Vec<u8>,
    },
    /// The verify-hash operation, using the RSA PKCS#1 v1.5 SHA-256
    /// signature algorithm.
    PsaVerifyHashRsa {
        /// Name of the key to verify with.
        key_name: String,
        /// The hash whose signature is checked.
        hash: Vec<u8>,
        /// The signature to verify.
        signature: Vec<u8>,
    },
}

/// A typed result payload, tagged by its kind and holding its fields as
/// plain values.
pub enum ResultValue {
    /// A ping result carrying the wire protocol version.
    Ping {
        /// Major version.
        major: u8,
        /// Minor version.
        minor: u8,
    },
    /// A list-providers result.
    ListProviders {
        /// The provider records.
        providers: Vec<ProviderInfoData>,
    },
    /// A list-authenticators result.
    ListAuthenticators {
        /// The authenticator records.
        authenticators: Vec<AuthenticatorInfoData>,
    },
    /// A list-keys result.
    ListKeys {
        /// The key records.
        keys: Vec<KeyInfoData>,
    },
    /// A list-opcodes result.
    ListOpcodes {
        /// The opcodes supported by the provider asked about.
        opcodes: Vec<u32>,
    },
    /// An authenticated-encryption decrypt result.
    PsaAeadDecrypt {
        /// The recovered plaintext.
        plaintext: Vec<u8>,
    },
    /// A verify-hash result; it carries no payload.
    PsaVerifyHash,
}

/// The opcode belonging to an operation payload's kind.
pub open spec fn operation_opcode(op: OperationValue) -> u32 {
    match op {
        OperationValue::Ping => OPCODE_PING,
        OperationValue::ListProviders => OPCODE_LIST_PROVIDERS,
        OperationValue::ListAuthenticators => OPCODE_LIST_AUTHENTICATORS,
        OperationValue::ListKeys => OPCODE_LIST_KEYS,
        OperationValue::ListOpcodes { .. } => OPCODE_LIST_OPCODES,
        OperationValue::PsaAeadDecryptCcm { .. } => OPCODE_PSA_AEAD_DECRYPT,
        OperationValue::PsaVerifyHashRsa { .. } => OPCODE_PSA_VERIFY_HASH,
    }
}

/// The opcode belonging to a result payload's kind.
pub open spec fn result_opcode(r: ResultValue) -> u32 {
    match r {
        ResultValue::Ping { .. } => OPCODE_PING,
        ResultValue::ListProviders { .. } => OPCODE_LIST_PROVIDERS,
        ResultValue::ListAuthenticators { .. } => OPCODE_LIST_AUTHENTICATORS,
        ResultValue::ListKeys { .. } => OPCODE_LIST_KEYS,
        ResultValue::ListOpcodes { .. } => OPCODE_LIST_OPCODES,
        ResultValue::PsaAeadDecrypt { .. } => OPCODE_PSA_AEAD_DECRYPT,
        ResultValue::PsaVerifyHash => OPCODE_PSA_VERIFY_HASH,
    }
}

/// Well-formedness of an operation payload: every identifier it carries is
/// one the protocol defines.
pub open spec fn operation_wf(op: OperationValue) -> bool {
    match op {
        OperationValue::ListOpcodes { provider_id } => is_protocol_provider_id(provider_id),
        _ => true,
    }
}

/// Well-formedness of a result payload: every identifier it carries is one
/// the protocol defines, and a list-opcodes result carries at most one
/// opcode, since the record set is unordered on the wire and a larger set
/// would not frame reproducibly.
pub open spec fn result_wf(r: ResultValue) -> bool {
    match r {
        ResultValue::ListProviders { providers } => forall|i: int|
            0 <= i < providers@.len() ==> is_protocol_provider_id(providers@[i].id),
        ResultValue::ListAuthenticators { authenticators } => forall|i: int|
            0 <= i < authenticators@.len() ==> is_protocol_auth_type(authenticators@[i].id),
        ResultValue::ListKeys { keys } => forall|i: int|
            0 <= i < keys@.len() ==> is_protocol_provider_id(keys@[i].provider_id),
        ResultValue::ListOpcodes { opcodes } => opcodes@.len() <= 1 && forall|i: int|
            0 <= i < opcodes@.len() ==> is_protocol_opcode(opcodes@[i]),
        _ => true,
    }
}

/// The body bytes an operation payload encodes to.
pub open spec fn operation_body(op: OperationValue) -> Seq<u8> {
    match op {
        OperationValue::Ping => Seq::empty(),
        OperationValue::ListProviders => Seq::empty(),
        OperationValue::ListAuthenticators => Seq::empty(),
        OperationValue::ListKeys => Seq::empty(),
        OperationValue::ListOpcodes { provider_id } => list_opcodes_op_body(provider_id),
        OperationValue::PsaAeadDecryptCcm { key_name, nonce, ciphertext, additional_data } =>
            aead_decrypt_ccm_op_body(key_name@, nonce@, ciphertext@, additional_data@),
        OperationValue::PsaVerifyHashRsa { key_name, hash, signature } => verify_hash_op_body(
            key_name@,
            hash@,
            signature@,
        ),
    }
}

/// The body bytes a result payload encodes to.
pub open spec fn result_body(r: ResultValue) -> Seq<u8> {
    match r {
        ResultValue::Ping { major, minor } => ping_result_body(major, minor),
        ResultValue::ListProviders { providers } => list_providers_result_body(providers@),
        ResultValue::ListAuthenticators { authenticators } => list_authenticators_result_body(
            authenticators@,
        ),
        ResultValue::ListKeys { keys } => list_keys_result_body(keys@),
        ResultValue::ListOpcodes { opcodes } => list_opcodes_result_body(opcodes@),
        ResultValue::PsaAeadDecrypt { plaintext } => aead_decrypt_result_body(plaintext@),
        ResultValue::PsaVerifyHash => Seq::empty(),
    }
}

/// The header this harness gives every request frame: addressed to the core
/// service, session 0, protobuf content and accept encodings,
/// unauthenticated, carrying the given opcode.
pub open spec fn request_header(opcode: u32) -> RequestHeaderData {
    RequestHeaderData {
        provider: PROVIDER_CORE,
        session: 0,
        content_type: BODY_TYPE_PROTOBUF,
        accept_type: BODY_TYPE_PROTOBUF,
        auth_type: AUTH_NO_AUTH,
        opcode,
    }
}

/// The header this harness gives every response frame: produced by the
/// software provider, session 0, protobuf content encoding, carrying the
/// given opcode and status code.
pub open spec fn response_header(opcode: u32, status: u16) -> ResponseHeaderData {
    ResponseHeaderData {
        provider: PROVIDER_MBED_CRYPTO,
        session: 0,
        content_type: BODY_TYPE_PROTOBUF,
        opcode,
        status,
    }
}

/// Encode an operation payload into its body bytes.
fn encode_operation(operation: &OperationValue) -> (r: Vec<u8>)
    requires
        operation_wf(*operation),
    ensures
        r@ == operation_body(*operation),
{
    match operation {
        OperationValue::Ping => encode_ping_operation(),
        OperationValue::ListProviders => encode_list_providers_operation(),
        OperationValue::ListAuthenticators => encode_list_authenticators_operation(),
        OperationValue::ListKeys => encode_list_keys_operation(),
        OperationValue::ListOpcodes { provider_id } => encode_list_opcodes_operation(
            *provider_id,
        ),
        OperationValue::PsaAeadDecryptCcm {
            key_name,
            nonce,
            ciphertext,
            additional_data,
        } => encode_aead_decrypt_ccm_operation(key_name, nonce, ciphertext, additional_data),
        OperationValue::PsaVerifyHashRsa { key_name, hash, signature } =>
            encode_verify_hash_rsa_operation(key_name, hash, signature),
    }
}

/// Encode a result payload into its body bytes.
fn encode_result(result: &ResultValue) -> (r: Vec<u8>)
    requires
        result_wf(*result),
    ensures
        r@ == result_body(*result),
{
    match result {
        ResultValue::Ping { major, minor } => encode_ping_result(*major, *minor),
        ResultValue::ListProviders { providers } => encode_list_providers_result(providers),
        ResultValue::ListAuthenticators { authenticators } => encode_list_authenticators_result(
            authenticators,
        ),
        ResultValue::ListKeys { keys } => encode_list_keys_result(keys),
        ResultValue::ListOpcodes { opcodes } => encode_list_opcodes_result(opcodes),
        ResultValue::PsaAeadDecrypt { plaintext } => encode_aead_decrypt_result(plaintext),
        ResultValue::PsaVerifyHash => encode_verify_hash_result(),
    }
}

/// Build the complete request frame for an operation payload.
///
/// The opcode must be the one belonging to the payload's kind. Succeeds
/// exactly when the encoded body fits the frame's length field; the bytes
/// are then exactly the canonical request frame for this harness's fixed
/// request header, an empty authentication payload, and the payload's body.
pub fn operation_to_bin(op_code: u32, operation: &OperationValue) -> (r: Result<
    Vec<u8>,
    FixtureError,
>)
    requires
        op_code == operation_opcode(*operation),
        operation_wf(*operation),
    ensures
        operation_body(*operation).len() <= u32::MAX ==> (r matches Ok(b) && b@
            == request_frame_bytes(request_header(op_code), operation_body(*operation), Seq::empty())),
        operation_body(*operation).len() > u32::MAX ==> r == Result::<Vec<u8>, FixtureError>::Err(
            FixtureError::BodyTooLarge,
        ),
{
    let body = encode_operation(operation);
    let auth: Vec<u8> = Vec::new();
    let header = RequestHeaderData {
        provider: PROVIDER_CORE,
        session: 0,
        content_type: BODY_TYPE_PROTOBUF,
        accept_type: BODY_TYPE_PROTOBUF,
        auth_type: AUTH_NO_AUTH,
        opcode: op_code,
    };
    serialize_request(&header, &body, &auth)
}

/// Build the complete response frame for a result payload and an outcome.
///
/// The opcode must be the one belonging to the payload's kind. Succeeds
/// exactly when the encoded body fits the frame's length field; the bytes
/// are then exactly the canonical response frame for this harness's fixed
/// response header, the encoded status, and the payload's body.
pub fn result_to_bin(op_code: u32, result: &ResultValue, status: OutcomeStatus) -> (r: Result<
    Vec<u8>,
    FixtureError,
>)
    requires
        op_code == result_opcode(*result),
        result_wf(*result),
    ensures
        result_body(*result).len() <= u32::MAX ==> (r matches Ok(b) && b@ == response_frame_bytes(
            response_header(op_code, spec_status_code(status)),
            result_body(*result),
        )),
        result_body(*result).len() > u32::MAX ==> r == Result::<Vec<u8>, FixtureError>::Err(
            FixtureError::BodyTooLarge,
        ),
{
    let body = encode_result(result);
    let header = ResponseHeaderData {
        provider: PROVIDER_MBED_CRYPTO,
        session: 0,
        content_type: BODY_TYPE_PROTOBUF,
        opcode: op_code,
        status: status_code(status),
    };
    serialize_response(&header, &body)
}

/// Round-trip law: parsing any request frame this harness builds yields
/// exactly the harness's request header — in particular the frame's opcode
/// and the protobuf content and accept encodings — and the body it was
/// built from.
pub proof fn lemma_harness_request_round_trip(op: u32, body: Seq<u8>)
    requires
        body.len() <= u32::MAX,
    ensures
        spec_parse_request(request_frame_bytes(request_header(op), body, Seq::empty()))
            matches Some(t) && t.0 == request_header(op) && t.0.opcode == op && t.0.content_type
            == BODY_TYPE_PROTOBUF && t.0.accept_type == BODY_TYPE_PROTOBUF && t.1 == body,
{
    lemma_request_round_trip(request_header(op), body, Seq::empty());
}

/// Round-trip law: parsing any response frame this harness builds yields
/// exactly the harness's response header — in particular the frame's opcode
/// and status code — and the body it was built from.
pub proof fn lemma_harness_response_round_trip(op: u32, status: u16, body: Seq<u8>)
    requires
        body.len() <= u32::MAX,
    ensures
        spec_parse_response(response_frame_bytes(response_header(op, status), body))
            matches Some(t) && t.0 == response_header(op, status) && t.0.opcode == op
            && t.0.status == status && t.0.content_type == BODY_TYPE_PROTOBUF && t.1 == body,
{
    lemma_response_round_trip(response_header(op, status), body);
}

/// Determinism law: two request frames built from the same operation
/// payload are byte-identical.
pub proof fn lemma_operation_framing_deterministic(
    op: OperationValue,
    b1: Seq<u8>,
    b2: Seq<u8>,
)
    requires
        b1 == request_frame_bytes(
            request_header(operation_opcode(op)),
            operation_body(op),
            Seq::<u8>::empty(),
        ),
        b2 == request_frame_bytes(
            request_header(operation_opcode(op)),
            operation_body(op),
            Seq::<u8>::empty(),
        ),
    ensures
        b1 == b2,
{
}

/// Determinism law: two response frames built from the same result payload
/// and outcome are byte-identical.
pub proof fn lemma_result_framing_deterministic(
    r: ResultValue,
    status: OutcomeStatus,
    b1: Seq<u8>,
    b2: Seq<u8>,
)
    requires
        b1 == response_frame_bytes(
            response_header(result_opcode(r), spec_status_code(status)),
            result_body(r),
        ),
        b2 == response_frame_bytes(
            response_header(result_opcode(r), spec_status_code(status)),
            result_body(r),
        ),
    ensures
        b1 == b2,
{
}

} // verus!
