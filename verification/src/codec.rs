//! The body codec boundary.
//!
//! Typed operation and result payloads are turned into opaque protobuf body
//! bytes by the `parsec-interface` crate. The harness does not restate that
//! encoding; each encoder below is trusted, and where the bytes are a
//! function of the plain field values alone, the result is given a name that
//! the frame-building contracts are stated over.

use vstd::prelude::*;

use num_traits::FromPrimitive;
use parsec_interface::operations::Convert;
use parsec_interface::operations::{
    list_authenticators, list_keys, list_opcodes, list_providers, ping, psa_aead_decrypt,
    psa_verify_hash, NativeOperation, NativeResult,
};
use parsec_interface::operations_protobuf::ProtobufConverter;
use parsec_interface::requests::{AuthType, Opcode, ProviderID};
use psa_crypto::types::algorithm::{AeadWithDefaultLengthTag, Algorithm, AsymmetricSignature};
use psa_crypto::types::key::{Attributes, Lifetime, Policy, Type, UsageFlags};
use std::convert::TryFrom;

verus! {

/// Provider identifiers the protocol defines.
pub open spec fn is_protocol_provider_id(id: u8) -> bool {
    id <= 5
}

/// Authenticator identifiers the protocol defines.
pub open spec fn is_protocol_auth_type(id: u8) -> bool {
    id <= 4
}

/// One provider record of a list-providers result, held as plain values: the
/// provider's unique identifier as its sixteen raw bytes, its numeric
/// protocol identifier, and its descriptive fields.
pub struct ProviderInfoData {
    /// The sixteen bytes of the provider's permanent unique identifier.
    pub uuid: [u8; 16],
    /// Short description of the provider.
    pub description: String,
    /// Provider vendor.
    pub vendor: String,
    /// Implementation version, major part.
    pub version_maj: u32,
    /// Implementation version, minor part.
    pub version_min: u32,
    /// Implementation version, revision part.
    pub version_rev: u32,
    /// Numeric protocol identifier of the provider.
    pub id: u8,
}

/// One authenticator record of a list-authenticators result, held as plain
/// values.
pub struct AuthenticatorInfoData {
    /// Short description of the authenticator.
    pub description: String,
    /// Implementation version, major part.
    pub version_maj: u32,
    /// Implementation version, minor part.
    pub version_min: u32,
    /// Implementation version, revision part.
    pub version_rev: u32,
    /// Numeric protocol identifier of the authenticator.
    pub id: u8,
}

/// One key record of a list-keys result, held as plain values.
pub struct KeyInfoData {
    /// Name of the key.
    pub name: String,
    /// Numeric protocol identifier of the provider holding the key.
    pub provider_id: u8,
}

/// The protobuf body bytes of a list-opcodes operation naming the given
/// provider.
pub uninterp spec fn list_opcodes_op_body(provider_id: u8) -> Seq<u8>;

/// The protobuf body bytes of an authenticated-encryption decrypt operation
/// using the CCM algorithm with its default tag length.
pub uninterp spec fn aead_decrypt_ccm_op_body(
    key_name: Seq<char>,
    nonce: Seq<u8>,
    ciphertext: Seq<u8>,
    additional_data: Seq<u8>,
) -> Seq<u8>;

/// The protobuf body bytes of a ping result carrying the given wire protocol
/// version.
pub uninterp spec fn ping_result_body(major: u8, minor: u8) -> Seq<u8>;

/// The protobuf body bytes of a list-providers result carrying the given
/// provider records.
pub uninterp spec fn list_providers_result_body(providers: Seq<ProviderInfoData>) -> Seq<u8>;

/// The protobuf body bytes of a list-authenticators result carrying the
/// given authenticator records.
pub uninterp spec fn list_authenticators_result_body(
    authenticators: Seq<AuthenticatorInfoData>,
) -> Seq<u8>;

/// The protobuf body bytes of a list-opcodes result carrying at most one
/// opcode.
pub uninterp spec fn list_opcodes_result_body(opcodes: Seq<u32>) -> Seq<u8>;

/// The protobuf body bytes of a list-keys result whose records all carry the
/// fixture's standard RSA-signing key attribute block.
pub uninterp spec fn list_keys_result_body(keys: Seq<KeyInfoData>) -> Seq<u8>;

/// The protobuf body bytes of an authenticated-encryption decrypt result
/// carrying the given plaintext.
pub uninterp spec fn aead_decrypt_result_body(plaintext: Seq<u8>) -> Seq<u8>;

/// The protobuf body bytes of a verify-hash operation using the RSA
/// PKCS#1 v1.5 SHA-256 signature algorithm.
pub uninterp spec fn verify_hash_op_body(
    key_name: Seq<char>,
    hash: Seq<u8>,
    signature: Seq<u8>,
) -> Seq<u8>;

/// Relies on `ProtobufConverter::operation_to_body` for the ping operation:
/// a message with no fields encodes to no bytes.
#[verifier::external_body]
pub(crate) fn encode_ping_operation() -> (r: Vec<u8>)
    ensures
        r@ == Seq::<u8>::empty(),
{
    let converter = ProtobufConverter {};
    let body = converter.operation_to_body(NativeOperation::Ping(ping::Operation {})).unwrap();
    body.bytes().to_vec()
}

/// Relies on `ProtobufConverter::operation_to_body` for the list-providers
/// operation: a message with no fields encodes to no bytes.
#[verifier::external_body]
pub(crate) fn encode_list_providers_operation() -> (r: Vec<u8>)
    ensures
        r@ == Seq::<u8>::empty(),
{
    let converter = ProtobufConverter {};
    let body = converter.operation_to_body(
        NativeOperation::ListProviders(list_providers::Operation {}),
    ).unwrap();
    body.bytes().to_vec()
}

/// Relies on `ProtobufConverter::operation_to_body` for the
/// list-authenticators operation: a message with no fields encodes to no
/// bytes.
#[verifier::external_body]
pub(crate) fn encode_list_authenticators_operation() -> (r: Vec<u8>)
    ensures
        r@ == Seq::<u8>::empty(),
{
    let converter = ProtobufConverter {};
    let body = converter.operation_to_body(
        NativeOperation::ListAuthenticators(list_authenticators::Operation {}),
    ).unwrap();
    body.bytes().to_vec()
}

/// Relies on `ProtobufConverter::operation_to_body` for the list-keys
/// operation: a message with no fields encodes to no bytes.
#[verifier::external_body]
pub(crate) fn encode_list_keys_operation() -> (r: Vec<u8>)
    ensures
        r@ == Seq::<u8>::empty(),
{
    let converter = ProtobufConverter {};
    let body = converter.operation_to_body(
        NativeOperation::ListKeys(list_keys::Operation {}),
    ).unwrap();
    body.bytes().to_vec()
}

/// Relies on `ProtobufConverter::operation_to_body` for the list-opcodes
/// operation: the encoding is a function of the provider identifier alone.
#[verifier::external_body]
pub(crate) fn encode_list_opcodes_operation(provider_id: u8) -> (r: Vec<u8>)
    requires
        is_protocol_provider_id(provider_id),
    ensures
        r@ == list_opcodes_op_body(provider_id),
{
    let converter = ProtobufConverter {};
    let op = list_opcodes::Operation { provider_id: ProviderID::try_from(provider_id).unwrap() };
    let body = converter.operation_to_body(NativeOperation::ListOpcodes(op)).unwrap();
    body.bytes().to_vec()
}

/// Relies on `ProtobufConverter::operation_to_body` for the
/// authenticated-encryption decrypt operation with the CCM algorithm: the
/// encoding is a function of the plain field values alone.
#[verifier::external_body]
pub(crate) fn encode_aead_decrypt_ccm_operation(
    key_name: &String,
    nonce: &Vec<u8>,
    ciphertext: &Vec<u8>,
    additional_data: &Vec<u8>,
) -> (r: Vec<u8>)
    ensures
        r@ == aead_decrypt_ccm_op_body(key_name@, nonce@, ciphertext@, additional_data@),
{
    let alg = psa_crypto::types::algorithm::Aead::AeadWithDefaultLengthTag(
        AeadWithDefaultLengthTag::Ccm,
    );
    let op = psa_aead_decrypt::Operation {
        key_name: key_name.clone(), alg,
        nonce: zeroize::Zeroizing::new(nonce.clone()),
        ciphertext: zeroize::Zeroizing::new(ciphertext.clone()),
        additional_data: zeroize::Zeroizing::new(additional_data.clone()),
    };
    let body = ProtobufConverter {}.operation_to_body(NativeOperation::PsaAeadDecrypt(op)).unwrap();
    body.bytes().to_vec()
}

/// Relies on `ProtobufConverter::result_to_body` for the ping result: the
/// encoding is a function of the two version numbers alone.
#[verifier::external_body]
pub(crate) fn encode_ping_result(major: u8, minor: u8) -> (r: Vec<u8>)
    ensures
        r@ == ping_result_body(major, minor),
{
    let converter = ProtobufConverter {};
    let res = ping::Result { wire_protocol_version_maj: major, wire_protocol_version_min: minor };
    let body = converter.result_to_body(NativeResult::Ping(res)).unwrap();
    body.bytes().to_vec()
}

/// Relies on `ProtobufConverter::result_to_body` for the list-providers
/// result: the encoding is a function of the provider records alone; the
/// unique identifier travels as its lower-case hyphenated text form.
#[verifier::external_body]
pub(crate) fn encode_list_providers_result(providers: &Vec<ProviderInfoData>) -> (r: Vec<u8>)
    requires
        forall|i: int|
            0 <= i < providers@.len() ==> is_protocol_provider_id(providers@[i].id),
    ensures
        r@ == list_providers_result_body(providers@),
{
    let infos = providers.iter().map(|p| list_providers::ProviderInfo {
        uuid: uuid::Uuid::from_bytes(p.uuid), description: p.description.clone(),
        vendor: p.vendor.clone(), version_maj: p.version_maj, version_min: p.version_min,
        version_rev: p.version_rev, id: ProviderID::try_from(p.id).unwrap(),
    }).collect();
    let res = list_providers::Result { providers: infos };
    let body = ProtobufConverter {}.result_to_body(NativeResult::ListProviders(res)).unwrap();
    body.bytes().to_vec()
}

/// Relies on `ProtobufConverter::result_to_body` for the list-authenticators
/// result: the encoding is a function of the authenticator records alone.
#[verifier::external_body]
pub(crate) fn encode_list_authenticators_result(
    authenticators: &Vec<AuthenticatorInfoData>,
) -> (r: Vec<u8>)
    requires
        forall|i: int|
            0 <= i < authenticators@.len() ==> is_protocol_auth_type(authenticators@[i].id),
    ensures
        r@ == list_authenticators_result_body(authenticators@),
{
    let infos = authenticators.iter().map(|a| list_authenticators::AuthenticatorInfo {
        description: a.description.clone(), version_maj: a.version_maj,
        version_min: a.version_min, version_rev: a.version_rev,
        id: AuthType::from_u8(a.id).unwrap(),
    }).collect();
    let res = list_authenticators::Result { authenticators: infos };
    let body = ProtobufConverter {}.result_to_body(NativeResult::ListAuthenticators(res)).unwrap();
    body.bytes().to_vec()
}

/// Relies on `ProtobufConverter::result_to_body` for the list-opcodes
/// result. The record set is unordered on the wire, so only an encoding of
/// at most one opcode is named: it is then a function of that opcode alone.
#[verifier::external_body]
pub(crate) fn encode_list_opcodes_result(opcodes: &Vec<u32>) -> (r: Vec<u8>)
    requires
        forall|i: int| 0 <= i < opcodes@.len() ==> crate::opcodes::is_protocol_opcode(opcodes@[i]),
    ensures
        opcodes@.len() <= 1 ==> r@ == list_opcodes_result_body(opcodes@),
{
    let set = opcodes.iter().map(|o| Opcode::from_u32(*o).unwrap()).collect();
    let converter = ProtobufConverter {};
    let body = converter.result_to_body(
        NativeResult::ListOpcodes(list_opcodes::Result { opcodes: set }),
    ).unwrap();
    body.bytes().to_vec()
}

/// Relies on `ProtobufConverter::result_to_body` for the list-keys result,
/// with every record carrying the fixture's standard RSA-signing attribute
/// block: the encoding is then a function of the key records alone.
#[verifier::external_body]
pub(crate) fn encode_list_keys_result(keys: &Vec<KeyInfoData>) -> (r: Vec<u8>)
    requires
        forall|i: int| 0 <= i < keys@.len() ==> is_protocol_provider_id(keys@[i].provider_id),
    ensures
        r@ == list_keys_result_body(keys@),
{
    let rsa_sign = Algorithm::AsymmetricSignature(AsymmetricSignature::RsaPkcs1v15Sign {
        hash_alg: psa_crypto::types::algorithm::Hash::Sha256.into(),
    });
    let attributes = Attributes {
        key_type: Type::RsaKeyPair, bits: 1024, lifetime: Lifetime::Volatile,
        policy: Policy { usage_flags: UsageFlags::default(), permitted_algorithms: rsa_sign },
    };
    let records = keys.iter().map(|k| list_keys::KeyInfo {
        name: k.name.clone(), provider_id: ProviderID::try_from(k.provider_id).unwrap(),
        attributes,
    }).collect();
    let res = NativeResult::ListKeys(list_keys::Result { keys: records });
    ProtobufConverter {}.result_to_body(res).unwrap().bytes().to_vec()
}

/// Relies on `ProtobufConverter::operation_to_body` for the verify-hash
/// operation with the RSA PKCS#1 v1.5 SHA-256 signature algorithm: the
/// encoding is a function of the plain field values alone.
#[verifier::external_body]
pub(crate) fn encode_verify_hash_rsa_operation(
    key_name: &String,
    hash: &Vec<u8>,
    signature: &Vec<u8>,
) -> (r: Vec<u8>)
    ensures
        r@ == verify_hash_op_body(key_name@, hash@, signature@),
{
    let alg = AsymmetricSignature::RsaPkcs1v15Sign {
        hash_alg: psa_crypto::types::algorithm::Hash::Sha256.into(),
    };
    let op = psa_verify_hash::Operation {
        key_name: key_name.clone(), alg,
        hash: zeroize::Zeroizing::new(hash.clone()),
        signature: zeroize::Zeroizing::new(signature.clone()),
    };
    let body = ProtobufConverter {}.operation_to_body(NativeOperation::PsaVerifyHash(op)).unwrap();
    body.bytes().to_vec()
}

/// Relies on `ProtobufConverter::result_to_body` for the verify-hash
/// result: a message with no fields encodes to no bytes.
#[verifier::external_body]
pub(crate) fn encode_verify_hash_result() -> (r: Vec<u8>)
    ensures
        r@ == Seq::<u8>::empty(),
{
    let converter = ProtobufConverter {};
    let res = NativeResult::PsaVerifyHash(psa_verify_hash::Result {});
    let body = converter.result_to_body(res).unwrap();
    body.bytes().to_vec()
}

/// Relies on `ProtobufConverter::result_to_body` for the
/// authenticated-encryption decrypt result: the encoding is a function of
/// the plaintext alone.
#[verifier::external_body]
pub(crate) fn encode_aead_decrypt_result(plaintext: &Vec<u8>) -> (r: Vec<u8>)
    ensures
        r@ == aead_decrypt_result_body(plaintext@),
{
    let converter = ProtobufConverter {};
    let res = psa_aead_decrypt::Result { plaintext: zeroize::Zeroizing::new(plaintext.clone()) };
    let body = converter.result_to_body(NativeResult::PsaAeadDecrypt(res)).unwrap();
    body.bytes().to_vec()
}

} // verus!
