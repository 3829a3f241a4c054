//! The suite registry: every opcode in the emitted set gets exactly one
//! suite, each with at least one success case and one failure case, and
//! every failing case carries the empty shape of its operation's result
//! kind.

use vstd::prelude::*;

use crate::codec::{
    aead_decrypt_result_body, list_authenticators_result_body, list_keys_result_body,
    list_opcodes_op_body, list_opcodes_result_body, list_providers_result_body, ping_result_body,
    AuthenticatorInfoData, KeyInfoData, ProviderInfoData,
};
use crate::errors::FixtureError;
use crate::list_authenticators::is_noauth_record;
use crate::list_keys::lk_fixture_records;
use crate::list_providers::lp_fixture_records;
use crate::model::{
    distinct_case_names, has_failure_case, has_success_case, suite_failure_shapes_ok, TestSuite,
};
use crate::opcodes::{
    known_opcodes, lemma_known_opcodes_distinct, OPCODE_LIST_AUTHENTICATORS, OPCODE_LIST_KEYS,
    OPCODE_LIST_OPCODES, OPCODE_LIST_PROVIDERS, OPCODE_PING, OPCODE_PSA_AEAD_DECRYPT,
    OPCODE_PSA_VERIFY_HASH,
};
use crate::psa_aead_decrypt::ad_op_body;
use crate::psa_verify_hash::vh_op_body;
use crate::wire::PROVIDER_MBED_CRYPTO;
use crate::{
    list_authenticators, list_keys, list_opcodes, list_providers, ping, psa_aead_decrypt,
    psa_verify_hash,
};
use vstd::utf8::encode_utf8;

verus! {

/// What the registry asks of one built suite: it is keyed by the expected
/// opcode, its case names are pairwise distinct, it carries at least one
/// success case and one failure case, and its failing cases expose the
/// empty shape of the operation's result kind.
pub open spec fn registry_suite_ok(s: TestSuite, op: u32) -> bool {
    &&& s.op_code == op
    &&& distinct_case_names(s.tests@)
    &&& has_success_case(s.tests@)
    &&& has_failure_case(s.tests@)
    &&& suite_failure_shapes_ok(s)
}

/// Every named protobuf body that the registry's fixtures frame fits the
/// 32-bit body-length field. Under this condition, building every suite
/// succeeds.
pub open spec fn all_bodies_fit() -> bool {
    &&& list_authenticators_result_body(Seq::empty()).len() <= u32::MAX
    &&& forall|auths: Seq<AuthenticatorInfoData>|
        (auths.len() == 1 && is_noauth_record(auths[0]))
            ==> #[trigger] list_authenticators_result_body(auths).len() <= u32::MAX
    &&& list_keys_result_body(Seq::empty()).len() <= u32::MAX
    &&& forall|ks: Seq<KeyInfoData>|
        lk_fixture_records(ks) ==> #[trigger] list_keys_result_body(ks).len() <= u32::MAX
    &&& list_opcodes_op_body(PROVIDER_MBED_CRYPTO).len() <= u32::MAX
    &&& list_opcodes_result_body(seq![OPCODE_PSA_AEAD_DECRYPT]).len() <= u32::MAX
    &&& list_opcodes_result_body(Seq::empty()).len() <= u32::MAX
    &&& list_providers_result_body(Seq::empty()).len() <= u32::MAX
    &&& forall|ps: Seq<ProviderInfoData>|
        lp_fixture_records(ps) ==> #[trigger] list_providers_result_body(ps).len() <= u32::MAX
    &&& ping_result_body(1, 0).len() <= u32::MAX
    &&& ping_result_body(3, 1).len() <= u32::MAX
    &&& ping_result_body(0, 0).len() <= u32::MAX
    &&& ad_op_body().len() <= u32::MAX
    &&& aead_decrypt_result_body(encode_utf8("plaintext"@)).len() <= u32::MAX
    &&& aead_decrypt_result_body(Seq::empty()).len() <= u32::MAX
    &&& vh_op_body().len() <= u32::MAX
}

/// Build the list-authenticators suite, keeping only the registry's view of
/// its contract.
fn build_list_authenticators() -> (r: Result<TestSuite, FixtureError>)
    ensures
        all_bodies_fit() ==> r is Ok,
        r matches Ok(s) ==> registry_suite_ok(s, OPCODE_LIST_AUTHENTICATORS),
        r matches Err(e) ==> e == FixtureError::BodyTooLarge,
{
    list_authenticators::create_test_suite()
}

/// Build the list-keys suite, keeping only the registry's view of its
/// contract.
fn build_list_keys() -> (r: Result<TestSuite, FixtureError>)
    ensures
        all_bodies_fit() ==> r is Ok,
        r matches Ok(s) ==> registry_suite_ok(s, OPCODE_LIST_KEYS),
        r matches Err(e) ==> e == FixtureError::BodyTooLarge,
{
    list_keys::create_test_suite()
}

/// Build the list-opcodes suite, keeping only the registry's view of its
/// contract.
fn build_list_opcodes() -> (r: Result<TestSuite, FixtureError>)
    ensures
        all_bodies_fit() ==> r is Ok,
        r matches Ok(s) ==> registry_suite_ok(s, OPCODE_LIST_OPCODES),
        r matches Err(e) ==> e == FixtureError::BodyTooLarge,
{
    list_opcodes::create_test_suite()
}

/// Build the list-providers suite, keeping only the registry's view of its
/// contract.
fn build_list_providers() -> (r: Result<TestSuite, FixtureError>)
    ensures
        all_bodies_fit() ==> r is Ok,
        r matches Ok(s) ==> registry_suite_ok(s, OPCODE_LIST_PROVIDERS),
        r matches Err(e) ==> e == FixtureError::BodyTooLarge,
{
    list_providers::create_test_suite()
}

/// Build the ping suite, keeping only the registry's view of its contract.
fn build_ping() -> (r: Result<TestSuite, FixtureError>)
    ensures
        all_bodies_fit() ==> r is Ok,
        r matches Ok(s) ==> registry_suite_ok(s, OPCODE_PING),
        r matches Err(e) ==> e == FixtureError::BodyTooLarge,
{
    ping::create_test_suite()
}

/// Build the decrypt suite, keeping only the registry's view of its
/// contract.
fn build_psa_aead_decrypt() -> (r: Result<TestSuite, FixtureError>)
    ensures
        all_bodies_fit() ==> r is Ok,
        r matches Ok(s) ==> registry_suite_ok(s, OPCODE_PSA_AEAD_DECRYPT),
        r matches Err(e) ==> e == FixtureError::BodyTooLarge,
{
    psa_aead_decrypt::create_test_suite()
}

/// Build the verify-hash suite, keeping only the registry's view of its
/// contract.
fn build_psa_verify_hash() -> (r: Result<TestSuite, FixtureError>)
    ensures
        all_bodies_fit() ==> r is Ok,
        r matches Ok(s) ==> registry_suite_ok(s, OPCODE_PSA_VERIFY_HASH),
        r matches Err(e) ==> e == FixtureError::BodyTooLarge,
{
    psa_verify_hash::create_test_suite()
}

/// Build one suite per known opcode, in emission order.
///
/// Succeeds exactly when every named protobuf body fits its frame's length
/// field; the result then lists exactly the known opcodes, in order, and
/// every suite meets the registry's per-suite conditions: distinct case
/// names, at least one success case and one failure case, and the empty
/// failure shapes of its operation's result kind.
#[verifier::rlimit(100)]
#[verifier::spinoff_prover]
pub fn all_suites() -> (r: Result<Vec<TestSuite>, FixtureError>)
    ensures
        all_bodies_fit() ==> r is Ok,
        r matches Ok(v) ==> {
            &&& v@.len() == known_opcodes().len()
            &&& forall|i: int|
                0 <= i < v@.len() ==> registry_suite_ok(v@[i], known_opcodes()[i])
        },
        r matches Err(e) ==> e == FixtureError::BodyTooLarge,
{
    let s0 = match build_list_authenticators() {
        Ok(s) => s,
        Err(e) => {
            return Err(e);
        },
    };
    let s1 = match build_list_keys() {
        Ok(s) => s,
        Err(e) => {
            return Err(e);
        },
    };
    let s2 = match build_list_opcodes() {
        Ok(s) => s,
        Err(e) => {
            return Err(e);
        },
    };
    let s3 = match build_list_providers() {
        Ok(s) => s,
        Err(e) => {
            return Err(e);
        },
    };
    let s4 = match build_ping() {
        Ok(s) => s,
        Err(e) => {
            return Err(e);
        },
    };
    let s5 = match build_psa_aead_decrypt() {
        Ok(s) => s,
        Err(e) => {
            return Err(e);
        },
    };
    let s6 = match build_psa_verify_hash() {
        Ok(s) => s,
        Err(e) => {
            return Err(e);
        },
    };
    let ghost g0 = s0;
    let ghost g1 = s1;
    let ghost g2 = s2;
    let ghost g3 = s3;
    let ghost g4 = s4;
    let ghost g5 = s5;
    let ghost g6 = s6;
    let mut v: Vec<TestSuite> = Vec::new();
    v.push(s0);
    v.push(s1);
    v.push(s2);
    v.push(s3);
    v.push(s4);
    v.push(s5);
    v.push(s6);
    proof {
        assert(v@.len() == 7);
        assert(v@[0] == g0 && v@[1] == g1 && v@[2] == g2 && v@[3] == g3 && v@[4] == g4 && v@[5]
            == g5 && v@[6] == g6);
    }
    Ok(v)
}

/// Suite completeness: a suite list that carries the known opcodes in order
/// names every known opcode exactly once.
pub proof fn lemma_one_suite_per_opcode(v: Seq<TestSuite>)
    requires
        v.len() == known_opcodes().len(),
        forall|i: int| 0 <= i < v.len() ==> v[i].op_code == known_opcodes()[i],
    ensures
        forall|op: u32|
            known_opcodes().contains(op) ==> exists|i: int|
                0 <= i < v.len() && v[i].op_code == op,
        forall|i: int, j: int| 0 <= i < j < v.len() ==> v[i].op_code != v[j].op_code,
{
    lemma_known_opcodes_distinct();
    assert forall|op: u32| known_opcodes().contains(op) implies exists|i: int|
        0 <= i < v.len() && v[i].op_code == op by {
        let k = choose|k: int| 0 <= k < known_opcodes().len() && known_opcodes()[k] == op;
        assert(v[k].op_code == op);
    }
}

} // verus!
