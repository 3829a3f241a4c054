//! Operation codes of the wire protocol and the set this harness emits
//! suites for.

use vstd::prelude::*;

verus! {

/// Operation code of the ping operation.
pub const OPCODE_PING: u32 = 0x0001;

/// Operation code of the destroy-key operation, used as fixture data.
pub const OPCODE_PSA_DESTROY_KEY: u32 = 0x0003;

/// Operation code of the verify-hash operation.
pub const OPCODE_PSA_VERIFY_HASH: u32 = 0x0005;

/// Operation code of the list-providers operation.
pub const OPCODE_LIST_PROVIDERS: u32 = 0x0008;

/// Operation code of the list-opcodes operation.
pub const OPCODE_LIST_OPCODES: u32 = 0x0009;

/// Operation code of the list-authenticators operation.
pub const OPCODE_LIST_AUTHENTICATORS: u32 = 0x000E;

/// Operation code of the authenticated-encryption encrypt operation, used as
/// fixture data.
pub const OPCODE_PSA_AEAD_ENCRYPT: u32 = 0x0011;

/// Operation code of the authenticated-encryption decrypt operation.
pub const OPCODE_PSA_AEAD_DECRYPT: u32 = 0x0012;

/// Operation code of the list-keys operation.
pub const OPCODE_LIST_KEYS: u32 = 0x001A;

/// Every operation code defined by the protocol version this harness
/// targets.
pub open spec fn is_protocol_opcode(op: u32) -> bool {
    (0x0001 <= op <= 0x0013) || op == 0x001A || op == 0x001B || op == 0x001C
}

/// The opcodes this harness emits a fully-populated suite for, in emission
/// order.
pub open spec fn known_opcodes() -> Seq<u32> {
    seq![
        OPCODE_LIST_AUTHENTICATORS,
        OPCODE_LIST_KEYS,
        OPCODE_LIST_OPCODES,
        OPCODE_LIST_PROVIDERS,
        OPCODE_PING,
        OPCODE_PSA_AEAD_DECRYPT,
        OPCODE_PSA_VERIFY_HASH,
    ]
}

/// Whether an operation's result is list-style: its decoded value is a
/// collection, so a failing case must expose the empty array. Every other
/// operation's decoded value is an object, so a failing case must expose
/// the empty object.
pub open spec fn is_list_style_opcode(op: u32) -> bool {
    op == OPCODE_LIST_AUTHENTICATORS || op == OPCODE_LIST_KEYS || op == OPCODE_LIST_OPCODES
        || op == OPCODE_LIST_PROVIDERS
}

/// The opcodes of `known_opcodes` are pairwise distinct: each one names
/// exactly one suite.
pub proof fn lemma_known_opcodes_distinct()
    ensures
        forall|i: int, j: int|
            0 <= i < j < known_opcodes().len() ==> known_opcodes()[i] != known_opcodes()[j],
{
}

/// The file stem under which the suite of each known opcode is persisted.
pub open spec fn spec_operation_name(op: u32) -> Option<Seq<char>> {
    if op == OPCODE_LIST_AUTHENTICATORS {
        Some("list_authenticators"@)
    } else if op == OPCODE_LIST_KEYS {
        Some("list_keys"@)
    } else if op == OPCODE_LIST_OPCODES {
        Some("list_opcodes"@)
    } else if op == OPCODE_LIST_PROVIDERS {
        Some("list_providers"@)
    } else if op == OPCODE_PING {
        Some("ping"@)
    } else if op == OPCODE_PSA_AEAD_DECRYPT {
        Some("psa_aead_decrypt"@)
    } else if op == OPCODE_PSA_VERIFY_HASH {
        Some("psa_verify_hash"@)
    } else {
        None
    }
}

/// Name the output file stem for an opcode this harness can emit a suite
/// for.
pub fn operation_name(op: u32) -> (r: Option<&'static str>)
    ensures
        match r {
            Some(s) => spec_operation_name(op) matches Some(n) && s@ == n,
            None => spec_operation_name(op) is None,
        },
{
    if op == OPCODE_LIST_AUTHENTICATORS {
        Some("list_authenticators")
    } else if op == OPCODE_LIST_KEYS {
        Some("list_keys")
    } else if op == OPCODE_LIST_OPCODES {
        Some("list_opcodes")
    } else if op == OPCODE_LIST_PROVIDERS {
        Some("list_providers")
    } else if op == OPCODE_PING {
        Some("ping")
    } else if op == OPCODE_PSA_AEAD_DECRYPT {
        Some("psa_aead_decrypt")
    } else if op == OPCODE_PSA_VERIFY_HASH {
        Some("psa_verify_hash")
    } else {
        None
    }
}

} // verus!
