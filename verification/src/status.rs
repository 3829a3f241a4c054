//! The status encoder: the closed set of symbolic response outcomes and their
//! protocol-defined numeric codes.

use vstd::prelude::*;

verus! {

/// Symbolic outcome of a response: success, or one of the failure categories
/// this harness emits fixtures for.
#[derive(Clone, Copy, Debug, PartialEq, Eq, Structural)]
pub enum OutcomeStatus {
    /// The operation succeeded.
    Success,
    /// The request named a provider other than the one that can serve it.
    WrongProviderId,
    /// The request could not be authenticated.
    AuthenticationError,
    /// The provider does not support the requested operation.
    ProviderNotSupported,
}

/// The numeric status code the wire protocol assigns to each outcome.
pub open spec fn spec_status_code(s: OutcomeStatus) -> u16 {
    match s {
        OutcomeStatus::Success => 0,
        OutcomeStatus::WrongProviderId => 1,
        OutcomeStatus::AuthenticationError => 11,
        OutcomeStatus::ProviderNotSupported => 1134,
    }
}

/// Encode an outcome into the numeric status field of a response header.
pub fn status_code(s: OutcomeStatus) -> (r: u16)
    ensures
        r == spec_status_code(s),
{
    match s {
        OutcomeStatus::Success => 0,
        OutcomeStatus::WrongProviderId => 1,
        OutcomeStatus::AuthenticationError => 11,
        OutcomeStatus::ProviderNotSupported => 1134,
    }
}

/// The status encoding is injective: distinct outcomes never share a numeric
/// code, so the code in a response header identifies the outcome.
pub proof fn lemma_status_code_injective(a: OutcomeStatus, b: OutcomeStatus)
    ensures
        spec_status_code(a) == spec_status_code(b) ==> a == b,
{
}

} // verus!
