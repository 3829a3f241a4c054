//! Error taxonomy of the fixture harness.

use vstd::prelude::*;

verus! {

/// Why a frame or a suite could not be produced.
///
/// Any of these aborts generation of the current suite: a fixture that cannot
/// be framed or named correctly must never be emitted.
#[derive(Clone, Copy, Debug, PartialEq, Eq, Structural)]
pub enum FixtureError {
    /// The encoded body does not fit the frame's 32-bit body-length field.
    BodyTooLarge,
    /// The authentication payload does not fit the 16-bit auth-length field.
    AuthTooLarge,
    /// Two test cases inside one suite carry the same name.
    DuplicateCaseName,
}

} // verus!
