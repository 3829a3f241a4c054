//! Golden test-vector generation for the Parsec wire protocol.
//!
//! The crate frames opcode-tagged operation and result payloads into the
//! protocol's binary wire format, pairs the framed bytes with the JSON value a
//! correct client must decode from them, and aggregates such cases into
//! opcode-keyed test suites ready to be rendered as JSON documents.

pub mod b64;
pub mod codec;
pub mod emit;
pub mod errors;
pub mod frame;
pub mod json;
pub mod list_authenticators;
pub mod list_keys;
pub mod list_opcodes;
pub mod list_providers;
pub mod model;
pub mod opcodes;
pub mod ping;
pub mod psa_aead_decrypt;
pub mod psa_verify_hash;
pub mod render;
pub mod status;
pub mod suites;
pub mod text;
pub mod wire;

pub use errors::FixtureError;
pub use status::OutcomeStatus;
