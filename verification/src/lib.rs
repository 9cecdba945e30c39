//! The participant of a privacy-preserving federated-learning protocol.
//!
//! In every round a participant learns from the coordinator's round
//! parameters whether it is elected to sum, to update, or to wait. A sum
//! participant announces an ephemeral key and later sends the sum of the
//! masks whose seeds were sealed for it; an update participant sends its
//! masked model and the seed of the mask, sealed for every sum
//! participant.
//!
//! - [`message`] is the signed wire format: the header, the four
//!   payloads, and the encoder that cuts a long payload into chunks.
//! - [`state_machine`] is the phase state machine. It does no I/O: it
//!   says what it needs, takes what came of it, and says what to tell
//!   the host.
//! - [`crypto`] holds the keys and the calls into libsodium. Call
//!   [`crypto::init`] once before anything else. [`mask`] and
//!   [`dict`] hold what the protocol carries of the masking scheme and of
//!   the coordinator's dictionaries; [`common`] and [`settings`] hold the
//!   round parameters and the participant's settings.

pub mod bytes;
pub mod common;
pub mod crypto;
pub mod dict;
pub mod mask;
pub mod message;
pub mod settings;
pub mod state_machine;
