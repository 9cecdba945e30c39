//! The signed wire format: header, payloads, and the encoder that splits a
//! message into packets.

pub mod buffer;
pub mod encoder;
pub mod message;
pub mod payload;

pub use encoder::{InvalidEncodingInput, MessageEncoder};
pub use buffer::{DecodeError, MessageBuffer, HEADER_LENGTH};
pub use message::{Message, Tag};
pub use payload::{Chunk, Payload, Sum, Sum2, Update};
