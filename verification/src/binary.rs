//! Reading instructions from a source of bytes and writing them to a sink.

pub mod decode;
pub mod encode;

pub use decode::{advance_by, DecodeError, Decoder, MemoryDecoder, SliceDecoder};
pub use encode::{infallible, stopped_within, wrote, Encoder, VecEncoder};
