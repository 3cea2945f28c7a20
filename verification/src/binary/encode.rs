//! Sinks of bytes.

use crate::error::MachineError;
use vstd::prelude::*;

verus! {

/// A sink of bytes to encode to.
///
/// The model of an encoder is the sequence of all the bytes it has taken so
/// far, together with whether it takes one more.
pub trait Encoder: Sized {
    /// The errors of this sink. Every error of the machine has a place among
    /// them.
    type Error;

    /// The bytes written so far.
    spec fn written(&self) -> Seq<u8>;

    /// Whether the next write succeeds.
    spec fn accepts(&self) -> bool;

    /// The error with which the next write fails, if it fails.
    spec fn fault(&self) -> Self::Error;

    /// The error of this sink that stands for `error`.
    spec fn lift(error: MachineError) -> Self::Error;

    /// Writes one byte. A write that succeeds appends the byte to what was
    /// written; a write that fails leaves the encoder as it was.
    fn write(&mut self, byte: u8) -> (result: Result<(), Self::Error>)
        ensures
            match result {
                Ok(()) => {
                    &&& old(self).accepts()
                    &&& final(self).written() == old(self).written().push(byte)
                },
                Err(error) => {
                    &&& !old(self).accepts()
                    &&& error == old(self).fault()
                    &&& *final(self) == *old(self)
                },
            },
    ;

    /// The error of this sink that stands for `error`.
    fn machine_error(error: MachineError) -> (lifted: Self::Error)
        ensures
            lifted == Self::lift(error),
    ;
}

/// Whether `after` is `before` followed by the first bytes of `bytes`, but
/// not by all of them.
pub open spec fn stopped_within(before: Seq<u8>, after: Seq<u8>, bytes: Seq<u8>) -> bool {
    &&& before.len() <= after.len() < before.len() + bytes.len()
    &&& after =~= before + bytes.subrange(0, after.len() - before.len())
}

/// Whether writing `bytes` to the encoder `before`, byte by byte up to the
/// first write that fails, can have ended with `result` and left the encoder
/// `after`. Written in full, the bytes follow what was written before. A
/// write that failed was refused by the encoder as it is left, with the error
/// of that encoder, after some but not all of the bytes; if it was the first
/// write, the encoder is left as it was.
pub open spec fn wrote<E: Encoder>(
    before: E,
    after: E,
    bytes: Seq<u8>,
    result: Result<(), E::Error>,
) -> bool {
    match result {
        Ok(()) => {
            &&& after.written() == before.written() + bytes
            &&& bytes.len() > 0 ==> before.accepts()
        },
        Err(error) => {
            &&& stopped_within(before.written(), after.written(), bytes)
            &&& !after.accepts()
            &&& error == after.fault()
            &&& after.written().len() == before.written().len() ==> after == before
        },
    }
}

/// Whether every encoder of this kind takes every byte.
pub open spec fn infallible<E: Encoder>() -> bool {
    forall|encoder: E| #[trigger] encoder.accepts()
}

/// An encoder that collects the bytes in a vector.
#[derive(Debug)]
pub struct VecEncoder {
    pub output: Vec<u8>,
}

impl VecEncoder {
    /// An encoder that appends to `output`.
    pub fn new(output: Vec<u8>) -> (encoder: Self)
        ensures
            encoder.output == output,
    {
        Self { output }
    }

    /// The vector with everything that was written appended.
    pub fn into_output(self) -> (output: Vec<u8>)
        ensures
            output == self.output,
    {
        self.output
    }
}

impl Encoder for VecEncoder {
    type Error = MachineError;

    open spec fn written(&self) -> Seq<u8> {
        self.output@
    }

    open spec fn accepts(&self) -> bool {
        true
    }

    open spec fn fault(&self) -> MachineError {
        arbitrary()
    }

    open spec fn lift(error: MachineError) -> MachineError {
        error
    }

    fn write(&mut self, byte: u8) -> (result: Result<(), MachineError>) {
        self.output.push(byte);
        Ok(())
    }

    fn machine_error(error: MachineError) -> (lifted: MachineError) {
        error
    }
}

} // verus!
