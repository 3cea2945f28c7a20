//! Sources of bytes: a cursor that hands out one byte at a time and moves on
//! only when it has handed one out.

use crate::error::{MachineError, ReadError};
use crate::memory::Memory;
use vstd::prelude::*;

verus! {

/// A source of bytes to decode from.
///
/// The model of a decoder is a position in a stream: [`Decoder::peek`] is the
/// byte at the position, if the source can supply it, and
/// [`Decoder::advance`] is the decoder one byte further.
pub trait Decoder: Sized {
    /// The errors of this source. Every error of the machine has a place
    /// among them.
    type Error;

    /// The byte that the next read returns, or `None` if the next read
    /// fails.
    spec fn peek(&self) -> Option<u8>;

    /// The error with which the next read fails, if it fails.
    spec fn fault(&self) -> Self::Error;

    /// The decoder as it is after one successful read.
    spec fn advance(&self) -> Self;

    /// The error of this source that stands for `error`.
    spec fn lift(error: MachineError) -> Self::Error;

    /// Reads one byte. The decoder moves on by one byte if the read
    /// succeeds, and stays where it is if the read fails.
    fn read(&mut self) -> (result: Result<u8, Self::Error>)
        ensures
            match result {
                Ok(byte) => {
                    &&& old(self).peek() == Some(byte)
                    &&& *final(self) == old(self).advance()
                },
                Err(error) => {
                    &&& old(self).peek() is None
                    &&& error == old(self).fault()
                    &&& *final(self) == *old(self)
                },
            },
    ;

    /// The error of this source that stands for `error`.
    fn machine_error(error: MachineError) -> (lifted: Self::Error)
        ensures
            lifted == Self::lift(error),
    ;
}

/// The decoder `decoder` after `count` successful reads.
pub open spec fn advance_by<D: Decoder>(decoder: D, count: nat) -> D
    decreases count,
{
    if count == 0 {
        decoder
    } else {
        advance_by(decoder.advance(), (count - 1) as nat)
    }
}

/// A decoder that reads the memory of a machine from a program counter on.
/// The program counter moves with every byte read and wraps around at the end
/// of the address space.
#[derive(Debug)]
pub struct MemoryDecoder<'mem> {
    pub memory: &'mem Memory,
    pub pc: u16,
}

impl<'mem> MemoryDecoder<'mem> {
    /// A decoder over `memory` that starts at `pc`.
    pub fn new(memory: &'mem Memory, pc: u16) -> (decoder: Self)
        ensures
            decoder.memory == memory,
            decoder.pc == pc,
    {
        Self { memory, pc }
    }

    /// The memory that the decoder reads.
    pub fn memory(&self) -> (memory: &'mem Memory)
        ensures
            memory == self.memory,
    {
        self.memory
    }

    /// The address of the next byte to read.
    pub fn pc(&self) -> (pc: u16)
        ensures
            pc == self.pc,
    {
        self.pc
    }

    /// The address of the next byte to read, to be changed in place.
    pub fn pc_mut(&mut self) -> (pc: &mut u16)
        ensures
            *pc == old(self).pc,
            final(self).pc == *final(pc),
            final(self).memory == old(self).memory,
    {
        &mut self.pc
    }
}

impl<'mem> Decoder for MemoryDecoder<'mem> {
    type Error = MachineError;

    open spec fn peek(&self) -> Option<u8> {
        match self.memory@.read(self.pc) {
            Ok(byte) => Some(byte),
            Err(_) => None,
        }
    }

    open spec fn fault(&self) -> MachineError {
        MachineError::Read(ReadError { address: self.pc })
    }

    open spec fn advance(&self) -> Self {
        MemoryDecoder { memory: self.memory, pc: self.pc.wrapping_add(1) }
    }

    open spec fn lift(error: MachineError) -> MachineError {
        error
    }

    fn read(&mut self) -> (result: Result<u8, MachineError>) {
        match self.memory.read(self.pc) {
            Ok(byte) => {
                self.pc = self.pc.wrapping_add(1);
                Ok(byte)
            },
            Err(error) => Err(MachineError::Read(error)),
        }
    }

    fn machine_error(error: MachineError) -> (lifted: MachineError) {
        error
    }
}

/// What can go wrong while decoding from a buffer of bytes.
#[derive(Debug, Clone, Copy, PartialEq, Eq, Structural)]
pub enum DecodeError {
    /// The buffer ended where a byte was expected.
    UnexpectedEof,
    /// The bytes are there but make no instruction.
    Machine(MachineError),
}

/// A decoder that reads a buffer of bytes from front to back.
#[derive(Debug)]
pub struct SliceDecoder<'buf> {
    pub bytes: &'buf [u8],
    pub position: usize,
}

impl<'buf> SliceDecoder<'buf> {
    /// A decoder at the front of `bytes`.
    pub fn new(bytes: &'buf [u8]) -> (decoder: Self)
        ensures
            decoder.bytes == bytes,
            decoder.position == 0,
    {
        Self { bytes, position: 0 }
    }

    /// The number of bytes read so far.
    pub fn position(&self) -> (position: usize)
        ensures
            position == self.position,
    {
        self.position
    }

    /// The number of bytes left to read.
    pub fn remaining(&self) -> (count: usize)
        ensures
            count == if self.position <= self.bytes@.len() {
                self.bytes@.len() - self.position
            } else {
                0
            },
    {
        if self.position <= self.bytes.len() {
            self.bytes.len() - self.position
        } else {
            0
        }
    }
}

impl<'buf> Decoder for SliceDecoder<'buf> {
    type Error = DecodeError;

    open spec fn peek(&self) -> Option<u8> {
        if self.position < self.bytes@.len() {
            Some(self.bytes@[self.position as int])
        } else {
            None
        }
    }

    open spec fn fault(&self) -> DecodeError {
        DecodeError::UnexpectedEof
    }

    open spec fn advance(&self) -> Self {
        SliceDecoder { bytes: self.bytes, position: (self.position + 1) as usize }
    }

    open spec fn lift(error: MachineError) -> DecodeError {
        DecodeError::Machine(error)
    }

    fn read(&mut self) -> (result: Result<u8, DecodeError>) {
        if self.position < self.bytes.len() {
            let byte = self.bytes[self.position];
            self.position = self.position + 1;
            Ok(byte)
        } else {
            Err(DecodeError::UnexpectedEof)
        }
    }

    fn machine_error(error: MachineError) -> (lifted: DecodeError) {
        DecodeError::Machine(error)
    }
}

} // verus!
