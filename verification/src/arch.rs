//! The primitive values of the architecture: bytes, 16-bit addresses and
//! signed offsets, and the little-endian pairing of two bytes into a word.

use crate::binary::Decoder;
use vstd::prelude::*;

verus! {

/// The bits of a machine word.
pub type WordBits = u8;

/// The bits of a full address.
pub type AddressBits = u16;

/// The bits of an address within one page.
pub type PageAddrBits = u8;

/// The bits of an offset relative to the program counter.
pub type RelativeAddrBits = i8;

/// The 16-bit value whose little-endian bytes are `low`, `high`.
pub open spec fn spec_from_le_bytes(low: u8, high: u8) -> u16 {
    (high * 256 + low) as u16
}

/// The low byte of `word`.
pub open spec fn spec_low_byte(word: u16) -> u8 {
    (word % 256) as u8
}

/// The high byte of `word`.
pub open spec fn spec_high_byte(word: u16) -> u8 {
    (word / 256) as u8
}

/// The value of `byte` read as a two's complement number.
pub open spec fn signed(byte: u8) -> int {
    if byte >= 128 {
        byte - 256
    } else {
        byte as int
    }
}

/// Splitting a word into its bytes and pairing them again gives the word, and
/// pairing two bytes and splitting the pair gives the bytes.
pub proof fn lemma_le_bytes_round_trip(word: u16, low: u8, high: u8)
    ensures
        spec_from_le_bytes(spec_low_byte(word), spec_high_byte(word)) == word,
        spec_low_byte(spec_from_le_bytes(low, high)) == low,
        spec_high_byte(spec_from_le_bytes(low, high)) == high,
{
}

/// The signed offset whose two's complement byte is `byte`.
pub open spec fn spec_to_signed(byte: u8) -> i8 {
    signed(byte) as i8
}

/// The two's complement byte of the signed offset `value`.
pub open spec fn spec_to_unsigned(value: i8) -> u8 {
    if value < 0 {
        (value + 256) as u8
    } else {
        value as u8
    }
}

/// Reading a byte as a signed offset and writing the offset as a byte gives
/// the byte, and the other way round.
pub proof fn lemma_signed_round_trip(byte: u8, value: i8)
    ensures
        spec_to_unsigned(spec_to_signed(byte)) == byte,
        spec_to_signed(spec_to_unsigned(value)) == value,
        spec_to_signed(byte) == signed(byte),
{
}

/// The signed offset whose two's complement byte is `byte`.
pub fn to_signed(byte: u8) -> (value: i8)
    ensures
        value == spec_to_signed(byte),
{
    if byte >= 128 {
        (byte as i16 - 256) as i8
    } else {
        byte as i8
    }
}

/// The two's complement byte of the signed offset `value`.
pub fn to_unsigned(value: i8) -> (byte: u8)
    ensures
        byte == spec_to_unsigned(value),
{
    if value < 0 {
        (value as i16 + 256) as u8
    } else {
        value as u8
    }
}

/// Pairs two bytes, low byte first, into a 16-bit value.
pub fn from_le_bytes(low: u8, high: u8) -> (word: u16)
    ensures
        word == spec_from_le_bytes(low, high),
{
    (high as u16) * 256 + (low as u16)
}

/// The low byte of `word`.
pub fn low_byte(word: u16) -> (byte: u8)
    ensures
        byte == spec_low_byte(word),
{
    (word % 256) as u8
}

/// The high byte of `word`.
pub fn high_byte(word: u16) -> (byte: u8)
    ensures
        byte == spec_high_byte(word),
{
    (word / 256) as u8
}

/// A machine word.
#[derive(Debug, Clone, Copy, PartialEq, Eq, PartialOrd, Ord, Hash, Default, Structural)]
pub struct Word {
    pub bits: WordBits,
}

/// A full address.
#[derive(Debug, Clone, Copy, PartialEq, Eq, PartialOrd, Ord, Hash, Default, Structural)]
pub struct Address {
    pub bits: AddressBits,
}

/// An address within one page.
#[derive(Debug, Clone, Copy, PartialEq, Eq, PartialOrd, Ord, Hash, Default, Structural)]
pub struct PageAddr {
    pub bits: PageAddrBits,
}

/// An offset relative to the program counter.
#[derive(Debug, Clone, Copy, PartialEq, Eq, PartialOrd, Ord, Hash, Default, Structural)]
pub struct RelativeAddr {
    pub bits: RelativeAddrBits,
}

/// The byte that `decoder` holds next, and the decoder after it.
pub open spec fn spec_decode_byte<D: Decoder>(decoder: D) -> (D, Result<u8, D::Error>) {
    match decoder.peek() {
        None => (decoder, Err(decoder.fault())),
        Some(byte) => (decoder.advance(), Ok(byte)),
    }
}

/// The 16-bit value that `decoder` holds next, low byte first, and the
/// decoder after it. Where the second byte cannot be read the decoder stays
/// past the first.
pub open spec fn spec_decode_pair<D: Decoder>(decoder: D) -> (D, Result<u16, D::Error>) {
    match decoder.peek() {
        None => (decoder, Err(decoder.fault())),
        Some(low) => match decoder.advance().peek() {
            None => (decoder.advance(), Err(decoder.advance().fault())),
            Some(high) => (decoder.advance().advance(), Ok(spec_from_le_bytes(low, high))),
        },
    }
}

fn decode_pair<D: Decoder>(decoder: &mut D) -> (result: Result<u16, D::Error>)
    ensures
        (*final(decoder), result) == spec_decode_pair(*old(decoder)),
{
    match decoder.read() {
        Err(error) => Err(error),
        Ok(low) => match decoder.read() {
            Err(error) => Err(error),
            Ok(high) => Ok(from_le_bytes(low, high)),
        },
    }
}

impl Word {
    /// Reads a word, one byte, from `decoder`.
    pub fn decode<D: Decoder>(decoder: &mut D) -> (result: Result<Self, D::Error>)
        ensures
            match spec_decode_byte(*old(decoder)) {
                (end, Ok(bits)) => *final(decoder) == end && result == Ok::<Word, D::Error>(
                    Word { bits },
                ),
                (end, Err(error)) => *final(decoder) == end && result == Err::<Word, D::Error>(
                    error,
                ),
            },
    {
        match decoder.read() {
            Err(error) => Err(error),
            Ok(bits) => Ok(Self { bits }),
        }
    }
}

impl Address {
    /// Reads an address, two bytes with the low byte first, from `decoder`.
    pub fn decode<D: Decoder>(decoder: &mut D) -> (result: Result<Self, D::Error>)
        ensures
            match spec_decode_pair(*old(decoder)) {
                (end, Ok(bits)) => *final(decoder) == end && result == Ok::<Address, D::Error>(
                    Address { bits },
                ),
                (end, Err(error)) => *final(decoder) == end && result == Err::<Address, D::Error>(
                    error,
                ),
            },
    {
        match decode_pair(decoder) {
            Err(error) => Err(error),
            Ok(bits) => Ok(Self { bits }),
        }
    }
}

impl PageAddr {
    /// Reads an address within a page, one byte, from `decoder`.
    pub fn decode<D: Decoder>(decoder: &mut D) -> (result: Result<Self, D::Error>)
        ensures
            match spec_decode_byte(*old(decoder)) {
                (end, Ok(bits)) => *final(decoder) == end && result == Ok::<PageAddr, D::Error>(
                    PageAddr { bits },
                ),
                (end, Err(error)) => *final(decoder) == end && result == Err::<PageAddr, D::Error>(
                    error,
                ),
            },
    {
        match decoder.read() {
            Err(error) => Err(error),
            Ok(bits) => Ok(Self { bits }),
        }
    }
}

impl RelativeAddr {
    /// Reads a signed offset, one byte in two's complement, from `decoder`.
    pub fn decode<D: Decoder>(decoder: &mut D) -> (result: Result<Self, D::Error>)
        ensures
            match spec_decode_byte(*old(decoder)) {
                (end, Ok(byte)) => *final(decoder) == end && result == Ok::<RelativeAddr, D::Error>(
                    RelativeAddr { bits: spec_to_signed(byte) },
                ),
                (end, Err(error)) => *final(decoder) == end && result == Err::<
                    RelativeAddr,
                    D::Error,
                >(error),
            },
    {
        match decoder.read() {
            Err(error) => Err(error),
            Ok(byte) => Ok(Self { bits: to_signed(byte) }),
        }
    }
}

} // verus!
