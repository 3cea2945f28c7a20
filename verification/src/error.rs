//! The errors a machine can report.

use crate::addrmode::{AddrMode, Operand};
use crate::instruction::Type;
use vstd::prelude::*;

verus! {

/// A ROM bank index that selects no bank.
#[derive(Debug, Clone, Copy, PartialEq, Eq, Structural)]
pub struct BankError {
    pub bank: u8,
}

/// A read at an address that no memory region maps.
#[derive(Debug, Clone, Copy, PartialEq, Eq, Structural)]
pub struct ReadError {
    pub address: u16,
}

/// A write at an address that no writable memory region maps.
#[derive(Debug, Clone, Copy, PartialEq, Eq, Structural)]
pub struct WriteError {
    pub address: u16,
}

/// A byte that encodes no instruction.
#[derive(Debug, Clone, Copy, PartialEq, Eq, Structural)]
pub struct OpcodeError {
    pub bits: u8,
}

/// An addressing mode that the instruction type does not admit.
#[derive(Debug, Clone, Copy, PartialEq, Eq, Structural)]
pub struct AddrModeError {
    pub mode: AddrMode,
    pub instr_type: Type,
}

/// An operand that yields no value.
#[derive(Debug, Clone, Copy, PartialEq, Eq, Structural)]
pub struct OperandReadError {
    pub operand: Operand,
}

/// An operand that designates no address.
#[derive(Debug, Clone, Copy, PartialEq, Eq, Structural)]
pub struct OperandAddrError {
    pub operand: Operand,
}

/// Every failure of the machine, its memory and its instruction codec.
#[derive(Debug, Clone, Copy, PartialEq, Eq, Structural)]
pub enum MachineError {
    Read(ReadError),
    Write(WriteError),
    Bank(BankError),
    Opcode(OpcodeError),
    AddrMode(AddrModeError),
    OperandRead(OperandReadError),
    OperandAddr(OperandAddrError),
}

impl From<ReadError> for MachineError {
    fn from(error: ReadError) -> (result: Self) {
        MachineError::Read(error)
    }
}

impl vstd::std_specs::convert::FromSpecImpl<ReadError> for MachineError {
    open spec fn obeys_from_spec() -> bool {
        true
    }

    open spec fn from_spec(error: ReadError) -> Self {
        MachineError::Read(error)
    }
}

impl From<WriteError> for MachineError {
    fn from(error: WriteError) -> (result: Self) {
        MachineError::Write(error)
    }
}

impl vstd::std_specs::convert::FromSpecImpl<WriteError> for MachineError {
    open spec fn obeys_from_spec() -> bool {
        true
    }

    open spec fn from_spec(error: WriteError) -> Self {
        MachineError::Write(error)
    }
}

impl From<BankError> for MachineError {
    fn from(error: BankError) -> (result: Self) {
        MachineError::Bank(error)
    }
}

impl vstd::std_specs::convert::FromSpecImpl<BankError> for MachineError {
    open spec fn obeys_from_spec() -> bool {
        true
    }

    open spec fn from_spec(error: BankError) -> Self {
        MachineError::Bank(error)
    }
}

impl From<OpcodeError> for MachineError {
    fn from(error: OpcodeError) -> (result: Self) {
        MachineError::Opcode(error)
    }
}

impl vstd::std_specs::convert::FromSpecImpl<OpcodeError> for MachineError {
    open spec fn obeys_from_spec() -> bool {
        true
    }

    open spec fn from_spec(error: OpcodeError) -> Self {
        MachineError::Opcode(error)
    }
}

impl From<AddrModeError> for MachineError {
    fn from(error: AddrModeError) -> (result: Self) {
        MachineError::AddrMode(error)
    }
}

impl vstd::std_specs::convert::FromSpecImpl<AddrModeError> for MachineError {
    open spec fn obeys_from_spec() -> bool {
        true
    }

    open spec fn from_spec(error: AddrModeError) -> Self {
        MachineError::AddrMode(error)
    }
}

impl From<OperandReadError> for MachineError {
    fn from(error: OperandReadError) -> (result: Self) {
        MachineError::OperandRead(error)
    }
}

impl vstd::std_specs::convert::FromSpecImpl<OperandReadError> for MachineError {
    open spec fn obeys_from_spec() -> bool {
        true
    }

    open spec fn from_spec(error: OperandReadError) -> Self {
        MachineError::OperandRead(error)
    }
}

impl From<OperandAddrError> for MachineError {
    fn from(error: OperandAddrError) -> (result: Self) {
        MachineError::OperandAddr(error)
    }
}

impl vstd::std_specs::convert::FromSpecImpl<OperandAddrError> for MachineError {
    open spec fn obeys_from_spec() -> bool {
        true
    }

    open spec fn from_spec(error: OperandAddrError) -> Self {
        MachineError::OperandAddr(error)
    }
}

} // verus!
