//! Addressing modes: the thirteen shapes an operand can take, how many bytes
//! each occupies in the instruction stream, and how each resolves to an
//! effective address or to a value.

use crate::arch::{
    from_le_bytes, high_byte, low_byte, spec_from_le_bytes, spec_high_byte, spec_low_byte,
    spec_to_signed, spec_to_unsigned, to_signed, to_unsigned,
};
use crate::binary::{advance_by, infallible, wrote, Decoder, Encoder};
use crate::error::{AddrModeError, MachineError, OperandAddrError, OperandReadError};
use crate::instruction::Type;
use crate::machine::{Machine, MachineView};
use crate::memory::{Memory, MemoryView};
use vstd::prelude::*;

verus! {

/// The address held, low byte first, in the bytes of `memory` at
/// `low_address` and `high_address`, or the error of the first of the two
/// reads that fails.
pub open spec fn read_pair(memory: MemoryView, low_address: u16, high_address: u16) -> Result<
    u16,
    MachineError,
> {
    match memory.read(low_address) {
        Err(error) => Err(MachineError::Read(error)),
        Ok(low) => match memory.read(high_address) {
            Err(error) => Err(MachineError::Read(error)),
            Ok(high) => Ok(spec_from_le_bytes(low, high)),
        },
    }
}

/// The byte of `memory` at the address that `address` holds, or the error
/// that `address` holds, or that of the read.
pub open spec fn read_at(memory: MemoryView, address: Result<u16, MachineError>) -> Result<
    u8,
    MachineError,
> {
    match address {
        Err(error) => Err(error),
        Ok(address) => match memory.read(address) {
            Err(error) => Err(MachineError::Read(error)),
            Ok(byte) => Ok(byte),
        },
    }
}

fn load_pair(memory: &Memory, low_address: u16, high_address: u16) -> (result: Result<
    u16,
    MachineError,
>)
    ensures
        result == read_pair(memory@, low_address, high_address),
{
    match memory.read(low_address) {
        Err(error) => Err(MachineError::Read(error)),
        Ok(low) => match memory.read(high_address) {
            Err(error) => Err(MachineError::Read(error)),
            Ok(high) => Ok(from_le_bytes(low, high)),
        },
    }
}

fn load_at(memory: &Memory, address: Result<u16, MachineError>) -> (result: Result<
    u8,
    MachineError,
>)
    ensures
        result == read_at(memory@, address),
{
    match address {
        Err(error) => Err(error),
        Ok(address) => match memory.read(address) {
            Err(error) => Err(MachineError::Read(error)),
            Ok(byte) => Ok(byte),
        },
    }
}

/// An operand that occupies a fixed number of bytes after the opcode byte.
pub trait OperandSize {
    /// The number of bytes.
    spec fn spec_size(&self) -> usize;

    /// The number of bytes.
    fn size(&self) -> (size: usize)
        ensures
            size == self.spec_size(),
    ;
}

/// An operand that may yield a value.
pub trait ReadOperand {
    /// The value of the operand in the state `machine`, or the reason why it
    /// has none.
    spec fn spec_read(&self, machine: MachineView) -> Result<u8, MachineError>;

    /// The value of the operand on `machine`.
    fn read(&self, machine: &Machine) -> (result: Result<u8, MachineError>)
        ensures
            result == self.spec_read(machine@),
    ;
}

/// An operand that may designate an address.
pub trait OperandAddr {
    /// The effective address of the operand in the state `machine`, or the
    /// reason why it has none.
    spec fn spec_address(&self, machine: MachineView) -> Result<u16, MachineError>;

    /// The effective address of the operand on `machine`.
    fn address(&self, machine: &Machine) -> (result: Result<u16, MachineError>)
        ensures
            result == self.spec_address(machine@),
    ;
}

/// A 16-bit address taken as it stands.
#[derive(Debug, Clone, Copy, PartialEq, Eq, PartialOrd, Ord, Hash, Default, Structural)]
pub struct Absolute {
    pub address: u16,
}

impl OperandSize for Absolute {
    open spec fn spec_size(&self) -> usize {
        2
    }

    fn size(&self) -> (size: usize) {
        2
    }
}

impl OperandAddr for Absolute {
    open spec fn spec_address(&self, machine: MachineView) -> Result<u16, MachineError> {
        Ok(self.address)
    }

    fn address(&self, machine: &Machine) -> (result: Result<u16, MachineError>) {
        Ok(self.address)
    }
}

impl ReadOperand for Absolute {
    open spec fn spec_read(&self, machine: MachineView) -> Result<u8, MachineError> {
        read_at(machine.memory, self.spec_address(machine))
    }

    fn read(&self, machine: &Machine) -> (result: Result<u8, MachineError>) {
        load_at(&machine.memory, self.address(machine))
    }
}

/// A 16-bit address, indexed by the X register with 16-bit wraparound.
#[derive(Debug, Clone, Copy, PartialEq, Eq, PartialOrd, Ord, Hash, Default, Structural)]
pub struct AbsoluteX {
    pub address: u16,
}

impl OperandSize for AbsoluteX {
    open spec fn spec_size(&self) -> usize {
        2
    }

    fn size(&self) -> (size: usize) {
        2
    }
}

impl OperandAddr for AbsoluteX {
    open spec fn spec_address(&self, machine: MachineView) -> Result<u16, MachineError> {
        Ok(self.address.wrapping_add(machine.rx as u16))
    }

    fn address(&self, machine: &Machine) -> (result: Result<u16, MachineError>) {
        Ok(self.address.wrapping_add(machine.rx as u16))
    }
}

impl ReadOperand for AbsoluteX {
    open spec fn spec_read(&self, machine: MachineView) -> Result<u8, MachineError> {
        read_at(machine.memory, self.spec_address(machine))
    }

    fn read(&self, machine: &Machine) -> (result: Result<u8, MachineError>) {
        load_at(&machine.memory, self.address(machine))
    }
}

/// A 16-bit address, indexed by the Y register with 16-bit wraparound.
#[derive(Debug, Clone, Copy, PartialEq, Eq, PartialOrd, Ord, Hash, Default, Structural)]
pub struct AbsoluteY {
    pub address: u16,
}

impl OperandSize for AbsoluteY {
    open spec fn spec_size(&self) -> usize {
        2
    }

    fn size(&self) -> (size: usize) {
        2
    }
}

impl OperandAddr for AbsoluteY {
    open spec fn spec_address(&self, machine: MachineView) -> Result<u16, MachineError> {
        Ok(self.address.wrapping_add(machine.ry as u16))
    }

    fn address(&self, machine: &Machine) -> (result: Result<u16, MachineError>) {
        Ok(self.address.wrapping_add(machine.ry as u16))
    }
}

impl ReadOperand for AbsoluteY {
    open spec fn spec_read(&self, machine: MachineView) -> Result<u8, MachineError> {
        read_at(machine.memory, self.spec_address(machine))
    }

    fn read(&self, machine: &Machine) -> (result: Result<u8, MachineError>) {
        load_at(&machine.memory, self.address(machine))
    }
}

/// A byte that is itself the operand value.
#[derive(Debug, Clone, Copy, PartialEq, Eq, PartialOrd, Ord, Hash, Default, Structural)]
pub struct Immediate {
    pub bits: u8,
}

impl OperandSize for Immediate {
    open spec fn spec_size(&self) -> usize {
        1
    }

    fn size(&self) -> (size: usize) {
        1
    }
}

impl ReadOperand for Immediate {
    open spec fn spec_read(&self, machine: MachineView) -> Result<u8, MachineError> {
        Ok(self.bits)
    }

    fn read(&self, machine: &Machine) -> (result: Result<u8, MachineError>) {
        Ok(self.bits)
    }
}

/// A 16-bit address of the two bytes that hold the effective address: the
/// low byte at the address, the high byte at the address after it, with
/// 16-bit wraparound.
#[derive(Debug, Clone, Copy, PartialEq, Eq, PartialOrd, Ord, Hash, Default, Structural)]
pub struct Indirect {
    pub address: u16,
}

impl OperandSize for Indirect {
    open spec fn spec_size(&self) -> usize {
        2
    }

    fn size(&self) -> (size: usize) {
        2
    }
}

impl OperandAddr for Indirect {
    open spec fn spec_address(&self, machine: MachineView) -> Result<u16, MachineError> {
        read_pair(machine.memory, self.address, self.address.wrapping_add(1))
    }

    fn address(&self, machine: &Machine) -> (result: Result<u16, MachineError>) {
        load_pair(&machine.memory, self.address, self.address.wrapping_add(1))
    }
}

impl ReadOperand for Indirect {
    open spec fn spec_read(&self, machine: MachineView) -> Result<u8, MachineError> {
        read_at(machine.memory, self.spec_address(machine))
    }

    fn read(&self, machine: &Machine) -> (result: Result<u8, MachineError>) {
        load_at(&machine.memory, self.address(machine))
    }
}

/// A zero-page address that, indexed by the X register within the page,
/// names the two bytes that hold the effective address; the second of them
/// is found within the page too.
#[derive(Debug, Clone, Copy, PartialEq, Eq, PartialOrd, Ord, Hash, Default, Structural)]
pub struct XIndirect {
    pub address: u8,
}

impl OperandSize for XIndirect {
    open spec fn spec_size(&self) -> usize {
        1
    }

    fn size(&self) -> (size: usize) {
        1
    }
}

impl OperandAddr for XIndirect {
    open spec fn spec_address(&self, machine: MachineView) -> Result<u16, MachineError> {
        read_pair(
            machine.memory,
            self.address.wrapping_add(machine.rx) as u16,
            self.address.wrapping_add(machine.rx).wrapping_add(1) as u16,
        )
    }

    fn address(&self, machine: &Machine) -> (result: Result<u16, MachineError>) {
        let pointer = self.address.wrapping_add(machine.rx);
        load_pair(&machine.memory, pointer as u16, pointer.wrapping_add(1) as u16)
        
    }
}

impl ReadOperand for XIndirect {
    open spec fn spec_read(&self, machine: MachineView) -> Result<u8, MachineError> {
        read_at(machine.memory, self.spec_address(machine))
    }

    fn read(&self, machine: &Machine) -> (result: Result<u8, MachineError>) {
        load_at(&machine.memory, self.address(machine))
    }
}

/// A zero-page address of the two bytes that hold an address, the second of
/// them found within the page; that address is then indexed by the Y
/// register with 16-bit wraparound.
#[derive(Debug, Clone, Copy, PartialEq, Eq, PartialOrd, Ord, Hash, Default, Structural)]
pub struct IndirectY {
    pub address: u8,
}

impl OperandSize for IndirectY {
    open spec fn spec_size(&self) -> usize {
        1
    }

    fn size(&self) -> (size: usize) {
        1
    }
}

impl OperandAddr for IndirectY {
    open spec fn spec_address(&self, machine: MachineView) -> Result<u16, MachineError> {
        match read_pair(machine.memory, self.address as u16, self.address.wrapping_add(1) as u16) {
            Ok(base) => Ok(base.wrapping_add(machine.ry as u16)),
            Err(error) => Err(error),
        }
    }

    fn address(&self, machine: &Machine) -> (result: Result<u16, MachineError>) {
        match load_pair(
            &machine.memory,
            self.address as u16,
            self.address.wrapping_add(1) as u16,
        ) {
            Ok(base) => Ok(base.wrapping_add(machine.ry as u16)),
            Err(error) => Err(error),
        }
    }
}

impl ReadOperand for IndirectY {
    open spec fn spec_read(&self, machine: MachineView) -> Result<u8, MachineError> {
        read_at(machine.memory, self.spec_address(machine))
    }

    fn read(&self, machine: &Machine) -> (result: Result<u8, MachineError>) {
        load_at(&machine.memory, self.address(machine))
    }
}

/// A signed offset from the program counter, which by the time the operand
/// is resolved points past the instruction.
#[derive(Debug, Clone, Copy, PartialEq, Eq, PartialOrd, Ord, Hash, Default, Structural)]
pub struct Relative {
    pub address: i8,
}

impl OperandSize for Relative {
    open spec fn spec_size(&self) -> usize {
        1
    }

    fn size(&self) -> (size: usize) {
        1
    }
}

impl OperandAddr for Relative {
    open spec fn spec_address(&self, machine: MachineView) -> Result<u16, MachineError> {
        Ok(machine.pc.wrapping_add_signed(self.address as i16))
    }

    fn address(&self, machine: &Machine) -> (result: Result<u16, MachineError>) {
        Ok(machine.pc.wrapping_add_signed(self.address as i16))
    }
}

impl ReadOperand for Relative {
    open spec fn spec_read(&self, machine: MachineView) -> Result<u8, MachineError> {
        read_at(machine.memory, self.spec_address(machine))
    }

    fn read(&self, machine: &Machine) -> (result: Result<u8, MachineError>) {
        load_at(&machine.memory, self.address(machine))
    }
}

/// An address in the zero page.
#[derive(Debug, Clone, Copy, PartialEq, Eq, PartialOrd, Ord, Hash, Default, Structural)]
pub struct Zeropage {
    pub address: u8,
}

impl OperandSize for Zeropage {
    open spec fn spec_size(&self) -> usize {
        1
    }

    fn size(&self) -> (size: usize) {
        1
    }
}

impl OperandAddr for Zeropage {
    open spec fn spec_address(&self, machine: MachineView) -> Result<u16, MachineError> {
        Ok(self.address as u16)
    }

    fn address(&self, machine: &Machine) -> (result: Result<u16, MachineError>) {
        Ok(self.address as u16)
    }
}

impl ReadOperand for Zeropage {
    open spec fn spec_read(&self, machine: MachineView) -> Result<u8, MachineError> {
        read_at(machine.memory, self.spec_address(machine))
    }

    fn read(&self, machine: &Machine) -> (result: Result<u8, MachineError>) {
        load_at(&machine.memory, self.address(machine))
    }
}

/// An address in the zero page, indexed by the X register with wraparound
/// within the page.
#[derive(Debug, Clone, Copy, PartialEq, Eq, PartialOrd, Ord, Hash, Default, Structural)]
pub struct ZeropageX {
    pub address: u8,
}

impl OperandSize for ZeropageX {
    open spec fn spec_size(&self) -> usize {
        1
    }

    fn size(&self) -> (size: usize) {
        1
    }
}

impl OperandAddr for ZeropageX {
    open spec fn spec_address(&self, machine: MachineView) -> Result<u16, MachineError> {
        Ok(self.address.wrapping_add(machine.rx) as u16)
    }

    fn address(&self, machine: &Machine) -> (result: Result<u16, MachineError>) {
        Ok(self.address.wrapping_add(machine.rx) as u16)
    }
}

impl ReadOperand for ZeropageX {
    open spec fn spec_read(&self, machine: MachineView) -> Result<u8, MachineError> {
        read_at(machine.memory, self.spec_address(machine))
    }

    fn read(&self, machine: &Machine) -> (result: Result<u8, MachineError>) {
        load_at(&machine.memory, self.address(machine))
    }
}

/// An address in the zero page, indexed by the Y register with wraparound
/// within the page.
#[derive(Debug, Clone, Copy, PartialEq, Eq, PartialOrd, Ord, Hash, Default, Structural)]
pub struct ZeropageY {
    pub address: u8,
}

impl OperandSize for ZeropageY {
    open spec fn spec_size(&self) -> usize {
        1
    }

    fn size(&self) -> (size: usize) {
        1
    }
}

impl OperandAddr for ZeropageY {
    open spec fn spec_address(&self, machine: MachineView) -> Result<u16, MachineError> {
        Ok(self.address.wrapping_add(machine.ry) as u16)
    }

    fn address(&self, machine: &Machine) -> (result: Result<u16, MachineError>) {
        Ok(self.address.wrapping_add(machine.ry) as u16)
    }
}

impl ReadOperand for ZeropageY {
    open spec fn spec_read(&self, machine: MachineView) -> Result<u8, MachineError> {
        read_at(machine.memory, self.spec_address(machine))
    }

    fn read(&self, machine: &Machine) -> (result: Result<u8, MachineError>) {
        load_at(&machine.memory, self.address(machine))
    }
}

/// The accumulator as operand.
#[derive(Debug, Clone, Copy, PartialEq, Eq, PartialOrd, Ord, Hash, Default, Structural)]
pub struct Accumulator;

impl OperandSize for Accumulator {
    open spec fn spec_size(&self) -> usize {
        0
    }

    fn size(&self) -> (size: usize) {
        0
    }
}

impl ReadOperand for Accumulator {
    open spec fn spec_read(&self, machine: MachineView) -> Result<u8, MachineError> {
        Ok(machine.ra)
    }

    fn read(&self, machine: &Machine) -> (result: Result<u8, MachineError>) {
        Ok(machine.ra)
    }
}

/// No operand at all.
#[derive(Debug, Clone, Copy, PartialEq, Eq, PartialOrd, Ord, Hash, Default, Structural)]
pub struct Implied;

impl OperandSize for Implied {
    open spec fn spec_size(&self) -> usize {
        0
    }

    fn size(&self) -> (size: usize) {
        0
    }
}

/// The kind of an operand, without its payload.
#[derive(Debug, Clone, Copy, PartialEq, Eq, PartialOrd, Ord, Hash, Structural)]
pub enum AddrMode {
    Acc,
    Abs,
    AbsX,
    AbsY,
    Imm,
    Impl,
    Ind,
    XInd,
    IndY,
    Rel,
    Zpg,
    ZpgX,
    ZpgY,
}

impl AddrMode {
    /// The name of the addressing mode in capital letters.
    pub open spec fn spec_rendered(self) -> Seq<char> {
        match self {
            AddrMode::Acc => "ACC"@,
            AddrMode::Abs => "ABS"@,
            AddrMode::AbsX => "ABSX"@,
            AddrMode::AbsY => "ABSY"@,
            AddrMode::Imm => "IMM"@,
            AddrMode::Impl => "IMPL"@,
            AddrMode::Ind => "IND"@,
            AddrMode::XInd => "XIND"@,
            AddrMode::IndY => "INDY"@,
            AddrMode::Rel => "REL"@,
            AddrMode::Zpg => "ZPG"@,
            AddrMode::ZpgX => "ZPGX"@,
            AddrMode::ZpgY => "ZPGY"@,
        }
    }

    /// The name of the addressing mode in capital letters.
    pub fn rendered(self) -> (name: &'static str)
        ensures
            name@ == self.spec_rendered(),
    {
        match self {
            AddrMode::Acc => "ACC",
            AddrMode::Abs => "ABS",
            AddrMode::AbsX => "ABSX",
            AddrMode::AbsY => "ABSY",
            AddrMode::Imm => "IMM",
            AddrMode::Impl => "IMPL",
            AddrMode::Ind => "IND",
            AddrMode::XInd => "XIND",
            AddrMode::IndY => "INDY",
            AddrMode::Rel => "REL",
            AddrMode::Zpg => "ZPG",
            AddrMode::ZpgX => "ZPGX",
            AddrMode::ZpgY => "ZPGY",
        }
    }

    /// The number of bytes that an operand of this kind occupies after the
    /// opcode byte: none for the accumulator and the implied operand, two for
    /// the kinds that carry a 16-bit address, one for the others.
    pub open spec fn spec_size(self) -> usize {
        match self {
            AddrMode::Acc | AddrMode::Impl => 0,
            AddrMode::Abs | AddrMode::AbsX | AddrMode::AbsY | AddrMode::Ind => 2,
            AddrMode::Imm
            | AddrMode::XInd
            | AddrMode::IndY
            | AddrMode::Rel
            | AddrMode::Zpg
            | AddrMode::ZpgX
            | AddrMode::ZpgY => 1,
        }
    }

    /// The number of bytes that an operand of this kind occupies after the
    /// opcode byte.
    pub fn size(self) -> (size: usize)
        ensures
            size == self.spec_size(),
            size <= 2,
    {
        match self {
            AddrMode::Acc | AddrMode::Impl => 0,
            AddrMode::Abs | AddrMode::AbsX | AddrMode::AbsY | AddrMode::Ind => 2,
            AddrMode::Imm
            | AddrMode::XInd
            | AddrMode::IndY
            | AddrMode::Rel
            | AddrMode::Zpg
            | AddrMode::ZpgX
            | AddrMode::ZpgY => 1,
        }
    }
}

/// An operand: an addressing mode together with its payload.
#[derive(Debug, Clone, Copy, PartialEq, Eq, PartialOrd, Ord, Hash, Structural)]
pub enum Operand {
    Acc(Accumulator),
    Abs(Absolute),
    AbsX(AbsoluteX),
    AbsY(AbsoluteY),
    Imm(Immediate),
    Impl(Implied),
    Ind(Indirect),
    XInd(XIndirect),
    IndY(IndirectY),
    Rel(Relative),
    Zpg(Zeropage),
    ZpgX(ZeropageX),
    ZpgY(ZeropageY),
}

impl Operand {
    /// The kind of this operand.
    pub open spec fn spec_addrmode(self) -> AddrMode {
        match self {
            Operand::Acc(_) => AddrMode::Acc,
            Operand::Abs(_) => AddrMode::Abs,
            Operand::AbsX(_) => AddrMode::AbsX,
            Operand::AbsY(_) => AddrMode::AbsY,
            Operand::Imm(_) => AddrMode::Imm,
            Operand::Impl(_) => AddrMode::Impl,
            Operand::Ind(_) => AddrMode::Ind,
            Operand::XInd(_) => AddrMode::XInd,
            Operand::IndY(_) => AddrMode::IndY,
            Operand::Rel(_) => AddrMode::Rel,
            Operand::Zpg(_) => AddrMode::Zpg,
            Operand::ZpgX(_) => AddrMode::ZpgX,
            Operand::ZpgY(_) => AddrMode::ZpgY,
        }
    }

    /// The kind of this operand.
    pub fn addrmode(self) -> (mode: AddrMode)
        ensures
            mode == self.spec_addrmode(),
    {
        match self {
            Operand::Acc(_) => AddrMode::Acc,
            Operand::Abs(_) => AddrMode::Abs,
            Operand::AbsX(_) => AddrMode::AbsX,
            Operand::AbsY(_) => AddrMode::AbsY,
            Operand::Imm(_) => AddrMode::Imm,
            Operand::Impl(_) => AddrMode::Impl,
            Operand::Ind(_) => AddrMode::Ind,
            Operand::XInd(_) => AddrMode::XInd,
            Operand::IndY(_) => AddrMode::IndY,
            Operand::Rel(_) => AddrMode::Rel,
            Operand::Zpg(_) => AddrMode::Zpg,
            Operand::ZpgX(_) => AddrMode::ZpgX,
            Operand::ZpgY(_) => AddrMode::ZpgY,
        }
    }

    /// What [`Operand::require_implied`] returns: the implied operand, or the
    /// error that names the kind found in its place.
    pub open spec fn spec_require_implied(self) -> Result<Implied, MachineError> {
        match self {
            Operand::Impl(mode) => Ok(mode),
            _ => Err(
                MachineError::AddrMode(
                    AddrModeError { mode: self.spec_addrmode(), instr_type: Type::Imp },
                ),
            ),
        }
    }

    /// Insists that the operand is the implied one, as the instructions
    /// without operand do.
    pub fn require_implied(self) -> (result: Result<Implied, MachineError>)
        ensures
            result == self.spec_require_implied(),
            result is Ok <==> self is Impl,
    {
        match self {
            Operand::Impl(mode) => Ok(mode),
            _ => Err(
                MachineError::AddrMode(
                    AddrModeError { mode: self.addrmode(), instr_type: Type::Imp },
                ),
            ),
        }
    }

    /// The operand of kind `mode` whose bytes in the instruction stream are
    /// `low` and `high`. A kind of one byte takes `low` alone, and a kind of
    /// no byte takes neither.
    pub open spec fn spec_from_bytes(mode: AddrMode, low: u8, high: u8) -> Operand {
        match mode {
            AddrMode::Acc => Operand::Acc(Accumulator),
            AddrMode::Abs => Operand::Abs(Absolute { address: spec_from_le_bytes(low, high) }),
            AddrMode::AbsX => Operand::AbsX(AbsoluteX { address: spec_from_le_bytes(low, high) }),
            AddrMode::AbsY => Operand::AbsY(AbsoluteY { address: spec_from_le_bytes(low, high) }),
            AddrMode::Imm => Operand::Imm(Immediate { bits: low }),
            AddrMode::Impl => Operand::Impl(Implied),
            AddrMode::Ind => Operand::Ind(Indirect { address: spec_from_le_bytes(low, high) }),
            AddrMode::XInd => Operand::XInd(XIndirect { address: low }),
            AddrMode::IndY => Operand::IndY(IndirectY { address: low }),
            AddrMode::Rel => Operand::Rel(Relative { address: spec_to_signed(low) }),
            AddrMode::Zpg => Operand::Zpg(Zeropage { address: low }),
            AddrMode::ZpgX => Operand::ZpgX(ZeropageX { address: low }),
            AddrMode::ZpgY => Operand::ZpgY(ZeropageY { address: low }),
        }
    }

    /// The bytes of the operand in the instruction stream: none, one, or the
    /// two of a 16-bit address with the low byte first.
    pub open spec fn spec_bytes(self) -> Seq<u8> {
        match self {
            Operand::Acc(_) => Seq::empty(),
            Operand::Abs(operand) => seq![
                spec_low_byte(operand.address),
                spec_high_byte(operand.address),
            ],
            Operand::AbsX(operand) => seq![
                spec_low_byte(operand.address),
                spec_high_byte(operand.address),
            ],
            Operand::AbsY(operand) => seq![
                spec_low_byte(operand.address),
                spec_high_byte(operand.address),
            ],
            Operand::Imm(operand) => seq![operand.bits],
            Operand::Impl(_) => Seq::empty(),
            Operand::Ind(operand) => seq![
                spec_low_byte(operand.address),
                spec_high_byte(operand.address),
            ],
            Operand::XInd(operand) => seq![operand.address],
            Operand::IndY(operand) => seq![operand.address],
            Operand::Rel(operand) => seq![spec_to_unsigned(operand.address)],
            Operand::Zpg(operand) => seq![operand.address],
            Operand::ZpgX(operand) => seq![operand.address],
            Operand::ZpgY(operand) => seq![operand.address],
        }
    }

    /// The operand of kind `mode` that `decoder` holds next, and the decoder
    /// after it. As many bytes are read as the kind has. After a read that
    /// fails the decoder stays past the bytes that were read before it.
    pub open spec fn spec_decode<D: Decoder>(mode: AddrMode, decoder: D) -> (
        D,
        Result<Operand, D::Error>,
    ) {
        if mode.spec_size() == 0 {
            (decoder, Ok(Self::spec_from_bytes(mode, 0, 0)))
        } else {
            match decoder.peek() {
                None => (decoder, Err(decoder.fault())),
                Some(low) => if mode.spec_size() == 1 {
                    (decoder.advance(), Ok(Self::spec_from_bytes(mode, low, 0)))
                } else {
                    match decoder.advance().peek() {
                        None => (decoder.advance(), Err(decoder.advance().fault())),
                        Some(high) => (
                            decoder.advance().advance(),
                            Ok(Self::spec_from_bytes(mode, low, high)),
                        ),
                    }
                },
            }
        }
    }

    /// The operand of kind `mode` whose bytes are `low` and `high`.
    pub fn from_bytes(mode: AddrMode, low: u8, high: u8) -> (operand: Self)
        ensures
            operand == Self::spec_from_bytes(mode, low, high),
            operand.spec_addrmode() == mode,
    {
        match mode {
            AddrMode::Acc => Operand::Acc(Accumulator),
            AddrMode::Abs => Operand::Abs(Absolute { address: from_le_bytes(low, high) }),
            AddrMode::AbsX => Operand::AbsX(AbsoluteX { address: from_le_bytes(low, high) }),
            AddrMode::AbsY => Operand::AbsY(AbsoluteY { address: from_le_bytes(low, high) }),
            AddrMode::Imm => Operand::Imm(Immediate { bits: low }),
            AddrMode::Impl => Operand::Impl(Implied),
            AddrMode::Ind => Operand::Ind(Indirect { address: from_le_bytes(low, high) }),
            AddrMode::XInd => Operand::XInd(XIndirect { address: low }),
            AddrMode::IndY => Operand::IndY(IndirectY { address: low }),
            AddrMode::Rel => Operand::Rel(Relative { address: to_signed(low) }),
            AddrMode::Zpg => Operand::Zpg(Zeropage { address: low }),
            AddrMode::ZpgX => Operand::ZpgX(ZeropageX { address: low }),
            AddrMode::ZpgY => Operand::ZpgY(ZeropageY { address: low }),
        }
    }

    /// Reads an operand of kind `mode` from `decoder`.
    pub fn decode<D: Decoder>(mode: AddrMode, decoder: &mut D) -> (result: Result<
        Self,
        D::Error,
    >)
        ensures
            (*final(decoder), result) == Self::spec_decode(mode, *old(decoder)),
            result matches Ok(operand) ==> operand.spec_addrmode() == mode && *final(decoder)
                == advance_by(*old(decoder), mode.spec_size() as nat),
    {
        proof {
            reveal_with_fuel(advance_by, 3);
        }
        let size = mode.size();
        if size == 0 {
            return Ok(Self::from_bytes(mode, 0, 0));
        }
        let low = match decoder.read() {
            Ok(byte) => byte,
            Err(error) => {
                return Err(error);
            },
        };
        if size == 1 {
            return Ok(Self::from_bytes(mode, low, 0));
        }
        let high = match decoder.read() {
            Ok(byte) => byte,
            Err(error) => {
                return Err(error);
            },
        };
        Ok(Self::from_bytes(mode, low, high))
    }

    /// Writes the bytes of the operand to `encoder`.
    pub fn encode<E: Encoder>(&self, encoder: &mut E) -> (result: Result<(), E::Error>)
        ensures
            wrote(*old(encoder), *final(encoder), self.spec_bytes(), result),
            infallible::<E>() ==> result is Ok,
    {
        let result = match self {
            Operand::Acc(_) => Ok(()),
            Operand::Abs(operand) => write_address(encoder, operand.address),
            Operand::AbsX(operand) => write_address(encoder, operand.address),
            Operand::AbsY(operand) => write_address(encoder, operand.address),
            Operand::Imm(operand) => encoder.write(operand.bits),
            Operand::Impl(_) => Ok(()),
            Operand::Ind(operand) => write_address(encoder, operand.address),
            Operand::XInd(operand) => encoder.write(operand.address),
            Operand::IndY(operand) => encoder.write(operand.address),
            Operand::Rel(operand) => encoder.write(to_unsigned(operand.address)),
            Operand::Zpg(operand) => encoder.write(operand.address),
            Operand::ZpgX(operand) => encoder.write(operand.address),
            Operand::ZpgY(operand) => encoder.write(operand.address),
        };
        proof {
            if result is Ok {
                assert(encoder.written() =~= old(encoder).written() + self.spec_bytes());
            }
        }
        result
    }
}

/// A decoded operand has the kind asked for and, written out again, the size
/// of that kind.
pub proof fn lemma_operand_bytes(mode: AddrMode, low: u8, high: u8)
    ensures
        Operand::spec_from_bytes(mode, low, high).spec_addrmode() == mode,
        Operand::spec_from_bytes(mode, low, high).spec_bytes().len() == mode.spec_size(),
        mode.spec_size() == 1 ==> Operand::spec_from_bytes(mode, low, high).spec_bytes()
            == seq![low],
        mode.spec_size() == 2 ==> Operand::spec_from_bytes(mode, low, high).spec_bytes() == seq![
            low,
            high,
        ],
{
    crate::arch::lemma_le_bytes_round_trip(0, low, high);
    crate::arch::lemma_signed_round_trip(low, 0);
    let operand = Operand::spec_from_bytes(mode, low, high);
    if mode.spec_size() == 1 {
        assert(operand.spec_bytes() =~= seq![low]);
    }
    if mode.spec_size() == 2 {
        assert(operand.spec_bytes() =~= seq![low, high]);
    }
}

/// Wrapping addition is addition modulo the size of the type.
pub proof fn lemma_wrapping_add(left: u8, right: u8, wide_left: u16, wide_right: u16)
    ensures
        left.wrapping_add(right) == (left + right) % 256,
        wide_left.wrapping_add(wide_right) == (wide_left + wide_right) % 0x10000,
{
    if left + right >= 256 {
        assert((left + right) % 256 == left + right - 256);
    }
    if wide_left + wide_right >= 0x10000 {
        assert((wide_left + wide_right) % 0x10000 == wide_left + wide_right - 0x10000);
    }
}

/// Indexing within the zero page never leaves it: the effective address of
/// a zero-page operand indexed by X or Y is the sum of the literal and the
/// register modulo 256.
pub proof fn lemma_zero_page_wraparound(machine: MachineView, address: u8)
    ensures
        (ZeropageX { address }).spec_address(machine) == Ok::<u16, MachineError>(
            ((address + machine.rx) % 256) as u16,
        ),
        (ZeropageY { address }).spec_address(machine) == Ok::<u16, MachineError>(
            ((address + machine.ry) % 256) as u16,
        ),
        (ZeropageX { address }).spec_address(machine)->Ok_0 < 256,
        (ZeropageY { address }).spec_address(machine)->Ok_0 < 256,
{
    lemma_wrapping_add(address, machine.rx, 0, 0);
    lemma_wrapping_add(address, machine.ry, 0, 0);
}

/// The pointer of an indirect zero-page operand is looked up within the zero
/// page: both of its bytes are read below address 256, the second at the
/// address after the first modulo 256. With X the pointer itself is the sum
/// of the literal and X modulo 256; with Y the address found is indexed by Y
/// modulo 65536.
pub proof fn lemma_indirect_pointer_in_zero_page(machine: MachineView, address: u8)
    ensures
        (XIndirect { address }).spec_address(machine) == read_pair(
            machine.memory,
            ((address + machine.rx) % 256) as u16,
            ((address + machine.rx + 1) % 256) as u16,
        ),
        (IndirectY { address }).spec_address(machine) == (match read_pair(
            machine.memory,
            address as u16,
            ((address + 1) % 256) as u16,
        ) {
            Ok(base) => Ok(((base + machine.ry) % 0x10000) as u16),
            Err(error) => Err(error),
        }),
{
    lemma_wrapping_add(address, machine.rx, 0, 0);
    let pointer = address.wrapping_add(machine.rx);
    lemma_wrapping_add(pointer, 1, 0, 0);
    assert(((address + machine.rx) % 256 + 1) % 256 == (address + machine.rx + 1) % 256) by {
        if address + machine.rx >= 256 {
            assert((address + machine.rx) % 256 == address + machine.rx - 256);
        }
        if address + machine.rx + 1 >= 256 {
            assert((address + machine.rx + 1) % 256 == address + machine.rx + 1 - 256);
        }
    }
    lemma_wrapping_add(address, 1, 0, 0);
    match read_pair(machine.memory, address as u16, address.wrapping_add(1) as u16) {
        Ok(base) => lemma_wrapping_add(0, 0, base, machine.ry as u16),
        Err(_) => {},
    }
}

/// Writing out an operand gives as many bytes as its kind has, and decoding
/// those bytes under that kind gives the operand back.
pub proof fn lemma_operand_round_trip(operand: Operand)
    ensures
        operand.spec_bytes().len() == operand.spec_addrmode().spec_size(),
        ({
            let bytes = operand.spec_bytes();
            let low = if bytes.len() >= 1 {
                bytes[0]
            } else {
                0
            };
            let high = if bytes.len() >= 2 {
                bytes[1]
            } else {
                0
            };
            Operand::spec_from_bytes(operand.spec_addrmode(), low, high) == operand
        }),
{
    match operand {
        Operand::Abs(inner) => crate::arch::lemma_le_bytes_round_trip(inner.address, 0, 0),
        Operand::AbsX(inner) => crate::arch::lemma_le_bytes_round_trip(inner.address, 0, 0),
        Operand::AbsY(inner) => crate::arch::lemma_le_bytes_round_trip(inner.address, 0, 0),
        Operand::Ind(inner) => crate::arch::lemma_le_bytes_round_trip(inner.address, 0, 0),
        Operand::Rel(inner) => crate::arch::lemma_signed_round_trip(0, inner.address),
        _ => {},
    }
}

fn write_address<E: Encoder>(encoder: &mut E, address: u16) -> (result: Result<(), E::Error>)
    ensures
        wrote(
            *old(encoder),
            *final(encoder),
            seq![spec_low_byte(address), spec_high_byte(address)],
            result,
        ),
        infallible::<E>() ==> result is Ok,
{
    let result = match encoder.write(low_byte(address)) {
        Err(error) => Err(error),
        Ok(()) => encoder.write(high_byte(address)),
    };
    proof {
        let bytes = seq![spec_low_byte(address), spec_high_byte(address)];
        if result is Ok {
            assert(encoder.written() =~= old(encoder).written() + bytes);
        } else if encoder.written().len() > old(encoder).written().len() {
            assert(encoder.written() =~= old(encoder).written() + bytes.subrange(0, 1));
        } else {
            assert(encoder.written() =~= old(encoder).written() + bytes.subrange(0, 0));
        }
    }
    result
}

impl OperandSize for Operand {
    open spec fn spec_size(&self) -> usize {
        self.spec_addrmode().spec_size()
    }

    fn size(&self) -> (size: usize) {
        match self {
            Operand::Acc(operand) => operand.size(),
            Operand::Abs(operand) => operand.size(),
            Operand::AbsX(operand) => operand.size(),
            Operand::AbsY(operand) => operand.size(),
            Operand::Imm(operand) => operand.size(),
            Operand::Impl(operand) => operand.size(),
            Operand::Ind(operand) => operand.size(),
            Operand::XInd(operand) => operand.size(),
            Operand::IndY(operand) => operand.size(),
            Operand::Rel(operand) => operand.size(),
            Operand::Zpg(operand) => operand.size(),
            Operand::ZpgX(operand) => operand.size(),
            Operand::ZpgY(operand) => operand.size(),
        }
    }
}

impl ReadOperand for Operand {
    /// The accumulator yields its content and an immediate operand its byte;
    /// an operand with an address yields the byte found there; the implied
    /// operand yields nothing.
    open spec fn spec_read(&self, machine: MachineView) -> Result<u8, MachineError> {
        match self {
            Operand::Acc(operand) => operand.spec_read(machine),
            Operand::Abs(operand) => operand.spec_read(machine),
            Operand::AbsX(operand) => operand.spec_read(machine),
            Operand::AbsY(operand) => operand.spec_read(machine),
            Operand::Imm(operand) => operand.spec_read(machine),
            Operand::Ind(operand) => operand.spec_read(machine),
            Operand::XInd(operand) => operand.spec_read(machine),
            Operand::IndY(operand) => operand.spec_read(machine),
            Operand::Rel(operand) => operand.spec_read(machine),
            Operand::Zpg(operand) => operand.spec_read(machine),
            Operand::ZpgX(operand) => operand.spec_read(machine),
            Operand::ZpgY(operand) => operand.spec_read(machine),
            Operand::Impl(_) => Err(MachineError::OperandRead(OperandReadError { operand: *self })),
        }
    }

    fn read(&self, machine: &Machine) -> (result: Result<u8, MachineError>) {
        match self {
            Operand::Acc(operand) => operand.read(machine),
            Operand::Abs(operand) => operand.read(machine),
            Operand::AbsX(operand) => operand.read(machine),
            Operand::AbsY(operand) => operand.read(machine),
            Operand::Imm(operand) => operand.read(machine),
            Operand::Ind(operand) => operand.read(machine),
            Operand::XInd(operand) => operand.read(machine),
            Operand::IndY(operand) => operand.read(machine),
            Operand::Rel(operand) => operand.read(machine),
            Operand::Zpg(operand) => operand.read(machine),
            Operand::ZpgX(operand) => operand.read(machine),
            Operand::ZpgY(operand) => operand.read(machine),
            Operand::Impl(_) => Err(MachineError::OperandRead(OperandReadError { operand: *self })),
        }
    }
}

impl OperandAddr for Operand {
    /// Every operand designates an address but the accumulator, an immediate
    /// byte and the implied operand.
    open spec fn spec_address(&self, machine: MachineView) -> Result<u16, MachineError> {
        match self {
            Operand::Abs(operand) => operand.spec_address(machine),
            Operand::AbsX(operand) => operand.spec_address(machine),
            Operand::AbsY(operand) => operand.spec_address(machine),
            Operand::Ind(operand) => operand.spec_address(machine),
            Operand::XInd(operand) => operand.spec_address(machine),
            Operand::IndY(operand) => operand.spec_address(machine),
            Operand::Rel(operand) => operand.spec_address(machine),
            Operand::Zpg(operand) => operand.spec_address(machine),
            Operand::ZpgX(operand) => operand.spec_address(machine),
            Operand::ZpgY(operand) => operand.spec_address(machine),
            Operand::Acc(_) | Operand::Imm(_) | Operand::Impl(_) => Err(
                MachineError::OperandAddr(OperandAddrError { operand: *self }),
            ),
        }
    }

    fn address(&self, machine: &Machine) -> (result: Result<u16, MachineError>) {
        match self {
            Operand::Abs(operand) => operand.address(machine),
            Operand::AbsX(operand) => operand.address(machine),
            Operand::AbsY(operand) => operand.address(machine),
            Operand::Ind(operand) => operand.address(machine),
            Operand::XInd(operand) => operand.address(machine),
            Operand::IndY(operand) => operand.address(machine),
            Operand::Rel(operand) => operand.address(machine),
            Operand::Zpg(operand) => operand.address(machine),
            Operand::ZpgX(operand) => operand.address(machine),
            Operand::ZpgY(operand) => operand.address(machine),
            Operand::Acc(_) | Operand::Imm(_) | Operand::Impl(_) => Err(
                MachineError::OperandAddr(OperandAddrError { operand: *self }),
            ),
        }
    }
}

} // verus!
