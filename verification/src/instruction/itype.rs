//! Instruction types: the groups of mnemonics that share one table of
//! addressing modes.

use crate::addrmode::AddrMode;
use crate::error::{AddrModeError, OpcodeError};
use crate::instruction::opcode::{
    bits_a, bits_b, set_bits_a, set_bits_b, spec_bits_a, spec_bits_b, spec_set_bits_a,
    spec_set_bits_b,
};
use vstd::prelude::*;

verus! {

/// The group a mnemonic belongs to. It fixes which addressing modes the
/// mnemonic admits and which opcode field selects among them.
#[derive(Debug, Clone, Copy, PartialEq, Eq, PartialOrd, Ord, Hash, Structural)]
pub enum Type {
    /// Arithmetic and logic on the accumulator, and its load.
    Aop,
    /// The load of X.
    Ldx,
    /// The load of Y.
    Ldy,
    /// The store of the accumulator.
    Sta,
    /// The store of X.
    Stx,
    /// The store of Y.
    Sty,
    /// The comparisons with X and Y.
    Cxy,
    /// Shifts and rotations.
    Rsh,
    /// Increment and decrement of memory.
    Idc,
    /// The bit test.
    Bit,
    /// The jump.
    Jmp,
    /// The jump to a subroutine.
    Jsr,
    /// The conditional branches.
    Bch,
    /// The instructions without operand.
    Imp,
}

/// The opcode field in which an instruction type keeps its addressing mode.
#[derive(Debug, Clone, Copy, PartialEq, Eq, Structural)]
pub enum ModeField {
    /// The three bits of field `a`.
    A,
    /// The three bits of field `b`.
    B,
    /// No field: the type admits a single addressing mode.
    Fixed,
}

impl Type {
    /// The name of the instruction type in capital letters.
    pub open spec fn spec_rendered(self) -> Seq<char> {
        match self {
            Type::Aop => "AOP"@,
            Type::Ldx => "LDX"@,
            Type::Ldy => "LDY"@,
            Type::Sta => "STA"@,
            Type::Stx => "STX"@,
            Type::Sty => "STY"@,
            Type::Cxy => "CXY"@,
            Type::Rsh => "RSH"@,
            Type::Idc => "IDC"@,
            Type::Bit => "BIT"@,
            Type::Jmp => "JMP"@,
            Type::Jsr => "JSR"@,
            Type::Bch => "BCH"@,
            Type::Imp => "IMP"@,
        }
    }

    /// The name of the instruction type in capital letters.
    pub fn rendered(self) -> (name: &'static str)
        ensures
            name@ == self.spec_rendered(),
    {
        match self {
            Type::Aop => "AOP",
            Type::Ldx => "LDX",
            Type::Ldy => "LDY",
            Type::Sta => "STA",
            Type::Stx => "STX",
            Type::Sty => "STY",
            Type::Cxy => "CXY",
            Type::Rsh => "RSH",
            Type::Idc => "IDC",
            Type::Bit => "BIT",
            Type::Jmp => "JMP",
            Type::Jsr => "JSR",
            Type::Bch => "BCH",
            Type::Imp => "IMP",
        }
    }

    /// The opcode field in which this type keeps its addressing mode.
    pub open spec fn mode_field(self) -> ModeField {
        match self {
            Type::Aop => ModeField::B,
            Type::Ldx => ModeField::B,
            Type::Ldy => ModeField::B,
            Type::Sta => ModeField::B,
            Type::Stx => ModeField::B,
            Type::Sty => ModeField::B,
            Type::Cxy => ModeField::B,
            Type::Rsh => ModeField::B,
            Type::Idc => ModeField::B,
            Type::Bit => ModeField::B,
            Type::Jmp => ModeField::A,
            Type::Jsr => ModeField::Fixed,
            Type::Bch => ModeField::Fixed,
            Type::Imp => ModeField::Fixed,
        }
    }

    /// The addressing mode that this type reads from the opcode fields `a`
    /// and `b`, if any.
    pub open spec fn mode_of_fields(self, a: u8, b: u8) -> Option<AddrMode> {
        match self {
            Type::Aop => match b {
                0 => Some(AddrMode::Ind),
                1 => Some(AddrMode::Zpg),
                2 => Some(AddrMode::Imm),
                3 => Some(AddrMode::Abs),
                4 => Some(AddrMode::IndY),
                5 => Some(AddrMode::ZpgX),
                6 => Some(AddrMode::AbsY),
                7 => Some(AddrMode::AbsX),
                _ => None,
            },
            Type::Ldx => match b {
                0 => Some(AddrMode::Imm),
                1 => Some(AddrMode::Zpg),
                3 => Some(AddrMode::Abs),
                5 => Some(AddrMode::ZpgY),
                7 => Some(AddrMode::AbsY),
                _ => None,
            },
            Type::Ldy => match b {
                0 => Some(AddrMode::Imm),
                1 => Some(AddrMode::Zpg),
                3 => Some(AddrMode::Abs),
                5 => Some(AddrMode::ZpgX),
                7 => Some(AddrMode::AbsX),
                _ => None,
            },
            Type::Sta => match b {
                0 => Some(AddrMode::Ind),
                1 => Some(AddrMode::Zpg),
                3 => Some(AddrMode::Abs),
                4 => Some(AddrMode::IndY),
                5 => Some(AddrMode::ZpgX),
                6 => Some(AddrMode::AbsY),
                7 => Some(AddrMode::AbsX),
                _ => None,
            },
            Type::Stx => match b {
                1 => Some(AddrMode::Zpg),
                3 => Some(AddrMode::Abs),
                5 => Some(AddrMode::ZpgY),
                _ => None,
            },
            Type::Sty => match b {
                1 => Some(AddrMode::Zpg),
                3 => Some(AddrMode::Abs),
                5 => Some(AddrMode::ZpgX),
                _ => None,
            },
            Type::Cxy => match b {
                0 => Some(AddrMode::Imm),
                1 => Some(AddrMode::Zpg),
                _ => None,
            },
            Type::Rsh => match b {
                1 => Some(AddrMode::Zpg),
                2 => Some(AddrMode::Acc),
                3 => Some(AddrMode::Abs),
                5 => Some(AddrMode::ZpgX),
                7 => Some(AddrMode::AbsX),
                _ => None,
            },
            Type::Idc => match b {
                1 => Some(AddrMode::Zpg),
                3 => Some(AddrMode::Abs),
                5 => Some(AddrMode::ZpgX),
                7 => Some(AddrMode::AbsX),
                _ => None,
            },
            Type::Bit => match b {
                1 => Some(AddrMode::Zpg),
                3 => Some(AddrMode::Abs),
                _ => None,
            },
            Type::Jmp => match a {
                2 => Some(AddrMode::Abs),
                3 => Some(AddrMode::Ind),
                _ => None,
            },
            Type::Jsr => Some(AddrMode::Abs),
            Type::Bch => Some(AddrMode::Rel),
            Type::Imp => Some(AddrMode::Impl),
        }
    }

    /// The value that this type stores in its mode field for `addrmode`, if
    /// it admits that addressing mode.
    pub open spec fn field_of_mode(self, addrmode: AddrMode) -> Option<u8> {
        match self {
            Type::Aop => match addrmode {
                AddrMode::Ind => Some(0),
                AddrMode::Zpg => Some(1),
                AddrMode::Imm => Some(2),
                AddrMode::Abs => Some(3),
                AddrMode::IndY => Some(4),
                AddrMode::ZpgX => Some(5),
                AddrMode::AbsY => Some(6),
                AddrMode::AbsX => Some(7),
                _ => None,
            },
            Type::Ldx => match addrmode {
                AddrMode::Imm => Some(0),
                AddrMode::Zpg => Some(1),
                AddrMode::Abs => Some(3),
                AddrMode::ZpgY => Some(5),
                AddrMode::AbsY => Some(7),
                _ => None,
            },
            Type::Ldy => match addrmode {
                AddrMode::Imm => Some(0),
                AddrMode::Zpg => Some(1),
                AddrMode::Abs => Some(3),
                AddrMode::ZpgX => Some(5),
                AddrMode::AbsX => Some(7),
                _ => None,
            },
            Type::Sta => match addrmode {
                AddrMode::Ind => Some(0),
                AddrMode::Zpg => Some(1),
                AddrMode::Abs => Some(3),
                AddrMode::IndY => Some(4),
                AddrMode::ZpgX => Some(5),
                AddrMode::AbsY => Some(6),
                AddrMode::AbsX => Some(7),
                _ => None,
            },
            Type::Stx => match addrmode {
                AddrMode::Zpg => Some(1),
                AddrMode::Abs => Some(3),
                AddrMode::ZpgY => Some(5),
                _ => None,
            },
            Type::Sty => match addrmode {
                AddrMode::Zpg => Some(1),
                AddrMode::Abs => Some(3),
                AddrMode::ZpgX => Some(5),
                _ => None,
            },
            Type::Cxy => match addrmode {
                AddrMode::Imm => Some(0),
                AddrMode::Zpg => Some(1),
                _ => None,
            },
            Type::Rsh => match addrmode {
                AddrMode::Zpg => Some(1),
                AddrMode::Acc => Some(2),
                AddrMode::Abs => Some(3),
                AddrMode::ZpgX => Some(5),
                AddrMode::AbsX => Some(7),
                _ => None,
            },
            Type::Idc => match addrmode {
                AddrMode::Zpg => Some(1),
                AddrMode::Abs => Some(3),
                AddrMode::ZpgX => Some(5),
                AddrMode::AbsX => Some(7),
                _ => None,
            },
            Type::Bit => match addrmode {
                AddrMode::Zpg => Some(1),
                AddrMode::Abs => Some(3),
                _ => None,
            },
            Type::Jmp => match addrmode {
                AddrMode::Abs => Some(2),
                AddrMode::Ind => Some(3),
                _ => None,
            },
            Type::Jsr => match addrmode {
                AddrMode::Abs => Some(0),
                _ => None,
            },
            Type::Bch => match addrmode {
                AddrMode::Rel => Some(0),
                _ => None,
            },
            Type::Imp => match addrmode {
                AddrMode::Impl => Some(0),
                _ => None,
            },
        }
    }

    /// Whether this type admits `addrmode`.
    pub open spec fn admits(self, addrmode: AddrMode) -> bool {
        self.field_of_mode(addrmode) is Some
    }

    /// What [`Type::addrmode_from_bits`] returns for `opcode`.
    pub open spec fn spec_addrmode_from_bits(self, opcode: u8) -> Result<AddrMode, OpcodeError> {
        match self.mode_of_fields(spec_bits_a(opcode), spec_bits_b(opcode)) {
            Some(addrmode) => Ok(addrmode),
            None => Err(OpcodeError { bits: opcode }),
        }
    }

    /// What [`Type::addrmode_to_bits`] returns for `addrmode`.
    pub open spec fn spec_addrmode_to_bits(self, addrmode: AddrMode) -> Result<u8, AddrModeError> {
        match self.field_of_mode(addrmode) {
            Some(value) => Ok(
                match self.mode_field() {
                    ModeField::A => spec_set_bits_a(0, value),
                    ModeField::B => spec_set_bits_b(0, value),
                    ModeField::Fixed => 0,
                },
            ),
            None => Err(AddrModeError { mode: addrmode, instr_type: self }),
        }
    }

    /// The addressing mode that the opcode byte `opcode` selects for an
    /// instruction of this type, or the error that holds the byte if it
    /// selects none.
    pub fn addrmode_from_bits(self, opcode: u8) -> (result: Result<AddrMode, OpcodeError>)
        ensures
            result == self.spec_addrmode_from_bits(opcode),
    {
        let a = bits_a(opcode);
        let b = bits_b(opcode);
        let addrmode = match self {
            Type::Aop => match b {
                0 => Some(AddrMode::Ind),
                1 => Some(AddrMode::Zpg),
                2 => Some(AddrMode::Imm),
                3 => Some(AddrMode::Abs),
                4 => Some(AddrMode::IndY),
                5 => Some(AddrMode::ZpgX),
                6 => Some(AddrMode::AbsY),
                7 => Some(AddrMode::AbsX),
                _ => None,
            },
            Type::Ldx => match b {
                0 => Some(AddrMode::Imm),
                1 => Some(AddrMode::Zpg),
                3 => Some(AddrMode::Abs),
                5 => Some(AddrMode::ZpgY),
                7 => Some(AddrMode::AbsY),
                _ => None,
            },
            Type::Ldy => match b {
                0 => Some(AddrMode::Imm),
                1 => Some(AddrMode::Zpg),
                3 => Some(AddrMode::Abs),
                5 => Some(AddrMode::ZpgX),
                7 => Some(AddrMode::AbsX),
                _ => None,
            },
            Type::Sta => match b {
                0 => Some(AddrMode::Ind),
                1 => Some(AddrMode::Zpg),
                3 => Some(AddrMode::Abs),
                4 => Some(AddrMode::IndY),
                5 => Some(AddrMode::ZpgX),
                6 => Some(AddrMode::AbsY),
                7 => Some(AddrMode::AbsX),
                _ => None,
            },
            Type::Stx => match b {
                1 => Some(AddrMode::Zpg),
                3 => Some(AddrMode::Abs),
                5 => Some(AddrMode::ZpgY),
                _ => None,
            },
            Type::Sty => match b {
                1 => Some(AddrMode::Zpg),
                3 => Some(AddrMode::Abs),
                5 => Some(AddrMode::ZpgX),
                _ => None,
            },
            Type::Cxy => match b {
                0 => Some(AddrMode::Imm),
                1 => Some(AddrMode::Zpg),
                _ => None,
            },
            Type::Rsh => match b {
                1 => Some(AddrMode::Zpg),
                2 => Some(AddrMode::Acc),
                3 => Some(AddrMode::Abs),
                5 => Some(AddrMode::ZpgX),
                7 => Some(AddrMode::AbsX),
                _ => None,
            },
            Type::Idc => match b {
                1 => Some(AddrMode::Zpg),
                3 => Some(AddrMode::Abs),
                5 => Some(AddrMode::ZpgX),
                7 => Some(AddrMode::AbsX),
                _ => None,
            },
            Type::Bit => match b {
                1 => Some(AddrMode::Zpg),
                3 => Some(AddrMode::Abs),
                _ => None,
            },
            Type::Jmp => match a {
                2 => Some(AddrMode::Abs),
                3 => Some(AddrMode::Ind),
                _ => None,
            },
            Type::Jsr => Some(AddrMode::Abs),
            Type::Bch => Some(AddrMode::Rel),
            Type::Imp => Some(AddrMode::Impl),
        };
        match addrmode {
            Some(addrmode) => Ok(addrmode),
            None => Err(OpcodeError { bits: opcode }),
        }
    }

    /// The opcode bits that select `addrmode` for an instruction of this
    /// type, or the error that names both if the type does not admit the
    /// addressing mode.
    pub fn addrmode_to_bits(self, addrmode: AddrMode) -> (result: Result<u8, AddrModeError>)
        ensures
            result == self.spec_addrmode_to_bits(addrmode),
            result is Ok <==> self.admits(addrmode),
    {
        let value = match self {
            Type::Aop => match addrmode {
                AddrMode::Ind => Some(0),
                AddrMode::Zpg => Some(1),
                AddrMode::Imm => Some(2),
                AddrMode::Abs => Some(3),
                AddrMode::IndY => Some(4),
                AddrMode::ZpgX => Some(5),
                AddrMode::AbsY => Some(6),
                AddrMode::AbsX => Some(7),
                _ => None,
            },
            Type::Ldx => match addrmode {
                AddrMode::Imm => Some(0),
                AddrMode::Zpg => Some(1),
                AddrMode::Abs => Some(3),
                AddrMode::ZpgY => Some(5),
                AddrMode::AbsY => Some(7),
                _ => None,
            },
            Type::Ldy => match addrmode {
                AddrMode::Imm => Some(0),
                AddrMode::Zpg => Some(1),
                AddrMode::Abs => Some(3),
                AddrMode::ZpgX => Some(5),
                AddrMode::AbsX => Some(7),
                _ => None,
            },
            Type::Sta => match addrmode {
                AddrMode::Ind => Some(0),
                AddrMode::Zpg => Some(1),
                AddrMode::Abs => Some(3),
                AddrMode::IndY => Some(4),
                AddrMode::ZpgX => Some(5),
                AddrMode::AbsY => Some(6),
                AddrMode::AbsX => Some(7),
                _ => None,
            },
            Type::Stx => match addrmode {
                AddrMode::Zpg => Some(1),
                AddrMode::Abs => Some(3),
                AddrMode::ZpgY => Some(5),
                _ => None,
            },
            Type::Sty => match addrmode {
                AddrMode::Zpg => Some(1),
                AddrMode::Abs => Some(3),
                AddrMode::ZpgX => Some(5),
                _ => None,
            },
            Type::Cxy => match addrmode {
                AddrMode::Imm => Some(0),
                AddrMode::Zpg => Some(1),
                _ => None,
            },
            Type::Rsh => match addrmode {
                AddrMode::Zpg => Some(1),
                AddrMode::Acc => Some(2),
                AddrMode::Abs => Some(3),
                AddrMode::ZpgX => Some(5),
                AddrMode::AbsX => Some(7),
                _ => None,
            },
            Type::Idc => match addrmode {
                AddrMode::Zpg => Some(1),
                AddrMode::Abs => Some(3),
                AddrMode::ZpgX => Some(5),
                AddrMode::AbsX => Some(7),
                _ => None,
            },
            Type::Bit => match addrmode {
                AddrMode::Zpg => Some(1),
                AddrMode::Abs => Some(3),
                _ => None,
            },
            Type::Jmp => match addrmode {
                AddrMode::Abs => Some(2),
                AddrMode::Ind => Some(3),
                _ => None,
            },
            Type::Jsr => match addrmode {
                AddrMode::Abs => Some(0),
                _ => None,
            },
            Type::Bch => match addrmode {
                AddrMode::Rel => Some(0),
                _ => None,
            },
            Type::Imp => match addrmode {
                AddrMode::Impl => Some(0),
                _ => None,
            },
        };
        match value {
            Some(value) => Ok(
                match self {
                    Type::Jmp => set_bits_a(0, value),
                    Type::Jsr | Type::Bch | Type::Imp => 0,
                    _ => set_bits_b(0, value),
                },
            ),
            None => Err(AddrModeError { mode: addrmode, instr_type: self }),
        }
    }
}

} // verus!
