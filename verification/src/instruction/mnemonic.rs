//! Mnemonics: the names of the instructions, the opcode bit patterns that
//! select them, and the instruction type of each.

use crate::error::OpcodeError;
use crate::instruction::itype::Type;
use crate::instruction::opcode::{
    bits_a, bits_b, bits_c, set_bits_a, set_bits_b, set_bits_c, spec_bits_a, spec_bits_b,
    spec_bits_c, spec_set_bits_a, spec_set_bits_b, spec_set_bits_c,
};
use vstd::prelude::*;

verus! {

/// The name of an instruction, whatever its addressing mode.
#[derive(Debug, Clone, Copy, PartialEq, Eq, PartialOrd, Ord, Hash, Structural)]
pub enum Mnemonic {
    /// Or memory with the accumulator.
    Ora,
    /// And memory with the accumulator.
    And,
    /// Exclusive-or memory with the accumulator.
    Eor,
    /// Add memory and carry to the accumulator.
    Adc,
    /// Load the accumulator.
    Lda,
    /// Compare memory with the accumulator.
    Cmp,
    /// Subtract memory and borrow from the accumulator.
    Sbc,
    /// Branch if Negative is clear.
    Bpl,
    /// Branch if Negative is set.
    Bmi,
    /// Branch if Overflow is clear.
    Bvc,
    /// Branch if Overflow is set.
    Bvs,
    /// Branch if Carry is clear.
    Bcc,
    /// Branch if Carry is set.
    Bcs,
    /// Branch if Zero is clear.
    Bne,
    /// Branch if Zero is set.
    Beq,
    /// Test bits of memory against the accumulator.
    Bit,
    /// Compare memory with X.
    Cpx,
    /// Compare memory with Y.
    Cpy,
    /// Increment memory.
    Inc,
    /// Decrement memory.
    Dec,
    /// Increment X.
    Inx,
    /// Increment Y.
    Iny,
    /// Decrement X.
    Dex,
    /// Decrement Y.
    Dey,
    /// Break.
    Brk,
    /// Push the status.
    Php,
    /// Return from interrupt.
    Rti,
    /// Return from subroutine.
    Rts,
    /// Pull the status.
    Plp,
    /// Push the accumulator.
    Pha,
    /// Pull the accumulator.
    Pla,
    /// Set Carry.
    Sec,
    /// Clear Carry.
    Clc,
    /// Set InterruptDisable.
    Sei,
    /// Clear InterruptDisable.
    Cli,
    /// Set Decimal.
    Sed,
    /// Clear Decimal.
    Cld,
    /// Clear Overflow.
    Clv,
    /// Transfer Y to the accumulator.
    Tya,
    /// Transfer the accumulator to Y.
    Tay,
    /// Transfer the accumulator to X.
    Tax,
    /// Transfer X to the accumulator.
    Txa,
    /// Transfer X to the stack pointer.
    Txs,
    /// Transfer the stack pointer to X.
    Tsx,
    /// Do nothing.
    Nop,
    /// Jump.
    Jmp,
    /// Jump to subroutine.
    Jsr,
    /// Load X.
    Ldx,
    /// Load Y.
    Ldy,
    /// Shift left.
    Asl,
    /// Rotate left through Carry.
    Rol,
    /// Shift right.
    Lsr,
    /// Rotate right through Carry.
    Ror,
    /// Store the accumulator.
    Sta,
    /// Store X.
    Stx,
    /// Store Y.
    Sty,
}

/// The mnemonic that the three opcode fields select, if any. The rows are
/// tried from the top and the first that matches decides.
pub open spec fn mnemonic_of_fields(a: u8, b: u8, c: u8) -> Option<Mnemonic> {
    match (a, b, c) {
        (0, 0, 0) => Some(Mnemonic::Brk),
        (0, 2, 0) => Some(Mnemonic::Php),
        (0, 4, 0) => Some(Mnemonic::Bpl),
        (0, 6, 0) => Some(Mnemonic::Clc),
        (0, 0 | 1 | 2 | 3 | 4 | 5 | 6 | 7, 1) => Some(Mnemonic::Ora),
        (0, 0 | 1 | 2 | 3 | 4 | 5 | 6 | 7, 2) => Some(Mnemonic::Asl),
        (1, 0, 0) => Some(Mnemonic::Jsr),
        (1, 1 | 3, 0) => Some(Mnemonic::Bit),
        (1, 2, 0) => Some(Mnemonic::Plp),
        (1, 4, 0) => Some(Mnemonic::Bmi),
        (1, 6, 0) => Some(Mnemonic::Sec),
        (1, 0 | 1 | 2 | 3 | 4 | 5 | 6 | 7, 1) => Some(Mnemonic::And),
        (1, 0 | 1 | 2 | 3 | 4 | 5 | 6 | 7, 2) => Some(Mnemonic::Rol),
        (2, 0, 0) => Some(Mnemonic::Rti),
        (2, 2, 0) => Some(Mnemonic::Pha),
        (2 | 3, 3, 0) => Some(Mnemonic::Jmp),
        (2, 4, 0) => Some(Mnemonic::Bvc),
        (2, 6, 0) => Some(Mnemonic::Cli),
        (2, 0 | 1 | 2 | 3 | 4 | 5 | 6 | 7, 1) => Some(Mnemonic::Eor),
        (2, 0 | 1 | 2 | 3 | 4 | 5 | 6 | 7, 2) => Some(Mnemonic::Lsr),
        (3, 0, 0) => Some(Mnemonic::Rts),
        (3, 2, 0) => Some(Mnemonic::Pla),
        (3, 4, 0) => Some(Mnemonic::Bvs),
        (3, 6, 0) => Some(Mnemonic::Sei),
        (3, 0 | 1 | 2 | 3 | 4 | 5 | 6 | 7, 1) => Some(Mnemonic::Adc),
        (3, 0 | 1 | 2 | 3 | 4 | 5 | 6 | 7, 2) => Some(Mnemonic::Ror),
        (4, 1 | 3 | 5, 0) => Some(Mnemonic::Sty),
        (4, 2, 0) => Some(Mnemonic::Dey),
        (4, 4, 0) => Some(Mnemonic::Bcc),
        (4, 6, 0) => Some(Mnemonic::Tya),
        (4, 0 | 1 | 2 | 3 | 4 | 5 | 6 | 7, 1) => Some(Mnemonic::Sta),
        (4, 1 | 3 | 5, 2) => Some(Mnemonic::Stx),
        (4, 2, 2) => Some(Mnemonic::Txa),
        (5, 2, 2) => Some(Mnemonic::Tax),
        (4, 6, 2) => Some(Mnemonic::Txs),
        (5, 6, 2) => Some(Mnemonic::Tsx),
        (5, 0 | 1 | 3 | 5 | 7, 0) => Some(Mnemonic::Ldy),
        (5, 2, 0) => Some(Mnemonic::Tay),
        (5, 4, 0) => Some(Mnemonic::Bcs),
        (5, 6, 0) => Some(Mnemonic::Clv),
        (5, 0 | 1 | 2 | 3 | 4 | 5 | 6 | 7, 1) => Some(Mnemonic::Lda),
        (5, 0 | 1 | 3 | 5 | 7, 2) => Some(Mnemonic::Ldx),
        (6, 0 | 1 | 3, 0) => Some(Mnemonic::Cpy),
        (6, 2, 0) => Some(Mnemonic::Iny),
        (6, 4, 0) => Some(Mnemonic::Bne),
        (6, 6, 0) => Some(Mnemonic::Cld),
        (6, 0 | 1 | 2 | 3 | 4 | 5 | 6 | 7, 1) => Some(Mnemonic::Cmp),
        (6, 1 | 3 | 5 | 7, 2) => Some(Mnemonic::Dec),
        (6, 2, 2) => Some(Mnemonic::Dex),
        (7, 0 | 1 | 3, 0) => Some(Mnemonic::Cpx),
        (7, 2, 0) => Some(Mnemonic::Inx),
        (7, 4, 0) => Some(Mnemonic::Beq),
        (7, 6, 0) => Some(Mnemonic::Sed),
        (7, 0 | 1 | 2 | 3 | 4 | 5 | 6 | 7, 1) => Some(Mnemonic::Sbc),
        (7, 1 | 3 | 5 | 7, 2) => Some(Mnemonic::Inc),
        (7, 2, 2) => Some(Mnemonic::Nop),
        _ => None,
    }
}

impl Mnemonic {
    /// What [`Mnemonic::from_opcode_bits`] returns for `opcode`.
    pub open spec fn spec_from_opcode_bits(opcode: u8) -> Result<Mnemonic, OpcodeError> {
        match mnemonic_of_fields(spec_bits_a(opcode), spec_bits_b(opcode), spec_bits_c(opcode)) {
            Some(mnemonic) => Ok(mnemonic),
            None => Err(OpcodeError { bits: opcode }),
        }
    }

    /// The mnemonic that the opcode byte `opcode` selects, or the error that
    /// holds the byte if it selects none.
    pub fn from_opcode_bits(opcode: u8) -> (result: Result<Self, OpcodeError>)
        ensures
            result == Self::spec_from_opcode_bits(opcode),
    {
        let a = bits_a(opcode);
        let b = bits_b(opcode);
        let c = bits_c(opcode);
        match (a, b, c) {
            (0, 0, 0) => Ok(Mnemonic::Brk),
            (0, 2, 0) => Ok(Mnemonic::Php),
            (0, 4, 0) => Ok(Mnemonic::Bpl),
            (0, 6, 0) => Ok(Mnemonic::Clc),
            (0, 0 | 1 | 2 | 3 | 4 | 5 | 6 | 7, 1) => Ok(Mnemonic::Ora),
            (0, 0 | 1 | 2 | 3 | 4 | 5 | 6 | 7, 2) => Ok(Mnemonic::Asl),
            (1, 0, 0) => Ok(Mnemonic::Jsr),
            (1, 1 | 3, 0) => Ok(Mnemonic::Bit),
            (1, 2, 0) => Ok(Mnemonic::Plp),
            (1, 4, 0) => Ok(Mnemonic::Bmi),
            (1, 6, 0) => Ok(Mnemonic::Sec),
            (1, 0 | 1 | 2 | 3 | 4 | 5 | 6 | 7, 1) => Ok(Mnemonic::And),
            (1, 0 | 1 | 2 | 3 | 4 | 5 | 6 | 7, 2) => Ok(Mnemonic::Rol),
            (2, 0, 0) => Ok(Mnemonic::Rti),
            (2, 2, 0) => Ok(Mnemonic::Pha),
            (2 | 3, 3, 0) => Ok(Mnemonic::Jmp),
            (2, 4, 0) => Ok(Mnemonic::Bvc),
            (2, 6, 0) => Ok(Mnemonic::Cli),
            (2, 0 | 1 | 2 | 3 | 4 | 5 | 6 | 7, 1) => Ok(Mnemonic::Eor),
            (2, 0 | 1 | 2 | 3 | 4 | 5 | 6 | 7, 2) => Ok(Mnemonic::Lsr),
            (3, 0, 0) => Ok(Mnemonic::Rts),
            (3, 2, 0) => Ok(Mnemonic::Pla),
            (3, 4, 0) => Ok(Mnemonic::Bvs),
            (3, 6, 0) => Ok(Mnemonic::Sei),
            (3, 0 | 1 | 2 | 3 | 4 | 5 | 6 | 7, 1) => Ok(Mnemonic::Adc),
            (3, 0 | 1 | 2 | 3 | 4 | 5 | 6 | 7, 2) => Ok(Mnemonic::Ror),
            (4, 1 | 3 | 5, 0) => Ok(Mnemonic::Sty),
            (4, 2, 0) => Ok(Mnemonic::Dey),
            (4, 4, 0) => Ok(Mnemonic::Bcc),
            (4, 6, 0) => Ok(Mnemonic::Tya),
            (4, 0 | 1 | 2 | 3 | 4 | 5 | 6 | 7, 1) => Ok(Mnemonic::Sta),
            (4, 1 | 3 | 5, 2) => Ok(Mnemonic::Stx),
            (4, 2, 2) => Ok(Mnemonic::Txa),
            (5, 2, 2) => Ok(Mnemonic::Tax),
            (4, 6, 2) => Ok(Mnemonic::Txs),
            (5, 6, 2) => Ok(Mnemonic::Tsx),
            (5, 0 | 1 | 3 | 5 | 7, 0) => Ok(Mnemonic::Ldy),
            (5, 2, 0) => Ok(Mnemonic::Tay),
            (5, 4, 0) => Ok(Mnemonic::Bcs),
            (5, 6, 0) => Ok(Mnemonic::Clv),
            (5, 0 | 1 | 2 | 3 | 4 | 5 | 6 | 7, 1) => Ok(Mnemonic::Lda),
            (5, 0 | 1 | 3 | 5 | 7, 2) => Ok(Mnemonic::Ldx),
            (6, 0 | 1 | 3, 0) => Ok(Mnemonic::Cpy),
            (6, 2, 0) => Ok(Mnemonic::Iny),
            (6, 4, 0) => Ok(Mnemonic::Bne),
            (6, 6, 0) => Ok(Mnemonic::Cld),
            (6, 0 | 1 | 2 | 3 | 4 | 5 | 6 | 7, 1) => Ok(Mnemonic::Cmp),
            (6, 1 | 3 | 5 | 7, 2) => Ok(Mnemonic::Dec),
            (6, 2, 2) => Ok(Mnemonic::Dex),
            (7, 0 | 1 | 3, 0) => Ok(Mnemonic::Cpx),
            (7, 2, 0) => Ok(Mnemonic::Inx),
            (7, 4, 0) => Ok(Mnemonic::Beq),
            (7, 6, 0) => Ok(Mnemonic::Sed),
            (7, 0 | 1 | 2 | 3 | 4 | 5 | 6 | 7, 1) => Ok(Mnemonic::Sbc),
            (7, 1 | 3 | 5 | 7, 2) => Ok(Mnemonic::Inc),
            (7, 2, 2) => Ok(Mnemonic::Nop),
            _ => Err(OpcodeError { bits: opcode }),
        }
    }

    /// For each of the three opcode fields, the value that the mnemonic fixes
    /// there, or `None` where its row admits several values and the field is
    /// left to the addressing mode.
    pub open spec fn spec_fixed_fields(self) -> (Option<u8>, Option<u8>, Option<u8>) {
        match self {
            Mnemonic::Ora => (Some(0), None, Some(1)),
            Mnemonic::And => (Some(1), None, Some(1)),
            Mnemonic::Eor => (Some(2), None, Some(1)),
            Mnemonic::Adc => (Some(3), None, Some(1)),
            Mnemonic::Lda => (Some(5), None, Some(1)),
            Mnemonic::Cmp => (Some(6), None, Some(1)),
            Mnemonic::Sbc => (Some(7), None, Some(1)),
            Mnemonic::Bpl => (Some(0), Some(4), Some(0)),
            Mnemonic::Bmi => (Some(1), Some(4), Some(0)),
            Mnemonic::Bvc => (Some(2), Some(4), Some(0)),
            Mnemonic::Bvs => (Some(3), Some(4), Some(0)),
            Mnemonic::Bcc => (Some(4), Some(4), Some(0)),
            Mnemonic::Bcs => (Some(5), Some(4), Some(0)),
            Mnemonic::Bne => (Some(6), Some(4), Some(0)),
            Mnemonic::Beq => (Some(7), Some(4), Some(0)),
            Mnemonic::Bit => (Some(1), None, Some(0)),
            Mnemonic::Cpx => (Some(7), None, Some(0)),
            Mnemonic::Cpy => (Some(6), None, Some(0)),
            Mnemonic::Inc => (Some(7), None, Some(2)),
            Mnemonic::Dec => (Some(6), None, Some(2)),
            Mnemonic::Inx => (Some(7), Some(2), Some(0)),
            Mnemonic::Iny => (Some(6), Some(2), Some(0)),
            Mnemonic::Dex => (Some(6), Some(2), Some(2)),
            Mnemonic::Dey => (Some(4), Some(2), Some(0)),
            Mnemonic::Brk => (Some(0), Some(0), Some(0)),
            Mnemonic::Php => (Some(0), Some(2), Some(0)),
            Mnemonic::Rti => (Some(2), Some(0), Some(0)),
            Mnemonic::Rts => (Some(3), Some(0), Some(0)),
            Mnemonic::Plp => (Some(1), Some(2), Some(0)),
            Mnemonic::Pha => (Some(2), Some(2), Some(0)),
            Mnemonic::Pla => (Some(3), Some(2), Some(0)),
            Mnemonic::Sec => (Some(1), Some(6), Some(0)),
            Mnemonic::Clc => (Some(0), Some(6), Some(0)),
            Mnemonic::Sei => (Some(3), Some(6), Some(0)),
            Mnemonic::Cli => (Some(2), Some(6), Some(0)),
            Mnemonic::Sed => (Some(7), Some(6), Some(0)),
            Mnemonic::Cld => (Some(6), Some(6), Some(0)),
            Mnemonic::Clv => (Some(5), Some(6), Some(0)),
            Mnemonic::Tya => (Some(4), Some(6), Some(0)),
            Mnemonic::Tay => (Some(5), Some(2), Some(0)),
            Mnemonic::Tax => (Some(5), Some(2), Some(2)),
            Mnemonic::Txa => (Some(4), Some(2), Some(2)),
            Mnemonic::Txs => (Some(4), Some(6), Some(2)),
            Mnemonic::Tsx => (Some(5), Some(6), Some(2)),
            Mnemonic::Nop => (Some(7), Some(2), Some(2)),
            Mnemonic::Jmp => (None, Some(3), Some(0)),
            Mnemonic::Jsr => (Some(1), Some(0), Some(0)),
            Mnemonic::Ldx => (Some(5), None, Some(2)),
            Mnemonic::Ldy => (Some(5), None, Some(0)),
            Mnemonic::Asl => (Some(0), None, Some(2)),
            Mnemonic::Rol => (Some(1), None, Some(2)),
            Mnemonic::Lsr => (Some(2), None, Some(2)),
            Mnemonic::Ror => (Some(3), None, Some(2)),
            Mnemonic::Sta => (Some(4), None, Some(1)),
            Mnemonic::Stx => (Some(4), None, Some(2)),
            Mnemonic::Sty => (Some(4), None, Some(0)),
        }
    }

    /// The opcode bits that the mnemonic contributes: each fixed field at its
    /// place and zero in the fields it leaves open.
    pub open spec fn spec_to_opcode_bits(self) -> u8 {
        let (a, b, c) = self.spec_fixed_fields();
        let with_a = match a {
            Some(value) => spec_set_bits_a(0, value),
            None => 0,
        };
        let with_b = match b {
            Some(value) => spec_set_bits_b(with_a, value),
            None => with_a,
        };
        match c {
            Some(value) => spec_set_bits_c(with_b, value),
            None => with_b,
        }
    }

    fn fixed_fields(self) -> (fields: (Option<u8>, Option<u8>, Option<u8>))
        ensures
            fields == self.spec_fixed_fields(),
    {
        match self {
            Mnemonic::Ora => (Some(0), None, Some(1)),
            Mnemonic::And => (Some(1), None, Some(1)),
            Mnemonic::Eor => (Some(2), None, Some(1)),
            Mnemonic::Adc => (Some(3), None, Some(1)),
            Mnemonic::Lda => (Some(5), None, Some(1)),
            Mnemonic::Cmp => (Some(6), None, Some(1)),
            Mnemonic::Sbc => (Some(7), None, Some(1)),
            Mnemonic::Bpl => (Some(0), Some(4), Some(0)),
            Mnemonic::Bmi => (Some(1), Some(4), Some(0)),
            Mnemonic::Bvc => (Some(2), Some(4), Some(0)),
            Mnemonic::Bvs => (Some(3), Some(4), Some(0)),
            Mnemonic::Bcc => (Some(4), Some(4), Some(0)),
            Mnemonic::Bcs => (Some(5), Some(4), Some(0)),
            Mnemonic::Bne => (Some(6), Some(4), Some(0)),
            Mnemonic::Beq => (Some(7), Some(4), Some(0)),
            Mnemonic::Bit => (Some(1), None, Some(0)),
            Mnemonic::Cpx => (Some(7), None, Some(0)),
            Mnemonic::Cpy => (Some(6), None, Some(0)),
            Mnemonic::Inc => (Some(7), None, Some(2)),
            Mnemonic::Dec => (Some(6), None, Some(2)),
            Mnemonic::Inx => (Some(7), Some(2), Some(0)),
            Mnemonic::Iny => (Some(6), Some(2), Some(0)),
            Mnemonic::Dex => (Some(6), Some(2), Some(2)),
            Mnemonic::Dey => (Some(4), Some(2), Some(0)),
            Mnemonic::Brk => (Some(0), Some(0), Some(0)),
            Mnemonic::Php => (Some(0), Some(2), Some(0)),
            Mnemonic::Rti => (Some(2), Some(0), Some(0)),
            Mnemonic::Rts => (Some(3), Some(0), Some(0)),
            Mnemonic::Plp => (Some(1), Some(2), Some(0)),
            Mnemonic::Pha => (Some(2), Some(2), Some(0)),
            Mnemonic::Pla => (Some(3), Some(2), Some(0)),
            Mnemonic::Sec => (Some(1), Some(6), Some(0)),
            Mnemonic::Clc => (Some(0), Some(6), Some(0)),
            Mnemonic::Sei => (Some(3), Some(6), Some(0)),
            Mnemonic::Cli => (Some(2), Some(6), Some(0)),
            Mnemonic::Sed => (Some(7), Some(6), Some(0)),
            Mnemonic::Cld => (Some(6), Some(6), Some(0)),
            Mnemonic::Clv => (Some(5), Some(6), Some(0)),
            Mnemonic::Tya => (Some(4), Some(6), Some(0)),
            Mnemonic::Tay => (Some(5), Some(2), Some(0)),
            Mnemonic::Tax => (Some(5), Some(2), Some(2)),
            Mnemonic::Txa => (Some(4), Some(2), Some(2)),
            Mnemonic::Txs => (Some(4), Some(6), Some(2)),
            Mnemonic::Tsx => (Some(5), Some(6), Some(2)),
            Mnemonic::Nop => (Some(7), Some(2), Some(2)),
            Mnemonic::Jmp => (None, Some(3), Some(0)),
            Mnemonic::Jsr => (Some(1), Some(0), Some(0)),
            Mnemonic::Ldx => (Some(5), None, Some(2)),
            Mnemonic::Ldy => (Some(5), None, Some(0)),
            Mnemonic::Asl => (Some(0), None, Some(2)),
            Mnemonic::Rol => (Some(1), None, Some(2)),
            Mnemonic::Lsr => (Some(2), None, Some(2)),
            Mnemonic::Ror => (Some(3), None, Some(2)),
            Mnemonic::Sta => (Some(4), None, Some(1)),
            Mnemonic::Stx => (Some(4), None, Some(2)),
            Mnemonic::Sty => (Some(4), None, Some(0)),
        }
    }

    /// The opcode bits that the mnemonic contributes.
    pub fn to_opcode_bits(self) -> (opcode: u8)
        ensures
            opcode == self.spec_to_opcode_bits(),
    {
        let (a, b, c) = self.fixed_fields();
        let mut opcode: u8 = 0;
        if let Some(value) = a {
            opcode = set_bits_a(opcode, value);
        }
        if let Some(value) = b {
            opcode = set_bits_b(opcode, value);
        }
        if let Some(value) = c {
            opcode = set_bits_c(opcode, value);
        }
        opcode
    }

    /// The mnemonic in capital letters.
    pub open spec fn spec_rendered(self) -> Seq<char> {
        match self {
            Mnemonic::Ora => "ORA"@,
            Mnemonic::And => "AND"@,
            Mnemonic::Eor => "EOR"@,
            Mnemonic::Adc => "ADC"@,
            Mnemonic::Lda => "LDA"@,
            Mnemonic::Cmp => "CMP"@,
            Mnemonic::Sbc => "SBC"@,
            Mnemonic::Bpl => "BPL"@,
            Mnemonic::Bmi => "BMI"@,
            Mnemonic::Bvc => "BVC"@,
            Mnemonic::Bvs => "BVS"@,
            Mnemonic::Bcc => "BCC"@,
            Mnemonic::Bcs => "BCS"@,
            Mnemonic::Bne => "BNE"@,
            Mnemonic::Beq => "BEQ"@,
            Mnemonic::Bit => "BIT"@,
            Mnemonic::Cpx => "CPX"@,
            Mnemonic::Cpy => "CPY"@,
            Mnemonic::Inc => "INC"@,
            Mnemonic::Dec => "DEC"@,
            Mnemonic::Inx => "INX"@,
            Mnemonic::Iny => "INY"@,
            Mnemonic::Dex => "DEX"@,
            Mnemonic::Dey => "DEY"@,
            Mnemonic::Brk => "BRK"@,
            Mnemonic::Php => "PHP"@,
            Mnemonic::Rti => "RTI"@,
            Mnemonic::Rts => "RTS"@,
            Mnemonic::Plp => "PLP"@,
            Mnemonic::Pha => "PHA"@,
            Mnemonic::Pla => "PLA"@,
            Mnemonic::Sec => "SEC"@,
            Mnemonic::Clc => "CLC"@,
            Mnemonic::Sei => "SEI"@,
            Mnemonic::Cli => "CLI"@,
            Mnemonic::Sed => "SED"@,
            Mnemonic::Cld => "CLD"@,
            Mnemonic::Clv => "CLV"@,
            Mnemonic::Tya => "TYA"@,
            Mnemonic::Tay => "TAY"@,
            Mnemonic::Tax => "TAX"@,
            Mnemonic::Txa => "TXA"@,
            Mnemonic::Txs => "TXS"@,
            Mnemonic::Tsx => "TSX"@,
            Mnemonic::Nop => "NOP"@,
            Mnemonic::Jmp => "JMP"@,
            Mnemonic::Jsr => "JSR"@,
            Mnemonic::Ldx => "LDX"@,
            Mnemonic::Ldy => "LDY"@,
            Mnemonic::Asl => "ASL"@,
            Mnemonic::Rol => "ROL"@,
            Mnemonic::Lsr => "LSR"@,
            Mnemonic::Ror => "ROR"@,
            Mnemonic::Sta => "STA"@,
            Mnemonic::Stx => "STX"@,
            Mnemonic::Sty => "STY"@,
        }
    }

    /// The mnemonic in capital letters.
    pub fn rendered(self) -> (name: &'static str)
        ensures
            name@ == self.spec_rendered(),
    {
        match self {
            Mnemonic::Ora => "ORA",
            Mnemonic::And => "AND",
            Mnemonic::Eor => "EOR",
            Mnemonic::Adc => "ADC",
            Mnemonic::Lda => "LDA",
            Mnemonic::Cmp => "CMP",
            Mnemonic::Sbc => "SBC",
            Mnemonic::Bpl => "BPL",
            Mnemonic::Bmi => "BMI",
            Mnemonic::Bvc => "BVC",
            Mnemonic::Bvs => "BVS",
            Mnemonic::Bcc => "BCC",
            Mnemonic::Bcs => "BCS",
            Mnemonic::Bne => "BNE",
            Mnemonic::Beq => "BEQ",
            Mnemonic::Bit => "BIT",
            Mnemonic::Cpx => "CPX",
            Mnemonic::Cpy => "CPY",
            Mnemonic::Inc => "INC",
            Mnemonic::Dec => "DEC",
            Mnemonic::Inx => "INX",
            Mnemonic::Iny => "INY",
            Mnemonic::Dex => "DEX",
            Mnemonic::Dey => "DEY",
            Mnemonic::Brk => "BRK",
            Mnemonic::Php => "PHP",
            Mnemonic::Rti => "RTI",
            Mnemonic::Rts => "RTS",
            Mnemonic::Plp => "PLP",
            Mnemonic::Pha => "PHA",
            Mnemonic::Pla => "PLA",
            Mnemonic::Sec => "SEC",
            Mnemonic::Clc => "CLC",
            Mnemonic::Sei => "SEI",
            Mnemonic::Cli => "CLI",
            Mnemonic::Sed => "SED",
            Mnemonic::Cld => "CLD",
            Mnemonic::Clv => "CLV",
            Mnemonic::Tya => "TYA",
            Mnemonic::Tay => "TAY",
            Mnemonic::Tax => "TAX",
            Mnemonic::Txa => "TXA",
            Mnemonic::Txs => "TXS",
            Mnemonic::Tsx => "TSX",
            Mnemonic::Nop => "NOP",
            Mnemonic::Jmp => "JMP",
            Mnemonic::Jsr => "JSR",
            Mnemonic::Ldx => "LDX",
            Mnemonic::Ldy => "LDY",
            Mnemonic::Asl => "ASL",
            Mnemonic::Rol => "ROL",
            Mnemonic::Lsr => "LSR",
            Mnemonic::Ror => "ROR",
            Mnemonic::Sta => "STA",
            Mnemonic::Stx => "STX",
            Mnemonic::Sty => "STY",
        }
    }

    /// The instruction type of the mnemonic.
    pub open spec fn spec_instr_type(self) -> Type {
        match self {
            Mnemonic::Ora => Type::Aop,
            Mnemonic::And => Type::Aop,
            Mnemonic::Eor => Type::Aop,
            Mnemonic::Adc => Type::Aop,
            Mnemonic::Lda => Type::Aop,
            Mnemonic::Cmp => Type::Aop,
            Mnemonic::Sbc => Type::Aop,
            Mnemonic::Bpl => Type::Bch,
            Mnemonic::Bmi => Type::Bch,
            Mnemonic::Bvc => Type::Bch,
            Mnemonic::Bvs => Type::Bch,
            Mnemonic::Bcc => Type::Bch,
            Mnemonic::Bcs => Type::Bch,
            Mnemonic::Bne => Type::Bch,
            Mnemonic::Beq => Type::Bch,
            Mnemonic::Bit => Type::Bit,
            Mnemonic::Cpx => Type::Cxy,
            Mnemonic::Cpy => Type::Cxy,
            Mnemonic::Inc => Type::Idc,
            Mnemonic::Dec => Type::Idc,
            Mnemonic::Inx => Type::Imp,
            Mnemonic::Iny => Type::Imp,
            Mnemonic::Dex => Type::Imp,
            Mnemonic::Dey => Type::Imp,
            Mnemonic::Brk => Type::Imp,
            Mnemonic::Php => Type::Imp,
            Mnemonic::Rti => Type::Imp,
            Mnemonic::Rts => Type::Imp,
            Mnemonic::Plp => Type::Imp,
            Mnemonic::Pha => Type::Imp,
            Mnemonic::Pla => Type::Imp,
            Mnemonic::Sec => Type::Imp,
            Mnemonic::Clc => Type::Imp,
            Mnemonic::Sei => Type::Imp,
            Mnemonic::Cli => Type::Imp,
            Mnemonic::Sed => Type::Imp,
            Mnemonic::Cld => Type::Imp,
            Mnemonic::Clv => Type::Imp,
            Mnemonic::Tya => Type::Imp,
            Mnemonic::Tay => Type::Imp,
            Mnemonic::Tax => Type::Imp,
            Mnemonic::Txa => Type::Imp,
            Mnemonic::Txs => Type::Imp,
            Mnemonic::Tsx => Type::Imp,
            Mnemonic::Nop => Type::Imp,
            Mnemonic::Jmp => Type::Jmp,
            Mnemonic::Jsr => Type::Jsr,
            Mnemonic::Ldx => Type::Ldx,
            Mnemonic::Ldy => Type::Ldy,
            Mnemonic::Asl => Type::Rsh,
            Mnemonic::Rol => Type::Rsh,
            Mnemonic::Lsr => Type::Rsh,
            Mnemonic::Ror => Type::Rsh,
            Mnemonic::Sta => Type::Sta,
            Mnemonic::Stx => Type::Stx,
            Mnemonic::Sty => Type::Sty,
        }
    }

    /// The instruction type of the mnemonic.
    pub fn instr_type(self) -> (instr_type: Type)
        ensures
            instr_type == self.spec_instr_type(),
    {
        match self {
            Mnemonic::Ora => Type::Aop,
            Mnemonic::And => Type::Aop,
            Mnemonic::Eor => Type::Aop,
            Mnemonic::Adc => Type::Aop,
            Mnemonic::Lda => Type::Aop,
            Mnemonic::Cmp => Type::Aop,
            Mnemonic::Sbc => Type::Aop,
            Mnemonic::Bpl => Type::Bch,
            Mnemonic::Bmi => Type::Bch,
            Mnemonic::Bvc => Type::Bch,
            Mnemonic::Bvs => Type::Bch,
            Mnemonic::Bcc => Type::Bch,
            Mnemonic::Bcs => Type::Bch,
            Mnemonic::Bne => Type::Bch,
            Mnemonic::Beq => Type::Bch,
            Mnemonic::Bit => Type::Bit,
            Mnemonic::Cpx => Type::Cxy,
            Mnemonic::Cpy => Type::Cxy,
            Mnemonic::Inc => Type::Idc,
            Mnemonic::Dec => Type::Idc,
            Mnemonic::Inx => Type::Imp,
            Mnemonic::Iny => Type::Imp,
            Mnemonic::Dex => Type::Imp,
            Mnemonic::Dey => Type::Imp,
            Mnemonic::Brk => Type::Imp,
            Mnemonic::Php => Type::Imp,
            Mnemonic::Rti => Type::Imp,
            Mnemonic::Rts => Type::Imp,
            Mnemonic::Plp => Type::Imp,
            Mnemonic::Pha => Type::Imp,
            Mnemonic::Pla => Type::Imp,
            Mnemonic::Sec => Type::Imp,
            Mnemonic::Clc => Type::Imp,
            Mnemonic::Sei => Type::Imp,
            Mnemonic::Cli => Type::Imp,
            Mnemonic::Sed => Type::Imp,
            Mnemonic::Cld => Type::Imp,
            Mnemonic::Clv => Type::Imp,
            Mnemonic::Tya => Type::Imp,
            Mnemonic::Tay => Type::Imp,
            Mnemonic::Tax => Type::Imp,
            Mnemonic::Txa => Type::Imp,
            Mnemonic::Txs => Type::Imp,
            Mnemonic::Tsx => Type::Imp,
            Mnemonic::Nop => Type::Imp,
            Mnemonic::Jmp => Type::Jmp,
            Mnemonic::Jsr => Type::Jsr,
            Mnemonic::Ldx => Type::Ldx,
            Mnemonic::Ldy => Type::Ldy,
            Mnemonic::Asl => Type::Rsh,
            Mnemonic::Rol => Type::Rsh,
            Mnemonic::Lsr => Type::Rsh,
            Mnemonic::Ror => Type::Rsh,
            Mnemonic::Sta => Type::Sta,
            Mnemonic::Stx => Type::Stx,
            Mnemonic::Sty => Type::Sty,
        }
    }
}

} // verus!
