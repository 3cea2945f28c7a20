//! Instructions: their mnemonics, their one-byte opcodes and what they do.

mod itype;
mod mnemonic;
pub mod opcode;

pub use itype::{ModeField, Type};
pub use mnemonic::{mnemonic_of_fields, Mnemonic};
pub use opcode::Opcode;

use crate::addrmode::{Implied, Operand, OperandAddr, ReadOperand};
use crate::arch::{from_le_bytes, signed};
use crate::binary::{advance_by, infallible, wrote, Decoder, Encoder};
use crate::error::{AddrModeError, MachineError, OpcodeError};
use crate::machine::{flag, with_flag, with_nz, Machine, MachineView, Status};
use crate::memory::Memory;
use vstd::prelude::*;

verus! {

/// Addition with carry of two bytes, in two steps: first the operands, then
/// the carry. The result is the sum modulo 256. The carry out says whether
/// either step left the range of a byte, the overflow whether either step
/// left the range of a signed byte.
pub open spec fn spec_adc(left: u8, right: u8, carry: bool) -> (u8, bool, bool) {
    let carry_in: u8 = if carry {
        1
    } else {
        0
    };
    let partial = left.wrapping_add(right);
    let result = partial.wrapping_add(carry_in);
    let carry_out = left + right > 255 || partial + carry_in > 255;
    let overflow = !(-128 <= signed(left) + signed(right) <= 127) || !(-128 <= signed(partial)
        + carry_in <= 127);
    (result, carry_out, overflow)
}

/// Subtraction with borrow of two bytes, in two steps: first the operands,
/// then the borrow, which is taken when `carry` is clear. The result is the
/// difference modulo 256. The carry out says that neither step went below
/// zero, the overflow whether either step left the range of a signed byte.
pub open spec fn spec_sbc(left: u8, right: u8, carry: bool) -> (u8, bool, bool) {
    let borrow_in: u8 = if carry {
        0
    } else {
        1
    };
    let partial = left.wrapping_sub(right);
    let result = partial.wrapping_sub(borrow_in);
    let carry_out = !(left - right < 0 || partial - borrow_in < 0);
    let overflow = !(-128 <= signed(left) - signed(right) <= 127) || !(-128 <= signed(partial)
        - borrow_in <= 127);
    (result, carry_out, overflow)
}

/// Addition with carry gives the sum of all three modulo 256 and reports a
/// carry exactly when that sum does not fit a byte. Without carry in it is
/// plain addition: the overflow then says exactly whether the sum of the
/// operands, read as signed bytes, fits a signed byte.
pub proof fn lemma_adc(left: u8, right: u8, carry: bool)
    ensures
        ({
            let (result, carry_out, overflow) = spec_adc(left, right, carry);
            let carry_in: int = if carry {
                1
            } else {
                0
            };
            &&& result == (left + right + carry_in) % 256
            &&& carry_out == (left + right + carry_in > 255)
            &&& !carry ==> overflow == !(-128 <= signed(left) + signed(right) <= 127)
            &&& !carry && !overflow ==> signed(result) == signed(left) + signed(right)
        }),
{
}

/// Subtraction with borrow gives the difference modulo 256 and clears the
/// carry exactly when the difference is below zero. With the carry set
/// going in, that is without borrow, it is plain subtraction: the overflow
/// then says exactly whether the difference of the operands, read as signed
/// bytes, fits a signed byte.
pub proof fn lemma_sbc(left: u8, right: u8, carry: bool)
    ensures
        ({
            let (result, carry_out, overflow) = spec_sbc(left, right, carry);
            let borrow_in: int = if carry {
                0
            } else {
                1
            };
            &&& result == (left - right - borrow_in) % 256
            &&& carry_out == (left - right - borrow_in >= 0)
            &&& carry ==> overflow == !(-128 <= signed(left) - signed(right) <= 127)
            &&& carry && !overflow ==> signed(result) == signed(left) - signed(right)
        }),
{
}

fn signed_value(byte: u8) -> (value: i16)
    ensures
        value == signed(byte),
{
    if byte >= 128 {
        byte as i16 - 256
    } else {
        byte as i16
    }
}

/// Adds `right` and the carry to `left`. Returns the result, the carry out
/// and the signed overflow.
pub fn adc(left: u8, right: u8, carry: bool) -> (outcome: (u8, bool, bool))
    ensures
        outcome == spec_adc(left, right, carry),
{
    let carry_in: u8 = if carry {
        1
    } else {
        0
    };
    let partial = left.wrapping_add(right);
    let result = partial.wrapping_add(carry_in);
    let first_carry = left as u16 + right as u16 > 255;
    let second_carry = partial as u16 + carry_in as u16 > 255;
    let first = signed_value(left) + signed_value(right);
    let second = signed_value(partial) + carry_in as i16;
    let first_overflow = first < -128 || first > 127;
    let second_overflow = second < -128 || second > 127;
    (result, first_carry || second_carry, first_overflow || second_overflow)
}

/// Subtracts `right` and the borrow from `left`; the borrow is taken when
/// `carry` is clear. Returns the result, the carry out and the signed
/// overflow.
pub fn sbc(left: u8, right: u8, carry: bool) -> (outcome: (u8, bool, bool))
    ensures
        outcome == spec_sbc(left, right, carry),
{
    let borrow_in: u8 = if carry {
        0
    } else {
        1
    };
    let partial = left.wrapping_sub(right);
    let result = partial.wrapping_sub(borrow_in);
    let first_borrow = left < right;
    let second_borrow = partial < borrow_in;
    let first = signed_value(left) - signed_value(right);
    let second = signed_value(partial) - borrow_in as i16;
    let first_overflow = first < -128 || first > 127;
    let second_overflow = second < -128 || second > 127;
    (result, !first_borrow && !second_borrow, first_overflow || second_overflow)
}

/// The state after comparing `register` with `value`: the flags are those of
/// the difference, and Carry says that the register is not below the value.
/// No register changes.
pub open spec fn compare(machine: MachineView, register: u8, value: u8) -> MachineView {
    MachineView {
        sr: with_flag(
            with_nz(machine.sr, register.wrapping_sub(value)),
            Status::CARRY,
            register >= value,
        ),
        ..machine
    }
}

/// The state after an instruction that takes a value has been given `value`
/// as its operand.
pub open spec fn apply_value(mnemonic: Mnemonic, machine: MachineView, value: u8) -> MachineView {
    match mnemonic {
        Mnemonic::Ora => MachineView {
            ra: machine.ra | value,
            sr: with_nz(machine.sr, machine.ra | value),
            ..machine
        },
        Mnemonic::And => MachineView {
            ra: machine.ra & value,
            sr: with_nz(machine.sr, machine.ra & value),
            ..machine
        },
        Mnemonic::Eor => MachineView {
            ra: machine.ra ^ value,
            sr: with_nz(machine.sr, machine.ra ^ value),
            ..machine
        },
        Mnemonic::Adc => {
            let (result, carry, overflow) = spec_adc(
                machine.ra,
                value,
                flag(machine.sr, Status::CARRY),
            );
            MachineView {
                ra: result,
                sr: with_flag(
                    with_flag(with_nz(machine.sr, result), Status::CARRY, carry),
                    Status::OVERFLOW,
                    overflow,
                ),
                ..machine
            }
        },
        Mnemonic::Sbc => {
            let (result, carry, overflow) = spec_sbc(
                machine.ra,
                value,
                flag(machine.sr, Status::CARRY),
            );
            MachineView {
                ra: result,
                sr: with_flag(
                    with_flag(with_nz(machine.sr, result), Status::CARRY, carry),
                    Status::OVERFLOW,
                    overflow,
                ),
                ..machine
            }
        },
        Mnemonic::Lda => MachineView { ra: value, sr: with_nz(machine.sr, value), ..machine },
        Mnemonic::Ldx => MachineView { rx: value, sr: with_nz(machine.sr, value), ..machine },
        Mnemonic::Ldy => MachineView { ry: value, sr: with_nz(machine.sr, value), ..machine },
        Mnemonic::Cmp => compare(machine, machine.ra, value),
        Mnemonic::Cpx => compare(machine, machine.rx, value),
        Mnemonic::Cpy => compare(machine, machine.ry, value),
        Mnemonic::Bit => MachineView {
            sr: with_flag(
                with_flag(
                    with_flag(machine.sr, Status::NEGATIVE, value >= 128),
                    Status::OVERFLOW,
                    (value / 64) % 2 == 1,
                ),
                Status::ZERO,
                machine.ra & value == 0,
            ),
            ..machine
        },
        _ => machine,
    }
}

/// What an instruction that rewrites a byte makes of `data` under the status
/// `sr`: the new byte and the new status. The shifts move bit 7 or bit 0 of
/// `data` into Carry; the rotations also move the old Carry in at the other
/// end.
pub open spec fn modify(mnemonic: Mnemonic, sr: u8, data: u8) -> (u8, u8) {
    let carry_in: int = if flag(sr, Status::CARRY) {
        1
    } else {
        0
    };
    match mnemonic {
        Mnemonic::Inc => (data.wrapping_add(1), with_nz(sr, data.wrapping_add(1))),
        Mnemonic::Dec => (data.wrapping_sub(1), with_nz(sr, data.wrapping_sub(1))),
        Mnemonic::Asl => {
            let result = ((2 * data) % 256) as u8;
            (result, with_flag(with_nz(sr, result), Status::CARRY, data >= 128))
        },
        Mnemonic::Rol => {
            let result = ((2 * data) % 256 + carry_in) as u8;
            (result, with_flag(with_nz(sr, result), Status::CARRY, data >= 128))
        },
        Mnemonic::Lsr => {
            let result = (data / 2) as u8;
            (result, with_flag(with_nz(sr, result), Status::CARRY, data % 2 == 1))
        },
        Mnemonic::Ror => {
            let result = (data / 2 + 128 * carry_in) as u8;
            (result, with_flag(with_nz(sr, result), Status::CARRY, data % 2 == 1))
        },
        _ => (data, sr),
    }
}

/// The register that a store instruction writes to memory.
pub open spec fn stored_register(mnemonic: Mnemonic, machine: MachineView) -> u8 {
    match mnemonic {
        Mnemonic::Stx => machine.rx,
        Mnemonic::Sty => machine.ry,
        _ => machine.ra,
    }
}

/// Whether a branch instruction jumps under the status `sr`.
pub open spec fn branch_taken(mnemonic: Mnemonic, sr: u8) -> bool {
    match mnemonic {
        Mnemonic::Bpl => !flag(sr, Status::NEGATIVE),
        Mnemonic::Bmi => flag(sr, Status::NEGATIVE),
        Mnemonic::Bvc => !flag(sr, Status::OVERFLOW),
        Mnemonic::Bvs => flag(sr, Status::OVERFLOW),
        Mnemonic::Bcc => !flag(sr, Status::CARRY),
        Mnemonic::Bcs => flag(sr, Status::CARRY),
        Mnemonic::Bne => !flag(sr, Status::ZERO),
        Mnemonic::Beq => flag(sr, Status::ZERO),
        _ => false,
    }
}

/// The state after an instruction without operand.
pub open spec fn apply_implied(mnemonic: Mnemonic, machine: MachineView) -> MachineView {
    match mnemonic {
        Mnemonic::Inx => MachineView {
            rx: machine.rx.wrapping_add(1),
            sr: with_nz(machine.sr, machine.rx.wrapping_add(1)),
            ..machine
        },
        Mnemonic::Iny => MachineView {
            ry: machine.ry.wrapping_add(1),
            sr: with_nz(machine.sr, machine.ry.wrapping_add(1)),
            ..machine
        },
        Mnemonic::Dex => MachineView {
            rx: machine.rx.wrapping_sub(1),
            sr: with_nz(machine.sr, machine.rx.wrapping_sub(1)),
            ..machine
        },
        Mnemonic::Dey => MachineView {
            ry: machine.ry.wrapping_sub(1),
            sr: with_nz(machine.sr, machine.ry.wrapping_sub(1)),
            ..machine
        },
        Mnemonic::Pha => machine.push_byte(machine.ra),
        Mnemonic::Pla => {
            let (popped, byte) = machine.pop_byte();
            MachineView { ra: byte, ..popped }
        },
        Mnemonic::Php => machine.push_byte(machine.sr),
        Mnemonic::Plp => machine.pop_sr(),
        Mnemonic::Brk => {
            let sr = with_flag(machine.sr, Status::BREAK, true);
            let pushed = machine.push_address(machine.pc.wrapping_add(2)).push_byte(sr);
            MachineView { sr, pc: pushed.load_vector(Memory::IRQ_VECTOR), ..pushed }
        },
        Mnemonic::Rti => {
            let (first, bits) = machine.pop_byte();
            let (second, address) = first.pop_address();
            MachineView { sr: with_flag(bits, Status::BREAK, false), pc: address, ..second }
        },
        Mnemonic::Rts => {
            let (popped, address) = machine.pop_address();
            MachineView { pc: address.wrapping_add(1), ..popped }
        },
        Mnemonic::Sec => MachineView {
            sr: with_flag(machine.sr, Status::CARRY, true),
            ..machine
        },
        Mnemonic::Clc => MachineView {
            sr: with_flag(machine.sr, Status::CARRY, false),
            ..machine
        },
        Mnemonic::Sei => MachineView {
            sr: with_flag(machine.sr, Status::INTERRUPT, true),
            ..machine
        },
        Mnemonic::Cli => MachineView {
            sr: with_flag(machine.sr, Status::INTERRUPT, false),
            ..machine
        },
        Mnemonic::Sed => MachineView {
            sr: with_flag(machine.sr, Status::DECIMAL, true),
            ..machine
        },
        Mnemonic::Cld => MachineView {
            sr: with_flag(machine.sr, Status::DECIMAL, false),
            ..machine
        },
        Mnemonic::Clv => MachineView {
            sr: with_flag(machine.sr, Status::OVERFLOW, false),
            ..machine
        },
        Mnemonic::Tya => MachineView {
            ra: machine.ry,
            sr: with_nz(machine.sr, machine.ry),
            ..machine
        },
        Mnemonic::Tay => MachineView {
            ry: machine.ra,
            sr: with_nz(machine.sr, machine.ra),
            ..machine
        },
        Mnemonic::Txa => MachineView {
            ra: machine.rx,
            sr: with_nz(machine.sr, machine.rx),
            ..machine
        },
        Mnemonic::Tax => MachineView {
            rx: machine.ra,
            sr: with_nz(machine.sr, machine.ra),
            ..machine
        },
        Mnemonic::Txs => MachineView {
            sp: machine.rx,
            sr: with_nz(machine.sr, machine.rx),
            ..machine
        },
        Mnemonic::Tsx => MachineView {
            rx: machine.sp,
            sr: with_nz(machine.sr, machine.sp),
            ..machine
        },
        _ => machine,
    }
}

/// What stands at the head of a stream of bytes.
#[derive(Debug, Clone, Copy, PartialEq, Eq, Structural)]
pub enum DecodeOutcome {
    /// An instruction.
    Instruction(Instruction),
    /// A first byte that is no opcode.
    Opcode(OpcodeError),
    /// Too little: the source could not supply a byte that the instruction
    /// needs.
    Fault,
}

/// What stands at the head of a stream whose next three bytes are `first`,
/// `second` and `third`, each `None` where the source cannot supply it, and
/// how many bytes of the stream that takes. An instruction is its opcode byte
/// followed by the bytes of its operand, as many as the addressing mode of
/// the opcode has; a 16-bit operand has its low byte first.
pub open spec fn decode_outcome(first: Option<u8>, second: Option<u8>, third: Option<u8>) -> (
    nat,
    DecodeOutcome,
) {
    match first {
        None => (0, DecodeOutcome::Fault),
        Some(bits) => match Opcode::spec_from_bits(bits) {
            Err(error) => (1, DecodeOutcome::Opcode(error)),
            Ok(opcode) => {
                let size = opcode.addrmode.spec_size();
                let low = second.unwrap_or(0);
                let high = third.unwrap_or(0);
                if size >= 1 && second is None {
                    (1, DecodeOutcome::Fault)
                } else if size >= 2 && third is None {
                    (2, DecodeOutcome::Fault)
                } else {
                    (
                        (1 + size) as nat,
                        DecodeOutcome::Instruction(
                            Instruction {
                                mnemonic: opcode.mnemonic,
                                operand: Operand::spec_from_bytes(
                                    opcode.addrmode,
                                    if size >= 1 {
                                        low
                                    } else {
                                        0
                                    },
                                    if size >= 2 {
                                        high
                                    } else {
                                        0
                                    },
                                ),
                            },
                        ),
                    )
                }
            },
        },
    }
}

/// An instruction takes exactly one byte more than the size of its operand's
/// addressing mode, its opcode is a legal pair, and nothing that is decoded
/// takes more than three bytes.
pub proof fn lemma_decoded_size(first: Option<u8>, second: Option<u8>, third: Option<u8>)
    ensures
        decode_outcome(first, second, third).0 <= 3,
        decode_outcome(first, second, third).1 matches DecodeOutcome::Instruction(instruction)
            ==> {
            &&& decode_outcome(first, second, third).0 == 1
                + instruction.operand.spec_addrmode().spec_size()
            &&& first is Some
            &&& Opcode::spec_from_bits(first->Some_0) == Ok::<Opcode, OpcodeError>(
                instruction.spec_opcode(),
            )
            &&& instruction.spec_opcode().legal()
        },
{
    if first is Some && Opcode::spec_from_bits(first->Some_0) is Ok {
        let opcode = Opcode::spec_from_bits(first->Some_0)->Ok_0;
        crate::addrmode::lemma_operand_bytes(
            opcode.addrmode,
            second.unwrap_or(0),
            third.unwrap_or(0),
        );
        crate::addrmode::lemma_operand_bytes(opcode.addrmode, second.unwrap_or(0), 0);
        crate::addrmode::lemma_operand_bytes(opcode.addrmode, 0, 0);
        opcode::lemma_decode_encode_decode(first->Some_0);
    }
}

/// Reading an instruction from a decoder finds what [`decode_outcome`] finds
/// in the next three bytes of the decoder, and leaves the decoder past the
/// bytes that this takes.
pub proof fn lemma_decode_outcome<D: Decoder>(decoder: D)
    ensures
        ({
            let (count, outcome) = decode_outcome(
                decoder.peek(),
                decoder.advance().peek(),
                decoder.advance().advance().peek(),
            );
            let end = advance_by(decoder, count);
            Instruction::spec_decode(decoder) == (
                end,
                match outcome {
                    DecodeOutcome::Instruction(instruction) => Ok(instruction),
                    DecodeOutcome::Opcode(error) => Err(D::lift(MachineError::Opcode(error))),
                    DecodeOutcome::Fault => Err(end.fault()),
                },
            )
        }),
{
    reveal_with_fuel(advance_by, 4);
}

/// Decoding the bytes of an instruction gives the instruction back and takes
/// exactly its bytes, whatever follows them.
pub proof fn lemma_instruction_round_trip(instruction: Instruction, second: u8, third: u8)
    requires
        instruction.spec_bytes() is Some,
    ensures
        ({
            let bytes = instruction.spec_bytes()->Some_0;
            let following = |index: int, filler: u8|
                Some(
                    if index < bytes.len() {
                        bytes[index]
                    } else {
                        filler
                    },
                );
            &&& 1 <= bytes.len() <= 3
            &&& bytes.len() == 1 + instruction.operand.spec_addrmode().spec_size()
            &&& decode_outcome(Some(bytes[0]), following(1, second), following(2, third)) == (
                bytes.len(),
                DecodeOutcome::Instruction(instruction),
            )
        }),
{
    opcode::lemma_round_trip(instruction.spec_opcode());
    crate::addrmode::lemma_operand_round_trip(instruction.operand);
}

/// No instruction breaks the memory: after an instruction every region has
/// the size it had, and the ROM its banks and its selection.
pub proof fn lemma_execute_preserves_wf(instruction: Instruction, machine: MachineView)
    requires
        machine.wf(),
    ensures
        instruction.spec_execute(machine).0.wf(),
        instruction.spec_execute(machine).0.memory.banks == machine.memory.banks,
        instruction.spec_execute(machine).0.memory.selected == machine.memory.selected,
        instruction.spec_execute(machine).0.fault == machine.fault,
{
    match instruction.mnemonic.spec_instr_type() {
        Type::Imp => {
            let after = apply_implied(instruction.mnemonic, machine);
            assert(after.wf() && after.memory.banks == machine.memory.banks
                && after.memory.selected == machine.memory.selected && after.fault
                == machine.fault);
        },
        _ => {},
    }
}

/// A return undoes a call: after a jump to a subroutine, a return that finds
/// the stack as the call left it puts the program counter back to where it
/// stood before the call, past the calling instruction, and the stack
/// pointer back to where it stood.
pub proof fn lemma_call_return(machine: MachineView, target: Operand, wandered: u16)
    requires
        machine.wf(),
        target.spec_address(machine.push_address(machine.pc.wrapping_sub(1))) is Ok,
    ensures
        ({
            let call = Instruction { mnemonic: Mnemonic::Jsr, operand: target };
            let ret = Instruction { mnemonic: Mnemonic::Rts, operand: Operand::Impl(Implied) };
            let (called, call_result) = call.spec_execute(machine);
            let (back, ret_result) = ret.spec_execute(MachineView { pc: wandered, ..called });
            &&& call_result is Ok
            &&& ret_result is Ok
            &&& called.pc == target.spec_address(
                machine.push_address(machine.pc.wrapping_sub(1)),
            )->Ok_0
            &&& called.sp == machine.sp.wrapping_sub(2)
            &&& back.pc == machine.pc
            &&& back.sp == machine.sp
        }),
{
    crate::machine::lemma_stack_discipline(machine, 0, machine.pc.wrapping_sub(1));
}

/// Moving on by one byte and then by `count` bytes is moving on by
/// `count + 1` bytes.
pub proof fn lemma_advance_by_after_one<D: Decoder>(decoder: D, count: nat)
    ensures
        advance_by(decoder.advance(), count) == advance_by(decoder, count + 1),
{
    reveal_with_fuel(advance_by, 2);
}

/// A mnemonic with its operand: an instruction ready to be executed.
#[derive(Debug, Clone, Copy, PartialEq, Eq, PartialOrd, Ord, Hash, Structural)]
pub struct Instruction {
    pub mnemonic: Mnemonic,
    pub operand: Operand,
}

impl Instruction {
    /// The mnemonic with the kind of the operand.
    pub open spec fn spec_opcode(self) -> Opcode {
        Opcode { mnemonic: self.mnemonic, addrmode: self.operand.spec_addrmode() }
    }

    /// The mnemonic with the kind of the operand.
    pub fn opcode(self) -> (opcode: Opcode)
        ensures
            opcode == self.spec_opcode(),
    {
        Opcode { mnemonic: self.mnemonic, addrmode: self.operand.addrmode() }
    }

    /// The bytes of the instruction in the instruction stream, if its opcode
    /// has an encoding: the opcode byte, then the bytes of the operand.
    pub open spec fn spec_bytes(self) -> Option<Seq<u8>> {
        match self.spec_opcode().spec_to_bits() {
            Err(_) => None,
            Ok(bits) => Some(seq![bits] + self.operand.spec_bytes()),
        }
    }

    /// The instruction that `decoder` holds next, and the decoder after it:
    /// one opcode byte, then the operand of the kind that the opcode names.
    /// After a failure the decoder stays past the bytes that were read.
    pub open spec fn spec_decode<D: Decoder>(decoder: D) -> (D, Result<Instruction, D::Error>) {
        match Opcode::spec_decode(decoder) {
            (after, Err(error)) => (after, Err(error)),
            (after, Ok(opcode)) => match Operand::spec_decode(opcode.addrmode, after) {
                (end, Err(error)) => (end, Err(error)),
                (end, Ok(operand)) => (end, Ok(Instruction { mnemonic: opcode.mnemonic, operand })),
            },
        }
    }

    /// Reads one instruction from `decoder`. A decoded instruction has taken
    /// exactly one byte for the opcode and as many bytes as the kind of its
    /// operand has.
    pub fn decode<D: Decoder>(decoder: &mut D) -> (result: Result<Self, D::Error>)
        ensures
            (*final(decoder), result) == Self::spec_decode(*old(decoder)),
            result matches Ok(instruction) ==> *final(decoder) == advance_by(
                *old(decoder),
                (1 + instruction.operand.spec_addrmode().spec_size()) as nat,
            ),
            result matches Ok(instruction) ==> instruction.spec_opcode().legal(),
    {
        let opcode = match Opcode::decode(decoder) {
            Err(error) => {
                return Err(error);
            },
            Ok(opcode) => opcode,
        };
        match Operand::decode(opcode.addrmode, decoder) {
            Err(error) => Err(error),
            Ok(operand) => {
                proof {
                    lemma_advance_by_after_one(*old(decoder), opcode.addrmode.spec_size() as nat);
                }
                Ok(Self { mnemonic: opcode.mnemonic, operand })
            },
        }
    }

    /// Writes the instruction to `encoder`: the opcode byte, then the bytes
    /// of the operand. An instruction whose opcode has no encoding is
    /// reported and nothing is written.
    pub fn encode<E: Encoder>(&self, encoder: &mut E) -> (result: Result<(), E::Error>)
        ensures
            match self.spec_bytes() {
                None => {
                    &&& result == Err::<(), E::Error>(
                        E::lift(
                            MachineError::AddrMode(
                                AddrModeError {
                                    mode: self.operand.spec_addrmode(),
                                    instr_type: self.mnemonic.spec_instr_type(),
                                },
                            ),
                        ),
                    )
                    &&& *final(encoder) == *old(encoder)
                },
                Some(bytes) => {
                    &&& wrote(*old(encoder), *final(encoder), bytes, result)
                    &&& infallible::<E>() ==> result is Ok
                },
            },
    {
        match self.opcode().encode(encoder) {
            Err(error) => {
                proof {
                    if self.spec_bytes() is Some {
                        let bytes = self.spec_bytes()->Some_0;
                        assert(encoder.written() =~= old(encoder).written() + bytes.subrange(
                            0,
                            0,
                        ));
                    }
                }
                Err(error)
            },
            Ok(()) => {
                let ghost middle = *encoder;
                let result = self.operand.encode(encoder);
                proof {
                    let bytes = self.spec_bytes()->Some_0;
                    let tail = self.operand.spec_bytes();
                    if result is Ok {
                        assert(encoder.written() =~= old(encoder).written() + bytes);
                    } else {
                        let count = encoder.written().len() - middle.written().len();
                        assert(encoder.written() =~= old(encoder).written() + bytes.subrange(
                            0,
                            1 + count,
                        ));
                    }
                }
                result
            },
        }
    }

    /// The state after an instruction that reads its operand, and its
    /// outcome. Where the operand yields no value nothing changes.
    pub open spec fn spec_execute_value(self, machine: MachineView) -> (
        MachineView,
        Result<(), MachineError>,
    ) {
        match self.operand.spec_read(machine) {
            Err(error) => (machine, Err(error)),
            Ok(value) => (apply_value(self.mnemonic, machine, value), Ok(())),
        }
    }

    /// The state after an instruction that rewrites a byte, and its outcome.
    /// A shift or rotation of the accumulator rewrites the accumulator. Any
    /// other operand must designate an address: the byte there is read,
    /// the flags are set from the new byte, and the new byte is written
    /// back. Where the write fails the flags stay set.
    pub open spec fn spec_execute_modify(self, machine: MachineView) -> (
        MachineView,
        Result<(), MachineError>,
    ) {
        if self.operand is Acc && self.mnemonic.spec_instr_type() is Rsh {
            let (result, sr) = modify(self.mnemonic, machine.sr, machine.ra);
            (MachineView { ra: result, sr, ..machine }, Ok(()))
        } else {
            match self.operand.spec_address(machine) {
                Err(error) => (machine, Err(error)),
                Ok(address) => match machine.memory.read(address) {
                    Err(error) => (machine, Err(MachineError::Read(error))),
                    Ok(data) => {
                        let (result, sr) = modify(self.mnemonic, machine.sr, data);
                        match machine.memory.write(address, result) {
                            Err(error) => (
                                MachineView { sr, ..machine },
                                Err(MachineError::Write(error)),
                            ),
                            Ok(memory) => (MachineView { memory, sr, ..machine }, Ok(())),
                        }
                    },
                },
            }
        }
    }

    /// The state after a store instruction, and its outcome. Where the
    /// operand designates no address, or none that can be written, nothing
    /// changes.
    pub open spec fn spec_execute_store(self, machine: MachineView) -> (
        MachineView,
        Result<(), MachineError>,
    ) {
        match self.operand.spec_address(machine) {
            Err(error) => (machine, Err(error)),
            Ok(address) => match machine.memory.write(
                address,
                stored_register(self.mnemonic, machine),
            ) {
                Err(error) => (machine, Err(MachineError::Write(error))),
                Ok(memory) => (MachineView { memory, ..machine }, Ok(())),
            },
        }
    }

    /// The state after a jump, and its outcome.
    pub open spec fn spec_execute_jump(self, machine: MachineView) -> (
        MachineView,
        Result<(), MachineError>,
    ) {
        match self.operand.spec_address(machine) {
            Err(error) => (machine, Err(error)),
            Ok(address) => (MachineView { pc: address, ..machine }, Ok(())),
        }
    }

    /// The state after a jump to a subroutine, and its outcome. The program
    /// counter points past the instruction; the address pushed is that of
    /// the last byte of the instruction, one below. The operand is resolved
    /// after the push.
    pub open spec fn spec_execute_call(self, machine: MachineView) -> (
        MachineView,
        Result<(), MachineError>,
    ) {
        let pushed = machine.push_address(machine.pc.wrapping_sub(1));
        match self.operand.spec_address(pushed) {
            Err(error) => (pushed, Err(error)),
            Ok(address) => (MachineView { pc: address, ..pushed }, Ok(())),
        }
    }

    /// The state after a conditional branch, and its outcome. The operand is
    /// resolved only if the branch is taken.
    pub open spec fn spec_execute_branch(self, machine: MachineView) -> (
        MachineView,
        Result<(), MachineError>,
    ) {
        if branch_taken(self.mnemonic, machine.sr) {
            self.spec_execute_jump(machine)
        } else {
            (machine, Ok(()))
        }
    }

    /// The state after an instruction without operand, and its outcome. Any
    /// operand but the implied one is refused, and nothing changes.
    pub open spec fn spec_execute_implied(self, machine: MachineView) -> (
        MachineView,
        Result<(), MachineError>,
    ) {
        match self.operand.spec_require_implied() {
            Err(error) => (machine, Err(error)),
            Ok(_) => (apply_implied(self.mnemonic, machine), Ok(())),
        }
    }

    /// The state of the machine after the instruction, and the outcome of
    /// the instruction. The instruction type of the mnemonic decides how the
    /// operand is used.
    pub open spec fn spec_execute(self, machine: MachineView) -> (
        MachineView,
        Result<(), MachineError>,
    ) {
        match self.mnemonic.spec_instr_type() {
            Type::Aop | Type::Ldx | Type::Ldy | Type::Cxy | Type::Bit => self.spec_execute_value(
                machine,
            ),
            Type::Rsh | Type::Idc => self.spec_execute_modify(machine),
            Type::Sta | Type::Stx | Type::Sty => self.spec_execute_store(machine),
            Type::Jmp => self.spec_execute_jump(machine),
            Type::Jsr => self.spec_execute_call(machine),
            Type::Bch => self.spec_execute_branch(machine),
            Type::Imp => self.spec_execute_implied(machine),
        }
    }

    /// Executes the instruction on `machine`, whose program counter points
    /// past the instruction.
    pub fn execute(self, machine: &mut Machine) -> (result: Result<(), MachineError>)
        ensures
            (final(machine)@, result) == self.spec_execute(old(machine)@),
    {
        match self.mnemonic.instr_type() {
            Type::Aop | Type::Ldx | Type::Ldy | Type::Cxy | Type::Bit => self.execute_value(
                machine,
            ),
            Type::Rsh | Type::Idc => self.execute_modify(machine),
            Type::Sta | Type::Stx | Type::Sty => self.execute_store(machine),
            Type::Jmp => self.execute_jump(machine),
            Type::Jsr => self.execute_call(machine),
            Type::Bch => self.execute_branch(machine),
            Type::Imp => self.execute_implied(machine),
        }
    }

    fn execute_value(self, machine: &mut Machine) -> (result: Result<(), MachineError>)
        ensures
            (final(machine)@, result) == self.spec_execute_value(old(machine)@),
    {
        match machine.read_operand(self.operand) {
            Err(error) => Err(error),
            Ok(value) => {
                execute_value(self.mnemonic, machine, value);
                Ok(())
            },
        }
    }

    fn execute_store(self, machine: &mut Machine) -> (result: Result<(), MachineError>)
        ensures
            (final(machine)@, result) == self.spec_execute_store(old(machine)@),
    {
        match machine.operand_addr(self.operand) {
            Err(error) => Err(error),
            Ok(address) => {
                let data = match self.mnemonic {
                    Mnemonic::Stx => machine.rx,
                    Mnemonic::Sty => machine.ry,
                    _ => machine.ra,
                };
                match machine.memory.write(address, data) {
                    Err(error) => Err(MachineError::Write(error)),
                    Ok(()) => Ok(()),
                }
            },
        }
    }

    fn execute_call(self, machine: &mut Machine) -> (result: Result<(), MachineError>)
        ensures
            (final(machine)@, result) == self.spec_execute_call(old(machine)@),
    {
        let ret_address = machine.pc.wrapping_sub(1);
        match machine.push_address(ret_address) {
            Err(error) => Err(error),
            Ok(()) => self.execute_jump(machine),
        }
    }

    fn execute_branch(self, machine: &mut Machine) -> (result: Result<(), MachineError>)
        ensures
            (final(machine)@, result) == self.spec_execute_branch(old(machine)@),
    {
        if is_branch_taken(self.mnemonic, &machine.sr) {
            self.execute_jump(machine)
        } else {
            Ok(())
        }
    }

    fn execute_implied(self, machine: &mut Machine) -> (result: Result<(), MachineError>)
        ensures
            (final(machine)@, result) == self.spec_execute_implied(old(machine)@),
    {
        match self.operand.require_implied() {
            Err(error) => Err(error),
            Ok(_) => execute_implied(self.mnemonic, machine),
        }
    }

    fn execute_jump(self, machine: &mut Machine) -> (result: Result<(), MachineError>)
        ensures
            (final(machine)@, result) == self.spec_execute_jump(old(machine)@),
    {
        match machine.operand_addr(self.operand) {
            Err(error) => Err(error),
            Ok(address) => {
                machine.pc = address;
                Ok(())
            },
        }
    }

    fn execute_modify(self, machine: &mut Machine) -> (result: Result<(), MachineError>)
        ensures
            (final(machine)@, result) == self.spec_execute_modify(old(machine)@),
    {
        let on_accumulator = match (self.operand, self.mnemonic.instr_type()) {
            (Operand::Acc(_), Type::Rsh) => true,
            _ => false,
        };
        if on_accumulator {
            let result = rewrite(self.mnemonic, &mut machine.sr, machine.ra);
            machine.ra = result;
            Ok(())
        } else {
            match machine.operand_addr(self.operand) {
                Err(error) => Err(error),
                Ok(address) => match machine.memory.read(address) {
                    Err(error) => Err(MachineError::Read(error)),
                    Ok(data) => {
                        let result = rewrite(self.mnemonic, &mut machine.sr, data);
                        match machine.memory.write(address, result) {
                            Err(error) => Err(MachineError::Write(error)),
                            Ok(()) => Ok(()),
                        }
                    },
                },
            }
        }
    }
}

fn is_branch_taken(mnemonic: Mnemonic, sr: &Status) -> (taken: bool)
    ensures
        taken == branch_taken(mnemonic, sr@),
{
    match mnemonic {
        Mnemonic::Bpl => !sr.get_n(),
        Mnemonic::Bmi => sr.get_n(),
        Mnemonic::Bvc => !sr.get_v(),
        Mnemonic::Bvs => sr.get_v(),
        Mnemonic::Bcc => !sr.get_c(),
        Mnemonic::Bcs => sr.get_c(),
        Mnemonic::Bne => !sr.get_z(),
        Mnemonic::Beq => sr.get_z(),
        _ => false,
    }
}

fn rewrite(mnemonic: Mnemonic, sr: &mut Status, data: u8) -> (result: u8)
    ensures
        (result, final(sr)@) == modify(mnemonic, old(sr)@, data),
{
    let carry_in: u8 = if sr.get_c() {
        1
    } else {
        0
    };
    match mnemonic {
        Mnemonic::Inc => {
            let result = data.wrapping_add(1);
            sr.update_from_byte(result);
            result
        },
        Mnemonic::Dec => {
            let result = data.wrapping_sub(1);
            sr.update_from_byte(result);
            result
        },
        Mnemonic::Asl => {
            let result = data << 1;
            assert(data << 1 == (2 * data) % 256) by (bit_vector);
            sr.update_from_byte(result);
            sr.set_c(data >= 128);
            result
        },
        Mnemonic::Rol => {
            let result = (data << 1) | carry_in;
            assert((data << 1) | carry_in == (2 * data) % 256 + carry_in) by (bit_vector)
                requires
                    carry_in <= 1,
            ;
            sr.update_from_byte(result);
            sr.set_c(data >= 128);
            result
        },
        Mnemonic::Lsr => {
            let result = data >> 1;
            assert(data >> 1 == data / 2) by (bit_vector);
            sr.update_from_byte(result);
            sr.set_c(data % 2 == 1);
            result
        },
        Mnemonic::Ror => {
            let result = (data >> 1) | (carry_in << 7);
            assert((data >> 1) | (carry_in << 7) == data / 2 + 128 * carry_in) by (bit_vector)
                requires
                    carry_in <= 1,
            ;
            sr.update_from_byte(result);
            sr.set_c(data % 2 == 1);
            result
        },
        _ => data,
    }
}

fn execute_compare(machine: &mut Machine, register: u8, value: u8)
    ensures
        final(machine)@ == compare(old(machine)@, register, value),
{
    let result = register.wrapping_sub(value);
    machine.sr.update_from_byte(result);
    machine.sr.set_c(register >= value);
}

fn execute_value(mnemonic: Mnemonic, machine: &mut Machine, value: u8)
    ensures
        final(machine)@ == apply_value(mnemonic, old(machine)@, value),
{
    match mnemonic {
        Mnemonic::Ora => {
            machine.ra |= value;
            machine.sr.update_from_byte(machine.ra);
        },
        Mnemonic::And => {
            machine.ra &= value;
            machine.sr.update_from_byte(machine.ra);
        },
        Mnemonic::Eor => {
            machine.ra ^= value;
            machine.sr.update_from_byte(machine.ra);
        },
        Mnemonic::Adc => {
            let (result, carry, overflow) = adc(machine.ra, value, machine.sr.get_c());
            machine.ra = result;
            machine.sr.update_from_byte(result);
            machine.sr.set_c(carry);
            machine.sr.set_v(overflow);
        },
        Mnemonic::Sbc => {
            let (result, carry, overflow) = sbc(machine.ra, value, machine.sr.get_c());
            machine.ra = result;
            machine.sr.update_from_byte(result);
            machine.sr.set_c(carry);
            machine.sr.set_v(overflow);
        },
        Mnemonic::Lda => {
            machine.ra = value;
            machine.sr.update_from_byte(value);
        },
        Mnemonic::Ldx => {
            machine.rx = value;
            machine.sr.update_from_byte(value);
        },
        Mnemonic::Ldy => {
            machine.ry = value;
            machine.sr.update_from_byte(value);
        },
        Mnemonic::Cmp => execute_compare(machine, machine.ra, value),
        Mnemonic::Cpx => execute_compare(machine, machine.rx, value),
        Mnemonic::Cpy => execute_compare(machine, machine.ry, value),
        Mnemonic::Bit => {
            let result = machine.ra & value;
            assert(((value & 0x80) != 0) == (value >= 128) && ((value & 0x40) != 0) == ((value
                / 64) % 2 == 1)) by (bit_vector);
            machine.sr.set_n((value & 0x80) != 0);
            machine.sr.set_v((value & 0x40) != 0);
            machine.sr.set_z(result == 0);
        },
        _ => {},
    }
}

fn execute_implied(mnemonic: Mnemonic, machine: &mut Machine) -> (result: Result<
    (),
    MachineError,
>)
    ensures
        result == Ok::<(), MachineError>(()),
        final(machine)@ == apply_implied(mnemonic, old(machine)@),
{
    match mnemonic {
        Mnemonic::Inx => {
            machine.rx = machine.rx.wrapping_add(1);
            machine.sr.update_from_byte(machine.rx);
        },
        Mnemonic::Iny => {
            machine.ry = machine.ry.wrapping_add(1);
            machine.sr.update_from_byte(machine.ry);
        },
        Mnemonic::Dex => {
            machine.rx = machine.rx.wrapping_sub(1);
            machine.sr.update_from_byte(machine.rx);
        },
        Mnemonic::Dey => {
            machine.ry = machine.ry.wrapping_sub(1);
            machine.sr.update_from_byte(machine.ry);
        },
        Mnemonic::Pha => {
            let acc = machine.ra;
            return machine.push_byte(acc);
        },
        Mnemonic::Pla => {
            match machine.pop_byte() {
                Err(error) => {
                    return Err(error);
                },
                Ok(byte) => {
                    machine.ra = byte;
                },
            }
        },
        Mnemonic::Php => {
            let sr = machine.sr.bits();
            return machine.push_byte(sr);
        },
        Mnemonic::Plp => {
            return machine.pop_sr();
        },
        Mnemonic::Brk => {
            let ret_address = machine.pc.wrapping_add(2);
            match machine.push_address(ret_address) {
                Err(error) => {
                    return Err(error);
                },
                Ok(()) => {},
            }
            machine.sr.set_b(true);
            let sr = machine.sr.bits();
            match machine.push_byte(sr) {
                Err(error) => {
                    return Err(error);
                },
                Ok(()) => {},
            }
            let low = match machine.memory.read(Memory::IRQ_VECTOR) {
                Err(error) => {
                    return Err(MachineError::Read(error));
                },
                Ok(byte) => byte,
            };
            let high = match machine.memory.read(Memory::IRQ_VECTOR.wrapping_add(1)) {
                Err(error) => {
                    return Err(MachineError::Read(error));
                },
                Ok(byte) => byte,
            };
            machine.pc = from_le_bytes(low, high);
        },
        Mnemonic::Rti => {
            match machine.pop_byte() {
                Err(error) => {
                    return Err(error);
                },
                Ok(bits) => {
                    machine.sr = Status::from_bits(bits);
                    machine.sr.set_b(false);
                },
            }
            match machine.pop_address() {
                Err(error) => {
                    return Err(error);
                },
                Ok(address) => {
                    machine.pc = address;
                },
            }
        },
        Mnemonic::Rts => {
            match machine.pop_address() {
                Err(error) => {
                    return Err(error);
                },
                Ok(address) => {
                    machine.pc = address.wrapping_add(1);
                },
            }
        },
        Mnemonic::Sec => machine.sr.set_c(true),
        Mnemonic::Clc => machine.sr.set_c(false),
        Mnemonic::Sei => machine.sr.set_i(true),
        Mnemonic::Cli => machine.sr.set_i(false),
        Mnemonic::Sed => machine.sr.set_d(true),
        Mnemonic::Cld => machine.sr.set_d(false),
        Mnemonic::Clv => machine.sr.set_v(false),
        Mnemonic::Tya => {
            machine.ra = machine.ry;
            machine.sr.update_from_byte(machine.ra);
        },
        Mnemonic::Tay => {
            machine.ry = machine.ra;
            machine.sr.update_from_byte(machine.ry);
        },
        Mnemonic::Txa => {
            machine.ra = machine.rx;
            machine.sr.update_from_byte(machine.ra);
        },
        Mnemonic::Tax => {
            machine.rx = machine.ra;
            machine.sr.update_from_byte(machine.rx);
        },
        Mnemonic::Txs => {
            machine.sp = machine.rx;
            machine.sr.update_from_byte(machine.sp);
        },
        Mnemonic::Tsx => {
            machine.rx = machine.sp;
            machine.sr.update_from_byte(machine.rx);
        },
        _ => {},
    }
    Ok(())
}

} // verus!
