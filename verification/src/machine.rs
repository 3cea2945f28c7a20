//! The machine: its registers, its status flags, its stack and the way it
//! takes interrupts.

use crate::arch::{
    from_le_bytes, high_byte, low_byte, spec_from_le_bytes, spec_high_byte, spec_low_byte,
};
use crate::addrmode::{OperandAddr, ReadOperand};
use crate::binary::{advance_by, Decoder, MemoryDecoder};
use crate::error::{MachineError, ReadError};
use crate::instruction::{decode_outcome, lemma_decode_outcome, DecodeOutcome, Instruction};
use crate::memory::{Memory, MemoryView};
use vstd::prelude::*;

verus! {

/// Whether bit `index` of the status byte `bits` is set.
pub open spec fn flag(bits: u8, index: u8) -> bool {
    bits & (1u8 << index) != 0
}

/// The status byte `bits` with bit `index` set to `value`.
pub open spec fn with_flag(bits: u8, index: u8, value: bool) -> u8 {
    (bits & !(1u8 << index)) | ((if value {
        1u8
    } else {
        0u8
    }) << index)
}

/// The status byte `bits` after an instruction produced `byte`: Zero says
/// whether `byte` is zero, Negative whether its bit 7 is set.
pub open spec fn with_nz(bits: u8, byte: u8) -> u8 {
    with_flag(with_flag(bits, Status::ZERO, byte == 0), Status::NEGATIVE, byte & 0x80 != 0)
}

/// Reading a flag back gives what was stored, and storing a flag leaves the
/// seven others as they were.
pub proof fn lemma_flag_with_flag(bits: u8, index: u8, value: bool, other: u8)
    requires
        index < 8,
        other < 8,
    ensures
        flag(with_flag(bits, index, value), index) == value,
        other != index ==> flag(with_flag(bits, index, value), other) == flag(bits, other),
{
    let bit: u8 = if value {
        1u8
    } else {
        0u8
    };
    assert(((bits & !(1u8 << index)) | (bit << index)) & (1u8 << index) != 0 <==> bit == 1u8)
        by (bit_vector)
        requires
            index < 8,
            bit <= 1,
    ;
    assert(other != index ==> (((bits & !(1u8 << index)) | (bit << index)) & (1u8 << other) != 0
        <==> bits & (1u8 << other) != 0)) by (bit_vector)
        requires
            index < 8,
            other < 8,
            bit <= 1,
    ;
}

/// Storing a flag that already has that value changes nothing.
pub proof fn lemma_with_flag_same(bits: u8, index: u8)
    requires
        index < 8,
    ensures
        with_flag(bits, index, flag(bits, index)) == bits,
{
    assert((bits & (1u8 << index) != 0) ==> (bits & !(1u8 << index)) | (1u8 << index) == bits)
        by (bit_vector)
        requires
            index < 8,
    ;
    assert((bits & (1u8 << index) == 0) ==> (bits & !(1u8 << index)) | (0u8 << index) == bits)
        by (bit_vector)
        requires
            index < 8,
    ;
}

/// What [`with_nz`] stores: Zero exactly for the byte zero, Negative exactly
/// for the bytes from 128 up, and the six other flags untouched.
pub proof fn lemma_with_nz(bits: u8, byte: u8, other: u8)
    requires
        other < 8,
    ensures
        flag(with_nz(bits, byte), Status::ZERO) == (byte == 0),
        flag(with_nz(bits, byte), Status::NEGATIVE) == (byte >= 128),
        other != Status::ZERO && other != Status::NEGATIVE ==> flag(with_nz(bits, byte), other)
            == flag(bits, other),
{
    assert((byte & 0x80 != 0) == (byte >= 128)) by (bit_vector);
    let zeroed = with_flag(bits, Status::ZERO, byte == 0);
    lemma_flag_with_flag(bits, Status::ZERO, byte == 0, other);
    lemma_flag_with_flag(zeroed, Status::NEGATIVE, byte & 0x80 != 0, Status::ZERO);
    lemma_flag_with_flag(zeroed, Status::NEGATIVE, byte & 0x80 != 0, other);
}

/// Updating the flags from one byte twice gives the same status as updating
/// them once, whatever the status was before.
pub proof fn lemma_update_from_byte_idempotent(bits: u8, byte: u8)
    ensures
        with_nz(with_nz(bits, byte), byte) == with_nz(bits, byte),
{
    let once = with_nz(bits, byte);
    lemma_with_nz(bits, byte, Status::ZERO);
    let zeroed = with_flag(once, Status::ZERO, byte == 0);
    lemma_with_flag_same(once, Status::ZERO);
    assert(zeroed == once);
    lemma_with_flag_same(once, Status::NEGATIVE);
    assert((byte & 0x80 != 0) == (byte >= 128)) by (bit_vector);
}

/// The processor status: eight flags in one byte.
#[derive(Debug, Clone, Copy, PartialEq, Eq, PartialOrd, Ord, Hash, Structural)]
pub struct Status {
    flags: u8,
}

impl Default for Status {
    /// The status with every flag clear.
    fn default() -> (status: Self)
        ensures
            status@ == 0,
    {
        Self { flags: 0 }
    }
}

impl Status {
    /// Bit index of the Negative flag.
    pub const NEGATIVE: u8 = 7;

    /// Bit index of the Overflow flag.
    pub const OVERFLOW: u8 = 6;

    /// Bit index of the flag without meaning.
    pub const IGNORED: u8 = 5;

    /// Bit index of the Break flag.
    pub const BREAK: u8 = 4;

    /// Bit index of the Decimal flag.
    pub const DECIMAL: u8 = 3;

    /// Bit index of the InterruptDisable flag.
    pub const INTERRUPT: u8 = 2;

    /// Bit index of the Zero flag.
    pub const ZERO: u8 = 1;

    /// Bit index of the Carry flag.
    pub const CARRY: u8 = 0;

    /// The status as a byte.
    pub closed spec fn view(&self) -> u8 {
        self.flags
    }

    /// Two statuses with the same byte are the same status.
    pub proof fn lemma_view_injective(self, other: Status)
        requires
            self@ == other@,
        ensures
            self == other,
    {
    }

    /// The status with every flag clear.
    pub fn zeroed() -> (status: Self)
        ensures
            status@ == 0,
    {
        Self { flags: 0 }
    }

    /// The status whose byte is `bits`.
    pub fn from_bits(bits: u8) -> (status: Self)
        ensures
            status@ == bits,
    {
        Self { flags: bits }
    }

    /// The status as a byte.
    pub fn bits(self) -> (bits: u8)
        ensures
            bits == self@,
    {
        self.flags
    }

    fn get(&self, flag: u8) -> (value: bool)
        requires
            flag < 8,
        ensures
            value == self::flag(self@, flag),
    {
        self.flags & (1 << flag) != 0
    }

    fn set(&mut self, flag: u8, value: bool)
        requires
            flag < 8,
        ensures
            final(self)@ == with_flag(old(self)@, flag, value),
            self::flag(final(self)@, flag) == value,
            forall|other: u8|
                other < 8 && other != flag ==> self::flag(final(self)@, other) == self::flag(
                    old(self)@,
                    other,
                ),
    {
        let bit: u8 = if value {
            1
        } else {
            0
        };
        self.flags &= !(1 << flag);
        self.flags |= bit << flag;
        proof {
            lemma_flag_with_flag(old(self)@, flag, value, flag);
            assert forall|other: u8| other < 8 && other != flag implies self::flag(
                self@,
                other,
            ) == self::flag(old(self)@, other) by {
                lemma_flag_with_flag(old(self)@, flag, value, other);
            }
        }
    }

    /// The Negative flag.
    pub fn get_n(&self) -> (value: bool)
        ensures
            value == flag(self@, Status::NEGATIVE),
    {
        self.get(Self::NEGATIVE)
    }

    /// Stores the Negative flag and leaves the others.
    pub fn set_n(&mut self, value: bool)
        ensures
            final(self)@ == with_flag(old(self)@, Status::NEGATIVE, value),
            flag(final(self)@, Status::NEGATIVE) == value,
            forall|other: u8|
                other < 8 && other != Status::NEGATIVE ==> flag(final(self)@, other) == flag(
                    old(self)@,
                    other,
                ),
    {
        self.set(Self::NEGATIVE, value)
    }

    /// The Overflow flag.
    pub fn get_v(&self) -> (value: bool)
        ensures
            value == flag(self@, Status::OVERFLOW),
    {
        self.get(Self::OVERFLOW)
    }

    /// Stores the Overflow flag and leaves the others.
    pub fn set_v(&mut self, value: bool)
        ensures
            final(self)@ == with_flag(old(self)@, Status::OVERFLOW, value),
            flag(final(self)@, Status::OVERFLOW) == value,
            forall|other: u8|
                other < 8 && other != Status::OVERFLOW ==> flag(final(self)@, other) == flag(
                    old(self)@,
                    other,
                ),
    {
        self.set(Self::OVERFLOW, value)
    }

    /// The flag without meaning.
    pub fn get_unused(&self) -> (value: bool)
        ensures
            value == flag(self@, Status::IGNORED),
    {
        self.get(Self::IGNORED)
    }

    /// Stores the flag without meaning and leaves the others.
    pub fn set_unused(&mut self, value: bool)
        ensures
            final(self)@ == with_flag(old(self)@, Status::IGNORED, value),
            flag(final(self)@, Status::IGNORED) == value,
            forall|other: u8|
                other < 8 && other != Status::IGNORED ==> flag(final(self)@, other) == flag(
                    old(self)@,
                    other,
                ),
    {
        self.set(Self::IGNORED, value)
    }

    /// The Break flag.
    pub fn get_b(&self) -> (value: bool)
        ensures
            value == flag(self@, Status::BREAK),
    {
        self.get(Self::BREAK)
    }

    /// Stores the Break flag and leaves the others.
    pub fn set_b(&mut self, value: bool)
        ensures
            final(self)@ == with_flag(old(self)@, Status::BREAK, value),
            flag(final(self)@, Status::BREAK) == value,
            forall|other: u8|
                other < 8 && other != Status::BREAK ==> flag(final(self)@, other) == flag(
                    old(self)@,
                    other,
                ),
    {
        self.set(Self::BREAK, value)
    }

    /// The Decimal flag.
    pub fn get_d(&self) -> (value: bool)
        ensures
            value == flag(self@, Status::DECIMAL),
    {
        self.get(Self::DECIMAL)
    }

    /// Stores the Decimal flag and leaves the others.
    pub fn set_d(&mut self, value: bool)
        ensures
            final(self)@ == with_flag(old(self)@, Status::DECIMAL, value),
            flag(final(self)@, Status::DECIMAL) == value,
            forall|other: u8|
                other < 8 && other != Status::DECIMAL ==> flag(final(self)@, other) == flag(
                    old(self)@,
                    other,
                ),
    {
        self.set(Self::DECIMAL, value)
    }

    /// The InterruptDisable flag.
    pub fn get_i(&self) -> (value: bool)
        ensures
            value == flag(self@, Status::INTERRUPT),
    {
        self.get(Self::INTERRUPT)
    }

    /// Stores the InterruptDisable flag and leaves the others.
    pub fn set_i(&mut self, value: bool)
        ensures
            final(self)@ == with_flag(old(self)@, Status::INTERRUPT, value),
            flag(final(self)@, Status::INTERRUPT) == value,
            forall|other: u8|
                other < 8 && other != Status::INTERRUPT ==> flag(final(self)@, other) == flag(
                    old(self)@,
                    other,
                ),
    {
        self.set(Self::INTERRUPT, value)
    }

    /// The Zero flag.
    pub fn get_z(&self) -> (value: bool)
        ensures
            value == flag(self@, Status::ZERO),
    {
        self.get(Self::ZERO)
    }

    /// Stores the Zero flag and leaves the others.
    pub fn set_z(&mut self, value: bool)
        ensures
            final(self)@ == with_flag(old(self)@, Status::ZERO, value),
            flag(final(self)@, Status::ZERO) == value,
            forall|other: u8|
                other < 8 && other != Status::ZERO ==> flag(final(self)@, other) == flag(
                    old(self)@,
                    other,
                ),
    {
        self.set(Self::ZERO, value)
    }

    /// The Carry flag.
    pub fn get_c(&self) -> (value: bool)
        ensures
            value == flag(self@, Status::CARRY),
    {
        self.get(Self::CARRY)
    }

    /// Stores the Carry flag and leaves the others.
    pub fn set_c(&mut self, value: bool)
        ensures
            final(self)@ == with_flag(old(self)@, Status::CARRY, value),
            flag(final(self)@, Status::CARRY) == value,
            forall|other: u8|
                other < 8 && other != Status::CARRY ==> flag(final(self)@, other) == flag(
                    old(self)@,
                    other,
                ),
    {
        self.set(Self::CARRY, value)
    }

    /// Stores into Zero whether `byte` is zero and into Negative whether bit
    /// 7 of `byte` is set, and leaves the six other flags.
    pub fn update_from_byte(&mut self, byte: u8)
        ensures
            final(self)@ == with_nz(old(self)@, byte),
            flag(final(self)@, Status::ZERO) == (byte == 0),
            flag(final(self)@, Status::NEGATIVE) == (byte >= 128),
            forall|other: u8|
                other < 8 && other != Status::ZERO && other != Status::NEGATIVE ==> flag(
                    final(self)@,
                    other,
                ) == flag(old(self)@, other),
    {
        self.set_z(byte == 0);
        self.set_n((byte & 0x80) != 0);
        proof {
            lemma_with_nz(old(self)@, byte, 0);
        }
    }
}

/// The reasons for which the machine leaves its program.
#[derive(Debug, Clone, Copy, PartialEq, Eq, PartialOrd, Ord, Hash, Structural)]
pub enum InterruptKind {
    NonMaskable,
    Request,
    Reset,
}

impl InterruptKind {
    /// Whether the InterruptDisable flag holds this kind of interrupt back:
    /// it does so for requests alone.
    pub open spec fn spec_is_maskable(self) -> bool {
        self is Request
    }

    /// The address of the two bytes from which the program counter is loaded
    /// when the machine takes this kind of interrupt.
    pub open spec fn vector(self) -> u16 {
        match self {
            InterruptKind::NonMaskable => Memory::NMI_VECTOR,
            InterruptKind::Reset => Memory::RES_VECTOR,
            InterruptKind::Request => Memory::IRQ_VECTOR,
        }
    }

    /// Whether the InterruptDisable flag holds this kind of interrupt back.
    /// Requests are held back; resets and non-maskable interrupts are not.
    pub fn is_maskable(self) -> (maskable: bool)
        ensures
            maskable == self.spec_is_maskable(),
    {
        match self {
            InterruptKind::Request => true,
            InterruptKind::Reset | InterruptKind::NonMaskable => false,
        }
    }
}

/// The mathematical state of a [`Machine`].
pub struct MachineView {
    pub memory: MemoryView,
    pub ra: u8,
    pub rx: u8,
    pub ry: u8,
    pub sp: u8,
    /// The status flags as a byte.
    pub sr: u8,
    pub pc: u16,
    pub fault: Option<MachineError>,
}

impl MachineView {
    /// The state is that of a machine whose memory is well formed.
    pub open spec fn wf(self) -> bool {
        self.memory.wf()
    }

    /// The address at which the next byte is pushed: the stack pointer within
    /// the stack page.
    pub open spec fn sp_address(self) -> u16 {
        (0x100 + self.sp) as u16
    }

    /// The state after pushing `byte`: the byte is stored where the stack
    /// pointer points, and the stack pointer moves down by one, wrapping
    /// within the page.
    pub open spec fn push_byte(self, byte: u8) -> MachineView {
        MachineView {
            memory: MemoryView {
                stack: self.memory.stack.update(self.sp as int, byte),
                ..self.memory
            },
            sp: self.sp.wrapping_sub(1),
            ..self
        }
    }

    /// The state after popping a byte, and the byte: the stack pointer moves
    /// up by one, wrapping within the page, and the byte is the one it then
    /// points to.
    pub open spec fn pop_byte(self) -> (MachineView, u8) {
        let sp = self.sp.wrapping_add(1);
        (MachineView { sp, ..self }, self.memory.stack[sp as int])
    }

    /// The state after pushing `address`, high byte first.
    pub open spec fn push_address(self, address: u16) -> MachineView {
        self.push_byte(spec_high_byte(address)).push_byte(spec_low_byte(address))
    }

    /// The state after popping an address, low byte first, and the address.
    pub open spec fn pop_address(self) -> (MachineView, u16) {
        let (first, low) = self.pop_byte();
        let (second, high) = first.pop_byte();
        (second, spec_from_le_bytes(low, high))
    }

    /// The state after pushing the status: the status byte goes on the stack
    /// as it is, and then the Break flag and the flag without meaning are set
    /// in the register.
    pub open spec fn push_sr(self) -> MachineView {
        let pushed = self.push_byte(self.sr);
        MachineView {
            sr: with_flag(with_flag(pushed.sr, Status::IGNORED, true), Status::BREAK, true),
            ..pushed
        }
    }

    /// The state after popping the status: the flags come from the stack, but
    /// for the Break flag and the flag without meaning, which stay as they
    /// were in the register.
    pub open spec fn pop_sr(self) -> MachineView {
        let (popped, bits) = self.pop_byte();
        MachineView {
            sr: with_flag(
                with_flag(bits, Status::BREAK, flag(self.sr, Status::BREAK)),
                Status::IGNORED,
                flag(self.sr, Status::IGNORED),
            ),
            ..popped
        }
    }

    /// The address held in the two bytes at `vector` and after it, low byte
    /// first.
    pub open spec fn load_vector(self, vector: u16) -> u16 {
        spec_from_le_bytes(
            self.memory.read(vector)->Ok_0,
            self.memory.read(vector.wrapping_add(1))->Ok_0,
        )
    }

    /// Whether the machine takes an interrupt of `kind` in this state: always
    /// if the kind is not maskable, else only while InterruptDisable is clear.
    pub open spec fn takes_interrupt(self, kind: InterruptKind) -> bool {
        !kind.spec_is_maskable() || !flag(self.sr, Status::INTERRUPT)
    }

    /// The state after an interrupt of `kind`. Where the machine takes it,
    /// the program counter plus two and then the status are pushed,
    /// InterruptDisable is set, Break is cleared unless the kind is a
    /// request, and the program counter is loaded from the kind's vector.
    /// Where it does not, nothing changes.
    pub open spec fn interrupt(self, kind: InterruptKind) -> MachineView {
        if self.takes_interrupt(kind) {
            let pushed = self.push_address(self.pc.wrapping_add(2)).push_sr();
            let disabled = with_flag(pushed.sr, Status::INTERRUPT, true);
            let sr = if kind is Request {
                disabled
            } else {
                with_flag(disabled, Status::BREAK, false)
            };
            MachineView { sr, pc: pushed.load_vector(kind.vector()), ..pushed }
        } else {
            self
        }
    }

    /// The byte that the memory holds `offset` bytes past the program
    /// counter, or `None` where no region maps that address.
    pub open spec fn peek(self, offset: int) -> Option<u8> {
        match self.memory.read(((self.pc + offset) % 0x10000) as u16) {
            Ok(byte) => Some(byte),
            Err(_) => None,
        }
    }

    /// The state after fetching and decoding the instruction at the program
    /// counter, and the instruction. The program counter moves past every
    /// byte that was read, also where a later byte cannot be read or the
    /// first byte is no opcode; the error of a byte that cannot be read names
    /// its address.
    pub open spec fn fetch_decode(self) -> (MachineView, Result<Instruction, MachineError>) {
        let (count, outcome) = decode_outcome(self.peek(0), self.peek(1), self.peek(2));
        let end = MachineView { pc: ((self.pc + count) % 0x10000) as u16, ..self };
        (
            end,
            match outcome {
                DecodeOutcome::Instruction(instruction) => Ok(instruction),
                DecodeOutcome::Opcode(error) => Err(MachineError::Opcode(error)),
                DecodeOutcome::Fault => Err(MachineError::Read(ReadError { address: end.pc })),
            },
        )
    }

    /// The state after fetching, decoding and executing one instruction, and
    /// the outcome.
    pub open spec fn try_step(self) -> (MachineView, Result<(), MachineError>) {
        match self.fetch_decode() {
            (fetched, Err(error)) => (fetched, Err(error)),
            (fetched, Ok(instruction)) => instruction.spec_execute(fetched),
        }
    }

    /// The state after one step, and the outcome. A step that succeeds is
    /// [`MachineView::try_step`]. The first failure is recorded as the fault
    /// of the machine and answered with a non-maskable interrupt, and the step
    /// counts as done. A failure while a fault is on record is the outcome of
    /// the step.
    pub open spec fn step(self) -> (MachineView, Result<(), MachineError>) {
        match self.try_step() {
            (next, Ok(())) => (next, Ok(())),
            (next, Err(error)) => if next.fault is Some {
                (next, Err(error))
            } else {
                (
                    (MachineView { fault: Some(error), ..next }).interrupt(
                        InterruptKind::NonMaskable,
                    ),
                    Ok(()),
                )
            },
        }
    }

    /// The state after up to `count` steps, and the outcome: the steps stop
    /// at the first that fails, and its error is the outcome.
    pub open spec fn steps(self, count: nat) -> (MachineView, Result<(), MachineError>)
        decreases count,
    {
        if count == 0 {
            (self, Ok(()))
        } else {
            match self.step() {
                (next, Err(error)) => (next, Err(error)),
                (next, Ok(())) => next.steps((count - 1) as nat),
            }
        }
    }
}

/// In a well-formed state the stack gives back what was put on it: popping
/// after a push returns the byte pushed and the stack pointer of before, and
/// popping an address after pushing one returns that address and the stack
/// pointer of before. Each byte pushed goes to the address `0x100 | sp` and
/// moves the stack pointer down by one; each byte popped moves it up by one.
pub proof fn lemma_stack_discipline(machine: MachineView, byte: u8, address: u16)
    requires
        machine.wf(),
    ensures
        machine.push_byte(byte).wf(),
        machine.push_byte(byte).sp == machine.sp.wrapping_sub(1),
        machine.push_byte(byte).memory.read(machine.sp_address()) == Ok::<u8, ReadError>(byte),
        machine.push_byte(byte).memory.write(machine.sp_address(), byte) is Ok,
        machine.pop_byte().0.sp == machine.sp.wrapping_add(1),
        machine.push_byte(byte).pop_byte() == (
            MachineView { sp: machine.sp, ..machine.push_byte(byte) },
            byte,
        ),
        machine.push_address(address).sp == machine.sp.wrapping_sub(2),
        machine.push_address(address).pop_address() == (
            MachineView { sp: machine.sp, ..machine.push_address(address) },
            address,
        ),
{
    crate::arch::lemma_le_bytes_round_trip(address, 0, 0);
}

/// No step breaks the memory: after any number of steps every region has the
/// size it had, and the ROM its banks and its selection. A fault once
/// recorded stays on record.
pub proof fn lemma_steps_preserve_wf(machine: MachineView, count: nat)
    requires
        machine.wf(),
    ensures
        machine.step().0.wf(),
        machine.steps(count).0.wf(),
        machine.steps(count).0.memory.banks == machine.memory.banks,
        machine.steps(count).0.memory.selected == machine.memory.selected,
        machine.fault is Some ==> machine.steps(count).0.fault == machine.fault,
    decreases count,
{
    let fetched = machine.fetch_decode().0;
    match machine.fetch_decode().1 {
        Ok(instruction) => crate::instruction::lemma_execute_preserves_wf(instruction, fetched),
        Err(_) => {},
    }
    let next = machine.step().0;
    assert(next.wf() && next.memory.banks == machine.memory.banks && next.memory.selected
        == machine.memory.selected && (machine.fault is Some ==> next.fault == machine.fault));
    if count > 0 && machine.step().1 is Ok {
        lemma_steps_preserve_wf(next, (count - 1) as nat);
    }
}

/// A machine absorbs one failure and no more. A step that fails while no
/// fault is on record succeeds as a whole and leaves the error on record; a
/// step that fails while a fault is on record returns its error, takes no
/// interrupt and leaves the record as it is.
pub proof fn lemma_second_failure_is_fatal(machine: MachineView)
    requires
        machine.wf(),
    ensures
        machine.try_step().0.fault == machine.fault,
        machine.try_step().1 is Ok ==> machine.step() == machine.try_step(),
        machine.try_step().1 is Err && machine.fault is None ==> {
            &&& machine.step().1 is Ok
            &&& machine.step().0.fault == Some(machine.try_step().1->Err_0)
        },
        machine.try_step().1 is Err && machine.fault is Some ==> {
            &&& machine.step() == machine.try_step()
            &&& machine.step().0.fault == machine.fault
        },
{
    let fetched = machine.fetch_decode().0;
    match machine.fetch_decode().1 {
        Ok(instruction) => crate::instruction::lemma_execute_preserves_wf(instruction, fetched),
        Err(_) => {},
    }
}

/// The machine: its memory, its registers, and the fault it has recorded, if
/// any.
#[derive(Debug)]
pub struct Machine {
    pub memory: Memory,
    pub ra: u8,
    pub rx: u8,
    pub ry: u8,
    pub sp: u8,
    pub sr: Status,
    pub pc: u16,
    pub fault: Option<MachineError>,
}

impl Clone for Machine {
    /// A machine in the same state.
    fn clone(&self) -> (machine: Self)
        ensures
            machine@ == self@,
    {
        Self {
            memory: self.memory.clone(),
            ra: self.ra,
            rx: self.rx,
            ry: self.ry,
            sp: self.sp,
            sr: self.sr,
            pc: self.pc,
            fault: self.fault,
        }
    }
}

impl Machine {
    /// The state of the machine.
    pub open spec fn view(&self) -> MachineView {
        MachineView {
            memory: self.memory@,
            ra: self.ra,
            rx: self.rx,
            ry: self.ry,
            sp: self.sp,
            sr: self.sr@,
            pc: self.pc,
            fault: self.fault,
        }
    }

    /// A machine over `memory`, with every register and flag zero and no
    /// fault recorded.
    pub fn new(memory: Memory) -> (machine: Self)
        ensures
            machine@ == (MachineView {
                memory: memory@,
                ra: 0,
                rx: 0,
                ry: 0,
                sp: 0,
                sr: 0,
                pc: 0,
                fault: None,
            }),
    {
        Self {
            memory,
            ra: 0,
            rx: 0,
            ry: 0,
            sp: 0,
            sr: Status::zeroed(),
            pc: 0,
            fault: None,
        }
    }

    /// A decoder over the memory of this machine that starts at the program
    /// counter.
    pub fn decoder(&self) -> (decoder: MemoryDecoder<'_>)
        ensures
            *decoder.memory == self.memory,
            decoder.pc == self.pc,
    {
        MemoryDecoder::new(&self.memory, self.pc)
    }

    /// Fetches and decodes the instruction at the program counter. The
    /// program counter moves past the bytes that were read.
    pub fn fetch_decode(&mut self) -> (result: Result<Instruction, MachineError>)
        ensures
            (final(self)@, result) == old(self)@.fetch_decode(),
    {
        let mut decoder = MemoryDecoder::new(&self.memory, self.pc);
        let ghost start = decoder;
        let result = Instruction::decode(&mut decoder);
        proof {
            lemma_decode_outcome(start);
            reveal_with_fuel(advance_by, 4);
        }
        self.pc = decoder.pc();
        result
    }

    /// Fetches, decodes and executes one instruction.
    pub fn try_step(&mut self) -> (result: Result<(), MachineError>)
        ensures
            (final(self)@, result) == old(self)@.try_step(),
    {
        match self.fetch_decode() {
            Err(error) => Err(error),
            Ok(instruction) => instruction.execute(self),
        }
    }

    /// Makes one step. A first failure is recorded as the fault of the
    /// machine and answered with a non-maskable interrupt; a failure while a
    /// fault is on record is returned.
    pub fn step(&mut self) -> (result: Result<(), MachineError>)
        ensures
            (final(self)@, result) == old(self)@.step(),
            result is Err <==> old(self)@.try_step().1 is Err && old(self).fault is Some,
    {
        match self.try_step() {
            Ok(()) => Ok(()),
            Err(error) => {
                if self.fault.is_some() {
                    Err(error)
                } else {
                    self.fault = Some(error);
                    self.interrupt(InterruptKind::NonMaskable)
                }
            },
        }
    }

    /// Makes up to `max_steps` steps and stops at the first that fails.
    pub fn steps(&mut self, max_steps: u64) -> (result: Result<(), MachineError>)
        ensures
            (final(self)@, result) == old(self)@.steps(max_steps as nat),
    {
        let mut done: u64 = 0;
        while done < max_steps
            invariant
                done <= max_steps,
                old(self)@.steps(max_steps as nat) == self@.steps((max_steps - done) as nat),
            decreases max_steps - done,
        {
            match self.step() {
                Err(error) => {
                    return Err(error);
                },
                Ok(()) => {},
            }
            done = done + 1;
        }
        Ok(())
    }

    /// The value of `operand` on this machine.
    pub fn read_operand<O: ReadOperand>(&self, operand: O) -> (result: Result<u8, MachineError>)
        ensures
            result == operand.spec_read(self@),
    {
        operand.read(self)
    }

    /// The effective address of `operand` on this machine.
    pub fn operand_addr<O: OperandAddr>(&self, operand: O) -> (result: Result<u16, MachineError>)
        ensures
            result == operand.spec_address(self@),
    {
        operand.address(self)
    }

    /// The address at which the next byte is pushed.
    pub fn sp_address(&self) -> (address: u16)
        ensures
            address == self@.sp_address(),
            crate::memory::in_stack(address),
    {
        from_le_bytes(self.sp, 1)
    }

    /// Pushes `byte` on the stack. This never fails.
    pub fn push_byte(&mut self, byte: u8) -> (result: Result<(), MachineError>)
        ensures
            result == Ok::<(), MachineError>(()),
            final(self)@.wf(),
            final(self)@ == old(self)@.push_byte(byte),
    {
        let address = self.sp_address();
        match self.memory.write(address, byte) {
            Ok(()) => {
                self.sp = self.sp.wrapping_sub(1);
                Ok(())
            },
            Err(error) => Err(MachineError::Write(error)),
        }
    }

    /// Pops a byte from the stack. This never fails.
    pub fn pop_byte(&mut self) -> (result: Result<u8, MachineError>)
        ensures
            final(self)@.wf(),
            result == Ok::<u8, MachineError>(old(self)@.pop_byte().1),
            final(self)@ == old(self)@.pop_byte().0,
    {
        let sp = self.sp.wrapping_add(1);
        let address = from_le_bytes(sp, 1);
        match self.memory.read(address) {
            Ok(byte) => {
                self.sp = sp;
                Ok(byte)
            },
            Err(error) => Err(MachineError::Read(error)),
        }
    }

    /// Pushes `address` on the stack, high byte first. This never fails.
    pub fn push_address(&mut self, address: u16) -> (result: Result<(), MachineError>)
        ensures
            result == Ok::<(), MachineError>(()),
            final(self)@.wf(),
            final(self)@ == old(self)@.push_address(address),
    {
        match self.push_byte(high_byte(address)) {
            Ok(()) => self.push_byte(low_byte(address)),
            Err(error) => Err(error),
        }
    }

    /// Pops an address from the stack, low byte first. This never fails.
    pub fn pop_address(&mut self) -> (result: Result<u16, MachineError>)
        ensures
            final(self)@.wf(),
            result == Ok::<u16, MachineError>(old(self)@.pop_address().1),
            final(self)@ == old(self)@.pop_address().0,
    {
        match self.pop_byte() {
            Ok(low) => match self.pop_byte() {
                Ok(high) => Ok(from_le_bytes(low, high)),
                Err(error) => Err(error),
            },
            Err(error) => Err(error),
        }
    }

    /// Pushes the status byte, then sets the Break flag and the flag without
    /// meaning in the register. This never fails.
    pub fn push_sr(&mut self) -> (result: Result<(), MachineError>)
        ensures
            result == Ok::<(), MachineError>(()),
            final(self)@.wf(),
            final(self)@ == old(self)@.push_sr(),
    {
        let sr = self.sr.bits();
        match self.push_byte(sr) {
            Ok(()) => {
                self.sr.set_unused(true);
                self.sr.set_b(true);
                Ok(())
            },
            Err(error) => Err(error),
        }
    }

    /// Pops the status byte into the register, but for the Break flag and the
    /// flag without meaning, which keep the values they had in the register.
    /// This never fails.
    pub fn pop_sr(&mut self) -> (result: Result<(), MachineError>)
        ensures
            result == Ok::<(), MachineError>(()),
            final(self)@.wf(),
            final(self)@ == old(self)@.pop_sr(),
    {
        match self.pop_byte() {
            Ok(bits) => {
                let mut sr = Status::from_bits(bits);
                sr.set_b(self.sr.get_b());
                sr.set_unused(self.sr.get_unused());
                self.sr = sr;
                Ok(())
            },
            Err(error) => Err(error),
        }
    }

    /// Delivers an interrupt of `kind`, unless the kind is maskable and the
    /// InterruptDisable flag is set. This never fails.
    pub fn interrupt(&mut self, kind: InterruptKind) -> (result: Result<(), MachineError>)
        ensures
            result == Ok::<(), MachineError>(()),
            final(self)@ == old(self)@.interrupt(kind),
    {
        if !kind.is_maskable() || !self.sr.get_i() {
            let ret_address = self.pc.wrapping_add(2);
            match self.push_address(ret_address) {
                Ok(()) => {},
                Err(error) => {
                    return Err(error);
                },
            }
            match self.push_sr() {
                Ok(()) => {},
                Err(error) => {
                    return Err(error);
                },
            }
            self.sr.set_i(true);
            let address = match kind {
                InterruptKind::Reset => {
                    self.sr.set_b(false);
                    Memory::RES_VECTOR
                },
                InterruptKind::NonMaskable => {
                    self.sr.set_b(false);
                    Memory::NMI_VECTOR
                },
                InterruptKind::Request => Memory::IRQ_VECTOR,
            };
            let low = match self.memory.read(address) {
                Ok(byte) => byte,
                Err(error) => {
                    return Err(MachineError::Read(error));
                },
            };
            let high = match self.memory.read(address.wrapping_add(1)) {
                Ok(byte) => byte,
                Err(error) => {
                    return Err(MachineError::Read(error));
                },
            };
            self.pc = from_le_bytes(low, high);
        }
        Ok(())
    }
}

} // verus!
