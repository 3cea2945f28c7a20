use atats::addrmode::{
    Absolute, Accumulator, AddrMode, Immediate, Implied, Indirect, Operand, Relative, Zeropage,
};
use atats::binary::SliceDecoder;
use atats::error::{
    AddrModeError, MachineError, OperandAddrError, OperandReadError, ReadError, WriteError,
};
use atats::instruction::{adc, sbc, Instruction, Mnemonic, Opcode, Type};
use atats::machine::{Machine, Status};
use atats::memory::{Memory, Ram, Rom, RomBank, Stack};

const C: u8 = 0x01;
const Z: u8 = 0x02;
const I: u8 = 0x04;
const D: u8 = 0x08;
const B: u8 = 0x10;
const U: u8 = 0x20;
const V: u8 = 0x40;
const N: u8 = 0x80;

fn machine_running(program: &[u8]) -> Machine {
    let mut content = [0u8; 0x1000];
    content[..program.len()].copy_from_slice(program);
    // The request vector points to 0xF800.
    content[0xFFE] = 0x00;
    content[0xFFF] = 0xF8;
    let rom = Rom::new(RomBank::new(content), Vec::new());
    let mut machine = Machine::new(Memory::new(Ram::new(), Stack::new(), rom));
    machine.pc = 0xF000;
    machine.sp = 0xFF;
    machine
}

fn implied(mnemonic: Mnemonic) -> Instruction {
    Instruction { mnemonic, operand: Operand::Impl(Implied) }
}

fn immediate(mnemonic: Mnemonic, bits: u8) -> Instruction {
    Instruction { mnemonic, operand: Operand::Imm(Immediate { bits }) }
}

fn absolute(mnemonic: Mnemonic, address: u16) -> Instruction {
    Instruction { mnemonic, operand: Operand::Abs(Absolute { address }) }
}

fn accumulator(mnemonic: Mnemonic) -> Instruction {
    Instruction { mnemonic, operand: Operand::Acc(Accumulator) }
}

fn signed(byte: u8) -> i32 {
    i32::from(byte as i8)
}

#[test]
fn lda_immediate() {
    let bytes = [0xA9u8, 0x05];
    let mut decoder = SliceDecoder::new(&bytes);
    let instruction = Instruction::decode(&mut decoder).unwrap();
    assert_eq!(instruction, immediate(Mnemonic::Lda, 5));
    let mut machine = machine_running(&bytes);
    assert_eq!(instruction.execute(&mut machine), Ok(()));
    assert_eq!(machine.ra, 5);
    assert!(!machine.sr.get_z());
    assert!(!machine.sr.get_n());
    assert_eq!(machine.sr.bits(), 0);

    let mut machine = machine_running(&bytes);
    assert_eq!(machine.step(), Ok(()));
    assert_eq!(machine.ra, 5);
    assert_eq!(machine.pc, 0xF002);
    assert!(!machine.sr.get_z());
    assert!(!machine.sr.get_n());
}

#[test]
fn loads_set_zero_and_negative() {
    let mut machine = machine_running(&[]);
    machine.sr = Status::from_bits(C | V);
    assert_eq!(immediate(Mnemonic::Lda, 0).execute(&mut machine), Ok(()));
    assert_eq!((machine.ra, machine.sr.bits()), (0, C | V | Z));
    assert_eq!(immediate(Mnemonic::Ldx, 0x80).execute(&mut machine), Ok(()));
    assert_eq!((machine.rx, machine.sr.bits()), (0x80, C | V | N));
    assert_eq!(immediate(Mnemonic::Ldy, 0x7F).execute(&mut machine), Ok(()));
    assert_eq!((machine.ry, machine.sr.bits()), (0x7F, C | V));
    assert_eq!((machine.ra, machine.rx), (0, 0x80));
}

#[test]
fn a_load_from_unmapped_memory_changes_nothing() {
    let mut machine = machine_running(&[]);
    machine.ra = 7;
    machine.sr = Status::from_bits(N);
    assert_eq!(
        absolute(Mnemonic::Lda, 0x0000).execute(&mut machine),
        Err(MachineError::Read(ReadError { address: 0 }))
    );
    assert_eq!((machine.ra, machine.sr.bits()), (7, N));
    assert_eq!(
        implied(Mnemonic::Lda).execute(&mut machine),
        Err(MachineError::OperandRead(OperandReadError { operand: Operand::Impl(Implied) }))
    );
    assert_eq!((machine.ra, machine.sr.bits()), (7, N));
}

#[test]
fn logic_on_the_accumulator() {
    let mut machine = machine_running(&[]);
    machine.ra = 0b1100_1010;
    assert_eq!(immediate(Mnemonic::Ora, 0b0011_0000).execute(&mut machine), Ok(()));
    assert_eq!((machine.ra, machine.sr.bits()), (0b1111_1010, N));
    assert_eq!(immediate(Mnemonic::And, 0b0000_1111).execute(&mut machine), Ok(()));
    assert_eq!((machine.ra, machine.sr.bits()), (0b0000_1010, 0));
    assert_eq!(immediate(Mnemonic::Eor, 0b0000_1010).execute(&mut machine), Ok(()));
    assert_eq!((machine.ra, machine.sr.bits()), (0, Z));
    assert_eq!(immediate(Mnemonic::Eor, 0xFF).execute(&mut machine), Ok(()));
    assert_eq!((machine.ra, machine.sr.bits()), (0xFF, N));
    assert_eq!(immediate(Mnemonic::And, 0).execute(&mut machine), Ok(()));
    assert_eq!((machine.ra, machine.sr.bits()), (0, Z));
    assert_eq!(immediate(Mnemonic::Ora, 0).execute(&mut machine), Ok(()));
    assert_eq!((machine.ra, machine.sr.bits()), (0, Z));
}

#[test]
fn adc_without_carry_is_plain_addition() {
    let mut machine = machine_running(&[]);
    machine.ra = 0x7F;
    assert_eq!(immediate(Mnemonic::Adc, 0x01).execute(&mut machine), Ok(()));
    assert_eq!(machine.ra, 0x80);
    assert!(machine.sr.get_v());
    assert!(!machine.sr.get_c());
    assert!(machine.sr.get_n());
    assert!(!machine.sr.get_z());
    assert_eq!(machine.sr.bits(), N | V);
    assert_eq!(adc(0x7F, 0x01, false), (0x80, false, true));
}

#[test]
fn adc_takes_the_carry_in_and_gives_the_carry_out() {
    let mut machine = machine_running(&[]);
    machine.ra = 0xFF;
    assert_eq!(immediate(Mnemonic::Adc, 0x01).execute(&mut machine), Ok(()));
    assert_eq!((machine.ra, machine.sr.bits()), (0x00, Z | C));
    assert_eq!(immediate(Mnemonic::Adc, 0x01).execute(&mut machine), Ok(()));
    assert_eq!((machine.ra, machine.sr.bits()), (0x02, 0));
    machine.ra = 0x80;
    assert_eq!(immediate(Mnemonic::Adc, 0x80).execute(&mut machine), Ok(()));
    assert_eq!((machine.ra, machine.sr.bits()), (0x00, Z | C | V));
    machine.ra = 0xFF;
    assert_eq!(immediate(Mnemonic::Adc, 0xFF).execute(&mut machine), Ok(()));
    assert_eq!((machine.ra, machine.sr.bits()), (0xFF, N | C));
}

#[test]
fn adc_reports_the_overflow_of_either_step() {
    // The operands overflow downwards, the carry overflows upwards again.
    assert_eq!(adc(0x80, 0xFF, true), (0x80, true, true));
    assert_eq!(adc(0x7F, 0x00, true), (0x80, false, true));
    assert_eq!(adc(0x7E, 0x00, true), (0x7F, false, false));
    assert_eq!(adc(0x00, 0x00, false), (0x00, false, false));
    assert_eq!(adc(0xFF, 0x00, true), (0x00, true, false));
}

#[test]
fn adc_on_every_input() {
    for left in 0..=255u8 {
        for right in 0..=255u8 {
            for carry in [false, true] {
                let (result, carry_out, overflow) = adc(left, right, carry);
                let sum = u32::from(left) + u32::from(right) + u32::from(carry);
                assert_eq!(u32::from(result), sum % 256);
                assert_eq!(carry_out, sum > 255);
                let first = signed(left) + signed(right);
                let partial = left.wrapping_add(right);
                let second = signed(partial) + i32::from(carry);
                let fits = |value: i32| (-128..=127).contains(&value);
                assert_eq!(overflow, !fits(first) || !fits(second));
                if !carry {
                    assert_eq!(overflow, !fits(first));
                    if !overflow {
                        assert_eq!(signed(result), first);
                    }
                }
            }
        }
    }
}

#[test]
fn sbc_borrows_when_carry_is_clear() {
    assert_eq!(sbc(5, 3, true), (2, true, false));
    assert_eq!(sbc(5, 3, false), (1, true, false));
    assert_eq!(sbc(3, 5, true), (0xFE, false, false));
    assert_eq!(sbc(0, 0, false), (0xFF, false, false));
    assert_eq!(sbc(0x80, 0x01, true), (0x7F, true, true));
    assert_eq!(sbc(0x7F, 0xFF, true), (0x80, false, true));
    assert_eq!(sbc(0x80, 0x00, false), (0x7F, true, true));
    let mut machine = machine_running(&[]);
    machine.ra = 5;
    machine.sr = Status::from_bits(C);
    assert_eq!(immediate(Mnemonic::Sbc, 5).execute(&mut machine), Ok(()));
    assert_eq!((machine.ra, machine.sr.bits()), (0, Z | C));
    assert_eq!(immediate(Mnemonic::Sbc, 1).execute(&mut machine), Ok(()));
    assert_eq!((machine.ra, machine.sr.bits()), (0xFF, N));
    assert_eq!(immediate(Mnemonic::Sbc, 0).execute(&mut machine), Ok(()));
    assert_eq!((machine.ra, machine.sr.bits()), (0xFE, N | C));
}

#[test]
fn sbc_on_every_input() {
    for left in 0..=255u8 {
        for right in 0..=255u8 {
            for carry in [false, true] {
                let (result, carry_out, overflow) = sbc(left, right, carry);
                let borrow = i32::from(!carry);
                let difference = i32::from(left) - i32::from(right) - borrow;
                assert_eq!(i32::from(result), difference.rem_euclid(256));
                assert_eq!(carry_out, difference >= 0);
                let first = signed(left) - signed(right);
                let partial = left.wrapping_sub(right);
                let second = signed(partial) - borrow;
                let fits = |value: i32| (-128..=127).contains(&value);
                assert_eq!(overflow, !fits(first) || !fits(second));
                if carry {
                    assert_eq!(overflow, !fits(first));
                }
            }
        }
    }
}

#[test]
fn comparisons_set_flags_and_keep_registers() {
    let mut machine = machine_running(&[]);
    machine.ra = 5;
    machine.rx = 6;
    machine.ry = 0x80;
    machine.sr = Status::from_bits(V);
    assert_eq!(immediate(Mnemonic::Cmp, 5).execute(&mut machine), Ok(()));
    assert_eq!(machine.sr.bits(), V | Z | C);
    assert_eq!(immediate(Mnemonic::Cmp, 6).execute(&mut machine), Ok(()));
    assert_eq!(machine.sr.bits(), V | N);
    assert_eq!(immediate(Mnemonic::Cmp, 4).execute(&mut machine), Ok(()));
    assert_eq!(machine.sr.bits(), V | C);
    assert_eq!(immediate(Mnemonic::Cpx, 6).execute(&mut machine), Ok(()));
    assert_eq!(machine.sr.bits(), V | Z | C);
    assert_eq!(immediate(Mnemonic::Cpx, 0xFF).execute(&mut machine), Ok(()));
    assert_eq!(machine.sr.bits(), V);
    assert_eq!(immediate(Mnemonic::Cpy, 0x01).execute(&mut machine), Ok(()));
    assert_eq!(machine.sr.bits(), V | C);
    assert_eq!(immediate(Mnemonic::Cpy, 0x00).execute(&mut machine), Ok(()));
    assert_eq!(machine.sr.bits(), V | N | C);
    assert_eq!((machine.ra, machine.rx, machine.ry), (5, 6, 0x80));
}

#[test]
fn bit_tests_without_storing() {
    let mut machine = machine_running(&[]);
    machine.ra = 0x0F;
    machine.sr = Status::from_bits(C);
    assert_eq!(immediate(Mnemonic::Bit, 0xC0).execute(&mut machine), Ok(()));
    assert_eq!((machine.ra, machine.sr.bits()), (0x0F, C | N | V | Z));
    assert_eq!(immediate(Mnemonic::Bit, 0x01).execute(&mut machine), Ok(()));
    assert_eq!((machine.ra, machine.sr.bits()), (0x0F, C));
    assert_eq!(immediate(Mnemonic::Bit, 0x41).execute(&mut machine), Ok(()));
    assert_eq!((machine.ra, machine.sr.bits()), (0x0F, C | V));
    assert_eq!(immediate(Mnemonic::Bit, 0x80).execute(&mut machine), Ok(()));
    assert_eq!((machine.ra, machine.sr.bits()), (0x0F, C | N | Z));
}

#[test]
fn increment_and_decrement_of_memory() {
    let mut machine = machine_running(&[]);
    machine.memory.write(0x80, 0xFF).unwrap();
    assert_eq!(absolute(Mnemonic::Inc, 0x0080).execute(&mut machine), Ok(()));
    assert_eq!(machine.memory.read(0x80), Ok(0x00));
    assert_eq!(machine.sr.bits(), Z);
    assert_eq!(absolute(Mnemonic::Dec, 0x0080).execute(&mut machine), Ok(()));
    assert_eq!(machine.memory.read(0x80), Ok(0xFF));
    assert_eq!(machine.sr.bits(), N);
    let zero_page =
        Instruction { mnemonic: Mnemonic::Dec, operand: Operand::Zpg(Zeropage { address: 0x80 }) };
    assert_eq!(zero_page.execute(&mut machine), Ok(()));
    assert_eq!(machine.memory.read(0x80), Ok(0xFE));
    assert_eq!(machine.sr.bits(), N);
    assert_eq!(absolute(Mnemonic::Inc, 0x01FF).execute(&mut machine), Ok(()));
    assert_eq!(machine.memory.read(0x1FF), Ok(0x01));
    assert_eq!(machine.sr.bits(), 0);
}

#[test]
fn a_rewrite_that_cannot_be_written_back_keeps_the_flags() {
    let mut machine = machine_running(&[0x7F]);
    assert_eq!(
        absolute(Mnemonic::Inc, 0xF000).execute(&mut machine),
        Err(MachineError::Write(WriteError { address: 0xF000 }))
    );
    assert_eq!(machine.sr.bits(), N);
    assert_eq!(machine.memory.read(0xF000), Ok(0x7F));
    assert_eq!(
        absolute(Mnemonic::Dec, 0x0000).execute(&mut machine),
        Err(MachineError::Read(ReadError { address: 0x0000 }))
    );
    assert_eq!(machine.sr.bits(), N);
    assert_eq!(
        accumulator(Mnemonic::Inc).execute(&mut machine),
        Err(MachineError::OperandAddr(OperandAddrError { operand: Operand::Acc(Accumulator) }))
    );
    assert_eq!(
        immediate(Mnemonic::Asl, 1).execute(&mut machine),
        Err(MachineError::OperandAddr(OperandAddrError {
            operand: Operand::Imm(Immediate { bits: 1 })
        }))
    );
    assert_eq!(machine.sr.bits(), N);
    assert_eq!(machine.ra, 0);
}

#[test]
fn shifts_and_rotations_of_the_accumulator() {
    let mut machine = machine_running(&[]);
    machine.ra = 0x81;
    assert_eq!(accumulator(Mnemonic::Asl).execute(&mut machine), Ok(()));
    assert_eq!((machine.ra, machine.sr.bits()), (0x02, C));
    assert_eq!(accumulator(Mnemonic::Asl).execute(&mut machine), Ok(()));
    assert_eq!((machine.ra, machine.sr.bits()), (0x04, 0));
    machine.ra = 0x80;
    machine.sr = Status::from_bits(C);
    assert_eq!(accumulator(Mnemonic::Rol).execute(&mut machine), Ok(()));
    assert_eq!((machine.ra, machine.sr.bits()), (0x01, C));
    assert_eq!(accumulator(Mnemonic::Rol).execute(&mut machine), Ok(()));
    assert_eq!((machine.ra, machine.sr.bits()), (0x03, 0));
    machine.ra = 0x01;
    assert_eq!(accumulator(Mnemonic::Lsr).execute(&mut machine), Ok(()));
    assert_eq!((machine.ra, machine.sr.bits()), (0x00, Z | C));
    machine.ra = 0x01;
    assert_eq!(accumulator(Mnemonic::Ror).execute(&mut machine), Ok(()));
    assert_eq!((machine.ra, machine.sr.bits()), (0x80, N | C));
    assert_eq!(accumulator(Mnemonic::Ror).execute(&mut machine), Ok(()));
    assert_eq!((machine.ra, machine.sr.bits()), (0xC0, N));
    assert_eq!(accumulator(Mnemonic::Lsr).execute(&mut machine), Ok(()));
    assert_eq!((machine.ra, machine.sr.bits()), (0x60, 0));
    machine.ra = 0x80;
    assert_eq!(accumulator(Mnemonic::Asl).execute(&mut machine), Ok(()));
    assert_eq!((machine.ra, machine.sr.bits()), (0x00, Z | C));
}

#[test]
fn shifts_and_rotations_of_memory() {
    let mut machine = machine_running(&[]);
    machine.ra = 0x55;
    machine.memory.write(0x90, 0xC1).unwrap();
    assert_eq!(absolute(Mnemonic::Asl, 0x0090).execute(&mut machine), Ok(()));
    assert_eq!(machine.memory.read(0x90), Ok(0x82));
    assert_eq!(machine.sr.bits(), N | C);
    assert_eq!(absolute(Mnemonic::Ror, 0x0090).execute(&mut machine), Ok(()));
    assert_eq!(machine.memory.read(0x90), Ok(0xC1));
    assert_eq!(machine.sr.bits(), N);
    assert_eq!(absolute(Mnemonic::Lsr, 0x0090).execute(&mut machine), Ok(()));
    assert_eq!(machine.memory.read(0x90), Ok(0x60));
    assert_eq!(machine.sr.bits(), C);
    assert_eq!(absolute(Mnemonic::Rol, 0x0090).execute(&mut machine), Ok(()));
    assert_eq!(machine.memory.read(0x90), Ok(0xC1));
    assert_eq!(machine.sr.bits(), N);
    assert_eq!(machine.ra, 0x55);
}

#[test]
fn shifts_on_every_byte() {
    for data in 0..=255u8 {
        for carry in [false, true] {
            let cases = [
                (Mnemonic::Asl, data << 1, data & 0x80 != 0),
                (Mnemonic::Rol, (data << 1) | u8::from(carry), data & 0x80 != 0),
                (Mnemonic::Lsr, data >> 1, data & 1 != 0),
                (Mnemonic::Ror, (data >> 1) | (u8::from(carry) << 7), data & 1 != 0),
            ];
            for (mnemonic, result, carry_out) in cases {
                let mut machine = machine_running(&[]);
                machine.ra = data;
                machine.sr.set_c(carry);
                assert_eq!(accumulator(mnemonic).execute(&mut machine), Ok(()));
                assert_eq!(machine.ra, result);
                assert_eq!(machine.sr.get_c(), carry_out);
                assert_eq!(machine.sr.get_z(), result == 0);
                assert_eq!(machine.sr.get_n(), result >= 0x80);
            }
        }
    }
}

#[test]
fn register_increments_wrap() {
    let mut machine = machine_running(&[]);
    machine.rx = 0xFF;
    machine.ry = 0x00;
    assert_eq!(implied(Mnemonic::Inx).execute(&mut machine), Ok(()));
    assert_eq!((machine.rx, machine.sr.bits()), (0x00, Z));
    assert_eq!(implied(Mnemonic::Dex).execute(&mut machine), Ok(()));
    assert_eq!((machine.rx, machine.sr.bits()), (0xFF, N));
    assert_eq!(implied(Mnemonic::Dey).execute(&mut machine), Ok(()));
    assert_eq!((machine.ry, machine.sr.bits()), (0xFF, N));
    assert_eq!(implied(Mnemonic::Iny).execute(&mut machine), Ok(()));
    assert_eq!((machine.ry, machine.sr.bits()), (0x00, Z));
    assert_eq!(implied(Mnemonic::Iny).execute(&mut machine), Ok(()));
    assert_eq!((machine.ry, machine.sr.bits()), (0x01, 0));
}

#[test]
fn instructions_without_operand_refuse_an_operand() {
    let mnemonics = [
        Mnemonic::Inx,
        Mnemonic::Iny,
        Mnemonic::Dex,
        Mnemonic::Dey,
        Mnemonic::Brk,
        Mnemonic::Php,
        Mnemonic::Rti,
        Mnemonic::Rts,
        Mnemonic::Plp,
        Mnemonic::Pha,
        Mnemonic::Pla,
        Mnemonic::Sec,
        Mnemonic::Clc,
        Mnemonic::Sei,
        Mnemonic::Cli,
        Mnemonic::Sed,
        Mnemonic::Cld,
        Mnemonic::Clv,
        Mnemonic::Tya,
        Mnemonic::Tay,
        Mnemonic::Tax,
        Mnemonic::Txa,
        Mnemonic::Txs,
        Mnemonic::Tsx,
        Mnemonic::Nop,
    ];
    for mnemonic in mnemonics {
        let mut machine = machine_running(&[]);
        machine.ra = 1;
        machine.rx = 2;
        machine.ry = 3;
        assert_eq!(
            immediate(mnemonic, 9).execute(&mut machine),
            Err(MachineError::AddrMode(AddrModeError {
                mode: AddrMode::Imm,
                instr_type: Type::Imp
            }))
        );
        assert_eq!((machine.ra, machine.rx, machine.ry), (1, 2, 3));
        assert_eq!((machine.sp, machine.pc, machine.sr.bits()), (0xFF, 0xF000, 0));
    }
}

#[test]
fn flags_are_set_and_cleared() {
    let mut machine = machine_running(&[]);
    assert_eq!(implied(Mnemonic::Sec).execute(&mut machine), Ok(()));
    assert_eq!(machine.sr.bits(), C);
    assert_eq!(implied(Mnemonic::Sei).execute(&mut machine), Ok(()));
    assert_eq!(machine.sr.bits(), C | I);
    assert_eq!(implied(Mnemonic::Sed).execute(&mut machine), Ok(()));
    assert_eq!(machine.sr.bits(), C | I | D);
    assert_eq!(implied(Mnemonic::Clc).execute(&mut machine), Ok(()));
    assert_eq!(machine.sr.bits(), I | D);
    assert_eq!(implied(Mnemonic::Cli).execute(&mut machine), Ok(()));
    assert_eq!(machine.sr.bits(), D);
    assert_eq!(implied(Mnemonic::Cld).execute(&mut machine), Ok(()));
    assert_eq!(machine.sr.bits(), 0);
    machine.sr = Status::from_bits(0xFF);
    assert_eq!(implied(Mnemonic::Clv).execute(&mut machine), Ok(()));
    assert_eq!(machine.sr.bits(), 0xFF & !V);
    assert_eq!(implied(Mnemonic::Nop).execute(&mut machine), Ok(()));
    assert_eq!(machine.sr.bits(), 0xFF & !V);
    assert_eq!((machine.pc, machine.sp), (0xF000, 0xFF));
}

#[test]
fn transfers_copy_and_set_flags() {
    let mut machine = machine_running(&[]);
    machine.ra = 0x80;
    assert_eq!(implied(Mnemonic::Tax).execute(&mut machine), Ok(()));
    assert_eq!((machine.rx, machine.sr.bits()), (0x80, N));
    machine.ra = 0;
    assert_eq!(implied(Mnemonic::Tay).execute(&mut machine), Ok(()));
    assert_eq!((machine.ry, machine.sr.bits()), (0, Z));
    assert_eq!(implied(Mnemonic::Txa).execute(&mut machine), Ok(()));
    assert_eq!((machine.ra, machine.sr.bits()), (0x80, N));
    machine.ry = 1;
    assert_eq!(implied(Mnemonic::Tya).execute(&mut machine), Ok(()));
    assert_eq!((machine.ra, machine.sr.bits()), (1, 0));
    assert_eq!(implied(Mnemonic::Tsx).execute(&mut machine), Ok(()));
    assert_eq!((machine.rx, machine.sr.bits()), (0xFF, N));
}

#[test]
fn txs_sets_the_flags_from_the_stack_pointer() {
    let mut machine = machine_running(&[]);
    machine.rx = 0x00;
    machine.sr = Status::from_bits(N | C);
    assert_eq!(implied(Mnemonic::Txs).execute(&mut machine), Ok(()));
    assert_eq!(machine.sp, 0x00);
    assert_eq!(machine.sr.bits(), Z | C);
    machine.rx = 0x90;
    assert_eq!(implied(Mnemonic::Txs).execute(&mut machine), Ok(()));
    assert_eq!(machine.sp, 0x90);
    assert_eq!(machine.sr.bits(), N | C);
}

#[test]
fn stores_write_registers_and_keep_flags() {
    let mut machine = machine_running(&[]);
    machine.ra = 0;
    machine.rx = 0x80;
    machine.ry = 3;
    machine.sr = Status::from_bits(C);
    assert_eq!(absolute(Mnemonic::Sta, 0x0080).execute(&mut machine), Ok(()));
    assert_eq!(absolute(Mnemonic::Stx, 0x0081).execute(&mut machine), Ok(()));
    assert_eq!(absolute(Mnemonic::Sty, 0x0100).execute(&mut machine), Ok(()));
    assert_eq!(machine.memory.read(0x80), Ok(0));
    assert_eq!(machine.memory.read(0x81), Ok(0x80));
    assert_eq!(machine.memory.read(0x100), Ok(3));
    assert_eq!(machine.sr.bits(), C);
}

#[test]
fn stores_that_fail_change_nothing() {
    let mut machine = machine_running(&[]);
    machine.ra = 9;
    assert_eq!(
        absolute(Mnemonic::Sta, 0xF000).execute(&mut machine),
        Err(MachineError::Write(WriteError { address: 0xF000 }))
    );
    assert_eq!(
        absolute(Mnemonic::Stx, 0x0000).execute(&mut machine),
        Err(MachineError::Write(WriteError { address: 0x0000 }))
    );
    assert_eq!(
        immediate(Mnemonic::Sty, 1).execute(&mut machine),
        Err(MachineError::OperandAddr(OperandAddrError {
            operand: Operand::Imm(Immediate { bits: 1 })
        }))
    );
    assert_eq!(machine.memory.read(0xF000), Ok(0));
}

#[test]
fn jumps_load_the_program_counter() {
    let mut machine = machine_running(&[0x34, 0x12]);
    assert_eq!(absolute(Mnemonic::Jmp, 0xABCD).execute(&mut machine), Ok(()));
    assert_eq!(machine.pc, 0xABCD);
    let indirect =
        Instruction { mnemonic: Mnemonic::Jmp, operand: Operand::Ind(Indirect { address: 0xF000 }) };
    assert_eq!(indirect.execute(&mut machine), Ok(()));
    assert_eq!(machine.pc, 0x1234);
    assert_eq!(
        implied(Mnemonic::Jmp).execute(&mut machine),
        Err(MachineError::OperandAddr(OperandAddrError { operand: Operand::Impl(Implied) }))
    );
    assert_eq!(machine.pc, 0x1234);
    assert_eq!((machine.sp, machine.sr.bits()), (0xFF, 0));
}

#[test]
fn branches_follow_their_flag() {
    let cases = [
        (Mnemonic::Bpl, N, false),
        (Mnemonic::Bmi, N, true),
        (Mnemonic::Bvc, V, false),
        (Mnemonic::Bvs, V, true),
        (Mnemonic::Bcc, C, false),
        (Mnemonic::Bcs, C, true),
        (Mnemonic::Bne, Z, false),
        (Mnemonic::Beq, Z, true),
    ];
    for (mnemonic, bit, taken_when_set) in cases {
        for set in [false, true] {
            let mut machine = machine_running(&[]);
            machine.pc = 0xF002;
            machine.sr = Status::from_bits(if set { bit } else { !bit });
            let branch =
                Instruction { mnemonic, operand: Operand::Rel(Relative { address: -4 }) };
            assert_eq!(branch.execute(&mut machine), Ok(()));
            let taken = set == taken_when_set;
            assert_eq!(machine.pc, if taken { 0xEFFE } else { 0xF002 });
            assert_eq!(machine.sr.bits(), if set { bit } else { !bit });
        }
    }
}

#[test]
fn a_branch_resolves_its_operand_only_when_taken() {
    let mut machine = machine_running(&[]);
    machine.sr = Status::from_bits(Z);
    assert_eq!(implied(Mnemonic::Bne).execute(&mut machine), Ok(()));
    assert_eq!(machine.pc, 0xF000);
    assert_eq!(
        implied(Mnemonic::Beq).execute(&mut machine),
        Err(MachineError::OperandAddr(OperandAddrError { operand: Operand::Impl(Implied) }))
    );
    assert_eq!(machine.pc, 0xF000);
}

#[test]
fn jsr_then_rts_returns_past_the_call() {
    // F000: JSR $F010, F003: INX, F010: INY, F011: RTS
    let mut program = [0xEAu8; 0x20];
    program[..4].copy_from_slice(&[0x20, 0x10, 0xF0, 0xE8]);
    program[0x10] = 0xC8;
    program[0x11] = 0x60;
    let mut machine = machine_running(&program);
    assert_eq!(machine.step(), Ok(()));
    assert_eq!(machine.pc, 0xF010);
    assert_eq!(machine.sp, 0xFD);
    // The address of the last byte of the call, high byte pushed first.
    assert_eq!(machine.memory.read(0x1FF), Ok(0xF0));
    assert_eq!(machine.memory.read(0x1FE), Ok(0x02));
    assert_eq!(machine.step(), Ok(()));
    assert_eq!(machine.ry, 1);
    assert_eq!(machine.step(), Ok(()));
    assert_eq!(machine.pc, 0xF003);
    assert_eq!(machine.sp, 0xFF);
    assert_eq!(machine.step(), Ok(()));
    assert_eq!(machine.rx, 1);
    assert_eq!(machine.fault, None);
}

#[test]
fn jsr_to_1234_and_back() {
    // The subroutine lies outside every region, so the return is executed by hand.
    let mut machine = machine_running(&[0x20, 0x34, 0x12]);
    assert_eq!(machine.try_step(), Ok(()));
    assert_eq!(machine.pc, 0x1234);
    assert_eq!(implied(Mnemonic::Rts).execute(&mut machine), Ok(()));
    assert_eq!(machine.pc, 0xF003);
    assert_eq!(machine.sp, 0xFF);
}

#[test]
fn a_call_without_address_has_pushed_already() {
    let mut machine = machine_running(&[]);
    machine.pc = 0xF003;
    assert_eq!(
        implied(Mnemonic::Jsr).execute(&mut machine),
        Err(MachineError::OperandAddr(OperandAddrError { operand: Operand::Impl(Implied) }))
    );
    assert_eq!(machine.sp, 0xFD);
    assert_eq!(machine.pc, 0xF003);
}

#[test]
fn brk_pushes_and_loads_the_request_vector() {
    let mut machine = machine_running(&[0x00]);
    machine.sr = Status::from_bits(C);
    assert_eq!(machine.step(), Ok(()));
    assert_eq!(machine.pc, 0xF800);
    assert_eq!(machine.sp, 0xFC);
    // The program counter after the fetch, plus two.
    assert_eq!(machine.memory.read(0x1FF), Ok(0xF0));
    assert_eq!(machine.memory.read(0x1FE), Ok(0x03));
    // The status goes on the stack with Break set.
    assert_eq!(machine.memory.read(0x1FD), Ok(C | B));
    assert_eq!(machine.sr.bits(), C | B);
    assert_eq!(machine.fault, None);
}

#[test]
fn rti_pops_the_status_and_the_program_counter() {
    let mut machine = machine_running(&[]);
    machine.push_address(0xF123).unwrap();
    machine.push_byte(N | B | C).unwrap();
    assert_eq!(implied(Mnemonic::Rti).execute(&mut machine), Ok(()));
    assert_eq!(machine.pc, 0xF123);
    assert_eq!(machine.sr.bits(), N | C);
    assert_eq!(machine.sp, 0xFF);
}

#[test]
fn an_interrupt_handler_returns_with_rti() {
    // F000: BRK; F800: RTI
    let mut program = [0xEAu8; 0x900];
    program[0] = 0x00;
    program[0x800] = 0x40;
    let mut machine = machine_running(&program);
    assert_eq!(machine.steps(2), Ok(()));
    assert_eq!(machine.pc, 0xF003);
    assert_eq!(machine.sp, 0xFF);
    assert_eq!(machine.sr.bits(), 0);
}

#[test]
fn the_accumulator_goes_over_the_stack() {
    let mut machine = machine_running(&[]);
    machine.ra = 0x80;
    assert_eq!(implied(Mnemonic::Pha).execute(&mut machine), Ok(()));
    assert_eq!(machine.sp, 0xFE);
    assert_eq!(machine.memory.read(0x1FF), Ok(0x80));
    assert_eq!(machine.sr.bits(), 0);
    machine.ra = 0;
    assert_eq!(implied(Mnemonic::Pla).execute(&mut machine), Ok(()));
    assert_eq!(machine.ra, 0x80);
    assert_eq!(machine.sp, 0xFF);
    assert_eq!(machine.sr.bits(), 0);
}

#[test]
fn the_status_goes_over_the_stack() {
    let mut machine = machine_running(&[]);
    machine.sr = Status::from_bits(N | C);
    assert_eq!(implied(Mnemonic::Php).execute(&mut machine), Ok(()));
    assert_eq!(machine.memory.read(0x1FF), Ok(N | C));
    assert_eq!(machine.sr.bits(), N | C);
    assert_eq!(machine.sp, 0xFE);
    machine.sr = Status::from_bits(B | Z);
    assert_eq!(implied(Mnemonic::Plp).execute(&mut machine), Ok(()));
    // Break stays as it was in the register, the other flags come from the stack.
    assert_eq!(machine.sr.bits(), N | C | B);
    assert_eq!(machine.sp, 0xFF);
    machine.push_byte(0xFF).unwrap();
    machine.sr = Status::from_bits(0);
    assert_eq!(implied(Mnemonic::Plp).execute(&mut machine), Ok(()));
    assert_eq!(machine.sr.bits(), 0xFF & !(B | U));
}

#[test]
fn the_opcode_of_an_instruction() {
    assert_eq!(
        immediate(Mnemonic::Lda, 5).opcode(),
        Opcode { mnemonic: Mnemonic::Lda, addrmode: AddrMode::Imm }
    );
    assert_eq!(
        implied(Mnemonic::Nop).opcode(),
        Opcode { mnemonic: Mnemonic::Nop, addrmode: AddrMode::Impl }
    );
}

#[test]
fn a_small_program_runs() {
    // LDX #3; loop: DEX; BNE loop; STX $80; LDA #$7F; ADC #1; STA $81
    let program =
        [0xA2, 0x03, 0xCA, 0xD0, 0xFD, 0x86, 0x80, 0xA9, 0x7F, 0x69, 0x01, 0x85, 0x81];
    let mut machine = machine_running(&program);
    machine.memory.write(0x80, 0xEE).unwrap();
    assert_eq!(machine.steps(1 + 6 + 4), Ok(()));
    assert_eq!(machine.pc, 0xF00D);
    assert_eq!(machine.rx, 0);
    assert_eq!(machine.ra, 0x80);
    assert_eq!(machine.memory.read(0x80), Ok(0));
    assert_eq!(machine.memory.read(0x81), Ok(0x80));
    assert_eq!(machine.sr.bits(), N | V);
    assert_eq!(machine.fault, None);
}
