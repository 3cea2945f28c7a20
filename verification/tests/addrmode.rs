use atats::addrmode::{
    Absolute, AbsoluteX, AbsoluteY, Accumulator, AddrMode, Immediate, Implied, Indirect,
    IndirectY, Operand, OperandAddr, OperandSize, ReadOperand, Relative, XIndirect, Zeropage,
    ZeropageX, ZeropageY,
};
use atats::error::{
    AddrModeError, MachineError, OperandAddrError, OperandReadError, ReadError,
};
use atats::instruction::Type;
use atats::machine::Machine;
use atats::memory::{Memory, Ram, Rom, RomBank, Stack};

fn machine_with_rom(program: &[u8]) -> Machine {
    let mut content = [0u8; 0x1000];
    content[..program.len()].copy_from_slice(program);
    let rom = Rom::new(RomBank::new(content), Vec::new());
    Machine::new(Memory::new(Ram::new(), Stack::new(), rom))
}

#[test]
fn sizes_of_the_addressing_modes() {
    assert_eq!(AddrMode::Acc.size(), 0);
    assert_eq!(AddrMode::Impl.size(), 0);
    assert_eq!(AddrMode::Imm.size(), 1);
    assert_eq!(AddrMode::XInd.size(), 1);
    assert_eq!(AddrMode::IndY.size(), 1);
    assert_eq!(AddrMode::Rel.size(), 1);
    assert_eq!(AddrMode::Zpg.size(), 1);
    assert_eq!(AddrMode::ZpgX.size(), 1);
    assert_eq!(AddrMode::ZpgY.size(), 1);
    assert_eq!(AddrMode::Abs.size(), 2);
    assert_eq!(AddrMode::AbsX.size(), 2);
    assert_eq!(AddrMode::AbsY.size(), 2);
    assert_eq!(AddrMode::Ind.size(), 2);
}

#[test]
fn sizes_of_the_operands() {
    assert_eq!(Accumulator.size(), 0);
    assert_eq!(Implied.size(), 0);
    assert_eq!(Immediate { bits: 0xFF }.size(), 1);
    assert_eq!(XIndirect { address: 0xFF }.size(), 1);
    assert_eq!(IndirectY { address: 0xFF }.size(), 1);
    assert_eq!(Relative { address: -1 }.size(), 1);
    assert_eq!(Zeropage { address: 0xFF }.size(), 1);
    assert_eq!(ZeropageX { address: 0xFF }.size(), 1);
    assert_eq!(ZeropageY { address: 0xFF }.size(), 1);
    assert_eq!(Absolute { address: 0xFFFF }.size(), 2);
    assert_eq!(AbsoluteX { address: 0xFFFF }.size(), 2);
    assert_eq!(AbsoluteY { address: 0xFFFF }.size(), 2);
    assert_eq!(Indirect { address: 0xFFFF }.size(), 2);
    assert_eq!(Operand::Abs(Absolute { address: 1 }).size(), 2);
    assert_eq!(Operand::Imm(Immediate { bits: 1 }).size(), 1);
    assert_eq!(Operand::Impl(Implied).size(), 0);
    assert_eq!(Operand::Acc(Accumulator).size(), 0);
}

#[test]
fn kinds_of_the_operands() {
    assert_eq!(Operand::Acc(Accumulator).addrmode(), AddrMode::Acc);
    assert_eq!(Operand::Abs(Absolute { address: 0 }).addrmode(), AddrMode::Abs);
    assert_eq!(Operand::AbsX(AbsoluteX { address: 0 }).addrmode(), AddrMode::AbsX);
    assert_eq!(Operand::AbsY(AbsoluteY { address: 0 }).addrmode(), AddrMode::AbsY);
    assert_eq!(Operand::Imm(Immediate { bits: 0 }).addrmode(), AddrMode::Imm);
    assert_eq!(Operand::Impl(Implied).addrmode(), AddrMode::Impl);
    assert_eq!(Operand::Ind(Indirect { address: 0 }).addrmode(), AddrMode::Ind);
    assert_eq!(Operand::XInd(XIndirect { address: 0 }).addrmode(), AddrMode::XInd);
    assert_eq!(Operand::IndY(IndirectY { address: 0 }).addrmode(), AddrMode::IndY);
    assert_eq!(Operand::Rel(Relative { address: 0 }).addrmode(), AddrMode::Rel);
    assert_eq!(Operand::Zpg(Zeropage { address: 0 }).addrmode(), AddrMode::Zpg);
    assert_eq!(Operand::ZpgX(ZeropageX { address: 0 }).addrmode(), AddrMode::ZpgX);
    assert_eq!(Operand::ZpgY(ZeropageY { address: 0 }).addrmode(), AddrMode::ZpgY);
}

#[test]
fn only_the_implied_operand_is_implied() {
    assert_eq!(Operand::Impl(Implied).require_implied(), Ok(Implied));
    assert_eq!(
        Operand::Acc(Accumulator).require_implied(),
        Err(MachineError::AddrMode(AddrModeError { mode: AddrMode::Acc, instr_type: Type::Imp }))
    );
    assert_eq!(
        Operand::Imm(Immediate { bits: 3 }).require_implied(),
        Err(MachineError::AddrMode(AddrModeError { mode: AddrMode::Imm, instr_type: Type::Imp }))
    );
    assert_eq!(
        Operand::Abs(Absolute { address: 3 }).require_implied(),
        Err(MachineError::AddrMode(AddrModeError { mode: AddrMode::Abs, instr_type: Type::Imp }))
    );
}

#[test]
fn absolute_addresses() {
    let mut machine = machine_with_rom(&[]);
    machine.rx = 0x10;
    machine.ry = 0x20;
    assert_eq!(Absolute { address: 0x1234 }.address(&machine), Ok(0x1234));
    assert_eq!(AbsoluteX { address: 0x1234 }.address(&machine), Ok(0x1244));
    assert_eq!(AbsoluteY { address: 0x1234 }.address(&machine), Ok(0x1254));
    // 16-bit wraparound.
    assert_eq!(AbsoluteX { address: 0xFFF8 }.address(&machine), Ok(0x0008));
    assert_eq!(AbsoluteY { address: 0xFFFF }.address(&machine), Ok(0x001F));
    machine.rx = 0xFF;
    assert_eq!(AbsoluteX { address: 0x00FF }.address(&machine), Ok(0x01FE));
}

#[test]
fn zero_page_addresses_wrap_within_the_page() {
    let mut machine = machine_with_rom(&[]);
    machine.rx = 0x02;
    machine.ry = 0x03;
    assert_eq!(Zeropage { address: 0xFF }.address(&machine), Ok(0x00FF));
    assert_eq!(ZeropageX { address: 0xFF }.address(&machine), Ok(0x0001));
    assert_eq!(ZeropageY { address: 0xFF }.address(&machine), Ok(0x0002));
    assert_eq!(ZeropageX { address: 0x10 }.address(&machine), Ok(0x0012));
    assert_eq!(ZeropageY { address: 0x10 }.address(&machine), Ok(0x0013));
    assert_eq!(
        Operand::ZpgX(ZeropageX { address: 0xFF }).address(&machine),
        Ok(0x0001)
    );
    for literal in 0..=255u8 {
        for index in [0u8, 1, 0x7F, 0x80, 0xFF] {
            machine.rx = index;
            machine.ry = index;
            let expected = (u16::from(literal) + u16::from(index)) % 256;
            assert_eq!(ZeropageX { address: literal }.address(&machine), Ok(expected));
            assert_eq!(ZeropageY { address: literal }.address(&machine), Ok(expected));
        }
    }
}

#[test]
fn relative_addresses_count_from_the_program_counter() {
    let mut machine = machine_with_rom(&[]);
    machine.pc = 0xF002;
    assert_eq!(Relative { address: 0 }.address(&machine), Ok(0xF002));
    assert_eq!(Relative { address: 5 }.address(&machine), Ok(0xF007));
    assert_eq!(Relative { address: -2 }.address(&machine), Ok(0xF000));
    assert_eq!(Relative { address: 127 }.address(&machine), Ok(0xF081));
    assert_eq!(Relative { address: -128 }.address(&machine), Ok(0xEF82));
    machine.pc = 0x0001;
    assert_eq!(Relative { address: -2 }.address(&machine), Ok(0xFFFF));
    machine.pc = 0xFFFF;
    assert_eq!(Relative { address: 1 }.address(&machine), Ok(0x0000));
}

#[test]
fn indirect_addresses_are_read_from_memory() {
    let mut machine = machine_with_rom(&[0x34, 0x12]);
    assert_eq!(Indirect { address: 0xF000 }.address(&machine), Ok(0x1234));
    machine.memory.write(0x80, 0xCD).unwrap();
    machine.memory.write(0x81, 0xAB).unwrap();
    assert_eq!(Indirect { address: 0x0080 }.address(&machine), Ok(0xABCD));
    // The pointer straddles the end of the address space.
    let mut content = [0u8; 0x1000];
    content[0xFFF] = 0x78;
    let rom = Rom::new(RomBank::new(content), Vec::new());
    let wrapping = Machine::new(Memory::new(Ram::new(), Stack::new(), rom));
    assert_eq!(
        Indirect { address: 0xFFFF }.address(&wrapping),
        Err(MachineError::Read(ReadError { address: 0x0000 }))
    );
    assert_eq!(
        Indirect { address: 0x0000 }.address(&machine),
        Err(MachineError::Read(ReadError { address: 0x0000 }))
    );
    assert_eq!(
        Indirect { address: 0x01FF }.address(&machine),
        Err(MachineError::Read(ReadError { address: 0x0200 }))
    );
}

#[test]
fn x_indirect_adds_x_to_the_pointer_within_the_page() {
    let mut machine = machine_with_rom(&[]);
    machine.memory.write(0x90, 0x34).unwrap();
    machine.memory.write(0x91, 0x12).unwrap();
    machine.rx = 0x10;
    assert_eq!(XIndirect { address: 0x80 }.address(&machine), Ok(0x1234));
    // The pointer wraps: 0xF0 + 0xA0 = 0x190 -> 0x90.
    machine.rx = 0xA0;
    assert_eq!(XIndirect { address: 0xF0 }.address(&machine), Ok(0x1234));
    // The second pointer byte wraps to the start of the page, which is unmapped.
    machine.memory.write(0xFF, 0x77).unwrap();
    machine.rx = 0x7F;
    assert_eq!(
        XIndirect { address: 0x80 }.address(&machine),
        Err(MachineError::Read(ReadError { address: 0x0000 }))
    );
    machine.rx = 0;
    assert_eq!(
        XIndirect { address: 0x10 }.address(&machine),
        Err(MachineError::Read(ReadError { address: 0x0010 }))
    );
}

#[test]
fn indirect_y_adds_y_to_the_address_found() {
    let mut machine = machine_with_rom(&[]);
    machine.memory.write(0x90, 0xF0).unwrap();
    machine.memory.write(0x91, 0x12).unwrap();
    machine.ry = 0x20;
    // The sum carries into the high byte: 0x12F0 + 0x20 = 0x1310.
    assert_eq!(IndirectY { address: 0x90 }.address(&machine), Ok(0x1310));
    machine.memory.write(0x90, 0xFF).unwrap();
    machine.memory.write(0x91, 0xFF).unwrap();
    machine.ry = 0x02;
    assert_eq!(IndirectY { address: 0x90 }.address(&machine), Ok(0x0001));
    // The second pointer byte is looked up within the page.
    assert_eq!(
        IndirectY { address: 0xFF }.address(&machine),
        Err(MachineError::Read(ReadError { address: 0x0000 }))
    );
    assert_eq!(
        IndirectY { address: 0x7F }.address(&machine),
        Err(MachineError::Read(ReadError { address: 0x007F }))
    );
}

#[test]
fn operands_without_address() {
    let machine = machine_with_rom(&[]);
    for operand in
        [Operand::Acc(Accumulator), Operand::Imm(Immediate { bits: 1 }), Operand::Impl(Implied)]
    {
        assert_eq!(
            operand.address(&machine),
            Err(MachineError::OperandAddr(OperandAddrError { operand }))
        );
    }
}

#[test]
fn values_of_operands() {
    let mut machine = machine_with_rom(&[0x42, 0x43]);
    machine.ra = 0x99;
    machine.rx = 1;
    machine.ry = 1;
    machine.memory.write(0x80, 0x11).unwrap();
    machine.memory.write(0x81, 0x22).unwrap();
    machine.memory.write(0x90, 0x00).unwrap();
    machine.memory.write(0x91, 0xF0).unwrap();
    assert_eq!(Accumulator.read(&machine), Ok(0x99));
    assert_eq!(Immediate { bits: 0x55 }.read(&machine), Ok(0x55));
    assert_eq!(Absolute { address: 0xF000 }.read(&machine), Ok(0x42));
    assert_eq!(AbsoluteX { address: 0xF000 }.read(&machine), Ok(0x43));
    assert_eq!(AbsoluteY { address: 0xEFFF }.read(&machine), Ok(0x42));
    assert_eq!(Zeropage { address: 0x80 }.read(&machine), Ok(0x11));
    assert_eq!(ZeropageX { address: 0x80 }.read(&machine), Ok(0x22));
    assert_eq!(ZeropageY { address: 0x7F }.read(&machine), Ok(0x11));
    assert_eq!(Indirect { address: 0x0090 }.read(&machine), Ok(0x42));
    assert_eq!(XIndirect { address: 0x8F }.read(&machine), Ok(0x42));
    assert_eq!(IndirectY { address: 0x90 }.read(&machine), Ok(0x43));
    machine.pc = 0xF000;
    assert_eq!(Relative { address: 1 }.read(&machine), Ok(0x43));
    assert_eq!(Operand::Acc(Accumulator).read(&machine), Ok(0x99));
    assert_eq!(Operand::Imm(Immediate { bits: 0x55 }).read(&machine), Ok(0x55));
    assert_eq!(Operand::Abs(Absolute { address: 0xF001 }).read(&machine), Ok(0x43));
    assert_eq!(Operand::IndY(IndirectY { address: 0x90 }).read(&machine), Ok(0x43));
}

#[test]
fn operands_without_value() {
    let machine = machine_with_rom(&[]);
    assert_eq!(
        Operand::Impl(Implied).read(&machine),
        Err(MachineError::OperandRead(OperandReadError { operand: Operand::Impl(Implied) }))
    );
    assert_eq!(
        Absolute { address: 0x0000 }.read(&machine),
        Err(MachineError::Read(ReadError { address: 0x0000 }))
    );
    assert_eq!(
        Zeropage { address: 0x7F }.read(&machine),
        Err(MachineError::Read(ReadError { address: 0x007F }))
    );
    assert_eq!(
        Operand::Abs(Absolute { address: 0x0200 }).read(&machine),
        Err(MachineError::Read(ReadError { address: 0x0200 }))
    );
    assert_eq!(
        Indirect { address: 0x0000 }.read(&machine),
        Err(MachineError::Read(ReadError { address: 0x0000 }))
    );
}

#[test]
fn operands_from_their_bytes() {
    assert_eq!(Operand::from_bytes(AddrMode::Acc, 1, 2), Operand::Acc(Accumulator));
    assert_eq!(Operand::from_bytes(AddrMode::Impl, 1, 2), Operand::Impl(Implied));
    assert_eq!(Operand::from_bytes(AddrMode::Imm, 1, 2), Operand::Imm(Immediate { bits: 1 }));
    assert_eq!(
        Operand::from_bytes(AddrMode::Abs, 0x34, 0x12),
        Operand::Abs(Absolute { address: 0x1234 })
    );
    assert_eq!(
        Operand::from_bytes(AddrMode::AbsX, 0xFF, 0x00),
        Operand::AbsX(AbsoluteX { address: 0x00FF })
    );
    assert_eq!(
        Operand::from_bytes(AddrMode::AbsY, 0x00, 0xFF),
        Operand::AbsY(AbsoluteY { address: 0xFF00 })
    );
    assert_eq!(
        Operand::from_bytes(AddrMode::Ind, 0xFF, 0xFF),
        Operand::Ind(Indirect { address: 0xFFFF })
    );
    assert_eq!(
        Operand::from_bytes(AddrMode::Rel, 0xFE, 9),
        Operand::Rel(Relative { address: -2 })
    );
    assert_eq!(
        Operand::from_bytes(AddrMode::Rel, 0x80, 9),
        Operand::Rel(Relative { address: -128 })
    );
    assert_eq!(
        Operand::from_bytes(AddrMode::Rel, 0x7F, 9),
        Operand::Rel(Relative { address: 127 })
    );
    assert_eq!(
        Operand::from_bytes(AddrMode::Zpg, 0x80, 9),
        Operand::Zpg(Zeropage { address: 0x80 })
    );
    assert_eq!(
        Operand::from_bytes(AddrMode::ZpgX, 0x81, 9),
        Operand::ZpgX(ZeropageX { address: 0x81 })
    );
    assert_eq!(
        Operand::from_bytes(AddrMode::ZpgY, 0x82, 9),
        Operand::ZpgY(ZeropageY { address: 0x82 })
    );
    assert_eq!(
        Operand::from_bytes(AddrMode::XInd, 0x83, 9),
        Operand::XInd(XIndirect { address: 0x83 })
    );
    assert_eq!(
        Operand::from_bytes(AddrMode::IndY, 0x84, 9),
        Operand::IndY(IndirectY { address: 0x84 })
    );
}
