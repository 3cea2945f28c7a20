use atats::addrmode::{
    Absolute, Accumulator, AddrMode, Immediate, Implied, Operand, OperandSize, Relative, Zeropage,
};
use atats::arch::{
    from_le_bytes, high_byte, low_byte, to_signed, to_unsigned, Address, PageAddr, RelativeAddr,
    Word,
};
use atats::binary::{DecodeError, Decoder, Encoder, MemoryDecoder, SliceDecoder, VecEncoder};
use atats::error::{AddrModeError, MachineError, OpcodeError, ReadError};
use atats::instruction::{Instruction, Mnemonic, Opcode, Type};
use atats::memory::{Memory, Ram, Rom, RomBank, Stack};

fn memory_with_rom(program: &[u8]) -> Memory {
    let mut content = [0u8; 0x1000];
    content[..program.len()].copy_from_slice(program);
    Memory::new(Ram::new(), Stack::new(), Rom::new(RomBank::new(content), Vec::new()))
}

fn encoded(instruction: Instruction) -> Result<Vec<u8>, MachineError> {
    let mut encoder = VecEncoder::new(Vec::new());
    instruction.encode(&mut encoder)?;
    Ok(encoder.into_output())
}

#[test]
fn bytes_pair_low_byte_first() {
    assert_eq!(from_le_bytes(0x34, 0x12), 0x1234);
    assert_eq!(from_le_bytes(0xFF, 0x00), 0x00FF);
    assert_eq!(from_le_bytes(0x00, 0xFF), 0xFF00);
    assert_eq!(from_le_bytes(0xFF, 0xFF), 0xFFFF);
    assert_eq!(low_byte(0x1234), 0x34);
    assert_eq!(high_byte(0x1234), 0x12);
    for word in [0u16, 1, 0xFF, 0x100, 0x1234, 0xFFFF] {
        assert_eq!(from_le_bytes(low_byte(word), high_byte(word)), word);
        assert_eq!([low_byte(word), high_byte(word)], word.to_le_bytes());
    }
}

#[test]
fn bytes_as_signed_offsets() {
    assert_eq!(to_signed(0), 0);
    assert_eq!(to_signed(0x7F), 127);
    assert_eq!(to_signed(0x80), -128);
    assert_eq!(to_signed(0xFF), -1);
    assert_eq!(to_unsigned(-1), 0xFF);
    assert_eq!(to_unsigned(-128), 0x80);
    assert_eq!(to_unsigned(127), 0x7F);
    for byte in 0..=255u8 {
        assert_eq!(to_signed(byte), byte as i8);
        assert_eq!(to_unsigned(to_signed(byte)), byte);
    }
}

#[test]
fn a_slice_decoder_reads_front_to_back() {
    let bytes = [1u8, 2, 3];
    let mut decoder = SliceDecoder::new(&bytes);
    assert_eq!(decoder.position(), 0);
    assert_eq!(decoder.remaining(), 3);
    assert_eq!(decoder.read(), Ok(1));
    assert_eq!(decoder.read(), Ok(2));
    assert_eq!(decoder.position(), 2);
    assert_eq!(decoder.remaining(), 1);
    assert_eq!(decoder.read(), Ok(3));
    assert_eq!(decoder.read(), Err(DecodeError::UnexpectedEof));
    assert_eq!(decoder.read(), Err(DecodeError::UnexpectedEof));
    assert_eq!(decoder.position(), 3);
    assert_eq!(decoder.remaining(), 0);
    let mut empty = SliceDecoder::new(&[]);
    assert_eq!(empty.read(), Err(DecodeError::UnexpectedEof));
    assert_eq!(empty.position(), 0);
}

#[test]
fn a_memory_decoder_moves_only_when_it_reads() {
    let memory = memory_with_rom(&[7, 8]);
    let mut decoder = MemoryDecoder::new(&memory, 0xF000);
    assert_eq!(decoder.pc(), 0xF000);
    assert_eq!(decoder.read(), Ok(7));
    assert_eq!(decoder.pc(), 0xF001);
    assert_eq!(decoder.read(), Ok(8));
    assert_eq!(decoder.pc(), 0xF002);
    *decoder.pc_mut() = 0x0200;
    assert_eq!(decoder.read(), Err(MachineError::Read(ReadError { address: 0x0200 })));
    assert_eq!(decoder.pc(), 0x0200);
    *decoder.pc_mut() = 0xFFFF;
    assert_eq!(decoder.read(), Ok(0));
    assert_eq!(decoder.pc(), 0x0000);
    assert_eq!(decoder.memory().banks(), 1);
}

#[test]
fn errors_of_the_machine_have_a_place_in_every_source() {
    let error = MachineError::Opcode(OpcodeError { bits: 3 });
    assert_eq!(MemoryDecoder::machine_error(error), error);
    assert_eq!(SliceDecoder::machine_error(error), DecodeError::Machine(error));
    assert_eq!(VecEncoder::machine_error(error), error);
}

#[test]
fn primitive_values_decode_little_endian() {
    let bytes = [0x34u8, 0x12, 0xFE, 0x80];
    let mut decoder = SliceDecoder::new(&bytes);
    assert_eq!(Address::decode(&mut decoder), Ok(Address { bits: 0x1234 }));
    assert_eq!(RelativeAddr::decode(&mut decoder), Ok(RelativeAddr { bits: -2 }));
    assert_eq!(decoder.position(), 3);
    assert_eq!(Address::decode(&mut decoder), Err(DecodeError::UnexpectedEof));
    // The first byte of the address was taken.
    assert_eq!(decoder.position(), 4);
    let mut decoder = SliceDecoder::new(&bytes);
    assert_eq!(Word::decode(&mut decoder), Ok(Word { bits: 0x34 }));
    assert_eq!(PageAddr::decode(&mut decoder), Ok(PageAddr { bits: 0x12 }));
    assert_eq!(decoder.position(), 2);
    let mut empty = SliceDecoder::new(&[]);
    assert_eq!(Word::decode(&mut empty), Err(DecodeError::UnexpectedEof));
    assert_eq!(PageAddr::decode(&mut empty), Err(DecodeError::UnexpectedEof));
    assert_eq!(RelativeAddr::decode(&mut empty), Err(DecodeError::UnexpectedEof));
    assert_eq!(Address::decode(&mut empty), Err(DecodeError::UnexpectedEof));
}

#[test]
fn operands_take_as_many_bytes_as_their_kind_has() {
    let bytes = [0x34u8, 0x12, 0x56];
    let modes = [
        AddrMode::Acc,
        AddrMode::Abs,
        AddrMode::AbsX,
        AddrMode::AbsY,
        AddrMode::Imm,
        AddrMode::Impl,
        AddrMode::Ind,
        AddrMode::XInd,
        AddrMode::IndY,
        AddrMode::Rel,
        AddrMode::Zpg,
        AddrMode::ZpgX,
        AddrMode::ZpgY,
    ];
    for mode in modes {
        let mut decoder = SliceDecoder::new(&bytes);
        let operand = Operand::decode(mode, &mut decoder).unwrap();
        assert_eq!(operand.addrmode(), mode);
        assert_eq!(decoder.position(), mode.size());
        assert_eq!(operand, Operand::from_bytes(mode, 0x34, 0x12));
        let mut encoder = VecEncoder::new(vec![0xEE]);
        assert_eq!(operand.encode(&mut encoder), Ok(()));
        let output = encoder.into_output();
        assert_eq!(output[0], 0xEE);
        assert_eq!(&output[1..], &bytes[..mode.size()]);
    }
}

#[test]
fn operands_that_end_too_early() {
    let mut decoder = SliceDecoder::new(&[0x34]);
    assert_eq!(Operand::decode(AddrMode::Abs, &mut decoder), Err(DecodeError::UnexpectedEof));
    assert_eq!(decoder.position(), 1);
    let mut decoder = SliceDecoder::new(&[]);
    assert_eq!(Operand::decode(AddrMode::Imm, &mut decoder), Err(DecodeError::UnexpectedEof));
    assert_eq!(decoder.position(), 0);
    let mut decoder = SliceDecoder::new(&[]);
    assert_eq!(Operand::decode(AddrMode::Impl, &mut decoder), Ok(Operand::Impl(Implied)));
    assert_eq!(Operand::decode(AddrMode::Acc, &mut decoder), Ok(Operand::Acc(Accumulator)));
}

#[test]
fn opcodes_decode_from_one_byte() {
    let mut decoder = SliceDecoder::new(&[0xA9, 0x03]);
    assert_eq!(
        Opcode::decode(&mut decoder),
        Ok(Opcode { mnemonic: Mnemonic::Lda, addrmode: AddrMode::Imm })
    );
    assert_eq!(decoder.position(), 1);
    assert_eq!(
        Opcode::decode(&mut decoder),
        Err(DecodeError::Machine(MachineError::Opcode(OpcodeError { bits: 0x03 })))
    );
    assert_eq!(decoder.position(), 2);
    assert_eq!(Opcode::decode(&mut decoder), Err(DecodeError::UnexpectedEof));
    assert_eq!(decoder.position(), 2);
}

#[test]
fn opcodes_encode_to_one_byte() {
    let mut encoder = VecEncoder::new(Vec::new());
    let jump = Opcode { mnemonic: Mnemonic::Jmp, addrmode: AddrMode::Ind };
    assert_eq!(jump.encode(&mut encoder), Ok(()));
    let wrong = Opcode { mnemonic: Mnemonic::Jmp, addrmode: AddrMode::Imm };
    assert_eq!(
        wrong.encode(&mut encoder),
        Err(MachineError::AddrMode(AddrModeError { mode: AddrMode::Imm, instr_type: Type::Jmp }))
    );
    assert_eq!(encoder.into_output(), vec![0x6C]);
}

#[test]
fn instructions_decode_to_their_parts() {
    let bytes = [0xA9u8, 0x05, 0x4C, 0x34, 0x12, 0xEA, 0xD0, 0xFE, 0x0A, 0xA5];
    let mut decoder = SliceDecoder::new(&bytes);
    let expected = [
        (Mnemonic::Lda, Operand::Imm(Immediate { bits: 5 }), 2),
        (Mnemonic::Jmp, Operand::Abs(Absolute { address: 0x1234 }), 5),
        (Mnemonic::Nop, Operand::Impl(Implied), 6),
        (Mnemonic::Bne, Operand::Rel(Relative { address: -2 }), 8),
        (Mnemonic::Asl, Operand::Acc(Accumulator), 9),
    ];
    for (mnemonic, operand, position) in expected {
        let instruction = Instruction::decode(&mut decoder).unwrap();
        assert_eq!(instruction, Instruction { mnemonic, operand });
        assert_eq!(decoder.position(), position);
        assert_eq!(
            instruction.opcode(),
            Opcode { mnemonic, addrmode: operand.addrmode() }
        );
    }
    // LDA zero page without its operand byte.
    assert_eq!(Instruction::decode(&mut decoder), Err(DecodeError::UnexpectedEof));
    assert_eq!(decoder.position(), 10);
    assert_eq!(Instruction::decode(&mut decoder), Err(DecodeError::UnexpectedEof));
    assert_eq!(decoder.position(), 10);
}

#[test]
fn every_decoded_instruction_takes_one_byte_and_its_operand() {
    for first in 0..=255u8 {
        let bytes = [first, 0x34, 0x12, 0x99];
        let mut decoder = SliceDecoder::new(&bytes);
        match Instruction::decode(&mut decoder) {
            Ok(instruction) => {
                assert_eq!(decoder.position(), 1 + instruction.operand.addrmode().size());
                assert_eq!(decoder.position(), 1 + instruction.operand.size());
                assert_eq!(Opcode::from_bits(first), Ok(instruction.opcode()));
                assert_eq!(
                    encoded(instruction).unwrap(),
                    bytes[..decoder.position()].to_vec()
                );
            },
            Err(error) => {
                assert_eq!(
                    error,
                    DecodeError::Machine(MachineError::Opcode(OpcodeError { bits: first }))
                );
                assert_eq!(decoder.position(), 1);
            },
        }
    }
}

#[test]
fn instructions_encode_to_their_bytes() {
    assert_eq!(
        encoded(Instruction {
            mnemonic: Mnemonic::Lda,
            operand: Operand::Imm(Immediate { bits: 5 })
        }),
        Ok(vec![0xA9, 0x05])
    );
    assert_eq!(
        encoded(Instruction {
            mnemonic: Mnemonic::Jsr,
            operand: Operand::Abs(Absolute { address: 0x1234 })
        }),
        Ok(vec![0x20, 0x34, 0x12])
    );
    assert_eq!(
        encoded(Instruction { mnemonic: Mnemonic::Rts, operand: Operand::Impl(Implied) }),
        Ok(vec![0x60])
    );
    assert_eq!(
        encoded(Instruction {
            mnemonic: Mnemonic::Beq,
            operand: Operand::Rel(Relative { address: -3 })
        }),
        Ok(vec![0xF0, 0xFD])
    );
    assert_eq!(
        encoded(Instruction {
            mnemonic: Mnemonic::Sta,
            operand: Operand::Zpg(Zeropage { address: 0x80 })
        }),
        Ok(vec![0x85, 0x80])
    );
}

#[test]
fn an_instruction_without_encoding_writes_nothing() {
    let mut encoder = VecEncoder::new(vec![1, 2]);
    let wrong =
        Instruction { mnemonic: Mnemonic::Sta, operand: Operand::Imm(Immediate { bits: 5 }) };
    assert_eq!(
        wrong.encode(&mut encoder),
        Err(MachineError::AddrMode(AddrModeError { mode: AddrMode::Imm, instr_type: Type::Sta }))
    );
    assert_eq!(encoder.write(3), Ok(()));
    assert_eq!(encoder.into_output(), vec![1, 2, 3]);
}

#[test]
fn instructions_decode_from_memory() {
    let memory = memory_with_rom(&[0x20, 0x34, 0x12, 0x03]);
    let mut decoder = MemoryDecoder::new(&memory, 0xF000);
    assert_eq!(
        Instruction::decode(&mut decoder),
        Ok(Instruction {
            mnemonic: Mnemonic::Jsr,
            operand: Operand::Abs(Absolute { address: 0x1234 })
        })
    );
    assert_eq!(decoder.pc(), 0xF003);
    assert_eq!(
        Instruction::decode(&mut decoder),
        Err(MachineError::Opcode(OpcodeError { bits: 0x03 }))
    );
    assert_eq!(decoder.pc(), 0xF004);
}
