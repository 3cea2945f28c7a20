//! Opcodes: the one-byte encoding of a mnemonic with an addressing mode.
//!
//! An opcode byte has three fields: `a`, the three highest bits; `b`, the
//! three bits below them; and `c`, the two lowest bits.

use crate::addrmode::AddrMode;
use crate::binary::{infallible, wrote, Decoder, Encoder};
use crate::error::{AddrModeError, MachineError, OpcodeError};
use crate::instruction::itype::{ModeField, Type};
use crate::instruction::mnemonic::{mnemonic_of_fields, Mnemonic};
use vstd::prelude::*;

verus! {

/// Field `a` of an opcode byte.
pub open spec fn spec_bits_a(opcode_bits: u8) -> u8 {
    opcode_bits / 32
}

/// Field `b` of an opcode byte.
pub open spec fn spec_bits_b(opcode_bits: u8) -> u8 {
    (opcode_bits / 4) % 8
}

/// Field `c` of an opcode byte.
pub open spec fn spec_bits_c(opcode_bits: u8) -> u8 {
    opcode_bits % 4
}

/// The opcode byte `opcode_bits` with the low three bits of `value` in field
/// `a`.
pub open spec fn spec_set_bits_a(opcode_bits: u8, value: u8) -> u8 {
    (32 * (value % 8) + opcode_bits % 32) as u8
}

/// The opcode byte `opcode_bits` with the low three bits of `value` in field
/// `b`.
pub open spec fn spec_set_bits_b(opcode_bits: u8, value: u8) -> u8 {
    (32 * (opcode_bits / 32) + 4 * (value % 8) + opcode_bits % 4) as u8
}

/// The opcode byte `opcode_bits` with the low two bits of `value` in field
/// `c`.
pub open spec fn spec_set_bits_c(opcode_bits: u8, value: u8) -> u8 {
    (4 * (opcode_bits / 4) + value % 4) as u8
}

/// A byte is made of its three fields, and storing into one field changes
/// that field alone.
pub proof fn lemma_fields(opcode_bits: u8, value: u8)
    ensures
        opcode_bits == 32 * spec_bits_a(opcode_bits) + 4 * spec_bits_b(opcode_bits) + spec_bits_c(
            opcode_bits,
        ),
        spec_bits_a(spec_set_bits_a(opcode_bits, value)) == value % 8,
        spec_bits_b(spec_set_bits_a(opcode_bits, value)) == spec_bits_b(opcode_bits),
        spec_bits_c(spec_set_bits_a(opcode_bits, value)) == spec_bits_c(opcode_bits),
        spec_bits_a(spec_set_bits_b(opcode_bits, value)) == spec_bits_a(opcode_bits),
        spec_bits_b(spec_set_bits_b(opcode_bits, value)) == value % 8,
        spec_bits_c(spec_set_bits_b(opcode_bits, value)) == spec_bits_c(opcode_bits),
        spec_bits_a(spec_set_bits_c(opcode_bits, value)) == spec_bits_a(opcode_bits),
        spec_bits_b(spec_set_bits_c(opcode_bits, value)) == spec_bits_b(opcode_bits),
        spec_bits_c(spec_set_bits_c(opcode_bits, value)) == value % 4,
{
    assert(opcode_bits == 32 * (opcode_bits / 32) + 4 * ((opcode_bits / 4) % 8) + opcode_bits % 4)
        by (bit_vector);
    let with_a = spec_set_bits_a(opcode_bits, value);
    assert(with_a == 32 * (value % 8) + opcode_bits % 32 ==> with_a / 32 == value % 8 && (with_a
        / 4) % 8 == (opcode_bits / 4) % 8 && with_a % 4 == opcode_bits % 4) by (bit_vector);
    let with_b = spec_set_bits_b(opcode_bits, value);
    assert(with_b == 32 * (opcode_bits / 32) + 4 * (value % 8) + opcode_bits % 4 ==> with_b / 32
        == opcode_bits / 32 && (with_b / 4) % 8 == value % 8 && with_b % 4 == opcode_bits % 4)
        by (bit_vector);
    let with_c = spec_set_bits_c(opcode_bits, value);
    assert(with_c == 4 * (opcode_bits / 4) + value % 4 ==> with_c / 32 == opcode_bits / 32 && (
    with_c / 4) % 8 == (opcode_bits / 4) % 8 && with_c % 4 == value % 4) by (bit_vector);
}

/// Field `a` of an opcode byte: its three highest bits.
pub fn bits_a(opcode_bits: u8) -> (field: u8)
    ensures
        field == spec_bits_a(opcode_bits),
        field < 8,
{
    assert(opcode_bits >> 5 == opcode_bits / 32) by (bit_vector);
    opcode_bits >> 5
}

/// Field `b` of an opcode byte: the three bits below field `a`.
pub fn bits_b(opcode_bits: u8) -> (field: u8)
    ensures
        field == spec_bits_b(opcode_bits),
        field < 8,
{
    assert((opcode_bits >> 2) & 0x7 == (opcode_bits / 4) % 8) by (bit_vector);
    (opcode_bits >> 2) & 0x7
}

/// Field `c` of an opcode byte: its two lowest bits.
pub fn bits_c(opcode_bits: u8) -> (field: u8)
    ensures
        field == spec_bits_c(opcode_bits),
        field < 4,
{
    assert(opcode_bits & 0x3 == opcode_bits % 4) by (bit_vector);
    opcode_bits & 0x3
}

/// Stores the low three bits of `value` in field `a` of `opcode_bits`.
pub fn set_bits_a(opcode_bits: u8, value: u8) -> (result: u8)
    ensures
        result == spec_set_bits_a(opcode_bits, value),
{
    assert((opcode_bits & 0x1F) | (value << 5) == 32 * (value % 8) + opcode_bits % 32)
        by (bit_vector);
    (opcode_bits & 0x1F) | (value << 5)
}

/// Stores the low three bits of `value` in field `b` of `opcode_bits`.
pub fn set_bits_b(opcode_bits: u8, value: u8) -> (result: u8)
    ensures
        result == spec_set_bits_b(opcode_bits, value),
{
    assert((opcode_bits & 0xE3) | ((value & 0x7) << 2) == 32 * (opcode_bits / 32) + 4 * (value % 8)
        + opcode_bits % 4) by (bit_vector);
    (opcode_bits & 0xE3) | ((value & 0x7) << 2)
}

/// Stores the low two bits of `value` in field `c` of `opcode_bits`.
pub fn set_bits_c(opcode_bits: u8, value: u8) -> (result: u8)
    ensures
        result == spec_set_bits_c(opcode_bits, value),
{
    assert((opcode_bits & 0xFC) | (value & 0x3) == 4 * (opcode_bits / 4) + value % 4)
        by (bit_vector);
    (opcode_bits & 0xFC) | (value & 0x3)
}

/// A mnemonic together with an addressing mode: what one opcode byte stands
/// for.
#[derive(Debug, Clone, Copy, PartialEq, Eq, PartialOrd, Ord, Hash, Structural)]
pub struct Opcode {
    pub mnemonic: Mnemonic,
    pub addrmode: AddrMode,
}

impl Opcode {
    /// Whether the instruction type of the mnemonic admits the addressing
    /// mode, that is, whether the pair has an encoding.
    pub open spec fn legal(self) -> bool {
        self.mnemonic.spec_instr_type().admits(self.addrmode)
    }

    /// What [`Opcode::from_bits`] returns for `bits`.
    pub open spec fn spec_from_bits(bits: u8) -> Result<Opcode, OpcodeError> {
        match Mnemonic::spec_from_opcode_bits(bits) {
            Err(error) => Err(error),
            Ok(mnemonic) => match mnemonic.spec_instr_type().spec_addrmode_from_bits(bits) {
                Err(error) => Err(error),
                Ok(addrmode) => Ok(Opcode { mnemonic, addrmode }),
            },
        }
    }

    /// What [`Opcode::to_bits`] returns.
    pub open spec fn spec_to_bits(self) -> Result<u8, AddrModeError> {
        match self.mnemonic.spec_instr_type().spec_addrmode_to_bits(self.addrmode) {
            Err(error) => Err(error),
            Ok(addrmode) => Ok(self.mnemonic.spec_to_opcode_bits() | addrmode),
        }
    }

    /// Decodes an opcode byte: the mnemonic comes from the three fields of the
    /// byte, the addressing mode from the field in which the mnemonic's
    /// instruction type keeps it. A byte that selects no mnemonic, or no
    /// addressing mode of the mnemonic found, is returned in the error.
    pub fn from_bits(bits: u8) -> (result: Result<Self, OpcodeError>)
        ensures
            result == Self::spec_from_bits(bits),
            result matches Err(error) ==> error.bits == bits,
            result matches Ok(opcode) ==> opcode.legal(),
    {
        match Mnemonic::from_opcode_bits(bits) {
            Err(error) => Err(error),
            Ok(mnemonic) => match mnemonic.instr_type().addrmode_from_bits(bits) {
                Err(error) => Err(error),
                Ok(addrmode) => Ok(Self { mnemonic, addrmode }),
            },
        }
    }

    /// The opcode that `decoder` holds next, and the decoder after it. The
    /// byte is consumed even where it decodes to nothing.
    pub open spec fn spec_decode<D: Decoder>(decoder: D) -> (D, Result<Opcode, D::Error>) {
        match decoder.peek() {
            None => (decoder, Err(decoder.fault())),
            Some(bits) => match Self::spec_from_bits(bits) {
                Err(error) => (decoder.advance(), Err(D::lift(MachineError::Opcode(error)))),
                Ok(opcode) => (decoder.advance(), Ok(opcode)),
            },
        }
    }

    /// Reads one byte from `decoder` and decodes it.
    pub fn decode<D: Decoder>(decoder: &mut D) -> (result: Result<Self, D::Error>)
        ensures
            (*final(decoder), result) == Self::spec_decode(*old(decoder)),
            result matches Ok(opcode) ==> opcode.legal(),
    {
        match decoder.read() {
            Err(error) => Err(error),
            Ok(bits) => match Self::from_bits(bits) {
                Err(error) => Err(D::machine_error(MachineError::Opcode(error))),
                Ok(opcode) => Ok(opcode),
            },
        }
    }

    /// Writes the byte that encodes the pair to `encoder`. A pair without
    /// encoding is reported and nothing is written.
    pub fn encode<E: Encoder>(&self, encoder: &mut E) -> (result: Result<(), E::Error>)
        ensures
            match self.spec_to_bits() {
                Err(error) => {
                    &&& result == Err::<(), E::Error>(E::lift(MachineError::AddrMode(error)))
                    &&& *final(encoder) == *old(encoder)
                },
                Ok(bits) => {
                    &&& wrote(*old(encoder), *final(encoder), seq![bits], result)
                    &&& infallible::<E>() ==> result is Ok
                },
            },
    {
        match self.to_bits() {
            Err(error) => Err(E::machine_error(MachineError::AddrMode(error))),
            Ok(bits) => {
                let result = encoder.write(bits);
                proof {
                    if result is Ok {
                        assert(encoder.written() =~= old(encoder).written() + seq![bits]);
                    } else {
                        assert(encoder.written() =~= old(encoder).written() + seq![
                            bits,
                        ].subrange(0, 0));
                    }
                }
                result
            },
        }
    }

    /// Encodes the pair in one byte: the bits of the mnemonic or-ed with the
    /// bits of the addressing mode. A pair whose instruction type does not
    /// admit the addressing mode has no encoding.
    pub fn to_bits(self) -> (result: Result<u8, AddrModeError>)
        ensures
            result == self.spec_to_bits(),
            result is Ok <==> self.legal(),
            result matches Err(error) ==> error == (AddrModeError {
                mode: self.addrmode,
                instr_type: self.mnemonic.spec_instr_type(),
            }),
    {
        let mnemonic = self.mnemonic.to_opcode_bits();
        let instr_type = self.mnemonic.instr_type();
        match instr_type.addrmode_to_bits(self.addrmode) {
            Err(error) => Err(error),
            Ok(addrmode) => Ok(mnemonic | addrmode),
        }
    }
}

/// The field of `left | right` is that of `left` wherever `right` has zero in
/// that field, and that of `right` wherever `left` has zero there.
proof fn lemma_or_fields(left: u8, right: u8)
    ensures
        spec_bits_a(right) == 0 ==> spec_bits_a(left | right) == spec_bits_a(left),
        spec_bits_b(right) == 0 ==> spec_bits_b(left | right) == spec_bits_b(left),
        spec_bits_c(right) == 0 ==> spec_bits_c(left | right) == spec_bits_c(left),
        spec_bits_a(left) == 0 ==> spec_bits_a(left | right) == spec_bits_a(right),
        spec_bits_b(left) == 0 ==> spec_bits_b(left | right) == spec_bits_b(right),
        spec_bits_c(left) == 0 ==> spec_bits_c(left | right) == spec_bits_c(right),
{
    assert((right / 32 == 0 ==> (left | right) / 32 == left / 32) && ((right / 4) % 8 == 0 ==> ((
    left | right) / 4) % 8 == (left / 4) % 8) && (right % 4 == 0 ==> (left | right) % 4 == left
        % 4)) by (bit_vector);
    assert((left / 32 == 0 ==> (left | right) / 32 == right / 32) && ((left / 4) % 8 == 0 ==> ((
    left | right) / 4) % 8 == (right / 4) % 8) && (left % 4 == 0 ==> (left | right) % 4 == right
        % 4)) by (bit_vector);
}

/// The three fields of the bits that a mnemonic contributes: what the
/// mnemonic fixes, and zero where it fixes nothing.
pub proof fn lemma_mnemonic_fields(mnemonic: Mnemonic)
    ensures
        ({
            let (a, b, c) = mnemonic.spec_fixed_fields();
            let bits = mnemonic.spec_to_opcode_bits();
            &&& spec_bits_a(bits) == (if a is Some { a->Some_0 } else { 0 })
            &&& spec_bits_b(bits) == (if b is Some { b->Some_0 } else { 0 })
            &&& spec_bits_c(bits) == (if c is Some { c->Some_0 } else { 0 })
        }),
{
    let (a, b, c) = mnemonic.spec_fixed_fields();
    let with_a = match a {
        Some(value) => spec_set_bits_a(0, value),
        None => 0,
    };
    let with_b = match b {
        Some(value) => spec_set_bits_b(with_a, value),
        None => with_a,
    };
    if a is Some {
        lemma_fields(0, a->Some_0);
    }
    if b is Some {
        lemma_fields(with_a, b->Some_0);
    }
    if c is Some {
        lemma_fields(with_b, c->Some_0);
    }
}

/// The three fields of the byte that encodes a legal pair: the field in which
/// the instruction type keeps the addressing mode holds the value of the
/// mode, and the other fields hold what the mnemonic fixes.
pub proof fn lemma_encoded_fields(opcode: Opcode)
    requires
        opcode.legal(),
    ensures
        ({
            let (a, b, c) = opcode.mnemonic.spec_fixed_fields();
            let instr_type = opcode.mnemonic.spec_instr_type();
            let value = instr_type.field_of_mode(opcode.addrmode)->Some_0;
            let bits = opcode.spec_to_bits()->Ok_0;
            &&& opcode.spec_to_bits() is Ok
            &&& spec_bits_a(bits) == (if instr_type.mode_field() is A {
                value
            } else {
                a->Some_0
            })
            &&& spec_bits_b(bits) == (if instr_type.mode_field() is B {
                value
            } else {
                b->Some_0
            })
            &&& spec_bits_c(bits) == c->Some_0
        }),
{
    let instr_type = opcode.mnemonic.spec_instr_type();
    let value = instr_type.field_of_mode(opcode.addrmode)->Some_0;
    let mnemonic_bits = opcode.mnemonic.spec_to_opcode_bits();
    let mode_bits = instr_type.spec_addrmode_to_bits(opcode.addrmode)->Ok_0;
    lemma_mnemonic_fields(opcode.mnemonic);
    lemma_fields(0, value);
    lemma_or_fields(mnemonic_bits, mode_bits);
}

/// The two tables of an instruction type are inverse to each other: the
/// value stored for an admitted addressing mode selects that mode again,
/// whatever the other field holds.
proof fn lemma_mode_tables_inverse(instr_type: Type, addrmode: AddrMode, a: u8, b: u8)
    requires
        instr_type.admits(addrmode),
        instr_type.mode_field() is A ==> a == instr_type.field_of_mode(addrmode)->Some_0,
        instr_type.mode_field() is B ==> b == instr_type.field_of_mode(addrmode)->Some_0,
    ensures
        instr_type.mode_of_fields(a, b) == Some(addrmode),
{
}

/// The fields that a mnemonic fixes, completed by the value of any addressing
/// mode that its instruction type admits, select the mnemonic again.
proof fn lemma_mnemonic_table_inverse(mnemonic: Mnemonic, addrmode: AddrMode)
    requires
        mnemonic.spec_instr_type().admits(addrmode),
    ensures
        ({
            let (a, b, c) = mnemonic.spec_fixed_fields();
            let instr_type = mnemonic.spec_instr_type();
            let value = instr_type.field_of_mode(addrmode)->Some_0;
            mnemonic_of_fields(
                if instr_type.mode_field() is A {
                    value
                } else {
                    a->Some_0
                },
                if instr_type.mode_field() is B {
                    value
                } else {
                    b->Some_0
                },
                c->Some_0,
            ) == Some(mnemonic)
        }),
{
    match mnemonic.spec_instr_type() {
        Type::Aop => lemma_mnemonic_table_inverse_aop(mnemonic, addrmode),
        Type::Ldx => lemma_mnemonic_table_inverse_ldx(mnemonic, addrmode),
        Type::Ldy => lemma_mnemonic_table_inverse_ldy(mnemonic, addrmode),
        Type::Sta => lemma_mnemonic_table_inverse_sta(mnemonic, addrmode),
        Type::Stx => lemma_mnemonic_table_inverse_stx(mnemonic, addrmode),
        Type::Sty => lemma_mnemonic_table_inverse_sty(mnemonic, addrmode),
        Type::Cxy => lemma_mnemonic_table_inverse_cxy(mnemonic, addrmode),
        Type::Rsh => lemma_mnemonic_table_inverse_rsh(mnemonic, addrmode),
        Type::Idc => lemma_mnemonic_table_inverse_idc(mnemonic, addrmode),
        Type::Bit => lemma_mnemonic_table_inverse_bit(mnemonic, addrmode),
        Type::Jmp => lemma_mnemonic_table_inverse_jmp(mnemonic, addrmode),
        Type::Jsr => lemma_mnemonic_table_inverse_jsr(mnemonic, addrmode),
        Type::Bch => lemma_mnemonic_table_inverse_bch(mnemonic, addrmode),
        Type::Imp => lemma_mnemonic_table_inverse_imp(mnemonic, addrmode),
    }
}

proof fn lemma_mnemonic_table_inverse_aop(mnemonic: Mnemonic, addrmode: AddrMode)
    requires
        mnemonic.spec_instr_type() == Type::Aop,
        Type::Aop.admits(addrmode),
    ensures
        ({
            let (a, b, c) = mnemonic.spec_fixed_fields();
            let value = Type::Aop.field_of_mode(addrmode)->Some_0;
            mnemonic_of_fields(
                if Type::Aop.mode_field() is A {
                    value
                } else {
                    a->Some_0
                },
                if Type::Aop.mode_field() is B {
                    value
                } else {
                    b->Some_0
                },
                c->Some_0,
            ) == Some(mnemonic)
        }),
{
}

proof fn lemma_mnemonic_table_inverse_ldx(mnemonic: Mnemonic, addrmode: AddrMode)
    requires
        mnemonic.spec_instr_type() == Type::Ldx,
        Type::Ldx.admits(addrmode),
    ensures
        ({
            let (a, b, c) = mnemonic.spec_fixed_fields();
            let value = Type::Ldx.field_of_mode(addrmode)->Some_0;
            mnemonic_of_fields(
                if Type::Ldx.mode_field() is A {
                    value
                } else {
                    a->Some_0
                },
                if Type::Ldx.mode_field() is B {
                    value
                } else {
                    b->Some_0
                },
                c->Some_0,
            ) == Some(mnemonic)
        }),
{
}

proof fn lemma_mnemonic_table_inverse_ldy(mnemonic: Mnemonic, addrmode: AddrMode)
    requires
        mnemonic.spec_instr_type() == Type::Ldy,
        Type::Ldy.admits(addrmode),
    ensures
        ({
            let (a, b, c) = mnemonic.spec_fixed_fields();
            let value = Type::Ldy.field_of_mode(addrmode)->Some_0;
            mnemonic_of_fields(
                if Type::Ldy.mode_field() is A {
                    value
                } else {
                    a->Some_0
                },
                if Type::Ldy.mode_field() is B {
                    value
                } else {
                    b->Some_0
                },
                c->Some_0,
            ) == Some(mnemonic)
        }),
{
}

proof fn lemma_mnemonic_table_inverse_sta(mnemonic: Mnemonic, addrmode: AddrMode)
    requires
        mnemonic.spec_instr_type() == Type::Sta,
        Type::Sta.admits(addrmode),
    ensures
        ({
            let (a, b, c) = mnemonic.spec_fixed_fields();
            let value = Type::Sta.field_of_mode(addrmode)->Some_0;
            mnemonic_of_fields(
                if Type::Sta.mode_field() is A {
                    value
                } else {
                    a->Some_0
                },
                if Type::Sta.mode_field() is B {
                    value
                } else {
                    b->Some_0
                },
                c->Some_0,
            ) == Some(mnemonic)
        }),
{
}

proof fn lemma_mnemonic_table_inverse_stx(mnemonic: Mnemonic, addrmode: AddrMode)
    requires
        mnemonic.spec_instr_type() == Type::Stx,
        Type::Stx.admits(addrmode),
    ensures
        ({
            let (a, b, c) = mnemonic.spec_fixed_fields();
            let value = Type::Stx.field_of_mode(addrmode)->Some_0;
            mnemonic_of_fields(
                if Type::Stx.mode_field() is A {
                    value
                } else {
                    a->Some_0
                },
                if Type::Stx.mode_field() is B {
                    value
                } else {
                    b->Some_0
                },
                c->Some_0,
            ) == Some(mnemonic)
        }),
{
}

proof fn lemma_mnemonic_table_inverse_sty(mnemonic: Mnemonic, addrmode: AddrMode)
    requires
        mnemonic.spec_instr_type() == Type::Sty,
        Type::Sty.admits(addrmode),
    ensures
        ({
            let (a, b, c) = mnemonic.spec_fixed_fields();
            let value = Type::Sty.field_of_mode(addrmode)->Some_0;
            mnemonic_of_fields(
                if Type::Sty.mode_field() is A {
                    value
                } else {
                    a->Some_0
                },
                if Type::Sty.mode_field() is B {
                    value
                } else {
                    b->Some_0
                },
                c->Some_0,
            ) == Some(mnemonic)
        }),
{
}

proof fn lemma_mnemonic_table_inverse_cxy(mnemonic: Mnemonic, addrmode: AddrMode)
    requires
        mnemonic.spec_instr_type() == Type::Cxy,
        Type::Cxy.admits(addrmode),
    ensures
        ({
            let (a, b, c) = mnemonic.spec_fixed_fields();
            let value = Type::Cxy.field_of_mode(addrmode)->Some_0;
            mnemonic_of_fields(
                if Type::Cxy.mode_field() is A {
                    value
                } else {
                    a->Some_0
                },
                if Type::Cxy.mode_field() is B {
                    value
                } else {
                    b->Some_0
                },
                c->Some_0,
            ) == Some(mnemonic)
        }),
{
}

proof fn lemma_mnemonic_table_inverse_rsh(mnemonic: Mnemonic, addrmode: AddrMode)
    requires
        mnemonic.spec_instr_type() == Type::Rsh,
        Type::Rsh.admits(addrmode),
    ensures
        ({
            let (a, b, c) = mnemonic.spec_fixed_fields();
            let value = Type::Rsh.field_of_mode(addrmode)->Some_0;
            mnemonic_of_fields(
                if Type::Rsh.mode_field() is A {
                    value
                } else {
                    a->Some_0
                },
                if Type::Rsh.mode_field() is B {
                    value
                } else {
                    b->Some_0
                },
                c->Some_0,
            ) == Some(mnemonic)
        }),
{
}

proof fn lemma_mnemonic_table_inverse_idc(mnemonic: Mnemonic, addrmode: AddrMode)
    requires
        mnemonic.spec_instr_type() == Type::Idc,
        Type::Idc.admits(addrmode),
    ensures
        ({
            let (a, b, c) = mnemonic.spec_fixed_fields();
            let value = Type::Idc.field_of_mode(addrmode)->Some_0;
            mnemonic_of_fields(
                if Type::Idc.mode_field() is A {
                    value
                } else {
                    a->Some_0
                },
                if Type::Idc.mode_field() is B {
                    value
                } else {
                    b->Some_0
                },
                c->Some_0,
            ) == Some(mnemonic)
        }),
{
}

proof fn lemma_mnemonic_table_inverse_bit(mnemonic: Mnemonic, addrmode: AddrMode)
    requires
        mnemonic.spec_instr_type() == Type::Bit,
        Type::Bit.admits(addrmode),
    ensures
        ({
            let (a, b, c) = mnemonic.spec_fixed_fields();
            let value = Type::Bit.field_of_mode(addrmode)->Some_0;
            mnemonic_of_fields(
                if Type::Bit.mode_field() is A {
                    value
                } else {
                    a->Some_0
                },
                if Type::Bit.mode_field() is B {
                    value
                } else {
                    b->Some_0
                },
                c->Some_0,
            ) == Some(mnemonic)
        }),
{
}

proof fn lemma_mnemonic_table_inverse_jmp(mnemonic: Mnemonic, addrmode: AddrMode)
    requires
        mnemonic.spec_instr_type() == Type::Jmp,
        Type::Jmp.admits(addrmode),
    ensures
        ({
            let (a, b, c) = mnemonic.spec_fixed_fields();
            let value = Type::Jmp.field_of_mode(addrmode)->Some_0;
            mnemonic_of_fields(
                if Type::Jmp.mode_field() is A {
                    value
                } else {
                    a->Some_0
                },
                if Type::Jmp.mode_field() is B {
                    value
                } else {
                    b->Some_0
                },
                c->Some_0,
            ) == Some(mnemonic)
        }),
{
}

proof fn lemma_mnemonic_table_inverse_jsr(mnemonic: Mnemonic, addrmode: AddrMode)
    requires
        mnemonic.spec_instr_type() == Type::Jsr,
        Type::Jsr.admits(addrmode),
    ensures
        ({
            let (a, b, c) = mnemonic.spec_fixed_fields();
            let value = Type::Jsr.field_of_mode(addrmode)->Some_0;
            mnemonic_of_fields(
                if Type::Jsr.mode_field() is A {
                    value
                } else {
                    a->Some_0
                },
                if Type::Jsr.mode_field() is B {
                    value
                } else {
                    b->Some_0
                },
                c->Some_0,
            ) == Some(mnemonic)
        }),
{
}

proof fn lemma_mnemonic_table_inverse_bch(mnemonic: Mnemonic, addrmode: AddrMode)
    requires
        mnemonic.spec_instr_type() == Type::Bch,
        Type::Bch.admits(addrmode),
    ensures
        ({
            let (a, b, c) = mnemonic.spec_fixed_fields();
            let value = Type::Bch.field_of_mode(addrmode)->Some_0;
            mnemonic_of_fields(
                if Type::Bch.mode_field() is A {
                    value
                } else {
                    a->Some_0
                },
                if Type::Bch.mode_field() is B {
                    value
                } else {
                    b->Some_0
                },
                c->Some_0,
            ) == Some(mnemonic)
        }),
{
}

proof fn lemma_mnemonic_table_inverse_imp(mnemonic: Mnemonic, addrmode: AddrMode)
    requires
        mnemonic.spec_instr_type() == Type::Imp,
        Type::Imp.admits(addrmode),
    ensures
        ({
            let (a, b, c) = mnemonic.spec_fixed_fields();
            let value = Type::Imp.field_of_mode(addrmode)->Some_0;
            mnemonic_of_fields(
                if Type::Imp.mode_field() is A {
                    value
                } else {
                    a->Some_0
                },
                if Type::Imp.mode_field() is B {
                    value
                } else {
                    b->Some_0
                },
                c->Some_0,
            ) == Some(mnemonic)
        }),
{
}

/// Decoding the byte that encodes a legal pair of mnemonic and addressing
/// mode gives the pair back.
pub proof fn lemma_round_trip(opcode: Opcode)
    requires
        opcode.legal(),
    ensures
        opcode.spec_to_bits() is Ok,
        Opcode::spec_from_bits(opcode.spec_to_bits()->Ok_0) == Ok::<Opcode, OpcodeError>(opcode),
{
    let bits = opcode.spec_to_bits()->Ok_0;
    lemma_encoded_fields(opcode);
    lemma_mnemonic_table_inverse(opcode.mnemonic, opcode.addrmode);
    assert(Mnemonic::spec_from_opcode_bits(bits) == Ok::<Mnemonic, OpcodeError>(opcode.mnemonic));
    lemma_mode_tables_inverse(
        opcode.mnemonic.spec_instr_type(),
        opcode.addrmode,
        spec_bits_a(bits),
        spec_bits_b(bits),
    );
}

/// Encoding what a byte decodes to gives a byte that decodes to the same
/// pair, though not always the byte itself.
pub proof fn lemma_decode_encode_decode(bits: u8)
    requires
        Opcode::spec_from_bits(bits) is Ok,
    ensures
        Opcode::spec_from_bits(bits)->Ok_0.legal(),
        Opcode::spec_from_bits(bits)->Ok_0.spec_to_bits() is Ok,
        Opcode::spec_from_bits(Opcode::spec_from_bits(bits)->Ok_0.spec_to_bits()->Ok_0)
            == Opcode::spec_from_bits(bits),
{
    lemma_round_trip(Opcode::spec_from_bits(bits)->Ok_0);
}

} // verus!
