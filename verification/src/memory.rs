//! The memory of the machine: a small RAM, a one-page stack and a banked ROM,
//! each mapped at a fixed window of the 16-bit address space.

use crate::error::{BankError, ReadError, WriteError};
use vstd::prelude::*;

verus! {

/// The mathematical content of a [`Memory`].
pub struct MemoryView {
    /// The bytes of the RAM window, by offset into the window.
    pub ram: Seq<u8>,
    /// The bytes of the stack window, by offset into the window.
    pub stack: Seq<u8>,
    /// The bytes of every ROM bank, by bank index and offset into the window.
    pub banks: Seq<Seq<u8>>,
    /// The index of the bank that backs the ROM window.
    pub selected: u8,
}

/// Whether `address` lies in the RAM window.
pub open spec fn in_ram(address: u16) -> bool {
    0x80 <= address < 0x100
}

/// Whether `address` lies in the stack window.
pub open spec fn in_stack(address: u16) -> bool {
    0x100 <= address < 0x200
}

/// Whether `address` lies in the ROM window.
pub open spec fn in_rom(address: u16) -> bool {
    0xF000 <= address
}

impl MemoryView {
    /// Every region has its fixed size, there is at least one bank, and the
    /// selection names an existing bank.
    pub open spec fn wf(self) -> bool {
        &&& self.ram.len() == 0x80
        &&& self.stack.len() == 0x100
        &&& 1 <= self.banks.len()
        &&& (self.selected as int) < self.banks.len()
        &&& forall|i: int| 0 <= i < self.banks.len() ==> (#[trigger] self.banks[i]).len() == 0x1000
    }

    /// The byte found at `address`, or the error for an unmapped address.
    pub open spec fn read(self, address: u16) -> Result<u8, ReadError> {
        if in_ram(address) {
            Ok(self.ram[address - 0x80])
        } else if in_stack(address) {
            Ok(self.stack[address - 0x100])
        } else if in_rom(address) {
            Ok(self.banks[self.selected as int][address - 0xF000])
        } else {
            Err(ReadError { address })
        }
    }

    /// The memory after storing `data` at `address`, or the error for an
    /// address outside RAM and stack.
    pub open spec fn write(self, address: u16, data: u8) -> Result<MemoryView, WriteError> {
        if in_ram(address) {
            Ok(MemoryView { ram: self.ram.update(address - 0x80, data), ..self })
        } else if in_stack(address) {
            Ok(MemoryView { stack: self.stack.update(address - 0x100, data), ..self })
        } else {
            Err(WriteError { address })
        }
    }

    /// The memory after selecting `bank`, or the error for a missing bank.
    pub open spec fn select_bank(self, bank: u8) -> Result<MemoryView, BankError> {
        if (bank as int) < self.banks.len() {
            Ok(MemoryView { selected: bank, ..self })
        } else {
            Err(BankError { bank })
        }
    }
}

/// 128 bytes of RAM, mapped at `0x80..0x100`.
#[derive(Debug)]
pub struct Ram {
    bytes: [u8; 0x80],
}

impl Ram {
    /// The number of bytes in the RAM.
    pub const SIZE: usize = 0x80;

    /// The address of the first byte of the RAM.
    pub const OFFSET: u16 = 0x80;

    /// The bytes of the RAM, by offset.
    pub closed spec fn view(&self) -> Seq<u8> {
        self.bytes@
    }

    /// The outcome of reading `address` from RAM with content `bytes`.
    pub open spec fn spec_read(bytes: Seq<u8>, address: u16) -> Result<u8, ReadError> {
        if in_ram(address) {
            Ok(bytes[address - 0x80])
        } else {
            Err(ReadError { address })
        }
    }

    /// A RAM filled with zeroes.
    pub fn new() -> (ram: Self)
        ensures
            ram@ =~= Seq::new(0x80, |i: int| 0u8),
    {
        Self { bytes: [0; 0x80] }
    }

    /// Reads the byte at `address`.
    pub fn read(&self, address: u16) -> (result: Result<u8, ReadError>)
        ensures
            self@.len() == 0x80,
            result == Self::spec_read(self@, address),
    {
        if 0x80 <= address && address < 0x100 {
            Ok(self.bytes[(address - 0x80) as usize])
        } else {
            Err(ReadError { address })
        }
    }

    /// Stores `data` at `address`. Outside the window nothing changes.
    pub fn write(&mut self, address: u16, data: u8) -> (result: Result<(), WriteError>)
        ensures
            final(self)@.len() == 0x80,
            in_ram(address) ==> result == Ok::<(), WriteError>(()),
            in_ram(address) ==> final(self)@ == old(self)@.update(address - 0x80, data),
            !in_ram(address) ==> result == Err::<(), WriteError>(WriteError { address }),
            !in_ram(address) ==> final(self)@ == old(self)@,
    {
        if 0x80 <= address && address < 0x100 {
            self.bytes[(address - 0x80) as usize] = data;
            Ok(())
        } else {
            Err(WriteError { address })
        }
    }
}

impl Clone for Ram {
    /// A RAM with the same content.
    fn clone(&self) -> (ram: Self)
        ensures
            ram@ == self@,
    {
        Self { bytes: self.bytes }
    }
}

/// One page of stack, mapped at `0x100..0x200`.
#[derive(Debug)]
pub struct Stack {
    bytes: [u8; 0x100],
}

impl Stack {
    /// The number of bytes in the stack.
    pub const SIZE: usize = 0x100;

    /// The address of the first byte of the stack.
    pub const OFFSET: u16 = 0x100;

    /// The bytes of the stack, by offset.
    pub closed spec fn view(&self) -> Seq<u8> {
        self.bytes@
    }

    /// The outcome of reading `address` from a stack with content `bytes`.
    pub open spec fn spec_read(bytes: Seq<u8>, address: u16) -> Result<u8, ReadError> {
        if in_stack(address) {
            Ok(bytes[address - 0x100])
        } else {
            Err(ReadError { address })
        }
    }

    /// A stack filled with zeroes.
    pub fn new() -> (stack: Self)
        ensures
            stack@ =~= Seq::new(0x100, |i: int| 0u8),
    {
        Self { bytes: [0; 0x100] }
    }

    /// Reads the byte at `address`.
    pub fn read(&self, address: u16) -> (result: Result<u8, ReadError>)
        ensures
            self@.len() == 0x100,
            result == Self::spec_read(self@, address),
    {
        if 0x100 <= address && address < 0x200 {
            Ok(self.bytes[(address - 0x100) as usize])
        } else {
            Err(ReadError { address })
        }
    }

    /// Stores `data` at `address`. Outside the window nothing changes.
    pub fn write(&mut self, address: u16, data: u8) -> (result: Result<(), WriteError>)
        ensures
            final(self)@.len() == 0x100,
            in_stack(address) ==> result == Ok::<(), WriteError>(()),
            in_stack(address) ==> final(self)@ == old(self)@.update(address - 0x100, data),
            !in_stack(address) ==> result == Err::<(), WriteError>(WriteError { address }),
            !in_stack(address) ==> final(self)@ == old(self)@,
    {
        if 0x100 <= address && address < 0x200 {
            self.bytes[(address - 0x100) as usize] = data;
            Ok(())
        } else {
            Err(WriteError { address })
        }
    }
}

impl Clone for Stack {
    /// A stack with the same content.
    fn clone(&self) -> (stack: Self)
        ensures
            stack@ == self@,
    {
        Self { bytes: self.bytes }
    }
}

/// One bank of 4096 read-only bytes, mapped at `0xF000..=0xFFFF` while it is
/// selected.
#[derive(Debug)]
pub struct RomBank {
    bytes: [u8; 0x1000],
}

impl RomBank {
    /// The number of bytes in a bank.
    pub const SIZE: usize = 0x1000;

    /// The address of the first byte of the ROM window.
    pub const OFFSET: u16 = 0xF000;

    /// The bytes of the bank, by offset.
    pub closed spec fn view(&self) -> Seq<u8> {
        self.bytes@
    }

    /// The outcome of reading `address` from a bank with content `bytes`.
    pub open spec fn spec_read(bytes: Seq<u8>, address: u16) -> Result<u8, ReadError> {
        if in_rom(address) {
            Ok(bytes[address - 0xF000])
        } else {
            Err(ReadError { address })
        }
    }

    /// A bank that holds `content`.
    pub fn new(content: [u8; 0x1000]) -> (bank: Self)
        ensures
            bank@ == content@,
    {
        Self { bytes: content }
    }

    /// A bank that holds a copy of `slice`, if `slice` has exactly the size
    /// of a bank.
    pub fn try_new(slice: &[u8]) -> (bank: Option<Self>)
        ensures
            slice@.len() == 0x1000 ==> bank is Some && bank->0@ == slice@,
            slice@.len() != 0x1000 ==> bank is None,
    {
        if slice.len() != 0x1000 {
            return None;
        }
        let mut bytes = [0u8; 0x1000];
        let mut i: usize = 0;
        while i < 0x1000
            invariant
                i <= 0x1000,
                slice@.len() == 0x1000,
                forall|k: int| 0 <= k < i ==> bytes@[k] == slice@[k],
            decreases 0x1000 - i,
        {
            bytes[i] = slice[i];
            i += 1;
        }
        assert(bytes@ =~= slice@);
        Some(Self { bytes })
    }

    /// Reads the byte at `address`.
    pub fn read(&self, address: u16) -> (result: Result<u8, ReadError>)
        ensures
            self@.len() == 0x1000,
            result == Self::spec_read(self@, address),
    {
        if 0xF000 <= address {
            Ok(self.bytes[(address - 0xF000) as usize])
        } else {
            Err(ReadError { address })
        }
    }
}

impl Clone for RomBank {
    /// A bank with the same content.
    fn clone(&self) -> (bank: Self)
        ensures
            bank@ == self@,
    {
        Self { bytes: self.bytes }
    }
}

/// The content of a ROM: its banks and the index of the selected one.
pub struct RomView {
    pub banks: Seq<Seq<u8>>,
    pub selected: u8,
}

impl RomView {
    /// The ROM after selecting `bank`, or the error for a missing bank.
    pub open spec fn select_bank(self, bank: u8) -> Result<RomView, BankError> {
        if (bank as int) < self.banks.len() {
            Ok(RomView { selected: bank, ..self })
        } else {
            Err(BankError { bank })
        }
    }

    /// There is at least one bank, every bank has its fixed size, and the
    /// selection names an existing bank.
    pub open spec fn wf(self) -> bool {
        &&& 1 <= self.banks.len()
        &&& (self.selected as int) < self.banks.len()
        &&& forall|i: int| 0 <= i < self.banks.len() ==> (#[trigger] self.banks[i]).len() == 0x1000
    }
}

/// A ROM of one or more banks, one of which backs the ROM window.
#[derive(Debug)]
pub struct Rom {
    banks: Vec<RomBank>,
    selected: u8,
}

impl Rom {
    #[verifier::type_invariant]
    spec fn inv(&self) -> bool {
        (self.selected as int) < self.banks@.len()
    }

    /// The banks and the selection of the ROM.
    pub closed spec fn view(&self) -> RomView {
        RomView {
            banks: Seq::new(self.banks@.len(), |i: int| self.banks@[i]@),
            selected: self.selected,
        }
    }

    /// A ROM of `default_bank` followed by `additional_banks`, with
    /// `default_bank` selected.
    pub fn new(default_bank: RomBank, additional_banks: Vec<RomBank>) -> (rom: Self)
        ensures
            rom@.wf(),
            rom@.selected == 0,
            rom@.banks =~= seq![default_bank@] + Seq::new(
                additional_banks@.len(),
                |i: int| additional_banks@[i]@,
            ),
    {
        let mut banks = additional_banks;
        banks.insert(0, default_bank);
        let rom = Self { banks, selected: 0 };
        proof {
            rom.lemma_view_wf();
        }
        rom
    }

    proof fn lemma_view_wf(&self)
        requires
            self.inv(),
        ensures
            self@.wf(),
    {
        assert forall|i: int| 0 <= i < self@.banks.len() implies (#[trigger] self@.banks[i]).len()
            == 0x1000 by {
            assert(self.banks@[i]@.len() == 0x1000);
        }
    }

    /// The number of banks.
    pub fn banks(&self) -> (count: usize)
        ensures
            self@.wf(),
            count == self@.banks.len(),
    {
        proof {
            use_type_invariant(self);
            self.lemma_view_wf();
        }
        self.banks.len()
    }

    /// The index of the selected bank.
    pub fn selected_index(&self) -> (index: u8)
        ensures
            self@.wf(),
            index == self@.selected,
    {
        proof {
            use_type_invariant(self);
            self.lemma_view_wf();
        }
        self.selected
    }

    /// Selects `bank`, if there is such a bank. Otherwise nothing changes.
    pub fn select_bank(&mut self, bank: u8) -> (result: Result<(), BankError>)
        ensures
            final(self)@.wf(),
            final(self)@.banks == old(self)@.banks,
            match RomView::select_bank(old(self)@, bank) {
                Ok(rom) => result == Ok::<(), BankError>(()) && final(self)@ == rom,
                Err(error) => result == Err::<(), BankError>(error) && final(self)@ == old(self)@,
            },
    {
        proof {
            use_type_invariant(&*self);
        }
        let result = if (bank as usize) < self.banks.len() {
            self.selected = bank;
            Ok(())
        } else {
            Err(BankError { bank })
        };
        proof {
            self.lemma_view_wf();
        }
        result
    }

    /// The selected bank.
    pub fn selected_bank(&self) -> (bank: &RomBank)
        ensures
            self@.wf(),
            bank@ == self@.banks[self@.selected as int],
    {
        proof {
            use_type_invariant(self);
            self.lemma_view_wf();
        }
        &self.banks[self.selected as usize]
    }

    /// Reads the byte at `address` from the selected bank.
    pub fn read(&self, address: u16) -> (result: Result<u8, ReadError>)
        ensures
            self@.wf(),
            result == RomBank::spec_read(self@.banks[self@.selected as int], address),
    {
        self.selected_bank().read(address)
    }
}

impl Clone for Rom {
    /// A ROM with the same banks and the same selection.
    fn clone(&self) -> (rom: Self)
        ensures
            rom@ == self@,
    {
        proof {
            use_type_invariant(self);
        }
        let mut banks: Vec<RomBank> = Vec::new();
        let mut i: usize = 0;
        while i < self.banks.len()
            invariant
                i <= self.banks@.len(),
                banks@.len() == i,
                forall|k: int| 0 <= k < i ==> banks@[k]@ == self.banks@[k]@,
            decreases self.banks@.len() - i,
        {
            banks.push(self.banks[i].clone());
            i += 1;
        }
        let rom = Self { banks, selected: self.selected };
        assert(rom@.banks =~= self@.banks);
        rom
    }
}

/// The whole memory of a machine.
#[derive(Debug)]
pub struct Memory {
    ram: Ram,
    stack: Stack,
    rom: Rom,
}

impl Memory {
    /// Where the program counter is loaded from on a non-maskable interrupt.
    pub const NMI_VECTOR: u16 = 0xfffa;

    /// Where the program counter is loaded from on a reset.
    pub const RES_VECTOR: u16 = 0xfffc;

    /// Where the program counter is loaded from on an interrupt request.
    pub const IRQ_VECTOR: u16 = 0xfffe;

    /// The content of the memory.
    pub closed spec fn view(&self) -> MemoryView {
        MemoryView {
            ram: self.ram@,
            stack: self.stack@,
            banks: self.rom@.banks,
            selected: self.rom@.selected,
        }
    }

    proof fn lemma_view_wf(&self)
        requires
            self.rom.inv(),
        ensures
            self@.wf(),
    {
        self.rom.lemma_view_wf();
    }

    /// A memory made of the three regions.
    pub fn new(ram: Ram, stack: Stack, rom: Rom) -> (memory: Self)
        ensures
            memory@.wf(),
            memory@ == (MemoryView {
                ram: ram@,
                stack: stack@,
                banks: rom@.banks,
                selected: rom@.selected,
            }),
    {
        proof {
            use_type_invariant(&rom);
            rom.lemma_view_wf();
        }
        Self { ram, stack, rom }
    }

    /// A copy of the ROM.
    pub fn rom(&self) -> (rom: Rom)
        ensures
            self@.wf(),
            rom@.banks == self@.banks,
            rom@.selected == self@.selected,
    {
        proof {
            use_type_invariant(&self.rom);
            self.lemma_view_wf();
        }
        self.rom.clone()
    }

    /// The number of ROM banks.
    pub fn banks(&self) -> (count: usize)
        ensures
            self@.wf(),
            count == self@.banks.len(),
    {
        self.rom.banks()
    }

    /// The index of the selected ROM bank.
    pub fn selected_bank(&self) -> (index: u8)
        ensures
            self@.wf(),
            index == self@.selected,
    {
        self.rom.selected_index()
    }

    /// Selects the ROM bank `bank`, if there is such a bank. Otherwise
    /// nothing changes.
    pub fn select_bank(&mut self, bank: u8) -> (result: Result<(), BankError>)
        ensures
            final(self)@.wf(),
            match old(self)@.select_bank(bank) {
                Ok(memory) => result == Ok::<(), BankError>(()) && final(self)@ == memory,
                Err(error) => result == Err::<(), BankError>(error) && final(self)@ == old(self)@,
            },
    {
        self.rom.select_bank(bank)
    }

    /// Reads the byte at `address`: from RAM, from the stack or from the
    /// selected ROM bank, whichever maps the address.
    pub fn read(&self, address: u16) -> (result: Result<u8, ReadError>)
        ensures
            self@.wf(),
            result == self@.read(address),
    {
        proof {
            use_type_invariant(&self.rom);
            self.lemma_view_wf();
        }
        match self.ram.read(address) {
            Ok(byte) => Ok(byte),
            Err(_) => match self.stack.read(address) {
                Ok(byte) => Ok(byte),
                Err(_) => self.rom.read(address),
            },
        }
    }

    /// Stores `data` at `address`, in RAM or in the stack, whichever maps the
    /// address. Where neither does, nothing changes.
    pub fn write(&mut self, address: u16, data: u8) -> (result: Result<(), WriteError>)
        ensures
            final(self)@.wf(),
            match old(self)@.write(address, data) {
                Ok(memory) => result == Ok::<(), WriteError>(()) && final(self)@ == memory,
                Err(error) => result == Err::<(), WriteError>(error) && final(self)@ == old(self)@,
            },
    {
        proof {
            use_type_invariant(&self.rom);
            self.lemma_view_wf();
        }
        match self.ram.write(address, data) {
            Ok(()) => Ok(()),
            Err(_) => self.stack.write(address, data),
        }
    }
}

impl Clone for Memory {
    /// A memory with the same content.
    fn clone(&self) -> (memory: Self)
        ensures
            memory@ == self@,
    {
        Self { ram: self.ram.clone(), stack: self.stack.clone(), rom: self.rom.clone() }
    }
}

} // verus!
