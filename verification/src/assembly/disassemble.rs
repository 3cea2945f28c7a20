//! Disassembly: pairing decoded instructions with the addresses they stand
//! at, under a configuration for the text to come.

use crate::assembly::Syntax;
use crate::instruction::Instruction;
use vstd::prelude::*;

verus! {

/// The letter case of mnemonics and register names.
#[derive(Debug, Clone, Copy, PartialEq, Eq, PartialOrd, Ord, Hash, Structural)]
pub enum KeywordCase {
    Lower,
    Upper,
}

/// The radix of numbers.
#[derive(Debug, Clone, Copy, PartialEq, Eq, PartialOrd, Ord, Hash, Structural)]
pub enum Base {
    Decimal,
    Hex,
}

/// How assembly text is written.
#[derive(Debug, Clone, Copy, PartialEq, Eq, Structural)]
pub struct Config {
    pub syntax: Syntax,
    pub keyword_case: KeywordCase,
    pub base: Base,
    pub dump_orgs: bool,
}

impl Config {
    /// The configuration used where none is given: classic syntax, capital
    /// keywords, decimal numbers, no origin directives.
    pub open spec fn spec_default() -> Config {
        Config {
            syntax: Syntax::Classic,
            keyword_case: KeywordCase::Upper,
            base: Base::Decimal,
            dump_orgs: false,
        }
    }

    /// The configuration for showing a single value: as the default, but in
    /// the detailed syntax and with hexadecimal numbers.
    pub fn for_display() -> (config: Self)
        ensures
            config == (Config {
                syntax: Syntax::Detailed,
                base: Base::Hex,
                ..Self::spec_default()
            }),
    {
        Self {
            syntax: Syntax::Detailed,
            keyword_case: KeywordCase::Upper,
            base: Base::Hex,
            dump_orgs: false,
        }
    }
}

impl Default for Config {
    fn default() -> (config: Self)
        ensures
            config == Config::spec_default(),
    {
        Self {
            syntax: Syntax::Classic,
            keyword_case: KeywordCase::Upper,
            base: Base::Decimal,
            dump_orgs: false,
        }
    }
}

/// An instruction together with the address it is listed at.
#[derive(Debug, Clone, Copy, PartialEq, Eq, Structural)]
pub struct Addressed {
    pub address: u16,
    pub instruction: Instruction,
}

/// A counter of listing addresses with a configuration.
#[derive(Debug, Clone, Copy)]
pub struct Disassembler {
    address: u16,
    config: Config,
}

impl Disassembler {
    /// The address that the next instruction is listed at.
    pub closed spec fn spec_address(&self) -> u16 {
        self.address
    }

    /// The configuration of the disassembler.
    pub closed spec fn spec_config(&self) -> Config {
        self.config
    }

    /// A disassembler that starts at `address`, with the default
    /// configuration.
    pub fn new(address: u16) -> (disassembler: Self)
        ensures
            disassembler.spec_address() == address,
            disassembler.spec_config() == Config::spec_default(),
    {
        Self::with_config(address, Config::default())
    }

    /// A disassembler that starts at `address`, with `config`.
    pub fn with_config(address: u16, config: Config) -> (disassembler: Self)
        ensures
            disassembler.spec_address() == address,
            disassembler.spec_config() == config,
    {
        Self { address, config }
    }

    /// The address that the next instruction is listed at.
    pub fn address(&self) -> (address: u16)
        ensures
            address == self.spec_address(),
    {
        self.address
    }

    /// The configuration of the disassembler.
    pub fn config(&self) -> (config: Config)
        ensures
            config == self.spec_config(),
    {
        self.config
    }

    /// Lists `instruction` at the current address and moves the address on
    /// by one, with wraparound.
    pub fn next(&mut self, instruction: Instruction) -> (addressed: Addressed)
        ensures
            addressed == (Addressed { address: old(self).spec_address(), instruction }),
            final(self).spec_address() == old(self).spec_address().wrapping_add(1),
            final(self).spec_config() == old(self).spec_config(),
    {
        let addressed = Addressed { address: self.address, instruction };
        self.address = self.address.wrapping_add(1);
        addressed
    }
}

} // verus!
