//! Assembly text: the choices that govern how instructions are written out.

pub mod disassemble;

use vstd::prelude::*;

verus! {

/// The dialect of assembly text.
#[derive(Debug, Clone, Copy, PartialEq, Eq, PartialOrd, Ord, Hash, Structural)]
pub enum Syntax {
    /// The syntax of the classic assemblers.
    Classic,
    /// The syntax of this project.
    Atats,
    /// A syntax that spells out every addressing mode.
    Detailed,
}

} // verus!
