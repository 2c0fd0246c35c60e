//! The programmer-visible registers of the CPU.

use crate::signals::Flags;
use vstd::prelude::*;

verus! {

/// The register file: accumulator, index registers, stack pointer, program
/// counter and status flags.
#[derive(Debug, Clone, Copy, PartialEq, Eq, Structural)]
pub struct Registers {
    /// The flags register, `P`.
    pub flags: Flags,
    /// The general purpose accumulator, `A`.
    pub a: u8,
    /// The first index register, `X`.
    pub x: u8,
    /// The second index register, `Y`.
    pub y: u8,
    /// The stack pointer, `S`; wraps within the fixed stack page.
    pub sp: u8,
    /// The program counter, `PC`.
    pub pc: u16,
}

} // verus!
