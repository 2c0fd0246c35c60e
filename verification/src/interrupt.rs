//! The interrupt classes and their vector table addresses.

use vstd::prelude::*;

verus! {

/// The base address of the non-maskable-interrupt vector pair.
pub const VEC_NMI: u16 = 0xfffa;

/// The base address of the reset vector pair.
pub const VEC_RES: u16 = 0xfffc;

/// The base address of the vector pair shared by software breaks and
/// maskable interrupts.
pub const VEC_BRK: u16 = 0xfffe;

/// The classes of interrupt the CPU can service.
#[derive(Debug, Clone, Copy, PartialEq, Eq, Structural)]
pub enum Interrupt {
    /// A software requested break interrupt.
    Brk,
    /// An externally requested maskable interrupt.
    Irq,
    /// An externally requested non-maskable interrupt.
    Nmi,
    /// An externally requested reset interrupt.
    Res,
}

/// The address of the low byte of the vector pair of an interrupt class;
/// the high byte lives at the next address.
pub open spec fn spec_vector(i: Interrupt) -> u16 {
    match i {
        Interrupt::Brk => VEC_BRK,
        Interrupt::Irq => VEC_BRK,
        Interrupt::Nmi => VEC_NMI,
        Interrupt::Res => VEC_RES,
    }
}

impl Interrupt {
    /// The address of the low byte of this class's vector pair.
    pub fn vector(&self) -> (r: u16)
        ensures
            r == spec_vector(*self),
    {
        match self {
            Interrupt::Brk => VEC_BRK,
            Interrupt::Irq => VEC_BRK,
            Interrupt::Nmi => VEC_NMI,
            Interrupt::Res => VEC_RES,
        }
    }
}

} // verus!
