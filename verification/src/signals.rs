//! Bit-level signal sets: the status flags register and the I/O control pins.
//!
//! Both are fixed-width sets of named bits; every 8-bit value is a legal set,
//! so the operations are total and no validation is needed.

use vstd::prelude::*;

verus! {

/// The carry flag, `C`.
pub const FLAG_C: u8 = 0x01;
/// The zero flag, `Z`.
pub const FLAG_Z: u8 = 0x02;
/// The interrupt-disable flag, `I`.
pub const FLAG_I: u8 = 0x04;
/// The decimal-mode flag, `D`.
pub const FLAG_D: u8 = 0x08;
/// The break-origin bit as it appears in a pushed copy of the flags.
///
/// This bit is not independent CPU state: it exists only in the byte pushed
/// to the stack during a break sequence, set for a software break and clear
/// for a hardware interrupt.
pub const FLAG_B: u8 = 0x10;
/// The architecturally reserved bit; always 1 in a pushed copy of the flags.
pub const FLAG_U: u8 = 0x20;
/// The overflow flag, `V`.
pub const FLAG_V: u8 = 0x40;
/// The negative flag, `N`.
pub const FLAG_N: u8 = 0x80;

/// The synchronize output pin, `SYNC`: set by the core exactly on
/// opcode-fetch cycles.
pub const PIN_SYNC: u8 = 0x01;
/// The maskable interrupt-request input pin, `IRQ`.
pub const PIN_IRQ: u8 = 0x02;
/// The non-maskable interrupt-request input pin, `NMI`.
pub const PIN_NMI: u8 = 0x04;
/// The ready input pin, `RDY`: while deasserted, read cycles stall.
pub const PIN_RDY: u8 = 0x08;

/// The status flags register, `P`, as a set of bits.
#[derive(Debug, Clone, Copy, PartialEq, Eq, Structural)]
pub struct Flags {
    /// The raw 8-bit value of the register.
    pub bits: u8,
}

impl Flags {
    /// The empty set: every flag clear.
    pub fn empty() -> (r: Flags)
        ensures
            r.bits == 0,
    {
        Flags { bits: 0 }
    }

    /// Tests whether any bit of `mask` is set.
    pub fn contains(&self, mask: u8) -> (r: bool)
        ensures
            r == ((self.bits & mask) != 0),
    {
        self.bits & mask != 0
    }

    /// Sets every bit of `mask`.
    pub fn insert(&mut self, mask: u8)
        ensures
            final(self).bits == (old(self).bits | mask),
    {
        self.bits = self.bits | mask;
    }

    /// Clears every bit of `mask`.
    pub fn remove(&mut self, mask: u8)
        ensures
            final(self).bits == (old(self).bits & !mask),
    {
        self.bits = self.bits & !mask;
    }
}

/// The I/O control pins as a set of bits.
#[derive(Debug, Clone, Copy, PartialEq, Eq, Structural)]
pub struct Pins {
    /// The raw 8-bit value of the pin register.
    pub bits: u8,
}

impl Pins {
    /// The empty set: every pin deasserted.
    pub fn empty() -> (r: Pins)
        ensures
            r.bits == 0,
    {
        Pins { bits: 0 }
    }

    /// Tests whether any bit of `mask` is set.
    pub fn contains(&self, mask: u8) -> (r: bool)
        ensures
            r == ((self.bits & mask) != 0),
    {
        self.bits & mask != 0
    }

    /// Sets every bit of `mask`.
    pub fn insert(&mut self, mask: u8)
        ensures
            final(self).bits == (old(self).bits | mask),
    {
        self.bits = self.bits | mask;
    }

    /// Clears every bit of `mask`.
    pub fn remove(&mut self, mask: u8)
        ensures
            final(self).bits == (old(self).bits & !mask),
    {
        self.bits = self.bits & !mask;
    }
}

} // verus!
