//! The memory bus: one transaction per cycle between the core and its peer.

use vstd::prelude::*;

verus! {

/// One bus transaction: a 16-bit address, an 8-bit data byte, and the
/// direction of the access.
///
/// The core fully overwrites the address and direction on every non-stalled
/// cycle. After a step returns, the peer services the transaction: on a read
/// it places the data on the bus before the next step; on a write it
/// consumes the data the core placed there.
#[derive(Debug, Clone, Copy, PartialEq, Eq, Structural)]
pub struct Bus {
    /// The 16-bit address bus, `A0`-`A15`.
    pub addr: u16,
    /// The 8-bit data bus, `D0`-`D7`.
    pub data: u8,
    /// The access direction, `R/W`: true for a write, false for a read.
    pub write: bool,
}

} // verus!
