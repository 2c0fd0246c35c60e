//! A cycle-accurate model of a 6502-family CPU core.
//!
//! The core reproduces the chip's per-cycle timing: an eight-state timing
//! control unit, shift-register interrupt pipelines with per-class
//! recognition windows, pin-level ready/stall handling, and the scheduler
//! that decides at each fetch boundary whether to service an interrupt.
//! The per-opcode micro-operation table is a pluggable collaborator; the
//! break/interrupt entry sequence, which every interrupt class reuses, is
//! part of the core.

pub mod bus;
pub mod cpu;
pub mod interrupt;
pub mod pipeline;
pub mod regs;
pub mod signals;
pub mod tcu;

pub use bus::Bus;
pub use cpu::Cpu;
pub use cpu::MicroOps;
pub use cpu::MicroResult;
pub use interrupt::Interrupt;
pub use pipeline::Pipeline;
pub use regs::Registers;
pub use signals::Flags;
pub use signals::Pins;
pub use tcu::State;
pub use tcu::Tcu;
