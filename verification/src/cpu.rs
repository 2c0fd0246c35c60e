//! The CPU aggregate and its one per-cycle step operation.

use crate::bus::Bus;
use crate::interrupt::Interrupt;
use crate::interrupt::spec_vector;
use crate::pipeline::IRQ_MASK;
use crate::pipeline::NMI_MASK;
use crate::pipeline::PIPELINE_INPUT_BIT;
use crate::pipeline::PIPELINE_TRIM_MASK;
use crate::pipeline::Pipeline;
use crate::regs::Registers;
use crate::signals::FLAG_B;
use crate::signals::FLAG_I;
use crate::signals::FLAG_U;
use crate::signals::Flags;
use crate::signals::PIN_IRQ;
use crate::signals::PIN_NMI;
use crate::signals::PIN_RDY;
use crate::signals::PIN_SYNC;
use crate::signals::Pins;
use crate::tcu::State;
use crate::tcu::Tcu;
use crate::tcu::next_state;
use vstd::prelude::*;

verus! {

/// The opcode value of the `BRK` instruction.
pub const BRK: u8 = 0x00;

/// The table's verdict for one executed cycle.
#[derive(Debug, Clone, Copy, PartialEq, Eq, Structural)]
pub enum MicroResult {
    /// The instruction has more cycles to run.
    Continue,
    /// This was the instruction's final cycle; the next cycle fetches.
    Done,
    /// The fetched opcode is an undefined, halting one: the CPU jams.
    Jam,
}

/// The per-opcode micro-operation table, the core's pluggable collaborator.
///
/// Keyed by opcode byte and timing position, one call performs this cycle's
/// bus transaction and register or address-latch mutation and reports
/// whether the instruction is finished. The break sequence is not routed
/// through the table: interrupt entry is core behavior, and every interrupt
/// class reuses it.
pub trait MicroOps {
    /// Executes one cycle of `opcode` at timing position `t`.
    fn exec(
        &mut self,
        opcode: u8,
        t: State,
        regs: &mut Registers,
        adl: &mut u16,
        bus: &mut Bus,
    ) -> MicroResult;
}

/// The 6502-family CPU core.
#[derive(Debug, Clone, Copy, PartialEq, Eq, Structural)]
pub struct Cpu {
    /// The I/O control pins.
    pub pins: Pins,
    /// The memory bus.
    pub bus: Bus,
    /// The registers.
    pub regs: Registers,
    /// Whether the CPU is jammed: set on fetching a halting opcode; once
    /// set, steps perform no bus transaction until an external reset.
    pub jammed: bool,
    /// The next interrupt class a break sequence will dispatch. Consulted
    /// only when such a sequence runs, never polled independently.
    pub schedule: Interrupt,
    /// The previous `NMI` pin sample, for edge detection.
    pub nmi_edge: bool,
    /// The timing pipeline for maskable interrupts.
    pub irq_pip: Pipeline,
    /// The timing pipeline for non-maskable interrupts.
    pub nmi_pip: Pipeline,
    /// The internal address-decode latch: scratch state owned by the
    /// instruction in flight.
    pub adl: u16,
    /// The opcode currently being executed.
    pub opcode: u8,
    /// The timing control unit.
    pub tcu: Tcu,
}

/// The freshly constructed state: signal sets empty but for the given pin
/// levels, registers zeroed, pipelines empty, a break opcode in flight with
/// the reset class scheduled, and the timing counter parked before the
/// fetch position.
pub open spec fn reset_state(pins: Pins) -> Cpu {
    Cpu {
        pins: pins,
        bus: Bus { addr: 0, data: 0, write: false },
        regs: Registers {
            flags: Flags { bits: 0 },
            a: 0,
            x: 0,
            y: 0,
            sp: 0,
            pc: 0,
        },
        jammed: false,
        schedule: Interrupt::Res,
        nmi_edge: false,
        irq_pip: Pipeline { mask: IRQ_MASK, data: 0 },
        nmi_pip: Pipeline { mask: NMI_MASK, data: 0 },
        adl: 0,
        opcode: BRK,
        tcu: Tcu { state: State::T7 },
    }
}

/// Whether any pin of `mask` is asserted.
pub open spec fn spec_pin(p: Pins, mask: u8) -> bool {
    p.bits & mask != 0
}

/// Whether the non-maskable pipeline latches an entry this cycle: only on a
/// rising edge of the pin, never on a held level.
pub open spec fn nmi_registers(prev_edge: bool, pin: bool) -> bool {
    pin && !prev_edge
}

/// The register value after this cycle's latch: the input bit ORed in when
/// a registration happens.
pub open spec fn pip_input(d: u16, registers: bool) -> u16 {
    if registers {
        d | PIPELINE_INPUT_BIT
    } else {
        d
    }
}

/// The state after the per-cycle interrupt-input sampling: the non-maskable
/// pin's edge is detected and latched, the maskable pin's level is latched,
/// and both pipelines shift one position.
pub open spec fn after_sample(s: Cpu) -> Cpu {
    Cpu {
        nmi_edge: spec_pin(s.pins, PIN_NMI),
        nmi_pip: Pipeline {
            mask: s.nmi_pip.mask,
            data: pip_input(
                s.nmi_pip.data,
                nmi_registers(s.nmi_edge, spec_pin(s.pins, PIN_NMI)),
            ) << 1u16,
        },
        irq_pip: Pipeline {
            mask: s.irq_pip.mask,
            data: pip_input(s.irq_pip.data, spec_pin(s.pins, PIN_IRQ)) << 1u16,
        },
        ..s
    }
}

/// Whether this cycle stalls: the ready pin is deasserted while the
/// transaction on the bus is a read. Write cycles never stall.
pub open spec fn stalls(s: Cpu) -> bool {
    !spec_pin(s.pins, PIN_RDY) && !s.bus.write
}

/// The state after both pipelines undo their speculative shift, on a cycle
/// retroactively treated as not having happened.
pub open spec fn undone(s: Cpu) -> Cpu {
    Cpu {
        nmi_pip: Pipeline { mask: s.nmi_pip.mask, data: s.nmi_pip.data >> 1u16 },
        irq_pip: Pipeline { mask: s.irq_pip.mask, data: s.irq_pip.data >> 1u16 },
        ..s
    }
}

/// The state after the timing counter advances.
pub open spec fn advanced(s: Cpu) -> Cpu {
    Cpu { tcu: Tcu { state: next_state(s.tcu.state) }, ..s }
}

/// The state with the synchronize pin cleared, on every non-fetch cycle.
pub open spec fn desync(s: Cpu) -> Cpu {
    Cpu { pins: Pins { bits: s.pins.bits & !PIN_SYNC }, ..s }
}

/// The program counter's successor, wrapping at the top of the address
/// space.
pub open spec fn wrap_inc(w: u16) -> u16 {
    if w == 0xffff {
        0
    } else {
        (w + 1) as u16
    }
}

/// The stack pointer's predecessor, wrapping within the fixed stack page.
pub open spec fn wrap_dec(b: u8) -> u8 {
    if b == 0 {
        0xff
    } else {
        (b - 1) as u8
    }
}

/// The address of the stack slot the pointer names.
pub open spec fn stack_addr(sp: u8) -> u16 {
    (0x0100 + sp) as u16
}

/// The image of the flags pushed during a break sequence: the reserved bit
/// always reads as one, and the break-origin bit is set exactly for a
/// software break.
pub open spec fn pushed_flags(f: Flags, class: Interrupt) -> u8 {
    if class == Interrupt::Brk {
        f.bits | (FLAG_U | FLAG_B)
    } else {
        f.bits | FLAG_U
    }
}

/// The fetch-boundary transition, taken on the state already sampled and
/// advanced to the fetch position: the synchronize pin is asserted, a read
/// of the next opcode is issued at the program counter, and the scheduler
/// resolves which class, if any, hijacks the fetched byte. A serviceable
/// non-maskable request wins over a serviceable, unmasked maskable request;
/// an accepted pipeline is trimmed; with neither, a pending reset hijacks;
/// otherwise the schedule keeps its prior value and the fetch is normal.
pub open spec fn fetch_cycle(s: Cpu) -> Cpu {
    let base = Cpu {
        pins: Pins { bits: s.pins.bits | PIN_SYNC },
        bus: Bus { addr: s.regs.pc, data: s.bus.data, write: false },
        ..s
    };
    if s.nmi_pip.data & s.nmi_pip.mask != 0 {
        Cpu {
            nmi_pip: Pipeline {
                mask: s.nmi_pip.mask,
                data: s.nmi_pip.data & PIPELINE_TRIM_MASK,
            },
            schedule: Interrupt::Nmi,
            opcode: BRK,
            ..base
        }
    } else if (s.irq_pip.data & s.irq_pip.mask != 0) && s.regs.flags.bits & FLAG_I == 0 {
        Cpu {
            irq_pip: Pipeline {
                mask: s.irq_pip.mask,
                data: s.irq_pip.data & PIPELINE_TRIM_MASK,
            },
            schedule: Interrupt::Irq,
            opcode: BRK,
            ..base
        }
    } else if s.schedule == Interrupt::Res {
        Cpu { opcode: BRK, ..base }
    } else {
        base
    }
}

/// The decode step taken at the second timing position: on a normal fetch
/// (no interrupt class hijacked the boundary, so the schedule rests at the
/// software-break class) the byte the peer placed on the bus becomes the
/// opcode and the program counter moves past it; on a hijacked fetch the
/// break opcode forced at the boundary stands and the counter is untouched.
pub open spec fn decoded(s: Cpu) -> Cpu {
    if s.tcu.state == State::T1 && s.schedule == Interrupt::Brk {
        Cpu {
            opcode: s.bus.data,
            regs: Registers { pc: wrap_inc(s.regs.pc), ..s.regs },
            ..s
        }
    } else {
        s
    }
}

/// The state a non-fetch cycle executes from: sampled, advanced, the
/// synchronize pin cleared, and the fetched byte decoded.
pub open spec fn executing(s: Cpu) -> Cpu {
    decoded(desync(advanced(after_sample(s))))
}

/// One cycle of the break sequence, which every interrupt class reuses:
/// read past the padding byte (consumed only by a software break), push the
/// return address and the flags image (pushes become reads during a reset),
/// set the interrupt-disable flag, fetch the class's vector into the
/// program counter, re-arm the schedule at its software-break resting
/// value, and park the timing counter before the next fetch. At the fetch
/// position, which [`fetch_cycle`] owns, the state passes through
/// unchanged.
pub open spec fn brk_cycle(s: Cpu) -> Cpu {
    match s.tcu.state {
        State::T0 => s,
        State::T1 => Cpu {
            bus: Bus { addr: s.regs.pc, data: s.bus.data, write: false },
            regs: if s.schedule == Interrupt::Brk {
                Registers { pc: wrap_inc(s.regs.pc), ..s.regs }
            } else {
                s.regs
            },
            ..s
        },
        State::T2 => Cpu {
            bus: Bus {
                addr: stack_addr(s.regs.sp),
                data: (s.regs.pc >> 8u16) as u8,
                write: s.schedule != Interrupt::Res,
            },
            regs: Registers { sp: wrap_dec(s.regs.sp), ..s.regs },
            ..s
        },
        State::T3 => Cpu {
            bus: Bus {
                addr: stack_addr(s.regs.sp),
                data: (s.regs.pc & 0xff) as u8,
                write: s.schedule != Interrupt::Res,
            },
            regs: Registers { sp: wrap_dec(s.regs.sp), ..s.regs },
            ..s
        },
        State::T4 => Cpu {
            bus: Bus {
                addr: stack_addr(s.regs.sp),
                data: pushed_flags(s.regs.flags, s.schedule),
                write: s.schedule != Interrupt::Res,
            },
            regs: Registers { sp: wrap_dec(s.regs.sp), ..s.regs },
            ..s
        },
        State::T5 => Cpu {
            bus: Bus { addr: spec_vector(s.schedule), data: s.bus.data, write: false },
            regs: Registers {
                flags: Flags { bits: s.regs.flags.bits | FLAG_I },
                ..s.regs
            },
            ..s
        },
        State::T6 => Cpu {
            adl: s.bus.data as u16,
            bus: Bus {
                addr: (spec_vector(s.schedule) + 1) as u16,
                data: s.bus.data,
                write: false,
            },
            ..s
        },
        State::T7 => Cpu {
            regs: Registers {
                pc: ((s.bus.data as u16) << 8u16) | s.adl,
                ..s.regs
            },
            schedule: Interrupt::Brk,
            bus: Bus {
                addr: ((s.bus.data as u16) << 8u16) | s.adl,
                data: s.bus.data,
                write: false,
            },
            tcu: Tcu { state: State::T7 },
            ..s
        },
    }
}

/// Whether a step from `s` dispatches a cycle to the micro-operation table:
/// a non-stalled, non-jammed, non-fetch cycle whose instruction in flight
/// is not the break sequence.
pub open spec fn dispatches(s: Cpu) -> bool {
    &&& !s.jammed
    &&& !stalls(s)
    &&& next_state(s.tcu.state) != State::T0
    &&& executing(s).opcode != BRK
}

impl Cpu {
    /// Creates a CPU in the constructed state, with every pin deasserted.
    #[must_use]
    pub fn new() -> (r: Cpu)
        ensures
            r == (reset_state(Pins { bits: 0 })),
    {
        Cpu {
            pins: Pins { bits: 0 },
            bus: Bus { addr: 0, data: 0, write: false },
            regs: Registers {
                flags: Flags { bits: 0 },
                a: 0,
                x: 0,
                y: 0,
                sp: 0,
                pc: 0,
            },
            jammed: false,
            schedule: Interrupt::Res,
            nmi_edge: false,
            irq_pip: Pipeline { mask: IRQ_MASK, data: 0 },
            nmi_pip: Pipeline { mask: NMI_MASK, data: 0 },
            adl: 0,
            opcode: BRK,
            tcu: Tcu { state: State::T7 },
        }
    }

    /// The out-of-band reset request: re-enters the constructed state with
    /// the reset class scheduled, keeping only the externally driven pin
    /// levels. This is also the one recovery path from a jam.
    pub fn reset(&mut self)
        ensures
            *final(self) == (reset_state(old(self).pins)),
    {
        let pins = self.pins;
        *self = Cpu::new();
        self.pins = pins;
    }

    /// One clock cycle.
    ///
    /// The peer must have placed the data of the previously issued read on
    /// the bus and driven the pin levels before the call; on return the bus
    /// holds this cycle's transaction. A jammed CPU does nothing. Otherwise
    /// the interrupt inputs are sampled and both pipelines shift; a read
    /// cycle with the ready pin deasserted then stalls, undoing the shifts
    /// and leaving everything else untouched. A non-stalled cycle advances
    /// the timing counter and either performs the fetch-boundary
    /// transition, a cycle of the core-owned break sequence, or one cycle
    /// of the instruction in flight through the micro-operation table; in
    /// the last case the table owns the registers, address latch and bus,
    /// and the core guarantees only its own state.
    pub fn step<M: MicroOps>(&mut self, ops: &mut M)
        ensures
            old(self).jammed ==> *final(self) == *old(self),
            !old(self).jammed && stalls(*old(self)) ==> *final(self) == (undone(
                after_sample(*old(self)),
            )),
            !old(self).jammed && !stalls(*old(self)) && next_state(old(self).tcu.state)
                == State::T0 ==> *final(self) == (fetch_cycle(advanced(after_sample(*old(self))))),
            !old(self).jammed && !stalls(*old(self)) && next_state(old(self).tcu.state)
                != State::T0 && executing(*old(self)).opcode == BRK ==> *final(self) == (brk_cycle(
                executing(*old(self)),
            )),
            dispatches(*old(self)) ==> {
                &&& final(self).pins == executing(*old(self)).pins
                &&& final(self).nmi_edge == executing(*old(self)).nmi_edge
                &&& final(self).irq_pip == executing(*old(self)).irq_pip
                &&& final(self).nmi_pip == executing(*old(self)).nmi_pip
                &&& final(self).schedule == executing(*old(self)).schedule
                &&& final(self).opcode == executing(*old(self)).opcode
                &&& (final(self).tcu.state == executing(*old(self)).tcu.state
                    || final(self).tcu.state == State::T7)
                &&& (final(self).jammed
                    ==> final(self).tcu.state == executing(*old(self)).tcu.state)
            },
    {
        if self.jammed {
            return ;
        }
        let nmi_now = self.pins.contains(PIN_NMI);
        let nmi_rising = nmi_now && !self.nmi_edge;
        self.nmi_edge = nmi_now;
        self.nmi_pip.register_with(nmi_rising);
        let irq_now = self.pins.contains(PIN_IRQ);
        self.irq_pip.register_with(irq_now);
        self.nmi_pip.shift();
        self.irq_pip.shift();
        if !self.pins.contains(PIN_RDY) && !self.bus.write {
            self.nmi_pip.undo();
            self.irq_pip.undo();
            return ;
        }
        self.tcu.advance();
        if self.tcu.state == State::T0 {
            self.pins.insert(PIN_SYNC);
            if self.nmi_pip.is_serviceable() {
                self.nmi_pip.trim();
                self.schedule = Interrupt::Nmi;
                self.opcode = BRK;
            } else if self.irq_pip.is_serviceable() && !self.regs.flags.contains(FLAG_I) {
                self.irq_pip.trim();
                self.schedule = Interrupt::Irq;
                self.opcode = BRK;
            } else if self.schedule == Interrupt::Res {
                self.opcode = BRK;
            }
            self.bus.addr = self.regs.pc;
            self.bus.write = false;
            return ;
        }
        self.pins.remove(PIN_SYNC);
        if self.tcu.state == State::T1 && self.schedule == Interrupt::Brk {
            self.opcode = self.bus.data;
            self.regs.pc = if self.regs.pc == 0xffff {
                0
            } else {
                self.regs.pc + 1
            };
        }
        if self.opcode == BRK {
            self.break_cycle();
        } else {
            let r = ops.exec(
                self.opcode,
                self.tcu.state,
                &mut self.regs,
                &mut self.adl,
                &mut self.bus,
            );
            match r {
                MicroResult::Done => self.tcu.reset(),
                MicroResult::Jam => self.jammed = true,
                MicroResult::Continue => {},
            }
        }
    }

    /// One cycle of the core-owned break sequence; see [`brk_cycle`].
    fn break_cycle(&mut self)
        requires
            old(self).tcu.state != State::T0,
        ensures
            *final(self) == (brk_cycle(*old(self))),
    {
        match self.tcu.state {
            State::T0 => {},
            State::T1 => {
                self.bus.addr = self.regs.pc;
                self.bus.write = false;
                if self.schedule == Interrupt::Brk {
                    self.regs.pc = if self.regs.pc == 0xffff {
                        0
                    } else {
                        self.regs.pc + 1
                    };
                }
            },
            State::T2 => {
                self.bus.addr = 0x0100 + self.regs.sp as u16;
                self.bus.data = (self.regs.pc >> 8u16) as u8;
                self.bus.write = self.schedule != Interrupt::Res;
                self.regs.sp = if self.regs.sp == 0 {
                    0xff
                } else {
                    self.regs.sp - 1
                };
            },
            State::T3 => {
                self.bus.addr = 0x0100 + self.regs.sp as u16;
                self.bus.data = (self.regs.pc & 0xff) as u8;
                self.bus.write = self.schedule != Interrupt::Res;
                self.regs.sp = if self.regs.sp == 0 {
                    0xff
                } else {
                    self.regs.sp - 1
                };
            },
            State::T4 => {
                self.bus.addr = 0x0100 + self.regs.sp as u16;
                self.bus.data = if self.schedule == Interrupt::Brk {
                    self.regs.flags.bits | (FLAG_U | FLAG_B)
                } else {
                    self.regs.flags.bits | FLAG_U
                };
                self.bus.write = self.schedule != Interrupt::Res;
                self.regs.sp = if self.regs.sp == 0 {
                    0xff
                } else {
                    self.regs.sp - 1
                };
            },
            State::T5 => {
                self.regs.flags.insert(FLAG_I);
                self.bus.addr = self.schedule.vector();
                self.bus.write = false;
            },
            State::T6 => {
                self.adl = self.bus.data as u16;
                self.bus.addr = self.schedule.vector() + 1;
                self.bus.write = false;
            },
            State::T7 => {
                let target = ((self.bus.data as u16) << 8u16) | self.adl;
                self.regs.pc = target;
                self.schedule = Interrupt::Brk;
                self.bus.addr = target;
                self.bus.write = false;
                self.tcu.reset();
            },
        }
    }
}

/// How many entries the non-maskable pipeline latches over a run of cycles
/// with the given pin samples, starting from the given previous sample.
pub open spec fn nmi_latch_count(prev_edge: bool, pins: Seq<bool>) -> nat
    decreases pins.len(),
{
    if pins.len() == 0 {
        0
    } else {
        (if nmi_registers(prev_edge, pins[0]) {
            1nat
        } else {
            0nat
        }) + nmi_latch_count(pins[0], pins.skip(1))
    }
}

/// How many entries the maskable pipeline latches over a run of cycles with
/// the given pin samples.
pub open spec fn irq_latch_count(pins: Seq<bool>) -> nat
    decreases pins.len(),
{
    if pins.len() == 0 {
        0
    } else {
        (if pins[0] {
            1nat
        } else {
            0nat
        }) + irq_latch_count(pins.skip(1))
    }
}

/// Law (edge sensitivity): holding the non-maskable pin asserted across any
/// run of consecutive cycles latches exactly one entry when the run begins
/// on a rising edge, and none at all when the pin was already asserted
/// before the run — never one entry per cycle.
pub proof fn lemma_nmi_edge_sensitivity(prev_edge: bool, pins: Seq<bool>)
    requires
        forall|i: int| 0 <= i < pins.len() ==> pins[i],
    ensures
        nmi_latch_count(prev_edge, pins) == if pins.len() > 0 && !prev_edge {
            1nat
        } else {
            0nat
        },
    decreases pins.len(),
{
    if pins.len() > 0 {
        assert(forall|i: int| 0 <= i < pins.skip(1).len() ==> pins.skip(1)[i] == pins[i + 1]);
        lemma_nmi_edge_sensitivity(pins[0], pins.skip(1));
    }
}

/// Law (level sensitivity): the maskable pipeline latches an entry on every
/// asserted cycle — over a run with the pin held asserted, one entry per
/// cycle, distinct from the edge-sensitive non-maskable pipeline.
pub proof fn lemma_irq_level_sensitivity(pins: Seq<bool>)
    requires
        forall|i: int| 0 <= i < pins.len() ==> pins[i],
    ensures
        irq_latch_count(pins) == pins.len(),
    decreases pins.len(),
{
    if pins.len() > 0 {
        assert(forall|i: int| 0 <= i < pins.skip(1).len() ==> pins.skip(1)[i] == pins[i + 1]);
        lemma_irq_level_sensitivity(pins.skip(1));
    }
}

/// A deassertion of the non-maskable pin re-arms the edge detector: the
/// cycle after a deasserted sample latches an entry again when the pin is
/// reasserted.
pub proof fn lemma_nmi_reassert_latches_again(s: Cpu)
    requires
        !spec_pin(s.pins, PIN_NMI),
    ensures
        !after_sample(s).nmi_edge,
        forall|pin: bool| nmi_registers(after_sample(s).nmi_edge, pin) == pin,
{
}

/// Law (stall correctness): a stalled cycle leaves the timing state,
/// opcode, address latch, registers, bus, schedule and pins exactly as they
/// were; only the pipelines take this cycle's latch, with their speculative
/// shift undone.
pub proof fn lemma_stall_preserves_state(s: Cpu)
    requires
        !s.jammed,
        stalls(s),
    ensures
        undone(after_sample(s)).tcu == s.tcu,
        undone(after_sample(s)).opcode == s.opcode,
        undone(after_sample(s)).adl == s.adl,
        undone(after_sample(s)).regs == s.regs,
        undone(after_sample(s)).bus == s.bus,
        undone(after_sample(s)).schedule == s.schedule,
        undone(after_sample(s)).pins == s.pins,
        undone(after_sample(s)).jammed == s.jammed,
{
}

/// Law (boundary priority): at a fetch boundary with a serviceable
/// non-maskable request, the non-maskable class is scheduled, whatever the
/// maskable pipeline or the interrupt-disable flag hold.
pub proof fn lemma_nmi_wins_the_boundary(s: Cpu)
    requires
        s.nmi_pip.data & s.nmi_pip.mask != 0,
    ensures
        fetch_cycle(s).schedule == Interrupt::Nmi,
        fetch_cycle(s).opcode == BRK,
{
}

/// Law (masked interrupt): at a fetch boundary where the interrupt-disable
/// flag is set and no non-maskable request is serviceable, the schedule
/// keeps its prior value, however long the maskable pin has been held.
pub proof fn lemma_masked_irq_keeps_schedule(s: Cpu)
    requires
        s.regs.flags.bits & FLAG_I != 0,
        s.nmi_pip.data & s.nmi_pip.mask == 0,
    ensures
        fetch_cycle(s).schedule == s.schedule,
{
}

} // verus!
