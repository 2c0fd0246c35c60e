use mos6502::Bus;
use mos6502::Cpu;
use mos6502::Interrupt;
use mos6502::MicroOps;
use mos6502::MicroResult;
use mos6502::Registers;
use mos6502::State;
use mos6502::signals::FLAG_B;
use mos6502::signals::FLAG_I;
use mos6502::signals::FLAG_U;
use mos6502::signals::PIN_IRQ;
use mos6502::signals::PIN_NMI;
use mos6502::signals::PIN_RDY;

/// A table where every opcode is a two-cycle no-operation.
struct NopTable;

impl MicroOps for NopTable {
    fn exec(
        &mut self,
        _opcode: u8,
        _t: State,
        _regs: &mut Registers,
        _adl: &mut u16,
        _bus: &mut Bus,
    ) -> MicroResult {
        MicroResult::Done
    }
}

/// Acts as the bus peer: answers every read with a no-operation opcode,
/// except the interrupt vector pairs.
fn respond(cpu: &mut Cpu) {
    if !cpu.bus.write {
        cpu.bus.data = match cpu.bus.addr {
            0xfffa => 0x21,
            0xfffb => 0x43,
            0xfffe => 0x55,
            0xffff => 0x44,
            _ => 0xea,
        };
    }
}

/// A CPU past its reset entry: the schedule rests at the software-break
/// class, ready to fetch from address zero.
fn running_cpu() -> Cpu {
    let mut cpu = Cpu::new();
    cpu.pins.insert(PIN_RDY);
    cpu.schedule = Interrupt::Brk;
    cpu
}

#[test]
fn held_irq_latches_every_cycle() {
    let mut cpu = running_cpu();
    let mut tbl = NopTable;
    cpu.pins.insert(PIN_IRQ);
    cpu.regs.flags.insert(FLAG_I); // mask it, so latches are never trimmed
    let mut expected: u16 = 0;
    for _ in 0..5 {
        cpu.step(&mut tbl);
        respond(&mut cpu);
        expected = (expected | 0x0100) << 1;
        assert_eq!(cpu.irq_pip.data, expected);
        assert_eq!(cpu.nmi_pip.data, 0);
    }
}

#[test]
fn held_nmi_latches_exactly_once() {
    let mut cpu = running_cpu();
    let mut tbl = NopTable;
    cpu.pins.insert(PIN_NMI);
    cpu.step(&mut tbl);
    respond(&mut cpu);
    assert_eq!(cpu.nmi_pip.data, 0x0200); // the one rising-edge latch, shifted once
    cpu.step(&mut tbl);
    respond(&mut cpu);
    assert_eq!(cpu.nmi_pip.data, 0x0400); // held level: shifted again, no new latch
}

#[test]
fn held_nmi_is_serviced_once_and_only_once() {
    let mut cpu = running_cpu();
    let mut tbl = NopTable;
    cpu.pins.insert(PIN_NMI);
    let mut service_count = 0;
    for _ in 0..60 {
        cpu.step(&mut tbl);
        respond(&mut cpu);
        if cpu.schedule == Interrupt::Nmi {
            service_count += 1;
            // run the whole break sequence before counting further
            while cpu.schedule == Interrupt::Nmi {
                cpu.step(&mut tbl);
                respond(&mut cpu);
            }
            assert_eq!(cpu.regs.pc, 0x4321); // the non-maskable vector was taken
        }
    }
    assert_eq!(service_count, 1);
}

#[test]
fn nmi_deassert_then_reassert_is_serviced_again() {
    let mut cpu = running_cpu();
    let mut tbl = NopTable;
    cpu.pins.insert(PIN_NMI);
    let mut service_count = 0;
    for cycle in 0..120 {
        if cycle == 40 {
            cpu.pins.remove(PIN_NMI);
        }
        if cycle == 44 {
            cpu.pins.insert(PIN_NMI);
        }
        cpu.step(&mut tbl);
        respond(&mut cpu);
        if cpu.schedule == Interrupt::Nmi {
            service_count += 1;
            while cpu.schedule == Interrupt::Nmi {
                cpu.step(&mut tbl);
                respond(&mut cpu);
            }
        }
    }
    assert_eq!(service_count, 2);
}

#[test]
fn held_irq_is_serviced_through_the_shared_vector() {
    let mut cpu = running_cpu();
    let mut tbl = NopTable;
    cpu.pins.insert(PIN_IRQ);
    // fetch boundary, then a no-operation, then the boundary that accepts
    cpu.step(&mut tbl);
    respond(&mut cpu);
    cpu.step(&mut tbl);
    respond(&mut cpu);
    cpu.step(&mut tbl);
    respond(&mut cpu);
    assert_eq!(cpu.schedule, Interrupt::Irq);
    assert_eq!(cpu.opcode, 0x00); // the fetched byte is treated as a break
    let return_pc = cpu.regs.pc;
    cpu.step(&mut tbl); // padding read; hardware entry does not consume it
    respond(&mut cpu);
    assert_eq!(cpu.regs.pc, return_pc);
    cpu.step(&mut tbl); // push high byte of the return address
    assert!(cpu.bus.write);
    assert_eq!(cpu.bus.addr, 0x0100);
    assert_eq!(cpu.bus.data, (return_pc >> 8) as u8);
    cpu.step(&mut tbl); // push low byte
    assert!(cpu.bus.write);
    assert_eq!(cpu.bus.data, (return_pc & 0xff) as u8);
    cpu.step(&mut tbl); // push flags: hardware origin, so the break bit is clear
    assert!(cpu.bus.write);
    assert_eq!(cpu.bus.data & FLAG_B, 0);
    assert_eq!(cpu.bus.data & FLAG_U, FLAG_U);
    cpu.step(&mut tbl); // read vector low
    assert!(!cpu.bus.write);
    assert_eq!(cpu.bus.addr, 0xfffe);
    respond(&mut cpu);
    cpu.step(&mut tbl); // read vector high
    assert_eq!(cpu.bus.addr, 0xffff);
    respond(&mut cpu);
    cpu.step(&mut tbl); // load the program counter from the vector
    assert_eq!(cpu.regs.pc, 0x4455);
    assert!(cpu.regs.flags.contains(FLAG_I));
    assert_eq!(cpu.schedule, Interrupt::Brk); // re-armed at its resting value
}

#[test]
fn masked_irq_never_changes_the_schedule() {
    let mut cpu = running_cpu();
    let mut tbl = NopTable;
    cpu.pins.insert(PIN_IRQ);
    cpu.regs.flags.insert(FLAG_I);
    for _ in 0..50 {
        cpu.step(&mut tbl);
        respond(&mut cpu);
        assert_eq!(cpu.schedule, Interrupt::Brk);
    }
}
