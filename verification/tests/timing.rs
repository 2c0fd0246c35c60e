use mos6502::State;
use mos6502::Tcu;
use mos6502::cpu::BRK;
use mos6502::Cpu;
use mos6502::Interrupt;

#[test]
fn advance_has_period_eight_from_every_state() {
    let states = [
        State::T0,
        State::T1,
        State::T2,
        State::T3,
        State::T4,
        State::T5,
        State::T6,
        State::T7,
    ];
    for s in states {
        let mut tcu = Tcu { state: s };
        for _ in 0..8 {
            tcu.advance();
        }
        assert_eq!(tcu.state, s);
    }
}

#[test]
fn advance_walks_the_ring_in_order() {
    let mut tcu = Tcu { state: State::T0 };
    let expected = [
        State::T1,
        State::T2,
        State::T3,
        State::T4,
        State::T5,
        State::T6,
        State::T7,
        State::T0,
    ];
    for e in expected {
        tcu.advance();
        assert_eq!(tcu.state, e);
    }
}

#[test]
fn reset_then_one_advance_lands_on_fetch_position() {
    let states = [
        State::T0,
        State::T1,
        State::T2,
        State::T3,
        State::T4,
        State::T5,
        State::T6,
        State::T7,
    ];
    for s in states {
        let mut tcu = Tcu { state: s };
        tcu.reset();
        assert_eq!(tcu.state, State::T7);
        tcu.advance();
        assert_eq!(tcu.state, State::T0);
    }
}

#[test]
fn new_cpu_is_in_the_constructed_state() {
    let cpu = Cpu::new();
    assert_eq!(cpu.pins.bits, 0);
    assert_eq!(cpu.bus.addr, 0);
    assert_eq!(cpu.bus.data, 0);
    assert!(!cpu.bus.write);
    assert_eq!(cpu.regs.flags.bits, 0);
    assert_eq!(cpu.regs.a, 0);
    assert_eq!(cpu.regs.x, 0);
    assert_eq!(cpu.regs.y, 0);
    assert_eq!(cpu.regs.sp, 0);
    assert_eq!(cpu.regs.pc, 0);
    assert!(!cpu.jammed);
    assert_eq!(cpu.schedule, Interrupt::Res);
    assert!(!cpu.nmi_edge);
    assert_eq!(cpu.irq_pip.data, 0);
    assert_eq!(cpu.nmi_pip.data, 0);
    assert_eq!(cpu.adl, 0);
    assert_eq!(cpu.opcode, BRK);
    assert_eq!(cpu.tcu.state, State::T7);
}

#[test]
fn vectors_of_each_interrupt_class() {
    assert_eq!(Interrupt::Nmi.vector(), 0xfffa);
    assert_eq!(Interrupt::Res.vector(), 0xfffc);
    assert_eq!(Interrupt::Irq.vector(), 0xfffe);
    assert_eq!(Interrupt::Brk.vector(), 0xfffe);
}
