use cpu_core::bus::Bus;
use cpu_core::cpu::{Cpu, Cursor};
use cpu_core::operand::{Loc16, Loc8, Mem, Reg16, Reg8, Src16, Src8};
use cpu_core::registers::Registers;

#[derive(Clone, PartialEq, Debug)]
struct Flat {
    cells: Vec<u8>,
}

impl Flat {
    fn with(bytes: &[(u16, u8)]) -> Flat {
        let mut cells = vec![0u8; 0x10000];
        for &(addr, val) in bytes {
            cells[addr as usize] = val;
        }
        Flat { cells }
    }
}

impl Bus for Flat {
    fn peek(&self, addr: u16) -> u8 {
        self.cells[addr as usize]
    }

    fn written(&self, addr: u16, val: u8, after: &Flat) -> bool {
        let mut cells = self.cells.clone();
        cells[addr as usize] = val;
        after.cells == cells
    }

    fn read(&self, addr: u16) -> u8 {
        self.cells[addr as usize]
    }

    fn write(&mut self, addr: u16, val: u8) {
        self.cells[addr as usize] = val;
    }
}

fn loaded() -> Cpu {
    let mut cpu = Cpu::new();
    cpu.regs = Registers {
        pc: 0x0100,
        sp: 0xC000,
        a: 0x0A,
        b: 0x0B,
        c: 0x0C,
        d: 0x0D,
        e: 0x0E,
        f: 0xF0,
        h: 0x80,
        l: 0x10,
    };
    cpu
}

#[test]
fn lead_is_two_for_direct_and_zero_otherwise() {
    assert_eq!(Mem::Direct.lead(), 2);
    assert_eq!(Mem::Indirect(Reg16::HL).lead(), 0);
    assert_eq!(Mem::Stack(-1).lead(), 0);
}

#[test]
fn get8_reads_each_register() {
    let regs = loaded().regs;
    assert_eq!(regs.get8(Reg8::A), 0x0A);
    assert_eq!(regs.get8(Reg8::B), 0x0B);
    assert_eq!(regs.get8(Reg8::C), 0x0C);
    assert_eq!(regs.get8(Reg8::D), 0x0D);
    assert_eq!(regs.get8(Reg8::E), 0x0E);
    assert_eq!(regs.get8(Reg8::H), 0x80);
    assert_eq!(regs.get8(Reg8::L), 0x10);
}

#[test]
fn set8_writes_one_register() {
    let all = [Reg8::A, Reg8::B, Reg8::C, Reg8::D, Reg8::E, Reg8::H, Reg8::L];
    for (i, r) in all.iter().enumerate() {
        let mut regs = loaded().regs;
        regs.set8(*r, 0x99);
        assert_eq!(regs.get8(*r), 0x99);
        for (j, other) in all.iter().enumerate() {
            if i != j {
                assert_eq!(regs.get8(*other), loaded().regs.get8(*other));
            }
        }
        assert_eq!(regs.f, 0xF0);
        assert_eq!(regs.pc, 0x0100);
        assert_eq!(regs.sp, 0xC000);
    }
}

#[test]
fn get16_reads_each_register() {
    let regs = loaded().regs;
    assert_eq!(regs.get16(Reg16::AF), 0x0AF0);
    assert_eq!(regs.get16(Reg16::BC), 0x0B0C);
    assert_eq!(regs.get16(Reg16::DE), 0x0D0E);
    assert_eq!(regs.get16(Reg16::HL), 0x8010);
    assert_eq!(regs.get16(Reg16::SP), 0xC000);
}

#[test]
fn mem_addr_of_each_kind() {
    let mut cpu = loaded();
    cpu.ctx.inner.scratch16 = 0x4321;
    assert_eq!(cpu.mem_addr(Mem::Indirect(Reg16::HL)), 0x8010);
    assert_eq!(cpu.mem_addr(Mem::Indirect(Reg16::BC)), 0x0B0C);
    assert_eq!(cpu.mem_addr(Mem::Direct), 0x4321);
    assert_eq!(cpu.mem_addr(Mem::Stack(0)), 0xC000);
    assert_eq!(cpu.mem_addr(Mem::Stack(5)), 0xC005);
    assert_eq!(cpu.mem_addr(Mem::Stack(-2)), 0xBFFE);
    assert_eq!(cpu.mem_addr(Mem::Stack(127)), 0xC07F);
    assert_eq!(cpu.mem_addr(Mem::Stack(-128)), 0xBF80);
}

#[test]
fn stack_relative_address_wraps() {
    let mut cpu = loaded();
    cpu.regs.sp = 0x0001;
    assert_eq!(cpu.mem_addr(Mem::Stack(-2)), 0xFFFF);
    cpu.regs.sp = 0xFFFF;
    assert_eq!(cpu.mem_addr(Mem::Stack(1)), 0x0000);
}

#[test]
fn register_read_answers_at_once() {
    let bus = Flat::with(&[]);
    let mut cpu = loaded();
    let before = cpu;
    assert_eq!(cpu.read8(&bus, Src8::Loc(Loc8::Reg(Reg8::D))), Some(0x0D));
    assert_eq!(cpu, before);
    assert_eq!(cpu.read16(&bus, Src16::Loc(Loc16::Reg(Reg16::HL))), Some(0x8010));
    assert_eq!(cpu, before);
}

#[test]
fn register_write_is_done_at_once() {
    let mut bus = Flat::with(&[]);
    let untouched = bus.clone();
    let mut cpu = loaded();
    assert_eq!(cpu.write8(&mut bus, Loc8::Reg(Reg8::E), 0x77), Some(()));
    assert_eq!(cpu.regs, Registers { e: 0x77, ..loaded().regs });
    assert_eq!(cpu.ctx, loaded().ctx);
    assert_eq!(bus, untouched);
}

#[test]
fn immediate_byte_takes_one_bus_cycle() {
    let bus = Flat::with(&[(0x0100, 0x5A)]);
    let mut cpu = loaded();
    assert_eq!(cpu.read8(&bus, Src8::Imm), None);
    assert_eq!(cpu.regs.pc, 0x0101);
    assert_eq!(cpu.ctx.inner.step, 1);
    assert_eq!(cpu.read8(&bus, Src8::Imm), Some(0x5A));
    assert_eq!(cpu.regs, Registers { pc: 0x0101, ..loaded().regs });
    assert_eq!(cpu.ctx.inner.step, 0);
}

#[test]
fn immediate_byte_is_latched_when_read() {
    let mut bus = Flat::with(&[(0x0100, 0x5A)]);
    let mut cpu = loaded();
    assert_eq!(cpu.read8(&bus, Src8::Imm), None);
    bus.write(0x0100, 0xFF);
    assert_eq!(cpu.read8(&bus, Src8::Imm), Some(0x5A));
}

#[test]
fn indirect_read_takes_one_bus_cycle() {
    let bus = Flat::with(&[(0x8010, 0x42)]);
    let mut cpu = loaded();
    let src = Src8::Loc(Loc8::Mem(Mem::Indirect(Reg16::HL)));
    assert_eq!(cpu.read8(&bus, src), None);
    assert_eq!(cpu.regs, loaded().regs);
    assert_eq!(cpu.ctx.inner, Cursor { step: 1, scratch8: 0x42, scratch16: 0 });
    assert_eq!(cpu.read8(&bus, src), Some(0x42));
    assert_eq!(cpu.regs, loaded().regs);
    assert_eq!(cpu.ctx.inner.step, 0);
}

#[test]
fn indirect_read_through_each_pair() {
    let bus = Flat::with(&[(0x0AF0, 1), (0x0B0C, 2), (0x0D0E, 3), (0x8010, 4), (0xC000, 5)]);
    let pairs = [(Reg16::AF, 1), (Reg16::BC, 2), (Reg16::DE, 3), (Reg16::HL, 4), (Reg16::SP, 5)];
    for (r, expected) in pairs {
        let mut cpu = loaded();
        let src = Src8::Loc(Loc8::Mem(Mem::Indirect(r)));
        assert_eq!(cpu.read8(&bus, src), None);
        assert_eq!(cpu.read8(&bus, src), Some(expected));
    }
}

#[test]
fn stack_relative_read_takes_one_bus_cycle() {
    let bus = Flat::with(&[(0xBFFE, 0x21), (0xC003, 0x43)]);
    let mut cpu = loaded();
    let below = Src8::Loc(Loc8::Mem(Mem::Stack(-2)));
    assert_eq!(cpu.read8(&bus, below), None);
    assert_eq!(cpu.read8(&bus, below), Some(0x21));
    let above = Src8::Loc(Loc8::Mem(Mem::Stack(3)));
    assert_eq!(cpu.read8(&bus, above), None);
    assert_eq!(cpu.read8(&bus, above), Some(0x43));
    assert_eq!(cpu.regs, loaded().regs);
}

#[test]
fn direct_read_collects_the_address_low_byte_first() {
    let bus = Flat::with(&[(0x0100, 0x34), (0x0101, 0x12), (0x1234, 0x99), (0x3412, 0x11)]);
    let mut cpu = loaded();
    let src = Src8::Loc(Loc8::Mem(Mem::Direct));
    assert_eq!(cpu.read8(&bus, src), None);
    assert_eq!(cpu.regs.pc, 0x0101);
    assert_eq!(cpu.read8(&bus, src), None);
    assert_eq!(cpu.regs.pc, 0x0102);
    assert_eq!(cpu.ctx.inner.scratch16, 0x1234);
    assert_eq!(cpu.read8(&bus, src), None);
    assert_eq!(cpu.regs.pc, 0x0102);
    assert_eq!(cpu.read8(&bus, src), Some(0x99));
    assert_eq!(cpu.regs, Registers { pc: 0x0102, ..loaded().regs });
    assert_eq!(cpu.ctx.inner.step, 0);
}

#[test]
fn indirect_write_stores_in_its_first_call() {
    let mut bus = Flat::with(&[]);
    let mut cpu = loaded();
    let dst = Loc8::Mem(Mem::Indirect(Reg16::HL));
    assert_eq!(cpu.write8(&mut bus, dst, 0x66), None);
    assert_eq!(bus, Flat::with(&[(0x8010, 0x66)]));
    assert_eq!(cpu.write8(&mut bus, dst, 0x66), Some(()));
    assert_eq!(bus, Flat::with(&[(0x8010, 0x66)]));
    assert_eq!(cpu.regs, loaded().regs);
    assert_eq!(cpu.ctx.inner.step, 0);
}

#[test]
fn direct_write_stores_in_its_third_call() {
    let program = [(0x0100u16, 0xCDu8), (0x0101, 0xAB)];
    let mut bus = Flat::with(&program);
    let mut cpu = loaded();
    let dst = Loc8::Mem(Mem::Direct);
    assert_eq!(cpu.write8(&mut bus, dst, 0x66), None);
    assert_eq!(cpu.write8(&mut bus, dst, 0x66), None);
    assert_eq!(bus, Flat::with(&program));
    assert_eq!(cpu.write8(&mut bus, dst, 0x66), None);
    assert_eq!(bus, Flat::with(&[(0x0100, 0xCD), (0x0101, 0xAB), (0xABCD, 0x66)]));
    assert_eq!(cpu.write8(&mut bus, dst, 0x66), Some(()));
    assert_eq!(cpu.regs, Registers { pc: 0x0102, ..loaded().regs });
}

#[test]
fn stack_relative_write_stores_beside_the_stack_pointer() {
    let mut bus = Flat::with(&[]);
    let mut cpu = loaded();
    assert_eq!(cpu.write8(&mut bus, Loc8::Mem(Mem::Stack(-1)), 0x3C), None);
    assert_eq!(cpu.write8(&mut bus, Loc8::Mem(Mem::Stack(-1)), 0x3C), Some(()));
    assert_eq!(bus, Flat::with(&[(0xBFFF, 0x3C)]));
    assert_eq!(cpu.regs.sp, 0xC000);
}

#[test]
fn immediate_word_takes_two_bus_cycles() {
    let bus = Flat::with(&[(0x0100, 0xFE), (0x0101, 0xCA)]);
    let mut cpu = loaded();
    assert_eq!(cpu.read16(&bus, Src16::Imm), None);
    assert_eq!(cpu.regs.pc, 0x0101);
    assert_eq!(cpu.read16(&bus, Src16::Imm), None);
    assert_eq!(cpu.regs.pc, 0x0102);
    assert_eq!(cpu.read16(&bus, Src16::Imm), Some(0xCAFE));
    assert_eq!(cpu.regs, Registers { pc: 0x0102, ..loaded().regs });
    assert_eq!(cpu.ctx.inner.step, 0);
}

#[test]
fn word_in_memory_is_read_low_byte_first() {
    let bus = Flat::with(&[(0x8010, 0xEF), (0x8011, 0xBE)]);
    let mut cpu = loaded();
    let src = Src16::Loc(Loc16::Mem(Mem::Indirect(Reg16::HL)));
    assert_eq!(cpu.read16(&bus, src), None);
    assert_eq!(cpu.read16(&bus, src), None);
    assert_eq!(cpu.read16(&bus, src), Some(0xBEEF));
    assert_eq!(cpu.regs, loaded().regs);
}

#[test]
fn word_read_wraps_at_the_top_of_memory() {
    let bus = Flat::with(&[(0xFFFF, 0x22), (0x0000, 0x11)]);
    let mut cpu = loaded();
    cpu.regs.sp = 0xFFFF;
    let src = Src16::Loc(Loc16::Mem(Mem::Stack(0)));
    assert_eq!(cpu.read16(&bus, src), None);
    assert_eq!(cpu.read16(&bus, src), None);
    assert_eq!(cpu.read16(&bus, src), Some(0x1122));
}

#[test]
fn direct_word_read_takes_four_bus_cycles() {
    let bus = Flat::with(&[(0x0100, 0x00), (0x0101, 0x90), (0x9000, 0x78), (0x9001, 0x56)]);
    let mut cpu = loaded();
    let src = Src16::Loc(Loc16::Mem(Mem::Direct));
    for _ in 0..4 {
        assert_eq!(cpu.read16(&bus, src), None);
    }
    assert_eq!(cpu.read16(&bus, src), Some(0x5678));
    assert_eq!(cpu.regs, Registers { pc: 0x0102, ..loaded().regs });
}

#[test]
fn register_word_write_goes_through_both_halves() {
    let mut bus = Flat::with(&[]);
    let cases = [
        (Reg16::BC, Registers { b: 0x12, c: 0x34, ..loaded().regs }),
        (Reg16::DE, Registers { d: 0x12, e: 0x34, ..loaded().regs }),
        (Reg16::HL, Registers { h: 0x12, l: 0x34, ..loaded().regs }),
        (Reg16::SP, Registers { sp: 0x1234, ..loaded().regs }),
    ];
    for (r, expected) in cases {
        let mut cpu = loaded();
        assert_eq!(cpu.write16(&mut bus, Loc16::Reg(r), 0x1234), Some(()));
        assert_eq!(cpu.regs, expected);
        assert_eq!(cpu.regs.get16(r), 0x1234);
    }
}

#[test]
fn flag_pair_write_keeps_the_reserved_nibble_zero() {
    let mut bus = Flat::with(&[]);
    let mut cpu = loaded();
    assert_eq!(cpu.write16(&mut bus, Loc16::Reg(Reg16::AF), 0x12FF), Some(()));
    assert_eq!(cpu.regs, Registers { a: 0x12, f: 0xF0, ..loaded().regs });
    assert_eq!(cpu.write16(&mut bus, Loc16::Reg(Reg16::AF), 0x345A), Some(()));
    assert_eq!(cpu.regs.af(), 0x3450);
}

#[test]
fn word_in_memory_is_written_low_byte_first() {
    let mut bus = Flat::with(&[]);
    let mut cpu = loaded();
    let dst = Loc16::Mem(Mem::Indirect(Reg16::DE));
    assert_eq!(cpu.write16(&mut bus, dst, 0xBEEF), None);
    assert_eq!(bus, Flat::with(&[(0x0D0E, 0xEF)]));
    assert_eq!(cpu.write16(&mut bus, dst, 0xBEEF), None);
    assert_eq!(bus, Flat::with(&[(0x0D0E, 0xEF), (0x0D0F, 0xBE)]));
    assert_eq!(cpu.write16(&mut bus, dst, 0xBEEF), Some(()));
    assert_eq!(cpu.regs, loaded().regs);
    assert_eq!(cpu.ctx.inner.step, 0);
}

#[test]
fn direct_word_write_takes_four_bus_cycles() {
    let mut bus = Flat::with(&[(0x0100, 0xFF), (0x0101, 0xFF)]);
    let mut cpu = loaded();
    let dst = Loc16::Mem(Mem::Direct);
    for _ in 0..4 {
        assert_eq!(cpu.write16(&mut bus, dst, 0xA1B2), None);
    }
    assert_eq!(cpu.write16(&mut bus, dst, 0xA1B2), Some(()));
    let mut expected = Flat::with(&[(0x0100, 0xFF), (0x0101, 0xFF)]);
    expected.cells[0xFFFF] = 0xB2;
    expected.cells[0x0000] = 0xA1;
    assert_eq!(bus, expected);
    assert_eq!(cpu.regs.pc, 0x0102);
}

#[test]
fn cursor_beyond_the_last_step_stays_pending() {
    let mut bus = Flat::with(&[(0x0100, 0x5A)]);
    let untouched = bus.clone();
    let mut cpu = loaded();
    cpu.ctx.inner.step = 9;
    let stuck = cpu;
    assert_eq!(cpu.read8(&bus, Src8::Imm), None);
    assert_eq!(cpu.read8(&bus, Src8::Loc(Loc8::Mem(Mem::Direct))), None);
    assert_eq!(cpu.read16(&bus, Src16::Imm), None);
    assert_eq!(cpu.read16(&bus, Src16::Loc(Loc16::Mem(Mem::Stack(0)))), None);
    assert_eq!(cpu.write8(&mut bus, Loc8::Mem(Mem::Indirect(Reg16::HL)), 1), None);
    assert_eq!(cpu.write16(&mut bus, Loc16::Mem(Mem::Direct), 1), None);
    assert_eq!(cpu, stuck);
    assert_eq!(bus, untouched);
}
