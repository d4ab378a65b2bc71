use std::cell::Cell;

use nes::cpu::Interrupt;
use nes::machine::{HostSystem, Nes};
use nes::mapper::{Mapper, MapperKind};
use nes::ppu::{Mirroring, Ppu, TickEvent};
use nes::timing::Shutdown;

struct StubHost {
    clock: Cell<usize>,
    step_ms: usize,
    renders: usize,
    delays: Vec<u64>,
    answer: Shutdown,
}

impl StubHost {
    fn new(step_ms: usize) -> Self {
        StubHost { clock: Cell::new(0), step_ms, renders: 0, delays: Vec::new(), answer: Shutdown::No }
    }
}

impl HostSystem for StubHost {
    fn render(&mut self, _ppu: &Ppu) {
        self.renders += 1;
        self.clock.set(self.clock.get() + self.step_ms);
    }
    fn poll_events(&mut self) -> (Shutdown, u8) {
        (self.answer, 0)
    }
    fn elapsed_millis(&self) -> usize {
        self.clock.get()
    }
    fn delay(&mut self, ms: u64) {
        self.delays.push(ms);
    }
}

/// A 32 KiB NROM image full of NOPs, `program` at $8000, RESET at $8000,
/// NMI and IRQ at $9000.
fn machine(program: &[u8]) -> Nes {
    let mut prg = vec![0xEAu8; 0x8000];
    prg[..program.len()].copy_from_slice(program);
    prg[0x7FFA] = 0x00;
    prg[0x7FFB] = 0x90;
    prg[0x7FFC] = 0x00;
    prg[0x7FFD] = 0x80;
    prg[0x7FFE] = 0x00;
    prg[0x7FFF] = 0x90;
    Nes::insert(Mapper::new(MapperKind::Nrom, prg, vec![0u8; 0x2000], false, Mirroring::Vertical))
}

#[test]
fn tick_runs_one_instruction_and_credits_three_dots_per_cycle() {
    let mut n = machine(&[]);
    let mut host = StubHost::new(5);
    assert_eq!(n.cpu.pc, 0x8000);
    let r = n.tick(&mut host);
    assert_eq!(r.interrupt, None);
    assert_eq!((r.instruction, r.stall, r.cycles), (2, 0, 2));
    assert_eq!(n.cpu.pc, 0x8001);
    assert_eq!(n.cpu_ticks(), 9);
    assert_eq!(n.ppu.clock.dot, 27);
}

#[test]
fn vblank_timing_from_reset() {
    let mut n = machine(&[]);
    let mut host = StubHost::new(5);
    let mut executed = 0u64;
    let mut vblanks = 0;
    while executed < 29781 {
        let r = n.tick(&mut host);
        executed += r.cycles;
        if r.event == TickEvent::EnteredVblank {
            vblanks += 1;
        }
    }
    assert_eq!(vblanks, 1);
    assert_eq!(host.renders, 1);
}

#[test]
fn frame_pacing_asks_for_the_rest_of_the_period() {
    let mut n = machine(&[]);
    let mut host = StubHost::new(5);
    let mut reports = Vec::new();
    while reports.len() < 3 {
        let r = n.tick(&mut host);
        if r.event == TickEvent::EnteredVblank {
            reports.push(r);
        }
    }
    assert_eq!(reports[0].delay, None);
    assert_eq!(reports[1].delay, Some(11));
    assert_eq!(reports[2].delay, Some(11));
    assert_eq!(host.delays, vec![11, 11]);
    assert_eq!(n.timing.frame_n, 3);
}

#[test]
fn nmi_at_vblank_is_serviced_next_step() {
    // LDA #$80; STA $2000; loop: JMP loop
    let mut n = machine(&[0xA9, 0x80, 0x8D, 0x00, 0x20, 0x4C, 0x05, 0x80]);
    let mut host = StubHost::new(5);
    loop {
        let r = n.tick(&mut host);
        if r.event == TickEvent::EnteredVblank {
            break;
        }
    }
    assert!(n.nmi_pending);
    let r = n.tick(&mut host);
    assert_eq!(r.interrupt, Some(Interrupt::Nmi));
    assert_eq!(r.instruction, 7);
    assert_eq!(n.cpu.pc, 0x9000);
    assert!(!n.nmi_pending);
}

#[test]
fn host_reset_at_vblank_resets_the_cpu() {
    let mut n = machine(&[]);
    let mut host = StubHost::new(5);
    host.answer = Shutdown::Reset;
    loop {
        let r = n.tick(&mut host);
        if r.event == TickEvent::EnteredVblank {
            assert_eq!(r.poll, Some(Shutdown::Reset));
            break;
        }
    }
    assert_eq!(n.cpu.pc, 0x8000);
    assert!(n.cpu.p.interrupt);
    assert!(n.powered_on());
    let r = n.tick(&mut host);
    assert_eq!(r.cycles, 2 + 7);
    host.answer = Shutdown::Yes;
    loop {
        if n.tick(&mut host).event == TickEvent::EnteredVblank {
            break;
        }
    }
    assert!(!n.powered_on());
}

#[test]
fn store_to_oamdma_copies_page_and_stalls() {
    // LDA #$02; STA $4014
    let mut n = machine(&[0xA9, 0x02, 0x8D, 0x14, 0x40]);
    let mut host = StubHost::new(5);
    for i in 0..256u16 {
        n.write8(0x0200 + i, i as u8 ^ 0x5A);
    }
    n.tick(&mut host);
    let before = n.cpu_ticks();
    let r = n.tick(&mut host);
    assert_eq!(r.instruction, 4);
    assert_eq!(r.stall, if before % 2 == 1 { 514 } else { 513 });
    assert_eq!(n.cpu_ticks(), before + r.cycles);
    for i in 0..256usize {
        assert_eq!(n.ppu.oam[i], i as u8 ^ 0x5A);
    }
}

#[test]
fn scroll_and_address_stores_route_to_loopy() {
    let mut n = machine(&[
        0xA9, 0x7D, 0x8D, 0x05, 0x20, 0xA9, 0x5E, 0x8D, 0x05, 0x20, 0xA9, 0x3D, 0x8D, 0x06, 0x20,
        0xA9, 0xF0, 0x8D, 0x06, 0x20,
    ]);
    let mut host = StubHost::new(5);
    for _ in 0..8 {
        n.tick(&mut host);
    }
    assert_eq!(n.ppu.loopy.v, 0x3DF0);
    assert_eq!(n.ppu.loopy.t, 0x3DF0);
    assert_eq!(n.ppu.loopy.x, 5);
    assert!(!n.ppu.loopy.w);
}

#[test]
fn jmp_indirect_wraps_on_the_machine() {
    // JMP ($10FF): RAM mirrors put $10FF at $00FF and $1000 at $0000
    let mut n = machine(&[0x6C, 0xFF, 0x10]);
    let mut host = StubHost::new(5);
    n.write8(0x00FF, 0x34);
    n.write8(0x0000, 0x12);
    n.write8(0x0100, 0x56);
    let r = n.tick(&mut host);
    assert_eq!(r.instruction, 5);
    assert_eq!(n.cpu.pc, 0x1234);
}

#[test]
fn status_load_has_its_side_effect() {
    // LDA $2002
    let mut n = machine(&[0xAD, 0x02, 0x20]);
    let mut host = StubHost::new(5);
    n.ppu.status = 0x80;
    n.ppu.loopy.w = true;
    n.tick(&mut host);
    assert_eq!(n.cpu.a, 0x80);
    assert!(n.cpu.p.negative);
    assert_eq!(n.ppu.status & 0x80, 0);
    assert!(!n.ppu.loopy.w);
}

#[test]
fn joypad_read_by_instruction() {
    // LDA #1; STA $4016; LDA #0; STA $4016; LDA $4016
    let mut n = machine(&[0xA9, 0x01, 0x8D, 0x16, 0x40, 0xA9, 0x00, 0x8D, 0x16, 0x40, 0xAD, 0x16, 0x40]);
    let mut host = StubHost::new(5);
    n.joypad.set_buttons(0x01);
    for _ in 0..5 {
        n.tick(&mut host);
    }
    assert_eq!(n.cpu.a, 1);
    assert_eq!(n.joypad.index, 1);
}
