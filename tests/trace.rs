use nes::cpu::{Registers, Status};
use nes::machine::{HostSystem, Nes};
use nes::ppu::Ppu;
use nes::timing::Shutdown;
use nes::mapper::{Mapper, MapperKind};
use nes::ppu::{Clock, Mirroring};
use nes::trace::trace_line;

fn regs(pc: u16, p: u8, sp: u8, cycles: u64) -> Registers {
    Registers { a: 0, x: 0, y: 0, sp, p: Status::from_byte(p), pc, cycles }
}

#[test]
fn trace_line_matches_log_layout() {
    let line = trace_line(&regs(0xC000, 0x24, 0xFD, 7), &Clock { scanline: 0, dot: 21, odd_frame: false });
    assert_eq!(String::from_utf8(line).unwrap(), "C000 A:00 X:00 Y:00 P:24 SP:FD PPU:  0, 21 CYC:7");
}

#[test]
fn trace_line_wide_fields() {
    let r = Registers { a: 0xAB, x: 0x0F, y: 0xF0, sp: 0x01, p: Status::from_byte(0xE7), pc: 0x0A5F, cycles: 26554 };
    let line = trace_line(&r, &Clock { scanline: 241, dot: 340, odd_frame: true });
    assert_eq!(String::from_utf8(line).unwrap(), "0A5F A:AB X:0F Y:F0 P:E7 SP:01 PPU:241,340 CYC:26554");
    let line = trace_line(&r, &Clock { scanline: -1, dot: 5, odd_frame: true });
    assert_eq!(String::from_utf8(line).unwrap(), "0A5F A:AB X:0F Y:F0 P:E7 SP:01 PPU: -1,  5 CYC:26554");
}

#[test]
fn machine_trace_after_reset() {
    let mut prg = vec![0xEAu8; 0x4000];
    prg[0x3FFC] = 0x00;
    prg[0x3FFD] = 0xC0;
    let cart = Mapper::new(MapperKind::Nrom, prg, vec![0u8; 0x2000], false, Mirroring::Vertical);
    let mut nes = Nes::insert(cart);
    assert_eq!(String::from_utf8(nes.trace()).unwrap(), "C000 A:00 X:00 Y:00 P:24 SP:FD PPU:  0, 21 CYC:7");
    nes.tick(&mut NoHost);
    assert_eq!(String::from_utf8(nes.trace()).unwrap(), "C001 A:00 X:00 Y:00 P:24 SP:FD PPU:  0, 27 CYC:9");
}

struct NoHost;

impl HostSystem for NoHost {
    fn render(&mut self, _ppu: &Ppu) {}
    fn poll_events(&mut self) -> (Shutdown, u8) {
        (Shutdown::No, 0)
    }
    fn elapsed_millis(&self) -> usize {
        0
    }
    fn delay(&mut self, _ms: u64) {}
}
