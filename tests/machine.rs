use nes::cpu::Interrupt;
use nes::machine::{HostSystem, Nes};
use nes::mapper::{Mapper, MapperKind};
use nes::ppu::{Clock, Mirroring, Ppu};
use nes::timing::Shutdown;
use nes::joypad::{Joypad, BUTTON_A, BUTTON_START};

fn nes() -> Nes {
    let prg: Vec<u8> = (0..0x8000).map(|i| (i >> 8) as u8).collect();
    Nes::insert(Mapper::new(MapperKind::Nrom, prg, vec![0u8; 0x2000], false, Mirroring::Horizontal))
}

#[test]
fn ram_is_mirrored() {
    let mut n = nes();
    n.write8(0x0005, 0x5A);
    assert_eq!(n.read8(0x0805), 0x5A);
    assert_eq!(n.read8(0x1805), 0x5A);
    n.write8(0x1FFF, 1);
    assert_eq!(n.read8(0x07FF), 1);
}

#[test]
fn ppu_registers_repeat_every_eight_bytes() {
    let mut n = nes();
    n.write8(0x3FF8, 0x80);
    assert_eq!(n.ppu.ctrl, 0x80);
    n.ppu.status = 0x80;
    assert_eq!(n.read8(0x200A), 0x80);
    assert_eq!(n.ppu.status, 0);
    assert_eq!(n.read8(0x2000), 0);
}

#[test]
fn cartridge_space_reads_prg() {
    let mut n = nes();
    assert_eq!(n.read8(0x8000), 0x00);
    assert_eq!(n.read8(0xC123), 0x41);
    assert_eq!(n.read8(0xFFFF), 0x7F);
    n.write8(0x6001, 0x33);
    assert_eq!(n.read8(0x6001), 0x33);
    // a write to ROM is ignored
    n.write8(0x8000, 0x99);
    assert_eq!(n.read8(0x8000), 0x00);
}

#[test]
fn joypad_strobe_shifts_out_buttons() {
    let mut n = nes();
    n.joypad.set_buttons(BUTTON_A | BUTTON_START);
    n.write8(0x4016, 1);
    n.write8(0x4016, 0);
    let mut bits = Vec::new();
    for _ in 0..8 {
        bits.push(n.read8(0x4016) & 1);
    }
    assert_eq!(bits, vec![1, 0, 0, 1, 0, 0, 0, 0]);
    assert_eq!(n.read8(0x4016) & 1, 1);
    assert_eq!(n.read8(0x4016) & 1, 1);
    assert_eq!(n.joypad.index, 8);
    // port 2 has nothing pressed
    assert_eq!(n.read8(0x4017) & 1, 0);
}

#[test]
fn joypad_strobe_high_returns_a() {
    let mut j = Joypad::new();
    j.set_buttons(BUTTON_START);
    j.write(1);
    assert_eq!(j.read(), 0);
    j.set_buttons(BUTTON_A);
    assert_eq!(j.read(), 1);
    assert_eq!(j.read(), 1);
    assert_eq!(j.index, 0);
}

#[test]
fn insert_resets_cpu() {
    let n = nes();
    // the reset vector at $FFFC reads bytes $7F, $7F of the PRG image
    assert_eq!(n.cpu.pc, 0x7F7F);
    assert_eq!(n.cpu.sp, 0xFD);
    assert_eq!(n.cpu.p.to_byte(), 0x24);
    assert_eq!((n.cpu.a, n.cpu.x, n.cpu.y), (0, 0, 0));
    assert_eq!(n.cpu_ticks(), 7);
    assert_eq!(n.ppu.clock, Clock { scanline: 0, dot: 21, odd_frame: false });
}

#[test]
fn nmi_is_serviced_through_the_stack() {
    let mut n = nes();
    n.nmi_pending = true;
    let pc = n.cpu.pc;
    let cycles = n.cpu_ticks();
    let dot = n.ppu.clock.dot;
    let r = n.tick(&mut NoHost);
    assert_eq!(r.interrupt, Some(Interrupt::Nmi));
    assert_eq!(r.cycles, 7);
    assert!(!n.nmi_pending);
    assert_eq!(n.ram[0x01FD], (pc >> 8) as u8);
    assert_eq!(n.ram[0x01FC], (pc & 0xFF) as u8);
    assert_eq!(n.ram[0x01FB], 0x24);
    assert_eq!(n.cpu.sp, 0xFA);
    assert!(n.cpu.p.interrupt);
    assert_eq!(n.cpu.pc, 0x7F7F);
    assert_eq!(n.cpu_ticks(), cycles + 7);
    assert_eq!(n.ppu.clock.dot, dot + 21);
    // IRQ is masked while I is set
    n.irq_line = true;
    assert_eq!(n.tick(&mut NoHost).interrupt, None);
    n.cpu.p.interrupt = false;
    assert_eq!(n.tick(&mut NoHost).interrupt, Some(Interrupt::Irq));
}

struct NoHost;

impl HostSystem for NoHost {
    fn render(&mut self, _ppu: &Ppu) {}
    fn poll_events(&mut self) -> (Shutdown, u8) {
        (Shutdown::No, 0)
    }
    fn elapsed_millis(&self) -> usize {
        0
    }
    fn delay(&mut self, _ms: u64) {}
}

#[test]
fn nmi_raised_when_enabled_during_vblank() {
    let mut n = nes();
    n.ppu.status = 0x80;
    n.write8(0x2000, 0x80);
    assert!(n.nmi_pending);
    let mut n = nes();
    n.ppu.status = 0x80;
    n.frame_paced(1);
    assert!(!n.nmi_pending);
}

#[test]
fn host_reset_and_shutdown() {
    let mut n = nes();
    n.cpu.pc = 0x1234;
    n.end_frame(Shutdown::Reset, 1);
    assert!(n.powered_on());
    n.frame_paced(1);
    assert_eq!(n.cpu.pc, 0x7F7F);
    assert!(n.cpu.p.interrupt);
    assert_eq!(n.cpu.sp, 0xFA);
    assert_eq!(n.shutdown, Shutdown::No);
    n.end_frame(Shutdown::Yes, 2);
    n.frame_paced(2);
    assert!(!n.powered_on());
}

#[test]
fn fps_max_on_machine() {
    let mut n = nes();
    n.fps_max(50);
    assert_eq!(n.timing.frame_limit_ms, 20);
}
