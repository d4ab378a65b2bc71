use nes::machine::Nes;
use nes::mapper::{Mapper, MapperKind};
use nes::ppu::{dma_stall_cycles, Clock, Mirroring, Ppu, TickEvent};

fn cart(mirroring: Mirroring) -> Mapper {
    let chr: Vec<u8> = (0..0x2000).map(|i| (i % 256) as u8).collect();
    Mapper::new(MapperKind::Nrom, vec![0u8; 0x4000], chr, true, mirroring)
}

#[test]
fn status_read_clears_vblank_and_toggle() {
    let mut p = Ppu::new();
    p.status = 0xE0;
    p.write_scroll(0x10);
    assert!(p.loopy.w);
    assert_eq!(p.read_status(), 0xE0);
    assert_eq!(p.status, 0x60);
    assert!(!p.loopy.w);
    assert_eq!(p.read_status(), 0x60);
}

#[test]
fn data_read_is_buffered_and_steps_v() {
    let mut c = cart(Mirroring::Vertical);
    let mut p = Ppu::new();
    p.write_addr(0x21);
    p.write_addr(0x00);
    p.write_data(&mut c, 0xAA);
    p.write_data(&mut c, 0xBB);
    assert_eq!(p.loopy.v, 0x2102);
    p.write_addr(0x21);
    p.write_addr(0x00);
    p.read_buffer = 0x11;
    assert_eq!(p.read_data(&c), 0x11);
    assert_eq!(p.read_data(&c), 0xAA);
    assert_eq!(p.read_data(&c), 0xBB);
    assert_eq!(p.loopy.v, 0x2103);
}

#[test]
fn data_steps_by_32_with_ctrl_bit_2() {
    let mut c = cart(Mirroring::Vertical);
    let mut p = Ppu::new();
    p.write_ctrl(0x04);
    p.write_addr(0x20);
    p.write_addr(0x00);
    p.write_data(&mut c, 1);
    assert_eq!(p.loopy.v, 0x2020);
    p.read_data(&c);
    assert_eq!(p.loopy.v, 0x2040);
}

#[test]
fn palette_read_bypasses_buffer() {
    let mut c = cart(Mirroring::Horizontal);
    let mut p = Ppu::new();
    p.write_addr(0x2F);
    p.write_addr(0x05);
    p.write_data(&mut c, 0x77);
    p.write_addr(0x3F);
    p.write_addr(0x05);
    p.write_data(&mut c, 0x2C);
    p.write_addr(0x3F);
    p.write_addr(0x05);
    assert_eq!(p.read_data(&c), 0x2C);
    assert_eq!(p.read_buffer, 0x77);
}

#[test]
fn machine_ppudata_read_refills_buffer() {
    let mut nes = Nes::insert(cart(Mirroring::Vertical));
    nes.write8(0x2006, 0x20);
    nes.write8(0x2006, 0x10);
    nes.write8(0x2007, 0x5A);
    nes.write8(0x2006, 0x20);
    nes.write8(0x2006, 0x10);
    nes.read8(0x2007);
    assert_eq!(nes.ppu.read_buffer, 0x5A);
    assert_eq!(nes.read8(0x2007), 0x5A);
    assert_eq!(nes.ppu.loopy.v, 0x2012);
}

#[test]
fn palette_background_mirrors() {
    let mut c = cart(Mirroring::Horizontal);
    let mut p = Ppu::new();
    p.write_vram(&mut c, 0x3F10, 0x0F);
    assert_eq!(p.read_vram(&c, 0x3F00), 0x0F);
    p.write_vram(&mut c, 0x3F04, 0x21);
    assert_eq!(p.read_vram(&c, 0x3F14), 0x21);
    p.write_vram(&mut c, 0x3F11, 0x05);
    assert_eq!(p.read_vram(&c, 0x3F01), 0);
}

#[test]
fn nametable_mirroring_modes() {
    let mut c = cart(Mirroring::Vertical);
    let mut p = Ppu::new();
    p.write_vram(&mut c, 0x2000, 5);
    assert_eq!(p.read_vram(&c, 0x2800), 5);
    assert_eq!(p.read_vram(&c, 0x2400), 0);
    let mut c = cart(Mirroring::Horizontal);
    let mut p = Ppu::new();
    p.write_vram(&mut c, 0x2000, 6);
    assert_eq!(p.read_vram(&c, 0x2400), 6);
    assert_eq!(p.read_vram(&c, 0x2800), 0);
    assert_eq!(p.read_vram(&c, 0x3000), 6);
}

#[test]
fn pattern_reads_go_to_cartridge() {
    let mut c = cart(Mirroring::Vertical);
    let mut p = Ppu::new();
    assert_eq!(p.read_vram(&c, 0x0123), 0x23);
    p.write_vram(&mut c, 0x0123, 0x99);
    assert_eq!(p.read_vram(&c, 0x0123), 0x99);
    let mut rom = Mapper::new(MapperKind::Nrom, vec![0u8; 0x4000], vec![3u8; 0x2000], false, Mirroring::Vertical);
    p.write_vram(&mut rom, 0x0123, 0x99);
    assert_eq!(p.read_vram(&rom, 0x0123), 3);
}

#[test]
fn scroll_then_addr_sets_loopy_registers() {
    let mut p = Ppu::new();
    p.write_ctrl(0x02);
    assert_eq!(p.loopy.t, 0x0800);
    p.write_scroll(0x7D);
    assert_eq!(p.loopy.t, 0x080F);
    assert_eq!(p.loopy.x, 5);
    assert!(p.loopy.w);
    p.write_scroll(0x5E);
    assert_eq!(p.loopy.t, 0x696F);
    assert!(!p.loopy.w);
    p.write_addr(0x3D);
    assert_eq!(p.loopy.t, 0x3D6F);
    p.write_addr(0xF0);
    assert_eq!(p.loopy.t, 0x3DF0);
    assert_eq!(p.loopy.v, 0x3DF0);
    assert_eq!(p.loopy.x, 5);
    assert!(!p.loopy.w);
}

#[test]
fn oam_data_and_addr() {
    let mut p = Ppu::new();
    p.write_oam_addr(0xFF);
    p.write_oam_data(9);
    assert_eq!(p.oam_addr, 0);
    p.write_oam_addr(0xFF);
    assert_eq!(p.read_oam_data(), 9);
}

#[test]
fn oam_dma_copies_a_page() {
    let mut nes = Nes::insert(cart(Mirroring::Vertical));
    for i in 0..256u16 {
        nes.write8(0x0200 + i, (i as u8).wrapping_mul(3));
    }
    nes.write8(0x2003, 0x10);
    let stall = nes.write8(0x4014, 0x02);
    assert_eq!(stall, 514);
    for i in 0..256usize {
        assert_eq!(nes.ppu.oam[(0x10 + i) % 256], (i as u8).wrapping_mul(3));
    }
    assert_eq!(dma_stall_cycles(8), 513);
}

#[test]
fn vblank_sets_status_once_per_frame() {
    let mut p = Ppu::new();
    assert_eq!(p.tick(242 * 341), TickEvent::Idle);
    assert_eq!(p.clock, Clock { scanline: 241, dot: 0, odd_frame: false });
    assert_eq!(p.tick(1), TickEvent::EnteredVblank);
    assert_eq!(p.status & 0x80, 0x80);
    assert_eq!(p.tick(1), TickEvent::Idle);
    // to the next pre-render line, whose dot 1 clears the flag
    assert_eq!(p.tick(19 * 341 + 339), TickEvent::Idle);
    assert_eq!(p.clock, Clock { scanline: -1, dot: 0, odd_frame: true });
    assert_eq!(p.status & 0x80, 0x80);
    p.tick(1);
    assert_eq!(p.status & 0x80, 0);
}

#[test]
fn odd_frame_skips_a_dot_when_rendering() {
    let mut p = Ppu::new();
    p.write_mask(0x08);
    p.tick(339);
    assert_eq!(p.clock, Clock { scanline: -1, dot: 339, odd_frame: false });
    p.tick(1);
    assert_eq!(p.clock, Clock { scanline: -1, dot: 340, odd_frame: false });
    p.clock = Clock { scanline: -1, dot: 339, odd_frame: true };
    p.tick(1);
    assert_eq!(p.clock, Clock { scanline: 0, dot: 0, odd_frame: true });
}

#[test]
fn grayscale_masks_palette_index() {
    let mut c = cart(Mirroring::Vertical);
    let mut p = Ppu::new();
    p.write_vram(&mut c, 0x3F01, 0x2C);
    p.write_vram(&mut c, 0x3F02, 0xFF);
    assert_eq!(p.color_index(0x3F01), 0x2C);
    assert_eq!(p.color_index(0x3F02), 0x3F);
    p.write_mask(0x01);
    assert_eq!(p.color_index(0x3F01), 0x20);
    assert_eq!(p.color_index(0x3F21), 0x20);
}
