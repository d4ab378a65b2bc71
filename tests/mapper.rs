use nes::mapper::{Mapper, MapperKind};
use nes::ppu::Mirroring;

fn banks(n: usize) -> Vec<u8> {
    let mut v = vec![0u8; n * 0x4000];
    for b in 0..n {
        v[b * 0x4000] = b as u8;
        v[b * 0x4000 + 1] = 0xB0 | b as u8;
    }
    v
}

fn serial(m: &mut Mapper, addr: u16, value: u8) {
    for i in 0..5 {
        m.prg_write(addr, (value >> i) & 1);
    }
}

#[test]
fn mmc1_prg_bank_switch() {
    let mut m = Mapper::new(MapperKind::Mmc1, banks(8), vec![0u8; 0x2000], true, Mirroring::Horizontal);
    m.prg_write(0x8000, 0x80);
    serial(&mut m, 0x8000, 0x0C);
    assert_eq!(m.control, 0x0C);
    serial(&mut m, 0xE000, 0x05);
    assert_eq!(m.prg_bank, 5);
    assert_eq!(m.prg_read(0x8000), 5);
    assert_eq!(m.prg_read(0x8001), 0xB5);
    assert_eq!(m.prg_read(0xC000), 7);
}

#[test]
fn mmc1_other_prg_modes_and_mirroring() {
    let mut m = Mapper::new(MapperKind::Mmc1, banks(8), vec![0u8; 0x2000], true, Mirroring::Horizontal);
    serial(&mut m, 0x8000, 0x0A);
    assert_eq!(m.mirroring(), Mirroring::Vertical);
    serial(&mut m, 0xE000, 0x03);
    assert_eq!(m.prg_read(0x8000), 0);
    assert_eq!(m.prg_read(0xC000), 3);
    serial(&mut m, 0x8000, 0x01);
    assert_eq!(m.mirroring(), Mirroring::SingleScreenHigh);
    assert_eq!(m.prg_read(0x8000), 2);
    assert_eq!(m.prg_read(0xC000), 3);
}

#[test]
fn mmc1_reset_mid_sequence() {
    let mut m = Mapper::new(MapperKind::Mmc1, banks(4), vec![0u8; 0x2000], true, Mirroring::Horizontal);
    m.prg_write(0x8000, 1);
    m.prg_write(0x8000, 1);
    assert_eq!(m.shift_count, 2);
    m.prg_write(0x8000, 0x80);
    assert_eq!(m.shift_count, 0);
    assert_eq!(m.shift, 0);
    assert_eq!(m.control & 0x0C, 0x0C);
}

#[test]
fn uxrom_switches_low_window() {
    let mut m = Mapper::new(MapperKind::Uxrom, banks(4), vec![0u8; 0x2000], true, Mirroring::Vertical);
    assert_eq!(m.prg_read(0xC000), 3);
    m.prg_write(0x8000, 2);
    assert_eq!(m.prg_read(0x8000), 2);
    m.prg_write(0x8000, 6);
    assert_eq!(m.prg_read(0x8000), 2);
    assert_eq!(m.prg_read(0xC000), 3);
}

#[test]
fn cnrom_switches_chr() {
    let mut chr = vec![0u8; 4 * 0x2000];
    for b in 0..4 {
        chr[b * 0x2000 + 5] = 0x10 + b as u8;
    }
    let mut m = Mapper::new(MapperKind::Cnrom, banks(1), chr, false, Mirroring::Vertical);
    assert_eq!(m.chr_read(5), 0x10);
    m.prg_write(0x8000, 3);
    assert_eq!(m.chr_read(5), 0x13);
    m.chr_write(5, 0);
    assert_eq!(m.chr_read(5), 0x13);
}

#[test]
fn nrom_mirrors_single_bank() {
    let m = Mapper::new(MapperKind::Nrom, banks(1), vec![0u8; 0x2000], false, Mirroring::Vertical);
    assert_eq!(m.prg_read(0x8001), 0xB0);
    assert_eq!(m.prg_read(0xC001), 0xB0);
    assert_eq!(m.prg_read(0x5000), 0);
}
