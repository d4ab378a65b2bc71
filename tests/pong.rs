use nes::pong::{DisplayBuffer, DisplayCommand, DisplayPort, MemoryMap, PongBus, Rom, DISPLAY_SIZE, ROM_SIZE, WIDTH};

fn rom_image() -> Vec<u8> {
    (0..ROM_SIZE).map(|i| (i % 251) as u8).collect()
}

#[test]
fn ports_and_commands_decode() {
    assert_eq!(DisplayPort::from_u16(0), DisplayPort::PortX);
    assert_eq!(DisplayPort::from_u16(1), DisplayPort::PortY);
    assert_eq!(DisplayPort::from_u16(2), DisplayPort::PortColor);
    assert_eq!(DisplayPort::from_u16(3), DisplayPort::PortCommand);
    assert_eq!(DisplayCommand::from_u8(0), DisplayCommand::Nop);
    assert_eq!(DisplayCommand::from_u8(1), DisplayCommand::Draw);
    assert_eq!(DisplayCommand::from_u8(2), DisplayCommand::Clear);
    assert_eq!(DisplayCommand::from_u8(3), DisplayCommand::Flush);
}

#[test]
fn display_draws_clears_and_flushes() {
    let mut d = DisplayBuffer::new();
    assert_eq!(d.buffer.len(), DISPLAY_SIZE);
    d.write8(10, 0);
    d.write8(20, 1);
    d.write8(0xE3, 2);
    assert_eq!(d.port_command, 0);
    d.write8(1, 3);
    assert_eq!(d.buffer[20 * WIDTH + 10], 0xE3);
    assert_eq!(d.port_command, 0);
    assert!(!d.was_updated());
    d.write8(3, 3);
    assert!(d.was_updated());
    assert!(!d.was_updated());
    d.write8(2, 3);
    assert!(d.buffer.iter().all(|b| *b == 0));
    assert_eq!(d.read8(0), None);
}

#[test]
fn display_draw_and_flush_by_method() {
    let mut d = DisplayBuffer::new();
    d.port_x = 239;
    d.port_y = 191;
    d.port_color = 7;
    d.draw();
    assert_eq!(d.buffer[DISPLAY_SIZE - 1], 7);
    d.flush();
    assert!(d.was_updated);
    d.clear();
    assert_eq!(d.buffer[DISPLAY_SIZE - 1], 0);
}

#[test]
fn rom_reads_its_image() {
    let image = rom_image();
    let rom = Rom::new(&image);
    assert_eq!(rom.read8(0), 0);
    assert_eq!(rom.read8(300), (300 % 251) as u8);
    assert_eq!(rom.read8((ROM_SIZE - 1) as u16), ((ROM_SIZE - 1) % 251) as u8);
}

#[test]
fn bus_maps_three_regions() {
    let bus = PongBus::new(DisplayBuffer::new(), Rom::new(&rom_image()));
    assert_eq!(bus.map_address(0x0000), (MemoryMap::Ram, 0x0000));
    assert_eq!(bus.map_address(0x7FFF), (MemoryMap::Ram, 0x7FFF));
    assert_eq!(bus.map_address(0x8000), (MemoryMap::Display, 0));
    assert_eq!(bus.map_address(0xA57F), (MemoryMap::Display, 0x257F));
    assert_eq!(bus.map_address(0xA580), (MemoryMap::Rom, 0));
    assert_eq!(bus.map_address(0xFFFF), (MemoryMap::Rom, 0x5A7F));
}

#[test]
fn bus_reads_and_writes() {
    let mut bus = PongBus::new(DisplayBuffer::new(), Rom::new(&rom_image()));
    bus.write8(0x42, 0x1234);
    assert_eq!(bus.read8(0x1234), Some(0x42));
    assert_eq!(bus.read8(0xA580 + 300), Some((300 % 251) as u8));
    assert_eq!(bus.read8(0x8000), None);
    bus.write8(5, 0x8000);
    bus.write8(6, 0x8001);
    bus.write8(9, 0x8002);
    bus.write8(1, 0x8003);
    assert_eq!(bus.display.buffer[6 * WIDTH + 5], 9);
    // a write to ROM is ignored
    bus.write8(0x99, 0xA580);
    assert_eq!(bus.read8(0xA580), Some(0));
}
