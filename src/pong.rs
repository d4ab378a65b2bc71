//! The Pong demo machine: a bare 6502 address space made of RAM, a
//! write-only display device and a program ROM.
use vstd::prelude::*;
use crate::zeroed;

verus! {

pub const WIDTH: usize = 240;

pub const HEIGHT: usize = 192;

/// Pixels in the display buffer.
pub const DISPLAY_SIZE: usize = 46080;

/// Bytes of program ROM.
pub const ROM_SIZE: usize = 0x5a80;

/// Bytes of RAM.
pub const RAM_SIZE: usize = 0x8000;

/// Which device answers an address of the bus.
#[derive(PartialEq, Eq, Structural, Clone, Copy, Debug)]
pub enum MemoryMap {
    Ram,
    Display,
    Rom,
}

/// The four registers of the display device.
#[derive(PartialEq, Eq, Structural, Clone, Copy, Debug)]
pub enum DisplayPort {
    PortX,
    PortY,
    PortColor,
    PortCommand,
}

impl DisplayPort {
    pub fn from_u16(val: u16) -> (r: DisplayPort)
        requires
            val < 4,
        ensures
            val == 0 ==> r == DisplayPort::PortX,
            val == 1 ==> r == DisplayPort::PortY,
            val == 2 ==> r == DisplayPort::PortColor,
            val == 3 ==> r == DisplayPort::PortCommand,
    {
        match val {
            0 => DisplayPort::PortX,
            1 => DisplayPort::PortY,
            2 => DisplayPort::PortColor,
            _ => DisplayPort::PortCommand,
        }
    }
}

/// Commands that a write to the command port starts.
#[derive(PartialEq, Eq, Structural, Clone, Copy, Debug)]
pub enum DisplayCommand {
    Nop,
    Draw,
    Clear,
    Flush,
}

impl DisplayCommand {
    pub fn from_u8(val: u8) -> (r: DisplayCommand)
        requires
            val < 4,
        ensures
            val == 0 ==> r == DisplayCommand::Nop,
            val == 1 ==> r == DisplayCommand::Draw,
            val == 2 ==> r == DisplayCommand::Clear,
            val == 3 ==> r == DisplayCommand::Flush,
    {
        match val {
            0 => DisplayCommand::Nop,
            1 => DisplayCommand::Draw,
            2 => DisplayCommand::Clear,
            _ => DisplayCommand::Flush,
        }
    }
}

/// Index of pixel (`x`, `y`) in the display buffer.
pub open spec fn pixel_index(x: u8, y: u8) -> int {
    y as int * WIDTH as int + x as int
}

/// A write-only frame buffer driven through four byte-wide ports.
pub struct DisplayBuffer {
    pub buffer: Vec<u8>,
    pub port_x: u8,
    pub port_y: u8,
    pub port_color: u8,
    pub port_command: u8,
    pub was_updated: bool,
}

impl DisplayBuffer {
    pub open spec fn wf(&self) -> bool {
        &&& self.buffer@.len() == DISPLAY_SIZE
        &&& self.port_command == 0
    }

    /// Whether a write of `val` to port `address` is defined: the port and
    /// the command exist, and a drawn pixel lies inside the buffer.
    pub open spec fn write_ok(&self, val: u8, address: u16) -> bool {
        &&& address < 4
        &&& address == 3 ==> val < 4
        &&& (address == 3 && val == 1) ==> pixel_index(self.port_x, self.port_y) < DISPLAY_SIZE
    }

    /// `n` is this buffer after a write of `val` to port `address`: the
    /// port takes the value, a draw sets the pixel at (X, Y) to the colour,
    /// a clear zeroes the buffer, a flush marks it updated, and the command
    /// port reads 0 again.
    pub open spec fn written(&self, n: &DisplayBuffer, val: u8, address: u16) -> bool {
        &&& n.port_x == (if address == 0 { val } else { self.port_x })
        &&& n.port_y == (if address == 1 { val } else { self.port_y })
        &&& n.port_color == (if address == 2 { val } else { self.port_color })
        &&& n.port_command == 0
        &&& n.buffer@ == (if address == 3 && val == 1 {
            self.buffer@.update(pixel_index(self.port_x, self.port_y), self.port_color)
        } else if address == 3 && val == 2 {
            Seq::new(DISPLAY_SIZE as nat, |i: int| 0u8)
        } else {
            self.buffer@
        })
        &&& n.was_updated == ((address == 3 && val == 3) || self.was_updated)
    }

    pub fn new() -> (r: DisplayBuffer)
        ensures
            r.wf(),
            r.buffer@ == Seq::new(DISPLAY_SIZE as nat, |i: int| 0u8),
            r.port_x == 0,
            r.port_y == 0,
            r.port_color == 0,
            r.port_command == 0,
            !r.was_updated,
    {
        DisplayBuffer {
            buffer: zeroed(DISPLAY_SIZE),
            port_x: 0,
            port_y: 0,
            port_color: 0,
            port_command: 0,
            was_updated: false,
        }
    }

    /// The display cannot be read: every read yields nothing.
    pub fn read8(&self, address: u16) -> (r: Option<u8>)
        ensures
            r is None,
    {
        None
    }

    /// Writes `val` to port `address`, then carries out the command that
    /// the command port holds, which is cleared afterwards.
    pub fn write8(&mut self, val: u8, address: u16)
        requires
            old(self).wf(),
            old(self).write_ok(val, address),
        ensures
            final(self).wf(),
            old(self).written(final(self), val, address),
    {
        match DisplayPort::from_u16(address) {
            DisplayPort::PortX => self.port_x = val,
            DisplayPort::PortY => self.port_y = val,
            DisplayPort::PortColor => self.port_color = val,
            DisplayPort::PortCommand => self.port_command = val,
        }
        if address != 3 {
            self.port_command = 0;
        }
        match DisplayCommand::from_u8(self.port_command) {
            DisplayCommand::Draw => self.draw(),
            DisplayCommand::Flush => self.flush(),
            DisplayCommand::Clear => self.clear(),
            _ => {},
        }
        self.port_command = 0;
    }

    /// Sets the pixel at the X and Y ports to the colour port.
    pub fn draw(&mut self)
        requires
            old(self).buffer@.len() == DISPLAY_SIZE,
            pixel_index(old(self).port_x, old(self).port_y) < DISPLAY_SIZE,
        ensures
            final(self).buffer@.len() == DISPLAY_SIZE,
            final(self).buffer@ == old(self).buffer@.update(
                pixel_index(old(self).port_x, old(self).port_y),
                old(self).port_color,
            ),
            final(self).port_x == old(self).port_x,
            final(self).port_y == old(self).port_y,
            final(self).port_color == old(self).port_color,
            final(self).port_command == old(self).port_command,
            final(self).was_updated == old(self).was_updated,
    {
        let x = self.port_x as usize;
        let y = self.port_y as usize;
        let color = self.port_color;
        self.buffer.set(y * WIDTH + x, color);
    }

    /// Sets every pixel to 0.
    pub fn clear(&mut self)
        ensures
            final(self).buffer@.len() == DISPLAY_SIZE,
            final(self).buffer@ == Seq::new(DISPLAY_SIZE as nat, |i: int| 0u8),
            final(self).port_x == old(self).port_x,
            final(self).port_y == old(self).port_y,
            final(self).port_color == old(self).port_color,
            final(self).port_command == old(self).port_command,
            final(self).was_updated == old(self).was_updated,
    {
        self.buffer = zeroed(DISPLAY_SIZE);
    }

    /// Marks the buffer as ready to be shown.
    pub fn flush(&mut self)
        ensures
            final(self).was_updated,
            final(self).buffer@ == old(self).buffer@,
            final(self).port_x == old(self).port_x,
            final(self).port_y == old(self).port_y,
            final(self).port_color == old(self).port_color,
            final(self).port_command == old(self).port_command,
    {
        self.was_updated = true;
    }

    /// Reports whether a flush happened since the last call, and forgets it.
    pub fn was_updated(&mut self) -> (r: bool)
        ensures
            r == old(self).was_updated,
            !final(self).was_updated,
            final(self).buffer@ == old(self).buffer@,
            final(self).port_x == old(self).port_x,
            final(self).port_y == old(self).port_y,
            final(self).port_color == old(self).port_color,
            final(self).port_command == old(self).port_command,
    {
        let result = self.was_updated;
        self.was_updated = false;
        result
    }
}

/// The program image of the Pong machine.
pub struct Rom {
    pub rom: Vec<u8>,
}

impl Rom {
    /// Takes a copy of an image of exactly `ROM_SIZE` bytes.
    pub fn new(buffer: &[u8]) -> (r: Rom)
        requires
            buffer@.len() == ROM_SIZE,
        ensures
            r.rom@ == buffer@,
    {
        let mut rom: Vec<u8> = Vec::with_capacity(buffer.len());
        let mut i: usize = 0;
        while i < buffer.len()
            invariant
                i <= buffer@.len(),
                rom@ == buffer@.subrange(0, i as int),
            decreases buffer@.len() - i,
        {
            rom.push(buffer[i]);
            i = i + 1;
            assert(rom@ =~= buffer@.subrange(0, i as int));
        }
        assert(rom@ =~= buffer@);
        Rom { rom }
    }

    pub fn read8(&self, address: u16) -> (r: u8)
        requires
            address < self.rom@.len(),
        ensures
            r == self.rom@[address as int],
    {
        self.rom[address as usize]
    }
}

/// Device and offset that answer `address`.
pub open spec fn map_spec(address: u16) -> (MemoryMap, u16) {
    if address <= 0x7FFF {
        (MemoryMap::Ram, address)
    } else if address <= 0xA57F {
        (MemoryMap::Display, (address - 0x8000) as u16)
    } else {
        (MemoryMap::Rom, (address - 0xA580) as u16)
    }
}

/// The Pong machine's bus: RAM at [0x0000, 0x8000), the display at
/// [0x8000, 0xA580) and the ROM at [0xA580, 0xFFFF].
pub struct PongBus {
    pub ram: Vec<u8>,
    pub display: DisplayBuffer,
    pub rom: Rom,
}

impl PongBus {
    pub open spec fn wf(&self) -> bool {
        &&& self.ram@.len() == RAM_SIZE
        &&& self.display.wf()
        &&& self.rom.rom@.len() == ROM_SIZE
    }

    pub fn new(display_buffer: DisplayBuffer, rom: Rom) -> (r: PongBus)
        ensures
            r.ram@ == Seq::new(RAM_SIZE as nat, |i: int| 0u8),
            r.display == display_buffer,
            r.rom == rom,
    {
        PongBus { ram: zeroed(RAM_SIZE), display: display_buffer, rom }
    }

    pub fn map_address(&self, address: u16) -> (r: (MemoryMap, u16))
        ensures
            r == map_spec(address),
    {
        if address <= 0x7FFF {
            (MemoryMap::Ram, address)
        } else if address <= 0xA57F {
            (MemoryMap::Display, address - 0x8000)
        } else {
            (MemoryMap::Rom, address - 0xA580)
        }
    }

    /// Reads a byte; the display answers no reads, so it yields `None`.
    pub fn read8(&self, address: u16) -> (r: Option<u8>)
        requires
            self.wf(),
        ensures
            r == (match map_spec(address) {
                (MemoryMap::Ram, a) => Some(self.ram@[a as int]),
                (MemoryMap::Display, _) => None,
                (MemoryMap::Rom, a) => Some(self.rom.rom@[a as int]),
            }),
    {
        let (memory_map, mapped_address) = self.map_address(address);
        match memory_map {
            MemoryMap::Ram => Some(self.ram[mapped_address as usize]),
            MemoryMap::Display => self.display.read8(mapped_address),
            MemoryMap::Rom => Some(self.rom.read8(mapped_address)),
        }
    }

    /// Writes a byte to RAM or to a display port. A write to the ROM is
    /// ignored.
    pub fn write8(&mut self, val: u8, address: u16)
        requires
            old(self).wf(),
            map_spec(address).0 == MemoryMap::Display ==> old(self).display.write_ok(
                val,
                map_spec(address).1,
            ),
        ensures
            final(self).wf(),
            final(self).rom == old(self).rom,
            map_spec(address).0 == MemoryMap::Ram ==> final(self).ram@ == old(self).ram@.update(
                address as int,
                val,
            ) && final(self).display == old(self).display,
            map_spec(address).0 == MemoryMap::Display ==> final(self).ram@ == old(self).ram@
                && old(self).display.written(&final(self).display, val, map_spec(address).1),
            map_spec(address).0 == MemoryMap::Rom ==> final(self).ram@ == old(self).ram@
                && final(self).display == old(self).display,
    {
        let (memory_map, mapped_address) = self.map_address(address);
        match memory_map {
            MemoryMap::Ram => self.ram.set(mapped_address as usize, val),
            MemoryMap::Display => self.display.write8(val, mapped_address),
            MemoryMap::Rom => {},
        }
    }
}

} // verus!
