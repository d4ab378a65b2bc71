//! Cartridge mappers: how CPU addresses reach PRG banks and PPU addresses
//! reach CHR banks, and how writes to the cartridge reconfigure them.
use vstd::prelude::*;
use crate::ppu::Mirroring;
use crate::zeroed;

verus! {

pub const PRG_BANK_SIZE: usize = 0x4000;

pub const CHR_BANK_SIZE: usize = 0x2000;

pub const PRG_RAM_SIZE: usize = 0x2000;

/// Largest PRG image, in 16 KiB banks.
pub const MAX_PRG_BANKS: usize = 256;

/// Largest CHR image, in 8 KiB banks.
pub const MAX_CHR_BANKS: usize = 256;

/// The mapper boards this machine knows.
#[derive(PartialEq, Eq, Structural, Clone, Copy, Debug)]
pub enum MapperKind {
    Nrom,
    Mmc1,
    Uxrom,
    Cnrom,
}

/// A cartridge: its memories and the bank registers of its mapper.
pub struct Mapper {
    pub kind: MapperKind,
    pub prg: Vec<u8>,
    pub chr: Vec<u8>,
    pub chr_ram: bool,
    pub prg_ram: Vec<u8>,
    pub mirroring: Mirroring,
    /// UxROM: PRG bank at $8000. CNROM: CHR bank.
    pub bank_select: u8,
    /// MMC1 serial port: bits received so far and how many.
    pub shift: u8,
    pub shift_count: u8,
    /// MMC1 registers.
    pub control: u8,
    pub chr_bank0: u8,
    pub chr_bank1: u8,
    pub prg_bank: u8,
}

pub open spec fn prg_banks(m: &Mapper) -> int {
    m.prg@.len() as int / PRG_BANK_SIZE as int
}

pub open spec fn chr_banks(m: &Mapper) -> int {
    m.chr@.len() as int / CHR_BANK_SIZE as int
}

/// Offset in PRG of CPU address `addr` in [0x8000, 0xFFFF]; bank numbers
/// wrap modulo the number of banks.
pub open spec fn prg_offset(m: &Mapper, addr: int) -> int {
    let n = prg_banks(m);
    let off = addr % 0x4000;
    let bank = match m.kind {
        MapperKind::Nrom | MapperKind::Cnrom => (if addr < 0xC000 { 0int } else { 1int }) % n,
        MapperKind::Uxrom => if addr < 0xC000 { m.bank_select as int % n } else { n - 1 },
        MapperKind::Mmc1 => {
            let mode = (m.control as int / 4) % 4;
            let sel = m.prg_bank as int % 16;
            if mode < 2 {
                ((sel / 2) * 2 + if addr < 0xC000 { 0int } else { 1int }) % n
            } else if mode == 2 {
                if addr < 0xC000 { 0 } else { sel % n }
            } else {
                if addr < 0xC000 { sel % n } else { n - 1 }
            }
        },
    };
    bank * 0x4000 + off
}

/// Offset in CHR of PPU address `addr` in [0, 0x2000).
pub open spec fn chr_offset(m: &Mapper, addr: int) -> int {
    let n = chr_banks(m);
    match m.kind {
        MapperKind::Nrom | MapperKind::Uxrom => addr,
        MapperKind::Cnrom => (m.bank_select as int % n) * 0x2000 + addr,
        MapperKind::Mmc1 => if (m.control as int / 16) % 2 == 0 {
            ((m.chr_bank0 as int / 2) % n) * 0x2000 + addr
        } else {
            let bank = if addr < 0x1000 { m.chr_bank0 as int } else { m.chr_bank1 as int };
            (bank % (2 * n)) * 0x1000 + addr % 0x1000
        },
    }
}

/// Mirroring that MMC1's control register selects.
pub open spec fn mmc1_mirroring(control: u8) -> Mirroring {
    let m = control as int % 4;
    if m == 0 {
        Mirroring::SingleScreenLow
    } else if m == 1 {
        Mirroring::SingleScreenHigh
    } else if m == 2 {
        Mirroring::Vertical
    } else {
        Mirroring::Horizontal
    }
}

/// MMC1 serial port after a write of `val` to `addr` (at or above $8000):
/// the registers (shift, count, control, CHR bank 0, CHR bank 1, PRG bank).
/// Bit 7 resets the port and fixes the last PRG bank at $C000; otherwise
/// bit 0 is shifted in, and the fifth bit loads the register that address
/// bits 13-14 select.
pub open spec fn mmc1_after(m: &Mapper, addr: u16, val: u8) -> (u8, u8, u8, u8, u8, u8) {
    if val & 0x80u8 != 0 {
        (0, 0, m.control | 0x0Cu8, m.chr_bank0, m.chr_bank1, m.prg_bank)
    } else {
        let shift = m.shift | ((val & 1u8) << m.shift_count);
        if m.shift_count == 4 {
            let reg = (addr / 0x2000) % 4;
            if reg == 0 {
                (0, 0, shift, m.chr_bank0, m.chr_bank1, m.prg_bank)
            } else if reg == 1 {
                (0, 0, m.control, shift, m.chr_bank1, m.prg_bank)
            } else if reg == 2 {
                (0, 0, m.control, m.chr_bank0, shift, m.prg_bank)
            } else {
                (0, 0, m.control, m.chr_bank0, m.chr_bank1, shift & 0x0Fu8)
            }
        } else {
            (shift, (m.shift_count + 1) as u8, m.control, m.chr_bank0, m.chr_bank1, m.prg_bank)
        }
    }
}

impl Mapper {
    pub open spec fn wf(&self) -> bool {
        &&& self.prg@.len() % (PRG_BANK_SIZE as nat) == 0
        &&& 0 < self.prg@.len() <= MAX_PRG_BANKS * PRG_BANK_SIZE
        &&& self.chr@.len() % (CHR_BANK_SIZE as nat) == 0
        &&& 0 < self.chr@.len() <= MAX_CHR_BANKS * CHR_BANK_SIZE
        &&& self.prg_ram@.len() == PRG_RAM_SIZE
        &&& self.shift_count < 5
    }

    /// `n` is this cartridge after a CPU write of `val` to `addr`, as
    /// `prg_write` makes it.
    pub open spec fn written(&self, n: &Mapper, addr: u16, val: u8) -> bool {
        &&& n.kind == self.kind
        &&& n.prg@ == self.prg@
        &&& n.chr@ == self.chr@
        &&& n.chr_ram == self.chr_ram
        &&& n.mirroring == self.mirroring
        &&& n.prg_ram@ == (if 0x6000 <= addr < 0x8000 {
            self.prg_ram@.update(addr - 0x6000, val)
        } else {
            self.prg_ram@
        })
        &&& n.bank_select == (if addr >= 0x8000 && (self.kind == MapperKind::Uxrom || self.kind
            == MapperKind::Cnrom) {
            val
        } else {
            self.bank_select
        })
        &&& (n.shift, n.shift_count, n.control, n.chr_bank0, n.chr_bank1, n.prg_bank) == (if addr
            >= 0x8000 && self.kind == MapperKind::Mmc1 {
            mmc1_after(self, addr, val)
        } else {
            (self.shift, self.shift_count, self.control, self.chr_bank0, self.chr_bank1, self.prg_bank)
        })
    }

    /// Nametable mirroring in force: MMC1 selects it by register.
    pub open spec fn current_mirroring(&self) -> Mirroring {
        if self.kind == MapperKind::Mmc1 {
            mmc1_mirroring(self.control)
        } else {
            self.mirroring
        }
    }

    /// The same board with the same bank registers and PRG side; CHR RAM
    /// may differ.
    pub open spec fn same_banks(&self, o: &Mapper) -> bool {
        &&& self.kind == o.kind
        &&& self.prg@ == o.prg@
        &&& self.prg_ram@ == o.prg_ram@
        &&& self.chr@.len() == o.chr@.len()
        &&& self.chr_ram == o.chr_ram
        &&& self.mirroring == o.mirroring
        &&& self.bank_select == o.bank_select
        &&& self.shift == o.shift
        &&& self.shift_count == o.shift_count
        &&& self.control == o.control
        &&& self.chr_bank0 == o.chr_bank0
        &&& self.chr_bank1 == o.chr_bank1
        &&& self.prg_bank == o.prg_bank
    }

    /// The byte the CPU sees at `addr` in cartridge space; nothing answers
    /// below $6000, which reads as 0.
    pub open spec fn prg_peek(&self, addr: int) -> u8 {
        if addr >= 0x8000 {
            self.prg@[prg_offset(self, addr)]
        } else if addr >= 0x6000 {
            self.prg_ram@[addr - 0x6000]
        } else {
            0
        }
    }

    /// The byte the PPU sees at `addr` in [0, 0x2000).
    pub open spec fn chr_peek(&self, addr: int) -> u8 {
        self.chr@[chr_offset(self, addr)]
    }

    /// A cartridge whose bank registers are at their power-on values (MMC1
    /// starts with the last PRG bank fixed at $C000).
    pub fn new(kind: MapperKind, prg: Vec<u8>, chr: Vec<u8>, chr_ram: bool, mirroring: Mirroring) -> (r: Mapper)
        requires
            prg@.len() % (PRG_BANK_SIZE as nat) == 0,
            0 < prg@.len() <= MAX_PRG_BANKS * PRG_BANK_SIZE,
            chr@.len() % (CHR_BANK_SIZE as nat) == 0,
            0 < chr@.len() <= MAX_CHR_BANKS * CHR_BANK_SIZE,
        ensures
            r.wf(),
            r.kind == kind,
            r.prg@ == prg@,
            r.chr@ == chr@,
            r.chr_ram == chr_ram,
            r.mirroring == mirroring,
            r.bank_select == 0,
            r.shift_count == 0,
            r.control == (if kind == MapperKind::Mmc1 { 0x0Cu8 } else { 0u8 }),
            r.chr_bank0 == 0,
            r.chr_bank1 == 0,
            r.prg_bank == 0,
            r.prg_ram@ == Seq::new(PRG_RAM_SIZE as nat, |i: int| 0u8),
    {
        let prg_ram = zeroed(PRG_RAM_SIZE);
        let control: u8 = if kind == MapperKind::Mmc1 {
            0x0C
        } else {
            0
        };
        Mapper {
            kind,
            prg,
            chr,
            chr_ram,
            prg_ram,
            mirroring,
            bank_select: 0,
            shift: 0,
            shift_count: 0,
            control,
            chr_bank0: 0,
            chr_bank1: 0,
            prg_bank: 0,
        }
    }

    fn prg_index(&self, addr: u16) -> (r: usize)
        requires
            self.wf(),
            addr >= 0x8000,
        ensures
            r == prg_offset(self, addr as int),
            r < self.prg@.len(),
    {
        let n = self.prg.len() / PRG_BANK_SIZE;
        let off = (addr % 0x4000) as usize;
        let high = addr >= 0xC000;
        let bank: usize = match self.kind {
            MapperKind::Nrom | MapperKind::Cnrom => (if high { 1 } else { 0 }) % n,
            MapperKind::Uxrom => if !high { self.bank_select as usize % n } else { n - 1 },
            MapperKind::Mmc1 => {
                let mode = (self.control / 4) % 4;
                let sel = (self.prg_bank % 16) as usize;
                if mode < 2 {
                    ((sel / 2) * 2 + if high { 1 } else { 0 }) % n
                } else if mode == 2 {
                    if high { sel % n } else { 0 }
                } else {
                    if high { n - 1 } else { sel % n }
                }
            },
        };
        proof {
            assert(bank * 0x4000 + off < self.prg@.len()) by (nonlinear_arith)
                requires
                    bank < n,
                    off < 0x4000,
                    n == self.prg@.len() / 0x4000,
                    self.prg@.len() % 0x4000 == 0,
            ;
        }
        bank * 0x4000 + off
    }

    fn chr_index(&self, addr: u16) -> (r: usize)
        requires
            self.wf(),
            addr < 0x2000,
        ensures
            r == chr_offset(self, addr as int),
            r < self.chr@.len(),
    {
        let n = self.chr.len() / CHR_BANK_SIZE;
        match self.kind {
            MapperKind::Nrom | MapperKind::Uxrom => addr as usize,
            MapperKind::Cnrom => {
                let bank = self.bank_select as usize % n;
                proof {
                    assert(bank * 0x2000 + addr < self.chr@.len()) by (nonlinear_arith)
                        requires
                            bank < n,
                            addr < 0x2000,
                            n == self.chr@.len() / 0x2000,
                            self.chr@.len() % 0x2000 == 0,
                    ;
                }
                bank * 0x2000 + addr as usize
            },
            MapperKind::Mmc1 => {
                if (self.control / 16) % 2 == 0 {
                    let bank = (self.chr_bank0 / 2) as usize % n;
                    proof {
                        assert(bank * 0x2000 + addr < self.chr@.len()) by (nonlinear_arith)
                            requires
                                bank < n,
                                addr < 0x2000,
                                n == self.chr@.len() / 0x2000,
                                self.chr@.len() % 0x2000 == 0,
                        ;
                    }
                    bank * 0x2000 + addr as usize
                } else {
                    let sel = if addr < 0x1000 {
                        self.chr_bank0
                    } else {
                        self.chr_bank1
                    };
                    let bank = sel as usize % (2 * n);
                    let off = (addr % 0x1000) as usize;
                    proof {
                        assert(bank * 0x1000 + off < self.chr@.len()) by (nonlinear_arith)
                            requires
                                bank < 2 * n,
                                off < 0x1000,
                                n == self.chr@.len() / 0x2000,
                                self.chr@.len() % 0x2000 == 0,
                        ;
                    }
                    bank * 0x1000 + off
                }
            },
        }
    }

    /// CPU read of cartridge space.
    pub fn prg_read(&self, addr: u16) -> (r: u8)
        requires
            self.wf(),
        ensures
            r == self.prg_peek(addr as int),
    {
        if addr >= 0x8000 {
            self.prg[self.prg_index(addr)]
        } else if addr >= 0x6000 {
            self.prg_ram[(addr - 0x6000) as usize]
        } else {
            0
        }
    }

    /// PPU read of pattern memory.
    pub fn chr_read(&self, addr: u16) -> (r: u8)
        requires
            self.wf(),
            addr < 0x2000,
        ensures
            r == self.chr_peek(addr as int),
    {
        self.chr[self.chr_index(addr)]
    }

    /// PPU write of pattern memory: kept only where the cartridge has CHR RAM.
    pub fn chr_write(&mut self, addr: u16, val: u8)
        requires
            old(self).wf(),
            addr < 0x2000,
        ensures
            final(self).wf(),
            final(self).chr@ == (if old(self).chr_ram {
                old(self).chr@.update(chr_offset(old(self), addr as int), val)
            } else {
                old(self).chr@
            }),
            final(self).chr@.len() == old(self).chr@.len(),
            final(self).kind == old(self).kind,
            final(self).prg@ == old(self).prg@,
            final(self).prg_ram@ == old(self).prg_ram@,
            final(self).chr_ram == old(self).chr_ram,
            final(self).mirroring == old(self).mirroring,
            final(self).bank_select == old(self).bank_select,
            final(self).shift == old(self).shift,
            final(self).shift_count == old(self).shift_count,
            final(self).control == old(self).control,
            final(self).chr_bank0 == old(self).chr_bank0,
            final(self).chr_bank1 == old(self).chr_bank1,
            final(self).prg_bank == old(self).prg_bank,
    {
        if self.chr_ram {
            let i = self.chr_index(addr);
            self.chr.set(i, val);
        }
    }

    /// Nametable mirroring currently in force.
    pub fn mirroring(&self) -> (r: Mirroring)
        ensures
            r == self.current_mirroring(),
    {
        if self.kind == MapperKind::Mmc1 {
            match self.control % 4 {
                0 => Mirroring::SingleScreenLow,
                1 => Mirroring::SingleScreenHigh,
                2 => Mirroring::Vertical,
                _ => Mirroring::Horizontal,
            }
        } else {
            self.mirroring
        }
    }

    /// CPU write of cartridge space. Work RAM takes writes at $6000-$7FFF;
    /// at $8000 and above the mapper's bank registers do, and on NROM such a
    /// write, like one below $6000, is ignored.
    pub fn prg_write(&mut self, addr: u16, val: u8)
        requires
            old(self).wf(),
        ensures
            final(self).wf(),
            old(self).written(final(self), addr, val),
            final(self).kind == old(self).kind,
            final(self).prg@ == old(self).prg@,
            final(self).chr@ == old(self).chr@,
            final(self).chr_ram == old(self).chr_ram,
            final(self).mirroring == old(self).mirroring,
            final(self).prg_ram@ == (if 0x6000 <= addr < 0x8000 {
                old(self).prg_ram@.update(addr - 0x6000, val)
            } else {
                old(self).prg_ram@
            }),
            final(self).bank_select == (if addr >= 0x8000 && (old(self).kind == MapperKind::Uxrom
                || old(self).kind == MapperKind::Cnrom) {
                val
            } else {
                old(self).bank_select
            }),
            (final(self).shift, final(self).shift_count, final(self).control, final(self).chr_bank0,
            final(self).chr_bank1, final(self).prg_bank) == (if addr >= 0x8000 && old(self).kind
                == MapperKind::Mmc1 {
                mmc1_after(old(self), addr, val)
            } else {
                (
                    old(self).shift,
                    old(self).shift_count,
                    old(self).control,
                    old(self).chr_bank0,
                    old(self).chr_bank1,
                    old(self).prg_bank,
                )
            }),
    {
        if addr < 0x6000 {
        } else if addr < 0x8000 {
            self.prg_ram.set((addr - 0x6000) as usize, val);
        } else {
            match self.kind {
                MapperKind::Nrom => {},
                MapperKind::Uxrom | MapperKind::Cnrom => {
                    self.bank_select = val;
                },
                MapperKind::Mmc1 => {
                    self.mmc1_write(addr, val);
                },
            }
        }
    }

    fn mmc1_write(&mut self, addr: u16, val: u8)
        requires
            old(self).wf(),
        ensures
            final(self).wf(),
            (final(self).shift, final(self).shift_count, final(self).control, final(self).chr_bank0,
            final(self).chr_bank1, final(self).prg_bank) == mmc1_after(old(self), addr, val),
            final(self).kind == old(self).kind,
            final(self).prg@ == old(self).prg@,
            final(self).chr@ == old(self).chr@,
            final(self).prg_ram@ == old(self).prg_ram@,
            final(self).chr_ram == old(self).chr_ram,
            final(self).mirroring == old(self).mirroring,
            final(self).bank_select == old(self).bank_select,
    {
        if val & 0x80 != 0 {
            self.shift = 0;
            self.shift_count = 0;
            self.control = self.control | 0x0C;
        } else {
            let shift = self.shift | ((val & 1) << self.shift_count);
            if self.shift_count == 4 {
                let reg = (addr / 0x2000) % 4;
                if reg == 0 {
                    self.control = shift;
                } else if reg == 1 {
                    self.chr_bank0 = shift;
                } else if reg == 2 {
                    self.chr_bank1 = shift;
                } else {
                    self.prg_bank = shift & 0x0F;
                }
                self.shift = 0;
                self.shift_count = 0;
            } else {
                self.shift = shift;
                self.shift_count = self.shift_count + 1;
            }
        }
    }
}

} // verus!
