//! The frame driver: credits the PPU three dots per CPU cycle, latches the
//! interrupts the PPU raises, and paces frames against the host's clock.
//!
//! Each `tick` services an interrupt or runs one instruction through the
//! machine's bus and credits the PPU three dots per cycle; at vertical blank
//! it hands the frame to a `HostSystem`, paces the frame, and resets the CPU
//! on request.
use vstd::prelude::*;
use crate::zeroed;
use crate::cpu::{
    AddrMode, Interrupt, Registers, Status, pending_interrupt, pending_spec, pushed_status, stack_addr,
    status_of, vector_of, IRQ_VECTOR, NMI_VECTOR,
};
use crate::joypad::{read_spec, write_spec};
use crate::trace::{trace_line, trace_spec};
use crate::cpu::{operand_address, operand_spec, MEM_SIZE};
use crate::step::{
    Op, combo, decode, decode_spec, decoded_step_spec, exec_read, is_branch, is_stack_op, is_store,
    rmw, step, step_spec, store_value,
};
use crate::joypad::Joypad;
use crate::mapper::Mapper;
use crate::ppu::{Clock, Ppu, TickEvent, clock_after, rendering_on, status_after, vblank_count};
use crate::timing::{FrameTiming, Shutdown, pacing_delay, DEFAULT_FPS_MAX};

verus! {

/// CPU cycles spent by the reset sequence before the first instruction.
pub const STARTUP_CYCLES: u64 = 7;

pub const RAM_SIZE: usize = 0x800;

pub const OAMDMA: u16 = 0x4014;

pub const JOYPAD1: u16 = 0x4016;

pub const JOYPAD2: u16 = 0x4017;

/// What the machine needs of its host at each vertical blank.
pub trait HostSystem {
    /// Shows the finished frame.
    fn render(&mut self, ppu: &Ppu);

    /// Handles the host's events: says whether the machine goes on, stops
    /// or resets, and which buttons of controller 1 are held.
    fn poll_events(&mut self) -> (Shutdown, u8);

    /// Milliseconds on the host's clock.
    fn elapsed_millis(&self) -> usize;

    /// Waits `ms` milliseconds.
    fn delay(&mut self, ms: u64);
}

/// What one step of the machine did.
#[derive(PartialEq, Eq, Structural, Clone, Copy, Debug)]
pub struct TickReport {
    /// The interrupt serviced in place of an instruction, if any.
    pub interrupt: Option<Interrupt>,
    /// Cycles of the instruction, or of the interrupt sequence.
    pub instruction: u64,
    /// Cycles the CPU stalled for an OAM DMA the instruction started.
    pub stall: u64,
    /// All CPU cycles charged by this step; the PPU ran three dots for each.
    pub cycles: u64,
    pub event: TickEvent,
    /// At vertical blank: the host's answer, its clock after rendering, and
    /// the delay the machine asked of it.
    pub poll: Option<Shutdown>,
    pub rendered_at: usize,
    pub delay: Option<u64>,
}

/// Bound on the CPU cycle count that keeps a step's arithmetic in range.
pub const CYCLE_LIMIT: u64 = 0x1000_0000_0000_0000;

pub struct Nes {
    /// 2 KiB of work RAM, mirrored every $0800 below $2000.
    pub ram: Vec<u8>,
    pub cart: Mapper,
    pub ppu: Ppu,
    pub joypad: Joypad,
    pub joypad2: Joypad,
    pub timing: FrameTiming,
    pub shutdown: Shutdown,
    /// The CPU's registers; their cycle count is the machine's clock.
    pub cpu: Registers,
    /// NMI latched for the CPU, taken before its next instruction.
    pub nmi_pending: bool,
    /// Level of the IRQ line.
    pub irq_line: bool,
    /// CPU cycles owed by a reset sequence, charged by the next step.
    pub owed: u64,
}

impl Nes {
    pub open spec fn wf(&self) -> bool {
        &&& self.ppu.wf()
        &&& self.cart.wf()
        &&& self.ram@.len() == RAM_SIZE
        &&& self.joypad.index <= 8
        &&& self.joypad2.index <= 8
    }

    /// What the CPU reads at `addr` where reading has no side effect: RAM
    /// and cartridge space; elsewhere 0.
    pub open spec fn peek_cpu(&self, addr: int) -> u8 {
        if addr < 0x2000 {
            self.ram@[addr % 0x800]
        } else if addr >= 0x4020 {
            self.cart.prg_peek(addr)
        } else {
            0
        }
    }

    /// The PC the reset vector at $FFFC holds.
    pub open spec fn reset_vector(&self) -> u16 {
        (self.cart.prg_peek(0xFFFC) as int + 256 * self.cart.prg_peek(0xFFFD) as int) as u16
    }

    /// A machine with cartridge `cart` inserted, just after power-on and
    /// reset. The reset sequence has taken 7 CPU cycles, and the PPU has run
    /// their 21 dots from the top of the first visible line.
    pub fn insert(cart: Mapper) -> (r: Nes)
        requires
            cart.wf(),
        ensures
            r.wf(),
            r.cart == cart,
            r.cpu == (Registers {
                a: 0,
                x: 0,
                y: 0,
                sp: 0xFD,
                p: status_of(0x24),
                pc: r.reset_vector(),
                cycles: STARTUP_CYCLES,
            }),
            r.ppu.clock == (Clock { scanline: 0, dot: 21, odd_frame: false }),
            r.ppu.ctrl == 0,
            r.ppu.mask == 0,
            r.ppu.status == 0,
            r.ram@ == Seq::new(RAM_SIZE as nat, |i: int| 0u8),
            r.joypad == (Joypad { buttons: 0, latched: 0, index: 0, strobe: false }),
            r.joypad2 == (Joypad { buttons: 0, latched: 0, index: 0, strobe: false }),
            r.timing.frame_n == 0,
            r.timing.last_frame_timestamp == 0,
            r.timing.frame_limit_ms == 1000usize / DEFAULT_FPS_MAX,
            r.shutdown == Shutdown::No,
            !r.nmi_pending,
            !r.irq_line,
            r.owed == 0,
    {
        let pc = cart.prg_read(0xFFFC) as u16 + 256 * cart.prg_read(0xFFFD) as u16;
        let mut ppu = Ppu::new();
        ppu.clock = Clock { scanline: 0, dot: 3 * STARTUP_CYCLES as u16, odd_frame: false };
        Nes {
            ram: zeroed(RAM_SIZE),
            joypad2: Joypad::new(),
            cart,
            ppu,
            joypad: Joypad::new(),
            timing: FrameTiming::new(),
            shutdown: Shutdown::No,
            cpu: Registers {
                a: 0,
                x: 0,
                y: 0,
                sp: 0xFD,
                p: Status::from_byte(0x24),
                pc,
                cycles: STARTUP_CYCLES,
            },
            nmi_pending: false,
            irq_line: false,
            owed: 0,
        }
    }

    /// After a frame was rendered and the host polled: records the host's
    /// answer and returns the milliseconds to wait, if the frame was early.
    pub fn end_frame(&mut self, poll: Shutdown, elapsed: usize) -> (r: Option<u64>)
        requires
            old(self).timing.last_frame_timestamp == 0 || old(self).timing.last_frame_timestamp
                <= elapsed,
        ensures
            final(self).shutdown == poll,
            final(self).timing == old(self).timing,
            match r {
                Some(d) => pacing_delay(
                    old(self).timing.last_frame_timestamp as int,
                    elapsed as int,
                    old(self).timing.frame_limit_ms as int,
                ) == Some(d as int),
                None => pacing_delay(
                    old(self).timing.last_frame_timestamp as int,
                    elapsed as int,
                    old(self).timing.frame_limit_ms as int,
                ) is None,
            },
            final(self).ppu == old(self).ppu,
            final(self).cart == old(self).cart,
            final(self).ram == old(self).ram,
            final(self).joypad == old(self).joypad,
            final(self).joypad2 == old(self).joypad2,
            final(self).cpu == old(self).cpu,
            final(self).nmi_pending == old(self).nmi_pending,
            final(self).irq_line == old(self).irq_line,
            final(self).ppu.clock == old(self).ppu.clock,
            final(self).owed == old(self).owed,
    {
        self.shutdown = poll;
        self.timing.post_render(elapsed)
    }

    /// After the pacing delay: stamps the frame and, when the host asked
    /// for it, resets the CPU: SP moves down by three, I is set, PC is
    /// loaded from the reset vector, and the sequence's 7 cycles are owed to
    /// the next step.
    pub fn frame_paced(&mut self, elapsed: usize)
        requires
            old(self).timing.frame_n < usize::MAX,
            old(self).wf(),
        ensures
            final(self).wf(),
            final(self).timing.frame_n == old(self).timing.frame_n + 1,
            final(self).timing.last_frame_timestamp == elapsed,
            final(self).timing.frame_limit_ms == old(self).timing.frame_limit_ms,
            final(self).cpu == (if old(self).shutdown == Shutdown::Reset {
                Registers {
                    sp: ((old(self).cpu.sp as int + 253) % 256) as u8,
                    p: Status { interrupt: true, ..old(self).cpu.p },
                    pc: old(self).reset_vector(),
                    ..old(self).cpu
                }
            } else {
                old(self).cpu
            }),
            final(self).shutdown == (if old(self).shutdown == Shutdown::Reset {
                Shutdown::No
            } else {
                old(self).shutdown
            }),
            final(self).owed == (if old(self).shutdown == Shutdown::Reset {
                STARTUP_CYCLES
            } else {
                old(self).owed
            }),
            final(self).ppu == old(self).ppu,
            final(self).cart == old(self).cart,
            final(self).ram == old(self).ram,
            final(self).joypad == old(self).joypad,
            final(self).joypad2 == old(self).joypad2,
            final(self).nmi_pending == old(self).nmi_pending,
            final(self).irq_line == old(self).irq_line,
            final(self).ppu.clock == old(self).ppu.clock,
    {
        self.timing.post_delay(elapsed);
        if self.shutdown == Shutdown::Reset {
            let pc = self.cart.prg_read(0xFFFC) as u16 + 256 * self.cart.prg_read(0xFFFD) as u16;
            self.cpu.sp = self.cpu.sp.wrapping_sub(3);
            self.cpu.p.interrupt = true;
            self.cpu.pc = pc;
            self.owed = STARTUP_CYCLES;
            self.shutdown = Shutdown::No;
        }
    }

    /// Before the next instruction: services the pending interrupt, if any
    /// (NMI first; IRQ only while I is clear). PCH, PCL and the status byte
    /// (B clear, bit 5 set) go to the stack in page 1 of RAM, I is set, PC
    /// comes from the vector, and 7 cycles are charged. A serviced NMI is no
    /// longer pending; the IRQ line stays as the cartridge holds it.
    fn service_interrupt(&mut self) -> (r: Option<Interrupt>)
        requires
            old(self).wf(),
            old(self).cpu.cycles + 7 <= u64::MAX,
        ensures
            final(self).wf(),
            r == pending_spec(old(self).nmi_pending, old(self).irq_line, old(self).cpu.p.interrupt),
            final(self).nmi_pending == (old(self).nmi_pending && r != Some(Interrupt::Nmi)),
            r is None ==> final(self).cpu == old(self).cpu && final(self).ram == old(self).ram,
            r matches Some(k) ==> {
                let sp = old(self).cpu.sp as int;
                let pc = old(self).cpu.pc as int;
                let v = vector_of(k) as int;
                &&& final(self).ram@ == old(self).ram@.update(stack_addr(sp), (pc / 256) as u8).update(
                    stack_addr(sp + 255),
                    (pc % 256) as u8,
                ).update(stack_addr(sp + 254), pushed_status(old(self).cpu.p, k))
                &&& final(self).cpu == (Registers {
                    sp: ((sp + 253) % 256) as u8,
                    p: Status { interrupt: true, ..old(self).cpu.p },
                    pc: (old(self).cart.prg_peek(v) as int + 256 * old(self).cart.prg_peek(v + 1) as int) as u16,
                    cycles: (old(self).cpu.cycles + 7) as u64,
                    ..old(self).cpu
                })
            },
            final(self).irq_line == old(self).irq_line,
            final(self).ppu.clock == old(self).ppu.clock,
            final(self).owed == old(self).owed,
            final(self).ppu == old(self).ppu,
            final(self).cart == old(self).cart,
            final(self).joypad == old(self).joypad,
            final(self).joypad2 == old(self).joypad2,
            final(self).timing == old(self).timing,
            final(self).shutdown == old(self).shutdown,
    {
        let r = pending_interrupt(self.nmi_pending, self.irq_line, self.cpu.p.interrupt);
        match r {
            None => {},
            Some(k) => {
                if k == Interrupt::Nmi {
                    self.nmi_pending = false;
                }
                let pc = self.cpu.pc;
                self.push_stack((pc / 256) as u8);
                self.push_stack((pc % 256) as u8);
                let b = Status { unused: true, brk: false, ..self.cpu.p }.to_byte();
                self.push_stack(b);
                let vector: u16 = if k == Interrupt::Nmi {
                    NMI_VECTOR
                } else {
                    IRQ_VECTOR
                };
                let lo = self.cart.prg_read(vector) as u16;
                let hi = self.cart.prg_read(vector + 1) as u16;
                self.cpu.p.interrupt = true;
                self.cpu.pc = lo + 256 * hi;
                self.cpu.cycles = self.cpu.cycles + 7;
            },
        }
        r
    }

    /// Stores `val` at the stack slot of SP (page 1 of RAM) and moves SP
    /// down by one, wrapping.
    fn push_stack(&mut self, val: u8)
        requires
            old(self).wf(),
        ensures
            final(self).wf(),
            final(self).ram@ == old(self).ram@.update(stack_addr(old(self).cpu.sp as int), val),
            final(self).cpu == (Registers {
                sp: ((old(self).cpu.sp as int + 255) % 256) as u8,
                ..old(self).cpu
            }),
            final(self).nmi_pending == old(self).nmi_pending,
            final(self).irq_line == old(self).irq_line,
            final(self).ppu.clock == old(self).ppu.clock,
            final(self).owed == old(self).owed,
            final(self).ppu == old(self).ppu,
            final(self).cart == old(self).cart,
            final(self).joypad == old(self).joypad,
            final(self).joypad2 == old(self).joypad2,
            final(self).timing == old(self).timing,
            final(self).shutdown == old(self).shutdown,
    {
        self.ram.set(0x100 + self.cpu.sp as usize, val);
        self.cpu.sp = self.cpu.sp.wrapping_sub(1);
    }

    /// Sets the target frame rate.
    pub fn fps_max(&mut self, fps_max: usize)
        requires
            fps_max > 0,
        ensures
            final(self).timing.frame_limit_ms == 1000usize / fps_max,
            final(self).timing.frame_n == old(self).timing.frame_n,
            final(self).timing.last_frame_timestamp == old(self).timing.last_frame_timestamp,
            final(self).ppu == old(self).ppu,
            final(self).cart == old(self).cart,
            final(self).ram == old(self).ram,
            final(self).joypad == old(self).joypad,
            final(self).joypad2 == old(self).joypad2,
            final(self).shutdown == old(self).shutdown,
            final(self).cpu == old(self).cpu,
            final(self).nmi_pending == old(self).nmi_pending,
            final(self).irq_line == old(self).irq_line,
            final(self).ppu.clock == old(self).ppu.clock,
            final(self).owed == old(self).owed,
    {
        self.timing.fps_max(fps_max);
    }

    pub fn cpu_ticks(&self) -> (r: u64)
        ensures
            r == self.cpu.cycles,
    {
        self.cpu.cycles
    }

    /// The machine runs until the host asks for shutdown.
    pub fn powered_on(&self) -> (r: bool)
        ensures
            r == (self.shutdown != Shutdown::Yes),
    {
        self.shutdown != Shutdown::Yes
    }

    /// CPU bus read. RAM repeats every $0800 below $2000; the eight PPU
    /// registers repeat every 8 bytes up to $3FFF, where PPUSTATUS, OAMDATA
    /// and PPUDATA answer and the write-only ones read as 0; $4016 and $4017
    /// are the controllers; cartridge space starts at $4020.
    pub fn read8(&mut self, addr: u16) -> (r: u8)
        requires
            old(self).wf(),
        ensures
            final(self).wf(),
            addr < 0x2000 || addr >= 0x4020 ==> r == old(self).peek_cpu(addr as int),
            0x2000 <= addr < 0x4000 && addr % 8 == 2 ==> r == old(self).ppu.status
                && final(self).ppu.status == old(self).ppu.status & 0x7Fu8
                && !final(self).ppu.loopy.w,
            0x2000 <= addr < 0x4000 && addr % 8 == 4 ==> r == old(self).ppu.oam@[
                old(self).ppu.oam_addr as int
            ],
            0x2000 <= addr < 0x4000 && addr % 8 == 7 ==> final(self).ppu.loopy.v as int == (
            old(self).ppu.loopy.v as int + crate::ppu::vram_step(old(self).ppu.ctrl)) % 0x8000
                && r == (if old(self).ppu.loopy.v as int % 0x4000 < 0x3F00 {
                old(self).ppu.read_buffer
            } else {
                old(self).ppu.peek(&old(self).cart, old(self).ppu.loopy.v as int)
            }),
            0x2000 <= addr < 0x4000 && addr % 8 == 7 ==> final(self).ppu.read_buffer == (if old(
                self,
            ).ppu.loopy.v as int % 0x4000 < 0x3F00 {
                old(self).ppu.peek(&old(self).cart, old(self).ppu.loopy.v as int % 0x4000)
            } else {
                old(self).ppu.peek(&old(self).cart, old(self).ppu.loopy.v as int % 0x4000 - 0x1000)
            }),
            0x2000 <= addr < 0x4000 && addr % 8 != 2 && addr % 8 != 4 && addr % 8 != 7 ==> r == 0,
            0x2000 <= addr < 0x4000 && addr % 8 != 2 && addr % 8 != 7 ==> final(self).ppu
                == old(self).ppu,
            addr == JOYPAD1 ==> (r, final(self).joypad) == read_spec(old(self).joypad),
            addr == JOYPAD2 ==> (r, final(self).joypad2) == read_spec(old(self).joypad2),
            0x4000 <= addr < 0x4020 && addr != JOYPAD1 && addr != JOYPAD2 ==> r == 0,
            addr != JOYPAD1 ==> final(self).joypad == old(self).joypad,
            addr != JOYPAD2 ==> final(self).joypad2 == old(self).joypad2,
            !(0x2000 <= addr < 0x4000) ==> final(self).ppu == old(self).ppu,
            final(self).ram == old(self).ram,
            final(self).cart == old(self).cart,
            final(self).cpu == old(self).cpu,
            final(self).timing == old(self).timing,
            final(self).shutdown == old(self).shutdown,
            final(self).nmi_pending == old(self).nmi_pending,
            final(self).irq_line == old(self).irq_line,
            final(self).ppu.clock == old(self).ppu.clock,
            final(self).owed == old(self).owed,
    {
        if addr < 0x2000 {
            self.ram[(addr % 0x800) as usize]
        } else if addr < 0x4000 {
            match addr % 8 {
                2 => self.ppu.read_status(),
                4 => self.ppu.read_oam_data(),
                7 => self.ppu.read_data(&self.cart),
                _ => 0,
            }
        } else if addr == JOYPAD1 {
            self.joypad.read()
        } else if addr == JOYPAD2 {
            self.joypad2.read()
        } else if addr < 0x4020 {
            0
        } else {
            self.cart.prg_read(addr)
        }
    }

    /// CPU bus write. Returns the cycles the CPU stalls for it: those of an
    /// OAM DMA for a write to $4014, else 0. A write of $4016 drives both
    /// controllers' strobe; writes to cartridge space go to the mapper.
    pub fn write8(&mut self, addr: u16, val: u8) -> (r: u64)
        requires
            old(self).wf(),
        ensures
            final(self).wf(),
            r == (if addr == OAMDMA {
                crate::ppu::dma_stall(old(self).cpu.cycles)
            } else {
                0u64
            }),
            addr < 0x2000 ==> final(self).ram@ == old(self).ram@.update(addr as int % 0x800, val),
            addr >= 0x2000 ==> final(self).ram == old(self).ram,
            final(self).nmi_pending == (old(self).nmi_pending || (0x2000 <= addr < 0x4000 && addr
                % 8 == 0 && old(self).ppu.ctrl & 0x80u8 == 0 && val & 0x80u8 != 0
                && old(self).ppu.status & 0x80u8 != 0)),
            0x2000 <= addr < 0x4000 && addr % 8 == 0 ==> final(self).ppu.ctrl == val
                && final(self).ppu.loopy == crate::ppu::after_ctrl_write(old(self).ppu.loopy, val),
            0x2000 <= addr < 0x4000 && addr % 8 == 1 ==> final(self).ppu == (Ppu {
                mask: val,
                ..old(self).ppu
            }),
            0x2000 <= addr < 0x4000 && addr % 8 == 2 ==> final(self).ppu == old(self).ppu,
            0x2000 <= addr < 0x4000 && addr % 8 == 3 ==> final(self).ppu == (Ppu {
                oam_addr: val,
                ..old(self).ppu
            }),
            0x2000 <= addr < 0x4000 && addr % 8 == 4 ==> final(self).ppu.oam@ == old(
                self,
            ).ppu.oam@.update(old(self).ppu.oam_addr as int, val),
            0x2000 <= addr < 0x4000 && addr % 8 == 5 ==> final(self).ppu == (Ppu {
                loopy: crate::ppu::after_scroll_write(old(self).ppu.loopy, val),
                ..old(self).ppu
            }),
            0x2000 <= addr < 0x4000 && addr % 8 == 6 ==> final(self).ppu == (Ppu {
                loopy: crate::ppu::after_addr_write(old(self).ppu.loopy, val),
                ..old(self).ppu
            }),
            0x2000 <= addr < 0x4000 && addr % 8 == 7 ==> final(self).ppu.loopy.v as int == (
            old(self).ppu.loopy.v as int + crate::ppu::vram_step(old(self).ppu.ctrl)) % 0x8000,
            addr == OAMDMA ==> forall|i: int|
                0 <= i < 256 ==> #[trigger] final(self).ppu.oam@[(old(self).ppu.oam_addr as int + i)
                    % 256] == old(self).peek_cpu(val as int * 256 + i),
            addr == JOYPAD1 ==> final(self).joypad == write_spec(old(self).joypad, val)
                && final(self).joypad2 == write_spec(old(self).joypad2, val),
            addr != JOYPAD1 ==> final(self).joypad == old(self).joypad && final(self).joypad2
                == old(self).joypad2,
            !(0x2000 <= addr < 0x4000) && addr != OAMDMA ==> final(self).ppu == old(self).ppu,
            addr < 0x4020 && !(0x2000 <= addr < 0x4000 && addr % 8 == 7) ==> final(self).cart == old(
                self,
            ).cart,
            0x2000 <= addr < 0x4000 && addr % 8 == 7 ==> final(self).cart.same_banks(&old(self).cart),
            final(self).cart.kind == old(self).cart.kind,
            final(self).cart.prg@ == old(self).cart.prg@,
            addr >= 0x4020 ==> old(self).cart.written(&final(self).cart, addr, val),
            final(self).cpu == old(self).cpu,
            final(self).timing == old(self).timing,
            final(self).shutdown == old(self).shutdown,
            final(self).irq_line == old(self).irq_line,
            final(self).ppu.clock == old(self).ppu.clock,
            final(self).owed == old(self).owed,
    {
        if addr < 0x2000 {
            self.ram.set((addr % 0x800) as usize, val);
            0
        } else if addr < 0x4000 {
            match addr % 8 {
                0 => {
                    if self.ppu.ctrl & 0x80 == 0 && val & 0x80 != 0 && self.ppu.status & 0x80 != 0 {
                        self.nmi_pending = true;
                    }
                    self.ppu.write_ctrl(val);
                },
                1 => self.ppu.write_mask(val),
                3 => self.ppu.write_oam_addr(val),
                4 => self.ppu.write_oam_data(val),
                5 => self.ppu.write_scroll(val),
                6 => self.ppu.write_addr(val),
                7 => self.ppu.write_data(&mut self.cart, val),
                _ => {},
            }
            0
        } else if addr == OAMDMA {
            let page = self.dma_page(val);
            self.ppu.oam_dma(&page);
            crate::ppu::dma_stall_cycles(self.cpu.cycles)
        } else if addr == JOYPAD1 {
            self.joypad.write(val);
            self.joypad2.write(val);
            0
        } else if addr < 0x4020 {
            0
        } else {
            self.cart.prg_write(addr, val);
            0
        }
    }

    /// The 256 bytes of CPU page `page`, as OAM DMA reads them.
    fn dma_page(&self, page: u8) -> (r: Vec<u8>)
        requires
            self.wf(),
        ensures
            r@.len() == 256,
            forall|i: int| 0 <= i < 256 ==> #[trigger] r@[i] == self.peek_cpu(page as int * 256 + i),
    {
        let mut r: Vec<u8> = Vec::with_capacity(256);
        let base: u16 = page as u16 * 256;
        let mut i: u16 = 0;
        while i < 256
            invariant
                i <= 256,
                self.wf(),
                base == page as int * 256,
                r@.len() == i,
                forall|j: int| 0 <= j < i ==> #[trigger] r@[j] == self.peek_cpu(page as int * 256 + j),
            decreases 256 - i,
        {
            let a = base + i;
            let b = if a < 0x2000 {
                self.ram[(a % 0x800) as usize]
            } else if a >= 0x4020 {
                self.cart.prg_read(a)
            } else {
                0
            };
            r.push(b);
            i = i + 1;
        }
        r
    }

    /// The trace line for the CPU as it stands, with the PPU's clock.
    pub fn trace(&self) -> (s: Vec<u8>)
        requires
            self.wf(),
        ensures
            s@ == trace_spec(self.cpu, self.ppu.clock),
    {
        trace_line(&self.cpu, &self.ppu.clock)
    }

    /// The CPU address space as reads without side effects see it: RAM and
    /// cartridge space, with the I/O window ($2000-$401F) as 0.
    pub open spec fn cpu_view(&self) -> Seq<u8> {
        Seq::new(0x10000, |a: int| self.peek_cpu(a))
    }

    fn view(&self) -> (v: Vec<u8>)
        requires
            self.wf(),
        ensures
            v@ == self.cpu_view(),
    {
        let mut v: Vec<u8> = Vec::with_capacity(MEM_SIZE);
        let mut a: usize = 0;
        while a < MEM_SIZE
            invariant
                a <= MEM_SIZE,
                self.wf(),
                v@.len() == a,
                forall|j: int| 0 <= j < a ==> #[trigger] v@[j] == self.peek_cpu(j),
            decreases MEM_SIZE - a,
        {
            let b = if a < 0x2000 {
                self.ram[a % 0x800]
            } else if a >= 0x4020 {
                self.cart.prg_read(a as u16)
            } else {
                0
            };
            v.push(b);
            a = a + 1;
        }
        assert(v@ =~= self.cpu_view());
        v
    }

    /// The opcode table entry of the instruction at PC, when it has a memory
    /// operand that goes over the bus (stack instructions and branches aside).
    pub open spec fn bus_operand(&self) -> Option<(Op, AddrMode)> {
        let view = self.cpu_view();
        let opcode = view[self.cpu.pc as int];
        if is_stack_op(opcode) || is_branch(opcode) {
            None
        } else {
            match decode_spec(opcode) {
                Some((op, Some(m))) => if op == Op::Jmp { None } else { Some((op, m)) },
                _ => None,
            }
        }
    }

    /// Address of the memory operand of the instruction at PC.
    pub open spec fn operand_addr(&self, m: AddrMode) -> int {
        operand_spec(self.cpu, self.cpu_view(), m).0
    }

    /// Runs the instruction at PC. Its opcode, operand bytes, pointers,
    /// stack and vectors are read without side effects; its data operand is
    /// read and written through the bus, so loads from the I/O window have
    /// their side effects and stores reach the PPU, OAM DMA, the controllers
    /// and the mapper. Returns the instruction's cycles and the cycles the
    /// CPU then stalls for a DMA.
    fn execute(&mut self) -> (r: (u64, u64))
        requires
            old(self).wf(),
            old(self).cpu.cycles + 8 <= u64::MAX,
        ensures
            final(self).wf(),
            ({
                let s = step_spec(old(self).cpu, old(self).cpu_view());
                &&& r.0 as int == s.0.cycles - old(self).cpu.cycles
                &&& 2 <= r.0 <= 8
                &&& final(self).cpu.pc == s.0.pc
                &&& final(self).cpu.cycles == s.0.cycles
                &&& (match old(self).bus_operand() {
                    Some((op, m)) => !is_store(op) && 0x2000 <= old(self).operand_addr(m) < 0x4020,
                    None => false,
                } || final(self).cpu == s.0)
                &&& is_stack_op(old(self).cpu_view()[old(self).cpu.pc as int]) ==> forall|i: int|
                    0 <= i < 256 ==> #[trigger] final(self).ram@[0x100 + i] == s.1[0x100 + i]
            }),
            match old(self).bus_operand() {
                Some((op, m)) => is_store(op) ==> {
                let a = old(self).operand_addr(m);
                let v = store_value(old(self).cpu, op);
                &&& a < 0x2000 ==> final(self).ram@ == old(self).ram@.update(a % 0x800, v)
                &&& a == 0x4014 ==> r.1 == crate::ppu::dma_stall(old(self).cpu.cycles)
                    && forall|i: int|
                    0 <= i < 256 ==> #[trigger] final(self).ppu.oam@[(old(self).ppu.oam_addr as int
                        + i) % 256] == old(self).peek_cpu(v as int * 256 + i)
                &&& 0x2000 <= a < 0x4000 && a % 8 == 5 ==> final(self).ppu.loopy
                    == crate::ppu::after_scroll_write(old(self).ppu.loopy, v)
                &&& 0x2000 <= a < 0x4000 && a % 8 == 6 ==> final(self).ppu.loopy
                    == crate::ppu::after_addr_write(old(self).ppu.loopy, v)
                },
                None => true,
            },
            old(self).bus_operand() is None ==> r.1 == 0 && final(self).ppu == old(self).ppu,
            r.1 <= 514,
            final(self).timing == old(self).timing,
            final(self).shutdown == old(self).shutdown,
            final(self).irq_line == old(self).irq_line,
            final(self).ppu.clock == old(self).ppu.clock,
            final(self).owed == old(self).owed,
    {
        let view = self.view();
        let opcode = view[self.cpu.pc as usize];
        let stack = opcode == 0x00 || opcode == 0x08 || opcode == 0x20 || opcode == 0x28 || opcode
            == 0x40 || opcode == 0x48 || opcode == 0x60 || opcode == 0x68;
        let branch = opcode % 32 == 16;
        let d = if stack || branch {
            None
        } else {
            decode(opcode)
        };
        let operand: Option<(Op, AddrMode)> = match d {
            Some((op, Some(m))) => if op == Op::Jmp {
                None
            } else {
                Some((op, m))
            },
            _ => None,
        };
        assert(operand == self.bus_operand());
        match operand {
            None => self.execute_plain(view),
            Some((op, m)) => {
                proof {
                    assert(step_spec(self.cpu, view@) == decoded_step_spec(self.cpu, view@, d));
                }
                self.execute_operand(&view, op, m)
            },
        }
    }

    /// An instruction without a bus operand: run over the side-effect-free
    /// view, keeping the stack page it leaves.
    #[verifier::rlimit(100)]
    fn execute_plain(&mut self, view: Vec<u8>) -> (r: (u64, u64))
        requires
            old(self).wf(),
            old(self).cpu.cycles + 8 <= u64::MAX,
            view@ == old(self).cpu_view(),
            old(self).bus_operand() is None,
        ensures
            final(self).wf(),
            ({
                let s = step_spec(old(self).cpu, old(self).cpu_view());
                &&& r.0 as int == s.0.cycles - old(self).cpu.cycles
                &&& 2 <= r.0 <= 8
                &&& r.1 == 0
                &&& final(self).cpu == s.0
                &&& forall|i: int|
                    0 <= i < 256 ==> #[trigger] final(self).ram@[0x100 + i] == s.1[0x100 + i]
            }),
            final(self).ppu == old(self).ppu,
            final(self).timing == old(self).timing,
            final(self).shutdown == old(self).shutdown,
            final(self).irq_line == old(self).irq_line,
            final(self).ppu.clock == old(self).ppu.clock,
            final(self).owed == old(self).owed,
    {
        let mut cpu = self.cpu;
        let mut mem = view;
        let c = step(&mut cpu, &mut mem);
        let mut i: usize = 0;
        while i < 256
            invariant
                i <= 256,
                self.wf(),
                mem@.len() == MEM_SIZE,
                self.ppu == old(self).ppu,
                self.cart == old(self).cart,
                self.cpu == old(self).cpu,
                self.joypad == old(self).joypad,
                self.joypad2 == old(self).joypad2,
                self.timing == old(self).timing,
                self.shutdown == old(self).shutdown,
                self.irq_line == old(self).irq_line,
                self.owed == old(self).owed,
                forall|j: int| 0 <= j < i ==> #[trigger] self.ram@[0x100 + j] == mem@[0x100 + j],
            decreases 256 - i,
        {
            self.ram.set(0x100 + i, mem[0x100 + i]);
            i = i + 1;
        }
        self.cpu = cpu;
        (c, 0)
    }

    /// An instruction whose data operand goes over the bus. Its effect on
    /// the registers is that of `step` over the side-effect-free view, except
    /// that a load or read-modify-write in the I/O window works on the byte
    /// the bus returns.
    #[verifier::rlimit(100)]
    fn execute_operand(&mut self, view: &Vec<u8>, op: Op, m: AddrMode) -> (r: (u64, u64))
        requires
            old(self).wf(),
            old(self).cpu.cycles + 8 <= u64::MAX,
            view@ == old(self).cpu_view(),
            old(self).bus_operand() == Some((op, m)),
        ensures
            final(self).wf(),
            ({
                let s = step_spec(old(self).cpu, old(self).cpu_view());
                &&& r.0 as int == s.0.cycles - old(self).cpu.cycles
                &&& 2 <= r.0 <= 8
                &&& final(self).cpu.pc == s.0.pc
                &&& final(self).cpu.cycles == s.0.cycles
                &&& (match old(self).bus_operand() {
                    Some((op, m)) => !is_store(op) && 0x2000 <= old(self).operand_addr(m) < 0x4020,
                    None => false,
                } || final(self).cpu == s.0)
                &&& is_stack_op(old(self).cpu_view()[old(self).cpu.pc as int]) ==> forall|i: int|
                    0 <= i < 256 ==> #[trigger] final(self).ram@[0x100 + i] == s.1[0x100 + i]
            }),
            match old(self).bus_operand() {
                Some((op, m)) => is_store(op) ==> {
                let a = old(self).operand_addr(m);
                let v = store_value(old(self).cpu, op);
                &&& a < 0x2000 ==> final(self).ram@ == old(self).ram@.update(a % 0x800, v)
                &&& a == 0x4014 ==> r.1 == crate::ppu::dma_stall(old(self).cpu.cycles)
                    && forall|i: int|
                    0 <= i < 256 ==> #[trigger] final(self).ppu.oam@[(old(self).ppu.oam_addr as int
                        + i) % 256] == old(self).peek_cpu(v as int * 256 + i)
                &&& 0x2000 <= a < 0x4000 && a % 8 == 5 ==> final(self).ppu.loopy
                    == crate::ppu::after_scroll_write(old(self).ppu.loopy, v)
                &&& 0x2000 <= a < 0x4000 && a % 8 == 6 ==> final(self).ppu.loopy
                    == crate::ppu::after_addr_write(old(self).ppu.loopy, v)
                },
                None => true,
            },
            old(self).bus_operand() is None ==> r.1 == 0 && final(self).ppu == old(self).ppu,
            r.1 <= 514,
            final(self).timing == old(self).timing,
            final(self).shutdown == old(self).shutdown,
            final(self).irq_line == old(self).irq_line,
            final(self).ppu.clock == old(self).ppu.clock,
            final(self).owed == old(self).owed,
    {
        let cpu0 = self.cpu;
        let mut after = self.cpu;
        let mut mem = view.clone();
        let c = step(&mut after, &mut mem);
        let (addr, crossed) = operand_address(&cpu0, view, m);
        proof {
            assert(addr as int == self.operand_addr(m));
        }
        let window = 0x2000 <= addr && addr < 0x4020;
        let store = op == Op::Sta || op == Op::Stx || op == Op::Sty || op == Op::Sax;
        let modify = op == Op::Asl || op == Op::Lsr || op == Op::Rol || op == Op::Ror || op
            == Op::Inc || op == Op::Dec;
        let both = op == Op::Slo || op == Op::Rla || op == Op::Sre || op == Op::Rra || op
            == Op::Dcp || op == Op::Isb;
        let mut stall: u64 = 0;
        if store {
            let v = match op {
                Op::Stx => cpu0.x,
                Op::Sty => cpu0.y,
                Op::Sax => cpu0.a & cpu0.x,
                _ => cpu0.a,
            };
            stall = self.bus_write(addr, v);
            self.cpu = after;
        } else if !window {
            if modify || both {
                stall = self.bus_write(addr, mem[addr as usize]);
            }
            self.cpu = after;
        } else {
            let v = self.bus_read(addr);
            let mut cpu = cpu0;
            if modify {
                let (w, p) = rmw(op, cpu.p, v);
                cpu.p = p;
                stall = self.bus_write(addr, w);
            } else if both {
                let (w, r2) = combo(cpu, op, v);
                cpu = r2;
                stall = self.bus_write(addr, w);
            } else {
                exec_read(&mut cpu, op, v);
            }
            cpu.pc = after.pc;
            cpu.cycles = after.cycles;
            self.cpu = cpu;
        }
        (c, stall)
    }

    /// A data read of the executor: `read8`, with what the executor needs of it.
    fn bus_read(&mut self, addr: u16) -> (r: u8)
        requires
            old(self).wf(),
        ensures
            final(self).wf(),
            !(0x2000 <= addr < 0x4020) ==> r == old(self).peek_cpu(addr as int),
            final(self).cpu == old(self).cpu,
            final(self).timing == old(self).timing,
            final(self).shutdown == old(self).shutdown,
            final(self).irq_line == old(self).irq_line,
            final(self).ppu.clock == old(self).ppu.clock,
            final(self).owed == old(self).owed,
    {
        self.read8(addr)
    }

    /// A data write of the executor: `write8`, with what the executor needs of it.
    fn bus_write(&mut self, addr: u16, v: u8) -> (r: u64)
        requires
            old(self).wf(),
        ensures
            final(self).wf(),
            addr < 0x2000 ==> final(self).ram@ == old(self).ram@.update(addr as int % 0x800, v),
            r <= 514,
            addr == 0x4014 ==> r == crate::ppu::dma_stall(old(self).cpu.cycles) && forall|i: int|
                0 <= i < 256 ==> #[trigger] final(self).ppu.oam@[(old(self).ppu.oam_addr as int + i)
                    % 256] == old(self).peek_cpu(v as int * 256 + i),
            0x2000 <= addr < 0x4000 && addr % 8 == 5 ==> final(self).ppu.loopy
                == crate::ppu::after_scroll_write(old(self).ppu.loopy, v),
            0x2000 <= addr < 0x4000 && addr % 8 == 6 ==> final(self).ppu.loopy
                == crate::ppu::after_addr_write(old(self).ppu.loopy, v),
            final(self).cpu == old(self).cpu,
            final(self).timing == old(self).timing,
            final(self).shutdown == old(self).shutdown,
            final(self).irq_line == old(self).irq_line,
            final(self).ppu.clock == old(self).ppu.clock,
            final(self).owed == old(self).owed,
    {
        self.write8(addr, v)
    }

    /// One step of the machine: services the pending interrupt or runs the
    /// instruction at PC, charges the DMA stall and the cycles a reset owes,
    /// and credits the PPU three dots for every cycle charged. When vertical
    /// blank starts it latches the NMI if PPUCTRL asks for it, hands the
    /// frame to the host, polls it, asks it to wait out the rest of the frame
    /// period, stamps the frame, and resets the CPU if the host asked.
    pub fn tick<H: HostSystem>(&mut self, host: &mut H) -> (r: TickReport)
        requires
            old(self).wf(),
            old(self).cpu.cycles < CYCLE_LIMIT,
            old(self).owed <= STARTUP_CYCLES,
            old(self).timing.frame_n < usize::MAX,
        ensures
            final(self).wf(),
            r.interrupt == pending_spec(old(self).nmi_pending, old(self).irq_line, old(self).cpu.p.interrupt),
            r.cycles == r.instruction + r.stall + old(self).owed,
            final(self).cpu.cycles == old(self).cpu.cycles + r.cycles,
            final(self).ppu.clock == clock_after(
                old(self).ppu.clock,
                rendering_on(final(self).ppu.mask),
                (3 * r.cycles) as nat,
            ),
            r.event == (if vblank_count(
                old(self).ppu.clock,
                rendering_on(final(self).ppu.mask),
                (3 * r.cycles) as nat,
            ) > 0 {
                TickEvent::EnteredVblank
            } else {
                TickEvent::Idle
            }),
            r.interrupt is Some ==> r.instruction == 7 && r.stall == 0,
            r.interrupt is None ==> {
                let s = step_spec(old(self).cpu, old(self).cpu_view());
                &&& r.instruction as int == s.0.cycles - old(self).cpu.cycles
                &&& 2 <= r.instruction <= 8
                &&& r.poll != Some(Shutdown::Reset) ==> final(self).cpu.pc == s.0.pc
            },
            r.interrupt is None ==> match old(self).bus_operand() {
                Some((op, m)) => is_store(op) ==> {
                    let a = old(self).operand_addr(m);
                    let v = store_value(old(self).cpu, op);
                    &&& a == 0x4014 ==> r.stall == crate::ppu::dma_stall(old(self).cpu.cycles)
                        && forall|i: int|
                        0 <= i < 256 ==> #[trigger] final(self).ppu.oam@[(old(self).ppu.oam_addr as int
                            + i) % 256] == old(self).peek_cpu(v as int * 256 + i)
                    &&& 0x2000 <= a < 0x4000 && a % 8 == 5 ==> final(self).ppu.loopy
                        == crate::ppu::after_scroll_write(old(self).ppu.loopy, v)
                    &&& 0x2000 <= a < 0x4000 && a % 8 == 6 ==> final(self).ppu.loopy
                        == crate::ppu::after_addr_write(old(self).ppu.loopy, v)
                },
                None => r.stall == 0,
            },
            (r.event == TickEvent::EnteredVblank) == (r.poll is Some),
            r.event == TickEvent::EnteredVblank && final(self).ppu.ctrl & 0x80u8 != 0
                && final(self).ppu.status & 0x80u8 != 0 ==> final(self).nmi_pending,
            r.poll is Some ==> {
                let last = old(self).timing.last_frame_timestamp as int;
                let limit = old(self).timing.frame_limit_ms as int;
                &&& r.delay == (if last == 0 || last <= r.rendered_at {
                    match pacing_delay(last, r.rendered_at as int, limit) {
                        Some(d) => Some(d as u64),
                        None => None,
                    }
                } else {
                    None
                })
                &&& final(self).timing.frame_n == old(self).timing.frame_n + 1
            },
            r.poll is None ==> r.delay is None && final(self).timing == old(self).timing
                && final(self).shutdown == old(self).shutdown,
            r.poll == Some(Shutdown::Reset) ==> final(self).cpu.pc == final(self).reset_vector()
                && final(self).cpu.p.interrupt && final(self).shutdown == Shutdown::No
                && final(self).owed == STARTUP_CYCLES,
            r.poll != Some(Shutdown::Reset) ==> final(self).owed == 0,
            (r.poll matches Some(p) && p != Shutdown::Reset) ==> final(self).shutdown == r.poll->0,
    {
        let (intr, instruction, stall) = self.run_cpu();
        let extra = stall + self.owed;
        self.owed = 0;
        self.cpu.cycles = self.cpu.cycles + extra;
        let cycles = instruction + extra;
        let event = self.ppu.tick(3 * cycles);
        if event == TickEvent::TriggerIrq {
            self.irq_line = true;
        }
        if event == TickEvent::EnteredVblank && self.ppu.nmi_on_vblank() {
            self.nmi_pending = true;
        }
        let (poll, rendered_at, delay) = if event == TickEvent::EnteredVblank {
            let (p, e, d) = self.handoff(host);
            (Some(p), e, d)
        } else {
            (None, 0, None)
        };
        TickReport { interrupt: intr, instruction, stall, cycles, event, poll, rendered_at, delay }
    }

    /// The CPU's part of a step: the pending interrupt, or the instruction.
    #[verifier::rlimit(100)]
    fn run_cpu(&mut self) -> (r: (Option<Interrupt>, u64, u64))
        requires
            old(self).wf(),
            old(self).cpu.cycles < CYCLE_LIMIT,
        ensures
            final(self).wf(),
            r.0 == pending_spec(old(self).nmi_pending, old(self).irq_line, old(self).cpu.p.interrupt),
            final(self).cpu.cycles == old(self).cpu.cycles + r.1,
            r.0 is Some ==> r.1 == 7 && r.2 == 0,
            r.2 <= 514,
            r.0 is None ==> {
                let s = step_spec(old(self).cpu, old(self).cpu_view());
                &&& r.1 as int == s.0.cycles - old(self).cpu.cycles
                &&& 2 <= r.1 <= 8
                &&& final(self).cpu.pc == s.0.pc
            },
            r.0 is None ==> match old(self).bus_operand() {
                Some((op, m)) => is_store(op) ==> {
                    let a = old(self).operand_addr(m);
                    let v = store_value(old(self).cpu, op);
                    &&& a == 0x4014 ==> r.2 == crate::ppu::dma_stall(old(self).cpu.cycles)
                        && forall|i: int|
                        0 <= i < 256 ==> #[trigger] final(self).ppu.oam@[(old(self).ppu.oam_addr as int
                            + i) % 256] == old(self).peek_cpu(v as int * 256 + i)
                    &&& 0x2000 <= a < 0x4000 && a % 8 == 5 ==> final(self).ppu.loopy
                        == crate::ppu::after_scroll_write(old(self).ppu.loopy, v)
                    &&& 0x2000 <= a < 0x4000 && a % 8 == 6 ==> final(self).ppu.loopy
                        == crate::ppu::after_addr_write(old(self).ppu.loopy, v)
                },
                None => r.2 == 0,
            },
            final(self).ppu.clock == old(self).ppu.clock,
            final(self).owed == old(self).owed,
            final(self).timing == old(self).timing,
            final(self).shutdown == old(self).shutdown,
    {
        let intr = self.service_interrupt();
        match intr {
            Some(_) => (intr, 7, 0),
            None => {
                assert(self.cpu_view() =~= old(self).cpu_view());
                let (c, stall) = self.execute();
                (intr, c, stall)
            },
        }
    }

    /// The host's part of a step at vertical blank: render, poll, pace and
    /// stamp the frame, and reset the CPU if the host asked.
    fn handoff<H: HostSystem>(&mut self, host: &mut H) -> (r: (Shutdown, usize, Option<u64>))
        requires
            old(self).wf(),
            old(self).timing.frame_n < usize::MAX,
        ensures
            final(self).wf(),
            ({
                let last = old(self).timing.last_frame_timestamp as int;
                let limit = old(self).timing.frame_limit_ms as int;
                r.2 == (if last == 0 || last <= r.1 {
                    match pacing_delay(last, r.1 as int, limit) {
                        Some(d) => Some(d as u64),
                        None => None,
                    }
                } else {
                    None
                })
            }),
            final(self).timing.frame_n == old(self).timing.frame_n + 1,
            r.0 == Shutdown::Reset ==> final(self).cpu.pc == final(self).reset_vector()
                && final(self).cpu.p.interrupt && final(self).shutdown == Shutdown::No
                && final(self).owed == STARTUP_CYCLES,
            r.0 != Shutdown::Reset ==> final(self).shutdown == r.0 && final(self).owed == old(
                self,
            ).owed && final(self).cpu == old(self).cpu,
            final(self).cpu.cycles == old(self).cpu.cycles,
            final(self).ppu == old(self).ppu,
            final(self).cart == old(self).cart,
            final(self).nmi_pending == old(self).nmi_pending,
            final(self).irq_line == old(self).irq_line,
    {
        host.render(&self.ppu);
        let (answer, buttons) = host.poll_events();
        self.joypad.set_buttons(buttons);
        let e1 = host.elapsed_millis();
        let last = self.timing.last_frame_timestamp;
        let mut delay: Option<u64> = None;
        if last == 0 || last <= e1 {
            delay = self.end_frame(answer, e1);
        } else {
            self.shutdown = answer;
        }
        match delay {
            Some(ms) => host.delay(ms),
            None => {},
        }
        let e2 = host.elapsed_millis();
        self.frame_paced(e2);
        (answer, e1, delay)
    }
}

} // verus!
