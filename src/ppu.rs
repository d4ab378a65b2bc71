//! The PPU: its register file with side-effectful reads, the "loopy" scroll
//! latches, VRAM decoding with nametable mirroring, OAM DMA, and the dot and
//! scanline clock that raises vertical blank.
use vstd::prelude::*;
use crate::zeroed;
use crate::mapper::Mapper;

verus! {

pub const VRAM_SIZE: usize = 0x1000;

pub const PALETTE_SIZE: usize = 32;

pub const OAM_SIZE: usize = 256;

/// PPUSTATUS bit set during vertical blank.
pub const STATUS_VBLANK: u8 = 0x80;

/// How the four logical nametables map onto physical nametable RAM.
#[derive(PartialEq, Eq, Structural, Clone, Copy, Debug)]
pub enum Mirroring {
    Horizontal,
    Vertical,
    SingleScreenLow,
    SingleScreenHigh,
    FourScreen,
}

/// The scroll and address latches: current address `v`, temporary address
/// `t`, fine X scroll `x` and the shared write toggle `w`.
#[derive(PartialEq, Eq, Structural, Clone, Copy, Debug)]
pub struct Loopy {
    pub v: u16,
    pub t: u16,
    pub x: u8,
    pub w: bool,
}

/// Effect of a PPUCTRL write on the latches: the nametable bits go to `t`.
pub open spec fn after_ctrl_write(l: Loopy, val: u8) -> Loopy {
    Loopy { t: (l.t & 0xF3FFu16) | (((val & 3u8) as u16) << 10u16), ..l }
}

/// Effect of a PPUSCROLL write on the latches.
pub open spec fn after_scroll_write(l: Loopy, val: u8) -> Loopy {
    if !l.w {
        Loopy { t: (l.t & 0xFFE0u16) | ((val >> 3u8) as u16), x: val & 7u8, w: true, ..l }
    } else {
        Loopy {
            t: (l.t & 0x0C1Fu16) | (((val & 7u8) as u16) << 12u16) | (((val & 0xF8u8) as u16) << 2u16),
            w: false,
            ..l
        }
    }
}

/// Effect of a PPUADDR write on the latches.
pub open spec fn after_addr_write(l: Loopy, val: u8) -> Loopy {
    if !l.w {
        Loopy { t: (l.t & 0x00FFu16) | (((val & 0x3Fu8) as u16) << 8u16), w: true, ..l }
    } else {
        let t = (l.t & 0xFF00u16) | (val as u16);
        Loopy { t: t, v: t, w: false, ..l }
    }
}

/// Two PPUSCROLL writes (X, then Y) and then two PPUADDR writes (high, then
/// low byte), from a clear write toggle: the scroll writes route coarse X,
/// fine X, coarse Y and fine Y into `t` and `x`, and the address writes leave
/// `v == t == (hi & 0x3F) << 8 | lo`, with fine X kept and the toggle clear.
pub proof fn lemma_scroll_then_addr(l: Loopy, sx: u8, sy: u8, hi: u8, lo: u8)
    requires
        !l.w,
    ensures
        ({
            let s = after_scroll_write(after_scroll_write(l, sx), sy);
            &&& s.t == (l.t & 0x0C00u16) | (((sy & 7u8) as u16) << 12u16) | (((sy & 0xF8u8) as u16)
                << 2u16) | ((sx >> 3u8) as u16)
            &&& s.x == sx & 7u8
            &&& s.v == l.v
            &&& !s.w
        }),
        ({
            let a = after_addr_write(
                after_addr_write(after_scroll_write(after_scroll_write(l, sx), sy), hi),
                lo,
            );
            &&& a.v == (((hi & 0x3Fu8) as u16) << 8u16) | (lo as u16)
            &&& a.t == a.v
            &&& a.x == sx & 7u8
            &&& !a.w
        }),
{
    let t0 = l.t;
    let t1 = (t0 & 0xFFE0u16) | ((sx >> 3u8) as u16);
    let t2 = (t1 & 0x0C1Fu16) | (((sy & 7u8) as u16) << 12u16) | (((sy & 0xF8u8) as u16) << 2u16);
    assert(t2 == (t0 & 0x0C00u16) | (((sy & 7u8) as u16) << 12u16) | (((sy & 0xF8u8) as u16) << 2u16)
        | ((sx >> 3u8) as u16)) by (bit_vector)
        requires
            t1 == (t0 & 0xFFE0u16) | ((sx >> 3u8) as u16),
            t2 == (t1 & 0x0C1Fu16) | (((sy & 7u8) as u16) << 12u16) | (((sy & 0xF8u8) as u16)
                << 2u16),
    ;
    let t3 = (t2 & 0x00FFu16) | (((hi & 0x3Fu8) as u16) << 8u16);
    let t4 = (t3 & 0xFF00u16) | (lo as u16);
    assert(t4 == (((hi & 0x3Fu8) as u16) << 8u16) | (lo as u16)) by (bit_vector)
        requires
            t3 == (t2 & 0x00FFu16) | (((hi & 0x3Fu8) as u16) << 8u16),
            t4 == (t3 & 0xFF00u16) | (lo as u16),
    ;
}

/// Where the PPU stands in its frame: scanline -1 (pre-render) to 260, dot
/// 0 to 340, and the parity of the frame.
#[derive(PartialEq, Eq, Structural, Clone, Copy, Debug)]
pub struct Clock {
    pub scanline: i16,
    pub dot: u16,
    pub odd_frame: bool,
}

/// What a run of PPU dots reports to the frame driver.
#[derive(PartialEq, Eq, Structural, Clone, Copy, Debug)]
pub enum TickEvent {
    Idle,
    EnteredVblank,
    TriggerIrq,
}

pub open spec fn clock_wf(c: Clock) -> bool {
    -1 <= c.scanline <= 260 && c.dot <= 340
}

/// Dots from the start of the pre-render line to `c`.
pub open spec fn frame_pos(c: Clock) -> int {
    (c.scanline + 1) * 341 + c.dot
}

/// Rendering is on when PPUMASK shows the background or the sprites.
pub open spec fn rendering_on(mask: u8) -> bool {
    mask & 0x18u8 != 0
}

/// The clock one dot later. On odd frames with rendering on, the last idle
/// dot of the pre-render line (339) is skipped.
pub open spec fn step_clock(c: Clock, rendering: bool) -> Clock {
    if c.scanline == -1 && c.dot == 339 && c.odd_frame && rendering {
        Clock { scanline: 0, dot: 0, ..c }
    } else if c.dot == 340 {
        if c.scanline == 260 {
            Clock { scanline: -1i16, dot: 0, odd_frame: !c.odd_frame }
        } else {
            Clock { scanline: (c.scanline + 1) as i16, dot: 0, ..c }
        }
    } else {
        Clock { dot: (c.dot + 1) as u16, ..c }
    }
}

/// The clock `n` dots later.
pub open spec fn clock_after(c: Clock, rendering: bool, n: nat) -> Clock
    decreases n,
{
    if n == 0 {
        c
    } else {
        step_clock(clock_after(c, rendering, (n - 1) as nat), rendering)
    }
}

/// The dot that sets the vertical-blank flag.
pub open spec fn is_vblank_start(c: Clock) -> bool {
    c.scanline == 241 && c.dot == 1
}

/// The dot that clears the vertical-blank, sprite-0 and overflow flags.
pub open spec fn is_prerender_start(c: Clock) -> bool {
    c.scanline == -1 && c.dot == 1
}

/// PPUSTATUS after the clock arrives at `c`.
pub open spec fn status_on_arrival(c: Clock, status: u8) -> u8 {
    if is_vblank_start(c) {
        status | STATUS_VBLANK
    } else if is_prerender_start(c) {
        status & 0x1Fu8
    } else {
        status
    }
}

/// PPUSTATUS after `n` dots from clock `c`.
pub open spec fn status_after(c: Clock, rendering: bool, status: u8, n: nat) -> u8
    decreases n,
{
    if n == 0 {
        status
    } else {
        status_on_arrival(clock_after(c, rendering, n), status_after(c, rendering, status, (n - 1) as nat))
    }
}

/// How many of the dots 1..=n after `c` set the vertical-blank flag.
pub open spec fn vblank_count(c: Clock, rendering: bool, n: nat) -> nat
    decreases n,
{
    if n == 0 {
        0
    } else {
        vblank_count(c, rendering, (n - 1) as nat) + if is_vblank_start(clock_after(c, rendering, n)) {
            1nat
        } else {
            0nat
        }
    }
}

/// Dots in a frame that starts with parity `odd`.
pub open spec fn frame_len(odd: bool, rendering: bool) -> int {
    if odd && rendering {
        89341
    } else {
        89342
    }
}

/// Each dot moves the clock one place on in its frame (two at the skipped
/// dot), or from the last dot of a frame to the first of the next: the
/// position advances monotonically modulo 262 scanlines of 341 dots.
pub proof fn lemma_step_advances(c: Clock, rendering: bool)
    requires
        clock_wf(c),
    ensures
        clock_wf(step_clock(c, rendering)),
        ({
            let d = step_clock(c, rendering);
            ||| frame_pos(d) == frame_pos(c) + 1 && d.odd_frame == c.odd_frame
            ||| frame_pos(d) == frame_pos(c) + 2 && d.odd_frame == c.odd_frame && c.scanline == -1
                && c.dot == 339 && c.odd_frame && rendering
            ||| frame_pos(c) == 262 * 341 - 1 && frame_pos(d) == 0 && d.odd_frame != c.odd_frame
        }),
{
}

/// Walking a frame from its first dot: after `k` dots the clock stands at
/// position `k`, or `k + 1` once the skipped dot has been passed.
proof fn lemma_frame_walk(c: Clock, rendering: bool, k: nat)
    requires
        c.scanline == -1,
        c.dot == 0,
        k < frame_len(c.odd_frame, rendering),
    ensures
        clock_wf(clock_after(c, rendering, k)),
        clock_after(c, rendering, k).odd_frame == c.odd_frame,
        frame_pos(clock_after(c, rendering, k)) == k + if c.odd_frame && rendering && k >= 340 {
            1int
        } else {
            0int
        },
    decreases k,
{
    if k > 0 {
        lemma_frame_walk(c, rendering, (k - 1) as nat);
        lemma_step_advances(clock_after(c, rendering, (k - 1) as nat), rendering);
    }
}

/// Counting the vertical-blank dots over the first `n` dots of a frame.
proof fn lemma_frame_vblank_count(c: Clock, rendering: bool, n: nat)
    requires
        c.scanline == -1,
        c.dot == 0,
        n < frame_len(c.odd_frame, rendering),
    ensures
        vblank_count(c, rendering, n) == if frame_pos(clock_after(c, rendering, n)) >= 242 * 341 + 1 {
            1nat
        } else {
            0nat
        },
    decreases n,
{
    lemma_frame_walk(c, rendering, n);
    if n > 0 {
        lemma_frame_walk(c, rendering, (n - 1) as nat);
        lemma_frame_vblank_count(c, rendering, (n - 1) as nat);
    }
}

/// Over one whole frame, counted from its first dot, exactly one dot sets
/// the vertical-blank flag, and that dot is dot 1 of scanline 241.
pub proof fn lemma_one_vblank_per_frame(c: Clock, rendering: bool)
    requires
        c.scanline == -1,
        c.dot == 0,
    ensures
        vblank_count(c, rendering, (frame_len(c.odd_frame, rendering) - 1) as nat) == 1,
        clock_after(c, rendering, frame_len(c.odd_frame, rendering) as nat) == (Clock {
            scanline: -1i16,
            dot: 0,
            odd_frame: !c.odd_frame,
        }),
        forall|k: nat|
            1 <= k < frame_len(c.odd_frame, rendering) && #[trigger] is_vblank_start(
                clock_after(c, rendering, k),
            ) ==> k == 242 * 341 + 1 - if c.odd_frame && rendering {
                1int
            } else {
                0int
            },
{
    let last = (frame_len(c.odd_frame, rendering) - 1) as nat;
    lemma_frame_vblank_count(c, rendering, last);
    lemma_frame_walk(c, rendering, last);
    assert forall|k: nat|
        1 <= k < frame_len(c.odd_frame, rendering) && #[trigger] is_vblank_start(
            clock_after(c, rendering, k),
        ) implies k == 242 * 341 + 1 - if c.odd_frame && rendering {
        1int
    } else {
        0int
    } by {
        lemma_frame_walk(c, rendering, k);
    }
}

/// From a dot on a visible or later line, `k` dots later the clock stands
/// `k` places further on in the same frame, as long as the frame lasts.
pub proof fn lemma_walk_within_frame(c: Clock, rendering: bool, k: nat)
    requires
        clock_wf(c),
        c.scanline >= 0,
        frame_pos(c) + k < 262 * 341,
    ensures
        clock_wf(clock_after(c, rendering, k)),
        clock_after(c, rendering, k).scanline >= 0,
        clock_after(c, rendering, k).odd_frame == c.odd_frame,
        frame_pos(clock_after(c, rendering, k)) == frame_pos(c) + k,
    decreases k,
{
    if k > 0 {
        lemma_walk_within_frame(c, rendering, (k - 1) as nat);
        lemma_step_advances(clock_after(c, rendering, (k - 1) as nat), rendering);
    }
}

/// Over `n` dots from a dot on a visible or later line, within one frame,
/// the vertical-blank flag is set once if dot 1 of scanline 241 lies ahead
/// in that stretch, and never otherwise.
pub proof fn lemma_vblank_within_frame(c: Clock, rendering: bool, n: nat)
    requires
        clock_wf(c),
        c.scanline >= 0,
        frame_pos(c) + n < 262 * 341,
    ensures
        vblank_count(c, rendering, n) == if frame_pos(c) < 242 * 341 + 1 <= frame_pos(c) + n {
            1nat
        } else {
            0nat
        },
    decreases n,
{
    if n > 0 {
        lemma_vblank_within_frame(c, rendering, (n - 1) as nat);
        lemma_walk_within_frame(c, rendering, n);
    }
}

proof fn lemma_clock_after_add(c: Clock, rendering: bool, a: nat, b: nat)
    ensures
        clock_after(c, rendering, a + b) == clock_after(clock_after(c, rendering, a), rendering, b),
    decreases b,
{
    if b > 0 {
        lemma_clock_after_add(c, rendering, a, (b - 1) as nat);
        assert(clock_after(c, rendering, a + b) == step_clock(
            clock_after(c, rendering, (a + b - 1) as nat),
            rendering,
        ));
        assert((a + b - 1) as nat == a + (b - 1) as nat);
    }
}

proof fn lemma_vblank_count_add(c: Clock, rendering: bool, a: nat, b: nat)
    ensures
        vblank_count(c, rendering, a + b) == vblank_count(c, rendering, a) + vblank_count(
            clock_after(c, rendering, a),
            rendering,
            b,
        ),
    decreases b,
{
    if b > 0 {
        lemma_vblank_count_add(c, rendering, a, (b - 1) as nat);
        lemma_clock_after_add(c, rendering, a, b);
        assert((a + b - 1) as nat == a + (b - 1) as nat);
    }
}

/// From the clock after power-on and reset (dot 21 of scanline 0), the
/// 3 x 29781 dots of 29781 CPU cycles set the vertical-blank flag exactly
/// once.
pub proof fn lemma_one_vblank_from_reset(rendering: bool)
    ensures
        vblank_count(Clock { scanline: 0, dot: 21, odd_frame: false }, rendering, 3 * 29781) == 1,
{
    let c = Clock { scanline: 0i16, dot: 21u16, odd_frame: false };
    let a: nat = 88979;
    lemma_vblank_within_frame(c, rendering, a);
    lemma_walk_within_frame(c, rendering, a);
    let d = clock_after(c, rendering, a);
    assert(d.scanline == 260 && d.dot == 340);
    let e = clock_after(d, rendering, 1);
    assert(e == step_clock(d, rendering)) by {
        reveal_with_fuel(clock_after, 2);
    }
    assert(vblank_count(d, rendering, 1) == 0) by {
        reveal_with_fuel(clock_after, 2);
        reveal_with_fuel(vblank_count, 2);
    }
    lemma_vblank_count_add(d, rendering, 1, 363);
    lemma_frame_vblank_count(e, rendering, 363);
    lemma_frame_walk(e, rendering, 363);
    lemma_vblank_count_add(c, rendering, a, 364);
}

/// Index into nametable RAM of PPU address `addr` (in [0x2000, 0x3F00)).
pub open spec fn nametable_index(mode: Mirroring, addr: int) -> int {
    let off = (addr - 0x2000) % 0x1000;
    let table = off / 0x400;
    let page = match mode {
        Mirroring::Horizontal => table / 2,
        Mirroring::Vertical => table % 2,
        Mirroring::SingleScreenLow => 0,
        Mirroring::SingleScreenHigh => 1,
        Mirroring::FourScreen => table,
    };
    page * 0x400 + off % 0x400
}

/// Index into palette RAM of PPU address `addr`: entries $10/$14/$18/$1C
/// are the same cells as $00/$04/$08/$0C.
pub open spec fn palette_index(addr: int) -> int {
    let p = addr % 32;
    if p >= 16 && p % 4 == 0 {
        p - 16
    } else {
        p
    }
}

/// Step added to `v` after a PPUDATA access: 32 when PPUCTRL bit 2 is set.
pub open spec fn vram_step(ctrl: u8) -> int {
    if ctrl & 4u8 != 0 {
        32
    } else {
        1
    }
}

pub struct Ppu {
    pub clock: Clock,
    pub ctrl: u8,
    pub mask: u8,
    pub status: u8,
    pub oam_addr: u8,
    pub loopy: Loopy,
    pub read_buffer: u8,
    pub vram: Vec<u8>,
    pub palette: Vec<u8>,
    pub oam: Vec<u8>,
}

impl Ppu {
    pub open spec fn wf(&self) -> bool {
        &&& self.vram@.len() == VRAM_SIZE
        &&& self.palette@.len() == PALETTE_SIZE
        &&& self.oam@.len() == OAM_SIZE
        &&& clock_wf(self.clock)
    }

    /// The byte that the PPU bus yields at `addr` (taken modulo 0x4000),
    /// with the pattern memory and mirroring of cartridge `cart`.
    pub open spec fn peek(&self, cart: &Mapper, addr: int) -> u8 {
        let a = addr % 0x4000;
        if a < 0x2000 {
            cart.chr_peek(a)
        } else if a < 0x3F00 {
            self.vram@[nametable_index(cart.current_mirroring(), a)]
        } else {
            self.palette@[palette_index(a)]
        }
    }

    /// Everything but the latches, the read buffer, the status and the memories.
    pub open spec fn same_config(&self, o: &Ppu) -> bool {
        &&& self.clock == o.clock
        &&& self.ctrl == o.ctrl
        &&& self.mask == o.mask
        &&& self.oam_addr == o.oam_addr
    }

    /// A PPU at the start of the pre-render line with all memories cleared.
    pub fn new() -> (r: Ppu)
        ensures
            r.wf(),
            r.clock == (Clock { scanline: -1i16, dot: 0, odd_frame: false }),
            r.ctrl == 0,
            r.mask == 0,
            r.status == 0,
            r.oam_addr == 0,
            r.loopy == (Loopy { v: 0, t: 0, x: 0, w: false }),
            r.read_buffer == 0,
    {
        Ppu {
            clock: Clock { scanline: -1, dot: 0, odd_frame: false },
            ctrl: 0,
            mask: 0,
            status: 0,
            oam_addr: 0,
            loopy: Loopy { v: 0, t: 0, x: 0, w: false },
            read_buffer: 0,
            vram: zeroed(VRAM_SIZE),
            palette: zeroed(PALETTE_SIZE),
            oam: zeroed(OAM_SIZE),
        }
    }

    /// Reads the PPU bus at `addr` modulo 0x4000.
    pub fn read_vram(&self, cart: &Mapper, addr: u16) -> (r: u8)
        requires
            self.wf(),
            cart.wf(),
        ensures
            r == self.peek(cart, addr as int),
    {
        let a = addr % 0x4000;
        if a < 0x2000 {
            cart.chr_read(a)
        } else if a < 0x3F00 {
            self.vram[nametable_offset(cart.mirroring(), a)]
        } else {
            self.palette[palette_offset(a)]
        }
    }

    /// Writes the PPU bus at `addr` modulo 0x4000; pattern memory goes to
    /// the cartridge.
    pub fn write_vram(&mut self, cart: &mut Mapper, addr: u16, val: u8)
        requires
            old(self).wf(),
            old(cart).wf(),
        ensures
            final(self).wf(),
            final(cart).wf(),
            final(self).same_config(old(self)),
            final(self).loopy == old(self).loopy,
            final(self).status == old(self).status,
            final(self).read_buffer == old(self).read_buffer,
            final(self).oam@ == old(self).oam@,
            ({
                let a = addr as int % 0x4000;
                if a < 0x2000 {
                    &&& final(cart).chr@ == (if old(cart).chr_ram {
                        old(cart).chr@.update(crate::mapper::chr_offset(old(cart), a), val)
                    } else {
                        old(cart).chr@
                    })
                    &&& final(self).vram@ == old(self).vram@
                    &&& final(self).palette@ == old(self).palette@
                } else if a < 0x3F00 {
                    &&& final(cart).chr@ == old(cart).chr@
                    &&& final(self).vram@ == old(self).vram@.update(
                        nametable_index(old(cart).current_mirroring(), a),
                        val,
                    )
                    &&& final(self).palette@ == old(self).palette@
                } else {
                    &&& final(cart).chr@ == old(cart).chr@
                    &&& final(self).vram@ == old(self).vram@
                    &&& final(self).palette@ == old(self).palette@.update(palette_index(a), val)
                }
            }),
            final(cart).same_banks(old(cart)),
    {
        let a = addr % 0x4000;
        if a < 0x2000 {
            cart.chr_write(a, val);
        } else if a < 0x3F00 {
            let i = nametable_offset(cart.mirroring(), a);
            self.vram.set(i, val);
        } else {
            let i = palette_offset(a);
            self.palette.set(i, val);
        }
    }

    /// PPUSTATUS read: the status byte; clears the vertical-blank flag and
    /// the write toggle.
    pub fn read_status(&mut self) -> (r: u8)
        requires
            old(self).wf(),
        ensures
            r == old(self).status,
            final(self).status == old(self).status & 0x7Fu8,
            final(self).status & STATUS_VBLANK == 0,
            !final(self).loopy.w,
            final(self).loopy == (Loopy { w: false, ..old(self).loopy }),
            final(self).wf(),
            final(self).same_config(old(self)),
            final(self).read_buffer == old(self).read_buffer,
            final(self).vram@ == old(self).vram@,
            final(self).palette@ == old(self).palette@,
            final(self).oam@ == old(self).oam@,
    {
        let r = self.status;
        self.status = r & 0x7F;
        assert(r & 0x7Fu8 & 0x80u8 == 0) by (bit_vector);
        self.loopy.w = false;
        r
    }

    /// PPUDATA read. Below the palette the byte buffered by the previous read
    /// comes back and the buffer is refilled from `v`; a palette read comes
    /// back at once and fills the buffer with the nametable byte beneath.
    /// Either way `v` moves on by 1 or 32.
    pub fn read_data(&mut self, cart: &Mapper) -> (r: u8)
        requires
            old(self).wf(),
            cart.wf(),
        ensures
            ({
                let a = old(self).loopy.v as int % 0x4000;
                &&& r == (if a < 0x3F00 {
                    old(self).read_buffer
                } else {
                    old(self).peek(cart, a)
                })
                &&& final(self).read_buffer == (if a < 0x3F00 {
                    old(self).peek(cart, a)
                } else {
                    old(self).peek(cart, a - 0x1000)
                })
            }),
            final(self).loopy.v as int == (old(self).loopy.v as int + vram_step(old(self).ctrl))
                % 0x8000,
            final(self).loopy.t == old(self).loopy.t,
            final(self).loopy.x == old(self).loopy.x,
            final(self).loopy.w == old(self).loopy.w,
            final(self).wf(),
            final(self).same_config(old(self)),
            final(self).status == old(self).status,
            final(self).vram@ == old(self).vram@,
            final(self).palette@ == old(self).palette@,
            final(self).oam@ == old(self).oam@,
    {
        let a = self.loopy.v % 0x4000;
        let r = if a < 0x3F00 {
            let r = self.read_buffer;
            self.read_buffer = self.read_vram(cart, a);
            r
        } else {
            self.read_buffer = self.read_vram(cart, a - 0x1000);
            self.read_vram(cart, a)
        };
        self.advance_v();
        r
    }

    /// PPUDATA write: stores at `v`, then moves `v` on by 1 or 32.
    pub fn write_data(&mut self, cart: &mut Mapper, val: u8)
        requires
            old(self).wf(),
            old(cart).wf(),
        ensures
            final(self).wf(),
            final(cart).wf(),
            final(self).loopy.v as int == (old(self).loopy.v as int + vram_step(old(self).ctrl))
                % 0x8000,
            final(self).loopy.t == old(self).loopy.t,
            final(self).loopy.x == old(self).loopy.x,
            final(self).loopy.w == old(self).loopy.w,
            final(self).same_config(old(self)),
            final(self).status == old(self).status,
            final(self).read_buffer == old(self).read_buffer,
            final(self).oam@ == old(self).oam@,
            final(cart).same_banks(old(cart)),
            final(self).peek(&*final(cart), old(self).loopy.v as int) == (if old(self).loopy.v as int
                % 0x4000 < 0x2000 && !old(cart).chr_ram {
                old(self).peek(&*old(cart), old(self).loopy.v as int)
            } else {
                val
            }),
    {
        let a = self.loopy.v % 0x4000;
        self.write_vram(cart, a, val);
        self.advance_v();
    }

    fn advance_v(&mut self)
        ensures
            final(self).loopy.v as int == (old(self).loopy.v as int + vram_step(old(self).ctrl))
                % 0x8000,
            final(self).loopy.t == old(self).loopy.t,
            final(self).loopy.x == old(self).loopy.x,
            final(self).loopy.w == old(self).loopy.w,
            final(self).same_config(old(self)),
            final(self).status == old(self).status,
            final(self).read_buffer == old(self).read_buffer,
            final(self).vram == old(self).vram,
            final(self).palette == old(self).palette,
            final(self).oam == old(self).oam,
    {
        let step: u32 = if self.ctrl & 4 != 0 {
            32
        } else {
            1
        };
        self.loopy.v = ((self.loopy.v as u32 + step) % 0x8000) as u16;
    }

    /// PPUCTRL write.
    pub fn write_ctrl(&mut self, val: u8)
        ensures
            final(self).ctrl == val,
            final(self).loopy == after_ctrl_write(old(self).loopy, val),
            final(self).mask == old(self).mask,
            final(self).status == old(self).status,
            final(self).read_buffer == old(self).read_buffer,
            final(self).oam_addr == old(self).oam_addr,
            final(self).clock == old(self).clock,
            final(self).vram == old(self).vram,
            final(self).palette == old(self).palette,
            final(self).oam == old(self).oam,
    {
        self.ctrl = val;
        self.loopy.t = (self.loopy.t & 0xF3FF) | (((val & 3) as u16) << 10u16);
    }

    /// PPUMASK write.
    pub fn write_mask(&mut self, val: u8)
        ensures
            *final(self) == (Ppu { mask: val, ..*old(self) }),
    {
        self.mask = val;
    }

    /// PPUSCROLL write.
    pub fn write_scroll(&mut self, val: u8)
        ensures
            *final(self) == (Ppu { loopy: after_scroll_write(old(self).loopy, val), ..*old(self) }),
    {
        if !self.loopy.w {
            self.loopy.t = (self.loopy.t & 0xFFE0) | ((val >> 3u8) as u16);
            self.loopy.x = val & 7;
            self.loopy.w = true;
        } else {
            self.loopy.t = (self.loopy.t & 0x0C1F) | (((val & 7) as u16) << 12u16) | (((val
                & 0xF8) as u16) << 2u16);
            self.loopy.w = false;
        }
    }

    /// PPUADDR write.
    pub fn write_addr(&mut self, val: u8)
        ensures
            *final(self) == (Ppu { loopy: after_addr_write(old(self).loopy, val), ..*old(self) }),
    {
        if !self.loopy.w {
            self.loopy.t = (self.loopy.t & 0x00FF) | (((val & 0x3F) as u16) << 8u16);
            self.loopy.w = true;
        } else {
            self.loopy.t = (self.loopy.t & 0xFF00) | (val as u16);
            self.loopy.v = self.loopy.t;
            self.loopy.w = false;
        }
    }

    /// OAMADDR write.
    pub fn write_oam_addr(&mut self, val: u8)
        ensures
            *final(self) == (Ppu { oam_addr: val, ..*old(self) }),
    {
        self.oam_addr = val;
    }

    /// OAMDATA read: the OAM byte at OAMADDR.
    pub fn read_oam_data(&self) -> (r: u8)
        requires
            self.wf(),
        ensures
            r == self.oam@[self.oam_addr as int],
    {
        self.oam[self.oam_addr as usize]
    }

    /// OAMDATA write: stores at OAMADDR, which then moves on by one.
    pub fn write_oam_data(&mut self, val: u8)
        requires
            old(self).wf(),
        ensures
            final(self).wf(),
            final(self).oam@ == old(self).oam@.update(old(self).oam_addr as int, val),
            final(self).oam_addr as int == (old(self).oam_addr as int + 1) % 256,
            final(self).clock == old(self).clock,
            final(self).mask == old(self).mask,
            final(self).loopy == old(self).loopy,
            final(self).status == old(self).status,
            final(self).ctrl == old(self).ctrl,
            final(self).vram@ == old(self).vram@,
            final(self).palette@ == old(self).palette@,
    {
        self.oam.set(self.oam_addr as usize, val);
        self.oam_addr = self.oam_addr.wrapping_add(1);
    }

    /// OAMDMA: copies the 256 bytes of a CPU page into OAM, starting at
    /// OAMADDR and wrapping around.
    pub fn oam_dma(&mut self, page: &Vec<u8>)
        requires
            old(self).wf(),
            page@.len() == OAM_SIZE,
        ensures
            final(self).wf(),
            forall|i: int|
                0 <= i < 256 ==> #[trigger] final(self).oam@[(old(self).oam_addr as int + i) % 256]
                    == page@[i],
            final(self).oam_addr == old(self).oam_addr,
            final(self).clock == old(self).clock,
            final(self).mask == old(self).mask,
            final(self).loopy == old(self).loopy,
            final(self).status == old(self).status,
            final(self).ctrl == old(self).ctrl,
            final(self).read_buffer == old(self).read_buffer,
            final(self).vram@ == old(self).vram@,
            final(self).palette@ == old(self).palette@,
    {
        let start = self.oam_addr as usize;
        let mut i: usize = 0;
        while i < 256
            invariant
                i <= 256,
                self.wf(),
                page@.len() == OAM_SIZE,
                start == old(self).oam_addr,
                self.oam_addr == old(self).oam_addr,
                self.clock == old(self).clock,
                self.mask == old(self).mask,
                self.loopy == old(self).loopy,
                self.status == old(self).status,
                self.ctrl == old(self).ctrl,
                self.read_buffer == old(self).read_buffer,
                self.vram@ == old(self).vram@,
                self.palette@ == old(self).palette@,
                forall|j: int| 0 <= j < i ==> #[trigger] self.oam@[(start + j) % 256] == page@[j],
            decreases 256 - i,
        {
            let val = page[i];
            self.oam.set((start + i) % 256, val);
            proof {
                assert forall|j: int| 0 <= j < i + 1 implies #[trigger] self.oam@[(start + j) % 256]
                    == page@[j] by {
                    if j < i {
                        assert((start + j) % 256 != (start + i) % 256);
                    }
                }
            }
            i = i + 1;
        }
    }

    /// Master-palette index shown for palette RAM address `addr`: the entry,
    /// limited to the six palette bits, and to its column $00/$10/$20/$30
    /// when PPUMASK asks for grayscale.
    pub fn color_index(&self, addr: u16) -> (r: u8)
        requires
            self.wf(),
        ensures
            r == (if self.mask & 1u8 != 0 {
                self.palette@[palette_index(addr as int)] & 0x30u8
            } else {
                self.palette@[palette_index(addr as int)] & 0x3Fu8
            }),
    {
        let c = self.palette[palette_offset(addr)];
        if self.mask & 1 != 0 {
            c & 0x30
        } else {
            c & 0x3F
        }
    }

    /// Whether the CPU's NMI line is raised: PPUCTRL asks for NMI on
    /// vertical blank and the vertical-blank flag is set.
    pub fn nmi_on_vblank(&self) -> (r: bool)
        ensures
            r == (self.ctrl & 0x80u8 != 0 && self.status & STATUS_VBLANK != 0),
    {
        self.ctrl & 0x80 != 0 && self.status & STATUS_VBLANK != 0
    }

    /// Moves the clock on by one dot and updates the status flags at the
    /// dot it arrives on; tells whether that dot set the vertical-blank flag.
    fn step(&mut self) -> (r: bool)
        requires
            old(self).wf(),
        ensures
            final(self).wf(),
            final(self).clock == step_clock(old(self).clock, rendering_on(old(self).mask)),
            final(self).status == status_on_arrival(final(self).clock, old(self).status),
            r == is_vblank_start(final(self).clock),
            final(self).ctrl == old(self).ctrl,
            final(self).mask == old(self).mask,
            final(self).oam_addr == old(self).oam_addr,
            final(self).loopy == old(self).loopy,
            final(self).read_buffer == old(self).read_buffer,
            final(self).vram == old(self).vram,
            final(self).palette == old(self).palette,
            final(self).oam == old(self).oam,
    {
        let rendering = self.mask & 0x18 != 0;
        let c = self.clock;
        if c.scanline == -1 && c.dot == 339 && c.odd_frame && rendering {
            self.clock = Clock { scanline: 0, dot: 0, odd_frame: c.odd_frame };
        } else if c.dot == 340 {
            if c.scanline == 260 {
                self.clock = Clock { scanline: -1, dot: 0, odd_frame: !c.odd_frame };
            } else {
                self.clock = Clock { scanline: c.scanline + 1, dot: 0, odd_frame: c.odd_frame };
            }
        } else {
            self.clock = Clock { scanline: c.scanline, dot: c.dot + 1, odd_frame: c.odd_frame };
        }
        let c = self.clock;
        if c.scanline == 241 && c.dot == 1 {
            self.status = self.status | STATUS_VBLANK;
            true
        } else {
            if c.scanline == -1 && c.dot == 1 {
                self.status = self.status & 0x1F;
            }
            false
        }
    }

    /// Advances the PPU by `n` dots. Reports `EnteredVblank` when one of them
    /// set the vertical-blank flag, and `Idle` otherwise.
    pub fn tick(&mut self, n: u64) -> (r: TickEvent)
        requires
            old(self).wf(),
        ensures
            final(self).wf(),
            final(self).clock == clock_after(old(self).clock, rendering_on(old(self).mask), n as nat),
            final(self).status == status_after(
                old(self).clock,
                rendering_on(old(self).mask),
                old(self).status,
                n as nat,
            ),
            r == (if vblank_count(old(self).clock, rendering_on(old(self).mask), n as nat) > 0 {
                TickEvent::EnteredVblank
            } else {
                TickEvent::Idle
            }),
            final(self).ctrl == old(self).ctrl,
            final(self).mask == old(self).mask,
            final(self).oam_addr == old(self).oam_addr,
            final(self).loopy == old(self).loopy,
            final(self).read_buffer == old(self).read_buffer,
            final(self).vram == old(self).vram,
            final(self).palette == old(self).palette,
            final(self).oam == old(self).oam,
    {
        let ghost c0 = self.clock;
        let ghost st0 = self.status;
        let ghost rendering = rendering_on(self.mask);
        let mut i: u64 = 0;
        let mut event = TickEvent::Idle;
        while i < n
            invariant
                i <= n,
                self.wf(),
                rendering == rendering_on(self.mask),
                self.clock == clock_after(c0, rendering, i as nat),
                self.status == status_after(c0, rendering, st0, i as nat),
                event == (if vblank_count(c0, rendering, i as nat) > 0 {
                    TickEvent::EnteredVblank
                } else {
                    TickEvent::Idle
                }),
                self.ctrl == old(self).ctrl,
                self.mask == old(self).mask,
                self.oam_addr == old(self).oam_addr,
                self.loopy == old(self).loopy,
                self.read_buffer == old(self).read_buffer,
                self.vram == old(self).vram,
                self.palette == old(self).palette,
                self.oam == old(self).oam,
            decreases n - i,
        {
            let hit = self.step();
            if hit {
                event = TickEvent::EnteredVblank;
            }
            i = i + 1;
        }
        event
    }
}

/// Cycles the CPU stalls for an OAM DMA that starts on cycle `cpu_cycles`:
/// one more when it starts on an odd cycle.
pub open spec fn dma_stall(cpu_cycles: u64) -> u64 {
    if cpu_cycles % 2 == 1 {
        514
    } else {
        513
    }
}

pub fn dma_stall_cycles(cpu_cycles: u64) -> (r: u64)
    ensures
        r == dma_stall(cpu_cycles),
{
    if cpu_cycles % 2 == 1 {
        514
    } else {
        513
    }
}

fn nametable_offset(mode: Mirroring, addr: u16) -> (r: usize)
    requires
        0x2000 <= addr < 0x3F00,
    ensures
        r == nametable_index(mode, addr as int),
        r < VRAM_SIZE,
{
    let off = (addr - 0x2000) % 0x1000;
    let table = off / 0x400;
    let page = match mode {
        Mirroring::Horizontal => table / 2,
        Mirroring::Vertical => table % 2,
        Mirroring::SingleScreenLow => 0,
        Mirroring::SingleScreenHigh => 1,
        Mirroring::FourScreen => table,
    };
    (page * 0x400 + off % 0x400) as usize
}

fn palette_offset(addr: u16) -> (r: usize)
    ensures
        r == palette_index(addr as int),
        r < PALETTE_SIZE,
{
    let p = addr % 32;
    if p >= 16 && p % 4 == 0 {
        (p - 16) as usize
    } else {
        p as usize
    }
}

} // verus!
