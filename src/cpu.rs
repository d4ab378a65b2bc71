//! Pieces of the 6502 core: the status register, interrupt entry and the
//! indirect jump with its page-wrap quirk, over a flat 64 KiB memory.
use vstd::prelude::*;

verus! {

/// Size of the flat address space.
pub const MEM_SIZE: usize = 0x10000;

pub const NMI_VECTOR: u16 = 0xFFFA;

pub const RESET_VECTOR: u16 = 0xFFFC;

pub const IRQ_VECTOR: u16 = 0xFFFE;

/// The eight bits of the P register, one field each.
#[derive(PartialEq, Eq, Structural, Clone, Copy, Debug)]
pub struct Status {
    pub negative: bool,
    pub overflow: bool,
    pub unused: bool,
    pub brk: bool,
    pub decimal: bool,
    pub interrupt: bool,
    pub zero: bool,
    pub carry: bool,
}

/// Bit `k` of `b`.
pub open spec fn bit(b: u8, k: u8) -> bool {
    (b >> k) & 1u8 == 1u8
}

pub open spec fn flag(on: bool, mask: u8) -> u8 {
    if on {
        mask
    } else {
        0u8
    }
}

/// The byte that holds the eight flags, N in bit 7 down to C in bit 0.
pub open spec fn pack(n: bool, v: bool, u: bool, b: bool, d: bool, i: bool, z: bool, c: bool) -> u8 {
    flag(n, 0x80u8) | flag(v, 0x40u8) | flag(u, 0x20u8) | flag(b, 0x10u8) | flag(d, 0x08u8) | flag(
        i,
        0x04u8,
    ) | flag(z, 0x02u8) | flag(c, 0x01u8)
}

pub open spec fn status_byte(s: Status) -> u8 {
    pack(s.negative, s.overflow, s.unused, s.brk, s.decimal, s.interrupt, s.zero, s.carry)
}

pub open spec fn status_of(b: u8) -> Status {
    Status {
        negative: bit(b, 7),
        overflow: bit(b, 6),
        unused: bit(b, 5),
        brk: bit(b, 4),
        decimal: bit(b, 3),
        interrupt: bit(b, 2),
        zero: bit(b, 1),
        carry: bit(b, 0),
    }
}

proof fn lemma_pack_bits(n: bool, v: bool, u: bool, b: bool, d: bool, i: bool, z: bool, c: bool)
    ensures
        bit(pack(n, v, u, b, d, i, z, c), 7) == n,
        bit(pack(n, v, u, b, d, i, z, c), 6) == v,
        bit(pack(n, v, u, b, d, i, z, c), 5) == u,
        bit(pack(n, v, u, b, d, i, z, c), 4) == b,
        bit(pack(n, v, u, b, d, i, z, c), 3) == d,
        bit(pack(n, v, u, b, d, i, z, c), 2) == i,
        bit(pack(n, v, u, b, d, i, z, c), 1) == z,
        bit(pack(n, v, u, b, d, i, z, c), 0) == c,
{
    let p = pack(n, v, u, b, d, i, z, c);
    assert(bit(p, 7) == n && bit(p, 6) == v && bit(p, 5) == u && bit(p, 4) == b && bit(p, 3) == d
        && bit(p, 2) == i && bit(p, 1) == z && bit(p, 0) == c) by (bit_vector)
        requires
            p == pack(n, v, u, b, d, i, z, c),
    ;
}

/// Splitting a status byte into flags and packing them again gives the byte back.
pub proof fn lemma_status_byte_round_trip(b: u8)
    ensures
        status_byte(status_of(b)) == b,
{
    let s = status_of(b);
    assert(pack(bit(b, 7), bit(b, 6), bit(b, 5), bit(b, 4), bit(b, 3), bit(b, 2), bit(b, 1), bit(b, 0))
        == b) by (bit_vector);
}

/// Packing flags into a byte and splitting it again gives the flags back.
pub proof fn lemma_status_flags_round_trip(s: Status)
    ensures
        status_of(status_byte(s)) == s,
{
    lemma_pack_bits(s.negative, s.overflow, s.unused, s.brk, s.decimal, s.interrupt, s.zero, s.carry);
}

impl Status {
    pub fn from_byte(b: u8) -> (r: Status)
        ensures
            r == status_of(b),
    {
        Status {
            negative: (b >> 7u8) & 1u8 == 1u8,
            overflow: (b >> 6u8) & 1u8 == 1u8,
            unused: (b >> 5u8) & 1u8 == 1u8,
            brk: (b >> 4u8) & 1u8 == 1u8,
            decimal: (b >> 3u8) & 1u8 == 1u8,
            interrupt: (b >> 2u8) & 1u8 == 1u8,
            zero: (b >> 1u8) & 1u8 == 1u8,
            carry: (b >> 0u8) & 1u8 == 1u8,
        }
    }

    pub fn to_byte(&self) -> (r: u8)
        ensures
            r == status_byte(*self),
    {
        let n: u8 = if self.negative { 0x80 } else { 0 };
        let v: u8 = if self.overflow { 0x40 } else { 0 };
        let u: u8 = if self.unused { 0x20 } else { 0 };
        let b: u8 = if self.brk { 0x10 } else { 0 };
        let d: u8 = if self.decimal { 0x08 } else { 0 };
        let i: u8 = if self.interrupt { 0x04 } else { 0 };
        let z: u8 = if self.zero { 0x02 } else { 0 };
        let c: u8 = if self.carry { 0x01 } else { 0 };
        n | v | u | b | d | i | z | c
    }
}

/// The registers of the CPU and its running cycle count.
#[derive(PartialEq, Eq, Structural, Clone, Copy, Debug)]
pub struct Registers {
    pub a: u8,
    pub x: u8,
    pub y: u8,
    pub sp: u8,
    pub p: Status,
    pub pc: u16,
    pub cycles: u64,
}

/// The ways the CPU leaves its program for a handler.
#[derive(PartialEq, Eq, Structural, Clone, Copy, Debug)]
pub enum Interrupt {
    Nmi,
    Irq,
    Brk,
}

pub open spec fn vector_of(kind: Interrupt) -> u16 {
    match kind {
        Interrupt::Nmi => NMI_VECTOR,
        Interrupt::Irq => IRQ_VECTOR,
        Interrupt::Brk => IRQ_VECTOR,
    }
}

/// Little-endian word at `addr` and `addr + 1` (the vectors never wrap).
pub open spec fn word_at(mem: Seq<u8>, addr: int) -> int {
    mem[addr] as int + 256 * mem[addr + 1] as int
}

/// Address of stack slot `sp`.
pub open spec fn stack_addr(sp: int) -> int {
    0x100 + sp % 256
}

/// The status byte that an interrupt pushes: bit 5 set, and B set only for BRK.
pub open spec fn pushed_status(p: Status, kind: Interrupt) -> u8 {
    status_byte(Status { unused: true, brk: kind == Interrupt::Brk, ..p })
}

/// Which interrupt is serviced before the next instruction: NMI first, then
/// IRQ only while the I flag is clear.
pub open spec fn pending_spec(nmi: bool, irq: bool, masked: bool) -> Option<Interrupt> {
    if nmi {
        Some(Interrupt::Nmi)
    } else if irq && !masked {
        Some(Interrupt::Irq)
    } else {
        None
    }
}

pub fn pending_interrupt(nmi: bool, irq: bool, masked: bool) -> (r: Option<Interrupt>)
    ensures
        r == pending_spec(nmi, irq, masked),
{
    if nmi {
        Some(Interrupt::Nmi)
    } else if irq && !masked {
        Some(Interrupt::Irq)
    } else {
        None
    }
}

/// Pushes PCH, PCL and the status byte, sets I, jumps through the vector of
/// `kind` and charges 7 cycles.
pub fn enter_interrupt(regs: &mut Registers, mem: &mut Vec<u8>, kind: Interrupt)
    requires
        old(mem)@.len() == MEM_SIZE,
        old(regs).cycles + 7 <= u64::MAX,
    ensures
        final(mem)@.len() == MEM_SIZE,
        final(mem)@ == old(mem)@.update(stack_addr(old(regs).sp as int), (old(regs).pc / 256) as u8).update(
            stack_addr(old(regs).sp as int + 255),
            (old(regs).pc % 256) as u8,
        ).update(stack_addr(old(regs).sp as int + 254), pushed_status(old(regs).p, kind)),
        final(regs).sp as int == (old(regs).sp as int + 253) % 256,
        final(regs).p == (Status { interrupt: true, ..old(regs).p }),
        final(regs).pc as int == word_at(final(mem)@, vector_of(kind) as int),
        final(regs).cycles == old(regs).cycles + 7,
        final(regs).a == old(regs).a,
        final(regs).x == old(regs).x,
        final(regs).y == old(regs).y,
{
    let pc = regs.pc;
    push(regs, mem, (pc / 256) as u8);
    push(regs, mem, (pc % 256) as u8);
    let mut pushed = regs.p;
    pushed.unused = true;
    pushed.brk = kind == Interrupt::Brk;
    let b = pushed.to_byte();
    push(regs, mem, b);
    regs.p.interrupt = true;
    let vector: u16 = match kind {
        Interrupt::Nmi => NMI_VECTOR,
        _ => IRQ_VECTOR,
    };
    let lo = mem[vector as usize] as u16;
    let hi = mem[vector as usize + 1] as u16;
    regs.pc = lo + 256 * hi;
    regs.cycles = regs.cycles + 7;
}

/// Stores `val` at the stack slot of SP and moves SP down by one, wrapping.
pub(crate) fn push(regs: &mut Registers, mem: &mut Vec<u8>, val: u8)
    requires
        old(mem)@.len() == MEM_SIZE,
    ensures
        final(mem)@ == old(mem)@.update(stack_addr(old(regs).sp as int), val),
        final(regs).sp as int == (old(regs).sp as int + 255) % 256,
        *final(regs) == (Registers { sp: final(regs).sp, ..*old(regs) }),
{
    mem.set(0x100 + regs.sp as usize, val);
    regs.sp = regs.sp.wrapping_sub(1);
}

/// Moves SP up by one, wrapping, and reads the stack slot it then points at.
pub(crate) fn pull(regs: &mut Registers, mem: &Vec<u8>) -> (v: u8)
    requires
        mem@.len() == MEM_SIZE,
    ensures
        v == mem@[stack_addr(old(regs).sp as int + 1)],
        final(regs).sp as int == (old(regs).sp as int + 1) % 256,
        *final(regs) == (Registers { sp: final(regs).sp, ..*old(regs) }),
{
    regs.sp = regs.sp.wrapping_add(1);
    mem[0x100 + regs.sp as usize]
}

/// Address from which `JMP ($ptr)` takes the high byte of its target: the
/// low byte of the pointer wraps within its page.
pub open spec fn indirect_high_addr(ptr: u16) -> int {
    (ptr as int / 256) * 256 + (ptr as int % 256 + 1) % 256
}

/// Target of `JMP ($ptr)`, with the page-wrap behaviour of the 6502.
pub fn jmp_indirect_target(mem: &Vec<u8>, ptr: u16) -> (r: u16)
    requires
        mem@.len() == MEM_SIZE,
    ensures
        r as int == mem@[ptr as int] as int + 256 * mem@[indirect_high_addr(ptr)] as int,
{
    let hi_addr: u16 = (ptr / 256) * 256 + (ptr % 256 + 1) % 256;
    let lo = mem[ptr as usize] as u16;
    let hi = mem[hi_addr as usize] as u16;
    lo + 256 * hi
}

/// For a pointer at the end of a page, `JMP ($xxFF)` takes the high byte
/// from `$xx00` of the same page, not from the next page.
pub proof fn lemma_jmp_indirect_page_wrap(ptr: u16)
    requires
        ptr as int % 256 == 255,
    ensures
        indirect_high_addr(ptr) == ptr as int - 255,
{
}

/// How an instruction finds its operand.
#[derive(PartialEq, Eq, Structural, Clone, Copy, Debug)]
pub enum AddrMode {
    Immediate,
    ZeroPage,
    ZeroPageX,
    ZeroPageY,
    Absolute,
    AbsoluteX,
    AbsoluteY,
    Indirect,
    IndexedIndirect,
    IndirectIndexed,
}

/// Byte `k` after the opcode at `pc` (wrapping at the end of memory).
pub open spec fn operand_byte(mem: Seq<u8>, pc: u16, k: int) -> int {
    mem[(pc as int + k) % 0x10000] as int
}

/// Little-endian word of two zero-page bytes at `p` and `p + 1`, wrapping in page zero.
pub open spec fn zp_word(mem: Seq<u8>, p: int) -> int {
    mem[p % 256] as int + 256 * mem[(p + 1) % 256] as int
}

pub open spec fn same_page(a: int, b: int) -> bool {
    a / 256 == b / 256
}

/// Effective address of the operand of the instruction at `r.pc` and
/// whether indexing crossed a page.
pub open spec fn operand_spec(r: Registers, mem: Seq<u8>, mode: AddrMode) -> (int, bool) {
    let lo = operand_byte(mem, r.pc, 1);
    let abs = lo + 256 * operand_byte(mem, r.pc, 2);
    match mode {
        AddrMode::Immediate => ((r.pc as int + 1) % 0x10000, false),
        AddrMode::ZeroPage => (lo, false),
        AddrMode::ZeroPageX => ((lo + r.x as int) % 256, false),
        AddrMode::ZeroPageY => ((lo + r.y as int) % 256, false),
        AddrMode::Absolute => (abs, false),
        AddrMode::AbsoluteX => {
            let a = (abs + r.x as int) % 0x10000;
            (a, !same_page(abs, a))
        },
        AddrMode::AbsoluteY => {
            let a = (abs + r.y as int) % 0x10000;
            (a, !same_page(abs, a))
        },
        AddrMode::Indirect => {
            let p = abs;
            (mem[p] as int + 256 * mem[(p / 256) * 256 + (p % 256 + 1) % 256] as int, false)
        },
        AddrMode::IndexedIndirect => (zp_word(mem, lo + r.x as int), false),
        AddrMode::IndirectIndexed => {
            let base = zp_word(mem, lo);
            let a = (base + r.y as int) % 0x10000;
            (a, !same_page(base, a))
        },
    }
}

fn read_operand(mem: &Vec<u8>, pc: u16, k: u16) -> (r: u8)
    requires
        mem@.len() == MEM_SIZE,
        k <= 2,
    ensures
        r as int == operand_byte(mem@, pc, k as int),
{
    mem[((pc as usize) + (k as usize)) % MEM_SIZE]
}

/// `base + i` wrapping at the end of memory, and whether it left the page of `base`.
fn index_word(base: u16, i: u8) -> (res: (u16, bool))
    ensures
        res.0 as int == (base as int + i as int) % 0x10000,
        res.1 == !same_page(base as int, res.0 as int),
{
    let a: u16 = if base as u32 + i as u32 >= 0x10000 {
        (base as u32 + i as u32 - 0x10000) as u16
    } else {
        base + i as u16
    };
    (a, base / 256 != a / 256)
}

/// The word at zero-page address `p` and `p + 1`, wrapping in page zero.
fn zp_word_at(mem: &Vec<u8>, p: u16) -> (w: u16)
    requires
        mem@.len() == MEM_SIZE,
    ensures
        w as int == zp_word(mem@, p as int),
{
    let lo = mem[(p % 256) as usize] as u16;
    let hi = mem[((p as u32 + 1) % 256) as usize] as u16;
    lo + 256 * hi
}

/// Resolves the operand address for `mode`; the flag tells whether an
/// indexed mode crossed a page, which costs one more cycle on reads.
pub fn operand_address(r: &Registers, mem: &Vec<u8>, mode: AddrMode) -> (res: (u16, bool))
    requires
        mem@.len() == MEM_SIZE,
    ensures
        (res.0 as int, res.1) == operand_spec(*r, mem@, mode),
{
    let lo = read_operand(mem, r.pc, 1) as u16;
    let hi = read_operand(mem, r.pc, 2) as u16;
    let abs: u16 = lo + 256 * hi;
    match mode {
        AddrMode::Immediate => (index_word(r.pc, 1).0, false),
        AddrMode::ZeroPage => (lo, false),
        AddrMode::ZeroPageX => ((lo + r.x as u16) % 256, false),
        AddrMode::ZeroPageY => ((lo + r.y as u16) % 256, false),
        AddrMode::Absolute => (abs, false),
        AddrMode::AbsoluteX => index_word(abs, r.x),
        AddrMode::AbsoluteY => index_word(abs, r.y),
        AddrMode::Indirect => (jmp_indirect_target(mem, abs), false),
        AddrMode::IndexedIndirect => (zp_word_at(mem, lo + r.x as u16), false),
        AddrMode::IndirectIndexed => {
            let base = zp_word_at(mem, lo);
            index_word(base, r.y)
        },
    }
}

/// PC after a two-byte branch at `pc` with offset `off`, taken or not.
pub open spec fn branch_target(pc: u16, off: u8, taken: bool) -> int {
    let next = (pc as int + 2) % 0x10000;
    if taken {
        (next + if off < 128 { off as int } else { off as int - 256 } + 0x10000) % 0x10000
    } else {
        next
    }
}

/// Cycles of a branch: 2, one more if taken, and one more again if the
/// target lies on another page than the next instruction.
pub open spec fn branch_cycles(pc: u16, off: u8, taken: bool) -> int {
    let next = (pc as int + 2) % 0x10000;
    if !taken {
        2
    } else if same_page(next, branch_target(pc, off, taken)) {
        3
    } else {
        4
    }
}

/// Runs a relative branch at `r.pc`: moves PC on and charges its cycles.
pub fn branch(r: &mut Registers, mem: &Vec<u8>, taken: bool) -> (cycles: u64)
    requires
        mem@.len() == MEM_SIZE,
        old(r).cycles + 4 <= u64::MAX,
    ensures
        cycles as int == branch_cycles(
            old(r).pc,
            operand_byte(mem@, old(r).pc, 1) as u8,
            taken,
        ),
        2 <= cycles <= 4,
        final(r).pc as int == branch_target(
            old(r).pc,
            operand_byte(mem@, old(r).pc, 1) as u8,
            taken,
        ),
        final(r).cycles == old(r).cycles + cycles,
        *final(r) == (Registers { pc: final(r).pc, cycles: final(r).cycles, ..*old(r) }),
{
    let off = read_operand(mem, r.pc, 1);
    let next = r.pc.wrapping_add(2);
    let cycles: u64 = if !taken {
        r.pc = next;
        2
    } else {
        let target: u16 = if off < 128 {
            next.wrapping_add(off as u16)
        } else {
            next.wrapping_sub(256 - off as u16)
        };
        let c: u64 = if next / 256 == target / 256 {
            3
        } else {
            4
        };
        r.pc = target;
        c
    };
    r.cycles = r.cycles + cycles;
    cycles
}

} // verus!
