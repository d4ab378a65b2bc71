//! The instruction trace line, in the layout of the community "nestest" log:
//! `PC A:aa X:xx Y:yy P:pp SP:ss PPU:sss,ddd CYC:n`.
use vstd::prelude::*;
use crate::cpu::{Registers, status_byte};
use crate::ppu::Clock;

verus! {

/// ASCII of hexadecimal digit `d` (0 to 15), upper case.
pub open spec fn hex_digit(d: int) -> u8 {
    if d < 10 {
        (48 + d) as u8
    } else {
        (55 + d) as u8
    }
}

/// Two upper-case hex digits of `b`.
pub open spec fn hex2(b: u8) -> Seq<u8> {
    seq![hex_digit(b as int / 16), hex_digit(b as int % 16)]
}

/// Four upper-case hex digits of `w`.
pub open spec fn hex4(w: u16) -> Seq<u8> {
    hex2((w / 256) as u8) + hex2((w % 256) as u8)
}

/// Decimal digits of `n`, without leading zeros.
pub open spec fn decimal(n: nat) -> Seq<u8>
    decreases n,
{
    if n < 10 {
        seq![(48 + n) as u8]
    } else {
        decimal(n / 10).push((48 + n % 10) as u8)
    }
}

/// Decimal digits of `i`, with a minus sign when negative.
pub open spec fn signed_decimal(i: int) -> Seq<u8> {
    if i < 0 {
        seq![45u8] + decimal((-i) as nat)
    } else {
        decimal(i as nat)
    }
}

/// `s` right-justified in a field of `w` characters.
pub open spec fn pad_left(s: Seq<u8>, w: nat) -> Seq<u8> {
    if s.len() >= w {
        s
    } else {
        Seq::new((w - s.len()) as nat, |i: int| 32u8) + s
    }
}

/// ` L:hh`: a space, the one-letter name `l`, a colon and two hex digits.
pub open spec fn reg_field(l: u8, b: u8) -> Seq<u8> {
    seq![32u8, l, 58u8] + hex2(b)
}

/// ` SP:hh`.
pub open spec fn sp_field(sp: u8) -> Seq<u8> {
    seq![32u8, 83u8, 80u8, 58u8] + hex2(sp)
}

/// ` PPU:sss,ddd`: scanline and dot, each right-justified in 3.
pub open spec fn ppu_field(c: Clock) -> Seq<u8> {
    seq![32u8, 80u8, 80u8, 85u8, 58u8] + pad_left(signed_decimal(c.scanline as int), 3) + seq![44u8]
        + pad_left(decimal(c.dot as nat), 3)
}

/// ` CYC:n`.
pub open spec fn cyc_field(n: u64) -> Seq<u8> {
    seq![32u8, 67u8, 89u8, 67u8, 58u8] + decimal(n as nat)
}

/// The trace line for registers `r` about to run the instruction at
/// `r.pc`, with the PPU at clock `c`.
pub open spec fn trace_spec(r: Registers, c: Clock) -> Seq<u8> {
    hex4(r.pc) + reg_field(65u8, r.a) + reg_field(88u8, r.x) + reg_field(89u8, r.y) + reg_field(
        80u8,
        status_byte(r.p),
    ) + sp_field(r.sp) + ppu_field(c) + cyc_field(r.cycles)
}

fn push_hex_digit(v: &mut Vec<u8>, d: u8)
    requires
        d < 16,
    ensures
        final(v)@ == old(v)@.push(hex_digit(d as int)),
{
    if d < 10 {
        v.push(48 + d);
    } else {
        v.push(55 + d);
    }
}

fn push_hex2(v: &mut Vec<u8>, b: u8)
    ensures
        final(v)@ == old(v)@ + hex2(b),
{
    push_hex_digit(v, b / 16);
    push_hex_digit(v, b % 16);
    assert(final(v)@ =~= old(v)@ + hex2(b));
}

fn push_all(v: &mut Vec<u8>, s: &Vec<u8>)
    ensures
        final(v)@ == old(v)@ + s@,
{
    let mut i: usize = 0;
    while i < s.len()
        invariant
            i <= s@.len(),
            v@ == old(v)@ + s@.subrange(0, i as int),
        decreases s@.len() - i,
    {
        v.push(s[i]);
        i = i + 1;
        assert(v@ =~= old(v)@ + s@.subrange(0, i as int));
    }
    assert(s@.subrange(0, s@.len() as int) =~= s@);
}

fn push_decimal(v: &mut Vec<u8>, n: u64)
    ensures
        final(v)@ == old(v)@ + decimal(n as nat),
    decreases n,
{
    if n >= 10 {
        push_decimal(v, n / 10);
    }
    v.push(48 + (n % 10) as u8);
    assert(final(v)@ =~= old(v)@ + decimal(n as nat));
}

proof fn lemma_decimal_len(n: nat)
    ensures
        decimal(n).len() >= 1,
        n < 10 ==> decimal(n).len() == 1,
        10 <= n < 100 ==> decimal(n).len() == 2,
        100 <= n < 1000 ==> decimal(n).len() == 3,
    decreases n,
{
    if n >= 10 {
        lemma_decimal_len(n / 10);
    }
}

/// Pushes the decimal form of `i` right-justified in 3 characters.
fn push_field3(v: &mut Vec<u8>, i: i16)
    requires
        -99 <= i <= 999,
    ensures
        final(v)@ == old(v)@ + pad_left(signed_decimal(i as int), 3),
{
    let mut digits: Vec<u8> = Vec::new();
    if i < 0 {
        digits.push(45);
        push_decimal(&mut digits, (-i) as u64);
        proof {
            lemma_decimal_len((-i) as nat);
        }
    } else {
        push_decimal(&mut digits, i as u64);
        proof {
            lemma_decimal_len(i as nat);
        }
    }
    assert(digits@ =~= signed_decimal(i as int));
    let mut k: usize = digits.len();
    while k < 3
        invariant
            digits@ == signed_decimal(i as int),
            digits@.len() <= k <= 3 || (k == digits@.len() && k >= 3),
            v@ == old(v)@ + Seq::new((k - digits@.len()) as nat, |j: int| 32u8),
        decreases 3 - k,
    {
        v.push(32);
        k = k + 1;
        assert(v@ =~= old(v)@ + Seq::new((k - digits@.len()) as nat, |j: int| 32u8));
    }
    push_all(v, &digits);
    assert(v@ =~= old(v)@ + pad_left(signed_decimal(i as int), 3));
}

fn push_hex4(v: &mut Vec<u8>, w: u16)
    ensures
        final(v)@ == old(v)@ + hex4(w),
{
    push_hex2(v, (w / 256) as u8);
    push_hex2(v, (w % 256) as u8);
    assert(final(v)@ =~= old(v)@ + hex4(w));
}

fn push_reg_field(v: &mut Vec<u8>, l: u8, b: u8)
    ensures
        final(v)@ == old(v)@ + reg_field(l, b),
{
    v.push(32);
    v.push(l);
    v.push(58);
    push_hex2(v, b);
    assert(final(v)@ =~= old(v)@ + reg_field(l, b));
}

fn push_sp_field(v: &mut Vec<u8>, sp: u8)
    ensures
        final(v)@ == old(v)@ + sp_field(sp),
{
    v.push(32);
    v.push(83);
    v.push(80);
    v.push(58);
    push_hex2(v, sp);
    assert(final(v)@ =~= old(v)@ + sp_field(sp));
}

fn push_ppu_field(v: &mut Vec<u8>, c: &Clock)
    requires
        crate::ppu::clock_wf(*c),
    ensures
        final(v)@ == old(v)@ + ppu_field(*c),
{
    v.push(32);
    v.push(80);
    v.push(80);
    v.push(85);
    v.push(58);
    push_field3(v, c.scanline);
    v.push(44);
    push_field3(v, c.dot as i16);
    assert(signed_decimal(c.dot as i16 as int) == decimal(c.dot as nat));
    assert(final(v)@ =~= old(v)@ + ppu_field(*c));
}

fn push_cyc_field(v: &mut Vec<u8>, n: u64)
    ensures
        final(v)@ == old(v)@ + cyc_field(n),
{
    v.push(32);
    v.push(67);
    v.push(89);
    v.push(67);
    v.push(58);
    push_decimal(v, n);
    assert(final(v)@ =~= old(v)@ + cyc_field(n));
}

/// The trace line, as ASCII bytes.
pub fn trace_line(r: &Registers, c: &Clock) -> (s: Vec<u8>)
    requires
        crate::ppu::clock_wf(*c),
    ensures
        s@ == trace_spec(*r, *c),
{
    let mut v: Vec<u8> = Vec::new();
    push_hex4(&mut v, r.pc);
    assert(v@ =~= hex4(r.pc));
    push_reg_field(&mut v, 65, r.a);
    push_reg_field(&mut v, 88, r.x);
    push_reg_field(&mut v, 89, r.y);
    let p = r.p.to_byte();
    push_reg_field(&mut v, 80, p);
    push_sp_field(&mut v, r.sp);
    push_ppu_field(&mut v, c);
    push_cyc_field(&mut v, r.cycles);
    v
}

} // verus!
