use nes::cpu::{AddrMode, Registers, Status, MEM_SIZE};
use nes::step::{decode, step, Op};

fn regs(pc: u16) -> Registers {
    Registers { a: 0, x: 0, y: 0, sp: 0xFD, p: Status::from_byte(0x24), pc, cycles: 7 }
}

fn load(mem: &mut Vec<u8>, at: usize, bytes: &[u8]) {
    mem[at..at + bytes.len()].copy_from_slice(bytes);
}

#[test]
fn decode_table_entries() {
    assert_eq!(decode(0xA9), Some((Op::Lda, Some(AddrMode::Immediate))));
    assert_eq!(decode(0x91), Some((Op::Sta, Some(AddrMode::IndirectIndexed))));
    assert_eq!(decode(0x6C), Some((Op::Jmp, Some(AddrMode::Indirect))));
    assert_eq!(decode(0xEA), Some((Op::Nop, None)));
    assert_eq!(decode(0x02), None);
}

#[test]
fn load_store_and_flags() {
    let mut mem = vec![0u8; MEM_SIZE];
    load(&mut mem, 0xC000, &[0xA9, 0x80, 0x8D, 0x00, 0x03, 0xA2, 0x00, 0xE8, 0xAA]);
    let mut r = regs(0xC000);
    assert_eq!(step(&mut r, &mut mem), 2);
    assert_eq!(r.a, 0x80);
    assert!(r.p.negative && !r.p.zero);
    assert_eq!(step(&mut r, &mut mem), 4);
    assert_eq!(mem[0x0300], 0x80);
    assert_eq!(step(&mut r, &mut mem), 2);
    assert!(r.p.zero);
    step(&mut r, &mut mem);
    assert_eq!(r.x, 1);
    step(&mut r, &mut mem);
    assert_eq!(r.x, 0x80);
    assert_eq!(r.pc, 0xC009);
    assert_eq!(r.cycles, 7 + 2 + 4 + 2 + 2 + 2);
}

#[test]
fn adc_and_sbc_set_carry_and_overflow() {
    let mut mem = vec![0u8; MEM_SIZE];
    load(&mut mem, 0x0400, &[0x18, 0xA9, 0x50, 0x69, 0x50, 0x38, 0xE9, 0x01, 0x69, 0x80]);
    let mut r = regs(0x0400);
    for _ in 0..3 {
        step(&mut r, &mut mem);
    }
    assert_eq!(r.a, 0xA0);
    assert!(r.p.overflow && !r.p.carry && r.p.negative);
    step(&mut r, &mut mem);
    step(&mut r, &mut mem);
    assert_eq!(r.a, 0x9F);
    assert!(r.p.carry && !r.p.overflow);
    step(&mut r, &mut mem);
    assert_eq!(r.a, 0x20);
    assert!(r.p.carry && r.p.overflow);
}

#[test]
fn compare_sets_carry_zero_negative() {
    let mut mem = vec![0u8; MEM_SIZE];
    load(&mut mem, 0x0400, &[0xA9, 0x40, 0xC9, 0x40, 0xC9, 0x41, 0xC9, 0x10]);
    let mut r = regs(0x0400);
    step(&mut r, &mut mem);
    step(&mut r, &mut mem);
    assert!(r.p.zero && r.p.carry && !r.p.negative);
    step(&mut r, &mut mem);
    assert!(!r.p.zero && !r.p.carry && r.p.negative);
    step(&mut r, &mut mem);
    assert!(!r.p.zero && r.p.carry && !r.p.negative);
}

#[test]
fn page_cross_costs_a_cycle_on_reads_only() {
    let mut mem = vec![0u8; MEM_SIZE];
    load(&mut mem, 0x0400, &[0xA2, 0x01, 0xBD, 0xFF, 0x20, 0xBD, 0x00, 0x20, 0x9D, 0xFF, 0x20]);
    mem[0x2100] = 0x77;
    let mut r = regs(0x0400);
    step(&mut r, &mut mem);
    assert_eq!(step(&mut r, &mut mem), 5);
    assert_eq!(r.a, 0x77);
    assert_eq!(step(&mut r, &mut mem), 4);
    assert_eq!(step(&mut r, &mut mem), 5);
    assert_eq!(mem[0x2100], 0x00);
}

#[test]
fn jmp_indirect_page_bug_through_step() {
    let mut mem = vec![0u8; MEM_SIZE];
    load(&mut mem, 0x0400, &[0x6C, 0xFF, 0x30]);
    mem[0x30FF] = 0x80;
    mem[0x3000] = 0x50;
    mem[0x3100] = 0x40;
    let mut r = regs(0x0400);
    assert_eq!(step(&mut r, &mut mem), 5);
    assert_eq!(r.pc, 0x5080);
}

#[test]
fn countdown_loop_with_branch() {
    let mut mem = vec![0u8; MEM_SIZE];
    // LDX #3; loop: DEX; BNE loop; NOP
    load(&mut mem, 0x0600, &[0xA2, 0x03, 0xCA, 0xD0, 0xFD, 0xEA]);
    let mut r = regs(0x0600);
    let mut total = 0;
    while r.pc != 0x0606 {
        let c = step(&mut r, &mut mem);
        assert!(c >= 2);
        total += c;
    }
    assert_eq!(r.x, 0);
    assert_eq!(total, 2 + 3 * 2 + 2 * 3 + 2 + 2);
}

#[test]
fn unknown_opcode_is_two_cycle_nop() {
    let mut mem = vec![0u8; MEM_SIZE];
    mem[0x0700] = 0x02;
    let mut r = regs(0x0700);
    assert_eq!(step(&mut r, &mut mem), 2);
    assert_eq!(r.pc, 0x0701);
    assert_eq!(r.a, 0);
}

#[test]
fn shifts_rotates_and_memory_increments() {
    let mut mem = vec![0u8; MEM_SIZE];
    // LDA #$81; ASL A; ROL A; LSR A; ROR A; INC $10; DEC $11; ASL $12
    load(&mut mem, 0x0400, &[0xA9, 0x81, 0x0A, 0x2A, 0x4A, 0x6A, 0xE6, 0x10, 0xC6, 0x11, 0x06, 0x12]);
    mem[0x10] = 0xFF;
    mem[0x11] = 0x00;
    mem[0x12] = 0x40;
    let mut r = regs(0x0400);
    step(&mut r, &mut mem);
    step(&mut r, &mut mem);
    assert_eq!(r.a, 0x02);
    assert!(r.p.carry);
    step(&mut r, &mut mem);
    assert_eq!(r.a, 0x05);
    assert!(!r.p.carry);
    step(&mut r, &mut mem);
    assert_eq!(r.a, 0x02);
    assert!(r.p.carry);
    step(&mut r, &mut mem);
    assert_eq!(r.a, 0x81);
    assert!(!r.p.carry && r.p.negative);
    assert_eq!(step(&mut r, &mut mem), 5);
    assert_eq!(mem[0x10], 0x00);
    assert!(r.p.zero);
    step(&mut r, &mut mem);
    assert_eq!(mem[0x11], 0xFF);
    assert!(r.p.negative);
    step(&mut r, &mut mem);
    assert_eq!(mem[0x12], 0x80);
}

#[test]
fn bit_copies_high_bits() {
    let mut mem = vec![0u8; MEM_SIZE];
    load(&mut mem, 0x0400, &[0xA9, 0x01, 0x24, 0x20]);
    mem[0x20] = 0xC0;
    let mut r = regs(0x0400);
    step(&mut r, &mut mem);
    assert_eq!(step(&mut r, &mut mem), 3);
    assert!(r.p.negative && r.p.overflow && r.p.zero);
    assert_eq!(r.a, 0x01);
}

#[test]
fn stack_push_pull_and_subroutines() {
    let mut mem = vec![0u8; MEM_SIZE];
    // LDA #$42; PHA; LDA #0; PLA; PHP; PLP; JSR $0500; NOP  /  $0500: RTS
    load(&mut mem, 0x0400, &[0xA9, 0x42, 0x48, 0xA9, 0x00, 0x68, 0x08, 0x28, 0x20, 0x00, 0x05, 0xEA]);
    mem[0x0500] = 0x60;
    let mut r = regs(0x0400);
    step(&mut r, &mut mem);
    assert_eq!(step(&mut r, &mut mem), 3);
    assert_eq!(mem[0x01FD], 0x42);
    assert_eq!(r.sp, 0xFC);
    step(&mut r, &mut mem);
    assert_eq!(step(&mut r, &mut mem), 4);
    assert_eq!(r.a, 0x42);
    assert_eq!(r.sp, 0xFD);
    step(&mut r, &mut mem);
    assert_eq!(mem[0x01FD], 0x34);
    let p = r.p;
    step(&mut r, &mut mem);
    assert_eq!(r.p, p);
    assert_eq!(step(&mut r, &mut mem), 6);
    assert_eq!(r.pc, 0x0500);
    assert_eq!(mem[0x01FD], 0x04);
    assert_eq!(mem[0x01FC], 0x0A);
    assert_eq!(step(&mut r, &mut mem), 6);
    assert_eq!(r.pc, 0x040B);
    assert_eq!(r.sp, 0xFD);
}

#[test]
fn brk_and_rti() {
    let mut mem = vec![0u8; MEM_SIZE];
    mem[0x0400] = 0x00;
    mem[0xFFFE] = 0x00;
    mem[0xFFFF] = 0x06;
    mem[0x0600] = 0x40;
    let mut r = regs(0x0400);
    r.p.carry = true;
    r.p.interrupt = false;
    assert_eq!(step(&mut r, &mut mem), 7);
    assert_eq!(r.pc, 0x0600);
    assert!(r.p.interrupt);
    assert_eq!(mem[0x01FB], 0x31);
    assert_eq!(step(&mut r, &mut mem), 6);
    assert_eq!(r.pc, 0x0402);
    assert!(!r.p.interrupt && r.p.carry);
    assert_eq!(r.sp, 0xFD);
}

#[test]
fn undocumented_lax_sax_and_nops() {
    let mut mem = vec![0u8; MEM_SIZE];
    // LAX $10; SAX $11 (after LDX #$0F); NOP #imm; NOP $1234,X; NOP (1-byte)
    load(&mut mem, 0x0400, &[0xA7, 0x10, 0xA2, 0x0F, 0x87, 0x11, 0x80, 0x55, 0x1C, 0xFF, 0x12, 0x1A]);
    mem[0x10] = 0xF3;
    let mut r = regs(0x0400);
    assert_eq!(step(&mut r, &mut mem), 3);
    assert_eq!((r.a, r.x), (0xF3, 0xF3));
    assert!(r.p.negative);
    step(&mut r, &mut mem);
    assert_eq!(step(&mut r, &mut mem), 3);
    assert_eq!(mem[0x11], 0x03);
    assert_eq!(step(&mut r, &mut mem), 2);
    assert_eq!(r.pc, 0x0408);
    assert_eq!(step(&mut r, &mut mem), 5);
    assert_eq!(r.pc, 0x040B);
    assert_eq!(step(&mut r, &mut mem), 2);
    assert_eq!(r.pc, 0x040C);
    assert_eq!(r.a, 0xF3);
}

#[test]
fn undocumented_immediate_alu() {
    let mut mem = vec![0u8; MEM_SIZE];
    // LDA #$C3; ANC #$81; ALR #$03; LDX #$07; AXS #$02; SBC #$00 ($EB)
    load(&mut mem, 0x0400, &[0xA9, 0xC3, 0x0B, 0x81, 0x4B, 0x03, 0xA2, 0x07, 0xCB, 0x02, 0xEB, 0x00]);
    let mut r = regs(0x0400);
    step(&mut r, &mut mem);
    step(&mut r, &mut mem);
    assert_eq!(r.a, 0x81);
    assert!(r.p.carry && r.p.negative);
    step(&mut r, &mut mem);
    assert_eq!(r.a, 0x00);
    assert!(r.p.carry && r.p.zero);
    step(&mut r, &mut mem);
    step(&mut r, &mut mem);
    assert_eq!(r.x, 0xFE);
    assert!(!r.p.carry && r.p.negative);
    step(&mut r, &mut mem);
    assert_eq!(r.a, 0xFF);
    assert!(!r.p.carry);
}

#[test]
fn undocumented_read_modify_write() {
    let mut mem = vec![0u8; MEM_SIZE];
    // LDA #$10; DCP $20; ISB $21; SLO $22; SRE $23 (zero page); RLA ($30),Y with Y=0
    load(&mut mem, 0x0400, &[0xA9, 0x10, 0xC7, 0x20, 0xE7, 0x21, 0x07, 0x22, 0x47, 0x23, 0x33, 0x30]);
    mem[0x20] = 0x11;
    mem[0x21] = 0x04;
    mem[0x22] = 0x81;
    mem[0x23] = 0x06;
    mem[0x30] = 0x00;
    mem[0x31] = 0x05;
    mem[0x0500] = 0x7F;
    let mut r = regs(0x0400);
    step(&mut r, &mut mem);
    assert_eq!(step(&mut r, &mut mem), 5);
    assert_eq!(mem[0x20], 0x10);
    assert!(r.p.zero && r.p.carry);
    step(&mut r, &mut mem);
    assert_eq!(mem[0x21], 0x05);
    assert_eq!(r.a, 0x0B);
    step(&mut r, &mut mem);
    assert_eq!(mem[0x22], 0x02);
    assert_eq!(r.a, 0x0B);
    assert!(r.p.carry);
    step(&mut r, &mut mem);
    assert_eq!(mem[0x23], 0x03);
    assert_eq!(r.a, 0x08);
    assert!(!r.p.carry);
    assert_eq!(step(&mut r, &mut mem), 8);
    assert_eq!(mem[0x0500], 0xFE);
    assert_eq!(r.a, 0x08);
}

#[test]
fn undocumented_arr() {
    let mut mem = vec![0u8; MEM_SIZE];
    // SEC; LDA #$FF; ARR #$C0
    load(&mut mem, 0x0400, &[0x38, 0xA9, 0xFF, 0x6B, 0xC0]);
    let mut r = regs(0x0400);
    step(&mut r, &mut mem);
    step(&mut r, &mut mem);
    step(&mut r, &mut mem);
    assert_eq!(r.a, 0xE0);
    assert!(r.p.carry && !r.p.overflow && r.p.negative);
}
