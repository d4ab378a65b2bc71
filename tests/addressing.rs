use nes::cpu::{branch, operand_address, AddrMode, Registers, Status, MEM_SIZE};

fn regs(pc: u16, x: u8, y: u8) -> Registers {
    Registers { a: 0, x, y, sp: 0xFD, p: Status::from_byte(0x24), pc, cycles: 0 }
}

#[test]
fn zero_page_modes_wrap_in_page_zero() {
    let mut mem = vec![0u8; MEM_SIZE];
    mem[0x0201] = 0xF0;
    let r = regs(0x0200, 0x20, 0x11);
    assert_eq!(operand_address(&r, &mem, AddrMode::ZeroPage), (0x00F0, false));
    assert_eq!(operand_address(&r, &mem, AddrMode::ZeroPageX), (0x0010, false));
    assert_eq!(operand_address(&r, &mem, AddrMode::ZeroPageY), (0x0001, false));
}

#[test]
fn absolute_indexed_reports_page_cross() {
    let mut mem = vec![0u8; MEM_SIZE];
    mem[0x0201] = 0xF0;
    mem[0x0202] = 0x12;
    let r = regs(0x0200, 0x0F, 0x10);
    assert_eq!(operand_address(&r, &mem, AddrMode::Absolute), (0x12F0, false));
    assert_eq!(operand_address(&r, &mem, AddrMode::AbsoluteX), (0x12FF, false));
    assert_eq!(operand_address(&r, &mem, AddrMode::AbsoluteY), (0x1300, true));
    mem[0x0201] = 0xFF;
    mem[0x0202] = 0xFF;
    assert_eq!(operand_address(&r, &mem, AddrMode::AbsoluteX), (0x000E, true));
}

#[test]
fn indirect_modes() {
    let mut mem = vec![0u8; MEM_SIZE];
    mem[0x0201] = 0xFF;
    mem[0x0202] = 0x02;
    mem[0x02FF] = 0x34;
    mem[0x0200] = 0x12;
    let r = regs(0x0200, 0x01, 0x01);
    assert_eq!(operand_address(&r, &mem, AddrMode::Indirect), (0x1234, false));
    // (zp,X) with the pointer wrapping inside page zero
    mem[0x0201] = 0xFE;
    mem[0x00FF] = 0xCD;
    mem[0x0000] = 0xAB;
    assert_eq!(operand_address(&r, &mem, AddrMode::IndexedIndirect), (0xABCD, false));
    // (zp),Y crossing a page
    mem[0x00FE] = 0xFF;
    mem[0x00FF] = 0x40;
    assert_eq!(operand_address(&r, &mem, AddrMode::IndirectIndexed), (0x4100, true));
}

#[test]
fn branch_cycle_counts() {
    let mut mem = vec![0u8; MEM_SIZE];
    mem[0x1001] = 0x10;
    let mut r = regs(0x1000, 0, 0);
    assert_eq!(branch(&mut r, &mem, false), 2);
    assert_eq!(r.pc, 0x1002);
    let mut r = regs(0x1000, 0, 0);
    assert_eq!(branch(&mut r, &mem, true), 3);
    assert_eq!(r.pc, 0x1012);
    mem[0x1001] = 0xF0;
    let mut r = regs(0x1000, 0, 0);
    assert_eq!(branch(&mut r, &mem, true), 4);
    assert_eq!(r.pc, 0x0FF2);
    assert_eq!(r.cycles, 4);
}
