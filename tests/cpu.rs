use nes::cpu::{enter_interrupt, jmp_indirect_target, pending_interrupt, Interrupt, Registers, Status, MEM_SIZE};

fn status(b: u8) -> Status {
    Status::from_byte(b)
}

#[test]
fn status_byte_round_trips_on_every_byte() {
    for b in 0..=255u8 {
        assert_eq!(status(b).to_byte(), b);
    }
}

#[test]
fn status_flags_decode() {
    let s = status(0xA5);
    assert!(s.negative && !s.overflow && s.unused && !s.brk);
    assert!(!s.decimal && s.interrupt && !s.zero && s.carry);
    let t = Status { negative: false, overflow: true, unused: true, brk: true, decimal: false, interrupt: false, zero: true, carry: false };
    assert_eq!(t.to_byte(), 0x72);
    assert_eq!(Status::from_byte(t.to_byte()), t);
}

#[test]
fn jmp_indirect_wraps_within_page() {
    let mut mem = vec![0u8; MEM_SIZE];
    mem[0x10FF] = 0x34;
    mem[0x1000] = 0x12;
    mem[0x1100] = 0x56;
    assert_eq!(jmp_indirect_target(&mem, 0x10FF), 0x1234);
    mem[0x2000] = 0xCD;
    mem[0x2001] = 0xAB;
    assert_eq!(jmp_indirect_target(&mem, 0x2000), 0xABCD);
}

#[test]
fn nmi_before_irq_and_irq_masked() {
    assert_eq!(pending_interrupt(true, true, true), Some(Interrupt::Nmi));
    assert_eq!(pending_interrupt(false, true, false), Some(Interrupt::Irq));
    assert_eq!(pending_interrupt(false, true, true), None);
    assert_eq!(pending_interrupt(false, false, false), None);
}

fn regs() -> Registers {
    Registers { a: 1, x: 2, y: 3, sp: 0xFD, p: status(0x24 & !0x04), pc: 0xC123, cycles: 100 }
}

#[test]
fn nmi_entry_pushes_and_vectors() {
    let mut mem = vec![0u8; MEM_SIZE];
    mem[0xFFFA] = 0x00;
    mem[0xFFFB] = 0x90;
    let mut r = regs();
    enter_interrupt(&mut r, &mut mem, Interrupt::Nmi);
    assert_eq!(mem[0x01FD], 0xC1);
    assert_eq!(mem[0x01FC], 0x23);
    assert_eq!(mem[0x01FB], 0x20);
    assert_eq!(r.sp, 0xFA);
    assert_eq!(r.pc, 0x9000);
    assert!(r.p.interrupt);
    assert_eq!(r.cycles, 107);
    assert_eq!((r.a, r.x, r.y), (1, 2, 3));
}

#[test]
fn brk_pushes_b_flag_and_uses_irq_vector() {
    let mut mem = vec![0u8; MEM_SIZE];
    mem[0xFFFE] = 0x78;
    mem[0xFFFF] = 0x56;
    let mut r = regs();
    r.sp = 0x01;
    enter_interrupt(&mut r, &mut mem, Interrupt::Brk);
    assert_eq!(mem[0x0101], 0xC1);
    assert_eq!(mem[0x0100], 0x23);
    assert_eq!(mem[0x01FF], 0x30);
    assert_eq!(r.sp, 0xFE);
    assert_eq!(r.pc, 0x5678);
}
