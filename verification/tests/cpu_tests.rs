use nexel_core::{Bus24, Cpu};
use nexel_core::cpu::StatusFlags;

fn pushed_u24(bus: &Bus24, sp_after: u16) -> u32 {
    // A 24-bit push leaves the high byte deepest: pop order is high,
    // middle, low from the three addresses above the new stack pointer.
    let hi = bus.read_u8(sp_after.wrapping_add(1) as u32) as u32;
    let mid = bus.read_u8(sp_after.wrapping_add(2) as u32) as u32;
    let lo = bus.read_u8(sp_after.wrapping_add(3) as u32) as u32;
    lo + mid * 256 + hi * 65536
}

#[test]
fn cpu_initialization() {
    let cpu = Cpu::new();
    assert_eq!(cpu.a, 0);
    assert_eq!(cpu.x, 0);
    assert_eq!(cpu.y, 0);
    assert_eq!(cpu.sp, 0xFFFF);
    assert_eq!(cpu.pc, 0xFF0000);
    assert_eq!(cpu.cycles, 0);
    assert!(!cpu.halted);
}

#[test]
fn cpu_reset() {
    let mut cpu = Cpu::new();
    let mut bus = Bus24::new();
    bus.load_bios(&[0x00, 0x04, 0x40]);
    cpu.a = 0x1234;
    cpu.reset(&bus);
    assert_eq!(cpu.a, 0);
    assert_eq!(cpu.pc, 0x400400);
}

#[test]
fn cpu_lda_immediate() {
    let mut cpu = Cpu::new();
    let mut bus = Bus24::new();
    let program = vec![0x01, 0x34, 0x12];
    bus.load_bios(&program);
    cpu.pc = 0xFF0000;
    cpu.step(&mut bus);
    assert_eq!(cpu.a, 0x1234);
    assert!(!cpu.sr.zero);
    assert!(!cpu.sr.negative);
    assert_eq!(cpu.cycles, 2);
}

#[test]
fn cpu_sta_absolute() {
    let mut cpu = Cpu::new();
    let mut bus = Bus24::new();
    cpu.a = 0x5678;
    let program = vec![0x02, 0x00, 0x10, 0x00];
    bus.load_bios(&program);
    cpu.pc = 0xFF0000;
    cpu.step(&mut bus);
    assert_eq!(bus.read_u16(0x001000), 0x5678);
    assert_eq!(cpu.cycles, 3);
}

#[test]
fn cpu_add_immediate() {
    let mut cpu = Cpu::new();
    let mut bus = Bus24::new();
    cpu.a = 0x0100;
    let program = vec![0x10, 0x50, 0x00];
    bus.load_bios(&program);
    cpu.pc = 0xFF0000;
    cpu.step(&mut bus);
    assert_eq!(cpu.a, 0x0150);
    assert!(!cpu.sr.zero);
    assert!(!cpu.sr.carry);
    assert!(!cpu.sr.overflow);
}

#[test]
fn cpu_add_overflow() {
    let mut cpu = Cpu::new();
    let mut bus = Bus24::new();
    cpu.a = 0xFFFF;
    let program = vec![0x10, 0x01, 0x00];
    bus.load_bios(&program);
    cpu.pc = 0xFF0000;
    cpu.step(&mut bus);
    assert_eq!(cpu.a, 0x0000);
    assert!(cpu.sr.zero);
    assert!(cpu.sr.carry);
}

#[test]
fn cpu_sub_immediate() {
    let mut cpu = Cpu::new();
    let mut bus = Bus24::new();
    cpu.a = 0x0100;
    let program = vec![0x11, 0x50, 0x00];
    bus.load_bios(&program);
    cpu.pc = 0xFF0000;
    cpu.step(&mut bus);
    assert_eq!(cpu.a, 0x00B0);
    assert!(!cpu.sr.zero);
    assert!(cpu.sr.carry);
}

#[test]
fn cpu_sub_with_borrow_clears_carry() {
    let mut cpu = Cpu::new();
    let mut bus = Bus24::new();
    cpu.a = 0x0001;
    let program = vec![0x11, 0x02, 0x00];
    bus.load_bios(&program);
    cpu.pc = 0xFF0000;
    cpu.step(&mut bus);
    assert_eq!(cpu.a, 0xFFFF);
    assert!(!cpu.sr.carry);
    assert!(cpu.sr.negative);
}

#[test]
fn cpu_and_immediate() {
    let mut cpu = Cpu::new();
    let mut bus = Bus24::new();
    cpu.a = 0xF0F0;
    let program = vec![0x12, 0x00, 0xFF];
    bus.load_bios(&program);
    cpu.pc = 0xFF0000;
    cpu.step(&mut bus);
    assert_eq!(cpu.a, 0xF000);
    assert!(!cpu.sr.zero);
    assert!(cpu.sr.negative);
}

#[test]
fn cpu_jmp_absolute() {
    let mut cpu = Cpu::new();
    let mut bus = Bus24::new();
    let program = vec![0x20, 0x56, 0x34, 0x12];
    bus.load_bios(&program);
    cpu.pc = 0xFF0000;
    cpu.step(&mut bus);
    assert_eq!(cpu.pc, 0x123456);
    assert_eq!(cpu.cycles, 3);
}

#[test]
fn cpu_jsr_rts() {
    let mut cpu = Cpu::new();
    let mut bus = Bus24::new();
    let return_addr = 0xFF0004;
    let program = vec![0x21, 0x00, 0x00, 0x20];
    bus.load_bios(&program);
    cpu.pc = 0xFF0000;
    let old_sp = cpu.sp;
    cpu.step(&mut bus);
    assert_eq!(cpu.pc, 0x200000);
    assert_eq!(cpu.sp, old_sp.wrapping_sub(3));
    bus.write_u8(0x200000, 0x22);
    cpu.step(&mut bus);
    assert_eq!(cpu.pc, return_addr);
    assert_eq!(cpu.sp, old_sp);
}

#[test]
fn cpu_beq_taken() {
    let mut cpu = Cpu::new();
    let mut bus = Bus24::new();
    cpu.sr.zero = true;
    let program = vec![0x31, 10];
    bus.load_bios(&program);
    cpu.pc = 0xFF0000;
    cpu.step(&mut bus);
    assert_eq!(cpu.pc, 0xFF0000 + 2 + 10);
    assert_eq!(cpu.cycles, 3);
}

#[test]
fn cpu_beq_not_taken() {
    let mut cpu = Cpu::new();
    let mut bus = Bus24::new();
    cpu.sr.zero = false;
    let program = vec![0x31, 10];
    bus.load_bios(&program);
    cpu.pc = 0xFF0000;
    cpu.step(&mut bus);
    assert_eq!(cpu.pc, 0xFF0002);
    assert_eq!(cpu.cycles, 2);
}

#[test]
fn cpu_halt() {
    let mut cpu = Cpu::new();
    let mut bus = Bus24::new();
    let program = vec![0xFF];
    bus.load_bios(&program);
    cpu.pc = 0xFF0000;
    assert!(!cpu.halted);
    cpu.step(&mut bus);
    assert!(cpu.halted);
    let cycles_before = cpu.cycles;
    cpu.step(&mut bus);
    assert_eq!(cpu.cycles, cycles_before + 1);
}

#[test]
fn status_flags_to_from_byte() {
    let mut flags = StatusFlags::new();
    flags.carry = true;
    flags.zero = true;
    flags.negative = true;
    let byte = flags.to_byte();
    let restored = StatusFlags::from_byte(byte);
    assert_eq!(flags, restored);
}

#[test]
fn interrupt_request_and_service() {
    let mut cpu = Cpu::new();
    let mut bus = Bus24::new();
    let mut bios = vec![0; 0x100];
    bios[0x0C] = 0x00;
    bios[0x0D] = 0x00;
    bios[0x0E] = 0x20;
    bios[0] = 0x00;
    bus.load_bios(&bios);
    cpu.pc = 0xFF0000;
    cpu.sr.interrupt_disable = false;
    cpu.request_interrupt(4);
    assert_eq!(cpu.pending_interrupts.len(), 1);
    assert_eq!(cpu.pending_interrupts[0], 4);
    let old_sp = cpu.sp;
    let old_pc = cpu.pc;
    cpu.step(&mut bus);
    assert_eq!(cpu.pc, 0x200000);
    assert_eq!(cpu.sp, old_sp.wrapping_sub(3));
    assert_eq!(pushed_u24(&bus, cpu.sp), old_pc);
    assert!(cpu.sr.interrupt_disable);
    assert_eq!(cpu.pending_interrupts.len(), 0);
}

#[test]
fn interrupt_disabled_when_flag_set() {
    let mut cpu = Cpu::new();
    cpu.sr.interrupt_disable = true;
    cpu.request_interrupt(4);
    assert_eq!(cpu.pending_interrupts.len(), 0);
}

#[test]
fn nmi_not_maskable() {
    let mut cpu = Cpu::new();
    cpu.sr.interrupt_disable = true;
    cpu.trigger_nmi();
    assert_eq!(cpu.pending_interrupts.len(), 1);
    assert_eq!(cpu.pending_interrupts[0], 7);
}

#[test]
fn interrupt_priority_ordering() {
    let mut cpu = Cpu::new();
    cpu.sr.interrupt_disable = false;
    cpu.request_interrupt(2);
    cpu.request_interrupt(4);
    cpu.request_interrupt(1);
    cpu.request_interrupt(5);
    assert_eq!(cpu.pending_interrupts.len(), 4);
    assert_eq!(cpu.pending_interrupts[0], 5);
    assert_eq!(cpu.pending_interrupts[1], 4);
    assert_eq!(cpu.pending_interrupts[2], 2);
    assert_eq!(cpu.pending_interrupts[3], 1);
}

#[test]
fn nmi_has_highest_priority() {
    let mut cpu = Cpu::new();
    cpu.sr.interrupt_disable = false;
    cpu.request_interrupt(5);
    cpu.request_interrupt(4);
    cpu.trigger_nmi();
    assert_eq!(cpu.pending_interrupts[0], 7);
}

#[test]
fn multiple_interrupts_serviced_in_order() {
    let mut cpu = Cpu::new();
    let mut bus = Bus24::new();
    let mut bios = vec![0; 0x100];
    bios[0x0C] = 0x00;
    bios[0x0D] = 0x00;
    bios[0x0E] = 0x20;
    bios[0x0F] = 0x00;
    bios[0x10] = 0x10;
    bios[0x11] = 0x20;
    bios[0] = 0x00;
    bus.load_bios(&bios);
    cpu.pc = 0xFF0000;
    cpu.sr.interrupt_disable = false;
    cpu.request_interrupt(4);
    cpu.request_interrupt(5);
    cpu.step(&mut bus);
    assert_eq!(cpu.pc, 0x201000);
    assert_eq!(cpu.pending_interrupts.len(), 1);
    cpu.sr.interrupt_disable = false;
    cpu.step(&mut bus);
    assert_eq!(cpu.pc, 0x200000);
    assert_eq!(cpu.pending_interrupts.len(), 0);
}

#[test]
fn rti_restores_state() {
    let mut cpu = Cpu::new();
    let mut bus = Bus24::new();
    let mut bios = vec![0; 0x100];
    bios[0x0C] = 0x00;
    bios[0x0D] = 0x00;
    bios[0x0E] = 0x20;
    bios[0] = 0x00;
    bus.load_bios(&bios);
    bus.write_u8(0x200000, 0x42);
    cpu.pc = 0xFF0000;
    cpu.sr.interrupt_disable = false;
    cpu.request_interrupt(4);
    let original_pc = cpu.pc;
    let original_sp = cpu.sp;
    cpu.step(&mut bus);
    assert_eq!(cpu.pc, 0x200000);
    assert!(cpu.sr.interrupt_disable);
    cpu.step(&mut bus);
    assert_eq!(cpu.pc, original_pc);
    assert_eq!(cpu.sp, original_sp);
    assert!(!cpu.sr.interrupt_disable);
}

#[test]
fn interrupt_not_serviced_when_disabled() {
    let mut cpu = Cpu::new();
    let mut bus = Bus24::new();
    let bios = vec![0x00];
    bus.load_bios(&bios);
    cpu.pc = 0xFF0000;
    cpu.sr.interrupt_disable = true;
    cpu.pending_interrupts.push(4);
    let old_pc = cpu.pc;
    cpu.step(&mut bus);
    assert_eq!(cpu.pc, old_pc + 1);
    assert_eq!(cpu.pending_interrupts.len(), 1);
}

#[test]
fn sei_cli_instructions() {
    let mut cpu = Cpu::new();
    let mut bus = Bus24::new();
    let program = vec![0x40, 0x41];
    bus.load_bios(&program);
    cpu.pc = 0xFF0000;
    cpu.sr.interrupt_disable = false;
    cpu.step(&mut bus);
    assert!(cpu.sr.interrupt_disable);
    cpu.step(&mut bus);
    assert!(!cpu.sr.interrupt_disable);
}

#[test]
fn nmi_interrupts_even_when_disabled() {
    let mut cpu = Cpu::new();
    let mut bus = Bus24::new();
    let mut bios = vec![0; 0x100];
    bios[0x15] = 0x00;
    bios[0x16] = 0x00;
    bios[0x17] = 0x20;
    bios[0] = 0x00;
    bus.load_bios(&bios);
    cpu.pc = 0xFF0000;
    cpu.sr.interrupt_disable = true;
    cpu.trigger_nmi();
    assert_eq!(cpu.pending_interrupts.len(), 1);
    let old_pc = cpu.pc;
    cpu.step(&mut bus);
    assert_eq!(cpu.pc, 0x200000);
    assert_eq!(pushed_u24(&bus, cpu.sp), old_pc);
    assert_eq!(cpu.pending_interrupts.len(), 0);
}

#[test]
fn duplicate_interrupt_not_added() {
    let mut cpu = Cpu::new();
    cpu.sr.interrupt_disable = false;
    cpu.request_interrupt(4);
    cpu.request_interrupt(4);
    assert_eq!(cpu.pending_interrupts.len(), 1);
    assert_eq!(cpu.pending_interrupts[0], 4);
}
