use nexel_core::Nexel24;
use nexel_core::emulator::{CPU_CLOCK_HZ, CYCLES_PER_FRAME, TARGET_FPS};

#[test]
fn emulator_initialization() {
    let emu = Nexel24::new();
    assert_eq!(emu.cpu.pc, 0xFF0000);
    assert_eq!(emu.frame_count, 0);
    assert!(!emu.cpu.halted);
}

#[test]
fn emulator_reset() {
    let mut emu = Nexel24::new();
    let bios = vec![0x00, 0x04, 0x40];
    emu.load_bios(&bios);
    emu.cpu.a = 0x1234;
    emu.frame_count = 10;
    emu.reset();
    assert_eq!(emu.cpu.a, 0);
    assert_eq!(emu.cpu.pc, 0x400400);
    assert_eq!(emu.frame_count, 0);
}

#[test]
fn emulator_load_and_execute() {
    let mut emu = Nexel24::new();
    let mut program = vec![0x03, 0x00, 0xFF];
    program.extend_from_slice(&[
        0x01, 0x34, 0x12, // LDA #0x1234
        0xFF, // HLT
    ]);
    emu.load_bios(&program);
    emu.reset();
    emu.step();
    assert_eq!(emu.cpu.a, 0x1234);
    assert!(!emu.cpu.halted);
    emu.step();
    assert!(emu.cpu.halted);
}

#[test]
fn emulator_step_frame() {
    let mut emu = Nexel24::new();
    let mut program = vec![0x03, 0x00, 0xFF];
    program.extend_from_slice(&vec![0x00; 100]);
    program.push(0xFF);
    emu.load_bios(&program);
    emu.reset();
    let initial_cycles = emu.cpu.cycles;
    emu.step_frame();
    assert!(emu.cpu.cycles > initial_cycles);
    assert_eq!(emu.frame_count, 1);
}

#[test]
fn emulator_run_multiple_frames() {
    let mut emu = Nexel24::new();
    let mut program = vec![0x03, 0x00, 0xFF];
    program.extend_from_slice(&[
        0x30, 0xFE, // branch back to itself
    ]);
    emu.load_bios(&program);
    emu.reset();
    emu.run_frames(5);
    assert_eq!(emu.frame_count, 5);
    assert!(emu.cpu.cycles >= 5 * CYCLES_PER_FRAME);
}

#[test]
fn emulator_stats() {
    let mut emu = Nexel24::new();
    let mut program = vec![0x03, 0x00, 0xFF];
    program.extend_from_slice(&[0x01, 0x34, 0x12, 0xFF]);
    emu.load_bios(&program);
    emu.reset();
    emu.step();
    emu.step();
    let stats = emu.stats();
    assert_eq!(stats.total_cycles, 3);
    assert!(stats.halted);
}

#[test]
fn emulator_cycles_per_frame_constant() {
    assert_eq!(CYCLES_PER_FRAME, 307_200);
    assert_eq!(CPU_CLOCK_HZ / TARGET_FPS, 307_200);
}

#[test]
fn emulator_vdp_register_access() {
    let mut emu = Nexel24::new();
    emu.write_memory(0x100000, 0x07);
    emu.write_memory(0x100001, 0x00);
    let val_lo = emu.read_memory(0x100000);
    let val_hi = emu.read_memory(0x100001);
    let value = (val_lo as u16) | ((val_hi as u16) << 8);
    assert_eq!(value, 0x07);
    assert_eq!(emu.vdp().read_reg(0), 0x07);
}

#[test]
fn emulator_vdp_vram_access() {
    let mut emu = Nexel24::new();
    emu.write_memory(0x200000, 0x42);
    emu.write_memory(0x200001, 0x43);
    emu.write_memory(0x200002, 0x44);
    assert_eq!(emu.read_memory(0x200000), 0x42);
    assert_eq!(emu.read_memory(0x200001), 0x43);
    assert_eq!(emu.read_memory(0x200002), 0x44);
}

#[test]
fn emulator_vdp_cram_access() {
    let mut emu = Nexel24::new();
    emu.write_memory(0x280000, 0x3F);
    emu.write_memory(0x280001, 0x00);
    emu.write_memory(0x280002, 0x00);
    assert_eq!(emu.read_memory(0x280000), 0x3F);
    assert_eq!(emu.read_memory(0x280001), 0x00);
    assert_eq!(emu.read_memory(0x280002), 0x00);
}

#[test]
fn emulator_vdp_timing_integration() {
    let mut emu = Nexel24::new();
    emu.vdp_mut().set_display_enable(true);
    let initial_frame_count = emu.vdp().frame_count();
    emu.step_frame();
    assert!(emu.vdp().frame_count() > initial_frame_count || emu.cpu.halted);
}

#[test]
fn emulator_boot_program_runs_to_halt() {
    // A BIOS image whose reset vector leads to a load, a store and a
    // halt: the accumulator and the stored word hold the immediate, and
    // the three instructions cost six cycles.
    let bios = vec![
        0x03, 0x00, 0xFF, // reset vector 0xFF0003
        0x01, 0x34, 0x12, // LDA #0x1234
        0x02, 0x00, 0x10, 0x00, // STA 0x001000
        0xFF, // HLT
    ];
    let mut emu = Nexel24::new();
    emu.load_bios(&bios);
    emu.reset();
    let mut guard = 0;
    while !emu.cpu.halted && guard < 100 {
        emu.step();
        guard += 1;
    }
    assert!(emu.cpu.halted);
    assert_eq!(emu.cpu.a, 0x1234);
    assert_eq!(emu.bus.read_u16(0x001000), 0x1234);
    assert_eq!(emu.cpu.cycles, 6);
}

#[test]
fn emulator_routes_cpu_store_to_vdp() {
    // A store to the display-control register lands in the VDP, not in
    // the bus's backing storage.
    let bios = vec![
        0x03, 0x00, 0xFF, // reset vector 0xFF0003
        0x01, 0x01, 0x00, // LDA #0x0001
        0x02, 0x00, 0x00, 0x10, // STA 0x100000
        0xFF, // HLT
    ];
    let mut emu = Nexel24::new();
    emu.load_bios(&bios);
    emu.reset();
    let mut guard = 0;
    while !emu.cpu.halted && guard < 100 {
        emu.step();
        guard += 1;
    }
    assert!(emu.vdp().display_control().enable);
}
