use nexel_core::Apu;
use nexel_core::apu::APU_STATUS_OFFSET;

#[test]
fn channel_enable_and_voice_setting() {
    let mut apu = Apu::new();
    apu.write_register(0, 0x03);
    assert_eq!(apu.read_register(0) & 0x01, 0x01);
    assert_eq!((apu.read_register(0) >> 1) & 0x03, 0x01);
}

#[test]
fn sample_length_updates_buffer_empty() {
    let mut apu = Apu::new();
    apu.write_register(0, 0x01);
    apu.write_register(12, 0x01);
    assert!(!apu.channel_buffer_empty(0));
    apu.step(64);
    assert!(apu.channel_buffer_empty(0));
}

#[test]
fn buffer_empty_latch_triggers_once() {
    let mut apu = Apu::new();
    apu.write_register(0, 0x01);
    apu.write_register(12, 0x01);
    apu.step(64);
    assert!(apu.take_buffer_empty());
    assert!(!apu.take_buffer_empty());
}

#[test]
fn status_register_reports_flags() {
    let mut apu = Apu::new();
    apu.write_register(0, 0x01);
    apu.write_register(12, 0x00);
    assert_eq!(apu.read_register(APU_STATUS_OFFSET) & 0x03, 0x03);
}

#[test]
fn status_write_acknowledges_buffer_empty() {
    let mut apu = Apu::new();
    apu.write_register(0, 0x01);
    apu.write_register(12, 0x01);
    apu.step(64);
    assert!(apu.channel_buffer_empty(0));
    apu.write_register(APU_STATUS_OFFSET, 0x01);
    assert!(!apu.channel_buffer_empty(0));
    assert!(!apu.take_buffer_empty());
}

#[test]
fn version_register_reads_constant() {
    let apu = Apu::new();
    assert_eq!(apu.read_register(0x62), 0x10);
    assert_eq!(apu.read_register(0x70), 0xFF);
}

#[test]
fn long_step_drains_only_by_ticks() {
    let mut apu = Apu::new();
    apu.write_register(0, 0x01);
    // Sample length 0x0200 via high then low byte.
    apu.write_register(11, 0x02);
    apu.write_register(12, 0x00);
    apu.step(64 * 16);
    // 16 ticks consumed out of 512: not yet empty.
    assert!(!apu.channel_buffer_empty(0));
    assert!(!apu.take_buffer_empty());
}
