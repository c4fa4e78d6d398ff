use nexel_core::Bus24;

#[test]
fn bus_read_write_workram() {
    let mut bus = Bus24::new();
    bus.write_u8(0x000000, 0x12);
    assert_eq!(bus.read_u8(0x000000), 0x12);
    bus.write_u8(0x00FFFF, 0x34);
    assert_eq!(bus.read_u8(0x00FFFF), 0x34);
}

#[test]
fn bus_read_write_expanded_ram() {
    let mut bus = Bus24::new();
    bus.write_u8(0x010000, 0xAB);
    assert_eq!(bus.read_u8(0x010000), 0xAB);
    bus.write_u8(0x03FFFF, 0xCD);
    assert_eq!(bus.read_u8(0x03FFFF), 0xCD);
}

#[test]
fn bus_read_write_io() {
    let mut bus = Bus24::new();
    bus.write_u8(0x100000, 0x55);
    assert_eq!(bus.read_u8(0x100000), 0x55);
    bus.write_u8(0x10FFFF, 0xAA);
    assert_eq!(bus.read_u8(0x10FFFF), 0xAA);
}

#[test]
fn bus_read_write_vram() {
    let mut bus = Bus24::new();
    bus.write_u8(0x200000, 0x11);
    assert_eq!(bus.read_u8(0x200000), 0x11);
    bus.write_u8(0x27FFFF, 0x22);
    assert_eq!(bus.read_u8(0x27FFFF), 0x22);
}

#[test]
fn bus_read_write_cram() {
    let mut bus = Bus24::new();
    bus.write_u8(0x280000, 0x33);
    assert_eq!(bus.read_u8(0x280000), 0x33);
    bus.write_u8(0x28FFFF, 0x44);
    assert_eq!(bus.read_u8(0x28FFFF), 0x44);
}

#[test]
fn bus_read_cart_rom() {
    let mut bus = Bus24::new();
    let rom_data = vec![0x12, 0x34, 0x56, 0x78];
    bus.load_cart_rom(&rom_data);
    assert_eq!(bus.read_u8(0x400000), 0x12);
    assert_eq!(bus.read_u8(0x400001), 0x34);
    assert_eq!(bus.read_u8(0x400002), 0x56);
    assert_eq!(bus.read_u8(0x400003), 0x78);
}

#[test]
fn bus_rom_is_readonly() {
    let mut bus = Bus24::new();
    let rom_data = vec![0xFF; 4];
    bus.load_cart_rom(&rom_data);
    bus.write_u8(0x400000, 0x00);
    assert_eq!(bus.read_u8(0x400000), 0xFF);
}

#[test]
fn bus_read_write_cart_save() {
    let mut bus = Bus24::new();
    bus.write_u8(0xA00000, 0x99);
    assert_eq!(bus.read_u8(0xA00000), 0x99);
    bus.write_u8(0xA3FFFF, 0x88);
    assert_eq!(bus.read_u8(0xA3FFFF), 0x88);
}

#[test]
fn bus_read_bios() {
    let mut bus = Bus24::new();
    let bios_data = vec![0xAB, 0xCD, 0xEF, 0x01];
    bus.load_bios(&bios_data);
    assert_eq!(bus.read_u8(0xFF0000), 0xAB);
    assert_eq!(bus.read_u8(0xFF0001), 0xCD);
    assert_eq!(bus.read_u8(0xFF0002), 0xEF);
    assert_eq!(bus.read_u8(0xFF0003), 0x01);
}

#[test]
fn bus_bios_is_readonly() {
    let mut bus = Bus24::new();
    let bios_data = vec![0xFF; 4];
    bus.load_bios(&bios_data);
    bus.write_u8(0xFF0000, 0x00);
    assert_eq!(bus.read_u8(0xFF0000), 0xFF);
}

#[test]
fn bus_unmapped_reads_return_ff() {
    let bus = Bus24::new();
    assert_eq!(bus.read_u8(0x040000), 0xFF);
    assert_eq!(bus.read_u8(0x290000), 0xFF);
    assert_eq!(bus.read_u8(0xA40000), 0xFF);
}

#[test]
fn bus_read_write_u16() {
    let mut bus = Bus24::new();
    bus.write_u16(0x10, 0x1234);
    assert_eq!(bus.read_u16(0x10), 0x1234);
    bus.write_u8(0x20, 0x78);
    bus.write_u8(0x21, 0x56);
    assert_eq!(bus.read_u16(0x20), 0x5678);
}

#[test]
fn bus_read_write_u24() {
    let mut bus = Bus24::new();
    bus.write_u24(0x100, 0x123456);
    assert_eq!(bus.read_u24(0x100), 0x123456);
    bus.write_u8(0x200, 0x34);
    bus.write_u8(0x201, 0x12);
    bus.write_u8(0x202, 0xAB);
    assert_eq!(bus.read_u24(0x200), 0xAB1234);
}

#[test]
fn bus_address_masking() {
    let mut bus = Bus24::new();
    bus.write_u8(0x01000000, 0x42);
    assert_eq!(bus.read_u8(0x000000), 0x42);
}

#[test]
fn bus_unmapped_write_dropped() {
    let mut bus = Bus24::new();
    bus.write_u8(0x050000, 0x77);
    assert_eq!(bus.read_u8(0x050000), 0xFF);
}

#[test]
fn bus_u16_wraps_successor_address() {
    let mut bus = Bus24::new();
    bus.write_u8(0x00FFFF, 0xCD);
    bus.write_u8(0x010000, 0xAB);
    assert_eq!(bus.read_u16(0x00FFFF), 0xABCD);
}
