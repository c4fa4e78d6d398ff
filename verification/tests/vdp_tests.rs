use nexel_core::vdp::{
    CYCLES_PER_SCANLINE, NATIVE_HEIGHT, NATIVE_WIDTH, SpriteAttr, SpriteSize, VBLANK_START,
    VRAM_SIZE, Vdp, VdpRegister,
};

#[test]
fn vdp_initialization() {
    let vdp = Vdp::new();
    assert_eq!(vdp.scanline(), 0);
    assert_eq!(vdp.read_reg(VdpRegister::HCount.offset()), 0);
    assert_eq!(vdp.frame_count(), 0);
    assert!(!vdp.display_control().enable);
}

#[test]
fn vdp_display_modes() {
    let mut vdp = Vdp::new();
    assert_eq!(vdp.display_dimensions(), (384, 288));
    vdp.set_display_mode(320, 240);
    assert_eq!(vdp.display_dimensions(), (320, 240));
    assert!(vdp.display_control().mode_320);
    vdp.set_display_mode(256, 224);
    assert_eq!(vdp.display_dimensions(), (256, 224));
    assert!(vdp.display_control().mode_256);
}

#[test]
fn vdp_vram_access() {
    let mut vdp = Vdp::new();
    vdp.write_vram(0x1000, 0x42);
    assert_eq!(vdp.read_vram(0x1000), 0x42);
    vdp.write_vram(VRAM_SIZE as u32, 0x55);
    assert_eq!(vdp.read_vram(0), 0x55);
}

#[test]
fn vdp_cram_access() {
    let mut vdp = Vdp::new();
    vdp.write_cram(0, 0x3F);
    vdp.write_cram(1, 0x20);
    vdp.write_cram(2, 0x10);
    assert_eq!(vdp.read_cram(0), 0x3F);
    assert_eq!(vdp.read_cram(1), 0x20);
    assert_eq!(vdp.read_cram(2), 0x10);
}

#[test]
fn vdp_register_access() {
    let mut vdp = Vdp::new();
    vdp.write_reg(VdpRegister::DisplayControl.offset(), 0x0007);
    assert_eq!(vdp.read_reg(VdpRegister::DisplayControl.offset()), 0x0007);
    assert!(vdp.display_control().enable);
    assert!(vdp.display_control().bg0_enable);
    assert!(vdp.display_control().bg1_enable);
}

#[test]
fn vdp_timing() {
    let mut vdp = Vdp::new();
    let vblank = vdp.step(CYCLES_PER_SCANLINE);
    assert!(!vblank);
    assert_eq!(vdp.scanline(), 1);
    let cycles_to_vblank = (VBLANK_START as u64 - 1) * CYCLES_PER_SCANLINE;
    let vblank = vdp.step(cycles_to_vblank);
    assert!(vblank);
    assert!(vdp.in_vblank());
    assert_eq!(vdp.frame_count(), 1);
}

#[test]
fn vdp_palette_loading() {
    let mut vdp = Vdp::new();
    let colors = vec![
        (0x00, 0x00, 0x00),
        (0x3F, 0x00, 0x00),
        (0x00, 0x3F, 0x00),
        (0x00, 0x00, 0x3F),
    ];
    vdp.load_palette(0, &colors);
    assert_eq!(vdp.read_cram(0), 0x00);
    assert_eq!(vdp.read_cram(1), 0x00);
    assert_eq!(vdp.read_cram(2), 0x00);
    assert_eq!(vdp.read_cram(3), 0x3F);
    assert_eq!(vdp.read_cram(4), 0x00);
    assert_eq!(vdp.read_cram(5), 0x00);
}

#[test]
fn vdp_sprite_attributes() {
    let sprite = SpriteAttr { y_pos: 100, x_pos: 150, tile_index: 42, attr: 0x8101 };
    assert!(sprite.is_enabled());
    assert_eq!(sprite.palette(), 1);
    assert_eq!(sprite.priority(), 0);
    assert_eq!(sprite.size(), SpriteSize::Size16x16);
    assert_eq!(sprite.size().dimensions(), (16, 16));

    let sprite_8x8 = SpriteAttr { y_pos: 0, x_pos: 0, tile_index: 0, attr: 0x8000 };
    assert_eq!(sprite_8x8.size(), SpriteSize::Size8x8);

    let sprite_32x32 = SpriteAttr { y_pos: 0, x_pos: 0, tile_index: 0, attr: 0x8002 };
    assert_eq!(sprite_32x32.size(), SpriteSize::Size32x32);
}

#[test]
fn vdp_bg0_affine_registers() {
    let mut vdp = Vdp::new();
    vdp.write_reg(VdpRegister::Bg0AffineA.offset(), 0x0200);
    vdp.write_reg(VdpRegister::Bg0AffineB.offset(), 0x0080);
    vdp.write_reg(VdpRegister::Bg0AffineC.offset(), 0x0040);
    vdp.write_reg(VdpRegister::Bg0AffineD.offset(), 0x0180);
    assert_eq!(vdp.read_reg(VdpRegister::Bg0AffineA.offset()), 0x0200);
    assert_eq!(vdp.read_reg(VdpRegister::Bg0AffineB.offset()), 0x0080);
    assert_eq!(vdp.read_reg(VdpRegister::Bg0AffineC.offset()), 0x0040);
    assert_eq!(vdp.read_reg(VdpRegister::Bg0AffineD.offset()), 0x0180);
    assert_eq!(vdp.bg0_affine(0), 0x0200);
    assert_eq!(vdp.bg0_affine(1), 0x0080);
    assert_eq!(vdp.bg0_affine(2), 0x0040);
    assert_eq!(vdp.bg0_affine(3), 0x0180);
}

#[test]
fn vdp_bg0_reference_point() {
    let mut vdp = Vdp::new();
    vdp.write_reg(VdpRegister::Bg0RefX.offset(), 0x1234);
    vdp.write_reg(VdpRegister::Bg0RefX.offset() + 2, 0x0056);
    assert_eq!(vdp.bg0_ref_x(), 0x00561234);
    assert_eq!(vdp.read_reg(VdpRegister::Bg0RefX.offset()), 0x1234);
    assert_eq!(vdp.read_reg(VdpRegister::Bg0RefX.offset() + 2), 0x0056);
    vdp.write_reg(VdpRegister::Bg0RefY.offset(), 0xABCD);
    vdp.write_reg(VdpRegister::Bg0RefY.offset() + 2, 0x00EF);
    assert_eq!(vdp.bg0_ref_y(), 0x00EFABCD);
    assert_eq!(vdp.read_reg(VdpRegister::Bg0RefY.offset()), 0xABCD);
    assert_eq!(vdp.read_reg(VdpRegister::Bg0RefY.offset() + 2), 0x00EF);
}

#[test]
fn vdp_bg0_tilemap_address() {
    let mut vdp = Vdp::new();
    vdp.write_reg(VdpRegister::Bg0TilemapAddr.offset(), 0x2000);
    assert_eq!(vdp.bg0_tilemap_addr(), 0x2000);
    assert_eq!(vdp.read_reg(VdpRegister::Bg0TilemapAddr.offset()), 0x2000);
}

#[test]
fn vdp_bg0_affine_control_flag() {
    let mut vdp = Vdp::new();
    // Layer enable is bit 0, affine mode bit 8.
    vdp.write_reg(VdpRegister::Bg0Control.offset(), 0x0101);
    assert!(vdp.bg0_control().enable);
    assert!(vdp.bg0_control().affine);
}

#[test]
fn vdp_bg0_identity_transformation() {
    let mut vdp = Vdp::new();
    vdp.set_display_enable(true);
    vdp.set_layer_enable(true, false, false);
    vdp.write_reg(VdpRegister::Bg0Control.offset(), 0x0101);
    vdp.write_reg(VdpRegister::Bg0AffineA.offset(), 0x0100);
    vdp.write_reg(VdpRegister::Bg0AffineB.offset(), 0x0000);
    vdp.write_reg(VdpRegister::Bg0AffineC.offset(), 0x0000);
    vdp.write_reg(VdpRegister::Bg0AffineD.offset(), 0x0100);
    vdp.write_reg(VdpRegister::Bg0RefX.offset(), 0x0000);
    vdp.write_reg(VdpRegister::Bg0RefX.offset() + 2, 0x0000);
    vdp.write_reg(VdpRegister::Bg0RefY.offset(), 0x0000);
    vdp.write_reg(VdpRegister::Bg0RefY.offset() + 2, 0x0000);
    vdp.write_reg(VdpRegister::Bg0TilemapAddr.offset(), 0x0000);
    let tile_data = vec![1u8; 64];
    vdp.load_tile_data(0, &tile_data);
    let colors = vec![(0x00, 0x00, 0x00), (0x3F, 0x00, 0x00)];
    vdp.load_palette(0, &colors);
    for i in 0..(32 * 32) {
        vdp.write_vram(i * 2, 0x00);
        vdp.write_vram(i * 2 + 1, 0x00);
    }
    let cycles_per_frame = CYCLES_PER_SCANLINE * 288;
    vdp.step(cycles_per_frame);
    let fb = vdp.framebuffer();
    assert_eq!(fb.len(), NATIVE_WIDTH * NATIVE_HEIGHT);
}

#[test]
fn vdp_bg0_non_affine_mode() {
    let mut vdp = Vdp::new();
    vdp.set_display_enable(true);
    vdp.set_layer_enable(true, false, false);
    vdp.write_reg(VdpRegister::Bg0Control.offset(), 0x0001);
    vdp.write_reg(VdpRegister::Bg0ScrollX.offset(), 10);
    vdp.write_reg(VdpRegister::Bg0ScrollY.offset(), 20);
    vdp.write_reg(VdpRegister::Bg0TilemapAddr.offset(), 0x0000);
    let tile_data = vec![1u8; 64];
    vdp.load_tile_data(0, &tile_data);
    let colors = vec![(0x00, 0x00, 0x00), (0x00, 0x3F, 0x00)];
    vdp.load_palette(0, &colors);
    for i in 0..(32 * 32) {
        vdp.write_vram(i * 2, 0x00);
        vdp.write_vram(i * 2 + 1, 0x00);
    }
    let cycles_per_frame = CYCLES_PER_SCANLINE * 288;
    vdp.step(cycles_per_frame);
    let fb = vdp.framebuffer();
    assert_eq!(fb.len(), NATIVE_WIDTH * NATIVE_HEIGHT);
}

#[test]
fn vdp_backdrop_fills_blank_frame() {
    // A blank frame paints every pixel with the expanded backdrop:
    // RGB666 (0x3F, 0, 0) expands to 0x00FF0000.
    let mut vdp = Vdp::new();
    vdp.set_display_enable(true);
    vdp.set_backdrop_color(0x3F, 0x00, 0x00);
    vdp.step(CYCLES_PER_SCANLINE * VBLANK_START as u64);
    let fb = vdp.framebuffer();
    for i in 0..fb.len() {
        assert_eq!(fb[i], 0x00FF0000);
    }
}

#[test]
fn vdp_backdrop_register_write_expands() {
    // Writing the backdrop register decodes three 6-bit channels.
    let mut vdp = Vdp::new();
    vdp.write_reg(VdpRegister::BackdropColor.offset(), 0x003F);
    assert_eq!(vdp.read_cram(0), 0x3F);
    assert_eq!(vdp.read_cram(1), 0x00);
    assert_eq!(vdp.read_cram(2), 0x00);
}

#[test]
fn vdp_affine_identity_wraparound_fills_red() {
    // Identity matrix, reference (0, 0), a 32x32 map of tile 0 whose
    // pixels are all colour 1 (red), wraparound on: every pixel of the
    // rendered frame is expanded red.
    let mut vdp = Vdp::new();
    vdp.set_display_enable(true);
    vdp.set_layer_enable(true, false, false);
    // enable | affine | wraparound
    vdp.write_reg(VdpRegister::Bg0Control.offset(), 0x0301);
    vdp.write_reg(VdpRegister::Bg0AffineA.offset(), 0x0100);
    vdp.write_reg(VdpRegister::Bg0AffineB.offset(), 0x0000);
    vdp.write_reg(VdpRegister::Bg0AffineC.offset(), 0x0000);
    vdp.write_reg(VdpRegister::Bg0AffineD.offset(), 0x0100);
    vdp.write_reg(VdpRegister::Bg0RefX.offset(), 0x0000);
    vdp.write_reg(VdpRegister::Bg0RefX.offset() + 2, 0x0000);
    vdp.write_reg(VdpRegister::Bg0RefY.offset(), 0x0000);
    vdp.write_reg(VdpRegister::Bg0RefY.offset() + 2, 0x0000);
    // Tilemap at 0x4000: 32x32 entries of tile 1, palette 0.
    vdp.write_reg(VdpRegister::Bg0TilemapAddr.offset(), 0x4000);
    for i in 0..(32 * 32) {
        vdp.write_vram(0x4000 + i * 2, 0x01);
        vdp.write_vram(0x4000 + i * 2 + 1, 0x00);
    }
    let tile_data = vec![1u8; 64];
    vdp.load_tile_data(64, &tile_data);
    let colors = vec![(0x00, 0x00, 0x00), (0x3F, 0x00, 0x00)];
    vdp.load_palette(0, &colors);
    vdp.step(CYCLES_PER_SCANLINE * VBLANK_START as u64);
    let fb = vdp.framebuffer();
    for i in 0..fb.len() {
        assert_eq!(fb[i], 0x00FF0000);
    }
}

#[test]
fn vdp_dma_control_completes_within_write() {
    let mut vdp = Vdp::new();
    // Trigger the transfer with bit 15 of the DMA control register.
    vdp.write_reg(VdpRegister::DmaControl.offset(), 0x8000);
    // DMA_BUSY (bit 3 of DISPSTAT) is low again after the write.
    assert_eq!(vdp.read_reg(VdpRegister::DisplayStatus.offset()) & 0x0008, 0);
    // Completion is latched as DMA_DONE (bit 3 of IRQ status).
    assert_eq!(vdp.read_reg(VdpRegister::IrqStatus.offset()) & 0x0008, 0x0008);
}

#[test]
fn vdp_scanline_step_advances_vcount() {
    let mut vdp = Vdp::new();
    for expected in 1..5u16 {
        let vblank = vdp.step(CYCLES_PER_SCANLINE);
        assert!(!vblank);
        assert_eq!(vdp.scanline(), expected);
    }
}
