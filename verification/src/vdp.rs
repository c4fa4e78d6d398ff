//! VDP-T tile/sprite video display processor.
//!
//! The VDP owns wall-clock progress within a frame: `step` drives the
//! vertical and horizontal counters from its cycle accumulator and, on
//! the rising edge into the vertical blank, renders one frame.  The
//! renderer's behaviour is pinned pixel by pixel by the spec functions in
//! this module: backdrop fill, the scrolling layer BG1, the affine layer
//! BG0, and the sprite pass with its 64-sprites-per-scanline cap.
//!
//! The register file is modelled with typed bit-sets over named booleans;
//! register loads truncate reserved bits.

use vstd::prelude::*;

verus! {

pub const VRAM_SIZE: usize = 0x80000;
pub const CRAM_SIZE: usize = 0x10000;
pub const OAM_SPRITES: usize = 128;

pub const NATIVE_WIDTH: usize = 384;
pub const NATIVE_HEIGHT: usize = 288;
pub const MODE_320_WIDTH: usize = 320;
pub const MODE_320_HEIGHT: usize = 240;
pub const MODE_256_WIDTH: usize = 256;
pub const MODE_256_HEIGHT: usize = 224;

pub const CYCLES_PER_SCANLINE: u64 = 1024;
pub const SCANLINES_PER_FRAME: u16 = 288;
pub const VBLANK_START: u16 = 240;

/// Reads a single bit of a 16-bit register value, `d` being the bit's
/// place value.
pub open spec fn bit16(v: u16, d: u16) -> bool
    recommends
        d >= 1,
{
    (v / d) % 2 == 1
}

/// Display control register (DISPCTL) as named flags.
#[derive(Debug, Clone, Copy, PartialEq, Eq, Structural)]
pub struct DisplayControl {
    pub enable: bool,
    pub bg0_enable: bool,
    pub bg1_enable: bool,
    pub sprite_enable: bool,
    pub polygon_enable: bool,
    pub hblank_irq: bool,
    pub vblank_irq: bool,
    pub linecmp_irq: bool,
    pub mode_320: bool,
    pub mode_256: bool,
}

pub open spec fn dc_from_bits(v: u16) -> DisplayControl {
    DisplayControl {
        enable: bit16(v, 1),
        bg0_enable: bit16(v, 2),
        bg1_enable: bit16(v, 4),
        sprite_enable: bit16(v, 8),
        polygon_enable: bit16(v, 16),
        hblank_irq: bit16(v, 256),
        vblank_irq: bit16(v, 512),
        linecmp_irq: bit16(v, 1024),
        mode_320: bit16(v, 4096),
        mode_256: bit16(v, 8192),
    }
}

pub open spec fn dc_bits(d: DisplayControl) -> u16 {
    ((if d.enable { 1int } else { 0 }) + (if d.bg0_enable { 2int } else { 0 }) + (if d.bg1_enable {
        4int
    } else {
        0
    }) + (if d.sprite_enable { 8int } else { 0 }) + (if d.polygon_enable { 16int } else { 0 })
        + (if d.hblank_irq { 256int } else { 0 }) + (if d.vblank_irq { 512int } else { 0 })
        + (if d.linecmp_irq { 1024int } else { 0 }) + (if d.mode_320 { 4096int } else { 0 })
        + (if d.mode_256 { 8192int } else { 0 })) as u16
}

impl DisplayControl {
    pub fn empty() -> (r: DisplayControl)
        ensures
            r == dc_from_bits(0),
    {
        DisplayControl {
            enable: false,
            bg0_enable: false,
            bg1_enable: false,
            sprite_enable: false,
            polygon_enable: false,
            hblank_irq: false,
            vblank_irq: false,
            linecmp_irq: false,
            mode_320: false,
            mode_256: false,
        }
    }

    pub fn from_bits_truncate(v: u16) -> (r: DisplayControl)
        ensures
            r == dc_from_bits(v),
    {
        DisplayControl {
            enable: (v / 1) % 2 == 1,
            bg0_enable: (v / 2) % 2 == 1,
            bg1_enable: (v / 4) % 2 == 1,
            sprite_enable: (v / 8) % 2 == 1,
            polygon_enable: (v / 16) % 2 == 1,
            hblank_irq: (v / 256) % 2 == 1,
            vblank_irq: (v / 512) % 2 == 1,
            linecmp_irq: (v / 1024) % 2 == 1,
            mode_320: (v / 4096) % 2 == 1,
            mode_256: (v / 8192) % 2 == 1,
        }
    }

    #[verifier::rlimit(100)]
    pub fn bits(&self) -> (r: u16)
        ensures
            r == dc_bits(*self),
    {
        (if self.enable { 1u16 } else { 0 }) + (if self.bg0_enable { 2 } else { 0 }) + (if self
            .bg1_enable {
            4
        } else {
            0
        }) + (if self.sprite_enable { 8 } else { 0 }) + (if self.polygon_enable { 16 } else { 0 })
            + (if self.hblank_irq { 256 } else { 0 }) + (if self.vblank_irq { 512 } else { 0 })
            + (if self.linecmp_irq { 1024 } else { 0 }) + (if self.mode_320 { 4096 } else { 0 })
            + (if self.mode_256 { 8192 } else { 0 })
    }
}

/// Display status register (DISPSTAT) as named flags.
#[derive(Debug, Clone, Copy, PartialEq, Eq, Structural)]
pub struct DisplayStatus {
    pub vblank: bool,
    pub hblank: bool,
    pub linecmp: bool,
    pub dma_busy: bool,
    pub cmdlist_busy: bool,
}

pub open spec fn ds_bits(d: DisplayStatus) -> u16 {
    ((if d.vblank { 1int } else { 0 }) + (if d.hblank { 2int } else { 0 }) + (if d.linecmp {
        4int
    } else {
        0
    }) + (if d.dma_busy { 8int } else { 0 }) + (if d.cmdlist_busy { 16int } else { 0 })) as u16
}

impl DisplayStatus {
    pub fn empty() -> (r: DisplayStatus)
        ensures
            r == (DisplayStatus {
                vblank: false,
                hblank: false,
                linecmp: false,
                dma_busy: false,
                cmdlist_busy: false,
            }),
    {
        DisplayStatus { vblank: false, hblank: false, linecmp: false, dma_busy: false, cmdlist_busy: false }
    }

    pub fn bits(&self) -> (r: u16)
        ensures
            r == ds_bits(*self),
    {
        (if self.vblank { 1u16 } else { 0 }) + (if self.hblank { 2 } else { 0 }) + (if self
            .linecmp {
            4
        } else {
            0
        }) + (if self.dma_busy { 8 } else { 0 }) + (if self.cmdlist_busy { 16 } else { 0 })
    }
}

/// Background layer control register as named flags; `size_sel` holds the
/// two map-size bits (0 selects 32, 1 selects 64, 2 and 3 select 128
/// tiles square).
#[derive(Debug, Clone, Copy, PartialEq, Eq, Structural)]
pub struct BgControl {
    pub enable: bool,
    pub priority_1: bool,
    pub priority_2: bool,
    pub mosaic: bool,
    pub color_256: bool,
    pub affine: bool,
    pub wraparound: bool,
    pub size_sel: u16,
}

pub open spec fn bg_from_bits(v: u16) -> BgControl {
    BgControl {
        enable: bit16(v, 1),
        priority_1: bit16(v, 16),
        priority_2: bit16(v, 32),
        mosaic: bit16(v, 64),
        color_256: bit16(v, 128),
        affine: bit16(v, 256),
        wraparound: bit16(v, 512),
        size_sel: (v / 1024) % 4,
    }
}

pub open spec fn bg_bits(d: BgControl) -> u16 {
    ((if d.enable { 1int } else { 0 }) + (if d.priority_1 { 16int } else { 0 }) + (if d.priority_2 {
        32int
    } else {
        0
    }) + (if d.mosaic { 64int } else { 0 }) + (if d.color_256 { 128int } else { 0 }) + (if d.affine {
        256int
    } else {
        0
    }) + (if d.wraparound { 512int } else { 0 }) + (d.size_sel % 4) * 1024) as u16
}

/// Tilemap side length in tiles selected by the size bits.
pub open spec fn bg_map_width(d: BgControl) -> u16 {
    if d.size_sel % 4 >= 2 {
        128
    } else if d.size_sel % 4 == 1 {
        64
    } else {
        32
    }
}

impl BgControl {
    pub fn empty() -> (r: BgControl)
        ensures
            r == bg_from_bits(0),
    {
        BgControl {
            enable: false,
            priority_1: false,
            priority_2: false,
            mosaic: false,
            color_256: false,
            affine: false,
            wraparound: false,
            size_sel: 0,
        }
    }

    pub fn from_bits_truncate(v: u16) -> (r: BgControl)
        ensures
            r == bg_from_bits(v),
    {
        BgControl {
            enable: (v / 1) % 2 == 1,
            priority_1: (v / 16) % 2 == 1,
            priority_2: (v / 32) % 2 == 1,
            mosaic: (v / 64) % 2 == 1,
            color_256: (v / 128) % 2 == 1,
            affine: (v / 256) % 2 == 1,
            wraparound: (v / 512) % 2 == 1,
            size_sel: (v / 1024) % 4,
        }
    }

    #[verifier::rlimit(100)]
    pub fn bits(&self) -> (r: u16)
        ensures
            r == bg_bits(*self),
    {
        (if self.enable { 1u16 } else { 0 }) + (if self.priority_1 { 16 } else { 0 }) + (if self
            .priority_2 {
            32
        } else {
            0
        }) + (if self.mosaic { 64 } else { 0 }) + (if self.color_256 { 128 } else { 0 }) + (if self
            .affine {
            256
        } else {
            0
        }) + (if self.wraparound { 512 } else { 0 }) + (self.size_sel % 4) * 1024
    }

    /// Tilemap side length in tiles.
    pub fn map_width(&self) -> (r: u16)
        ensures
            r == bg_map_width(*self),
    {
        if self.size_sel % 4 >= 2 {
            128
        } else if self.size_sel % 4 == 1 {
            64
        } else {
            32
        }
    }
}

/// Sprite control register as named flags.
#[derive(Debug, Clone, Copy, PartialEq, Eq, Structural)]
pub struct SpriteControl {
    pub enable: bool,
    pub size_16: bool,
}

pub open spec fn sc_from_bits(v: u16) -> SpriteControl {
    SpriteControl { enable: bit16(v, 1), size_16: bit16(v, 2) }
}

pub open spec fn sc_bits(d: SpriteControl) -> u16 {
    ((if d.enable { 1int } else { 0 }) + (if d.size_16 { 2int } else { 0 })) as u16
}

impl SpriteControl {
    pub fn empty() -> (r: SpriteControl)
        ensures
            r == sc_from_bits(0),
    {
        SpriteControl { enable: false, size_16: false }
    }

    pub fn from_bits_truncate(v: u16) -> (r: SpriteControl)
        ensures
            r == sc_from_bits(v),
    {
        SpriteControl { enable: (v / 1) % 2 == 1, size_16: (v / 2) % 2 == 1 }
    }

    pub fn bits(&self) -> (r: u16)
        ensures
            r == sc_bits(*self),
    {
        (if self.enable { 1u16 } else { 0 }) + (if self.size_16 { 2 } else { 0 })
    }
}

/// Interrupt enable and status registers as named flags.
#[derive(Debug, Clone, Copy, PartialEq, Eq, Structural)]
pub struct IrqFlags {
    pub hblank: bool,
    pub vblank: bool,
    pub linecmp: bool,
    pub dma_done: bool,
}

pub open spec fn irq_from_bits(v: u16) -> IrqFlags {
    IrqFlags { hblank: bit16(v, 1), vblank: bit16(v, 2), linecmp: bit16(v, 4), dma_done: bit16(v, 8) }
}

pub open spec fn irq_bits(d: IrqFlags) -> u16 {
    ((if d.hblank { 1int } else { 0 }) + (if d.vblank { 2int } else { 0 }) + (if d.linecmp {
        4int
    } else {
        0
    }) + (if d.dma_done { 8int } else { 0 })) as u16
}

/// Bitwise clear of the flags named in `mask`.
pub open spec fn irq_remove(d: IrqFlags, mask: IrqFlags) -> IrqFlags {
    IrqFlags {
        hblank: d.hblank && !mask.hblank,
        vblank: d.vblank && !mask.vblank,
        linecmp: d.linecmp && !mask.linecmp,
        dma_done: d.dma_done && !mask.dma_done,
    }
}

impl IrqFlags {
    pub fn empty() -> (r: IrqFlags)
        ensures
            r == irq_from_bits(0),
    {
        IrqFlags { hblank: false, vblank: false, linecmp: false, dma_done: false }
    }

    pub fn from_bits_truncate(v: u16) -> (r: IrqFlags)
        ensures
            r == irq_from_bits(v),
    {
        IrqFlags {
            hblank: (v / 1) % 2 == 1,
            vblank: (v / 2) % 2 == 1,
            linecmp: (v / 4) % 2 == 1,
            dma_done: (v / 8) % 2 == 1,
        }
    }

    pub fn bits(&self) -> (r: u16)
        ensures
            r == irq_bits(*self),
    {
        (if self.hblank { 1u16 } else { 0 }) + (if self.vblank { 2 } else { 0 }) + (if self
            .linecmp {
            4
        } else {
            0
        }) + (if self.dma_done { 8 } else { 0 })
    }
}

/// VDP register names and their offsets into the register window.
#[derive(Debug, Clone, Copy, PartialEq, Eq, Structural)]
pub enum VdpRegister {
    DisplayControl,
    DisplayStatus,
    VCount,
    HCount,
    Bg0Control,
    Bg0ScrollX,
    Bg0ScrollY,
    Bg0AffineA,
    Bg0AffineB,
    Bg0AffineC,
    Bg0AffineD,
    Bg0RefX,
    Bg0RefY,
    Bg0TilemapAddr,
    Bg1Control,
    Bg1ScrollX,
    Bg1ScrollY,
    Bg1TilemapAddr,
    SpriteControl,
    SpriteOamAddr,
    DmaSource,
    DmaDestination,
    DmaLength,
    DmaControl,
    IrqEnable,
    IrqStatus,
    IrqLineCompare,
    PaletteIndex,
    PaletteData,
    BackdropColor,
}

pub open spec fn spec_reg_offset(r: VdpRegister) -> u32 {
    match r {
        VdpRegister::DisplayControl => 0x0000,
        VdpRegister::DisplayStatus => 0x0002,
        VdpRegister::VCount => 0x0004,
        VdpRegister::HCount => 0x0006,
        VdpRegister::Bg0Control => 0x0010,
        VdpRegister::Bg0ScrollX => 0x0012,
        VdpRegister::Bg0ScrollY => 0x0014,
        VdpRegister::Bg0AffineA => 0x0016,
        VdpRegister::Bg0AffineB => 0x0018,
        VdpRegister::Bg0AffineC => 0x001A,
        VdpRegister::Bg0AffineD => 0x001C,
        VdpRegister::Bg0RefX => 0x001E,
        VdpRegister::Bg0RefY => 0x0022,
        VdpRegister::Bg0TilemapAddr => 0x0026,
        VdpRegister::Bg1Control => 0x0030,
        VdpRegister::Bg1ScrollX => 0x0032,
        VdpRegister::Bg1ScrollY => 0x0034,
        VdpRegister::Bg1TilemapAddr => 0x0036,
        VdpRegister::SpriteControl => 0x0050,
        VdpRegister::SpriteOamAddr => 0x0052,
        VdpRegister::DmaSource => 0x0070,
        VdpRegister::DmaDestination => 0x0074,
        VdpRegister::DmaLength => 0x0078,
        VdpRegister::DmaControl => 0x007A,
        VdpRegister::IrqEnable => 0x0080,
        VdpRegister::IrqStatus => 0x0082,
        VdpRegister::IrqLineCompare => 0x0084,
        VdpRegister::PaletteIndex => 0x0090,
        VdpRegister::PaletteData => 0x0092,
        VdpRegister::BackdropColor => 0x0094,
    }
}

impl VdpRegister {
    /// Offset of the register in the VDP register window.
    pub fn offset(&self) -> (r: u32)
        ensures
            r == spec_reg_offset(*self),
    {
        match *self {
            VdpRegister::DisplayControl => 0x0000,
            VdpRegister::DisplayStatus => 0x0002,
            VdpRegister::VCount => 0x0004,
            VdpRegister::HCount => 0x0006,
            VdpRegister::Bg0Control => 0x0010,
            VdpRegister::Bg0ScrollX => 0x0012,
            VdpRegister::Bg0ScrollY => 0x0014,
            VdpRegister::Bg0AffineA => 0x0016,
            VdpRegister::Bg0AffineB => 0x0018,
            VdpRegister::Bg0AffineC => 0x001A,
            VdpRegister::Bg0AffineD => 0x001C,
            VdpRegister::Bg0RefX => 0x001E,
            VdpRegister::Bg0RefY => 0x0022,
            VdpRegister::Bg0TilemapAddr => 0x0026,
            VdpRegister::Bg1Control => 0x0030,
            VdpRegister::Bg1ScrollX => 0x0032,
            VdpRegister::Bg1ScrollY => 0x0034,
            VdpRegister::Bg1TilemapAddr => 0x0036,
            VdpRegister::SpriteControl => 0x0050,
            VdpRegister::SpriteOamAddr => 0x0052,
            VdpRegister::DmaSource => 0x0070,
            VdpRegister::DmaDestination => 0x0074,
            VdpRegister::DmaLength => 0x0078,
            VdpRegister::DmaControl => 0x007A,
            VdpRegister::IrqEnable => 0x0080,
            VdpRegister::IrqStatus => 0x0082,
            VdpRegister::IrqLineCompare => 0x0084,
            VdpRegister::PaletteIndex => 0x0090,
            VdpRegister::PaletteData => 0x0092,
            VdpRegister::BackdropColor => 0x0094,
        }
    }
}

/// Sprite attribute entry, eight bytes in OAM.
#[derive(Debug, Clone, Copy, PartialEq, Eq, Structural)]
pub struct SpriteAttr {
    pub y_pos: u16,
    pub x_pos: u16,
    pub tile_index: u16,
    pub attr: u16,
}

pub open spec fn sprite_enabled(s: SpriteAttr) -> bool {
    s.attr >= 0x8000
}

pub open spec fn sprite_palette(s: SpriteAttr) -> u8 {
    ((s.attr / 256) % 16) as u8
}

pub open spec fn sprite_flip_h(s: SpriteAttr) -> bool {
    (s.attr / 0x1000) % 2 == 1
}

pub open spec fn sprite_flip_v(s: SpriteAttr) -> bool {
    (s.attr / 0x2000) % 2 == 1
}

pub open spec fn sprite_priority(s: SpriteAttr) -> u8 {
    ((s.attr / 1024) % 4) as u8
}

/// Square sprite side length selected by the two size bits: 8, 16, 32 or
/// 64 pixels.
pub open spec fn sprite_side(s: SpriteAttr) -> u16 {
    if s.attr % 4 == 0 {
        8
    } else if s.attr % 4 == 1 {
        16
    } else if s.attr % 4 == 2 {
        32
    } else {
        64
    }
}

impl SpriteAttr {
    pub fn is_enabled(&self) -> (r: bool)
        ensures
            r == sprite_enabled(*self),
    {
        self.attr >= 0x8000
    }

    pub fn palette(&self) -> (r: u8)
        ensures
            r == sprite_palette(*self),
    {
        ((self.attr / 256) % 16) as u8
    }

    pub fn flip_h(&self) -> (r: bool)
        ensures
            r == sprite_flip_h(*self),
    {
        (self.attr / 0x1000) % 2 == 1
    }

    pub fn flip_v(&self) -> (r: bool)
        ensures
            r == sprite_flip_v(*self),
    {
        (self.attr / 0x2000) % 2 == 1
    }

    pub fn priority(&self) -> (r: u8)
        ensures
            r == sprite_priority(*self),
    {
        ((self.attr / 1024) % 4) as u8
    }

    pub fn size(&self) -> (r: SpriteSize)
        ensures
            spec_size_side(r) == sprite_side(*self),
    {
        match self.attr % 4 {
            0 => SpriteSize::Size8x8,
            1 => SpriteSize::Size16x16,
            2 => SpriteSize::Size32x32,
            _ => SpriteSize::Size64x64,
        }
    }
}

#[derive(Debug, Clone, Copy, PartialEq, Eq, Structural)]
pub enum SpriteSize {
    Size8x8,
    Size16x16,
    Size32x32,
    Size64x64,
}

pub open spec fn spec_size_side(s: SpriteSize) -> u16 {
    match s {
        SpriteSize::Size8x8 => 8,
        SpriteSize::Size16x16 => 16,
        SpriteSize::Size32x32 => 32,
        SpriteSize::Size64x64 => 64,
    }
}

impl SpriteSize {
    pub fn dimensions(&self) -> (r: (u16, u16))
        ensures
            r.0 == spec_size_side(*self),
            r.1 == spec_size_side(*self),
    {
        match *self {
            SpriteSize::Size8x8 => (8, 8),
            SpriteSize::Size16x16 => (16, 16),
            SpriteSize::Size32x32 => (32, 32),
            SpriteSize::Size64x64 => (64, 64),
        }
    }
}

/// Mathematical view of the whole VDP.
pub ghost struct VdpV {
    pub vram: Seq<u8>,
    pub cram: Seq<u8>,
    pub regs: Seq<u8>,
    pub display_control: DisplayControl,
    pub display_status: DisplayStatus,
    pub v_count: u16,
    pub h_count: u16,
    pub bg0_control: BgControl,
    pub bg0_scroll_x: i16,
    pub bg0_scroll_y: i16,
    pub bg0_affine: Seq<i16>,
    pub bg0_ref_x: i32,
    pub bg0_ref_y: i32,
    pub bg0_tilemap_addr: u32,
    pub bg1_control: BgControl,
    pub bg1_scroll_x: i16,
    pub bg1_scroll_y: i16,
    pub bg1_tilemap_addr: u32,
    pub oam: Seq<SpriteAttr>,
    pub sprite_control: SpriteControl,
    pub sprite_oam_addr: u16,
    pub dma_source: u32,
    pub dma_dest: u32,
    pub dma_length: u16,
    pub dma_active: bool,
    pub irq_enable: IrqFlags,
    pub irq_status: IrqFlags,
    pub irq_line_compare: u16,
    pub palette_index: u8,
    pub palette_data: u8,
    pub backdrop_color: u16,
    pub framebuffer: Seq<u32>,
    pub cycles: u64,
    pub frame_count: u64,
}

pub open spec fn vdp_wf(v: VdpV) -> bool {
    &&& v.vram.len() == VRAM_SIZE
    &&& v.cram.len() == CRAM_SIZE
    &&& v.regs.len() == 256
    &&& v.bg0_affine.len() == 4
    &&& v.oam.len() == OAM_SPRITES
    &&& v.framebuffer.len() == NATIVE_WIDTH * NATIVE_HEIGHT
    &&& 0 <= v.bg0_ref_x < 0x0100_0000
    &&& 0 <= v.bg0_ref_y < 0x0100_0000
    &&& v.dma_source < 0x0100_0000
    &&& v.dma_dest < 0x0100_0000
    &&& v.v_count == (v.cycles / CYCLES_PER_SCANLINE) % (SCANLINES_PER_FRAME as u64)
    &&& v.h_count == v.cycles % CYCLES_PER_SCANLINE
}

pub open spec fn wadd(a: u32, b: u32) -> u32 {
    vstd::wrapping::u32_specs::wrapping_add(a, b)
}

pub open spec fn wadd16(a: u16, b: u16) -> u16 {
    vstd::wrapping::u16_specs::wrapping_add(a, b)
}

/// Byte of VRAM at a wrapped offset.
pub open spec fn vram_at(vram: Seq<u8>, off: u32) -> u8
    recommends
        vram.len() == VRAM_SIZE,
{
    vram[(off as int) % (VRAM_SIZE as int)]
}

/// Byte of CRAM at a wrapped offset.
pub open spec fn cram_at(cram: Seq<u8>, off: u32) -> u8
    recommends
        cram.len() == CRAM_SIZE,
{
    cram[(off as int) % (CRAM_SIZE as int)]
}

/// Little-endian 16-bit VRAM read.
pub open spec fn vram16(vram: Seq<u8>, off: u32) -> u16
    recommends
        vram.len() == VRAM_SIZE,
{
    (vram_at(vram, off) + vram_at(vram, wadd(off, 1)) * 256) as u16
}

/// Display dimensions selected by the mode bits.
pub open spec fn spec_dims(d: DisplayControl) -> (int, int) {
    if d.mode_320 {
        (MODE_320_WIDTH as int, MODE_320_HEIGHT as int)
    } else if d.mode_256 {
        (MODE_256_WIDTH as int, MODE_256_HEIGHT as int)
    } else {
        (NATIVE_WIDTH as int, NATIVE_HEIGHT as int)
    }
}

/// Expansion of one 6-bit colour channel to 8 bits, so that `0x3F` maps
/// to `0xFF` and `0x00` to `0x00`.
pub open spec fn expand6(c: u8) -> u8 {
    (((c % 64) * 4) + (c % 64) / 16) as u8
}

/// RGB666 triple expanded to a `0x00RRGGBB` pixel.
pub open spec fn rgb888(r: u8, g: u8, b: u8) -> u32 {
    ((expand6(r) as u32) * 65536 + (expand6(g) as u32) * 256 + (expand6(b) as u32)) as u32
}

/// Colour `ci` of palette `palette`: an RGB666 triple in CRAM at
/// `palette * 768 + ci * 3`.
pub open spec fn pal_color(cram: Seq<u8>, palette: u8, ci: u8) -> u32
    recommends
        cram.len() == CRAM_SIZE,
{
    let off = ((palette as u32) * 768 + (ci as u32) * 3) as u32;
    rgb888(cram_at(cram, off), cram_at(cram, wadd(off, 1)), cram_at(cram, wadd(off, 2)))
}

/// The backdrop colour: the RGB666 triple at the start of CRAM.
pub open spec fn backdrop_rgb(v: VdpV) -> u32
    recommends
        vdp_wf(v),
{
    rgb888(v.cram[0], v.cram[1], v.cram[2])
}

/// Colour contributed by a scrolling tile layer at screen pixel
/// `(sx, sy)`, or `None` where its colour index is 0 (transparent).
#[verifier::opaque]
pub open spec fn bg_pixel_scroll(
    vram: Seq<u8>,
    cram: Seq<u8>,
    base: u32,
    mw: u16,
    scx: i16,
    scy: i16,
    sx: u16,
    sy: u16,
) -> Option<u32>
    recommends
        vram.len() == VRAM_SIZE,
        cram.len() == CRAM_SIZE,
        1 <= mw <= 128,
{
    let wx = wadd16(sx, scx as u16);
    let wy = wadd16(sy, scy as u16);
    let tx = (wx / 8) % mw;
    let ty = (wy / 8) % mw;
    let entry = vram16(vram, wadd(base, ((ty * mw + tx) * 2) as u32));
    let tile_index = entry % 1024;
    let palette = ((entry / 4096) % 16) as u8;
    let fh = (entry / 1024) % 2 == 1;
    let fv = (entry / 2048) % 2 == 1;
    let px = if fh {
        (7 - wx % 8) as u16
    } else {
        wx % 8
    };
    let py = if fv {
        (7 - wy % 8) as u16
    } else {
        wy % 8
    };
    let ci = vram_at(vram, (tile_index * 64 + py * 8 + px) as u32);
    if ci == 0 {
        None
    } else {
        Some(pal_color(cram, palette, ci))
    }
}

/// The stored 24-bit reference point read as a signed 8.8 fixed-point
/// number.
pub open spec fn sign_ext_ref(r: i32) -> i32
    recommends
        0 <= r < 0x0100_0000,
{
    if r >= 0x0080_0000 {
        (r - 0x0100_0000) as i32
    } else {
        r
    }
}

/// Texel of the affine layer at map coordinates `(px, py)`; flips are
/// ignored in affine mode.
pub open spec fn bg0_affine_texel(vram: Seq<u8>, cram: Seq<u8>, base: u32, mw: u16, px: int, py: int) -> Option<u32>
    recommends
        vram.len() == VRAM_SIZE,
        cram.len() == CRAM_SIZE,
        1 <= mw <= 128,
        0 <= px < mw * 8,
        0 <= py < mw * 8,
{
    let tx = px / 8;
    let ty = py / 8;
    let entry = vram16(vram, wadd(base, ((ty * mw + tx) * 2) as u32));
    let tile_index = entry % 1024;
    let palette = ((entry / 4096) % 16) as u8;
    let ci = vram_at(vram, (tile_index * 64 + (py % 8) * 8 + (px % 8)) as u32);
    if ci == 0 {
        None
    } else {
        Some(pal_color(cram, palette, ci))
    }
}

/// Colour contributed by the affine layer at screen pixel `(sx, sy)`:
/// the screen-centre offset run through the 8.8 fixed-point matrix and
/// added to the reference point, then wrapped or clipped to the map.
#[verifier::opaque]
pub open spec fn bg0_pixel_affine(v: VdpV, sx: int, sy: int) -> Option<u32>
    recommends
        vdp_wf(v),
{
    let w = spec_dims(v.display_control).0;
    let h = spec_dims(v.display_control).1;
    let cx = w / 2;
    let cy = h / 2;
    let mw = bg_map_width(v.bg0_control);
    let msz = mw as int * 8;
    let pa = v.bg0_affine[0] as int;
    let pb = v.bg0_affine[1] as int;
    let pc = v.bg0_affine[2] as int;
    let pd = v.bg0_affine[3] as int;
    let dx = sx - cx;
    let dy = sy - cy;
    let tex_x = sign_ext_ref(v.bg0_ref_x) + (((pa * dx + pb * dy) as i32) >> 8u32);
    let tex_y = sign_ext_ref(v.bg0_ref_y) + (((pc * dx + pd * dy) as i32) >> 8u32);
    let px0 = ((tex_x as i32) >> 8u32) as int;
    let py0 = ((tex_y as i32) >> 8u32) as int;
    if v.bg0_control.wraparound {
        bg0_affine_texel(v.vram, v.cram, v.bg0_tilemap_addr, mw, px0 % msz, py0 % msz)
    } else {
        if px0 < 0 || px0 >= msz || py0 < 0 || py0 >= msz {
            None
        } else {
            bg0_affine_texel(v.vram, v.cram, v.bg0_tilemap_addr, mw, px0, py0)
        }
    }
}

/// Pixel `i` of the framebuffer after the BG1 pass over `fb0`.
pub open spec fn bg1_pix(v: VdpV, fb0: Seq<u32>, i: int) -> u32
    recommends
        vdp_wf(v),
        0 <= i < fb0.len(),
{
    let w = spec_dims(v.display_control).0;
    match bg_pixel_scroll(
        v.vram,
        v.cram,
        v.bg1_tilemap_addr,
        bg_map_width(v.bg1_control),
        v.bg1_scroll_x,
        v.bg1_scroll_y,
        (i % w) as u16,
        (i / w) as u16,
    ) {
        Some(c) => c,
        None => fb0[i],
    }
}

pub open spec fn bg1_partial(v: VdpV, fb0: Seq<u32>, k: int) -> Seq<u32>
    recommends
        vdp_wf(v),
{
    Seq::new(fb0.len(), |i: int| if i < k { bg1_pix(v, fb0, i) } else { fb0[i] })
}

/// The BG1 pass: every screen pixel where the layer is opaque takes its
/// colour; the layer must be enabled both in DISPCTL (checked by the
/// caller) and in its own control register.
pub open spec fn apply_bg1(v: VdpV, fb0: Seq<u32>) -> Seq<u32>
    recommends
        vdp_wf(v),
{
    if !v.bg1_control.enable {
        fb0
    } else {
        bg1_partial(v, fb0, spec_dims(v.display_control).0 * spec_dims(v.display_control).1)
    }
}

/// Pixel `i` of the framebuffer after the BG0 pass over `fb0`.
pub open spec fn bg0_pix(v: VdpV, fb0: Seq<u32>, i: int) -> u32
    recommends
        vdp_wf(v),
        0 <= i < fb0.len(),
{
    let w = spec_dims(v.display_control).0;
    let px = if v.bg0_control.affine {
        bg0_pixel_affine(v, i % w, i / w)
    } else {
        bg_pixel_scroll(
            v.vram,
            v.cram,
            v.bg0_tilemap_addr,
            bg_map_width(v.bg0_control),
            v.bg0_scroll_x,
            v.bg0_scroll_y,
            (i % w) as u16,
            (i / w) as u16,
        )
    };
    match px {
        Some(c) => c,
        None => fb0[i],
    }
}

pub open spec fn bg0_partial(v: VdpV, fb0: Seq<u32>, k: int) -> Seq<u32>
    recommends
        vdp_wf(v),
{
    Seq::new(fb0.len(), |i: int| if i < k { bg0_pix(v, fb0, i) } else { fb0[i] })
}

/// The BG0 pass, affine or scrolling by the layer's control bits.
pub open spec fn apply_bg0(v: VdpV, fb0: Seq<u32>) -> Seq<u32>
    recommends
        vdp_wf(v),
{
    if !v.bg0_control.enable {
        fb0
    } else {
        bg0_partial(v, fb0, spec_dims(v.display_control).0 * spec_dims(v.display_control).1)
    }
}

/// OAM indices below `n` whose sprites are enabled and carry priority
/// `p`, in index order.
pub open spec fn enabled_with_prio(oam: Seq<SpriteAttr>, p: u8, n: int) -> Seq<usize>
    recommends
        n <= oam.len(),
    decreases n,
{
    if n <= 0 {
        Seq::empty()
    } else {
        let rest = enabled_with_prio(oam, p, n - 1);
        if sprite_enabled(oam[n - 1]) && sprite_priority(oam[n - 1]) == p {
            rest.push((n - 1) as usize)
        } else {
            rest
        }
    }
}

/// Enabled sprites grouped by priority `0` up to (excluding) `p`, ties
/// kept in OAM order.
pub open spec fn sprite_order_upto(oam: Seq<SpriteAttr>, p: int) -> Seq<usize>
    recommends
        oam.len() == OAM_SPRITES,
    decreases p,
{
    if p <= 0 {
        Seq::empty()
    } else {
        sprite_order_upto(oam, p - 1) + enabled_with_prio(oam, (p - 1) as u8, OAM_SPRITES as int)
    }
}

/// Painting order of the sprite pass: enabled sprites by ascending
/// priority, ties by OAM index.
pub open spec fn sprite_order(oam: Seq<SpriteAttr>) -> Seq<usize>
    recommends
        oam.len() == OAM_SPRITES,
{
    sprite_order_upto(oam, 4)
}

/// One sprite pixel: column `sprite_x` of row `sprite_y`, with flips
/// applied, painted where it is on screen and opaque.
#[verifier::opaque]
pub open spec fn paint_one(v: VdpV, fb: Seq<u32>, s: SpriteAttr, sprite_y: u16, sprite_x: u16) -> Seq<u32>
    recommends
        vdp_wf(v),
        sprite_y < sprite_side(s),
        sprite_x < sprite_side(s),
{
    let w = spec_dims(v.display_control).0;
    let side = sprite_side(s);
    let screen_y = wadd16(s.y_pos, sprite_y) as int;
    let screen_x = wadd16(s.x_pos, sprite_x) as int;
    if screen_x >= w {
        fb
    } else {
        let px = if sprite_flip_h(s) {
            (side - 1 - sprite_x) as u16
        } else {
            sprite_x
        };
        let py = if sprite_flip_v(s) {
            (side - 1 - sprite_y) as u16
        } else {
            sprite_y
        };
        let tile_offset = ((py / 8) * (side / 8) + px / 8) as u16;
        let tile_index = wadd16(s.tile_index, tile_offset);
        let ci = vram_at(v.vram, (tile_index * 64 + (py % 8) * 8 + (px % 8)) as u32);
        if ci == 0 {
            fb
        } else if screen_y * w + screen_x < fb.len() {
            fb.update(screen_y * w + screen_x, pal_color(v.cram, sprite_palette(s), ci))
        } else {
            fb
        }
    }
}

/// The first `n` columns of one sprite row painted left to right.
pub open spec fn paint_cols(v: VdpV, fb: Seq<u32>, s: SpriteAttr, sprite_y: u16, n: int) -> Seq<u32>
    recommends
        vdp_wf(v),
        sprite_y < sprite_side(s),
        n <= sprite_side(s),
    decreases n,
{
    if n <= 0 {
        fb
    } else {
        paint_one(v, paint_cols(v, fb, s, sprite_y, n - 1), s, sprite_y, (n - 1) as u16)
    }
}

/// The first `n` rows of one sprite painted top to bottom; each on-screen
/// row raises its scanline's sprite count, saturating at 64.
pub open spec fn paint_rows(
    v: VdpV,
    fb: Seq<u32>,
    counts: Seq<u8>,
    s: SpriteAttr,
    n: int,
) -> (Seq<u32>, Seq<u8>)
    recommends
        vdp_wf(v),
        n <= sprite_side(s),
    decreases n,
{
    if n <= 0 {
        (fb, counts)
    } else {
        let prev = paint_rows(v, fb, counts, s, n - 1);
        let sprite_y = (n - 1) as u16;
        let h = spec_dims(v.display_control).1;
        let screen_y = wadd16(s.y_pos, sprite_y) as int;
        if screen_y >= h {
            prev
        } else {
            let counts1 = if prev.1[screen_y] < 64 {
                prev.1.update(screen_y, (prev.1[screen_y] + 1) as u8)
            } else {
                prev.1
            };
            (paint_cols(v, prev.0, s, sprite_y, sprite_side(s) as int), counts1)
        }
    }
}

/// A sprite is skipped when it sits entirely off screen to the right or
/// bottom, or when any scanline in its vertical extent has already
/// reached the 64-sprite cap.
pub open spec fn spec_skip_sprite(v: VdpV, counts: Seq<u8>, s: SpriteAttr) -> bool
    recommends
        vdp_wf(v),
{
    let w = spec_dims(v.display_control).0;
    let h = spec_dims(v.display_control).1;
    let y_start = if s.y_pos < h {
        s.y_pos as int
    } else {
        h
    };
    let y_end = if wadd16(s.y_pos, sprite_side(s)) < h {
        wadd16(s.y_pos, sprite_side(s)) as int
    } else {
        h
    };
    ||| (s.x_pos >= w && s.x_pos < 512)
    ||| (s.y_pos >= h && s.y_pos < 512)
    ||| exists|y: int| y_start <= y < y_end && #[trigger] counts[y] >= 64
}

pub open spec fn paint_sprite(
    v: VdpV,
    fb: Seq<u32>,
    counts: Seq<u8>,
    s: SpriteAttr,
) -> (Seq<u32>, Seq<u8>)
    recommends
        vdp_wf(v),
{
    if spec_skip_sprite(v, counts, s) {
        (fb, counts)
    } else {
        paint_rows(v, fb, counts, s, sprite_side(s) as int)
    }
}

/// The first `n` sprites of the painting order applied in turn.
pub open spec fn paint_list(
    v: VdpV,
    fb: Seq<u32>,
    counts: Seq<u8>,
    order: Seq<usize>,
    n: int,
) -> (Seq<u32>, Seq<u8>)
    recommends
        vdp_wf(v),
        n <= order.len(),
    decreases n,
{
    if n <= 0 {
        (fb, counts)
    } else {
        let prev = paint_list(v, fb, counts, order, n - 1);
        paint_sprite(v, prev.0, prev.1, v.oam[order[n - 1] as int])
    }
}

/// The sprite pass over `fb0`, with fresh per-scanline counts.
pub open spec fn apply_sprites(v: VdpV, fb0: Seq<u32>) -> Seq<u32>
    recommends
        vdp_wf(v),
{
    let h = spec_dims(v.display_control).1;
    let order = sprite_order(v.oam);
    paint_list(v, fb0, Seq::new(h as nat, |i: int| 0u8), order, order.len() as int).0
}

/// One rendered frame: the framebuffer cleared to the backdrop colour,
/// then BG1, BG0 and the sprites, later passes painting over earlier
/// ones pixel by pixel where they are opaque.
pub open spec fn spec_render_frame(v: VdpV) -> Seq<u32>
    recommends
        vdp_wf(v),
{
    let v1 = VdpV { framebuffer: Seq::new(v.framebuffer.len(), |i: int| backdrop_rgb(v)), ..v };
    let v2 = if v.display_control.bg1_enable {
        VdpV { framebuffer: apply_bg1(v1, v1.framebuffer), ..v1 }
    } else {
        v1
    };
    let v3 = if v.display_control.bg0_enable {
        VdpV { framebuffer: apply_bg0(v2, v2.framebuffer), ..v2 }
    } else {
        v2
    };
    let v4 = if v.display_control.sprite_enable {
        VdpV { framebuffer: apply_sprites(v3, v3.framebuffer), ..v3 }
    } else {
        v3
    };
    v4.framebuffer
}

/// One timing step: the cycle accumulator advances, the counters are
/// derived from it, the blank status bits are recomputed, and on the
/// rising edge into the vertical blank the frame counter advances and,
/// with the master display enabled, a frame is rendered.  The returned
/// flag reports exactly that rising edge.
pub open spec fn spec_vdp_step(v: VdpV, cycles: u64) -> (VdpV, bool)
    recommends
        vdp_wf(v),
{
    let nc = vstd::wrapping::u64_specs::wrapping_add(v.cycles, cycles);
    let vcount = ((nc / CYCLES_PER_SCANLINE) % (SCANLINES_PER_FRAME as u64)) as u16;
    let hcount = (nc % CYCLES_PER_SCANLINE) as u16;
    let entered = v.v_count < VBLANK_START && vcount >= VBLANK_START;
    let v1 = VdpV {
        cycles: nc,
        v_count: vcount,
        h_count: hcount,
        display_status: DisplayStatus {
            vblank: vcount >= VBLANK_START,
            hblank: hcount >= 768,
            ..v.display_status
        },
        frame_count: if entered {
            vstd::wrapping::u64_specs::wrapping_add(v.frame_count, 1)
        } else {
            v.frame_count
        },
        ..v
    };
    if entered && v.display_control.enable {
        (VdpV { framebuffer: spec_render_frame(v1), ..v1 }, true)
    } else {
        (v1, entered)
    }
}

/// A 16-bit register read.
pub open spec fn spec_read_reg(v: VdpV, offset: u32) -> u16
    recommends
        vdp_wf(v),
{
    if offset == 0x0000 {
        dc_bits(v.display_control)
    } else if offset == 0x0002 {
        ds_bits(v.display_status)
    } else if offset == 0x0004 {
        v.v_count
    } else if offset == 0x0006 {
        v.h_count
    } else if offset == 0x0010 {
        bg_bits(v.bg0_control)
    } else if offset == 0x0012 {
        v.bg0_scroll_x as u16
    } else if offset == 0x0014 {
        v.bg0_scroll_y as u16
    } else if offset == 0x0016 {
        v.bg0_affine[0] as u16
    } else if offset == 0x0018 {
        v.bg0_affine[1] as u16
    } else if offset == 0x001A {
        v.bg0_affine[2] as u16
    } else if offset == 0x001C {
        v.bg0_affine[3] as u16
    } else if offset == 0x001E {
        (v.bg0_ref_x % 65536) as u16
    } else if offset == 0x0020 {
        ((v.bg0_ref_x / 65536) % 256) as u16
    } else if offset == 0x0022 {
        (v.bg0_ref_y % 65536) as u16
    } else if offset == 0x0024 {
        ((v.bg0_ref_y / 65536) % 256) as u16
    } else if offset == 0x0026 {
        v.bg0_tilemap_addr as u16
    } else if offset == 0x0030 {
        bg_bits(v.bg1_control)
    } else if offset == 0x0032 {
        v.bg1_scroll_x as u16
    } else if offset == 0x0034 {
        v.bg1_scroll_y as u16
    } else if offset == 0x0036 {
        v.bg1_tilemap_addr as u16
    } else if offset == 0x0050 {
        sc_bits(v.sprite_control)
    } else if offset == 0x0052 {
        v.sprite_oam_addr
    } else if offset == 0x0070 {
        (v.dma_source % 65536) as u16
    } else if offset == 0x0072 {
        ((v.dma_source / 65536) % 256) as u16
    } else if offset == 0x0074 {
        (v.dma_dest % 65536) as u16
    } else if offset == 0x0076 {
        ((v.dma_dest / 65536) % 256) as u16
    } else if offset == 0x0078 {
        v.dma_length
    } else if offset == 0x007A {
        0
    } else if offset == 0x0080 {
        irq_bits(v.irq_enable)
    } else if offset == 0x0082 {
        irq_bits(v.irq_status)
    } else if offset == 0x0084 {
        v.irq_line_compare
    } else if offset == 0x0090 {
        v.palette_index as u16
    } else if offset == 0x0092 {
        v.palette_data as u16
    } else if offset == 0x0094 {
        v.backdrop_color
    } else {
        let idx = (offset as int) % 256;
        if idx + 1 < 256 {
            (v.regs[idx] + v.regs[idx + 1] * 256) as u16
        } else {
            0xFF
        }
    }
}

/// The DMA transfer completes within the triggering write: the busy bit
/// is raised and lowered again, and completion is latched in the
/// interrupt status as DMA_DONE.
pub open spec fn spec_start_dma(v: VdpV) -> VdpV {
    VdpV {
        dma_active: false,
        display_status: DisplayStatus { dma_busy: false, ..v.display_status },
        irq_status: IrqFlags { dma_done: true, ..v.irq_status },
        ..v
    }
}

/// A 16-bit register write; read-only registers drop the write, reserved
/// offsets fall through to the raw register bytes.  The register file is
/// specified block by block.
pub open spec fn spec_write_reg(v: VdpV, offset: u32, value: u16) -> VdpV
    recommends
        vdp_wf(v),
{
    if offset < 0x0016 {
        spec_write_reg_disp(v, offset, value)
    } else if offset < 0x001E {
        spec_write_reg_affine(v, offset, value)
    } else if offset < 0x0022 {
        spec_write_reg_ref_x(v, offset, value)
    } else if offset < 0x0030 {
        spec_write_reg_ref_y(v, offset, value)
    } else if offset < 0x0034 {
        spec_write_reg_bg1_ctl(v, offset, value)
    } else if offset < 0x0050 {
        spec_write_reg_bg1_map(v, offset, value)
    } else if offset < 0x0070 {
        spec_write_reg_sprite(v, offset, value)
    } else if offset < 0x0074 {
        spec_write_reg_dma_src(v, offset, value)
    } else if offset < 0x0080 {
        spec_write_reg_dma_hi(v, offset, value)
    } else if offset < 0x0090 {
        spec_write_reg_irq(v, offset, value)
    } else {
        spec_write_reg_palette(v, offset, value)
    }
}

/// Raw register bytes taken by writes to unnamed offsets.
pub open spec fn spec_write_reg_raw(v: VdpV, offset: u32, value: u16) -> VdpV
    recommends
        vdp_wf(v),
{
    let idx = (offset as int) % 256;
    if idx + 1 < 256 {
        VdpV {
            regs: v.regs.update(idx, (value % 256) as u8).update(idx + 1, (value / 256) as u8),
            ..v
        }
    } else {
        v
    }
}

/// Display control, the read-only counters, and BG0 control and scroll.
pub open spec fn spec_write_reg_disp(v: VdpV, offset: u32, value: u16) -> VdpV
    recommends
        vdp_wf(v),
{
    if offset == 0x0000 {
        VdpV { display_control: dc_from_bits(value), ..v }
    } else if offset == 0x0004 || offset == 0x0006 {
        v
    } else if offset == 0x0010 {
        VdpV { bg0_control: bg_from_bits(value), ..v }
    } else if offset == 0x0012 {
        VdpV { bg0_scroll_x: value as i16, ..v }
    } else if offset == 0x0014 {
        VdpV { bg0_scroll_y: value as i16, ..v }
    } else {
        spec_write_reg_raw(v, offset, value)
    }
}

/// The four BG0 affine matrix parameters.
pub open spec fn spec_write_reg_affine(v: VdpV, offset: u32, value: u16) -> VdpV
    recommends
        vdp_wf(v),
{
    if offset == 0x0016 {
        VdpV { bg0_affine: v.bg0_affine.update(0, value as i16), ..v }
    } else if offset == 0x0018 {
        VdpV { bg0_affine: v.bg0_affine.update(1, value as i16), ..v }
    } else if offset == 0x001A {
        VdpV { bg0_affine: v.bg0_affine.update(2, value as i16), ..v }
    } else if offset == 0x001C {
        VdpV { bg0_affine: v.bg0_affine.update(3, value as i16), ..v }
    } else {
        spec_write_reg_raw(v, offset, value)
    }
}

/// The BG0 reference point X, a 24-bit value written as a low word and
/// a high byte.
pub open spec fn spec_write_reg_ref_x(v: VdpV, offset: u32, value: u16) -> VdpV
    recommends
        vdp_wf(v),
{
    if offset == 0x001E {
        VdpV { bg0_ref_x: ((v.bg0_ref_x / 65536) * 65536 + value) as i32, ..v }
    } else if offset == 0x0020 {
        VdpV { bg0_ref_x: (v.bg0_ref_x % 65536 + (value % 256) * 65536) as i32, ..v }
    } else {
        spec_write_reg_raw(v, offset, value)
    }
}

/// The BG0 reference point Y and the BG0 tilemap base.
pub open spec fn spec_write_reg_ref_y(v: VdpV, offset: u32, value: u16) -> VdpV
    recommends
        vdp_wf(v),
{
    if offset == 0x0022 {
        VdpV { bg0_ref_y: ((v.bg0_ref_y / 65536) * 65536 + value) as i32, ..v }
    } else if offset == 0x0024 {
        VdpV { bg0_ref_y: (v.bg0_ref_y % 65536 + (value % 256) * 65536) as i32, ..v }
    } else if offset == 0x0026 {
        VdpV { bg0_tilemap_addr: value as u32, ..v }
    } else {
        spec_write_reg_raw(v, offset, value)
    }
}

/// BG1 control and horizontal scroll.
pub open spec fn spec_write_reg_bg1_ctl(v: VdpV, offset: u32, value: u16) -> VdpV
    recommends
        vdp_wf(v),
{
    if offset == 0x0030 {
        VdpV { bg1_control: bg_from_bits(value), ..v }
    } else if offset == 0x0032 {
        VdpV { bg1_scroll_x: value as i16, ..v }
    } else {
        spec_write_reg_raw(v, offset, value)
    }
}

/// BG1 vertical scroll and tilemap base.
pub open spec fn spec_write_reg_bg1_map(v: VdpV, offset: u32, value: u16) -> VdpV
    recommends
        vdp_wf(v),
{
    if offset == 0x0034 {
        VdpV { bg1_scroll_y: value as i16, ..v }
    } else if offset == 0x0036 {
        VdpV { bg1_tilemap_addr: value as u32, ..v }
    } else {
        spec_write_reg_raw(v, offset, value)
    }
}

/// The sprite control block.
pub open spec fn spec_write_reg_sprite(v: VdpV, offset: u32, value: u16) -> VdpV
    recommends
        vdp_wf(v),
{
    if offset == 0x0050 {
        VdpV { sprite_control: sc_from_bits(value), ..v }
    } else if offset == 0x0052 {
        VdpV { sprite_oam_addr: value, ..v }
    } else {
        spec_write_reg_raw(v, offset, value)
    }
}

/// The DMA source address.
pub open spec fn spec_write_reg_dma_src(v: VdpV, offset: u32, value: u16) -> VdpV
    recommends
        vdp_wf(v),
{
    if offset == 0x0070 {
        VdpV { dma_source: ((v.dma_source / 65536) * 65536 + value) as u32, ..v }
    } else if offset == 0x0072 {
        VdpV { dma_source: (v.dma_source % 65536 + (value % 256) * 65536) as u32, ..v }
    } else {
        spec_write_reg_raw(v, offset, value)
    }
}

/// The DMA destination, length, and the control register whose trigger
/// bit starts the transfer.
pub open spec fn spec_write_reg_dma_hi(v: VdpV, offset: u32, value: u16) -> VdpV
    recommends
        vdp_wf(v),
{
    if offset == 0x0074 {
        VdpV { dma_dest: ((v.dma_dest / 65536) * 65536 + value) as u32, ..v }
    } else if offset == 0x0076 {
        VdpV { dma_dest: (v.dma_dest % 65536 + (value % 256) * 65536) as u32, ..v }
    } else if offset == 0x0078 {
        VdpV { dma_length: value, ..v }
    } else if offset == 0x007A {
        if value >= 0x8000 {
            spec_start_dma(v)
        } else {
            v
        }
    } else {
        spec_write_reg_raw(v, offset, value)
    }
}

/// The interrupt block; writing the status register clears the named
/// bits.
pub open spec fn spec_write_reg_irq(v: VdpV, offset: u32, value: u16) -> VdpV
    recommends
        vdp_wf(v),
{
    if offset == 0x0080 {
        VdpV { irq_enable: irq_from_bits(value), ..v }
    } else if offset == 0x0082 {
        VdpV { irq_status: irq_remove(v.irq_status, irq_from_bits(value)), ..v }
    } else if offset == 0x0084 {
        VdpV { irq_line_compare: value, ..v }
    } else {
        spec_write_reg_raw(v, offset, value)
    }
}

/// The palette block; a data write stores a 6-bit channel at the current
/// palette index, a backdrop write decodes three channels into the first
/// CRAM triple.
pub open spec fn spec_write_reg_palette(v: VdpV, offset: u32, value: u16) -> VdpV
    recommends
        vdp_wf(v),
{
    if offset == 0x0090 {
        VdpV { palette_index: value as u8, ..v }
    } else if offset == 0x0092 {
        VdpV {
            palette_data: value as u8,
            cram: v.cram.update(((v.palette_index as int) * 3) % (CRAM_SIZE as int), (value as u8) % 64),
            ..v
        }
    } else if offset == 0x0094 {
        VdpV {
            backdrop_color: value,
            cram: v.cram.update(0, (value % 64) as u8).update(1, ((value / 64) % 64) as u8).update(
                2,
                ((value / 4096) % 64) as u8,
            ),
            ..v
        }
    } else {
        spec_write_reg_raw(v, offset, value)
    }
}

/// A flat framebuffer index below `w * h` decomposes into a column below
/// `w` and a row below `h`.
pub proof fn lemma_flat_index(i: int, w: int, h: int)
    requires
        0 <= i < w * h,
        0 < w,
    ensures
        0 <= i % w < w,
        0 <= i / w < h,
{
    assert(0 <= i % w < w && 0 <= i / w < h)
        by (nonlinear_arith)
        requires
            0 <= i < w * h,
            0 < w,
    ;
}

/// Bound on an 8.8 fixed-point matrix row applied to a screen offset.
pub proof fn lemma_affine_term_bound(p: int, q: int, d: int, e: int)
    requires
        -0x8000 <= p <= 0x7FFF,
        -0x8000 <= q <= 0x7FFF,
        -400 <= d <= 400,
        -400 <= e <= 400,
    ensures
        -0x2000000 <= p * d <= 0x2000000,
        -0x2000000 <= q * e <= 0x2000000,
        -0x2000000 <= p * d + q * e <= 0x2000000,
{
    assert(-0x1000000 <= p * d <= 0x1000000 && -0x1000000 <= q * e <= 0x1000000)
        by (nonlinear_arith)
        requires
            -0x8000 <= p <= 0x7FFF,
            -0x8000 <= q <= 0x7FFF,
            -400 <= d <= 400,
            -400 <= e <= 400,
    ;
}

/// An arithmetic shift right by 8 keeps a bounded value bounded.
pub proof fn lemma_shr8_range(x: i32)
    requires
        -0x4000000 <= x <= 0x4000000,
    ensures
        -0x40000 <= (x >> 8u32) <= 0x40000,
{
    assert(-0x40000 <= (x >> 8u32) <= 0x40000)
        by (bit_vector)
        requires
            -0x4000000 <= x <= 0x4000000,
    ;
}

/// Dividing by the tile side stays below the map width.
pub proof fn lemma_div8_bound(x: u32, mw: u16)
    requires
        x < (mw as u32) * 8,
    ensures
        x / 8 < mw,
{
    assert(x / 8 < mw)
        by (nonlinear_arith)
        requires
            x < (mw as u32) * 8,
    ;
}

/// Decomposition of a row-major framebuffer index.
pub proof fn lemma_pixel_index(sx: int, sy: int, w: int, h: int)
    requires
        0 <= sx < w,
        0 <= sy < h,
    ensures
        0 <= sy * w + sx < w * h,
        (sy * w + sx) % w == sx,
        (sy * w + sx) / w == sy,
        (sy + 1) * w == sy * w + w,
{
    assert(0 <= sy * w + sx < w * h && (sy * w + sx) % w == sx && (sy * w + sx) / w == sy && (sy
        + 1) * w == sy * w + w)
        by (nonlinear_arith)
        requires
            0 <= sx < w,
            0 <= sy < h,
    ;
}

/// The tilemap entry offset stays small for maps of up to 128 tiles.
pub proof fn lemma_tile_offset_bound(tx: u16, ty: u16, mw: u16)
    requires
        tx < mw,
        ty < mw,
        mw <= 128,
    ensures
        (ty as u32) * (mw as u32) + (tx as u32) < 0x8000,
{
    assert(ty * mw + tx < 0x8000)
        by (nonlinear_arith)
        requires
            tx < mw,
            ty < mw,
            mw <= 128,
    ;
}

/// Every index named by the priority filter lies below its scan bound.
pub proof fn lemma_prio_list_bounds(oam: Seq<SpriteAttr>, p: u8, n: int)
    requires
        n <= oam.len(),
    ensures
        forall|k: int|
            0 <= k < enabled_with_prio(oam, p, n).len() ==> (#[trigger] enabled_with_prio(
                oam,
                p,
                n,
            )[k] as int) < n,
    decreases n,
{
    if n > 0 {
        lemma_prio_list_bounds(oam, p, n - 1);
        let l = enabled_with_prio(oam, p, n);
        let rest = enabled_with_prio(oam, p, n - 1);
        assert forall|k: int| 0 <= k < l.len() implies (l[k] as int) < n by {
            if sprite_enabled(oam[n - 1]) && sprite_priority(oam[n - 1]) == p {
                if k < rest.len() {
                    assert(l[k] == rest[k]);
                } else {
                    assert(l[k] == (n - 1) as usize);
                }
            } else {
                assert(l[k] == rest[k]);
            }
        }
    }
}

/// Every index in the painting order names a real OAM entry.
pub proof fn lemma_order_bounds(oam: Seq<SpriteAttr>, q: int)
    requires
        oam.len() == OAM_SPRITES,
        0 <= q <= 4,
    ensures
        forall|k: int|
            0 <= k < sprite_order_upto(oam, q).len() ==> (#[trigger] sprite_order_upto(oam, q)[k]
                as int) < OAM_SPRITES,
    decreases q,
{
    if q > 0 {
        lemma_order_bounds(oam, q - 1);
        lemma_prio_list_bounds(oam, (q - 1) as u8, OAM_SPRITES as int);
        let l = sprite_order_upto(oam, q);
        let a = sprite_order_upto(oam, q - 1);
        let b = enabled_with_prio(oam, (q - 1) as u8, OAM_SPRITES as int);
        assert forall|k: int| 0 <= k < l.len() implies (l[k] as int) < OAM_SPRITES by {
            if k < a.len() {
                assert(l[k] == a[k]);
            } else {
                assert(l[k] == b[k - a.len()]);
            }
        }
    }
}

/// One painted pixel leaves the framebuffer length unchanged.
pub proof fn lemma_paint_one_len(v: VdpV, fb: Seq<u32>, s: SpriteAttr, sprite_y: u16, sprite_x: u16)
    ensures
        paint_one(v, fb, s, sprite_y, sprite_x).len() == fb.len(),
{
    reveal(paint_one);
}

/// The column pass leaves the framebuffer length unchanged.
pub proof fn lemma_paint_cols_len(v: VdpV, fb: Seq<u32>, s: SpriteAttr, sprite_y: u16, n: int)
    ensures
        paint_cols(v, fb, s, sprite_y, n).len() == fb.len(),
    decreases n,
{
    if n > 0 {
        lemma_paint_cols_len(v, fb, s, sprite_y, n - 1);
        lemma_paint_one_len(v, paint_cols(v, fb, s, sprite_y, n - 1), s, sprite_y, (n - 1) as u16);
    }
}

/// The row pass leaves the framebuffer and count lengths unchanged.
pub proof fn lemma_paint_rows_len(v: VdpV, fb: Seq<u32>, counts: Seq<u8>, s: SpriteAttr, n: int)
    requires
        counts.len() == spec_dims(v.display_control).1,
    ensures
        paint_rows(v, fb, counts, s, n).0.len() == fb.len(),
        paint_rows(v, fb, counts, s, n).1.len() == counts.len(),
    decreases n,
{
    if n > 0 {
        lemma_paint_rows_len(v, fb, counts, s, n - 1);
        lemma_paint_cols_len(
            v,
            paint_rows(v, fb, counts, s, n - 1).0,
            s,
            (n - 1) as u16,
            sprite_side(s) as int,
        );
    }
}

/// The sprite pass leaves the framebuffer and count lengths unchanged.
pub proof fn lemma_paint_list_len(
    v: VdpV,
    fb: Seq<u32>,
    counts: Seq<u8>,
    order: Seq<usize>,
    n: int,
)
    requires
        counts.len() == spec_dims(v.display_control).1,
    ensures
        paint_list(v, fb, counts, order, n).0.len() == fb.len(),
        paint_list(v, fb, counts, order, n).1.len() == counts.len(),
    decreases n,
{
    if n > 0 {
        lemma_paint_list_len(v, fb, counts, order, n - 1);
        let prev = paint_list(v, fb, counts, order, n - 1);
        let sp = v.oam[order[n - 1] as int];
        if !spec_skip_sprite(v, prev.1, sp) {
            lemma_paint_rows_len(v, prev.0, prev.1, sp, sprite_side(sp) as int);
        }
    }
}

/// Main VDP state.
pub struct Vdp {
    vram: Vec<u8>,
    cram: Vec<u8>,
    regs: [u8; 256],
    display_control: DisplayControl,
    display_status: DisplayStatus,
    v_count: u16,
    h_count: u16,
    bg0_control: BgControl,
    bg0_scroll_x: i16,
    bg0_scroll_y: i16,
    bg0_affine: [i16; 4],
    bg0_ref_x: i32,
    bg0_ref_y: i32,
    bg0_tilemap_addr: u32,
    bg1_control: BgControl,
    bg1_scroll_x: i16,
    bg1_scroll_y: i16,
    bg1_tilemap_addr: u32,
    oam: Vec<SpriteAttr>,
    sprite_control: SpriteControl,
    sprite_oam_addr: u16,
    dma_source: u32,
    dma_dest: u32,
    dma_length: u16,
    dma_active: bool,
    irq_enable: IrqFlags,
    irq_status: IrqFlags,
    irq_line_compare: u16,
    palette_index: u8,
    palette_data: u8,
    backdrop_color: u16,
    framebuffer: Vec<u32>,
    cycles: u64,
    frame_count: u64,
}

impl View for Vdp {
    type V = VdpV;

    closed spec fn view(&self) -> VdpV {
        VdpV {
            vram: self.vram@,
            cram: self.cram@,
            regs: self.regs@,
            display_control: self.display_control,
            display_status: self.display_status,
            v_count: self.v_count,
            h_count: self.h_count,
            bg0_control: self.bg0_control,
            bg0_scroll_x: self.bg0_scroll_x,
            bg0_scroll_y: self.bg0_scroll_y,
            bg0_affine: self.bg0_affine@,
            bg0_ref_x: self.bg0_ref_x,
            bg0_ref_y: self.bg0_ref_y,
            bg0_tilemap_addr: self.bg0_tilemap_addr,
            bg1_control: self.bg1_control,
            bg1_scroll_x: self.bg1_scroll_x,
            bg1_scroll_y: self.bg1_scroll_y,
            bg1_tilemap_addr: self.bg1_tilemap_addr,
            oam: self.oam@,
            sprite_control: self.sprite_control,
            sprite_oam_addr: self.sprite_oam_addr,
            dma_source: self.dma_source,
            dma_dest: self.dma_dest,
            dma_length: self.dma_length,
            dma_active: self.dma_active,
            irq_enable: self.irq_enable,
            irq_status: self.irq_status,
            irq_line_compare: self.irq_line_compare,
            palette_index: self.palette_index,
            palette_data: self.palette_data,
            backdrop_color: self.backdrop_color,
            framebuffer: self.framebuffer@,
            cycles: self.cycles,
            frame_count: self.frame_count,
        }
    }
}

/// The VDP as it comes out of `Vdp::new`.
pub open spec fn spec_vdp_init() -> VdpV {
    VdpV {
        vram: Seq::new(VRAM_SIZE as nat, |i: int| 0u8),
        cram: Seq::new(CRAM_SIZE as nat, |i: int| 0u8),
        regs: Seq::new(256, |i: int| 0u8),
        display_control: dc_from_bits(0),
        display_status: DisplayStatus {
            vblank: false,
            hblank: false,
            linecmp: false,
            dma_busy: false,
            cmdlist_busy: false,
        },
        v_count: 0,
        h_count: 0,
        bg0_control: bg_from_bits(0),
        bg0_scroll_x: 0,
        bg0_scroll_y: 0,
        bg0_affine: seq![0x100i16, 0i16, 0i16, 0x100i16],
        bg0_ref_x: 0,
        bg0_ref_y: 0,
        bg0_tilemap_addr: 0,
        bg1_control: bg_from_bits(0),
        bg1_scroll_x: 0,
        bg1_scroll_y: 0,
        bg1_tilemap_addr: 0,
        oam: Seq::new(OAM_SPRITES as nat, |i: int| SpriteAttr { y_pos: 0, x_pos: 0, tile_index: 0, attr: 0 }),
        sprite_control: sc_from_bits(0),
        sprite_oam_addr: 0,
        dma_source: 0,
        dma_dest: 0,
        dma_length: 0,
        dma_active: false,
        irq_enable: irq_from_bits(0),
        irq_status: irq_from_bits(0),
        irq_line_compare: 0,
        palette_index: 0,
        palette_data: 0,
        backdrop_color: 0,
        framebuffer: Seq::new((NATIVE_WIDTH * NATIVE_HEIGHT) as nat, |i: int| 0u32),
        cycles: 0,
        frame_count: 0,
    }
}

impl Vdp {
    pub open spec fn wf(&self) -> bool {
        vdp_wf(self@)
    }

    #[verifier::spinoff_prover]
    #[verifier::rlimit(100)]
    pub fn new() -> (vdp: Vdp)
        ensures
            vdp.wf(),
            vdp@ == spec_vdp_init(),
    {
        let vdp = Vdp {
            vram: vec![0u8; VRAM_SIZE],
            cram: vec![0u8; CRAM_SIZE],
            regs: [0; 256],
            display_control: DisplayControl::empty(),
            display_status: DisplayStatus::empty(),
            v_count: 0,
            h_count: 0,
            bg0_control: BgControl::empty(),
            bg0_scroll_x: 0,
            bg0_scroll_y: 0,
            bg0_affine: [0x100, 0, 0, 0x100],
            bg0_ref_x: 0,
            bg0_ref_y: 0,
            bg0_tilemap_addr: 0,
            bg1_control: BgControl::empty(),
            bg1_scroll_x: 0,
            bg1_scroll_y: 0,
            bg1_tilemap_addr: 0,
            oam: vec![SpriteAttr { y_pos: 0, x_pos: 0, tile_index: 0, attr: 0 }; OAM_SPRITES],
            sprite_control: SpriteControl::empty(),
            sprite_oam_addr: 0,
            dma_source: 0,
            dma_dest: 0,
            dma_length: 0,
            dma_active: false,
            irq_enable: IrqFlags::empty(),
            irq_status: IrqFlags::empty(),
            irq_line_compare: 0,
            palette_index: 0,
            palette_data: 0,
            backdrop_color: 0,
            framebuffer: vec![0u32; NATIVE_WIDTH * NATIVE_HEIGHT],
            cycles: 0,
            frame_count: 0,
        };
        proof {
            assert(vdp@.vram =~= spec_vdp_init().vram);
            assert(vdp@.cram =~= spec_vdp_init().cram);
            assert(vdp@.regs =~= spec_vdp_init().regs);
            assert(vdp@.bg0_affine =~= spec_vdp_init().bg0_affine);
            assert(vdp@.oam =~= spec_vdp_init().oam);
            assert(vdp@.framebuffer =~= spec_vdp_init().framebuffer);
            assert(vdp@ == spec_vdp_init());
            assert(vdp@.vram.len() == VRAM_SIZE);
            assert(vdp@.cram.len() == CRAM_SIZE);
            assert(vdp@.regs.len() == 256);
            assert(vdp@.bg0_affine.len() == 4);
            assert(vdp@.oam.len() == OAM_SPRITES);
            assert(vdp@.framebuffer.len() == NATIVE_WIDTH * NATIVE_HEIGHT);
            assert(vdp@.cycles == 0);
            assert(vdp@.v_count == (vdp@.cycles / CYCLES_PER_SCANLINE) % (SCANLINES_PER_FRAME as u64));
            assert(vdp@.h_count == vdp@.cycles % CYCLES_PER_SCANLINE);
            assert(vdp_wf(vdp@));
        }
        vdp
    }

    /// Read a byte from VRAM at a wrapped offset.
    pub fn read_vram(&self, offset: u32) -> (r: u8)
        requires
            self.wf(),
        ensures
            r == vram_at(self@.vram, offset),
    {
        self.vram[(offset as usize) % VRAM_SIZE]
    }

    /// Write a byte to VRAM at a wrapped offset.
    pub fn write_vram(&mut self, offset: u32, value: u8)
        requires
            old(self).wf(),
        ensures
            final(self).wf(),
            final(self)@ == (VdpV {
                vram: old(self)@.vram.update((offset as int) % (VRAM_SIZE as int), value),
                ..old(self)@
            }),
    {
        let idx = (offset as usize) % VRAM_SIZE;
        self.vram[idx] = value;
    }

    /// Read a byte from CRAM at a wrapped offset.
    pub fn read_cram(&self, offset: u32) -> (r: u8)
        requires
            self.wf(),
        ensures
            r == cram_at(self@.cram, offset),
    {
        self.cram[(offset as usize) % CRAM_SIZE]
    }

    /// Write a byte to CRAM at a wrapped offset.
    pub fn write_cram(&mut self, offset: u32, value: u8)
        requires
            old(self).wf(),
        ensures
            final(self).wf(),
            final(self)@ == (VdpV {
                cram: old(self)@.cram.update((offset as int) % (CRAM_SIZE as int), value),
                ..old(self)@
            }),
    {
        let idx = (offset as usize) % CRAM_SIZE;
        self.cram[idx] = value;
    }

    /// Read a 16-bit register.
    pub fn read_reg(&self, offset: u32) -> (r: u16)
        requires
            self.wf(),
        ensures
            r == spec_read_reg(self@, offset),
    {
        if offset == 0x0000 {
            self.display_control.bits()
        } else if offset == 0x0002 {
            self.display_status.bits()
        } else if offset == 0x0004 {
            self.v_count
        } else if offset == 0x0006 {
            self.h_count
        } else if offset == 0x0010 {
            self.bg0_control.bits()
        } else if offset == 0x0012 {
            self.bg0_scroll_x as u16
        } else if offset == 0x0014 {
            self.bg0_scroll_y as u16
        } else if offset == 0x0016 {
            self.bg0_affine[0] as u16
        } else if offset == 0x0018 {
            self.bg0_affine[1] as u16
        } else if offset == 0x001A {
            self.bg0_affine[2] as u16
        } else if offset == 0x001C {
            self.bg0_affine[3] as u16
        } else if offset == 0x001E {
            (self.bg0_ref_x % 65536) as u16
        } else if offset == 0x0020 {
            ((self.bg0_ref_x / 65536) % 256) as u16
        } else if offset == 0x0022 {
            (self.bg0_ref_y % 65536) as u16
        } else if offset == 0x0024 {
            ((self.bg0_ref_y / 65536) % 256) as u16
        } else if offset == 0x0026 {
            self.bg0_tilemap_addr as u16
        } else if offset == 0x0030 {
            self.bg1_control.bits()
        } else if offset == 0x0032 {
            self.bg1_scroll_x as u16
        } else if offset == 0x0034 {
            self.bg1_scroll_y as u16
        } else if offset == 0x0036 {
            self.bg1_tilemap_addr as u16
        } else if offset == 0x0050 {
            self.sprite_control.bits()
        } else if offset == 0x0052 {
            self.sprite_oam_addr
        } else if offset == 0x0070 {
            (self.dma_source % 65536) as u16
        } else if offset == 0x0072 {
            ((self.dma_source / 65536) % 256) as u16
        } else if offset == 0x0074 {
            (self.dma_dest % 65536) as u16
        } else if offset == 0x0076 {
            ((self.dma_dest / 65536) % 256) as u16
        } else if offset == 0x0078 {
            self.dma_length
        } else if offset == 0x007A {
            0
        } else if offset == 0x0080 {
            self.irq_enable.bits()
        } else if offset == 0x0082 {
            self.irq_status.bits()
        } else if offset == 0x0084 {
            self.irq_line_compare
        } else if offset == 0x0090 {
            self.palette_index as u16
        } else if offset == 0x0092 {
            self.palette_data as u16
        } else if offset == 0x0094 {
            self.backdrop_color
        } else {
            let idx = (offset as usize) % 256;
            if idx + 1 < 256 {
                self.regs[idx] as u16 + self.regs[idx + 1] as u16 * 256
            } else {
                0xFF
            }
        }
    }

    /// Write a 16-bit register.
    pub fn write_reg(&mut self, offset: u32, value: u16)
        requires
            old(self).wf(),
        ensures
            final(self).wf(),
            final(self)@ == spec_write_reg(old(self)@, offset, value),
    {
        if offset < 0x0016 {
            self.write_reg_disp(offset, value);
        } else if offset < 0x001E {
            self.write_reg_affine(offset, value);
        } else if offset < 0x0022 {
            self.write_reg_ref_x(offset, value);
        } else if offset < 0x0030 {
            self.write_reg_ref_y(offset, value);
        } else if offset < 0x0034 {
            self.write_reg_bg1_ctl(offset, value);
        } else if offset < 0x0050 {
            self.write_reg_bg1_map(offset, value);
        } else if offset < 0x0070 {
            self.write_reg_sprite(offset, value);
        } else if offset < 0x0074 {
            self.write_reg_dma_src(offset, value);
        } else if offset < 0x0080 {
            self.write_reg_dma_hi(offset, value);
        } else if offset < 0x0090 {
            self.write_reg_irq(offset, value);
        } else {
            self.write_reg_palette(offset, value);
        }
    }

    fn write_reg_raw(&mut self, offset: u32, value: u16)
        requires
            old(self).wf(),
        ensures
            final(self).wf(),
            final(self)@ == spec_write_reg_raw(old(self)@, offset, value),
    {
        let idx = (offset as usize) % 256;
        if idx + 1 < 256 {
            self.regs[idx] = (value % 256) as u8;
            self.regs[idx + 1] = (value / 256) as u8;
        }
    }

    #[verifier::spinoff_prover]
    #[verifier::rlimit(100)]
    fn write_reg_disp(&mut self, offset: u32, value: u16)
        requires
            old(self).wf(),
            offset < 0x0016,
        ensures
            final(self).wf(),
            final(self)@ == spec_write_reg_disp(old(self)@, offset, value),
    {
        if offset == 0x0000 {
            self.display_control = DisplayControl::from_bits_truncate(value);
        } else if offset == 0x0004 || offset == 0x0006 {
        } else if offset == 0x0010 {
            self.bg0_control = BgControl::from_bits_truncate(value);
        } else if offset == 0x0012 {
            self.bg0_scroll_x = value as i16;
        } else if offset == 0x0014 {
            self.bg0_scroll_y = value as i16;
        } else {
            self.write_reg_raw(offset, value);
        }
    }

    #[verifier::spinoff_prover]
    #[verifier::rlimit(100)]
    fn write_reg_affine(&mut self, offset: u32, value: u16)
        requires
            old(self).wf(),
            0x0016 <= offset < 0x001E,
        ensures
            final(self).wf(),
            final(self)@ == spec_write_reg_affine(old(self)@, offset, value),
    {
        if offset == 0x0016 {
            self.set_affine(0, value);
        } else if offset == 0x0018 {
            self.set_affine(1, value);
        } else if offset == 0x001A {
            self.set_affine(2, value);
        } else if offset == 0x001C {
            self.set_affine(3, value);
        } else {
            self.write_reg_raw(offset, value);
        }
    }

    #[verifier::spinoff_prover]
    #[verifier::rlimit(100)]
    fn write_reg_ref_x(&mut self, offset: u32, value: u16)
        requires
            old(self).wf(),
            0x001E <= offset < 0x0022,
        ensures
            final(self).wf(),
            final(self)@ == spec_write_reg_ref_x(old(self)@, offset, value),
    {
        if offset == 0x001E {
            Self::word24_set_lo(&mut self.bg0_ref_x, value);
        } else if offset == 0x0020 {
            Self::word24_set_hi(&mut self.bg0_ref_x, value);
        } else {
            self.write_reg_raw(offset, value);
        }
    }

    #[verifier::spinoff_prover]
    #[verifier::rlimit(100)]
    fn write_reg_ref_y(&mut self, offset: u32, value: u16)
        requires
            old(self).wf(),
            0x0022 <= offset < 0x0030,
        ensures
            final(self).wf(),
            final(self)@ == spec_write_reg_ref_y(old(self)@, offset, value),
    {
        if offset == 0x0022 {
            Self::word24_set_lo(&mut self.bg0_ref_y, value);
        } else if offset == 0x0024 {
            Self::word24_set_hi(&mut self.bg0_ref_y, value);
        } else if offset == 0x0026 {
            self.bg0_tilemap_addr = value as u32;
        } else {
            self.write_reg_raw(offset, value);
        }
    }

    #[verifier::spinoff_prover]
    #[verifier::rlimit(100)]
    fn write_reg_bg1_ctl(&mut self, offset: u32, value: u16)
        requires
            old(self).wf(),
            0x0030 <= offset < 0x0034,
        ensures
            final(self).wf(),
            final(self)@ == spec_write_reg_bg1_ctl(old(self)@, offset, value),
    {
        if offset == 0x0030 {
            self.bg1_control = BgControl::from_bits_truncate(value);
        } else if offset == 0x0032 {
            self.bg1_scroll_x = value as i16;
        } else {
            self.write_reg_raw(offset, value);
        }
    }

    #[verifier::spinoff_prover]
    #[verifier::rlimit(100)]
    fn write_reg_bg1_map(&mut self, offset: u32, value: u16)
        requires
            old(self).wf(),
            0x0034 <= offset < 0x0050,
        ensures
            final(self).wf(),
            final(self)@ == spec_write_reg_bg1_map(old(self)@, offset, value),
    {
        if offset == 0x0034 {
            self.bg1_scroll_y = value as i16;
        } else if offset == 0x0036 {
            self.bg1_tilemap_addr = value as u32;
        } else {
            self.write_reg_raw(offset, value);
        }
    }

    #[verifier::spinoff_prover]
    #[verifier::rlimit(100)]
    fn write_reg_sprite(&mut self, offset: u32, value: u16)
        requires
            old(self).wf(),
            0x0050 <= offset < 0x0070,
        ensures
            final(self).wf(),
            final(self)@ == spec_write_reg_sprite(old(self)@, offset, value),
    {
        if offset == 0x0050 {
            self.sprite_control = SpriteControl::from_bits_truncate(value);
        } else if offset == 0x0052 {
            self.sprite_oam_addr = value;
        } else {
            self.write_reg_raw(offset, value);
        }
    }

    #[verifier::spinoff_prover]
    #[verifier::rlimit(100)]
    fn write_reg_dma_src(&mut self, offset: u32, value: u16)
        requires
            old(self).wf(),
            0x0070 <= offset < 0x0074,
        ensures
            final(self).wf(),
            final(self)@ == spec_write_reg_dma_src(old(self)@, offset, value),
    {
        if offset == 0x0070 {
            Self::uword24_set_lo(&mut self.dma_source, value);
        } else if offset == 0x0072 {
            Self::uword24_set_hi(&mut self.dma_source, value);
        } else {
            self.write_reg_raw(offset, value);
        }
    }

    #[verifier::spinoff_prover]
    #[verifier::rlimit(100)]
    fn write_reg_dma_hi(&mut self, offset: u32, value: u16)
        requires
            old(self).wf(),
            0x0074 <= offset < 0x0080,
        ensures
            final(self).wf(),
            final(self)@ == spec_write_reg_dma_hi(old(self)@, offset, value),
    {
        if offset == 0x0074 {
            Self::uword24_set_lo(&mut self.dma_dest, value);
        } else if offset == 0x0076 {
            Self::uword24_set_hi(&mut self.dma_dest, value);
        } else if offset == 0x0078 {
            self.dma_length = value;
        } else if offset == 0x007A {
            if value >= 0x8000 {
                self.start_dma();
            }
        } else {
            self.write_reg_raw(offset, value);
        }
    }

    #[verifier::spinoff_prover]
    #[verifier::rlimit(100)]
    fn write_reg_irq(&mut self, offset: u32, value: u16)
        requires
            old(self).wf(),
            0x0080 <= offset < 0x0090,
        ensures
            final(self).wf(),
            final(self)@ == spec_write_reg_irq(old(self)@, offset, value),
    {
        if offset == 0x0080 {
            self.irq_enable = IrqFlags::from_bits_truncate(value);
        } else if offset == 0x0082 {
            let mask = IrqFlags::from_bits_truncate(value);
            self.irq_status = IrqFlags {
                hblank: self.irq_status.hblank && !mask.hblank,
                vblank: self.irq_status.vblank && !mask.vblank,
                linecmp: self.irq_status.linecmp && !mask.linecmp,
                dma_done: self.irq_status.dma_done && !mask.dma_done,
            };
        } else if offset == 0x0084 {
            self.irq_line_compare = value;
        } else {
            self.write_reg_raw(offset, value);
        }
    }

    #[verifier::spinoff_prover]
    #[verifier::rlimit(100)]
    fn write_reg_palette(&mut self, offset: u32, value: u16)
        requires
            old(self).wf(),
            offset >= 0x0090,
        ensures
            final(self).wf(),
            final(self)@ == spec_write_reg_palette(old(self)@, offset, value),
    {
        if offset == 0x0090 {
            self.palette_index = value as u8;
        } else if offset == 0x0092 {
            self.palette_data = value as u8;
            let idx = (self.palette_index as u32) * 3;
            let data = self.palette_data % 64;
            self.write_cram(idx, data);
        } else if offset == 0x0094 {
            self.backdrop_color = value;
            let r = (value % 64) as u8;
            let g = ((value / 64) % 64) as u8;
            let b = ((value / 4096) % 64) as u8;
            self.set_backdrop_color(r, g, b);
        } else {
            self.write_reg_raw(offset, value);
        }
    }

    /// Expand an RGB666 triple to a `0x00RRGGBB` pixel.
    fn rgb666_to_rgb888(r: u8, g: u8, b: u8) -> (c: u32)
        ensures
            c == rgb888(r, g, b),
    {
        let r6 = r % 64;
        let g6 = g % 64;
        let b6 = b % 64;
        let r8 = r6 * 4 + r6 / 16;
        let g8 = g6 * 4 + g6 / 16;
        let b8 = b6 * 4 + b6 / 16;
        (r8 as u32) * 65536 + (g8 as u32) * 256 + (b8 as u32)
    }

    /// The backdrop colour from the first CRAM triple.
    fn read_backdrop_color(&self) -> (c: u32)
        requires
            self.wf(),
        ensures
            c == backdrop_rgb(self@),
    {
        Self::rgb666_to_rgb888(self.cram[0], self.cram[1], self.cram[2])
    }

    /// Colour contributed by a scrolling tile layer at one screen pixel.
    #[verifier::spinoff_prover]
    #[verifier::rlimit(100)]
    fn bg_scroll_pixel_at(&self, base: u32, mw: u16, scx: i16, scy: i16, sx: u16, sy: u16) -> (r:
        Option<u32>)
        requires
            self.wf(),
            1 <= mw <= 128,
        ensures
            r == bg_pixel_scroll(self@.vram, self@.cram, base, mw, scx, scy, sx, sy),
    {
        proof {
            reveal(bg_pixel_scroll);
        }
        let world_x = sx.wrapping_add(scx as u16);
        let world_y = sy.wrapping_add(scy as u16);
        let tile_x = (world_x / 8) % mw;
        let tile_y = (world_y / 8) % mw;
        proof {
            lemma_tile_offset_bound(tile_x, tile_y, mw);
        }
        let tile_map_offset = (tile_y as u32 * mw as u32 + tile_x as u32) * 2;
        let tilemap_offset = base.wrapping_add(tile_map_offset);
        let entry = self.read_vram(tilemap_offset) as u16 + self.read_vram(
            tilemap_offset.wrapping_add(1),
        ) as u16 * 256;
        let tile_index = entry % 1024;
        let palette = ((entry / 4096) % 16) as u8;
        let flip_h = (entry / 1024) % 2 == 1;
        let flip_v = (entry / 2048) % 2 == 1;
        let px = if flip_h {
            7 - world_x % 8
        } else {
            world_x % 8
        };
        let py = if flip_v {
            7 - world_y % 8
        } else {
            world_y % 8
        };
        let tile_data_offset = tile_index as u32 * 64 + py as u32 * 8 + px as u32;
        let color_index = self.read_vram(tile_data_offset);
        if color_index != 0 {
            Some(self.palette_color(palette, color_index))
        } else {
            None
        }
    }

    /// Colour `ci` of the given palette.
    fn palette_color(&self, palette: u8, ci: u8) -> (c: u32)
        requires
            self.wf(),
        ensures
            c == pal_color(self@.cram, palette, ci),
    {
        let palette_offset = palette as u32 * 768 + ci as u32 * 3;
        let r = self.read_cram(palette_offset);
        let g = self.read_cram(palette_offset.wrapping_add(1));
        let b = self.read_cram(palette_offset.wrapping_add(2));
        Self::rgb666_to_rgb888(r, g, b)
    }

    /// Colour contributed by the affine BG0 layer at one screen pixel.
    #[verifier::spinoff_prover]
    #[verifier::rlimit(100)]
    fn bg0_affine_pixel_at(&self, sx: usize, sy: usize) -> (r: Option<u32>)
        requires
            self.wf(),
            sx < 384,
            sy < 288,
        ensures
            r == bg0_pixel_affine(self@, sx as int, sy as int),
    {
        proof {
            reveal(bg0_pixel_affine);
        }
        let dims = self.display_dimensions();
        let cx = (dims.0 / 2) as i32;
        let cy = (dims.1 / 2) as i32;
        let mw = self.bg0_control.map_width();
        let msz = mw as i32 * 8;
        let pa = self.bg0_affine[0] as i32;
        let pb = self.bg0_affine[1] as i32;
        let pc = self.bg0_affine[2] as i32;
        let pd = self.bg0_affine[3] as i32;
        let ref_sx = if self.bg0_ref_x >= 0x0080_0000 {
            self.bg0_ref_x - 0x0100_0000
        } else {
            self.bg0_ref_x
        };
        let ref_sy = if self.bg0_ref_y >= 0x0080_0000 {
            self.bg0_ref_y - 0x0100_0000
        } else {
            self.bg0_ref_y
        };
        let dx = sx as i32 - cx;
        let dy = sy as i32 - cy;
        proof {
            lemma_affine_term_bound(pa as int, pb as int, dx as int, dy as int);
            lemma_affine_term_bound(pc as int, pd as int, dx as int, dy as int);
        }
        let tx_prod = pa * dx + pb * dy;
        let ty_prod = pc * dx + pd * dy;
        proof {
            lemma_shr8_range(tx_prod);
            lemma_shr8_range(ty_prod);
        }
        let tex_x = ref_sx + (tx_prod >> 8u32);
        let tex_y = ref_sy + (ty_prod >> 8u32);
        proof {
            lemma_shr8_range(tex_x);
            lemma_shr8_range(tex_y);
        }
        let pixel_x = tex_x >> 8u32;
        let pixel_y = tex_y >> 8u32;
        if self.bg0_control.wraparound {
            let px = match pixel_x.checked_rem_euclid(msz) {
                Some(r) => r,
                None => 0,
            };
            let py = match pixel_y.checked_rem_euclid(msz) {
                Some(r) => r,
                None => 0,
            };
            self.bg0_affine_texel_at(mw, px as u32, py as u32)
        } else {
            if pixel_x < 0 || pixel_x >= msz || pixel_y < 0 || pixel_y >= msz {
                None
            } else {
                self.bg0_affine_texel_at(mw, pixel_x as u32, pixel_y as u32)
            }
        }
    }

    /// Texel of the affine layer at map coordinates `(px, py)`.
    #[verifier::spinoff_prover]
    #[verifier::rlimit(100)]
    fn bg0_affine_texel_at(&self, mw: u16, px: u32, py: u32) -> (r: Option<u32>)
        requires
            self.wf(),
            1 <= mw <= 128,
            px < mw as u32 * 8,
            py < mw as u32 * 8,
        ensures
            r == bg0_affine_texel(
                self@.vram,
                self@.cram,
                self@.bg0_tilemap_addr,
                mw,
                px as int,
                py as int,
            ),
    {
        let tile_x = px / 8;
        let tile_y = py / 8;
        proof {
            lemma_div8_bound(px, mw);
            lemma_div8_bound(py, mw);
            lemma_tile_offset_bound(tile_x as u16, tile_y as u16, mw);
        }
        let tile_map_offset = (tile_y * mw as u32 + tile_x) * 2;
        let tilemap_offset = self.bg0_tilemap_addr.wrapping_add(tile_map_offset);
        let entry = self.read_vram(tilemap_offset) as u16 + self.read_vram(
            tilemap_offset.wrapping_add(1),
        ) as u16 * 256;
        let tile_index = entry % 1024;
        let palette = ((entry / 4096) % 16) as u8;
        let tile_data_offset = tile_index as u32 * 64 + (py % 8) * 8 + px % 8;
        let color_index = self.read_vram(tile_data_offset);
        if color_index != 0 {
            Some(self.palette_color(palette, color_index))
        } else {
            None
        }
    }

    /// Render the BG0 layer, affine or scrolling by its control bits,
    /// over the current framebuffer.
    #[verifier::spinoff_prover]
    #[verifier::rlimit(100)]
    fn render_bg0(&mut self)
        requires
            old(self).wf(),
        ensures
            final(self).wf(),
            final(self)@ == (VdpV {
                framebuffer: apply_bg0(old(self)@, old(self)@.framebuffer),
                ..old(self)@
            }),
    {
        let ghost v0 = self@;
        let ghost fb0 = self@.framebuffer;
        if !self.bg0_control.enable {
            return ;
        }
        let dims = self.display_dimensions();
        let width = dims.0;
        let height = dims.1;
        let affine = self.bg0_control.affine;
        let scroll_x = self.bg0_scroll_x;
        let scroll_y = self.bg0_scroll_y;
        let mw = self.bg0_control.map_width();
        let base = self.bg0_tilemap_addr;
        let len = self.framebuffer.len();
        let mut nfb: Vec<u32> = Vec::new();
        let mut idx: usize = 0;
        while idx < len
            invariant
                idx <= len,
                len == fb0.len(),
                self.wf(),
                self@ == v0,
                fb0 == v0.framebuffer,
                v0.bg0_control.enable,
                affine == v0.bg0_control.affine,
                width == spec_dims(v0.display_control).0,
                height == spec_dims(v0.display_control).1,
                scroll_x == v0.bg0_scroll_x,
                scroll_y == v0.bg0_scroll_y,
                mw == bg_map_width(v0.bg0_control),
                base == v0.bg0_tilemap_addr,
                nfb@.len() == idx,
                forall|j: int| 0 <= j < idx ==> nfb@[j] == (if j < width * height {
                    bg0_pix(v0, fb0, j)
                } else {
                    fb0[j]
                }),
            decreases len - idx,
        {
            if idx < width * height {
                proof {
                    lemma_flat_index(idx as int, width as int, height as int);
                }
                let sx = idx % width;
                let sy = idx / width;
                let pix = if affine {
                    self.bg0_affine_pixel_at(sx, sy)
                } else {
                    self.bg_scroll_pixel_at(base, mw, scroll_x, scroll_y, sx as u16, sy as u16)
                };
                match pix {
                    Some(color) => {
                        nfb.push(color);
                    },
                    None => {
                        nfb.push(self.framebuffer[idx]);
                    },
                }
                proof {
                    assert(nfb@[idx as int] == bg0_pix(v0, fb0, idx as int));
                }
            } else {
                nfb.push(self.framebuffer[idx]);
            }
            idx = idx + 1;
        }
        self.framebuffer = nfb;
        proof {
            assert(self@.framebuffer =~= apply_bg0(v0, fb0));
        }
    }

    /// Render the scrolling layer BG1 over the current framebuffer.
    #[verifier::spinoff_prover]
    #[verifier::rlimit(100)]
    fn render_bg1(&mut self)
        requires
            old(self).wf(),
        ensures
            final(self).wf(),
            final(self)@ == (VdpV {
                framebuffer: apply_bg1(old(self)@, old(self)@.framebuffer),
                ..old(self)@
            }),
    {
        let ghost v0 = self@;
        let ghost fb0 = self@.framebuffer;
        if !self.bg1_control.enable {
            return ;
        }
        let dims = self.display_dimensions();
        let width = dims.0;
        let height = dims.1;
        let scroll_x = self.bg1_scroll_x;
        let scroll_y = self.bg1_scroll_y;
        let mw = self.bg1_control.map_width();
        let base = self.bg1_tilemap_addr;
        let len = self.framebuffer.len();
        let mut nfb: Vec<u32> = Vec::new();
        let mut idx: usize = 0;
        while idx < len
            invariant
                idx <= len,
                len == fb0.len(),
                self.wf(),
                self@ == v0,
                fb0 == v0.framebuffer,
                v0.bg1_control.enable,
                width == spec_dims(v0.display_control).0,
                height == spec_dims(v0.display_control).1,
                scroll_x == v0.bg1_scroll_x,
                scroll_y == v0.bg1_scroll_y,
                mw == bg_map_width(v0.bg1_control),
                base == v0.bg1_tilemap_addr,
                nfb@.len() == idx,
                forall|j: int| 0 <= j < idx ==> nfb@[j] == (if j < width * height {
                    bg1_pix(v0, fb0, j)
                } else {
                    fb0[j]
                }),
            decreases len - idx,
        {
            if idx < width * height {
                proof {
                    lemma_flat_index(idx as int, width as int, height as int);
                }
                let sx = (idx % width) as u16;
                let sy = (idx / width) as u16;
                let pix = self.bg_scroll_pixel_at(base, mw, scroll_x, scroll_y, sx, sy);
                match pix {
                    Some(color) => {
                        nfb.push(color);
                    },
                    None => {
                        nfb.push(self.framebuffer[idx]);
                    },
                }
                proof {
                    assert(nfb@[idx as int] == bg1_pix(v0, fb0, idx as int));
                }
            } else {
                nfb.push(self.framebuffer[idx]);
            }
            idx = idx + 1;
        }
        self.framebuffer = nfb;
        proof {
            assert(self@.framebuffer =~= apply_bg1(v0, fb0));
        }
    }

    /// Collect the enabled sprites by ascending priority, ties in OAM
    /// order.
    #[verifier::spinoff_prover]
    #[verifier::rlimit(100)]
    fn build_sprite_order(&self) -> (order: Vec<usize>)
        requires
            self.wf(),
        ensures
            order@ == sprite_order(self@.oam),
    {
        let ghost v0 = self@;
        let mut order: Vec<usize> = Vec::new();
        let mut p: u8 = 0;
        while p < 4
            invariant
                p <= 4,
                self.wf(),
                v0 == self@,
                order@ == sprite_order_upto(v0.oam, p as int),
            decreases 4 - p,
        {
            let mut i: usize = 0;
            proof {
                assert(order@ =~= sprite_order_upto(v0.oam, p as int) + enabled_with_prio(
                    v0.oam,
                    p,
                    0,
                ));
            }
            while i < OAM_SPRITES
                invariant
                    i <= OAM_SPRITES,
                    p < 4,
                    self.wf(),
                    v0 == self@,
                    order@ == sprite_order_upto(v0.oam, p as int) + enabled_with_prio(
                        v0.oam,
                        p,
                        i as int,
                    ),
                decreases OAM_SPRITES - i,
            {
                let sp = self.oam[i];
                if sp.is_enabled() && sp.priority() == p {
                    order.push(i);
                }
                i = i + 1;
                proof {
                    assert(order@ =~= sprite_order_upto(v0.oam, p as int) + enabled_with_prio(
                        v0.oam,
                        p,
                        i as int,
                    ));
                }
            }
            p = p + 1;
        }
        order
    }

    /// True when any scanline in `[y_start, y_end)` has reached the
    /// 64-sprite cap.
    fn scanline_limited(counts: &Vec<u8>, y_start: usize, y_end: usize) -> (r: bool)
        requires
            y_end <= counts@.len(),
        ensures
            r == exists|y: int| y_start <= y < y_end && #[trigger] counts@[y] >= 64,
    {
        let mut y = y_start;
        while y < y_end
            invariant
                y_start <= y,
                y <= y_end || y == y_start,
                y_end <= counts@.len(),
                forall|k: int| y_start <= k < y ==> #[trigger] counts@[k] < 64,
            decreases y_end - y,
        {
            if counts[y] >= 64 {
                return true;
            }
            y = y + 1;
        }
        false
    }

    /// Render the enabled sprites over the current framebuffer, lowest
    /// priority value first, ties in OAM order, under the per-scanline
    /// cap.
    #[verifier::spinoff_prover]
    #[verifier::rlimit(100)]
    fn render_sprites(&mut self)
        requires
            old(self).wf(),
        ensures
            final(self).wf(),
            final(self)@ == (VdpV {
                framebuffer: apply_sprites(old(self)@, old(self)@.framebuffer),
                ..old(self)@
            }),
    {
        let ghost v0 = self@;
        let ghost fb0 = self@.framebuffer;
        let dims = self.display_dimensions();
        let width = dims.0;
        let height = dims.1;
        let order = self.build_sprite_order();
        proof {
            lemma_order_bounds(v0.oam, 4);
        }
        let mut counts: Vec<u8> = vec![0u8; height];
        let ghost counts0 = counts@;
        proof {
            assert(counts0 =~= Seq::new(spec_dims(v0.display_control).1 as nat, |i: int| 0u8));
        }
        let mut k: usize = 0;
        while k < order.len()
            invariant
                k <= order@.len(),
                order@ == sprite_order(v0.oam),
                counts0 == Seq::new(spec_dims(v0.display_control).1 as nat, |i: int| 0u8),
                width == spec_dims(v0.display_control).0,
                height == spec_dims(v0.display_control).1,
                fb0.len() == NATIVE_WIDTH * NATIVE_HEIGHT,
                self.wf(),
                self@ == (VdpV { framebuffer: self@.framebuffer, ..v0 }),
                self@.framebuffer == paint_list(v0, fb0, counts0, order@, k as int).0,
                counts@ == paint_list(v0, fb0, counts0, order@, k as int).1,
            decreases order@.len() - k,
        {
            proof {
                lemma_order_bounds(v0.oam, 4);
                lemma_paint_list_len(v0, fb0, counts0, order@, k as int);
            }
            let si = order[k];
            let sp = self.oam[si];
            self.paint_sprite_exec(Ghost(v0), Ghost(fb0), &mut counts, sp, width, height);
            k = k + 1;
            proof {
                assert(self@.framebuffer == paint_list(v0, fb0, counts0, order@, k as int).0);
                assert(counts@ == paint_list(v0, fb0, counts0, order@, k as int).1);
            }
        }
        proof {
            assert(self@.framebuffer == apply_sprites(v0, fb0));
        }
    }

    /// Paint one sprite pixel where it lands on screen and is opaque.
    #[verifier::spinoff_prover]
    #[verifier::rlimit(100)]
    fn paint_pixel(
        &mut self,
        Ghost(v0): Ghost<VdpV>,
        sp: SpriteAttr,
        ry: u16,
        rx: u16,
        width: usize,
        height: usize,
    )
        requires
            old(self).wf(),
            old(self)@ == (VdpV { framebuffer: old(self)@.framebuffer, ..v0 }),
            width == spec_dims(v0.display_control).0,
            height == spec_dims(v0.display_control).1,
            old(self)@.framebuffer.len() == NATIVE_WIDTH * NATIVE_HEIGHT,
            ry < sprite_side(sp),
            rx < sprite_side(sp),
            wadd16(sp.y_pos, ry) < height,
        ensures
            final(self).wf(),
            final(self)@ == (VdpV {
                framebuffer: paint_one(v0, old(self)@.framebuffer, sp, ry, rx),
                ..old(self)@
            }),
    {
        proof {
            reveal(paint_one);
        }
        let side = sp.size().dimensions().0;
        let screen_y = sp.y_pos.wrapping_add(ry) as usize;
        let screen_x = sp.x_pos.wrapping_add(rx) as usize;
        if screen_x < width {
            let px = if sp.flip_h() {
                side - 1 - rx
            } else {
                rx
            };
            let py = if sp.flip_v() {
                side - 1 - ry
            } else {
                ry
            };
            let tiles_per_row = side / 8;
            let tile_offset = (py / 8) * tiles_per_row + px / 8;
            let tile_index = sp.tile_index.wrapping_add(tile_offset);
            let tile_data_offset = tile_index as u32 * 64 + (py % 8) as u32 * 8 + (px % 8) as u32;
            let color_index = self.read_vram(tile_data_offset);
            if color_index != 0 {
                let color = self.palette_color(sp.palette(), color_index);
                proof {
                    lemma_pixel_index(screen_x as int, screen_y as int, width as int, height as int);
                    assert(width * height <= NATIVE_WIDTH * NATIVE_HEIGHT);
                }
                let fb_offset = screen_y * width + screen_x;
                self.framebuffer[fb_offset] = color;
            }
        }
    }

    /// Paint one sprite, raising the scanline counts of the rows it
    /// covers, unless it is skipped.
    #[verifier::spinoff_prover]
    #[verifier::rlimit(100)]
    fn paint_sprite_exec(
        &mut self,
        Ghost(v0): Ghost<VdpV>,
        Ghost(fb0): Ghost<Seq<u32>>,
        counts: &mut Vec<u8>,
        sp: SpriteAttr,
        width: usize,
        height: usize,
    )
        requires
            old(self).wf(),
            old(self)@ == (VdpV { framebuffer: old(self)@.framebuffer, ..v0 }),
            width == spec_dims(v0.display_control).0,
            height == spec_dims(v0.display_control).1,
            old(counts)@.len() == height,
            old(self)@.framebuffer.len() == NATIVE_WIDTH * NATIVE_HEIGHT,
        ensures
            final(self).wf(),
            final(self)@ == (VdpV {
                framebuffer: paint_sprite(v0, old(self)@.framebuffer, old(counts)@, sp).0,
                ..old(self)@
            }),
            final(counts)@ == paint_sprite(v0, old(self)@.framebuffer, old(counts)@, sp).1,
    {
        let ghost fbk = self@.framebuffer;
        let ghost ck = counts@;
        let dims2 = sp.size().dimensions();
        let side = dims2.0;
        let mut skip = false;
        if sp.x_pos >= width as u16 && sp.x_pos < 512 {
            skip = true;
        }
        if sp.y_pos >= height as u16 && sp.y_pos < 512 {
            skip = true;
        }
        if !skip {
            let y_start = if sp.y_pos < height as u16 {
                sp.y_pos as usize
            } else {
                height
            };
            let ye_raw = sp.y_pos.wrapping_add(side);
            let y_end = if ye_raw < height as u16 {
                ye_raw as usize
            } else {
                height
            };
            skip = Self::scanline_limited(counts, y_start, y_end);
        }
        proof {
            assert(skip == spec_skip_sprite(v0, ck, sp));
        }
        if skip {
            return ;
        }
        let mut ry: u16 = 0;
        while ry < side
            invariant
                ry <= side,
                side == sprite_side(sp),
                width == spec_dims(v0.display_control).0,
                height == spec_dims(v0.display_control).1,
                fbk.len() == NATIVE_WIDTH * NATIVE_HEIGHT,
                ck.len() == height,
                self.wf(),
                self@ == (VdpV { framebuffer: self@.framebuffer, ..v0 }),
                self@.framebuffer == paint_rows(v0, fbk, ck, sp, ry as int).0,
                counts@ == paint_rows(v0, fbk, ck, sp, ry as int).1,
            decreases side - ry,
        {
            proof {
                lemma_paint_rows_len(v0, fbk, ck, sp, ry as int);
            }
            let screen_y = sp.y_pos.wrapping_add(ry) as usize;
            if screen_y < height {
                if counts[screen_y] < 64 {
                    let c = counts[screen_y];
                    counts[screen_y] = c + 1;
                }
                let ghost fb_row = self@.framebuffer;
                let mut rx: u16 = 0;
                while rx < side
                    invariant
                        rx <= side,
                        ry < side,
                        side == sprite_side(sp),
                        screen_y == wadd16(sp.y_pos, ry) as int,
                        screen_y < height,
                        width == spec_dims(v0.display_control).0,
                        height == spec_dims(v0.display_control).1,
                        fb_row.len() == NATIVE_WIDTH * NATIVE_HEIGHT,
                        self.wf(),
                        self@ == (VdpV { framebuffer: self@.framebuffer, ..v0 }),
                        self@.framebuffer == paint_cols(v0, fb_row, sp, ry, rx as int),
                    decreases side - rx,
                {
                    proof {
                        lemma_paint_cols_len(v0, fb_row, sp, ry, rx as int);
                    }
                    self.paint_pixel(Ghost(v0), sp, ry, rx, width, height);
                    rx = rx + 1;
                    proof {
                        assert(self@.framebuffer == paint_cols(v0, fb_row, sp, ry, rx as int));
                    }
                }
            }
            ry = ry + 1;
            proof {
                assert(self@.framebuffer == paint_rows(v0, fbk, ck, sp, ry as int).0);
                assert(counts@ == paint_rows(v0, fbk, ck, sp, ry as int).1);
            }
        }
    }

    /// Store one affine matrix parameter.
    fn set_affine(&mut self, i: usize, value: u16)
        requires
            old(self).wf(),
            i < 4,
        ensures
            final(self).wf(),
            final(self)@ == (VdpV {
                bg0_affine: old(self)@.bg0_affine.update(i as int, value as i16),
                ..old(self)@
            }),
    {
        self.bg0_affine[i] = value as i16;
    }

    /// Store the low word of a 24-bit reference register.
    fn word24_set_lo(reg: &mut i32, value: u16)
        requires
            0 <= *old(reg) < 0x0100_0000,
        ensures
            *final(reg) == ((*old(reg) / 65536) * 65536 + value) as i32,
            0 <= *final(reg) < 0x0100_0000,
    {
        *reg = (*reg / 65536) * 65536 + value as i32;
    }

    /// Store the high byte of a 24-bit reference register.
    fn word24_set_hi(reg: &mut i32, value: u16)
        requires
            0 <= *old(reg) < 0x0100_0000,
        ensures
            *final(reg) == (*old(reg) % 65536 + (value % 256) * 65536) as i32,
            0 <= *final(reg) < 0x0100_0000,
    {
        *reg = *reg % 65536 + (value as i32 % 256) * 65536;
    }

    /// Store the low word of a 24-bit DMA address.
    fn uword24_set_lo(reg: &mut u32, value: u16)
        requires
            *old(reg) < 0x0100_0000,
        ensures
            *final(reg) == ((*old(reg) / 65536) * 65536 + value) as u32,
            *final(reg) < 0x0100_0000,
    {
        *reg = (*reg / 65536) * 65536 + value as u32;
    }

    /// Store the high byte of a 24-bit DMA address.
    fn uword24_set_hi(reg: &mut u32, value: u16)
        requires
            *old(reg) < 0x0100_0000,
        ensures
            *final(reg) == (*old(reg) % 65536 + (value % 256) * 65536) as u32,
            *final(reg) < 0x0100_0000,
    {
        *reg = *reg % 65536 + (value as u32 % 256) * 65536;
    }

    /// Run the immediate DMA transfer protocol for a control write with
    /// the trigger bit set.
    fn start_dma(&mut self)
        requires
            old(self).wf(),
        ensures
            final(self).wf(),
            final(self)@ == spec_start_dma(old(self)@),
    {
        self.dma_active = true;
        self.display_status.dma_busy = true;
        self.irq_status.dma_done = true;
        self.dma_active = false;
        self.display_status.dma_busy = false;
    }

    /// Render one frame: clear to the backdrop colour, then BG1, BG0 and
    /// sprites in that order.
    #[verifier::spinoff_prover]
    #[verifier::rlimit(100)]
    fn render_frame(&mut self)
        requires
            old(self).wf(),
        ensures
            final(self).wf(),
            final(self)@ == (VdpV { framebuffer: spec_render_frame(old(self)@), ..old(self)@ }),
    {
        let ghost v0 = self@;
        let backdrop = self.read_backdrop_color();
        let len = self.framebuffer.len();
        self.framebuffer = vec![backdrop; len];
        proof {
            assert(self@.framebuffer =~= Seq::new(v0.framebuffer.len(), |i: int| backdrop_rgb(v0)));
        }
        if self.display_control.bg1_enable {
            self.render_bg1();
        }
        if self.display_control.bg0_enable {
            self.render_bg0();
        }
        if self.display_control.sprite_enable {
            self.render_sprites();
        }
    }

    /// Advance the VDP by `cycles`: the counters are derived from the
    /// accumulator, the blank bits recomputed, and on the rising edge
    /// into the vertical blank the frame counter advances and, with the
    /// display enabled, a frame is rendered.  Returns exactly that
    /// rising edge.
    #[verifier::spinoff_prover]
    #[verifier::rlimit(100)]
    pub fn step(&mut self, cycles: u64) -> (entered_vblank: bool)
        requires
            old(self).wf(),
        ensures
            final(self).wf(),
            (final(self)@, entered_vblank) == spec_vdp_step(old(self)@, cycles),
    {
        let old_v = self.v_count;
        self.cycles = self.cycles.wrapping_add(cycles);
        let scanline_cycles = self.cycles / CYCLES_PER_SCANLINE;
        self.v_count = (scanline_cycles % (SCANLINES_PER_FRAME as u64)) as u16;
        self.h_count = (self.cycles % CYCLES_PER_SCANLINE) as u16;
        self.display_status.vblank = self.v_count >= VBLANK_START;
        self.display_status.hblank = self.h_count >= 768;
        let entered_vblank = old_v < VBLANK_START && self.v_count >= VBLANK_START;
        if entered_vblank {
            self.frame_count = self.frame_count.wrapping_add(1);
            if self.display_control.enable {
                self.render_frame();
            }
        }
        entered_vblank
    }

    /// Current display dimensions selected by the mode bits.
    pub fn display_dimensions(&self) -> (r: (usize, usize))
        ensures
            r.0 == spec_dims(self@.display_control).0,
            r.1 == spec_dims(self@.display_control).1,
    {
        if self.display_control.mode_320 {
            (MODE_320_WIDTH, MODE_320_HEIGHT)
        } else if self.display_control.mode_256 {
            (MODE_256_WIDTH, MODE_256_HEIGHT)
        } else {
            (NATIVE_WIDTH, NATIVE_HEIGHT)
        }
    }

    /// The rendered frame, one `0x00RRGGBB` pixel per cell.
    pub fn framebuffer(&self) -> (r: &Vec<u32>)
        ensures
            r@ == self@.framebuffer,
    {
        &self.framebuffer
    }

    pub fn in_vblank(&self) -> (r: bool)
        ensures
            r == self@.display_status.vblank,
    {
        self.display_status.vblank
    }

    pub fn in_hblank(&self) -> (r: bool)
        ensures
            r == self@.display_status.hblank,
    {
        self.display_status.hblank
    }

    pub fn scanline(&self) -> (r: u16)
        ensures
            r == self@.v_count,
    {
        self.v_count
    }

    pub fn frame_count(&self) -> (r: u64)
        ensures
            r == self@.frame_count,
    {
        self.frame_count
    }

    /// The display control register as named flags.
    pub fn display_control(&self) -> (r: DisplayControl)
        ensures
            r == self@.display_control,
    {
        self.display_control
    }

    /// The BG0 control register as named flags.
    pub fn bg0_control(&self) -> (r: BgControl)
        ensures
            r == self@.bg0_control,
    {
        self.bg0_control
    }

    /// One of the four BG0 affine parameters.
    pub fn bg0_affine(&self, i: usize) -> (r: i16)
        requires
            i < 4,
        ensures
            r == self@.bg0_affine[i as int],
    {
        self.bg0_affine[i]
    }

    pub fn bg0_ref_x(&self) -> (r: i32)
        ensures
            r == self@.bg0_ref_x,
    {
        self.bg0_ref_x
    }

    pub fn bg0_ref_y(&self) -> (r: i32)
        ensures
            r == self@.bg0_ref_y,
    {
        self.bg0_ref_y
    }

    pub fn bg0_tilemap_addr(&self) -> (r: u32)
        ensures
            r == self@.bg0_tilemap_addr,
    {
        self.bg0_tilemap_addr
    }

    /// Select the display mode by its dimensions; anything but the two
    /// reduced modes selects native 384x288.
    #[verifier::spinoff_prover]
    #[verifier::rlimit(100)]
    pub fn set_display_mode(&mut self, width: usize, height: usize)
        requires
            old(self).wf(),
        ensures
            final(self).wf(),
            final(self)@ == (VdpV {
                display_control: DisplayControl {
                    mode_320: width == 320 && height == 240,
                    mode_256: width == 256 && height == 224,
                    ..old(self)@.display_control
                },
                ..old(self)@
            }),
    {
        self.display_control = DisplayControl {
            mode_320: width == 320 && height == 240,
            mode_256: width == 256 && height == 224,
            ..self.display_control
        };
    }

    /// Enable or disable the three layers.
    #[verifier::spinoff_prover]
    #[verifier::rlimit(100)]
    pub fn set_layer_enable(&mut self, bg0: bool, bg1: bool, sprites: bool)
        requires
            old(self).wf(),
        ensures
            final(self).wf(),
            final(self)@ == (VdpV {
                display_control: DisplayControl {
                    bg0_enable: bg0,
                    bg1_enable: bg1,
                    sprite_enable: sprites,
                    ..old(self)@.display_control
                },
                ..old(self)@
            }),
    {
        self.display_control.bg0_enable = bg0;
        self.display_control.bg1_enable = bg1;
        self.display_control.sprite_enable = sprites;
    }

    /// Enable or disable the master display.
    #[verifier::spinoff_prover]
    #[verifier::rlimit(100)]
    pub fn set_display_enable(&mut self, enable: bool)
        requires
            old(self).wf(),
        ensures
            final(self).wf(),
            final(self)@ == (VdpV {
                display_control: DisplayControl { enable: enable, ..old(self)@.display_control },
                ..old(self)@
            }),
    {
        self.display_control.enable = enable;
    }

    /// OAM entry by index.
    pub fn get_sprite(&self, index: usize) -> (r: Option<&SpriteAttr>)
        requires
            self.wf(),
        ensures
            index < OAM_SPRITES ==> r is Some && *r->Some_0 == self@.oam[index as int],
            index >= OAM_SPRITES ==> r is None,
    {
        if index < self.oam.len() {
            Some(&self.oam[index])
        } else {
            None
        }
    }

    /// Set an OAM entry by index; out-of-range indices are ignored.
    #[verifier::spinoff_prover]
    #[verifier::rlimit(100)]
    pub fn set_sprite(&mut self, index: usize, sprite: SpriteAttr)
        requires
            old(self).wf(),
        ensures
            final(self).wf(),
            index < OAM_SPRITES ==> final(self)@ == (VdpV {
                oam: old(self)@.oam.update(index as int, sprite),
                ..old(self)@
            }),
            index >= OAM_SPRITES ==> final(self)@ == old(self)@,
    {
        if index < self.oam.len() {
            self.oam[index] = sprite;
        }
    }

    /// Load bytes into VRAM starting at `offset`, wrapping as `write_vram`
    /// does.
    #[verifier::spinoff_prover]
    #[verifier::rlimit(100)]
    pub fn load_tile_data(&mut self, offset: u32, data: &[u8])
        requires
            old(self).wf(),
        ensures
            final(self).wf(),
            final(self)@ == (VdpV {
                vram: spec_load_bytes(old(self)@.vram, offset, data@, data@.len() as int),
                ..old(self)@
            }),
    {
        let mut i: usize = 0;
        while i < data.len()
            invariant
                i <= data@.len(),
                self.wf(),
                self@ == (VdpV {
                    vram: spec_load_bytes(old(self)@.vram, offset, data@, i as int),
                    ..old(self)@
                }),
            decreases data@.len() - i,
        {
            self.write_vram(offset.wrapping_add(i as u32), data[i]);
            i = i + 1;
        }
    }

    /// Load RGB666 triples into the given palette; channels are truncated
    /// to 6 bits.
    #[verifier::spinoff_prover]
    #[verifier::rlimit(100)]
    pub fn load_palette(&mut self, palette_index: u8, colors: &[(u8, u8, u8)])
        requires
            old(self).wf(),
        ensures
            final(self).wf(),
            final(self)@ == (VdpV {
                cram: spec_load_palette(old(self)@.cram, palette_index, colors@, colors@.len() as int),
                ..old(self)@
            }),
    {
        let offset = palette_index as u32 * 768;
        let mut i: usize = 0;
        while i < colors.len()
            invariant
                i <= colors@.len(),
                offset == palette_index as u32 * 768,
                self.wf(),
                self@ == (VdpV {
                    cram: spec_load_palette(old(self)@.cram, palette_index, colors@, i as int),
                    ..old(self)@
                }),
            decreases colors@.len() - i,
        {
            let (r, g, b) = colors[i];
            let color_offset = offset.wrapping_add((i as u32).wrapping_mul(3));
            self.write_cram(color_offset, r % 64);
            self.write_cram(color_offset.wrapping_add(1), g % 64);
            self.write_cram(color_offset.wrapping_add(2), b % 64);
            i = i + 1;
        }
    }

    /// Set the backdrop colour, the RGB666 triple at the start of CRAM.
    #[verifier::spinoff_prover]
    #[verifier::rlimit(100)]
    pub fn set_backdrop_color(&mut self, r: u8, g: u8, b: u8)
        requires
            old(self).wf(),
        ensures
            final(self).wf(),
            final(self)@ == (VdpV {
                cram: old(self)@.cram.update(0, r % 64).update(1, g % 64).update(2, b % 64),
                ..old(self)@
            }),
    {
        self.cram[0] = r % 64;
        self.cram[1] = g % 64;
        self.cram[2] = b % 64;
    }
}

/// The first `n` bytes of `data` written into `vram` from `offset` on,
/// wrapping at the region size.
pub open spec fn spec_load_bytes(vram: Seq<u8>, offset: u32, data: Seq<u8>, n: int) -> Seq<u8>
    recommends
        vram.len() == VRAM_SIZE,
        n <= data.len(),
    decreases n,
{
    if n <= 0 {
        vram
    } else {
        spec_load_bytes(vram, offset, data, n - 1).update(
            (wadd(offset, (n - 1) as u32) as int) % (VRAM_SIZE as int),
            data[n - 1],
        )
    }
}

/// The first `n` colour triples of `colors` written into the palette at
/// `palette_index`, channels truncated to 6 bits.
pub open spec fn spec_load_palette(
    cram: Seq<u8>,
    palette_index: u8,
    colors: Seq<(u8, u8, u8)>,
    n: int,
) -> Seq<u8>
    recommends
        cram.len() == CRAM_SIZE,
        n <= colors.len(),
    decreases n,
{
    if n <= 0 {
        cram
    } else {
        let off = wadd((palette_index as u32 * 768) as u32, vstd::wrapping::u32_specs::wrapping_mul((n - 1) as u32, 3));
        let c = colors[n - 1];
        spec_load_palette(cram, palette_index, colors, n - 1).update(
            (off as int) % (CRAM_SIZE as int),
            c.0 % 64,
        ).update((wadd(off, 1) as int) % (CRAM_SIZE as int), c.1 % 64).update(
            (wadd(off, 2) as int) % (CRAM_SIZE as int),
            c.2 % 64,
        )
    }
}

/// Stepping one scanline's worth of cycles advances the vertical counter
/// by one, and no vertical blank is reported while the counter stays
/// short of the blank region.
pub proof fn lemma_step_advances_scanline(v: VdpV)
    requires
        vdp_wf(v),
        v.cycles + CYCLES_PER_SCANLINE <= u64::MAX,
        v.v_count + 1 < VBLANK_START,
    ensures
        spec_vdp_step(v, CYCLES_PER_SCANLINE).0.v_count == v.v_count + 1,
        !spec_vdp_step(v, CYCLES_PER_SCANLINE).1,
{
    let c = v.cycles;
    assert((c + 1024) as u64 / 1024 == c / 1024 + 1 && (c + 1024) as u64 % 1024 == c % 1024)
        by (nonlinear_arith)
        requires
            c + 1024 <= u64::MAX,
    ;
    let d = c / 1024;
    assert(d < 0xFFFF_FFFF_FFFF_FFFFu64) by (nonlinear_arith)
        requires
            d == c / 1024 && c <= u64::MAX - 1024,
    ;
    assert((d + 1) as u64 % 288 == d % 288 + 1) by (nonlinear_arith)
        requires
            d % 288 < 287 && d < 0xFFFF_FFFF_FFFF_FFFFu64,
    ;
}

/// A step reports the vertical blank exactly on the rising edge across
/// the blank line, and the frame counter advances exactly then: once per
/// frame.
pub proof fn lemma_vblank_once_per_frame(v: VdpV, cycles: u64)
    requires
        vdp_wf(v),
    ensures
        spec_vdp_step(v, cycles).1 == (v.v_count < VBLANK_START && spec_vdp_step(
            v,
            cycles,
        ).0.v_count >= VBLANK_START),
        spec_vdp_step(v, cycles).0.frame_count == (if spec_vdp_step(v, cycles).1 {
            vstd::wrapping::u64_specs::wrapping_add(v.frame_count, 1)
        } else {
            v.frame_count
        }),
{
}

/// With no layer enabled, a rendered frame is the backdrop colour in
/// every pixel.
pub proof fn lemma_blank_frame_is_backdrop(v: VdpV)
    requires
        vdp_wf(v),
        !v.display_control.bg0_enable,
        !v.display_control.bg1_enable,
        !v.display_control.sprite_enable,
    ensures
        spec_render_frame(v).len() == v.framebuffer.len(),
        forall|i: int|
            0 <= i < v.framebuffer.len() ==> #[trigger] spec_render_frame(v)[i] == backdrop_rgb(v),
{
}

} // verus!
