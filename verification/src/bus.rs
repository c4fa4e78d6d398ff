//! 24-bit system bus with the full Nexel-24 memory map.
//!
//! Every access masks its address to 24 bits and is routed, first match
//! wins, in the order WorkRAM, ExpandedRAM, I/O, VRAM, CRAM, cartridge
//! ROM, cartridge save, BIOS.  Writes to the read-only regions and to
//! unmapped addresses are dropped; reads from unmapped addresses return
//! `0xFF`.  Multi-byte accesses are little-endian, byte by byte, with
//! 32-bit wrap on the successor addresses.

use vstd::prelude::*;

use crate::vdp::{Vdp, VdpV, cram_at, spec_read_reg, spec_vdp_init, spec_vdp_step, spec_write_reg, vdp_wf, vram_at};

verus! {

pub const WORKRAM_SIZE: usize = 0x10000;
pub const EXPANDED_RAM_SIZE: usize = 0x30000;
pub const IO_SIZE: usize = 0x10000;
pub const VRAM_SIZE: usize = 0x80000;
pub const CRAM_SIZE: usize = 0x10000;
pub const CART_ROM_SIZE: usize = 0x600000;
pub const CART_SAVE_SIZE: usize = 0x40000;
pub const BIOS_SIZE: usize = 0x10000;

pub const WORKRAM_BASE: u32 = 0x000000;
pub const EXPANDED_RAM_BASE: u32 = 0x010000;
pub const IO_BASE: u32 = 0x100000;
pub const VRAM_BASE: u32 = 0x200000;
pub const CRAM_BASE: u32 = 0x280000;
pub const CART_ROM_BASE: u32 = 0x400000;
pub const CART_SAVE_BASE: u32 = 0xA00000;
pub const BIOS_BASE: u32 = 0xFF0000;

pub const VDP_IO_BASE: u32 = 0x100000;
pub const VDP_IO_END: u32 = 0x104000;

/// Mathematical model of the bus: one byte sequence per mapped region,
/// and, once video routing is enabled, the attached VDP whose register,
/// VRAM and CRAM windows shadow the plain regions.
pub ghost struct BusV {
    pub workram: Seq<u8>,
    pub expanded_ram: Seq<u8>,
    pub io: Seq<u8>,
    pub vram: Seq<u8>,
    pub cram: Seq<u8>,
    pub cart_rom: Seq<u8>,
    pub cart_save: Seq<u8>,
    pub bios: Seq<u8>,
    pub vdp: Option<VdpV>,
}

pub open spec fn bus_wf(b: BusV) -> bool {
    &&& b.workram.len() == WORKRAM_SIZE
    &&& b.expanded_ram.len() == EXPANDED_RAM_SIZE
    &&& b.io.len() == IO_SIZE
    &&& b.vram.len() == VRAM_SIZE
    &&& b.cram.len() == CRAM_SIZE
    &&& b.cart_rom.len() == CART_ROM_SIZE
    &&& b.cart_save.len() == CART_SAVE_SIZE
    &&& b.bios.len() == BIOS_SIZE
    &&& match b.vdp {
        Some(v) => vdp_wf(v),
        None => true,
    }
}

/// A masked address inside one of the three windows routed to an
/// attached VDP.
pub open spec fn vdp_routed(a: u32) -> bool {
    ||| VDP_IO_BASE <= a < VDP_IO_END
    ||| VRAM_BASE <= a < 0x280000
    ||| CRAM_BASE <= a < 0x290000
}

/// Byte read through the VDP windows: registers are 16 bits wide and are
/// read by halves at the aligned even offset.
#[verifier::opaque]
pub open spec fn vdp_window_read(v: VdpV, a: u32) -> u8
    recommends
        vdp_wf(v),
        vdp_routed(a),
{
    if a < VDP_IO_END {
        let off = (a - VDP_IO_BASE) as u32;
        if off % 2 == 0 {
            (spec_read_reg(v, off) % 256) as u8
        } else {
            (spec_read_reg(v, (off - 1) as u32) / 256) as u8
        }
    } else if a < 0x280000 {
        vram_at(v.vram, (a - VRAM_BASE) as u32)
    } else {
        cram_at(v.cram, (a - CRAM_BASE) as u32)
    }
}

/// Byte write through the VDP windows: a register write combines the
/// byte with the companion byte of the aligned 16-bit register.
#[verifier::opaque]
pub open spec fn vdp_window_write(v: VdpV, a: u32, value: u8) -> VdpV
    recommends
        vdp_wf(v),
        vdp_routed(a),
{
    if a < VDP_IO_END {
        let off = (a - VDP_IO_BASE) as u32;
        if off % 2 == 0 {
            let cur = spec_read_reg(v, off);
            spec_write_reg(v, off, (cur - cur % 256 + value) as u16)
        } else {
            let cur = spec_read_reg(v, (off - 1) as u32);
            spec_write_reg(v, (off - 1) as u32, (cur % 256 + (value as u16) * 256) as u16)
        }
    } else if a < 0x280000 {
        VdpV { vram: v.vram.update(((a - VRAM_BASE) as int) % (VRAM_SIZE as int), value), ..v }
    } else {
        VdpV { cram: v.cram.update(((a - CRAM_BASE) as int) % (CRAM_SIZE as int), value), ..v }
    }
}

/// The 24-bit mask applied to every address.
pub open spec fn mask24(addr: u32) -> u32 {
    (addr % 0x0100_0000) as u32
}

/// Successor address with 32-bit wrap, as used by the multi-byte accesses.
pub open spec fn addr_succ(addr: u32, k: u32) -> u32 {
    vstd::wrapping::u32_specs::wrapping_add(addr, k)
}

/// A masked address lies in a region whose bytes can be changed.
pub open spec fn addr_writable(a: u32) -> bool {
    ||| a < 0x040000
    ||| IO_BASE <= a < 0x110000
    ||| VRAM_BASE <= a < 0x280000
    ||| CRAM_BASE <= a < 0x290000
    ||| CART_SAVE_BASE <= a < 0xA40000
}

/// Byte returned by a read of masked address `a`.
pub open spec fn bus_byte(b: BusV, a: u32) -> u8
    recommends
        bus_wf(b),
        a < 0x0100_0000,
{
    if a < EXPANDED_RAM_BASE {
        b.workram[a as int]
    } else if a < 0x040000 {
        b.expanded_ram[a - EXPANDED_RAM_BASE]
    } else if IO_BASE <= a < 0x110000 {
        b.io[a - IO_BASE]
    } else if VRAM_BASE <= a < 0x280000 {
        b.vram[a - VRAM_BASE]
    } else if CRAM_BASE <= a < 0x290000 {
        b.cram[a - CRAM_BASE]
    } else if CART_ROM_BASE <= a < 0xA00000 {
        b.cart_rom[a - CART_ROM_BASE]
    } else if CART_SAVE_BASE <= a < 0xA40000 {
        b.cart_save[a - CART_SAVE_BASE]
    } else if BIOS_BASE <= a {
        b.bios[a - BIOS_BASE]
    } else {
        0xFF
    }
}

pub open spec fn bus_read8(b: BusV, addr: u32) -> u8
    recommends
        bus_wf(b),
{
    if b.vdp is Some && vdp_routed(mask24(addr)) {
        vdp_window_read(b.vdp->Some_0, mask24(addr))
    } else {
        bus_byte(b, mask24(addr))
    }
}

/// Bus after a byte write to masked address `a`; read-only and unmapped
/// addresses leave the bus unchanged.
pub open spec fn bus_put_byte(b: BusV, a: u32, v: u8) -> BusV
    recommends
        bus_wf(b),
        a < 0x0100_0000,
{
    if a < EXPANDED_RAM_BASE {
        BusV { workram: b.workram.update(a as int, v), ..b }
    } else if a < 0x040000 {
        BusV { expanded_ram: b.expanded_ram.update(a - EXPANDED_RAM_BASE, v), ..b }
    } else if IO_BASE <= a < 0x110000 {
        BusV { io: b.io.update(a - IO_BASE, v), ..b }
    } else if VRAM_BASE <= a < 0x280000 {
        BusV { vram: b.vram.update(a - VRAM_BASE, v), ..b }
    } else if CRAM_BASE <= a < 0x290000 {
        BusV { cram: b.cram.update(a - CRAM_BASE, v), ..b }
    } else if CART_SAVE_BASE <= a < 0xA40000 {
        BusV { cart_save: b.cart_save.update(a - CART_SAVE_BASE, v), ..b }
    } else {
        b
    }
}

pub open spec fn bus_write8(b: BusV, addr: u32, v: u8) -> BusV
    recommends
        bus_wf(b),
{
    if b.vdp is Some && vdp_routed(mask24(addr)) {
        BusV { vdp: Some(vdp_window_write(b.vdp->Some_0, mask24(addr), v)), ..b }
    } else {
        bus_put_byte(b, mask24(addr), v)
    }
}

pub open spec fn bus_read16(b: BusV, addr: u32) -> u16
    recommends
        bus_wf(b),
{
    (bus_read8(b, addr) + bus_read8(b, addr_succ(addr, 1)) * 256) as u16
}

pub open spec fn bus_write16(b: BusV, addr: u32, v: u16) -> BusV
    recommends
        bus_wf(b),
{
    bus_write8(bus_write8(b, addr, (v % 256) as u8), addr_succ(addr, 1), (v / 256) as u8)
}

pub open spec fn bus_read24(b: BusV, addr: u32) -> u32
    recommends
        bus_wf(b),
{
    (bus_read8(b, addr) + bus_read8(b, addr_succ(addr, 1)) * 256 + bus_read8(
        b,
        addr_succ(addr, 2),
    ) * 65536) as u32
}

pub open spec fn bus_write24(b: BusV, addr: u32, v: u32) -> BusV
    recommends
        bus_wf(b),
{
    bus_write8(
        bus_write8(bus_write8(b, addr, (v % 256) as u8), addr_succ(addr, 1), ((v / 256) % 256) as u8),
        addr_succ(addr, 2),
        ((v / 65536) % 256) as u8,
    )
}

/// The bus as it comes out of `Bus24::new`: every region zeroed.
pub open spec fn bus_init() -> BusV {
    BusV {
        workram: Seq::new(WORKRAM_SIZE as nat, |i: int| 0u8),
        expanded_ram: Seq::new(EXPANDED_RAM_SIZE as nat, |i: int| 0u8),
        io: Seq::new(IO_SIZE as nat, |i: int| 0u8),
        vram: Seq::new(VRAM_SIZE as nat, |i: int| 0u8),
        cram: Seq::new(CRAM_SIZE as nat, |i: int| 0u8),
        cart_rom: Seq::new(CART_ROM_SIZE as nat, |i: int| 0u8),
        cart_save: Seq::new(CART_SAVE_SIZE as nat, |i: int| 0u8),
        bios: Seq::new(BIOS_SIZE as nat, |i: int| 0u8),
        vdp: None,
    }
}

/// The bus of a fresh machine: zeroed regions with a fresh VDP attached.
pub open spec fn spec_bus_init_routed() -> BusV {
    BusV { vdp: Some(spec_vdp_init()), ..bus_init() }
}

/// `dst` with its first `min(src.len, dst.len)` bytes replaced by `src`.
pub open spec fn overlay_prefix(dst: Seq<u8>, src: Seq<u8>) -> Seq<u8> {
    Seq::new(dst.len(), |i: int| if i < src.len() { src[i] } else { dst[i] })
}

/// Writing a byte anywhere in a writable region stores exactly that byte
/// there, and a write anywhere else leaves the whole bus unchanged.  The
/// VDP register window is excepted: there a byte write passes through
/// the 16-bit register semantics.
pub proof fn lemma_bus_write_then_read(b: BusV, addr: u32, v: u8)
    requires
        bus_wf(b),
        b.vdp is Some ==> !(VDP_IO_BASE <= mask24(addr) < VDP_IO_END),
    ensures
        addr_writable(mask24(addr)) ==> bus_read8(bus_write8(b, addr, v), addr) == v,
        !addr_writable(mask24(addr)) ==> bus_write8(b, addr, v) == b,
        bus_wf(bus_write8(b, addr, v)),
{
    reveal(vdp_window_read);
    reveal(vdp_window_write);
}

/// A 16-bit read is exactly the low byte plus 256 times the byte at the
/// next (wrapped) address, and the 24-bit read extends this by the third
/// byte; both follow directly from the definitions and are recorded here
/// as the library's little-endian law.
pub proof fn lemma_bus_little_endian(b: BusV, addr: u32)
    requires
        bus_wf(b),
    ensures
        bus_read16(b, addr) == bus_read8(b, addr) + bus_read8(b, addr_succ(addr, 1)) * 256,
        bus_read24(b, addr) == bus_read8(b, addr) + bus_read8(b, addr_succ(addr, 1)) * 256
            + bus_read8(b, addr_succ(addr, 2)) * 65536,
{
}

/// 24-bit address bus backed by the eight mapped regions.
pub struct Bus24 {
    workram: Vec<u8>,
    expanded_ram: Vec<u8>,
    io: Vec<u8>,
    vram: Vec<u8>,
    cram: Vec<u8>,
    cart_rom: Vec<u8>,
    cart_save: Vec<u8>,
    bios: Vec<u8>,
    pub(crate) vdp: Option<Vdp>,
}

impl View for Bus24 {
    type V = BusV;

    closed spec fn view(&self) -> BusV {
        BusV {
            workram: self.workram@,
            expanded_ram: self.expanded_ram@,
            io: self.io@,
            vram: self.vram@,
            cram: self.cram@,
            cart_rom: self.cart_rom@,
            cart_save: self.cart_save@,
            bios: self.bios@,
            vdp: match self.vdp {
                Some(ref v) => Some(v@),
                None => None,
            },
        }
    }
}

impl Bus24 {
    pub open spec fn wf(&self) -> bool {
        bus_wf(self@)
    }

    pub fn new() -> (bus: Bus24)
        ensures
            bus.wf(),
            bus@ == bus_init(),
    {
        let bus = Bus24 {
            workram: vec![0u8; WORKRAM_SIZE],
            expanded_ram: vec![0u8; EXPANDED_RAM_SIZE],
            io: vec![0u8; IO_SIZE],
            vram: vec![0u8; VRAM_SIZE],
            cram: vec![0u8; CRAM_SIZE],
            cart_rom: vec![0u8; CART_ROM_SIZE],
            cart_save: vec![0u8; CART_SAVE_SIZE],
            bios: vec![0u8; BIOS_SIZE],
            vdp: None,
        };
        proof {
            assert(bus@.workram =~= bus_init().workram);
            assert(bus@.expanded_ram =~= bus_init().expanded_ram);
            assert(bus@.io =~= bus_init().io);
            assert(bus@.vram =~= bus_init().vram);
            assert(bus@.cram =~= bus_init().cram);
            assert(bus@.cart_rom =~= bus_init().cart_rom);
            assert(bus@.cart_save =~= bus_init().cart_save);
            assert(bus@.bios =~= bus_init().bios);
        }
        bus
    }

    /// Load cartridge ROM data, truncated to the region size.
    pub fn load_cart_rom(&mut self, data: &[u8])
        requires
            old(self).wf(),
        ensures
            final(self).wf(),
            final(self)@ == (BusV { cart_rom: overlay_prefix(old(self)@.cart_rom, data@), ..old(self)@ }),
    {
        let len = if data.len() < CART_ROM_SIZE {
            data.len()
        } else {
            CART_ROM_SIZE
        };
        let mut i: usize = 0;
        proof {
            assert(self@.cart_rom =~= Seq::new(
                old(self)@.cart_rom.len(),
                |j: int| if j < i && j < data@.len() { data@[j] } else { old(self)@.cart_rom[j] },
            ));
        }
        while i < len
            invariant
                i <= len,
                len <= data@.len(),
                len <= CART_ROM_SIZE,
                self.wf(),
                self@ == (BusV {
                    cart_rom: Seq::new(
                        old(self)@.cart_rom.len(),
                        |j: int| if j < i && j < data@.len() { data@[j] } else { old(self)@.cart_rom[j] },
                    ),
                    ..old(self)@
                }),
            decreases len - i,
        {
            self.cart_rom[i] = data[i];
            i = i + 1;
            proof {
                assert(self@.cart_rom =~= Seq::new(
                    old(self)@.cart_rom.len(),
                    |j: int| if j < i && j < data@.len() { data@[j] } else { old(self)@.cart_rom[j] },
                ));
            }
        }
        proof {
            assert(self@.cart_rom =~= overlay_prefix(old(self)@.cart_rom, data@));
        }
    }

    /// Load BIOS data, truncated to the region size.
    pub fn load_bios(&mut self, data: &[u8])
        requires
            old(self).wf(),
        ensures
            final(self).wf(),
            final(self)@ == (BusV { bios: overlay_prefix(old(self)@.bios, data@), ..old(self)@ }),
    {
        let len = if data.len() < BIOS_SIZE {
            data.len()
        } else {
            BIOS_SIZE
        };
        let mut i: usize = 0;
        proof {
            assert(self@.bios =~= Seq::new(
                old(self)@.bios.len(),
                |j: int| if j < i && j < data@.len() { data@[j] } else { old(self)@.bios[j] },
            ));
        }
        while i < len
            invariant
                i <= len,
                len <= data@.len(),
                len <= BIOS_SIZE,
                self.wf(),
                self@ == (BusV {
                    bios: Seq::new(
                        old(self)@.bios.len(),
                        |j: int| if j < i && j < data@.len() { data@[j] } else { old(self)@.bios[j] },
                    ),
                    ..old(self)@
                }),
            decreases len - i,
        {
            self.bios[i] = data[i];
            i = i + 1;
            proof {
                assert(self@.bios =~= Seq::new(
                    old(self)@.bios.len(),
                    |j: int| if j < i && j < data@.len() { data@[j] } else { old(self)@.bios[j] },
                ));
            }
        }
        proof {
            assert(self@.bios =~= overlay_prefix(old(self)@.bios, data@));
        }
    }

    /// Read a byte from the 24-bit address space.
    pub fn read_u8(&self, addr: u32) -> (r: u8)
        requires
            self.wf(),
        ensures
            r == bus_read8(self@, addr),
    {
        proof {
            reveal(vdp_window_read);
        }
        let a = addr % 0x0100_0000;
        match &self.vdp {
            Some(v) => {
                if VDP_IO_BASE <= a && a < VDP_IO_END {
                    let off = a - VDP_IO_BASE;
                    if off % 2 == 0 {
                        return (v.read_reg(off) % 256) as u8;
                    } else {
                        return (v.read_reg(off - 1) / 256) as u8;
                    }
                } else if VRAM_BASE <= a && a < 0x280000 {
                    return v.read_vram(a - VRAM_BASE);
                } else if CRAM_BASE <= a && a < 0x290000 {
                    return v.read_cram(a - CRAM_BASE);
                }
            },
            None => {},
        }
        if a < EXPANDED_RAM_BASE {
            self.workram[a as usize]
        } else if a < 0x040000 {
            self.expanded_ram[(a - EXPANDED_RAM_BASE) as usize]
        } else if IO_BASE <= a && a < 0x110000 {
            self.io[(a - IO_BASE) as usize]
        } else if VRAM_BASE <= a && a < 0x280000 {
            self.vram[(a - VRAM_BASE) as usize]
        } else if CRAM_BASE <= a && a < 0x290000 {
            self.cram[(a - CRAM_BASE) as usize]
        } else if CART_ROM_BASE <= a && a < 0xA00000 {
            self.cart_rom[(a - CART_ROM_BASE) as usize]
        } else if CART_SAVE_BASE <= a && a < 0xA40000 {
            self.cart_save[(a - CART_SAVE_BASE) as usize]
        } else if BIOS_BASE <= a {
            self.bios[(a - BIOS_BASE) as usize]
        } else {
            0xFF
        }
    }

    /// Write a byte to the 24-bit address space; ROM, BIOS and unmapped
    /// addresses drop the write.
    pub fn write_u8(&mut self, addr: u32, value: u8)
        requires
            old(self).wf(),
        ensures
            final(self).wf(),
            final(self)@ == bus_write8(old(self)@, addr, value),
    {
        proof {
            reveal(vdp_window_write);
        }
        let a = addr % 0x0100_0000;
        match &mut self.vdp {
            Some(v) => {
                if VDP_IO_BASE <= a && a < VDP_IO_END {
                    let off = a - VDP_IO_BASE;
                    if off % 2 == 0 {
                        let cur = v.read_reg(off);
                        v.write_reg(off, cur - cur % 256 + value as u16);
                    } else {
                        let cur = v.read_reg(off - 1);
                        v.write_reg(off - 1, cur % 256 + value as u16 * 256);
                    }
                    return ;
                } else if VRAM_BASE <= a && a < 0x280000 {
                    v.write_vram(a - VRAM_BASE, value);
                    return ;
                } else if CRAM_BASE <= a && a < 0x290000 {
                    v.write_cram(a - CRAM_BASE, value);
                    return ;
                }
            },
            None => {},
        }
        if a < EXPANDED_RAM_BASE {
            self.workram[a as usize] = value;
        } else if a < 0x040000 {
            self.expanded_ram[(a - EXPANDED_RAM_BASE) as usize] = value;
        } else if IO_BASE <= a && a < 0x110000 {
            self.io[(a - IO_BASE) as usize] = value;
        } else if VRAM_BASE <= a && a < 0x280000 {
            self.vram[(a - VRAM_BASE) as usize] = value;
        } else if CRAM_BASE <= a && a < 0x290000 {
            self.cram[(a - CRAM_BASE) as usize] = value;
        } else if CART_SAVE_BASE <= a && a < 0xA40000 {
            self.cart_save[(a - CART_SAVE_BASE) as usize] = value;
        }
    }

    /// Read a little-endian 16-bit value.
    pub fn read_u16(&self, addr: u32) -> (r: u16)
        requires
            self.wf(),
        ensures
            r == bus_read16(self@, addr),
    {
        let lo = self.read_u8(addr) as u16;
        let hi = self.read_u8(addr.wrapping_add(1)) as u16;
        lo + hi * 256
    }

    /// Write a little-endian 16-bit value.
    pub fn write_u16(&mut self, addr: u32, v: u16)
        requires
            old(self).wf(),
        ensures
            final(self).wf(),
            final(self)@ == bus_write16(old(self)@, addr, v),
    {
        self.write_u8(addr, (v % 256) as u8);
        self.write_u8(addr.wrapping_add(1), (v / 256) as u8);
    }

    /// Read a little-endian 24-bit value (as the low bits of a `u32`).
    pub fn read_u24(&self, addr: u32) -> (r: u32)
        requires
            self.wf(),
        ensures
            r == bus_read24(self@, addr),
            r < 0x0100_0000,
    {
        let lo = self.read_u8(addr) as u32;
        let mid = self.read_u8(addr.wrapping_add(1)) as u32;
        let hi = self.read_u8(addr.wrapping_add(2)) as u32;
        lo + mid * 256 + hi * 65536
    }

    /// Write a little-endian 24-bit value; the upper 8 bits of `v` are ignored.
    pub fn write_u24(&mut self, addr: u32, v: u32)
        requires
            old(self).wf(),
        ensures
            final(self).wf(),
            final(self)@ == bus_write24(old(self)@, addr, v),
    {
        self.write_u8(addr, (v % 256) as u8);
        self.write_u8(addr.wrapping_add(1), ((v / 256) % 256) as u8);
        self.write_u8(addr.wrapping_add(2), ((v / 65536) % 256) as u8);
    }
}

impl Bus24 {
    /// Attach a fresh VDP so that the register, VRAM and CRAM windows
    /// route to it.
    pub fn enable_vdp_routing(&mut self)
        requires
            old(self).wf(),
        ensures
            final(self).wf(),
            final(self)@ == (BusV { vdp: Some(spec_vdp_init()), ..old(self)@ }),
    {
        self.vdp = Some(Vdp::new());
    }

    /// The attached VDP.
    pub fn vdp_ref(&self) -> (r: &Vdp)
        requires
            self.wf(),
            self@.vdp is Some,
        ensures
            r@ == self@.vdp->Some_0,
    {
        match &self.vdp {
            Some(v) => v,
            None => vstd::pervasive::unreached(),
        }
    }

    /// The attached VDP, for mutation.
    pub fn vdp_ref_mut(&mut self) -> (r: &mut Vdp)
        requires
            old(self).wf(),
            old(self)@.vdp is Some,
        ensures
            final(self)@ == (BusV { vdp: Some(final(r)@), ..old(self)@ }),
            r@ == old(self)@.vdp->Some_0,
    {
        match &mut self.vdp {
            Some(v) => v,
            None => vstd::pervasive::unreached(),
        }
    }

    /// Advance the attached VDP, if any, by `cycles`.
    pub fn vdp_step(&mut self, cycles: u64) -> (entered_vblank: bool)
        requires
            old(self).wf(),
        ensures
            final(self).wf(),
            final(self)@ == match old(self)@.vdp {
                Some(v) => BusV { vdp: Some(spec_vdp_step(v, cycles).0), ..old(self)@ },
                None => old(self)@,
            },
            entered_vblank == match old(self)@.vdp {
                Some(v) => spec_vdp_step(v, cycles).1,
                None => false,
            },
    {
        match &mut self.vdp {
            Some(v) => v.step(cycles),
            None => false,
        }
    }
}

impl Default for Bus24 {
    fn default() -> (bus: Bus24)
        ensures
            bus.wf(),
            bus@ == bus_init(),
    {
        Bus24::new()
    }
}

} // verus!
