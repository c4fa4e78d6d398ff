//! Baseplate bytecode modules: the container header, the constant pool,
//! and the raw code section.
//!
//! A module is parsed from bytes; the loader fails on images shorter
//! than the 23-byte header and on a wrong magic, and clamps section
//! offsets to the image so that a malformed header never faults.

use vstd::prelude::*;

verus! {

pub const MODULE_HEADER_LEN: usize = 23;

/// Tagged 32-bit value used by the VM.
#[derive(Debug, Clone, Copy, PartialEq, Eq, Structural)]
pub enum Value {
    Int24(i32),
    Fixed16x16(i32),
    Bool(bool),
    Handle(u16),
    Nil,
}

/// Errors from loading a bytecode module image.
#[derive(Debug, Clone, Copy, PartialEq, Eq, Structural)]
pub enum ModuleError {
    TooShort,
    BadMagic,
}

/// Mathematical view of a parsed module.
pub ghost struct ModuleV {
    pub version: u16,
    pub flags: u16,
    pub cp_offset: u32,
    pub code_offset: u32,
    pub meta_offset: u32,
    pub entry_point: u16,
    pub crc32: u32,
    pub constants: Seq<Value>,
    pub code: Seq<u8>,
}

/// Little-endian 24-bit read out of an image.
pub open spec fn spec_u24_le(d: Seq<u8>, off: int) -> u32
    recommends
        0 <= off,
        off + 3 <= d.len(),
{
    (d[off] + d[off + 1] * 256 + d[off + 2] * 65536) as u32
}

pub open spec fn spec_u16_le(d: Seq<u8>, off: int) -> u16
    recommends
        0 <= off,
        off + 2 <= d.len(),
{
    (d[off] + d[off + 1] * 256) as u16
}

/// Constant-pool decoding: each 3-byte group is one sign-extended 24-bit
/// integer; a trailing partial group is dropped.  `n` counts the decoded
/// groups.
pub open spec fn spec_constants(bytes: Seq<u8>, n: int) -> Seq<Value>
    recommends
        n * 3 <= bytes.len(),
    decreases n,
{
    if n <= 0 {
        Seq::empty()
    } else {
        let raw = spec_u24_le(bytes, (n - 1) * 3);
        let v = if raw >= 0x800000 {
            Value::Int24((raw - 0x1000000) as i32)
        } else {
            Value::Int24(raw as i32)
        };
        spec_constants(bytes, n - 1).push(v)
    }
}

/// Clamp of the section boundaries: the start never exceeds the image,
/// and the end never precedes the start.
pub open spec fn clamp_to(len: int, x: int) -> int {
    if x <= len {
        x
    } else {
        len
    }
}

/// The parse of a module image.
pub open spec fn spec_parse_module(d: Seq<u8>) -> Result<ModuleV, ModuleError> {
    if d.len() < MODULE_HEADER_LEN {
        Err(ModuleError::TooShort)
    } else if !(d[0] == 0x42 && d[1] == 0x50 && d[2] == 0x58 && d[3] == 0x30) {
        Err(ModuleError::BadMagic)
    } else {
        let cp_offset = spec_u24_le(d, 8);
        let code_offset = spec_u24_le(d, 11);
        let meta_offset = spec_u24_le(d, 14);
        let cp = clamp_to(d.len() as int, cp_offset as int);
        let co = if code_offset as int <= cp {
            cp
        } else {
            clamp_to(d.len() as int, code_offset as int)
        };
        let code_end = if meta_offset > 0 && meta_offset as int <= d.len() && co
            <= meta_offset as int {
            meta_offset as int
        } else {
            d.len() as int
        };
        let cp_bytes = d.subrange(cp, co);
        Ok(
            ModuleV {
                version: spec_u16_le(d, 4),
                flags: spec_u16_le(d, 6),
                cp_offset,
                code_offset,
                meta_offset,
                entry_point: spec_u16_le(d, 17),
                crc32: (d[19] + d[20] * 256 + d[21] * 65536 + d[22] * 16777216) as u32,
                constants: spec_constants(cp_bytes, cp_bytes.len() as int / 3),
                code: d.subrange(co, if code_end < co {
                    co
                } else {
                    code_end
                }),
            },
        )
    }
}

/// A parsed bytecode module.
pub struct BytecodeModule {
    version: u16,
    flags: u16,
    cp_offset: u32,
    code_offset: u32,
    meta_offset: u32,
    entry_point: u16,
    crc32: u32,
    constants: Vec<Value>,
    code: Vec<u8>,
}

impl View for BytecodeModule {
    type V = ModuleV;

    closed spec fn view(&self) -> ModuleV {
        ModuleV {
            version: self.version,
            flags: self.flags,
            cp_offset: self.cp_offset,
            code_offset: self.code_offset,
            meta_offset: self.meta_offset,
            entry_point: self.entry_point,
            crc32: self.crc32,
            constants: self.constants@,
            code: self.code@,
        }
    }
}

impl BytecodeModule {
    /// Parse a module image: magic and length checks, then the constant
    /// pool and code sections.
    #[verifier::spinoff_prover]
    #[verifier::rlimit(100)]
    pub fn from_bytes(data: &[u8]) -> (r: Result<BytecodeModule, ModuleError>)
        ensures
            r is Ok <==> spec_parse_module(data@) is Ok,
            r is Ok ==> r->Ok_0@ == spec_parse_module(data@)->Ok_0,
            r is Err ==> r->Err_0 == spec_parse_module(data@)->Err_0,
    {
        if data.len() < MODULE_HEADER_LEN {
            return Err(ModuleError::TooShort);
        }
        if !(data[0] == 0x42 && data[1] == 0x50 && data[2] == 0x58 && data[3] == 0x30) {
            return Err(ModuleError::BadMagic);
        }
        let version = data[4] as u16 + data[5] as u16 * 256;
        let flags = data[6] as u16 + data[7] as u16 * 256;
        let cp_offset = Self::read_u24_le(data, 8);
        let code_offset = Self::read_u24_le(data, 11);
        let meta_offset = Self::read_u24_le(data, 14);
        let entry_point = data[17] as u16 + data[18] as u16 * 256;
        let crc32 = data[19] as u32 + data[20] as u32 * 256 + data[21] as u32 * 65536 + data[22]
            as u32 * 16777216;
        let len = data.len();
        let cp = if cp_offset as usize <= len {
            cp_offset as usize
        } else {
            len
        };
        let co = if code_offset as usize <= cp {
            cp
        } else if code_offset as usize <= len {
            code_offset as usize
        } else {
            len
        };
        let code_end = if meta_offset > 0 && meta_offset as usize <= len && co <= meta_offset
            as usize {
            meta_offset as usize
        } else {
            len
        };
        let constants = Self::parse_constants(data, cp, co);
        let mut code: Vec<u8> = Vec::new();
        let mut i = co;
        let ghost cend = if (code_end as int) < co as int {
            co as int
        } else {
            code_end as int
        };
        while i < code_end
            invariant
                co <= i,
                i <= code_end || i == co,
                code_end <= data@.len(),
                cend == if (code_end as int) < co as int {
                    co as int
                } else {
                    code_end as int
                },
                code@ == data@.subrange(co as int, i as int),
            decreases code_end - i,
        {
            code.push(data[i]);
            i = i + 1;
            proof {
                assert(code@ =~= data@.subrange(co as int, i as int));
            }
        }
        proof {
            assert(code@ =~= data@.subrange(co as int, cend));
        }
        Ok(
            BytecodeModule {
                version,
                flags,
                cp_offset,
                code_offset,
                meta_offset,
                entry_point,
                crc32,
                constants,
                code,
            },
        )
    }

    /// Little-endian 24-bit read.
    fn read_u24_le(buf: &[u8], offset: usize) -> (r: u32)
        requires
            offset + 3 <= buf@.len(),
        ensures
            r == spec_u24_le(buf@, offset as int),
            r < 0x0100_0000,
    {
        buf[offset] as u32 + buf[offset + 1] as u32 * 256 + buf[offset + 2] as u32 * 65536
    }

    /// Decode the constant pool between `from` and `to`.
    fn parse_constants(data: &[u8], from: usize, to: usize) -> (r: Vec<Value>)
        requires
            from <= to,
            to <= data@.len(),
        ensures
            r@ == spec_constants(
                data@.subrange(from as int, to as int),
                (to - from) as int / 3,
            ),
    {
        let ghost bytes = data@.subrange(from as int, to as int);
        let mut r: Vec<Value> = Vec::new();
        let mut n: usize = 0;
        let total = (to - from) / 3;
        while n < total
            invariant
                n <= total,
                from <= to,
                to <= data@.len(),
                total == (to - from) / 3,
                bytes == data@.subrange(from as int, to as int),
                r@ == spec_constants(bytes, n as int),
            decreases total - n,
        {
            proof {
                assert(n * 3 + 3 <= (to - from)) by (nonlinear_arith)
                    requires
                        n < total,
                        total == (to - from) / 3,
                ;
            }
            let base = from + n * 3;
            let raw = data[base] as u32 + data[base + 1] as u32 * 256 + data[base + 2] as u32
                * 65536;
            let v = if raw >= 0x800000 {
                Value::Int24((raw as i32) - 0x1000000)
            } else {
                Value::Int24(raw as i32)
            };
            r.push(v);
            n = n + 1;
            proof {
                assert(bytes[(n - 1) * 3] == data@[from + (n - 1) * 3]);
                assert(bytes[(n - 1) * 3 + 1] == data@[from + (n - 1) * 3 + 1]);
                assert(bytes[(n - 1) * 3 + 2] == data@[from + (n - 1) * 3 + 2]);
                assert(r@ == spec_constants(bytes, n as int));
            }
        }
        r
    }

    /// The raw bytecode section.
    pub fn bytecode(&self) -> (r: &Vec<u8>)
        ensures
            r@ == self@.code,
    {
        &self.code
    }

    /// The module's entry-point index.
    pub fn entry_point(&self) -> (r: u16)
        ensures
            r == self@.entry_point,
    {
        self.entry_point
    }

    /// The decoded constant pool.
    pub fn constants(&self) -> (r: &Vec<Value>)
        ensures
            r@ == self@.constants,
    {
        &self.constants
    }
}

} // verus!
