//! HXC-24 processor: registers, status flags, the interrupt queue, and
//! the fetch/decode/execute step.
//!
//! The whole step is specified by the spec functions below: `spec_cpu_step`
//! says exactly which registers, flags and bus bytes change for every
//! opcode, and the executable code is proved to follow it.

use vstd::prelude::*;

use crate::bus::{Bus24, BusV, bus_read8, bus_read16, bus_read24, bus_wf, bus_write8, bus_write16};

verus! {

/// CPU status flags.
#[derive(Debug, Clone, Copy, PartialEq, Eq, Structural)]
pub struct StatusFlags {
    pub carry: bool,
    pub zero: bool,
    pub interrupt_disable: bool,
    pub decimal: bool,
    pub overflow: bool,
    pub negative: bool,
}

/// Byte encoding of the status register: C=0x01, Z=0x02, I=0x04, D=0x08,
/// V=0x40, N=0x80.
pub open spec fn flags_to_byte(f: StatusFlags) -> u8 {
    ((if f.carry { 1int } else { 0 }) + (if f.zero { 2int } else { 0 }) + (if f.interrupt_disable {
        4int
    } else {
        0
    }) + (if f.decimal { 8int } else { 0 }) + (if f.overflow { 64int } else { 0 }) + (if f.negative {
        128int
    } else {
        0
    })) as u8
}

pub open spec fn flags_from_byte(byte: u8) -> StatusFlags {
    StatusFlags {
        carry: byte % 2 == 1,
        zero: (byte / 2) % 2 == 1,
        interrupt_disable: (byte / 4) % 2 == 1,
        decimal: (byte / 8) % 2 == 1,
        overflow: (byte / 64) % 2 == 1,
        negative: (byte / 128) % 2 == 1,
    }
}

pub open spec fn flags_clear() -> StatusFlags {
    StatusFlags {
        carry: false,
        zero: false,
        interrupt_disable: false,
        decimal: false,
        overflow: false,
        negative: false,
    }
}

/// Z and N recomputed from a 16-bit result.
pub open spec fn flags_zn(f: StatusFlags, value: u16) -> StatusFlags {
    StatusFlags { zero: value == 0, negative: value >= 0x8000, ..f }
}

impl StatusFlags {
    pub fn new() -> (f: StatusFlags)
        ensures
            f == flags_clear(),
    {
        StatusFlags {
            carry: false,
            zero: false,
            interrupt_disable: false,
            decimal: false,
            overflow: false,
            negative: false,
        }
    }

    /// Pack the flags into their byte encoding.
    pub fn to_byte(&self) -> (byte: u8)
        ensures
            byte == flags_to_byte(*self),
    {
        let mut byte: u8 = 0;
        if self.carry {
            byte = byte + 1;
        }
        if self.zero {
            byte = byte + 2;
        }
        if self.interrupt_disable {
            byte = byte + 4;
        }
        if self.decimal {
            byte = byte + 8;
        }
        if self.overflow {
            byte = byte + 64;
        }
        if self.negative {
            byte = byte + 128;
        }
        byte
    }

    /// Unpack flags from their byte encoding.
    pub fn from_byte(byte: u8) -> (f: StatusFlags)
        ensures
            f == flags_from_byte(byte),
    {
        StatusFlags {
            carry: byte % 2 == 1,
            zero: (byte / 2) % 2 == 1,
            interrupt_disable: (byte / 4) % 2 == 1,
            decimal: (byte / 8) % 2 == 1,
            overflow: (byte / 64) % 2 == 1,
            negative: (byte / 128) % 2 == 1,
        }
    }

    /// Update zero and negative from a 16-bit result.
    pub fn update_zn(&mut self, value: u16)
        ensures
            *final(self) == flags_zn(*old(self), value),
    {
        self.zero = value == 0;
        self.negative = value >= 0x8000;
    }
}

impl Default for StatusFlags {
    fn default() -> (f: StatusFlags)
        ensures
            f == flags_clear(),
    {
        StatusFlags::new()
    }
}

/// Packing and unpacking the status byte are mutually inverse on the
/// defined flag bits.
pub proof fn lemma_flags_byte_round_trip(f: StatusFlags)
    ensures
        flags_from_byte(flags_to_byte(f)) == f,
{
}

/// Mathematical view of the processor.
pub ghost struct CpuV {
    pub a: u16,
    pub x: u16,
    pub y: u16,
    pub sp: u16,
    pub pc: u32,
    pub sr: StatusFlags,
    pub r: Seq<u16>,
    pub cycles: u64,
    pub halted: bool,
    pub pending: Seq<u8>,
}

/// Interrupt identity to priority: ids 0..=7 carry their own number,
/// anything else the lowest priority.
pub open spec fn prio(id: u8) -> u8 {
    if id < 8 {
        id
    } else {
        0
    }
}

/// The queue holds no duplicate ids and is ordered by priority, highest
/// first.
pub open spec fn pending_wf(q: Seq<u8>) -> bool {
    &&& forall|i: int, j: int| 0 <= i < j < q.len() ==> prio(q[i]) >= prio(q[j])
    &&& forall|i: int, j: int| 0 <= i < j < q.len() ==> q[i] != q[j]
}

pub open spec fn cpu_wf(c: CpuV) -> bool {
    &&& c.pc < 0x0100_0000
    &&& c.r.len() == 8
    &&& pending_wf(c.pending)
}

/// 24-bit program-counter addition.
pub open spec fn pc_add(pc: u32, k: u32) -> u32
    recommends
        pc < 0x0100_0000,
        k < 0x100,
{
    ((pc + k) % 0x0100_0000) as u32
}

/// Sign-extend a branch operand byte to a 24-bit displacement.
pub open spec fn sign_ext24(byte: u8) -> u32 {
    if byte >= 128 {
        (byte + 0xFFFF00) as u32
    } else {
        byte as u32
    }
}

/// Branch target: the displacement added to the program counter after the
/// operand, modulo the 24-bit space.
pub open spec fn branch_dest(pc_after: u32, byte: u8) -> u32
    recommends
        pc_after < 0x0100_0000,
{
    ((pc_after + sign_ext24(byte)) % 0x0100_0000) as u32
}

pub open spec fn cyc(c: u64, k: u64) -> u64 {
    vstd::wrapping::u64_specs::wrapping_add(c, k)
}

/// Push a 24-bit value: low, middle, high byte, the stack pointer
/// decremented after each byte.
pub open spec fn spec_push24(sp: u16, b: BusV, value: u32) -> (u16, BusV)
    recommends
        bus_wf(b),
{
    let b1 = bus_write8(b, sp as u32, (value % 256) as u8);
    let sp1 = vstd::wrapping::u16_specs::wrapping_sub(sp, 1);
    let b2 = bus_write8(b1, sp1 as u32, ((value / 256) % 256) as u8);
    let sp2 = vstd::wrapping::u16_specs::wrapping_sub(sp1, 1);
    let b3 = bus_write8(b2, sp2 as u32, ((value / 65536) % 256) as u8);
    let sp3 = vstd::wrapping::u16_specs::wrapping_sub(sp2, 1);
    (sp3, b3)
}

/// Pop a 24-bit value: the stack pointer incremented before each byte,
/// high byte first.
pub open spec fn spec_pop24(sp: u16, b: BusV) -> (u16, u32)
    recommends
        bus_wf(b),
{
    let sp1 = vstd::wrapping::u16_specs::wrapping_add(sp, 1);
    let hi = bus_read8(b, sp1 as u32);
    let sp2 = vstd::wrapping::u16_specs::wrapping_add(sp1, 1);
    let mid = bus_read8(b, sp2 as u32);
    let sp3 = vstd::wrapping::u16_specs::wrapping_add(sp2, 1);
    let lo = bus_read8(b, sp3 as u32);
    (sp3, (lo + mid * 256 + hi * 65536) as u32)
}

/// Position at which an interrupt of priority `p` enters the descending
/// queue: after every entry of equal or higher priority.
pub open spec fn insert_pos(q: Seq<u8>, p: u8) -> int
    decreases q.len(),
{
    if q.len() == 0 {
        0int
    } else if prio(q[0]) >= p {
        1 + insert_pos(q.drop_first(), p)
    } else {
        0int
    }
}

pub proof fn lemma_insert_pos_bounds(q: Seq<u8>, p: u8)
    ensures
        0 <= insert_pos(q, p) <= q.len(),
        forall|k: int| 0 <= k < insert_pos(q, p) ==> prio(q[k]) >= p,
        insert_pos(q, p) < q.len() ==> prio(q[insert_pos(q, p)]) < p,
    decreases q.len(),
{
    if q.len() != 0 && prio(q[0]) >= p {
        lemma_insert_pos_bounds(q.drop_first(), p);
        assert forall|k: int| 0 <= k < insert_pos(q, p) implies prio(q[k]) >= p by {
            if k > 0 {
                assert(q.drop_first()[k - 1] == q[k]);
            }
        }
    }
}

pub proof fn lemma_insert_pos_is(q: Seq<u8>, p: u8, i: int)
    requires
        0 <= i <= q.len(),
        forall|k: int| 0 <= k < i ==> prio(#[trigger] q[k]) >= p,
        i < q.len() ==> prio(q[i]) < p,
    ensures
        insert_pos(q, p) == i,
    decreases q.len(),
{
    if q.len() != 0 && prio(q[0]) >= p {
        assert(i >= 1);
        lemma_insert_pos_is(q.drop_first(), p, i - 1);
    }
}

/// Effect of `request_interrupt`: a maskable request is dropped while
/// interrupts are disabled; a pending duplicate is dropped; otherwise the
/// id enters the queue at its priority position.
pub open spec fn spec_request(c: CpuV, id: u8) -> CpuV {
    if id != 7 && c.sr.interrupt_disable {
        c
    } else if c.pending.contains(id) {
        c
    } else {
        CpuV { pending: c.pending.insert(insert_pos(c.pending, prio(id)), id), ..c }
    }
}

/// Effect of `trigger_nmi`: id 7 enters the front of the queue regardless
/// of the interrupt-disable flag.
pub open spec fn spec_trigger_nmi(c: CpuV) -> CpuV {
    if c.pending.contains(7u8) {
        c
    } else {
        CpuV { pending: c.pending.insert(0, 7u8), ..c }
    }
}

/// Interrupt service: the head of the queue is taken when it is the NMI
/// or interrupts are enabled; the current program counter is pushed, the
/// handler address is read from the vector table at `0xFF0000 + id*3`,
/// the interrupt-disable flag is set, and 7 cycles are charged.
pub open spec fn spec_service(c: CpuV, b: BusV) -> Option<(CpuV, BusV)>
    recommends
        cpu_wf(c),
        bus_wf(b),
{
    if c.pending.len() == 0 {
        None
    } else {
        let id = c.pending[0];
        if id != 7 && c.sr.interrupt_disable {
            None
        } else {
            let handler = bus_read24(b, (0xFF0000 + id * 3) as u32);
            let pushed = spec_push24(c.sp, b, c.pc);
            Some(
                (
                    CpuV {
                        sp: pushed.0,
                        pc: handler,
                        sr: StatusFlags { interrupt_disable: true, ..c.sr },
                        pending: c.pending.drop_first(),
                        cycles: cyc(c.cycles, 7),
                        ..c
                    },
                    pushed.1,
                ),
            )
        }
    }
}

/// One decoded instruction, given the opcode already fetched and the
/// program counter already past it.
pub open spec fn spec_exec_insn(op: u8, c: CpuV, b: BusV) -> (CpuV, BusV)
    recommends
        cpu_wf(c),
        bus_wf(b),
{
    if op == 0x01 {  // LDA #imm16
        let v = bus_read16(b, c.pc);
        (
            CpuV {
                pc: pc_add(c.pc, 2),
                a: v,
                sr: flags_zn(c.sr, v),
                cycles: cyc(c.cycles, 2),
                ..c
            },
            b,
        )
    } else if op == 0x02 {  // STA addr24
        let addr = bus_read24(b, c.pc);
        (
            CpuV { pc: pc_add(c.pc, 3), cycles: cyc(c.cycles, 3), ..c },
            bus_write16(b, addr, c.a),
        )
    } else if op == 0x03 {  // LDX #imm16
        let v = bus_read16(b, c.pc);
        (
            CpuV {
                pc: pc_add(c.pc, 2),
                x: v,
                sr: flags_zn(c.sr, v),
                cycles: cyc(c.cycles, 2),
                ..c
            },
            b,
        )
    } else if op == 0x04 {  // STX addr24
        let addr = bus_read24(b, c.pc);
        (
            CpuV { pc: pc_add(c.pc, 3), cycles: cyc(c.cycles, 3), ..c },
            bus_write16(b, addr, c.x),
        )
    } else if op == 0x05 {  // LDY #imm16
        let v = bus_read16(b, c.pc);
        (
            CpuV {
                pc: pc_add(c.pc, 2),
                y: v,
                sr: flags_zn(c.sr, v),
                cycles: cyc(c.cycles, 2),
                ..c
            },
            b,
        )
    } else if op == 0x06 {  // STY addr24
        let addr = bus_read24(b, c.pc);
        (
            CpuV { pc: pc_add(c.pc, 3), cycles: cyc(c.cycles, 3), ..c },
            bus_write16(b, addr, c.y),
        )
    } else if op == 0x10 {  // ADD #imm16
        let v = bus_read16(b, c.pc);
        let sum = c.a + v;
        let result = (sum % 0x10000) as u16;
        let sr1 = StatusFlags {
            carry: sum > 0xFFFF,
            overflow: ((c.a ^ result) & (v ^ result) & 0x8000) != 0,
            ..c.sr
        };
        (
            CpuV {
                pc: pc_add(c.pc, 2),
                a: result,
                sr: flags_zn(sr1, result),
                cycles: cyc(c.cycles, 2),
                ..c
            },
            b,
        )
    } else if op == 0x11 {  // SUB #imm16, carry set when no borrow
        let v = bus_read16(b, c.pc);
        let result = ((c.a + 0x10000 - v) % 0x10000) as u16;
        let sr1 = StatusFlags {
            carry: c.a >= v,
            overflow: ((c.a ^ v) & (c.a ^ result) & 0x8000) != 0,
            ..c.sr
        };
        (
            CpuV {
                pc: pc_add(c.pc, 2),
                a: result,
                sr: flags_zn(sr1, result),
                cycles: cyc(c.cycles, 2),
                ..c
            },
            b,
        )
    } else if op == 0x12 {  // AND #imm16
        let v = bus_read16(b, c.pc);
        let result = c.a & v;
        (
            CpuV {
                pc: pc_add(c.pc, 2),
                a: result,
                sr: flags_zn(c.sr, result),
                cycles: cyc(c.cycles, 2),
                ..c
            },
            b,
        )
    } else if op == 0x13 {  // OR #imm16
        let v = bus_read16(b, c.pc);
        let result = c.a | v;
        (
            CpuV {
                pc: pc_add(c.pc, 2),
                a: result,
                sr: flags_zn(c.sr, result),
                cycles: cyc(c.cycles, 2),
                ..c
            },
            b,
        )
    } else if op == 0x14 {  // XOR #imm16
        let v = bus_read16(b, c.pc);
        let result = c.a ^ v;
        (
            CpuV {
                pc: pc_add(c.pc, 2),
                a: result,
                sr: flags_zn(c.sr, result),
                cycles: cyc(c.cycles, 2),
                ..c
            },
            b,
        )
    } else if op == 0x20 {  // JMP addr24
        let addr = bus_read24(b, c.pc);
        (CpuV { pc: addr, cycles: cyc(c.cycles, 3), ..c }, b)
    } else if op == 0x21 {  // JSR addr24
        let addr = bus_read24(b, c.pc);
        let ret = pc_add(c.pc, 3);
        let pushed = spec_push24(c.sp, b, ret);
        (CpuV { pc: addr, sp: pushed.0, cycles: cyc(c.cycles, 5), ..c }, pushed.1)
    } else if op == 0x22 {  // RTS
        let popped = spec_pop24(c.sp, b);
        (CpuV { pc: popped.1, sp: popped.0, cycles: cyc(c.cycles, 4), ..c }, b)
    } else if op == 0x30 {  // BRA rel8
        let byte = bus_read8(b, c.pc);
        (
            CpuV { pc: branch_dest(pc_add(c.pc, 1), byte), cycles: cyc(c.cycles, 2), ..c },
            b,
        )
    } else if 0x31 <= op <= 0x38 {  // BEQ BNE BCS BCC BMI BPL BVS BVC
        let byte = bus_read8(b, c.pc);
        let taken = if op == 0x31 {
            c.sr.zero
        } else if op == 0x32 {
            !c.sr.zero
        } else if op == 0x33 {
            c.sr.carry
        } else if op == 0x34 {
            !c.sr.carry
        } else if op == 0x35 {
            c.sr.negative
        } else if op == 0x36 {
            !c.sr.negative
        } else if op == 0x37 {
            c.sr.overflow
        } else {
            !c.sr.overflow
        };
        if taken {
            (
                CpuV { pc: branch_dest(pc_add(c.pc, 1), byte), cycles: cyc(c.cycles, 3), ..c },
                b,
            )
        } else {
            (CpuV { pc: pc_add(c.pc, 1), cycles: cyc(c.cycles, 2), ..c }, b)
        }
    } else if op == 0x40 {  // SEI
        (
            CpuV {
                sr: StatusFlags { interrupt_disable: true, ..c.sr },
                cycles: cyc(c.cycles, 1),
                ..c
            },
            b,
        )
    } else if op == 0x41 {  // CLI
        (
            CpuV {
                sr: StatusFlags { interrupt_disable: false, ..c.sr },
                cycles: cyc(c.cycles, 1),
                ..c
            },
            b,
        )
    } else if op == 0x42 {  // RTI
        let popped = spec_pop24(c.sp, b);
        (
            CpuV {
                pc: popped.1,
                sp: popped.0,
                sr: StatusFlags { interrupt_disable: false, ..c.sr },
                cycles: cyc(c.cycles, 5),
                ..c
            },
            b,
        )
    } else if op == 0xFF {  // HLT
        (CpuV { halted: true, cycles: cyc(c.cycles, 1), ..c }, b)
    } else {
        // Reserved and unknown opcodes, including the reserved absolute
        // loads, behave as NOP for one cycle.
        (CpuV { cycles: cyc(c.cycles, 1), ..c }, b)
    }
}

/// One full step: a halted CPU only counts a cycle; otherwise the highest
/// pending interrupt is serviced and consumes the step, or one instruction
/// is fetched and executed.
pub open spec fn spec_cpu_step(c: CpuV, b: BusV) -> (CpuV, BusV)
    recommends
        cpu_wf(c),
        bus_wf(b),
{
    if c.halted {
        (CpuV { cycles: cyc(c.cycles, 1), ..c }, b)
    } else {
        match spec_service(c, b) {
            Some(r) => r,
            None => {
                let op = bus_read8(b, c.pc);
                spec_exec_insn(op, CpuV { pc: pc_add(c.pc, 1), ..c }, b)
            },
        }
    }
}

pub open spec fn spec_cpu_init() -> CpuV {
    CpuV {
        a: 0,
        x: 0,
        y: 0,
        sp: 0xFFFF,
        pc: 0xFF0000,
        sr: flags_clear(),
        r: Seq::new(8, |i: int| 0u16),
        cycles: 0,
        halted: false,
        pending: Seq::empty(),
    }
}

/// Reset: registers cleared, the stack pointer at the top of WorkRAM, the
/// program counter loaded from the reset vector at `0xFF0000`, and the
/// interrupt queue left intact.
pub open spec fn spec_reset(c: CpuV, b: BusV) -> CpuV
    recommends
        bus_wf(b),
{
    CpuV {
        a: 0,
        x: 0,
        y: 0,
        sp: 0xFFFF,
        pc: bus_read24(b, 0xFF0000),
        sr: flags_clear(),
        r: Seq::new(8, |i: int| 0u16),
        cycles: 0,
        halted: false,
        pending: c.pending,
    }
}

/// After SUB the carry flag is set exactly when no borrow occurred, that
/// is, when the subtrahend did not exceed the accumulator.
pub proof fn lemma_sub_carry_iff_no_borrow(c: CpuV, b: BusV)
    requires
        cpu_wf(c),
        bus_wf(b),
    ensures
        spec_exec_insn(0x11, c, b).0.sr.carry <==> c.a >= bus_read16(b, c.pc),
{
}

/// Splitting a 24-bit value into its three little-endian bytes and
/// reassembling them gives the value back.
pub proof fn lemma_u24_bytes(x: u32)
    requires
        x < 0x0100_0000,
    ensures
        (x % 256) + ((x / 256) % 256) * 256 + ((x / 65536) % 256) * 65536 == x,
{
    assert((x % 256) + ((x / 256) % 256) * 256 + ((x / 65536) % 256) * 65536 == x)
        by (bit_vector)
        requires
            x < 0x0100_0000,
    ;
}

/// Pushing a 24-bit value and popping it straight back returns the value
/// and restores the stack pointer, whatever the stack pointer was.
pub proof fn lemma_push_pop_round_trip(sp: u16, b: BusV, value: u32)
    requires
        bus_wf(b),
        value < 0x0100_0000,
    ensures
        spec_pop24(spec_push24(sp, b, value).0, spec_push24(sp, b, value).1).0 == sp,
        spec_pop24(spec_push24(sp, b, value).0, spec_push24(sp, b, value).1).1 == value,
{
    lemma_u24_bytes(value);
}

/// A JSR followed directly by an RTS brings the program counter to the
/// instruction after the JSR and restores the stack pointer.  The second
/// fetched opcode must be the RTS, which also rules out a jump into the
/// three stack bytes the JSR itself wrote.
pub proof fn lemma_jsr_rts_round_trip(c: CpuV, b: BusV)
    requires
        cpu_wf(c),
        bus_wf(b),
        !c.halted,
        c.pending.len() == 0,
        bus_read8(b, c.pc) == 0x21,
        bus_read8(spec_cpu_step(c, b).1, spec_cpu_step(c, b).0.pc) == 0x22,
    ensures
        spec_cpu_step(spec_cpu_step(c, b).0, spec_cpu_step(c, b).1).0.pc == pc_add(c.pc, 4),
        spec_cpu_step(spec_cpu_step(c, b).0, spec_cpu_step(c, b).1).0.sp == c.sp,
{
    let c1 = CpuV { pc: pc_add(c.pc, 1), ..c };
    let addr = bus_read24(b, c1.pc);
    let ret = pc_add(c1.pc, 3);
    let pushed = spec_push24(c.sp, b, ret);
    let s1 = spec_cpu_step(c, b);
    assert(s1.0.pc == addr);
    assert(s1.0.sp == pushed.0);
    assert(s1.1 == pushed.1);
    assert(s1.0.pending.len() == 0);
    assert(!s1.0.halted);
    let popped = spec_pop24(pushed.0, pushed.1);
    lemma_push_pop_round_trip(c.sp, b, ret);
    assert(popped.0 == c.sp);
    assert(popped.1 == ret);
    let s2 = spec_cpu_step(s1.0, s1.1);
    assert(s2.0.pc == popped.1);
    assert(s2.0.sp == popped.0);
    assert(ret == pc_add(c.pc, 4)) by {
        assert((((c.pc + 1) % 0x0100_0000) + 3) % 0x0100_0000 == (c.pc + 4) % 0x0100_0000)
            by (nonlinear_arith)
            requires
                c.pc < 0x0100_0000,
        ;
    }
}

/// While the interrupt-disable flag is set, requesting any maskable
/// interrupt leaves the processor, queue included, untouched.
pub proof fn lemma_masked_request_dropped(c: CpuV, id: u8)
    requires
        c.sr.interrupt_disable,
        id != 7,
    ensures
        spec_request(c, id) == c,
{
}

/// Triggering the NMI always places id 7 at the head of the queue, and
/// the next step of a running processor services it from the vector at
/// `0xFF0015`, interrupt-disable flag notwithstanding.
pub proof fn lemma_nmi_always_serviced(c: CpuV, b: BusV)
    requires
        cpu_wf(c),
        bus_wf(b),
        !c.halted,
    ensures
        spec_trigger_nmi(c).pending.len() > 0,
        c.pending.len() == 0 ==> spec_trigger_nmi(c).pending[0] == 7,
        c.pending.len() == 0 ==> spec_cpu_step(spec_trigger_nmi(c), b).0.pc == bus_read24(
            b,
            0xFF0015,
        ),
{
    if c.pending.len() == 0 {
        let c1 = spec_trigger_nmi(c);
        assert(c1.pending[0] == 7);
    } else if !c.pending.contains(7u8) {
        assert(spec_trigger_nmi(c).pending.len() == c.pending.len() + 1);
    }
}

/// When a step services an interrupt it takes the head of the queue,
/// which under the queue's order is one of maximal priority.
pub proof fn lemma_service_takes_highest_priority(c: CpuV, b: BusV)
    requires
        cpu_wf(c),
        bus_wf(b),
        c.pending.len() > 0,
    ensures
        forall|i: int| 0 <= i < c.pending.len() ==> prio(c.pending[0]) >= prio(
            #[trigger] c.pending[i],
        ),
        spec_service(c, b) is Some ==> spec_service(c, b)->Some_0.0.pending
            == c.pending.drop_first(),
{
    assert forall|i: int| 0 <= i < c.pending.len() implies prio(c.pending[0]) >= prio(
        #[trigger] c.pending[i],
    ) by {
        if i > 0 {
            assert(prio(c.pending[0]) >= prio(c.pending[i]));
        }
    }
}

/// Requesting an id that is already pending changes nothing: the same
/// interrupt is never queued twice.
pub proof fn lemma_request_no_duplicates(c: CpuV, id: u8)
    requires
        cpu_wf(c),
    ensures
        spec_request(spec_request(c, id), id) == spec_request(c, id),
{
    let c1 = spec_request(c, id);
    if !(id != 7 && c.sr.interrupt_disable) && !c.pending.contains(id) {
        lemma_insert_pos_bounds(c.pending, prio(id));
        let pos = insert_pos(c.pending, prio(id));
        assert(c1.pending[pos] == id);
        assert(c1.pending.contains(id));
    }
}

/// HXC-24 CPU.
pub struct Cpu {
    pub a: u16,
    pub x: u16,
    pub y: u16,
    pub sp: u16,
    pub pc: u32,
    pub sr: StatusFlags,
    pub r: [u16; 8],
    pub cycles: u64,
    pub halted: bool,
    pub pending_interrupts: Vec<u8>,
}

impl View for Cpu {
    type V = CpuV;

    open spec fn view(&self) -> CpuV {
        CpuV {
            a: self.a,
            x: self.x,
            y: self.y,
            sp: self.sp,
            pc: self.pc,
            sr: self.sr,
            r: self.r@,
            cycles: self.cycles,
            halted: self.halted,
            pending: self.pending_interrupts@,
        }
    }
}

impl Cpu {
    pub open spec fn wf(&self) -> bool {
        cpu_wf(self@)
    }

    pub fn new() -> (cpu: Cpu)
        ensures
            cpu.wf(),
            cpu@ == spec_cpu_init(),
    {
        let cpu = Cpu {
            a: 0,
            x: 0,
            y: 0,
            sp: 0xFFFF,
            pc: 0xFF0000,
            sr: StatusFlags::new(),
            r: [0, 0, 0, 0, 0, 0, 0, 0],
            cycles: 0,
            halted: false,
            pending_interrupts: Vec::new(),
        };
        proof {
            assert(cpu@.r =~= spec_cpu_init().r);
            assert(cpu@.pending =~= spec_cpu_init().pending);
        }
        cpu
    }

    /// Reset the CPU, loading the program counter from the reset vector.
    pub fn reset(&mut self, bus: &Bus24)
        requires
            old(self).wf(),
            bus.wf(),
        ensures
            final(self).wf(),
            final(self)@ == spec_reset(old(self)@, bus@),
    {
        self.a = 0;
        self.x = 0;
        self.y = 0;
        self.sp = 0xFFFF;
        self.r = [0, 0, 0, 0, 0, 0, 0, 0];
        self.sr = StatusFlags::new();
        self.halted = false;
        self.pc = bus.read_u24(0xFF0000);
        self.cycles = 0;
        proof {
            assert(self@.r =~= spec_reset(old(self)@, bus@).r);
        }
    }

    /// Request an interrupt; maskable requests are dropped while the
    /// interrupt-disable flag is set, duplicates never enter, and the
    /// queue keeps its priority order.
    pub fn request_interrupt(&mut self, id: u8)
        requires
            old(self).wf(),
        ensures
            final(self).wf(),
            final(self)@ == spec_request(old(self)@, id),
    {
        if id != 7 && self.sr.interrupt_disable {
            return ;
        }
        if Self::queue_contains(&self.pending_interrupts, id) {
            return ;
        }
        let p = if id < 8 {
            id
        } else {
            0
        };
        let idx = Self::queue_position(&self.pending_interrupts, p);
        proof {
            assert(p == prio(id));
            lemma_insert_pos_bounds(self.pending_interrupts@, p);
        }
        self.pending_interrupts.insert(idx, id);
        proof {
            let q0 = old(self)@.pending;
            let pos = insert_pos(q0, prio(id));
            lemma_insert_pos_bounds(q0, prio(id));
            let q1 = self@.pending;
            assert(q1 == q0.insert(pos, id));
            assert forall|i: int, j: int| 0 <= i < j < q1.len() implies prio(q1[i]) >= prio(
                q1[j],
            ) by {
                if i < pos && j == pos {
                    assert(q1[i] == q0[i]);
                } else if i == pos && j > pos {
                    assert(q1[j] == q0[j - 1]);
                }
            }
            assert forall|i: int, j: int| 0 <= i < j < q1.len() implies q1[i] != q1[j] by {
                if j == pos {
                } else if i == pos {
                    assert(q1[j] == q0[j - 1]);
                    assert(!q0.contains(id));
                    assert(q0[j - 1] != id);
                }
            }
        }
    }

    /// Trigger the non-maskable interrupt: it enters the queue even while
    /// interrupts are disabled.
    pub fn trigger_nmi(&mut self)
        requires
            old(self).wf(),
        ensures
            final(self).wf(),
            final(self)@ == spec_trigger_nmi(old(self)@),
    {
        if !Self::queue_contains(&self.pending_interrupts, 7) {
            self.pending_interrupts.insert(0, 7);
            proof {
                let q0 = old(self)@.pending;
                let q1 = self@.pending;
                assert forall|i: int, j: int| 0 <= i < j < q1.len() implies prio(q1[i]) >= prio(
                    q1[j],
                ) by {
                    if i == 0 {
                        assert(prio(q1[0]) == 7);
                        assert(prio(q1[j]) <= 7);
                    }
                }
            }
        }
    }

    fn queue_position(q: &Vec<u8>, p: u8) -> (pos: usize)
        ensures
            pos == insert_pos(q@, p),
    {
        let mut idx: usize = 0;
        while idx < q.len()
            invariant
                idx <= q@.len(),
                forall|k: int| 0 <= k < idx ==> prio(#[trigger] q@[k]) >= p,
            decreases q@.len() - idx,
        {
            let e = q[idx];
            let ep = if e < 8 {
                e
            } else {
                0
            };
            if ep < p {
                proof {
                    lemma_insert_pos_is(q@, p, idx as int);
                }
                return idx;
            }
            idx = idx + 1;
        }
        proof {
            lemma_insert_pos_is(q@, p, idx as int);
        }
        idx
    }

    fn queue_contains(q: &Vec<u8>, id: u8) -> (r: bool)
        ensures
            r == q@.contains(id),
    {
        let mut i: usize = 0;
        while i < q.len()
            invariant
                i <= q@.len(),
                forall|k: int| 0 <= k < i ==> q@[k] != id,
            decreases q@.len() - i,
        {
            if q[i] == id {
                return true;
            }
            i = i + 1;
        }
        false
    }

    /// Service the highest-priority pending interrupt, if any may run.
    fn handle_interrupts(&mut self, bus: &mut Bus24) -> (serviced: bool)
        requires
            old(self).wf(),
            old(bus).wf(),
        ensures
            final(self).wf(),
            final(bus).wf(),
            serviced == spec_service(old(self)@, old(bus)@) is Some,
            serviced ==> (final(self)@, final(bus)@) == spec_service(
                old(self)@,
                old(bus)@,
            )->Some_0,
            !serviced ==> final(self)@ == old(self)@ && final(bus)@ == old(bus)@,
    {
        if self.pending_interrupts.len() == 0 {
            return false;
        }
        let id = self.pending_interrupts[0];
        if id != 7 && self.sr.interrupt_disable {
            return false;
        }
        let vector_addr = 0xFF0000 + (id as u32) * 3;
        let handler_addr = bus.read_u24(vector_addr);
        let pc = self.pc;
        self.push_u24(bus, pc);
        self.sr.interrupt_disable = true;
        self.pc = handler_addr;
        self.pending_interrupts.remove(0);
        self.cycles = self.cycles.wrapping_add(7);
        proof {
            assert(self@.pending =~= old(self)@.pending.drop_first());
        }
        true
    }

    /// Execute one step: count a cycle when halted, service one pending
    /// interrupt, or fetch and run a single instruction.
    pub fn step(&mut self, bus: &mut Bus24)
        requires
            old(self).wf(),
            old(bus).wf(),
        ensures
            final(self).wf(),
            final(bus).wf(),
            (final(self)@, final(bus)@) == spec_cpu_step(old(self)@, old(bus)@),
    {
        if self.halted {
            self.cycles = self.cycles.wrapping_add(1);
            return ;
        }
        if self.handle_interrupts(bus) {
            return ;
        }
        let opcode = bus.read_u8(self.pc);
        self.pc = (self.pc + 1) % 0x0100_0000;
        self.execute_instruction(opcode, bus);
    }

    /// Decode and execute a single instruction whose opcode has been
    /// fetched and whose program counter already points past it.
    #[verifier::rlimit(60)]
    fn execute_instruction(&mut self, opcode: u8, bus: &mut Bus24)
        requires
            old(self).wf(),
            old(bus).wf(),
        ensures
            final(self).wf(),
            final(bus).wf(),
            (final(self)@, final(bus)@) == spec_exec_insn(opcode, old(self)@, old(bus)@),
    {
        match opcode {
            0x01 => {
                let value = bus.read_u16(self.pc);
                self.pc = (self.pc + 2) % 0x0100_0000;
                self.a = value;
                self.sr.update_zn(self.a);
                self.cycles = self.cycles.wrapping_add(2);
            },
            0x02 => {
                let addr = bus.read_u24(self.pc);
                self.pc = (self.pc + 3) % 0x0100_0000;
                bus.write_u16(addr, self.a);
                self.cycles = self.cycles.wrapping_add(3);
            },
            0x03 => {
                let value = bus.read_u16(self.pc);
                self.pc = (self.pc + 2) % 0x0100_0000;
                self.x = value;
                self.sr.update_zn(self.x);
                self.cycles = self.cycles.wrapping_add(2);
            },
            0x04 => {
                let addr = bus.read_u24(self.pc);
                self.pc = (self.pc + 3) % 0x0100_0000;
                bus.write_u16(addr, self.x);
                self.cycles = self.cycles.wrapping_add(3);
            },
            0x05 => {
                let value = bus.read_u16(self.pc);
                self.pc = (self.pc + 2) % 0x0100_0000;
                self.y = value;
                self.sr.update_zn(self.y);
                self.cycles = self.cycles.wrapping_add(2);
            },
            0x06 => {
                let addr = bus.read_u24(self.pc);
                self.pc = (self.pc + 3) % 0x0100_0000;
                bus.write_u16(addr, self.y);
                self.cycles = self.cycles.wrapping_add(3);
            },
            0x10 => {
                let value = bus.read_u16(self.pc);
                self.pc = (self.pc + 2) % 0x0100_0000;
                let sum = self.a as u32 + value as u32;
                let result = (sum % 0x10000) as u16;
                self.sr.carry = sum > 0xFFFF;
                self.sr.overflow = ((self.a ^ result) & (value ^ result) & 0x8000) != 0;
                self.a = result;
                self.sr.update_zn(self.a);
                self.cycles = self.cycles.wrapping_add(2);
            },
            0x11 => {
                let value = bus.read_u16(self.pc);
                self.pc = (self.pc + 2) % 0x0100_0000;
                let result = ((self.a as u32 + 0x10000 - value as u32) % 0x10000) as u16;
                self.sr.carry = self.a >= value;
                self.sr.overflow = ((self.a ^ value) & (self.a ^ result) & 0x8000) != 0;
                self.a = result;
                self.sr.update_zn(self.a);
                self.cycles = self.cycles.wrapping_add(2);
            },
            0x12 => {
                let value = bus.read_u16(self.pc);
                self.pc = (self.pc + 2) % 0x0100_0000;
                self.a = self.a & value;
                self.sr.update_zn(self.a);
                self.cycles = self.cycles.wrapping_add(2);
            },
            0x13 => {
                let value = bus.read_u16(self.pc);
                self.pc = (self.pc + 2) % 0x0100_0000;
                self.a = self.a | value;
                self.sr.update_zn(self.a);
                self.cycles = self.cycles.wrapping_add(2);
            },
            0x14 => {
                let value = bus.read_u16(self.pc);
                self.pc = (self.pc + 2) % 0x0100_0000;
                self.a = self.a ^ value;
                self.sr.update_zn(self.a);
                self.cycles = self.cycles.wrapping_add(2);
            },
            0x20 => {
                let addr = bus.read_u24(self.pc);
                self.pc = addr;
                self.cycles = self.cycles.wrapping_add(3);
            },
            0x21 => {
                let addr = bus.read_u24(self.pc);
                self.pc = (self.pc + 3) % 0x0100_0000;
                let ret = self.pc;
                self.push_u24(bus, ret);
                self.pc = addr;
                self.cycles = self.cycles.wrapping_add(5);
            },
            0x22 => {
                self.pc = self.pop_u24(bus);
                self.cycles = self.cycles.wrapping_add(4);
            },
            0x30 => {
                let byte = bus.read_u8(self.pc);
                self.pc = (self.pc + 1) % 0x0100_0000;
                self.pc = Self::branch_target(self.pc, byte);
                self.cycles = self.cycles.wrapping_add(2);
            },
            0x31 | 0x32 | 0x33 | 0x34 | 0x35 | 0x36 | 0x37 | 0x38 => {
                let byte = bus.read_u8(self.pc);
                self.pc = (self.pc + 1) % 0x0100_0000;
                let taken = match opcode {
                    0x31 => self.sr.zero,
                    0x32 => !self.sr.zero,
                    0x33 => self.sr.carry,
                    0x34 => !self.sr.carry,
                    0x35 => self.sr.negative,
                    0x36 => !self.sr.negative,
                    _ => {
                        if opcode == 0x37 {
                            self.sr.overflow
                        } else {
                            !self.sr.overflow
                        }
                    },
                };
                if taken {
                    self.pc = Self::branch_target(self.pc, byte);
                    self.cycles = self.cycles.wrapping_add(3);
                } else {
                    self.cycles = self.cycles.wrapping_add(2);
                }
            },
            0x40 => {
                self.sr.interrupt_disable = true;
                self.cycles = self.cycles.wrapping_add(1);
            },
            0x41 => {
                self.sr.interrupt_disable = false;
                self.cycles = self.cycles.wrapping_add(1);
            },
            0x42 => {
                self.pc = self.pop_u24(bus);
                self.sr.interrupt_disable = false;
                self.cycles = self.cycles.wrapping_add(5);
            },
            0xFF => {
                self.halted = true;
                self.cycles = self.cycles.wrapping_add(1);
            },
            _ => {
                self.cycles = self.cycles.wrapping_add(1);
            },
        }
    }

    fn branch_target(pc_after: u32, byte: u8) -> (dest: u32)
        requires
            pc_after < 0x0100_0000,
        ensures
            dest == branch_dest(pc_after, byte),
            dest < 0x0100_0000,
    {
        let delta: u32 = if byte >= 128 {
            byte as u32 + 0xFFFF00
        } else {
            byte as u32
        };
        (pc_after + delta) % 0x0100_0000
    }

    /// Push a 24-bit value to the stack: write then decrement, low byte
    /// first.
    fn push_u24(&mut self, bus: &mut Bus24, value: u32)
        requires
            old(self).wf(),
            old(bus).wf(),
        ensures
            final(self).wf(),
            final(bus).wf(),
            final(self)@ == (CpuV { sp: spec_push24(old(self)@.sp, old(bus)@, value).0, ..old(self)@ }),
            final(bus)@ == spec_push24(old(self)@.sp, old(bus)@, value).1,
    {
        bus.write_u8(self.sp as u32, (value % 256) as u8);
        self.sp = self.sp.wrapping_sub(1);
        bus.write_u8(self.sp as u32, ((value / 256) % 256) as u8);
        self.sp = self.sp.wrapping_sub(1);
        bus.write_u8(self.sp as u32, ((value / 65536) % 256) as u8);
        self.sp = self.sp.wrapping_sub(1);
    }

    /// Pop a 24-bit value from the stack: increment then read, high byte
    /// first.
    fn pop_u24(&mut self, bus: &Bus24) -> (value: u32)
        requires
            old(self).wf(),
            bus.wf(),
        ensures
            final(self).wf(),
            final(self)@ == (CpuV { sp: spec_pop24(old(self)@.sp, bus@).0, ..old(self)@ }),
            value == spec_pop24(old(self)@.sp, bus@).1,
            value < 0x0100_0000,
    {
        self.sp = self.sp.wrapping_add(1);
        let hi = bus.read_u8(self.sp as u32) as u32;
        self.sp = self.sp.wrapping_add(1);
        let mid = bus.read_u8(self.sp as u32) as u32;
        self.sp = self.sp.wrapping_add(1);
        let lo = bus.read_u8(self.sp as u32) as u32;
        lo + mid * 256 + hi * 65536
    }
}

impl Default for Cpu {
    fn default() -> (cpu: Cpu)
        ensures
            cpu.wf(),
            cpu@ == spec_cpu_init(),
    {
        Cpu::new()
    }
}

} // verus!
