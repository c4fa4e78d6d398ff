//! The default BIOS image: the boot program assembled from its source,
//! laid out behind the eight-entry interrupt vector table.
//!
//! The layout is pinned exactly: each vector holds the little-endian
//! 24-bit address of its handler label, the system-call stub sits at
//! `0x100`, and the assembled code fills the image from `0x20` on.

use vstd::prelude::*;
use vstd::string::StringSliceAdditionalSpecFns;

use crate::nraw::{AssembledProgram, assemble, spec_asm, st_lookup};

verus! {

pub const BIOS_IMAGE_SIZE: usize = 0x10000;
pub const BIOS_CODE_OFFSET: usize = 0x20;

/// The boot program source: the reset path enables interrupts, switches
/// the display on, chains to a cartridge when one is present, and parks
/// in a wait loop otherwise; each interrupt gets a returning handler.
pub open spec fn spec_bios_source() -> Seq<char> {
    ("
start:
    CLI

    LDA #0x0001
    STA 0x100000

    LDA 0x400000
    BNE jump_to_cart

idle_loop:
    WFI
    BRA idle_loop

jump_to_cart:
    JMP 0x400000

syscall_entry:
    BNE check_syscall_1
    JMP syscall_0

check_syscall_1:
    DEC A
    BNE check_syscall_2
    JMP syscall_1

check_syscall_2:
    DEC A
    BNE unknown_syscall
    JMP syscall_2

unknown_syscall:
    LDA #0xFFFF
    RTS

syscall_0:
    LDA #0x0100
    RTS

syscall_1:
vblank_wait_loop:
    LDA 0x100002
    AND #0x0001
    BEQ vblank_wait_loop
    RTS

syscall_2:
delay_loop:
    DEC R0
    BNE delay_loop
    RTS

swi_handler:
    RTI

pad_event_handler:
    RTI

timer0_handler:
    RTI

apu_buf_empty_handler:
    RTI

vlu_done_handler:
    RTI

dma_done_handler:
    RTI

hblank_handler:
    RTI

nmi_handler:
    RTI
")@
}

/// The boot source as the bytes the assembler reads.
pub open spec fn spec_bios_source_bytes() -> Seq<u8> {
    vstd::utf8::encode_utf8(spec_bios_source())
}

/// Boot program source text.
pub fn bios_source() -> (r: &'static str)
    ensures
        r@ == spec_bios_source(),
{
    "
start:
    CLI

    LDA #0x0001
    STA 0x100000

    LDA 0x400000
    BNE jump_to_cart

idle_loop:
    WFI
    BRA idle_loop

jump_to_cart:
    JMP 0x400000

syscall_entry:
    BNE check_syscall_1
    JMP syscall_0

check_syscall_1:
    DEC A
    BNE check_syscall_2
    JMP syscall_1

check_syscall_2:
    DEC A
    BNE unknown_syscall
    JMP syscall_2

unknown_syscall:
    LDA #0xFFFF
    RTS

syscall_0:
    LDA #0x0100
    RTS

syscall_1:
vblank_wait_loop:
    LDA 0x100002
    AND #0x0001
    BEQ vblank_wait_loop
    RTS

syscall_2:
delay_loop:
    DEC R0
    BNE delay_loop
    RTS

swi_handler:
    RTI

pad_event_handler:
    RTI

timer0_handler:
    RTI

apu_buf_empty_handler:
    RTI

vlu_done_handler:
    RTI

dma_done_handler:
    RTI

hblank_handler:
    RTI

nmi_handler:
    RTI
"
}

/// The BIOS-space address of a label in the assembled boot code.
pub open spec fn spec_bios_entry(addr: u32) -> u32 {
    vstd::wrapping::u32_specs::wrapping_add(
        vstd::wrapping::u32_specs::wrapping_add(0xFF0000u32, BIOS_CODE_OFFSET as u32),
        addr,
    )
}

/// One 3-byte little-endian vector entry, written only when the label
/// exists.
pub open spec fn spec_put_vector(b: Seq<u8>, offset: int, lookup: Option<u32>) -> Seq<u8> {
    match lookup {
        None => b,
        Some(addr) => {
            let entry = spec_bios_entry(addr);
            b.update(offset, (entry % 256) as u8).update(offset + 1, ((entry / 256) % 256) as u8)
                .update(offset + 2, ((entry / 65536) % 256) as u8)
        },
    }
}

/// The BIOS image built from an assembled boot program: a `0xFF` fill,
/// the nine vectors, the system-call jump stub at `0x100`, and the code
/// from `0x20`, truncated to the image.
pub open spec fn spec_bios_image(code: Seq<u8>, labels: Seq<(Seq<u8>, u32)>) -> Seq<u8> {
    let b0 = Seq::new(BIOS_IMAGE_SIZE as nat, |i: int| 0xFFu8);
    let b1 = spec_put_vector(b0, 0x00, st_lookup(labels, ("start").spec_bytes()));
    let b2 = spec_put_vector(b1, 0x03, st_lookup(labels, ("swi_handler").spec_bytes()));
    let b3 = spec_put_vector(b2, 0x06, st_lookup(labels, ("pad_event_handler").spec_bytes()));
    let b4 = spec_put_vector(b3, 0x09, st_lookup(labels, ("timer0_handler").spec_bytes()));
    let b5 = spec_put_vector(b4, 0x0C, st_lookup(labels, ("apu_buf_empty_handler").spec_bytes()));
    let b6 = spec_put_vector(b5, 0x0F, st_lookup(labels, ("vlu_done_handler").spec_bytes()));
    let b7 = spec_put_vector(b6, 0x12, st_lookup(labels, ("dma_done_handler").spec_bytes()));
    let b8 = spec_put_vector(b7, 0x15, st_lookup(labels, ("hblank_handler").spec_bytes()));
    let b9 = spec_put_vector(b8, 0x18, st_lookup(labels, ("nmi_handler").spec_bytes()));
    let b10 = match st_lookup(labels, ("syscall_entry").spec_bytes()) {
        None => b9,
        Some(addr) => {
            let entry = spec_bios_entry(addr);
            b9.update(0x100, 0x20u8).update(0x101, (entry % 256) as u8).update(
                0x102,
                ((entry / 256) % 256) as u8,
            ).update(0x103, ((entry / 65536) % 256) as u8)
        },
    };
    let n = if code.len() < BIOS_IMAGE_SIZE - BIOS_CODE_OFFSET {
        code.len() as int
    } else {
        (BIOS_IMAGE_SIZE - BIOS_CODE_OFFSET) as int
    };
    Seq::new(
        BIOS_IMAGE_SIZE as nat,
        |i: int|
            if BIOS_CODE_OFFSET <= i < BIOS_CODE_OFFSET + n {
                code[i - BIOS_CODE_OFFSET]
            } else {
                b10[i]
            },
    )
}

/// Write one 3-byte little-endian vector entry.
fn put_vector(bios: &mut Vec<u8>, offset: usize, program: &AssembledProgram, name: &str)
    requires
        old(bios)@.len() == BIOS_IMAGE_SIZE,
        offset + 3 <= BIOS_IMAGE_SIZE,
    ensures
        final(bios)@.len() == BIOS_IMAGE_SIZE,
        final(bios)@ == spec_put_vector(
            old(bios)@,
            offset as int,
            st_lookup(program.labels@, name.spec_bytes()),
        ),
{
    match program.labels.get(name) {
        Some(label_addr) => {
            let entry = 0xFF0000u32.wrapping_add(BIOS_CODE_OFFSET as u32).wrapping_add(label_addr);
            bios[offset] = (entry % 256) as u8;
            bios[offset + 1] = ((entry / 256) % 256) as u8;
            bios[offset + 2] = ((entry / 65536) % 256) as u8;
        },
        None => {},
    }
}

/// Produce the default BIOS image: `0xFF`-filled, the vector table in
/// the first `0x20` bytes, a jump stub for the system-call entry at
/// `0x100`, and the assembled boot code from `0x20` on; if the boot
/// source failed to assemble, the bare `0xFF` fill.
#[verifier::spinoff_prover]
#[verifier::rlimit(100)]
pub fn default_bios() -> (r: Vec<u8>)
    ensures
        r@.len() == BIOS_IMAGE_SIZE,
        spec_asm(spec_bios_source_bytes()) is Ok ==> r@ == spec_bios_image(
            spec_asm(spec_bios_source_bytes())->Ok_0.0,
            spec_asm(spec_bios_source_bytes())->Ok_0.1,
        ),
        spec_asm(spec_bios_source_bytes()) is Err ==> r@ == Seq::new(
            BIOS_IMAGE_SIZE as nat,
            |i: int| 0xFFu8,
        ),
{
    let mut bios = vec![0xFFu8; BIOS_IMAGE_SIZE];
    proof {
        assert(bios@ =~= Seq::new(BIOS_IMAGE_SIZE as nat, |i: int| 0xFFu8));
    }
    let src = bios_source();
    let program = match assemble(src) {
        Ok(p) => p,
        Err(_) => {
            return bios;
        },
    };
    let ghost labelsv = program.labels@;
    let ghost codev = program.bytes@;
    proof {
        assert(src.spec_bytes() == spec_bios_source_bytes());
        assert(spec_asm(spec_bios_source_bytes()) == Ok::<_, crate::nraw::AsmErrV>(
            (codev, labelsv),
        ));
    }
    put_vector(&mut bios, 0x00, &program, "start");
    put_vector(&mut bios, 0x03, &program, "swi_handler");
    put_vector(&mut bios, 0x06, &program, "pad_event_handler");
    put_vector(&mut bios, 0x09, &program, "timer0_handler");
    put_vector(&mut bios, 0x0C, &program, "apu_buf_empty_handler");
    put_vector(&mut bios, 0x0F, &program, "vlu_done_handler");
    put_vector(&mut bios, 0x12, &program, "dma_done_handler");
    put_vector(&mut bios, 0x15, &program, "hblank_handler");
    put_vector(&mut bios, 0x18, &program, "nmi_handler");
    let ghost b9 = bios@;
    match program.labels.get("syscall_entry") {
        Some(addr) => {
            let entry = 0xFF0000u32.wrapping_add(BIOS_CODE_OFFSET as u32).wrapping_add(addr);
            bios[0x100] = 0x20;
            bios[0x101] = (entry % 256) as u8;
            bios[0x102] = ((entry / 256) % 256) as u8;
            bios[0x103] = ((entry / 65536) % 256) as u8;
        },
        None => {},
    }
    let ghost b10 = bios@;
    let n = if program.bytes.len() < BIOS_IMAGE_SIZE - BIOS_CODE_OFFSET {
        program.bytes.len()
    } else {
        BIOS_IMAGE_SIZE - BIOS_CODE_OFFSET
    };
    let mut i: usize = 0;
    while i < n
        invariant
            i <= n,
            n <= program.bytes@.len(),
            program.bytes@ == codev,
            n == (if codev.len() < BIOS_IMAGE_SIZE - BIOS_CODE_OFFSET {
                codev.len() as int
            } else {
                (BIOS_IMAGE_SIZE - BIOS_CODE_OFFSET) as int
            }),
            n + BIOS_CODE_OFFSET <= BIOS_IMAGE_SIZE,
            bios@.len() == BIOS_IMAGE_SIZE,
            forall|t: int|
                0 <= t < BIOS_IMAGE_SIZE ==> #[trigger] bios@[t] == (
                if BIOS_CODE_OFFSET <= t < BIOS_CODE_OFFSET + i {
                    codev[t - BIOS_CODE_OFFSET]
                } else {
                    b10[t]
                }),
        decreases n - i,
    {
        bios[BIOS_CODE_OFFSET + i] = program.bytes[i];
        i = i + 1;
    }
    proof {
        assert(bios@ =~= spec_bios_image(codev, labelsv));
    }
    bios
}

} // verus!
