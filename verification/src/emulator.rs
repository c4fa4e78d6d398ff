//! Top-level Nexel-24 machine: the CPU coupled to the routed bus, with
//! the VDP advanced by exactly the cycles each instruction consumed.
//!
//! `step` runs one CPU instruction and clocks the VDP by the consumed
//! cycles; `step_frame` repeats this until one frame's worth of cycles
//! has passed or the CPU halts.  Memory accesses route the VDP windows
//! to the VDP and everything else to the bus's backing storage.

use vstd::prelude::*;

use crate::apu::{Apu, ApuV, apu_wf, spec_apu_init};
use crate::bus::{Bus24, BusV, bus_read8, bus_wf, bus_write8, spec_bus_init_routed};
use crate::cpu::{Cpu, CpuV, cpu_wf, spec_cpu_init, spec_cpu_step, spec_reset};
use crate::vdp::{Vdp, spec_vdp_step};
use crate::vm::{BaseplateVm, VmV};

verus! {

pub const CPU_CLOCK_HZ: u64 = 18_432_000;
pub const TARGET_FPS: u64 = 60;
pub const CYCLES_PER_FRAME: u64 = 18_432_000 / 60;

/// Mathematical view of the whole machine.
pub ghost struct EmuV {
    pub cpu: CpuV,
    pub bus: BusV,
    pub apu: ApuV,
    pub vm: Option<VmV>,
    pub frame_count: u64,
    pub target_cycles_per_frame: u64,
}

pub open spec fn emu_wf(e: EmuV) -> bool {
    &&& cpu_wf(e.cpu)
    &&& bus_wf(e.bus)
    &&& apu_wf(e.apu)
    &&& e.bus.vdp is Some
}

/// One machine step: one CPU step, then the VDP advanced by the cycles
/// it consumed.
#[verifier::opaque]
pub open spec fn spec_emu_step(e: EmuV) -> EmuV
    recommends
        emu_wf(e),
{
    let stepped = spec_cpu_step(e.cpu, e.bus);
    let elapsed = vstd::wrapping::u64_specs::wrapping_sub(stepped.0.cycles, e.cpu.cycles);
    let bus2 = match stepped.1.vdp {
        Some(v) => BusV { vdp: Some(spec_vdp_step(v, elapsed).0), ..stepped.1 },
        None => stepped.1,
    };
    EmuV { cpu: stepped.0, bus: bus2, ..e }
}

/// `n`-fold iteration of the machine step.
pub open spec fn emu_steps(e: EmuV, n: nat) -> EmuV
    decreases n,
{
    if n == 0 {
        e
    } else {
        spec_emu_step(emu_steps(e, (n - 1) as nat))
    }
}

/// A frame is complete once the CPU has consumed its cycle budget or
/// halted.
pub open spec fn frame_done(e: EmuV, target: u64) -> bool {
    e.cpu.cycles >= target || e.cpu.halted
}

/// The frame counter after `k` more frames, counted with 64-bit wrap.
pub open spec fn spec_frames_after(fc: u64, k: int) -> u64
    decreases k,
{
    if k <= 0 {
        fc
    } else {
        vstd::wrapping::u64_specs::wrapping_add(spec_frames_after(fc, k - 1), 1)
    }
}

/// Away from the 64-bit ceiling, every machine step advances the cycle
/// counter by one to seven cycles.
#[verifier::spinoff_prover]
#[verifier::rlimit(100)]
pub proof fn lemma_emu_step_cycles(e: EmuV)
    requires
        e.cpu.cycles + 7 <= u64::MAX,
    ensures
        e.cpu.cycles < spec_emu_step(e).cpu.cycles <= e.cpu.cycles + 7,
{
    reveal(spec_emu_step);
}

/// A machine step touches only the CPU and the bus.
pub proof fn lemma_emu_step_preserves(e: EmuV)
    ensures
        spec_emu_step(e).frame_count == e.frame_count,
        spec_emu_step(e).target_cycles_per_frame == e.target_cycles_per_frame,
        spec_emu_step(e).apu == e.apu,
        spec_emu_step(e).vm == e.vm,
{
    reveal(spec_emu_step);
}

/// Iterated machine steps touch only the CPU and the bus.
pub proof fn lemma_emu_steps_preserves(e: EmuV, n: nat)
    ensures
        emu_steps(e, n).frame_count == e.frame_count,
        emu_steps(e, n).target_cycles_per_frame == e.target_cycles_per_frame,
        emu_steps(e, n).apu == e.apu,
        emu_steps(e, n).vm == e.vm,
    decreases n,
{
    if n > 0 {
        lemma_emu_steps_preserves(e, (n - 1) as nat);
        lemma_emu_step_preserves(emu_steps(e, (n - 1) as nat));
    }
}

/// Main Nexel-24 machine state.
pub struct Nexel24 {
    pub cpu: Cpu,
    pub bus: Bus24,
    pub apu: Apu,
    pub vm: Option<BaseplateVm>,
    pub frame_count: u64,
    pub target_cycles_per_frame: u64,
}

impl View for Nexel24 {
    type V = EmuV;

    open spec fn view(&self) -> EmuV {
        EmuV {
            cpu: self.cpu@,
            bus: self.bus@,
            apu: self.apu@,
            vm: match self.vm {
                Some(ref vm) => Some(vm@),
                None => None,
            },
            frame_count: self.frame_count,
            target_cycles_per_frame: self.target_cycles_per_frame,
        }
    }
}

impl Nexel24 {
    pub open spec fn wf(&self) -> bool {
        emu_wf(self@)
    }

    /// Create a machine with video routing enabled on the bus.
    pub fn new() -> (emu: Nexel24)
        ensures
            emu.wf(),
            emu@ == (EmuV {
                cpu: spec_cpu_init(),
                bus: spec_bus_init_routed(),
                apu: spec_apu_init(),
                vm: None,
                frame_count: 0,
                target_cycles_per_frame: CYCLES_PER_FRAME,
            }),
    {
        let mut bus = Bus24::new();
        bus.enable_vdp_routing();
        Nexel24 {
            cpu: Cpu::new(),
            bus,
            apu: Apu::new(),
            vm: None,
            frame_count: 0,
            target_cycles_per_frame: CYCLES_PER_FRAME,
        }
    }

    /// Reset the CPU from the reset vector and clear the frame counter;
    /// loaded memory is left alone.
    pub fn reset(&mut self)
        requires
            old(self).wf(),
        ensures
            final(self).wf(),
            final(self)@ == (EmuV {
                cpu: spec_reset(old(self)@.cpu, old(self)@.bus),
                frame_count: 0,
                ..old(self)@
            }),
    {
        self.cpu.reset(&self.bus);
        self.frame_count = 0;
    }

    /// Load a BIOS image.
    pub fn load_bios(&mut self, data: &[u8])
        requires
            old(self).wf(),
        ensures
            final(self).wf(),
            final(self)@ == (EmuV {
                bus: BusV {
                    bios: crate::bus::overlay_prefix(old(self)@.bus.bios, data@),
                    ..old(self)@.bus
                },
                ..old(self)@
            }),
    {
        self.bus.load_bios(data);
    }

    /// Load a cartridge ROM image.
    pub fn load_cartridge(&mut self, data: &[u8])
        requires
            old(self).wf(),
        ensures
            final(self).wf(),
            final(self)@ == (EmuV {
                bus: BusV {
                    cart_rom: crate::bus::overlay_prefix(old(self)@.bus.cart_rom, data@),
                    ..old(self)@.bus
                },
                ..old(self)@
            }),
    {
        self.bus.load_cart_rom(data);
    }

    /// The attached video processor.
    pub fn vdp(&self) -> (r: &Vdp)
        requires
            self.wf(),
        ensures
            r@ == self@.bus.vdp->Some_0,
    {
        self.bus.vdp_ref()
    }

    /// The attached video processor, for mutation.
    pub fn vdp_mut(&mut self) -> (r: &mut Vdp)
        requires
            old(self).wf(),
        ensures
            final(self)@ == (EmuV {
                bus: BusV { vdp: Some(final(r)@), ..old(self)@.bus },
                ..old(self)@
            }),
            r@ == old(self)@.bus.vdp->Some_0,
    {
        self.bus.vdp_ref_mut()
    }

    /// Execute one CPU instruction, then advance the VDP by the cycles
    /// the instruction consumed.
    #[verifier::spinoff_prover]
    #[verifier::rlimit(100)]
    pub fn step(&mut self)
        requires
            old(self).wf(),
        ensures
            final(self).wf(),
            final(self)@ == spec_emu_step(old(self)@),
    {
        proof {
            reveal(spec_emu_step);
        }
        let before = self.cpu.cycles;
        self.cpu.step(&mut self.bus);
        let elapsed = self.cpu.cycles.wrapping_sub(before);
        self.bus.vdp_step(elapsed);
    }

    /// Run the CPU until the current frame's cycle target is reached or
    /// the CPU halts (or, at the 64-bit cycle ceiling only, the counter
    /// ceases to advance); reports how many machine steps ran.
    #[verifier::spinoff_prover]
    #[verifier::rlimit(100)]
    fn run_to_frame_target(&mut self) -> (n: Ghost<nat>)
        requires
            old(self).wf(),
        ensures
            final(self).wf(),
            final(self)@ == emu_steps(old(self)@, n@),
            ({
                let target = vstd::wrapping::u64_specs::wrapping_add(
                    old(self)@.cpu.cycles,
                    old(self)@.target_cycles_per_frame,
                );
                &&& (forall|k: nat| k < n@ ==> !frame_done(#[trigger] emu_steps(old(self)@, k), target))
                &&& (frame_done(final(self)@, target) || (n@ > 0 && final(self)@.cpu.cycles
                    <= emu_steps(old(self)@, (n@ - 1) as nat).cpu.cycles))
                &&& (old(self)@.cpu.cycles + old(self)@.target_cycles_per_frame + 16 <= u64::MAX
                    ==> frame_done(final(self)@, target) && old(self)@.cpu.cycles
                    <= final(self)@.cpu.cycles <= target + 6)
            }),
    {
        let ghost e0 = self@;
        let ghost nowrap = e0.cpu.cycles + e0.target_cycles_per_frame + 16 <= u64::MAX;
        let start_cycles = self.cpu.cycles;
        let target_cycles = start_cycles.wrapping_add(self.target_cycles_per_frame);
        let mut advanced = true;
        let ghost mut n: nat = 0nat;
        while advanced && self.cpu.cycles < target_cycles && !self.cpu.halted
            invariant
                self.wf(),
                self@ == emu_steps(e0, n),
                forall|k: nat| k < n ==> !frame_done(#[trigger] emu_steps(e0, k), target_cycles),
                n == 0 ==> advanced,
                n > 0 ==> (advanced == (emu_steps(e0, n).cpu.cycles > emu_steps(
                    e0,
                    (n - 1) as nat,
                ).cpu.cycles)),
                target_cycles == vstd::wrapping::u64_specs::wrapping_add(
                    e0.cpu.cycles,
                    e0.target_cycles_per_frame,
                ),
                nowrap == (e0.cpu.cycles + e0.target_cycles_per_frame + 16 <= u64::MAX),
                nowrap ==> advanced,
                nowrap ==> e0.cpu.cycles <= self@.cpu.cycles <= target_cycles + 6,
            decreases (if advanced {
                1int
            } else {
                0int
            }), (if self.cpu.cycles < target_cycles {
                target_cycles - self.cpu.cycles
            } else {
                0int
            }),
        {
            let before = self.cpu.cycles;
            proof {
                if nowrap {
                    lemma_emu_step_cycles(self@);
                }
            }
            self.step();
            advanced = self.cpu.cycles > before;
            proof {
                assert(!frame_done(emu_steps(e0, n), target_cycles));
                n = n + 1;
                assert(self@ == emu_steps(e0, n));
            }
        }
        Ghost(n)
    }

    /// Run CPU instructions for one frame's worth of cycles, or until
    /// the CPU halts, then count the frame.  The final state is the
    /// first step iterate at which the frame is done (or, at the 64-bit
    /// cycle ceiling only, at which the counter ceased to advance); away
    /// from the ceiling the CPU ends past its cycle budget or halted.
    #[verifier::spinoff_prover]
    #[verifier::rlimit(100)]
    pub fn step_frame(&mut self)
        requires
            old(self).wf(),
        ensures
            final(self).wf(),
            exists|n: nat|
                #![trigger emu_steps(old(self)@, n)]
                {
                    let target = vstd::wrapping::u64_specs::wrapping_add(
                        old(self)@.cpu.cycles,
                        old(self)@.target_cycles_per_frame,
                    );
                    let done = emu_steps(old(self)@, n);
                    &&& final(self)@ == (EmuV {
                        frame_count: vstd::wrapping::u64_specs::wrapping_add(
                            old(self)@.frame_count,
                            1,
                        ),
                        ..done
                    })
                    &&& (forall|k: nat| k < n ==> !frame_done(#[trigger] emu_steps(old(self)@, k), target))
                    &&& (frame_done(done, target) || (n > 0 && done.cpu.cycles <= emu_steps(
                        old(self)@,
                        (n - 1) as nat,
                    ).cpu.cycles))
                },
            final(self)@.target_cycles_per_frame == old(self)@.target_cycles_per_frame,
            final(self)@.apu == old(self)@.apu,
            final(self)@.vm == old(self)@.vm,
            old(self)@.cpu.cycles + old(self)@.target_cycles_per_frame + 16 <= u64::MAX ==> (
            final(self)@.cpu.cycles >= old(self)@.cpu.cycles + old(self)@.target_cycles_per_frame
                || final(self)@.cpu.halted),
            old(self)@.cpu.cycles + old(self)@.target_cycles_per_frame + 16 <= u64::MAX ==> (
            old(self)@.cpu.cycles <= final(self)@.cpu.cycles <= old(self)@.cpu.cycles
                + old(self)@.target_cycles_per_frame + 6),
    {
        let ghost e0 = self@;
        let n = self.run_to_frame_target();
        proof {
            lemma_emu_steps_preserves(e0, n@);
        }
        self.frame_count = self.frame_count.wrapping_add(1);
        proof {
            assert(self@ == (EmuV {
                frame_count: vstd::wrapping::u64_specs::wrapping_add(e0.frame_count, 1),
                ..emu_steps(e0, n@)
            }));
        }
    }

    /// Run up to `num_frames` frames, stopping early exactly when the
    /// CPU halts; each completed frame raises the frame counter once,
    /// and away from the 64-bit cycle ceiling every frame costs at
    /// least the per-frame cycle budget.
    #[verifier::spinoff_prover]
    #[verifier::rlimit(100)]
    pub fn run_frames(&mut self, num_frames: u64)
        requires
            old(self).wf(),
        ensures
            final(self).wf(),
            exists|k: int|
                #![trigger spec_frames_after(old(self)@.frame_count, k)]
                {
                    &&& 0 <= k <= num_frames
                    &&& final(self)@.frame_count == spec_frames_after(old(self)@.frame_count, k)
                    &&& (k == num_frames || final(self)@.cpu.halted)
                    &&& (old(self)@.cpu.cycles + num_frames * (old(self)@.target_cycles_per_frame
                        + 16) <= u64::MAX && !final(self)@.cpu.halted ==> final(self)@.cpu.cycles
                        >= old(self)@.cpu.cycles + k * old(self)@.target_cycles_per_frame)
                },
    {
        let ghost e0 = self@;
        let ghost tpf = e0.target_cycles_per_frame;
        let ghost q = e0.cpu.cycles + num_frames * (tpf + 16) <= u64::MAX;
        let mut i: u64 = 0;
        while i < num_frames && !self.cpu.halted
            invariant
                i <= num_frames,
                self.wf(),
                self@.target_cycles_per_frame == tpf,
                self@.frame_count == spec_frames_after(e0.frame_count, i as int),
                q == (e0.cpu.cycles + num_frames * (tpf + 16) <= u64::MAX),
                q && !self@.cpu.halted ==> self@.cpu.cycles >= e0.cpu.cycles + i * tpf,
                q ==> self@.cpu.cycles <= e0.cpu.cycles + i * (tpf + 6),
            decreases num_frames - i,
        {
            proof {
                if q {
                    assert(i * (tpf + 6) + tpf + 16 <= num_frames * (tpf + 16))
                        by (nonlinear_arith)
                        requires
                            0 <= i < num_frames,
                            0 <= tpf,
                    ;
                }
            }
            let ghost before = self@;
            self.step_frame();
            i = i + 1;
            proof {
                if q {
                    assert(i as int * tpf == (i - 1) as int * tpf + tpf) by (nonlinear_arith);
                    assert(i as int * (tpf + 6) == (i - 1) as int * (tpf + 6) + (tpf + 6))
                        by (nonlinear_arith);
                }
            }
        }
    }

    /// Read a byte with the VDP windows routed to the VDP.
    pub fn read_memory(&self, addr: u32) -> (r: u8)
        requires
            self.wf(),
        ensures
            r == bus_read8(self@.bus, addr),
    {
        self.bus.read_u8(addr)
    }

    /// Write a byte with the VDP windows routed to the VDP.
    pub fn write_memory(&mut self, addr: u32, value: u8)
        requires
            old(self).wf(),
        ensures
            final(self).wf(),
            final(self)@ == (EmuV { bus: bus_write8(old(self)@.bus, addr, value), ..old(self)@ }),
    {
        self.bus.write_u8(addr, value);
    }

    /// Current execution statistics.
    pub fn stats(&self) -> (r: EmulatorStats)
        ensures
            r.total_cycles == self@.cpu.cycles,
            r.frame_count == self@.frame_count,
            r.pc == self@.cpu.pc,
            r.halted == self@.cpu.halted,
    {
        EmulatorStats {
            total_cycles: self.cpu.cycles,
            frame_count: self.frame_count,
            pc: self.cpu.pc,
            halted: self.cpu.halted,
        }
    }
}

impl Default for Nexel24 {
    fn default() -> (emu: Nexel24)
        ensures
            emu.wf(),
    {
        Nexel24::new()
    }
}

/// Emulator execution statistics.
#[derive(Debug, Clone, Copy, PartialEq, Eq, Structural)]
pub struct EmulatorStats {
    pub total_cycles: u64,
    pub frame_count: u64,
    pub pc: u32,
    pub halted: bool,
}

} // verus!
