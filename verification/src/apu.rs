//! APU-6 audio processor: six channel register banks, the global
//! status/control pair, and the buffer-empty latch.
//!
//! The register map and the stepping rule are specified exactly: a step
//! converts cycles to ticks, drains every enabled channel's sample
//! length, and latches buffer-empty when a channel runs dry; the latch
//! is consumed once by `take_buffer_empty`.

use vstd::prelude::*;

verus! {

pub const APU_CHANNEL_COUNT: usize = 6;
pub const CHANNEL_STRIDE: u32 = 0x10;
pub const APU_STATUS_OFFSET: u32 = 0x60;
pub const APU_GLOBAL_CONTROL_OFFSET: u32 = 0x61;
pub const APU_GLOBAL_VERSION_OFFSET: u32 = 0x62;
pub const SUPPORTED_VERSION: u8 = 0x10;

/// Voice types supported per channel.
#[derive(Debug, Clone, Copy, PartialEq, Eq, Structural)]
pub enum ChannelVoice {
    Pcm,
    Fm,
    Wavetable,
    Noise,
}

pub open spec fn voice_from_bits(bits: u8) -> ChannelVoice {
    if bits % 4 == 0 {
        ChannelVoice::Pcm
    } else if bits % 4 == 1 {
        ChannelVoice::Fm
    } else if bits % 4 == 2 {
        ChannelVoice::Wavetable
    } else {
        ChannelVoice::Noise
    }
}

pub open spec fn voice_bits(v: ChannelVoice) -> u8 {
    match v {
        ChannelVoice::Pcm => 0,
        ChannelVoice::Fm => 1,
        ChannelVoice::Wavetable => 2,
        ChannelVoice::Noise => 3,
    }
}

impl ChannelVoice {
    pub fn from_bits(bits: u8) -> (r: ChannelVoice)
        ensures
            r == voice_from_bits(bits),
    {
        if bits % 4 == 0 {
            ChannelVoice::Pcm
        } else if bits % 4 == 1 {
            ChannelVoice::Fm
        } else if bits % 4 == 2 {
            ChannelVoice::Wavetable
        } else {
            ChannelVoice::Noise
        }
    }

    pub fn bits(self) -> (r: u8)
        ensures
            r == voice_bits(self),
    {
        match self {
            ChannelVoice::Pcm => 0,
            ChannelVoice::Fm => 1,
            ChannelVoice::Wavetable => 2,
            ChannelVoice::Noise => 3,
        }
    }
}

/// One audio channel's register state.
#[derive(Debug, Clone, Copy, PartialEq, Eq, Structural)]
pub struct ChannelState {
    pub enabled: bool,
    pub voice: ChannelVoice,
    pub volume: u8,
    pub pan: u8,
    pub frequency: u16,
    pub effect: u8,
    pub sample_address: u32,
    pub sample_length: u16,
    pub buffer_empty: bool,
}

pub open spec fn channel_default() -> ChannelState {
    ChannelState {
        enabled: false,
        voice: ChannelVoice::Pcm,
        volume: 0xFF,
        pan: 0x80,
        frequency: 0,
        effect: 0,
        sample_address: 0,
        sample_length: 0,
        buffer_empty: true,
    }
}

/// Mathematical view of the APU.
pub ghost struct ApuV {
    pub channels: Seq<ChannelState>,
    pub status_buffer_empty: bool,
    pub status_channel_active: bool,
    pub global_control: u8,
    pub buffer_empty_latch: bool,
}

pub open spec fn apu_wf(a: ApuV) -> bool {
    &&& a.channels.len() == APU_CHANNEL_COUNT
    &&& forall|i: int|
        0 <= i < a.channels.len() ==> (#[trigger] a.channels[i]).sample_address < 0x0100_0000
}

/// Status bits recomputed from the channels: a channel is active when
/// enabled, and buffer-empty is reported while an enabled channel's
/// buffer is empty.
pub open spec fn spec_status(chs: Seq<ChannelState>) -> (bool, bool) {
    (
        exists|i: int| 0 <= i < chs.len() && (#[trigger] chs[i]).enabled && chs[i].buffer_empty,
        exists|i: int| 0 <= i < chs.len() && (#[trigger] chs[i]).enabled,
    )
}

/// A byte write into one channel's register window.
pub open spec fn spec_write_channel(ch: ChannelState, reg: u32, value: u8) -> ChannelState {
    if reg == 0 {
        let enabled = value % 2 == 1;
        let ch1 = ChannelState { enabled, voice: voice_from_bits((value / 2) % 4), ..ch };
        if enabled {
            ChannelState { buffer_empty: ch1.sample_length == 0, ..ch1 }
        } else {
            ch1
        }
    } else if reg == 1 {
        ChannelState { volume: value, ..ch }
    } else if reg == 2 {
        ChannelState { pan: value, ..ch }
    } else if reg == 3 {
        if value % 2 == 1 {
            ChannelState { buffer_empty: false, ..ch }
        } else {
            ch
        }
    } else if reg == 4 {
        ChannelState { frequency: (ch.frequency - ch.frequency % 256 + value) as u16, ..ch }
    } else if reg == 5 {
        ChannelState { frequency: (ch.frequency % 256 + (value as u16) * 256) as u16, ..ch }
    } else if reg == 6 {
        ChannelState { effect: value % 8, ..ch }
    } else if reg == 8 {
        ChannelState {
            sample_address: (ch.sample_address - ch.sample_address % 256 + value) as u32,
            ..ch
        }
    } else if reg == 9 {
        ChannelState {
            sample_address: (ch.sample_address - ((ch.sample_address / 256) % 256) * 256 + (
            value as u32) * 256) as u32,
            ..ch
        }
    } else if reg == 10 {
        ChannelState {
            sample_address: (ch.sample_address % 65536 + (value as u32) * 65536) as u32,
            ..ch
        }
    } else if reg == 11 {
        ChannelState { sample_length: (ch.sample_length % 256 + (value as u16) * 256) as u16, ..ch }
    } else if reg == 12 {
        ChannelState {
            sample_length: (ch.sample_length - ch.sample_length % 256 + value) as u16,
            ..ch
        }
    } else {
        ch
    }
}

/// The buffer-empty bookkeeping run after a write to the length
/// registers.
pub open spec fn spec_length_side_effect(ch: ChannelState, latch: bool) -> (ChannelState, bool) {
    if ch.sample_length == 0 && ch.enabled {
        (ChannelState { buffer_empty: true, ..ch }, true)
    } else if ch.sample_length != 0 {
        (ChannelState { buffer_empty: false, ..ch }, latch)
    } else {
        (ch, latch)
    }
}

/// A byte read from one channel's register window.
pub open spec fn spec_read_channel(ch: ChannelState, reg: u32) -> u8 {
    if reg == 0 {
        ((if ch.enabled {
            1int
        } else {
            0
        }) + voice_bits(ch.voice) * 2) as u8
    } else if reg == 1 {
        ch.volume
    } else if reg == 2 {
        ch.pan
    } else if reg == 3 {
        ((if ch.buffer_empty {
            1int
        } else {
            0
        }) + (if ch.enabled {
            2int
        } else {
            0
        })) as u8
    } else if reg == 4 {
        (ch.frequency % 256) as u8
    } else if reg == 5 {
        (ch.frequency / 256) as u8
    } else if reg == 6 {
        ch.effect
    } else if reg == 8 {
        (ch.sample_address % 256) as u8
    } else if reg == 9 {
        ((ch.sample_address / 256) % 256) as u8
    } else if reg == 10 {
        ((ch.sample_address / 65536) % 256) as u8
    } else if reg == 11 {
        (ch.sample_length / 256) as u8
    } else if reg == 12 {
        (ch.sample_length % 256) as u8
    } else {
        0xFF
    }
}

/// One channel drained by `ticks`: an enabled channel's length falls by
/// up to `ticks`, and the buffer-empty flag rises when it reaches zero.
pub open spec fn spec_step_channel(ch: ChannelState, ticks: u64) -> (ChannelState, bool) {
    if !ch.enabled {
        (ch, false)
    } else if ch.sample_length > 0 {
        let consumed = if ticks < ch.sample_length as u64 {
            ticks as u16
        } else {
            ch.sample_length
        };
        let remaining = (ch.sample_length - consumed) as u16;
        if remaining == 0 {
            (ChannelState { sample_length: 0, buffer_empty: true, ..ch }, true)
        } else {
            (ChannelState { sample_length: remaining, ..ch }, false)
        }
    } else {
        (ChannelState { buffer_empty: true, ..ch }, true)
    }
}

/// The first `n` channels drained; the flag says whether any ran dry.
pub open spec fn spec_step_channels(chs: Seq<ChannelState>, ticks: u64, n: int) -> (
    Seq<ChannelState>,
    bool,
)
    recommends
        n <= chs.len(),
    decreases n,
{
    if n <= 0 {
        (chs, false)
    } else {
        let prev = spec_step_channels(chs, ticks, n - 1);
        let one = spec_step_channel(prev.0[n - 1], ticks);
        (prev.0.update(n - 1, one.0), prev.1 || one.1)
    }
}

/// Software state of the APU-6.
pub struct Apu {
    channels: Vec<ChannelState>,
    status_buffer_empty: bool,
    status_channel_active: bool,
    global_control: u8,
    buffer_empty_latch: bool,
}

impl View for Apu {
    type V = ApuV;

    closed spec fn view(&self) -> ApuV {
        ApuV {
            channels: self.channels@,
            status_buffer_empty: self.status_buffer_empty,
            status_channel_active: self.status_channel_active,
            global_control: self.global_control,
            buffer_empty_latch: self.buffer_empty_latch,
        }
    }
}

pub open spec fn spec_apu_init() -> ApuV {
    ApuV {
        channels: Seq::new(APU_CHANNEL_COUNT as nat, |i: int| channel_default()),
        status_buffer_empty: true,
        status_channel_active: false,
        global_control: 0,
        buffer_empty_latch: false,
    }
}

impl Apu {
    pub open spec fn wf(&self) -> bool {
        apu_wf(self@)
    }

    pub fn new() -> (apu: Apu)
        ensures
            apu.wf(),
            apu@ == spec_apu_init(),
    {
        let apu = Apu {
            channels: vec![
                ChannelState {
                    enabled: false,
                    voice: ChannelVoice::Pcm,
                    volume: 0xFF,
                    pan: 0x80,
                    frequency: 0,
                    effect: 0,
                    sample_address: 0,
                    sample_length: 0,
                    buffer_empty: true,
                };
                APU_CHANNEL_COUNT
            ],
            status_buffer_empty: true,
            status_channel_active: false,
            global_control: 0,
            buffer_empty_latch: false,
        };
        proof {
            assert(apu@.channels =~= spec_apu_init().channels);
        }
        apu
    }

    /// Whether a channel's buffer-empty flag is raised.
    pub fn channel_buffer_empty(&self, index: usize) -> (r: bool)
        requires
            self.wf(),
            index < APU_CHANNEL_COUNT,
        ensures
            r == self@.channels[index as int].buffer_empty,
    {
        self.channels[index].buffer_empty
    }

    /// Recompute the two status bits from the channels.
    fn update_status(&mut self)
        requires
            old(self).wf(),
        ensures
            final(self).wf(),
            final(self)@ == (ApuV {
                status_buffer_empty: spec_status(old(self)@.channels).0,
                status_channel_active: spec_status(old(self)@.channels).1,
                ..old(self)@
            }),
    {
        let mut active = false;
        let mut empty = false;
        let mut i: usize = 0;
        while i < APU_CHANNEL_COUNT
            invariant
                i <= APU_CHANNEL_COUNT,
                self.wf(),
                self@ == old(self)@,
                active == exists|k: int|
                    0 <= k < i && (#[trigger] self@.channels[k]).enabled,
                empty == exists|k: int|
                    0 <= k < i && (#[trigger] self@.channels[k]).enabled
                        && self@.channels[k].buffer_empty,
            decreases APU_CHANNEL_COUNT - i,
        {
            let ch = self.channels[i];
            if ch.enabled {
                active = true;
            }
            if ch.enabled && ch.buffer_empty {
                empty = true;
            }
            i = i + 1;
        }
        self.status_buffer_empty = empty;
        self.status_channel_active = active;
    }

    /// Write one byte into a channel's register window.
    #[verifier::spinoff_prover]
    #[verifier::rlimit(100)]
    fn write_channel(&mut self, idx: usize, reg: u32, value: u8)
        requires
            old(self).wf(),
            idx < APU_CHANNEL_COUNT,
        ensures
            final(self).wf(),
            final(self)@ == ({
                let ch1 = spec_write_channel(old(self)@.channels[idx as int], reg, value);
                let after = if reg == 11 || reg == 12 {
                    spec_length_side_effect(ch1, old(self)@.buffer_empty_latch)
                } else {
                    (ch1, old(self)@.buffer_empty_latch)
                };
                let chs = old(self)@.channels.update(idx as int, after.0);
                ApuV {
                    channels: chs,
                    buffer_empty_latch: after.1,
                    status_buffer_empty: spec_status(chs).0,
                    status_channel_active: spec_status(chs).1,
                    ..old(self)@
                }
            }),
    {
        let ch = self.channels[idx];
        let mut nch = ch;
        if reg == 0 {
            nch.enabled = value % 2 == 1;
            nch.voice = ChannelVoice::from_bits((value / 2) % 4);
            if nch.enabled {
                nch.buffer_empty = nch.sample_length == 0;
            }
        } else if reg == 1 {
            nch.volume = value;
        } else if reg == 2 {
            nch.pan = value;
        } else if reg == 3 {
            if value % 2 == 1 {
                nch.buffer_empty = false;
            }
        } else if reg == 4 {
            nch.frequency = nch.frequency - nch.frequency % 256 + value as u16;
        } else if reg == 5 {
            nch.frequency = nch.frequency % 256 + value as u16 * 256;
        } else if reg == 6 {
            nch.effect = value % 8;
        } else if reg == 8 {
            nch.sample_address = nch.sample_address - nch.sample_address % 256 + value as u32;
        } else if reg == 9 {
            nch.sample_address = nch.sample_address - ((nch.sample_address / 256) % 256) * 256
                + value as u32 * 256;
        } else if reg == 10 {
            nch.sample_address = nch.sample_address % 65536 + value as u32 * 65536;
        } else if reg == 11 {
            nch.sample_length = nch.sample_length % 256 + value as u16 * 256;
            if nch.sample_length == 0 && nch.enabled {
                nch.buffer_empty = true;
                self.buffer_empty_latch = true;
            } else if nch.sample_length != 0 {
                nch.buffer_empty = false;
            }
        } else if reg == 12 {
            nch.sample_length = nch.sample_length - nch.sample_length % 256 + value as u16;
            if nch.sample_length == 0 && nch.enabled {
                nch.buffer_empty = true;
                self.buffer_empty_latch = true;
            } else if nch.sample_length != 0 {
                nch.buffer_empty = false;
            }
        }
        self.channels[idx] = nch;
        self.update_status();
    }

    /// Read one byte from a channel's register window.
    fn read_channel(&self, idx: usize, reg: u32) -> (r: u8)
        requires
            self.wf(),
            idx < APU_CHANNEL_COUNT,
        ensures
            r == spec_read_channel(self@.channels[idx as int], reg),
    {
        let ch = self.channels[idx];
        if reg == 0 {
            (if ch.enabled {
                1u8
            } else {
                0
            }) + ch.voice.bits() * 2
        } else if reg == 1 {
            ch.volume
        } else if reg == 2 {
            ch.pan
        } else if reg == 3 {
            (if ch.buffer_empty {
                1u8
            } else {
                0
            }) + (if ch.enabled {
                2u8
            } else {
                0
            })
        } else if reg == 4 {
            (ch.frequency % 256) as u8
        } else if reg == 5 {
            (ch.frequency / 256) as u8
        } else if reg == 6 {
            ch.effect
        } else if reg == 8 {
            (ch.sample_address % 256) as u8
        } else if reg == 9 {
            ((ch.sample_address / 256) % 256) as u8
        } else if reg == 10 {
            ((ch.sample_address / 65536) % 256) as u8
        } else if reg == 11 {
            (ch.sample_length / 256) as u8
        } else if reg == 12 {
            (ch.sample_length % 256) as u8
        } else {
            0xFF
        }
    }

    /// Read a byte from the register map relative to the APU base.
    pub fn read_register(&self, offset: u32) -> (r: u8)
        requires
            self.wf(),
        ensures
            offset < APU_STATUS_OFFSET ==> r == spec_read_channel(
                self@.channels[(offset / CHANNEL_STRIDE) as int],
                offset % CHANNEL_STRIDE,
            ),
            offset == APU_STATUS_OFFSET ==> r == ((if self@.status_buffer_empty {
                1int
            } else {
                0
            }) + (if self@.status_channel_active {
                2int
            } else {
                0
            })) as u8,
            offset == APU_GLOBAL_CONTROL_OFFSET ==> r == self@.global_control,
            offset == APU_GLOBAL_VERSION_OFFSET ==> r == SUPPORTED_VERSION,
            offset > APU_GLOBAL_VERSION_OFFSET ==> r == 0xFF,
    {
        if offset < APU_STATUS_OFFSET {
            let idx = (offset / CHANNEL_STRIDE) as usize;
            self.read_channel(idx, offset % CHANNEL_STRIDE)
        } else if offset == APU_STATUS_OFFSET {
            (if self.status_buffer_empty {
                1u8
            } else {
                0
            }) + (if self.status_channel_active {
                2u8
            } else {
                0
            })
        } else if offset == APU_GLOBAL_CONTROL_OFFSET {
            self.global_control
        } else if offset == APU_GLOBAL_VERSION_OFFSET {
            SUPPORTED_VERSION
        } else {
            0xFF
        }
    }

    /// Acknowledge via the status register: bit 0 clears the latch and
    /// every channel's buffer-empty flag.
    pub open spec fn spec_ack(a: ApuV) -> ApuV {
        ApuV {
            buffer_empty_latch: false,
            channels: Seq::new(
                a.channels.len(),
                |i: int| ChannelState { buffer_empty: false, ..a.channels[i] },
            ),
            ..a
        }
    }

    /// Write a byte to the register map relative to the APU base.
    pub fn write_register(&mut self, offset: u32, value: u8)
        requires
            old(self).wf(),
        ensures
            final(self).wf(),
            offset < APU_STATUS_OFFSET ==> final(self)@ == ({
                let idx = (offset / CHANNEL_STRIDE) as int;
                let reg = offset % CHANNEL_STRIDE;
                let ch1 = spec_write_channel(old(self)@.channels[idx], reg, value);
                let after = if reg == 11 || reg == 12 {
                    spec_length_side_effect(ch1, old(self)@.buffer_empty_latch)
                } else {
                    (ch1, old(self)@.buffer_empty_latch)
                };
                let chs = old(self)@.channels.update(idx, after.0);
                ApuV {
                    channels: chs,
                    buffer_empty_latch: after.1,
                    status_buffer_empty: spec_status(chs).0,
                    status_channel_active: spec_status(chs).1,
                    ..old(self)@
                }
            }),
            offset == APU_STATUS_OFFSET && value % 2 == 1 ==> final(self)@ == Self::spec_ack(
                old(self)@,
            ),
            offset == APU_STATUS_OFFSET && value % 2 != 1 ==> final(self)@ == old(self)@,
            offset == APU_GLOBAL_CONTROL_OFFSET ==> final(self)@ == (ApuV {
                global_control: value,
                ..old(self)@
            }),
            offset > APU_GLOBAL_CONTROL_OFFSET ==> final(self)@ == old(self)@,
    {
        if offset < APU_STATUS_OFFSET {
            let idx = (offset / CHANNEL_STRIDE) as usize;
            self.write_channel(idx, offset % CHANNEL_STRIDE, value);
        } else if offset == APU_STATUS_OFFSET {
            if value % 2 == 1 {
                self.buffer_empty_latch = false;
                let mut i: usize = 0;
                while i < APU_CHANNEL_COUNT
                    invariant
                        i <= APU_CHANNEL_COUNT,
                        self.wf(),
                        self@.channels.len() == APU_CHANNEL_COUNT,
                        self@ == (ApuV {
                            channels: self@.channels,
                            buffer_empty_latch: false,
                            ..old(self)@
                        }),
                        forall|k: int|
                            0 <= k < i ==> #[trigger] self@.channels[k] == (ChannelState {
                                buffer_empty: false,
                                ..old(self)@.channels[k]
                            }),
                        forall|k: int|
                            i <= k < APU_CHANNEL_COUNT ==> #[trigger] self@.channels[k] == old(
                                self,
                            )@.channels[k],
                    decreases APU_CHANNEL_COUNT - i,
                {
                    let mut ch = self.channels[i];
                    ch.buffer_empty = false;
                    self.channels[i] = ch;
                    i = i + 1;
                }
                proof {
                    assert(self@.channels =~= Self::spec_ack(old(self)@).channels);
                }
            }
        } else if offset == APU_GLOBAL_CONTROL_OFFSET {
            self.global_control = value;
        }
    }

    /// Advance audio processing by `cycles` CPU cycles.
    pub fn step(&mut self, cycles: u64)
        requires
            old(self).wf(),
        ensures
            final(self).wf(),
            cycles == 0 ==> final(self)@ == old(self)@,
            cycles != 0 ==> final(self)@ == ({
                let ticks = if cycles / 64 == 0 {
                    1u64
                } else {
                    cycles / 64
                };
                let stepped = spec_step_channels(
                    old(self)@.channels,
                    ticks,
                    APU_CHANNEL_COUNT as int,
                );
                ApuV {
                    channels: stepped.0,
                    buffer_empty_latch: old(self)@.buffer_empty_latch || stepped.1,
                    status_buffer_empty: spec_status(stepped.0).0,
                    status_channel_active: spec_status(stepped.0).1,
                    ..old(self)@
                }
            }),
    {
        if cycles == 0 {
            return ;
        }
        let t = cycles / 64;
        let ticks = if t == 0 {
            1u64
        } else {
            t
        };
        let mut saw_empty = false;
        let mut i: usize = 0;
        while i < APU_CHANNEL_COUNT
            invariant
                i <= APU_CHANNEL_COUNT,
                self.wf(),
                self@.channels.len() == APU_CHANNEL_COUNT,
                self@ == (ApuV { channels: self@.channels, ..old(self)@ }),
                (self@.channels, saw_empty) == spec_step_channels(
                    old(self)@.channels,
                    ticks,
                    i as int,
                ),
            decreases APU_CHANNEL_COUNT - i,
        {
            let ch = self.channels[i];
            let mut nch = ch;
            let mut dry = false;
            if ch.enabled {
                if ch.sample_length > 0 {
                    let consumed = if ticks < ch.sample_length as u64 {
                        ticks as u16
                    } else {
                        ch.sample_length
                    };
                    nch.sample_length = ch.sample_length - consumed;
                    if nch.sample_length == 0 {
                        nch.buffer_empty = true;
                        dry = true;
                    }
                } else {
                    nch.buffer_empty = true;
                    dry = true;
                }
            }
            self.channels[i] = nch;
            saw_empty = saw_empty || dry;
            i = i + 1;
            proof {
                assert((self@.channels, saw_empty) == spec_step_channels(
                    old(self)@.channels,
                    ticks,
                    i as int,
                ));
            }
        }
        if saw_empty {
            self.buffer_empty_latch = true;
        }
        self.update_status();
    }

    /// Consume the buffer-empty latch; it reports true at most once per
    /// latching.
    pub fn take_buffer_empty(&mut self) -> (r: bool)
        requires
            old(self).wf(),
        ensures
            final(self).wf(),
            r == old(self)@.buffer_empty_latch,
            final(self)@ == (ApuV { buffer_empty_latch: false, ..old(self)@ }),
    {
        let ready = self.buffer_empty_latch;
        if ready {
            self.buffer_empty_latch = false;
        }
        ready
    }
}

impl Default for Apu {
    fn default() -> (apu: Apu)
        ensures
            apu.wf(),
            apu@ == spec_apu_init(),
    {
        Apu::new()
    }
}

/// Taking the buffer-empty latch consumes it: a second take, with no
/// latching step in between, reports false.
pub proof fn lemma_take_buffer_empty_once(a: ApuV)
    ensures
        !(ApuV { buffer_empty_latch: false, ..a }).buffer_empty_latch,
{
}

} // verus!
