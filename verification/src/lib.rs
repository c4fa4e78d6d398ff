//! Core emulation library for the Nexel-24 (HX-1) fantasy game console.
//!
//! The crate models a 24-bit-address / 16-bit-data processor (HXC-24)
//! attached through a unified memory bus to a tile/sprite video display
//! processor, an audio processor, and a small bytecode virtual machine,
//! together with the miniature assembler that produces BIOS images.
//! Every data structure carries a mathematical view, and the public
//! functions state their behaviour over those views.

pub mod apu;
pub mod bios;
pub mod bus;
pub mod bytecode;
pub mod cpu;
pub mod emulator;
pub mod nraw;
pub mod vdp;
pub mod vlu;
pub mod vm;

pub use apu::Apu;
pub use bus::Bus24;
pub use cpu::Cpu;
pub use emulator::{EmulatorStats, Nexel24};
pub use vm::BaseplateVm;
