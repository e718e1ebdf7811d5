//! Hardware-access core of a poll-driven AC97 audio kernel: PCI
//! configuration-space addressing and header parsing, a bump allocator for
//! DMA-safe physical memory, a scanner that locates the audio controller,
//! and the register protocol and ring-refill discipline that keep the codec
//! supplied with samples.
//!
//! All port-mapped I/O is kept behind plain data: configuration space is
//! read from a snapshot, and the register protocol is emitted as a
//! sequence of port operations that a thin, unverified shell performs on
//! the real machine.

pub mod audio_ac97;
pub mod config_space;
pub mod headers;
pub mod music_loop;
pub mod pci_config;
pub mod phys_alloc;
pub mod scan;

use vstd::prelude::*;

verus! {

/// The fixed I/O port where a PCI configuration address is latched.
pub const CONFIG_ADDRESS: u16 = 0xCF8;

/// The fixed I/O port through which the addressed configuration dword moves.
pub const CONFIG_DATA: u16 = 0xCFC;

} // verus!
