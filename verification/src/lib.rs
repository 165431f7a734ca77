//! Core of an emulator for a microcomputer built around a 24-bit-capable,
//! eZ80-style processor.
//!
//! The crate models the processor-facing execution environment (dual-width
//! addressing, register translation, stack discipline, immediate decoding)
//! and the host-filesystem virtualization layer that substitutes a fixed set
//! of firmware file-I/O entry points.  All host I/O itself (files, channels,
//! timers) is performed by the embedding application; this crate holds the
//! state, the address arithmetic and the decision logic, with contracts.

pub mod agon_machine;
pub mod environment;
pub mod hostfs;
pub mod machine;
pub mod mos;
pub mod registers;
pub mod state;
pub mod z80_mem_tools;
