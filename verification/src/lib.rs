//! Firmware library for a small music-player system-on-chip.
//!
//! The crate is organised like the board it drives:
//!
//! * [`pac`] — the register-level peripheral access layer: value codecs for
//!   every memory-mapped register, bit-exact with the hardware layout.
//! * [`hal`] — typed drivers above the registers.  The central one is the
//!   audio streamer ([`hal::audio`]): an exclusive-ownership, typestate
//!   wrapper around the hardware sample queue, with a verified
//!   backpressure-aware burst-write protocol.
//! * [`player`] — the playback scheduler: it pulls raw PCM blocks from a
//!   storage stream, applies the volume transform, and drains the result
//!   into the audio queue while polling the transport controls.
//!
//! Hardware state that a real board holds in memory-mapped registers is
//! carried here by explicit model state inside each driver, so that every
//! register write and every queue interaction is visible to the verifier.

pub mod hal;

pub mod pac;

pub mod peripheral;

pub mod player;

pub mod utils;
