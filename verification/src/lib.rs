//! Additive-waveform streaming library.
//!
//! A periodic signal is driven by a [`clock::PhaseClock`], an
//! elapsed-sample counter that wraps modulo the sample rate.  A
//! [`source::SampleSource`] turns each tick into one sample value by
//! reading a table of precomputed samples at the wrapped phase, and
//! [`adapter::write_frames`] replicates each sample across every
//! channel slot of an output frame of a host-supplied buffer.  The
//! fixed overtone series of the procedural waveform, and the integer
//! angle skeleton its evaluation rests on, live in [`harmonics`].

pub mod adapter;
pub mod clock;
pub mod config;
pub mod convert;
pub mod harmonics;
pub mod source;
