//! Core of an audio-reactive cellular-automaton visualizer.
//!
//! A spectral analyzer turns fixed-size audio sample blocks into per-band
//! energy measurements; those measurements travel over a bounded,
//! latest-value-wins channel to a Game-of-Life engine whose birth and
//! survival rules are modulated by the latest measurement each tick.
//!
//! All quantities that the rules read are fixed-point integers: a value of
//! [`config::UNIT_SCALE`] stands for 1.0. Frequencies are carried in
//! millihertz. The floating-point front end (the Fourier transform itself,
//! windowing, and pixel colors) lives outside this crate; it hands the
//! library plain integer values and takes plain values back.

pub mod analyzer;
pub mod channel;
pub mod color;
pub mod config;
pub mod frame;
pub mod gol;
pub mod rules;
