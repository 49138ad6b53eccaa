//! Parameter state and rules of a two-oscillator FM synthesizer.
//!
//! Two oscillators feed a fixed modulation matrix of four paths, each path's
//! gain being its coupling ratio times the base frequency; each oscillator
//! also reaches the master bus through a direct bypass path, and the bus
//! feeds the output and an analysis tap. Values are fixed-point integers:
//! frequencies in micro-hertz, gains in parts of `gain::GAIN_UNIT`, coupling
//! ratios in parts of `matrix::RATIO_UNIT`.
use vstd::prelude::*;

pub mod analyser;
pub mod engine;
pub mod gain;
pub mod matrix;
pub mod pitch;
pub mod waveform;

verus! {

} // verus!
