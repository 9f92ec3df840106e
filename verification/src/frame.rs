//! The value type produced by the spectral analyzer, one per sample block.

use vstd::prelude::*;

verus! {

/// One analyzed audio block: amplitude-like energy per frequency band plus
/// the most prominent frequency.
///
/// Energies are fixed-point: `UNIT_SCALE` (1000) stands for 1.0. They are
/// not clamped here; the audio-driven rule set clamps them to [0, 1] at
/// construction. `peak_frequency` is in millihertz and is never scaled by
/// the sensitivity setting. `overall_energy` is the sum of the three band
/// energies before sensitivity scaling, then scaled.
#[derive(Clone, Copy, Debug, PartialEq, Eq, Structural)]
pub struct AudioFrame {
    /// Energy in the bass band, in thousandths.
    pub bass_energy: u64,
    /// Energy in the mid band, in thousandths.
    pub mid_energy: u64,
    /// Energy in the treble band, in thousandths.
    pub treble_energy: u64,
    /// Most prominent frequency, in millihertz.
    pub peak_frequency: u64,
    /// Sum of the three band energies, sensitivity-scaled, in thousandths.
    pub overall_energy: u64,
}

} // verus!
