//! The spectral analyzer: turns the magnitude spectrum of one audio block
//! into per-band energies and a peak frequency.
//!
//! The Fourier transform itself runs in floating point outside this crate;
//! what arrives here is the squared magnitude of each of the N transform
//! bins, in fixed point: a magnitude of 1.0 is `UNIT_SCALE` (1000) units,
//! so a squared magnitude of 1.0 is 1,000,000 units. Everything from the
//! bin mapping of the configured frequency bands to the mean-square
//! energies, the integer square root, the peak search and the sensitivity
//! scaling is integer arithmetic, verified here.

use vstd::prelude::*;
use crate::channel::{channel_capacity, channel_frames, FrameChannel};
use crate::config::{audio_config_valid, AudioConfig, MAX_FFT_SIZE, MAX_SENSITIVITY, UNIT_SCALE};
use crate::frame::AudioFrame;

verus! {

/// Largest accepted squared magnitude per bin: the square of
/// `MAX_BAND_AMPLITUDE`. Keeps every band sum inside u64.
pub const MAX_MAGNITUDE_SQ: u64 = 100000000000000;

/// Largest band amplitude the analyzer can produce before sensitivity
/// scaling: the integer square root of `MAX_MAGNITUDE_SQ`.
pub const MAX_BAND_AMPLITUDE: u64 = 10000000;

/// Sum of `s[lo..hi)`.
pub open spec fn sum_sq(s: Seq<u64>, lo: int, hi: int) -> int
    decreases hi - lo,
{
    if lo >= hi {
        0
    } else {
        sum_sq(s, lo, hi - 1) + s[hi - 1]
    }
}

/// `r` is the integer square root of `x`.
pub open spec fn is_isqrt(x: int, r: int) -> bool {
    0 <= r && r * r <= x && x < (r + 1) * (r + 1)
}

/// The integer square root of `x`.
pub open spec fn isqrt_spec(x: int) -> int {
    choose|r: int| is_isqrt(x, r)
}

/// The transform bin that frequency `hz` falls in: `hz` divided by the
/// bin width `rate / n`, rounded down.
pub open spec fn bin_for_hz(hz: u32, rate: u32, n: int) -> int {
    (hz as int) * n / (rate as int)
}

/// Bin index clamped to `[1, bins]`: bin 0, the DC term, is always
/// excluded.
pub open spec fn clamped_bin(b: int, bins: int) -> int {
    if b < 1 {
        1
    } else if b > bins {
        bins
    } else {
        b
    }
}

/// The bin of greatest squared magnitude among bins `[1, n)`, earliest
/// first on ties; 0 while no bin with positive magnitude has been seen.
pub open spec fn peak_bin_spec(s: Seq<u64>, n: int) -> int
    decreases n,
{
    if n <= 1 {
        0
    } else {
        let p = peak_bin_spec(s, n - 1);
        let m: int = if p == 0 {
            0
        } else {
            s[p] as int
        };
        if s[n - 1] > m {
            n - 1
        } else {
            p
        }
    }
}

/// Integer square roots are unique.
pub proof fn lemma_isqrt_unique(x: int, a: int, b: int)
    requires
        is_isqrt(x, a),
        is_isqrt(x, b),
    ensures
        a == b,
{
    assert(a == b) by (nonlinear_arith)
        requires
            0 <= a,
            a * a <= x,
            x < (a + 1) * (a + 1),
            0 <= b,
            b * b <= x,
            x < (b + 1) * (b + 1),
    ;
}

/// A value satisfying `is_isqrt` is the `isqrt_spec` value.
pub proof fn lemma_isqrt_spec_is(x: int, r: int)
    requires
        is_isqrt(x, r),
    ensures
        isqrt_spec(x) == r,
{
    assert(exists|q: int| is_isqrt(x, q));
    let c = choose|q: int| is_isqrt(x, q);
    lemma_isqrt_unique(x, c, r);
}

/// The integer square root is monotone in its bound: a square root of a
/// value at most `m * m` is at most `m`.
pub proof fn lemma_isqrt_le(x: int, r: int, m: int)
    requires
        is_isqrt(x, r),
        0 <= m,
        x <= m * m,
    ensures
        r <= m,
{
    assert(r <= m) by (nonlinear_arith)
        requires
            0 <= r,
            r * r <= x,
            0 <= m,
            x <= m * m,
    ;
}

/// Dividing a sum of at most `k` values, each at most `m`, by `k` gives at
/// most `m`.
pub proof fn lemma_div_bound(x: int, k: int, m: int)
    requires
        1 <= k,
        0 <= x,
        x <= k * m,
        0 <= m,
    ensures
        x / k <= m,
{
    vstd::arithmetic::div_mod::lemma_fundamental_div_mod(x, k);
    vstd::arithmetic::div_mod::lemma_mod_bound(x, k);
    vstd::arithmetic::div_mod::lemma_div_pos_is_pos(x, k);
    assert(x / k <= m) by (nonlinear_arith)
        requires
            x == k * (x / k) + x % k,
            0 <= x % k < k,
            x <= k * m,
            0 <= x / k,
            1 <= k,
    ;
}

/// A sum of values each at most `MAX_MAGNITUDE_SQ` is at most the count
/// times that bound.
pub proof fn lemma_sum_sq_bound(s: Seq<u64>, lo: int, hi: int)
    requires
        0 <= lo,
        hi <= s.len(),
        forall|i: int| 0 <= i < s.len() ==> s[i] <= MAX_MAGNITUDE_SQ,
    ensures
        0 <= sum_sq(s, lo, hi),
        hi >= lo ==> sum_sq(s, lo, hi) <= (hi - lo) * (MAX_MAGNITUDE_SQ as int),
    decreases hi - lo,
{
    if lo >= hi {
    } else {
        lemma_sum_sq_bound(s, lo, hi - 1);
        assert((hi - lo) * (MAX_MAGNITUDE_SQ as int) == (hi - 1 - lo) * (MAX_MAGNITUDE_SQ as int)
            + MAX_MAGNITUDE_SQ) by (nonlinear_arith);
    }
}

/// The integer square root of `x`, by binary search.
pub fn isqrt(x: u64) -> (r: u64)
    ensures
        is_isqrt(x as int, r as int),
        r as int == isqrt_spec(x as int),
{
    let mut lo: u64 = 0;
    let mut hi: u64 = 0xFFFF_FFFF;
    while lo < hi
        invariant
            lo <= hi <= 0xFFFF_FFFF,
            (lo as int) * (lo as int) <= x as int,
            (x as int) < ((hi as int) + 1) * ((hi as int) + 1),
        decreases hi - lo,
    {
        let mid = lo + (hi - lo + 1) / 2;
        proof {
            assert((mid as int) * (mid as int) <= 0xFFFF_FFFFu64 * 0xFFFF_FFFFu64)
                by (nonlinear_arith)
                requires
                    0 <= mid <= 0xFFFF_FFFFu64,
            ;
        }
        if mid * mid <= x {
            lo = mid;
        } else {
            hi = mid - 1;
        }
    }
    proof {
        lemma_isqrt_spec_is(x as int, lo as int);
    }
    lo
}

/// Analyzes the magnitude spectrum of fixed-size audio blocks into
/// per-band energy measurements, per the configured frequency bands,
/// sample rate and sensitivity.
pub struct AudioAnalyzer {
    sample_rate: u32,
    fft_size: usize,
    bass_range: (u32, u32),
    mid_range: (u32, u32),
    treble_range: (u32, u32),
    sensitivity: u64,
}

impl AudioAnalyzer {
    /// Samples per second the analyzer was configured with.
    pub closed spec fn spec_sample_rate(&self) -> u32 {
        self.sample_rate
    }

    /// The transform size N: bins per analyzed block.
    pub closed spec fn spec_fft_size(&self) -> int {
        self.fft_size as int
    }

    /// The configured bass band in hertz.
    pub closed spec fn spec_bass_range(&self) -> (u32, u32) {
        self.bass_range
    }

    /// The configured mid band in hertz.
    pub closed spec fn spec_mid_range(&self) -> (u32, u32) {
        self.mid_range
    }

    /// The configured treble band in hertz.
    pub closed spec fn spec_treble_range(&self) -> (u32, u32) {
        self.treble_range
    }

    /// The configured sensitivity, in thousandths.
    pub closed spec fn spec_sensitivity(&self) -> u64 {
        self.sensitivity
    }

    /// The analyzer's arithmetic stays in bounds.
    pub open spec fn wf(&self) -> bool {
        &&& 2 <= self.spec_fft_size() <= MAX_FFT_SIZE
        &&& 1 <= self.spec_sample_rate()
        &&& self.spec_sensitivity() <= MAX_SENSITIVITY
    }

    /// Usable bins: the upper half of the transform output mirrors the
    /// lower half and is never read.
    pub open spec fn half_bins(&self) -> int {
        self.spec_fft_size() / 2
    }

    /// The clamped bin range endpoint for frequency `hz`.
    pub open spec fn band_bin(&self, hz: u32) -> int {
        clamped_bin(
            bin_for_hz(hz, self.spec_sample_rate(), self.spec_fft_size()),
            self.half_bins(),
        )
    }

    /// Pre-sensitivity band energy over `[lo_hz, hi_hz)`: the square root
    /// of the mean squared magnitude over the band's clamped bin range,
    /// zero for an empty range.
    pub open spec fn band_energy_of(&self, s: Seq<u64>, lo_hz: u32, hi_hz: u32) -> int {
        let a = self.band_bin(lo_hz);
        let b = self.band_bin(hi_hz);
        if a < b {
            isqrt_spec(sum_sq(s, a, b) / (b - a))
        } else {
            0
        }
    }

    /// An energy after sensitivity scaling.
    pub open spec fn scaled(&self, e: int) -> int {
        e * (self.spec_sensitivity() as int) / (UNIT_SCALE as int)
    }

    /// The peak frequency in millihertz: the center frequency of the bin
    /// with the greatest magnitude, never sensitivity-scaled.
    pub open spec fn spec_peak_frequency(&self, s: Seq<u64>) -> int {
        peak_bin_spec(s, self.half_bins()) * (self.spec_sample_rate() as int) * (UNIT_SCALE as int)
            / self.spec_fft_size()
    }

    /// The frame produced for a magnitude spectrum: a pure function of the
    /// spectrum and the configuration.
    pub open spec fn spec_frame(&self, s: Seq<u64>) -> AudioFrame {
        let bass = self.band_energy_of(s, self.spec_bass_range().0, self.spec_bass_range().1);
        let mid = self.band_energy_of(s, self.spec_mid_range().0, self.spec_mid_range().1);
        let treble = self.band_energy_of(
            s,
            self.spec_treble_range().0,
            self.spec_treble_range().1,
        );
        (AudioFrame {
            bass_energy: self.scaled(bass) as u64,
            mid_energy: self.scaled(mid) as u64,
            treble_energy: self.scaled(treble) as u64,
            peak_frequency: self.spec_peak_frequency(s) as u64,
            overall_energy: self.scaled(bass + mid + treble) as u64,
        })
    }

    /// Build an analyzer from validated audio parameters.
    pub fn new(cfg: &AudioConfig) -> (a: AudioAnalyzer)
        requires
            audio_config_valid(*cfg),
        ensures
            a.wf(),
            a.spec_sample_rate() == cfg.sample_rate,
            a.spec_fft_size() == cfg.fft_size,
            a.spec_bass_range() == cfg.bass_range,
            a.spec_mid_range() == cfg.mid_range,
            a.spec_treble_range() == cfg.treble_range,
            a.spec_sensitivity() == cfg.sensitivity,
    {
        AudioAnalyzer {
            sample_rate: cfg.sample_rate,
            fft_size: cfg.fft_size,
            bass_range: cfg.bass_range,
            mid_range: cfg.mid_range,
            treble_range: cfg.treble_range,
            sensitivity: cfg.sensitivity,
        }
    }

    /// The clamped bin index for frequency `hz`.
    fn clamped_bin_index(&self, hz: u32) -> (b: usize)
        requires
            self.wf(),
        ensures
            b as int == self.band_bin(hz),
            1 <= b <= self.half_bins(),
    {
        let half = self.fft_size / 2;
        proof {
            assert((hz as int) * (self.spec_fft_size()) <= 4294967295 * 32768) by (nonlinear_arith)
                requires
                    0 <= hz as int <= 4294967295,
                    0 <= self.spec_fft_size() <= 32768,
            ;
        }
        let q = (hz as u64) * (self.fft_size as u64) / (self.sample_rate as u64);
        if q < 1 {
            1
        } else if q > half as u64 {
            half
        } else {
            q as usize
        }
    }

    /// Pre-sensitivity energy of one band: mean squared magnitude over the
    /// band's clamped bin range, square-rooted.
    fn band_energy(&self, spectrum: &Vec<u64>, lo_hz: u32, hi_hz: u32) -> (e: u64)
        requires
            self.wf(),
            spectrum@.len() == self.spec_fft_size(),
            forall|i: int| 0 <= i < spectrum@.len() ==> spectrum@[i] <= MAX_MAGNITUDE_SQ,
        ensures
            e as int == self.band_energy_of(spectrum@, lo_hz, hi_hz),
            e <= MAX_BAND_AMPLITUDE,
    {
        let a = self.clamped_bin_index(lo_hz);
        let b = self.clamped_bin_index(hi_hz);
        if a >= b {
            return 0;
        }
        let mut sum: u64 = 0;
        let mut i: usize = a;
        while i < b
            invariant
                a <= i <= b,
                b <= spectrum@.len(),
                spectrum@.len() <= MAX_FFT_SIZE,
                forall|j: int| 0 <= j < spectrum@.len() ==> spectrum@[j] <= MAX_MAGNITUDE_SQ,
                sum as int == sum_sq(spectrum@, a as int, i as int),
                sum as int <= (i - a) * (MAX_MAGNITUDE_SQ as int),
            decreases b - i,
        {
            proof {
                assert(((i + 1 - a) as int) * (MAX_MAGNITUDE_SQ as int) == ((i - a) as int) * (
                MAX_MAGNITUDE_SQ as int) + MAX_MAGNITUDE_SQ) by (nonlinear_arith);
                assert(((i - a) as int) * (MAX_MAGNITUDE_SQ as int) <= (MAX_FFT_SIZE as int) * (
                MAX_MAGNITUDE_SQ as int)) by (nonlinear_arith)
                    requires
                        0 <= (i - a) as int <= MAX_FFT_SIZE as int,
                ;
            }
            sum = sum + spectrum[i];
            i = i + 1;
        }
        let mean = sum / ((b - a) as u64);
        proof {
            lemma_sum_sq_bound(spectrum@, a as int, b as int);
            lemma_div_bound(sum as int, (b - a) as int, MAX_MAGNITUDE_SQ as int);
        }
        let r = isqrt(mean);
        proof {
            lemma_isqrt_le(mean as int, r as int, MAX_BAND_AMPLITUDE as int);
        }
        r
    }

    /// The bin with the greatest squared magnitude among `[1, N/2)`,
    /// earliest first on ties; 0 if every usable bin is silent.
    fn peak_bin(&self, spectrum: &Vec<u64>) -> (p: usize)
        requires
            self.wf(),
            spectrum@.len() == self.spec_fft_size(),
        ensures
            p as int == peak_bin_spec(spectrum@, self.half_bins()),
            p < self.half_bins() || p == 0,
    {
        let half = self.fft_size / 2;
        let mut peak: usize = 0;
        let mut max: u64 = 0;
        let mut bin: usize = 1;
        while bin < half
            invariant
                1 <= bin <= half,
                half == self.half_bins(),
                half <= spectrum@.len(),
                peak as int == peak_bin_spec(spectrum@, bin as int),
                peak == 0 || 1 <= peak < bin,
                max as int == (if peak == 0 {
                    0int
                } else {
                    spectrum@[peak as int] as int
                }),
            decreases half - bin,
        {
            let m = spectrum[bin];
            if m > max {
                max = m;
                peak = bin;
            }
            bin = bin + 1;
        }
        peak
    }

    /// Analyze one magnitude spectrum into a frame. The result is a pure
    /// function of the spectrum and the configuration: identical inputs
    /// give bit-identical frames. Squared magnitudes are bounded so that
    /// every band sum fits in 64 bits.
    pub fn analyze(&self, spectrum: &Vec<u64>) -> (frame: AudioFrame)
        requires
            self.wf(),
            spectrum@.len() == self.spec_fft_size(),
            forall|i: int| 0 <= i < spectrum@.len() ==> spectrum@[i] <= MAX_MAGNITUDE_SQ,
        ensures
            frame == self.spec_frame(spectrum@),
    {
        let bass = self.band_energy(spectrum, self.bass_range.0, self.bass_range.1);
        let mid = self.band_energy(spectrum, self.mid_range.0, self.mid_range.1);
        let treble = self.band_energy(spectrum, self.treble_range.0, self.treble_range.1);
        let peak = self.peak_bin(spectrum);
        proof {
            assert((peak as int) * (self.spec_sample_rate() as int) <= 16384 * 4294967295)
                by (nonlinear_arith)
                requires
                    0 <= peak as int <= 16384,
                    0 <= self.spec_sample_rate() as int <= 4294967295,
            ;
            let sv = self.spec_sensitivity() as int;
            assert((bass as int) * sv <= 10000000 * 1000000 && (mid as int) * sv <= 10000000
                * 1000000 && (treble as int) * sv <= 10000000 * 1000000 && ((bass + mid + treble) as int)
                * sv <= 30000000 * 1000000) by (nonlinear_arith)
                requires
                    0 <= bass as int <= 10000000,
                    0 <= mid as int <= 10000000,
                    0 <= treble as int <= 10000000,
                    0 <= sv <= 1000000,
            ;
        }
        let peak_frequency = (peak as u64) * (self.sample_rate as u64) * UNIT_SCALE / (self.fft_size
            as u64);
        AudioFrame {
            bass_energy: (bass * self.sensitivity) / UNIT_SCALE,
            mid_energy: (mid * self.sensitivity) / UNIT_SCALE,
            treble_energy: (treble * self.sensitivity) / UNIT_SCALE,
            peak_frequency,
            overall_energy: ((bass + mid + treble) * self.sensitivity) / UNIT_SCALE,
        }
    }

    /// Analyze one magnitude spectrum and emit the frame onto the outbound
    /// channel with a non-blocking, drop-if-full send: a dropped frame is
    /// not retried or reported, staleness is acceptable but blocking is
    /// not.
    pub fn process_audio(&self, spectrum: &Vec<u64>, channel: &mut FrameChannel) -> (frame:
        AudioFrame)
        requires
            self.wf(),
            spectrum@.len() == self.spec_fft_size(),
            forall|i: int| 0 <= i < spectrum@.len() ==> spectrum@[i] <= MAX_MAGNITUDE_SQ,
        ensures
            frame == self.spec_frame(spectrum@),
            channel_capacity(*final(channel)) == channel_capacity(*old(channel)),
            channel_frames(*old(channel)).len() < channel_capacity(*old(channel))
                ==> channel_frames(*final(channel)) == channel_frames(*old(channel)).push(frame),
            channel_frames(*old(channel)).len() >= channel_capacity(*old(channel))
                ==> channel_frames(*final(channel)) == channel_frames(*old(channel)),
    {
        let frame = self.analyze(spectrum);
        let _accepted = channel.try_send(frame);
        frame
    }
}

/// Analysis is deterministic: identical sample blocks under an identical
/// configuration always yield bit-identical frames, because the frame is
/// a function of the spectrum and the configuration alone.
pub proof fn lemma_analysis_deterministic(
    a: AudioAnalyzer,
    s: Seq<u64>,
    f1: AudioFrame,
    f2: AudioFrame,
)
    requires
        f1 == a.spec_frame(s),
        f2 == a.spec_frame(s),
    ensures
        f1 == f2,
{
}

} // verus!
