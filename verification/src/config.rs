//! Configuration consumed by the analyzer and the simulation engine.
//!
//! All rates and densities that the original configuration format writes as
//! fractions are carried here as fixed-point integers: `UNIT_SCALE`
//! thousandths stand for 1.0. Frequency band bounds are whole hertz.

use vstd::prelude::*;
use vstd::string::StringExecFns;

verus! {

/// Fixed-point scale: this many units stand for 1.0.
pub const UNIT_SCALE: u64 = 1000;

/// Largest accepted transform size. Keeps every band-energy sum inside u64.
pub const MAX_FFT_SIZE: usize = 32768;

/// Largest accepted sensitivity, in thousandths (1000.0). Keeps scaled
/// energies inside u64.
pub const MAX_SENSITIVITY: u64 = 1000000;

/// Rule for resolving neighbor lookups that fall outside the grid.
#[derive(Clone, Copy, Debug, PartialEq, Eq, Structural)]
pub enum EdgeBehavior {
    /// Coordinates wrap around: the grid is a torus.
    Wrap,
    /// Out-of-bounds neighbors count as dead.
    Dead,
    /// Out-of-bounds neighbors count as alive.
    Alive,
}

/// Palette selector for the renderer; the pixel mapping itself lives
/// outside this crate.
#[derive(Clone, Copy, Debug, PartialEq, Eq, Structural)]
pub enum ColorScheme {
    /// Black and white.
    Classic,
    /// Heat map, blue to red.
    Heat,
    /// Full color spectrum.
    Rainbow,
    /// Colors pulse with the audio.
    Pulse,
}

/// Window parameters, consumed by the presentation layer.
#[derive(Clone, Debug)]
pub struct WindowConfig {
    /// Window title.
    pub title: String,
    /// Window width in pixels.
    pub width: u32,
    /// Window height in pixels.
    pub height: u32,
    /// Whether to start fullscreen.
    pub fullscreen: bool,
}

/// Parameters of the spectral analyzer.
#[derive(Clone, Copy, Debug)]
pub struct AudioConfig {
    /// Samples per second of the audio signal.
    pub sample_rate: u32,
    /// Channel count of the audio signal.
    pub channels: u16,
    /// Transform size: samples per analysis block, and bins produced.
    pub fft_size: usize,
    /// Bass band as a `[low, high)` pair in hertz.
    pub bass_range: (u32, u32),
    /// Mid band as a `[low, high)` pair in hertz.
    pub mid_range: (u32, u32),
    /// Treble band as a `[low, high)` pair in hertz.
    pub treble_range: (u32, u32),
    /// Scale applied to every band energy, in thousandths.
    pub sensitivity: u64,
}

/// Parameters of the automaton engine.
#[derive(Clone, Copy, Debug)]
pub struct SimulationConfig {
    /// Grid width in cells.
    pub width: usize,
    /// Grid height in cells.
    pub height: usize,
    /// Engine ticks per second, paced by the caller.
    pub update_rate: u32,
    /// Initial live-cell density, in thousandths of 1.0.
    pub initial_seed: u64,
    /// How neighbor lookups beyond the edge resolve.
    pub edge_behavior: EdgeBehavior,
}

/// Parameters of the renderer, consumed outside this crate.
#[derive(Clone, Copy, Debug)]
pub struct VisualizationConfig {
    /// Size of each cell in pixels.
    pub cell_size: u32,
    /// Selected palette.
    pub color_scheme: ColorScheme,
    /// Rate at which dead cells fade out, in thousandths.
    pub fade_rate: u64,
}

/// The whole configuration.
#[derive(Clone, Debug)]
pub struct Config {
    /// Window parameters.
    pub window: WindowConfig,
    /// Analyzer parameters.
    pub audio: AudioConfig,
    /// Engine parameters.
    pub simulation: SimulationConfig,
    /// Renderer parameters.
    pub visualization: VisualizationConfig,
}

/// Why a configuration was rejected before the run loop starts.
#[derive(Clone, Copy, Debug, PartialEq, Eq, Structural)]
pub enum ConfigError {
    /// The transform size is not a power of two in `[2, MAX_FFT_SIZE]`.
    DegenerateTransform,
    /// The sample rate is zero.
    ZeroSampleRate,
    /// A frequency band has `low >= high`.
    EmptyBand,
    /// The sensitivity exceeds `MAX_SENSITIVITY`.
    SensitivityTooLarge,
    /// The grid has zero width or height.
    ZeroSizedGrid,
    /// The cell count overflows the address space.
    GridTooLarge,
    /// The initial seed density exceeds 1.0.
    DensityOutOfRange,
    /// The tick rate is zero.
    ZeroUpdateRate,
}

/// Whether `n` is a power of two.
pub open spec fn is_pow2(n: int) -> bool
    decreases n,
{
    if n <= 0 {
        false
    } else if n == 1 {
        true
    } else {
        n % 2 == 0 && is_pow2(n / 2)
    }
}

/// The transform size is a power of two the analyzer can take.
pub open spec fn transform_ok(a: AudioConfig) -> bool {
    2 <= a.fft_size <= MAX_FFT_SIZE && is_pow2(a.fft_size as int)
}

/// Every frequency band runs from a lower to a strictly higher bound.
pub open spec fn bands_ok(a: AudioConfig) -> bool {
    a.bass_range.0 < a.bass_range.1 && a.mid_range.0 < a.mid_range.1 && a.treble_range.0
        < a.treble_range.1
}

/// The analyzer accepts exactly these parameters.
pub open spec fn audio_config_valid(a: AudioConfig) -> bool {
    &&& transform_ok(a)
    &&& 1 <= a.sample_rate
    &&& bands_ok(a)
    &&& a.sensitivity <= MAX_SENSITIVITY
}

/// The cell count fits in the address space.
pub open spec fn grid_fits(s: SimulationConfig) -> bool {
    s.width * s.height <= usize::MAX
}

/// The engine accepts exactly these parameters.
pub open spec fn simulation_config_valid(s: SimulationConfig) -> bool {
    &&& 1 <= s.width
    &&& 1 <= s.height
    &&& grid_fits(s)
    &&& s.initial_seed <= UNIT_SCALE
    &&& 1 <= s.update_rate
}

/// Whether `n` is a power of two.
pub fn is_power_of_two(n: usize) -> (r: bool)
    ensures
        r == is_pow2(n as int),
{
    if n == 0 {
        return false;
    }
    let mut m: usize = n;
    while m > 1
        invariant
            1 <= m,
            is_pow2(n as int) == is_pow2(m as int),
        decreases m,
    {
        if m % 2 == 1 {
            return false;
        }
        m = m / 2;
    }
    true
}

impl Config {
    /// Checks every construction-time condition, in a fixed order, before
    /// the system enters its run loop. Returns `Ok` exactly when both the
    /// analyzer and the engine accept their parameters, and each error
    /// exactly when its condition is the first to fail.
    pub fn validate(&self) -> (r: Result<(), ConfigError>)
        ensures
            r is Ok <==> audio_config_valid(self.audio) && simulation_config_valid(
                self.simulation,
            ),
            r == Err::<(), ConfigError>(ConfigError::DegenerateTransform) <==> !transform_ok(
                self.audio,
            ),
            r == Err::<(), ConfigError>(ConfigError::ZeroSampleRate) <==> transform_ok(self.audio)
                && self.audio.sample_rate == 0,
            r == Err::<(), ConfigError>(ConfigError::EmptyBand) <==> transform_ok(self.audio) && 1
                <= self.audio.sample_rate && !bands_ok(self.audio),
            r == Err::<(), ConfigError>(ConfigError::SensitivityTooLarge) <==> transform_ok(
                self.audio,
            ) && 1 <= self.audio.sample_rate && bands_ok(self.audio) && self.audio.sensitivity
                > MAX_SENSITIVITY,
            r == Err::<(), ConfigError>(ConfigError::ZeroSizedGrid) <==> audio_config_valid(
                self.audio,
            ) && (self.simulation.width == 0 || self.simulation.height == 0),
            r == Err::<(), ConfigError>(ConfigError::GridTooLarge) <==> audio_config_valid(
                self.audio,
            ) && 1 <= self.simulation.width && 1 <= self.simulation.height && !grid_fits(
                self.simulation,
            ),
            r == Err::<(), ConfigError>(ConfigError::DensityOutOfRange) <==> audio_config_valid(
                self.audio,
            ) && 1 <= self.simulation.width && 1 <= self.simulation.height && grid_fits(
                self.simulation,
            ) && self.simulation.initial_seed > UNIT_SCALE,
            r == Err::<(), ConfigError>(ConfigError::ZeroUpdateRate) <==> audio_config_valid(
                self.audio,
            ) && 1 <= self.simulation.width && 1 <= self.simulation.height && grid_fits(
                self.simulation,
            ) && self.simulation.initial_seed <= UNIT_SCALE && self.simulation.update_rate == 0,
    {
        let a = &self.audio;
        if !(a.fft_size >= 2 && a.fft_size <= MAX_FFT_SIZE && is_power_of_two(a.fft_size)) {
            return Err(ConfigError::DegenerateTransform);
        }
        if a.sample_rate < 1 {
            return Err(ConfigError::ZeroSampleRate);
        }
        if a.bass_range.0 >= a.bass_range.1 || a.mid_range.0 >= a.mid_range.1 || a.treble_range.0
            >= a.treble_range.1 {
            return Err(ConfigError::EmptyBand);
        }
        if a.sensitivity > MAX_SENSITIVITY {
            return Err(ConfigError::SensitivityTooLarge);
        }
        let s = &self.simulation;
        if s.width < 1 || s.height < 1 {
            return Err(ConfigError::ZeroSizedGrid);
        }
        let q = usize::MAX / s.width;
        proof {
            let w = s.width as int;
            let h = s.height as int;
            let m = usize::MAX as int;
            vstd::arithmetic::div_mod::lemma_fundamental_div_mod(m, w);
            if h > q {
                assert(w * h >= w * (q + 1)) by (nonlinear_arith)
                    requires
                        w >= 1,
                        h >= q as int + 1,
                ;
                assert(w * (q + 1) == w * (q as int) + w) by (nonlinear_arith);
            } else {
                assert(w * h <= w * (q as int)) by (nonlinear_arith)
                    requires
                        w >= 1,
                        0 <= h <= q as int,
                ;
            }
        }
        if q < s.height {
            return Err(ConfigError::GridTooLarge);
        }
        if s.initial_seed > UNIT_SCALE {
            return Err(ConfigError::DensityOutOfRange);
        }
        if s.update_rate < 1 {
            return Err(ConfigError::ZeroUpdateRate);
        }
        Ok(())
    }

    /// The built-in configuration: CD-rate stereo audio analyzed in blocks
    /// of 2048 samples over the customary bass, mid and treble bands, and a
    /// 200 by 150 toroidal grid seeded at density 0.3, ticking 30 times a
    /// second.
    pub fn default() -> (r: Config)
        ensures
            r.window.title@ == "Soundscape Evolution"@,
            r.window.width == 800,
            r.window.height == 600,
            !r.window.fullscreen,
            r.audio.sample_rate == 44100,
            r.audio.channels == 2,
            r.audio.fft_size == 2048,
            r.audio.bass_range == ((20u32, 250u32)),
            r.audio.mid_range == ((250u32, 2000u32)),
            r.audio.treble_range == ((2000u32, 20000u32)),
            r.audio.sensitivity == UNIT_SCALE,
            r.simulation.width == 200,
            r.simulation.height == 150,
            r.simulation.update_rate == 30,
            r.simulation.initial_seed == 300,
            r.simulation.edge_behavior == EdgeBehavior::Wrap,
            r.visualization.cell_size == 4,
            r.visualization.color_scheme == ColorScheme::Pulse,
            r.visualization.fade_rate == 100,
            audio_config_valid(r.audio),
            simulation_config_valid(r.simulation),
    {
        let c = Config {
            window: WindowConfig {
                title: String::from_str("Soundscape Evolution"),
                width: 800,
                height: 600,
                fullscreen: false,
            },
            audio: AudioConfig {
                sample_rate: 44100,
                channels: 2,
                fft_size: 2048,
                bass_range: (20, 250),
                mid_range: (250, 2000),
                treble_range: (2000, 20000),
                sensitivity: UNIT_SCALE,
            },
            simulation: SimulationConfig {
                width: 200,
                height: 150,
                update_rate: 30,
                initial_seed: 300,
                edge_behavior: EdgeBehavior::Wrap,
            },
            visualization: VisualizationConfig {
                cell_size: 4,
                color_scheme: ColorScheme::Pulse,
                fade_rate: 100,
            },
        };
        proof {
            reveal_with_fuel(is_pow2, 13);
            assert(is_pow2(2048));
        }
        c
    }
}

} // verus!
