use soundscape::config::{Config, ConfigError, ColorScheme, EdgeBehavior, is_power_of_two};

#[test]
fn default_config_values() {
    let cfg = Config::default();
    assert_eq!(cfg.window.title, "Soundscape Evolution");
    assert_eq!(cfg.window.width, 800);
    assert_eq!(cfg.window.height, 600);
    assert!(!cfg.window.fullscreen);
    assert_eq!(cfg.audio.sample_rate, 44100);
    assert_eq!(cfg.audio.channels, 2);
    assert_eq!(cfg.audio.fft_size, 2048);
    assert_eq!(cfg.audio.bass_range, (20, 250));
    assert_eq!(cfg.audio.mid_range, (250, 2000));
    assert_eq!(cfg.audio.treble_range, (2000, 20000));
    assert_eq!(cfg.audio.sensitivity, 1000);
    assert_eq!(cfg.simulation.width, 200);
    assert_eq!(cfg.simulation.height, 150);
    assert_eq!(cfg.simulation.update_rate, 30);
    assert_eq!(cfg.simulation.initial_seed, 300);
    assert_eq!(cfg.simulation.edge_behavior, EdgeBehavior::Wrap);
    assert_eq!(cfg.visualization.cell_size, 4);
    assert_eq!(cfg.visualization.color_scheme, ColorScheme::Pulse);
    assert_eq!(cfg.visualization.fade_rate, 100);
}

#[test]
fn default_config_validates() {
    assert_eq!(Config::default().validate(), Ok(()));
}

#[test]
fn degenerate_transform_is_rejected() {
    let mut cfg = Config::default();
    cfg.audio.fft_size = 0;
    assert_eq!(cfg.validate(), Err(ConfigError::DegenerateTransform));
    cfg.audio.fft_size = 1;
    assert_eq!(cfg.validate(), Err(ConfigError::DegenerateTransform));
    cfg.audio.fft_size = 1000;
    assert_eq!(cfg.validate(), Err(ConfigError::DegenerateTransform));
    cfg.audio.fft_size = 65536;
    assert_eq!(cfg.validate(), Err(ConfigError::DegenerateTransform));
}

#[test]
fn zero_sample_rate_is_rejected() {
    let mut cfg = Config::default();
    cfg.audio.sample_rate = 0;
    assert_eq!(cfg.validate(), Err(ConfigError::ZeroSampleRate));
}

#[test]
fn empty_band_is_rejected() {
    let mut cfg = Config::default();
    cfg.audio.mid_range = (2000, 2000);
    assert_eq!(cfg.validate(), Err(ConfigError::EmptyBand));
    cfg.audio.mid_range = (2000, 250);
    assert_eq!(cfg.validate(), Err(ConfigError::EmptyBand));
}

#[test]
fn oversized_sensitivity_is_rejected() {
    let mut cfg = Config::default();
    cfg.audio.sensitivity = 1000001;
    assert_eq!(cfg.validate(), Err(ConfigError::SensitivityTooLarge));
}

#[test]
fn zero_sized_grid_is_rejected() {
    let mut cfg = Config::default();
    cfg.simulation.width = 0;
    assert_eq!(cfg.validate(), Err(ConfigError::ZeroSizedGrid));
    let mut cfg = Config::default();
    cfg.simulation.height = 0;
    assert_eq!(cfg.validate(), Err(ConfigError::ZeroSizedGrid));
}

#[test]
fn oversized_grid_is_rejected() {
    let mut cfg = Config::default();
    cfg.simulation.width = usize::MAX;
    cfg.simulation.height = 2;
    assert_eq!(cfg.validate(), Err(ConfigError::GridTooLarge));
}

#[test]
fn density_above_one_is_rejected() {
    let mut cfg = Config::default();
    cfg.simulation.initial_seed = 1001;
    assert_eq!(cfg.validate(), Err(ConfigError::DensityOutOfRange));
}

#[test]
fn zero_update_rate_is_rejected() {
    let mut cfg = Config::default();
    cfg.simulation.update_rate = 0;
    assert_eq!(cfg.validate(), Err(ConfigError::ZeroUpdateRate));
}

#[test]
fn power_of_two_check() {
    assert!(is_power_of_two(1));
    assert!(is_power_of_two(2));
    assert!(is_power_of_two(1024));
    assert!(is_power_of_two(32768));
    assert!(!is_power_of_two(0));
    assert!(!is_power_of_two(3));
    assert!(!is_power_of_two(6));
    assert!(!is_power_of_two(1000));
}
