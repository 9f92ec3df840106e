use soundscape::config::EdgeBehavior;
use soundscape::frame::AudioFrame;
use soundscape::gol::GameOfLife;

fn assert_all_dead(sim: &GameOfLife) {
    for y in 0..sim.height() {
        for x in 0..sim.width() {
            assert!(!sim.is_cell_alive(x, y));
            assert_eq!(sim.cell_age(x, y), 0);
        }
    }
}

#[test]
fn dead_grid_stays_dead_wrap() {
    let mut sim = GameOfLife::new(8, 6, 0);
    for _ in 0..5 {
        sim.update(None);
    }
    assert_all_dead(&sim);
}

#[test]
fn dead_grid_stays_dead_dead_edges() {
    let mut sim = GameOfLife::new(8, 6, 0);
    sim.set_edge_behavior(EdgeBehavior::Dead);
    for _ in 0..5 {
        sim.update(None);
    }
    assert_all_dead(&sim);
}

#[test]
fn alive_edges_give_birth_on_the_border() {
    // With `Alive` edges, a dead border cell of a 5x5 grid sees exactly 3
    // out-of-range live neighbors and is born: the dead grid does not stay
    // dead under this boundary policy.
    let mut sim = GameOfLife::new(5, 5, 0);
    sim.set_edge_behavior(EdgeBehavior::Alive);
    sim.update(None);
    assert!(sim.is_cell_alive(0, 1));
    assert!(!sim.is_cell_alive(2, 2));
}

#[test]
fn isolated_cell_dies() {
    let mut sim = GameOfLife::new(5, 5, 0);
    sim.set_cell(2, 2, true);
    sim.update(None);
    assert_all_dead(&sim);
}

#[test]
fn pair_of_cells_dies() {
    // Two adjacent cells have one live neighbor each: both die.
    let mut sim = GameOfLife::new(5, 5, 0);
    sim.set_cell(1, 1, true);
    sim.set_cell(2, 1, true);
    sim.update(None);
    assert_all_dead(&sim);
}

#[test]
fn blinker_oscillates_with_period_two() {
    let mut sim = GameOfLife::new(5, 5, 0);
    sim.set_edge_behavior(EdgeBehavior::Dead);
    sim.set_cell(1, 2, true);
    sim.set_cell(2, 2, true);
    sim.set_cell(3, 2, true);
    for step in 0..4 {
        sim.update(None);
        let vertical = step % 2 == 0;
        for y in 0..5 {
            for x in 0..5 {
                let expected = if vertical {
                    x == 2 && (1..=3).contains(&y)
                } else {
                    y == 2 && (1..=3).contains(&x)
                };
                assert_eq!(sim.is_cell_alive(x, y), expected, "step {step} at ({x},{y})");
            }
        }
    }
}

#[test]
fn randomize_zero_density_kills_everything() {
    let mut sim = GameOfLife::new(10, 10, 1000);
    sim.randomize(0);
    assert_all_dead(&sim);
}

#[test]
fn randomize_full_density_fills_everything_with_age_zero() {
    let mut sim = GameOfLife::new(10, 10, 0);
    sim.randomize(1000);
    for y in 0..10 {
        for x in 0..10 {
            assert!(sim.is_cell_alive(x, y));
            // Ages only advance via update.
            assert_eq!(sim.cell_age(x, y), 0);
        }
    }
}

#[test]
fn new_with_full_density_is_all_alive() {
    let sim = GameOfLife::new(7, 3, 1000);
    for y in 0..3 {
        for x in 0..7 {
            assert!(sim.is_cell_alive(x, y));
            assert_eq!(sim.cell_age(x, y), 0);
        }
    }
}

#[test]
fn age_saturates_at_maximum() {
    // A 2x2 block with dead edges is a still life: each cell keeps exactly
    // 3 neighbors forever, so ages climb and then saturate at 255.
    let mut sim = GameOfLife::new(4, 4, 0);
    sim.set_edge_behavior(EdgeBehavior::Dead);
    sim.set_cell(1, 1, true);
    sim.set_cell(2, 1, true);
    sim.set_cell(1, 2, true);
    sim.set_cell(2, 2, true);
    sim.update(None);
    assert_eq!(sim.cell_age(1, 1), 1);
    for _ in 0..253 {
        sim.update(None);
    }
    assert_eq!(sim.cell_age(1, 1), 254);
    sim.update(None);
    assert_eq!(sim.cell_age(1, 1), 255);
    for _ in 0..5 {
        sim.update(None);
        assert!(sim.is_cell_alive(1, 1));
        assert_eq!(sim.cell_age(1, 1), 255, "age must not wrap");
    }
}

#[test]
fn birth_resets_age_to_one_and_death_to_zero() {
    let mut sim = GameOfLife::new(5, 5, 0);
    sim.set_edge_behavior(EdgeBehavior::Dead);
    // Blinker: (2,1) is born on the first step, dies on the second.
    sim.set_cell(1, 2, true);
    sim.set_cell(2, 2, true);
    sim.set_cell(3, 2, true);
    sim.update(None);
    assert!(sim.is_cell_alive(2, 1));
    assert_eq!(sim.cell_age(2, 1), 1);
    assert_eq!(sim.cell_age(2, 2), 1);
    sim.update(None);
    assert!(!sim.is_cell_alive(2, 1));
    assert_eq!(sim.cell_age(2, 1), 0);
    assert_eq!(sim.cell_age(2, 2), 2);
}

#[test]
fn permissive_reads_out_of_bounds() {
    let sim = GameOfLife::new(4, 4, 1000);
    assert!(!sim.is_cell_alive(4, 0));
    assert!(!sim.is_cell_alive(0, 4));
    assert!(!sim.is_cell_alive(100, 100));
    assert_eq!(sim.cell_age(100, 100), 0);
}

#[test]
fn set_cell_out_of_bounds_is_ignored() {
    let mut sim = GameOfLife::new(4, 4, 0);
    sim.set_cell(4, 0, true);
    sim.set_cell(0, 4, true);
    assert_all_dead(&sim);
}

#[test]
fn clear_kills_everything() {
    let mut sim = GameOfLife::new(6, 6, 1000);
    sim.update(None);
    sim.clear();
    assert_all_dead(&sim);
}

#[test]
fn dimensions_are_reported() {
    let sim = GameOfLife::new(200, 150, 300);
    assert_eq!(sim.width(), 200);
    assert_eq!(sim.height(), 150);
}

#[test]
fn loud_bass_frame_lowers_birth_threshold() {
    // A dead cell with exactly 2 neighbors is born under the audio-driven
    // rule with bass energy 0.9, but stays dead under the standard rule.
    let frame = AudioFrame {
        bass_energy: 900,
        mid_energy: 500,
        treble_energy: 0,
        peak_frequency: 0,
        overall_energy: 1400,
    };
    let mut audio_sim = GameOfLife::new(5, 5, 0);
    audio_sim.set_cell(1, 2, true);
    audio_sim.set_cell(3, 2, true);
    audio_sim.update(Some(&frame));
    assert!(audio_sim.is_cell_alive(2, 2));

    let mut standard_sim = GameOfLife::new(5, 5, 0);
    standard_sim.set_cell(1, 2, true);
    standard_sim.set_cell(3, 2, true);
    standard_sim.update(None);
    assert!(!standard_sim.is_cell_alive(2, 2));
}

#[test]
fn quiet_mids_tighten_survival() {
    // A live cell with 3 neighbors survives under the standard rule but
    // dies when mid energy is low (survival cap 2).
    let frame = AudioFrame {
        bass_energy: 0,
        mid_energy: 100,
        treble_energy: 0,
        peak_frequency: 0,
        overall_energy: 100,
    };
    let mut sim = GameOfLife::new(5, 5, 0);
    sim.set_edge_behavior(EdgeBehavior::Dead);
    // 2x2 block: every cell has exactly 3 neighbors.
    sim.set_cell(1, 1, true);
    sim.set_cell(2, 1, true);
    sim.set_cell(1, 2, true);
    sim.set_cell(2, 2, true);
    sim.update(Some(&frame));
    assert!(!sim.is_cell_alive(1, 1));
    assert!(!sim.is_cell_alive(2, 2));
}
