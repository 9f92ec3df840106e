//! The rule evaluators: the fixed Conway rule and the audio-driven rule.
//!
//! A rule maps (alive, live-neighbor count) to the next alive state. The
//! audio-driven rule captures the three band energies at construction,
//! clamped to [0, 1]; loud bass lowers the birth threshold, quiet mids
//! tighten survival, and treble sets an exposed mutation probability.

use vstd::prelude::*;
use crate::config::UNIT_SCALE;
use crate::frame::AudioFrame;

verus! {

/// Bass energy above this (thousandths) lowers the birth threshold to 2.
pub const BASS_BIRTH_BOOST: u64 = 800;

/// Mid energy above this (thousandths) lets cells survive with 4 neighbors.
pub const MID_RELAXED: u64 = 700;

/// Mid energy above this (thousandths) keeps the standard survival cap of 3;
/// at or below it survival tightens to exactly 2 neighbors.
pub const MID_STANDARD: u64 = 400;

/// Mutation probability per unit of treble energy: full treble gives
/// 50 thousandths, a 5% flip chance.
pub const MUTATION_PER_UNIT: u64 = 50;

/// A rule evaluator for one cell transition.
pub trait RuleSet {
    /// What `apply` returns, as a mathematical function of the cell state
    /// and its live-neighbor count.
    spec fn apply_spec(&self, current_state: bool, neighbors: u8) -> bool;

    /// Apply the rule to determine the next state of a cell.
    fn apply(&self, current_state: bool, neighbors: u8) -> (next: bool)
        requires
            neighbors <= 8,
        ensures
            next == self.apply_spec(current_state, neighbors),
    ;
}

/// The fixed Conway transition: a live cell survives with 2 or 3 live
/// neighbors, a dead cell is born with exactly 3.
pub open spec fn standard_next(current_state: bool, neighbors: u8) -> bool {
    if current_state {
        neighbors == 2 || neighbors == 3
    } else {
        neighbors == 3
    }
}

/// Clamp a fixed-point value to [0, 1], that is to [0, `UNIT_SCALE`].
pub open spec fn clamp_unit(x: u64) -> u64 {
    if x > UNIT_SCALE {
        UNIT_SCALE
    } else {
        x
    }
}

/// The standard Conway rule set: no state, no mutation.
#[derive(Clone, Copy, Debug, PartialEq, Eq, Structural)]
pub struct StandardRuleSet;

impl StandardRuleSet {
    /// The standard rule set carries no state.
    pub fn new() -> (r: Self)
        ensures
            r == StandardRuleSet,
    {
        StandardRuleSet
    }
}

impl RuleSet for StandardRuleSet {
    open spec fn apply_spec(&self, current_state: bool, neighbors: u8) -> bool {
        standard_next(current_state, neighbors)
    }

    fn apply(&self, current_state: bool, neighbors: u8) -> (next: bool) {
        match (current_state, neighbors) {
            (true, 2) | (true, 3) => true,
            (false, 3) => true,
            _ => false,
        }
    }
}

/// Conway variant whose thresholds follow the band energies captured at
/// construction, each clamped to [0, 1] and immutable thereafter.
#[derive(Clone, Copy, Debug, PartialEq, Eq, Structural)]
pub struct AudioDrivenRuleSet {
    bass_energy: u64,
    mid_energy: u64,
    treble_energy: u64,
}

impl AudioDrivenRuleSet {
    /// Every value of this type carries clamped energies.
    #[verifier::type_invariant]
    pub closed spec fn wf(&self) -> bool {
        self.bass_energy <= UNIT_SCALE && self.mid_energy <= UNIT_SCALE && self.treble_energy
            <= UNIT_SCALE
    }

    /// The captured bass energy, in thousandths.
    pub closed spec fn spec_bass(&self) -> u64 {
        self.bass_energy
    }

    /// The captured mid energy, in thousandths.
    pub closed spec fn spec_mid(&self) -> u64 {
        self.mid_energy
    }

    /// The captured treble energy, in thousandths.
    pub closed spec fn spec_treble(&self) -> u64 {
        self.treble_energy
    }

    /// The rule set that `new` builds from raw energies.
    pub closed spec fn spec_new(bass: u64, mid: u64, treble: u64) -> Self {
        (AudioDrivenRuleSet {
            bass_energy: clamp_unit(bass),
            mid_energy: clamp_unit(mid),
            treble_energy: clamp_unit(treble),
        })
    }

    /// What `spec_new` captures: each energy clamped to [0, 1]. Lets
    /// callers reason about the policy a frame installs.
    pub proof fn lemma_spec_new(bass: u64, mid: u64, treble: u64)
        ensures
            Self::spec_new(bass, mid, treble).spec_bass() == clamp_unit(bass),
            Self::spec_new(bass, mid, treble).spec_mid() == clamp_unit(mid),
            Self::spec_new(bass, mid, treble).spec_treble() == clamp_unit(treble),
    {
    }

    /// Capture the given band energies, clamped to [0, 1].
    pub fn new(bass: u64, mid: u64, treble: u64) -> (r: Self)
        ensures
            r == Self::spec_new(bass, mid, treble),
            r.spec_bass() == clamp_unit(bass),
            r.spec_mid() == clamp_unit(mid),
            r.spec_treble() == clamp_unit(treble),
    {
        AudioDrivenRuleSet {
            bass_energy: if bass > UNIT_SCALE {
                UNIT_SCALE
            } else {
                bass
            },
            mid_energy: if mid > UNIT_SCALE {
                UNIT_SCALE
            } else {
                mid
            },
            treble_energy: if treble > UNIT_SCALE {
                UNIT_SCALE
            } else {
                treble
            },
        }
    }

    /// Neighbor count at which a dead cell is born: loud bass excites
    /// births by lowering the threshold from 3 to 2.
    pub open spec fn birth_threshold_spec(&self) -> u8 {
        if self.spec_bass() > BASS_BIRTH_BOOST {
            2
        } else {
            3
        }
    }

    /// Largest neighbor count a live cell survives: louder mids let denser
    /// clusters persist, quiet mids tighten the automaton toward
    /// extinction. The lower bound is always 2.
    pub open spec fn survival_upper_spec(&self) -> u8 {
        if self.spec_mid() > MID_RELAXED {
            4
        } else if self.spec_mid() > MID_STANDARD {
            3
        } else {
            2
        }
    }

    /// Probability (thousandths) of an independent per-cell random flip,
    /// proportional to treble energy, at most 5%.
    pub open spec fn mutation_chance_spec(&self) -> u64 {
        ((self.spec_treble() * MUTATION_PER_UNIT) as int / UNIT_SCALE as int) as u64
    }

    /// Neighbor count at which a dead cell is born.
    pub fn birth_threshold(&self) -> (t: u8)
        ensures
            t == self.birth_threshold_spec(),
    {
        if self.bass_energy > BASS_BIRTH_BOOST {
            2
        } else {
            3
        }
    }

    /// Inclusive neighbor-count range in which a live cell survives.
    pub fn survival_range(&self) -> (r: (u8, u8))
        ensures
            r.0 == 2,
            r.1 == self.survival_upper_spec(),
    {
        let upper: u8 = if self.mid_energy > MID_RELAXED {
            4
        } else if self.mid_energy > MID_STANDARD {
            3
        } else {
            2
        };
        (2, upper)
    }

    /// Probability (thousandths) of an independent per-cell random flip.
    /// This library's engine applies the deterministic rule only; the value
    /// is exposed for the caller to wire in as it chooses.
    pub fn mutation_chance(&self) -> (c: u64)
        ensures
            c == self.mutation_chance_spec(),
    {
        proof {
            use_type_invariant(self);
        }
        (self.treble_energy * MUTATION_PER_UNIT) / UNIT_SCALE
    }
}

impl RuleSet for AudioDrivenRuleSet {
    open spec fn apply_spec(&self, current_state: bool, neighbors: u8) -> bool {
        if current_state {
            2 <= neighbors <= self.survival_upper_spec()
        } else {
            neighbors == self.birth_threshold_spec()
        }
    }

    fn apply(&self, current_state: bool, neighbors: u8) -> (next: bool) {
        if current_state {
            let (lower, upper) = self.survival_range();
            lower <= neighbors && neighbors <= upper
        } else {
            neighbors == self.birth_threshold()
        }
    }
}

/// The closed set of policies the engine can hold: exactly one is active
/// at a time, replaced wholesale when a new audio frame arrives.
#[derive(Clone, Copy, Debug, PartialEq, Eq, Structural)]
pub enum RulePolicy {
    /// The fixed Conway rule.
    Standard(StandardRuleSet),
    /// The rule modulated by captured band energies.
    AudioDriven(AudioDrivenRuleSet),
}

impl RulePolicy {
    /// What the active rule returns for a cell.
    pub open spec fn next_state(&self, current_state: bool, neighbors: u8) -> bool {
        match self {
            RulePolicy::Standard(r) => r.apply_spec(current_state, neighbors),
            RulePolicy::AudioDriven(r) => r.apply_spec(current_state, neighbors),
        }
    }

    /// Mutation probability (thousandths) of the active rule: zero for the
    /// standard rule.
    pub open spec fn mutation_spec(&self) -> u64 {
        match self {
            RulePolicy::Standard(_) => 0,
            RulePolicy::AudioDriven(r) => r.mutation_chance_spec(),
        }
    }

    /// The policy that a fresh audio frame installs.
    pub open spec fn for_frame(f: AudioFrame) -> RulePolicy {
        RulePolicy::AudioDriven(
            AudioDrivenRuleSet::spec_new(f.bass_energy, f.mid_energy, f.treble_energy),
        )
    }

    /// Apply the active rule to determine the next state of a cell.
    pub fn apply(&self, current_state: bool, neighbors: u8) -> (next: bool)
        requires
            neighbors <= 8,
        ensures
            next == self.next_state(current_state, neighbors),
    {
        match self {
            RulePolicy::Standard(r) => r.apply(current_state, neighbors),
            RulePolicy::AudioDriven(r) => r.apply(current_state, neighbors),
        }
    }

    /// Loud bass excites births: under the policy a frame with bass
    /// energy above `BASS_BIRTH_BOOST` installs, a dead cell with exactly
    /// 2 live neighbors is born, though it would stay dead under the
    /// standard rule.
    pub proof fn lemma_bass_boosts_birth(f: AudioFrame)
        requires
            BASS_BIRTH_BOOST < f.bass_energy,
        ensures
            RulePolicy::for_frame(f).next_state(false, 2),
            !RulePolicy::Standard(StandardRuleSet).next_state(false, 2),
    {
        AudioDrivenRuleSet::lemma_spec_new(f.bass_energy, f.mid_energy, f.treble_energy);
    }

    /// Mutation probability (thousandths) of the active rule.
    pub fn mutation_chance(&self) -> (c: u64)
        ensures
            c == self.mutation_spec(),
    {
        match self {
            RulePolicy::Standard(_) => 0,
            RulePolicy::AudioDriven(r) => r.mutation_chance(),
        }
    }
}

} // verus!
