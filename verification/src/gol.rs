//! The Game-of-Life engine: a double-buffered boolean grid with a parallel
//! age plane, neighbor counting under a configurable boundary policy, and
//! one generation advanced per `update` using the active rule policy.

use vstd::prelude::*;
use crate::config::{EdgeBehavior, UNIT_SCALE};
use crate::frame::AudioFrame;
use crate::rules::{AudioDrivenRuleSet, RulePolicy, StandardRuleSet};

verus! {

/// Largest representable cell age: ages saturate here and never wrap.
pub const MAX_AGE: u8 = 255;

/// Relies on rand::random: one sample of the standard distribution of `T`.
/// Nothing is promised of the value; callers state what holds of every
/// outcome.
pub assume_specification<T>[ rand::random::<T> ]() -> (r: T)
    where
        rand::distributions::Standard: rand::distributions::Distribution<T>,
;

/// Row-major index of cell (x, y) in a grid of width `w`.
pub open spec fn flat_idx(w: int, x: int, y: int) -> int {
    y * w + x
}

/// One toroidal step down from `v` in `[0, limit)`.
pub open spec fn wrap_dec(v: int, limit: int) -> int {
    if v == 0 {
        limit - 1
    } else {
        v - 1
    }
}

/// One toroidal step up from `v` in `[0, limit)`.
pub open spec fn wrap_inc(v: int, limit: int) -> int {
    if v + 1 == limit {
        0
    } else {
        v + 1
    }
}

/// `v` moved by offset `d` in {-1, 0, 1}, wrapping at both ends of
/// `[0, limit)`.
pub open spec fn shifted(v: int, limit: int, d: int) -> int {
    if d == -1 {
        wrap_dec(v, limit)
    } else if d == 1 {
        wrap_inc(v, limit)
    } else {
        v
    }
}

/// Whether the Moore neighbor of (x, y) at offset (dx, dy) counts as alive
/// in grid `g` under boundary policy `eb`: `Wrap` reduces coordinates onto
/// the torus, `Dead` treats out-of-range neighbors as dead, `Alive` as
/// alive.
pub open spec fn neighbor_alive_spec(
    g: Seq<bool>,
    w: int,
    h: int,
    eb: EdgeBehavior,
    x: int,
    y: int,
    dx: int,
    dy: int,
) -> bool {
    if eb is Wrap {
        g[flat_idx(w, shifted(x, w, dx), shifted(y, h, dy))]
    } else {
        let nx = x + dx;
        let ny = y + dy;
        if 0 <= nx < w && 0 <= ny < h {
            g[flat_idx(w, nx, ny)]
        } else {
            eb is Alive
        }
    }
}

/// 1 for a live neighbor, 0 for a dead one.
pub open spec fn b2i(b: bool) -> int {
    if b {
        1
    } else {
        0
    }
}

/// Count of live cells among the 8 Moore neighbors of (x, y).
pub open spec fn live_neighbors_spec(
    g: Seq<bool>,
    w: int,
    h: int,
    eb: EdgeBehavior,
    x: int,
    y: int,
) -> int {
    b2i(neighbor_alive_spec(g, w, h, eb, x, y, -1, -1)) + b2i(
        neighbor_alive_spec(g, w, h, eb, x, y, 0, -1),
    ) + b2i(neighbor_alive_spec(g, w, h, eb, x, y, 1, -1)) + b2i(
        neighbor_alive_spec(g, w, h, eb, x, y, -1, 0),
    ) + b2i(neighbor_alive_spec(g, w, h, eb, x, y, 1, 0)) + b2i(
        neighbor_alive_spec(g, w, h, eb, x, y, -1, 1),
    ) + b2i(neighbor_alive_spec(g, w, h, eb, x, y, 0, 1)) + b2i(
        neighbor_alive_spec(g, w, h, eb, x, y, 1, 1),
    )
}

/// The state of cell (x, y) after one generation of grid `g` under policy
/// `p` and boundary policy `eb`.
pub open spec fn step_cell_spec(
    p: RulePolicy,
    g: Seq<bool>,
    w: int,
    h: int,
    eb: EdgeBehavior,
    x: int,
    y: int,
) -> bool {
    p.next_state(g[flat_idx(w, x, y)], live_neighbors_spec(g, w, h, eb, x, y) as u8)
}

/// The age of a cell after a step: staying alive increments with
/// saturation at `MAX_AGE`, a birth sets 1, death resets to 0.
pub open spec fn next_age_spec(was_alive: bool, now_alive: bool, age: u8) -> u8 {
    if now_alive {
        if was_alive {
            if age == MAX_AGE {
                MAX_AGE
            } else {
                (age + 1) as u8
            }
        } else {
            1
        }
    } else {
        0
    }
}

/// The whole grid after one generation under policy `p`.
pub open spec fn step_grid(p: RulePolicy, g: Seq<bool>, w: int, h: int, eb: EdgeBehavior) -> Seq<
    bool,
> {
    Seq::new((w * h) as nat, |i: int| step_cell_spec(p, g, w, h, eb, i % w, i / w))
}

/// The grid after `k` generations under policy `p`.
pub open spec fn steps_grid(
    p: RulePolicy,
    g: Seq<bool>,
    w: int,
    h: int,
    eb: EdgeBehavior,
    k: nat,
) -> Seq<bool>
    decreases k,
{
    if k == 0 {
        g
    } else {
        step_grid(p, steps_grid(p, g, w, h, eb, (k - 1) as nat), w, h, eb)
    }
}

/// Row-major indices of in-range cells are in range.
pub proof fn lemma_flat_idx_bound(w: int, h: int, x: int, y: int)
    requires
        0 <= x < w,
        0 <= y < h,
    ensures
        0 <= y * w,
        0 <= flat_idx(w, x, y) < w * h,
{
    assert(0 <= y * w && 0 <= y * w + x < w * h) by (nonlinear_arith)
        requires
            0 <= x < w,
            0 <= y < h,
    ;
}

/// The stepped grid at a row-major index is the stepped cell there.
pub proof fn lemma_step_grid_at(
    p: RulePolicy,
    g: Seq<bool>,
    w: int,
    h: int,
    eb: EdgeBehavior,
    x: int,
    y: int,
)
    requires
        0 <= x < w,
        0 <= y < h,
    ensures
        step_grid(p, g, w, h, eb)[flat_idx(w, x, y)] == step_cell_spec(p, g, w, h, eb, x, y),
{
    lemma_flat_idx_bound(w, h, x, y);
    vstd::arithmetic::div_mod::lemma_fundamental_div_mod_converse(flat_idx(w, x, y), w, y, x);
}

/// A row-major index decomposes into coordinates that land back on it.
pub proof fn lemma_flat_idx_decompose(w: int, h: int, i: int)
    requires
        1 <= w,
        0 <= i < w * h,
    ensures
        0 <= i % w < w,
        0 <= i / w < h,
        flat_idx(w, i % w, i / w) == i,
{
    vstd::arithmetic::div_mod::lemma_fundamental_div_mod(i, w);
    vstd::arithmetic::div_mod::lemma_mod_bound(i, w);
    vstd::arithmetic::div_mod::lemma_div_pos_is_pos(i, w);
    assert(i / w < h) by (nonlinear_arith)
        requires
            1 <= w,
            i < w * h,
            i == w * (i / w) + i % w,
            0 <= i % w < w,
    ;
    assert(flat_idx(w, i % w, i / w) == i) by (nonlinear_arith)
        requires
            i == w * (i / w) + i % w,
    ;
}

/// A fully dead grid yields a fully dead grid after one generation under
/// the standard rule, for the `Wrap` and `Dead` boundary policies: no
/// spontaneous births without neighbors. (`Alive` edges are excluded: they
/// make out-of-range neighbors count as alive, so an edge cell of a large
/// enough grid sees exactly 3 live neighbors and is born.)
pub proof fn lemma_dead_grid_stays_dead(
    p: RulePolicy,
    g: Seq<bool>,
    w: int,
    h: int,
    eb: EdgeBehavior,
)
    requires
        p is Standard,
        !(eb is Alive),
        1 <= w,
        1 <= h,
        g.len() == w * h,
        forall|i: int| 0 <= i < g.len() ==> !g[i],
    ensures
        step_grid(p, g, w, h, eb).len() == w * h,
        forall|i: int| 0 <= i < w * h ==> !step_grid(p, g, w, h, eb)[i],
{
    assert forall|i: int| 0 <= i < w * h implies !step_grid(p, g, w, h, eb)[i] by {
        lemma_flat_idx_decompose(w, h, i);
        let x = i % w;
        let y = i / w;
        assert forall|dx: int, dy: int| -1 <= dx <= 1 && -1 <= dy <= 1 implies !neighbor_alive_spec(
            g,
            w,
            h,
            eb,
            x,
            y,
            dx,
            dy,
        ) by {
            if eb is Wrap {
                let nx = shifted(x, w, dx);
                let ny = shifted(y, h, dy);
                lemma_flat_idx_bound(w, h, nx, ny);
            } else {
                let nx = x + dx;
                let ny = y + dy;
                if 0 <= nx < w && 0 <= ny < h {
                    lemma_flat_idx_bound(w, h, nx, ny);
                }
            }
        }
        assert(live_neighbors_spec(g, w, h, eb, x, y) == 0);
    }
}

/// A fully dead grid stays fully dead after any number of generations
/// under the standard rule, for the `Wrap` and `Dead` boundary policies.
pub proof fn lemma_dead_grid_stays_dead_forever(
    p: RulePolicy,
    g: Seq<bool>,
    w: int,
    h: int,
    eb: EdgeBehavior,
    k: nat,
)
    requires
        p is Standard,
        !(eb is Alive),
        1 <= w,
        1 <= h,
        g.len() == w * h,
        forall|i: int| 0 <= i < g.len() ==> !g[i],
    ensures
        steps_grid(p, g, w, h, eb, k).len() == w * h,
        forall|i: int| 0 <= i < w * h ==> !steps_grid(p, g, w, h, eb, k)[i],
    decreases k,
{
    if k == 0 {
    } else {
        lemma_dead_grid_stays_dead_forever(p, g, w, h, eb, (k - 1) as nat);
        lemma_dead_grid_stays_dead(p, steps_grid(p, g, w, h, eb, (k - 1) as nat), w, h, eb);
    }
}

/// A live cell with at most one live neighbor always dies in the next
/// generation under the standard rule, whatever the boundary policy.
pub proof fn lemma_isolated_cell_dies(
    p: RulePolicy,
    g: Seq<bool>,
    w: int,
    h: int,
    eb: EdgeBehavior,
    x: int,
    y: int,
)
    requires
        p is Standard,
        0 <= x < w,
        0 <= y < h,
        g[flat_idx(w, x, y)],
        live_neighbors_spec(g, w, h, eb, x, y) <= 1,
    ensures
        !step_cell_spec(p, g, w, h, eb, x, y),
{
    let n = live_neighbors_spec(g, w, h, eb, x, y);
    assert(0 <= n);
}

/// Ages saturate: a cell kept alive never ages past `MAX_AGE` and never
/// wraps back to 0; a cell alive after a step has age at least 1, and a
/// dead cell has age 0.
pub proof fn lemma_age_saturates(was_alive: bool, now_alive: bool, age: u8)
    ensures
        next_age_spec(was_alive, now_alive, age) <= MAX_AGE,
        was_alive && now_alive && age == MAX_AGE ==> next_age_spec(was_alive, now_alive, age)
            == MAX_AGE,
        now_alive ==> next_age_spec(was_alive, now_alive, age) >= 1,
        !now_alive ==> next_age_spec(was_alive, now_alive, age) == 0,
{
}

/// The core Game of Life simulation: current and next cell planes of
/// identical shape, a parallel age plane, the active rule policy and the
/// boundary policy. The planes are allocated once and swapped, never
/// reallocated, on each generation.
pub struct GameOfLife {
    width: usize,
    height: usize,
    grid: Vec<bool>,
    next_grid: Vec<bool>,
    age_grid: Vec<u8>,
    ruleset: RulePolicy,
    edge_behavior: EdgeBehavior,
}

/// Fill `v` with `count` fresh values, each independently alive with
/// probability `density` thousandths. Relies on nothing about the random
/// draws; the extreme densities are pinned for every outcome.
fn fill_random(v: &mut Vec<bool>, count: usize, density: u64)
    ensures
        final(v)@.len() == count,
        density == 0 ==> forall|i: int| 0 <= i < count ==> !final(v)@[i],
        density >= UNIT_SCALE ==> forall|i: int| 0 <= i < count ==> final(v)@[i],
{
    v.clear();
    let mut k: usize = 0;
    while k < count
        invariant
            k <= count,
            v@.len() == k,
            density == 0 ==> forall|i: int| 0 <= i < k ==> !v@[i],
            density >= UNIT_SCALE ==> forall|i: int| 0 <= i < k ==> v@[i],
        decreases count - k,
    {
        let draw: u32 = rand::random::<u32>() % (UNIT_SCALE as u32);
        let alive = (draw as u64) < density;
        v.push(alive);
        k = k + 1;
    }
}

/// Fill `v` with `count` copies of `value`.
fn fill_value<T: Copy>(v: &mut Vec<T>, count: usize, value: T)
    ensures
        final(v)@.len() == count,
        forall|i: int| 0 <= i < count ==> final(v)@[i] == value,
{
    v.clear();
    let mut k: usize = 0;
    while k < count
        invariant
            k <= count,
            v@.len() == k,
            forall|i: int| 0 <= i < k ==> v@[i] == value,
        decreases count - k,
    {
        v.push(value);
        k = k + 1;
    }
}

impl GameOfLife {
    /// The three planes have identical, non-degenerate dimensions.
    pub closed spec fn wf(&self) -> bool {
        &&& 1 <= self.width
        &&& 1 <= self.height
        &&& self.width * self.height <= usize::MAX
        &&& self.grid@.len() == self.width * self.height
        &&& self.next_grid@.len() == self.width * self.height
        &&& self.age_grid@.len() == self.width * self.height
    }

    /// Grid width in cells.
    pub closed spec fn spec_width(&self) -> int {
        self.width as int
    }

    /// Grid height in cells.
    pub closed spec fn spec_height(&self) -> int {
        self.height as int
    }

    /// The current cell plane, row-major.
    pub closed spec fn cells(&self) -> Seq<bool> {
        self.grid@
    }

    /// The age plane, row-major.
    pub closed spec fn ages(&self) -> Seq<u8> {
        self.age_grid@
    }

    /// The active rule policy.
    pub closed spec fn policy(&self) -> RulePolicy {
        self.ruleset
    }

    /// The boundary policy.
    pub closed spec fn edge(&self) -> EdgeBehavior {
        self.edge_behavior
    }

    /// Allocate a grid of the given shape, each cell independently alive
    /// with probability `initial_density` thousandths, all ages zero, the
    /// standard rule active and toroidal edges. A zero-sized grid is a
    /// configuration error that callers reject beforehand.
    pub fn new(width: usize, height: usize, initial_density: u64) -> (r: GameOfLife)
        requires
            1 <= width,
            1 <= height,
            width * height <= usize::MAX,
        ensures
            r.wf(),
            r.spec_width() == width,
            r.spec_height() == height,
            r.policy() == RulePolicy::Standard(StandardRuleSet),
            r.edge() is Wrap,
            r.cells().len() == width * height,
            forall|i: int| 0 <= i < r.ages().len() ==> r.ages()[i] == 0,
            initial_density == 0 ==> forall|i: int| 0 <= i < r.cells().len() ==> !r.cells()[i],
            initial_density >= UNIT_SCALE ==> forall|i: int|
                0 <= i < r.cells().len() ==> r.cells()[i],
    {
        let cell_count = width * height;
        let mut grid: Vec<bool> = Vec::new();
        fill_random(&mut grid, cell_count, initial_density);
        let mut next_grid: Vec<bool> = Vec::new();
        fill_value(&mut next_grid, cell_count, false);
        let mut age_grid: Vec<u8> = Vec::new();
        fill_value(&mut age_grid, cell_count, 0u8);
        GameOfLife {
            width,
            height,
            grid,
            next_grid,
            age_grid,
            ruleset: RulePolicy::Standard(StandardRuleSet::new()),
            edge_behavior: EdgeBehavior::Wrap,
        }
    }

    /// Whether the Moore neighbor of (x, y) at offset (dx, dy) counts as
    /// alive under the boundary policy.
    #[verifier::rlimit(50)]
    fn neighbor_alive(&self, x: usize, y: usize, dx: i8, dy: i8) -> (r: bool)
        requires
            self.wf(),
            x < self.spec_width(),
            y < self.spec_height(),
            -1 <= dx <= 1,
            -1 <= dy <= 1,
        ensures
            r == neighbor_alive_spec(
                self.cells(),
                self.spec_width(),
                self.spec_height(),
                self.edge(),
                x as int,
                y as int,
                dx as int,
                dy as int,
            ),
    {
        match self.edge_behavior {
            EdgeBehavior::Wrap => {
                let nx = if dx == -1 {
                    if x == 0 {
                        self.width - 1
                    } else {
                        x - 1
                    }
                } else if dx == 1 {
                    if x + 1 == self.width {
                        0
                    } else {
                        x + 1
                    }
                } else {
                    x
                };
                let ny = if dy == -1 {
                    if y == 0 {
                        self.height - 1
                    } else {
                        y - 1
                    }
                } else if dy == 1 {
                    if y + 1 == self.height {
                        0
                    } else {
                        y + 1
                    }
                } else {
                    y
                };
                proof {
                    lemma_flat_idx_bound(
                        self.spec_width(),
                        self.spec_height(),
                        nx as int,
                        ny as int,
                    );
                }
                self.grid[ny * self.width + nx]
            },
            _ => {
                let out = (dx == -1 && x == 0) || (dx == 1 && x + 1 == self.width) || (dy == -1
                    && y == 0) || (dy == 1 && y + 1 == self.height);
                if out {
                    matches!(self.edge_behavior, EdgeBehavior::Alive)
                } else {
                    let nx = if dx == -1 {
                        x - 1
                    } else if dx == 1 {
                        x + 1
                    } else {
                        x
                    };
                    let ny = if dy == -1 {
                        y - 1
                    } else if dy == 1 {
                        y + 1
                    } else {
                        y
                    };
                    proof {
                        lemma_flat_idx_bound(
                            self.spec_width(),
                            self.spec_height(),
                            nx as int,
                            ny as int,
                        );
                    }
                    self.grid[ny * self.width + nx]
                }
            },
        }
    }

    /// Count the live cells among the 8 Moore neighbors of (x, y).
    pub fn count_neighbors(&self, x: usize, y: usize) -> (count: u8)
        requires
            self.wf(),
            x < self.spec_width(),
            y < self.spec_height(),
        ensures
            count as int == live_neighbors_spec(
                self.cells(),
                self.spec_width(),
                self.spec_height(),
                self.edge(),
                x as int,
                y as int,
            ),
            count <= 8,
    {
        let n0 = self.neighbor_alive(x, y, -1, -1);
        let n1 = self.neighbor_alive(x, y, 0, -1);
        let n2 = self.neighbor_alive(x, y, 1, -1);
        let n3 = self.neighbor_alive(x, y, -1, 0);
        let n4 = self.neighbor_alive(x, y, 1, 0);
        let n5 = self.neighbor_alive(x, y, -1, 1);
        let n6 = self.neighbor_alive(x, y, 0, 1);
        let n7 = self.neighbor_alive(x, y, 1, 1);
        let count: u8 = (if n0 {
            1u8
        } else {
            0u8
        }) + (if n1 {
            1u8
        } else {
            0u8
        }) + (if n2 {
            1u8
        } else {
            0u8
        }) + (if n3 {
            1u8
        } else {
            0u8
        }) + (if n4 {
            1u8
        } else {
            0u8
        }) + (if n5 {
            1u8
        } else {
            0u8
        }) + (if n6 {
            1u8
        } else {
            0u8
        }) + (if n7 {
            1u8
        } else {
            0u8
        });
        count
    }

    /// Advance one generation. A fresh audio frame first installs the
    /// audio-driven policy built from its band energies; then every cell is
    /// stepped under the active policy and its age updated, and the planes
    /// are swapped without reallocation. The mutation probability that the
    /// audio-driven policy exposes is not applied here: the step is
    /// deterministic, and callers that want per-cell random flips wire them
    /// in themselves.
    #[verifier::rlimit(100)]
    pub fn update(&mut self, audio_frame: Option<&AudioFrame>)
        requires
            old(self).wf(),
        ensures
            final(self).wf(),
            final(self).spec_width() == old(self).spec_width(),
            final(self).spec_height() == old(self).spec_height(),
            final(self).edge() == old(self).edge(),
            final(self).policy() == (match audio_frame {
                Some(f) => RulePolicy::for_frame(*f),
                None => old(self).policy(),
            }),
            final(self).cells() == step_grid(
                final(self).policy(),
                old(self).cells(),
                old(self).spec_width(),
                old(self).spec_height(),
                old(self).edge(),
            ),
            forall|i: int|
                0 <= i < final(self).ages().len() ==> final(self).ages()[i] == next_age_spec(
                    old(self).cells()[i],
                    final(self).cells()[i],
                    old(self).ages()[i],
                ),
    {
        if let Some(frame) = audio_frame {
            self.ruleset = RulePolicy::AudioDriven(
                AudioDrivenRuleSet::new(frame.bass_energy, frame.mid_energy, frame.treble_energy),
            );
        }
        let ghost g0 = self.grid@;
        let ghost a0 = self.age_grid@;
        let ghost pol = self.ruleset;
        let ghost eb0 = self.edge_behavior;
        let w = self.width;
        let h = self.height;
        let ghost cnt = (w * h) as int;
        let ghost sg = step_grid(pol, g0, w as int, h as int, eb0);
        let mut y: usize = 0;
        while y < h
            invariant
                self.wf(),
                w == self.width,
                h == self.height,
                y <= h,
                self.grid@ == g0,
                self.ruleset == pol,
                self.edge_behavior == eb0,
                cnt == (w as int) * (h as int),
                sg == step_grid(pol, g0, w as int, h as int, eb0),
                0 <= (y as int) * (w as int) <= cnt,
                forall|j: int| 0 <= j < (y as int) * (w as int) ==> self.next_grid@[j] == sg[j],
                forall|j: int|
                    0 <= j < (y as int) * (w as int) ==> self.age_grid@[j] == next_age_spec(
                        g0[j],
                        sg[j],
                        a0[j],
                    ),
                forall|j: int| (y as int) * (w as int) <= j < cnt ==> self.age_grid@[j] == a0[j],
            decreases h - y,
        {
            let mut x: usize = 0;
            while x < w
                invariant
                    self.wf(),
                    w == self.width,
                    h == self.height,
                    x <= w,
                    y < h,
                    self.grid@ == g0,
                    self.ruleset == pol,
                    self.edge_behavior == eb0,
                    cnt == (w as int) * (h as int),
                    sg == step_grid(pol, g0, w as int, h as int, eb0),
                    0 <= (y as int) * (w as int) + x <= cnt,
                    forall|j: int|
                        0 <= j < (y as int) * (w as int) + x ==> self.next_grid@[j] == sg[j],
                    forall|j: int|
                        0 <= j < (y as int) * (w as int) + x ==> self.age_grid@[j] == next_age_spec(
                            g0[j],
                            sg[j],
                            a0[j],
                        ),
                    forall|j: int|
                        (y as int) * (w as int) + x <= j < cnt ==> self.age_grid@[j] == a0[j],
                decreases w - x,
            {
                proof {
                    lemma_flat_idx_bound(w as int, h as int, x as int, y as int);
                }
                let idx = y * w + x;
                let neighbors = self.count_neighbors(x, y);
                let current_state = self.grid[idx];
                let next_state = self.ruleset.apply(current_state, neighbors);
                self.next_grid[idx] = next_state;
                let age: u8 = if next_state {
                    if current_state {
                        let a = self.age_grid[idx];
                        if a == MAX_AGE {
                            MAX_AGE
                        } else {
                            a + 1
                        }
                    } else {
                        1
                    }
                } else {
                    0
                };
                self.age_grid[idx] = age;
                proof {
                    lemma_step_grid_at(pol, g0, w as int, h as int, eb0, x as int, y as int);
                }
                x = x + 1;
            }
            proof {
                assert(((y as int) + 1) * (w as int) == (y as int) * (w as int) + (w as int))
                    by (nonlinear_arith);
            }
            y = y + 1;
        }
        proof {
            assert((h as int) * (w as int) == cnt) by (nonlinear_arith)
                requires
                    cnt == (w as int) * (h as int),
            ;
            assert(self.next_grid@ =~= sg);
        }
        std::mem::swap(&mut self.grid, &mut self.next_grid);
    }

    /// Replace the active rule policy wholesale; takes effect on the next
    /// `update`.
    pub fn install_policy(&mut self, policy: RulePolicy)
        requires
            old(self).wf(),
        ensures
            final(self).wf(),
            final(self).policy() == policy,
            final(self).spec_width() == old(self).spec_width(),
            final(self).spec_height() == old(self).spec_height(),
            final(self).cells() == old(self).cells(),
            final(self).ages() == old(self).ages(),
            final(self).edge() == old(self).edge(),
    {
        self.ruleset = policy;
    }

    /// Set one cell, leaving its age untouched; out-of-bounds writes are
    /// ignored.
    pub fn set_cell(&mut self, x: usize, y: usize, alive: bool)
        requires
            old(self).wf(),
        ensures
            final(self).wf(),
            final(self).spec_width() == old(self).spec_width(),
            final(self).spec_height() == old(self).spec_height(),
            final(self).policy() == old(self).policy(),
            final(self).edge() == old(self).edge(),
            final(self).ages() == old(self).ages(),
            x < old(self).spec_width() && y < old(self).spec_height() ==> final(self).cells()
                == old(self).cells().update(flat_idx(old(self).spec_width(), x as int, y as int), alive),
            !(x < old(self).spec_width() && y < old(self).spec_height()) ==> final(self).cells()
                == old(self).cells(),
    {
        if x < self.width && y < self.height {
            proof {
                lemma_flat_idx_bound(self.spec_width(), self.spec_height(), x as int, y as int);
            }
            let idx = y * self.width + x;
            self.grid[idx] = alive;
        }
    }

    /// Whether the cell at (x, y) is alive; out-of-bounds reads return
    /// dead, a deliberate permissive-read policy for renderer convenience.
    pub fn is_cell_alive(&self, x: usize, y: usize) -> (r: bool)
        requires
            self.wf(),
        ensures
            r == (x < self.spec_width() && y < self.spec_height() && self.cells()[flat_idx(
                self.spec_width(),
                x as int,
                y as int,
            )]),
    {
        if x < self.width && y < self.height {
            proof {
                lemma_flat_idx_bound(self.spec_width(), self.spec_height(), x as int, y as int);
            }
            let idx = y * self.width + x;
            self.grid[idx]
        } else {
            false
        }
    }

    /// How many consecutive generations the cell at (x, y) has been alive;
    /// out-of-bounds reads return 0.
    pub fn cell_age(&self, x: usize, y: usize) -> (r: u8)
        requires
            self.wf(),
        ensures
            r == (if x < self.spec_width() && y < self.spec_height() {
                self.ages()[flat_idx(self.spec_width(), x as int, y as int)]
            } else {
                0u8
            }),
    {
        if x < self.width && y < self.height {
            proof {
                lemma_flat_idx_bound(self.spec_width(), self.spec_height(), x as int, y as int);
            }
            let idx = y * self.width + x;
            self.age_grid[idx]
        } else {
            0
        }
    }

    /// Grid width in cells.
    pub fn width(&self) -> (r: usize)
        ensures
            r == self.spec_width(),
    {
        self.width
    }

    /// Grid height in cells.
    pub fn height(&self) -> (r: usize)
        ensures
            r == self.spec_height(),
    {
        self.height
    }

    /// Kill every cell and zero every age.
    pub fn clear(&mut self)
        requires
            old(self).wf(),
        ensures
            final(self).wf(),
            final(self).spec_width() == old(self).spec_width(),
            final(self).spec_height() == old(self).spec_height(),
            final(self).policy() == old(self).policy(),
            final(self).edge() == old(self).edge(),
            forall|i: int| 0 <= i < final(self).cells().len() ==> !final(self).cells()[i],
            forall|i: int| 0 <= i < final(self).ages().len() ==> final(self).ages()[i] == 0,
    {
        let count = self.width * self.height;
        fill_value(&mut self.grid, count, false);
        fill_value(&mut self.age_grid, count, 0u8);
    }

    /// Re-roll every cell independently alive with probability `density`
    /// thousandths and zero every age; ages only advance via `update`.
    pub fn randomize(&mut self, density: u64)
        requires
            old(self).wf(),
        ensures
            final(self).wf(),
            final(self).spec_width() == old(self).spec_width(),
            final(self).spec_height() == old(self).spec_height(),
            final(self).policy() == old(self).policy(),
            final(self).edge() == old(self).edge(),
            forall|i: int| 0 <= i < final(self).ages().len() ==> final(self).ages()[i] == 0,
            density == 0 ==> forall|i: int|
                0 <= i < final(self).cells().len() ==> !final(self).cells()[i],
            density >= UNIT_SCALE ==> forall|i: int|
                0 <= i < final(self).cells().len() ==> final(self).cells()[i],
    {
        let count = self.width * self.height;
        fill_random(&mut self.grid, count, density);
        fill_value(&mut self.age_grid, count, 0u8);
    }

    /// Select how neighbor lookups beyond the edge resolve.
    pub fn set_edge_behavior(&mut self, behavior: EdgeBehavior)
        requires
            old(self).wf(),
        ensures
            final(self).wf(),
            final(self).edge() == behavior,
            final(self).spec_width() == old(self).spec_width(),
            final(self).spec_height() == old(self).spec_height(),
            final(self).policy() == old(self).policy(),
            final(self).cells() == old(self).cells(),
            final(self).ages() == old(self).ages(),
    {
        self.edge_behavior = behavior;
    }
}

} // verus!
