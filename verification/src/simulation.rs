//! Manages the simulation of a [Creature]: the declarative side of one
//! physics world.
//!
//! A [Simulation] owns one creature, the current positions of its node
//! bodies and a step counter. Each tick it computes the motor target of
//! every muscle joint — a pure function of the creature's schedules and
//! the step count — for the physics backend to apply before that tick's
//! solve; the backend reports the solved node positions back. Bounds,
//! score and schedule queries are read-only over this state.

use vstd::prelude::*;

use crate::creature::COORD_LIMIT;
use crate::creature::Creature;
use crate::creature::MovementParameters;
use crate::creature::Position;
use crate::creature::find_muscle_index;
use crate::creature::find_node_index;
use crate::creature::has_muscle_id;
use crate::creature::has_node_id;
use crate::util::lemma_seq_max_props;
use crate::util::lemma_seq_min_props;
use crate::util::seq_max;
use crate::util::seq_min;
use crate::util::spec_half;

verus! {

/// How many fixed simulation steps one simulated second holds.
pub const STEPS_PER_SECOND: i64 = 60;

/// The duration of one fixed simulation step, in nanoseconds.
pub const STEP_NANOS: u64 = 16_666_666;

/// The world width, in fixed-point units (1000 units per world unit).
pub const WORLD_X_SIZE: i64 = 1_000_000;

/// The world height, in fixed-point units.
pub const WORLD_Y_SIZE: i64 = 560_000;

/// The height of the floor slab at the bottom of the world.
pub const FLOOR_HEIGHT: i64 = 56_000;

/// The y coordinate of the top of the floor (y grows downward).
pub const FLOOR_TOP_Y: i64 = 504_000;

/// The score range one screen width maps to.
pub const SCORE_PER_SCREEN: i64 = 10;

/// Half the world width: the common spawn line scores are measured from.
pub const WORLD_X_CENTER: i64 = 500_000;

/// How many fixed-point x units one fixed-point score unit spans: the
/// world width divided by the score range per screen.
pub const SCORE_X_UNITS: i64 = 100;

/// A muscle may overshoot its nominal half-length travel by this factor,
/// in per-mille: the sliding joint's limits are the natural length times
/// ±575/1000 (1150/1000 flux times ±500/1000 travel).
pub const MUSCLE_LIMIT_FLUX_HALF_MILLE: i64 = 575;

/// The motor target of a schedule at a step: the natural length scaled
/// from fully contracted (minus half) to fully extended (plus half) by
/// the extension fraction.
pub open spec fn spec_motor_target(mp: MovementParameters, step: int) -> int {
    mp.spec_muscle_length() * mp.spec_extension_at(step) / 1000 - mp.spec_muscle_length() / 2
}

/// The magnitude of a sliding joint's travel limit for a muscle of
/// natural length `l`: the joint may travel in [-limit, limit].
pub open spec fn spec_motor_limit(l: int) -> int {
    l * MUSCLE_LIMIT_FLUX_HALF_MILLE / 1000
}

/// The score an x coordinate maps to: the signed distance from the spawn
/// line, one score unit per 100 fixed-point units, rounded toward zero.
pub open spec fn spec_score_of_x(x: int) -> int {
    if x >= WORLD_X_CENTER {
        (x - WORLD_X_CENTER) / (SCORE_X_UNITS as int)
    } else {
        -((WORLD_X_CENTER - x) / (SCORE_X_UNITS as int))
    }
}

/// Computes the motor target a muscle's sliding joint must be driven to
/// at `step`, in fixed-point units.
pub fn motor_target(mp: &MovementParameters, step: u64) -> (t: i64)
    requires
        mp.valid(),
    ensures
        t == spec_motor_target(*mp, step as int),
        -2_000_000_000 <= t <= 2_000_000_000,
{
    let frac = mp.get_extension_at(step);
    let l = mp.muscle_length();
    assert((l as u64) * (frac as u64) <= 4_000_000_000_000u64) by (nonlinear_arith)
        requires l as u64 <= 4_000_000_000u64 && frac as u64 <= 1000,
    ;
    let scaled = ((l as u64) * (frac as u64) / 1000) as i64;
    assert(scaled as int == mp.spec_muscle_length() * mp.spec_extension_at(step as int) / 1000);
    assert(scaled <= l) by (nonlinear_arith)
        requires scaled as int == (l as int) * (frac as int) / 1000 && 0 <= frac <= 1000 && 0 <= l,
    ;
    let half = ((l as u64) / 2) as i64;
    scaled - half
}

/// Computes the travel limits of a muscle's sliding joint: the natural
/// length times the overshoot factor, in both directions.
pub fn motor_limits(mp: &MovementParameters) -> (limits: (i64, i64))
    requires
        mp.valid(),
    ensures
        limits.0 == -spec_motor_limit(mp.spec_muscle_length()),
        limits.1 == spec_motor_limit(mp.spec_muscle_length()),
{
    let l = mp.muscle_length();
    assert((l as u64) * 575 <= 2_300_000_000_000u64) by (nonlinear_arith)
        requires l as u64 <= 4_000_000_000u64,
    ;
    let hi = ((l as u64) * 575 / 1000) as i64;
    (-hi, hi)
}

/// A simulation of a [Creature]: the creature, the current node body
/// positions reported by the physics backend, and the step counter.
pub struct Simulation {
    creature: Creature,
    positions: Vec<Position>,
    steps: u64,
}

impl Simulation {
    /// The creature being simulated.
    pub closed spec fn spec_creature(self) -> Creature {
        self.creature
    }

    /// The current node body positions, one per node in node order.
    pub closed spec fn spec_positions(self) -> Seq<Position> {
        self.positions@
    }

    /// How many steps the simulation has taken.
    pub closed spec fn spec_steps(self) -> u64 {
        self.steps
    }

    /// The simulation invariant: a well formed creature, one position per
    /// node, and every position within the coordinate limit.
    pub open spec fn wf(self) -> bool {
        &&& self.spec_creature().wf()
        &&& self.spec_positions().len() == self.spec_creature().spec_nodes().len()
        &&& forall|i: int|
            0 <= i < self.spec_positions().len() ==> (#[trigger] self.spec_positions()[i]).bounded(
                COORD_LIMIT as int,
            )
    }

    /// The x coordinates of the node bodies.
    pub open spec fn spec_xs(self) -> Seq<int> {
        self.spec_positions().map(|i: int, p: Position| p.x as int)
    }

    /// The y coordinates of the node bodies.
    pub open spec fn spec_ys(self) -> Seq<int> {
        self.spec_positions().map(|i: int, p: Position| p.y as int)
    }

    /// The score of the simulation: the rightmost node body, measured
    /// from the spawn line.
    pub open spec fn spec_score(self) -> int {
        spec_score_of_x(seq_max(self.spec_xs()))
    }

    /// Creates a simulation of a [Creature]: every node body starts at
    /// its node's position, and the step counter at zero.
    pub fn new(creature: Creature) -> (s: Simulation)
        requires
            creature.wf(),
            creature.bounded(COORD_LIMIT as int),
        ensures
            s.wf(),
            s.spec_creature() == creature,
            s.spec_steps() == 0,
            s.spec_positions().len() == creature.spec_nodes().len(),
            forall|i: int|
                0 <= i < s.spec_positions().len() ==> #[trigger] s.spec_positions()[i]
                    == creature.spec_nodes()[i].position,
    {
        let mut positions: Vec<Position> = Vec::new();
        let n = creature.nodes().len();
        let mut i: usize = 0;
        while i < n
            invariant
                i <= n,
                n == creature.spec_nodes().len(),
                creature.bounded(COORD_LIMIT as int),
                positions@.len() == i,
                forall|k: int|
                    0 <= k < i ==> #[trigger] positions@[k] == creature.spec_nodes()[k].position,
            decreases n - i,
        {
            positions.push(creature.nodes()[i].position);
            i = i + 1;
        }
        Simulation { creature, positions, steps: 0 }
    }

    /// Gets the [Creature] being simulated.
    pub fn creature(&self) -> (c: &Creature)
        ensures
            *c == self.spec_creature(),
    {
        &self.creature
    }

    /// How many steps the simulation has taken.
    pub fn steps(&self) -> (n: u64)
        ensures
            n == self.spec_steps(),
    {
        self.steps
    }

    /// Records the node body positions the physics backend solved for
    /// this tick, one per node in node order.
    pub fn set_node_positions(&mut self, positions: Vec<Position>)
        requires
            old(self).wf(),
            positions@.len() == old(self).spec_creature().spec_nodes().len(),
            forall|i: int|
                0 <= i < positions@.len() ==> (#[trigger] positions@[i]).bounded(
                    COORD_LIMIT as int,
                ),
        ensures
            final(self).wf(),
            final(self).spec_creature() == old(self).spec_creature(),
            final(self).spec_steps() == old(self).spec_steps(),
            final(self).spec_positions() == positions@,
    {
        self.positions = positions;
    }

    /// Gets the position of the node by its id.
    pub fn get_position_of_node(&self, id: u64) -> (p: Position)
        requires
            self.wf(),
            has_node_id(self.spec_creature().spec_nodes(), id),
        ensures
            forall|i: int|
                0 <= i < self.spec_creature().spec_nodes().len()
                    && (#[trigger] self.spec_creature().spec_nodes()[i]).id == id ==> p
                    == self.spec_positions()[i],
    {
        let i = find_node_index(self.creature.nodes(), id);
        let p = self.positions[i];
        proof {
            assert forall|k: int|
                0 <= k < self.spec_creature().spec_nodes().len()
                    && (#[trigger] self.spec_creature().spec_nodes()[k]).id == id implies p
                == self.spec_positions()[k] by {
                assert(k == i as int);
            }
        }
        p
    }

    /// Gets whether the muscle with this id is in the extension half of
    /// its cycle at the current step.
    pub fn is_muscle_extending(&self, id: u64) -> (r: bool)
        requires
            self.wf(),
            has_muscle_id(self.spec_creature().spec_muscles(), id),
        ensures
            forall|j: int|
                0 <= j < self.spec_creature().spec_muscles().len()
                    && (#[trigger] self.spec_creature().spec_muscles()[j]).id == id ==> r
                    == self.spec_creature().spec_movement_parameters()[j].spec_is_extending(
                    self.spec_steps() as int,
                ),
    {
        let j = find_muscle_index(self.creature.muscles(), id);
        let r = self.creature.movement_parameters()[j].is_extending(self.steps);
        proof {
            assert forall|k: int|
                0 <= k < self.spec_creature().spec_muscles().len()
                    && (#[trigger] self.spec_creature().spec_muscles()[k]).id == id implies r
                == self.spec_creature().spec_movement_parameters()[k].spec_is_extending(
                self.spec_steps() as int,
            ) by {
                assert(k == j as int);
            }
        }
        r
    }

    /// Gets the extension fraction of the muscle with this id at the
    /// current step, in per-mille.
    pub fn get_extension_delta_of_muscle(&self, id: u64) -> (r: i64)
        requires
            self.wf(),
            has_muscle_id(self.spec_creature().spec_muscles(), id),
        ensures
            0 <= r <= 1000,
            forall|j: int|
                0 <= j < self.spec_creature().spec_muscles().len()
                    && (#[trigger] self.spec_creature().spec_muscles()[j]).id == id ==> r
                    == self.spec_creature().spec_movement_parameters()[j].spec_extension_at(
                    self.spec_steps() as int,
                ),
    {
        let j = find_muscle_index(self.creature.muscles(), id);
        let r = self.creature.movement_parameters()[j].get_extension_at(self.steps);
        proof {
            assert forall|k: int|
                0 <= k < self.spec_creature().spec_muscles().len()
                    && (#[trigger] self.spec_creature().spec_muscles()[k]).id == id implies r
                == self.spec_creature().spec_movement_parameters()[k].spec_extension_at(
                self.spec_steps() as int,
            ) by {
                assert(k == j as int);
            }
        }
        r
    }

    /// Gets the bounds of the [Creature]'s node bodies in the form
    /// (top_left, bottom_right).
    pub fn get_bounds(&self) -> (bounds: (Position, Position))
        requires
            self.wf(),
            self.spec_creature().spec_nodes().len() >= 1,
        ensures
            bounds.0.x == seq_min(self.spec_xs()),
            bounds.0.y == seq_min(self.spec_ys()),
            bounds.1.x == seq_max(self.spec_xs()),
            bounds.1.y == seq_max(self.spec_ys()),
    {
        let ghost xs = self.spec_xs();
        let ghost ys = self.spec_ys();
        let mut min_x = self.positions[0].x;
        let mut min_y = self.positions[0].y;
        let mut max_x = self.positions[0].x;
        let mut max_y = self.positions[0].y;
        let mut i: usize = 1;
        while i < self.positions.len()
            invariant
                1 <= i <= self.spec_positions().len(),
                xs == self.spec_xs(),
                ys == self.spec_ys(),
                xs.len() == self.spec_positions().len(),
                ys.len() == self.spec_positions().len(),
                min_x == seq_min(xs.take(i as int)),
                min_y == seq_min(ys.take(i as int)),
                max_x == seq_max(xs.take(i as int)),
                max_y == seq_max(ys.take(i as int)),
            decreases self.spec_positions().len() - i,
        {
            proof {
                assert(xs.take(i + 1).drop_last() =~= xs.take(i as int));
                assert(ys.take(i + 1).drop_last() =~= ys.take(i as int));
                assert(xs.take(i + 1).last() == self.spec_positions()[i as int].x);
                assert(ys.take(i + 1).last() == self.spec_positions()[i as int].y);
            }
            let p = self.positions[i];
            if p.x < min_x {
                min_x = p.x;
            }
            if p.y < min_y {
                min_y = p.y;
            }
            if p.x > max_x {
                max_x = p.x;
            }
            if p.y > max_y {
                max_y = p.y;
            }
            i = i + 1;
        }
        proof {
            assert(xs.take(xs.len() as int) =~= xs);
            assert(ys.take(ys.len() as int) =~= ys);
        }
        (Position::new(min_x, min_y), Position::new(max_x, max_y))
    }

    /// Gets the lowest position to safely display text above: the top
    /// center of the bounding box.
    pub fn get_text_position(&self) -> (p: Position)
        requires
            self.wf(),
            self.spec_creature().spec_nodes().len() >= 1,
        ensures
            p.x == spec_half(seq_min(self.spec_xs()) + seq_max(self.spec_xs())),
            p.y == seq_min(self.spec_ys()),
    {
        let (top_left, bottom_right) = self.get_bounds();
        proof {
            lemma_seq_min_props(self.spec_xs());
            lemma_seq_max_props(self.spec_xs());
        }
        Position::new(crate::util::half_i64(top_left.x + bottom_right.x), top_left.y)
    }

    /// Converts an x position to a score.
    pub fn x_to_score(x: i64) -> (score: i64)
        requires
            -2_000_000_000 <= x <= 2_000_000_000,
        ensures
            score == spec_score_of_x(x as int),
    {
        if x >= WORLD_X_CENTER {
            (((x - WORLD_X_CENTER) as u64) / (SCORE_X_UNITS as u64)) as i64
        } else {
            let m = (((WORLD_X_CENTER - x) as u64) / (SCORE_X_UNITS as u64)) as i64;
            -m
        }
    }

    /// Converts a score to an x position.
    pub fn score_to_x(score: i64) -> (x: i64)
        requires
            -20_000_000 <= score <= 20_000_000,
        ensures
            x == score * SCORE_X_UNITS + WORLD_X_CENTER,
    {
        score * SCORE_X_UNITS + WORLD_X_CENTER
    }

    /// Gets the score (furthest x distance) of this simulation.
    pub fn get_score(&self) -> (score: i64)
        requires
            self.wf(),
            self.spec_creature().spec_nodes().len() >= 1,
        ensures
            score == self.spec_score(),
    {
        let (_top_left, bottom_right) = self.get_bounds();
        proof {
            lemma_seq_max_props(self.spec_xs());
        }
        Self::x_to_score(bottom_right.x)
    }

    /// Steps the simulation one step forward in time: computes the motor
    /// target of every muscle at the current step — to be applied by the
    /// physics backend before this tick's solve — and advances the step
    /// counter.
    pub fn step(&mut self) -> (targets: Vec<i64>)
        requires
            old(self).wf(),
            old(self).spec_steps() < u64::MAX,
        ensures
            final(self).wf(),
            final(self).spec_creature() == old(self).spec_creature(),
            final(self).spec_positions() == old(self).spec_positions(),
            final(self).spec_steps() == old(self).spec_steps() + 1,
            targets@.len() == old(self).spec_creature().spec_muscles().len(),
            forall|j: int|
                0 <= j < targets@.len() ==> targets@[j] == spec_motor_target(
                    old(self).spec_creature().spec_movement_parameters()[j],
                    old(self).spec_steps() as int,
                ),
    {
        let mut targets: Vec<i64> = Vec::new();
        let count = self.creature.movement_parameters().len();
        let mut j: usize = 0;
        while j < count
            invariant
                j <= count,
                self.wf(),
                count == self.spec_creature().spec_movement_parameters().len(),
                count == self.spec_creature().spec_muscles().len(),
                targets@.len() == j,
                forall|k: int|
                    0 <= k < j ==> targets@[k] == spec_motor_target(
                        self.spec_creature().spec_movement_parameters()[k],
                        self.spec_steps() as int,
                    ),
            decreases count - j,
        {
            targets.push(motor_target(&self.creature.movement_parameters()[j], self.steps));
            j = j + 1;
        }
        self.steps = self.steps + 1;
        targets
    }
}

/// Fixed-step determinism: every motor command and every score a
/// simulation reports is a pure function of its creature, its step count
/// and its node body positions. Two simulations built from identical
/// creature descriptors command the same motor target trajectory at
/// every future step, and two that also agree on positions report the
/// same score — stepping both the same number of ticks keeps them equal,
/// since [Simulation::step] pins the successor state exactly.
pub proof fn lemma_fixed_step_determinism(a: Simulation, b: Simulation)
    requires
        a.spec_creature() == b.spec_creature(),
        a.spec_steps() == b.spec_steps(),
        a.spec_positions() == b.spec_positions(),
    ensures
        forall|j: int, t: int|
            #![trigger a.spec_creature().spec_movement_parameters()[j], spec_motor_target(b.spec_creature().spec_movement_parameters()[j], t)]
            0 <= j < a.spec_creature().spec_movement_parameters().len() ==> spec_motor_target(
                a.spec_creature().spec_movement_parameters()[j],
                t,
            ) == spec_motor_target(b.spec_creature().spec_movement_parameters()[j], t),
        a.spec_score() == b.spec_score(),
{
}

} // verus!

