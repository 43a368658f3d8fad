//! Manages the evolution of [Creature](crate::creature::Creature)s using
//! [Simulation]s.
//!
//! The evolver owns a generation of simulations and a two-state clock:
//! it simulates the generation for a fixed number of steps, pauses for an
//! evolving countdown, then sorts the generation by score, keeps the top
//! performers and replaces the population with their mutated offspring.
//! Wall-clock time is consumed in whole fixed steps through [Evolver::run];
//! the physics backend mirrors each step through [Evolver::step], applying
//! the returned motor targets and reporting solved node positions back
//! through [Evolver::set_simulation_positions].

use vstd::prelude::*;

use crate::creature::COORD_LIMIT;
use crate::creature::Creature;
use crate::creature::CreatureBuilder;
use crate::creature::Position;
use crate::creature::RANDOM_CREATURE_ID_BUDGET;
use crate::creature::RANDOM_NODE_POSITION_LIMIT;
use crate::ids::IdSource;
use crate::simulation::FLOOR_TOP_Y;
use crate::simulation::STEP_NANOS;
use crate::simulation::Simulation;
use crate::simulation::WORLD_X_CENTER;
use crate::simulation::spec_motor_target;
use crate::util::lemma_half_between;
use crate::util::lemma_seq_max_props;
use crate::util::lemma_seq_min_props;
use crate::util::seq_max;
use crate::util::seq_min;
use crate::util::spec_half;

verus! {

/// How many simulations one generation holds.
pub const SIMULATIONS_PER_GENERATION: usize = 100;

/// How many steps a generation is simulated before it is scored.
pub const STEPS_PER_GENERATION: i32 = 900;

/// How many steps the evolving pause between generations lasts.
pub const STEPS_PER_EVOLUTION: i32 = 300;

/// How many mutated offspring each selected parent contributes. The top
/// `SIMULATIONS_PER_GENERATION / OFFSPRING_PER_CREATURE` simulations are
/// picked for mutation.
pub const OFFSPRING_PER_CREATURE: usize = 2;

/// An upper bound on the identities one generation change consumes.
pub const GENERATION_ID_BUDGET: u64 = 819_200;

/// Represents the current state of an evolver.
#[derive(Debug, Clone, Copy, PartialEq, Eq, Structural)]
pub enum EvolverState {
    SimulatingGeneration { steps_left: i32 },
    Evolving { steps_left: i32 },
}

/// What one step of the evolver did, and what the physics backend must
/// mirror before the next step.
pub enum StepOutcome {
    /// The generation advanced one step: for each simulation, in order,
    /// the motor targets to apply before that simulation's physics solve.
    SteppedSimulations { motor_targets: Vec<Vec<i64>> },
    /// The simulating phase ended; the evolving countdown began.
    BeganEvolving,
    /// One step of the evolving countdown passed.
    EvolveTick,
    /// A new generation replaced the old one; the physics backend must
    /// rebuild its worlds.
    SpawnedGeneration,
}

/// How many whole steps a nanosecond budget `t` yields: one step is taken
/// whenever more than one step's worth of time remains.
pub open spec fn spec_ticks(t: int) -> int
    decreases t,
{
    if t <= STEP_NANOS {
        0
    } else {
        1 + spec_ticks(t - STEP_NANOS)
    }
}

/// The time left over after taking every whole step out of `t`.
pub open spec fn spec_left_over(t: int) -> int {
    t - STEP_NANOS * spec_ticks(t)
}

/// Time-slicing invariance: feeding the clock a duration in two chunks
/// yields exactly as many steps, and the same remainder, as feeding it
/// the chunks' sum at once. By induction, any partition of a duration
/// into chunks yields the same step count as the whole.
pub proof fn lemma_time_slicing_invariance(a: int, b: int)
    requires
        0 <= a,
        0 <= b,
    ensures
        spec_ticks(a) + spec_ticks(spec_left_over(a) + b) == spec_ticks(a + b),
        spec_left_over(spec_left_over(a) + b) == spec_left_over(a + b),
    decreases a,
{
    if a <= STEP_NANOS {
        assert(spec_ticks(a) == 0);
    } else {
        lemma_time_slicing_invariance(a - STEP_NANOS, b);
        assert(spec_ticks(a) == 1 + spec_ticks(a - STEP_NANOS));
        assert(spec_ticks(a + b) == 1 + spec_ticks(a + b - STEP_NANOS));
        assert(spec_left_over(a) == spec_left_over(a - STEP_NANOS));
    }
}

/// The shape every simulation in a generation keeps: well formed, with a
/// creature whose size, geometry and extent stay inside fixed bounds, so
/// that anchoring its offspring at the spawn point stays inside bounds
/// too.
pub open spec fn sim_ok(s: Simulation) -> bool {
    &&& s.wf()
    &&& creature_ok(s.spec_creature())
}

/// The bounds every creature owned by the evolver satisfies.
pub open spec fn creature_ok(c: Creature) -> bool {
    &&& c.wf()
    &&& 1 <= c.spec_nodes().len() <= 63
    &&& c.spec_muscles().len() <= 4032
    &&& c.bounded(1_000_000)
    &&& forall|i: int|
        0 <= i < c.spec_nodes().len() ==> 0 <= (#[trigger] c.spec_nodes()[i]).size <= 20_000
    &&& forall|i: int, k: int|
        #![trigger c.spec_nodes()[i], c.spec_nodes()[k]]
        0 <= i < c.spec_nodes().len() && 0 <= k < c.spec_nodes().len() ==> {
            &&& -400_000 <= c.spec_nodes()[i].position.x - c.spec_nodes()[k].position.x <= 400_000
            &&& -400_000 <= c.spec_nodes()[i].position.y - c.spec_nodes()[k].position.y <= 400_000
        }
}

/// True when the sequence is ordered by score, descending.
pub open spec fn sorted_desc(s: Seq<Simulation>) -> bool {
    forall|i: int, j: int|
        #![trigger s[i], s[j]]
        0 <= i < j < s.len() ==> s[i].spec_score() >= s[j].spec_score()
}

/// Sorts the simulations by score, descending. The result is a
/// permutation of the input: same multiset of simulations, every element
/// drawn from the input. Scores are fixed-point integers, so the
/// ordering is total by construction — no degenerate value can make the
/// comparison fail.
#[verifier::rlimit(60)]
fn sort_by_score_desc(v: &mut Vec<Simulation>)
    requires
        forall|k: int| 0 <= k < old(v)@.len() ==> sim_ok(#[trigger] old(v)@[k]),
    ensures
        final(v)@.len() == old(v)@.len(),
        final(v)@.to_multiset() == old(v)@.to_multiset(),
        sorted_desc(final(v)@),
        forall|k: int| 0 <= k < final(v)@.len() ==> old(v)@.contains(#[trigger] final(v)@[k]),
        forall|k: int| 0 <= k < final(v)@.len() ==> sim_ok(#[trigger] final(v)@[k]),
{
    let ghost g0 = v@;
    let mut out: Vec<Simulation> = Vec::new();
    proof {
        broadcast use vstd::seq_lib::group_to_multiset_ensures;
        broadcast use vstd::multiset::group_multiset_axioms;

        assert(forall|x: Simulation| out@.to_multiset().count(x) == 0) by {
            assert forall|x: Simulation| out@.to_multiset().count(x) == 0 by {
                assert(!out@.contains(x));
            }
        }
        assert(out@.to_multiset().add(v@.to_multiset()) =~= g0.to_multiset());
    }
    while v.len() > 0
        invariant
            out@.len() + v@.len() == g0.len(),
            out@.to_multiset().add(v@.to_multiset()) == g0.to_multiset(),
            sorted_desc(out@),
            forall|a: int, b: int|
                #![trigger out@[a], v@[b]]
                0 <= a < out@.len() && 0 <= b < v@.len() ==> out@[a].spec_score()
                    >= v@[b].spec_score(),
            forall|k: int| 0 <= k < v@.len() ==> sim_ok(#[trigger] v@[k]),
            forall|k: int| 0 <= k < out@.len() ==> sim_ok(#[trigger] out@[k]),
            forall|k: int| 0 <= k < out@.len() ==> g0.contains(#[trigger] out@[k]),
            forall|k: int| 0 <= k < v@.len() ==> g0.contains(#[trigger] v@[k]),
        decreases v@.len(),
    {
        let ghost v1 = v@;
        let ghost out1 = out@;

        let mut imax: usize = 0;
        let mut best: i64 = v[0].get_score();
        let mut t: usize = 1;
        while t < v.len()
            invariant
                v@ == v1,
                forall|k: int| 0 <= k < v@.len() ==> sim_ok(#[trigger] v@[k]),
                1 <= t <= v@.len(),
                imax < t,
                best == v@[imax as int].spec_score(),
                forall|u: int| 0 <= u < t ==> (#[trigger] v@[u]).spec_score() <= best,
            decreases v@.len() - t,
        {
            let s = v[t].get_score();
            if s > best {
                best = s;
                imax = t;
            }
            t = t + 1;
        }

        let chosen = v.remove(imax);
        out.push(chosen);

        proof {
            broadcast use vstd::seq_lib::group_to_multiset_ensures;
            broadcast use vstd::multiset::group_multiset_axioms;

            assert(v1.to_multiset().count(chosen) > 0) by {
                assert(v1.contains(chosen));
            }
            assert(out@.to_multiset() =~= out1.to_multiset().insert(chosen));
            assert(v@.to_multiset() =~= v1.to_multiset().remove(chosen));
            assert(out@.to_multiset().add(v@.to_multiset()) =~= out1.to_multiset().add(
                v1.to_multiset(),
            ));
            assert forall|k: int| 0 <= k < v@.len() implies sim_ok(#[trigger] v@[k]) && g0.contains(
                v@[k],
            ) by {
                if k < imax {
                    assert(v@[k] == v1[k]);
                } else {
                    assert(v@[k] == v1[k + 1]);
                }
            }
            assert forall|a: int, b: int|
                #![trigger out@[a], v@[b]]
                0 <= a < out@.len() && 0 <= b < v@.len() implies out@[a].spec_score()
                >= v@[b].spec_score() by {
                if b < imax {
                    assert(v@[b] == v1[b]);
                } else {
                    assert(v@[b] == v1[b + 1]);
                }
                if a < out1.len() {
                    assert(out@[a] == out1[a]);
                } else {
                    assert(out@[a] == chosen);
                }
            }
        }
    }
    proof {
        broadcast use vstd::seq_lib::group_to_multiset_ensures;
        broadcast use vstd::multiset::group_multiset_axioms;

        assert(forall|x: Simulation| v@.to_multiset().count(x) == 0) by {
            assert forall|x: Simulation| v@.to_multiset().count(x) == 0 by {
                assert(!v@.contains(x));
            }
        }
        assert(out@.to_multiset().add(v@.to_multiset()) =~= out@.to_multiset());
    }
    *v = out;
    proof {
        assert forall|k: int| 0 <= k < final(v)@.len() implies g0.contains(
            #[trigger] final(v)@[k],
        ) by {}
    }
}

/// Where anchoring lands: after translating a creature's bottom center
/// onto the target, every node sits within the creature's own extent of
/// the target — horizontally within the largest pairwise x distance,
/// vertically at most that distance plus half a node size above the
/// target and never below it.
proof fn lemma_anchor_lands(pre: CreatureBuilder, post: CreatureBuilder, target: Position)
    requires
        pre.spec_nodes().len() >= 1,
        forall|i: int|
            0 <= i < pre.spec_nodes().len() ==> {
                &&& -200_000_000 <= (#[trigger] pre.spec_nodes()[i]).position.x <= 200_000_000
                &&& -200_000_000 <= pre.spec_nodes()[i].position.y <= 200_000_000
                &&& 0 <= pre.spec_nodes()[i].size <= 20_000
            },
        forall|i: int, k: int|
            #![trigger pre.spec_nodes()[i], pre.spec_nodes()[k]]
            0 <= i < pre.spec_nodes().len() && 0 <= k < pre.spec_nodes().len() ==> {
                &&& -400_000 <= pre.spec_nodes()[i].position.x - pre.spec_nodes()[k].position.x
                    <= 400_000
                &&& -400_000 <= pre.spec_nodes()[i].position.y - pre.spec_nodes()[k].position.y
                    <= 400_000
            },
        post.spec_nodes().len() == pre.spec_nodes().len(),
        forall|i: int|
            0 <= i < post.spec_nodes().len() ==> {
                &&& (#[trigger] post.spec_nodes()[i]).position.x == pre.spec_nodes()[i].position.x
                    + pre.spec_anchor_dx(target)
                &&& post.spec_nodes()[i].position.y == pre.spec_nodes()[i].position.y
                    + pre.spec_anchor_dy(target)
            },
    ensures
        forall|i: int|
            0 <= i < post.spec_nodes().len() ==> {
                &&& target.x - 400_000 <= (#[trigger] post.spec_nodes()[i]).position.x <= target.x
                    + 400_000
                &&& target.y - 410_000 <= post.spec_nodes()[i].position.y <= target.y
            },
{
    let xs = pre.spec_xs();
    let bs = pre.spec_bottoms();
    assert(xs.len() == pre.spec_nodes().len());
    assert(bs.len() == pre.spec_nodes().len());
    assert forall|i: int| 0 <= i < xs.len() implies xs[i] == pre.spec_nodes()[i].position.x by {}
    assert forall|i: int|
        0 <= i < bs.len() implies bs[i] == pre.spec_nodes()[i].position.y + spec_half(
        pre.spec_nodes()[i].size as int,
    ) by {}
    lemma_seq_min_props(xs);
    lemma_seq_max_props(xs);
    lemma_seq_max_props(bs);
    let na = choose|na: int| 0 <= na < xs.len() && xs[na] == seq_min(xs);
    let nb = choose|nb: int| 0 <= nb < xs.len() && xs[nb] == seq_max(xs);
    let nc = choose|nc: int| 0 <= nc < bs.len() && bs[nc] == seq_max(bs);
    lemma_half_between(seq_min(xs), seq_max(xs));
    assert forall|i: int|
        0 <= i < post.spec_nodes().len() implies {
        &&& target.x - 400_000 <= (#[trigger] post.spec_nodes()[i]).position.x <= target.x
            + 400_000
        &&& target.y - 410_000 <= post.spec_nodes()[i].position.y <= target.y
    } by {
        let half_mid = spec_half(seq_min(xs) + seq_max(xs));
        assert(pre.spec_nodes()[i].position.x - pre.spec_nodes()[na].position.x <= 400_000);
        assert(pre.spec_nodes()[i].position.x - pre.spec_nodes()[nb].position.x >= -400_000);
        assert(xs[na] <= half_mid <= xs[nb]);
        assert(post.spec_nodes()[i].position.x == target.x + (pre.spec_nodes()[i].position.x
            - half_mid));

        assert(bs[i] <= bs[nc]);
        assert(0 <= spec_half(pre.spec_nodes()[i].size as int) <= 10_000);
        assert(0 <= spec_half(pre.spec_nodes()[nc].size as int) <= 10_000);
        assert(pre.spec_nodes()[i].position.y - pre.spec_nodes()[nc].position.y >= -400_000);
        assert(post.spec_nodes()[i].position.y == target.y + (pre.spec_nodes()[i].position.y
            - bs[nc]));
    }
}

/// The common spawn point: the horizontal center of the world, on the
/// floor.
fn spawn_point() -> (p: Position)
    ensures
        p.x == WORLD_X_CENTER,
        p.y == FLOOR_TOP_Y,
{
    Position::new(WORLD_X_CENTER, FLOOR_TOP_Y)
}

/// Builds one simulation around a freshly randomized creature, anchored
/// at the spawn point.
fn random_simulation(ids: &mut IdSource) -> (s: Simulation)
    requires
        u64::MAX - old(ids).spec_next() >= RANDOM_CREATURE_ID_BUDGET,
    ensures
        sim_ok(s),
        s.spec_steps() == 0,
        old(ids).spec_next() <= final(ids).spec_next() <= old(ids).spec_next()
            + RANDOM_CREATURE_ID_BUDGET,
{
    let spawn = spawn_point();
    let builder = CreatureBuilder::random(ids);
    proof {
        assert forall|i: int|
            0 <= i < builder.spec_nodes().len() implies ((
        #[trigger] builder.spec_nodes()[i]).position.bounded(200_000_000) && 0
            <= builder.spec_nodes()[i].size <= 200_000_000) by {}
    }
    let anchored = builder.translate_bottom_center_to(&spawn);
    proof {
        lemma_anchor_lands(builder, anchored, spawn);
        assert forall|i: int|
            0 <= i < anchored.spec_nodes().len() implies ((
        #[trigger] anchored.spec_nodes()[i]).position.bounded(COORD_LIMIT as int) && 0
            <= anchored.spec_nodes()[i].size <= COORD_LIMIT) by {}
    }
    let creature = anchored.build();
    proof {
        assert(creature.spec_nodes() == anchored.spec_nodes());
        assert forall|i: int|
            0 <= i < creature.spec_nodes().len() implies ((
        #[trigger] creature.spec_nodes()[i]).position.bounded(1_000_000) && 0
            <= creature.spec_nodes()[i].size <= 20_000) by {}
        assert forall|i: int, k: int|
            #![trigger creature.spec_nodes()[i], creature.spec_nodes()[k]]
            0 <= i < creature.spec_nodes().len() && 0 <= k < creature.spec_nodes().len() implies {
            &&& -400_000 <= creature.spec_nodes()[i].position.x
                - creature.spec_nodes()[k].position.x <= 400_000
            &&& -400_000 <= creature.spec_nodes()[i].position.y
                - creature.spec_nodes()[k].position.y <= 400_000
        } by {
            assert(builder.spec_nodes()[i].position.bounded(RANDOM_NODE_POSITION_LIMIT as int));
            assert(builder.spec_nodes()[k].position.bounded(RANDOM_NODE_POSITION_LIMIT as int));
        }
    }
    Simulation::new(creature)
}

/// Builds one simulation around a mutated offspring of the parent
/// creature, anchored at the spawn point.
fn offspring_simulation(parent: &Creature, ids: &mut IdSource) -> (s: Simulation)
    requires
        creature_ok(*parent),
        u64::MAX - old(ids).spec_next() >= RANDOM_CREATURE_ID_BUDGET,
    ensures
        sim_ok(s),
        s.spec_steps() == 0,
        s.spec_creature().same_topology_as(*parent),
        old(ids).spec_next() <= final(ids).spec_next() <= old(ids).spec_next()
            + RANDOM_CREATURE_ID_BUDGET,
{
    let spawn = spawn_point();
    let builder = CreatureBuilder::mutate(parent, ids);
    proof {
        assert forall|i: int|
            0 <= i < builder.spec_nodes().len() implies ((
        #[trigger] builder.spec_nodes()[i]).position.bounded(200_000_000) && 0
            <= builder.spec_nodes()[i].size <= 200_000_000) by {
            assert(parent.spec_nodes()[i].position.bounded(1_000_000));
        }
    }
    let anchored = builder.translate_bottom_center_to(&spawn);
    proof {
        assert forall|i: int, k: int|
            #![trigger builder.spec_nodes()[i], builder.spec_nodes()[k]]
            0 <= i < builder.spec_nodes().len() && 0 <= k < builder.spec_nodes().len() implies {
            &&& -400_000 <= builder.spec_nodes()[i].position.x
                - builder.spec_nodes()[k].position.x <= 400_000
            &&& -400_000 <= builder.spec_nodes()[i].position.y
                - builder.spec_nodes()[k].position.y <= 400_000
        } by {
            assert(parent.spec_nodes()[i].position == builder.spec_nodes()[i].position);
            assert(parent.spec_nodes()[k].position == builder.spec_nodes()[k].position);
        }
        lemma_anchor_lands(builder, anchored, spawn);
        assert forall|i: int|
            0 <= i < anchored.spec_nodes().len() implies ((
        #[trigger] anchored.spec_nodes()[i]).position.bounded(COORD_LIMIT as int) && 0
            <= anchored.spec_nodes()[i].size <= COORD_LIMIT) by {}
    }
    let creature = anchored.build();
    proof {
        assert(creature.spec_nodes() == anchored.spec_nodes());
        assert(creature.spec_muscles() == anchored.spec_muscles());
        assert forall|i: int|
            0 <= i < creature.spec_nodes().len() implies ((
        #[trigger] creature.spec_nodes()[i]).position.bounded(1_000_000) && 0
            <= creature.spec_nodes()[i].size <= 20_000) by {
            assert(parent.spec_nodes()[i].size == builder.spec_nodes()[i].size);
        }
        assert forall|i: int, k: int|
            #![trigger creature.spec_nodes()[i], creature.spec_nodes()[k]]
            0 <= i < creature.spec_nodes().len() && 0 <= k < creature.spec_nodes().len() implies {
            &&& -400_000 <= creature.spec_nodes()[i].position.x
                - creature.spec_nodes()[k].position.x <= 400_000
            &&& -400_000 <= creature.spec_nodes()[i].position.y
                - creature.spec_nodes()[k].position.y <= 400_000
        } by {
            assert(parent.spec_nodes()[i].position == builder.spec_nodes()[i].position);
            assert(parent.spec_nodes()[k].position == builder.spec_nodes()[k].position);
        }
        assert forall|j: int, i: int|
            #![trigger creature.spec_muscles()[j], parent.spec_nodes()[i]]
            0 <= j < creature.spec_muscles().len() && 0 <= i < parent.spec_nodes().len() implies {
            &&& (parent.spec_nodes()[i].id == parent.spec_muscles()[j].from_id
                ==> creature.spec_muscles()[j].from_id == creature.spec_nodes()[i].id)
            &&& (parent.spec_nodes()[i].id == parent.spec_muscles()[j].to_id
                ==> creature.spec_muscles()[j].to_id == creature.spec_nodes()[i].id)
        } by {
            assert(builder.spec_muscles()[j] == creature.spec_muscles()[j]);
            assert(builder.spec_nodes()[i].id == creature.spec_nodes()[i].id);
        }
    }
    Simulation::new(creature)
}

/// The selection contract between two consecutive generations, by way of
/// a witness: `sorted` is a descending ordering of the old generation —
/// a permutation of it — the k-th new simulation descends from the
/// parent at rank `k / OFFSPRING_PER_CREATURE` of that ordering, and
/// `recorded` is the ordering's score list.
pub open spec fn spec_selection_witness(
    new_generation: Seq<Simulation>,
    old_generation: Seq<Simulation>,
    recorded: Seq<i64>,
    sorted: Seq<Simulation>,
) -> bool {
    &&& sorted.len() == old_generation.len()
    &&& sorted.to_multiset() == old_generation.to_multiset()
    &&& sorted_desc(sorted)
    &&& new_generation.len() == SIMULATIONS_PER_GENERATION
    &&& forall|k: int|
        0 <= k < new_generation.len() ==> {
            &&& (#[trigger] new_generation[k]).spec_creature().same_topology_as(
                sorted[k / (OFFSPRING_PER_CREATURE as int)].spec_creature(),
            )
            &&& new_generation[k].spec_steps() == 0
        }
    &&& recorded.len() == sorted.len()
    &&& forall|k: int| 0 <= k < recorded.len() ==> #[trigger] recorded[k] == sorted[k].spec_score()
}

/// Truncation selection happened: the new generation's ancestry maps
/// back only to the top scorers of some descending ordering of the old
/// generation, each appearing exactly OFFSPRING_PER_CREATURE times.
pub open spec fn spec_selected(
    new_generation: Seq<Simulation>,
    old_generation: Seq<Simulation>,
    recorded: Seq<i64>,
) -> bool {
    exists|sorted: Seq<Simulation>|
        spec_selection_witness(new_generation, old_generation, recorded, sorted)
}

/// One simulating step: each new simulation is its old self advanced one
/// step, and the motor targets returned for it are its schedules'
/// targets at its old step count — computed before the physics solve of
/// the tick they belong to.
pub open spec fn spec_generation_stepped(
    post: Seq<Simulation>,
    pre: Seq<Simulation>,
    targets: Seq<Vec<i64>>,
) -> bool {
    &&& post.len() == pre.len()
    &&& targets.len() == pre.len()
    &&& forall|k: int|
        0 <= k < pre.len() ==> {
            &&& (#[trigger] post[k]).spec_creature() == pre[k].spec_creature()
            &&& post[k].spec_positions() == pre[k].spec_positions()
            &&& post[k].spec_steps() == pre[k].spec_steps() + 1
        }
    &&& forall|k: int|
        0 <= k < pre.len() ==> (#[trigger] targets[k])@.len()
            == pre[k].spec_creature().spec_muscles().len()
    &&& forall|k: int, j: int|
        #![trigger targets[k]@[j]]
        0 <= k < pre.len() && 0 <= j < targets[k]@.len() ==> targets[k]@[j] == spec_motor_target(
            pre[k].spec_creature().spec_movement_parameters()[j],
            pre[k].spec_steps() as int,
        )
}

/// Ancestry counting: the parent of the k-th offspring is rank
/// `k / OFFSPRING_PER_CREATURE`, so ancestry maps back only to the top
/// `SIMULATIONS_PER_GENERATION / OFFSPRING_PER_CREATURE` ranks, and rank
/// p's offspring are exactly the OFFSPRING_PER_CREATURE children at
/// indices `p * OFFSPRING_PER_CREATURE` up to
/// `(p + 1) * OFFSPRING_PER_CREATURE`.
pub proof fn lemma_offspring_ancestry(k: int, p: int)
    requires
        0 <= k < SIMULATIONS_PER_GENERATION,
        0 <= p,
    ensures
        0 <= k / (OFFSPRING_PER_CREATURE as int) < SIMULATIONS_PER_GENERATION as int
            / OFFSPRING_PER_CREATURE as int,
        k / (OFFSPRING_PER_CREATURE as int) == p <==> OFFSPRING_PER_CREATURE * p <= k
            < OFFSPRING_PER_CREATURE * (p + 1),
{
    assert(0 <= k / 2 < 50 && (k / 2 == p <==> 2 * p <= k < 2 * (p + 1))) by (nonlinear_arith)
        requires 0 <= k < 100 && 0 <= p,
    ;
}

/// Manages the evolution of [Creature](crate::creature::Creature)s using
/// generations of [Simulation]s.
pub struct Evolver {
    current_generation: Vec<Simulation>,
    on_generation: usize,
    generation_scores: Vec<Vec<i64>>,
    time_left_over: u64,
    state: EvolverState,
    ids: IdSource,
}

impl Evolver {
    /// The current generation of simulations.
    pub closed spec fn spec_generation(self) -> Seq<Simulation> {
        self.current_generation@
    }

    /// The number of the current generation, starting at 1.
    pub closed spec fn spec_on_generation(self) -> usize {
        self.on_generation
    }

    /// The recorded score lists of past generations, each sorted
    /// descending.
    pub closed spec fn spec_generation_scores(self) -> Seq<Seq<i64>> {
        self.generation_scores@.map(|i: int, v: Vec<i64>| v@)
    }

    /// The wall-clock remainder that has not yet amounted to a step.
    pub closed spec fn spec_time_left_over(self) -> u64 {
        self.time_left_over
    }

    /// The current state of the state machine.
    pub closed spec fn spec_state(self) -> EvolverState {
        self.state
    }

    /// The next identity the evolver's id source hands out.
    pub closed spec fn spec_ids_next(self) -> u64 {
        self.ids.spec_next()
    }

    /// The evolver invariant: a full generation of well formed
    /// simulations, a clock remainder below one step, a state machine
    /// countdown in range, and a step counter on every simulation that
    /// matches the phase of the state machine.
    pub open spec fn wf(self) -> bool {
        &&& self.spec_generation().len() == SIMULATIONS_PER_GENERATION
        &&& forall|k: int|
            0 <= k < self.spec_generation().len() ==> sim_ok(#[trigger] self.spec_generation()[k])
        &&& self.spec_time_left_over() <= STEP_NANOS
        &&& match self.spec_state() {
            EvolverState::SimulatingGeneration { steps_left } => {
                &&& 1 <= steps_left <= STEPS_PER_GENERATION
                &&& forall|k: int|
                    0 <= k < self.spec_generation().len()
                        ==> (#[trigger] self.spec_generation()[k]).spec_steps()
                        == STEPS_PER_GENERATION - steps_left
            },
            EvolverState::Evolving { steps_left } => {
                &&& 1 <= steps_left <= STEPS_PER_EVOLUTION
                &&& forall|k: int|
                    0 <= k < self.spec_generation().len()
                        ==> (#[trigger] self.spec_generation()[k]).spec_steps()
                        == STEPS_PER_GENERATION - 1
            },
        }
        &&& self.spec_on_generation() >= 1
    }

    /// Gets the current state of the Evolver.
    pub fn state(&self) -> (s: EvolverState)
        ensures
            s == self.spec_state(),
    {
        self.state
    }

    /// Gets the current generation.
    pub fn current_generation(&self) -> (g: &Vec<Simulation>)
        ensures
            g@ == self.spec_generation(),
    {
        &self.current_generation
    }

    /// Returns the number of the current generation.
    pub fn on_generation(&self) -> (n: usize)
        ensures
            n == self.spec_on_generation(),
    {
        self.on_generation
    }

    /// Gets the stored scores for past generations, each sorted
    /// descending.
    pub fn generation_scores(&self) -> (scores: &Vec<Vec<i64>>)
        ensures
            scores@.len() == self.spec_generation_scores().len(),
            forall|i: int|
                0 <= i < scores@.len() ==> (#[trigger] scores@[i])@
                    == self.spec_generation_scores()[i],
    {
        &self.generation_scores
    }

    /// True when the evolver still has enough fresh identities for a
    /// generation change; callers must check it before [Evolver::step].
    pub fn has_id_budget(&self) -> (b: bool)
        ensures
            b == (u64::MAX - self.spec_ids_next() >= GENERATION_ID_BUDGET),
    {
        self.ids.remaining() >= GENERATION_ID_BUDGET
    }

    /// Runs the evolver's clock for a certain amount of elapsed time, in
    /// nanoseconds: the elapsed time plus any remainder carried from
    /// earlier calls is converted into whole fixed steps and the new
    /// remainder is kept. Returns how many steps the caller must now
    /// perform, each through [Evolver::step]. Every implied step is
    /// accounted unconditionally; a caller that must bound catch-up work
    /// after a stall bounds the elapsed time it hands in.
    pub fn run(&mut self, elapsed_nanos: u64) -> (ticks: u64)
        requires
            old(self).wf(),
            elapsed_nanos <= 1_000_000_000_000_000_000,
        ensures
            final(self).wf(),
            ticks == spec_ticks(old(self).spec_time_left_over() + elapsed_nanos),
            final(self).spec_time_left_over() == spec_left_over(
                old(self).spec_time_left_over() + elapsed_nanos,
            ),
            final(self).spec_generation() == old(self).spec_generation(),
            final(self).spec_generation_scores() == old(self).spec_generation_scores(),
            final(self).spec_on_generation() == old(self).spec_on_generation(),
            final(self).spec_state() == old(self).spec_state(),
            final(self).spec_ids_next() == old(self).spec_ids_next(),
    {
        let ghost total = old(self).spec_time_left_over() + elapsed_nanos;
        let mut time: u64 = self.time_left_over + elapsed_nanos;
        let mut ticks: u64 = 0;
        while time > STEP_NANOS
            invariant
                time + ticks * STEP_NANOS == total,
                spec_ticks(total as int) == ticks + spec_ticks(time as int),
                total <= 2_000_000_000_000_000_000,
            decreases time,
        {
            time = time - STEP_NANOS;
            ticks = ticks + 1;
        }
        self.time_left_over = time;
        proof {
            assert(spec_ticks(time as int) == 0);
            assert(spec_left_over(total as int) == total - STEP_NANOS * spec_ticks(total as int));
        }
        ticks
    }

    /// Creates a new Evolver, with a freshly randomized first generation
    /// anchored at the spawn point and a full simulating countdown.
    pub fn new() -> (e: Evolver)
        ensures
            e.wf(),
            e.spec_on_generation() == 1,
            e.spec_time_left_over() == 0,
            e.spec_state() == (EvolverState::SimulatingGeneration {
                steps_left: STEPS_PER_GENERATION,
            }),
            e.spec_generation_scores().len() == 0,
    {
        let mut evolver = Evolver {
            current_generation: Vec::new(),
            on_generation: 0,
            generation_scores: Vec::new(),
            time_left_over: 0,
            state: EvolverState::SimulatingGeneration { steps_left: STEPS_PER_GENERATION },
            ids: IdSource::new(),
        };
        evolver.generate_next_generation();
        evolver
    }

    /// Generates the next generation: randomly for the first generation;
    /// afterwards by sorting the current one by score, recording the
    /// sorted scores, and replacing the population with
    /// OFFSPRING_PER_CREATURE mutated offspring of each top performer.
    fn generate_next_generation(&mut self)
        requires
            u64::MAX - old(self).spec_ids_next() >= GENERATION_ID_BUDGET,
            old(self).spec_on_generation() < usize::MAX,
            old(self).spec_on_generation() >= 1 ==> {
                &&& old(self).spec_generation().len() == SIMULATIONS_PER_GENERATION
                &&& forall|k: int|
                    0 <= k < old(self).spec_generation().len() ==> sim_ok(
                        #[trigger] old(self).spec_generation()[k],
                    )
            },
        ensures
            final(self).spec_generation().len() == SIMULATIONS_PER_GENERATION,
            forall|k: int|
                0 <= k < final(self).spec_generation().len() ==> {
                    &&& sim_ok(#[trigger] final(self).spec_generation()[k])
                    &&& final(self).spec_generation()[k].spec_steps() == 0
                },
            final(self).spec_on_generation() == old(self).spec_on_generation() + 1,
            final(self).spec_state() == old(self).spec_state(),
            final(self).spec_time_left_over() == old(self).spec_time_left_over(),
            old(self).spec_on_generation() == 0 ==> final(self).spec_generation_scores() == old(
                self,
            ).spec_generation_scores(),
            old(self).spec_on_generation() >= 1 ==> {
                &&& final(self).spec_generation_scores().len() == old(
                    self,
                ).spec_generation_scores().len() + 1
                &&& final(self).spec_generation_scores().take(
                    old(self).spec_generation_scores().len() as int,
                ) == old(self).spec_generation_scores()
                &&& spec_selected(
                    final(self).spec_generation(),
                    old(self).spec_generation(),
                    final(self).spec_generation_scores().last(),
                )
            },
    {
        if self.on_generation == 0 {
            let ghost ids0 = self.ids.spec_next();
            let mut generation: Vec<Simulation> = Vec::new();
            while generation.len() < SIMULATIONS_PER_GENERATION
                invariant
                    generation@.len() <= SIMULATIONS_PER_GENERATION,
                    forall|k: int|
                        0 <= k < generation@.len() ==> (sim_ok(#[trigger] generation@[k])
                            && generation@[k].spec_steps() == 0),
                    ids0 <= self.ids.spec_next(),
                    self.ids.spec_next() <= ids0 + generation@.len()
                        * RANDOM_CREATURE_ID_BUDGET,
                    u64::MAX - ids0 >= GENERATION_ID_BUDGET,
                    self.current_generation@ == old(self).spec_generation(),
                    self.on_generation == old(self).spec_on_generation(),
                    self.generation_scores@ == old(self).generation_scores@,
                    self.time_left_over == old(self).spec_time_left_over(),
                    self.state == old(self).spec_state(),
                decreases SIMULATIONS_PER_GENERATION - generation@.len(),
            {
                let s = random_simulation(&mut self.ids);
                generation.push(s);
            }
            self.current_generation = generation;
            self.on_generation = self.on_generation + 1;
            return ;
        }

        sort_by_score_desc(&mut self.current_generation);
        let ghost sorted_snapshot = self.current_generation@;

        let mut scores: Vec<i64> = Vec::new();
        let mut k: usize = 0;
        while k < self.current_generation.len()
            invariant
                self.current_generation@ == sorted_snapshot,
                sorted_snapshot.len() == SIMULATIONS_PER_GENERATION,
                forall|q: int|
                    0 <= q < sorted_snapshot.len() ==> sim_ok(#[trigger] sorted_snapshot[q]),
                k <= sorted_snapshot.len(),
                scores@.len() == k,
                forall|q: int|
                    0 <= q < k ==> #[trigger] scores@[q] == sorted_snapshot[q].spec_score(),
            decreases sorted_snapshot.len() - k,
        {
            let sc = self.current_generation[k].get_score();
            scores.push(sc);
            k = k + 1;
        }
        let ghost scores_view = scores@;
        let ghost scores_before = self.generation_scores@;
        self.generation_scores.push(scores);

        let ghost ids1 = self.ids.spec_next();
        let mut new_generation: Vec<Simulation> = Vec::new();
        while new_generation.len() < SIMULATIONS_PER_GENERATION
            invariant
                self.current_generation@ == sorted_snapshot,
                sorted_snapshot.len() == SIMULATIONS_PER_GENERATION,
                forall|q: int|
                    0 <= q < sorted_snapshot.len() ==> sim_ok(#[trigger] sorted_snapshot[q]),
                new_generation@.len() <= SIMULATIONS_PER_GENERATION,
                forall|q: int|
                    0 <= q < new_generation@.len() ==> {
                        &&& sim_ok(#[trigger] new_generation@[q])
                        &&& new_generation@[q].spec_steps() == 0
                        &&& new_generation@[q].spec_creature().same_topology_as(
                            sorted_snapshot[q / (OFFSPRING_PER_CREATURE as int)].spec_creature(),
                        )
                    },
                ids1 <= self.ids.spec_next(),
                self.ids.spec_next() <= ids1 + new_generation@.len() * RANDOM_CREATURE_ID_BUDGET,
                u64::MAX - ids1 >= GENERATION_ID_BUDGET,
                self.on_generation == old(self).spec_on_generation(),
                self.generation_scores@ == scores_before.push(scores),
                scores@ == scores_view,
                self.time_left_over == old(self).spec_time_left_over(),
                self.state == old(self).spec_state(),
            decreases SIMULATIONS_PER_GENERATION - new_generation@.len(),
        {
            let j = new_generation.len();
            let parent_index = j / OFFSPRING_PER_CREATURE;
            let s = offspring_simulation(
                self.current_generation[parent_index].creature(),
                &mut self.ids,
            );
            new_generation.push(s);
            proof {
                assert(parent_index as int == j as int / (OFFSPRING_PER_CREATURE as int));
            }
        }
        self.current_generation = new_generation;
        self.on_generation = self.on_generation + 1;

        proof {
            assert(final(self).spec_generation_scores() =~= old(
                self,
            ).spec_generation_scores().push(scores_view));
            assert(final(self).spec_generation_scores().take(
                old(self).spec_generation_scores().len() as int,
            ) =~= old(self).spec_generation_scores());
            assert(spec_selection_witness(
                final(self).spec_generation(),
                old(self).spec_generation(),
                final(self).spec_generation_scores().last(),
                sorted_snapshot,
            ));
        }
    }

    /// Records the node body positions the physics backend solved for one
    /// simulation of the current generation.
    pub fn set_simulation_positions(&mut self, index: usize, positions: Vec<Position>)
        requires
            old(self).wf(),
            index < old(self).spec_generation().len(),
            positions@.len() == old(self).spec_generation()[index as int].spec_creature().spec_nodes().len(),
            forall|i: int|
                0 <= i < positions@.len() ==> (#[trigger] positions@[i]).bounded(
                    COORD_LIMIT as int,
                ),
        ensures
            final(self).wf(),
            final(self).spec_generation().len() == old(self).spec_generation().len(),
            forall|k: int|
                0 <= k < final(self).spec_generation().len() && k != index
                    ==> #[trigger] final(self).spec_generation()[k] == old(self).spec_generation()[k],
            ({
                let pre = old(self).spec_generation()[index as int];
                let post = final(self).spec_generation()[index as int];
                &&& post.spec_creature() == pre.spec_creature()
                &&& post.spec_steps() == pre.spec_steps()
                &&& post.spec_positions() == positions@
            }),
            final(self).spec_generation_scores() == old(self).spec_generation_scores(),
            final(self).spec_on_generation() == old(self).spec_on_generation(),
            final(self).spec_time_left_over() == old(self).spec_time_left_over(),
            final(self).spec_state() == old(self).spec_state(),
            final(self).spec_ids_next() == old(self).spec_ids_next(),
    {
        let mut sim = self.current_generation.remove(index);
        sim.set_node_positions(positions);
        self.current_generation.insert(index, sim);
        proof {
            assert(final(self).spec_generation() =~= old(self).spec_generation().update(
                index as int,
                final(self).spec_generation()[index as int],
            ));
        }
    }

    /// Steps the evolver's state machine once. In the simulating phase
    /// the whole generation advances one step and the returned outcome
    /// carries the motor targets the physics backend must apply for this
    /// tick; at phase boundaries the outcome says what changed instead.
    pub fn step(&mut self) -> (outcome: StepOutcome)
        requires
            old(self).wf(),
            u64::MAX - old(self).spec_ids_next() >= GENERATION_ID_BUDGET,
            old(self).spec_on_generation() < usize::MAX,
        ensures
            final(self).wf(),
            ({
                let pre = *old(self);
                let post = *final(self);
                match pre.spec_state() {
                    EvolverState::SimulatingGeneration { steps_left } => {
                        if steps_left <= 1 {
                            &&& outcome is BeganEvolving
                            &&& post.spec_state() == (EvolverState::Evolving {
                                steps_left: STEPS_PER_EVOLUTION,
                            })
                            &&& post.spec_generation() == pre.spec_generation()
                            &&& spec_same_bookkeeping(post, pre)
                        } else {
                            &&& post.spec_state() == (EvolverState::SimulatingGeneration {
                                steps_left: (steps_left - 1) as i32,
                            })
                            &&& spec_same_bookkeeping(post, pre)
                            &&& match outcome {
                                StepOutcome::SteppedSimulations { motor_targets } => {
                                    spec_generation_stepped(
                                        post.spec_generation(),
                                        pre.spec_generation(),
                                        motor_targets@,
                                    )
                                },
                                _ => false,
                            }
                        }
                    },
                    EvolverState::Evolving { steps_left } => {
                        if steps_left <= 1 {
                            &&& outcome is SpawnedGeneration
                            &&& post.spec_state() == (EvolverState::SimulatingGeneration {
                                steps_left: STEPS_PER_GENERATION,
                            })
                            &&& post.spec_on_generation() == pre.spec_on_generation() + 1
                            &&& post.spec_time_left_over() == pre.spec_time_left_over()
                            &&& post.spec_generation_scores().len()
                                == pre.spec_generation_scores().len() + 1
                            &&& post.spec_generation_scores().take(
                                pre.spec_generation_scores().len() as int,
                            ) == pre.spec_generation_scores()
                            &&& spec_selected(
                                post.spec_generation(),
                                pre.spec_generation(),
                                post.spec_generation_scores().last(),
                            )
                        } else {
                            &&& outcome is EvolveTick
                            &&& post.spec_state() == (EvolverState::Evolving {
                                steps_left: (steps_left - 1) as i32,
                            })
                            &&& post.spec_generation() == pre.spec_generation()
                            &&& spec_same_bookkeeping(post, pre)
                        }
                    },
                }
            }),
    {
        match self.state {
            EvolverState::SimulatingGeneration { steps_left } => {
                if steps_left <= 1 {
                    self.state = EvolverState::Evolving { steps_left: STEPS_PER_EVOLUTION };
                    StepOutcome::BeganEvolving
                } else {
                    let ghost g0 = self.current_generation@;
                    let ghost old_steps = STEPS_PER_GENERATION - steps_left;
                    let mut stepped: Vec<Simulation> = Vec::new();
                    let mut motor_targets: Vec<Vec<i64>> = Vec::new();
                    while self.current_generation.len() > 0
                        invariant
                            stepped@.len() + self.current_generation@.len() == g0.len(),
                            g0.len() == SIMULATIONS_PER_GENERATION,
                            forall|q: int| 0 <= q < g0.len() ==> sim_ok(#[trigger] g0[q]),
                            forall|q: int|
                                0 <= q < g0.len() ==> (#[trigger] g0[q]).spec_steps()
                                    == old_steps,
                            old_steps < STEPS_PER_GENERATION,
                            self.current_generation@ == g0.skip(stepped@.len() as int),
                            motor_targets@.len() == stepped@.len(),
                            forall|q: int|
                                0 <= q < stepped@.len() ==> {
                                    &&& (#[trigger] stepped@[q]).wf()
                                    &&& stepped@[q].spec_creature() == g0[q].spec_creature()
                                    &&& stepped@[q].spec_positions() == g0[q].spec_positions()
                                    &&& stepped@[q].spec_steps() == g0[q].spec_steps() + 1
                                },
                            forall|q: int|
                                0 <= q < motor_targets@.len() ==> (#[trigger] motor_targets@[q])@.len()
                                    == g0[q].spec_creature().spec_muscles().len(),
                            forall|q: int, j: int|
                                #![trigger motor_targets@[q]@[j]]
                                0 <= q < motor_targets@.len() && 0 <= j
                                    < motor_targets@[q]@.len() ==> motor_targets@[q]@[j]
                                    == spec_motor_target(
                                    g0[q].spec_creature().spec_movement_parameters()[j],
                                    g0[q].spec_steps() as int,
                                ),
                            self.on_generation == old(self).spec_on_generation(),
                            self.generation_scores@ == old(self).generation_scores@,
                            self.time_left_over == old(self).spec_time_left_over(),
                            self.ids.spec_next() == old(self).spec_ids_next(),
                            self.state == old(self).spec_state(),
                        decreases self.current_generation@.len(),
                    {
                        let ghost done = stepped@.len() as int;
                        proof {
                            assert(g0.skip(done)[0] == g0[done]);
                        }
                        let mut sim = self.current_generation.remove(0);
                        let t = sim.step();
                        motor_targets.push(t);
                        stepped.push(sim);
                        proof {
                            assert(self.current_generation@ =~= g0.skip(done + 1));
                        }
                    }
                    self.current_generation = stepped;
                    self.state = EvolverState::SimulatingGeneration {
                        steps_left: steps_left - 1,
                    };
                    proof {
                        assert(g0.skip(g0.len() as int).len() == 0);
                    }
                    StepOutcome::SteppedSimulations { motor_targets }
                }
            },
            EvolverState::Evolving { steps_left } => {
                if steps_left <= 1 {
                    self.state = EvolverState::SimulatingGeneration {
                        steps_left: STEPS_PER_GENERATION,
                    };
                    self.generate_next_generation();
                    StepOutcome::SpawnedGeneration
                } else {
                    self.state = EvolverState::Evolving { steps_left: steps_left - 1 };
                    StepOutcome::EvolveTick
                }
            },
        }
    }
}

/// Everything outside the generation and the state machine's own clock
/// is unchanged.
pub open spec fn spec_same_bookkeeping(post: Evolver, pre: Evolver) -> bool {
    &&& post.spec_generation_scores() == pre.spec_generation_scores()
    &&& post.spec_on_generation() == pre.spec_on_generation()
    &&& post.spec_time_left_over() == pre.spec_time_left_over()
    &&& post.spec_ids_next() == pre.spec_ids_next()
}

} // verus!
