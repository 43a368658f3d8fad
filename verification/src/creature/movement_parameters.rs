//! Movement schedules: when and how far each muscle extends.

use vstd::prelude::*;

use crate::random::random_in_range;
use crate::util::clamp_to_range;
use crate::util::spec_clamp;

use super::COORD_LIMIT;
use super::Muscle;
use super::Node;
use super::find_node_index;
use super::has_node_id;
use super::node_ids_unique;
use super::spec_dist_sq;

verus! {

/// The smallest extension period generation and mutation allow, in steps.
pub const EXTENSION_PERIOD_MIN: i64 = 15;

/// The largest extension period generation and mutation allow, in steps.
pub const EXTENSION_PERIOD_MAX: i64 = 240;

/// The smallest contraction period generation and mutation allow, in steps.
pub const CONTRACTION_PERIOD_MIN: i64 = 15;

/// The largest contraction period generation and mutation allow, in steps.
pub const CONTRACTION_PERIOD_MAX: i64 = 240;

/// How far mutation may move a period in either direction, in steps.
pub const MUTATE_PERIOD_DELTA: i64 = 2;

/// Represents a set of parameters for when and how a muscle should move.
/// Periods are whole simulation steps; the natural length is fixed-point,
/// cached from the endpoint distance when the creature was built.
#[derive(Debug, Clone, Copy, PartialEq, Eq, Structural)]
pub struct MovementParameters {
    muscle_length: i64,
    extension_period: i64,
    contraction_period: i64,
}

impl MovementParameters {
    /// The cached natural length of the muscle.
    pub closed spec fn spec_muscle_length(self) -> int {
        self.muscle_length as int
    }

    /// The extension half of the cycle, in steps.
    pub closed spec fn spec_extension_period(self) -> int {
        self.extension_period as int
    }

    /// The contraction half of the cycle, in steps.
    pub closed spec fn spec_contraction_period(self) -> int {
        self.contraction_period as int
    }

    /// The full cycle length, in steps.
    pub open spec fn spec_total_period(self) -> int {
        self.spec_extension_period() + self.spec_contraction_period()
    }

    /// Parameters a schedule can be evaluated on: positive periods, and
    /// magnitudes small enough that every formula below fits in 64 bits.
    pub open spec fn valid(self) -> bool {
        &&& 1 <= self.spec_extension_period() <= 1_000_000
        &&& 1 <= self.spec_contraction_period() <= 1_000_000
        &&& 0 <= self.spec_muscle_length() <= 4_000_000_000
    }

    /// Valid, with both periods inside the range that random generation
    /// draws from and that mutation clamps back into.
    pub open spec fn in_legal_range(self) -> bool {
        &&& self.valid()
        &&& EXTENSION_PERIOD_MIN <= self.spec_extension_period() <= EXTENSION_PERIOD_MAX
        &&& CONTRACTION_PERIOD_MIN <= self.spec_contraction_period() <= CONTRACTION_PERIOD_MAX
    }

    /// True when `step` falls in the extension half of its cycle.
    pub open spec fn spec_is_extending(self, step: int) -> bool {
        step % self.spec_total_period() < self.spec_extension_period()
    }

    /// The extension fraction at `step`, in per-mille: 0 is fully
    /// contracted, 1000 fully extended. During the very first period the
    /// fraction rises from 500 (rest length) instead of 0; in every later
    /// period it rises from 0 to 1000 and falls back to 0.
    pub open spec fn spec_extension_at(self, step: int) -> int {
        let total = self.spec_total_period();
        let d = step % total;
        if d < self.spec_extension_period() {
            if step < total {
                500 + 500 * d / self.spec_extension_period()
            } else {
                1000 * d / self.spec_extension_period()
            }
        } else {
            1000 - 1000 * (d - self.spec_extension_period()) / self.spec_contraction_period()
        }
    }

    /// Creates a schedule from explicit parameters.
    pub fn new(muscle_length: i64, extension_period: i64, contraction_period: i64) -> (mp:
        MovementParameters)
        requires
            0 <= muscle_length <= 4_000_000_000,
            1 <= extension_period <= 1_000_000,
            1 <= contraction_period <= 1_000_000,
        ensures
            mp.spec_muscle_length() == muscle_length,
            mp.spec_extension_period() == extension_period,
            mp.spec_contraction_period() == contraction_period,
            mp.valid(),
    {
        MovementParameters { muscle_length, extension_period, contraction_period }
    }

    /// True when the schedule's cached natural length is the integer
    /// square root of the squared distance between the two positions.
    pub open spec fn natural_length_matches(self, a: super::Position, b: super::Position) -> bool {
        let l = self.spec_muscle_length();
        l * l <= spec_dist_sq(a, b) < (l + 1) * (l + 1)
    }

    /// Generates a schedule for every muscle: the natural length is the
    /// distance between the muscle's endpoints, and both periods are drawn
    /// uniformly from the legal range.
    pub fn generate_for_muscles_and_nodes(muscles: &Vec<Muscle>, nodes: &Vec<Node>) -> (mps: Vec<
        MovementParameters,
    >)
        requires
            node_ids_unique(nodes@),
            forall|j: int|
                0 <= j < muscles@.len() ==> has_node_id(nodes@, muscles@[j].from_id) && has_node_id(
                    nodes@,
                    muscles@[j].to_id,
                ),
            forall|i: int| 0 <= i < nodes@.len() ==> nodes@[i].position.bounded(COORD_LIMIT as int),
        ensures
            mps@.len() == muscles@.len(),
            forall|j: int| 0 <= j < mps@.len() ==> mps@[j].in_legal_range(),
            forall|j: int, fi: int, ti: int|
                0 <= j < mps@.len() && 0 <= fi < nodes@.len() && 0 <= ti < nodes@.len()
                    && nodes@[fi].id == muscles@[j].from_id && nodes@[ti].id == muscles@[j].to_id
                    ==> mps@[j].natural_length_matches(
                    nodes@[fi].position,
                    nodes@[ti].position,
                ),
    {
        let mut mps: Vec<MovementParameters> = Vec::new();
        let mut j: usize = 0;
        while j < muscles.len()
            invariant
                j <= muscles@.len(),
                mps@.len() == j,
                node_ids_unique(nodes@),
                forall|k: int|
                    0 <= k < muscles@.len() ==> has_node_id(nodes@, muscles@[k].from_id)
                        && has_node_id(nodes@, muscles@[k].to_id),
                forall|i: int|
                    0 <= i < nodes@.len() ==> nodes@[i].position.bounded(COORD_LIMIT as int),
                forall|k: int| 0 <= k < j ==> mps@[k].in_legal_range(),
                forall|k: int, fi: int, ti: int|
                    0 <= k < j && 0 <= fi < nodes@.len() && 0 <= ti < nodes@.len()
                        && nodes@[fi].id == muscles@[k].from_id && nodes@[ti].id
                        == muscles@[k].to_id ==> mps@[k].natural_length_matches(
                        nodes@[fi].position,
                        nodes@[ti].position,
                    ),
            decreases muscles@.len() - j,
        {
            let muscle = muscles[j];
            let fi = find_node_index(nodes, muscle.from_id);
            let ti = find_node_index(nodes, muscle.to_id);
            let muscle_length = nodes[fi].position.distance_to(&nodes[ti].position);
            let extension_period = random_in_range(EXTENSION_PERIOD_MIN, EXTENSION_PERIOD_MAX);
            let contraction_period = random_in_range(CONTRACTION_PERIOD_MIN, CONTRACTION_PERIOD_MAX);
            mps.push(
                MovementParameters { muscle_length, extension_period, contraction_period },
            );
            proof {
                assert forall|fi2: int, ti2: int|
                    0 <= fi2 < nodes@.len() && 0 <= ti2 < nodes@.len() && nodes@[fi2].id
                        == muscles@[j as int].from_id && nodes@[ti2].id
                        == muscles@[j as int].to_id implies mps@[j as int].natural_length_matches(
                    nodes@[fi2].position,
                    nodes@[ti2].position,
                ) by {
                    assert(fi2 == fi as int);
                    assert(ti2 == ti as int);
                }
            }
            j = j + 1;
        }
        mps
    }

    /// Creates a new schedule that is a mutation of the passed in one: both
    /// periods move by an independent small delta and are clamped back into
    /// the legal range; the natural length is kept.
    pub fn mutate(movement_parameters: &MovementParameters) -> (mp: MovementParameters)
        requires
            movement_parameters.valid(),
        ensures
            mp.spec_muscle_length() == movement_parameters.spec_muscle_length(),
            mp.in_legal_range(),
            exists|de: int, dc: int|
                -MUTATE_PERIOD_DELTA <= de <= MUTATE_PERIOD_DELTA && -MUTATE_PERIOD_DELTA <= dc
                    <= MUTATE_PERIOD_DELTA && mp.spec_extension_period() == #[trigger] spec_clamp(
                    movement_parameters.spec_extension_period() + de,
                    EXTENSION_PERIOD_MIN as int,
                    EXTENSION_PERIOD_MAX as int,
                ) && mp.spec_contraction_period() == #[trigger] spec_clamp(
                    movement_parameters.spec_contraction_period() + dc,
                    CONTRACTION_PERIOD_MIN as int,
                    CONTRACTION_PERIOD_MAX as int,
                ),
    {
        let de = random_in_range(-MUTATE_PERIOD_DELTA, MUTATE_PERIOD_DELTA);
        let dc = random_in_range(-MUTATE_PERIOD_DELTA, MUTATE_PERIOD_DELTA);

        let new_extension_period = clamp_to_range(
            movement_parameters.extension_period + de,
            EXTENSION_PERIOD_MIN,
            EXTENSION_PERIOD_MAX,
        );
        let new_contraction_period = clamp_to_range(
            movement_parameters.contraction_period + dc,
            CONTRACTION_PERIOD_MIN,
            CONTRACTION_PERIOD_MAX,
        );

        let mp = MovementParameters {
            muscle_length: movement_parameters.muscle_length,
            extension_period: new_extension_period,
            contraction_period: new_contraction_period,
        };
        proof {
            assert(-MUTATE_PERIOD_DELTA <= de as int <= MUTATE_PERIOD_DELTA
                && -MUTATE_PERIOD_DELTA <= dc as int <= MUTATE_PERIOD_DELTA
                && mp.spec_extension_period() == spec_clamp(
                movement_parameters.spec_extension_period() + de as int,
                EXTENSION_PERIOD_MIN as int,
                EXTENSION_PERIOD_MAX as int,
            ) && mp.spec_contraction_period() == spec_clamp(
                movement_parameters.spec_contraction_period() + dc as int,
                CONTRACTION_PERIOD_MIN as int,
                CONTRACTION_PERIOD_MAX as int,
            ));
        }
        mp
    }

    /// Gets the natural muscle length.
    pub fn muscle_length(&self) -> (l: i64)
        ensures
            l == self.spec_muscle_length(),
    {
        self.muscle_length
    }

    /// Gets the extension period, in steps.
    pub fn extension_period(&self) -> (p: i64)
        ensures
            p == self.spec_extension_period(),
    {
        self.extension_period
    }

    /// Gets the contraction period, in steps.
    pub fn contraction_period(&self) -> (p: i64)
        ensures
            p == self.spec_contraction_period(),
    {
        self.contraction_period
    }

    /// Returns true if extending, false if contracting.
    pub fn is_extending(&self, step: u64) -> (r: bool)
        requires
            self.valid(),
        ensures
            r == self.spec_is_extending(step as int),
    {
        let total = self.extension_period + self.contraction_period;
        let d = step % (total as u64);
        (d as i64) < self.extension_period
    }

    /// Gets the extension delta based on existing parameters, in per-mille:
    /// 0 = fully contracted, 1000 = fully extended, 500 = rest length.
    pub fn get_extension_at(&self, step: u64) -> (r: i64)
        requires
            self.valid(),
        ensures
            r == self.spec_extension_at(step as int),
            0 <= r <= 1000,
            step == 0 ==> r == 500,
    {
        let ext = self.extension_period as u64;
        let con = self.contraction_period as u64;
        let total = ext + con;
        let d = step % total;

        if d < ext {
            if step < total {
                let q = 500 * d / ext;
                assert(q < 500) by (nonlinear_arith)
                    requires q == 500 * (d as int) / (ext as int) && 0 <= d < ext,
                ;
                proof {
                    if step == 0 {
                        assert(0int % self.spec_total_period() == 0) by (nonlinear_arith)
                            requires self.spec_total_period() >= 1,
                        ;
                        assert(0int / self.spec_extension_period() == 0) by (nonlinear_arith)
                            requires self.spec_extension_period() >= 1,
                        ;
                    }
                }
                (q + 500) as i64
            } else {
                let q = 1000 * d / ext;
                assert(q < 1000) by (nonlinear_arith)
                    requires q == 1000 * (d as int) / (ext as int) && 0 <= d < ext,
                ;
                q as i64
            }
        } else {
            let q = 1000 * (d - ext) / con;
            assert(d < total);
            assert(q < 1000) by (nonlinear_arith)
                requires q == 1000 * ((d - ext) as int) / (con as int) && 0 <= d - ext < con,
            ;
            (1000 - q) as i64
        }
    }
}

/// The extending half of the cycle and the extension fraction trend agree:
/// while a schedule reports extending at two consecutive steps of the same
/// period, the extension fraction never decreases between them.
pub proof fn lemma_extension_nondecreasing_while_extending(mp: MovementParameters, step: int)
    requires
        mp.valid(),
        step >= 0,
        mp.spec_is_extending(step),
        mp.spec_is_extending(step + 1),
        (step + 1) % mp.spec_total_period() != 0,
    ensures
        mp.spec_extension_at(step) <= mp.spec_extension_at(step + 1),
{
    let total = mp.spec_total_period();
    let ext = mp.spec_extension_period();
    let d = step % total;
    let d1 = (step + 1) % total;

    vstd::arithmetic::div_mod::lemma_fundamental_div_mod(step, total);
    assert(step == total * (step / total) + d);
    if d + 1 < total {
        vstd::arithmetic::div_mod::lemma_fundamental_div_mod_converse(
            step + 1,
            total,
            step / total,
            d + 1,
        );
    } else {
        assert(step + 1 == (step / total + 1) * total + 0) by (nonlinear_arith)
            requires step == total * (step / total) + d && d + 1 == total,
        ;
        vstd::arithmetic::div_mod::lemma_fundamental_div_mod_converse(
            step + 1,
            total,
            step / total + 1,
            0,
        );
        assert(false);
    }
    assert(d1 == d + 1);

    if step < total {
        assert(total % total == 0) by (nonlinear_arith)
            requires total >= 1,
        ;
        assert(step + 1 != total);
        vstd::arithmetic::div_mod::lemma_div_is_ordered(500 * d, 500 * (d + 1), ext);
    } else {
        vstd::arithmetic::div_mod::lemma_div_is_ordered(1000 * d, 1000 * (d + 1), ext);
    }
}

} // verus!
