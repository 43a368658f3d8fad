//! Contains the [Creature] struct and all related components of it.

mod creature_colors;
mod movement_parameters;
mod muscle;
mod node;
mod position;

pub use creature_colors::COLOR_HUE_MAX;
pub use creature_colors::CreatureColors;
pub use creature_colors::MUTATE_COLOR_HUE_DELTA;
pub use creature_colors::Rgb;
pub use creature_colors::spec_rgb_from_hsv;
pub use creature_colors::spec_wrap_hue;
pub use movement_parameters::CONTRACTION_PERIOD_MAX;
pub use movement_parameters::CONTRACTION_PERIOD_MIN;
pub use movement_parameters::EXTENSION_PERIOD_MAX;
pub use movement_parameters::EXTENSION_PERIOD_MIN;
pub use movement_parameters::MUTATE_PERIOD_DELTA;
pub use movement_parameters::MovementParameters;
pub use movement_parameters::lemma_extension_nondecreasing_while_extending;
pub use muscle::Muscle;
pub use muscle::find_muscle_index;
pub use muscle::has_muscle_id;
pub use muscle::muscle_ids_unique;
pub use node::Node;
pub use node::find_node_index;
pub use node::has_node_id;
pub use node::node_ids_unique;
pub use position::COORD_LIMIT;
pub use position::Position;
pub use position::spec_dist_sq;

use vstd::prelude::*;

use crate::ids::IdSource;
use crate::random::random_in_range;
use crate::util::half_i64;
use crate::util::lemma_seq_max_props;
use crate::util::lemma_seq_min_props;
use crate::util::seq_max;
use crate::util::seq_min;
use crate::util::spec_half;

verus! {

/// How many nodes a random creature starts from.
pub const BASE_RANDOM_NODES: usize = 3;

/// The chance, in per-mille, that a random creature grows one more node.
pub const RANDOM_CHANCE_TO_ADD_NODE: i64 = 250;

/// The most extra nodes a random creature may grow beyond the base count.
pub const MAX_RANDOM_EXTRA_NODES: usize = 60;

/// The largest coordinate magnitude of a randomly placed node.
pub const RANDOM_NODE_POSITION_LIMIT: i64 = 100_000;

/// The smallest size of a randomly placed node.
pub const RANDOM_NODE_SIZE_MIN: i64 = 10_000;

/// The largest size of a randomly placed node.
pub const RANDOM_NODE_SIZE_MAX: i64 = 20_000;

/// The chance, in per-mille, that a pair of distinct nodes is connected.
pub const RANDOM_CHANCE_TO_CONNECT_NODES: i64 = 750;

/// An upper bound on the identities one random creature consumes: one for
/// the creature, one per node, one per muscle.
pub const RANDOM_CREATURE_ID_BUDGET: u64 = 8192;

/// True when every muscle connects two distinct, present node identities.
pub open spec fn muscles_well_connected(muscles: Seq<Muscle>, nodes: Seq<Node>) -> bool {
    forall|j: int|
        0 <= j < muscles.len() ==> (#[trigger] has_node_id(nodes, muscles[j].from_id)
            && has_node_id(nodes, muscles[j].to_id) && muscles[j].from_id != muscles[j].to_id)
}

/// A creature, made up of [Node]s and [Muscle]s. Contains a unique id for
/// reference. Built using a [CreatureBuilder]; read-only thereafter.
pub struct Creature {
    id: u64,
    nodes: Vec<Node>,
    muscles: Vec<Muscle>,
    movement_parameters: Vec<MovementParameters>,
    colors: CreatureColors,
}

impl Creature {
    /// The unique id of the creature.
    pub closed spec fn spec_id(self) -> u64 {
        self.id
    }

    /// The nodes of the creature, in builder order.
    pub closed spec fn spec_nodes(self) -> Seq<Node> {
        self.nodes@
    }

    /// The muscles of the creature, in builder order.
    pub closed spec fn spec_muscles(self) -> Seq<Muscle> {
        self.muscles@
    }

    /// The movement schedules, one per muscle, in muscle order.
    pub closed spec fn spec_movement_parameters(self) -> Seq<MovementParameters> {
        self.movement_parameters@
    }

    /// The colors of the creature.
    pub closed spec fn spec_colors(self) -> CreatureColors {
        self.colors
    }

    /// The construction invariant: identities are unique, every muscle
    /// connects two distinct present nodes, every muscle has exactly one
    /// valid schedule, and the colors derive from their hue.
    pub open spec fn wf(self) -> bool {
        &&& node_ids_unique(self.spec_nodes())
        &&& muscle_ids_unique(self.spec_muscles())
        &&& muscles_well_connected(self.spec_muscles(), self.spec_nodes())
        &&& self.spec_movement_parameters().len() == self.spec_muscles().len()
        &&& forall|j: int|
            0 <= j < self.spec_movement_parameters().len()
                ==> (#[trigger] self.spec_movement_parameters()[j]).valid()
        &&& self.spec_colors().wf()
    }

    /// True when every node position and size is at most `b` in magnitude.
    pub open spec fn bounded(self, b: int) -> bool {
        forall|i: int|
            0 <= i < self.spec_nodes().len() ==> ((#[trigger] self.spec_nodes()[i]).position.bounded(
                b,
            ) && 0 <= self.spec_nodes()[i].size <= b)
    }

    /// True when the creature id and every node and muscle id is below `n`.
    pub open spec fn ids_below(self, n: u64) -> bool {
        &&& self.spec_id() < n
        &&& forall|i: int| 0 <= i < self.spec_nodes().len() ==> (#[trigger] self.spec_nodes()[i]).id < n
        &&& forall|j: int|
            0 <= j < self.spec_muscles().len() ==> (#[trigger] self.spec_muscles()[j]).id < n
    }

    /// True when the creature id and every node and muscle id is at least `n`.
    pub open spec fn ids_at_least(self, n: u64) -> bool {
        &&& self.spec_id() >= n
        &&& forall|i: int|
            0 <= i < self.spec_nodes().len() ==> (#[trigger] self.spec_nodes()[i]).id >= n
        &&& forall|j: int|
            0 <= j < self.spec_muscles().len() ==> (#[trigger] self.spec_muscles()[j]).id >= n
    }

    /// True when no identity of `self` — creature, node or muscle — equals
    /// any identity of `other`.
    pub open spec fn ids_disjoint_from(self, other: Creature) -> bool {
        &&& self.spec_id() != other.spec_id()
        &&& forall|i: int, k: int|
            0 <= i < self.spec_nodes().len() && 0 <= k < other.spec_nodes().len()
                ==> (#[trigger] self.spec_nodes()[i]).id != (#[trigger] other.spec_nodes()[k]).id
        &&& forall|i: int, k: int|
            0 <= i < self.spec_muscles().len() && 0 <= k < other.spec_muscles().len()
                ==> (#[trigger] self.spec_muscles()[i]).id != (#[trigger] other.spec_muscles()[k]).id
    }

    /// True when `self` has the parent's topology: as many nodes and
    /// muscles, and muscle for muscle endpoints that sit at the same node
    /// indices.
    pub open spec fn same_topology_as(self, parent: Creature) -> bool {
        &&& self.spec_nodes().len() == parent.spec_nodes().len()
        &&& self.spec_muscles().len() == parent.spec_muscles().len()
        &&& forall|j: int, i: int|
            #![trigger self.spec_muscles()[j], parent.spec_nodes()[i]]
            0 <= j < self.spec_muscles().len() && 0 <= i < parent.spec_nodes().len() ==> {
                &&& (parent.spec_nodes()[i].id == parent.spec_muscles()[j].from_id
                    ==> self.spec_muscles()[j].from_id == self.spec_nodes()[i].id)
                &&& (parent.spec_nodes()[i].id == parent.spec_muscles()[j].to_id
                    ==> self.spec_muscles()[j].to_id == self.spec_nodes()[i].id)
            }
    }

    /// Returns the unique id of the [Creature].
    pub fn id(&self) -> (id: u64)
        ensures
            id == self.spec_id(),
    {
        self.id
    }

    /// Returns the nodes of the [Creature].
    pub fn nodes(&self) -> (nodes: &Vec<Node>)
        ensures
            nodes@ == self.spec_nodes(),
    {
        &self.nodes
    }

    /// Returns the muscles of the [Creature].
    pub fn muscles(&self) -> (muscles: &Vec<Muscle>)
        ensures
            muscles@ == self.spec_muscles(),
    {
        &self.muscles
    }

    /// Returns the movement parameters of the [Creature]'s [Muscle]s, one
    /// per muscle in muscle order.
    pub fn movement_parameters(&self) -> (mps: &Vec<MovementParameters>)
        ensures
            mps@ == self.spec_movement_parameters(),
    {
        &self.movement_parameters
    }

    /// Returns the colors of the [Creature].
    pub fn colors(&self) -> (colors: &CreatureColors)
        ensures
            *colors == self.spec_colors(),
    {
        &self.colors
    }
}

/// Once a child's identities all sit at or above a bound that all of the
/// parent's identities sit below, the two creatures share no identity.
pub proof fn lemma_fresh_ids_are_disjoint(parent: Creature, child: Creature, n: u64)
    requires
        parent.ids_below(n),
        child.ids_at_least(n),
    ensures
        child.ids_disjoint_from(parent),
{
}

/// Builds a [Creature].
pub struct CreatureBuilder {
    id: u64,
    nodes: Vec<Node>,
    muscles: Vec<Muscle>,
    movement_parameters: Option<Vec<MovementParameters>>,
    colors: Option<CreatureColors>,
}

impl CreatureBuilder {
    /// The id the built creature will carry.
    pub closed spec fn spec_id(self) -> u64 {
        self.id
    }

    /// The nodes accumulated so far.
    pub closed spec fn spec_nodes(self) -> Seq<Node> {
        self.nodes@
    }

    /// The muscles accumulated so far.
    pub closed spec fn spec_muscles(self) -> Seq<Muscle> {
        self.muscles@
    }

    /// The movement schedules, if they have been set.
    pub closed spec fn spec_movement_parameters(self) -> Option<Seq<MovementParameters>> {
        match self.movement_parameters {
            Option::Some(mps) => Option::Some(mps@),
            Option::None => Option::None,
        }
    }

    /// The colors, if they have been set.
    pub closed spec fn spec_colors(self) -> Option<CreatureColors> {
        self.colors
    }

    /// What `build` needs: unique identities, well connected muscles, and
    /// schedules and colors — where already set — consistent.
    pub open spec fn wf(self) -> bool {
        &&& node_ids_unique(self.spec_nodes())
        &&& muscle_ids_unique(self.spec_muscles())
        &&& muscles_well_connected(self.spec_muscles(), self.spec_nodes())
        &&& match self.spec_movement_parameters() {
            Option::Some(mps) => mps.len() == self.spec_muscles().len() && forall|j: int|
                0 <= j < mps.len() ==> (#[trigger] mps[j]).valid(),
            Option::None => true,
        }
        &&& match self.spec_colors() {
            Option::Some(c) => c.wf(),
            Option::None => true,
        }
    }

    /// True when every node position and size is at most `b` in magnitude.
    pub open spec fn bounded(self, b: int) -> bool {
        forall|i: int|
            0 <= i < self.spec_nodes().len() ==> ((#[trigger] self.spec_nodes()[i]).position.bounded(
                b,
            ) && 0 <= self.spec_nodes()[i].size <= b)
    }

    /// The x coordinates of the nodes.
    pub open spec fn spec_xs(self) -> Seq<int> {
        self.spec_nodes().map(|i: int, n: Node| n.position.x as int)
    }

    /// The y coordinates of the nodes.
    pub open spec fn spec_ys(self) -> Seq<int> {
        self.spec_nodes().map(|i: int, n: Node| n.position.y as int)
    }

    /// The lowest extent of each node: its y plus half its size (y grows
    /// downward).
    pub open spec fn spec_bottoms(self) -> Seq<int> {
        self.spec_nodes().map(|i: int, n: Node| n.position.y + spec_half(n.size as int))
    }

    /// The horizontal shift `translate_bottom_center_to` applies: it moves
    /// the creature's horizontal center onto the target.
    pub open spec fn spec_anchor_dx(self, target: Position) -> int {
        target.x - spec_half(seq_min(self.spec_xs()) + seq_max(self.spec_xs()))
    }

    /// The vertical shift `translate_bottom_center_to` applies: it moves
    /// the creature's lowest extent, node size included, onto the target.
    pub open spec fn spec_anchor_dy(self, target: Position) -> int {
        target.y - seq_max(self.spec_bottoms())
    }

    /// True when the builder id and every node and muscle id is below `n`.
    pub open spec fn ids_below(self, n: u64) -> bool {
        &&& self.spec_id() < n
        &&& forall|i: int| 0 <= i < self.spec_nodes().len() ==> (#[trigger] self.spec_nodes()[i]).id < n
        &&& forall|j: int|
            0 <= j < self.spec_muscles().len() ==> (#[trigger] self.spec_muscles()[j]).id < n
    }

    /// True when the builder id and every node and muscle id is at least `n`.
    pub open spec fn ids_at_least(self, n: u64) -> bool {
        &&& self.spec_id() >= n
        &&& forall|i: int|
            0 <= i < self.spec_nodes().len() ==> (#[trigger] self.spec_nodes()[i]).id >= n
        &&& forall|j: int|
            0 <= j < self.spec_muscles().len() ==> (#[trigger] self.spec_muscles()[j]).id >= n
    }

    /// Creates a [CreatureBuilder].
    pub fn new(ids: &mut IdSource) -> (b: CreatureBuilder)
        requires
            old(ids).spec_next() < u64::MAX,
        ensures
            b.spec_id() == old(ids).spec_next(),
            final(ids).spec_next() == old(ids).spec_next() + 1,
            b.spec_nodes().len() == 0,
            b.spec_muscles().len() == 0,
            b.spec_movement_parameters() is None,
            b.spec_colors() is None,
            b.wf(),
    {
        CreatureBuilder {
            id: ids.fresh(),
            nodes: Vec::new(),
            muscles: Vec::new(),
            movement_parameters: Option::None,
            colors: Option::None,
        }
    }

    /// Creates a [CreatureBuilder], and adds random nodes and muscles: the
    /// base node count grows by one per successful coin flip; every node
    /// gets a uniform position and size; every unordered pair of distinct
    /// nodes is visited exactly once and connected with a fixed chance.
    pub fn random(ids: &mut IdSource) -> (b: CreatureBuilder)
        requires
            u64::MAX - old(ids).spec_next() >= RANDOM_CREATURE_ID_BUDGET,
        ensures
            b.wf(),
            BASE_RANDOM_NODES <= b.spec_nodes().len() <= BASE_RANDOM_NODES
                + MAX_RANDOM_EXTRA_NODES,
            b.spec_muscles().len() <= 4032,
            forall|i: int|
                0 <= i < b.spec_nodes().len() ==> ((#[trigger] b.spec_nodes()[i]).position.bounded(
                    RANDOM_NODE_POSITION_LIMIT as int,
                ) && RANDOM_NODE_SIZE_MIN <= b.spec_nodes()[i].size <= RANDOM_NODE_SIZE_MAX),
            b.spec_movement_parameters() is None,
            b.spec_colors() is None,
            b.spec_id() == old(ids).spec_next(),
            b.ids_at_least(old(ids).spec_next()),
            b.ids_below(final(ids).spec_next()),
            final(ids).spec_next() <= old(ids).spec_next() + RANDOM_CREATURE_ID_BUDGET,
    {
        let ghost start = old(ids).spec_next();
        let mut builder = Self::new(ids);

        let mut number_of_nodes: usize = BASE_RANDOM_NODES;
        while number_of_nodes < BASE_RANDOM_NODES + MAX_RANDOM_EXTRA_NODES
            invariant
                BASE_RANDOM_NODES <= number_of_nodes <= BASE_RANDOM_NODES
                    + MAX_RANDOM_EXTRA_NODES,
            decreases BASE_RANDOM_NODES + MAX_RANDOM_EXTRA_NODES - number_of_nodes,
        {
            if random_in_range(0, 999) >= RANDOM_CHANCE_TO_ADD_NODE {
                break ;
            }
            number_of_nodes = number_of_nodes + 1;
        }

        let mut k: usize = 0;
        while k < number_of_nodes
            invariant
                k <= number_of_nodes <= BASE_RANDOM_NODES + MAX_RANDOM_EXTRA_NODES,
                u64::MAX - start >= RANDOM_CREATURE_ID_BUDGET,
                builder.spec_id() == start,
                builder.spec_nodes().len() == k,
                builder.spec_muscles().len() == 0,
                builder.spec_movement_parameters() is None,
                builder.spec_colors() is None,
                ids.spec_next() == start + 1 + k,
                forall|i: int|
                    0 <= i < k ==> (#[trigger] builder.spec_nodes()[i]).id == start + 1 + i,
                forall|i: int|
                    0 <= i < k ==> ((#[trigger] builder.spec_nodes()[i]).position.bounded(
                        RANDOM_NODE_POSITION_LIMIT as int,
                    ) && RANDOM_NODE_SIZE_MIN <= builder.spec_nodes()[i].size
                        <= RANDOM_NODE_SIZE_MAX),
            decreases number_of_nodes - k,
        {
            let x = random_in_range(-RANDOM_NODE_POSITION_LIMIT, RANDOM_NODE_POSITION_LIMIT);
            let y = random_in_range(-RANDOM_NODE_POSITION_LIMIT, RANDOM_NODE_POSITION_LIMIT);
            let size = random_in_range(RANDOM_NODE_SIZE_MIN, RANDOM_NODE_SIZE_MAX);
            let id = ids.fresh();
            proof {
                assert(!has_node_id(builder.spec_nodes(), id));
            }
            builder = builder.add_node(Node::new(id, Position::new(x, y), size));
            k = k + 1;
        }

        let n = builder.nodes.len();
        let mut i: usize = 0;
        while i < n
            invariant
                i <= n,
                n == builder.spec_nodes().len(),
                n <= BASE_RANDOM_NODES + MAX_RANDOM_EXTRA_NODES,
                u64::MAX - start >= RANDOM_CREATURE_ID_BUDGET,
                builder.spec_id() == start,
                builder.spec_movement_parameters() is None,
                builder.spec_colors() is None,
                forall|q: int|
                    0 <= q < n ==> (#[trigger] builder.spec_nodes()[q]).id == start + 1 + q,
                forall|q: int|
                    0 <= q < n ==> ((#[trigger] builder.spec_nodes()[q]).position.bounded(
                        RANDOM_NODE_POSITION_LIMIT as int,
                    ) && RANDOM_NODE_SIZE_MIN <= builder.spec_nodes()[q].size
                        <= RANDOM_NODE_SIZE_MAX),
                builder.spec_muscles().len() <= i * 63,
                ids.spec_next() == start + 1 + n + builder.spec_muscles().len(),
                forall|q: int|
                    0 <= q < builder.spec_muscles().len() ==> start
                        < (#[trigger] builder.spec_muscles()[q]).id < ids.spec_next(),
                muscle_ids_unique(builder.spec_muscles()),
                muscles_well_connected(builder.spec_muscles(), builder.spec_nodes()),
            decreases n - i,
        {
            let mut j: usize = i + 1;
            while j < n
                invariant
                    i < n,
                    i + 1 <= j <= n,
                    n == builder.spec_nodes().len(),
                    n <= BASE_RANDOM_NODES + MAX_RANDOM_EXTRA_NODES,
                    u64::MAX - start >= RANDOM_CREATURE_ID_BUDGET,
                    builder.spec_id() == start,
                    builder.spec_movement_parameters() is None,
                    builder.spec_colors() is None,
                    forall|q: int|
                        0 <= q < n ==> (#[trigger] builder.spec_nodes()[q]).id == start + 1 + q,
                    forall|q: int|
                        0 <= q < n ==> ((#[trigger] builder.spec_nodes()[q]).position.bounded(
                            RANDOM_NODE_POSITION_LIMIT as int,
                        ) && RANDOM_NODE_SIZE_MIN <= builder.spec_nodes()[q].size
                            <= RANDOM_NODE_SIZE_MAX),
                    builder.spec_muscles().len() <= i * 63 + j,
                    ids.spec_next() == start + 1 + n + builder.spec_muscles().len(),
                    forall|q: int|
                        0 <= q < builder.spec_muscles().len() ==> start
                            < (#[trigger] builder.spec_muscles()[q]).id < ids.spec_next(),
                    muscle_ids_unique(builder.spec_muscles()),
                    muscles_well_connected(builder.spec_muscles(), builder.spec_nodes()),
                decreases n - j,
            {
                if random_in_range(0, 999) < RANDOM_CHANCE_TO_CONNECT_NODES {
                    let from_id = builder.nodes[i].id;
                    let to_id = builder.nodes[j].id;
                    let id = ids.fresh();
                    let muscle = Muscle::new(id, from_id, to_id);
                    proof {
                        assert(has_node_id(builder.spec_nodes(), from_id));
                        assert(has_node_id(builder.spec_nodes(), to_id));
                    }
                    builder = builder.add_muscle(muscle);
                }
                j = j + 1;
            }
            proof {
                assert(builder.spec_muscles().len() <= i * 63 + 63);
                assert(i * 63 + 63 == (i + 1) * 63) by (nonlinear_arith);
            }
            i = i + 1;
        }

        builder
    }

    /// Creates a [CreatureBuilder] by building off a previous [Creature]
    /// and mutating it: every node and muscle receives a fresh identity,
    /// topology and node geometry carry over exactly, every schedule's
    /// periods and the palette hue move by small bounded deltas.
    pub fn mutate(creature: &Creature, ids: &mut IdSource) -> (b: CreatureBuilder)
        requires
            creature.wf(),
            u64::MAX - old(ids).spec_next() >= 1 + creature.spec_nodes().len()
                + creature.spec_muscles().len(),
        ensures
            b.wf(),
            b.spec_id() == old(ids).spec_next(),
            b.spec_nodes().len() == creature.spec_nodes().len(),
            b.spec_muscles().len() == creature.spec_muscles().len(),
            forall|i: int|
                0 <= i < b.spec_nodes().len() ==> ((#[trigger] b.spec_nodes()[i]).position
                    == creature.spec_nodes()[i].position && b.spec_nodes()[i].size
                    == creature.spec_nodes()[i].size),
            forall|j: int, i: int|
                #![trigger b.spec_muscles()[j], creature.spec_nodes()[i]]
                0 <= j < b.spec_muscles().len() && 0 <= i < creature.spec_nodes().len() ==> {
                    &&& (creature.spec_nodes()[i].id == creature.spec_muscles()[j].from_id
                        ==> b.spec_muscles()[j].from_id == b.spec_nodes()[i].id)
                    &&& (creature.spec_nodes()[i].id == creature.spec_muscles()[j].to_id
                        ==> b.spec_muscles()[j].to_id == b.spec_nodes()[i].id)
                },
            match b.spec_movement_parameters() {
                Option::Some(mps) => {
                    &&& mps.len() == creature.spec_muscles().len()
                    &&& forall|j: int|
                        0 <= j < mps.len() ==> ((#[trigger] mps[j]).in_legal_range()
                            && mps[j].spec_muscle_length()
                            == creature.spec_movement_parameters()[j].spec_muscle_length())
                },
                Option::None => false,
            },
            match b.spec_colors() {
                Option::Some(c) => c.wf() && exists|d: int|
                    -MUTATE_COLOR_HUE_DELTA <= d <= MUTATE_COLOR_HUE_DELTA && c.spec_hue() as int
                        == #[trigger] spec_wrap_hue(creature.spec_colors().spec_hue() as int, d),
                Option::None => false,
            },
            b.ids_at_least(old(ids).spec_next()),
            b.ids_below(final(ids).spec_next()),
            final(ids).spec_next() == old(ids).spec_next() + 1 + creature.spec_nodes().len()
                + creature.spec_muscles().len(),
    {
        let ghost start = old(ids).spec_next();
        let mut builder = Self::new(ids);

        let node_count = creature.nodes().len();
        let muscle_count = creature.muscles().len();

        // Duplicate nodes under fresh identities, keeping order, position
        // and size.
        let mut i: usize = 0;
        while i < node_count
            invariant
                i <= node_count,
                node_count == creature.spec_nodes().len(),
                muscle_count == creature.spec_muscles().len(),
                u64::MAX - start >= 1 + node_count + muscle_count,
                builder.spec_id() == start,
                builder.spec_nodes().len() == i,
                builder.spec_muscles().len() == 0,
                builder.spec_movement_parameters() is None,
                builder.spec_colors() is None,
                ids.spec_next() == start + 1 + i,
                forall|q: int|
                    0 <= q < i ==> (#[trigger] builder.spec_nodes()[q]).id == start + 1 + q,
                forall|q: int|
                    0 <= q < i ==> ((#[trigger] builder.spec_nodes()[q]).position
                        == creature.spec_nodes()[q].position && builder.spec_nodes()[q].size
                        == creature.spec_nodes()[q].size),
            decreases node_count - i,
        {
            let node = creature.nodes()[i];
            let id = ids.fresh();
            proof {
                assert(!has_node_id(builder.spec_nodes(), id));
            }
            builder = builder.add_node(Node::new(id, node.position, node.size));
            i = i + 1;
        }

        // Duplicate muscles under fresh identities, mapping each endpoint
        // to the new node at the same index.
        let mut j: usize = 0;
        while j < muscle_count
            invariant
                j <= muscle_count,
                node_count == creature.spec_nodes().len(),
                muscle_count == creature.spec_muscles().len(),
                creature.wf(),
                u64::MAX - start >= 1 + node_count + muscle_count,
                builder.spec_id() == start,
                builder.spec_nodes().len() == node_count,
                builder.spec_muscles().len() == j,
                builder.spec_movement_parameters() is None,
                builder.spec_colors() is None,
                ids.spec_next() == start + 1 + node_count + j,
                forall|q: int|
                    0 <= q < node_count ==> (#[trigger] builder.spec_nodes()[q]).id == start + 1
                        + q,
                forall|q: int|
                    0 <= q < node_count ==> ((#[trigger] builder.spec_nodes()[q]).position
                        == creature.spec_nodes()[q].position && builder.spec_nodes()[q].size
                        == creature.spec_nodes()[q].size),
                forall|q: int|
                    0 <= q < j ==> (#[trigger] builder.spec_muscles()[q]).id == start + 1
                        + node_count + q,
                muscles_well_connected(builder.spec_muscles(), builder.spec_nodes()),
                forall|q: int, w: int|
                    #![trigger builder.spec_muscles()[q], creature.spec_nodes()[w]]
                    0 <= q < j && 0 <= w < node_count ==> {
                        &&& (creature.spec_nodes()[w].id == creature.spec_muscles()[q].from_id
                            ==> builder.spec_muscles()[q].from_id == builder.spec_nodes()[w].id)
                        &&& (creature.spec_nodes()[w].id == creature.spec_muscles()[q].to_id
                            ==> builder.spec_muscles()[q].to_id == builder.spec_nodes()[w].id)
                    },
            decreases muscle_count - j,
        {
            let muscle = creature.muscles()[j];
            proof {
                assert(has_node_id(creature.spec_nodes(), creature.spec_muscles()[j as int].from_id)
                    && has_node_id(creature.spec_nodes(), creature.spec_muscles()[j as int].to_id)
                    && creature.spec_muscles()[j as int].from_id
                    != creature.spec_muscles()[j as int].to_id);
            }
            let fi = find_node_index(creature.nodes(), muscle.from_id);
            let ti = find_node_index(creature.nodes(), muscle.to_id);
            let new_from = builder.nodes[fi].id;
            let new_to = builder.nodes[ti].id;
            let id = ids.fresh();
            proof {
                assert(fi != ti);
                assert(has_node_id(builder.spec_nodes(), new_from));
                assert(has_node_id(builder.spec_nodes(), new_to));
            }
            let new_muscle = Muscle::new(id, new_from, new_to);
            builder = builder.add_muscle(new_muscle);
            proof {
                assert forall|w: int|
                    0 <= w < node_count && creature.spec_nodes()[w].id
                        == creature.spec_muscles()[j as int].from_id implies builder.spec_muscles()[j as int].from_id
                    == builder.spec_nodes()[w].id by {
                    assert(w == fi as int);
                }
                assert forall|w: int|
                    0 <= w < node_count && creature.spec_nodes()[w].id
                        == creature.spec_muscles()[j as int].to_id implies builder.spec_muscles()[j as int].to_id
                    == builder.spec_nodes()[w].id by {
                    assert(w == ti as int);
                }
            }
            j = j + 1;
        }

        // Mutate every schedule, keeping its natural length.
        let mut mps: Vec<MovementParameters> = Vec::new();
        let mut q: usize = 0;
        while q < muscle_count
            invariant
                q <= muscle_count,
                muscle_count == creature.spec_muscles().len(),
                creature.wf(),
                mps@.len() == q,
                forall|w: int|
                    0 <= w < q ==> ((#[trigger] mps@[w]).in_legal_range()
                        && mps@[w].spec_muscle_length()
                        == creature.spec_movement_parameters()[w].spec_muscle_length()),
            decreases muscle_count - q,
        {
            mps.push(MovementParameters::mutate(&creature.movement_parameters()[q]));
            q = q + 1;
        }

        builder.add_movement_parameters(mps).add_colors(CreatureColors::mutate(creature.colors()))
    }

    /// Adds a [Node] to the [Creature].
    pub fn add_node(self, node: Node) -> (b: CreatureBuilder)
        requires
            !has_node_id(self.spec_nodes(), node.id),
        ensures
            b.spec_id() == self.spec_id(),
            b.spec_nodes() == self.spec_nodes().push(node),
            b.spec_muscles() == self.spec_muscles(),
            b.spec_movement_parameters() == self.spec_movement_parameters(),
            b.spec_colors() == self.spec_colors(),
    {
        let mut b = self;
        b.nodes.push(node);
        b
    }

    /// Adds a [Muscle] to the [Creature].
    pub fn add_muscle(self, muscle: Muscle) -> (b: CreatureBuilder)
        requires
            forall|j: int|
                0 <= j < self.spec_muscles().len() ==> (#[trigger] self.spec_muscles()[j]).id
                    != muscle.id,
        ensures
            b.spec_id() == self.spec_id(),
            b.spec_nodes() == self.spec_nodes(),
            b.spec_muscles() == self.spec_muscles().push(muscle),
            b.spec_movement_parameters() == self.spec_movement_parameters(),
            b.spec_colors() == self.spec_colors(),
    {
        let mut b = self;
        b.muscles.push(muscle);
        b
    }

    /// Sets the movement parameters of the [Creature]'s [Muscle]s, one per
    /// muscle in muscle order.
    pub fn add_movement_parameters(self, movement_parameters: Vec<MovementParameters>) -> (b:
        CreatureBuilder)
        ensures
            b.spec_id() == self.spec_id(),
            b.spec_nodes() == self.spec_nodes(),
            b.spec_muscles() == self.spec_muscles(),
            b.spec_movement_parameters() == Option::Some(movement_parameters@),
            b.spec_colors() == self.spec_colors(),
    {
        let mut b = self;
        b.movement_parameters = Option::Some(movement_parameters);
        b
    }

    /// Sets the [colors](CreatureColors) of the [Creature].
    pub fn add_colors(self, colors: CreatureColors) -> (b: CreatureBuilder)
        ensures
            b.spec_id() == self.spec_id(),
            b.spec_nodes() == self.spec_nodes(),
            b.spec_muscles() == self.spec_muscles(),
            b.spec_movement_parameters() == self.spec_movement_parameters(),
            b.spec_colors() == Option::Some(colors),
    {
        let mut b = self;
        b.colors = Option::Some(colors);
        b
    }

    /// Gets the bounds of the creature's node positions, as the top left
    /// and bottom right corner.
    fn get_bounds(&self) -> (bounds: (Position, Position))
        requires
            self.spec_nodes().len() >= 1,
            self.bounded(COORD_LIMIT as int),
        ensures
            bounds.0.x == seq_min(self.spec_xs()),
            bounds.0.y == seq_min(self.spec_ys()),
            bounds.1.x == seq_max(self.spec_xs()),
            bounds.1.y == seq_max(self.spec_ys()),
    {
        let ghost xs = self.spec_xs();
        let ghost ys = self.spec_ys();
        let mut min_x = self.nodes[0].position.x;
        let mut min_y = self.nodes[0].position.y;
        let mut max_x = self.nodes[0].position.x;
        let mut max_y = self.nodes[0].position.y;
        let mut i: usize = 1;
        while i < self.nodes.len()
            invariant
                1 <= i <= self.spec_nodes().len(),
                xs == self.spec_xs(),
                ys == self.spec_ys(),
                xs.len() == self.spec_nodes().len(),
                ys.len() == self.spec_nodes().len(),
                min_x == seq_min(xs.take(i as int)),
                min_y == seq_min(ys.take(i as int)),
                max_x == seq_max(xs.take(i as int)),
                max_y == seq_max(ys.take(i as int)),
            decreases self.spec_nodes().len() - i,
        {
            proof {
                assert(xs.take(i + 1).drop_last() =~= xs.take(i as int));
                assert(ys.take(i + 1).drop_last() =~= ys.take(i as int));
                assert(xs.take(i + 1).last() == self.spec_nodes()[i as int].position.x);
                assert(ys.take(i + 1).last() == self.spec_nodes()[i as int].position.y);
            }
            let p = self.nodes[i].position;
            if p.x < min_x {
                min_x = p.x;
            }
            if p.y < min_y {
                min_y = p.y;
            }
            if p.x > max_x {
                max_x = p.x;
            }
            if p.y > max_y {
                max_y = p.y;
            }
            i = i + 1;
        }
        proof {
            assert(xs.take(xs.len() as int) =~= xs);
            assert(ys.take(ys.len() as int) =~= ys);
        }
        (Position::new(min_x, min_y), Position::new(max_x, max_y))
    }

    /// Translates a creature x to the right and y down.
    pub fn translate(self, x: i64, y: i64) -> (b: CreatureBuilder)
        requires
            self.bounded(500_000_000),
            -500_000_000 <= x <= 500_000_000,
            -500_000_000 <= y <= 500_000_000,
        ensures
            b.spec_id() == self.spec_id(),
            b.spec_nodes().len() == self.spec_nodes().len(),
            forall|i: int|
                0 <= i < b.spec_nodes().len() ==> {
                    &&& (#[trigger] b.spec_nodes()[i]).id == self.spec_nodes()[i].id
                    &&& b.spec_nodes()[i].size == self.spec_nodes()[i].size
                    &&& b.spec_nodes()[i].position.x == self.spec_nodes()[i].position.x + x
                    &&& b.spec_nodes()[i].position.y == self.spec_nodes()[i].position.y + y
                },
            b.spec_muscles() == self.spec_muscles(),
            b.spec_movement_parameters() == self.spec_movement_parameters(),
            b.spec_colors() == self.spec_colors(),
            self.wf() ==> b.wf(),
    {
        let mut b = self;
        let ghost orig = self.spec_nodes();
        let mut i: usize = 0;
        while i < b.nodes.len()
            invariant
                i <= b.nodes@.len(),
                b.nodes@.len() == orig.len(),
                -500_000_000 <= x <= 500_000_000,
                -500_000_000 <= y <= 500_000_000,
                orig == self.spec_nodes(),
                self.bounded(500_000_000),
                b.spec_id() == self.spec_id(),
                b.spec_muscles() == self.spec_muscles(),
                b.spec_movement_parameters() == self.spec_movement_parameters(),
                b.spec_colors() == self.spec_colors(),
                forall|k: int| i <= k < orig.len() ==> #[trigger] b.nodes@[k] == orig[k],
                forall|k: int|
                    0 <= k < i ==> {
                        &&& (#[trigger] b.nodes@[k]).id == orig[k].id
                        &&& b.nodes@[k].size == orig[k].size
                        &&& b.nodes@[k].position.x == orig[k].position.x + x
                        &&& b.nodes@[k].position.y == orig[k].position.y + y
                    },
            decreases b.nodes@.len() - i,
        {
            proof {
                assert(b.nodes@[i as int] == self.spec_nodes()[i as int]);
                assert(self.spec_nodes()[i as int].position.bounded(500_000_000));
            }
            let node = b.nodes[i];
            let moved = Node::new(
                node.id,
                Position::new(node.position.x + x, node.position.y + y),
                node.size,
            );
            b.nodes.set(i, moved);
            i = i + 1;
        }
        proof {
            if self.wf() {
                assert(b.spec_muscles() == self.spec_muscles());
                assert forall|j: int|
                    0 <= j < b.spec_muscles().len() implies #[trigger] has_node_id(
                    b.spec_nodes(),
                    b.spec_muscles()[j].from_id,
                ) && has_node_id(b.spec_nodes(), b.spec_muscles()[j].to_id)
                    && b.spec_muscles()[j].from_id != b.spec_muscles()[j].to_id by {
                    assert(has_node_id(self.spec_nodes(), self.spec_muscles()[j].from_id));
                    assert(has_node_id(self.spec_nodes(), self.spec_muscles()[j].to_id));
                    let fi = choose|fi: int|
                        0 <= fi < self.spec_nodes().len() && self.spec_nodes()[fi].id
                            == self.spec_muscles()[j].from_id;
                    let ti = choose|ti: int|
                        0 <= ti < self.spec_nodes().len() && self.spec_nodes()[ti].id
                            == self.spec_muscles()[j].to_id;
                    assert(b.spec_nodes()[fi].id == b.spec_muscles()[j].from_id);
                    assert(b.spec_nodes()[ti].id == b.spec_muscles()[j].to_id);
                }
            }
        }
        b
    }

    /// Computes the creature's bottom center — the horizontal middle of
    /// its bounds and its lowest extent, node sizes included — and
    /// translates the creature so that point lands on `position`.
    pub fn translate_bottom_center_to(self, position: &Position) -> (b: CreatureBuilder)
        requires
            self.spec_nodes().len() >= 1,
            self.bounded(200_000_000),
            position.bounded(200_000_000),
        ensures
            b.spec_id() == self.spec_id(),
            b.spec_nodes().len() == self.spec_nodes().len(),
            forall|i: int|
                0 <= i < b.spec_nodes().len() ==> {
                    &&& (#[trigger] b.spec_nodes()[i]).id == self.spec_nodes()[i].id
                    &&& b.spec_nodes()[i].size == self.spec_nodes()[i].size
                    &&& b.spec_nodes()[i].position.x == self.spec_nodes()[i].position.x
                        + self.spec_anchor_dx(*position)
                    &&& b.spec_nodes()[i].position.y == self.spec_nodes()[i].position.y
                        + self.spec_anchor_dy(*position)
                },
            b.spec_muscles() == self.spec_muscles(),
            b.spec_movement_parameters() == self.spec_movement_parameters(),
            b.spec_colors() == self.spec_colors(),
            self.wf() ==> b.wf(),
    {
        let (top_left, bottom_right) = self.get_bounds();

        proof {
            lemma_seq_min_props(self.spec_xs());
            lemma_seq_max_props(self.spec_xs());
            lemma_seq_max_props(self.spec_bottoms());
        }

        // The lowest extent: the largest y plus half size over all nodes.
        let mut lowest: i64 = self.nodes[0].position.y + half_i64(self.nodes[0].size);
        let ghost bottoms = self.spec_bottoms();
        let mut i: usize = 1;
        while i < self.nodes.len()
            invariant
                1 <= i <= self.spec_nodes().len(),
                bottoms == self.spec_bottoms(),
                bottoms.len() == self.spec_nodes().len(),
                self.bounded(200_000_000),
                lowest == seq_max(bottoms.take(i as int)),
            decreases self.spec_nodes().len() - i,
        {
            proof {
                assert(bottoms.take(i + 1).drop_last() =~= bottoms.take(i as int));
                assert(bottoms.take(i + 1).last() == self.spec_nodes()[i as int].position.y
                    + spec_half(self.spec_nodes()[i as int].size as int));
            }
            let b = self.nodes[i].position.y + half_i64(self.nodes[i].size);
            if b > lowest {
                lowest = b;
            }
            i = i + 1;
        }
        proof {
            assert(bottoms.take(bottoms.len() as int) =~= bottoms);
        }

        let translate_x = position.x - half_i64(top_left.x + bottom_right.x);
        let translate_y = position.y - lowest;

        self.translate(translate_x, translate_y)
    }

    /// Builds the [CreatureBuilder] into a [Creature]. Movement schedules
    /// and colors that were not set explicitly are generated: schedules
    /// from the muscle endpoint distances and random legal periods, colors
    /// from a random hue.
    pub fn build(self) -> (c: Creature)
        requires
            self.wf(),
            self.bounded(COORD_LIMIT as int),
        ensures
            c.spec_id() == self.spec_id(),
            c.spec_nodes() == self.spec_nodes(),
            c.spec_muscles() == self.spec_muscles(),
            c.wf(),
            match self.spec_movement_parameters() {
                Option::Some(mps) => c.spec_movement_parameters() == mps,
                Option::None => {
                    &&& c.spec_movement_parameters().len() == self.spec_muscles().len()
                    &&& forall|j: int|
                        0 <= j < c.spec_movement_parameters().len() ==> (
                        #[trigger] c.spec_movement_parameters()[j]).in_legal_range()
                    &&& forall|j: int, fi: int, ti: int|
                        #![trigger c.spec_movement_parameters()[j], self.spec_nodes()[fi], self.spec_nodes()[ti]]
                        0 <= j < c.spec_muscles().len() && 0 <= fi < self.spec_nodes().len() && 0
                            <= ti < self.spec_nodes().len() && self.spec_nodes()[fi].id
                            == c.spec_muscles()[j].from_id && self.spec_nodes()[ti].id
                            == c.spec_muscles()[j].to_id
                            ==> c.spec_movement_parameters()[j].natural_length_matches(
                            self.spec_nodes()[fi].position,
                            self.spec_nodes()[ti].position,
                        )
                },
            },
            match self.spec_colors() {
                Option::Some(colors) => c.spec_colors() == colors,
                Option::None => c.spec_colors().wf(),
            },
    {
        proof {
            assert(self.muscles@ == self.spec_muscles());
            assert(self.nodes@ == self.spec_nodes());
            assert forall|j: int|
                0 <= j < self.muscles@.len() implies has_node_id(
                self.nodes@,
                self.muscles@[j].from_id,
            ) && has_node_id(self.nodes@, self.muscles@[j].to_id) by {
                assert(has_node_id(self.spec_nodes(), self.spec_muscles()[j].from_id));
                assert(has_node_id(self.spec_nodes(), self.spec_muscles()[j].to_id));
            }
        }
        let movement_parameters = match self.movement_parameters {
            Option::Some(mps) => mps,
            Option::None => MovementParameters::generate_for_muscles_and_nodes(
                &self.muscles,
                &self.nodes,
            ),
        };

        let colors = match self.colors {
            Option::Some(colors) => colors,
            Option::None => CreatureColors::new(),
        };

        Creature {
            id: self.id,
            nodes: self.nodes,
            muscles: self.muscles,
            movement_parameters,
            colors,
        }
    }
}

} // verus!
