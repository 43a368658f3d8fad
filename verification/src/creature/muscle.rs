//! Muscles: the actuated linkages of a creature.

use vstd::prelude::*;

verus! {

/// A muscle, defined by the ids of the two nodes it connects. Contains a
/// unique id for reference. Its natural length is not stored here; it is
/// derived at build time from the endpoint positions and cached in the
/// movement schedule.
#[derive(Debug, Clone, Copy, PartialEq, Eq, Structural)]
pub struct Muscle {
    pub id: u64,
    pub from_id: u64,
    pub to_id: u64,
}

impl Muscle {
    /// Creates a new muscle from one node to another using their ids.
    pub fn new(id: u64, from_id: u64, to_id: u64) -> (m: Muscle)
        ensures
            m.id == id,
            m.from_id == from_id,
            m.to_id == to_id,
    {
        Muscle { id, from_id, to_id }
    }
}

/// True when no two muscles of the sequence share an identity.
pub open spec fn muscle_ids_unique(muscles: Seq<Muscle>) -> bool {
    forall|i: int, j: int|
        0 <= i < j < muscles.len() ==> muscles[i].id != muscles[j].id
}

/// True when some muscle of the sequence carries the identity.
pub open spec fn has_muscle_id(muscles: Seq<Muscle>, id: u64) -> bool {
    exists|j: int| 0 <= j < muscles.len() && muscles[j].id == id
}

/// Finds the index of the muscle that carries the identity.
pub fn find_muscle_index(muscles: &Vec<Muscle>, id: u64) -> (j: usize)
    requires
        has_muscle_id(muscles@, id),
    ensures
        j < muscles@.len(),
        muscles@[j as int].id == id,
{
    let mut j: usize = 0;
    while j < muscles.len()
        invariant
            j <= muscles@.len(),
            has_muscle_id(muscles@, id),
            forall|k: int| 0 <= k < j ==> muscles@[k].id != id,
        decreases muscles@.len() - j,
    {
        if muscles[j].id == id {
            return j;
        }
        j = j + 1;
    }
    proof {
        assert(forall|k: int| 0 <= k < muscles@.len() ==> muscles@[k].id != id);
        assert(false);
    }
    0
}

} // verus!
