//! Nodes: the point masses of a creature.

use vstd::prelude::*;

use super::Position;

verus! {

/// A node, defined by its current position and size. Contains a unique id
/// for reference. The size is a diameter in fixed-point units; it serves
/// both as collision radius and for rest-length bookkeeping.
#[derive(Debug, Clone, Copy, PartialEq, Eq, Structural)]
pub struct Node {
    pub id: u64,
    pub position: Position,
    pub size: i64,
}

impl Node {
    /// Creates a new node at a [Position] with a certain size.
    pub fn new(id: u64, position: Position, size: i64) -> (n: Node)
        ensures
            n.id == id,
            n.position == position,
            n.size == size,
    {
        Node { id, position, size }
    }
}

/// True when some node of the sequence carries the identity.
pub open spec fn has_node_id(nodes: Seq<Node>, id: u64) -> bool {
    exists|i: int| 0 <= i < nodes.len() && nodes[i].id == id
}

/// True when no two nodes of the sequence share an identity.
pub open spec fn node_ids_unique(nodes: Seq<Node>) -> bool {
    forall|i: int, j: int|
        0 <= i < j < nodes.len() ==> nodes[i].id != nodes[j].id
}

/// Finds the index of the node that carries the identity.
pub fn find_node_index(nodes: &Vec<Node>, id: u64) -> (i: usize)
    requires
        has_node_id(nodes@, id),
    ensures
        i < nodes@.len(),
        nodes@[i as int].id == id,
{
    let mut i: usize = 0;
    while i < nodes.len()
        invariant
            i <= nodes@.len(),
            has_node_id(nodes@, id),
            forall|k: int| 0 <= k < i ==> nodes@[k].id != id,
        decreases nodes@.len() - i,
    {
        if nodes[i].id == id {
            return i;
        }
        i = i + 1;
    }
    proof {
        assert(forall|k: int| 0 <= k < nodes@.len() ==> nodes@[k].id != id);
        assert(false);
    }
    0
}

} // verus!
