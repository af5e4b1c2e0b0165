//! Index-level mesh utilities: triangles over vertex indices, directed
//! edges, and a vertex adjacency graph, as a tessellating mesh builder
//! uses them.

use vstd::prelude::*;

use std::collections::HashSet;

verus! {

broadcast use vstd::std_specs::hash::axiom_usize_obeys_hash_table_key_model, vstd::std_specs::hash::axiom_random_state_builds_valid_hashers;

/// A triangle of vertex indices.
#[derive(Clone, Copy, Debug, Default, PartialEq, Eq, Structural)]
pub struct Triangle(pub usize, pub usize, pub usize);

impl Triangle {
    /// The triangle's directed boundary edges, in winding order.
    pub fn edges(self) -> (r: [(usize, usize); 3])
        ensures
            r@ =~= seq![(self.0, self.1), (self.1, self.2), (self.2, self.0)],
    {
        [(self.0, self.1), (self.1, self.2), (self.2, self.0)]
    }
}

/// The same edge, directed the other way.
pub fn anti_edge(edge: (usize, usize)) -> (r: (usize, usize))
    ensures
        r == (edge.1, edge.0),
{
    (edge.1, edge.0)
}

/// An undirected vertex adjacency graph: one neighbour set per vertex.
#[derive(Debug, Default)]
pub struct AdjacencyGraph {
    pub vertices: Vec<HashSet<usize>>,
}

impl AdjacencyGraph {
    /// Records the undirected edge between vertices `i` and `j`: `j` joins
    /// `i`'s neighbour set and `i` joins `j`'s; every other set is
    /// untouched.
    pub fn connect(&mut self, i: usize, j: usize)
        requires
            i < old(self).vertices@.len(),
            j < old(self).vertices@.len(),
        ensures
            final(self).vertices@.len() == old(self).vertices@.len(),
            forall|k: int|
                0 <= k < old(self).vertices@.len() && k != i && k != j
                    ==> (#[trigger] final(self).vertices@[k])@ == old(self).vertices@[k]@,
            i != j ==> final(self).vertices@[i as int]@ == old(self).vertices@[i as int]@.insert(
                j,
            ) && final(self).vertices@[j as int]@ == old(self).vertices@[j as int]@.insert(i),
            i == j ==> final(self).vertices@[i as int]@ == old(self).vertices@[i as int]@.insert(
                i,
            ),
    {
        let set_i = &mut self.vertices[i];
        set_i.insert(j);
        let set_j = &mut self.vertices[j];
        set_j.insert(i);
    }
}

} // verus!
