//! The run map: a layered graph of nodes. The combat core only needs the
//! chosen node's type and depth to decide what to spawn; traversal
//! validation lives here so a selection out of reach is rejected rather
//! than acted on.
use vstd::prelude::*;

verus! {

/// What a map node offers.
#[derive(Clone, Copy, Debug, PartialEq, Eq, Structural)]
pub enum NodeType {
    Battle,
    Shop,
    Rest,
    Boss,
    Elite,
    Event,
}

/// One node of the layered map.
#[derive(Clone, Debug)]
pub struct MapNodeData {
    pub node_type: NodeType,
    /// Indices into the next level that this node connects to.
    pub next_indices: Vec<usize>,
    pub visible: bool,
}

/// The layered map and the path walked so far.
#[derive(Clone, Debug)]
pub struct GameMap {
    pub levels: Vec<Vec<MapNodeData>>,
    /// The node the run currently stands on; `None` before the first pick.
    pub current_node: Option<(usize, usize)>,
    pub visited_path: Vec<(usize, usize)>,
}

impl GameMap {
    /// The map has at least one level, the current node (if any) exists,
    /// and every edge points at a node of the next level.
    /// The `k`-th edge of node `(l, i)` leads into the bounds of level
    /// `l + 1`.
    pub open spec fn edge_ok(self, l: int, i: int, k: int) -> bool {
        l + 1 < self.levels@.len() && self.levels@[l]@[i].next_indices@[k] < self.levels@[l
            + 1]@.len()
    }

    pub open spec fn wf(self) -> bool {
        &&& self.levels@.len() > 0
        &&& match self.current_node {
            Some((l, i)) => l < self.levels@.len() && i < self.levels@[l as int]@.len(),
            None => true,
        }
        &&& forall|l: int, i: int, k: int|
            0 <= l < self.levels@.len() && 0 <= i < self.levels@[l]@.len() && 0 <= k
                < self.levels@[l]@[i].next_indices@.len() ==> #[trigger] self.edge_ok(l, i, k)
    }

    /// Whether picking `index` is a legal move: a successor of the current
    /// node, or any first-level node before the first pick.
    pub open spec fn selectable(self, index: usize) -> bool {
        match self.current_node {
            Some((l, i)) => self.levels@[l as int]@[i as int].next_indices@.contains(index),
            None => index < self.levels@[0]@.len(),
        }
    }

    /// The level a legal pick lands on.
    pub open spec fn target_level(self) -> usize {
        match self.current_node {
            Some((l, _)) => (l + 1) as usize,
            None => 0usize,
        }
    }

    /// Handle a node-selection request. A legal pick becomes the current
    /// node, extends the visited path, and hands back the node's type so the
    /// caller can transition; an illegal pick changes nothing and returns
    /// `None`.
    pub fn select_node(&mut self, index: usize) -> (r: Option<NodeType>)
        requires
            old(self).wf(),
        ensures
            final(self).wf(),
            !old(self).selectable(index) ==> r is None && *final(self) == *old(self),
            old(self).selectable(index) ==> {
                let tl = old(self).target_level();
                &&& final(self).levels == old(self).levels
                &&& final(self).current_node == Some((tl, index))
                &&& final(self).visited_path@ == old(self).visited_path@.push((tl, index))
                &&& r == Some(old(self).levels@[tl as int]@[index as int].node_type)
            },
    {
        let available: bool = match self.current_node {
            Some((l, i)) => {
                let node = &self.levels[l][i];
                let mut found = false;
                let mut k: usize = 0;
                while k < node.next_indices.len()
                    invariant
                        k <= node.next_indices@.len(),
                        found == exists|j: int| 0 <= j < k && node.next_indices@[j] == index,
                    decreases node.next_indices@.len() - k,
                {
                    if node.next_indices[k] == index {
                        found = true;
                    }
                    k = k + 1;
                }
                found
            },
            None => index < self.levels[0].len(),
        };
        if available {
            proof {
                match self.current_node {
                    Some((l, i)) => {
                        let li = l as int;
                        let ii = i as int;
                        let edges = self.levels@[li]@[ii].next_indices@;
                        assert(edges.contains(index));
                        let k = choose|j: int| 0 <= j < edges.len() && edges[j] == index;
                        assert(0 <= k < edges.len());
                        assert(self.levels@[li]@[ii].next_indices@[k] == index);
                        assert(self.edge_ok(li, ii, k));
                    },
                    None => {},
                }
            }
            let num_levels = self.levels.len();
            let target_level: usize = match self.current_node {
                Some((l, _)) => l + 1,
                None => 0,
            };
            self.current_node = Some((target_level, index));
            self.visited_path.push((target_level, index));
            proof {
                assert forall|l: int, i: int, k: int|
                    0 <= l < self.levels@.len() && 0 <= i < self.levels@[l]@.len() && 0 <= k
                        < self.levels@[l]@[i].next_indices@.len() implies #[trigger] self.edge_ok(
                    l,
                    i,
                    k,
                ) by {
                    assert(old(self).edge_ok(l, i, k));
                }
            }
            Some(self.levels[target_level][index].node_type)
        } else {
            None
        }
    }
}

} // verus!
