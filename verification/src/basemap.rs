//! The map abstraction the engines query. A caller owns the actual map
//! representation and implements these traits over it; the pathfinding and
//! visibility engines only ever read the map through them.
//!
//! Each executable query is pinned to a spec-level counterpart, so everything
//! the engines promise is stated in terms of the implementor's own
//! mathematical view of the map.

use crate::geometry::Point;
use vstd::prelude::*;

verus! {

/// Core map queries: opacity, adjacency with step costs, and a heuristic
/// distance for pathfinding.
pub trait BaseMap {
    /// Whether the cell at `idx` blocks sight.
    spec fn spec_opaque(&self, idx: usize) -> bool;

    /// The exits of the cell at `idx`: each entry is an adjacent cell index
    /// together with the cost of stepping into it.
    spec fn spec_exits(&self, idx: usize) -> Seq<(usize, u64)>;

    /// The heuristic distance estimate between two cell indices.
    spec fn spec_distance(&self, idx1: usize, idx2: usize) -> u64;

    /// Whether the cell at `idx` blocks sight.
    fn is_opaque(&self, idx: usize) -> (r: bool)
        ensures
            r == self.spec_opaque(idx),
    ;

    /// The valid exits from the cell at `idx`, each with its step cost.
    fn get_available_exits(&self, idx: usize) -> (r: Vec<(usize, u64)>)
        ensures
            r@ == self.spec_exits(idx),
    ;

    /// A heuristic estimate of the remaining cost from `idx1` to `idx2`.
    /// It must be admissible for A* to return lowest-cost routes; the engine
    /// does not check this, and a non-admissible heuristic merely degrades
    /// the search to fast-but-suboptimal.
    fn get_pathing_distance(&self, idx1: usize, idx2: usize) -> (r: u64)
        ensures
            r == self.spec_distance(idx1, idx2),
    ;
}

/// Maps that address their cells by 2D coordinate: the bijection between a
/// coordinate and the dense cell index that `BaseMap` queries take.
pub trait Algorithm2D: BaseMap {
    /// The cell index of the coordinate `(x, y)`.
    spec fn spec_index(&self, x: int, y: int) -> usize;

    /// Converts a coordinate to a cell index, using the caller's addressing
    /// scheme.
    fn point2d_to_index(&self, pt: Point) -> (r: usize)
        ensures
            r == self.spec_index(pt.x as int, pt.y as int),
    ;
}

} // verus!
