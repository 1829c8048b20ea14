//! A ready-made map: a rectangular grid addressed row-major, walked
//! 4-connected at unit step cost, with per-cell opacity. Callers that do not
//! own a map representation of their own can use it directly; it also pins
//! down, in one place, a full implementation of the map abstraction.

use crate::basemap::{Algorithm2D, BaseMap};
use crate::geometry::Point;
use vstd::prelude::*;

verus! {

/// A rectangular grid map. Cells outside the grid are transparent and have
/// no exits.
pub struct SimpleMap {
    width: usize,
    height: usize,
    opaque: Vec<bool>,
}

impl SimpleMap {
    /// The grid shape is consistent: one opacity flag per cell.
    pub closed spec fn wf(self) -> bool {
        self.opaque@.len() == self.width * self.height && self.width * self.height <= usize::MAX
    }

    /// The grid's width.
    pub closed spec fn width_spec(self) -> usize {
        self.width
    }

    /// The grid's height.
    pub closed spec fn height_spec(self) -> usize {
        self.height
    }

    /// Makes a fully transparent grid of the given dimensions.
    pub fn new(width: usize, height: usize) -> (r: SimpleMap)
        requires
            width * height <= usize::MAX,
        ensures
            r.wf(),
            r.width_spec() == width,
            r.height_spec() == height,
            forall|idx: usize| !r.spec_opaque(idx),
    {
        let size = width * height;
        SimpleMap { width, height, opaque: vec![false; size] }
    }

    /// Sets whether the cell at `(x, y)` blocks sight and movement. A
    /// coordinate outside the grid changes nothing.
    pub fn set_opaque(&mut self, x: usize, y: usize, value: bool)
        requires
            old(self).wf(),
        ensures
            final(self).wf(),
            final(self).width_spec() == old(self).width_spec(),
            final(self).height_spec() == old(self).height_spec(),
            x < old(self).width_spec() && y < old(self).height_spec() ==> forall|idx: usize|
                final(self).spec_opaque(idx) == (if idx == old(self).spec_index(
                    x as int,
                    y as int,
                ) {
                    value
                } else {
                    old(self).spec_opaque(idx)
                }),
            !(x < old(self).width_spec() && y < old(self).height_spec()) ==> forall|idx: usize|
                final(self).spec_opaque(idx) == old(self).spec_opaque(idx),
            forall|a: int, b: int| final(self).spec_index(a, b) == old(self).spec_index(a, b),
    {
        if x < self.width && y < self.height {
            proof {
                assert(y * self.width + x < self.width * self.height) by (nonlinear_arith)
                    requires
                        x < self.width,
                        y < self.height,
                ;
            }
            let idx = y * self.width + x;
            self.opaque[idx] = value;
        }
    }
}

impl BaseMap for SimpleMap {
    /// Whether the cell at `idx` blocks sight; cells outside the grid do
    /// not.
    closed spec fn spec_opaque(&self, idx: usize) -> bool {
        idx < self.opaque@.len() && self.opaque@[idx as int]
    }

    /// The 4-connected exits of a cell at unit cost, west, east, north and
    /// south in that order, omitting walls and the grid's outside.
    closed spec fn spec_exits(&self, idx: usize) -> Seq<(usize, u64)> {
        if self.width == 0 || idx >= self.opaque@.len() {
            Seq::empty()
        } else {
            let x = (idx as int) % (self.width as int);
            let west: Seq<(usize, u64)> = if x > 0 && !self.spec_opaque((idx - 1) as usize) {
                seq![((idx - 1) as usize, 1u64)]
            } else {
                Seq::empty()
            };
            let east: Seq<(usize, u64)> = if x + 1 < self.width as int && idx + 1
                < self.opaque@.len() && !self.spec_opaque((idx + 1) as usize) {
                seq![((idx + 1) as usize, 1u64)]
            } else {
                Seq::empty()
            };
            let north: Seq<(usize, u64)> = if idx >= self.width && !self.spec_opaque(
                (idx - self.width) as usize,
            ) {
                seq![((idx - self.width) as usize, 1u64)]
            } else {
                Seq::empty()
            };
            let south: Seq<(usize, u64)> = if idx + self.width < self.opaque@.len()
                && !self.spec_opaque((idx + self.width) as usize) {
                seq![((idx + self.width) as usize, 1u64)]
            } else {
                Seq::empty()
            };
            west + east + north + south
        }
    }

    /// The Manhattan distance between two cells, an admissible heuristic for
    /// 4-connected unit-cost walks.
    closed spec fn spec_distance(&self, idx1: usize, idx2: usize) -> u64 {
        if self.width == 0 {
            0
        } else {
            let x1 = (idx1 as int) % (self.width as int);
            let y1 = (idx1 as int) / (self.width as int);
            let x2 = (idx2 as int) % (self.width as int);
            let y2 = (idx2 as int) / (self.width as int);
            let dx = if x1 >= x2 {
                x1 - x2
            } else {
                x2 - x1
            };
            let dy = if y1 >= y2 {
                y1 - y2
            } else {
                y2 - y1
            };
            if dx + dy > u64::MAX {
                u64::MAX
            } else {
                (dx + dy) as u64
            }
        }
    }

    fn is_opaque(&self, idx: usize) -> bool {
        idx < self.opaque.len() && self.opaque[idx]
    }

    fn get_available_exits(&self, idx: usize) -> Vec<(usize, u64)> {
        let mut exits: Vec<(usize, u64)> = Vec::new();
        if self.width == 0 || idx >= self.opaque.len() {
            proof {
                assert(exits@ =~= self.spec_exits(idx));
            }
            return exits;
        }
        let x = idx % self.width;
        proof {
            let w = self.width as int;
            let q = (idx as int) / w;
            vstd::arithmetic::div_mod::lemma_fundamental_div_mod(idx as int, w);
            vstd::arithmetic::div_mod::lemma_div_pos_is_pos(idx as int, w);
            assert(w * q >= 0) by (nonlinear_arith)
                requires
                    w >= 0,
                    q >= 0,
            ;
            assert(idx as int >= (idx as int) % w);
        }
        if x > 0 && !self.opaque[idx - 1] {
            exits.push((idx - 1, 1));
        }
        if x + 1 < self.width && idx + 1 < self.opaque.len() && !self.opaque[idx + 1] {
            exits.push((idx + 1, 1));
        }
        if idx >= self.width && !self.opaque[idx - self.width] {
            exits.push((idx - self.width, 1));
        }
        if self.opaque.len() - idx > self.width && !self.opaque[idx + self.width] {
            exits.push((idx + self.width, 1));
        }
        proof {
            assert(exits@ =~= self.spec_exits(idx));
        }
        exits
    }

    fn get_pathing_distance(&self, idx1: usize, idx2: usize) -> u64 {
        if self.width == 0 {
            return 0u64;
        }
        let x1 = idx1 % self.width;
        let y1 = idx1 / self.width;
        let x2 = idx2 % self.width;
        let y2 = idx2 / self.width;
        let dx = if x1 >= x2 {
            x1 - x2
        } else {
            x2 - x1
        };
        let dy = if y1 >= y2 {
            y1 - y2
        } else {
            y2 - y1
        };
        (dx as u64).saturating_add(dy as u64)
    }
}

impl Algorithm2D for SimpleMap {
    /// Row-major addressing; coordinates outside the grid share one index
    /// past every cell of the grid.
    closed spec fn spec_index(&self, x: int, y: int) -> usize {
        if 0 <= x < self.width as int && 0 <= y < self.height as int && self.wf() {
            (y * self.width + x) as usize
        } else {
            self.opaque@.len() as usize
        }
    }

    fn point2d_to_index(&self, pt: Point) -> usize {
        let x = pt.x;
        let y = pt.y;
        let consistent = match self.width.checked_mul(self.height) {
            Some(size) => size == self.opaque.len(),
            None => false,
        };
        if x >= 0 && (x as usize) < self.width && y >= 0 && (y as usize) < self.height
            && consistent {
            proof {
                assert((y as int) * (self.width as int) + (x as int) < self.width * self.height)
                    by (nonlinear_arith)
                    requires
                        0 <= (x as int) && (x as int) < (self.width as int),
                        0 <= (y as int) && (y as int) < (self.height as int),
                ;
                assert((y as int) * (self.width as int) >= 0) by (nonlinear_arith)
                    requires
                        y as int >= 0,
                        self.width as int >= 0,
                ;
            }
            (y as usize) * self.width + (x as usize)
        } else {
            self.opaque.len()
        }
    }
}

} // verus!
