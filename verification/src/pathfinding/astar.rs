//! A* search over the implicit graph a `BaseMap` describes, with a
//! lazy-deletion open list and a step budget bounding the search effort.
//!
//! A successful search hands back a route whose every consecutive pair is an
//! edge the map actually reported through `get_available_exits`; a failed
//! search hands back an empty route. Success is never owed: the goal may be
//! unreachable, and the step budget caps how many expansions are spent before
//! the search fails closed.

use crate::basemap::BaseMap;
use std::collections::HashMap;
use vstd::prelude::*;

verus! {

broadcast use vstd::std_specs::hash::group_hash_axioms;

/// Bail out if the A* search exceeds this many expansions.
const MAX_ASTAR_STEPS: usize = 65536;

/// Whether the map reports an edge from cell `a` to cell `b`.
pub open spec fn has_edge<M: BaseMap>(map: &M, a: usize, b: usize) -> bool {
    exists|k: int| 0 <= k < map.spec_exits(a).len() && (#[trigger] map.spec_exits(a)[k]).0 == b
}

/// Whether every consecutive pair of `steps` is an edge of the map.
pub open spec fn is_path<M: BaseMap>(map: &M, steps: Seq<usize>) -> bool {
    forall|i: int| 0 <= i < steps.len() - 1 ==> has_edge(map, steps[i], #[trigger] steps[i + 1])
}

/// Whether `steps` is a route of map edges that leads from `start` to `end`.
pub open spec fn path_connects<M: BaseMap>(
    map: &M,
    steps: Seq<usize>,
    start: usize,
    end: usize,
) -> bool {
    &&& steps.len() >= 1
    &&& steps[0] == start
    &&& steps[steps.len() - 1] == end
    &&& is_path(map, steps)
}

/// Whether some route of map edges leads from `start` to `end`.
pub open spec fn reachable<M: BaseMap>(map: &M, start: usize, end: usize) -> bool {
    exists|steps: Seq<usize>| #[trigger] path_connects(map, steps, start, end)
}

/// Holds the result of an A* navigation query: the target cell, whether the
/// search reached it, and — on success — every step of the route from the
/// start cell to the target inclusive.
#[derive(Clone)]
pub struct NavigationPath {
    pub destination: usize,
    pub success: bool,
    pub steps: Vec<usize>,
}

impl NavigationPath {
    /// Makes a new, empty navigation path.
    pub fn new() -> (r: NavigationPath)
        ensures
            r.destination == 0,
            !r.success,
            r.steps@.len() == 0,
    {
        NavigationPath { destination: 0, success: false, steps: Vec::new() }
    }
}

/// One frontier entry of the open list: the cell, its accumulated cost `g`
/// from the start, the heuristic `h` to the goal, and the priority `f = g + h`.
#[derive(Copy, Clone)]
struct Node {
    idx: usize,
    f: u64,
    g: u64,
    h: u64,
}

/// Transient state of one A* search, discarded when the search returns.
struct AStar {
    start: usize,
    end: usize,
    open_list: Vec<Node>,
    closed_list: HashMap<usize, u64>,
    parents: HashMap<usize, usize>,
    step_counter: usize,
}

/// The open-list entry a successor at accumulated cost `cost` would get:
/// the heuristic distance to the goal, and the saturating priority sum.
spec fn successor_node<M: BaseMap>(map: &M, end: usize, idx: usize, cost: u64) -> Node {
    Node {
        idx,
        f: map.spec_distance(idx, end).saturating_add(cost),
        g: cost,
        h: map.spec_distance(idx, end),
    }
}

/// Whether offering a cell at priority `f` is skipped: some open entry for
/// the same cell already has a strictly lower priority, or the closed list
/// finalized the cell at a strictly lower priority.
spec fn should_skip(open: Seq<Node>, closed: Map<usize, u64>, idx: usize, f: u64) -> bool {
    (exists|e: int| 0 <= e < open.len() && (#[trigger] open[e]).idx == idx && open[e].f < f) || (
    closed.contains_key(idx) && closed[idx] < f)
}

/// Whether following parent links from `from` reaches `to` within `k` steps.
spec fn chain_reaches(parents: Map<usize, usize>, from: usize, to: usize, k: nat) -> bool
    decreases k,
{
    from == to || (k > 0 && parents.contains_key(from) && chain_reaches(
        parents,
        parents[from],
        to,
        (k - 1) as nat,
    ))
}

impl AStar {
    /// Every recorded parent entry `(child, parent)` is backed by a map edge
    /// from the parent to the child, so any walk of the parent chain yields
    /// map edges only.
    spec fn wf<M: BaseMap>(self, map: &M) -> bool {
        forall|c: usize| #[trigger] self.parents@.contains_key(c) ==> has_edge(
            map,
            self.parents@[c],
            c,
        )
    }

    /// Creates a search for a route between the two cells, with the start
    /// cell seeded into the open list at zero cost.
    fn new(start: usize, end: usize) -> (r: AStar)
        ensures
            r.start == start,
            r.end == end,
            r.parents@ == Map::<usize, usize>::empty(),
            r.closed_list@ == Map::<usize, u64>::empty(),
            r.step_counter == 0,
            r.open_list@ == seq![(Node { idx: start, f: 0u64, g: 0u64, h: 0u64 })],
    {
        let mut open_list: Vec<Node> = Vec::new();
        open_list.push(Node { idx: start, f: 0, g: 0, h: 0 });
        proof {
            assert(open_list@ =~= seq![(Node { idx: start, f: 0u64, g: 0u64, h: 0u64 })]);
        }
        AStar {
            start,
            end,
            open_list,
            parents: HashMap::new(),
            closed_list: HashMap::new(),
            step_counter: 0,
        }
    }

    /// Wrapper to the map's heuristic distance to the goal.
    fn distance_to_end<M: BaseMap>(&self, idx: usize, map: &M) -> (r: u64)
        ensures
            r == map.spec_distance(idx, self.end),
    {
        map.get_pathing_distance(idx, self.end)
    }

    /// Offers a successor cell reached from `q` at accumulated cost `cost`.
    /// Reaching the goal records its parent, touches nothing else, and
    /// reports success. Otherwise the successor joins the open list — at the
    /// heuristic-summed priority, with its parent recorded — unless an entry
    /// for the same cell already stands at a strictly lower priority in the
    /// open or closed list, in which case nothing changes.
    fn add_successor<M: BaseMap>(&mut self, q: Node, idx: usize, cost: u64, map: &M) -> (r: bool)
        requires
            old(self).wf(map),
            has_edge(map, q.idx, idx),
        ensures
            final(self).wf(map),
            final(self).start == old(self).start,
            final(self).end == old(self).end,
            final(self).step_counter == old(self).step_counter,
            final(self).closed_list@ == old(self).closed_list@,
            r == (idx == old(self).end),
            idx == old(self).end ==> final(self).open_list@ == old(self).open_list@
                && final(self).parents@ == old(self).parents@.insert(idx, q.idx),
            idx != old(self).end && should_skip(
                old(self).open_list@,
                old(self).closed_list@,
                idx,
                successor_node(map, old(self).end, idx, cost).f,
            ) ==> final(self).open_list@ == old(self).open_list@
                && final(self).parents@ == old(self).parents@,
            idx != old(self).end && !should_skip(
                old(self).open_list@,
                old(self).closed_list@,
                idx,
                successor_node(map, old(self).end, idx, cost).f,
            ) ==> final(self).open_list@ == old(self).open_list@.push(
                successor_node(map, old(self).end, idx, cost),
            ) && final(self).parents@ == old(self).parents@.insert(idx, q.idx),
    {
        if idx == self.end {
            self.parents.insert(idx, q.idx);
            true
        } else {
            let distance = self.distance_to_end(idx, map);
            let s = Node { idx, f: distance.saturating_add(cost), g: cost, h: distance };
            proof {
                assert(s == successor_node(map, self.end, idx, cost));
            }
            // Skip the add if the open list already holds this cell at a
            // strictly lower priority.
            let mut should_add = true;
            let mut i: usize = 0;
            while i < self.open_list.len()
                invariant
                    0 <= i <= self.open_list@.len(),
                    should_add == !(exists|e: int|
                        0 <= e < i && (#[trigger] self.open_list@[e]).idx == idx
                            && self.open_list@[e].f < s.f),
                decreases self.open_list@.len() - i,
            {
                let e = self.open_list[i];
                if e.f < s.f && e.idx == idx {
                    should_add = false;
                }
                i = i + 1;
            }
            // Likewise if the closed list finalized this cell at a strictly
            // lower priority.
            if should_add {
                match self.closed_list.get(&idx) {
                    Some(closed_f) => {
                        if *closed_f < s.f {
                            should_add = false;
                        }
                    },
                    None => {},
                }
            }
            proof {
                assert(should_add == !should_skip(self.open_list@, self.closed_list@, idx, s.f));
            }
            if should_add {
                self.open_list.push(s);
                self.parents.insert(idx, q.idx);
            }
            false
        }
    }

    /// Unwraps the route once the goal has been reached, walking the parent
    /// chain from the goal back to the start and reversing it: on success the
    /// route is exactly that chain, stopping at its first arrival at the
    /// start. Success is owed whenever the chain reaches the start — a chain
    /// that does cannot revisit a cell, so `parents.len() + 1` lookups always
    /// suffice — and a chain that never reaches it yields a failed path.
    fn found_it<M: BaseMap>(&self, map: &M) -> (r: NavigationPath)
        requires
            self.wf(map),
            self.parents@.contains_key(self.end),
        ensures
            r.success ==> path_connects(map, r.steps@, self.start, self.end) && r.destination
                == self.end,
            !r.success ==> r.steps@.len() == 0 && r.destination == 0,
            chain_reaches(self.parents@, self.end, self.start, self.parents@.dom().len())
                ==> r.success,
            r.success ==> forall|t: int|
                0 <= t < r.steps@.len() - 1 ==> self.parents@.contains_key(
                    #[trigger] r.steps@[t + 1],
                ) && r.steps@[t] == self.parents@[r.steps@[t + 1]],
            r.success ==> forall|t: int| 1 <= t < r.steps@.len() ==> #[trigger] r.steps@[t]
                != self.start,
    {
        let ghost sound_chain = chain_reaches(
            self.parents@,
            self.end,
            self.start,
            self.parents@.dom().len(),
        );
        let mut rev: Vec<usize> = Vec::new();
        rev.push(self.end);
        let mut current = self.end;
        let mut fuel = self.parents.len().saturating_add(1);
        while current != self.start && fuel > 0
            invariant
                self.wf(map),
                rev@.len() >= 1,
                rev@[0] == self.end,
                rev@[rev@.len() - 1] == current,
                forall|i: int| 0 <= i < rev@.len() - 1 ==> has_edge(
                    map,
                    rev@[i + 1],
                    #[trigger] rev@[i],
                ),
                forall|i: int| 0 <= i < rev@.len() - 1 ==> self.parents@.contains_key(
                    #[trigger] rev@[i],
                ) && rev@[i + 1] == self.parents@[rev@[i]],
                forall|i: int| 0 <= i < rev@.len() - 1 ==> #[trigger] rev@[i] != self.start,
                self.parents@.contains_key(self.end),
                sound_chain == chain_reaches(
                    self.parents@,
                    self.end,
                    self.start,
                    self.parents@.dom().len(),
                ),
                sound_chain ==> exists|k: nat|
                    k <= fuel && #[trigger] chain_reaches(self.parents@, current, self.start, k),
            decreases fuel,
        {
            proof {
                if sound_chain {
                    let k = choose|k: nat|
                        k <= fuel && #[trigger] chain_reaches(
                            self.parents@,
                            current,
                            self.start,
                            k,
                        );
                    assert(k > 0 && self.parents@.contains_key(current) && chain_reaches(
                        self.parents@,
                        self.parents@[current],
                        self.start,
                        (k - 1) as nat,
                    ));
                }
            }
            match self.parents.get(&current) {
                Some(parent) => {
                    current = *parent;
                    rev.push(current);
                },
                None => {
                    return NavigationPath::new();
                },
            }
            fuel = fuel - 1;
        }
        if current != self.start {
            return NavigationPath::new();
        }
        let mut steps: Vec<usize> = Vec::new();
        let mut i = rev.len();
        while i > 0
            invariant
                0 <= i <= rev@.len(),
                steps@.len() == rev@.len() - i,
                forall|k: int| 0 <= k < steps@.len() ==> #[trigger] steps@[k] == rev@[rev@.len() - 1
                    - k],
            decreases i,
        {
            i = i - 1;
            steps.push(rev[i]);
        }
        proof {
            assert(steps@[0] == rev@[rev@.len() - 1]);
            assert(steps@[steps@.len() - 1] == rev@[0]);
            assert forall|k: int| 0 <= k < steps@.len() - 1 implies has_edge(
                map,
                steps@[k],
                #[trigger] steps@[k + 1],
            ) by {
                assert(steps@[k] == rev@[rev@.len() - 1 - k]);
                assert(steps@[k + 1] == rev@[rev@.len() - 1 - (k + 1)]);
                assert(has_edge(map, rev@[rev@.len() - 2 - k + 1], rev@[rev@.len() - 2 - k]));
            }
            assert forall|t: int| 0 <= t < steps@.len() - 1 implies self.parents@.contains_key(
                #[trigger] steps@[t + 1],
            ) && steps@[t] == self.parents@[steps@[t + 1]] by {
                assert(steps@[t + 1] == rev@[rev@.len() - 2 - t]);
                assert(steps@[t] == rev@[rev@.len() - 1 - t]);
                assert(self.parents@.contains_key(rev@[rev@.len() - 2 - t]) && rev@[rev@.len() - 2
                    - t + 1] == self.parents@[rev@[rev@.len() - 2 - t]]);
            }
            assert forall|t: int| 1 <= t < steps@.len() implies #[trigger] steps@[t]
                != self.start by {
                assert(steps@[t] == rev@[rev@.len() - 1 - t]);
            }
        }
        NavigationPath { destination: self.end, success: true, steps }
    }

    /// Performs the A* search: pops the lowest-priority open node, offers its
    /// successors, and closes it, until the goal is reached, the open list
    /// drains, or the step budget runs out. A drained list or a spent budget
    /// yields the empty failed path; reaching the goal hands back the parent
    /// chain's route, owed to succeed whenever that recorded chain is sound.
    fn search<M: BaseMap>(&mut self, map: &M) -> (r: NavigationPath)
        requires
            old(self).wf(map),
            !old(self).parents@.contains_key(old(self).end),
            old(self).step_counter <= MAX_ASTAR_STEPS,
        ensures
            r.success ==> path_connects(map, r.steps@, old(self).start, old(self).end)
                && r.destination == old(self).end,
            !r.success ==> r.steps@.len() == 0 && r.destination == 0,
            has_edge(map, old(self).start, old(self).end) && old(self).start != old(self).end
                && old(self).step_counter == 0 && old(self).open_list@ == seq![
                (Node { idx: old(self).start, f: 0u64, g: 0u64, h: 0u64 }),
            ] ==> r.success,
            final(self).parents@.contains_key(final(self).end) && chain_reaches(
                final(self).parents@,
                final(self).end,
                final(self).start,
                final(self).parents@.dom().len(),
            ) ==> r.success,
            final(self).step_counter <= MAX_ASTAR_STEPS,
    {
        let ghost fresh_adjacent = has_edge(map, old(self).start, old(self).end) && old(
            self,
        ).start != old(self).end && old(self).step_counter == 0 && old(self).open_list@ == seq![
            (Node { idx: old(self).start, f: 0u64, g: 0u64, h: 0u64 }),
        ];
        let result = NavigationPath::new();
        while self.open_list.len() > 0 && self.step_counter < MAX_ASTAR_STEPS
            invariant
                self.wf(map),
                self.start == old(self).start,
                self.end == old(self).end,
                fresh_adjacent == (has_edge(map, old(self).start, old(self).end) && old(
                    self,
                ).start != old(self).end && old(self).step_counter == 0 && old(self).open_list@
                    == seq![(Node { idx: old(self).start, f: 0u64, g: 0u64, h: 0u64 })]),
                fresh_adjacent ==> self.step_counter == 0 && self.start != self.end && has_edge(
                    map,
                    self.start,
                    self.end,
                ) && self.open_list@ == seq![
                    (Node { idx: self.start, f: 0u64, g: 0u64, h: 0u64 }),
                ],
                !self.parents@.contains_key(self.end),
                self.step_counter <= MAX_ASTAR_STEPS,
            decreases MAX_ASTAR_STEPS - self.step_counter,
        {
            self.step_counter = self.step_counter + 1;
            // Pop the open node with the smallest priority; ties fall to the
            // earliest entry.
            let mut best: usize = 0;
            let mut bi: usize = 1;
            while bi < self.open_list.len()
                invariant
                    0 <= best < self.open_list@.len(),
                decreases self.open_list@.len() - bi,
            {
                if self.open_list[bi].f < self.open_list[best].f {
                    best = bi;
                }
                bi = bi + 1;
            }
            let q = self.open_list.remove(best);
            proof {
                if fresh_adjacent {
                    assert(q.idx == self.start);
                    assert(has_edge(map, q.idx, self.end));
                }
            }
            // Offer each successor; stop at the first that is the goal.
            let successors = map.get_available_exits(q.idx);
            proof {
                if fresh_adjacent {
                    let k = choose|k: int|
                        0 <= k < map.spec_exits(q.idx).len() && (#[trigger] map.spec_exits(
                            q.idx,
                        )[k]).0 == self.end;
                    assert(0 <= k < successors@.len() && successors@[k].0 == self.end);
                }
            }
            let ghost counted = self.step_counter;
            let mut found = false;
            let mut si: usize = 0;
            while si < successors.len() && !found
                invariant
                    self.wf(map),
                    self.start == old(self).start,
                    self.end == old(self).end,
                    self.step_counter == counted,
                    successors@ == map.spec_exits(q.idx),
                    found ==> self.parents@.contains_key(self.end) && self.parents@[self.end]
                        == q.idx,
                    !found ==> !self.parents@.contains_key(self.end),
                    fresh_adjacent && !found ==> exists|k: int|
                        si <= k < successors@.len() && (#[trigger] successors@[k]).0 == self.end,
                decreases successors@.len() - si,
            {
                let (next_idx, step_cost) = successors[si];
                proof {
                    assert((map.spec_exits(q.idx)[si as int]).0 == next_idx);
                    assert(has_edge(map, q.idx, next_idx));
                }
                if self.add_successor(q, next_idx, q.g.saturating_add(step_cost), map) {
                    found = true;
                }
                proof {
                    if fresh_adjacent && !found {
                        let k = choose|k: int|
                            si <= k < successors@.len() && (#[trigger] successors@[k]).0
                                == self.end;
                        assert(k != si);
                        assert(si + 1 <= k < successors@.len() && successors@[k].0 == self.end);
                    }
                }
                si = si + 1;
            }
            proof {
                if fresh_adjacent {
                    assert(found);
                }
                if found {
                    assert(self.parents@.dom().contains(self.end));
                    vstd::set::axiom_set_remove_len(self.parents@.dom(), self.end);
                    assert(self.parents@.dom().len() >= 1);
                    if fresh_adjacent {
                        assert(chain_reaches(
                            self.parents@,
                            self.parents@[self.end],
                            self.start,
                            (self.parents@.dom().len() - 1) as nat,
                        ));
                        assert(chain_reaches(
                            self.parents@,
                            self.end,
                            self.start,
                            self.parents@.dom().len(),
                        ));
                    }
                }
            }
            if found {
                return self.found_it(map);
            }
            // Close the popped node at its priority, overwriting any prior
            // entry for the cell.
            self.closed_list.insert(q.idx, q.f);
        }
        result
    }
}

/// Requests an A* search between two cell indices of `map`. On success the
/// returned route starts at `start`, ends at `end`, and follows only edges
/// the map reported — so success witnesses reachability, and on a map where
/// the goal is unreachable every search fails, with an empty route. A search
/// whose goal is its own start always succeeds with the one-step route, and
/// one whose goal is a direct exit of the start always succeeds.
///
/// No more success than that is owed: for a goal two or more edges away,
/// which cells are expanded depends on the caller's costs and heuristic, and
/// a map can push enough cheaper frontier cells to spend the whole step
/// budget before the route's next cell is expanded — so a failed search says
/// the route was not found within the budget, not that none exists. For the
/// same reason no minimality of the returned route's cost is stated: ties
/// between equal priorities fall arbitrarily to the caller's ordering, and
/// the search stops when the goal is first generated, not first expanded.
pub fn a_star_search<M: BaseMap>(start: usize, end: usize, map: &M) -> (r: NavigationPath)
    ensures
        r.success ==> path_connects(map, r.steps@, start, end),
        r.success ==> r.destination == end,
        r.success ==> reachable(map, start, end),
        !r.success ==> r.steps@.len() == 0 && r.destination == 0,
        start == end ==> r.success && r.steps@ == seq![start],
        has_edge(map, start, end) ==> r.success,
{
    if start == end {
        let mut steps: Vec<usize> = Vec::new();
        steps.push(start);
        proof {
            assert(steps@ =~= seq![start]);
            assert(path_connects(map, steps@, start, end));
        }
        return NavigationPath { destination: end, success: true, steps };
    }
    let mut searcher = AStar::new(start, end);
    let r = searcher.search(map);
    proof {
        if r.success {
            assert(path_connects(map, r.steps@, start, end));
        }
    }
    r
}

} // verus!
