use rltk::{a_star_search, BaseMap, SimpleMap};
use std::collections::VecDeque;

/// A straight corridor of `len` cells: a `len` x 1 grid, where each cell's
/// exits are its neighbors at step cost 1.
fn corridor(len: usize) -> SimpleMap {
    SimpleMap::new(len, 1)
}

fn grid_with_walls(width: usize, height: usize, walls: &[(usize, usize)]) -> SimpleMap {
    let mut map = SimpleMap::new(width, height);
    for &(x, y) in walls {
        map.set_opaque(x, y, true);
    }
    map
}

/// Reference breadth-first search: the length (in cells) of a shortest path,
/// or None when the goal is unreachable.
fn bfs_path_len(map: &SimpleMap, size: usize, start: usize, end: usize) -> Option<usize> {
    let mut dist = vec![usize::MAX; size];
    let mut queue = VecDeque::new();
    dist[start] = 1;
    queue.push_back(start);
    while let Some(cur) = queue.pop_front() {
        if cur == end {
            return Some(dist[cur]);
        }
        for (next, _cost) in map.get_available_exits(cur) {
            if dist[next] == usize::MAX {
                dist[next] = dist[cur] + 1;
                queue.push_back(next);
            }
        }
    }
    None
}

#[test]
fn corridor_straight_route() {
    let map = corridor(5);
    let path = a_star_search(0, 4, &map);
    assert!(path.success);
    assert_eq!(path.steps, vec![0, 1, 2, 3, 4]);
    assert_eq!(path.destination, 4);
}

#[test]
fn corridor_exits_are_neighbors() {
    let map = corridor(5);
    for i in 0..5usize {
        let exits = map.get_available_exits(i);
        let mut expected = Vec::new();
        if i > 0 {
            expected.push((i - 1, 1u64));
        }
        if i + 1 < 5 {
            expected.push((i + 1, 1u64));
        }
        assert_eq!(exits, expected);
    }
}

#[test]
fn adjacent_goal_always_found() {
    let map = corridor(5);
    let path = a_star_search(2, 3, &map);
    assert!(path.success);
    assert_eq!(path.steps, vec![2, 3]);
}

#[test]
fn start_equals_end() {
    let map = corridor(5);
    let path = a_star_search(3, 3, &map);
    assert!(path.success);
    assert_eq!(path.steps, vec![3]);
}

#[test]
fn unreachable_goal_fails_with_empty_steps() {
    // A wall column splits the grid in two.
    let map = grid_with_walls(5, 3, &[(2, 0), (2, 1), (2, 2)]);
    let path = a_star_search(0, 4, &map);
    assert!(!path.success);
    assert!(path.steps.is_empty());
}

#[test]
fn route_follows_reported_edges() {
    let map = grid_with_walls(6, 6, &[(3, 0), (3, 1), (3, 2), (3, 3), (3, 4)]);
    let start = 0;
    let end = 2 * 6 + 5;
    let path = a_star_search(start, end, &map);
    assert!(path.success);
    assert_eq!(path.steps[0], start);
    assert_eq!(*path.steps.last().unwrap(), end);
    for pair in path.steps.windows(2) {
        let exits = map.get_available_exits(pair[0]);
        assert!(exits.iter().any(|e| e.0 == pair[1]));
    }
}

#[test]
fn matches_bfs_shortest_length() {
    // Uniform step cost 1 with an admissible Manhattan heuristic: the route
    // length must equal the reference breadth-first search's.
    let map = grid_with_walls(
        6,
        6,
        &[(1, 1), (1, 2), (1, 3), (1, 4), (3, 1), (3, 2), (3, 3), (4, 3)],
    );
    let cases = [(0usize, 35usize), (0, 17), (5, 30), (6, 29)];
    for (start, end) in cases {
        let expected = bfs_path_len(&map, 36, start, end).expect("reachable");
        let path = a_star_search(start, end, &map);
        assert!(path.success);
        assert_eq!(path.steps.len(), expected);
    }
}
