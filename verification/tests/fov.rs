use rltk::{field_of_view, line2d, Algorithm2D, BaseMap, LineAlg, Point, SimpleMap};
use std::collections::HashSet;

fn as_set(points: Vec<Point>) -> HashSet<(i32, i32)> {
    points.iter().map(|p| (p.x, p.y)).collect()
}

fn dsq(a: (i32, i32), b: (i32, i32)) -> i64 {
    let dx = (a.0 - b.0) as i64;
    let dy = (a.1 - b.1) as i64;
    dx * dx + dy * dy
}

/// The reference the ray-casting approximation is held to: walk every
/// perimeter ray and keep cells while they stay within the radius, stopping
/// behind the first opaque cell.
fn brute_force_fov(map: &SimpleMap, origin: Point, radius: i32) -> HashSet<(i32, i32)> {
    let mut expected = HashSet::new();
    let rsq = (radius as i64) * (radius as i64);
    let mut perimeter = Vec::new();
    for x in origin.x - radius..=origin.x + radius {
        perimeter.push(Point::new(x, origin.y - radius));
        perimeter.push(Point::new(x, origin.y + radius));
    }
    for y in origin.y - radius + 1..origin.y + radius {
        perimeter.push(Point::new(origin.x - radius, y));
        perimeter.push(Point::new(origin.x + radius, y));
    }
    for target in perimeter {
        for cell in line2d(LineAlg::Bresenham, origin, target) {
            if dsq((origin.x, origin.y), (cell.x, cell.y)) > rsq {
                break;
            }
            expected.insert((cell.x, cell.y));
            if map.is_opaque(map.point2d_to_index(cell)) {
                break;
            }
        }
    }
    expected
}

#[test]
fn origin_always_visible() {
    let map = SimpleMap::new(11, 11);
    for radius in 0..5 {
        let visible = field_of_view(Point::new(5, 5), radius, &map);
        assert!(visible.iter().any(|p| p.x == 5 && p.y == 5));
    }
}

#[test]
fn open_5x5_radius_2_is_distance_filtered_disc() {
    // On a 5x5 open grid from its center, the visible set is the whole
    // Euclidean distance-filtered disc: every cell with squared distance at
    // most 4. The four corners (squared distance 8) are invisible, and so is
    // every other cell beyond the radius, such as (1, 0) at squared
    // distance 5 — which leaves 13 cells.
    let map = SimpleMap::new(5, 5);
    let visible = as_set(field_of_view(Point::new(2, 2), 2, &map));
    let mut expected = HashSet::new();
    for x in 0..5 {
        for y in 0..5 {
            if dsq((x, y), (2, 2)) <= 4 {
                expected.insert((x, y));
            }
        }
    }
    assert_eq!(expected.len(), 13);
    assert_eq!(visible, expected);
    assert!(!visible.contains(&(0, 0)));
    assert!(!visible.contains(&(4, 4)));
    assert!(!visible.contains(&(1, 0)));
}

#[test]
fn open_grid_matches_distance_filter() {
    // With no occluders, the result is exactly the set of cells within the
    // radius that some cast ray reaches.
    let map = SimpleMap::new(9, 9);
    let origin = Point::new(4, 4);
    for radius in [1, 2, 3] {
        let visible = as_set(field_of_view(origin, radius, &map));
        let expected = brute_force_fov(&map, origin, radius);
        assert_eq!(visible, expected);
    }
}

#[test]
fn wall_blocks_farther_cell_but_stays_visible() {
    let mut map = SimpleMap::new(5, 5);
    map.set_opaque(3, 2, true);
    let visible = as_set(field_of_view(Point::new(2, 2), 2, &map));
    assert!(visible.contains(&(3, 2)));
    assert!(!visible.contains(&(4, 2)));
}

#[test]
fn occluded_matches_reference_walk() {
    let mut map = SimpleMap::new(9, 9);
    map.set_opaque(5, 4, true);
    map.set_opaque(4, 3, true);
    map.set_opaque(2, 5, true);
    let origin = Point::new(4, 4);
    for radius in [2, 3, 4] {
        let visible = as_set(field_of_view(origin, radius, &map));
        let expected = brute_force_fov(&map, origin, radius);
        assert_eq!(visible, expected);
    }
}

#[test]
fn no_duplicates_in_result() {
    let map = SimpleMap::new(9, 9);
    let visible = field_of_view(Point::new(4, 4), 3, &map);
    let set = as_set(visible.clone());
    assert_eq!(set.len(), visible.len());
}

#[test]
fn negative_radius_sees_nothing() {
    let map = SimpleMap::new(9, 9);
    let visible = field_of_view(Point::new(4, 4), -1, &map);
    assert!(visible.is_empty());
}
