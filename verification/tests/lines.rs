use rltk::{line2d, LineAlg, Point};

#[test]
fn single_point_line() {
    let line = line2d(LineAlg::Bresenham, Point::new(3, 3), Point::new(3, 3));
    assert_eq!(line.len(), 1);
    assert_eq!((line[0].x, line[0].y), (3, 3));
}

#[test]
fn endpoints_stand_first_and_last() {
    let cases = [
        ((0, 0), (5, 2)),
        ((5, 2), (0, 0)),
        ((-3, 4), (2, -1)),
        ((7, 7), (7, 1)),
        ((1, 1), (9, 1)),
    ];
    for ((x0, y0), (x1, y1)) in cases {
        let line = line2d(LineAlg::Bresenham, Point::new(x0, y0), Point::new(x1, y1));
        assert_eq!((line[0].x, line[0].y), (x0, y0));
        let last = line[line.len() - 1];
        assert_eq!((last.x, last.y), (x1, y1));
    }
}

#[test]
fn horizontal_line_cells() {
    let line = line2d(LineAlg::Bresenham, Point::new(2, 5), Point::new(6, 5));
    let cells: Vec<(i32, i32)> = line.iter().map(|p| (p.x, p.y)).collect();
    assert_eq!(cells, vec![(2, 5), (3, 5), (4, 5), (5, 5), (6, 5)]);
}

#[test]
fn diagonal_line_cells() {
    let line = line2d(LineAlg::Bresenham, Point::new(0, 0), Point::new(3, 3));
    let cells: Vec<(i32, i32)> = line.iter().map(|p| (p.x, p.y)).collect();
    assert_eq!(cells, vec![(0, 0), (1, 1), (2, 2), (3, 3)]);
}

#[test]
fn shallow_slope_steps_each_column_once() {
    let line = line2d(LineAlg::Bresenham, Point::new(0, 0), Point::new(6, 2));
    assert_eq!(line.len(), 7);
    for (k, cell) in line.iter().enumerate() {
        assert_eq!(cell.x, k as i32);
        assert!(cell.y >= 0 && cell.y <= 2);
    }
    let ys: Vec<i32> = line.iter().map(|p| p.y).collect();
    for pair in ys.windows(2) {
        assert!(pair[1] == pair[0] || pair[1] == pair[0] + 1);
    }
}

#[test]
fn steep_slope_steps_each_row_once() {
    let line = line2d(LineAlg::Bresenham, Point::new(0, 0), Point::new(-2, -6));
    assert_eq!(line.len(), 7);
    for (k, cell) in line.iter().enumerate() {
        assert_eq!(cell.y, -(k as i32));
        assert!(cell.x >= -2 && cell.x <= 0);
    }
}
