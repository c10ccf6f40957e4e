use snek::ecs::{Direction, Point, Rect, CELL};

#[test]
fn opposite_involution_all_directions() {
    let dirs = vec![Direction::North, Direction::East, Direction::South, Direction::West];
    for d in dirs {
        assert_eq!(d.oppisite().oppisite(), d);
    }
}

#[test]
fn opposite_pairs() {
    assert_eq!(Direction::North.oppisite(), Direction::South);
    assert_eq!(Direction::South.oppisite(), Direction::North);
    assert_eq!(Direction::East.oppisite(), Direction::West);
    assert_eq!(Direction::West.oppisite(), Direction::East);
}

#[test]
fn move_by_each_direction() {
    let start = Point { x: 50, y: 50 };
    assert_eq!(Direction::North.move_by(&start, 10), Point { x: 50, y: 40 });
    assert_eq!(Direction::South.move_by(&start, 10), Point { x: 50, y: 60 });
    assert_eq!(Direction::East.move_by(&start, 10), Point { x: 60, y: 50 });
    assert_eq!(Direction::West.move_by(&start, 10), Point { x: 40, y: 50 });
}

#[test]
fn update_point_each_direction() {
    let mut p = Point { x: 50, y: 50 };
    Direction::North.update_point(&mut p, CELL);
    assert_eq!(p, Point { x: 50, y: 40 });
    Direction::East.update_point(&mut p, CELL);
    assert_eq!(p, Point { x: 60, y: 40 });
    Direction::South.update_point(&mut p, CELL);
    assert_eq!(p, Point { x: 60, y: 50 });
    Direction::West.update_point(&mut p, CELL);
    assert_eq!(p, Point { x: 50, y: 50 });
}

#[test]
fn rect_contains_edges_inclusive() {
    let r = Rect { x: 0, y: 0, w: 400, h: 10 };
    assert!(r.contains(Point { x: 0, y: 0 }));
    assert!(r.contains(Point { x: 400, y: 10 }));
    assert!(r.contains(Point { x: 55, y: 5 }));
    assert!(!r.contains(Point { x: 55, y: 11 }));
    assert!(!r.contains(Point { x: -1, y: 5 }));
    assert!(!r.contains(Point { x: 401, y: 5 }));
}
