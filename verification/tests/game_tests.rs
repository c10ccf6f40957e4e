use snek::ecs::{Direction, Point};
use snek::game::GameState;

const W: i32 = 400;
const H: i32 = 400;

/// One dt that always pushes the accumulated time past the starting
/// tick interval.
const BIG_DT: u64 = 300_000_000;

/// A dot cell far away from everything the player touches in these tests.
const FAR_DOT: Point = Point { x: 10, y: 380 };

#[test]
fn new_session_matches_start_state() {
    let s = GameState::new(W, H);
    assert_eq!(s.position(), Point { x: 50, y: 50 });
    assert_eq!(s.direction(), Direction::East);
    assert_eq!(
        s.tail_points(),
        vec![Point { x: 50, y: 50 }, Point { x: 50, y: 50 }, Point { x: 50, y: 50 }]
    );
    assert_eq!(s.buffered_input(), None);
    assert_eq!(s.dot_position(), None);
    assert_eq!(s.tick_nanos(), 0);
    assert_eq!(s.tick_interval(), 250_000_000);
    assert_eq!(s.screen_width(), W);
    assert_eq!(s.screen_height(), H);
}

#[test]
fn one_step_scenario() {
    let mut s = GameState::new(W, H);
    s.place_dot(FAR_DOT);
    let r = s.update(BIG_DT);
    assert!(r.stepped);
    assert!(!r.ate);
    assert!(!r.self_collision);
    assert_eq!(s.position(), Point { x: 60, y: 50 });
    assert_eq!(
        s.tail_points(),
        vec![Point { x: 60, y: 50 }, Point { x: 50, y: 50 }, Point { x: 50, y: 50 }]
    );
    assert_eq!(s.tick_nanos(), 0);
}

#[test]
fn reverse_input_is_rejected() {
    let mut s = GameState::new(W, H);

    // face North first
    s.key_down_event(Direction::North);
    assert_eq!(s.buffered_input(), Some(Direction::North));
    s.place_dot(FAR_DOT);
    let _ = s.update(BIG_DT);
    assert_eq!(s.direction(), Direction::North);
    assert_eq!(s.buffered_input(), None);

    // South is the exact reverse of North and must be rejected
    s.key_down_event(Direction::South);
    assert_eq!(s.buffered_input(), None);
    let _ = s.update(BIG_DT);
    assert_eq!(s.direction(), Direction::North);
}

#[test]
fn accepted_input_turns_the_player() {
    let mut s = GameState::new(W, H);
    s.place_dot(FAR_DOT);
    s.key_down_event(Direction::South);
    assert_eq!(s.buffered_input(), Some(Direction::South));
    let _ = s.update(BIG_DT);
    assert_eq!(s.direction(), Direction::South);
    assert_eq!(s.position(), Point { x: 50, y: 60 });
}

#[test]
fn move_then_reverse_move_returns_modulo_wrap() {
    let mut s = GameState::new(W, H);
    let start = s.position();
    s.update_position(&Direction::North);
    s.update_position(&Direction::South);
    assert_eq!(s.position(), start);
    s.update_position(&Direction::West);
    s.update_position(&Direction::East);
    assert_eq!(s.position(), start);
}

#[test]
fn screen_wrap_at_edges() {
    let mut s = GameState::new(W, H);

    // walk West to x = 0
    for _ in 0..5 {
        s.update_position(&Direction::West);
    }
    assert_eq!(s.position(), Point { x: 0, y: 50 });

    // one more step West wraps to screen_width - cell_size
    s.update_position(&Direction::West);
    assert_eq!(s.position(), Point { x: 390, y: 50 });

    // and stepping East from there wraps back to 0
    s.update_position(&Direction::East);
    assert_eq!(s.position(), Point { x: 0, y: 50 });
}

#[test]
fn tail_length_constant_without_food() {
    let mut s = GameState::new(W, H);
    s.place_dot(FAR_DOT);
    for _ in 0..10 {
        let r = s.update(BIG_DT);
        assert!(r.stepped);
        assert!(!r.ate);
        assert_eq!(s.tail_points().len(), 3);
    }
}

#[test]
fn tail_grows_by_one_on_food() {
    let mut s = GameState::new(W, H);

    // the dot sits exactly one step East of the player
    s.place_dot(Point { x: 60, y: 50 });
    let r = s.update(BIG_DT);
    assert!(r.stepped);
    assert!(r.ate);
    assert_eq!(s.tail_points().len(), 4);
    assert_eq!(s.tail_points()[0], Point { x: 60, y: 50 });
}

#[test]
fn dot_gone_on_consumption_and_recreated_next_step() {
    let mut s = GameState::new(W, H);
    s.place_dot(Point { x: 60, y: 50 });

    // consuming the dot destroys it; no new dot appears in the same step
    let r = s.update(BIG_DT);
    assert!(r.ate);
    assert_eq!(s.dot_position(), None);

    // the next step re-creates it
    let r2 = s.update(BIG_DT);
    assert!(r2.stepped);
    assert!(!r2.ate);
    assert!(s.dot_position().is_some());
}

#[test]
fn random_dot_lands_on_a_margin_cell() {
    let mut s = GameState::new(W, H);

    // no dot exists, so the first step creates one at a random cell
    let r = s.update(BIG_DT);
    assert!(r.stepped);
    let p = s.dot_position().expect("a dot must exist after the step");
    assert_eq!(p.x % 10, 0);
    assert_eq!(p.y % 10, 0);
    assert!(p.x >= 10 && p.x <= W - 20);
    assert!(p.y >= 10 && p.y <= H - 20);
}

#[test]
fn tick_interval_shrinks_on_food() {
    let mut s = GameState::new(W, H);
    assert_eq!(s.tick_interval(), 250_000_000);
    s.place_dot(Point { x: 60, y: 50 });
    let r = s.update(BIG_DT);
    assert!(r.ate);
    assert_eq!(s.tick_interval(), 245_000_000);
}

#[test]
fn tick_accumulates_until_interval_exceeded() {
    let mut s = GameState::new(W, H);
    s.place_dot(FAR_DOT);

    let r = s.update(100);
    assert!(!r.stepped);
    assert_eq!(s.tick_nanos(), 100);
    assert_eq!(s.position(), Point { x: 50, y: 50 });

    // landing exactly on the interval still does not step
    let r2 = s.update(250_000_000 - 100);
    assert!(!r2.stepped);
    assert_eq!(s.tick_nanos(), 250_000_000);

    // one more nanosecond steps, and the accumulator resets
    let r3 = s.update(1);
    assert!(r3.stepped);
    assert_eq!(s.tick_nanos(), 0);
    assert_eq!(s.position(), Point { x: 60, y: 50 });
}

#[test]
fn walls_span_top_and_bottom() {
    let mut s = GameState::new(W, H);
    s.build_wall();
    let mut rects = s.wall_rects();
    rects.sort_by_key(|r| r.y);
    assert_eq!(rects.len(), 2);
    assert_eq!((rects[0].x, rects[0].y, rects[0].w, rects[0].h), (0, 0, 400, 10));
    assert_eq!((rects[1].x, rects[1].y, rects[1].w, rects[1].h), (0, 390, 400, 10));
}

#[test]
fn wall_collision_reported_at_top_strip() {
    let mut s = GameState::new(W, H);
    s.build_wall();
    assert!(!s.has_hit_wall());

    // walk North from y = 50 to y = 0, into the top wall strip
    for _ in 0..5 {
        s.update_position(&Direction::North);
    }
    assert_eq!(s.position(), Point { x: 50, y: 0 });
    assert!(s.has_hit_wall());
}

#[test]
fn wall_collision_reported_by_update() {
    let mut s = GameState::new(W, H);
    s.build_wall();
    s.place_dot(FAR_DOT);
    s.key_down_event(Direction::North);
    let mut hit = false;
    for _ in 0..5 {
        let r = s.update(BIG_DT);
        assert!(r.stepped);
        hit = r.wall_collision;
    }
    assert_eq!(s.position(), Point { x: 50, y: 0 });
    assert!(hit);
}

#[test]
fn self_collision_reported_when_head_revisits_tail() {
    let mut s = GameState::new(W, H);

    // grow the tail to five segments while walking a 2-by-2 loop; the
    // fourth move returns to (50,50), which the remaining tail still holds
    s.update_position(&Direction::East);
    assert!(!s.handle_tail(true));
    s.update_position(&Direction::South);
    assert!(!s.handle_tail(true));
    s.update_position(&Direction::West);
    assert!(!s.handle_tail(false));

    s.update_position(&Direction::North);
    assert_eq!(s.position(), Point { x: 50, y: 50 });
    assert!(s.handle_tail(false));
    assert_eq!(s.tail_points().len(), 5);
    assert_eq!(s.tail_points()[0], Point { x: 50, y: 50 });
}
