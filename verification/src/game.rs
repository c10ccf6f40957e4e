//! The game session: one player entity in a `recs` store, a tick scheduler,
//! buffered input, an optional dot (food) entity, and wall entities, with
//! the per-tick update rules.

use vstd::prelude::*;

use crate::ecs::{
    advanced, dim_ok, on_screen, wall_ok, Direction, Point, Rect, Wall, CELL,
};
use crate::rng::random_in_range;
use crate::store::{
    ecs_collect_wall_ids, ecs_create_entity, ecs_destroy_entity, ecs_directions, ecs_entities,
    ecs_get_direction, ecs_get_position, ecs_get_tail, ecs_get_wall, ecs_mark_dot,
    ecs_mark_player, ecs_new, ecs_positions, ecs_set_direction, ecs_set_position, ecs_set_tail,
    ecs_set_wall, ecs_tails, ecs_walls, id_of,
};
use std::collections::VecDeque;

verus! {

/// Number of tail segments the player starts with.
pub const START_TAIL: usize = 3;

/// The tick interval at the start of a session, in nanoseconds.
pub const START_TICK_DURATION: u32 = 250_000_000;

/// The x coordinate the player starts on.
pub const START_X: i32 = 50;

/// The y coordinate the player starts on.
pub const START_Y: i32 = 50;

/// The cell the player starts on.
pub open spec fn start_pos() -> Point {
    Point { x: START_X, y: START_Y }
}

/// The heading to apply this step: a buffered input becomes the new heading
/// unless it is the exact opposite of the current one, which is rejected.
pub open spec fn resolve_direction(cur: Direction, input: Option<Direction>) -> Direction {
    match input {
        Some(d) => if d != cur.opposite() {
            d
        } else {
            cur
        },
        None => cur,
    }
}

/// Buffering the exact opposite of the current heading leaves the heading
/// unchanged after resolution.
pub proof fn lemma_opposite_input_rejected(cur: Direction)
    ensures
        resolve_direction(cur, Some(cur.opposite())) == cur,
{
}

/// The tail that remains before the new head is pushed: the full old tail
/// when the dot was eaten this step, else the old tail minus its oldest
/// (hindmost) segment.
pub open spec fn remaining_tail(t: Seq<Point>, ate: bool) -> Seq<Point> {
    if ate {
        t
    } else {
        t.drop_last()
    }
}

/// The tick interval after the player eats: 98% of the previous interval in
/// integer nanoseconds, the fractional part dropped.
pub open spec fn shrunk(d: u32) -> int {
    (d as int) * 98 / 100
}

/// Whether `p` is a grid cell strictly inside the playable area, at least
/// one cell in from every border.
pub open spec fn dot_in_margin(p: Point, dim_w: int, dim_h: int) -> bool {
    &&& p.x as int % (CELL as int) == 0
    &&& p.y as int % (CELL as int) == 0
    &&& CELL <= p.x && p.x as int <= dim_w - 2 * CELL
    &&& CELL <= p.y && p.y as int <= dim_h - 2 * CELL
}

/// The wall strip along the top edge of a screen `w` pixels wide.
pub open spec fn top_wall(w: i32) -> Wall {
    Wall { size: Rect { x: 0, y: 0, w, h: CELL } }
}

/// The wall strip along the bottom edge of a screen `w` by `h` pixels.
pub open spec fn bottom_wall(w: i32, h: i32) -> Wall {
    Wall { size: Rect { x: 0, y: (h - CELL) as i32, w, h: CELL } }
}

/// Whether `b` has the same dot state as `a`: a dot exists in one exactly
/// when it exists in the other, and at the same position.
pub open spec fn same_dot(a: GameState, b: GameState) -> bool {
    &&& b.has_dot() == a.has_dot()
    &&& (a.has_dot() ==> b.dot_pos() == a.dot_pos())
}

/// What one call to [`GameState::update`] did.
#[derive(Clone, Copy, PartialEq, Eq, Structural, Debug)]
pub struct StepReport {
    /// Whether a discrete simulation step ran.
    pub stepped: bool,
    /// Whether the player consumed the dot this step.
    pub ate: bool,
    /// Whether the new head position already lay on the remaining tail.
    pub self_collision: bool,
    /// Whether the player's centre lies inside some wall after the step.
    pub wall_collision: bool,
}

/// Whether `p` occurs among the points of `path`.
fn tail_contains(path: &VecDeque<Point>, p: Point) -> (r: bool)
    ensures
        r == path@.contains(p),
{
    let n = path.len();
    let mut i: usize = 0;
    while i < n
        invariant
            0 <= i <= n,
            n == path@.len(),
            forall|j: int| 0 <= j < i ==> path@[j] != p,
        decreases n - i,
    {
        if path[i] == p {
            proof {
                assert(path@[i as int] == p);
            }
            return true;
        }
        i = i + 1;
    }
    proof {
        assert(!path@.contains(p));
    }
    false
}

/// One running game session.
pub struct GameState {
    player: recs::EntityId,
    ecs: recs::Ecs,
    tick: u64,
    tick_duration: u32,
    input: Option<Direction>,
    dot: Option<recs::EntityId>,
    screen_w: i32,
    screen_h: i32,
}

impl GameState {
    /// The player's position.
    pub closed spec fn pos(self) -> Point {
        ecs_positions(self.ecs)[id_of(self.player)]
    }

    /// The player's heading.
    pub closed spec fn dir(self) -> Direction {
        ecs_directions(self.ecs)[id_of(self.player)]
    }

    /// The tail segments, newest first.
    pub closed spec fn tail(self) -> Seq<Point> {
        ecs_tails(self.ecs)[id_of(self.player)]
    }

    /// Whether a dot entity currently exists.
    pub closed spec fn has_dot(self) -> bool {
        self.dot is Some
    }

    /// The dot's position (meaningful only when a dot exists).
    pub closed spec fn dot_pos(self) -> Point {
        ecs_positions(self.ecs)[id_of(self.dot.unwrap())]
    }

    /// The wall components currently in the store, by entity id.
    pub closed spec fn walls(self) -> Map<u64, Wall> {
        ecs_walls(self.ecs)
    }

    /// The accumulated time since the last discrete step, in nanoseconds.
    pub closed spec fn ticks(self) -> u64 {
        self.tick
    }

    /// The current tick interval, in nanoseconds.
    pub closed spec fn tick_len(self) -> u32 {
        self.tick_duration
    }

    /// The buffered direction change, if any.
    pub closed spec fn buffered(self) -> Option<Direction> {
        self.input
    }

    /// The screen width, in pixels.
    pub closed spec fn width(self) -> i32 {
        self.screen_w
    }

    /// The screen height, in pixels.
    pub closed spec fn height(self) -> i32 {
        self.screen_h
    }

    /// The heading the next discrete step will apply.
    pub open spec fn next_dir(self) -> Direction {
        resolve_direction(self.dir(), self.buffered())
    }

    /// The position the next discrete step will move the player to.
    pub open spec fn next_pos(self) -> Point {
        advanced(self.pos(), self.next_dir(), self.width() as int, self.height() as int)
    }

    /// Whether the centre of the player's cell at `p` lies inside some wall.
    pub open spec fn hit_wall_at(self, p: Point) -> bool {
        exists|k: u64|
            #[trigger] self.walls().dom().contains(k) && self.walls()[k].size.contains_spec(
                p.x + (CELL as int) / 2,
                p.y + (CELL as int) / 2,
            )
    }

    /// Whether the player's centre currently lies inside some wall.
    pub open spec fn hit_wall(self) -> bool {
        self.hit_wall_at(self.pos())
    }

    /// Whether `r` is the extent of some wall in the store.
    pub open spec fn is_wall_rect(self, r: Rect) -> bool {
        exists|k: u64| #[trigger] self.walls().dom().contains(k) && self.walls()[k].size == r
    }

    /// Session invariant: the screen is acceptable, the player entity is
    /// alive and carries a position, heading and tail, everything sits on
    /// the grid and on the screen, the tail never falls below its starting
    /// length, the dot (when present) is a live entity distinct from the
    /// player and from every wall, and every wall extent is bounded.
    pub closed spec fn wf(self) -> bool {
        &&& dim_ok(self.screen_w as int)
        &&& dim_ok(self.screen_h as int)
        &&& ecs_entities(self.ecs).contains(id_of(self.player))
        &&& ecs_positions(self.ecs).dom().contains(id_of(self.player))
        &&& ecs_directions(self.ecs).dom().contains(id_of(self.player))
        &&& ecs_tails(self.ecs).dom().contains(id_of(self.player))
        &&& on_screen(self.pos(), self.screen_w as int, self.screen_h as int)
        &&& self.tail().len() >= START_TAIL
        &&& forall|i: int|
            0 <= i < self.tail().len() ==> on_screen(
                #[trigger] self.tail()[i],
                self.screen_w as int,
                self.screen_h as int,
            )
        &&& match self.dot {
            Some(d) => {
                &&& ecs_entities(self.ecs).contains(id_of(d))
                &&& ecs_positions(self.ecs).dom().contains(id_of(d))
                &&& id_of(d) != id_of(self.player)
                &&& !ecs_walls(self.ecs).dom().contains(id_of(d))
                &&& on_screen(
                    ecs_positions(self.ecs)[id_of(d)],
                    self.screen_w as int,
                    self.screen_h as int,
                )
            },
            None => true,
        }
        &&& forall|k: u64|
            #[trigger] ecs_walls(self.ecs).dom().contains(k) ==> ecs_entities(self.ecs).contains(
                k,
            ) && wall_ok(ecs_walls(self.ecs)[k])
    }

    /// Starts a session on a `screen_w` by `screen_h` screen: one player on
    /// the starting cell facing East with a three-segment tail, no buffered
    /// input, no dot, no walls, and the starting tick interval.
    pub fn new(screen_w: i32, screen_h: i32) -> (s: GameState)
        requires
            dim_ok(screen_w as int),
            dim_ok(screen_h as int),
        ensures
            s.wf(),
            s.width() == screen_w,
            s.height() == screen_h,
            s.pos() == start_pos(),
            s.dir() == Direction::East,
            s.tail() == Seq::new(START_TAIL as nat, |i: int| start_pos()),
            s.buffered() is None,
            !s.has_dot(),
            s.ticks() == 0,
            s.tick_len() == START_TICK_DURATION,
            s.walls().dom() == Set::<u64>::empty(),
    {
        let mut ecs = ecs_new();

        let player = ecs_create_entity(&mut ecs);
        let player_pos = Point { x: START_X, y: START_Y };
        ecs_set_position(&mut ecs, player, player_pos);

        let mut tail: VecDeque<Point> = VecDeque::with_capacity(10);

        // start the player with a 3 length tail
        tail.push_front(player_pos);
        tail.push_front(player_pos);
        tail.push_front(player_pos);

        ecs_set_tail(&mut ecs, player, &tail);
        ecs_set_direction(&mut ecs, player, Direction::East);
        ecs_mark_player(&mut ecs, player);

        let s = GameState {
            player,
            ecs,
            tick: 0,
            tick_duration: START_TICK_DURATION,
            input: None,
            dot: None,
            screen_w,
            screen_h,
        };
        proof {
            assert(tail@ =~= Seq::new(START_TAIL as nat, |i: int| start_pos()));
            assert(s.tail() =~= tail@);
        }
        s
    }

    /// Buffers a direction change for the next step, unless it is the exact
    /// reverse of the player's current heading, which is ignored.
    pub fn key_down_event(&mut self, selected_dir: Direction)
        requires
            old(self).wf(),
        ensures
            final(self).wf(),
            final(self).buffered() == (if selected_dir != old(self).dir().opposite() {
                Some(selected_dir)
            } else {
                old(self).buffered()
            }),
            final(self).pos() == old(self).pos(),
            final(self).dir() == old(self).dir(),
            final(self).tail() == old(self).tail(),
            same_dot(*old(self), *final(self)),
            final(self).walls() == old(self).walls(),
            final(self).ticks() == old(self).ticks(),
            final(self).tick_len() == old(self).tick_len(),
            final(self).width() == old(self).width(),
            final(self).height() == old(self).height(),
    {
        let back = self.player_direction();

        // prevent the player from turning straight back onto themselves
        if selected_dir != back.oppisite() {
            self.input = Some(selected_dir);
        }
    }

    /// Applies the buffered input: an accepted input becomes the player's
    /// heading, a reversal is discarded; the buffer is cleared either way,
    /// and the heading to use this step is returned.
    pub fn update_direction(&mut self) -> (d: Direction)
        requires
            old(self).wf(),
        ensures
            final(self).wf(),
            d == resolve_direction(old(self).dir(), old(self).buffered()),
            final(self).dir() == d,
            final(self).buffered() is None,
            final(self).pos() == old(self).pos(),
            final(self).tail() == old(self).tail(),
            same_dot(*old(self), *final(self)),
            final(self).walls() == old(self).walls(),
            final(self).ticks() == old(self).ticks(),
            final(self).tick_len() == old(self).tick_len(),
            final(self).width() == old(self).width(),
            final(self).height() == old(self).height(),
    {
        let cur = self.player_direction();
        let resolved = match self.input {
            Some(dir) => {
                if cur.oppisite() != dir {
                    dir
                } else {
                    cur
                }
            },
            None => cur,
        };
        ecs_set_direction(&mut self.ecs, self.player, resolved);
        self.input = None;
        resolved
    }

    /// Moves the player one cell along `dir`, wrapping at the screen edges.
    pub fn update_position(&mut self, dir: &Direction)
        requires
            old(self).wf(),
        ensures
            final(self).wf(),
            final(self).pos() == advanced(
                old(self).pos(),
                *dir,
                old(self).width() as int,
                old(self).height() as int,
            ),
            final(self).dir() == old(self).dir(),
            final(self).tail() == old(self).tail(),
            final(self).buffered() == old(self).buffered(),
            same_dot(*old(self), *final(self)),
            final(self).walls() == old(self).walls(),
            final(self).ticks() == old(self).ticks(),
            final(self).tick_len() == old(self).tick_len(),
            final(self).width() == old(self).width(),
            final(self).height() == old(self).height(),
    {
        let mut point = self.player_position();
        dir.update_point(&mut point, CELL);

        // handle wrapping around the screen
        if point.x < 0 {
            point.x = self.screen_w - CELL;
        } else if point.x >= self.screen_w {
            point.x = 0;
        }
        if point.y < 0 {
            point.y = self.screen_h - CELL;
        } else if point.y >= self.screen_h {
            point.y = 0;
        }

        ecs_set_position(&mut self.ecs, self.player, point);
    }

    /// Creates the dot entity at `p`; the caller chooses the cell.
    pub fn place_dot(&mut self, p: Point)
        requires
            old(self).wf(),
            !old(self).has_dot(),
            dot_in_margin(p, old(self).width() as int, old(self).height() as int),
        ensures
            final(self).wf(),
            final(self).has_dot(),
            final(self).dot_pos() == p,
            final(self).pos() == old(self).pos(),
            final(self).dir() == old(self).dir(),
            final(self).tail() == old(self).tail(),
            final(self).buffered() == old(self).buffered(),
            final(self).walls() == old(self).walls(),
            final(self).ticks() == old(self).ticks(),
            final(self).tick_len() == old(self).tick_len(),
            final(self).width() == old(self).width(),
            final(self).height() == old(self).height(),
    {
        let dot_id = ecs_create_entity(&mut self.ecs);
        ecs_set_position(&mut self.ecs, dot_id, p);
        ecs_mark_dot(&mut self.ecs, dot_id);
        self.dot = Some(dot_id);
    }

    /// Creates the dot entity at a cell chosen uniformly at random from the
    /// grid cells strictly inside the playable area (one cell of margin at
    /// each border).
    pub fn create_dot(&mut self)
        requires
            old(self).wf(),
            !old(self).has_dot(),
        ensures
            final(self).wf(),
            final(self).has_dot(),
            dot_in_margin(
                final(self).dot_pos(),
                old(self).width() as int,
                old(self).height() as int,
            ),
            final(self).pos() == old(self).pos(),
            final(self).dir() == old(self).dir(),
            final(self).tail() == old(self).tail(),
            final(self).buffered() == old(self).buffered(),
            final(self).walls() == old(self).walls(),
            final(self).ticks() == old(self).ticks(),
            final(self).tick_len() == old(self).tick_len(),
            final(self).width() == old(self).width(),
            final(self).height() == old(self).height(),
    {
        let x_cells: u32 = (self.screen_w / CELL) as u32;
        let y_cells: u32 = (self.screen_h / CELL) as u32;
        let rx = random_in_range(1, x_cells - 1);
        let ry = random_in_range(1, y_cells - 1);

        let dot_pos = Point { x: (rx as i32) * CELL, y: (ry as i32) * CELL };
        self.place_dot(dot_pos);
    }

    /// Resolves the dot for this step: if a dot exists and the player sits
    /// on it, the dot entity is destroyed and the reference cleared; if no
    /// dot exists, a new one is created at a random cell. Returns whether
    /// the dot was consumed this step.
    pub fn handle_dot(&mut self) -> (keep_tail: bool)
        requires
            old(self).wf(),
        ensures
            final(self).wf(),
            keep_tail == (old(self).has_dot() && old(self).dot_pos() == old(self).pos()),
            keep_tail ==> !final(self).has_dot(),
            !old(self).has_dot() ==> final(self).has_dot() && dot_in_margin(
                final(self).dot_pos(),
                old(self).width() as int,
                old(self).height() as int,
            ),
            (old(self).has_dot() && !keep_tail) ==> final(self).has_dot()
                && final(self).dot_pos() == old(self).dot_pos(),
            final(self).pos() == old(self).pos(),
            final(self).dir() == old(self).dir(),
            final(self).tail() == old(self).tail(),
            final(self).buffered() == old(self).buffered(),
            final(self).walls() == old(self).walls(),
            final(self).ticks() == old(self).ticks(),
            final(self).tick_len() == old(self).tick_len(),
            final(self).width() == old(self).width(),
            final(self).height() == old(self).height(),
    {
        let mut keep_tail = false;

        match self.dot {
            Some(dot_id) => {
                let pos = self.player_position();
                let dot_pos = match ecs_get_position(&self.ecs, dot_id) {
                    Some(p) => p,
                    None => {
                        proof {
                            assert(false);
                        }
                        Point { x: 0, y: 0 }
                    },
                };

                if dot_pos == pos {
                    keep_tail = true;
                }

                if keep_tail {
                    ecs_destroy_entity(&mut self.ecs, dot_id);
                    self.dot = None;
                }
            },
            None => {
                self.create_dot();
            },
        }

        keep_tail
    }

    /// One step of tail maintenance: unless the dot was consumed this step
    /// the oldest (hindmost) segment is dropped, then the player's current
    /// position is inserted at the front. Returns whether that position
    /// already lay somewhere on the remaining tail.
    pub fn handle_tail(&mut self, keep_tail: bool) -> (self_collision: bool)
        requires
            old(self).wf(),
        ensures
            final(self).wf(),
            final(self).tail() == seq![old(self).pos()] + remaining_tail(
                old(self).tail(),
                keep_tail,
            ),
            self_collision == remaining_tail(old(self).tail(), keep_tail).contains(
                old(self).pos(),
            ),
            final(self).tail().len() == old(self).tail().len() + (if keep_tail {
                1int
            } else {
                0int
            }),
            final(self).pos() == old(self).pos(),
            final(self).dir() == old(self).dir(),
            final(self).buffered() == old(self).buffered(),
            same_dot(*old(self), *final(self)),
            final(self).walls() == old(self).walls(),
            final(self).ticks() == old(self).ticks(),
            final(self).tick_len() == old(self).tick_len(),
            final(self).width() == old(self).width(),
            final(self).height() == old(self).height(),
    {
        let pos = self.player_position();
        let mut path = self.player_tail();

        if !keep_tail {
            let _ = path.pop_back();
            proof {
                assert(path@ =~= old(self).tail().drop_last());
            }
        }

        let self_collision = tail_contains(&path, pos);

        path.push_front(pos);
        ecs_set_tail(&mut self.ecs, self.player, &path);
        self_collision
    }

    /// Whether the centre of the player's cell lies inside any wall extent.
    pub fn has_hit_wall(&self) -> (r: bool)
        requires
            self.wf(),
        ensures
            r == self.hit_wall(),
    {
        let pos = self.player_position();

        // centre the probe point in the middle of the cell
        let center = Point { x: pos.x + CELL / 2, y: pos.y + CELL / 2 };

        let wall_ids = ecs_collect_wall_ids(&self.ecs);
        let ghost cx = self.pos().x + (CELL as int) / 2;
        let ghost cy = self.pos().y + (CELL as int) / 2;

        let mut hit = false;
        let mut i: usize = 0;
        while i < wall_ids.len()
            invariant
                self.wf(),
                0 <= i <= wall_ids@.len(),
                center.x == cx,
                center.y == cy,
                cx == self.pos().x + (CELL as int) / 2,
                cy == self.pos().y + (CELL as int) / 2,
                forall|j: int|
                    0 <= j < wall_ids@.len() ==> self.walls().dom().contains(
                        id_of(#[trigger] wall_ids@[j]),
                    ),
                forall|k: u64|
                    self.walls().dom().contains(k) ==> exists|j: int|
                        0 <= j < wall_ids@.len() && id_of(#[trigger] wall_ids@[j]) == k,
                hit ==> self.hit_wall(),
                !hit ==> forall|j: int|
                    0 <= j < i ==> !self.walls()[id_of(#[trigger] wall_ids@[j])].size.contains_spec(
                        cx,
                        cy,
                    ),
            decreases wall_ids@.len() - i,
        {
            let id = wall_ids[i];
            let wall = match ecs_get_wall(&self.ecs, id) {
                Some(w) => w,
                None => {
                    proof {
                        assert(false);
                    }
                    Wall { size: Rect { x: 0, y: 0, w: 0, h: 0 } }
                },
            };
            if wall.size.contains(center) {
                proof {
                    let kk = id_of(wall_ids@[i as int]);
                    assert(self.walls().dom().contains(kk));
                    assert(self.walls()[kk].size.contains_spec(cx, cy));
                }
                hit = true;
            }
            i = i + 1;
        }

        proof {
            if !hit {
                assert forall|k: u64| self.walls().dom().contains(k) implies !self.walls()[
                    k
                ].size.contains_spec(cx, cy) by {
                    let j = choose|j: int|
                        0 <= j < wall_ids@.len() && id_of(#[trigger] wall_ids@[j]) == k;
                };
            }
        }
        hit
    }

    /// Creates the two wall entities: one strip along the top edge and one
    /// along the bottom edge, each one cell tall and spanning the width.
    pub fn build_wall(&mut self)
        requires
            old(self).wf(),
        ensures
            final(self).wf(),
            (exists|k1: u64, k2: u64|
                k1 != k2 && !old(self).walls().dom().contains(k1) && !old(self).walls().dom().contains(k2) && final(self).walls() == old(self).walls().insert(
                    k1,
                    top_wall(old(self).width()),
                ).insert(k2, bottom_wall(old(self).width(), old(self).height()))),
            final(self).pos() == old(self).pos(),
            final(self).dir() == old(self).dir(),
            final(self).tail() == old(self).tail(),
            final(self).buffered() == old(self).buffered(),
            same_dot(*old(self), *final(self)),
            final(self).ticks() == old(self).ticks(),
            final(self).tick_len() == old(self).tick_len(),
            final(self).width() == old(self).width(),
            final(self).height() == old(self).height(),
    {
        let w = self.screen_w;
        let h = self.screen_h;

        let top_id = ecs_create_entity(&mut self.ecs);
        ecs_set_wall(&mut self.ecs, top_id, Wall { size: Rect { x: 0, y: 0, w, h: CELL } });

        let bottom_id = ecs_create_entity(&mut self.ecs);
        ecs_set_wall(
            &mut self.ecs,
            bottom_id,
            Wall { size: Rect { x: 0, y: h - CELL, w, h: CELL } },
        );

        proof {
            let k1 = id_of(top_id);
            let k2 = id_of(bottom_id);
            assert(final(self).walls() =~= old(self).walls().insert(
                k1,
                top_wall(old(self).width()),
            ).insert(k2, bottom_wall(old(self).width(), old(self).height())));
        }
    }

    /// Accumulates `dt` nanoseconds of elapsed time; once the accumulated
    /// time exceeds the tick interval, runs one discrete step in the fixed
    /// order — resolve the buffered direction, advance the position with
    /// screen wrap, resolve the dot, update the tail, check the walls — and
    /// shrinks the tick interval when the dot was eaten.
    pub fn update(&mut self, dt: u64) -> (report: StepReport)
        requires
            old(self).wf(),
            old(self).ticks() + dt <= u64::MAX,
        ensures
            final(self).wf(),
            report.stepped == (old(self).ticks() + dt > old(self).tick_len() as u64),
            final(self).width() == old(self).width(),
            final(self).height() == old(self).height(),
            final(self).walls() == old(self).walls(),
            !report.stepped ==> final(self).ticks() == old(self).ticks() + dt,
            !report.stepped ==> !report.ate && !report.self_collision && !report.wall_collision,
            !report.stepped ==> final(self).pos() == old(self).pos() && final(self).dir() == old(self).dir() && final(self).tail() == old(self).tail() && final(self).buffered() == old(self).buffered() && same_dot(*old(self), *final(self)) && final(self).tick_len() == old(self).tick_len(),
            report.stepped ==> final(self).ticks() == 0,
            report.stepped ==> final(self).dir() == old(self).next_dir() && final(self).buffered() is None,
            report.stepped ==> final(self).pos() == old(self).next_pos(),
            report.stepped ==> report.ate == (old(self).has_dot() && old(self).dot_pos() == old(self).next_pos()),
            report.ate ==> !final(self).has_dot() && final(self).tick_len() == shrunk(
                old(self).tick_len(),
            ),
            report.stepped && !report.ate ==> final(self).tick_len() == old(self).tick_len(),
            report.stepped && !old(self).has_dot() ==> final(self).has_dot() && dot_in_margin(
                final(self).dot_pos(),
                old(self).width() as int,
                old(self).height() as int,
            ),
            report.stepped && old(self).has_dot() && !report.ate ==> final(self).has_dot()
                && final(self).dot_pos() == old(self).dot_pos(),
            report.stepped ==> final(self).tail() == seq![old(self).next_pos()] + remaining_tail(
                old(self).tail(),
                report.ate,
            ),
            report.stepped ==> final(self).tail().len() == old(self).tail().len() + (
            if report.ate {
                1int
            } else {
                0int
            }),
            report.stepped ==> report.self_collision == remaining_tail(
                old(self).tail(),
                report.ate,
            ).contains(old(self).next_pos()),
            report.stepped ==> report.wall_collision == final(self).hit_wall(),
    {
        self.tick = self.tick + dt;

        // check if an update tick is in order
        if self.tick <= self.tick_duration as u64 {
            return StepReport { stepped: false, ate: false, self_collision: false, wall_collision: false };
        }

        self.tick = 0;

        let direction = self.update_direction();

        self.update_position(&direction);

        let keep_tail = self.handle_dot();

        let self_collision = self.handle_tail(keep_tail);

        if keep_tail {
            // speed up over time
            let ghost d0 = self.tick_duration;
            let next = ((self.tick_duration as u64) * 98 / 100) as u32;
            proof {
                assert((d0 as int) * 98 / 100 <= d0 as int) by (nonlinear_arith);
                assert(next == shrunk(d0));
            }
            self.tick_duration = next;
        }

        let wall_collision = self.has_hit_wall();

        StepReport { stepped: true, ate: keep_tail, self_collision, wall_collision }
    }

    /// The player's current position.
    pub fn position(&self) -> (p: Point)
        requires
            self.wf(),
        ensures
            p == self.pos(),
    {
        self.player_position()
    }

    /// The player's current heading.
    pub fn direction(&self) -> (d: Direction)
        requires
            self.wf(),
        ensures
            d == self.dir(),
    {
        self.player_direction()
    }

    /// The tail segments as a vector, newest first.
    pub fn tail_points(&self) -> (v: Vec<Point>)
        requires
            self.wf(),
        ensures
            v@ == self.tail(),
    {
        let path = self.player_tail();
        let mut v: Vec<Point> = Vec::new();
        let n = path.len();
        let mut i: usize = 0;
        while i < n
            invariant
                0 <= i <= n,
                n == path@.len(),
                path@ == self.tail(),
                v@ == self.tail().subrange(0, i as int),
            decreases n - i,
        {
            v.push(path[i]);
            proof {
                assert(v@ =~= self.tail().subrange(0, i + 1));
            }
            i = i + 1;
        }
        proof {
            assert(v@ =~= self.tail());
        }
        v
    }

    /// The dot's position, if a dot currently exists.
    pub fn dot_position(&self) -> (r: Option<Point>)
        requires
            self.wf(),
        ensures
            match r {
                Some(p) => self.has_dot() && p == self.dot_pos(),
                None => !self.has_dot(),
            },
    {
        match self.dot {
            Some(dot_id) => match ecs_get_position(&self.ecs, dot_id) {
                Some(p) => Some(p),
                None => {
                    proof {
                        assert(false);
                    }
                    None
                },
            },
            None => None,
        }
    }

    /// The accumulated time since the last discrete step, in nanoseconds.
    pub fn tick_nanos(&self) -> (t: u64)
        ensures
            t == self.ticks(),
    {
        self.tick
    }

    /// The current tick interval, in nanoseconds.
    pub fn tick_interval(&self) -> (t: u32)
        ensures
            t == self.tick_len(),
    {
        self.tick_duration
    }

    /// The buffered direction change, if any.
    pub fn buffered_input(&self) -> (r: Option<Direction>)
        ensures
            r == self.buffered(),
    {
        self.input
    }

    /// The screen width, in pixels.
    pub fn screen_width(&self) -> (w: i32)
        ensures
            w == self.width(),
    {
        self.screen_w
    }

    /// The screen height, in pixels.
    pub fn screen_height(&self) -> (h: i32)
        ensures
            h == self.height(),
    {
        self.screen_h
    }

    /// The extents of all wall entities, for rendering; every returned
    /// rectangle is the extent of some wall in the store.
    pub fn wall_rects(&self) -> (v: Vec<Rect>)
        requires
            self.wf(),
        ensures
            forall|i: int| 0 <= i < v@.len() ==> self.is_wall_rect(#[trigger] v@[i]),
            forall|k: u64|
                #[trigger] self.walls().dom().contains(k) ==> exists|i: int|
                    0 <= i < v@.len() && v@[i] == self.walls()[k].size,
    {
        let wall_ids = ecs_collect_wall_ids(&self.ecs);
        let mut v: Vec<Rect> = Vec::new();
        let mut i: usize = 0;
        while i < wall_ids.len()
            invariant
                self.wf(),
                0 <= i <= wall_ids@.len(),
                forall|j: int|
                    0 <= j < wall_ids@.len() ==> self.walls().dom().contains(
                        id_of(#[trigger] wall_ids@[j]),
                    ),
                forall|k: u64|
                    self.walls().dom().contains(k) ==> exists|j: int|
                        0 <= j < wall_ids@.len() && id_of(#[trigger] wall_ids@[j]) == k,
                forall|j: int| 0 <= j < v@.len() ==> self.is_wall_rect(#[trigger] v@[j]),
                forall|j: int|
                    0 <= j < i ==> exists|m: int|
                        0 <= m < v@.len() && v@[m] == self.walls()[id_of(
                            #[trigger] wall_ids@[j],
                        )].size,
            decreases wall_ids@.len() - i,
        {
            let id = wall_ids[i];
            let ghost v_before = v@;
            match ecs_get_wall(&self.ecs, id) {
                Some(w) => {
                    proof {
                        let kk = id_of(wall_ids@[i as int]);
                        assert(self.walls().dom().contains(kk));
                    }
                    v.push(w.size);
                    proof {
                        // the new entry covers this id; the earlier entries
                        // still stand at their old indices
                        assert(v@[v_before.len() as int] == self.walls()[id_of(
                            wall_ids@[i as int],
                        )].size);
                        assert forall|j: int| 0 <= j < i implies exists|m: int|
                            0 <= m < v@.len() && v@[m] == self.walls()[id_of(
                                #[trigger] wall_ids@[j],
                            )].size by {
                            let m0 = choose|m: int|
                                0 <= m < v_before.len() && v_before[m] == self.walls()[id_of(
                                    wall_ids@[j],
                                )].size;
                            assert(v@[m0] == self.walls()[id_of(wall_ids@[j])].size);
                        };
                    }
                },
                None => {
                    proof {
                        assert(false);
                    }
                },
            }
            i = i + 1;
        }

        proof {
            assert forall|k: u64| #[trigger] self.walls().dom().contains(k) implies exists|i: int|
                0 <= i < v@.len() && v@[i] == self.walls()[k].size by {
                let j = choose|j: int|
                    0 <= j < wall_ids@.len() && id_of(#[trigger] wall_ids@[j]) == k;
                let m = choose|m: int|
                    0 <= m < v@.len() && v@[m] == self.walls()[id_of(wall_ids@[j])].size;
                assert(v@[m] == self.walls()[k].size);
            };
        }
        v
    }

    /// Reads the player's heading out of the store.
    fn player_direction(&self) -> (d: Direction)
        requires
            self.wf(),
        ensures
            d == self.dir(),
    {
        match ecs_get_direction(&self.ecs, self.player) {
            Some(d) => d,
            None => {
                proof {
                    assert(false);
                }
                Direction::East
            },
        }
    }

    /// Reads the player's position out of the store.
    fn player_position(&self) -> (p: Point)
        requires
            self.wf(),
        ensures
            p == self.pos(),
    {
        match ecs_get_position(&self.ecs, self.player) {
            Some(p) => p,
            None => {
                proof {
                    assert(false);
                }
                Point { x: 0, y: 0 }
            },
        }
    }

    /// Reads a clone of the player's tail out of the store.
    fn player_tail(&self) -> (t: VecDeque<Point>)
        requires
            self.wf(),
        ensures
            t@ == self.tail(),
    {
        match ecs_get_tail(&self.ecs, self.player) {
            Some(t) => t,
            None => {
                proof {
                    assert(false);
                }
                VecDeque::new()
            },
        }
    }
}

} // verus!
