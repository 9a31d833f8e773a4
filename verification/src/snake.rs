use vstd::prelude::*;

use crate::direction::Direction;
use crate::geometry::Point;
use crate::input::Key;
use crate::input::direction_request;

verus! {

/// Fixed start coordinates of a fresh snake's head.
pub const START_X: i32 = 200;
pub const START_Y: i32 = 200;

/// The player-controlled snake: a head, a heading, the trailing body cells
/// (most recent first), how many grown cells it owns, pending growth, and
/// whether it is still alive.
pub struct Snake {
    pub position: Point,
    pub direction: Direction,
    pub length: u32,
    pub length_to_grow: u32,
    pub tail: Vec<Point>,
    pub alive: bool,
}

impl Snake {
    /// The tail after one tick's bookkeeping: the head's old cell joins the
    /// front; without pending growth the oldest cell is trimmed, so the
    /// length is kept.
    pub open spec fn spec_tail_after_update(self) -> Seq<Point> {
        let inserted = self.tail@.insert(0, self.position);
        if self.length_to_grow > 0 {
            inserted
        } else {
            inserted.drop_last()
        }
    }

    /// The grown-segment count after one tick's bookkeeping.
    pub open spec fn spec_length_after_update(self) -> int {
        if self.length_to_grow > 0 {
            self.length + 1
        } else {
            self.length as int
        }
    }

    /// The pending growth after one tick's bookkeeping.
    pub open spec fn spec_length_to_grow_after_update(self) -> int {
        if self.length_to_grow > 0 {
            self.length_to_grow - 1
        } else {
            0
        }
    }

    /// The head's x coordinate after one step of `scale` pixels.
    pub open spec fn spec_moved_x(self, scale: int) -> int {
        match self.direction {
            Direction::Right => self.position.x + scale,
            Direction::Left => self.position.x - scale,
            _ => self.position.x as int,
        }
    }

    /// The head's y coordinate after one step of `scale` pixels. The y axis
    /// grows downward, so `Up` subtracts.
    pub open spec fn spec_moved_y(self, scale: int) -> int {
        match self.direction {
            Direction::Up => self.position.y - scale,
            Direction::Down => self.position.y + scale,
            _ => self.position.y as int,
        }
    }

    /// The head's cell after one step.
    pub open spec fn spec_position_after_update(self, scale: int) -> Point {
        Point { x: self.spec_moved_x(scale) as i32, y: self.spec_moved_y(scale) as i32 }
    }

    /// Whether the snake survives the tick: the new head must stay inside
    /// the board and miss every cell of the tail as it stands after this
    /// tick's insert-then-trim bookkeeping.
    pub open spec fn spec_alive_after_update(self, scale: int, size: [u32; 2]) -> bool {
        &&& !self.spec_tail_after_update().contains(self.spec_position_after_update(scale))
        &&& 0 <= self.spec_moved_x(scale) < size[0] as int
        &&& 0 <= self.spec_moved_y(scale) < size[1] as int
    }

    /// The heading after a key press: a directional key turns the snake
    /// unless it asks for the exact opposite of the current heading; any
    /// other key changes nothing.
    pub open spec fn spec_direction_after(self, k: Key) -> Direction {
        match direction_request(k) {
            Some(d) => if self.direction == d.opposite() {
                self.direction
            } else {
                d
            },
            None => self.direction,
        }
    }

    /// A snake exactly as `new` builds it.
    pub open spec fn spec_is_initial(self) -> bool {
        &&& self.position == (Point { x: START_X, y: START_Y })
        &&& self.direction == Direction::Up
        &&& self.length == 0
        &&& self.length_to_grow == 0
        &&& self.tail@ == Seq::<Point>::empty()
        &&& self.alive
    }

    /// A fresh snake: fixed start position, heading up, no tail, alive.
    pub fn new() -> (s: Snake)
        ensures
            s.spec_is_initial(),
    {
        Snake {
            position: Point { x: START_X, y: START_Y },
            direction: Direction::Up,
            length: 0,
            length_to_grow: 0,
            tail: Vec::new(),
            alive: true,
        }
    }

    /// One tick's tail bookkeeping, run strictly before the head moves: the
    /// head's current cell is inserted at the front of the tail; if growth
    /// is pending, one unit of it is materialized (the tail stays a cell
    /// longer), otherwise the oldest cell is trimmed.
    pub fn update_tail(&mut self)
        requires
            old(self).length_to_grow > 0 ==> old(self).length < u32::MAX,
        ensures
            final(self).tail@ == old(self).spec_tail_after_update(),
            final(self).length == old(self).spec_length_after_update(),
            final(self).length_to_grow == old(self).spec_length_to_grow_after_update(),
            final(self).position == old(self).position,
            final(self).direction == old(self).direction,
            final(self).alive == old(self).alive,
    {
        self.tail.insert(0, self.position);
        if self.length_to_grow > 0 {
            self.length_to_grow -= 1;
            self.length += 1;
        } else {
            self.tail.pop();
        }
    }

    /// One tick of movement: tail bookkeeping first, then the head advances
    /// one `scale`-sized step along the current heading; the snake dies if
    /// the new head leaves `[0, size)` on either axis or lands on a tail
    /// cell. A dead snake is frozen: nothing changes.
    pub fn update(&mut self, scale: i32, size: [u32; 2])
        requires
            old(self).alive ==> i32::MIN <= old(self).spec_moved_x(scale as int)
                <= i32::MAX,
            old(self).alive ==> i32::MIN <= old(self).spec_moved_y(scale as int)
                <= i32::MAX,
            old(self).alive && old(self).length_to_grow > 0 ==> old(self).length < u32::MAX,
        ensures
            !old(self).alive ==> *final(self) == *old(self),
            old(self).alive ==> {
                &&& final(self).position == old(self).spec_position_after_update(scale as int)
                &&& final(self).tail@ == old(self).spec_tail_after_update()
                &&& final(self).length == old(self).spec_length_after_update()
                &&& final(self).length_to_grow == old(self).spec_length_to_grow_after_update()
                &&& final(self).direction == old(self).direction
                &&& final(self).alive == old(self).spec_alive_after_update(scale as int, size)
            },
    {
        if !self.alive {
            return;
        }
        self.update_tail();
        match self.direction {
            Direction::Right => self.position.x = self.position.x + scale,
            Direction::Left => self.position.x = self.position.x - scale,
            Direction::Up => self.position.y = self.position.y - scale,
            Direction::Down => self.position.y = self.position.y + scale,
        }
        let out_of_bounds = self.position.x < 0 || (self.position.x as i64) >= (size[0] as i64)
            || self.position.y < 0 || (self.position.y as i64) >= (size[1] as i64);
        if tail_contains(&self.tail, self.position) || out_of_bounds {
            self.alive = false;
        }
    }

    /// Steer the snake: directional keys turn it, a request for the exact
    /// opposite of the current heading is ignored, and so is any other key.
    pub fn change_direction(&mut self, k: Key)
        ensures
            final(self).direction == old(self).spec_direction_after(k),
            final(self).position == old(self).position,
            final(self).length == old(self).length,
            final(self).length_to_grow == old(self).length_to_grow,
            final(self).tail@ == old(self).tail@,
            final(self).alive == old(self).alive,
    {
        match k {
            Key::D | Key::Right => {
                if self.direction != Direction::Left {
                    self.direction = Direction::Right;
                }
            },
            Key::A | Key::Left => {
                if self.direction != Direction::Right {
                    self.direction = Direction::Left;
                }
            },
            Key::W | Key::Up => {
                if self.direction != Direction::Down {
                    self.direction = Direction::Up;
                }
            },
            Key::S | Key::Down => {
                if self.direction != Direction::Up {
                    self.direction = Direction::Down;
                }
            },
            _ => {},
        }
    }
}

/// Whether some tail cell equals `p`.
fn tail_contains(tail: &Vec<Point>, p: Point) -> (r: bool)
    ensures
        r == tail@.contains(p),
{
    let mut i: usize = 0;
    while i < tail.len()
        invariant
            0 <= i <= tail@.len(),
            forall|j: int| 0 <= j < i ==> tail@[j] != p,
        decreases tail@.len() - i,
    {
        if tail[i] == p {
            return true;
        }
        i = i + 1;
    }
    false
}

/// Reversal guard: a key that asks for the exact opposite of the current
/// heading leaves the heading unchanged.
pub proof fn lemma_reversal_guard(s: Snake, k: Key)
    requires
        direction_request(k) == Some(s.direction.opposite()),
    ensures
        s.spec_direction_after(k) == s.direction,
{
}

/// Tail bookkeeping: with growth pending, the tail and the grown-segment
/// count each gain exactly one cell; otherwise both stay as they are.
pub proof fn lemma_tail_growth(s: Snake)
    ensures
        s.length_to_grow > 0 ==> s.spec_tail_after_update().len() == s.tail@.len() + 1,
        s.length_to_grow > 0 ==> s.spec_length_after_update() == s.length + 1,
        s.length_to_grow == 0 ==> s.spec_tail_after_update().len() == s.tail@.len(),
        s.length_to_grow == 0 ==> s.spec_length_after_update() == s.length,
{
}

/// The tail never outgrows the grown-segment count: one tick's bookkeeping
/// preserves `tail.len() <= length`.
pub proof fn lemma_tail_within_length(s: Snake)
    requires
        s.tail@.len() <= s.length,
    ensures
        s.spec_tail_after_update().len() <= s.spec_length_after_update(),
{
}

/// Leaving the board kills: a head that steps outside `[0, size)` on either
/// axis does not survive the tick.
pub proof fn lemma_out_of_bounds_kills(s: Snake, scale: int, size: [u32; 2])
    requires
        !(0 <= s.spec_moved_x(scale) < size[0] as int) || !(0 <= s.spec_moved_y(scale)
            < size[1] as int),
    ensures
        !s.spec_alive_after_update(scale, size),
{
}

/// Self-collision kills: a head that lands on any cell of the tail, as the
/// tail stands after this tick's bookkeeping, does not survive the tick.
pub proof fn lemma_self_collision_kills(s: Snake, scale: int, size: [u32; 2])
    requires
        s.spec_tail_after_update().contains(s.spec_position_after_update(scale)),
    ensures
        !s.spec_alive_after_update(scale, size),
{
}

/// The cell trimmed from the tail end this very tick does not count as a
/// collision: a head that steps onto the old tail-end cell survives,
/// provided that cell occurs nowhere else in the tail and the head stays on
/// the board.
pub proof fn lemma_trimmed_cell_is_safe(s: Snake, scale: int, size: [u32; 2])
    requires
        0 < scale,
        i32::MIN <= s.spec_moved_x(scale) <= i32::MAX,
        i32::MIN <= s.spec_moved_y(scale) <= i32::MAX,
        s.length_to_grow == 0,
        s.tail@.len() > 0,
        s.spec_position_after_update(scale) == s.tail@.last(),
        forall|j: int| 0 <= j < s.tail@.len() - 1 ==> s.tail@[j] != s.tail@.last(),
        0 <= s.spec_moved_x(scale) < size[0] as int,
        0 <= s.spec_moved_y(scale) < size[1] as int,
    ensures
        s.spec_alive_after_update(scale, size),
{
    let np = s.spec_position_after_update(scale);
    let t = s.spec_tail_after_update();
    assert(t =~= seq![s.position] + s.tail@.drop_last());
    match s.direction {
        Direction::Right => {
            assert(np.x == s.position.x + scale);
        },
        Direction::Left => {
            assert(np.x == s.position.x - scale);
        },
        Direction::Up => {
            assert(np.y == s.position.y - scale);
        },
        Direction::Down => {
            assert(np.y == s.position.y + scale);
        },
    }
    assert(np != s.position);
    assert forall|j: int| 0 <= j < t.len() implies t[j] != np by {
        if j == 0 {
            assert(t[0] == s.position);
        } else {
            assert(t[j] == s.tail@[j - 1]);
            assert(s.tail@[j - 1] != s.tail@.last());
        }
    }
    assert(!t.contains(np)) by {
        if t.contains(np) {
            let j = choose|j: int| 0 <= j < t.len() && t[j] == np;
            assert(t[j] != np);
        }
    }
}

} // verus!
