use vstd::prelude::*;

verus! {

use crate::snake::{Direction, Block, adjacent, step_block, step_x, step_y};
use crate::random::random_in_range;
use crate::in_interior;

/// Whether one step from `p` along `d` stays inside the interior.
pub open spec fn step_stays_inside(width: int, height: int, p: Block, d: Direction) -> bool {
    in_interior(width, height, step_x(p.x as int, d), step_y(p.y as int, d))
}

/// The bounce rule of a moving enemy update: the enemy steps one cell
/// along its heading `d` when that step stays inside the interior;
/// otherwise it reverses its heading and stays put, so the wall is never
/// crossed. `q` and `e` are the position and heading after the update.
pub open spec fn bounce_step(
    width: int,
    height: int,
    p: Block,
    d: Direction,
    q: Block,
    e: Direction,
) -> bool {
    if step_stays_inside(width, height, p, d) {
        q == step_block(p, d) && e == d
    } else {
        q == p && e == d.opp()
    }
}

/// A hostile grid occupant. It advances on its own counters so its pace is
/// independent of the snakes' movement period: it moves only every second
/// update, and every third update it may pick a fresh heading at random.
#[derive(Clone, Copy, Debug)]
pub struct Enemy {
    pub x: i32,
    pub y: i32,
    pub direction: Direction,
    pub move_counter: i32,
    pub change_direction_counter: i32,
}

impl Enemy {
    /// The counters stay within the windows their resets enforce.
    pub open spec fn wf(self) -> bool {
        &&& 0 <= self.move_counter <= 1
        &&& 0 <= self.change_direction_counter <= 2
    }

    pub open spec fn pos(self) -> Block {
        Block { x: self.x, y: self.y }
    }

    pub fn new(x: i32, y: i32) -> (e: Enemy)
        ensures
            e.wf(),
            e.x == x,
            e.y == y,
            e.direction == Direction::Right,
            e.move_counter == 0,
            e.change_direction_counter == 0,
    {
        Enemy { x, y, direction: Direction::Right, move_counter: 0, change_direction_counter: 0 }
    }

    pub fn position(&self) -> (r: (i32, i32))
        ensures
            r.0 == self.x,
            r.1 == self.y,
    {
        (self.x, self.y)
    }

    pub fn check_collision(&self, x: i32, y: i32) -> (r: bool)
        ensures
            r == (self.x == x && self.y == y),
    {
        self.x == x && self.y == y
    }

    /// Advance the enemy's timers by one update. Every second update it
    /// moves one cell along its heading by the bounce rule, so it never
    /// leaves the interior. Every third update it has a bounded chance of
    /// picking a new heading uniformly among the four, so on such a call
    /// the heading the move uses is existentially bound; on every other
    /// call it is the old heading, and the outcome is fully determined.
    pub fn update(&mut self, width: i32, height: i32)
        requires
            old(self).wf(),
            in_interior(width as int, height as int, old(self).x as int, old(self).y as int),
        ensures
            final(self).wf(),
            in_interior(width as int, height as int, final(self).x as int, final(self).y as int),
            final(self).move_counter == if old(self).move_counter >= 1 {
                0int
            } else {
                old(self).move_counter + 1
            },
            final(self).change_direction_counter == if old(self).change_direction_counter >= 2 {
                0int
            } else {
                old(self).change_direction_counter + 1
            },
            old(self).move_counter < 1 ==> final(self).pos() == old(self).pos(),
            (old(self).move_counter < 1 && old(self).change_direction_counter < 2) ==> final(self).direction == old(self).direction,
            old(self).move_counter >= 1 ==> (exists|d: Direction|
                (old(self).change_direction_counter < 2 ==> d == old(self).direction)
                    && #[trigger] bounce_step(
                    width as int,
                    height as int,
                    old(self).pos(),
                    d,
                    final(self).pos(),
                    final(self).direction,
                )),
            final(self).pos() == old(self).pos() || adjacent(final(self).pos(), old(self).pos()),
    {
        self.change_direction_counter = self.change_direction_counter + 1;

        if self.change_direction_counter >= 3 {
            if random_in_range(0, 100) < 30 {
                let idx = random_in_range(0, 4);
                self.direction = if idx == 0 {
                    Direction::Up
                } else if idx == 1 {
                    Direction::Down
                } else if idx == 2 {
                    Direction::Left
                } else {
                    Direction::Right
                };
            }
            self.change_direction_counter = 0;
        }

        self.move_counter = self.move_counter + 1;
        if self.move_counter >= 2 {
            self.move_counter = 0;
            let ghost drawn = self.direction;

            match self.direction {
                Direction::Up => {
                    if self.y > 1 {
                        self.y = self.y - 1;
                    } else {
                        self.direction = Direction::Down;
                    }
                },
                Direction::Down => {
                    if self.y < height - 2 {
                        self.y = self.y + 1;
                    } else {
                        self.direction = Direction::Up;
                    }
                },
                Direction::Left => {
                    if self.x > 1 {
                        self.x = self.x - 1;
                    } else {
                        self.direction = Direction::Right;
                    }
                },
                Direction::Right => {
                    if self.x < width - 2 {
                        self.x = self.x + 1;
                    } else {
                        self.direction = Direction::Left;
                    }
                },
            }
            proof {
                assert(bounce_step(
                    width as int,
                    height as int,
                    old(self).pos(),
                    drawn,
                    self.pos(),
                    self.direction,
                ));
            }
        }
    }
}

} // verus!
