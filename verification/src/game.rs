use vstd::prelude::*;

verus! {

use crate::snake::{Snake, Direction, Block, step_block, adjacent};
use crate::enemy::Enemy;
use crate::menu::GameMode;
use crate::in_interior;

/// Milliseconds the game-over screen stays up before a return to the menu
/// is offered.
pub const RESTART_TIME: u64 = 3000;

/// Foods that must be eaten to advance one level.
pub const FOOD_PER_LEVEL: u64 = 5;

/// Milliseconds between two enemy movement rounds, independent of the
/// snakes' movement period.
pub const ENEMY_MOVE_PERIOD: u64 = 300;

/// Score awarded for one food before any multiplier.
pub const BASE_FOOD_SCORE: u64 = 10;

/// Milliseconds an armed score multiplier lasts.
pub const MULTIPLIER_DURATION: u64 = 15000;

/// Bound on the rejection-sampling attempts of the placement sampler.
pub const MAX_SPAWN_ATTEMPTS: u32 = 100;

/// Which of the two snakes an input intent is aimed at.
#[derive(Clone, Copy, PartialEq, Eq, Structural, Debug)]
pub enum PlayerId {
    One,
    Two,
}

/// Refusal of degenerate construction parameters: the grid must leave room
/// for both initial snakes inside the walls.
#[derive(Clone, Copy, PartialEq, Eq, Structural, Debug)]
pub enum GridError {
    TooSmall,
}

/// `a + b`, stopping at the largest representable value; used for the time
/// accumulators and counters, which have no natural upper bound.
pub open spec fn sat_add_spec(a: u64, b: u64) -> u64 {
    if a + b > u64::MAX {
        u64::MAX as u64
    } else {
        (a + b) as u64
    }
}

pub(crate) fn sat_add(a: u64, b: u64) -> (r: u64)
    ensures
        r == sat_add_spec(a, b),
{
    if a <= u64::MAX - b {
        a + b
    } else {
        u64::MAX
    }
}

/// `a * b`, stopping at the largest representable value.
pub open spec fn sat_mul_spec(a: u64, b: u64) -> u64 {
    if a * b > u64::MAX {
        u64::MAX as u64
    } else {
        (a * b) as u64
    }
}

pub(crate) fn sat_mul(a: u64, b: u64) -> (r: u64)
    ensures
        r == sat_mul_spec(a, b),
{
    match a.checked_mul(b) {
        Some(v) => v,
        None => u64::MAX,
    }
}

/// The level a cumulative food count puts the session at: one level per
/// five foods, starting at level one. Never decreasing in the count.
pub open spec fn level_of(foods: u64) -> int {
    foods as int / FOOD_PER_LEVEL as int + 1
}

/// Level monotonicity law: the level derived from the foods-eaten counter
/// never decreases as the counter grows.
pub proof fn lemma_level_monotone(f1: u64, f2: u64)
    requires
        f1 <= f2,
    ensures
        level_of(f1) <= level_of(f2),
{
    assert(f1 as int / 5 <= f2 as int / 5) by (nonlinear_arith)
        requires 0 <= f1 <= f2,
    ;
}

/// The movement period in milliseconds at a given level: the mode's base
/// period divided by (1 + level * acceleration), so that the game speeds up
/// smoothly as the level rises.
pub open spec fn moving_period_spec(mode: GameMode, level: u64) -> int {
    (mode.base_speed_spec() * 100) / sat_add_spec(
        100,
        sat_mul_spec(level, mode.speed_multiplier_spec()),
    ) as int
}

/// How many hostile entities the session aims to keep alive at a level:
/// one more at every second level, capped at four.
pub open spec fn target_enemy_count_spec(level: u64) -> int {
    if level <= 2 {
        1
    } else if level <= 4 {
        2
    } else if level <= 6 {
        3
    } else {
        4
    }
}

/// The three multiplier fields stay exactly as they are.
pub open spec fn multiplier_untouched(a: Game, b: Game) -> bool {
    &&& b.score_multiplier == a.score_multiplier
    &&& b.multiplier_timer == a.multiplier_timer
    &&& b.multiplier_duration == a.multiplier_duration
}

/// The score multiplier gets armed, which an eating event may do only in
/// hard mode and only while no multiplier is active.
pub open spec fn multiplier_armed(a: Game, b: Game) -> bool {
    &&& a.game_mode is Hard
    &&& a.score_multiplier == 1
    &&& b.score_multiplier == 2
    &&& b.multiplier_duration == MULTIPLIER_DURATION
    &&& b.multiplier_timer == 0
}

/// One full game session: two snakes, at most one food, a set of hostile
/// entities, scores, level, pacing accumulators and the mode policy chosen
/// at construction.
pub struct Game {
    pub snake1: Snake,
    pub snake2: Snake,

    pub food_exist: bool,
    pub food_x: i32,
    pub food_y: i32,

    pub width: i32,
    pub height: i32,

    pub game_over: bool,
    pub waiting_time: u64,

    pub score1: u64,
    pub score2: u64,
    pub level: u64,
    pub foods_eaten: u64,

    pub game_mode: GameMode,
    pub final_score: u64,
    pub final_level: u64,

    pub game_time: u64,
    pub time_limit: u64,

    pub high_score: u64,

    pub enemies: Vec<Enemy>,
    pub enemy_move_time: u64,

    pub score_multiplier: u64,
    pub multiplier_timer: u64,
    pub multiplier_duration: u64,
}

/// The grid can host the two initial snakes, eight cells to each side of
/// the center, inside the one-cell wall border.
pub open spec fn dims_ok(width: int, height: int) -> bool {
    width >= 19 && height >= 3
}

impl Game {
    pub open spec fn food_block(self) -> Block {
        Block { x: self.food_x, y: self.food_y }
    }

    /// Some hostile entity stands on `b`.
    pub open spec fn enemy_at(self, b: Block) -> bool {
        exists|k: int| 0 <= k < self.enemies@.len() && (#[trigger] self.enemies@[k]).pos() == b
    }

    /// `b` collides with a snake body, an enemy, or the present food.
    pub open spec fn occupied(self, b: Block) -> bool {
        ||| self.snake1.body@.contains(b)
        ||| self.snake2.body@.contains(b)
        ||| self.enemy_at(b)
        ||| (self.food_exist && self.food_block() == b)
    }

    /// `b` is a legal cell for a snake to move onto: inside the walls, on
    /// neither body and on no enemy.
    pub open spec fn cell_free_for_move(self, b: Block) -> bool {
        &&& !self.snake1.body@.contains(b)
        &&& !self.snake2.body@.contains(b)
        &&& !self.enemy_at(b)
        &&& in_interior(self.width as int, self.height as int, b.x as int, b.y as int)
    }

    pub open spec fn snake_in_interior(self, s: Snake) -> bool {
        forall|b: Block| #[trigger]
            s.body@.contains(b) ==> in_interior(
                self.width as int,
                self.height as int,
                b.x as int,
                b.y as int,
            )
    }

    /// Everything the session keeps invariant except the food conditions:
    /// legal dimensions, well-formed snakes inside the walls and mutually
    /// disjoint, well-formed enemies inside the walls, the level derived
    /// exactly from the foods eaten, and the multiplier rules of the mode.
    pub open spec fn wf_core(self) -> bool {
        &&& dims_ok(self.width as int, self.height as int)
        &&& self.snake1.wf()
        &&& self.snake2.wf()
        &&& self.snake_in_interior(self.snake1)
        &&& self.snake_in_interior(self.snake2)
        &&& (forall|b: Block| #[trigger]
            self.snake1.body@.contains(b) ==> !self.snake2.body@.contains(b))
        &&& (forall|k: int|
            0 <= k < self.enemies@.len() ==> ((#[trigger] self.enemies@[k]).wf() && in_interior(
                self.width as int,
                self.height as int,
                self.enemies@[k].x as int,
                self.enemies@[k].y as int,
            )))
        &&& self.level as int == level_of(self.foods_eaten)
        &&& 1 <= self.score_multiplier <= 2
        &&& (!(self.game_mode is Hard) ==> self.score_multiplier == 1)
        &&& self.time_limit == self.game_mode.time_limit_spec()
    }

    /// Full well-formedness: additionally, the food, while it exists, lies
    /// inside the walls and on neither snake body.
    pub open spec fn wf(self) -> bool {
        &&& self.wf_core()
        &&& self.food_exist ==> (in_interior(
            self.width as int,
            self.height as int,
            self.food_x as int,
            self.food_y as int,
        ) && !self.snake1.body@.contains(self.food_block())
            && !self.snake2.body@.contains(self.food_block()))
    }

    pub open spec fn initial_snake1_body(width: i32, height: i32) -> Seq<Block> {
        let cx = width as int / 2;
        let cy = (height as int / 2) as i32;
        seq![
            (Block { x: (cx - 6) as i32, y: cy }),
            (Block { x: (cx - 7) as i32, y: cy }),
            (Block { x: (cx - 8) as i32, y: cy }),
        ]
    }

    pub open spec fn initial_snake2_body(width: i32, height: i32) -> Seq<Block> {
        let cx = width as int / 2;
        let cy = (height as int / 2) as i32;
        seq![
            (Block { x: (cx + 6) as i32, y: cy }),
            (Block { x: (cx + 7) as i32, y: cy }),
            (Block { x: (cx + 8) as i32, y: cy }),
        ]
    }

    /// The state every session starts from and returns to on restart:
    /// everything reset except the running high score.
    pub open spec fn is_initial(self, width: i32, height: i32, mode: GameMode) -> bool {
        &&& self.width == width
        &&& self.height == height
        &&& self.game_mode == mode
        &&& self.snake1.body@ =~= Self::initial_snake1_body(width, height)
        &&& self.snake1.direction == Direction::Right
        &&& self.snake1.last_tail is None
        &&& self.snake2.body@ =~= Self::initial_snake2_body(width, height)
        &&& self.snake2.direction == Direction::Left
        &&& self.snake2.last_tail is None
        &&& !self.food_exist
        &&& self.food_x == 0
        &&& self.food_y == 0
        &&& !self.game_over
        &&& self.waiting_time == 0
        &&& self.score1 == 0
        &&& self.score2 == 0
        &&& self.level == 1
        &&& self.foods_eaten == 0
        &&& self.final_score == 0
        &&& self.final_level == 1
        &&& self.game_time == 0
        &&& self.time_limit == mode.time_limit_spec()
        &&& self.enemies@.len() == 0
        &&& self.enemy_move_time == 0
        &&& self.score_multiplier == 1
        &&& self.multiplier_timer == 0
        &&& self.multiplier_duration == 0
    }

    /// A fresh session. Degenerate dimensions are refused outright rather
    /// than producing a session whose initial snakes stand in a wall.
    pub fn new(width: i32, height: i32, game_mode: GameMode) -> (r: Result<Game, GridError>)
        ensures
            r is Ok <==> dims_ok(width as int, height as int),
            r matches Ok(g) ==> g.wf() && g.is_initial(width, height, game_mode) && g.high_score
                == 0,
    {
        if !(width >= 19 && height >= 3) {
            return Err(GridError::TooSmall);
        }
        let time_limit = game_mode.get_time_limit();
        let center_x = width / 2;
        let center_y = height / 2;
        let snake1 = Snake::new(center_x - 8, center_y);
        let snake2 = Snake::new_left(center_x + 8, center_y);
        let g = Game {
            snake1,
            snake2,
            waiting_time: 0,
            food_exist: false,
            food_x: 0,
            food_y: 0,
            width,
            height,
            game_over: false,
            score1: 0,
            score2: 0,
            level: 1,
            foods_eaten: 0,
            game_mode,
            final_score: 0,
            final_level: 1,
            game_time: 0,
            time_limit,
            high_score: 0,
            enemies: Vec::new(),
            enemy_move_time: 0,
            score_multiplier: 1,
            multiplier_timer: 0,
            multiplier_duration: 0,
        };
        Ok(g)
    }

    /// Reset the session to its initial state under the same mode and
    /// dimensions, keeping only the running high score.
    pub fn restart_game(&mut self)
        requires
            old(self).wf(),
        ensures
            final(self).wf(),
            final(self).is_initial(old(self).width, old(self).height, old(self).game_mode),
            final(self).high_score == old(self).high_score,
    {
        let center_x = self.width / 2;
        let center_y = self.height / 2;
        self.snake1 = Snake::new(center_x - 8, center_y);
        self.snake2 = Snake::new_left(center_x + 8, center_y);
        self.waiting_time = 0;
        self.food_exist = false;
        self.food_x = 0;
        self.food_y = 0;
        self.game_over = false;
        self.score1 = 0;
        self.score2 = 0;
        self.level = 1;
        self.foods_eaten = 0;
        self.final_score = 0;
        self.final_level = 1;
        self.game_time = 0;
        self.enemies = Vec::new();
        self.enemy_move_time = 0;
        self.score_multiplier = 1;
        self.multiplier_timer = 0;
        self.multiplier_duration = 0;
    }

    /// True once the session is terminal and the post-terminal grace
    /// period has elapsed.
    pub fn should_return_to_menu(&self) -> (r: bool)
        ensures
            r == (self.game_over && self.waiting_time > RESTART_TIME),
    {
        self.game_over && self.waiting_time > RESTART_TIME
    }

    /// The better of the two players' scores.
    pub fn get_score(&self) -> (r: u64)
        ensures
            r == if self.score1 >= self.score2 {
                self.score1
            } else {
                self.score2
            },
    {
        if self.score1 >= self.score2 {
            self.score1
        } else {
            self.score2
        }
    }

    pub fn get_level(&self) -> (r: u64)
        ensures
            r == self.level,
    {
        self.level
    }

    pub fn is_game_over(&self) -> (r: bool)
        ensures
            r == self.game_over,
    {
        self.game_over
    }

    /// Whether (x, y) collides with any current occupant: a snake body
    /// cell, a hostile entity, or the food while it exists.
    pub fn is_cell_occupied(&self, x: i32, y: i32) -> (r: bool)
        ensures
            r == self.occupied((Block { x, y })),
    {
        if self.snake1.overlap_tail(x, y) {
            return true;
        }
        if self.snake2.overlap_tail(x, y) {
            return true;
        }
        let mut k: usize = 0;
        while k < self.enemies.len()
            invariant
                0 <= k <= self.enemies@.len(),
                forall|j: int| 0 <= j < k ==> (#[trigger] self.enemies@[j]).pos() != (Block {
                    x,
                    y,
                }),
            decreases self.enemies@.len() - k,
        {
            if self.enemies[k].check_collision(x, y) {
                assert(self.enemies@[k as int].pos() == (Block { x, y }));
                return true;
            }
            k = k + 1;
        }
        if self.food_exist && self.food_x == x && self.food_y == y {
            return true;
        }
        false
    }

    /// The placement sampler. A candidate cell is drawn uniformly from the
    /// interior and redrawn while it collides with an occupant, up to a
    /// fixed bound of attempts; after that the interior is scanned
    /// deterministically for its first free cell, so the call terminates
    /// even on a nearly full grid. `None` comes back only when every
    /// interior cell is occupied.
    pub fn sample_free_cell(&self) -> (r: Option<(i32, i32)>)
        requires
            self.wf(),
        ensures
            match r {
                Some(c) => in_interior(self.width as int, self.height as int, c.0 as int, c.1 as int)
                    && !self.occupied((Block { x: c.0, y: c.1 })),
                None => forall|b: Block|
                    in_interior(self.width as int, self.height as int, b.x as int, b.y as int)
                        ==> #[trigger] self.occupied(b),
            },
    {
        let mut attempts: u32 = 0;
        while attempts < MAX_SPAWN_ATTEMPTS
            invariant
                self.wf(),
            decreases MAX_SPAWN_ATTEMPTS - attempts,
        {
            let x = crate::random::random_in_range(1, self.width - 1);
            let y = crate::random::random_in_range(1, self.height - 1);
            if !self.is_cell_occupied(x, y) {
                return Some((x, y));
            }
            attempts = attempts + 1;
        }

        let mut y: i32 = 1;
        while y < self.height - 1
            invariant
                self.wf(),
                1 <= y <= self.height - 1,
                forall|b: Block|
                    in_interior(self.width as int, self.height as int, b.x as int, b.y as int)
                        && b.y < y ==> #[trigger] self.occupied(b),
            decreases self.height - 1 - y,
        {
            let mut x: i32 = 1;
            while x < self.width - 1
                invariant
                    self.wf(),
                    1 <= y < self.height - 1,
                    1 <= x <= self.width - 1,
                    forall|b: Block|
                        in_interior(self.width as int, self.height as int, b.x as int, b.y as int)
                            && b.y < y ==> #[trigger] self.occupied(b),
                    forall|b: Block|
                        b.y == y && 1 <= b.x < x ==> #[trigger] self.occupied(b),
                decreases self.width - 1 - x,
            {
                if !self.is_cell_occupied(x, y) {
                    return Some((x, y));
                }
                x = x + 1;
            }
            y = y + 1;
        }
        None
    }

    /// Place the food on a freshly sampled free cell. When the interior is
    /// completely occupied, no food appears and the state is unchanged.
    fn add_food(&mut self)
        requires
            old(self).wf(),
            !old(self).food_exist,
        ensures
            final(self).wf(),
            *final(self) == (Game {
                food_exist: final(self).food_exist,
                food_x: final(self).food_x,
                food_y: final(self).food_y,
                ..*old(self)
            }),
            final(self).food_exist ==> (in_interior(
                old(self).width as int,
                old(self).height as int,
                final(self).food_x as int,
                final(self).food_y as int,
            ) && !old(self).occupied(final(self).food_block())),
            !final(self).food_exist ==> *final(self) == *old(self) && (forall|b: Block|
                in_interior(old(self).width as int, old(self).height as int, b.x as int, b.y as int)
                    ==> #[trigger] old(self).occupied(b)),
    {
        match self.sample_free_cell() {
            Some((x, y)) => {
                self.food_x = x;
                self.food_y = y;
                self.food_exist = true;
            },
            None => {},
        }
    }

    /// Spawn one hostile entity on a freshly sampled free cell. Success is
    /// owed: the spawn is refused, changing nothing, only when every
    /// interior cell is occupied.
    fn spawn_enemy(&mut self) -> (r: bool)
        requires
            old(self).wf(),
        ensures
            final(self).wf(),
            *final(self) == (Game { enemies: final(self).enemies, ..*old(self) }),
            r ==> (final(self).enemies@.len() == old(self).enemies@.len() + 1
                && final(self).enemies@.drop_last() =~= old(self).enemies@
                && !old(self).occupied(final(self).enemies@.last().pos())),
            !r ==> (*final(self) == *old(self) && (forall|b: Block|
                in_interior(old(self).width as int, old(self).height as int, b.x as int, b.y as int)
                    ==> #[trigger] old(self).occupied(b))),
    {
        match self.sample_free_cell() {
            Some((x, y)) => {
                self.enemies.push(Enemy::new(x, y));
                true
            },
            None => false,
        }
    }

    /// The points one food is worth to the first player right now: the
    /// base score, doubled while a multiplier is armed in hard mode.
    pub open spec fn award_spec(self) -> u64 {
        if self.game_mode is Hard {
            (BASE_FOOD_SCORE * self.score_multiplier) as u64
        } else {
            BASE_FOOD_SCORE
        }
    }

    pub open spec fn max_score_spec(self) -> u64 {
        if self.score1 >= self.score2 {
            self.score1
        } else {
            self.score2
        }
    }

    pub open spec fn player_snake(self, player: PlayerId) -> Snake {
        match player {
            PlayerId::One => self.snake1,
            PlayerId::Two => self.snake2,
        }
    }

    /// Raise the level to the one the foods-eaten counter prescribes; the
    /// level never goes down.
    fn update_level(&mut self)
        requires
            old(self).level as int <= level_of(old(self).foods_eaten),
        ensures
            *final(self) == (Game { level: final(self).level, ..*old(self) }),
            final(self).level as int == level_of(old(self).foods_eaten),
    {
        let new_level = self.foods_eaten / FOOD_PER_LEVEL + 1;
        if new_level > self.level {
            self.level = new_level;
        }
    }

    /// The eating check run right after one snake has moved: if the moved
    /// snake's head landed on the food, the food is consumed, the tail cell
    /// just vacated is restored (growing the body by exactly one), the
    /// score and the foods-eaten counter rise and the level is recomputed;
    /// in hard mode the first player's eating event may additionally arm
    /// the score multiplier at random.
    /// The multiplier-arming decision applied to one uniform draw from
    /// 0..100: arming happens exactly when the draw falls below ten while
    /// the mode is hard and no multiplier is active; any other state is
    /// left untouched, so an active multiplier is never overwritten and no
    /// other mode ever arms one.
    pub fn apply_multiplier_roll(&mut self, roll: i32)
        ensures
            (old(self).game_mode is Hard && roll < 10 && old(self).score_multiplier == 1)
                ==> *final(self) == (Game {
                score_multiplier: 2,
                multiplier_duration: MULTIPLIER_DURATION,
                multiplier_timer: 0,
                ..*old(self)
            }),
            !(old(self).game_mode is Hard && roll < 10 && old(self).score_multiplier == 1)
                ==> *final(self) == *old(self),
    {
        if matches!(self.game_mode, GameMode::Hard) && roll < 10 && self.score_multiplier == 1 {
            self.score_multiplier = 2;
            self.multiplier_duration = MULTIPLIER_DURATION;
            self.multiplier_timer = 0;
        }
    }

    /// The first player's eating event: consume the food, restore the tail
    /// cell the last move vacated, add the (possibly multiplied) award,
    /// count the food and recompute the level; in hard mode a low-chance
    /// draw may arm the score multiplier.
    fn eat_food1(&mut self)
        requires
            old(self).wf_core(),
            old(self).food_exist,
            old(self).food_block() == old(self).snake1.head(),
            old(self).snake1.last_tail matches Some(t) && in_interior(
                old(self).width as int,
                old(self).height as int,
                t.x as int,
                t.y as int,
            ) && !old(self).snake2.body@.contains(t),
        ensures
            final(self).wf(),
            non_eating_fields_unchanged(*old(self), *final(self)),
            eats1(*old(self), *final(self)),
    {
        self.food_exist = false;
        self.snake1.restore_tail();

        let awarded = if matches!(self.game_mode, GameMode::Hard) {
            BASE_FOOD_SCORE * self.score_multiplier
        } else {
            BASE_FOOD_SCORE
        };
        self.score1 = sat_add(self.score1, awarded);

        if matches!(self.game_mode, GameMode::Hard) {
            let roll = crate::random::random_in_range(0, 100);
            self.apply_multiplier_roll(roll);
        }

        self.foods_eaten = sat_add(self.foods_eaten, 1);
        proof {
            lemma_level_monotone(old(self).foods_eaten, self.foods_eaten);
        }
        self.update_level();
        proof {
            let t = old(self).snake1.last_tail.unwrap();
            assert forall|b: Block| #[trigger] self.snake1.body@.contains(b) implies (in_interior(
                self.width as int,
                self.height as int,
                b.x as int,
                b.y as int,
            ) && !self.snake2.body@.contains(b)) by {
                let i = choose|i: int|
                    0 <= i < self.snake1.body@.len() && self.snake1.body@[i] == b;
                if i < old(self).snake1.body@.len() {
                    assert(old(self).snake1.body@.contains(b));
                } else {
                    assert(b == t);
                }
            }
        }
    }

    /// The second player's eating event: as for the first player, but
    /// always for the base score and never arming the multiplier.
    fn eat_food2(&mut self)
        requires
            old(self).wf_core(),
            old(self).food_exist,
            old(self).food_block() == old(self).snake2.head(),
            old(self).snake2.last_tail matches Some(t) && in_interior(
                old(self).width as int,
                old(self).height as int,
                t.x as int,
                t.y as int,
            ) && !old(self).snake1.body@.contains(t),
        ensures
            final(self).wf(),
            non_eating_fields_unchanged(*old(self), *final(self)),
            eats2(*old(self), *final(self)),
    {
        self.food_exist = false;
        self.snake2.restore_tail();
        self.score2 = sat_add(self.score2, BASE_FOOD_SCORE);
        self.foods_eaten = sat_add(self.foods_eaten, 1);
        proof {
            lemma_level_monotone(old(self).foods_eaten, self.foods_eaten);
        }
        self.update_level();
        proof {
            let t = old(self).snake2.last_tail.unwrap();
            assert forall|b: Block| #[trigger] self.snake2.body@.contains(b) implies (in_interior(
                self.width as int,
                self.height as int,
                b.x as int,
                b.y as int,
            ) && !self.snake1.body@.contains(b)) by {
                let i = choose|i: int|
                    0 <= i < self.snake2.body@.len() && self.snake2.body@[i] == b;
                if i < old(self).snake2.body@.len() {
                    assert(old(self).snake2.body@.contains(b));
                } else {
                    assert(b == t);
                }
            }
            assert forall|b: Block| #[trigger] self.snake1.body@.contains(b) implies !self.snake2.body@.contains(b) by {
                assert(!old(self).snake2.body@.contains(b));
                assert(b != t);
            }
        }
    }

    /// The eating check run right after one snake has moved: the snake
    /// whose head stands on the food eats it. The food is a single flag,
    /// so at most one snake can eat per movement.
    fn check_eating(&mut self)
        requires
            old(self).wf_core(),
            old(self).food_exist ==> in_interior(
                old(self).width as int,
                old(self).height as int,
                old(self).food_x as int,
                old(self).food_y as int,
            ),
            (old(self).food_exist && old(self).food_block() == old(self).snake1.head()) ==> (
            old(self).snake1.last_tail matches Some(t) && in_interior(
                old(self).width as int,
                old(self).height as int,
                t.x as int,
                t.y as int,
            ) && !old(self).snake2.body@.contains(t)),
            (old(self).food_exist && old(self).food_block() == old(self).snake2.head()) ==> (
            old(self).snake2.last_tail matches Some(t) && in_interior(
                old(self).width as int,
                old(self).height as int,
                t.x as int,
                t.y as int,
            ) && !old(self).snake1.body@.contains(t)),
            (old(self).food_exist && old(self).food_block() != old(self).snake1.head() && old(self).food_block() != old(self).snake2.head()) ==> (!old(self).snake1.body@.contains(
                old(self).food_block(),
            ) && !old(self).snake2.body@.contains(old(self).food_block())),
        ensures
            final(self).wf(),
            non_eating_fields_unchanged(*old(self), *final(self)),
            (old(self).food_exist && old(self).food_block() == old(self).snake1.head()) ==> eats1(
                *old(self),
                *final(self),
            ),
            (old(self).food_exist && old(self).food_block() == old(self).snake2.head() && old(self).food_block() != old(self).snake1.head()) ==> eats2(*old(self), *final(self)),
            (!old(self).food_exist || (old(self).food_block() != old(self).snake1.head() && old(self).food_block() != old(self).snake2.head())) ==> *final(self) == *old(self),
    {
        let (head1_x, head1_y) = self.snake1.head_position();
        let (head2_x, head2_y) = self.snake2.head_position();

        if self.food_exist && self.food_x == head1_x && self.food_y == head1_y {
            self.eat_food1();
            return ;
        }

        if self.food_exist && self.food_x == head2_x && self.food_y == head2_y {
            self.eat_food2();
        }
    }

    /// The look-ahead of the terminal-transition rule: whether `snake`
    /// survives moving along `dir`, that is, whether its next head cell
    /// hits neither body, no enemy and no wall. Nothing is mutated.
    fn check_if_snake_alive(
        &self,
        snake: &Snake,
        other_snake: &Snake,
        dir: Option<Direction>,
    ) -> (r: bool)
        requires
            dims_ok(self.width as int, self.height as int),
            snake.wf(),
            i32::MIN < snake.head().x < i32::MAX,
            i32::MIN < snake.head().y < i32::MAX,
        ensures
            r == ({
                let nb = step_block(snake.head(), snake.lookahead_dir(dir));
                !snake.body@.contains(nb) && !other_snake.body@.contains(nb) && !self.enemy_at(nb)
                    && in_interior(self.width as int, self.height as int, nb.x as int, nb.y as int)
            }),
    {
        let (next_x, next_y) = snake.next_head(dir);
        assert((Block { x: next_x, y: next_y }) == step_block(
            snake.head(),
            snake.lookahead_dir(dir),
        ));

        if snake.overlap_tail(next_x, next_y) {
            return false;
        }

        if other_snake.overlap_tail(next_x, next_y) {
            return false;
        }

        let mut k: usize = 0;
        while k < self.enemies.len()
            invariant
                0 <= k <= self.enemies@.len(),
                (Block { x: next_x, y: next_y }) == step_block(
                    snake.head(),
                    snake.lookahead_dir(dir),
                ),
                forall|j: int| 0 <= j < k ==> (#[trigger] self.enemies@[j]).pos() != (Block {
                    x: next_x,
                    y: next_y,
                }),
            decreases self.enemies@.len() - k,
        {
            if self.enemies[k].check_collision(next_x, next_y) {
                assert(self.enemies@[k as int].pos() == (Block { x: next_x, y: next_y }));
                assert(self.enemy_at((Block { x: next_x, y: next_y })));
                return false;
            }
            k = k + 1;
        }

        next_x > 0 && next_y > 0 && next_x < self.width - 1 && next_y < self.height - 1
    }

    /// Attempt the first player's move: look ahead, then either commit the
    /// move and run the eating check, or transition to the terminal state
    /// without occupying the illegal cell.
    fn update_snake1(&mut self, dir: Option<Direction>)
        requires
            old(self).wf(),
            dir matches Some(d) ==> d != old(self).snake1.direction.opp(),
        ensures
            final(self).wf(),
            step_outcome1(*old(self), *final(self), dir),
    {
        proof {
            assert(old(self).snake1.body@.contains(old(self).snake1.head()));
            assert(old(self).snake1.lookahead_dir(dir) == old(self).snake1.resolved_dir(dir));
        }
        let alive = self.check_if_snake_alive(&self.snake1, &self.snake2, dir);
        if alive {
            let ghost nb = step_block(old(self).snake1.head(), old(self).snake1.resolved_dir(dir));
            proof {
                assert(old(self).snake1.body@.contains(old(self).snake1.body@.last()));
            }
            self.snake1.move_forward(dir);
            proof {
                assert forall|b: Block| #[trigger] self.snake1.body@.contains(b) implies (b == nb
                    || old(self).snake1.body@.contains(b)) by {
                    let i = choose|i: int|
                        0 <= i < self.snake1.body@.len() && self.snake1.body@[i] == b;
                    if i > 0 {
                        assert(old(self).snake1.body@[i - 1] == b);
                        assert(old(self).snake1.body@.contains(b));
                    }
                }
                assert(self.snake1.head() == nb);
                assert(old(self).snake2.body@.contains(old(self).snake2.head()));
            }
            self.check_eating();
            proof {
                if old(self).food_exist && old(self).food_block() == nb {
                    assert(old(self).snake1.body@.drop_last().push(old(self).snake1.body@.last())
                        =~= old(self).snake1.body@);
                    assert(self.snake1.body@ =~= seq![nb] + old(self).snake1.body@);
                }
            }
        } else {
            self.game_over = true;
            let max_score = if self.score1 >= self.score2 {
                self.score1
            } else {
                self.score2
            };
            self.final_score = max_score;
            self.final_level = self.level;
            if matches!(self.game_mode, GameMode::Survival) {
                if max_score > self.high_score {
                    self.high_score = max_score;
                }
            }
        }
    }

    /// Attempt the second player's move, under the same rule.
    fn update_snake2(&mut self, dir: Option<Direction>)
        requires
            old(self).wf(),
            dir matches Some(d) ==> d != old(self).snake2.direction.opp(),
        ensures
            final(self).wf(),
            step_outcome2(*old(self), *final(self), dir),
    {
        proof {
            assert(old(self).snake2.body@.contains(old(self).snake2.head()));
            assert(old(self).snake2.lookahead_dir(dir) == old(self).snake2.resolved_dir(dir));
        }
        let alive = self.check_if_snake_alive(&self.snake2, &self.snake1, dir);
        if alive {
            let ghost nb = step_block(old(self).snake2.head(), old(self).snake2.resolved_dir(dir));
            proof {
                assert(old(self).snake2.body@.contains(old(self).snake2.body@.last()));
            }
            self.snake2.move_forward(dir);
            proof {
                assert forall|b: Block| #[trigger] self.snake2.body@.contains(b) implies (b == nb
                    || old(self).snake2.body@.contains(b)) by {
                    let i = choose|i: int|
                        0 <= i < self.snake2.body@.len() && self.snake2.body@[i] == b;
                    if i > 0 {
                        assert(old(self).snake2.body@[i - 1] == b);
                        assert(old(self).snake2.body@.contains(b));
                    }
                }
                assert(self.snake2.head() == nb);
                assert(old(self).snake1.body@.contains(old(self).snake1.head()));
            }
            self.check_eating();
            proof {
                if old(self).food_exist && old(self).food_block() == nb {
                    assert(old(self).snake2.body@.drop_last().push(old(self).snake2.body@.last())
                        =~= old(self).snake2.body@);
                    assert(self.snake2.body@ =~= seq![nb] + old(self).snake2.body@);
                }
            }
        } else {
            self.game_over = true;
            let max_score = if self.score1 >= self.score2 {
                self.score1
            } else {
                self.score2
            };
            self.final_score = max_score;
            self.final_level = self.level;
            if matches!(self.game_mode, GameMode::Survival) {
                if max_score > self.high_score {
                    self.high_score = max_score;
                }
            }
        }
    }

    /// Apply a directional intent from input at the time of key receipt.
    /// Nothing happens while the session is terminal; an intent that is
    /// the exact reverse of the player's current heading is dropped
    /// outright, so submitting it any number of times neither changes the
    /// heading nor ends the session; any other intent moves that player's
    /// snake at once, under the terminal-transition rule.
    pub fn key_pressed(&mut self, player: PlayerId, dir: Direction)
        requires
            old(self).wf(),
        ensures
            final(self).wf(),
            old(self).game_over ==> *final(self) == *old(self),
            (!old(self).game_over && dir == old(self).player_snake(player).direction.opp())
                ==> *final(self) == *old(self),
            (!old(self).game_over && dir != old(self).player_snake(player).direction.opp()
                && player is One) ==> step_outcome1(*old(self), *final(self), Some(dir)),
            (!old(self).game_over && dir != old(self).player_snake(player).direction.opp()
                && player is Two) ==> step_outcome2(*old(self), *final(self), Some(dir)),
    {
        if self.game_over {
            return ;
        }
        match player {
            PlayerId::One => {
                let rev = self.snake1.head_direction().opposite();
                if dir != rev {
                    self.update_snake1(Some(dir));
                }
            },
            PlayerId::Two => {
                let rev = self.snake2.head_direction().opposite();
                if dir != rev {
                    self.update_snake2(Some(dir));
                }
            },
        }
    }

    /// Put the food on the given cell, for scripted play: refused, with
    /// nothing changed, unless the cell is inside the walls and free.
    pub fn place_food(&mut self, x: i32, y: i32) -> (r: bool)
        requires
            old(self).wf(),
        ensures
            final(self).wf(),
            r == (in_interior(old(self).width as int, old(self).height as int, x as int, y as int)
                && !old(self).occupied((Block { x, y }))),
            r ==> *final(self) == (Game {
                food_exist: true,
                food_x: x,
                food_y: y,
                ..*old(self)
            }),
            !r ==> *final(self) == *old(self),
    {
        if x > 0 && y > 0 && x < self.width - 1 && y < self.height - 1 && !self.is_cell_occupied(
            x,
            y,
        ) {
            self.food_x = x;
            self.food_y = y;
            self.food_exist = true;
            true
        } else {
            false
        }
    }

    /// Arm the score multiplier exactly as a lucky eating event would:
    /// only in hard mode and only while no multiplier is active; any other
    /// state is left untouched.
    pub fn arm_multiplier(&mut self)
        requires
            old(self).wf(),
        ensures
            final(self).wf(),
            (old(self).game_mode is Hard && old(self).score_multiplier == 1) ==> *final(self) == (
            Game {
                score_multiplier: 2,
                multiplier_duration: MULTIPLIER_DURATION,
                multiplier_timer: 0,
                ..*old(self)
            }),
            !(old(self).game_mode is Hard && old(self).score_multiplier == 1) ==> *final(self)
                == *old(self),
    {
        if matches!(self.game_mode, GameMode::Hard) && self.score_multiplier == 1 {
            self.score_multiplier = 2;
            self.multiplier_duration = MULTIPLIER_DURATION;
            self.multiplier_timer = 0;
        }
    }

    /// The middle phases of one tick, between the time accumulation and the
    /// snakes' movement: place a missing food, decay or neutralize the
    /// multiplier, raise the hostile population to the level's target, and
    /// advance the enemies on their own period. Nothing here touches the
    /// snakes, the scores, the level or the terminal flag.
    fn run_mid_phases(&mut self, delta_time: u64)
        requires
            old(self).wf(),
        ensures
            final(self).wf(),
            mid_phases(*old(self), *final(self), delta_time),
            final(self).snake1 == old(self).snake1,
            final(self).snake2 == old(self).snake2,
            final(self).score1 == old(self).score1,
            final(self).score2 == old(self).score2,
            final(self).foods_eaten == old(self).foods_eaten,
            final(self).level == old(self).level,
            final(self).game_over == old(self).game_over,
            final(self).waiting_time == old(self).waiting_time,
            final(self).game_time == old(self).game_time,
            final(self).width == old(self).width,
            final(self).height == old(self).height,
            final(self).game_mode == old(self).game_mode,
            final(self).time_limit == old(self).time_limit,
            final(self).high_score == old(self).high_score,
            final(self).final_score == old(self).final_score,
            final(self).final_level == old(self).final_level,
            final(self).enemies@.len() >= old(self).enemies@.len(),
            final(self).enemies@.len() <= old(self).enemies@.len() || final(self).enemies@.len()
                <= target_enemy_count_spec(old(self).level),
    {
        if !self.food_exist {
            self.add_food();
        }
        let ghost s1 = *self;
        proof {
            assert(food_step(*old(self), s1));
        }

        if matches!(self.game_mode, GameMode::Hard) && self.score_multiplier > 1 {
            self.multiplier_timer = sat_add(self.multiplier_timer, delta_time);
            if self.multiplier_timer >= self.multiplier_duration {
                self.score_multiplier = 1;
                self.multiplier_timer = 0;
            }
        } else if !matches!(self.game_mode, GameMode::Hard) {
            self.score_multiplier = 1;
            self.multiplier_timer = 0;
        }
        proof {
            assert(*self == multiplier_step(s1, delta_time));
        }

        let target_enemy_count: usize = if self.level <= 2 {
            1
        } else if self.level <= 4 {
            2
        } else if self.level <= 6 {
            3
        } else {
            4
        };

        proof {
            assert(target_enemy_count == target_enemy_count_spec(self.level));
        }
        let ghost pre_spawn = *self;
        let mut spawn_blocked = false;
        while !spawn_blocked && self.enemies.len() < target_enemy_count
            invariant
                self.wf(),
                *self == (Game { enemies: self.enemies, ..pre_spawn }),
                self.enemies@.len() >= pre_spawn.enemies@.len(),
                self.enemies@.len() <= pre_spawn.enemies@.len() || self.enemies@.len()
                    <= target_enemy_count as int,
                spawn_blocked ==> (forall|blk: Block|
                    in_interior(self.width as int, self.height as int, blk.x as int, blk.y as int)
                        ==> #[trigger] self.occupied(blk)),
                forall|k: int|
                    pre_spawn.enemies@.len() <= k < self.enemies@.len() ==> {
                        let p = (#[trigger] self.enemies@[k]).pos();
                        &&& !pre_spawn.snake1.body@.contains(p)
                        &&& !pre_spawn.snake2.body@.contains(p)
                        &&& !(pre_spawn.food_exist && pre_spawn.food_block() == p)
                    },
            decreases (if spawn_blocked { 0int } else { 1int }), target_enemy_count - self.enemies@.len(),
        {
            let ghost before = *self;
            let ok = self.spawn_enemy();
            if !ok {
                spawn_blocked = true;
            }
            proof {
                if ok {
                    assert forall|k: int|
                        pre_spawn.enemies@.len() <= k < self.enemies@.len() implies {
                            let p = (#[trigger] self.enemies@[k]).pos();
                            &&& !pre_spawn.snake1.body@.contains(p)
                            &&& !pre_spawn.snake2.body@.contains(p)
                            &&& !(pre_spawn.food_exist && pre_spawn.food_block() == p)
                        } by {
                        if k < before.enemies@.len() {
                            assert(self.enemies@[k] == self.enemies@.drop_last()[k]);
                            assert(self.enemies@[k] == before.enemies@[k]);
                        } else {
                            assert(self.enemies@[k] == self.enemies@.last());
                        }
                    }
                }
            }
        }
        let ghost s2 = *self;
        proof {
            assert(spawn_step(multiplier_step(s1, delta_time), s2));
        }

        self.enemy_move_time = sat_add(self.enemy_move_time, delta_time);
        if self.enemy_move_time > ENEMY_MOVE_PERIOD {
            let ghost pre_enemy = *self;
            let mut i: usize = 0;
            while i < self.enemies.len()
                invariant
                    self.wf(),
                    *self == (Game { enemies: self.enemies, ..pre_enemy }),
                    self.enemies@.len() == pre_enemy.enemies@.len(),
                    0 <= i <= self.enemies@.len(),
                    forall|k: int|
                        0 <= k < i ==> ((#[trigger] self.enemies@[k]).pos()
                            == pre_enemy.enemies@[k].pos() || adjacent(
                            self.enemies@[k].pos(),
                            pre_enemy.enemies@[k].pos(),
                        )),
                    forall|k: int|
                        i <= k < self.enemies@.len() ==> #[trigger] self.enemies@[k]
                            == pre_enemy.enemies@[k],
                decreases self.enemies@.len() - i,
            {
                let w = self.width;
                let h = self.height;
                let mut e = self.enemies[i];
                e.update(w, h);
                self.enemies[i] = e;
                i = i + 1;
            }
            self.enemy_move_time = 0;
        }
        proof {
            assert(enemy_move_step(s2, *self, delta_time));
            assert(mid_phases(*old(self), *self, delta_time));
        }
    }

    /// One simulation tick, driven by the elapsed wall-clock time in
    /// milliseconds. In order: accumulate time; a terminal session only
    /// waits; a timed session expires once its limit is reached, recording
    /// final score and level and the high score; missing food is placed;
    /// the multiplier decays (hard mode) or stays neutral; the hostile
    /// population is raised to the level's target; enemies advance on
    /// their own period; and once the accumulated time exceeds the
    /// movement period both snakes move under the terminal-transition
    /// rule.
    #[verifier::rlimit(40)]
    pub fn update(&mut self, delta_time: u64)
        requires
            old(self).wf(),
        ensures
            final(self).wf(),
            final(self).width == old(self).width && final(self).height == old(self).height,
            final(self).game_mode == old(self).game_mode && final(self).time_limit == old(self).time_limit,
            old(self).game_over ==> *final(self) == (Game {
                waiting_time: sat_add_spec(old(self).waiting_time, delta_time),
                ..*old(self)
            }),
            old(self).game_over ==> final(self).game_over,
            final(self).score1 >= old(self).score1,
            final(self).score2 >= old(self).score2,
            final(self).foods_eaten >= old(self).foods_eaten,
            final(self).level >= old(self).level,
            final(self).high_score >= old(self).high_score,
            final(self).enemies@.len() >= old(self).enemies@.len(),
            final(self).enemies@.len() <= old(self).enemies@.len() || final(self).enemies@.len()
                <= target_enemy_count_spec(old(self).level),
            (!old(self).game_over && old(self).game_mode is Timer) ==> final(self).game_time
                == sat_add_spec(old(self).game_time, delta_time),
            !(old(self).game_mode is Timer) ==> final(self).game_time == old(self).game_time,
            ({
                let expired = !old(self).game_over && old(self).game_mode is Timer && sat_add_spec(
                    old(self).game_time,
                    delta_time,
                ) >= old(self).time_limit;
                expired ==> (final(self).game_over
                    && final(self).final_score == old(self).max_score_spec()
                    && final(self).final_level == old(self).level
                    && final(self).snake1 == old(self).snake1
                    && final(self).snake2 == old(self).snake2
                    && final(self).score1 == old(self).score1
                    && final(self).score2 == old(self).score2
                    && final(self).level == old(self).level
                    && final(self).foods_eaten == old(self).foods_eaten
                    && final(self).food_exist == old(self).food_exist
                    && final(self).food_x == old(self).food_x
                    && final(self).food_y == old(self).food_y
                    && final(self).enemies@ == old(self).enemies@
                    && final(self).enemy_move_time == old(self).enemy_move_time
                    && final(self).waiting_time == sat_add_spec(old(self).waiting_time, delta_time)
                    && multiplier_untouched(*old(self), *final(self))
                    && final(self).high_score == (if old(self).max_score_spec() > old(self).high_score {
                        old(self).max_score_spec()
                    } else {
                        old(self).high_score
                    }))
            }),
            ({
                let expired = !old(self).game_over && old(self).game_mode is Timer && sat_add_spec(
                    old(self).game_time,
                    delta_time,
                ) >= old(self).time_limit;
                let moved = sat_add_spec(old(self).waiting_time, delta_time)
                    > moving_period_spec(old(self).game_mode, old(self).level);
                (!old(self).game_over && !expired) ==> ((final(self).waiting_time == (if moved {
                    0int
                } else {
                    sat_add_spec(old(self).waiting_time, delta_time) as int
                })) && (!moved ==> (final(self).snake1 == old(self).snake1
                    && final(self).snake2 == old(self).snake2
                    && final(self).score1 == old(self).score1
                    && final(self).score2 == old(self).score2
                    && final(self).foods_eaten == old(self).foods_eaten
                    && final(self).level == old(self).level
                    && final(self).game_over == false))
                    && (moved ==> (final(self).game_over || final(self).snake1.head()
                    == step_block(old(self).snake1.head(), old(self).snake1.direction))))
            }),
            ({
                let expired = !old(self).game_over && old(self).game_mode is Timer && sat_add_spec(
                    old(self).game_time,
                    delta_time,
                ) >= old(self).time_limit;
                (!old(self).game_over && !expired) ==> tick_outcome(
                    *old(self),
                    *final(self),
                    delta_time,
                )
            }),
    {
        self.waiting_time = sat_add(self.waiting_time, delta_time);

        if self.game_over {
            return ;
        }

        if self.game_mode.is_timed_mode() {
            self.game_time = sat_add(self.game_time, delta_time);
            if self.game_time >= self.time_limit {
                self.game_over = true;
                let max_score = if self.score1 >= self.score2 {
                    self.score1
                } else {
                    self.score2
                };
                self.final_score = max_score;
                self.final_level = self.level;
                if max_score > self.high_score {
                    self.high_score = max_score;
                }
                return ;
            }
        }

        proof {
            assert(*self == with_timers(*old(self), delta_time));
        }
        self.run_mid_phases(delta_time);
        let ghost s3 = *self;

        let base_speed = self.game_mode.get_base_speed();
        let speed_multiplier = self.game_mode.get_speed_multiplier();
        let grow = sat_mul(self.level, speed_multiplier);
        let denom = sat_add(100, grow);
        let moving_period = (base_speed * 100) / denom;
        if self.waiting_time > moving_period {
            self.update_snake1(None);
            let ghost m1 = *self;
            self.update_snake2(None);
            let ghost m2 = *self;
            self.waiting_time = 0;
            proof {
                assert(step_outcome1(s3, m1, None));
                assert(step_outcome2(m1, m2, None));
                assert(*self == (Game { waiting_time: 0, ..m2 }));
                assert(after_first_move(m1, *self));
                assert(moves_step(s3, *self));
            }
        } else {
            proof {
                assert(moves_step(s3, *self));
            }
        }
        proof {
            assert(tick_outcome(*old(self), *self, delta_time));
            lemma_level_monotone(old(self).foods_eaten, self.foods_eaten);
        }
    }
}

/// Fields an eating event never touches.
pub open spec fn non_eating_fields_unchanged(a: Game, b: Game) -> bool {
    &&& b.width == a.width
    &&& b.height == a.height
    &&& b.game_mode == a.game_mode
    &&& b.time_limit == a.time_limit
    &&& b.game_over == a.game_over
    &&& b.waiting_time == a.waiting_time
    &&& b.game_time == a.game_time
    &&& b.high_score == a.high_score
    &&& b.final_score == a.final_score
    &&& b.final_level == a.final_level
    &&& b.enemies@ == a.enemies@
    &&& b.enemy_move_time == a.enemy_move_time
    &&& b.food_x == a.food_x
    &&& b.food_y == a.food_y
}

/// The first player's snake eats: its body grows by exactly the restored
/// tail cell, the food is gone, the award is added to its score, and the
/// foods-eaten counter and the level move in step; the multiplier is
/// either untouched or freshly armed (hard mode only).
pub open spec fn eats1(a: Game, b: Game) -> bool {
    &&& a.snake1.last_tail matches Some(t) && b.snake1.body@ =~= a.snake1.body@.push(t)
    &&& b.snake1.direction == a.snake1.direction
    &&& b.snake1.last_tail is None
    &&& b.snake2 == a.snake2
    &&& !b.food_exist
    &&& b.score1 == sat_add_spec(a.score1, a.award_spec())
    &&& b.score2 == a.score2
    &&& b.foods_eaten == sat_add_spec(a.foods_eaten, 1)
    &&& b.level as int == level_of(b.foods_eaten)
    &&& (multiplier_untouched(a, b) || multiplier_armed(a, b))
}

/// The second player's snake eats: as for the first player, but always for
/// the base score and never arming the multiplier.
pub open spec fn eats2(a: Game, b: Game) -> bool {
    &&& a.snake2.last_tail matches Some(t) && b.snake2.body@ =~= a.snake2.body@.push(t)
    &&& b.snake2.direction == a.snake2.direction
    &&& b.snake2.last_tail is None
    &&& b.snake1 == a.snake1
    &&& !b.food_exist
    &&& b.score2 == sat_add_spec(a.score2, BASE_FOOD_SCORE)
    &&& b.score1 == a.score1
    &&& b.foods_eaten == sat_add_spec(a.foods_eaten, 1)
    &&& b.level as int == level_of(b.foods_eaten)
    &&& multiplier_untouched(a, b)
}

/// The full effect of one movement attempt of the first player's snake on
/// the session, by the terminal-transition rule: if the next head cell is
/// free the move commits (eating included); otherwise nothing moves and
/// the session becomes terminal, recording the final score and level and,
/// in survival mode, the high score.
pub open spec fn step_outcome1(a: Game, b: Game, dir: Option<Direction>) -> bool {
    let nb = step_block(a.snake1.head(), a.snake1.resolved_dir(dir));
    &&& b.width == a.width
    &&& b.height == a.height
    &&& b.game_mode == a.game_mode
    &&& b.time_limit == a.time_limit
    &&& b.waiting_time == a.waiting_time
    &&& b.game_time == a.game_time
    &&& b.enemies@ == a.enemies@
    &&& b.enemy_move_time == a.enemy_move_time
    &&& b.snake2 == a.snake2
    &&& if a.cell_free_for_move(nb) {
        &&& b.game_over == a.game_over
        &&& b.high_score == a.high_score
        &&& b.final_score == a.final_score
        &&& b.final_level == a.final_level
        &&& b.snake1.direction == a.snake1.resolved_dir(dir)
        &&& b.snake1.head() == nb
        &&& if a.food_exist && a.food_block() == nb {
            &&& b.snake1.body@ =~= seq![nb] + a.snake1.body@
            &&& !b.food_exist
            &&& b.food_x == a.food_x && b.food_y == a.food_y
            &&& b.score1 == sat_add_spec(a.score1, a.award_spec())
            &&& b.score2 == a.score2
            &&& b.foods_eaten == sat_add_spec(a.foods_eaten, 1)
            &&& b.level as int == level_of(b.foods_eaten)
            &&& (multiplier_untouched(a, b) || multiplier_armed(a, b))
        } else {
            &&& b.snake1.body@ =~= seq![nb] + a.snake1.body@.drop_last()
            &&& b.food_exist == a.food_exist
            &&& b.food_x == a.food_x && b.food_y == a.food_y
            &&& b.score1 == a.score1 && b.score2 == a.score2
            &&& b.foods_eaten == a.foods_eaten && b.level == a.level
            &&& multiplier_untouched(a, b)
        }
    } else {
        &&& b.game_over
        &&& b.snake1 == a.snake1
        &&& b.food_exist == a.food_exist
        &&& b.food_x == a.food_x && b.food_y == a.food_y
        &&& b.score1 == a.score1 && b.score2 == a.score2
        &&& b.foods_eaten == a.foods_eaten && b.level == a.level
        &&& b.final_score == a.max_score_spec()
        &&& b.final_level == a.level
        &&& b.high_score == if a.game_mode is Survival && a.max_score_spec() > a.high_score {
            a.max_score_spec()
        } else {
            a.high_score
        }
        &&& multiplier_untouched(a, b)
    }
}

/// The same rule for the second player's snake, which always earns the
/// base score and never arms the multiplier.
pub open spec fn step_outcome2(a: Game, b: Game, dir: Option<Direction>) -> bool {
    let nb = step_block(a.snake2.head(), a.snake2.resolved_dir(dir));
    &&& b.width == a.width
    &&& b.height == a.height
    &&& b.game_mode == a.game_mode
    &&& b.time_limit == a.time_limit
    &&& b.waiting_time == a.waiting_time
    &&& b.game_time == a.game_time
    &&& b.enemies@ == a.enemies@
    &&& b.enemy_move_time == a.enemy_move_time
    &&& b.snake1 == a.snake1
    &&& if a.cell_free_for_move(nb) {
        &&& b.game_over == a.game_over
        &&& b.high_score == a.high_score
        &&& b.final_score == a.final_score
        &&& b.final_level == a.final_level
        &&& b.snake2.direction == a.snake2.resolved_dir(dir)
        &&& b.snake2.head() == nb
        &&& if a.food_exist && a.food_block() == nb {
            &&& b.snake2.body@ =~= seq![nb] + a.snake2.body@
            &&& !b.food_exist
            &&& b.food_x == a.food_x && b.food_y == a.food_y
            &&& b.score2 == sat_add_spec(a.score2, BASE_FOOD_SCORE)
            &&& b.score1 == a.score1
            &&& b.foods_eaten == sat_add_spec(a.foods_eaten, 1)
            &&& b.level as int == level_of(b.foods_eaten)
            &&& multiplier_untouched(a, b)
        } else {
            &&& b.snake2.body@ =~= seq![nb] + a.snake2.body@.drop_last()
            &&& b.food_exist == a.food_exist
            &&& b.food_x == a.food_x && b.food_y == a.food_y
            &&& b.score1 == a.score1 && b.score2 == a.score2
            &&& b.foods_eaten == a.foods_eaten && b.level == a.level
            &&& multiplier_untouched(a, b)
        }
    } else {
        &&& b.game_over
        &&& b.snake2 == a.snake2
        &&& b.food_exist == a.food_exist
        &&& b.food_x == a.food_x && b.food_y == a.food_y
        &&& b.score1 == a.score1 && b.score2 == a.score2
        &&& b.foods_eaten == a.foods_eaten && b.level == a.level
        &&& b.final_score == a.max_score_spec()
        &&& b.final_level == a.level
        &&& b.high_score == if a.game_mode is Survival && a.max_score_spec() > a.high_score {
            a.max_score_spec()
        } else {
            a.high_score
        }
        &&& multiplier_untouched(a, b)
    }
}

/// The deterministic time-accumulation phase of one tick: the movement
/// accumulator always grows; the session clock grows only in the timed
/// mode.
pub open spec fn with_timers(a: Game, delta: u64) -> Game {
    Game {
        waiting_time: sat_add_spec(a.waiting_time, delta),
        game_time: if a.game_mode is Timer {
            sat_add_spec(a.game_time, delta)
        } else {
            a.game_time
        },
        ..a
    }
}

/// The food phase of one tick: a missing food is placed on a random free
/// interior cell, owed whenever one exists; nothing else changes.
pub open spec fn food_step(a: Game, b: Game) -> bool {
    if a.food_exist {
        b == a
    } else {
        &&& b == (Game { food_exist: b.food_exist, food_x: b.food_x, food_y: b.food_y, ..a })
        &&& (b.food_exist ==> (in_interior(
            a.width as int,
            a.height as int,
            b.food_x as int,
            b.food_y as int,
        ) && !a.occupied(b.food_block())))
        &&& (!b.food_exist ==> (b == a && (forall|blk: Block|
            in_interior(a.width as int, a.height as int, blk.x as int, blk.y as int)
                ==> #[trigger] a.occupied(blk))))
    }
}

/// The multiplier phase of one tick, fully deterministic: in hard mode an
/// active multiplier decays and expires once its timer reaches its
/// duration; outside hard mode the multiplier is held neutral.
pub open spec fn multiplier_step(a: Game, delta: u64) -> Game {
    if a.game_mode is Hard && a.score_multiplier > 1 {
        if sat_add_spec(a.multiplier_timer, delta) >= a.multiplier_duration {
            Game { score_multiplier: 1, multiplier_timer: 0, ..a }
        } else {
            Game { multiplier_timer: sat_add_spec(a.multiplier_timer, delta), ..a }
        }
    } else if !(a.game_mode is Hard) {
        Game { score_multiplier: 1, multiplier_timer: 0, ..a }
    } else {
        a
    }
}

/// The spawn phase of one tick: hostile entities are appended until the
/// level's target is met, each on a cell off both snake bodies and off
/// the food; the population stops short of the target only with every
/// interior cell occupied. Nothing else changes.
pub open spec fn spawn_step(a: Game, b: Game) -> bool {
    &&& b == (Game { enemies: b.enemies, ..a })
    &&& b.enemies@.len() >= a.enemies@.len()
    &&& (b.enemies@.len() <= a.enemies@.len() || b.enemies@.len() <= target_enemy_count_spec(
        a.level,
    ))
    &&& (b.enemies@.len() >= target_enemy_count_spec(a.level) || (forall|blk: Block|
        in_interior(b.width as int, b.height as int, blk.x as int, blk.y as int)
            ==> #[trigger] b.occupied(blk)))
    &&& (forall|k: int|
        a.enemies@.len() <= k < b.enemies@.len() ==> {
            let p = (#[trigger] b.enemies@[k]).pos();
            &&& !a.snake1.body@.contains(p)
            &&& !a.snake2.body@.contains(p)
            &&& !(a.food_exist && a.food_block() == p)
        })
}

/// The enemy-movement phase of one tick: once the enemy period has
/// elapsed, every enemy advances one update of its own (staying put or
/// moving one cell) and the accumulator resets; otherwise the accumulator
/// only grows. Nothing else changes.
pub open spec fn enemy_move_step(a: Game, b: Game, delta: u64) -> bool {
    if sat_add_spec(a.enemy_move_time, delta) > ENEMY_MOVE_PERIOD {
        &&& b == (Game { enemies: b.enemies, enemy_move_time: 0, ..a })
        &&& b.enemies@.len() == a.enemies@.len()
        &&& (forall|k: int|
            0 <= k < a.enemies@.len() ==> ((#[trigger] b.enemies@[k]).pos()
                == a.enemies@[k].pos() || adjacent(b.enemies@[k].pos(), a.enemies@[k].pos())))
    } else {
        b == (Game { enemy_move_time: sat_add_spec(a.enemy_move_time, delta), ..a })
    }
}

/// The movement phase of one tick: once the accumulated time exceeds the
/// movement period, the first snake and then the second attempt their
/// scheduled move under the terminal-transition rule and the accumulator
/// resets; otherwise nothing moves.
pub open spec fn moves_step(a: Game, b: Game) -> bool {
    if a.waiting_time as int > moving_period_spec(a.game_mode, a.level) {
        exists|m: Game| #[trigger] step_outcome1(a, m, None) && after_first_move(m, b)
    } else {
        b == a
    }
}

/// The second half of the movement phase: the second snake's attempt,
/// then the movement accumulator resets.
pub open spec fn after_first_move(m: Game, b: Game) -> bool {
    exists|n: Game| #[trigger] step_outcome2(m, n, None) && b == (Game { waiting_time: 0, ..n })
}

/// The food, multiplier, spawn and enemy-movement phases of one tick, in
/// order, each pinned by its own relation. The random draws keep the
/// intermediate states from being functions of the pre-state, so they are
/// existentially bound.
pub open spec fn mid_phases(a: Game, b: Game, delta: u64) -> bool {
    exists|s1: Game, s2: Game|
        #[trigger] food_step(a, s1) && #[trigger] spawn_step(multiplier_step(s1, delta), s2)
            && enemy_move_step(s2, b, delta)
}

/// One whole non-terminal, non-expiring tick from `a` to `b`: time
/// accumulation, then the middle phases, then the snake-movement phase.
pub open spec fn tick_outcome(a: Game, b: Game, delta: u64) -> bool {
    exists|s3: Game| #[trigger] mid_phases(with_timers(a, delta), s3, delta) && moves_step(s3, b)
}

} // verus!
