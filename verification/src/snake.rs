use vstd::prelude::*;

verus! {

/// One of the four headings a snake or enemy can take on the grid.
#[derive(Clone, Copy, PartialEq, Eq, Structural, Debug)]
pub enum Direction {
    Up,
    Down,
    Left,
    Right,
}

impl Direction {
    /// The heading pointing the opposite way.
    pub open spec fn opp(self) -> Direction {
        match self {
            Direction::Up => Direction::Down,
            Direction::Down => Direction::Up,
            Direction::Left => Direction::Right,
            Direction::Right => Direction::Left,
        }
    }

    pub fn opposite(&self) -> (r: Direction)
        ensures
            r == self.opp(),
    {
        match self {
            Direction::Up => Direction::Down,
            Direction::Down => Direction::Up,
            Direction::Left => Direction::Right,
            Direction::Right => Direction::Left,
        }
    }
}

/// One grid cell, in logical (column, row) coordinates.
#[derive(Clone, Copy, PartialEq, Eq, Structural, Debug)]
pub struct Block {
    pub x: i32,
    pub y: i32,
}

/// Moving one cell along `d` changes exactly one coordinate by one.
pub open spec fn step_x(x: int, d: Direction) -> int {
    match d {
        Direction::Left => x - 1,
        Direction::Right => x + 1,
        _ => x,
    }
}

pub open spec fn step_y(y: int, d: Direction) -> int {
    match d {
        Direction::Up => y - 1,
        Direction::Down => y + 1,
        _ => y,
    }
}

/// The cell one step along `d` from `b`. Meaningful only while the true
/// coordinates stay within `i32`; the callers' preconditions guarantee that.
pub open spec fn step_block(b: Block, d: Direction) -> Block {
    Block { x: step_x(b.x as int, d) as i32, y: step_y(b.y as int, d) as i32 }
}

/// Two cells are grid-adjacent when their Manhattan distance is exactly one.
pub open spec fn adjacent(a: Block, b: Block) -> bool {
    ||| a.x == b.x && (a.y - b.y == 1 || b.y - a.y == 1)
    ||| a.y == b.y && (a.x - b.x == 1 || b.x - a.x == 1)
}

/// A player-controlled snake: an ordered body of cells (head first), the
/// current heading, and the cell most recently vacated by the tail, kept
/// so that an eating event can restore it and lengthen the body by one.
pub struct Snake {
    pub body: Vec<Block>,
    pub direction: Direction,
    pub last_tail: Option<Block>,
}

impl Snake {
    /// Well-formedness: the body is non-empty, its cells are pairwise
    /// distinct and consecutive cells are grid-adjacent; the remembered
    /// tail cell, if any, is off the body and adjacent to its last cell.
    pub open spec fn wf(self) -> bool {
        &&& self.body@.len() >= 1
        &&& (forall|i: int, j: int|
            0 <= i < j < self.body@.len() ==> self.body@[i] != self.body@[j])
        &&& (forall|i: int|
            0 <= i < self.body@.len() - 1 ==> adjacent(#[trigger] self.body@[i], self.body@[i + 1]))
        &&& match self.last_tail {
            Some(t) => !self.body@.contains(t) && adjacent(self.body@.last(), t),
            None => true,
        }
    }

    pub open spec fn head(self) -> Block {
        self.body@[0]
    }

    /// The heading a move request resolves to: a requested heading is
    /// honored unless it is the exact reverse of the current one, in which
    /// case the intent is dropped and the snake keeps its heading.
    pub open spec fn resolved_dir(self, dir: Option<Direction>) -> Direction {
        match dir {
            Some(d) => if d == self.direction.opp() {
                self.direction
            } else {
                d
            },
            None => self.direction,
        }
    }

    /// The heading a look-ahead uses: the requested one as given, or the
    /// current heading when none is supplied.
    pub open spec fn lookahead_dir(self, dir: Option<Direction>) -> Direction {
        match dir {
            Some(d) => d,
            None => self.direction,
        }
    }

    /// A new snake of length three heading right, with its head at
    /// (x + 2, y) and its tail extending left to (x, y).
    pub fn new(x: i32, y: i32) -> (s: Snake)
        requires
            x <= i32::MAX - 2,
        ensures
            s.wf(),
            s.direction == Direction::Right,
            s.last_tail is None,
            s.body@ =~= seq![
                (Block { x: (x + 2) as i32, y }),
                (Block { x: (x + 1) as i32, y }),
                (Block { x, y }),
            ],
    {
        let mut body: Vec<Block> = Vec::new();
        body.push(Block { x: x + 2, y });
        body.push(Block { x: x + 1, y });
        body.push(Block { x, y });
        Snake { body, direction: Direction::Right, last_tail: None }
    }

    /// A new snake of length three heading left, with its head at
    /// (x - 2, y) and its tail extending right to (x, y).
    pub fn new_left(x: i32, y: i32) -> (s: Snake)
        requires
            x >= i32::MIN + 2,
        ensures
            s.wf(),
            s.direction == Direction::Left,
            s.last_tail is None,
            s.body@ =~= seq![
                (Block { x: (x - 2) as i32, y }),
                (Block { x: (x - 1) as i32, y }),
                (Block { x, y }),
            ],
    {
        let mut body: Vec<Block> = Vec::new();
        body.push(Block { x: x - 2, y });
        body.push(Block { x: x - 1, y });
        body.push(Block { x, y });
        Snake { body, direction: Direction::Left, last_tail: None }
    }

    pub fn head_position(&self) -> (r: (i32, i32))
        requires
            self.wf(),
        ensures
            r.0 == self.head().x,
            r.1 == self.head().y,
    {
        let b = self.body[0];
        (b.x, b.y)
    }

    pub fn head_direction(&self) -> (r: Direction)
        ensures
            r == self.direction,
    {
        self.direction
    }

    /// The cell the head would occupy after moving along `dir` (or along
    /// the current heading when `dir` is `None`); a pure look-ahead.
    pub fn next_head(&self, dir: Option<Direction>) -> (r: (i32, i32))
        requires
            self.wf(),
            i32::MIN < self.head().x < i32::MAX,
            i32::MIN < self.head().y < i32::MAX,
        ensures
            r.0 == step_x(self.head().x as int, self.lookahead_dir(dir)),
            r.1 == step_y(self.head().y as int, self.lookahead_dir(dir)),
    {
        let head = self.body[0];
        let moving_dir = match dir {
            Some(d) => d,
            None => self.direction,
        };
        match moving_dir {
            Direction::Up => (head.x, head.y - 1),
            Direction::Down => (head.x, head.y + 1),
            Direction::Left => (head.x - 1, head.y),
            Direction::Right => (head.x + 1, head.y),
        }
    }

    /// True iff (x, y) lies on the body, the head included.
    pub fn overlap_tail(&self, x: i32, y: i32) -> (r: bool)
        ensures
            r == self.body@.contains((Block { x, y })),
    {
        let target = Block { x, y };
        let mut i: usize = 0;
        while i < self.body.len()
            invariant
                0 <= i <= self.body@.len(),
                target == (Block { x, y }),
                forall|k: int| 0 <= k < i ==> self.body@[k] != target,
            decreases self.body@.len() - i,
        {
            let b = self.body[i];
            if b.x == x && b.y == y {
                assert(self.body@[i as int] == target);
                return true;
            }
            i = i + 1;
        }
        false
    }

    /// Commit one move: adopt the requested heading unless it reverses the
    /// current one, put the new head cell at the front of the body, and
    /// remove the last cell, remembering it for a possible growth event.
    pub fn move_forward(&mut self, dir: Option<Direction>)
        requires
            old(self).wf(),
            i32::MIN < old(self).head().x < i32::MAX,
            i32::MIN < old(self).head().y < i32::MAX,
            !old(self).body@.contains(
                step_block(old(self).head(), old(self).resolved_dir(dir)),
            ),
        ensures
            final(self).wf(),
            final(self).direction == old(self).resolved_dir(dir),
            final(self).body@ =~= seq![step_block(old(self).head(), old(self).resolved_dir(dir))]
                + old(self).body@.drop_last(),
            final(self).body@.len() == old(self).body@.len(),
            final(self).last_tail == Some(old(self).body@.last()),
            forall|i: int|
                1 <= i < final(self).body@.len()
                    ==> #[trigger] final(self).body@[i] != final(self).body@[0],
    {
        if let Some(d) = dir {
            let rev = self.direction.opposite();
            if d != rev {
                self.direction = d;
            }
        }
        let head = self.body[0];
        let new_head = match self.direction {
            Direction::Up => Block { x: head.x, y: head.y - 1 },
            Direction::Down => Block { x: head.x, y: head.y + 1 },
            Direction::Left => Block { x: head.x - 1, y: head.y },
            Direction::Right => Block { x: head.x + 1, y: head.y },
        };
        self.body.insert(0, new_head);
        let t = self.body.pop().unwrap();
        self.last_tail = Some(t);
    }

    /// Grant the growth owed by an eating event: put the cell the last move
    /// vacated back at the end of the body, lengthening it by exactly one.
    /// Without a remembered tail cell this is a no-op, so a single move can
    /// grow the body by at most one cell.
    pub fn restore_tail(&mut self)
        requires
            old(self).wf(),
        ensures
            final(self).wf(),
            final(self).direction == old(self).direction,
            final(self).last_tail is None,
            match old(self).last_tail {
                Some(t) => final(self).body@ =~= old(self).body@.push(t),
                None => final(self).body@ =~= old(self).body@,
            },
            final(self).body@.len() == old(self).body@.len()
                + (if old(self).last_tail is Some { 1int } else { 0int }),
    {
        if let Some(t) = self.last_tail {
            self.body.push(t);
            self.last_tail = None;
        }
    }
}

/// Body-contiguity law: in a well-formed snake, every pair of consecutive
/// body cells is grid-adjacent.
pub proof fn lemma_body_contiguous(s: Snake)
    requires
        s.wf(),
    ensures
        forall|i: int| 0 <= i < s.body@.len() - 1 ==> adjacent(#[trigger] s.body@[i], s.body@[i + 1]),
{
}

/// No-self-overlap law: in a well-formed snake, no body cell beyond the
/// head equals the head, so after any committed move the new head position
/// overlaps no other cell of the body.
pub proof fn lemma_no_self_overlap(s: Snake)
    requires
        s.wf(),
    ensures
        forall|i: int| 1 <= i < s.body@.len() ==> #[trigger] s.body@[i] != s.body@[0],
{
}

} // verus!
