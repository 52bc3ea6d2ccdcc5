//! The snake entity: a directed chain of grid cells.
//!
//! The head is the first element of the body sequence. A step pushes a new
//! head cell and removes the tail cell, remembering it so that it can be
//! restored when food is consumed.

use vstd::prelude::*;

use crate::render::DrawCmd;

verus! {

/// One of the four cardinal movement directions.
#[derive(Clone, Copy, PartialEq, Eq, Structural, Debug)]
pub enum Direction {
    Up,
    Down,
    Left,
    Right,
}

impl Direction {
    /// The direction that points exactly backwards.
    pub open spec fn spec_opposite(self) -> Direction {
        match self {
            Direction::Up => Direction::Down,
            Direction::Down => Direction::Up,
            Direction::Left => Direction::Right,
            Direction::Right => Direction::Left,
        }
    }

    pub fn opposite(&self) -> (r: Direction)
        ensures
            r == self.spec_opposite(),
    {
        match self {
            Direction::Up => Direction::Down,
            Direction::Down => Direction::Up,
            Direction::Left => Direction::Right,
            Direction::Right => Direction::Left,
        }
    }
}

/// Horizontal displacement of one step in direction `d`.
pub open spec fn dir_dx(d: Direction) -> int {
    match d {
        Direction::Left => -1,
        Direction::Right => 1,
        _ => 0,
    }
}

/// Vertical displacement of one step in direction `d` (the y axis grows
/// downwards).
pub open spec fn dir_dy(d: Direction) -> int {
    match d {
        Direction::Up => -1,
        Direction::Down => 1,
        _ => 0,
    }
}

/// One grid cell.
#[derive(Clone, Copy, PartialEq, Eq, Structural, Debug)]
pub struct Block {
    pub x: i32,
    pub y: i32,
}

/// Mathematical model of a [`Snake`]: its heading, its body cells from head
/// to tail, and the most recently removed tail cell, if any.
pub ghost struct SnakeView {
    pub dir: Direction,
    pub body: Seq<Block>,
    pub pending_tail: Option<Block>,
}

impl SnakeView {
    /// The leading cell.
    pub open spec fn head(self) -> Block {
        self.body[0]
    }

    /// A snake always keeps at least a head and one trailing cell.
    pub open spec fn wf(self) -> bool {
        self.body.len() >= 2
    }

    /// The direction a step would take: the requested one, or the current
    /// heading when none is requested.
    pub open spec fn eff_dir(self, dir: Option<Direction>) -> Direction {
        match dir {
            Some(d) => d,
            None => self.dir,
        }
    }

    /// The cell the head would occupy after one step in direction `d`.
    pub open spec fn next_head_dir(self, d: Direction) -> (int, int) {
        (self.head().x + dir_dx(d), self.head().y + dir_dy(d))
    }

    /// The cell the head would occupy after one step, for an optional
    /// direction override.
    pub open spec fn next_head(self, dir: Option<Direction>) -> (int, int) {
        self.next_head_dir(self.eff_dir(dir))
    }

    /// Whether `(x, y)` lies on the body, the very last tail cell excepted:
    /// that cell vacates during the step that this query guards.
    pub open spec fn overlaps_except_last(self, x: int, y: int) -> bool {
        exists|j: int|
            0 <= j < self.body.len() - 1 && self.body[j].x as int == x && self.body[j].y as int
                == y
    }

    /// Whether `(x, y)` lies on any body cell.
    pub open spec fn overlaps_body(self, x: int, y: int) -> bool {
        exists|j: int|
            0 <= j < self.body.len() && self.body[j].x as int == x && self.body[j].y as int == y
    }
}

/// The snake entity owned by the game controller.
pub struct Snake {
    direction: Direction,
    body: Vec<Block>,
    tail: Option<Block>,
}

impl View for Snake {
    type V = SnakeView;

    closed spec fn view(&self) -> SnakeView {
        SnakeView { dir: self.direction, body: self.body@, pending_tail: self.tail }
    }
}

impl Snake {
    /// A fresh snake of three cells lying horizontally, head at `(x + 2, y)`,
    /// heading right.
    pub fn new(x: i32, y: i32) -> (s: Snake)
        requires
            x + 2 <= i32::MAX,
        ensures
            s@.wf(),
            s@.dir == Direction::Right,
            s@.body.len() == 3,
            s@.body[0].x as int == x + 2,
            s@.body[0].y == y,
            s@.body[1].x as int == x + 1,
            s@.body[1].y == y,
            s@.body[2].x == x,
            s@.body[2].y == y,
            s@.pending_tail is None,
    {
        let mut body: Vec<Block> = Vec::new();
        body.push(Block { x: x + 2, y });
        body.push(Block { x: x + 1, y });
        body.push(Block { x, y });
        Snake { direction: Direction::Right, body, tail: None }
    }

    /// The current head cell.
    pub fn head_position(&self) -> (r: (i32, i32))
        requires
            self@.wf(),
        ensures
            r.0 == self@.head().x,
            r.1 == self@.head().y,
    {
        let head = self.body[0];
        (head.x, head.y)
    }

    /// The current heading.
    pub fn head_direction(&self) -> (r: Direction)
        ensures
            r == self@.dir,
    {
        self.direction
    }

    /// Number of body cells.
    pub fn length(&self) -> (r: usize)
        ensures
            r == self@.body.len(),
    {
        self.body.len()
    }

    /// The cell the head would move to: one step in `dir`, or in the current
    /// heading when `dir` is `None`. The snake itself is not changed.
    pub fn next_head(&self, dir: Option<Direction>) -> (r: (i32, i32))
        requires
            self@.wf(),
            i32::MIN < self@.head().x < i32::MAX,
            i32::MIN < self@.head().y < i32::MAX,
        ensures
            r.0 as int == self@.next_head(dir).0,
            r.1 as int == self@.next_head(dir).1,
    {
        let head = self.body[0];
        let d = match dir {
            Some(d) => d,
            None => self.direction,
        };
        match d {
            Direction::Up => (head.x, head.y - 1),
            Direction::Down => (head.x, head.y + 1),
            Direction::Left => (head.x - 1, head.y),
            Direction::Right => (head.x + 1, head.y),
        }
    }

    /// Whether `(x, y)` hits the body, the very last tail cell excepted: that
    /// cell vacates on the step this check guards.
    pub fn overlap_tail(&self, x: i32, y: i32) -> (r: bool)
        requires
            self@.wf(),
        ensures
            r == self@.overlaps_except_last(x as int, y as int),
    {
        let n = self.body.len();
        let mut i: usize = 0;
        while i < n - 1
            invariant
                self@.wf(),
                n == self@.body.len(),
                i <= n - 1,
                forall|j: int|
                    0 <= j < i ==> !(self@.body[j].x as int == x as int && self@.body[j].y as int
                        == y as int),
            decreases n - 1 - i,
        {
            let b = self.body[i];
            if b.x == x && b.y == y {
                return true;
            }
            i = i + 1;
        }
        false
    }

    /// Whether `(x, y)` hits any body cell, the tail included.
    pub fn overlaps_body(&self, x: i32, y: i32) -> (r: bool)
        requires
            self@.wf(),
        ensures
            r == self@.overlaps_body(x as int, y as int),
    {
        let n = self.body.len();
        let mut i: usize = 0;
        while i < n
            invariant
                self@.wf(),
                n == self@.body.len(),
                i <= n,
                forall|j: int|
                    0 <= j < i ==> !(self@.body[j].x as int == x as int && self@.body[j].y as int
                        == y as int),
            decreases n - i,
        {
            let b = self.body[i];
            if b.x == x && b.y == y {
                return true;
            }
            i = i + 1;
        }
        false
    }

    /// One step: the head advances one cell in the effective direction, the
    /// tail cell is removed and remembered for a possible restore.
    pub fn move_forward(&mut self, dir: Option<Direction>)
        requires
            old(self)@.wf(),
            i32::MIN < old(self)@.head().x < i32::MAX,
            i32::MIN < old(self)@.head().y < i32::MAX,
        ensures
            final(self)@.wf(),
            final(self)@.dir == old(self)@.eff_dir(dir),
            final(self)@.body.len() == old(self)@.body.len(),
            final(self)@.body[0].x as int == old(self)@.next_head(dir).0,
            final(self)@.body[0].y as int == old(self)@.next_head(dir).1,
            final(self)@.body.skip(1) =~= old(self)@.body.drop_last(),
            final(self)@.pending_tail == Some(old(self)@.body.last()),
    {
        let (nx, ny) = self.next_head(dir);
        match dir {
            Some(d) => {
                self.direction = d;
            },
            None => {},
        }
        self.body.insert(0, Block { x: nx, y: ny });
        let removed = self.body.pop();
        match removed {
            Some(b) => {
                self.tail = Some(b);
            },
            None => {},
        }
    }

    /// Put the most recently removed tail cell back: the growth step that
    /// follows food consumption.
    pub fn restore_tail(&mut self)
        requires
            old(self)@.wf(),
            old(self)@.pending_tail is Some,
        ensures
            final(self)@.wf(),
            final(self)@.dir == old(self)@.dir,
            final(self)@.pending_tail == old(self)@.pending_tail,
            old(self)@.pending_tail matches Some(b) ==> final(self)@.body =~= old(self)@.body.push(
                b,
            ),
    {
        match self.tail {
            Some(b) => {
                self.body.push(b);
            },
            None => {},
        }
    }

    /// The drawing commands for the body: one block per cell, head first.
    pub fn draw(&self) -> (cmds: Vec<DrawCmd>)
        ensures
            cmds@.len() == self@.body.len(),
            forall|j: int|
                0 <= j < cmds@.len() ==> cmds@[j] == (DrawCmd::SnakeBlock {
                    x: self@.body[j].x,
                    y: self@.body[j].y,
                }),
    {
        let mut cmds: Vec<DrawCmd> = Vec::new();
        let n = self.body.len();
        let mut i: usize = 0;
        while i < n
            invariant
                n == self@.body.len(),
                i <= n,
                cmds@.len() == i,
                forall|j: int|
                    0 <= j < i ==> cmds@[j] == (DrawCmd::SnakeBlock {
                        x: self@.body[j].x,
                        y: self@.body[j].y,
                    }),
            decreases n - i,
        {
            let b = self.body[i];
            cmds.push(DrawCmd::SnakeBlock { x: b.x, y: b.y });
            i = i + 1;
        }
        cmds
    }
}

} // verus!
