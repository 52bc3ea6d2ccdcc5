//! The game controller: the state machine that owns the snake, the food,
//! the movement clock and the game-over cooldown.

use vstd::prelude::*;

use crate::render::DrawCmd;
use crate::rng;
use crate::snake::{Block, Direction, Snake, SnakeView};

verus! {

/// Minimum accumulated time, in milliseconds, between automatic forward
/// steps.
pub const MOVING_PERIOD_MS: u64 = 100;

/// Cooldown, in milliseconds, after death before the automatic restart.
pub const RESTART_TIME_MS: u64 = 3000;

/// How many random samples food placement tries before falling back to a
/// deterministic sweep of the interior.
const FOOD_SAMPLE_ATTEMPTS: u32 = 64;

/// A directional key event, as the host reports it. Anything that is not an
/// arrow key arrives as `Other` and is ignored.
#[derive(Clone, Copy, PartialEq, Eq, Structural, Debug)]
pub enum Key {
    Up,
    Down,
    Left,
    Right,
    Other,
}

/// The direction a key asks for, if any.
pub open spec fn spec_key_dir(key: Key) -> Option<Direction> {
    match key {
        Key::Up => Some(Direction::Up),
        Key::Down => Some(Direction::Down),
        Key::Left => Some(Direction::Left),
        Key::Right => Some(Direction::Right),
        Key::Other => None,
    }
}

/// Mathematical model of a [`Game`]: the snake model, the food cell if one
/// is placed, the arena bounds, the terminal flag and the accumulated wait
/// time in milliseconds.
pub ghost struct GameView {
    pub snake: SnakeView,
    pub food: Option<Block>,
    pub width: int,
    pub height: int,
    pub game_over: bool,
    pub wait_time: int,
}

impl GameView {
    /// Strictly inside the one-cell border.
    pub open spec fn in_interior(self, x: int, y: int) -> bool {
        &&& 1 <= x < self.width - 1
        &&& 1 <= y < self.height - 1
    }

    /// The cell of `b` is strictly inside the border.
    pub open spec fn cell_inside(self, b: Block) -> bool {
        self.in_interior(b.x as int, b.y as int)
    }

    /// Structural validity, except for the wait-time bound: the arena is
    /// large enough for the start configuration, and every snake cell, the
    /// remembered tail cell and the food all lie strictly inside the border.
    pub open spec fn wf_core(self) -> bool {
        &&& 6 <= self.width <= i32::MAX
        &&& 4 <= self.height <= i32::MAX
        &&& self.snake.wf()
        &&& forall|j: int| 0 <= j < self.snake.body.len() ==> self.cell_inside(self.snake.body[j])
        &&& (self.snake.pending_tail matches Some(b) ==> self.cell_inside(b))
        &&& (self.food matches Some(b) ==> self.cell_inside(b))
    }

    /// Validity of every reachable state: additionally, the accumulated wait
    /// never exceeds the restart cooldown.
    pub open spec fn wf(self) -> bool {
        &&& self.wf_core()
        &&& 0 <= self.wait_time <= RESTART_TIME_MS as int
    }

    /// Index of the first border rectangle in the drawing command list.
    pub open spec fn border_base(self) -> int {
        self.snake.body.len() + (if self.food is Some {
            1int
        } else {
            0int
        })
    }

    /// A move in direction `d` is legal: the prospective head cell neither
    /// hits the body (the vacating tail cell excepted) nor the border.
    pub open spec fn move_allowed(self, d: Direction) -> bool {
        &&& !self.snake.overlaps_except_last(
            self.snake.next_head_dir(d).0,
            self.snake.next_head_dir(d).1,
        )
        &&& self.in_interior(self.snake.next_head_dir(d).0, self.snake.next_head_dir(d).1)
    }
}

/// The snake of a freshly started session: three cells on row 2, head at
/// `(4, 2)`, heading right, with no removed tail remembered.
pub open spec fn is_start_snake(s: SnakeView) -> bool {
    &&& s.dir == Direction::Right
    &&& s.body =~= seq![
        Block { x: 4, y: 2 },
        Block { x: 3, y: 2 },
        Block { x: 2, y: 2 },
    ]
    &&& s.pending_tail is None
}

/// What food placement may produce against snake `s` in a `w` by `h` arena:
/// either a free interior cell, or nothing, the latter only when every
/// interior cell is covered by the body.
pub open spec fn spec_food_choice(s: SnakeView, w: int, h: int, f: Option<Block>) -> bool {
    match f {
        Some(b) => {
            &&& 1 <= (b.x as int) < w - 1
            &&& 1 <= (b.y as int) < h - 1
            &&& !s.overlaps_body(b.x as int, b.y as int)
        },
        None => forall|x: int, y: int|
            1 <= x < w - 1 && 1 <= y < h - 1 ==> s.overlaps_body(x, y),
    }
}

/// Whether `f` is food lying exactly at `(x, y)`.
pub open spec fn food_matches(f: Option<Block>, x: int, y: int) -> bool {
    f matches Some(b) && b.x as int == x && b.y as int == y
}

/// One attempted movement step from `pre` in direction `d`, with `food` the
/// food in effect at the moment of the step. If the move is legal the snake
/// advances, consuming food that sits on the new head cell; otherwise the
/// session becomes terminal and nothing else changes. Either way the wait
/// clock restarts.
pub open spec fn spec_step(pre: GameView, post: GameView, d: Direction, food: Option<Block>) -> bool {
    let nx = pre.snake.next_head_dir(d).0;
    let ny = pre.snake.next_head_dir(d).1;
    &&& post.width == pre.width
    &&& post.height == pre.height
    &&& post.wait_time == 0
    &&& if pre.move_allowed(d) {
        &&& !post.game_over
        &&& post.snake.dir == d
        &&& post.snake.body[0].x as int == nx
        &&& post.snake.body[0].y as int == ny
        &&& post.snake.pending_tail == Some(pre.snake.body.last())
        &&& if food_matches(food, nx, ny) {
            &&& post.snake.body.len() == pre.snake.body.len() + 1
            &&& post.snake.body.skip(1) =~= pre.snake.body
            &&& post.food is None
        } else {
            &&& post.snake.body.len() == pre.snake.body.len()
            &&& post.snake.body.skip(1) =~= pre.snake.body.drop_last()
            &&& post.food == food
        }
    } else {
        &&& post.game_over
        &&& post.snake == pre.snake
        &&& post.food == food
    }
}

/// The state right after a restart: a fresh start snake, cleared flags, a
/// zeroed clock, and food freshly placed on a free interior cell.
pub open spec fn spec_restarted(pre: GameView, post: GameView) -> bool {
    &&& post.width == pre.width
    &&& post.height == pre.height
    &&& is_start_snake(post.snake)
    &&& !post.game_over
    &&& post.wait_time == 0
    &&& post.food is Some
    &&& spec_food_choice(post.snake, post.width, post.height, post.food)
}

/// The transition `update` makes for `delta` elapsed milliseconds. While the
/// session is terminal only the cooldown advances, until it expires and the
/// game restarts. While it is running, missing food is replaced first, and a
/// movement step fires exactly when the accumulated wait exceeds
/// [`MOVING_PERIOD_MS`].
pub open spec fn spec_update(pre: GameView, post: GameView, delta: int) -> bool {
    let wt = pre.wait_time + delta;
    if pre.game_over {
        if wt > RESTART_TIME_MS as int {
            spec_restarted(pre, post)
        } else {
            &&& post.snake == pre.snake
            &&& post.food == pre.food
            &&& post.game_over
            &&& post.wait_time == wt
            &&& post.width == pre.width
            &&& post.height == pre.height
        }
    } else {
        if wt > MOVING_PERIOD_MS as int {
            if pre.food is Some {
                spec_step(pre, post, pre.snake.dir, pre.food)
            } else {
                exists|f: Option<Block>|
                    #[trigger] spec_food_choice(pre.snake, pre.width, pre.height, f)
                        && spec_step(pre, post, pre.snake.dir, f)
            }
        } else {
            &&& post.snake == pre.snake
            &&& !post.game_over
            &&& post.wait_time == wt
            &&& post.width == pre.width
            &&& post.height == pre.height
            &&& if pre.food is Some {
                post.food == pre.food
            } else {
                spec_food_choice(pre.snake, pre.width, pre.height, post.food)
            }
        }
    }
}

/// The transition `key_pressed` makes. Input is ignored while the session is
/// terminal, when the key maps to no direction, and when it asks for the
/// exact opposite of the current heading; otherwise it forces an immediate
/// movement step in the requested direction.
pub open spec fn spec_key_pressed(pre: GameView, post: GameView, key: Key) -> bool {
    if pre.game_over {
        post == pre
    } else {
        match spec_key_dir(key) {
            None => post == pre,
            Some(d) => {
                if d == pre.snake.dir.spec_opposite() {
                    post == pre
                } else {
                    spec_step(pre, post, d, pre.food)
                }
            },
        }
    }
}

/// The game controller.
pub struct Game {
    snake: Snake,
    food_exists: bool,
    food_x: i32,
    food_y: i32,
    width: i32,
    height: i32,
    game_over: bool,
    wait_time: u64,
}

impl View for Game {
    type V = GameView;

    closed spec fn view(&self) -> GameView {
        GameView {
            snake: self.snake@,
            food: if self.food_exists {
                Some(Block { x: self.food_x, y: self.food_y })
            } else {
                None
            },
            width: self.width as int,
            height: self.height as int,
            game_over: self.game_over,
            wait_time: self.wait_time as int,
        }
    }
}

impl Game {
    /// Rejection sampling for a food cell: a bounded number of uniform
    /// samples over the interior, then a deterministic sweep. Returns `None`
    /// only when the body covers the whole interior.
    fn random_food_position(snake: &Snake, width: i32, height: i32) -> (r: Option<(i32, i32)>)
        requires
            snake@.wf(),
            3 <= width,
            3 <= height,
        ensures
            (match r {
                Some(p) => {
                    &&& 1 <= (p.0 as int) < width - 1
                    &&& 1 <= (p.1 as int) < height - 1
                    &&& !snake@.overlaps_body(p.0 as int, p.1 as int)
                },
                None => forall|x: int, y: int|
                    1 <= x < width - 1 && 1 <= y < height - 1 ==> snake@.overlaps_body(x, y),
            }),
    {
        let mut generator = rng::new_rng();
        let mut attempts: u32 = 0;
        while attempts < FOOD_SAMPLE_ATTEMPTS
            invariant
                snake@.wf(),
                3 <= width,
                3 <= height,
            decreases FOOD_SAMPLE_ATTEMPTS - attempts,
        {
            let x = rng::gen_range_i32(&mut generator, 1, width - 1);
            let y = rng::gen_range_i32(&mut generator, 1, height - 1);
            if !snake.overlaps_body(x, y) {
                return Some((x, y));
            }
            attempts = attempts + 1;
        }
        let mut x: i32 = 1;
        while x < width - 1
            invariant
                snake@.wf(),
                3 <= width,
                3 <= height,
                1 <= x <= width - 1,
                forall|xx: int, yy: int|
                    1 <= xx < x as int && 1 <= yy < height - 1 ==> snake@.overlaps_body(xx, yy),
            decreases width - 1 - x,
        {
            let mut y: i32 = 1;
            while y < height - 1
                invariant
                    snake@.wf(),
                    3 <= width,
                    3 <= height,
                    1 <= x < width - 1,
                    1 <= y <= height - 1,
                    forall|xx: int, yy: int|
                        1 <= xx < x as int && 1 <= yy < height - 1 ==> snake@.overlaps_body(
                            xx,
                            yy,
                        ),
                    forall|yy: int|
                        1 <= yy < y as int ==> snake@.overlaps_body(x as int, yy),
                decreases height - 1 - y,
            {
                if !snake.overlaps_body(x, y) {
                    return Some((x, y));
                }
                y = y + 1;
            }
            x = x + 1;
        }
        None
    }

    /// Place food on a free interior cell, if one can be found; otherwise
    /// record that no food exists. The rest of the state is untouched.
    fn add_food(&mut self)
        requires
            old(self)@.wf_core(),
        ensures
            final(self)@.wf_core(),
            final(self)@.snake == old(self)@.snake,
            final(self)@.game_over == old(self)@.game_over,
            final(self)@.wait_time == old(self)@.wait_time,
            final(self)@.width == old(self)@.width,
            final(self)@.height == old(self)@.height,
            spec_food_choice(
                final(self)@.snake,
                final(self)@.width,
                final(self)@.height,
                final(self)@.food,
            ),
    {
        let food = Game::random_food_position(&self.snake, self.width, self.height);
        match food {
            Some(p) => {
                self.food_x = p.0;
                self.food_y = p.1;
                self.food_exists = true;
            },
            None => {
                self.food_exists = false;
            },
        }
    }

    /// A new session in a `width` by `height` arena, with the start snake
    /// and one food item on a free interior cell. The arena must be large
    /// enough to hold the start snake strictly inside the border.
    pub fn new(width: i32, height: i32) -> (g: Game)
        requires
            6 <= width,
            4 <= height,
        ensures
            g@.wf(),
            g@.width == width as int,
            g@.height == height as int,
            is_start_snake(g@.snake),
            !g@.game_over,
            g@.wait_time == 0,
            g@.food is Some,
            spec_food_choice(g@.snake, g@.width, g@.height, g@.food),
    {
        let snake = Snake::new(2, 2);
        let food = Game::random_food_position(&snake, width, height);
        let (fx, fy) = match food {
            Some(p) => p,
            None => {
                proof {
                    lemma_start_snake_leaves_room(snake@);
                }
                (1, 1)
            },
        };
        Game {
            snake,
            food_exists: true,
            food_x: fx,
            food_y: fy,
            width,
            height,
            game_over: false,
            wait_time: 0,
        }
    }

    /// Guarded construction: `Some` exactly when the arena can hold the
    /// start snake strictly inside the border, `None` instead of a crash or
    /// an endless food search on a degenerate arena.
    pub fn try_new(width: i32, height: i32) -> (r: Option<Game>)
        ensures
            r is Some <==> (6 <= width && 4 <= height),
            r matches Some(g) ==> ({
                &&& g@.wf()
                &&& g@.width == width as int
                &&& g@.height == height as int
                &&& is_start_snake(g@.snake)
                &&& !g@.game_over
                &&& g@.wait_time == 0
                &&& g@.food is Some
                &&& spec_food_choice(g@.snake, g@.width, g@.height, g@.food)
            }),
    {
        if width >= 6 && height >= 4 {
            Some(Game::new(width, height))
        } else {
            None
        }
    }

    /// Start over: a fresh start snake, cleared terminal flag, zeroed clock,
    /// and new food.
    pub fn restart(&mut self)
        requires
            old(self)@.wf_core(),
        ensures
            final(self)@.wf(),
            spec_restarted(old(self)@, final(self)@),
    {
        self.snake = Snake::new(2, 2);
        self.game_over = false;
        self.wait_time = 0;
        self.add_food();
        proof {
            if self@.food is None {
                lemma_start_snake_leaves_room(self@.snake);
            }
        }
    }

    /// Whether a move in the requested direction (or the current heading)
    /// would keep the snake alive.
    fn check_if_snake_alive(&self, dir: Option<Direction>) -> (r: bool)
        requires
            self@.wf_core(),
        ensures
            r == self@.move_allowed(self@.snake.eff_dir(dir)),
    {
        proof {
            assert(self@.cell_inside(self@.snake.body[0]));
        }
        let (head_x, head_y) = self.snake.next_head(dir);
        if self.snake.overlap_tail(head_x, head_y) {
            return false;
        }
        head_x > 0 && head_y > 0 && head_x < self.width - 1 && head_y < self.height - 1
    }

    /// After a committed move: if food sits exactly on the new head cell,
    /// consume it and restore the tail cell the move removed.
    fn check_if_food_eaten(&mut self)
        requires
            old(self)@.snake.wf(),
            old(self)@.snake.pending_tail is Some,
        ensures
            final(self)@.width == old(self)@.width,
            final(self)@.height == old(self)@.height,
            final(self)@.game_over == old(self)@.game_over,
            final(self)@.wait_time == old(self)@.wait_time,
            if food_matches(
                old(self)@.food,
                old(self)@.snake.head().x as int,
                old(self)@.snake.head().y as int,
            ) {
                &&& final(self)@.food is None
                &&& final(self)@.snake.dir == old(self)@.snake.dir
                &&& final(self)@.snake.pending_tail == old(self)@.snake.pending_tail
                &&& (old(self)@.snake.pending_tail matches Some(b) ==> final(self)@.snake.body
                    =~= old(self)@.snake.body.push(b))
            } else {
                final(self)@ == old(self)@
            },
    {
        let (head_x, head_y) = self.snake.head_position();
        if self.food_exists && self.food_x == head_x && self.food_y == head_y {
            self.food_exists = false;
            self.snake.restore_tail();
        }
    }

    /// One attempted movement step, shared by the tick path and the input
    /// path: commit the move if it is legal, else end the session; reset the
    /// wait clock in both cases.
    fn update_snake(&mut self, dir: Option<Direction>)
        requires
            old(self)@.wf_core(),
            !old(self)@.game_over,
        ensures
            final(self)@.wf(),
            spec_step(old(self)@, final(self)@, old(self)@.snake.eff_dir(dir), old(self)@.food),
    {
        let ghost pre = self@;
        if self.check_if_snake_alive(dir) {
            proof {
                assert(pre.cell_inside(pre.snake.body[0]));
                assert(pre.cell_inside(pre.snake.body[pre.snake.body.len() - 1]));
            }
            self.snake.move_forward(dir);
            let ghost mid = self@;
            self.check_if_food_eaten();
            proof {
                let d = pre.snake.eff_dir(dir);
                let nx = pre.snake.next_head_dir(d).0;
                let ny = pre.snake.next_head_dir(d).1;
                if food_matches(pre.food, nx, ny) {
                    let b = pre.snake.body.last();
                    assert(self@.snake.body == mid.snake.body.push(b));
                    assert forall|i: int|
                        0 <= i < pre.snake.body.len() implies self@.snake.body[i + 1]
                        == pre.snake.body[i] by {
                        if i < pre.snake.body.len() - 1 {
                            assert(mid.snake.body[i + 1] == mid.snake.body.skip(1)[i]);
                            assert(mid.snake.body.skip(1)[i] == pre.snake.body.drop_last()[i]);
                        }
                    }
                    assert(self@.snake.body.skip(1) =~= pre.snake.body);
                } else {
                    assert(self@.snake.body.skip(1) =~= pre.snake.body.drop_last());
                }
                assert forall|j: int|
                    0 <= j < self@.snake.body.len() implies self@.cell_inside(
                    self@.snake.body[j],
                ) by {
                    if j == 0 {
                        assert(self@.snake.body[0].x as int == nx);
                        assert(self@.snake.body[0].y as int == ny);
                    } else {
                        assert(self@.snake.body[j] == self@.snake.body.skip(1)[j - 1]);
                        assert(self@.snake.body[j] == pre.snake.body[j - 1]);
                        assert(pre.cell_inside(pre.snake.body[j - 1]));
                    }
                }
            }
        } else {
            self.game_over = true;
        }
        self.wait_time = 0;
    }

    /// The tick entry point: accumulate elapsed time; while terminal, wait
    /// out the cooldown and restart once it expires; otherwise replace
    /// missing food and step the snake once the moving period has passed.
    pub fn update(&mut self, delta_ms: u32)
        requires
            old(self)@.wf(),
        ensures
            final(self)@.wf(),
            spec_update(old(self)@, final(self)@, delta_ms as int),
    {
        self.wait_time = self.wait_time + (delta_ms as u64);
        if self.game_over {
            if self.wait_time > RESTART_TIME_MS {
                self.restart();
            }
            return;
        }
        if !self.food_exists {
            self.add_food();
        }
        if self.wait_time > MOVING_PERIOD_MS {
            let d = self.snake.head_direction();
            self.update_snake(Some(d));
        }
    }

    /// The input entry point: ignored while terminal or for a key that maps
    /// to no direction or to the exact opposite of the current heading;
    /// otherwise an immediate movement step in the requested direction.
    pub fn key_pressed(&mut self, key: Key)
        requires
            old(self)@.wf(),
        ensures
            final(self)@.wf(),
            spec_key_pressed(old(self)@, final(self)@, key),
    {
        if self.game_over {
            return;
        }
        let new_dir = match key {
            Key::Up => Some(Direction::Up),
            Key::Down => Some(Direction::Down),
            Key::Left => Some(Direction::Left),
            Key::Right => Some(Direction::Right),
            Key::Other => None,
        };
        let d = match new_dir {
            Some(d) => d,
            None => {
                return;
            },
        };
        if d == self.snake.head_direction().opposite() {
            return;
        }
        self.update_snake(Some(d));
    }

    /// Place food on the given cell, for host-driven deterministic sessions:
    /// succeeds exactly when the game is running and the cell is a free
    /// interior cell.
    pub fn place_food(&mut self, x: i32, y: i32) -> (ok: bool)
        requires
            old(self)@.wf(),
        ensures
            final(self)@.wf(),
            ok == (!old(self)@.game_over && old(self)@.in_interior(x as int, y as int) && !old(
                self,
            )@.snake.overlaps_body(x as int, y as int)),
            ok ==> final(self)@ == (GameView {
                food: Some(Block { x, y }),
                ..old(self)@
            }),
            !ok ==> final(self)@ == old(self)@,
    {
        if self.game_over {
            return false;
        }
        if !(x > 0 && y > 0 && x < self.width - 1 && y < self.height - 1) {
            return false;
        }
        if self.snake.overlaps_body(x, y) {
            return false;
        }
        self.food_x = x;
        self.food_y = y;
        self.food_exists = true;
        true
    }

    /// One frame as drawing commands, in layering order: the snake body,
    /// the food if any, the four border bars, and the game-over overlay.
    pub fn draw(&self) -> (cmds: Vec<DrawCmd>)
        requires
            self@.wf_core(),
        ensures
            cmds@.len() == self@.border_base() + 4 + (if self@.game_over {
                1int
            } else {
                0int
            }),
            forall|j: int|
                0 <= j < self@.snake.body.len() ==> cmds@[j] == (DrawCmd::SnakeBlock {
                    x: self@.snake.body[j].x,
                    y: self@.snake.body[j].y,
                }),
            self@.food matches Some(b) ==> cmds@[self@.snake.body.len() as int]
                == (DrawCmd::FoodBlock { x: b.x, y: b.y }),
            cmds@[self@.border_base()] matches DrawCmd::BorderRect { x, y, w, h } && x == 0 && y
                == 0 && w as int == self@.width && h == 1,
            cmds@[self@.border_base() + 1] matches DrawCmd::BorderRect { x, y, w, h } && x == 0
                && y as int == self@.height - 1 && w as int == self@.width && h == 1,
            cmds@[self@.border_base() + 2] matches DrawCmd::BorderRect { x, y, w, h } && x == 0
                && y == 0 && w == 1 && h as int == self@.height,
            cmds@[self@.border_base() + 3] matches DrawCmd::BorderRect { x, y, w, h } && x as int
                == self@.width - 1 && y == 0 && w == 1 && h as int == self@.height,
            self@.game_over ==> (cmds@[self@.border_base() + 4] matches DrawCmd::GameOverRect {
                x,
                y,
                w,
                h,
            } && x == 0 && y == 0 && w as int == self@.width && h as int == self@.height),
    {
        let mut cmds = self.snake.draw();
        if self.food_exists {
            cmds.push(DrawCmd::FoodBlock { x: self.food_x, y: self.food_y });
        }
        cmds.push(DrawCmd::BorderRect { x: 0, y: 0, w: self.width, h: 1 });
        cmds.push(DrawCmd::BorderRect { x: 0, y: self.height - 1, w: self.width, h: 1 });
        cmds.push(DrawCmd::BorderRect { x: 0, y: 0, w: 1, h: self.height });
        cmds.push(DrawCmd::BorderRect { x: self.width - 1, y: 0, w: 1, h: self.height });
        if self.game_over {
            cmds.push(DrawCmd::GameOverRect { x: 0, y: 0, w: self.width, h: self.height });
        }
        cmds
    }

    /// Whether the session is in its terminal cooldown state.
    pub fn game_over(&self) -> (r: bool)
        ensures
            r == self@.game_over,
    {
        self.game_over
    }

    /// Whether a food item is currently placed.
    pub fn food_exists(&self) -> (r: bool)
        ensures
            r == (self@.food is Some),
    {
        self.food_exists
    }

    /// The current food cell; meaningful only while food exists.
    pub fn food_position(&self) -> (r: (i32, i32))
        requires
            self@.food is Some,
        ensures
            self@.food matches Some(b) && r.0 == b.x && r.1 == b.y,
    {
        (self.food_x, self.food_y)
    }

    /// Milliseconds accumulated since the last discrete state advance.
    pub fn wait_time_ms(&self) -> (r: u64)
        ensures
            r as int == self@.wait_time,
    {
        self.wait_time
    }

    /// The arena width, border included.
    pub fn width(&self) -> (r: i32)
        ensures
            r as int == self@.width,
    {
        self.width
    }

    /// The arena height, border included.
    pub fn height(&self) -> (r: i32)
        ensures
            r as int == self@.height,
    {
        self.height
    }

    /// The snake's current head cell.
    pub fn head_position(&self) -> (r: (i32, i32))
        requires
            self@.snake.wf(),
        ensures
            r.0 == self@.snake.head().x,
            r.1 == self@.snake.head().y,
    {
        self.snake.head_position()
    }

    /// The snake's current heading.
    pub fn head_direction(&self) -> (r: Direction)
        ensures
            r == self@.snake.dir,
    {
        self.snake.head_direction()
    }

    /// The snake's current length in cells.
    pub fn snake_length(&self) -> (r: usize)
        ensures
            r == self@.snake.body.len(),
    {
        self.snake.length()
    }
}

/// The start snake cannot cover the interior of any admissible arena: cell
/// `(1, 1)` is interior and free, its row lying above the whole body.
proof fn lemma_start_snake_leaves_room(s: SnakeView)
    requires
        s.body.len() == 3,
        s.body[0].y == 2,
        s.body[1].y == 2,
        s.body[2].y == 2,
    ensures
        !s.overlaps_body(1, 1),
{
    assert forall|j: int| 0 <= j < s.body.len() implies !(s.body[j].x as int == 1
        && s.body[j].y as int == 1) by {
        if j == 0 {
        } else if j == 1 {
        } else {
            assert(j == 2);
        }
    }
}

} // verus!
