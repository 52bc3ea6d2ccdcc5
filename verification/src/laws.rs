//! Laws of the game's state machine, proved from the transition predicates
//! that the controller's contracts expose.

use vstd::prelude::*;

use crate::game::{
    spec_key_dir, spec_key_pressed, spec_restarted, spec_step, spec_update, GameView, Key,
    MOVING_PERIOD_MS, RESTART_TIME_MS,
};
use crate::snake::Direction;

verus! {

/// Border containment: a legal move never puts any body cell on or outside
/// the border, and a move whose prospective head cell leaves the interior
/// ends the session with the snake unmoved.
pub proof fn lemma_border_containment(
    pre: GameView,
    post: GameView,
    d: Direction,
    food: Option<crate::snake::Block>,
)
    requires
        pre.wf_core(),
        spec_step(pre, post, d, food),
    ensures
        !post.game_over ==> forall|j: int|
            0 <= j < post.snake.body.len() ==> post.in_interior(
                (#[trigger] post.snake.body[j]).x as int,
                post.snake.body[j].y as int,
            ),
        !pre.in_interior(pre.snake.next_head_dir(d).0, pre.snake.next_head_dir(d).1) ==> (
        post.game_over && post.snake == pre.snake),
{
    let nx = pre.snake.next_head_dir(d).0;
    let ny = pre.snake.next_head_dir(d).1;
    if pre.move_allowed(d) {
        assert forall|j: int|
            0 <= j < post.snake.body.len() implies post.in_interior(
            (#[trigger] post.snake.body[j]).x as int,
            post.snake.body[j].y as int,
        ) by {
            if j == 0 {
                assert(post.snake.body[0].x as int == nx && post.snake.body[0].y as int == ny);
            } else {
                assert(post.snake.body[j] == post.snake.body.skip(1)[j - 1]);
                assert(pre.cell_inside(pre.snake.body[j - 1]));
            }
        }
    }
}

/// Self-collision: a move onto a current body cell, the vacating tail cell
/// excepted, ends the session instead of moving the snake.
pub proof fn lemma_self_collision(
    pre: GameView,
    post: GameView,
    d: Direction,
    food: Option<crate::snake::Block>,
)
    requires
        pre.wf_core(),
        spec_step(pre, post, d, food),
        pre.snake.overlaps_except_last(pre.snake.next_head_dir(d).0, pre.snake.next_head_dir(d).1),
    ensures
        post.game_over,
        post.snake == pre.snake,
        post.wait_time == 0,
{
}

/// No-reverse: a key asking for the exact opposite of the current heading
/// changes nothing at all.
pub proof fn lemma_no_reverse(pre: GameView, post: GameView, key: Key)
    requires
        spec_key_pressed(pre, post, key),
        spec_key_dir(key) == Some(pre.snake.dir.spec_opposite()),
    ensures
        post == pre,
{
}

/// Food invariant: in every valid state that holds food, the food cell lies
/// strictly inside the border.
pub proof fn lemma_food_in_bounds(g: GameView)
    requires
        g.wf_core(),
        g.food is Some,
    ensures
        g.food matches Some(b) && g.in_interior(b.x as int, b.y as int),
{
}

/// Growth: a legal move that lands on the food grows the body by exactly one
/// cell and consumes the food; a legal move that does not leaves the length
/// unchanged.
pub proof fn lemma_growth(
    pre: GameView,
    post: GameView,
    d: Direction,
    food: Option<crate::snake::Block>,
)
    requires
        pre.snake.wf(),
        spec_step(pre, post, d, food),
        pre.move_allowed(d),
    ensures
        crate::game::food_matches(
            food,
            pre.snake.next_head_dir(d).0,
            pre.snake.next_head_dir(d).1,
        ) ==> post.snake.body.len() == pre.snake.body.len() + 1 && post.food is None,
        !crate::game::food_matches(
            food,
            pre.snake.next_head_dir(d).0,
            pre.snake.next_head_dir(d).1,
        ) ==> post.snake.body.len() == pre.snake.body.len(),
{
}

/// Sum of a sequence of durations.
pub open spec fn sum_of(deltas: Seq<int>) -> int
    decreases deltas.len(),
{
    if deltas.len() == 0 {
        0
    } else {
        deltas[0] + sum_of(deltas.skip(1))
    }
}

/// A sum of non-negative durations is non-negative.
pub proof fn lemma_sum_nonneg(deltas: Seq<int>)
    requires
        forall|i: int| 0 <= i < deltas.len() ==> 0 <= #[trigger] deltas[i],
    ensures
        0 <= sum_of(deltas),
    decreases deltas.len(),
{
    if deltas.len() > 0 {
        lemma_sum_nonneg(deltas.skip(1));
    }
}

/// Game-over cooldown, first half: updates whose deltas sum to no more than
/// the restart cooldown leave a dead session dead, the wait clock carrying
/// the exact accumulated time.
pub proof fn lemma_game_over_cooldown(states: Seq<GameView>, deltas: Seq<int>)
    requires
        states.len() == deltas.len() + 1,
        states[0].game_over,
        forall|i: int| 0 <= i < deltas.len() ==> 0 <= #[trigger] deltas[i],
        forall|i: int|
            0 <= i < deltas.len() ==> spec_update(states[i], states[i + 1], #[trigger] deltas[i]),
        states[0].wait_time + sum_of(deltas) <= RESTART_TIME_MS as int,
    ensures
        states.last().game_over,
        states.last().wait_time == states[0].wait_time + sum_of(deltas),
    decreases deltas.len(),
{
    if deltas.len() == 0 {
    } else {
        lemma_sum_nonneg(deltas.skip(1));
        assert(spec_update(states[0], states[1], deltas[0]));
        let states2 = states.skip(1);
        let deltas2 = deltas.skip(1);
        assert forall|i: int| 0 <= i < deltas2.len() implies 0 <= #[trigger] deltas2[i] by {
            assert(deltas2[i] == deltas[i + 1]);
        }
        assert forall|i: int|
            0 <= i < deltas2.len() implies spec_update(
            states2[i],
            states2[i + 1],
            #[trigger] deltas2[i],
        ) by {
            assert(deltas2[i] == deltas[i + 1]);
            assert(spec_update(states[i + 1], states[i + 1 + 1], deltas[i + 1]));
            assert(states2[i] == states[i + 1]);
            assert(states2[i + 1] == states[i + 1 + 1]);
        }
        lemma_game_over_cooldown(states2, deltas2);
        assert(states.last() == states2.last());
    }
}

/// Game-over cooldown, second half: the first update that pushes the
/// accumulated wait beyond the cooldown restarts the session, with a fresh
/// start snake, food placed, and both the flag and the clock cleared.
pub proof fn lemma_cooldown_expiry(pre: GameView, post: GameView, delta: int)
    requires
        pre.game_over,
        spec_update(pre, post, delta),
        pre.wait_time + delta > RESTART_TIME_MS as int,
    ensures
        spec_restarted(pre, post),
        !post.game_over,
        post.wait_time == 0,
        crate::game::is_start_snake(post.snake),
        post.food is Some,
{
}

/// Tick pacing: while the session runs, updates whose accumulated time stays
/// within the moving period do not move the snake; the wait clock carries
/// the exact sum.
pub proof fn lemma_tick_pacing(g0: GameView, g1: GameView, g2: GameView, d1: int, d2: int)
    requires
        !g0.game_over,
        g0.wait_time == 0,
        0 <= d1,
        0 <= d2,
        d1 + d2 <= MOVING_PERIOD_MS as int,
        spec_update(g0, g1, d1),
        spec_update(g1, g2, d2),
    ensures
        g2.snake == g0.snake,
        !g2.game_over,
        g2.wait_time == d1 + d2,
{
}

/// Input bypass: a key that maps to a playable direction, while the session
/// runs, forces a step at once, whatever the wait clock held: afterwards the
/// clock is zero and, when the move was legal, the head sits on the
/// prospective cell.
pub proof fn lemma_input_bypass(pre: GameView, post: GameView, key: Key, d: Direction)
    requires
        !pre.game_over,
        spec_key_pressed(pre, post, key),
        spec_key_dir(key) == Some(d),
        d != pre.snake.dir.spec_opposite(),
    ensures
        post.wait_time == 0,
        pre.move_allowed(d) ==> !post.game_over && post.snake.dir == d
            && post.snake.body[0].x as int == pre.snake.next_head_dir(d).0
            && post.snake.body[0].y as int == pre.snake.next_head_dir(d).1,
{
}

} // verus!
