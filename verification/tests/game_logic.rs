use snake_game::game::{Game, Key};
use snake_game::render::DrawCmd;
use snake_game::snake::Direction;

#[test]
fn new_game_initial_state() {
    let g = Game::new(20, 20);
    assert!(!g.game_over());
    assert_eq!(g.wait_time_ms(), 0);
    assert_eq!(g.width(), 20);
    assert_eq!(g.height(), 20);
    assert_eq!(g.head_position(), (4, 2));
    assert_eq!(g.head_direction(), Direction::Right);
    assert_eq!(g.snake_length(), 3);
    assert!(g.food_exists());
    let (fx, fy) = g.food_position();
    assert!(fx >= 1 && fx < 19);
    assert!(fy >= 1 && fy < 19);
}

#[test]
fn try_new_rejects_degenerate_arenas() {
    assert!(Game::try_new(5, 4).is_none());
    assert!(Game::try_new(6, 3).is_none());
    assert!(Game::try_new(2, 2).is_none());
    let g = Game::try_new(6, 4).unwrap();
    assert!(!g.game_over());
    assert!(g.food_exists());
    assert_eq!(g.head_position(), (4, 2));
}

#[test]
fn tick_pacing_needs_more_than_the_period() {
    let mut g = Game::new(20, 20);
    g.update(50);
    g.update(50);
    // cumulative 100 ms is not strictly more than the 100 ms period
    assert_eq!(g.head_position(), (4, 2));
    assert_eq!(g.wait_time_ms(), 100);
    g.update(50);
    // 150 ms exceeds the period: exactly one step to the right
    assert_eq!(g.head_position(), (5, 2));
    assert_eq!(g.wait_time_ms(), 0);
}

#[test]
fn input_bypasses_the_clock() {
    let mut g = Game::new(20, 20);
    g.update(30);
    assert_eq!(g.wait_time_ms(), 30);
    g.key_pressed(Key::Up);
    assert_eq!(g.head_position(), (4, 1));
    assert_eq!(g.head_direction(), Direction::Up);
    assert_eq!(g.wait_time_ms(), 0);
}

#[test]
fn reverse_key_is_ignored() {
    let mut g = Game::new(20, 20);
    // heading right: left is the exact opposite
    g.key_pressed(Key::Left);
    assert_eq!(g.head_position(), (4, 2));
    assert_eq!(g.head_direction(), Direction::Right);
    assert_eq!(g.snake_length(), 3);
    assert!(!g.game_over());
}

#[test]
fn unmapped_key_is_a_no_op() {
    let mut g = Game::new(20, 20);
    g.key_pressed(Key::Other);
    assert_eq!(g.head_position(), (4, 2));
    assert_eq!(g.head_direction(), Direction::Right);
    assert!(!g.game_over());
}

#[test]
fn hitting_the_border_ends_the_game() {
    let mut g = Game::new(6, 4);
    // head (4,2); one step right lands on x = 5 = width - 1: the border
    g.key_pressed(Key::Right);
    assert!(g.game_over());
    assert_eq!(g.head_position(), (4, 2));
    assert_eq!(g.snake_length(), 3);
    assert_eq!(g.wait_time_ms(), 0);
}

#[test]
fn keys_are_ignored_while_game_over() {
    let mut g = Game::new(6, 4);
    g.key_pressed(Key::Right);
    assert!(g.game_over());
    g.key_pressed(Key::Up);
    assert!(g.game_over());
    assert_eq!(g.head_position(), (4, 2));
}

#[test]
fn eating_food_grows_the_snake() {
    let mut g = Game::new(20, 20);
    assert!(g.place_food(5, 2));
    g.key_pressed(Key::Right);
    // the step onto the food keeps the removed tail cell: net one cell longer
    assert_eq!(g.head_position(), (5, 2));
    assert_eq!(g.snake_length(), 4);
    assert!(!g.food_exists());
    // a step without food does not change the length
    assert!(g.place_food(10, 10));
    g.key_pressed(Key::Right);
    assert_eq!(g.head_position(), (6, 2));
    assert_eq!(g.snake_length(), 4);
    assert!(g.food_exists());
}

#[test]
fn running_into_the_body_ends_the_game() {
    let mut g = Game::new(20, 20);
    assert!(g.place_food(5, 2));
    g.key_pressed(Key::Right);
    assert!(g.place_food(6, 2));
    g.key_pressed(Key::Right);
    assert_eq!(g.snake_length(), 5);
    // body: (6,2) (5,2) (4,2) (3,2) (2,2); a U-turn runs into (5,2)
    g.key_pressed(Key::Up);
    g.key_pressed(Key::Left);
    assert_eq!(g.head_position(), (5, 1));
    g.key_pressed(Key::Down);
    assert!(g.game_over());
    assert_eq!(g.head_position(), (5, 1));
    assert_eq!(g.snake_length(), 5);
}

#[test]
fn moving_onto_the_vacating_tail_cell_is_legal() {
    let mut g = Game::new(20, 20);
    assert!(g.place_food(5, 2));
    g.key_pressed(Key::Right);
    assert_eq!(g.snake_length(), 4);
    // body: (5,2) (4,2) (3,2) (2,2); a tight loop chases the tail
    g.key_pressed(Key::Up);
    g.key_pressed(Key::Left);
    // the next cell (4,2) is the tail cell, which vacates on this same move
    g.key_pressed(Key::Down);
    assert!(!g.game_over());
    assert_eq!(g.head_position(), (4, 2));
    assert_eq!(g.snake_length(), 4);
}

#[test]
fn cooldown_must_be_strictly_exceeded() {
    let mut g = Game::new(6, 4);
    g.key_pressed(Key::Right);
    assert!(g.game_over());
    assert_eq!(g.wait_time_ms(), 0);
    g.update(1000);
    g.update(1000);
    g.update(1000);
    // exactly 3000 ms: the cooldown has not yet expired
    assert!(g.game_over());
    assert_eq!(g.wait_time_ms(), 3000);
    g.update(1);
    // 3001 ms: restarted with the start configuration
    assert!(!g.game_over());
    assert_eq!(g.wait_time_ms(), 0);
    assert_eq!(g.head_position(), (4, 2));
    assert_eq!(g.head_direction(), Direction::Right);
    assert_eq!(g.snake_length(), 3);
    assert!(g.food_exists());
}

#[test]
fn food_respawns_on_update_inside_the_border() {
    let mut g = Game::new(20, 20);
    assert!(g.place_food(5, 2));
    g.key_pressed(Key::Right);
    assert!(!g.food_exists());
    g.update(0);
    assert!(g.food_exists());
    let (fx, fy) = g.food_position();
    assert!(fx >= 1 && fx < 19);
    assert!(fy >= 1 && fy < 19);
    // body is (5,2) (4,2) (3,2) (2,2): the fresh food avoids it
    for cell in [(5, 2), (4, 2), (3, 2), (2, 2)] {
        assert_ne!((fx, fy), cell);
    }
}

#[test]
fn place_food_rejects_border_body_and_dead_sessions() {
    let mut g = Game::new(20, 20);
    assert!(!g.place_food(0, 5));
    assert!(!g.place_food(5, 19));
    assert!(!g.place_food(19, 5));
    assert!(!g.place_food(3, 2));
    assert!(g.place_food(1, 1));
    assert_eq!(g.food_position(), (1, 1));
    let mut dead = Game::new(6, 4);
    dead.key_pressed(Key::Right);
    assert!(dead.game_over());
    assert!(!dead.place_food(1, 1));
}

#[test]
fn manual_restart_resets_the_session() {
    let mut g = Game::new(8, 8);
    g.key_pressed(Key::Up);
    g.update(150);
    g.restart();
    assert!(!g.game_over());
    assert_eq!(g.wait_time_ms(), 0);
    assert_eq!(g.head_position(), (4, 2));
    assert_eq!(g.head_direction(), Direction::Right);
    assert_eq!(g.snake_length(), 3);
    assert!(g.food_exists());
}

#[test]
fn draw_orders_snake_food_border() {
    let g = Game::new(8, 6);
    let (fx, fy) = g.food_position();
    let cmds = g.draw();
    assert_eq!(cmds.len(), 8);
    assert_eq!(cmds[0], DrawCmd::SnakeBlock { x: 4, y: 2 });
    assert_eq!(cmds[1], DrawCmd::SnakeBlock { x: 3, y: 2 });
    assert_eq!(cmds[2], DrawCmd::SnakeBlock { x: 2, y: 2 });
    assert_eq!(cmds[3], DrawCmd::FoodBlock { x: fx, y: fy });
    assert_eq!(cmds[4], DrawCmd::BorderRect { x: 0, y: 0, w: 8, h: 1 });
    assert_eq!(cmds[5], DrawCmd::BorderRect { x: 0, y: 5, w: 8, h: 1 });
    assert_eq!(cmds[6], DrawCmd::BorderRect { x: 0, y: 0, w: 1, h: 6 });
    assert_eq!(cmds[7], DrawCmd::BorderRect { x: 7, y: 0, w: 1, h: 6 });
}

#[test]
fn draw_overlays_the_arena_when_dead() {
    let mut g = Game::new(6, 4);
    g.key_pressed(Key::Right);
    assert!(g.game_over());
    let cmds = g.draw();
    assert_eq!(
        *cmds.last().unwrap(),
        DrawCmd::GameOverRect { x: 0, y: 0, w: 6, h: 4 }
    );
}
