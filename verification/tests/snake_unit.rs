use snake_game::render::DrawCmd;
use snake_game::snake::{Direction, Snake};

#[test]
fn opposite_directions() {
    assert_eq!(Direction::Up.opposite(), Direction::Down);
    assert_eq!(Direction::Down.opposite(), Direction::Up);
    assert_eq!(Direction::Left.opposite(), Direction::Right);
    assert_eq!(Direction::Right.opposite(), Direction::Left);
}

#[test]
fn new_snake_shape() {
    let s = Snake::new(2, 2);
    assert_eq!(s.head_position(), (4, 2));
    assert_eq!(s.head_direction(), Direction::Right);
    assert_eq!(s.length(), 3);
}

#[test]
fn next_head_cells() {
    let s = Snake::new(2, 2);
    assert_eq!(s.next_head(None), (5, 2));
    assert_eq!(s.next_head(Some(Direction::Up)), (4, 1));
    assert_eq!(s.next_head(Some(Direction::Down)), (4, 3));
    assert_eq!(s.next_head(Some(Direction::Left)), (3, 2));
    assert_eq!(s.next_head(Some(Direction::Right)), (5, 2));
}

#[test]
fn overlap_queries() {
    let s = Snake::new(2, 2);
    // body: (4,2) (3,2) (2,2); the last tail cell is exempt from overlap_tail
    assert!(s.overlap_tail(4, 2));
    assert!(s.overlap_tail(3, 2));
    assert!(!s.overlap_tail(2, 2));
    assert!(s.overlaps_body(2, 2));
    assert!(!s.overlaps_body(5, 2));
    assert!(!s.overlap_tail(9, 9));
}

#[test]
fn move_keeps_length_and_advances_head() {
    let mut s = Snake::new(2, 2);
    s.move_forward(None);
    assert_eq!(s.head_position(), (5, 2));
    assert_eq!(s.length(), 3);
    s.move_forward(Some(Direction::Up));
    assert_eq!(s.head_position(), (5, 1));
    assert_eq!(s.head_direction(), Direction::Up);
    assert_eq!(s.length(), 3);
}

#[test]
fn restore_tail_grows_by_one() {
    let mut s = Snake::new(2, 2);
    s.move_forward(None);
    // the removed tail cell was (2,2); restoring it brings the length to 4
    s.restore_tail();
    assert_eq!(s.length(), 4);
    assert!(s.overlaps_body(2, 2));
}

#[test]
fn snake_draw_lists_body_head_first() {
    let s = Snake::new(2, 2);
    let cmds = s.draw();
    assert_eq!(
        cmds,
        vec![
            DrawCmd::SnakeBlock { x: 4, y: 2 },
            DrawCmd::SnakeBlock { x: 3, y: 2 },
            DrawCmd::SnakeBlock { x: 2, y: 2 },
        ]
    );
}
