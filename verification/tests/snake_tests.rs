use rs_snake::Direction;
use rs_snake::Key;
use rs_snake::Point;
use rs_snake::Snake;

#[test]
fn new_snake_is_initial() {
    let s = Snake::new();
    assert_eq!(s.position, Point { x: 200, y: 200 });
    assert_eq!(s.direction, Direction::Up);
    assert_eq!(s.length, 0);
    assert_eq!(s.length_to_grow, 0);
    assert!(s.tail.is_empty());
    assert!(s.alive);
}

#[test]
fn one_update_moves_up_without_growth() {
    let mut s = Snake::new();
    s.update(10, [400, 400]);
    assert_eq!(s.position, Point { x: 200, y: 190 });
    assert!(s.tail.is_empty());
    assert!(s.alive);
    assert_eq!(s.direction, Direction::Up);
}

#[test]
fn update_tail_materializes_pending_growth() {
    let mut s = Snake {
        position: Point { x: 200, y: 200 },
        direction: Direction::Up,
        length: 0,
        length_to_grow: 1,
        tail: vec![Point { x: 200, y: 200 }],
        alive: true,
    };
    s.update_tail();
    assert_eq!(s.tail, vec![Point { x: 200, y: 200 }, Point { x: 200, y: 200 }]);
    assert_eq!(s.length_to_grow, 0);
    assert_eq!(s.length, 1);
}

#[test]
fn update_with_pending_growth_lengthens_tail_by_one() {
    let mut s = Snake {
        position: Point { x: 200, y: 200 },
        direction: Direction::Up,
        length: 0,
        length_to_grow: 1,
        tail: vec![Point { x: 200, y: 200 }],
        alive: true,
    };
    s.update(10, [400, 400]);
    assert_eq!(s.position, Point { x: 200, y: 190 });
    assert_eq!(s.tail, vec![Point { x: 200, y: 200 }, Point { x: 200, y: 200 }]);
    assert_eq!(s.length_to_grow, 0);
    assert_eq!(s.length, 1);
    assert!(s.alive);
}

#[test]
fn update_without_growth_keeps_tail_length() {
    let mut s = Snake {
        position: Point { x: 100, y: 100 },
        direction: Direction::Right,
        length: 2,
        length_to_grow: 0,
        tail: vec![Point { x: 90, y: 100 }, Point { x: 80, y: 100 }],
        alive: true,
    };
    s.update(10, [400, 400]);
    assert_eq!(s.position, Point { x: 110, y: 100 });
    assert_eq!(s.tail, vec![Point { x: 100, y: 100 }, Point { x: 90, y: 100 }]);
    assert_eq!(s.length, 2);
    assert_eq!(s.length_to_grow, 0);
    assert!(s.alive);
}

#[test]
fn reversal_request_is_ignored() {
    let mut s = Snake::new();
    assert_eq!(s.direction, Direction::Up);
    s.change_direction(Key::S);
    assert_eq!(s.direction, Direction::Up);
    s.change_direction(Key::Down);
    assert_eq!(s.direction, Direction::Up);

    s.change_direction(Key::A);
    assert_eq!(s.direction, Direction::Left);
    s.change_direction(Key::D);
    assert_eq!(s.direction, Direction::Left);
    s.change_direction(Key::Right);
    assert_eq!(s.direction, Direction::Left);
}

#[test]
fn directional_keys_and_aliases_steer() {
    let mut s = Snake::new();
    s.change_direction(Key::A);
    assert_eq!(s.direction, Direction::Left);
    s.change_direction(Key::S);
    assert_eq!(s.direction, Direction::Down);
    s.change_direction(Key::Right);
    assert_eq!(s.direction, Direction::Right);
    s.change_direction(Key::Up);
    assert_eq!(s.direction, Direction::Up);
}

#[test]
fn non_directional_keys_are_ignored() {
    let mut s = Snake::new();
    s.change_direction(Key::Y);
    assert_eq!(s.direction, Direction::Up);
    s.change_direction(Key::N);
    assert_eq!(s.direction, Direction::Up);
    s.change_direction(Key::Other);
    assert_eq!(s.direction, Direction::Up);
}

#[test]
fn leaving_the_board_left_kills() {
    let mut s = Snake {
        position: Point { x: 0, y: 200 },
        direction: Direction::Left,
        length: 0,
        length_to_grow: 0,
        tail: vec![],
        alive: true,
    };
    s.update(10, [400, 400]);
    assert_eq!(s.position, Point { x: -10, y: 200 });
    assert!(!s.alive);
}

#[test]
fn leaving_the_board_top_kills() {
    let mut s = Snake {
        position: Point { x: 200, y: 0 },
        direction: Direction::Up,
        length: 0,
        length_to_grow: 0,
        tail: vec![],
        alive: true,
    };
    s.update(10, [400, 400]);
    assert!(!s.alive);
}

#[test]
fn reaching_the_far_edge_kills() {
    let mut s = Snake {
        position: Point { x: 390, y: 200 },
        direction: Direction::Right,
        length: 0,
        length_to_grow: 0,
        tail: vec![],
        alive: true,
    };
    s.update(10, [400, 400]);
    assert_eq!(s.position, Point { x: 400, y: 200 });
    assert!(!s.alive);
}

#[test]
fn landing_on_a_tail_cell_kills() {
    let mut s = Snake {
        position: Point { x: 200, y: 200 },
        direction: Direction::Up,
        length: 2,
        length_to_grow: 0,
        tail: vec![Point { x: 200, y: 190 }, Point { x: 190, y: 190 }],
        alive: true,
    };
    s.update(10, [400, 400]);
    assert_eq!(s.position, Point { x: 200, y: 190 });
    assert!(!s.alive);
}

#[test]
fn trimmed_tail_end_does_not_kill() {
    // The oldest tail cell is trimmed before the head moves, so stepping
    // onto that very cell is not a collision.
    let mut s = Snake {
        position: Point { x: 200, y: 200 },
        direction: Direction::Up,
        length: 2,
        length_to_grow: 0,
        tail: vec![Point { x: 200, y: 210 }, Point { x: 200, y: 190 }],
        alive: true,
    };
    s.update(10, [400, 400]);
    assert_eq!(s.position, Point { x: 200, y: 190 });
    assert_eq!(s.tail, vec![Point { x: 200, y: 200 }, Point { x: 200, y: 210 }]);
    assert!(s.alive);
}

#[test]
fn dead_snake_is_frozen() {
    let mut s = Snake {
        position: Point { x: 200, y: 200 },
        direction: Direction::Down,
        length: 1,
        length_to_grow: 3,
        tail: vec![Point { x: 200, y: 190 }],
        alive: false,
    };
    s.update(10, [400, 400]);
    assert_eq!(s.position, Point { x: 200, y: 200 });
    assert_eq!(s.tail, vec![Point { x: 200, y: 190 }]);
    assert_eq!(s.length, 1);
    assert_eq!(s.length_to_grow, 3);
    assert!(!s.alive);
}
