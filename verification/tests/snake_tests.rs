use snake_game::snake::{Direction, Snake};

#[test]
fn new_snake_has_one_segment_heading_right() {
    let s = Snake::new(12, 34);
    assert_eq!(s.body.len(), 1);
    assert_eq!(s.head_position(), (12, 34));
    assert_eq!(s.direction, Direction::Right);
}

#[test]
fn movement_preserves_length_without_growth() {
    let directions = [Direction::Up, Direction::Down, Direction::Left, Direction::Right];
    for d in directions {
        let mut s = Snake::new(10, 10);
        s.change_direction(d);
        s.move_forward(false);
        assert_eq!(s.body.len(), 1);
        s.move_forward(false);
        assert_eq!(s.body.len(), 1);
    }
}

#[test]
fn movement_grows_length_by_exactly_one() {
    let directions = [Direction::Up, Direction::Down, Direction::Left, Direction::Right];
    for d in directions {
        let mut s = Snake::new(10, 10);
        s.change_direction(d);
        s.move_forward(true);
        assert_eq!(s.body.len(), 2);
        s.move_forward(true);
        assert_eq!(s.body.len(), 3);
        s.move_forward(false);
        assert_eq!(s.body.len(), 3);
    }
}

#[test]
fn head_offsets_one_cell_along_heading() {
    let mut s = Snake::new(10, 10);
    s.change_direction(Direction::Up);
    s.move_forward(false);
    assert_eq!(s.head_position(), (9, 10));

    let mut s = Snake::new(10, 10);
    s.change_direction(Direction::Down);
    s.move_forward(false);
    assert_eq!(s.head_position(), (11, 10));

    let mut s = Snake::new(10, 10);
    s.change_direction(Direction::Left);
    s.move_forward(false);
    assert_eq!(s.head_position(), (10, 9));

    let mut s = Snake::new(10, 10);
    s.change_direction(Direction::Right);
    s.move_forward(false);
    assert_eq!(s.head_position(), (10, 11));
}

#[test]
fn head_offsets_one_cell_when_growing() {
    let mut s = Snake::new(5, 5);
    s.change_direction(Direction::Down);
    s.move_forward(true);
    assert_eq!(s.head_position(), (6, 5));
    assert_eq!(s.body.len(), 2);
}

#[test]
fn change_direction_overwrites_heading_unconditionally() {
    let mut s = Snake::new(3, 3);
    assert_eq!(s.direction, Direction::Right);
    s.change_direction(Direction::Left);
    assert_eq!(s.direction, Direction::Left);
    assert_eq!(s.body.len(), 1);
    assert_eq!(s.head_position(), (3, 3));
}

#[test]
fn is_colliding_true_for_every_member_false_otherwise() {
    let mut s = Snake::new(10, 10);
    s.move_forward(true);
    s.move_forward(true);
    // Body is now [(10, 12), (10, 11), (10, 10)].
    assert!(s.is_colliding((10, 12)));
    assert!(s.is_colliding((10, 11)));
    assert!(s.is_colliding((10, 10)));
    assert!(!s.is_colliding((10, 13)));
    assert!(!s.is_colliding((10, 9)));
    assert!(!s.is_colliding((11, 10)));
    assert!(!s.is_colliding((9, 12)));
}

#[test]
fn is_colliding_on_single_segment() {
    let s = Snake::new(0, 0);
    assert!(s.is_colliding((0, 0)));
    assert!(!s.is_colliding((0, 1)));
}
