use snake::grid::{Coordinate, Direction, GRID_HEIGHT, GRID_WIDTH};
use snake::score::ScoreTracker;
use snake::snake::Snake;

#[test]
fn out_of_bounds_is_false_on_the_field() {
    assert!(!Coordinate::new(0, 0).out_of_bounds());
    assert!(!Coordinate::new(GRID_WIDTH - 1, GRID_HEIGHT - 1).out_of_bounds());
    assert!(!Coordinate::new(10, 10).out_of_bounds());
    assert!(!Coordinate::new(0, GRID_HEIGHT - 1).out_of_bounds());
    assert!(!Coordinate::new(GRID_WIDTH - 1, 0).out_of_bounds());
}

#[test]
fn out_of_bounds_is_true_off_the_field() {
    assert!(Coordinate::new(-1, 0).out_of_bounds());
    assert!(Coordinate::new(0, -1).out_of_bounds());
    assert!(Coordinate::new(GRID_WIDTH, 0).out_of_bounds());
    assert!(Coordinate::new(0, GRID_HEIGHT).out_of_bounds());
    assert!(Coordinate::new(-1, -1).out_of_bounds());
    assert!(Coordinate::new(GRID_WIDTH, GRID_HEIGHT).out_of_bounds());
}

#[test]
fn inverse_twice_is_identity() {
    let all = [Direction::Up, Direction::Down, Direction::Left, Direction::Right];
    for d in all {
        assert_eq!(d.inverse().inverse(), d);
    }
}

#[test]
fn inverse_is_never_the_direction_itself() {
    let all = [Direction::Up, Direction::Down, Direction::Left, Direction::Right];
    for d in all {
        assert_ne!(d.inverse(), d);
    }
}

#[test]
fn inverse_pairs() {
    assert_eq!(Direction::Up.inverse(), Direction::Down);
    assert_eq!(Direction::Down.inverse(), Direction::Up);
    assert_eq!(Direction::Left.inverse(), Direction::Right);
    assert_eq!(Direction::Right.inverse(), Direction::Left);
}

#[test]
fn new_snake_spawns_as_specified() {
    let s = Snake::new();
    assert_eq!(s.coordinate, Coordinate::new(10, 10));
    assert_eq!(s.direction, Direction::Right);
    assert_eq!(s.new_direction, None);
    assert_eq!(s.queued_direction, None);
    assert_eq!(s.tail.len(), 4);
    for (i, part) in s.tail.iter().enumerate() {
        assert_eq!(part.coordinate, Coordinate::new(7 + i as i16, 10));
    }
}

#[test]
fn init_tail_stretches_left_of_the_head() {
    let tail = Snake::init_tail(Coordinate::new(4, 2));
    assert_eq!(tail.len(), 4);
    for (i, part) in tail.iter().enumerate() {
        assert_eq!(part.coordinate, Coordinate::new(1 + i as i16, 2));
    }
}

#[test]
fn first_request_goes_to_the_pending_slot() {
    let mut s = Snake::new();
    s.set_new_direction(Direction::Up);
    assert_eq!(s.new_direction, Some(Direction::Up));
    assert_eq!(s.queued_direction, None);
}

#[test]
fn second_request_goes_to_the_queued_slot() {
    let mut s = Snake::new();
    s.set_new_direction(Direction::Up);
    s.set_new_direction(Direction::Left);
    assert_eq!(s.new_direction, Some(Direction::Up));
    assert_eq!(s.queued_direction, Some(Direction::Left));
}

#[test]
fn third_request_overwrites_the_queued_slot() {
    let mut s = Snake::new();
    s.set_new_direction(Direction::Up);
    s.set_new_direction(Direction::Left);
    s.set_new_direction(Direction::Down);
    assert_eq!(s.new_direction, Some(Direction::Up));
    assert_eq!(s.queued_direction, Some(Direction::Down));
}

#[test]
fn score_starts_at_zero_and_counts_up() {
    let mut t = ScoreTracker::new();
    assert_eq!(t.score, 0);
    assert_eq!(t.coordinate, Coordinate::new(1, 1));
    t.inc_score();
    assert_eq!(t.score, 1);
    t.inc_score();
    assert_eq!(t.score, 2);
}

#[test]
fn score_stays_put_at_its_ceiling() {
    let mut t = ScoreTracker { score: u16::MAX, coordinate: Coordinate::new(1, 1) };
    t.inc_score();
    assert_eq!(t.score, u16::MAX);
}

#[test]
fn update_moves_the_head_one_cell() {
    let mut s = Snake::new();
    s.update();
    assert_eq!(s.coordinate, Coordinate::new(11, 10));
    s.direction = Direction::Down;
    s.update();
    assert_eq!(s.coordinate, Coordinate::new(11, 11));
    s.direction = Direction::Left;
    s.update();
    assert_eq!(s.coordinate, Coordinate::new(10, 11));
    s.direction = Direction::Up;
    s.update();
    assert_eq!(s.coordinate, Coordinate::new(10, 10));
}
