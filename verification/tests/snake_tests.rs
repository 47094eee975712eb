use snake_core::direction::Direction;
use snake_core::grid::GridPosition;
use snake_core::grid::contains_position;
use snake_core::snake::AdvanceOutcome;
use snake_core::snake::Snake;

#[test]
fn contains_position_finds_and_misses() {
    let v = vec![GridPosition::new(1, 2), GridPosition::new(3, 4)];
    assert!(contains_position(&v, GridPosition::new(3, 4)));
    assert!(!contains_position(&v, GridPosition::new(2, 1)));
    assert!(!contains_position(&Vec::new(), GridPosition::new(0, 0)));
}

#[test]
fn advance_moves_one_cell_and_keeps_length() {
    let mut s = Snake::new(GridPosition::new(5, 5), Direction::Right);
    let outcome = s.advance(30, 20, false);
    assert_eq!(outcome, AdvanceOutcome::Moved(GridPosition::new(6, 5)));
    assert_eq!(s.len(), 1);
    assert_eq!(s.head(), GridPosition::new(6, 5));
}

#[test]
fn advance_after_eating_grows_by_exactly_one() {
    let mut s = Snake::new(GridPosition::new(5, 5), Direction::Right);
    let before = s.len();
    let outcome = s.advance(30, 20, true);
    assert_eq!(outcome, AdvanceOutcome::Moved(GridPosition::new(6, 5)));
    assert_eq!(s.len(), before + 1);
    assert_eq!(s.segments()[0], GridPosition::new(6, 5));
    assert_eq!(s.segments()[1], GridPosition::new(5, 5));
    let outcome = s.advance(30, 20, false);
    assert_eq!(outcome, AdvanceOutcome::Moved(GridPosition::new(7, 5)));
    assert_eq!(s.len(), before + 1);
}

#[test]
fn reversal_request_is_rejected() {
    let mut s = Snake::new(GridPosition::new(5, 5), Direction::Right);
    s.set_pending_direction(Direction::Left);
    let outcome = s.advance(30, 20, false);
    assert_eq!(outcome, AdvanceOutcome::Moved(GridPosition::new(6, 5)));
    assert_eq!(s.direction(), Direction::Right);
}

#[test]
fn non_reversal_request_turns_the_snake() {
    let mut s = Snake::new(GridPosition::new(5, 5), Direction::Right);
    s.set_pending_direction(Direction::Down);
    let outcome = s.advance(30, 20, false);
    assert_eq!(outcome, AdvanceOutcome::Moved(GridPosition::new(5, 6)));
    assert_eq!(s.direction(), Direction::Down);
}

#[test]
fn wrapping_onto_the_third_segment_is_a_self_collision() {
    // On a grid three cells wide a snake of length three fills a whole row,
    // so one more step left wraps the head onto segment index 2.
    let mut s = Snake::new(GridPosition::new(0, 0), Direction::Left);
    assert_eq!(
        s.advance(3, 2, true),
        AdvanceOutcome::Moved(GridPosition::new(2, 0))
    );
    assert_eq!(
        s.advance(3, 2, true),
        AdvanceOutcome::Moved(GridPosition::new(1, 0))
    );
    assert_eq!(s.len(), 3);
    assert_eq!(s.segments()[2], GridPosition::new(0, 0));
    let outcome = s.advance(3, 2, false);
    assert_eq!(outcome, AdvanceOutcome::SelfCollision);
    // the body did not move
    assert_eq!(s.len(), 3);
    assert_eq!(s.segments()[0], GridPosition::new(1, 0));
    assert_eq!(s.segments()[1], GridPosition::new(2, 0));
    assert_eq!(s.segments()[2], GridPosition::new(0, 0));
}

#[test]
fn pending_direction_is_consumed_by_advance() {
    let mut s = Snake::new(GridPosition::new(5, 5), Direction::Right);
    s.set_pending_direction(Direction::Up);
    s.advance(30, 20, false);
    assert_eq!(s.direction(), Direction::Up);
    // no further input: the heading persists
    let outcome = s.advance(30, 20, false);
    assert_eq!(outcome, AdvanceOutcome::Moved(GridPosition::new(5, 3)));
}
