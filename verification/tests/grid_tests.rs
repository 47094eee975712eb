use snake_core::direction::Direction;
use snake_core::direction::KeyInput;
use snake_core::grid::GridPosition;
use snake_core::grid::modulo;

#[test]
fn inverse_is_involutive_for_all_directions() {
    for d in [Direction::Up, Direction::Down, Direction::Left, Direction::Right] {
        assert_eq!(d.inverse().inverse(), d);
    }
}

#[test]
fn inverse_pairs_up_down_and_left_right() {
    assert_eq!(Direction::Up.inverse(), Direction::Down);
    assert_eq!(Direction::Down.inverse(), Direction::Up);
    assert_eq!(Direction::Left.inverse(), Direction::Right);
    assert_eq!(Direction::Right.inverse(), Direction::Left);
}

#[test]
fn keycodes_map_to_directions() {
    assert_eq!(Direction::from_keycode(KeyInput::Up), Some(Direction::Up));
    assert_eq!(Direction::from_keycode(KeyInput::Down), Some(Direction::Down));
    assert_eq!(Direction::from_keycode(KeyInput::Left), Some(Direction::Left));
    assert_eq!(Direction::from_keycode(KeyInput::Right), Some(Direction::Right));
    assert_eq!(Direction::from_keycode(KeyInput::Other), None);
}

#[test]
fn modulo_normalizes_negative_values() {
    assert_eq!(modulo(-1, 30), 29);
    assert_eq!(modulo(-30, 30), 0);
    assert_eq!(modulo(-31, 30), 29);
    assert_eq!(modulo(-32768, 7), 6);
}

#[test]
fn modulo_matches_plain_remainder_for_non_negative_values() {
    assert_eq!(modulo(0, 5), 0);
    assert_eq!(modulo(7, 3), 1);
    assert_eq!(modulo(32767, 5), 2);
    assert_eq!(modulo(4, 4), 0);
}

#[test]
fn translate_stays_in_grid() {
    let w = 30;
    let h = 20;
    for d in [Direction::Up, Direction::Down, Direction::Left, Direction::Right] {
        let mut p = GridPosition::new(0, 0);
        for _ in 0..100 {
            p = p.translate(d, w, h);
            assert!(0 <= p.x && p.x < w);
            assert!(0 <= p.y && p.y < h);
        }
    }
}

#[test]
fn translate_wraps_at_every_edge() {
    let w = 30;
    let h = 20;
    assert_eq!(
        GridPosition::new(0, 0).translate(Direction::Left, w, h),
        GridPosition::new(w - 1, 0)
    );
    assert_eq!(
        GridPosition::new(w - 1, 0).translate(Direction::Right, w, h),
        GridPosition::new(0, 0)
    );
    assert_eq!(
        GridPosition::new(5, 0).translate(Direction::Up, w, h),
        GridPosition::new(5, h - 1)
    );
    assert_eq!(
        GridPosition::new(5, h - 1).translate(Direction::Down, w, h),
        GridPosition::new(5, 0)
    );
}

#[test]
fn translate_moves_one_cell_in_the_interior() {
    let w = 30;
    let h = 20;
    let p = GridPosition::new(10, 10);
    assert_eq!(p.translate(Direction::Up, w, h), GridPosition::new(10, 9));
    assert_eq!(p.translate(Direction::Down, w, h), GridPosition::new(10, 11));
    assert_eq!(p.translate(Direction::Left, w, h), GridPosition::new(9, 10));
    assert_eq!(p.translate(Direction::Right, w, h), GridPosition::new(11, 10));
}

#[test]
fn random_positions_lie_in_the_requested_range() {
    for _ in 0..200 {
        let p = GridPosition::random(30, 20);
        assert!(0 <= p.x && p.x < 30);
        assert!(0 <= p.y && p.y < 20);
    }
}

#[test]
fn random_on_a_single_cell_grid_is_the_origin() {
    for _ in 0..10 {
        assert_eq!(GridPosition::random(1, 1), GridPosition::new(0, 0));
    }
}
