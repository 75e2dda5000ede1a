use footsteps::movement::{disclose, replay, ConstraintViolation, KeyInput, Position};

fn p(x: i64, y: i64) -> Position {
    Position { x, y }
}

fn line(n: i64) -> Vec<Position> {
    (0..n).map(|i| p(i, 0)).collect()
}

#[test]
fn replay_of_alternating_steps_discloses_middle() {
    let inputs = vec![KeyInput::Up, KeyInput::Right, KeyInput::Up, KeyInput::Right];
    let r = replay(p(0, 0), &inputs).unwrap();
    assert_eq!(r.positions, vec![p(0, 0), p(0, 1), p(1, 1), p(1, 2), p(2, 2)]);
    // five positions: mid 2, slice [1, 3)
    assert_eq!(r.trail, vec![p(0, 1), p(1, 1)]);
}

#[test]
fn replay_skips_no_move_inputs() {
    let inputs = vec![KeyInput::NoMove, KeyInput::Left, KeyInput::NoMove, KeyInput::Down];
    let r = replay(p(5, 5), &inputs).unwrap();
    assert_eq!(r.positions, vec![p(5, 5), p(4, 5), p(4, 4)]);
    assert_eq!(r.trail, vec![p(5, 5), p(4, 5)]);
}

#[test]
fn replay_of_empty_batch_discloses_nothing() {
    let r = replay(p(2, -3), &vec![]).unwrap();
    assert_eq!(r.positions, vec![p(2, -3)]);
    assert!(r.trail.is_empty());
}

#[test]
fn replay_of_only_no_moves_discloses_nothing() {
    let r = replay(p(1, 1), &vec![KeyInput::NoMove, KeyInput::NoMove]).unwrap();
    assert_eq!(r.positions, vec![p(1, 1)]);
    assert!(r.trail.is_empty());
}

#[test]
fn replay_rejects_batch_with_three_unit_step() {
    let inputs = vec![
        KeyInput::Up,
        KeyInput::Up,
        KeyInput::Right,
        KeyInput::Right,
        KeyInput::TestConstraint,
    ];
    assert_eq!(replay(p(0, 0), &inputs).unwrap_err(), ConstraintViolation { index: 4 });
}

#[test]
fn replay_rejects_whole_batch_whatever_the_position_of_the_bad_step() {
    let good = [KeyInput::Up, KeyInput::Left, KeyInput::Down, KeyInput::Right];
    for at in 0..=good.len() {
        let mut inputs = good.to_vec();
        inputs.insert(at, KeyInput::TestConstraint);
        assert_eq!(replay(p(0, 0), &inputs).unwrap_err().index, at);
    }
}

#[test]
fn replay_of_valid_batch_moves_one_unit_per_step() {
    let inputs = vec![
        KeyInput::Up,
        KeyInput::NoMove,
        KeyInput::Left,
        KeyInput::Left,
        KeyInput::Down,
        KeyInput::Right,
        KeyInput::Up,
        KeyInput::Up,
    ];
    let r = replay(p(-4, 9), &inputs).unwrap();
    assert_eq!(r.positions.len(), 8);
    for w in r.positions.windows(2) {
        assert_eq!((w[1].x - w[0].x).abs() + (w[1].y - w[0].y).abs(), 1);
    }
    // eight positions: mid 4, slice [2, 6)
    assert_eq!(r.trail, r.positions[2..6].to_vec());
}

#[test]
fn replay_near_the_coordinate_limit() {
    let start = p(i64::MAX - 2, i64::MIN + 2);
    let r = replay(start, &vec![KeyInput::Right, KeyInput::Right]).unwrap();
    assert_eq!(r.positions, vec![start, p(i64::MAX - 1, i64::MIN + 2), p(i64::MAX, i64::MIN + 2)]);
}

#[test]
fn disclose_small_sequences() {
    assert!(disclose(&line(0)).is_empty());
    assert!(disclose(&line(1)).is_empty());
    assert_eq!(disclose(&line(2)), line(1));
    assert_eq!(disclose(&line(3)), line(2));
    assert_eq!(disclose(&line(4)), line(3));
}

#[test]
fn disclose_long_sequences() {
    assert_eq!(disclose(&line(5)), vec![p(1, 0), p(2, 0)]);
    assert_eq!(disclose(&line(8)), vec![p(2, 0), p(3, 0), p(4, 0), p(5, 0)]);
    assert_eq!(disclose(&line(9)), vec![p(2, 0), p(3, 0), p(4, 0), p(5, 0)]);
    // twenty positions: mid 10, slice [5, 15)
    assert_eq!(disclose(&line(20)), line(20)[5..15].to_vec());
}
