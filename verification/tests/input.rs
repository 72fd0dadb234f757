use orrery::input::{movement_steps, Axis, KeyState, Player, Step};

fn keys(bits: u8) -> KeyState {
    KeyState {
        forward: bits & 1 != 0,
        back: bits & 2 != 0,
        left: bits & 4 != 0,
        right: bits & 8 != 0,
        up: bits & 16 != 0,
        down: bits & 32 != 0,
    }
}

fn net(steps: &[Step], axis: Axis) -> i32 {
    steps
        .iter()
        .filter(|s| s.axis == axis)
        .map(|s| if s.positive { 1 } else { -1 })
        .sum()
}

#[test]
fn no_keys_no_steps() {
    let idle = KeyState::released();
    assert_eq!(idle, keys(0));
    assert!(idle.is_idle());
    assert_eq!(movement_steps(&idle), vec![]);
}

#[test]
fn steps_are_empty_only_when_idle() {
    for bits in 0..64u8 {
        let k = keys(bits);
        assert_eq!(k.is_idle(), bits == 0);
        assert_eq!(movement_steps(&k).is_empty(), bits == 0);
    }
}

#[test]
fn single_keys() {
    let want = [
        Step { axis: Axis::Forward, positive: true },
        Step { axis: Axis::Forward, positive: false },
        Step { axis: Axis::Right, positive: false },
        Step { axis: Axis::Right, positive: true },
        Step { axis: Axis::Up, positive: true },
        Step { axis: Axis::Up, positive: false },
    ];
    for (i, step) in want.iter().enumerate() {
        assert_eq!(movement_steps(&keys(1 << i)), vec![*step]);
    }
}

#[test]
fn all_keys_in_reading_order() {
    assert_eq!(
        movement_steps(&keys(63)),
        vec![
            Step { axis: Axis::Forward, positive: true },
            Step { axis: Axis::Forward, positive: false },
            Step { axis: Axis::Right, positive: false },
            Step { axis: Axis::Right, positive: true },
            Step { axis: Axis::Up, positive: true },
            Step { axis: Axis::Up, positive: false },
        ]
    );
}

#[test]
fn forward_and_right() {
    let k = KeyState { forward: true, right: true, ..KeyState::released() };
    assert_eq!(
        movement_steps(&k),
        vec![
            Step { axis: Axis::Forward, positive: true },
            Step { axis: Axis::Right, positive: true },
        ]
    );
}

#[test]
fn one_step_per_key() {
    for bits in 0..64u8 {
        assert_eq!(movement_steps(&keys(bits)).len(), bits.count_ones() as usize);
    }
}

#[test]
fn opposite_keys_cancel() {
    for bits in 0..64u8 {
        let k = keys(bits);
        let steps = movement_steps(&k);
        assert_eq!(net(&steps, Axis::Forward), k.forward as i32 - k.back as i32);
        assert_eq!(net(&steps, Axis::Right), k.right as i32 - k.left as i32);
        assert_eq!(net(&steps, Axis::Up), k.up as i32 - k.down as i32);
    }
    let both = KeyState { forward: true, back: true, ..KeyState::released() };
    assert_eq!(net(&movement_steps(&both), Axis::Forward), 0);
}

#[test]
fn standard_player() {
    let player = Player::standard();
    assert_eq!(player, Player { move_speed_milli: 100_000, look_speed_milli: 1 });
    assert_eq!((player.move_speed_milli as f64 / 1000.0) as f32, 100.0_f32);
    assert_eq!((player.look_speed_milli as f64 / 1000.0) as f32, 0.001_f32);
}
