use ehce::combat::combat_clear_wanted;
use ehce::player_input::{
    directional_axis, directional_throttle, player_signals, tank_controls, MovementKeys,
    PlayerBehavior, MINUS_ONE_BITS, ONE_BITS,
};
use ehce::signals::SignalValue;

fn keys(w: bool, s: bool, a: bool, d: bool) -> MovementKeys {
    MovementKeys { forward: w, back: s, left: a, right: d }
}

#[test]
fn unit_bits() {
    assert_eq!(ONE_BITS, 1.0f32.to_bits());
    assert_eq!(MINUS_ONE_BITS, (-1.0f32).to_bits());
}

#[test]
fn tank_signals() {
    let dir = (0, 0);
    assert_eq!(
        player_signals(PlayerBehavior::Tank, keys(true, true, false, false), dir),
        (SignalValue::Off, SignalValue::Scalar(1.0f32.to_bits()))
    );
    assert_eq!(
        player_signals(PlayerBehavior::Tank, keys(false, true, true, false), dir),
        (SignalValue::Scalar(1.0f32.to_bits()), SignalValue::Scalar((-1.0f32).to_bits()))
    );
    assert_eq!(
        player_signals(PlayerBehavior::Tank, keys(false, false, false, true), dir),
        (SignalValue::Scalar((-1.0f32).to_bits()), SignalValue::Scalar(0))
    );
    assert_eq!(
        player_signals(PlayerBehavior::Tank, keys(false, false, true, true), dir),
        (SignalValue::Off, SignalValue::Scalar(0))
    );
}

#[test]
fn directional_signals() {
    let dir = (0.6f32.to_bits(), 0.8f32.to_bits());
    assert_eq!(
        player_signals(PlayerBehavior::Directional, keys(true, false, false, true), dir),
        (SignalValue::new_vector(dir.0, dir.1), SignalValue::Scalar(1.0f32.to_bits()))
    );
    assert_eq!(
        player_signals(PlayerBehavior::Directional, keys(true, true, true, true), dir),
        (SignalValue::Off, SignalValue::Off)
    );
    assert_eq!(directional_axis(keys(true, false, false, true)), (1, 1));
    assert_eq!(directional_axis(keys(false, true, true, false)), (-1, -1));
    assert_eq!(directional_axis(keys(true, true, true, false)), (-1, 0));
}

#[test]
fn controller_controls() {
    assert_eq!(tank_controls(keys(true, true, true, true)), (1, -1));
    assert_eq!(tank_controls(keys(false, true, false, true)), (-1, 1));
    assert_eq!(tank_controls(keys(false, false, true, false)), (0, -1));
    assert_eq!(tank_controls(keys(false, false, false, false)), (0, 0));
    assert_eq!(directional_throttle(keys(false, false, true, false)), 1);
    assert_eq!(directional_throttle(keys(false, false, true, true)), 0);
}

#[test]
fn combat_clear_decision() {
    assert!(!combat_clear_wanted(0, 0));
    assert!(combat_clear_wanted(2, 0));
    assert!(combat_clear_wanted(0, 1));
}

#[test]
fn unique_devices_fitted_once() {
    let mut active = std::collections::HashSet::new();
    assert!(ehce::combat::admit_device(&mut active, 7, true));
    assert!(!ehce::combat::admit_device(&mut active, 7, true));
    assert!(ehce::combat::admit_device(&mut active, 8, false));
    assert!(ehce::combat::admit_device(&mut active, 8, false));
    assert_eq!(active.len(), 2);
}
