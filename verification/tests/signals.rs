use ehce::signals::{SignalId, SignalValue, UnitSignals};

fn scalar(v: f32) -> SignalValue {
    SignalValue::Scalar(v.to_bits())
}

#[test]
fn set_then_get_returns_value() {
    let mut s = UnitSignals::new();
    assert_eq!(s.get(SignalId::Facing), SignalValue::Off);
    s.set(SignalId::Facing, scalar(0.5));
    assert_eq!(s.get(SignalId::Facing), scalar(0.5));
    assert_eq!(s.get(SignalId::Movement), SignalValue::Off);
    assert_eq!(s.get(SignalId::Action(3)), SignalValue::Off);
}

#[test]
fn rising_and_changed_on_first_set() {
    let mut s = UnitSignals::new();
    s.set(SignalId::Action(1), scalar(1.0));
    assert!(s.is_rising_edge(&SignalId::Action(1)));
    assert!(s.is_changed(&SignalId::Action(1)));
    assert!(!s.is_falling_edge(&SignalId::Action(1)));
    assert!(!s.is_changed(&SignalId::Action(2)));
}

#[test]
fn setting_zero_unsets_and_falls() {
    let mut s = UnitSignals::new();
    s.set(SignalId::Movement, scalar(2.0));
    s.tick();
    s.set(SignalId::Movement, scalar(-0.0));
    assert_eq!(s.get(SignalId::Movement), SignalValue::Off);
    assert!(s.is_falling_edge(&SignalId::Movement));
    assert!(s.is_changed(&SignalId::Movement));
    assert!(!s.is_rising_edge(&SignalId::Movement));
}

#[test]
fn setting_zero_vector_unsets() {
    let mut s = UnitSignals::new();
    s.set(SignalId::Facing, SignalValue::new_vector(1.0f32.to_bits(), 0.0f32.to_bits()));
    s.tick();
    s.set(SignalId::Facing, SignalValue::new_vector(0.0f32.to_bits(), (-0.0f32).to_bits()));
    assert_eq!(s.get(SignalId::Facing), SignalValue::Off);
    assert!(s.is_falling_edge(&SignalId::Facing));
}

#[test]
fn same_value_again_is_no_change() {
    let mut s = UnitSignals::new();
    s.set(SignalId::Facing, scalar(3.0));
    s.tick();
    s.set(SignalId::Facing, scalar(3.0));
    assert!(!s.is_changed(&SignalId::Facing));
    assert!(!s.is_rising_edge(&SignalId::Facing));
    s.set(SignalId::Facing, scalar(4.0));
    assert!(s.is_changed(&SignalId::Facing));
    assert!(!s.is_rising_edge(&SignalId::Facing));
}

#[test]
fn nan_equals_nan_for_changes() {
    let mut s = UnitSignals::new();
    s.set(SignalId::Facing, scalar(f32::NAN));
    s.tick();
    s.set(SignalId::Facing, SignalValue::Scalar(0x7fc0_0001));
    assert!(!s.is_changed(&SignalId::Facing));
    assert_eq!(scalar(f32::NAN), SignalValue::Scalar(0x7fc0_0001));
    assert_eq!(scalar(0.0), scalar(-0.0));
    assert_ne!(scalar(1.0), SignalValue::new_vector(1.0f32.to_bits(), 0));
}

#[test]
fn tick_clears_marks_keeps_values() {
    let mut s = UnitSignals::new();
    s.set(SignalId::Action(7), scalar(1.0));
    s.tick();
    assert!(!s.is_changed(&SignalId::Action(7)));
    assert!(!s.is_rising_edge(&SignalId::Action(7)));
    assert_eq!(s.get(SignalId::Action(7)), scalar(1.0));
}

#[test]
fn unset_of_unset_signal_does_nothing() {
    let mut s = UnitSignals::new();
    s.unset(SignalId::Movement);
    assert!(!s.is_changed(&SignalId::Movement));
    assert!(!s.is_falling_edge(&SignalId::Movement));
}

#[test]
fn zero_values() {
    assert!(SignalValue::Off.is_zero());
    assert!(scalar(0.0).is_zero());
    assert!(scalar(-0.0).is_zero());
    assert!(!scalar(0.1).is_zero());
    assert!(!scalar(f32::NAN).is_zero());
    assert!(SignalValue::new_vector(0, 0x8000_0000).is_zero());
    assert!(!SignalValue::new_vector(0, 1.0f32.to_bits()).is_zero());
}

#[test]
fn signal_keys_distinct() {
    assert_eq!(SignalId::Action(5).key(), 5);
    assert_ne!(SignalId::Facing.key(), SignalId::Movement.key());
    assert_ne!(SignalId::Action(u16::MAX).key(), SignalId::Facing.key());
}

#[test]
fn defaults_are_empty() {
    assert_eq!(SignalValue::default(), SignalValue::Off);
    let s = UnitSignals::default();
    assert_eq!(s.get(SignalId::Facing), SignalValue::Off);
    assert!(!s.is_changed(&SignalId::Facing));
}

#[test]
fn set_then_unset_within_tick_shows_no_edge() {
    let mut s = UnitSignals::new();
    s.set(SignalId::Action(0), scalar(1.0));
    s.unset(SignalId::Action(0));
    assert!(!s.is_rising_edge(&SignalId::Action(0)));
    assert!(!s.is_falling_edge(&SignalId::Action(0)));
    assert_eq!(s.get(SignalId::Action(0)), SignalValue::Off);
}

#[test]
fn unset_then_set_within_tick_shows_no_edge() {
    let mut s = UnitSignals::new();
    s.set(SignalId::Movement, scalar(1.0));
    s.tick();
    s.unset(SignalId::Movement);
    assert!(s.is_falling_edge(&SignalId::Movement));
    s.set(SignalId::Movement, scalar(2.0));
    assert!(!s.is_falling_edge(&SignalId::Movement));
    assert!(!s.is_rising_edge(&SignalId::Movement));
    assert_eq!(s.get(SignalId::Movement), scalar(2.0));
}
