use muse_core::float_bits::F32Bits;
use muse_core::stats::{NormalizedValue, HISTORY_LENGTH, WINDOW_LENGTH};

fn bits(v: f32) -> F32Bits {
    F32Bits(v.to_bits())
}

fn values(v: &Vec<F32Bits>) -> Vec<f32> {
    v.iter().map(|b| f32::from_bits(b.0)).collect()
}

#[test]
fn test_new_normalized_value() {
    let nv = NormalizedValue::new();
    assert_eq!(nv.current(), None);
    assert_eq!(nv.min(), None);
    assert_eq!(nv.max(), None);
    assert_eq!(nv.moving_average_window().len(), 0);
    assert_eq!(nv.history().len(), 0);
}

#[test]
fn test_single_normalized_value() {
    let mut nv = NormalizedValue::new();
    assert!(nv.set(bits(1.0)));
    assert_eq!(nv.current(), Some(bits(1.0)));
    assert_eq!(nv.min(), Some(bits(1.0)));
    assert_eq!(nv.max(), Some(bits(1.0)));
    assert_eq!(values(nv.moving_average_window()), vec![1.0]);
    assert_eq!(nv.history().len(), 1);
}

#[test]
fn test_two_normalized_values_second_normalized() {
    let mut nv = NormalizedValue::new();
    nv.set(bits(1.0));
    nv.set(bits(3.0));
    assert_eq!(nv.current(), Some(bits(3.0)));
    assert_eq!(nv.min(), Some(bits(1.0)));
    assert_eq!(nv.max(), Some(bits(3.0)));
    assert_eq!(values(nv.moving_average_window()), vec![1.0, 3.0]);
    assert_eq!(values(nv.history()), vec![1.0, 3.0]);
}

#[test]
fn test_normalized_value_history() {
    const LENGTH: usize = 120;
    let mut nv = NormalizedValue::new();
    for i in 0..LENGTH {
        nv.set(bits(i as f32));
    }
    assert_eq!(nv.min(), Some(bits(0.0)));
    assert_eq!(nv.max(), Some(bits((LENGTH - 1) as f32)));
    let window = values(nv.moving_average_window());
    assert_eq!(window, (111..120).map(|i| i as f32).collect::<Vec<f32>>());
    assert_eq!(window.iter().sum::<f32>() / window.len() as f32, 115.0);
    assert_eq!(nv.history().len(), 120);
}

#[test]
fn test_normalized_value_history_with_negative_values() {
    let mut nv = NormalizedValue::new();
    for i in -100..101 {
        nv.set(bits(i as f32));
    }
    assert_eq!(nv.min(), Some(bits(-100.0)));
    assert_eq!(nv.max(), Some(bits(100.0)));
    let window = values(nv.moving_average_window());
    assert_eq!(window.iter().sum::<f32>() / window.len() as f32, 96.0);
    let history = values(nv.history());
    assert_eq!(history.len(), 120);
    assert_eq!(history[0], -19.0);
    assert_eq!(history.iter().sum::<f32>() / history.len() as f32, 40.5);
}

#[test]
fn same_value_twice_is_admitted_once() {
    let mut nv = NormalizedValue::new();
    assert!(nv.set(bits(2.5)));
    assert!(!nv.set(bits(2.5)));
    assert_eq!(nv.history().len(), 1);
    assert_eq!(nv.moving_average_window().len(), 1);
}

#[test]
fn negative_zero_equals_zero_for_admission() {
    let mut nv = NormalizedValue::new();
    assert!(nv.set(bits(0.0)));
    assert!(!nv.set(bits(-0.0)));
    assert!(nv.set(bits(1.0)));
    assert!(nv.set(bits(-0.0)));
    assert_eq!(nv.min(), Some(bits(0.0)));
}

#[test]
fn non_finite_values_are_refused() {
    let mut nv = NormalizedValue::new();
    assert!(!nv.set(bits(f32::NAN)));
    assert!(!nv.set(bits(f32::INFINITY)));
    assert!(!nv.set(bits(f32::NEG_INFINITY)));
    assert_eq!(nv.current(), None);
    assert!(nv.set(bits(f32::MAX)));
    assert_eq!(nv.max(), Some(bits(f32::MAX)));
}

#[test]
fn window_holds_most_recent_values_in_order() {
    let mut nv = NormalizedValue::new();
    for i in 0..5 {
        nv.set(bits(i as f32));
    }
    assert_eq!(values(nv.moving_average_window()), vec![0.0, 1.0, 2.0, 3.0, 4.0]);
    for i in 5..30 {
        nv.set(bits(i as f32));
    }
    let expected: Vec<f32> = (30 - WINDOW_LENGTH..30).map(|i| i as f32).collect();
    assert_eq!(values(nv.moving_average_window()), expected);
}

#[test]
fn extremes_outlive_the_history() {
    let mut nv = NormalizedValue::new();
    nv.set(bits(-50.0));
    nv.set(bits(500.0));
    for i in 0..(HISTORY_LENGTH + 10) {
        nv.set(bits(i as f32));
    }
    let history = values(nv.history());
    assert_eq!(history.len(), HISTORY_LENGTH);
    assert!(!history.contains(&-50.0));
    assert!(!history.contains(&500.0));
    assert_eq!(nv.min(), Some(bits(-50.0)));
    assert_eq!(nv.max(), Some(bits(500.0)));
}

#[test]
fn float_order_follows_the_reals() {
    assert!(bits(-2.0).less_than(bits(-1.0)));
    assert!(bits(-1.0).less_than(bits(0.0)));
    assert!(bits(0.5).less_than(bits(1.0)));
    assert!(!bits(0.0).less_than(bits(-0.0)));
    assert!(bits(0.0).same_value(bits(-0.0)));
    assert!(!bits(f32::INFINITY).is_finite());
    assert!(bits(f32::MIN_POSITIVE).is_finite());
}
