use gpui_component::scale::SliderScale;
use gpui_component::value::{SliderEvent, SliderValue};

#[test]
fn default_value_is_single_zero() {
    let v: SliderValue<f32> = SliderValue::default();
    assert_eq!(v, SliderValue::Single(0.0));
}

#[test]
fn a_bare_value_is_a_single_value() {
    let v: SliderValue<f32> = 0.5.into();
    assert_eq!(v, SliderValue::Single(0.5));
    assert!(v.is_single());
    assert!(!v.is_range());
}

#[test]
fn a_pair_is_a_range() {
    let v: SliderValue<f32> = (10.0, 20.0).into();
    assert_eq!(v, SliderValue::Range(10.0, 20.0));
    assert!(v.is_range());
    assert!(!v.is_single());
}

#[test]
fn a_std_range_is_a_range() {
    let v: SliderValue<f32> = (2.5..7.5).into();
    assert_eq!(v, SliderValue::Range(2.5, 7.5));
}

#[test]
fn start_and_end_of_a_single_value_are_the_value() {
    let v = SliderValue::Single(42.0f32);
    assert_eq!(v.start(), 42.0);
    assert_eq!(v.end(), 42.0);
}

#[test]
fn start_and_end_of_a_range() {
    let v = SliderValue::Range(3.0f32, 8.0);
    assert_eq!(v.start(), 3.0);
    assert_eq!(v.end(), 8.0);
}

#[test]
fn shapes_are_exclusive() {
    for v in [SliderValue::Single(1.0f32), SliderValue::Range(1.0, 2.0)] {
        assert_ne!(v.is_single(), v.is_range());
    }
}

#[test]
fn events_carry_their_value() {
    let v = SliderValue::Range(1u32, 2);
    assert_eq!(SliderEvent::Change(v), SliderEvent::Change(SliderValue::Range(1, 2)));
    assert_ne!(SliderEvent::Change(v), SliderEvent::Release(v));
}

#[test]
fn default_scale_is_linear() {
    let s = SliderScale::default();
    assert!(s.is_linear());
    assert!(!s.is_logarithmic());
}

#[test]
fn logarithmic_scale_is_not_linear() {
    let s = SliderScale::Logarithmic;
    assert!(s.is_logarithmic());
    assert!(!s.is_linear());
}
