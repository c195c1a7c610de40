use gpui_component::drag::{DragPlan, DragState};
use gpui_component::value::{SliderEvent, SliderValue};

#[derive(Clone, Copy, Debug, PartialEq)]
struct Anchor {
    pointer: f32,
    percentage: f32,
    track: f32,
}

#[test]
fn untouched_slider_is_not_dragging_and_has_no_anchor() {
    let g: DragState<Anchor> = DragState::new();
    assert!(!g.is_dragging());
    assert_eq!(g.plan(), DragPlan::Press);
}

#[test]
fn release_without_interaction_announces_nothing() {
    let mut g: DragState<Anchor> = DragState::new();
    assert_eq!(g.release(SliderValue::Single(5.0f32)), None);
    assert!(!g.is_dragging());
}

#[test]
fn press_then_move_then_release_announces_the_value_once() {
    let mut g = DragState::new();
    let a = Anchor { pointer: 120.0, percentage: 0.25, track: 480.0 };
    g.press(a);
    let change = g.moved(SliderValue::Single(25.0f32));
    assert_eq!(change, SliderEvent::Change(SliderValue::Single(25.0)));
    assert!(g.is_dragging());
    assert_eq!(g.plan(), DragPlan::Continue(a));

    let released = g.release(SliderValue::Single(30.0f32));
    assert_eq!(released, Some(SliderEvent::Release(SliderValue::Single(30.0))));
    assert!(!g.is_dragging());

    // A second release of the same gesture is silent.
    assert_eq!(g.release(SliderValue::Single(30.0f32)), None);
}

#[test]
fn release_drops_the_anchor_even_without_a_drag() {
    let mut g = DragState::new();
    g.press(Anchor { pointer: 1.0, percentage: 0.0, track: 10.0 });
    assert_eq!(g.release(SliderValue::Single(0.0f32)), None);
    assert_eq!(g.plan(), DragPlan::Press);
}

#[test]
fn a_new_press_replaces_the_anchor() {
    let mut g = DragState::new();
    let first = Anchor { pointer: 1.0, percentage: 0.1, track: 10.0 };
    let second = Anchor { pointer: 7.0, percentage: 0.7, track: 10.0 };
    g.press(first);
    let _ = g.moved(SliderValue::Range(0.0f32, 1.0));
    g.press(second);
    assert_eq!(g.plan(), DragPlan::Continue(second));
    assert!(g.is_dragging());
}
