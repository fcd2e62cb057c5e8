use raumklang::measurement::Id;
use raumklang::staged_analyses::{
    Action, Analyses, Event, FrequencyResponseCompuationState, ImpulseResponseComputationState,
};
use raumklang::viewport::{InteractiveViewport, InteractiveViewportMessage};
use raumklang::window_builder::WindowBuilder;

#[test]
fn staged_analysis_runs_through_its_stages() {
    let mut a: Analyses<u32, u64> = Analyses::new();
    assert!(matches!(a.compute_frequency_response(Id(1)), FrequencyResponseCompuationState::NoImpulseResponse));
    assert_eq!(a.compute_impulse_response(Id(1)), ImpulseResponseComputationState::Compute);
    assert_eq!(a.compute_impulse_response(Id(1)), ImpulseResponseComputationState::Computing);
    assert!(matches!(a.compute_frequency_response(Id(1)), FrequencyResponseCompuationState::NoImpulseResponse));
    assert_eq!(a.apply(Event::ImpulseResponseComputed(Id(1), 7)), Action::ImpulseResponseComputed);
    assert_eq!(a.compute_impulse_response(Id(1)), ImpulseResponseComputationState::Computed);
    assert!(matches!(a.compute_frequency_response(Id(1)), FrequencyResponseCompuationState::Compute(7)));
    assert!(matches!(a.compute_frequency_response(Id(1)), FrequencyResponseCompuationState::Computing));
    assert_eq!(a.apply(Event::FrequencyResponseComputed(Id(1), 9)), Action::Nothing);
    assert!(matches!(a.compute_frequency_response(Id(1)), FrequencyResponseCompuationState::Computed));
    assert_eq!(a.compute_impulse_response(Id(1)), ImpulseResponseComputationState::Computed);
}

#[test]
fn a_frequency_response_without_its_impulse_response_is_dropped() {
    let mut a: Analyses<u32, u64> = Analyses::new();
    assert_eq!(a.apply(Event::FrequencyResponseComputed(Id(2), 9)), Action::Nothing);
    assert_eq!(a.compute_impulse_response(Id(2)), ImpulseResponseComputationState::Compute);
    assert_eq!(a.apply(Event::FrequencyResponseComputed(Id(2), 9)), Action::Nothing);
    // the measurement is forgotten, so its impulse response is asked for anew
    assert_eq!(a.compute_impulse_response(Id(2)), ImpulseResponseComputationState::Compute);
}

#[test]
fn viewport_scrolls_within_half_a_width_of_the_data() {
    let mut v = InteractiveViewport::new(0, 1000);
    v.scroll_right(200);
    assert_eq!((v.start, v.end), (200, 1200));
    v.scroll_right(1000);
    assert_eq!((v.start, v.end), (500, 1500));
    v.scroll_left(300);
    assert_eq!((v.start, v.end), (200, 1200));
    v.scroll_left(5000);
    assert_eq!((v.start, v.end), (-500, 500));
    v.update(InteractiveViewportMessage::ShiftKeyPressed);
    assert!(v.shift_key_pressed);
    v.update(InteractiveViewportMessage::ShiftKeyReleased);
    assert!(!v.shift_key_pressed);
}

#[test]
fn viewport_keeps_its_width_near_the_bounds() {
    let mut v = InteractiveViewport::new(0, 10);
    v.scroll_right(i64::MAX);
    assert_eq!(v.end - v.start, 10);
    assert_eq!(v.end, 15);
}

#[test]
fn window_geometry() {
    let mut w = WindowBuilder::new('h', 't', 10);
    assert_eq!((w.left_side_width(), w.right_side_width(), w.width()), (5, 5, 10));
    assert_eq!(w.max_left_side_width(), 5);
    w.set_left_side_width(2).set_right_side_width(3).set_left_side('t');
    assert_eq!(w.left_side(), 't');
    assert_eq!(w.max_left_side_width(), 7);
    assert_eq!(w.max_right_side_width(), 8);
    let d = WindowBuilder::with_default_widths('t');
    assert_eq!((d.left_side_width(), d.right_side_width(), d.width()), (5512, 22050, 27562));
}

#[test]
fn window_is_assembled_from_its_sides() {
    let mut w = WindowBuilder::new('h', 'h', 10);
    w.set_left_side_width(2).set_right_side_width(3);
    let left = vec![0.0f32, 0.5, 0.9, 0.5];
    let right = vec![0.1f32, 0.2, 0.3, 0.9, 0.6, 0.3];
    let built = w.build(left, right, 1.0f32);
    assert_eq!(built, vec![0.0, 0.5, 1.0, 1.0, 1.0, 1.0, 1.0, 0.9, 0.6, 0.3]);
    assert_eq!(built.len(), 10);
}
