use winit_view::event::{
    DeviceId, Event, EventWrapper, TouchPhase, WindowEvent, WindowId,
};
use winit_view::float::Float;
use winit_view::geometry::{Point, Scalar};
use winit_view::gesture::RecognizerState;
use winit_view::view::WinitViewState;

type View = WinitViewState<u32, u32, u32, u32>;

const WINDOW: WindowId = WindowId { raw: 7 };

fn view() -> View {
    View::new(None).0
}

fn float(value: f64) -> Float {
    Float { bits: value.to_bits() }
}

fn point(x: f64, y: f64) -> Point {
    Point { x: float(x), y: float(y) }
}

fn evaluate(scalar: Scalar) -> f64 {
    match scalar {
        Scalar::Value(value) => f64::from_bits(value.bits),
        Scalar::Difference { minuend, subtrahend } => {
            f64::from_bits(minuend.bits) - f64::from_bits(subtrahend.bits)
        },
    }
}

fn window_event(wrapper: EventWrapper) -> WindowEvent {
    match wrapper {
        EventWrapper::StaticEvent(Event::WindowEvent { window_id, event }) => {
            assert_eq!(window_id, WINDOW);
            event
        },
        EventWrapper::ScaleFactorChanged(_) => panic!("not a window event"),
    }
}

fn pinch(view: &mut View, state: RecognizerState, scale: f64) -> (TouchPhase, f64) {
    match window_event(view.pinch_gesture(WINDOW, state, float(scale))) {
        WindowEvent::PinchGesture { device_id, delta, phase } => {
            assert_eq!(device_id, DeviceId);
            (phase, evaluate(delta))
        },
        _ => panic!("not a pinch"),
    }
}

fn rotate(view: &mut View, state: RecognizerState, rotation: f64) -> (TouchPhase, f64) {
    match window_event(view.rotation_gesture(WINDOW, state, float(rotation))) {
        WindowEvent::RotationGesture { device_id, delta, phase } => {
            assert_eq!(device_id, DeviceId);
            (phase, evaluate(delta.radians))
        },
        _ => panic!("not a rotation"),
    }
}

fn pan(view: &mut View, state: RecognizerState, x: f64, y: f64) -> (TouchPhase, f64, f64) {
    match window_event(view.pan_gesture(WINDOW, state, point(x, y))) {
        WindowEvent::PanGesture { device_id, delta, phase } => {
            assert_eq!(device_id, DeviceId);
            (phase, evaluate(delta.x), evaluate(delta.y))
        },
        _ => panic!("not a pan"),
    }
}

#[test]
fn an_ended_pinch_reports_the_change_of_scale() {
    let mut view = view();
    assert_eq!(pinch(&mut view, RecognizerState::Began, 1.25), (TouchPhase::Started, 0.0));
    assert_eq!(pinch(&mut view, RecognizerState::Changed, 1.5), (TouchPhase::Moved, 0.25));
    assert_eq!(pinch(&mut view, RecognizerState::Changed, 1.0), (TouchPhase::Moved, -0.5));
    assert_eq!(pinch(&mut view, RecognizerState::Ended, 3.0), (TouchPhase::Moved, 2.0));
    // Nothing is remembered.
    assert_eq!(pinch(&mut view, RecognizerState::Changed, 3.0), (TouchPhase::Moved, 3.0));
}

#[test]
fn a_pinch_hands_on_the_two_readings() {
    let mut view = view();
    view.pinch_gesture(WINDOW, RecognizerState::Began, float(1.0));
    let event = view.pinch_gesture(WINDOW, RecognizerState::Changed, float(1.1));
    assert_eq!(
        window_event(event),
        WindowEvent::PinchGesture {
            device_id: DeviceId,
            delta: Scalar::Difference { minuend: float(1.1), subtrahend: float(1.0) },
            phase: TouchPhase::Moved,
        }
    );
}

#[test]
fn a_broken_off_pinch_reports_its_negated_scale() {
    for state in [RecognizerState::Cancelled, RecognizerState::Failed] {
        let mut view = view();
        pinch(&mut view, RecognizerState::Began, 1.0);
        pinch(&mut view, RecognizerState::Changed, 1.5);
        assert_eq!(pinch(&mut view, state, 1.5), (TouchPhase::Cancelled, -1.5));
        // The last scale stays remembered.
        assert_eq!(pinch(&mut view, RecognizerState::Changed, 2.0), (TouchPhase::Moved, 0.5));
    }
}

#[test]
fn a_broken_off_pinch_restarts_a_rotation() {
    let mut view = view();
    rotate(&mut view, RecognizerState::Began, 0.0);
    assert_eq!(rotate(&mut view, RecognizerState::Changed, 0.5), (TouchPhase::Moved, 0.5));
    pinch(&mut view, RecognizerState::Cancelled, 1.0);
    assert_eq!(rotate(&mut view, RecognizerState::Changed, 0.75), (TouchPhase::Moved, 0.75));
}

#[test]
fn an_ended_rotation_reports_the_angle_it_ends_at() {
    let mut view = view();
    // The angle at the beginning is not taken in.
    assert_eq!(rotate(&mut view, RecognizerState::Began, 0.125), (TouchPhase::Started, 0.0));
    assert_eq!(rotate(&mut view, RecognizerState::Changed, 0.5), (TouchPhase::Moved, 0.5));
    assert_eq!(rotate(&mut view, RecognizerState::Changed, 0.25), (TouchPhase::Moved, -0.25));
    assert_eq!(rotate(&mut view, RecognizerState::Ended, 1.0), (TouchPhase::Ended, 0.75));
    assert_eq!(rotate(&mut view, RecognizerState::Changed, 1.0), (TouchPhase::Moved, 1.0));
}

#[test]
fn a_broken_off_rotation_cancels_out() {
    for state in [RecognizerState::Cancelled, RecognizerState::Failed] {
        let mut view = view();
        rotate(&mut view, RecognizerState::Began, 0.0);
        let turned = rotate(&mut view, RecognizerState::Changed, 0.5).1
            + rotate(&mut view, RecognizerState::Changed, 0.75).1;
        assert_eq!(rotate(&mut view, state, 0.75), (TouchPhase::Cancelled, -turned));
        assert_eq!(rotate(&mut view, RecognizerState::Changed, 0.25), (TouchPhase::Moved, 0.25));
    }
}

#[test]
fn an_ended_pan_reports_the_way() {
    let mut view = view();
    assert_eq!(pan(&mut view, RecognizerState::Began, 1.0, 2.0), (TouchPhase::Started, 0.0, 0.0));
    assert_eq!(pan(&mut view, RecognizerState::Changed, 4.0, 1.0), (TouchPhase::Moved, 3.0, -1.0));
    assert_eq!(pan(&mut view, RecognizerState::Ended, 5.0, 5.0), (TouchPhase::Ended, 1.0, 4.0));
    assert_eq!(pan(&mut view, RecognizerState::Changed, 2.0, 3.0), (TouchPhase::Moved, 2.0, 3.0));
}

#[test]
fn a_broken_off_pan_goes_back_by_what_was_remembered() {
    for state in [RecognizerState::Cancelled, RecognizerState::Failed] {
        let mut view = view();
        pan(&mut view, RecognizerState::Began, 0.0, 0.0);
        pan(&mut view, RecognizerState::Changed, 4.0, -1.0);
        assert_eq!(pan(&mut view, state, 100.0, 100.0), (TouchPhase::Cancelled, -4.0, 1.0));
        assert_eq!(pan(&mut view, RecognizerState::Changed, 2.0, 3.0), (TouchPhase::Moved, 2.0, 3.0));
    }
}

#[test]
fn gestures_do_not_disturb_each_other() {
    let mut view = view();
    pinch(&mut view, RecognizerState::Began, 1.0);
    rotate(&mut view, RecognizerState::Began, 0.0);
    pan(&mut view, RecognizerState::Began, 0.0, 0.0);
    rotate(&mut view, RecognizerState::Changed, 0.5);
    pan(&mut view, RecognizerState::Changed, 8.0, 8.0);
    assert_eq!(pinch(&mut view, RecognizerState::Ended, 2.0), (TouchPhase::Moved, 1.0));
    assert_eq!(pan(&mut view, RecognizerState::Ended, 9.0, 9.0), (TouchPhase::Ended, 1.0, 1.0));
    assert_eq!(rotate(&mut view, RecognizerState::Ended, 0.75), (TouchPhase::Ended, 0.25));
}

#[test]
fn a_beginning_forgets_what_came_before() {
    let mut view = view();
    pinch(&mut view, RecognizerState::Changed, 9.0);
    pinch(&mut view, RecognizerState::Began, 1.0);
    assert_eq!(pinch(&mut view, RecognizerState::Changed, 1.5), (TouchPhase::Moved, 0.5));
}

#[test]
fn a_double_tap_is_reported_when_it_ends() {
    let view = view();
    assert_eq!(
        view.double_tap_gesture(WINDOW, RecognizerState::Ended).map(window_event),
        Some(WindowEvent::DoubleTapGesture { device_id: DeviceId })
    );
    for state in [
        RecognizerState::Possible,
        RecognizerState::Began,
        RecognizerState::Changed,
        RecognizerState::Cancelled,
        RecognizerState::Failed,
        RecognizerState::Other(17),
    ] {
        assert_eq!(view.double_tap_gesture(WINDOW, state), None);
    }
}

#[test]
fn recognizers_call_in_the_states_of_a_gesture_under_way() {
    for state in [
        RecognizerState::Began,
        RecognizerState::Changed,
        RecognizerState::Ended,
        RecognizerState::Cancelled,
        RecognizerState::Failed,
    ] {
        assert!(state.can_be_handled());
    }
    assert!(!RecognizerState::Possible.can_be_handled());
    assert!(!RecognizerState::Other(6).can_be_handled());
}

#[test]
fn any_two_gestures_may_run_at_the_same_time() {
    assert!(view().should_recognize_simultaneously());
}
