use winit_view::float::Float;
use winit_view::recognizer::{RecognizerChange, RecognizerSetup};
use winit_view::view::{ViewSetup, WinitViewState};

type View = WinitViewState<u8, u16, u32, u64>;

#[test]
fn a_new_view_takes_many_touches() {
    let scale_factor = Some(Float { bits: 2.0f64.to_bits() });
    assert_eq!(
        View::new(scale_factor).1,
        ViewSetup { multiple_touch_enabled: true, content_scale_factor: scale_factor }
    );
    assert_eq!(View::new(None).1.content_scale_factor, None);
}

#[test]
fn a_new_view_has_nothing_to_detach() {
    let mut view = View::new(None).0;
    assert_eq!(view.recognize_pinch_gesture(false), RecognizerChange::Nothing);
    assert_eq!(view.recognize_pan_gesture(false, 1, 2), RecognizerChange::Nothing);
    assert_eq!(view.recognize_doubletap_gesture(false), RecognizerChange::Nothing);
    assert_eq!(view.recognize_rotation_gesture(false), RecognizerChange::Nothing);
}

#[test]
fn pinch_recognizers_are_attached_once_and_detached() {
    let mut view = View::new(None).0;
    assert_eq!(
        view.recognize_pinch_gesture(true),
        RecognizerChange::Attach(RecognizerSetup::Pinch)
    );
    view.store_pinch_recognizer(3);
    assert_eq!(view.recognize_pinch_gesture(true), RecognizerChange::Nothing);
    assert_eq!(view.recognize_pinch_gesture(false), RecognizerChange::Detach(3));
    assert_eq!(view.recognize_pinch_gesture(false), RecognizerChange::Nothing);
    assert_eq!(
        view.recognize_pinch_gesture(true),
        RecognizerChange::Attach(RecognizerSetup::Pinch)
    );
}

#[test]
fn a_pan_recognizer_keeps_its_limits() {
    let mut view = View::new(None).0;
    assert_eq!(
        view.recognize_pan_gesture(true, 1, 2),
        RecognizerChange::Attach(RecognizerSetup::Pan {
            minimum_number_of_touches: 1,
            maximum_number_of_touches: 2,
        })
    );
    view.store_pan_recognizer(99);
    assert_eq!(view.recognize_pan_gesture(true, 3, 4), RecognizerChange::Nothing);
    assert_eq!(view.recognize_pan_gesture(false, 3, 4), RecognizerChange::Detach(99));
}

#[test]
fn a_double_tap_takes_two_taps_of_one_finger() {
    let mut view = View::new(None).0;
    assert_eq!(
        view.recognize_doubletap_gesture(true),
        RecognizerChange::Attach(RecognizerSetup::Tap {
            number_of_taps_required: 2,
            number_of_touches_required: 1,
        })
    );
    view.store_doubletap_recognizer(5);
    assert_eq!(view.recognize_doubletap_gesture(true), RecognizerChange::Nothing);
    assert_eq!(view.recognize_doubletap_gesture(false), RecognizerChange::Detach(5));
}

#[test]
fn recognizers_of_different_kinds_are_independent() {
    let mut view = View::new(None).0;
    assert_eq!(
        view.recognize_rotation_gesture(true),
        RecognizerChange::Attach(RecognizerSetup::Rotation)
    );
    view.store_rotation_recognizer(8);
    assert_eq!(
        view.recognize_pinch_gesture(true),
        RecognizerChange::Attach(RecognizerSetup::Pinch)
    );
    view.store_pinch_recognizer(1);
    assert_eq!(view.recognize_rotation_gesture(false), RecognizerChange::Detach(8));
    assert_eq!(view.recognize_pinch_gesture(true), RecognizerChange::Nothing);
}

#[test]
fn a_request_that_is_not_carried_out_is_answered_again() {
    let mut view = View::new(None).0;
    view.recognize_rotation_gesture(true);
    assert_eq!(
        view.recognize_rotation_gesture(true),
        RecognizerChange::Attach(RecognizerSetup::Rotation)
    );
}
