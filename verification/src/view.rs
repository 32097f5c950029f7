//! The state of a view, and what the view does when its recognizers call.

use crate::event::{
    DeviceId, Displacement, Event, EventWrapper, NegatedDegrees, TouchPhase, WindowEvent, WindowId,
};
use crate::float::Float;
use crate::geometry::{Point, Scalar};
use crate::gesture::{pan_step, pinch_step, rotation_step, LastDeltas, RecognizerState};
use crate::recognizer::{change, kept, request, RecognizerChange, RecognizerSetup};
use vstd::prelude::*;

verus! {

/// The number of taps that make a double tap.
pub const DOUBLE_TAP_TAPS: u8 = 2;

/// The number of fingers that make a double tap.
pub const DOUBLE_TAP_TOUCHES: u8 = 1;

/// How a new view is set up.
#[derive(Clone, Copy, Debug, PartialEq, Eq)]
pub struct ViewSetup {
    pub multiple_touch_enabled: bool,
    /// The content scale factor to set, where one is to be set.
    pub content_scale_factor: Option<Float>,
}

/// The event that a double tap recognizer in some state makes a view send, if any.
pub open spec fn double_tap_report(window_id: WindowId, state: RecognizerState) -> Option<
    EventWrapper,
> {
    if state is Ended {
        Some(
            EventWrapper::of_window(
                window_id,
                WindowEvent::DoubleTapGesture { device_id: DeviceId },
            ),
        )
    } else {
        None
    }
}

/// A double tap is reported when it ends and in no other state, to the window of the view.
pub proof fn law_double_tap(window_id: WindowId, state: RecognizerState)
    ensures
        double_tap_report(window_id, state) is Some <==> state is Ended,
        double_tap_report(window_id, state) matches Some(sent) ==> (
        sent matches EventWrapper::StaticEvent(
            Event::WindowEvent {
                window_id: to,
                event: WindowEvent::DoubleTapGesture { device_id },
            },
        ) && to == window_id && device_id == DeviceId),
{
}

/// The recognizers that a view has attached, each of its own type, and the readings that it
/// remembers of the gestures.
pub struct WinitViewState<Pinch, DoubleTap, Rotation, Pan> {
    pinch_gesture_recognizer: Option<Pinch>,
    doubletap_gesture_recognizer: Option<DoubleTap>,
    rotation_gesture_recognizer: Option<Rotation>,
    pan_gesture_recognizer: Option<Pan>,
    // A reading is measured from the start of the gesture.
    rotation_last_delta: Float,
    pinch_last_delta: Float,
    pan_last_delta: Point,
}

/// The recognizers that a view has attached.
pub struct Recognizers<Pinch, DoubleTap, Rotation, Pan> {
    pub pinch: Option<Pinch>,
    pub double_tap: Option<DoubleTap>,
    pub rotation: Option<Rotation>,
    pub pan: Option<Pan>,
}

impl<Pinch, DoubleTap, Rotation, Pan> WinitViewState<Pinch, DoubleTap, Rotation, Pan> {
    /// The recognizers that are attached.
    pub closed spec fn recognizers(&self) -> Recognizers<Pinch, DoubleTap, Rotation, Pan> {
        Recognizers {
            pinch: self.pinch_gesture_recognizer,
            double_tap: self.doubletap_gesture_recognizer,
            rotation: self.rotation_gesture_recognizer,
            pan: self.pan_gesture_recognizer,
        }
    }

    /// The readings that are remembered.
    pub closed spec fn deltas(&self) -> LastDeltas {
        LastDeltas {
            rotation: self.rotation_last_delta,
            pinch: self.pinch_last_delta,
            pan: self.pan_last_delta,
        }
    }

    /// A new view: its state, and how to set it up. The view takes more than one touch at a time,
    /// and has its content scale factor set where `scale_factor` gives one.
    pub fn new(scale_factor: Option<Float>) -> (view: (Self, ViewSetup))
        ensures
            view.0.recognizers() == (Recognizers {
                pinch: None::<Pinch>,
                double_tap: None::<DoubleTap>,
                rotation: None::<Rotation>,
                pan: None::<Pan>,
            }),
            view.0.deltas() == LastDeltas::none(),
            view.0.deltas().rotation.bits == 0,
            view.0.deltas().pinch.bits == 0,
            view.0.deltas().pan.x.bits == 0,
            view.0.deltas().pan.y.bits == 0,
            view.1.multiple_touch_enabled,
            view.1.content_scale_factor == scale_factor,
    {
        let state = WinitViewState {
            pinch_gesture_recognizer: None,
            doubletap_gesture_recognizer: None,
            rotation_gesture_recognizer: None,
            pan_gesture_recognizer: None,
            rotation_last_delta: Float::zero(),
            pinch_last_delta: Float::zero(),
            pan_last_delta: Point::origin(),
        };
        let setup = ViewSetup { multiple_touch_enabled: true, content_scale_factor: scale_factor };
        (state, setup)
    }

    /// A pinch recognizer calls: takes in its state and scale, and gives the event to send.
    pub fn pinch_gesture(
        &mut self,
        window_id: WindowId,
        state: RecognizerState,
        scale: Float,
    ) -> (event: EventWrapper)
        requires
            state.is_under_way(),
        ensures
            final(self).deltas() == pinch_step(old(self).deltas(), state, scale).after,
            final(self).recognizers() == old(self).recognizers(),
            event == EventWrapper::of_window(
                window_id,
                (WindowEvent::PinchGesture {
                    device_id: DeviceId,
                    delta: pinch_step(old(self).deltas(), state, scale).delta,
                    phase: pinch_step(old(self).deltas(), state, scale).phase,
                }),
            ),
            event matches EventWrapper::StaticEvent(
                Event::WindowEvent {
                    window_id: to,
                    event: WindowEvent::PinchGesture { device_id, delta, phase },
                },
            ) && to == window_id && device_id == DeviceId && {
                &&& state is Began ==> phase is Started && (delta matches Scalar::Value(value)
                    && value.bits == 0)
                &&& state is Changed || state is Ended ==> phase is Moved && (
                delta matches Scalar::Difference { minuend, subtrahend } && minuend == scale
                    && subtrahend == old(self).deltas().pinch)
                &&& state is Cancelled || state is Failed ==> phase is Cancelled && (
                delta matches Scalar::Value(value) && value.magnitude() == scale.magnitude()
                    && value.is_negative() != scale.is_negative())
            },
            state is Began || state is Changed ==> final(self).deltas().pinch == scale,
            state is Ended ==> final(self).deltas().pinch.bits == 0,
            state is Cancelled || state is Failed ==> final(self).deltas().pinch == old(self).deltas().pinch && final(self).deltas().rotation.bits == 0,
            !(state is Cancelled || state is Failed) ==> final(self).deltas().rotation == old(self).deltas().rotation,
            final(self).deltas().pan == old(self).deltas().pan,
    {
        let (phase, delta) = match state {
            RecognizerState::Began => {
                self.pinch_last_delta = scale;
                (TouchPhase::Started, Scalar::Value(Float::zero()))
            },
            RecognizerState::Changed => {
                let last_scale = self.pinch_last_delta;
                self.pinch_last_delta = scale;
                (TouchPhase::Moved, Scalar::Difference { minuend: scale, subtrahend: last_scale })
            },
            RecognizerState::Ended => {
                let last_scale = self.pinch_last_delta;
                self.pinch_last_delta = Float::zero();
                (TouchPhase::Moved, Scalar::Difference { minuend: scale, subtrahend: last_scale })
            },
            _ => {
                self.rotation_last_delta = Float::zero();
                (TouchPhase::Cancelled, Scalar::Value(scale.negated()))
            },
        };
        EventWrapper::for_window(
            window_id,
            WindowEvent::PinchGesture { device_id: DeviceId, delta, phase },
        )
    }

    /// A double tap recognizer calls: gives the event to send, if there is one.
    pub fn double_tap_gesture(&self, window_id: WindowId, state: RecognizerState) -> (event: Option<
        EventWrapper,
    >)
        ensures
            event == (if state is Ended {
                Some(
                    EventWrapper::of_window(
                        window_id,
                        (WindowEvent::DoubleTapGesture { device_id: DeviceId }),
                    ),
                )
            } else {
                None
            }),
            event == double_tap_report(window_id, state),
            event is Some <==> state is Ended,
            event matches Some(sent) ==> (sent matches EventWrapper::StaticEvent(
                Event::WindowEvent {
                    window_id: to,
                    event: WindowEvent::DoubleTapGesture { device_id },
                },
            ) && to == window_id && device_id == DeviceId),
    {
        match state {
            RecognizerState::Ended => Some(
                EventWrapper::for_window(
                    window_id,
                    WindowEvent::DoubleTapGesture { device_id: DeviceId },
                ),
            ),
            _ => None,
        }
    }

    /// A rotation recognizer calls: takes in its state and angle in radians, and gives the event to
    /// send.
    pub fn rotation_gesture(
        &mut self,
        window_id: WindowId,
        state: RecognizerState,
        rotation: Float,
    ) -> (event: EventWrapper)
        requires
            state.is_under_way(),
        ensures
            final(self).deltas() == rotation_step(old(self).deltas(), state, rotation).after,
            final(self).recognizers() == old(self).recognizers(),
            event == EventWrapper::of_window(
                window_id,
                (WindowEvent::RotationGesture {
                    device_id: DeviceId,
                    delta: NegatedDegrees {
                        radians: rotation_step(old(self).deltas(), state, rotation).delta,
                    },
                    phase: rotation_step(old(self).deltas(), state, rotation).phase,
                }),
            ),
            event matches EventWrapper::StaticEvent(
                Event::WindowEvent {
                    window_id: to,
                    event: WindowEvent::RotationGesture { device_id, delta, phase },
                },
            ) && to == window_id && device_id == DeviceId && {
                &&& state is Began ==> phase is Started && (
                delta.radians matches Scalar::Value(value) && value.bits == 0)
                &&& state is Changed ==> phase is Moved
                &&& state is Ended ==> phase is Ended
                &&& state is Changed || state is Ended ==> (
                delta.radians matches Scalar::Difference { minuend, subtrahend } && minuend
                    == rotation && subtrahend == old(self).deltas().rotation)
                &&& state is Cancelled || state is Failed ==> phase is Cancelled && (
                delta.radians matches Scalar::Value(value) && value.magnitude()
                    == rotation.magnitude() && value.is_negative() != rotation.is_negative())
            },
            state is Changed ==> final(self).deltas().rotation == rotation,
            !(state is Changed) ==> final(self).deltas().rotation.bits == 0,
            final(self).deltas().pinch == old(self).deltas().pinch,
            final(self).deltas().pan == old(self).deltas().pan,
    {
        let (phase, radians) = match state {
            RecognizerState::Began => {
                self.rotation_last_delta = Float::zero();
                (TouchPhase::Started, Scalar::Value(Float::zero()))
            },
            RecognizerState::Changed => {
                let last_rotation = self.rotation_last_delta;
                self.rotation_last_delta = rotation;
                (
                    TouchPhase::Moved,
                    Scalar::Difference { minuend: rotation, subtrahend: last_rotation },
                )
            },
            RecognizerState::Ended => {
                let last_rotation = self.rotation_last_delta;
                self.rotation_last_delta = Float::zero();
                (
                    TouchPhase::Ended,
                    Scalar::Difference { minuend: rotation, subtrahend: last_rotation },
                )
            },
            _ => {
                self.rotation_last_delta = Float::zero();
                (TouchPhase::Cancelled, Scalar::Value(rotation.negated()))
            },
        };
        EventWrapper::for_window(
            window_id,
            WindowEvent::RotationGesture {
                device_id: DeviceId,
                delta: NegatedDegrees { radians },
                phase,
            },
        )
    }

    /// A pan recognizer calls: takes in its state and translation in the view, and gives the event
    /// to send.
    pub fn pan_gesture(
        &mut self,
        window_id: WindowId,
        state: RecognizerState,
        translation: Point,
    ) -> (event: EventWrapper)
        requires
            state.is_under_way(),
        ensures
            final(self).deltas() == pan_step(old(self).deltas(), state, translation).after,
            final(self).recognizers() == old(self).recognizers(),
            event == EventWrapper::of_window(
                window_id,
                (WindowEvent::PanGesture {
                    device_id: DeviceId,
                    delta: pan_step(old(self).deltas(), state, translation).delta,
                    phase: pan_step(old(self).deltas(), state, translation).phase,
                }),
            ),
            event matches EventWrapper::StaticEvent(
                Event::WindowEvent {
                    window_id: to,
                    event: WindowEvent::PanGesture { device_id, delta, phase },
                },
            ) && to == window_id && device_id == DeviceId && {
                &&& state is Began ==> phase is Started && (delta.x matches Scalar::Value(value)
                    && value.bits == 0) && (delta.y matches Scalar::Value(value) && value.bits == 0)
                &&& state is Changed ==> phase is Moved
                &&& state is Ended ==> phase is Ended
                &&& state is Changed || state is Ended ==> (
                delta.x matches Scalar::Difference { minuend, subtrahend } && minuend
                    == translation.x && subtrahend == old(self).deltas().pan.x) && (
                delta.y matches Scalar::Difference { minuend, subtrahend } && minuend
                    == translation.y && subtrahend == old(self).deltas().pan.y)
                &&& state is Cancelled || state is Failed ==> phase is Cancelled && (
                delta.x matches Scalar::Value(value) && value.magnitude() == old(self).deltas().pan.x.magnitude() && value.is_negative() != old(self).deltas().pan.x.is_negative()) && (delta.y matches Scalar::Value(value)
                    && value.magnitude() == old(self).deltas().pan.y.magnitude()
                    && value.is_negative() != old(self).deltas().pan.y.is_negative())
            },
            state is Began || state is Changed ==> final(self).deltas().pan == translation,
            !(state is Began || state is Changed) ==> final(self).deltas().pan.x.bits == 0 && final(self).deltas().pan.y.bits == 0,
            final(self).deltas().pinch == old(self).deltas().pinch,
            final(self).deltas().rotation == old(self).deltas().rotation,
    {
        let last_pan = self.pan_last_delta;
        let moved = Displacement {
            x: Scalar::Difference { minuend: translation.x, subtrahend: last_pan.x },
            y: Scalar::Difference { minuend: translation.y, subtrahend: last_pan.y },
        };
        let (phase, delta) = match state {
            RecognizerState::Began => {
                self.pan_last_delta = translation;
                let still = Displacement {
                    x: Scalar::Value(Float::zero()),
                    y: Scalar::Value(Float::zero()),
                };
                (TouchPhase::Started, still)
            },
            RecognizerState::Changed => {
                self.pan_last_delta = translation;
                (TouchPhase::Moved, moved)
            },
            RecognizerState::Ended => {
                self.pan_last_delta = Point::origin();
                (TouchPhase::Ended, moved)
            },
            _ => {
                self.pan_last_delta = Point::origin();
                let back = Displacement {
                    x: Scalar::Value(last_pan.x.negated()),
                    y: Scalar::Value(last_pan.y.negated()),
                };
                (TouchPhase::Cancelled, back)
            },
        };
        EventWrapper::for_window(
            window_id,
            WindowEvent::PanGesture { device_id: DeviceId, delta, phase },
        )
    }

    /// Whether two recognizers of the view may recognize their gestures at the same time: any two
    /// may.
    pub fn should_recognize_simultaneously(&self) -> (simultaneously: bool)
        ensures
            simultaneously,
    {
        true
    }

    /// Asks the view to recognize pinches, or to stop.
    pub fn recognize_pinch_gesture(&mut self, should_recognize: bool) -> (answer: RecognizerChange<
        Pinch,
    >)
        ensures
            answer == change(
                old(self).recognizers().pinch,
                should_recognize,
                RecognizerSetup::Pinch,
            ),
            final(self).recognizers() == (Recognizers {
                pinch: kept(old(self).recognizers().pinch, should_recognize),
                ..old(self).recognizers()
            }),
            should_recognize && old(self).recognizers().pinch is None ==> (
            answer matches RecognizerChange::Attach(setup) && setup is Pinch),
            should_recognize && old(self).recognizers().pinch is Some ==> answer is Nothing,
            !should_recognize ==> (old(self).recognizers().pinch matches Some(recognizer)
                ==> answer == RecognizerChange::Detach(recognizer)),
            !should_recognize && old(self).recognizers().pinch is None ==> answer is Nothing,
            should_recognize ==> final(self).recognizers().pinch == old(self).recognizers().pinch,
            !should_recognize ==> final(self).recognizers().pinch is None,
            final(self).deltas() == old(self).deltas(),
    {
        request(&mut self.pinch_gesture_recognizer, should_recognize, RecognizerSetup::Pinch)
    }

    /// Asks the view to recognize pans by a number of fingers within limits, or to stop.
    pub fn recognize_pan_gesture(
        &mut self,
        should_recognize: bool,
        minimum_number_of_touches: u8,
        maximum_number_of_touches: u8,
    ) -> (answer: RecognizerChange<Pan>)
        ensures
            answer == change(
                old(self).recognizers().pan,
                should_recognize,
                (RecognizerSetup::Pan { minimum_number_of_touches, maximum_number_of_touches }),
            ),
            final(self).recognizers() == (Recognizers {
                pan: kept(old(self).recognizers().pan, should_recognize),
                ..old(self).recognizers()
            }),
            should_recognize && old(self).recognizers().pan is None ==> (
            answer matches RecognizerChange::Attach(setup) && (setup matches RecognizerSetup::Pan {
                minimum_number_of_touches: minimum,
                maximum_number_of_touches: maximum,
            } && minimum == minimum_number_of_touches && maximum == maximum_number_of_touches)),
            should_recognize && old(self).recognizers().pan is Some ==> answer is Nothing,
            !should_recognize ==> (old(self).recognizers().pan matches Some(recognizer)
                ==> answer == RecognizerChange::Detach(recognizer)),
            !should_recognize && old(self).recognizers().pan is None ==> answer is Nothing,
            should_recognize ==> final(self).recognizers().pan == old(self).recognizers().pan,
            !should_recognize ==> final(self).recognizers().pan is None,
            final(self).deltas() == old(self).deltas(),
    {
        request(
            &mut self.pan_gesture_recognizer,
            should_recognize,
            RecognizerSetup::Pan { minimum_number_of_touches, maximum_number_of_touches },
        )
    }

    /// Asks the view to recognize double taps, or to stop.
    pub fn recognize_doubletap_gesture(
        &mut self,
        should_recognize: bool,
    ) -> (answer: RecognizerChange<DoubleTap>)
        ensures
            answer == change(
                old(self).recognizers().double_tap,
                should_recognize,
                (RecognizerSetup::Tap {
                    number_of_taps_required: 2,
                    number_of_touches_required: 1,
                }),
            ),
            final(self).recognizers() == (Recognizers {
                double_tap: kept(old(self).recognizers().double_tap, should_recognize),
                ..old(self).recognizers()
            }),
            should_recognize && old(self).recognizers().double_tap is None ==> (
            answer matches RecognizerChange::Attach(setup) && (setup matches RecognizerSetup::Tap {
                number_of_taps_required,
                number_of_touches_required,
            } && number_of_taps_required == 2 && number_of_touches_required == 1)),
            should_recognize && old(self).recognizers().double_tap is Some ==> answer is Nothing,
            !should_recognize ==> (old(self).recognizers().double_tap matches Some(recognizer)
                ==> answer == RecognizerChange::Detach(recognizer)),
            !should_recognize && old(self).recognizers().double_tap is None ==> answer is Nothing,
            should_recognize ==> final(self).recognizers().double_tap == old(self).recognizers().double_tap,
            !should_recognize ==> final(self).recognizers().double_tap is None,
            final(self).deltas() == old(self).deltas(),
    {
        request(
            &mut self.doubletap_gesture_recognizer,
            should_recognize,
            RecognizerSetup::Tap {
                number_of_taps_required: DOUBLE_TAP_TAPS,
                number_of_touches_required: DOUBLE_TAP_TOUCHES,
            },
        )
    }

    /// Asks the view to recognize rotations, or to stop.
    pub fn recognize_rotation_gesture(
        &mut self,
        should_recognize: bool,
    ) -> (answer: RecognizerChange<Rotation>)
        ensures
            answer == change(
                old(self).recognizers().rotation,
                should_recognize,
                RecognizerSetup::Rotation,
            ),
            final(self).recognizers() == (Recognizers {
                rotation: kept(old(self).recognizers().rotation, should_recognize),
                ..old(self).recognizers()
            }),
            should_recognize && old(self).recognizers().rotation is None ==> (
            answer matches RecognizerChange::Attach(setup) && setup is Rotation),
            should_recognize && old(self).recognizers().rotation is Some ==> answer is Nothing,
            !should_recognize ==> (old(self).recognizers().rotation matches Some(recognizer)
                ==> answer == RecognizerChange::Detach(recognizer)),
            !should_recognize && old(self).recognizers().rotation is None ==> answer is Nothing,
            should_recognize ==> final(self).recognizers().rotation == old(self).recognizers().rotation,
            !should_recognize ==> final(self).recognizers().rotation is None,
            final(self).deltas() == old(self).deltas(),
    {
        request(&mut self.rotation_gesture_recognizer, should_recognize, RecognizerSetup::Rotation)
    }

    /// Stores the pinch recognizer that was attached.
    pub fn store_pinch_recognizer(&mut self, recognizer: Pinch)
        ensures
            final(self).recognizers() == (Recognizers {
                pinch: Some(recognizer),
                ..old(self).recognizers()
            }),
            final(self).deltas() == old(self).deltas(),
    {
        self.pinch_gesture_recognizer = Some(recognizer);
    }

    /// Stores the pan recognizer that was attached.
    pub fn store_pan_recognizer(&mut self, recognizer: Pan)
        ensures
            final(self).recognizers() == (Recognizers {
                pan: Some(recognizer),
                ..old(self).recognizers()
            }),
            final(self).deltas() == old(self).deltas(),
    {
        self.pan_gesture_recognizer = Some(recognizer);
    }

    /// Stores the double tap recognizer that was attached.
    pub fn store_doubletap_recognizer(&mut self, recognizer: DoubleTap)
        ensures
            final(self).recognizers() == (Recognizers {
                double_tap: Some(recognizer),
                ..old(self).recognizers()
            }),
            final(self).deltas() == old(self).deltas(),
    {
        self.doubletap_gesture_recognizer = Some(recognizer);
    }

    /// Stores the rotation recognizer that was attached.
    pub fn store_rotation_recognizer(&mut self, recognizer: Rotation)
        ensures
            final(self).recognizers() == (Recognizers {
                rotation: Some(recognizer),
                ..old(self).recognizers()
            }),
            final(self).deltas() == old(self).deltas(),
    {
        self.rotation_gesture_recognizer = Some(recognizer);
    }
}

} // verus!
