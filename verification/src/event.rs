//! The events that a view sends.

use crate::float::Float;
use crate::geometry::{PhysicalPosition, PhysicalSize, Scalar};
use vstd::prelude::*;

verus! {

/// The identity of a window.
#[derive(Clone, Copy, Debug, PartialEq, Eq, Structural)]
pub struct WindowId {
    pub raw: u64,
}

/// The one input device there is.
#[derive(Clone, Copy, Debug, PartialEq, Eq, Structural)]
pub struct DeviceId;

/// How far a touch or a gesture has come.
#[derive(Clone, Copy, Debug, PartialEq, Eq, Structural)]
pub enum TouchPhase {
    Started,
    Moved,
    Ended,
    Cancelled,
}

/// How hard a touch presses.
#[derive(Clone, Copy, Debug, PartialEq, Eq, Structural)]
pub enum Force {
    Calibrated {
        force: Float,
        max_possible_force: Float,
        /// The angle of the pencil over the screen, where a pencil touches.
        altitude_angle: Option<Float>,
    },
}

#[derive(Clone, Copy, Debug, PartialEq, Eq)]
pub struct Touch {
    pub device_id: DeviceId,
    pub id: u64,
    pub location: PhysicalPosition,
    pub force: Option<Force>,
    pub phase: TouchPhase,
}

/// The angle `-radians` in degrees: the sign is the one that macOS uses.
#[derive(Clone, Copy, Debug, PartialEq, Eq, Structural)]
pub struct NegatedDegrees {
    pub radians: Scalar,
}

/// A displacement, by axis.
#[derive(Clone, Copy, Debug, PartialEq, Eq, Structural)]
pub struct Displacement {
    pub x: Scalar,
    pub y: Scalar,
}

#[derive(Clone, Copy, Debug, PartialEq, Eq)]
#[allow(inconsistent_fields)]
pub enum WindowEvent {
    RedrawRequested,
    Resized(PhysicalSize),
    PinchGesture { device_id: DeviceId, delta: Scalar, phase: TouchPhase },
    DoubleTapGesture { device_id: DeviceId },
    RotationGesture { device_id: DeviceId, delta: NegatedDegrees, phase: TouchPhase },
    PanGesture { device_id: DeviceId, delta: Displacement, phase: TouchPhase },
    Touch(Touch),
}

#[derive(Clone, Copy, Debug, PartialEq, Eq)]
pub enum Event {
    WindowEvent { window_id: WindowId, event: WindowEvent },
}

/// A window's scale factor has changed, and with it the size that suits the window.
#[derive(Clone, Copy, Debug, PartialEq, Eq, Structural)]
pub struct ScaleFactorChanged {
    pub window: WindowId,
    pub scale_factor: Float,
    pub suggested_size: PhysicalSize,
}

#[derive(Clone, Copy, Debug, PartialEq, Eq)]
pub enum EventWrapper {
    StaticEvent(Event),
    ScaleFactorChanged(ScaleFactorChanged),
}

impl EventWrapper {
    /// The event `event` of the window `window_id`.
    pub open spec fn of_window(window_id: WindowId, event: WindowEvent) -> EventWrapper {
        EventWrapper::StaticEvent(Event::WindowEvent { window_id, event })
    }

    /// Addresses `event` to the window `window_id`.
    pub fn for_window(window_id: WindowId, event: WindowEvent) -> (wrapper: EventWrapper)
        ensures
            wrapper == EventWrapper::of_window(window_id, event),
            wrapper matches EventWrapper::StaticEvent(
                Event::WindowEvent { window_id: to, event: sent },
            ) && to == window_id && sent == event,
    {
        EventWrapper::StaticEvent(Event::WindowEvent { window_id, event })
    }

    /// An event reaches the window that it is addressed to, as it is.
    pub proof fn law_of_window(window_id: WindowId, event: WindowEvent)
        ensures
            EventWrapper::of_window(window_id, event) matches EventWrapper::StaticEvent(
                Event::WindowEvent { window_id: to, event: sent },
            ) && to == window_id && sent == event,
    {
    }
}

} // verus!
