//! Gestures: from the readings of a recognizer to the amount by which a gesture has moved on.
//!
//! UIKit measures pinches, rotations and pans from where the gesture began. A window wants to know
//! by how much it moved since the last report, so a view remembers the last reading of each.

use crate::event::{Displacement, TouchPhase};
use crate::float::Float;
use crate::geometry::{Point, Scalar};
use vstd::prelude::*;

verus! {

/// The state of a gesture recognizer, as UIKit gives it.
#[derive(Clone, Copy, Debug, PartialEq, Eq, Structural)]
pub enum RecognizerState {
    Possible,
    Began,
    Changed,
    Ended,
    Cancelled,
    Failed,
    Other(i64),
}

/// The readings that a view remembers.
#[derive(Clone, Copy, Debug, PartialEq, Eq, Structural)]
pub struct LastDeltas {
    pub rotation: Float,
    pub pinch: Float,
    pub pan: Point,
}

impl LastDeltas {
    /// What a view remembers before any gesture.
    pub open spec fn none() -> LastDeltas {
        LastDeltas { rotation: zero(), pinch: zero(), pan: Point { x: zero(), y: zero() } }
    }
}

/// What comes of one reading of a pinch or a rotation.
#[derive(Clone, Copy, Debug, PartialEq, Eq, Structural)]
pub struct Step {
    pub phase: TouchPhase,
    pub delta: Scalar,
    pub after: LastDeltas,
}

/// What comes of one reading of a pan.
#[derive(Clone, Copy, Debug, PartialEq, Eq, Structural)]
pub struct PanStep {
    pub phase: TouchPhase,
    pub delta: Displacement,
    pub after: LastDeltas,
}

impl RecognizerState {
    /// Whether a gesture under way can be in this state. A view does not expect a recognizer to
    /// call it in any other.
    pub open spec fn is_under_way(self) -> bool {
        self is Began || self is Changed || self is Ended || self.is_broken_off()
    }

    /// Whether the gesture came to nothing.
    pub open spec fn is_broken_off(self) -> bool {
        self is Cancelled || self is Failed
    }

    /// Whether a gesture under way can be in this state.
    pub fn can_be_handled(self) -> (handled: bool)
        ensures
            handled == self.is_under_way(),
            handled == (self is Began || self is Changed || self is Ended || self is Cancelled
                || self is Failed),
    {
        match self {
            RecognizerState::Began
            | RecognizerState::Changed
            | RecognizerState::Ended
            | RecognizerState::Cancelled
            | RecognizerState::Failed => true,
            _ => false,
        }
    }
}

/// `0.0`.
pub open spec fn zero() -> Float {
    Float { bits: 0 }
}

/// `minuend - subtrahend`.
pub open spec fn difference(minuend: Float, subtrahend: Float) -> Scalar {
    Scalar::Difference { minuend, subtrahend }
}

/// A reading `scale` of a pinch.
///
/// A pinch is measured from the scale that it began at. The last movement of a pinch is reported
/// like any other. A pinch that is broken off is reported with its negated scale; the remembered
/// scale stays, and it is the remembered rotation that goes back to zero.
pub open spec fn pinch_step(before: LastDeltas, state: RecognizerState, scale: Float) -> Step {
    match state {
        RecognizerState::Began => Step {
            phase: TouchPhase::Started,
            delta: Scalar::Value(zero()),
            after: LastDeltas { pinch: scale, ..before },
        },
        RecognizerState::Changed => Step {
            phase: TouchPhase::Moved,
            delta: difference(scale, before.pinch),
            after: LastDeltas { pinch: scale, ..before },
        },
        RecognizerState::Ended => Step {
            phase: TouchPhase::Moved,
            delta: difference(scale, before.pinch),
            after: LastDeltas { pinch: zero(), ..before },
        },
        _ => Step {
            phase: TouchPhase::Cancelled,
            delta: Scalar::Value(scale.negation()),
            after: LastDeltas { rotation: zero(), ..before },
        },
    }
}

/// A reading `rotation`, in radians, of a rotation.
///
/// A rotation is measured from zero. One that is broken off is reported with its negated reading.
pub open spec fn rotation_step(
    before: LastDeltas,
    state: RecognizerState,
    rotation: Float,
) -> Step {
    match state {
        RecognizerState::Began => Step {
            phase: TouchPhase::Started,
            delta: Scalar::Value(zero()),
            after: LastDeltas { rotation: zero(), ..before },
        },
        RecognizerState::Changed => Step {
            phase: TouchPhase::Moved,
            delta: difference(rotation, before.rotation),
            after: LastDeltas { rotation, ..before },
        },
        RecognizerState::Ended => Step {
            phase: TouchPhase::Ended,
            delta: difference(rotation, before.rotation),
            after: LastDeltas { rotation: zero(), ..before },
        },
        _ => Step {
            phase: TouchPhase::Cancelled,
            delta: Scalar::Value(rotation.negation()),
            after: LastDeltas { rotation: zero(), ..before },
        },
    }
}

/// A reading `translation` of a pan.
///
/// A pan is measured from the translation that it began at. One that is broken off is reported
/// with the negated translation that was remembered, whatever the reading.
pub open spec fn pan_step(
    before: LastDeltas,
    state: RecognizerState,
    translation: Point,
) -> PanStep {
    let moved = Displacement {
        x: difference(translation.x, before.pan.x),
        y: difference(translation.y, before.pan.y),
    };
    let still = Point { x: zero(), y: zero() };
    match state {
        RecognizerState::Began => PanStep {
            phase: TouchPhase::Started,
            delta: Displacement { x: Scalar::Value(zero()), y: Scalar::Value(zero()) },
            after: LastDeltas { pan: translation, ..before },
        },
        RecognizerState::Changed => PanStep {
            phase: TouchPhase::Moved,
            delta: moved,
            after: LastDeltas { pan: translation, ..before },
        },
        RecognizerState::Ended => PanStep {
            phase: TouchPhase::Ended,
            delta: moved,
            after: LastDeltas { pan: still, ..before },
        },
        _ => PanStep {
            phase: TouchPhase::Cancelled,
            delta: Displacement {
                x: Scalar::Value(before.pan.x.negation()),
                y: Scalar::Value(before.pan.y.negation()),
            },
            after: LastDeltas { pan: still, ..before },
        },
    }
}

} // verus!
