//! Touches: from what UIKit says of each touch to the events that a window gets.

use crate::event::{DeviceId, Event, EventWrapper, Force, Touch, TouchPhase, WindowEvent, WindowId};
use crate::float::Float;
use crate::geometry::{PhysicalPosition, Point};
use vstd::prelude::*;

verus! {

/// The kind of thing that touches.
#[derive(Clone, Copy, Debug, PartialEq, Eq, Structural)]
pub enum TouchType {
    Direct,
    Indirect,
    Pencil,
    Other(i64),
}

/// Whether the device can measure force.
#[derive(Clone, Copy, Debug, PartialEq, Eq, Structural)]
pub enum ForceTouchCapability {
    Unknown,
    Unavailable,
    Available,
    Other(i64),
}

/// The phase of a touch, as UIKit gives it.
#[derive(Clone, Copy, Debug, PartialEq, Eq, Structural)]
pub enum TouchStage {
    Began,
    Moved,
    Stationary,
    Ended,
    Cancelled,
    Other(i64),
}

/// Which readings a touch is asked for beside its place and phase.
#[derive(Clone, Copy, Debug, PartialEq, Eq, Structural)]
pub enum ForceReadings {
    /// Neither force nor angle.
    Nothing,
    /// The force and its maximum.
    Force,
    /// The force, its maximum and the altitude angle.
    ForceAndAltitude,
}

/// What was read of one touch. A reading that [`force_readings`] does not ask for may hold
/// anything.
#[derive(Clone, Copy, Debug, PartialEq, Eq)]
pub struct TouchSample {
    /// Tells this touch from every other that is under way.
    pub id: u64,
    pub stage: TouchStage,
    pub touch_type: TouchType,
    /// Where the touch is, in the window's logical coordinates.
    pub location: Point,
    /// The content scale factor of the view that got the touch.
    pub scale_factor: Float,
    pub capability: ForceTouchCapability,
    pub force: Float,
    pub max_possible_force: Float,
    pub altitude_angle: Float,
}

impl TouchStage {
    /// A touch is reported when it begins, moves, ends or is cancelled. A view does not expect to
    /// be handed one that stays where it is, or one whose phase is unknown.
    pub open spec fn is_reported(self) -> bool {
        self is Began || self is Moved || self is Ended || self is Cancelled
    }

    /// The phase that is reported for a touch at this stage.
    pub open spec fn phase(self) -> TouchPhase
        recommends
            self.is_reported(),
    {
        match self {
            TouchStage::Began => TouchPhase::Started,
            TouchStage::Moved => TouchPhase::Moved,
            TouchStage::Ended => TouchPhase::Ended,
            _ => TouchPhase::Cancelled,
        }
    }

    /// Whether a touch can be reported at this stage.
    pub fn can_be_reported(self) -> (reported: bool)
        ensures
            reported == self.is_reported(),
            reported == (self is Began || self is Moved || self is Ended || self is Cancelled),
    {
        match self {
            TouchStage::Began | TouchStage::Moved | TouchStage::Ended | TouchStage::Cancelled => {
                true
            },
            _ => false,
        }
    }
}

/// Whether the force of a touch is measured: the system has to support it, and either the device
/// can measure the force of any touch or a pencil does.
pub open spec fn measures_force(
    os_supports_force: bool,
    capability: ForceTouchCapability,
    touch_type: TouchType,
) -> bool {
    os_supports_force && (capability is Available || touch_type is Pencil)
}

/// The force that is reported for a touch.
pub open spec fn reported_force(os_supports_force: bool, touch: TouchSample) -> Option<Force> {
    if measures_force(os_supports_force, touch.capability, touch.touch_type) {
        Some(
            Force::Calibrated {
                force: touch.force,
                max_possible_force: touch.max_possible_force,
                altitude_angle: if touch.touch_type is Pencil {
                    Some(touch.altitude_angle)
                } else {
                    None
                },
            },
        )
    } else {
        None
    }
}

/// The report on one touch.
pub open spec fn report(os_supports_force: bool, touch: TouchSample) -> Touch {
    Touch {
        device_id: DeviceId,
        id: touch.id,
        location: PhysicalPosition { logical: touch.location, scale_factor: touch.scale_factor },
        force: reported_force(os_supports_force, touch),
        phase: touch.stage.phase(),
    }
}

/// The event that a window gets for one touch.
pub open spec fn touch_event(
    window_id: WindowId,
    os_supports_force: bool,
    touch: TouchSample,
) -> EventWrapper {
    EventWrapper::of_window(window_id, WindowEvent::Touch(report(os_supports_force, touch)))
}

/// The events that a window gets for some touches, one for each, in their order.
pub open spec fn touch_events(
    window_id: WindowId,
    os_supports_force: bool,
    touches: Seq<TouchSample>,
) -> Seq<EventWrapper> {
    Seq::new(touches.len(), |i: int| touch_event(window_id, os_supports_force, touches[i]))
}

/// Which readings to take of a touch. Where the system does not support force, `capability` may be
/// anything.
pub fn force_readings(
    os_supports_force: bool,
    capability: ForceTouchCapability,
    touch_type: TouchType,
) -> (readings: ForceReadings)
    ensures
        readings is Nothing <==> !measures_force(os_supports_force, capability, touch_type),
        readings is ForceAndAltitude <==> measures_force(os_supports_force, capability, touch_type)
            && touch_type is Pencil,
        !os_supports_force ==> readings is Nothing,
        os_supports_force && touch_type is Pencil ==> readings is ForceAndAltitude,
        os_supports_force && !(touch_type is Pencil) && capability is Available
            ==> readings is Force,
        os_supports_force && !(touch_type is Pencil) && !(capability is Available)
            ==> readings is Nothing,
{
    if !os_supports_force {
        return ForceReadings::Nothing;
    }
    match touch_type {
        TouchType::Pencil => ForceReadings::ForceAndAltitude,
        _ => match capability {
            ForceTouchCapability::Available => ForceReadings::Force,
            _ => ForceReadings::Nothing,
        },
    }
}

/// The force to report for a touch.
fn touch_force(os_supports_force: bool, touch: &TouchSample) -> (force: Option<Force>)
    ensures
        force == reported_force(os_supports_force, *touch),
{
    match force_readings(os_supports_force, touch.capability, touch.touch_type) {
        ForceReadings::Nothing => None,
        ForceReadings::Force => Some(
            Force::Calibrated {
                force: touch.force,
                max_possible_force: touch.max_possible_force,
                altitude_angle: None,
            },
        ),
        ForceReadings::ForceAndAltitude => Some(
            Force::Calibrated {
                force: touch.force,
                max_possible_force: touch.max_possible_force,
                altitude_angle: Some(touch.altitude_angle),
            },
        ),
    }
}

/// The phase to report for a touch.
fn touch_phase(stage: TouchStage) -> (phase: TouchPhase)
    requires
        stage.is_reported(),
    ensures
        phase == stage.phase(),
{
    match stage {
        TouchStage::Began => TouchPhase::Started,
        TouchStage::Moved => TouchPhase::Moved,
        TouchStage::Ended => TouchPhase::Ended,
        _ => TouchPhase::Cancelled,
    }
}

/// The events to send to the window `window_id` for the touches that its view was handed.
pub fn handle_touches(
    window_id: WindowId,
    os_supports_force: bool,
    touches: &Vec<TouchSample>,
) -> (events: Vec<EventWrapper>)
    requires
        forall|i: int| 0 <= i < touches@.len() ==> (#[trigger] touches@[i]).stage.is_reported(),
    ensures
        events@ == touch_events(window_id, os_supports_force, touches@),
        events@.len() == touches@.len(),
        forall|i: int| #![trigger events@[i]]
            0 <= i < touches@.len() ==> (events@[i] matches EventWrapper::StaticEvent(
                Event::WindowEvent { window_id: to, event: WindowEvent::Touch(touch) },
            ) && to == window_id && {
                &&& touch.device_id == DeviceId
                &&& touch.id == touches@[i].id
                &&& touch.location.logical.x == touches@[i].location.x
                &&& touch.location.logical.y == touches@[i].location.y
                &&& touch.location.scale_factor == touches@[i].scale_factor
                &&& touches@[i].stage is Began ==> touch.phase is Started
                &&& touches@[i].stage is Moved ==> touch.phase is Moved
                &&& touches@[i].stage is Ended ==> touch.phase is Ended
                &&& touches@[i].stage is Cancelled ==> touch.phase is Cancelled
                &&& touch.force is Some <==> os_supports_force && (touches@[i].capability is Available
                    || touches@[i].touch_type is Pencil)
                &&& touch.force matches Some(
                    Force::Calibrated { force, max_possible_force, altitude_angle },
                ) ==> {
                    &&& force == touches@[i].force
                    &&& max_possible_force == touches@[i].max_possible_force
                    &&& touches@[i].touch_type is Pencil ==> altitude_angle == Some(touches@[i].altitude_angle)
                    &&& !(touches@[i].touch_type is Pencil) ==> altitude_angle is None
                }
            }),
{
    let mut events: Vec<EventWrapper> = Vec::new();
    let mut next: usize = 0;
    while next < touches.len()
        invariant
            next <= touches@.len(),
            forall|i: int|
                0 <= i < touches@.len() ==> (#[trigger] touches@[i]).stage.is_reported(),
            events@ == touch_events(window_id, os_supports_force, touches@.take(next as int)),
        decreases touches@.len() - next,
    {
        let touch = &touches[next];
        let force = touch_force(os_supports_force, touch);
        let phase = touch_phase(touch.stage);
        let location = PhysicalPosition {
            logical: touch.location,
            scale_factor: touch.scale_factor,
        };
        events.push(
            EventWrapper::for_window(
                window_id,
                WindowEvent::Touch(
                    Touch { device_id: DeviceId, id: touch.id, location, force, phase },
                ),
            ),
        );
        next = next + 1;
    }
    assert(touches@.take(touches@.len() as int) == touches@);
    events
}

/// The report on a touch says where it is, axis by axis and at the view's own scale, which touch it
/// is, how far it has come and how hard it presses, whatever its stage and type; and it goes to the
/// window that the view is in.
pub proof fn law_touch_is_told(
    window_id: WindowId,
    os_supports_force: bool,
    touch: TouchSample,
)
    requires
        touch.stage.is_reported(),
    ensures
        touch_event(window_id, os_supports_force, touch) matches EventWrapper::StaticEvent(
            Event::WindowEvent { window_id: to, event: WindowEvent::Touch(sent) },
        ) && to == window_id && {
            &&& sent.device_id == DeviceId
            &&& sent.id == touch.id
            &&& sent.location.logical.x == touch.location.x
            &&& sent.location.logical.y == touch.location.y
            &&& sent.location.scale_factor == touch.scale_factor
            &&& touch.stage is Began ==> sent.phase is Started
            &&& touch.stage is Moved ==> sent.phase is Moved
            &&& touch.stage is Ended ==> sent.phase is Ended
            &&& touch.stage is Cancelled ==> sent.phase is Cancelled
            &&& sent.force is Some <==> os_supports_force && (touch.capability is Available
                || touch.touch_type is Pencil)
            &&& sent.force matches Some(
                Force::Calibrated { force, max_possible_force, altitude_angle },
            ) ==> {
                &&& force == touch.force
                &&& max_possible_force == touch.max_possible_force
                &&& touch.touch_type is Pencil ==> altitude_angle == Some(touch.altitude_angle)
                &&& !(touch.touch_type is Pencil) ==> altitude_angle is None
            }
        },
{
}

/// Every touch of a batch gets its own report, at its own place in the batch.
pub proof fn law_every_touch_is_told(
    window_id: WindowId,
    os_supports_force: bool,
    touches: Seq<TouchSample>,
    i: int,
)
    requires
        0 <= i < touches.len(),
        touches[i].stage.is_reported(),
    ensures
        touch_events(window_id, os_supports_force, touches).len() == touches.len(),
        touch_events(window_id, os_supports_force, touches)[i] matches EventWrapper::StaticEvent(
            Event::WindowEvent { window_id: to, event: WindowEvent::Touch(sent) },
        ) && to == window_id && {
            &&& sent.device_id == DeviceId
            &&& sent.id == touches[i].id
            &&& sent.location.logical.x == touches[i].location.x
            &&& sent.location.logical.y == touches[i].location.y
            &&& sent.location.scale_factor == touches[i].scale_factor
            &&& touches[i].stage is Began ==> sent.phase is Started
            &&& touches[i].stage is Moved ==> sent.phase is Moved
            &&& touches[i].stage is Ended ==> sent.phase is Ended
            &&& touches[i].stage is Cancelled ==> sent.phase is Cancelled
            &&& sent.force is Some <==> os_supports_force && (touches[i].capability is Available
                || touches[i].touch_type is Pencil)
            &&& sent.force matches Some(
                Force::Calibrated { force, max_possible_force, altitude_angle },
            ) ==> {
                &&& force == touches[i].force
                &&& max_possible_force == touches[i].max_possible_force
                &&& touches[i].touch_type is Pencil ==> altitude_angle == Some(touches[i].altitude_angle)
                &&& !(touches[i].touch_type is Pencil) ==> altitude_angle is None
            }
        },
{
}

/// Where a touch is does not depend on anything else that is read of it: two touches at one place
/// and scale are reported at one place.
pub proof fn law_location_by_itself(
    os_supports_force: bool,
    one: TouchSample,
    other: TouchSample,
)
    requires
        one.location == other.location,
        one.scale_factor == other.scale_factor,
    ensures
        report(os_supports_force, one).location == report(!os_supports_force, other).location,
        report(os_supports_force, one).location == report(os_supports_force, other).location,
        report(os_supports_force, one).location.logical == one.location,
{
}

/// Four stages are reported, and no two of them alike.
pub proof fn law_stages(one: TouchStage, other: TouchStage)
    ensures
        one.is_reported() <==> !(one is Stationary || one is Other),
        one.is_reported() && other.is_reported() && one.phase() == other.phase() ==> one == other,
        one is Began ==> one.phase() is Started,
        one is Moved ==> one.phase() is Moved,
        one is Ended ==> one.phase() is Ended,
        one is Cancelled ==> one.phase() is Cancelled,
{
}

/// A reading that is not asked for does not matter: whatever the force, its maximum and the angle
/// of a touch are where [`force_readings`] leaves them out, the report is the same.
pub proof fn law_unread_readings_do_not_matter(
    os_supports_force: bool,
    touch: TouchSample,
    force: Float,
    max_possible_force: Float,
    altitude_angle: Float,
)
    ensures
        !measures_force(os_supports_force, touch.capability, touch.touch_type) ==> report(
            os_supports_force,
            (TouchSample { force, max_possible_force, altitude_angle, ..touch }),
        ) == report(os_supports_force, touch),
        !(touch.touch_type is Pencil) ==> report(
            os_supports_force,
            (TouchSample { altitude_angle, ..touch }),
        ) == report(os_supports_force, touch),
{
}

/// Where the system does not support force, the device's capability does not matter and no touch
/// has a force.
pub proof fn law_no_force_without_support(touch: TouchSample, capability: ForceTouchCapability)
    ensures
        report(false, touch).force is None,
        report(false, (TouchSample { capability, ..touch })) == report(false, touch),
{
}

/// Where the system supports force, a pencil always has a force and an angle, whatever the device
/// can measure; any other touch has a force where the device can measure it, and never an angle.
pub proof fn law_force_by_touch_type(touch: TouchSample)
    ensures
        touch.touch_type is Pencil ==> (report(true, touch).force matches Some(
            Force::Calibrated { force, max_possible_force, altitude_angle },
        ) && force == touch.force && max_possible_force == touch.max_possible_force
            && altitude_angle == Some(touch.altitude_angle)),
        !(touch.touch_type is Pencil) && touch.capability is Available ==> (report(
            true,
            touch,
        ).force matches Some(Force::Calibrated { force, max_possible_force, altitude_angle })
            && force == touch.force && max_possible_force == touch.max_possible_force
            && altitude_angle is None),
        !(touch.touch_type is Pencil) && !(touch.capability is Available) ==> report(
            true,
            touch,
        ).force is None,
{
}

/// Touches are reported one by one: what is sent for some touches and then for more is what is
/// sent for all of them together.
pub proof fn law_touches_are_independent(
    window_id: WindowId,
    os_supports_force: bool,
    first: Seq<TouchSample>,
    second: Seq<TouchSample>,
)
    ensures
        touch_events(window_id, os_supports_force, first + second) == touch_events(
            window_id,
            os_supports_force,
            first,
        ) + touch_events(window_id, os_supports_force, second),
{
    assert(touch_events(window_id, os_supports_force, first + second) =~= touch_events(
        window_id,
        os_supports_force,
        first,
    ) + touch_events(window_id, os_supports_force, second));
}

} // verus!
