use winit_view::event::{
    DeviceId, Event, EventWrapper, Force, Touch, TouchPhase, WindowEvent, WindowId,
};
use winit_view::float::Float;
use winit_view::geometry::{PhysicalPosition, Point};
use winit_view::touch::{
    force_readings, handle_touches, ForceReadings, ForceTouchCapability, TouchSample, TouchStage,
    TouchType,
};

const WINDOW: WindowId = WindowId { raw: 40 };

fn float(value: f64) -> Float {
    Float { bits: value.to_bits() }
}

fn sample(id: u64) -> TouchSample {
    TouchSample {
        id,
        stage: TouchStage::Began,
        touch_type: TouchType::Direct,
        location: Point { x: float(10.0), y: float(20.0) },
        scale_factor: float(3.0),
        capability: ForceTouchCapability::Available,
        force: float(0.5),
        max_possible_force: float(6.0),
        altitude_angle: float(1.25),
    }
}

fn touches(os_supports_force: bool, samples: Vec<TouchSample>) -> Vec<Touch> {
    let mut reports = Vec::new();
    for wrapper in handle_touches(WINDOW, os_supports_force, &samples) {
        match wrapper {
            EventWrapper::StaticEvent(Event::WindowEvent {
                window_id,
                event: WindowEvent::Touch(touch),
            }) => {
                assert_eq!(window_id, WINDOW);
                reports.push(touch);
            },
            _ => panic!("not a touch"),
        }
    }
    reports
}

#[test]
fn no_touches_no_events() {
    assert_eq!(touches(true, vec![]), vec![]);
}

#[test]
fn a_touch_is_reported_whole() {
    assert_eq!(
        touches(true, vec![sample(77)]),
        vec![Touch {
            device_id: DeviceId,
            id: 77,
            location: PhysicalPosition {
                logical: Point { x: float(10.0), y: float(20.0) },
                scale_factor: float(3.0),
            },
            force: Some(Force::Calibrated {
                force: float(0.5),
                max_possible_force: float(6.0),
                altitude_angle: None,
            }),
            phase: TouchPhase::Started,
        }]
    );
}

#[test]
fn every_touch_is_reported_in_order() {
    let ids: Vec<u64> =
        touches(false, vec![sample(3), sample(1), sample(2)]).iter().map(|touch| touch.id).collect();
    assert_eq!(ids, vec![3, 1, 2]);
    let mut apart = touches(false, vec![sample(3)]);
    apart.extend(touches(false, vec![sample(1), sample(2)]));
    assert_eq!(apart, touches(false, vec![sample(3), sample(1), sample(2)]));
}

#[test]
fn phases_follow_stages() {
    for (stage, phase) in [
        (TouchStage::Began, TouchPhase::Started),
        (TouchStage::Moved, TouchPhase::Moved),
        (TouchStage::Ended, TouchPhase::Ended),
        (TouchStage::Cancelled, TouchPhase::Cancelled),
    ] {
        assert!(stage.can_be_reported());
        assert_eq!(touches(true, vec![TouchSample { stage, ..sample(1) }])[0].phase, phase);
    }
    assert!(!TouchStage::Stationary.can_be_reported());
    assert!(!TouchStage::Other(5).can_be_reported());
}

#[test]
fn without_support_there_is_no_force() {
    for touch_type in [TouchType::Direct, TouchType::Indirect, TouchType::Pencil] {
        let reports = touches(false, vec![TouchSample { touch_type, ..sample(1) }]);
        assert_eq!(reports[0].force, None);
        assert_eq!(
            force_readings(false, ForceTouchCapability::Available, touch_type),
            ForceReadings::Nothing
        );
    }
}

#[test]
fn a_finger_has_a_force_where_the_device_measures_it() {
    for capability in [
        ForceTouchCapability::Unknown,
        ForceTouchCapability::Unavailable,
        ForceTouchCapability::Other(9),
    ] {
        let reports = touches(true, vec![TouchSample { capability, ..sample(1) }]);
        assert_eq!(reports[0].force, None);
        assert_eq!(
            force_readings(true, capability, TouchType::Direct),
            ForceReadings::Nothing
        );
    }
    assert_eq!(
        force_readings(true, ForceTouchCapability::Available, TouchType::Other(3)),
        ForceReadings::Force
    );
}

#[test]
fn a_pencil_has_a_force_and_an_angle() {
    for capability in [
        ForceTouchCapability::Unknown,
        ForceTouchCapability::Unavailable,
        ForceTouchCapability::Available,
    ] {
        let pencil = TouchSample { touch_type: TouchType::Pencil, capability, ..sample(1) };
        assert_eq!(
            touches(true, vec![pencil])[0].force,
            Some(Force::Calibrated {
                force: float(0.5),
                max_possible_force: float(6.0),
                altitude_angle: Some(float(1.25)),
            })
        );
        assert_eq!(
            force_readings(true, capability, TouchType::Pencil),
            ForceReadings::ForceAndAltitude
        );
    }
}

#[test]
fn unread_readings_do_not_matter() {
    let finger = sample(1);
    let other_angle = TouchSample { altitude_angle: float(0.0), ..finger };
    assert_eq!(touches(true, vec![finger]), touches(true, vec![other_angle]));
    let other_force = TouchSample {
        force: float(f64::NAN),
        max_possible_force: float(0.0),
        capability: ForceTouchCapability::Unknown,
        ..finger
    };
    assert_eq!(touches(false, vec![finger]), touches(false, vec![other_force]));
}
