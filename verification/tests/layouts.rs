use winit_view::event::{Event, EventWrapper, ScaleFactorChanged, WindowEvent, WindowId};
use winit_view::float::Float;
use winit_view::geometry::{LogicalSize, PhysicalSize, Point, Rect};
use winit_view::layout::{
    draw_rect, layout_subviews, set_content_scale_factor, Layout, ScaleReading,
};

const WINDOW: WindowId = WindowId { raw: 5 };

fn float(value: f64) -> Float {
    Float { bits: value.to_bits() }
}

fn size(width: f64, height: f64) -> LogicalSize {
    LogicalSize { width: float(width), height: float(height) }
}

fn rect(x: f64, y: f64, width: f64, height: f64) -> Rect {
    Rect { origin: Point { x: float(x), y: float(y) }, size: size(width, height) }
}

fn event(event: WindowEvent) -> EventWrapper {
    EventWrapper::StaticEvent(Event::WindowEvent { window_id: WINDOW, event })
}

fn layout(bounds: Rect, frame: Rect) -> Layout {
    layout_subviews(WINDOW, bounds, frame, size(844.0, 390.0), float(3.0))
}

#[test]
fn drawing_requests_a_redraw() {
    assert_eq!(draw_rect(WINDOW), event(WindowEvent::RedrawRequested));
}

#[test]
fn layout_tells_the_size() {
    let bounds = rect(0.0, 0.0, 844.0, 390.0);
    let resized = WindowEvent::Resized(PhysicalSize {
        logical: size(844.0, 390.0),
        scale_factor: float(3.0),
    });
    assert_eq!(layout(bounds, bounds), Layout { new_frame: None, event: event(resized) });
}

#[test]
fn layout_turns_a_portrait_frame() {
    let bounds = rect(0.0, 0.0, 844.0, 390.0);
    let portrait = rect(0.0, 0.0, 390.0, 844.0);
    assert_eq!(layout(bounds, portrait).new_frame, Some(bounds));
    // The next layout finds nothing to change.
    assert_eq!(layout(bounds, bounds).new_frame, None);
}

#[test]
fn layout_compares_every_number() {
    let bounds = rect(1.0, 2.0, 3.0, 4.0);
    for frame in [
        rect(9.0, 2.0, 3.0, 4.0),
        rect(1.0, 9.0, 3.0, 4.0),
        rect(1.0, 2.0, 9.0, 4.0),
        rect(1.0, 2.0, 3.0, 9.0),
    ] {
        assert!(!frame.equals(&bounds));
        assert_eq!(layout(bounds, frame).new_frame, Some(bounds));
    }
    assert!(bounds.equals(&bounds));
}

#[test]
fn layout_compares_numbers_not_bits() {
    assert_eq!(layout(rect(0.0, 0.0, 1.0, 1.0), rect(-0.0, 0.0, 1.0, 1.0)).new_frame, None);
    let broken = rect(f64::NAN, 0.0, 1.0, 1.0);
    assert_eq!(layout(broken, broken).new_frame, Some(broken));
}

#[test]
fn a_view_in_no_window_is_silent() {
    assert_eq!(set_content_scale_factor(None), vec![]);
}

#[test]
fn a_new_scale_factor_is_told_before_the_size() {
    let reading = ScaleReading {
        window_id: WINDOW,
        scale_factor: float(2.0),
        screen_size: size(320.0, 480.0),
    };
    let physical = PhysicalSize { logical: size(320.0, 480.0), scale_factor: float(2.0) };
    assert_eq!(
        set_content_scale_factor(Some(reading)),
        vec![
            EventWrapper::ScaleFactorChanged(ScaleFactorChanged {
                window: WINDOW,
                scale_factor: float(2.0),
                suggested_size: physical,
            }),
            event(WindowEvent::Resized(physical)),
        ]
    );
}
