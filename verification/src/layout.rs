//! Drawing, layout and scale changes of a view.

use crate::event::{Event, EventWrapper, ScaleFactorChanged, WindowEvent, WindowId};
use crate::float::Float;
use crate::geometry::{LogicalSize, PhysicalSize, Rect};
use vstd::prelude::*;

verus! {

/// What a layout comes to: the frame to give the view, if its frame is to change, and after that
/// the event to send.
#[derive(Clone, Copy, Debug, PartialEq, Eq)]
pub struct Layout {
    pub new_frame: Option<Rect>,
    pub event: EventWrapper,
}

/// What a view in a window sees after its content scale factor was set.
#[derive(Clone, Copy, Debug, PartialEq, Eq, Structural)]
pub struct ScaleReading {
    pub window_id: WindowId,
    /// The scale factor that the view now has. The one that was asked for may have been zero, which
    /// stands for the device's own.
    pub scale_factor: Float,
    /// The size of the view's bounds in the screen's coordinate space.
    pub screen_size: LogicalSize,
}

/// The event that tells a window its size in pixels.
pub open spec fn resized(
    window_id: WindowId,
    logical: LogicalSize,
    scale_factor: Float,
) -> EventWrapper {
    EventWrapper::of_window(
        window_id,
        WindowEvent::Resized(PhysicalSize { logical, scale_factor }),
    )
}

/// The event that tells a window its scale factor and the size that suits it.
pub open spec fn rescaled(reading: ScaleReading) -> EventWrapper {
    EventWrapper::ScaleFactorChanged(
        ScaleFactorChanged {
            window: reading.window_id,
            scale_factor: reading.scale_factor,
            suggested_size: PhysicalSize {
                logical: reading.screen_size,
                scale_factor: reading.scale_factor,
            },
        },
    )
}

/// The events that a window gets when the content scale factor of its view was set, if the view is
/// in a window.
pub open spec fn scale_events(reading: Option<ScaleReading>) -> Seq<EventWrapper> {
    match reading {
        None => Seq::empty(),
        Some(reading) => seq![
            rescaled(reading),
            resized(reading.window_id, reading.screen_size, reading.scale_factor),
        ],
    }
}

/// The frame to give a view, if its frame is to change.
pub open spec fn frame_change(window_bounds: Rect, view_frame: Rect) -> Option<Rect> {
    if view_frame.numerically_equal(window_bounds) {
        None
    } else {
        Some(window_bounds)
    }
}

/// The view is drawn: gives the event to send before the drawing is done.
pub fn draw_rect(window_id: WindowId) -> (event: EventWrapper)
    ensures
        event == EventWrapper::of_window(window_id, WindowEvent::RedrawRequested),
        event matches EventWrapper::StaticEvent(
            Event::WindowEvent { window_id: to, event: WindowEvent::RedrawRequested },
        ) && to == window_id,
{
    EventWrapper::for_window(window_id, WindowEvent::RedrawRequested)
}

/// The view is laid out. `screen_size` is the size of the window's bounds in the screen's
/// coordinate space, and `scale_factor` the scale of the screen.
///
/// Where an app starts in landscape, the view's frame can be in portrait and the window's bounds in
/// landscape, so the view's frame is made to agree with the bounds.
pub fn layout_subviews(
    window_id: WindowId,
    window_bounds: Rect,
    view_frame: Rect,
    screen_size: LogicalSize,
    scale_factor: Float,
) -> (layout: Layout)
    ensures
        layout.new_frame == frame_change(window_bounds, view_frame),
        layout.event == resized(window_id, screen_size, scale_factor),
        layout.event matches EventWrapper::StaticEvent(
            Event::WindowEvent { window_id: to, event: WindowEvent::Resized(size) },
        ) && to == window_id && size.logical.width == screen_size.width && size.logical.height
            == screen_size.height && size.scale_factor == scale_factor,
        layout.new_frame is None <==> {
            &&& view_frame.origin.x.numerically_equal(window_bounds.origin.x)
            &&& view_frame.origin.y.numerically_equal(window_bounds.origin.y)
            &&& view_frame.size.width.numerically_equal(window_bounds.size.width)
            &&& view_frame.size.height.numerically_equal(window_bounds.size.height)
        },
        layout.new_frame matches Some(frame) ==> {
            &&& frame.origin.x == window_bounds.origin.x
            &&& frame.origin.y == window_bounds.origin.y
            &&& frame.size.width == window_bounds.size.width
            &&& frame.size.height == window_bounds.size.height
        },
{
    let size = PhysicalSize { logical: screen_size, scale_factor };
    let new_frame = if view_frame.equals(&window_bounds) {
        None
    } else {
        Some(window_bounds)
    };
    Layout { new_frame, event: EventWrapper::for_window(window_id, WindowEvent::Resized(size)) }
}

/// The content scale factor of the view was set: gives the events to send, in their order. A view
/// that is in no window sends none.
pub fn set_content_scale_factor(reading: Option<ScaleReading>) -> (events: Vec<EventWrapper>)
    requires
        reading matches Some(reading) ==> reading.scale_factor.usable_as_scale_factor(),
    ensures
        events@ == (match reading {
            None => Seq::empty(),
            Some(reading) => seq![
                rescaled(reading),
                resized(reading.window_id, reading.screen_size, reading.scale_factor),
            ],
        }),
        events@ == scale_events(reading),
        reading is None ==> events@.len() == 0,
        reading matches Some(reading) ==> {
            &&& events@.len() == 2
            &&& events@[0] matches EventWrapper::ScaleFactorChanged(changed)
                && changed.scale_factor == reading.scale_factor
                && changed.window == reading.window_id
                && changed.suggested_size.scale_factor == changed.scale_factor
                && changed.suggested_size.logical.width == reading.screen_size.width
                && changed.suggested_size.logical.height == reading.screen_size.height
            &&& events@[1] matches EventWrapper::StaticEvent(
                Event::WindowEvent { window_id: to, event: WindowEvent::Resized(size) },
            ) && to == reading.window_id && size.scale_factor == reading.scale_factor
                && size.logical.width == reading.screen_size.width
                && size.logical.height == reading.screen_size.height
        },
{
    let mut events: Vec<EventWrapper> = Vec::new();
    match reading {
        None => {},
        Some(reading) => {
            let size = PhysicalSize {
                logical: reading.screen_size,
                scale_factor: reading.scale_factor,
            };
            events.push(
                EventWrapper::ScaleFactorChanged(
                    ScaleFactorChanged {
                        window: reading.window_id,
                        scale_factor: reading.scale_factor,
                        suggested_size: size,
                    },
                ),
            );
            events.push(
                EventWrapper::for_window(reading.window_id, WindowEvent::Resized(size)),
            );
        },
    }
    events
}

/// A view whose frame agrees with the window's bounds is left as it is, so giving a view a new
/// frame does not make the next layout give it one again. Bounds that hold a NaN equal nothing.
pub proof fn law_layout_settles(window_bounds: Rect, view_frame: Rect)
    requires
        !window_bounds.has_nan(),
    ensures
        frame_change(window_bounds, view_frame) matches Some(new_frame) ==> frame_change(
            window_bounds,
            new_frame,
        ) is None,
        frame_change(window_bounds, window_bounds) is None,
{
}

/// The only frame that a view is ever given is the window's bounds, number for number.
pub proof fn law_new_frame_is_the_bounds(window_bounds: Rect, view_frame: Rect)
    ensures
        frame_change(window_bounds, view_frame) matches Some(frame) ==> {
            &&& frame.origin.x == window_bounds.origin.x
            &&& frame.origin.y == window_bounds.origin.y
            &&& frame.size.width == window_bounds.size.width
            &&& frame.size.height == window_bounds.size.height
        },
        window_bounds.has_nan() || view_frame.has_nan() ==> frame_change(
            window_bounds,
            view_frame,
        ) is Some,
        frame_change(window_bounds, view_frame) is None <==> {
            &&& view_frame.origin.x.numerically_equal(window_bounds.origin.x)
            &&& view_frame.origin.y.numerically_equal(window_bounds.origin.y)
            &&& view_frame.size.width.numerically_equal(window_bounds.size.width)
            &&& view_frame.size.height.numerically_equal(window_bounds.size.height)
        },
{
}

/// A window is told the scale factor that its view has, the same one for which a size is
/// suggested, and the sides of that size are the view's own, each as it was read.
pub proof fn law_scale_factor_is_told(reading: ScaleReading)
    ensures
        rescaled(reading) matches EventWrapper::ScaleFactorChanged(changed) && {
            &&& changed.scale_factor == reading.scale_factor
            &&& changed.window == reading.window_id
            &&& changed.suggested_size.scale_factor == changed.scale_factor
            &&& changed.suggested_size.logical.width == reading.screen_size.width
            &&& changed.suggested_size.logical.height == reading.screen_size.height
        },
{
}

/// A view in no window sends nothing. A view in a window sends two events: the scale factor that it
/// has, with the size that suits it, and then that size.
pub proof fn law_scale_then_size(reading: Option<ScaleReading>)
    ensures
        reading is None ==> scale_events(reading).len() == 0,
        reading matches Some(reading) ==> {
            let events = scale_events(Some(reading));
            &&& events.len() == 2
            &&& events[0] matches EventWrapper::ScaleFactorChanged(changed)
                && changed.scale_factor == reading.scale_factor
                && changed.window == reading.window_id
                && changed.suggested_size.scale_factor == reading.scale_factor
                && changed.suggested_size.logical.width == reading.screen_size.width
                && changed.suggested_size.logical.height == reading.screen_size.height
            &&& events[1] matches EventWrapper::StaticEvent(
                Event::WindowEvent { window_id: to, event: WindowEvent::Resized(size) },
            ) && to == reading.window_id && size.scale_factor == reading.scale_factor
                && size.logical.width == reading.screen_size.width
                && size.logical.height == reading.screen_size.height
        },
{
}

/// A window is told the size that was read, width as width and height as height, at the scale that
/// was read.
pub proof fn law_size_is_told(window_id: WindowId, logical: LogicalSize, scale_factor: Float)
    ensures
        resized(window_id, logical, scale_factor) matches EventWrapper::StaticEvent(
            Event::WindowEvent { window_id: to, event: WindowEvent::Resized(size) },
        ) && {
            &&& to == window_id
            &&& size.logical.width == logical.width
            &&& size.logical.height == logical.height
            &&& size.scale_factor == scale_factor
        },
{
}

/// A view gets a new frame exactly when some coordinate or side of its frame has another value than
/// the one of the bounds.
pub proof fn law_frame_changes_by_value(window_bounds: Rect, view_frame: Rect)
    requires
        window_bounds.is_finite(),
        view_frame.is_finite(),
    ensures
        frame_change(window_bounds, view_frame) is None <==> {
            &&& view_frame.origin.x.units() == window_bounds.origin.x.units()
            &&& view_frame.origin.y.units() == window_bounds.origin.y.units()
            &&& view_frame.size.width.units() == window_bounds.size.width.units()
            &&& view_frame.size.height.units() == window_bounds.size.height.units()
        },
{
    view_frame.origin.x.law_equal_by_value(window_bounds.origin.x);
    view_frame.origin.y.law_equal_by_value(window_bounds.origin.y);
    view_frame.size.width.law_equal_by_value(window_bounds.size.width);
    view_frame.size.height.law_equal_by_value(window_bounds.size.height);
}

/// The size that is suggested with a new scale factor is the size that the window is then told.
pub proof fn law_suggested_size_is_reported(reading: ScaleReading)
    ensures
        rescaled(reading) matches EventWrapper::ScaleFactorChanged(changed)
            && EventWrapper::of_window(
            changed.window,
            WindowEvent::Resized(changed.suggested_size),
        ) == resized(reading.window_id, reading.screen_size, reading.scale_factor),
{
}

} // verus!
