//! The event logic of a `UIView` that feeds a window system: which events a view sends for
//! drawing, layout, scale changes, touches and gestures, and which gesture recognizers it keeps
//! attached.
//!
//! Every function here takes what was read from UIKit as plain values and gives back what is to
//! be done, so the calls into UIKit stay with the caller.

pub mod event;
pub mod float;
pub mod geometry;
pub mod gesture;
pub mod gesture_laws;
pub mod layout;
pub mod recognizer;
pub mod touch;
pub mod view;
