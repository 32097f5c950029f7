# winit_view

The event logic of an iOS view that feeds a window system, verified with Verus.

- `src/` is the library. It takes what was read from UIKit as plain values and says what is to be
  done: which events to send, which recognizers to attach or detach, which frame to set.
  - `float`: floating-point readings by their bits, and their exact values
  - `geometry`, `event`: the values that events are made of
  - `touch`: touches, their phases and their force
  - `gesture`, `gesture_laws`: how readings of pinches, rotations and pans become deltas, and what
    the deltas of a whole gesture add up to
  - `recognizer`: attaching and detaching gesture recognizers
  - `layout`: drawing, layout and scale changes
  - `view`: the state of a view
- `tests/` runs the library on concrete values.
- `app/` is the `UIView` subclass: it reads UIKit, calls the library, and does the arithmetic that
  rounds.
