//! A keyframe-transition engine for retained-mode UI elements.
//!
//! A [`transition::TransitionTimer`] owns a start-delay timer and an ordered
//! list of segment timers. Each tick, the host hands it the wall-clock time
//! elapsed since the previous frame; the engine advances the active timer,
//! maps the segment's progress through an easing curve, and returns the style
//! to write onto the owning element, interpolated between the segment's two
//! keyframes. The arithmetic is integer-only: times are milliseconds and
//! interpolation fractions are fixed-point with denominator
//! [`easing::EASE_ONE`].

pub mod easing;
pub mod interaction;
pub mod laws;
pub mod menu;
pub mod style;
pub mod timer;
pub mod transition;
