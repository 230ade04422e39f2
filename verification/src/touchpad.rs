//! Touchpad swipes: reports are assembled into frames ([`recognizer`]), frames into
//! gestures, gestures into commands ([`bindings`]), if the system leaves the gestures to
//! the daemon at all ([`assessment`]).

pub mod assessment;
pub mod bindings;
pub mod recognizer;
pub mod runtime;
