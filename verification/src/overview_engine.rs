//! The overview: every workspace of a monitor as a small preview, stacked in one column.
//!
//! [`stack`] places the previews, [`scene`] fills them with windows, [`frame`] draws a
//! scene at a moment of an animation, [`transition`] turns one scene into another and
//! [`targets`] says what lies under the pointer.

pub mod frame;
pub mod scene;
pub mod stack;
pub mod targets;
pub mod transition;
