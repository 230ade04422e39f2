//! The windows that show the overview: when they have to make way for the shell's
//! screenshot tools, where they stand, and what they show of each live window.
//!
//! [`controller`] follows the window manager's state, [`overlay`] takes its commands by the
//! session that [`worker`] keeps, [`shell`] watches the screenshot tools. [`placement`] puts
//! the windows on the screen; [`backdrop`] is the one behind, [`preview`] those in front,
//! [`steps`] the order in which they are drawn, and [`card`] what is painted on them. [`sync`]
//! keeps their thumbnails, [`pass`] brings them up to date, and [`thumbnail`] computes their
//! geometry. [`settings`] reads what the environment switches on and off.

pub mod backdrop;
pub mod card;
pub mod controller;
pub mod overlay;
pub mod pass;
pub mod placement;
pub mod preview;
pub mod settings;
pub mod shell;
pub mod steps;
pub mod sync;
pub mod thumbnail;
pub mod worker;
