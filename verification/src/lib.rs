//! Verified decision core of the Flowtile window-manager daemon.
//!
//! The library holds the daemon's rules as plain functions: which key chord fires
//! which command, which touchpad movement is a swipe, where every preview of the
//! overview stands at every moment of an animation, when a frozen overview may be
//! restored, and what the watch loop does with each message. Window handles,
//! registry values, pipes and clocks stay outside; the library is handed what they
//! reported and answers with what to do next.

#![allow(unused_imports)]

pub mod arith;
pub mod control;
pub mod diag;
pub mod double;
pub mod flowshell_core;
pub mod geometry;
pub mod hotkeys;
pub mod ids;
pub mod overview_engine;
pub mod overview_surface;
pub mod process;
pub mod tab_indicator;
pub mod terminal;
pub mod text;
pub mod touchpad;
pub mod watch;
pub mod win32;
pub mod window_actions;
pub mod wm_state;
