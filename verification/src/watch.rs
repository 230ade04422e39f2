//! The watch loop: commands, overview requests and observations, one after another.
//!
//! [`startup`] brings the parts of the daemon up, [`main_loop`] decides what comes next,
//! [`commands`] and [`control_plane`] what a message means, [`execution`] how it is carried
//! out, [`runtime_cycle`] where news of the windows comes from, and [`support`] reads the state
//! for all of them.

pub mod commands;
pub mod control_plane;
pub mod execution;
pub mod main_loop;
pub mod runtime_cycle;
pub mod startup;
pub mod support;
