//! Global hotkeys.
//!
//! Triggers are parsed into keys and modifiers ([`trigger`]); what the system does not
//! take as a global hotkey goes to a keyboard hook, either the plain one ([`plain`]) or
//! the one that can hold the Windows key back ([`low_level`]). What the latter held back and
//! nothing is bound to is played back ([`replay`]). Elsewhere a script observes the keys
//! ([`script`]).

pub mod keys;
pub mod laws;
pub mod listener;
pub mod low_level;
pub mod plain;
pub mod registration;
pub mod repeat;
pub mod replay;
pub mod script;
pub mod trigger;
