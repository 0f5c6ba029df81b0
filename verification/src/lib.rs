//! A minimal tiling window manager core.
//!
//! The library is the decision-making half of the window manager: it keeps
//! the registry of managed windows, computes layout geometry, and turns each
//! protocol event into the list of display requests that should be issued.
//! Talking to the display server itself (the connection, the event loop, key
//! resolution) is left to an unverified driver around the library.

pub mod events;
pub mod geom;
pub mod hotkey;
pub mod layout;
pub mod registry;
pub mod wm;
