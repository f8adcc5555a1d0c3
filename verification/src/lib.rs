//! Automatic brightness control for external displays.
//!
//! The library is the decision core of a desktop daemon that dims every
//! external display while a fullscreen application is on screen and restores
//! brightness when it ends, leaving the display that hosts the fullscreen
//! content untouched.  It holds the screen registry (which control handles
//! are really displays), the topology matcher (which monitor placement drives
//! which screen), the fullscreen detector (which window, if any, is the one
//! foreground fullscreen window), and the fade state machine (what every
//! screen's brightness must be at each tick of a timed run).  All device and
//! window-manager I/O stays with the caller, which hands the library plain
//! values and carries out the brightness writes it asks for.

pub mod detector;
pub mod fade;
pub mod geometry;
pub mod identity;
pub mod names;
pub mod poll;
pub mod registry;
pub mod topology;
