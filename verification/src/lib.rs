//! Spotlight overlay logic for highlighting the mouse cursor.
//!
//! A double tap of the Ctrl key toggles a full-screen backdrop with a circular
//! hole around the cursor.  This crate holds the decisions of that tool as
//! pure, verified functions: the validated configuration, the double-tap
//! detector, the visibility state machine with its follow and animation ticks,
//! the radius interpolation and the geometry of the clip region.  The program
//! around it reads the clock, the cursor and the screen, hands those values in
//! and carries out the actions that come back.

pub mod config;
pub mod constants;
pub mod hooks;
pub mod settings_dialog;
pub mod spotlight;
pub mod tray;
pub mod types;
