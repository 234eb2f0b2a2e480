//! Core logic of a terminal dashboard that shows a circle-of-fifths diagram
//! next to a selectable menu with a scrollable detail view.
//!
//! The library holds the focus state machine, the cyclic selection list with
//! per-item scroll offsets, the key-event dispatch, and the fixed-point radial
//! layout engine. Terminal I/O and widget drawing live outside the library.

pub mod config;
pub mod events;
pub mod focus;
pub mod layout;
pub mod menu;
