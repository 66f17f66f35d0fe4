//! Decision core of a task-focus window manager.
//!
//! The crate decides; a thin adapter around it talks to the window system.
//! Every request is answered with an ordered list of surface commands, and
//! the contracts of the request functions pin that list down exactly.
//!
//! - [`label`]: the labels of a task's surfaces; [`uniqueness`]: when they
//!   differ.
//! - [`geometry`]: window rectangles and the store that remembers them.
//! - [`placement`]: where a new panel goes; [`primary`]: how the primary
//!   window is set.
//! - [`action`]: the commands; [`model`]: the session machine as
//!   mathematics; [`manager`]: the machine that runs.
//! - [`upkeep`], [`desktop`], [`laws`], [`accord`]: what holds of the
//!   machine in every state and of the desktop it drives.
//! - [`reminders`], [`oauth`]: how the answers of outside services are
//!   read; [`text`]: small operations on text.

pub mod accord;
pub mod action;
pub mod desktop;
pub mod geometry;
pub mod label;
pub mod laws;
pub mod manager;
pub mod model;
pub mod oauth;
pub mod placement;
pub mod primary;
pub mod reminders;
pub mod text;
pub mod uniqueness;
pub mod upkeep;
