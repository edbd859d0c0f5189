//! Command-line arguments for the `wmctrl` window-management tool.
//!
//! Every operation on a window is one invocation of `wmctrl`. This crate
//! builds the argument text of each invocation, keeps the local record of a
//! window in step with what was requested, and reads the tables that the
//! tool prints. Running the tool is left to the caller.

pub mod decimal;
pub mod state;
pub mod transformation;
pub mod columns;
pub mod command;
pub mod listing;
pub mod window;

pub use crate::state::{Action, Property, State};
pub use crate::transformation::Transformation;
pub use crate::window::Window;
