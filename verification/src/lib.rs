//! Decision logic of a desktop launcher that installs a model runtime when it
//! is missing, starts a local backend process, and keeps a tray icon from which
//! the main window is shown again or the process is ended.
//!
//! Everything here works on plain values. The program around this library runs
//! processes, builds the tray and talks to the window toolkit; it hands the
//! outcomes in and carries the decisions out.

pub mod backend;
pub mod diagnostics;
pub mod installer;
pub mod location;
pub mod setup;
pub mod startup;
pub mod tray;
pub mod window;
