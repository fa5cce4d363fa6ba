//! Core logic of a close-to-tray desktop application shell.
//!
//! The host GUI framework owns the windows, the plugins and the run loop;
//! this crate owns the decisions: how a greeting request is answered, how
//! the bootstrap phases advance, what a window close request does to the
//! application, and how the update controller replies to the front-end
//! from the outcomes the external updater reports.

pub mod greeting;
pub mod lifecycle;
pub mod update;
