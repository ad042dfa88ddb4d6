//! Launching developer tools (editors, terminals, file managers) and
//! discovering where they are installed, on macOS, Windows and Linux.
//!
//! - `args`: argument templates with a `{path}` placeholder.
//! - `paths`: path strings as each platform reads them.
//! - `probe`: read-only filesystem questions supplied by the caller.
//! - `locator`: search path, toolbox trees and installation roots.
//! - `launcher`: direct or interpreter-mediated starts, with a sibling retry.
//! - `presets`: discovery of installed tools.
//! - `actions`: the file-manager, terminal and editor actions as plans.

pub mod text;
pub mod args;
pub mod paths;
pub mod probe;
pub mod locator;
pub mod presets;
pub mod launcher;
pub mod actions;
