//! A manager of packages for a game, driven from the keyboard.
//!
//! The library holds what the manager decides: what each key chord does to
//! the application, which steps the worker takes on a request, which
//! folders pass their checks, and which files an installation copies and
//! an uninstallation removes. It reads no key and touches no file: the
//! program around it does, and hands over what it has read.

pub mod app;
pub mod constants;
pub mod inputs;
pub mod io;
pub mod text;
pub mod ui;
