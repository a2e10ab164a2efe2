//! Platform-abstraction core for a single-window desktop web-app shell.
//!
//! A declarative configuration describes one primary content window, a
//! native application menu, a system tray and a handful of window-level
//! operations.  This crate holds the decision logic: reading a validated
//! configuration, branching on the host operating system, and describing
//! exactly which native window / menu / tray / zoom primitives must be
//! driven.  The host-framework calls themselves (window construction,
//! webview zoom, tray installation) are performed by a thin shell around
//! this crate, from the plans and actions computed here.

pub mod config;
pub mod data_dir;
pub mod dispatch;
pub mod error;
pub mod menu;
pub mod os;
mod strutil;
pub mod tray;
pub mod window;
pub mod zoom;
