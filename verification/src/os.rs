//! The host operating systems this shell can drive.
//!
//! The behaviour of every component is chosen once per host OS, at build
//! configuration time, never at runtime; the variants here stand for the
//! three supported build targets.

use vstd::prelude::*;

verus! {

/// The compiled target operating system.
#[derive(Clone, Copy, Debug, PartialEq, Eq, Structural)]
pub enum Os {
    MacOs,
    Linux,
    Windows,
}

impl Os {
    /// Whether this is the macOS build target.
    pub fn is_macos(&self) -> (r: bool)
        ensures
            r == (*self is MacOs),
    {
        matches!(self, Os::MacOs)
    }
}

} // verus!
