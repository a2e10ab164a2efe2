//! The error taxonomy of the shell.
//!
//! Every error is terminal for the process: configuration and startup
//! failures prevent any window from appearing, and mid-session operation
//! failures abort the application.

use vstd::prelude::*;

verus! {

/// A fatal error of the shell.
#[derive(Clone, Copy, Debug, PartialEq, Eq, Structural)]
pub enum PakeError {
    /// An embedded configuration document is malformed or violates the
    /// schema.  Raised before any window is created.
    ConfigParseError,
    /// A window entry asks for a web target but its URL does not parse as
    /// an absolute URL.  Raised before any window is created.
    InvalidUrl,
    /// The user's home directory cannot be determined, so no application
    /// data directory can be derived.  Raised before any window is created.
    HomeDirNotFound,
    /// The application data directory is absent and could not be created.
    /// Raised before any window is created.
    DirectoryCreateError,
    /// A hide / close / show or window-construction call was rejected by
    /// the host framework mid-session.
    WindowOperationError,
    /// The platform zoom primitive reported failure.
    ZoomApplyError,
}

impl PakeError {
    /// A short stable name for the error, for diagnostics.
    pub fn name(&self) -> (r: &'static str)
        ensures
            *self is ConfigParseError ==> r@ == "ConfigParseError"@,
            *self is InvalidUrl ==> r@ == "InvalidUrl"@,
            *self is HomeDirNotFound ==> r@ == "HomeDirNotFound"@,
            *self is DirectoryCreateError ==> r@ == "DirectoryCreateError"@,
            *self is WindowOperationError ==> r@ == "WindowOperationError"@,
            *self is ZoomApplyError ==> r@ == "ZoomApplyError"@,
    {
        match self {
            PakeError::ConfigParseError => "ConfigParseError",
            PakeError::InvalidUrl => "InvalidUrl",
            PakeError::HomeDirNotFound => "HomeDirNotFound",
            PakeError::DirectoryCreateError => "DirectoryCreateError",
            PakeError::WindowOperationError => "WindowOperationError",
            PakeError::ZoomApplyError => "ZoomApplyError",
        }
    }
}

} // verus!
