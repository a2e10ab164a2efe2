//! ZoomController: describe the OS-specific content-surface calls that
//! apply a zoom factor.
//!
//! Zoom factors are carried in hundredths of the multiplicative scale
//! (75 stands for a factor of 0.75, 100 for unscaled), so the shell can
//! hand the exact floating-point value to the platform API while the
//! mapping itself stays integral.

use vstd::prelude::*;

use crate::os::Os;

verus! {

/// Factor applied by the "Zoom In" menu entry, in hundredths.
pub const ZOOM_IN_HUNDREDTHS: u32 = 75;

/// Factor applied by the "Zoom Out" menu entry, in hundredths.
pub const ZOOM_OUT_HUNDREDTHS: u32 = 125;

/// Factor applied by the "Zoom Reset" menu entry, in hundredths.
pub const ZOOM_RESET_HUNDREDTHS: u32 = 100;

/// One call into the OS-specific content-surface API.  Zoom factors and
/// colour channels are in hundredths of a unit.
#[derive(Clone, Copy, Debug, PartialEq, Eq, Structural)]
pub enum SurfaceCommand {
    /// Linux: set the rendering surface's zoom level directly.
    SetZoomLevel { factor_hundredths: u32 },
    /// Windows: call the webview controller's zoom-factor setter.
    SetZoomFactor { factor_hundredths: u32 },
    /// macOS: set the page zoom via a low-level platform message.
    SetPageZoom { factor_hundredths: u32 },
    /// macOS only: drop every previously injected user script.
    RemoveAllUserScripts,
    /// macOS only: override the window background with a fixed tint.
    SetBackgroundColor {
        red_hundredths: u32,
        green_hundredths: u32,
        blue_hundredths: u32,
        alpha_hundredths: u32,
    },
}

/// The exact call sequence that applying `factor_hundredths` issues on
/// `os`.  On macOS the zoom call additionally clears injected user
/// scripts and overrides the background colour; this coupling is
/// preserved as observed behaviour.
pub open spec fn spec_zoom_commands(os: Os, factor_hundredths: u32) -> Seq<SurfaceCommand> {
    match os {
        Os::Linux => seq![SurfaceCommand::SetZoomLevel { factor_hundredths }],
        Os::Windows => seq![SurfaceCommand::SetZoomFactor { factor_hundredths }],
        Os::MacOs => seq![
            SurfaceCommand::SetPageZoom { factor_hundredths },
            SurfaceCommand::RemoveAllUserScripts,
            SurfaceCommand::SetBackgroundColor {
                red_hundredths: 50,
                green_hundredths: 20,
                blue_hundredths: 40,
                alpha_hundredths: 100,
            },
        ],
    }
}

/// Apply a zoom factor: the commands the shell must issue, in order.
pub fn set_zoom(os: Os, factor_hundredths: u32) -> (r: Vec<SurfaceCommand>)
    ensures
        r@ == spec_zoom_commands(os, factor_hundredths),
{
    let mut cmds: Vec<SurfaceCommand> = Vec::new();
    match os {
        Os::Linux => {
            cmds.push(SurfaceCommand::SetZoomLevel { factor_hundredths });
        },
        Os::Windows => {
            cmds.push(SurfaceCommand::SetZoomFactor { factor_hundredths });
        },
        Os::MacOs => {
            cmds.push(SurfaceCommand::SetPageZoom { factor_hundredths });
            cmds.push(SurfaceCommand::RemoveAllUserScripts);
            cmds.push(SurfaceCommand::SetBackgroundColor {
                red_hundredths: 50,
                green_hundredths: 20,
                blue_hundredths: 40,
                alpha_hundredths: 100,
            });
        },
    }
    proof {
        assert(cmds@ =~= spec_zoom_commands(os, factor_hundredths));
    }
    cmds
}

/// Menu "Zoom In": factor 0.75 (in hundredths, 75), on every OS.
pub fn set_zoom_in(os: Os) -> (r: Vec<SurfaceCommand>)
    ensures
        r@ == spec_zoom_commands(os, ZOOM_IN_HUNDREDTHS),
{
    set_zoom(os, ZOOM_IN_HUNDREDTHS)
}

/// Menu "Zoom Out": factor 1.25 (in hundredths, 125), on every OS.
pub fn set_zoom_out(os: Os) -> (r: Vec<SurfaceCommand>)
    ensures
        r@ == spec_zoom_commands(os, ZOOM_OUT_HUNDREDTHS),
{
    set_zoom(os, ZOOM_OUT_HUNDREDTHS)
}

/// Menu "Zoom Reset": factor 1.0 (in hundredths, 100), on every OS.
pub fn zoom_reset(os: Os) -> (r: Vec<SurfaceCommand>)
    ensures
        r@ == spec_zoom_commands(os, ZOOM_RESET_HUNDREDTHS),
{
    set_zoom(os, ZOOM_RESET_HUNDREDTHS)
}

} // verus!
