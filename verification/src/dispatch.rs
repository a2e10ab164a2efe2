//! MenuEventDispatcher: route application-menu click events to window
//! operations or to the zoom controller.
//!
//! A pure dispatch table keyed on the six stable menu identifiers.

use vstd::prelude::*;

use crate::strutil::str_eq;
use crate::tray::spec_tray_action_kind;
use crate::tray::TrayAction;
use crate::zoom::{ZOOM_IN_HUNDREDTHS, ZOOM_OUT_HUNDREDTHS, ZOOM_RESET_HUNDREDTHS};

verus! {

/// What a menu click asks the shell to do.
#[derive(Clone, Copy, Debug, PartialEq, Eq, Structural)]
pub enum MenuAction {
    /// Hide the event's window.
    Hide,
    /// Close the event's window.
    Close,
    /// Terminate the process immediately with this exit code.
    Exit { code: u8 },
    /// Apply this zoom factor (in hundredths) to the window's content
    /// surface.
    Zoom { factor_hundredths: u32 },
    /// Unknown identifier: do nothing.
    Noop,
}

/// The dispatch table: the action each menu identifier maps to.
pub open spec fn spec_menu_action(id: Seq<char>) -> MenuAction {
    if id == "hide"@ {
        MenuAction::Hide
    } else if id == "close"@ {
        MenuAction::Close
    } else if id == "quit"@ {
        MenuAction::Exit { code: 0 }
    } else if id == "zoom_out"@ {
        MenuAction::Zoom { factor_hundredths: ZOOM_OUT_HUNDREDTHS }
    } else if id == "zoom_in"@ {
        MenuAction::Zoom { factor_hundredths: ZOOM_IN_HUNDREDTHS }
    } else if id == "reset"@ {
        MenuAction::Zoom { factor_hundredths: ZOOM_RESET_HUNDREDTHS }
    } else {
        MenuAction::Noop
    }
}

/// MenuEventDispatcher: map a menu identifier to its action.
pub fn menu_event_handle(id: &str) -> (r: MenuAction)
    ensures
        r == spec_menu_action(id@),
{
    if str_eq(id, "hide") {
        MenuAction::Hide
    } else if str_eq(id, "close") {
        MenuAction::Close
    } else if str_eq(id, "quit") {
        MenuAction::Exit { code: 0 }
    } else if str_eq(id, "zoom_out") {
        MenuAction::Zoom { factor_hundredths: ZOOM_OUT_HUNDREDTHS }
    } else if str_eq(id, "zoom_in") {
        MenuAction::Zoom { factor_hundredths: ZOOM_IN_HUNDREDTHS }
    } else if str_eq(id, "reset") {
        MenuAction::Zoom { factor_hundredths: ZOOM_RESET_HUNDREDTHS }
    } else {
        MenuAction::Noop
    }
}

/// Law: the zoom factor mapping is fixed — `zoom_in` applies 0.75,
/// `zoom_out` applies 1.25 and `reset` applies 1.0 (in hundredths: 75,
/// 125 and 100).
pub proof fn lemma_zoom_factor_mapping()
    ensures
        spec_menu_action("zoom_in"@) == (MenuAction::Zoom { factor_hundredths: 75u32 }),
        spec_menu_action("zoom_out"@) == (MenuAction::Zoom { factor_hundredths: 125u32 }),
        spec_menu_action("reset"@) == (MenuAction::Zoom { factor_hundredths: 100u32 }),
{
    reveal_strlit("hide");
    reveal_strlit("close");
    reveal_strlit("quit");
    reveal_strlit("zoom_in");
    reveal_strlit("zoom_out");
    reveal_strlit("reset");
    assert("hide"@.len() == 4);
    assert("close"@.len() == 5);
    assert("quit"@.len() == 4);
    assert("zoom_in"@.len() == 7);
    assert("zoom_out"@.len() == 8);
    assert("reset"@.len() == 5);
    assert("reset"@[0] != "close"@[0]);
    assert("zoom_in"@ != "hide"@ && "zoom_in"@ != "close"@ && "zoom_in"@ != "quit"@
        && "zoom_in"@ != "zoom_out"@);
    assert("zoom_out"@ != "hide"@ && "zoom_out"@ != "close"@ && "zoom_out"@ != "quit"@);
    assert("reset"@ != "hide"@ && "reset"@ != "close"@ && "reset"@ != "quit"@ && "reset"@
        != "zoom_out"@ && "reset"@ != "zoom_in"@);
}

/// Law: the `quit` identifier, whether it comes from the application
/// menu or from the tray, terminates the process with exit code 0.
pub proof fn lemma_quit_exits_with_code_zero(r: TrayAction)
    requires
        spec_tray_action_kind("quit"@, r),
    ensures
        spec_menu_action("quit"@) == (MenuAction::Exit { code: 0u8 }),
        r == (TrayAction::Exit { code: 0u8 }),
{
    reveal_strlit("hide");
    reveal_strlit("close");
    reveal_strlit("show");
    reveal_strlit("quit");
    assert("quit"@[0] != "hide"@[0]);
    assert("quit"@[0] != "show"@[0]);
    assert("quit"@.len() == 4 && "close"@.len() == 5);
    assert("quit"@ != "hide"@ && "quit"@ != "close"@ && "quit"@ != "show"@);
}

} // verus!
