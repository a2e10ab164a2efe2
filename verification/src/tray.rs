//! TrayController: the system tray menu and the dispatch of its click
//! events.
//!
//! Tray item identifiers are the stable strings `hide`, `show`, `quit`
//! and `about` — the wire contract with the host event system.

use vstd::prelude::*;

use crate::strutil::str_eq;
use crate::window::{NavigationTarget, WindowPlan};

verus! {

/// One custom item of the tray menu.
#[derive(Debug)]
pub struct TrayItem {
    pub id: String,
    pub label: String,
}

/// Mathematical image of a [`TrayItem`].
#[verifier::ext_equal]
pub struct TrayItemView {
    pub id: Seq<char>,
    pub label: Seq<char>,
}

impl View for TrayItem {
    type V = TrayItemView;

    open spec fn view(&self) -> TrayItemView {
        TrayItemView { id: self.id@, label: self.label@ }
    }
}

/// The images of a sequence of tray items.
pub open spec fn spec_tray_view(items: Seq<TrayItem>) -> Seq<TrayItemView> {
    items.map_values(|t: TrayItem| t@)
}

/// The four tray menu items, in order.
pub open spec fn spec_tray_items() -> Seq<TrayItemView> {
    seq![
        (TrayItemView { id: "hide"@, label: "Hide"@ }),
        (TrayItemView { id: "show"@, label: "Show"@ }),
        (TrayItemView { id: "quit"@, label: "Quit"@ }),
        (TrayItemView { id: "about"@, label: "About"@ }),
    ]
}

/// Build one tray item from its identifier and label.
fn tray_item(id: &str, label: &str) -> (r: TrayItem)
    ensures
        r@ == (TrayItemView { id: id@, label: label@ }),
{
    TrayItem { id: id.to_owned(), label: label.to_owned() }
}

/// TrayController: construct the tray menu — four custom items.  Pure
/// construction, no error paths.
pub fn get_system_tray() -> (r: Vec<TrayItem>)
    ensures
        spec_tray_view(r@) == spec_tray_items(),
{
    let mut items: Vec<TrayItem> = Vec::new();
    items.push(tray_item("hide", "Hide"));
    items.push(tray_item("show", "Show"));
    items.push(tray_item("quit", "Quit"));
    items.push(tray_item("about", "About"));
    proof {
        assert(spec_tray_view(items@) =~~= spec_tray_items());
    }
    items
}

/// What a tray click asks the shell to do.
#[derive(Debug)]
pub enum TrayAction {
    /// Hide the primary window.
    HideMainWindow,
    /// Show the primary window.
    ShowMainWindow,
    /// Terminate the process immediately with this exit code.
    Exit { code: u8 },
    /// Open the secondary window described by the plan.
    OpenWindow { plan: WindowPlan },
    /// Unknown identifier: do nothing.
    Noop,
}

/// The action a tray identifier maps to, by kind (the `about` window
/// plan itself is pinned by [`about_window_plan`]).
pub open spec fn spec_tray_action_kind(id: Seq<char>, r: TrayAction) -> bool {
    if id == "hide"@ {
        r is HideMainWindow
    } else if id == "show"@ {
        r is ShowMainWindow
    } else if id == "quit"@ {
        r == (TrayAction::Exit { code: 0 })
    } else if id == "about"@ {
        r matches TrayAction::OpenWindow { plan } && spec_about_plan(plan)
    } else {
        r is Noop
    }
}

/// The "About" window: title "About", fixed size 100x100, resizable,
/// navigating to the bundled resource `about_pake.html`, independent of
/// the primary window's configuration.
pub open spec fn spec_about_plan(p: WindowPlan) -> bool {
    &&& p.label@ == "about"@
    &&& p.title@ == "About"@
    &&& (p.target matches NavigationTarget::App { path } && path@ == "about_pake.html"@)
    &&& p.user_agent is None
    &&& p.resizable
    &&& !p.fullscreen
    &&& !p.transparent
    &&& p.data_dir is None
    &&& p.width == 100
    &&& p.height == 100
    &&& !p.inject_bootstrap_script
}

/// Construct the plan of the "About" window.
pub fn about_window_plan() -> (r: WindowPlan)
    ensures
        spec_about_plan(r),
{
    WindowPlan {
        label: "about".to_owned(),
        title: "About".to_owned(),
        target: NavigationTarget::App { path: "about_pake.html".to_owned() },
        user_agent: None,
        resizable: true,
        fullscreen: false,
        transparent: false,
        data_dir: None,
        width: 100,
        height: 100,
        inject_bootstrap_script: false,
    }
}

/// TrayController: dispatch a tray click to its action.  `hide` and
/// `show` act on the primary window, `quit` terminates the process with
/// exit code 0, `about` opens the fixed secondary window, and any other
/// identifier is a no-op.
pub fn system_tray_handle(id: &str) -> (r: TrayAction)
    ensures
        spec_tray_action_kind(id@, r),
{
    if str_eq(id, "hide") {
        TrayAction::HideMainWindow
    } else if str_eq(id, "show") {
        TrayAction::ShowMainWindow
    } else if str_eq(id, "quit") {
        TrayAction::Exit { code: 0 }
    } else if str_eq(id, "about") {
        TrayAction::OpenWindow { plan: about_window_plan() }
    } else {
        TrayAction::Noop
    }
}

} // verus!
