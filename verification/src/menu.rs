//! MenuBuilder: the native application menu tree, branching on the host
//! OS.
//!
//! The tree is described with the crate's own types; the shell realises
//! it through the host framework's menu API.  Item identifiers are the
//! stable strings `hide`, `close`, `quit`, `zoom_in`, `zoom_out`,
//! `reset` — the wire contract with the host event system.

use vstd::prelude::*;

use crate::os::Os;

verus! {

/// A menu item supplied by the host framework itself.
#[derive(Clone, Copy, Debug, PartialEq, Eq, Structural)]
pub enum NativeMenuItem {
    EnterFullScreen,
    Minimize,
    Separator,
    Copy,
    Cut,
    Paste,
    Undo,
    Redo,
    SelectAll,
}

/// One entry of a submenu: a native item, or a custom item with a stable
/// identifier and a visible label.
#[derive(Debug)]
pub enum MenuEntry {
    Native(NativeMenuItem),
    Custom { id: String, label: String },
}

/// Mathematical image of a [`MenuEntry`].
#[verifier::ext_equal]
pub enum MenuEntryView {
    Native(NativeMenuItem),
    Custom { id: Seq<char>, label: Seq<char> },
}

impl View for MenuEntry {
    type V = MenuEntryView;

    open spec fn view(&self) -> MenuEntryView {
        match self {
            MenuEntry::Native(n) => MenuEntryView::Native(*n),
            MenuEntry::Custom { id, label } => MenuEntryView::Custom {
                id: id@,
                label: label@,
            },
        }
    }
}

/// A titled submenu of the application menu.
#[derive(Debug)]
pub struct AppSubmenu {
    pub title: String,
    pub entries: Vec<MenuEntry>,
}

/// Mathematical image of an [`AppSubmenu`].
#[verifier::ext_equal]
pub struct AppSubmenuView {
    pub title: Seq<char>,
    pub entries: Seq<MenuEntryView>,
}

impl View for AppSubmenu {
    type V = AppSubmenuView;

    open spec fn view(&self) -> AppSubmenuView {
        AppSubmenuView {
            title: self.title@,
            entries: self.entries@.map_values(|e: MenuEntry| e@),
        }
    }
}

/// The whole application menu: its submenus, in order.
#[derive(Debug)]
pub struct AppMenu {
    pub submenus: Vec<AppSubmenu>,
}

impl View for AppMenu {
    type V = Seq<AppSubmenuView>;

    open spec fn view(&self) -> Seq<AppSubmenuView> {
        self.submenus@.map_values(|s: AppSubmenu| s@)
    }
}

/// Shorthand for a custom entry image.
pub open spec fn spec_custom(id: Seq<char>, label: Seq<char>) -> MenuEntryView {
    MenuEntryView::Custom { id, label }
}

/// The three custom entries of the "File" submenu, common to every OS.
pub open spec fn spec_file_custom_entries() -> Seq<MenuEntryView> {
    seq![
        spec_custom("hide"@, "Hide"@),
        spec_custom("close"@, "Close"@),
        spec_custom("quit"@, "Quit"@),
    ]
}

/// The ten native entries that precede the custom ones on macOS.
pub open spec fn spec_macos_native_entries() -> Seq<MenuEntryView> {
    seq![
        MenuEntryView::Native(NativeMenuItem::EnterFullScreen),
        MenuEntryView::Native(NativeMenuItem::Minimize),
        MenuEntryView::Native(NativeMenuItem::Separator),
        MenuEntryView::Native(NativeMenuItem::Copy),
        MenuEntryView::Native(NativeMenuItem::Cut),
        MenuEntryView::Native(NativeMenuItem::Paste),
        MenuEntryView::Native(NativeMenuItem::Undo),
        MenuEntryView::Native(NativeMenuItem::Redo),
        MenuEntryView::Native(NativeMenuItem::SelectAll),
        MenuEntryView::Native(NativeMenuItem::Separator),
    ]
}

/// The "File" submenu entries for `os`: on macOS the native editing set
/// followed by the three custom entries; elsewhere the custom entries
/// alone.
pub open spec fn spec_file_entries(os: Os) -> Seq<MenuEntryView> {
    if os is MacOs {
        spec_macos_native_entries() + spec_file_custom_entries()
    } else {
        spec_file_custom_entries()
    }
}

/// The "Hot Key" submenu entries, identical on every OS.
pub open spec fn spec_hot_key_entries() -> Seq<MenuEntryView> {
    seq![
        spec_custom("zoom_in"@, "Zoom In (75%)"@),
        spec_custom("zoom_out"@, "Zoom Out (125%)"@),
        spec_custom("reset"@, "Zoom Reset"@),
    ]
}

/// The full application menu for `os`: a "File" submenu and a "Hot Key"
/// submenu.
pub open spec fn spec_menu(os: Os) -> Seq<AppSubmenuView> {
    seq![
        (AppSubmenuView { title: "File"@, entries: spec_file_entries(os) }),
        (AppSubmenuView { title: "Hot Key"@, entries: spec_hot_key_entries() }),
    ]
}

/// Build a custom entry from its identifier and label.
fn custom(id: &str, label: &str) -> (r: MenuEntry)
    ensures
        r@ == spec_custom(id@, label@),
{
    MenuEntry::Custom { id: id.to_owned(), label: label.to_owned() }
}

/// MenuBuilder: construct the application menu tree for `os`.  Pure
/// construction, no error paths.
pub fn get_menu(os: Os) -> (r: AppMenu)
    ensures
        r@ == spec_menu(os),
{
    let mut file_entries: Vec<MenuEntry> = Vec::new();
    if os.is_macos() {
        file_entries.push(MenuEntry::Native(NativeMenuItem::EnterFullScreen));
        file_entries.push(MenuEntry::Native(NativeMenuItem::Minimize));
        file_entries.push(MenuEntry::Native(NativeMenuItem::Separator));
        file_entries.push(MenuEntry::Native(NativeMenuItem::Copy));
        file_entries.push(MenuEntry::Native(NativeMenuItem::Cut));
        file_entries.push(MenuEntry::Native(NativeMenuItem::Paste));
        file_entries.push(MenuEntry::Native(NativeMenuItem::Undo));
        file_entries.push(MenuEntry::Native(NativeMenuItem::Redo));
        file_entries.push(MenuEntry::Native(NativeMenuItem::SelectAll));
        file_entries.push(MenuEntry::Native(NativeMenuItem::Separator));
    }
    file_entries.push(custom("hide", "Hide"));
    file_entries.push(custom("close", "Close"));
    file_entries.push(custom("quit", "Quit"));

    let mut hot_key_entries: Vec<MenuEntry> = Vec::new();
    hot_key_entries.push(custom("zoom_in", "Zoom In (75%)"));
    hot_key_entries.push(custom("zoom_out", "Zoom Out (125%)"));
    hot_key_entries.push(custom("reset", "Zoom Reset"));

    let mut submenus: Vec<AppSubmenu> = Vec::new();
    submenus.push(AppSubmenu { title: "File".to_owned(), entries: file_entries });
    submenus.push(AppSubmenu { title: "Hot Key".to_owned(), entries: hot_key_entries });
    let menu = AppMenu { submenus };
    proof {
        assert(menu@[0].entries =~~= spec_file_entries(os));
        assert(menu@[1].entries =~~= spec_hot_key_entries());
        assert(menu@ =~~= spec_menu(os));
    }
    menu
}

/// Law: the menu shape.  The menu has exactly two submenus, "File" and
/// "Hot Key".  On macOS "File" holds ten native entries followed by
/// three custom ones; on Linux and Windows it holds exactly the three
/// custom entries.  "Hot Key" holds exactly three custom entries on
/// every OS.
pub proof fn lemma_menu_shape(os: Os)
    ensures
        spec_menu(os).len() == 2,
        spec_menu(os)[0].title == "File"@,
        spec_menu(os)[1].title == "Hot Key"@,
        os is MacOs ==> spec_menu(os)[0].entries.len() == 13,
        os is MacOs ==> forall|i: int|
            0 <= i < 10 ==> (#[trigger] spec_menu(os)[0].entries[i]) is Native,
        os is MacOs ==> forall|i: int|
            10 <= i < 13 ==> (#[trigger] spec_menu(os)[0].entries[i]) is Custom,
        !(os is MacOs) ==> spec_menu(os)[0].entries.len() == 3,
        !(os is MacOs) ==> forall|i: int|
            0 <= i < 3 ==> (#[trigger] spec_menu(os)[0].entries[i]) is Custom,
        spec_menu(os)[1].entries.len() == 3,
        forall|i: int|
            0 <= i < 3 ==> (#[trigger] spec_menu(os)[1].entries[i]) is Custom,
{
}

} // verus!
