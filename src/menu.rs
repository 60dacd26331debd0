//! The static tray menu, written out in pre-order: a submenu's entries stand
//! between its opening and its closing entry.
use crate::actions::Action;
use vstd::prelude::*;

verus! {

/// One line of the menu in pre-order.
#[derive(Clone, Copy, Debug, PartialEq, Eq)]
pub enum MenuEntry {
    /// Opens a submenu with this label.
    Open(&'static str),
    /// Closes the innermost open submenu.
    Close,
    /// A clickable leaf.
    Item(Action),
    /// A divider line.
    Separator,
}

/// The tray menu: Get > Time > {UNIX, ISO}; Generate > {UUID v4, Mac
/// Address, Random 32 String}; a divider; Quit.
pub open spec fn tray_layout() -> Seq<MenuEntry> {
    seq![
        MenuEntry::Open("Get"),
        MenuEntry::Open("Time"),
        MenuEntry::Item(Action::GetTimeUnix),
        MenuEntry::Item(Action::GetTimeIso),
        MenuEntry::Close,
        MenuEntry::Close,
        MenuEntry::Open("Generate"),
        MenuEntry::Item(Action::GenerateUuid),
        MenuEntry::Item(Action::GenerateMac),
        MenuEntry::Item(Action::GenerateRandom32String),
        MenuEntry::Close,
        MenuEntry::Separator,
        MenuEntry::Item(Action::Quit),
    ]
}

/// Where action `a` stands in the layout.
pub open spec fn item_position(a: Action) -> int {
    match a {
        Action::GetTimeUnix => 2,
        Action::GetTimeIso => 3,
        Action::GenerateUuid => 7,
        Action::GenerateMac => 8,
        Action::GenerateRandom32String => 9,
        Action::Quit => 12,
    }
}

/// Every action of the catalog has exactly one item in the menu.
pub proof fn lemma_each_action_listed_once(a: Action)
    ensures
        0 <= item_position(a) < tray_layout().len(),
        tray_layout()[item_position(a)] == MenuEntry::Item(a),
        forall|j: int|
            0 <= j < tray_layout().len() && j != item_position(a) ==> #[trigger] tray_layout()[j]
                != MenuEntry::Item(a),
{
}

/// The entries of the tray menu, in pre-order.
pub fn tray_menu() -> (r: Vec<MenuEntry>)
    ensures
        r@ == tray_layout(),
{
    let r = vec![
        MenuEntry::Open("Get"),
        MenuEntry::Open("Time"),
        MenuEntry::Item(Action::GetTimeUnix),
        MenuEntry::Item(Action::GetTimeIso),
        MenuEntry::Close,
        MenuEntry::Close,
        MenuEntry::Open("Generate"),
        MenuEntry::Item(Action::GenerateUuid),
        MenuEntry::Item(Action::GenerateMac),
        MenuEntry::Item(Action::GenerateRandom32String),
        MenuEntry::Close,
        MenuEntry::Separator,
        MenuEntry::Item(Action::Quit),
    ];
    assert(r@ =~= tray_layout());
    r
}

} // verus!
