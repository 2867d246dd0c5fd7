use vstd::prelude::*;

verus! {

/// Height of the overlay bar, in pixels.
pub const BAR_HEIGHT: u32 = 42;

/// Height of the overlay while its settings panel is open, in pixels.
pub const SETTINGS_HEIGHT: u32 = 180;

/// Width the overlay has before any settings exist, in pixels.
pub const DEFAULT_WIDTH: u32 = 370;

/// Narrowest and widest overlay the settings allow.
pub const MIN_WIDTH: u32 = 300;
pub const MAX_WIDTH: u32 = 520;

/// Overlay width after a settings change: the requested width kept within
/// `MIN_WIDTH..=MAX_WIDTH`.
pub fn clamp_width(width: u32) -> (r: u32)
    ensures
        r == if width < MIN_WIDTH { MIN_WIDTH } else if width > MAX_WIDTH { MAX_WIDTH } else { width },
{
    if width < MIN_WIDTH {
        MIN_WIDTH
    } else if width > MAX_WIDTH {
        MAX_WIDTH
    } else {
        width
    }
}

/// Window height with the settings panel open or closed.
pub fn window_height(settings_open: bool) -> (r: u32)
    ensures
        r == if settings_open { SETTINGS_HEIGHT } else { BAR_HEIGHT },
{
    if settings_open { SETTINGS_HEIGHT } else { BAR_HEIGHT }
}

/// Whether the overlay starts pinned: as it was saved, when its saved
/// position could be restored; otherwise it starts in placement mode.
pub fn startup_pinned(restored: bool, saved_pinned: Option<bool>) -> (r: bool)
    ensures
        r == (restored && saved_pinned == Some(true)),
{
    restored && match saved_pinned {
        Some(p) => p,
        None => false,
    }
}

/// What the placement shortcut does.
#[derive(Clone, Copy, Debug, PartialEq, Eq, Structural)]
pub enum PlacementToggle {
    /// Unpin the overlay so it can be moved.
    EnterPlacement,
    /// Pin the overlay where it is.
    Pin,
}

pub fn toggle_placement_action(pinned: bool) -> (r: PlacementToggle)
    ensures
        r == if pinned { PlacementToggle::EnterPlacement } else { PlacementToggle::Pin },
{
    if pinned { PlacementToggle::EnterPlacement } else { PlacementToggle::Pin }
}

/// Whether the "overlay pinned" tip is due when the overlay is pinned: it is
/// shown once.
pub fn tray_tip_due(already_shown: bool) -> (r: bool)
    ensures
        r == !already_shown,
{
    !already_shown
}

/// Whether the tip counts as shown after an attempt: only once a
/// notification was delivered.
pub fn tray_tip_recorded(already_shown: bool, delivered: bool) -> (r: bool)
    ensures
        r == (already_shown || delivered),
{
    already_shown || delivered
}

/// The entries of the tray menu.
#[derive(Clone, Copy, Debug, PartialEq, Eq, Structural)]
pub enum MenuAction {
    Settings,
    EditPosition,
    Refresh,
    Details,
    ToggleVisible,
    Autostart,
    Quit,
    /// Any other id (such as the title entry): nothing happens.
    Ignore,
}

pub open spec fn spec_menu_action(id: Seq<char>) -> MenuAction {
    if id == "settings"@ {
        MenuAction::Settings
    } else if id == "edit-position"@ {
        MenuAction::EditPosition
    } else if id == "refresh"@ {
        MenuAction::Refresh
    } else if id == "details"@ {
        MenuAction::Details
    } else if id == "toggle-visible"@ {
        MenuAction::ToggleVisible
    } else if id == "autostart"@ {
        MenuAction::Autostart
    } else if id == "quit"@ {
        MenuAction::Quit
    } else {
        MenuAction::Ignore
    }
}

/// The action of a tray menu entry, from its id.
pub fn menu_action(id: &str) -> (r: MenuAction)
    ensures
        r == spec_menu_action(id@),
{
    let id = String::from_str(id);
    if id == String::from_str("settings") {
        MenuAction::Settings
    } else if id == String::from_str("edit-position") {
        MenuAction::EditPosition
    } else if id == String::from_str("refresh") {
        MenuAction::Refresh
    } else if id == String::from_str("details") {
        MenuAction::Details
    } else if id == String::from_str("toggle-visible") {
        MenuAction::ToggleVisible
    } else if id == String::from_str("autostart") {
        MenuAction::Autostart
    } else if id == String::from_str("quit") {
        MenuAction::Quit
    } else {
        MenuAction::Ignore
    }
}

} // verus!
