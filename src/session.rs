use vstd::prelude::*;

verus! {

/// An entry of the tray menu.
#[derive(Clone, Copy, Debug, PartialEq, Eq, Structural)]
pub enum MenuAction {
    ConfigureDirectory,
    ToggleAutostart,
    Quit,
}

/// What the coordinator reacts to.
#[derive(Debug)]
pub enum Event {
    HotkeyPressed,
    TrayIconLeftClicked,
    Menu(MenuAction),
    /// The folder picker closed, with the chosen folder or none.
    FolderPicked(Option<String>),
}

/// What the coordinator asks the host to do.
#[derive(Debug)]
pub enum Action {
    Hide,
    /// Place the window at the top right, show it and give it focus.
    PlaceAndShow,
    OpenFolderPicker,
    /// Turn launch-on-login on or off, then read the flag back for the menu.
    SetAutostart(bool),
    StoreSaveDirectory(String),
    Quit,
    Nothing,
}

/// The action for an event, given the window's visibility and the autostart
/// flag as the system reports them now (`None` where that query failed).
pub open spec fn decision(event: Event, window_visible: bool, autostart: Option<bool>) -> Action {
    match event {
        Event::HotkeyPressed => if window_visible {
            Action::Hide
        } else {
            Action::PlaceAndShow
        },
        Event::TrayIconLeftClicked => Action::PlaceAndShow,
        Event::Menu(MenuAction::ConfigureDirectory) => Action::OpenFolderPicker,
        Event::Menu(MenuAction::ToggleAutostart) => match autostart {
            Some(enabled) => Action::SetAutostart(!enabled),
            None => Action::Nothing,
        },
        Event::Menu(MenuAction::Quit) => Action::Quit,
        Event::FolderPicked(Some(path)) => Action::StoreSaveDirectory(path),
        Event::FolderPicked(None) => Action::Nothing,
    }
}

/// Whether the window is visible once `action` is carried out.
pub open spec fn visible_after(action: Action, window_visible: bool) -> bool {
    match action {
        Action::Hide => false,
        Action::PlaceAndShow => true,
        _ => window_visible,
    }
}

/// Decides what to do about `event`.
pub fn decide(event: Event, window_visible: bool, autostart: Option<bool>) -> (r: Action)
    ensures
        r == decision(event, window_visible, autostart),
{
    match event {
        Event::HotkeyPressed => if window_visible {
            Action::Hide
        } else {
            Action::PlaceAndShow
        },
        Event::TrayIconLeftClicked => Action::PlaceAndShow,
        Event::Menu(MenuAction::ConfigureDirectory) => Action::OpenFolderPicker,
        Event::Menu(MenuAction::ToggleAutostart) => match autostart {
            Some(enabled) => Action::SetAutostart(!enabled),
            None => Action::Nothing,
        },
        Event::Menu(MenuAction::Quit) => Action::Quit,
        Event::FolderPicked(Some(path)) => Action::StoreSaveDirectory(path),
        Event::FolderPicked(None) => Action::Nothing,
    }
}

/// The menu entry that a menu item id names.
pub fn menu_action_from_id(id: &str) -> (r: Option<MenuAction>)
    ensures
        r == (if id@ == "config_dir"@ {
            Some(MenuAction::ConfigureDirectory)
        } else if id@ == "autostart"@ {
            Some(MenuAction::ToggleAutostart)
        } else if id@ == "quit"@ {
            Some(MenuAction::Quit)
        } else {
            None
        }),
{
    let id = String::from_str(id);
    if id == String::from_str("config_dir") {
        Some(MenuAction::ConfigureDirectory)
    } else if id == String::from_str("autostart") {
        Some(MenuAction::ToggleAutostart)
    } else if id == String::from_str("quit") {
        Some(MenuAction::Quit)
    } else {
        None
    }
}

/// The checked state of the autostart menu item: the flag as the system
/// reports it, or the state shown before where the query failed.
pub fn autostart_checked(queried: Option<bool>, shown: bool) -> (r: bool)
    ensures
        r == match queried {
            Some(enabled) => enabled,
            None => shown,
        },
{
    match queried {
        Some(enabled) => enabled,
        None => shown,
    }
}

/// The hotkey is a true toggle: it hides a visible window and shows a hidden
/// one, so two presses in a row with nothing else in between hide then show,
/// or show then hide.
pub proof fn lemma_hotkey_toggles(window_visible: bool, first: Option<bool>, second: Option<bool>)
    ensures
        visible_after(decision(Event::HotkeyPressed, window_visible, first), window_visible)
            == !window_visible,
        ({
            let once = visible_after(decision(Event::HotkeyPressed, window_visible, first), window_visible);
            visible_after(decision(Event::HotkeyPressed, once, second), once) == window_visible
        }),
        decision(Event::HotkeyPressed, window_visible, first) is Hide <==> window_visible,
        decision(Event::HotkeyPressed, !window_visible, second) is Hide <==> !window_visible,
{
}

/// A left click on the tray icon always brings the window up: it never hides it.
pub proof fn lemma_tray_click_shows(window_visible: bool, autostart: Option<bool>)
    ensures
        decision(Event::TrayIconLeftClicked, window_visible, autostart) is PlaceAndShow,
        visible_after(decision(Event::TrayIconLeftClicked, window_visible, autostart), window_visible),
{
}

} // verus!
