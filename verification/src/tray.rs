//! The notification area icon: its menu, what its notifications mean and what
//! the application does with each of them.

use vstd::prelude::*;

verus! {

/// An entry of the icon's menu.
pub enum TrayMenuEntry {
    Command { id: u16, label: String },
    Separator,
}

/// What the user did with the icon.
#[derive(Clone, Copy, Debug, PartialEq, Eq, Structural)]
pub enum TrayEvent {
    /// The icon was selected with the pointer or the keyboard.
    Activate,
    /// A menu command was chosen.
    Command(u16),
}

/// What the icon shows: its tooltip, its images and its menu.
pub struct TrayIconConfig {
    pub tooltip: String,
    pub small_icon: &'static [u8],
    pub large_icon: &'static [u8],
    pub menu: Vec<TrayMenuEntry>,
}

impl TrayMenuEntry {
    /// A command entry that reports `id` when chosen.
    pub fn command(id: u16, label: String) -> (r: Self)
        ensures
            r matches TrayMenuEntry::Command { id: i, label: l } && i == id && l == label,
    {
        TrayMenuEntry::Command { id, label }
    }

    /// A separator line.
    pub fn separator() -> (r: Self)
        ensures
            r is Separator,
    {
        TrayMenuEntry::Separator
    }
}

/// Notification codes the icon reports in the low word of its message.
pub const NIN_SELECT: u32 = 0x0400;
pub const NIN_KEYSELECT: u32 = 0x0401;
pub const WM_CONTEXTMENU: u32 = 0x007B;

/// What a notification of the icon asks for.
#[derive(Clone, Copy, Debug, PartialEq, Eq, Structural)]
pub enum TrayNotification {
    /// Report `TrayEvent::Activate`.
    Activate,
    /// Show the menu.
    ShowMenu,
    Ignore,
}

pub open spec fn spec_tray_notification(lparam: isize) -> TrayNotification {
    let code = (lparam as u32) & 0xFFFFu32;
    if code == NIN_SELECT || code == NIN_KEYSELECT {
        TrayNotification::Activate
    } else if code == WM_CONTEXTMENU {
        TrayNotification::ShowMenu
    } else {
        TrayNotification::Ignore
    }
}

/// What the notification whose `lparam` carries `code` in its low word asks
/// for: selection activates, the context menu request shows the menu.
pub fn tray_notification(lparam: isize) -> (r: TrayNotification)
    ensures
        r == spec_tray_notification(lparam),
{
    let code = (lparam as u32) & 0xFFFF;
    if code == NIN_SELECT || code == NIN_KEYSELECT {
        TrayNotification::Activate
    } else if code == WM_CONTEXTMENU {
        TrayNotification::ShowMenu
    } else {
        TrayNotification::Ignore
    }
}

/// The event a closed menu reports: the chosen command, none where the menu
/// was dismissed (command 0).
pub fn menu_command_event(command: u16) -> (r: Option<TrayEvent>)
    ensures
        command == 0 ==> r is None,
        command != 0 ==> r == Some(TrayEvent::Command(command)),
{
    if command != 0 {
        Some(TrayEvent::Command(command))
    } else {
        None
    }
}

/// The colour of the spacer drawn at the top of the menu, as a `0x00BBGGRR`
/// value.
pub fn menu_spacer_color(dark: bool) -> (r: u32)
    ensures
        r == (if dark {
            45 + 45 * 0x100 + 45 * 0x10000
        } else {
            249 + 249 * 0x100 + 249 * 0x10000
        }),
{
    if dark {
        45 + 45 * 0x100 + 45 * 0x10000
    } else {
        249 + 249 * 0x100 + 249 * 0x10000
    }
}

/// The menu command that opens the settings window.
pub const TRAY_COMMAND_SETTINGS: u16 = 1;
/// The menu command that quits the application.
pub const TRAY_COMMAND_EXIT: u16 = 2;

/// What the application does with an event of its icon.
#[derive(Clone, Copy, Debug, PartialEq, Eq, Structural)]
pub enum TrayAction {
    /// Open or close the Start menu.
    ToggleStart,
    /// Show the settings window.
    ShowSettings,
    /// Quit the message loop.
    Exit,
    Ignore,
}

pub fn tray_action(event: TrayEvent) -> (r: TrayAction)
    ensures
        r == (match event {
            TrayEvent::Activate => TrayAction::ToggleStart,
            TrayEvent::Command(id) => if id == TRAY_COMMAND_SETTINGS {
                TrayAction::ShowSettings
            } else if id == TRAY_COMMAND_EXIT {
                TrayAction::Exit
            } else {
                TrayAction::Ignore
            },
        }),
{
    match event {
        TrayEvent::Activate => TrayAction::ToggleStart,
        TrayEvent::Command(id) => if id == TRAY_COMMAND_SETTINGS {
            TrayAction::ShowSettings
        } else if id == TRAY_COMMAND_EXIT {
            TrayAction::Exit
        } else {
            TrayAction::Ignore
        },
    }
}

/// The icon of the application: tooltip `ep_start`, the given images, and a
/// menu with the settings command, a separator and the exit command.
pub fn application_tray_config(
    open_settings: String,
    exit: String,
    small_icon: &'static [u8],
    large_icon: &'static [u8],
) -> (r: TrayIconConfig)
    ensures
        r.tooltip@ == "ep_start"@,
        r.small_icon == small_icon,
        r.large_icon == large_icon,
        r.menu@.len() == 3,
        r.menu@[0] matches TrayMenuEntry::Command { id, label } && id == TRAY_COMMAND_SETTINGS && label == open_settings,
        r.menu@[1] is Separator,
        r.menu@[2] matches TrayMenuEntry::Command { id, label } && id == TRAY_COMMAND_EXIT && label == exit,
{
    let mut menu: Vec<TrayMenuEntry> = Vec::new();
    menu.push(TrayMenuEntry::command(TRAY_COMMAND_SETTINGS, open_settings));
    menu.push(TrayMenuEntry::separator());
    menu.push(TrayMenuEntry::command(TRAY_COMMAND_EXIT, exit));
    TrayIconConfig { tooltip: String::from_str("ep_start"), small_icon, large_icon, menu }
}

} // verus!
