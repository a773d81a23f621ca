//! The tray icon's state, and what its menu and tooltip show.

use crate::app::Msg;
use vstd::prelude::*;

verus! {

/// Name of the tray icon in the icon theme.
pub const TRAY_ICON_NAME: &'static str = "microphone";

/// Title of the tray icon and of its tooltip.
pub const TRAY_TITLE: &'static str = "Global Push-to-Talk";

/// What the user can ask of the tray icon.
#[derive(Debug, Clone, Copy, PartialEq, Eq, Structural)]
pub enum TrayMsg {
    Show,
    TogglePTT,
}

/// One entry of the tray menu.
#[derive(Debug, Clone, PartialEq, Eq)]
pub struct TrayMenuItem {
    pub label: String,
    /// The state of the entry's checkmark, if it has one.
    pub checked: Option<bool>,
    /// What the core is told when the entry is chosen.
    pub msg: Msg,
}

/// The tray's tooltip.
#[derive(Debug, Clone, PartialEq, Eq)]
pub struct TrayToolTip {
    pub title: String,
    pub description: String,
}

/// The tray icon's record of whether push-to-talk is on.
#[derive(Debug, Clone, Copy, PartialEq, Eq, Structural)]
pub struct Tray {
    ptt_enabled: bool,
}

impl View for Tray {
    type V = bool;

    closed spec fn view(&self) -> bool {
        self.ptt_enabled
    }
}

/// The tooltip's second line.
pub open spec fn status_text(enabled: bool) -> Seq<char> {
    if enabled {
        "Running"@
    } else {
        "Not Running"@
    }
}

impl Tray {
    /// A tray icon for a program whose push-to-talk is off.
    pub fn new() -> (tray: Tray)
        ensures
            !tray@,
    {
        Tray { ptt_enabled: false }
    }

    /// Records whether push-to-talk is on.
    pub fn set_ptt_enabled(&mut self, enabled: bool)
        ensures
            final(self)@ == enabled,
    {
        self.ptt_enabled = enabled;
    }

    /// Whether push-to-talk is on, as far as the tray knows.
    pub fn ptt_enabled(&self) -> (enabled: bool)
        ensures
            enabled == self@,
    {
        self.ptt_enabled
    }

    /// What the core is told when the icon is clicked.
    pub fn activate(&self) -> (msg: Msg)
        ensures
            msg == Msg::ShowWindow,
    {
        Msg::ShowWindow
    }

    /// The menu: a checkmark entry that shows whether push-to-talk is on and
    /// toggles it, then an entry that ends the program.
    pub fn menu(&self) -> (items: Vec<TrayMenuItem>)
        ensures
            items.len() == 2,
            items[0].label@ == "Enable Push-to-Talk"@,
            items[0].checked == Some(self@),
            items[0].msg == Msg::ToggleActive,
            items[1].label@ == "Exit"@,
            items[1].checked is None,
            items[1].msg == Msg::Exit,
    {
        let mut items: Vec<TrayMenuItem> = Vec::new();
        items.push(
            TrayMenuItem {
                label: "Enable Push-to-Talk".to_owned(),
                checked: Some(self.ptt_enabled),
                msg: Msg::ToggleActive,
            },
        );
        items.push(TrayMenuItem { label: "Exit".to_owned(), checked: None, msg: Msg::Exit });
        items
    }

    /// The tooltip: the program's name, and whether push-to-talk is on.
    pub fn tool_tip(&self) -> (tip: TrayToolTip)
        ensures
            tip.title@ == TRAY_TITLE@,
            tip.description@ == status_text(self@),
    {
        let description = if self.ptt_enabled {
            "Running"
        } else {
            "Not Running"
        };
        TrayToolTip { title: TRAY_TITLE.to_owned(), description: description.to_owned() }
    }
}

} // verus!
