//! The tray menu: its entries, labels and actions.
use vstd::prelude::*;

use crate::text::str_eq;

verus! {

pub const TRAY_ID: &'static str = "agentnotify-tray";

pub const TRAY_SHOW_ID: &'static str = "tray.show";

pub const TRAY_PAUSE_ID: &'static str = "tray.pause";

pub const TRAY_QUIT_ID: &'static str = "tray.quit";

/// Event sent to the interface when the paused state of the tray changes.
pub const TRAY_STATE_EVENT: &'static str = "tray.state.changed";

pub const SHOW_LABEL: &'static str = "显示 AgentNotify";

pub const PAUSE_LABEL: &'static str = "暂停通知";

pub const RESUME_LABEL: &'static str = "恢复通知";

pub const QUIT_LABEL: &'static str = "退出";

/// What choosing a tray entry does.
#[derive(Clone, Copy, Debug, PartialEq, Eq, Structural)]
pub enum TrayMenuAction {
    Show,
    SetPaused(bool),
    Quit,
}

/// One entry of the tray menu.
#[derive(Clone, Copy, Debug, PartialEq, Eq)]
pub struct TrayMenuEntry {
    id: &'static str,
    label: &'static str,
    action: TrayMenuAction,
}

impl TrayMenuEntry {
    pub closed spec fn spec_id(self) -> Seq<char> {
        self.id@
    }

    pub closed spec fn spec_label(self) -> Seq<char> {
        self.label@
    }

    pub closed spec fn spec_action(self) -> TrayMenuAction {
        self.action
    }

    pub fn id(&self) -> (r: &'static str)
        ensures
            r@ == self.spec_id(),
    {
        self.id
    }

    pub fn label(&self) -> (r: &'static str)
        ensures
            r@ == self.spec_label(),
    {
        self.label
    }

    pub fn action(&self) -> (r: TrayMenuAction)
        ensures
            r == self.spec_action(),
    {
        self.action
    }
}

/// The three tray entries.
#[derive(Clone, Copy, Debug, PartialEq, Eq)]
pub struct TrayMenu {
    pub show: TrayMenuEntry,
    pub pause: TrayMenuEntry,
    pub quit: TrayMenuEntry,
}

/// The tray menu for the current paused state: the middle entry offers the opposite state.
pub fn tray_menu(paused: bool) -> (r: TrayMenu)
    ensures
        r.show.spec_id() == TRAY_SHOW_ID@,
        r.show.spec_label() == SHOW_LABEL@,
        r.show.spec_action() == TrayMenuAction::Show,
        r.pause.spec_id() == TRAY_PAUSE_ID@,
        r.pause.spec_label() == (if paused {
            RESUME_LABEL@
        } else {
            PAUSE_LABEL@
        }),
        r.pause.spec_action() == TrayMenuAction::SetPaused(!paused),
        r.quit.spec_id() == TRAY_QUIT_ID@,
        r.quit.spec_label() == QUIT_LABEL@,
        r.quit.spec_action() == TrayMenuAction::Quit,
{
    TrayMenu {
        show: TrayMenuEntry { id: TRAY_SHOW_ID, label: SHOW_LABEL, action: TrayMenuAction::Show },
        pause: TrayMenuEntry {
            id: TRAY_PAUSE_ID,
            label: if paused {
                RESUME_LABEL
            } else {
                PAUSE_LABEL
            },
            action: TrayMenuAction::SetPaused(!paused),
        },
        quit: TrayMenuEntry { id: TRAY_QUIT_ID, label: QUIT_LABEL, action: TrayMenuAction::Quit },
    }
}

/// The state text sent with the tray event.
pub fn tray_state_text(paused: bool) -> (r: &'static str)
    ensures
        r@ == (if paused {
            "paused"@
        } else {
            "running"@
        }),
{
    if paused {
        "paused"
    } else {
        "running"
    }
}

/// What a chosen tray entry asks for, given the current paused state: the pause entry
/// asks for the opposite state; an unknown entry asks for nothing.
pub open spec fn event_action(id: Seq<char>, paused: bool) -> Option<TrayMenuAction> {
    if id == TRAY_SHOW_ID@ {
        Some(TrayMenuAction::Show)
    } else if id == TRAY_PAUSE_ID@ {
        Some(TrayMenuAction::SetPaused(!paused))
    } else if id == TRAY_QUIT_ID@ {
        Some(TrayMenuAction::Quit)
    } else {
        None
    }
}

/// The action for a tray menu event.
pub fn menu_event_action(id: &str, paused: bool) -> (r: Option<TrayMenuAction>)
    ensures
        r == event_action(id@, paused),
{
    if str_eq(id, TRAY_SHOW_ID) {
        Some(TrayMenuAction::Show)
    } else if str_eq(id, TRAY_PAUSE_ID) {
        Some(TrayMenuAction::SetPaused(!paused))
    } else if str_eq(id, TRAY_QUIT_ID) {
        Some(TrayMenuAction::Quit)
    } else {
        None
    }
}

/// Choosing an entry of the menu built for a paused state does what that entry offers.
pub proof fn lemma_menu_events_match_entries(paused: bool)
    ensures
        event_action(TRAY_SHOW_ID@, paused) == Some(TrayMenuAction::Show),
        event_action(TRAY_PAUSE_ID@, paused) == Some(TrayMenuAction::SetPaused(!paused)),
        event_action(TRAY_QUIT_ID@, paused) == Some(TrayMenuAction::Quit),
{
    reveal_strlit("tray.show");
    reveal_strlit("tray.pause");
    reveal_strlit("tray.quit");
    assert(TRAY_PAUSE_ID@ != TRAY_SHOW_ID@) by {
        assert(TRAY_PAUSE_ID@.len() != TRAY_SHOW_ID@.len());
    }
    assert(TRAY_QUIT_ID@ != TRAY_SHOW_ID@) by {
        assert(TRAY_QUIT_ID@[5] != TRAY_SHOW_ID@[5]);
    }
    assert(TRAY_QUIT_ID@ != TRAY_PAUSE_ID@) by {
        assert(TRAY_QUIT_ID@.len() != TRAY_PAUSE_ID@.len());
    }
}

} // verus!
