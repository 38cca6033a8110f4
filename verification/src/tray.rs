use vstd::prelude::*;

verus! {

/// What the user can ask for from the tray menu.
#[derive(Debug, Clone, Copy, PartialEq, Eq, Structural)]
pub enum TrayAction {
    Quit,
    Discord,
    ToggleStartup,
    Reload,
    CheckUpdate,
}

/// The identifiers of the menu's entries that can be chosen.
#[derive(Debug, Clone, PartialEq, Eq)]
pub struct MenuIds {
    pub quit: String,
    pub discord: String,
    pub startup: String,
    pub reload: String,
    pub update: String,
}

/// The action that belongs to a menu event: that of the first entry, in the
/// order quit, discord, startup, reload, update, whose identifier is the
/// event's; none where no entry has it.
pub open spec fn action_of(ids: MenuIds, event_id: Seq<char>) -> Option<TrayAction> {
    if event_id == ids.quit@ {
        Some(TrayAction::Quit)
    } else if event_id == ids.discord@ {
        Some(TrayAction::Discord)
    } else if event_id == ids.startup@ {
        Some(TrayAction::ToggleStartup)
    } else if event_id == ids.reload@ {
        Some(TrayAction::Reload)
    } else if event_id == ids.update@ {
        Some(TrayAction::CheckUpdate)
    } else {
        None
    }
}

impl MenuIds {
    /// Maps the identifier of a menu event to its action.
    pub fn action_for(&self, event_id: &str) -> (action: Option<TrayAction>)
        ensures
            action == action_of(*self, event_id@),
    {
        let id: String = event_id.to_owned();
        if id == self.quit {
            Some(TrayAction::Quit)
        } else if id == self.discord {
            Some(TrayAction::Discord)
        } else if id == self.startup {
            Some(TrayAction::ToggleStartup)
        } else if id == self.reload {
            Some(TrayAction::Reload)
        } else if id == self.update {
            Some(TrayAction::CheckUpdate)
        } else {
            None
        }
    }
}

} // verus!
