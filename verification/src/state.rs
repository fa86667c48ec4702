//! The state a host keeps for the whole run of the program: the settings
//! record and the manager that follows it.

use crate::apply_settings_to_event_tap;
use crate::applied;
use crate::event_tap::{EventTapManager, ManagerView};
use crate::settings::{Settings, SettingsView};
use vstd::prelude::*;

verus! {

/// One manager and one settings record, built once at startup and handed to
/// whoever needs them.
pub struct AppState {
    pub event_tap: EventTapManager,
    pub settings: Settings,
}

/// What an [`AppState`] holds.
pub struct AppStateView {
    pub event_tap: ManagerView,
    pub settings: SettingsView,
}

impl View for AppState {
    type V = AppStateView;

    open spec fn view(&self) -> AppStateView {
        AppStateView { event_tap: self.event_tap@, settings: self.settings@ }
    }
}

impl AppStateView {
    /// The state at startup: the record as it was loaded, and a stopped
    /// manager whose tables come from it.
    pub open spec fn initial(settings: SettingsView) -> AppStateView {
        AppStateView { event_tap: applied(ManagerView::initial(), settings), settings }
    }

    /// The state after new settings arrived. The record is replaced in any
    /// case; the manager follows only where the record was persisted.
    pub open spec fn updated(self, settings: SettingsView, persisted: bool) -> AppStateView {
        AppStateView {
            event_tap: if persisted {
                applied(self.event_tap, settings)
            } else {
                self.event_tap
            },
            settings,
        }
    }
}

impl AppState {
    /// Builds the state from the settings that were loaded.
    pub fn new(settings: Settings) -> (state: Self)
        ensures
            state@ == AppStateView::initial(settings@),
            state.settings == settings,
    {
        let mut event_tap = EventTapManager::new();
        apply_settings_to_event_tap(&mut event_tap, &settings);
        AppState { event_tap, settings }
    }

    /// Takes over new settings. `persisted` says whether the host managed to
    /// write them to the settings store. The record is replaced either way;
    /// the manager's tables follow it only after a successful write, which is
    /// also what the answer reports.
    pub fn update_settings(&mut self, new_settings: Settings, persisted: bool) -> (applied: bool)
        ensures
            applied == persisted,
            final(self)@ == old(self)@.updated(new_settings@, persisted),
            final(self).settings == new_settings,
    {
        if persisted {
            apply_settings_to_event_tap(&mut self.event_tap, &new_settings);
        }
        self.settings = new_settings;
        persisted
    }

    /// Takes over the settings that were read back from the settings store:
    /// the record is replaced and the manager's tables follow it.
    pub fn reload_settings(&mut self, updated: Settings)
        ensures
            final(self)@ == old(self)@.updated(updated@, true),
            final(self).settings == updated,
    {
        apply_settings_to_event_tap(&mut self.event_tap, &updated);
        self.settings = updated;
    }
}

} // verus!
