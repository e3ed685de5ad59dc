//! The settings store: it keeps the last settings snapshot and announces
//! when a reload changed anything the player cares about.

use vstd::prelude::*;

use crate::player::{spec_settings_eq, settings_eq, SpotifyPlayerSettings};
use crate::state::AppEvent;

verus! {

/// Operations on the settings store.
#[derive(Debug, Clone, Copy, PartialEq, Eq, Structural)]
pub enum SettingsAction {
    /// The settings backend changed; reload and compare.
    ChangeSettings,
}

/// Notifications out of the settings store.
#[derive(Debug, Clone, Copy, PartialEq, Eq, Structural)]
pub enum SettingsEvent {
    /// The reload changed the player's settings; it must be rebuilt.
    PlayerSettingsChanged,
}

/// The last known settings snapshot. The settings backend is the source
/// of truth; a reload hands its fresh reading in.
pub struct SettingsState {
    pub settings: SpotifyPlayerSettings,
}

impl SettingsState {
    /// A store holding the given snapshot.
    pub fn new(settings: SpotifyPlayerSettings) -> (r: Self)
        ensures
            r.settings == settings,
    {
        SettingsState { settings }
    }

    /// Apply one action. A reload replaces the snapshot with the fresh
    /// reading and announces a change exactly when the player's settings
    /// differ from the old snapshot.
    pub fn update_with(&mut self, action: SettingsAction, fresh: SpotifyPlayerSettings) -> (events:
        Vec<AppEvent>)
        ensures
            final(self).settings == fresh,
            match action {
                SettingsAction::ChangeSettings => events@ == (if spec_settings_eq(
                    fresh,
                    old(self).settings,
                ) {
                    Seq::<AppEvent>::empty()
                } else {
                    seq![AppEvent::SettingsEvent(SettingsEvent::PlayerSettingsChanged)]
                }),
            },
    {
        match action {
            SettingsAction::ChangeSettings => {
                let changed = !settings_eq(&fresh, &self.settings);
                self.settings = fresh;
                let mut events: Vec<AppEvent> = Vec::new();
                if changed {
                    events.push(AppEvent::SettingsEvent(SettingsEvent::PlayerSettingsChanged));
                }
                events
            },
        }
    }
}

} // verus!
