//! The application-level action and event vocabulary shared by the state
//! stores: what the rest of the application dispatches in, and what flows
//! back out to update it.

use vstd::prelude::*;

use crate::login_state::{LoginAction, LoginEvent};
use crate::settings_state::{SettingsAction, SettingsEvent};

verus! {

/// An operation dispatched by the application layer.
#[derive(Debug, PartialEq, Eq)]
pub enum AppAction {
    LoginAction(LoginAction),
    SettingsAction(SettingsAction),
    /// Show this text to the user.
    ShowNotification(String),
}

/// A notification flowing out of a state store.
#[derive(Debug, PartialEq, Eq)]
pub enum AppEvent {
    LoginEvent(LoginEvent),
    SettingsEvent(SettingsEvent),
    /// Show this text to the user.
    NotificationShown(String),
}

impl From<LoginAction> for AppAction {
    fn from(login_action: LoginAction) -> Self {
        AppAction::LoginAction(login_action)
    }
}

impl vstd::std_specs::convert::FromSpecImpl<LoginAction> for AppAction {
    open spec fn obeys_from_spec() -> bool {
        true
    }

    open spec fn from_spec(login_action: LoginAction) -> Self {
        AppAction::LoginAction(login_action)
    }
}

impl From<SettingsAction> for AppAction {
    fn from(settings_action: SettingsAction) -> Self {
        AppAction::SettingsAction(settings_action)
    }
}

impl vstd::std_specs::convert::FromSpecImpl<SettingsAction> for AppAction {
    open spec fn obeys_from_spec() -> bool {
        true
    }

    open spec fn from_spec(settings_action: SettingsAction) -> Self {
        AppAction::SettingsAction(settings_action)
    }
}

impl From<LoginEvent> for AppEvent {
    fn from(login_event: LoginEvent) -> Self {
        AppEvent::LoginEvent(login_event)
    }
}

impl vstd::std_specs::convert::FromSpecImpl<LoginEvent> for AppEvent {
    open spec fn obeys_from_spec() -> bool {
        true
    }

    open spec fn from_spec(login_event: LoginEvent) -> Self {
        AppEvent::LoginEvent(login_event)
    }
}

impl From<SettingsEvent> for AppEvent {
    fn from(settings_event: SettingsEvent) -> Self {
        AppEvent::SettingsEvent(settings_event)
    }
}

impl vstd::std_specs::convert::FromSpecImpl<SettingsEvent> for AppEvent {
    open spec fn obeys_from_spec() -> bool {
        true
    }

    open spec fn from_spec(settings_event: SettingsEvent) -> Self {
        AppEvent::SettingsEvent(settings_event)
    }
}

} // verus!
