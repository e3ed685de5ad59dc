//! The credential record, its persisted form, the token cache and the
//! application state stores.

use riff_player::codec::{decode_credentials, encode_credentials};
use riff_player::credentials::Credentials;
use riff_player::login_model::LoginModel;
use riff_player::login_state::{
    LoginAction, LoginEvent, LoginStartedEvent, LoginState, PlaylistSummary, TryLoginAction,
};
use riff_player::player::{AudioBackend, Bitrate, SpotifyPlayerSettings};
use riff_player::settings_state::{SettingsAction, SettingsEvent, SettingsState};
use riff_player::state::{AppAction, AppEvent};
use riff_player::token_store::TokenStore;

fn record(expiry: Option<u64>) -> Credentials {
    Credentials {
        username: "alice".to_string(),
        access_token: "access".to_string(),
        refresh_token: "refresh".to_string(),
        token_expiry_time: expiry,
    }
}

#[test]
fn token_expired_without_expiry_is_always_true() {
    let c = record(None);
    assert!(c.token_expired_at(0));
    assert!(c.token_expired_at(u64::MAX));
    assert!(c.token_expired());
}

#[test]
fn token_expired_is_now_strictly_past_expiry() {
    let c = record(Some(100));
    assert!(!c.token_expired_at(99));
    assert!(!c.token_expired_at(100));
    assert!(c.token_expired_at(101));
    let far_future = record(Some(u64::MAX));
    assert!(!far_future.token_expired());
}

#[test]
fn encode_produces_the_fixed_shape() {
    let c = Credentials {
        username: "u".to_string(),
        access_token: "a".to_string(),
        refresh_token: "r".to_string(),
        token_expiry_time: Some(5),
    };
    assert_eq!(
        encode_credentials(&c),
        "{\"username\":\"u\",\"access_token\":\"a\",\"refresh_token\":\"r\",\"token_expiry_time\":5}"
    );
    let c = Credentials {
        token_expiry_time: None,
        ..c
    };
    assert_eq!(
        encode_credentials(&c),
        "{\"username\":\"u\",\"access_token\":\"a\",\"refresh_token\":\"r\",\"token_expiry_time\":null}"
    );
}

#[test]
fn decode_reads_an_encoded_record_back() {
    let c = record(Some(1234567890));
    assert_eq!(decode_credentials(&encode_credentials(&c)), Some(c));
    let c = record(None);
    assert_eq!(decode_credentials(&encode_credentials(&c)), Some(c));
}

#[test]
fn round_trip_survives_escaped_characters() {
    let c = Credentials {
        username: "al\"i\\ce\nrecord".to_string(),
        access_token: "a\tb\u{1}c".to_string(),
        refresh_token: "plain".to_string(),
        token_expiry_time: Some(u64::MAX),
    };
    let encoded = encode_credentials(&c);
    assert!(encoded.contains("\\\"")); // the quote is escaped
    assert!(encoded.contains("\\u0001")); // the control character too
    assert_eq!(decode_credentials(&encoded), Some(c));
}

#[test]
fn decode_rejects_malformed_records() {
    assert_eq!(decode_credentials(""), None);
    assert_eq!(decode_credentials("{}"), None);
    assert_eq!(
        decode_credentials("{\"username\":\"u\",\"access_token\":\"a\"}"),
        None
    );
    // Trailing garbage is refused.
    let mut s = encode_credentials(&record(Some(1)));
    s.push('x');
    assert_eq!(decode_credentials(&s), None);
}

#[test]
fn token_store_caches_and_clears() {
    let mut store = TokenStore::new();
    assert_eq!(store.get_cached(), None);
    assert_eq!(store.get_cached_blocking(), None);
    store.set(record(Some(9)));
    assert_eq!(store.get_cached(), Some(record(Some(9))));
    store.clear();
    assert_eq!(store.get_cached(), None);
}

#[test]
fn token_store_get_populates_from_the_secret_store_once() {
    let mut store = TokenStore::new();
    // Empty cache: whatever the store read is cached and returned.
    assert_eq!(store.get(Some(record(None))), Some(record(None)));
    // A populated cache ignores later readings.
    assert_eq!(store.get(Some(record(Some(7)))), Some(record(None)));
    assert_eq!(store.get_cached(), Some(record(None)));
    // An empty cache and a failed read stay empty.
    let mut store = TokenStore::new();
    assert_eq!(store.get(None), None);
    assert_eq!(store.get_cached(), None);
}

#[test]
fn login_state_tracks_the_user() {
    let mut state = LoginState::default();
    let events = state.update_with(LoginAction::SetLoginSuccess("alice".to_string()));
    assert_eq!(events, vec![AppEvent::LoginEvent(LoginEvent::LoginCompleted)]);
    assert_eq!(state.user, Some("alice".to_string()));
    let events = state.update_with(LoginAction::Logout);
    assert_eq!(events, vec![AppEvent::LoginEvent(LoginEvent::LogoutCompleted)]);
    assert_eq!(state.user, None);
}

#[test]
fn login_state_translates_simple_actions_to_events() {
    let mut state = LoginState::default();
    assert_eq!(
        state.update_with(LoginAction::ShowLogin),
        vec![AppEvent::LoginEvent(LoginEvent::LoginShown)]
    );
    assert_eq!(
        state.update_with(LoginAction::TryLogin(TryLoginAction::Reconnect)),
        vec![AppEvent::LoginEvent(LoginEvent::LoginStarted(
            LoginStartedEvent::Reconnect
        ))]
    );
    assert_eq!(
        state.update_with(LoginAction::TryLogin(TryLoginAction::NewLogin)),
        vec![AppEvent::LoginEvent(LoginEvent::LoginStarted(
            LoginStartedEvent::NewLogin
        ))]
    );
    assert_eq!(
        state.update_with(LoginAction::SetLoginFailure),
        vec![AppEvent::LoginEvent(LoginEvent::LoginFailed)]
    );
    assert_eq!(
        state.update_with(LoginAction::RefreshToken),
        vec![AppEvent::LoginEvent(LoginEvent::FreshTokenRequested)]
    );
}

#[test]
fn login_state_notifies_on_token_refresh() {
    let mut state = LoginState::default();
    let events = state.update_with(LoginAction::TokenRefreshed);
    assert_eq!(
        events,
        vec![
            AppEvent::NotificationShown("Connection restored".to_string()),
            AppEvent::LoginEvent(LoginEvent::RefreshTokenCompleted),
        ]
    );
}

fn playlist(id: &str, title: &str) -> PlaylistSummary {
    PlaylistSummary {
        id: id.to_string(),
        title: title.to_string(),
    }
}

#[test]
fn login_state_updates_one_playlist_title() {
    let mut state = LoginState::default();
    let _ = state.update_with(LoginAction::SetUserPlaylists(vec![
        playlist("p1", "First"),
        playlist("p2", "Second"),
    ]));
    let events = state.update_with(LoginAction::UpdateUserPlaylist(playlist("p2", "Renamed")));
    assert_eq!(events, vec![AppEvent::LoginEvent(LoginEvent::UserPlaylistsLoaded)]);
    assert_eq!(
        state.playlists,
        vec![playlist("p1", "First"), playlist("p2", "Renamed")]
    );
    // An unknown id changes nothing.
    let _ = state.update_with(LoginAction::UpdateUserPlaylist(playlist("p9", "Ghost")));
    assert_eq!(
        state.playlists,
        vec![playlist("p1", "First"), playlist("p2", "Renamed")]
    );
}

#[test]
fn login_state_prepends_playlists_in_order() {
    let mut state = LoginState::default();
    let _ = state.update_with(LoginAction::SetUserPlaylists(vec![playlist("p3", "Old")]));
    let _ = state.update_with(LoginAction::PrependUserPlaylist(vec![
        playlist("p1", "New A"),
        playlist("p2", "New B"),
    ]));
    assert_eq!(
        state.playlists,
        vec![
            playlist("p1", "New A"),
            playlist("p2", "New B"),
            playlist("p3", "Old"),
        ]
    );
}

#[test]
fn settings_reload_announces_only_real_changes() {
    let mut state = SettingsState::new(SpotifyPlayerSettings::default());
    // The same reading again: no event.
    let events = state.update_with(SettingsAction::ChangeSettings, SpotifyPlayerSettings::default());
    assert_eq!(events, vec![]);
    // A changed backend: the player must be rebuilt.
    let changed = SpotifyPlayerSettings {
        bitrate: Bitrate::Bitrate320,
        backend: AudioBackend::Alsa("hw:0".to_string()),
        gapless: false,
        ap_port: Some(443),
    };
    let events = state.update_with(SettingsAction::ChangeSettings, changed.clone());
    assert_eq!(
        events,
        vec![AppEvent::SettingsEvent(SettingsEvent::PlayerSettingsChanged)]
    );
    assert_eq!(state.settings, changed);
}

#[test]
fn login_model_queues_its_two_gestures() {
    let mut model = LoginModel::new();
    model.try_autologin();
    model.login_with_spotify();
    let actions = model.take_pending();
    assert_eq!(
        actions,
        vec![
            AppAction::LoginAction(LoginAction::TryLogin(TryLoginAction::Reconnect)),
            AppAction::LoginAction(LoginAction::TryLogin(TryLoginAction::NewLogin)),
        ]
    );
    assert_eq!(model.take_pending(), vec![]);
}

#[test]
fn app_action_and_event_wrap_their_parts() {
    assert_eq!(
        AppAction::from(LoginAction::ShowLogin),
        AppAction::LoginAction(LoginAction::ShowLogin)
    );
    assert_eq!(
        AppAction::from(SettingsAction::ChangeSettings),
        AppAction::SettingsAction(SettingsAction::ChangeSettings)
    );
    assert_eq!(
        AppEvent::from(LoginEvent::LoginShown),
        AppEvent::LoginEvent(LoginEvent::LoginShown)
    );
    assert_eq!(
        AppEvent::from(SettingsEvent::PlayerSettingsChanged),
        AppEvent::SettingsEvent(SettingsEvent::PlayerSettingsChanged)
    );
}
