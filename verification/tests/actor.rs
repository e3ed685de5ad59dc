//! The command actor end to end, driving `handle` and `resume` with
//! stubbed outside outcomes.

use riff_player::credentials::Credentials;
use riff_player::oauth::TokenPayload;
use riff_player::player::{
    relay_event, scale_volume, ChallengeSeed, Command, ConnectOutcome, Effect, IoRequest,
    IoResponse, PlayerEvent, SpotifyError, SpotifyId, SpotifyPlayer, SpotifyPlayerSettings,
    StepNext, VolumeLevel, MAX_VOLUME,
};
use riff_player::token_store::TokenStore;

fn record(expiry: Option<u64>) -> Credentials {
    Credentials {
        username: "alice".to_string(),
        access_token: "access".to_string(),
        refresh_token: "refresh".to_string(),
        token_expiry_time: expiry,
    }
}

fn actor_with_token(expiry: Option<u64>) -> SpotifyPlayer {
    let mut store = TokenStore::new();
    store.set(record(expiry));
    SpotifyPlayer::new(SpotifyPlayerSettings::default(), store)
}

/// Log the actor in: `Restore` with a valid cached token, connecting on
/// the first port.
fn login(player: &mut SpotifyPlayer) {
    let step = player.handle(Command::Restore, 0);
    assert!(matches!(step.next, StepNext::Io(IoRequest::ConnectSession { .. })));
    let step = player.resume(
        IoResponse::ConnectResult(ConnectOutcome::Connected("alice".to_string())),
        0,
    );
    assert!(matches!(step.next, StepNext::Done(Ok(()))));
}

#[test]
fn load_before_login_is_player_not_ready() {
    let mut player = actor_with_token(Some(1000));
    let track = SpotifyId { id: 7 };
    let step = player.handle(Command::PlayerLoad { track, resume: false }, 0);
    assert!(matches!(
        step.next,
        StepNext::Done(Err(SpotifyError::PlayerNotReady))
    ));
    assert_eq!(step.effects, vec![Effect::ReportError(SpotifyError::PlayerNotReady)]);
    // The actor is still ready: a login and the same load now succeed.
    login(&mut player);
    let step = player.handle(Command::PlayerLoad { track, resume: true }, 0);
    assert!(matches!(step.next, StepNext::Done(Ok(()))));
    assert_eq!(step.effects, vec![Effect::PlayerLoadTrack { track, resume: true }]);
}

#[test]
fn port_probe_retries_technical_failures_in_order() {
    // No port configured: the default port, 80, 443 and 4070 are tried in
    // order; transient failures move on, and success stops the probe.
    let mut player = actor_with_token(Some(1000));
    let step = player.handle(Command::Restore, 0);
    match step.next {
        StepNext::Io(IoRequest::ConnectSession { access_token, ap_port }) => {
            assert_eq!(access_token, "access");
            assert_eq!(ap_port, None);
        }
        other => panic!("expected a connection attempt, got {:?}", other),
    }
    let step = player.resume(IoResponse::ConnectResult(ConnectOutcome::TechnicalFailure), 0);
    match step.next {
        StepNext::Io(IoRequest::ConnectSession { ap_port, .. }) => assert_eq!(ap_port, Some(80)),
        other => panic!("expected a connection attempt, got {:?}", other),
    }
    let step = player.resume(IoResponse::ConnectResult(ConnectOutcome::TechnicalFailure), 0);
    match step.next {
        StepNext::Io(IoRequest::ConnectSession { ap_port, .. }) => assert_eq!(ap_port, Some(443)),
        other => panic!("expected a connection attempt, got {:?}", other),
    }
    let step = player.resume(IoResponse::ConnectResult(ConnectOutcome::TechnicalFailure), 0);
    match step.next {
        StepNext::Io(IoRequest::ConnectSession { ap_port, .. }) => assert_eq!(ap_port, Some(4070)),
        other => panic!("expected a connection attempt, got {:?}", other),
    }
    // The session is established on 4070 and no further ports are tried.
    let step = player.resume(
        IoResponse::ConnectResult(ConnectOutcome::Connected("alice".to_string())),
        0,
    );
    assert!(matches!(step.next, StepNext::Done(Ok(()))));
    // The renewal task is armed for ten seconds before the expiry.
    assert!(step
        .effects
        .contains(&Effect::SpawnRefreshLoop { session_generation: 1, refresh_in: 990 }));
}

#[test]
fn port_probe_exhaustion_is_a_technical_error() {
    let mut player = actor_with_token(Some(1000));
    let _ = player.handle(Command::Restore, 0);
    for _ in 0..3 {
        let step = player.resume(IoResponse::ConnectResult(ConnectOutcome::TechnicalFailure), 0);
        assert!(matches!(step.next, StepNext::Io(IoRequest::ConnectSession { .. })));
    }
    let step = player.resume(IoResponse::ConnectResult(ConnectOutcome::TechnicalFailure), 0);
    assert!(matches!(
        step.next,
        StepNext::Done(Err(SpotifyError::TechnicalError))
    ));
}

#[test]
fn auth_failure_aborts_the_probe_at_once() {
    let mut player = actor_with_token(Some(1000));
    let _ = player.handle(Command::Restore, 0);
    let step = player.resume(IoResponse::ConnectResult(ConnectOutcome::AuthFailure), 0);
    assert!(matches!(
        step.next,
        StepNext::Done(Err(SpotifyError::LoginFailed))
    ));
}

#[test]
fn configured_port_is_the_only_one_tried() {
    let mut store = TokenStore::new();
    store.set(record(Some(1000)));
    let settings = SpotifyPlayerSettings {
        ap_port: Some(9999),
        ..SpotifyPlayerSettings::default()
    };
    let mut player = SpotifyPlayer::new(settings, store);
    let step = player.handle(Command::Restore, 0);
    match step.next {
        StepNext::Io(IoRequest::ConnectSession { ap_port, .. }) => assert_eq!(ap_port, Some(9999)),
        other => panic!("expected a connection attempt, got {:?}", other),
    }
    let step = player.resume(IoResponse::ConnectResult(ConnectOutcome::TechnicalFailure), 0);
    assert!(matches!(
        step.next,
        StepNext::Done(Err(SpotifyError::TechnicalError))
    ));
}

#[test]
fn restore_without_any_token_is_logged_out() {
    let mut player = SpotifyPlayer::new(SpotifyPlayerSettings::default(), TokenStore::new());
    let step = player.handle(Command::Restore, 0);
    assert!(matches!(step.next, StepNext::Io(IoRequest::RetrieveStored)));
    let step = player.resume(IoResponse::Stored(None), 0);
    assert!(matches!(
        step.next,
        StepNext::Done(Err(SpotifyError::LoggedOut))
    ));
    assert_eq!(step.effects, vec![Effect::ReportError(SpotifyError::LoggedOut)]);
}

#[test]
fn restore_refreshes_an_expired_token_exactly_once() {
    let mut player = actor_with_token(Some(1000));
    let step = player.handle(Command::Restore, 2000);
    match step.next {
        StepNext::Io(IoRequest::RefreshAccessToken { refresh_token }) => {
            assert_eq!(refresh_token, "refresh")
        }
        other => panic!("expected a refresh exchange, got {:?}", other),
    }
    let payload = TokenPayload {
        access_token: "fresh".to_string(),
        refresh_token: Some("fresh-refresh".to_string()),
        expires_in: Some(3600),
    };
    let step = player.resume(IoResponse::RefreshResult(Ok(payload)), 2000);
    // The refreshed record is persisted, then the probe starts with it.
    assert_eq!(step.effects.len(), 1);
    match &step.effects[0] {
        Effect::PersistCredentials(c) => {
            assert_eq!(c.access_token, "fresh");
            assert_eq!(c.token_expiry_time, Some(5600));
        }
        other => panic!("expected the record to be persisted, got {:?}", other),
    }
    match step.next {
        StepNext::Io(IoRequest::ConnectSession { access_token, .. }) => {
            assert_eq!(access_token, "fresh")
        }
        other => panic!("expected a connection attempt, got {:?}", other),
    }
}

#[test]
fn init_login_twice_repeats_the_same_challenge() {
    let mut player = actor_with_token(None);
    let step = player.handle(Command::InitLogin, 0);
    assert!(matches!(step.next, StepNext::Io(IoRequest::StartChallenge)));
    let seed = ChallengeSeed {
        csrf_token: "xyz".to_string(),
        pkce_verifier: "ver".to_string(),
        pkce_challenge: "chal".to_string(),
    };
    let step = player.resume(IoResponse::ChallengeReady(Some(seed)), 0);
    assert!(matches!(step.next, StepNext::Done(Ok(()))));
    let first_url = match &step.effects[0] {
        Effect::LoginChallengeStarted(url) => url.clone(),
        other => panic!("expected the challenge URL, got {:?}", other),
    };
    // A second InitLogin before completion repeats the pending URL and
    // starts no second listener: the step is done, not another request.
    let step = player.handle(Command::InitLogin, 0);
    assert!(matches!(step.next, StepNext::Done(Ok(()))));
    assert_eq!(step.effects, vec![Effect::LoginChallengeStarted(first_url)]);
}

#[test]
fn listener_bind_failure_is_login_failed() {
    let mut player = actor_with_token(None);
    let _ = player.handle(Command::InitLogin, 0);
    let step = player.resume(IoResponse::ChallengeReady(None), 0);
    assert!(matches!(
        step.next,
        StepNext::Done(Err(SpotifyError::LoginFailed))
    ));
}

#[test]
fn complete_login_exchanges_the_callback_code() {
    let mut player = actor_with_token(None);
    let _ = player.handle(Command::InitLogin, 0);
    let seed = ChallengeSeed {
        csrf_token: "xyz".to_string(),
        pkce_verifier: "ver".to_string(),
        pkce_challenge: "chal".to_string(),
    };
    let _ = player.resume(IoResponse::ChallengeReady(Some(seed)), 0);
    let step = player.handle(Command::CompleteLogin, 0);
    assert!(matches!(step.next, StepNext::Io(IoRequest::ReadCallback)));
    let line = "GET /login?state=xyz&code=abc HTTP/1.1\r\n".to_string();
    let step = player.resume(IoResponse::CallbackLine(Some(line)), 0);
    match step.next {
        StepNext::Io(IoRequest::ExchangeAuthCode { code, pkce_verifier }) => {
            assert_eq!(code, "abc");
            assert_eq!(pkce_verifier, "ver");
        }
        other => panic!("expected a code exchange, got {:?}", other),
    }
    let payload = TokenPayload {
        access_token: "at".to_string(),
        refresh_token: Some("rt".to_string()),
        expires_in: Some(60),
    };
    let step = player.resume(IoResponse::ExchangeResult(Ok(payload)), 100);
    assert!(matches!(step.effects[0], Effect::PersistCredentials(_)));
    assert!(matches!(step.next, StepNext::Io(IoRequest::ConnectSession { .. })));
    let step = player.resume(
        IoResponse::ConnectResult(ConnectOutcome::Connected("alice".to_string())),
        100,
    );
    assert!(matches!(step.next, StepNext::Done(Ok(()))));
    // The login reports the session's username last.
    match step.effects.last() {
        Some(Effect::TokenLoginSuccessful(u)) => assert_eq!(u, "alice"),
        other => panic!("expected the username notification, got {:?}", other),
    }
}

#[test]
fn complete_login_with_mismatched_state_fails() {
    let mut player = actor_with_token(None);
    let _ = player.handle(Command::InitLogin, 0);
    let seed = ChallengeSeed {
        csrf_token: "xyz".to_string(),
        pkce_verifier: "ver".to_string(),
        pkce_challenge: "chal".to_string(),
    };
    let _ = player.resume(IoResponse::ChallengeReady(Some(seed)), 0);
    let _ = player.handle(Command::CompleteLogin, 0);
    let line = "GET /login?state=wrong&code=abc HTTP/1.1\r\n".to_string();
    let step = player.resume(IoResponse::CallbackLine(Some(line)), 0);
    assert!(matches!(
        step.next,
        StepNext::Done(Err(SpotifyError::LoginFailed))
    ));
}

#[test]
fn complete_login_without_a_challenge_fails() {
    let mut player = actor_with_token(None);
    let step = player.handle(Command::CompleteLogin, 0);
    assert!(matches!(
        step.next,
        StepNext::Done(Err(SpotifyError::LoginFailed))
    ));
}

#[test]
fn set_volume_scales_to_half_the_device_range() {
    let mut player = actor_with_token(None);
    let step = player.handle(
        Command::PlayerSetVolume(VolumeLevel { basis_points: 5000 }),
        0,
    );
    assert!(matches!(step.next, StepNext::Done(Ok(()))));
    // The mixer is created on demand at full volume, then set to exactly
    // half of the device maximum.
    assert_eq!(
        step.effects,
        vec![
            Effect::CreateMixer { initial_volume: MAX_VOLUME },
            Effect::SetDeviceVolume(32767),
        ]
    );
    // A second change reuses the mixer.
    let step = player.handle(
        Command::PlayerSetVolume(VolumeLevel { basis_points: 10000 }),
        0,
    );
    assert_eq!(step.effects, vec![Effect::SetDeviceVolume(65535)]);
}

#[test]
fn scale_volume_maps_the_range_linearly() {
    assert_eq!(scale_volume(VolumeLevel { basis_points: 0 }), 0);
    assert_eq!(scale_volume(VolumeLevel { basis_points: 5000 }), MAX_VOLUME / 2);
    assert_eq!(scale_volume(VolumeLevel { basis_points: 10000 }), MAX_VOLUME);
    // A level past full volume is clamped.
    assert_eq!(scale_volume(VolumeLevel { basis_points: 10001 }), MAX_VOLUME);
}

#[test]
fn logout_needs_a_session_and_drops_the_player() {
    let mut player = actor_with_token(Some(1000));
    let step = player.handle(Command::Logout, 0);
    assert!(matches!(
        step.next,
        StepNext::Done(Err(SpotifyError::PlayerNotReady))
    ));
    login(&mut player);
    let step = player.handle(Command::Logout, 0);
    assert!(matches!(step.next, StepNext::Done(Ok(()))));
    assert_eq!(step.effects, vec![Effect::ShutdownSession, Effect::DropPlayer]);
    // The player is gone with the session.
    let step = player.handle(Command::PlayerResume, 0);
    assert!(matches!(
        step.next,
        StepNext::Done(Err(SpotifyError::PlayerNotReady))
    ));
}

#[test]
fn refresh_token_reconnects_the_live_session() {
    let mut player = actor_with_token(Some(1000));
    login(&mut player);
    // Not yet expired: reconnect straight away with the cached token.
    let step = player.handle(Command::RefreshToken, 500);
    match step.next {
        StepNext::Io(IoRequest::ReconnectSession { access_token }) => {
            assert_eq!(access_token, "access")
        }
        other => panic!("expected a reconnect, got {:?}", other),
    }
    let step = player.resume(
        IoResponse::ConnectResult(ConnectOutcome::Connected("alice".to_string())),
        500,
    );
    assert!(matches!(step.next, StepNext::Done(Ok(()))));
    // The delegate hears of the refresh, and the renewal task is re-armed
    // to fire ten seconds before the cached expiry.
    assert_eq!(
        step.effects,
        vec![
            Effect::RefreshSuccessful,
            Effect::SpawnRefreshLoop {
                session_generation: 1,
                refresh_in: 490,
            },
        ]
    );
}

#[test]
fn refresh_token_without_a_session_is_player_not_ready() {
    let mut player = actor_with_token(Some(1000));
    let step = player.handle(Command::RefreshToken, 0);
    assert!(matches!(
        step.next,
        StepNext::Done(Err(SpotifyError::PlayerNotReady))
    ));
}

#[test]
fn reload_settings_rebuilds_the_player_against_the_session() {
    let mut player = actor_with_token(Some(1000));
    login(&mut player);
    let new_settings = SpotifyPlayerSettings {
        gapless: false,
        ..SpotifyPlayerSettings::default()
    };
    let step = player.handle(Command::ReloadSettings(new_settings.clone()), 0);
    assert!(matches!(step.next, StepNext::Done(Ok(()))));
    match &step.effects[0] {
        Effect::CreatePlayer { settings, .. } => assert_eq!(settings, &new_settings),
        other => panic!("expected a player rebuild, got {:?}", other),
    }
    // A session is still required afterwards: transport works.
    let step = player.handle(Command::PlayerPause, 0);
    assert_eq!(step.effects, vec![Effect::PlayerPauseOutput]);
}

#[test]
fn reload_settings_without_session_still_replaces_settings() {
    let mut player = actor_with_token(Some(1000));
    let new_settings = SpotifyPlayerSettings {
        gapless: false,
        ..SpotifyPlayerSettings::default()
    };
    let step = player.handle(Command::ReloadSettings(new_settings.clone()), 0);
    assert!(matches!(
        step.next,
        StepNext::Done(Err(SpotifyError::PlayerNotReady))
    ));
    // The snapshot is replaced even though no player could be rebuilt.
    assert_eq!(player.settings, new_settings);
}

#[test]
fn transport_commands_reach_the_player() {
    let mut player = actor_with_token(Some(1000));
    login(&mut player);
    assert_eq!(
        player.handle(Command::PlayerResume, 0).effects,
        vec![Effect::PlayerPlay]
    );
    assert_eq!(
        player.handle(Command::PlayerStop, 0).effects,
        vec![Effect::PlayerStopOutput]
    );
    assert_eq!(
        player.handle(Command::PlayerSeek(90_000), 0).effects,
        vec![Effect::PlayerSeekTo(90_000)]
    );
    let track = SpotifyId { id: 42 };
    assert_eq!(
        player.handle(Command::PlayerPreload(track), 0).effects,
        vec![Effect::PlayerPreloadTrack(track)]
    );
}

#[test]
fn relay_event_maps_exactly_three_kinds() {
    assert_eq!(
        relay_event(&PlayerEvent::EndOfTrack),
        Some(Effect::EndOfTrackReached)
    );
    assert_eq!(
        relay_event(&PlayerEvent::Playing { position_ms: 1234 }),
        Some(Effect::NotifyPlaybackState(1234))
    );
    assert_eq!(
        relay_event(&PlayerEvent::TimeToPreloadNextTrack),
        Some(Effect::PreloadNextTrack)
    );
    assert_eq!(relay_event(&PlayerEvent::Other), None);
}

#[test]
fn error_messages_match_their_kind() {
    assert_eq!(SpotifyError::LoginFailed.message(), "Login failed!");
    assert_eq!(SpotifyError::LoggedOut.message(), "You are logged out!");
    assert_eq!(SpotifyError::PlayerNotReady.message(), "Player is not responding.");
    assert_eq!(
        SpotifyError::TechnicalError.message(),
        "A technical error occured. Check your connectivity."
    );
}
