//! The session/player command actor: a single-consumer state machine that
//! owns the streaming session, the token lifecycle and the audio player,
//! and serializes every playback and authentication operation.
//!
//! The actor never performs I/O itself. [`SpotifyPlayer::handle`] takes one
//! command and returns a [`Step`]: side effects the driver must perform,
//! and either the command's result or one outside request. While a request
//! is outstanding the actor is suspended — the driver performs it and hands
//! the outcome to [`SpotifyPlayer::resume`] — so commands never interleave.

use vstd::prelude::*;

use crate::credentials::{spec_token_expired, Credentials, CredentialsView};
use crate::oauth::{AuthChallenge, SpotOauthClient, TokenPayload};
use crate::token_store::TokenStore;

verus! {

/// Recoverable failures of command handling, reported to the delegate.
#[derive(Debug, Clone, Copy, PartialEq, Eq, Structural)]
pub enum SpotifyError {
    /// Authentication or reconnection failed.
    LoginFailed,
    /// No stored token exists; the user must log in.
    LoggedOut,
    /// The command needs a session or player that does not exist yet.
    PlayerNotReady,
    /// A transient failure, retryable only across connection ports.
    TechnicalError,
}

/// The message shown for each failure.
pub open spec fn spec_error_message(e: SpotifyError) -> Seq<char> {
    match e {
        SpotifyError::LoginFailed => "Login failed!"@,
        SpotifyError::LoggedOut => "You are logged out!"@,
        SpotifyError::PlayerNotReady => "Player is not responding."@,
        SpotifyError::TechnicalError => "A technical error occured. Check your connectivity."@,
    }
}

impl SpotifyError {
    /// The message shown for this failure.
    pub fn message(&self) -> (r: String)
        ensures
            r@ == spec_error_message(*self),
    {
        match self {
            SpotifyError::LoginFailed => "Login failed!".to_owned(),
            SpotifyError::LoggedOut => "You are logged out!".to_owned(),
            SpotifyError::PlayerNotReady => "Player is not responding.".to_owned(),
            SpotifyError::TechnicalError => "A technical error occured. Check your connectivity.".to_owned(),
        }
    }
}

/// Audio quality requested from the streaming library.
#[derive(Debug, Clone, Copy, PartialEq, Eq, Structural)]
pub enum Bitrate {
    Bitrate96,
    Bitrate160,
    Bitrate320,
}

/// Which audio output the player is built on: a pipeline-configured
/// backend, the default system backend, or a named device.
#[derive(Debug, PartialEq, Eq)]
pub enum AudioBackend {
    GStreamer(String),
    PulseAudio,
    Alsa(String),
}

impl Clone for AudioBackend {
    fn clone(&self) -> (r: Self)
        ensures
            r == *self,
    {
        match self {
            AudioBackend::GStreamer(p) => AudioBackend::GStreamer(p.clone()),
            AudioBackend::PulseAudio => AudioBackend::PulseAudio,
            AudioBackend::Alsa(d) => AudioBackend::Alsa(d.clone()),
        }
    }
}

/// Immutable snapshot of the player's configuration, replaced wholesale on
/// settings reload.
#[derive(Debug, PartialEq, Eq)]
pub struct SpotifyPlayerSettings {
    pub bitrate: Bitrate,
    pub backend: AudioBackend,
    pub gapless: bool,
    pub ap_port: Option<u16>,
}

impl Clone for SpotifyPlayerSettings {
    fn clone(&self) -> (r: Self)
        ensures
            r == *self,
    {
        SpotifyPlayerSettings {
            bitrate: self.bitrate,
            backend: self.backend.clone(),
            gapless: self.gapless,
            ap_port: self.ap_port,
        }
    }
}

impl Default for SpotifyPlayerSettings {
    /// 160 kbit/s, gapless, the default system backend, no fixed port.
    fn default() -> (r: Self)
        ensures
            r == (SpotifyPlayerSettings {
                bitrate: Bitrate::Bitrate160,
                backend: AudioBackend::PulseAudio,
                gapless: true,
                ap_port: None,
            }),
    {
        SpotifyPlayerSettings {
            bitrate: Bitrate::Bitrate160,
            backend: AudioBackend::PulseAudio,
            gapless: true,
            ap_port: None,
        }
    }
}

/// Whether two backends name the same output.
pub open spec fn spec_backend_eq(a: AudioBackend, b: AudioBackend) -> bool {
    match (a, b) {
        (AudioBackend::GStreamer(x), AudioBackend::GStreamer(y)) => x@ == y@,
        (AudioBackend::PulseAudio, AudioBackend::PulseAudio) => true,
        (AudioBackend::Alsa(x), AudioBackend::Alsa(y)) => x@ == y@,
        _ => false,
    }
}

/// Whether two settings snapshots agree in every field.
pub open spec fn spec_settings_eq(a: SpotifyPlayerSettings, b: SpotifyPlayerSettings) -> bool {
    &&& a.bitrate == b.bitrate
    &&& a.gapless == b.gapless
    &&& a.ap_port == b.ap_port
    &&& spec_backend_eq(a.backend, b.backend)
}

/// Whether two settings snapshots agree in every field.
pub fn settings_eq(a: &SpotifyPlayerSettings, b: &SpotifyPlayerSettings) -> (r: bool)
    ensures
        r == spec_settings_eq(*a, *b),
{
    let backends_eq = match (&a.backend, &b.backend) {
        (AudioBackend::GStreamer(x), AudioBackend::GStreamer(y)) => x.eq(y),
        (AudioBackend::PulseAudio, AudioBackend::PulseAudio) => true,
        (AudioBackend::Alsa(x), AudioBackend::Alsa(y)) => x.eq(y),
        _ => false,
    };
    let bitrate_eq = match (a.bitrate, b.bitrate) {
        (Bitrate::Bitrate96, Bitrate::Bitrate96) => true,
        (Bitrate::Bitrate160, Bitrate::Bitrate160) => true,
        (Bitrate::Bitrate320, Bitrate::Bitrate320) => true,
        _ => false,
    };
    let port_eq = match (a.ap_port, b.ap_port) {
        (Some(x), Some(y)) => x == y,
        (None, None) => true,
        _ => false,
    };
    backends_eq && bitrate_eq && port_eq && a.gapless == b.gapless
}

/// Identifier of one track in the catalog.
#[derive(Debug, Clone, Copy, PartialEq, Eq, Structural)]
pub struct SpotifyId {
    pub id: u128,
}

/// A volume level as a fraction of full volume, in basis points:
/// 0 is silence, 10000 is full volume.
#[derive(Debug, Clone, Copy, PartialEq, Eq, Structural)]
pub struct VolumeLevel {
    pub basis_points: u16,
}

/// The largest volume value the device mixer accepts.
pub const MAX_VOLUME: u16 = 65535;

/// The device volume for a requested level: the level — clamped to full
/// volume — scaled linearly onto `0..=MAX_VOLUME`, rounded down. Half of
/// full volume maps to exactly `MAX_VOLUME / 2`.
pub open spec fn spec_scale_volume(level: VolumeLevel) -> u16 {
    let bp = if level.basis_points > 10000 {
        10000
    } else {
        level.basis_points
    };
    ((MAX_VOLUME as int) * (bp as int) / 10000) as u16
}

/// The device volume for a requested level.
pub fn scale_volume(level: VolumeLevel) -> (r: u16)
    ensures
        r == spec_scale_volume(level),
{
    let bp: u32 = if level.basis_points > 10000 {
        10000
    } else {
        level.basis_points as u32
    };
    let scaled: u32 = (MAX_VOLUME as u32) * bp / 10000;
    proof {
        assert((MAX_VOLUME as int) * (bp as int) / 10000 <= MAX_VOLUME as int)
            by (nonlinear_arith)
            requires
                bp <= 10000,
        ;
    }
    scaled as u16
}

/// The operations the actor accepts, one at a time.
#[derive(Debug)]
pub enum Command {
    /// Start a login challenge, or repeat the pending one.
    InitLogin,
    /// Finish the pending challenge with the listener's callback.
    CompleteLogin,
    /// Log in again from the stored token, refreshing it if needed.
    Restore,
    /// Refresh the token and reconnect the live session with it.
    RefreshToken,
    /// Shut the session down and drop the player.
    Logout,
    /// Load a track, optionally resuming playback.
    PlayerLoad { track: SpotifyId, resume: bool },
    /// Preload a track for a gapless transition.
    PlayerPreload(SpotifyId),
    PlayerResume,
    PlayerPause,
    PlayerStop,
    /// Seek to a position in milliseconds.
    PlayerSeek(u32),
    /// Scale a fraction of full volume onto the device range and apply it.
    PlayerSetVolume(VolumeLevel),
    /// Replace the settings and rebuild the player against the session.
    ReloadSettings(SpotifyPlayerSettings),
}

/// What a PKCE challenge needs from outside: a fresh CSRF token, a fresh
/// verifier, and the verifier's S256 challenge, with the one-shot callback
/// listener already bound.
#[derive(Debug)]
pub struct ChallengeSeed {
    pub csrf_token: String,
    pub pkce_verifier: String,
    pub pkce_challenge: String,
}

/// How one session-connection attempt ended.
#[derive(Debug)]
pub enum ConnectOutcome {
    /// Connected; the authenticated account's username.
    Connected(String),
    /// A transient transport failure; another port may work.
    TechnicalFailure,
    /// The server refused the credentials; no other port is tried.
    AuthFailure,
}

/// Outside work the actor asks its driver to perform while it suspends.
#[derive(Debug, PartialEq, Eq)]
pub enum IoRequest {
    /// Read the credential record from the secret store.
    RetrieveStored,
    /// Exchange this refresh token at the token endpoint.
    RefreshAccessToken { refresh_token: String },
    /// Generate a PKCE/CSRF challenge and bind the callback listener.
    StartChallenge,
    /// Wait for the listener's callback and hand back its request line.
    ReadCallback,
    /// Exchange this authorization code, proving it with the verifier.
    ExchangeAuthCode { code: String, pkce_verifier: String },
    /// Connect a new session on this port with this access token.
    ConnectSession { access_token: String, ap_port: Option<u16> },
    /// Reconnect the live session with this access token.
    ReconnectSession { access_token: String },
}

/// The driver's answer to the matching [`IoRequest`].
#[derive(Debug)]
pub enum IoResponse {
    /// What the secret store held, `None` on any failure.
    Stored(Option<Credentials>),
    /// The token endpoint's answer to a refresh exchange.
    RefreshResult(Result<TokenPayload, String>),
    /// The challenge seed, or `None` when the listener could not bind.
    ChallengeReady(Option<ChallengeSeed>),
    /// The callback's request line, or `None` when the listener failed.
    CallbackLine(Option<String>),
    /// The token endpoint's answer to a code exchange.
    ExchangeResult(Result<TokenPayload, String>),
    /// How the connection attempt ended.
    ConnectResult(ConnectOutcome),
}

/// Side effects the driver performs after a step: player operations,
/// persistence, task management, and delegate notifications.
#[derive(Debug, PartialEq, Eq)]
pub enum Effect {
    PlayerPlay,
    PlayerPauseOutput,
    PlayerStopOutput,
    PlayerSeekTo(u32),
    PlayerLoadTrack { track: SpotifyId, resume: bool },
    PlayerPreloadTrack(SpotifyId),
    /// Apply this device volume to the mixer.
    SetDeviceVolume(u16),
    /// Create the mixer, at this initial device volume.
    CreateMixer { initial_volume: u16 },
    /// Build a player against the live session with these settings,
    /// subscribe to its event stream, and discard the previous player.
    CreatePlayer { settings: SpotifyPlayerSettings, player_generation: u64 },
    /// Drop the player without a replacement.
    DropPlayer,
    /// Shut the live session down.
    ShutdownSession,
    /// Arm the refresh-at-expiry task for this session generation: after
    /// `refresh_in` seconds it enqueues a token refresh. The task ends
    /// when the generation goes stale, and is re-armed on each successful
    /// refresh.
    SpawnRefreshLoop { session_generation: u64, refresh_in: u64 },
    /// Persist this record to the secret store, best-effort.
    PersistCredentials(Credentials),
    /// Delete the stored record, best-effort.
    ClearStoredCredentials,
    /// Delegate: a login challenge is ready at this URL.
    LoginChallengeStarted(String),
    /// Delegate: login finished for this username.
    TokenLoginSuccessful(String),
    /// Delegate: the token was refreshed and the session reconnected.
    RefreshSuccessful,
    /// Delegate: a command failed with this error.
    ReportError(SpotifyError),
    /// Delegate: the current track ended.
    EndOfTrackReached,
    /// Delegate: playback ticked to this position in milliseconds.
    NotifyPlaybackState(u32),
    /// Delegate: the next track should be preloaded now.
    PreloadNextTrack,
}

/// An asynchronous event from the player's event stream.
#[derive(Debug)]
pub enum PlayerEvent {
    EndOfTrack,
    Playing { position_ms: u32 },
    TimeToPreloadNextTrack,
    /// Any other event kind; ignored.
    Other,
}

/// Map one player event to the delegate call it stands for: end-of-track,
/// position tick and preload-due are relayed, everything else is ignored.
pub fn relay_event(event: &PlayerEvent) -> (r: Option<Effect>)
    ensures
        match *event {
            PlayerEvent::EndOfTrack => r == Some(Effect::EndOfTrackReached),
            PlayerEvent::Playing { position_ms } => r == Some(
                Effect::NotifyPlaybackState(position_ms),
            ),
            PlayerEvent::TimeToPreloadNextTrack => r == Some(Effect::PreloadNextTrack),
            PlayerEvent::Other => r is None,
        },
{
    match event {
        PlayerEvent::EndOfTrack => Some(Effect::EndOfTrackReached),
        PlayerEvent::Playing { position_ms } => Some(Effect::NotifyPlaybackState(*position_ms)),
        PlayerEvent::TimeToPreloadNextTrack => Some(Effect::PreloadNextTrack),
        PlayerEvent::Other => None,
    }
}

/// The live session: the authenticated username and the generation that
/// background tasks are tied to.
#[derive(Debug)]
pub struct SessionHandle {
    pub username: String,
    pub generation: u64,
}

/// The live player, paired with the session it was built against.
#[derive(Debug, Clone, Copy, PartialEq, Eq, Structural)]
pub struct PlayerHandle {
    pub generation: u64,
}

/// The mixer and the device volume last applied to it.
#[derive(Debug, Clone, Copy, PartialEq, Eq, Structural)]
pub struct Mixer {
    pub volume: u16,
}

/// Which command started a token lookup, deciding where its result goes
/// and how its failures read.
#[derive(Debug, Clone, Copy, PartialEq, Eq, Structural)]
pub enum TokenPurpose {
    /// `Restore`: log in from the stored token.
    Restore,
    /// `RefreshToken`: reconnect the live session with a fresh token.
    Reconnect,
}

/// The in-flight command's continuation while the driver performs one
/// outside request.
#[derive(Debug)]
pub enum Pending {
    /// Waiting for the secret store read.
    AwaitStored { purpose: TokenPurpose },
    /// Waiting for the refresh exchange of `old_token`.
    AwaitRefresh { old_token: Credentials, purpose: TokenPurpose },
    /// Waiting for the live session to reconnect.
    AwaitReconnect,
    /// Waiting for the challenge seed and listener.
    AwaitChallenge,
    /// Waiting for the callback of this challenge.
    AwaitCallback { challenge: AuthChallenge },
    /// Waiting for the authorization-code exchange.
    AwaitExchange,
    /// Waiting for a connection attempt; the ports not yet tried follow.
    AwaitConnect { credentials: Credentials, remaining_ports: Vec<Option<u16>> },
}

/// The connection ports to try, in order: the configured port alone when
/// one is set, else the default port, 80, 443 and 4070.
pub open spec fn spec_ports(ap_port: Option<u16>) -> Seq<Option<u16>> {
    match ap_port {
        Some(p) => seq![Some(p)],
        None => seq![None, Some(80u16), Some(443u16), Some(4070u16)],
    }
}

/// The next generation counter; a counter this large never moves again.
pub open spec fn spec_next_gen(g: u64) -> u64 {
    if g < u64::MAX {
        (g + 1) as u64
    } else {
        g
    }
}

/// One step of the actor: effects to perform now, and either the finished
/// command's result or the request the actor suspends on.
#[derive(Debug)]
pub struct Step {
    pub effects: Vec<Effect>,
    pub next: StepNext,
}

/// How a step ends.
#[derive(Debug, PartialEq, Eq)]
pub enum StepNext {
    /// Perform this request and hand the outcome to `resume`.
    Io(IoRequest),
    /// The command finished with this result.
    Done(Result<(), SpotifyError>),
}

/// Whether `response` answers the request the actor suspended on.
pub open spec fn spec_expects(pending: Option<Pending>, response: IoResponse) -> bool {
    match (pending, response) {
        (Some(Pending::AwaitStored { .. }), IoResponse::Stored(_)) => true,
        (Some(Pending::AwaitRefresh { .. }), IoResponse::RefreshResult(_)) => true,
        (Some(Pending::AwaitReconnect), IoResponse::ConnectResult(_)) => true,
        (Some(Pending::AwaitChallenge), IoResponse::ChallengeReady(_)) => true,
        (Some(Pending::AwaitCallback { .. }), IoResponse::CallbackLine(_)) => true,
        (Some(Pending::AwaitExchange), IoResponse::ExchangeResult(_)) => true,
        (Some(Pending::AwaitConnect { .. }), IoResponse::ConnectResult(_)) => true,
        _ => false,
    }
}

/// The command actor. At most one session, one player and one pending
/// challenge are live at a time; the player is always paired with the
/// session it was built against.
pub struct SpotifyPlayer {
    pub settings: SpotifyPlayerSettings,
    pub player: Option<PlayerHandle>,
    pub mixer: Option<Mixer>,
    pub session: Option<SessionHandle>,
    pub oauth_client: SpotOauthClient,
    pub auth_challenge: Option<AuthChallenge>,
    pub pending: Option<Pending>,
    pub session_generation: u64,
    pub player_generation: u64,
}

impl SpotifyPlayer {
    /// A player exists only while a session exists.
    pub open spec fn wf(&self) -> bool {
        self.player is Some ==> self.session is Some
    }

    /// What no step changes: configuration is fixed, and the session,
    /// player, mixer and generations stay as they were.
    pub open spec fn spec_frame_core(pre: SpotifyPlayer, post: SpotifyPlayer) -> bool {
        &&& post.settings == pre.settings
        &&& post.player == pre.player
        &&& post.mixer == pre.mixer
        &&& post.session == pre.session
        &&& post.session_generation == pre.session_generation
        &&& post.player_generation == pre.player_generation
        &&& post.oauth_client.spec_config() == pre.oauth_client.spec_config()
    }

    /// The frame plus an unchanged challenge.
    pub open spec fn spec_frame(pre: SpotifyPlayer, post: SpotifyPlayer) -> bool {
        &&& Self::spec_frame_core(pre, post)
        &&& post.auth_challenge == pre.auth_challenge
    }

    /// An unchanged token cache.
    pub open spec fn spec_store_kept(pre: SpotifyPlayer, post: SpotifyPlayer) -> bool {
        post.oauth_client.token_store@ == pre.oauth_client.token_store@
    }

    /// A command that failed without touching anything: the error is
    /// reported to the delegate and the actor is ready for the next
    /// command.
    pub open spec fn spec_failed(
        pre: SpotifyPlayer,
        post: SpotifyPlayer,
        r: Step,
        e: SpotifyError,
    ) -> bool {
        &&& Self::spec_frame(pre, post)
        &&& Self::spec_store_kept(pre, post)
        &&& post.pending is None
        &&& r.next == StepNext::Done(Err::<(), SpotifyError>(e))
        &&& r.effects@ == seq![Effect::ReportError(e)]
    }

    /// A transport command: with a player, the operation is handed to the
    /// driver and the command succeeds; without one it fails with
    /// [`SpotifyError::PlayerNotReady`], and nothing changes.
    pub open spec fn spec_transport_post(
        pre: SpotifyPlayer,
        post: SpotifyPlayer,
        r: Step,
        eff: Effect,
    ) -> bool {
        if pre.player is Some {
            &&& post == pre
            &&& r.next == StepNext::Done(Ok::<(), SpotifyError>(()))
            &&& r.effects@ == seq![eff]
        } else {
            &&& Self::spec_failed(pre, post, r, SpotifyError::PlayerNotReady)
            &&& post == pre
        }
    }

    /// Where a resolved token goes: for `RefreshToken` the live session is
    /// reconnected with it; for `Restore` the port probe starts.
    pub open spec fn spec_with_token_io(
        post: SpotifyPlayer,
        next: StepNext,
        purpose: TokenPurpose,
        t: crate::credentials::CredentialsView,
    ) -> bool {
        match purpose {
            TokenPurpose::Reconnect => {
                &&& post.pending == Some(Pending::AwaitReconnect)
                &&& (next matches StepNext::Io(IoRequest::ReconnectSession { access_token })
                    && access_token@ == t.access_token)
            },
            TokenPurpose::Restore => Self::spec_probe_pending_io(post, next, t),
        }
    }

    /// The port probe is armed: the first untried port is being connected,
    /// and the rest wait in order.
    pub open spec fn spec_probe_pending_io(
        post: SpotifyPlayer,
        next: StepNext,
        t: crate::credentials::CredentialsView,
    ) -> bool {
        let ports = spec_ports(post.settings.ap_port);
        &&& (post.pending matches Some(Pending::AwaitConnect { credentials, remaining_ports })
            && credentials@ == t && remaining_ports@ == ports.skip(1))
        &&& (next matches StepNext::Io(IoRequest::ConnectSession { access_token, ap_port })
            && access_token@ == t.access_token && ap_port == ports[0])
    }

    /// A resolved, unexpired token continues at once; an expired one asks
    /// for exactly one refresh attempt. A token whose expiry is strictly
    /// in the future is never refreshed.
    pub open spec fn spec_token_resolved(
        pre: SpotifyPlayer,
        post: SpotifyPlayer,
        r: Step,
        now: u64,
        purpose: TokenPurpose,
        t: crate::credentials::CredentialsView,
    ) -> bool {
        &&& Self::spec_frame(pre, post)
        &&& post.oauth_client.token_store@ == Some(t)
        &&& if spec_token_expired(t, now) {
            &&& (post.pending matches Some(Pending::AwaitRefresh { old_token, purpose: p })
                && old_token@ == t && p == purpose)
            &&& (r.next matches StepNext::Io(IoRequest::RefreshAccessToken { refresh_token })
                && refresh_token@ == t.refresh_token)
            &&& r.effects@ == Seq::<Effect>::empty()
        } else {
            &&& Self::spec_with_token_io(post, r.next, purpose, t)
            &&& r.effects@ == Seq::<Effect>::empty()
        }
    }

    /// The error a failed token lookup reads as: `Restore` reports a
    /// logout, `RefreshToken` a failed login.
    pub open spec fn spec_lookup_failure(purpose: TokenPurpose) -> SpotifyError {
        match purpose {
            TokenPurpose::Restore => SpotifyError::LoggedOut,
            TokenPurpose::Reconnect => SpotifyError::LoginFailed,
        }
    }

    /// The token cache and secret store resolved to a record — or to
    /// nothing, which ends the command with the purpose's failure.
    pub open spec fn spec_resolve_post(
        pre: SpotifyPlayer,
        post: SpotifyPlayer,
        r: Step,
        retrieved: Option<Credentials>,
        now: u64,
        purpose: TokenPurpose,
    ) -> bool {
        match crate::oauth::spec_resolved(pre.oauth_client.token_store@, retrieved) {
            None => Self::spec_failed(pre, post, r, Self::spec_lookup_failure(purpose)),
            Some(t) => Self::spec_token_resolved(pre, post, r, now, purpose, t),
        }
    }

    /// Starting a token flow from a command: with a cached record the
    /// decision is made at once; otherwise the secret store is read first.
    pub open spec fn spec_token_start(
        pre: SpotifyPlayer,
        post: SpotifyPlayer,
        r: Step,
        now: u64,
        purpose: TokenPurpose,
    ) -> bool {
        match pre.oauth_client.token_store@ {
            None => {
                &&& Self::spec_frame(pre, post)
                &&& Self::spec_store_kept(pre, post)
                &&& post.pending == Some(Pending::AwaitStored { purpose })
                &&& r.next == StepNext::Io(IoRequest::RetrieveStored)
                &&& r.effects@ == Seq::<Effect>::empty()
            },
            Some(t) => Self::spec_token_resolved(pre, post, r, now, purpose, t),
        }
    }

    /// What rebuilding the player hands the driver: the mixer is created
    /// first if none exists, then the player is built with these settings.
    pub open spec fn spec_create_player_effects(
        pre_mixer: Option<Mixer>,
        settings: SpotifyPlayerSettings,
        gen: u64,
        effs: Seq<Effect>,
    ) -> bool {
        if pre_mixer is None {
            effs == seq![
                Effect::CreateMixer { initial_volume: MAX_VOLUME },
                Effect::CreatePlayer { settings, player_generation: gen },
            ]
        } else {
            effs == seq![Effect::CreatePlayer { settings, player_generation: gen }]
        }
    }

    /// What one command does, for every state the actor can be in.
    pub open spec fn spec_handle_post(
        pre: SpotifyPlayer,
        post: SpotifyPlayer,
        cmd: Command,
        now: u64,
        r: Step,
    ) -> bool {
        match cmd {
            Command::PlayerResume => Self::spec_transport_post(pre, post, r, Effect::PlayerPlay),
            Command::PlayerPause => Self::spec_transport_post(
                pre,
                post,
                r,
                Effect::PlayerPauseOutput,
            ),
            Command::PlayerStop => Self::spec_transport_post(pre, post, r, Effect::PlayerStopOutput),
            Command::PlayerSeek(pos) => Self::spec_transport_post(
                pre,
                post,
                r,
                Effect::PlayerSeekTo(pos),
            ),
            Command::PlayerLoad { track, resume } => Self::spec_transport_post(
                pre,
                post,
                r,
                Effect::PlayerLoadTrack { track, resume },
            ),
            Command::PlayerPreload(track) => Self::spec_transport_post(
                pre,
                post,
                r,
                Effect::PlayerPreloadTrack(track),
            ),
            Command::PlayerSetVolume(level) => {
                let v = spec_scale_volume(level);
                &&& post == (SpotifyPlayer { mixer: Some(Mixer { volume: v }), ..pre })
                &&& r.next == StepNext::Done(Ok::<(), SpotifyError>(()))
                &&& r.effects@ == (if pre.mixer is None {
                    seq![
                        Effect::CreateMixer { initial_volume: MAX_VOLUME },
                        Effect::SetDeviceVolume(v),
                    ]
                } else {
                    seq![Effect::SetDeviceVolume(v)]
                })
            },
            Command::Logout => {
                if pre.session is None {
                    &&& Self::spec_failed(pre, post, r, SpotifyError::PlayerNotReady)
                    &&& post == pre
                } else {
                    &&& post == (SpotifyPlayer { session: None, player: None, ..pre })
                    &&& r.next == StepNext::Done(Ok::<(), SpotifyError>(()))
                    &&& r.effects@ == seq![Effect::ShutdownSession, Effect::DropPlayer]
                }
            },
            Command::InitLogin => {
                match pre.auth_challenge {
                    Some(ch) => {
                        // At most one challenge is live: the pending one is
                        // repeated, no second listener starts, and nothing
                        // changes.
                        &&& post == pre
                        &&& r.next == StepNext::Done(Ok::<(), SpotifyError>(()))
                        &&& (r.effects@.len() == 1 && (r.effects@[0] matches
                            Effect::LoginChallengeStarted(url) && url@ == ch.auth_url@))
                    },
                    None => {
                        &&& post == (SpotifyPlayer { pending: Some(Pending::AwaitChallenge), ..pre })
                        &&& r.next == StepNext::Io(IoRequest::StartChallenge)
                        &&& r.effects@ == Seq::<Effect>::empty()
                    },
                }
            },
            Command::CompleteLogin => {
                match pre.auth_challenge {
                    None => {
                        &&& Self::spec_failed(pre, post, r, SpotifyError::LoginFailed)
                        &&& post == pre
                    },
                    Some(ch) => {
                        // The pending challenge is consumed whatever follows.
                        &&& post == (SpotifyPlayer {
                            auth_challenge: None,
                            pending: Some(Pending::AwaitCallback { challenge: ch }),
                            ..pre
                        })
                        &&& r.next == StepNext::Io(IoRequest::ReadCallback)
                        &&& r.effects@ == Seq::<Effect>::empty()
                    },
                }
            },
            Command::Restore => Self::spec_token_start(pre, post, r, now, TokenPurpose::Restore),
            Command::RefreshToken => {
                if pre.session is None {
                    &&& Self::spec_failed(pre, post, r, SpotifyError::PlayerNotReady)
                    &&& post == pre
                } else {
                    Self::spec_token_start(pre, post, r, now, TokenPurpose::Reconnect)
                }
            },
            Command::ReloadSettings(new_settings) => {
                if pre.session is None {
                    &&& post == (SpotifyPlayer { settings: new_settings, ..pre })
                    &&& r.next == StepNext::Done(Err::<(), SpotifyError>(
                        SpotifyError::PlayerNotReady,
                    ))
                    &&& r.effects@ == seq![Effect::ReportError(SpotifyError::PlayerNotReady)]
                } else {
                    &&& post.player_generation == spec_next_gen(pre.player_generation)
                    &&& post == (SpotifyPlayer {
                        settings: new_settings,
                        player: Some(PlayerHandle { generation: post.player_generation }),
                        mixer: post.mixer,
                        player_generation: post.player_generation,
                        ..pre
                    })
                    &&& post.mixer == (if pre.mixer is Some {
                        pre.mixer
                    } else {
                        Some(Mixer { volume: MAX_VOLUME })
                    })
                    &&& Self::spec_create_player_effects(
                        pre.mixer,
                        new_settings,
                        post.player_generation,
                        r.effects@,
                    )
                    &&& r.next == StepNext::Done(Ok::<(), SpotifyError>(()))
                }
            },
        }
    }

    /// An idle actor with no session, player, mixer or challenge, reading
    /// tokens through the given cache.
    pub fn new(settings: SpotifyPlayerSettings, token_store: TokenStore) -> (r: Self)
        ensures
            r.wf(),
            r.settings == settings,
            r.player is None,
            r.mixer is None,
            r.session is None,
            r.auth_challenge is None,
            r.pending is None,
            r.oauth_client.token_store@ == token_store@,
            r.session_generation == 0,
            r.player_generation == 0,
    {
        SpotifyPlayer {
            settings,
            player: None,
            mixer: None,
            session: None,
            oauth_client: SpotOauthClient::new(token_store),
            auth_challenge: None,
            pending: None,
            session_generation: 0,
            player_generation: 0,
        }
    }

    /// A transport operation: handed to the driver when a player exists,
    /// refused with [`SpotifyError::PlayerNotReady`] otherwise.
    fn transport(&mut self, eff: Effect) -> (r: Step)
        requires
            old(self).pending is None,
        ensures
            *final(self) == *old(self),
            Self::spec_transport_post(*old(self), *final(self), r, eff),
    {
        if self.player.is_some() {
            let mut effects: Vec<Effect> = Vec::new();
            effects.push(eff);
            proof {
                assert(effects@ =~= seq![eff]);
            }
            Step { effects, next: StepNext::Done(Ok(())) }
        } else {
            fail_step(SpotifyError::PlayerNotReady)
        }
    }

    /// Resolve the current token — the cache, populated from `retrieved`
    /// when empty — and either finish with the purpose's failure, suspend
    /// on a refresh, or continue with the valid token.
    fn resolve_token(&mut self, retrieved: Option<Credentials>, now: u64, purpose: TokenPurpose) -> (r:
        Step)
        requires
            old(self).wf(),
        ensures
            final(self).wf(),
            Self::spec_resolve_post(*old(self), *final(self), r, retrieved, now, purpose),
    {
        match self.oauth_client.get_valid_token(retrieved, now) {
            Err(_) => {
                self.pending = None;
                fail_step(match purpose {
                    TokenPurpose::Restore => SpotifyError::LoggedOut,
                    TokenPurpose::Reconnect => SpotifyError::LoginFailed,
                })
            },
            Ok(crate::oauth::TokenDecision::Refresh(token)) => {
                let refresh_token = token.refresh_token.clone();
                self.pending = Some(Pending::AwaitRefresh { old_token: token, purpose });
                io_step(IoRequest::RefreshAccessToken { refresh_token })
            },
            Ok(crate::oauth::TokenDecision::Use(token)) => self.continue_with_token(
                token,
                purpose,
            ),
        }
    }

    /// Send a valid token where its purpose points: reconnect the live
    /// session, or start the port probe for a fresh login.
    fn continue_with_token(&mut self, token: Credentials, purpose: TokenPurpose) -> (r: Step)
        requires
            old(self).wf(),
        ensures
            final(self).wf(),
            Self::spec_frame(*old(self), *final(self)),
            Self::spec_store_kept(*old(self), *final(self)),
            Self::spec_with_token_io(*final(self), r.next, purpose, token@),
            r.effects@ == Seq::<Effect>::empty(),
    {
        match purpose {
            TokenPurpose::Reconnect => {
                let access_token = token.access_token.clone();
                self.pending = Some(Pending::AwaitReconnect);
                io_step(IoRequest::ReconnectSession { access_token })
            },
            TokenPurpose::Restore => self.start_probe(token),
        }
    }

    /// Arm the port probe: connect on the first port, keeping the rest for
    /// retries on transient failures.
    fn start_probe(&mut self, token: Credentials) -> (r: Step)
        requires
            old(self).wf(),
        ensures
            final(self).wf(),
            Self::spec_frame(*old(self), *final(self)),
            Self::spec_store_kept(*old(self), *final(self)),
            Self::spec_probe_pending_io(*final(self), r.next, token@),
            r.effects@ == Seq::<Effect>::empty(),
    {
        let mut ports: Vec<Option<u16>> = Vec::new();
        match self.settings.ap_port {
            Some(p) => {
                ports.push(Some(p));
            },
            None => {
                ports.push(None);
                ports.push(Some(80));
                ports.push(Some(443));
                ports.push(Some(4070));
            },
        }
        proof {
            assert(ports@ =~= spec_ports(self.settings.ap_port));
        }
        let first = ports.remove(0);
        let access_token = token.access_token.clone();
        self.pending = Some(Pending::AwaitConnect { credentials: token, remaining_ports: ports });
        io_step(IoRequest::ConnectSession { access_token, ap_port: first })
    }

    /// Create or reuse the mixer — created at full volume — and build a
    /// fresh player against the live session, bumping its generation.
    fn create_player(&mut self) -> (r: Vec<Effect>)
        requires
            old(self).wf(),
            old(self).session is Some,
        ensures
            final(self).wf(),
            final(self).player_generation == spec_next_gen(old(self).player_generation),
            final(self).player == Some(PlayerHandle { generation: final(self).player_generation }),
            final(self).mixer == (if old(self).mixer is Some {
                old(self).mixer
            } else {
                Some(Mixer { volume: MAX_VOLUME })
            }),
            final(self).settings == old(self).settings,
            final(self).session == old(self).session,
            final(self).auth_challenge == old(self).auth_challenge,
            final(self).pending == old(self).pending,
            final(self).session_generation == old(self).session_generation,
            final(self).oauth_client == old(self).oauth_client,
            Self::spec_create_player_effects(
                old(self).mixer,
                old(self).settings,
                final(self).player_generation,
                r@,
            ),
    {
        let mut effects: Vec<Effect> = Vec::new();
        if self.mixer.is_none() {
            self.mixer = Some(Mixer { volume: MAX_VOLUME });
            effects.push(Effect::CreateMixer { initial_volume: MAX_VOLUME });
        }
        let gen = next_gen(self.player_generation);
        self.player_generation = gen;
        self.player = Some(PlayerHandle { generation: gen });
        effects.push(Effect::CreatePlayer { settings: self.settings.clone(), player_generation: gen });
        proof {
            if old(self).mixer is None {
                assert(effects@ =~= seq![
                    Effect::CreateMixer { initial_volume: MAX_VOLUME },
                    Effect::CreatePlayer {
                        settings: old(self).settings,
                        player_generation: gen,
                    },
                ]);
            } else {
                assert(effects@ =~= seq![
                    Effect::CreatePlayer {
                        settings: old(self).settings,
                        player_generation: gen,
                    },
                ]);
            }
        }
        effects
    }

    /// Process one command to completion or to its first outside request.
    /// The actor must be idle: while a request is outstanding, commands
    /// wait in the queue.
    pub fn handle(&mut self, cmd: Command, now: u64) -> (r: Step)
        requires
            old(self).wf(),
            old(self).pending is None,
        ensures
            final(self).wf(),
            Self::spec_handle_post(*old(self), *final(self), cmd, now, r),
    {
        match cmd {
            Command::PlayerResume => self.transport(Effect::PlayerPlay),
            Command::PlayerPause => self.transport(Effect::PlayerPauseOutput),
            Command::PlayerStop => self.transport(Effect::PlayerStopOutput),
            Command::PlayerSeek(pos) => self.transport(Effect::PlayerSeekTo(pos)),
            Command::PlayerLoad { track, resume } => self.transport(
                Effect::PlayerLoadTrack { track, resume },
            ),
            Command::PlayerPreload(track) => self.transport(Effect::PlayerPreloadTrack(track)),
            Command::PlayerSetVolume(level) => {
                let v = scale_volume(level);
                let mut effects: Vec<Effect> = Vec::new();
                if self.mixer.is_none() {
                    effects.push(Effect::CreateMixer { initial_volume: MAX_VOLUME });
                }
                self.mixer = Some(Mixer { volume: v });
                effects.push(Effect::SetDeviceVolume(v));
                proof {
                    if old(self).mixer is None {
                        assert(effects@ =~= seq![
                            Effect::CreateMixer { initial_volume: MAX_VOLUME },
                            Effect::SetDeviceVolume(v),
                        ]);
                    } else {
                        assert(effects@ =~= seq![Effect::SetDeviceVolume(v)]);
                    }
                }
                Step { effects, next: StepNext::Done(Ok(())) }
            },
            Command::Logout => {
                if self.session.is_none() {
                    fail_step(SpotifyError::PlayerNotReady)
                } else {
                    self.session = None;
                    self.player = None;
                    let mut effects: Vec<Effect> = Vec::new();
                    effects.push(Effect::ShutdownSession);
                    effects.push(Effect::DropPlayer);
                    proof {
                        assert(effects@ =~= seq![Effect::ShutdownSession, Effect::DropPlayer]);
                    }
                    Step { effects, next: StepNext::Done(Ok(())) }
                }
            },
            Command::InitLogin => {
                match &self.auth_challenge {
                    Some(ch) => {
                        let url = ch.auth_url.clone();
                        let mut effects: Vec<Effect> = Vec::new();
                        effects.push(Effect::LoginChallengeStarted(url));
                        Step { effects, next: StepNext::Done(Ok(())) }
                    },
                    None => {
                        self.pending = Some(Pending::AwaitChallenge);
                        io_step(IoRequest::StartChallenge)
                    },
                }
            },
            Command::CompleteLogin => {
                match self.auth_challenge.take() {
                    None => fail_step(SpotifyError::LoginFailed),
                    Some(ch) => {
                        self.pending = Some(Pending::AwaitCallback { challenge: ch });
                        io_step(IoRequest::ReadCallback)
                    },
                }
            },
            Command::Restore => {
                match self.oauth_client.token_store.get_cached() {
                    None => {
                        self.pending = Some(
                            Pending::AwaitStored { purpose: TokenPurpose::Restore },
                        );
                        io_step(IoRequest::RetrieveStored)
                    },
                    Some(_) => self.resolve_token(None, now, TokenPurpose::Restore),
                }
            },
            Command::RefreshToken => {
                if self.session.is_none() {
                    fail_step(SpotifyError::PlayerNotReady)
                } else {
                    match self.oauth_client.token_store.get_cached() {
                        None => {
                            self.pending = Some(
                                Pending::AwaitStored { purpose: TokenPurpose::Reconnect },
                            );
                            io_step(IoRequest::RetrieveStored)
                        },
                        Some(_) => self.resolve_token(None, now, TokenPurpose::Reconnect),
                    }
                }
            },
            Command::ReloadSettings(new_settings) => {
                self.settings = new_settings;
                if self.session.is_none() {
                    fail_step(SpotifyError::PlayerNotReady)
                } else {
                    let effects = self.create_player();
                    Step { effects, next: StepNext::Done(Ok(())) }
                }
            },
        }
    }
    /// The outcome of the refresh exchange awaited for `old_token`. A hard
    /// failure spends the stored refresh token: the cache and store are
    /// cleared and the command fails. A response without a refresh token
    /// fails without clearing. A full response is persisted and continues
    /// where its purpose points.
    pub open spec fn spec_refresh_post(
        pre: SpotifyPlayer,
        post: SpotifyPlayer,
        r: Step,
        old_token: Credentials,
        outcome: Result<TokenPayload, String>,
        now: u64,
        purpose: TokenPurpose,
    ) -> bool {
        match outcome {
            Err(_) => {
                &&& Self::spec_frame(pre, post)
                &&& post.oauth_client.token_store@ is None
                &&& post.pending is None
                &&& r.next == StepNext::Done(Err::<(), SpotifyError>(SpotifyError::LoginFailed))
                &&& r.effects@ == seq![
                    Effect::ClearStoredCredentials,
                    Effect::ReportError(SpotifyError::LoginFailed),
                ]
            },
            Ok(p) => match p.refresh_token {
                None => Self::spec_failed(pre, post, r, SpotifyError::LoginFailed),
                Some(rt) => {
                    let c = (CredentialsView {
                        username: old_token@.username,
                        access_token: p.access_token@,
                        refresh_token: rt@,
                        token_expiry_time: Some(crate::oauth::spec_new_expiry(now, p.expires_in)),
                    });
                    &&& Self::spec_frame(pre, post)
                    &&& post.oauth_client.token_store@ == Some(c)
                    &&& (r.effects@.len() == 1 && (r.effects@[0] matches
                        Effect::PersistCredentials(cr) && cr@ == c))
                    &&& Self::spec_with_token_io(post, r.next, purpose, c)
                },
            },
        }
    }

    /// The live session reconnected, or failed to: success notifies the
    /// delegate, any failure reads as a failed login.
    pub open spec fn spec_reconnect_post(
        pre: SpotifyPlayer,
        post: SpotifyPlayer,
        r: Step,
        out: ConnectOutcome,
        now: u64,
    ) -> bool {
        match out {
            ConnectOutcome::Connected(_) => {
                &&& Self::spec_frame(pre, post)
                &&& Self::spec_store_kept(pre, post)
                &&& post.pending is None
                &&& r.next == StepNext::Done(Ok::<(), SpotifyError>(()))
                &&& r.effects@ == seq![Effect::RefreshSuccessful] + (match pre.oauth_client.token_store@ {
                    Some(t) => seq![
                        Effect::SpawnRefreshLoop {
                            session_generation: pre.session_generation,
                            refresh_in: crate::oauth::spec_refresh_delay(t.token_expiry_time, now),
                        },
                    ],
                    None => Seq::<Effect>::empty(),
                })
            },
            _ => Self::spec_failed(pre, post, r, SpotifyError::LoginFailed),
        }
    }

    /// The challenge seed arrived, or the listener could not bind. With a
    /// seed, the challenge becomes live — its URL built from the seed —
    /// and the delegate is shown the URL.
    pub open spec fn spec_challenge_post(
        pre: SpotifyPlayer,
        post: SpotifyPlayer,
        r: Step,
        seed: Option<ChallengeSeed>,
    ) -> bool {
        match seed {
            None => Self::spec_failed(pre, post, r, SpotifyError::LoginFailed),
            Some(seed) => {
                let url = crate::oauth::spec_authorize_url(
                    pre.oauth_client,
                    seed.csrf_token@,
                    seed.pkce_challenge@,
                );
                &&& Self::spec_frame_core(pre, post)
                &&& Self::spec_store_kept(pre, post)
                &&& post.pending is None
                &&& (post.auth_challenge matches Some(ch) && ch.auth_url@ == url
                    && ch.pkce_verifier@ == seed.pkce_verifier@ && ch.csrf_token@
                    == seed.csrf_token@)
                &&& r.next == StepNext::Done(Ok::<(), SpotifyError>(()))
                &&& (r.effects@.len() == 1 && (r.effects@[0] matches
                    Effect::LoginChallengeStarted(u) && u@ == url))
            },
        }
    }

    /// The callback arrived, or the listener failed. A parse failure, a
    /// state mismatch or a dead listener read as a failed login; a valid
    /// callback sends its code to the token endpoint.
    pub open spec fn spec_callback_post(
        pre: SpotifyPlayer,
        post: SpotifyPlayer,
        r: Step,
        challenge: AuthChallenge,
        line: Option<String>,
    ) -> bool {
        match line {
            None => Self::spec_failed(pre, post, r, SpotifyError::LoginFailed),
            Some(l) => match crate::oauth::spec_parse_query(l@) {
                Err(_) => Self::spec_failed(pre, post, r, SpotifyError::LoginFailed),
                Ok((st, code)) => if st != challenge.csrf_token@ {
                    Self::spec_failed(pre, post, r, SpotifyError::LoginFailed)
                } else {
                    &&& Self::spec_frame(pre, post)
                    &&& Self::spec_store_kept(pre, post)
                    &&& post.pending == Some(Pending::AwaitExchange)
                    &&& (r.next matches StepNext::Io(IoRequest::ExchangeAuthCode {
                        code: c2,
                        pkce_verifier,
                    }) && c2@ == code && pkce_verifier@ == challenge.pkce_verifier@)
                    &&& r.effects@ == Seq::<Effect>::empty()
                },
            },
        }
    }

    /// The outcome of the authorization-code exchange. A refusal or a
    /// missing refresh token reads as a failed login; a full response is
    /// persisted — username still empty — and the port probe starts.
    pub open spec fn spec_exchange_post(
        pre: SpotifyPlayer,
        post: SpotifyPlayer,
        r: Step,
        outcome: Result<TokenPayload, String>,
        now: u64,
    ) -> bool {
        match outcome {
            Err(_) => Self::spec_failed(pre, post, r, SpotifyError::LoginFailed),
            Ok(p) => match p.refresh_token {
                None => Self::spec_failed(pre, post, r, SpotifyError::LoginFailed),
                Some(rt) => {
                    let c = (CredentialsView {
                        username: Seq::empty(),
                        access_token: p.access_token@,
                        refresh_token: rt@,
                        token_expiry_time: Some(crate::oauth::spec_new_expiry(now, p.expires_in)),
                    });
                    &&& Self::spec_frame(pre, post)
                    &&& post.oauth_client.token_store@ == Some(c)
                    &&& (r.effects@.len() == 1 && (r.effects@[0] matches
                        Effect::PersistCredentials(cr) && cr@ == c))
                    &&& Self::spec_probe_pending_io(post, r.next, c)
                },
            },
        }
    }

    /// What a successful login hands the driver, in order: the mixer if it
    /// had to be created, the new player, the refresh loop for the new
    /// session generation, and the delegate's username notification.
    pub open spec fn spec_login_effects(
        pre_mixer: Option<Mixer>,
        settings: SpotifyPlayerSettings,
        pgen: u64,
        sgen: u64,
        refresh_in: u64,
        username: Seq<char>,
        effs: Seq<Effect>,
    ) -> bool {
        let base: Seq<Effect> = if pre_mixer is None {
            seq![
                Effect::CreateMixer { initial_volume: MAX_VOLUME },
                Effect::CreatePlayer { settings, player_generation: pgen },
            ]
        } else {
            seq![Effect::CreatePlayer { settings, player_generation: pgen }]
        };
        &&& effs.len() == base.len() + 2
        &&& effs.take(base.len() as int) == base
        &&& effs[base.len() as int] == (Effect::SpawnRefreshLoop {
            session_generation: sgen,
            refresh_in,
        })
        &&& (effs.last() matches Effect::TokenLoginSuccessful(u) && u@ == username)
    }

    /// One connection attempt of the port probe ended. Success establishes
    /// the session and player under fresh generations. A transient failure
    /// moves to the next port in order, and only exhausting them fails as
    /// a technical error; any other failure aborts the probe at once as a
    /// failed login.
    pub open spec fn spec_connect_post(
        pre: SpotifyPlayer,
        post: SpotifyPlayer,
        r: Step,
        credentials: Credentials,
        remaining_ports: Vec<Option<u16>>,
        out: ConnectOutcome,
        now: u64,
    ) -> bool {
        match out {
            ConnectOutcome::Connected(username) => {
                &&& post.session_generation == spec_next_gen(pre.session_generation)
                &&& (post.session matches Some(s) && s.username@ == username@ && s.generation
                    == post.session_generation)
                &&& post.player_generation == spec_next_gen(pre.player_generation)
                &&& post.player == Some(PlayerHandle { generation: post.player_generation })
                &&& post.mixer == (if pre.mixer is Some {
                    pre.mixer
                } else {
                    Some(Mixer { volume: MAX_VOLUME })
                })
                &&& post.settings == pre.settings
                &&& post.auth_challenge == pre.auth_challenge
                &&& post.oauth_client.spec_config() == pre.oauth_client.spec_config()
                &&& Self::spec_store_kept(pre, post)
                &&& post.pending is None
                &&& r.next == StepNext::Done(Ok::<(), SpotifyError>(()))
                &&& Self::spec_login_effects(
                    pre.mixer,
                    pre.settings,
                    post.player_generation,
                    post.session_generation,
                    crate::oauth::spec_refresh_delay(credentials@.token_expiry_time, now),
                    username@,
                    r.effects@,
                )
            },
            ConnectOutcome::TechnicalFailure => {
                if remaining_ports@.len() == 0 {
                    Self::spec_failed(pre, post, r, SpotifyError::TechnicalError)
                } else {
                    &&& Self::spec_frame(pre, post)
                    &&& Self::spec_store_kept(pre, post)
                    &&& (post.pending matches Some(Pending::AwaitConnect {
                        credentials: c2,
                        remaining_ports: r2,
                    }) && c2@ == credentials@ && r2@ == remaining_ports@.skip(1))
                    &&& (r.next matches StepNext::Io(IoRequest::ConnectSession {
                        access_token,
                        ap_port,
                    }) && access_token@ == credentials@.access_token && ap_port
                        == remaining_ports@[0])
                    &&& r.effects@ == Seq::<Effect>::empty()
                }
            },
            ConnectOutcome::AuthFailure => Self::spec_failed(pre, post, r, SpotifyError::LoginFailed),
        }
    }

    /// What resuming with a response does, given what was awaited.
    pub open spec fn spec_resume_post(
        pre: SpotifyPlayer,
        post: SpotifyPlayer,
        response: IoResponse,
        now: u64,
        r: Step,
    ) -> bool {
        match pre.pending {
            Some(Pending::AwaitStored { purpose }) => (match response {
                IoResponse::Stored(retrieved) => Self::spec_resolve_post(
                    pre,
                    post,
                    r,
                    retrieved,
                    now,
                    purpose,
                ),
                _ => true,
            }),
            Some(Pending::AwaitRefresh { old_token, purpose }) => (match response {
                IoResponse::RefreshResult(outcome) => Self::spec_refresh_post(
                    pre,
                    post,
                    r,
                    old_token,
                    outcome,
                    now,
                    purpose,
                ),
                _ => true,
            }),
            Some(Pending::AwaitReconnect) => (match response {
                IoResponse::ConnectResult(out) => Self::spec_reconnect_post(pre, post, r, out, now),
                _ => true,
            }),
            Some(Pending::AwaitChallenge) => (match response {
                IoResponse::ChallengeReady(seed) => Self::spec_challenge_post(pre, post, r, seed),
                _ => true,
            }),
            Some(Pending::AwaitCallback { challenge }) => (match response {
                IoResponse::CallbackLine(line) => Self::spec_callback_post(
                    pre,
                    post,
                    r,
                    challenge,
                    line,
                ),
                _ => true,
            }),
            Some(Pending::AwaitExchange) => (match response {
                IoResponse::ExchangeResult(outcome) => Self::spec_exchange_post(
                    pre,
                    post,
                    r,
                    outcome,
                    now,
                ),
                _ => true,
            }),
            Some(Pending::AwaitConnect { credentials, remaining_ports }) => (match response {
                IoResponse::ConnectResult(out) => Self::spec_connect_post(
                    pre,
                    post,
                    r,
                    credentials,
                    remaining_ports,
                    out,
                    now,
                ),
                _ => true,
            }),
            None => false,
        }
    }

    /// Hand the outcome of the outstanding request back to the suspended
    /// actor; it finishes the in-flight command or suspends on its next
    /// request.
    pub fn resume(&mut self, response: IoResponse, now: u64) -> (r: Step)
        requires
            old(self).wf(),
            spec_expects(old(self).pending, response),
        ensures
            final(self).wf(),
            Self::spec_resume_post(*old(self), *final(self), response, now, r),
    {
        let pending = self.pending.take();
        match (pending, response) {
            (Some(Pending::AwaitStored { purpose }), IoResponse::Stored(retrieved)) => self
                .resolve_token(retrieved, now, purpose),
            (
                Some(Pending::AwaitRefresh { old_token, purpose }),
                IoResponse::RefreshResult(outcome),
            ) => {
                let had_failure = outcome.is_err();
                match self.oauth_client.refresh_token(old_token, outcome, now) {
                    Err(_) => {
                        if had_failure {
                            let mut effects: Vec<Effect> = Vec::new();
                            effects.push(Effect::ClearStoredCredentials);
                            effects.push(Effect::ReportError(SpotifyError::LoginFailed));
                            proof {
                                assert(effects@ =~= seq![
                                    Effect::ClearStoredCredentials,
                                    Effect::ReportError(SpotifyError::LoginFailed),
                                ]);
                            }
                            Step {
                                effects,
                                next: StepNext::Done(Err(SpotifyError::LoginFailed)),
                            }
                        } else {
                            fail_step(SpotifyError::LoginFailed)
                        }
                    },
                    Ok(token) => {
                        let persist = token.clone();
                        let mut st = self.continue_with_token(token, purpose);
                        st.effects.insert(0, Effect::PersistCredentials(persist));
                        st
                    },
                }
            },
            (Some(Pending::AwaitReconnect), IoResponse::ConnectResult(out)) => {
                match out {
                    ConnectOutcome::Connected(_) => {
                        let mut effects: Vec<Effect> = Vec::new();
                        effects.push(Effect::RefreshSuccessful);
                        match self.oauth_client.refresh_token_at_expiry(now) {
                            Ok(refresh_in) => {
                                effects.push(Effect::SpawnRefreshLoop {
                                    session_generation: self.session_generation,
                                    refresh_in,
                                });
                            },
                            Err(_) => {},
                        }
                        proof {
                            if old(self).oauth_client.token_store@ is Some {
                                assert(effects@ =~= seq![Effect::RefreshSuccessful]
                                    + seq![effects@[1]]);
                            } else {
                                assert(effects@ =~= seq![Effect::RefreshSuccessful]
                                    + Seq::<Effect>::empty());
                            }
                        }
                        Step { effects, next: StepNext::Done(Ok(())) }
                    },
                    _ => fail_step(SpotifyError::LoginFailed),
                }
            },
            (Some(Pending::AwaitChallenge), IoResponse::ChallengeReady(seed)) => {
                match seed {
                    None => fail_step(SpotifyError::LoginFailed),
                    Some(seed) => {
                        let url = self.oauth_client.build_authorize_url(
                            seed.csrf_token.as_str(),
                            seed.pkce_challenge.as_str(),
                        );
                        let challenge = AuthChallenge {
                            auth_url: url.clone(),
                            pkce_verifier: seed.pkce_verifier,
                            csrf_token: seed.csrf_token,
                        };
                        self.auth_challenge = Some(challenge);
                        let mut effects: Vec<Effect> = Vec::new();
                        effects.push(Effect::LoginChallengeStarted(url));
                        Step { effects, next: StepNext::Done(Ok(())) }
                    },
                }
            },
            (Some(Pending::AwaitCallback { challenge }), IoResponse::CallbackLine(line)) => {
                match line {
                    None => fail_step(SpotifyError::LoginFailed),
                    Some(l) => {
                        match self.oauth_client.get_token(&challenge, l.as_str()) {
                            Err(_) => fail_step(SpotifyError::LoginFailed),
                            Ok(code) => {
                                self.pending = Some(Pending::AwaitExchange);
                                io_step(IoRequest::ExchangeAuthCode {
                                    code,
                                    pkce_verifier: challenge.pkce_verifier,
                                })
                            },
                        }
                    },
                }
            },
            (Some(Pending::AwaitExchange), IoResponse::ExchangeResult(outcome)) => {
                match self.oauth_client.complete_exchange(outcome, now) {
                    Err(_) => fail_step(SpotifyError::LoginFailed),
                    Ok(token) => {
                        let persist = token.clone();
                        let mut st = self.start_probe(token);
                        st.effects.insert(0, Effect::PersistCredentials(persist));
                        st
                    },
                }
            },
            (
                Some(Pending::AwaitConnect { credentials, remaining_ports }),
                IoResponse::ConnectResult(out),
            ) => {
                match out {
                    ConnectOutcome::Connected(username) => {
                        let refresh_in = crate::oauth::refresh_delay(
                            credentials.token_expiry_time,
                            now,
                        );
                        let sgen = next_gen(self.session_generation);
                        self.session_generation = sgen;
                        self.session = Some(
                            SessionHandle { username: username.clone(), generation: sgen },
                        );
                        let mut effects = self.create_player();
                        let ghost base = effects@;
                        effects.push(Effect::SpawnRefreshLoop { session_generation: sgen, refresh_in });
                        effects.push(Effect::TokenLoginSuccessful(username));
                        proof {
                            assert(effects@.take(base.len() as int) =~= base);
                        }
                        Step { effects, next: StepNext::Done(Ok(())) }
                    },
                    ConnectOutcome::TechnicalFailure => {
                        if remaining_ports.len() == 0 {
                            fail_step(SpotifyError::TechnicalError)
                        } else {
                            let mut rest = remaining_ports;
                            let next_port = rest.remove(0);
                            let access_token = credentials.access_token.clone();
                            self.pending = Some(
                                Pending::AwaitConnect { credentials, remaining_ports: rest },
                            );
                            io_step(IoRequest::ConnectSession { access_token, ap_port: next_port })
                        }
                    },
                    ConnectOutcome::AuthFailure => fail_step(SpotifyError::LoginFailed),
                }
            },
            _ => {
                proof {
                    assert(false);
                }
                fail_step(SpotifyError::TechnicalError)
            },
        }
    }
}

/// At most one challenge is live at a time: a second `InitLogin` before
/// completion repeats the pending challenge's URL to the delegate, starts
/// no second listener — the step asks for nothing — and leaves the actor
/// exactly as it was.
pub proof fn lemma_single_live_challenge(
    pre: SpotifyPlayer,
    post: SpotifyPlayer,
    now: u64,
    r: Step,
)
    requires
        pre.auth_challenge is Some,
        SpotifyPlayer::spec_handle_post(pre, post, Command::InitLogin, now, r),
    ensures
        post == pre,
        r.next == StepNext::Done(Ok::<(), SpotifyError>(())),
        !(r.next is Io),
        r.effects@.len() == 1,
        (r.effects@[0] matches Effect::LoginChallengeStarted(url) && url@
            == pre.auth_challenge.unwrap().auth_url@),
{
}

/// A token whose expiry is strictly in the future is never refreshed; an
/// expired one asks for exactly one refresh exchange, with its own refresh
/// token.
pub proof fn lemma_refresh_only_when_expired(
    pre: SpotifyPlayer,
    post: SpotifyPlayer,
    r: Step,
    now: u64,
    purpose: TokenPurpose,
    t: CredentialsView,
)
    requires
        SpotifyPlayer::spec_token_resolved(pre, post, r, now, purpose, t),
    ensures
        !spec_token_expired(t, now) ==> !(r.next matches StepNext::Io(
            IoRequest::RefreshAccessToken { .. },
        )),
        spec_token_expired(t, now) ==> (r.next matches StepNext::Io(
            IoRequest::RefreshAccessToken { refresh_token },
        ) && refresh_token@ == t.refresh_token),
{
}

/// Loading a track before any successful login is refused as
/// `PlayerNotReady`, reported and leaving the actor unchanged and ready;
/// with a live player the same command succeeds and reaches the player.
pub proof fn lemma_load_needs_login(
    pre: SpotifyPlayer,
    post: SpotifyPlayer,
    track: SpotifyId,
    resume: bool,
    now: u64,
    r: Step,
)
    requires
        SpotifyPlayer::spec_handle_post(pre, post, Command::PlayerLoad { track, resume }, now, r),
    ensures
        pre.player is None ==> post == pre && r.next == StepNext::Done(Err::<(), SpotifyError>(
            SpotifyError::PlayerNotReady,
        )) && r.effects@ == seq![Effect::ReportError(SpotifyError::PlayerNotReady)],
        pre.player is Some ==> post == pre && r.next == StepNext::Done(Ok::<(), SpotifyError>(()))
            && r.effects@ == seq![Effect::PlayerLoadTrack { track, resume }],
{
}

/// A successful connection establishes the session and the player: after
/// it, player commands are accepted.
pub proof fn lemma_login_establishes_player(
    pre: SpotifyPlayer,
    post: SpotifyPlayer,
    r: Step,
    credentials: Credentials,
    remaining_ports: Vec<Option<u16>>,
    username: String,
    now: u64,
)
    requires
        SpotifyPlayer::spec_connect_post(
            pre,
            post,
            r,
            credentials,
            remaining_ports,
            ConnectOutcome::Connected(username),
            now,
        ),
    ensures
        post.player is Some,
        post.session is Some,
        r.next == StepNext::Done(Ok::<(), SpotifyError>(())),
{
}

/// The probe aborts at once on an authentication failure: the command
/// fails as a failed login and no further port is tried.
pub proof fn lemma_probe_fail_fast(
    pre: SpotifyPlayer,
    post: SpotifyPlayer,
    r: Step,
    credentials: Credentials,
    remaining_ports: Vec<Option<u16>>,
    now: u64,
)
    requires
        SpotifyPlayer::spec_connect_post(
            pre,
            post,
            r,
            credentials,
            remaining_ports,
            ConnectOutcome::AuthFailure,
            now,
        ),
    ensures
        r.next == StepNext::Done(Err::<(), SpotifyError>(SpotifyError::LoginFailed)),
        !(r.next is Io),
        post.pending is None,
{
}

/// Only a transient failure moves the probe on, and then exactly to the
/// next untried port, with the same credentials.
pub proof fn lemma_probe_next_port(
    pre: SpotifyPlayer,
    post: SpotifyPlayer,
    r: Step,
    credentials: Credentials,
    remaining_ports: Vec<Option<u16>>,
    now: u64,
)
    requires
        remaining_ports@.len() > 0,
        SpotifyPlayer::spec_connect_post(
            pre,
            post,
            r,
            credentials,
            remaining_ports,
            ConnectOutcome::TechnicalFailure,
            now,
        ),
    ensures
        (r.next matches StepNext::Io(IoRequest::ConnectSession { access_token, ap_port })
            && ap_port == remaining_ports@[0] && access_token@ == credentials@.access_token),
        (post.pending matches Some(Pending::AwaitConnect { credentials: c2, remaining_ports: r2 })
            && c2@ == credentials@ && r2@ == remaining_ports@.skip(1)),
{
}

/// A step that reports `e` to the delegate and finishes with it.
fn fail_step(e: SpotifyError) -> (r: Step)
    ensures
        r.next == StepNext::Done(Err::<(), SpotifyError>(e)),
        r.effects@ == seq![Effect::ReportError(e)],
{
    let mut effects: Vec<Effect> = Vec::new();
    effects.push(Effect::ReportError(e));
    Step { effects, next: StepNext::Done(Err(e)) }
}

/// A step that suspends on `req`, with nothing to perform first.
fn io_step(req: IoRequest) -> (r: Step)
    ensures
        r.next == StepNext::Io(req),
        r.effects@ == Seq::<Effect>::empty(),
{
    Step { effects: Vec::new(), next: StepNext::Io(req) }
}

/// The next generation counter.
fn next_gen(g: u64) -> (r: u64)
    ensures
        r == spec_next_gen(g),
{
    if g < u64::MAX {
        g + 1
    } else {
        g
    }
}

} // verus!
