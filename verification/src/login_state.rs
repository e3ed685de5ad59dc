//! The login store: the signed-in user and their playlists, updated by
//! login actions and answering each with the events the application layer
//! turns into UI updates.

use vstd::prelude::*;
use vstd::slice::slice_subrange;

use crate::state::AppEvent;

verus! {

/// One playlist of the signed-in user: its catalog id and display title.
#[derive(Debug, PartialEq, Eq)]
pub struct PlaylistSummary {
    pub id: String,
    pub title: String,
}

impl Clone for PlaylistSummary {
    fn clone(&self) -> (r: Self)
        ensures
            r == *self,
    {
        PlaylistSummary { id: self.id.clone(), title: self.title.clone() }
    }
}

/// How a login is started: reusing the stored token, or from scratch.
#[derive(Debug, Clone, Copy, PartialEq, Eq, Structural)]
pub enum TryLoginAction {
    Reconnect,
    NewLogin,
}

/// Operations on the login store.
#[derive(Debug, PartialEq, Eq)]
pub enum LoginAction {
    /// Show the login screen.
    ShowLogin,
    /// Start a login of the given kind.
    TryLogin(TryLoginAction),
    /// A login finished for this username.
    SetLoginSuccess(String),
    /// Replace the user's playlists.
    SetUserPlaylists(Vec<PlaylistSummary>),
    /// Retitle the playlist with this id, if the user has it.
    UpdateUserPlaylist(PlaylistSummary),
    /// Put these playlists before the user's current ones.
    PrependUserPlaylist(Vec<PlaylistSummary>),
    /// A login failed.
    SetLoginFailure,
    /// A fresh token was asked for.
    RefreshToken,
    /// The token was refreshed and the session restored.
    TokenRefreshed,
    /// The user signed out.
    Logout,
}

/// How a started login was started.
#[derive(Debug, Clone, Copy, PartialEq, Eq, Structural)]
pub enum LoginStartedEvent {
    Reconnect,
    NewLogin,
}

/// Notifications out of the login store.
#[derive(Debug, Clone, Copy, PartialEq, Eq, Structural)]
pub enum LoginEvent {
    LoginShown,
    LoginStarted(LoginStartedEvent),
    LoginCompleted,
    UserPlaylistsLoaded,
    LoginFailed,
    FreshTokenRequested,
    RefreshTokenCompleted,
    LogoutCompleted,
}

/// The signed-in username, if any, and the playlists they own.
pub struct LoginState {
    pub user: Option<String>,
    pub playlists: Vec<PlaylistSummary>,
}

impl Default for LoginState {
    /// Nobody signed in, no playlists.
    fn default() -> (r: Self)
        ensures
            r.user is None,
            r.playlists@ =~= Seq::<PlaylistSummary>::empty(),
    {
        LoginState { user: None, playlists: Vec::new() }
    }
}

/// Index of the first playlist whose id reads `id`, or the length if none
/// does.
pub open spec fn spec_first_match(ps: Seq<PlaylistSummary>, id: Seq<char>) -> nat
    decreases ps.len(),
{
    if ps.len() == 0 {
        0
    } else if ps[0].id@ == id {
        0
    } else {
        1 + spec_first_match(ps.skip(1), id)
    }
}

/// Index of the first playlist whose id reads `id`.
fn find_match(s: &[PlaylistSummary], id: &String) -> (r: usize)
    ensures
        r == spec_first_match(s@, id@),
        r <= s@.len(),
    decreases s@.len(),
{
    if s.len() == 0 {
        0
    } else {
        let p = vstd::slice::slice_index_get(s, 0);
        if p.id.eq(id) {
            0
        } else {
            1 + find_match(slice_subrange(s, 1, s.len()), id)
        }
    }
}

/// What one login action does to the store, and the events it answers
/// with.
pub open spec fn spec_login_update(
    pre: LoginState,
    post: LoginState,
    action: LoginAction,
    events: Seq<AppEvent>,
) -> bool {
    match action {
        LoginAction::ShowLogin => {
            &&& post == pre
            &&& events == seq![AppEvent::LoginEvent(LoginEvent::LoginShown)]
        },
        LoginAction::TryLogin(kind) => {
            &&& post == pre
            &&& events == seq![
                AppEvent::LoginEvent(
                    LoginEvent::LoginStarted(
                        match kind {
                            TryLoginAction::Reconnect => LoginStartedEvent::Reconnect,
                            TryLoginAction::NewLogin => LoginStartedEvent::NewLogin,
                        },
                    ),
                ),
            ]
        },
        LoginAction::SetLoginSuccess(username) => {
            &&& post.user == Some(username)
            &&& post.playlists == pre.playlists
            &&& events == seq![AppEvent::LoginEvent(LoginEvent::LoginCompleted)]
        },
        LoginAction::SetLoginFailure => {
            &&& post == pre
            &&& events == seq![AppEvent::LoginEvent(LoginEvent::LoginFailed)]
        },
        LoginAction::RefreshToken => {
            &&& post == pre
            &&& events == seq![AppEvent::LoginEvent(LoginEvent::FreshTokenRequested)]
        },
        LoginAction::TokenRefreshed => {
            &&& post == pre
            &&& events.len() == 2
            &&& (events[0] matches AppEvent::NotificationShown(m) && m@ == "Connection restored"@)
            &&& events[1] == AppEvent::LoginEvent(LoginEvent::RefreshTokenCompleted)
        },
        LoginAction::Logout => {
            &&& post.user is None
            &&& post.playlists == pre.playlists
            &&& events == seq![AppEvent::LoginEvent(LoginEvent::LogoutCompleted)]
        },
        LoginAction::SetUserPlaylists(playlists) => {
            &&& post.user == pre.user
            &&& post.playlists == playlists
            &&& events == seq![AppEvent::LoginEvent(LoginEvent::UserPlaylistsLoaded)]
        },
        LoginAction::UpdateUserPlaylist(p) => {
            let i = spec_first_match(pre.playlists@, p.id@);
            &&& post.user == pre.user
            &&& if i < pre.playlists@.len() {
                &&& post.playlists@.len() == pre.playlists@.len()
                &&& (forall|j: int|
                    0 <= j < pre.playlists@.len() && j != i ==> post.playlists@[j]
                        == pre.playlists@[j])
                &&& post.playlists@[i as int].id == pre.playlists@[i as int].id
                &&& post.playlists@[i as int].title == p.title
            } else {
                post.playlists@ == pre.playlists@
            }
            &&& events == seq![AppEvent::LoginEvent(LoginEvent::UserPlaylistsLoaded)]
        },
        LoginAction::PrependUserPlaylist(summaries) => {
            &&& post.user == pre.user
            &&& post.playlists@ == summaries@ + pre.playlists@
            &&& events == seq![AppEvent::LoginEvent(LoginEvent::UserPlaylistsLoaded)]
        },
    }
}

impl LoginState {
    /// Apply one login action and answer with its events.
    pub fn update_with(&mut self, action: LoginAction) -> (events: Vec<AppEvent>)
        ensures
            spec_login_update(*old(self), *final(self), action, events@),
    {
        match action {
            LoginAction::ShowLogin => one_event(AppEvent::LoginEvent(LoginEvent::LoginShown)),
            LoginAction::TryLogin(TryLoginAction::Reconnect) => one_event(
                AppEvent::LoginEvent(LoginEvent::LoginStarted(LoginStartedEvent::Reconnect)),
            ),
            LoginAction::TryLogin(TryLoginAction::NewLogin) => one_event(
                AppEvent::LoginEvent(LoginEvent::LoginStarted(LoginStartedEvent::NewLogin)),
            ),
            LoginAction::SetLoginSuccess(username) => {
                self.user = Some(username);
                one_event(AppEvent::LoginEvent(LoginEvent::LoginCompleted))
            },
            LoginAction::SetLoginFailure => one_event(AppEvent::LoginEvent(LoginEvent::LoginFailed)),
            LoginAction::RefreshToken => one_event(
                AppEvent::LoginEvent(LoginEvent::FreshTokenRequested),
            ),
            LoginAction::TokenRefreshed => {
                let mut events: Vec<AppEvent> = Vec::new();
                events.push(AppEvent::NotificationShown("Connection restored".to_owned()));
                events.push(AppEvent::LoginEvent(LoginEvent::RefreshTokenCompleted));
                events
            },
            LoginAction::Logout => {
                self.user = None;
                one_event(AppEvent::LoginEvent(LoginEvent::LogoutCompleted))
            },
            LoginAction::SetUserPlaylists(playlists) => {
                self.playlists = playlists;
                one_event(AppEvent::LoginEvent(LoginEvent::UserPlaylistsLoaded))
            },
            LoginAction::UpdateUserPlaylist(p) => {
                let i = find_match(self.playlists.as_slice(), &p.id);
                if i < self.playlists.len() {
                    let old_entry = self.playlists.remove(i);
                    self.playlists.insert(
                        i,
                        PlaylistSummary { id: old_entry.id, title: p.title },
                    );
                }
                one_event(AppEvent::LoginEvent(LoginEvent::UserPlaylistsLoaded))
            },
            LoginAction::PrependUserPlaylist(summaries) => {
                let mut combined = summaries;
                combined.append(&mut self.playlists);
                self.playlists = combined;
                one_event(AppEvent::LoginEvent(LoginEvent::UserPlaylistsLoaded))
            },
        }
    }
}

/// A one-element event list.
fn one_event(e: AppEvent) -> (r: Vec<AppEvent>)
    ensures
        r@ == seq![e],
{
    let mut r: Vec<AppEvent> = Vec::new();
    r.push(e);
    proof {
        assert(r@ =~= seq![e]);
    }
    r
}

} // verus!
