//! The login screen's model: it turns the user's two gestures — "try the
//! stored session" and "log in with the provider" — into the actions the
//! dispatcher carries to the stores. Dispatched actions queue here until
//! the driver drains them.

use vstd::prelude::*;

use crate::login_state::{LoginAction, TryLoginAction};
use crate::state::AppAction;

verus! {

/// The login screen's model, queueing what it dispatches.
pub struct LoginModel {
    pub pending: Vec<AppAction>,
}

impl LoginModel {
    /// A model with nothing dispatched yet.
    pub fn new() -> (r: Self)
        ensures
            r.pending@ =~= Seq::<AppAction>::empty(),
    {
        LoginModel { pending: Vec::new() }
    }

    /// Ask to restore the stored session.
    pub fn try_autologin(&mut self)
        ensures
            final(self).pending@ == old(self).pending@ + seq![
                AppAction::LoginAction(LoginAction::TryLogin(TryLoginAction::Reconnect)),
            ],
    {
        self.pending.push(AppAction::LoginAction(LoginAction::TryLogin(TryLoginAction::Reconnect)));
    }

    /// Ask for a fresh interactive login with the provider.
    pub fn login_with_spotify(&mut self)
        ensures
            final(self).pending@ == old(self).pending@ + seq![
                AppAction::LoginAction(LoginAction::TryLogin(TryLoginAction::NewLogin)),
            ],
    {
        self.pending.push(AppAction::LoginAction(LoginAction::TryLogin(TryLoginAction::NewLogin)));
    }

    /// Hand the queued actions to the dispatcher, leaving the queue empty.
    pub fn take_pending(&mut self) -> (r: Vec<AppAction>)
        ensures
            r@ == old(self).pending@,
            final(self).pending@ =~= Seq::<AppAction>::empty(),
    {
        let mut out: Vec<AppAction> = Vec::new();
        core::mem::swap(&mut out, &mut self.pending);
        out
    }
}

} // verus!
