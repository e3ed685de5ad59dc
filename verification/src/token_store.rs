//! In-process cache of the current credential record. The cache is the only
//! state shared between the command actor and the rest of the application;
//! reading the secret store and persisting to it happen outside, and their
//! results are handed in as plain values.

use vstd::prelude::*;

use crate::credentials::{Credentials, CredentialsView};

verus! {

/// Best-effort in-memory cache of the last known credential record.
pub struct TokenStore {
    cached: Option<Credentials>,
}

impl View for TokenStore {
    type V = Option<CredentialsView>;

    closed spec fn view(&self) -> Option<CredentialsView> {
        match self.cached {
            Some(c) => Some(c@),
            None => None,
        }
    }
}

impl TokenStore {
    /// An empty cache: no credential is known yet.
    pub fn new() -> (r: Self)
        ensures
            r@ is None,
    {
        TokenStore { cached: None }
    }

    /// The last known record, without any I/O.
    pub fn get_cached(&self) -> (r: Option<Credentials>)
        ensures
            match r {
                Some(c) => self@ == Some(c@),
                None => self@ is None,
            },
    {
        match &self.cached {
            Some(c) => Some(c.clone()),
            None => None,
        }
    }

    /// The last known record, without any I/O. Same as [`Self::get_cached`];
    /// the name is kept for callers outside any async context.
    pub fn get_cached_blocking(&self) -> (r: Option<Credentials>)
        ensures
            match r {
                Some(c) => self@ == Some(c@),
                None => self@ is None,
            },
    {
        self.get_cached()
    }

    /// Authoritative read. When the cache already holds a record, that record
    /// is returned and `retrieved` is ignored. When it is empty, `retrieved`
    /// — what the caller read from the secret store, `None` on any store
    /// failure — populates the cache and is returned.
    pub fn get(&mut self, retrieved: Option<Credentials>) -> (r: Option<Credentials>)
        ensures
            old(self)@ is Some ==> {
                &&& final(self)@ == old(self)@
                &&& r matches Some(c) && Some(c@) == old(self)@
            },
            old(self)@ is None ==> {
                &&& match (&r, &retrieved) {
                    (Some(a), Some(b)) => a@ == b@,
                    (None, None) => true,
                    _ => false,
                }
                &&& final(self)@ == (match r {
                    Some(c) => Some(c@),
                    None => None,
                })
            },
    {
        match &self.cached {
            Some(c) => Some(c.clone()),
            None => {
                match retrieved {
                    Some(c) => {
                        let out = c.clone();
                        self.cached = Some(c);
                        Some(out)
                    }
                    None => None,
                }
            }
        }
    }

    /// Record a new credential. The cache is updated unconditionally; the
    /// caller persists the same record to the secret store, best-effort.
    pub fn set(&mut self, creds: Credentials)
        ensures
            final(self)@ == Some(creds@),
    {
        self.cached = Some(creds);
    }

    /// Forget the cached record. The caller deletes the stored copy,
    /// best-effort.
    pub fn clear(&mut self)
        ensures
            final(self)@ is None,
    {
        self.cached = None;
    }
}

} // verus!
