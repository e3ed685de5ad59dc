//! The OAuth authorization-code flow with PKCE, as decisions on plain
//! values: building the provider's authorization URL, validating the
//! redirect callback, turning token-endpoint responses into credential
//! records, and scheduling the background refresh. The network calls
//! themselves — opening the browser, the one-shot callback listener, the
//! HTTPS exchanges — happen outside; their outcomes are handed in.

use vstd::prelude::*;
use vstd::string::StringSliceAdditionalSpecFns;

use crate::credentials::{spec_token_expired, Credentials, CredentialsView};
use crate::query;
use crate::text;
use crate::token_store::TokenStore;

verus! {

/// OAuth client id registered for this application.
pub const CLIENT_ID: &'static str = "782ae96ea60f4cdf986a766049607005";

/// Redirect URI registered for the client id; the callback listener binds
/// to its loopback address and port.
pub const REDIRECT_URI: &'static str = "http://127.0.0.1:8898/login";

/// Comma-separated scopes requested with every authorization.
pub const SCOPES: &'static str =
    "user-read-private,playlist-read-private,playlist-read-collaborative,user-library-read,user-library-modify,user-top-read,user-read-recently-played,user-read-playback-state,playlist-modify-public,playlist-modify-private,user-modify-playback-state,streaming,playlist-modify-public";

/// The provider's authorization endpoint.
pub const AUTHORIZE_ENDPOINT: &'static str = "https://accounts.spotify.com/authorize";

/// The provider's token endpoint.
pub const TOKEN_ENDPOINT: &'static str = "https://accounts.spotify.com/api/token";

/// Failures of the authorization flow.
#[derive(Debug, PartialEq, Eq)]
pub enum OAuthError {
    /// The callback carried no `code` parameter.
    AuthCodeNotFound,
    /// The callback carried no `state` parameter.
    CsrfTokenNotFound,
    /// The one-shot listener could not bind its loopback address.
    AuthCodeListenerBind,
    /// The listener ended without accepting a connection.
    AuthCodeListenerTerminated,
    /// The callback request could not be parsed.
    AuthCodeListenerParse,
    /// The confirmation page could not be written back.
    AuthCodeListenerWrite,
    /// The token endpoint refused the code exchange.
    ExchangeCode { e: String },
    /// The provider returned no refresh token, or refreshing failed.
    NoRefreshToken,
    /// No stored token exists.
    LoggedOut,
    /// The callback's `state` did not match the challenge's CSRF token.
    InvalidState,
}

/// What the redirect callback carried: the returned state and the
/// authorization code.
#[derive(Debug, PartialEq, Eq)]
pub struct OAuthResult {
    pub csrf_token: String,
    pub code: String,
}

/// One login attempt between "initiated" and "completed or cancelled".
/// The listener that waits for the callback lives outside; this record
/// holds what the flow needs to finish: the URL shown to the user, the
/// PKCE verifier for the exchange, and the CSRF token to compare against.
#[derive(Debug, PartialEq, Eq)]
pub struct AuthChallenge {
    pub auth_url: String,
    pub pkce_verifier: String,
    pub csrf_token: String,
}

impl Clone for AuthChallenge {
    fn clone(&self) -> (r: Self)
        ensures
            r == *self,
    {
        AuthChallenge {
            auth_url: self.auth_url.clone(),
            pkce_verifier: self.pkce_verifier.clone(),
            csrf_token: self.csrf_token.clone(),
        }
    }
}

/// What a token-endpoint response carries once decoded: the new access
/// token, the refresh token if the provider sent one, and the lifetime of
/// the access token in seconds if the provider sent it.
#[derive(Debug, PartialEq, Eq)]
pub struct TokenPayload {
    pub access_token: String,
    pub refresh_token: Option<String>,
    pub expires_in: Option<u64>,
}

/// What parsing an OAuth callback request line yields: the decoded `state`
/// and `code` values, or the error naming what was missing.
pub open spec fn spec_parse_query(line: Seq<char>) -> Result<(Seq<char>, Seq<char>), OAuthError> {
    let toks = query::spec_tokens(line);
    if toks.len() < 2 {
        Err(OAuthError::AuthCodeListenerParse)
    } else {
        let qs = query::spec_split(toks[1], '?');
        if qs.len() < 2 {
            Err(OAuthError::AuthCodeListenerParse)
        } else {
            let ps = query::spec_pairs(qs[1]);
            match query::spec_lookup(ps, "state"@) {
                None => Err(OAuthError::CsrfTokenNotFound),
                Some(st) => match query::spec_lookup(ps, "code"@) {
                    None => Err(OAuthError::AuthCodeNotFound),
                    Some(code) => Ok((st, code)),
                },
            }
        }
    }
}

/// Parse the request line of the redirect callback: the second
/// whitespace-separated token is the request target, the part between the
/// first and second `?` is the query, and the query must carry `state` and
/// `code` pairs. A repeated key keeps its last value.
pub fn parse_query(request_line: &str) -> (r: Result<OAuthResult, OAuthError>)
    ensures
        match r {
            Ok(or) => spec_parse_query(request_line@) == Ok::<_, OAuthError>(
                (or.csrf_token@, or.code@),
            ),
            Err(e) => spec_parse_query(request_line@) == Err::<(Seq<char>, Seq<char>), _>(e),
        },
{
    let chars = text::string_to_chars(request_line);
    let toks = query::tokens(chars.as_slice());
    if toks.len() < 2 {
        return Err(OAuthError::AuthCodeListenerParse);
    }
    let target: &Vec<char> = &toks[1];
    proof {
        assert(toks.deep_view()[1] =~= target@);
    }
    let qs = query::split(target.as_slice(), '?');
    if qs.len() < 2 {
        return Err(OAuthError::AuthCodeListenerParse);
    }
    let q: &Vec<char> = &qs[1];
    proof {
        assert(qs.deep_view()[1] =~= q@);
    }
    let ps = query::pairs(q.as_slice());
    let state_key = text::string_to_chars("state");
    let code_key = text::string_to_chars("code");
    let st = query::lookup(ps.as_slice(), state_key.as_slice());
    let code = query::lookup(ps.as_slice(), code_key.as_slice());
    match (st, code) {
        (None, _) => Err(OAuthError::CsrfTokenNotFound),
        (Some(_), None) => Err(OAuthError::AuthCodeNotFound),
        (Some(st), Some(code)) => Ok(
            OAuthResult { csrf_token: text::chars_to_string(&st), code: text::chars_to_string(&code) },
        ),
    }
}

/// The access token's expiry instant: `now` plus the advertised lifetime,
/// one hour when the provider sent none, saturating at the largest
/// representable instant.
pub open spec fn spec_new_expiry(now: u64, expires_in: Option<u64>) -> u64 {
    let d = match expires_in {
        Some(d) => d,
        None => 3600,
    };
    if now + d <= u64::MAX {
        (now + d) as u64
    } else {
        u64::MAX
    }
}

/// How long the background task sleeps before refreshing: until ten
/// seconds before the cached expiry, at least zero; two minutes when no
/// expiry is recorded or it already passed.
pub open spec fn spec_refresh_delay(expiry: Option<u64>, now: u64) -> u64 {
    let dur: u64 = match expiry {
        Some(e) => if e >= now {
            (e - now) as u64
        } else {
            120
        },
        None => 120,
    };
    if dur >= 10 {
        (dur - 10) as u64
    } else {
        0
    }
}

/// What a fresh read of the token cache resolves to: the cached record if
/// one is present, else whatever the secret store yielded.
pub open spec fn spec_resolved(
    cached: Option<CredentialsView>,
    retrieved: Option<Credentials>,
) -> Option<CredentialsView> {
    match cached {
        Some(c) => Some(c),
        None => match retrieved {
            Some(c) => Some(c@),
            None => None,
        },
    }
}

/// The decision [`SpotOauthClient::get_valid_token`] returns: hand the
/// token out as it is, or refresh it first.
#[derive(Debug)]
pub enum TokenDecision {
    /// The cached token is still valid; use it without any request.
    Use(Credentials),
    /// The cached token is expired; exchange its refresh token first.
    Refresh(Credentials),
}

/// Drives one login attempt and the non-interactive refresh flow, and owns
/// the token cache. Endpoints and client identity are fixed at
/// construction.
pub struct SpotOauthClient {
    pub client_id: String,
    pub auth_url: String,
    pub token_url: String,
    pub redirect_uri: String,
    pub scopes: String,
    pub token_store: TokenStore,
}

impl SpotOauthClient {
    /// The configuration part of the client, unchanged by every token
    /// operation.
    pub open spec fn spec_config(&self) -> (Seq<char>, Seq<char>, Seq<char>, Seq<char>, Seq<char>) {
        (self.client_id@, self.auth_url@, self.token_url@, self.redirect_uri@, self.scopes@)
    }

    /// A client for the fixed provider endpoints, owning the given cache.
    pub fn new(token_store: TokenStore) -> (r: Self)
        ensures
            r.client_id@ == CLIENT_ID@,
            r.auth_url@ == AUTHORIZE_ENDPOINT@,
            r.token_url@ == TOKEN_ENDPOINT@,
            r.redirect_uri@ == REDIRECT_URI@,
            r.scopes@ == SCOPES@,
            r.token_store@ == token_store@,
    {
        SpotOauthClient {
            client_id: CLIENT_ID.to_owned(),
            auth_url: AUTHORIZE_ENDPOINT.to_owned(),
            token_url: TOKEN_ENDPOINT.to_owned(),
            redirect_uri: REDIRECT_URI.to_owned(),
            scopes: SCOPES.to_owned(),
            token_store,
        }
    }

    /// The provider's authorization URL for one challenge: the authorize
    /// endpoint with the response type, client id, state, PKCE challenge,
    /// method, redirect URI and space-separated scopes as query
    /// parameters, each value percent-encoded.
    pub fn build_authorize_url(&self, csrf_token: &str, pkce_challenge: &str) -> (r: String)
        ensures
            r@ == spec_authorize_url(*self, csrf_token@, pkce_challenge@),
    {
        let mut out: Vec<char> = Vec::new();
        let mut part = text::string_to_chars(self.auth_url.as_str());
        out.append(&mut part);
        let mut part = text::string_to_chars("?response_type=code&client_id=");
        out.append(&mut part);
        let cid = text::string_to_chars(self.client_id.as_str());
        let mut part = query::percent_encode(cid.as_slice());
        out.append(&mut part);
        let mut part = text::string_to_chars("&state=");
        out.append(&mut part);
        let st = text::string_to_chars(csrf_token);
        let mut part = query::percent_encode(st.as_slice());
        out.append(&mut part);
        let mut part = text::string_to_chars("&code_challenge=");
        out.append(&mut part);
        let ch = text::string_to_chars(pkce_challenge);
        let mut part = query::percent_encode(ch.as_slice());
        out.append(&mut part);
        let mut part = text::string_to_chars("&code_challenge_method=S256&redirect_uri=");
        out.append(&mut part);
        let ru = text::string_to_chars(self.redirect_uri.as_str());
        let mut part = query::percent_encode(ru.as_slice());
        out.append(&mut part);
        let mut part = text::string_to_chars("&scope=");
        out.append(&mut part);
        let sc = text::string_to_chars(self.scopes.as_str());
        let sp = query::spaces_for_commas(sc.as_slice());
        let mut part = query::percent_encode(sp.as_slice());
        out.append(&mut part);
        proof {
            assert(out@ =~= spec_authorize_url(*self, csrf_token@, pkce_challenge@));
        }
        text::chars_to_string(&out)
    }

    /// Validate the redirect callback against the pending challenge: parse
    /// the request line, compare the returned state with the challenge's
    /// CSRF token, and hand back the authorization code to exchange.
    pub fn get_token(&self, challenge: &AuthChallenge, request_line: &str) -> (r: Result<
        String,
        OAuthError,
    >)
        ensures
            match spec_parse_query(request_line@) {
                Err(e) => r == Err::<String, _>(e),
                Ok((st, code)) => if st != challenge.csrf_token@ {
                    r == Err::<String, _>(OAuthError::InvalidState)
                } else {
                    r matches Ok(c) && c@ == code
                },
            },
    {
        let parsed = parse_query(request_line)?;
        if !parsed.csrf_token.eq(&challenge.csrf_token) {
            return Err(OAuthError::InvalidState);
        }
        Ok(parsed.code)
    }

    /// Resolve the current token and decide whether it must be refreshed:
    /// the cached record — populated from `retrieved` when empty — is
    /// handed out as [`TokenDecision::Use`] while its expiry is strictly
    /// in the future, and as [`TokenDecision::Refresh`], asking for
    /// exactly one refresh attempt, when it is expired. With no record at
    /// all the caller is logged out.
    pub fn get_valid_token(&mut self, retrieved: Option<Credentials>, now: u64) -> (r: Result<
        TokenDecision,
        OAuthError,
    >)
        ensures
            final(self).spec_config() == old(self).spec_config(),
            final(self).token_store@ == spec_resolved(old(self).token_store@, retrieved),
            match spec_resolved(old(self).token_store@, retrieved) {
                None => r == Err::<TokenDecision, _>(OAuthError::LoggedOut),
                Some(t) => if spec_token_expired(t, now) {
                    r matches Ok(TokenDecision::Refresh(c)) && c@ == t
                } else {
                    r matches Ok(TokenDecision::Use(c)) && c@ == t
                },
            },
    {
        let token = match self.token_store.get(retrieved) {
            Some(t) => t,
            None => {
                return Err(OAuthError::LoggedOut);
            }
        };
        if token.token_expired_at(now) {
            Ok(TokenDecision::Refresh(token))
        } else {
            Ok(TokenDecision::Use(token))
        }
    }

    /// Apply the outcome of a refresh exchange. A hard failure clears the
    /// cache — the stored refresh token is spent — and asks for a new
    /// login. A response without a refresh token changes nothing and asks
    /// for a new login. A full response becomes the new record, cached for
    /// the caller to persist: same username, new tokens, expiry `now` plus
    /// the advertised lifetime.
    pub fn refresh_token(
        &mut self,
        old_token: Credentials,
        outcome: Result<TokenPayload, String>,
        now: u64,
    ) -> (r: Result<Credentials, OAuthError>)
        ensures
            final(self).spec_config() == old(self).spec_config(),
            match outcome {
                Err(_) => r == Err::<Credentials, _>(OAuthError::NoRefreshToken)
                    && final(self).token_store@ is None,
                Ok(p) => match p.refresh_token {
                    None => r == Err::<Credentials, _>(OAuthError::NoRefreshToken)
                        && final(self).token_store@ == old(self).token_store@,
                    Some(rt) => r matches Ok(c) && c@ == (CredentialsView {
                        username: old_token.username@,
                        access_token: p.access_token@,
                        refresh_token: rt@,
                        token_expiry_time: Some(spec_new_expiry(now, p.expires_in)),
                    }) && final(self).token_store@ == Some(c@),
                },
            },
    {
        let payload = match outcome {
            Ok(p) => p,
            Err(_) => {
                self.token_store.clear();
                return Err(OAuthError::NoRefreshToken);
            }
        };
        let refresh_token = match payload.refresh_token {
            Some(rt) => rt,
            None => {
                return Err(OAuthError::NoRefreshToken);
            }
        };
        let token = Credentials {
            username: old_token.username,
            access_token: payload.access_token,
            refresh_token,
            token_expiry_time: Some(new_expiry(now, payload.expires_in)),
        };
        self.token_store.set(token.clone());
        Ok(token)
    }

    /// Apply the outcome of an authorization-code exchange. A refused
    /// exchange carries the provider's words; a response without a refresh
    /// token asks for a new login; a full response becomes the new record,
    /// cached for the caller to persist. The username stays empty until
    /// the session login reports it.
    pub fn complete_exchange(&mut self, outcome: Result<TokenPayload, String>, now: u64) -> (r:
        Result<Credentials, OAuthError>)
        ensures
            final(self).spec_config() == old(self).spec_config(),
            match outcome {
                Err(m) => r == Err::<Credentials, _>(OAuthError::ExchangeCode { e: m })
                    && final(self).token_store@ == old(self).token_store@,
                Ok(p) => match p.refresh_token {
                    None => r == Err::<Credentials, _>(OAuthError::NoRefreshToken)
                        && final(self).token_store@ == old(self).token_store@,
                    Some(rt) => r matches Ok(c) && c@ == (CredentialsView {
                        username: Seq::empty(),
                        access_token: p.access_token@,
                        refresh_token: rt@,
                        token_expiry_time: Some(spec_new_expiry(now, p.expires_in)),
                    }) && final(self).token_store@ == Some(c@),
                },
            },
    {
        let payload = match outcome {
            Ok(p) => p,
            Err(m) => {
                return Err(OAuthError::ExchangeCode { e: m });
            }
        };
        let refresh_token = match payload.refresh_token {
            Some(rt) => rt,
            None => {
                return Err(OAuthError::NoRefreshToken);
            }
        };
        let token = Credentials {
            username: String::new(),
            access_token: payload.access_token,
            refresh_token,
            token_expiry_time: Some(new_expiry(now, payload.expires_in)),
        };
        self.token_store.set(token.clone());
        proof {
            assert(token@.username =~= Seq::<char>::empty());
        }
        Ok(token)
    }

    /// How long the background renewal task sleeps before its next
    /// refresh: until ten seconds before the cached token's expiry, at
    /// least zero. With no cached token there is nothing to renew and the
    /// caller must log in again, immediately.
    pub fn refresh_token_at_expiry(&self, now: u64) -> (r: Result<u64, OAuthError>)
        ensures
            match self.token_store@ {
                None => r == Err::<u64, _>(OAuthError::NoRefreshToken),
                Some(t) => r == Ok::<_, OAuthError>(spec_refresh_delay(t.token_expiry_time, now)),
            },
    {
        let token = match self.token_store.get_cached() {
            Some(t) => t,
            None => {
                return Err(OAuthError::NoRefreshToken);
            }
        };
        Ok(refresh_delay(token.token_expiry_time, now))
    }
}

/// Whether `s` starts with `pat`.
pub open spec fn spec_starts_with(s: Seq<char>, pat: Seq<char>) -> bool {
    s.len() >= pat.len() && s.take(pat.len() as int) == pat
}

/// Index of the first occurrence of `pat` in `s`, or `s.len()` if absent.
pub open spec fn spec_find_sub(s: Seq<char>, pat: Seq<char>) -> nat
    decreases s.len(),
{
    if spec_starts_with(s, pat) {
        0
    } else if s.len() == 0 {
        0
    } else {
        1 + spec_find_sub(s.skip(1), pat)
    }
}

/// The string value following the first occurrence of `pat` — a
/// `"key":"` marker — read with the record codec's string grammar.
pub open spec fn spec_string_field(body: Seq<char>, pat: Seq<char>) -> Option<Seq<char>> {
    let i = spec_find_sub(body, pat);
    if i + pat.len() <= body.len() {
        match crate::codec::spec_parse_string(body.skip((i + pat.len()) as int)) {
            Some((v, _)) => Some(v),
            None => None,
        }
    } else {
        None
    }
}

/// The number following the first occurrence of `pat` — a `"key":`
/// marker.
pub open spec fn spec_u64_field(body: Seq<char>, pat: Seq<char>) -> Option<u64> {
    let i = spec_find_sub(body, pat);
    if i + pat.len() <= body.len() {
        match crate::codec::spec_parse_number(body.skip((i + pat.len()) as int)) {
            Some((v, _)) => Some(v),
            None => None,
        }
    } else {
        None
    }
}

/// What the token endpoint's compact JSON response carries: the access
/// token, and the refresh token and lifetime when present.
pub open spec fn spec_token_payload(body: Seq<char>) -> Option<
    (Seq<char>, Option<Seq<char>>, Option<u64>),
> {
    match spec_string_field(body, "\"access_token\":\""@) {
        None => None,
        Some(at) => Some(
            (
                at,
                spec_string_field(body, "\"refresh_token\":\""@),
                spec_u64_field(body, "\"expires_in\":"@),
            ),
        ),
    }
}

/// Whether `s` starts with `pat`.
fn starts_with_chars(s: &[char], pat: &[char]) -> (r: bool)
    ensures
        r == spec_starts_with(s@, pat@),
{
    if s.len() < pat.len() {
        false
    } else {
        let head = vstd::slice::slice_subrange(s, 0, pat.len());
        let r = query::chars_eq(head, pat);
        proof {
            assert(s@.take(pat@.len() as int) =~= head@);
        }
        r
    }
}

/// Index of the first occurrence of `pat` in `s`.
fn find_sub(s: &[char], pat: &[char]) -> (r: usize)
    ensures
        r == spec_find_sub(s@, pat@),
        r <= s@.len(),
    decreases s@.len(),
{
    if starts_with_chars(s, pat) {
        0
    } else if s.len() == 0 {
        0
    } else {
        1 + find_sub(vstd::slice::slice_subrange(s, 1, s.len()), pat)
    }
}

/// The string value after the first `pat` marker.
fn string_field(body: &[char], pat: &[char]) -> (r: Option<String>)
    ensures
        match r {
            Some(v) => spec_string_field(body@, pat@) == Some(v@),
            None => spec_string_field(body@, pat@) is None,
        },
{
    let i = find_sub(body, pat);
    if pat.len() <= body.len() - i {
        match crate::codec::parse_string_chars(
            vstd::slice::slice_subrange(body, i + pat.len(), body.len()),
        ) {
            Some((v, _)) => Some(text::chars_to_string(&v)),
            None => None,
        }
    } else {
        None
    }
}

/// The number after the first `pat` marker.
fn u64_field(body: &[char], pat: &[char]) -> (r: Option<u64>)
    ensures
        r == spec_u64_field(body@, pat@),
{
    let i = find_sub(body, pat);
    if pat.len() <= body.len() - i {
        match crate::codec::parse_number(
            vstd::slice::slice_subrange(body, i + pat.len(), body.len()),
        ) {
            Some((v, _)) => Some(v),
            None => None,
        }
    } else {
        None
    }
}

/// Read the token endpoint's compact JSON response: the access token is
/// required, the refresh token and the lifetime are carried when the
/// provider sent them.
pub fn token_payload_of_response(body: &str) -> (r: Option<TokenPayload>)
    ensures
        match (r, spec_token_payload(body@)) {
            (Some(p), Some((at, rt, ei))) => {
                &&& p.access_token@ == at
                &&& match (p.refresh_token, rt) {
                    (Some(a), Some(b)) => a@ == b,
                    (None, None) => true,
                    _ => false,
                }
                &&& p.expires_in == ei
            },
            (None, None) => true,
            _ => false,
        },
{
    let chars = text::string_to_chars(body);
    let at_pat = text::string_to_chars("\"access_token\":\"");
    let access_token = match string_field(chars.as_slice(), at_pat.as_slice()) {
        None => {
            return None;
        },
        Some(v) => v,
    };
    let rt_pat = text::string_to_chars("\"refresh_token\":\"");
    let refresh_token = string_field(chars.as_slice(), rt_pat.as_slice());
    let ei_pat = text::string_to_chars("\"expires_in\":");
    let expires_in = u64_field(chars.as_slice(), ei_pat.as_slice());
    Some(TokenPayload { access_token, refresh_token, expires_in })
}

/// The authorization URL built for one challenge.
pub open spec fn spec_authorize_url(
    client: SpotOauthClient,
    csrf: Seq<char>,
    challenge: Seq<char>,
) -> Seq<char> {
    client.auth_url@ + "?response_type=code&client_id="@ + query::spec_percent_encode(
        client.client_id@,
    ) + "&state="@ + query::spec_percent_encode(csrf) + "&code_challenge="@
        + query::spec_percent_encode(challenge) + "&code_challenge_method=S256&redirect_uri="@
        + query::spec_percent_encode(client.redirect_uri@) + "&scope="@ + query::spec_percent_encode(
        query::spec_spaces_for_commas(client.scopes@),
    )
}

/// How long to sleep before the next refresh.
pub fn refresh_delay(expiry: Option<u64>, now: u64) -> (r: u64)
    ensures
        r == spec_refresh_delay(expiry, now),
{
    let dur: u64 = match expiry {
        Some(e) => if e >= now {
            e - now
        } else {
            120
        },
        None => 120,
    };
    if dur >= 10 {
        dur - 10
    } else {
        0
    }
}

/// The expiry instant for a token obtained at `now`.
pub fn new_expiry(now: u64, expires_in: Option<u64>) -> (r: u64)
    ensures
        r == spec_new_expiry(now, expires_in),
{
    let d: u64 = match expires_in {
        Some(d) => d,
        None => 3600,
    };
    if now <= u64::MAX - d {
        now + d
    } else {
        u64::MAX
    }
}

/// The fixed HTTP response the listener writes back to the browser: a 200
/// status line, the content length in bytes, a blank line, and the page.
pub fn confirmation_response(body: &str) -> (r: String)
    ensures
        r@ == "HTTP/1.1 200 OK\r\ncontent-length: "@ + text::spec_dec_of(
            (body.spec_bytes().len() as usize) as int,
        ) + "\r\n\r\n"@ + body@,
{
    let mut out: Vec<char> = Vec::new();
    let mut part = text::string_to_chars("HTTP/1.1 200 OK\r\ncontent-length: ");
    out.append(&mut part);
    let len: usize = body.len();
    let mut part = text::dec_chars_of(len as u64);
    out.append(&mut part);
    let mut part = text::string_to_chars("\r\n\r\n");
    out.append(&mut part);
    let mut part = text::string_to_chars(body);
    out.append(&mut part);
    proof {
        assert(out@ =~= "HTTP/1.1 200 OK\r\ncontent-length: "@ + text::spec_dec_of(
            (body.spec_bytes().len() as usize) as int,
        ) + "\r\n\r\n"@ + body@);
    }
    text::chars_to_string(&out)
}

} // verus!
