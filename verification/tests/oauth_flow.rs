//! The OAuth pieces on their own: redirect URI validation, callback
//! parsing, token decisions, refresh outcomes and URL building.

use riff_player::credentials::Credentials;
use riff_player::oauth::{
    parse_query, AuthChallenge, OAuthError, SpotOauthClient, TokenDecision, TokenPayload,
    AUTHORIZE_ENDPOINT, CLIENT_ID, SCOPES,
};
use riff_player::oauth::confirmation_response;
use riff_player::redirect_uri::{get_socket_address, HostAddress, SocketAddress};
use riff_player::token_store::TokenStore;

fn record(expiry: Option<u64>) -> Credentials {
    Credentials {
        username: "alice".to_string(),
        access_token: "access".to_string(),
        refresh_token: "refresh".to_string(),
        token_expiry_time: expiry,
    }
}

fn client_with(expiry: Option<u64>) -> SpotOauthClient {
    let mut store = TokenStore::new();
    store.set(record(expiry));
    SpotOauthClient::new(store)
}

#[test]
fn get_socket_address_none() {
    // No port
    assert_eq!(get_socket_address("http://127.0.0.1/foo"), None);
    assert_eq!(get_socket_address("http://127.0.0.1:/foo"), None);
    assert_eq!(get_socket_address("http://[::1]/foo"), None);
    // Not localhost
    assert_eq!(get_socket_address("http://56.0.0.1:1234/foo"), None);
    assert_eq!(
        get_socket_address("http://[3ffe:2a00:100:7031::1]:1234/foo"),
        None
    );
    // Not http
    assert_eq!(get_socket_address("https://127.0.0.1/foo"), None);
}

#[test]
fn get_socket_address_localhost() {
    let localhost_v4 = SocketAddress {
        ip: HostAddress::V4(127, 0, 0, 1),
        port: 1234,
    };
    let localhost_v6 = SocketAddress {
        ip: HostAddress::V6(0, 0, 0, 0, 0, 0, 0, 1),
        port: 8888,
    };

    assert_eq!(
        get_socket_address("http://127.0.0.1:1234/foo"),
        Some(localhost_v4)
    );
    assert_eq!(
        get_socket_address("http://[0:0:0:0:0:0:0:1]:8888/foo"),
        Some(localhost_v6)
    );
    assert_eq!(
        get_socket_address("http://[::1]:8888/foo"),
        Some(localhost_v6)
    );
}

#[test]
fn fixed_redirect_uri_is_accepted() {
    assert_eq!(
        get_socket_address(riff_player::oauth::REDIRECT_URI),
        Some(SocketAddress {
            ip: HostAddress::V4(127, 0, 0, 1),
            port: 8898,
        })
    );
}

#[test]
fn parse_query_extracts_state_and_code() {
    let r = parse_query("GET /login?state=XYZ&code=ABC HTTP/1.1").unwrap();
    assert_eq!(r.csrf_token, "XYZ");
    assert_eq!(r.code, "ABC");
}

#[test]
fn parse_query_missing_state_fails() {
    assert_eq!(
        parse_query("GET /login?code=ABC HTTP/1.1"),
        Err(OAuthError::CsrfTokenNotFound)
    );
}

#[test]
fn parse_query_missing_code_fails() {
    assert_eq!(
        parse_query("GET /login?state=XYZ HTTP/1.1"),
        Err(OAuthError::AuthCodeNotFound)
    );
}

#[test]
fn parse_query_without_query_fails() {
    assert_eq!(
        parse_query("GET /login HTTP/1.1"),
        Err(OAuthError::AuthCodeListenerParse)
    );
    assert_eq!(parse_query(""), Err(OAuthError::AuthCodeListenerParse));
}

#[test]
fn parse_query_form_decodes_values() {
    let r = parse_query("GET /login?state=a+b%21&code=x%2Fy HTTP/1.1").unwrap();
    assert_eq!(r.csrf_token, "a b!");
    assert_eq!(r.code, "x/y");
}

#[test]
fn parse_query_last_duplicate_key_wins() {
    let r = parse_query("GET /login?state=first&code=c&state=second HTTP/1.1").unwrap();
    assert_eq!(r.csrf_token, "second");
}

#[test]
fn get_token_rejects_mismatched_state() {
    let client = client_with(Some(1000));
    let challenge = AuthChallenge {
        auth_url: "unused".to_string(),
        pkce_verifier: "ver".to_string(),
        csrf_token: "EXPECTED".to_string(),
    };
    assert_eq!(
        client.get_token(&challenge, "GET /login?state=OTHER&code=ABC HTTP/1.1"),
        Err(OAuthError::InvalidState)
    );
    assert_eq!(
        client.get_token(&challenge, "GET /login?state=EXPECTED&code=ABC HTTP/1.1"),
        Ok("ABC".to_string())
    );
}

#[test]
fn valid_token_is_used_without_refresh() {
    // Expiry strictly in the future: no refresh is asked for.
    let mut client = client_with(Some(1000));
    match client.get_valid_token(None, 999) {
        Ok(TokenDecision::Use(c)) => assert_eq!(c.access_token, "access"),
        other => panic!("expected Use, got {:?}", other),
    }
    // Not yet strictly past the expiry: still valid.
    let mut client = client_with(Some(1000));
    assert!(matches!(
        client.get_valid_token(None, 1000),
        Ok(TokenDecision::Use(_))
    ));
}

#[test]
fn expired_token_asks_for_one_refresh() {
    let mut client = client_with(Some(1000));
    match client.get_valid_token(None, 1001) {
        Ok(TokenDecision::Refresh(c)) => assert_eq!(c.refresh_token, "refresh"),
        other => panic!("expected Refresh, got {:?}", other),
    }
    // A record without an expiry counts as expired.
    let mut client = client_with(None);
    assert!(matches!(
        client.get_valid_token(None, 0),
        Ok(TokenDecision::Refresh(_))
    ));
}

#[test]
fn missing_token_is_logged_out() {
    let mut client = SpotOauthClient::new(TokenStore::new());
    assert!(matches!(
        client.get_valid_token(None, 5),
        Err(OAuthError::LoggedOut)
    ));
    // A record read from the secret store populates the cache.
    let mut client = SpotOauthClient::new(TokenStore::new());
    assert!(matches!(
        client.get_valid_token(Some(record(Some(10))), 5),
        Ok(TokenDecision::Use(_))
    ));
    assert!(client.token_store.get_cached().is_some());
}

#[test]
fn refresh_failure_clears_the_store() {
    let mut client = client_with(Some(1000));
    let r = client.refresh_token(record(Some(1000)), Err("boom".to_string()), 2000);
    assert_eq!(r, Err(OAuthError::NoRefreshToken));
    assert!(client.token_store.get_cached().is_none());
}

#[test]
fn refresh_without_refresh_token_fails_and_keeps_store() {
    let mut client = client_with(Some(1000));
    let payload = TokenPayload {
        access_token: "new-access".to_string(),
        refresh_token: None,
        expires_in: Some(60),
    };
    let r = client.refresh_token(record(Some(1000)), Ok(payload), 2000);
    assert_eq!(r, Err(OAuthError::NoRefreshToken));
    assert!(client.token_store.get_cached().is_some());
}

#[test]
fn refresh_success_builds_and_caches_the_new_record() {
    let mut client = client_with(Some(1000));
    let payload = TokenPayload {
        access_token: "new-access".to_string(),
        refresh_token: Some("new-refresh".to_string()),
        expires_in: Some(60),
    };
    let r = client.refresh_token(record(Some(1000)), Ok(payload), 2000).unwrap();
    assert_eq!(r.username, "alice");
    assert_eq!(r.access_token, "new-access");
    assert_eq!(r.refresh_token, "new-refresh");
    assert_eq!(r.token_expiry_time, Some(2060));
    assert_eq!(client.token_store.get_cached(), Some(r));
}

#[test]
fn refresh_defaults_to_one_hour_lifetime() {
    let mut client = client_with(Some(1000));
    let payload = TokenPayload {
        access_token: "a".to_string(),
        refresh_token: Some("r".to_string()),
        expires_in: None,
    };
    let r = client.refresh_token(record(Some(1000)), Ok(payload), 100).unwrap();
    assert_eq!(r.token_expiry_time, Some(3700));
}

#[test]
fn exchange_outcome_keeps_provider_words() {
    let mut client = client_with(Some(1000));
    let r = client.complete_exchange(Err("bad grant".to_string()), 0);
    assert_eq!(
        r,
        Err(OAuthError::ExchangeCode {
            e: "bad grant".to_string()
        })
    );
}

#[test]
fn refresh_delay_stops_ten_seconds_early() {
    let client = client_with(Some(1000));
    assert_eq!(client.refresh_token_at_expiry(0), Ok(990));
    // Less than ten seconds out: refresh immediately.
    let client = client_with(Some(1000));
    assert_eq!(client.refresh_token_at_expiry(995), Ok(0));
    // Already past, or no expiry: two minutes, less the margin.
    let client = client_with(Some(1000));
    assert_eq!(client.refresh_token_at_expiry(2000), Ok(110));
    let client = client_with(None);
    assert_eq!(client.refresh_token_at_expiry(0), Ok(110));
    // Nothing cached: nothing to renew.
    let client = SpotOauthClient::new(TokenStore::new());
    assert_eq!(client.refresh_token_at_expiry(0), Err(OAuthError::NoRefreshToken));
}

#[test]
fn authorize_url_carries_every_parameter() {
    let client = client_with(None);
    let url = client.build_authorize_url("st", "ch");
    let expected = format!(
        "{}?response_type=code&client_id={}&state=st&code_challenge=ch&code_challenge_method=S256&redirect_uri=http%3A%2F%2F127.0.0.1%3A8898%2Flogin&scope={}",
        AUTHORIZE_ENDPOINT,
        CLIENT_ID,
        SCOPES.replace(',', "%20"),
    );
    assert_eq!(url, expected);
}

#[test]
fn token_response_fields_are_extracted() {
    let body = "{\"access_token\":\"AT\",\"token_type\":\"Bearer\",\"expires_in\":3600,\"refresh_token\":\"RT\",\"scope\":\"streaming\"}";
    let p = riff_player::oauth::token_payload_of_response(body).unwrap();
    assert_eq!(p.access_token, "AT");
    assert_eq!(p.refresh_token, Some("RT".to_string()));
    assert_eq!(p.expires_in, Some(3600));
    // The refresh token and lifetime are optional; the access token is not.
    let p = riff_player::oauth::token_payload_of_response("{\"access_token\":\"A\"}").unwrap();
    assert_eq!(p.refresh_token, None);
    assert_eq!(p.expires_in, None);
    assert_eq!(
        riff_player::oauth::token_payload_of_response("{\"error\":\"invalid_grant\"}"),
        None
    );
}

#[test]
fn confirmation_response_counts_bytes() {
    assert_eq!(
        confirmation_response("hi"),
        "HTTP/1.1 200 OK\r\ncontent-length: 2\r\n\r\nhi"
    );
    assert_eq!(
        confirmation_response(""),
        "HTTP/1.1 200 OK\r\ncontent-length: 0\r\n\r\n"
    );
}
