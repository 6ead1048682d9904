use streamchat::oauth::{
    auth_success_page, authorization_code_form, authorize_url, callback_outcome, encoded_scopes,
    ping_body_valid, ping_response_text, ping_url, redirect_uri, refresh_token_form, server_url,
    CallbackOutcome, AUTH_SERVER_PORT, AUTH_SERVER_SECRET_CODE,
};

#[test]
fn local_server_addresses() {
    assert_eq!(server_url(), format!("http://localhost:{}", AUTH_SERVER_PORT));
    assert_eq!(redirect_uri(), "http://localhost:7890/twitch_auth_callback");
    assert_eq!(ping_url(), "http://localhost:7890/ping");
    assert_eq!(ping_response_text(), format!("PONG {}", AUTH_SERVER_SECRET_CODE));
    assert!(ping_body_valid("PONG 204"));
    assert!(!ping_body_valid("PONG 205"));
    assert_eq!(auth_success_page(), "Auth successful, return to app.");
}

#[test]
fn scopes_are_percent_encoded() {
    assert_eq!(encoded_scopes(), "user%3Aread%3Achat%20user%3Awrite%3Achat");
}

#[test]
fn authorize_address() {
    let url = authorize_url("cid", &redirect_uri(), &encoded_scopes(), "st8");
    assert_eq!(
        url,
        "https://id.twitch.tv/oauth2/authorize?response_type=code&client_id=cid\
         &redirect_uri=http://localhost:7890/twitch_auth_callback\
         &scope=user%3Aread%3Achat%20user%3Awrite%3Achat&state=st8"
    );
}

#[test]
fn callback_checks_state_then_code() {
    assert!(matches!(callback_outcome(None, "s", Some("c")), CallbackOutcome::Reply(ref t) if t == "Failed to acquire state."));
    assert!(matches!(callback_outcome(Some("x"), "s", Some("c")),
        CallbackOutcome::Reply(ref t) if t == "Invalid state received... expected=s actual=x"));
    assert!(matches!(callback_outcome(Some("s"), "s", None), CallbackOutcome::Reply(ref t) if t == "Failed to authenticate user..."));
    assert!(matches!(callback_outcome(Some("s"), "s", Some("c0de")), CallbackOutcome::Authorized(ref c) if c == "c0de"));
}

#[test]
fn token_forms() {
    let f = refresh_token_form("rt", "cid", "sec");
    let pairs: Vec<(String, String)> = f.into_iter().map(|x| (x.key, x.value)).collect();
    assert_eq!(pairs, vec![
        ("grant_type".to_string(), "refresh_token".to_string()),
        ("refresh_token".to_string(), "rt".to_string()),
        ("client_id".to_string(), "cid".to_string()),
        ("client_secret".to_string(), "sec".to_string()),
    ]);
    let f = authorization_code_form("cid", "sec", "code", "http://r");
    let keys: Vec<String> = f.iter().map(|x| x.key.clone()).collect();
    assert_eq!(keys, vec!["client_id", "client_secret", "code", "grant_type", "redirect_uri"]);
    assert_eq!(f[3].value, "authorization_code");
    assert_eq!(f[4].value, "http://r");
}
