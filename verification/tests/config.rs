use streamchat::config::auth_payload_with_expiry;
use std::time::{Duration, Instant};
use streamchat::config::{
    auth_payload_from_response, AccessTokenResponse, AppConfig, AppData, AuthPlan, TwitchAuthPayload,
};
use streamchat::message::UserMessage;

#[test]
fn config_paths() {
    assert_eq!(AppData::get_directory("/home/me"), "/home/me/.streamchat");
    assert_eq!(AppData::get_api_config_filepath("/home/me"), "/home/me/.streamchat/api.toml");
    assert_eq!(AppData::get_app_config_filepath("/home/me"), "/home/me/.streamchat/config.toml");
}

#[test]
fn token_response() {
    let now = Instant::now();
    let ok = auth_payload_from_response(
        AccessTokenResponse { access_token: "a".into(), refresh_token: "r".into(), expires_in: 60 },
        now,
    );
    let p = ok.unwrap().unwrap();
    assert_eq!(p.access_token, "a");
    assert_eq!(p.refresh_token, "r");
    assert_eq!(p.expiration_timestamp, now + Duration::from_secs(60));
    let empty = auth_payload_from_response(
        AccessTokenResponse { access_token: "".into(), refresh_token: "r".into(), expires_in: 60 },
        now,
    );
    assert!(matches!(empty, Ok(None)));
    let empty = auth_payload_from_response(
        AccessTokenResponse { access_token: "a".into(), refresh_token: "".into(), expires_in: 60 },
        now,
    );
    assert!(matches!(empty, Ok(None)));
}

#[test]
fn auth_plans() {
    let now = Instant::now();
    let mut c = AppConfig { twitch_auth: None };
    assert!(matches!(c.plan_auth(now), AuthPlan::RequestNewToken));
    c.store_auth(None);
    assert!(c.twitch_auth.is_none());
    let expiry = now + Duration::from_secs(60);
    c.store_auth(Some(TwitchAuthPayload {
        access_token: "a".into(),
        refresh_token: "r1".into(),
        expiration_timestamp: expiry,
    }));
    assert!(matches!(c.plan_auth(now), AuthPlan::UseCachedToken));
    assert!(matches!(c.plan_auth(expiry), AuthPlan::RefreshToken(ref t) if t == "r1"));
    assert!(matches!(
        c.plan_auth(expiry + Duration::from_secs(1)),
        AuthPlan::RefreshToken(ref t) if t == "r1"
    ));
    let copy = c.clone();
    assert_eq!(copy.twitch_auth.unwrap().refresh_token, "r1");
}

#[test]
fn user_message_copies_its_fields() {
    let t = Instant::now();
    let m = UserMessage::new("id", "name", "text", "bid", "bname", t);
    assert_eq!(m.user_id, "id");
    assert_eq!(m.username, "name");
    assert_eq!(m.message, "text");
    assert_eq!(m.broadcast_id, "bid");
    assert_eq!(m.broadcaster_name, "bname");
    assert_eq!(m.timestamp, t);
}

#[test]
fn token_response_with_given_expiry() {
    let t = Instant::now();
    let r = auth_payload_with_expiry(
        AccessTokenResponse { access_token: "a".into(), refresh_token: "r".into(), expires_in: 1 },
        Some(t),
    );
    assert_eq!(r.unwrap().unwrap().expiration_timestamp, t);
    let r = auth_payload_with_expiry(
        AccessTokenResponse { access_token: "a".into(), refresh_token: "r".into(), expires_in: 1 },
        None,
    );
    assert!(r.is_err());
    let r = auth_payload_with_expiry(
        AccessTokenResponse { access_token: "".into(), refresh_token: "r".into(), expires_in: 1 },
        None,
    );
    assert!(matches!(r, Ok(None)));
}
