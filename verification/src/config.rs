use crate::clock::{
    duration_from_secs, instant_after, instant_at_or_after, instant_checked_add, instant_reached,
    secs_duration,
};
use crate::text::concat_str;
use std::time::Instant;
use vstd::prelude::*;

verus! {

/// The user's Twitch credentials and when the access token expires.
#[derive(Debug)]
pub struct TwitchAuthPayload {
    pub access_token: String,
    pub refresh_token: String,
    pub expiration_timestamp: Instant,
}

/// The application's saved state.
#[derive(Debug)]
pub struct AppConfig {
    pub twitch_auth: Option<TwitchAuthPayload>,
}

/// The Twitch application's client credentials.
#[derive(Debug)]
pub struct ApiConfig {
    pub twitch_api_client_id: String,
    pub twitch_api_secret: String,
}

impl Clone for TwitchAuthPayload {
    fn clone(&self) -> (r: Self)
        ensures
            r == *self,
    {
        TwitchAuthPayload {
            access_token: self.access_token.clone(),
            refresh_token: self.refresh_token.clone(),
            expiration_timestamp: self.expiration_timestamp.clone(),
        }
    }
}

impl Clone for AppConfig {
    fn clone(&self) -> (r: Self)
        ensures
            r == *self,
    {
        let twitch_auth = match &self.twitch_auth {
            Some(a) => Some(a.clone()),
            None => None,
        };
        AppConfig { twitch_auth }
    }
}

impl Clone for ApiConfig {
    fn clone(&self) -> (r: Self)
        ensures
            r == *self,
    {
        ApiConfig {
            twitch_api_client_id: self.twitch_api_client_id.clone(),
            twitch_api_secret: self.twitch_api_secret.clone(),
        }
    }
}

/// Where the application keeps its files.
pub struct AppData;

impl AppData {
    /// The application's directory under the user's home directory.
    pub fn get_directory(home_path: &str) -> (r: String)
        ensures
            r@ == home_path@ + "/.streamchat"@,
    {
        concat_str(home_path, "/.streamchat")
    }

    /// The file that holds the Twitch client credentials.
    pub fn get_api_config_filepath(home_path: &str) -> (r: String)
        ensures
            r@ == home_path@ + "/.streamchat"@ + "/api.toml"@,
    {
        let dir = Self::get_directory(home_path);
        concat_str(dir.as_str(), "/api.toml")
    }

    /// The file that holds the application's saved state.
    pub fn get_app_config_filepath(home_path: &str) -> (r: String)
        ensures
            r@ == home_path@ + "/.streamchat"@ + "/config.toml"@,
    {
        let dir = Self::get_directory(home_path);
        concat_str(dir.as_str(), "/config.toml")
    }
}

/// The fields of Twitch's answer to a token request that the application reads.
#[derive(Debug)]
pub struct AccessTokenResponse {
    pub access_token: String,
    pub refresh_token: String,
    /// Seconds until the access token expires.
    pub expires_in: u64,
}

/// The expiry time of a token cannot be represented as an instant.
#[derive(Debug)]
pub struct ExpiryOverflow;

/// What to do about the user's Twitch access token at start-up.
#[derive(Debug)]
pub enum AuthPlan {
    /// No token is saved: ask the user to authorize the application.
    RequestNewToken,
    /// The saved token has expired: trade this refresh token for a new one.
    RefreshToken(String),
    /// The saved token is still valid.
    UseCachedToken,
}

/// The credentials that a token response grants, given the instant at which
/// the access token expires (`None` when that instant cannot be
/// represented): none when either token is empty.
pub fn auth_payload_with_expiry(response: AccessTokenResponse, expiry: Option<Instant>) -> (r:
    Result<Option<TwitchAuthPayload>, ExpiryOverflow>)
    ensures
        (response.access_token@.len() == 0 || response.refresh_token@.len() == 0) ==> r
            matches Ok(None),
        (response.access_token@.len() > 0 && response.refresh_token@.len() > 0) ==> match expiry {
            Some(t) => r == Ok::<Option<TwitchAuthPayload>, ExpiryOverflow>(
                Some(
                    TwitchAuthPayload {
                        access_token: response.access_token,
                        refresh_token: response.refresh_token,
                        expiration_timestamp: t,
                    },
                ),
            ),
            None => r is Err,
        },
{
    if response.access_token.as_str().is_empty() || response.refresh_token.as_str().is_empty() {
        return Ok(None);
    }
    match expiry {
        Some(expiration_timestamp) => Ok(
            Some(
                TwitchAuthPayload {
                    access_token: response.access_token,
                    refresh_token: response.refresh_token,
                    expiration_timestamp,
                },
            ),
        ),
        None => Err(ExpiryOverflow),
    }
}

/// The credentials that a token response grants, expiring `expires_in`
/// seconds after `now`: none when either token is empty. When both tokens
/// are present the result is that of `auth_payload_with_expiry` for the
/// instant that `Instant::checked_add` computes; when the platform cannot
/// represent that instant is not stated.
pub fn auth_payload_from_response(response: AccessTokenResponse, now: Instant) -> (r: Result<
    Option<TwitchAuthPayload>,
    ExpiryOverflow,
>)
    ensures
        (response.access_token@.len() == 0 || response.refresh_token@.len() == 0) ==> r
            matches Ok(None),
        (response.access_token@.len() > 0 && response.refresh_token@.len() > 0) ==> match r {
            Ok(Some(p)) => p.access_token == response.access_token && p.refresh_token
                == response.refresh_token && p.expiration_timestamp == instant_after(
                now,
                secs_duration(response.expires_in),
            ),
            Ok(None) => false,
            Err(_) => true,
        },
{
    if response.access_token.as_str().is_empty() || response.refresh_token.as_str().is_empty() {
        return Ok(None);
    }
    let expiry = instant_checked_add(now, duration_from_secs(response.expires_in));
    auth_payload_with_expiry(response, expiry)
}

/// The plan for a configuration at `now`: get a token when none is saved,
/// refresh it when `now` has reached its expiry, use it otherwise.
pub open spec fn plan_auth_result(c: AppConfig, now: Instant, r: AuthPlan) -> bool {
    match c.twitch_auth {
        None => r is RequestNewToken,
        Some(a) => if instant_reached(now, a.expiration_timestamp) {
            r matches AuthPlan::RefreshToken(t) && t@ == a.refresh_token@
        } else {
            r is UseCachedToken
        },
    }
}

impl AppConfig {
    /// What to do about the access token at `now`: get one when none is
    /// saved, refresh it once it has expired, use it otherwise.
    pub fn plan_auth(&self, now: Instant) -> (r: AuthPlan)
        ensures
            plan_auth_result(*self, now, r),
    {
        match &self.twitch_auth {
            None => AuthPlan::RequestNewToken,
            Some(a) => if instant_at_or_after(now, a.expiration_timestamp) {
                AuthPlan::RefreshToken(a.refresh_token.clone())
            } else {
                AuthPlan::UseCachedToken
            },
        }
    }

    /// Keeps newly granted credentials; keeps the old ones when none were granted.
    pub fn store_auth(&mut self, granted: Option<TwitchAuthPayload>)
        ensures
            match granted {
                Some(p) => final(self).twitch_auth == Some(p),
                None => *final(self) == *old(self),
            },
    {
        match granted {
            Some(p) => {
                self.twitch_auth = Some(p);
            },
            None => {},
        }
    }
}

} // verus!
