use crate::text::{concat_str, equals};
use vstd::prelude::*;
use vstd::utf8::encode_utf8;

verus! {

/// The port of the local server that receives Twitch's authorization callback.
pub const AUTH_SERVER_PORT: u16 = 7890;

/// The code that the local server answers a ping with, to show it is ours.
pub const AUTH_SERVER_SECRET_CODE: u32 = 204;

/// A byte that URL encoding leaves as it is: an ASCII letter or digit, or
/// one of `-`, `.`, `_`, `~`.
pub open spec fn is_unreserved(b: u8) -> bool {
    (48 <= b <= 57) || (65 <= b <= 90) || (97 <= b <= 122) || b == 45 || b == 46 || b == 95
        || b == 126
}

/// The uppercase hexadecimal digit for a value below 16.
pub open spec fn hex_digit(d: u8) -> char {
    if d < 10 {
        (48 + d) as char
    } else {
        (55 + d) as char
    }
}

/// Percent-encoding of a byte sequence: unreserved bytes stay, every other
/// byte becomes `%` and two uppercase hexadecimal digits.
pub open spec fn percent_encode(bs: Seq<u8>) -> Seq<char>
    decreases bs.len(),
{
    if bs.len() == 0 {
        Seq::empty()
    } else {
        let b = bs[0];
        (if is_unreserved(b) {
            seq![b as char]
        } else {
            seq!['%', hex_digit(b / 16), hex_digit(b % 16)]
        }) + percent_encode(bs.drop_first())
    }
}

/// `urlencoding::encode`: percent-encodes every byte of the UTF-8 encoding
/// of `s` except ASCII letters, digits and `-`, `.`, `_`, `~`.
#[verifier::external_body]
fn url_encode(s: &str) -> (r: String)
    ensures
        r@ == percent_encode(encode_utf8(s@)),
{
    urlencoding::encode(s).into_owned()
}

/// The local server's address.
pub fn server_url() -> (r: String)
    ensures
        r@ == "http://localhost:7890"@,
{
    String::from_str("http://localhost:7890")
}

/// The address that Twitch sends the user back to after authorization.
pub fn redirect_uri() -> (r: String)
    ensures
        r@ == "http://localhost:7890"@ + "/twitch_auth_callback"@,
{
    let base = server_url();
    concat_str(base.as_str(), "/twitch_auth_callback")
}

/// The address of the local server's ping endpoint.
pub fn ping_url() -> (r: String)
    ensures
        r@ == "http://localhost:7890"@ + "/ping"@,
{
    let base = server_url();
    concat_str(base.as_str(), "/ping")
}

/// What the local server answers a ping with.
pub fn ping_response_text() -> (r: String)
    ensures
        r@ == "PONG 204"@,
{
    String::from_str("PONG 204")
}

/// Whether a ping answer is the local server's.
pub fn ping_body_valid(body: &str) -> (r: bool)
    ensures
        r == (body@ == "PONG 204"@),
{
    equals(body, "PONG 204")
}

/// The permissions requested: reading and writing chat, space-separated.
pub open spec fn scopes_text() -> Seq<char> {
    "user:read:chat"@ + " "@ + "user:write:chat"@
}

/// The requested permissions, URL-encoded.
pub fn encoded_scopes() -> (r: String)
    ensures
        r@ == percent_encode(encode_utf8(scopes_text())),
{
    let read = concat_str("user:read:chat", " ");
    let joined = concat_str(read.as_str(), "user:write:chat");
    let r = url_encode(joined.as_str());
    assert(joined@ == scopes_text());
    r
}

/// The address that asks the user to authorize the application.
pub fn authorize_url(client_id: &str, redirect: &str, scope: &str, state: &str) -> (r: String)
    ensures
        r@ == "https://id.twitch.tv/oauth2/authorize?response_type=code&client_id="@ + client_id@
            + "&redirect_uri="@ + redirect@ + "&scope="@ + scope@ + "&state="@ + state@,
{
    let a = concat_str("https://id.twitch.tv/oauth2/authorize?response_type=code&client_id=", client_id);
    let b = concat_str(a.as_str(), "&redirect_uri=");
    let c = concat_str(b.as_str(), redirect);
    let d = concat_str(c.as_str(), "&scope=");
    let e = concat_str(d.as_str(), scope);
    let f = concat_str(e.as_str(), "&state=");
    concat_str(f.as_str(), state)
}

/// How the local server answers Twitch's callback.
#[derive(Debug)]
pub enum CallbackOutcome {
    /// Answer with this text; no code was obtained.
    Reply(String),
    /// The user authorized the application: this is the authorization code.
    Authorized(String),
}

/// The page shown once the authorization code has been received.
pub fn auth_success_page() -> (r: String)
    ensures
        r@ == "Auth successful, return to app."@,
{
    String::from_str("Auth successful, return to app.")
}

/// Checks Twitch's callback: its `state` must be the one sent with the
/// request, and it must carry a `code`.
pub fn callback_outcome(state_param: Option<&str>, expected_state: &str, code: Option<&str>) -> (r:
    CallbackOutcome)
    ensures
        match state_param {
            None => r matches CallbackOutcome::Reply(t) && t@ == "Failed to acquire state."@,
            Some(s) => if s@ != expected_state@ {
                r matches CallbackOutcome::Reply(t) && t@ == "Invalid state received... expected="@
                    + expected_state@ + " actual="@ + s@
            } else {
                match code {
                    None => r matches CallbackOutcome::Reply(t) && t@
                        == "Failed to authenticate user..."@,
                    Some(c) => r matches CallbackOutcome::Authorized(a) && a@ == c@,
                }
            },
        },
{
    match state_param {
        None => CallbackOutcome::Reply(String::from_str("Failed to acquire state.")),
        Some(s) => {
            if !equals(s, expected_state) {
                let a = concat_str("Invalid state received... expected=", expected_state);
                let b = concat_str(a.as_str(), " actual=");
                CallbackOutcome::Reply(concat_str(b.as_str(), s))
            } else {
                match code {
                    None => CallbackOutcome::Reply(
                        String::from_str("Failed to authenticate user..."),
                    ),
                    Some(c) => CallbackOutcome::Authorized(String::from_str(c)),
                }
            }
        },
    }
}

/// One field of a form body.
#[derive(Debug)]
pub struct FormField {
    pub key: String,
    pub value: String,
}

/// The views of a form's fields.
pub open spec fn form_view(f: Seq<FormField>) -> Seq<(Seq<char>, Seq<char>)> {
    f.map_values(|x: FormField| (x.key@, x.value@))
}

fn field(key: &str, value: &str) -> (r: FormField)
    ensures
        r.key@ == key@,
        r.value@ == value@,
{
    FormField { key: String::from_str(key), value: String::from_str(value) }
}

/// The form that trades a refresh token for a new access token.
pub fn refresh_token_form(refresh_token: &str, client_id: &str, client_secret: &str) -> (r: Vec<
    FormField,
>)
    ensures
        form_view(r@) == seq![
            ("grant_type"@, "refresh_token"@),
            ("refresh_token"@, refresh_token@),
            ("client_id"@, client_id@),
            ("client_secret"@, client_secret@),
        ],
{
    let mut r: Vec<FormField> = Vec::new();
    r.push(field("grant_type", "refresh_token"));
    r.push(field("refresh_token", refresh_token));
    r.push(field("client_id", client_id));
    r.push(field("client_secret", client_secret));
    assert(form_view(r@) =~= seq![
        ("grant_type"@, "refresh_token"@),
        ("refresh_token"@, refresh_token@),
        ("client_id"@, client_id@),
        ("client_secret"@, client_secret@),
    ]);
    r
}

/// The form that trades an authorization code for the user's tokens.
pub fn authorization_code_form(
    client_id: &str,
    client_secret: &str,
    code: &str,
    redirect: &str,
) -> (r: Vec<FormField>)
    ensures
        form_view(r@) == seq![
            ("client_id"@, client_id@),
            ("client_secret"@, client_secret@),
            ("code"@, code@),
            ("grant_type"@, "authorization_code"@),
            ("redirect_uri"@, redirect@),
        ],
{
    let mut r: Vec<FormField> = Vec::new();
    r.push(field("client_id", client_id));
    r.push(field("client_secret", client_secret));
    r.push(field("code", code));
    r.push(field("grant_type", "authorization_code"));
    r.push(field("redirect_uri", redirect));
    assert(form_view(r@) =~= seq![
        ("client_id"@, client_id@),
        ("client_secret"@, client_secret@),
        ("code"@, code@),
        ("grant_type"@, "authorization_code"@),
        ("redirect_uri"@, redirect@),
    ]);
    r
}

} // verus!
