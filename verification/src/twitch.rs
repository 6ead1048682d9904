use crate::config::{ApiConfig, AppConfig};
use crate::emotes::{EmoteDatabaseEnum, TwitchEmoteDatabase};
use crate::message::UserMessage;
use crate::json::{
    json_array_len, json_array_len_at, json_has, json_is_valid, json_parses, json_present, json_str,
    json_str_at, opt_view,
};
use crate::text::{concat_str, decimal, decimal_string, equals, lowercase_of, to_lowercase};
use std::time::Instant;
use vstd::prelude::*;

verus! {

/// The `Authorization` header value for an access token.
pub fn bearer_header(access_token: &str) -> (r: String)
    ensures
        r@ == "Bearer "@ + access_token@,
{
    concat_str("Bearer ", access_token)
}

/// The address that looks up a Twitch user by login name, or the signed-in
/// user when no name is given.
pub fn user_lookup_url(user_name: Option<&str>) -> (r: String)
    ensures
        r@ == match user_name {
            Some(n) => "https://api.twitch.tv/helix/users?login="@ + n@,
            None => "https://api.twitch.tv/helix/users"@,
        },
{
    match user_name {
        Some(n) => concat_str("https://api.twitch.tv/helix/users?login=", n),
        None => String::from_str("https://api.twitch.tv/helix/users"),
    }
}

/// Whether an HTTP status is 200 OK.
pub fn status_is_ok(status: u16) -> (r: bool)
    ensures
        r == (status == 200),
{
    status == 200
}

/// Whether Twitch accepted an event subscription: status 200 OK or 202 Accepted.
pub fn eventsub_status_accepted(status: u16) -> (r: bool)
    ensures
        r == (status == 200 || status == 202),
{
    status == 200 || status == 202
}

/// One user of Twitch's user lookup answer.
#[derive(Debug)]
pub struct UserIdEntry {
    pub id: String,
}

/// Twitch's user lookup answer.
#[derive(Debug)]
pub struct UserIdPayload {
    pub data: Vec<UserIdEntry>,
}

/// The id of the first user that a lookup answer lists, if any.
pub fn first_user_id(payload: &UserIdPayload) -> (r: Option<String>)
    ensures
        match r {
            Some(id) => payload.data@.len() > 0 && id@ == payload.data@[0].id@,
            None => payload.data@.len() == 0,
        },
{
    if payload.data.len() == 0 {
        None
    } else {
        Some(payload.data[0].id.clone())
    }
}

/// The session part of a message of Twitch's event websocket.
#[derive(Debug)]
pub struct SessionWelcome {
    pub status: Option<String>,
    pub id: Option<String>,
}

/// What a websocket message tells about the session.
#[derive(Debug)]
pub enum SessionStep {
    /// The session is connected, with this id.
    Connected(String),
    /// The session reports another status; keep waiting.
    InvalidStatus(String),
    /// The message reports no status; keep waiting.
    NoStatus,
    /// The session is connected but the message names no session id.
    MissingSessionId,
}

/// Reads the session status of a websocket message: a `connected` status
/// ends the wait with the session id.
pub fn session_step(w: &SessionWelcome) -> (r: SessionStep)
    ensures
        match w.status {
            None => r is NoStatus,
            Some(s) => if s@ == "connected"@ {
                match w.id {
                    Some(id) => r matches SessionStep::Connected(i) && i@ == id@,
                    None => r is MissingSessionId,
                }
            } else {
                r matches SessionStep::InvalidStatus(t) && t@ == s@
            },
        },
{
    match &w.status {
        None => SessionStep::NoStatus,
        Some(s) => {
            if equals(s.as_str(), "connected") {
                match &w.id {
                    Some(id) => SessionStep::Connected(id.clone()),
                    None => SessionStep::MissingSessionId,
                }
            } else {
                SessionStep::InvalidStatus(s.clone())
            }
        },
    }
}

/// The session part of a message of Twitch's event websocket: the status
/// and id found at `/payload/session/status` and `/payload/session/id`;
/// none when the message is not JSON.
pub fn session_welcome_from_text(text: &str) -> (r: Option<SessionWelcome>)
    ensures
        r is Some <==> json_parses(text@),
        r matches Some(w) ==> opt_view(w.status) == json_str_at(text@, "/payload/session/status"@)
            && opt_view(w.id) == json_str_at(text@, "/payload/session/id"@),
{
    if !json_is_valid(text) {
        return None;
    }
    Some(
        SessionWelcome {
            status: json_str(text, "/payload/session/status"),
            id: json_str(text, "/payload/session/id"),
        },
    )
}

/// The event part of a chat message notification.
#[derive(Debug)]
pub struct ChatEvent {
    pub chatter_user_name: Option<String>,
    pub chatter_user_id: Option<String>,
    pub broadcaster_user_id: Option<String>,
    pub broadcaster_user_name: Option<String>,
    pub message_text: Option<String>,
}

/// The event part of a chat message notification: the strings found under
/// `/payload/event`; none when the notification is not JSON.
pub fn chat_event_from_text(text: &str) -> (r: Option<ChatEvent>)
    ensures
        r is Some <==> json_parses(text@),
        r matches Some(ev) ==> {
            &&& opt_view(ev.chatter_user_name) == json_str_at(
                text@,
                "/payload/event/chatter_user_name"@,
            )
            &&& opt_view(ev.chatter_user_id) == json_str_at(text@, "/payload/event/chatter_user_id"@)
            &&& opt_view(ev.broadcaster_user_id) == json_str_at(
                text@,
                "/payload/event/broadcaster_user_id"@,
            )
            &&& opt_view(ev.broadcaster_user_name) == json_str_at(
                text@,
                "/payload/event/broadcaster_user_name"@,
            )
            &&& opt_view(ev.message_text) == json_str_at(text@, "/payload/event/message/text"@)
        },
{
    if !json_is_valid(text) {
        return None;
    }
    Some(
        ChatEvent {
            chatter_user_name: json_str(text, "/payload/event/chatter_user_name"),
            chatter_user_id: json_str(text, "/payload/event/chatter_user_id"),
            broadcaster_user_id: json_str(text, "/payload/event/broadcaster_user_id"),
            broadcaster_user_name: json_str(text, "/payload/event/broadcaster_user_name"),
            message_text: json_str(text, "/payload/event/message/text"),
        },
    )
}

/// The chat message that a notification carries, received at `now`: only
/// when it names the chatter, the chatter's id, the text and the
/// broadcaster's id and name; the broadcaster name is lowercased.
pub fn chat_message_from_event(ev: ChatEvent, now: Instant) -> (r: Option<UserMessage>)
    ensures
        match (
            ev.chatter_user_name,
            ev.chatter_user_id,
            ev.message_text,
            ev.broadcaster_user_id,
            ev.broadcaster_user_name,
        ) {
            (Some(name), Some(id), Some(text), Some(bid), Some(bname)) => r matches Some(m) && m.username@
                == name@ && m.user_id@ == id@ && m.message@ == text@ && m.broadcast_id@ == bid@
                && m.broadcaster_name@ == lowercase_of(bname@) && m.timestamp == now,
            _ => r is None,
        },
{
    match (
        ev.chatter_user_name,
        ev.chatter_user_id,
        ev.message_text,
        ev.broadcaster_user_id,
        ev.broadcaster_user_name,
    ) {
        (Some(name), Some(id), Some(text), Some(bid), Some(bname)) => {
            let lower = to_lowercase(bname.as_str());
            Some(
                UserMessage {
                    user_id: id,
                    username: name,
                    message: text,
                    broadcast_id: bid,
                    broadcaster_name: lower,
                    timestamp: now,
                },
            )
        },
        _ => None,
    }
}

/// The condition of a chat message subscription.
#[derive(Debug)]
pub struct EventSubCondition {
    pub broadcaster_user_id: String,
    pub user_id: String,
}

/// How Twitch delivers a subscription's events.
#[derive(Debug)]
pub struct EventSubTransport {
    pub method: String,
    pub session_id: String,
}

/// The body of a subscription request (`reqtype` is sent as `type`).
#[derive(Debug)]
pub struct EventSubRequest {
    pub reqtype: String,
    pub version: String,
    pub condition: EventSubCondition,
    pub transport: EventSubTransport,
}

/// The request that subscribes the websocket session to the chat messages
/// of a broadcaster's channel.
pub fn eventsub_request(broadcaster_id: &str, user_id: &str, websocket_session_id: &str) -> (r:
    EventSubRequest)
    ensures
        r.reqtype@ == "channel.chat.message"@,
        r.version@ == "1"@,
        r.condition.broadcaster_user_id@ == broadcaster_id@,
        r.condition.user_id@ == user_id@,
        r.transport.method@ == "websocket"@,
        r.transport.session_id@ == websocket_session_id@,
{
    EventSubRequest {
        reqtype: String::from_str("channel.chat.message"),
        version: String::from_str("1"),
        condition: EventSubCondition {
            broadcaster_user_id: String::from_str(broadcaster_id),
            user_id: String::from_str(user_id),
        },
        transport: EventSubTransport {
            method: String::from_str("websocket"),
            session_id: String::from_str(websocket_session_id),
        },
    }
}

/// The body of a chat message post.
#[derive(Debug)]
pub struct MessageSendBody {
    pub broadcaster_id: String,
    pub sender_id: String,
    pub message: String,
}

/// What posting a chat message sends: the credentials' headers and the body.
#[derive(Debug)]
pub struct SendMessageRequest {
    pub authorization: String,
    pub client_id: String,
    pub body: MessageSendBody,
}

/// The request that posts `message` to a broadcaster's chat as `user_id`;
/// none when the user is not signed in.
pub fn send_message_request(
    broadcaster_id: String,
    user_id: String,
    api_config: ApiConfig,
    app_config: AppConfig,
    message: String,
) -> (r: Option<SendMessageRequest>)
    ensures
        match app_config.twitch_auth {
            None => r is None,
            Some(a) => r matches Some(q) && q.authorization@ == "Bearer "@ + a.access_token@
                && q.client_id == api_config.twitch_api_client_id && q.body.broadcaster_id
                == broadcaster_id && q.body.sender_id == user_id && q.body.message == message,
        },
{
    match app_config.twitch_auth {
        None => None,
        Some(a) => Some(
            SendMessageRequest {
                authorization: bearer_header(a.access_token.as_str()),
                client_id: api_config.twitch_api_client_id,
                body: MessageSendBody { broadcaster_id, sender_id: user_id, message },
            },
        ),
    }
}

/// The addresses that list a channel's emotes and the global emotes.
pub fn emote_list_urls(streamer_id: &str) -> (r: Vec<String>)
    ensures
        r@.len() == 2,
        r@[0]@ == "https://api.twitch.tv/helix/chat/emotes?broadcaster_id="@ + streamer_id@,
        r@[1]@ == "https://api.twitch.tv/helix/chat/emotes/global"@,
{
    let mut r: Vec<String> = Vec::new();
    r.push(concat_str("https://api.twitch.tv/helix/chat/emotes?broadcaster_id=", streamer_id));
    r.push(String::from_str("https://api.twitch.tv/helix/chat/emotes/global"));
    r
}

/// One emote of an emote list answer.
#[derive(Debug)]
pub struct EmoteData {
    pub name: Option<String>,
    /// Whether the entry has an `images` object.
    pub has_images: bool,
    pub url_1x: Option<String>,
    pub url_2x: Option<String>,
    pub url_4x: Option<String>,
}

/// What an emote list answer holds.
#[derive(Debug)]
pub enum EmoteList {
    /// The answer is not JSON.
    NotJson,
    /// The answer has no `data` array.
    NoDataArray,
    /// The entries of the `data` array, in order.
    Entries(Vec<EmoteData>),
}

/// The JSON pointer to `field` (such as `/name`) of entry `i` of the `data`
/// array.
pub open spec fn emote_pointer(i: int, field: Seq<char>) -> Seq<char> {
    "/data/"@ + decimal(i as nat) + field
}

/// `e` holds what entry `i` of the `data` array of `text` says: its name,
/// whether it has images, and the addresses of its three images.
pub open spec fn emote_entry_read(text: Seq<char>, i: int, e: EmoteData) -> bool {
    &&& opt_view(e.name) == json_str_at(text, emote_pointer(i, "/name"@))
    &&& e.has_images == json_has(text, emote_pointer(i, "/images"@))
    &&& opt_view(e.url_1x) == json_str_at(text, emote_pointer(i, "/images/url_1x"@))
    &&& opt_view(e.url_2x) == json_str_at(text, emote_pointer(i, "/images/url_2x"@))
    &&& opt_view(e.url_4x) == json_str_at(text, emote_pointer(i, "/images/url_4x"@))
}

/// The JSON pointer to `field` of entry `i` of the `data` array.
fn emote_field_pointer(i: usize, field: &str) -> (r: String)
    ensures
        r@ == emote_pointer(i as int, field@),
{
    let index = decimal_string(i);
    let head = concat_str("/data/", index.as_str());
    concat_str(head.as_str(), field)
}

/// Reads an emote list answer: each entry of its `data` array with its
/// name, whether it has images, and its three image addresses.
pub fn emote_entries_from_text(text: &str) -> (r: EmoteList)
    ensures
        match r {
            EmoteList::NotJson => !json_parses(text@),
            EmoteList::NoDataArray => json_parses(text@) && json_array_len_at(text@, "/data"@) is None,
            EmoteList::Entries(v) => {
                &&& json_array_len_at(text@, "/data"@) == Some(v@.len() as usize)
                &&& forall|i: int| 0 <= i < v@.len() ==> emote_entry_read(text@, i, #[trigger] v@[i])
            },
        },
{
    if !json_is_valid(text) {
        return EmoteList::NotJson;
    }
    let n = match json_array_len(text, "/data") {
        Some(n) => n,
        None => {
            return EmoteList::NoDataArray;
        },
    };
    let mut entries: Vec<EmoteData> = Vec::new();
    let mut i: usize = 0;
    while i < n
        invariant
            i <= n,
            entries@.len() == i,
            forall|j: int| 0 <= j < i ==> emote_entry_read(text@, j, #[trigger] entries@[j]),
        decreases n - i,
    {
        let e = EmoteData {
            name: json_str(text, emote_field_pointer(i, "/name").as_str()),
            has_images: json_present(text, emote_field_pointer(i, "/images").as_str()),
            url_1x: json_str(text, emote_field_pointer(i, "/images/url_1x").as_str()),
            url_2x: json_str(text, emote_field_pointer(i, "/images/url_2x").as_str()),
            url_4x: json_str(text, emote_field_pointer(i, "/images/url_4x").as_str()),
        };
        let ghost before = entries@;
        entries.push(e);
        proof {
            assert(entries@ == before.push(e));
            assert(emote_entry_read(text@, i as int, entries@[i as int]));
        }
        i += 1;
    }
    EmoteList::Entries(entries)
}

/// An entry that is kept: it has a name and images.
pub open spec fn emote_listed(e: EmoteData) -> bool {
    e.name is Some && e.has_images
}

/// Every kept entry has its three image addresses.
pub open spec fn emotes_complete(entries: Seq<EmoteData>) -> bool {
    forall|i: int|
        0 <= i < entries.len() && emote_listed(#[trigger] entries[i]) ==> entries[i].url_1x is Some
            && entries[i].url_2x is Some && entries[i].url_4x is Some
}

/// The emote map after adding the kept entries in order, each with its
/// smallest image.
pub open spec fn with_emotes(m: Map<Seq<char>, Seq<char>>, entries: Seq<EmoteData>) -> Map<
    Seq<char>,
    Seq<char>,
>
    decreases entries.len(),
{
    if entries.len() == 0 {
        m
    } else {
        let prev = with_emotes(m, entries.drop_last());
        let e = entries.last();
        if emote_listed(e) {
            prev.insert(e.name->0@, e.url_1x->0@)
        } else {
            prev
        }
    }
}

/// Whether every kept entry of an emote list has its three image addresses.
pub fn emote_entries_complete(entries: &Vec<EmoteData>) -> (r: bool)
    ensures
        r == emotes_complete(entries@),
{
    let mut i: usize = 0;
    while i < entries.len()
        invariant
            i <= entries@.len(),
            emotes_complete(entries@.take(i as int)),
        decreases entries@.len() - i,
    {
        let e = &entries[i];
        if e.name.is_some() && e.has_images && !(e.url_1x.is_some() && e.url_2x.is_some()
            && e.url_4x.is_some()) {
            assert(!emotes_complete(entries@)) by {
                assert(emote_listed(entries@[i as int]));
            }
            return false;
        }
        proof {
            let t = entries@.take(i + 1);
            assert forall|j: int|
                0 <= j < t.len() && emote_listed(#[trigger] t[j]) implies t[j].url_1x is Some
                && t[j].url_2x is Some && t[j].url_4x is Some by {
                if j < i {
                    assert(t[j] == entries@.take(i as int)[j]);
                }
            }
        }
        i += 1;
    }
    assert(entries@.take(entries@.len() as int) =~= entries@);
    true
}

/// Adds the emotes of one emote list answer to the database, each under its
/// name with the address of its smallest image; entries without a name or
/// images are skipped.
pub fn add_emotes_from_payload(db: &mut TwitchEmoteDatabase, entries: &Vec<EmoteData>)
    requires
        old(db).wf(),
        emotes_complete(entries@),
    ensures
        final(db).wf(),
        final(db).view_map() == with_emotes(old(db).view_map(), entries@),
{
    let ghost m0 = db.view_map();
    let mut i: usize = 0;
    while i < entries.len()
        invariant
            i <= entries@.len(),
            emotes_complete(entries@),
            db.wf(),
            db.view_map() == with_emotes(m0, entries@.take(i as int)),
        decreases entries@.len() - i,
    {
        proof {
            assert(entries@.take(i + 1).drop_last() =~= entries@.take(i as int));
            assert(entries@.take(i + 1).last() == entries@[i as int]);
        }
        let e = &entries[i];
        match (&e.name, e.has_images, &e.url_1x) {
            (Some(name), true, Some(url)) => {
                db.add_emote(name.as_str(), url.as_str());
            },
            _ => {
                proof {
                    if emote_listed(entries@[i as int]) {
                        assert(entries@[i as int].url_1x is Some);
                    }
                    assert(!emote_listed(entries@[i as int]));
                }
            },
        }
        i += 1;
    }
    assert(entries@.take(entries@.len() as int) =~= entries@);
}

/// The database to attach to a chat: none when no emote was found.
pub fn finish_emote_database(db: TwitchEmoteDatabase) -> (r: EmoteDatabaseEnum)
    requires
        db.wf(),
    ensures
        if db.view_map().dom().len() == 0 {
            r is NoDatabase
        } else {
            r == EmoteDatabaseEnum::TwitchEmoteDatabase(db)
        },
{
    if db.len() == 0 {
        EmoteDatabaseEnum::NoDatabase
    } else {
        EmoteDatabaseEnum::TwitchEmoteDatabase(db)
    }
}

/// The pause before each attempt to download an emote image: none before
/// the first, 100 ms before the second, 500 ms before the third; `None`
/// once the three attempts are spent.
pub fn emote_fetch_delay_ms(attempt: usize) -> (r: Option<Option<u64>>)
    ensures
        r == (if attempt == 0 {
            Some(None)
        } else if attempt == 1 {
            Some(Some(100u64))
        } else if attempt == 2 {
            Some(Some(500u64))
        } else {
            None
        }),
{
    if attempt == 0 {
        Some(None)
    } else if attempt == 1 {
        Some(Some(100))
    } else if attempt == 2 {
        Some(Some(500))
    } else {
        None
    }
}

} // verus!
