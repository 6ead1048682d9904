use std::time::Instant;
use streamchat::config::{ApiConfig, AppConfig, TwitchAuthPayload};
use streamchat::emotes::{EmoteDatabaseEnum, TwitchEmoteDatabase};
use streamchat::twitch::{
    add_emotes_from_payload, bearer_header, chat_message_from_event, emote_entries_complete,
    emote_fetch_delay_ms, emote_list_urls, eventsub_request, eventsub_status_accepted,
    finish_emote_database, first_user_id, send_message_request, session_step, status_is_ok,
    user_lookup_url, ChatEvent, EmoteData, SessionStep, SessionWelcome, UserIdEntry, UserIdPayload,
};

#[test]
fn request_addresses_and_headers() {
    assert_eq!(bearer_header("tok"), "Bearer tok");
    assert_eq!(user_lookup_url(Some("xqc")), "https://api.twitch.tv/helix/users?login=xqc");
    assert_eq!(user_lookup_url(None), "https://api.twitch.tv/helix/users");
    assert!(status_is_ok(200));
    assert!(!status_is_ok(202));
    assert!(eventsub_status_accepted(202));
    assert!(eventsub_status_accepted(200));
    assert!(!eventsub_status_accepted(401));
    let urls = emote_list_urls("123");
    assert_eq!(urls, vec![
        "https://api.twitch.tv/helix/chat/emotes?broadcaster_id=123".to_string(),
        "https://api.twitch.tv/helix/chat/emotes/global".to_string(),
    ]);
    assert_eq!(emote_fetch_delay_ms(0), Some(None));
    assert_eq!(emote_fetch_delay_ms(1), Some(Some(100)));
    assert_eq!(emote_fetch_delay_ms(2), Some(Some(500)));
    assert_eq!(emote_fetch_delay_ms(3), None);
}

#[test]
fn user_lookup_answer() {
    let empty = UserIdPayload { data: vec![] };
    assert_eq!(first_user_id(&empty), None);
    let two = UserIdPayload { data: vec![UserIdEntry { id: "7".into() }, UserIdEntry { id: "8".into() }] };
    assert_eq!(first_user_id(&two), Some("7".to_string()));
}

#[test]
fn session_status() {
    let connected = SessionWelcome { status: Some("connected".into()), id: Some("abc".into()) };
    assert!(matches!(session_step(&connected), SessionStep::Connected(ref i) if i == "abc"));
    let other = SessionWelcome { status: Some("reconnecting".into()), id: Some("abc".into()) };
    assert!(matches!(session_step(&other), SessionStep::InvalidStatus(ref s) if s == "reconnecting"));
    let none = SessionWelcome { status: None, id: None };
    assert!(matches!(session_step(&none), SessionStep::NoStatus));
    let no_id = SessionWelcome { status: Some("connected".into()), id: None };
    assert!(matches!(session_step(&no_id), SessionStep::MissingSessionId));
}

#[test]
fn chat_event_to_message() {
    let now = Instant::now();
    let ev = ChatEvent {
        chatter_user_name: Some("Alice".into()),
        chatter_user_id: Some("11".into()),
        broadcaster_user_id: Some("22".into()),
        broadcaster_user_name: Some("BigStreamer".into()),
        message_text: Some("Hello".into()),
    };
    let m = chat_message_from_event(ev, now).unwrap();
    assert_eq!(m.username, "Alice");
    assert_eq!(m.user_id, "11");
    assert_eq!(m.broadcast_id, "22");
    assert_eq!(m.broadcaster_name, "bigstreamer");
    assert_eq!(m.message, "Hello");
    assert_eq!(m.timestamp, now);
    let partial = ChatEvent {
        chatter_user_name: Some("Alice".into()),
        chatter_user_id: None,
        broadcaster_user_id: Some("22".into()),
        broadcaster_user_name: Some("b".into()),
        message_text: Some("Hello".into()),
    };
    assert!(chat_message_from_event(partial, now).is_none());
}

#[test]
fn request_bodies() {
    let r = eventsub_request("b1", "u1", "s1");
    assert_eq!(r.reqtype, "channel.chat.message");
    assert_eq!(r.version, "1");
    assert_eq!(r.condition.broadcaster_user_id, "b1");
    assert_eq!(r.condition.user_id, "u1");
    assert_eq!(r.transport.method, "websocket");
    assert_eq!(r.transport.session_id, "s1");

    let api = ApiConfig { twitch_api_client_id: "cid".into(), twitch_api_secret: "s".into() };
    let signed_in = AppConfig {
        twitch_auth: Some(TwitchAuthPayload {
            access_token: "at".into(),
            refresh_token: "rt".into(),
            expiration_timestamp: Instant::now(),
        }),
    };
    let q = send_message_request("b".into(), "u".into(), api.clone(), signed_in, "hey".into()).unwrap();
    assert_eq!(q.authorization, "Bearer at");
    assert_eq!(q.client_id, "cid");
    assert_eq!(q.body.broadcaster_id, "b");
    assert_eq!(q.body.sender_id, "u");
    assert_eq!(q.body.message, "hey");
    assert!(send_message_request("b".into(), "u".into(), api, AppConfig { twitch_auth: None }, "hey".into()).is_none());
}

fn emote(name: Option<&str>, images: bool, urls: bool) -> EmoteData {
    EmoteData {
        name: name.map(String::from),
        has_images: images,
        url_1x: urls.then(|| format!("{}-1x", name.unwrap_or("?"))),
        url_2x: urls.then(|| "2x".to_string()),
        url_4x: urls.then(|| "4x".to_string()),
    }
}

#[test]
fn emote_lists_fill_the_database() {
    let entries = vec![
        emote(Some("Kappa"), true, true),
        emote(None, true, true),
        emote(Some("NoImages"), false, false),
        emote(Some("Kappa"), true, true),
        emote(Some("PogChamp"), true, true),
    ];
    assert!(emote_entries_complete(&entries));
    let mut db = TwitchEmoteDatabase::new();
    add_emotes_from_payload(&mut db, &entries);
    assert_eq!(db.len(), 2);
    assert_eq!(db.get_emote_url("Kappa"), Some("Kappa-1x".to_string()));
    assert_eq!(db.get_emote_url("PogChamp"), Some("PogChamp-1x".to_string()));
    assert_eq!(db.get_emote_url("NoImages"), None);
    assert!(matches!(finish_emote_database(db), EmoteDatabaseEnum::TwitchEmoteDatabase(_)));
    assert!(matches!(finish_emote_database(TwitchEmoteDatabase::new()), EmoteDatabaseEnum::NoDatabase));
    assert!(!emote_entries_complete(&vec![emote(Some("x"), true, false)]));
    assert!(emote_entries_complete(&vec![emote(Some("x"), false, false)]));
}

#[test]
fn emote_added_is_found() {
    let mut db = TwitchEmoteDatabase::new();
    db.add_emote("a", "u1");
    db.add_emote("b", "u2");
    db.add_emote("a", "u3");
    assert_eq!(db.len(), 2);
    assert_eq!(db.get_emote_url("a"), Some("u3".to_string()));
    assert_eq!(db.get_emote_url("b"), Some("u2".to_string()));
    assert_eq!(db.get_emote_url("c"), None);
}
