use streamchat::text::decimal_string;
use streamchat::twitch::{
    add_emotes_from_payload, chat_event_from_text, chat_message_from_event, emote_entries_complete,
    emote_entries_from_text, session_step, session_welcome_from_text, EmoteList, SessionStep,
};
use streamchat::emotes::TwitchEmoteDatabase;
use std::time::Instant;

#[test]
fn numbers_in_decimal() {
    assert_eq!(decimal_string(0), "0");
    assert_eq!(decimal_string(7), "7");
    assert_eq!(decimal_string(10), "10");
    assert_eq!(decimal_string(305), "305");
    assert_eq!(decimal_string(18446744073709551615), "18446744073709551615");
}

#[test]
fn welcome_message_is_read() {
    let text = r#"{"metadata":{"message_type":"session_welcome"},"payload":{"session":{"id":"AQoQexAWVYKSTIu4ec_2VAxyuhAB","status":"connected","keepalive_timeout_seconds":10}}}"#;
    let w = session_welcome_from_text(text).unwrap();
    assert_eq!(w.status.as_deref(), Some("connected"));
    assert_eq!(w.id.as_deref(), Some("AQoQexAWVYKSTIu4ec_2VAxyuhAB"));
    assert!(matches!(session_step(&w), SessionStep::Connected(ref id) if id == "AQoQexAWVYKSTIu4ec_2VAxyuhAB"));
    let keepalive = session_welcome_from_text(r#"{"metadata":{},"payload":{}}"#).unwrap();
    assert!(keepalive.status.is_none());
    assert!(keepalive.id.is_none());
    let numeric = session_welcome_from_text(r#"{"payload":{"session":{"status":5,"id":"x"}}}"#).unwrap();
    assert!(numeric.status.is_none());
    assert!(session_welcome_from_text("not json").is_none());
    assert!(session_welcome_from_text("").is_none());
}

#[test]
fn chat_notification_is_read() {
    let text = r#"{"payload":{"event":{"broadcaster_user_id":"1971641","broadcaster_user_login":"streamer","broadcaster_user_name":"StreamER","chatter_user_id":"4145994","chatter_user_login":"viewer32","chatter_user_name":"viewer32","message":{"text":"Hi chat","fragments":[]}}}}"#;
    let ev = chat_event_from_text(text).unwrap();
    assert_eq!(ev.chatter_user_name.as_deref(), Some("viewer32"));
    assert_eq!(ev.chatter_user_id.as_deref(), Some("4145994"));
    assert_eq!(ev.broadcaster_user_id.as_deref(), Some("1971641"));
    assert_eq!(ev.broadcaster_user_name.as_deref(), Some("StreamER"));
    assert_eq!(ev.message_text.as_deref(), Some("Hi chat"));
    let now = Instant::now();
    let m = chat_message_from_event(ev, now).unwrap();
    assert_eq!(m.broadcaster_name, "streamer");
    assert_eq!(m.message, "Hi chat");
    let partial = chat_event_from_text(r#"{"payload":{"event":{"chatter_user_name":"a"}}}"#).unwrap();
    assert!(partial.message_text.is_none());
    assert!(chat_message_from_event(partial, now).is_none());
    assert!(chat_event_from_text("{\"payload\":").is_none());
}

#[test]
fn emote_list_is_read() {
    let text = r#"{"data":[
        {"id":"1","name":"Kappa","images":{"url_1x":"k1","url_2x":"k2","url_4x":"k4"}},
        {"id":"2","images":{"url_1x":"n1","url_2x":"n2","url_4x":"n4"}},
        {"id":"3","name":"NoImages"},
        {"id":"4","name":"LUL","images":{"url_1x":"l1","url_2x":"l2","url_4x":"l4"}}
    ],"template":"x"}"#;
    let entries = match emote_entries_from_text(text) {
        EmoteList::Entries(v) => v,
        other => panic!("unexpected {:?}", other),
    };
    assert_eq!(entries.len(), 4);
    assert_eq!(entries[0].name.as_deref(), Some("Kappa"));
    assert!(entries[0].has_images);
    assert_eq!(entries[0].url_1x.as_deref(), Some("k1"));
    assert_eq!(entries[0].url_2x.as_deref(), Some("k2"));
    assert_eq!(entries[0].url_4x.as_deref(), Some("k4"));
    assert!(entries[1].name.is_none());
    assert!(!entries[2].has_images);
    assert!(entries[2].url_1x.is_none());
    assert_eq!(entries[3].url_1x.as_deref(), Some("l1"));
    assert!(emote_entries_complete(&entries));
    let mut db = TwitchEmoteDatabase::new();
    add_emotes_from_payload(&mut db, &entries);
    assert_eq!(db.len(), 2);
    assert_eq!(db.get_emote_url("Kappa").as_deref(), Some("k1"));
    assert_eq!(db.get_emote_url("LUL").as_deref(), Some("l1"));
    assert!(db.get_emote_url("NoImages").is_none());

    assert!(matches!(emote_entries_from_text(r#"{"data":[]}"#), EmoteList::Entries(ref v) if v.is_empty()));
    assert!(matches!(emote_entries_from_text(r#"{"error":"Unauthorized"}"#), EmoteList::NoDataArray));
    assert!(matches!(emote_entries_from_text(r#"{"data":{"0":{}}}"#), EmoteList::NoDataArray));
    assert!(matches!(emote_entries_from_text("<html>"), EmoteList::NotJson));
}
