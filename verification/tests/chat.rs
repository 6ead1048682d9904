use streamchat::chat::{key_release_message, KeyInput, Modifiers};
use std::time::Instant;
use streamchat::chat::{ChatStreamMessage, Command, Message, SpecialKey, StreamChat, MAX_CHAT_MESSAGES};
use streamchat::config::{ApiConfig, AppConfig};
use streamchat::emotes::{EmoteDatabaseEnum, TwitchEmoteDatabase};
use streamchat::message::UserMessage;
use tokio_util::sync::CancellationToken;

fn msg(user_id: &str, text: &str) -> UserMessage {
    UserMessage::new(user_id, user_id, text, "b1", "chan", Instant::now())
}

fn post(chat: &mut StreamChat, m: UserMessage) -> Command {
    chat.update(Message::HandleChatStreamOutput(ChatStreamMessage::MessagePost(m)))
}

fn texts(chat: &StreamChat, i: usize) -> Vec<String> {
    chat.chat_instances[i].active_messages.iter().map(|m| m.message.clone()).collect()
}

#[test]
fn opening_a_stream_subscribes_and_shows_it() {
    let mut chat = StreamChat::new();
    assert_eq!(chat.title(), "StreamChat - [unnamed]");
    match chat.update(Message::OpenChatStream("xqc".to_string())) {
        Command::SubscribeChatStream { stream_name, url } => {
            assert_eq!(stream_name, "xqc");
            assert_eq!(url, "twitch://xqc");
        }
        other => panic!("unexpected {:?}", other),
    }
    assert_eq!(chat.active_chat_instance, "xqc");
    assert_eq!(chat.title(), "StreamChat - [xqc]");
    assert_eq!(chat.chat_instances.len(), 1);
    // Opening it again does nothing.
    assert!(matches!(chat.update(Message::OpenChatStream("xqc".to_string())), Command::NoOp));
    assert_eq!(chat.chat_instances.len(), 1);
}

#[test]
fn closing_cancels_the_stream_and_shows_another_chat() {
    let mut chat = StreamChat::new();
    chat.update(Message::OpenChatStream("a".to_string()));
    chat.update(Message::OpenChatStream("b".to_string()));
    let token = CancellationToken::new();
    let cmd = chat.update(Message::HandleChatStreamOutput(ChatStreamMessage::SaveBroadcasterInfo(
        "42".to_string(),
        "b".to_string(),
        token.clone(),
    )));
    assert!(matches!(cmd, Command::NoOp));
    assert_eq!(chat.chat_instances[1].broadcaster_id.as_deref(), Some("42"));
    assert!(!token.is_cancelled());
    match chat.update(Message::CloseActiveChatStream) {
        Command::CancelStream(t) => t.cancel(),
        other => panic!("unexpected {:?}", other),
    }
    assert!(token.is_cancelled());
    assert_eq!(chat.active_chat_instance, "a");
    // The remaining chat has no stream token yet: nothing to stop.
    assert!(matches!(chat.update(Message::CloseActiveChatStream), Command::NoOp));
    assert_eq!(chat.active_chat_instance, "");
    assert!(chat.chat_instances.is_empty());
}

#[test]
fn broadcaster_info_for_unknown_chat_is_an_error() {
    let mut chat = StreamChat::new();
    match chat.update(Message::HandleChatStreamOutput(ChatStreamMessage::SaveBroadcasterInfo(
        "1".to_string(),
        "nobody".to_string(),
        CancellationToken::new(),
    ))) {
        Command::Dispatch(v) => match &v[..] {
            [Message::HandleError(e)] => assert_eq!(e, "Cannot save broadcast info for broascaster: nobody"),
            other => panic!("unexpected {:?}", other),
        },
        other => panic!("unexpected {:?}", other),
    }
}

#[test]
fn messages_are_capped_and_held_back_while_scrolled() {
    let mut chat = StreamChat::new();
    chat.update(Message::OpenChatStream("s".to_string()));
    for i in 0..(MAX_CHAT_MESSAGES + 5) {
        post(&mut chat, msg("u", &format!("m{}", i)));
    }
    let shown = texts(&chat, 0);
    assert_eq!(shown.len(), MAX_CHAT_MESSAGES);
    assert_eq!(shown[0], "m5");
    assert_eq!(shown[MAX_CHAT_MESSAGES - 1], "m104");

    chat.update(Message::ChatViewportScroll(true));
    post(&mut chat, msg("u", "late1"));
    post(&mut chat, msg("u", "late2"));
    assert_eq!(texts(&chat, 0).last().unwrap(), "m104");
    assert_eq!(chat.chat_instances[0].frozen_messages.len(), 2);

    chat.update(Message::ChatViewportScroll(false));
    let shown = texts(&chat, 0);
    assert_eq!(shown.len(), MAX_CHAT_MESSAGES);
    assert_eq!(shown[MAX_CHAT_MESSAGES - 2], "late1");
    assert_eq!(shown[MAX_CHAT_MESSAGES - 1], "late2");
    assert!(chat.chat_instances[0].frozen_messages.is_empty());
}

#[test]
fn sending_needs_broadcaster_and_user() {
    let mut chat = StreamChat::new();
    chat.update(Message::UpdateAppConfig(Some((
        ApiConfig { twitch_api_client_id: "cid".to_string(), twitch_api_secret: "sec".to_string() },
        AppConfig { twitch_auth: None },
    ))));
    chat.update(Message::OpenChatStream("s".to_string()));
    chat.update(Message::InputMessageChanged("   ".to_string()));
    assert!(matches!(chat.update(Message::SendInputMessage), Command::NoOp));
    assert_eq!(chat.input_message, "   ");

    chat.update(Message::InputMessageChanged("  hello  ".to_string()));
    assert!(matches!(chat.update(Message::SendInputMessage), Command::NoOp));
    assert_eq!(chat.input_message, "");

    chat.update(Message::HandleChatStreamOutput(ChatStreamMessage::SaveBroadcasterInfo(
        "b9".to_string(),
        "s".to_string(),
        CancellationToken::new(),
    )));
    chat.update(Message::HandleChatStreamOutput(ChatStreamMessage::SaveUserId("u7".to_string())));
    chat.update(Message::InputMessageChanged(" hi all ".to_string()));
    match chat.update(Message::SendInputMessage) {
        Command::SendChatMessage { broadcaster_id, user_id, api_config, message, .. } => {
            assert_eq!(broadcaster_id, "b9");
            assert_eq!(user_id, "u7");
            assert_eq!(api_config.twitch_api_client_id, "cid");
            assert_eq!(message, "hi all");
        }
        other => panic!("unexpected {:?}", other),
    }
}

#[test]
fn palette_keys_and_actions() {
    let mut chat = StreamChat::new();
    assert!(matches!(
        chat.update(Message::CommandPaletteToggle(true, Some("open stream: abc".to_string()))),
        Command::FocusCommandPalette
    ));
    assert!(chat.command_palette_ctx.active);
    assert_eq!(chat.command_palette_ctx.selected_index, 0);
    match chat.update(Message::HandleSpecialKey(SpecialKey::ArrowDown)) {
        Command::Dispatch(v) => assert!(matches!(v[..], [Message::CommandPaletteHighlightActionIndex(0)])),
        other => panic!("unexpected {:?}", other),
    }
    match chat.update(Message::HandleSpecialKey(SpecialKey::ArrowUp)) {
        Command::Dispatch(v) => assert!(matches!(v[..], [Message::CommandPaletteHighlightActionIndex(-1)])),
        other => panic!("unexpected {:?}", other),
    }
    match chat.update(Message::CommandPaletteSelect) {
        Command::Dispatch(v) => {
            assert_eq!(v.len(), 2);
            match &v[0] {
                Message::CommandPaletteHandleAction(a, Some(args)) => {
                    assert_eq!(a, "open stream");
                    assert_eq!(args, &vec!["abc".to_string()]);
                }
                other => panic!("unexpected {:?}", other),
            }
            assert!(matches!(v[1], Message::CommandPaletteToggle(false, None)));
        }
        other => panic!("unexpected {:?}", other),
    }
    match chat.update(Message::CommandPaletteHandleAction("open stream".to_string(), Some(vec!["abc".to_string()]))) {
        Command::Dispatch(v) => match &v[..] {
            [Message::OpenChatStream(n)] => assert_eq!(n, "abc"),
            other => panic!("unexpected {:?}", other),
        },
        other => panic!("unexpected {:?}", other),
    }
    match chat.update(Message::CommandPaletteHandleAction("dance".to_string(), None)) {
        Command::Dispatch(v) => match &v[..] {
            [Message::HandleError(e)] => assert_eq!(e, "Unknown action: dance"),
            other => panic!("unexpected {:?}", other),
        },
        other => panic!("unexpected {:?}", other),
    }
    match chat.update(Message::CommandPaletteHandleAction("open stream".to_string(), None)) {
        Command::Dispatch(v) => match &v[..] {
            [Message::HandleError(e)] => assert_eq!(e, "No stream selected to open..."),
            other => panic!("unexpected {:?}", other),
        },
        other => panic!("unexpected {:?}", other),
    }
    match chat.update(Message::HandleSpecialKey(SpecialKey::Escape)) {
        Command::Dispatch(v) => assert!(matches!(v[..], [Message::CommandPaletteToggle(false, None)])),
        other => panic!("unexpected {:?}", other),
    }
    match chat.update(Message::CommandPaletteToggle(false, None)) {
        Command::Dispatch(v) => assert!(matches!(v[..], [Message::FocusChatArea])),
        other => panic!("unexpected {:?}", other),
    }
    assert!(!chat.command_palette_ctx.active);
    assert_eq!(chat.command_palette_ctx.query, "");
    assert!(matches!(chat.update(Message::HandleSpecialKey(SpecialKey::Tab)), Command::NoOp));
    assert!(matches!(
        chat.update(Message::CommandPaletteHandleAction("quit".to_string(), None)),
        Command::Dispatch(ref v) if matches!(v[..], [Message::Terminate])
    ));
}

#[test]
fn simple_events() {
    let mut chat = StreamChat::new();
    assert!(matches!(chat.update(Message::InitializeApp), Command::InitializeApp));
    assert!(matches!(chat.update(Message::Terminate), Command::CloseWindow));
    assert!(matches!(chat.update(Message::FocusChatArea), Command::FocusChatInput));
    assert!(matches!(chat.update(Message::Nothing), Command::NoOp));
    assert!(matches!(chat.update(Message::ChatStreamError(None)), Command::NoOp));
    assert!(matches!(
        chat.update(Message::ChatStreamError(Some("x".to_string()))),
        Command::Dispatch(ref v) if matches!(v[..], [Message::Terminate])
    ));
    match chat.update(Message::UpdateAppConfig(None)) {
        Command::Dispatch(v) => match &v[..] {
            [Message::HandleError(e)] => assert_eq!(e, "Failed to initialize config."),
            other => panic!("unexpected {:?}", other),
        },
        other => panic!("unexpected {:?}", other),
    }
    chat.update(Message::OpenChatStream("one".to_string()));
    chat.update(Message::OpenChatStream("two".to_string()));
    chat.update(Message::SwitchActiveChat("one".to_string()));
    assert_eq!(chat.active_chat_instance, "one");
    chat.update(Message::SwitchActiveChat("three".to_string()));
    assert_eq!(chat.active_chat_instance, "one");
    match chat.update(Message::HandleChatStreamOutput(ChatStreamMessage::InitializeEmoteDb)) {
        Command::CreateEmoteDatabase(n) => assert_eq!(n, "one"),
        other => panic!("unexpected {:?}", other),
    }
    let mut db = TwitchEmoteDatabase::new();
    db.add_emote("Kappa", "http://k");
    chat.update(Message::AttachEmoteDatabase("two".to_string(), EmoteDatabaseEnum::TwitchEmoteDatabase(db)));
    assert!(chat.chat_instances[1].emote_db.is_some());
    assert!(chat.chat_instances[0].emote_db.is_none());
    chat.update(Message::HandleChatStreamOutput(ChatStreamMessage::MessageStreamInitState(true)));
    assert!(chat.subscribed_to_message_stream);
}

#[test]
fn key_releases_map_to_events() {
    let none = Modifiers { ctrl: false, shift: false, alt: false, logo: false };
    let ctrl = Modifiers { ctrl: true, ..none };
    let logo = Modifiers { logo: true, ..none };
    let ctrl_shift = Modifiers { ctrl: true, shift: true, ..none };
    let command = ctrl;
    assert!(matches!(
        key_release_message(KeyInput::Named(SpecialKey::Tab), ctrl_shift, command),
        Some(Message::HandleSpecialKey(SpecialKey::Tab))
    ));
    assert!(key_release_message(KeyInput::OtherNamed, none, command).is_none());
    assert!(matches!(
        key_release_message(KeyInput::Character("p".into()), ctrl, command),
        Some(Message::CommandPaletteToggle(true, None))
    ));
    assert!(key_release_message(KeyInput::Character("p".into()), ctrl_shift, command).is_none());
    assert!(matches!(
        key_release_message(KeyInput::Character("t".into()), logo, command),
        Some(Message::CommandPaletteToggle(true, Some(ref q))) if q == "open stream: "
    ));
    assert!(matches!(
        key_release_message(KeyInput::Character("n".into()), ctrl, command),
        Some(Message::CommandPaletteToggle(true, Some(ref q))) if q == "open stream: "
    ));
    assert!(matches!(
        key_release_message(KeyInput::Character("w".into()), logo, logo),
        Some(Message::CloseActiveChatStream)
    ));
    assert!(key_release_message(KeyInput::Character("w".into()), none, command).is_none());
    assert!(key_release_message(KeyInput::Character("x".into()), ctrl, command).is_none());
}

#[test]
fn view_helpers() {
    let mut chat = StreamChat::new();
    assert!(!chat.listens_to_keys());
    assert!(!chat.can_send());
    assert!(!chat.is_own_message(&msg("u1", "x")));
    chat.update(Message::UpdateAppConfig(Some((
        ApiConfig { twitch_api_client_id: "c".into(), twitch_api_secret: "s".into() },
        AppConfig { twitch_auth: None },
    ))));
    assert!(chat.listens_to_keys());
    chat.update(Message::HandleChatStreamOutput(ChatStreamMessage::SaveUserId("u1".into())));
    assert!(chat.is_own_message(&msg("u1", "x")));
    assert!(!chat.is_own_message(&msg("u2", "x")));
    chat.update(Message::InputMessageChanged("a".into()));
    assert!(chat.can_send());
    assert_eq!(chat.get_chat_instance_index("none"), None);
}
