use streamchat::chat::ChatStreamMessage;
use streamchat::stream::{parse_stream_url, stream_startup_messages, StreamSource};
use tokio_util::sync::CancellationToken;

#[test]
fn stream_urls() {
    assert!(matches!(parse_stream_url("twitch://xqc"), Ok(StreamSource::Twitch(ref n)) if n == "xqc"));
    assert!(matches!(parse_stream_url("file://chat.csv"), Ok(StreamSource::File(ref p)) if p == "chat.csv"));
    assert_eq!(parse_stream_url("chat.csv").unwrap_err(), "Invalid url, no protocol found.");
    assert_eq!(parse_stream_url("http://x").unwrap_err(), "Invalid protocol: http");
}

#[test]
fn startup_reports() {
    let r = stream_startup_messages(None);
    assert!(matches!(r[..], [ChatStreamMessage::MessageStreamInitState(true)]));
    let r = stream_startup_messages(Some(("1".into(), "name".into(), "u".into(), Some(CancellationToken::new()))));
    assert_eq!(r.len(), 4);
    assert!(matches!(r[0], ChatStreamMessage::SaveBroadcasterInfo(ref a, ref b, _) if a == "1" && b == "name"));
    assert!(matches!(r[1], ChatStreamMessage::SaveUserId(ref u) if u == "u"));
    assert!(matches!(r[2], ChatStreamMessage::InitializeEmoteDb));
    assert!(matches!(r[3], ChatStreamMessage::MessageStreamInitState(true)));
    let r = stream_startup_messages(Some(("1".into(), "name".into(), "u".into(), None)));
    assert_eq!(r.len(), 2);
    assert!(matches!(r[0], ChatStreamMessage::InitializeChatError(ref e) if e == "Failed to get cancellation token."));
}
