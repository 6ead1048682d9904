use crate::chat::ChatStreamMessage;
use crate::text::{concat_str, equals, split_once_str, split_once_str_seq};
use tokio_util::sync::CancellationToken;
use vstd::prelude::*;

verus! {

/// Where a chat stream's messages come from.
#[derive(Debug)]
pub enum StreamSource {
    /// A CSV file of scheduled messages, by path.
    File(String),
    /// A Twitch channel, by name.
    Twitch(String),
}

/// What `parse_stream_url` yields for a url: the part before `"://"` names
/// the protocol (`file` or `twitch`) and the rest the path.
pub open spec fn stream_url_result(url: Seq<char>, r: Result<StreamSource, String>) -> bool {
    let (protocol, path) = split_once_str_seq(url, "://"@);
    match path {
        None => r matches Err(e) && e@ == "Invalid url, no protocol found."@,
        Some(p) => if protocol == "file"@ {
            r matches Ok(StreamSource::File(f)) && f@ == p
        } else if protocol == "twitch"@ {
            r matches Ok(StreamSource::Twitch(t)) && t@ == p
        } else {
            r matches Err(e) && e@ == "Invalid protocol: "@ + protocol
        },
    }
}

/// Reads a stream url such as `twitch://name` or `file://path`.
pub fn parse_stream_url(url: &str) -> (r: Result<StreamSource, String>)
    ensures
        stream_url_result(url@, r),
{
    proof {
        reveal_strlit("://");
    }
    let (protocol, path) = split_once_str(url, "://");
    match path {
        None => Err(String::from_str("Invalid url, no protocol found.")),
        Some(p) => {
            if equals(protocol.as_str(), "file") {
                Ok(StreamSource::File(p))
            } else if equals(protocol.as_str(), "twitch") {
                Ok(StreamSource::Twitch(p))
            } else {
                Err(concat_str("Invalid protocol: ", protocol.as_str()))
            }
        },
    }
}

/// The broadcaster id, broadcaster name, user id and stop token that a
/// stream reports once it is set up, when it has them.
pub type BroadcasterInfo = (String, String, String, Option<CancellationToken>);

/// The reports that a stream task sends once its stream is set up, in order.
pub open spec fn startup_reports(info: Option<BroadcasterInfo>, r: Seq<ChatStreamMessage>) -> bool {
    match info {
        None => r == seq![ChatStreamMessage::MessageStreamInitState(true)],
        Some((id, name, user, token)) => match token {
            Some(t) => r == seq![
                ChatStreamMessage::SaveBroadcasterInfo(id, name, t),
                ChatStreamMessage::SaveUserId(user),
                ChatStreamMessage::InitializeEmoteDb,
                ChatStreamMessage::MessageStreamInitState(true),
            ],
            None => {
                &&& r.len() == 2
                &&& r[0] matches ChatStreamMessage::InitializeChatError(e) && e@
                    == "Failed to get cancellation token."@
                &&& r[1] == ChatStreamMessage::MessageStreamInitState(true)
            },
        },
    }
}

/// The reports that a stream task sends once its stream is set up: the
/// broadcaster details, the user id and a request for emotes when the stream
/// has a stop token, an error when it has details but no token, and then
/// that the stream is ready.
pub fn stream_startup_messages(info: Option<BroadcasterInfo>) -> (r: Vec<ChatStreamMessage>)
    ensures
        startup_reports(info, r@),
{
    let mut r: Vec<ChatStreamMessage> = Vec::new();
    match info {
        Some((id, name, user, token)) => match token {
            Some(t) => {
                r.push(ChatStreamMessage::SaveBroadcasterInfo(id, name, t));
                r.push(ChatStreamMessage::SaveUserId(user));
                r.push(ChatStreamMessage::InitializeEmoteDb);
                r.push(ChatStreamMessage::MessageStreamInitState(true));
                assert(r@ =~= seq![
                    ChatStreamMessage::SaveBroadcasterInfo(id, name, t),
                    ChatStreamMessage::SaveUserId(user),
                    ChatStreamMessage::InitializeEmoteDb,
                    ChatStreamMessage::MessageStreamInitState(true),
                ]);
            },
            None => {
                r.push(
                    ChatStreamMessage::InitializeChatError(
                        String::from_str("Failed to get cancellation token."),
                    ),
                );
                r.push(ChatStreamMessage::MessageStreamInitState(true));
            },
        },
        None => {
            r.push(ChatStreamMessage::MessageStreamInitState(true));
            assert(r@ =~= seq![ChatStreamMessage::MessageStreamInitState(true)]);
        },
    }
    r
}

} // verus!
